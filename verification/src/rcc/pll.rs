//! The PLL: which divider settings the hardware allows, and the search for
//! the setting that comes closest to a system clock asked for.

use vstd::prelude::*;
use crate::rcc::SYSCLK_MAX_HZ;

verus! {

/// Lowest frequency the PLL accepts at its input, after the input divider.
pub const VCO_IN_MIN_HZ: u32 = 1_000_000;

/// Highest frequency the PLL accepts at its input, after the input divider.
pub const VCO_IN_MAX_HZ: u32 = 2_000_000;

/// Lowest frequency at which the oscillator of the PLL runs.
pub const VCO_OUT_MIN_HZ: u32 = 100_000_000;

/// Highest frequency at which the oscillator of the PLL runs.
pub const VCO_OUT_MAX_HZ: u32 = 432_000_000;

/// How far below the system clock asked for the PLL may end up, at most, for
/// a request inside the range of [`pll_in_range`].
pub const PLL_TOLERANCE_HZ: u32 = 1_000_000;

/// Whether the dividers `m`, `n` and `p` are a setting of the PLL that the
/// hardware allows for an input clock of `source` hertz and that gives a
/// system clock of no more than `target` hertz:
/// the input divider `m` brings the input into 1 to 2 MHz, the multiplier `n`
/// brings the oscillator into 100 to 432 MHz, and the output divider `p` is
/// 2, 4, 6 or 8. Frequencies are compared exactly, as fractions.
pub open spec fn pll_valid(source: int, target: int, m: int, n: int, p: int) -> bool {
    &&& 2 <= m <= 63
    &&& 50 <= n <= 432
    &&& (p == 2 || p == 4 || p == 6 || p == 8)
    &&& 1_000_000 * m <= source <= 2_000_000 * m
    &&& 100_000_000 * m <= source * n <= 432_000_000 * m
    &&& source * n <= target * (m * p)
}

/// The system clock that the PLL gives with the dividers `m`, `n` and `p`
/// from an input clock of `source` hertz, in whole hertz.
pub open spec fn pll_sysclk(source: int, m: int, n: int, p: int) -> int {
    (source * n) / (m * p)
}

/// The order in which settings are preferred where they give the same system
/// clock: the smaller output divider first, which keeps the oscillator
/// slower, then the smaller input divider, which keeps the PLL input faster.
pub open spec fn pll_preferred(p: int, m: int, than_p: int, than_m: int) -> bool {
    p < than_p || (p == than_p && m < than_m)
}

/// Whether `(m, n, p)` is the best setting of the PLL for `source` and
/// `target`: it is allowed, no allowed setting comes closer to `target` from
/// below, and none that comes as close is preferred to it.
pub open spec fn pll_best(source: int, target: int, m: int, n: int, p: int) -> bool {
    &&& pll_valid(source, target, m, n, p)
    &&& forall|mx: int, nx: int, px: int| #[trigger]
        pll_valid(source, target, mx, nx, px) ==> {
            &&& pll_sysclk(source, mx, nx, px) <= pll_sysclk(source, m, n, p)
            &&& pll_sysclk(source, mx, nx, px) == pll_sysclk(source, m, n, p) ==> !pll_preferred(
                px,
                mx,
                p,
                m,
            )
        }
}

/// The requests for which the PLL is sure to have a setting within
/// [`PLL_TOLERANCE_HZ`]: an input clock of 2 to 50 MHz and a system clock of
/// 12.75 to 216 MHz.
pub open spec fn pll_in_range(source: int, target: int) -> bool {
    &&& 2_000_000 <= source <= 50_000_000
    &&& 12_750_000 <= target <= 216_000_000
}

/// The dividers of the PLL.
#[derive(Clone, Copy, Debug, PartialEq, Eq, Structural)]
pub struct PllDividers {
    /// Input divider, 2 to 63.
    pub m: u8,
    /// Multiplier, 50 to 432.
    pub n: u16,
    /// Divider for the system clock: 2, 4, 6 or 8.
    pub p: u8,
}

pub(crate) proof fn lemma_quotient_bounds(a: int, d: int, x: int)
    by (nonlinear_arith)
    requires
        0 <= a,
        0 < d,
        0 <= x,
    ensures
        x <= a / d <==> x * d <= a,
        (a / d) * d <= a,
        a < (a / d + 1) * d,
{
}

pub(crate) proof fn lemma_product_ordered(x: int, y: int, d: int)
    by (nonlinear_arith)
    requires
        x <= y,
        0 <= d,
    ensures
        d * x <= d * y,
        x * d <= y * d,
{
}

pub(crate) proof fn lemma_quotient_ordered(x: int, y: int, d: int)
    by (nonlinear_arith)
    requires
        0 <= x <= y,
        0 < d,
    ensures
        x / d <= y / d,
{
}

/// An allowed setting keeps the PLL inside its windows: the input, which is
/// `source / m`, between [`VCO_IN_MIN_HZ`] and [`VCO_IN_MAX_HZ`]; the
/// oscillator, which is `source * n / m`, between [`VCO_OUT_MIN_HZ`] and
/// [`VCO_OUT_MAX_HZ`]; and the system clock at or below both the target and
/// [`SYSCLK_MAX_HZ`].
pub proof fn lemma_pll_windows(source: int, target: int, m: int, n: int, p: int)
    requires
        pll_valid(source, target, m, n, p),
    ensures
        VCO_IN_MIN_HZ * m <= source <= VCO_IN_MAX_HZ * m,
        VCO_OUT_MIN_HZ <= pll_vco(source, m, n) <= VCO_OUT_MAX_HZ,
        pll_sysclk(source, m, n, p) <= target,
        pll_sysclk(source, m, n, p) <= SYSCLK_MAX_HZ,
{
    let product = source * n;
    let mp = m * p;
    assert(2 * m <= mp <= 8 * m) by (nonlinear_arith)
        requires
            mp == m * p,
            2 <= p <= 8,
            0 <= m,
    ;
    assert(0 <= target) by {
        if target < 0 {
            assert(target * mp < 0) by (nonlinear_arith)
                requires
                    target < 0,
                    mp > 0,
            ;
        }
    }
    lemma_quotient_bounds(product, m, 100_000_000);
    lemma_quotient_bounds(product, m, 432_000_001);
    lemma_quotient_bounds(product, mp, target + 1);
    lemma_quotient_bounds(product, mp, 216_000_001);
    assert((target + 1) * mp > product) by (nonlinear_arith)
        requires
            product <= target * mp,
            mp >= 2,
    ;
}

/// The largest multiplier that is allowed with the dividers `m` and `p`, or
/// `None` where none is. A larger multiplier gives a faster clock, so the
/// multiplier found is the best for these dividers.
fn best_multiplier(source: u32, target: u32, m: u8, p: u8) -> (found: Option<u16>)
    requires
        2 <= m <= 63,
        p == 2 || p == 4 || p == 6 || p == 8,
    ensures
        match found {
            Some(n) => {
                &&& pll_valid(source as int, target as int, m as int, n as int, p as int)
                &&& forall|nx: int| #[trigger]
                    pll_valid(source as int, target as int, m as int, nx, p as int) ==> nx <= n
            },
            None => forall|nx: int|
                !#[trigger] pll_valid(source as int, target as int, m as int, nx, p as int),
        },
{
    let s: u64 = source as u64;
    let mm: u64 = m as u64;
    assert(mm * (p as u64) <= 504) by (nonlinear_arith)
        requires
            mm <= 63,
            p <= 8,
    ;
    let mp: u64 = mm * (p as u64);
    if s < 1_000_000 * mm || s > 2_000_000 * mm {
        return None;
    }
    assert(target as u64 * mp <= 0xffff_ffff * 504) by (nonlinear_arith)
        requires
            target <= 0xffff_ffff,
            mp <= 504,
    ;
    let by_vco: u64 = (432_000_000 * mm) / s;
    let by_target: u64 = (target as u64 * mp) / s;
    let mut cap: u64 = 432;
    if by_vco < cap {
        cap = by_vco;
    }
    if by_target < cap {
        cap = by_target;
    }
    proof {
        let vco_max = 432_000_000 * mm as int;
        let goal = (target as u64 * mp) as int;
        assert(goal == target as int * (m as int * p as int));
        lemma_quotient_bounds(vco_max, s as int, cap as int);
        lemma_quotient_bounds(goal, s as int, cap as int);
        assert(cap * s == s * cap) by (nonlinear_arith);
        assert(s * cap <= vco_max);
        assert(s * cap <= goal);
        assert forall|nx: int| #[trigger]
            pll_valid(source as int, target as int, m as int, nx, p as int) implies nx
            <= cap && s * nx <= s * cap by {
            assert(nx * s == s * nx) by (nonlinear_arith);
            lemma_quotient_bounds(vco_max, s as int, nx);
            lemma_quotient_bounds(goal, s as int, nx);
            assert(nx <= by_vco);
            assert(nx <= by_target);
            lemma_product_ordered(nx, cap as int, s as int);
        }
    }
    if cap < 50 || s * cap < 100_000_000 * mm {
        None
    } else {
        assert(pll_valid(source as int, target as int, m as int, cap as int, p as int));
        Some(cap as u16)
    }
}

/// What the search for the best setting knows once it has tried every pair of
/// dividers that is preferred to `(p, m)`: `found` is the best among the
/// settings with those pairs, or `None` where there is none.
spec fn best_so_far(source: int, target: int, found: Option<PllDividers>, p: int, m: int) -> bool {
    match found {
        None => forall|mx: int, nx: int, px: int| #[trigger]
            pll_valid(source, target, mx, nx, px) ==> !pll_preferred(px, mx, p, m),
        Some(d) => {
            &&& pll_valid(source, target, d.m as int, d.n as int, d.p as int)
            &&& pll_preferred(d.p as int, d.m as int, p, m)
            &&& forall|mx: int, nx: int, px: int| #[trigger]
                pll_valid(source, target, mx, nx, px) && pll_preferred(px, mx, p, m) ==> {
                    &&& pll_sysclk(source, mx, nx, px) <= pll_sysclk(
                        source,
                        d.m as int,
                        d.n as int,
                        d.p as int,
                    )
                    &&& pll_sysclk(source, mx, nx, px) == pll_sysclk(
                        source,
                        d.m as int,
                        d.n as int,
                        d.p as int,
                    ) ==> !pll_preferred(px, mx, d.p as int, d.m as int)
                }
        },
    }
}

/// For every request inside the range of [`pll_in_range`] the PLL has an
/// allowed setting that ends up no more than [`PLL_TOLERANCE_HZ`] below the
/// system clock asked for. The setting returned is one such.
pub proof fn lemma_pll_reachable(source: int, target: int) -> (w: (int, int, int))
    requires
        pll_in_range(source, target),
    ensures
        pll_valid(source, target, w.0, w.1, w.2),
        target - pll_sysclk(source, w.0, w.1, w.2) <= PLL_TOLERANCE_HZ,
{
    let p: int = if target >= 51_000_000 {
        2
    } else if target >= 25_500_000 {
        4
    } else if target >= 17_000_000 {
        6
    } else {
        8
    };
    let m0 = (source + 1_999_999) / 2_000_000;
    let m = if m0 < 2 {
        2
    } else {
        m0
    };
    let mp = m * p;
    let fast = target * p;
    assert(102_000_000 <= fast <= 432_000_000);
    assert(2 * m <= mp <= 8 * m) by (nonlinear_arith)
        requires
            mp == m * p,
            2 <= p <= 8,
            0 <= m,
    ;
    let goal = target * mp;
    assert(goal == fast * m) by (nonlinear_arith)
        requires
            goal == target * (m * p),
            fast == target * p,
    ;
    lemma_product_ordered(102_000_000, fast, m);
    lemma_product_ordered(fast, 432_000_000, m);
    let n = goal / source;
    lemma_quotient_bounds(goal, source, n);
    lemma_quotient_bounds(goal, source, 433);
    assert(n * source == source * n) by (nonlinear_arith);
    assert((n + 1) * source == source * n + source) by (nonlinear_arith);
    if n <= 49 {
        lemma_product_ordered(n, 49, source);
    }
    let floor = target - 1_000_000;
    assert(floor * mp == goal - 1_000_000 * mp) by (nonlinear_arith)
        requires
            goal == target * mp,
            floor == target - 1_000_000,
    ;
    lemma_quotient_bounds(source * n, mp, floor);
    (m, n, p)
}

/// Finds the best setting of the PLL for an input clock of `source` hertz and
/// a system clock of `target` hertz: the allowed setting that comes closest
/// to `target` without passing it. `None` where the hardware allows no
/// setting at all for the two.
pub fn solve_pll(source: u32, target: u32) -> (found: Option<PllDividers>)
    ensures
        match found {
            Some(d) => pll_best(source as int, target as int, d.m as int, d.n as int, d.p as int),
            None => forall|m: int, n: int, p: int|
                !#[trigger] pll_valid(source as int, target as int, m, n, p),
        },
        pll_in_range(source as int, target as int) ==> found.is_some() && target - pll_sysclk(
            source as int,
            found.unwrap().m as int,
            found.unwrap().n as int,
            found.unwrap().p as int,
        ) <= PLL_TOLERANCE_HZ,
{
    let mut found: Option<PllDividers> = None;
    let mut best_hz: u64 = 0;
    let mut p: u8 = 2;
    while p <= 8
        invariant
            p == 2 || p == 4 || p == 6 || p == 8 || p == 10,
            best_so_far(source as int, target as int, found, p as int, 2),
            found matches Some(d) ==> best_hz == pll_sysclk(
                source as int,
                d.m as int,
                d.n as int,
                d.p as int,
            ),
        decreases 10 - p,
    {
        let mut m: u8 = 2;
        while m <= 63
            invariant
                p == 2 || p == 4 || p == 6 || p == 8,
                2 <= m <= 64,
                best_so_far(source as int, target as int, found, p as int, m as int),
                found matches Some(d) ==> best_hz == pll_sysclk(
                    source as int,
                    d.m as int,
                    d.n as int,
                    d.p as int,
                ),
            decreases 64 - m,
        {
            match best_multiplier(source, target, m, p) {
                Some(n) => {
                    assert((m as u64) * (p as u64) <= 504) by (nonlinear_arith)
                        requires
                            m <= 63,
                            p <= 8,
                    ;
                    assert((source as u64) * (n as u64) <= 0xffff_ffff * 432) by (nonlinear_arith)
                        requires
                            source <= 0xffff_ffff,
                            n <= 432,
                    ;
                    let hz: u64 = ((source as u64) * (n as u64)) / ((m as u64) * (p as u64));
                    assert(hz == pll_sysclk(source as int, m as int, n as int, p as int));
                    proof {
                        assert forall|nx: int| #[trigger]
                            pll_valid(
                                source as int,
                                target as int,
                                m as int,
                                nx,
                                p as int,
                            ) implies pll_sysclk(source as int, m as int, nx, p as int)
                            <= hz by {
                            lemma_product_ordered(nx, n as int, source as int);
                            lemma_quotient_ordered(
                                source as int * nx,
                                source as int * n as int,
                                m as int * p as int,
                            );
                        }
                    }
                    if found.is_none() || hz > best_hz {
                        found = Some(PllDividers { m, n, p });
                        best_hz = hz;
                    }
                },
                None => {},
            }
            m = m + 1;
        }
        p = p + 2;
    }
    proof {
        if pll_in_range(source as int, target as int) {
            let w = lemma_pll_reachable(source as int, target as int);
            assert(pll_preferred(w.2, w.0, 10, 2));
        }
    }
    found
}

/// The frequency at which the oscillator of the PLL runs with the dividers
/// `m` and `n` from an input clock of `source` hertz, in whole hertz.
pub open spec fn pll_vco(source: int, m: int, n: int) -> int {
    (source * n) / m
}

/// The divider for the USB clock: the smallest that keeps that clock at or
/// below 48 MHz for an oscillator running at `vco` hertz.
pub open spec fn usb_divider(vco: int) -> int {
    (vco + 47_999_999) / 48_000_000
}

} // verus!
