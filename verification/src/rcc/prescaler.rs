//! The bus prescalers: their divisors, and the choice of the setting that
//! keeps a bus at or below its limit.

use vstd::prelude::*;

verus! {

/// How many settings the AHB prescaler has.
pub const AHB_PRESCALERS: u8 = 9;

/// How many settings each of the two APB prescalers has.
pub const APB_PRESCALERS: u8 = 5;

/// The divisor of setting `i` of the AHB prescaler, the settings counted from
/// the smallest divisor: 1, 2, 4, 8, 16, 64, 128, 256, 512. There is no 32.
pub open spec fn spec_ahb_divisor(i: int) -> int {
    if i <= 0 {
        1
    } else if i == 1 {
        2
    } else if i == 2 {
        4
    } else if i == 3 {
        8
    } else if i == 4 {
        16
    } else if i == 5 {
        64
    } else if i == 6 {
        128
    } else if i == 7 {
        256
    } else {
        512
    }
}

/// The divisor of setting `i` of an APB prescaler, the settings counted from
/// the smallest divisor: 1, 2, 4, 8, 16.
pub open spec fn spec_apb_divisor(i: int) -> int {
    if i <= 0 {
        1
    } else if i == 1 {
        2
    } else if i == 2 {
        4
    } else if i == 3 {
        8
    } else {
        16
    }
}

/// The divisor of setting `i` of the AHB prescaler.
pub fn ahb_divisor(i: u8) -> (d: u32)
    ensures
        d == spec_ahb_divisor(i as int),
        1 <= d <= 512,
{
    match i {
        0 => 1,
        1 => 2,
        2 => 4,
        3 => 8,
        4 => 16,
        5 => 64,
        6 => 128,
        7 => 256,
        _ => 512,
    }
}

/// The divisor of setting `i` of an APB prescaler.
pub fn apb_divisor(i: u8) -> (d: u32)
    ensures
        d == spec_apb_divisor(i as int),
        1 <= d <= 16,
{
    match i {
        0 => 1,
        1 => 2,
        2 => 4,
        3 => 8,
        _ => 16,
    }
}

/// The setting of the AHB prescaler to choose to bring a clock of `freq`
/// hertz to `limit` hertz or below: the first setting that does it, which
/// leaves the bus as fast as the limit allows, or the last setting where none
/// does.
pub open spec fn spec_pick_ahb(freq: int, limit: int) -> int {
    if freq <= limit {
        0
    } else if freq / 2 <= limit {
        1
    } else if freq / 4 <= limit {
        2
    } else if freq / 8 <= limit {
        3
    } else if freq / 16 <= limit {
        4
    } else if freq / 64 <= limit {
        5
    } else if freq / 128 <= limit {
        6
    } else if freq / 256 <= limit {
        7
    } else {
        8
    }
}

/// The setting of an APB prescaler to choose to bring a clock of `freq`
/// hertz to `limit` hertz or below: the first setting that does it, or the
/// last setting where none does.
pub open spec fn spec_pick_apb(freq: int, limit: int) -> int {
    if freq <= limit {
        0
    } else if freq / 2 <= limit {
        1
    } else if freq / 4 <= limit {
        2
    } else if freq / 8 <= limit {
        3
    } else {
        4
    }
}

/// Chooses the setting of the AHB prescaler that brings `freq` to `limit` or
/// below.
pub fn pick_ahb(freq: u32, limit: u32) -> (i: u8)
    ensures
        i == spec_pick_ahb(freq as int, limit as int),
{
    let mut i: u8 = 0;
    while i < AHB_PRESCALERS - 1 && freq / ahb_divisor(i) > limit
        invariant
            0 <= i <= AHB_PRESCALERS - 1,
            forall|j: int| 0 <= j < i ==> freq as int / #[trigger] spec_ahb_divisor(j) > limit,
        decreases AHB_PRESCALERS - i,
    {
        i = i + 1;
    }
    proof {
        lemma_pick_ahb(freq as int, limit as int);
        let chosen = spec_pick_ahb(freq as int, limit as int);
        if i < chosen {
            assert(freq as int / spec_ahb_divisor(i as int) > limit);
        }
        if chosen < i {
            assert(freq as int / spec_ahb_divisor(chosen) > limit);
        }
    }
    i
}

/// Chooses the setting of an APB prescaler that brings `freq` to `limit` or
/// below.
pub fn pick_apb(freq: u32, limit: u32) -> (i: u8)
    ensures
        i == spec_pick_apb(freq as int, limit as int),
{
    let mut i: u8 = 0;
    while i < APB_PRESCALERS - 1 && freq / apb_divisor(i) > limit
        invariant
            0 <= i <= APB_PRESCALERS - 1,
            forall|j: int| 0 <= j < i ==> freq as int / #[trigger] spec_apb_divisor(j) > limit,
        decreases APB_PRESCALERS - i,
    {
        i = i + 1;
    }
    proof {
        lemma_pick_apb(freq as int, limit as int);
        let chosen = spec_pick_apb(freq as int, limit as int);
        if i < chosen {
            assert(freq as int / spec_apb_divisor(i as int) > limit);
        }
        if chosen < i {
            assert(freq as int / spec_apb_divisor(chosen) > limit);
        }
    }
    i
}

/// The setting chosen for the AHB prescaler is the first that fits: every
/// setting before it leaves the clock above the limit, and the setting
/// itself brings the clock to the limit or below unless it is the last.
pub proof fn lemma_pick_ahb(freq: int, limit: int)
    ensures
        0 <= spec_pick_ahb(freq, limit) < AHB_PRESCALERS,
        forall|j: int|
            0 <= j < spec_pick_ahb(freq, limit) ==> freq / #[trigger] spec_ahb_divisor(j) > limit,
        freq / spec_ahb_divisor(spec_pick_ahb(freq, limit)) <= limit || spec_pick_ahb(freq, limit)
            == AHB_PRESCALERS - 1,
{
}

/// The setting chosen for an APB prescaler is the first that fits: every
/// setting before it leaves the clock above the limit, and the setting
/// itself brings the clock to the limit or below unless it is the last.
pub proof fn lemma_pick_apb(freq: int, limit: int)
    ensures
        0 <= spec_pick_apb(freq, limit) < APB_PRESCALERS,
        forall|j: int|
            0 <= j < spec_pick_apb(freq, limit) ==> freq / #[trigger] spec_apb_divisor(j) > limit,
        freq / spec_apb_divisor(spec_pick_apb(freq, limit)) <= limit || spec_pick_apb(freq, limit)
            == APB_PRESCALERS - 1,
{
}

} // verus!
