//! The clock tree: what firmware asks for, the divider settings that come
//! closest to it, and the procedure that switches the chip over.

pub mod pll;
pub mod prescaler;
pub mod switch;

use vstd::prelude::*;
use crate::pac::RCC;
use crate::rcc::pll::{
    lemma_pll_windows, lemma_quotient_bounds, pll_best, pll_in_range, pll_sysclk, pll_valid,
    pll_vco, solve_pll, usb_divider, PllDividers, PLL_TOLERANCE_HZ,
};
use crate::rcc::prescaler::{
    ahb_divisor, apb_divisor, pick_ahb, pick_apb, spec_ahb_divisor, spec_apb_divisor,
    spec_pick_ahb, spec_pick_apb, AHB_PRESCALERS, APB_PRESCALERS,
};
use crate::rcc::switch::{ClockSwitch, SwitchStage};
use crate::sequence::Sequencer;
use crate::time::Hertz;

verus! {

/// Frequency of the internal oscillator.
pub const HSI_HZ: u32 = 16_000_000;

/// Highest system clock, and highest clock of the AHB bus.
pub const SYSCLK_MAX_HZ: u32 = 216_000_000;

/// Highest clock of the APB1 bus.
pub const PCLK1_MAX_HZ: u32 = 54_000_000;

/// Highest clock of the APB2 bus.
pub const PCLK2_MAX_HZ: u32 = 108_000_000;

/// The clock that the USB controllers need from the PLL.
pub const USB_HZ: u32 = 48_000_000;

/// How an external clock reaches the chip.
#[derive(Clone, Copy, Debug, PartialEq, Eq, Structural)]
pub enum HSEClockMode {
    /// A crystal or ceramic resonator between the two oscillator pins;
    /// 4 to 26 MHz.
    Oscillator,
    /// A clock signal fed into the oscillator input, the oscillator itself
    /// bypassed; 1 to 50 MHz.
    Bypass,
}

/// An external clock source.
#[derive(Clone, Copy, Debug, PartialEq, Eq, Structural)]
pub struct HSEClock {
    /// The frequency of the source.
    pub freq: Hertz,
    /// How the source is connected.
    pub mode: HSEClockMode,
}

impl HSEClock {
    /// An external source of frequency `freq` connected as `mode` says.
    pub fn new(freq: Hertz, mode: HSEClockMode) -> (hse: HSEClock)
        ensures
            hse == (HSEClock { freq, mode }),
    {
        HSEClock { freq, mode }
    }

    /// Whether the frequency is one that the hardware accepts from a source
    /// connected this way.
    pub open spec fn in_range(self) -> bool {
        match self.mode {
            HSEClockMode::Oscillator => 4_000_000 <= self.freq.0 <= 26_000_000,
            HSEClockMode::Bypass => 1_000_000 <= self.freq.0 <= 50_000_000,
        }
    }
}

/// What firmware asks of the clock tree.
#[derive(Clone, Copy, Debug, PartialEq, Eq, Structural)]
pub struct ClockPlan {
    /// The external source to run from; the internal oscillator where `None`.
    pub hse: Option<HSEClock>,
    /// Whether the system clock comes from the PLL.
    pub use_pll: bool,
    /// Whether the PLL also feeds the 48 MHz clock of the USB controllers.
    pub use_pll48clk: bool,
    /// The system clock asked for; that of the source where `None`.
    pub sysclk: Option<Hertz>,
    /// The AHB clock asked for; the system clock where `None`.
    pub hclk: Option<Hertz>,
    /// The APB1 clock asked for; as fast as the bus allows where `None`.
    pub pclk1: Option<Hertz>,
    /// The APB2 clock asked for; as fast as the bus allows where `None`.
    pub pclk2: Option<Hertz>,
}

impl ClockPlan {
    /// The frequency of the source of the plan.
    pub open spec fn source_hz(self) -> int {
        match self.hse {
            Some(hse) => hse.freq.0 as int,
            None => HSI_HZ as int,
        }
    }

    /// The system clock that the plan aims at.
    pub open spec fn target_hz(self) -> int {
        match self.sysclk {
            Some(f) => f.0 as int,
            None => self.source_hz(),
        }
    }

    /// Whether the source of the plan is one the hardware accepts.
    pub open spec fn source_ok(self) -> bool {
        match self.hse {
            Some(hse) => hse.in_range(),
            None => true,
        }
    }

    /// Whether the hardware has a setting that gives a system clock at or
    /// below the one the plan aims at: some allowed setting of the PLL where
    /// the plan uses it, and a source no faster than the aim where not.
    pub open spec fn reachable(self) -> bool {
        if self.use_pll {
            exists|m: int, n: int, p: int| #[trigger]
                pll_valid(self.source_hz(), self.target_hz(), m, n, p)
        } else {
            self.source_hz() <= self.target_hz()
        }
    }

    /// The AHB clock must not pass this: what the plan asks for, and never
    /// more than the bus allows.
    pub open spec fn hclk_limit(self, sysclk: int) -> int {
        let asked = match self.hclk {
            Some(f) => f.0 as int,
            None => sysclk,
        };
        if asked < SYSCLK_MAX_HZ {
            asked
        } else {
            SYSCLK_MAX_HZ as int
        }
    }

    /// The APB1 clock must not pass this.
    pub open spec fn pclk1_limit(self) -> int {
        match self.pclk1 {
            Some(f) if f.0 < PCLK1_MAX_HZ => f.0 as int,
            _ => PCLK1_MAX_HZ as int,
        }
    }

    /// The APB2 clock must not pass this.
    pub open spec fn pclk2_limit(self) -> int {
        match self.pclk2 {
            Some(f) if f.0 < PCLK2_MAX_HZ => f.0 as int,
            _ => PCLK2_MAX_HZ as int,
        }
    }
}

/// Why a plan cannot be carried out.
#[derive(Clone, Copy, Debug, PartialEq, Eq, Structural)]
pub enum ClockError {
    /// The external source is slower or faster than the hardware accepts.
    SourceOutOfRange,
    /// No setting gives a system clock at or below the one asked for.
    Unreachable,
}

/// The settings that carry out a plan, and the clocks they give.
#[derive(Clone, Copy, Debug, PartialEq, Eq, Structural)]
pub struct ClockConfig {
    /// The external source; the internal oscillator where `None`.
    pub hse: Option<HSEClock>,
    /// The dividers of the PLL; `None` where the PLL stays off.
    pub pll: Option<PllDividers>,
    /// The divider of the PLL for the USB clock; 0 where the PLL stays off.
    pub pllq: u8,
    /// The setting of the AHB prescaler, counted as [`spec_ahb_divisor`] does.
    pub ahb: u8,
    /// The setting of the APB1 prescaler, counted as [`spec_apb_divisor`] does.
    pub apb1: u8,
    /// The setting of the APB2 prescaler, counted as [`spec_apb_divisor`] does.
    pub apb2: u8,
    /// The system clock, in hertz.
    pub sysclk: u32,
    /// The AHB clock, in hertz.
    pub hclk: u32,
    /// The APB1 clock, in hertz.
    pub pclk1: u32,
    /// The APB2 clock, in hertz.
    pub pclk2: u32,
    /// The USB clock, in hertz; `None` where the plan does not ask for it.
    pub pll48clk: Option<u32>,
}

impl ClockConfig {
    /// Whether the settings fit their register fields and no clock is faster
    /// than its bus allows.
    pub open spec fn wf(self) -> bool {
        &&& match self.pll {
            Some(d) => {
                &&& 2 <= d.m <= 63
                &&& 50 <= d.n <= 432
                &&& (d.p == 2 || d.p == 4 || d.p == 6 || d.p == 8)
                &&& 2 <= self.pllq <= 15
            },
            None => self.pllq == 0,
        }
        &&& self.ahb < AHB_PRESCALERS
        &&& self.apb1 < APB_PRESCALERS
        &&& self.apb2 < APB_PRESCALERS
        &&& self.pclk1 <= self.hclk <= self.sysclk <= SYSCLK_MAX_HZ
        &&& self.pclk2 <= self.hclk
        &&& self.pclk1 <= PCLK1_MAX_HZ
        &&& self.pclk2 <= PCLK2_MAX_HZ
        &&& self.pll48clk matches Some(f) ==> f <= USB_HZ
    }

    /// Whether the settings are the ones that carry out `plan`: the best
    /// setting of the PLL where the plan uses it, for each bus the prescaler
    /// that leaves it as fast as its limit allows, and the clocks that follow
    /// from them.
    pub open spec fn carries_out(self, plan: ClockPlan) -> bool {
        let source = plan.source_hz();
        &&& self.hse == plan.hse
        &&& if plan.use_pll {
            &&& self.pll matches Some(d)
            &&& pll_best(source, plan.target_hz(), d.m as int, d.n as int, d.p as int)
            &&& self.sysclk == pll_sysclk(source, d.m as int, d.n as int, d.p as int)
            &&& self.pllq == usb_divider(pll_vco(source, d.m as int, d.n as int))
            &&& self.pll48clk == (if plan.use_pll48clk {
                Some((pll_vco(source, d.m as int, d.n as int) / (self.pllq as int)) as u32)
            } else {
                None
            })
        } else {
            &&& self.pll is None
            &&& self.sysclk == source
            &&& self.pllq == 0
            &&& self.pll48clk is None
        }
        &&& self.ahb == spec_pick_ahb(self.sysclk as int, plan.hclk_limit(self.sysclk as int))
        &&& self.hclk == self.sysclk as int / spec_ahb_divisor(self.ahb as int)
        &&& self.apb1 == spec_pick_apb(self.hclk as int, plan.pclk1_limit())
        &&& self.pclk1 == self.hclk as int / spec_apb_divisor(self.apb1 as int)
        &&& self.apb2 == spec_pick_apb(self.hclk as int, plan.pclk2_limit())
        &&& self.pclk2 == self.hclk as int / spec_apb_divisor(self.apb2 as int)
    }
}

/// Works out the settings that carry out `plan`.
///
/// The system clock never passes the one the plan aims at, and no bus clock
/// passes the ceiling of its bus. Where the plan uses the PLL and asks for
/// something inside the range of [`pll_in_range`], there are such settings
/// and the system clock ends up no more than [`PLL_TOLERANCE_HZ`] below the
/// aim.
pub fn solve(plan: &ClockPlan) -> (r: Result<ClockConfig, ClockError>)
    ensures
        match r {
            Ok(config) => {
                &&& plan.source_ok()
                &&& plan.reachable()
                &&& config.carries_out(*plan)
                &&& config.wf()
                &&& config.sysclk <= plan.target_hz()
            },
            Err(ClockError::SourceOutOfRange) => !plan.source_ok(),
            Err(ClockError::Unreachable) => plan.source_ok() && !plan.reachable(),
        },
        plan.source_ok() && plan.use_pll && pll_in_range(plan.source_hz(), plan.target_hz())
            ==> r.is_ok() && plan.target_hz() - r.unwrap().sysclk <= PLL_TOLERANCE_HZ,
{
    let source: u32 = match plan.hse {
        Some(hse) => {
            let ok = match hse.mode {
                HSEClockMode::Oscillator => 4_000_000 <= hse.freq.0 && hse.freq.0 <= 26_000_000,
                HSEClockMode::Bypass => 1_000_000 <= hse.freq.0 && hse.freq.0 <= 50_000_000,
            };
            if !ok {
                return Err(ClockError::SourceOutOfRange);
            }
            hse.freq.0
        },
        None => HSI_HZ,
    };
    let target: u32 = match plan.sysclk {
        Some(f) => f.0,
        None => source,
    };
    let pll: Option<PllDividers>;
    let pllq: u8;
    let sysclk: u32;
    let pll48clk: Option<u32>;
    if plan.use_pll {
        match solve_pll(source, target) {
            None => {
                return Err(ClockError::Unreachable);
            },
            Some(d) => {
                let s: u64 = source as u64;
                assert(2 * d.m <= d.m * d.p <= 504) by (nonlinear_arith)
                    requires
                        2 <= d.m <= 63,
                        2 <= d.p <= 8,
                ;
                let mp: u64 = (d.m as u64) * (d.p as u64);
                assert(s * (d.n as u64) <= 432_000_000 * 63) by (nonlinear_arith)
                    requires
                        s * d.n <= 432_000_000 * d.m,
                        d.m <= 63,
                ;
                let product: u64 = s * (d.n as u64);
                proof {
                    lemma_pll_windows(
                        source as int,
                        target as int,
                        d.m as int,
                        d.n as int,
                        d.p as int,
                    );
                }
                let vco: u64 = product / (d.m as u64);
                let q: u64 = (vco + 47_999_999) / 48_000_000;
                proof {
                    lemma_quotient_bounds(vco as int, q as int, USB_HZ + 1);
                }
                pll = Some(d);
                pllq = q as u8;
                sysclk = (product / mp) as u32;
                pll48clk = if plan.use_pll48clk {
                    Some((vco / q) as u32)
                } else {
                    None
                };
                assert(pll_valid(
                    plan.source_hz(),
                    plan.target_hz(),
                    d.m as int,
                    d.n as int,
                    d.p as int,
                ));
            },
        }
    } else {
        if target < source {
            return Err(ClockError::Unreachable);
        }
        pll = None;
        pllq = 0;
        sysclk = source;
        pll48clk = None;
    }
    let asked_hclk: u32 = match plan.hclk {
        Some(f) => f.0,
        None => sysclk,
    };
    let hclk_limit: u32 = if asked_hclk < SYSCLK_MAX_HZ {
        asked_hclk
    } else {
        SYSCLK_MAX_HZ
    };
    let pclk1_limit: u32 = match plan.pclk1 {
        Some(f) => if f.0 < PCLK1_MAX_HZ {
            f.0
        } else {
            PCLK1_MAX_HZ
        },
        None => PCLK1_MAX_HZ,
    };
    let pclk2_limit: u32 = match plan.pclk2 {
        Some(f) => if f.0 < PCLK2_MAX_HZ {
            f.0
        } else {
            PCLK2_MAX_HZ
        },
        None => PCLK2_MAX_HZ,
    };
    let ahb = pick_ahb(sysclk, hclk_limit);
    let hclk = sysclk / ahb_divisor(ahb);
    let apb1 = pick_apb(hclk, pclk1_limit);
    let pclk1 = hclk / apb_divisor(apb1);
    let apb2 = pick_apb(hclk, pclk2_limit);
    let pclk2 = hclk / apb_divisor(apb2);
    Ok(ClockConfig { hse: plan.hse, pll, pllq, ahb, apb1, apb2, sysclk, hclk, pclk1, pclk2, pll48clk })
}

/// The clocks of the chip after the clock switch: what every later
/// peripheral is built on. Only a completed [`ClockSwitch`] hands one out.
#[derive(Clone, Copy, Debug)]
pub struct Clocks {
    config: ClockConfig,
}

impl View for Clocks {
    type V = ClockConfig;

    closed spec fn view(&self) -> ClockConfig {
        self.config
    }
}

impl Clocks {
    /// The clocks of a configuration that the chip was switched to.
    pub(crate) fn of(config: ClockConfig) -> (clocks: Clocks)
        ensures
            clocks@ == config,
    {
        Clocks { config }
    }

    /// The system clock.
    pub fn sysclk(&self) -> (f: Hertz)
        ensures
            f.0 == self@.sysclk,
    {
        Hertz(self.config.sysclk)
    }

    /// The AHB clock.
    pub fn hclk(&self) -> (f: Hertz)
        ensures
            f.0 == self@.hclk,
    {
        Hertz(self.config.hclk)
    }

    /// The APB1 clock.
    pub fn pclk1(&self) -> (f: Hertz)
        ensures
            f.0 == self@.pclk1,
    {
        Hertz(self.config.pclk1)
    }

    /// The APB2 clock.
    pub fn pclk2(&self) -> (f: Hertz)
        ensures
            f.0 == self@.pclk2,
    {
        Hertz(self.config.pclk2)
    }

    /// The external source the chip runs from, if it runs from one.
    pub fn hse(&self) -> (f: Option<Hertz>)
        ensures
            f == (match self@.hse {
                Some(hse) => Some(hse.freq),
                None => None,
            }),
    {
        match self.config.hse {
            Some(hse) => Some(hse.freq),
            None => None,
        }
    }

    /// The USB clock, where the PLL feeds one.
    pub fn pll48clk(&self) -> (f: Option<Hertz>)
        ensures
            f == (match self@.pll48clk {
                Some(hz) => Some(Hertz(hz)),
                None => None,
            }),
    {
        match self.config.pll48clk {
            Some(hz) => Some(Hertz(hz)),
            None => None,
        }
    }

    /// Whether the PLL feeds a USB clock of exactly 48 MHz, which the USB
    /// controllers need.
    pub fn is_pll48clk_valid(&self) -> (valid: bool)
        ensures
            valid == (self@.pll48clk == Some(USB_HZ)),
    {
        match self.config.pll48clk {
            Some(hz) => hz == USB_HZ,
            None => false,
        }
    }
}

impl ClockPlan {
    /// The plan that asks for nothing: the chip runs from the internal
    /// oscillator, the PLL stays off, the buses run as fast as they may.
    pub fn new() -> (plan: ClockPlan)
        ensures
            plan == (ClockPlan {
                hse: None,
                use_pll: false,
                use_pll48clk: false,
                sysclk: None,
                hclk: None,
                pclk1: None,
                pclk2: None,
            }),
    {
        ClockPlan {
            hse: None,
            use_pll: false,
            use_pll48clk: false,
            sysclk: None,
            hclk: None,
            pclk1: None,
            pclk2: None,
        }
    }
}

/// The one way to set the clocks of the chip: it owns the clock control
/// block and gathers the plan. [`Configurator::freeze`] takes the
/// configurator for good, so the clocks are set once.
#[derive(Debug)]
pub struct Configurator {
    rcc: RCC,
    plan: ClockPlan,
}

impl View for Configurator {
    type V = ClockPlan;

    closed spec fn view(&self) -> ClockPlan {
        self.plan
    }
}

impl Configurator {
    /// A configurator with the plan that asks for nothing.
    pub fn new(rcc: RCC) -> (c: Configurator)
        ensures
            c@ == (ClockPlan {
                hse: None,
                use_pll: false,
                use_pll48clk: false,
                sysclk: None,
                hclk: None,
                pclk1: None,
                pclk2: None,
            }),
    {
        Configurator { rcc, plan: ClockPlan::new() }
    }

    /// A configurator with `plan`.
    pub fn with_plan(rcc: RCC, plan: ClockPlan) -> (c: Configurator)
        ensures
            c@ == plan,
    {
        Configurator { rcc, plan }
    }

    /// The plan gathered so far.
    pub fn plan(&self) -> (plan: ClockPlan)
        ensures
            plan == self@,
    {
        self.plan
    }

    /// Run from the external source `hse`.
    pub fn hse(self, hse: HSEClock) -> (c: Configurator)
        ensures
            c@ == (ClockPlan { hse: Some(hse), ..self@ }),
    {
        let mut c = self;
        c.plan.hse = Some(hse);
        c
    }

    /// Take the system clock from the PLL.
    pub fn use_pll(self) -> (c: Configurator)
        ensures
            c@ == (ClockPlan { use_pll: true, ..self@ }),
    {
        let mut c = self;
        c.plan.use_pll = true;
        c
    }

    /// Let the PLL feed the USB clock too.
    pub fn use_pll48clk(self) -> (c: Configurator)
        ensures
            c@ == (ClockPlan { use_pll48clk: true, ..self@ }),
    {
        let mut c = self;
        c.plan.use_pll48clk = true;
        c
    }

    /// Aim at a system clock of `freq`.
    pub fn sysclk(self, freq: Hertz) -> (c: Configurator)
        ensures
            c@ == (ClockPlan { sysclk: Some(freq), ..self@ }),
    {
        let mut c = self;
        c.plan.sysclk = Some(freq);
        c
    }

    /// Keep the AHB clock at or below `freq`.
    pub fn hclk(self, freq: Hertz) -> (c: Configurator)
        ensures
            c@ == (ClockPlan { hclk: Some(freq), ..self@ }),
    {
        let mut c = self;
        c.plan.hclk = Some(freq);
        c
    }

    /// Keep the APB1 clock at or below `freq`.
    pub fn pclk1(self, freq: Hertz) -> (c: Configurator)
        ensures
            c@ == (ClockPlan { pclk1: Some(freq), ..self@ }),
    {
        let mut c = self;
        c.plan.pclk1 = Some(freq);
        c
    }

    /// Keep the APB2 clock at or below `freq`.
    pub fn pclk2(self, freq: Hertz) -> (c: Configurator)
        ensures
            c@ == (ClockPlan { pclk2: Some(freq), ..self@ }),
    {
        let mut c = self;
        c.plan.pclk2 = Some(freq);
        c
    }

    /// Works out the settings for the plan and returns the procedure that
    /// switches the chip to them, with nothing done yet. The clocks come out
    /// of the procedure once it has finished.
    ///
    /// The configurator is used up, whether the plan can be carried out or
    /// not.
    pub fn freeze(self) -> (r: Result<ClockSwitch, ClockError>)
        ensures
            match r {
                Ok(switch) => {
                    &&& self@.source_ok()
                    &&& self@.reachable()
                    &&& switch@.config.carries_out(self@)
                    &&& switch@.config.sysclk <= self@.target_hz()
                    &&& switch@.stage == SwitchStage::EnableSource
                    &&& switch@.spins == 0
                    &&& ClockSwitch::inv(switch@)
                },
                Err(ClockError::SourceOutOfRange) => !self@.source_ok(),
                Err(ClockError::Unreachable) => self@.source_ok() && !self@.reachable(),
            },
            self@.source_ok() && self@.use_pll && pll_in_range(self@.source_hz(), self@.target_hz())
                ==> r.is_ok() && self@.target_hz() - r.unwrap()@.config.sysclk <= PLL_TOLERANCE_HZ,
    {
        match solve(&self.plan) {
            Ok(config) => Ok(ClockSwitch::new(self.rcc, config)),
            Err(e) => Err(e),
        }
    }
}

/// Sets the clocks of the chip to `plan`: [`Configurator::freeze`] on a
/// configurator with that plan.
pub fn configure_clocks(rcc: RCC, plan: ClockPlan) -> (r: Result<ClockSwitch, ClockError>)
    ensures
        match r {
            Ok(switch) => {
                &&& plan.source_ok()
                &&& plan.reachable()
                &&& switch@.config.carries_out(plan)
                &&& switch@.config.sysclk <= plan.target_hz()
                &&& switch@.stage == SwitchStage::EnableSource
                &&& switch@.spins == 0
                &&& ClockSwitch::inv(switch@)
            },
            Err(ClockError::SourceOutOfRange) => !plan.source_ok(),
            Err(ClockError::Unreachable) => plan.source_ok() && !plan.reachable(),
        },
        plan.source_ok() && plan.use_pll && pll_in_range(plan.source_hz(), plan.target_hz())
            ==> r.is_ok() && plan.target_hz() - r.unwrap()@.config.sysclk <= PLL_TOLERANCE_HZ,
{
    Configurator::with_plan(rcc, plan).freeze()
}

} // verus!
