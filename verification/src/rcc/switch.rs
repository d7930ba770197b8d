//! The procedure that switches the chip to the clocks of a configuration.

use vstd::prelude::*;
use crate::pac::RCC;
use crate::rcc::{ClockConfig, Clocks, HSEClockMode};
use crate::register::{Action, Reg};
use crate::sequence::{
    actions, lemma_ends, lemma_run, lemma_run_prefix, state_after, Bounded, Sequencer,
};

verus! {

/// Enable of the internal oscillator, in `RccCr`.
pub const HSION: u32 = 0x0000_0001;

/// Ready flag of the internal oscillator, in `RccCr`.
pub const HSIRDY: u32 = 0x0000_0002;

/// Enable of the external oscillator, in `RccCr`.
pub const HSEON: u32 = 0x0001_0000;

/// Ready flag of the external oscillator, in `RccCr`.
pub const HSERDY: u32 = 0x0002_0000;

/// Bypass of the external oscillator, in `RccCr`.
pub const HSEBYP: u32 = 0x0004_0000;

/// Enable of the PLL, in `RccCr`.
pub const PLLON: u32 = 0x0100_0000;

/// Ready flag of the PLL, in `RccCr`: set once the PLL has locked.
pub const PLLRDY: u32 = 0x0200_0000;

/// Selects the external oscillator as the input of the PLL, in `RccPllcfgr`.
pub const PLLSRC_HSE: u32 = 0x0040_0000;

/// The fields of `RccCfgr` that the clock switch writes: the system clock
/// switch and the three bus prescalers.
pub const CFGR_FIELDS: u32 = 0x0000_FCF3;

/// How often a ready flag is read before the clock tree is given up.
pub const READY_SPIN_LIMIT: u32 = 100_000;

impl ClockConfig {
    /// The bits that switch the source on, in `RccCr`.
    pub open spec fn source_on(self) -> u32 {
        match self.hse {
            None => HSION,
            Some(hse) => match hse.mode {
                HSEClockMode::Oscillator => HSEON,
                HSEClockMode::Bypass => 0x0005_0000,
            },
        }
    }

    /// The ready flag of the source, in `RccCr`.
    pub open spec fn source_ready(self) -> u32 {
        match self.hse {
            None => HSIRDY,
            Some(_) => HSERDY,
        }
    }

    /// The setting of the system clock switch: 0 for the internal oscillator,
    /// 1 for the external one, 2 for the PLL.
    pub open spec fn switch_code(self) -> u32 {
        if self.pll is Some {
            2
        } else if self.hse is Some {
            1
        } else {
            0
        }
    }

    /// What `RccPllcfgr` is set to: the dividers in their fields, the output
    /// divider as half of it less one, and the input of the PLL.
    pub open spec fn pllcfgr_word(self) -> u32 {
        match self.pll {
            Some(d) => (d.m as u32) | ((d.n as u32) << 6) | ((((d.p / 2) - 1) as u32) << 16) | (if self.hse is Some {
                PLLSRC_HSE
            } else {
                0
            }) | ((self.pllq as u32) << 24),
            None => 0,
        }
    }

    /// What the fields of `CFGR_FIELDS` are set to: the switch, and the code
    /// of each prescaler.
    pub open spec fn cfgr_word(self) -> u32 {
        self.switch_code() | (ahb_code(self.ahb) << 4) | (apb_code(self.apb1) << 10) | (apb_code(
            self.apb2,
        ) << 13)
    }

    /// The operation that switches the system clock over and sets the bus
    /// prescalers with it.
    pub open spec fn switch_action(self) -> Action {
        Action::Modify { reg: Reg::RccCfgr, clear: CFGR_FIELDS, set: self.cfgr_word() }
    }
}

/// The code of setting `i` of the AHB prescaler in its register field.
pub open spec fn ahb_code(i: u8) -> u32 {
    if i == 0 {
        0
    } else {
        (7 + i) as u32
    }
}

/// The code of setting `i` of an APB prescaler in its register field.
pub open spec fn apb_code(i: u8) -> u32 {
    if i == 0 {
        0
    } else {
        (3 + i) as u32
    }
}

/// The words of a configuration hold each setting in its own field: read
/// back field by field, they give the dividers, the source, the switch and
/// the prescaler codes that went in.
pub proof fn lemma_clock_words(config: ClockConfig)
    requires
        config.wf(),
    ensures
        config.pll matches Some(d) ==> {
            &&& config.pllcfgr_word() & 0x3F == d.m
            &&& (config.pllcfgr_word() >> 6) & 0x1FF == d.n
            &&& 2 * (((config.pllcfgr_word() >> 16) & 0x3) + 1) == d.p
            &&& (config.pllcfgr_word() & PLLSRC_HSE != 0) == (config.hse is Some)
            &&& (config.pllcfgr_word() >> 24) & 0xF == config.pllq
        },
        config.cfgr_word() & 0x3 == config.switch_code(),
        (config.cfgr_word() >> 4) & 0xF == ahb_code(config.ahb),
        (config.cfgr_word() >> 10) & 0x7 == apb_code(config.apb1),
        (config.cfgr_word() >> 13) & 0x7 == apb_code(config.apb2),
        config.cfgr_word() & !CFGR_FIELDS == 0,
{
    let sw = config.switch_code();
    let h = ahb_code(config.ahb);
    let slow = apb_code(config.apb1);
    let fast = apb_code(config.apb2);
    let w = sw | (h << 4) | (slow << 10) | (fast << 13);
    assert(w & 0x3 == sw && (w >> 4) & 0xF == h && (w >> 10) & 0x7 == slow && (w >> 13) & 0x7 == fast
        && w & !0x0000_FCF3u32 == 0) by (bit_vector)
        requires
            w == sw | (h << 4) | (slow << 10) | (fast << 13),
            sw < 4,
            h < 16,
            slow < 8,
            fast < 8,
    ;
    if let Some(d) = config.pll {
        let m = d.m as u32;
        let n = d.n as u32;
        let pc = ((d.p / 2) - 1) as u32;
        let src: u32 = if config.hse is Some {
            PLLSRC_HSE
        } else {
            0
        };
        let q = config.pllq as u32;
        let c = m | (n << 6) | (pc << 16) | src | (q << 24);
        assert(c & 0x3F == m && (c >> 6) & 0x1FF == n && (c >> 16) & 0x3 == pc && c & 0x0040_0000
            == src && (c >> 24) & 0xF == q) by (bit_vector)
            requires
                c == m | (n << 6) | (pc << 16) | src | (q << 24),
                m < 64,
                n < 512,
                pc < 4,
                src == 0x0040_0000u32 || src == 0,
                q < 16,
        ;
    }
}

/// Where the clock switch stands. Each stage names what the next step does.
#[derive(Clone, Copy, Debug, PartialEq, Eq, Structural)]
pub enum SwitchStage {
    /// Switch the source on.
    EnableSource,
    /// Ask for the ready flag of the source a first time.
    SourcePoll,
    /// Look at the flags that were read; ask again until the source is
    /// ready, then go on to the PLL, or to the switch where it stays off.
    SourceWait,
    /// Write the dividers of the PLL, which is off.
    ConfigurePll,
    /// Switch the PLL on.
    EnablePll,
    /// Ask for the ready flag of the PLL a first time.
    PllPoll,
    /// Look at the flags that were read; ask again until the PLL has locked,
    /// then switch the system clock over.
    PllWait,
    /// Ask a first time which clock the system runs from.
    SwitchPoll,
    /// Look at the status that was read; ask again until the system runs
    /// from the clock chosen.
    SwitchWait,
    /// The system runs from the clock chosen.
    Finished,
    /// A flag did not come up in time; the clock tree is dead.
    Halted,
}

/// The switch of the chip to the clocks of a configuration: source on and
/// ready, PLL configured while off, then on and locked, and only then the
/// system clock switched over. Every wait is bounded by
/// [`READY_SPIN_LIMIT`] reads; a flag that does not come up in time halts
/// the procedure for good.
///
/// The driver runs the procedure with interrupts masked, so that no handler
/// sees the clock registers half set.
#[derive(Debug)]
pub struct ClockSwitch {
    rcc: RCC,
    config: ClockConfig,
    stage: SwitchStage,
    spins: u32,
}

/// What a [`ClockSwitch`] is made of: the configuration it switches to, the
/// stage it is in, and how often the flag it waits for was read in vain.
pub struct ClockSwitchView {
    pub config: ClockConfig,
    pub stage: SwitchStage,
    pub spins: u32,
}

impl View for ClockSwitch {
    type V = ClockSwitchView;

    closed spec fn view(&self) -> ClockSwitchView {
        ClockSwitchView { config: self.config, stage: self.stage, spins: self.spins }
    }
}

/// The step of a wait whose flag has not come up: read again, or halt where
/// the flag was read [`READY_SPIN_LIMIT`] times.
pub open spec fn spin_again(v: ClockSwitchView, reg: Reg) -> (ClockSwitchView, Action) {
    if v.spins + 1 >= READY_SPIN_LIMIT {
        (ClockSwitchView { stage: SwitchStage::Halted, spins: 0, ..v }, Action::Halt)
    } else {
        (ClockSwitchView { spins: (v.spins + 1) as u32, ..v }, Action::Read { reg })
    }
}

impl Sequencer for ClockSwitch {
    open spec fn next(v: ClockSwitchView, input: u32) -> (ClockSwitchView, Action) {
        match v.stage {
            SwitchStage::EnableSource => (
                ClockSwitchView { stage: SwitchStage::SourcePoll, ..v },
                Action::Modify { reg: Reg::RccCr, clear: 0, set: v.config.source_on() },
            ),
            SwitchStage::SourcePoll => (
                ClockSwitchView { stage: SwitchStage::SourceWait, spins: 0, ..v },
                Action::Read { reg: Reg::RccCr },
            ),
            SwitchStage::SourceWait => if input & v.config.source_ready() != 0 {
                if v.config.pll is Some {
                    (
                        ClockSwitchView { stage: SwitchStage::ConfigurePll, spins: 0, ..v },
                        Action::Modify { reg: Reg::RccCr, clear: PLLON, set: 0 },
                    )
                } else {
                    (
                        ClockSwitchView { stage: SwitchStage::SwitchPoll, spins: 0, ..v },
                        v.config.switch_action(),
                    )
                }
            } else {
                spin_again(v, Reg::RccCr)
            },
            SwitchStage::ConfigurePll => (
                ClockSwitchView { stage: SwitchStage::EnablePll, ..v },
                Action::Write { reg: Reg::RccPllcfgr, value: v.config.pllcfgr_word() },
            ),
            SwitchStage::EnablePll => (
                ClockSwitchView { stage: SwitchStage::PllPoll, ..v },
                Action::Modify { reg: Reg::RccCr, clear: 0, set: PLLON },
            ),
            SwitchStage::PllPoll => (
                ClockSwitchView { stage: SwitchStage::PllWait, spins: 0, ..v },
                Action::Read { reg: Reg::RccCr },
            ),
            SwitchStage::PllWait => if input & PLLRDY != 0 {
                (
                    ClockSwitchView { stage: SwitchStage::SwitchPoll, spins: 0, ..v },
                    v.config.switch_action(),
                )
            } else {
                spin_again(v, Reg::RccCr)
            },
            SwitchStage::SwitchPoll => (
                ClockSwitchView { stage: SwitchStage::SwitchWait, spins: 0, ..v },
                Action::Read { reg: Reg::RccCfgr },
            ),
            SwitchStage::SwitchWait => if (input >> 2) & 0x3 == v.config.switch_code() {
                (ClockSwitchView { stage: SwitchStage::Finished, spins: 0, ..v }, Action::Done)
            } else {
                spin_again(v, Reg::RccCfgr)
            },
            SwitchStage::Finished => (v, Action::Done),
            SwitchStage::Halted => (v, Action::Halt),
        }
    }

    open spec fn inv(v: ClockSwitchView) -> bool {
        &&& v.config.wf()
        &&& v.spins < READY_SPIN_LIMIT
    }

    open spec fn exclusive() -> bool {
        true
    }

    fn is_exclusive(&self) -> (masked: bool) {
        true
    }

    proof fn lemma_next_inv(v: ClockSwitchView, input: u32) {
    }

    fn step(&mut self, input: u32) -> (action: Action) {
        match self.stage {
            SwitchStage::EnableSource => {
                self.stage = SwitchStage::SourcePoll;
                Action::Modify { reg: Reg::RccCr, clear: 0, set: self.source_on() }
            },
            SwitchStage::SourcePoll => {
                self.stage = SwitchStage::SourceWait;
                self.spins = 0;
                Action::Read { reg: Reg::RccCr }
            },
            SwitchStage::SourceWait => {
                if input & self.source_ready() != 0 {
                    self.spins = 0;
                    if self.config.pll.is_some() {
                        self.stage = SwitchStage::ConfigurePll;
                        Action::Modify { reg: Reg::RccCr, clear: PLLON, set: 0 }
                    } else {
                        self.stage = SwitchStage::SwitchPoll;
                        self.switch_action()
                    }
                } else {
                    self.spin(Reg::RccCr)
                }
            },
            SwitchStage::ConfigurePll => {
                self.stage = SwitchStage::EnablePll;
                Action::Write { reg: Reg::RccPllcfgr, value: self.pllcfgr_word() }
            },
            SwitchStage::EnablePll => {
                self.stage = SwitchStage::PllPoll;
                Action::Modify { reg: Reg::RccCr, clear: 0, set: PLLON }
            },
            SwitchStage::PllPoll => {
                self.stage = SwitchStage::PllWait;
                self.spins = 0;
                Action::Read { reg: Reg::RccCr }
            },
            SwitchStage::PllWait => {
                if input & PLLRDY != 0 {
                    self.spins = 0;
                    self.stage = SwitchStage::SwitchPoll;
                    self.switch_action()
                } else {
                    self.spin(Reg::RccCr)
                }
            },
            SwitchStage::SwitchPoll => {
                self.stage = SwitchStage::SwitchWait;
                self.spins = 0;
                Action::Read { reg: Reg::RccCfgr }
            },
            SwitchStage::SwitchWait => {
                if (input >> 2) & 0x3 == self.switch_code() {
                    self.spins = 0;
                    self.stage = SwitchStage::Finished;
                    Action::Done
                } else {
                    self.spin(Reg::RccCfgr)
                }
            },
            SwitchStage::Finished => Action::Done,
            SwitchStage::Halted => Action::Halt,
        }
    }
}

impl ClockSwitch {
    /// The switch to `config`, with nothing done yet.
    pub(crate) fn new(rcc: RCC, config: ClockConfig) -> (switch: ClockSwitch)
        requires
            config.wf(),
        ensures
            switch@ == (ClockSwitchView { config, stage: SwitchStage::EnableSource, spins: 0 }),
            ClockSwitch::inv(switch@),
    {
        ClockSwitch { rcc, config, stage: SwitchStage::EnableSource, spins: 0 }
    }

    fn spin(&mut self, reg: Reg) -> (action: Action)
        requires
            ClockSwitch::inv(old(self)@),
        ensures
            (final(self)@, action) == spin_again(old(self)@, reg),
    {
        if self.spins + 1 >= READY_SPIN_LIMIT {
            self.stage = SwitchStage::Halted;
            self.spins = 0;
            Action::Halt
        } else {
            self.spins = self.spins + 1;
            Action::Read { reg }
        }
    }

    fn source_on(&self) -> (bits: u32)
        ensures
            bits == self@.config.source_on(),
    {
        match self.config.hse {
            None => HSION,
            Some(hse) => match hse.mode {
                HSEClockMode::Oscillator => HSEON,
                HSEClockMode::Bypass => 0x0005_0000,
            },
        }
    }

    fn source_ready(&self) -> (bits: u32)
        ensures
            bits == self@.config.source_ready(),
    {
        match self.config.hse {
            None => HSIRDY,
            Some(_) => HSERDY,
        }
    }

    fn switch_code(&self) -> (code: u32)
        ensures
            code == self@.config.switch_code(),
    {
        if self.config.pll.is_some() {
            2
        } else if self.config.hse.is_some() {
            1
        } else {
            0
        }
    }

    fn pllcfgr_word(&self) -> (word: u32)
        requires
            self@.config.wf(),
        ensures
            word == self@.config.pllcfgr_word(),
    {
        match self.config.pll {
            Some(d) => {
                let source: u32 = if self.config.hse.is_some() {
                    PLLSRC_HSE
                } else {
                    0
                };
                (d.m as u32) | ((d.n as u32) << 6) | ((((d.p / 2) - 1) as u32) << 16) | source | ((
                self.config.pllq as u32) << 24)
            },
            None => 0,
        }
    }

    fn switch_action(&self) -> (action: Action)
        requires
            self@.config.wf(),
        ensures
            action == self@.config.switch_action(),
    {
        let ahb: u32 = if self.config.ahb == 0 {
            0
        } else {
            7 + self.config.ahb as u32
        };
        let apb1: u32 = if self.config.apb1 == 0 {
            0
        } else {
            3 + self.config.apb1 as u32
        };
        let apb2: u32 = if self.config.apb2 == 0 {
            0
        } else {
            3 + self.config.apb2 as u32
        };
        Action::Modify {
            reg: Reg::RccCfgr,
            clear: CFGR_FIELDS,
            set: self.switch_code() | (ahb << 4) | (apb1 << 10) | (apb2 << 13),
        }
    }

    /// The configuration that the procedure switches to.
    pub fn config(&self) -> (config: ClockConfig)
        ensures
            config == self@.config,
    {
        self.config
    }

    /// The stage the procedure is in.
    pub fn stage(&self) -> (stage: SwitchStage)
        ensures
            stage == self@.stage,
    {
        self.stage
    }

    /// The clocks of the chip, once the system runs from the clock chosen;
    /// `None` before that, and for good where the procedure halted.
    pub fn clocks(&self) -> (clocks: Option<Clocks>)
        ensures
            match clocks {
                Some(c) => self@.stage == SwitchStage::Finished && c@ == self@.config,
                None => self@.stage != SwitchStage::Finished,
            },
    {
        match self.stage {
            SwitchStage::Finished => Some(Clocks::of(self.config)),
            _ => None,
        }
    }
}

/// How many steps a stage of the clock switch is from the end, at most,
/// with a wait counted as if its flag came up at the last read allowed.
pub open spec fn switch_steps_left(stage: SwitchStage, spins: u32) -> nat {
    let wait = (READY_SPIN_LIMIT - spins) as nat;
    let limit = READY_SPIN_LIMIT as nat;
    match stage {
        SwitchStage::EnableSource => 3 * limit + 7,
        SwitchStage::SourcePoll => 3 * limit + 6,
        SwitchStage::SourceWait => wait + 2 * limit + 5,
        SwitchStage::ConfigurePll => 2 * limit + 4,
        SwitchStage::EnablePll => 2 * limit + 3,
        SwitchStage::PllPoll => 2 * limit + 2,
        SwitchStage::PllWait => wait + limit + 1,
        SwitchStage::SwitchPoll => limit + 1,
        SwitchStage::SwitchWait => wait,
        SwitchStage::Finished => 0,
        SwitchStage::Halted => 0,
    }
}

impl Bounded for ClockSwitch {
    open spec fn budget(v: ClockSwitchView) -> nat {
        if v.spins < READY_SPIN_LIMIT {
            switch_steps_left(v.stage, v.spins)
        } else {
            0
        }
    }

    proof fn lemma_budget(v: ClockSwitchView, input: u32) {
    }
}

/// Whether step `j` of a run was fed a clock control word with a bit of
/// `flag` set, in answer to a read of the clock control register at the step
/// before.
pub open spec fn ready_seen_at(acts: Seq<Action>, inputs: Seq<u32>, flag: u32, j: int) -> bool {
    &&& 0 < j < inputs.len()
    &&& acts[j - 1] == (Action::Read { reg: Reg::RccCr })
    &&& inputs[j] & flag != 0
}

/// Whether a stage lies behind the wait for the source.
pub open spec fn source_confirmed(stage: SwitchStage) -> bool {
    stage != SwitchStage::EnableSource && stage != SwitchStage::SourcePoll && stage
        != SwitchStage::SourceWait && stage != SwitchStage::Halted
}

/// Whether a stage lies behind the wait for the PLL, or behind the place
/// where that wait would be.
pub open spec fn switched(stage: SwitchStage) -> bool {
    stage == SwitchStage::SwitchPoll || stage == SwitchStage::SwitchWait || stage
        == SwitchStage::Finished
}

/// What a run of the clock switch from its beginning has seen, by the stage
/// it has reached.
proof fn lemma_switch_progress(config: ClockConfig, inputs: Seq<u32>)
    ensures
        ({
            let v0 = ClockSwitchView { config, stage: SwitchStage::EnableSource, spins: 0 };
            let s = state_after::<ClockSwitch>(v0, inputs);
            let acts = actions::<ClockSwitch>(v0, inputs);
            &&& acts.len() == inputs.len()
            &&& s.config == config
            &&& (s.stage == SwitchStage::SourceWait || s.stage == SwitchStage::PllWait)
                ==> inputs.len() > 0 && acts.last() == (Action::Read { reg: Reg::RccCr })
            &&& s.stage != SwitchStage::EnableSource && s.stage != SwitchStage::Halted
                ==> inputs.len() > 0
            &&& source_confirmed(s.stage) ==> exists|j: int|
                #![trigger inputs[j]]
                ready_seen_at(acts, inputs, config.source_ready(), j)
            &&& switched(s.stage) && config.pll is Some ==> exists|j: int, k: int|
                #![trigger inputs[j], inputs[k]]
                j < k && ready_seen_at(acts, inputs, config.source_ready(), j) && ready_seen_at(
                    acts,
                    inputs,
                    PLLRDY,
                    k,
                )
        }),
    decreases inputs.len(),
{
    let v0 = ClockSwitchView { config, stage: SwitchStage::EnableSource, spins: 0 };
    if inputs.len() > 0 {
        let shorter = inputs.drop_last();
        lemma_switch_progress(config, shorter);
        let before = state_after::<ClockSwitch>(v0, shorter);
        let acts0 = actions::<ClockSwitch>(v0, shorter);
        let acts = actions::<ClockSwitch>(v0, inputs);
        let s = state_after::<ClockSwitch>(v0, inputs);
        let n = shorter.len() as int;
        assert(acts == acts0.push(ClockSwitch::next(before, inputs.last()).1));
        assert forall|flag: u32, j: int| ready_seen_at(acts0, shorter, flag, j) implies ready_seen_at(
            acts,
            inputs,
            flag,
            j,
        ) by {
            assert(acts[j - 1] == acts0[j - 1]);
            assert(inputs[j] == shorter[j]);
        }
        if before.stage == SwitchStage::SourceWait && source_confirmed(s.stage) {
            assert(acts[n - 1] == acts0.last());
            assert(ready_seen_at(acts, inputs, config.source_ready(), n));
        } else if source_confirmed(s.stage) {
            let j = choose|j: int|
                #![trigger shorter[j]]
                ready_seen_at(acts0, shorter, config.source_ready(), j);
            assert(ready_seen_at(acts, inputs, config.source_ready(), j));
            assert(inputs[j] == shorter[j]);
            if before.stage == SwitchStage::PllWait && switched(s.stage) {
                assert(acts[n - 1] == acts0.last());
                assert(ready_seen_at(acts, inputs, PLLRDY, n));
                assert(inputs[n] == inputs[n]);
            } else if switched(s.stage) && config.pll is Some {
                let (jx, kx) = choose|j: int, k: int|
                    #![trigger shorter[j], shorter[k]]
                    j < k && ready_seen_at(acts0, shorter, config.source_ready(), j)
                        && ready_seen_at(acts0, shorter, PLLRDY, k);
                assert(ready_seen_at(acts, inputs, config.source_ready(), jx));
                assert(ready_seen_at(acts, inputs, PLLRDY, kx));
                assert(inputs[jx] == shorter[jx]);
                assert(inputs[kx] == shorter[kx]);
            }
        }
    }
}

/// The system clock is never switched over before its source is confirmed
/// stable: where step `i` of a run from the beginning writes to the clock
/// configuration register, a step up to `i` was fed the ready flag of the
/// source, and, where the PLL is used, a later step up to `i` was fed the
/// ready flag of the PLL. Each flag came in answer to a read of the clock
/// control register.
pub proof fn lemma_switch_order(config: ClockConfig, inputs: Seq<u32>, i: int)
    requires
        0 <= i < inputs.len(),
        actions::<ClockSwitch>(
            ClockSwitchView { config, stage: SwitchStage::EnableSource, spins: 0 },
            inputs,
        )[i].target() == Some(Reg::RccCfgr),
        actions::<ClockSwitch>(
            ClockSwitchView { config, stage: SwitchStage::EnableSource, spins: 0 },
            inputs,
        )[i] is Modify,
    ensures
        ({
            let acts = actions::<ClockSwitch>(
                ClockSwitchView { config, stage: SwitchStage::EnableSource, spins: 0 },
                inputs,
            );
            &&& acts[i] == config.switch_action()
            &&& exists|j: int| #[trigger]
                ready_seen_at(acts, inputs, config.source_ready(), j) && j <= i
            &&& config.pll is Some ==> exists|j: int, k: int|
                #![trigger ready_seen_at(acts, inputs, config.source_ready(), j), ready_seen_at(acts, inputs, PLLRDY, k)]
                j < k <= i && ready_seen_at(acts, inputs, config.source_ready(), j)
                    && ready_seen_at(acts, inputs, PLLRDY, k)
        }),
{
    let v0 = ClockSwitchView { config, stage: SwitchStage::EnableSource, spins: 0 };
    let acts = actions::<ClockSwitch>(v0, inputs);
    let head = inputs.take(i + 1);
    let acts1 = actions::<ClockSwitch>(v0, head);
    lemma_run_prefix::<ClockSwitch>(v0, inputs, i);
    lemma_run_prefix::<ClockSwitch>(v0, inputs, i + 1);
    lemma_switch_progress(config, inputs.take(i));
    lemma_switch_progress(config, head);
    assert(head.drop_last() == inputs.take(i));
    let s = state_after::<ClockSwitch>(v0, head);
    assert(switched(s.stage));
    assert(acts1 == acts.take(i + 1));
    assert forall|flag: u32, j: int| ready_seen_at(acts1, head, flag, j) implies ready_seen_at(
        acts,
        inputs,
        flag,
        j,
    ) && j <= i by {
        assert(acts1[j - 1] == acts[j - 1]);
        assert(head[j] == inputs[j]);
    }
    let j = choose|j: int|
        #![trigger head[j]]
        ready_seen_at(acts1, head, config.source_ready(), j);
    assert(ready_seen_at(acts, inputs, config.source_ready(), j) && j <= i);
    if config.pll is Some {
        let (jx, kx) = choose|j: int, k: int|
            #![trigger head[j], head[k]]
            j < k && ready_seen_at(acts1, head, config.source_ready(), j) && ready_seen_at(
                acts1,
                head,
                PLLRDY,
                k,
            );
        assert(ready_seen_at(acts, inputs, config.source_ready(), jx));
        assert(ready_seen_at(acts, inputs, PLLRDY, kx) && kx <= i);
    }
}

/// The clocks are handed out only once the system was seen to run from the
/// clock chosen: a run from the beginning that has finished was fed, in
/// answer to a read of the clock configuration register, a status that names
/// the clock of the configuration.
pub proof fn lemma_switch_confirmed(config: ClockConfig, inputs: Seq<u32>)
    requires
        state_after::<ClockSwitch>(
            ClockSwitchView { config, stage: SwitchStage::EnableSource, spins: 0 },
            inputs,
        ).stage == SwitchStage::Finished,
    ensures
        ({
            let acts = actions::<ClockSwitch>(
                ClockSwitchView { config, stage: SwitchStage::EnableSource, spins: 0 },
                inputs,
            );
            exists|j: int|
                #![trigger inputs[j]]
                0 < j < inputs.len() && acts[j - 1] == (Action::Read { reg: Reg::RccCfgr })
                    && (inputs[j] >> 2) & 0x3 == config.switch_code() && acts[j] == Action::Done
        }),
    decreases inputs.len(),
{
    let v0 = ClockSwitchView { config, stage: SwitchStage::EnableSource, spins: 0 };
    let shorter = inputs.drop_last();
    let before = state_after::<ClockSwitch>(v0, shorter);
    let acts0 = actions::<ClockSwitch>(v0, shorter);
    let acts = actions::<ClockSwitch>(v0, inputs);
    let n = shorter.len() as int;
    assert(inputs.len() > 0);
    assert(acts == acts0.push(ClockSwitch::next(before, inputs.last()).1));
    lemma_switch_progress(config, shorter);
    if before.stage == SwitchStage::Finished {
        lemma_switch_confirmed(config, shorter);
        let j = choose|j: int|
            #![trigger shorter[j]]
            0 < j < shorter.len() && acts0[j - 1] == (Action::Read { reg: Reg::RccCfgr }) && (
            shorter[j] >> 2) & 0x3 == config.switch_code() && acts0[j] == Action::Done;
        assert(inputs[j] == shorter[j]);
        assert(acts[j - 1] == acts0[j - 1]);
        assert(acts[j] == acts0[j]);
    } else {
        assert(before.stage == SwitchStage::SwitchWait);
        lemma_switch_waits(config, shorter);
        assert(acts[n - 1] == acts0.last());
        assert(inputs[n] == inputs.last());
    }
}

/// While the clock switch waits for the system clock status, the last thing
/// it asked for was a read of the clock configuration register.
proof fn lemma_switch_waits(config: ClockConfig, inputs: Seq<u32>)
    requires
        state_after::<ClockSwitch>(
            ClockSwitchView { config, stage: SwitchStage::EnableSource, spins: 0 },
            inputs,
        ).stage == SwitchStage::SwitchWait,
    ensures
        inputs.len() > 0,
        actions::<ClockSwitch>(
            ClockSwitchView { config, stage: SwitchStage::EnableSource, spins: 0 },
            inputs,
        ).last() == (Action::Read { reg: Reg::RccCfgr }),
{
    let v0 = ClockSwitchView { config, stage: SwitchStage::EnableSource, spins: 0 };
    let shorter = inputs.drop_last();
    let before = state_after::<ClockSwitch>(v0, shorter);
    assert(inputs.len() > 0);
    lemma_switch_progress(config, shorter);
}

/// Whether every flag that a run waited for was up when it was first read:
/// the source ready, the PLL locked, the system running from the clock
/// chosen.
pub open spec fn comes_up_at_once(v: ClockSwitchView, inputs: Seq<u32>) -> bool {
    forall|k: int|
        0 <= k < inputs.len() ==> match (#[trigger] state_after::<ClockSwitch>(
            v,
            inputs.take(k),
        )).stage {
            SwitchStage::SourceWait => inputs[k] & v.config.source_ready() != 0,
            SwitchStage::PllWait => inputs[k] & PLLRDY != 0,
            SwitchStage::SwitchWait => (inputs[k] >> 2) & 0x3 == v.config.switch_code(),
            _ => true,
        }
}

/// On a clock tree that comes up the switch goes through: where every flag
/// is up when it is first read, a switch that was fed as many inputs as it
/// has steps has finished, and the clocks it hands out are those of its
/// configuration.
pub proof fn lemma_switch_finishes(config: ClockConfig, inputs: Seq<u32>)
    requires
        config.wf(),
        comes_up_at_once(
            ClockSwitchView { config, stage: SwitchStage::EnableSource, spins: 0 },
            inputs,
        ),
    ensures
        state_after::<ClockSwitch>(
            ClockSwitchView { config, stage: SwitchStage::EnableSource, spins: 0 },
            inputs,
        ).stage != SwitchStage::Halted,
        state_after::<ClockSwitch>(
            ClockSwitchView { config, stage: SwitchStage::EnableSource, spins: 0 },
            inputs,
        ).config == config,
        inputs.len() >= 3 * READY_SPIN_LIMIT + 7 ==> state_after::<ClockSwitch>(
            ClockSwitchView { config, stage: SwitchStage::EnableSource, spins: 0 },
            inputs,
        ).stage == SwitchStage::Finished,
    decreases inputs.len(),
{
    let v0 = ClockSwitchView { config, stage: SwitchStage::EnableSource, spins: 0 };
    if inputs.len() > 0 {
        let shorter = inputs.drop_last();
        let n = shorter.len() as int;
        assert forall|k: int| 0 <= k < shorter.len() implies match (#[trigger] state_after::<
            ClockSwitch,
        >(v0, shorter.take(k))).stage {
            SwitchStage::SourceWait => shorter[k] & config.source_ready() != 0,
            SwitchStage::PllWait => shorter[k] & PLLRDY != 0,
            SwitchStage::SwitchWait => (shorter[k] >> 2) & 0x3 == config.switch_code(),
            _ => true,
        } by {
            assert(shorter.take(k) =~= inputs.take(k));
            assert(shorter[k] == inputs[k]);
        }
        lemma_switch_finishes(config, shorter);
        assert(inputs.take(n) =~= shorter);
        assert(inputs[n] == inputs.last());
    }
    lemma_ends::<ClockSwitch>(v0, inputs);
    lemma_run::<ClockSwitch>(v0, inputs);
}

} // verus!
