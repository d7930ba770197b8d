//! The high-speed USB OTG controller with the high-speed PHY inside the chip.

use vstd::prelude::*;
use crate::gpio::{Alternate, PB14, PB15};
use crate::otg::{BringUpState, Controller, PhyType, PowerUp, Speed};
use crate::pac::{OTG_HS_DEVICE, OTG_HS_GLOBAL, OTG_HS_PWRCLK};
use crate::rcc::Clocks;
use crate::register::{Action, Reg, OTG_HS_BASE};
use crate::sequence::{actions, lemma_run_prefix, state_after, Sequencer};
use crate::time::Hertz;

verus! {

/// Regulator status in `UsbphycLdo`: set once the regulator output is stable.
pub const LDO_STATUS: u32 = 0x2;

/// Regulator control in `UsbphycLdo`. The bit is named "disable" in the
/// register map, yet setting it is what switches the regulator on.
pub const LDO_DISABLE: u32 = 0x4;

/// Enable of the PHY PLL, in `UsbphycPll1`.
pub const PLL1EN: u32 = 0x1;

/// Where the reference selection lies in `UsbphycPll1`.
pub const PLL1SEL_SHIFT: u32 = 1;

/// Tuning of the PHY, set in `UsbphycTune` on top of what the register holds.
/// The value is the one the chip vendor's own driver programs: it selects the
/// transmitter pre-emphasis and current, the squelch threshold and the
/// termination calibration that the vendor characterised for this PHY.
/// Nothing derives it; it is kept as given.
pub const PHY_TUNE: u32 = 0xF13;

/// How long the PHY clock is left to settle after its PLL is enabled, in
/// processor cycles: 2 ms at 216 MHz, the highest core clock, and so at
/// least 2 ms at any other.
pub const PHY_SETTLE_CYCLES: u32 = 432_000;

/// The reference selection that the PHY PLL needs for a reference clock of
/// `reference`, for each frequency that the PLL accepts.
pub open spec fn spec_reference_code(reference: Hertz) -> Option<u8> {
    if reference.0 == 12_000_000 {
        Some(0b000u8)
    } else if reference.0 == 12_500_000 {
        Some(0b001u8)
    } else if reference.0 == 16_000_000 {
        Some(0b011u8)
    } else if reference.0 == 24_000_000 {
        Some(0b100u8)
    } else if reference.0 == 25_000_000 {
        Some(0b101u8)
    } else {
        None
    }
}

/// Looks up the reference selection that the PHY PLL needs for a reference
/// clock of `reference`; `None` where the PLL cannot run from it.
#[verifier::when_used_as_spec(spec_reference_code)]
pub fn reference_code(reference: Hertz) -> (code: Option<u8>)
    ensures
        code == spec_reference_code(reference),
        code matches Some(c) ==> c < 8,
{
    match reference.0 {
        12_000_000 => Some(0b000),
        12_500_000 => Some(0b001),
        16_000_000 => Some(0b011),
        24_000_000 => Some(0b100),
        25_000_000 => Some(0b101),
        _ => None,
    }
}

/// Where the calibration of the PHY stands. Each stage names what the next
/// step does.
#[derive(Clone, Copy, Debug, PartialEq, Eq, Structural)]
pub enum PhyStage {
    /// Switch the regulator on.
    Regulator,
    /// Ask for the regulator status a first time.
    RegulatorPoll,
    /// Look at the regulator status that was read; ask again until it says
    /// ready, then select the reference.
    RegulatorWait,
    /// Program the tuning.
    Tune,
    /// Enable the PLL.
    PllEnable,
    /// Ask for the PLL control word a first time.
    PllPoll,
    /// Look at the PLL control word that was read; ask again until it shows
    /// the PLL enabled, then let the PHY clock settle.
    PllWait,
    /// Report the end of the calibration.
    Calibrated,
    /// Nothing is left to do.
    Ready,
}

impl PhyStage {
    /// The place of the stage in the order of the calibration.
    pub open spec fn rank(self) -> int {
        match self {
            PhyStage::Regulator => 0,
            PhyStage::RegulatorPoll => 1,
            PhyStage::RegulatorWait => 2,
            PhyStage::Tune => 3,
            PhyStage::PllEnable => 4,
            PhyStage::PllPoll => 5,
            PhyStage::PllWait => 6,
            PhyStage::Calibrated => 7,
            PhyStage::Ready => 8,
        }
    }
}

/// The calibration of the high-speed PHY: regulator on, wait for it,
/// reference selection, tuning, PLL on, wait until the PLL shows as enabled,
/// settle time. The two waits have no bound: the hardware guarantees that
/// the regulator comes up and that the enable takes.
#[derive(Clone, Copy, Debug)]
pub struct PhyCalibration {
    code: u8,
    stage: PhyStage,
}

/// What a [`PhyCalibration`] is made of: the reference selection it programs
/// and the stage it is in.
pub struct PhyCalibrationView {
    pub code: u8,
    pub stage: PhyStage,
}

impl View for PhyCalibration {
    type V = PhyCalibrationView;

    closed spec fn view(&self) -> PhyCalibrationView {
        PhyCalibrationView { code: self.code, stage: self.stage }
    }
}

/// The value stored in `UsbphycPll1` to select the reference: the code in
/// its field, the PLL still disabled.
pub open spec fn reference_word(code: u8) -> u32 {
    (code as u32) << PLL1SEL_SHIFT
}

impl PhyCalibration {
    /// The calibration for a PHY whose reference clock runs at `reference`,
    /// with nothing done yet; `None` where the PHY PLL cannot run from that
    /// frequency.
    pub fn new(reference: Hertz) -> (c: Option<PhyCalibration>)
        ensures
            match spec_reference_code(reference) {
                Some(code) => c.is_some() && c.unwrap()@ == (PhyCalibrationView {
                    code,
                    stage: PhyStage::Regulator,
                }),
                None => c.is_none(),
            },
            c matches Some(m) ==> PhyCalibration::inv(m@),
    {
        match reference_code(reference) {
            Some(code) => Some(PhyCalibration { code, stage: PhyStage::Regulator }),
            None => None,
        }
    }

    /// The stage the calibration is in.
    pub fn stage(&self) -> (s: PhyStage)
        ensures
            s == self@.stage,
    {
        self.stage
    }

    /// The reference selection that the calibration programs.
    pub fn code(&self) -> (c: u8)
        ensures
            c == self@.code,
    {
        self.code
    }

    /// How far the controller has come once what was handed out so far was
    /// performed: it is in `Reset` until the settle time has passed.
    pub fn state(&self) -> (s: BringUpState)
        ensures
            s == phy_bring_up_state(self@.stage),
    {
        match self.stage {
            PhyStage::Calibrated => BringUpState::PhyCalibrated,
            PhyStage::Ready => BringUpState::Ready,
            _ => BringUpState::Reset,
        }
    }
}

/// How far the controller has come at a stage of the calibration.
pub open spec fn phy_bring_up_state(stage: PhyStage) -> BringUpState {
    match stage {
        PhyStage::Calibrated => BringUpState::PhyCalibrated,
        PhyStage::Ready => BringUpState::Ready,
        _ => BringUpState::Reset,
    }
}

impl Sequencer for PhyCalibration {
    open spec fn next(v: PhyCalibrationView, input: u32) -> (PhyCalibrationView, Action) {
        match v.stage {
            PhyStage::Regulator => (
                PhyCalibrationView { stage: PhyStage::RegulatorPoll, ..v },
                Action::Modify { reg: Reg::UsbphycLdo, clear: 0, set: LDO_DISABLE },
            ),
            PhyStage::RegulatorPoll => (
                PhyCalibrationView { stage: PhyStage::RegulatorWait, ..v },
                Action::Read { reg: Reg::UsbphycLdo },
            ),
            PhyStage::RegulatorWait => if input & LDO_STATUS != 0 {
                (
                    PhyCalibrationView { stage: PhyStage::Tune, ..v },
                    Action::Write { reg: Reg::UsbphycPll1, value: reference_word(v.code) },
                )
            } else {
                (v, Action::Read { reg: Reg::UsbphycLdo })
            },
            PhyStage::Tune => (
                PhyCalibrationView { stage: PhyStage::PllEnable, ..v },
                Action::Modify { reg: Reg::UsbphycTune, clear: 0, set: PHY_TUNE },
            ),
            PhyStage::PllEnable => (
                PhyCalibrationView { stage: PhyStage::PllPoll, ..v },
                Action::Modify { reg: Reg::UsbphycPll1, clear: 0, set: PLL1EN },
            ),
            PhyStage::PllPoll => (
                PhyCalibrationView { stage: PhyStage::PllWait, ..v },
                Action::Read { reg: Reg::UsbphycPll1 },
            ),
            PhyStage::PllWait => if input & PLL1EN != 0 {
                (
                    PhyCalibrationView { stage: PhyStage::Calibrated, ..v },
                    Action::Delay { cycles: PHY_SETTLE_CYCLES },
                )
            } else {
                (v, Action::Read { reg: Reg::UsbphycPll1 })
            },
            PhyStage::Calibrated => (
                PhyCalibrationView { stage: PhyStage::Ready, ..v },
                Action::Done,
            ),
            PhyStage::Ready => (v, Action::Done),
        }
    }

    open spec fn inv(v: PhyCalibrationView) -> bool {
        v.code < 8
    }

    open spec fn exclusive() -> bool {
        false
    }

    fn is_exclusive(&self) -> (masked: bool) {
        false
    }

    proof fn lemma_next_inv(v: PhyCalibrationView, input: u32) {
    }

    fn step(&mut self, input: u32) -> (action: Action) {
        match self.stage {
            PhyStage::Regulator => {
                self.stage = PhyStage::RegulatorPoll;
                Action::Modify { reg: Reg::UsbphycLdo, clear: 0, set: LDO_DISABLE }
            },
            PhyStage::RegulatorPoll => {
                self.stage = PhyStage::RegulatorWait;
                Action::Read { reg: Reg::UsbphycLdo }
            },
            PhyStage::RegulatorWait => {
                if input & LDO_STATUS != 0 {
                    self.stage = PhyStage::Tune;
                    Action::Write {
                        reg: Reg::UsbphycPll1,
                        value: (self.code as u32) << PLL1SEL_SHIFT,
                    }
                } else {
                    Action::Read { reg: Reg::UsbphycLdo }
                }
            },
            PhyStage::Tune => {
                self.stage = PhyStage::PllEnable;
                Action::Modify { reg: Reg::UsbphycTune, clear: 0, set: PHY_TUNE }
            },
            PhyStage::PllEnable => {
                self.stage = PhyStage::PllPoll;
                Action::Modify { reg: Reg::UsbphycPll1, clear: 0, set: PLL1EN }
            },
            PhyStage::PllPoll => {
                self.stage = PhyStage::PllWait;
                Action::Read { reg: Reg::UsbphycPll1 }
            },
            PhyStage::PllWait => {
                if input & PLL1EN != 0 {
                    self.stage = PhyStage::Calibrated;
                    Action::Delay { cycles: PHY_SETTLE_CYCLES }
                } else {
                    Action::Read { reg: Reg::UsbphycPll1 }
                }
            },
            PhyStage::Calibrated => {
                self.stage = PhyStage::Ready;
                Action::Done
            },
            PhyStage::Ready => Action::Done,
        }
    }
}

/// The stages of the calibration are gone through in their order, one at a
/// time: a step leaves the calibration in its stage or takes it to the next,
/// and the bring-up never goes back.
pub proof fn lemma_calibration_steps_in_order(v: PhyCalibrationView, input: u32)
    ensures
        ({
            let after = PhyCalibration::next(v, input).0;
            &&& after.code == v.code
            &&& after.stage.rank() == v.stage.rank() || after.stage.rank() == v.stage.rank() + 1
            &&& phy_bring_up_state(after.stage).rank() >= phy_bring_up_state(v.stage).rank()
        }),
{
}

/// Whether step `j` of a run was fed a regulator status that says ready, in
/// answer to a read of the regulator register at the step before.
pub open spec fn regulator_ready_at(acts: Seq<Action>, inputs: Seq<u32>, j: int) -> bool {
    &&& 0 < j < inputs.len()
    &&& acts[j - 1] == (Action::Read { reg: Reg::UsbphycLdo })
    &&& inputs[j] & LDO_STATUS != 0
}

/// Whether step `k` of a run enabled the PHY PLL.
pub open spec fn pll_enabled_at(acts: Seq<Action>, k: int) -> bool {
    &&& 0 <= k < acts.len()
    &&& acts[k] == (Action::Modify { reg: Reg::UsbphycPll1, clear: 0, set: PLL1EN })
}

/// Whether step `l` of a run was fed a PLL control word that shows the PLL
/// enabled, in answer to a read of the PLL register at the step before.
pub open spec fn pll_running_at(acts: Seq<Action>, inputs: Seq<u32>, l: int) -> bool {
    &&& 0 < l < inputs.len()
    &&& acts[l - 1] == (Action::Read { reg: Reg::UsbphycPll1 })
    &&& inputs[l] & PLL1EN != 0
}

/// Whether a run has seen the regulator ready at step `j`, has then enabled
/// the PLL at step `k`, and has then seen the PLL enabled at step `l`.
pub open spec fn calibrated_by(
    acts: Seq<Action>,
    inputs: Seq<u32>,
    j: int,
    k: int,
    l: int,
) -> bool {
    &&& j < k < l
    &&& regulator_ready_at(acts, inputs, j)
    &&& pll_enabled_at(acts, k)
    &&& pll_running_at(acts, inputs, l)
}

/// What a run of the calibration from its beginning has seen and done, by the
/// stage it has reached.
proof fn lemma_phy_progress(code: u8, inputs: Seq<u32>)
    ensures
        ({
            let v0 = PhyCalibrationView { code, stage: PhyStage::Regulator };
            let s = state_after::<PhyCalibration>(v0, inputs);
            let acts = actions::<PhyCalibration>(v0, inputs);
            &&& acts.len() == inputs.len()
            &&& s.code == code
            &&& s.stage.rank() <= inputs.len()
            &&& s.stage == PhyStage::RegulatorWait ==> acts.last() == (Action::Read {
                reg: Reg::UsbphycLdo,
            })
            &&& s.stage == PhyStage::PllWait ==> acts.last() == (Action::Read {
                reg: Reg::UsbphycPll1,
            })
            &&& s.stage.rank() >= PhyStage::Tune.rank() ==> exists|j: int| #[trigger]
                regulator_ready_at(acts, inputs, j)
            &&& s.stage.rank() >= PhyStage::PllPoll.rank() ==> exists|j: int, k: int|
                #![trigger regulator_ready_at(acts, inputs, j), pll_enabled_at(acts, k)]
                j < k && regulator_ready_at(acts, inputs, j) && pll_enabled_at(acts, k)
            &&& s.stage.rank() >= PhyStage::Calibrated.rank() ==> exists|j: int, k: int, l: int|
                #[trigger] calibrated_by(acts, inputs, j, k, l)
        }),
    decreases inputs.len(),
{
    let v0 = PhyCalibrationView { code, stage: PhyStage::Regulator };
    if inputs.len() > 0 {
        let shorter = inputs.drop_last();
        lemma_phy_progress(code, shorter);
        let before = state_after::<PhyCalibration>(v0, shorter);
        let acts0 = actions::<PhyCalibration>(v0, shorter);
        let acts = actions::<PhyCalibration>(v0, inputs);
        let s = state_after::<PhyCalibration>(v0, inputs);
        let n = shorter.len() as int;
        assert(acts == acts0.push(PhyCalibration::next(before, inputs.last()).1));
        assert forall|j: int| regulator_ready_at(acts0, shorter, j) implies regulator_ready_at(
            acts,
            inputs,
            j,
        ) by {
            assert(acts[j - 1] == acts0[j - 1]);
            assert(inputs[j] == shorter[j]);
        }
        assert forall|k: int| pll_enabled_at(acts0, k) implies pll_enabled_at(acts, k) by {
            assert(acts[k] == acts0[k]);
        }
        assert forall|l: int| pll_running_at(acts0, shorter, l) implies pll_running_at(
            acts,
            inputs,
            l,
        ) by {
            assert(acts[l - 1] == acts0[l - 1]);
            assert(inputs[l] == shorter[l]);
        }
        if before.stage == PhyStage::RegulatorWait && s.stage == PhyStage::Tune {
            assert(acts[n - 1] == acts0.last());
            assert(regulator_ready_at(acts, inputs, n));
        } else if s.stage.rank() >= PhyStage::Tune.rank() {
            let j = choose|j: int| #[trigger] regulator_ready_at(acts0, shorter, j);
            assert(regulator_ready_at(acts, inputs, j));
            if before.stage == PhyStage::PllEnable {
                assert(pll_enabled_at(acts, n));
            } else if s.stage.rank() >= PhyStage::PllPoll.rank() {
                let (j2, k2) = choose|j: int, k: int|
                    #![trigger regulator_ready_at(acts0, shorter, j), pll_enabled_at(acts0, k)]
                    j < k && regulator_ready_at(acts0, shorter, j) && pll_enabled_at(acts0, k);
                assert(regulator_ready_at(acts, inputs, j2));
                assert(pll_enabled_at(acts, k2));
                if before.stage == PhyStage::PllWait && s.stage == PhyStage::Calibrated {
                    assert(acts[n - 1] == acts0.last());
                    assert(pll_running_at(acts, inputs, n));
                    assert(calibrated_by(acts, inputs, j2, k2, n));
                } else if s.stage.rank() >= PhyStage::Calibrated.rank() {
                    let (j3, k3, l3) = choose|j: int, k: int, l: int| #[trigger]
                        calibrated_by(acts0, shorter, j, k, l);
                    assert(calibrated_by(acts, inputs, j3, k3, l3));
                }
            }
        }
    }
}

/// The calibration never reports its end before the regulator was seen ready
/// and the PLL was seen enabled: where step `i` of a run from the beginning
/// hands out `Done`, an earlier step was fed a regulator status that says
/// ready, a later step enabled the PLL, and a step after that and before `i`
/// was fed a PLL control word that shows the PLL enabled. Each word came in
/// answer to a read of its register.
pub proof fn lemma_calibration_order(code: u8, inputs: Seq<u32>, i: int)
    requires
        0 <= i < inputs.len(),
        actions::<PhyCalibration>(
            PhyCalibrationView { code, stage: PhyStage::Regulator },
            inputs,
        )[i] == Action::Done,
    ensures
        ({
            let acts = actions::<PhyCalibration>(
                PhyCalibrationView { code, stage: PhyStage::Regulator },
                inputs,
            );
            exists|j: int, k: int, l: int| #[trigger]
                calibrated_by(acts, inputs, j, k, l) && l < i
        }),
{
    let v0 = PhyCalibrationView { code, stage: PhyStage::Regulator };
    let acts = actions::<PhyCalibration>(v0, inputs);
    let head = inputs.take(i);
    let acts0 = actions::<PhyCalibration>(v0, head);
    let s = state_after::<PhyCalibration>(v0, head);
    lemma_run_prefix::<PhyCalibration>(v0, inputs, i);
    lemma_phy_progress(code, head);
    assert(s.stage.rank() >= PhyStage::Calibrated.rank());
    let (j, k, l) = choose|j: int, k: int, l: int| #[trigger]
        calibrated_by(acts0, head, j, k, l);
    assert(acts0 == acts.take(i));
    assert(acts0[j - 1] == acts[j - 1]);
    assert(acts0[k] == acts[k]);
    assert(acts0[l - 1] == acts[l - 1]);
    assert(head[j] == inputs[j]);
    assert(head[l] == inputs[l]);
    assert(calibrated_by(acts, inputs, j, k, l));
}

/// The settle time is not begun before the PLL was seen enabled: where step
/// `i` of a run from the beginning hands out the delay, that very step was
/// fed a PLL control word that shows the PLL enabled.
pub proof fn lemma_calibration_settles_last(code: u8, inputs: Seq<u32>, i: int)
    requires
        0 <= i < inputs.len(),
        actions::<PhyCalibration>(
            PhyCalibrationView { code, stage: PhyStage::Regulator },
            inputs,
        )[i] is Delay,
    ensures
        ({
            let acts = actions::<PhyCalibration>(
                PhyCalibrationView { code, stage: PhyStage::Regulator },
                inputs,
            );
            &&& acts[i] == (Action::Delay { cycles: PHY_SETTLE_CYCLES })
            &&& pll_running_at(acts, inputs, i)
        }),
{
    let v0 = PhyCalibrationView { code, stage: PhyStage::Regulator };
    let acts = actions::<PhyCalibration>(v0, inputs);
    let head = inputs.take(i);
    lemma_run_prefix::<PhyCalibration>(v0, inputs, i);
    lemma_phy_progress(code, head);
    let acts0 = actions::<PhyCalibration>(v0, head);
    assert(acts0 == acts.take(i));
    assert(state_after::<PhyCalibration>(v0, head).stage == PhyStage::PllWait);
    assert(acts0.last() == acts[i - 1]);
}

/// Whatever a calibration is fed, it writes to the PLL register only the
/// reference selection it was made for: every plain write of a run from the
/// beginning stores that code, with the PLL disabled.
pub proof fn lemma_calibration_reference(code: u8, inputs: Seq<u32>, i: int)
    requires
        0 <= i < inputs.len(),
        actions::<PhyCalibration>(
            PhyCalibrationView { code, stage: PhyStage::Regulator },
            inputs,
        )[i] is Write,
    ensures
        actions::<PhyCalibration>(
            PhyCalibrationView { code, stage: PhyStage::Regulator },
            inputs,
        )[i] == (Action::Write { reg: Reg::UsbphycPll1, value: reference_word(code) }),
{
    let v0 = PhyCalibrationView { code, stage: PhyStage::Regulator };
    lemma_run_prefix::<PhyCalibration>(v0, inputs, i);
    lemma_phy_progress(code, inputs.take(i));
}

/// With a reference clock of 25 MHz the calibration always programs the
/// selection for 25 MHz: the calibration made for that reference carries the
/// code `0b101`, and whatever it is fed, every plain write of a run from the
/// beginning stores the word `0xA` in the PLL register, which is that code
/// in its field with the PLL disabled.
pub proof fn lemma_calibration_at_25mhz(inputs: Seq<u32>, i: int)
    requires
        0 <= i < inputs.len(),
        actions::<PhyCalibration>(
            PhyCalibrationView { code: 0b101, stage: PhyStage::Regulator },
            inputs,
        )[i] is Write,
    ensures
        spec_reference_code(Hertz(25_000_000)) == Some(0b101u8),
        actions::<PhyCalibration>(
            PhyCalibrationView { code: 0b101, stage: PhyStage::Regulator },
            inputs,
        )[i] == (Action::Write { reg: Reg::UsbphycPll1, value: 0xA }),
{
    lemma_calibration_reference(0b101, inputs, i);
    assert((0b101u8 as u32) << 1u32 == 0xA) by (bit_vector);
}

/// How many 32-bit words the FIFO memory of the high-speed controller holds.
pub const FIFO_DEPTH_WORDS: usize = 1024;

/// How many endpoints the high-speed controller has in each direction.
pub const ENDPOINT_COUNT: usize = 9;

/// The high-speed USB OTG controller: its register blocks, its two data
/// pins in the mode the controller needs, and the clocks it was built on.
#[derive(Debug)]
pub struct USB {
    pub usb_global: OTG_HS_GLOBAL,
    pub usb_device: OTG_HS_DEVICE,
    pub usb_pwrclk: OTG_HS_PWRCLK,
    pub pin_dm: PB14<Alternate<12>>,
    pub pin_dp: PB15<Alternate<12>>,
    pub hclk: Hertz,
    /// The external clock of the board, from which the PHY takes its
    /// reference; `None` where the chip runs from its internal oscillator.
    pub hse: Option<Hertz>,
}

impl USB {
    /// Puts the parts of the controller together. The pins are accepted only
    /// as push-pull outputs of alternate function 12, which is where the
    /// controller is wired; the clocks are those of the finished clock
    /// switch.
    pub fn new(
        usb_global: OTG_HS_GLOBAL,
        usb_device: OTG_HS_DEVICE,
        usb_pwrclk: OTG_HS_PWRCLK,
        pins: (PB14<Alternate<12>>, PB15<Alternate<12>>),
        clocks: Clocks,
    ) -> (usb: USB)
        ensures
            usb.usb_global == usb_global,
            usb.usb_device == usb_device,
            usb.usb_pwrclk == usb_pwrclk,
            usb.pin_dm == pins.0,
            usb.pin_dp == pins.1,
            usb.hclk.0 == clocks@.hclk,
            usb.hse == (match clocks@.hse {
                Some(hse) => Some(hse.freq),
                None => None,
            }),
    {
        USB {
            usb_global,
            usb_device,
            usb_pwrclk,
            pin_dm: pins.0,
            pin_dp: pins.1,
            hclk: clocks.hclk(),
            hse: clocks.hse(),
        }
    }
}

impl Controller for USB {
    open spec fn spec_speed() -> Speed {
        Speed::High
    }

    open spec fn spec_ahb_frequency_hz(&self) -> u32 {
        self.hclk.0
    }

    open spec fn spec_phy_reference(&self) -> Option<Hertz> {
        self.hse
    }

    fn registers() -> (base: u32) {
        OTG_HS_BASE
    }

    fn speed() -> (s: Speed) {
        Speed::High
    }

    fn fifo_depth_words() -> (n: usize) {
        FIFO_DEPTH_WORDS
    }

    fn endpoint_count() -> (n: usize) {
        ENDPOINT_COUNT
    }

    fn enable() -> (p: PowerUp) {
        PowerUp::new(Speed::High)
    }

    fn ahb_frequency_hz(&self) -> (hz: u32) {
        self.hclk.0
    }

    fn phy_type(&self) -> (phy: PhyType) {
        PhyType::InternalHighSpeed
    }

    fn setup_internal_hs_phy(&self) -> (calibration: Option<PhyCalibration>) {
        match self.hse {
            Some(reference) => PhyCalibration::new(reference),
            None => None,
        }
    }
}

} // verus!
