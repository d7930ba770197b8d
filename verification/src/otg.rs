//! What the two USB OTG controllers have in common: their power-up and the
//! interface through which one USB stack drives either.

use vstd::prelude::*;
use crate::otg_hs::{spec_reference_code, PhyCalibration, PhyStage};
use crate::time::Hertz;
use crate::register::{Action, Reg, OTG_FS_BASE, OTG_HS_BASE};
use crate::sequence::{actions, state_after, Bounded, Sequencer};

verus! {

/// The speed class of a controller.
#[derive(Clone, Copy, Debug, PartialEq, Eq, Structural)]
pub enum Speed {
    /// Full speed, 12 Mbit/s.
    Full,
    /// High speed, 480 Mbit/s.
    High,
}

/// The transceiver a controller signals through.
#[derive(Clone, Copy, Debug, PartialEq, Eq, Structural)]
pub enum PhyType {
    /// The full-speed transceiver inside the chip.
    InternalFullSpeed,
    /// The high-speed transceiver inside the chip.
    InternalHighSpeed,
    /// A high-speed transceiver outside the chip, reached over ULPI.
    ExternalHighSpeed,
}

/// How far the bring-up of a controller has come.
#[derive(Clone, Copy, Debug, PartialEq, Eq, Structural)]
pub enum BringUpState {
    /// The controller has no bus clock.
    Unpowered,
    /// The bus clock of the controller runs.
    Enabled,
    /// The controller went through its reset.
    Reset,
    /// The high-speed PHY is calibrated and its clock has settled.
    PhyCalibrated,
    /// The controller can be handed to the USB stack.
    Ready,
}

impl BringUpState {
    /// The place of the state in the order of the bring-up.
    pub open spec fn rank(self) -> int {
        match self {
            BringUpState::Unpowered => 0,
            BringUpState::Enabled => 1,
            BringUpState::Reset => 2,
            BringUpState::PhyCalibrated => 3,
            BringUpState::Ready => 4,
        }
    }
}

/// Clock gate of the high-speed controller, in `RccAhb1enr`.
pub const OTGHSEN: u32 = 0x2000_0000;

/// Clock gate of the ULPI interface of the high-speed controller, in
/// `RccAhb1enr`.
pub const OTGHSULPIEN: u32 = 0x4000_0000;

/// Reset line of the high-speed controller, in `RccAhb1rstr`.
pub const OTGHSRST: u32 = 0x2000_0000;

/// Clock gate of the full-speed controller, in `RccAhb2enr`.
pub const OTGFSEN: u32 = 0x0000_0080;

/// Reset line of the full-speed controller, in `RccAhb2rstr`.
pub const OTGFSRST: u32 = 0x0000_0080;

/// Clock gate of the controller of the high-speed PHY, in `RccApb2enr`.
pub const USBPHYCEN: u32 = 0x8000_0000;

/// Reset line of the controller of the high-speed PHY, in `RccApb2rstr`.
pub const USBPHYCRST: u32 = 0x8000_0000;

/// How many register operations the power-up of a controller takes.
pub open spec fn power_up_len(speed: Speed) -> nat {
    match speed {
        Speed::Full => 3,
        Speed::High => 7,
    }
}

/// The operations of the power-up, in their order: open the clock gate of the
/// controller, pull its reset line and let it go; for the high-speed
/// controller then open the clock gates of its ULPI interface and of the PHY
/// controller, and pull and let go the reset line of the PHY controller.
pub open spec fn power_up_op(speed: Speed, k: nat) -> Action {
    match speed {
        Speed::Full => if k == 0 {
            Action::Modify { reg: Reg::RccAhb2enr, clear: 0, set: OTGFSEN }
        } else if k == 1 {
            Action::Modify { reg: Reg::RccAhb2rstr, clear: 0, set: OTGFSRST }
        } else {
            Action::Modify { reg: Reg::RccAhb2rstr, clear: OTGFSRST, set: 0 }
        },
        Speed::High => if k == 0 {
            Action::Modify { reg: Reg::RccAhb1enr, clear: 0, set: OTGHSEN }
        } else if k == 1 {
            Action::Modify { reg: Reg::RccAhb1rstr, clear: 0, set: OTGHSRST }
        } else if k == 2 {
            Action::Modify { reg: Reg::RccAhb1rstr, clear: OTGHSRST, set: 0 }
        } else if k == 3 {
            Action::Modify { reg: Reg::RccAhb1enr, clear: 0, set: OTGHSULPIEN }
        } else if k == 4 {
            Action::Modify { reg: Reg::RccApb2enr, clear: 0, set: USBPHYCEN }
        } else if k == 5 {
            Action::Modify { reg: Reg::RccApb2rstr, clear: 0, set: USBPHYCRST }
        } else {
            Action::Modify { reg: Reg::RccApb2rstr, clear: USBPHYCRST, set: 0 }
        },
    }
}

/// The state of a controller of which the first `issued` operations of the
/// power-up were performed. The full-speed controller is ready once it is
/// out of reset; the high-speed one stays in `Reset` until its PHY is
/// calibrated.
pub open spec fn power_up_state(speed: Speed, issued: nat) -> BringUpState {
    if issued == 0 {
        BringUpState::Unpowered
    } else if issued < 3 {
        BringUpState::Enabled
    } else if speed == Speed::Full {
        BringUpState::Ready
    } else {
        BringUpState::Reset
    }
}

/// The power-up never goes back: the more operations were performed, the
/// further the controller has come.
pub proof fn lemma_power_up_advances(speed: Speed, fewer: nat, more: nat)
    requires
        fewer <= more,
    ensures
        power_up_state(speed, fewer).rank() <= power_up_state(speed, more).rank(),
{
}

/// The power-up of a controller: clock gate, then reset. It reads nothing.
///
/// The operations change registers that other code shares, so the driver
/// performs them with interrupts masked.
#[derive(Clone, Copy, Debug)]
pub struct PowerUp {
    speed: Speed,
    issued: u8,
}

/// What a [`PowerUp`] is made of: the class of its controller and how many
/// operations were handed out.
pub struct PowerUpView {
    pub speed: Speed,
    pub issued: nat,
}

impl View for PowerUp {
    type V = PowerUpView;

    closed spec fn view(&self) -> PowerUpView {
        PowerUpView { speed: self.speed, issued: self.issued as nat }
    }
}

impl PowerUp {
    /// The power-up of the controller of class `speed`, with nothing done yet.
    pub fn new(speed: Speed) -> (p: PowerUp)
        ensures
            p@ == (PowerUpView { speed, issued: 0 }),
    {
        PowerUp { speed, issued: 0 }
    }

    /// How far the controller has come once all operations handed out so far
    /// were performed.
    pub fn state(&self) -> (s: BringUpState)
        ensures
            s == power_up_state(self@.speed, self@.issued),
    {
        if self.issued == 0 {
            BringUpState::Unpowered
        } else if self.issued < 3 {
            BringUpState::Enabled
        } else {
            match self.speed {
                Speed::Full => BringUpState::Ready,
                Speed::High => BringUpState::Reset,
            }
        }
    }
}

impl Sequencer for PowerUp {
    open spec fn next(v: PowerUpView, input: u32) -> (PowerUpView, Action) {
        if v.issued < power_up_len(v.speed) {
            (PowerUpView { speed: v.speed, issued: v.issued + 1 }, power_up_op(v.speed, v.issued))
        } else {
            (v, Action::Done)
        }
    }

    open spec fn inv(v: PowerUpView) -> bool {
        v.issued <= power_up_len(v.speed)
    }

    open spec fn exclusive() -> bool {
        true
    }

    fn is_exclusive(&self) -> (masked: bool) {
        true
    }

    proof fn lemma_next_inv(v: PowerUpView, input: u32) {
    }

    fn step(&mut self, input: u32) -> (action: Action) {
        let k = self.issued;
        let action = match self.speed {
            Speed::Full => {
                if k == 0 {
                    Action::Modify { reg: Reg::RccAhb2enr, clear: 0, set: OTGFSEN }
                } else if k == 1 {
                    Action::Modify { reg: Reg::RccAhb2rstr, clear: 0, set: OTGFSRST }
                } else if k == 2 {
                    Action::Modify { reg: Reg::RccAhb2rstr, clear: OTGFSRST, set: 0 }
                } else {
                    Action::Done
                }
            },
            Speed::High => {
                if k == 0 {
                    Action::Modify { reg: Reg::RccAhb1enr, clear: 0, set: OTGHSEN }
                } else if k == 1 {
                    Action::Modify { reg: Reg::RccAhb1rstr, clear: 0, set: OTGHSRST }
                } else if k == 2 {
                    Action::Modify { reg: Reg::RccAhb1rstr, clear: OTGHSRST, set: 0 }
                } else if k == 3 {
                    Action::Modify { reg: Reg::RccAhb1enr, clear: 0, set: OTGHSULPIEN }
                } else if k == 4 {
                    Action::Modify { reg: Reg::RccApb2enr, clear: 0, set: USBPHYCEN }
                } else if k == 5 {
                    Action::Modify { reg: Reg::RccApb2rstr, clear: 0, set: USBPHYCRST }
                } else if k == 6 {
                    Action::Modify { reg: Reg::RccApb2rstr, clear: USBPHYCRST, set: 0 }
                } else {
                    Action::Done
                }
            },
        };
        if !action.is_final() {
            self.issued = k + 1;
        }
        action
    }
}

impl Bounded for PowerUp {
    open spec fn budget(v: PowerUpView) -> nat {
        if v.issued <= power_up_len(v.speed) {
            (power_up_len(v.speed) - v.issued) as nat
        } else {
            0
        }
    }

    proof fn lemma_budget(v: PowerUpView, input: u32) {
    }
}

/// A power-up that has not begun hands out its operations in order and then
/// `Done`. The controller gets its bus clock with the first operation and is
/// out of reset with the third, and no operation comes twice.
pub proof fn lemma_power_up_run(speed: Speed, inputs: Seq<u32>)
    ensures
        state_after::<PowerUp>(PowerUpView { speed, issued: 0 }, inputs) == (PowerUpView {
            speed,
            issued: if inputs.len() <= power_up_len(speed) {
                inputs.len()
            } else {
                power_up_len(speed)
            },
        }),
        actions::<PowerUp>(PowerUpView { speed, issued: 0 }, inputs).len() == inputs.len(),
        forall|k: int|
            0 <= k < inputs.len() ==> #[trigger] actions::<PowerUp>(
                PowerUpView { speed, issued: 0 },
                inputs,
            )[k] == (if k < power_up_len(speed) {
                power_up_op(speed, k as nat)
            } else {
                Action::Done
            }),
    decreases inputs.len(),
{
    if inputs.len() > 0 {
        lemma_power_up_run(speed, inputs.drop_last());
    }
}

/// Where the register block of the controller of class `speed` begins.
pub open spec fn controller_base(speed: Speed) -> u32 {
    match speed {
        Speed::Full => OTG_FS_BASE,
        Speed::High => OTG_HS_BASE,
    }
}

/// How many 32-bit words the FIFO memory of the controller of class `speed`
/// holds; all endpoints share it.
pub open spec fn fifo_depth_words(speed: Speed) -> usize {
    match speed {
        Speed::Full => 320,
        Speed::High => 1024,
    }
}

/// How many endpoints the controller of class `speed` has in each direction.
pub open spec fn endpoint_count(speed: Speed) -> usize {
    match speed {
        Speed::Full => 6,
        Speed::High => 9,
    }
}

/// The transceiver of the controller of class `speed`: each signals through
/// the one of its own class inside the chip.
pub open spec fn internal_phy(speed: Speed) -> PhyType {
    match speed {
        Speed::Full => PhyType::InternalFullSpeed,
        Speed::High => PhyType::InternalHighSpeed,
    }
}

/// What a USB stack needs to know of a controller to drive it: one stack
/// drives either controller through this.
pub trait Controller {
    /// The speed class of the controller.
    spec fn spec_speed() -> Speed;

    /// The clock of the bus the controller sits on, in hertz.
    spec fn spec_ahb_frequency_hz(&self) -> u32;

    /// The reference clock of the high-speed PHY, where there is one.
    spec fn spec_phy_reference(&self) -> Option<Hertz>;

    /// Where the register block of the controller begins.
    fn registers() -> (base: u32)
        ensures
            base == controller_base(Self::spec_speed()),
    ;

    /// The speed class of the controller.
    fn speed() -> (s: Speed)
        ensures
            s == Self::spec_speed(),
    ;

    /// How many 32-bit words the FIFO memory holds.
    fn fifo_depth_words() -> (n: usize)
        ensures
            n == fifo_depth_words(Self::spec_speed()),
    ;

    /// How many endpoints there are in each direction.
    fn endpoint_count() -> (n: usize)
        ensures
            n == endpoint_count(Self::spec_speed()),
    ;

    /// The power-up of the controller, with nothing done yet.
    fn enable() -> (p: PowerUp)
        ensures
            p@ == (PowerUpView { speed: Self::spec_speed(), issued: 0 }),
            PowerUp::inv(p@),
    ;

    /// The clock of the bus the controller sits on, in hertz.
    fn ahb_frequency_hz(&self) -> (hz: u32)
        ensures
            hz == self.spec_ahb_frequency_hz(),
    ;

    /// The transceiver the controller signals through.
    fn phy_type(&self) -> (phy: PhyType)
        ensures
            phy == internal_phy(Self::spec_speed()),
    ;

    /// The calibration of the high-speed PHY, with nothing done yet. `None`
    /// where there is nothing to calibrate, which is so for the full-speed
    /// controller, and where the PHY has no reference clock that its PLL can
    /// run from.
    fn setup_internal_hs_phy(&self) -> (calibration: Option<PhyCalibration>)
        ensures
            match calibration {
                Some(c) => {
                    &&& Self::spec_speed() == Speed::High
                    &&& self.spec_phy_reference() matches Some(reference)
                    &&& spec_reference_code(reference) == Some(c@.code)
                    &&& c@.stage == PhyStage::Regulator
                    &&& PhyCalibration::inv(c@)
                },
                None => Self::spec_speed() == Speed::Full || match self.spec_phy_reference() {
                    Some(reference) => spec_reference_code(reference) is None,
                    None => true,
                },
            },
    ;
}

} // verus!
