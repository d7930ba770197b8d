//! The full-speed USB OTG controller.

use vstd::prelude::*;
use crate::gpio::{Alternate, PA11, PA12};
use crate::otg::{Controller, PhyType, PowerUp, Speed};
use crate::otg_hs::PhyCalibration;
use crate::pac::{OTG_FS_DEVICE, OTG_FS_GLOBAL, OTG_FS_PWRCLK};
use crate::rcc::Clocks;
use crate::register::OTG_FS_BASE;
use crate::time::Hertz;

verus! {

/// How many 32-bit words the FIFO memory of the full-speed controller holds.
pub const FIFO_DEPTH_WORDS: usize = 320;

/// How many endpoints the full-speed controller has in each direction.
pub const ENDPOINT_COUNT: usize = 6;

/// The full-speed USB OTG controller: its register blocks, its two data pins
/// in the mode the controller needs, and the clock it was built on.
#[derive(Debug)]
pub struct USB {
    pub usb_global: OTG_FS_GLOBAL,
    pub usb_device: OTG_FS_DEVICE,
    pub usb_pwrclk: OTG_FS_PWRCLK,
    pub pin_dm: PA11<Alternate<10>>,
    pub pin_dp: PA12<Alternate<10>>,
    pub hclk: Hertz,
}

impl USB {
    /// Puts the parts of the controller together. The pins are accepted only
    /// as push-pull outputs of alternate function 10, which is where the
    /// controller is wired; the clocks are those of the finished clock
    /// switch.
    pub fn new(
        usb_global: OTG_FS_GLOBAL,
        usb_device: OTG_FS_DEVICE,
        usb_pwrclk: OTG_FS_PWRCLK,
        pins: (PA11<Alternate<10>>, PA12<Alternate<10>>),
        clocks: Clocks,
    ) -> (usb: USB)
        ensures
            usb.usb_global == usb_global,
            usb.usb_device == usb_device,
            usb.usb_pwrclk == usb_pwrclk,
            usb.pin_dm == pins.0,
            usb.pin_dp == pins.1,
            usb.hclk.0 == clocks@.hclk,
    {
        USB {
            usb_global,
            usb_device,
            usb_pwrclk,
            pin_dm: pins.0,
            pin_dp: pins.1,
            hclk: clocks.hclk(),
        }
    }
}

impl Controller for USB {
    open spec fn spec_speed() -> Speed {
        Speed::Full
    }

    open spec fn spec_ahb_frequency_hz(&self) -> u32 {
        self.hclk.0
    }

    open spec fn spec_phy_reference(&self) -> Option<Hertz> {
        None
    }

    fn registers() -> (base: u32) {
        OTG_FS_BASE
    }

    fn speed() -> (s: Speed) {
        Speed::Full
    }

    fn fifo_depth_words() -> (n: usize) {
        FIFO_DEPTH_WORDS
    }

    fn endpoint_count() -> (n: usize) {
        ENDPOINT_COUNT
    }

    fn enable() -> (p: PowerUp) {
        PowerUp::new(Speed::Full)
    }

    fn ahb_frequency_hz(&self) -> (hz: u32) {
        self.hclk.0
    }

    fn phy_type(&self) -> (phy: PhyType) {
        PhyType::InternalFullSpeed
    }

    fn setup_internal_hs_phy(&self) -> (calibration: Option<PhyCalibration>) {
        None
    }
}

} // verus!
