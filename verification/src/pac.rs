//! Ownership of the register blocks.
//!
//! A value of one of these types stands for the right to drive one block of
//! registers. The values cannot be copied or made from nothing: they come
//! from [`Peripherals::take`], which hands them out once, so two handles
//! never drive the same block.

use vstd::prelude::*;

verus! {

/// Reset and clock control.
#[allow(non_camel_case_types)]
#[derive(Debug)]
pub struct RCC {
    _owned: (),
}

/// GPIO port A.
#[allow(non_camel_case_types)]
#[derive(Debug)]
pub struct GPIOA {
    _owned: (),
}

/// GPIO port B.
#[allow(non_camel_case_types)]
#[derive(Debug)]
pub struct GPIOB {
    _owned: (),
}

/// The first I2C controller.
#[allow(non_camel_case_types)]
#[derive(Debug)]
pub struct I2C1 {
    _owned: (),
}

/// Core registers of the full-speed USB OTG controller.
#[allow(non_camel_case_types)]
#[derive(Debug)]
pub struct OTG_FS_GLOBAL {
    _owned: (),
}

/// Device-mode registers of the full-speed USB OTG controller.
#[allow(non_camel_case_types)]
#[derive(Debug)]
pub struct OTG_FS_DEVICE {
    _owned: (),
}

/// Power and clock gating registers of the full-speed USB OTG controller.
#[allow(non_camel_case_types)]
#[derive(Debug)]
pub struct OTG_FS_PWRCLK {
    _owned: (),
}

/// Core registers of the high-speed USB OTG controller.
#[allow(non_camel_case_types)]
#[derive(Debug)]
pub struct OTG_HS_GLOBAL {
    _owned: (),
}

/// Device-mode registers of the high-speed USB OTG controller.
#[allow(non_camel_case_types)]
#[derive(Debug)]
pub struct OTG_HS_DEVICE {
    _owned: (),
}

/// Power and clock gating registers of the high-speed USB OTG controller.
#[allow(non_camel_case_types)]
#[derive(Debug)]
pub struct OTG_HS_PWRCLK {
    _owned: (),
}

/// Every register block that this crate drives.
#[allow(non_snake_case)]
#[derive(Debug)]
pub struct Peripherals {
    pub RCC: RCC,
    pub GPIOA: GPIOA,
    pub GPIOB: GPIOB,
    pub I2C1: I2C1,
    pub OTG_FS_GLOBAL: OTG_FS_GLOBAL,
    pub OTG_FS_DEVICE: OTG_FS_DEVICE,
    pub OTG_FS_PWRCLK: OTG_FS_PWRCLK,
    pub OTG_HS_GLOBAL: OTG_HS_GLOBAL,
    pub OTG_HS_DEVICE: OTG_HS_DEVICE,
    pub OTG_HS_PWRCLK: OTG_HS_PWRCLK,
}

impl Peripherals {
    /// Hands out the register blocks, once: `taken` is the mark that they
    /// were handed out. With the mark clear the call sets it and returns the
    /// blocks; with the mark set it returns `None` and changes nothing.
    ///
    /// Firmware keeps one mark for the chip, clear at reset.
    pub fn take(taken: &mut bool) -> (blocks: Option<Peripherals>)
        ensures
            blocks.is_some() <==> !*old(taken),
            *final(taken),
    {
        if *taken {
            None
        } else {
            *taken = true;
            Some(
                Peripherals {
                    RCC: RCC { _owned: () },
                    GPIOA: GPIOA { _owned: () },
                    GPIOB: GPIOB { _owned: () },
                    I2C1: I2C1 { _owned: () },
                    OTG_FS_GLOBAL: OTG_FS_GLOBAL { _owned: () },
                    OTG_FS_DEVICE: OTG_FS_DEVICE { _owned: () },
                    OTG_FS_PWRCLK: OTG_FS_PWRCLK { _owned: () },
                    OTG_HS_GLOBAL: OTG_HS_GLOBAL { _owned: () },
                    OTG_HS_DEVICE: OTG_HS_DEVICE { _owned: () },
                    OTG_HS_PWRCLK: OTG_HS_PWRCLK { _owned: () },
                },
            )
        }
    }
}

} // verus!
