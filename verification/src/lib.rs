//! Peripheral configuration and bring-up for STM32F7 microcontrollers.
//!
//! The crate computes what has to be written to the chip and decides how to
//! react to what is read back; it never touches a register itself. Every
//! register-level procedure is a [`sequence::Sequencer`]: a state machine that
//! hands out one [`register::Action`] at a time and is fed the value of each
//! register read it asked for, and says whether it has to run with
//! interrupts masked. Firmware performs the actions, so the same procedures
//! run unchanged against real hardware and against a model of it.
//!
//! Waits are counted in register reads, never in time: each is bounded by
//! such a count, or is one that the hardware guarantees to end. Nothing
//! allocates: every procedure is a small value that lives where its owner
//! puts it.
//!
//! - [`gpio`]: pins whose electrical mode is part of their type.
//! - [`rcc`]: the clock plan, the PLL and prescaler solver, the clock switch.
//! - [`i2c`]: blocking controller-mode bus transactions.
//! - [`otg_fs`], [`otg_hs`]: power-up of the two USB OTG controllers and the
//!   calibration of the high-speed PHY.

pub mod pac;
pub mod time;
pub mod register;
pub mod sequence;
pub mod otg;
pub mod otg_hs;
pub mod rcc;
pub mod gpio;
pub mod otg_fs;
pub mod i2c;
