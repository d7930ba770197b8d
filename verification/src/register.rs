//! Registers by name, and the operations a procedure may ask for.

use vstd::prelude::*;

verus! {

/// Base address of the reset and clock control block.
pub const RCC_BASE: u32 = 0x4002_3800;

/// Base address of GPIO port A; each further port lies `GPIO_STRIDE` higher.
pub const GPIO_BASE: u32 = 0x4002_0000;

/// Distance between the register blocks of two neighbouring GPIO ports.
pub const GPIO_STRIDE: u32 = 0x400;

/// Base address of the first I2C controller.
pub const I2C1_BASE: u32 = 0x4000_5400;

/// Base address of the controller of the high-speed USB PHY.
pub const USBPHYC_BASE: u32 = 0x4001_7C00;

/// Base address of the full-speed USB OTG controller.
pub const OTG_FS_BASE: u32 = 0x5000_0000;

/// Base address of the high-speed USB OTG controller.
pub const OTG_HS_BASE: u32 = 0x4004_0000;

/// A register that a procedure of this crate reads or writes.
///
/// The GPIO registers carry the number of their port, 0 for port A.
#[derive(Clone, Copy, Debug, PartialEq, Eq, Hash, Structural)]
pub enum Reg {
    /// Clock control: oscillator and PLL enables with their ready flags.
    RccCr,
    /// PLL configuration: source and the four dividers.
    RccPllcfgr,
    /// Clock configuration: system clock switch and bus prescalers.
    RccCfgr,
    /// Reset lines of the peripherals on AHB1.
    RccAhb1rstr,
    /// Reset lines of the peripherals on AHB2.
    RccAhb2rstr,
    /// Reset lines of the peripherals on APB2.
    RccApb2rstr,
    /// Clock gates of the peripherals on AHB1.
    RccAhb1enr,
    /// Clock gates of the peripherals on AHB2.
    RccAhb2enr,
    /// Clock gates of the peripherals on APB2.
    RccApb2enr,
    /// Mode of each pin of a port, two bits a pin.
    GpioModer(u8),
    /// Output type of each pin of a port, one bit a pin.
    GpioOtyper(u8),
    /// Output speed of each pin of a port, two bits a pin.
    GpioOspeedr(u8),
    /// Alternate function of pins 0 to 7 of a port, four bits a pin.
    GpioAfrl(u8),
    /// Alternate function of pins 8 to 15 of a port, four bits a pin.
    GpioAfrh(u8),
    /// I2C control 2: address, direction, byte count, start and stop.
    I2c1Cr2,
    /// I2C interrupt and status flags.
    I2c1Isr,
    /// I2C flag clear.
    I2c1Icr,
    /// I2C receive data.
    I2c1Rxdr,
    /// I2C transmit data.
    I2c1Txdr,
    /// PHY PLL control: enable and reference selection.
    UsbphycPll1,
    /// PHY tuning.
    UsbphycTune,
    /// PHY regulator control and status.
    UsbphycLdo,
}

impl Reg {
    /// Where the register lies in the address space.
    pub open spec fn spec_address(self) -> u32 {
        match self {
            Reg::RccCr => 0x4002_3800,
            Reg::RccPllcfgr => 0x4002_3804,
            Reg::RccCfgr => 0x4002_3808,
            Reg::RccAhb1rstr => 0x4002_3810,
            Reg::RccAhb2rstr => 0x4002_3814,
            Reg::RccApb2rstr => 0x4002_3824,
            Reg::RccAhb1enr => 0x4002_3830,
            Reg::RccAhb2enr => 0x4002_3834,
            Reg::RccApb2enr => 0x4002_3844,
            Reg::GpioModer(port) => (0x4002_0000 + 0x400 * port) as u32,
            Reg::GpioOtyper(port) => (0x4002_0004 + 0x400 * port) as u32,
            Reg::GpioOspeedr(port) => (0x4002_0008 + 0x400 * port) as u32,
            Reg::GpioAfrl(port) => (0x4002_0020 + 0x400 * port) as u32,
            Reg::GpioAfrh(port) => (0x4002_0024 + 0x400 * port) as u32,
            Reg::I2c1Cr2 => 0x4000_5404,
            Reg::I2c1Isr => 0x4000_5418,
            Reg::I2c1Icr => 0x4000_541C,
            Reg::I2c1Rxdr => 0x4000_5424,
            Reg::I2c1Txdr => 0x4000_5428,
            Reg::UsbphycPll1 => 0x4001_7C00,
            Reg::UsbphycTune => 0x4001_7C0C,
            Reg::UsbphycLdo => 0x4001_7C18,
        }
    }

    /// Where the register lies in the address space.
    #[verifier::when_used_as_spec(spec_address)]
    pub fn address(self) -> (a: u32)
        ensures
            a == self.spec_address(),
            a % 4 == 0,
    {
        match self {
            Reg::RccCr => RCC_BASE,
            Reg::RccPllcfgr => RCC_BASE + 0x04,
            Reg::RccCfgr => RCC_BASE + 0x08,
            Reg::RccAhb1rstr => RCC_BASE + 0x10,
            Reg::RccAhb2rstr => RCC_BASE + 0x14,
            Reg::RccApb2rstr => RCC_BASE + 0x24,
            Reg::RccAhb1enr => RCC_BASE + 0x30,
            Reg::RccAhb2enr => RCC_BASE + 0x34,
            Reg::RccApb2enr => RCC_BASE + 0x44,
            Reg::GpioModer(port) => GPIO_BASE + GPIO_STRIDE * (port as u32),
            Reg::GpioOtyper(port) => GPIO_BASE + GPIO_STRIDE * (port as u32) + 0x04,
            Reg::GpioOspeedr(port) => GPIO_BASE + GPIO_STRIDE * (port as u32) + 0x08,
            Reg::GpioAfrl(port) => GPIO_BASE + GPIO_STRIDE * (port as u32) + 0x20,
            Reg::GpioAfrh(port) => GPIO_BASE + GPIO_STRIDE * (port as u32) + 0x24,
            Reg::I2c1Cr2 => I2C1_BASE + 0x04,
            Reg::I2c1Isr => I2C1_BASE + 0x18,
            Reg::I2c1Icr => I2C1_BASE + 0x1C,
            Reg::I2c1Rxdr => I2C1_BASE + 0x24,
            Reg::I2c1Txdr => I2C1_BASE + 0x28,
            Reg::UsbphycPll1 => USBPHYC_BASE,
            Reg::UsbphycTune => USBPHYC_BASE + 0x0C,
            Reg::UsbphycLdo => USBPHYC_BASE + 0x18,
        }
    }
}

/// One thing a procedure asks its driver to do before the next step.
#[derive(Clone, Copy, Debug, PartialEq, Eq, Structural)]
pub enum Action {
    /// Store `value` in `reg`.
    Write { reg: Reg, value: u32 },
    /// Read `reg`, clear the bits of `clear`, set the bits of `set`, store
    /// the result: the register becomes `modified(old, clear, set)`.
    Modify { reg: Reg, clear: u32, set: u32 },
    /// Read `reg` and hand its value to the next step.
    Read { reg: Reg },
    /// Spin for `cycles` processor cycles.
    Delay { cycles: u32 },
    /// The procedure has run to its end; every further step says so again.
    Done,
    /// The procedure cannot go on and the system must stop; every further
    /// step says so again.
    Halt,
}

impl Action {
    /// The register that the action reads or writes, if any.
    pub open spec fn spec_target(self) -> Option<Reg> {
        match self {
            Action::Write { reg, .. } => Some(reg),
            Action::Modify { reg, .. } => Some(reg),
            Action::Read { reg } => Some(reg),
            _ => None,
        }
    }

    /// The register that the action reads or writes, if any.
    #[verifier::when_used_as_spec(spec_target)]
    pub fn target(self) -> (r: Option<Reg>)
        ensures
            r == self.spec_target(),
    {
        match self {
            Action::Write { reg, .. } => Some(reg),
            Action::Modify { reg, .. } => Some(reg),
            Action::Read { reg } => Some(reg),
            _ => None,
        }
    }

    /// Whether the action ends its procedure.
    pub open spec fn spec_is_final(self) -> bool {
        self == Action::Done || self == Action::Halt
    }

    /// Whether the action ends its procedure.
    #[verifier::when_used_as_spec(spec_is_final)]
    pub fn is_final(self) -> (r: bool)
        ensures
            r == self.spec_is_final(),
    {
        match self {
            Action::Done => true,
            Action::Halt => true,
            _ => false,
        }
    }
}

/// What a register holds after a [`Action::Modify`] found `old` in it.
pub open spec fn modified(old: u32, clear: u32, set: u32) -> u32 {
    (old & !clear) | set
}

/// Computes what a register holds after a [`Action::Modify`] found `old` in it.
pub fn apply_modify(old: u32, clear: u32, set: u32) -> (new: u32)
    ensures
        new == modified(old, clear, set),
{
    (old & !clear) | set
}

/// The field of `value` that `mask` covers once `value` is shifted down by
/// `shift`.
pub open spec fn field(value: u32, shift: u32, mask: u32) -> u32 {
    (value >> shift) & mask
}

/// Reads the field of `value` that `mask` covers once `value` is shifted down
/// by `shift`.
pub fn read_field(value: u32, shift: u32, mask: u32) -> (bits: u32)
    requires
        shift < 32,
    ensures
        bits == field(value, shift, mask),
{
    (value >> shift) & mask
}

/// The modification that stores `bits` in the field of `reg` at `shift` under
/// `mask` and leaves the rest of the register alone.
pub open spec fn spec_set_field(reg: Reg, shift: u32, mask: u32, bits: u32) -> Action {
    Action::Modify { reg, clear: mask << shift, set: bits << shift }
}

/// Builds the modification that stores `bits` in the field of `reg` at
/// `shift` under `mask` and leaves the rest of the register alone.
#[verifier::when_used_as_spec(spec_set_field)]
pub fn set_field(reg: Reg, shift: u32, mask: u32, bits: u32) -> (action: Action)
    requires
        shift < 32,
    ensures
        action == spec_set_field(reg, shift, mask, bits),
{
    Action::Modify { reg, clear: mask << shift, set: bits << shift }
}

/// A field written by [`set_field`] reads back as the bits stored, and every
/// bit outside the field is as it was, provided the field fits in the register
/// and the bits fit in the field.
pub proof fn lemma_set_field(old: u32, shift: u32, mask: u32, bits: u32)
    requires
        shift < 32,
        (mask << shift) >> shift == mask,
        bits & mask == bits,
    ensures
        field(modified(old, mask << shift, bits << shift), shift, mask) == bits,
        modified(old, mask << shift, bits << shift) & !(mask << shift) == old & !(mask << shift),
{
    assert((((old & !(mask << shift)) | (bits << shift)) >> shift) & mask == bits)
        by (bit_vector)
        requires
            shift < 32,
            (mask << shift) >> shift == mask,
            bits & mask == bits,
    ;
    assert(((old & !(mask << shift)) | (bits << shift)) & !(mask << shift) == old & !(mask
        << shift)) by (bit_vector)
        requires
            shift < 32,
            (mask << shift) >> shift == mask,
            bits & mask == bits,
    ;
}

/// Two fields of one register that do not overlap do not disturb each other:
/// writing the one leaves the other as it reads.
pub proof fn lemma_set_field_other(
    old: u32,
    shift: u32,
    mask: u32,
    bits: u32,
    other_shift: u32,
    other_mask: u32,
)
    requires
        shift < 32,
        other_shift < 32,
        bits & mask == bits,
        (mask << shift) & (other_mask << other_shift) == 0,
    ensures
        field(modified(old, mask << shift, bits << shift), other_shift, other_mask) == field(
            old,
            other_shift,
            other_mask,
        ),
{
    assert((((old & !(mask << shift)) | (bits << shift)) >> other_shift) & other_mask == (old
        >> other_shift) & other_mask) by (bit_vector)
        requires
            shift < 32,
            other_shift < 32,
            bits & mask == bits,
            (mask << shift) & (other_mask << other_shift) == 0,
    ;
}

} // verus!
