use stm32f7xx_hal::pac::Peripherals;
use stm32f7xx_hal::register::{
    apply_modify, read_field, set_field, Action, Reg, GPIO_BASE, I2C1_BASE, OTG_FS_BASE,
    OTG_HS_BASE, RCC_BASE, USBPHYC_BASE,
};
use stm32f7xx_hal::sequence::{Script, Sequencer};
use stm32f7xx_hal::time::Hertz;

#[test]
fn peripherals_are_handed_out_once() {
    let mut taken = false;
    assert!(Peripherals::take(&mut taken).is_some());
    assert!(taken);
    assert!(Peripherals::take(&mut taken).is_none());
    assert!(taken);
    assert!(Peripherals::take(&mut taken).is_none());
}

#[test]
fn peripherals_with_the_mark_set_are_not_handed_out() {
    let mut taken = true;
    assert!(Peripherals::take(&mut taken).is_none());
    assert!(taken);
}

#[test]
fn hertz_conversions() {
    assert_eq!(Hertz::hz(7), Hertz(7));
    assert_eq!(Hertz::khz(400), Hertz(400_000));
    assert_eq!(Hertz::mhz(25), Hertz(25_000_000));
    assert_eq!(Hertz::mhz(216).raw(), 216_000_000);
    assert_eq!(Hertz::khz(Hertz::MAX_KHZ), Hertz(4_294_967_000));
    assert_eq!(Hertz::mhz(Hertz::MAX_MHZ), Hertz(4_294_000_000));
}

#[test]
fn hertz_checked_conversions() {
    assert_eq!(Hertz::checked_khz(1), Some(Hertz(1_000)));
    assert_eq!(Hertz::checked_khz(4_294_967), Some(Hertz(4_294_967_000)));
    assert_eq!(Hertz::checked_khz(4_294_968), None);
    assert_eq!(Hertz::checked_mhz(4_294), Some(Hertz(4_294_000_000)));
    assert_eq!(Hertz::checked_mhz(4_295), None);
    assert_eq!(Hertz::checked_mhz(u32::MAX), None);
}

#[test]
fn register_addresses() {
    assert_eq!(Reg::RccCr.address(), 0x4002_3800);
    assert_eq!(Reg::RccPllcfgr.address(), 0x4002_3804);
    assert_eq!(Reg::RccCfgr.address(), 0x4002_3808);
    assert_eq!(Reg::RccAhb1rstr.address(), 0x4002_3810);
    assert_eq!(Reg::RccAhb2rstr.address(), 0x4002_3814);
    assert_eq!(Reg::RccApb2rstr.address(), 0x4002_3824);
    assert_eq!(Reg::RccAhb1enr.address(), 0x4002_3830);
    assert_eq!(Reg::RccAhb2enr.address(), 0x4002_3834);
    assert_eq!(Reg::RccApb2enr.address(), 0x4002_3844);
    assert_eq!(Reg::GpioModer(0).address(), 0x4002_0000);
    assert_eq!(Reg::GpioModer(1).address(), 0x4002_0400);
    assert_eq!(Reg::GpioOtyper(1).address(), 0x4002_0404);
    assert_eq!(Reg::GpioOspeedr(1).address(), 0x4002_0408);
    assert_eq!(Reg::GpioAfrl(1).address(), 0x4002_0420);
    assert_eq!(Reg::GpioAfrh(1).address(), 0x4002_0424);
    assert_eq!(Reg::GpioAfrh(10).address(), 0x4002_2824);
    assert_eq!(Reg::I2c1Cr2.address(), 0x4000_5404);
    assert_eq!(Reg::I2c1Isr.address(), 0x4000_5418);
    assert_eq!(Reg::I2c1Icr.address(), 0x4000_541C);
    assert_eq!(Reg::I2c1Rxdr.address(), 0x4000_5424);
    assert_eq!(Reg::I2c1Txdr.address(), 0x4000_5428);
    assert_eq!(Reg::UsbphycPll1.address(), 0x4001_7C00);
    assert_eq!(Reg::UsbphycTune.address(), 0x4001_7C0C);
    assert_eq!(Reg::UsbphycLdo.address(), 0x4001_7C18);
    assert_eq!(
        (RCC_BASE, GPIO_BASE, I2C1_BASE, USBPHYC_BASE, OTG_FS_BASE, OTG_HS_BASE),
        (0x4002_3800, 0x4002_0000, 0x4000_5400, 0x4001_7C00, 0x5000_0000, 0x4004_0000)
    );
}

#[test]
fn modify_clears_then_sets() {
    assert_eq!(apply_modify(0xFFFF_0000, 0xF000_0000, 0x0000_000F), 0x0FFF_000F);
    assert_eq!(apply_modify(0x1234_5678, 0, 0), 0x1234_5678);
    assert_eq!(apply_modify(0x1234_5678, 0xFFFF_FFFF, 0), 0);
    // A bit that is both cleared and set ends up set.
    assert_eq!(apply_modify(0, 0x1, 0x1), 0x1);
}

#[test]
fn field_written_reads_back_and_leaves_the_rest() {
    let action = set_field(Reg::GpioModer(1), 28, 0x3, 0x2);
    assert_eq!(action, Action::Modify { reg: Reg::GpioModer(1), clear: 0x3000_0000, set: 0x2000_0000 });
    let old = 0xDEAD_BEEF;
    let new = apply_modify(old, 0x3000_0000, 0x2000_0000);
    assert_eq!(read_field(new, 28, 0x3), 0x2);
    assert_eq!(new & !0x3000_0000, old & !0x3000_0000);
    assert_eq!(read_field(new, 26, 0x3), read_field(old, 26, 0x3));
    assert_eq!(read_field(0xABCD_1234, 16, 0xFF), 0xCD);
}

#[test]
fn action_targets() {
    assert_eq!(Action::Write { reg: Reg::RccCr, value: 1 }.target(), Some(Reg::RccCr));
    assert_eq!(Action::Modify { reg: Reg::RccCfgr, clear: 1, set: 2 }.target(), Some(Reg::RccCfgr));
    assert_eq!(Action::Read { reg: Reg::I2c1Isr }.target(), Some(Reg::I2c1Isr));
    assert_eq!(Action::Delay { cycles: 3 }.target(), None);
    assert_eq!(Action::Done.target(), None);
    assert_eq!(Action::Halt.target(), None);
    assert!(Action::Done.is_final());
    assert!(Action::Halt.is_final());
    assert!(!Action::Delay { cycles: 0 }.is_final());
    assert!(!Action::Read { reg: Reg::RccCr }.is_final());
}

#[test]
fn script_hands_out_its_operations_in_order() {
    let ops = [
        Action::Write { reg: Reg::RccCr, value: 1 },
        Action::Delay { cycles: 10 },
        Action::Read { reg: Reg::RccCr },
        Action::Done,
    ];
    let mut script = Script::new(ops, 3);
    assert!(!script.is_exclusive());
    assert_eq!(script.len(), 3);
    assert_eq!((script.op(0), script.op(1), script.op(2)), (ops[0], ops[1], ops[2]));
    assert_eq!(script.remaining(), 3);
    assert_eq!(script.step(99), ops[0]);
    assert_eq!(script.remaining(), 2);
    assert_eq!(script.step(0), ops[1]);
    assert_eq!(script.step(12345), ops[2]);
    assert_eq!(script.remaining(), 0);
    assert_eq!(script.step(0), Action::Done);
    assert_eq!(script.step(0), Action::Done);
    assert_eq!(script.remaining(), 0);
    assert_eq!(script.len(), 3);
}

#[test]
fn script_holds_four_operations_at_most() {
    let op = Action::Delay { cycles: 1 };
    let mut script = Script::new([op; 4], 4);
    for _ in 0..4 {
        assert_eq!(script.step(0), op);
    }
    assert_eq!(script.step(0), Action::Done);
}

#[test]
fn empty_script_is_done_at_once() {
    let mut script = Script::new([Action::Done; 4], 0);
    assert_eq!(script.remaining(), 0);
    assert_eq!(script.len(), 0);
    assert_eq!(script.step(0), Action::Done);
}
