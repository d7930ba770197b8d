use stm32f7xx_hal::gpio::{Alternate, GpioExt, PA11, PA12, PB14, PB15};
use stm32f7xx_hal::otg::{BringUpState, Controller, PhyType, PowerUp, Speed};
use stm32f7xx_hal::otg_fs;
use stm32f7xx_hal::otg_hs::{
    reference_code, PhyCalibration, PhyStage, LDO_DISABLE, LDO_STATUS, PHY_SETTLE_CYCLES,
    PHY_TUNE, PLL1EN, USB,
};
use stm32f7xx_hal::pac::Peripherals;
use stm32f7xx_hal::rcc::switch::{HSERDY, HSIRDY, PLLRDY};
use stm32f7xx_hal::rcc::{configure_clocks, ClockPlan, Clocks, HSEClock, HSEClockMode};
use stm32f7xx_hal::register::{Action, Reg};
use stm32f7xx_hal::sequence::Sequencer;
use stm32f7xx_hal::time::Hertz;

fn peripherals() -> Peripherals {
    let mut taken = false;
    Peripherals::take(&mut taken).unwrap()
}

/// Runs the clock switch against a clock tree in which everything is ready
/// at once.
fn clocks_for(plan: ClockPlan) -> Clocks {
    let mut switch = configure_clocks(peripherals().RCC, plan).unwrap();
    let mut input = 0;
    loop {
        let action = switch.step(input);
        input = match action {
            Action::Read { reg: Reg::RccCr } => HSERDY | HSIRDY | PLLRDY,
            Action::Read { reg: Reg::RccCfgr } => switch.config().pll.map_or(
                if switch.config().hse.is_some() { 1 << 2 } else { 0 },
                |_| 2 << 2,
            ),
            Action::Done => return switch.clocks().unwrap(),
            Action::Halt => panic!("the clock tree did not come up"),
            _ => 0,
        };
    }
}

fn board_clocks(hse_hz: u32) -> Clocks {
    clocks_for(ClockPlan {
        hse: Some(HSEClock::new(Hertz::hz(hse_hz), HSEClockMode::Bypass)),
        use_pll: true,
        use_pll48clk: true,
        sysclk: Some(Hertz::mhz(216)),
        hclk: None,
        pclk1: None,
        pclk2: None,
    })
}

fn hs_pins() -> (PB14<Alternate<12>>, PB15<Alternate<12>>) {
    let gpiob = peripherals().GPIOB.split();
    (gpiob.pin14.into_alternate::<12>().0, gpiob.pin15.into_alternate::<12>().0)
}

fn fs_pins() -> (PA11<Alternate<10>>, PA12<Alternate<10>>) {
    let gpioa = peripherals().GPIOA.split();
    (gpioa.pin11.into_alternate::<10>().0, gpioa.pin12.into_alternate::<10>().0)
}

fn hs_usb(clocks: Clocks) -> USB {
    let dp = peripherals();
    USB::new(dp.OTG_HS_GLOBAL, dp.OTG_HS_DEVICE, dp.OTG_HS_PWRCLK, hs_pins(), clocks)
}

fn fs_usb(clocks: Clocks) -> otg_fs::USB {
    let dp = peripherals();
    otg_fs::USB::new(dp.OTG_FS_GLOBAL, dp.OTG_FS_DEVICE, dp.OTG_FS_PWRCLK, fs_pins(), clocks)
}

fn run_power_up(mut p: PowerUp) -> (Vec<Action>, Vec<BringUpState>) {
    let mut ops = Vec::new();
    let mut states = vec![p.state()];
    loop {
        let action = p.step(0);
        if action == Action::Done {
            return (ops, states);
        }
        ops.push(action);
        states.push(p.state());
    }
}

/// A regulator that reports ready at the `polls_needed`-th read of its
/// status.
fn run_calibration(c: &mut PhyCalibration, polls_needed: u32) -> Vec<Action> {
    let mut done = Vec::new();
    let mut polls = 0;
    let mut input = 0;
    loop {
        let action = c.step(input);
        done.push(action);
        input = match action {
            Action::Read { reg: Reg::UsbphycLdo } => {
                polls += 1;
                if polls >= polls_needed {
                    LDO_STATUS
                } else {
                    0
                }
            }
            Action::Read { reg: Reg::UsbphycPll1 } => PLL1EN,
            Action::Done => return done,
            _ => 0,
        };
    }
}

#[test]
fn new_keeps_the_bus_clock_and_the_reference() {
    let usb = hs_usb(board_clocks(25_000_000));
    assert_eq!(usb.hclk, Hertz(216_000_000));
    assert_eq!(usb.hse, Some(Hertz(25_000_000)));
    assert_eq!(usb.ahb_frequency_hz(), 216_000_000);
}

#[test]
fn new_on_the_internal_oscillator_has_no_reference() {
    let usb = hs_usb(clocks_for(ClockPlan::new()));
    assert_eq!(usb.hclk, Hertz(16_000_000));
    assert_eq!(usb.hse, None);
    assert!(usb.setup_internal_hs_phy().is_none());
}

#[test]
fn full_speed_new_keeps_the_bus_clock() {
    let usb = fs_usb(board_clocks(25_000_000));
    assert_eq!(usb.hclk, Hertz(216_000_000));
    assert_eq!(usb.ahb_frequency_hz(), 216_000_000);
}

#[test]
fn capabilities_of_the_high_speed_controller() {
    assert_eq!(USB::registers(), 0x4004_0000);
    assert_eq!(USB::speed(), Speed::High);
    assert_eq!(USB::fifo_depth_words(), 1024);
    assert_eq!(USB::endpoint_count(), 9);
    assert_eq!(hs_usb(board_clocks(25_000_000)).phy_type(), PhyType::InternalHighSpeed);
}

#[test]
fn capabilities_of_the_full_speed_controller() {
    assert_eq!(otg_fs::USB::registers(), 0x5000_0000);
    assert_eq!(otg_fs::USB::speed(), Speed::Full);
    assert_eq!(otg_fs::USB::fifo_depth_words(), 320);
    assert_eq!(otg_fs::USB::endpoint_count(), 6);
    let usb = fs_usb(board_clocks(25_000_000));
    assert_eq!(usb.phy_type(), PhyType::InternalFullSpeed);
    assert!(usb.setup_internal_hs_phy().is_none());
}

#[test]
fn enable_high_speed() {
    let (ops, states) = run_power_up(USB::enable());
    assert_eq!(
        ops,
        vec![
            Action::Modify { reg: Reg::RccAhb1enr, clear: 0, set: 1 << 29 },
            Action::Modify { reg: Reg::RccAhb1rstr, clear: 0, set: 1 << 29 },
            Action::Modify { reg: Reg::RccAhb1rstr, clear: 1 << 29, set: 0 },
            Action::Modify { reg: Reg::RccAhb1enr, clear: 0, set: 1 << 30 },
            Action::Modify { reg: Reg::RccApb2enr, clear: 0, set: 1 << 31 },
            Action::Modify { reg: Reg::RccApb2rstr, clear: 0, set: 1 << 31 },
            Action::Modify { reg: Reg::RccApb2rstr, clear: 1 << 31, set: 0 },
        ]
    );
    assert_eq!(
        states,
        vec![
            BringUpState::Unpowered,
            BringUpState::Enabled,
            BringUpState::Enabled,
            BringUpState::Reset,
            BringUpState::Reset,
            BringUpState::Reset,
            BringUpState::Reset,
            BringUpState::Reset,
        ]
    );
}

#[test]
fn enable_full_speed_is_ready_after_reset() {
    let (ops, states) = run_power_up(otg_fs::USB::enable());
    assert_eq!(
        ops,
        vec![
            Action::Modify { reg: Reg::RccAhb2enr, clear: 0, set: 1 << 7 },
            Action::Modify { reg: Reg::RccAhb2rstr, clear: 0, set: 1 << 7 },
            Action::Modify { reg: Reg::RccAhb2rstr, clear: 1 << 7, set: 0 },
        ]
    );
    assert_eq!(
        states,
        vec![
            BringUpState::Unpowered,
            BringUpState::Enabled,
            BringUpState::Enabled,
            BringUpState::Ready,
        ]
    );
}

#[test]
fn power_up_runs_with_interrupts_masked_and_calibration_does_not() {
    assert!(USB::enable().is_exclusive());
    assert!(otg_fs::USB::enable().is_exclusive());
    assert!(!PhyCalibration::new(Hertz(25_000_000)).unwrap().is_exclusive());
}

#[test]
fn power_up_stays_done() {
    let mut p = PowerUp::new(Speed::Full);
    for _ in 0..3 {
        assert_ne!(p.step(7), Action::Done);
    }
    for _ in 0..5 {
        assert_eq!(p.step(7), Action::Done);
        assert_eq!(p.state(), BringUpState::Ready);
    }
}

#[test]
fn reference_codes() {
    assert_eq!(reference_code(Hertz(12_000_000)), Some(0b000));
    assert_eq!(reference_code(Hertz(12_500_000)), Some(0b001));
    assert_eq!(reference_code(Hertz(16_000_000)), Some(0b011));
    assert_eq!(reference_code(Hertz(24_000_000)), Some(0b100));
    assert_eq!(reference_code(Hertz(25_000_000)), Some(0b101));
    assert_eq!(reference_code(Hertz(8_000_000)), None);
    assert_eq!(reference_code(Hertz(25_000_001)), None);
    assert_eq!(reference_code(Hertz(0)), None);
}

#[test]
fn calibration_with_25_mhz_selects_the_25_mhz_code() {
    let usb = hs_usb(board_clocks(25_000_000));
    let mut c = usb.setup_internal_hs_phy().unwrap();
    assert_eq!(c.code(), 0b101);
    assert_eq!(c.stage(), PhyStage::Regulator);
    let done = run_calibration(&mut c, 1);
    assert_eq!(
        done,
        vec![
            Action::Modify { reg: Reg::UsbphycLdo, clear: 0, set: LDO_DISABLE },
            Action::Read { reg: Reg::UsbphycLdo },
            Action::Write { reg: Reg::UsbphycPll1, value: 0b101 << 1 },
            Action::Modify { reg: Reg::UsbphycTune, clear: 0, set: PHY_TUNE },
            Action::Modify { reg: Reg::UsbphycPll1, clear: 0, set: PLL1EN },
            Action::Read { reg: Reg::UsbphycPll1 },
            Action::Delay { cycles: PHY_SETTLE_CYCLES },
            Action::Done,
        ]
    );
    assert_eq!(PHY_TUNE, 0xF13);
    assert_eq!(PHY_SETTLE_CYCLES, 432_000);
    assert_eq!(c.stage(), PhyStage::Ready);
    assert_eq!(c.state(), BringUpState::Ready);
}

#[test]
fn calibration_with_24_mhz_selects_the_24_mhz_code() {
    let usb = hs_usb(board_clocks(24_000_000));
    let mut c = usb.setup_internal_hs_phy().unwrap();
    let done = run_calibration(&mut c, 1);
    assert_eq!(done[2], Action::Write { reg: Reg::UsbphycPll1, value: 0b100 << 1 });
}

#[test]
fn calibration_needs_a_reference_the_phy_accepts() {
    let usb = hs_usb(board_clocks(8_000_000));
    assert!(usb.setup_internal_hs_phy().is_none());
    assert!(PhyCalibration::new(Hertz(26_000_000)).is_none());
    assert!(PhyCalibration::new(Hertz(16_000_000)).is_some());
}

#[test]
fn calibration_waits_for_the_regulator() {
    let mut c = PhyCalibration::new(Hertz(25_000_000)).unwrap();
    let done = run_calibration(&mut c, 5000);
    let ready_at = done.iter().position(|a| a.target() == Some(Reg::UsbphycPll1)).unwrap();
    assert_eq!(ready_at, 5001);
    assert!(done[1..ready_at].iter().all(|a| *a == Action::Read { reg: Reg::UsbphycLdo }));
    assert_eq!(done.len(), 5001 + 6);
    assert_eq!(done.last(), Some(&Action::Done));
}

#[test]
fn calibration_does_not_go_on_without_the_regulator() {
    let mut c = PhyCalibration::new(Hertz(25_000_000)).unwrap();
    for i in 0..100_000u32 {
        // Every bit but the status bit is set: that is not "ready".
        let action = c.step(!LDO_STATUS);
        if i >= 1 {
            assert_eq!(action, Action::Read { reg: Reg::UsbphycLdo });
        }
        assert_eq!(c.state(), BringUpState::Reset);
    }
    assert_eq!(c.stage(), PhyStage::RegulatorWait);
}

#[test]
fn calibration_does_not_settle_before_the_pll_shows_enabled() {
    let mut c = PhyCalibration::new(Hertz(25_000_000)).unwrap();
    let mut done = Vec::new();
    for _ in 0..5 {
        done.push(c.step(LDO_STATUS));
    }
    assert_eq!(done[4], Action::Modify { reg: Reg::UsbphycPll1, clear: 0, set: PLL1EN });
    assert_eq!(c.step(0), Action::Read { reg: Reg::UsbphycPll1 });
    for _ in 0..10_000 {
        assert_eq!(c.step(!PLL1EN), Action::Read { reg: Reg::UsbphycPll1 });
        assert_eq!(c.stage(), PhyStage::PllWait);
        assert_eq!(c.state(), BringUpState::Reset);
    }
    assert_eq!(c.step(PLL1EN), Action::Delay { cycles: PHY_SETTLE_CYCLES });
    assert_eq!(c.state(), BringUpState::PhyCalibrated);
    assert_eq!(c.step(0), Action::Done);
    assert_eq!(c.state(), BringUpState::Ready);
}

#[test]
fn calibration_reports_its_states_in_order() {
    let mut c = PhyCalibration::new(Hertz(25_000_000)).unwrap();
    let mut stages = vec![c.stage()];
    let mut states = vec![c.state()];
    loop {
        let action = c.step(LDO_STATUS | PLL1EN);
        stages.push(c.stage());
        states.push(c.state());
        if action == Action::Done {
            break;
        }
    }
    assert_eq!(
        stages,
        vec![
            PhyStage::Regulator,
            PhyStage::RegulatorPoll,
            PhyStage::RegulatorWait,
            PhyStage::Tune,
            PhyStage::PllEnable,
            PhyStage::PllPoll,
            PhyStage::PllWait,
            PhyStage::Calibrated,
            PhyStage::Ready,
        ]
    );
    assert_eq!(states[7], BringUpState::PhyCalibrated);
    assert_eq!(states[8], BringUpState::Ready);
    assert!(states[..7].iter().all(|s| *s == BringUpState::Reset));
}

#[test]
fn calibration_enables_the_pll_only_after_the_regulator_is_ready() {
    for polls_needed in [1u32, 2, 17, 300] {
        let mut c = PhyCalibration::new(Hertz(12_500_000)).unwrap();
        let done = run_calibration(&mut c, polls_needed);
        let enable = done
            .iter()
            .position(|a| *a == Action::Modify { reg: Reg::UsbphycPll1, clear: 0, set: PLL1EN })
            .unwrap();
        let select = done
            .iter()
            .position(|a| *a == Action::Write { reg: Reg::UsbphycPll1, value: 0b001 << 1 })
            .unwrap();
        let last_poll = done
            .iter()
            .rposition(|a| *a == Action::Read { reg: Reg::UsbphycLdo })
            .unwrap();
        assert_eq!(last_poll, polls_needed as usize);
        assert!(last_poll < select && select < enable && enable < done.len() - 1);
    }
}
