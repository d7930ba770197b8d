use stm32f7xx_hal::gpio::{Alternate, GpioExt, OpenDrain, PB8, PB9};
use stm32f7xx_hal::i2c::{
    goal_reached, transfer_fits, BlockingI2c, Error, Goal, Stage, Transfer, CR2_STOP, ICR_ARLOCF,
    ICR_RELEASE, ICR_STOPCF, ISR_ARLO, ISR_NACKF, ISR_RXNE, ISR_STOPF, ISR_TC, ISR_TXIS,
};
use stm32f7xx_hal::pac::Peripherals;
use stm32f7xx_hal::rcc::switch::HSIRDY;
use stm32f7xx_hal::rcc::{configure_clocks, ClockPlan, Clocks};
use stm32f7xx_hal::register::{Action, Reg};
use stm32f7xx_hal::sequence::Sequencer;
use stm32f7xx_hal::time::Hertz;

const ADDR: u8 = 0x34 >> 1;

fn peripherals() -> Peripherals {
    let mut taken = false;
    Peripherals::take(&mut taken).unwrap()
}

fn clocks() -> Clocks {
    let mut switch = configure_clocks(peripherals().RCC, ClockPlan::new()).unwrap();
    let mut input = 0;
    loop {
        let action = switch.step(input);
        input = match action {
            Action::Read { reg: Reg::RccCr } => HSIRDY,
            Action::Done => return switch.clocks().unwrap(),
            Action::Halt => panic!("the clock tree did not come up"),
            _ => 0,
        };
    }
}

fn pins() -> (PB8<Alternate<4, OpenDrain>>, PB9<Alternate<4, OpenDrain>>) {
    let gpiob = peripherals().GPIOB.split();
    let scl = gpiob.pin8.into_alternate::<4>().0.set_open_drain().0;
    let sda = gpiob.pin9.into_alternate::<4>().0.set_open_drain().0;
    (scl, sda)
}

fn bus(timeout: u32) -> BlockingI2c {
    BlockingI2c::new(peripherals().I2C1, pins(), clocks(), timeout)
}

/// The controller together with what is on the bus: at most one device,
/// which acknowledges its address, takes every byte written and answers
/// reads with the bytes of `answer` in turn.
struct Wire {
    device: Option<u8>,
    answer: Vec<u8>,
    /// How often the status reads as nothing before each flag comes up:
    /// the device holding the clock.
    stretch: u32,
    /// Another controller takes the bus at this read of the status.
    contention_at: Option<u32>,

    status: u32,
    held: u32,
    status_reads: u32,
    tx_left: u32,
    rx_left: u32,
    next_answer: usize,
    received: Vec<u8>,
    starts: Vec<(u8, bool, u32)>,
    stops: u32,
    idle: bool,
}

impl Wire {
    fn with_device(address: u8, answer: &[u8]) -> Wire {
        Wire {
            device: Some(address),
            answer: answer.to_vec(),
            stretch: 0,
            contention_at: None,
            status: 0,
            held: 0,
            status_reads: 0,
            tx_left: 0,
            rx_left: 0,
            next_answer: 0,
            received: Vec::new(),
            starts: Vec::new(),
            stops: 0,
            idle: true,
        }
    }

    fn empty() -> Wire {
        let mut wire = Wire::with_device(0, &[]);
        wire.device = None;
        wire
    }

    fn raise(&mut self, status: u32) {
        self.status = status;
        self.held = self.stretch;
    }

    fn perform(&mut self, action: Action) -> u32 {
        match action {
            Action::Write { reg: Reg::I2c1Cr2, value } if value & CR2_STOP != 0 => {
                self.stops += 1;
                self.idle = true;
                self.status = (self.status & ISR_NACKF) | ISR_STOPF;
                self.held = 0;
                0
            }
            Action::Write { reg: Reg::I2c1Cr2, value } => {
                let address = ((value >> 1) & 0x7F) as u8;
                let read = value & (1 << 10) != 0;
                let count = (value >> 16) & 0xFF;
                assert!(value & (1 << 13) != 0, "a control word that is neither start nor stop");
                self.starts.push((address, read, count));
                self.idle = false;
                if self.device != Some(address) {
                    self.raise(ISR_NACKF);
                } else if read {
                    self.rx_left = count;
                    self.raise(if count > 0 { ISR_RXNE } else { ISR_TC });
                } else {
                    self.tx_left = count;
                    self.raise(if count > 0 { ISR_TXIS } else { ISR_TC });
                }
                0
            }
            Action::Write { reg: Reg::I2c1Txdr, value } => {
                assert!(self.status & ISR_TXIS != 0, "a byte written that was not asked for");
                assert!(value <= 0xFF);
                self.received.push(value as u8);
                self.tx_left -= 1;
                self.raise(if self.tx_left > 0 { ISR_TXIS } else { ISR_TC });
                0
            }
            Action::Read { reg: Reg::I2c1Rxdr } => {
                assert!(self.status & ISR_RXNE != 0, "a byte read that was not there");
                let byte = self.answer[self.next_answer];
                self.next_answer += 1;
                self.rx_left -= 1;
                self.raise(if self.rx_left > 0 { ISR_RXNE } else { ISR_TC });
                // The upper bits of the data register read as whatever.
                0xFFFF_FF00 | byte as u32
            }
            Action::Write { reg: Reg::I2c1Icr, value } => {
                self.status &= !value;
                0
            }
            Action::Read { reg: Reg::I2c1Isr } => {
                self.status_reads += 1;
                if self.contention_at == Some(self.status_reads) {
                    return ISR_ARLO;
                }
                if self.held > 0 {
                    self.held -= 1;
                    0
                } else {
                    self.status
                }
            }
            other => panic!("not an operation of a transfer: {:?}", other),
        }
    }
}

fn run(transfer: &mut Transfer, wire: &mut Wire) -> Vec<Action> {
    let mut done = Vec::new();
    let mut input = 0;
    loop {
        let action = transfer.step(input);
        done.push(action);
        if action.is_final() {
            return done;
        }
        input = wire.perform(action);
    }
}

/// What firmware wraps around a transfer: run it to its end and copy out.
fn write_read(
    i2c: &BlockingI2c,
    wire: &mut Wire,
    address: u8,
    bytes: &[u8],
    buffer: &mut [u8],
) -> Result<(), Error> {
    let mut transfer = i2c.write_read(address, bytes, buffer.len()).expect("a transfer that fits");
    run(&mut transfer, wire);
    let result = transfer.result().expect("a finished transfer");
    if result.is_ok() {
        buffer.copy_from_slice(transfer.received());
    }
    result
}

#[test]
fn write_read_register_of_an_acknowledging_device() {
    let i2c = bus(10_000);
    let mut wire = Wire::with_device(ADDR, &[0xAB, 0xCD]);
    let mut buf2 = [0u8; 2];
    let result = write_read(&i2c, &mut wire, ADDR, &[0x00], &mut buf2);
    assert_eq!(result, Ok(()));
    assert_eq!(buf2, [0xAB, 0xCD]);
    assert_eq!(wire.received, vec![0x00]);
    assert_eq!(wire.starts, vec![(ADDR, false, 1), (ADDR, true, 2)]);
    assert_eq!(wire.stops, 1);
    assert!(wire.idle);
}

#[test]
fn write_read_actions_in_order() {
    let i2c = bus(10_000);
    let mut wire = Wire::with_device(ADDR, &[0xAB, 0xCD]);
    let mut transfer = i2c.write_read(ADDR, &[0x00], 2).unwrap();
    let done = run(&mut transfer, &mut wire);
    let isr = Action::Read { reg: Reg::I2c1Isr };
    assert_eq!(
        done,
        vec![
            Action::Write { reg: Reg::I2c1Cr2, value: (0x1A << 1) | (1 << 13) | (1 << 16) },
            isr,
            Action::Write { reg: Reg::I2c1Txdr, value: 0x00 },
            isr,
            Action::Write {
                reg: Reg::I2c1Cr2,
                value: (0x1A << 1) | (1 << 10) | (1 << 13) | (2 << 16)
            },
            isr,
            Action::Read { reg: Reg::I2c1Rxdr },
            isr,
            Action::Read { reg: Reg::I2c1Rxdr },
            isr,
            Action::Write { reg: Reg::I2c1Cr2, value: CR2_STOP },
            isr,
            Action::Write { reg: Reg::I2c1Icr, value: ICR_STOPCF },
            Action::Done,
        ]
    );
    assert_eq!(transfer.result(), Some(Ok(())));
    assert_eq!(transfer.received(), &[0xAB, 0xCD]);
    assert_eq!(transfer.sent(), 1);
    assert!(transfer.is_finished());
}

#[test]
fn write_read_unoccupied_address_is_not_acknowledged() {
    let i2c = bus(10_000);
    let mut wire = Wire::empty();
    let mut buf = [0x55u8; 2];
    let result = write_read(&i2c, &mut wire, ADDR, &[0x00], &mut buf);
    assert_eq!(result, Err(Error::NotAcknowledged));
    assert_eq!(buf, [0x55, 0x55]);
    assert_eq!(wire.stops, 1);
    assert!(wire.idle);
    assert_eq!(wire.status & ISR_NACKF, 0);
    assert!(wire.received.is_empty());
    assert_eq!(wire.starts, vec![(ADDR, false, 1)]);
}

#[test]
fn unoccupied_address_takes_four_steps() {
    let i2c = bus(10_000);
    let mut wire = Wire::empty();
    let mut transfer = i2c.write_read(0x50, &[1, 2, 3], 4).unwrap();
    let done = run(&mut transfer, &mut wire);
    assert_eq!(
        done,
        vec![
            Action::Write { reg: Reg::I2c1Cr2, value: (0x50 << 1) | (1 << 13) | (3 << 16) },
            Action::Read { reg: Reg::I2c1Isr },
            Action::Write { reg: Reg::I2c1Cr2, value: CR2_STOP },
            Action::Write { reg: Reg::I2c1Icr, value: ICR_RELEASE },
            Action::Done,
        ]
    );
    assert_eq!(transfer.result(), Some(Err(Error::NotAcknowledged)));
    assert_eq!(transfer.sent(), 0);
    assert!(transfer.received().is_empty());
}

#[test]
fn device_at_another_address_does_not_answer() {
    let i2c = bus(100);
    let mut wire = Wire::with_device(ADDR + 1, &[1, 2]);
    let mut buf = [0u8; 2];
    assert_eq!(write_read(&i2c, &mut wire, ADDR, &[0], &mut buf), Err(Error::NotAcknowledged));
    assert_eq!(wire.stops, 1);
}

#[test]
fn clock_held_beyond_the_timeout_times_out() {
    let i2c = bus(50);
    let mut wire = Wire::with_device(ADDR, &[0xAB, 0xCD]);
    wire.stretch = 51;
    let mut transfer = i2c.write_read(ADDR, &[0x00], 2).unwrap();
    let done = run(&mut transfer, &mut wire);
    assert_eq!(transfer.result(), Some(Err(Error::Timeout)));
    // Start, 50 reads of the status, stop, flags, done.
    assert_eq!(done.len(), 1 + 50 + 3);
    assert_eq!(done[51], Action::Write { reg: Reg::I2c1Cr2, value: CR2_STOP });
    assert_eq!(done[52], Action::Write { reg: Reg::I2c1Icr, value: ICR_RELEASE });
    assert_eq!(wire.stops, 1);
    assert!(wire.idle);
    assert_eq!(transfer.sent(), 0);
}

#[test]
fn clock_held_within_the_timeout_goes_through() {
    let i2c = bus(50);
    let mut wire = Wire::with_device(ADDR, &[0xAB, 0xCD]);
    wire.stretch = 49;
    let mut buf = [0u8; 2];
    assert_eq!(write_read(&i2c, &mut wire, ADDR, &[0x00], &mut buf), Ok(()));
    assert_eq!(buf, [0xAB, 0xCD]);
}

#[test]
fn stuck_bus_never_hangs() {
    for timeout in [0u32, 1, 2, 1000] {
        let i2c = bus(timeout);
        let mut transfer = i2c.write_read(ADDR, &[1, 2, 3], 3).unwrap();
        let reads = timeout.max(1) as usize;
        let mut steps = 0;
        while !transfer.step(0).is_final() {
            steps += 1;
            assert!(steps <= reads + 3);
        }
        // The start, the reads that one wait may make, the stop and the
        // clearing of the flags.
        assert_eq!(steps, reads + 3);
        assert_eq!(transfer.result(), Some(Err(Error::Timeout)));
    }
}

#[test]
fn transfer_ends_within_its_budget_whatever_it_reads() {
    let answers = [
        0u32,
        0xFFFF_FFFF,
        ISR_TXIS,
        ISR_RXNE,
        ISR_TC,
        ISR_STOPF,
        ISR_TXIS | ISR_RXNE | ISR_TC,
        ISR_TXIS | ISR_RXNE | ISR_TC | ISR_STOPF,
    ];
    for &answer in &answers {
        for &(tx, rx) in &[(0usize, 0usize), (3, 0), (0, 3), (5, 7), (255, 255)] {
            let timeout = 9;
            let i2c = bus(timeout);
            let bytes = vec![0x5A; tx];
            let mut transfer = i2c.write_read(ADDR, &bytes, rx).unwrap();
            let budget = (tx + rx + 3) * (timeout as usize + 2) + 2;
            let mut steps = 0;
            while !transfer.step(answer).is_final() {
                steps += 1;
                assert!(steps <= budget);
            }
            assert!(transfer.is_finished());
        }
    }
}

#[test]
fn arbitration_lost_ends_the_transfer_without_a_stop() {
    let i2c = bus(100);
    let mut wire = Wire::with_device(ADDR, &[1, 2]);
    wire.contention_at = Some(2);
    let mut transfer = i2c.write(ADDR, &[9, 8, 7]).unwrap();
    let done = run(&mut transfer, &mut wire);
    assert_eq!(transfer.result(), Some(Err(Error::ArbitrationLost)));
    assert_eq!(done[done.len() - 2], Action::Write { reg: Reg::I2c1Icr, value: ICR_ARLOCF });
    assert_eq!(wire.stops, 0);
    assert_eq!(transfer.sent(), 1);
}

#[test]
fn arbitration_lost_goes_before_not_acknowledged() {
    let i2c = bus(100);
    let mut transfer = i2c.read(ADDR, 1).unwrap();
    transfer.step(0);
    transfer.step(0);
    assert_eq!(
        transfer.step(ISR_ARLO | ISR_NACKF | ISR_RXNE),
        Action::Write { reg: Reg::I2c1Icr, value: ICR_ARLOCF }
    );
    assert_eq!(transfer.result(), Some(Err(Error::ArbitrationLost)));
}

#[test]
fn not_acknowledged_goes_before_ready() {
    let i2c = bus(100);
    let mut transfer = i2c.write(ADDR, &[1]).unwrap();
    transfer.step(0);
    transfer.step(0);
    assert_eq!(
        transfer.step(ISR_NACKF | ISR_TXIS),
        Action::Write { reg: Reg::I2c1Cr2, value: CR2_STOP }
    );
    assert_eq!(transfer.result(), None);
    assert_eq!(transfer.stage(), Stage::Release);
    transfer.step(0);
    assert_eq!(transfer.result(), Some(Err(Error::NotAcknowledged)));
}

#[test]
fn not_acknowledged_in_the_middle_of_the_data() {
    let i2c = bus(100);
    let mut transfer = i2c.write(ADDR, &[1, 2, 3]).unwrap();
    let answers = [0, 0, ISR_TXIS, 0, ISR_NACKF, 0, 0];
    let mut done = Vec::new();
    for a in answers {
        done.push(transfer.step(a));
    }
    assert_eq!(done[2], Action::Write { reg: Reg::I2c1Txdr, value: 1 });
    assert_eq!(done[4], Action::Write { reg: Reg::I2c1Cr2, value: CR2_STOP });
    assert_eq!(done[5], Action::Write { reg: Reg::I2c1Icr, value: ICR_RELEASE });
    assert_eq!(done[6], Action::Done);
    assert_eq!(transfer.result(), Some(Err(Error::NotAcknowledged)));
    assert_eq!(transfer.sent(), 1);
}

#[test]
fn write_sends_the_bytes_in_order() {
    let i2c = bus(1000);
    let mut wire = Wire::with_device(ADDR, &[]);
    let mut transfer = i2c.write(ADDR, &[0x00, 0x1C, 0x00, 0x11]).unwrap();
    let done = run(&mut transfer, &mut wire);
    assert_eq!(transfer.result(), Some(Ok(())));
    assert_eq!(wire.received, vec![0x00, 0x1C, 0x00, 0x11]);
    assert_eq!(wire.starts, vec![(ADDR, false, 4)]);
    assert_eq!(wire.stops, 1);
    assert!(done.iter().all(|a| *a != Action::Read { reg: Reg::I2c1Rxdr }));
    assert_eq!(transfer.sent(), 4);
    assert!(transfer.received().is_empty());
}

#[test]
fn read_takes_the_low_byte_of_each_word() {
    let i2c = bus(1000);
    let mut wire = Wire::with_device(ADDR, &[0xDE, 0xAD, 0xBE, 0xEF]);
    let mut transfer = i2c.read(ADDR, 4).unwrap();
    run(&mut transfer, &mut wire);
    assert_eq!(transfer.result(), Some(Ok(())));
    assert_eq!(transfer.received(), &[0xDE, 0xAD, 0xBE, 0xEF]);
    assert_eq!(wire.starts, vec![(ADDR, true, 4)]);
    assert_eq!(wire.stops, 1);
}

#[test]
fn empty_transfers_only_address_the_device() {
    let i2c = bus(1000);
    let mut wire = Wire::with_device(ADDR, &[]);
    let mut transfer = i2c.write(ADDR, &[]).unwrap();
    let done = run(&mut transfer, &mut wire);
    assert_eq!(transfer.result(), Some(Ok(())));
    assert_eq!(wire.starts, vec![(ADDR, false, 0)]);
    assert_eq!(done.len(), 6);

    let mut wire = Wire::with_device(ADDR, &[]);
    let mut transfer = i2c.read(ADDR, 0).unwrap();
    run(&mut transfer, &mut wire);
    assert_eq!(transfer.result(), Some(Ok(())));
    assert_eq!(wire.starts, vec![(ADDR, true, 0)]);

    let mut wire = Wire::with_device(ADDR, &[]);
    let mut transfer = i2c.write_read(ADDR, &[], 0).unwrap();
    run(&mut transfer, &mut wire);
    assert_eq!(transfer.result(), Some(Ok(())));
    assert_eq!(wire.starts, vec![(ADDR, false, 0), (ADDR, true, 0)]);
    assert_eq!(wire.stops, 1);
}

#[test]
fn longest_transfer() {
    let i2c = bus(10);
    let answer: Vec<u8> = (0..255u32).map(|i| (i * 7) as u8).collect();
    let bytes: Vec<u8> = (0..255u32).map(|i| (255 - i) as u8).collect();
    let mut wire = Wire::with_device(0x7F, &answer);
    wire.stretch = 3;
    let mut transfer = i2c.write_read(0x7F, &bytes, 255).unwrap();
    run(&mut transfer, &mut wire);
    assert_eq!(transfer.result(), Some(Ok(())));
    assert_eq!(wire.received, bytes);
    assert_eq!(transfer.received(), &answer[..]);
    assert_eq!(wire.starts, vec![(0x7F, false, 255), (0x7F, true, 255)]);
}

#[test]
fn transfers_that_do_not_fit_are_not_made() {
    let i2c = bus(10);
    let long = vec![0u8; 256];
    assert!(i2c.write(0x80, &[1]).is_none());
    assert!(i2c.write(0xFF, &[]).is_none());
    assert!(i2c.write(ADDR, &long).is_none());
    assert!(i2c.write(ADDR, &long[..255]).is_some());
    assert!(i2c.read(0x80, 1).is_none());
    assert!(i2c.read(ADDR, 256).is_none());
    assert!(i2c.read(ADDR, 255).is_some());
    assert!(i2c.write_read(0x80, &[1], 1).is_none());
    assert!(i2c.write_read(ADDR, &long, 1).is_none());
    assert!(i2c.write_read(ADDR, &[1], 256).is_none());
    assert!(i2c.write_read(0x7F, &long[..255], 255).is_some());
    assert!(transfer_fits(0x7F, 255, 255));
    assert!(!transfer_fits(0x80, 0, 0));
    assert!(!transfer_fits(0, 256, 0));
    assert!(!transfer_fits(0, 0, 256));
}

#[test]
fn unfinished_transfer_has_no_result() {
    let i2c = bus(10);
    let mut transfer = i2c.read(ADDR, 1).unwrap();
    assert_eq!(transfer.stage(), Stage::Begin);
    assert_eq!(transfer.result(), None);
    assert!(!transfer.is_finished());
    transfer.step(0);
    assert_eq!(transfer.stage(), Stage::Poll(Goal::RxReady));
    transfer.step(0);
    assert_eq!(transfer.stage(), Stage::Wait(Goal::RxReady));
    assert_eq!(transfer.step(ISR_RXNE), Action::Read { reg: Reg::I2c1Rxdr });
    assert_eq!(transfer.stage(), Stage::Fetch);
    assert_eq!(transfer.result(), None);
    transfer.step(0x1_42);
    assert_eq!(transfer.received(), &[0x42]);
    assert_eq!(transfer.stage(), Stage::Wait(Goal::RxComplete));
}

#[test]
fn finished_transfer_stays_finished() {
    let i2c = bus(10);
    let mut wire = Wire::with_device(ADDR, &[7]);
    let mut transfer = i2c.read(ADDR, 1).unwrap();
    run(&mut transfer, &mut wire);
    for answer in [0, ISR_NACKF, ISR_ARLO, 0xFFFF_FFFF] {
        assert_eq!(transfer.step(answer), Action::Done);
        assert_eq!(transfer.result(), Some(Ok(())));
        assert_eq!(transfer.received(), &[7]);
    }
}

#[test]
fn goals_and_their_flags() {
    assert!(goal_reached(Goal::TxReady, ISR_TXIS));
    assert!(!goal_reached(Goal::TxReady, !ISR_TXIS));
    assert!(goal_reached(Goal::TxComplete, ISR_TC));
    assert!(!goal_reached(Goal::TxComplete, ISR_TXIS));
    assert!(goal_reached(Goal::RxReady, ISR_RXNE));
    assert!(!goal_reached(Goal::RxReady, ISR_TC));
    assert!(goal_reached(Goal::RxComplete, ISR_TC));
    assert!(!goal_reached(Goal::RxComplete, ISR_RXNE));
    assert!(goal_reached(Goal::Stopped, ISR_STOPF));
    assert!(!goal_reached(Goal::Stopped, 0));
    assert_eq!(
        (ISR_TXIS, ISR_RXNE, ISR_NACKF, ISR_STOPF, ISR_TC, ISR_ARLO),
        (1 << 1, 1 << 2, 1 << 4, 1 << 5, 1 << 6, 1 << 9)
    );
}

#[test]
fn handle_keeps_its_timeout_and_clock() {
    let i2c = bus(10_000);
    assert_eq!(i2c.timeout, 10_000);
    assert_eq!(i2c.pclk1, Hertz(16_000_000));
    assert_eq!((i2c.pins.0.index(), i2c.pins.1.index()), (8, 9));
    assert!(!i2c.read(ADDR, 1).unwrap().is_exclusive());
}
