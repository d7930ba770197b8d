use stm32f7xx_hal::gpio::{
    Alternate, Analog, Drive, GpioExt, Input, Mode, OpenDrain, Output, Pin, PinMode, PushPull,
    Speed,
};
use stm32f7xx_hal::pac::Peripherals;
use stm32f7xx_hal::register::{apply_modify, read_field, Action, Reg};
use stm32f7xx_hal::sequence::{Script, Sequencer};

fn peripherals() -> Peripherals {
    let mut taken = false;
    Peripherals::take(&mut taken).unwrap()
}

/// The registers of one port.
#[derive(Clone, Copy, Debug, PartialEq)]
struct Port {
    moder: u32,
    otyper: u32,
    ospeedr: u32,
    afrl: u32,
    afrh: u32,
}

impl Port {
    fn filled(word: u32) -> Port {
        Port { moder: word, otyper: word & 0xFFFF, ospeedr: word, afrl: word, afrh: word }
    }

    fn perform(&mut self, port: u8, mut script: Script) {
        loop {
            match script.step(0) {
                Action::Modify { reg, clear, set } => {
                    let word = if reg == Reg::GpioModer(port) {
                        &mut self.moder
                    } else if reg == Reg::GpioOtyper(port) {
                        &mut self.otyper
                    } else if reg == Reg::GpioOspeedr(port) {
                        &mut self.ospeedr
                    } else if reg == Reg::GpioAfrl(port) {
                        &mut self.afrl
                    } else if reg == Reg::GpioAfrh(port) {
                        &mut self.afrh
                    } else {
                        panic!("a register of another block: {:?}", reg)
                    };
                    *word = apply_modify(*word, clear, set);
                }
                Action::Done => return,
                other => panic!("not an operation on a port: {:?}", other),
            }
        }
    }

    fn mode(&self, index: u32) -> Mode {
        let drive = if read_field(self.otyper, index, 1) == 1 {
            Drive::OpenDrain
        } else {
            Drive::PushPull
        };
        let functions = if index < 8 { self.afrl } else { self.afrh };
        let function = read_field(functions, 4 * (index % 8), 0xF) as u8;
        match read_field(self.moder, 2 * index, 3) {
            0 => Mode::Input,
            1 => Mode::Output(drive),
            2 => Mode::Alternate(function, drive),
            _ => Mode::Analog,
        }
    }

    fn speed(&self, index: u32) -> u32 {
        read_field(self.ospeedr, 2 * index, 3)
    }
}

fn ops_of(script: Script) -> Vec<Action> {
    (0..script.len()).map(|i| script.op(i)).collect()
}

#[test]
fn alternate_function_12_on_pb14() {
    let gpiob = peripherals().GPIOB.split();
    let (pin, script) = gpiob.pin14.into_alternate::<12>();
    assert_eq!((pin.port(), pin.index()), (1, 14));
    assert_eq!(pin.speed(), Speed::Low);
    assert_eq!(
        ops_of(script),
        vec![
            Action::Modify { reg: Reg::GpioAfrh(1), clear: 0xF << 24, set: 12 << 24 },
            Action::Modify { reg: Reg::GpioOtyper(1), clear: 1 << 14, set: 0 },
            Action::Modify { reg: Reg::GpioOspeedr(1), clear: 3 << 28, set: 0 },
            Action::Modify { reg: Reg::GpioModer(1), clear: 3 << 28, set: 2 << 28 },
        ]
    );
}

#[test]
fn open_drain_alternate_function_4_on_pb8() {
    let gpiob = peripherals().GPIOB.split();
    let (pin, _) = gpiob.pin8.into_alternate::<4>();
    let (pin, script) = pin.set_open_drain();
    assert_eq!((pin.port(), pin.index()), (1, 8));
    assert_eq!(
        ops_of(script),
        vec![
            Action::Modify { reg: Reg::GpioAfrh(1), clear: 0xF, set: 4 },
            Action::Modify { reg: Reg::GpioOtyper(1), clear: 1 << 8, set: 1 << 8 },
            Action::Modify { reg: Reg::GpioOspeedr(1), clear: 3 << 16, set: 0 },
            Action::Modify { reg: Reg::GpioModer(1), clear: 3 << 16, set: 2 << 16 },
        ]
    );
}

#[test]
fn low_pins_use_the_low_function_register() {
    let gpioa = peripherals().GPIOA.split();
    let (_, script) = gpioa.pin7.into_mode::<Alternate<15, OpenDrain>>();
    assert_eq!(
        ops_of(script)[0],
        Action::Modify { reg: Reg::GpioAfrl(0), clear: 0xF << 28, set: 15 << 28 }
    );
    let gpioa = peripherals().GPIOA.split();
    let (_, script) = gpioa.pin0.into_alternate::<0>();
    assert_eq!(ops_of(script)[0], Action::Modify { reg: Reg::GpioAfrl(0), clear: 0xF, set: 0 });
}

#[test]
fn input_and_analog_need_the_mode_field_alone() {
    let gpioa = peripherals().GPIOA.split();
    let (pin, script) = gpioa.pin3.into_analog();
    assert_eq!(
        ops_of(script),
        vec![Action::Modify { reg: Reg::GpioModer(0), clear: 3 << 6, set: 3 << 6 }]
    );
    let (_, script) = pin.into_input();
    assert_eq!(
        ops_of(script),
        vec![Action::Modify { reg: Reg::GpioModer(0), clear: 3 << 6, set: 0 }]
    );
}

#[test]
fn outputs_set_drive_speed_and_mode() {
    let gpioa = peripherals().GPIOA.split();
    let (pin, speed_script) = gpioa.pin5.set_speed(Speed::VeryHigh);
    assert_eq!(
        ops_of(speed_script),
        vec![Action::Modify { reg: Reg::GpioOspeedr(0), clear: 3 << 10, set: 3 << 10 }]
    );
    assert_eq!(pin.speed(), Speed::VeryHigh);
    let (pin, script) = pin.into_open_drain_output();
    assert_eq!(pin.speed(), Speed::VeryHigh);
    assert_eq!(
        ops_of(script),
        vec![
            Action::Modify { reg: Reg::GpioOtyper(0), clear: 1 << 5, set: 1 << 5 },
            Action::Modify { reg: Reg::GpioOspeedr(0), clear: 3 << 10, set: 3 << 10 },
            Action::Modify { reg: Reg::GpioModer(0), clear: 3 << 10, set: 1 << 10 },
        ]
    );
    let (_, script) = pin.into_push_pull_output();
    assert_eq!(ops_of(script)[0], Action::Modify { reg: Reg::GpioOtyper(0), clear: 1 << 5, set: 0 });
}

#[test]
fn tags_name_their_modes() {
    assert_eq!(Input::mode(), Mode::Input);
    assert_eq!(Analog::mode(), Mode::Analog);
    assert_eq!(<Output<PushPull>>::mode(), Mode::Output(Drive::PushPull));
    assert_eq!(<Output<OpenDrain>>::mode(), Mode::Output(Drive::OpenDrain));
    assert_eq!(<Alternate<12>>::mode(), Mode::Alternate(12, Drive::PushPull));
    assert_eq!(<Alternate<4, OpenDrain>>::mode(), Mode::Alternate(4, Drive::OpenDrain));
    assert_eq!(
        (Mode::Input.code(), Mode::Output(Drive::PushPull).code()),
        (0, 1)
    );
    assert_eq!(
        (Mode::Alternate(3, Drive::OpenDrain).code(), Mode::Analog.code()),
        (2, 3)
    );
    assert_eq!((Drive::PushPull.bit(), Drive::OpenDrain.bit()), (0, 1));
    assert_eq!(
        [Speed::Low.code(), Speed::Medium.code(), Speed::High.code(), Speed::VeryHigh.code()],
        [0, 1, 2, 3]
    );
}

#[test]
fn a_pin_reads_as_the_mode_it_was_put_in() {
    for word in [0u32, 0xFFFF_FFFF, 0xA5A5_5A5A, 0x1234_5678] {
        let mut port = Port::filled(word);
        let gpiob = peripherals().GPIOB.split();

        let (pin, script) = gpiob.pin9.into_alternate::<4>();
        port.perform(1, script);
        assert_eq!(port.mode(9), Mode::Alternate(4, Drive::PushPull));
        assert_eq!(port.speed(9), 0);

        let (pin, script) = pin.set_open_drain();
        port.perform(1, script);
        assert_eq!(port.mode(9), Mode::Alternate(4, Drive::OpenDrain));

        let (pin, script) = pin.set_speed(Speed::High);
        port.perform(1, script);
        assert_eq!(port.speed(9), 2);

        let (pin, script) = pin.into_push_pull_output();
        port.perform(1, script);
        assert_eq!(port.mode(9), Mode::Output(Drive::PushPull));
        assert_eq!(port.speed(9), 2);

        let (pin, script) = pin.into_analog();
        port.perform(1, script);
        assert_eq!(port.mode(9), Mode::Analog);

        let (_, script) = pin.into_input();
        port.perform(1, script);
        assert_eq!(port.mode(9), Mode::Input);
    }
}

#[test]
fn other_pins_are_left_as_they_were() {
    for word in [0u32, 0xFFFF_FFFF, 0xA5A5_5A5A, 0x1234_5678] {
        let before = Port::filled(word);
        let gpiob = peripherals().GPIOB.split();
        let changes: Vec<(u32, Script)> = vec![
            (0, gpiob.pin0.into_mode::<Alternate<7, OpenDrain>>().1),
            (7, gpiob.pin7.into_push_pull_output().1),
            (8, gpiob.pin8.into_alternate::<4>().1),
            (15, gpiob.pin15.into_analog().1),
        ];
        for (index, script) in changes {
            let mut after = before;
            after.perform(1, script);
            for other in 0..16 {
                if other != index {
                    assert_eq!(after.mode(other), before.mode(other));
                    assert_eq!(after.speed(other), before.speed(other));
                }
            }
        }
    }
}

#[test]
fn split_gives_sixteen_inputs_at_low_speed() {
    let gpioa = peripherals().GPIOA.split();
    let first: &Pin<0, 0, Input> = &gpioa.pin0;
    let last: &Pin<0, 15, Input> = &gpioa.pin15;
    assert_eq!((first.port(), first.index(), first.speed()), (0, 0, Speed::Low));
    assert_eq!((last.port(), last.index(), last.speed()), (0, 15, Speed::Low));
    let gpiob = peripherals().GPIOB.split();
    assert_eq!((gpiob.pin11.port(), gpiob.pin11.index()), (1, 11));
    assert_eq!(gpiob.pin12.speed(), Speed::Low);
}
