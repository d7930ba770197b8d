//! General-purpose pins whose electrical mode is part of their type.
//!
//! A pin is a value of type [`Pin`], made once for each physical pin when
//! its port is split. Changing the mode takes the pin and gives back one of
//! another type, together with the register operations that put the hardware
//! in that mode; a peripheral names in its constructor the exact pin types
//! it needs, so a pin in another mode is not accepted by the compiler.

use core::marker::PhantomData;
use vstd::prelude::*;
use crate::pac::{GPIOA, GPIOB};
use crate::register::{field, lemma_set_field, lemma_set_field_other, modified, set_field, spec_set_field, Action, Reg};
use crate::sequence::{Script, ScriptView, Sequencer};

verus! {

/// How an output drives its line.
#[derive(Clone, Copy, Debug, PartialEq, Eq, Structural)]
pub enum Drive {
    /// Both levels are driven.
    PushPull,
    /// Only the low level is driven; the high level is left to a pull-up.
    OpenDrain,
}

/// How fast an output changes level.
#[derive(Clone, Copy, Debug, PartialEq, Eq, Structural)]
pub enum Speed {
    Low,
    Medium,
    High,
    VeryHigh,
}

/// The electrical mode of a pin, as a value.
#[derive(Clone, Copy, Debug, PartialEq, Eq, Structural)]
pub enum Mode {
    /// Digital input.
    Input,
    /// Digital output driven by software.
    Output(Drive),
    /// The pin belongs to a peripheral: the alternate function with the
    /// given number, 0 to 15.
    Alternate(u8, Drive),
    /// Analog input or output.
    Analog,
}

impl Drive {
    /// The bit that selects the drive in the output type register.
    pub open spec fn spec_bit(self) -> u32 {
        match self {
            Drive::PushPull => 0,
            Drive::OpenDrain => 1,
        }
    }

    /// The bit that selects the drive in the output type register.
    #[verifier::when_used_as_spec(spec_bit)]
    pub fn bit(self) -> (b: u32)
        ensures
            b == self.spec_bit(),
    {
        match self {
            Drive::PushPull => 0,
            Drive::OpenDrain => 1,
        }
    }
}

impl Speed {
    /// The code of the speed in the output speed register.
    pub open spec fn spec_code(self) -> u32 {
        match self {
            Speed::Low => 0,
            Speed::Medium => 1,
            Speed::High => 2,
            Speed::VeryHigh => 3,
        }
    }

    /// The code of the speed in the output speed register.
    #[verifier::when_used_as_spec(spec_code)]
    pub fn code(self) -> (c: u32)
        ensures
            c == self.spec_code(),
    {
        match self {
            Speed::Low => 0,
            Speed::Medium => 1,
            Speed::High => 2,
            Speed::VeryHigh => 3,
        }
    }
}

impl Mode {
    /// Whether the hardware has the mode: the number of an alternate
    /// function is below 16.
    pub open spec fn valid(self) -> bool {
        match self {
            Mode::Alternate(af, _) => af < 16,
            _ => true,
        }
    }

    /// The code of the mode in the mode register.
    pub open spec fn spec_code(self) -> u32 {
        match self {
            Mode::Input => 0,
            Mode::Output(_) => 1,
            Mode::Alternate(_, _) => 2,
            Mode::Analog => 3,
        }
    }

    /// The code of the mode in the mode register.
    #[verifier::when_used_as_spec(spec_code)]
    pub fn code(self) -> (c: u32)
        ensures
            c == self.spec_code(),
    {
        match self {
            Mode::Input => 0,
            Mode::Output(_) => 1,
            Mode::Alternate(_, _) => 2,
            Mode::Analog => 3,
        }
    }
}

/// Tag of an output that drives both levels.
#[derive(Debug)]
pub struct PushPull;

/// Tag of an output that drives only the low level.
#[derive(Debug)]
pub struct OpenDrain;

/// Tag of a pin that is a digital input.
#[derive(Debug)]
pub struct Input;

/// Tag of a pin that is analog.
#[derive(Debug)]
pub struct Analog;

/// Tag of a pin that is a digital output with the drive `OTYPE`.
#[derive(Debug)]
pub struct Output<OTYPE = PushPull> {
    _otype: PhantomData<OTYPE>,
}

/// Tag of a pin that carries alternate function `AF` with the drive `OTYPE`.
#[derive(Debug)]
pub struct Alternate<const AF: u8, OTYPE = PushPull> {
    _otype: PhantomData<OTYPE>,
}

/// A tag that names a drive.
pub trait OutputType {
    /// The drive that the tag names.
    spec fn spec_drive() -> Drive;

    /// The drive that the tag names.
    fn drive() -> (d: Drive)
        ensures
            d == Self::spec_drive(),
    ;
}

impl OutputType for PushPull {
    open spec fn spec_drive() -> Drive {
        Drive::PushPull
    }

    fn drive() -> (d: Drive) {
        Drive::PushPull
    }
}

impl OutputType for OpenDrain {
    open spec fn spec_drive() -> Drive {
        Drive::OpenDrain
    }

    fn drive() -> (d: Drive) {
        Drive::OpenDrain
    }
}

/// A tag that names a mode.
pub trait PinMode {
    /// The mode that the tag names.
    spec fn spec_mode() -> Mode;

    /// The mode that the tag names.
    fn mode() -> (m: Mode)
        ensures
            m == Self::spec_mode(),
    ;
}

impl PinMode for Input {
    open spec fn spec_mode() -> Mode {
        Mode::Input
    }

    fn mode() -> (m: Mode) {
        Mode::Input
    }
}

impl PinMode for Analog {
    open spec fn spec_mode() -> Mode {
        Mode::Analog
    }

    fn mode() -> (m: Mode) {
        Mode::Analog
    }
}

impl<OTYPE: OutputType> PinMode for Output<OTYPE> {
    open spec fn spec_mode() -> Mode {
        Mode::Output(OTYPE::spec_drive())
    }

    fn mode() -> (m: Mode) {
        Mode::Output(OTYPE::drive())
    }
}

impl<const AF: u8, OTYPE: OutputType> PinMode for Alternate<AF, OTYPE> {
    open spec fn spec_mode() -> Mode {
        Mode::Alternate(AF, OTYPE::spec_drive())
    }

    fn mode() -> (m: Mode) {
        Mode::Alternate(AF, OTYPE::drive())
    }
}

/// The register that holds the alternate function of pin `index` of `port`.
pub open spec fn function_register(port: u8, index: u8) -> Reg {
    if index < 8 {
        Reg::GpioAfrl(port)
    } else {
        Reg::GpioAfrh(port)
    }
}

/// Where the two-bit fields of pin `index` lie in the mode and speed
/// registers.
pub open spec fn pair_shift(index: u8) -> u32 {
    (2 * index) as u32
}

/// Where the four-bit field of pin `index` lies in its function register.
pub open spec fn function_shift(index: u8) -> u32 {
    (4 * (index % 8)) as u32
}

/// The register operations that put pin `index` of `port` in `mode`, in
/// their order. The mode field is written last, so that the pin changes over
/// only once its function, drive and speed are in place; an input or analog
/// pin needs the mode field alone.
pub open spec fn mode_ops(port: u8, index: u8, mode: Mode, speed: Speed) -> Seq<Action> {
    let i = index as u32;
    let moder = spec_set_field(Reg::GpioModer(port), pair_shift(index), 0x3, mode.spec_code());
    let ospeedr = spec_set_field(
        Reg::GpioOspeedr(port),
        pair_shift(index),
        0x3,
        speed.spec_code(),
    );
    match mode {
        Mode::Input => seq![moder],
        Mode::Analog => seq![moder],
        Mode::Output(drive) => seq![
            spec_set_field(Reg::GpioOtyper(port), i, 0x1, drive.spec_bit()),
            ospeedr,
            moder,
        ],
        Mode::Alternate(af, drive) => seq![
            spec_set_field(function_register(port, index), function_shift(index), 0xF, af as u32),
            spec_set_field(Reg::GpioOtyper(port), i, 0x1, drive.spec_bit()),
            ospeedr,
            moder,
        ],
    }
}

/// One pin of a port, in the mode that `MODE` names. `PORT` is the number of
/// the port, 0 for port A, and `INDEX` the number of the pin in it.
///
/// There is one value for each physical pin, and it cannot be copied.
#[derive(Debug)]
pub struct Pin<const PORT: u8, const INDEX: u8, MODE> {
    speed: Speed,
    _mode: PhantomData<MODE>,
}

impl<const PORT: u8, const INDEX: u8, MODE> Pin<PORT, INDEX, MODE> {
    #[verifier::type_invariant]
    spec fn exists_on_chip(self) -> bool {
        INDEX < 16
    }

    /// The speed at which the pin changes level when it is an output.
    pub closed spec fn spec_speed(&self) -> Speed {
        self.speed
    }

    /// The speed at which the pin changes level when it is an output.
    #[verifier::when_used_as_spec(spec_speed)]
    pub fn speed(&self) -> (s: Speed)
        ensures
            s == self.spec_speed(),
    {
        self.speed
    }

    /// The number of the port of the pin.
    pub fn port(&self) -> (p: u8)
        ensures
            p == PORT,
    {
        PORT
    }

    /// The number of the pin in its port.
    pub fn index(&self) -> (i: u8)
        ensures
            i == INDEX,
            i < 16,
    {
        proof {
            use_type_invariant(self);
        }
        INDEX
    }

    /// Puts the pin in the mode that `M` names. The pin is used up; the pin
    /// that comes back has the new mode in its type, and the script holds the
    /// register operations that put the hardware in that mode.
    pub fn into_mode<M: PinMode>(self) -> (r: (Pin<PORT, INDEX, M>, Script))
        requires
            M::spec_mode().valid(),
        ensures
            r.0.spec_speed() == self.spec_speed(),
            r.1@ == (ScriptView {
                ops: mode_ops(PORT, INDEX, M::spec_mode(), self.spec_speed()),
                pos: 0,
            }),
            Script::inv(r.1@),
    {
        proof {
            use_type_invariant(&self);
        }
        let i: u32 = INDEX as u32;
        let mode = M::mode();
        let moder = set_field(Reg::GpioModer(PORT), 2 * i, 0x3, mode.code());
        let ospeedr = set_field(Reg::GpioOspeedr(PORT), 2 * i, 0x3, self.speed.code());
        let (ops, len): ([Action; 4], usize) = match mode {
            Mode::Input => ([moder, Action::Done, Action::Done, Action::Done], 1),
            Mode::Analog => ([moder, Action::Done, Action::Done, Action::Done], 1),
            Mode::Output(drive) => (
                [
                    set_field(Reg::GpioOtyper(PORT), i, 0x1, drive.bit()),
                    ospeedr,
                    moder,
                    Action::Done,
                ],
                3,
            ),
            Mode::Alternate(af, drive) => {
                let function = if INDEX < 8 {
                    Reg::GpioAfrl(PORT)
                } else {
                    Reg::GpioAfrh(PORT)
                };
                (
                    [
                        set_field(function, 4 * (i % 8), 0xF, af as u32),
                        set_field(Reg::GpioOtyper(PORT), i, 0x1, drive.bit()),
                        ospeedr,
                        moder,
                    ],
                    4,
                )
            },
        };
        assert(ops@.take(len as int) =~= mode_ops(PORT, INDEX, M::spec_mode(), self.spec_speed()));
        (Pin { speed: self.speed, _mode: PhantomData }, Script::new(ops, len))
    }

    /// Changes the speed at which the pin changes level. The script holds
    /// the register operation that sets it.
    pub fn set_speed(self, speed: Speed) -> (r: (Pin<PORT, INDEX, MODE>, Script))
        ensures
            r.0.spec_speed() == speed,
            r.1@ == (ScriptView {
                ops: seq![
                    spec_set_field(
                        Reg::GpioOspeedr(PORT),
                        pair_shift(INDEX),
                        0x3,
                        speed.spec_code(),
                    ),
                ],
                pos: 0,
            }),
            Script::inv(r.1@),
    {
        proof {
            use_type_invariant(&self);
        }
        let ops: [Action; 4] = [
            set_field(Reg::GpioOspeedr(PORT), 2 * (INDEX as u32), 0x3, speed.code()),
            Action::Done,
            Action::Done,
            Action::Done,
        ];
        assert(ops@.take(1) =~= seq![
            spec_set_field(Reg::GpioOspeedr(PORT), pair_shift(INDEX), 0x3, speed.spec_code()),
        ]);
        (Pin { speed, _mode: PhantomData }, Script::new(ops, 1))
    }
}

impl<const PORT: u8, const INDEX: u8, MODE> Pin<PORT, INDEX, MODE> {
    /// Makes the pin a digital input.
    pub fn into_input(self) -> (r: (Pin<PORT, INDEX, Input>, Script))
        ensures
            r.0.spec_speed() == self.spec_speed(),
            r.1@ == (ScriptView {
                ops: mode_ops(PORT, INDEX, Mode::Input, self.spec_speed()),
                pos: 0,
            }),
            Script::inv(r.1@),
    {
        self.into_mode::<Input>()
    }

    /// Makes the pin analog.
    pub fn into_analog(self) -> (r: (Pin<PORT, INDEX, Analog>, Script))
        ensures
            r.0.spec_speed() == self.spec_speed(),
            r.1@ == (ScriptView {
                ops: mode_ops(PORT, INDEX, Mode::Analog, self.spec_speed()),
                pos: 0,
            }),
            Script::inv(r.1@),
    {
        self.into_mode::<Analog>()
    }

    /// Makes the pin a digital output that drives both levels.
    pub fn into_push_pull_output(self) -> (r: (Pin<PORT, INDEX, Output<PushPull>>, Script))
        ensures
            r.0.spec_speed() == self.spec_speed(),
            r.1@ == (ScriptView {
                ops: mode_ops(PORT, INDEX, Mode::Output(Drive::PushPull), self.spec_speed()),
                pos: 0,
            }),
            Script::inv(r.1@),
    {
        self.into_mode::<Output<PushPull>>()
    }

    /// Makes the pin a digital output that drives only the low level.
    pub fn into_open_drain_output(self) -> (r: (Pin<PORT, INDEX, Output<OpenDrain>>, Script))
        ensures
            r.0.spec_speed() == self.spec_speed(),
            r.1@ == (ScriptView {
                ops: mode_ops(PORT, INDEX, Mode::Output(Drive::OpenDrain), self.spec_speed()),
                pos: 0,
            }),
            Script::inv(r.1@),
    {
        self.into_mode::<Output<OpenDrain>>()
    }

    /// Hands the pin to alternate function `AF`, driving both levels.
    pub fn into_alternate<const AF: u8>(self) -> (r: (
        Pin<PORT, INDEX, Alternate<AF, PushPull>>,
        Script,
    ))
        requires
            AF < 16,
        ensures
            r.0.spec_speed() == self.spec_speed(),
            r.1@ == (ScriptView {
                ops: mode_ops(
                    PORT,
                    INDEX,
                    Mode::Alternate(AF, Drive::PushPull),
                    self.spec_speed(),
                ),
                pos: 0,
            }),
            Script::inv(r.1@),
    {
        self.into_mode::<Alternate<AF, PushPull>>()
    }
}

impl<const PORT: u8, const INDEX: u8, const AF: u8> Pin<PORT, INDEX, Alternate<AF, PushPull>> {
    /// Lets the pin drive only the low level, as a shared bus line needs it.
    /// The function of the pin stays.
    pub fn set_open_drain(self) -> (r: (Pin<PORT, INDEX, Alternate<AF, OpenDrain>>, Script))
        requires
            AF < 16,
        ensures
            r.0.spec_speed() == self.spec_speed(),
            r.1@ == (ScriptView {
                ops: mode_ops(
                    PORT,
                    INDEX,
                    Mode::Alternate(AF, Drive::OpenDrain),
                    self.spec_speed(),
                ),
                pos: 0,
            }),
            Script::inv(r.1@),
    {
        self.into_mode::<Alternate<AF, OpenDrain>>()
    }
}

/// The sixteen pins of port `PORT`, as they are after reset: inputs.
#[derive(Debug)]
pub struct Parts<const PORT: u8> {
    pub pin0: Pin<PORT, 0, Input>,
    pub pin1: Pin<PORT, 1, Input>,
    pub pin2: Pin<PORT, 2, Input>,
    pub pin3: Pin<PORT, 3, Input>,
    pub pin4: Pin<PORT, 4, Input>,
    pub pin5: Pin<PORT, 5, Input>,
    pub pin6: Pin<PORT, 6, Input>,
    pub pin7: Pin<PORT, 7, Input>,
    pub pin8: Pin<PORT, 8, Input>,
    pub pin9: Pin<PORT, 9, Input>,
    pub pin10: Pin<PORT, 10, Input>,
    pub pin11: Pin<PORT, 11, Input>,
    pub pin12: Pin<PORT, 12, Input>,
    pub pin13: Pin<PORT, 13, Input>,
    pub pin14: Pin<PORT, 14, Input>,
    pub pin15: Pin<PORT, 15, Input>,
}

impl<const PORT: u8> Parts<PORT> {
    /// Whether every pin is as reset leaves it: at low speed.
    pub open spec fn at_reset(self) -> bool {
        &&& self.pin0.spec_speed() == Speed::Low
        &&& self.pin1.spec_speed() == Speed::Low
        &&& self.pin2.spec_speed() == Speed::Low
        &&& self.pin3.spec_speed() == Speed::Low
        &&& self.pin4.spec_speed() == Speed::Low
        &&& self.pin5.spec_speed() == Speed::Low
        &&& self.pin6.spec_speed() == Speed::Low
        &&& self.pin7.spec_speed() == Speed::Low
        &&& self.pin8.spec_speed() == Speed::Low
        &&& self.pin9.spec_speed() == Speed::Low
        &&& self.pin10.spec_speed() == Speed::Low
        &&& self.pin11.spec_speed() == Speed::Low
        &&& self.pin12.spec_speed() == Speed::Low
        &&& self.pin13.spec_speed() == Speed::Low
        &&& self.pin14.spec_speed() == Speed::Low
        &&& self.pin15.spec_speed() == Speed::Low
    }
}

fn parts<const PORT: u8>() -> (p: Parts<PORT>)
    ensures
        p.at_reset(),
{
    Parts {
        pin0: Pin { speed: Speed::Low, _mode: PhantomData },
        pin1: Pin { speed: Speed::Low, _mode: PhantomData },
        pin2: Pin { speed: Speed::Low, _mode: PhantomData },
        pin3: Pin { speed: Speed::Low, _mode: PhantomData },
        pin4: Pin { speed: Speed::Low, _mode: PhantomData },
        pin5: Pin { speed: Speed::Low, _mode: PhantomData },
        pin6: Pin { speed: Speed::Low, _mode: PhantomData },
        pin7: Pin { speed: Speed::Low, _mode: PhantomData },
        pin8: Pin { speed: Speed::Low, _mode: PhantomData },
        pin9: Pin { speed: Speed::Low, _mode: PhantomData },
        pin10: Pin { speed: Speed::Low, _mode: PhantomData },
        pin11: Pin { speed: Speed::Low, _mode: PhantomData },
        pin12: Pin { speed: Speed::Low, _mode: PhantomData },
        pin13: Pin { speed: Speed::Low, _mode: PhantomData },
        pin14: Pin { speed: Speed::Low, _mode: PhantomData },
        pin15: Pin { speed: Speed::Low, _mode: PhantomData },
    }
}

/// A port that can be split into its pins.
pub trait GpioExt {
    /// The pins of the port.
    type Parts;

    /// Gives up the port for its pins. The port is used up, so each pin is
    /// made once.
    fn split(self) -> Self::Parts;
}

impl GpioExt for GPIOA {
    type Parts = Parts<0>;

    fn split(self) -> (p: Parts<0>)
        ensures
            p.at_reset(),
    {
        parts::<0>()
    }
}

impl GpioExt for GPIOB {
    type Parts = Parts<1>;

    fn split(self) -> (p: Parts<1>)
        ensures
            p.at_reset(),
    {
        parts::<1>()
    }
}

/// Pin 11 of port A: the D- line of the full-speed USB controller.
pub type PA11<MODE> = Pin<0, 11, MODE>;

/// Pin 12 of port A: the D+ line of the full-speed USB controller.
pub type PA12<MODE> = Pin<0, 12, MODE>;

/// Pin 8 of port B: the clock line of the first I2C controller.
pub type PB8<MODE> = Pin<1, 8, MODE>;

/// Pin 9 of port B: the data line of the first I2C controller.
pub type PB9<MODE> = Pin<1, 9, MODE>;

/// Pin 14 of port B: the D- line of the high-speed USB controller.
pub type PB14<MODE> = Pin<1, 14, MODE>;

/// Pin 15 of port B: the D+ line of the high-speed USB controller.
pub type PB15<MODE> = Pin<1, 15, MODE>;

/// What the registers of one port hold that decides the modes of its pins.
pub struct PortImage {
    pub moder: u32,
    pub otyper: u32,
    pub ospeedr: u32,
    pub afrl: u32,
    pub afrh: u32,
}

/// What the registers of `port` hold after `action` was performed on them.
pub open spec fn performed(image: PortImage, port: u8, action: Action) -> PortImage {
    match action {
        Action::Modify { reg, clear, set } => if reg == Reg::GpioModer(port) {
            PortImage { moder: modified(image.moder, clear, set), ..image }
        } else if reg == Reg::GpioOtyper(port) {
            PortImage { otyper: modified(image.otyper, clear, set), ..image }
        } else if reg == Reg::GpioOspeedr(port) {
            PortImage { ospeedr: modified(image.ospeedr, clear, set), ..image }
        } else if reg == Reg::GpioAfrl(port) {
            PortImage { afrl: modified(image.afrl, clear, set), ..image }
        } else if reg == Reg::GpioAfrh(port) {
            PortImage { afrh: modified(image.afrh, clear, set), ..image }
        } else {
            image
        },
        _ => image,
    }
}

/// What the registers of `port` hold after the first `count` of `ops` were
/// performed on them in order.
pub open spec fn performed_all(image: PortImage, port: u8, ops: Seq<Action>, count: nat) -> PortImage
    decreases count,
{
    if count == 0 {
        image
    } else {
        performed(performed_all(image, port, ops, (count - 1) as nat), port, ops[count - 1])
    }
}

/// The mode of pin `index` as the registers of its port give it.
pub open spec fn mode_in(image: PortImage, index: u8) -> Mode {
    let code = field(image.moder, pair_shift(index), 0x3);
    let drive = if field(image.otyper, index as u32, 0x1) == 1 {
        Drive::OpenDrain
    } else {
        Drive::PushPull
    };
    let functions = if index < 8 {
        image.afrl
    } else {
        image.afrh
    };
    let function = field(functions, function_shift(index), 0xF) as u8;
    if code == 0 {
        Mode::Input
    } else if code == 1 {
        Mode::Output(drive)
    } else if code == 2 {
        Mode::Alternate(function, drive)
    } else {
        Mode::Analog
    }
}

/// The code of the speed of pin `index` as the registers of its port give it.
pub open spec fn speed_in(image: PortImage, index: u8) -> u32 {
    field(image.ospeedr, pair_shift(index), 0x3)
}

proof fn lemma_pin_fields(i: u32, j: u32)
    by (bit_vector)
    requires
        i < 16,
        j < 16,
    ensures
        (0x3u32 << (2 * i)) >> (2 * i) == 0x3,
        (0x1u32 << i) >> i == 0x1,
        (0xFu32 << (4 * (i % 8))) >> (4 * (i % 8)) == 0xF,
        i != j ==> (0x3u32 << (2 * i)) & (0x3u32 << (2 * j)) == 0,
        i != j ==> (0x1u32 << i) & (0x1u32 << j) == 0,
        i % 8 != j % 8 ==> (0xFu32 << (4 * (i % 8))) & (0xFu32 << (4 * (j % 8))) == 0,
{
}

proof fn lemma_codes_fit(code: u32, bit: u32, function: u32)
    by (bit_vector)
    requires
        code < 4,
        bit < 2,
        function < 16,
    ensures
        code & 0x3 == code,
        bit & 0x1 == bit,
        function & 0xF == function,
{
}

/// Once the operations of [`mode_ops`] were performed on the registers of
/// its port, a pin reads as being in the mode they were made for, and, where
/// that mode is an output or an alternate function, at the speed they were
/// made for.
pub proof fn lemma_mode_ops_set(image: PortImage, port: u8, index: u8, mode: Mode, speed: Speed)
    requires
        index < 16,
        mode.valid(),
    ensures
        ({
            let ops = mode_ops(port, index, mode, speed);
            let after = performed_all(image, port, ops, ops.len());
            &&& mode_in(after, index) == mode
            &&& (mode is Output || mode is Alternate) ==> speed_in(after, index)
                == speed.spec_code()
        }),
{
    let ops = mode_ops(port, index, mode, speed);
    let i = index as u32;
    reveal_with_fuel(performed_all, 5);
    lemma_pin_fields(i, i);
    let function: u32 = match mode {
        Mode::Alternate(af, _) => af as u32,
        _ => 0,
    };
    let bit: u32 = match mode {
        Mode::Alternate(_, d) => d.spec_bit(),
        Mode::Output(d) => d.spec_bit(),
        _ => 0,
    };
    lemma_codes_fit(mode.spec_code(), bit, function);
    lemma_codes_fit(speed.spec_code(), bit, function);
    lemma_set_field(image.moder, pair_shift(index), 0x3, mode.spec_code());
    lemma_set_field(image.ospeedr, pair_shift(index), 0x3, speed.spec_code());
    lemma_set_field(image.otyper, i, 0x1, bit);
    lemma_set_field(image.afrl, function_shift(index), 0xF, function);
    lemma_set_field(image.afrh, function_shift(index), 0xF, function);
}

/// The operations of [`mode_ops`] for one pin leave every other pin of the
/// port as it was: in the mode and at the speed it reads as before.
pub proof fn lemma_mode_ops_keep(
    image: PortImage,
    port: u8,
    index: u8,
    mode: Mode,
    speed: Speed,
    other: u8,
)
    requires
        index < 16,
        other < 16,
        other != index,
        mode.valid(),
    ensures
        ({
            let ops = mode_ops(port, index, mode, speed);
            let after = performed_all(image, port, ops, ops.len());
            &&& mode_in(after, other) == mode_in(image, other)
            &&& speed_in(after, other) == speed_in(image, other)
        }),
{
    let ops = mode_ops(port, index, mode, speed);
    let i = index as u32;
    let j = other as u32;
    reveal_with_fuel(performed_all, 5);
    lemma_pin_fields(i, j);
    let function: u32 = match mode {
        Mode::Alternate(af, _) => af as u32,
        _ => 0,
    };
    let bit: u32 = match mode {
        Mode::Alternate(_, d) => d.spec_bit(),
        Mode::Output(d) => d.spec_bit(),
        _ => 0,
    };
    lemma_codes_fit(mode.spec_code(), bit, function);
    lemma_codes_fit(speed.spec_code(), bit, function);
    lemma_set_field_other(image.moder, pair_shift(index), 0x3, mode.spec_code(), pair_shift(other), 0x3);
    lemma_set_field_other(
        image.ospeedr,
        pair_shift(index),
        0x3,
        speed.spec_code(),
        pair_shift(other),
        0x3,
    );
    lemma_set_field_other(image.otyper, i, 0x1, bit, j, 0x1);
    if (index < 8) == (other < 8) {
        lemma_set_field_other(
            image.afrl,
            function_shift(index),
            0xF,
            function,
            function_shift(other),
            0xF,
        );
        lemma_set_field_other(
            image.afrh,
            function_shift(index),
            0xF,
            function,
            function_shift(other),
            0xF,
        );
    }
}

} // verus!
