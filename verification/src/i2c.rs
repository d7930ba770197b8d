//! Blocking transactions on the I2C bus, as its controller.
//!
//! A transaction is a [`Transfer`]: it starts the bus, moves the bytes one
//! by one as the hardware becomes ready for them, stops the bus and waits
//! for it to be idle. Every wait reads the status a bounded number of times,
//! so a transfer ends whatever the device and the bus do; what went wrong is
//! reported as an [`Error`] and the bus is released first. What holds of
//! every run of a transfer is stated and proved in [`laws`].

pub mod laws;

use vstd::prelude::*;
use vstd::slice::slice_subrange;
use crate::gpio::{Alternate, OpenDrain, PB8, PB9};
use crate::pac::I2C1;
use crate::rcc::Clocks;
use crate::register::{Action, Reg};
use crate::sequence::{Bounded, Sequencer};
use crate::time::Hertz;

verus! {

/// Status: the transmit register wants the next byte.
pub const ISR_TXIS: u32 = 0x0000_0002;

/// Status: the receive register holds a byte.
pub const ISR_RXNE: u32 = 0x0000_0004;

/// Status: the device did not acknowledge.
pub const ISR_NACKF: u32 = 0x0000_0010;

/// Status: a stop condition was seen on the bus.
pub const ISR_STOPF: u32 = 0x0000_0020;

/// Status: all bytes of the phase were moved.
pub const ISR_TC: u32 = 0x0000_0040;

/// Status: another controller won the bus.
pub const ISR_ARLO: u32 = 0x0000_0200;

/// Control: the phase reads from the device.
pub const CR2_RD_WRN: u32 = 0x0000_0400;

/// Control: generate a start condition and send the address.
pub const CR2_START: u32 = 0x0000_2000;

/// Control: generate a stop condition.
pub const CR2_STOP: u32 = 0x0000_4000;

/// Flag clear: not-acknowledged and stop, the two flags left after a
/// failed phase.
pub const ICR_RELEASE: u32 = 0x0000_0030;

/// Flag clear: stop.
pub const ICR_STOPCF: u32 = 0x0000_0020;

/// Flag clear: arbitration lost.
pub const ICR_ARLOCF: u32 = 0x0000_0200;

/// The highest address of a device.
pub const MAX_ADDRESS: u8 = 0x7F;

/// The most bytes that one phase of a transfer moves: what the byte counter
/// of the controller holds.
pub const MAX_BYTES: usize = 255;

/// Why a transfer failed. The caller may try again after any of them.
#[derive(Clone, Copy, Debug, PartialEq, Eq, Structural)]
pub enum Error {
    /// The device did not acknowledge; where that happens before the first
    /// byte, no device answers at the address.
    NotAcknowledged,
    /// A status flag did not come up within the reads allowed: the bus is
    /// stuck or the device holds the clock for too long.
    Timeout,
    /// Another controller won the bus.
    ArbitrationLost,
}

/// What a transfer moves.
#[derive(Clone, Copy, Debug, PartialEq, Eq, Structural)]
pub enum Kind {
    /// Bytes to the device.
    Write,
    /// Bytes from the device.
    Read,
    /// Bytes to the device, then, after a repeated start, bytes from it.
    WriteRead,
}

/// What a wait waits for.
#[derive(Clone, Copy, Debug, PartialEq, Eq, Structural)]
pub enum Goal {
    /// The transmit register wants the next byte.
    TxReady,
    /// All bytes to the device were moved.
    TxComplete,
    /// The receive register holds the next byte.
    RxReady,
    /// All bytes from the device were moved.
    RxComplete,
    /// The stop condition is out and the bus is idle.
    Stopped,
}

/// Where a transfer stands. Each stage names what the next step does.
#[derive(Clone, Copy, Debug, PartialEq, Eq, Structural)]
pub enum Stage {
    /// Start the bus for the first phase.
    Begin,
    /// Ask for the status a first time, on the way to the goal.
    Poll(Goal),
    /// Look at the status that was read: fail on an error flag, go on where
    /// the goal is reached, else ask again or give up.
    Wait(Goal),
    /// Take the byte that was read from the receive register.
    Fetch,
    /// The bus was stopped after a failure; clear the flags it left.
    Release,
    /// Nothing is left to do.
    Finished,
}

/// What a [`Transfer`] is made of.
pub struct TransferView {
    /// What the transfer moves.
    pub kind: Kind,
    /// The address of the device.
    pub address: u8,
    /// The bytes for the device.
    pub tx: Seq<u8>,
    /// How many bytes the device is asked for.
    pub rx_len: nat,
    /// How often a wait reads the status before it gives up.
    pub timeout: u32,
    /// How many bytes went to the device.
    pub sent: nat,
    /// The bytes that came from the device.
    pub rx: Seq<u8>,
    /// How often the wait in progress read the status in vain.
    pub polls: u32,
    /// The stage the transfer is in.
    pub stage: Stage,
    /// What went wrong, if anything did.
    pub failure: Option<Error>,
}

/// The word that starts a phase: the address in bits 1 to 7, the direction,
/// the start request, and the number of bytes in bits 16 to 23. The end of
/// the phase is left to software.
pub open spec fn start_word(address: u8, read: bool, count: nat) -> u32 {
    ((address as u32) << 1) | (if read {
        CR2_RD_WRN
    } else {
        0
    }) | CR2_START | ((count as u32) << 16)
}

/// Whether the status `input` shows that `goal` is reached.
pub open spec fn reached(goal: Goal, input: u32) -> bool {
    match goal {
        Goal::TxReady => input & ISR_TXIS != 0,
        Goal::TxComplete => input & ISR_TC != 0,
        Goal::RxReady => input & ISR_RXNE != 0,
        Goal::RxComplete => input & ISR_TC != 0,
        Goal::Stopped => input & ISR_STOPF != 0,
    }
}

/// The byte that a read of the receive register brought.
pub open spec fn data_byte(input: u32) -> u8 {
    (input & 0xFF) as u8
}

impl TransferView {
    /// What the first wait of the phase to the device waits for.
    pub open spec fn tx_goal(self) -> Goal {
        if self.sent < self.tx.len() {
            Goal::TxReady
        } else {
            Goal::TxComplete
        }
    }

    /// What the first wait of the phase from the device waits for.
    pub open spec fn rx_goal(self) -> Goal {
        if self.rx.len() < self.rx_len {
            Goal::RxReady
        } else {
            Goal::RxComplete
        }
    }

    /// What the first wait of the transfer waits for.
    pub open spec fn first_goal(self) -> Goal {
        if self.kind == Kind::Read {
            self.rx_goal()
        } else {
            self.tx_goal()
        }
    }

    /// The word that starts the first phase.
    pub open spec fn first_start(self) -> u32 {
        if self.kind == Kind::Read {
            start_word(self.address, true, self.rx_len)
        } else {
            start_word(self.address, false, self.tx.len())
        }
    }

    /// The step that ends a transfer in failure with the bus stopped.
    pub open spec fn fail(self, error: Error) -> (TransferView, Action) {
        (
            TransferView { stage: Stage::Release, polls: 0, failure: Some(error), ..self },
            Action::Write { reg: Reg::I2c1Cr2, value: CR2_STOP },
        )
    }

    /// The step that stops the bus at the end of the last phase.
    pub open spec fn stop(self) -> (TransferView, Action) {
        (
            TransferView { stage: Stage::Poll(Goal::Stopped), polls: 0, ..self },
            Action::Write { reg: Reg::I2c1Cr2, value: CR2_STOP },
        )
    }

    /// The step of a wait whose goal is reached.
    pub open spec fn advance(self, goal: Goal) -> (TransferView, Action) {
        match goal {
            Goal::TxReady => {
                let moved = TransferView { sent: self.sent + 1, polls: 0, ..self };
                (
                    TransferView { stage: Stage::Poll(moved.tx_goal()), ..moved },
                    Action::Write { reg: Reg::I2c1Txdr, value: self.tx[self.sent as int] as u32 },
                )
            },
            Goal::TxComplete => if self.kind == Kind::WriteRead {
                (
                    TransferView { stage: Stage::Poll(self.rx_goal()), polls: 0, ..self },
                    Action::Write {
                        reg: Reg::I2c1Cr2,
                        value: start_word(self.address, true, self.rx_len),
                    },
                )
            } else {
                self.stop()
            },
            Goal::RxReady => (
                TransferView { stage: Stage::Fetch, polls: 0, ..self },
                Action::Read { reg: Reg::I2c1Rxdr },
            ),
            Goal::RxComplete => self.stop(),
            Goal::Stopped => (
                TransferView { stage: Stage::Finished, polls: 0, ..self },
                Action::Write { reg: Reg::I2c1Icr, value: ICR_STOPCF },
            ),
        }
    }

    /// The step of a wait that was fed the status `input`. A lost
    /// arbitration ends the transfer at once, for the bus is another's; a
    /// missing acknowledge, and a goal that does not come within the reads
    /// allowed, stop the bus and end the transfer.
    pub open spec fn judge(self, goal: Goal, input: u32) -> (TransferView, Action) {
        if input & ISR_ARLO != 0 {
            (
                TransferView {
                    stage: Stage::Finished,
                    polls: 0,
                    failure: Some(Error::ArbitrationLost),
                    ..self
                },
                Action::Write { reg: Reg::I2c1Icr, value: ICR_ARLOCF },
            )
        } else if input & ISR_NACKF != 0 {
            self.fail(Error::NotAcknowledged)
        } else if reached(goal, input) {
            self.advance(goal)
        } else if self.polls + 1 >= self.timeout {
            self.fail(Error::Timeout)
        } else {
            (
                TransferView { polls: (self.polls + 1) as u32, ..self },
                Action::Read { reg: Reg::I2c1Isr },
            )
        }
    }

    /// Whether a wait for `goal` is in place, by the bytes moved so far.
    pub open spec fn fits(self, goal: Goal) -> bool {
        match goal {
            Goal::TxReady => self.kind != Kind::Read && self.sent < self.tx.len() && self.rx.len()
                == 0,
            Goal::TxComplete => self.kind != Kind::Read && self.sent == self.tx.len()
                && self.rx.len() == 0,
            Goal::RxReady => self.kind != Kind::Write && self.sent == self.tx.len()
                && self.rx.len() < self.rx_len,
            Goal::RxComplete => self.kind != Kind::Write && self.sent == self.tx.len()
                && self.rx.len() == self.rx_len,
            Goal::Stopped => self.sent == self.tx.len() && self.rx.len() == self.rx_len,
        }
    }

    /// Whether the transfer has ended without a failure, all bytes moved.
    pub open spec fn succeeded(self) -> bool {
        self.stage == Stage::Finished && self.failure is None
    }
}

/// A transaction on the bus in progress. It holds the bytes for the device
/// and the bytes from it in itself, and so needs no memory but its own.
#[derive(Debug)]
pub struct Transfer {
    kind: Kind,
    address: u8,
    tx: [u8; MAX_BYTES],
    tx_len: usize,
    rx_len: usize,
    timeout: u32,
    sent: usize,
    rx: [u8; MAX_BYTES],
    rx_count: usize,
    polls: u32,
    stage: Stage,
    failure: Option<Error>,
}

impl View for Transfer {
    type V = TransferView;

    closed spec fn view(&self) -> TransferView {
        TransferView {
            kind: self.kind,
            address: self.address,
            tx: self.tx@.take(self.tx_len as int),
            rx_len: self.rx_len as nat,
            timeout: self.timeout,
            sent: self.sent as nat,
            rx: self.rx@.take(self.rx_count as int),
            polls: self.polls,
            stage: self.stage,
            failure: self.failure,
        }
    }
}

impl Sequencer for Transfer {
    open spec fn next(v: TransferView, input: u32) -> (TransferView, Action) {
        match v.stage {
            Stage::Begin => (
                TransferView { stage: Stage::Poll(v.first_goal()), polls: 0, ..v },
                Action::Write { reg: Reg::I2c1Cr2, value: v.first_start() },
            ),
            Stage::Poll(goal) => (
                TransferView { stage: Stage::Wait(goal), polls: 0, ..v },
                Action::Read { reg: Reg::I2c1Isr },
            ),
            Stage::Wait(goal) => v.judge(goal, input),
            Stage::Fetch => {
                let taken = TransferView { rx: v.rx.push(data_byte(input)), polls: 0, ..v };
                (
                    TransferView { stage: Stage::Wait(taken.rx_goal()), ..taken },
                    Action::Read { reg: Reg::I2c1Isr },
                )
            },
            Stage::Release => (
                TransferView { stage: Stage::Finished, polls: 0, ..v },
                Action::Write { reg: Reg::I2c1Icr, value: ICR_RELEASE },
            ),
            Stage::Finished => (v, Action::Done),
        }
    }

    open spec fn inv(v: TransferView) -> bool {
        &&& v.address <= MAX_ADDRESS
        &&& v.tx.len() <= MAX_BYTES
        &&& v.rx_len <= MAX_BYTES
        &&& v.sent <= v.tx.len()
        &&& v.rx.len() <= v.rx_len
        &&& (v.polls == 0 || v.polls < v.timeout)
        &&& v.kind == Kind::Read ==> v.tx.len() == 0
        &&& v.kind == Kind::Write ==> v.rx_len == 0
        &&& match v.stage {
            Stage::Begin => v.sent == 0 && v.rx.len() == 0 && v.failure is None && v.polls == 0,
            Stage::Poll(goal) => v.fits(goal) && v.failure is None,
            Stage::Wait(goal) => v.fits(goal) && v.failure is None,
            Stage::Fetch => v.fits(Goal::RxReady) && v.failure is None,
            Stage::Release => v.failure == Some(Error::NotAcknowledged) || v.failure == Some(
                Error::Timeout,
            ),
            Stage::Finished => v.failure is None ==> v.fits(Goal::Stopped),
        }
    }

    open spec fn exclusive() -> bool {
        false
    }

    fn is_exclusive(&self) -> (masked: bool) {
        false
    }

    proof fn lemma_next_inv(v: TransferView, input: u32) {
    }

    fn step(&mut self, input: u32) -> (action: Action) {
        proof {
            use_type_invariant(&*self);
        }
        match self.stage {
            Stage::Begin => {
                let (goal, word) = match self.kind {
                    Kind::Read => (self.rx_goal(), self.start(true)),
                    _ => (self.tx_goal(), self.start(false)),
                };
                self.stage = Stage::Poll(goal);
                self.polls = 0;
                Action::Write { reg: Reg::I2c1Cr2, value: word }
            },
            Stage::Poll(goal) => {
                self.stage = Stage::Wait(goal);
                self.polls = 0;
                Action::Read { reg: Reg::I2c1Isr }
            },
            Stage::Wait(goal) => {
                if input & ISR_ARLO != 0 {
                    self.stage = Stage::Finished;
                    self.polls = 0;
                    self.failure = Some(Error::ArbitrationLost);
                    Action::Write { reg: Reg::I2c1Icr, value: ICR_ARLOCF }
                } else if input & ISR_NACKF != 0 {
                    self.fail(Error::NotAcknowledged)
                } else if goal_reached(goal, input) {
                    self.advance(goal)
                } else if self.polls + 1 >= self.timeout {
                    self.fail(Error::Timeout)
                } else {
                    self.polls = self.polls + 1;
                    Action::Read { reg: Reg::I2c1Isr }
                }
            },
            Stage::Fetch => {
                let low: u32 = input & 0xFF;
                assert(low < 0x100) by (bit_vector)
                    requires
                        low == input & 0xFF,
                ;
                let ghost before = self.rx@;
                self.rx[self.rx_count] = low as u8;
                self.rx_count = self.rx_count + 1;
                assert(self.rx@.take(self.rx_count as int) =~= before.take(
                    self.rx_count - 1,
                ).push(low as u8));
                self.polls = 0;
                self.stage = Stage::Wait(self.rx_goal());
                Action::Read { reg: Reg::I2c1Isr }
            },
            Stage::Release => {
                self.stage = Stage::Finished;
                self.polls = 0;
                Action::Write { reg: Reg::I2c1Icr, value: ICR_RELEASE }
            },
            Stage::Finished => Action::Done,
        }
    }
}

/// Tells from the status `input` whether `goal` is reached.
pub fn goal_reached(goal: Goal, input: u32) -> (r: bool)
    ensures
        r == reached(goal, input),
{
    match goal {
        Goal::TxReady => input & ISR_TXIS != 0,
        Goal::TxComplete => input & ISR_TC != 0,
        Goal::RxReady => input & ISR_RXNE != 0,
        Goal::RxComplete => input & ISR_TC != 0,
        Goal::Stopped => input & ISR_STOPF != 0,
    }
}

impl Transfer {
    #[verifier::type_invariant]
    spec fn fits(self) -> bool {
        self.tx_len <= MAX_BYTES && self.rx_count <= MAX_BYTES
    }

    fn tx_goal(&self) -> (goal: Goal)
        ensures
            goal == self@.tx_goal(),
    {
        proof {
            use_type_invariant(self);
        }
        if self.sent < self.tx_len {
            Goal::TxReady
        } else {
            Goal::TxComplete
        }
    }

    fn rx_goal(&self) -> (goal: Goal)
        ensures
            goal == self@.rx_goal(),
    {
        proof {
            use_type_invariant(self);
        }
        if self.rx_count < self.rx_len {
            Goal::RxReady
        } else {
            Goal::RxComplete
        }
    }

    fn start(&self, read: bool) -> (word: u32)
        requires
            Transfer::inv(self@),
        ensures
            word == start_word(
                self@.address,
                read,
                if read {
                    self@.rx_len
                } else {
                    self@.tx.len()
                },
            ),
    {
        proof {
            use_type_invariant(self);
        }
        let count: usize = if read {
            self.rx_len
        } else {
            self.tx_len
        };
        let direction: u32 = if read {
            CR2_RD_WRN
        } else {
            0
        };
        ((self.address as u32) << 1) | direction | CR2_START | ((count as u32) << 16)
    }

    fn fail(&mut self, error: Error) -> (action: Action)
        ensures
            (final(self)@, action) == old(self)@.fail(error),
    {
        proof {
            use_type_invariant(&*self);
        }
        self.stage = Stage::Release;
        self.polls = 0;
        self.failure = Some(error);
        Action::Write { reg: Reg::I2c1Cr2, value: CR2_STOP }
    }

    fn stop(&mut self) -> (action: Action)
        ensures
            (final(self)@, action) == old(self)@.stop(),
    {
        proof {
            use_type_invariant(&*self);
        }
        self.stage = Stage::Poll(Goal::Stopped);
        self.polls = 0;
        Action::Write { reg: Reg::I2c1Cr2, value: CR2_STOP }
    }

    fn advance(&mut self, goal: Goal) -> (action: Action)
        requires
            Transfer::inv(old(self)@),
            old(self)@.fits(goal),
        ensures
            (final(self)@, action) == old(self)@.advance(goal),
    {
        proof {
            use_type_invariant(&*self);
        }
        match goal {
            Goal::TxReady => {
                let byte = self.tx[self.sent];
                self.sent = self.sent + 1;
                self.polls = 0;
                self.stage = Stage::Poll(self.tx_goal());
                Action::Write { reg: Reg::I2c1Txdr, value: byte as u32 }
            },
            Goal::TxComplete => {
                match self.kind {
                    Kind::WriteRead => {
                        let word = self.start(true);
                        self.stage = Stage::Poll(self.rx_goal());
                        self.polls = 0;
                        Action::Write { reg: Reg::I2c1Cr2, value: word }
                    },
                    _ => self.stop(),
                }
            },
            Goal::RxReady => {
                self.stage = Stage::Fetch;
                self.polls = 0;
                Action::Read { reg: Reg::I2c1Rxdr }
            },
            Goal::RxComplete => self.stop(),
            Goal::Stopped => {
                self.stage = Stage::Finished;
                self.polls = 0;
                Action::Write { reg: Reg::I2c1Icr, value: ICR_STOPCF }
            },
        }
    }
}

/// How often a wait reads the status at most: as often as the timeout
/// says, and once where the timeout is 0.
pub open spec fn wait_reads(timeout: u32) -> nat {
    if timeout == 0 {
        1
    } else {
        timeout as nat
    }
}

impl TransferView {
    /// How many waits follow the phase to the device: those of the phase
    /// from the device, where there is one, and the wait for the stop.
    pub open spec fn waits_after_write(self) -> nat {
        if self.kind == Kind::WriteRead {
            self.rx_len + 2
        } else {
            1
        }
    }

    /// How many waits the transfer still has to pass, the one for `goal`
    /// counted, if nothing fails.
    pub open spec fn pending(self, goal: Goal) -> nat {
        match goal {
            Goal::TxReady => (self.tx.len() - self.sent) as nat + 1 + self.waits_after_write(),
            Goal::TxComplete => 1 + self.waits_after_write(),
            Goal::RxReady => (self.rx_len - self.rx.len()) as nat + 2,
            Goal::RxComplete => 2,
            Goal::Stopped => 1,
        }
    }

    /// How many steps the transfer is from its end, at most: each wait takes
    /// the step that asks first, its reads, and the step that takes a byte.
    pub open spec fn steps_left(self) -> nat {
        let reads = wait_reads(self.timeout);
        let cost = reads + 2;
        match self.stage {
            Stage::Begin => self.pending(self.first_goal()) * cost + 2,
            Stage::Poll(goal) => self.pending(goal) * cost + 1,
            Stage::Wait(goal) => ((self.pending(goal) - 1) * cost + (reads - self.polls)
                + 2) as nat,
            Stage::Fetch => ((self.pending(Goal::RxReady) - 1) * cost + 1) as nat,
            Stage::Release => 1,
            Stage::Finished => 0,
        }
    }
}

proof fn lemma_one_wait_more(count: int, cost: int)
    by (nonlinear_arith)
    requires
        count >= 1,
        cost >= 0,
    ensures
        count * cost == (count - 1) * cost + cost,
        (count - 1) * cost >= 0,
{
}

impl Bounded for Transfer {
    open spec fn budget(v: TransferView) -> nat {
        v.steps_left()
    }

    proof fn lemma_budget(v: TransferView, input: u32) {
        let reads = wait_reads(v.timeout) as int;
        let cost = reads + 2;
        let after = Self::next(v, input).0;
        Self::lemma_next_inv(v, input);
        match v.stage {
            Stage::Begin => {
                lemma_one_wait_more(v.pending(v.first_goal()) as int, cost);
            },
            Stage::Poll(goal) => {
                lemma_one_wait_more(v.pending(goal) as int, cost);
            },
            Stage::Wait(goal) => {
                lemma_one_wait_more(v.pending(goal) as int, cost);
                match after.stage {
                    Stage::Poll(g2) => {
                        assert(after.pending(g2) == v.pending(goal) - 1);
                    },
                    _ => {},
                }
            },
            Stage::Fetch => {
                lemma_one_wait_more(v.pending(Goal::RxReady) as int, cost);
                let g2 = after.rx_goal();
                assert(after.stage == Stage::Wait(g2));
                assert(after.pending(g2) == v.pending(Goal::RxReady) - 1);
                lemma_one_wait_more(after.pending(g2) as int, cost);
            },
            Stage::Release => {},
            Stage::Finished => {},
        }
    }
}

/// A transfer of `kind` with nothing done yet.
pub open spec fn fresh(kind: Kind, address: u8, tx: Seq<u8>, rx_len: nat, timeout: u32) -> TransferView {
    TransferView {
        kind,
        address,
        tx,
        rx_len,
        timeout,
        sent: 0,
        rx: Seq::empty(),
        polls: 0,
        stage: Stage::Begin,
        failure: None,
    }
}

/// Whether the controller can carry out a transfer to the device at
/// `address` that moves `tx_len` bytes to it and `rx_len` bytes from it: the
/// address has seven bits, and neither phase moves more than [`MAX_BYTES`].
pub open spec fn spec_transfer_fits(address: u8, tx_len: usize, rx_len: usize) -> bool {
    address <= MAX_ADDRESS && tx_len <= MAX_BYTES && rx_len <= MAX_BYTES
}

/// Tells whether the controller can carry out a transfer to the device at
/// `address` that moves `tx_len` bytes to it and `rx_len` bytes from it.
#[verifier::when_used_as_spec(spec_transfer_fits)]
pub fn transfer_fits(address: u8, tx_len: usize, rx_len: usize) -> (fits: bool)
    ensures
        fits == spec_transfer_fits(address, tx_len, rx_len),
{
    address <= MAX_ADDRESS && tx_len <= MAX_BYTES && rx_len <= MAX_BYTES
}

impl Transfer {
    fn begin(kind: Kind, address: u8, bytes: &[u8], rx_len: usize, timeout: u32) -> (t: Transfer)
        requires
            address <= MAX_ADDRESS,
            bytes@.len() <= MAX_BYTES,
            rx_len <= MAX_BYTES,
            kind == Kind::Read ==> bytes@.len() == 0,
            kind == Kind::Write ==> rx_len == 0,
        ensures
            t@ == fresh(kind, address, bytes@, rx_len as nat, timeout),
            Transfer::inv(t@),
    {
        let mut tx = [0u8; MAX_BYTES];
        let mut i: usize = 0;
        while i < bytes.len()
            invariant
                i <= bytes@.len() <= MAX_BYTES,
                forall|j: int| 0 <= j < i ==> tx@[j] == bytes@[j],
            decreases bytes@.len() - i,
        {
            tx[i] = bytes[i];
            i = i + 1;
        }
        let rx = [0u8; MAX_BYTES];
        assert(tx@.take(bytes@.len() as int) =~= bytes@);
        assert(rx@.take(0) =~= Seq::<u8>::empty());
        Transfer {
            kind,
            address,
            tx,
            tx_len: bytes.len(),
            rx_len,
            timeout,
            sent: 0,
            rx,
            rx_count: 0,
            polls: 0,
            stage: Stage::Begin,
            failure: None,
        }
    }

    /// Whether the transfer has ended.
    pub fn is_finished(&self) -> (finished: bool)
        ensures
            finished == (self@.stage == Stage::Finished),
    {
        match self.stage {
            Stage::Finished => true,
            _ => false,
        }
    }

    /// How the transfer ended: `None` while it is under way, then `Ok` where
    /// all bytes were moved and the bus is idle, and the failure where not.
    pub fn result(&self) -> (r: Option<Result<(), Error>>)
        ensures
            r == (if self@.stage == Stage::Finished {
                match self@.failure {
                    Some(e) => Some(Err::<(), Error>(e)),
                    None => Some(Ok::<(), Error>(())),
                }
            } else {
                None
            }),
    {
        match self.stage {
            Stage::Finished => match self.failure {
                Some(e) => Some(Err(e)),
                None => Some(Ok(())),
            },
            _ => None,
        }
    }

    /// The bytes that came from the device so far, in the order they came.
    pub fn received(&self) -> (bytes: &[u8])
        ensures
            bytes@ == self@.rx,
    {
        proof {
            use_type_invariant(self);
        }
        slice_subrange(self.rx.as_slice(), 0, self.rx_count)
    }

    /// How many bytes went to the device so far.
    pub fn sent(&self) -> (n: usize)
        ensures
            n == self@.sent,
    {
        self.sent
    }

    /// The stage the transfer is in.
    pub fn stage(&self) -> (stage: Stage)
        ensures
            stage == self@.stage,
    {
        self.stage
    }
}

/// The first I2C controller with its two lines, ready for transfers.
#[derive(Debug)]
pub struct BlockingI2c {
    pub i2c: I2C1,
    /// The clock line and the data line.
    pub pins: (PB8<Alternate<4, OpenDrain>>, PB9<Alternate<4, OpenDrain>>),
    /// The clock of the bus the controller sits on.
    pub pclk1: Hertz,
    /// How often each wait of a transfer reads the status before it gives
    /// up.
    pub timeout: u32,
}

impl BlockingI2c {
    /// Puts the controller together. The pins are the clock line and the
    /// data line, accepted only as open-drain outputs of alternate function
    /// 4, which is what the bus needs; the clocks are those of the finished
    /// clock switch. `timeout` is how often each wait of a transfer reads the
    /// status before it gives up.
    pub fn new(
        i2c: I2C1,
        pins: (PB8<Alternate<4, OpenDrain>>, PB9<Alternate<4, OpenDrain>>),
        clocks: Clocks,
        timeout: u32,
    ) -> (bus: BlockingI2c)
        ensures
            bus.i2c == i2c,
            bus.pins == pins,
            bus.pclk1.0 == clocks@.pclk1,
            bus.timeout == timeout,
    {
        BlockingI2c { i2c, pins, pclk1: clocks.pclk1(), timeout }
    }

    /// The transfer that sends `bytes` to the device at `address`, with
    /// nothing done yet; `None` where the controller cannot carry it out.
    pub fn write(&self, address: u8, bytes: &[u8]) -> (t: Option<Transfer>)
        ensures
            match t {
                Some(t) => {
                    &&& spec_transfer_fits(address, bytes@.len() as usize, 0)
                    &&& t@ == fresh(Kind::Write, address, bytes@, 0, self.timeout)
                    &&& Transfer::inv(t@)
                },
                None => bytes@.len() > MAX_BYTES || address > MAX_ADDRESS,
            },
    {
        if transfer_fits(address, bytes.len(), 0) {
            Some(Transfer::begin(Kind::Write, address, bytes, 0, self.timeout))
        } else {
            None
        }
    }

    /// The transfer that reads `len` bytes from the device at `address`,
    /// with nothing done yet; `None` where the controller cannot carry it
    /// out.
    pub fn read(&self, address: u8, len: usize) -> (t: Option<Transfer>)
        ensures
            match t {
                Some(t) => {
                    &&& spec_transfer_fits(address, 0, len)
                    &&& t@ == fresh(
                        Kind::Read,
                        address,
                        Seq::empty(),
                        len as nat,
                        self.timeout,
                    )
                    &&& Transfer::inv(t@)
                },
                None => len > MAX_BYTES || address > MAX_ADDRESS,
            },
    {
        if transfer_fits(address, 0, len) {
            let none: [u8; 0] = [];
            assert(none@ =~= Seq::<u8>::empty());
            Some(Transfer::begin(Kind::Read, address, none.as_slice(), len, self.timeout))
        } else {
            None
        }
    }

    /// The transfer that sends `bytes` to the device at `address` and then,
    /// after a repeated start, reads `len` bytes from it, with nothing done
    /// yet; `None` where the controller cannot carry it out.
    pub fn write_read(&self, address: u8, bytes: &[u8], len: usize) -> (t: Option<Transfer>)
        ensures
            match t {
                Some(t) => {
                    &&& spec_transfer_fits(address, bytes@.len() as usize, len)
                    &&& t@ == fresh(
                        Kind::WriteRead,
                        address,
                        bytes@,
                        len as nat,
                        self.timeout,
                    )
                    &&& Transfer::inv(t@)
                },
                None => bytes@.len() > MAX_BYTES || len > MAX_BYTES || address > MAX_ADDRESS,
            },
    {
        if transfer_fits(address, bytes.len(), len) {
            Some(Transfer::begin(Kind::WriteRead, address, bytes, len, self.timeout))
        } else {
            None
        }
    }
}

} // verus!
