//! What holds of every run of a transfer, whatever the bus answers.

use vstd::prelude::*;
use crate::i2c::{
    data_byte, reached, start_word, wait_reads, Error, Goal, Stage, Transfer, TransferView,
    CR2_RD_WRN, CR2_START, CR2_STOP, ICR_RELEASE, ISR_ARLO, ISR_NACKF, ISR_RXNE, ISR_STOPF,
    ISR_TC, ISR_TXIS, MAX_ADDRESS, MAX_BYTES,
};
use crate::register::{Action, Reg};
use crate::sequence::{actions, lemma_ends, lemma_run, state_after, Sequencer};

verus! {

/// The word that starts a phase holds each part in its own bits: read back,
/// it gives the address, the direction and the number of bytes that went in,
/// asks for a start and for no stop.
pub proof fn lemma_start_word(address: u8, read: bool, count: nat)
    requires
        address <= MAX_ADDRESS,
        count <= MAX_BYTES,
    ensures
        (start_word(address, read, count) >> 1) & 0x7F == address,
        (start_word(address, read, count) & CR2_RD_WRN != 0) == read,
        (start_word(address, read, count) >> 16) & 0xFF == count,
        start_word(address, read, count) & CR2_START != 0,
        start_word(address, read, count) & CR2_STOP == 0,
{
    let a = address as u32;
    let d: u32 = if read {
        CR2_RD_WRN
    } else {
        0
    };
    let n = count as u32;
    let w = (a << 1) | d | CR2_START | (n << 16);
    assert((w >> 1) & 0x7F == a && (w & 0x400 != 0) == (d != 0) && (w >> 16) & 0xFF == n && w
        & 0x2000 != 0 && w & 0x4000 == 0) by (bit_vector)
        requires
            w == (a << 1) | d | 0x2000u32 | (n << 16),
            a <= 0x7F,
            n <= 255,
            d == 0x400u32 || d == 0,
    ;
}

/// A transfer ends, whatever the device and the bus do: once it was fed as
/// many inputs as it has steps left, it is finished, and it stays so.
pub proof fn lemma_transfer_ends(v: TransferView, inputs: Seq<u32>)
    requires
        Transfer::inv(v),
        inputs.len() >= v.steps_left(),
    ensures
        state_after::<Transfer>(v, inputs).stage == Stage::Finished,
{
    lemma_ends::<Transfer>(v, inputs);
    lemma_run::<Transfer>(v, inputs);
}

/// A transfer that has not begun takes no more steps than this: for each
/// byte and for the end of each phase and of the transfer one wait, each
/// wait with its reads and two steps more, and two steps to begin with.
pub proof fn lemma_fresh_steps(v: TransferView)
    requires
        Transfer::inv(v),
        v.stage == Stage::Begin,
    ensures
        v.steps_left() <= (v.tx.len() + v.rx_len + 3) * (wait_reads(v.timeout) + 2) + 2,
{
    let cost = (wait_reads(v.timeout) + 2) as int;
    let waits = v.pending(v.first_goal()) as int;
    let most = (v.tx.len() + v.rx_len + 3) as int;
    assert(waits <= most);
    assert(waits * cost <= most * cost) by (nonlinear_arith)
        requires
            waits <= most,
            cost >= 0,
    ;
}

/// Whether a status says that the device did not acknowledge, the bus still
/// being ours.
pub open spec fn refused(input: u32) -> bool {
    input & ISR_ARLO == 0 && input & ISR_NACKF != 0
}

/// Whether a status shows nothing at all: no failure, and none of the flags
/// that a wait waits for. That is what the controller reads while the device
/// holds the clock line down.
pub open spec fn quiet(input: u32) -> bool {
    &&& input & ISR_ARLO == 0
    &&& input & ISR_NACKF == 0
    &&& input & ISR_TXIS == 0
    &&& input & ISR_RXNE == 0
    &&& input & ISR_TC == 0
    &&& input & ISR_STOPF == 0
}

/// The operation that generates a stop condition.
pub open spec fn stop_action() -> Action {
    Action::Write { reg: Reg::I2c1Cr2, value: CR2_STOP }
}

/// A wait that is told that the device did not acknowledge stops the bus
/// with that very step, the next step clears the flags, and the transfer is
/// finished with [`Error::NotAcknowledged`]; no byte is moved on the way.
pub proof fn lemma_refusal_releases_bus(v: TransferView, goal: Goal, input: u32, later: u32)
    requires
        Transfer::inv(v),
        v.stage == Stage::Wait(goal),
        refused(input),
    ensures
        ({
            let (stopped, first) = Transfer::next(v, input);
            let (ended, second) = Transfer::next(stopped, later);
            &&& first == stop_action()
            &&& second == (Action::Write { reg: Reg::I2c1Icr, value: ICR_RELEASE })
            &&& ended == (TransferView {
                stage: Stage::Finished,
                polls: 0,
                failure: Some(Error::NotAcknowledged),
                ..v
            })
        }),
{
}

/// A transfer to an address at which no device answers: the first status
/// read after the start says not acknowledged. Whatever the transfer was to
/// move, it starts the bus, reads the status, stops the bus, clears the
/// flags, and is finished with [`Error::NotAcknowledged`] after four steps,
/// with no byte moved.
pub proof fn lemma_no_device(v: TransferView, inputs: Seq<u32>)
    requires
        Transfer::inv(v),
        v.stage == Stage::Begin,
        inputs.len() >= 4,
        refused(inputs[2]),
    ensures
        ({
            let acts = actions::<Transfer>(v, inputs);
            &&& acts.len() == inputs.len()
            &&& acts[0] == (Action::Write { reg: Reg::I2c1Cr2, value: v.first_start() })
            &&& acts[1] == (Action::Read { reg: Reg::I2c1Isr })
            &&& acts[2] == stop_action()
            &&& acts[3] == (Action::Write { reg: Reg::I2c1Icr, value: ICR_RELEASE })
            &&& forall|i: int| 4 <= i < inputs.len() ==> #[trigger] acts[i] == Action::Done
            &&& state_after::<Transfer>(v, inputs) == (TransferView {
                stage: Stage::Finished,
                failure: Some(Error::NotAcknowledged),
                ..v
            })
        }),
    decreases inputs.len(),
{
    let shorter = inputs.drop_last();
    let acts = actions::<Transfer>(v, inputs);
    let acts0 = actions::<Transfer>(v, shorter);
    assert(acts == acts0.push(
        Transfer::next(state_after::<Transfer>(v, shorter), inputs.last()).1,
    ));
    if inputs.len() > 4 {
        assert(shorter[2] == inputs[2]);
        lemma_no_device(v, shorter);
        assert forall|i: int| 4 <= i < inputs.len() implies #[trigger] acts[i]
            == Action::Done by {
            if i < shorter.len() {
                assert(acts[i] == acts0[i]);
            }
        }
    } else {
        let i3 = shorter;
        let i2 = i3.drop_last();
        let i1 = i2.drop_last();
        let i0 = i1.drop_last();
        assert(i0.len() == 0);
        assert(i3.last() == inputs[2]);
        assert(state_after::<Transfer>(v, i0) == v);
        let s1 = state_after::<Transfer>(v, i1);
        let s2 = state_after::<Transfer>(v, i2);
        let s3 = state_after::<Transfer>(v, i3);
        assert(s1 == Transfer::next(v, i1.last()).0);
        assert(s2 == Transfer::next(s1, i2.last()).0);
        assert(s3 == Transfer::next(s2, i3.last()).0);
        assert(actions::<Transfer>(v, i0).len() == 0);
        assert(actions::<Transfer>(v, i1) == actions::<Transfer>(v, i0).push(
            Transfer::next(v, i1.last()).1,
        ));
        assert(actions::<Transfer>(v, i2) == actions::<Transfer>(v, i1).push(
            Transfer::next(s1, i2.last()).1,
        ));
        assert(actions::<Transfer>(v, i3) == actions::<Transfer>(v, i2).push(
            Transfer::next(s2, i3.last()).1,
        ));
    }
}

/// What a transfer that has not begun has come to after `n` steps in which
/// every status read was quiet: it starts the bus, asks for the status, and
/// reads it as often as a wait may; then it stops the bus, clears the flags
/// and is finished with [`Error::Timeout`].
pub open spec fn held_state(v: TransferView, n: nat) -> TransferView {
    let reads = wait_reads(v.timeout);
    if n == 0 {
        v
    } else if n == 1 {
        TransferView { stage: Stage::Poll(v.first_goal()), ..v }
    } else if n <= reads + 1 {
        TransferView { stage: Stage::Wait(v.first_goal()), polls: (n - 2) as u32, ..v }
    } else if n == reads + 2 {
        TransferView { stage: Stage::Release, failure: Some(Error::Timeout), ..v }
    } else {
        TransferView { stage: Stage::Finished, failure: Some(Error::Timeout), ..v }
    }
}

/// A transfer whose device holds the clock beyond the timeout does not hang:
/// where every status read is quiet, the transfer gives up after the reads
/// that one wait may make, stops the bus, and is finished with
/// [`Error::Timeout`] three steps after its last read.
pub proof fn lemma_held_clock_times_out(v: TransferView, inputs: Seq<u32>)
    requires
        Transfer::inv(v),
        v.stage == Stage::Begin,
        forall|i: int| 2 <= i < inputs.len() ==> quiet(#[trigger] inputs[i]),
    ensures
        ({
            let reads = wait_reads(v.timeout);
            let acts = actions::<Transfer>(v, inputs);
            &&& state_after::<Transfer>(v, inputs) == held_state(v, inputs.len())
            &&& acts.len() == inputs.len()
            &&& inputs.len() >= reads + 2 ==> acts[reads as int + 1] == stop_action()
            &&& inputs.len() >= reads + 3 ==> state_after::<Transfer>(v, inputs).stage
                == Stage::Finished && state_after::<Transfer>(v, inputs).failure == Some(
                Error::Timeout,
            )
        }),
    decreases inputs.len(),
{
    if inputs.len() > 0 {
        let shorter = inputs.drop_last();
        let acts = actions::<Transfer>(v, inputs);
        let acts0 = actions::<Transfer>(v, shorter);
        let before = state_after::<Transfer>(v, shorter);
        assert forall|i: int| 2 <= i < shorter.len() implies quiet(#[trigger] shorter[i]) by {
            assert(shorter[i] == inputs[i]);
        }
        lemma_held_clock_times_out(v, shorter);
        assert(acts == acts0.push(Transfer::next(before, inputs.last()).1));
        let reads = wait_reads(v.timeout);
        if shorter.len() >= 2 {
            assert(quiet(inputs[shorter.len() as int]));
        }
        if inputs.len() > reads + 2 {
            assert(acts[reads as int + 1] == acts0[reads as int + 1]);
        }
    }
}

/// The words that a run stored in the transmit register, in their order.
pub open spec fn written_words(acts: Seq<Action>) -> Seq<u32>
    decreases acts.len(),
{
    if acts.len() == 0 {
        Seq::empty()
    } else {
        let earlier = written_words(acts.drop_last());
        match acts.last() {
            Action::Write { reg: Reg::I2c1Txdr, value } => earlier.push(value),
            _ => earlier,
        }
    }
}

/// The bytes that a run was handed in answer to its reads of the receive
/// register, in their order.
pub open spec fn fetched_bytes(acts: Seq<Action>, inputs: Seq<u32>) -> Seq<u8>
    decreases inputs.len(),
{
    if inputs.len() < 2 {
        Seq::empty()
    } else {
        let earlier = fetched_bytes(acts.drop_last(), inputs.drop_last());
        if acts[inputs.len() - 2] == (Action::Read { reg: Reg::I2c1Rxdr }) {
            earlier.push(data_byte(inputs.last()))
        } else {
            earlier
        }
    }
}

/// Whether a run generated a stop condition.
pub open spec fn stop_written(acts: Seq<Action>) -> bool {
    exists|i: int| 0 <= i < acts.len() && #[trigger] acts[i] == stop_action()
}

/// Whether the bus is on its way to idle, or idle: the transfer has stopped
/// it, or has finished otherwise than by losing the bus to another
/// controller.
pub open spec fn bus_given_up(v: TransferView) -> bool {
    ||| v.stage == Stage::Release
    ||| v.stage == Stage::Poll(Goal::Stopped)
    ||| v.stage == Stage::Wait(Goal::Stopped)
    ||| (v.stage == Stage::Finished && v.failure != Some(Error::ArbitrationLost))
}

/// What holds of every run of a transfer from its beginning, whatever it is
/// fed.
///
/// The bytes go out in order and nothing else does: what the run stored in
/// the transmit register is the bytes for the device up to the number sent.
/// What came in is what was read: the bytes received are those handed to the
/// run in answer to its reads of the receive register. The bus is not left
/// busy: a transfer that has finished, unless it lost the bus to another
/// controller, has generated a stop. And a transfer that has finished
/// without failure has sent all its bytes and received as many as it was
/// asked for.
pub proof fn lemma_transfer_run(v: TransferView, inputs: Seq<u32>)
    requires
        Transfer::inv(v),
        v.stage == Stage::Begin,
    ensures
        ({
            let s = state_after::<Transfer>(v, inputs);
            let acts = actions::<Transfer>(v, inputs);
            &&& acts.len() == inputs.len()
            &&& Transfer::inv(s)
            &&& s.kind == v.kind && s.address == v.address && s.tx == v.tx && s.rx_len
                == v.rx_len && s.timeout == v.timeout
            &&& written_words(acts) == Seq::new(s.sent, |i: int| v.tx[i] as u32)
            &&& s.rx == fetched_bytes(acts, inputs)
            &&& s.stage == Stage::Fetch <==> inputs.len() > 0 && acts.last() == (Action::Read {
                reg: Reg::I2c1Rxdr,
            })
            &&& bus_given_up(s) ==> stop_written(acts)
            &&& s.succeeded() ==> s.sent == v.tx.len() && s.rx.len() == v.rx_len
        }),
    decreases inputs.len(),
{
    let s = state_after::<Transfer>(v, inputs);
    let acts = actions::<Transfer>(v, inputs);
    if inputs.len() == 0 {
        assert(written_words(acts) =~= Seq::new(s.sent, |i: int| v.tx[i] as u32));
        assert(s.rx =~= fetched_bytes(acts, inputs));
    } else {
        let shorter = inputs.drop_last();
        let before = state_after::<Transfer>(v, shorter);
        let acts0 = actions::<Transfer>(v, shorter);
        lemma_transfer_run(v, shorter);
        Transfer::lemma_next_inv(before, inputs.last());
        let a = Transfer::next(before, inputs.last()).1;
        assert(acts == acts0.push(a));
        assert(acts.drop_last() == acts0);
        assert(acts.last() == a);
        assert(written_words(acts) =~= Seq::new(s.sent, |i: int| v.tx[i] as u32));
        if shorter.len() > 0 {
            assert(acts[inputs.len() - 2] == acts0.last());
        }
        assert(s.rx =~= fetched_bytes(acts, inputs));
        if stop_written(acts0) {
            let i = choose|i: int| 0 <= i < acts0.len() && #[trigger] acts0[i] == stop_action();
            assert(acts[i] == stop_action());
        }
        if a == stop_action() {
            assert(acts[shorter.len() as int] == stop_action());
        }
    }
}

/// Whether every status that a run read was the one its wait was waiting
/// for: no failure flag, and the flag of the goal up. That is how a bus
/// reads on which the device addressed acknowledges and never holds the
/// clock for longer than one read.
pub open spec fn answered_at_once(v: TransferView, inputs: Seq<u32>) -> bool {
    forall|k: int|
        0 <= k < inputs.len() ==> match (#[trigger] state_after::<Transfer>(
            v,
            inputs.take(k),
        )).stage {
            Stage::Wait(goal) => inputs[k] & ISR_ARLO == 0 && inputs[k] & ISR_NACKF == 0
                && reached(goal, inputs[k]),
            _ => true,
        }
}

/// A run in which every status read was answered at once has not failed.
proof fn lemma_answered_run(v: TransferView, inputs: Seq<u32>)
    requires
        Transfer::inv(v),
        v.stage == Stage::Begin,
        answered_at_once(v, inputs),
    ensures
        state_after::<Transfer>(v, inputs).failure is None,
    decreases inputs.len(),
{
    if inputs.len() > 0 {
        let shorter = inputs.drop_last();
        let n = shorter.len() as int;
        assert forall|k: int| 0 <= k < shorter.len() implies match (#[trigger] state_after::<
            Transfer,
        >(v, shorter.take(k))).stage {
            Stage::Wait(goal) => shorter[k] & ISR_ARLO == 0 && shorter[k] & ISR_NACKF == 0
                && reached(goal, shorter[k]),
            _ => true,
        } by {
            assert(shorter.take(k) =~= inputs.take(k));
            assert(shorter[k] == inputs[k]);
        }
        lemma_answered_run(v, shorter);
        lemma_run::<Transfer>(v, shorter);
        assert(inputs.take(n) =~= shorter);
        assert(inputs[n] == inputs.last());
    }
}

/// Against a device that acknowledges and answers, a transfer goes through:
/// where every status read is answered at once, a transfer that was fed as
/// many inputs as it has steps has finished without failure, every byte for
/// the device was stored in the transmit register, in order, and the bytes
/// received are those that the reads of the receive register returned, as
/// many as were asked for.
pub proof fn lemma_answering_device(v: TransferView, inputs: Seq<u32>)
    requires
        Transfer::inv(v),
        v.stage == Stage::Begin,
        answered_at_once(v, inputs),
        inputs.len() >= v.steps_left(),
    ensures
        ({
            let s = state_after::<Transfer>(v, inputs);
            let acts = actions::<Transfer>(v, inputs);
            &&& s.succeeded()
            &&& written_words(acts) == Seq::new(v.tx.len(), |i: int| v.tx[i] as u32)
            &&& s.rx == fetched_bytes(acts, inputs)
            &&& s.rx.len() == v.rx_len
            &&& stop_written(acts)
        }),
{
    lemma_answered_run(v, inputs);
    lemma_transfer_ends(v, inputs);
    lemma_transfer_run(v, inputs);
}

} // verus!
