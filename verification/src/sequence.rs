//! Procedures that are advanced one register operation at a time.

use vstd::prelude::*;
use crate::register::Action;

verus! {

/// A register-level procedure as a state machine.
///
/// The driver calls [`Sequencer::step`] again and again, performs each
/// action it is handed, and passes to every step the value that the action
/// before it read (anything, where that action read nothing). The machine
/// decides from that value alone what happens next, so what a procedure does
/// on given hardware answers is fixed by `next`.
pub trait Sequencer: View + Sized {
    /// The transition: the state after a step that is fed `input`, and the
    /// action the step hands out.
    spec fn next(v: Self::V, input: u32) -> (Self::V, Action);

    /// What holds of every state the machine can be in.
    spec fn inv(v: Self::V) -> bool;

    /// Whether the procedure works on registers that interrupt handlers use
    /// too, so that it has to run with interrupts masked from its first step
    /// to its last.
    spec fn exclusive() -> bool;

    /// Whether the procedure has to run with interrupts masked.
    fn is_exclusive(&self) -> (masked: bool)
        ensures
            masked == Self::exclusive(),
    ;

    /// Transitions keep the invariant.
    proof fn lemma_next_inv(v: Self::V, input: u32)
        requires
            Self::inv(v),
        ensures
            Self::inv(Self::next(v, input).0),
    ;

    /// Advances the procedure by one action.
    fn step(&mut self, input: u32) -> (action: Action)
        requires
            Self::inv(old(self)@),
        ensures
            Self::inv(final(self)@),
            (final(self)@, action) == Self::next(old(self)@, input),
    ;
}

/// The state of a machine started in `v` after it was fed `inputs` in turn.
pub open spec fn state_after<S: Sequencer>(v: S::V, inputs: Seq<u32>) -> S::V
    decreases inputs.len(),
{
    if inputs.len() == 0 {
        v
    } else {
        S::next(state_after::<S>(v, inputs.drop_last()), inputs.last()).0
    }
}

/// The actions that a machine started in `v` hands out while it is fed
/// `inputs` in turn: one action for each input.
pub open spec fn actions<S: Sequencer>(v: S::V, inputs: Seq<u32>) -> Seq<Action>
    decreases inputs.len(),
{
    if inputs.len() == 0 {
        Seq::empty()
    } else {
        actions::<S>(v, inputs.drop_last()).push(
            S::next(state_after::<S>(v, inputs.drop_last()), inputs.last()).1,
        )
    }
}

/// A run hands out one action for each input, and never leaves the invariant.
pub proof fn lemma_run<S: Sequencer>(v: S::V, inputs: Seq<u32>)
    requires
        S::inv(v),
    ensures
        S::inv(state_after::<S>(v, inputs)),
        actions::<S>(v, inputs).len() == inputs.len(),
    decreases inputs.len(),
{
    if inputs.len() > 0 {
        lemma_run::<S>(v, inputs.drop_last());
        S::lemma_next_inv(state_after::<S>(v, inputs.drop_last()), inputs.last());
    }
}

/// What a run did in its first `k` steps does not depend on what came after:
/// the state after `k` inputs and the first `k` actions are those of the run
/// on the first `k` inputs alone.
pub proof fn lemma_run_prefix<S: Sequencer>(v: S::V, inputs: Seq<u32>, k: int)
    requires
        0 <= k <= inputs.len(),
    ensures
        actions::<S>(v, inputs).len() == inputs.len(),
        actions::<S>(v, inputs).take(k) == actions::<S>(v, inputs.take(k)),
        k < inputs.len() ==> actions::<S>(v, inputs)[k] == S::next(
            state_after::<S>(v, inputs.take(k)),
            inputs[k],
        ).1,
    decreases inputs.len(),
{
    if inputs.len() == 0 {
        assert(inputs.take(k) == inputs);
    } else if k == inputs.len() {
        assert(inputs.take(k) == inputs);
        lemma_run_prefix::<S>(v, inputs.drop_last(), k - 1);
        assert(actions::<S>(v, inputs).take(k) == actions::<S>(v, inputs));
    } else {
        let shorter = inputs.drop_last();
        lemma_run_prefix::<S>(v, shorter, k);
        assert(shorter.take(k) == inputs.take(k));
        assert(actions::<S>(v, inputs).take(k) == actions::<S>(v, shorter).take(k));
        if k == shorter.len() {
            assert(shorter.take(k) == shorter);
        } else {
            assert(shorter[k] == inputs[k]);
        }
    }
}

/// A procedure that ends whatever it is fed.
pub trait Bounded: Sequencer {
    /// More steps than this the procedure never takes before it ends.
    spec fn budget(v: Self::V) -> nat;

    /// Each step uses up budget, and a procedure without budget has ended:
    /// it stays as it is and hands out `Done` or `Halt`.
    proof fn lemma_budget(v: Self::V, input: u32)
        requires
            Self::inv(v),
        ensures
            Self::budget(v) > 0 ==> Self::budget(Self::next(v, input).0) < Self::budget(v),
            Self::budget(v) == 0 ==> Self::next(v, input).0 == v && Self::next(
                v,
                input,
            ).1.is_final(),
    ;
}

/// A bounded procedure has ended once it was fed as many inputs as its
/// budget, whatever the inputs were, and does not begin again.
pub proof fn lemma_ends<S: Bounded>(v: S::V, inputs: Seq<u32>)
    requires
        S::inv(v),
    ensures
        S::budget(state_after::<S>(v, inputs)) + inputs.len() <= S::budget(v) || S::budget(
            state_after::<S>(v, inputs),
        ) == 0,
        inputs.len() >= S::budget(v) ==> S::budget(state_after::<S>(v, inputs)) == 0,
    decreases inputs.len(),
{
    if inputs.len() > 0 {
        lemma_ends::<S>(v, inputs.drop_last());
        lemma_run::<S>(v, inputs.drop_last());
        S::lemma_budget(state_after::<S>(v, inputs.drop_last()), inputs.last());
    }
}

/// The most operations that a [`Script`] holds.
pub const SCRIPT_CAPACITY: usize = 4;

/// A procedure that is a short fixed list of register operations: it hands
/// them out in order, whatever it is fed, and is done after the last.
#[derive(Clone, Copy, Debug)]
pub struct Script {
    ops: [Action; SCRIPT_CAPACITY],
    len: usize,
    pos: usize,
}

/// What a [`Script`] is made of: its operations and how many were handed out.
pub struct ScriptView {
    pub ops: Seq<Action>,
    pub pos: nat,
}

impl View for Script {
    type V = ScriptView;

    closed spec fn view(&self) -> ScriptView {
        ScriptView { ops: self.ops@.take(self.len as int), pos: self.pos as nat }
    }
}

impl Sequencer for Script {
    open spec fn next(v: ScriptView, input: u32) -> (ScriptView, Action) {
        if v.pos < v.ops.len() {
            (ScriptView { ops: v.ops, pos: v.pos + 1 }, v.ops[v.pos as int])
        } else {
            (v, Action::Done)
        }
    }

    open spec fn inv(v: ScriptView) -> bool {
        &&& v.pos <= v.ops.len()
        &&& forall|i: int| 0 <= i < v.ops.len() ==> !(#[trigger] v.ops[i]).is_final()
    }

    open spec fn exclusive() -> bool {
        false
    }

    fn is_exclusive(&self) -> (masked: bool) {
        false
    }

    proof fn lemma_next_inv(v: ScriptView, input: u32) {
    }

    fn step(&mut self, input: u32) -> (action: Action) {
        proof {
            use_type_invariant(&*self);
        }
        if self.pos < self.len {
            let action = self.ops[self.pos];
            self.pos = self.pos + 1;
            action
        } else {
            Action::Done
        }
    }
}

impl Bounded for Script {
    open spec fn budget(v: ScriptView) -> nat {
        if v.pos <= v.ops.len() {
            (v.ops.len() - v.pos) as nat
        } else {
            0
        }
    }

    proof fn lemma_budget(v: ScriptView, input: u32) {
    }
}

impl Script {
    #[verifier::type_invariant]
    spec fn fits(self) -> bool {
        self.len <= SCRIPT_CAPACITY && self.pos <= self.len
    }

    /// A script that will hand out the first `len` of `ops`, from the first
    /// on.
    pub fn new(ops: [Action; SCRIPT_CAPACITY], len: usize) -> (script: Script)
        requires
            len <= SCRIPT_CAPACITY,
            forall|i: int| 0 <= i < len ==> !(#[trigger] ops[i]).is_final(),
        ensures
            script@ == (ScriptView { ops: ops@.take(len as int), pos: 0 }),
            Script::inv(script@),
    {
        Script { ops, len, pos: 0 }
    }

    /// How many operations are still to be handed out.
    pub fn remaining(&self) -> (n: usize)
        ensures
            n == self@.ops.len() - self@.pos,
    {
        proof {
            use_type_invariant(self);
        }
        self.len - self.pos
    }

    /// How many operations the script holds, handed out or not.
    pub fn len(&self) -> (n: usize)
        ensures
            n == self@.ops.len(),
    {
        proof {
            use_type_invariant(self);
        }
        self.len
    }

    /// Operation `i` of the script, handed out or not.
    pub fn op(&self, i: usize) -> (action: Action)
        requires
            i < self@.ops.len(),
        ensures
            action == self@.ops[i as int],
    {
        proof {
            use_type_invariant(self);
        }
        self.ops[i]
    }
}

/// A script that has not begun hands out its operations in order, one a
/// step, and `Done` at every step after the last of them.
pub proof fn lemma_script_run(ops: Seq<Action>, inputs: Seq<u32>)
    ensures
        state_after::<Script>(ScriptView { ops, pos: 0 }, inputs) == (ScriptView {
            ops,
            pos: if inputs.len() <= ops.len() {
                inputs.len()
            } else {
                ops.len()
            },
        }),
        actions::<Script>(ScriptView { ops, pos: 0 }, inputs).len() == inputs.len(),
        forall|k: int|
            0 <= k < inputs.len() ==> #[trigger] actions::<Script>(
                ScriptView { ops, pos: 0 },
                inputs,
            )[k] == (if k < ops.len() {
                ops[k]
            } else {
                Action::Done
            }),
    decreases inputs.len(),
{
    if inputs.len() > 0 {
        lemma_script_run(ops, inputs.drop_last());
    }
}

} // verus!
