//! A planned terminal session: enter a raw, alternate-screen mode, hold,
//! and restore the terminal by undoing every entry step in reverse order.
//!
//! The terminal device itself is process-external state; this library
//! only decides, step by step, which change to apply next. A driver asks
//! the [`Toggler`] for its next action, performs it against the real
//! terminal, and reports back whether it succeeded. Any reported failure
//! stops the session at once: no further change, no hold, no restoration
//! step is ever handed out after one (the session is fail-fast, with no
//! compensating rollback of the steps already applied).

use vstd::prelude::*;

verus! {

/// One reversible change of terminal-device state.
#[derive(Clone, Copy, PartialEq, Eq, Structural, Debug)]
pub enum TermStep {
    /// Enable raw input mode.
    RawOn,
    /// Switch to the alternate screen buffer.
    AltOn,
    /// Enable mouse-event capture.
    MouseOn,
    /// Hide the cursor.
    CursorHide,
    /// Restore cursor visibility.
    CursorShow,
    /// Disable mouse-event capture.
    MouseOff,
    /// Leave the alternate screen buffer.
    AltOff,
    /// Disable raw input mode.
    RawOff,
}

/// What the driver of a session is to do next.
#[derive(Clone, Copy, PartialEq, Eq, Structural, Debug)]
pub enum TogglerAction {
    /// Apply this change to the terminal device.
    Apply(TermStep),
    /// Block for this many milliseconds.
    Hold(u64),
    /// The session completed; the terminal is restored.
    Finish,
    /// A step failed earlier; do nothing further.
    Abort,
}

/// How long the session holds between entry completion and exit
/// initiation, in milliseconds.
pub const HOLD_MILLIS: u64 = 1000;

/// The number of actions a complete session performs.
pub const PLAN_LEN: u8 = 9;

/// The entry transition: the four changes that take the terminal from its
/// normal state into the raw, alternate-screen state, in order.
pub open spec fn entry_steps() -> Seq<TermStep> {
    seq![TermStep::RawOn, TermStep::AltOn, TermStep::MouseOn, TermStep::CursorHide]
}

/// The exit transition: the four changes that restore the terminal, in
/// order.
pub open spec fn exit_steps() -> Seq<TermStep> {
    seq![TermStep::CursorShow, TermStep::MouseOff, TermStep::AltOff, TermStep::RawOff]
}

/// The change that reverses a given change.
pub open spec fn undo_of(step: TermStep) -> TermStep {
    match step {
        TermStep::RawOn => TermStep::RawOff,
        TermStep::AltOn => TermStep::AltOff,
        TermStep::MouseOn => TermStep::MouseOff,
        TermStep::CursorHide => TermStep::CursorShow,
        TermStep::CursorShow => TermStep::CursorHide,
        TermStep::MouseOff => TermStep::MouseOn,
        TermStep::AltOff => TermStep::AltOn,
        TermStep::RawOff => TermStep::RawOn,
    }
}

/// The whole session plan: the entry transition, the hold, and the exit
/// transition.
pub open spec fn plan() -> Seq<TogglerAction> {
    seq![
        TogglerAction::Apply(TermStep::RawOn),
        TogglerAction::Apply(TermStep::AltOn),
        TogglerAction::Apply(TermStep::MouseOn),
        TogglerAction::Apply(TermStep::CursorHide),
        TogglerAction::Hold(HOLD_MILLIS),
        TogglerAction::Apply(TermStep::CursorShow),
        TogglerAction::Apply(TermStep::MouseOff),
        TogglerAction::Apply(TermStep::AltOff),
        TogglerAction::Apply(TermStep::RawOff),
    ]
}

/// The session state machine: how far the plan has advanced, and whether
/// a step has failed.
pub struct Toggler {
    /// The index of the next plan action.
    pub pos: u8,
    /// Whether some performed action was reported failed.
    pub failed: bool,
}

impl Toggler {
    /// The machine still hands out plan actions.
    pub open spec fn active(self) -> bool {
        !self.failed && self.pos < plan().len()
    }

    /// The action the machine hands out in its current state.
    pub open spec fn spec_next_action(self) -> TogglerAction {
        if self.failed {
            TogglerAction::Abort
        } else if self.pos < plan().len() {
            plan()[self.pos as int]
        } else {
            TogglerAction::Finish
        }
    }

    /// A fresh session, about to perform the first entry step.
    pub fn new() -> (t: Toggler)
        ensures
            t.pos == 0,
            !t.failed,
            t.active(),
    {
        Toggler { pos: 0, failed: false }
    }

    /// The next action for the driver to perform.
    pub fn next_action(&self) -> (a: TogglerAction)
        ensures
            a == self.spec_next_action(),
    {
        if self.failed {
            TogglerAction::Abort
        } else if self.pos == 0 {
            TogglerAction::Apply(TermStep::RawOn)
        } else if self.pos == 1 {
            TogglerAction::Apply(TermStep::AltOn)
        } else if self.pos == 2 {
            TogglerAction::Apply(TermStep::MouseOn)
        } else if self.pos == 3 {
            TogglerAction::Apply(TermStep::CursorHide)
        } else if self.pos == 4 {
            TogglerAction::Hold(HOLD_MILLIS)
        } else if self.pos == 5 {
            TogglerAction::Apply(TermStep::CursorShow)
        } else if self.pos == 6 {
            TogglerAction::Apply(TermStep::MouseOff)
        } else if self.pos == 7 {
            TogglerAction::Apply(TermStep::AltOff)
        } else if self.pos == 8 {
            TogglerAction::Apply(TermStep::RawOff)
        } else {
            TogglerAction::Finish
        }
    }

    /// Records the driver's report on the action last handed out: on
    /// success the plan advances one action, on failure the session stops
    /// where it is. A machine that is already finished or failed is left
    /// unchanged.
    pub fn advance(&mut self, ok: bool)
        ensures
            !old(self).active() ==> *final(self) == *old(self),
            old(self).active() && ok ==> *final(self) == (Toggler {
                pos: (old(self).pos + 1) as u8,
                failed: false,
            }),
            old(self).active() && !ok ==> *final(self) == (Toggler {
                pos: old(self).pos,
                failed: true,
            }),
    {
        if !self.failed && self.pos < PLAN_LEN {
            if ok {
                self.pos = self.pos + 1;
            } else {
                self.failed = true;
            }
        }
    }
}

/// The actions a driver performs from plan position `pos` on, when the
/// performed actions succeed or fail as `outcomes` reports, one report
/// per performed action: each successful action advances the plan, the
/// first failed action is the last one performed.
pub open spec fn trace_from(pos: nat, outcomes: Seq<bool>) -> Seq<TogglerAction>
    decreases outcomes.len(),
{
    if pos >= plan().len() || outcomes.len() == 0 {
        Seq::empty()
    } else if outcomes[0] {
        seq![plan()[pos as int]] + trace_from(pos + 1, outcomes.drop_first())
    } else {
        seq![plan()[pos as int]]
    }
}

/// The actions a whole session performs under the given reports.
pub open spec fn spec_trace(outcomes: Seq<bool>) -> Seq<TogglerAction> {
    trace_from(0, outcomes)
}

/// Runs a session against a given sequence of step reports, returning
/// the actions performed, in order. The real driver performs each action
/// against the terminal; this driver takes the reports as plain values,
/// so every property of the trace holds of any driver that performs the
/// plan faithfully.
pub fn simulate(outcomes: &Vec<bool>) -> (trace: Vec<TogglerAction>)
    ensures
        trace@ == spec_trace(outcomes@),
{
    let mut t = Toggler::new();
    let mut trace: Vec<TogglerAction> = Vec::new();
    let mut i: usize = 0;
    proof {
        assert(outcomes@.skip(0) =~= outcomes@);
        assert(trace@ + trace_from(0, outcomes@) =~= trace_from(0, outcomes@));
    }
    while i < outcomes.len() && !t.failed && t.pos < PLAN_LEN
        invariant
            i <= outcomes@.len(),
            !t.failed ==> t.pos == i && t.pos <= plan().len(),
            !t.failed ==> spec_trace(outcomes@) == trace@ + trace_from(
                t.pos as nat,
                outcomes@.skip(i as int),
            ),
            t.failed ==> trace@ == spec_trace(outcomes@),
        decreases outcomes@.len() - i,
    {
        let a = t.next_action();
        trace.push(a);
        let ok = outcomes[i];
        proof {
            assert(outcomes@.skip(i as int)[0] == outcomes@[i as int]);
            assert(outcomes@.skip(i as int).drop_first() =~= outcomes@.skip(i as int + 1));
        }
        t.advance(ok);
        i += 1;
    }
    proof {
        if !t.failed {
            assert(trace_from(t.pos as nat, outcomes@.skip(i as int)) =~= Seq::empty());
        }
    }
    trace
}

proof fn lemma_trace_all_ok(pos: nat, outcomes: Seq<bool>)
    requires
        pos <= plan().len(),
        outcomes.len() + pos >= plan().len(),
        forall|i: int| 0 <= i < outcomes.len() ==> outcomes[i],
    ensures
        trace_from(pos, outcomes) == plan().skip(pos as int),
    decreases plan().len() - pos,
{
    if pos >= plan().len() {
        assert(plan().skip(pos as int) =~= Seq::empty());
    } else {
        lemma_trace_all_ok(pos + 1, outcomes.drop_first());
        assert(seq![plan()[pos as int]] + plan().skip(pos as int + 1) =~= plan().skip(
            pos as int,
        ));
    }
}

/// On an all-success run the performed actions are exactly the plan: the
/// four entry changes in order, then the hold, then the four exit
/// changes in order — and the exit transition is the mirror image of the
/// entry transition, undoing each entry change in reverse order.
pub proof fn lemma_success_trace(outcomes: Seq<bool>)
    requires
        outcomes.len() >= plan().len(),
        forall|i: int| 0 <= i < outcomes.len() ==> outcomes[i],
    ensures
        spec_trace(outcomes) == plan(),
        plan().len() == entry_steps().len() + 1 + exit_steps().len(),
        forall|i: int|
            0 <= i < entry_steps().len() ==> plan()[i] == TogglerAction::Apply(
                #[trigger] entry_steps()[i],
            ),
        plan()[entry_steps().len() as int] == TogglerAction::Hold(HOLD_MILLIS),
        forall|i: int|
            0 <= i < exit_steps().len() ==> plan()[entry_steps().len() + 1 + i]
                == TogglerAction::Apply(#[trigger] exit_steps()[i]),
        forall|i: int|
            0 <= i < exit_steps().len() ==> #[trigger] exit_steps()[i] == undo_of(
                entry_steps()[exit_steps().len() - 1 - i],
            ),
{
    lemma_trace_all_ok(0, outcomes);
    assert(plan().skip(0) =~= plan());
}

proof fn lemma_trace_fail_at(pos: int, outcomes: Seq<bool>, j: int)
    requires
        0 <= pos,
        0 <= j,
        pos + j < plan().len(),
        j < outcomes.len(),
        forall|i: int| 0 <= i < j ==> outcomes[i],
        !outcomes[j],
    ensures
        trace_from(pos as nat, outcomes) == plan().subrange(pos, pos + j + 1),
    decreases j,
{
    if j == 0 {
        assert(seq![plan()[pos]] =~= plan().subrange(pos, pos + 1));
    } else {
        lemma_trace_fail_at(pos + 1, outcomes.drop_first(), j - 1);
        assert(seq![plan()[pos]] + plan().subrange(pos + 1, pos + j + 1) =~= plan().subrange(
            pos,
            pos + j + 1,
        ));
    }
}

/// If an entry change fails, the session performs exactly the entry
/// changes up to and including the failed one: no hold and no exit
/// change is ever performed, and nothing undoes the changes already
/// applied.
pub proof fn lemma_entry_failure(outcomes: Seq<bool>, k: int)
    requires
        0 <= k < entry_steps().len(),
        k < outcomes.len(),
        forall|i: int| 0 <= i < k ==> outcomes[i],
        !outcomes[k],
    ensures
        spec_trace(outcomes) == plan().subrange(0, k + 1),
        spec_trace(outcomes).len() == k + 1,
        forall|i: int|
            0 <= i <= k ==> spec_trace(outcomes)[i] == TogglerAction::Apply(
                #[trigger] entry_steps()[i],
            ),
        forall|i: int| 0 <= i <= k ==> !(#[trigger] spec_trace(outcomes)[i] is Hold),
{
    lemma_trace_fail_at(0, outcomes, k);
}

/// The hold stands between the completed entry transition and the first
/// exit step, and lasts at least a full second.
pub proof fn lemma_hold_duration()
    ensures
        plan()[entry_steps().len() as int] == TogglerAction::Hold(HOLD_MILLIS),
        HOLD_MILLIS >= 1000,
{
}

} // verus!
