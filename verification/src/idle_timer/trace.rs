//! Invariants of the idle timer over any sequence of operations.

use crate::brightness::BrightnessView;
use crate::config::model::ConfigView;
use crate::idle_timer::laws::{law_check_fires_once, law_check_waits};
use crate::idle_timer::model::TimerState;
use vstd::prelude::*;

verus! {

/// An operation of the idle timer, with what it is told of the outside.
pub enum TimerOp {
    Reset { now: u64 },
    CheckIdle { now: u64, probe: Option<BrightnessView> },
    TriggerInstant { probe: Option<BrightnessView> },
    TriggerIdle,
    MarkAllIdle,
    Pause { manual: bool },
    Resume { manual: bool, now: u64 },
    PreSuspend { rewind: bool, manual: bool, now: u64, probe: Option<BrightnessView> },
    UpdatePowerSource { on_ac: bool, probe: Option<BrightnessView> },
    UpdateFromConfig { cfg: ConfigView, now: u64, probe: Option<BrightnessView> },
    SetCompositorManaged { value: bool },
}

impl TimerOp {
    /// Whether the operation ends the episode or installs a ladder, so that
    /// every index is pending again afterwards.
    pub open spec fn rewinds(self, s: TimerState) -> bool {
        match self {
            TimerOp::Reset { .. } => true,
            TimerOp::Resume { manual, .. } => s.resumes(manual),
            TimerOp::PreSuspend { rewind, .. } => rewind,
            TimerOp::UpdatePowerSource { on_ac, .. } => on_ac != s.on_ac,
            TimerOp::UpdateFromConfig { .. } => true,
            _ => false,
        }
    }
}

impl TimerState {
    /// The state after an operation.
    pub open spec fn step(self, op: TimerOp) -> TimerState {
        match op {
            TimerOp::Reset { now } => self.reset(now),
            TimerOp::CheckIdle { now, probe } => self.check_idle(now, probe),
            TimerOp::TriggerInstant { probe } => self.trigger_instant(probe),
            TimerOp::TriggerIdle => self.trigger_idle(),
            TimerOp::MarkAllIdle => self.mark_all_idle(),
            TimerOp::Pause { manual } => self.pause(manual),
            TimerOp::Resume { manual, now } => self.resume(manual, now),
            TimerOp::PreSuspend { rewind, manual, now, probe } => self.pre_suspend(
                rewind,
                manual,
                now,
                probe,
            ),
            TimerOp::UpdatePowerSource { on_ac, probe } => self.switch_power(on_ac, probe),
            TimerOp::UpdateFromConfig { cfg, now, probe } => self.reload(cfg, now, probe),
            TimerOp::SetCompositorManaged { value } => TimerState {
                compositor_managed: value,
                ..self
            },
        }
    }

    /// Whether an operation that leaves the ladder in place dispatches the
    /// action at index `i`: the periodic check the one action it fires, the
    /// triggers every action they select.
    pub open spec fn dispatches(self, op: TimerOp, i: int) -> bool {
        &&& 0 <= i < self.ladder.len()
        &&& match op {
            TimerOp::CheckIdle { now, .. } => self.check_fires(now) && self.first_eligible(now, 0)
                == Some(i),
            TimerOp::TriggerInstant { .. } => self.instant_selection()[i],
            TimerOp::TriggerIdle => self.unfired_selection()[i],
            _ => false,
        }
    }

    /// The state after a sequence of operations.
    pub open spec fn run(self, ops: Seq<TimerOp>) -> TimerState
        decreases ops.len(),
    {
        if ops.len() == 0 {
            self
        } else {
            self.run(ops.drop_last()).step(ops.last())
        }
    }
}

/// Whether none of the operations ends the episode or installs a ladder.
pub open spec fn within_episode(s: TimerState, ops: Seq<TimerOp>) -> bool {
    forall|k: int| 0 <= k < ops.len() ==> !(#[trigger] ops[k]).rewinds(s.run(ops.take(k)))
}

/// Every operation keeps the timer well formed.
pub proof fn law_step_well_formed(s: TimerState, op: TimerOp)
    requires
        s.well_formed(),
    ensures
        s.step(op).well_formed(),
{
    match op {
        TimerOp::CheckIdle { now, probe } => {
            let cleared = TimerState { activity_debounce_until: None, ..s };
            crate::idle_timer::lemmas::lemma_first_eligible(cleared, now, 0);
        },
        _ => {},
    }
}

/// Any sequence of operations keeps the timer well formed.
pub proof fn law_run_well_formed(s: TimerState, ops: Seq<TimerOp>)
    requires
        s.well_formed(),
    ensures
        s.run(ops).well_formed(),
    decreases ops.len(),
{
    if ops.len() > 0 {
        law_run_well_formed(s, ops.drop_last());
        law_step_well_formed(s.run(ops.drop_last()), ops.last());
    }
}

/// An operation within an episode leaves the ladder in place, keeps every
/// flag that is set, and dispatches only actions whose flag was not set,
/// setting it.
pub proof fn lemma_step_within_episode(s: TimerState, op: TimerOp, i: int)
    requires
        s.well_formed(),
        !op.rewinds(s),
        0 <= i < s.ladder.len(),
    ensures
        s.step(op).ladder == s.ladder,
        s.fired[i] ==> s.step(op).fired[i],
        s.dispatches(op, i) ==> !s.fired[i] && s.step(op).fired[i],
{
    match op {
        TimerOp::CheckIdle { now, probe } => {
            if s.check_fires(now) {
                law_check_fires_once(s, now, probe);
            } else {
                law_check_waits(s, now, probe);
            }
        },
        _ => {},
    }
}

/// A part of an episode is within the episode.
pub proof fn lemma_front_within_episode(s: TimerState, ops: Seq<TimerOp>, n: int)
    requires
        within_episode(s, ops),
        0 <= n <= ops.len(),
    ensures
        within_episode(s, ops.take(n)),
{
    let front = ops.take(n);
    assert forall|k: int| 0 <= k < front.len() implies !(#[trigger] front[k]).rewinds(
        s.run(front.take(k)),
    ) by {
        assert(front.take(k) =~= ops.take(k));
        assert(front[k] == ops[k]);
    }
}

/// Within an episode the ladder stays in place.
pub proof fn lemma_run_keeps_ladder(s: TimerState, ops: Seq<TimerOp>)
    requires
        s.well_formed(),
        within_episode(s, ops),
    ensures
        s.run(ops).ladder == s.ladder,
        s.run(ops).well_formed(),
    decreases ops.len(),
{
    law_run_well_formed(s, ops);
    if ops.len() > 0 {
        let front = ops.drop_last();
        lemma_front_within_episode(s, ops, ops.len() - 1);
        assert(ops.take(ops.len() - 1) =~= front);
        lemma_run_keeps_ladder(s, front);
        assert(!ops[ops.len() - 1].rewinds(s.run(front)));
        if s.ladder.len() > 0 {
            lemma_step_within_episode(s.run(front), ops.last(), 0);
        } else {
            lemma_step_keeps_ladder(s.run(front), ops.last());
        }
    }
}

/// An operation within an episode leaves the ladder in place.
pub proof fn lemma_step_keeps_ladder(s: TimerState, op: TimerOp)
    requires
        !op.rewinds(s),
    ensures
        s.step(op).ladder == s.ladder,
{
}

/// Within an episode a flag that is set stays set.
pub proof fn lemma_run_keeps_flags(s: TimerState, ops: Seq<TimerOp>, i: int)
    requires
        s.well_formed(),
        within_episode(s, ops),
        0 <= i < s.ladder.len(),
    ensures
        s.run(ops).ladder == s.ladder,
        s.run(ops).well_formed(),
        s.fired[i] ==> s.run(ops).fired[i],
    decreases ops.len(),
{
    lemma_run_keeps_ladder(s, ops);
    if ops.len() > 0 {
        let front = ops.drop_last();
        lemma_front_within_episode(s, ops, ops.len() - 1);
        assert(ops.take(ops.len() - 1) =~= front);
        lemma_run_keeps_flags(s, front, i);
        assert(!ops[ops.len() - 1].rewinds(s.run(front)));
        lemma_step_within_episode(s.run(front), ops.last(), i);
    }
}

/// Single dispatch per episode: in a sequence of operations of which none
/// ends the episode or installs a ladder, no action is dispatched twice.
pub proof fn law_single_dispatch(s: TimerState, ops: Seq<TimerOp>, j: int, k: int, i: int)
    requires
        s.well_formed(),
        within_episode(s, ops),
        0 <= j < k < ops.len(),
        s.run(ops.take(j)).dispatches(ops[j], i),
    ensures
        !s.run(ops.take(k)).dispatches(ops[k], i),
{
    let at_j = s.run(ops.take(j));
    let after_j = s.run(ops.take(j + 1));
    lemma_front_within_episode(s, ops, j);
    lemma_run_keeps_ladder(s, ops.take(j));
    assert(ops.take(j + 1).drop_last() =~= ops.take(j));
    assert(ops.take(j + 1).last() == ops[j]);
    assert(after_j == at_j.step(ops[j]));
    lemma_step_within_episode(at_j, ops[j], i);
    assert(after_j.fired[i]);
    // From there on the flag stays set, so the action is not dispatched again.
    let rest = ops.subrange(j + 1, k);
    lemma_run_split(s, ops.take(j + 1), rest);
    assert(ops.take(j + 1) + rest =~= ops.take(k));
    law_run_well_formed(s, ops.take(j + 1));
    assert forall|m: int| 0 <= m < rest.len() implies !(#[trigger] rest[m]).rewinds(
        after_j.run(rest.take(m)),
    ) by {
        lemma_run_split(s, ops.take(j + 1), rest.take(m));
        assert(ops.take(j + 1) + rest.take(m) =~= ops.take(j + 1 + m));
        assert(rest[m] == ops[j + 1 + m]);
    }
    lemma_run_keeps_flags(after_j, rest, i);
    let at_k = s.run(ops.take(k));
    assert(at_k.fired[i]);
    assert(at_k.ladder == s.ladder);
    if at_k.dispatches(ops[k], i) {
        lemma_step_within_episode(at_k, ops[k], i);
    }
}

/// Running a sequence is running its first part and then the rest.
pub proof fn lemma_run_split(s: TimerState, first: Seq<TimerOp>, rest: Seq<TimerOp>)
    ensures
        s.run(first + rest) == s.run(first).run(rest),
    decreases rest.len(),
{
    if rest.len() == 0 {
        assert(first + rest =~= first);
    } else {
        lemma_run_split(s, first, rest.drop_last());
        assert((first + rest).drop_last() =~= first + rest.drop_last());
        assert((first + rest).last() == rest.last());
    }
}

/// Pause suppression over any sequence: however the timer got where it is,
/// the periodic check dispatches nothing while it is paused, while the
/// compositor drives it, or inside the debounce window after activity.
pub proof fn law_paused_check_is_silent(s: TimerState, ops: Seq<TimerOp>, now: u64, i: int)
    requires
        s.run(ops).check_suppressed(now),
    ensures
        !s.run(ops).dispatches(TimerOp::CheckIdle { now, probe: None }, i),
        s.run(ops).check_idle_effects(now).len() == 0,
{
}

} // verus!
