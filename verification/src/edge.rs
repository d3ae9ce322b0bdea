//! Automatic pauses: a source that inhibits idling pauses the timer when it
//! becomes active and resumes it when it ceases to be.

use crate::actions::{Effect, EffectView};
use crate::idle_timer::model::TimerState;
use crate::idle_timer::IdleTimer;
use vstd::prelude::*;

verus! {

/// How the activity of an inhibiting source changed between two looks.
#[derive(Clone, Copy, Debug, PartialEq, Eq, Structural)]
pub enum PauseEdge {
    /// No change.
    Steady,
    /// The source became active.
    Rising,
    /// The source ceased to be active.
    Falling,
}

pub open spec fn edge_between(was_active: bool, is_active: bool) -> PauseEdge {
    if is_active && !was_active {
        PauseEdge::Rising
    } else if !is_active && was_active {
        PauseEdge::Falling
    } else {
        PauseEdge::Steady
    }
}

/// The timer after an edge: paused automatically on a rising edge, resumed
/// automatically on a falling one.
pub open spec fn edge_state(s: TimerState, edge: PauseEdge, now: u64) -> TimerState {
    match edge {
        PauseEdge::Rising => s.pause(false),
        PauseEdge::Falling => s.resume(false, now),
        PauseEdge::Steady => s,
    }
}

pub open spec fn edge_effects(s: TimerState, edge: PauseEdge) -> Seq<EffectView> {
    match edge {
        PauseEdge::Falling => s.resume_effects(false),
        _ => Seq::empty(),
    }
}

pub fn detect_edge(was_active: bool, is_active: bool) -> (edge: PauseEdge)
    ensures
        edge == edge_between(was_active, is_active),
{
    if is_active && !was_active {
        PauseEdge::Rising
    } else if !is_active && was_active {
        PauseEdge::Falling
    } else {
        PauseEdge::Steady
    }
}

/// Applies an edge to the timer at `now`.
pub fn apply_edge(timer: &mut IdleTimer, edge: PauseEdge, now: u64) -> (effects: Vec<Effect>)
    ensures
        final(timer)@ == edge_state(old(timer)@, edge, now),
        effects.deep_view() == edge_effects(old(timer)@, edge),
{
    match edge {
        PauseEdge::Rising => {
            timer.pause(false);
            let effects: Vec<Effect> = Vec::new();
            assert(effects.deep_view() =~= Seq::<EffectView>::empty());
            effects
        },
        PauseEdge::Falling => timer.resume(false, now),
        PauseEdge::Steady => {
            let effects: Vec<Effect> = Vec::new();
            assert(effects.deep_view() =~= Seq::<EffectView>::empty());
            effects
        },
    }
}

} // verus!
