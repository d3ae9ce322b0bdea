//! Input devices: which events count as user activity.

use crate::actions::{Effect, EffectView};
use crate::idle_timer::model::TimerState;
use crate::idle_timer::IdleTimer;
use vstd::prelude::*;

verus! {

/// The sort of an input event.
#[derive(Clone, Copy, Debug, PartialEq, Eq, Structural)]
pub enum InputEventKind {
    Keyboard,
    Pointer,
    Other,
}

/// Only keyboard and pointer events show that the user is there.
pub open spec fn is_activity(kind: InputEventKind) -> bool {
    kind == InputEventKind::Keyboard || kind == InputEventKind::Pointer
}

/// Whether a batch of events holds user activity.
pub open spec fn batch_has_activity(batch: Seq<InputEventKind>) -> bool {
    exists|i: int| 0 <= i < batch.len() && is_activity(#[trigger] batch[i])
}

pub fn reset_needed(batch: &Vec<InputEventKind>) -> (r: bool)
    ensures
        r == batch_has_activity(batch@),
{
    let mut i: usize = 0;
    while i < batch.len()
        invariant
            i <= batch.len(),
            forall|j: int| 0 <= j < i ==> !is_activity(#[trigger] batch@[j]),
        decreases batch.len() - i,
    {
        match batch[i] {
            InputEventKind::Keyboard | InputEventKind::Pointer => {
                return true;
            },
            InputEventKind::Other => {},
        }
        i += 1;
    }
    false
}

/// Hands one batch of events to the timer at `now`: however many events of
/// activity it holds, the timer is reset once; without any it is left alone.
pub fn on_input_batch(timer: &mut IdleTimer, batch: &Vec<InputEventKind>, now: u64) -> (effects:
    Vec<Effect>)
    ensures
        final(timer)@ == if batch_has_activity(batch@) {
            old(timer)@.reset(now)
        } else {
            old(timer)@
        },
        effects.deep_view() == if batch_has_activity(batch@) {
            old(timer)@.reset_effects()
        } else {
            Seq::<EffectView>::empty()
        },
{
    if reset_needed(batch) {
        timer.reset(now)
    } else {
        let effects: Vec<Effect> = Vec::new();
        assert(effects.deep_view() =~= Seq::<EffectView>::empty());
        effects
    }
}

} // verus!
