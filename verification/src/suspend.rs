//! System sleep: what the timer does when the login manager announces that
//! the machine goes to sleep or has woken up.

use crate::actions::{Effect, EffectView};
use crate::brightness::{option_brightness, BrightnessState, BrightnessView};
use crate::idle_timer::model::TimerState;
use crate::idle_timer::IdleTimer;
use vstd::prelude::*;

verus! {

/// The state after a `PrepareForSleep` signal. Going to sleep runs the
/// pre-suspend hook as a manual trigger, which does not mark a suspend: the
/// login manager is handling it. Waking up changes nothing.
pub open spec fn sleep_state(
    s: TimerState,
    going_to_sleep: bool,
    now: u64,
    probe: Option<BrightnessView>,
) -> TimerState {
    if going_to_sleep {
        s.pre_suspend(false, true, now, probe)
    } else {
        s
    }
}

/// The effects of a `PrepareForSleep` signal: the pre-suspend hook before
/// sleep, the resume command after it.
pub open spec fn sleep_effects(s: TimerState, going_to_sleep: bool, now: u64) -> Seq<EffectView> {
    if going_to_sleep {
        s.pre_suspend_effects(false, now)
    } else {
        match s.cfg.resume_command {
            Some(c) => seq![EffectView::RunCommand(c)],
            None => Seq::empty(),
        }
    }
}

/// Handles one `PrepareForSleep` signal at `now`.
pub fn on_prepare_for_sleep(
    timer: &mut IdleTimer,
    going_to_sleep: bool,
    now: u64,
    probe: &Option<BrightnessState>,
) -> (effects: Vec<Effect>)
    ensures
        final(timer)@ == sleep_state(old(timer)@, going_to_sleep, now, option_brightness(*probe)),
        effects.deep_view() == sleep_effects(old(timer)@, going_to_sleep, now),
{
    if going_to_sleep {
        timer.trigger_pre_suspend(false, true, now, probe)
    } else {
        let mut effects: Vec<Effect> = Vec::new();
        match timer.resume_command() {
            Some(c) => {
                effects.push(Effect::RunCommand(c));
            },
            None => {},
        }
        assert(effects.deep_view() =~= sleep_effects(old(timer)@, going_to_sleep, now));
        effects
    }
}

} // verus!
