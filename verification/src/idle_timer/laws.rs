//! Laws of the idle state machine.

use crate::actions::EffectView;
use crate::brightness::BrightnessView;
use crate::config::model::{ConfigView, IdleActionKind};
use crate::idle_timer::lemmas::{lemma_any_fired_frame, lemma_first_eligible};
use crate::idle_timer::model::{dispatch_selected, flags, TimerState};
use vstd::prelude::*;

verus! {

/// Resetting is idempotent: a reset that follows a reset leaves the state
/// that it alone would have left, and asks for nothing.
pub proof fn law_reset_idempotent(s: TimerState, first: u64, second: u64)
    ensures
        s.reset(first).reset(second) == s.reset(second),
        s.reset(first).reset(first) == s.reset(first),
        s.reset(first).reset_effects() == Seq::<EffectView>::empty(),
{
    let r = s.reset(first);
    assert(!r.any_fired());
}

/// Loading the same configuration twice leaves the state that loading it
/// once leaves, and each load dispatches the same instant actions.
pub proof fn law_reload_idempotent(
    s: TimerState,
    cfg: ConfigView,
    first: u64,
    first_probe: Option<BrightnessView>,
    second: u64,
    second_probe: Option<BrightnessView>,
)
    ensures
        s.reload(cfg, first, first_probe).reload(cfg, second, second_probe) == s.reload(
            cfg,
            second,
            second_probe,
        ),
        s.reload(cfg, first, first_probe).reload_effects(cfg) == s.reload_effects(cfg),
{
    let once = s.reload(cfg, second, second_probe);
    let mid = s.reload(cfg, first, first_probe);
    let twice = mid.reload(cfg, second, second_probe);
    let ladder = cfg.active_ladder(s.on_ac);
    let base1 = (TimerState { cfg, last_activity: second, ..s }).installed(ladder);
    let base2 = (TimerState { cfg, last_activity: second, ..mid }).installed(ladder);
    assert(base1.instant_selection() =~= base2.instant_selection());
    let sel = base1.instant_selection();
    assert forall|k: IdleActionKind| base1.selects(sel, k) == base2.selects(sel, k) by {}
    let first_base = (TimerState { cfg, last_activity: first, ..s }).installed(ladder);
    assert(first_base.instant_selection() =~= sel);
    assert(first_base.selects(sel, IdleActionKind::Suspend) == base1.selects(
        sel,
        IdleActionKind::Suspend,
    ));
    assert(twice.fired =~= once.fired);
    assert(twice.active_kinds =~= once.active_kinds);
    let e1 = (TimerState { cfg, ..s }).installed(ladder);
    let e2 = (TimerState { cfg, ..mid }).installed(ladder);
    assert(e1.instant_selection() =~= e2.instant_selection());
}

/// A manual pause followed by a manual resume leaves a clean, unpaused timer
/// with an empty episode on the same ladder.
pub proof fn law_pause_resume_clean(s: TimerState, now: u64)
    ensures
        ({
            let r = s.pause(true).resume(true, now);
            &&& !r.paused()
            &&& r.clean()
            &&& r.fired == flags(s.ladder.len(), false)
            &&& r.last_activity == now
            &&& r == (TimerState { manually_paused: false, auto_paused: false, ..s.end_episode(now) })
        }),
        s.pause(true).resume_effects(true) == s.episode_effects(
            Some(crate::idle_timer::model::RESUME_DELAY_MS),
        ),
{
    let r = s.pause(true).resume(true, now);
    assert(!r.any_fired());
    lemma_any_fired_frame(s.pause(true), s);
}

/// While the timer is paused, while the compositor drives it, and inside the
/// debounce window that follows user activity, the periodic check dispatches
/// nothing and changes nothing.
pub proof fn law_check_suppressed(s: TimerState, now: u64, probe: Option<BrightnessView>)
    requires
        s.paused() || s.compositor_managed || s.in_activity_debounce(now),
    ensures
        s.check_idle(now, probe) == s,
        s.check_idle_effects(now) == Seq::<EffectView>::empty(),
{
}

/// The periodic check dispatches at most one action, one that had not fired
/// and whose kind had not fired in this episode; afterwards both are marked.
pub proof fn law_check_fires_once(s: TimerState, now: u64, probe: Option<BrightnessView>)
    requires
        s.well_formed(),
        s.check_fires(now),
    ensures
        ({
            let i = s.first_eligible(now, 0)->0;
            let after = s.check_idle(now, probe);
            &&& 0 <= i < s.ladder.len()
            &&& !s.fired[i]
            &&& !s.active_kinds.contains(s.ladder[i].kind)
            &&& after.fired == s.fired.update(i, true)
            &&& after.active_kinds == s.active_kinds.insert(s.ladder[i].kind)
            &&& !after.eligible(i, now)
        }),
{
    let cleared = TimerState { activity_debounce_until: None, ..s };
    crate::idle_timer::lemmas::lemma_eligible_frame(s, cleared, now, 0);
    lemma_first_eligible(s, now, 0);
}

/// Without an eligible action, or before the idle debounce is over, the
/// periodic check dispatches nothing and fires nothing.
pub proof fn law_check_waits(s: TimerState, now: u64, probe: Option<BrightnessView>)
    requires
        !s.check_fires(now),
    ensures
        s.check_idle_effects(now) == Seq::<EffectView>::empty(),
        s.check_idle(now, probe).fired == s.fired,
{
    let cleared = TimerState { activity_debounce_until: None, ..s };
    if !s.check_suppressed(now) {
        crate::idle_timer::lemmas::lemma_eligible_frame(s, cleared, now, 0);
    }
}

/// A selection that selects nothing dispatches nothing.
pub proof fn lemma_dispatch_nothing(
    ladder: Seq<crate::config::model::ActionView>,
    sel: Seq<bool>,
    hook: Option<Seq<char>>,
    n: int,
)
    requires
        n <= sel.len(),
        forall|i: int| 0 <= i < n ==> !sel[i],
    ensures
        dispatch_selected(ladder, sel, hook, n) == Seq::<EffectView>::empty(),
    decreases n,
{
    if n > 0 {
        lemma_dispatch_nothing(ladder, sel, hook, n - 1);
    }
}

/// Instant actions fire once per ladder installation: once they have been
/// triggered, triggering them again dispatches nothing and changes nothing.
pub proof fn law_instant_once(
    s: TimerState,
    probe: Option<BrightnessView>,
    again: Option<BrightnessView>,
)
    requires
        s.well_formed(),
    ensures
        s.trigger_instant(probe).trigger_instant_effects() == Seq::<EffectView>::empty(),
        s.trigger_instant(probe).trigger_instant(again) == s.trigger_instant(probe),
{
    let t = s.trigger_instant(probe);
    let sel = t.instant_selection();
    assert forall|i: int| 0 <= i < sel.len() implies !sel[i] by {}
    lemma_dispatch_nothing(t.ladder, sel, t.cfg.pre_suspend_command, t.ladder.len() as int);
    let u = t.trigger_instant(again);
    assert forall|k: IdleActionKind| !t.selects(sel, k) by {}
    assert(u.fired =~= t.fired);
    assert(u.active_kinds =~= t.active_kinds);
}

/// The resume command runs at the end of an episode exactly if something
/// fired and a suspend was started in it: at once when activity ends the
/// episode, after a short delay when a resume does.
pub proof fn law_resume_pairing(s: TimerState, command: Seq<char>, manual: bool)
    ensures
        s.reset_effects().contains(EffectView::RunCommand(command)) <==> (s.any_fired()
            && s.suspend_occurred && s.cfg.resume_command == Some(command)),
        s.resume_effects(manual).contains(
            EffectView::RunDelayed {
                delay_ms: crate::idle_timer::model::RESUME_DELAY_MS,
                command,
            },
        ) <==> (s.resumes(manual) && s.any_fired() && s.suspend_occurred && s.cfg.resume_command
            == Some(command)),
        s.reset(0).suspend_occurred == false,
{
    let e = s.reset_effects();
    let wanted = EffectView::RunCommand(command);
    if s.any_fired() && s.suspend_occurred && s.cfg.resume_command == Some(command) {
        assert(e[e.len() - 1] == wanted);
    }
    if e.contains(wanted) {
        let i = choose|i: int| 0 <= i < e.len() && e[i] == wanted;
        assert(e[i] == wanted);
    }
    let d = s.resume_effects(manual);
    let delayed = EffectView::RunDelayed {
        delay_ms: crate::idle_timer::model::RESUME_DELAY_MS,
        command,
    };
    if s.resumes(manual) && s.any_fired() && s.suspend_occurred && s.cfg.resume_command == Some(
        command,
    ) {
        assert(d[d.len() - 1] == delayed);
    }
    if d.contains(delayed) {
        let i = choose|i: int| 0 <= i < d.len() && d[i] == delayed;
        assert(d[i] == delayed);
    }
}

/// A reading saved when a brightness action fired is written back when the
/// episode ends.
pub proof fn law_brightness_round_trip(s: TimerState, now: u64, reading: BrightnessView)
    requires
        s.well_formed(),
        s.check_fires(now),
        s.ladder[s.first_eligible(now, 0)->0].kind == IdleActionKind::Brightness,
        s.brightness_backup is None,
    ensures
        s.check_idle(now, Some(reading)).brightness_backup == Some(reading),
        s.check_idle(now, Some(reading)).reset_effects().len() > 0,
        s.check_idle(now, Some(reading)).reset_effects()[0] == EffectView::RestoreBrightness(
            reading,
        ),
        s.check_idle(now, Some(reading)).reset(now).brightness_backup is None,
{
    let cleared = TimerState { activity_debounce_until: None, ..s };
    crate::idle_timer::lemmas::lemma_eligible_frame(s, cleared, now, 0);
    lemma_first_eligible(s, now, 0);
    let i = s.first_eligible(now, 0)->0;
    let after = s.check_idle(now, Some(reading));
    assert(after.fired[i]);
}


/// Inside the debounce window that follows user activity the periodic check
/// dispatches nothing and changes nothing.
pub proof fn law_no_dispatch_in_debounce(
    s: TimerState,
    activity: u64,
    now: u64,
    probe: Option<BrightnessView>,
)
    requires
        now < crate::idle_timer::model::deadline(activity, s.cfg.debounce_seconds),
    ensures
        s.reset(activity).check_idle_effects(now) == Seq::<EffectView>::empty(),
        s.reset(activity).check_idle(now, probe) == s.reset(activity),
{
}

impl TimerState {
    /// The kind of every timed action that fired is recorded, and no two
    /// timed actions of one kind have fired.
    pub open spec fn kinds_in_order(self) -> bool {
        &&& self.well_formed()
        &&& forall|i: int|
            0 <= i < self.ladder.len() && self.fired[i] && (#[trigger] self.ladder[i]).timeout_seconds
                > 0 ==> self.active_kinds.contains(self.ladder[i].kind)
        &&& forall|i: int, j: int|
            0 <= i < j < self.ladder.len() && self.fired[i] && self.fired[j] && (
            #[trigger] self.ladder[i]).timeout_seconds > 0 && (
            #[trigger] self.ladder[j]).timeout_seconds > 0 ==> self.ladder[i].kind
                != self.ladder[j].kind
    }
}

/// A new timer has fired nothing.
pub proof fn law_kinds_initial(cfg: ConfigView, now: u64)
    ensures
        TimerState::initial(cfg, now).kinds_in_order(),
{
}

/// Of the actions that fire on elapsed idle time, at most one of each kind
/// has fired at any moment, as long as the timer is driven by the periodic
/// check: the check keeps this, and so do instant actions, the end of an
/// episode, pauses, the pre-suspend hook and the installation of a ladder.
/// Forcing the ladder with `trigger_idle` or `mark_all_idle` gives it up.
pub proof fn law_kind_uniqueness(
    s: TimerState,
    now: u64,
    probe: Option<BrightnessView>,
    cfg: ConfigView,
    flag: bool,
    other: bool,
)
    requires
        s.kinds_in_order(),
    ensures
        s.check_idle(now, probe).kinds_in_order(),
        s.trigger_instant(probe).kinds_in_order(),
        s.reset(now).kinds_in_order(),
        s.pause(flag).kinds_in_order(),
        s.resume(flag, now).kinds_in_order(),
        s.pre_suspend(flag, other, now, probe).kinds_in_order(),
        s.switch_power(flag, probe).kinds_in_order(),
        s.reload(cfg, now, probe).kinds_in_order(),
{
    lemma_check_keeps_kinds(s, now, probe);
    lemma_instant_keeps_kinds(s, probe);
    lemma_instant_keeps_kinds(
        (TimerState { suspend_occurred: s.suspend_occurred || !other, ..s }).rewound(now),
        probe,
    );
    lemma_instant_keeps_kinds(
        (TimerState { on_ac: flag, ..s }).installed(s.cfg.power_ladder(flag)),
        probe,
    );
    lemma_instant_keeps_kinds(
        (TimerState { cfg, last_activity: now, ..s }).installed(cfg.active_ladder(s.on_ac)),
        probe,
    );
}

proof fn lemma_check_keeps_kinds(s: TimerState, now: u64, probe: Option<BrightnessView>)
    requires
        s.kinds_in_order(),
    ensures
        s.check_idle(now, probe).kinds_in_order(),
{
    if s.check_fires(now) {
        law_check_fires_once(s, now, probe);
        let i = s.first_eligible(now, 0)->0;
        let after = s.check_idle(now, probe);
        assert(after.ladder == s.ladder);
        assert forall|a: int, b: int|
            0 <= a < b < after.ladder.len() && after.fired[a] && after.fired[b] && (
            #[trigger] after.ladder[a]).timeout_seconds > 0 && (
            #[trigger] after.ladder[b]).timeout_seconds > 0 implies after.ladder[a].kind
            != after.ladder[b].kind by {
            if a == i {
                assert(s.fired[b]);
            } else if b == i {
                assert(s.fired[a]);
            } else {
                assert(s.fired[a] && s.fired[b]);
            }
        }
    } else {
        law_check_waits(s, now, probe);
        let cleared = TimerState { activity_debounce_until: None, ..s };
        if !s.check_suppressed(now) {
            crate::idle_timer::lemmas::lemma_eligible_frame(s, cleared, now, 0);
        }
    }
}

proof fn lemma_instant_keeps_kinds(s: TimerState, probe: Option<BrightnessView>)
    requires
        s.kinds_in_order(),
    ensures
        s.trigger_instant(probe).kinds_in_order(),
{
    let after = s.trigger_instant(probe);
    assert forall|i: int|
        0 <= i < after.ladder.len() && (#[trigger] after.ladder[i]).timeout_seconds > 0 implies (
        after.fired[i] == s.fired[i]) by {}
}

/// A rewind clears what a reset clears, but for the mark of a suspend, and
/// arms no debounce: afterwards exactly the instant actions have fired and
/// exactly their kinds are recorded, the time of the last activity is the
/// time of the rewind, no idle debounce is armed, and the brightness that was
/// saved before is gone. A reading is saved anew only where an instant
/// brightness action fires.
pub proof fn law_rewind_clears(
    s: TimerState,
    manual: bool,
    now: u64,
    probe: Option<BrightnessView>,
)
    requires
        s.well_formed(),
    ensures
        ({
            let r = s.pre_suspend(true, manual, now, probe);
            let instant = Seq::new(s.ladder.len(), |i: int| s.ladder[i].timeout_seconds == 0);
            &&& r.ladder == s.ladder
            &&& r.fired == instant
            &&& forall|k: IdleActionKind|
                r.active_kinds.contains(k) <==> exists|i: int|
                    0 <= i < s.ladder.len() && (#[trigger] s.ladder[i]).timeout_seconds == 0
                        && s.ladder[i].kind == k
            &&& r.last_activity == now
            &&& r.idle_debounce_until is None
            &&& r.activity_debounce_until == s.activity_debounce_until
            &&& r.brightness_backup == if exists|i: int|
                0 <= i < s.ladder.len() && (#[trigger] s.ladder[i]).timeout_seconds == 0
                    && s.ladder[i].kind == IdleActionKind::Brightness {
                probe
            } else {
                None
            }
            &&& (s.suspend_occurred || !manual) ==> r.suspend_occurred
        }),
{
    let base = (TimerState { suspend_occurred: s.suspend_occurred || !manual, ..s }).rewound(now);
    let sel = base.instant_selection();
    let r = s.pre_suspend(true, manual, now, probe);
    let instant = Seq::new(s.ladder.len(), |i: int| s.ladder[i].timeout_seconds == 0);
    assert(r.fired =~= instant);
    assert forall|k: IdleActionKind|
        base.selects(sel, k) <==> exists|i: int|
            0 <= i < s.ladder.len() && (#[trigger] s.ladder[i]).timeout_seconds == 0
                && s.ladder[i].kind == k by {
        if base.selects(sel, k) {
            let i = choose|i: int| 0 <= i < base.ladder.len() && #[trigger] sel[i] && base.ladder[i].kind == k;
            assert(s.ladder[i].timeout_seconds == 0 && s.ladder[i].kind == k);
        }
        if exists|i: int|
            0 <= i < s.ladder.len() && (#[trigger] s.ladder[i]).timeout_seconds == 0
                && s.ladder[i].kind == k {
            let i = choose|i: int|
                0 <= i < s.ladder.len() && (#[trigger] s.ladder[i]).timeout_seconds == 0
                    && s.ladder[i].kind == k;
            assert(sel[i]);
        }
    }
}

/// The periodic check looks at the backlight reading only where it saves
/// it: in every other case any two readings lead to the same state.
pub proof fn law_reading_unused(
    s: TimerState,
    now: u64,
    first: Option<BrightnessView>,
    second: Option<BrightnessView>,
)
    requires
        s.well_formed(),
        !s.check_captures(now),
    ensures
        s.check_idle(now, first) == s.check_idle(now, second),
{
    let cleared = TimerState { activity_debounce_until: None, ..s };
    if !s.check_suppressed(now) {
        crate::idle_timer::lemmas::lemma_eligible_frame(s, cleared, now, 0);
        lemma_first_eligible(s, now, 0);
    }
}

} // verus!
