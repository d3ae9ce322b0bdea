//! The idle timer: the one object that holds the idle state and decides
//! which actions run.
//!
//! The timer does no input or output. Every operation takes what it needs
//! to know about the outside (the time on a monotonic clock in milliseconds,
//! the current backlight reading) and returns the effects that its executor
//! is to carry out, in order.

pub mod kinds;
pub mod laws;
pub mod lemmas;
pub mod model;
pub mod trace;

use crate::actions::{dispatch, dispatch_effects, Effect, EffectView};
use crate::brightness::{clone_brightness, option_brightness, BrightnessState};
use crate::config::model::{clone_option, IdleAction, IdleActionKind, IdleConfig, Partition};
use crate::idle_timer::kinds::KindSet;
use crate::idle_timer::lemmas::{
    lemma_any_fired_frame, lemma_eligible_frame, lemma_fire_none, lemma_fire_step,
    lemma_first_eligible, lemma_sel_full,
};
use crate::idle_timer::model::{
    deadline, dispatch_selected, flags, sel_prefix, TimerState, DEFAULT_TIMEOUT_SECONDS,
    RESUME_DELAY_MS,
};
use vstd::prelude::*;

verus! {

/// One action of the active ladder with its flag: whether it fired in the
/// current episode.
struct Rung {
    action: IdleAction,
    fired: bool,
}

/// The idle timer. Its abstract value is a `TimerState`; every operation is
/// specified by the transition of the state machine that it carries out.
pub struct IdleTimer {
    cfg: IdleConfig,
    start_time: u64,
    last_activity: u64,
    debounce_until: Option<u64>,
    idle_debounce_until: Option<u64>,
    paused: bool,
    manually_paused: bool,
    on_ac: bool,
    rungs: Vec<Rung>,
    compositor_managed: bool,
    active_kinds: KindSet,
    previous_brightness: Option<BrightnessState>,
    suspend_occurred: bool,
}

/// An alias of `IdleTimer`, for callers that use this name.
pub type LegacyIdleTimer = IdleTimer;

impl View for IdleTimer {
    type V = TimerState;

    closed spec fn view(&self) -> TimerState {
        TimerState {
            cfg: self.cfg@,
            on_ac: self.on_ac,
            ladder: Seq::new(self.rungs@.len(), |i: int| self.rungs@[i].action@),
            fired: Seq::new(self.rungs@.len(), |i: int| self.rungs@[i].fired),
            active_kinds: self.active_kinds@,
            start_time: self.start_time,
            last_activity: self.last_activity,
            activity_debounce_until: self.debounce_until,
            idle_debounce_until: self.idle_debounce_until,
            brightness_backup: option_brightness(self.previous_brightness),
            suspend_occurred: self.suspend_occurred,
            manually_paused: self.manually_paused,
            auto_paused: self.paused,
            compositor_managed: self.compositor_managed,
        }
    }
}

/// The instant `secs` seconds after `now`, saturating at the end of time.
pub fn deadline_after(now: u64, secs: u8) -> (r: u64)
    ensures
        r == deadline(now, secs),
{
    let d: u64 = (secs as u64) * 1000;
    if now <= u64::MAX - d {
        now + d
    } else {
        u64::MAX
    }
}

/// The rungs of a ladder that has just been installed: nothing has fired.
fn to_rungs(ladder: &Vec<IdleAction>) -> (rungs: Vec<Rung>)
    ensures
        rungs@.len() == ladder@.len(),
        forall|i: int| 0 <= i < rungs@.len() ==> (#[trigger] rungs@[i]).action == ladder@[i],
        forall|i: int| 0 <= i < rungs@.len() ==> !(#[trigger] rungs@[i]).fired,
{
    let mut rungs: Vec<Rung> = Vec::new();
    let mut i: usize = 0;
    while i < ladder.len()
        invariant
            i <= ladder.len(),
            rungs@.len() == i,
            forall|j: int| 0 <= j < i ==> (#[trigger] rungs@[j]).action == ladder@[j],
            forall|j: int| 0 <= j < i ==> !(#[trigger] rungs@[j]).fired,
        decreases ladder.len() - i,
    {
        rungs.push(Rung { action: ladder[i].clone(), fired: false });
        i += 1;
    }
    rungs
}

/// The ladder that a configuration makes active for a power source.
fn active_ladder(cfg: &IdleConfig, on_ac: bool) -> (r: Vec<IdleAction>)
    ensures
        r.deep_view() == cfg@.active_ladder(on_ac),
{
    let ac = cfg.ladder(Partition::Ac);
    let battery = cfg.ladder(Partition::Battery);
    if ac.len() > 0 || battery.len() > 0 {
        if on_ac {
            ac
        } else {
            battery
        }
    } else {
        cfg.ladder(Partition::Desktop)
    }
}

impl IdleTimer {
    /// A timer for `cfg`, created at `now` and assumed to be on AC power.
    pub fn new(cfg: &IdleConfig, now: u64) -> (t: Self)
        ensures
            t@ == TimerState::initial(cfg@, now),
            t@.well_formed(),
    {
        let ladder = active_ladder(cfg, true);
        let rungs = to_rungs(&ladder);
        let t = IdleTimer {
            cfg: cfg.clone(),
            start_time: now,
            last_activity: now,
            debounce_until: None,
            idle_debounce_until: None,
            paused: false,
            manually_paused: false,
            on_ac: true,
            rungs,
            compositor_managed: false,
            active_kinds: KindSet::new(),
            previous_brightness: None,
            suspend_occurred: false,
        };
        assert(t@.ladder =~= ladder.deep_view());
        assert(t@.fired =~= flags(ladder.deep_view().len(), false));
        t
    }

    /// Every timer is well formed: each action of its ladder has its flag.
    pub proof fn lemma_well_formed(&self)
        ensures
            self@.well_formed(),
    {
    }

    // ----- reading the state --------------------------------------------

    pub fn config(&self) -> (cfg: &IdleConfig)
        ensures
            cfg@ == self@.cfg,
    {
        &self.cfg
    }

    pub fn start_time(&self) -> (r: u64)
        ensures
            r == self@.start_time,
    {
        self.start_time
    }

    pub fn on_ac(&self) -> (r: bool)
        ensures
            r == self@.on_ac,
    {
        self.on_ac
    }

    /// Whether the timer is paused automatically, by a running application
    /// or by media playback.
    pub fn is_paused(&self) -> (r: bool)
        ensures
            r == self@.auto_paused,
    {
        self.paused
    }

    pub fn is_manually_inhibited(&self) -> (r: bool)
        ensures
            r == self@.manually_paused,
    {
        self.manually_paused
    }

    pub fn is_compositor_managed(&self) -> (r: bool)
        ensures
            r == self@.compositor_managed,
    {
        self.compositor_managed
    }

    pub fn suspend_occurred(&self) -> (r: bool)
        ensures
            r == self@.suspend_occurred,
    {
        self.suspend_occurred
    }

    pub fn resume_command(&self) -> (r: Option<String>)
        ensures
            crate::config::model::option_text(r) == self@.cfg.resume_command,
    {
        clone_option(&self.cfg.resume_command)
    }

    pub fn brightness_backup(&self) -> (r: Option<BrightnessState>)
        ensures
            option_brightness(r) == self@.brightness_backup,
    {
        clone_brightness(&self.previous_brightness)
    }

    /// Number of actions in the active ladder.
    pub fn ladder_len(&self) -> (n: usize)
        ensures
            n == self@.ladder.len(),
    {
        self.rungs.len()
    }

    /// The action at index `i` of the active ladder, if it has that many.
    pub fn action(&self, i: usize) -> (a: Option<&IdleAction>)
        ensures
            match a {
                Some(a) => i < self@.ladder.len() && a@ == self@.ladder[i as int],
                None => i >= self@.ladder.len(),
            },
    {
        if i < self.rungs.len() {
            Some(&self.rungs[i].action)
        } else {
            None
        }
    }

    /// Whether the action at index `i` fired in the current episode; an
    /// index beyond the ladder has not.
    pub fn has_fired(&self, i: usize) -> (r: bool)
        ensures
            r == (i < self@.ladder.len() && self@.fired[i as int]),
    {
        i < self.rungs.len() && self.rungs[i].fired
    }

    /// The flags of the active ladder: which actions fired in the current
    /// episode.
    pub fn fired_flags(&self) -> (r: Vec<bool>)
        ensures
            r@ == self@.fired,
    {
        let mut r: Vec<bool> = Vec::new();
        let mut i: usize = 0;
        while i < self.rungs.len()
            invariant
                i <= self.rungs.len(),
                r@.len() == i,
                forall|j: int| 0 <= j < i ==> r@[j] == self.rungs@[j].fired,
            decreases self.rungs.len() - i,
        {
            r.push(self.rungs[i].fired);
            i += 1;
        }
        assert(r@ =~= self@.fired);
        r
    }

    /// The active ladder.
    pub fn ladder(&self) -> (r: Vec<IdleAction>)
        ensures
            r.deep_view() == self@.ladder,
    {
        let mut r: Vec<IdleAction> = Vec::new();
        let mut i: usize = 0;
        while i < self.rungs.len()
            invariant
                i <= self.rungs.len(),
                r@.len() == i,
                forall|j: int| 0 <= j < i ==> r@[j] == self.rungs@[j].action,
            decreases self.rungs.len() - i,
        {
            r.push(self.rungs[i].action.clone());
            i += 1;
        }
        assert(r.deep_view() =~= self@.ladder);
        r
    }

    /// Whether an action of `kind` fired in the current episode.
    pub fn kind_active(&self, kind: IdleActionKind) -> (r: bool)
        ensures
            r == self@.active_kinds.contains(kind),
    {
        self.active_kinds.contains(kind)
    }

    /// Whether some action fired in the current episode.
    pub fn any_fired(&self) -> (r: bool)
        ensures
            r == self@.any_fired(),
    {
        let mut i: usize = 0;
        while i < self.rungs.len()
            invariant
                i <= self.rungs.len(),
                forall|j: int| 0 <= j < i ==> !self.rungs@[j].fired,
            decreases self.rungs.len() - i,
        {
            if self.rungs[i].fired {
                assert(self@.fired[i as int]);
                return true;
            }
            i += 1;
        }
        false
    }

    /// Milliseconds of inactivity at `now`: zero while the activity
    /// debounce runs, else the time since the last activity.
    pub fn elapsed_idle(&self, now: u64) -> (r: u64)
        ensures
            r == self@.elapsed(now),
    {
        if let Some(until) = self.debounce_until {
            if now < until {
                return 0;
            }
        }
        if now < self.last_activity {
            0
        } else {
            now - self.last_activity
        }
    }

    /// The smallest positive timeout of the ladder in seconds, or 60 when
    /// no action has one.
    pub fn shortest_timeout(&self) -> (t: u64)
        ensures
            self@.has_timed_action() ==> self@.is_shortest(t),
            !self@.has_timed_action() ==> t == DEFAULT_TIMEOUT_SECONDS,
    {
        let mut best: Option<u64> = None;
        let mut i: usize = 0;
        while i < self.rungs.len()
            invariant
                i <= self.rungs.len(),
                match best {
                    Some(t) => {
                        &&& t > 0
                        &&& exists|j: int|
                            0 <= j < i && (#[trigger] self@.ladder[j]).timeout_seconds == t
                        &&& forall|j: int|
                            0 <= j < i && (#[trigger] self@.ladder[j]).timeout_seconds > 0 ==> t
                                <= self@.ladder[j].timeout_seconds
                    },
                    None => forall|j: int|
                        0 <= j < i ==> (#[trigger] self@.ladder[j]).timeout_seconds == 0,
                },
            decreases self.rungs.len() - i,
        {
            let t = self.rungs[i].action.timeout_seconds;
            assert(self@.ladder[i as int] == self.rungs@[i as int].action@);
            if t > 0 {
                match best {
                    Some(b) => {
                        if t < b {
                            best = Some(t);
                        }
                    },
                    None => {
                        best = Some(t);
                    },
                }
            }
            i += 1;
        }
        match best {
            Some(t) => t,
            None => DEFAULT_TIMEOUT_SECONDS,
        }
    }

    // ----- simple transitions -------------------------------------------

    pub fn set_compositor_managed(&mut self, value: bool)
        ensures
            final(self)@ == (TimerState { compositor_managed: value, ..old(self)@ }),
    {
        self.compositor_managed = value;
    }

    /// Marks every action as fired without dispatching any.
    pub fn mark_all_idle(&mut self)
        ensures
            final(self)@ == old(self)@.mark_all_idle(),
            final(self)@.well_formed(),
    {
        self.set_flags(true);
    }

    /// Sets every flag to `value`.
    fn set_flags(&mut self, value: bool)
        ensures
            final(self)@ == (TimerState {
                fired: flags(old(self)@.ladder.len(), value),
                ..old(self)@
            }),
    {
        let mut i: usize = 0;
        while i < self.rungs.len()
            invariant
                i <= self.rungs.len(),
                self.rungs@.len() == old(self).rungs@.len(),
                self@ == (TimerState { fired: self@.fired, ..old(self)@ }),
                forall|j: int| 0 <= j < i ==> self.rungs@[j].fired == value,
            decreases self.rungs.len() - i,
        {
            let ghost before = self@;
            self.rungs[i].fired = value;
            assert(self@.ladder =~= before.ladder);
            i += 1;
        }
        assert(self@.fired =~= flags(old(self)@.ladder.len(), value));
    }

    /// Pauses the timer. A manual pause replaces an automatic one; an
    /// automatic pause does nothing while a manual one is in force.
    pub fn pause(&mut self, manually: bool)
        ensures
            final(self)@ == old(self)@.pause(manually),
    {
        if manually {
            self.manually_paused = true;
            self.paused = false;
        } else if !self.manually_paused {
            self.paused = true;
        }
    }

    /// Ends the episode: the flags and kinds are cleared and what the
    /// episode owes is returned.
    fn finish_episode(&mut self, now: u64, delay_ms: Option<u64>) -> (effects: Vec<Effect>)
        ensures
            final(self)@ == old(self)@.end_episode(now),
            effects.deep_view() == old(self)@.episode_effects(delay_ms),
            final(self)@.well_formed(),
    {
        let mut effects: Vec<Effect> = Vec::new();
        if self.any_fired() {
            if let Some(state) = &self.previous_brightness {
                effects.push(Effect::RestoreBrightness(state.clone()));
            }
            if self.suspend_occurred {
                if let Some(cmd) = &self.cfg.resume_command {
                    match delay_ms {
                        Some(d) => {
                            effects.push(Effect::RunDelayed { delay_ms: d, command: cmd.clone() });
                        },
                        None => {
                            effects.push(Effect::RunCommand(cmd.clone()));
                        },
                    }
                }
            }
        }
        assert(effects.deep_view() =~= old(self)@.episode_effects(delay_ms));
        self.last_activity = now;
        self.set_flags(false);
        self.active_kinds = KindSet::new();
        self.idle_debounce_until = None;
        self.previous_brightness = None;
        self.suspend_occurred = false;
        effects
    }

    /// Marks user activity at `now`: the episode ends and the activity
    /// debounce is armed.
    pub fn reset(&mut self, now: u64) -> (effects: Vec<Effect>)
        ensures
            final(self)@ == old(self)@.reset(now),
            effects.deep_view() == old(self)@.reset_effects(),
            final(self)@.well_formed(),
    {
        let effects = self.finish_episode(now, None);
        self.debounce_until = Some(deadline_after(now, self.cfg.debounce_seconds));
        effects
    }

    /// Resumes the timer. A resume that takes effect ends the episode.
    pub fn resume(&mut self, manually: bool, now: u64) -> (effects: Vec<Effect>)
        ensures
            final(self)@ == old(self)@.resume(manually, now),
            effects.deep_view() == old(self)@.resume_effects(manually),
            final(self)@.well_formed(),
    {
        let takes_effect = if manually {
            self.manually_paused
        } else {
            !self.manually_paused && self.paused
        };
        if takes_effect {
            self.manually_paused = false;
            self.paused = false;
            proof {
                lemma_any_fired_frame(self@, old(self)@);
            }
            self.finish_episode(now, Some(RESUME_DELAY_MS))
        } else {
            let effects: Vec<Effect> = Vec::new();
            assert(effects.deep_view() =~= Seq::<EffectView>::empty());
            effects
        }
    }

    /// Turns the manual pause on or off.
    pub fn set_manual_inhibit(&mut self, inhibit: bool, now: u64) -> (effects: Vec<Effect>)
        ensures
            final(self)@ == if inhibit {
                old(self)@.pause(true)
            } else {
                old(self)@.resume(true, now)
            },
            effects.deep_view() == if inhibit {
                Seq::<EffectView>::empty()
            } else {
                old(self)@.resume_effects(true)
            },
            final(self)@.well_formed(),
    {
        if inhibit {
            self.pause(true);
            let effects: Vec<Effect> = Vec::new();
            assert(effects.deep_view() =~= Seq::<EffectView>::empty());
            effects
        } else {
            self.resume(true, now)
        }
    }

    // ----- firing -------------------------------------------------------

    /// Fires action `i` and appends the effects of its dispatch.
    fn fire(
        &mut self,
        i: usize,
        probe: &Option<BrightnessState>,
        track: bool,
        effects: &mut Vec<Effect>,
    )
        requires
            i < old(self)@.ladder.len(),
        ensures
            final(self)@ == old(self)@.fire_at(i as int, option_brightness(*probe), track),
            final(effects).deep_view() == old(effects).deep_view() + dispatch_effects(
                old(self)@.ladder[i as int],
                old(self)@.cfg.pre_suspend_command,
            ),
            final(self)@.well_formed(),
    {
        let kind = self.rungs[i].action.kind;
        assert(self@.ladder[i as int] == self.rungs@[i as int].action@);
        self.rungs[i].fired = true;
        assert(self@.ladder =~= old(self)@.ladder);
        assert(self@.fired =~= old(self)@.fired.update(i as int, true));
        if track {
            self.active_kinds.insert(kind);
            if kind == IdleActionKind::Brightness && self.previous_brightness.is_none() {
                self.previous_brightness = clone_brightness(probe);
            }
        }
        if kind == IdleActionKind::Suspend {
            self.suspend_occurred = true;
        }
        dispatch(&self.rungs[i].action, &self.cfg.pre_suspend_command, effects);
    }

    /// Fires, in ladder order, the pending instant actions, or with
    /// `instant_only` off every pending action.
    fn fire_pending(
        &mut self,
        instant_only: bool,
        probe: &Option<BrightnessState>,
        effects: &mut Vec<Effect>,
    )
        ensures
            final(self)@ == old(self)@.fire_selected(
                if instant_only {
                    old(self)@.instant_selection()
                } else {
                    old(self)@.unfired_selection()
                },
                option_brightness(*probe),
                instant_only,
            ),
            final(effects).deep_view() == old(effects).deep_view() + old(self)@.selected_effects(
                if instant_only {
                    old(self)@.instant_selection()
                } else {
                    old(self)@.unfired_selection()
                },
            ),
            final(self)@.well_formed(),
    {
        let ghost start = self@;
        let ghost before = effects.deep_view();
        let ghost sel = if instant_only {
            start.instant_selection()
        } else {
            start.unfired_selection()
        };
        let ghost p = option_brightness(*probe);
        let ghost hook = start.cfg.pre_suspend_command;
        proof {
            lemma_fire_none(start, sel, p, instant_only);
            assert(before + Seq::<EffectView>::empty() =~= before);
        }
        let n = self.rungs.len();
        let mut i: usize = 0;
        while i < n
            invariant
                i <= n,
                n == start.ladder.len(),
                start.well_formed(),
                sel.len() == n,
                sel == if instant_only {
                    start.instant_selection()
                } else {
                    start.unfired_selection()
                },
                p == option_brightness(*probe),
                hook == start.cfg.pre_suspend_command,
                self@ == start.fire_selected(sel_prefix(sel, i as int), p, instant_only),
                effects.deep_view() == before + dispatch_selected(start.ladder, sel, hook, i as int),
            decreases n - i,
        {
            let ghost prev = self@;
            let ghost done = dispatch_selected(start.ladder, sel, hook, i as int);
            assert(self@.ladder[i as int] == self.rungs@[i as int].action@);
            assert(self@.fired[i as int] == self.rungs@[i as int].fired);
            let selected = !self.rungs[i].fired && (!instant_only
                || self.rungs[i].action.timeout_seconds == 0);
            assert(selected == sel[i as int]);
            proof {
                lemma_fire_step(start, sel, i as int, p, instant_only);
            }
            if selected {
                self.fire(i, probe, instant_only, effects);
                assert(effects.deep_view() =~= before + (done + dispatch_effects(
                    start.ladder[i as int],
                    hook,
                )));
            } else {
                assert(effects.deep_view() =~= before + (done + Seq::<EffectView>::empty()));
            }
            i += 1;
        }
        proof {
            lemma_sel_full(sel);
        }
    }

    /// Fires every instant action that has not fired since the ladder was
    /// installed. `probe` is the current backlight reading, if one can be had.
    pub fn trigger_instant_actions(&mut self, probe: &Option<BrightnessState>) -> (effects: Vec<
        Effect,
    >)
        ensures
            final(self)@ == old(self)@.trigger_instant(option_brightness(*probe)),
            effects.deep_view() == old(self)@.trigger_instant_effects(),
            final(self)@.well_formed(),
    {
        let mut effects: Vec<Effect> = Vec::new();
        assert(effects.deep_view() =~= Seq::<EffectView>::empty());
        self.fire_pending(true, probe, &mut effects);
        assert(Seq::<EffectView>::empty() + old(self)@.trigger_instant_effects() =~= old(
            self,
        )@.trigger_instant_effects());
        effects
    }

    /// Fires the instant actions of the ladder installed at construction.
    pub fn init(&mut self, probe: &Option<BrightnessState>) -> (effects: Vec<Effect>)
        ensures
            final(self)@ == old(self)@.trigger_instant(option_brightness(*probe)),
            effects.deep_view() == old(self)@.trigger_instant_effects(),
            final(self)@.well_formed(),
    {
        self.trigger_instant_actions(probe)
    }

    /// Forces every action that has not fired to dispatch now, in ladder
    /// order, whatever the elapsed time, the debounce or a pause.
    pub fn trigger_idle(&mut self) -> (effects: Vec<Effect>)
        ensures
            final(self)@ == old(self)@.trigger_idle(),
            effects.deep_view() == old(self)@.trigger_idle_effects(),
            final(self)@.well_formed(),
    {
        let mut effects: Vec<Effect> = Vec::new();
        assert(effects.deep_view() =~= Seq::<EffectView>::empty());
        let probe: Option<BrightnessState> = None;
        self.fire_pending(false, &probe, &mut effects);
        assert(Seq::<EffectView>::empty() + old(self)@.trigger_idle_effects() =~= old(
            self,
        )@.trigger_idle_effects());
        effects
    }

    // ----- the periodic check -------------------------------------------

    /// The first due index at or after `from`.
    fn find_eligible(&self, now: u64, from: usize) -> (r: Option<usize>)
        ensures
            match r {
                Some(i) => self@.first_eligible(now, from as int) == Some(i as int),
                None => self@.first_eligible(now, from as int) is None,
            },
    {
        let elapsed = self.elapsed_idle(now);
        let mut i: usize = from;
        if from >= self.rungs.len() {
            return None;
        }
        while i < self.rungs.len()
            invariant
                from <= i <= self.rungs.len(),
                elapsed == self@.elapsed(now),
                self@.first_eligible(now, from as int) == self@.first_eligible(now, i as int),
            decreases self.rungs.len() - i,
        {
            let a = &self.rungs[i].action;
            assert(self@.ladder[i as int] == self.rungs@[i as int].action@);
            assert(self@.fired[i as int] == self.rungs@[i as int].fired);
            assert((elapsed / 1000 >= a.timeout_seconds) == (elapsed >= a.timeout_seconds * 1000));
            if a.timeout_seconds > 0 && !self.rungs[i].fired && !self.active_kinds.contains(a.kind)
                && elapsed / 1000 >= a.timeout_seconds {
                return Some(i);
            }
            i += 1;
        }
        None
    }

    /// Whether the periodic check at `now` needs the current backlight
    /// reading: it does where it fires a brightness action while no reading
    /// is saved. In every other case the check does not look at the reading,
    /// and the backlight need not be read for it.
    pub fn check_needs_reading(&self, now: u64) -> (r: bool)
        ensures
            r == self@.check_captures(now),
    {
        if self.paused || self.manually_paused || self.compositor_managed {
            return false;
        }
        if let Some(until) = self.debounce_until {
            if now < until {
                return false;
            }
        }
        match self.idle_debounce_until {
            Some(until) => {
                if now < until {
                    return false;
                }
            },
            None => {
                return false;
            },
        }
        match self.find_eligible(now, 0) {
            Some(i) => {
                proof {
                    lemma_first_eligible(self@, now, 0);
                }
                assert(self@.ladder[i as int] == self.rungs@[i as int].action@);
                self.rungs[i].action.kind == IdleActionKind::Brightness
                    && self.previous_brightness.is_none()
            },
            None => false,
        }
    }

    /// The periodic check at `now`. `probe` is the current backlight
    /// reading, if one can be had.
    ///
    /// Nothing is dispatched, and nothing changes, while the timer is
    /// paused, while the compositor drives it, or inside the debounce window
    /// that follows user activity.
    pub fn check_idle(&mut self, now: u64, probe: &Option<BrightnessState>) -> (effects: Vec<Effect>)
        ensures
            final(self)@ == old(self)@.check_idle(now, option_brightness(*probe)),
            effects.deep_view() == old(self)@.check_idle_effects(now),
            final(self)@.well_formed(),
            old(self)@.check_suppressed(now) ==> effects@.len() == 0 && final(self)@ == old(self)@,
    {
        let mut effects: Vec<Effect> = Vec::new();
        assert(effects.deep_view() =~= Seq::<EffectView>::empty());
        if self.paused || self.manually_paused || self.compositor_managed {
            return effects;
        }
        if let Some(until) = self.debounce_until {
            if now < until {
                return effects;
            }
        }
        self.debounce_until = None;
        let ghost s = self@;
        proof {
            lemma_eligible_frame(old(self)@, s, now, 0);
        }
        match self.find_eligible(now, 0) {
            None => {},
            Some(i) => {
                proof {
                    lemma_first_eligible(s, now, 0);
                }
                match self.idle_debounce_until {
                    None => {
                        self.idle_debounce_until = Some(
                            deadline_after(now, self.cfg.debounce_seconds),
                        );
                    },
                    Some(until) => {
                        if now >= until {
                            assert(i < self.rungs.len());
                            self.idle_debounce_until = None;
                            self.fire(i, probe, true, &mut effects);
                            assert(effects.deep_view() =~= old(self)@.check_idle_effects(now));
                            if self.find_eligible(now, i + 1).is_some() {
                                self.idle_debounce_until = Some(
                                    deadline_after(now, self.cfg.debounce_seconds),
                                );
                            }
                        }
                    },
                }
            },
        }
        effects
    }

    // ----- pre-suspend --------------------------------------------------

    /// Runs the pre-suspend hook. Unless `manual`, a suspend is marked as
    /// started, so that the end of the episode runs the resume command. With
    /// `rewind_timers` the ladder is rewound and its instant actions fire
    /// again: the flags, the kinds, the idle debounce and the saved
    /// brightness are cleared as a reset clears them, the mark of a suspend
    /// is kept, and the activity debounce is not armed. The saved brightness
    /// is dropped without being written back.
    pub fn trigger_pre_suspend(
        &mut self,
        rewind_timers: bool,
        manual: bool,
        now: u64,
        probe: &Option<BrightnessState>,
    ) -> (effects: Vec<Effect>)
        ensures
            final(self)@ == old(self)@.pre_suspend(
                rewind_timers,
                manual,
                now,
                option_brightness(*probe),
            ),
            effects.deep_view() == old(self)@.pre_suspend_effects(rewind_timers, now),
            final(self)@.well_formed(),
    {
        let mut effects: Vec<Effect> = Vec::new();
        if !manual {
            self.suspend_occurred = true;
        }
        if let Some(cmd) = &self.cfg.pre_suspend_command {
            effects.push(Effect::PreSuspend(cmd.clone()));
        }
        let ghost head = effects.deep_view();
        assert(head =~= crate::idle_timer::model::hook_effects(old(self)@.cfg.pre_suspend_command));
        if rewind_timers {
            self.last_activity = now;
            self.set_flags(false);
            self.active_kinds = KindSet::new();
            self.idle_debounce_until = None;
            self.previous_brightness = None;
            assert(self@ == (TimerState {
                suspend_occurred: old(self)@.suspend_occurred || !manual,
                ..old(self)@
            }).rewound(now));
            self.fire_pending(true, probe, &mut effects);
        } else {
            assert(effects.deep_view() =~= head + Seq::<EffectView>::empty());
        }
        effects
    }

    // ----- ladder installation ------------------------------------------

    fn install(&mut self, ladder: Vec<IdleAction>)
        ensures
            final(self)@ == old(self)@.installed(ladder.deep_view()),
            final(self)@.well_formed(),
    {
        self.rungs = to_rungs(&ladder);
        assert(self@.ladder =~= ladder.deep_view());
        assert(self@.fired =~= flags(ladder.deep_view().len(), false));
        self.active_kinds = KindSet::new();
        self.idle_debounce_until = None;
        self.previous_brightness = None;
    }

    /// Tells the timer which power source is in use. On a change the saved
    /// brightness goes back at once, the ladder of the new power source is
    /// installed and its instant actions fire.
    pub fn update_power_source(&mut self, on_ac: bool, probe: &Option<BrightnessState>) -> (effects:
        Vec<Effect>)
        ensures
            final(self)@ == old(self)@.switch_power(on_ac, option_brightness(*probe)),
            effects.deep_view() == old(self)@.switch_power_effects(on_ac),
            final(self)@.well_formed(),
    {
        let mut effects: Vec<Effect> = Vec::new();
        assert(effects.deep_view() =~= Seq::<EffectView>::empty());
        if self.on_ac == on_ac {
            return effects;
        }
        self.on_ac = on_ac;
        if let Some(state) = &self.previous_brightness {
            effects.push(Effect::RestoreBrightness(state.clone()));
        }
        assert(effects.deep_view() =~= crate::idle_timer::model::restore_effects(
            old(self)@.brightness_backup,
        ));
        let ladder = if on_ac {
            self.cfg.ladder(Partition::Ac)
        } else {
            self.cfg.ladder(Partition::Battery)
        };
        self.install(ladder);
        self.fire_pending(true, probe, &mut effects);
        effects
    }

    /// Replaces the configuration as a whole at `now`: its ladder for the
    /// current power source is installed and its instant actions fire.
    pub fn update_from_config(
        &mut self,
        cfg: &IdleConfig,
        now: u64,
        probe: &Option<BrightnessState>,
    ) -> (effects: Vec<Effect>)
        ensures
            final(self)@ == old(self)@.reload(cfg@, now, option_brightness(*probe)),
            effects.deep_view() == old(self)@.reload_effects(cfg@),
            final(self)@.well_formed(),
    {
        let mut effects: Vec<Effect> = Vec::new();
        assert(effects.deep_view() =~= Seq::<EffectView>::empty());
        let ladder = active_ladder(cfg, self.on_ac);
        self.cfg = cfg.clone();
        self.last_activity = now;
        self.install(ladder);
        self.fire_pending(true, probe, &mut effects);
        assert(Seq::<EffectView>::empty() + old(self)@.reload_effects(cfg@) =~= old(
            self,
        )@.reload_effects(cfg@));
        effects
    }
}

/// Builds the idle timer for a configuration.
pub fn build_idle_timer(cfg: &IdleConfig, now: u64) -> (t: IdleTimer)
    ensures
        t@ == TimerState::initial(cfg@, now),
        t@.well_formed(),
{
    IdleTimer::new(cfg, now)
}

} // verus!
