//! The idle state engine as a mathematical state machine.
//!
//! A `TimerState` is the abstract value of an idle timer. Every operation of
//! the timer is given here as a pair of functions: the state it leads to and
//! the effects it asks for. Time is a count of milliseconds on a monotonic
//! clock that the caller reads.

use crate::actions::{dispatch_effects, EffectView};
use crate::brightness::BrightnessView;
use crate::config::model::{ActionView, ConfigView, IdleActionKind};
use vstd::prelude::*;

verus! {

/// Milliseconds that pass before a resume command is started when the
/// episode ends through `resume` rather than through user activity.
pub const RESUME_DELAY_MS: u64 = 200;

/// The timeout reported to the compositor when the ladder has no positive one.
pub const DEFAULT_TIMEOUT_SECONDS: u64 = 60;

pub struct TimerState {
    pub cfg: ConfigView,
    pub on_ac: bool,
    /// The active ladder.
    pub ladder: Seq<ActionView>,
    /// Per ladder index: fired in the current episode.
    pub fired: Seq<bool>,
    /// Kinds that fired in the current episode.
    pub active_kinds: Set<IdleActionKind>,
    pub start_time: u64,
    pub last_activity: u64,
    pub activity_debounce_until: Option<u64>,
    pub idle_debounce_until: Option<u64>,
    pub brightness_backup: Option<BrightnessView>,
    pub suspend_occurred: bool,
    pub manually_paused: bool,
    pub auto_paused: bool,
    pub compositor_managed: bool,
}

/// `len` flags, all equal to `value`.
pub open spec fn flags(len: nat, value: bool) -> Seq<bool> {
    Seq::new(len, |i: int| value)
}

/// The instant `secs` seconds after `now`, or the end of time if that is
/// beyond what the clock can show.
pub open spec fn deadline(now: u64, secs: u8) -> u64 {
    if now + secs * 1000 <= u64::MAX {
        (now + secs * 1000) as u64
    } else {
        u64::MAX
    }
}

/// The effect that writes a saved reading back, if there is one.
pub open spec fn restore_effects(backup: Option<BrightnessView>) -> Seq<EffectView> {
    match backup {
        Some(b) => seq![EffectView::RestoreBrightness(b)],
        None => Seq::empty(),
    }
}

/// The effect that runs the pre-suspend hook, if one is configured.
pub open spec fn hook_effects(hook: Option<Seq<char>>) -> Seq<EffectView> {
    match hook {
        Some(c) => seq![EffectView::PreSuspend(c)],
        None => Seq::empty(),
    }
}

/// The effect that runs the resume command: only after a suspend, and only
/// if a command is configured. With a delay it is started later.
pub open spec fn resume_effects(
    suspend_occurred: bool,
    command: Option<Seq<char>>,
    delay_ms: Option<u64>,
) -> Seq<EffectView> {
    match command {
        Some(c) if suspend_occurred => match delay_ms {
            Some(d) => seq![EffectView::RunDelayed { delay_ms: d, command: c }],
            None => seq![EffectView::RunCommand(c)],
        },
        _ => Seq::empty(),
    }
}

/// The selection that keeps of `sel` only the indices below `n`.
pub open spec fn sel_prefix(sel: Seq<bool>, n: int) -> Seq<bool> {
    Seq::new(sel.len(), |i: int| i < n && sel[i])
}

/// The effects of dispatching, in ladder order, the actions below `n` that
/// `sel` selects.
pub open spec fn dispatch_selected(
    ladder: Seq<ActionView>,
    sel: Seq<bool>,
    hook: Option<Seq<char>>,
    n: int,
) -> Seq<EffectView>
    decreases n,
{
    if n <= 0 {
        Seq::empty()
    } else {
        dispatch_selected(ladder, sel, hook, n - 1) + if sel[n - 1] {
            dispatch_effects(ladder[n - 1], hook)
        } else {
            Seq::empty()
        }
    }
}

impl TimerState {
    /// Each ladder entry has its flag.
    pub open spec fn well_formed(self) -> bool {
        self.fired.len() == self.ladder.len()
    }

    pub open spec fn paused(self) -> bool {
        self.manually_paused || self.auto_paused
    }

    /// Whether some action fired since the episode began.
    pub open spec fn any_fired(self) -> bool {
        exists|i: int| 0 <= i < self.fired.len() && #[trigger] self.fired[i]
    }

    /// Nothing fired, nothing is armed, nothing is saved for later.
    pub open spec fn clean(self) -> bool {
        &&& !self.any_fired()
        &&& self.active_kinds == Set::<IdleActionKind>::empty()
        &&& self.idle_debounce_until is None
        &&& self.brightness_backup is None
        &&& !self.suspend_occurred
    }

    /// Whether `now` lies in the window after the last activity in which
    /// nothing is dispatched.
    pub open spec fn in_activity_debounce(self, now: u64) -> bool {
        match self.activity_debounce_until {
            Some(until) => now < until,
            None => false,
        }
    }

    /// Milliseconds of inactivity at `now`: zero inside the activity
    /// debounce, else the time since the last activity.
    pub open spec fn elapsed(self, now: u64) -> u64 {
        if self.in_activity_debounce(now) || now < self.last_activity {
            0
        } else {
            (now - self.last_activity) as u64
        }
    }

    /// The state right after construction from a configuration.
    pub open spec fn initial(cfg: ConfigView, now: u64) -> TimerState {
        TimerState {
            cfg,
            on_ac: true,
            ladder: cfg.active_ladder(true),
            fired: flags(cfg.active_ladder(true).len(), false),
            active_kinds: Set::empty(),
            start_time: now,
            last_activity: now,
            activity_debounce_until: None,
            idle_debounce_until: None,
            brightness_backup: None,
            suspend_occurred: false,
            manually_paused: false,
            auto_paused: false,
            compositor_managed: false,
        }
    }

    // ----- firing -------------------------------------------------------

    /// Action `i` fires. With `track` its kind is recorded and, for the
    /// first brightness action of the episode, the reading `probe` is saved.
    /// A suspend action marks that a suspend was started.
    pub open spec fn fire_at(self, i: int, probe: Option<BrightnessView>, track: bool) -> TimerState {
        let kind = self.ladder[i].kind;
        TimerState {
            fired: self.fired.update(i, true),
            active_kinds: if track {
                self.active_kinds.insert(kind)
            } else {
                self.active_kinds
            },
            brightness_backup: if track && kind == IdleActionKind::Brightness
                && self.brightness_backup is None {
                probe
            } else {
                self.brightness_backup
            },
            suspend_occurred: self.suspend_occurred || kind == IdleActionKind::Suspend,
            ..self
        }
    }

    /// Whether `sel` selects an action of `kind`.
    pub open spec fn selects(self, sel: Seq<bool>, kind: IdleActionKind) -> bool {
        exists|i: int| 0 <= i < self.ladder.len() && #[trigger] sel[i] && self.ladder[i].kind == kind
    }

    /// Every action that `sel` selects fires.
    pub open spec fn fire_selected(
        self,
        sel: Seq<bool>,
        probe: Option<BrightnessView>,
        track: bool,
    ) -> TimerState {
        TimerState {
            fired: Seq::new(self.fired.len(), |i: int| self.fired[i] || sel[i]),
            active_kinds: if track {
                Set::new(|k: IdleActionKind| self.active_kinds.contains(k) || self.selects(sel, k))
            } else {
                self.active_kinds
            },
            brightness_backup: if track && self.brightness_backup is None && self.selects(
                sel,
                IdleActionKind::Brightness,
            ) {
                probe
            } else {
                self.brightness_backup
            },
            suspend_occurred: self.suspend_occurred || self.selects(sel, IdleActionKind::Suspend),
            ..self
        }
    }

    /// The effects of firing what `sel` selects.
    pub open spec fn selected_effects(self, sel: Seq<bool>) -> Seq<EffectView> {
        dispatch_selected(self.ladder, sel, self.cfg.pre_suspend_command, self.ladder.len() as int)
    }

    /// The instant actions that have not fired yet.
    pub open spec fn instant_selection(self) -> Seq<bool> {
        Seq::new(self.ladder.len(), |i: int| self.ladder[i].timeout_seconds == 0 && !self.fired[i])
    }

    /// The actions that have not fired yet.
    pub open spec fn unfired_selection(self) -> Seq<bool> {
        Seq::new(self.ladder.len(), |i: int| !self.fired[i])
    }

    // ----- instant actions, forced idle ---------------------------------

    pub open spec fn trigger_instant(self, probe: Option<BrightnessView>) -> TimerState {
        self.fire_selected(self.instant_selection(), probe, true)
    }

    pub open spec fn trigger_instant_effects(self) -> Seq<EffectView> {
        self.selected_effects(self.instant_selection())
    }

    pub open spec fn trigger_idle(self) -> TimerState {
        self.fire_selected(self.unfired_selection(), None, false)
    }

    pub open spec fn trigger_idle_effects(self) -> Seq<EffectView> {
        self.selected_effects(self.unfired_selection())
    }

    pub open spec fn mark_all_idle(self) -> TimerState {
        TimerState { fired: flags(self.ladder.len(), true), ..self }
    }

    // ----- end of an episode --------------------------------------------

    /// All indices are pending again and nothing of the episode is left.
    pub open spec fn end_episode(self, now: u64) -> TimerState {
        TimerState {
            last_activity: now,
            fired: flags(self.ladder.len(), false),
            active_kinds: Set::empty(),
            idle_debounce_until: None,
            brightness_backup: None,
            suspend_occurred: false,
            ..self
        }
    }

    /// What is owed when an episode ends: if something fired, the saved
    /// brightness goes back and, after a suspend, the resume command runs.
    pub open spec fn episode_effects(self, delay_ms: Option<u64>) -> Seq<EffectView> {
        if self.any_fired() {
            restore_effects(self.brightness_backup) + resume_effects(
                self.suspend_occurred,
                self.cfg.resume_command,
                delay_ms,
            )
        } else {
            Seq::empty()
        }
    }

    pub open spec fn reset(self, now: u64) -> TimerState {
        TimerState {
            activity_debounce_until: Some(deadline(now, self.cfg.debounce_seconds)),
            ..self.end_episode(now)
        }
    }

    pub open spec fn reset_effects(self) -> Seq<EffectView> {
        self.episode_effects(None)
    }

    // ----- pause and resume ---------------------------------------------

    pub open spec fn pause(self, manual: bool) -> TimerState {
        if manual {
            TimerState { manually_paused: true, auto_paused: false, ..self }
        } else if !self.manually_paused {
            TimerState { auto_paused: true, ..self }
        } else {
            self
        }
    }

    /// Whether a resume of the given sort takes effect: a manual one only
    /// while manually paused, an automatic one only while paused
    /// automatically and not manually.
    pub open spec fn resumes(self, manual: bool) -> bool {
        if manual {
            self.manually_paused
        } else {
            !self.manually_paused && self.auto_paused
        }
    }

    pub open spec fn resume(self, manual: bool, now: u64) -> TimerState {
        if self.resumes(manual) {
            TimerState { manually_paused: false, auto_paused: false, ..self.end_episode(now) }
        } else {
            self
        }
    }

    pub open spec fn resume_effects(self, manual: bool) -> Seq<EffectView> {
        if self.resumes(manual) {
            self.episode_effects(Some(RESUME_DELAY_MS))
        } else {
            Seq::empty()
        }
    }

    // ----- the periodic check -------------------------------------------

    /// Whether the periodic check leaves the timer alone at `now`.
    pub open spec fn check_suppressed(self, now: u64) -> bool {
        self.paused() || self.compositor_managed || self.in_activity_debounce(now)
    }

    /// Whether action `i` is due at `now`: it has a timeout that has
    /// elapsed, has not fired, and no action of its kind has.
    pub open spec fn eligible(self, i: int, now: u64) -> bool {
        &&& 0 <= i < self.ladder.len()
        &&& self.ladder[i].timeout_seconds > 0
        &&& !self.fired[i]
        &&& !self.active_kinds.contains(self.ladder[i].kind)
        &&& self.elapsed(now) >= self.ladder[i].timeout_seconds * 1000
    }

    /// The first index at or after `from` that is due, if any.
    pub open spec fn first_eligible(self, now: u64, from: int) -> Option<int>
        decreases self.ladder.len() - from,
    {
        if from < 0 || from >= self.ladder.len() {
            None
        } else if self.eligible(from, now) {
            Some(from)
        } else {
            self.first_eligible(now, from + 1)
        }
    }

    /// Whether the check at `now` fires an action: one is due and the idle
    /// debounce that its becoming due has armed is over.
    pub open spec fn check_fires(self, now: u64) -> bool {
        &&& !self.check_suppressed(now)
        &&& self.first_eligible(now, 0) is Some
        &&& self.idle_debounce_until matches Some(until) && now >= until
    }

    /// Whether the check at `now` saves the backlight reading that it is
    /// given: it fires a brightness action while no reading is saved. Only
    /// then does the reading matter to the check.
    pub open spec fn check_captures(self, now: u64) -> bool {
        &&& self.check_fires(now)
        &&& self.ladder[self.first_eligible(now, 0)->0].kind == IdleActionKind::Brightness
        &&& self.brightness_backup is None
    }

    /// The idle debounce, newly armed at `now`.
    pub open spec fn armed(self, now: u64) -> TimerState {
        TimerState {
            idle_debounce_until: Some(deadline(now, self.cfg.debounce_seconds)),
            ..self
        }
    }

    /// The periodic check. While suppressed it changes nothing. Else the
    /// activity debounce, now over, is dropped, and the first due action
    /// decides: with no idle debounce armed, one is armed; while it runs,
    /// nothing happens; once it is over, the action fires and the debounce is
    /// armed anew if a further action is due.
    pub open spec fn check_idle(self, now: u64, probe: Option<BrightnessView>) -> TimerState {
        if self.check_suppressed(now) {
            self
        } else {
            let s = TimerState { activity_debounce_until: None, ..self };
            match s.first_eligible(now, 0) {
                None => s,
                Some(i) => match s.idle_debounce_until {
                    None => s.armed(now),
                    Some(until) => if now < until {
                        s
                    } else {
                        let f = TimerState { idle_debounce_until: None, ..s.fire_at(i, probe, true) };
                        if f.first_eligible(now, i + 1) is Some {
                            f.armed(now)
                        } else {
                            f
                        }
                    },
                },
            }
        }
    }

    pub open spec fn check_idle_effects(self, now: u64) -> Seq<EffectView> {
        if self.check_fires(now) {
            dispatch_effects(
                self.ladder[self.first_eligible(now, 0)->0],
                self.cfg.pre_suspend_command,
            )
        } else {
            Seq::empty()
        }
    }

    // ----- pre-suspend --------------------------------------------------

    /// The ladder is rewound: the same is cleared as at the end of an
    /// episode, but for the mark of a suspend. Every index is pending again
    /// and the saved brightness is dropped. Nothing is owed for it: a rewind
    /// clears, it does not write the reading back nor run the resume command,
    /// and it does not arm the activity debounce.
    pub open spec fn rewound(self, now: u64) -> TimerState {
        TimerState { suspend_occurred: self.suspend_occurred, ..self.end_episode(now) }
    }

    /// The state after the pre-suspend hook was triggered. Unless `manual`, a
    /// suspend is marked. With `rewind` the ladder is rewound and its instant
    /// actions fire again; an instant suspend action among them marks a
    /// suspend, as every dispatch of a suspend action does.
    pub open spec fn pre_suspend(
        self,
        rewind: bool,
        manual: bool,
        now: u64,
        probe: Option<BrightnessView>,
    ) -> TimerState {
        let s = TimerState { suspend_occurred: self.suspend_occurred || !manual, ..self };
        if rewind {
            s.rewound(now).trigger_instant(probe)
        } else {
            s
        }
    }

    pub open spec fn pre_suspend_effects(self, rewind: bool, now: u64) -> Seq<EffectView> {
        hook_effects(self.cfg.pre_suspend_command) + if rewind {
            self.rewound(now).trigger_instant_effects()
        } else {
            Seq::empty()
        }
    }

    // ----- ladder installation ------------------------------------------

    /// `ladder` is installed: all its indices are pending and nothing of the
    /// episode before is left but the mark of a suspend.
    pub open spec fn installed(self, ladder: Seq<ActionView>) -> TimerState {
        TimerState {
            ladder,
            fired: flags(ladder.len(), false),
            active_kinds: Set::empty(),
            idle_debounce_until: None,
            brightness_backup: None,
            ..self
        }
    }

    pub open spec fn switch_power(self, on_ac: bool, probe: Option<BrightnessView>) -> TimerState {
        if on_ac == self.on_ac {
            self
        } else {
            (TimerState { on_ac, ..self }).installed(self.cfg.power_ladder(on_ac)).trigger_instant(
                probe,
            )
        }
    }

    pub open spec fn switch_power_effects(self, on_ac: bool) -> Seq<EffectView> {
        if on_ac == self.on_ac {
            Seq::empty()
        } else {
            restore_effects(self.brightness_backup) + (TimerState { on_ac, ..self }).installed(
                self.cfg.power_ladder(on_ac),
            ).trigger_instant_effects()
        }
    }

    pub open spec fn reload(
        self,
        cfg: ConfigView,
        now: u64,
        probe: Option<BrightnessView>,
    ) -> TimerState {
        (TimerState { cfg, last_activity: now, ..self }).installed(
            cfg.active_ladder(self.on_ac),
        ).trigger_instant(probe)
    }

    pub open spec fn reload_effects(self, cfg: ConfigView) -> Seq<EffectView> {
        (TimerState { cfg, ..self }).installed(cfg.active_ladder(self.on_ac)).trigger_instant_effects()
    }

    // ----- shortest timeout ---------------------------------------------

    /// Whether `t` is the smallest positive timeout of the ladder.
    pub open spec fn is_shortest(self, t: u64) -> bool {
        &&& t > 0
        &&& exists|i: int| 0 <= i < self.ladder.len() && (#[trigger] self.ladder[i]).timeout_seconds == t
        &&& forall|i: int|
            0 <= i < self.ladder.len() && (#[trigger] self.ladder[i]).timeout_seconds > 0 ==> t
                <= self.ladder[i].timeout_seconds
    }

    /// Whether the ladder has an action that fires on elapsed idle time.
    pub open spec fn has_timed_action(self) -> bool {
        exists|i: int| 0 <= i < self.ladder.len() && (#[trigger] self.ladder[i]).timeout_seconds > 0
    }
}

} // verus!
