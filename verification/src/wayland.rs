//! The compositor as a source of idle signals: which globals are bound, how
//! idle inhibitors are counted, and what an idle notification does to the
//! timer.

use crate::actions::{Effect, EffectView};
use crate::idle_timer::model::TimerState;
use crate::idle_timer::IdleTimer;
use crate::text::str_eq;
use vstd::prelude::*;

verus! {

/// The globals of the compositor that the daemon binds.
#[derive(Clone, Copy, Debug, PartialEq, Eq, Structural)]
pub enum Global {
    IdleNotifier,
    Seat,
    InhibitManager,
}

/// The global that an interface name announces, if it is one of ours.
pub open spec fn global_named(interface: Seq<char>) -> Option<Global> {
    if interface == "ext_idle_notifier_v1"@ {
        Some(Global::IdleNotifier)
    } else if interface == "wl_seat"@ {
        Some(Global::Seat)
    } else if interface == "zwp_idle_inhibit_manager_v1"@ {
        Some(Global::InhibitManager)
    } else {
        None
    }
}

pub fn global_for(interface: &str) -> (g: Option<Global>)
    ensures
        g == global_named(interface@),
{
    if str_eq(interface, "ext_idle_notifier_v1") {
        Some(Global::IdleNotifier)
    } else if str_eq(interface, "wl_seat") {
        Some(Global::Seat)
    } else if str_eq(interface, "zwp_idle_inhibit_manager_v1") {
        Some(Global::InhibitManager)
    } else {
        None
    }
}

/// What the idle notification of the compositor reports.
#[derive(Clone, Copy, Debug, PartialEq, Eq, Structural)]
pub enum IdleEvent {
    Idled,
    Resumed,
}

/// The timeout of the idle notification in milliseconds for a shortest
/// timeout given in seconds, as the protocol's 32 bits hold it.
pub open spec fn notification_timeout(secs: u64) -> u32 {
    ((secs * 1000) % 0x1_0000_0000) as u32
}

pub fn notification_timeout_ms(secs: u64) -> (ms: u32)
    ensures
        ms == notification_timeout(secs),
{
    let wide: u128 = (secs as u128) * 1000;
    (wide % 0x1_0000_0000) as u32
}

/// What the daemon knows of the compositor.
#[derive(Debug)]
pub struct WaylandIdleData {
    pub idle_notifier_bound: bool,
    pub seat_bound: bool,
    pub inhibit_manager_bound: bool,
    pub active_inhibitors: u32,
    pub respect_inhibitors: bool,
}

impl WaylandIdleData {
    pub fn new(respect_inhibitors: bool) -> (d: Self)
        ensures
            d == (WaylandIdleData {
                idle_notifier_bound: false,
                seat_bound: false,
                inhibit_manager_bound: false,
                active_inhibitors: 0,
                respect_inhibitors,
            }),
    {
        WaylandIdleData {
            idle_notifier_bound: false,
            seat_bound: false,
            inhibit_manager_bound: false,
            active_inhibitors: 0,
            respect_inhibitors,
        }
    }

    /// Whether an application inhibits idling and the daemon heeds it.
    pub open spec fn inhibited(self) -> bool {
        self.respect_inhibitors && self.active_inhibitors > 0
    }

    pub fn is_inhibited(&self) -> (r: bool)
        ensures
            r == self.inhibited(),
    {
        self.respect_inhibitors && self.active_inhibitors > 0
    }

    /// Whether an idle notification can be registered: that takes the
    /// notifier and a seat.
    pub fn can_register(&self) -> (r: bool)
        ensures
            r == (self.idle_notifier_bound && self.seat_bound),
    {
        self.idle_notifier_bound && self.seat_bound
    }

    /// Notes a global that the registry announced. Returns the global that
    /// is to be bound, if the interface is one of ours.
    pub fn on_global(&mut self, interface: &str) -> (g: Option<Global>)
        ensures
            g == global_named(interface@),
            *final(self) == (match global_named(interface@) {
                Some(Global::IdleNotifier) => WaylandIdleData {
                    idle_notifier_bound: true,
                    ..*old(self)
                },
                Some(Global::Seat) => WaylandIdleData { seat_bound: true, ..*old(self) },
                Some(Global::InhibitManager) => WaylandIdleData {
                    inhibit_manager_bound: true,
                    ..*old(self)
                },
                None => *old(self),
            }),
    {
        let g = global_for(interface);
        match g {
            Some(Global::IdleNotifier) => {
                self.idle_notifier_bound = true;
            },
            Some(Global::Seat) => {
                self.seat_bound = true;
            },
            Some(Global::InhibitManager) => {
                self.inhibit_manager_bound = true;
            },
            None => {},
        }
        g
    }

    /// An inhibitor was created: the count goes up, and stays where it is
    /// once it cannot go further.
    pub fn inhibitor_created(&mut self)
        ensures
            *final(self) == (WaylandIdleData {
                active_inhibitors: if old(self).active_inhibitors < u32::MAX {
                    (old(self).active_inhibitors + 1) as u32
                } else {
                    u32::MAX
                },
                ..*old(self)
            }),
    {
        if self.active_inhibitors < u32::MAX {
            self.active_inhibitors = self.active_inhibitors + 1;
        }
    }

    /// An inhibitor went away: the count goes down, but not below zero.
    pub fn inhibitor_destroyed(&mut self)
        ensures
            *final(self) == (WaylandIdleData {
                active_inhibitors: if old(self).active_inhibitors > 0 {
                    (old(self).active_inhibitors - 1) as u32
                } else {
                    0
                },
                ..*old(self)
            }),
    {
        if self.active_inhibitors > 0 {
            self.active_inhibitors = self.active_inhibitors - 1;
        }
    }

    /// The timer after an idle notification: an `Idled` that no inhibitor
    /// holds back marks every action as fired and then forces what is left; a
    /// `Resumed` is user activity. As every action is marked before what is
    /// left is forced, an `Idled` dispatches nothing: it only keeps the
    /// periodic check from firing what the compositor has reported.
    pub open spec fn event_state(self, s: TimerState, event: IdleEvent, now: u64) -> TimerState {
        match event {
            IdleEvent::Idled => if self.inhibited() {
                s
            } else {
                s.mark_all_idle().trigger_idle()
            },
            IdleEvent::Resumed => s.reset(now),
        }
    }

    pub open spec fn event_effects(self, s: TimerState, event: IdleEvent) -> Seq<EffectView> {
        match event {
            IdleEvent::Idled => if self.inhibited() {
                Seq::empty()
            } else {
                s.mark_all_idle().trigger_idle_effects()
            },
            IdleEvent::Resumed => s.reset_effects(),
        }
    }

    /// Hands an idle notification to the timer at `now`.
    pub fn on_idle_event(&self, timer: &mut IdleTimer, event: IdleEvent, now: u64) -> (effects: Vec<
        Effect,
    >)
        ensures
            final(timer)@ == self.event_state(old(timer)@, event, now),
            effects.deep_view() == self.event_effects(old(timer)@, event),
    {
        match event {
            IdleEvent::Idled => {
                if self.is_inhibited() {
                    let effects: Vec<Effect> = Vec::new();
                    assert(effects.deep_view() =~= Seq::<EffectView>::empty());
                    effects
                } else {
                    timer.mark_all_idle();
                    timer.trigger_idle()
                }
            },
            IdleEvent::Resumed => timer.reset(now),
        }
    }
}

/// Registers the idle notification if the compositor offers what it takes:
/// the timer is then compositor managed, and the timeout to register is
/// returned.
pub fn register_notification(data: &WaylandIdleData, timer: &mut IdleTimer) -> (timeout_ms: Option<
    u32,
>)
    ensures
        final(timer)@ == (TimerState {
            compositor_managed: old(timer)@.compositor_managed || (data.idle_notifier_bound
                && data.seat_bound),
            ..old(timer)@
        }),
        timeout_ms is Some == (data.idle_notifier_bound && data.seat_bound),
        timeout_ms matches Some(ms) ==> {
            &&& old(timer)@.has_timed_action() ==> exists|t: u64|
                old(timer)@.is_shortest(t) && ms == notification_timeout(t)
            &&& !old(timer)@.has_timed_action() ==> ms == notification_timeout(
                crate::idle_timer::model::DEFAULT_TIMEOUT_SECONDS,
            )
        },
{
    if data.can_register() {
        let secs = timer.shortest_timeout();
        timer.set_compositor_managed(true);
        Some(notification_timeout_ms(secs))
    } else {
        None
    }
}

/// An `Idled` notification dispatches nothing, whatever the state of the
/// timer and whether or not an inhibitor holds it back: where it is heeded,
/// every action counts as fired afterwards.
pub proof fn law_idled_dispatches_nothing(data: WaylandIdleData, s: TimerState, now: u64)
    requires
        s.well_formed(),
    ensures
        data.event_effects(s, IdleEvent::Idled) == Seq::<EffectView>::empty(),
        !data.inhibited() ==> data.event_state(s, IdleEvent::Idled, now) == s.mark_all_idle(),
        data.inhibited() ==> data.event_state(s, IdleEvent::Idled, now) == s,
{
    let marked = s.mark_all_idle();
    let sel = marked.unfired_selection();
    assert forall|i: int| 0 <= i < sel.len() implies !sel[i] by {}
    crate::idle_timer::laws::lemma_dispatch_nothing(
        marked.ladder,
        sel,
        marked.cfg.pre_suspend_command,
        marked.ladder.len() as int,
    );
    let after = marked.trigger_idle();
    assert forall|k: crate::config::model::IdleActionKind| !marked.selects(sel, k) by {}
    assert(after.fired =~= marked.fired);
}

} // verus!
