//! The control endpoint: the commands it understands, what each does to the
//! idle timer, and what it answers.

use crate::actions::{Effect, EffectView};
use crate::brightness::{option_brightness, BrightnessState, BrightnessView};
use crate::config::display::{bool_text, listing};
use crate::idle_timer::model::TimerState;
use crate::idle_timer::IdleTimer;
use crate::text::{decimal, push_decimal, skip_spaces, str_eq, trim, trim_end, trimmed};
use vstd::prelude::*;

verus! {

/// The socket on which the daemon takes commands.
pub const SOCKET_PATH: &'static str = "/tmp/stasis.sock";

/// A command sent to the running daemon.
#[derive(Clone, Copy, Debug, PartialEq, Eq, Structural)]
pub enum ControlCommand {
    Reload,
    Pause,
    Resume,
    TriggerIdle,
    TriggerPreSuspend,
    ToggleInhibit,
    Stop,
    Info { json: bool },
}

/// The token that stands for a command on the socket.
pub open spec fn command_token(c: ControlCommand) -> Seq<char> {
    match c {
        ControlCommand::Reload => "reload"@,
        ControlCommand::Pause => "pause"@,
        ControlCommand::Resume => "resume"@,
        ControlCommand::TriggerIdle => "trigger_idle"@,
        ControlCommand::TriggerPreSuspend => "trigger_presuspend"@,
        ControlCommand::ToggleInhibit => "toggle_inhibit"@,
        ControlCommand::Stop => "stop"@,
        ControlCommand::Info { json } => if json {
            "info --json"@
        } else {
            "info"@
        },
    }
}

/// The command that a token stands for, if it is one.
pub open spec fn command_of(token: Seq<char>) -> Option<ControlCommand> {
    if token == "reload"@ {
        Some(ControlCommand::Reload)
    } else if token == "pause"@ {
        Some(ControlCommand::Pause)
    } else if token == "resume"@ {
        Some(ControlCommand::Resume)
    } else if token == "trigger_idle"@ {
        Some(ControlCommand::TriggerIdle)
    } else if token == "trigger_presuspend"@ {
        Some(ControlCommand::TriggerPreSuspend)
    } else if token == "toggle_inhibit"@ {
        Some(ControlCommand::ToggleInhibit)
    } else if token == "stop"@ {
        Some(ControlCommand::Stop)
    } else if token == "info"@ {
        Some(ControlCommand::Info { json: false })
    } else if token == "info --json"@ {
        Some(ControlCommand::Info { json: true })
    } else {
        None
    }
}

impl ControlCommand {
    /// The token to send for this command.
    pub fn message(&self) -> (m: &'static str)
        ensures
            m@ == command_token(*self),
    {
        match self {
            ControlCommand::Reload => "reload",
            ControlCommand::Pause => "pause",
            ControlCommand::Resume => "resume",
            ControlCommand::TriggerIdle => "trigger_idle",
            ControlCommand::TriggerPreSuspend => "trigger_presuspend",
            ControlCommand::ToggleInhibit => "toggle_inhibit",
            ControlCommand::Stop => "stop",
            ControlCommand::Info { json } => if *json {
                "info --json"
            } else {
                "info"
            },
        }
    }

    /// Whether the daemon answers this command.
    pub fn expects_reply(&self) -> (r: bool)
        ensures
            r == (*self is Info || *self is ToggleInhibit),
    {
        match self {
            ControlCommand::Info { .. } => true,
            ControlCommand::ToggleInhibit => true,
            _ => false,
        }
    }
}

/// Reads a command from what a client sent; white space around it is
/// ignored.
pub fn parse_command(text: &str) -> (r: Option<ControlCommand>)
    ensures
        r == command_of(trimmed(text@)),
{
    let t = trim(text);
    let t = t.as_str();
    if str_eq(t, "reload") {
        Some(ControlCommand::Reload)
    } else if str_eq(t, "pause") {
        Some(ControlCommand::Pause)
    } else if str_eq(t, "resume") {
        Some(ControlCommand::Resume)
    } else if str_eq(t, "trigger_idle") {
        Some(ControlCommand::TriggerIdle)
    } else if str_eq(t, "trigger_presuspend") {
        Some(ControlCommand::TriggerPreSuspend)
    } else if str_eq(t, "toggle_inhibit") {
        Some(ControlCommand::ToggleInhibit)
    } else if str_eq(t, "stop") {
        Some(ControlCommand::Stop)
    } else if str_eq(t, "info") {
        Some(ControlCommand::Info { json: false })
    } else if str_eq(t, "info --json") {
        Some(ControlCommand::Info { json: true })
    } else {
        None
    }
}

/// Trimming leaves a string alone that neither begins nor ends with white
/// space.
pub proof fn lemma_trimmed_identity(s: Seq<char>)
    requires
        s.len() > 0,
        !crate::text::is_space(s[0]),
        !crate::text::is_space(s.last()),
    ensures
        trimmed(s) == s,
{
    assert(skip_spaces(s, 0) == 0);
    assert(trim_end(s, 0) == s.len());
    assert(s.subrange(0, s.len() as int) =~= s);
}

/// Every command is read back from its own token.
pub proof fn law_command_round_trip(c: ControlCommand)
    ensures
        command_of(trimmed(command_token(c))) == Some(c),
{
    reveal_strlit("reload");
    reveal_strlit("pause");
    reveal_strlit("resume");
    reveal_strlit("trigger_idle");
    reveal_strlit("trigger_presuspend");
    reveal_strlit("toggle_inhibit");
    reveal_strlit("stop");
    reveal_strlit("info");
    reveal_strlit("info --json");
    lemma_trimmed_identity(command_token(c));
}

/// The JSON text of an object with two string fields, as `serde_json`
/// writes it.
pub uninterp spec fn json_object_text(
    first_key: Seq<char>,
    first: Seq<char>,
    second_key: Seq<char>,
    second: Seq<char>,
) -> Seq<char>;

/// Serialises an object with two string fields through `serde_json`:
/// `Value::to_string` of a `Value::Object` that holds them. The text depends
/// on the four strings alone.
#[verifier::external_body]
fn json_object(first_key: &str, first: &str, second_key: &str, second: &str) -> (r: String)
    ensures
        r@ == json_object_text(first_key@, first@, second_key@, second@),
{
    let mut fields = serde_json::Map::new();
    fields.insert(first_key.to_string(), serde_json::Value::String(first.to_string()));
    fields.insert(second_key.to_string(), serde_json::Value::String(second.to_string()));
    serde_json::Value::Object(fields).to_string()
}

/// A status for a status bar: an icon as `text` and a `tooltip`.
pub open spec fn status_text(icon: Seq<char>, tooltip: Seq<char>) -> Seq<char> {
    json_object_text("text"@, icon, "tooltip"@, tooltip)
}

pub fn status_json(icon: &str, tooltip: &str) -> (r: String)
    ensures
        r@ == status_text(icon@, tooltip@),
{
    json_object("text", icon, "tooltip", tooltip)
}

/// Icon shown while idling is not inhibited.
pub open spec fn icon_active() -> Seq<char> {
    "\u{231a}"@
}

/// Icon shown once a manual inhibition is in force.
pub open spec fn icon_blocked() -> Seq<char> {
    "\u{1f6ab}"@
}

/// Icon shown while idling is inhibited.
pub open spec fn icon_inhibited() -> Seq<char> {
    "\u{2615}"@
}

/// The answer to `toggle_inhibit`, by whether the manual inhibition was in
/// force before.
pub open spec fn toggle_reply(was_inhibited: bool) -> Seq<char> {
    if was_inhibited {
        status_text(icon_active(), "Idle inhibition cleared"@)
    } else {
        status_text(icon_blocked(), "Idle inhibition active"@)
    }
}

/// The tooltip of the JSON answer to `info`.
pub open spec fn info_tooltip(
    inhibited: bool,
    idle_secs: u64,
    uptime_secs: u64,
    paused: bool,
    manually_paused: bool,
    app_blocking: bool,
) -> Seq<char> {
    (if inhibited {
        "Idle inhibited"@
    } else {
        "Idle active"@
    }) + "\nIdle time: "@ + decimal(idle_secs as nat) + "s\nUptime: "@ + decimal(uptime_secs as nat)
        + "s\nPaused: "@ + bool_text(paused) + "\nManually paused: "@ + bool_text(manually_paused)
        + "\nApp blocking: "@ + bool_text(app_blocking)
}

/// Whole seconds of inactivity at `now`.
pub open spec fn idle_seconds(s: TimerState, now: u64) -> u64 {
    s.elapsed(now) / 1000
}

/// Whole seconds since the timer was created.
pub open spec fn uptime_seconds(s: TimerState, now: u64) -> u64 {
    if now < s.start_time {
        0
    } else {
        ((now - s.start_time) / 1000) as u64
    }
}

/// Whether idling is inhibited: by a pause of either sort or by a running
/// application.
pub open spec fn idle_inhibited(s: TimerState, app_blocking: bool) -> bool {
    s.auto_paused || s.manually_paused || app_blocking
}

/// The answer to `info`.
pub open spec fn info_reply(s: TimerState, json: bool, now: u64, app_blocking: bool) -> Seq<char> {
    let inhibited = idle_inhibited(s, app_blocking);
    if json {
        status_text(
            if inhibited {
                icon_inhibited()
            } else {
                icon_active()
            },
            info_tooltip(
                inhibited,
                idle_seconds(s, now),
                uptime_seconds(s, now),
                s.auto_paused,
                s.manually_paused,
                app_blocking,
            ),
        )
    } else {
        listing(s.cfg, Some(idle_seconds(s, now)), Some(uptime_seconds(s, now)), Some(inhibited))
    }
}

/// What is left for the endpoint itself to do after a command.
#[derive(Clone, Copy, Debug, PartialEq, Eq, Structural)]
pub enum FollowUp {
    Nothing,
    /// Read the configuration file again and hand it to the timer.
    Reload,
    /// Shut down and leave.
    Stop,
}

pub open spec fn follow_up_of(c: ControlCommand) -> FollowUp {
    match c {
        ControlCommand::Reload => FollowUp::Reload,
        ControlCommand::Stop => FollowUp::Stop,
        _ => FollowUp::Nothing,
    }
}

/// The state that a command leaves the timer in.
pub open spec fn control_state(
    s: TimerState,
    c: ControlCommand,
    now: u64,
    probe: Option<BrightnessView>,
) -> TimerState {
    match c {
        ControlCommand::Pause => s.pause(true),
        ControlCommand::Resume => s.resume(true, now),
        ControlCommand::TriggerIdle => s.trigger_idle(),
        ControlCommand::TriggerPreSuspend => s.pre_suspend(false, true, now, probe),
        ControlCommand::ToggleInhibit => if s.manually_paused {
            s.resume(true, now)
        } else {
            s.pause(true)
        },
        ControlCommand::Reload | ControlCommand::Stop | ControlCommand::Info { .. } => s,
    }
}

/// The effects that a command asks for.
pub open spec fn control_effects(s: TimerState, c: ControlCommand, now: u64) -> Seq<EffectView> {
    match c {
        ControlCommand::Resume => s.resume_effects(true),
        ControlCommand::TriggerIdle => s.trigger_idle_effects(),
        ControlCommand::TriggerPreSuspend => s.pre_suspend_effects(false, now),
        ControlCommand::ToggleInhibit => if s.manually_paused {
            s.resume_effects(true)
        } else {
            Seq::empty()
        },
        _ => Seq::empty(),
    }
}

/// The answer to a command, for those that have one.
pub open spec fn control_reply(
    s: TimerState,
    c: ControlCommand,
    now: u64,
    app_blocking: bool,
) -> Option<Seq<char>> {
    match c {
        ControlCommand::ToggleInhibit => Some(toggle_reply(s.manually_paused)),
        ControlCommand::Info { json } => Some(info_reply(s, json, now, app_blocking)),
        _ => None,
    }
}

/// What a command came to.
pub struct ControlOutcome {
    pub effects: Vec<Effect>,
    pub reply: Option<String>,
    pub follow_up: FollowUp,
}

fn push_bool(out: &mut String, b: bool)
    ensures
        final(out)@ == old(out)@ + bool_text(b),
{
    if b {
        out.append("true");
    } else {
        out.append("false");
    }
}

/// The tooltip of the JSON answer to `info`.
pub fn tooltip(
    inhibited: bool,
    idle_secs: u64,
    uptime_secs: u64,
    paused: bool,
    manually_paused: bool,
    app_blocking: bool,
) -> (r: String)
    ensures
        r@ == info_tooltip(inhibited, idle_secs, uptime_secs, paused, manually_paused, app_blocking),
{
    let mut out = String::from_str(
        if inhibited {
            "Idle inhibited"
        } else {
            "Idle active"
        },
    );
    out.append("\nIdle time: ");
    push_decimal(&mut out, idle_secs);
    out.append("s\nUptime: ");
    push_decimal(&mut out, uptime_secs);
    out.append("s\nPaused: ");
    push_bool(&mut out, paused);
    out.append("\nManually paused: ");
    push_bool(&mut out, manually_paused);
    out.append("\nApp blocking: ");
    push_bool(&mut out, app_blocking);
    out
}

/// The answer to `toggle_inhibit`.
pub fn toggle_answer(was_inhibited: bool) -> (r: String)
    ensures
        r@ == toggle_reply(was_inhibited),
{
    if was_inhibited {
        status_json("\u{231a}", "Idle inhibition cleared")
    } else {
        status_json("\u{1f6ab}", "Idle inhibition active")
    }
}

/// The answer to `info` at `now`.
pub fn info_answer(timer: &IdleTimer, json: bool, now: u64, app_blocking: bool) -> (r: String)
    ensures
        r@ == info_reply(timer@, json, now, app_blocking),
{
    let idle_secs = timer.elapsed_idle(now) / 1000;
    let start = timer.start_time();
    let uptime_secs = if now < start {
        0
    } else {
        (now - start) / 1000
    };
    let paused = timer.is_paused();
    let manually_paused = timer.is_manually_inhibited();
    let inhibited = paused || manually_paused || app_blocking;
    if json {
        let tip = tooltip(inhibited, idle_secs, uptime_secs, paused, manually_paused, app_blocking);
        status_json(
            if inhibited {
                "\u{2615}"
            } else {
                "\u{231a}"
            },
            tip.as_str(),
        )
    } else {
        timer.config().pretty_print(Some(idle_secs), Some(uptime_secs), Some(inhibited))
    }
}

/// Carries out one command against the timer at `now`. `probe` is the
/// current backlight reading; `app_blocking` says whether an inhibiting
/// application is running, which only `info` reports.
pub fn handle_command(
    timer: &mut IdleTimer,
    command: ControlCommand,
    now: u64,
    probe: &Option<BrightnessState>,
    app_blocking: bool,
) -> (out: ControlOutcome)
    ensures
        final(timer)@ == control_state(old(timer)@, command, now, option_brightness(*probe)),
        out.effects.deep_view() == control_effects(old(timer)@, command, now),
        crate::config::model::option_text(out.reply) == control_reply(
            old(timer)@,
            command,
            now,
            app_blocking,
        ),
        out.follow_up == follow_up_of(command),
{
    let mut effects: Vec<Effect> = Vec::new();
    assert(effects.deep_view() =~= Seq::<EffectView>::empty());
    let mut reply: Option<String> = None;
    let mut follow_up = FollowUp::Nothing;
    match command {
        ControlCommand::Reload => {
            follow_up = FollowUp::Reload;
        },
        ControlCommand::Pause => {
            timer.pause(true);
        },
        ControlCommand::Resume => {
            effects = timer.resume(true, now);
        },
        ControlCommand::TriggerIdle => {
            effects = timer.trigger_idle();
        },
        ControlCommand::TriggerPreSuspend => {
            effects = timer.trigger_pre_suspend(false, true, now, probe);
        },
        ControlCommand::ToggleInhibit => {
            let was_inhibited = timer.is_manually_inhibited();
            effects = timer.set_manual_inhibit(!was_inhibited, now);
            reply = Some(toggle_answer(was_inhibited));
        },
        ControlCommand::Stop => {
            follow_up = FollowUp::Stop;
        },
        ControlCommand::Info { json } => {
            reply = Some(info_answer(timer, json, now, app_blocking));
        },
    }
    ControlOutcome { effects, reply, follow_up }
}

/// The timer after the configuration file was read again: a configuration
/// that could be loaded replaces the one in force, a failure keeps it.
pub open spec fn reload_state(
    s: TimerState,
    loaded: Option<crate::config::model::ConfigView>,
    now: u64,
    probe: Option<BrightnessView>,
) -> TimerState {
    match loaded {
        Some(cfg) => s.reload(cfg, now, probe),
        None => s,
    }
}

pub open spec fn reload_effects(
    s: TimerState,
    loaded: Option<crate::config::model::ConfigView>,
) -> Seq<EffectView> {
    match loaded {
        Some(cfg) => s.reload_effects(cfg),
        None => Seq::empty(),
    }
}

/// The view of what loading gave.
pub open spec fn loaded_view(
    loaded: Option<crate::config::model::IdleConfig>,
) -> Option<crate::config::model::ConfigView> {
    match loaded {
        Some(cfg) => Some(cfg@),
        None => None,
    }
}

/// Finishes a reload at `now` with what loading the configuration file
/// gave, `None` standing for a failure. Returns whether the configuration
/// was replaced, and the effects of replacing it.
pub fn finish_reload(
    timer: &mut IdleTimer,
    loaded: &Option<crate::config::model::IdleConfig>,
    now: u64,
    probe: &Option<BrightnessState>,
) -> (r: (bool, Vec<Effect>))
    ensures
        r.0 == (*loaded is Some),
        final(timer)@ == reload_state(
            old(timer)@,
            loaded_view(*loaded),
            now,
            option_brightness(*probe),
        ),
        r.1.deep_view() == reload_effects(old(timer)@, loaded_view(*loaded)),
{
    match loaded {
        Some(cfg) => {
            let effects = timer.update_from_config(cfg, now, probe);
            (true, effects)
        },
        None => {
            let effects: Vec<Effect> = Vec::new();
            assert(effects.deep_view() =~= Seq::<EffectView>::empty());
            (false, effects)
        },
    }
}

} // verus!
