//! Dispatch of one action: the requests it turns into, by kind.

use crate::brightness::{BrightnessState, BrightnessView};
use crate::config::model::{option_text, ActionView, IdleAction, IdleActionKind};
use crate::text::{blank, first_word, first_word_of, is_blank};
use vstd::prelude::*;

verus! {

/// One step that the executor performs for an action.
#[derive(Debug)]
pub enum ActionRequest {
    /// Run the command in a shell.
    RunCommand(String),
    /// Run the pre-suspend hook and wait for it.
    PreSuspend,
    /// Nothing to do: the command's program is already running.
    Skip(String),
}

pub enum RequestView {
    RunCommand(Seq<char>),
    PreSuspend,
    Skip(Seq<char>),
}

impl View for ActionRequest {
    type V = RequestView;

    open spec fn view(&self) -> RequestView {
        match self {
            ActionRequest::RunCommand(c) => RequestView::RunCommand(c@),
            ActionRequest::PreSuspend => RequestView::PreSuspend,
            ActionRequest::Skip(c) => RequestView::Skip(c@),
        }
    }
}

impl DeepView for ActionRequest {
    type V = RequestView;

    open spec fn deep_view(&self) -> RequestView {
        self@
    }
}

impl Clone for ActionRequest {
    fn clone(&self) -> (r: Self)
        ensures
            r == *self,
    {
        match self {
            ActionRequest::RunCommand(c) => ActionRequest::RunCommand(c.clone()),
            ActionRequest::PreSuspend => ActionRequest::PreSuspend,
            ActionRequest::Skip(c) => ActionRequest::Skip(c.clone()),
        }
    }
}

/// The process whose presence decides whether an action runs at all: the
/// first word of a lock-screen command. Other kinds, and a blank command,
/// need no probe.
pub open spec fn probe_target(a: ActionView) -> Option<Seq<char>> {
    if a.kind == IdleActionKind::LockScreen && !blank(a.command) {
        Some(first_word(a.command))
    } else {
        None
    }
}

/// The requests that an action is dispatched as. `running` says whether the
/// probe of `probe_target` found a live process; it is ignored where no
/// probe is due.
pub open spec fn requests_for(a: ActionView, running: bool) -> Seq<RequestView> {
    match a.kind {
        IdleActionKind::Suspend => if blank(a.command) {
            seq![RequestView::PreSuspend]
        } else {
            seq![RequestView::PreSuspend, RequestView::RunCommand(a.command)]
        },
        IdleActionKind::LockScreen => if running && !blank(a.command) {
            seq![RequestView::Skip(a.command)]
        } else {
            seq![RequestView::RunCommand(a.command)]
        },
        _ => if blank(a.command) {
            Seq::empty()
        } else {
            seq![RequestView::RunCommand(a.command)]
        },
    }
}

/// The name to look for among the running processes before `action` is
/// dispatched, if its dispatch depends on one.
pub fn process_to_probe(action: &IdleAction) -> (r: Option<String>)
    ensures
        match r {
            Some(p) => probe_target(action@) == Some(p@),
            None => probe_target(action@) is None,
        },
{
    match action.kind {
        IdleActionKind::LockScreen => first_word_of(action.command.as_str()),
        _ => None,
    }
}

/// Computes the requests for one action.
pub fn prepare_action(action: &IdleAction, running: bool) -> (reqs: Vec<ActionRequest>)
    ensures
        reqs.deep_view() == requests_for(action@, running),
{
    let mut reqs: Vec<ActionRequest> = Vec::new();
    match action.kind {
        IdleActionKind::Suspend => {
            reqs.push(ActionRequest::PreSuspend);
            if !is_blank(action.command.as_str()) {
                reqs.push(ActionRequest::RunCommand(action.command.clone()));
            }
        },
        IdleActionKind::LockScreen => {
            if running && !is_blank(action.command.as_str()) {
                reqs.push(ActionRequest::Skip(action.command.clone()));
            } else {
                reqs.push(ActionRequest::RunCommand(action.command.clone()));
            }
        },
        _ => {
            if !is_blank(action.command.as_str()) {
                reqs.push(ActionRequest::RunCommand(action.command.clone()));
            }
        },
    }
    assert(reqs.deep_view() =~= requests_for(action@, running));
    reqs
}

/// What the idle timer asks its executor to do. The timer only decides;
/// commands are run and the backlight is written outside of it.
#[derive(Debug)]
pub enum Effect {
    /// Write a saved reading back to its backlight device.
    RestoreBrightness(BrightnessState),
    /// Run the pre-suspend hook and wait for it, for five seconds at most.
    PreSuspend(String),
    /// Start the command and do not wait for it.
    RunCommand(String),
    /// Start the command unless a process named `process` is running.
    RunUnlessRunning { process: String, command: String },
    /// Start the command after `delay_ms` milliseconds.
    RunDelayed { delay_ms: u64, command: String },
}

pub enum EffectView {
    RestoreBrightness(BrightnessView),
    PreSuspend(Seq<char>),
    RunCommand(Seq<char>),
    RunUnlessRunning { process: Seq<char>, command: Seq<char> },
    RunDelayed { delay_ms: u64, command: Seq<char> },
}

impl View for Effect {
    type V = EffectView;

    open spec fn view(&self) -> EffectView {
        match self {
            Effect::RestoreBrightness(b) => EffectView::RestoreBrightness(b@),
            Effect::PreSuspend(c) => EffectView::PreSuspend(c@),
            Effect::RunCommand(c) => EffectView::RunCommand(c@),
            Effect::RunUnlessRunning { process, command } => EffectView::RunUnlessRunning {
                process: process@,
                command: command@,
            },
            Effect::RunDelayed { delay_ms, command } => EffectView::RunDelayed {
                delay_ms: *delay_ms,
                command: command@,
            },
        }
    }
}

impl DeepView for Effect {
    type V = EffectView;

    open spec fn deep_view(&self) -> EffectView {
        self@
    }
}

/// The effect of one request, given the configured pre-suspend hook. A
/// pre-suspend request without a hook, and a skip, have none.
pub open spec fn request_effect(r: RequestView, hook: Option<Seq<char>>) -> Seq<EffectView> {
    match r {
        RequestView::PreSuspend => match hook {
            Some(c) => seq![EffectView::PreSuspend(c)],
            None => Seq::empty(),
        },
        RequestView::RunCommand(c) => seq![EffectView::RunCommand(c)],
        RequestView::Skip(_) => Seq::empty(),
    }
}

/// The effects of a sequence of requests, in order.
pub open spec fn request_effects(reqs: Seq<RequestView>, hook: Option<Seq<char>>) -> Seq<
    EffectView,
>
    decreases reqs.len(),
{
    if reqs.len() == 0 {
        Seq::empty()
    } else {
        request_effects(reqs.drop_last(), hook) + request_effect(reqs.last(), hook)
    }
}

/// The effects of dispatching one action: where a probe is due the decision
/// is left to the executor, else the requests are carried out as they are.
pub open spec fn dispatch_effects(a: ActionView, hook: Option<Seq<char>>) -> Seq<EffectView> {
    match probe_target(a) {
        Some(p) => seq![EffectView::RunUnlessRunning { process: p, command: a.command }],
        None => request_effects(requests_for(a, false), hook),
    }
}

/// The requests that are left of `RunUnlessRunning` once the probe is back.
pub proof fn law_probe_outcome(a: ActionView, running: bool)
    requires
        probe_target(a) is Some,
    ensures
        requests_for(a, running) == if running {
            seq![RequestView::Skip(a.command)]
        } else {
            seq![RequestView::RunCommand(a.command)]
        },
{
}

/// Appends the effects of dispatching `action` to `effects`.
pub fn dispatch(action: &IdleAction, hook: &Option<String>, effects: &mut Vec<Effect>)
    ensures
        final(effects).deep_view() == old(effects).deep_view() + dispatch_effects(
            action@,
            option_text(*hook),
        ),
{
    let ghost before = effects.deep_view();
    let ghost h = option_text(*hook);
    match process_to_probe(action) {
        Some(process) => {
            effects.push(Effect::RunUnlessRunning { process, command: action.command.clone() });
            assert(effects.deep_view() =~= before + dispatch_effects(action@, h));
        },
        None => {
            let reqs = prepare_action(action, false);
            let mut i: usize = 0;
            assert(reqs.deep_view().take(0) =~= Seq::empty());
            assert(before + Seq::<EffectView>::empty() =~= before);
            while i < reqs.len()
                invariant
                    i <= reqs.len(),
                    h == option_text(*hook),
                    effects.deep_view() == before + request_effects(
                        reqs.deep_view().take(i as int),
                        h,
                    ),
                decreases reqs.len() - i,
            {
                let ghost prev = effects.deep_view();
                let ghost done = request_effects(reqs.deep_view().take(i as int), h);
                assert(reqs.deep_view().take(i + 1).drop_last() =~= reqs.deep_view().take(
                    i as int,
                ));
                assert(reqs.deep_view().take(i + 1).last() == reqs@[i as int]@);
                match &reqs[i] {
                    ActionRequest::PreSuspend => {
                        match hook {
                            Some(c) => {
                                effects.push(Effect::PreSuspend(c.clone()));
                                assert(effects.deep_view() =~= prev.push(EffectView::PreSuspend(c@)));
                            },
                            None => {},
                        }
                    },
                    ActionRequest::RunCommand(c) => {
                        effects.push(Effect::RunCommand(c.clone()));
                        assert(effects.deep_view() =~= prev.push(EffectView::RunCommand(c@)));
                    },
                    ActionRequest::Skip(_) => {},
                }
                assert(effects.deep_view() =~= before + (done + request_effect(reqs@[i as int]@, h)));
                i += 1;
            }
            assert(reqs.deep_view().take(reqs.len() as int) =~= reqs.deep_view());
        },
    }
}

/// The shell line that runs `cmd` with both output streams appended to
/// `log_file`.
pub open spec fn logged_command(cmd: Seq<char>, log_file: Seq<char>) -> Seq<char> {
    cmd + " >> "@ + log_file + " 2>&1"@
}

pub fn shell_line(cmd: &str, log_file: &str) -> (line: String)
    ensures
        line@ == logged_command(cmd@, log_file@),
{
    let mut line = String::from_str(cmd);
    line.append(" >> ");
    line.append(log_file);
    line.append(" 2>&1");
    line
}

/// The file to which the output of the commands is appended.
pub const LOG_FILE: &'static str = "/tmp/stasis.log";

/// Seconds after which a command that still runs is given up.
pub const COMMAND_TIMEOUT_SECONDS: u64 = 30;

/// Seconds after which a pre-suspend hook that still runs is killed.
pub const PRE_SUSPEND_TIMEOUT_SECONDS: u64 = 5;

/// At most this many commands are in flight at once.
pub const MAX_SPAWNED_TASKS: usize = 10;

/// Whether one more command may be started while `in_flight` are running.
pub fn can_spawn_task(in_flight: usize) -> (r: bool)
    ensures
        r == (in_flight < MAX_SPAWNED_TASKS),
{
    in_flight < MAX_SPAWNED_TASKS
}

} // verus!
