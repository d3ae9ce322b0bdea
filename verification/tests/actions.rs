use stasis::actions::{
    can_spawn_task, dispatch, prepare_action, process_to_probe, shell_line, ActionRequest, Effect,
    MAX_SPAWNED_TASKS,
};
use stasis::config::model::{IdleAction, IdleActionKind};

fn action(command: &str, kind: IdleActionKind) -> IdleAction {
    IdleAction { timeout_seconds: 60, command: command.to_string(), kind }
}

fn shown<T: std::fmt::Debug>(items: &[T]) -> Vec<String> {
    items.iter().map(|e| format!("{:?}", e)).collect()
}

#[test]
fn suspend_requests_hook_then_command() {
    let reqs = prepare_action(&action("systemctl suspend", IdleActionKind::Suspend), false);
    assert_eq!(
        shown(&reqs),
        shown(&[ActionRequest::PreSuspend, ActionRequest::RunCommand("systemctl suspend".to_string())])
    );
    let reqs = prepare_action(&action("   ", IdleActionKind::Suspend), false);
    assert_eq!(shown(&reqs), shown(&[ActionRequest::PreSuspend]));
}

#[test]
fn lock_screen_is_skipped_when_running() {
    let a = action("swaylock -f", IdleActionKind::LockScreen);
    assert_eq!(process_to_probe(&a), Some("swaylock".to_string()));
    assert_eq!(
        shown(&prepare_action(&a, true)),
        shown(&[ActionRequest::Skip("swaylock -f".to_string())])
    );
    assert_eq!(
        shown(&prepare_action(&a, false)),
        shown(&[ActionRequest::RunCommand("swaylock -f".to_string())])
    );
    // A blank lock command cannot be probed and is run as it is.
    let blank = action("  ", IdleActionKind::LockScreen);
    assert_eq!(process_to_probe(&blank), None);
    assert_eq!(
        shown(&prepare_action(&blank, true)),
        shown(&[ActionRequest::RunCommand("  ".to_string())])
    );
}

#[test]
fn other_kinds_run_their_command_if_any() {
    for kind in [IdleActionKind::Dpms, IdleActionKind::Brightness, IdleActionKind::Custom] {
        let a = action("do it", kind);
        assert_eq!(process_to_probe(&a), None);
        assert_eq!(
            shown(&prepare_action(&a, true)),
            shown(&[ActionRequest::RunCommand("do it".to_string())])
        );
        assert!(prepare_action(&action("", kind), false).is_empty());
        assert!(prepare_action(&action(" \t", kind), false).is_empty());
    }
}

#[test]
fn dispatch_appends_effects() {
    let mut effects = vec![Effect::RunCommand("before".to_string())];
    dispatch(&action("sleep", IdleActionKind::Suspend), &Some("hook".to_string()), &mut effects);
    dispatch(&action("sleep", IdleActionKind::Suspend), &None, &mut effects);
    dispatch(&action("lock now", IdleActionKind::LockScreen), &None, &mut effects);
    dispatch(&action("", IdleActionKind::Custom), &None, &mut effects);
    assert_eq!(
        shown(&effects),
        shown(&[
            Effect::RunCommand("before".to_string()),
            Effect::PreSuspend("hook".to_string()),
            Effect::RunCommand("sleep".to_string()),
            Effect::RunCommand("sleep".to_string()),
            Effect::RunUnlessRunning { process: "lock".to_string(), command: "lock now".to_string() },
        ])
    );
}

#[test]
fn commands_are_logged_to_a_file() {
    assert_eq!(shell_line("swaylock -f", "/tmp/stasis.log"), "swaylock -f >> /tmp/stasis.log 2>&1");
}

#[test]
fn spawning_is_capped() {
    assert_eq!(MAX_SPAWNED_TASKS, 10);
    assert!(can_spawn_task(0));
    assert!(can_spawn_task(9));
    assert!(!can_spawn_task(10));
    assert!(!can_spawn_task(11));
}
