use stasis::actions::{prepare_action, ActionRequest, Effect};
use stasis::brightness::BrightnessState;
use stasis::config::model::{IdleAction, IdleActionKind, IdleConfig};
use stasis::idle_timer::{build_idle_timer, IdleTimer, LegacyIdleTimer};

fn action(timeout_seconds: u64, command: &str, kind: IdleActionKind) -> IdleAction {
    IdleAction { timeout_seconds, command: command.to_string(), kind }
}

fn config(entries: Vec<(&str, IdleAction)>) -> IdleConfig {
    let mut cfg = IdleConfig::new();
    for (key, a) in entries {
        cfg.insert(key.to_string(), a);
    }
    cfg
}

fn reading(value: u32) -> Option<BrightnessState> {
    Some(BrightnessState { value, device: "intel_backlight".to_string() })
}

fn shown(effects: &[Effect]) -> Vec<String> {
    effects.iter().map(|e| format!("{:?}", e)).collect()
}

fn secs(s: u64) -> u64 {
    s * 1000
}

#[test]
fn ladder_fires_after_the_idle_debounce() {
    let cfg = config(vec![
        ("desktop.brightness", action(60, "dim", IdleActionKind::Brightness)),
        ("desktop.lock-screen", action(120, "swaylock -f", IdleActionKind::LockScreen)),
    ]);
    let mut t = IdleTimer::new(&cfg, 0);
    for s in 1..60 {
        assert!(t.check_idle(secs(s), &reading(80)).is_empty());
        assert!(!t.any_fired());
    }
    // t = 60: the check arms the idle debounce.
    assert!(t.check_idle(secs(60), &reading(80)).is_empty());
    assert!(t.check_idle(secs(61), &reading(80)).is_empty());
    assert!(t.check_idle(secs(62), &reading(80)).is_empty());
    assert!(!t.any_fired());
    // t = 63: dim fires and the brightness is captured.
    let e = t.check_idle(secs(63), &reading(80));
    assert_eq!(shown(&e), vec![format!("{:?}", Effect::RunCommand("dim".to_string()))]);
    assert_eq!(t.fired_flags(), vec![true, false]);
    assert_eq!(t.brightness_backup().map(|b| b.value), Some(80));
    assert!(t.kind_active(IdleActionKind::Brightness));
    for s in 64..120 {
        assert!(t.check_idle(secs(s), &reading(10)).is_empty());
    }
    // t = 120: arms; t = 123: the lock fires.
    assert!(t.check_idle(secs(120), &reading(10)).is_empty());
    assert!(t.check_idle(secs(122), &reading(10)).is_empty());
    let e = t.check_idle(secs(123), &reading(10));
    assert_eq!(
        shown(&e),
        vec![format!(
            "{:?}",
            Effect::RunUnlessRunning {
                process: "swaylock".to_string(),
                command: "swaylock -f".to_string()
            }
        )]
    );
    assert_eq!(t.fired_flags(), vec![true, true]);
    // The first reading stays saved.
    assert_eq!(t.brightness_backup().map(|b| b.value), Some(80));
    // reset at t = 130: brightness restored, both flags cleared.
    let e = t.reset(secs(130));
    assert_eq!(
        shown(&e),
        vec![format!("{:?}", Effect::RestoreBrightness(reading(80).unwrap()))]
    );
    assert_eq!(t.fired_flags(), vec![false, false]);
    assert!(t.brightness_backup().is_none());
    assert!(!t.kind_active(IdleActionKind::Brightness));
    // A second reset is a no-op.
    let e = t.reset(secs(131));
    assert!(e.is_empty());
    assert_eq!(t.fired_flags(), vec![false, false]);
}

#[test]
fn suspend_runs_hook_then_command_and_resume_follows() {
    let mut cfg = config(vec![("desktop.suspend", action(60, "systemctl suspend", IdleActionKind::Suspend))]);
    cfg.pre_suspend_command = Some("P".to_string());
    cfg.resume_command = Some("R".to_string());
    let mut t = IdleTimer::new(&cfg, 0);
    assert!(t.check_idle(secs(60), &None).is_empty());
    let e = t.check_idle(secs(63), &None);
    assert_eq!(
        shown(&e),
        vec![
            format!("{:?}", Effect::PreSuspend("P".to_string())),
            format!("{:?}", Effect::RunCommand("systemctl suspend".to_string())),
        ]
    );
    assert!(t.suspend_occurred());
    let e = t.reset(secs(100));
    assert_eq!(shown(&e), vec![format!("{:?}", Effect::RunCommand("R".to_string()))]);
    assert!(!t.suspend_occurred());
    assert!(t.reset(secs(101)).is_empty());
}

#[test]
fn resume_command_needs_a_suspend() {
    let mut cfg = config(vec![("desktop.dpms", action(60, "off", IdleActionKind::Dpms))]);
    cfg.resume_command = Some("R".to_string());
    let mut t = IdleTimer::new(&cfg, 0);
    t.check_idle(secs(60), &None);
    assert_eq!(t.check_idle(secs(63), &None).len(), 1);
    assert!(t.reset(secs(70)).is_empty());
}

#[test]
fn lock_is_marked_fired_even_when_skipped() {
    let cfg = config(vec![("desktop.lock-screen", action(60, "swaylock -f", IdleActionKind::LockScreen))]);
    let mut t = IdleTimer::new(&cfg, 0);
    t.check_idle(secs(60), &None);
    let e = t.check_idle(secs(63), &None);
    assert_eq!(e.len(), 1);
    assert!(t.fired_flags()[0]);
    // The probe found the locker: the dispatch is a skip.
    let reqs = prepare_action(t.action(0).unwrap(), true);
    assert_eq!(reqs.len(), 1);
    assert!(matches!(&reqs[0], ActionRequest::Skip(c) if c == "swaylock -f"));
    let reqs = prepare_action(t.action(0).unwrap(), false);
    assert!(matches!(&reqs[0], ActionRequest::RunCommand(c) if c == "swaylock -f"));
}

#[test]
fn power_change_switches_ladder() {
    let cfg = config(vec![
        ("ac.brightness", action(300, "dim-ac", IdleActionKind::Brightness)),
        ("battery.startup", action(0, "powersave", IdleActionKind::Custom)),
        ("battery.brightness", action(30, "dim-bat", IdleActionKind::Brightness)),
    ]);
    let mut t = IdleTimer::new(&cfg, 0);
    assert!(t.on_ac());
    assert_eq!(t.ladder_len(), 1);
    t.check_idle(secs(300), &reading(50));
    let e = t.check_idle(secs(303), &reading(50));
    assert_eq!(shown(&e), vec![format!("{:?}", Effect::RunCommand("dim-ac".to_string()))]);
    // AC -> battery
    let e = t.update_power_source(false, &reading(5));
    assert_eq!(
        shown(&e),
        vec![
            format!("{:?}", Effect::RestoreBrightness(reading(50).unwrap())),
            format!("{:?}", Effect::RunCommand("powersave".to_string())),
        ]
    );
    assert!(!t.on_ac());
    assert_eq!(t.ladder_len(), 2);
    assert_eq!(t.fired_flags(), vec![true, false]);
    assert!(t.brightness_backup().is_none());
    // The same power source again changes nothing.
    assert!(t.update_power_source(false, &None).is_empty());
    assert_eq!(t.fired_flags(), vec![true, false]);
    // The instant action does not fire a second time.
    assert!(t.trigger_instant_actions(&None).is_empty());
}

#[test]
fn manual_pause_then_resume_processes_episode_once() {
    let mut cfg = config(vec![
        ("desktop.brightness", action(10, "dim", IdleActionKind::Brightness)),
        ("desktop.suspend", action(20, "sleep", IdleActionKind::Suspend)),
    ]);
    cfg.resume_command = Some("R".to_string());
    let mut t = IdleTimer::new(&cfg, 0);
    let e = t.trigger_idle();
    assert_eq!(e.len(), 2);
    t.pause(true);
    assert!(t.is_manually_inhibited());
    assert!(t.check_idle(secs(500), &None).is_empty());
    let e = t.resume(true, secs(600));
    assert_eq!(
        shown(&e),
        vec![format!("{:?}", Effect::RunDelayed { delay_ms: 200, command: "R".to_string() })]
    );
    assert!(!t.is_manually_inhibited());
    assert!(!t.is_paused());
    assert!(!t.any_fired());
    assert!(!t.suspend_occurred());
    // A second resume finds nothing to do.
    assert!(t.resume(true, secs(601)).is_empty());
}

#[test]
fn pause_axes_are_orthogonal() {
    let cfg = config(vec![]);
    let mut t = IdleTimer::new(&cfg, 0);
    t.pause(false);
    assert!(t.is_paused());
    t.pause(true);
    assert!(t.is_manually_inhibited());
    assert!(!t.is_paused());
    // An automatic pause or resume is ignored while manually paused.
    t.pause(false);
    assert!(!t.is_paused());
    t.resume(false, 5);
    assert!(t.is_manually_inhibited());
    t.resume(true, 6);
    assert!(!t.is_manually_inhibited());
    assert!(!t.is_paused());
}

#[test]
fn check_is_suppressed_while_paused_or_compositor_managed() {
    let cfg = config(vec![("desktop.dpms", action(1, "off", IdleActionKind::Dpms))]);
    let mut t = IdleTimer::new(&cfg, 0);
    t.pause(false);
    assert!(t.check_idle(secs(100), &None).is_empty());
    assert!(t.check_idle(secs(200), &None).is_empty());
    assert!(!t.any_fired());
    t.resume(false, secs(200));
    t.set_compositor_managed(true);
    assert!(t.is_compositor_managed());
    assert!(t.check_idle(secs(300), &None).is_empty());
    assert!(t.check_idle(secs(400), &None).is_empty());
    assert!(!t.any_fired());
    t.set_compositor_managed(false);
    assert!(t.check_idle(secs(300), &None).is_empty());
    assert_eq!(t.check_idle(secs(400), &None).len(), 1);
}

#[test]
fn nothing_fires_inside_the_activity_debounce() {
    let mut cfg = config(vec![("desktop.dpms", action(1, "off", IdleActionKind::Dpms))]);
    cfg.debounce_seconds = 5;
    let mut t = IdleTimer::new(&cfg, 0);
    t.reset(secs(10));
    assert_eq!(t.elapsed_idle(secs(12)), 0);
    assert!(t.check_idle(secs(12), &None).is_empty());
    assert!(t.check_idle(secs(14), &None).is_empty());
    assert_eq!(t.elapsed_idle(secs(15)), secs(5));
    assert_eq!(t.elapsed_idle(secs(17)), secs(7));
    // Armed at 15, fires at 20.
    assert!(t.check_idle(secs(15), &None).is_empty());
    assert!(t.check_idle(secs(19), &None).is_empty());
    assert_eq!(t.check_idle(secs(20), &None).len(), 1);
}

#[test]
fn zero_debounce_fires_on_the_next_check() {
    let mut cfg = config(vec![("desktop.dpms", action(60, "off", IdleActionKind::Dpms))]);
    cfg.debounce_seconds = 0;
    let mut t = IdleTimer::new(&cfg, 0);
    assert!(t.check_idle(secs(59), &None).is_empty());
    assert!(t.check_idle(secs(60), &None).is_empty());
    assert_eq!(t.check_idle(secs(60), &None).len(), 1);
}

#[test]
fn empty_ladder_check_is_a_no_op() {
    let cfg = config(vec![]);
    let mut t = IdleTimer::new(&cfg, 0);
    assert!(t.check_idle(secs(1000), &reading(1)).is_empty());
    assert_eq!(t.ladder_len(), 0);
    assert!(t.trigger_idle().is_empty());
    assert!(t.trigger_instant_actions(&None).is_empty());
    assert_eq!(t.shortest_timeout(), 60);
}

#[test]
fn instant_actions_fire_only_on_installation() {
    let cfg = config(vec![
        ("desktop.startup", action(0, "hello", IdleActionKind::Custom)),
        ("desktop.dpms", action(60, "off", IdleActionKind::Dpms)),
    ]);
    let mut t = IdleTimer::new(&cfg, 0);
    let e = t.init(&None);
    assert_eq!(shown(&e), vec![format!("{:?}", Effect::RunCommand("hello".to_string()))]);
    assert!(t.init(&None).is_empty());
    // The periodic check never fires it.
    t.reset(secs(1));
    assert!(t.check_idle(secs(20), &None).is_empty());
    assert!(t.check_idle(secs(30), &None).is_empty());
    assert_eq!(t.fired_flags(), vec![false, false]);
    // A reload installs the ladder anew.
    let e = t.update_from_config(&cfg, secs(40), &None);
    assert_eq!(e.len(), 1);
    let e = t.update_from_config(&cfg, secs(41), &None);
    assert_eq!(e.len(), 1);
    assert_eq!(t.fired_flags(), vec![true, false]);
}

#[test]
fn missing_brightness_device_means_no_restore() {
    let cfg = config(vec![("desktop.brightness", action(10, "dim", IdleActionKind::Brightness))]);
    let mut t = IdleTimer::new(&cfg, 0);
    t.check_idle(secs(10), &None);
    assert_eq!(t.check_idle(secs(13), &None).len(), 1);
    assert!(t.brightness_backup().is_none());
    assert!(t.reset(secs(20)).is_empty());
}

#[test]
fn shortest_timeout_ignores_instant_actions() {
    let cfg = config(vec![
        ("desktop.a", action(0, "x", IdleActionKind::Custom)),
        ("desktop.b", action(300, "y", IdleActionKind::Custom)),
        ("desktop.c", action(45, "z", IdleActionKind::Custom)),
    ]);
    let t = IdleTimer::new(&cfg, 0);
    assert_eq!(t.shortest_timeout(), 45);
}

#[test]
fn one_action_per_kind_and_episode() {
    let cfg = config(vec![
        ("desktop.a", action(10, "first", IdleActionKind::Custom)),
        ("desktop.b", action(10, "second", IdleActionKind::Custom)),
        ("desktop.dpms", action(10, "off", IdleActionKind::Dpms)),
    ]);
    let mut t = IdleTimer::new(&cfg, 0);
    t.check_idle(secs(10), &None);
    let e = t.check_idle(secs(13), &None);
    assert_eq!(shown(&e), vec![format!("{:?}", Effect::RunCommand("first".to_string()))]);
    // The next due action arms the debounce anew; the second custom action
    // is passed over because its kind has fired.
    assert!(t.check_idle(secs(14), &None).is_empty());
    let e = t.check_idle(secs(16), &None);
    assert_eq!(shown(&e), vec![format!("{:?}", Effect::RunCommand("off".to_string()))]);
    assert_eq!(t.fired_flags(), vec![true, false, true]);
    assert!(t.check_idle(secs(30), &None).is_empty());
    assert!(t.check_idle(secs(40), &None).is_empty());
    assert_eq!(t.fired_flags(), vec![true, false, true]);
}

#[test]
fn mark_all_idle_then_trigger_idle_dispatches_nothing() {
    let cfg = config(vec![("desktop.dpms", action(10, "off", IdleActionKind::Dpms))]);
    let mut t = IdleTimer::new(&cfg, 0);
    t.mark_all_idle();
    assert_eq!(t.fired_flags(), vec![true]);
    assert!(t.trigger_idle().is_empty());
    assert!(t.check_idle(secs(100), &None).is_empty());
}

#[test]
fn pre_suspend_marks_only_when_not_manual() {
    let mut cfg = config(vec![("desktop.startup", action(0, "hello", IdleActionKind::Custom))]);
    cfg.pre_suspend_command = Some("P".to_string());
    let mut t = IdleTimer::new(&cfg, 0);
    t.init(&None);
    let e = t.trigger_pre_suspend(false, true, secs(5), &None);
    assert_eq!(shown(&e), vec![format!("{:?}", Effect::PreSuspend("P".to_string()))]);
    assert!(!t.suspend_occurred());
    let e = t.trigger_pre_suspend(true, false, secs(6), &None);
    assert_eq!(
        shown(&e),
        vec![
            format!("{:?}", Effect::PreSuspend("P".to_string())),
            format!("{:?}", Effect::RunCommand("hello".to_string())),
        ]
    );
    assert!(t.suspend_occurred());
    assert_eq!(t.fired_flags(), vec![true]);
}

#[test]
fn toggle_inhibit_round_trip() {
    let cfg = config(vec![]);
    let mut t = IdleTimer::new(&cfg, 0);
    assert!(t.set_manual_inhibit(true, 1).is_empty());
    assert!(t.is_manually_inhibited());
    assert!(t.set_manual_inhibit(false, 2).is_empty());
    assert!(!t.is_manually_inhibited());
}

fn snapshot(t: &IdleTimer, now: u64) -> String {
    format!(
        "{:?} {:?} {:?} {} {} {} {} {} {} {:?} {}",
        t.fired_flags(),
        t.ladder().iter().map(|a| a.command.clone()).collect::<Vec<_>>(),
        [
            IdleActionKind::LockScreen,
            IdleActionKind::Suspend,
            IdleActionKind::Dpms,
            IdleActionKind::Brightness,
            IdleActionKind::Custom
        ]
        .map(|k| t.kind_active(k)),
        t.elapsed_idle(now),
        t.is_paused(),
        t.is_manually_inhibited(),
        t.is_compositor_managed(),
        t.suspend_occurred(),
        t.on_ac(),
        t.brightness_backup().map(|b| (b.value, b.device)),
        t.config().pretty_print(None, None, None),
    )
}

fn busy_timer() -> IdleTimer {
    let mut cfg = config(vec![
        ("desktop.startup", action(0, "hello", IdleActionKind::Custom)),
        ("desktop.brightness", action(10, "dim", IdleActionKind::Brightness)),
        ("desktop.suspend", action(20, "sleep", IdleActionKind::Suspend)),
    ]);
    cfg.resume_command = Some("R".to_string());
    let mut t = IdleTimer::new(&cfg, 0);
    t.init(&None);
    t.check_idle(secs(10), &reading(40));
    t.check_idle(secs(13), &reading(40));
    t.check_idle(secs(20), &reading(40));
    t.check_idle(secs(23), &reading(40));
    assert_eq!(t.fired_flags(), vec![true, true, true]);
    t
}

#[test]
fn reset_is_idempotent() {
    let mut once = busy_timer();
    once.reset(secs(50));
    let mut twice = busy_timer();
    twice.reset(secs(30));
    assert!(twice.reset(secs(50)).is_empty());
    for now in [secs(50), secs(52), secs(53), secs(90)] {
        assert_eq!(snapshot(&once, now), snapshot(&twice, now));
    }
}

#[test]
fn loading_a_configuration_twice_is_loading_it_once() {
    let mut cfg = config(vec![
        ("desktop.startup", action(0, "hi", IdleActionKind::Brightness)),
        ("desktop.zz", action(0, "zz", IdleActionKind::Suspend)),
        ("desktop.dpms", action(5, "off", IdleActionKind::Dpms)),
    ]);
    cfg.debounce_seconds = 1;
    let mut once = busy_timer();
    let e1 = once.update_from_config(&cfg, secs(50), &reading(7));
    let mut twice = busy_timer();
    twice.update_from_config(&cfg, secs(40), &reading(99));
    let e2 = twice.update_from_config(&cfg, secs(50), &reading(7));
    assert_eq!(shown(&e1), shown(&e2));
    assert_eq!(e1.len(), 2);
    for now in [secs(50), secs(60)] {
        assert_eq!(snapshot(&once, now), snapshot(&twice, now));
    }
    assert_eq!(once.brightness_backup().map(|b| b.value), Some(7));
    assert!(once.suspend_occurred());
}

#[test]
fn manual_pause_and_resume_leave_a_clean_timer() {
    let mut t = busy_timer();
    t.pause(false);
    t.pause(true);
    let e = t.resume(true, secs(70));
    assert_eq!(
        shown(&e),
        vec![
            format!("{:?}", Effect::RestoreBrightness(reading(40).unwrap())),
            format!("{:?}", Effect::RunDelayed { delay_ms: 200, command: "R".to_string() }),
        ]
    );
    assert!(!t.is_paused() && !t.is_manually_inhibited());
    assert_eq!(t.fired_flags(), vec![false, false, false]);
    assert!(t.brightness_backup().is_none());
    assert!(!t.suspend_occurred());
    for k in [IdleActionKind::Custom, IdleActionKind::Brightness, IdleActionKind::Suspend] {
        assert!(!t.kind_active(k));
    }
    assert_eq!(t.elapsed_idle(secs(75)), secs(5));
}

#[test]
fn a_new_timer_is_on_ac_and_has_fired_nothing() {
    let cfg = config(vec![
        ("desktop.dpms", action(10, "desktop", IdleActionKind::Dpms)),
        ("ac.dpms", action(20, "ac", IdleActionKind::Dpms)),
        ("battery.dpms", action(30, "battery", IdleActionKind::Dpms)),
    ]);
    let t: LegacyIdleTimer = build_idle_timer(&cfg, secs(5));
    assert!(t.on_ac());
    assert_eq!(t.start_time(), secs(5));
    // The power ladders win over the desktop ladder.
    assert_eq!(t.ladder().iter().map(|a| a.command.clone()).collect::<Vec<_>>(), vec!["ac"]);
    assert_eq!(t.fired_flags(), vec![false]);
    assert!(!t.has_fired(0));
    assert!(!t.is_paused() && !t.is_manually_inhibited() && !t.is_compositor_managed());
    assert!(!t.suspend_occurred());
    assert_eq!(t.elapsed_idle(secs(7)), secs(2));
    assert_eq!(t.elapsed_idle(secs(1)), 0);
    assert_eq!(t.shortest_timeout(), 20);
    assert_eq!(t.resume_command(), None);
    let desktop = IdleTimer::new(
        &config(vec![("desktop.dpms", action(10, "desktop", IdleActionKind::Dpms))]),
        0,
    );
    assert_eq!(desktop.action(0).unwrap().command, "desktop");
    assert!(desktop.action(1).is_none());
    assert!(!desktop.has_fired(1));
}

#[test]
fn a_desktop_configuration_has_no_battery_ladder() {
    let cfg = config(vec![("desktop.dpms", action(10, "desktop", IdleActionKind::Dpms))]);
    let mut t = IdleTimer::new(&cfg, 0);
    assert!(t.update_power_source(false, &None).is_empty());
    assert_eq!(t.ladder_len(), 0);
    assert!(t.update_power_source(true, &None).is_empty());
    assert_eq!(t.ladder_len(), 0);
    t.update_from_config(&cfg, secs(1), &None);
    assert_eq!(t.ladder_len(), 1);
}

#[test]
fn deadlines_saturate() {
    let mut cfg = config(vec![("desktop.dpms", action(1, "off", IdleActionKind::Dpms))]);
    cfg.debounce_seconds = 255;
    let mut t = IdleTimer::new(&cfg, 0);
    t.reset(u64::MAX - 10);
    assert_eq!(t.elapsed_idle(u64::MAX - 1), 0);
    assert_eq!(t.elapsed_idle(u64::MAX), 10);
    assert_eq!(stasis::idle_timer::deadline_after(u64::MAX - 10, 255), u64::MAX);
    assert_eq!(stasis::idle_timer::deadline_after(1_000, 3), 4_000);
    assert_eq!(stasis::idle_timer::deadline_after(1_000, 0), 1_000);
}

#[test]
fn huge_timeouts_never_elapse() {
    let cfg = config(vec![("desktop.dpms", action(u64::MAX, "off", IdleActionKind::Dpms))]);
    let mut t = IdleTimer::new(&cfg, 0);
    assert!(t.check_idle(u64::MAX, &None).is_empty());
    assert!(t.check_idle(u64::MAX, &None).is_empty());
    assert!(!t.any_fired());
    assert_eq!(t.shortest_timeout(), u64::MAX);
}

#[test]
fn a_rewind_clears_what_a_reset_clears_but_the_suspend_mark() {
    let mut cfg = config(vec![
        ("desktop.brightness", action(10, "dim", IdleActionKind::Brightness)),
        ("desktop.suspend", action(20, "sleep", IdleActionKind::Suspend)),
    ]);
    cfg.resume_command = Some("R".to_string());
    cfg.debounce_seconds = 3;
    let mut t = IdleTimer::new(&cfg, 0);
    t.check_idle(secs(10), &reading(40));
    t.check_idle(secs(13), &reading(40));
    t.check_idle(secs(20), &reading(40));
    t.check_idle(secs(23), &reading(40));
    assert_eq!(t.fired_flags(), vec![true, true]);
    assert_eq!(t.brightness_backup().map(|b| b.value), Some(40));
    assert!(t.suspend_occurred());
    // No hook is configured and no action is instant: nothing is asked for.
    let e = t.trigger_pre_suspend(true, true, secs(30), &reading(5));
    assert!(e.is_empty());
    assert_eq!(t.fired_flags(), vec![false, false]);
    assert!(!t.kind_active(IdleActionKind::Brightness));
    assert!(!t.kind_active(IdleActionKind::Suspend));
    // The saved reading is dropped, not written back; the mark is kept.
    assert!(t.brightness_backup().is_none());
    assert!(t.suspend_occurred());
    // No activity debounce was armed, and the clock of inactivity starts anew.
    assert_eq!(t.elapsed_idle(secs(31)), secs(1));
    // Nothing has fired since, so activity owes nothing.
    assert!(t.reset(secs(32)).is_empty());
    assert!(!t.suspend_occurred());
}

#[test]
fn a_rewind_saves_the_brightness_anew_for_an_instant_brightness_action() {
    let cfg = config(vec![
        ("desktop.night", action(0, "night-light", IdleActionKind::Brightness)),
        ("desktop.dim", action(10, "dim", IdleActionKind::Dpms)),
    ]);
    let mut t = IdleTimer::new(&cfg, 0);
    t.init(&reading(80));
    assert_eq!(t.brightness_backup().map(|b| b.value), Some(80));
    let e = t.trigger_pre_suspend(true, false, secs(5), &reading(20));
    assert_eq!(shown(&e), vec![format!("{:?}", Effect::RunCommand("night-light".to_string()))]);
    assert_eq!(t.brightness_backup().map(|b| b.value), Some(20));
    assert_eq!(t.fired_flags(), vec![true, false]);
    assert!(t.kind_active(IdleActionKind::Brightness));
    assert!(t.suspend_occurred());
}

#[test]
fn a_pre_suspend_without_rewind_keeps_the_episode() {
    let cfg = config(vec![("desktop.brightness", action(10, "dim", IdleActionKind::Brightness))]);
    let mut t = IdleTimer::new(&cfg, 0);
    t.check_idle(secs(10), &reading(40));
    t.check_idle(secs(13), &reading(40));
    let e = t.trigger_pre_suspend(false, true, secs(30), &None);
    assert!(e.is_empty());
    assert_eq!(t.fired_flags(), vec![true]);
    assert_eq!(t.brightness_backup().map(|b| b.value), Some(40));
    assert!(!t.suspend_occurred());
}

#[test]
fn the_backlight_is_read_only_where_a_brightness_action_fires() {
    let cfg = config(vec![
        ("desktop.dpms", action(5, "off", IdleActionKind::Dpms)),
        ("desktop.brightness", action(10, "dim", IdleActionKind::Brightness)),
    ]);
    let mut t = IdleTimer::new(&cfg, 0);
    for now in [0, 4, 5, 7] {
        assert!(!t.check_needs_reading(secs(now)));
        t.check_idle(secs(now), &None);
    }
    // The dpms action fires at 8 and arms the debounce anew for nothing yet.
    assert!(!t.check_needs_reading(secs(8)));
    assert_eq!(t.check_idle(secs(8), &None).len(), 1);
    assert!(!t.check_needs_reading(secs(10)));
    t.check_idle(secs(10), &None);
    assert!(!t.check_needs_reading(secs(12)));
    // At 13 the brightness action is due and its debounce is over.
    assert!(t.check_needs_reading(secs(13)));
    t.pause(false);
    assert!(!t.check_needs_reading(secs(13)));
    t.pause(true);
    // The resume ends the episode: the ladder starts anew.
    t.resume(true, secs(0));
    assert!(!t.check_needs_reading(secs(13)));
    t.check_idle(secs(5), &None);
    assert_eq!(t.check_idle(secs(8), &None).len(), 1);
    t.check_idle(secs(10), &None);
    assert!(t.check_needs_reading(secs(13)));
    t.set_compositor_managed(true);
    assert!(!t.check_needs_reading(secs(13)));
    t.set_compositor_managed(false);
    assert_eq!(t.check_idle(secs(13), &reading(70)).len(), 1);
    assert_eq!(t.brightness_backup().map(|b| b.value), Some(70));
    assert!(!t.check_needs_reading(secs(20)));
}
