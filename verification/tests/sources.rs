use stasis::config::model::{IdleAction, IdleActionKind, IdleConfig};
use stasis::edge::{apply_edge, detect_edge, PauseEdge};
use stasis::idle_timer::IdleTimer;
use stasis::input::{on_input_batch, reset_needed, InputEventKind};
use stasis::media::{any_playing, MediaMonitor, PlaybackStatus};
use stasis::power_detection::{detect_initial_power_state, is_on_ac_power, PowerSupply};
use stasis::suspend::on_prepare_for_sleep;
use stasis::wayland::{
    global_for, notification_timeout_ms, register_notification, Global, IdleEvent, WaylandIdleData,
};

fn timer() -> IdleTimer {
    let mut cfg = IdleConfig::new();
    cfg.pre_suspend_command = Some("sync".to_string());
    cfg.resume_command = Some("wake".to_string());
    cfg.insert(
        "desktop.dpms".to_string(),
        IdleAction { timeout_seconds: 90, command: "off".to_string(), kind: IdleActionKind::Dpms },
    );
    cfg.insert(
        "desktop.lock".to_string(),
        IdleAction { timeout_seconds: 30, command: "lock".to_string(), kind: IdleActionKind::Custom },
    );
    IdleTimer::new(&cfg, 0)
}

fn supply(name: &str, kind: Option<&str>, online: Option<&str>) -> PowerSupply {
    PowerSupply {
        name: name.to_string(),
        kind: kind.map(|s| s.to_string()),
        online: online.map(|s| s.to_string()),
    }
}

#[test]
fn edges() {
    assert_eq!(detect_edge(false, true), PauseEdge::Rising);
    assert_eq!(detect_edge(true, false), PauseEdge::Falling);
    assert_eq!(detect_edge(true, true), PauseEdge::Steady);
    assert_eq!(detect_edge(false, false), PauseEdge::Steady);
    let mut t = timer();
    assert!(apply_edge(&mut t, PauseEdge::Rising, 1).is_empty());
    assert!(t.is_paused());
    assert!(apply_edge(&mut t, PauseEdge::Steady, 2).is_empty());
    assert!(t.is_paused());
    assert!(apply_edge(&mut t, PauseEdge::Falling, 3).is_empty());
    assert!(!t.is_paused());
}

#[test]
fn media_pauses_while_a_player_plays() {
    assert!(!any_playing(&vec![]));
    assert!(!any_playing(&vec![Some(PlaybackStatus::Paused), None, Some(PlaybackStatus::Stopped)]));
    assert!(any_playing(&vec![None, Some(PlaybackStatus::Playing)]));
    let mut t = timer();
    let mut m = MediaMonitor::new();
    m.update(&mut t, &vec![Some(PlaybackStatus::Paused)], 1_000);
    assert!(!t.is_paused() && !m.media_playing);
    m.update(&mut t, &vec![Some(PlaybackStatus::Playing)], 3_000);
    assert!(t.is_paused() && m.media_playing);
    m.update(&mut t, &vec![Some(PlaybackStatus::Playing)], 5_000);
    assert!(t.is_paused());
    m.update(&mut t, &vec![], 7_000);
    assert!(!t.is_paused() && !m.media_playing);
    assert_eq!(t.elapsed_idle(8_000), 1_000);
}

#[test]
fn input_batches_reset_once() {
    assert!(!reset_needed(&vec![]));
    assert!(!reset_needed(&vec![InputEventKind::Other, InputEventKind::Other]));
    assert!(reset_needed(&vec![InputEventKind::Other, InputEventKind::Pointer]));
    assert!(reset_needed(&vec![InputEventKind::Keyboard]));
    let mut t = timer();
    t.trigger_idle();
    assert!(on_input_batch(&mut t, &vec![InputEventKind::Other], 5_000).is_empty());
    assert!(t.any_fired());
    on_input_batch(&mut t, &vec![InputEventKind::Keyboard, InputEventKind::Pointer], 6_000);
    assert!(!t.any_fired());
    assert_eq!(t.elapsed_idle(6_500), 0);
    assert_eq!(t.elapsed_idle(9_000), 3_000);
}

#[test]
fn power_supplies() {
    let none: Vec<PowerSupply> = vec![];
    assert!(is_on_ac_power(false, &none));
    assert!(!is_on_ac_power(true, &none));
    assert!(detect_initial_power_state(false, &none));
    assert!(!detect_initial_power_state(true, &none));
    let battery = supply("BAT0", Some("Battery\n"), None);
    let mains_on = supply("ucsi-source-psy", Some("Mains\n"), Some("1\n"));
    let mains_off = supply("ucsi-source-psy", Some("Mains\n"), Some("0\n"));
    let legacy_on = supply("ADP1", None, Some("1"));
    let legacy_untyped = supply("ACAD", Some("USB"), Some(" 1 "));
    let wrong_name = supply("XAC", Some("USB"), Some("1"));
    assert!(!is_on_ac_power(true, &vec![supply("BAT0", Some("Battery\n"), None), mains_off]));
    assert!(is_on_ac_power(true, &vec![battery, mains_on]));
    assert!(is_on_ac_power(true, &vec![legacy_on]));
    assert!(is_on_ac_power(true, &vec![legacy_untyped]));
    assert!(!is_on_ac_power(true, &vec![wrong_name]));
    assert!(!is_on_ac_power(true, &vec![supply("AC", Some("Mains"), None)]));
    assert!(!is_on_ac_power(true, &vec![supply("AC", Some("Mains"), Some("10"))]));
    assert!(detect_initial_power_state(true, &vec![supply("AC0", None, Some("1\n"))]));
}

#[test]
fn sleep_signals() {
    let mut t = timer();
    let e = on_prepare_for_sleep(&mut t, true, 1_000, &None);
    assert_eq!(format!("{:?}", e), "[PreSuspend(\"sync\")]");
    assert!(!t.suspend_occurred());
    let e = on_prepare_for_sleep(&mut t, false, 2_000, &None);
    assert_eq!(format!("{:?}", e), "[RunCommand(\"wake\")]");
    let mut bare = IdleTimer::new(&IdleConfig::new(), 0);
    assert!(on_prepare_for_sleep(&mut bare, true, 1, &None).is_empty());
    assert!(on_prepare_for_sleep(&mut bare, false, 2, &None).is_empty());
}

#[test]
fn globals_are_bound_by_interface_name() {
    assert_eq!(global_for("ext_idle_notifier_v1"), Some(Global::IdleNotifier));
    assert_eq!(global_for("wl_seat"), Some(Global::Seat));
    assert_eq!(global_for("zwp_idle_inhibit_manager_v1"), Some(Global::InhibitManager));
    assert_eq!(global_for("wl_output"), None);
    let mut d = WaylandIdleData::new(true);
    assert!(!d.can_register());
    assert_eq!(d.on_global("wl_compositor"), None);
    assert_eq!(d.on_global("wl_seat"), Some(Global::Seat));
    assert!(!d.can_register());
    d.on_global("ext_idle_notifier_v1");
    assert!(d.can_register());
    assert!(!d.inhibit_manager_bound);
    d.on_global("zwp_idle_inhibit_manager_v1");
    assert!(d.inhibit_manager_bound);
}

#[test]
fn notification_is_registered_with_the_shortest_timeout() {
    let mut t = timer();
    let mut d = WaylandIdleData::new(true);
    assert_eq!(register_notification(&d, &mut t), None);
    assert!(!t.is_compositor_managed());
    d.on_global("wl_seat");
    d.on_global("ext_idle_notifier_v1");
    assert_eq!(register_notification(&d, &mut t), Some(30_000));
    assert!(t.is_compositor_managed());
    assert_eq!(notification_timeout_ms(0), 0);
    assert_eq!(notification_timeout_ms(60), 60_000);
    assert_eq!(notification_timeout_ms(4_294_967), 4_294_967_000);
    assert_eq!(notification_timeout_ms(4_294_968), 704);
    assert_eq!(notification_timeout_ms(u64::MAX), ((u64::MAX as u128 * 1000) as u32));
}

#[test]
fn inhibitors_hold_back_the_idle_notification() {
    let mut t = timer();
    let mut d = WaylandIdleData::new(true);
    d.inhibitor_destroyed();
    assert_eq!(d.active_inhibitors, 0);
    d.inhibitor_created();
    assert_eq!(d.active_inhibitors, 1);
    assert!(d.is_inhibited());
    // Idled while inhibited: the timer is not touched.
    assert!(d.on_idle_event(&mut t, IdleEvent::Idled, 30_000).is_empty());
    assert!(!t.any_fired());
    d.inhibitor_destroyed();
    assert!(!d.is_inhibited());
    // The compositor reports idle again: every action counts as fired.
    assert!(d.on_idle_event(&mut t, IdleEvent::Idled, 60_000).is_empty());
    assert_eq!(t.fired_flags(), vec![true, true]);
    // Activity ends the episode.
    d.on_idle_event(&mut t, IdleEvent::Resumed, 61_000);
    assert!(!t.any_fired());
    // Inhibitors that are not respected do not count.
    let mut free = WaylandIdleData::new(false);
    free.inhibitor_created();
    assert!(!free.is_inhibited());
    free.active_inhibitors = u32::MAX;
    free.inhibitor_created();
    assert_eq!(free.active_inhibitors, u32::MAX);
}
