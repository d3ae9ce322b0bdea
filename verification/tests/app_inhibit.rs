use stasis::app_inhibit::{
    app_id_matches, holds_name, inhibiting_processes, inhibiting_windows, should_inhibit_for_app,
    should_inhibit_for_process, AppInhibitor, ProcessInfo, RESET_THRESHOLD,
};
use stasis::compositor::{
    app_id_of_client, app_ids_of_clients, hyprland_app_ids, niri_app_ids, Compositor, IpcError,
};
use stasis::config::model::{AppPattern, IdleAction, IdleActionKind, IdleConfig};
use stasis::config::parser::parse_app_pattern;
use stasis::idle_timer::IdleTimer;

fn patterns(list: &[&str]) -> Vec<AppPattern> {
    list.iter().map(|s| parse_app_pattern(s).unwrap()).collect()
}

fn process(name: &str, exe: &str) -> ProcessInfo {
    ProcessInfo { name: name.to_string(), exe: exe.to_string() }
}

fn names(list: &[&str]) -> Vec<String> {
    list.iter().map(|s| s.to_string()).collect()
}

#[test]
fn literal_patterns_match_app_ids() {
    assert!(app_id_matches("vlc", "vlc"));
    assert!(app_id_matches("VLC", "vlc"));
    assert!(app_id_matches("vlc", "Vlc"));
    assert!(!app_id_matches("vlc", "vlc2"));
    // A trailing .exe is stripped from the identifier.
    assert!(app_id_matches("game", "Game.exe"));
    assert!(!app_id_matches("game", "game.exe.bak"));
    assert!(!app_id_matches("game", "game.EXE"));
    // The last segment of a reverse-DNS pattern.
    assert!(app_id_matches("org.mozilla.Firefox", "firefox"));
    assert!(app_id_matches("org.mozilla.firefox", "org.mozilla.firefox"));
    assert!(!app_id_matches("org.mozilla.firefox", "mozilla"));
    assert!(!app_id_matches("firefox", "org.mozilla.firefox"));
    assert!(app_id_matches("trailing.", ""));
    assert!(app_id_matches("", ""));
    assert!(!app_id_matches("", "x"));
    assert!(app_id_matches("", ".exe"));
    // Case beyond ASCII counts too.
    assert!(app_id_matches("\u{c9}cole", "\u{e9}cole"));
    assert!(app_id_matches("\u{e9}cole", "\u{c9}COLE"));
    assert!(app_id_matches("\u{212a}iwi", "kiwi"));
    assert!(!app_id_matches("\u{e9}cole", "ecole"));
}

#[test]
fn any_pattern_may_inhibit() {
    let p = vec![
        AppPattern::Literal("vlc".to_string()),
        AppPattern::Literal("com.valve.Steam".to_string()),
        parse_app_pattern("^steam_app_\\d+$").unwrap(),
    ];
    assert!(should_inhibit_for_app(&p, "VLC"));
    assert!(should_inhibit_for_app(&p, "steam"));
    assert!(should_inhibit_for_app(&p, "steam_app_440"));
    assert!(!should_inhibit_for_app(&p, "steam_app_x"));
    assert!(!should_inhibit_for_app(&p, "firefox"));
    assert!(!should_inhibit_for_app(&vec![], "vlc"));
}

#[test]
fn processes_match_by_name_or_path() {
    let p = vec![
        AppPattern::Literal("mpv".to_string()),
        AppPattern::Literal("/usr/bin/vlc".to_string()),
        parse_app_pattern("fire.*").unwrap(),
    ];
    assert!(should_inhibit_for_process(&p, &process("MPV", "/usr/bin/mpv")));
    assert!(should_inhibit_for_process(&p, &process("vlc-wrapper", "/usr/bin/VLC")));
    assert!(should_inhibit_for_process(&p, &process("x", "/opt/firefox/firefox-bin")));
    assert!(should_inhibit_for_process(&p, &process("firefox", "")));
    assert!(!should_inhibit_for_process(&p, &process("vlc", "/usr/local/bin/vlc")));
    // For a process the last segment of a dotted literal does not count.
    let dotted = vec![AppPattern::Literal("steam".to_string())];
    assert!(!should_inhibit_for_process(&dotted, &process("steam.exe", "")));
}

#[test]
fn found_applications_are_listed_once() {
    let p = patterns(&["vlc", "mpv"]);
    let found = inhibiting_windows(&p, &names(&["kitty", "vlc", "VLC", "vlc", "mpv", "foot"]));
    assert_eq!(found, vec!["vlc", "VLC", "mpv"]);
    let procs = vec![
        process("bash", "/bin/bash"),
        process("mpv", "/usr/bin/mpv"),
        process("mpv", "/usr/bin/mpv"),
        process("Vlc", "/usr/bin/vlc"),
    ];
    assert_eq!(inhibiting_processes(&p, &procs), vec!["mpv", "Vlc"]);
    assert!(inhibiting_processes(&p, &vec![]).is_empty());
    assert!(holds_name(&found, "mpv"));
    assert!(!holds_name(&found, "MPV"));
}

#[test]
fn niri_window_list() {
    let text = "Window ID 1:\n  Title: \"zsh\"\n  App ID: \"kitty\"\n  Workspace: 1\n\r\nWindow ID 2: (focused)\n  Title: \"x\"\r\n  App ID: \"org.mozilla.firefox\"\r\n  App ID: unquoted\n App ID: \"indented wrongly\"\n  App ID: \"\"quoted twice\"\"\n  App ID: \"last\"";
    assert_eq!(
        niri_app_ids(text),
        vec!["kitty", "org.mozilla.firefox", "unquoted", "quoted twice", "last"]
    );
    assert!(niri_app_ids("").is_empty());
    assert_eq!(niri_app_ids("  App ID: a\r"), vec!["a\r"]);
    assert_eq!(niri_app_ids("  App ID: \n"), vec![""]);
    for text in [text, "a\n\nb", "\n", "x\r\n\r\ny\r", "  App ID: \"\"\"\n  App ID: \"a\"b\""] {
        let expected: Vec<String> = text
            .lines()
            .filter_map(|l| l.strip_prefix("  App ID: "))
            .map(|s| s.trim_matches('"').to_string())
            .collect();
        assert_eq!(niri_app_ids(text), expected);
    }
}

#[test]
fn hyprland_client_list() {
    let json = br#"[
        {"address": "0x1", "class": "kitty", "title": "zsh"},
        {"class": "firefox", "app_id": "ignored"},
        {"app_id": "only-app-id"},
        {"class": 7, "app_id": "shadowed"},
        {"title": "no class"},
        "not an object",
        {"class": "Steam"}
    ]"#;
    assert_eq!(
        hyprland_app_ids(json),
        Ok(names(&["kitty", "firefox", "only-app-id", "Steam"]))
    );
    assert_eq!(hyprland_app_ids(b"[]"), Ok(vec![]));
    assert_eq!(hyprland_app_ids(b"{\"class\": \"x\"}"), Err(IpcError::MalformedJson));
    assert_eq!(hyprland_app_ids(b"not json"), Err(IpcError::MalformedJson));
    let clients: Vec<serde_json::Value> = serde_json::from_slice(json).unwrap();
    assert_eq!(app_id_of_client(&clients[0]), Some("kitty".to_string()));
    assert_eq!(app_id_of_client(&clients[3]), None);
    assert_eq!(app_ids_of_clients(&clients).len(), 4);
}

#[test]
fn compositors_by_desktop_name() {
    assert_eq!(Compositor::from_desktop("niri"), Compositor::Niri);
    assert_eq!(Compositor::from_desktop("Hyprland"), Compositor::Hyprland);
    assert_eq!(Compositor::from_desktop("NIRI"), Compositor::Niri);
    assert_eq!(Compositor::from_desktop("sway"), Compositor::Other);
    assert_eq!(Compositor::from_desktop(""), Compositor::Other);
    assert_eq!(Compositor::from_lowered("Niri"), Compositor::Other);
}

#[test]
fn inhibitor_pauses_on_the_rising_edge_and_resumes_on_the_falling_one() {
    let mut cfg = IdleConfig::new();
    cfg.insert(
        "desktop.dpms".to_string(),
        IdleAction { timeout_seconds: 1, command: "off".to_string(), kind: IdleActionKind::Dpms },
    );
    let mut timer = IdleTimer::new(&cfg, 0);
    let mut inhibitor = AppInhibitor::new();
    let r = inhibitor.update(&mut timer, vec![], 1_000);
    assert!(!r.running && r.newly_active.is_empty() && r.effects.is_empty());
    assert!(!timer.is_paused());
    let r = inhibitor.update(&mut timer, names(&["vlc"]), 2_000);
    assert!(r.running);
    assert_eq!(r.newly_active, vec!["vlc"]);
    assert!(timer.is_paused());
    let r = inhibitor.update(&mut timer, names(&["vlc", "mpv"]), 3_000);
    assert_eq!(r.newly_active, vec!["mpv"]);
    assert!(timer.is_paused());
    assert_eq!(inhibitor.active_apps, vec!["vlc", "mpv"]);
    let r = inhibitor.update(&mut timer, vec![], 4_000);
    assert!(!r.running && r.newly_active.is_empty());
    assert!(!timer.is_paused());
    // A manual pause is not lifted by the inhibitor.
    inhibitor.update(&mut timer, names(&["vlc"]), 5_000);
    timer.pause(true);
    inhibitor.update(&mut timer, vec![], 6_000);
    assert!(timer.is_manually_inhibited());
    inhibitor.update(&mut timer, names(&["vlc"]), 7_000);
    inhibitor.shutdown();
    assert!(inhibitor.active_apps.is_empty());
}

#[test]
fn process_snapshot_is_rebuilt_every_150_scans() {
    assert_eq!(RESET_THRESHOLD, 150);
    let mut inhibitor = AppInhibitor::new();
    for round in 0..3 {
        for scan in 1..=150u32 {
            let rebuild = inhibitor.note_process_scan();
            assert_eq!(rebuild, scan == 150, "round {} scan {}", round, scan);
        }
        assert_eq!(inhibitor.checks_since_reset, 0);
    }
}

fn std_app_id_matches(pattern: &str, app_id: &str) -> bool {
    if pattern.eq_ignore_ascii_case(app_id) {
        return true;
    }
    if app_id.ends_with(".exe") {
        let name = app_id.strip_suffix(".exe").unwrap_or(app_id);
        if pattern.eq_ignore_ascii_case(name) {
            return true;
        }
    }
    if let Some(last) = pattern.split('.').last() {
        if last.eq_ignore_ascii_case(app_id) {
            return true;
        }
    }
    pattern.to_lowercase() == app_id.to_lowercase()
}

#[test]
fn literal_matching_agrees_with_the_standard_library() {
    let words = [
        "", "a", "A", "a.exe", "A.EXE", ".exe", "exe", "com.x.a", "com.x.A", "x.", ".", "..", "a.b",
        "\u{e9}", "\u{c9}", "k", "\u{212a}", "Steam.exe", "steam", "org.mozilla.Firefox", "firefox",
        "a.exe.exe", "[", "Z", "z", "@", "`",
    ];
    for pattern in words {
        for app_id in words {
            assert_eq!(
                app_id_matches(pattern, app_id),
                std_app_id_matches(pattern, app_id),
                "{:?} against {:?}",
                pattern,
                app_id
            );
        }
    }
}
