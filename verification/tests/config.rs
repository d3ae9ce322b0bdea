use stasis::config::display::key_not_greater;
use stasis::config::model::{
    key_partition, AppPattern, IdleAction, IdleActionKind, IdleConfig, Partition,
};
use stasis::config::parser::{
    build_config, debounce_from, first_some, is_special_key, looks_like_regex, member_path,
    merge_found_keys, merge_keys, normalize_key, parse_app_pattern, spellings, timeout_from,
    ConfigItem, ConfigValue, PatternError, RawAction, RawConfig, MEMBER_COMMAND, MEMBER_TIMEOUT,
    PATH_DEBOUNCE_SECONDS, PATH_DESKTOP, PATH_INHIBIT_APPS, PATH_MONITOR_MEDIA, PATH_ON_AC,
    PATH_ON_BATTERY, PATH_PRE_SUSPEND_COMMAND, PATH_RESPECT_INHIBITORS, PATH_RESUME_COMMAND,
};

fn action(timeout_seconds: u64, command: &str, kind: IdleActionKind) -> IdleAction {
    IdleAction { timeout_seconds, command: command.to_string(), kind }
}

fn raw(name: &str, command: Option<&str>, timeout: Option<ConfigValue>) -> RawAction {
    RawAction { name: name.to_string(), command: command.map(|c| c.to_string()), timeout }
}

fn empty_raw() -> RawConfig {
    RawConfig {
        resume_command: None,
        pre_suspend_command: None,
        monitor_media: None,
        respect_idle_inhibitors: None,
        debounce_seconds: None,
        inhibit_apps: None,
        desktop: vec![],
        on_ac: vec![],
        on_battery: vec![],
    }
}

fn ask<T>(base_path: &str, lookup: impl Fn(&str) -> Option<T>) -> Option<T> {
    let (hyphenated, underscored) = spellings(base_path);
    first_some(lookup(&hyphenated), lookup(&underscored))
}

fn plain_item(value: rune_cfg::Value) -> ConfigItem {
    match value {
        rune_cfg::Value::String(s) => ConfigItem::Text(s),
        rune_cfg::Value::Regex(r) => ConfigItem::Pattern(r),
        _ => ConfigItem::Other,
    }
}

fn plain_value(value: rune_cfg::Value) -> ConfigValue {
    match value {
        rune_cfg::Value::Number(n) => ConfigValue::Number(n as u64),
        rune_cfg::Value::String(s) => ConfigValue::Text(s),
        rune_cfg::Value::Regex(r) => ConfigValue::Pattern(r),
        rune_cfg::Value::Array(items) => {
            ConfigValue::List(items.into_iter().map(plain_item).collect())
        }
        _ => ConfigValue::Other,
    }
}

fn read_value(document: &rune_cfg::RuneConfig, path: &str) -> Option<ConfigValue> {
    ask(path, |p| document.get_value(p).ok()).map(plain_value)
}

fn read_blocks(document: &rune_cfg::RuneConfig, path: &str) -> Vec<RawAction> {
    let (hyphenated, underscored) = spellings(path);
    let keys = merge_found_keys(
        document.get_keys(&underscored).ok(),
        document.get_keys(&hyphenated).ok(),
    );
    keys.into_iter()
        .map(|name| RawAction {
            command: ask(&member_path(path, &name, MEMBER_COMMAND), |p| {
                document.get::<String>(p).ok()
            }),
            timeout: read_value(document, &member_path(path, &name, MEMBER_TIMEOUT)),
            name,
        })
        .collect()
}

/// Asks a document for what the configuration reads, as the daemon does.
fn read_document(text: &str) -> RawConfig {
    let document = match rune_cfg::RuneConfig::from_str(text) {
        Ok(document) => document,
        Err(e) => panic!("Failed to load config: {:?}", e),
    };
    RawConfig {
        resume_command: ask(PATH_RESUME_COMMAND, |p| document.get::<String>(p).ok()),
        pre_suspend_command: ask(PATH_PRE_SUSPEND_COMMAND, |p| document.get::<String>(p).ok()),
        monitor_media: ask(PATH_MONITOR_MEDIA, |p| document.get::<bool>(p).ok()),
        respect_idle_inhibitors: ask(PATH_RESPECT_INHIBITORS, |p| document.get::<bool>(p).ok()),
        debounce_seconds: read_value(&document, PATH_DEBOUNCE_SECONDS),
        inhibit_apps: read_value(&document, PATH_INHIBIT_APPS),
        desktop: read_blocks(&document, PATH_DESKTOP),
        on_ac: read_blocks(&document, PATH_ON_AC),
        on_battery: read_blocks(&document, PATH_ON_BATTERY),
    }
}

fn load_config(text: &str, laptop: bool) -> IdleConfig {
    build_config(&read_document(text), laptop)
}

fn keys(cfg: &IdleConfig) -> Vec<String> {
    cfg.actions.iter().map(|(k, _)| k.clone()).collect()
}

#[test]
fn kinds_have_names() {
    assert_eq!(IdleActionKind::LockScreen.to_string(), "lock_screen");
    assert_eq!(IdleActionKind::Suspend.to_string(), "suspend");
    assert_eq!(IdleActionKind::Dpms.to_string(), "dpms");
    assert_eq!(IdleActionKind::Brightness.to_string(), "brightness");
    assert_eq!(IdleActionKind::Custom.to_string(), "custom");
    assert_eq!(IdleActionKind::from_name("lock_screen"), IdleActionKind::LockScreen);
    assert_eq!(IdleActionKind::from_name("lock-screen"), IdleActionKind::LockScreen);
    assert_eq!(IdleActionKind::from_name("suspend"), IdleActionKind::Suspend);
    assert_eq!(IdleActionKind::from_name("dpms"), IdleActionKind::Dpms);
    assert_eq!(IdleActionKind::from_name("brightness"), IdleActionKind::Brightness);
    assert_eq!(IdleActionKind::from_name("Suspend"), IdleActionKind::Custom);
    assert_eq!(IdleActionKind::from_name("notify"), IdleActionKind::Custom);
}

#[test]
fn insert_behaves_like_a_map() {
    let mut cfg = IdleConfig::new();
    cfg.insert("desktop.a".to_string(), action(1, "one", IdleActionKind::Custom));
    cfg.insert("desktop.b".to_string(), action(2, "two", IdleActionKind::Custom));
    cfg.insert("desktop.a".to_string(), action(3, "three", IdleActionKind::Custom));
    assert_eq!(keys(&cfg), vec!["desktop.a", "desktop.b"]);
    assert_eq!(cfg.get("desktop.a").unwrap().command, "three");
    assert_eq!(cfg.get("desktop.b").unwrap().timeout_seconds, 2);
    assert!(cfg.get("desktop.c").is_none());
    assert_eq!(cfg.find("desktop.b"), Some(1));
    let copy = cfg.clone();
    assert_eq!(keys(&copy), keys(&cfg));
}

#[test]
fn defaults_of_a_new_configuration() {
    let cfg = IdleConfig::new();
    assert!(cfg.actions.is_empty());
    assert!(cfg.monitor_media);
    assert!(cfg.respect_idle_inhibitors);
    assert_eq!(cfg.debounce_seconds, 3);
    assert!(cfg.resume_command.is_none());
    assert!(cfg.pre_suspend_command.is_none());
    assert!(cfg.inhibit_apps.is_empty());
}

#[test]
fn keys_fall_into_partitions() {
    assert_eq!(key_partition("ac.dpms"), Partition::Ac);
    assert_eq!(key_partition("battery.dpms"), Partition::Battery);
    assert_eq!(key_partition("desktop.dpms"), Partition::Desktop);
    assert_eq!(key_partition("ac"), Partition::Desktop);
    assert_eq!(key_partition("acdc.x"), Partition::Desktop);
    let mut cfg = IdleConfig::new();
    cfg.insert("ac.b".to_string(), action(2, "b", IdleActionKind::Custom));
    cfg.insert("battery.a".to_string(), action(1, "a", IdleActionKind::Custom));
    cfg.insert("ac.a".to_string(), action(3, "c", IdleActionKind::Custom));
    let ladder = cfg.ladder(Partition::Ac);
    assert_eq!(ladder.iter().map(|a| a.command.clone()).collect::<Vec<_>>(), vec!["b", "c"]);
    assert_eq!(cfg.ladder(Partition::Battery).len(), 1);
    assert!(cfg.ladder(Partition::Desktop).is_empty());
}

#[test]
fn keys_are_ordered_like_strings() {
    let words = ["", "a", "ab", "b", "B", "ac.x", "ac-x", "\u{e9}", "z", "ab\u{0}"];
    for a in words {
        for b in words {
            let va: Vec<char> = a.chars().collect();
            let vb: Vec<char> = b.chars().collect();
            assert_eq!(key_not_greater(&va, &vb), a <= b, "{:?} <= {:?}", a, b);
        }
    }
}

#[test]
fn listing_of_a_configuration() {
    let mut cfg = IdleConfig::new();
    cfg.resume_command = Some("notify-send back".to_string());
    cfg.debounce_seconds = 5;
    cfg.inhibit_apps = vec![
        AppPattern::Literal("vlc".to_string()),
        parse_app_pattern("firefox.*").unwrap(),
    ];
    cfg.insert("battery.dpms".to_string(), action(30, "off", IdleActionKind::Dpms));
    cfg.insert("ac.suspend".to_string(), action(900, "systemctl suspend", IdleActionKind::Suspend));
    cfg.insert("ac.brightness".to_string(), action(0, "dim", IdleActionKind::Brightness));
    cfg.insert(
        "ac.a-very-long-name-for-an-action".to_string(),
        action(7, "", IdleActionKind::Custom),
    );
    let expected = "General:\n\
\x20 ResumeCommand      = notify-send back\n\
\x20 PreSuspendCommand  = -\n\
\x20 MonitorMedia       = true\n\
\x20 RespectInhibitors  = true\n\
\x20 DebounceSeconds  = 5\n\
\x20 InhibitApps        = vlc,(regex) firefox.*\n\
\x20 IdleTime           = 1m 15s\n\
\x20 IdleInhibited      = false\n\
\nActions:\n\
\x20 [AC]\n\
\x20   ac.a-very-long-name-for-an-action Timeout=7 Kind=custom Command=\"\"\n\
\x20   ac.brightness        Timeout=0 Kind=brightness Command=\"dim\"\n\
\x20   ac.suspend           Timeout=900 Kind=suspend Command=\"systemctl suspend\"\n\
\x20 [Battery]\n\
\x20   battery.dpms         Timeout=30 Kind=dpms Command=\"off\"\n";
    assert_eq!(cfg.pretty_print(Some(75), None, Some(false)), expected);
}

#[test]
fn listing_of_an_empty_configuration() {
    let mut cfg = IdleConfig::new();
    cfg.monitor_media = false;
    let expected = "General:\n\
\x20 ResumeCommand      = -\n\
\x20 PreSuspendCommand  = -\n\
\x20 MonitorMedia       = false\n\
\x20 RespectInhibitors  = true\n\
\x20 DebounceSeconds  = 3\n\
\x20 InhibitApps        = -\n\
\x20 Uptime             = 2h 0m\n\
\nActions:\n";
    assert_eq!(cfg.pretty_print(None, Some(7200), None), expected);
}

#[test]
fn listing_pads_keys_as_formatting_does() {
    let mut cfg = IdleConfig::new();
    for key in ["k", "exactly-twenty-chars", "desktop.\u{e9}t\u{e9}"] {
        cfg.insert(key.to_string(), action(1, "c", IdleActionKind::Custom));
    }
    let listing = cfg.pretty_print(None, None, None);
    for key in ["k", "exactly-twenty-chars", "desktop.\u{e9}t\u{e9}"] {
        let line = format!("    {:<20} Timeout={} Kind={} Command=\"{}\"\n", key, 1, "custom", "c");
        assert!(listing.contains(&line), "{:?} in {:?}", line, listing);
    }
}

#[test]
fn special_keys_and_spellings() {
    for k in [
        "resume_command", "resume-command", "pre_suspend_command", "pre-suspend-command",
        "monitor_media", "monitor-media", "respect_idle_inhibitors", "respect-idle-inhibitors",
        "inhibit_apps", "inhibit-apps",
    ] {
        assert!(is_special_key(k), "{}", k);
    }
    for k in ["debounce_seconds", "lock_screen", "resume", "", "Resume_command"] {
        assert!(!is_special_key(k), "{}", k);
    }
    assert_eq!(normalize_key("lock_screen"), "lock-screen");
    assert_eq!(normalize_key("a_b_c-d"), "a-b-c-d");
}

#[test]
fn patterns_are_literals_or_regular_expressions() {
    assert!(!looks_like_regex("vlc"));
    assert!(!looks_like_regex("my-app_2"));
    for s in [".", "a*", "a+", "a?", "(", ")", "[", "]", "{", "}", "a|b", "\\d", "^a", "a$"] {
        assert!(looks_like_regex(s), "{}", s);
    }
    assert!(matches!(parse_app_pattern("vlc"), Ok(AppPattern::Literal(s)) if s == "vlc"));
    match parse_app_pattern("steam_app_.*") {
        Ok(AppPattern::Regex(r)) => {
            assert_eq!(r.as_str(), "steam_app_.*");
            assert!(r.is_match("steam_app_440"));
        }
        other => panic!("{:?}", other),
    }
    assert_eq!(parse_app_pattern("firefox(").err(), Some(PatternError::InvalidRegex));
    assert_eq!(parse_app_pattern("vlc").unwrap().to_string(), "vlc");
    assert_eq!(parse_app_pattern("v.c").unwrap().to_string(), "(regex) v.c");
}

#[test]
fn timeouts_and_debounce_from_values() {
    assert_eq!(timeout_from(&Some(ConfigValue::Number(300))), Some(300));
    assert_eq!(timeout_from(&Some(ConfigValue::Text("45".to_string()))), Some(45));
    assert_eq!(timeout_from(&Some(ConfigValue::Text("45s".to_string()))), None);
    assert_eq!(timeout_from(&Some(ConfigValue::Other)), None);
    assert_eq!(timeout_from(&None), None);
    assert_eq!(debounce_from(&Some(ConfigValue::Number(0))), 0);
    assert_eq!(debounce_from(&Some(ConfigValue::Number(7))), 7);
    assert_eq!(debounce_from(&Some(ConfigValue::Number(255))), 255);
    assert_eq!(debounce_from(&Some(ConfigValue::Number(256))), 255);
    assert_eq!(debounce_from(&Some(ConfigValue::Text("9".to_string()))), 9);
    assert_eq!(debounce_from(&Some(ConfigValue::Text("256".to_string()))), 3);
    assert_eq!(debounce_from(&Some(ConfigValue::Text("x".to_string()))), 3);
    assert_eq!(debounce_from(&Some(ConfigValue::Other)), 3);
    assert_eq!(debounce_from(&None), 3);
}

#[test]
fn both_spellings_of_a_block_are_merged() {
    let merged = merge_keys(
        vec!["a".to_string(), "b".to_string()],
        vec!["b".to_string(), "c".to_string(), "a".to_string(), "c".to_string()],
    );
    assert_eq!(merged, vec!["a", "b", "c"]);
}

#[test]
fn desktop_configuration_from_raw_values() {
    let mut r = empty_raw();
    r.resume_command = Some("back".to_string());
    r.monitor_media = Some(false);
    r.debounce_seconds = Some(ConfigValue::Number(1));
    r.inhibit_apps = Some(ConfigValue::List(vec![
        ConfigItem::Text("vlc".to_string()),
        ConfigItem::Other,
        ConfigItem::Text("bad(".to_string()),
        ConfigItem::Text("mpv.*".to_string()),
    ]));
    r.desktop = vec![
        raw("resume_command", Some("x"), Some(ConfigValue::Number(1))),
        raw("lock_screen", Some("swaylock"), Some(ConfigValue::Number(300))),
        raw("dpms", Some("off"), Some(ConfigValue::Text("600".to_string()))),
        raw("no_timeout", Some("x"), None),
        raw("bad_timeout", Some("x"), Some(ConfigValue::Text("soon".to_string()))),
        raw("no_command", None, Some(ConfigValue::Number(5))),
        raw("notify_me", Some("notify-send idle"), Some(ConfigValue::Number(0))),
        raw("lock-screen", Some("hyprlock"), Some(ConfigValue::Number(200))),
    ];
    r.on_ac = vec![raw("dpms", Some("ignored"), Some(ConfigValue::Number(1)))];
    let cfg = build_config(&r, false);
    assert_eq!(keys(&cfg), vec!["desktop.lock-screen", "desktop.dpms", "desktop.notify-me"]);
    let lock = cfg.get("desktop.lock-screen").unwrap();
    assert_eq!(lock.command, "hyprlock");
    assert_eq!(lock.timeout_seconds, 200);
    assert_eq!(lock.kind, IdleActionKind::LockScreen);
    assert_eq!(cfg.get("desktop.dpms").unwrap().timeout_seconds, 600);
    assert_eq!(cfg.get("desktop.dpms").unwrap().kind, IdleActionKind::Dpms);
    assert_eq!(cfg.get("desktop.notify-me").unwrap().kind, IdleActionKind::Custom);
    assert_eq!(cfg.resume_command.as_deref(), Some("back"));
    assert!(!cfg.monitor_media);
    assert!(cfg.respect_idle_inhibitors);
    assert_eq!(cfg.debounce_seconds, 1);
    let apps: Vec<String> = cfg.inhibit_apps.iter().map(|p| p.to_string()).collect();
    assert_eq!(apps, vec!["vlc", "(regex) mpv.*"]);
}

#[test]
fn laptop_configuration_from_raw_values() {
    let mut r = empty_raw();
    r.desktop = vec![raw("dpms", Some("ignored"), Some(ConfigValue::Number(1)))];
    r.on_ac = vec![raw("dpms", Some("off"), Some(ConfigValue::Number(600)))];
    r.on_battery = vec![
        raw("dpms", Some("off"), Some(ConfigValue::Number(60))),
        raw("suspend", Some("zzz"), Some(ConfigValue::Number(120))),
    ];
    let cfg = build_config(&r, true);
    assert_eq!(keys(&cfg), vec!["ac.dpms", "battery.dpms", "battery.suspend"]);
    assert_eq!(cfg.get("battery.suspend").unwrap().kind, IdleActionKind::Suspend);
    assert_eq!(cfg.debounce_seconds, 3);
    assert!(cfg.monitor_media);
    assert!(cfg.inhibit_apps.is_empty());
}

const DESKTOP_TEXT: &str = "
idle:
  resume_command \"notify-send back\"
  pre-suspend-command \"sync\"
  monitor_media false
  debounce_seconds 5
  inhibit_apps [\"vlc\", \"steam_app_.*\", r\"^mpv$\"]

  lock_screen:
    timeout 300
    command \"swaylock -f\"
  end

  brightness:
    timeout \"120\"
    command \"brightnessctl set 10%\"
  end

  startup:
    timeout 0
    command \"notify-send hello\"
  end

  broken:
    command \"never\"
  end
end
";

#[test]
fn test_rune_config_parsing() {
    let config: IdleConfig = load_config(DESKTOP_TEXT, false);
    println!("{}", config.pretty_print(None, None, None));
    assert_eq!(config.resume_command.as_deref(), Some("notify-send back"));
    assert_eq!(config.pre_suspend_command.as_deref(), Some("sync"));
    assert!(!config.monitor_media);
    assert!(config.respect_idle_inhibitors);
    assert_eq!(config.debounce_seconds, 5);
    let apps: Vec<String> = config.inhibit_apps.iter().map(|p| p.to_string()).collect();
    assert_eq!(apps, vec!["vlc", "(regex) steam_app_.*", "(regex) ^mpv$"]);
    assert_eq!(
        keys(&config),
        vec!["desktop.lock-screen", "desktop.brightness", "desktop.startup"]
    );
    let lock = config.get("desktop.lock-screen").unwrap();
    assert_eq!((lock.timeout_seconds, lock.command.as_str()), (300, "swaylock -f"));
    assert_eq!(lock.kind, IdleActionKind::LockScreen);
    let dim = config.get("desktop.brightness").unwrap();
    assert_eq!((dim.timeout_seconds, dim.kind), (120, IdleActionKind::Brightness));
    assert_eq!(config.get("desktop.startup").unwrap().timeout_seconds, 0);
}

#[test]
fn laptop_document_uses_the_power_ladders() {
    let text = "
idle:
  dpms:
    timeout 10
    command \"desktop only\"
  end
  on_ac:
    dpms:
      timeout 600
      command \"off\"
    end
  end
  on-battery:
    dpms:
      timeout 60
      command \"off\"
    end
    suspend:
      timeout 300
      command \"systemctl suspend\"
    end
  end
end
";
    let cfg = load_config(text, true);
    assert_eq!(keys(&cfg), vec!["ac.dpms", "battery.dpms", "battery.suspend"]);
    assert_eq!(cfg.get("ac.dpms").unwrap().timeout_seconds, 600);
    assert_eq!(cfg.get("battery.suspend").unwrap().kind, IdleActionKind::Suspend);
    let desktop = load_config(text, false);
    assert_eq!(keys(&desktop), vec!["desktop.dpms"]);
}

#[test]
fn an_empty_document_gives_the_defaults() {
    let empty = load_config("", false);
    assert!(empty.actions.is_empty());
    assert_eq!(empty.debounce_seconds, 3);
    assert!(empty.monitor_media && empty.respect_idle_inhibitors);
    assert!(empty.resume_command.is_none() && empty.inhibit_apps.is_empty());
}

#[test]
fn paths_of_members_and_settings() {
    assert_eq!(member_path("idle.on_ac", "lock_screen", MEMBER_COMMAND), "idle.on_ac.lock_screen.command");
    assert_eq!(member_path("idle", "dpms", MEMBER_TIMEOUT), "idle.dpms.timeout");
    assert_eq!(PATH_RESUME_COMMAND, "idle.resume_command");
    assert_eq!(PATH_PRE_SUSPEND_COMMAND, "idle.pre_suspend_command");
    assert_eq!(PATH_MONITOR_MEDIA, "idle.monitor_media");
    assert_eq!(PATH_RESPECT_INHIBITORS, "idle.respect_idle_inhibitors");
    assert_eq!(PATH_DEBOUNCE_SECONDS, "idle.debounce_seconds");
    assert_eq!(PATH_INHIBIT_APPS, "idle.inhibit_apps");
    assert_eq!((PATH_DESKTOP, PATH_ON_AC, PATH_ON_BATTERY), ("idle", "idle.on_ac", "idle.on_battery"));
}

#[test]
fn the_first_answer_counts() {
    assert_eq!(first_some(Some(1), Some(2)), Some(1));
    assert_eq!(first_some(None, Some(2)), Some(2));
    assert_eq!(first_some(Some(1), None), Some(1));
    assert_eq!(first_some::<u8>(None, None), None);
}

#[test]
fn paths_are_looked_up_in_both_spellings() {
    assert_eq!(
        spellings("idle.pre_suspend-command"),
        ("idle.pre-suspend-command".to_string(), "idle.pre_suspend_command".to_string())
    );
    assert_eq!(spellings("idle"), ("idle".to_string(), "idle".to_string()));
}

#[test]
fn a_spelling_that_is_not_found_has_no_keys() {
    let a = || Some(vec!["x".to_string(), "y".to_string()]);
    let b = || Some(vec!["y".to_string(), "z".to_string()]);
    assert_eq!(merge_found_keys(a(), b()), vec!["x", "y", "z"]);
    assert_eq!(merge_found_keys(None, b()), vec!["y", "z"]);
    assert_eq!(merge_found_keys(a(), None), vec!["x", "y"]);
    assert!(merge_found_keys(None, None).is_empty());
}

#[test]
fn values_of_a_document_become_plain_values() {
    let text = "
idle:
  debounce_seconds 7.9
  inhibit_apps [\"vlc\", 5, r\"^mpv$\", true, \"a.b\"]
  dpms:
    timeout \"61\"
    command \"off\"
  end
  lock_screen:
    timeout true
    command \"never\"
  end
  suspend:
    timeout [300]
    command \"never\"
  end
end
";
    let cfg = load_config(text, false);
    assert_eq!(cfg.debounce_seconds, 7);
    let apps: Vec<String> = cfg.inhibit_apps.iter().map(|p| p.to_string()).collect();
    assert_eq!(apps, vec!["vlc", "(regex) ^mpv$", "(regex) a.b"]);
    assert_eq!(keys(&cfg), vec!["desktop.dpms"]);
    assert_eq!(cfg.get("desktop.dpms").unwrap().timeout_seconds, 61);
}
