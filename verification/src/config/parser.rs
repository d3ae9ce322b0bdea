//! From the values of a configuration document to a configuration.
//!
//! Asking a document is no part of the library: what a document answers
//! depends on the machine it is asked on. Whoever asks hands over the answers
//! as plain values, a `RawConfig`, and `build_config` decides what they
//! mean. The library also fixes what is asked: the paths, their two
//! spellings, and how the answers for the two spellings are put together.

use crate::config::display::EntryView;
use crate::config::model::{
    kind_of_name, option_text, put, regex_source, ActionView, AppPattern, ConfigView, IdleAction,
    IdleActionKind, IdleConfig, PatternView,
};
use crate::text::{parse_number, parse_unsigned, replace_char, replaced, str_eq, to_chars};
use vstd::prelude::*;

verus! {

/// `regex::Error`, why a pattern could not be compiled.
#[verifier::external_type_specification]
#[verifier::external_body]
pub struct ExRegexError(regex::Error);

/// Whether a pattern is a regular expression that can be compiled within
/// the default size limit.
pub uninterp spec fn regex_compiles(pattern: Seq<char>) -> bool;

/// `Regex::new` compiles a pattern with the default options. Whether it
/// succeeds depends on the pattern alone, and the regular expression it
/// returns remembers the pattern it was built from.
pub assume_specification[ regex::Regex::new ](re: &str) -> (r: Result<regex::Regex, regex::Error>)
    ensures
        r is Ok == regex_compiles(re@),
        r matches Ok(compiled) ==> regex_source(compiled) == re@,
;

// ----- plain values --------------------------------------------------------

/// An element of a list in the document.
#[derive(Debug)]
pub enum ConfigItem {
    Text(String),
    Pattern(regex::Regex),
    Other,
}

pub enum ItemView {
    Text(Seq<char>),
    Pattern(regex::Regex),
    Other,
}

impl View for ConfigItem {
    type V = ItemView;

    open spec fn view(&self) -> ItemView {
        match self {
            ConfigItem::Text(s) => ItemView::Text(s@),
            ConfigItem::Pattern(r) => ItemView::Pattern(*r),
            ConfigItem::Other => ItemView::Other,
        }
    }
}

/// A value of the document, as far as the configuration reads it.
#[derive(Debug)]
pub enum ConfigValue {
    Number(u64),
    Text(String),
    Pattern(regex::Regex),
    List(Vec<ConfigItem>),
    Other,
}

pub enum ValueView {
    Number(u64),
    Text(Seq<char>),
    Pattern(regex::Regex),
    List(Seq<ItemView>),
    Other,
}

impl View for ConfigValue {
    type V = ValueView;

    open spec fn view(&self) -> ValueView {
        match self {
            ConfigValue::Number(n) => ValueView::Number(*n),
            ConfigValue::Text(s) => ValueView::Text(s@),
            ConfigValue::Pattern(r) => ValueView::Pattern(*r),
            ConfigValue::List(items) => ValueView::List(
                Seq::new(items@.len(), |i: int| items@[i]@),
            ),
            ConfigValue::Other => ValueView::Other,
        }
    }
}

pub open spec fn option_value(v: Option<ConfigValue>) -> Option<ValueView> {
    match v {
        Some(v) => Some(v@),
        None => None,
    }
}

/// One block of the document that may describe an action: its name and what
/// it holds as `command` and as `timeout`.
#[derive(Debug)]
pub struct RawAction {
    pub name: String,
    pub command: Option<String>,
    pub timeout: Option<ConfigValue>,
}

pub struct RawActionView {
    pub name: Seq<char>,
    pub command: Option<Seq<char>>,
    pub timeout: Option<ValueView>,
}

impl View for RawAction {
    type V = RawActionView;

    open spec fn view(&self) -> RawActionView {
        RawActionView {
            name: self.name@,
            command: option_text(self.command),
            timeout: option_value(self.timeout),
        }
    }
}

pub open spec fn raw_actions(blocks: Seq<RawAction>) -> Seq<RawActionView> {
    Seq::new(blocks.len(), |i: int| blocks[i]@)
}

/// What a document holds at the paths that the configuration reads: the
/// general settings, and the blocks of the desktop ladder and of the two
/// power ladders. `None` stands for a path at which nothing was found.
#[derive(Debug)]
pub struct RawConfig {
    pub resume_command: Option<String>,
    pub pre_suspend_command: Option<String>,
    pub monitor_media: Option<bool>,
    pub respect_idle_inhibitors: Option<bool>,
    pub debounce_seconds: Option<ConfigValue>,
    pub inhibit_apps: Option<ConfigValue>,
    pub desktop: Vec<RawAction>,
    pub on_ac: Vec<RawAction>,
    pub on_battery: Vec<RawAction>,
}

pub struct RawConfigView {
    pub resume_command: Option<Seq<char>>,
    pub pre_suspend_command: Option<Seq<char>>,
    pub monitor_media: Option<bool>,
    pub respect_idle_inhibitors: Option<bool>,
    pub debounce_seconds: Option<ValueView>,
    pub inhibit_apps: Option<ValueView>,
    pub desktop: Seq<RawActionView>,
    pub on_ac: Seq<RawActionView>,
    pub on_battery: Seq<RawActionView>,
}

impl View for RawConfig {
    type V = RawConfigView;

    open spec fn view(&self) -> RawConfigView {
        RawConfigView {
            resume_command: option_text(self.resume_command),
            pre_suspend_command: option_text(self.pre_suspend_command),
            monitor_media: self.monitor_media,
            respect_idle_inhibitors: self.respect_idle_inhibitors,
            debounce_seconds: option_value(self.debounce_seconds),
            inhibit_apps: option_value(self.inhibit_apps),
            desktop: raw_actions(self.desktop@),
            on_ac: raw_actions(self.on_ac@),
            on_battery: raw_actions(self.on_battery@),
        }
    }
}

// ----- what the values mean ------------------------------------------------

/// The debounce used where the document sets none.
pub const DEFAULT_DEBOUNCE_SECONDS: u8 = 3;

/// A key in its stored spelling, with hyphens.
pub open spec fn normalized(key: Seq<char>) -> Seq<char> {
    replaced(key, '_', '-')
}

/// The names of the general settings, which are no actions.
pub open spec fn special_key(key: Seq<char>) -> bool {
    ||| key == "resume_command"@
    ||| key == "resume-command"@
    ||| key == "pre_suspend_command"@
    ||| key == "pre-suspend-command"@
    ||| key == "monitor_media"@
    ||| key == "monitor-media"@
    ||| key == "respect_idle_inhibitors"@
    ||| key == "respect-idle-inhibitors"@
    ||| key == "inhibit_apps"@
    ||| key == "inhibit-apps"@
}

/// The characters that make a string a regular expression.
pub open spec fn is_regex_meta(c: char) -> bool {
    ||| c == '.'
    ||| c == '*'
    ||| c == '+'
    ||| c == '?'
    ||| c == '('
    ||| c == ')'
    ||| c == '['
    ||| c == ']'
    ||| c == '{'
    ||| c == '}'
    ||| c == '|'
    ||| c == '\\'
    ||| c == '^'
    ||| c == '$'
}

pub open spec fn has_regex_meta(s: Seq<char>) -> bool {
    exists|i: int| 0 <= i < s.len() && is_regex_meta(#[trigger] s[i])
}

/// The timeout that a value gives: a number as it is, a text if it is a
/// decimal number of 64 bits.
pub open spec fn timeout_of(v: Option<ValueView>) -> Option<u64> {
    match v {
        Some(ValueView::Number(n)) => Some(n),
        Some(ValueView::Text(s)) => match parse_unsigned(s, u64::MAX as nat) {
            Some(n) => Some(n as u64),
            None => None,
        },
        _ => None,
    }
}

/// The debounce that a value gives: a number, at most 255; a text if it is a
/// decimal number of 8 bits; in every other case the default.
pub open spec fn debounce_of(v: Option<ValueView>) -> u8 {
    match v {
        Some(ValueView::Number(n)) => if n > 255 {
            255
        } else {
            n as u8
        },
        Some(ValueView::Text(s)) => match parse_unsigned(s, 255) {
            Some(n) => n as u8,
            None => DEFAULT_DEBOUNCE_SECONDS,
        },
        _ => DEFAULT_DEBOUNCE_SECONDS,
    }
}

/// The action that a block describes: it needs a command and a timeout,
/// and its name must not be that of a general setting. The name decides the
/// kind.
pub open spec fn action_of(block: RawActionView) -> Option<ActionView> {
    if special_key(block.name) {
        None
    } else {
        match (block.command, timeout_of(block.timeout)) {
            (Some(command), Some(timeout_seconds)) => Some(
                ActionView { timeout_seconds, command, kind: kind_of_name(block.name) },
            ),
            _ => None,
        }
    }
}

/// The key under which the action of a block is stored.
pub open spec fn entry_key(prefix: Seq<char>, name: Seq<char>) -> Seq<char> {
    prefix + "."@ + normalized(name)
}

/// The entries after the actions of `blocks` have been inserted one after
/// the other under `prefix`.
pub open spec fn collected(
    entries: Seq<EntryView>,
    blocks: Seq<RawActionView>,
    prefix: Seq<char>,
) -> Seq<EntryView>
    decreases blocks.len(),
{
    if blocks.len() == 0 {
        entries
    } else {
        let before = collected(entries, blocks.drop_last(), prefix);
        match action_of(blocks.last()) {
            Some(action) => put(before, entry_key(prefix, blocks.last().name), action),
            None => before,
        }
    }
}

/// The actions of a document: on a laptop those of the two power ladders
/// under `ac` and `battery`, on a desktop those of the desktop ladder under
/// `desktop`.
pub open spec fn actions_of(raw: RawConfigView, laptop: bool) -> Seq<EntryView> {
    if laptop {
        collected(collected(Seq::empty(), raw.on_ac, "ac"@), raw.on_battery, "battery"@)
    } else {
        collected(Seq::empty(), raw.desktop, "desktop"@)
    }
}

/// Whether `p` is what an element of the list of inhibiting applications
/// gives. A text with a character of regular expressions is compiled, and is
/// dropped if that fails; any other text is a literal; a regular expression
/// is taken as it is; anything else is dropped.
pub open spec fn pattern_of_item(item: ItemView, p: Option<PatternView>) -> bool {
    match item {
        ItemView::Text(s) => if has_regex_meta(s) {
            if regex_compiles(s) {
                p matches Some(PatternView::Regex(r)) && regex_source(r) == s
            } else {
                p is None
            }
        } else {
            p == Some(PatternView::Literal(s))
        },
        ItemView::Pattern(r) => p == Some(PatternView::Regex(r)),
        ItemView::Other => p is None,
    }
}

/// Whether `patterns` are what the elements `items` give, in order.
pub open spec fn patterns_of_items(items: Seq<ItemView>, patterns: Seq<PatternView>) -> bool
    decreases items.len(),
{
    if items.len() == 0 {
        patterns.len() == 0
    } else {
        ||| (pattern_of_item(items.last(), None) && patterns_of_items(items.drop_last(), patterns))
        ||| (patterns.len() > 0 && pattern_of_item(items.last(), Some(patterns.last()))
            && patterns_of_items(items.drop_last(), patterns.drop_last()))
    }
}

/// Whether `patterns` are what the value of the inhibiting applications
/// gives: the patterns of a list, and none for any other value.
pub open spec fn patterns_of(v: Option<ValueView>, patterns: Seq<PatternView>) -> bool {
    match v {
        Some(ValueView::List(items)) => patterns_of_items(items, patterns),
        _ => patterns.len() == 0,
    }
}

/// Whether `cfg` is the configuration that the raw values give.
pub open spec fn built_from(raw: RawConfigView, laptop: bool, cfg: ConfigView) -> bool {
    &&& cfg.actions == actions_of(raw, laptop)
    &&& cfg.resume_command == raw.resume_command
    &&& cfg.pre_suspend_command == raw.pre_suspend_command
    &&& cfg.monitor_media == match raw.monitor_media {
        Some(b) => b,
        None => true,
    }
    &&& cfg.respect_idle_inhibitors == match raw.respect_idle_inhibitors {
        Some(b) => b,
        None => true,
    }
    &&& cfg.debounce_seconds == debounce_of(raw.debounce_seconds)
    &&& patterns_of(raw.inhibit_apps, cfg.inhibit_apps)
}

// ----- deciding -------------------------------------------------------------

/// The stored spelling of a key: with hyphens.
pub fn normalize_key(key: &str) -> (r: String)
    ensures
        r@ == normalized(key@),
{
    replace_char(key, '_', '-')
}

/// Whether a key names a general setting rather than an action.
pub fn is_special_key(key: &str) -> (r: bool)
    ensures
        r == special_key(key@),
{
    str_eq(key, "resume_command") || str_eq(key, "resume-command") || str_eq(
        key,
        "pre_suspend_command",
    ) || str_eq(key, "pre-suspend-command") || str_eq(key, "monitor_media") || str_eq(
        key,
        "monitor-media",
    ) || str_eq(key, "respect_idle_inhibitors") || str_eq(key, "respect-idle-inhibitors")
        || str_eq(key, "inhibit_apps") || str_eq(key, "inhibit-apps")
}

fn is_meta(c: char) -> (r: bool)
    ensures
        r == is_regex_meta(c),
{
    c == '.' || c == '*' || c == '+' || c == '?' || c == '(' || c == ')' || c == '[' || c == ']'
        || c == '{' || c == '}' || c == '|' || c == '\\' || c == '^' || c == '$'
}

/// Whether a string is to be read as a regular expression.
pub fn looks_like_regex(s: &str) -> (r: bool)
    ensures
        r == has_regex_meta(s@),
{
    let v = to_chars(s);
    let mut i: usize = 0;
    while i < v.len()
        invariant
            i <= v.len(),
            v@ == s@,
            forall|j: int| 0 <= j < i ==> !is_regex_meta(#[trigger] v@[j]),
        decreases v.len() - i,
    {
        if is_meta(v[i]) {
            return true;
        }
        i += 1;
    }
    false
}

/// Why a string is no pattern.
#[derive(Clone, Copy, Debug, PartialEq, Eq, Structural)]
pub enum PatternError {
    /// The string holds characters of regular expressions but is none that
    /// can be compiled.
    InvalidRegex,
}

/// Reads a pattern: a string with a character of regular expressions is
/// compiled as one, any other string is a literal.
pub fn parse_app_pattern(s: &str) -> (r: Result<AppPattern, PatternError>)
    ensures
        match r {
            Ok(p) => pattern_of_item(ItemView::Text(s@), Some(p@)),
            Err(e) => has_regex_meta(s@) && !regex_compiles(s@) && e == PatternError::InvalidRegex,
        },
{
    if looks_like_regex(s) {
        match regex::Regex::new(s) {
            Ok(compiled) => Ok(AppPattern::Regex(compiled)),
            Err(_) => Err(PatternError::InvalidRegex),
        }
    } else {
        Ok(AppPattern::Literal(String::from_str(s)))
    }
}

/// The timeout that a value gives.
pub fn timeout_from(value: &Option<ConfigValue>) -> (r: Option<u64>)
    ensures
        r == timeout_of(option_value(*value)),
{
    match value {
        Some(ConfigValue::Number(n)) => Some(*n),
        Some(ConfigValue::Text(s)) => parse_number(s.as_str(), u64::MAX),
        _ => None,
    }
}

/// The debounce that a value gives.
pub fn debounce_from(value: &Option<ConfigValue>) -> (r: u8)
    ensures
        r == debounce_of(option_value(*value)),
{
    match value {
        Some(ConfigValue::Number(n)) => if *n > 255 {
            255
        } else {
            *n as u8
        },
        Some(ConfigValue::Text(s)) => match parse_number(s.as_str(), 255) {
            Some(n) => n as u8,
            None => DEFAULT_DEBOUNCE_SECONDS,
        },
        _ => DEFAULT_DEBOUNCE_SECONDS,
    }
}

/// The patterns that the value of the inhibiting applications gives.
pub fn patterns_from(value: &Option<ConfigValue>) -> (patterns: Vec<AppPattern>)
    ensures
        patterns_of(option_value(*value), crate::app_inhibit::pattern_views(patterns@)),
{
    let mut patterns: Vec<AppPattern> = Vec::new();
    match value {
        Some(ConfigValue::List(items)) => {
            let ghost views = Seq::new(items@.len(), |i: int| items@[i]@);
            let mut i: usize = 0;
            assert(views.take(0) =~= Seq::empty());
            while i < items.len()
                invariant
                    i <= items.len(),
                    views == Seq::new(items@.len(), |i: int| items@[i]@),
                    patterns_of_items(
                        views.take(i as int),
                        crate::app_inhibit::pattern_views(patterns@),
                    ),
                decreases items.len() - i,
            {
                let ghost before = crate::app_inhibit::pattern_views(patterns@);
                assert(views.take(i + 1).drop_last() =~= views.take(i as int));
                assert(views.take(i + 1).last() == items@[i as int]@);
                let found: Option<AppPattern> = match &items[i] {
                    ConfigItem::Text(s) => match parse_app_pattern(s.as_str()) {
                        Ok(p) => Some(p),
                        Err(_) => None,
                    },
                    ConfigItem::Pattern(r) => Some(AppPattern::Regex(r.clone())),
                    ConfigItem::Other => None,
                };
                match found {
                    Some(p) => {
                        patterns.push(p);
                        let ghost after = crate::app_inhibit::pattern_views(patterns@);
                        assert(after.drop_last() =~= before);
                        assert(after.last() == p@);
                    },
                    None => {},
                }
                i += 1;
            }
            assert(views.take(items.len() as int) =~= views);
        },
        _ => {},
    }
    patterns
}

/// The key under which the action of the block `name` is stored.
pub fn action_key(prefix: &str, name: &str) -> (key: String)
    ensures
        key@ == entry_key(prefix@, name@),
{
    let mut key = String::from_str(prefix);
    key.append(".");
    let n = normalize_key(name);
    key.append(n.as_str());
    key
}

/// Inserts the actions that `blocks` describe into `cfg` under `prefix`.
pub fn collect_actions(cfg: &mut IdleConfig, blocks: &Vec<RawAction>, prefix: &str)
    ensures
        old(cfg)@.well_formed() ==> final(cfg)@.well_formed(),
        final(cfg)@ == (ConfigView {
            actions: collected(old(cfg)@.actions, raw_actions(blocks@), prefix@),
            ..old(cfg)@
        }),
{
    let ghost views = raw_actions(blocks@);
    let ghost start = cfg@;
    let mut i: usize = 0;
    assert(views.take(0) =~= Seq::empty());
    while i < blocks.len()
        invariant
            i <= blocks.len(),
            views == raw_actions(blocks@),
            start.well_formed() ==> cfg@.well_formed(),
            cfg@ == (ConfigView {
                actions: collected(start.actions, views.take(i as int), prefix@),
                ..start
            }),
        decreases blocks.len() - i,
    {
        let block = &blocks[i];
        assert(views.take(i + 1).drop_last() =~= views.take(i as int));
        assert(views.take(i + 1).last() == block@);
        if !is_special_key(block.name.as_str()) {
            match (&block.command, timeout_from(&block.timeout)) {
                (Some(command), Some(timeout_seconds)) => {
                    let action = IdleAction {
                        timeout_seconds,
                        command: command.clone(),
                        kind: IdleActionKind::from_name(block.name.as_str()),
                    };
                    let key = action_key(prefix, block.name.as_str());
                    cfg.insert(key, action);
                },
                _ => {},
            }
        }
        i += 1;
    }
    assert(views.take(blocks.len() as int) =~= views);
}

/// Builds the configuration that the raw values of a document give.
pub fn build_config(raw: &RawConfig, laptop: bool) -> (cfg: IdleConfig)
    ensures
        built_from(raw@, laptop, cfg@),
        cfg@.well_formed(),
{
    let mut cfg = IdleConfig::new();
    if laptop {
        collect_actions(&mut cfg, &raw.on_ac, "ac");
        collect_actions(&mut cfg, &raw.on_battery, "battery");
    } else {
        collect_actions(&mut cfg, &raw.desktop, "desktop");
    }
    let ghost actions = cfg@.actions;
    cfg.resume_command = crate::config::model::clone_option(&raw.resume_command);
    cfg.pre_suspend_command = crate::config::model::clone_option(&raw.pre_suspend_command);
    cfg.monitor_media = match raw.monitor_media {
        Some(b) => b,
        None => true,
    };
    cfg.respect_idle_inhibitors = match raw.respect_idle_inhibitors {
        Some(b) => b,
        None => true,
    };
    cfg.debounce_seconds = debounce_from(&raw.debounce_seconds);
    cfg.inhibit_apps = patterns_from(&raw.inhibit_apps);
    assert(cfg@.inhibit_apps =~= crate::app_inhibit::pattern_views(cfg.inhibit_apps@));
    assert(cfg@.actions =~= actions);
    cfg
}

// ----- what is asked ------------------------------------------------------

/// Where the resume command stands in a document.
pub const PATH_RESUME_COMMAND: &'static str = "idle.resume_command";

/// Where the pre-suspend command stands.
pub const PATH_PRE_SUSPEND_COMMAND: &'static str = "idle.pre_suspend_command";

/// Where it stands whether media playback is watched.
pub const PATH_MONITOR_MEDIA: &'static str = "idle.monitor_media";

/// Where it stands whether idle inhibitors are heeded.
pub const PATH_RESPECT_INHIBITORS: &'static str = "idle.respect_idle_inhibitors";

/// Where the debounce stands.
pub const PATH_DEBOUNCE_SECONDS: &'static str = "idle.debounce_seconds";

/// Where the inhibiting applications stand.
pub const PATH_INHIBIT_APPS: &'static str = "idle.inhibit_apps";

/// The block that holds the actions of the desktop ladder.
pub const PATH_DESKTOP: &'static str = "idle";

/// The block that holds the actions of the ladder on AC power.
pub const PATH_ON_AC: &'static str = "idle.on_ac";

/// The block that holds the actions of the ladder on battery.
pub const PATH_ON_BATTERY: &'static str = "idle.on_battery";

/// The member of an action's block that holds its command.
pub const MEMBER_COMMAND: &'static str = "command";

/// The member of an action's block that holds its timeout.
pub const MEMBER_TIMEOUT: &'static str = "timeout";

/// The keys of both spellings of a block: those of the first list, then
/// those of the second that the first does not hold.
pub open spec fn merged_keys(first: Seq<Seq<char>>, second: Seq<Seq<char>>) -> Seq<Seq<char>>
    decreases second.len(),
{
    if second.len() == 0 {
        first
    } else {
        let before = merged_keys(first, second.drop_last());
        if before.contains(second.last()) {
            before
        } else {
            before.push(second.last())
        }
    }
}

pub fn merge_keys(first: Vec<String>, second: Vec<String>) -> (keys: Vec<String>)
    ensures
        crate::app_inhibit::texts(keys@) == merged_keys(
            crate::app_inhibit::texts(first@),
            crate::app_inhibit::texts(second@),
        ),
{
    let ghost a = crate::app_inhibit::texts(first@);
    let ghost b = crate::app_inhibit::texts(second@);
    let mut keys = first;
    let mut i: usize = 0;
    assert(b.take(0) =~= Seq::empty());
    while i < second.len()
        invariant
            i <= second.len(),
            b == crate::app_inhibit::texts(second@),
            crate::app_inhibit::texts(keys@) == merged_keys(a, b.take(i as int)),
        decreases second.len() - i,
    {
        let ghost prev = crate::app_inhibit::texts(keys@);
        assert(b.take(i + 1).drop_last() =~= b.take(i as int));
        assert(b.take(i + 1).last() == second@[i as int]@);
        if !crate::app_inhibit::holds_name(&keys, second[i].as_str()) {
            keys.push(second[i].clone());
            assert(crate::app_inhibit::texts(keys@) =~= prev.push(second@[i as int]@));
        }
        i += 1;
    }
    assert(b.take(second.len() as int) =~= b);
    keys
}

/// The keys that a lookup found; none where it found no block.
pub open spec fn found_keys(found: Option<Vec<String>>) -> Seq<Seq<char>> {
    match found {
        Some(keys) => crate::app_inhibit::texts(keys@),
        None => Seq::empty(),
    }
}

/// The keys of a block from what the lookups of its two spellings found: a
/// spelling that was not found has no keys.
pub fn merge_found_keys(first: Option<Vec<String>>, second: Option<Vec<String>>) -> (keys: Vec<
    String,
>)
    ensures
        crate::app_inhibit::texts(keys@) == merged_keys(found_keys(first), found_keys(second)),
{
    let a = match first {
        Some(k) => k,
        None => Vec::new(),
    };
    let b = match second {
        Some(k) => k,
        None => Vec::new(),
    };
    assert(crate::app_inhibit::texts(a@) =~= found_keys(first));
    assert(crate::app_inhibit::texts(b@) =~= found_keys(second));
    merge_keys(a, b)
}

/// The two spellings of a path under which a value is looked up: with
/// hyphens and with underscores.
pub fn spellings(base_path: &str) -> (r: (String, String))
    ensures
        r.0@ == normalized(base_path@),
        r.1@ == replaced(base_path@, '-', '_'),
{
    (replace_char(base_path, '_', '-'), replace_char(base_path, '-', '_'))
}

/// Of the answers to two lookups the first counts, the second only where
/// the first found nothing.
pub fn first_some<T>(first: Option<T>, second: Option<T>) -> (r: Option<T>)
    ensures
        r == if first is Some {
            first
        } else {
            second
        },
{
    match first {
        Some(v) => Some(v),
        None => second,
    }
}

/// The path of a member of the block `key` under `path`.
pub fn member_path(path: &str, key: &str, member: &str) -> (r: String)
    ensures
        r@ == path@ + "."@ + key@ + "."@ + member@,
{
    let mut r = String::from_str(path);
    r.append(".");
    r.append(key);
    r.append(".");
    r.append(member);
    r
}

} // verus!
