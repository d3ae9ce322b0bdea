//! The configuration model: actions, application patterns and the
//! configuration snapshot that the idle timer works from.

use crate::text::{starts_with, str_eq};
use vstd::prelude::*;

verus! {

/// `regex::Regex`, a compiled regular expression. Nothing is known of what
/// is inside.
#[verifier::external_type_specification]
#[verifier::external_body]
pub struct ExRegex(regex::Regex);

/// The pattern text that a compiled regular expression was built from.
pub uninterp spec fn regex_source(r: regex::Regex) -> Seq<char>;

/// Whether a compiled regular expression matches somewhere in `text`.
pub uninterp spec fn regex_accepts(r: regex::Regex, text: Seq<char>) -> bool;

/// `Regex::as_str` returns the pattern text that the regular expression was
/// built from.
pub assume_specification[ regex::Regex::as_str ](r: &regex::Regex) -> (s: &str)
    ensures
        s@ == regex_source(*r),
;

/// `Regex::is_match` searches the whole haystack from its start; it never
/// panics and depends on nothing but the regex and the haystack.
pub assume_specification[ regex::Regex::is_match ](r: &regex::Regex, haystack: &str) -> (b: bool)
    ensures
        b == regex_accepts(*r, haystack@),
;

/// Cloning a `Regex` yields the same regular expression.
pub assume_specification[ <regex::Regex as Clone>::clone ](r: &regex::Regex) -> (c: regex::Regex)
    ensures
        c == *r,
;

/// Which policy an idle action belongs to.
#[derive(Clone, Copy, Debug, PartialEq, Eq, Hash, Structural)]
pub enum IdleActionKind {
    LockScreen,
    Suspend,
    Dpms,
    Brightness,
    Custom,
}

/// The name under which a kind is written in listings and logs.
pub open spec fn kind_name(kind: IdleActionKind) -> Seq<char> {
    match kind {
        IdleActionKind::LockScreen => "lock_screen"@,
        IdleActionKind::Suspend => "suspend"@,
        IdleActionKind::Dpms => "dpms"@,
        IdleActionKind::Brightness => "brightness"@,
        IdleActionKind::Custom => "custom"@,
    }
}

/// The kind that a configuration block name stands for: the reserved names
/// are typed, every other name is a custom action.
pub open spec fn kind_of_name(name: Seq<char>) -> IdleActionKind {
    if name == "lock_screen"@ || name == "lock-screen"@ {
        IdleActionKind::LockScreen
    } else if name == "suspend"@ {
        IdleActionKind::Suspend
    } else if name == "dpms"@ {
        IdleActionKind::Dpms
    } else if name == "brightness"@ {
        IdleActionKind::Brightness
    } else {
        IdleActionKind::Custom
    }
}

impl IdleActionKind {
    pub fn as_str(&self) -> (s: &'static str)
        ensures
            s@ == kind_name(*self),
    {
        match self {
            IdleActionKind::LockScreen => "lock_screen",
            IdleActionKind::Suspend => "suspend",
            IdleActionKind::Dpms => "dpms",
            IdleActionKind::Brightness => "brightness",
            IdleActionKind::Custom => "custom",
        }
    }

    pub fn to_string(&self) -> (s: String)
        ensures
            s@ == kind_name(*self),
    {
        String::from_str(self.as_str())
    }

    pub fn from_name(name: &str) -> (kind: IdleActionKind)
        ensures
            kind == kind_of_name(name@),
    {
        if str_eq(name, "lock_screen") || str_eq(name, "lock-screen") {
            IdleActionKind::LockScreen
        } else if str_eq(name, "suspend") {
            IdleActionKind::Suspend
        } else if str_eq(name, "dpms") {
            IdleActionKind::Dpms
        } else if str_eq(name, "brightness") {
            IdleActionKind::Brightness
        } else {
            IdleActionKind::Custom
        }
    }
}

/// One step of the ladder: after `timeout_seconds` of inactivity run
/// `command`. A timeout of zero marks an instant action.
#[derive(Debug)]
pub struct IdleAction {
    pub timeout_seconds: u64,
    pub command: String,
    pub kind: IdleActionKind,
}

pub struct ActionView {
    pub timeout_seconds: u64,
    pub command: Seq<char>,
    pub kind: IdleActionKind,
}

impl View for IdleAction {
    type V = ActionView;

    open spec fn view(&self) -> ActionView {
        ActionView {
            timeout_seconds: self.timeout_seconds,
            command: self.command@,
            kind: self.kind,
        }
    }
}

impl DeepView for IdleAction {
    type V = ActionView;

    open spec fn deep_view(&self) -> ActionView {
        self@
    }
}

impl Clone for IdleAction {
    fn clone(&self) -> (r: Self)
        ensures
            r == *self,
    {
        IdleAction {
            timeout_seconds: self.timeout_seconds,
            command: self.command.clone(),
            kind: self.kind,
        }
    }
}

/// An application that inhibits idling, named literally or by a regular
/// expression.
#[derive(Debug)]
pub enum AppPattern {
    Literal(String),
    Regex(regex::Regex),
}

pub enum PatternView {
    Literal(Seq<char>),
    Regex(regex::Regex),
}

impl View for AppPattern {
    type V = PatternView;

    open spec fn view(&self) -> PatternView {
        match self {
            AppPattern::Literal(s) => PatternView::Literal(s@),
            AppPattern::Regex(r) => PatternView::Regex(*r),
        }
    }
}

impl DeepView for AppPattern {
    type V = PatternView;

    open spec fn deep_view(&self) -> PatternView {
        self@
    }
}

impl Clone for AppPattern {
    fn clone(&self) -> (r: Self)
        ensures
            r == *self,
    {
        match self {
            AppPattern::Literal(s) => AppPattern::Literal(s.clone()),
            AppPattern::Regex(r) => AppPattern::Regex(r.clone()),
        }
    }
}

/// How a pattern is written in listings: a literal as it is, a regular
/// expression behind the marker `(regex) `.
pub open spec fn pattern_text(p: PatternView) -> Seq<char> {
    match p {
        PatternView::Literal(s) => s,
        PatternView::Regex(r) => "(regex) "@ + regex_source(r),
    }
}

impl AppPattern {
    pub fn to_string(&self) -> (s: String)
        ensures
            s@ == pattern_text(self@),
    {
        match self {
            AppPattern::Literal(s) => s.clone(),
            AppPattern::Regex(r) => {
                let mut out = String::from_str("(regex) ");
                out.append(r.as_str());
                out
            },
        }
    }
}

/// The part of the action set that a key belongs to.
#[derive(Clone, Copy, Debug, PartialEq, Eq, Structural)]
pub enum Partition {
    Desktop,
    Ac,
    Battery,
}

/// Keys that start with `ac.` or `battery.` belong to the laptop ladders,
/// every other key to the desktop ladder.
pub open spec fn partition_of(key: Seq<char>) -> Partition {
    if "ac."@.is_prefix_of(key) {
        Partition::Ac
    } else if "battery."@.is_prefix_of(key) {
        Partition::Battery
    } else {
        Partition::Desktop
    }
}

pub fn key_partition(key: &str) -> (p: Partition)
    ensures
        p == partition_of(key@),
{
    if starts_with(key, "ac.") {
        Partition::Ac
    } else if starts_with(key, "battery.") {
        Partition::Battery
    } else {
        Partition::Desktop
    }
}

/// A configuration snapshot. `actions` stands for a map from key to action:
/// in a well-formed configuration no key occurs twice, and the order of the
/// entries is the order in which they were first inserted.
#[derive(Debug)]
pub struct IdleConfig {
    pub actions: Vec<(String, IdleAction)>,
    pub resume_command: Option<String>,
    pub pre_suspend_command: Option<String>,
    pub monitor_media: bool,
    pub respect_idle_inhibitors: bool,
    pub inhibit_apps: Vec<AppPattern>,
    pub debounce_seconds: u8,
}

pub struct ConfigView {
    pub actions: Seq<(Seq<char>, ActionView)>,
    pub resume_command: Option<Seq<char>>,
    pub pre_suspend_command: Option<Seq<char>>,
    pub monitor_media: bool,
    pub respect_idle_inhibitors: bool,
    pub inhibit_apps: Seq<PatternView>,
    pub debounce_seconds: u8,
}

impl ConfigView {
    /// No key occurs twice.
    pub open spec fn well_formed(self) -> bool {
        forall|i: int, j: int|
            0 <= i < j < self.actions.len() ==> (#[trigger] self.actions[i]).0 != (
            #[trigger] self.actions[j]).0
    }

    /// Position of the first entry for `key`, if there is one.
    pub open spec fn position(self, key: Seq<char>) -> Option<int> {
        first_with_key(self.actions, key)
    }

    /// The action stored under `key`, if there is one.
    pub open spec fn lookup(self, key: Seq<char>) -> Option<ActionView> {
        match self.position(key) {
            Some(i) => Some(self.actions[i].1),
            None => None,
        }
    }

    /// The entries after a map insertion: the entry of `key` is overwritten
    /// where it stands, a new key is added at the end.
    pub open spec fn with_entry(self, key: Seq<char>, action: ActionView) -> ConfigView {
        ConfigView { actions: put(self.actions, key, action), ..self }
    }

    /// The actions of one partition, in the order of the entries.
    pub open spec fn ladder(self, part: Partition) -> Seq<ActionView> {
        select_partition(self.actions, part)
    }

    /// The ladder that is active for a power source: the laptop ladders win
    /// as soon as one of them has an entry, else the desktop ladder is used.
    pub open spec fn active_ladder(self, on_ac: bool) -> Seq<ActionView> {
        if self.ladder(Partition::Ac).len() > 0 || self.ladder(Partition::Battery).len() > 0 {
            self.power_ladder(on_ac)
        } else {
            self.ladder(Partition::Desktop)
        }
    }

    /// The laptop ladder for a power source.
    pub open spec fn power_ladder(self, on_ac: bool) -> Seq<ActionView> {
        if on_ac {
            self.ladder(Partition::Ac)
        } else {
            self.ladder(Partition::Battery)
        }
    }
}

/// Position of the first entry for `key` among `entries`, if there is one.
pub open spec fn first_with_key(entries: Seq<(Seq<char>, ActionView)>, key: Seq<char>) -> Option<
    int,
>
    decreases entries.len(),
{
    if entries.len() == 0 {
        None
    } else {
        match first_with_key(entries.drop_last(), key) {
            Some(i) => Some(i),
            None => if entries.last().0 == key {
                Some(entries.len() - 1)
            } else {
                None
            },
        }
    }
}

/// What `first_with_key` finds: the least position that holds the key.
pub proof fn lemma_first_with_key(entries: Seq<(Seq<char>, ActionView)>, key: Seq<char>)
    ensures
        match first_with_key(entries, key) {
            Some(i) => 0 <= i < entries.len() && entries[i].0 == key && forall|j: int|
                0 <= j < i ==> (#[trigger] entries[j]).0 != key,
            None => forall|j: int| 0 <= j < entries.len() ==> (#[trigger] entries[j]).0 != key,
        },
    decreases entries.len(),
{
    if entries.len() > 0 {
        lemma_first_with_key(entries.drop_last(), key);
        assert forall|j: int| 0 <= j < entries.len() - 1 implies entries.drop_last()[j]
            == entries[j] by {}
        match first_with_key(entries.drop_last(), key) {
            Some(i) => {
                assert(entries.drop_last()[i] == entries[i]);
                assert forall|j: int| 0 <= j < i implies (#[trigger] entries[j]).0 != key by {
                    assert(entries.drop_last()[j] == entries[j]);
                }
            },
            None => {
                assert forall|j: int| 0 <= j < entries.len() - 1 implies (
                #[trigger] entries[j]).0 != key by {
                    assert(entries.drop_last()[j] == entries[j]);
                }
            },
        }
    }
}

/// The entries after a map insertion: the first entry of `key` is
/// overwritten where it stands, a new key is added at the end.
pub open spec fn put(
    entries: Seq<(Seq<char>, ActionView)>,
    key: Seq<char>,
    action: ActionView,
) -> Seq<(Seq<char>, ActionView)> {
    match first_with_key(entries, key) {
        Some(i) => entries.update(i, (key, action)),
        None => entries.push((key, action)),
    }
}

/// A map insertion keeps the keys distinct.
pub proof fn lemma_put_well_formed(cfg: ConfigView, key: Seq<char>, action: ActionView)
    requires
        cfg.well_formed(),
    ensures
        cfg.with_entry(key, action).well_formed(),
{
    lemma_first_with_key(cfg.actions, key);
    let after = cfg.with_entry(key, action).actions;
    assert forall|i: int, j: int| 0 <= i < j < after.len() implies (#[trigger] after[i]).0 != (
    #[trigger] after[j]).0 by {
        match first_with_key(cfg.actions, key) {
            Some(k) => {
                assert(cfg.actions[i].0 != cfg.actions[j].0);
                if i == k {
                    assert(cfg.actions[k].0 != cfg.actions[j].0);
                } else if j == k {
                    assert(cfg.actions[i].0 != cfg.actions[k].0);
                }
            },
            None => {
                if j < cfg.actions.len() {
                    assert(cfg.actions[i].0 != cfg.actions[j].0);
                } else {
                    assert(cfg.actions[i].0 != key);
                }
            },
        }
    }
}

/// The actions among `entries` whose key lies in `part`, in order.
pub open spec fn select_partition(entries: Seq<(Seq<char>, ActionView)>, part: Partition) -> Seq<
    ActionView,
>
    decreases entries.len(),
{
    if entries.len() == 0 {
        Seq::empty()
    } else {
        let rest = select_partition(entries.drop_last(), part);
        if partition_of(entries.last().0) == part {
            rest.push(entries.last().1)
        } else {
            rest
        }
    }
}

impl View for IdleConfig {
    type V = ConfigView;

    open spec fn view(&self) -> ConfigView {
        ConfigView {
            actions: Seq::new(
                self.actions@.len(),
                |i: int| (self.actions@[i].0@, self.actions@[i].1@),
            ),
            resume_command: option_text(self.resume_command),
            pre_suspend_command: option_text(self.pre_suspend_command),
            monitor_media: self.monitor_media,
            respect_idle_inhibitors: self.respect_idle_inhibitors,
            inhibit_apps: Seq::new(self.inhibit_apps@.len(), |i: int| self.inhibit_apps@[i]@),
            debounce_seconds: self.debounce_seconds,
        }
    }
}

/// The text of an optional string.
pub open spec fn option_text(s: Option<String>) -> Option<Seq<char>> {
    match s {
        Some(s) => Some(s@),
        None => None,
    }
}

pub fn clone_option(s: &Option<String>) -> (r: Option<String>)
    ensures
        r == *s,
{
    match s {
        Some(s) => Some(s.clone()),
        None => None,
    }
}

impl Clone for IdleConfig {
    fn clone(&self) -> (r: Self)
        ensures
            r@ == self@,
    {
        let mut actions: Vec<(String, IdleAction)> = Vec::new();
        let mut i: usize = 0;
        while i < self.actions.len()
            invariant
                i <= self.actions.len(),
                actions@.len() == i,
                forall|j: int| 0 <= j < i ==> actions@[j] == self.actions@[j],
            decreases self.actions.len() - i,
        {
            actions.push((self.actions[i].0.clone(), self.actions[i].1.clone()));
            i += 1;
        }
        let mut inhibit_apps: Vec<AppPattern> = Vec::new();
        let mut k: usize = 0;
        while k < self.inhibit_apps.len()
            invariant
                k <= self.inhibit_apps.len(),
                inhibit_apps@.len() == k,
                forall|j: int| 0 <= j < k ==> inhibit_apps@[j] == self.inhibit_apps@[j],
            decreases self.inhibit_apps.len() - k,
        {
            inhibit_apps.push(self.inhibit_apps[k].clone());
            k += 1;
        }
        let r = IdleConfig {
            actions,
            resume_command: clone_option(&self.resume_command),
            pre_suspend_command: clone_option(&self.pre_suspend_command),
            monitor_media: self.monitor_media,
            respect_idle_inhibitors: self.respect_idle_inhibitors,
            inhibit_apps,
            debounce_seconds: self.debounce_seconds,
        };
        assert(r@.actions =~= self@.actions);
        assert(r@.inhibit_apps =~= self@.inhibit_apps);
        r
    }
}

impl IdleConfig {
    /// A configuration without actions and with the documented defaults:
    /// media monitoring and inhibitor handling on, a debounce of 3 seconds.
    pub fn new() -> (cfg: Self)
        ensures
            cfg@ == (ConfigView {
                actions: Seq::empty(),
                resume_command: None,
                pre_suspend_command: None,
                monitor_media: true,
                respect_idle_inhibitors: true,
                inhibit_apps: Seq::empty(),
                debounce_seconds: 3,
            }),
            cfg@.well_formed(),
    {
        let cfg = IdleConfig {
            actions: Vec::new(),
            resume_command: None,
            pre_suspend_command: None,
            monitor_media: true,
            respect_idle_inhibitors: true,
            inhibit_apps: Vec::new(),
            debounce_seconds: 3,
        };
        assert(cfg@.actions =~= Seq::empty());
        assert(cfg@.inhibit_apps =~= Seq::empty());
        cfg
    }

    /// Index of the first entry for `key`.
    pub fn find(&self, key: &str) -> (r: Option<usize>)
        ensures
            match r {
                Some(i) => self@.position(key@) == Some(i as int),
                None => self@.position(key@) is None,
            },
    {
        let mut i: usize = 0;
        while i < self.actions.len()
            invariant
                i <= self.actions.len(),
                forall|j: int| 0 <= j < i ==> (#[trigger] self@.actions[j]).0 != key@,
            decreases self.actions.len() - i,
        {
            assert(self@.actions[i as int].0 == self.actions@[i as int].0@);
            if str_eq(self.actions[i].0.as_str(), key) {
                proof {
                    lemma_first_with_key(self@.actions, key@);
                }
                return Some(i);
            }
            i += 1;
        }
        proof {
            lemma_first_with_key(self@.actions, key@);
        }
        None
    }

    /// Sets the action for `key`, as a map insertion does: an entry with that
    /// key is overwritten where it stands, a new key is added at the end.
    pub fn insert(&mut self, key: String, action: IdleAction)
        ensures
            final(self)@ == old(self)@.with_entry(key@, action@),
            old(self)@.well_formed() ==> final(self)@.well_formed(),
    {
        let ghost before = self@;
        proof {
            if before.well_formed() {
                lemma_put_well_formed(before, key@, action@);
            }
        }
        match self.find(key.as_str()) {
            Some(i) => {
                proof {
                    lemma_first_with_key(before.actions, key@);
                }
                self.actions.set(i, (key, action));
                assert(self@.actions =~= before.actions.update(i as int, (key@, action@)));
                assert(self@.inhibit_apps =~= before.inhibit_apps);
            },
            None => {
                self.actions.push((key, action));
                assert(self@.actions =~= before.actions.push((key@, action@)));
                assert(self@.inhibit_apps =~= before.inhibit_apps);
            },
        }
    }

    /// The action stored under `key`.
    pub fn get(&self, key: &str) -> (r: Option<&IdleAction>)
        ensures
            match r {
                Some(a) => self@.lookup(key@) == Some(a@),
                None => self@.lookup(key@) is None,
            },
    {
        match self.find(key) {
            Some(i) => {
                proof {
                    lemma_first_with_key(self@.actions, key@);
                }
                assert(self@.actions[i as int] == (key@, self.actions@[i as int].1@));
                Some(&self.actions[i].1)
            },
            None => None,
        }
    }

    /// The actions of one partition, in the order of the entries.
    pub fn ladder(&self, part: Partition) -> (r: Vec<IdleAction>)
        ensures
            r.deep_view() == self@.ladder(part),
    {
        let mut out: Vec<IdleAction> = Vec::new();
        let mut i: usize = 0;
        assert(self@.actions.take(0) =~= Seq::empty());
        while i < self.actions.len()
            invariant
                i <= self.actions.len(),
                out.deep_view() == select_partition(self@.actions.take(i as int), part),
            decreases self.actions.len() - i,
        {
            let ghost prev = out.deep_view();
            assert(self@.actions.take(i + 1).drop_last() =~= self@.actions.take(i as int));
            assert(self@.actions.take(i + 1).last() == self@.actions[i as int]);
            if key_partition(self.actions[i].0.as_str()) == part {
                out.push(self.actions[i].1.clone());
                assert(out.deep_view() =~= prev.push(self@.actions[i as int].1));
            }
            i += 1;
        }
        assert(self@.actions.take(self.actions.len() as int) =~= self@.actions);
        out
    }
}

} // verus!
