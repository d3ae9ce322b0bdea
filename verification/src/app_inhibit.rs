//! Applications that inhibit idling: matching window and process names
//! against the configured patterns, and pausing the timer while one runs.

use crate::actions::Effect;
use crate::compositor::unicode_lowercase;
use crate::config::model::{regex_accepts, AppPattern, PatternView};
use crate::edge::{apply_edge, detect_edge, edge_between, edge_effects, edge_state};
use crate::idle_timer::IdleTimer;
use crate::text::{chars_eq_ignore_case, eq_ignore_case, str_eq, to_chars};
use vstd::prelude::*;

verus! {

/// The part of a pattern behind its last dot; the pattern itself where it
/// has none. For a reverse-DNS name this is the application's short name.
pub open spec fn last_segment(s: Seq<char>) -> Seq<char>
    decreases s.len(),
{
    if s.len() == 0 {
        s
    } else if s.last() == '.' {
        Seq::empty()
    } else {
        last_segment(s.drop_last()).push(s.last())
    }
}

/// Where the last segment of `s` begins.
pub open spec fn last_segment_start(s: Seq<char>) -> int
    decreases s.len(),
{
    if s.len() == 0 {
        0
    } else if s.last() == '.' {
        s.len() as int
    } else {
        last_segment_start(s.drop_last())
    }
}

pub proof fn lemma_last_segment(s: Seq<char>)
    ensures
        0 <= last_segment_start(s) <= s.len(),
        last_segment(s) == s.subrange(last_segment_start(s), s.len() as int),
    decreases s.len(),
{
    if s.len() > 0 && s.last() != '.' {
        lemma_last_segment(s.drop_last());
        let k = last_segment_start(s.drop_last());
        assert(s.drop_last().subrange(k, s.len() - 1).push(s.last()) =~= s.subrange(
            k,
            s.len() as int,
        ));
    } else {
        assert(s.subrange(s.len() as int, s.len() as int) =~= Seq::<char>::empty());
        if s.len() == 0 {
            assert(s.subrange(0, 0) =~= s);
        }
    }
}

/// `app_id` without a trailing `.exe`, where it has one.
pub open spec fn without_exe(app_id: Seq<char>) -> Option<Seq<char>> {
    if ".exe"@.is_suffix_of(app_id) {
        Some(app_id.subrange(0, app_id.len() - 4))
    } else {
        None
    }
}

/// Whether a literal pattern names the application `app_id`. Case is
/// ignored throughout. The pattern matches the identifier itself, the
/// identifier without a trailing `.exe`, and, by its last dot-separated
/// segment, the short name of a reverse-DNS pattern, each up to ASCII case;
/// and it matches an identifier that is equal to it once both are in lower
/// case by the Unicode rules.
pub open spec fn literal_matches_app(pattern: Seq<char>, app_id: Seq<char>) -> bool {
    ||| eq_ignore_case(pattern, app_id)
    ||| (without_exe(app_id) matches Some(name) && eq_ignore_case(name, pattern))
    ||| eq_ignore_case(last_segment(pattern), app_id)
    ||| unicode_lowercase(pattern) == unicode_lowercase(app_id)
}

/// Whether a pattern names the application `app_id`.
pub open spec fn pattern_matches_app(p: PatternView, app_id: Seq<char>) -> bool {
    match p {
        PatternView::Literal(s) => literal_matches_app(s, app_id),
        PatternView::Regex(r) => regex_accepts(r, app_id),
    }
}

/// Whether one of the patterns names the application.
pub open spec fn inhibits_app(patterns: Seq<PatternView>, app_id: Seq<char>) -> bool {
    exists|i: int| 0 <= i < patterns.len() && pattern_matches_app(#[trigger] patterns[i], app_id)
}

/// A running process: its name and the path of its executable, empty where
/// it is not known.
#[derive(Debug)]
pub struct ProcessInfo {
    pub name: String,
    pub exe: String,
}

pub struct ProcessView {
    pub name: Seq<char>,
    pub exe: Seq<char>,
}

impl View for ProcessInfo {
    type V = ProcessView;

    open spec fn view(&self) -> ProcessView {
        ProcessView { name: self.name@, exe: self.exe@ }
    }
}

impl DeepView for ProcessInfo {
    type V = ProcessView;

    open spec fn deep_view(&self) -> ProcessView {
        self@
    }
}

/// Whether a pattern names a process: a literal must be its name or its
/// path up to case, a regular expression must match one of the two.
pub open spec fn pattern_matches_process(p: PatternView, process: ProcessView) -> bool {
    match p {
        PatternView::Literal(s) => eq_ignore_case(process.name, s) || eq_ignore_case(
            process.exe,
            s,
        ),
        PatternView::Regex(r) => regex_accepts(r, process.name) || regex_accepts(r, process.exe),
    }
}

pub open spec fn inhibits_process(patterns: Seq<PatternView>, process: ProcessView) -> bool {
    exists|i: int|
        0 <= i < patterns.len() && pattern_matches_process(#[trigger] patterns[i], process)
}

/// The views of the patterns.
pub open spec fn pattern_views(patterns: Seq<AppPattern>) -> Seq<PatternView> {
    Seq::new(patterns.len(), |i: int| patterns[i]@)
}

/// The names among `names` that pass `keep`, each once, in the order in
/// which they first occur.
pub open spec fn distinct_kept(names: Seq<Seq<char>>, keep: spec_fn(int) -> bool) -> Seq<Seq<char>>
    decreases names.len(),
{
    if names.len() == 0 {
        Seq::empty()
    } else {
        let rest = distinct_kept(names.drop_last(), keep);
        if keep(names.len() - 1) && !rest.contains(names.last()) {
            rest.push(names.last())
        } else {
            rest
        }
    }
}

/// What `distinct_kept` holds: exactly the kept names, none twice.
pub proof fn law_distinct_kept(names: Seq<Seq<char>>, keep: spec_fn(int) -> bool)
    ensures
        distinct_kept(names, keep).no_duplicates(),
        forall|n: Seq<char>| #[trigger]
            distinct_kept(names, keep).contains(n) <==> exists|i: int|
                0 <= i < names.len() && keep(i) && #[trigger] names[i] == n,
    decreases names.len(),
{
    if names.len() > 0 {
        let front = names.drop_last();
        law_distinct_kept(front, keep);
        let rest = distinct_kept(front, keep);
        let all = distinct_kept(names, keep);
        let last = names.len() - 1;
        assert forall|n: Seq<char>| #[trigger]
            all.contains(n) <==> exists|i: int|
                0 <= i < names.len() && keep(i) && #[trigger] names[i] == n by {
            if all.contains(n) {
                let k = choose|k: int| 0 <= k < all.len() && all[k] == n;
                if k < rest.len() {
                    assert(rest[k] == n);
                    assert(rest.contains(n));
                    let i = choose|i: int| 0 <= i < front.len() && keep(i) && #[trigger] front[i] == n;
                    assert(names[i] == n);
                } else {
                    assert(names[last] == n);
                }
            }
            if exists|i: int| 0 <= i < names.len() && keep(i) && #[trigger] names[i] == n {
                let i = choose|i: int| 0 <= i < names.len() && keep(i) && #[trigger] names[i] == n;
                if i < last {
                    assert(front[i] == n);
                    assert(rest.contains(n));
                    let k = choose|k: int| 0 <= k < rest.len() && rest[k] == n;
                    assert(all[k] == n);
                } else {
                    if rest.contains(n) {
                        let k = choose|k: int| 0 <= k < rest.len() && rest[k] == n;
                        assert(all[k] == n);
                    } else {
                        assert(all[all.len() - 1] == n);
                    }
                }
            }
        }
    }
}

/// The names of the windows' applications.
pub open spec fn texts(names: Seq<String>) -> Seq<Seq<char>> {
    Seq::new(names.len(), |i: int| names[i]@)
}

/// The names of the processes.
pub open spec fn process_names(processes: Seq<ProcessInfo>) -> Seq<Seq<char>> {
    Seq::new(processes.len(), |i: int| processes[i]@.name)
}

/// Whether a literal pattern names the application.
pub fn app_id_matches(pattern: &str, app_id: &str) -> (r: bool)
    ensures
        r == literal_matches_app(pattern@, app_id@),
{
    let p = to_chars(pattern);
    let a = to_chars(app_id);
    assert(p@.subrange(0, p@.len() as int) =~= p@);
    if chars_eq_ignore_case(&p, 0, p.len(), &a) {
        return true;
    }
    if a.len() >= 4 {
        let n = a.len();
        let ghost tail = a@.subrange(n - 4, n as int);
        proof {
            reveal_strlit(".exe");
            assert(".exe"@.len() == 4);
        }
        if a[n - 4] == '.' && a[n - 3] == 'e' && a[n - 2] == 'x' && a[n - 1] == 'e' {
            assert(tail =~= ".exe"@);
            if chars_eq_ignore_case(&a, 0, n - 4, &p) {
                return true;
            }
        } else {
            assert(tail[0] == a@[n - 4] && tail[1] == a@[n - 3] && tail[2] == a@[n - 2] && tail[3]
                == a@[n - 1]);
        }
    } else {
        proof {
            reveal_strlit(".exe");
            assert(".exe"@.len() == 4);
        }
    }
    let mut start: usize = p.len();
    assert(p@.take(start as int) =~= p@);
    while start > 0 && p[start - 1] != '.'
        invariant
            start <= p.len(),
            last_segment_start(p@) == last_segment_start(p@.take(start as int)),
        decreases start,
    {
        assert(p@.take(start as int).drop_last() =~= p@.take(start - 1));
        start -= 1;
    }
    proof {
        lemma_last_segment(p@);
        if start > 0 {
            assert(p@.take(start as int).last() == '.');
        }
    }
    if chars_eq_ignore_case(&p, start, p.len(), &a) {
        return true;
    }
    pattern.to_lowercase() == app_id.to_lowercase()
}

fn pattern_matches(pattern: &AppPattern, app_id: &str) -> (r: bool)
    ensures
        r == pattern_matches_app(pattern@, app_id@),
{
    match pattern {
        AppPattern::Literal(s) => app_id_matches(s.as_str(), app_id),
        AppPattern::Regex(r) => r.is_match(app_id),
    }
}

/// Whether an application should inhibit idling.
pub fn should_inhibit_for_app(patterns: &Vec<AppPattern>, app_id: &str) -> (r: bool)
    ensures
        r == inhibits_app(pattern_views(patterns@), app_id@),
{
    let mut i: usize = 0;
    while i < patterns.len()
        invariant
            i <= patterns.len(),
            forall|j: int|
                0 <= j < i ==> !pattern_matches_app(
                    #[trigger] pattern_views(patterns@)[j],
                    app_id@,
                ),
        decreases patterns.len() - i,
    {
        assert(pattern_views(patterns@)[i as int] == patterns@[i as int]@);
        if pattern_matches(&patterns[i], app_id) {
            return true;
        }
        i += 1;
    }
    false
}

fn process_matches(pattern: &AppPattern, process: &ProcessInfo) -> (r: bool)
    ensures
        r == pattern_matches_process(pattern@, process@),
{
    match pattern {
        AppPattern::Literal(s) => {
            let lit = to_chars(s.as_str());
            let name = to_chars(process.name.as_str());
            let exe = to_chars(process.exe.as_str());
            assert(name@.subrange(0, name@.len() as int) =~= name@);
            assert(exe@.subrange(0, exe@.len() as int) =~= exe@);
            chars_eq_ignore_case(&name, 0, name.len(), &lit) || chars_eq_ignore_case(
                &exe,
                0,
                exe.len(),
                &lit,
            )
        },
        AppPattern::Regex(r) => r.is_match(process.name.as_str()) || r.is_match(
            process.exe.as_str(),
        ),
    }
}

/// Whether a process should inhibit idling.
pub fn should_inhibit_for_process(patterns: &Vec<AppPattern>, process: &ProcessInfo) -> (r: bool)
    ensures
        r == inhibits_process(pattern_views(patterns@), process@),
{
    let mut i: usize = 0;
    while i < patterns.len()
        invariant
            i <= patterns.len(),
            forall|j: int|
                0 <= j < i ==> !pattern_matches_process(
                    #[trigger] pattern_views(patterns@)[j],
                    process@,
                ),
        decreases patterns.len() - i,
    {
        assert(pattern_views(patterns@)[i as int] == patterns@[i as int]@);
        if process_matches(&patterns[i], process) {
            return true;
        }
        i += 1;
    }
    false
}

/// Whether `names` holds `name`.
pub fn holds_name(names: &Vec<String>, name: &str) -> (r: bool)
    ensures
        r == texts(names@).contains(name@),
{
    let mut i: usize = 0;
    while i < names.len()
        invariant
            i <= names.len(),
            forall|j: int| 0 <= j < i ==> texts(names@)[j] != name@,
        decreases names.len() - i,
    {
        assert(texts(names@)[i as int] == names@[i as int]@);
        if str_eq(names[i].as_str(), name) {
            return true;
        }
        i += 1;
    }
    false
}

/// The applications among the open windows that inhibit idling, each once.
pub fn inhibiting_windows(patterns: &Vec<AppPattern>, app_ids: &Vec<String>) -> (found: Vec<String>)
    ensures
        texts(found@) == distinct_kept(
            texts(app_ids@),
            |i: int| inhibits_app(pattern_views(patterns@), texts(app_ids@)[i]),
        ),
{
    let ghost names = texts(app_ids@);
    let ghost keep = |i: int| inhibits_app(pattern_views(patterns@), texts(app_ids@)[i]);
    let mut found: Vec<String> = Vec::new();
    let mut i: usize = 0;
    assert(names.take(0) =~= Seq::empty());
    assert(texts(found@) =~= Seq::empty());
    while i < app_ids.len()
        invariant
            i <= app_ids.len(),
            names == texts(app_ids@),
            keep == |i: int| inhibits_app(pattern_views(patterns@), texts(app_ids@)[i]),
            texts(found@) == distinct_kept(names.take(i as int), keep),
        decreases app_ids.len() - i,
    {
        let ghost prev = texts(found@);
        assert(names.take(i + 1).drop_last() =~= names.take(i as int));
        assert(names.take(i + 1).last() == app_ids@[i as int]@);
        assert(names[i as int] == app_ids@[i as int]@);
        if should_inhibit_for_app(patterns, app_ids[i].as_str()) && !holds_name(
            &found,
            app_ids[i].as_str(),
        ) {
            found.push(app_ids[i].clone());
            assert(texts(found@) =~= prev.push(app_ids@[i as int]@));
        }
        i += 1;
    }
    assert(names.take(app_ids.len() as int) =~= names);
    found
}

/// The names of the running processes that inhibit idling, each once.
pub fn inhibiting_processes(patterns: &Vec<AppPattern>, processes: &Vec<ProcessInfo>) -> (found:
    Vec<String>)
    ensures
        texts(found@) == distinct_kept(
            process_names(processes@),
            |i: int| inhibits_process(pattern_views(patterns@), processes@[i]@),
        ),
{
    let ghost names = process_names(processes@);
    let ghost keep = |i: int| inhibits_process(pattern_views(patterns@), processes@[i]@);
    let mut found: Vec<String> = Vec::new();
    let mut i: usize = 0;
    assert(names.take(0) =~= Seq::empty());
    assert(texts(found@) =~= Seq::empty());
    while i < processes.len()
        invariant
            i <= processes.len(),
            names == process_names(processes@),
            keep == |i: int| inhibits_process(pattern_views(patterns@), processes@[i]@),
            texts(found@) == distinct_kept(names.take(i as int), keep),
        decreases processes.len() - i,
    {
        let ghost prev = texts(found@);
        assert(names.take(i + 1).drop_last() =~= names.take(i as int));
        assert(names.take(i + 1).last() == processes@[i as int]@.name);
        if should_inhibit_for_process(patterns, &processes[i]) && !holds_name(
            &found,
            processes[i].name.as_str(),
        ) {
            found.push(processes[i].name.clone());
            assert(texts(found@) =~= prev.push(processes@[i as int]@.name));
        }
        i += 1;
    }
    assert(names.take(processes.len() as int) =~= names);
    found
}

/// After this many process scans the process snapshot is built anew, which
/// is about every ten minutes.
pub const RESET_THRESHOLD: u32 = 150;

/// Tracks the applications that inhibit idling at the moment.
#[derive(Debug)]
pub struct AppInhibitor {
    pub active_apps: Vec<String>,
    pub checks_since_reset: u32,
}

/// What one look at the running applications came to.
pub struct ScanReport {
    /// Whether an inhibiting application runs.
    pub running: bool,
    /// The applications that run now and did not at the last look.
    pub newly_active: Vec<String>,
    /// What the timer was asked to do.
    pub effects: Vec<Effect>,
}

/// The names of `found` that `before` does not hold, in order.
pub open spec fn newly_found(found: Seq<Seq<char>>, before: Seq<Seq<char>>) -> Seq<Seq<char>>
    decreases found.len(),
{
    if found.len() == 0 {
        Seq::empty()
    } else {
        let rest = newly_found(found.drop_last(), before);
        if before.contains(found.last()) {
            rest
        } else {
            rest.push(found.last())
        }
    }
}

impl AppInhibitor {
    pub fn new() -> (a: Self)
        ensures
            a.active_apps@.len() == 0,
            a.checks_since_reset == 0,
    {
        AppInhibitor { active_apps: Vec::new(), checks_since_reset: 0 }
    }

    /// Counts one process scan. Returns whether the process snapshot is to
    /// be built anew before it: that is so at every 150th scan.
    pub fn note_process_scan(&mut self) -> (rebuild: bool)
        ensures
            rebuild == (old(self).checks_since_reset >= RESET_THRESHOLD - 1),
            final(self).checks_since_reset == if rebuild {
                0
            } else {
                (old(self).checks_since_reset + 1) as u32
            },
            final(self).active_apps == old(self).active_apps,
    {
        if self.checks_since_reset >= RESET_THRESHOLD - 1 {
            self.checks_since_reset = 0;
            true
        } else {
            self.checks_since_reset = self.checks_since_reset + 1;
            false
        }
    }

    /// Takes in what a look at the running applications found, at `now`.
    /// The timer is paused automatically when the first inhibiting
    /// application appears and resumed when the last one is gone.
    pub fn update(&mut self, timer: &mut IdleTimer, found: Vec<String>, now: u64) -> (report:
        ScanReport)
        ensures
            final(self).active_apps == found,
            final(self).checks_since_reset == old(self).checks_since_reset,
            report.running == (found@.len() > 0),
            texts(report.newly_active@) == newly_found(texts(found@), texts(old(self).active_apps@)),
            final(timer)@ == edge_state(
                old(timer)@,
                edge_between(old(self).active_apps@.len() > 0, found@.len() > 0),
                now,
            ),
            report.effects.deep_view() == edge_effects(
                old(timer)@,
                edge_between(old(self).active_apps@.len() > 0, found@.len() > 0),
            ),
    {
        let was_running = self.active_apps.len() > 0;
        let running = found.len() > 0;
        let ghost names = texts(found@);
        let ghost before = texts(self.active_apps@);
        let mut newly_active: Vec<String> = Vec::new();
        let mut i: usize = 0;
        assert(names.take(0) =~= Seq::empty());
        assert(texts(newly_active@) =~= Seq::empty());
        while i < found.len()
            invariant
                i <= found.len(),
                names == texts(found@),
                before == texts(self.active_apps@),
                texts(newly_active@) == newly_found(names.take(i as int), before),
            decreases found.len() - i,
        {
            let ghost prev = texts(newly_active@);
            assert(names.take(i + 1).drop_last() =~= names.take(i as int));
            assert(names.take(i + 1).last() == found@[i as int]@);
            if !holds_name(&self.active_apps, found[i].as_str()) {
                newly_active.push(found[i].clone());
                assert(texts(newly_active@) =~= prev.push(found@[i as int]@));
            }
            i += 1;
        }
        assert(names.take(found.len() as int) =~= names);
        self.active_apps = found;
        let effects = apply_edge(timer, detect_edge(was_running, running), now);
        ScanReport { running, newly_active, effects }
    }

    /// Forgets the applications seen so far.
    pub fn shutdown(&mut self)
        ensures
            final(self).active_apps@.len() == 0,
            final(self).checks_since_reset == old(self).checks_since_reset,
    {
        self.active_apps.clear();
    }
}

} // verus!
