//! The listing of a configuration that the `info` command shows.

use crate::config::model::{
    kind_name, partition_of, pattern_text, key_partition, ActionView, ConfigView, IdleConfig,
    Partition, PatternView,
};
use crate::text::{decimal, push_decimal, to_chars};
use crate::utils::{duration_text, format_duration};
use vstd::prelude::*;

verus! {

/// One entry of the action map: its key and its action.
pub type EntryView = (Seq<char>, ActionView);

/// Width to which keys are padded in the listing.
pub const KEY_WIDTH: usize = 20;

pub open spec fn bool_text(b: bool) -> Seq<char> {
    if b {
        "true"@
    } else {
        "false"@
    }
}

/// An optional command, or a dash where there is none.
pub open spec fn or_dash(s: Option<Seq<char>>) -> Seq<char> {
    match s {
        Some(s) => s,
        None => "-"@,
    }
}

/// The patterns, separated by commas.
pub open spec fn joined_patterns(ps: Seq<PatternView>) -> Seq<char>
    decreases ps.len(),
{
    if ps.len() == 0 {
        Seq::empty()
    } else if ps.len() == 1 {
        pattern_text(ps[0])
    } else {
        joined_patterns(ps.drop_last()) + ","@ + pattern_text(ps.last())
    }
}

/// The inhibiting applications, or a dash where there are none.
pub open spec fn apps_text(ps: Seq<PatternView>) -> Seq<char> {
    if ps.len() == 0 {
        "-"@
    } else {
        joined_patterns(ps)
    }
}

/// `s` followed by as many spaces as it lacks to `width` characters.
pub open spec fn padded(s: Seq<char>, width: nat) -> Seq<char> {
    if s.len() >= width {
        s
    } else {
        s + Seq::new((width - s.len()) as nat, |i: int| ' ')
    }
}

/// Keys are ordered as strings are: character by character by their code
/// points, a proper prefix first.
pub open spec fn key_le(a: Seq<char>, b: Seq<char>) -> bool
    decreases a.len(),
{
    if a.len() == 0 {
        true
    } else if b.len() == 0 {
        false
    } else if a[0] != b[0] {
        (a[0] as int) < (b[0] as int)
    } else {
        key_le(a.drop_first(), b.drop_first())
    }
}

/// `e` put into `sorted` behind every entry whose key is not greater.
pub open spec fn inserted(sorted: Seq<EntryView>, e: EntryView) -> Seq<EntryView>
    decreases sorted.len(),
{
    if sorted.len() == 0 {
        seq![e]
    } else if key_le(sorted.last().0, e.0) {
        sorted.push(e)
    } else {
        inserted(sorted.drop_last(), e).push(sorted.last())
    }
}

/// The entries in the order of their keys; entries with equal keys keep
/// their order.
pub open spec fn sorted_by_key(entries: Seq<EntryView>) -> Seq<EntryView>
    decreases entries.len(),
{
    if entries.len() == 0 {
        Seq::empty()
    } else {
        inserted(sorted_by_key(entries.drop_last()), entries.last())
    }
}

/// Whether the keys of the entries never go down.
pub open spec fn keys_ordered(entries: Seq<EntryView>) -> bool {
    forall|i: int, j: int|
        0 <= i < j < entries.len() ==> key_le((#[trigger] entries[i]).0, (#[trigger] entries[j]).0)
}

/// Whether no key of the entries is greater than `bound`.
pub open spec fn keys_below(entries: Seq<EntryView>, bound: Seq<char>) -> bool {
    forall|i: int| 0 <= i < entries.len() ==> key_le((#[trigger] entries[i]).0, bound)
}

/// Of two keys one is not greater than the other.
pub proof fn lemma_key_le_total(a: Seq<char>, b: Seq<char>)
    ensures
        key_le(a, b) || key_le(b, a),
    decreases a.len(),
{
    if a.len() > 0 && b.len() > 0 {
        if a[0] == b[0] {
            lemma_key_le_total(a.drop_first(), b.drop_first());
        } else {
            assert(a[0] as int != b[0] as int);
        }
    }
}

/// The order of keys is transitive.
pub proof fn lemma_key_le_transitive(a: Seq<char>, b: Seq<char>, c: Seq<char>)
    requires
        key_le(a, b),
        key_le(b, c),
    ensures
        key_le(a, c),
    decreases a.len(),
{
    if a.len() > 0 && b.len() > 0 && c.len() > 0 && a[0] == b[0] && b[0] == c[0] {
        lemma_key_le_transitive(a.drop_first(), b.drop_first(), c.drop_first());
    }
}

/// Insertion keeps the order, adds exactly the new entry, and stays below
/// every bound that the entries and the new entry are below.
pub proof fn lemma_inserted(sorted: Seq<EntryView>, e: EntryView)
    requires
        keys_ordered(sorted),
    ensures
        keys_ordered(inserted(sorted, e)),
        inserted(sorted, e).to_multiset() == sorted.to_multiset().insert(e),
        forall|bound: Seq<char>|
            keys_below(sorted, bound) && key_le(e.0, bound) ==> #[trigger] keys_below(
                inserted(sorted, e),
                bound,
            ),
    decreases sorted.len(),
{
    broadcast use vstd::seq_lib::group_to_multiset_ensures;

    let r = inserted(sorted, e);
    if sorted.len() == 0 {
        assert(sorted =~= Seq::empty());
        assert(r =~= Seq::<EntryView>::empty().push(e));
    } else if key_le(sorted.last().0, e.0) {
        assert forall|i: int, j: int| 0 <= i < j < r.len() implies key_le(
            (#[trigger] r[i]).0,
            (#[trigger] r[j]).0,
        ) by {
            if j == r.len() - 1 {
                if i < sorted.len() - 1 {
                    assert(key_le(sorted[i].0, sorted[sorted.len() - 1].0));
                    lemma_key_le_transitive(sorted[i].0, sorted.last().0, e.0);
                }
            } else {
                assert(key_le(sorted[i].0, sorted[j].0));
            }
        }
    } else {
        let front = sorted.drop_last();
        let last = sorted.last();
        assert(keys_ordered(front)) by {
            assert forall|i: int, j: int| 0 <= i < j < front.len() implies key_le(
                (#[trigger] front[i]).0,
                (#[trigger] front[j]).0,
            ) by {
                assert(key_le(sorted[i].0, sorted[j].0));
            }
        }
        lemma_inserted(front, e);
        let mid = inserted(front, e);
        lemma_key_le_total(last.0, e.0);
        assert(keys_below(front, last.0)) by {
            assert forall|i: int| 0 <= i < front.len() implies key_le(
                (#[trigger] front[i]).0,
                last.0,
            ) by {
                assert(key_le(sorted[i].0, sorted[sorted.len() - 1].0));
            }
        }
        assert(keys_below(mid, last.0));
        assert(r == mid.push(last));
        assert forall|i: int, j: int| 0 <= i < j < r.len() implies key_le(
            (#[trigger] r[i]).0,
            (#[trigger] r[j]).0,
        ) by {
            if j == r.len() - 1 {
                assert(key_le(mid[i].0, last.0));
            } else {
                assert(key_le(mid[i].0, mid[j].0));
            }
        }
        assert(sorted =~= front.push(last));
        assert(r.to_multiset() =~= sorted.to_multiset().insert(e));
        assert forall|bound: Seq<char>|
            keys_below(sorted, bound) && key_le(e.0, bound) implies #[trigger] keys_below(
            r,
            bound,
        ) by {
            assert(keys_below(front, bound)) by {
                assert forall|i: int| 0 <= i < front.len() implies key_le(
                    (#[trigger] front[i]).0,
                    bound,
                ) by {
                    assert(key_le(sorted[i].0, bound));
                }
            }
            assert(keys_below(mid, bound));
            assert(key_le(sorted[sorted.len() - 1].0, bound));
            assert forall|i: int| 0 <= i < r.len() implies key_le((#[trigger] r[i]).0, bound) by {
                if i < mid.len() {
                    assert(key_le(mid[i].0, bound));
                }
            }
        }
    }
}

/// What `sorted_by_key` gives: the same entries, each as often as before,
/// with keys that never go down.
pub proof fn law_sorted_by_key(entries: Seq<EntryView>)
    ensures
        keys_ordered(sorted_by_key(entries)),
        sorted_by_key(entries).to_multiset() == entries.to_multiset(),
        sorted_by_key(entries).len() == entries.len(),
    decreases entries.len(),
{
    broadcast use vstd::seq_lib::group_to_multiset_ensures;

    if entries.len() > 0 {
        law_sorted_by_key(entries.drop_last());
        lemma_inserted(sorted_by_key(entries.drop_last()), entries.last());
        assert(entries =~= entries.drop_last().push(entries.last()));
    } else {
        assert(entries =~= Seq::empty());
    }
    assert(sorted_by_key(entries).to_multiset().len() == entries.to_multiset().len());
}

/// The entries whose key lies in `part`, in order.
pub open spec fn group_entries(entries: Seq<EntryView>, part: Partition) -> Seq<EntryView>
    decreases entries.len(),
{
    if entries.len() == 0 {
        Seq::empty()
    } else {
        let rest = group_entries(entries.drop_last(), part);
        if partition_of(entries.last().0) == part {
            rest.push(entries.last())
        } else {
            rest
        }
    }
}

pub open spec fn group_name(part: Partition) -> Seq<char> {
    match part {
        Partition::Ac => "AC"@,
        Partition::Battery => "Battery"@,
        Partition::Desktop => "Desktop"@,
    }
}

/// The line that lists one action.
pub open spec fn action_line(e: EntryView) -> Seq<char> {
    "    "@ + padded(e.0, KEY_WIDTH as nat) + " Timeout="@ + decimal(e.1.timeout_seconds as nat)
        + " Kind="@ + kind_name(e.1.kind) + " Command=\""@ + e.1.command + "\"\n"@
}

pub open spec fn action_lines(entries: Seq<EntryView>) -> Seq<char>
    decreases entries.len(),
{
    if entries.len() == 0 {
        Seq::empty()
    } else {
        action_lines(entries.drop_last()) + action_line(entries.last())
    }
}

/// The listing of one group: its heading and its actions by key. A group
/// without actions is not listed.
pub open spec fn group_text(entries: Seq<EntryView>, part: Partition) -> Seq<char> {
    let group = group_entries(entries, part);
    if group.len() == 0 {
        Seq::empty()
    } else {
        "  ["@ + group_name(part) + "]\n"@ + action_lines(sorted_by_key(group))
    }
}

/// One line of the settings: a label, a value and the end of the line.
pub open spec fn setting_line(label: Seq<char>, value: Seq<char>) -> Seq<char> {
    label + value + "\n"@
}

/// The general settings.
pub open spec fn settings_text(cfg: ConfigView) -> Seq<char> {
    "General:\n"@ + setting_line("  ResumeCommand      = "@, or_dash(cfg.resume_command))
        + setting_line("  PreSuspendCommand  = "@, or_dash(cfg.pre_suspend_command)) + setting_line(
        "  MonitorMedia       = "@,
        bool_text(cfg.monitor_media),
    ) + setting_line("  RespectInhibitors  = "@, bool_text(cfg.respect_idle_inhibitors))
        + setting_line("  DebounceSeconds  = "@, decimal(cfg.debounce_seconds as nat))
        + setting_line("  InhibitApps        = "@, apps_text(cfg.inhibit_apps))
}

/// A line of the settings that is shown only where its value is given.
pub open spec fn optional_line(label: Seq<char>, value: Option<Seq<char>>) -> Seq<char> {
    match value {
        Some(v) => setting_line(label, v),
        None => Seq::empty(),
    }
}

/// What is known of the running timer; each line is shown only where its
/// value is given.
pub open spec fn runtime_text(
    idle_secs: Option<u64>,
    uptime_secs: Option<u64>,
    is_inhibited: Option<bool>,
) -> Seq<char> {
    optional_line(
        "  IdleTime           = "@,
        match idle_secs {
            Some(t) => Some(duration_text(t as nat)),
            None => None,
        },
    ) + optional_line(
        "  Uptime             = "@,
        match uptime_secs {
            Some(t) => Some(duration_text(t as nat)),
            None => None,
        },
    ) + optional_line(
        "  IdleInhibited      = "@,
        match is_inhibited {
            Some(b) => Some(bool_text(b)),
            None => None,
        },
    )
}

/// The whole listing: settings, runtime values, then the actions by group
/// in the order AC, Battery, Desktop.
pub open spec fn listing(
    cfg: ConfigView,
    idle_secs: Option<u64>,
    uptime_secs: Option<u64>,
    is_inhibited: Option<bool>,
) -> Seq<char> {
    settings_text(cfg) + runtime_text(idle_secs, uptime_secs, is_inhibited) + "\nActions:\n"@
        + group_text(cfg.actions, Partition::Ac) + group_text(cfg.actions, Partition::Battery)
        + group_text(cfg.actions, Partition::Desktop)
}

/// Whether `a` comes before `b` or is equal to it.
pub fn key_not_greater(a: &Vec<char>, b: &Vec<char>) -> (r: bool)
    ensures
        r == key_le(a@, b@),
{
    let mut i: usize = 0;
    assert(a@.skip(0) =~= a@ && b@.skip(0) =~= b@);
    loop
        invariant
            i <= a.len(),
            i <= b.len(),
            key_le(a@, b@) == key_le(a@.skip(i as int), b@.skip(i as int)),
        decreases a.len() - i,
    {
        if i == a.len() {
            return true;
        }
        if i == b.len() {
            return false;
        }
        assert(a@.skip(i as int)[0] == a@[i as int]);
        assert(b@.skip(i as int)[0] == b@[i as int]);
        if a[i] != b[i] {
            return a[i] < b[i];
        }
        assert(a@.skip(i as int).drop_first() =~= a@.skip(i + 1));
        assert(b@.skip(i as int).drop_first() =~= b@.skip(i + 1));
        i += 1;
    }
}

fn push_padded(out: &mut String, s: &str, width: usize)
    ensures
        final(out)@ == old(out)@ + padded(s@, width as nat),
{
    out.append(s);
    let n = s.unicode_len();
    let mut k: usize = n;
    let ghost base = out@;
    while k < width
        invariant
            n <= k,
            n < width ==> k <= width,
            n >= width ==> k == n,
            n == s@.len(),
            base == old(out)@ + s@,
            out@ == base + Seq::new((k - n) as nat, |i: int| ' '),
        decreases width - k,
    {
        out.push(' ');
        k += 1;
        assert(out@ =~= base + Seq::new((k - n) as nat, |i: int| ' '));
    }
    assert(out@ =~= old(out)@ + padded(s@, width as nat));
}

fn push_setting(out: &mut String, label: &str, value: &str)
    ensures
        final(out)@ == old(out)@ + setting_line(label@, value@),
{
    out.append(label);
    out.append(value);
    out.append("\n");
    assert(out@ =~= old(out)@ + setting_line(label@, value@));
}

fn push_optional(out: &mut String, label: &str, value: &Option<String>)
    ensures
        final(out)@ == old(out)@ + optional_line(label@, crate::config::model::option_text(*value)),
{
    match value {
        Some(v) => push_setting(out, label, v.as_str()),
        None => {
            assert(out@ =~= old(out)@ + Seq::<char>::empty());
        },
    }
}

fn bool_string(b: bool) -> (r: &'static str)
    ensures
        r@ == bool_text(b),
{
    if b {
        "true"
    } else {
        "false"
    }
}

fn push_runtime(
    out: &mut String,
    idle_time: Option<u64>,
    uptime: Option<u64>,
    is_inhibited: Option<bool>,
)
    ensures
        final(out)@ == old(out)@ + runtime_text(idle_time, uptime, is_inhibited),
{
    let idle = match idle_time {
        Some(t) => Some(format_duration(t)),
        None => None,
    };
    let up = match uptime {
        Some(t) => Some(format_duration(t)),
        None => None,
    };
    let inhibited = match is_inhibited {
        Some(b) => Some(String::from_str(bool_string(b))),
        None => None,
    };
    push_optional(out, "  IdleTime           = ", &idle);
    push_optional(out, "  Uptime             = ", &up);
    push_optional(out, "  IdleInhibited      = ", &inhibited);
    assert(out@ =~= old(out)@ + runtime_text(idle_time, uptime, is_inhibited));
}

impl IdleConfig {
    proof fn lemma_entry(&self, i: int)
        requires
            0 <= i < self.actions@.len(),
        ensures
            self@.actions[i] == (self.actions@[i].0@, self.actions@[i].1@),
    {
    }

    fn push_apps(&self, out: &mut String)
        ensures
            final(out)@ == old(out)@ + apps_text(self@.inhibit_apps),
    {
        if self.inhibit_apps.len() == 0 {
            out.append("-");
            return ;
        }
        let ghost ps = self@.inhibit_apps;
        let first = self.inhibit_apps[0].to_string();
        out.append(first.as_str());
        let mut i: usize = 1;
        assert(ps.take(1) =~= seq![ps[0]]);
        assert(joined_patterns(ps.take(1)) == pattern_text(ps[0]));
        while i < self.inhibit_apps.len()
            invariant
                1 <= i <= self.inhibit_apps.len(),
                ps == self@.inhibit_apps,
                out@ == old(out)@ + joined_patterns(ps.take(i as int)),
            decreases self.inhibit_apps.len() - i,
        {
            let ghost before = out@;
            out.append(",");
            let t = self.inhibit_apps[i].to_string();
            out.append(t.as_str());
            assert(ps.take(i + 1).drop_last() =~= ps.take(i as int));
            assert(ps.take(i + 1).last() == ps[i as int]);
            assert(out@ =~= old(out)@ + joined_patterns(ps.take(i + 1)));
            i += 1;
        }
        assert(ps.take(self.inhibit_apps.len() as int) =~= ps);
    }

    fn apps_string(&self) -> (r: String)
        ensures
            r@ == apps_text(self@.inhibit_apps),
    {
        let mut r = String::new();
        self.push_apps(&mut r);
        assert(r@ =~= apps_text(self@.inhibit_apps));
        r
    }

    fn push_settings(&self, out: &mut String)
        ensures
            final(out)@ == old(out)@ + settings_text(self@),
    {
        let resume = match &self.resume_command {
            Some(c) => c.as_str(),
            None => "-",
        };
        let pre_suspend = match &self.pre_suspend_command {
            Some(c) => c.as_str(),
            None => "-",
        };
        let debounce = crate::text::decimal_string(self.debounce_seconds as u64);
        let apps = self.apps_string();
        out.append("General:\n");
        push_setting(out, "  ResumeCommand      = ", resume);
        push_setting(out, "  PreSuspendCommand  = ", pre_suspend);
        push_setting(out, "  MonitorMedia       = ", bool_string(self.monitor_media));
        push_setting(out, "  RespectInhibitors  = ", bool_string(self.respect_idle_inhibitors));
        push_setting(out, "  DebounceSeconds  = ", debounce.as_str());
        push_setting(out, "  InhibitApps        = ", apps.as_str());
        assert(out@ =~= old(out)@ + settings_text(self@));
    }

    fn push_action_line(&self, out: &mut String, i: usize)
        requires
            i < self.actions.len(),
        ensures
            final(out)@ == old(out)@ + action_line(self@.actions[i as int]),
    {
        let entry = &self.actions[i];
        let ghost e = self@.actions[i as int];
        proof {
            self.lemma_entry(i as int);
        }
        out.append("    ");
        push_padded(out, entry.0.as_str(), KEY_WIDTH);
        out.append(" Timeout=");
        push_decimal(out, entry.1.timeout_seconds);
        out.append(" Kind=");
        out.append(entry.1.kind.as_str());
        out.append(" Command=\"");
        out.append(entry.1.command.as_str());
        out.append("\"\n");
        assert(out@ =~= old(out)@ + action_line(e));
    }

    /// The indices of the entries of `part`, ordered by key.
    fn sorted_group(&self, part: Partition) -> (order: Vec<usize>)
        ensures
            forall|k: int| 0 <= k < order@.len() ==> order@[k] < self.actions.len(),
            Seq::new(order@.len(), |k: int| self@.actions[order@[k] as int]) == sorted_by_key(
                group_entries(self@.actions, part),
            ),
            order@.len() == group_entries(self@.actions, part).len(),
    {
        let ghost entries = self@.actions;
        let mut order: Vec<usize> = Vec::new();
        let mut i: usize = 0;
        assert(entries.take(0) =~= Seq::empty());
        assert(Seq::new(order@.len(), |k: int| entries[order@[k] as int]) =~= Seq::<
            EntryView,
        >::empty());
        while i < self.actions.len()
            invariant
                i <= self.actions.len(),
                entries == self@.actions,
                forall|k: int| 0 <= k < order@.len() ==> order@[k] < self.actions.len(),
                Seq::new(order@.len(), |k: int| entries[order@[k] as int]) == sorted_by_key(
                    group_entries(entries.take(i as int), part),
                ),
                order@.len() == group_entries(entries.take(i as int), part).len(),
            decreases self.actions.len() - i,
        {
            assert(entries.take(i + 1).drop_last() =~= entries.take(i as int));
            assert(entries.take(i + 1).last() == entries[i as int]);
            let ghost e = self@.actions[i as int];
            proof {
                self.lemma_entry(i as int);
            }
            if key_partition(self.actions[i].0.as_str()) == part {
                let ghost group = group_entries(entries.take(i as int), part);
                let ghost sorted = sorted_by_key(group);
                assert(group.push(e).drop_last() =~= group);
                let key = to_chars(self.actions[i].0.as_str());
                let mut j: usize = order.len();
                assert(sorted.take(j as int) =~= sorted);
                assert(inserted(sorted.take(j as int), e) + sorted.skip(j as int) =~= inserted(
                    sorted,
                    e,
                ));
                let mut placed = false;
                while j > 0 && !placed
                    invariant
                        j <= order@.len(),
                        placed ==> j > 0 && key_le(sorted[j - 1].0, e.0),
                        i < self.actions.len(),
                        entries == self@.actions,
                        key@ == e.0,
                        e == entries[i as int],
                        forall|k: int| 0 <= k < order@.len() ==> order@[k] < self.actions.len(),
                        sorted == Seq::new(order@.len(), |k: int| entries[order@[k] as int]),
                        inserted(sorted, e) == inserted(sorted.take(j as int), e) + sorted.skip(
                            j as int,
                        ),
                    decreases j + (if placed { 0int } else { 1int }),
                {
                    let other = order[j - 1];
                    let ghost o = self@.actions[other as int];
                    proof {
                        self.lemma_entry(other as int);
                    }
                    let other_key = to_chars(self.actions[other].0.as_str());
                    assert(sorted.take(j as int).last() == sorted[j - 1]);
                    assert(sorted[j - 1] == o);
                    if key_not_greater(&other_key, &key) {
                        placed = true;
                    } else {
                        assert(sorted.take(j as int).drop_last() =~= sorted.take(j - 1));
                        assert(inserted(sorted.take(j - 1), e).push(sorted[j - 1]) + sorted.skip(
                            j as int,
                        ) =~= inserted(sorted.take(j - 1), e) + sorted.skip(j - 1));
                        j -= 1;
                    }
                }
                assert(inserted(sorted.take(j as int), e) == sorted.take(j as int).push(e)) by {
                    if j > 0 {
                        assert(sorted.take(j as int).last() == sorted[j - 1]);
                    }
                }
                order.insert(j, i);
                assert(Seq::new(order@.len(), |k: int| entries[order@[k] as int]) =~= sorted.take(
                    j as int,
                ).push(e) + sorted.skip(j as int));
            }
            i += 1;
        }
        assert(entries.take(self.actions.len() as int) =~= entries);
        order
    }

    fn push_group(&self, out: &mut String, part: Partition)
        ensures
            final(out)@ == old(out)@ + group_text(self@.actions, part),
    {
        let order = self.sorted_group(part);
        if order.len() == 0 {
            assert(out@ =~= old(out)@ + group_text(self@.actions, part));
            return ;
        }
        let ghost sorted = sorted_by_key(group_entries(self@.actions, part));
        out.append("  [");
        match part {
            Partition::Ac => out.append("AC"),
            Partition::Battery => out.append("Battery"),
            Partition::Desktop => out.append("Desktop"),
        }
        out.append("]\n");
        let ghost head = out@;
        assert(head =~= old(out)@ + ("  ["@ + group_name(part) + "]\n"@));
        let mut k: usize = 0;
        assert(sorted.take(0) =~= Seq::empty());
        assert(out@ =~= head + action_lines(sorted.take(0)));
        while k < order.len()
            invariant
                k <= order.len(),
                order@.len() == sorted.len(),
                forall|m: int| 0 <= m < order@.len() ==> order@[m] < self.actions.len(),
                sorted == Seq::new(order@.len(), |m: int| self@.actions[order@[m] as int]),
                out@ == head + action_lines(sorted.take(k as int)),
            decreases order.len() - k,
        {
            self.push_action_line(out, order[k]);
            assert(sorted.take(k + 1).drop_last() =~= sorted.take(k as int));
            assert(sorted.take(k + 1).last() == sorted[k as int]);
            assert(out@ =~= head + action_lines(sorted.take(k + 1)));
            k += 1;
        }
        assert(sorted.take(order.len() as int) =~= sorted);
        assert(out@ =~= old(out)@ + group_text(self@.actions, part));
    }

    /// Lists the configuration, with the runtime values that are given:
    /// idle time and uptime in whole seconds, and whether idling is
    /// inhibited.
    pub fn pretty_print(
        &self,
        idle_time: Option<u64>,
        uptime: Option<u64>,
        is_inhibited: Option<bool>,
    ) -> (out: String)
        ensures
            out@ == listing(self@, idle_time, uptime, is_inhibited),
    {
        let mut out = String::new();
        self.push_settings(&mut out);
        assert(out@ =~= settings_text(self@));
        push_runtime(&mut out, idle_time, uptime, is_inhibited);
        out.append("\nActions:\n");
        self.push_group(&mut out, Partition::Ac);
        self.push_group(&mut out, Partition::Battery);
        self.push_group(&mut out, Partition::Desktop);
        out
    }
}

} // verus!
