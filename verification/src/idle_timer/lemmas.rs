//! Facts about the state machine that the implementation rests on.

use crate::brightness::BrightnessView;
use crate::config::model::IdleActionKind;
use crate::idle_timer::model::{sel_prefix, TimerState};
use vstd::prelude::*;

verus! {

/// Firing nothing changes nothing.
pub proof fn lemma_fire_none(s: TimerState, sel: Seq<bool>, probe: Option<BrightnessView>, track: bool)
    requires
        s.well_formed(),
        sel.len() == s.ladder.len(),
    ensures
        s.fire_selected(sel_prefix(sel, 0), probe, track) == s,
{
    let none = sel_prefix(sel, 0);
    let r = s.fire_selected(none, probe, track);
    assert(r.fired =~= s.fired);
    assert forall|k: IdleActionKind| !s.selects(none, k) by {}
    assert(r.active_kinds =~= s.active_kinds);
}

/// Firing the selection below `n + 1` is firing the selection below `n` and
/// then action `n`, if it is selected.
pub proof fn lemma_fire_step(
    s: TimerState,
    sel: Seq<bool>,
    n: int,
    probe: Option<BrightnessView>,
    track: bool,
)
    requires
        s.well_formed(),
        sel.len() == s.ladder.len(),
        0 <= n < s.ladder.len(),
    ensures
        s.fire_selected(sel_prefix(sel, n + 1), probe, track) == if sel[n] {
            s.fire_selected(sel_prefix(sel, n), probe, track).fire_at(n, probe, track)
        } else {
            s.fire_selected(sel_prefix(sel, n), probe, track)
        },
{
    let lo = sel_prefix(sel, n);
    let hi = sel_prefix(sel, n + 1);
    let a = s.fire_selected(hi, probe, track);
    let b = s.fire_selected(lo, probe, track);
    assert forall|k: IdleActionKind|
        s.selects(hi, k) == (s.selects(lo, k) || (sel[n] && s.ladder[n].kind == k)) by {
        if s.selects(hi, k) {
            let i = choose|i: int| 0 <= i < s.ladder.len() && #[trigger] hi[i] && s.ladder[i].kind == k;
            if i < n {
                assert(lo[i]);
            }
        }
        if s.selects(lo, k) {
            let i = choose|i: int| 0 <= i < s.ladder.len() && #[trigger] lo[i] && s.ladder[i].kind == k;
            assert(hi[i]);
        }
        if sel[n] && s.ladder[n].kind == k {
            assert(hi[n]);
        }
    }
    if sel[n] {
        let c = b.fire_at(n, probe, track);
        assert(a.fired =~= c.fired);
        assert(a.active_kinds =~= c.active_kinds);
        assert(a.brightness_backup == c.brightness_backup);
    } else {
        assert(a.fired =~= b.fired);
        assert(a.active_kinds =~= b.active_kinds);
    }
}

/// The whole selection is its prefix of full length.
pub proof fn lemma_sel_full(sel: Seq<bool>)
    ensures
        sel_prefix(sel, sel.len() as int) == sel,
{
    assert(sel_prefix(sel, sel.len() as int) =~= sel);
}

/// What `first_eligible` finds: the least due index from `from` on.
pub proof fn lemma_first_eligible(s: TimerState, now: u64, from: int)
    requires
        0 <= from,
    ensures
        match s.first_eligible(now, from) {
            Some(i) => from <= i < s.ladder.len() && s.eligible(i, now) && forall|j: int|
                from <= j < i ==> !s.eligible(j, now),
            None => forall|j: int| from <= j ==> !s.eligible(j, now),
        },
    decreases s.ladder.len() - from,
{
    if from < s.ladder.len() && !s.eligible(from, now) {
        lemma_first_eligible(s, now, from + 1);
    }
}

/// Which index is due depends on the ladder, the flags, the kinds and the
/// elapsed time alone.
pub proof fn lemma_eligible_frame(a: TimerState, b: TimerState, now: u64, from: int)
    requires
        a.ladder == b.ladder,
        a.fired == b.fired,
        a.active_kinds == b.active_kinds,
        a.elapsed(now) == b.elapsed(now),
    ensures
        a.first_eligible(now, from) == b.first_eligible(now, from),
    decreases a.ladder.len() - from,
{
    if 0 <= from < a.ladder.len() && !a.eligible(from, now) {
        lemma_eligible_frame(a, b, now, from + 1);
    }
}

/// Whether something fired depends on the flags alone.
pub proof fn lemma_any_fired_frame(a: TimerState, b: TimerState)
    requires
        a.fired == b.fired,
    ensures
        a.any_fired() == b.any_fired(),
{
    if a.any_fired() {
        let i = choose|i: int| 0 <= i < a.fired.len() && #[trigger] a.fired[i];
        assert(b.fired[i]);
    }
    if b.any_fired() {
        let i = choose|i: int| 0 <= i < b.fired.len() && #[trigger] b.fired[i];
        assert(a.fired[i]);
    }
}

} // verus!
