//! The mathematical model of a schedule: time-of-day keys, each with its
//! ordered list of reminders, and the spec functions that say what the
//! builder, the loader and the due check compute.

use vstd::prelude::*;

use crate::reminder::ReminderView;
use crate::time::{TimeOfDay, Weekday};

verus! {

/// A schedule: entries of a time of day and the reminders set for it, in order.
pub type Schedule = Seq<(TimeOfDay, Seq<ReminderView>)>;

/// No time of day has two entries.
pub open spec fn keys_distinct(s: Schedule) -> bool {
    forall|i: int, j: int|
        0 <= i < s.len() && 0 <= j < s.len() && i != j ==> #[trigger] s[i].0 != #[trigger] s[j].0
}

/// The position of the last entry for `t`, or -1 when there is none.
pub open spec fn slot_index(s: Schedule, t: TimeOfDay) -> int
    decreases s.len(),
{
    if s.len() == 0 {
        -1
    } else if s.last().0 == t {
        s.len() - 1
    } else {
        slot_index(s.drop_last(), t)
    }
}

/// The reminders set for `t`; empty when `t` has no entry.
pub open spec fn reminders_at(s: Schedule, t: TimeOfDay) -> Seq<ReminderView> {
    let i = slot_index(s, t);
    if i < 0 {
        Seq::empty()
    } else {
        s[i].1
    }
}

/// `s` with `r` appended to the list of `t`; a new entry at the end when `t` has none.
pub open spec fn with_added(s: Schedule, t: TimeOfDay, r: ReminderView) -> Schedule {
    let i = slot_index(s, t);
    if i < 0 {
        s.push((t, seq![r]))
    } else {
        s.update(i, (t, s[i].1.push(r)))
    }
}

/// `s` with the list of `t` replaced by `rs`; a new entry at the end when `t` has none.
pub open spec fn with_replaced(s: Schedule, t: TimeOfDay, rs: Seq<ReminderView>) -> Schedule {
    let i = slot_index(s, t);
    if i < 0 {
        s.push((t, rs))
    } else {
        s.update(i, (t, rs))
    }
}

/// The schedule read from persisted entries: a later entry for a time replaces an earlier one.
pub open spec fn loaded(es: Schedule) -> Schedule
    decreases es.len(),
{
    if es.len() == 0 {
        Seq::empty()
    } else {
        with_replaced(loaded(es.drop_last()), es.last().0, es.last().1)
    }
}

/// `t` lies in the window of a due check: after the watermark `last`, if set, and not after `now`.
pub open spec fn in_window(t: TimeOfDay, last: Option<TimeOfDay>, now: TimeOfDay) -> bool {
    &&& t.spec_le(now)
    &&& match last {
        None => true,
        Some(l) => l.spec_lt(t),
    }
}

/// The reminders of `rs` that fire on `day`, in order.
pub open spec fn firing(rs: Seq<ReminderView>, day: Weekday) -> Seq<ReminderView>
    decreases rs.len(),
{
    if rs.len() == 0 {
        Seq::empty()
    } else if rs.last().fires_on(day) {
        firing(rs.drop_last(), day).push(rs.last())
    } else {
        firing(rs.drop_last(), day)
    }
}

/// The reminders due at `now` on `day` after the watermark `last`, entry by entry.
pub open spec fn due(s: Schedule, last: Option<TimeOfDay>, now: TimeOfDay, day: Weekday) -> Seq<
    ReminderView,
>
    decreases s.len(),
{
    if s.len() == 0 {
        Seq::empty()
    } else if in_window(s.last().0, last, now) {
        due(s.drop_last(), last, now, day) + firing(s.last().1, day)
    } else {
        due(s.drop_last(), last, now, day)
    }
}

/// How many times `r` occurs in `rs`.
pub open spec fn count_of(rs: Seq<ReminderView>, r: ReminderView) -> nat
    decreases rs.len(),
{
    if rs.len() == 0 {
        0
    } else {
        count_of(rs.drop_last(), r) + if rs.last() == r {
            1nat
        } else {
            0nat
        }
    }
}

/// How many times `r` is stored in `s`, over all entries.
pub open spec fn stored(s: Schedule, r: ReminderView) -> nat
    decreases s.len(),
{
    if s.len() == 0 {
        0
    } else {
        stored(s.drop_last(), r) + count_of(s.last().1, r)
    }
}

/// How many times `r` is stored in `s` under a time in the window after `last` up to `now`.
pub open spec fn stored_in_window(
    s: Schedule,
    r: ReminderView,
    last: Option<TimeOfDay>,
    now: TimeOfDay,
) -> nat
    decreases s.len(),
{
    if s.len() == 0 {
        0
    } else if in_window(s.last().0, last, now) {
        stored_in_window(s.drop_last(), r, last, now) + count_of(s.last().1, r)
    } else {
        stored_in_window(s.drop_last(), r, last, now)
    }
}

/// Where `slot_index` points: at an entry for `t`, with none after it, or
/// nowhere when no entry is for `t`.
pub proof fn lemma_slot_index(s: Schedule, t: TimeOfDay)
    ensures
        -1 <= slot_index(s, t) < s.len(),
        slot_index(s, t) >= 0 ==> s[slot_index(s, t)].0 == t,
        slot_index(s, t) < 0 ==> forall|k: int| 0 <= k < s.len() ==> #[trigger] s[k].0 != t,
    decreases s.len(),
{
    if s.len() > 0 && s.last().0 != t {
        lemma_slot_index(s.drop_last(), t);
        assert forall|k: int| 0 <= k < s.len() - 1 implies #[trigger] s[k].0 == s.drop_last()[k].0 by {}
    }
}

/// With distinct keys, the entry for `t` is the one that `slot_index` finds.
pub proof fn lemma_slot_index_unique(s: Schedule, t: TimeOfDay, k: int)
    requires
        keys_distinct(s),
        0 <= k < s.len(),
        s[k].0 == t,
    ensures
        slot_index(s, t) == k,
{
    lemma_slot_index(s, t);
    if slot_index(s, t) != k {
        assert(s[slot_index(s, t)].0 == s[k].0);
    }
}

/// Appending to the list of one time keeps keys distinct and changes the
/// reminders of that time alone.
pub proof fn lemma_with_added(s: Schedule, t: TimeOfDay, r: ReminderView)
    requires
        keys_distinct(s),
    ensures
        keys_distinct(with_added(s, t, r)),
        forall|u: TimeOfDay|
            #[trigger] reminders_at(with_added(s, t, r), u) == if u == t {
                reminders_at(s, t).push(r)
            } else {
                reminders_at(s, u)
            },
{
    let n = with_added(s, t, r);
    lemma_slot_index(s, t);
    assert forall|u: TimeOfDay| #[trigger]
        reminders_at(n, u) == if u == t {
            reminders_at(s, t).push(r)
        } else {
            reminders_at(s, u)
        } by {
        lemma_slot_index(s, u);
        lemma_slot_index(n, u);
        if slot_index(s, t) < 0 {
            assert(n.drop_last() =~= s);
            if u == t {
                assert(reminders_at(s, t).push(r) =~= seq![r]);
            }
        } else {
            let j = slot_index(s, u);
            if j >= 0 {
                assert(n[j].0 == u);
                if slot_index(n, u) != j {
                    assert(s[slot_index(n, u)].0 == u);
                }
            } else {
                assert forall|k: int| 0 <= k < n.len() implies #[trigger] n[k].0 != u by {
                    assert(n[k].0 == s[k].0);
                }
            }
        }
    }
    if slot_index(s, t) >= 0 {
        assert forall|i: int, j: int|
            0 <= i < n.len() && 0 <= j < n.len() && i != j implies #[trigger] n[i].0
            != #[trigger] n[j].0 by {
            assert(n[i].0 == s[i].0 && n[j].0 == s[j].0);
        }
    } else {
        assert forall|i: int, j: int|
            0 <= i < n.len() && 0 <= j < n.len() && i != j implies #[trigger] n[i].0
            != #[trigger] n[j].0 by {
            if i < s.len() && j < s.len() {
                assert(n[i] == s[i] && n[j] == s[j]);
            } else if i < s.len() {
                assert(n[i] == s[i]);
            } else {
                assert(n[j] == s[j]);
            }
        }
    }
}

/// Replacing the list of one time keeps keys distinct.
pub proof fn lemma_with_replaced(s: Schedule, t: TimeOfDay, rs: Seq<ReminderView>)
    requires
        keys_distinct(s),
    ensures
        keys_distinct(with_replaced(s, t, rs)),
{
    let n = with_replaced(s, t, rs);
    lemma_slot_index(s, t);
    if slot_index(s, t) >= 0 {
        assert forall|i: int, j: int|
            0 <= i < n.len() && 0 <= j < n.len() && i != j implies #[trigger] n[i].0
            != #[trigger] n[j].0 by {
            assert(n[i].0 == s[i].0 && n[j].0 == s[j].0);
        }
    } else {
        assert forall|i: int, j: int|
            0 <= i < n.len() && 0 <= j < n.len() && i != j implies #[trigger] n[i].0
            != #[trigger] n[j].0 by {
            if i < s.len() && j < s.len() {
                assert(n[i] == s[i] && n[j] == s[j]);
            } else if i < s.len() {
                assert(n[i] == s[i]);
            } else {
                assert(n[j] == s[j]);
            }
        }
    }
}

/// A prefix of a schedule with distinct keys has distinct keys.
pub proof fn lemma_prefix_distinct(s: Schedule, n: int)
    requires
        keys_distinct(s),
        0 <= n <= s.len(),
    ensures
        keys_distinct(s.take(n)),
{
    assert forall|i: int, j: int|
        0 <= i < n && 0 <= j < n && i != j implies #[trigger] s.take(n)[i].0
        != #[trigger] s.take(n)[j].0 by {
        assert(s.take(n)[i] == s[i] && s.take(n)[j] == s[j]);
    }
}

} // verus!
