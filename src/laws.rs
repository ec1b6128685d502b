//! What holds of the due check, the builder and persistence, over the
//! schedule model.

use vstd::prelude::*;

use crate::reminder::ReminderView;
use crate::schedule::{
    count_of, due, firing, in_window, keys_distinct, lemma_prefix_distinct, lemma_slot_index,
    lemma_with_added, loaded, reminders_at, slot_index, stored, stored_in_window, with_added,
    Schedule,
};
use crate::time::{TimeOfDay, Weekday};

verus! {

/// Counting distributes over concatenation.
pub proof fn lemma_count_concat(a: Seq<ReminderView>, b: Seq<ReminderView>, r: ReminderView)
    ensures
        count_of(a + b, r) == count_of(a, r) + count_of(b, r),
    decreases b.len(),
{
    if b.len() > 0 {
        assert((a + b).drop_last() =~= a + b.drop_last());
        lemma_count_concat(a, b.drop_last(), r);
    } else {
        assert(a + b =~= a);
    }
}

/// A reminder that fires on `day` keeps all its occurrences under the weekday filter.
pub proof fn lemma_count_firing(rs: Seq<ReminderView>, day: Weekday, r: ReminderView)
    requires
        r.fires_on(day),
    ensures
        count_of(firing(rs, day), r) == count_of(rs, r),
    decreases rs.len(),
{
    if rs.len() > 0 {
        lemma_count_firing(rs.drop_last(), day, r);
        if rs.last().fires_on(day) {
            let p = firing(rs.drop_last(), day);
            assert(p.push(rs.last()).drop_last() =~= p);
        }
    }
}

/// A member of a sequence occurs in it at least once.
pub proof fn lemma_count_contains(rs: Seq<ReminderView>, r: ReminderView)
    requires
        rs.contains(r),
    ensures
        count_of(rs, r) >= 1,
    decreases rs.len(),
{
    if rs.last() != r {
        let k = choose|k: int| 0 <= k < rs.len() && rs[k] == r;
        assert(rs.drop_last()[k] == r);
        lemma_count_contains(rs.drop_last(), r);
    }
}

/// The due check yields a reminder that fires on the day once for each time it
/// is stored in the window.
pub proof fn lemma_due_count(
    s: Schedule,
    last: Option<TimeOfDay>,
    now: TimeOfDay,
    day: Weekday,
    r: ReminderView,
)
    requires
        r.fires_on(day),
    ensures
        count_of(due(s, last, now, day), r) == stored_in_window(s, r, last, now),
    decreases s.len(),
{
    if s.len() > 0 {
        lemma_due_count(s.drop_last(), last, now, day, r);
        if in_window(s.last().0, last, now) {
            lemma_count_concat(due(s.drop_last(), last, now, day), firing(s.last().1, day), r);
            lemma_count_firing(s.last().1, day, r);
        }
    }
}

/// What is stored in the window is part of what is stored, and holds each
/// slot in the window.
pub proof fn lemma_window_bounds(
    s: Schedule,
    r: ReminderView,
    last: Option<TimeOfDay>,
    now: TimeOfDay,
    i: int,
)
    requires
        0 <= i < s.len(),
        in_window(s[i].0, last, now),
    ensures
        count_of(s[i].1, r) <= stored_in_window(s, r, last, now) <= stored(s, r),
    decreases s.len(),
{
    lemma_window_le_stored(s.drop_last(), r, last, now);
    if i < s.len() - 1 {
        assert(s.drop_last()[i] == s[i]);
        lemma_window_bounds(s.drop_last(), r, last, now, i);
    }
}

/// What is stored in the window is part of what is stored.
pub proof fn lemma_window_le_stored(
    s: Schedule,
    r: ReminderView,
    last: Option<TimeOfDay>,
    now: TimeOfDay,
)
    ensures
        stored_in_window(s, r, last, now) <= stored(s, r),
    decreases s.len(),
{
    if s.len() > 0 {
        lemma_window_le_stored(s.drop_last(), r, last, now);
    }
}

/// Every reminder that the due check yields fires on the day.
pub proof fn lemma_due_fires(s: Schedule, last: Option<TimeOfDay>, now: TimeOfDay, day: Weekday)
    ensures
        forall|k: int|
            0 <= k < due(s, last, now, day).len() ==> (#[trigger] due(s, last, now, day)[k]).fires_on(
                day,
            ),
    decreases s.len(),
{
    if s.len() > 0 {
        let p = due(s.drop_last(), last, now, day);
        let f = firing(s.last().1, day);
        lemma_due_fires(s.drop_last(), last, now, day);
        lemma_firing_fires(s.last().1, day);
        if in_window(s.last().0, last, now) {
            assert forall|k: int| 0 <= k < (p + f).len() implies (#[trigger] (p + f)[k]).fires_on(
                day,
            ) by {
                if k >= p.len() {
                    assert((p + f)[k] == f[k - p.len()]);
                }
            }
        }
    }
}

/// Every reminder kept by the weekday filter fires on the day.
pub proof fn lemma_firing_fires(rs: Seq<ReminderView>, day: Weekday)
    ensures
        forall|k: int|
            0 <= k < firing(rs, day).len() ==> (#[trigger] firing(rs, day)[k]).fires_on(day),
    decreases rs.len(),
{
    if rs.len() > 0 {
        let p = firing(rs.drop_last(), day);
        lemma_firing_fires(rs.drop_last(), day);
        if rs.last().fires_on(day) {
            assert forall|k: int| 0 <= k < p.len() + 1 implies (#[trigger] p.push(
                rs.last(),
            )[k]).fires_on(day) by {
                if k < p.len() {
                    assert(p.push(rs.last())[k] == p[k]);
                }
            }
        }
    }
}

/// With the watermark at `now`, nothing is due at `now`.
pub proof fn lemma_nothing_due_at_watermark(s: Schedule, now: TimeOfDay, day: Weekday)
    ensures
        due(s, Some(now), now, day) == Seq::<ReminderView>::empty(),
    decreases s.len(),
{
    if s.len() > 0 {
        lemma_nothing_due_at_watermark(s.drop_last(), now, day);
    }
}

/// With the watermark unset, a reminder stored once under a time not after
/// `now`, whose weekday filter admits the day, is due exactly once; a second
/// check at the same `now`, with the watermark at `now`, yields nothing.
pub proof fn law_due_once_then_none(
    s: Schedule,
    now: TimeOfDay,
    day: Weekday,
    i: int,
    r: ReminderView,
)
    requires
        0 <= i < s.len(),
        s[i].0.spec_le(now),
        s[i].1.contains(r),
        r.fires_on(day),
        stored(s, r) == 1,
    ensures
        count_of(due(s, None, now, day), r) == 1,
        due(s, Some(now), now, day) == Seq::<ReminderView>::empty(),
{
    lemma_due_count(s, None, now, day, r);
    lemma_window_bounds(s, r, None, now, i);
    lemma_count_contains(s[i].1, r);
    lemma_nothing_due_at_watermark(s, now, day);
}

/// A reminder whose weekday filter leaves out the day is never due on it,
/// whatever the watermark and the time.
pub proof fn law_filtered_out_never_due(
    s: Schedule,
    last: Option<TimeOfDay>,
    now: TimeOfDay,
    day: Weekday,
    r: ReminderView,
)
    requires
        r.weekdays.is_some(),
        !r.weekdays.unwrap().contains(day),
    ensures
        !due(s, last, now, day).contains(r),
{
    lemma_due_fires(s, last, now, day);
}

/// For a reminder without a weekday filter, the weekday does not change how
/// often the due check yields it.
pub proof fn law_unfiltered_ignores_weekday(
    s: Schedule,
    last: Option<TimeOfDay>,
    now: TimeOfDay,
    a: Weekday,
    b: Weekday,
    r: ReminderView,
)
    requires
        r.weekdays.is_none(),
    ensures
        count_of(due(s, last, now, a), r) == count_of(due(s, last, now, b), r),
{
    lemma_due_count(s, last, now, a, r);
    lemma_due_count(s, last, now, b, r);
}

/// Loading what a store persisted gives back the same slots, in the same
/// order, each with the same reminders in the same order.
pub proof fn law_save_load_round_trip(s: Schedule)
    requires
        keys_distinct(s),
    ensures
        loaded(s) == s,
    decreases s.len(),
{
    if s.len() > 0 {
        let p = s.drop_last();
        lemma_prefix_distinct(s, s.len() - 1);
        assert(s.take(s.len() - 1) =~= p);
        law_save_load_round_trip(p);
        lemma_slot_index(p, s.last().0);
        if slot_index(p, s.last().0) >= 0 {
            assert(s[slot_index(p, s.last().0)].0 == s[s.len() - 1].0);
        }
        assert(p.push(s.last()) =~= s);
    }
}

/// Adding two reminders at one time keeps both there, in the order of the calls.
pub proof fn law_notify_twice_keeps_order(
    s: Schedule,
    t: TimeOfDay,
    first: ReminderView,
    second: ReminderView,
)
    requires
        keys_distinct(s),
    ensures
        reminders_at(with_added(with_added(s, t, first), t, second), t) == reminders_at(
            s,
            t,
        ).push(first).push(second),
{
    lemma_with_added(s, t, first);
    lemma_with_added(with_added(s, t, first), t, second);
}

} // verus!
