//! The reminder store, its due check, and the builder that assembles one.

use vstd::prelude::*;

use crate::clock::local_now;
use crate::reminder::{Reminder, ReminderView};
use crate::schedule::{
    due, firing, in_window, keys_distinct, lemma_slot_index, lemma_slot_index_unique,
    lemma_with_added, lemma_with_replaced, loaded, slot_index, with_added, with_replaced, Schedule,
};
use crate::time::{TimeOfDay, Weekday};

verus! {

/// One time of day and the reminders set for it, in order.
pub struct ReminderSlot {
    pub time: TimeOfDay,
    pub reminders: Vec<Reminder>,
}

impl View for ReminderSlot {
    type V = (TimeOfDay, Seq<ReminderView>);

    open spec fn view(&self) -> (TimeOfDay, Seq<ReminderView>) {
        (self.time, views_of(self.reminders@))
    }
}

/// The views of a sequence of reminders.
pub open spec fn views_of(rs: Seq<Reminder>) -> Seq<ReminderView> {
    rs.map_values(|r: Reminder| r@)
}

/// The schedule that a sequence of slots holds.
pub open spec fn schedule_of(slots: Seq<ReminderSlot>) -> Schedule {
    slots.map_values(|s: ReminderSlot| s@)
}

/// Why a persisted schedule could not be loaded.
#[derive(Debug, PartialEq, Eq)]
pub enum NotifierLoadError {
    /// The file could not be opened or read; the message says why.
    IO(String),
    /// The bytes are not a valid persisted schedule; the message says why.
    Serde(String),
}

/// Whether `t` lies after the watermark `last`, if set, and not after `now`.
fn within_window(t: &TimeOfDay, last: &Option<TimeOfDay>, now: &TimeOfDay) -> (r: bool)
    ensures
        r == in_window(*t, *last, *now),
{
    if !t.is_at_or_before(now) {
        return false;
    }
    match last {
        None => true,
        Some(l) => l.is_before(t),
    }
}

/// The position of the slot for `time`, if any.
fn find_slot(slots: &Vec<ReminderSlot>, time: TimeOfDay) -> (r: Option<usize>)
    ensures
        match r {
            Some(i) => i < slots@.len() && slots@[i as int].time == time,
            None => forall|k: int| 0 <= k < slots@.len() ==> #[trigger] slots@[k].time != time,
        },
{
    let mut i: usize = 0;
    while i < slots.len()
        invariant
            i <= slots@.len(),
            forall|k: int| 0 <= k < i ==> #[trigger] slots@[k].time != time,
        decreases slots@.len() - i,
    {
        if slots[i].time == time {
            return Some(i);
        }
        i = i + 1;
    }
    None
}

/// Reminders keyed by time of day, with the watermark of the last due check.
pub struct Notifier {
    slots: Vec<ReminderSlot>,
    /// Time of day at which the last due check ran.
    latest_notified: Option<TimeOfDay>,
}

impl View for Notifier {
    type V = Schedule;

    closed spec fn view(&self) -> Schedule {
        schedule_of(self.slots@)
    }
}

impl Notifier {
    /// The watermark: when the last due check ran, unset before the first.
    pub closed spec fn watermark(&self) -> Option<TimeOfDay> {
        self.latest_notified
    }

    /// Each time of day has at most one slot.
    pub open spec fn wf(&self) -> bool {
        keys_distinct(self@)
    }

    /// The watermark.
    pub fn latest_notified(&self) -> (r: Option<TimeOfDay>)
        ensures
            r == self.watermark(),
    {
        self.latest_notified
    }

    /// The slots, in order; this is what is persisted.
    pub fn slots(&self) -> (r: &Vec<ReminderSlot>)
        ensures
            schedule_of(r@) == self@,
    {
        &self.slots
    }

    /// The store read from persisted slots, with the watermark unset; a later
    /// slot for a time replaces an earlier one.
    pub fn from_slots(entries: Vec<ReminderSlot>) -> (r: Notifier)
        ensures
            r@ == loaded(schedule_of(entries@)),
            r.watermark().is_none(),
            r.wf(),
    {
        let ghost all = schedule_of(entries@);
        let mut rest = entries;
        let mut slots: Vec<ReminderSlot> = Vec::new();
        let ghost mut k: int = 0;
        while rest.len() > 0
            invariant
                0 <= k <= all.len(),
                schedule_of(rest@) == all.skip(k),
                schedule_of(slots@) == loaded(all.take(k)),
                keys_distinct(schedule_of(slots@)),
            decreases rest@.len(),
        {
            let ghost before = schedule_of(slots@);
            assert(schedule_of(rest@).len() == rest@.len());
            assert(schedule_of(rest@)[0] == rest@[0]@);
            let ghost old_rest = rest@;
            let entry = rest.remove(0);
            proof {
                assert forall|i: int| 0 <= i < rest@.len() implies schedule_of(rest@)[i] == all.skip(
                    k + 1,
                )[i] by {
                    assert(rest@[i] == old_rest[i + 1]);
                    assert(schedule_of(old_rest)[i + 1] == all.skip(k)[i + 1]);
                }
                assert(all.take(k + 1).drop_last() =~= all.take(k));
                assert(all.skip(k)[0] == all[k]);
                assert(schedule_of(rest@) =~= all.skip(k + 1));
                lemma_with_replaced(before, entry.time, entry@.1);
            }
            match find_slot(&slots, entry.time) {
                Some(j) => {
                    proof {
                        assert(before[j as int].0 == entry.time);
                        lemma_slot_index_unique(before, entry.time, j as int);
                    }
                    slots[j] = entry;
                    proof {
                        assert(schedule_of(slots@) =~= with_replaced(before, all[k].0, all[k].1));
                    }
                },
                None => {
                    proof {
                        lemma_slot_index(before, entry.time);
                        if slot_index(before, entry.time) >= 0 {
                            assert(slots@[slot_index(before, entry.time)].time == entry.time);
                        }
                    }
                    slots.push(entry);
                    proof {
                        assert(schedule_of(slots@) =~= with_replaced(before, all[k].0, all[k].1));
                    }
                },
            }
            proof {
                k = k + 1;
            }
        }
        proof {
            assert(all.take(k) =~= all);
        }
        Notifier { slots, latest_notified: None }
    }

    /// The reminders due at `now` on `day`: those set for a time after the
    /// watermark, if set, and not after `now`, whose weekday filter admits `day`.
    pub fn due_reminders(&self, now: TimeOfDay, day: Weekday) -> (r: Vec<Reminder>)
        ensures
            views_of(r@) == due(self@, self.watermark(), now, day),
    {
        let ghost s = self@;
        let mut out: Vec<Reminder> = Vec::new();
        let mut i: usize = 0;
        while i < self.slots.len()
            invariant
                i <= self.slots@.len(),
                s == schedule_of(self.slots@),
                views_of(out@) == due(s.take(i as int), self.latest_notified, now, day),
            decreases self.slots@.len() - i,
        {
            let slot = &self.slots[i];
            proof {
                assert(s.take(i + 1).drop_last() =~= s.take(i as int));
                assert(s.take(i + 1).last() == slot@);
            }
            if within_window(&slot.time, &self.latest_notified, &now) {
                let ghost base = views_of(out@);
                let ghost rs = views_of(slot.reminders@);
                let mut j: usize = 0;
                while j < slot.reminders.len()
                    invariant
                        j <= slot.reminders@.len(),
                        rs == views_of(slot.reminders@),
                        views_of(out@) == base + firing(rs.take(j as int), day),
                    decreases slot.reminders@.len() - j,
                {
                    let reminder = &slot.reminders[j];
                    proof {
                        assert(rs.take(j + 1).drop_last() =~= rs.take(j as int));
                        assert(rs.take(j + 1).last() == reminder@);
                    }
                    if reminder.fires_on(day) {
                        let copy = reminder.duplicate();
                        let ghost prev = out@;
                        out.push(copy);
                        proof {
                            assert(views_of(out@) =~= views_of(prev).push(copy@));
                        }
                    }
                    j = j + 1;
                }
                proof {
                    assert(rs.take(rs.len() as int) =~= rs);
                }
            }
            i = i + 1;
        }
        proof {
            assert(s.take(s.len() as int) =~= s);
        }
        out
    }

    /// The due check at `now` on `day`: returns the reminders due then, and
    /// moves the watermark to `now`.
    pub fn check_reminders_at(&mut self, now: TimeOfDay, day: Weekday) -> (r: Vec<Reminder>)
        ensures
            views_of(r@) == due(old(self)@, old(self).watermark(), now, day),
            final(self)@ == old(self)@,
            final(self).watermark() == Some(now),
    {
        let due_now = self.due_reminders(now, day);
        self.latest_notified = Some(now);
        due_now
    }

    /// The due check at the current local time of day and weekday: returns the
    /// reminders due then, and moves the watermark to that time.
    pub fn check_reminders(&mut self) -> (r: Vec<Reminder>)
        ensures
            final(self)@ == old(self)@,
            exists|now: TimeOfDay, day: Weekday|
                {
                    &&& now.wf()
                    &&& final(self).watermark() == Some(now)
                    &&& views_of(r@) == due(old(self)@, old(self).watermark(), now, day)
                },
    {
        let (now, day) = local_now();
        self.check_reminders_at(now, day)
    }
}

/// Accumulates reminders by time of day, then yields a store.
pub struct NotifierBuilder {
    slots: Vec<ReminderSlot>,
}

impl View for NotifierBuilder {
    type V = Schedule;

    closed spec fn view(&self) -> Schedule {
        schedule_of(self.slots@)
    }
}

impl Default for NotifierBuilder {
    fn default() -> (r: NotifierBuilder)
        ensures
            r@ == Seq::<(TimeOfDay, Seq<ReminderView>)>::empty(),
            r.wf(),
    {
        NotifierBuilder::new()
    }
}

impl NotifierBuilder {
    /// Each time of day has at most one slot.
    pub open spec fn wf(&self) -> bool {
        keys_distinct(self@)
    }

    /// A builder with nothing in it.
    pub fn new() -> (r: NotifierBuilder)
        ensures
            r@ == Seq::<(TimeOfDay, Seq<ReminderView>)>::empty(),
            r.wf(),
    {
        let r = NotifierBuilder { slots: Vec::new() };
        assert(r@ =~= Seq::<(TimeOfDay, Seq<ReminderView>)>::empty());
        r
    }

    /// Appends `reminder` to the reminders of `time`.
    pub fn notify(self, time: TimeOfDay, reminder: Reminder) -> (r: NotifierBuilder)
        requires
            self.wf(),
        ensures
            r@ == with_added(self@, time, reminder@),
            r.wf(),
    {
        let ghost before = self@;
        let mut slots = self.slots;
        proof {
            lemma_with_added(before, time, reminder@);
        }
        match find_slot(&slots, time) {
            Some(i) => {
                proof {
                    lemma_slot_index_unique(before, time, i as int);
                }
                let ghost rs = slots@[i as int].reminders@;
                slots[i].reminders.push(reminder);
                proof {
                    assert(views_of(rs.push(reminder)) =~= views_of(rs).push(reminder@));
                    assert(schedule_of(slots@) =~= with_added(before, time, reminder@));
                }
            },
            None => {
                proof {
                    lemma_slot_index(before, time);
                    if slot_index(before, time) >= 0 {
                        assert(slots@[slot_index(before, time)].time == time);
                    }
                }
                let mut rs: Vec<Reminder> = Vec::new();
                rs.push(reminder);
                slots.push(ReminderSlot { time, reminders: rs });
                proof {
                    assert(views_of(rs@) =~= seq![reminder@]);
                    assert(schedule_of(slots@) =~= with_added(before, time, reminder@));
                }
            },
        }
        NotifierBuilder { slots }
    }

    /// The store holding exactly what was accumulated, with the watermark unset.
    pub fn finish(self) -> (r: Notifier)
        requires
            self.wf(),
        ensures
            r@ == self@,
            r.watermark().is_none(),
            r.wf(),
    {
        Notifier { slots: self.slots, latest_notified: None }
    }
}

} // verus!
