//! The reminder record and its weekday filter.

use vstd::prelude::*;

use crate::time::Weekday;

verus! {

/// A titled notification, with an optional weekday filter and an optional
/// application to open when it fires.
pub struct Reminder {
    pub title: String,
    pub content: String,
    /// When present, the reminder fires only on these weekdays.
    pub weekdays: Option<Vec<Weekday>>,
    /// Application to open when the reminder fires.
    pub open: Option<String>,
}

/// What a reminder holds, as mathematical values.
pub struct ReminderView {
    pub title: Seq<char>,
    pub content: Seq<char>,
    pub weekdays: Option<Seq<Weekday>>,
    pub open: Option<Seq<char>>,
}

impl ReminderView {
    /// The reminder fires on `day`: it has no weekday filter, or the filter holds `day`.
    pub open spec fn fires_on(self, day: Weekday) -> bool {
        match self.weekdays {
            None => true,
            Some(days) => days.contains(day),
        }
    }
}

impl View for Reminder {
    type V = ReminderView;

    open spec fn view(&self) -> ReminderView {
        ReminderView {
            title: self.title@,
            content: self.content@,
            weekdays: match self.weekdays {
                None => None,
                Some(days) => Some(days@),
            },
            open: match self.open {
                None => None,
                Some(app) => Some(app@),
            },
        }
    }
}

/// A copy of `days`, element by element.
fn copy_days(days: &Vec<Weekday>) -> (r: Vec<Weekday>)
    ensures
        r@ == days@,
{
    let mut r: Vec<Weekday> = Vec::new();
    let mut i: usize = 0;
    while i < days.len()
        invariant
            i <= days@.len(),
            r@ == days@.take(i as int),
        decreases days@.len() - i,
    {
        r.push(days[i]);
        i = i + 1;
        assert(r@ =~= days@.take(i as int));
    }
    assert(r@ =~= days@);
    r
}

impl Reminder {
    /// A reminder with no weekday filter and nothing to open.
    pub fn new(title: String, content: String) -> (r: Reminder)
        ensures
            r@.title == title@,
            r@.content == content@,
            r@.weekdays.is_none(),
            r@.open.is_none(),
    {
        Reminder { title, content, weekdays: None, open: None }
    }

    /// Whether the reminder fires on `day`.
    pub fn fires_on(&self, day: Weekday) -> (r: bool)
        ensures
            r == self@.fires_on(day),
    {
        match &self.weekdays {
            None => true,
            Some(days) => {
                let mut i: usize = 0;
                while i < days.len()
                    invariant
                        i <= days@.len(),
                        self@.weekdays == Some(days@),
                        forall|k: int| 0 <= k < i ==> days@[k] != day,
                    decreases days@.len() - i,
                {
                    if days[i] == day {
                        assert(days@[i as int] == day);
                        return true;
                    }
                    i = i + 1;
                }
                false
            },
        }
    }

    /// A copy of the reminder, field by field.
    pub fn duplicate(&self) -> (r: Reminder)
        ensures
            r@ == self@,
    {
        let weekdays = match &self.weekdays {
            None => None,
            Some(days) => Some(copy_days(days)),
        };
        let open = match &self.open {
            None => None,
            Some(app) => Some(app.clone()),
        };
        Reminder { title: self.title.clone(), content: self.content.clone(), weekdays, open }
    }
}

} // verus!
