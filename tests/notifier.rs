use rusty_schedule::notifier::{Notifier, NotifierBuilder, ReminderSlot};
use rusty_schedule::reminder::Reminder;
use rusty_schedule::time::{TimeOfDay, Weekday};

fn at(hour: u32, minute: u32) -> TimeOfDay {
    TimeOfDay::from_hms(hour, minute, 0).unwrap()
}

fn plain(title: &str) -> Reminder {
    Reminder::new(title.to_string(), format!("{title} body"))
}

fn on_days(title: &str, days: Vec<Weekday>) -> Reminder {
    Reminder {
        title: title.to_string(),
        content: String::new(),
        weekdays: Some(days),
        open: None,
    }
}

fn titles(rs: &[Reminder]) -> Vec<String> {
    rs.iter().map(|r| r.title.clone()).collect()
}

#[test]
fn due_once_then_none_at_same_time() {
    let mut store = NotifierBuilder::new().notify(at(9, 0), plain("stretch")).finish();
    assert_eq!(store.latest_notified(), None);
    let first = store.check_reminders_at(at(9, 30), Weekday::Wed);
    assert_eq!(titles(&first), vec!["stretch".to_string()]);
    assert_eq!(first[0].content, "stretch body");
    assert_eq!(store.latest_notified(), Some(at(9, 30)));
    let second = store.check_reminders_at(at(9, 30), Weekday::Wed);
    assert!(second.is_empty());
}

#[test]
fn monday_reminder_not_due_on_tuesday() {
    let mut store = NotifierBuilder::new()
        .notify(at(8, 0), on_days("standup", vec![Weekday::Mon]))
        .finish();
    assert!(store.check_reminders_at(at(9, 0), Weekday::Tue).is_empty());
}

#[test]
fn filtered_reminder_never_due_on_other_days() {
    let store = NotifierBuilder::new()
        .notify(at(8, 0), on_days("gym", vec![Weekday::Mon, Weekday::Fri]))
        .finish();
    for day in [Weekday::Tue, Weekday::Wed, Weekday::Thu, Weekday::Sat, Weekday::Sun] {
        for hour in [8, 12, 23] {
            assert!(store.due_reminders(at(hour, 0), day).is_empty());
        }
    }
    assert_eq!(titles(&store.due_reminders(at(8, 0), Weekday::Fri)), vec!["gym".to_string()]);
}

#[test]
fn unfiltered_reminder_due_every_day() {
    let store = NotifierBuilder::new().notify(at(7, 15), plain("water")).finish();
    for day in [
        Weekday::Mon,
        Weekday::Tue,
        Weekday::Wed,
        Weekday::Thu,
        Weekday::Fri,
        Weekday::Sat,
        Weekday::Sun,
    ] {
        assert_eq!(titles(&store.due_reminders(at(7, 15), day)), vec!["water".to_string()]);
    }
}

#[test]
fn window_excludes_watermark_and_includes_now() {
    let mut store = NotifierBuilder::new()
        .notify(at(10, 0), plain("a"))
        .notify(at(10, 5), plain("b"))
        .notify(at(10, 10), plain("c"))
        .finish();
    assert_eq!(titles(&store.check_reminders_at(at(10, 0), Weekday::Mon)), vec!["a".to_string()]);
    assert_eq!(
        titles(&store.check_reminders_at(at(10, 10), Weekday::Mon)),
        vec!["b".to_string(), "c".to_string()]
    );
    assert!(store.check_reminders_at(at(11, 0), Weekday::Mon).is_empty());
}

#[test]
fn watermark_advances_when_nothing_is_due() {
    let mut store = NotifierBuilder::new().notify(at(12, 0), plain("lunch")).finish();
    assert!(store.check_reminders_at(at(11, 0), Weekday::Mon).is_empty());
    assert_eq!(store.latest_notified(), Some(at(11, 0)));
    assert_eq!(titles(&store.check_reminders_at(at(12, 0), Weekday::Mon)), vec!["lunch".to_string()]);
}

#[test]
fn later_times_are_not_due() {
    let store = NotifierBuilder::new().notify(at(18, 0), plain("dinner")).finish();
    assert!(store.due_reminders(at(17, 59), Weekday::Mon).is_empty());
}

#[test]
fn fractional_seconds_order_times() {
    let store = NotifierBuilder::new()
        .notify(TimeOfDay { secs: 100, frac: 500 }, plain("x"))
        .finish();
    assert!(store.due_reminders(TimeOfDay { secs: 100, frac: 499 }, Weekday::Mon).is_empty());
    assert_eq!(store.due_reminders(TimeOfDay { secs: 100, frac: 500 }, Weekday::Mon).len(), 1);
}

#[test]
fn empty_store_has_nothing_due() {
    let mut store = NotifierBuilder::default().finish();
    assert!(store.slots().is_empty());
    assert!(store.check_reminders_at(at(23, 59), Weekday::Sun).is_empty());
}

#[test]
fn notify_twice_keeps_call_order() {
    let store = NotifierBuilder::new()
        .notify(at(9, 0), plain("first"))
        .notify(at(10, 0), plain("other"))
        .notify(at(9, 0), plain("second"))
        .finish();
    let slots = store.slots();
    assert_eq!(slots.len(), 2);
    assert_eq!(slots[0].time, at(9, 0));
    assert_eq!(titles(&slots[0].reminders), vec!["first".to_string(), "second".to_string()]);
    assert_eq!(slots[1].time, at(10, 0));
    assert_eq!(titles(&slots[1].reminders), vec!["other".to_string()]);
}

#[test]
fn identical_reminders_at_one_time_are_both_kept() {
    let store = NotifierBuilder::new()
        .notify(at(9, 0), plain("same"))
        .notify(at(9, 0), plain("same"))
        .finish();
    assert_eq!(store.due_reminders(at(9, 0), Weekday::Mon).len(), 2);
}

fn copy_slots(store: &Notifier) -> Vec<ReminderSlot> {
    store
        .slots()
        .iter()
        .map(|s| ReminderSlot {
            time: s.time,
            reminders: s.reminders.iter().map(|r| r.duplicate()).collect(),
        })
        .collect()
}

#[test]
fn reloaded_slots_match_and_reset_watermark() {
    let mut store = NotifierBuilder::new()
        .notify(at(9, 0), on_days("a", vec![Weekday::Mon]))
        .notify(at(9, 0), plain("b"))
        .notify(at(6, 0), plain("c"))
        .finish();
    store.check_reminders_at(at(9, 30), Weekday::Mon);
    let reloaded = Notifier::from_slots(copy_slots(&store));
    assert_eq!(reloaded.latest_notified(), None);
    assert_eq!(reloaded.slots().len(), 2);
    assert_eq!(reloaded.slots()[0].time, at(9, 0));
    assert_eq!(titles(&reloaded.slots()[0].reminders), vec!["a".to_string(), "b".to_string()]);
    assert_eq!(reloaded.slots()[0].reminders[0].weekdays, Some(vec![Weekday::Mon]));
    assert_eq!(reloaded.slots()[1].time, at(6, 0));
    assert_eq!(titles(&reloaded.slots()[1].reminders), vec!["c".to_string()]);
}

#[test]
fn later_loaded_slot_replaces_earlier() {
    let slots = vec![
        ReminderSlot { time: at(9, 0), reminders: vec![plain("old")] },
        ReminderSlot { time: at(8, 0), reminders: vec![plain("keep")] },
        ReminderSlot { time: at(9, 0), reminders: vec![plain("new")] },
    ];
    let store = Notifier::from_slots(slots);
    assert_eq!(store.slots().len(), 2);
    assert_eq!(titles(&store.slots()[0].reminders), vec!["new".to_string()]);
    assert_eq!(titles(&store.slots()[1].reminders), vec!["keep".to_string()]);
}

#[test]
fn duplicate_copies_every_field() {
    let source = Reminder {
        title: "t".to_string(),
        content: "c".to_string(),
        weekdays: Some(vec![Weekday::Sat, Weekday::Sun]),
        open: Some("calc".to_string()),
    };
    let copy = source.duplicate();
    assert_eq!(copy.title, "t");
    assert_eq!(copy.content, "c");
    assert_eq!(copy.weekdays, Some(vec![Weekday::Sat, Weekday::Sun]));
    assert_eq!(copy.open, Some("calc".to_string()));
}

#[test]
fn fires_on_follows_the_filter() {
    assert!(plain("x").fires_on(Weekday::Thu));
    assert!(on_days("x", vec![Weekday::Thu]).fires_on(Weekday::Thu));
    assert!(!on_days("x", vec![Weekday::Thu]).fires_on(Weekday::Fri));
    assert!(!on_days("x", vec![]).fires_on(Weekday::Fri));
}

#[test]
fn due_reminders_keep_their_open_command() {
    let mut r = plain("launch");
    r.open = Some("editor".to_string());
    let mut store = NotifierBuilder::new().notify(at(5, 0), r).finish();
    let due = store.check_reminders_at(at(5, 0), Weekday::Mon);
    assert_eq!(due[0].open, Some("editor".to_string()));
}

#[test]
fn check_with_the_clock_sets_the_watermark() {
    let mut store = NotifierBuilder::new().finish();
    assert!(store.check_reminders().is_empty());
    let mark = store.latest_notified().unwrap();
    assert!(mark.secs < 86400);
}

#[test]
fn time_constructor_bounds() {
    assert_eq!(TimeOfDay::from_hms(9, 30, 15), Some(TimeOfDay { secs: 34215, frac: 0 }));
    assert_eq!(TimeOfDay::from_hms(23, 59, 59), Some(TimeOfDay { secs: 86399, frac: 0 }));
    assert_eq!(TimeOfDay::from_hms(24, 0, 0), None);
    assert_eq!(TimeOfDay::from_hms(0, 60, 0), None);
    assert_eq!(TimeOfDay::from_hms(0, 0, 60), None);
    assert_eq!(TimeOfDay::midnight(), TimeOfDay { secs: 0, frac: 0 });
    assert!(at(9, 0).is_before(&at(9, 1)));
    assert!(!at(9, 1).is_before(&at(9, 1)));
    assert!(at(9, 1).is_at_or_before(&at(9, 1)));
}
