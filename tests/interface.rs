use rusty_schedule::interface::{
    add_draft, decide_input, notifier_from_drafts, InputAction, KeyInput, ScheduleCli,
    ScheduleCommand, TaskDraft, TaskFocus, UserInterfaceState,
};
use rusty_schedule::notifier::NotifierBuilder;
use rusty_schedule::time::TimeOfDay;

fn draft(title: &str, time: &str) -> TaskDraft {
    TaskDraft { title: title.to_string(), content: format!("{title}!"), time: time.to_string() }
}

#[test]
fn drafts_parse_their_times() {
    let drafts = vec![draft("a", "9:30"), draft("b", "21:05:10"), draft("c", "09:30")];
    let store = notifier_from_drafts(&drafts);
    let slots = store.slots();
    assert_eq!(slots.len(), 2);
    assert_eq!(slots[0].time, TimeOfDay { secs: 34200, frac: 0 });
    assert_eq!(slots[0].reminders.len(), 2);
    assert_eq!(slots[0].reminders[0].title, "a");
    assert_eq!(slots[0].reminders[0].content, "a!");
    assert_eq!(slots[0].reminders[1].title, "c");
    assert_eq!(slots[1].time, TimeOfDay { secs: 21 * 3600 + 5 * 60 + 10, frac: 0 });
    assert_eq!(store.latest_notified(), None);
}

#[test]
fn unreadable_draft_time_means_midnight() {
    let store = notifier_from_drafts(&vec![draft("x", "soon"), draft("y", "25:00")]);
    let slots = store.slots();
    assert_eq!(slots.len(), 1);
    assert_eq!(slots[0].time, TimeOfDay::midnight());
    assert_eq!(slots[0].reminders.len(), 2);
}

#[test]
fn add_draft_uses_parsed_time() {
    let b = add_draft(NotifierBuilder::new(), Some(TimeOfDay { secs: 60, frac: 0 }), "t".to_string(), "c".to_string());
    let b = add_draft(b, None, "u".to_string(), "d".to_string());
    let store = b.finish();
    assert_eq!(store.slots()[0].time, TimeOfDay { secs: 60, frac: 0 });
    assert_eq!(store.slots()[1].time, TimeOfDay::midnight());
    assert_eq!(store.slots()[1].reminders[0].title, "u");
    assert_eq!(store.slots()[1].reminders[0].weekdays, None);
}

#[test]
fn control_keys() {
    assert_eq!(decide_input(true, true, false, KeyInput::Char('s')), InputAction::Save);
    assert_eq!(decide_input(true, true, false, KeyInput::Char('S')), InputAction::Save);
    assert_eq!(decide_input(true, true, false, KeyInput::Char('n')), InputAction::AddTask);
    assert_eq!(decide_input(true, true, false, KeyInput::Char('D')), InputAction::RemoveTask);
    assert_eq!(decide_input(true, true, false, KeyInput::Char('j')), InputAction::NextTask);
    assert_eq!(decide_input(true, true, false, KeyInput::Char('K')), InputAction::PreviousTask);
    assert_eq!(decide_input(true, true, false, KeyInput::Char('x')), InputAction::Ignore);
    assert_eq!(decide_input(true, true, false, KeyInput::Esc), InputAction::Ignore);
}

#[test]
fn plain_keys() {
    assert_eq!(decide_input(true, false, false, KeyInput::Esc), InputAction::Exit);
    assert_eq!(decide_input(true, false, false, KeyInput::Enter), InputAction::CycleFocus);
    assert_eq!(decide_input(true, false, true, KeyInput::Enter), InputAction::EditFocused);
    assert_eq!(decide_input(true, false, false, KeyInput::Char('s')), InputAction::EditFocused);
    assert_eq!(decide_input(false, false, false, KeyInput::Esc), InputAction::Ignore);
}

#[test]
fn command_defaults_to_run() {
    assert_eq!(ScheduleCli { command: None }.chosen_command(), ScheduleCommand::Run);
    assert_eq!(
        ScheduleCli { command: Some(ScheduleCommand::UserInterface) }.chosen_command(),
        ScheduleCommand::UserInterface
    );
}

#[test]
fn focus_cycles() {
    assert_eq!(TaskFocus::default(), TaskFocus::Title);
    assert_eq!(TaskFocus::Title.next(), TaskFocus::Content);
    assert_eq!(TaskFocus::Content.next(), TaskFocus::Time);
    assert_eq!(TaskFocus::Time.next(), TaskFocus::Title);
}

#[test]
fn selection_moves_within_bounds() {
    let mut state = UserInterfaceState::new(1u32);
    state.add_task(2);
    state.add_task(3);
    assert_eq!(state.tasks_count(), 3);
    state.decrement_task_selection();
    assert_eq!(state.selected_index(), 0);
    state.change_focus_type();
    assert_eq!(state.focus_type(), TaskFocus::Content);
    state.increment_task_selection();
    assert_eq!(state.selected_index(), 1);
    assert_eq!(state.focus_type(), TaskFocus::Title);
    state.increment_task_selection();
    state.increment_task_selection();
    assert_eq!(state.selected_index(), 2);
    *state.get_focused_task_mut() = 30;
    assert_eq!(state.tasks(), &vec![1, 2, 30]);
}

#[test]
fn removing_tasks() {
    let mut state = UserInterfaceState::new(1u32);
    state.add_task(2);
    state.increment_task_selection();
    state.remove_selected_task(0);
    assert_eq!(state.tasks(), &vec![1]);
    assert_eq!(state.selected_index(), 1);
    state.remove_selected_task(0);
    assert_eq!(state.tasks(), &vec![0]);
    assert_eq!(state.selected_index(), 1);
    state.increment_task_selection();
    assert_eq!(state.selected_index(), 1);
    state.decrement_task_selection();
    assert_eq!(state.selected_index(), 0);
    *state.get_focused_task_mut() = 7;
    assert_eq!(state.tasks(), &vec![7]);
}

#[test]
fn removing_a_middle_task_keeps_the_selection() {
    let mut state = UserInterfaceState::new(1u32);
    state.add_task(2);
    state.add_task(3);
    state.increment_task_selection();
    state.change_focus_type();
    state.remove_selected_task(0);
    assert_eq!(state.tasks(), &vec![1, 3]);
    assert_eq!(state.selected_index(), 1);
    assert_eq!(state.focus_type(), TaskFocus::Content);
}

#[test]
fn leap_second_draft_time() {
    let store = notifier_from_drafts(&vec![draft("leap", "23:59:60.5")]);
    assert_eq!(store.slots()[0].time, TimeOfDay { secs: 86399, frac: 1_500_000_000 });
}
