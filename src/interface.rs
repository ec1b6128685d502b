//! The state of the reminder editor, the decisions of its key handling, the
//! command line, and the store that the editor's drafts make.

use chrono::Timelike;
use std::str::FromStr;
use vstd::prelude::*;

use crate::notifier::{Notifier, NotifierBuilder};
use crate::reminder::{Reminder, ReminderView};
use crate::schedule::{with_added, Schedule};
use crate::time::TimeOfDay;

verus! {

/// The command given on the command line.
#[derive(Clone, Copy, Debug, PartialEq, Eq, Structural)]
pub enum ScheduleCommand {
    /// Listen for due reminders.
    Run,
    /// Edit reminders in the terminal.
    UserInterface,
}

/// The parsed command line.
#[derive(Clone, Copy, Debug, PartialEq, Eq, Structural)]
pub struct ScheduleCli {
    pub command: Option<ScheduleCommand>,
}

impl ScheduleCli {
    /// The command to carry out: listening when none was given.
    pub fn chosen_command(&self) -> (r: ScheduleCommand)
        ensures
            r == match self.command {
                Some(c) => c,
                None => ScheduleCommand::Run,
            },
    {
        match self.command {
            Some(c) => c,
            None => ScheduleCommand::Run,
        }
    }
}

/// What the editor's input handling asks of its caller.
#[derive(Clone, Copy, Debug, PartialEq, Eq, Structural)]
pub enum InputReturn {
    Exit,
}

/// The field of a task that receives typed text.
#[derive(Clone, Copy, Debug, PartialEq, Eq, Structural)]
pub enum TaskFocus {
    Title,
    Content,
    Time,
}

impl TaskFocus {
    /// The field after `self`, cycling from the time back to the title.
    pub open spec fn spec_next(self) -> TaskFocus {
        match self {
            TaskFocus::Title => TaskFocus::Content,
            TaskFocus::Content => TaskFocus::Time,
            TaskFocus::Time => TaskFocus::Title,
        }
    }

    /// The field after `self`.
    pub fn next(self) -> (r: TaskFocus)
        ensures
            r == self.spec_next(),
    {
        match self {
            TaskFocus::Title => TaskFocus::Content,
            TaskFocus::Content => TaskFocus::Time,
            TaskFocus::Time => TaskFocus::Title,
        }
    }
}

impl Default for TaskFocus {
    fn default() -> (r: TaskFocus)
        ensures
            r == TaskFocus::Title,
    {
        TaskFocus::Title
    }
}

/// A key as the editor tells keys apart.
#[derive(Clone, Copy, Debug, PartialEq, Eq, Structural)]
pub enum KeyInput {
    Char(char),
    Esc,
    Enter,
    Other,
}

/// What a key press does in the editor.
#[derive(Clone, Copy, Debug, PartialEq, Eq, Structural)]
pub enum InputAction {
    Save,
    AddTask,
    RemoveTask,
    NextTask,
    PreviousTask,
    Exit,
    CycleFocus,
    /// The key goes to the focused field of the selected task.
    EditFocused,
    Ignore,
}

/// The action bound to a key: with Control, `s`, `n`, `d`, `j` and `k` in
/// either case save, add, remove, select the next and the previous task;
/// otherwise Escape exits, Enter without Shift moves the focus, and any other
/// key edits the focused field. Releases and repeats do nothing.
pub open spec fn action_of(press: bool, control: bool, shift: bool, key: KeyInput) -> InputAction {
    if !press {
        InputAction::Ignore
    } else if control {
        match key {
            KeyInput::Char(c) => if c == 's' || c == 'S' {
                InputAction::Save
            } else if c == 'n' || c == 'N' {
                InputAction::AddTask
            } else if c == 'd' || c == 'D' {
                InputAction::RemoveTask
            } else if c == 'j' || c == 'J' {
                InputAction::NextTask
            } else if c == 'k' || c == 'K' {
                InputAction::PreviousTask
            } else {
                InputAction::Ignore
            },
            _ => InputAction::Ignore,
        }
    } else {
        match key {
            KeyInput::Esc => InputAction::Exit,
            KeyInput::Enter => if shift {
                InputAction::EditFocused
            } else {
                InputAction::CycleFocus
            },
            _ => InputAction::EditFocused,
        }
    }
}

/// The action bound to a key event.
pub fn decide_input(press: bool, control: bool, shift: bool, key: KeyInput) -> (r: InputAction)
    ensures
        r == action_of(press, control, shift, key),
{
    if !press {
        return InputAction::Ignore;
    }
    if control {
        match key {
            KeyInput::Char(c) => if c == 's' || c == 'S' {
                InputAction::Save
            } else if c == 'n' || c == 'N' {
                InputAction::AddTask
            } else if c == 'd' || c == 'D' {
                InputAction::RemoveTask
            } else if c == 'j' || c == 'J' {
                InputAction::NextTask
            } else if c == 'k' || c == 'K' {
                InputAction::PreviousTask
            } else {
                InputAction::Ignore
            },
            _ => InputAction::Ignore,
        }
    } else {
        match key {
            KeyInput::Esc => InputAction::Exit,
            KeyInput::Enter => if shift {
                InputAction::EditFocused
            } else {
                InputAction::CycleFocus
            },
            _ => InputAction::EditFocused,
        }
    }
}

/// The editor's tasks, the selected one, and the focused field.
///
/// `T` is whatever holds one task's editable text.
pub struct UserInterfaceState<T> {
    tasks: Vec<T>,
    focused_task_index: usize,
    focus_type: TaskFocus,
}

impl<T> UserInterfaceState<T> {
    pub closed spec fn task_seq(&self) -> Seq<T> {
        self.tasks@
    }

    pub closed spec fn selected(&self) -> int {
        self.focused_task_index as int
    }

    pub closed spec fn focus(&self) -> TaskFocus {
        self.focus_type
    }

    /// There is always a task. The selection points at one, or just past the
    /// end after the last task was removed.
    pub open spec fn wf(&self) -> bool {
        &&& self.task_seq().len() >= 1
        &&& 0 <= self.selected() <= self.task_seq().len()
    }

    /// The selection points at a task.
    pub open spec fn selection_in_range(&self) -> bool {
        self.selected() < self.task_seq().len()
    }

    /// An editor holding the one task `first`, selected, with the title focused.
    pub fn new(first: T) -> (r: UserInterfaceState<T>)
        ensures
            r.wf(),
            r.task_seq() == seq![first],
            r.selected() == 0,
            r.focus() == TaskFocus::Title,
    {
        let mut tasks: Vec<T> = Vec::new();
        tasks.push(first);
        let r = UserInterfaceState { tasks, focused_task_index: 0, focus_type: TaskFocus::Title };
        assert(r.task_seq() =~= seq![first]);
        r
    }

    /// The tasks, in order.
    pub fn tasks(&self) -> (r: &Vec<T>)
        ensures
            r@ == self.task_seq(),
    {
        &self.tasks
    }

    /// The tasks, to edit in place; their number cannot change through this.
    pub fn tasks_mut(&mut self) -> (r: &mut [T])
        ensures
            r@ == old(self).task_seq(),
            final(self).task_seq() == final(r)@,
            final(self).selected() == old(self).selected(),
            final(self).focus() == old(self).focus(),
    {
        self.tasks.as_mut_slice()
    }

    /// How many tasks there are.
    pub fn tasks_count(&self) -> (r: usize)
        ensures
            r == self.task_seq().len(),
    {
        self.tasks.len()
    }

    /// The position of the selected task.
    pub fn selected_index(&self) -> (r: usize)
        ensures
            r == self.selected(),
    {
        self.focused_task_index
    }

    /// The focused field.
    pub fn focus_type(&self) -> (r: TaskFocus)
        ensures
            r == self.focus(),
    {
        self.focus_type
    }

    /// The selected task, to edit in place.
    pub fn get_focused_task_mut(&mut self) -> (r: &mut T)
        requires
            old(self).wf(),
            old(self).selection_in_range(),
        ensures
            *r == old(self).task_seq()[old(self).selected()],
            final(self).task_seq() == old(self).task_seq().update(old(self).selected(), *final(r)),
            final(self).selected() == old(self).selected(),
            final(self).focus() == old(self).focus(),
    {
        &mut self.tasks[self.focused_task_index]
    }

    /// Appends `task` at the end; the selection stays.
    pub fn add_task(&mut self, task: T)
        requires
            old(self).wf(),
        ensures
            final(self).wf(),
            final(self).task_seq() == old(self).task_seq().push(task),
            final(self).selected() == old(self).selected(),
            final(self).focus() == old(self).focus(),
    {
        self.tasks.push(task);
    }

    /// Removes the selected task; the sole task is replaced by `blank`
    /// instead. The selection and the focus stay as they were, so removing
    /// the last of several tasks leaves the selection just past the end.
    pub fn remove_selected_task(&mut self, blank: T)
        requires
            old(self).wf(),
            old(self).task_seq().len() == 1 || old(self).selection_in_range(),
        ensures
            final(self).wf(),
            final(self).focus() == old(self).focus(),
            final(self).selected() == old(self).selected(),
            old(self).task_seq().len() == 1 ==> final(self).task_seq() == seq![blank],
            old(self).task_seq().len() > 1 ==> final(self).task_seq() == old(self).task_seq().remove(old(self).selected()),
    {
        if self.tasks.len() == 1 {
            self.tasks.set(0, blank);
            assert(self.tasks@ =~= seq![blank]);
        } else {
            self.tasks.remove(self.focused_task_index);
        }
    }

    /// Selects the next task, with the title focused; at the last task or past
    /// it nothing changes.
    pub fn increment_task_selection(&mut self)
        requires
            old(self).wf(),
        ensures
            final(self).wf(),
            final(self).task_seq() == old(self).task_seq(),
            old(self).selected() < old(self).task_seq().len() - 1 ==> {
                &&& final(self).selected() == old(self).selected() + 1
                &&& final(self).focus() == TaskFocus::Title
            },
            old(self).selected() >= old(self).task_seq().len() - 1 ==> {
                &&& final(self).selected() == old(self).selected()
                &&& final(self).focus() == old(self).focus()
            },
    {
        if self.focused_task_index < self.tasks.len() - 1 {
            self.focus_type = TaskFocus::Title;
            self.focused_task_index = self.focused_task_index + 1;
        }
    }

    /// Selects the previous task, with the title focused; at the first task nothing changes.
    pub fn decrement_task_selection(&mut self)
        requires
            old(self).wf(),
        ensures
            final(self).wf(),
            final(self).task_seq() == old(self).task_seq(),
            old(self).selected() > 0 ==> final(self).selected() == old(self).selected() - 1
                && final(self).focus() == TaskFocus::Title,
            old(self).selected() == 0 ==> final(self).selected() == 0 && final(self).focus() == old(self).focus(),
    {
        if self.focused_task_index != 0 {
            self.focus_type = TaskFocus::Title;
            self.focused_task_index = self.focused_task_index - 1;
        }
    }

    /// Moves the focus to the next field of the selected task.
    pub fn change_focus_type(&mut self)
        requires
            old(self).wf(),
        ensures
            final(self).wf(),
            final(self).task_seq() == old(self).task_seq(),
            final(self).selected() == old(self).selected(),
            final(self).focus() == old(self).focus().spec_next(),
    {
        self.focus_type = self.focus_type.next();
    }
}

/// One task's text as the editor holds it.
pub struct TaskDraft {
    pub title: String,
    pub content: String,
    /// The time of day as typed, such as `9:30` or `21:05:10`.
    pub time: String,
}

/// The time of day that chrono reads from `s`, if any.
pub uninterp spec fn parsed_time(s: Seq<char>) -> Option<TimeOfDay>;

/// Relies on chrono's `FromStr` for `NaiveTime` (`%H:%M` with optional
/// seconds and fraction): the time of day read from `s`, or `None`. A
/// `NaiveTime` keeps seconds below 86400 and nanoseconds below two billion,
/// and holds a leap second only in the last second of a minute.
#[verifier::external_body]
fn parse_time(s: &str) -> (r: Option<TimeOfDay>)
    ensures
        r == parsed_time(s@),
        r.is_some() ==> r.unwrap().wf(),
{
    match chrono::NaiveTime::from_str(s) {
        Ok(t) => Some(TimeOfDay { secs: t.num_seconds_from_midnight(), frac: t.nanosecond() }),
        Err(_) => None,
    }
}

/// The time a draft is set for: the parsed time, or midnight when the text is no time.
pub open spec fn draft_time(parsed: Option<TimeOfDay>) -> TimeOfDay {
    match parsed {
        Some(t) => t,
        None => TimeOfDay { secs: 0, frac: 0 },
    }
}

/// The reminder a draft makes: its title and content, no weekday filter, nothing to open.
pub open spec fn draft_reminder(title: Seq<char>, content: Seq<char>) -> ReminderView {
    ReminderView { title, content, weekdays: None, open: None }
}

/// The schedule that the drafts make, added in order.
pub open spec fn drafts_schedule(ds: Seq<TaskDraft>) -> Schedule
    decreases ds.len(),
{
    if ds.len() == 0 {
        Seq::empty()
    } else {
        with_added(
            drafts_schedule(ds.drop_last()),
            draft_time(parsed_time(ds.last().time@)),
            draft_reminder(ds.last().title@, ds.last().content@),
        )
    }
}

/// Adds the reminder of one draft, given what was parsed from its time text.
pub fn add_draft(
    builder: NotifierBuilder,
    parsed: Option<TimeOfDay>,
    title: String,
    content: String,
) -> (r: NotifierBuilder)
    requires
        builder.wf(),
    ensures
        r.wf(),
        r@ == with_added(builder@, draft_time(parsed), draft_reminder(title@, content@)),
{
    let time = match parsed {
        Some(t) => t,
        None => TimeOfDay::midnight(),
    };
    builder.notify(time, Reminder::new(title, content))
}

/// The store that the drafts make, in order, with the watermark unset.
pub fn notifier_from_drafts(drafts: &Vec<TaskDraft>) -> (r: Notifier)
    ensures
        r@ == drafts_schedule(drafts@),
        r.watermark().is_none(),
        r.wf(),
{
    let mut builder = NotifierBuilder::new();
    let mut i: usize = 0;
    while i < drafts.len()
        invariant
            i <= drafts@.len(),
            builder.wf(),
            builder@ == drafts_schedule(drafts@.take(i as int)),
        decreases drafts@.len() - i,
    {
        let draft = &drafts[i];
        let parsed = parse_time(draft.time.as_str());
        proof {
            assert(drafts@.take(i + 1).drop_last() =~= drafts@.take(i as int));
        }
        builder = add_draft(builder, parsed, draft.title.clone(), draft.content.clone());
        i = i + 1;
    }
    proof {
        assert(drafts@.take(drafts@.len() as int) =~= drafts@);
    }
    builder.finish()
}

} // verus!
