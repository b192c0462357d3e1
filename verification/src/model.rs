//! Tasks, the list of a day's tasks, and the commands that act on it.

use crate::date::{filename_of, TuduDate};
use crate::error::{ErrorView, TuduError};
use crate::storage::{file_text, parse_contents, parse_tasks_from_contents, render_tasks};
use crate::text::{decimal, push_decimal};
use vstd::prelude::*;
use vstd::string::*;

verus! {

#[derive(Eq, PartialEq, Debug)]
pub enum Command {
    Add(AddCommand),
    Remove(RemoveCommand),
    SetState(SetCommand),
    Edit(EditCommand),
    View(ViewCommand),
}

#[derive(Eq, PartialEq, Structural, Debug, Clone, Copy)]
pub enum TaskState {
    NotStarted,
    Started,
    Complete,
    Forwarded,
    Ignored,
}

#[derive(Eq, PartialEq, Debug)]
pub struct AddCommand {
    pub task: String,
    pub date: Option<TuduDate>,
}

#[derive(Eq, PartialEq, Debug)]
pub struct RemoveCommand {
    pub index: usize,
    pub date: Option<TuduDate>,
}

#[derive(Eq, PartialEq, Debug)]
pub struct SetCommand {
    pub index: usize,
    pub date: Option<TuduDate>,
    pub state: TaskState,
}

#[derive(Eq, PartialEq, Debug)]
pub struct ViewCommand {
    pub date: TuduDate,
}

#[derive(Eq, PartialEq, Debug)]
pub struct EditCommand {
    pub index: usize,
    pub task: String,
}

#[derive(Debug, PartialEq, Eq, Clone)]
pub struct Task {
    pub task: String,
    pub state: TaskState,
}

#[derive(Debug, PartialEq, Eq)]
pub struct TaskList<'a> {
    pub tasks: Vec<Task>,
    pub date: &'a TuduDate,
}

/// The text of a file of tasks, with the name under which it is kept.
#[derive(Debug, PartialEq, Eq)]
pub struct TaskFile {
    pub name: String,
    pub contents: String,
}

/// A file as its name and its text.
pub struct FileView {
    pub name: Seq<char>,
    pub contents: Seq<char>,
}

impl View for TaskFile {
    type V = FileView;

    open spec fn view(&self) -> FileView {
        FileView { name: self.name@, contents: self.contents@ }
    }
}

/// A command with its texts as sequences of characters.
pub enum CommandView {
    Add { task: Seq<char>, date: Option<TuduDate> },
    Remove { index: usize, date: Option<TuduDate> },
    SetState { index: usize, date: Option<TuduDate>, state: TaskState },
    Edit { index: usize, task: Seq<char> },
    View { day: TuduDate },
}

impl View for Command {
    type V = CommandView;

    open spec fn view(&self) -> CommandView {
        match *self {
            Command::Add(c) => CommandView::Add { task: c.task@, date: c.date },
            Command::Remove(c) => CommandView::Remove { index: c.index, date: c.date },
            Command::SetState(c) => CommandView::SetState { index: c.index, date: c.date, state: c.state },
            Command::Edit(c) => CommandView::Edit { index: c.index, task: c.task@ },
            Command::View(c) => CommandView::View { day: c.date },
        }
    }
}

/// A task with its description as a sequence of characters.
pub struct TaskView {
    pub description: Seq<char>,
    pub state: TaskState,
}

impl View for Task {
    type V = TaskView;

    open spec fn view(&self) -> TaskView {
        TaskView { description: self.task@, state: self.state }
    }
}

/// The views of a sequence of tasks, in order.
pub open spec fn task_views(tasks: Seq<Task>) -> Seq<TaskView> {
    tasks.map_values(|t: Task| t@)
}

/// The tasks of a day, from what reading its file gave. A missing file
/// stands for no tasks; every other failure stays one.
pub open spec fn loaded_tasks(file: Result<String, TuduError>) -> Result<Seq<TaskView>, ErrorView> {
    match file {
        Ok(text) => parse_contents(text@),
        Err(TuduError::NoTaskFile) => Ok(Seq::empty()),
        Err(e) => Err(e@),
    }
}

/// The letter that stands for a state in a file and on the command line.
pub open spec fn state_code(state: TaskState) -> char {
    match state {
        TaskState::NotStarted => 'N',
        TaskState::Started => 'S',
        TaskState::Complete => 'C',
        TaskState::Forwarded => 'F',
        TaskState::Ignored => 'X',
    }
}

/// The state that a text names: exactly one of the five letters.
pub open spec fn state_of_code(code: Seq<char>) -> Option<TaskState> {
    if code == seq!['N'] {
        Some(TaskState::NotStarted)
    } else if code == seq!['S'] {
        Some(TaskState::Started)
    } else if code == seq!['C'] {
        Some(TaskState::Complete)
    } else if code == seq!['F'] {
        Some(TaskState::Forwarded)
    } else if code == seq!['X'] {
        Some(TaskState::Ignored)
    } else {
        None
    }
}

/// The sign shown for a state in a listing.
pub open spec fn state_icon(state: TaskState) -> char {
    match state {
        TaskState::NotStarted => '◯',
        TaskState::Started => '◐',
        TaskState::Complete => '●',
        TaskState::Forwarded => '►',
        TaskState::Ignored => 'x',
    }
}

/// One line of a listing: the position, four spaces, the sign of the state,
/// a hyphen between spaces, the description, and a line feed.
pub open spec fn display_line(position: nat, task: TaskView) -> Seq<char> {
    decimal(position) + seq![' ', ' ', ' ', ' ', state_icon(task.state), ' ', '-', ' ']
        + task.description + seq!['\n']
}

/// A listing: one line for each task, numbered from 1.
pub open spec fn display_text(tasks: Seq<TaskView>) -> Seq<char>
    decreases tasks.len(),
{
    if tasks.len() == 0 {
        Seq::empty()
    } else {
        display_text(tasks.drop_last()) + display_line(tasks.len(), tasks.last())
    }
}

impl TaskState {
    /// The letter of this state, as a text.
    pub fn code(&self) -> (code: &'static str)
        ensures
            code@ == seq![state_code(*self)],
    {
        proof {
            reveal_strlit("N");
            reveal_strlit("S");
            reveal_strlit("C");
            reveal_strlit("F");
            reveal_strlit("X");
        }
        let code = match self {
            TaskState::NotStarted => "N",
            TaskState::Started => "S",
            TaskState::Complete => "C",
            TaskState::Forwarded => "F",
            TaskState::Ignored => "X",
        };
        assert(code@ =~= seq![state_code(*self)]);
        code
    }

    /// The sign of this state, as a text.
    pub fn icon(&self) -> (icon: &'static str)
        ensures
            icon@ == seq![state_icon(*self)],
    {
        proof {
            reveal_strlit("◯");
            reveal_strlit("◐");
            reveal_strlit("●");
            reveal_strlit("►");
            reveal_strlit("x");
        }
        let icon = match self {
            TaskState::NotStarted => "◯",
            TaskState::Started => "◐",
            TaskState::Complete => "●",
            TaskState::Forwarded => "►",
            TaskState::Ignored => "x",
        };
        assert(icon@ =~= seq![state_icon(*self)]);
        icon
    }
}

/// The state that `state` names, if it is one of the letters N, S, C, F, X.
pub fn parse_state(state: &str) -> (r: Option<TaskState>)
    ensures
        r == state_of_code(state@),
{
    proof {
        reveal_strlit("N");
        reveal_strlit("S");
        reveal_strlit("C");
        reveal_strlit("F");
        reveal_strlit("X");
    }
    if state.unicode_len() != 1 {
        return None;
    }
    let c = state.get_char(0);
    assert(state@ =~= seq![c]);
    if c == 'N' {
        Some(TaskState::NotStarted)
    } else if c == 'S' {
        Some(TaskState::Started)
    } else if c == 'C' {
        Some(TaskState::Complete)
    } else if c == 'F' {
        Some(TaskState::Forwarded)
    } else if c == 'X' {
        Some(TaskState::Ignored)
    } else {
        None
    }
}

/// The line that shows `task` at the place `index`, counted from 0.
pub fn format_task_for_display(task: &Task, index: usize) -> (line: String)
    requires
        index < usize::MAX,
    ensures
        line@ == display_line((index + 1) as nat, task@),
{
    let mut line = String::new();
    push_decimal(&mut line, (index + 1) as u64);
    line.append("    ");
    line.append(task.state.icon());
    line.append(" - ");
    line.append(task.task.as_str());
    line.append("\n");
    proof {
        reveal_strlit("    ");
        reveal_strlit(" - ");
        reveal_strlit("\n");
        assert(line@ =~= display_line((index + 1) as nat, task@));
    }
    line
}

impl Task {
    /// The task with this description and state.
    pub fn new(task: String, state: TaskState) -> (r: Task)
        ensures
            r == (Task { task, state }),
    {
        Task { task, state }
    }
}

impl<'a> TaskList<'a> {
    /// Whether `index`, counted from 1, names a task of a list of `len` tasks.
    pub open spec fn valid_index(index: usize, len: nat) -> bool {
        1 <= index <= len
    }

    /// The list of a day, from what reading the day's file gave: its text,
    /// or the failure. A missing file stands for a day without tasks.
    pub fn for_date(date: &'a TuduDate, file: Result<String, TuduError>) -> (r: Result<
        TaskList<'a>,
        TuduError,
    >)
        ensures
            match loaded_tasks(file) {
                Ok(tasks) => r matches Ok(list) && list.date == date && task_views(list.tasks@)
                    == tasks,
                Err(e) => r matches Err(err) && err@ == e,
            },
    {
        match file {
            Ok(text) => match parse_tasks_from_contents(text.as_str()) {
                Ok(tasks) => Ok(TaskList { tasks, date }),
                Err(err) => Err(err),
            },
            Err(TuduError::NoTaskFile) => {
                assert(task_views(Seq::<Task>::empty()) =~= Seq::<TaskView>::empty());
                Ok(TaskList::empty(date))
            },
            Err(err) => Err(err),
        }
    }

    /// Puts `new_task` at the end of the list.
    pub fn add_task(&mut self, new_task: Task)
        ensures
            final(self).tasks@ == old(self).tasks@.push(new_task),
            final(self).date == old(self).date,
    {
        self.tasks.push(new_task);
    }

    /// Gives the task at `index`, counted from 1, the state `desired_state`.
    pub fn set_task_state(&mut self, index: usize, desired_state: TaskState) -> (r: Result<
        (),
        TuduError,
    >)
        ensures
            Self::valid_index(index, old(self).tasks@.len()) ==> r is Ok && final(self).tasks@
                == old(self).tasks@.update(
                index - 1,
                Task { task: old(self).tasks@[index - 1].task, state: desired_state },
            ),
            !Self::valid_index(index, old(self).tasks@.len()) ==> r == Err::<(), TuduError>(
                TuduError::InvalidIndex,
            ) && final(self).tasks@ == old(self).tasks@,
            final(self).date == old(self).date,
    {
        if index == 0 || index > self.tasks.len() {
            return Err(TuduError::InvalidIndex);
        }
        self.tasks[index - 1].state = desired_state;
        assert(self.tasks@ =~= old(self).tasks@.update(
            index - 1,
            Task { task: old(self).tasks@[index - 1].task, state: desired_state },
        ));
        Ok(())
    }

    /// Takes the task at `index`, counted from 1, out of the list; those
    /// behind it move up by one.
    pub fn remove_task(&mut self, index: usize) -> (r: Result<(), TuduError>)
        ensures
            Self::valid_index(index, old(self).tasks@.len()) ==> r is Ok && final(self).tasks@
                == old(self).tasks@.remove(index - 1),
            !Self::valid_index(index, old(self).tasks@.len()) ==> r == Err::<(), TuduError>(
                TuduError::InvalidIndex,
            ) && final(self).tasks@ == old(self).tasks@,
            final(self).date == old(self).date,
    {
        if index == 0 || index > self.tasks.len() {
            return Err(TuduError::InvalidIndex);
        }
        self.tasks.remove(index - 1);
        Ok(())
    }

    /// Gives the task at `index`, counted from 1, the description `new_task`.
    pub fn edit_task(&mut self, index: usize, new_task: String) -> (r: Result<(), TuduError>)
        ensures
            Self::valid_index(index, old(self).tasks@.len()) ==> r is Ok && final(self).tasks@
                == old(self).tasks@.update(
                index - 1,
                Task { task: new_task, state: old(self).tasks@[index - 1].state },
            ),
            !Self::valid_index(index, old(self).tasks@.len()) ==> r == Err::<(), TuduError>(
                TuduError::InvalidIndex,
            ) && final(self).tasks@ == old(self).tasks@,
            final(self).date == old(self).date,
    {
        if index == 0 || index > self.tasks.len() {
            return Err(TuduError::InvalidIndex);
        }
        self.tasks[index - 1].task = new_task;
        assert(self.tasks@ =~= old(self).tasks@.update(
            index - 1,
            Task { task: new_task, state: old(self).tasks@[index - 1].state },
        ));
        Ok(())
    }

    /// The listing of the tasks, one line each.
    pub fn get_formatted_tasks(&self) -> (formatted_output: String)
        ensures
            formatted_output@ == display_text(task_views(self.tasks@)),
    {
        let mut formatted_output = String::new();
        let mut index: usize = 0;
        while index < self.tasks.len()
            invariant
                index <= self.tasks@.len(),
                formatted_output@ == display_text(task_views(self.tasks@.take(index as int))),
            decreases self.tasks@.len() - index,
        {
            let formatted = format_task_for_display(&self.tasks[index], index);
            formatted_output.append(formatted.as_str());
            proof {
                let before = task_views(self.tasks@.take(index as int));
                let now = task_views(self.tasks@.take(index + 1));
                assert(now.drop_last() =~= before);
                assert(now.last() == self.tasks@[index as int]@);
            }
            index += 1;
        }
        assert(self.tasks@.take(index as int) =~= self.tasks@);
        formatted_output
    }

    /// A list without tasks for `date`.
    pub fn empty(date: &'a TuduDate) -> (list: TaskList<'a>)
        ensures
            list.date == date,
            list.tasks@ == Seq::<Task>::empty(),
    {
        TaskList { tasks: Vec::new(), date }
    }

    /// The file that holds this list: its name, and its text with one line
    /// for each task.
    pub fn write_to_file(&self) -> (file: TaskFile)
        ensures
            file.name@ == filename_of(*self.date),
            file.contents@ == file_text(task_views(self.tasks@)),
    {
        TaskFile { name: self.date.to_filename(), contents: render_tasks(&self.tasks) }
    }
}

} // verus!
