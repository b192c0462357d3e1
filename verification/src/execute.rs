//! Carrying out a command on the tasks of its day.
//!
//! Nothing here touches a file or the screen. A command is carried out on
//! what reading the day's file gave, and the result says what to write back
//! and what to show.

use crate::date::{clock_day, filename_of, TuduDate};
use crate::error::{ErrorView, TuduError};
use crate::model::{
    display_text, loaded_tasks, task_views, AddCommand, Command, CommandView, EditCommand, RemoveCommand,
    FileView, SetCommand, Task, TaskFile, TaskList, TaskState, TaskView, ViewCommand,
};
use crate::storage::file_text;
use vstd::prelude::*;
use vstd::string::*;

verus! {

/// What carrying out a command leads to: the file to write, if the tasks
/// changed, and the listing to show.
#[derive(Debug, PartialEq, Eq)]
pub struct Execution {
    pub save: Option<TaskFile>,
    pub output: String,
}

/// An `Execution` with its texts as sequences of characters.
pub struct ExecutionView {
    pub save: Option<FileView>,
    pub output: Seq<char>,
}

impl View for Execution {
    type V = ExecutionView;

    open spec fn view(&self) -> ExecutionView {
        ExecutionView {
            save: match self.save {
                Some(file) => Some(file@),
                None => None,
            },
            output: self.output@,
        }
    }
}

/// The tasks after a command. Positions are counted from 1; one outside
/// the list is a failure.
pub open spec fn changed_tasks(command: CommandView, tasks: Seq<TaskView>) -> Result<
    Seq<TaskView>,
    ErrorView,
> {
    match command {
        CommandView::Add { task, date } => Ok(
            tasks.push(TaskView { description: task, state: TaskState::NotStarted }),
        ),
        CommandView::Remove { index, date } => if 1 <= index <= tasks.len() {
            Ok(tasks.remove(index - 1))
        } else {
            Err(ErrorView::InvalidIndex)
        },
        CommandView::SetState { index, date, state } => if 1 <= index <= tasks.len() {
            Ok(tasks.update(index - 1, TaskView { description: tasks[index - 1].description, state }))
        } else {
            Err(ErrorView::InvalidIndex)
        },
        CommandView::Edit { index, task } => if 1 <= index <= tasks.len() {
            Ok(tasks.update(index - 1, TaskView { description: task, state: tasks[index - 1].state }))
        } else {
            Err(ErrorView::InvalidIndex)
        },
        CommandView::View { day } => Ok(tasks),
    }
}

/// What carrying out `command` on the day `date` leads to, where reading the
/// day's file gave `file`: the tasks are loaded and changed; every command
/// but `View` has them written back; the listing shows them as they are then.
pub open spec fn executed(command: CommandView, date: TuduDate, file: Result<String, TuduError>) -> Result<
    ExecutionView,
    ErrorView,
> {
    match loaded_tasks(file) {
        Err(e) => Err(e),
        Ok(tasks) => match changed_tasks(command, tasks) {
            Err(e) => Err(e),
            Ok(after) => Ok(
                ExecutionView {
                    save: if command is View {
                        None
                    } else {
                        Some(FileView { name: filename_of(date), contents: file_text(after) })
                    },
                    output: display_text(after),
                },
            ),
        },
    }
}

/// Whether `r` is the outcome `expected`.
pub open spec fn outcome_is(expected: Result<ExecutionView, ErrorView>, r: Result<Execution, TuduError>) -> bool {
    match expected {
        Ok(v) => r matches Ok(e) && e@ == v,
        Err(x) => r matches Err(err) && err@ == x,
    }
}

/// The date that a command names itself, if it names one.
pub open spec fn named_date(command: CommandView) -> Option<TuduDate> {
    match command {
        CommandView::Add { task, date } => date,
        CommandView::Remove { index, date } => date,
        CommandView::SetState { index, date, state } => date,
        CommandView::Edit { index, task } => None,
        CommandView::View { day } => Some(day),
    }
}

impl Command {
    /// The day whose tasks the command is about: the date it names, else the
    /// day that the local clock shows.
    pub fn target_date(&self) -> (date: TuduDate)
        ensures
            match named_date(self@) {
                Some(named) => date == named,
                None => clock_day(date),
            },
    {
        let named = match self {
            Command::Add(config) => config.date,
            Command::Remove(config) => config.date,
            Command::SetState(config) => config.date,
            Command::Edit(_) => None,
            Command::View(config) => Some(config.date),
        };
        match named {
            Some(date) => date,
            None => TuduDate::today(),
        }
    }
}

/// Writes the list back and shows it.
fn saved_and_shown(task_list: &TaskList) -> (e: Execution)
    ensures
        e@ == (ExecutionView {
            save: Some(
                FileView {
                    name: filename_of(*task_list.date),
                    contents: file_text(task_views(task_list.tasks@)),
                },
            ),
            output: display_text(task_views(task_list.tasks@)),
        }),
{
    Execution { save: Some(task_list.write_to_file()), output: task_list.get_formatted_tasks() }
}

/// Carries out `command` on the tasks of the day `date`, which is the day
/// that `target_date` gives for it; `file` is what reading that day's file
/// gave.
pub fn execute_command(command: Command, date: &TuduDate, file: Result<String, TuduError>) -> (r:
    Result<Execution, TuduError>)
    ensures
        outcome_is(executed(command@, *date, file), r),
{
    match command {
        Command::Add(config) => execute_add(config, date, file),
        Command::Remove(config) => execute_remove(config, date, file),
        Command::SetState(config) => execute_set(config, date, file),
        Command::Edit(config) => execute_edit(config, date, file),
        Command::View(config) => execute_view(config, date, file),
    }
}

/// Adds a task that is not started to the end of the day's list.
pub fn execute_add(config: AddCommand, date: &TuduDate, file: Result<String, TuduError>) -> (r:
    Result<Execution, TuduError>)
    ensures
        outcome_is(executed(Command::Add(config)@, *date, file), r),
{
    let new_task = Task::new(config.task, TaskState::NotStarted);
    let mut task_list = match TaskList::for_date(date, file) {
        Ok(task_list) => task_list,
        Err(err) => return Err(err),
    };
    let ghost before = task_views(task_list.tasks@);
    task_list.add_task(new_task);
    assert(task_views(task_list.tasks@) =~= before.push(new_task@));
    Ok(saved_and_shown(&task_list))
}

/// Takes the task at the index out of the day's list.
pub fn execute_remove(config: RemoveCommand, date: &TuduDate, file: Result<String, TuduError>) -> (r:
    Result<Execution, TuduError>)
    ensures
        outcome_is(executed(Command::Remove(config)@, *date, file), r),
{
    let mut task_list = match TaskList::for_date(date, file) {
        Ok(task_list) => task_list,
        Err(err) => return Err(err),
    };
    let ghost before = task_views(task_list.tasks@);
    match task_list.remove_task(config.index) {
        Ok(_) => {},
        Err(err) => return Err(err),
    }
    assert(task_views(task_list.tasks@) =~= before.remove(config.index - 1));
    Ok(saved_and_shown(&task_list))
}

/// Gives the task at the index its new state.
pub fn execute_set(config: SetCommand, date: &TuduDate, file: Result<String, TuduError>) -> (r:
    Result<Execution, TuduError>)
    ensures
        outcome_is(executed(Command::SetState(config)@, *date, file), r),
{
    let mut task_list = match TaskList::for_date(date, file) {
        Ok(task_list) => task_list,
        Err(err) => return Err(err),
    };
    let ghost before = task_views(task_list.tasks@);
    match task_list.set_task_state(config.index, config.state) {
        Ok(_) => {},
        Err(err) => return Err(err),
    }
    assert(task_views(task_list.tasks@) =~= before.update(
        config.index - 1,
        TaskView { description: before[config.index - 1].description, state: config.state },
    ));
    Ok(saved_and_shown(&task_list))
}

/// Gives the task at the index its new description.
pub fn execute_edit(config: EditCommand, date: &TuduDate, file: Result<String, TuduError>) -> (r:
    Result<Execution, TuduError>)
    ensures
        outcome_is(executed(Command::Edit(config)@, *date, file), r),
{
    let mut task_list = match TaskList::for_date(date, file) {
        Ok(task_list) => task_list,
        Err(err) => return Err(err),
    };
    let ghost before = task_views(task_list.tasks@);
    let ghost text = config.task@;
    match task_list.edit_task(config.index, config.task) {
        Ok(_) => {},
        Err(err) => return Err(err),
    }
    assert(task_views(task_list.tasks@) =~= before.update(
        config.index - 1,
        TaskView { description: text, state: before[config.index - 1].state },
    ));
    Ok(saved_and_shown(&task_list))
}

/// Shows the day's list and leaves its file alone.
pub fn execute_view(config: ViewCommand, date: &TuduDate, file: Result<String, TuduError>) -> (r:
    Result<Execution, TuduError>)
    ensures
        outcome_is(executed(Command::View(config)@, *date, file), r),
{
    let task_list = match TaskList::for_date(date, file) {
        Ok(task_list) => task_list,
        Err(err) => return Err(err),
    };
    Ok(Execution { save: None, output: task_list.get_formatted_tasks() })
}

/// The summary of commands, dates and states that `help` shows.
pub open spec fn help_text() -> Seq<char> {
    "Commands:\n`tudu` - see the tasks for today\n`tudu view [date]` - see tasks on given date\n`tudu add [task] *[date]` - add specified task on optional date\n`tudu set [index] [state] *[date]` - set specified task to provided state on optional date\n`tudu complete [index] *[date]` - mark specified task as complete on optional date\n`tudu edit [index] [task]` - edit specified task of today to new task description\n`tudu remove [index] *[date]` - remove specified task on optional date\n\nDates:\nDates can be written in the form 10-6-2023, 10-6 which uses the current year, or with relative date commands `yesterday/today/tomorrow`.\nIf a date is optional in a command and was not specified the command will use the current date\n\nStates:\n◯ - [N]ot started\n◐ - [S]tarted\n● - [C]ompleted\n► - Carry [F]orward\nx - [X] Not doing\n"@
}

/// Whether the command line asks for the summary: its second word is `help`.
pub open spec fn asks_for_help(args: Seq<Seq<char>>) -> bool {
    args.len() >= 2 && args[1] == "help"@
}

/// Whether the command line asks for the summary of commands.
pub fn is_help_request(args: &Vec<String>) -> (r: bool)
    ensures
        r == asks_for_help(args@.map_values(|s: String| s@)),
{
    args.len() >= 2 && args[1] == String::from_str("help")
}

/// The summary of commands, dates and states.
pub fn execute_help() -> (text: String)
    ensures
        text@ == help_text(),
{
    String::from_str(
        "Commands:\n`tudu` - see the tasks for today\n`tudu view [date]` - see tasks on given date\n`tudu add [task] *[date]` - add specified task on optional date\n`tudu set [index] [state] *[date]` - set specified task to provided state on optional date\n`tudu complete [index] *[date]` - mark specified task as complete on optional date\n`tudu edit [index] [task]` - edit specified task of today to new task description\n`tudu remove [index] *[date]` - remove specified task on optional date\n\nDates:\nDates can be written in the form 10-6-2023, 10-6 which uses the current year, or with relative date commands `yesterday/today/tomorrow`.\nIf a date is optional in a command and was not specified the command will use the current date\n\nStates:\n◯ - [N]ot started\n◐ - [S]tarted\n● - [C]ompleted\n► - Carry [F]orward\nx - [X] Not doing\n",
    )
}

} // verus!
