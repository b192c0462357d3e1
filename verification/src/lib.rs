//! A daily task tracker: tasks are kept per calendar day, one text file a
//! day, and changed from the command line.
//!
//! The library reads commands and dates, changes the list of a day's tasks,
//! and turns it into the text of its file and back. Reading and writing the
//! files is left to the program around it.

pub mod command;
pub mod date;
pub mod error;
pub mod execute;
pub mod model;
pub mod storage;
pub mod text;

pub use command::{
    parse_add_command, parse_command, parse_complete_command, parse_edit_command,
    parse_remove_command, parse_set_command, parse_view_command,
};
pub use date::{is_relative_date, is_valid_date, DateText, LocalDay, TuduDate};
pub use error::TuduError;
pub use execute::{
    execute_add, execute_command, execute_edit, execute_help, execute_remove, execute_set,
    execute_view, is_help_request, Execution,
};
pub use model::{
    format_task_for_display, parse_state, AddCommand, Command, EditCommand, RemoveCommand,
    SetCommand, Task, TaskFile, TaskList, TaskState, ViewCommand,
};
pub use storage::{parse_task_line, parse_tasks_from_contents, render_tasks};
