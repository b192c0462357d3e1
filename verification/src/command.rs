//! From the words of a command line to a command.

use crate::date::{date_text_of, DateText, TuduDate};
use crate::error::{ErrorView, TuduError};
use crate::model::{
    parse_state, state_of_code, AddCommand, Command, CommandView, EditCommand, RemoveCommand,
    SetCommand, TaskState, ViewCommand,
};
use crate::text::{bounded_number, chars_of, parse_number};
use vstd::prelude::*;
use vstd::string::*;

verus! {

/// What the words of a command line ask for, with each date as written:
/// a command before the clock is consulted.
pub enum CommandPlan {
    Add { task: Seq<char>, date: Option<DateText> },
    Remove { index: usize, date: Option<DateText> },
    SetState { index: usize, date: Option<DateText>, state: TaskState },
    Edit { index: usize, task: Seq<char> },
    View { day: DateText },
}

/// Whether `date` can stand for the optional date text `text`.
pub open spec fn admits_optional(text: Option<DateText>, date: Option<TuduDate>) -> bool {
    match text {
        None => date is None,
        Some(t) => date matches Some(d) && t.admits(d),
    }
}

impl CommandPlan {
    /// Whether `command` is this plan with its date settled by a clock.
    pub open spec fn admits(self, command: CommandView) -> bool {
        match self {
            CommandPlan::Add { task, date } => command matches CommandView::Add {
                task: t,
                date: d,
            } && t == task && admits_optional(date, d),
            CommandPlan::Remove { index, date } => command matches CommandView::Remove {
                index: i,
                date: d,
            } && i == index && admits_optional(date, d),
            CommandPlan::SetState { index, date, state } => command matches CommandView::SetState {
                index: i,
                date: d,
                state: s,
            } && i == index && s == state && admits_optional(date, d),
            CommandPlan::Edit { index, task } => command == (CommandView::Edit { index, task }),
            CommandPlan::View { day } => command matches CommandView::View { day: d }
                && day.admits(d),
        }
    }
}

/// Whether `r` is what parsing gives for `plan`: the failure, or a command
/// that the plan admits.
pub open spec fn parsed_as(plan: Result<CommandPlan, ErrorView>, r: Result<Command, TuduError>) -> bool {
    match plan {
        Ok(p) => r matches Ok(command) && p.admits(command@),
        Err(e) => r matches Err(err) && err@ == e,
    }
}

/// The texts of a sequence of words.
pub open spec fn arg_texts(args: Seq<String>) -> Seq<Seq<char>> {
    args.map_values(|s: String| s@)
}

pub open spec fn add_usage() -> Seq<char> {
    "`add` accepts a task, e.g. \"Example task\", and an optional date, e.g. 10-6-2023"@
}

pub open spec fn remove_usage() -> Seq<char> {
    "`remove` accepts a task number and an optional date e.g. 10-6-2023"@
}

pub open spec fn set_usage() -> Seq<char> {
    "`set` accepts a task number and a task state, for states see `tudu help`"@
}

pub open spec fn set_date_usage() -> Seq<char> {
    "`set` accepts a task number, a task state, and an optional date, e.g. 10-6-2023. For states see `tudu help`"@
}

pub open spec fn complete_usage() -> Seq<char> {
    "`complete` accepts a task number and an optional date, e.g. 10-6-2023"@
}

pub open spec fn edit_usage() -> Seq<char> {
    "`edit` accepts a task number and the new task description"@
}

pub open spec fn view_usage() -> Seq<char> {
    "`view` accepts a date, e.g. 10-6-2023"@
}

/// The task number that a word writes: a number that the machine can hold.
pub open spec fn index_of_text(text: Seq<char>) -> Option<usize> {
    match bounded_number(text, usize::MAX as nat) {
        Some(n) => Some(n as usize),
        None => None,
    }
}

/// The optional date at the end of a command: absent where the words end at
/// `at`, else the word at `at` read as a date text.
pub open spec fn date_at(args: Seq<Seq<char>>, at: int) -> Result<Option<DateText>, ErrorView> {
    if args.len() <= at {
        Ok(None)
    } else {
        match date_text_of(args[at]) {
            Some(text) => Ok(Some(text)),
            None => Err(ErrorView::InvalidDate),
        }
    }
}

/// `add <task> [date]`.
pub open spec fn add_plan(args: Seq<Seq<char>>) -> Result<CommandPlan, ErrorView> {
    if args.len() == 1 || args.len() == 2 {
        match date_at(args, 1) {
            Ok(date) => Ok(CommandPlan::Add { task: args[0], date }),
            Err(e) => Err(e),
        }
    } else {
        Err(ErrorView::InvalidArguments(add_usage()))
    }
}

/// `remove <index> [date]`. The index is looked at before the number of
/// words.
pub open spec fn remove_plan(args: Seq<Seq<char>>) -> Result<CommandPlan, ErrorView> {
    if args.len() == 0 {
        Err(ErrorView::InvalidArguments(remove_usage()))
    } else {
        match index_of_text(args[0]) {
            None => Err(ErrorView::InvalidIndex),
            Some(index) => if args.len() <= 2 {
                match date_at(args, 1) {
                    Ok(date) => Ok(CommandPlan::Remove { index, date }),
                    Err(e) => Err(e),
                }
            } else {
                Err(ErrorView::InvalidArguments(remove_usage()))
            },
        }
    }
}

/// `set <index> <state> [date]`. Index and state are looked at, in that
/// order, before the number of words.
pub open spec fn set_plan(args: Seq<Seq<char>>) -> Result<CommandPlan, ErrorView> {
    if args.len() == 0 {
        Err(ErrorView::InvalidArguments(set_usage()))
    } else {
        match index_of_text(args[0]) {
            None => Err(ErrorView::InvalidIndex),
            Some(index) => if args.len() == 1 {
                Err(ErrorView::InvalidArguments(set_usage()))
            } else {
                match state_of_code(args[1]) {
                    None => Err(ErrorView::InvalidState),
                    Some(state) => if args.len() <= 3 {
                        match date_at(args, 2) {
                            Ok(date) => Ok(CommandPlan::SetState { index, date, state }),
                            Err(e) => Err(e),
                        }
                    } else {
                        Err(ErrorView::InvalidArguments(set_date_usage()))
                    },
                }
            },
        }
    }
}

/// `complete <index> [date]`: `set` with the state of a finished task.
pub open spec fn complete_plan(args: Seq<Seq<char>>) -> Result<CommandPlan, ErrorView> {
    if args.len() == 0 {
        Err(ErrorView::InvalidArguments(complete_usage()))
    } else {
        match index_of_text(args[0]) {
            None => Err(ErrorView::InvalidIndex),
            Some(index) => if args.len() <= 2 {
                match date_at(args, 1) {
                    Ok(date) => Ok(
                        CommandPlan::SetState { index, date, state: TaskState::Complete },
                    ),
                    Err(e) => Err(e),
                }
            } else {
                Err(ErrorView::InvalidArguments(complete_usage()))
            },
        }
    }
}

/// `edit <index> <new task text>`.
pub open spec fn edit_plan(args: Seq<Seq<char>>) -> Result<CommandPlan, ErrorView> {
    if args.len() != 2 {
        Err(ErrorView::InvalidArguments(edit_usage()))
    } else {
        match index_of_text(args[0]) {
            None => Err(ErrorView::InvalidArguments(edit_usage())),
            Some(index) => Ok(CommandPlan::Edit { index, task: args[1] }),
        }
    }
}

/// `view <date>`.
pub open spec fn view_plan(args: Seq<Seq<char>>) -> Result<CommandPlan, ErrorView> {
    if args.len() != 1 {
        Err(ErrorView::InvalidArguments(view_usage()))
    } else {
        match date_text_of(args[0]) {
            Some(day) => Ok(CommandPlan::View { day }),
            None => Err(ErrorView::InvalidDate),
        }
    }
}

/// What a whole command line asks for. The first word is the program's
/// name; alone it asks for today's tasks. The second word names the command,
/// the rest are its arguments.
pub open spec fn command_plan(args: Seq<Seq<char>>) -> Result<CommandPlan, ErrorView> {
    if args.len() == 1 {
        Ok(CommandPlan::View { day: DateText::Today })
    } else if args.len() == 0 {
        Err(ErrorView::InvalidCommand)
    } else if args[1] == "add"@ {
        add_plan(args.skip(2))
    } else if args[1] == "remove"@ {
        remove_plan(args.skip(2))
    } else if args[1] == "set"@ {
        set_plan(args.skip(2))
    } else if args[1] == "complete"@ {
        complete_plan(args.skip(2))
    } else if args[1] == "view"@ {
        view_plan(args.skip(2))
    } else if args[1] == "edit"@ {
        edit_plan(args.skip(2))
    } else {
        Err(ErrorView::InvalidCommand)
    }
}

/// Reads a task number.
pub fn parse_index(text: &str) -> (r: Option<usize>)
    ensures
        r == index_of_text(text@),
{
    let chars = chars_of(text);
    assert(chars@.subrange(0, chars@.len() as int) =~= text@);
    match parse_number(&chars, 0, chars.len(), usize::MAX as u64) {
        Some(n) => Some(n as usize),
        None => None,
    }
}

/// Reads the optional date that ends a command.
fn parse_date_at(args: &Vec<String>, at: usize) -> (r: Result<Option<TuduDate>, TuduError>)
    ensures
        match date_at(arg_texts(args@), at as int) {
            Ok(text) => r matches Ok(date) && admits_optional(text, date),
            Err(e) => r matches Err(err) && err@ == e,
        },
{
    if args.len() <= at {
        Ok(None)
    } else {
        match TuduDate::from_date(args[at].as_str()) {
            Ok(date) => Ok(Some(date)),
            Err(err) => Err(err),
        }
    }
}

/// Reads the arguments of `add`: a task, then an optional date.
pub fn parse_add_command(args: Vec<String>) -> (r: Result<Command, TuduError>)
    ensures
        parsed_as(add_plan(arg_texts(args@)), r),
{
    if args.len() == 1 || args.len() == 2 {
        match parse_date_at(&args, 1) {
            Ok(date) => Ok(Command::Add(AddCommand { task: args[0].clone(), date })),
            Err(err) => Err(err),
        }
    } else {
        Err(
            TuduError::InvalidArguments(
                String::from_str(
                    "`add` accepts a task, e.g. \"Example task\", and an optional date, e.g. 10-6-2023",
                ),
            ),
        )
    }
}

/// Reads the arguments of `remove`: a task number, then an optional date.
pub fn parse_remove_command(args: Vec<String>) -> (r: Result<Command, TuduError>)
    ensures
        parsed_as(remove_plan(arg_texts(args@)), r),
{
    if args.len() == 0 {
        return Err(
            TuduError::InvalidArguments(
                String::from_str("`remove` accepts a task number and an optional date e.g. 10-6-2023"),
            ),
        );
    }
    let index = match parse_index(args[0].as_str()) {
        Some(index) => index,
        None => return Err(TuduError::InvalidIndex),
    };
    if args.len() <= 2 {
        match parse_date_at(&args, 1) {
            Ok(date) => Ok(Command::Remove(RemoveCommand { index, date })),
            Err(err) => Err(err),
        }
    } else {
        Err(
            TuduError::InvalidArguments(
                String::from_str("`remove` accepts a task number and an optional date e.g. 10-6-2023"),
            ),
        )
    }
}

/// Reads the arguments of `set`: a task number, the letter of a state, then
/// an optional date.
pub fn parse_set_command(args: Vec<String>) -> (r: Result<Command, TuduError>)
    ensures
        parsed_as(set_plan(arg_texts(args@)), r),
{
    if args.len() == 0 {
        return Err(
            TuduError::InvalidArguments(
                String::from_str(
                    "`set` accepts a task number and a task state, for states see `tudu help`",
                ),
            ),
        );
    }
    let index = match parse_index(args[0].as_str()) {
        Some(index) => index,
        None => return Err(TuduError::InvalidIndex),
    };
    if args.len() == 1 {
        return Err(
            TuduError::InvalidArguments(
                String::from_str(
                    "`set` accepts a task number and a task state, for states see `tudu help`",
                ),
            ),
        );
    }
    let state = match parse_state(args[1].as_str()) {
        Some(state) => state,
        None => return Err(TuduError::InvalidState),
    };
    if args.len() <= 3 {
        match parse_date_at(&args, 2) {
            Ok(date) => Ok(Command::SetState(SetCommand { index, state, date })),
            Err(err) => Err(err),
        }
    } else {
        Err(
            TuduError::InvalidArguments(
                String::from_str(
                    "`set` accepts a task number, a task state, and an optional date, e.g. 10-6-2023. For states see `tudu help`",
                ),
            ),
        )
    }
}

/// Reads the arguments of `complete`: a task number, then an optional date.
pub fn parse_complete_command(args: Vec<String>) -> (r: Result<Command, TuduError>)
    ensures
        parsed_as(complete_plan(arg_texts(args@)), r),
{
    if args.len() == 0 {
        return Err(
            TuduError::InvalidArguments(
                String::from_str(
                    "`complete` accepts a task number and an optional date, e.g. 10-6-2023",
                ),
            ),
        );
    }
    let index = match parse_index(args[0].as_str()) {
        Some(index) => index,
        None => return Err(TuduError::InvalidIndex),
    };
    if args.len() <= 2 {
        match parse_date_at(&args, 1) {
            Ok(date) => Ok(
                Command::SetState(SetCommand { index, date, state: TaskState::Complete }),
            ),
            Err(err) => Err(err),
        }
    } else {
        Err(
            TuduError::InvalidArguments(
                String::from_str(
                    "`complete` accepts a task number and an optional date, e.g. 10-6-2023",
                ),
            ),
        )
    }
}

/// Reads the arguments of `edit`: a task number and the new description.
pub fn parse_edit_command(args: Vec<String>) -> (r: Result<Command, TuduError>)
    ensures
        parsed_as(edit_plan(arg_texts(args@)), r),
{
    if args.len() != 2 {
        return Err(
            TuduError::InvalidArguments(
                String::from_str("`edit` accepts a task number and the new task description"),
            ),
        );
    }
    match parse_index(args[0].as_str()) {
        Some(index) => Ok(Command::Edit(EditCommand { index, task: args[1].clone() })),
        None => Err(
            TuduError::InvalidArguments(
                String::from_str("`edit` accepts a task number and the new task description"),
            ),
        ),
    }
}

/// Reads the argument of `view`: a date.
pub fn parse_view_command(args: Vec<String>) -> (r: Result<Command, TuduError>)
    ensures
        parsed_as(view_plan(arg_texts(args@)), r),
{
    if args.len() != 1 {
        return Err(
            TuduError::InvalidArguments(String::from_str("`view` accepts a date, e.g. 10-6-2023")),
        );
    }
    match TuduDate::from_date(args[0].as_str()) {
        Ok(date) => Ok(Command::View(ViewCommand { date })),
        Err(err) => Err(err),
    }
}

/// The words from position `from` on.
fn words_from(args: &Vec<String>, from: usize) -> (rest: Vec<String>)
    requires
        from <= args.len(),
    ensures
        rest@ == args@.skip(from as int),
{
    let mut rest: Vec<String> = Vec::new();
    let mut i: usize = from;
    while i < args.len()
        invariant
            from <= i <= args@.len(),
            rest@ == args@.subrange(from as int, i as int),
        decreases args@.len() - i,
    {
        rest.push(args[i].clone());
        assert(rest@ =~= args@.subrange(from as int, i + 1));
        i += 1;
    }
    assert(rest@ =~= args@.skip(from as int));
    rest
}

/// Reads a command from the words of a command line, the program's name
/// first.
pub fn parse_command(args: Vec<String>) -> (r: Result<Command, TuduError>)
    ensures
        parsed_as(command_plan(arg_texts(args@)), r),
{
    if args.len() == 1 {
        return Ok(Command::View(ViewCommand { date: TuduDate::today() }));
    }
    if args.len() == 0 {
        return Err(TuduError::InvalidCommand);
    }
    let rest = words_from(&args, 2);
    assert(arg_texts(rest@) =~= arg_texts(args@).skip(2));
    let name = &args[1];
    assert(arg_texts(args@)[1] == name@);
    if *name == String::from_str("add") {
        parse_add_command(rest)
    } else if *name == String::from_str("remove") {
        parse_remove_command(rest)
    } else if *name == String::from_str("set") {
        parse_set_command(rest)
    } else if *name == String::from_str("complete") {
        parse_complete_command(rest)
    } else if *name == String::from_str("view") {
        parse_view_command(rest)
    } else if *name == String::from_str("edit") {
        parse_edit_command(rest)
    } else {
        Err(TuduError::InvalidCommand)
    }
}

} // verus!
