//! The failures that the task tracker reports, and the message shown for each.

use vstd::prelude::*;
use vstd::string::*;

verus! {

#[derive(Debug, PartialEq, Eq)]
pub enum TuduError {
    InvalidDate,
    InvalidArguments(String),
    InvalidIndex,
    InvalidState,
    InvalidCommand,
    NoTaskFile,
    FailedToReadFile,
    FailedToWriteFile,
    BadTaskFormat,
    InvalidTaskDirectory,
    FailedToMakeDirectory,
}

/// A `TuduError` with its text as a sequence of characters.
pub enum ErrorView {
    InvalidDate,
    InvalidArguments(Seq<char>),
    InvalidIndex,
    InvalidState,
    InvalidCommand,
    NoTaskFile,
    FailedToReadFile,
    FailedToWriteFile,
    BadTaskFormat,
    InvalidTaskDirectory,
    FailedToMakeDirectory,
}

impl View for TuduError {
    type V = ErrorView;

    open spec fn view(&self) -> ErrorView {
        match *self {
            TuduError::InvalidDate => ErrorView::InvalidDate,
            TuduError::InvalidArguments(detail) => ErrorView::InvalidArguments(detail@),
            TuduError::InvalidIndex => ErrorView::InvalidIndex,
            TuduError::InvalidState => ErrorView::InvalidState,
            TuduError::InvalidCommand => ErrorView::InvalidCommand,
            TuduError::NoTaskFile => ErrorView::NoTaskFile,
            TuduError::FailedToReadFile => ErrorView::FailedToReadFile,
            TuduError::FailedToWriteFile => ErrorView::FailedToWriteFile,
            TuduError::BadTaskFormat => ErrorView::BadTaskFormat,
            TuduError::InvalidTaskDirectory => ErrorView::InvalidTaskDirectory,
            TuduError::FailedToMakeDirectory => ErrorView::FailedToMakeDirectory,
        }
    }
}

/// The one line shown to the user for each failure.
pub open spec fn message_of(error: ErrorView) -> Seq<char> {
    match error {
        ErrorView::InvalidDate => "The date entered is not a valid date, enter a date in the form of 10-6-2023, or 13-2"@,
        ErrorView::InvalidArguments(detail) => "Invalid argument: "@ + detail,
        ErrorView::InvalidIndex => "The index entered does not exist for this date"@,
        ErrorView::InvalidState => "The state entered is not valid, see tudu help for more info"@,
        ErrorView::InvalidCommand => "The command enetered is not valid, see tudu help for more info"@,
        ErrorView::NoTaskFile => "No task file found, if using TUDU_TASKS env variable make sure the folder exists"@,
        ErrorView::FailedToReadFile => "Failed to read file, make sure it has the correct permissions"@,
        ErrorView::FailedToWriteFile => "Failed to write tasks to file, make sure the folder has the correct permissions"@,
        ErrorView::BadTaskFormat => "The tasks file was in a bad format"@,
        ErrorView::InvalidTaskDirectory => "The directory specified in TUDU_TASKS is not valid or does not exist"@,
        ErrorView::FailedToMakeDirectory => "Failed to create directory, check the permissions for HOME directory"@,
    }
}

impl TuduError {
    /// The message to show for this failure.
    pub fn user_message(&self) -> (message: String)
        ensures
            message@ == message_of(self@),
    {
        match self {
            TuduError::InvalidDate => String::from_str(
                "The date entered is not a valid date, enter a date in the form of 10-6-2023, or 13-2",
            ),
            TuduError::InvalidArguments(detail) => {
                let mut message = String::from_str("Invalid argument: ");
                message.append(detail.as_str());
                message
            },
            TuduError::InvalidIndex => String::from_str(
                "The index entered does not exist for this date",
            ),
            TuduError::InvalidState => String::from_str(
                "The state entered is not valid, see tudu help for more info",
            ),
            TuduError::InvalidCommand => String::from_str(
                "The command enetered is not valid, see tudu help for more info",
            ),
            TuduError::NoTaskFile => String::from_str(
                "No task file found, if using TUDU_TASKS env variable make sure the folder exists",
            ),
            TuduError::FailedToReadFile => String::from_str(
                "Failed to read file, make sure it has the correct permissions",
            ),
            TuduError::FailedToWriteFile => String::from_str(
                "Failed to write tasks to file, make sure the folder has the correct permissions",
            ),
            TuduError::BadTaskFormat => String::from_str("The tasks file was in a bad format"),
            TuduError::InvalidTaskDirectory => String::from_str(
                "The directory specified in TUDU_TASKS is not valid or does not exist",
            ),
            TuduError::FailedToMakeDirectory => String::from_str(
                "Failed to create directory, check the permissions for HOME directory",
            ),
        }
    }
}

} // verus!
