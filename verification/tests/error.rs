use tudu::TuduError;

#[test]
fn every_failure_has_its_message() {
    let all = [
        (
            TuduError::InvalidDate,
            "The date entered is not a valid date, enter a date in the form of 10-6-2023, or 13-2",
        ),
        (TuduError::InvalidArguments(String::from("detail")), "Invalid argument: detail"),
        (TuduError::InvalidArguments(String::new()), "Invalid argument: "),
        (TuduError::InvalidIndex, "The index entered does not exist for this date"),
        (TuduError::InvalidState, "The state entered is not valid, see tudu help for more info"),
        (
            TuduError::InvalidCommand,
            "The command enetered is not valid, see tudu help for more info",
        ),
        (
            TuduError::NoTaskFile,
            "No task file found, if using TUDU_TASKS env variable make sure the folder exists",
        ),
        (
            TuduError::FailedToReadFile,
            "Failed to read file, make sure it has the correct permissions",
        ),
        (
            TuduError::FailedToWriteFile,
            "Failed to write tasks to file, make sure the folder has the correct permissions",
        ),
        (TuduError::BadTaskFormat, "The tasks file was in a bad format"),
        (
            TuduError::InvalidTaskDirectory,
            "The directory specified in TUDU_TASKS is not valid or does not exist",
        ),
        (
            TuduError::FailedToMakeDirectory,
            "Failed to create directory, check the permissions for HOME directory",
        ),
    ];
    for (error, message) in all {
        assert_eq!(error.user_message(), message);
    }
}
