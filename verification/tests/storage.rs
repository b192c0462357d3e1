use tudu::{parse_task_line, parse_tasks_from_contents, render_tasks, Task, TaskState, TuduError};

/// The description of the first task of the sample file.
fn started() -> String {
    ["This", "task", "is", "started"].join(" ")
}

#[test]
fn parse_task_file_creates_correct_state() {
    let contents = format!(
        "S,{}
C,This one is completed
X,Didn't like this one
F,This one's for later
N,Patience is a virtue
",
        started()
    );

    let expected_tasks = vec![
        Task::new(started(), TaskState::Started),
        Task::new(String::from("This one is completed"), TaskState::Complete),
        Task::new(String::from("Didn't like this one"), TaskState::Ignored),
        Task::new(String::from("This one's for later"), TaskState::Forwarded),
        Task::new(String::from("Patience is a virtue"), TaskState::NotStarted),
    ];

    let tasks = parse_tasks_from_contents(&contents).unwrap();

    assert_eq!(tasks, expected_tasks);
}

#[test]
fn parse_task_line_creates_correct_task() {
    let line = format!("S,{}", started());

    let expected_task = Task::new(started(), TaskState::Started);

    let task = parse_task_line(&line).unwrap();

    assert_eq!(task, expected_task);
}

#[test]
fn write_tasks_to_file_writes_with_correct_format() {
    let tasks = vec![
        Task::new(started(), TaskState::Started),
        Task::new(String::from("This one is completed"), TaskState::Complete),
        Task::new(String::from("Didn't like this one"), TaskState::Ignored),
        Task::new(String::from("This one's for later"), TaskState::Forwarded),
        Task::new(String::from("Patience is a virtue"), TaskState::NotStarted),
    ];

    let expected_contents = format!(
        "S,{}
C,This one is completed
X,Didn't like this one
F,This one's for later
N,Patience is a virtue
",
        started()
    );

    let contents = render_tasks(&tasks);

    assert_eq!(contents, expected_contents);
}

#[test]
fn parse_task_line_wants_exactly_one_comma() {
    assert_eq!(parse_task_line(""), Err(TuduError::BadTaskFormat));
    assert_eq!(parse_task_line("S"), Err(TuduError::BadTaskFormat));
    assert_eq!(parse_task_line("S task"), Err(TuduError::BadTaskFormat));
    assert_eq!(parse_task_line("S,a,b"), Err(TuduError::BadTaskFormat));
    assert_eq!(parse_task_line("S,,"), Err(TuduError::BadTaskFormat));
    assert_eq!(parse_task_line(",,"), Err(TuduError::BadTaskFormat));
    assert_eq!(parse_task_line("Q,a,b"), Err(TuduError::BadTaskFormat));
}

#[test]
fn parse_task_line_wants_the_letter_of_a_state() {
    assert_eq!(parse_task_line("Q,task"), Err(TuduError::FailedToReadFile));
    assert_eq!(parse_task_line(",task"), Err(TuduError::FailedToReadFile));
    assert_eq!(parse_task_line("s,task"), Err(TuduError::FailedToReadFile));
    assert_eq!(parse_task_line("SS,task"), Err(TuduError::FailedToReadFile));
    assert_eq!(parse_task_line(" S,task"), Err(TuduError::FailedToReadFile));
    assert_eq!(parse_task_line("◐,task"), Err(TuduError::FailedToReadFile));
}

#[test]
fn parse_task_line_keeps_the_description_as_written() {
    assert_eq!(parse_task_line("N,"), Ok(Task::new(String::new(), TaskState::NotStarted)));
    assert_eq!(
        parse_task_line("X,  spaced  "),
        Ok(Task::new(String::from("  spaced  "), TaskState::Ignored))
    );
    assert_eq!(
        parse_task_line("F,caf\u{e9} ◯ \u{1F600}"),
        Ok(Task::new(String::from("caf\u{e9} ◯ \u{1F600}"), TaskState::Forwarded))
    );
    assert_eq!(
        parse_task_line("C,line\r"),
        Ok(Task::new(String::from("line\r"), TaskState::Complete))
    );
}

#[test]
fn contents_are_read_line_by_line() {
    assert_eq!(parse_tasks_from_contents(""), Ok(vec![]));
    assert_eq!(
        parse_tasks_from_contents("N,a"),
        Ok(vec![Task::new(String::from("a"), TaskState::NotStarted)])
    );
    assert_eq!(
        parse_tasks_from_contents("N,a\nS,b"),
        Ok(vec![
            Task::new(String::from("a"), TaskState::NotStarted),
            Task::new(String::from("b"), TaskState::Started),
        ])
    );
    assert_eq!(
        parse_tasks_from_contents("N,a\r\nS,b\r\n"),
        Ok(vec![
            Task::new(String::from("a"), TaskState::NotStarted),
            Task::new(String::from("b"), TaskState::Started),
        ])
    );
    // Only a carriage return before a line feed belongs to the line's end.
    assert_eq!(
        parse_tasks_from_contents("N,a\r"),
        Ok(vec![Task::new(String::from("a\r"), TaskState::NotStarted)])
    );
    assert_eq!(
        parse_tasks_from_contents("N,a\r\r\n"),
        Ok(vec![Task::new(String::from("a\r"), TaskState::NotStarted)])
    );
}

#[test]
fn empty_lines_hold_no_task() {
    let expected = vec![
        Task::new(String::from("a"), TaskState::NotStarted),
        Task::new(String::from("b"), TaskState::Started),
    ];
    assert_eq!(parse_tasks_from_contents("N,a\n\nS,b\n"), Ok(expected.clone()));
    assert_eq!(parse_tasks_from_contents("\n\nN,a\nS,b\n\n\n"), Ok(expected.clone()));
    assert_eq!(parse_tasks_from_contents("N,a\r\n\r\nS,b"), Ok(expected));
    assert_eq!(parse_tasks_from_contents("\n"), Ok(vec![]));
    assert_eq!(parse_tasks_from_contents(" \n"), Err(TuduError::BadTaskFormat));
}

#[test]
fn the_first_bad_line_decides_the_failure() {
    assert_eq!(
        parse_tasks_from_contents("N,a\nbroken\nQ,b\n"),
        Err(TuduError::BadTaskFormat)
    );
    assert_eq!(
        parse_tasks_from_contents("N,a\nQ,b\nbroken\n"),
        Err(TuduError::FailedToReadFile)
    );
    assert_eq!(parse_tasks_from_contents("N,a,b\n"), Err(TuduError::BadTaskFormat));
}

#[test]
fn what_is_written_is_read_back() {
    let lists = vec![
        vec![],
        vec![Task::new(String::new(), TaskState::Complete)],
        vec![
            Task::new(started(), TaskState::Started),
            Task::new(String::from(""), TaskState::Complete),
            Task::new(String::from("  "), TaskState::Ignored),
            Task::new(String::from("tab\tand \r inside"), TaskState::Forwarded),
            Task::new(String::from("◯ ◐ ● ► x"), TaskState::NotStarted),
            Task::new(String::from("N"), TaskState::NotStarted),
        ],
    ];
    for tasks in lists {
        let text = render_tasks(&tasks);
        assert_eq!(parse_tasks_from_contents(&text), Ok(tasks));
    }
}

#[test]
fn descriptions_that_a_file_cannot_hold() {
    let comma = vec![Task::new(String::from("a,b"), TaskState::Started)];
    assert_eq!(
        parse_tasks_from_contents(&render_tasks(&comma)),
        Err(TuduError::BadTaskFormat)
    );
    let feed = vec![Task::new(String::from("a\nb"), TaskState::Started)];
    assert_eq!(
        parse_tasks_from_contents(&render_tasks(&feed)),
        Err(TuduError::BadTaskFormat)
    );
    let carriage = vec![Task::new(String::from("a\r"), TaskState::Started)];
    assert_eq!(
        parse_tasks_from_contents(&render_tasks(&carriage)),
        Ok(vec![Task::new(String::from("a"), TaskState::Started)])
    );
}
