use tudu::{format_task_for_display, parse_state, Task, TaskList, TaskState, TuduDate, TuduError};

#[test]
fn create_from_file_when_no_file_creates_empty_task_list() {
    let date = TuduDate::new(2023, 12, 13);

    let expected_task_list = TaskList::empty(&date);

    let task_list = TaskList::for_date(&date, Err(TuduError::NoTaskFile)).unwrap();

    assert_eq!(task_list, expected_task_list);
}

#[test]
fn add_task_adds_task_to_end_of_list() {
    let date = TuduDate::new(1, 1, 2023);
    let first_task = Task::new(String::from("First task"), TaskState::Complete);
    let second_task = Task::new(String::from("Second task"), TaskState::NotStarted);

    let expected_task_list = TaskList {
        date: &date,
        tasks: vec![first_task.clone(), second_task.clone()],
    };

    let mut task_list = TaskList {
        date: &date,
        tasks: vec![first_task.clone()],
    };

    task_list.add_task(second_task.clone());

    assert_eq!(task_list.tasks, expected_task_list.tasks);
}

#[test]
fn set_task_at_index_edits_that_task() {
    let date = TuduDate::new(1, 1, 2023);
    let first_task = Task::new(String::from("AAA"), TaskState::Complete);
    let second_task = Task::new(String::from("BBB"), TaskState::Complete);

    let expected_task_list = TaskList {
        tasks: vec![first_task.clone(), second_task.clone()],
        date: &date,
    };

    let mut task_list = TaskList {
        date: &date,
        tasks: vec![
            first_task.clone(),
            Task::new(String::from("BBB"), TaskState::NotStarted),
        ],
    };

    task_list.set_task_state(2, TaskState::Complete).unwrap();

    assert_eq!(task_list.tasks, expected_task_list.tasks);
}

#[test]
fn set_task_at_index_if_no_task_at_index_throws_error() {
    let date = TuduDate::new(1, 1, 2023);

    let mut task_list = TaskList {
        date: &date,
        tasks: vec![Task::new(String::from("AAA"), TaskState::NotStarted)],
    };

    let expected_error = TuduError::InvalidIndex;

    let result = task_list.set_task_state(2, TaskState::Complete);

    assert!(result.is_err());
    assert_eq!(result.err().unwrap(), expected_error);
}

#[test]
fn remove_task_at_index_removes_that_task() {
    let date = TuduDate::new(1, 1, 2023);
    let first_task = Task::new(String::from("AAA"), TaskState::Complete);
    let second_task = Task::new(String::from("BBB"), TaskState::Complete);

    let expected_task_list = TaskList {
        tasks: vec![first_task.clone()],
        date: &date,
    };

    let mut task_list = TaskList {
        date: &date,
        tasks: vec![first_task, second_task],
    };

    task_list.remove_task(2).unwrap();

    assert_eq!(task_list.tasks, expected_task_list.tasks);
}

#[test]
fn edit_task_at_index_edits_that_task() {
    let date = TuduDate::new(1, 1, 2023);
    let first_task = Task::new(String::from("AAA"), TaskState::Complete);
    let second_task = Task::new(String::from("BBB"), TaskState::Complete);

    let expected_task_list = TaskList {
        tasks: vec![first_task.clone(), second_task.clone()],
        date: &date,
    };

    let mut task_list = TaskList {
        date: &date,
        tasks: vec![
            first_task.clone(),
            Task::new(String::from("CCC"), TaskState::Complete),
        ],
    };

    task_list.edit_task(2, String::from("BBB")).unwrap();

    assert_eq!(task_list.tasks, expected_task_list.tasks);
}

#[test]
fn edit_task_at_index_if_no_task_at_index_throws_error() {
    let date = TuduDate::new(1, 1, 2023);

    let mut task_list = TaskList {
        date: &date,
        tasks: vec![Task::new(String::from("AAA"), TaskState::NotStarted)],
    };

    let expected_error = TuduError::InvalidIndex;

    let result = task_list.edit_task(2, String::from("BBB"));

    assert!(result.is_err());
    assert_eq!(result.err().unwrap(), expected_error);
}

#[test]
fn get_formatted_tasks_formats_tasks_correctly() {
    let tasks = vec![
        Task::new(started(), TaskState::Started),
        Task::new(String::from("This one is completed"), TaskState::Complete),
        Task::new(String::from("Didn't like this one"), TaskState::Ignored),
        Task::new(String::from("This one's for later"), TaskState::Forwarded),
        Task::new(String::from("Patience is a virtue"), TaskState::NotStarted),
    ];

    let task_list = TaskList {
        date: &TuduDate::new(1, 1, 2023),
        tasks,
    };

    let expected_formatting = format!(
        "1    ◐ - {}
2    ● - This one is completed
3    x - Didn't like this one
4    ► - This one's for later
5    ◯ - Patience is a virtue\n",
        started()
    );

    let formatted = task_list.get_formatted_tasks();

    assert_eq!(formatted, expected_formatting);
}

/// The description of the first task of the listing.
fn started() -> String {
    ["This", "task", "is", "started"].join(" ")
}

fn letters() -> Vec<Task> {
    vec![
        Task::new(String::from("A"), TaskState::Started),
        Task::new(String::from("B"), TaskState::Complete),
        Task::new(String::from("C"), TaskState::Ignored),
        Task::new(String::from("D"), TaskState::Forwarded),
        Task::new(String::from("E"), TaskState::NotStarted),
    ]
}

#[test]
fn get_formatted_tasks_shows_each_state_with_its_sign() {
    let date = TuduDate::new(1, 1, 2023);
    let task_list = TaskList { date: &date, tasks: letters() };
    assert_eq!(
        task_list.get_formatted_tasks(),
        "1    ◐ - A\n2    ● - B\n3    x - C\n4    ► - D\n5    ◯ - E\n"
    );
    assert_eq!(TaskList::empty(&date).get_formatted_tasks(), "");
}

#[test]
fn get_formatted_tasks_counts_past_nine() {
    let date = TuduDate::new(1, 1, 2023);
    let mut task_list = TaskList::empty(&date);
    for _ in 0..12 {
        task_list.add_task(Task::new(String::from("t"), TaskState::NotStarted));
    }
    let text = task_list.get_formatted_tasks();
    let lines: Vec<&str> = text.lines().collect();
    assert_eq!(lines.len(), 12);
    assert_eq!(lines[8], "9    ◯ - t");
    assert_eq!(lines[9], "10    ◯ - t");
    assert_eq!(lines[11], "12    ◯ - t");
}

#[test]
fn format_task_for_display_counts_from_one() {
    let task = Task::new(String::from("Water the plants"), TaskState::Forwarded);
    assert_eq!(format_task_for_display(&task, 0), "1    ► - Water the plants\n");
    assert_eq!(format_task_for_display(&task, 99), "100    ► - Water the plants\n");
    let empty = Task::new(String::new(), TaskState::Ignored);
    assert_eq!(format_task_for_display(&empty, 4), "5    x - \n");
}

#[test]
fn add_task_to_n_tasks_gives_n_plus_one_with_the_new_one_last() {
    let date = TuduDate::new(1, 1, 2023);
    let mut task_list = TaskList { date: &date, tasks: letters() };
    let new_task = Task::new(String::from("F"), TaskState::NotStarted);
    task_list.add_task(new_task.clone());
    assert_eq!(task_list.tasks.len(), 6);
    assert_eq!(task_list.tasks[5], new_task);
    assert_eq!(task_list.tasks[..5], letters()[..]);
    assert_eq!(task_list.date, &date);
}

#[test]
fn set_task_state_changes_one_state_only() {
    let date = TuduDate::new(1, 1, 2023);
    for index in 1..=5usize {
        let mut task_list = TaskList { date: &date, tasks: letters() };
        assert_eq!(task_list.set_task_state(index, TaskState::Complete), Ok(()));
        let mut expected = letters();
        expected[index - 1].state = TaskState::Complete;
        assert_eq!(task_list.tasks, expected);
    }
}

#[test]
fn edit_task_changes_one_description_only() {
    let date = TuduDate::new(1, 1, 2023);
    for index in 1..=5usize {
        let mut task_list = TaskList { date: &date, tasks: letters() };
        assert_eq!(task_list.edit_task(index, String::from("new text")), Ok(()));
        let mut expected = letters();
        expected[index - 1].task = String::from("new text");
        assert_eq!(task_list.tasks, expected);
    }
}

#[test]
fn remove_task_moves_the_later_tasks_up() {
    let date = TuduDate::new(1, 1, 2023);
    let mut task_list = TaskList { date: &date, tasks: letters() };
    assert_eq!(task_list.remove_task(2), Ok(()));
    let all = letters();
    assert_eq!(
        task_list.tasks,
        vec![all[0].clone(), all[2].clone(), all[3].clone(), all[4].clone()]
    );
    assert_eq!(task_list.remove_task(1), Ok(()));
    assert_eq!(task_list.tasks, vec![all[2].clone(), all[3].clone(), all[4].clone()]);
    assert_eq!(task_list.remove_task(3), Ok(()));
    assert_eq!(task_list.tasks, vec![all[2].clone(), all[3].clone()]);
}

#[test]
fn index_outside_the_list_fails_and_changes_nothing() {
    let date = TuduDate::new(1, 1, 2023);
    for index in [0usize, 6, 7, usize::MAX] {
        let mut task_list = TaskList { date: &date, tasks: letters() };
        assert_eq!(
            task_list.set_task_state(index, TaskState::Complete),
            Err(TuduError::InvalidIndex)
        );
        assert_eq!(task_list.tasks, letters());
        assert_eq!(
            task_list.edit_task(index, String::from("x")),
            Err(TuduError::InvalidIndex)
        );
        assert_eq!(task_list.tasks, letters());
        assert_eq!(task_list.remove_task(index), Err(TuduError::InvalidIndex));
        assert_eq!(task_list.tasks, letters());
    }
    let mut empty = TaskList::empty(&date);
    assert_eq!(empty.remove_task(1), Err(TuduError::InvalidIndex));
    assert_eq!(empty.set_task_state(1, TaskState::Started), Err(TuduError::InvalidIndex));
    assert_eq!(empty.edit_task(1, String::new()), Err(TuduError::InvalidIndex));
}

#[test]
fn for_date_reads_the_text_of_the_file() {
    let date = TuduDate::new(7, 6, 2023);
    let task_list =
        TaskList::for_date(&date, Ok(String::from("S,A\nC,B\nX,C\nF,D\nN,E\n"))).unwrap();
    assert_eq!(task_list.tasks, letters());
    assert_eq!(task_list.date, &date);
    let none = TaskList::for_date(&date, Ok(String::new())).unwrap();
    assert_eq!(none, TaskList::empty(&date));
}

#[test]
fn for_date_passes_failures_on() {
    let date = TuduDate::new(7, 6, 2023);
    assert_eq!(
        TaskList::for_date(&date, Err(TuduError::FailedToReadFile)),
        Err(TuduError::FailedToReadFile)
    );
    assert_eq!(
        TaskList::for_date(&date, Err(TuduError::InvalidTaskDirectory)),
        Err(TuduError::InvalidTaskDirectory)
    );
    assert_eq!(
        TaskList::for_date(&date, Err(TuduError::FailedToMakeDirectory)),
        Err(TuduError::FailedToMakeDirectory)
    );
    assert_eq!(
        TaskList::for_date(&date, Ok(String::from("S,A\nnonsense\n"))),
        Err(TuduError::BadTaskFormat)
    );
    assert_eq!(
        TaskList::for_date(&date, Ok(String::from("Q,A\n"))),
        Err(TuduError::FailedToReadFile)
    );
}

#[test]
fn write_to_file_names_the_file_and_gives_its_text() {
    let date = TuduDate::new(7, 6, 2023);
    let task_list = TaskList { date: &date, tasks: letters() };
    let file = task_list.write_to_file();
    assert_eq!(file.name, "2023-06-07.txt");
    assert_eq!(file.contents, "S,A\nC,B\nX,C\nF,D\nN,E\n");
    let empty = TaskList::empty(&date).write_to_file();
    assert_eq!(empty.name, "2023-06-07.txt");
    assert_eq!(empty.contents, "");
}

#[test]
fn state_letters_and_signs() {
    let all = [
        (TaskState::NotStarted, "N", "◯"),
        (TaskState::Started, "S", "◐"),
        (TaskState::Complete, "C", "●"),
        (TaskState::Forwarded, "F", "►"),
        (TaskState::Ignored, "X", "x"),
    ];
    for (state, code, icon) in all {
        assert_eq!(state.code(), code);
        assert_eq!(state.icon(), icon);
        assert_eq!(parse_state(code), Some(state));
    }
    for bad in ["", "n", "NS", "N ", " N", "◯", "x", "Complete"] {
        assert_eq!(parse_state(bad), None, "{bad:?}");
    }
}
