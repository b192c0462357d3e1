//! The text of a task file: one line for each task, the letter of its state,
//! a comma, and its description.

use crate::error::{ErrorView, TuduError};
use crate::model::{parse_state, state_code, state_of_code, task_views, Task, TaskView};
use crate::text::{
    chars_of, find_in, lemma_split_cons, lemma_split_in_two, lemma_split_nonempty,
    lemma_split_single, split, split_ranges,
};
use vstd::prelude::*;
use vstd::string::*;

verus! {

/// The line of a task, without its line feed.
pub open spec fn task_line(task: TaskView) -> Seq<char> {
    seq![state_code(task.state), ','] + task.description
}

/// The text of a file that holds `tasks`: their lines in order, each ended
/// by a line feed.
pub open spec fn file_text(tasks: Seq<TaskView>) -> Seq<char>
    decreases tasks.len(),
{
    if tasks.len() == 0 {
        Seq::empty()
    } else {
        task_line(tasks[0]) + seq!['\n'] + file_text(tasks.skip(1))
    }
}

/// The task that a line holds. The line must fall into exactly two parts at
/// its commas, the first of them the letter of a state.
pub open spec fn parse_line(line: Seq<char>) -> Result<TaskView, ErrorView> {
    let sections = split(line, ',');
    if sections.len() != 2 {
        Err(ErrorView::BadTaskFormat)
    } else {
        match state_of_code(sections[0]) {
            Some(state) => Ok(TaskView { description: sections[1], state }),
            None => Err(ErrorView::FailedToReadFile),
        }
    }
}

/// A line without the carriage return that may stand before its line feed.
pub open spec fn strip_cr(line: Seq<char>) -> Seq<char> {
    if line.len() > 0 && line.last() == '\r' {
        line.drop_last()
    } else {
        line
    }
}

/// The lines of a text. A line ends at a line feed, or at a carriage return
/// followed by one; what follows the last line feed is a line too, unless
/// nothing follows it.
pub open spec fn lines(text: Seq<char>) -> Seq<Seq<char>> {
    let parts = split(text, '\n');
    let ended = parts.drop_last().map_values(|line: Seq<char>| strip_cr(line));
    if parts.last().len() == 0 {
        ended
    } else {
        ended.push(parts.last())
    }
}

/// The tasks that a sequence of lines holds. Empty lines hold none; the
/// first line that holds no task decides the failure.
pub open spec fn parse_lines(lines: Seq<Seq<char>>) -> Result<Seq<TaskView>, ErrorView>
    decreases lines.len(),
{
    if lines.len() == 0 {
        Ok(Seq::empty())
    } else if lines[0].len() == 0 {
        parse_lines(lines.skip(1))
    } else {
        match parse_line(lines[0]) {
            Err(e) => Err(e),
            Ok(task) => match parse_lines(lines.skip(1)) {
                Err(e) => Err(e),
                Ok(rest) => Ok(seq![task] + rest),
            },
        }
    }
}

/// The tasks that the text of a file holds.
pub open spec fn parse_contents(text: Seq<char>) -> Result<Seq<TaskView>, ErrorView> {
    parse_lines(lines(text))
}

/// A description that a file can hold and give back: without comma or line
/// feed, and not ending in a carriage return.
pub open spec fn storable(description: Seq<char>) -> bool {
    &&& !description.contains(',')
    &&& !description.contains('\n')
    &&& !(description.len() > 0 && description.last() == '\r')
}

/// `done`, followed by what `rest` gives, if it gives tasks.
pub open spec fn tasks_then(done: Seq<TaskView>, rest: Result<Seq<TaskView>, ErrorView>) -> Result<
    Seq<TaskView>,
    ErrorView,
> {
    match rest {
        Ok(tasks) => Ok(done + tasks),
        Err(e) => Err(e),
    }
}

/// An empty line at the end holds no task.
pub proof fn lemma_parse_lines_trailing_empty(lines: Seq<Seq<char>>)
    ensures
        parse_lines(lines.push(Seq::empty())) == parse_lines(lines),
    decreases lines.len(),
{
    let longer = lines.push(Seq::empty());
    if lines.len() == 0 {
        assert(longer.skip(1) =~= Seq::<Seq<char>>::empty());
        assert(parse_lines(longer.skip(1)) == Ok::<Seq<TaskView>, ErrorView>(Seq::empty()));
    } else {
        lemma_parse_lines_trailing_empty(lines.skip(1));
        assert(longer.skip(1) =~= lines.skip(1).push(Seq::empty()));
        assert(longer[0] == lines[0]);
    }
}

/// The line of a task with a storable description holds that task.
pub proof fn lemma_line_round_trip(task: TaskView)
    requires
        !task.description.contains(','),
    ensures
        parse_line(task_line(task)) == Ok::<TaskView, ErrorView>(task),
{
    let code = seq![state_code(task.state)];
    assert(!code.contains(',')) by {
        if code.contains(',') {
            let i = choose|i: int| 0 <= i < code.len() && code[i] == ',';
            assert(code[i] == state_code(task.state));
        }
    }
    lemma_split_single(task.description, ',');
    lemma_split_cons(code, ',', task.description);
    assert(task_line(task) =~= code + seq![','] + task.description);
    assert(split(task_line(task), ',') =~= seq![code, task.description]);
    assert(state_of_code(code) == Some(task.state)) by {
        assert(code[0] == state_code(task.state));
        assert(seq!['N'][0] == 'N');
        assert(seq!['S'][0] == 'S');
        assert(seq!['C'][0] == 'C');
        assert(seq!['F'][0] == 'F');
        assert(seq!['X'][0] == 'X');
    }
}

/// The lines of tasks, one after the other, each followed by a line feed,
/// fall apart at the line feeds into those lines and an empty rest.
pub proof fn lemma_file_text_split(tasks: Seq<TaskView>)
    requires
        forall|i: int| 0 <= i < tasks.len() ==> !(#[trigger] tasks[i]).description.contains('\n'),
    ensures
        split(file_text(tasks), '\n') == tasks.map_values(|t: TaskView| task_line(t)).push(
            Seq::empty(),
        ),
    decreases tasks.len(),
{
    let all = tasks.map_values(|t: TaskView| task_line(t));
    if tasks.len() == 0 {
        lemma_split_single(Seq::<char>::empty(), '\n');
        assert(split(file_text(tasks), '\n') =~= all.push(Seq::empty()));
    } else {
        let rest = tasks.skip(1);
        assert forall|i: int| 0 <= i < rest.len() implies !(#[trigger] rest[i]).description.contains(
            '\n',
        ) by {
            assert(rest[i] == tasks[i + 1]);
        }
        lemma_file_text_split(rest);
        let line = task_line(tasks[0]);
        assert(!line.contains('\n')) by {
            if line.contains('\n') {
                let i = choose|i: int| 0 <= i < line.len() && line[i] == '\n';
                if i >= 2 {
                    assert(tasks[0].description[i - 2] == '\n');
                    assert(tasks[0].description.contains('\n'));
                }
            }
        }
        lemma_split_cons(line, '\n', file_text(rest));
        assert(split(file_text(tasks), '\n') =~= all.push(Seq::empty())) by {
            let rest_lines = rest.map_values(|t: TaskView| task_line(t));
            assert(all =~= seq![line] + rest_lines);
        }
    }
}

/// The lines of tasks with storable descriptions hold those tasks.
pub proof fn lemma_parse_task_lines(tasks: Seq<TaskView>)
    requires
        forall|i: int| 0 <= i < tasks.len() ==> !(#[trigger] tasks[i]).description.contains(','),
    ensures
        parse_lines(tasks.map_values(|t: TaskView| task_line(t))) == Ok::<
            Seq<TaskView>,
            ErrorView,
        >(tasks),
    decreases tasks.len(),
{
    let all = tasks.map_values(|t: TaskView| task_line(t));
    if tasks.len() == 0 {
        assert(tasks =~= Seq::<TaskView>::empty());
    } else {
        let rest = tasks.skip(1);
        assert forall|i: int| 0 <= i < rest.len() implies !(#[trigger] rest[i]).description.contains(
            ',',
        ) by {
            assert(rest[i] == tasks[i + 1]);
        }
        lemma_parse_task_lines(rest);
        lemma_line_round_trip(tasks[0]);
        assert(all.skip(1) =~= rest.map_values(|t: TaskView| task_line(t)));
        assert(all[0] == task_line(tasks[0]));
        assert(all[0].len() >= 2);
        assert(seq![tasks[0]] + rest =~= tasks);
    }
}

/// What is written to a file is read back from it: the text of tasks whose
/// descriptions are storable holds exactly those tasks.
pub proof fn lemma_file_round_trip(tasks: Seq<TaskView>)
    requires
        forall|i: int| 0 <= i < tasks.len() ==> storable((#[trigger] tasks[i]).description),
    ensures
        parse_contents(file_text(tasks)) == Ok::<Seq<TaskView>, ErrorView>(tasks),
{
    let all = tasks.map_values(|t: TaskView| task_line(t));
    lemma_file_text_split(tasks);
    lemma_parse_task_lines(tasks);
    let parts = split(file_text(tasks), '\n');
    assert(parts.drop_last() =~= all);
    assert(parts.last() =~= Seq::<char>::empty());
    assert(all.map_values(|line: Seq<char>| strip_cr(line)) =~= all) by {
        assert forall|i: int| 0 <= i < all.len() implies strip_cr(#[trigger] all[i]) == all[i] by {
            let line = all[i];
            assert(line == task_line(tasks[i]));
            assert(storable(tasks[i].description));
            if tasks[i].description.len() > 0 {
                assert(line.last() == tasks[i].description.last());
            } else {
                assert(line.last() == ',');
            }
        }
    }
}

/// Reads the task that `chars[from..to]` holds; `text` is the same text as
/// `chars`, from which the description is cut.
fn parse_line_in(text: &str, chars: &Vec<char>, from: usize, to: usize) -> (r: Result<
    Task,
    TuduError,
>)
    requires
        chars@ == text@,
        from <= to <= chars.len(),
    ensures
        match parse_line(chars@.subrange(from as int, to as int)) {
            Ok(t) => r matches Ok(task) && task@ == t,
            Err(e) => r matches Err(err) && err@ == e,
        },
{
    let ghost line = chars@.subrange(from as int, to as int);
    proof {
        lemma_split_in_two(line, ',');
    }
    let comma = find_in(chars, from, to, ',');
    if comma == to {
        return Err(TuduError::BadTaskFormat);
    }
    assert(line.skip(comma - from + 1) =~= chars@.subrange(comma + 1, to as int));
    let second = find_in(chars, comma + 1, to, ',');
    if second != to {
        return Err(TuduError::BadTaskFormat);
    }
    assert(line.take(comma - from) =~= text@.subrange(from as int, comma as int));
    match parse_state(text.substring_char(from, comma)) {
        Some(state) => {
            let task = text.substring_char(comma + 1, to).to_owned();
            Ok(Task { task, state })
        },
        None => Err(TuduError::FailedToReadFile),
    }
}

/// Reads the task that a line of a file holds.
pub fn parse_task_line(line: &str) -> (r: Result<Task, TuduError>)
    ensures
        match parse_line(line@) {
            Ok(t) => r matches Ok(task) && task@ == t,
            Err(e) => r matches Err(err) && err@ == e,
        },
{
    let chars = chars_of(line);
    assert(chars@.subrange(0, chars@.len() as int) =~= line@);
    parse_line_in(line, &chars, 0, chars.len())
}

/// Reads the tasks that the text of a file holds.
pub fn parse_tasks_from_contents(contents: &str) -> (r: Result<Vec<Task>, TuduError>)
    ensures
        match parse_contents(contents@) {
            Ok(ts) => r matches Ok(tasks) && task_views(tasks@) == ts,
            Err(e) => r matches Err(err) && err@ == e,
        },
{
    let chars = chars_of(contents);
    let ranges = split_ranges(&chars, '\n');
    let ghost parts = split(contents@, '\n');
    let ghost read = Seq::new(
        parts.len(),
        |k: int|
            if k < parts.len() - 1 {
                strip_cr(parts[k])
            } else {
                parts[k]
            },
    );
    proof {
        lemma_split_nonempty(contents@, '\n');
        let ended = parts.drop_last().map_values(|line: Seq<char>| strip_cr(line));
        if parts.last().len() == 0 {
            assert(parts.last() =~= Seq::<char>::empty());
            assert(read =~= ended.push(Seq::empty()));
            lemma_parse_lines_trailing_empty(ended);
        } else {
            assert(read =~= ended.push(parts.last()));
        }
        assert(read.skip(0) =~= read);
    }
    let mut tasks: Vec<Task> = Vec::new();
    let mut k: usize = 0;
    while k < ranges.len()
        invariant
            chars@ == contents@,
            parts == split(contents@, '\n'),
            ranges@.len() == parts.len(),
            read.len() == parts.len(),
            forall|j: int|
                0 <= j < read.len() ==> #[trigger] read[j] == if j < parts.len() - 1 {
                    strip_cr(parts[j])
                } else {
                    parts[j]
                },
            forall|j: int|
                0 <= j < ranges@.len() ==> {
                    &&& (#[trigger] ranges@[j]).0 <= ranges@[j].1 <= chars@.len()
                    &&& chars@.subrange(ranges@[j].0 as int, ranges@[j].1 as int) == parts[j]
                },
            k <= ranges@.len(),
            parse_contents(contents@) == tasks_then(task_views(tasks@), parse_lines(read.skip(k as int))),
        decreases ranges@.len() - k,
    {
        let from = ranges[k].0;
        let mut to = ranges[k].1;
        if k + 1 < ranges.len() && from < to && chars[to - 1] == '\r' {
            to = to - 1;
        }
        proof {
            let part = parts[k as int];
            assert(part == chars@.subrange(from as int, ranges@[k as int].1 as int));
            if k + 1 < ranges.len() && part.len() > 0 {
                assert(part.last() == chars@[ranges@[k as int].1 - 1]);
            }
            assert(read[k as int] =~= chars@.subrange(from as int, to as int));
            assert(read.skip(k as int)[0] == read[k as int]);
            assert(read.skip(k as int).skip(1) =~= read.skip(k + 1));
        }
        if from < to {
            match parse_line_in(contents, &chars, from, to) {
                Ok(task) => {
                    proof {
                        let done = task_views(tasks@);
                        let now = task_views(tasks@.push(task));
                        assert(now =~= done.push(task@));
                        match parse_lines(read.skip(k + 1)) {
                            Ok(rest) => {
                                assert(done + (seq![task@] + rest) =~= now + rest);
                            },
                            Err(_) => {},
                        }
                    }
                    tasks.push(task);
                },
                Err(err) => {
                    return Err(err);
                },
            }
        }
        k += 1;
    }
    proof {
        assert(read.skip(k as int) =~= Seq::<Seq<char>>::empty());
        assert(task_views(tasks@) + Seq::<TaskView>::empty() =~= task_views(tasks@));
    }
    Ok(tasks)
}

/// The text of a file that holds `tasks`.
pub fn render_tasks(tasks: &Vec<Task>) -> (text: String)
    ensures
        text@ == file_text(task_views(tasks@)),
{
    let mut text = String::new();
    let mut i: usize = 0;
    assert(task_views(tasks@).skip(0) =~= task_views(tasks@));
    assert(text@ + file_text(task_views(tasks@)) =~= file_text(task_views(tasks@)));
    while i < tasks.len()
        invariant
            i <= tasks@.len(),
            text@ + file_text(task_views(tasks@).skip(i as int)) == file_text(task_views(tasks@)),
        decreases tasks@.len() - i,
    {
        let ghost before = text@;
        let ghost views = task_views(tasks@);
        text.append(tasks[i].state.code());
        text.append(",");
        text.append(tasks[i].task.as_str());
        text.append("\n");
        proof {
            reveal_strlit(",");
            reveal_strlit("\n");
            assert(views.skip(i as int)[0] == tasks@[i as int]@);
            assert(views.skip(i as int).skip(1) =~= views.skip(i + 1));
            assert(text@ =~= before + (task_line(tasks@[i as int]@) + seq!['\n']));
            assert(text@ + file_text(views.skip(i + 1)) =~= before + file_text(views.skip(i as int)));
        }
        i += 1;
    }
    proof {
        assert(task_views(tasks@).skip(i as int) =~= Seq::<TaskView>::empty());
        assert(text@ + Seq::<char>::empty() =~= text@);
    }
    text
}

} // verus!
