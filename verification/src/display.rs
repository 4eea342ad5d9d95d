//! The text shown for tasks on the console. The program prints what these
//! functions return.

use crate::system_time_format::{display_pattern, format_utc, in_utc_range, utc_date_text};
use crate::task::{priority_name, Task, TaskState};
use vstd::prelude::*;

verus! {

/// The mark shown between brackets for each state.
pub open spec fn status_mark(state: TaskState) -> Seq<char> {
    match state {
        TaskState::Pending => " "@,
        TaskState::Completed => "x"@,
        TaskState::OnHold => "-"@,
        TaskState::NeedInfo => "?"@,
        TaskState::InProgress => "…"@,
        TaskState::Cancelled => "!"@,
    }
}

/// The due date as shown: the UTC date as `%Y/%m/%d`, or `None`.
pub open spec fn due_date_text(due: Option<i64>) -> Seq<char> {
    match due {
        Some(t) => utc_date_text(t, display_pattern()),
        None => "None"@,
    }
}

/// The line of the description, where there is one.
pub open spec fn description_text(description: Option<String>) -> Seq<char> {
    match description {
        Some(d) => "\t\t"@ + d@ + "\n"@,
        None => Seq::empty(),
    }
}

/// Whether a task can be shown: it has a priority, and its due date, if any, is one
/// that chrono can turn into a calendar date.
pub open spec fn displayable(task: Task) -> bool {
    &&& task.priority is Some
    &&& task.due_date matches Some(t) ==> in_utc_range(t)
}

/// The first lines shown for a task: a blank line, the status mark and the title,
/// then the description if there is one.
pub open spec fn task_heading_text(task: Task) -> Seq<char> {
    "\n\t["@ + status_mark(task.state) + "]\t"@ + task.title@ + "\n"@
        + description_text(task.description)
}

/// The last line shown for a task: its priority and its due date.
pub open spec fn task_details_text(task: Task) -> Seq<char> {
    "\t\tPriority:"@ + priority_name(task.priority.unwrap()) + "\t\tDue date: "@
        + due_date_text(task.due_date) + "\n"@
}

/// The text shown for one task: its heading, then its priority and due date.
pub open spec fn task_text(task: Task) -> Seq<char> {
    task_heading_text(task) + task_details_text(task)
}

/// The text shown for a list of tasks: that of each task, in order.
pub open spec fn tasks_text(tasks: Seq<Task>) -> Seq<char>
    decreases tasks.len(),
{
    if tasks.len() == 0 {
        Seq::empty()
    } else {
        tasks_text(tasks.drop_last()) + task_text(tasks.last())
    }
}

/// The mark of a task's state.
pub fn status_mark_of(state: &TaskState) -> (mark: &'static str)
    ensures
        mark@ == status_mark(*state),
{
    match state {
        TaskState::Pending => " ",
        TaskState::Completed => "x",
        TaskState::OnHold => "-",
        TaskState::NeedInfo => "?",
        TaskState::InProgress => "…",
        TaskState::Cancelled => "!",
    }
}

/// A due date as shown: its UTC date as `%Y/%m/%d`.
pub fn format_due_date(secs: i64) -> (text: String)
    requires
        in_utc_range(secs),
    ensures
        text@ == utc_date_text(secs, display_pattern()),
{
    match format_utc(secs, "%Y/%m/%d") {
        Some(s) => s,
        None => String::new(),
    }
}

/// The first lines shown for a task: the status mark, the title and the
/// description. Any task has them.
pub fn task_heading(task: &Task) -> (text: String)
    ensures
        text@ == task_heading_text(*task),
{
    let mut text = String::new();
    text.append("\n\t[");
    text.append(status_mark_of(&task.state));
    text.append("]\t");
    text.append(task.title.as_str());
    text.append("\n");
    match &task.description {
        Some(d) => {
            text.append("\t\t");
            text.append(d.as_str());
            text.append("\n");
        },
        None => {},
    }
    assert(text@ =~= task_heading_text(*task));
    text
}

/// The last line shown for a task: its priority and its due date.
pub fn task_details(task: &Task) -> (text: String)
    requires
        displayable(*task),
    ensures
        text@ == task_details_text(*task),
{
    let mut text = String::new();
    text.append("\t\tPriority:");
    let priority = match &task.priority {
        Some(p) => p.to_string(),
        None => String::new(),
    };
    text.append(priority.as_str());
    text.append("\t\tDue date: ");
    match task.due_date {
        Some(t) => {
            let due = format_due_date(t);
            text.append(due.as_str());
        },
        None => text.append("None"),
    }
    text.append("\n");
    assert(text@ =~= task_details_text(*task));
    text
}

/// The text shown for one task.
pub fn display_task(task: &Task) -> (text: String)
    requires
        displayable(*task),
    ensures
        text@ == task_text(*task),
{
    let mut text = task_heading(task);
    let details = task_details(task);
    text.append(details.as_str());
    text
}

/// The text shown for a list of tasks: each task's in order.
pub fn display_tasks(tasks: &Vec<Task>) -> (text: String)
    requires
        forall|i: int| 0 <= i < tasks@.len() ==> displayable(#[trigger] tasks@[i]),
    ensures
        text@ == tasks_text(tasks@),
{
    let mut text = String::new();
    let mut i: usize = 0;
    while i < tasks.len()
        invariant
            i <= tasks@.len(),
            forall|j: int| 0 <= j < tasks@.len() ==> displayable(#[trigger] tasks@[j]),
            text@ == tasks_text(tasks@.take(i as int)),
        decreases tasks@.len() - i,
    {
        let one = display_task(&tasks[i]);
        text.append(one.as_str());
        assert(tasks@.take(i as int + 1).drop_last() =~= tasks@.take(i as int));
        i = i + 1;
    }
    assert(tasks@.take(i as int) =~= tasks@);
    text
}

/// Each state shows a mark of its own, so the mark tells the state.
pub proof fn lemma_status_marks_differ(a: TaskState, b: TaskState)
    requires
        a != b,
    ensures
        status_mark(a) != status_mark(b),
{
    reveal_strlit(" ");
    reveal_strlit("x");
    reveal_strlit("-");
    reveal_strlit("?");
    reveal_strlit("…");
    reveal_strlit("!");
    assert(" "@[0] == ' ');
    assert("x"@[0] == 'x');
    assert("-"@[0] == '-');
    assert("?"@[0] == '?');
    assert("…"@[0] == '…');
    assert("!"@[0] == '!');
}

/// A list of one task shows that task, whatever its state: the blank line, the
/// bracketed mark, the title, the description line if any, then the priority and
/// due date line.
pub proof fn lemma_single_task_list_shows_it(t: Task)
    ensures
        tasks_text(seq![t]) == "\n\t["@ + status_mark(t.state) + "]\t"@ + t.title@ + "\n"@
            + description_text(t.description) + "\t\tPriority:"@ + priority_name(
            t.priority.unwrap(),
        ) + "\t\tDue date: "@ + due_date_text(t.due_date) + "\n"@,
{
    assert(seq![t].drop_last() =~= Seq::<Task>::empty());
    assert(tasks_text(Seq::<Task>::empty()) == Seq::<char>::empty());
    assert(tasks_text(seq![t]) =~= "\n\t["@ + status_mark(t.state) + "]\t"@ + t.title@ + "\n"@
        + description_text(t.description) + "\t\tPriority:"@ + priority_name(t.priority.unwrap())
        + "\t\tDue date: "@ + due_date_text(t.due_date) + "\n"@);
}

/// Every task of a list is shown, in order: adding a task at the end of a list adds
/// exactly that task's text at the end of the list's text, whatever its state.
pub proof fn lemma_list_shows_each_task(tasks: Seq<Task>, t: Task)
    ensures
        tasks_text(tasks.push(t)) == tasks_text(tasks) + "\n\t["@ + status_mark(t.state) + "]\t"@
            + t.title@ + "\n"@ + description_text(t.description) + "\t\tPriority:"@
            + priority_name(t.priority.unwrap()) + "\t\tDue date: "@ + due_date_text(t.due_date)
            + "\n"@,
        tasks_text(tasks.push(t)).len() > tasks_text(tasks).len(),
{
    reveal_strlit("\n");
    assert(tasks.push(t).drop_last() =~= tasks);
    assert(tasks_text(tasks.push(t)) =~= tasks_text(tasks) + "\n\t["@ + status_mark(t.state)
        + "]\t"@ + t.title@ + "\n"@ + description_text(t.description) + "\t\tPriority:"@
        + priority_name(t.priority.unwrap()) + "\t\tDue date: "@ + due_date_text(t.due_date)
        + "\n"@);
}

/// The marks shown for the states: a space for pending, `x` for completed, `-` on
/// hold, `?` when information is needed, `…` in progress and `!` cancelled.
pub proof fn lemma_status_marks()
    ensures
        status_mark(TaskState::Pending) == " "@,
        status_mark(TaskState::Completed) == "x"@,
        status_mark(TaskState::OnHold) == "-"@,
        status_mark(TaskState::NeedInfo) == "?"@,
        status_mark(TaskState::InProgress) == "…"@,
        status_mark(TaskState::Cancelled) == "!"@,
{
}

/// The last line of a task shows its priority by name and its due date as the UTC
/// date `%Y/%m/%d` whenever it has one, whatever its state; `None` only where it has
/// no due date.
pub proof fn lemma_details_show_priority_and_due_date(t: Task)
    requires
        t.priority is Some,
    ensures
        t.due_date matches Some(d) ==> task_details_text(t) == "\t\tPriority:"@ + priority_name(
            t.priority.unwrap(),
        ) + "\t\tDue date: "@ + utc_date_text(d, "%Y/%m/%d"@) + "\n"@,
        t.due_date is None ==> task_details_text(t) == "\t\tPriority:"@ + priority_name(
            t.priority.unwrap(),
        ) + "\t\tDue date: "@ + "None"@ + "\n"@,
{
}

/// The first lines of a task show its mark and title, then a line with its
/// description exactly where it has one.
pub proof fn lemma_heading_shows_title_and_description(t: Task)
    ensures
        t.description matches Some(d) ==> task_heading_text(t) == "\n\t["@ + status_mark(t.state)
            + "]\t"@ + t.title@ + "\n"@ + "\t\t"@ + d@ + "\n"@,
        t.description is None ==> task_heading_text(t) == "\n\t["@ + status_mark(t.state) + "]\t"@
            + t.title@ + "\n"@,
{
    match t.description {
        Some(d) => {
            assert(task_heading_text(t) =~= "\n\t["@ + status_mark(t.state) + "]\t"@ + t.title@
                + "\n"@ + "\t\t"@ + d@ + "\n"@);
        },
        None => {
            assert(task_heading_text(t) =~= "\n\t["@ + status_mark(t.state) + "]\t"@ + t.title@
                + "\n"@);
        },
    }
}

/// Showing two lists one after the other shows the same text as showing the list
/// made of both.
pub proof fn lemma_tasks_text_concat(a: Seq<Task>, b: Seq<Task>)
    ensures
        tasks_text(a + b) == tasks_text(a) + tasks_text(b),
    decreases b.len(),
{
    if b.len() == 0 {
        assert(a + b =~= a);
        assert(tasks_text(b) =~= Seq::<char>::empty());
        assert(tasks_text(a) + tasks_text(b) =~= tasks_text(a));
    } else {
        lemma_tasks_text_concat(a, b.drop_last());
        assert((a + b).drop_last() =~= a + b.drop_last());
        assert((a + b).last() == b.last());
        assert(tasks_text(a + b) =~= tasks_text(a) + tasks_text(b));
    }
}

} // verus!
