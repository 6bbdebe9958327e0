//! What the task operations write and how task searches are narrowed.

use vstd::prelude::*;
use crate::models::{CalendarDate, NewTask, Task, Timestamp};
use crate::text::{owned_opt, str_opt_view, string_opt_view};
use crate::types::task_status::{status_text, TaskStatus};

verus! {

/// The columns that an update of a task writes.  `title`, `start_time` and
/// `end_time` are written only when present; `description`, `due_date` and
/// `status` are always written, an absent value clearing the column.
#[derive(Debug, Clone, PartialEq)]
pub struct TaskChanges {
    pub title: Option<String>,
    pub description: Option<String>,
    pub due_date: Option<CalendarDate>,
    pub status: Option<String>,
    pub start_time: Option<Timestamp>,
    pub end_time: Option<Timestamp>,
}

/// The start time that a task gets when it enters `status` at `now`: a task
/// that is put in progress is stamped, any other is not.
pub open spec fn start_stamp(status: TaskStatus, now: Timestamp) -> Option<Timestamp> {
    if status == TaskStatus::InProgress {
        Some(now)
    } else {
        None
    }
}

/// The end time that a task gets when it enters `status` at `now`: a task
/// that is completed is stamped, any other is not.
pub open spec fn end_stamp(status: TaskStatus, now: Timestamp) -> Option<Timestamp> {
    if status == TaskStatus::Completed {
        Some(now)
    } else {
        None
    }
}

/// The row that creating a task inserts, at time `now`.  The status is
/// required: creating a task without one is refused by a panic.
pub fn create_task_row(
    task_title: &str,
    task_description: Option<&str>,
    task_due_date: Option<CalendarDate>,
    task_user_id: i32,
    new_status: Option<TaskStatus>,
    parent_id: Option<i32>,
    now: Timestamp,
) -> (row: NewTask)
    requires
        new_status is Some,
    ensures
        row.title@ == task_title@,
        row.user_id == task_user_id,
        string_opt_view(row.description) == str_opt_view(task_description),
        row.due_date == task_due_date,
        string_opt_view(row.status) == Some(status_text(new_status->0)),
        row.project_id is None,
        row.start_time == start_stamp(new_status->0, now),
        row.end_time is None,
        row.parent_task_id == parent_id,
{
    let status = match new_status {
        Some(s) => s,
        None => TaskStatus::Pending,
    };
    let start_time = match status {
        TaskStatus::InProgress => Some(now),
        _ => None,
    };
    NewTask {
        title: task_title.to_owned(),
        user_id: task_user_id,
        description: owned_opt(task_description),
        due_date: task_due_date,
        status: status.as_string(),
        project_id: None,
        start_time,
        end_time: None,
        parent_task_id: parent_id,
    }
}

/// The columns written when a task's notes, due date and status change at
/// time `now`, its title left as it is.  Starting a task stamps its start
/// time, completing it stamps its end time, and putting it back to pending
/// stamps neither.
pub fn task_changes_without_title(
    new_description: Option<&str>,
    new_due_date: Option<CalendarDate>,
    new_status: TaskStatus,
    now: Timestamp,
) -> (changes: TaskChanges)
    ensures
        changes.title is None,
        string_opt_view(changes.description) == str_opt_view(new_description),
        changes.due_date == new_due_date,
        string_opt_view(changes.status) == Some(status_text(new_status)),
        changes.start_time == start_stamp(new_status, now),
        changes.end_time == end_stamp(new_status, now),
{
    let (start_time, end_time) = match new_status {
        TaskStatus::Completed => (None, Some(now)),
        TaskStatus::InProgress => (Some(now), None),
        TaskStatus::Pending => (None, None),
    };
    TaskChanges {
        title: None,
        description: owned_opt(new_description),
        due_date: new_due_date,
        status: new_status.as_string(),
        start_time,
        end_time,
    }
}

/// The columns written when a task's title, notes, due date and status
/// change; no time is stamped.
pub fn task_changes(
    new_title: &str,
    new_description: Option<&str>,
    new_due_date: Option<CalendarDate>,
    new_status: TaskStatus,
) -> (changes: TaskChanges)
    ensures
        changes.title matches Some(t) && t@ == new_title@,
        string_opt_view(changes.description) == str_opt_view(new_description),
        changes.due_date == new_due_date,
        string_opt_view(changes.status) == Some(status_text(new_status)),
        changes.start_time is None,
        changes.end_time is None,
{
    TaskChanges {
        title: Some(new_title.to_owned()),
        description: owned_opt(new_description),
        due_date: new_due_date,
        status: new_status.as_string(),
        start_time: None,
        end_time: None,
    }
}

/// The `LIKE` pattern that matches titles containing `query`.
pub fn title_search_pattern(query: &str) -> (pattern: String)
    ensures
        pattern@ == seq!['%'] + query@ + seq!['%'],
{
    let mut pattern = "%".to_owned();
    proof {
        reveal_strlit("%");
    }
    pattern.append(query);
    pattern.append("%");
    pattern
}

/// The titles of a sequence of tasks.
pub open spec fn titles(tasks: Seq<Task>) -> Seq<Seq<char>> {
    tasks.map_values(|t: Task| t.title@)
}

/// The tasks of `tasks` whose title no earlier task has, in their order.
pub open spec fn first_of_each_title(tasks: Seq<Task>) -> Seq<Task>
    decreases tasks.len(),
{
    if tasks.len() == 0 {
        seq![]
    } else {
        let earlier = tasks.drop_last();
        let kept = first_of_each_title(earlier);
        if titles(earlier).contains(tasks.last().title@) {
            kept
        } else {
            kept.push(tasks.last())
        }
    }
}

/// An element occurs in a sequence with one more element at its end exactly
/// when it is that element or occurs in the sequence.
proof fn lemma_push_contains(s: Seq<Seq<char>>, x: Seq<char>, y: Seq<char>)
    ensures
        s.push(x).contains(y) <==> (s.contains(y) || x == y),
{
    if s.push(x).contains(y) {
        let k = choose|k: int| 0 <= k < s.push(x).len() && s.push(x)[k] == y;
        if k < s.len() {
            assert(s[k] == y);
        }
    }
    if s.contains(y) {
        let k = choose|k: int| 0 <= k < s.len() && s[k] == y;
        assert(s.push(x)[k] == y);
    }
    if x == y {
        assert(s.push(x)[s.len() as int] == y);
    }
}

/// A title occurs among the kept tasks exactly when it occurs among all
/// tasks.
pub proof fn lemma_first_of_each_title_keeps_titles(tasks: Seq<Task>, title: Seq<char>)
    ensures
        titles(first_of_each_title(tasks)).contains(title) <==> titles(tasks).contains(title),
    decreases tasks.len(),
{
    if tasks.len() == 0 {
        assert(titles(first_of_each_title(tasks)) =~= Seq::<Seq<char>>::empty());
        assert(titles(tasks) =~= Seq::<Seq<char>>::empty());
    } else {
        let earlier = tasks.drop_last();
        let last = tasks.last().title@;
        lemma_first_of_each_title_keeps_titles(earlier, title);
        let kept = first_of_each_title(earlier);
        assert(titles(tasks) =~= titles(earlier).push(last));
        lemma_push_contains(titles(earlier), last, title);
        if titles(earlier).contains(last) {
            lemma_first_of_each_title_keeps_titles(earlier, last);
        } else {
            assert(titles(kept.push(tasks.last())) =~= titles(kept).push(last));
            lemma_push_contains(titles(kept), last, title);
        }
    }
}

/// No two tasks of a sequence share a title.
pub open spec fn titles_distinct(tasks: Seq<Task>) -> bool {
    forall|i: int, j: int| 0 <= i < j < tasks.len() ==> tasks[i].title@ != tasks[j].title@
}

/// The kept tasks have pairwise different titles.
pub proof fn lemma_first_of_each_title_distinct(tasks: Seq<Task>)
    ensures
        titles_distinct(first_of_each_title(tasks)),
    decreases tasks.len(),
{
    if tasks.len() > 0 {
        let earlier = tasks.drop_last();
        let kept = first_of_each_title(earlier);
        lemma_first_of_each_title_distinct(earlier);
        if !titles(earlier).contains(tasks.last().title@) {
            lemma_first_of_each_title_keeps_titles(earlier, tasks.last().title@);
            let pushed = kept.push(tasks.last());
            assert forall|i: int, j: int| 0 <= i < j < pushed.len() implies
                pushed[i].title@ != pushed[j].title@ by {
                if j == kept.len() {
                    assert(titles(kept)[i] == kept[i].title@);
                }
            }
        }
    }
}

/// Tasks whose titles are already pairwise different are all kept, in
/// their order.
pub proof fn lemma_first_of_each_title_of_distinct(tasks: Seq<Task>)
    requires
        titles_distinct(tasks),
    ensures
        first_of_each_title(tasks) == tasks,
    decreases tasks.len(),
{
    if tasks.len() > 0 {
        let earlier = tasks.drop_last();
        lemma_first_of_each_title_of_distinct(earlier);
        if titles(earlier).contains(tasks.last().title@) {
            let k = choose|k: int| 0 <= k < titles(earlier).len() && titles(earlier)[k] == tasks.last().title@;
            assert(tasks[k].title@ == tasks[tasks.len() - 1].title@);
        }
        assert(earlier.push(tasks.last()) =~= tasks);
    }
}

/// Keeping the first task of each title a second time changes nothing.
pub proof fn lemma_first_of_each_title_idempotent(tasks: Seq<Task>)
    ensures
        first_of_each_title(first_of_each_title(tasks)) == first_of_each_title(tasks),
{
    lemma_first_of_each_title_distinct(tasks);
    lemma_first_of_each_title_of_distinct(first_of_each_title(tasks));
}

/// The kept tasks are tasks of the input in the input's order: the returned
/// indices give, for each kept task, where it stands in `tasks`, and they
/// increase.
pub proof fn lemma_first_of_each_title_in_order(tasks: Seq<Task>) -> (idx: Seq<int>)
    ensures
        idx.len() == first_of_each_title(tasks).len(),
        forall|k: int|
            0 <= k < idx.len() ==> 0 <= #[trigger] idx[k] < tasks.len()
                && first_of_each_title(tasks)[k] == tasks[idx[k]],
        forall|k: int, l: int| 0 <= k < l < idx.len() ==> #[trigger] idx[k] < #[trigger] idx[l],
    decreases tasks.len(),
{
    if tasks.len() == 0 {
        seq![]
    } else {
        let earlier = tasks.drop_last();
        let before = lemma_first_of_each_title_in_order(earlier);
        if titles(earlier).contains(tasks.last().title@) {
            before
        } else {
            before.push(tasks.len() - 1)
        }
    }
}

/// Tasks ordered by title under `le`: each title is related by `le` to every
/// later one.
pub open spec fn ordered_by_title(tasks: Seq<Task>, le: spec_fn(Seq<char>, Seq<char>) -> bool) -> bool {
    forall|i: int, j: int| 0 <= i < j < tasks.len() ==> le(tasks[i].title@, tasks[j].title@)
}

/// Tasks that come ordered by title stay ordered by title once only the first
/// task of each title is kept.
pub proof fn lemma_first_of_each_title_keeps_order(
    tasks: Seq<Task>,
    le: spec_fn(Seq<char>, Seq<char>) -> bool,
)
    requires
        ordered_by_title(tasks, le),
    ensures
        ordered_by_title(first_of_each_title(tasks), le),
{
    let kept = first_of_each_title(tasks);
    let idx = lemma_first_of_each_title_in_order(tasks);
    assert forall|i: int, j: int| 0 <= i < j < kept.len() implies le(kept[i].title@, kept[j].title@) by {
        assert(idx[i] < idx[j]);
        assert(kept[i] == tasks[idx[i]]);
        assert(kept[j] == tasks[idx[j]]);
    }
}

/// Whether some task of `tasks` has the title `title`.
fn has_title(tasks: &Vec<Task>, title: &String) -> (found: bool)
    ensures
        found == titles(tasks@).contains(title@),
{
    let mut i: usize = 0;
    while i < tasks.len()
        invariant
            i <= tasks@.len(),
            forall|j: int| 0 <= j < i ==> tasks@[j].title@ != title@,
        decreases tasks@.len() - i,
    {
        if tasks[i].title == *title {
            assert(titles(tasks@)[i as int] == title@);
            return true;
        }
        i = i + 1;
    }
    proof {
        if titles(tasks@).contains(title@) {
            let k = choose|k: int| 0 <= k < titles(tasks@).len() && titles(tasks@)[k] == title@;
            assert(tasks@[k].title@ == title@);
        }
    }
    false
}

/// Keeps, of the tasks found by a title search, the first task of each
/// title, in their order.
pub fn unique_by_title(tasks: Vec<Task>) -> (unique: Vec<Task>)
    ensures
        unique@ == first_of_each_title(tasks@),
{
    let ghost all = tasks@;
    let mut rest = tasks;
    let mut unique: Vec<Task> = Vec::new();
    let ghost mut done: int = 0;
    while rest.len() > 0
        invariant
            0 <= done <= all.len(),
            rest@ == all.skip(done),
            unique@ == first_of_each_title(all.take(done)),
        decreases rest@.len(),
    {
        let task = rest.remove(0);
        proof {
            assert(all.take(done + 1).drop_last() =~= all.take(done));
            assert(all.take(done + 1).last() == task);
            lemma_first_of_each_title_keeps_titles(all.take(done), task.title@);
        }
        let seen = has_title(&unique, &task.title);
        if !seen {
            unique.push(task);
        }
        proof {
            done = done + 1;
            assert(rest@ =~= all.skip(done));
        }
    }
    assert(all.take(done) =~= all);
    unique
}

} // verus!
