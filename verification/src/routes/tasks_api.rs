use vstd::prelude::*;
use crate::crud::task::{create_task_row, start_stamp};
use crate::models::{CalendarDate, NewTask, Timestamp};
use crate::types::task_status::{status_from_text, TaskStatus};
use crate::text::string_opt_view;

verus! {

/// The task that submitting a task from the time tracker creates at `now`:
/// the submitted title, empty notes, due on `due_date` (the day after the
/// submission), in the submitted status, for the logged-in user.  A status
/// text that names no status is refused by a panic.
pub fn submitted_task_row(
    title: &str,
    status: &str,
    due_date: CalendarDate,
    user_id: i32,
    now: Timestamp,
) -> (row: NewTask)
    requires
        status_from_text(status@) is Some,
    ensures
        row.title@ == title@,
        row.user_id == user_id,
        string_opt_view(row.description) == Some(Seq::<char>::empty()),
        row.due_date == Some(due_date),
        string_opt_view(row.status) == Some(status@),
        row.project_id is None,
        row.start_time == start_stamp(status_from_text(status@)->0, now),
        row.end_time is None,
        row.parent_task_id is None,
{
    let parsed = TaskStatus::from_str(status);
    proof {
        crate::types::task_status::lemma_status_text_unique(status@);
        reveal_strlit("");
    }
    create_task_row(title, Some(""), Some(due_date), user_id, parsed, None, now)
}

} // verus!
