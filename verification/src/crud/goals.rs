//! What the goal operations write and give back.

use vstd::prelude::*;
use crate::models::{CalendarDate, Goal, NewGoal, Timestamp};
use crate::text::{owned_opt, str_opt_view, string_opt_view};

verus! {

/// The row that creating a goal inserts: the given fields, the status always
/// present, and no id, which the database assigns on insert.
pub fn new_goal_row(
    goal_user_id: i32,
    goal_title: &str,
    goal_description: Option<&str>,
    goal_due_date: Option<CalendarDate>,
    goal_status: &str,
) -> (row: NewGoal)
    ensures
        row.user_id == goal_user_id,
        row.title@ == goal_title@,
        string_opt_view(row.description) == str_opt_view(goal_description),
        row.due_date == goal_due_date,
        row.status matches Some(s) && s@ == goal_status@,
{
    NewGoal {
        user_id: goal_user_id,
        title: goal_title.to_owned(),
        description: owned_opt(goal_description),
        due_date: goal_due_date,
        status: Some(goal_status.to_owned()),
    }
}

/// The goal that creating a goal gives back once `row` is stored under the
/// id the database assigned: that id, the row's fields, and the creation
/// time.
pub fn stored_goal(assigned_id: i32, row: NewGoal, created_at: Timestamp) -> (goal: Goal)
    ensures
        goal.id == assigned_id,
        goal.user_id == row.user_id,
        goal.title == row.title,
        goal.description == row.description,
        goal.due_date == row.due_date,
        goal.status == row.status,
        goal.created_at == created_at,
{
    Goal {
        id: assigned_id,
        user_id: row.user_id,
        title: row.title,
        description: row.description,
        due_date: row.due_date,
        status: row.status,
        created_at,
    }
}

/// The columns that updating a goal writes: each present field, and no
/// other.
#[derive(Debug, Clone, PartialEq)]
pub struct GoalChanges {
    pub title: Option<String>,
    pub description: Option<String>,
    pub due_date: Option<CalendarDate>,
    pub status: Option<String>,
}

/// The columns written when a goal changes: exactly the fields given.
pub fn goal_changes(
    new_title: Option<&str>,
    new_description: Option<&str>,
    new_due_date: Option<CalendarDate>,
    new_status: Option<&str>,
) -> (changes: GoalChanges)
    ensures
        string_opt_view(changes.title) == str_opt_view(new_title),
        string_opt_view(changes.description) == str_opt_view(new_description),
        changes.due_date == new_due_date,
        string_opt_view(changes.status) == str_opt_view(new_status),
{
    GoalChanges {
        title: owned_opt(new_title),
        description: owned_opt(new_description),
        due_date: new_due_date,
        status: owned_opt(new_status),
    }
}

} // verus!
