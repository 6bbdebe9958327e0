use vstd::prelude::*;
use crate::models::{CalendarDate, Timestamp};

verus! {

/// A task of a user, as the database holds it.
#[derive(Debug, Clone, PartialEq)]
pub struct Task {
    pub id: i32,
    pub user_id: i32,
    pub project_id: Option<i32>,
    pub title: String,
    pub description: Option<String>,
    pub due_date: Option<CalendarDate>,
    pub status: Option<String>,
    pub created_at: Timestamp,
}

/// A task before the database gives it an id.
#[derive(Debug, Clone, PartialEq)]
pub struct NewTask {
    pub title: String,
    pub user_id: i32,
    pub description: Option<String>,
    pub due_date: Option<CalendarDate>,
    pub status: Option<String>,
    pub project_id: Option<i32>,
    pub start_time: Option<Timestamp>,
    pub end_time: Option<Timestamp>,
    pub parent_task_id: Option<i32>,
}

} // verus!
