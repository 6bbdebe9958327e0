use vstd::prelude::*;
use crate::models::{CalendarDate, Timestamp};

verus! {

/// A goal that a user sets.
#[derive(Debug, Clone, PartialEq)]
pub struct Goal {
    pub id: i32,
    pub user_id: i32,
    pub title: String,
    pub description: Option<String>,
    pub due_date: Option<CalendarDate>,
    pub status: Option<String>,
    pub created_at: Timestamp,
}

/// A goal as a client submits it.
#[derive(Debug, Clone, PartialEq)]
pub struct NewGoal {
    pub user_id: i32,
    pub title: String,
    pub description: Option<String>,
    pub due_date: Option<CalendarDate>,
    pub status: Option<String>,
}

} // verus!
