use vstd::prelude::*;
use crate::models::{CalendarDate, Timestamp};

verus! {

/// A day's to-do entry: a task that a user means to do on a date.
#[derive(Debug, Clone, PartialEq)]
pub struct DailyTodo {
    pub id: i32,
    pub user_id: i32,
    pub task_id: i32,
    pub date: CalendarDate,
    pub completed: Option<bool>,
}

/// A day's to-do entry before the database gives it an id.
#[derive(Debug, Clone, PartialEq)]
pub struct NewDailyTodo {
    pub user_id: i32,
    pub task_id: i32,
    pub date: CalendarDate,
    pub completed: Option<bool>,
}

} // verus!
