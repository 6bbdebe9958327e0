use vstd::prelude::*;
use crate::models::Timestamp;

verus! {

/// A project of a user.
#[derive(Debug, Clone, PartialEq)]
pub struct Project {
    pub id: i32,
    pub user_id: i32,
    pub title: String,
    pub description: Option<String>,
    pub created_at: Timestamp,
}

/// A project as a client submits it.
#[derive(Debug, Clone, PartialEq)]
pub struct NewProject {
    pub user_id: i32,
    pub title: String,
    pub description: Option<String>,
    pub created_at: Option<Timestamp>,
}

/// The link between a project and one of its goals.
#[derive(Debug, Clone, Copy, PartialEq, Eq, Structural)]
pub struct ProjectGoal {
    pub project_id: i32,
    pub goal_id: i32,
}

} // verus!
