use vstd::prelude::*;

verus! {

/// The link between a task and one of its tags.
#[derive(Debug, Clone, Copy, PartialEq, Eq, Structural)]
pub struct TaskTag {
    pub id: i32,
    pub task_id: i32,
    pub tag_id: i32,
}

/// The link between a task and a tag, before the database gives it an id.
#[derive(Debug, Clone, Copy, PartialEq, Eq, Structural)]
pub struct NewTaskTag {
    pub task_id: i32,
    pub tag_id: i32,
}

} // verus!
