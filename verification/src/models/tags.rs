use vstd::prelude::*;

verus! {

/// A tag that a user attaches to tasks.
#[derive(Debug, Clone, PartialEq)]
pub struct Tag {
    pub id: i32,
    pub user_id: i32,
    pub name: String,
    pub icon_url: Option<String>,
}

/// A tag before the database gives it an id.
#[derive(Debug, Clone, PartialEq)]
pub struct NewTag {
    pub name: String,
    pub user_id: i32,
    pub icon_url: Option<String>,
}

} // verus!
