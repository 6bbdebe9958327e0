use vstd::prelude::*;
use crate::models::Timestamp;

verus! {

/// A reward that a user grants himself.
#[derive(Debug, Clone, PartialEq)]
pub struct Reward {
    pub id: i32,
    pub user_id: i32,
    pub description: String,
    pub points: Option<i32>,
    pub created_at: Timestamp,
}

/// A reward as a client submits it.
#[derive(Debug, Clone, PartialEq)]
pub struct NewReward {
    pub user_id: i32,
    pub description: String,
    pub points: Option<i32>,
    pub created_at: Timestamp,
}

} // verus!
