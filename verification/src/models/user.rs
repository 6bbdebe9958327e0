use vstd::prelude::*;
use crate::models::Timestamp;

verus! {

/// A user account.
#[derive(Debug, Clone, PartialEq)]
pub struct User {
    pub id: i32,
    pub username: String,
    pub email: String,
    pub password_hash: String,
    pub created_at: Timestamp,
}

/// A user account before the database gives it an id.
#[derive(Debug, Clone, PartialEq)]
pub struct NewUser {
    pub username: String,
    pub email: String,
    pub password_hash: String,
}

} // verus!
