//! Life Tracker: the rules behind a small task, goal and reward tracker.
//!
//! The library holds what the web application decides and computes: the
//! task status life cycle, the rows and change sets written to the database,
//! the filters and searches over what is read back, the pages and replies
//! built from them, and the handling of chat-completion replies.  Reading
//! and writing the database, the network and the clock is left to the
//! application around it.

pub mod text;
pub mod types;
pub mod models;
pub mod crud;
pub mod routes;
pub mod gpt;
pub mod auth;
pub mod clean_input;
pub mod settings;
