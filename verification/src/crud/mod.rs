pub mod task;
pub mod tags;
pub mod user;
pub mod goals;

pub use task::{create_task_row, task_changes, task_changes_without_title, title_search_pattern,
    unique_by_title, TaskChanges};
pub use user::{check_password, new_user_row, new_user_with_hash, user_changes, LoginError, PasswordHashError,
    UserChanges};
pub use tags::{new_tag_row, tag_ids, task_tag_rows};
pub use goals::{goal_changes, new_goal_row, stored_goal, GoalChanges};
