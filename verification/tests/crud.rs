use life_tracker::crud::goals::{goal_changes, new_goal_row, stored_goal};
use life_tracker::crud::tags::{new_tag_row, tag_ids, task_tag_rows};
use life_tracker::crud::task::{create_task_row, task_changes, task_changes_without_title,
    title_search_pattern, unique_by_title};
use life_tracker::crud::user::{check_password, email_or_empty, new_user_row, new_user_with_hash,
    user_changes, LoginError, PasswordHashError};
use life_tracker::models::{CalendarDate, NewTaskTag, Task, Timestamp, User};
use life_tracker::types::TaskStatus;

fn task(id: i32, title: &str, status: &str) -> Task {
    Task {
        id,
        user_id: 4,
        project_id: None,
        title: title.to_string(),
        description: None,
        due_date: None,
        status: Some(status.to_string()),
        created_at: Timestamp { secs: 1_000, nanos: 0 },
    }
}

#[test]
fn create_task_row_in_progress_stamps_start() {
    let now = Timestamp { secs: 1_700_000_000, nanos: 999_999_999 };
    let due = CalendarDate::from_days_from_ce(739_288);
    let row = create_task_row("Write", Some("notes"), due, 7, Some(TaskStatus::InProgress), Some(3), now);
    assert_eq!(row.title, "Write");
    assert_eq!(row.user_id, 7);
    assert_eq!(row.description, Some("notes".to_string()));
    assert_eq!(row.due_date, due);
    assert_eq!(row.status, Some("in_progress".to_string()));
    assert_eq!(row.project_id, None);
    assert_eq!(row.start_time, Some(now));
    assert_eq!(row.end_time, None);
    assert_eq!(row.parent_task_id, Some(3));
}

#[test]
fn create_task_row_pending_has_no_start() {
    let now = Timestamp { secs: 5, nanos: 0 };
    let row = create_task_row("Plan", None, None, 1, Some(TaskStatus::Pending), None, now);
    assert_eq!(row.status, Some("pending".to_string()));
    assert_eq!(row.description, None);
    assert_eq!(row.start_time, None);
    assert_eq!(row.end_time, None);
    let done = create_task_row("Old", None, None, 1, Some(TaskStatus::Completed), None, now);
    assert_eq!(done.status, Some("completed".to_string()));
    assert_eq!(done.start_time, None);
    assert_eq!(done.end_time, None);
}

#[test]
fn update_without_title_stamps_by_status() {
    let now = Timestamp { secs: 99, nanos: 0 };
    let done = task_changes_without_title(Some("n"), None, TaskStatus::Completed, now);
    assert_eq!(done.title, None);
    assert_eq!(done.description, Some("n".to_string()));
    assert_eq!(done.status, Some("completed".to_string()));
    assert_eq!(done.end_time, Some(now));
    assert_eq!(done.start_time, None);
    let started = task_changes_without_title(None, None, TaskStatus::InProgress, now);
    assert_eq!(started.description, None);
    assert_eq!(started.status, Some("in_progress".to_string()));
    assert_eq!(started.start_time, Some(now));
    assert_eq!(started.end_time, None);
    let pending = task_changes_without_title(None, None, TaskStatus::Pending, now);
    assert_eq!(pending.status, Some("pending".to_string()));
    assert_eq!(pending.start_time, None);
    assert_eq!(pending.end_time, None);
}

#[test]
fn full_update_sets_title_and_no_times() {
    let due = CalendarDate::from_days_from_ce(730_000);
    let c = task_changes("New title", Some("d"), due, TaskStatus::Pending);
    assert_eq!(c.title, Some("New title".to_string()));
    assert_eq!(c.description, Some("d".to_string()));
    assert_eq!(c.due_date, due);
    assert_eq!(c.status, Some("pending".to_string()));
    assert_eq!(c.start_time, None);
    assert_eq!(c.end_time, None);
}

#[test]
fn search_pattern_wraps_query() {
    assert_eq!(title_search_pattern("asdf"), "%asdf%");
    assert_eq!(title_search_pattern(""), "%%");
}

#[test]
fn unique_by_title_keeps_first_of_each() {
    let tasks = vec![task(1, "a", "pending"), task(2, "a", "completed"), task(3, "b", "pending"),
        task(4, "a", "pending"), task(5, "c", "pending"), task(6, "b", "pending")];
    let ids: Vec<i32> = unique_by_title(tasks).iter().map(|t| t.id).collect();
    assert_eq!(ids, vec![1, 3, 5]);
    assert!(unique_by_title(Vec::new()).is_empty());
}

#[test]
fn unique_by_title_keeps_title_order() {
    let tasks = vec![task(1, "apple", "pending"), task(2, "apple", "completed"), task(3, "banana", "pending"),
        task(4, "cherry", "pending"), task(5, "cherry", "pending")];
    let kept: Vec<String> = unique_by_title(tasks).iter().map(|t| t.title.clone()).collect();
    assert_eq!(kept, vec!["apple".to_string(), "banana".to_string(), "cherry".to_string()]);
    let mut sorted = kept.clone();
    sorted.sort();
    assert_eq!(kept, sorted);
}

#[test]
fn unique_by_title_twice_changes_nothing() {
    let tasks = vec![task(1, "x", "pending"), task(2, "y", "pending"), task(3, "x", "pending")];
    let once = unique_by_title(tasks);
    let twice = unique_by_title(once.clone());
    assert_eq!(once, twice);
}

#[test]
fn new_user_row_and_password_check() {
    let row = new_user_row("ann", None, "s3cret").unwrap();
    assert_eq!(row.username, "ann");
    assert_eq!(row.email, "");
    assert_ne!(row.password_hash, "s3cret");
    let user = User {
        id: 1,
        username: row.username.clone(),
        email: row.email.clone(),
        password_hash: row.password_hash.clone(),
        created_at: Timestamp { secs: 0, nanos: 0 },
    };
    assert_eq!(check_password(user.clone(), "s3cret"), Ok(user.clone()));
    assert_eq!(check_password(user, "wrong"), Err(LoginError::WrongPassword));
}

#[test]
fn password_check_refuses_unreadable_hash() {
    let user = User {
        id: 2,
        username: "bob".to_string(),
        email: "b@x.org".to_string(),
        password_hash: "plain-text".to_string(),
        created_at: Timestamp { secs: 0, nanos: 0 },
    };
    assert_eq!(check_password(user, "plain-text"), Err(LoginError::UnreadableHash));
}

#[test]
fn email_defaults_to_empty() {
    assert_eq!(email_or_empty(Some("a@b.c")), "a@b.c");
    assert_eq!(email_or_empty(None), "");
    let c = user_changes("hash", None);
    assert_eq!(c.password_hash, "hash");
    assert_eq!(c.email, "");
    assert_eq!(user_changes("h2", Some("e@f.g")).email, "e@f.g");
}

#[test]
fn tag_rows_give_back_the_tags() {
    let tags = vec![5, 2, 9];
    let rows = task_tag_rows(11, &tags);
    assert_eq!(rows, vec![
        NewTaskTag { task_id: 11, tag_id: 5 },
        NewTaskTag { task_id: 11, tag_id: 2 },
        NewTaskTag { task_id: 11, tag_id: 9 },
    ]);
    assert_eq!(tag_ids(&rows), tags);
    assert!(task_tag_rows(1, &Vec::new()).is_empty());
}

#[test]
fn new_tag_has_no_icon() {
    let t = new_tag_row("home", 3);
    assert_eq!(t.name, "home");
    assert_eq!(t.user_id, 3);
    assert_eq!(t.icon_url, None);
}

#[test]
fn new_goal_row_carries_fields_and_status() {
    let row = new_goal_row(8, "Run", Some("5k"), None, "active");
    assert_eq!(row.user_id, 8);
    assert_eq!(row.title, "Run");
    assert_eq!(row.description, Some("5k".to_string()));
    assert_eq!(row.due_date, None);
    assert_eq!(row.status, Some("active".to_string()));
}

#[test]
fn stored_goals_keep_their_assigned_ids() {
    let now = Timestamp { secs: 12, nanos: 0 };
    let first = stored_goal(1, new_goal_row(8, "Run", Some("5k"), None, "active"), now);
    let second = stored_goal(2, new_goal_row(8, "Swim", None, None, "active"), now);
    assert_eq!(first.id, 1);
    assert_eq!(second.id, 2);
    assert_ne!(first.id, second.id);
    assert_eq!(first.user_id, 8);
    assert_eq!(first.title, "Run");
    assert_eq!(first.description, Some("5k".to_string()));
    assert_eq!(first.due_date, None);
    assert_eq!(first.status, Some("active".to_string()));
    assert_eq!(first.created_at, now);
    assert_eq!(second.title, "Swim");
    assert_eq!(second.description, None);
}

#[test]
fn goal_changes_carry_given_fields() {
    let c = goal_changes(Some("t"), None, None, Some("done"));
    assert_eq!(c.title, Some("t".to_string()));
    assert_eq!(c.description, None);
    assert_eq!(c.status, Some("done".to_string()));
}

#[test]
fn new_user_with_hash_stores_given_hash() {
    let row = new_user_with_hash("cy", Some("c@y.z"), Ok("$2b$12$abc".to_string())).unwrap();
    assert_eq!(row.username, "cy");
    assert_eq!(row.email, "c@y.z");
    assert_eq!(row.password_hash, "$2b$12$abc");
    assert_eq!(new_user_with_hash("cy", None, Err(PasswordHashError)), Err(PasswordHashError));
}
