use life_tracker::models::{CalendarDate, DailyTodo, Project, Reward, Task, Timestamp};
use life_tracker::routes::daily_todo_api::daily_todos_html;
use life_tracker::routes::deleted_message;
use life_tracker::routes::navigation::{active_tasks, autocomplete_query, dashboard_gate,
    login_reply, login_roles, suggestion_titles, time_tracker_gate, AutocompleteQuery, LoginReply,
    SessionGate};
use life_tracker::routes::projects_api::projects_html;
use life_tracker::routes::rewards_api::rewards_html;
use life_tracker::routes::tasks_api::submitted_task_row;

fn task(id: i32, title: &str, status: &str) -> Task {
    Task {
        id,
        user_id: 1,
        project_id: None,
        title: title.to_string(),
        description: None,
        due_date: None,
        status: Some(status.to_string()),
        created_at: Timestamp { secs: 0, nanos: 0 },
    }
}

#[test]
fn deleted_messages_name_kind_and_id() {
    assert_eq!(deleted_message("Task", 42), "Task 42 deleted");
    assert_eq!(deleted_message("Daily todo", 0), "Daily todo 0 deleted");
    assert_eq!(deleted_message("Goal", -7), "Goal -7 deleted");
    assert_eq!(deleted_message("User", i32::MAX), "User 2147483647 deleted");
    assert_eq!(deleted_message("Reward", i32::MIN), "Reward -2147483648 deleted");
}

#[test]
fn rewards_page_lists_descriptions() {
    let rewards = vec![
        Reward { id: 1, user_id: 1, description: "Cake".into(), points: Some(3), created_at: Timestamp { secs: 0, nanos: 0 } },
        Reward { id: 2, user_id: 1, description: "Walk".into(), points: None, created_at: Timestamp { secs: 0, nanos: 0 } },
    ];
    assert_eq!(rewards_html(&rewards), "<li>Cake</li><li>Walk</li>");
    assert_eq!(rewards_html(&Vec::new()), "");
}

#[test]
fn projects_page_lists_title_and_description() {
    let projects = vec![
        Project { id: 1, user_id: 1, title: "House".into(), description: Some("paint".into()), created_at: Timestamp { secs: 0, nanos: 0 } },
        Project { id: 2, user_id: 1, title: "Garden".into(), description: None, created_at: Timestamp { secs: 0, nanos: 0 } },
    ];
    assert_eq!(projects_html(&projects), "<li>House: paint</li><li>Garden: None</li>");
}

#[test]
fn daily_todos_page_lists_dates() {
    let d1 = CalendarDate::from_days_from_ce(739_288).unwrap();
    let d2 = CalendarDate::from_days_from_ce(730_000).unwrap();
    let todos = vec![
        DailyTodo { id: 1, user_id: 1, task_id: 2, date: d1, completed: None },
        DailyTodo { id: 2, user_id: 1, task_id: 3, date: d2, completed: Some(true) },
    ];
    assert_eq!(daily_todos_html(&todos), "<li>2025-02-06</li><li>1999-09-03</li>");
}

#[test]
fn dashboard_lists_unfinished_tasks() {
    let tasks = vec![task(1, "a", "pending"), task(2, "b", "completed"), task(3, "c", "in_progress"),
        task(4, "d", "completed")];
    let ids: Vec<i32> = active_tasks(tasks).iter().map(|t| t.id).collect();
    assert_eq!(ids, vec![1, 3]);
}

#[test]
fn gates_follow_the_session() {
    assert_eq!(dashboard_gate(Ok(Some("ann".into()))), SessionGate::Proceed("ann".into()));
    assert_eq!(dashboard_gate(Ok(None)), SessionGate::RedirectToLogin);
    assert_eq!(dashboard_gate(Err(())), SessionGate::SessionError);
    assert_eq!(time_tracker_gate(Ok(Some("ann".into()))), SessionGate::Proceed("ann".into()));
    assert_eq!(time_tracker_gate(Ok(None)), SessionGate::RedirectToLogin);
    assert_eq!(time_tracker_gate(Err(())), SessionGate::RedirectToLogin);
}

#[test]
fn autocomplete_reads_second_field() {
    assert_eq!(autocomplete_query("taskInput=write%20report"),
        AutocompleteQuery::Search("write report".into()));
    assert_eq!(autocomplete_query("taskInput="), AutocompleteQuery::Empty);
    assert_eq!(autocomplete_query("a=b=c"), AutocompleteQuery::Search("b".into()));
    assert_eq!(autocomplete_query("=x"), AutocompleteQuery::Search("x".into()));
    assert_eq!(autocomplete_query("q=%2%20"), AutocompleteQuery::Search("%2 ".into()));
    assert_eq!(autocomplete_query("q=%20"), AutocompleteQuery::Search(" ".into()));
}

#[test]
fn suggestions_are_titles() {
    let found = vec![task(1, "alpha", "pending"), task(2, "beta", "completed")];
    assert_eq!(suggestion_titles(Some(found)), vec!["alpha".to_string(), "beta".to_string()]);
    assert!(suggestion_titles(None).is_empty());
}

#[test]
fn login_answers() {
    assert_eq!(login_reply(false, Some("t".into())), LoginReply::InvalidCredentials);
    assert_eq!(login_reply(true, Some("tok".into())), LoginReply::Dashboard("tok".into()));
    assert_eq!(login_reply(true, None), LoginReply::TokenFailed);
    assert_eq!(LoginReply::InvalidCredentials.message(), "Invalid credentials");
    assert_eq!(LoginReply::TokenFailed.message(), "Error creating token");
    assert_eq!(login_roles(), vec!["ADMIN".to_string(), "OP_GET_SECURED_INFO".to_string()]);
}

#[test]
fn submitted_task_is_due_next_day() {
    let today = CalendarDate::from_days_from_ce(739_288).unwrap();
    let due = today.next_day().unwrap();
    let now = Timestamp { secs: 77, nanos: 123_456_789 };
    let row = submitted_task_row("Focus", "in_progress", due, 9, now);
    assert_eq!(row.title, "Focus");
    assert_eq!(row.description, Some(String::new()));
    assert_eq!(row.due_date.unwrap().to_text(), "2025-02-07");
    assert_eq!(row.status, Some("in_progress".to_string()));
    assert_eq!(row.start_time, Some(now));
    assert_eq!(row.user_id, 9);
}

#[test]
fn autocomplete_plain_words_come_back() {
    assert_eq!(autocomplete_query("taskInput=hello"), AutocompleteQuery::Search("hello".into()));
    assert_eq!(autocomplete_query("x=a b"), AutocompleteQuery::Search("a b".into()));
}

#[test]
fn dashboard_filter_twice_changes_nothing() {
    let tasks = vec![task(1, "a", "pending"), task(2, "b", "completed"), task(3, "c", "in_progress")];
    let once = active_tasks(tasks);
    let twice = active_tasks(once.clone());
    assert_eq!(once, twice);
    assert!(once.iter().all(|t| t.status.as_deref() != Some("completed")));
}
