use life_tracker::types::TaskStatus;

#[test]
fn from_str_reads_the_three_texts() {
    assert_eq!(TaskStatus::from_str("pending"), Some(TaskStatus::Pending));
    assert_eq!(TaskStatus::from_str("in_progress"), Some(TaskStatus::InProgress));
    assert_eq!(TaskStatus::from_str("completed"), Some(TaskStatus::Completed));
}

#[test]
fn from_str_refuses_other_texts() {
    assert_eq!(TaskStatus::from_str(""), None);
    assert_eq!(TaskStatus::from_str("Pending"), None);
    assert_eq!(TaskStatus::from_str("suspended"), None);
    assert_eq!(TaskStatus::from_str("completed "), None);
    assert_eq!(TaskStatus::from_str("in progress"), None);
}

#[test]
fn to_str_gives_stored_texts() {
    assert_eq!(TaskStatus::Pending.to_str(), "pending");
    assert_eq!(TaskStatus::InProgress.to_str(), "in_progress");
    assert_eq!(TaskStatus::Completed.to_str(), "completed");
}

#[test]
fn as_string_is_always_present() {
    assert_eq!(TaskStatus::Pending.as_string(), Some("pending".to_string()));
    assert_eq!(TaskStatus::InProgress.as_string(), Some("in_progress".to_string()));
    assert_eq!(TaskStatus::Completed.as_string(), Some("completed".to_string()));
}

#[test]
fn stored_text_reads_back() {
    for s in [TaskStatus::Pending, TaskStatus::InProgress, TaskStatus::Completed] {
        assert_eq!(TaskStatus::from_str(s.to_str()), Some(s));
    }
}

#[test]
fn transitions_follow_the_life_cycle() {
    let all = [TaskStatus::Pending, TaskStatus::InProgress, TaskStatus::Completed];
    for a in all {
        for b in all {
            let expected = matches!(
                (a, b),
                (TaskStatus::Pending, TaskStatus::InProgress)
                    | (TaskStatus::InProgress, TaskStatus::Completed)
            );
            assert_eq!(a.can_transition_to(&b), expected);
        }
    }
    assert!(!TaskStatus::Pending.can_transition_to(&TaskStatus::Completed));
    assert!(!TaskStatus::Completed.can_transition_to(&TaskStatus::Pending));
}
