use persona_store::vocab::{Priority, TaskStatus, WorkstreamStatus};

#[test]
fn workstream_status_tokens_are_read_back() {
    let all = [
        (WorkstreamStatus::Planning, "planning"),
        (WorkstreamStatus::Active, "active"),
        (WorkstreamStatus::Paused, "paused"),
        (WorkstreamStatus::Completed, "completed"),
        (WorkstreamStatus::Cancelled, "cancelled"),
    ];
    for (status, token) in all {
        assert_eq!(status.token(), token);
        assert_eq!(WorkstreamStatus::parse(token), Some(status));
    }
}

#[test]
fn task_status_tokens_are_read_back() {
    let all = [
        (TaskStatus::Backlog, "backlog"),
        (TaskStatus::ToDo, "todo"),
        (TaskStatus::InProgress, "inprogress"),
        (TaskStatus::Review, "review"),
        (TaskStatus::Done, "done"),
    ];
    for (status, token) in all {
        assert_eq!(status.token(), token);
        assert_eq!(TaskStatus::parse(token), Some(status));
    }
}

#[test]
fn priority_tokens_are_read_back() {
    let all = [
        (Priority::Low, "low"),
        (Priority::Medium, "medium"),
        (Priority::High, "high"),
        (Priority::Critical, "critical"),
    ];
    for (priority, token) in all {
        assert_eq!(priority.token(), token);
        assert_eq!(Priority::parse(token), Some(priority));
    }
}

#[test]
fn tokens_are_case_sensitive_and_exact() {
    assert_eq!(WorkstreamStatus::parse("Active"), None);
    assert_eq!(WorkstreamStatus::parse("active "), None);
    assert_eq!(WorkstreamStatus::parse(""), None);
    assert_eq!(WorkstreamStatus::parse("bogus"), None);
    assert_eq!(TaskStatus::parse("ToDo"), None);
    assert_eq!(TaskStatus::parse("in progress"), None);
    assert_eq!(Priority::parse("MEDIUM"), None);
    assert_eq!(Priority::parse("urgent"), None);
}
