use persona_store::error::{CommandError, Entity, Field};
use persona_store::model::{ProjectTask, Timestamp};
use persona_store::store::Store;
use persona_store::vocab::{Priority, TaskStatus};

fn at(secs: i64) -> Timestamp {
    Timestamp { secs, nanos: 0 }
}

fn text(s: &str) -> String {
    s.to_string()
}

fn store_with_launch() -> Store {
    let mut store = Store::new();
    store.insert_persona(text("pa"), at(1), text("Alice"), None, text("#ff0000")).unwrap();
    store
        .insert_workstream(text("w1"), at(2), text("pa"), text("Launch"), None, text("active"))
        .unwrap();
    store
}

#[test]
fn insert_task_starts_without_dates_hours_tags_or_dependencies() {
    let mut store = store_with_launch();
    let t = store
        .insert_project_task(
            text("t1"),
            at(10),
            text("w1"),
            text("Write"),
            Some(text("the draft")),
            text("todo"),
            text("high"),
        )
        .unwrap();
    assert_eq!(
        t,
        ProjectTask {
            id: text("t1"),
            workstream_id: text("w1"),
            title: text("Write"),
            description: Some(text("the draft")),
            status: TaskStatus::ToDo,
            priority: Priority::High,
            due_date: None,
            completed_date: None,
            estimated_hours: None,
            actual_hours: None,
            tags: vec![],
            dependencies: vec![],
            created_at: at(10),
            updated_at: at(10),
        }
    );
    assert_eq!(store.get_tasks_by_workstream(text("w1")), vec![t]);
}

#[test]
fn create_task_round_trips_through_both_listings() {
    let mut store = store_with_launch();
    let t = store
        .create_project_task(text("w1"), text("Write"), None, text("backlog"), text("low"))
        .unwrap();
    assert_eq!(t.id.len(), 36);
    assert_eq!(t.created_at, t.updated_at);
    assert_eq!(store.get_tasks_by_workstream(text("w1")), vec![t.clone()]);
    let all = store.get_all_project_tasks();
    assert_eq!(all.len(), 1);
    assert_eq!(all[0].task, t);
    assert_eq!(all[0].workstream_name, "Launch");
    assert_eq!(all[0].persona_id, "pa");
    assert_eq!(all[0].persona_name, "Alice");
    assert_eq!(all[0].persona_color, "#ff0000");
}

#[test]
fn task_for_a_missing_workstream_is_refused_without_a_write() {
    let mut store = store_with_launch();
    store
        .insert_project_task(
            text("t1"),
            at(3),
            text("w1"),
            text("Write"),
            None,
            text("todo"),
            text("low"),
        )
        .unwrap();
    let e = store
        .create_project_task(text("w9"), text("Other"), None, text("todo"), text("low"))
        .unwrap_err();
    assert_eq!(e, CommandError::Referential { parent: Entity::Workstream, id: text("w9") });
    assert_eq!(e.message(), "Workstream with ID 'w9' not found");
    assert_eq!(store.tasks.len(), 1);
}

#[test]
fn task_creation_does_not_ask_for_an_active_persona() {
    let mut store = store_with_launch();
    store.merge_persona("pa", None, None, None, Some(false), at(3)).unwrap();
    assert!(store
        .create_project_task(text("w1"), text("Write"), None, text("todo"), text("low"))
        .is_ok());
    store.delete_persona(text("pa")).unwrap();
    assert!(store
        .create_project_task(text("w1"), text("Edit"), None, text("todo"), text("low"))
        .is_ok());
    assert_eq!(store.get_tasks_by_workstream(text("w1")).len(), 2);
    assert!(store.get_all_project_tasks().is_empty());
}

#[test]
fn status_is_checked_before_priority() {
    let mut store = store_with_launch();
    let e = store
        .create_project_task(text("w1"), text("Write"), None, text("doing"), text("urgent"))
        .unwrap_err();
    assert_eq!(e, CommandError::InvalidArgument { field: Field::TaskStatus, value: text("doing") });
    assert_eq!(
        e.message(),
        "Invalid status: doing. Valid statuses: backlog, todo, inprogress, review, done"
    );
    let e = store
        .create_project_task(text("w1"), text("Write"), None, text("done"), text("urgent"))
        .unwrap_err();
    assert_eq!(e, CommandError::InvalidArgument { field: Field::Priority, value: text("urgent") });
    assert_eq!(
        e.message(),
        "Invalid priority: urgent. Valid priorities: low, medium, high, critical"
    );
    assert_eq!(store.tasks.len(), 0);
}

#[test]
fn every_task_token_is_accepted_on_creation() {
    let mut store = store_with_launch();
    let statuses = [
        ("backlog", TaskStatus::Backlog),
        ("todo", TaskStatus::ToDo),
        ("inprogress", TaskStatus::InProgress),
        ("review", TaskStatus::Review),
        ("done", TaskStatus::Done),
    ];
    let priorities = [
        ("low", Priority::Low),
        ("medium", Priority::Medium),
        ("high", Priority::High),
        ("critical", Priority::Critical),
    ];
    let mut n = 0;
    for (s, status) in statuses {
        for (p, priority) in priorities {
            let t = store
                .insert_project_task(
                    format!("t{}", n),
                    at(n),
                    text("w1"),
                    text("T"),
                    None,
                    text(s),
                    text(p),
                )
                .unwrap();
            assert_eq!(t.status, status);
            assert_eq!(t.priority, priority);
            n += 1;
        }
    }
    assert_eq!(store.tasks.len(), 20);
}

#[test]
fn insert_task_refuses_a_taken_identifier() {
    let mut store = store_with_launch();
    store
        .insert_project_task(text("t1"), at(3), text("w1"), text("A"), None, text("todo"), text("low"))
        .unwrap();
    let e = store
        .insert_project_task(text("t1"), at(4), text("w1"), text("B"), None, text("todo"), text("low"))
        .unwrap_err();
    assert_eq!(e.message(), "SQL insert error: UNIQUE constraint failed: project_tasks.id");
    assert_eq!(store.tasks.len(), 1);
}

#[test]
fn update_task_replaces_status_and_priority_and_merges_the_rest() {
    let mut store = store_with_launch();
    store
        .insert_project_task(
            text("t1"),
            at(3),
            text("w1"),
            text("Write"),
            Some(text("draft")),
            text("backlog"),
            text("low"),
        )
        .unwrap();
    let u = store
        .merge_project_task("t1", None, None, "\"inprogress\"", "\"critical\"", at(9))
        .unwrap();
    assert_eq!(u.title, "Write");
    assert_eq!(u.description, Some(text("draft")));
    assert_eq!(u.status, TaskStatus::InProgress);
    assert_eq!(u.priority, Priority::Critical);
    assert_eq!(u.workstream_id, "w1");
    assert_eq!(u.created_at, at(3));
    assert_eq!(u.updated_at, at(9));
    let u = store
        .merge_project_task("t1", Some(text("Rewrite")), Some(text("final")), "done", "medium", at(10))
        .unwrap();
    assert_eq!(u.title, "Rewrite");
    assert_eq!(u.description, Some(text("final")));
    assert_eq!(u.status, TaskStatus::Done);
    assert_eq!(u.priority, Priority::Medium);
    assert_eq!(store.get_tasks_by_workstream(text("w1")), vec![u]);
}

#[test]
fn a_task_may_move_straight_from_backlog_to_done() {
    let mut store = store_with_launch();
    let t = store
        .create_project_task(text("w1"), text("Write"), None, text("backlog"), text("low"))
        .unwrap();
    let u = store
        .update_project_task(t.id.clone(), None, None, text("done"), text("low"))
        .unwrap();
    assert_eq!(u.status, TaskStatus::Done);
    assert_eq!(u.created_at, t.created_at);
}

#[test]
fn update_task_checks_existence_then_status_then_priority() {
    let mut store = store_with_launch();
    store
        .insert_project_task(text("t1"), at(3), text("w1"), text("A"), None, text("todo"), text("low"))
        .unwrap();
    let e = store
        .update_project_task(text("t9"), None, None, text("nope"), text("nope"))
        .unwrap_err();
    assert_eq!(e, CommandError::NotFound { entity: Entity::ProjectTask, id: text("t9") });
    assert_eq!(e.message(), "Project task with ID 't9' not found");
    let e = store
        .update_project_task(text("t1"), None, None, text("\"nope\""), text("nope"))
        .unwrap_err();
    assert_eq!(e, CommandError::InvalidArgument { field: Field::TaskStatus, value: text("nope") });
    let e = store
        .update_project_task(text("t1"), None, None, text("review"), text("\"nope"))
        .unwrap_err();
    assert_eq!(e, CommandError::InvalidArgument { field: Field::Priority, value: text("nope") });
    let kept = store.get_tasks_by_workstream(text("w1"));
    assert_eq!(kept[0].status, TaskStatus::ToDo);
    assert_eq!(kept[0].priority, Priority::Low);
    assert_eq!(kept[0].updated_at, at(3));
}

#[test]
fn tasks_are_listed_by_workstream_latest_first() {
    let mut store = store_with_launch();
    store
        .insert_workstream(text("w2"), at(2), text("pa"), text("Other"), None, text("active"))
        .unwrap();
    for (id, secs, ws) in [("a", 30, "w1"), ("b", 50, "w2"), ("c", 40, "w1"), ("d", 20, "w1")] {
        store
            .insert_project_task(
                text(id),
                at(secs),
                text(ws),
                text("T"),
                None,
                text("todo"),
                text("low"),
            )
            .unwrap();
    }
    let ids: Vec<String> =
        store.get_tasks_by_workstream(text("w1")).into_iter().map(|t| t.id).collect();
    assert_eq!(ids, vec!["c", "a", "d"]);
    let ids: Vec<String> =
        store.get_all_project_tasks().into_iter().map(|l| l.task.id).collect();
    assert_eq!(ids, vec!["b", "c", "a", "d"]);
}

#[test]
fn the_joined_listing_leaves_out_tasks_of_a_removed_workstream() {
    let mut store = store_with_launch();
    store
        .insert_project_task(text("t1"), at(3), text("w1"), text("A"), None, text("todo"), text("low"))
        .unwrap();
    store.delete_workstream(text("w1")).unwrap();
    assert_eq!(store.get_tasks_by_workstream(text("w1")).len(), 1);
    assert!(store.get_all_project_tasks().is_empty());
}

#[test]
fn delete_task_confirms_by_title_and_fails_the_second_time() {
    let mut store = store_with_launch();
    store
        .insert_project_task(text("t1"), at(3), text("w1"), text("Write"), None, text("todo"), text("low"))
        .unwrap();
    assert_eq!(
        store.delete_project_task(text("t1")).unwrap(),
        "Successfully deleted project task 'Write' with ID: t1"
    );
    let e = store.delete_project_task(text("t1")).unwrap_err();
    assert_eq!(e, CommandError::NotFound { entity: Entity::ProjectTask, id: text("t1") });
    assert_eq!(store.tasks.len(), 0);
}
