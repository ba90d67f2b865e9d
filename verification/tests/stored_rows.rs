use persona_store::error::CommandError;
use persona_store::model::{Hours, Persona, ProjectTask, Timestamp, Workstream};
use persona_store::rows::{
    decode_list, decode_moment, decode_optional_moment, decode_persona, decode_task,
    decode_workstream, encode_list, encode_moment, encode_optional_moment, encode_persona,
    encode_task, encode_workstream, PersonaRow, ProjectTaskRow, WorkstreamRow,
};
use persona_store::store::Store;
use persona_store::vocab::{Priority, TaskStatus, WorkstreamStatus};

fn text(s: &str) -> String {
    s.to_string()
}

fn storage(message: &str) -> CommandError {
    CommandError::Storage { message: text(message) }
}

fn persona_row(id: &str, created_at: &str) -> PersonaRow {
    PersonaRow {
        id: text(id),
        name: text("Alice"),
        description: None,
        color: text("#ff0000"),
        created_at: text(created_at),
        updated_at: text(created_at),
        is_active: true,
    }
}

fn workstream_row(id: &str) -> WorkstreamRow {
    WorkstreamRow {
        id: text(id),
        persona_id: text("pa"),
        name: text("Launch"),
        description: Some(text("ship it")),
        status: text("paused"),
        priority: text("high"),
        start_date: Some(text("2024-01-02T03:04:05+00:00")),
        target_date: None,
        completed_date: None,
        progress_percentage: 40,
        created_at: text("2024-01-01T00:00:00+00:00"),
        updated_at: text("2024-01-02T03:04:05.250+00:00"),
    }
}

fn task_row(id: &str) -> ProjectTaskRow {
    ProjectTaskRow {
        id: text(id),
        workstream_id: text("w1"),
        title: text("Write"),
        description: None,
        status: text("inprogress"),
        priority: text("critical"),
        due_date: Some(text("2024-01-02T03:04:05Z")),
        completed_date: None,
        estimated_hours: Some(Hours { bits: 1.5f32.to_bits() }),
        actual_hours: None,
        tags: text("[\"a\",\"b\"]"),
        dependencies: text("[]"),
        created_at: text("2024-01-01T00:00:00+00:00"),
        updated_at: text("2024-01-01T00:00:00+00:00"),
    }
}

#[test]
fn moments_are_written_as_rfc3339_in_utc() {
    assert_eq!(
        encode_moment(&Timestamp { secs: 0, nanos: 0 }).unwrap(),
        "1970-01-01T00:00:00+00:00"
    );
    assert_eq!(
        encode_moment(&Timestamp { secs: 1704164645, nanos: 0 }).unwrap(),
        "2024-01-02T03:04:05+00:00"
    );
    assert_eq!(
        encode_moment(&Timestamp { secs: 1704164645, nanos: 500_000_000 }).unwrap(),
        "2024-01-02T03:04:05.500+00:00"
    );
    assert_eq!(
        encode_moment(&Timestamp { secs: 1704164645, nanos: 1_000 }).unwrap(),
        "2024-01-02T03:04:05.000001+00:00"
    );
    assert_eq!(
        encode_moment(&Timestamp { secs: 1704164645, nanos: 1 }).unwrap(),
        "2024-01-02T03:04:05.000000001+00:00"
    );
    assert_eq!(
        encode_moment(&Timestamp { secs: -1, nanos: 0 }).unwrap(),
        "1969-12-31T23:59:59+00:00"
    );
}

#[test]
fn moments_outside_the_calendar_are_not_written() {
    let e = encode_moment(&Timestamp { secs: i64::MAX, nanos: 0 }).unwrap_err();
    assert_eq!(
        e,
        CommandError::Serialization { message: text("Timestamp serialization error: out of range") }
    );
    assert_eq!(e.message(), "Timestamp serialization error: out of range");
    assert!(encode_moment(&Timestamp { secs: 0, nanos: 2_000_000_000 }).is_err());
    assert!(encode_optional_moment(&Some(Timestamp { secs: i64::MIN, nanos: 0 })).is_err());
}

#[test]
fn optional_moments_are_written_when_present() {
    assert_eq!(encode_optional_moment(&None).unwrap(), None);
    assert_eq!(
        encode_optional_moment(&Some(Timestamp { secs: 86_400, nanos: 0 })).unwrap(),
        Some(text("1970-01-02T00:00:00+00:00"))
    );
}

#[test]
fn moments_are_read_from_rfc3339_with_any_offset() {
    let expected = Timestamp { secs: 1704164645, nanos: 0 };
    assert_eq!(decode_moment("created_at", "2024-01-02T03:04:05Z").unwrap(), expected);
    assert_eq!(decode_moment("created_at", "2024-01-02T03:04:05+00:00").unwrap(), expected);
    assert_eq!(decode_moment("created_at", "2024-01-02T05:04:05+02:00").unwrap(), expected);
    assert_eq!(
        decode_moment("created_at", "2024-01-02T03:04:05.123456789Z").unwrap(),
        Timestamp { secs: 1704164645, nanos: 123_456_789 }
    );
    assert_eq!(
        decode_moment("created_at", "1970-01-01T00:00:00Z").unwrap(),
        Timestamp { secs: 0, nanos: 0 }
    );
}

#[test]
fn malformed_moments_are_reported_with_their_column() {
    let e = decode_moment("created_at", "yesterday").unwrap_err();
    assert_eq!(e, storage("SQL decode error: invalid created_at 'yesterday'"));
    assert_eq!(e.message(), "SQL decode error: invalid created_at 'yesterday'");
    assert!(decode_moment("created_at", "").is_err());
    assert!(decode_moment("created_at", "2024-01-02").is_err());
    assert!(decode_moment("created_at", "2024-13-02T03:04:05Z").is_err());
    assert_eq!(
        decode_optional_moment("due_date", &Some(text("soon"))).unwrap_err(),
        storage("SQL decode error: invalid due_date 'soon'")
    );
    assert_eq!(decode_optional_moment("due_date", &None).unwrap(), None);
}

#[test]
fn written_moments_are_read_back() {
    for moment in [
        Timestamp { secs: 0, nanos: 0 },
        Timestamp { secs: 1704164645, nanos: 999_999_999 },
        Timestamp { secs: -62_135_596_800, nanos: 0 },
        Timestamp { secs: 253_402_300_799, nanos: 120_000_000 },
    ] {
        let written = encode_moment(&moment).unwrap();
        assert_eq!(decode_moment("created_at", &written).unwrap(), moment);
    }
}

#[test]
fn lists_are_written_as_json_arrays() {
    assert_eq!(encode_list("Tags", &vec![]).unwrap(), "[]");
    assert_eq!(encode_list("Tags", &vec![text("a"), text("b")]).unwrap(), "[\"a\",\"b\"]");
    assert_eq!(
        encode_list("Dependencies", &vec![text("say \"hi\""), text("back\\slash")]).unwrap(),
        "[\"say \\\"hi\\\"\",\"back\\\\slash\"]"
    );
}

#[test]
fn lists_are_read_from_json_arrays() {
    assert_eq!(decode_list("tags", "[]").unwrap(), Vec::<String>::new());
    assert_eq!(decode_list("tags", " [ \"a\" , \"b\" ] ").unwrap(), vec![text("a"), text("b")]);
    assert_eq!(decode_list("tags", "[\"\\u0041\"]").unwrap(), vec![text("A")]);
    assert_eq!(
        decode_list("tags", "[1]").unwrap_err(),
        storage("SQL decode error: invalid tags '[1]'")
    );
    assert!(decode_list("dependencies", "").is_err());
    assert!(decode_list("dependencies", "\"a\"").is_err());
    assert!(decode_list("dependencies", "[\"a\"").is_err());
}

#[test]
fn written_lists_are_read_back() {
    let list = vec![text(""), text("a,b"), text("[\"x\"]"), text("caf\u{e9}")];
    let written = encode_list("Tags", &list).unwrap();
    assert_eq!(decode_list("tags", &written).unwrap(), list);
}

#[test]
fn persona_is_written_and_read_back() {
    let p = Persona {
        id: text("pa"),
        name: text("Alice"),
        description: Some(text("lead")),
        color: text("#ff0000"),
        created_at: Timestamp { secs: 1704067200, nanos: 0 },
        updated_at: Timestamp { secs: 1704164645, nanos: 250_000_000 },
        is_active: false,
    };
    let row = encode_persona(&p).unwrap();
    assert_eq!(
        row,
        PersonaRow {
            id: text("pa"),
            name: text("Alice"),
            description: Some(text("lead")),
            color: text("#ff0000"),
            created_at: text("2024-01-01T00:00:00+00:00"),
            updated_at: text("2024-01-02T03:04:05.250+00:00"),
            is_active: false,
        }
    );
    assert_eq!(decode_persona(&row).unwrap(), p);
}

#[test]
fn persona_with_an_inexpressible_moment_is_not_written() {
    let p = Persona {
        id: text("pa"),
        name: text("Alice"),
        description: None,
        color: text("#ff0000"),
        created_at: Timestamp { secs: 0, nanos: 0 },
        updated_at: Timestamp { secs: i64::MAX, nanos: 0 },
        is_active: true,
    };
    assert_eq!(
        encode_persona(&p).unwrap_err().message(),
        "Timestamp serialization error: out of range"
    );
}

#[test]
fn persona_row_names_its_first_unreadable_column() {
    let mut row = persona_row("pa", "2024-01-01T00:00:00Z");
    row.updated_at = text("later");
    assert_eq!(
        decode_persona(&row).unwrap_err(),
        storage("SQL decode error: invalid updated_at 'later'")
    );
    row.created_at = text("before");
    assert_eq!(
        decode_persona(&row).unwrap_err(),
        storage("SQL decode error: invalid created_at 'before'")
    );
}

#[test]
fn workstream_is_written_and_read_back() {
    let w = Workstream {
        id: text("w1"),
        persona_id: text("pa"),
        name: text("Launch"),
        description: Some(text("ship it")),
        status: WorkstreamStatus::Paused,
        priority: Priority::High,
        start_date: Some(Timestamp { secs: 1704164645, nanos: 0 }),
        target_date: None,
        completed_date: None,
        progress_percentage: 40,
        created_at: Timestamp { secs: 1704067200, nanos: 0 },
        updated_at: Timestamp { secs: 1704164645, nanos: 250_000_000 },
    };
    let row = encode_workstream(&w).unwrap();
    assert_eq!(row, workstream_row("w1"));
    assert_eq!(decode_workstream(&row).unwrap(), w);
}

#[test]
fn workstream_row_names_its_first_unreadable_column() {
    let mut row = workstream_row("w1");
    row.updated_at = text("x");
    assert_eq!(
        decode_workstream(&row).unwrap_err(),
        storage("SQL decode error: invalid updated_at 'x'")
    );
    row.progress_percentage = 101;
    assert_eq!(
        decode_workstream(&row).unwrap_err(),
        storage("SQL decode error: invalid progress_percentage 'out of range'")
    );
    row.progress_percentage = -1;
    assert!(decode_workstream(&row).is_err());
    row.target_date = Some(text("never"));
    assert_eq!(
        decode_workstream(&row).unwrap_err(),
        storage("SQL decode error: invalid target_date 'never'")
    );
    row.priority = text("High");
    assert_eq!(
        decode_workstream(&row).unwrap_err(),
        storage("SQL decode error: invalid priority 'High'")
    );
    row.status = text("\"Active\"");
    assert_eq!(
        decode_workstream(&row).unwrap_err(),
        storage("SQL decode error: invalid status '\"Active\"'")
    );
}

#[test]
fn workstream_progress_bounds_are_read() {
    let mut row = workstream_row("w1");
    row.progress_percentage = 0;
    assert_eq!(decode_workstream(&row).unwrap().progress_percentage, 0);
    row.progress_percentage = 100;
    assert_eq!(decode_workstream(&row).unwrap().progress_percentage, 100);
}

#[test]
fn task_is_written_and_read_back() {
    let t = ProjectTask {
        id: text("t1"),
        workstream_id: text("w1"),
        title: text("Write"),
        description: None,
        status: TaskStatus::InProgress,
        priority: Priority::Critical,
        due_date: Some(Timestamp { secs: 1704164645, nanos: 0 }),
        completed_date: None,
        estimated_hours: Some(Hours { bits: 1.5f32.to_bits() }),
        actual_hours: None,
        tags: vec![text("a"), text("b")],
        dependencies: vec![],
        created_at: Timestamp { secs: 1704067200, nanos: 0 },
        updated_at: Timestamp { secs: 1704067200, nanos: 0 },
    };
    let row = encode_task(&t).unwrap();
    let mut expected = task_row("t1");
    expected.due_date = Some(text("2024-01-02T03:04:05+00:00"));
    assert_eq!(row, expected);
    assert_eq!(decode_task(&row).unwrap(), t);
    assert_eq!(decode_task(&task_row("t1")).unwrap(), t);
}

#[test]
fn task_row_names_its_first_unreadable_column() {
    let mut row = task_row("t1");
    row.dependencies = text("{}");
    assert_eq!(
        decode_task(&row).unwrap_err(),
        storage("SQL decode error: invalid dependencies '{}'")
    );
    row.tags = text("nope");
    assert_eq!(decode_task(&row).unwrap_err(), storage("SQL decode error: invalid tags 'nope'"));
    row.completed_date = Some(text("soon"));
    assert_eq!(
        decode_task(&row).unwrap_err(),
        storage("SQL decode error: invalid completed_date 'soon'")
    );
    row.status = text("doing");
    assert_eq!(
        decode_task(&row).unwrap_err(),
        storage("SQL decode error: invalid status 'doing'")
    );
}

#[test]
fn a_store_is_restored_from_its_rows_in_order() {
    let store = Store::restore(
        &vec![persona_row("pa", "2024-01-01T00:00:00Z"), persona_row("pb", "2024-02-01T00:00:00Z")],
        &vec![workstream_row("w1")],
        &vec![task_row("t1"), task_row("t2")],
    )
    .unwrap();
    assert_eq!(store.personas.len(), 2);
    assert_eq!(store.workstreams.len(), 1);
    assert_eq!(store.tasks.len(), 2);
    assert_eq!(store.personas.get(0).id, "pa");
    assert_eq!(store.personas.get(1).id, "pb");
    let ids: Vec<String> = store.get_all_personas().into_iter().map(|p| p.id).collect();
    assert_eq!(ids, vec!["pb", "pa"]);
    let all = store.get_all_project_tasks();
    assert_eq!(all.len(), 2);
    assert_eq!(all[0].workstream_name, "Launch");
    assert_eq!(all[0].persona_name, "Alice");
}

#[test]
fn restoring_stops_at_an_unreadable_row() {
    let e = Store::restore(
        &vec![persona_row("pa", "2024-01-01T00:00:00Z"), persona_row("pb", "once")],
        &vec![],
        &vec![],
    )
    .unwrap_err();
    assert_eq!(e, storage("SQL decode error: invalid created_at 'once'"));
    let mut bad = task_row("t1");
    bad.priority = text("");
    let e = Store::restore(&vec![], &vec![workstream_row("w1")], &vec![bad]).unwrap_err();
    assert_eq!(e, storage("SQL decode error: invalid priority ''"));
}

#[test]
fn restoring_refuses_a_repeated_identifier() {
    let e = Store::restore(
        &vec![],
        &vec![workstream_row("w1"), workstream_row("w2"), workstream_row("w1")],
        &vec![],
    )
    .unwrap_err();
    assert_eq!(e, storage("SQL insert error: UNIQUE constraint failed: workstreams.id"));
}

#[test]
fn what_a_command_returns_is_restored_from_its_row() {
    let mut store = Store::new();
    let p = store.create_persona(text("Alice"), None, text("#ff0000")).unwrap();
    let w = store.create_workstream(p.id.clone(), text("Launch"), None, text("active")).unwrap();
    let t = store
        .create_project_task(w.id.clone(), text("Write"), None, text("todo"), text("medium"))
        .unwrap();
    let restored = Store::restore(
        &vec![encode_persona(&p).unwrap()],
        &vec![encode_workstream(&w).unwrap()],
        &vec![encode_task(&t).unwrap()],
    )
    .unwrap();
    assert_eq!(restored.get_all_personas(), vec![p]);
    assert_eq!(restored.get_workstreams_by_persona(w.persona_id.clone()), vec![w]);
    assert_eq!(restored.get_tasks_by_workstream(t.workstream_id.clone()), vec![t]);
}

#[test]
fn a_record_just_created_is_always_written() {
    let mut store = Store::new();
    let p = store.create_persona(text("Alice"), None, text("#ff0000")).unwrap();
    assert!(encode_persona(&p).is_ok());
    let u = store.update_persona(p.id.clone(), Some(text("Alicia")), None, None, None).unwrap();
    assert!(encode_persona(&u).is_ok());
    let w = store.create_workstream(p.id.clone(), text("Launch"), None, text("active")).unwrap();
    assert!(encode_workstream(&w).is_ok());
    let t = store
        .create_project_task(w.id.clone(), text("Write"), None, text("todo"), text("low"))
        .unwrap();
    let row = encode_task(&t).unwrap();
    assert_eq!(row.tags, "[]");
    assert_eq!(row.dependencies, "[]");
}

#[test]
fn any_list_of_texts_is_written() {
    let odd = vec![text("\u{0}"), text("\n\t\r"), text("\u{1f600}"), text("\\\""), text("")];
    let written = encode_list("Tags", &odd).unwrap();
    assert_eq!(decode_list("tags", &written).unwrap(), odd);
    let long: Vec<String> = (0..1000).map(|i| format!("tag-{}", i)).collect();
    let written = encode_list("Tags", &long).unwrap();
    assert_eq!(decode_list("tags", &written).unwrap(), long);
}
