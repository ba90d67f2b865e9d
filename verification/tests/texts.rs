use persona_store::error::{CommandError, Entity, Field};
use persona_store::identity::{generate_id, get_current_timestamp};
use persona_store::reply::{cleared_message, confirm_deleted, deleted_message, greet};
use persona_store::schema::{get_database_schema, DATABASE_SCHEMA};
use persona_store::text::{copy_optional, render_decimal, same_text, trim_quotes};

fn text(s: &str) -> String {
    s.to_string()
}

#[test]
fn quotes_are_trimmed_from_both_ends_only() {
    assert_eq!(trim_quotes("active"), "active");
    assert_eq!(trim_quotes("\"active\""), "active");
    assert_eq!(trim_quotes("\"\"\"active"), "active");
    assert_eq!(trim_quotes("active\"\""), "active");
    assert_eq!(trim_quotes("in\"progress"), "in\"progress");
    assert_eq!(trim_quotes("\"in\"progress\""), "in\"progress");
    assert_eq!(trim_quotes(""), "");
    assert_eq!(trim_quotes("\""), "");
    assert_eq!(trim_quotes("\"\"\"\""), "");
    assert_eq!(trim_quotes("'active'"), "'active'");
    assert_eq!(trim_quotes(" \"active\" "), " \"active\" ");
    assert_eq!(trim_quotes("\"caf\u{e9}\""), "caf\u{e9}");
}

#[test]
fn trimming_agrees_with_the_standard_library() {
    for s in ["", "\"", "a", "\"a", "a\"", "\"a\"", "\"\"a\"b\"\"", "\u{1f600}\"", "\"\u{1f600}"] {
        assert_eq!(trim_quotes(s), s.trim_matches('"'));
    }
}

#[test]
fn numbers_are_rendered_in_decimal() {
    assert_eq!(render_decimal(0), "0");
    assert_eq!(render_decimal(7), "7");
    assert_eq!(render_decimal(10), "10");
    assert_eq!(render_decimal(1234567890), "1234567890");
    assert_eq!(render_decimal(u64::MAX), "18446744073709551615");
    for n in [9u64, 99, 100, 101, 1000, 65535, 4294967296] {
        assert_eq!(render_decimal(n), n.to_string());
    }
}

#[test]
fn texts_are_compared_by_their_characters() {
    assert!(same_text("", ""));
    assert!(same_text("done", "done"));
    assert!(!same_text("done", "Done"));
    assert!(!same_text("done", "done "));
}

#[test]
fn optional_texts_are_copied() {
    assert_eq!(copy_optional(&None), None);
    assert_eq!(copy_optional(&Some(text("x"))), Some(text("x")));
}

#[test]
fn greeting_names_the_caller() {
    assert_eq!(greet("Ada"), "Hello, Ada! You've been greeted from Rust!");
    assert_eq!(greet(""), "Hello, ! You've been greeted from Rust!");
}

#[test]
fn confirmations_have_their_exact_text() {
    assert_eq!(
        deleted_message(Entity::Persona, "Alice", "pa"),
        "Successfully deleted persona 'Alice' with ID: pa"
    );
    assert_eq!(
        deleted_message(Entity::Workstream, "Launch", "w1"),
        "Successfully deleted workstream 'Launch' with ID: w1"
    );
    assert_eq!(
        deleted_message(Entity::ProjectTask, "Write", "t1"),
        "Successfully deleted project task 'Write' with ID: t1"
    );
    assert_eq!(cleared_message(0), "No personas found to delete");
    assert_eq!(cleared_message(1), "Successfully deleted 1 persona(s) from the database");
    assert_eq!(cleared_message(250), "Successfully deleted 250 persona(s) from the database");
}

#[test]
fn a_removal_that_removed_nothing_is_a_failure() {
    let e = confirm_deleted(Entity::Persona, 0, "pa", text("done")).unwrap_err();
    assert_eq!(e, CommandError::Storage { message: text("No persona was deleted with ID 'pa'") });
    let e = confirm_deleted(Entity::Workstream, 0, "w1", text("done")).unwrap_err();
    assert_eq!(e.message(), "No workstream was deleted with ID 'w1'");
    assert_eq!(confirm_deleted(Entity::Persona, 1, "pa", text("done")).unwrap(), "done");
    assert_eq!(confirm_deleted(Entity::Persona, 3, "pa", text("done")).unwrap(), "done");
}

#[test]
fn every_failure_has_its_exact_text() {
    let cases = [
        (
            CommandError::NotFound { entity: Entity::Persona, id: text("a") },
            "Persona with ID 'a' not found",
        ),
        (
            CommandError::NotFound { entity: Entity::Workstream, id: text("b") },
            "Workstream with ID 'b' not found",
        ),
        (
            CommandError::NotFound { entity: Entity::ProjectTask, id: text("c") },
            "Project task with ID 'c' not found",
        ),
        (
            CommandError::Referential { parent: Entity::Persona, id: text("d") },
            "Persona with ID 'd' not found or inactive",
        ),
        (
            CommandError::Referential { parent: Entity::Workstream, id: text("e") },
            "Workstream with ID 'e' not found",
        ),
        (
            CommandError::InvalidArgument { field: Field::WorkstreamStatus, value: text("f") },
            "Invalid status: f. Valid statuses: planning, active, paused, completed, cancelled",
        ),
        (
            CommandError::InvalidArgument { field: Field::TaskStatus, value: text("g") },
            "Invalid status: g. Valid statuses: backlog, todo, inprogress, review, done",
        ),
        (
            CommandError::InvalidArgument { field: Field::Priority, value: text("h") },
            "Invalid priority: h. Valid priorities: low, medium, high, critical",
        ),
        (CommandError::Storage { message: text("disk full") }, "disk full"),
        (CommandError::Serialization { message: text("cannot write") }, "cannot write"),
    ];
    for (failure, expected) in cases {
        assert_eq!(failure.message(), expected);
    }
    assert_eq!(
        CommandError::duplicate_key(Entity::Persona).message(),
        "SQL insert error: UNIQUE constraint failed: personas.id"
    );
    assert_eq!(
        CommandError::nothing_deleted(Entity::ProjectTask, "t1").message(),
        "No project task was deleted with ID 't1'"
    );
    assert_eq!(
        CommandError::unreadable("status", "x").message(),
        "SQL decode error: invalid status 'x'"
    );
    assert_eq!(
        CommandError::unwritable("Tags", "too deep").message(),
        "Tags serialization error: too deep"
    );
}

#[test]
fn fresh_identifiers_are_hyphenated_random_uuids() {
    let id = generate_id();
    let chars: Vec<char> = id.chars().collect();
    assert_eq!(chars.len(), 36);
    for (i, c) in chars.iter().enumerate() {
        if i == 8 || i == 13 || i == 18 || i == 23 {
            assert_eq!(*c, '-');
        } else {
            assert!(matches!(c, '0'..='9' | 'a'..='f'));
        }
    }
    assert_eq!(chars[14], '4');
    assert!(matches!(chars[19], '8' | '9' | 'a' | 'b'));
    assert_ne!(generate_id(), id);
}

#[test]
fn the_clock_reads_a_present_day_moment() {
    let now = get_current_timestamp();
    assert!(now.secs > 1_600_000_000);
    assert!(now.nanos < 1_000_000_000);
    let later = get_current_timestamp();
    assert!(later.is_not_before(&now) || now.secs - later.secs < 5);
}

#[test]
fn the_schema_creates_the_six_tables_if_missing() {
    let schema = get_database_schema();
    assert_eq!(schema, DATABASE_SCHEMA);
    for table in [
        "personas",
        "workstreams",
        "project_tasks",
        "habit_trackers",
        "habit_completions",
        "journal_entries",
    ] {
        assert!(schema.contains(&format!("CREATE TABLE IF NOT EXISTS {} (", table)));
    }
    assert_eq!(schema.matches("CREATE TABLE").count(), 6);
    assert!(schema.contains("UNIQUE(habit_tracker_id, date)"));
    assert!(schema.contains("FOREIGN KEY (persona_id) REFERENCES personas (id)"));
    assert!(schema.contains("FOREIGN KEY (workstream_id) REFERENCES workstreams (id)"));
}
