//! The tables of the storage.

use vstd::prelude::*;

verus! {

/// The statements that create the six tables. Each statement leaves an
/// existing table alone, so running the text again changes nothing.
pub const DATABASE_SCHEMA: &'static str = r#"
    -- personas table
    CREATE TABLE IF NOT EXISTS personas (
        id TEXT PRIMARY KEY,
        name TEXT NOT NULL,
        description TEXT,
        color TEXT NOT NULL,
        created_at TEXT NOT NULL,
        updated_at TEXT NOT NULL,
        is_active BOOLEAN NOT NULL DEFAULT 1
    );

    -- workstreams table
    CREATE TABLE IF NOT EXISTS workstreams (
        id TEXT PRIMARY KEY,
        persona_id TEXT NOT NULL,
        name TEXT NOT NULL,
        description TEXT,
        status TEXT NOT NULL,
        priority TEXT NOT NULL,
        start_date TEXT,
        target_date TEXT,
        completed_date TEXT,
        progress_percentage INTEGER NOT NULL DEFAULT 0,
        created_at TEXT NOT NULL,
        updated_at TEXT NOT NULL,
        FOREIGN KEY (persona_id) REFERENCES personas (id)
    );

    -- project_tasks table
    CREATE TABLE IF NOT EXISTS project_tasks (
        id TEXT PRIMARY KEY,
        workstream_id TEXT NOT NULL,
        title TEXT NOT NULL,
        description TEXT,
        status TEXT NOT NULL,
        priority TEXT NOT NULL,
        due_date TEXT,
        completed_date TEXT,
        estimated_hours REAL,
        actual_hours REAL,
        tags TEXT, -- JSON array
        dependencies TEXT, -- JSON array
        created_at TEXT NOT NULL,
        updated_at TEXT NOT NULL,
        FOREIGN KEY (workstream_id) REFERENCES workstreams (id)
    );

    -- habit_trackers table
    CREATE TABLE IF NOT EXISTS habit_trackers (
        id TEXT PRIMARY KEY,
        workstream_id TEXT NOT NULL,
        name TEXT NOT NULL,
        description TEXT,
        target_frequency TEXT NOT NULL,
        target_quantity INTEGER,
        unit TEXT,
        is_active BOOLEAN NOT NULL DEFAULT 1,
        color TEXT NOT NULL,
        created_at TEXT NOT NULL,
        updated_at TEXT NOT NULL,
        FOREIGN KEY (workstream_id) REFERENCES workstreams (id)
    );

    -- habit_completions table
    CREATE TABLE IF NOT EXISTS habit_completions (
        id TEXT PRIMARY KEY,
        habit_tracker_id TEXT NOT NULL,
        date TEXT NOT NULL,
        completed BOOLEAN NOT NULL DEFAULT 0,
        quantity_completed INTEGER,
        notes TEXT,
        completed_at TEXT,
        FOREIGN KEY (habit_tracker_id) REFERENCES habit_trackers (id),
        UNIQUE(habit_tracker_id, date)
    );

    -- journal_entries table
    CREATE TABLE IF NOT EXISTS journal_entries (
        id TEXT PRIMARY KEY,
        workstream_id TEXT,
        persona_id TEXT,
        title TEXT NOT NULL,
        content TEXT NOT NULL,
        entry_type TEXT NOT NULL,
        tags TEXT, -- JSON array
        created_at TEXT NOT NULL,
        updated_at TEXT NOT NULL,
        FOREIGN KEY (workstream_id) REFERENCES workstreams (id),
        FOREIGN KEY (persona_id) REFERENCES personas (id)
    );
    "#;

/// The statements that create the six tables.
pub fn get_database_schema() -> (r: &'static str)
    ensures
        r@ == DATABASE_SCHEMA@,
{
    DATABASE_SCHEMA
}

} // verus!
