//! Records as the storage holds them: every moment as RFC 3339 text, every
//! enumerated field as its token, every list as a JSON array.

use vstd::prelude::*;
use vstd::string::*;
use crate::codec::{
    is_moment_of, json_array_list, json_array_text, json_error_text, moment_text, read_json_array,
    read_rfc3339, rfc3339_moment, write_json_array, write_rfc3339,
};
use crate::error::{unreadable_text, unwritable_text, CommandError};
use crate::model::{
    texts, Hours, Persona, PersonaView, ProjectTask, ProjectTaskView, Timestamp, Workstream,
    WorkstreamView,
};
use crate::text::{copy_optional, optional_text};
use crate::vocab::{Priority, TaskStatus, WorkstreamStatus};

verus! {

/// A persona as stored.
#[derive(Clone, Debug, PartialEq, Eq)]
pub struct PersonaRow {
    pub id: String,
    pub name: String,
    pub description: Option<String>,
    pub color: String,
    pub created_at: String,
    pub updated_at: String,
    pub is_active: bool,
}

/// A workstream as stored.
#[derive(Clone, Debug, PartialEq, Eq)]
pub struct WorkstreamRow {
    pub id: String,
    pub persona_id: String,
    pub name: String,
    pub description: Option<String>,
    pub status: String,
    pub priority: String,
    pub start_date: Option<String>,
    pub target_date: Option<String>,
    pub completed_date: Option<String>,
    pub progress_percentage: i64,
    pub created_at: String,
    pub updated_at: String,
}

/// A project task as stored.
#[derive(Clone, Debug, PartialEq, Eq)]
pub struct ProjectTaskRow {
    pub id: String,
    pub workstream_id: String,
    pub title: String,
    pub description: Option<String>,
    pub status: String,
    pub priority: String,
    pub due_date: Option<String>,
    pub completed_date: Option<String>,
    pub estimated_hours: Option<Hours>,
    pub actual_hours: Option<Hours>,
    pub tags: String,
    pub dependencies: String,
    pub created_at: String,
    pub updated_at: String,
}

/// Whether `text` is the stored form of the optional moment `moment`.
pub open spec fn is_stored_moment(text: Option<Seq<char>>, moment: Option<Timestamp>) -> bool {
    match moment {
        Some(t) => text is Some && moment_text(t) == text,
        None => text is None,
    }
}

/// Whether `moment` is what the stored optional text `text` stands for.
pub open spec fn is_read_moment(moment: Option<Timestamp>, text: Option<Seq<char>>) -> bool {
    match text {
        Some(s) => moment matches Some(t) && is_moment_of(t, s),
        None => moment is None,
    }
}

/// Whether an optional stored moment can be read.
pub open spec fn is_readable_moment(text: Option<Seq<char>>) -> bool {
    text matches Some(s) ==> rfc3339_moment(s) is Some
}

/// Writes a moment for storage. Fails exactly when the calendar cannot
/// express it.
pub fn encode_moment(moment: &Timestamp) -> (r: Result<String, CommandError>)
    ensures
        match r {
            Ok(text) => moment_text(*moment) == Some(text@),
            Err(e) => moment_text(*moment) is None && e.is_serialization(
                unwritable_text("Timestamp"@, "out of range"@),
            ),
        },
{
    match write_rfc3339(moment) {
        Some(text) => Ok(text),
        None => Err(CommandError::unwritable("Timestamp", "out of range")),
    }
}

/// Writes an optional moment for storage. Fails exactly when there is a
/// moment and the calendar cannot express it.
pub fn encode_optional_moment(moment: &Option<Timestamp>) -> (r: Result<
    Option<String>,
    CommandError,
>)
    ensures
        match r {
            Ok(text) => is_stored_moment(optional_text(text), *moment),
            Err(e) => (*moment matches Some(t) && moment_text(t) is None) && e.is_serialization(
                unwritable_text("Timestamp"@, "out of range"@),
            ),
        },
{
    match moment {
        None => Ok(None),
        Some(t) => match encode_moment(t) {
            Ok(text) => Ok(Some(text)),
            Err(e) => Err(e),
        },
    }
}

/// Reads the stored moment of the column `column`. Fails exactly when the
/// text is not well-formed.
pub fn decode_moment(column: &str, text: &str) -> (r: Result<Timestamp, CommandError>)
    ensures
        match r {
            Ok(t) => is_moment_of(t, text@),
            Err(e) => rfc3339_moment(text@) is None && e.is_storage(
                unreadable_text(column@, text@),
            ),
        },
{
    match read_rfc3339(text) {
        Some(t) => Ok(t),
        None => Err(CommandError::unreadable(column, text)),
    }
}

/// Reads the stored optional moment of the column `column`. Fails exactly
/// when there is a text and it is not well-formed.
pub fn decode_optional_moment(column: &str, text: &Option<String>) -> (r: Result<
    Option<Timestamp>,
    CommandError,
>)
    ensures
        match r {
            Ok(t) => is_read_moment(t, optional_text(*text)),
            Err(e) => *text matches Some(s) && rfc3339_moment(s@) is None && e.is_storage(
                unreadable_text(column@, s@),
            ),
        },
{
    match text {
        None => Ok(None),
        Some(s) => match decode_moment(column, s.as_str()) {
            Ok(t) => Ok(Some(t)),
            Err(e) => Err(e),
        },
    }
}

/// Writes a list of texts, named `what`, for storage as a JSON array. This
/// always succeeds.
pub fn encode_list(what: &str, list: &Vec<String>) -> (r: Result<String, CommandError>)
    ensures
        r matches Ok(text) && text@ == json_array_text(texts(list@)),
{
    match write_json_array(list) {
        Ok(text) => Ok(text),
        Err(failure) => {
            let detail = json_error_text(&failure);
            Err(CommandError::unwritable(what, detail.as_str()))
        },
    }
}

/// Reads the stored list of the column `column`. Fails exactly when the
/// text is not a JSON array of strings.
pub fn decode_list(column: &str, text: &str) -> (r: Result<Vec<String>, CommandError>)
    ensures
        match r {
            Ok(list) => json_array_list(text@) == Some(texts(list@)),
            Err(e) => json_array_list(text@) is None && e.is_storage(
                unreadable_text(column@, text@),
            ),
        },
{
    match read_json_array(text) {
        Ok(list) => Ok(list),
        Err(_) => Err(CommandError::unreadable(column, text)),
    }
}

/// Whether `row` is the stored form of the persona `p`.
pub open spec fn is_persona_row(row: PersonaRow, p: PersonaView) -> bool {
    &&& row.id@ == p.id
    &&& row.name@ == p.name
    &&& optional_text(row.description) == p.description
    &&& row.color@ == p.color
    &&& moment_text(p.created_at) == Some(row.created_at@)
    &&& moment_text(p.updated_at) == Some(row.updated_at@)
    &&& row.is_active == p.is_active
}

/// Whether `p` is the persona that the stored `row` stands for.
pub open spec fn is_persona_of(p: PersonaView, row: PersonaRow) -> bool {
    &&& p.id == row.id@
    &&& p.name == row.name@
    &&& p.description == optional_text(row.description)
    &&& p.color == row.color@
    &&& is_moment_of(p.created_at, row.created_at@)
    &&& is_moment_of(p.updated_at, row.updated_at@)
    &&& p.is_active == row.is_active
}

/// Writes a persona for storage. Fails exactly when one of its moments
/// cannot be expressed.
pub fn encode_persona(p: &Persona) -> (r: Result<PersonaRow, CommandError>)
    ensures
        match r {
            Ok(row) => is_persona_row(row, p@),
            Err(e) => {
                &&& moment_text(p.created_at) is None || moment_text(p.updated_at) is None
                &&& e.is_serialization(unwritable_text("Timestamp"@, "out of range"@))
            },
        },
{
    let created_at = match encode_moment(&p.created_at) {
        Ok(t) => t,
        Err(e) => {
            return Err(e);
        },
    };
    let updated_at = match encode_moment(&p.updated_at) {
        Ok(t) => t,
        Err(e) => {
            return Err(e);
        },
    };
    Ok(
        PersonaRow {
            id: p.id.clone(),
            name: p.name.clone(),
            description: copy_optional(&p.description),
            color: p.color.clone(),
            created_at,
            updated_at,
            is_active: p.is_active,
        },
    )
}

/// What stops the stored persona `row` from being read: the report of the
/// first column, in the order of the checks, whose value is not
/// well-formed.
pub open spec fn persona_row_fault(row: PersonaRow) -> Option<Seq<char>> {
    if rfc3339_moment(row.created_at@) is None {
        Some(unreadable_text("created_at"@, row.created_at@))
    } else if rfc3339_moment(row.updated_at@) is None {
        Some(unreadable_text("updated_at"@, row.updated_at@))
    } else {
        None
    }
}

/// Reads a stored persona. Fails exactly when one of its moments is not
/// well-formed, and then names the first such column.
pub fn decode_persona(row: &PersonaRow) -> (r: Result<Persona, CommandError>)
    ensures
        match r {
            Ok(p) => persona_row_fault(*row) is None && is_persona_of(p@, *row),
            Err(e) => persona_row_fault(*row) matches Some(m) && e.is_storage(m),
        },
{
    let created_at = match decode_moment("created_at", row.created_at.as_str()) {
        Ok(t) => t,
        Err(e) => {
            return Err(e);
        },
    };
    let updated_at = match decode_moment("updated_at", row.updated_at.as_str()) {
        Ok(t) => t,
        Err(e) => {
            return Err(e);
        },
    };
    Ok(
        Persona {
            id: row.id.clone(),
            name: row.name.clone(),
            description: copy_optional(&row.description),
            color: row.color.clone(),
            created_at,
            updated_at,
            is_active: row.is_active,
        },
    )
}

/// Whether `row` is the stored form of the workstream `w`.
pub open spec fn is_workstream_row(row: WorkstreamRow, w: WorkstreamView) -> bool {
    &&& row.id@ == w.id
    &&& row.persona_id@ == w.persona_id
    &&& row.name@ == w.name
    &&& optional_text(row.description) == w.description
    &&& row.status@ == w.status.token_text()
    &&& row.priority@ == w.priority.token_text()
    &&& is_stored_moment(optional_text(row.start_date), w.start_date)
    &&& is_stored_moment(optional_text(row.target_date), w.target_date)
    &&& is_stored_moment(optional_text(row.completed_date), w.completed_date)
    &&& row.progress_percentage == w.progress_percentage
    &&& moment_text(w.created_at) == Some(row.created_at@)
    &&& moment_text(w.updated_at) == Some(row.updated_at@)
}

/// Whether every moment of the workstream `w` can be expressed.
pub open spec fn is_writable_workstream(w: WorkstreamView) -> bool {
    &&& moment_text(w.created_at) is Some
    &&& moment_text(w.updated_at) is Some
    &&& w.start_date matches Some(t) ==> moment_text(t) is Some
    &&& w.target_date matches Some(t) ==> moment_text(t) is Some
    &&& w.completed_date matches Some(t) ==> moment_text(t) is Some
}

/// Writes a workstream for storage. Fails exactly when one of its moments
/// cannot be expressed.
pub fn encode_workstream(w: &Workstream) -> (r: Result<WorkstreamRow, CommandError>)
    ensures
        match r {
            Ok(row) => is_workstream_row(row, w@),
            Err(e) => {
                &&& !is_writable_workstream(w@)
                &&& e.is_serialization(unwritable_text("Timestamp"@, "out of range"@))
            },
        },
{
    let start_date = match encode_optional_moment(&w.start_date) {
        Ok(t) => t,
        Err(e) => {
            return Err(e);
        },
    };
    let target_date = match encode_optional_moment(&w.target_date) {
        Ok(t) => t,
        Err(e) => {
            return Err(e);
        },
    };
    let completed_date = match encode_optional_moment(&w.completed_date) {
        Ok(t) => t,
        Err(e) => {
            return Err(e);
        },
    };
    let created_at = match encode_moment(&w.created_at) {
        Ok(t) => t,
        Err(e) => {
            return Err(e);
        },
    };
    let updated_at = match encode_moment(&w.updated_at) {
        Ok(t) => t,
        Err(e) => {
            return Err(e);
        },
    };
    Ok(
        WorkstreamRow {
            id: w.id.clone(),
            persona_id: w.persona_id.clone(),
            name: w.name.clone(),
            description: copy_optional(&w.description),
            status: String::from_str(w.status.token()),
            priority: String::from_str(w.priority.token()),
            start_date,
            target_date,
            completed_date,
            progress_percentage: w.progress_percentage as i64,
            created_at,
            updated_at,
        },
    )
}

/// What stops the stored workstream `row` from being read: the report of
/// the first column, in the order of the checks, whose value is not
/// well-formed.
pub open spec fn workstream_row_fault(row: WorkstreamRow) -> Option<Seq<char>> {
    if WorkstreamStatus::of_text(row.status@) is None {
        Some(unreadable_text("status"@, row.status@))
    } else if Priority::of_text(row.priority@) is None {
        Some(unreadable_text("priority"@, row.priority@))
    } else if !is_readable_moment(optional_text(row.start_date)) {
        Some(unreadable_text("start_date"@, row.start_date->0@))
    } else if !is_readable_moment(optional_text(row.target_date)) {
        Some(unreadable_text("target_date"@, row.target_date->0@))
    } else if !is_readable_moment(optional_text(row.completed_date)) {
        Some(unreadable_text("completed_date"@, row.completed_date->0@))
    } else if !(0 <= row.progress_percentage <= 100) {
        Some(unreadable_text("progress_percentage"@, "out of range"@))
    } else if rfc3339_moment(row.created_at@) is None {
        Some(unreadable_text("created_at"@, row.created_at@))
    } else if rfc3339_moment(row.updated_at@) is None {
        Some(unreadable_text("updated_at"@, row.updated_at@))
    } else {
        None
    }
}

/// Whether `w` is the workstream that the stored `row` stands for.
pub open spec fn is_workstream_of(w: WorkstreamView, row: WorkstreamRow) -> bool {
    &&& w.id == row.id@
    &&& w.persona_id == row.persona_id@
    &&& w.name == row.name@
    &&& w.description == optional_text(row.description)
    &&& WorkstreamStatus::of_text(row.status@) == Some(w.status)
    &&& Priority::of_text(row.priority@) == Some(w.priority)
    &&& is_read_moment(w.start_date, optional_text(row.start_date))
    &&& is_read_moment(w.target_date, optional_text(row.target_date))
    &&& is_read_moment(w.completed_date, optional_text(row.completed_date))
    &&& w.progress_percentage == row.progress_percentage
    &&& is_moment_of(w.created_at, row.created_at@)
    &&& is_moment_of(w.updated_at, row.updated_at@)
}

/// Reads a stored workstream. Fails exactly when a token is outside its
/// vocabulary, a moment is not well-formed, or the progress is not between
/// 0 and 100, and then names the first such column.
pub fn decode_workstream(row: &WorkstreamRow) -> (r: Result<Workstream, CommandError>)
    ensures
        match r {
            Ok(w) => workstream_row_fault(*row) is None && is_workstream_of(w@, *row),
            Err(e) => workstream_row_fault(*row) matches Some(m) && e.is_storage(m),
        },
{
    let status = match WorkstreamStatus::parse(row.status.as_str()) {
        Some(s) => s,
        None => {
            return Err(CommandError::unreadable("status", row.status.as_str()));
        },
    };
    let priority = match Priority::parse(row.priority.as_str()) {
        Some(p) => p,
        None => {
            return Err(CommandError::unreadable("priority", row.priority.as_str()));
        },
    };
    let start_date = match decode_optional_moment("start_date", &row.start_date) {
        Ok(t) => t,
        Err(e) => {
            return Err(e);
        },
    };
    let target_date = match decode_optional_moment("target_date", &row.target_date) {
        Ok(t) => t,
        Err(e) => {
            return Err(e);
        },
    };
    let completed_date = match decode_optional_moment("completed_date", &row.completed_date) {
        Ok(t) => t,
        Err(e) => {
            return Err(e);
        },
    };
    if row.progress_percentage < 0 || row.progress_percentage > 100 {
        return Err(CommandError::unreadable("progress_percentage", "out of range"));
    }
    let created_at = match decode_moment("created_at", row.created_at.as_str()) {
        Ok(t) => t,
        Err(e) => {
            return Err(e);
        },
    };
    let updated_at = match decode_moment("updated_at", row.updated_at.as_str()) {
        Ok(t) => t,
        Err(e) => {
            return Err(e);
        },
    };
    Ok(
        Workstream {
            id: row.id.clone(),
            persona_id: row.persona_id.clone(),
            name: row.name.clone(),
            description: copy_optional(&row.description),
            status,
            priority,
            start_date,
            target_date,
            completed_date,
            progress_percentage: row.progress_percentage as u8,
            created_at,
            updated_at,
        },
    )
}

/// Whether `row` is the stored form of the task `t`.
pub open spec fn is_task_row(row: ProjectTaskRow, t: ProjectTaskView) -> bool {
    &&& row.id@ == t.id
    &&& row.workstream_id@ == t.workstream_id
    &&& row.title@ == t.title
    &&& optional_text(row.description) == t.description
    &&& row.status@ == t.status.token_text()
    &&& row.priority@ == t.priority.token_text()
    &&& is_stored_moment(optional_text(row.due_date), t.due_date)
    &&& is_stored_moment(optional_text(row.completed_date), t.completed_date)
    &&& row.estimated_hours == t.estimated_hours
    &&& row.actual_hours == t.actual_hours
    &&& row.tags@ == json_array_text(t.tags)
    &&& row.dependencies@ == json_array_text(t.dependencies)
    &&& moment_text(t.created_at) == Some(row.created_at@)
    &&& moment_text(t.updated_at) == Some(row.updated_at@)
}

/// Whether every moment of the task `t` can be expressed.
pub open spec fn is_writable_task(t: ProjectTaskView) -> bool {
    &&& moment_text(t.created_at) is Some
    &&& moment_text(t.updated_at) is Some
    &&& t.due_date matches Some(d) ==> moment_text(d) is Some
    &&& t.completed_date matches Some(d) ==> moment_text(d) is Some
}

/// Writes a task for storage. Fails exactly when one of its moments cannot
/// be expressed.
pub fn encode_task(t: &ProjectTask) -> (r: Result<ProjectTaskRow, CommandError>)
    ensures
        match r {
            Ok(row) => is_writable_task(t@) && is_task_row(row, t@),
            Err(e) => {
                &&& !is_writable_task(t@)
                &&& e.is_serialization(unwritable_text("Timestamp"@, "out of range"@))
            },
        },
{
    let due_date = match encode_optional_moment(&t.due_date) {
        Ok(d) => d,
        Err(e) => {
            return Err(e);
        },
    };
    let completed_date = match encode_optional_moment(&t.completed_date) {
        Ok(d) => d,
        Err(e) => {
            return Err(e);
        },
    };
    let created_at = match encode_moment(&t.created_at) {
        Ok(d) => d,
        Err(e) => {
            return Err(e);
        },
    };
    let updated_at = match encode_moment(&t.updated_at) {
        Ok(d) => d,
        Err(e) => {
            return Err(e);
        },
    };
    let tags = match encode_list("Tags", &t.tags) {
        Ok(l) => l,
        Err(e) => {
            return Err(e);
        },
    };
    let dependencies = match encode_list("Dependencies", &t.dependencies) {
        Ok(l) => l,
        Err(e) => {
            return Err(e);
        },
    };
    Ok(
        ProjectTaskRow {
            id: t.id.clone(),
            workstream_id: t.workstream_id.clone(),
            title: t.title.clone(),
            description: copy_optional(&t.description),
            status: String::from_str(t.status.token()),
            priority: String::from_str(t.priority.token()),
            due_date,
            completed_date,
            estimated_hours: t.estimated_hours,
            actual_hours: t.actual_hours,
            tags,
            dependencies,
            created_at,
            updated_at,
        },
    )
}

/// What stops the stored task `row` from being read: the report of the
/// first column, in the order of the checks, whose value is not
/// well-formed.
pub open spec fn task_row_fault(row: ProjectTaskRow) -> Option<Seq<char>> {
    if TaskStatus::of_text(row.status@) is None {
        Some(unreadable_text("status"@, row.status@))
    } else if Priority::of_text(row.priority@) is None {
        Some(unreadable_text("priority"@, row.priority@))
    } else if !is_readable_moment(optional_text(row.due_date)) {
        Some(unreadable_text("due_date"@, row.due_date->0@))
    } else if !is_readable_moment(optional_text(row.completed_date)) {
        Some(unreadable_text("completed_date"@, row.completed_date->0@))
    } else if json_array_list(row.tags@) is None {
        Some(unreadable_text("tags"@, row.tags@))
    } else if json_array_list(row.dependencies@) is None {
        Some(unreadable_text("dependencies"@, row.dependencies@))
    } else if rfc3339_moment(row.created_at@) is None {
        Some(unreadable_text("created_at"@, row.created_at@))
    } else if rfc3339_moment(row.updated_at@) is None {
        Some(unreadable_text("updated_at"@, row.updated_at@))
    } else {
        None
    }
}

/// Whether `t` is the task that the stored `row` stands for.
pub open spec fn is_task_of(t: ProjectTaskView, row: ProjectTaskRow) -> bool {
    &&& t.id == row.id@
    &&& t.workstream_id == row.workstream_id@
    &&& t.title == row.title@
    &&& t.description == optional_text(row.description)
    &&& TaskStatus::of_text(row.status@) == Some(t.status)
    &&& Priority::of_text(row.priority@) == Some(t.priority)
    &&& is_read_moment(t.due_date, optional_text(row.due_date))
    &&& is_read_moment(t.completed_date, optional_text(row.completed_date))
    &&& t.estimated_hours == row.estimated_hours
    &&& t.actual_hours == row.actual_hours
    &&& json_array_list(row.tags@) == Some(t.tags)
    &&& json_array_list(row.dependencies@) == Some(t.dependencies)
    &&& is_moment_of(t.created_at, row.created_at@)
    &&& is_moment_of(t.updated_at, row.updated_at@)
}

/// Reads a stored task. Fails exactly when a token is outside its
/// vocabulary, a moment is not well-formed, or a list is not a JSON array
/// of strings, and then names the first such column.
pub fn decode_task(row: &ProjectTaskRow) -> (r: Result<ProjectTask, CommandError>)
    ensures
        match r {
            Ok(t) => task_row_fault(*row) is None && is_task_of(t@, *row),
            Err(e) => task_row_fault(*row) matches Some(m) && e.is_storage(m),
        },
{
    let status = match TaskStatus::parse(row.status.as_str()) {
        Some(s) => s,
        None => {
            return Err(CommandError::unreadable("status", row.status.as_str()));
        },
    };
    let priority = match Priority::parse(row.priority.as_str()) {
        Some(p) => p,
        None => {
            return Err(CommandError::unreadable("priority", row.priority.as_str()));
        },
    };
    let due_date = match decode_optional_moment("due_date", &row.due_date) {
        Ok(d) => d,
        Err(e) => {
            return Err(e);
        },
    };
    let completed_date = match decode_optional_moment("completed_date", &row.completed_date) {
        Ok(d) => d,
        Err(e) => {
            return Err(e);
        },
    };
    let tags = match decode_list("tags", row.tags.as_str()) {
        Ok(l) => l,
        Err(e) => {
            return Err(e);
        },
    };
    let dependencies = match decode_list("dependencies", row.dependencies.as_str()) {
        Ok(l) => l,
        Err(e) => {
            return Err(e);
        },
    };
    let created_at = match decode_moment("created_at", row.created_at.as_str()) {
        Ok(d) => d,
        Err(e) => {
            return Err(e);
        },
    };
    let updated_at = match decode_moment("updated_at", row.updated_at.as_str()) {
        Ok(d) => d,
        Err(e) => {
            return Err(e);
        },
    };
    Ok(
        ProjectTask {
            id: row.id.clone(),
            workstream_id: row.workstream_id.clone(),
            title: row.title.clone(),
            description: copy_optional(&row.description),
            status,
            priority,
            due_date,
            completed_date,
            estimated_hours: row.estimated_hours,
            actual_hours: row.actual_hours,
            tags,
            dependencies,
            created_at,
            updated_at,
        },
    )
}

} // verus!
