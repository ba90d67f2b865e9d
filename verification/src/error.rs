//! Why a command failed, and the text under which a failure is reported.

use vstd::prelude::*;
use vstd::string::*;

verus! {

/// The kinds of record that commands act on.
#[derive(Clone, Copy, Debug, PartialEq, Eq, Structural)]
pub enum Entity {
    Persona,
    Workstream,
    ProjectTask,
}

/// The enumerated fields that a caller supplies as text.
#[derive(Clone, Copy, Debug, PartialEq, Eq, Structural)]
pub enum Field {
    WorkstreamStatus,
    TaskStatus,
    Priority,
}

/// Why a command failed.
#[derive(Clone, Debug, PartialEq, Eq)]
pub enum CommandError {
    /// The command targets an identifier that no record carries.
    NotFound { entity: Entity, id: String },
    /// A supplied token is outside the vocabulary of its field.
    InvalidArgument { field: Field, value: String },
    /// The parent that a new record refers to is missing, or, for a
    /// persona, not active.
    Referential { parent: Entity, id: String },
    /// The store refused or failed the operation.
    Storage { message: String },
    /// A record could not be turned into its external representation.
    Serialization { message: String },
}

impl Entity {
    /// The name of the kind as it opens a sentence.
    pub open spec fn title_text(self) -> Seq<char> {
        match self {
            Entity::Persona => "Persona"@,
            Entity::Workstream => "Workstream"@,
            Entity::ProjectTask => "Project task"@,
        }
    }

    /// The name of the kind inside a sentence.
    pub open spec fn noun_text(self) -> Seq<char> {
        match self {
            Entity::Persona => "persona"@,
            Entity::Workstream => "workstream"@,
            Entity::ProjectTask => "project task"@,
        }
    }

    /// The name of the table that holds the kind.
    pub open spec fn table_text(self) -> Seq<char> {
        match self {
            Entity::Persona => "personas"@,
            Entity::Workstream => "workstreams"@,
            Entity::ProjectTask => "project_tasks"@,
        }
    }

    /// The name of the kind as it opens a sentence.
    pub fn title(&self) -> (r: &'static str)
        ensures
            r@ == self.title_text(),
    {
        match self {
            Entity::Persona => "Persona",
            Entity::Workstream => "Workstream",
            Entity::ProjectTask => "Project task",
        }
    }

    /// The name of the kind inside a sentence.
    pub fn noun(&self) -> (r: &'static str)
        ensures
            r@ == self.noun_text(),
    {
        match self {
            Entity::Persona => "persona",
            Entity::Workstream => "workstream",
            Entity::ProjectTask => "project task",
        }
    }

    /// The name of the table that holds the kind.
    pub fn table(&self) -> (r: &'static str)
        ensures
            r@ == self.table_text(),
    {
        match self {
            Entity::Persona => "personas",
            Entity::Workstream => "workstreams",
            Entity::ProjectTask => "project_tasks",
        }
    }
}

impl Field {
    /// The word under which the field is named in a report.
    pub open spec fn word_text(self) -> Seq<char> {
        match self {
            Field::WorkstreamStatus => "status"@,
            Field::TaskStatus => "status"@,
            Field::Priority => "priority"@,
        }
    }

    /// The sentence that lists the tokens of the field.
    pub open spec fn vocabulary_text(self) -> Seq<char> {
        match self {
            Field::WorkstreamStatus =>
                "Valid statuses: planning, active, paused, completed, cancelled"@,
            Field::TaskStatus => "Valid statuses: backlog, todo, inprogress, review, done"@,
            Field::Priority => "Valid priorities: low, medium, high, critical"@,
        }
    }

    /// The word under which the field is named in a report.
    pub fn word(&self) -> (r: &'static str)
        ensures
            r@ == self.word_text(),
    {
        match self {
            Field::WorkstreamStatus => "status",
            Field::TaskStatus => "status",
            Field::Priority => "priority",
        }
    }

    /// The sentence that lists the tokens of the field.
    pub fn vocabulary(&self) -> (r: &'static str)
        ensures
            r@ == self.vocabulary_text(),
    {
        match self {
            Field::WorkstreamStatus =>
                "Valid statuses: planning, active, paused, completed, cancelled",
            Field::TaskStatus => "Valid statuses: backlog, todo, inprogress, review, done",
            Field::Priority => "Valid priorities: low, medium, high, critical",
        }
    }
}

/// The report of a missing record.
pub open spec fn not_found_text(entity: Entity, id: Seq<char>) -> Seq<char> {
    entity.title_text() + " with ID '"@ + id + "' not found"@
}

/// The report of a missing or unusable parent.
pub open spec fn referential_text(parent: Entity, id: Seq<char>) -> Seq<char> {
    if parent == Entity::Persona {
        not_found_text(parent, id) + " or inactive"@
    } else {
        not_found_text(parent, id)
    }
}

/// The report of a token outside its vocabulary.
pub open spec fn invalid_argument_text(field: Field, value: Seq<char>) -> Seq<char> {
    "Invalid "@ + field.word_text() + ": "@ + value + ". "@ + field.vocabulary_text()
}

/// The report of an identifier that is already taken.
pub open spec fn duplicate_key_text(entity: Entity) -> Seq<char> {
    "SQL insert error: UNIQUE constraint failed: "@ + entity.table_text() + ".id"@
}

/// The report of a removal that removed nothing.
pub open spec fn nothing_deleted_text(entity: Entity, id: Seq<char>) -> Seq<char> {
    "No "@ + entity.noun_text() + " was deleted with ID '"@ + id + "'"@
}

/// The report of a stored value of the column `column` that cannot be
/// read.
pub open spec fn unreadable_text(column: Seq<char>, value: Seq<char>) -> Seq<char> {
    "SQL decode error: invalid "@ + column + " '"@ + value + "'"@
}

/// The report of a value, named `what`, that cannot be written out.
pub open spec fn unwritable_text(what: Seq<char>, detail: Seq<char>) -> Seq<char> {
    what + " serialization error: "@ + detail
}

impl CommandError {
    /// The text under which this failure is reported.
    pub open spec fn message_text(self) -> Seq<char> {
        match self {
            CommandError::NotFound { entity, id } => not_found_text(entity, id@),
            CommandError::InvalidArgument { field, value } => invalid_argument_text(field, value@),
            CommandError::Referential { parent, id } => referential_text(parent, id@),
            CommandError::Storage { message } => message@,
            CommandError::Serialization { message } => message@,
        }
    }

    /// Whether this is the report of a missing `entity` with identifier
    /// `id`.
    pub open spec fn is_not_found(self, entity: Entity, id: Seq<char>) -> bool {
        self matches CommandError::NotFound { entity: e, id: i } && e == entity && i@ == id
    }

    /// Whether this is the report of the token `value` being outside the
    /// vocabulary of `field`.
    pub open spec fn is_invalid_argument(self, field: Field, value: Seq<char>) -> bool {
        self matches CommandError::InvalidArgument { field: f, value: v } && f == field && v@
            == value
    }

    /// Whether this is the report of a missing or unusable `parent` with
    /// identifier `id`.
    pub open spec fn is_referential(self, parent: Entity, id: Seq<char>) -> bool {
        self matches CommandError::Referential { parent: p, id: i } && p == parent && i@ == id
    }

    /// Whether this is the report, with the text `message`, of a record
    /// that could not be written out.
    pub open spec fn is_serialization(self, message: Seq<char>) -> bool {
        self matches CommandError::Serialization { message: m } && m@ == message
    }

    /// Whether this is a report of the storage with the text `message`.
    pub open spec fn is_storage(self, message: Seq<char>) -> bool {
        self matches CommandError::Storage { message: m } && m@ == message
    }

    /// Writes the text under which this failure is reported.
    pub fn message(&self) -> (r: String)
        ensures
            r@ == self.message_text(),
    {
        match self {
            CommandError::NotFound { entity, id } => {
                let mut r = String::from_str(entity.title());
                r.append(" with ID '");
                r.append(id.as_str());
                r.append("' not found");
                r
            },
            CommandError::InvalidArgument { field, value } => {
                let mut r = String::from_str("Invalid ");
                r.append(field.word());
                r.append(": ");
                r.append(value.as_str());
                r.append(". ");
                r.append(field.vocabulary());
                r
            },
            CommandError::Referential { parent, id } => {
                let mut r = String::from_str(parent.title());
                r.append(" with ID '");
                r.append(id.as_str());
                r.append("' not found");
                match parent {
                    Entity::Persona => {
                        r.append(" or inactive");
                    },
                    _ => {},
                }
                r
            },
            CommandError::Storage { message } => message.clone(),
            CommandError::Serialization { message } => message.clone(),
        }
    }

    /// The failure of an insertion whose identifier is already taken.
    pub fn duplicate_key(entity: Entity) -> (e: CommandError)
        ensures
            e.is_storage(duplicate_key_text(entity)),
    {
        let mut message = String::from_str("SQL insert error: UNIQUE constraint failed: ");
        message.append(entity.table());
        message.append(".id");
        CommandError::Storage { message }
    }

    /// The failure to read the stored `value` of the column `column`.
    pub fn unreadable(column: &str, value: &str) -> (e: CommandError)
        ensures
            e.is_storage(unreadable_text(column@, value@)),
    {
        let mut message = String::from_str("SQL decode error: invalid ");
        message.append(column);
        message.append(" '");
        message.append(value);
        message.append("'");
        CommandError::Storage { message }
    }

    /// The failure to write out the value named `what`.
    pub fn unwritable(what: &str, detail: &str) -> (e: CommandError)
        ensures
            e.is_serialization(unwritable_text(what@, detail@)),
    {
        let mut message = String::from_str(what);
        message.append(" serialization error: ");
        message.append(detail);
        CommandError::Serialization { message }
    }

    /// The failure of a removal that removed nothing.
    pub fn nothing_deleted(entity: Entity, id: &str) -> (e: CommandError)
        ensures
            e.is_storage(nothing_deleted_text(entity, id@)),
    {
        let mut message = String::from_str("No ");
        message.append(entity.noun());
        message.append(" was deleted with ID '");
        message.append(id);
        message.append("'");
        CommandError::Storage { message }
    }
}

} // verus!
