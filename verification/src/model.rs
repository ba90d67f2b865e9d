//! The records of the planner and their mathematical views.

use vstd::prelude::*;
use crate::text::{copy_optional, optional_text};
use crate::vocab::{HabitFrequency, JournalEntryType, Priority, TaskStatus, WorkstreamStatus};

verus! {

/// A moment in UTC: whole seconds since 1970-01-01T00:00:00Z and the
/// nanoseconds past that second.
#[derive(Clone, Copy, Debug, PartialEq, Eq, Structural)]
pub struct Timestamp {
    pub secs: i64,
    pub nanos: u32,
}

impl Timestamp {
    /// Whether `self` is no earlier than `other`.
    pub open spec fn not_before(self, other: Timestamp) -> bool {
        self.secs > other.secs || (self.secs == other.secs && self.nanos >= other.nanos)
    }

    /// Tells whether `self` is no earlier than `other`.
    pub fn is_not_before(&self, other: &Timestamp) -> (r: bool)
        ensures
            r == self.not_before(*other),
    {
        self.secs > other.secs || (self.secs == other.secs && self.nanos >= other.nanos)
    }
}

/// A number of hours, kept as the bit pattern of an IEEE 754
/// single-precision value. The library stores and returns it and never
/// computes with it.
#[derive(Clone, Copy, Debug, PartialEq, Eq, Structural)]
pub struct Hours {
    pub bits: u32,
}

/// The characters of each text of a list, in order.
pub open spec fn texts(v: Seq<String>) -> Seq<Seq<char>> {
    v.map_values(|s: String| s@)
}

/// A fresh copy of a list of texts.
pub fn copy_texts(v: &Vec<String>) -> (r: Vec<String>)
    ensures
        texts(r@) == texts(v@),
{
    let mut r: Vec<String> = Vec::new();
    let mut i: usize = 0;
    while i < v.len()
        invariant
            i <= v.len(),
            r@.len() == i,
            forall|j: int| 0 <= j < i ==> r@[j]@ == v@[j]@,
        decreases v.len() - i,
    {
        r.push(v[i].clone());
        i = i + 1;
    }
    assert(texts(r@) =~= texts(v@));
    r
}

/// A top-level identity under which work is grouped.
#[derive(Clone, Debug, PartialEq, Eq)]
pub struct Persona {
    pub id: String,
    pub name: String,
    pub description: Option<String>,
    pub color: String,
    pub created_at: Timestamp,
    pub updated_at: Timestamp,
    pub is_active: bool,
}

/// A persona as a mathematical value.
pub struct PersonaView {
    pub id: Seq<char>,
    pub name: Seq<char>,
    pub description: Option<Seq<char>>,
    pub color: Seq<char>,
    pub created_at: Timestamp,
    pub updated_at: Timestamp,
    pub is_active: bool,
}

impl View for Persona {
    type V = PersonaView;

    open spec fn view(&self) -> PersonaView {
        PersonaView {
            id: self.id@,
            name: self.name@,
            description: optional_text(self.description),
            color: self.color@,
            created_at: self.created_at,
            updated_at: self.updated_at,
            is_active: self.is_active,
        }
    }
}

/// A bounded initiative owned by one persona.
#[derive(Clone, Debug, PartialEq, Eq)]
pub struct Workstream {
    pub id: String,
    pub persona_id: String,
    pub name: String,
    pub description: Option<String>,
    pub status: WorkstreamStatus,
    pub priority: Priority,
    pub start_date: Option<Timestamp>,
    pub target_date: Option<Timestamp>,
    pub completed_date: Option<Timestamp>,
    pub progress_percentage: u8,
    pub created_at: Timestamp,
    pub updated_at: Timestamp,
}

/// A workstream as a mathematical value.
pub struct WorkstreamView {
    pub id: Seq<char>,
    pub persona_id: Seq<char>,
    pub name: Seq<char>,
    pub description: Option<Seq<char>>,
    pub status: WorkstreamStatus,
    pub priority: Priority,
    pub start_date: Option<Timestamp>,
    pub target_date: Option<Timestamp>,
    pub completed_date: Option<Timestamp>,
    pub progress_percentage: u8,
    pub created_at: Timestamp,
    pub updated_at: Timestamp,
}

impl View for Workstream {
    type V = WorkstreamView;

    open spec fn view(&self) -> WorkstreamView {
        WorkstreamView {
            id: self.id@,
            persona_id: self.persona_id@,
            name: self.name@,
            description: optional_text(self.description),
            status: self.status,
            priority: self.priority,
            start_date: self.start_date,
            target_date: self.target_date,
            completed_date: self.completed_date,
            progress_percentage: self.progress_percentage,
            created_at: self.created_at,
            updated_at: self.updated_at,
        }
    }
}

/// A unit of work under a workstream.
#[derive(Clone, Debug, PartialEq, Eq)]
pub struct ProjectTask {
    pub id: String,
    pub workstream_id: String,
    pub title: String,
    pub description: Option<String>,
    pub status: TaskStatus,
    pub priority: Priority,
    pub due_date: Option<Timestamp>,
    pub completed_date: Option<Timestamp>,
    pub estimated_hours: Option<Hours>,
    pub actual_hours: Option<Hours>,
    pub tags: Vec<String>,
    pub dependencies: Vec<String>,
    pub created_at: Timestamp,
    pub updated_at: Timestamp,
}

/// A project task as a mathematical value.
pub struct ProjectTaskView {
    pub id: Seq<char>,
    pub workstream_id: Seq<char>,
    pub title: Seq<char>,
    pub description: Option<Seq<char>>,
    pub status: TaskStatus,
    pub priority: Priority,
    pub due_date: Option<Timestamp>,
    pub completed_date: Option<Timestamp>,
    pub estimated_hours: Option<Hours>,
    pub actual_hours: Option<Hours>,
    pub tags: Seq<Seq<char>>,
    pub dependencies: Seq<Seq<char>>,
    pub created_at: Timestamp,
    pub updated_at: Timestamp,
}

impl View for ProjectTask {
    type V = ProjectTaskView;

    open spec fn view(&self) -> ProjectTaskView {
        ProjectTaskView {
            id: self.id@,
            workstream_id: self.workstream_id@,
            title: self.title@,
            description: optional_text(self.description),
            status: self.status,
            priority: self.priority,
            due_date: self.due_date,
            completed_date: self.completed_date,
            estimated_hours: self.estimated_hours,
            actual_hours: self.actual_hours,
            tags: texts(self.tags@),
            dependencies: texts(self.dependencies@),
            created_at: self.created_at,
            updated_at: self.updated_at,
        }
    }
}

/// A recurring activity under a workstream.
#[derive(Clone, Debug, PartialEq, Eq)]
pub struct HabitTracker {
    pub id: String,
    pub workstream_id: String,
    pub name: String,
    pub description: Option<String>,
    pub target_frequency: HabitFrequency,
    pub target_quantity: Option<u32>,
    pub unit: Option<String>,
    pub is_active: bool,
    pub color: String,
    pub created_at: Timestamp,
    pub updated_at: Timestamp,
}

/// The record of one habit on one calendar day; `date` is written
/// `YYYY-MM-DD`.
#[derive(Clone, Debug, PartialEq, Eq)]
pub struct HabitCompletion {
    pub id: String,
    pub habit_tracker_id: String,
    pub date: String,
    pub completed: bool,
    pub quantity_completed: Option<u32>,
    pub notes: Option<String>,
    pub completed_at: Option<Timestamp>,
}

/// A free-text note, optionally linked to a workstream, a persona or both.
#[derive(Clone, Debug, PartialEq, Eq)]
pub struct JournalEntry {
    pub id: String,
    pub workstream_id: Option<String>,
    pub persona_id: Option<String>,
    pub title: String,
    pub content: String,
    pub entry_type: JournalEntryType,
    pub tags: Vec<String>,
    pub created_at: Timestamp,
    pub updated_at: Timestamp,
}

/// What the tables ask of a record: a key, a creation time, and a way to
/// copy it.
pub trait Row: View + Sized {
    /// The identifier of a record.
    spec fn key_of(v: Self::V) -> Seq<char>;

    /// The creation time of a record.
    spec fn created_of(v: Self::V) -> Timestamp;

    /// The identifier of this record.
    fn key(&self) -> (r: &String)
        ensures
            r@ == Self::key_of(self@),
    ;

    /// The creation time of this record.
    fn created(&self) -> (r: Timestamp)
        ensures
            r == Self::created_of(self@),
    ;

    /// A fresh copy of this record.
    fn duplicate(&self) -> (r: Self)
        ensures
            r@ == self@,
    ;
}

impl Row for Persona {
    open spec fn key_of(v: PersonaView) -> Seq<char> {
        v.id
    }

    open spec fn created_of(v: PersonaView) -> Timestamp {
        v.created_at
    }

    fn key(&self) -> (r: &String) {
        &self.id
    }

    fn created(&self) -> (r: Timestamp) {
        self.created_at
    }

    fn duplicate(&self) -> (r: Persona) {
        Persona {
            id: self.id.clone(),
            name: self.name.clone(),
            description: copy_optional(&self.description),
            color: self.color.clone(),
            created_at: self.created_at,
            updated_at: self.updated_at,
            is_active: self.is_active,
        }
    }
}

impl Row for Workstream {
    open spec fn key_of(v: WorkstreamView) -> Seq<char> {
        v.id
    }

    open spec fn created_of(v: WorkstreamView) -> Timestamp {
        v.created_at
    }

    fn key(&self) -> (r: &String) {
        &self.id
    }

    fn created(&self) -> (r: Timestamp) {
        self.created_at
    }

    fn duplicate(&self) -> (r: Workstream) {
        Workstream {
            id: self.id.clone(),
            persona_id: self.persona_id.clone(),
            name: self.name.clone(),
            description: copy_optional(&self.description),
            status: self.status,
            priority: self.priority,
            start_date: self.start_date,
            target_date: self.target_date,
            completed_date: self.completed_date,
            progress_percentage: self.progress_percentage,
            created_at: self.created_at,
            updated_at: self.updated_at,
        }
    }
}

impl Row for ProjectTask {
    open spec fn key_of(v: ProjectTaskView) -> Seq<char> {
        v.id
    }

    open spec fn created_of(v: ProjectTaskView) -> Timestamp {
        v.created_at
    }

    fn key(&self) -> (r: &String) {
        &self.id
    }

    fn created(&self) -> (r: Timestamp) {
        self.created_at
    }

    fn duplicate(&self) -> (r: ProjectTask) {
        ProjectTask {
            id: self.id.clone(),
            workstream_id: self.workstream_id.clone(),
            title: self.title.clone(),
            description: copy_optional(&self.description),
            status: self.status,
            priority: self.priority,
            due_date: self.due_date,
            completed_date: self.completed_date,
            estimated_hours: self.estimated_hours,
            actual_hours: self.actual_hours,
            tags: copy_texts(&self.tags),
            dependencies: copy_texts(&self.dependencies),
            created_at: self.created_at,
            updated_at: self.updated_at,
        }
    }
}

} // verus!
