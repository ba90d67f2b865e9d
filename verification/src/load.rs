//! Building a store from what the storage holds.

use vstd::prelude::*;
use crate::error::{duplicate_key_text, CommandError, Entity};
use crate::model::{Persona, ProjectTask, Row, Workstream};
use crate::rows::{
    decode_persona, decode_task, decode_workstream, is_persona_of, is_task_of, is_workstream_of,
    persona_row_fault, task_row_fault, workstream_row_fault, PersonaRow, ProjectTaskRow,
    WorkstreamRow,
};
use crate::store::Store;
use crate::table::{distinct_keys, Table};

verus! {

/// Whether the stored persona at place `i` stops the loading: it cannot be
/// read, or it repeats the identifier of an earlier row. `report` is what
/// is then said.
pub open spec fn persona_stops_loading(rows: Seq<PersonaRow>, i: int, report: Seq<char>) -> bool {
    &&& 0 <= i < rows.len()
    &&& forall|j: int| 0 <= j < i ==> persona_row_fault(#[trigger] rows[j]) is None
    &&& forall|j: int, k: int| 0 <= j < k < i ==> (#[trigger] rows[j]).id@ != (#[trigger] rows[k]).id@
    &&& match persona_row_fault(rows[i]) {
        Some(m) => report == m,
        None => report == duplicate_key_text(Entity::Persona) && exists|j: int|
            0 <= j < i && (#[trigger] rows[j]).id@ == rows[i].id@,
    }
}

/// Whether the stored workstream at place `i` stops the loading: it cannot
/// be read, or it repeats the identifier of an earlier row. `report` is
/// what is then said.
pub open spec fn workstream_stops_loading(rows: Seq<WorkstreamRow>, i: int, report: Seq<char>)
    -> bool {
    &&& 0 <= i < rows.len()
    &&& forall|j: int| 0 <= j < i ==> workstream_row_fault(#[trigger] rows[j]) is None
    &&& forall|j: int, k: int| 0 <= j < k < i ==> (#[trigger] rows[j]).id@ != (#[trigger] rows[k]).id@
    &&& match workstream_row_fault(rows[i]) {
        Some(m) => report == m,
        None => report == duplicate_key_text(Entity::Workstream) && exists|j: int|
            0 <= j < i && (#[trigger] rows[j]).id@ == rows[i].id@,
    }
}

/// Whether the stored task at place `i` stops the loading: it cannot be
/// read, or it repeats the identifier of an earlier row. `report` is what
/// is then said.
pub open spec fn task_stops_loading(rows: Seq<ProjectTaskRow>, i: int, report: Seq<char>) -> bool {
    &&& 0 <= i < rows.len()
    &&& forall|j: int| 0 <= j < i ==> task_row_fault(#[trigger] rows[j]) is None
    &&& forall|j: int, k: int| 0 <= j < k < i ==> (#[trigger] rows[j]).id@ != (#[trigger] rows[k]).id@
    &&& match task_row_fault(rows[i]) {
        Some(m) => report == m,
        None => report == duplicate_key_text(Entity::ProjectTask) && exists|j: int|
            0 <= j < i && (#[trigger] rows[j]).id@ == rows[i].id@,
    }
}

/// Reads stored personas into a table, in their order. Stops at the first
/// row that cannot be read or that repeats an identifier.
pub fn load_personas(rows: &Vec<PersonaRow>) -> (r: Result<Table<Persona>, CommandError>)
    ensures
        match r {
            Ok(table) => {
                &&& distinct_keys::<Persona>(table@)
                &&& table@.len() == rows@.len()
                &&& forall|i: int|
                    0 <= i < rows@.len() ==> is_persona_of(#[trigger] table@[i], rows@[i])
                &&& forall|i: int|
                    0 <= i < rows@.len() ==> persona_row_fault(#[trigger] rows@[i]) is None
            },
            Err(e) => exists|i: int, report: Seq<char>|
                persona_stops_loading(rows@, i, report) && e.is_storage(report),
        },
{
    let mut table: Table<Persona> = Table::new();
    let mut i: usize = 0;
    while i < rows.len()
        invariant
            i <= rows.len(),
            table@.len() == i,
            distinct_keys::<Persona>(table@),
            forall|j: int| 0 <= j < i ==> is_persona_of(#[trigger] table@[j], rows@[j]),
            forall|j: int| 0 <= j < i ==> persona_row_fault(#[trigger] rows@[j]) is None,
            forall|j: int, k: int|
                0 <= j < k < i ==> (#[trigger] rows@[j]).id@ != (#[trigger] rows@[k]).id@,
        decreases rows.len() - i,
    {
        let persona = match decode_persona(&rows[i]) {
            Ok(p) => p,
            Err(e) => {
                assert(persona_stops_loading(rows@, i as int, e.message_text()));
                return Err(e);
            },
        };
        let ghost before = table@;
        let ghost v = persona@;
        if !table.insert(persona) {
            let e = CommandError::duplicate_key(Entity::Persona);
            proof {
                let j = choose|j: int|
                    0 <= j < before.len() && #[trigger] Persona::key_of(before[j]) == v.id;
                assert(rows@[j].id@ == rows@[i as int].id@);
                assert(persona_stops_loading(rows@, i as int, e.message_text()));
            }
            return Err(e);
        }
        proof {
            assert forall|j: int, k: int| 0 <= j < k < i + 1 implies (#[trigger] rows@[j]).id@ != (
            #[trigger] rows@[k]).id@ by {
                if k == i {
                    assert(Persona::key_of(before[j]) == rows@[j].id@);
                }
            }
        }
        i = i + 1;
    }
    Ok(table)
}

/// Reads stored workstreams into a table, in their order. Stops at the
/// first row that cannot be read or that repeats an identifier.
pub fn load_workstreams(rows: &Vec<WorkstreamRow>) -> (r: Result<Table<Workstream>, CommandError>)
    ensures
        match r {
            Ok(table) => {
                &&& distinct_keys::<Workstream>(table@)
                &&& table@.len() == rows@.len()
                &&& forall|i: int|
                    0 <= i < rows@.len() ==> is_workstream_of(#[trigger] table@[i], rows@[i])
                &&& forall|i: int|
                    0 <= i < rows@.len() ==> workstream_row_fault(#[trigger] rows@[i]) is None
            },
            Err(e) => exists|i: int, report: Seq<char>|
                workstream_stops_loading(rows@, i, report) && e.is_storage(report),
        },
{
    let mut table: Table<Workstream> = Table::new();
    let mut i: usize = 0;
    while i < rows.len()
        invariant
            i <= rows.len(),
            table@.len() == i,
            distinct_keys::<Workstream>(table@),
            forall|j: int| 0 <= j < i ==> is_workstream_of(#[trigger] table@[j], rows@[j]),
            forall|j: int| 0 <= j < i ==> workstream_row_fault(#[trigger] rows@[j]) is None,
            forall|j: int, k: int|
                0 <= j < k < i ==> (#[trigger] rows@[j]).id@ != (#[trigger] rows@[k]).id@,
        decreases rows.len() - i,
    {
        let workstream = match decode_workstream(&rows[i]) {
            Ok(w) => w,
            Err(e) => {
                assert(workstream_stops_loading(rows@, i as int, e.message_text()));
                return Err(e);
            },
        };
        let ghost before = table@;
        let ghost v = workstream@;
        if !table.insert(workstream) {
            let e = CommandError::duplicate_key(Entity::Workstream);
            proof {
                let j = choose|j: int|
                    0 <= j < before.len() && #[trigger] Workstream::key_of(before[j]) == v.id;
                assert(rows@[j].id@ == rows@[i as int].id@);
                assert(workstream_stops_loading(rows@, i as int, e.message_text()));
            }
            return Err(e);
        }
        proof {
            assert forall|j: int, k: int| 0 <= j < k < i + 1 implies (#[trigger] rows@[j]).id@ != (
            #[trigger] rows@[k]).id@ by {
                if k == i {
                    assert(Workstream::key_of(before[j]) == rows@[j].id@);
                }
            }
        }
        i = i + 1;
    }
    Ok(table)
}

/// Reads stored tasks into a table, in their order. Stops at the first row
/// that cannot be read or that repeats an identifier.
pub fn load_tasks(rows: &Vec<ProjectTaskRow>) -> (r: Result<Table<ProjectTask>, CommandError>)
    ensures
        match r {
            Ok(table) => {
                &&& distinct_keys::<ProjectTask>(table@)
                &&& table@.len() == rows@.len()
                &&& forall|i: int| 0 <= i < rows@.len() ==> is_task_of(#[trigger] table@[i], rows@[i])
                &&& forall|i: int|
                    0 <= i < rows@.len() ==> task_row_fault(#[trigger] rows@[i]) is None
            },
            Err(e) => exists|i: int, report: Seq<char>|
                task_stops_loading(rows@, i, report) && e.is_storage(report),
        },
{
    let mut table: Table<ProjectTask> = Table::new();
    let mut i: usize = 0;
    while i < rows.len()
        invariant
            i <= rows.len(),
            table@.len() == i,
            distinct_keys::<ProjectTask>(table@),
            forall|j: int| 0 <= j < i ==> is_task_of(#[trigger] table@[j], rows@[j]),
            forall|j: int| 0 <= j < i ==> task_row_fault(#[trigger] rows@[j]) is None,
            forall|j: int, k: int|
                0 <= j < k < i ==> (#[trigger] rows@[j]).id@ != (#[trigger] rows@[k]).id@,
        decreases rows.len() - i,
    {
        let task = match decode_task(&rows[i]) {
            Ok(t) => t,
            Err(e) => {
                assert(task_stops_loading(rows@, i as int, e.message_text()));
                return Err(e);
            },
        };
        let ghost before = table@;
        let ghost v = task@;
        if !table.insert(task) {
            let e = CommandError::duplicate_key(Entity::ProjectTask);
            proof {
                let j = choose|j: int|
                    0 <= j < before.len() && #[trigger] ProjectTask::key_of(before[j]) == v.id;
                assert(rows@[j].id@ == rows@[i as int].id@);
                assert(task_stops_loading(rows@, i as int, e.message_text()));
            }
            return Err(e);
        }
        proof {
            assert forall|j: int, k: int| 0 <= j < k < i + 1 implies (#[trigger] rows@[j]).id@ != (
            #[trigger] rows@[k]).id@ by {
                if k == i {
                    assert(ProjectTask::key_of(before[j]) == rows@[j].id@);
                }
            }
        }
        i = i + 1;
    }
    Ok(table)
}

impl Store {
    /// The store that holds what the three lists of stored rows stand for,
    /// each table in the order of its rows. Personas are read first, then
    /// workstreams, then tasks; the first row that cannot be read, or that
    /// repeats an identifier of its table, stops the loading.
    pub fn restore(
        personas: &Vec<PersonaRow>,
        workstreams: &Vec<WorkstreamRow>,
        tasks: &Vec<ProjectTaskRow>,
    ) -> (r: Result<Store, CommandError>)
        ensures
            match r {
                Ok(s) => {
                    &&& s@.well_formed()
                    &&& s@.personas.len() == personas@.len()
                    &&& s@.workstreams.len() == workstreams@.len()
                    &&& s@.tasks.len() == tasks@.len()
                    &&& forall|i: int|
                        0 <= i < personas@.len() ==> is_persona_of(
                            #[trigger] s@.personas[i],
                            personas@[i],
                        )
                    &&& forall|i: int|
                        0 <= i < workstreams@.len() ==> is_workstream_of(
                            #[trigger] s@.workstreams[i],
                            workstreams@[i],
                        )
                    &&& forall|i: int|
                        0 <= i < tasks@.len() ==> is_task_of(#[trigger] s@.tasks[i], tasks@[i])
                },
                Err(e) => exists|i: int, report: Seq<char>|
                    e.is_storage(report) && {
                        ||| persona_stops_loading(personas@, i, report)
                        ||| workstream_stops_loading(workstreams@, i, report)
                        ||| task_stops_loading(tasks@, i, report)
                    },
            },
    {
        let personas = match load_personas(personas) {
            Ok(t) => t,
            Err(e) => {
                return Err(e);
            },
        };
        let workstreams = match load_workstreams(workstreams) {
            Ok(t) => t,
            Err(e) => {
                return Err(e);
            },
        };
        let tasks = match load_tasks(tasks) {
            Ok(t) => t,
            Err(e) => {
                return Err(e);
            },
        };
        Ok(Store { personas, workstreams, tasks })
    }
}

} // verus!
