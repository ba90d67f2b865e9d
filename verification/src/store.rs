//! The three tables that commands act on, as one value.

use vstd::prelude::*;
use crate::identity::is_random_uuid_text;
use crate::model::{
    Persona, PersonaView, ProjectTask, ProjectTaskView, Row, Workstream, WorkstreamView,
};
use crate::table::{distinct_keys, has_key, Table};

verus! {

/// The personas, workstreams and project tasks that are on record.
#[derive(Debug)]
pub struct Store {
    pub personas: Table<Persona>,
    pub workstreams: Table<Workstream>,
    pub tasks: Table<ProjectTask>,
}

/// What a store holds: the records of each table in the order of
/// insertion.
pub struct StoreView {
    pub personas: Seq<PersonaView>,
    pub workstreams: Seq<WorkstreamView>,
    pub tasks: Seq<ProjectTaskView>,
}

impl View for Store {
    type V = StoreView;

    open spec fn view(&self) -> StoreView {
        StoreView {
            personas: self.personas@,
            workstreams: self.workstreams@,
            tasks: self.tasks@,
        }
    }
}

impl StoreView {
    /// Whether no identifier occurs twice within a table and the progress
    /// of every workstream is at most 100 percent.
    pub open spec fn well_formed(self) -> bool {
        &&& distinct_keys::<Persona>(self.personas)
        &&& distinct_keys::<Workstream>(self.workstreams)
        &&& distinct_keys::<ProjectTask>(self.tasks)
        &&& forall|i: int|
            0 <= i < self.workstreams.len() ==> (#[trigger] self.workstreams[i]).progress_percentage
                <= 100
    }

    /// The store with `personas` in the place of its personas.
    pub open spec fn with_personas(self, personas: Seq<PersonaView>) -> StoreView {
        StoreView { personas, workstreams: self.workstreams, tasks: self.tasks }
    }

    /// The store with `workstreams` in the place of its workstreams.
    pub open spec fn with_workstreams(self, workstreams: Seq<WorkstreamView>) -> StoreView {
        StoreView { personas: self.personas, workstreams, tasks: self.tasks }
    }

    /// The store with `tasks` in the place of its tasks.
    pub open spec fn with_tasks(self, tasks: Seq<ProjectTaskView>) -> StoreView {
        StoreView { personas: self.personas, workstreams: self.workstreams, tasks }
    }
}

/// Whether some record of `rows` carries an identifier of the shape that
/// fresh identifiers have. Only such a record can stand in the way of a
/// creation.
pub open spec fn holds_fresh_shape<T: Row>(rows: Seq<T::V>) -> bool {
    exists|k: int| 0 <= k < rows.len() && is_random_uuid_text(#[trigger] T::key_of(rows[k]))
}

/// The place of the record with identifier `id` in `rows`; meaningful
/// where `rows` holds such a record.
pub open spec fn index_of<T: Row>(rows: Seq<T::V>, id: Seq<char>) -> int {
    choose|i: int| 0 <= i < rows.len() && #[trigger] T::key_of(rows[i]) == id
}

/// Where identifiers are distinct, the one record with a given identifier
/// stands at `index_of`.
pub proof fn index_of_is_the_place<T: Row>(rows: Seq<T::V>, i: int)
    requires
        distinct_keys::<T>(rows),
        0 <= i < rows.len(),
    ensures
        has_key::<T>(rows, T::key_of(rows[i])),
        index_of::<T>(rows, T::key_of(rows[i])) == i,
{
    let id = T::key_of(rows[i]);
    let j = index_of::<T>(rows, id);
    assert(0 <= j < rows.len() && T::key_of(rows[j]) == id);
    if j < i {
        assert(T::key_of(rows[j]) != T::key_of(rows[i]));
    } else if i < j {
        assert(T::key_of(rows[i]) != T::key_of(rows[j]));
    }
}

impl Store {
    /// A store without records.
    pub fn new() -> (r: Store)
        ensures
            r@.personas.len() == 0,
            r@.workstreams.len() == 0,
            r@.tasks.len() == 0,
            r@.well_formed(),
    {
        Store { personas: Table::new(), workstreams: Table::new(), tasks: Table::new() }
    }
}

} // verus!
