//! What holds of the commands taken together.

use vstd::prelude::*;
use vstd::seq_lib::*;
use crate::model::{Persona, PersonaView, ProjectTaskView, Row, Timestamp, WorkstreamView};
use crate::persona::merged_persona;
use crate::reply::cleared_text;
use crate::identity::is_random_uuid_text;
use crate::store::{holds_fresh_shape, index_of};
use crate::table::{distinct_keys, has_key};
use crate::task::{is_listed, listing_of, merged_task, task_listings, tasks_of};
use crate::workstream::{
    has_active_persona, merged_workstream, workstream_listings, workstreams_of,
    WorkstreamListingView,
};

verus! {

/// A listing that holds the same records as a table holds each record of
/// the table.
pub proof fn listing_holds_every_record<V>(rows: Seq<V>, listed: Seq<V>, row: V)
    requires
        listed.to_multiset() == rows.to_multiset(),
        rows.contains(row),
    ensures
        listed.contains(row),
{
    to_multiset_contains(rows, row);
    to_multiset_contains(listed, row);
}

/// A record that was just added to a table is in every listing of that
/// table: what a creation returns is what a listing shows.
pub proof fn created_record_is_listed<V>(rows: Seq<V>, row: V, listed: Seq<V>)
    requires
        listed.to_multiset() == rows.push(row).to_multiset(),
    ensures
        listed.contains(row),
{
    assert(rows.push(row)[rows.len() as int] == row);
    listing_holds_every_record(rows.push(row), listed, row);
}

/// A workstream that was just created is in every listing of the
/// workstreams of its persona.
pub proof fn created_workstream_is_listed_by_persona(
    rows: Seq<WorkstreamView>,
    w: WorkstreamView,
    listed: Seq<WorkstreamView>,
)
    requires
        listed.to_multiset() == workstreams_of(rows.push(w), w.persona_id).to_multiset(),
    ensures
        listed.contains(w),
{
    reveal(Seq::filter);
    let all = rows.push(w);
    assert(all.drop_last() =~= rows);
    assert(all.last() == w);
    let chosen = workstreams_of(all, w.persona_id);
    assert(chosen == workstreams_of(rows, w.persona_id).push(w));
    assert(chosen[chosen.len() - 1] == w);
    listing_holds_every_record(chosen, listed, w);
}

/// A workstream that was just created for a persona on record is in every
/// listing of all workstreams, together with that persona's name and
/// colour.
pub proof fn created_workstream_is_listed_with_persona(
    rows: Seq<WorkstreamView>,
    personas: Seq<PersonaView>,
    w: WorkstreamView,
    listed: Seq<WorkstreamListingView>,
)
    requires
        has_key::<Persona>(personas, w.persona_id),
        listed.to_multiset() == workstream_listings(rows.push(w), personas).to_multiset(),
    ensures
        listed.contains(
            WorkstreamListingView {
                workstream: w,
                persona_name: personas[index_of::<Persona>(personas, w.persona_id)].name,
                persona_color: personas[index_of::<Persona>(personas, w.persona_id)].color,
            },
        ),
{
    let all = rows.push(w);
    assert(all.drop_last() =~= rows);
    assert(all.last() == w);
    let joined = workstream_listings(all, personas);
    let p = personas[index_of::<Persona>(personas, w.persona_id)];
    let shown = WorkstreamListingView {
        workstream: w,
        persona_name: p.name,
        persona_color: p.color,
    };
    assert(joined == workstream_listings(rows, personas).push(shown));
    assert(joined[joined.len() - 1] == shown);
    listing_holds_every_record(joined, listed, shown);
}

/// A task that was just created is in every listing of the tasks of its
/// workstream.
pub proof fn created_task_is_listed_by_workstream(
    rows: Seq<ProjectTaskView>,
    t: ProjectTaskView,
    listed: Seq<ProjectTaskView>,
)
    requires
        listed.to_multiset() == tasks_of(rows.push(t), t.workstream_id).to_multiset(),
    ensures
        listed.contains(t),
{
    reveal(Seq::filter);
    let all = rows.push(t);
    assert(all.drop_last() =~= rows);
    assert(all.last() == t);
    let chosen = tasks_of(all, t.workstream_id);
    assert(chosen == tasks_of(rows, t.workstream_id).push(t));
    assert(chosen[chosen.len() - 1] == t);
    listing_holds_every_record(chosen, listed, t);
}

/// A task that was just created is in every listing of all tasks, with
/// what is shown of its workstream and persona, provided that the persona
/// of its workstream is on record.
pub proof fn created_task_is_listed_with_context(
    rows: Seq<ProjectTaskView>,
    workstreams: Seq<WorkstreamView>,
    personas: Seq<PersonaView>,
    t: ProjectTaskView,
    listed: Seq<crate::task::TaskListingView>,
)
    requires
        is_listed(t, workstreams, personas),
        listed.to_multiset() == task_listings(rows.push(t), workstreams, personas).to_multiset(),
    ensures
        listed.contains(listing_of(t, workstreams, personas)),
{
    let all = rows.push(t);
    assert(all.drop_last() =~= rows);
    assert(all.last() == t);
    let joined = task_listings(all, workstreams, personas);
    let shown = listing_of(t, workstreams, personas);
    assert(joined == task_listings(rows, workstreams, personas).push(shown));
    assert(joined[joined.len() - 1] == shown);
    listing_holds_every_record(joined, listed, shown);
}

/// An update of a persona that supplies no field changes nothing but the
/// time of the last change.
pub proof fn empty_persona_update_keeps_fields(before: PersonaView, now: Timestamp)
    ensures
        merged_persona(before, None, None, None, None, now) == (PersonaView {
            updated_at: now,
            ..before
        }),
{
}

/// An update of a workstream that supplies neither name nor description
/// changes nothing but the status and the time of the last change.
pub proof fn empty_workstream_update_keeps_fields(
    before: WorkstreamView,
    status: crate::vocab::WorkstreamStatus,
    now: Timestamp,
)
    ensures
        merged_workstream(before, None, None, status, now) == (WorkstreamView {
            status,
            updated_at: now,
            ..before
        }),
{
}

/// An update of a task that supplies neither title nor description changes
/// nothing but status, priority and the time of the last change.
pub proof fn empty_task_update_keeps_fields(
    before: ProjectTaskView,
    status: crate::vocab::TaskStatus,
    priority: crate::vocab::Priority,
    now: Timestamp,
)
    ensures
        merged_task(before, None, None, status, priority, now) == (ProjectTaskView {
            status,
            priority,
            updated_at: now,
            ..before
        }),
{
}

/// Once the record with a given identifier is removed from a table without
/// repeated identifiers, no record carries that identifier: a second
/// removal finds nothing.
pub proof fn removed_record_is_gone<T: Row>(rows: Seq<T::V>, id: Seq<char>)
    requires
        distinct_keys::<T>(rows),
        has_key::<T>(rows, id),
    ensures
        !has_key::<T>(rows.remove(index_of::<T>(rows, id)), id),
        distinct_keys::<T>(rows.remove(index_of::<T>(rows, id))),
{
    let i = index_of::<T>(rows, id);
    let rest = rows.remove(i);
    assert forall|j: int| 0 <= j < rest.len() implies #[trigger] T::key_of(rest[j]) != id by {
        if j < i {
            assert(T::key_of(rows[j]) != T::key_of(rows[i]));
        } else {
            assert(T::key_of(rows[i]) != T::key_of(rows[j + 1]));
        }
    }
    assert forall|j: int, k: int| 0 <= j < k < rest.len() implies #[trigger] T::key_of(rest[j])
        != #[trigger] T::key_of(rest[k]) by {
        let a = if j < i { j } else { j + 1 };
        let b = if k < i { k } else { k + 1 };
        assert(T::key_of(rows[a]) != T::key_of(rows[b]));
    }
}

/// A persona that is not on record is not an active persona on record, so
/// no workstream can be created for it.
pub proof fn missing_persona_is_not_active(personas: Seq<PersonaView>, id: Seq<char>)
    requires
        !has_key::<Persona>(personas, id),
    ensures
        !has_active_persona(personas, id),
{
}

/// An empty table holds no identifier at all, so a creation on it cannot
/// meet a taken identifier and succeeds.
pub proof fn empty_table_cannot_refuse_a_creation<T: Row>()
    ensures
        !holds_fresh_shape::<T>(Seq::empty()),
{
}

/// A table whose identifiers all lack the shape of fresh ones cannot refuse
/// a creation either.
pub proof fn other_identifiers_cannot_refuse_a_creation<T: Row>(rows: Seq<T::V>)
    requires
        forall|k: int| 0 <= k < rows.len() ==> !is_random_uuid_text(#[trigger] T::key_of(rows[k])),
    ensures
        !holds_fresh_shape::<T>(rows),
{
}

/// Clearing an empty persona table reports that nothing was there to
/// remove.
pub proof fn clearing_nothing_reports_nothing()
    ensures
        cleared_text(0) == "No personas found to delete"@,
{
}

/// A workstream that refers to no persona on record is left out of the
/// listing of all workstreams: removing a persona hides its workstreams
/// there without removing them.
pub proof fn orphans_are_not_listed(
    rows: Seq<WorkstreamView>,
    personas: Seq<PersonaView>,
    shown: WorkstreamListingView,
)
    requires
        workstream_listings(rows, personas).contains(shown),
    ensures
        rows.contains(shown.workstream),
        has_key::<Persona>(personas, shown.workstream.persona_id),
    decreases rows.len(),
{
    let joined = workstream_listings(rows, personas);
    let k = choose|k: int| 0 <= k < joined.len() && joined[k] == shown;
    let rest = workstream_listings(rows.drop_last(), personas);
    if has_key::<Persona>(personas, rows.last().persona_id) && k == rest.len() {
        assert(rows[rows.len() - 1] == shown.workstream);
    } else {
        assert(rest[k] == shown);
        orphans_are_not_listed(rows.drop_last(), personas, shown);
        let j = choose|j: int|
            0 <= j < rows.drop_last().len() && rows.drop_last()[j] == shown.workstream;
        assert(rows[j] == shown.workstream);
    }
}

} // verus!
