//! Commands on workstreams.

use vstd::prelude::*;
use vstd::string::*;
use crate::error::{duplicate_key_text, CommandError, Entity, Field};
use crate::codec::moment_text;
use crate::identity::{generate_id, get_current_timestamp, is_random_uuid_text};
use crate::model::{Persona, PersonaView, Row, Timestamp, Workstream, WorkstreamView};
use crate::reply::{deleted_message, deleted_text};
use crate::store::{holds_fresh_shape, index_of, index_of_is_the_place, Store};
use crate::table::{has_key, newest_first, sort_newest_first, views};
use crate::text::{copy_optional, optional_text, same_text, strip_quotes, trim_quotes};
use crate::vocab::{Priority, WorkstreamStatus};

verus! {

/// Whether `personas` holds a persona `id` that is active.
pub open spec fn has_active_persona(personas: Seq<PersonaView>, id: Seq<char>) -> bool {
    has_key::<Persona>(personas, id) && personas[index_of::<Persona>(personas, id)].is_active
}

/// The workstream that a creation puts on record: of medium priority,
/// without dates, with no progress, and last changed when it was created.
pub open spec fn new_workstream(
    id: Seq<char>,
    now: Timestamp,
    persona_id: Seq<char>,
    name: Seq<char>,
    description: Option<Seq<char>>,
    status: WorkstreamStatus,
) -> WorkstreamView {
    WorkstreamView {
        id,
        persona_id,
        name,
        description,
        status,
        priority: Priority::Medium,
        start_date: None,
        target_date: None,
        completed_date: None,
        progress_percentage: 0,
        created_at: now,
        updated_at: now,
    }
}

/// A workstream after an update at `now`: the status is replaced, a
/// supplied name or description replaces the old one, all else stays.
pub open spec fn merged_workstream(
    before: WorkstreamView,
    name: Option<Seq<char>>,
    description: Option<Seq<char>>,
    status: WorkstreamStatus,
    now: Timestamp,
) -> WorkstreamView {
    WorkstreamView {
        name: match name {
            Some(n) => n,
            None => before.name,
        },
        description: match description {
            Some(d) => Some(d),
            None => before.description,
        },
        status,
        updated_at: now,
        ..before
    }
}

/// The workstreams of `rows` that belong to the persona `persona_id`, in
/// the order of `rows`.
pub open spec fn workstreams_of(rows: Seq<WorkstreamView>, persona_id: Seq<char>) -> Seq<
    WorkstreamView,
> {
    rows.filter(|w: WorkstreamView| w.persona_id == persona_id)
}

/// A workstream together with the name and colour of its persona.
#[derive(Clone, Debug, PartialEq, Eq)]
pub struct WorkstreamListing {
    pub workstream: Workstream,
    pub persona_name: String,
    pub persona_color: String,
}

/// A listed workstream as a mathematical value.
pub struct WorkstreamListingView {
    pub workstream: WorkstreamView,
    pub persona_name: Seq<char>,
    pub persona_color: Seq<char>,
}

impl View for WorkstreamListing {
    type V = WorkstreamListingView;

    open spec fn view(&self) -> WorkstreamListingView {
        WorkstreamListingView {
            workstream: self.workstream@,
            persona_name: self.persona_name@,
            persona_color: self.persona_color@,
        }
    }
}

impl Row for WorkstreamListing {
    open spec fn key_of(v: WorkstreamListingView) -> Seq<char> {
        v.workstream.id
    }

    open spec fn created_of(v: WorkstreamListingView) -> Timestamp {
        v.workstream.created_at
    }

    fn key(&self) -> (r: &String) {
        &self.workstream.id
    }

    fn created(&self) -> (r: Timestamp) {
        self.workstream.created_at
    }

    fn duplicate(&self) -> (r: WorkstreamListing) {
        WorkstreamListing {
            workstream: self.workstream.duplicate(),
            persona_name: self.persona_name.clone(),
            persona_color: self.persona_color.clone(),
        }
    }
}

/// Each workstream of `rows` whose persona is on record, together with
/// that persona's name and colour, in the order of `rows`. A workstream
/// whose persona is gone is left out.
pub open spec fn workstream_listings(rows: Seq<WorkstreamView>, personas: Seq<PersonaView>) -> Seq<
    WorkstreamListingView,
>
    decreases rows.len(),
{
    if rows.len() == 0 {
        Seq::empty()
    } else {
        let rest = workstream_listings(rows.drop_last(), personas);
        let w = rows.last();
        if has_key::<Persona>(personas, w.persona_id) {
            let p = personas[index_of::<Persona>(personas, w.persona_id)];
            rest.push(
                WorkstreamListingView {
                    workstream: w,
                    persona_name: p.name,
                    persona_color: p.color,
                },
            )
        } else {
            rest
        }
    }
}

impl Store {
    /// Puts a new workstream with identifier `id` on record, created at
    /// `now`. The checks come in this order, and each failure changes
    /// nothing: the persona must be on record and active; the status must be
    /// one of the five tokens; the identifier must be free.
    pub fn insert_workstream(
        &mut self,
        id: String,
        now: Timestamp,
        persona_id: String,
        name: String,
        description: Option<String>,
        status: String,
    ) -> (r: Result<Workstream, CommandError>)
        ensures
            old(self)@.well_formed() ==> final(self)@.well_formed(),
            r is Err ==> final(self)@ == old(self)@,
            match r {
                Ok(w) => {
                    &&& has_active_persona(old(self)@.personas, persona_id@)
                    &&& WorkstreamStatus::of_text(status@) == Some(w@.status)
                    &&& !has_key::<Workstream>(old(self)@.workstreams, id@)
                    &&& w@ == new_workstream(
                        id@,
                        now,
                        persona_id@,
                        name@,
                        optional_text(description),
                        w@.status,
                    )
                    &&& final(self)@ == old(self)@.with_workstreams(
                        old(self)@.workstreams.push(w@),
                    )
                },
                Err(e) => {
                    if !has_active_persona(old(self)@.personas, persona_id@) {
                        e.is_referential(Entity::Persona, persona_id@)
                    } else if WorkstreamStatus::of_text(status@) is None {
                        e.is_invalid_argument(Field::WorkstreamStatus, status@)
                    } else {
                        &&& has_key::<Workstream>(old(self)@.workstreams, id@)
                        &&& e.is_storage(duplicate_key_text(Entity::Workstream))
                    }
                },
            },
    {
        let active = match self.personas.find(persona_id.as_str()) {
            None => false,
            Some(i) => {
                proof {
                    index_of_is_the_place::<Persona>(self.personas@, i as int);
                }
                self.personas.get(i).is_active
            },
        };
        if !active {
            return Err(CommandError::Referential { parent: Entity::Persona, id: persona_id });
        }
        let parsed = match WorkstreamStatus::parse(status.as_str()) {
            None => {
                return Err(
                    CommandError::InvalidArgument { field: Field::WorkstreamStatus, value: status },
                );
            },
            Some(s) => s,
        };
        let workstream = Workstream {
            id,
            persona_id,
            name,
            description,
            status: parsed,
            priority: Priority::Medium,
            start_date: None,
            target_date: None,
            completed_date: None,
            progress_percentage: 0,
            created_at: now,
            updated_at: now,
        };
        let copy = workstream.duplicate();
        if self.workstreams.insert(workstream) {
            Ok(copy)
        } else {
            Err(CommandError::duplicate_key(Entity::Workstream))
        }
    }

    /// Creates a workstream under a fresh identifier, stamped with the
    /// current time. The checks come in this order, and each failure
    /// changes nothing: the persona must be on record and active; the
    /// status must be one of the five tokens; the fresh identifier must be
    /// free, which it is wherever no workstream on record carries an
    /// identifier of the shape that fresh ones have.
    pub fn create_workstream(
        &mut self,
        persona_id: String,
        name: String,
        description: Option<String>,
        status: String,
    ) -> (r: Result<Workstream, CommandError>)
        ensures
            old(self)@.well_formed() ==> final(self)@.well_formed(),
            r is Err ==> final(self)@ == old(self)@,
            match r {
                Ok(w) => {
                    &&& is_random_uuid_text(w@.id)
                    &&& moment_text(w@.created_at) is Some
                    &&& has_active_persona(old(self)@.personas, persona_id@)
                    &&& WorkstreamStatus::of_text(status@) == Some(w@.status)
                    &&& !has_key::<Workstream>(old(self)@.workstreams, w@.id)
                    &&& w@ == new_workstream(
                        w@.id,
                        w@.created_at,
                        persona_id@,
                        name@,
                        optional_text(description),
                        w@.status,
                    )
                    &&& final(self)@ == old(self)@.with_workstreams(
                        old(self)@.workstreams.push(w@),
                    )
                },
                Err(e) => {
                    if !has_active_persona(old(self)@.personas, persona_id@) {
                        e.is_referential(Entity::Persona, persona_id@)
                    } else if WorkstreamStatus::of_text(status@) is None {
                        e.is_invalid_argument(Field::WorkstreamStatus, status@)
                    } else {
                        &&& holds_fresh_shape::<Workstream>(old(self)@.workstreams)
                        &&& e.is_storage(duplicate_key_text(Entity::Workstream))
                    }
                },
            },
    {
        let id = generate_id();
        let now = get_current_timestamp();
        self.insert_workstream(id, now, persona_id, name, description, status)
    }

    /// The workstreams of the persona `persona_id`, latest creation first.
    pub fn get_workstreams_by_persona(&self, persona_id: String) -> (r: Vec<Workstream>)
        ensures
            newest_first::<Workstream>(views(r@)),
            views(r@).to_multiset() == workstreams_of(self@.workstreams, persona_id@).to_multiset(),
    {
        let all = self.workstreams.snapshot();
        let mut chosen: Vec<Workstream> = Vec::new();
        let mut i: usize = 0;
        assert(views(chosen@) =~= workstreams_of(views(all@).take(0), persona_id@)) by {
            reveal(Seq::filter);
        }
        while i < all.len()
            invariant
                i <= all.len(),
                views(chosen@) == workstreams_of(views(all@).take(i as int), persona_id@),
            decreases all.len() - i,
        {
            let ghost before = views(chosen@);
            proof {
                reveal(Seq::filter);
                assert(views(all@).take(i + 1).drop_last() =~= views(all@).take(i as int));
                assert(views(all@).take(i + 1).last() == all@[i as int]@);
            }
            if same_text(all[i].persona_id.as_str(), persona_id.as_str()) {
                chosen.push(all[i].duplicate());
                assert(views(chosen@) =~= before.push(all@[i as int]@));
            }
            i = i + 1;
        }
        assert(views(all@).take(i as int) =~= views(all@));
        sort_newest_first(chosen)
    }

    /// Every workstream whose persona is on record, with that persona's
    /// name and colour, latest creation first.
    pub fn get_all_workstreams(&self) -> (r: Vec<WorkstreamListing>)
        ensures
            newest_first::<WorkstreamListing>(views(r@)),
            views(r@).to_multiset() == workstream_listings(
                self@.workstreams,
                self@.personas,
            ).to_multiset(),
    {
        let all = self.workstreams.snapshot();
        let mut joined: Vec<WorkstreamListing> = Vec::new();
        let mut i: usize = 0;
        assert(views(joined@) =~= workstream_listings(views(all@).take(0), self@.personas));
        while i < all.len()
            invariant
                i <= all.len(),
                views(joined@) == workstream_listings(views(all@).take(i as int), self@.personas),
            decreases all.len() - i,
        {
            let ghost before = views(joined@);
            proof {
                assert(views(all@).take(i + 1).drop_last() =~= views(all@).take(i as int));
                assert(views(all@).take(i + 1).last() == all@[i as int]@);
            }
            match self.personas.find(all[i].persona_id.as_str()) {
                None => {},
                Some(j) => {
                    proof {
                        index_of_is_the_place::<Persona>(self.personas@, j as int);
                    }
                    let persona = self.personas.get(j);
                    let listing = WorkstreamListing {
                        workstream: all[i].duplicate(),
                        persona_name: persona.name.clone(),
                        persona_color: persona.color.clone(),
                    };
                    let ghost v = listing@;
                    joined.push(listing);
                    assert(views(joined@) =~= before.push(v));
                },
            }
            i = i + 1;
        }
        assert(views(all@).take(i as int) =~= views(all@));
        sort_newest_first(joined)
    }

    /// Updates the workstream `id` at `now`. Quotes around `status` are
    /// dropped before it is read. The checks come in this order, and each
    /// failure changes nothing: a workstream must carry `id`; the status
    /// must be one of the five tokens. Then the status is replaced, a
    /// supplied name or description replaces the old one, and all else
    /// stays.
    pub fn merge_workstream(
        &mut self,
        id: &str,
        name: Option<String>,
        description: Option<String>,
        status: &str,
        now: Timestamp,
    ) -> (r: Result<Workstream, CommandError>)
        ensures
            old(self)@.well_formed() ==> final(self)@.well_formed(),
            r is Err ==> final(self)@ == old(self)@,
            match r {
                Ok(w) => {
                    let i = index_of::<Workstream>(old(self)@.workstreams, id@);
                    &&& has_key::<Workstream>(old(self)@.workstreams, id@)
                    &&& WorkstreamStatus::of_text(strip_quotes(status@)) == Some(w@.status)
                    &&& w@ == merged_workstream(
                        old(self)@.workstreams[i],
                        optional_text(name),
                        optional_text(description),
                        w@.status,
                        now,
                    )
                    &&& final(self)@ == old(self)@.with_workstreams(
                        old(self)@.workstreams.update(i, w@),
                    )
                },
                Err(e) => {
                    if !has_key::<Workstream>(old(self)@.workstreams, id@) {
                        e.is_not_found(Entity::Workstream, id@)
                    } else {
                        &&& WorkstreamStatus::of_text(strip_quotes(status@)) is None
                        &&& e.is_invalid_argument(Field::WorkstreamStatus, strip_quotes(status@))
                    }
                },
            },
    {
        let i = match self.workstreams.find(id) {
            None => {
                return Err(
                    CommandError::NotFound { entity: Entity::Workstream, id: String::from_str(id) },
                );
            },
            Some(i) => i,
        };
        proof {
            index_of_is_the_place::<Workstream>(self.workstreams@, i as int);
        }
        let cleaned = trim_quotes(status);
        let parsed = match WorkstreamStatus::parse(cleaned) {
            None => {
                return Err(
                    CommandError::InvalidArgument {
                        field: Field::WorkstreamStatus,
                        value: String::from_str(cleaned),
                    },
                );
            },
            Some(s) => s,
        };
        let before = self.workstreams.get(i);
        let updated = Workstream {
            id: before.id.clone(),
            persona_id: before.persona_id.clone(),
            name: match name {
                Some(n) => n,
                None => before.name.clone(),
            },
            description: match description {
                Some(d) => Some(d),
                None => copy_optional(&before.description),
            },
            status: parsed,
            priority: before.priority,
            start_date: before.start_date,
            target_date: before.target_date,
            completed_date: before.completed_date,
            progress_percentage: before.progress_percentage,
            created_at: before.created_at,
            updated_at: now,
        };
        let copy = updated.duplicate();
        self.workstreams.replace(i, updated);
        Ok(copy)
    }

    /// Updates the workstream `id` at the current time. Quotes around
    /// `status` are dropped before it is read. The checks come in this
    /// order, and each failure changes nothing: a workstream must carry
    /// `id`; the status must be one of the five tokens. Then the status is
    /// replaced, a supplied name or description replaces the old one, and
    /// all else stays.
    pub fn update_workstream(
        &mut self,
        id: String,
        name: Option<String>,
        description: Option<String>,
        status: String,
    ) -> (r: Result<Workstream, CommandError>)
        ensures
            old(self)@.well_formed() ==> final(self)@.well_formed(),
            r is Err ==> final(self)@ == old(self)@,
            match r {
                Ok(w) => {
                    let i = index_of::<Workstream>(old(self)@.workstreams, id@);
                    &&& moment_text(w@.updated_at) is Some
                    &&& has_key::<Workstream>(old(self)@.workstreams, id@)
                    &&& WorkstreamStatus::of_text(strip_quotes(status@)) == Some(w@.status)
                    &&& w@ == merged_workstream(
                        old(self)@.workstreams[i],
                        optional_text(name),
                        optional_text(description),
                        w@.status,
                        w@.updated_at,
                    )
                    &&& final(self)@ == old(self)@.with_workstreams(
                        old(self)@.workstreams.update(i, w@),
                    )
                },
                Err(e) => {
                    if !has_key::<Workstream>(old(self)@.workstreams, id@) {
                        e.is_not_found(Entity::Workstream, id@)
                    } else {
                        &&& WorkstreamStatus::of_text(strip_quotes(status@)) is None
                        &&& e.is_invalid_argument(Field::WorkstreamStatus, strip_quotes(status@))
                    }
                },
            },
    {
        let now = get_current_timestamp();
        self.merge_workstream(id.as_str(), name, description, status.as_str(), now)
    }

    /// Removes the workstream `id` and confirms it by name. Fails, and
    /// changes nothing, exactly when no workstream carries `id`. Tasks of
    /// the workstream stay on record.
    pub fn delete_workstream(&mut self, id: String) -> (r: Result<String, CommandError>)
        ensures
            old(self)@.well_formed() ==> final(self)@.well_formed(),
            match r {
                Ok(text) => {
                    let i = index_of::<Workstream>(old(self)@.workstreams, id@);
                    &&& has_key::<Workstream>(old(self)@.workstreams, id@)
                    &&& text@ == deleted_text(
                        Entity::Workstream,
                        old(self)@.workstreams[i].name,
                        id@,
                    )
                    &&& final(self)@ == old(self)@.with_workstreams(
                        old(self)@.workstreams.remove(i),
                    )
                    &&& !has_key::<Workstream>(final(self)@.workstreams, id@)
                },
                Err(e) => {
                    &&& !has_key::<Workstream>(old(self)@.workstreams, id@)
                    &&& e.is_not_found(Entity::Workstream, id@)
                    &&& final(self)@ == old(self)@
                },
            },
    {
        match self.workstreams.find(id.as_str()) {
            None => Err(CommandError::NotFound { entity: Entity::Workstream, id }),
            Some(i) => {
                proof {
                    index_of_is_the_place::<Workstream>(self.workstreams@, i as int);
                }
                let removed = self.workstreams.remove(i);
                Ok(deleted_message(Entity::Workstream, removed.name.as_str(), id.as_str()))
            },
        }
    }
}

} // verus!
