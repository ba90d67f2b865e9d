//! Commands on personas.

use vstd::prelude::*;
use vstd::string::*;
use crate::error::{duplicate_key_text, CommandError, Entity};
use crate::codec::moment_text;
use crate::identity::{generate_id, get_current_timestamp, is_random_uuid_text};
use crate::model::{Persona, PersonaView, Row, Timestamp};
use crate::reply::{cleared_message, cleared_text, deleted_message, deleted_text, sample_created_text};
use crate::store::{holds_fresh_shape, index_of, index_of_is_the_place, Store};
use crate::table::{has_key, newest_first, sort_newest_first, views};
use crate::text::{copy_optional, optional_text};

verus! {

/// The persona that a creation puts on record: active, and last changed
/// when it was created.
pub open spec fn new_persona(
    id: Seq<char>,
    now: Timestamp,
    name: Seq<char>,
    description: Option<Seq<char>>,
    color: Seq<char>,
) -> PersonaView {
    PersonaView { id, name, description, color, created_at: now, updated_at: now, is_active: true }
}

/// A persona after an update at `now`: each supplied field replaces the
/// old one, each field left out stays.
pub open spec fn merged_persona(
    before: PersonaView,
    name: Option<Seq<char>>,
    description: Option<Seq<char>>,
    color: Option<Seq<char>>,
    is_active: Option<bool>,
    now: Timestamp,
) -> PersonaView {
    PersonaView {
        id: before.id,
        name: match name {
            Some(n) => n,
            None => before.name,
        },
        description: match description {
            Some(d) => Some(d),
            None => before.description,
        },
        color: match color {
            Some(c) => c,
            None => before.color,
        },
        created_at: before.created_at,
        updated_at: now,
        is_active: match is_active {
            Some(a) => a,
            None => before.is_active,
        },
    }
}

impl Store {
    /// Puts a new persona with identifier `id` on record, created at `now`.
    /// Fails, and changes nothing, exactly when the identifier is taken.
    pub fn insert_persona(
        &mut self,
        id: String,
        now: Timestamp,
        name: String,
        description: Option<String>,
        color: String,
    ) -> (r: Result<Persona, CommandError>)
        ensures
            old(self)@.well_formed() ==> final(self)@.well_formed(),
            match r {
                Ok(p) => {
                    &&& !has_key::<Persona>(old(self)@.personas, id@)
                    &&& p@ == new_persona(id@, now, name@, optional_text(description), color@)
                    &&& final(self)@ == old(self)@.with_personas(old(self)@.personas.push(p@))
                },
                Err(e) => {
                    &&& has_key::<Persona>(old(self)@.personas, id@)
                    &&& e.is_storage(duplicate_key_text(Entity::Persona))
                    &&& final(self)@ == old(self)@
                },
            },
    {
        let persona = Persona {
            id,
            name,
            description,
            color,
            created_at: now,
            updated_at: now,
            is_active: true,
        };
        let copy = persona.duplicate();
        if self.personas.insert(persona) {
            Ok(copy)
        } else {
            Err(CommandError::duplicate_key(Entity::Persona))
        }
    }

    /// Creates an active persona under a fresh identifier, stamped with the
    /// current time. Fails, and changes nothing, only when the fresh
    /// identifier turns out to be taken: so never where no persona on record
    /// carries an identifier of the shape that fresh ones have.
    pub fn create_persona(&mut self, name: String, description: Option<String>, color: String) -> (r:
        Result<Persona, CommandError>)
        ensures
            old(self)@.well_formed() ==> final(self)@.well_formed(),
            match r {
                Ok(p) => {
                    &&& is_random_uuid_text(p@.id)
                    &&& moment_text(p@.created_at) is Some
                    &&& !has_key::<Persona>(old(self)@.personas, p@.id)
                    &&& p@ == new_persona(
                        p@.id,
                        p@.created_at,
                        name@,
                        optional_text(description),
                        color@,
                    )
                    &&& final(self)@ == old(self)@.with_personas(old(self)@.personas.push(p@))
                },
                Err(e) => {
                    &&& holds_fresh_shape::<Persona>(old(self)@.personas)
                    &&& e.is_storage(duplicate_key_text(Entity::Persona))
                    &&& final(self)@ == old(self)@
                },
            },
    {
        let id = generate_id();
        let now = get_current_timestamp();
        self.insert_persona(id, now, name, description, color)
    }

    /// All personas, latest creation first.
    pub fn get_all_personas(&self) -> (r: Vec<Persona>)
        ensures
            newest_first::<Persona>(views(r@)),
            views(r@).to_multiset() == self@.personas.to_multiset(),
    {
        sort_newest_first(self.personas.snapshot())
    }

    /// Updates the persona `id` at `now`: supplied fields replace the old
    /// ones, the others stay. Fails, and changes nothing, exactly when no
    /// persona carries `id`.
    pub fn merge_persona(
        &mut self,
        id: &str,
        name: Option<String>,
        description: Option<String>,
        color: Option<String>,
        is_active: Option<bool>,
        now: Timestamp,
    ) -> (r: Result<Persona, CommandError>)
        ensures
            old(self)@.well_formed() ==> final(self)@.well_formed(),
            match r {
                Ok(p) => {
                    let i = index_of::<Persona>(old(self)@.personas, id@);
                    &&& has_key::<Persona>(old(self)@.personas, id@)
                    &&& p@ == merged_persona(
                        old(self)@.personas[i],
                        optional_text(name),
                        optional_text(description),
                        optional_text(color),
                        is_active,
                        now,
                    )
                    &&& final(self)@ == old(self)@.with_personas(
                        old(self)@.personas.update(i, p@),
                    )
                },
                Err(e) => {
                    &&& !has_key::<Persona>(old(self)@.personas, id@)
                    &&& e.is_not_found(Entity::Persona, id@)
                    &&& final(self)@ == old(self)@
                },
            },
    {
        match self.personas.find(id) {
            None => Err(CommandError::NotFound { entity: Entity::Persona, id: String::from_str(id) }),
            Some(i) => {
                proof {
                    index_of_is_the_place::<Persona>(self.personas@, i as int);
                }
                let before = self.personas.get(i);
                let updated = Persona {
                    id: before.id.clone(),
                    name: match name {
                        Some(n) => n,
                        None => before.name.clone(),
                    },
                    description: match description {
                        Some(d) => Some(d),
                        None => copy_optional(&before.description),
                    },
                    color: match color {
                        Some(c) => c,
                        None => before.color.clone(),
                    },
                    created_at: before.created_at,
                    updated_at: now,
                    is_active: match is_active {
                        Some(a) => a,
                        None => before.is_active,
                    },
                };
                let copy = updated.duplicate();
                self.personas.replace(i, updated);
                Ok(copy)
            },
        }
    }

    /// Updates the persona `id` at the current time: supplied fields replace
    /// the old ones, the others stay. Fails, and changes nothing, exactly
    /// when no persona carries `id`.
    pub fn update_persona(
        &mut self,
        id: String,
        name: Option<String>,
        description: Option<String>,
        color: Option<String>,
        is_active: Option<bool>,
    ) -> (r: Result<Persona, CommandError>)
        ensures
            old(self)@.well_formed() ==> final(self)@.well_formed(),
            match r {
                Ok(p) => {
                    let i = index_of::<Persona>(old(self)@.personas, id@);
                    &&& moment_text(p@.updated_at) is Some
                    &&& has_key::<Persona>(old(self)@.personas, id@)
                    &&& p@ == merged_persona(
                        old(self)@.personas[i],
                        optional_text(name),
                        optional_text(description),
                        optional_text(color),
                        is_active,
                        p@.updated_at,
                    )
                    &&& final(self)@ == old(self)@.with_personas(
                        old(self)@.personas.update(i, p@),
                    )
                },
                Err(e) => {
                    &&& !has_key::<Persona>(old(self)@.personas, id@)
                    &&& e.is_not_found(Entity::Persona, id@)
                    &&& final(self)@ == old(self)@
                },
            },
    {
        let now = get_current_timestamp();
        self.merge_persona(id.as_str(), name, description, color, is_active, now)
    }

    /// Removes the persona `id` and confirms it by name. Fails, and changes
    /// nothing, exactly when no persona carries `id`. Workstreams of the
    /// persona stay on record.
    pub fn delete_persona(&mut self, id: String) -> (r: Result<String, CommandError>)
        ensures
            old(self)@.well_formed() ==> final(self)@.well_formed(),
            match r {
                Ok(text) => {
                    let i = index_of::<Persona>(old(self)@.personas, id@);
                    &&& has_key::<Persona>(old(self)@.personas, id@)
                    &&& text@ == deleted_text(Entity::Persona, old(self)@.personas[i].name, id@)
                    &&& final(self)@ == old(self)@.with_personas(old(self)@.personas.remove(i))
                    &&& !has_key::<Persona>(final(self)@.personas, id@)
                },
                Err(e) => {
                    &&& !has_key::<Persona>(old(self)@.personas, id@)
                    &&& e.is_not_found(Entity::Persona, id@)
                    &&& final(self)@ == old(self)@
                },
            },
    {
        match self.personas.find(id.as_str()) {
            None => Err(CommandError::NotFound { entity: Entity::Persona, id }),
            Some(i) => {
                proof {
                    index_of_is_the_place::<Persona>(self.personas@, i as int);
                }
                let removed = self.personas.remove(i);
                Ok(deleted_message(Entity::Persona, removed.name.as_str(), id.as_str()))
            },
        }
    }

    /// Removes every persona and reports how many there were; on an empty
    /// table it reports that nothing was there to remove.
    pub fn clear_all_personas(&mut self) -> (text: String)
        ensures
            final(self)@ == old(self)@.with_personas(Seq::empty()),
            text@ == cleared_text(old(self)@.personas.len()),
            old(self)@.well_formed() ==> final(self)@.well_formed(),
    {
        let count = self.personas.clear();
        cleared_message(count)
    }

    /// Creates the sample persona and confirms it with its identifier and
    /// name. Fails, and changes nothing, only when the fresh identifier
    /// turns out to be taken.
    pub fn create_test_persona(&mut self) -> (r: Result<String, CommandError>)
        ensures
            old(self)@.well_formed() ==> final(self)@.well_formed(),
            match r {
                Ok(text) => {
                    let p = final(self)@.personas.last();
                    &&& is_random_uuid_text(p.id)
                    &&& moment_text(p.created_at) is Some
                    &&& !has_key::<Persona>(old(self)@.personas, p.id)
                    &&& p == new_persona(
                        p.id,
                        p.created_at,
                        "Test Persona"@,
                        Some("This is a test persona created from Rust"@),
                        "#3b82f6"@,
                    )
                    &&& final(self)@ == old(self)@.with_personas(old(self)@.personas.push(p))
                    &&& text@ == sample_created_text(p.id, p.name)
                },
                Err(e) => {
                    &&& holds_fresh_shape::<Persona>(old(self)@.personas)
                    &&& e.is_storage(duplicate_key_text(Entity::Persona))
                    &&& final(self)@ == old(self)@
                },
            },
    {
        let created = self.create_persona(
            String::from_str("Test Persona"),
            Some(String::from_str("This is a test persona created from Rust")),
            String::from_str("#3b82f6"),
        );
        match created {
            Ok(p) => {
                let mut text = String::from_str("Test persona created successfully! ID: ");
                text.append(p.id.as_str());
                text.append(", Name: ");
                text.append(p.name.as_str());
                Ok(text)
            },
            Err(e) => Err(e),
        }
    }
}

} // verus!
