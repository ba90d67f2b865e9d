//! The confirmations that commands answer with.

use vstd::prelude::*;
use vstd::string::*;
use crate::error::{nothing_deleted_text, CommandError, Entity};
use crate::text::{decimal, render_decimal};

verus! {

/// The confirmation of a removed record.
pub open spec fn deleted_text(entity: Entity, name: Seq<char>, id: Seq<char>) -> Seq<char> {
    "Successfully deleted "@ + entity.noun_text() + " '"@ + name + "' with ID: "@ + id
}

/// The confirmation of a cleared persona table that held `count` records.
pub open spec fn cleared_text(count: nat) -> Seq<char> {
    if count == 0 {
        "No personas found to delete"@
    } else {
        "Successfully deleted "@ + decimal(count) + " persona(s) from the database"@
    }
}

/// The greeting for `name`.
pub open spec fn greeting_text(name: Seq<char>) -> Seq<char> {
    "Hello, "@ + name + "! You've been greeted from Rust!"@
}

/// The confirmation of a created sample persona.
pub open spec fn sample_created_text(id: Seq<char>, name: Seq<char>) -> Seq<char> {
    "Test persona created successfully! ID: "@ + id + ", Name: "@ + name
}

/// Confirms that the record `name` with identifier `id` was removed.
pub fn deleted_message(entity: Entity, name: &str, id: &str) -> (r: String)
    ensures
        r@ == deleted_text(entity, name@, id@),
{
    let mut r = String::from_str("Successfully deleted ");
    r.append(entity.noun());
    r.append(" '");
    r.append(name);
    r.append("' with ID: ");
    r.append(id);
    r
}

/// Confirms that `count` personas were removed.
pub fn cleared_message(count: usize) -> (r: String)
    ensures
        r@ == cleared_text(count as nat),
{
    if count == 0 {
        String::from_str("No personas found to delete")
    } else {
        let mut r = String::from_str("Successfully deleted ");
        let digits = render_decimal(count as u64);
        r.append(digits.as_str());
        r.append(" persona(s) from the database");
        r
    }
}

/// Greets `name`.
pub fn greet(name: &str) -> (r: String)
    ensures
        r@ == greeting_text(name@),
{
    let mut r = String::from_str("Hello, ");
    r.append(name);
    r.append("! You've been greeted from Rust!");
    r
}

/// Judges a removal by the number of records that the storage reports as
/// removed: none is a failure, anything else lets the confirmation stand.
pub fn confirm_deleted(entity: Entity, changes: usize, id: &str, confirmation: String) -> (r:
    Result<String, CommandError>)
    ensures
        match r {
            Ok(text) => changes != 0 && text@ == confirmation@,
            Err(e) => changes == 0 && e.is_storage(nothing_deleted_text(entity, id@)),
        },
{
    if changes == 0 {
        Err(CommandError::nothing_deleted(entity, id))
    } else {
        Ok(confirmation)
    }
}

} // verus!
