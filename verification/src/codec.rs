//! The textual forms of moments and of lists of texts.

use vstd::prelude::*;
use crate::model::{texts, Timestamp};
use crate::text::optional_text;

verus! {

#[verifier::external_type_specification]
#[verifier::external_body]
pub struct ExJsonError(serde_json::Error);

/// The RFC 3339 text of the moment `secs` seconds and `nanos` nanoseconds
/// after 1970-01-01T00:00:00Z, where the calendar can express that moment.
pub uninterp spec fn rfc3339_text(secs: int, nanos: int) -> Option<Seq<char>>;

/// The RFC 3339 text of a moment, where the calendar can express it.
pub open spec fn moment_text(moment: Timestamp) -> Option<Seq<char>> {
    rfc3339_text(moment.secs as int, moment.nanos as int)
}

/// Whether `moment` is what the RFC 3339 text `text` stands for.
pub open spec fn is_moment_of(moment: Timestamp, text: Seq<char>) -> bool {
    rfc3339_moment(text) == Some((moment.secs as int, moment.nanos as int))
}

/// The moment that an RFC 3339 text stands for, as seconds and nanoseconds
/// after 1970-01-01T00:00:00Z, where the text is well-formed.
pub uninterp spec fn rfc3339_moment(text: Seq<char>) -> Option<(int, int)>;

/// The JSON array that holds the texts of `list` in order.
pub uninterp spec fn json_array_text(list: Seq<Seq<char>>) -> Seq<char>;

/// The list of texts that a JSON text stands for, where it is an array of
/// strings.
pub uninterp spec fn json_array_list(text: Seq<char>) -> Option<Seq<Seq<char>>>;

/// Writes a moment as RFC 3339 text.
///
/// Trusted: the body builds the moment with `chrono::DateTime::from_timestamp`,
/// which refuses what the calendar cannot express, and writes it with
/// `chrono::DateTime::to_rfc3339`. The contract only names the result: the
/// text depends on the two numbers alone.
#[verifier::external_body]
pub(crate) fn write_rfc3339(moment: &Timestamp) -> (r: Option<String>)
    ensures
        optional_text(r) == rfc3339_text(moment.secs as int, moment.nanos as int),
{
    match chrono::DateTime::from_timestamp(moment.secs, moment.nanos) {
        Some(t) => Some(t.to_rfc3339()),
        None => None,
    }
}

/// Reads a moment from RFC 3339 text.
///
/// Trusted: the body calls `chrono::DateTime::parse_from_rfc3339`, takes
/// the moment to UTC with `DateTime::with_timezone`, and reads it back
/// through `DateTime::timestamp` and `DateTime::timestamp_subsec_nanos`.
/// The contract only names the result: it depends on the text alone.
#[verifier::external_body]
pub(crate) fn read_rfc3339(text: &str) -> (r: Option<Timestamp>)
    ensures
        match r {
            Some(t) => rfc3339_moment(text@) == Some((t.secs as int, t.nanos as int)),
            None => rfc3339_moment(text@) is None,
        },
{
    match chrono::DateTime::parse_from_rfc3339(text) {
        Ok(t) => {
            let utc = t.with_timezone(&chrono::Utc);
            Some(Timestamp { secs: utc.timestamp(), nanos: utc.timestamp_subsec_nanos() })
        },
        Err(_) => None,
    }
}

/// Writes a list of texts as a JSON array.
///
/// Trusted: the body calls `serde_json::to_string` on the list. The
/// contract claims that the call succeeds, and names the text, which
/// depends on the list alone. For a list of strings the serializer fails
/// only where its sink refuses a write, and `to_string` writes into a byte
/// vector, which takes every write.
#[verifier::external_body]
pub(crate) fn write_json_array(list: &Vec<String>) -> (r: Result<String, serde_json::Error>)
    ensures
        r is Ok,
        r matches Ok(text) ==> text@ == json_array_text(texts(list@)),
{
    serde_json::to_string(list)
}

/// Reads a list of texts from a JSON array.
///
/// Trusted: the body calls `serde_json::from_str` for a list of strings.
/// The contract only names the result: whether the text is read, and as
/// which list, depends on the text alone.
#[verifier::external_body]
pub(crate) fn read_json_array(text: &str) -> (r: Result<Vec<String>, serde_json::Error>)
    ensures
        match r {
            Ok(list) => json_array_list(text@) == Some(texts(list@)),
            Err(_) => json_array_list(text@) is None,
        },
{
    serde_json::from_str::<Vec<String>>(text)
}

/// What a JSON failure says of itself.
///
/// Trusted: the body renders the `serde_json::Error` with its `Display`
/// impl. Nothing is claimed of the text.
#[verifier::external_body]
pub(crate) fn json_error_text(e: &serde_json::Error) -> (r: String) {
    e.to_string()
}

} // verus!
