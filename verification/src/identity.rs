//! Fresh identifiers and the current time.

use vstd::prelude::*;
use crate::codec::rfc3339_text;
use crate::model::Timestamp;

verus! {

/// Whether `c` is a lower-case hexadecimal digit.
pub open spec fn is_lower_hex(c: char) -> bool {
    c == '0' || c == '1' || c == '2' || c == '3' || c == '4' || c == '5' || c == '6' || c == '7'
        || c == '8' || c == '9' || c == 'a' || c == 'b' || c == 'c' || c == 'd' || c == 'e' || c
        == 'f'
}

/// Whether `s` has the shape of a random (version 4) UUID in hyphenated
/// lower-case form: `xxxxxxxx-xxxx-4xxx-yxxx-xxxxxxxxxxxx`, with `y` one of
/// `8`, `9`, `a`, `b`.
pub open spec fn is_random_uuid_text(s: Seq<char>) -> bool {
    &&& s.len() == 36
    &&& forall|i: int|
        0 <= i < 36 ==> if i == 8 || i == 13 || i == 18 || i == 23 {
            #[trigger] s[i] == '-'
        } else {
            is_lower_hex(s[i])
        }
    &&& s[14] == '4'
    &&& (s[19] == '8' || s[19] == '9' || s[19] == 'a' || s[19] == 'b')
}

/// A fresh random identifier.
///
/// Trusted: the body calls `uuid::Uuid::new_v4` and renders the value with
/// its `Display` impl. The contract claims only the shape of the text, which
/// holds of every outcome: `new_v4` fixes the version and variant bits, and
/// `Display` writes the hyphenated lower-case form.
#[verifier::external_body]
pub fn generate_id() -> (r: String)
    ensures
        is_random_uuid_text(r@),
{
    uuid::Uuid::new_v4().to_string()
}

/// The current moment in UTC.
///
/// Trusted: the body calls `chrono::Utc::now` and reads the value back
/// through `DateTime::timestamp` and `DateTime::timestamp_subsec_nanos`.
/// The contract claims only that the calendar can express the moment, so
/// that it has an RFC 3339 text: `Utc::now` builds its value with
/// `DateTime::from_timestamp`, and the two readings are documented to lead
/// back to it. Which moment it is, is not claimed. `Utc::now` itself stops
/// the program when the system clock stands before 1970.
#[verifier::external_body]
pub fn get_current_timestamp() -> (r: Timestamp)
    ensures
        rfc3339_text(r.secs as int, r.nanos as int) is Some,
{
    let now = chrono::Utc::now();
    Timestamp { secs: now.timestamp(), nanos: now.timestamp_subsec_nanos() }
}

} // verus!
