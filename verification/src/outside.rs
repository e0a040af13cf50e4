//! The calls that leave this library: the clock and calendar of `chrono`,
//! the random identifiers of `uuid` and the string encoding of `serde_json`.
//! Nothing here is proved; each contract states what is taken on trust.

use vstd::prelude::*;

verus! {

/// The RFC 3339 text, in UTC, of the instant `millis` milliseconds after the
/// Unix epoch, as `chrono` formats it; `None` where `chrono` cannot represent
/// that instant.
pub uninterp spec fn rfc3339_utc(millis: int) -> Option<Seq<char>>;

/// The JSON string literal, quotes and escapes included, that `serde_json`
/// writes for a text.
pub uninterp spec fn json_string_of(s: Seq<char>) -> Seq<char>;

/// The error of `serde_json`, of which this library reads nothing.
#[verifier::external_type_specification]
#[verifier::external_body]
pub struct ExJsonError(serde_json::Error);

/// Reads the clock with `chrono::Utc::now` and returns
/// `DateTime::timestamp_millis` of it. The value depends on the clock alone.
/// What holds of every reading is that `chrono` can represent it: the
/// reading is taken from an instant that `chrono` holds, and
/// `DateTime::from_timestamp_millis` is documented to round-trip with
/// `timestamp_millis`. `chrono` stops the program if the clock stands before
/// the Unix epoch.
#[verifier::external_body]
pub(crate) fn now_millis() -> (r: i64)
    ensures
        rfc3339_utc(r as int) is Some,
{
    chrono::Utc::now().timestamp_millis()
}

/// Makes the `chrono` instant of `millis` with
/// `DateTime::from_timestamp_millis` and formats it with
/// `DateTime::to_rfc3339`. The first returns `None` for an instant out of
/// `chrono`'s range; both depend on `millis` alone, and the contract names
/// their joint result.
#[verifier::external_body]
pub(crate) fn format_rfc3339(millis: i64) -> (r: Option<String>)
    ensures
        match r {
            Some(t) => rfc3339_utc(millis as int) == Some(t@),
            None => rfc3339_utc(millis as int) is None,
        },
{
    match chrono::DateTime::from_timestamp_millis(millis) {
        Some(instant) => Some(instant.to_rfc3339()),
        None => None,
    }
}

/// Draws a random version-4 identifier with `uuid::Uuid::new_v4` and returns
/// its hyphenated text. The value is random, so nothing is claimed of it.
/// `uuid` stops the program if the system has no random bytes to give.
#[verifier::external_body]
pub(crate) fn random_id() -> String {
    uuid::Uuid::new_v4().to_string()
}

/// Encodes a text as a JSON string literal with `serde_json::to_string`.
/// The call succeeds for every text, with the result named for it: the
/// encoder writes a `str` into a byte vector, where the only failure it
/// could pass on is one of the writer, and a vector's writes do not fail.
#[verifier::external_body]
pub(crate) fn json_string(s: &str) -> (r: Result<String, serde_json::Error>)
    ensures
        r is Ok,
        r matches Ok(t) ==> t@ == json_string_of(s@),
{
    serde_json::to_string(s)
}

} // verus!
