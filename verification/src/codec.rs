//! The serialized form of an identity: JSON text, written and read by
//! `serde_json`. Nothing here is proved; the contracts below are believed.

use vstd::prelude::*;

verus! {

#[verifier::external_type_specification]
#[verifier::external_body]
pub struct ExJsonError(serde_json::Error);

/// What `serde_json::from_str`, asked for a pair of an unsigned 64-bit number
/// and a string, makes of a text: the pair, or nothing where it reports an
/// error.
pub uninterp spec fn record_read(text: Seq<char>) -> Option<(u64, Seq<char>)>;

/// What `serde_json::to_string` writes for a pair of an unsigned 64-bit number
/// and a string: the text, or nothing where it reports an error.
pub uninterp spec fn record_written(user_id: u64, name: Seq<char>) -> Option<Seq<char>>;

/// Calls `serde_json::from_str` at the type `(u64, String)`. Believed: the
/// outcome depends on the text alone, so it is `record_read` of the text, an
/// error standing for nothing read.
#[verifier::external_body]
pub(crate) fn read_record(text: &str) -> (r: Result<(u64, String), serde_json::Error>)
    ensures
        match r {
            Ok(pair) => record_read(text@) == Some((pair.0, pair.1@)),
            Err(_) => record_read(text@) is None,
        },
{
    serde_json::from_str::<(u64, String)>(text)
}

/// Calls `serde_json::to_string` on the pair `(user_id, name)`. Believed: the
/// outcome depends on the two values alone, so it is `record_written` of
/// them, an error standing for nothing written.
#[verifier::external_body]
pub(crate) fn write_record(user_id: u64, name: &str) -> (r: Result<String, serde_json::Error>)
    ensures
        match r {
            Ok(text) => record_written(user_id, name@) == Some(text@),
            Err(_) => record_written(user_id, name@) is None,
        },
{
    serde_json::to_string(&(user_id, name))
}

} // verus!
