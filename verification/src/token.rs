//! The session token: an identity's serialized form under its check digits,
//! as the cookie holds it.

use vstd::prelude::*;
use crate::codec::{record_read, record_written, read_record, write_record};
use crate::identity::Identity;
use crate::seal::{seal, sealed, unseal, unsealed};

verus! {

/// The cookie that carries the session token.
pub open spec fn session_cookie_name() -> Seq<char> {
    "user"@
}

/// The name of the session cookie.
pub fn session_cookie() -> (r: &'static str)
    ensures
        r@ == session_cookie_name(),
{
    "user"
}

/// The text of a session cookie.
#[derive(Debug, PartialEq, Eq)]
pub struct SessionToken {
    pub value: String,
}

impl View for SessionToken {
    type V = Seq<char>;

    open spec fn view(&self) -> Seq<char> {
        self.value@
    }
}

/// The identity that a cookie value stands for: what the record under its
/// check digits reads as, where the digits are those of the record and the
/// record reads as an identity's at all.
pub open spec fn token_identity(text: Seq<char>) -> Option<(u64, Seq<char>)> {
    match unsealed(text) {
        Some(record) => record_read(record),
        None => None,
    }
}

/// The token issued for an identity: its serialized form under its check
/// digits, provided that the form can be written and reads back as the same
/// identity.
pub open spec fn token_for(identity: (u64, Seq<char>)) -> Option<Seq<char>> {
    match record_written(identity.0, identity.1) {
        Some(record) => if record_read(record) == Some(identity) {
            Some(sealed(record))
        } else {
            None
        },
        None => None,
    }
}

/// The view of what a read of a record gave.
pub open spec fn record_view(record: Option<(u64, String)>) -> Option<(u64, Seq<char>)> {
    match record {
        Some(pair) => Some((pair.0, pair.1@)),
        None => None,
    }
}

/// Reads a text as an identity's record.
pub fn decode(record: &str) -> (r: Option<(u64, String)>)
    ensures
        record_view(r) == record_read(record@),
{
    match read_record(record) {
        Ok(pair) => Some(pair),
        Err(_) => None,
    }
}

/// Reads a cookie value as a session token: checks its digits and reads the
/// record under them.
pub fn open_token(text: &str) -> (r: Option<(u64, String)>)
    ensures
        record_view(r) == token_identity(text@),
{
    match unseal(text) {
        Some(record) => decode(record),
        None => None,
    }
}

/// Writes an identity's record as text.
pub fn encode(identity: &Identity) -> (r: Option<String>)
    ensures
        match r {
            Some(text) => record_written(identity.user_id, identity.name@) == Some(text@),
            None => record_written(identity.user_id, identity.name@) is None,
        },
{
    match write_record(identity.user_id, identity.name.as_str()) {
        Ok(text) => Some(text),
        Err(_) => None,
    }
}

impl SessionToken {
    /// Makes a token of a serialized form, given what that form reads back
    /// as: the token is issued exactly where that is the identity itself, and
    /// is the form under its check digits.
    pub fn confirm(identity: &Identity, record: &str, reread: Option<(u64, String)>) -> (r: Option<
        SessionToken,
    >)
        ensures
            match r {
                Some(token) => token@ == sealed(record@) && record_view(reread) == Some(identity@),
                None => record_view(reread) != Some(identity@),
            },
    {
        match reread {
            Some(pair) => {
                if pair.0 == identity.user_id && pair.1 == identity.name {
                    Some(SessionToken { value: seal(record) })
                } else {
                    None
                }
            },
            None => None,
        }
    }

    /// Issues the token for an identity: serializes it, reads the text back,
    /// and hands the text out only where it gives the same identity again.
    pub fn issue_for(identity: &Identity) -> (r: Option<SessionToken>)
        ensures
            match r {
                Some(token) => token_for(identity@) == Some(token@),
                None => token_for(identity@) is None,
            },
    {
        match encode(identity) {
            Some(record) => {
                let reread = decode(record.as_str());
                SessionToken::confirm(identity, record.as_str(), reread)
            },
            None => None,
        }
    }
}

} // verus!
