//! The credential pair of one login attempt, and how a form yields it.

use vstd::prelude::*;
use crate::error::AuthError;
use crate::fields::{NamedValue, last_value, find_value};

verus! {

/// An identifier and the secret presented with it.
#[derive(Debug, PartialEq, Eq)]
pub struct Credential {
    pub identifier: String,
    pub secret: String,
}

impl View for Credential {
    type V = (Seq<char>, Seq<char>);

    open spec fn view(&self) -> (Seq<char>, Seq<char>) {
        (self.identifier@, self.secret@)
    }
}

/// The form field that carries the identifier.
pub open spec fn identifier_field() -> Seq<char> {
    "username"@
}

/// The form field that carries the secret.
pub open spec fn secret_field() -> Seq<char> {
    "password"@
}

/// The credential pair that a login form holds: the values of its two
/// required fields, whatever they are, or nothing where one is absent.
pub open spec fn credential_of(fields: Seq<NamedValue>) -> Option<(Seq<char>, Seq<char>)> {
    match (last_value(fields, identifier_field()), last_value(fields, secret_field())) {
        (Some(identifier), Some(secret)) => Some((identifier, secret)),
        _ => None,
    }
}

impl Credential {
    pub fn new(identifier: &str, secret: &str) -> (r: Credential)
        ensures
            r@ == (identifier@, secret@),
    {
        Credential { identifier: identifier.to_owned(), secret: secret.to_owned() }
    }

    /// Reads the credential pair from the fields of a login form. Only an
    /// absent field is an error; the values are taken as they are.
    pub fn from_form(fields: &Vec<NamedValue>) -> (r: Result<Credential, AuthError>)
        ensures
            match r {
                Ok(credential) => credential_of(fields@) == Some(credential@),
                Err(e) => e == AuthError::MalformedInput && credential_of(fields@) is None,
            },
    {
        let identifier = find_value(fields, "username");
        let secret = find_value(fields, "password");
        match (identifier, secret) {
            (Some(identifier), Some(secret)) => Ok(
                Credential { identifier: identifier.clone(), secret: secret.clone() },
            ),
            _ => Err(AuthError::MalformedInput),
        }
    }
}

} // verus!
