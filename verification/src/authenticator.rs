//! The pluggable check of a credential pair, and its simplest implementation.

use vstd::prelude::*;
use crate::error::AuthError;
use crate::identity::Identity;

verus! {

/// A store of accounts that can check a credential pair.
pub trait Authenticator {
    /// The identity that belongs to a credential pair, if the pair is that of
    /// a known account.
    spec fn known(&self, identifier: Seq<char>, secret: Seq<char>) -> Option<(u64, Seq<char>)>;

    /// Whether this authenticator answers every check, having no store
    /// behind it that can be out of reach.
    spec fn reliable(&self) -> bool;

    /// Whether the account behind an identity still exists and is enabled.
    spec fn active(&self, identity: (u64, Seq<char>)) -> bool;

    /// Checks a credential pair. An identity comes back only for the pair of
    /// a known account, and is that account's. An unknown identifier and a
    /// wrong secret are rejected alike, as `AuthRejected`. Only an
    /// authenticator that is not reliable may answer `UpstreamUnavailable`,
    /// and fail on a known pair.
    fn verify(&self, identifier: &str, secret: &str) -> (r: Result<Identity, AuthError>)
        ensures
            self.known(identifier@, secret@) is None ==> r is Err,
            match r {
                Ok(identity) => self.known(identifier@, secret@) == Some(identity@),
                Err(e) => (e == AuthError::UpstreamUnavailable && !self.reliable()) || (e
                    == AuthError::AuthRejected && self.known(identifier@, secret@) is None),
            },
    ;

    /// Asks whether the account behind an identity is still active. A yes is
    /// given only for an active account; an authenticator that is not
    /// reliable may say no to one.
    fn still_valid(&self, identity: &Identity) -> (r: bool)
        ensures
            r ==> self.active(identity@),
            self.reliable() ==> r == self.active(identity@),
    ;
}

/// An authenticator with one fixed account, for bootstrap and testing.
#[derive(Debug, Clone, Copy)]
pub struct DummyAuthenticator;

impl DummyAuthenticator {
    /// The identifier of the one account.
    pub open spec fn identifier() -> Seq<char> {
        "hello"@
    }

    /// The secret of the one account.
    pub open spec fn secret() -> Seq<char> {
        "world"@
    }

    /// The identity of the one account.
    pub open spec fn identity() -> (u64, Seq<char>) {
        (1, "hello world"@)
    }
}

impl Authenticator for DummyAuthenticator {
    open spec fn known(&self, identifier: Seq<char>, secret: Seq<char>) -> Option<
        (u64, Seq<char>),
    > {
        if identifier == DummyAuthenticator::identifier() && secret
            == DummyAuthenticator::secret() {
            Some(DummyAuthenticator::identity())
        } else {
            None
        }
    }

    open spec fn reliable(&self) -> bool {
        true
    }

    open spec fn active(&self, identity: (u64, Seq<char>)) -> bool {
        identity == DummyAuthenticator::identity()
    }

    /// Accepts the one fixed pair and rejects every other; it has no store
    /// that could fail.
    fn verify(&self, identifier: &str, secret: &str) -> (r: Result<Identity, AuthError>)
        ensures
            r is Ok <==> self.known(identifier@, secret@) is Some,
            r is Err ==> r == Err::<Identity, AuthError>(AuthError::AuthRejected),
    {
        let same_identifier = identifier.to_owned() == "hello".to_owned();
        let same_secret = secret.to_owned() == "world".to_owned();
        if same_identifier && same_secret {
            Ok(Identity::new(1, "hello world"))
        } else {
            Err(AuthError::AuthRejected)
        }
    }

    fn still_valid(&self, identity: &Identity) -> (r: bool) {
        identity.user_id == 1 && identity.name == "hello world".to_owned()
    }
}

/// The fixed account has neither an empty identifier nor an empty secret:
/// an empty string is a value like any other and is not accepted.
pub proof fn dummy_rejects_empty_strings(identifier: Seq<char>, secret: Seq<char>)
    requires
        identifier.len() == 0 || secret.len() == 0,
    ensures
        DummyAuthenticator.known(identifier, secret) is None,
{
    reveal_strlit("hello");
    reveal_strlit("world");
}

} // verus!
