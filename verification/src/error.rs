//! The ways in which an authentication step can fail.

use vstd::prelude::*;

verus! {

/// Why a login attempt or a protected request did not yield an identity.
#[derive(Debug, Clone, Copy, PartialEq, Eq, Structural)]
pub enum AuthError {
    /// A required form field was absent.
    MalformedInput,
    /// The authenticator does not know the credential pair.
    AuthRejected,
    /// The request carries no session cookie, or one that is no session token.
    Unauthenticated,
    /// The authenticator's backing store could not answer.
    UpstreamUnavailable,
}

} // verus!
