//! What holds of login, guard and logout together.

use vstd::prelude::*;
use crate::authenticator::Authenticator;
use crate::error::AuthError;
use crate::fields::NamedValue;
use crate::guard::guard_outcome;
use crate::seal::{changed_character_breaks_seal, unsealed_of_sealed};
use crate::site::SiteConfig;
use crate::status::{CookieChangeView, form_identity, issued, login_response};
use crate::codec::record_written;
use crate::token::{token_for, token_identity};

verus! {

/// A form whose credential pair the authenticator does not know, or which
/// holds none, is answered without a token: the response sets no cookie, so
/// the session cookie is afterwards what it was before, and points to
/// `failure_url`.
pub proof fn unknown_credentials_set_no_cookie<A: Authenticator>(
    auth: &A,
    fields: Seq<NamedValue>,
    site: SiteConfig,
    success_url: Seq<char>,
    failure_url: Seq<char>,
    before: Option<Seq<char>>,
)
    requires
        form_identity(auth, fields) is None,
    ensures
        login_response(issued(form_identity(auth, fields)), site, success_url, failure_url) == (
            site.link(failure_url),
            CookieChangeView::Keep,
        ),
        login_response(
            issued(form_identity(auth, fields)),
            site,
            success_url,
            failure_url,
        ).1.session_after(before) == before,
{
}

/// A token issued for an identity, sent back as the session cookie, passes
/// the guard as that same identity.
pub proof fn issued_token_restores_identity(identity: (u64, Seq<char>), token: Seq<char>)
    requires
        token_for(identity) == Some(token),
    ensures
        guard_outcome(Some(token)) == Ok::<(u64, Seq<char>), AuthError>(identity),
{
    unsealed_of_sealed(record_written(identity.0, identity.1).unwrap());
}

/// After a login for which a token was issued, the cookie that the response
/// sets, whatever the jar held before, passes the guard as the identity that
/// logged in.
pub proof fn login_cookie_passes_guard(
    identity: (u64, Seq<char>),
    site: SiteConfig,
    success_url: Seq<char>,
    failure_url: Seq<char>,
    before: Option<Seq<char>>,
)
    requires
        issued(Some(identity)) is Some,
    ensures
        guard_outcome(
            login_response(
                issued(Some(identity)),
                site,
                success_url,
                failure_url,
            ).1.session_after(before),
        ) == Ok::<(u64, Seq<char>), AuthError>(identity),
{
    issued_token_restores_identity(identity, issued(Some(identity)).unwrap());
}

/// A session cookie that passes the guard no longer does once one of its
/// characters is replaced by another: the request is then turned away as
/// unauthenticated, and no other identity is admitted in place of the first.
/// (A change of one byte that leaves the value a text replaces one character.)
pub proof fn tampered_cookie_is_unauthenticated(token: Seq<char>, at: int, by: char)
    requires
        guard_outcome(Some(token)) is Ok,
        0 <= at < token.len(),
        by != token[at],
    ensures
        guard_outcome(Some(token.update(at, by))) == Err::<(u64, Seq<char>), AuthError>(
            AuthError::Unauthenticated,
        ),
{
    changed_character_breaks_seal(token, at, by);
}

/// A cookie value that is no session token is turned away as
/// unauthenticated, exactly as an absent cookie is.
pub proof fn unreadable_cookie_is_unauthenticated(text: Seq<char>)
    requires
        token_identity(text) is None,
    ensures
        guard_outcome(Some(text)) == Err::<(u64, Seq<char>), AuthError>(AuthError::Unauthenticated),
        guard_outcome(Some(text)) == guard_outcome(None),
{
}

/// Whatever is put in place of an issued token, the guard either turns the
/// request away as unauthenticated or admits exactly the identity that the
/// new value reads as: it has no third outcome and no other error.
pub proof fn replaced_cookie_is_read_or_rejected(text: Seq<char>)
    ensures
        match guard_outcome(Some(text)) {
            Ok(identity) => token_identity(text) == Some(identity),
            Err(e) => e == AuthError::Unauthenticated && token_identity(text) is None,
        },
{
}

/// Logout clears the session cookie whatever it held, so that the guard turns
/// the next request away.
pub proof fn logout_ends_session(before: Option<Seq<char>>)
    ensures
        CookieChangeView::Clear.session_after(before) is None,
        guard_outcome(CookieChangeView::Clear.session_after(before)) == Err::<
            (u64, Seq<char>),
            AuthError,
        >(AuthError::Unauthenticated),
{
}

} // verus!
