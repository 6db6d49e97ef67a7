//! The session guard: recovers the identity from a request's cookies.

use vstd::prelude::*;
use crate::authenticator::Authenticator;
use crate::error::AuthError;
use crate::identity::Identity;
use crate::jar::CookieJar;
use crate::site::SiteConfig;
use crate::status::{CookieChange, CookieChangeView, LoginRedirect};
use crate::token::{
    open_token, record_view, session_cookie, session_cookie_name, token_identity,
};

verus! {

/// The user of a request that carries a valid session.
#[derive(Debug, PartialEq, Eq)]
pub struct UserPass {
    pub user: Identity,
}

/// What the guard makes of the session cookie's value: the identity that the
/// value stands for, and `Unauthenticated` for an absent cookie as for one
/// that stands for none.
pub open spec fn guard_outcome(cookie: Option<Seq<char>>) -> Result<(u64, Seq<char>), AuthError> {
    match cookie {
        Some(text) => match token_identity(text) {
            Some(identity) => Ok(identity),
            None => Err(AuthError::Unauthenticated),
        },
        None => Err(AuthError::Unauthenticated),
    }
}

/// The view of a guard's result.
pub open spec fn outcome_view(outcome: Result<UserPass, AuthError>) -> Result<
    (u64, Seq<char>),
    AuthError,
> {
    match outcome {
        Ok(pass) => Ok(pass.user@),
        Err(e) => Err(e),
    }
}

impl UserPass {
    /// Recovers the user that a cookie value read as, if it read as any.
    pub fn recover(record: Option<(u64, String)>) -> (r: Result<UserPass, AuthError>)
        ensures
            outcome_view(r) == match record_view(record) {
                Some(identity) => Ok::<(u64, Seq<char>), AuthError>(identity),
                None => Err::<(u64, Seq<char>), AuthError>(AuthError::Unauthenticated),
            },
    {
        match record {
            Some(pair) => Ok(UserPass { user: Identity { user_id: pair.0, name: pair.1 } }),
            None => Err(AuthError::Unauthenticated),
        }
    }

    /// Guards a protected request: looks up the session cookie and reads its
    /// value as a session token.
    pub fn from_cookies(jar: &CookieJar) -> (r: Result<UserPass, AuthError>)
        ensures
            outcome_view(r) == guard_outcome(jar.value_of(session_cookie_name())),
    {
        match jar.get(session_cookie()) {
            Some(text) => UserPass::recover(open_token(text.as_str())),
            None => Err(AuthError::Unauthenticated),
        }
    }

    /// Ends the session: takes the session cookie out of the jar and leaves
    /// the other cookies as they are.
    pub fn logout(&self, jar: &mut CookieJar)
        ensures
            final(jar).value_of(session_cookie_name()) is None,
            forall|other: Seq<char>|
                other != session_cookie_name() ==> #[trigger] final(jar).value_of(other) == old(
                    jar,
                ).value_of(other),
    {
        jar.remove(session_cookie());
    }
}

/// Lets an admitted user through and sends every other request to the login
/// page. The cookie of a request that is turned away stays as it is: only a
/// logout removes it.
pub fn require_login(outcome: Result<UserPass, AuthError>, site: &SiteConfig, login_url: &str) -> (r:
    Result<UserPass, LoginRedirect>)
    ensures
        match (outcome, r) {
            (Ok(pass), Ok(admitted)) => admitted == pass,
            (Err(_), Err(redirect)) => redirect@ == (
                site.link(login_url@),
                CookieChangeView::Keep,
            ),
            _ => false,
        },
{
    match outcome {
        Ok(pass) => Ok(pass),
        Err(_) => Err(LoginRedirect { location: site.url(login_url), cookie: CookieChange::Keep }),
    }
}

/// What the guard with a re-check answers, given what the cookie stands for
/// and, where it stands for an identity, whether that account is still
/// active: the identity of an active account; otherwise the way to the login
/// page, on which the cookie of an account that is no longer active is
/// cleared, while an absent or unreadable cookie stays as it is.
pub open spec fn protected_outcome(
    outcome: Result<(u64, Seq<char>), AuthError>,
    still_valid: bool,
    site: SiteConfig,
    login_url: Seq<char>,
) -> Result<(u64, Seq<char>), (Seq<char>, CookieChangeView)> {
    match outcome {
        Ok(identity) => if still_valid {
            Ok(identity)
        } else {
            Err((site.link(login_url), CookieChangeView::Clear))
        },
        Err(_) => Err((site.link(login_url), CookieChangeView::Keep)),
    }
}

/// The view of a protected route's guard result.
pub open spec fn protected_view(r: Result<UserPass, LoginRedirect>) -> Result<
    (u64, Seq<char>),
    (Seq<char>, CookieChangeView),
> {
    match r {
        Ok(pass) => Ok(pass.user@),
        Err(redirect) => Err(redirect@),
    }
}

/// Decides a protected request from what the guard recovered and, where it
/// recovered a user, from the answer to the re-check of that account.
pub fn settle(
    outcome: Result<UserPass, AuthError>,
    still_valid: bool,
    site: &SiteConfig,
    login_url: &str,
) -> (r: Result<UserPass, LoginRedirect>)
    ensures
        protected_view(r) == protected_outcome(
            outcome_view(outcome),
            still_valid,
            *site,
            login_url@,
        ),
{
    match outcome {
        Ok(pass) => {
            if still_valid {
                Ok(pass)
            } else {
                Err(LoginRedirect { location: site.url(login_url), cookie: CookieChange::Clear })
            }
        },
        Err(_) => Err(LoginRedirect { location: site.url(login_url), cookie: CookieChange::Keep }),
    }
}

/// Guards a protected request and checks again that the account behind the
/// session is still active. A user comes through only with a session cookie
/// that reads as the identity of an active account.
pub fn protect<A: Authenticator>(auth: &A, jar: &CookieJar, site: &SiteConfig, login_url: &str) -> (r:
    Result<UserPass, LoginRedirect>)
    ensures
        match guard_outcome(jar.value_of(session_cookie_name())) {
            Ok(identity) => {
                ||| (r matches Ok(pass) && pass.user@ == identity && auth.active(identity))
                ||| (r matches Err(redirect) && redirect@ == (
                    site.link(login_url@),
                    CookieChangeView::Clear,
                ) && !(auth.reliable() && auth.active(identity)))
            },
            Err(_) => r matches Err(redirect) && redirect@ == (
                site.link(login_url@),
                CookieChangeView::Keep,
            ),
        },
{
    let outcome = UserPass::from_cookies(jar);
    let still_valid = match &outcome {
        Ok(pass) => auth.still_valid(&pass.user),
        Err(_) => false,
    };
    settle(outcome, still_valid, site, login_url)
}

impl CookieJar {
    /// Carries out a response's change of the session cookie.
    pub fn apply(&mut self, change: &CookieChange)
        ensures
            final(self).value_of(session_cookie_name()) == change@.session_after(
                old(self).value_of(session_cookie_name()),
            ),
            forall|other: Seq<char>|
                other != session_cookie_name() ==> #[trigger] final(self).value_of(other) == old(
                    self,
                ).value_of(other),
    {
        match change {
            CookieChange::Keep => {},
            CookieChange::Store { token, .. } => {
                self.set(session_cookie(), token.value.as_str());
            },
            CookieChange::Clear => {
                self.remove(session_cookie());
            },
        }
    }
}

} // verus!
