//! The outcome of a login attempt, and the response composed from it.

use vstd::prelude::*;
use crate::authenticator::Authenticator;
use crate::credential::{Credential, credential_of};
use crate::error::AuthError;
use crate::fields::NamedValue;
use crate::identity::Identity;
use crate::site::SiteConfig;
use crate::token::{SessionToken, token_for};

verus! {

/// What a response does to the session cookie.
#[derive(Debug, PartialEq, Eq)]
pub enum CookieChange {
    /// The cookie, if there is one, stays as it is.
    Keep,
    /// The cookie is set to a token, with the flags given.
    Store { token: SessionToken, http_only: bool, secure: bool },
    /// The cookie is removed.
    Clear,
}

/// A cookie change over the token's text.
pub enum CookieChangeView {
    Keep,
    Store { token: Seq<char>, http_only: bool, secure: bool },
    Clear,
}

impl CookieChangeView {
    /// The value of the session cookie after the change, given the value
    /// before it.
    pub open spec fn session_after(self, before: Option<Seq<char>>) -> Option<Seq<char>> {
        match self {
            CookieChangeView::Keep => before,
            CookieChangeView::Store { token, .. } => Some(token),
            CookieChangeView::Clear => None,
        }
    }
}

impl View for CookieChange {
    type V = CookieChangeView;

    open spec fn view(&self) -> CookieChangeView {
        match self {
            CookieChange::Keep => CookieChangeView::Keep,
            CookieChange::Store { token, http_only, secure } => CookieChangeView::Store {
                token: token@,
                http_only: *http_only,
                secure: *secure,
            },
            CookieChange::Clear => CookieChangeView::Clear,
        }
    }
}

/// A redirect together with a change of the session cookie.
#[derive(Debug, PartialEq, Eq)]
pub struct LoginRedirect {
    /// Where the `Location` header points.
    pub location: String,
    pub cookie: CookieChange,
}

impl View for LoginRedirect {
    type V = (Seq<char>, CookieChangeView);

    open spec fn view(&self) -> (Seq<char>, CookieChangeView) {
        (self.location@, self.cookie@)
    }
}

/// The response to a login attempt, given the token issued for it if one
/// was. With a token, the cookie is set to it, kept from scripts and, on a
/// site served over TLS, from plain connections, and the user goes to
/// `success_url`. Without, no cookie is touched and the user goes to
/// `failure_url`.
pub open spec fn login_response(
    token: Option<Seq<char>>,
    site: SiteConfig,
    success_url: Seq<char>,
    failure_url: Seq<char>,
) -> (Seq<char>, CookieChangeView) {
    match token {
        Some(text) => (
            site.link(success_url),
            CookieChangeView::Store { token: text, http_only: true, secure: site.secure },
        ),
        None => (site.link(failure_url), CookieChangeView::Keep),
    }
}

/// The view of a token that may be absent.
pub open spec fn token_view(token: Option<SessionToken>) -> Option<Seq<char>> {
    match token {
        Some(t) => Some(t@),
        None => None,
    }
}

/// Composes the response to a login attempt from the token issued for it.
pub fn compose(
    token: Option<SessionToken>,
    site: &SiteConfig,
    success_url: &str,
    failure_url: &str,
) -> (r: LoginRedirect)
    ensures
        r@ == login_response(token_view(token), *site, success_url@, failure_url@),
{
    match token {
        Some(token) => LoginRedirect {
            location: site.url(success_url),
            cookie: CookieChange::Store { token, http_only: true, secure: site.secure },
        },
        None => LoginRedirect { location: site.url(failure_url), cookie: CookieChange::Keep },
    }
}

/// The response to a logout: the cookie is cleared, whatever it held, and
/// the user goes to `home_url`.
pub fn logout(site: &SiteConfig, home_url: &str) -> (r: LoginRedirect)
    ensures
        r@ == (site.link(home_url@), CookieChangeView::Clear),
{
    LoginRedirect { location: site.url(home_url), cookie: CookieChange::Clear }
}

/// The outcome of one login attempt.
#[derive(Debug, PartialEq, Eq)]
pub enum LoginStatus {
    /// The authenticator accepted the credential pair as this identity's.
    Success(Identity),
    /// It did not, or the form held no credential pair.
    Failure,
}

impl View for LoginStatus {
    type V = Option<(u64, Seq<char>)>;

    open spec fn view(&self) -> Option<(u64, Seq<char>)> {
        match self {
            LoginStatus::Success(identity) => Some(identity@),
            LoginStatus::Failure => None,
        }
    }
}

/// The token that a login status is worth: that of its identity.
pub open spec fn issued(status: Option<(u64, Seq<char>)>) -> Option<Seq<char>> {
    match status {
        Some(identity) => token_for(identity),
        None => None,
    }
}

/// The identity that an authenticator knows for what a form holds.
pub open spec fn form_identity<A: Authenticator>(auth: &A, fields: Seq<NamedValue>) -> Option<
    (u64, Seq<char>),
> {
    match credential_of(fields) {
        Some(pair) => auth.known(pair.0, pair.1),
        None => None,
    }
}

impl LoginStatus {
    /// Turns an authenticator's answer into a status: success with the
    /// identity it gave, failure for every error, whatever its reason.
    pub fn from_verdict(verdict: Result<Identity, AuthError>) -> (r: LoginStatus)
        ensures
            r@ == match verdict {
                Ok(identity) => Some(identity@),
                Err(_) => None,
            },
    {
        match verdict {
            Ok(identity) => LoginStatus::Success(identity),
            Err(_) => LoginStatus::Failure,
        }
    }

    /// Runs a credential pair through an authenticator. Success carries the
    /// identity of a known account; a pair that the authenticator does not
    /// know is a failure. A reliable authenticator decides the status alone.
    pub fn check<A: Authenticator>(auth: &A, credential: &Credential) -> (r: LoginStatus)
        ensures
            r@ is Some ==> r@ == auth.known(credential.identifier@, credential.secret@),
            auth.known(credential.identifier@, credential.secret@) is None ==> r@ is None,
            auth.reliable() ==> r@ == auth.known(credential.identifier@, credential.secret@),
    {
        LoginStatus::from_verdict(
            auth.verify(credential.identifier.as_str(), credential.secret.as_str()),
        )
    }

    /// The status of a login form: a form without a credential pair fails
    /// like one with a pair that is not known.
    pub fn from_form<A: Authenticator>(auth: &A, fields: &Vec<NamedValue>) -> (r: LoginStatus)
        ensures
            r@ is Some ==> r@ == form_identity(auth, fields@),
            form_identity(auth, fields@) is None ==> r@ is None,
            auth.reliable() ==> r@ == form_identity(auth, fields@),
    {
        match Credential::from_form(fields) {
            Ok(credential) => LoginStatus::check(auth, &credential),
            Err(_) => LoginStatus::Failure,
        }
    }

    /// The session token for this status: one only for a success.
    pub fn issue(&self) -> (r: Option<SessionToken>)
        ensures
            token_view(r) == issued(self@),
    {
        match self {
            LoginStatus::Success(identity) => SessionToken::issue_for(identity),
            LoginStatus::Failure => None,
        }
    }

    /// The response to this login attempt.
    pub fn redirect(&self, site: &SiteConfig, success_url: &str, failure_url: &str) -> (r:
        LoginRedirect)
        ensures
            r@ == login_response(issued(self@), *site, success_url@, failure_url@),
    {
        compose(self.issue(), site, success_url, failure_url)
    }
}

/// Handles a submitted login form. The cookie is set only where the form
/// holds the credential pair of an account that the authenticator knows, and
/// then to that account's token; every other form leaves the cookie alone and
/// is answered with `failure_url`. With a reliable authenticator the form
/// alone decides the response.
pub fn login<A: Authenticator>(
    auth: &A,
    fields: &Vec<NamedValue>,
    site: &SiteConfig,
    success_url: &str,
    failure_url: &str,
) -> (r: LoginRedirect)
    ensures
        r@ == (site.link(failure_url@), CookieChangeView::Keep) || r@ == login_response(
            issued(form_identity(auth, fields@)),
            *site,
            success_url@,
            failure_url@,
        ),
        form_identity(auth, fields@) is None ==> r@ == (
            site.link(failure_url@),
            CookieChangeView::Keep,
        ),
        auth.reliable() ==> r@ == login_response(
            issued(form_identity(auth, fields@)),
            *site,
            success_url@,
            failure_url@,
        ),
{
    LoginStatus::from_form(auth, fields).redirect(site, success_url, failure_url)
}

} // verus!
