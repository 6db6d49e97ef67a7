use simpleauth::authenticator::{Authenticator, DummyAuthenticator};
use simpleauth::credential::Credential;
use simpleauth::error::AuthError;
use simpleauth::fields::{find_value, NamedValue};
use simpleauth::guard::{protect, require_login, settle, UserPass};
use simpleauth::identity::Identity;
use simpleauth::jar::CookieJar;
use simpleauth::site::SiteConfig;
use simpleauth::status::{compose, login, logout, CookieChange, LoginRedirect, LoginStatus};
use simpleauth::seal::{checksum, seal, tag, unseal};
use simpleauth::token::{decode, encode, open_token, session_cookie, SessionToken};

fn form(identifier: &str, secret: &str) -> Vec<NamedValue> {
    vec![NamedValue::new("username", identifier), NamedValue::new("password", secret)]
}

fn plain(secure: bool) -> SiteConfig {
    SiteConfig::new("", secure)
}

fn dummy_identity() -> Identity {
    Identity::new(1, "hello world")
}

fn dummy_token() -> SessionToken {
    SessionToken { value: String::from("5b500000[1,\"hello world\"]") }
}

#[test]
fn scenario_dummy_login_then_admin_request() {
    let response = login(&DummyAuthenticator, &form("hello", "world"), &plain(false), "/bossing_around", "/gimme_privilege");
    assert_eq!(
        response,
        LoginRedirect {
            location: String::from("/bossing_around"),
            cookie: CookieChange::Store { token: dummy_token(), http_only: true, secure: false },
        }
    );
    let mut jar = CookieJar::new();
    jar.apply(&response.cookie);
    assert_eq!(jar.get("user"), Some(&String::from("5b500000[1,\"hello world\"]")));
    let pass = UserPass::from_cookies(&jar);
    assert_eq!(pass, Ok(UserPass { user: dummy_identity() }));
    assert_eq!(require_login(pass, &plain(false), "/gimme_privilege"), Ok(UserPass { user: dummy_identity() }));
}

#[test]
fn scenario_wrong_secret_sets_no_cookie() {
    let response = login(&DummyAuthenticator, &form("hello", "wrong"), &plain(false), "/bossing_around", "/gimme_privilege");
    assert_eq!(
        response,
        LoginRedirect { location: String::from("/gimme_privilege"), cookie: CookieChange::Keep }
    );
    assert_ne!(response.location, "/bossing_around");
    let mut jar = CookieJar::new();
    jar.apply(&response.cookie);
    assert_eq!(jar.get("user"), None);
    assert!(jar.cookies.is_empty());
}

#[test]
fn scenario_no_cookie_redirects_to_login() {
    let jar = CookieJar::new();
    let outcome = UserPass::from_cookies(&jar);
    assert_eq!(outcome, Err(AuthError::Unauthenticated));
    assert_eq!(
        require_login(outcome, &plain(false), "/gimme_privilege"),
        Err(LoginRedirect { location: String::from("/gimme_privilege"), cookie: CookieChange::Keep })
    );
}

#[test]
fn scenario_unreadable_cookie_is_treated_as_no_cookie() {
    let without = require_login(UserPass::from_cookies(&CookieJar::new()), &plain(false), "/gimme_privilege");
    for value in ["", "not json", "[1,\"hello world\"]", "c7300000no record", "00000000", "5b50000[1,\"hello world\"]", "5B500000[1,\"hello world\"]", "5b500000 [1,\"hello world\"]", "0000000", "b2300000not json", "{\"id\":1}", "[1]", "[\"hello world\",1]", "[1,\"hello world\"", "[-1,\"a\"]", "[1,\"a\",2]", "[1.5,\"a\"]", "[18446744073709551616,\"a\"]", "null"] {
        let mut jar = CookieJar::new();
        jar.set("user", value);
        let outcome = UserPass::from_cookies(&jar);
        assert_eq!(outcome, Err(AuthError::Unauthenticated), "{}", value);
        assert_eq!(require_login(outcome, &plain(false), "/gimme_privilege"), without);
    }
}

#[test]
fn dummy_accepts_only_its_pair() {
    let auth = DummyAuthenticator;
    assert_eq!(auth.verify("hello", "world"), Ok(dummy_identity()));
    assert_eq!(auth.verify("hello", "wrong"), Err(AuthError::AuthRejected));
    assert_eq!(auth.verify("nobody", "world"), Err(AuthError::AuthRejected));
    assert_eq!(auth.verify("world", "hello"), Err(AuthError::AuthRejected));
    assert_eq!(auth.verify("hello ", "world"), Err(AuthError::AuthRejected));
    assert_eq!(auth.verify("Hello", "world"), Err(AuthError::AuthRejected));
}

#[test]
fn empty_strings_are_not_accepted() {
    let auth = DummyAuthenticator;
    assert_eq!(auth.verify("", ""), Err(AuthError::AuthRejected));
    assert_eq!(auth.verify("hello", ""), Err(AuthError::AuthRejected));
    assert_eq!(auth.verify("", "world"), Err(AuthError::AuthRejected));
    let response = login(&DummyAuthenticator, &form("", ""), &plain(true), "/in", "/out");
    assert_eq!(response, LoginRedirect { location: String::from("/out"), cookie: CookieChange::Keep });
}

#[test]
fn unknown_identifier_and_wrong_secret_look_alike() {
    let unknown = login(&DummyAuthenticator, &form("nobody", "world"), &plain(false), "/in", "/out");
    let wrong = login(&DummyAuthenticator, &form("hello", "nope"), &plain(false), "/in", "/out");
    assert_eq!(unknown, wrong);
    assert_eq!(
        LoginStatus::check(&DummyAuthenticator, &Credential::new("nobody", "world")),
        LoginStatus::check(&DummyAuthenticator, &Credential::new("hello", "nope"))
    );
}

#[test]
fn form_needs_both_fields() {
    assert_eq!(Credential::from_form(&vec![]), Err(AuthError::MalformedInput));
    assert_eq!(
        Credential::from_form(&vec![NamedValue::new("username", "hello")]),
        Err(AuthError::MalformedInput)
    );
    assert_eq!(
        Credential::from_form(&vec![NamedValue::new("password", "world")]),
        Err(AuthError::MalformedInput)
    );
    assert_eq!(
        Credential::from_form(&vec![NamedValue::new("user", "hello"), NamedValue::new("pass", "world")]),
        Err(AuthError::MalformedInput)
    );
}

#[test]
fn form_values_are_taken_as_they_are() {
    assert_eq!(Credential::from_form(&form("", "")), Ok(Credential::new("", "")));
    assert_eq!(
        Credential::from_form(&vec![
            NamedValue::new("password", "p w"),
            NamedValue::new("remember", "on"),
            NamedValue::new("username", "üser"),
        ]),
        Ok(Credential::new("üser", "p w"))
    );
}

#[test]
fn later_field_replaces_earlier() {
    let fields = vec![
        NamedValue::new("username", "first"),
        NamedValue::new("password", "a"),
        NamedValue::new("username", "second"),
    ];
    assert_eq!(find_value(&fields, "username"), Some(&String::from("second")));
    assert_eq!(find_value(&fields, "password"), Some(&String::from("a")));
    assert_eq!(find_value(&fields, "other"), None);
    assert_eq!(Credential::from_form(&fields), Ok(Credential::new("second", "a")));
}

#[test]
fn malformed_form_fails_login_without_cookie() {
    let fields = vec![NamedValue::new("username", "hello")];
    assert_eq!(LoginStatus::from_form(&DummyAuthenticator, &fields), LoginStatus::Failure);
    let response = login(&DummyAuthenticator, &fields, &plain(false), "/in", "/out");
    assert_eq!(response, LoginRedirect { location: String::from("/out"), cookie: CookieChange::Keep });
}

#[test]
fn status_from_verdict() {
    assert_eq!(LoginStatus::from_verdict(Ok(Identity::new(9, "n"))), LoginStatus::Success(Identity::new(9, "n")));
    assert_eq!(LoginStatus::from_verdict(Err(AuthError::AuthRejected)), LoginStatus::Failure);
    assert_eq!(LoginStatus::from_verdict(Err(AuthError::UpstreamUnavailable)), LoginStatus::Failure);
    assert_eq!(LoginStatus::from_verdict(Err(AuthError::MalformedInput)), LoginStatus::Failure);
}

#[test]
fn issue_only_for_success() {
    assert_eq!(LoginStatus::Failure.issue(), None);
    assert_eq!(LoginStatus::Success(dummy_identity()).issue(), Some(dummy_token()));
    assert_eq!(
        LoginStatus::Success(Identity::new(0, "")).issue(),
        Some(SessionToken { value: String::from("85100000[0,\"\"]") })
    );
}

#[test]
fn record_text_is_exact() {
    assert_eq!(encode(&Identity::new(7, "x")), Some(String::from("[7,\"x\"]")));
    assert_eq!(encode(&Identity::new(u64::MAX, "a\"b\\c")), Some(String::from("[18446744073709551615,\"a\\\"b\\\\c\"]")));
    assert_eq!(decode("[7,\"x\"]"), Some((7, String::from("x"))));
    assert_eq!(decode(" [ 42 , \"a b\" ] "), Some((42, String::from("a b"))));
    assert_eq!(decode("[7,\"x\"] trailing"), None);
    assert_eq!(decode("7"), None);
}

#[test]
fn confirm_needs_the_same_identity_back() {
    let identity = Identity::new(3, "ann");
    assert_eq!(
        SessionToken::confirm(&identity, "t", Some((3, String::from("ann")))),
        Some(SessionToken { value: String::from("47000000t") })
    );
    assert_eq!(SessionToken::confirm(&identity, "t", Some((4, String::from("ann")))), None);
    assert_eq!(SessionToken::confirm(&identity, "t", Some((3, String::from("anne")))), None);
    assert_eq!(SessionToken::confirm(&identity, "t", None), None);
}

#[test]
fn recover_takes_what_was_read() {
    assert_eq!(
        UserPass::recover(Some((5, String::from("eve")))),
        Ok(UserPass { user: Identity::new(5, "eve") })
    );
    assert_eq!(UserPass::recover(None), Err(AuthError::Unauthenticated));
}

#[test]
fn issued_token_round_trips() {
    for (id, name) in [(1u64, "hello world"), (0, ""), (u64::MAX, "quote\" and \\ slash"), (12, "päivää\n\t"), (5, "[1,\"x\"]")] {
        let identity = Identity::new(id, name);
        let token = SessionToken::issue_for(&identity).expect("a token");
        let mut jar = CookieJar::new();
        jar.set(session_cookie(), &token.value);
        assert_eq!(UserPass::from_cookies(&jar), Ok(UserPass { user: identity.clone() }));
    }
}

#[test]
fn compose_sets_flags_and_location() {
    assert_eq!(
        compose(Some(dummy_token()), &plain(true), "/in", "/out"),
        LoginRedirect {
            location: String::from("/in"),
            cookie: CookieChange::Store { token: dummy_token(), http_only: true, secure: true },
        }
    );
    assert_eq!(
        compose(Some(dummy_token()), &plain(false), "/in", "/out"),
        LoginRedirect {
            location: String::from("/in"),
            cookie: CookieChange::Store { token: dummy_token(), http_only: true, secure: false },
        }
    );
    assert_eq!(
        compose(None, &plain(true), "/in", "/out"),
        LoginRedirect { location: String::from("/out"), cookie: CookieChange::Keep }
    );
    assert_eq!(
        LoginStatus::Success(dummy_identity()).redirect(&plain(true), "/in", "/out"),
        compose(Some(dummy_token()), &plain(true), "/in", "/out")
    );
    assert_eq!(LoginStatus::Failure.redirect(&plain(true), "/in", "/out"), compose(None, &plain(true), "/in", "/out"));
}

#[test]
fn failed_login_leaves_existing_cookie() {
    let mut jar = CookieJar::new();
    jar.set("user", "5b500000[1,\"hello world\"]");
    let response = login(&DummyAuthenticator, &form("hello", "wrong"), &plain(false), "/in", "/out");
    jar.apply(&response.cookie);
    assert_eq!(UserPass::from_cookies(&jar), Ok(UserPass { user: dummy_identity() }));
}

#[test]
fn tampered_cookie_is_always_unauthenticated() {
    let valid = "5b500000[1,\"hello world\"]";
    let mut jar = CookieJar::new();
    jar.set("user", valid);
    assert_eq!(UserPass::from_cookies(&jar), Ok(UserPass { user: dummy_identity() }));
    for position in 0..valid.len() {
        for bit in 0..7u8 {
            let mut bytes = valid.as_bytes().to_vec();
            bytes[position] ^= 1 << bit;
            let tampered = match String::from_utf8(bytes) {
                Ok(text) => text,
                Err(_) => unreachable!(),
            };
            assert_eq!(open_token(&tampered), None, "{}", tampered);
            let mut jar = CookieJar::new();
            jar.set("user", &tampered);
            assert_eq!(UserPass::from_cookies(&jar), Err(AuthError::Unauthenticated), "{}", tampered);
        }
    }
    let characters: Vec<char> = valid.chars().collect();
    for position in 0..characters.len() {
        for replacement in ['0', '1', '2', '9', 'a', 'f', '[', ']', '"', ',', ' ', 'h', 'é', '\u{10ffff}'] {
            if characters[position] == replacement {
                continue;
            }
            let mut changed = characters.clone();
            changed[position] = replacement;
            let tampered: String = changed.into_iter().collect();
            let mut jar = CookieJar::new();
            jar.set("user", &tampered);
            assert_eq!(UserPass::from_cookies(&jar), Err(AuthError::Unauthenticated), "{}", tampered);
        }
    }
}

#[test]
fn check_digits_are_exact() {
    assert_eq!(checksum(""), 0);
    assert_eq!(checksum("a"), 97);
    assert_eq!(checksum("[1,\"hello world\"]"), 1461);
    assert_eq!(checksum("\u{10ffff}\u{10ffff}\u{10ffff}"), 3342333);
    assert_eq!(tag(""), "00000000");
    assert_eq!(tag("a"), "16000000");
    assert_eq!(tag("[1,\"hello world\"]"), "5b500000");
    assert_eq!(tag("\u{10ffff}\u{10ffff}\u{10ffff}"), "dfff2300");
    assert_eq!(seal("[7,\"x\"]"), "7d100000[7,\"x\"]");
    assert_eq!(seal(""), "00000000");
    assert_eq!(unseal("7d100000[7,\"x\"]"), Some("[7,\"x\"]"));
    assert_eq!(unseal("00000000"), Some(""));
    assert_eq!(unseal("16000000a"), Some("a"));
    assert_eq!(unseal("dfff2300\u{10ffff}\u{10ffff}\u{10ffff}"), Some("\u{10ffff}\u{10ffff}\u{10ffff}"));
    assert_eq!(unseal("7d100000[7,\"y\"]"), None);
    assert_eq!(unseal("7d100001[7,\"x\"]"), None);
    assert_eq!(unseal("7D100000[7,\"x\"]"), None);
    assert_eq!(unseal("0000000"), None);
    assert_eq!(unseal(""), None);
    assert_eq!(unseal("é"), None);
}

#[test]
fn token_is_record_under_check_digits() {
    assert_eq!(open_token("7d100000[7,\"x\"]"), Some((7, String::from("x"))));
    assert_eq!(open_token("[7,\"x\"]"), None);
    assert_eq!(open_token("c7300000no record"), None);
    assert_eq!(open_token("7d100000[7,\"y\"]"), None);
    assert_eq!(
        SessionToken::issue_for(&Identity::new(7, "x")),
        Some(SessionToken { value: String::from("7d100000[7,\"x\"]") })
    );
}

#[test]
fn logout_clears_cookie_with_or_without_session() {
    let response = logout(&plain(false), "/");
    assert_eq!(response, LoginRedirect { location: String::from("/"), cookie: CookieChange::Clear });

    let mut with_session = CookieJar::new();
    with_session.set("theme", "dark");
    with_session.set("user", "5b500000[1,\"hello world\"]");
    assert!(UserPass::from_cookies(&with_session).is_ok());
    with_session.apply(&response.cookie);
    assert_eq!(with_session.get("user"), None);
    assert_eq!(with_session.get("theme"), Some(&String::from("dark")));
    assert_eq!(UserPass::from_cookies(&with_session), Err(AuthError::Unauthenticated));

    let mut without = CookieJar::new();
    without.apply(&response.cookie);
    assert_eq!(UserPass::from_cookies(&without), Err(AuthError::Unauthenticated));

    let mut invalid = CookieJar::new();
    invalid.set("user", "garbage");
    invalid.apply(&response.cookie);
    assert_eq!(invalid.get("user"), None);
    assert_eq!(UserPass::from_cookies(&invalid), Err(AuthError::Unauthenticated));
}

#[test]
fn user_pass_logout_removes_session_cookie() {
    let mut jar = CookieJar::new();
    jar.set("user", "99200000[2,\"old\"]");
    jar.set("lang", "en");
    jar.set("user", "5b500000[1,\"hello world\"]");
    let pass = UserPass::from_cookies(&jar).expect("a session");
    assert_eq!(pass.user, dummy_identity());
    pass.logout(&mut jar);
    assert_eq!(jar.get("user"), None);
    assert_eq!(jar.get("lang"), Some(&String::from("en")));
    assert_eq!(UserPass::from_cookies(&jar), Err(AuthError::Unauthenticated));
}

#[test]
fn jar_set_get_remove() {
    let mut jar = CookieJar::new();
    assert_eq!(jar.get("a"), None);
    jar.set("a", "1");
    jar.set("b", "2");
    jar.set("a", "3");
    assert_eq!(jar.get("a"), Some(&String::from("3")));
    assert_eq!(jar.get("b"), Some(&String::from("2")));
    jar.remove("a");
    assert_eq!(jar.get("a"), None);
    assert_eq!(jar.get("b"), Some(&String::from("2")));
    jar.remove("missing");
    assert_eq!(jar.cookies, vec![NamedValue::new("b", "2")]);
}

#[test]
fn session_cookie_is_named_user() {
    assert_eq!(session_cookie(), "user");
    let mut jar = CookieJar::new();
    jar.set("User", "5b500000[1,\"hello world\"]");
    jar.set("session", "5b500000[1,\"hello world\"]");
    assert_eq!(UserPass::from_cookies(&jar), Err(AuthError::Unauthenticated));
}

#[test]
fn identity_clone_is_equal() {
    let identity = Identity::new(77, "name");
    let copy = identity.clone();
    assert_eq!(copy, identity);
    assert_eq!(copy.user_id, 77);
    assert_eq!(copy.name, "name");
}

#[test]
fn links_start_with_the_base_url() {
    let site = SiteConfig::new("http://localhost:8000", true);
    assert_eq!(site.url("/bossing_around"), "http://localhost:8000/bossing_around");
    assert_eq!(site.url(""), "http://localhost:8000");
    assert_eq!(SiteConfig::new("", false).url("/x"), "/x");
    assert_eq!(
        login(&DummyAuthenticator, &form("hello", "world"), &site, "/bossing_around", "/gimme_privilege"),
        LoginRedirect {
            location: String::from("http://localhost:8000/bossing_around"),
            cookie: CookieChange::Store { token: dummy_token(), http_only: true, secure: true },
        }
    );
    assert_eq!(
        login(&DummyAuthenticator, &form("hello", "x"), &site, "/bossing_around", "/gimme_privilege"),
        LoginRedirect { location: String::from("http://localhost:8000/gimme_privilege"), cookie: CookieChange::Keep }
    );
    assert_eq!(
        logout(&site, "/"),
        LoginRedirect { location: String::from("http://localhost:8000/"), cookie: CookieChange::Clear }
    );
    assert_eq!(
        require_login(Err(AuthError::Unauthenticated), &site, "/gimme_privilege"),
        Err(LoginRedirect { location: String::from("http://localhost:8000/gimme_privilege"), cookie: CookieChange::Keep })
    );
}

#[test]
fn every_response_has_a_location() {
    let site = plain(false);
    let responses = vec![
        login(&DummyAuthenticator, &form("hello", "world"), &site, "/in", "/out"),
        login(&DummyAuthenticator, &form("hello", "nope"), &site, "/in", "/out"),
        login(&DummyAuthenticator, &vec![], &site, "/in", "/out"),
        logout(&site, "/"),
    ];
    let expected = ["/in", "/out", "/out", "/"];
    for (response, location) in responses.iter().zip(expected) {
        assert_eq!(response.location, location);
    }
}

#[test]
fn unavailable_store_fails_login_without_cookie() {
    let status = LoginStatus::from_verdict(Err(AuthError::UpstreamUnavailable));
    assert_eq!(status, LoginStatus::Failure);
    assert_eq!(status.issue(), None);
    assert_eq!(
        status.redirect(&plain(false), "/in", "/out"),
        LoginRedirect { location: String::from("/out"), cookie: CookieChange::Keep }
    );
}

#[test]
fn dummy_knows_only_its_own_account_as_active() {
    assert!(DummyAuthenticator.still_valid(&dummy_identity()));
    assert!(!DummyAuthenticator.still_valid(&Identity::new(2, "hello world")));
    assert!(!DummyAuthenticator.still_valid(&Identity::new(1, "hello")));
    assert!(!DummyAuthenticator.still_valid(&Identity::new(0, "")));
}

#[test]
fn settle_decides_from_outcome_and_recheck() {
    let site = plain(false);
    let pass = || UserPass { user: Identity::new(4, "dee") };
    assert_eq!(settle(Ok(pass()), true, &site, "/login"), Ok(pass()));
    assert_eq!(
        settle(Ok(pass()), false, &site, "/login"),
        Err(LoginRedirect { location: String::from("/login"), cookie: CookieChange::Clear })
    );
    for still_valid in [true, false] {
        assert_eq!(
            settle(Err(AuthError::Unauthenticated), still_valid, &site, "/login"),
            Err(LoginRedirect { location: String::from("/login"), cookie: CookieChange::Keep })
        );
    }
}

#[test]
fn protect_admits_active_account_only() {
    let site = plain(false);
    let mut jar = CookieJar::new();
    assert_eq!(
        protect(&DummyAuthenticator, &jar, &site, "/gimme_privilege"),
        Err(LoginRedirect { location: String::from("/gimme_privilege"), cookie: CookieChange::Keep })
    );
    jar.set("user", "c7300000no record");
    assert_eq!(
        protect(&DummyAuthenticator, &jar, &site, "/gimme_privilege"),
        Err(LoginRedirect { location: String::from("/gimme_privilege"), cookie: CookieChange::Keep })
    );
    jar.set("user", "5b500000[1,\"hello world\"]");
    assert_eq!(
        protect(&DummyAuthenticator, &jar, &site, "/gimme_privilege"),
        Ok(UserPass { user: dummy_identity() })
    );
    jar.set("user", "7b500000[3,\"hello world\"]");
    let turned_away = protect(&DummyAuthenticator, &jar, &site, "/gimme_privilege");
    assert_eq!(
        turned_away,
        Err(LoginRedirect { location: String::from("/gimme_privilege"), cookie: CookieChange::Clear })
    );
    if let Err(response) = turned_away {
        jar.apply(&response.cookie);
    }
    assert_eq!(jar.get("user"), None);
    assert_eq!(
        protect(&DummyAuthenticator, &jar, &site, "/gimme_privilege"),
        Err(LoginRedirect { location: String::from("/gimme_privilege"), cookie: CookieChange::Keep })
    );
}
