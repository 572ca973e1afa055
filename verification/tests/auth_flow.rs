use session_auth::auth::{self, credential_pair, login, resolve, AuthError};
use session_auth::environment::Environment;
use session_auth::model::Identity;
use session_auth::session::Session;

const NOW: i64 = 1_700_000_000;

fn expect_err<T>(r: Result<T, AuthError>) -> AuthError {
    match r {
        Err(e) => e,
        Ok(_) => panic!("expected an error"),
    }
}

fn fresh_env() -> Environment {
    Environment::new("jwt-signing-secret", "argon-secret", None, None, None)
}

fn no_identity() -> Identity {
    Identity { fingerprint: None, ip: None }
}

/// An environment with one account, `a@x.com`, whose stored hash the tests
/// stand in for; the hashing engine itself runs outside the library, so the
/// tests answer for it by comparing against the stored value.
fn env_with_account() -> (Environment, u128) {
    let mut env = fresh_env();
    env.accounts
        .create_account(7, "a@x.com".to_owned(), "hash-of-p1".to_owned(), NOW)
        .expect("fresh account inserts");
    (env, 7)
}

fn verify_outcome(env: &Environment, email: &str, password: &str) -> (u128, Result<bool, AuthError>) {
    let found = env.accounts.get_account_id_password_by_email(email);
    match found {
        Some(ab) => {
            let outcome = Ok(ab.password == format!("hash-of-{}", password));
            (ab.id, outcome)
        }
        None => (0, Ok(false)),
    }
}

#[test]
fn login_issues_token_matching_persisted_record() {
    let (mut env, id) = env_with_account();
    let (account, outcome) = verify_outcome(&env, "a@x.com", "p1");
    assert_eq!(account, id);
    let (jwt, csrf) = login(&mut env, account, None, no_identity(), NOW, outcome)
        .expect("valid credentials log in");

    // The returned csrf equals the one embedded in the returned token.
    let claims = env.jwt().decode(&jwt).expect("own token decodes");
    assert_eq!(claims.csrf(), csrf);

    // Generated identifiers are 64-character alphanumeric tokens.
    assert_eq!(claims.session().len(), 64);
    assert!(claims.session().chars().all(|c| c.is_ascii_alphanumeric()));
    assert_eq!(csrf.len(), 64);
    assert!(csrf.chars().all(|c| c.is_ascii_alphanumeric()));

    // The decoded session identifier names a persisted record owned by the
    // matched account, expiring a default lifetime after login.
    let rec = env
        .sessions
        .get_csrf_validated_session(&claims.session(), &csrf, NOW)
        .expect("persisted record is valid");
    assert_eq!(rec.account, id);
    assert_eq!(rec.csrf, csrf);
    assert_eq!(rec.expiry, NOW + 86_400);
    assert!(!rec.invalidated);
    assert_eq!(env.sessions.session_count(), 1);
}

#[test]
fn login_wrong_password_creates_no_record() {
    let (mut env, _) = env_with_account();
    let (account, outcome) = verify_outcome(&env, "a@x.com", "wrong");
    assert_eq!(outcome, Ok(false));
    let err = login(&mut env, account, None, no_identity(), NOW, outcome).unwrap_err();
    assert_eq!(err, AuthError::InvalidCredentials);
    assert_eq!(env.sessions.session_count(), 0);
}

#[test]
fn login_unknown_email_fails() {
    let (mut env, _) = env_with_account();
    let (account, outcome) = verify_outcome(&env, "nobody@x.com", "p1");
    let err = login(&mut env, account, None, no_identity(), NOW, outcome).unwrap_err();
    assert_eq!(err, AuthError::InvalidCredentials);
    assert_eq!(env.sessions.session_count(), 0);
}

#[test]
fn login_hashing_failure_masks_as_invalid_credentials() {
    let (mut env, id) = env_with_account();
    let err = login(&mut env, id, None, no_identity(), NOW, Err(AuthError::ArgonError))
        .unwrap_err();
    assert_eq!(err, AuthError::InvalidCredentials);
    assert_eq!(env.sessions.session_count(), 0);
}

#[test]
fn request_decides_absent_account_and_outcome_alike() {
    let (mut env, id) = env_with_account();

    // An absent account fails exactly as a wrong password does.
    let err = expect_err(auth::request(&mut env, None, None, no_identity(), NOW, Ok(false)));
    assert_eq!(err, AuthError::InvalidCredentials);
    assert_eq!(env.sessions.session_count(), 0);

    // A found account with an affirmative verification outcome logs in.
    let found = env.accounts.get_account_id_password_by_email("a@x.com");
    let (jwt, csrf) = auth::request(&mut env, found, None, no_identity(), NOW, Ok(true))
        .expect("found account with verified password logs in");
    let session = resolve(&mut env, &jwt, &csrf, NOW).expect("fresh login resolves");
    assert_eq!(session.0.account, id);
}

#[test]
fn login_lifetime_selection() {
    // The caller's requested lifetime wins over the configured one; the
    // configured one wins over the default.
    let mut env = Environment::new("s", "a", None, None, Some(100));
    env.accounts
        .create_account(1, "a@x.com".to_owned(), "h".to_owned(), NOW)
        .unwrap();
    let (jwt, csrf) = login(&mut env, 1, Some(60), no_identity(), NOW, Ok(true)).unwrap();
    let claims = env.jwt().decode(&jwt).unwrap();
    let rec = env
        .sessions
        .get_csrf_validated_session(&claims.session(), &csrf, NOW)
        .unwrap();
    assert_eq!(rec.expiry, NOW + 60);

    let (jwt2, csrf2) = login(&mut env, 1, None, no_identity(), NOW, Ok(true)).unwrap();
    let claims2 = env.jwt().decode(&jwt2).unwrap();
    let rec2 = env
        .sessions
        .get_csrf_validated_session(&claims2.session(), &csrf2, NOW)
        .unwrap();
    assert_eq!(rec2.expiry, NOW + 100);
}

#[test]
fn resolve_succeeds_then_rejects_wrong_csrf() {
    let (mut env, id) = env_with_account();
    let (jwt, csrf) = login(&mut env, id, None, no_identity(), NOW, Ok(true)).unwrap();

    let session = resolve(&mut env, &jwt, &csrf, NOW).expect("fresh login resolves");
    assert_eq!(session.0.account, id);

    let err = expect_err(resolve(&mut env, &jwt, "wrong-csrf", NOW));
    assert_eq!(err, AuthError::InvalidCredentials);
}

#[test]
fn resolve_rejects_undecodable_token() {
    let mut env = fresh_env();
    let err = expect_err(resolve(&mut env, "garbage", "csrf", NOW));
    assert_eq!(err, AuthError::TokenError);
}

#[test]
fn expired_record_is_unresolvable() {
    // A record with its expiry in the past, inserted directly into the
    // persistent store (bypassing the cache), never resolves, even with
    // correct claims.
    let mut env = fresh_env();
    let key = "k".repeat(64);
    let csrf = "c".repeat(64);
    env.sessions
        .create_session(key.clone(), csrf.clone(), 7, no_identity(), NOW - 1, NOW - 10_000)
        .unwrap();
    let token = env
        .jwt()
        .encode(&auth::Claims::new(key, csrf.clone()))
        .unwrap();
    let err = expect_err(resolve(&mut env, &token, &csrf, NOW));
    assert_eq!(err, AuthError::InvalidCredentials);
}

#[test]
fn invalidated_record_is_unresolvable() {
    let mut env = fresh_env();
    let key = "k".repeat(64);
    let csrf = "c".repeat(64);
    env.sessions
        .create_session(key.clone(), csrf.clone(), 7, no_identity(), NOW + 1000, NOW)
        .unwrap();
    assert!(env.sessions.invalidate(&key));
    let token = env
        .jwt()
        .encode(&auth::Claims::new(key, csrf.clone()))
        .unwrap();
    let err = expect_err(resolve(&mut env, &token, &csrf, NOW));
    assert_eq!(err, AuthError::InvalidCredentials);
}

#[test]
fn second_resolve_is_answered_from_cache() {
    let (mut env, id) = env_with_account();
    let (jwt, csrf) = login(&mut env, id, None, no_identity(), NOW, Ok(true)).unwrap();
    assert_eq!(env.sessions.lookup_count(), 0);

    let first = resolve(&mut env, &jwt, &csrf, NOW).unwrap();
    assert_eq!(env.sessions.lookup_count(), 1);

    // The second resolution is a cache hit: the store is not asked again and
    // the identical record comes back.
    let second = resolve(&mut env, &jwt, &csrf, NOW).unwrap();
    assert_eq!(env.sessions.lookup_count(), 1);
    assert_eq!(second.0.key, first.0.key);
    assert_eq!(second.0.csrf, first.0.csrf);
    assert_eq!(second.0.account, first.0.account);
    assert_eq!(second.0.expiry, first.0.expiry);
    assert_eq!(second.0.invalidated, first.0.invalidated);
    assert_eq!(second.0.created_at, first.0.created_at);
}

#[test]
fn cache_serves_revoked_session_until_ttl() {
    // The documented staleness window: revocation does not invalidate the
    // cached copy, which keeps answering until its lifetime elapses.
    let (mut env, id) = env_with_account();
    let (jwt, csrf) = login(&mut env, id, None, no_identity(), NOW, Ok(true)).unwrap();
    let first = resolve(&mut env, &jwt, &csrf, NOW).unwrap();
    assert!(env.sessions.invalidate(&first.0.key));

    let stale = resolve(&mut env, &jwt, &csrf, NOW).unwrap();
    assert_eq!(stale.0.key, first.0.key);
    assert!(!stale.0.invalidated);

    // Once the cached copy's lifetime has elapsed, the store's verdict rules.
    let err = expect_err(resolve(&mut env, &jwt, &csrf, first.0.expiry));
    assert_eq!(err, AuthError::InvalidCredentials);
}

#[test]
fn direct_session_lookup_bypasses_cache() {
    let (mut env, id) = env_with_account();
    let (jwt, csrf) = login(&mut env, id, None, no_identity(), NOW, Ok(true)).unwrap();

    // The store-direct path answers from the authoritative table and counts
    // a read query every time.
    let s1 = auth::session(&mut env, &jwt, &csrf, NOW).expect("fresh login resolves");
    assert_eq!(s1.0.account, id);
    assert_eq!(env.sessions.lookup_count(), 1);
    let s2 = auth::session(&mut env, &jwt, &csrf, NOW).expect("still valid");
    assert_eq!(s2.0.key, s1.0.key);
    assert_eq!(env.sessions.lookup_count(), 2);

    let err = expect_err(auth::session(&mut env, &jwt, "wrong-csrf", NOW));
    assert_eq!(err, AuthError::InvalidCredentials);
}

#[test]
fn session_handle_reaches_its_account() {
    let (mut env, id) = env_with_account();
    let (jwt, csrf) = login(&mut env, id, None, no_identity(), NOW, Ok(true)).unwrap();
    let handle = match Session::new(&mut env, &jwt, &csrf, NOW) {
        Ok(h) => h,
        Err(_) => panic!("fresh login resolves"),
    };
    let owner = handle.account(&env).expect("session row joins to its account");
    assert_eq!(owner.id, id);
    assert_eq!(owner.email, "a@x.com");
}

#[test]
fn credential_pair_transport_rules() {
    // Neither part supplied: unauthenticated, not an error.
    assert_eq!(credential_pair(None, None), Ok(None));
    // Exactly one part supplied: invalid credentials.
    assert_eq!(
        credential_pair(Some("t".to_owned()), None),
        Err(AuthError::InvalidCredentials)
    );
    assert_eq!(
        credential_pair(None, Some("c".to_owned())),
        Err(AuthError::InvalidCredentials)
    );
    // Both supplied: handed to the resolver.
    assert_eq!(
        credential_pair(Some("t".to_owned()), Some("c".to_owned())),
        Ok(Some(("t".to_owned(), "c".to_owned())))
    );
}

#[test]
fn saturating_expiry_never_overflows() {
    assert_eq!(session_auth::sat_add(i64::MAX, 5), i64::MAX);
    assert_eq!(session_auth::sat_add(i64::MIN, -5), i64::MIN);
    assert_eq!(session_auth::sat_add(40, 2), 42);
}
