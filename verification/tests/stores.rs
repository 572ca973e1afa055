use session_auth::argon::Argon;
use session_auth::auth::{login, AuthError, Request};
use session_auth::environment::Environment;
use session_auth::graphql::{AccountInput, AccountMutation, Context, CreateAccountInput, Mutation, Query};
use session_auth::model::{Account, Identity, Redacted};
use session_auth::problem::pack;

const NOW: i64 = 1_700_000_000;

fn expect_err<T>(r: Result<T, AuthError>) -> AuthError {
    match r {
        Err(e) => e,
        Ok(_) => panic!("expected an error"),
    }
}

fn fresh_env() -> Environment {
    Environment::new("jwt-signing-secret", "argon-secret", None, None, None)
}

fn no_identity() -> Identity {
    Identity { fingerprint: None, ip: None }
}

#[test]
fn account_store_finds_by_email() {
    let mut env = fresh_env();
    env.accounts
        .create_account(1, "a@x.com".to_owned(), "hash-a".to_owned(), NOW)
        .unwrap();
    env.accounts
        .create_account(2, "b@x.com".to_owned(), "hash-b".to_owned(), NOW)
        .unwrap();

    let found = env.accounts.get_account_id_password_by_email("b@x.com").unwrap();
    assert_eq!(found.id, 2);
    assert_eq!(found.password, "hash-b");
    assert!(env.accounts.get_account_id_password_by_email("c@x.com").is_none());

    let account = env.accounts.get_account("a@x.com").unwrap();
    assert_eq!(account.id, 1);
    assert_eq!(account.email, "a@x.com");
    assert_eq!(account.created_at, NOW);
    assert!(account.updated_at.is_none());
}

#[test]
fn account_store_rejects_duplicates() {
    let mut env = fresh_env();
    env.accounts
        .create_account(1, "a@x.com".to_owned(), "h".to_owned(), NOW)
        .unwrap();
    let same_email = expect_err(env
        .accounts
        .create_account(2, "a@x.com".to_owned(), "h".to_owned(), NOW));
    assert_eq!(same_email, AuthError::PersistenceError);
    let same_id = expect_err(env
        .accounts
        .create_account(1, "b@x.com".to_owned(), "h".to_owned(), NOW));
    assert_eq!(same_id, AuthError::PersistenceError);
}

#[test]
fn session_store_rejects_duplicate_key() {
    let mut env = fresh_env();
    env.sessions
        .create_session("k".repeat(64), "c".repeat(64), 1, no_identity(), NOW + 10, NOW)
        .unwrap();
    let err = env
        .sessions
        .create_session("k".repeat(64), "d".repeat(64), 2, no_identity(), NOW + 10, NOW)
        .unwrap_err();
    assert_eq!(err, AuthError::PersistenceError);
    assert_eq!(env.sessions.session_count(), 1);
}

#[test]
fn validated_read_checks_csrf_expiry_and_flag() {
    let mut env = fresh_env();
    env.sessions
        .create_session("k".repeat(64), "c".repeat(64), 1, no_identity(), NOW + 10, NOW)
        .unwrap();
    let key = "k".repeat(64);
    let csrf = "c".repeat(64);

    assert!(env.sessions.get_csrf_validated_session(&key, &csrf, NOW).is_some());
    // Wrong csrf.
    assert!(env.sessions.get_csrf_validated_session(&key, "other", NOW).is_none());
    // At or past expiry.
    assert!(env.sessions.get_csrf_validated_session(&key, &csrf, NOW + 10).is_none());
    // Invalidated.
    assert!(env.sessions.invalidate(&key));
    assert!(env.sessions.get_csrf_validated_session(&key, &csrf, NOW).is_none());
    // Revocation of an unknown key reports nothing to revoke.
    assert!(!env.sessions.invalidate("missing"));
}

#[test]
fn cache_respects_ttl_and_overwrites() {
    let mut env = fresh_env();
    env.sessions
        .create_session("k".repeat(64), "c".repeat(64), 1, no_identity(), NOW + 5, NOW)
        .unwrap();
    let rec = env
        .sessions
        .get_csrf_validated_session(&"k".repeat(64), &"c".repeat(64), NOW)
        .unwrap();

    env.cache.set_ex("k".repeat(64), rec, 5, NOW);
    assert!(env.cache.get(&"k".repeat(64), NOW + 4).is_some());
    // The entry expires exactly its lifetime after the write.
    assert!(env.cache.get(&"k".repeat(64), NOW + 5).is_none());
    assert!(env.cache.get(&"other".repeat(16), NOW).is_none());
}

#[test]
fn query_accounts_requires_authentication() {
    let env = fresh_env();
    let ctx = Context::new(env, None, NOW).expect("absent credentials are not an error");
    assert!(!ctx.is_authenticated());
    assert!(ctx.session().is_none());
    let err = expect_err(Query::accounts(&ctx));
    assert_eq!(err, AuthError::InvalidCredentials);
}

#[test]
fn query_accounts_lists_for_authenticated_context() {
    let mut env = fresh_env();
    env.accounts
        .create_account(1, "a@x.com".to_owned(), "h".to_owned(), NOW)
        .unwrap();
    let (jwt, csrf) = login(&mut env, 1, None, no_identity(), NOW, Ok(true)).unwrap();
    let ctx = Context::new(env, Some((jwt, csrf)), NOW).expect("fresh login resolves");
    assert!(ctx.is_authenticated());
    let accounts = Query::accounts(&ctx).unwrap();
    assert_eq!(accounts.len(), 1);
    assert_eq!(accounts[0].email, "a@x.com");
}

#[test]
fn context_rejects_bad_credentials() {
    let env = fresh_env();
    let err = expect_err(Context::new(env, Some(("garbage".to_owned(), "c".to_owned())), NOW));
    assert_eq!(err, AuthError::TokenError);
}

#[test]
fn account_mutation_create_persists_hash() {
    let mut env = fresh_env();
    let input = CreateAccountInput::new("a@x.com".to_owned(), "p1".to_owned());
    // The hasher runs outside the core; the test stands in for it.
    let hash = format!("hash-of-{}", input.password());
    let _mutation: AccountMutation = Mutation::account();
    let account =
        AccountMutation::create(&mut env, input.email().to_owned(), hash, NOW).unwrap();
    assert_eq!(account.email, "a@x.com");
    let stored = env.accounts.get_account_id_password_by_email("a@x.com").unwrap();
    assert_eq!(stored.id, account.id);
    assert_eq!(stored.password, "hash-of-p1");

    // A second account gets a distinct random identifier.
    let other =
        AccountMutation::create(&mut env, "b@x.com".to_owned(), "h".to_owned(), NOW).unwrap();
    assert_ne!(other.id, account.id);
}

#[test]
fn account_mutation_update_enforces_ownership() {
    let mut env = fresh_env();
    let account =
        AccountMutation::create(&mut env, "a@x.com".to_owned(), "h".to_owned(), NOW).unwrap();
    let id = account.id;
    let (jwt, csrf) = login(&mut env, id, None, no_identity(), NOW, Ok(true)).unwrap();
    let mut ctx = Context::new(env, Some((jwt, csrf)), NOW).unwrap();

    // The session's account is reachable through the store join.
    let owner = ctx.session().unwrap().account(&ctx.env).unwrap();
    assert_eq!(owner.id, id);

    // Updating any other account fails as invalid credentials.
    let err =
        expect_err(AccountMutation::update(&mut ctx, id ^ 1, AccountInput::new(None), NOW));
    assert_eq!(err, AuthError::InvalidCredentials);

    // Updating the own account changes the email and stamps the update.
    let updated = AccountMutation::update(
        &mut ctx,
        id,
        AccountInput::new(Some("new@x.com".to_owned())),
        NOW + 5,
    )
    .unwrap();
    assert_eq!(updated.email, "new@x.com");
    assert_eq!(updated.updated_at, Some(NOW + 5));
    assert!(ctx.env.accounts.get_account("a@x.com").is_none());
    assert_eq!(ctx.env.accounts.get_account("new@x.com").unwrap().id, id);

    // Keeping the email is allowed and only stamps the update.
    let kept = AccountMutation::update(&mut ctx, id, AccountInput::new(None), NOW + 9).unwrap();
    assert_eq!(kept.email, "new@x.com");
    assert_eq!(kept.updated_at, Some(NOW + 9));
}

#[test]
fn unauthenticated_update_is_rejected() {
    let env = fresh_env();
    let mut ctx = Context::new(env, None, NOW).unwrap();
    let err = expect_err(AccountMutation::update(&mut ctx, 1, AccountInput::new(None), NOW));
    assert_eq!(err, AuthError::InvalidCredentials);
}

#[test]
fn update_refuses_email_owned_by_another_account() {
    let mut env = fresh_env();
    let first =
        AccountMutation::create(&mut env, "a@x.com".to_owned(), "h".to_owned(), NOW).unwrap();
    AccountMutation::create(&mut env, "b@x.com".to_owned(), "h".to_owned(), NOW).unwrap();
    let (jwt, csrf) = login(&mut env, first.id, None, no_identity(), NOW, Ok(true)).unwrap();
    let mut ctx = Context::new(env, Some((jwt, csrf)), NOW).unwrap();
    let err = expect_err(AccountMutation::update(
        &mut ctx,
        first.id,
        AccountInput::new(Some("b@x.com".to_owned())),
        NOW,
    ));
    assert_eq!(err, AuthError::PersistenceError);
}

#[test]
fn all_accounts_come_back_in_insertion_order() {
    let mut env = fresh_env();
    env.accounts
        .create_account(1, "a@x.com".to_owned(), "h".to_owned(), NOW)
        .unwrap();
    env.accounts
        .create_account(2, "b@x.com".to_owned(), "h".to_owned(), NOW)
        .unwrap();
    let all = env.accounts.get_all_accounts();
    assert_eq!(all.len(), 2);
    assert_eq!(all[0].email, "a@x.com");
    assert_eq!(all[1].email, "b@x.com");
}

#[test]
fn problems_carry_the_uniform_statuses() {
    let p = pack(&AuthError::InvalidCredentials);
    assert_eq!(p.status, 401);
    assert_eq!(p.title, "Invalid credentials.");
    assert_eq!(p.detail.as_deref(), Some("The passed credentials were invalid."));

    // Token failures collapse into the same unauthorized answer as
    // credential failures: nothing distinguishes them at the boundary.
    let p = pack(&AuthError::TokenError);
    assert_eq!(p.status, 401);
    assert_eq!(p.title, "Invalid credentials.");
    assert_eq!(p.detail.as_deref(), Some("The passed credentials were invalid."));

    let p = pack(&AuthError::ArgonError);
    assert_eq!(p.status, 500);
    assert_eq!(p.title, "Internal Server Error");
    assert!(p.detail.is_none());

    let p = pack(&AuthError::PersistenceError);
    assert_eq!(p.status, 500);
    assert!(p.detail.is_none());
}

#[test]
fn redacted_values_construct_accounts() {
    let account = Account {
        id: 9,
        email: "r@x.com".to_owned(),
        password: Redacted::_new("hidden".to_owned()),
        created_at: NOW,
        updated_at: None,
    };
    assert_eq!(account.id, 9);
}

#[test]
fn argon_configuration_round_trips() {
    let argon = Argon::new("argon-secret", Some(1024), Some(3));
    assert_eq!(argon.secret(), "argon-secret");
    assert_eq!(argon.memory_size(), Some(1024));
    assert_eq!(argon.iterations(), Some(3));

    let env = Environment::new("j", "a", Some(2048), None, None);
    assert_eq!(env.argon().memory_size(), Some(2048));
    assert_eq!(env.argon().iterations(), None);
    assert_eq!(env.session_lifetime(None), 86_400);
    assert_eq!(env.session_lifetime(Some(9)), 9);
}

#[test]
fn request_carries_the_login_body() {
    let req = Request::new("a@x.com".to_owned(), "p1".to_owned(), Some(60));
    assert_eq!(req.email(), "a@x.com");
    assert_eq!(req.password(), "p1");
    assert_eq!(req.lifetime(), Some(60));
}
