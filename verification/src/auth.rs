//! Authentication core: the signed claim set, the login decision, the CSRF
//! double-submit check, and session resolution against store and cache.

use vstd::prelude::*;

use crate::environment::Environment;
use crate::model;
use rand::RngExt;

verus! {

use crate::cache::{spec_cache_find, spec_cache_get, CacheEntryView};
use crate::environment::spec_session_lifetime;
use crate::jwt::jwt_decode_of;
use crate::lookup::str_eq;
use crate::model::{IdentityView, SessionView};
use crate::sat_add;
use crate::spec_sat_add;
use crate::store::{bump, spec_find_session, spec_valid_lookup, AccountByEmail};

/// A resolved, validated session, as handed to request handlers.  A caller
/// holding one may trust `account` as the authenticated principal.
pub struct Session(pub model::Session);

impl View for Session {
    type V = model::SessionView;

    open spec fn view(&self) -> model::SessionView {
        self.0@
    }
}

/// A login request body: credentials plus an optional session lifetime in
/// seconds.  Ephemeral; never persisted.
pub struct Request {
    email: String,
    password: String,
    lifetime: Option<i64>,
}

pub struct RequestView {
    pub email: Seq<char>,
    pub password: Seq<char>,
    pub lifetime: Option<i64>,
}

impl View for Request {
    type V = RequestView;

    closed spec fn view(&self) -> RequestView {
        RequestView { email: self.email@, password: self.password@, lifetime: self.lifetime }
    }
}

impl Request {
    pub fn new(email: String, password: String, lifetime: Option<i64>) -> (r: Self)
        ensures
            r@.email == email@,
            r@.password == password@,
            r@.lifetime == lifetime,
    {
        Request { email, password, lifetime }
    }

    pub fn email(&self) -> (r: &str)
        ensures
            r@ == self@.email,
    {
        self.email.as_str()
    }

    pub fn password(&self) -> (r: &str)
        ensures
            r@ == self@.password,
    {
        self.password.as_str()
    }

    pub fn lifetime(&self) -> (r: Option<i64>)
        ensures
            r == self@.lifetime,
    {
        self.lifetime
    }
}

/// The payload signed into the transport token: a session identifier and a
/// CSRF token, nothing more.
pub struct Claims {
    session: String,
    csrf: String,
}

pub struct ClaimsView {
    pub session: Seq<char>,
    pub csrf: Seq<char>,
}

impl View for Claims {
    type V = ClaimsView;

    closed spec fn view(&self) -> ClaimsView {
        ClaimsView { session: self.session@, csrf: self.csrf@ }
    }
}

impl Claims {
    pub fn new(session: String, csrf: String) -> (r: Self)
        ensures
            r@.session == session@,
            r@.csrf == csrf@,
    {
        Claims { session, csrf }
    }

    pub fn session(&self) -> (r: String)
        ensures
            r@ == self@.session,
    {
        self.session.clone()
    }

    pub fn csrf(&self) -> (r: String)
        ensures
            r@ == self@.csrf,
    {
        self.csrf.clone()
    }
}

/// The error taxonomy of the authentication path.  All credential-level
/// failures are deliberately unified under `InvalidCredentials` so that a
/// caller cannot tell which check failed.
#[derive(Clone, Copy, Debug, PartialEq, Eq, Structural)]
pub enum AuthError {
    /// Bad email or password, expired, invalidated or missing session,
    /// CSRF mismatch.
    InvalidCredentials,
    /// The hashing engine itself failed (for example on a corrupt hash);
    /// logged distinctly, surfaced to callers as invalid credentials.
    ArgonError,
    /// The transport token failed signature or structural checks.
    TokenError,
    /// The authoritative store refused a write.
    PersistenceError,
}

impl AuthError {
    /// A human-readable description, in place of a `Display` implementation.
    pub fn message(&self) -> (r: String)
        ensures
            match self {
                AuthError::InvalidCredentials => r@ == "invalid credentials"@,
                AuthError::ArgonError => r@ == "could not hash password"@,
                AuthError::TokenError => r@ == "invalid token"@,
                AuthError::PersistenceError => r@ == "could not persist record"@,
            },
    {
        match self {
            AuthError::InvalidCredentials => "invalid credentials".to_owned(),
            AuthError::ArgonError => "could not hash password".to_owned(),
            AuthError::TokenError => "invalid token".to_owned(),
            AuthError::PersistenceError => "could not persist record".to_owned(),
        }
    }
}

/// Characters a generated token may contain: ASCII alphanumerics.
pub open spec fn is_token_char(c: char) -> bool {
    ('a' <= c && c <= 'z') || ('A' <= c && c <= 'Z') || ('0' <= c && c <= '9')
}

/// Session identifiers and CSRF tokens are 64-character alphanumeric strings.
pub open spec fn is_token(s: Seq<char>) -> bool {
    s.len() == 64 && forall|i: int| 0 <= i < s.len() ==> is_token_char(#[trigger] s[i])
}

/// Relies on rand's `Alphanumeric` distribution sampled from the thread-local
/// CSPRNG: every sample is an ASCII alphanumeric character, and exactly 64
/// are taken.  Nothing further can be promised of a random value.
#[verifier::external_body]
fn generate_token() -> (r: String)
    ensures
        is_token(r@),
{
    rand::rng().sample_iter(rand::distr::Alphanumeric).take(64).map(char::from).collect()
}

/// The transport may carry the token and the CSRF value independently.  With
/// neither present the request is simply unauthenticated; with exactly one
/// present it is rejected; with both present they go to the resolver.
pub fn credential_pair(jwt: Option<String>, csrf: Option<String>) -> (r: Result<
    Option<(String, String)>,
    AuthError,
>)
    ensures
        match r {
            Ok(None) => jwt is None && csrf is None,
            Ok(Some(p)) => (jwt matches Some(j) && p.0@ == j@) && (csrf matches Some(c)
                && p.1@ == c@),
            Err(e) => e == AuthError::InvalidCredentials && (jwt is Some <==> csrf is None),
        },
{
    match (jwt, csrf) {
        (None, None) => Ok(None),
        (Some(j), Some(c)) => Ok(Some((j, c))),
        _ => Err(AuthError::InvalidCredentials),
    }
}

/// The absolute expiry a login at `now` computes, saturating at the ends of
/// the timestamp range.
pub open spec fn spec_expiry(now: i64, requested: Option<i64>, configured: Option<i64>) -> i64 {
    spec_sat_add(now as int, spec_session_lifetime(requested, configured) as int) as i64
}

/// Decodes the presented token and performs the CSRF double-submit check:
/// the value delivered out-of-band must equal the one embedded in the token.
pub fn claims(env: &Environment, jwt: &str, csrf: &str) -> (r: Result<Claims, AuthError>)
    ensures
        match jwt_decode_of(env.jwt.spec_secret(), jwt@) {
            None => r == Err::<Claims, AuthError>(AuthError::TokenError),
            Some(c) => if c.csrf != csrf@ {
                r == Err::<Claims, AuthError>(AuthError::InvalidCredentials)
            } else {
                r matches Ok(cl) && cl@ == c
            },
        },
{
    let c = match env.jwt().decode(jwt) {
        Ok(c) => c,
        Err(e) => {
            return Err(e);
        },
    };
    if !str_eq(c.csrf.as_str(), csrf) {
        return Err(AuthError::InvalidCredentials);
    }
    Ok(c)
}

/// What a successful issuance leaves behind: exactly one new persisted
/// record, whose key the returned token names under the codec and whose CSRF
/// token (a fresh 64-character alphanumeric value) is the returned one.
pub open spec fn spec_login_ok(
    secret: Seq<char>,
    pre: Seq<SessionView>,
    post: Seq<SessionView>,
    token: Seq<char>,
    csrf: Seq<char>,
    account: u128,
    identity: IdentityView,
    expiry: i64,
    now: i64,
) -> bool {
    is_token(csrf) && (jwt_decode_of(secret, token) matches Some(c) && c.csrf == csrf
        && is_token(c.session) && post == pre.push(
        SessionView {
            key: c.session,
            csrf,
            account,
            identity,
            expiry,
            invalidated: false,
            created_at: now,
            updated_at: None,
        },
    ))
}

/// Issues a new session for `account` once the credential hasher has spoken.
///
/// The memory-hard hash verification itself runs outside the verified core;
/// its outcome enters here as `password_verified`, and only an affirmative
/// `Ok(true)` lets a session be issued — a mismatch and a hashing failure
/// alike surface as `InvalidCredentials`, leaving every store unchanged.  On
/// success, exactly one session row is persisted, carrying a fresh 64-char
/// alphanumeric key and CSRF token; the returned token embeds both, and the
/// returned CSRF value equals the embedded one.
pub fn login(
    env: &mut Environment,
    account: u128,
    lifetime: Option<i64>,
    identity: model::Identity,
    now: i64,
    password_verified: Result<bool, AuthError>,
) -> (r: Result<(String, String), AuthError>)
    requires
        old(env).wf(),
    ensures
        final(env).wf(),
        final(env).accounts@ == old(env).accounts@,
        final(env).cache@ == old(env).cache@,
        final(env).sessions.spec_lookups() == old(env).sessions.spec_lookups(),
        final(env).argon == old(env).argon,
        final(env).jwt == old(env).jwt,
        final(env).session_lifetime == old(env).session_lifetime,
        password_verified != Ok::<bool, AuthError>(true) ==> r == Err::<
            (String, String),
            AuthError,
        >(AuthError::InvalidCredentials),
        password_verified == Ok::<bool, AuthError>(true) ==> r != Err::<
            (String, String),
            AuthError,
        >(AuthError::InvalidCredentials),
        match r {
            Ok(p) => password_verified == Ok::<bool, AuthError>(true) && spec_login_ok(
                old(env).jwt.spec_secret(),
                old(env).sessions@,
                final(env).sessions@,
                p.0@,
                p.1@,
                account,
                identity@,
                spec_expiry(now, lifetime, old(env).session_lifetime),
                now,
            ),
            Err(e) => final(env).sessions@ == old(env).sessions@ && (e
                == AuthError::InvalidCredentials || e == AuthError::PersistenceError),
        },
{
    match password_verified {
        Ok(true) => (),
        // A mismatch and a hashing-engine failure are indistinguishable to
        // the caller, closing the oracle leak.
        _ => {
            return Err(AuthError::InvalidCredentials);
        },
    }
    let key = generate_token();
    let csrf = generate_token();
    let lt = env.session_lifetime(lifetime);
    let expiry = sat_add(now, lt);
    let claims = Claims { session: key.clone(), csrf: csrf.clone() };
    let token = match env.jwt().encode(&claims) {
        Ok(t) => t,
        Err(e) => {
            proof {
                // Encoding always answers.
                assert(false);
            }
            return Err(e);
        },
    };
    match env.sessions.create_session(key, csrf.clone(), account, identity, expiry, now) {
        Ok(()) => Ok((token, csrf)),
        Err(e) => Err(e),
    }
}

/// The authenticator's full decision for one login request.
///
/// An absent account and a rejected or failed password verification fail
/// alike as `InvalidCredentials`, indistinguishably, so a caller cannot probe
/// which check failed; only an affirmative outcome for a found account issues
/// a session.  The password verification itself runs outside the verified
/// core against the found account's stored hash and enters here as
/// `password_verified`; with no account found it is never consulted.
pub fn request(
    env: &mut Environment,
    account: Option<AccountByEmail>,
    lifetime: Option<i64>,
    identity: model::Identity,
    now: i64,
    password_verified: Result<bool, AuthError>,
) -> (r: Result<(String, String), AuthError>)
    requires
        old(env).wf(),
    ensures
        final(env).wf(),
        final(env).accounts@ == old(env).accounts@,
        final(env).cache@ == old(env).cache@,
        final(env).sessions.spec_lookups() == old(env).sessions.spec_lookups(),
        final(env).argon == old(env).argon,
        final(env).jwt == old(env).jwt,
        final(env).session_lifetime == old(env).session_lifetime,
        (account is None || password_verified != Ok::<bool, AuthError>(true)) ==> r == Err::<
            (String, String),
            AuthError,
        >(AuthError::InvalidCredentials),
        (account is Some && password_verified == Ok::<bool, AuthError>(true)) ==> r != Err::<
            (String, String),
            AuthError,
        >(AuthError::InvalidCredentials),
        match r {
            Ok(p) => (account matches Some(ab) && spec_login_ok(
                old(env).jwt.spec_secret(),
                old(env).sessions@,
                final(env).sessions@,
                p.0@,
                p.1@,
                ab.id,
                identity@,
                spec_expiry(now, lifetime, old(env).session_lifetime),
                now,
            )) && password_verified == Ok::<bool, AuthError>(true),
            Err(e) => final(env).sessions@ == old(env).sessions@ && (e
                == AuthError::InvalidCredentials || e == AuthError::PersistenceError),
        },
{
    match account {
        Some(ab) => login(env, ab.id, lifetime, identity, now, password_verified),
        None => Err(AuthError::InvalidCredentials),
    }
}

/// Resolves a session directly against the authoritative store: decode,
/// CSRF check, then the validity-filtered read.
pub fn session(env: &mut Environment, jwt: &str, csrf: &str, now: i64) -> (r: Result<
    Session,
    AuthError,
>)
    ensures
        final(env).accounts@ == old(env).accounts@,
        final(env).cache@ == old(env).cache@,
        final(env).sessions@ == old(env).sessions@,
        final(env).argon == old(env).argon,
        final(env).jwt == old(env).jwt,
        final(env).session_lifetime == old(env).session_lifetime,
        match jwt_decode_of(old(env).jwt.spec_secret(), jwt@) {
            None => r == Err::<Session, AuthError>(AuthError::TokenError)
                && final(env).sessions.spec_lookups() == old(env).sessions.spec_lookups(),
            Some(c) => if c.csrf != csrf@ {
                r == Err::<Session, AuthError>(AuthError::InvalidCredentials)
                    && final(env).sessions.spec_lookups() == old(env).sessions.spec_lookups()
            } else {
                final(env).sessions.spec_lookups() == bump(old(env).sessions.spec_lookups())
                    && match spec_valid_lookup(old(env).sessions@, c.session, csrf@, now) {
                    Some(rec) => r matches Ok(s) && s@ == rec,
                    None => r == Err::<Session, AuthError>(AuthError::InvalidCredentials),
                }
            },
        },
{
    let c = match claims(env, jwt, csrf) {
        Ok(c) => c,
        Err(e) => {
            return Err(e);
        },
    };
    match env.sessions.get_csrf_validated_session(c.session.as_str(), csrf, now) {
        Some(rec) => Ok(Session(rec)),
        None => Err(AuthError::InvalidCredentials),
    }
}

/// The parts of the environment the resolution path reads and writes.
pub struct AuthState {
    pub sessions: Seq<SessionView>,
    pub lookups: u64,
    pub cache: Seq<CacheEntryView>,
}

pub open spec fn auth_state(env: Environment) -> AuthState {
    AuthState {
        sessions: env.sessions@,
        lookups: env.sessions.spec_lookups(),
        cache: env.cache@,
    }
}

pub open spec fn result_view(r: Result<Session, AuthError>) -> Result<SessionView, AuthError> {
    match r {
        Ok(s) => Ok(s@),
        Err(e) => Err(e),
    }
}

/// Everything `resolve` does, as a relation between the state before and
/// after: decode, CSRF check, cache read, and on a miss the authoritative
/// read followed by cache population with the remaining lifetime.
pub open spec fn resolve_transition(
    secret: Seq<char>,
    pre: AuthState,
    token: Seq<char>,
    csrf: Seq<char>,
    now: i64,
    post: AuthState,
    r: Result<SessionView, AuthError>,
) -> bool {
    match jwt_decode_of(secret, token) {
        None => post == pre && r == Err::<SessionView, AuthError>(AuthError::TokenError),
        Some(c) => if c.csrf != csrf {
            post == pre && r == Err::<SessionView, AuthError>(AuthError::InvalidCredentials)
        } else {
            match spec_cache_get(pre.cache, c.session, now) {
                Some(v) => post == pre && r == Ok::<SessionView, AuthError>(v),
                None => post.sessions == pre.sessions && post.lookups == bump(pre.lookups)
                    && match spec_valid_lookup(pre.sessions, c.session, csrf, now) {
                    Some(rec) => r == Ok::<SessionView, AuthError>(rec) && spec_cache_find(
                        post.cache,
                        c.session,
                    ) == Some(
                        CacheEntryView { key: c.session, value: rec, expires_at: rec.expiry },
                    ) && (forall|k: Seq<char>|
                        k != c.session ==> #[trigger] spec_cache_find(post.cache, k)
                            == spec_cache_find(pre.cache, k)),
                    None => post.cache == pre.cache && r == Err::<SessionView, AuthError>(
                        AuthError::InvalidCredentials,
                    ),
                },
            }
        },
    }
}

/// Resolves a presented token and out-of-band CSRF value to a validated
/// session, preferring the cache and falling back to the authoritative
/// store, whose answer is cached for the record's remaining lifetime.
///
/// A cache hit answers as-is, without consulting the store — the deliberate
/// staleness trade-off — so the read counter moves only on a miss.
pub fn resolve(env: &mut Environment, jwt: &str, csrf: &str, now: i64) -> (r: Result<
    Session,
    AuthError,
>)
    requires
        old(env).wf(),
        now >= 0,
    ensures
        final(env).wf(),
        final(env).accounts@ == old(env).accounts@,
        final(env).argon == old(env).argon,
        final(env).jwt == old(env).jwt,
        final(env).session_lifetime == old(env).session_lifetime,
        resolve_transition(
            old(env).jwt.spec_secret(),
            auth_state(*old(env)),
            jwt@,
            csrf@,
            now,
            auth_state(*final(env)),
            result_view(r),
        ),
        // The CSRF double-submit check: a mismatched out-of-band value fails,
        // however valid the token and the session.
        (jwt_decode_of(old(env).jwt.spec_secret(), jwt@) matches Some(c) && c.csrf != csrf@)
            ==> r == Err::<Session, AuthError>(AuthError::InvalidCredentials),
        // Off the cache, an expired or invalidated record never resolves.
        (jwt_decode_of(old(env).jwt.spec_secret(), jwt@) matches Some(c) && (c.csrf == csrf@
            && spec_cache_get(old(env).cache@, c.session, now) is None) && (spec_find_session(
            old(env).sessions@,
            c.session,
        ) matches Some(rec) && (rec.expiry <= now || rec.invalidated))) ==> r == Err::<
            Session,
            AuthError,
        >(AuthError::InvalidCredentials),
{
    let c = match claims(env, jwt, csrf) {
        Ok(c) => c,
        Err(e) => {
            return Err(e);
        },
    };
    let key = c.session();
    match crate::cache::get_or_create(&mut env.cache, &mut env.sessions, key.as_str(), csrf, now) {
        Some(rec) => Ok(Session(rec)),
        None => Err(AuthError::InvalidCredentials),
    }
}

} // verus!
