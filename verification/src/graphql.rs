//! The API surface over the core: a request context carrying the resolved
//! session, the authenticated account listing, and the account mutations.
//! Transport wiring (HTTP, query language, streaming) lives outside the
//! verified core.

use vstd::prelude::*;

use crate::environment::Environment;
use crate::model;
use crate::session::Session;

verus! {

use crate::auth::{auth_state, resolve_transition, AuthError, AuthState};
use crate::lookup::lemma_spec_find_sound;
use crate::store::{
    spec_account_taken,
    spec_email_taken_by_other,
    spec_find_account_by_id,
    spec_find_session,
};
use crate::model::AccountView;

/// The per-request context: the environment plus the session resolved from
/// the request's credentials, if any were presented.
pub struct Context {
    pub session: Option<Session>,
    pub env: Environment,
}

impl Context {
    /// Builds the request context.  Presented credentials are resolved to a
    /// session; absent credentials leave the request unauthenticated rather
    /// than rejected.
    pub fn new(env: Environment, auth: Option<(String, String)>, now: i64) -> (r: Result<
        Context,
        AuthError,
    >)
        requires
            env.wf(),
            now >= 0,
        ensures
            match r {
                Ok(ctx) => ctx.env.wf() && ctx.env.accounts@ == env.accounts@ && ctx.env.argon
                    == env.argon && ctx.env.jwt == env.jwt && ctx.env.session_lifetime
                    == env.session_lifetime && match auth {
                    None => ctx.session is None && ctx.env == env,
                    Some(p) => ctx.session matches Some(s) && resolve_transition(
                        env.jwt.spec_secret(),
                        auth_state(env),
                        p.0@,
                        p.1@,
                        now,
                        auth_state(ctx.env),
                        Ok(s@),
                    ),
                },
                Err(e) => auth matches Some(p) && exists|post: AuthState|
                    resolve_transition(
                        env.jwt.spec_secret(),
                        auth_state(env),
                        p.0@,
                        p.1@,
                        now,
                        post,
                        Err(e),
                    ),
            },
    {
        let mut env = env;
        match auth {
            Some((jwt, csrf)) => {
                let ghost pre = auth_state(env);
                match Session::new(&mut env, jwt.as_str(), csrf.as_str(), now) {
                    Ok(s) => Ok(Context { session: Some(s), env }),
                    Err(e) => {
                        proof {
                            let post = auth_state(env);
                            assert(resolve_transition(
                                env.jwt.spec_secret(),
                                pre,
                                jwt@,
                                csrf@,
                                now,
                                post,
                                Err::<crate::model::SessionView, AuthError>(e),
                            ));
                        }
                        Err(e)
                    },
                }
            },
            None => Ok(Context { session: None, env }),
        }
    }

    /// The resolved session, if the request authenticated.
    pub fn session(&self) -> (r: Option<&Session>)
        ensures
            match r {
                Some(s) => self.session matches Some(t) && s@ == t@,
                None => self.session is None,
            },
    {
        self.session.as_ref()
    }

    /// Whether the request presented credentials that resolved.
    pub fn is_authenticated(&self) -> (r: bool)
        ensures
            r == (self.session is Some),
    {
        self.session.is_some()
    }
}

/// The query surface.
pub struct Query;

impl Query {
    /// Lists every account, for authenticated requests only.
    pub fn accounts(ctx: &Context) -> (r: Result<Vec<model::Account>, AuthError>)
        ensures
            match r {
                Ok(v) => ctx.session is Some && v@.len() == ctx.env.accounts@.len() && (forall|
                    j: int,
                |
                    0 <= j < v@.len() ==> (#[trigger] v@[j])@ == ctx.env.accounts@[j]),
                Err(e) => ctx.session is None && e == AuthError::InvalidCredentials,
            },
    {
        if ctx.is_authenticated() {
            Ok(ctx.env.accounts.get_all_accounts())
        } else {
            Err(AuthError::InvalidCredentials)
        }
    }
}

/// The mutation surface.
pub struct Mutation;

impl Mutation {
    pub fn account() -> (r: AccountMutation)
        ensures
            r == (AccountMutation {  }),
    {
        AccountMutation
    }
}

/// Input for creating an account: an email and a plaintext password.  The
/// password is hashed by the credential hasher before anything is stored.
pub struct CreateAccountInput {
    email: String,
    password: String,
}

impl CreateAccountInput {
    pub fn new(email: String, password: String) -> (r: Self)
        ensures
            r.spec_email() == email@,
            r.spec_password() == password@,
    {
        CreateAccountInput { email, password }
    }

    pub closed spec fn spec_email(&self) -> Seq<char> {
        self.email@
    }

    pub closed spec fn spec_password(&self) -> Seq<char> {
        self.password@
    }

    pub fn email(&self) -> (r: &str)
        ensures
            r@ == self.spec_email(),
    {
        self.email.as_str()
    }

    pub fn password(&self) -> (r: &str)
        ensures
            r@ == self.spec_password(),
    {
        self.password.as_str()
    }
}

/// Input for updating an account: a new email, or nothing to keep it.
pub struct AccountInput {
    email: Option<String>,
}

impl AccountInput {
    pub fn new(email: Option<String>) -> (r: Self)
        ensures
            r.spec_email() == email.deep_view(),
    {
        AccountInput { email }
    }

    pub closed spec fn spec_email(&self) -> Option<Seq<char>> {
        self.email.deep_view()
    }
}

/// Account creation and update, grouped as the mutation tree exposes them.
pub struct AccountMutation;

/// Relies on uuid's version-4 generator: a random 128-bit identifier drawn
/// from the process's entropy source.  Nothing can be promised of a random
/// value.
#[verifier::external_body]
fn new_account_id() -> (r: u128) {
    uuid::Uuid::new_v4().as_u128()
}

impl AccountMutation {
    /// Creates an account under a fresh random id.  The password hash is
    /// computed by the credential hasher before this runs; this persists it.
    pub fn create(env: &mut Environment, email: String, password_hash: String, now: i64) -> (r:
        Result<model::Account, AuthError>)
        requires
            old(env).wf(),
        ensures
            final(env).wf(),
            final(env).sessions@ == old(env).sessions@,
            final(env).sessions.spec_lookups() == old(env).sessions.spec_lookups(),
            final(env).cache@ == old(env).cache@,
            final(env).argon == old(env).argon,
            final(env).jwt == old(env).jwt,
            final(env).session_lifetime == old(env).session_lifetime,
            match r {
                Ok(a) => a@.email == email@ && a@.password == password_hash@ && a@.created_at
                    == now && a@.updated_at is None && !spec_account_taken(
                    old(env).accounts@,
                    a@.id,
                    email@,
                ) && final(env).accounts@ == old(env).accounts@.push(a@),
                Err(e) => e == AuthError::PersistenceError && final(env).accounts@ == old(
                    env,
                ).accounts@,
            },
    {
        let id = new_account_id();
        env.accounts.create_account(id, email, password_hash, now)
    }

    /// Updates an account's email.  Only the session's own account may be
    /// updated: any other target fails as invalid credentials.
    pub fn update(ctx: &mut Context, id: u128, input: AccountInput, now: i64) -> (r: Result<
        model::Account,
        AuthError,
    >)
        requires
            old(ctx).env.wf(),
        ensures
            final(ctx).env.wf(),
            final(ctx).session == old(ctx).session,
            final(ctx).env.sessions@ == old(ctx).env.sessions@,
            final(ctx).env.sessions.spec_lookups() == old(ctx).env.sessions.spec_lookups(),
            final(ctx).env.cache@ == old(ctx).env.cache@,
            final(ctx).env.argon == old(ctx).env.argon,
            final(ctx).env.jwt == old(ctx).env.jwt,
            final(ctx).env.session_lifetime == old(ctx).env.session_lifetime,
            old(ctx).session is None ==> r == Err::<model::Account, AuthError>(
                AuthError::InvalidCredentials,
            ) && final(ctx).env.accounts@ == old(ctx).env.accounts@,
            (old(ctx).session matches Some(s) && spec_session_account(
                old(ctx).env,
                s@.key,
            ) matches Some(a) && a.id != id) ==> r == Err::<model::Account, AuthError>(
                AuthError::InvalidCredentials,
            ) && final(ctx).env.accounts@ == old(ctx).env.accounts@,
            r matches Ok(acc) ==> (old(ctx).session matches Some(s) && (spec_session_account(
                old(ctx).env,
                s@.key,
            ) matches Some(a) && a.id == id) && (spec_find_account_by_id(
                old(ctx).env.accounts@,
                id,
            ) matches Some(b) && acc@ == (AccountView {
                id: b.id,
                email: match input.spec_email() {
                    Some(e) => e,
                    None => b.email,
                },
                password: b.password,
                created_at: b.created_at,
                updated_at: Some(now),
            })) && !spec_email_taken_by_other(
                old(ctx).env.accounts@,
                acc@.email,
                id,
            ) && spec_accounts_updated(old(ctx).env.accounts@, final(ctx).env.accounts@, id, acc@)),
            // A vanished session row or owner is an infrastructure failure.
            (old(ctx).session matches Some(s) && spec_session_account(old(ctx).env, s@.key)
                is None) ==> r == Err::<model::Account, AuthError>(AuthError::PersistenceError)
                && final(ctx).env.accounts@ == old(ctx).env.accounts@,
            // So is an email already owned by another row.
            (old(ctx).session matches Some(s) && (spec_session_account(
                old(ctx).env,
                s@.key,
            ) matches Some(a) && a.id == id && spec_email_taken_by_other(
                old(ctx).env.accounts@,
                match input.spec_email() {
                    Some(e) => e,
                    None => a.email,
                },
                id,
            ))) ==> r == Err::<model::Account, AuthError>(AuthError::PersistenceError)
                && final(ctx).env.accounts@ == old(ctx).env.accounts@,
            // Success is owed whenever the session owns the target row and
            // the new email collides with nobody.
            (old(ctx).session matches Some(s) && (spec_session_account(
                old(ctx).env,
                s@.key,
            ) matches Some(a) && a.id == id && !spec_email_taken_by_other(
                old(ctx).env.accounts@,
                match input.spec_email() {
                    Some(e) => e,
                    None => a.email,
                },
                id,
            ))) ==> r is Ok,
    {
        let acc = match &ctx.session {
            Some(s) => match s.account(&ctx.env) {
                Some(a) => a,
                None => {
                    return Err(AuthError::PersistenceError);
                },
            },
            None => {
                return Err(AuthError::InvalidCredentials);
            },
        };
        if acc.id != id {
            return Err(AuthError::InvalidCredentials);
        }
        proof {
            // The joined owner is the row `update_email` will find: what the
            // join found under the record's account id satisfies its own
            // search predicate, and that id is the target's.
            match old(ctx).session {
                Some(s) => {
                    match spec_find_session(old(ctx).env.sessions@, s@.key) {
                        Some(rec) => {
                            lemma_spec_find_sound(
                                old(ctx).env.accounts@,
                                |a: AccountView| a.id == rec.account,
                            );
                        },
                        None => {},
                    }
                },
                None => {},
            }
        }
        ctx.env.accounts.update_email(id, input.email, now)
    }
}

/// The account a session key leads to, through the store join.
pub open spec fn spec_session_account(env: Environment, key: Seq<char>) -> Option<AccountView> {
    match spec_find_session(env.sessions@, key) {
        Some(rec) => spec_find_account_by_id(env.accounts@, rec.account),
        None => None,
    }
}

/// The account table after an update of row `id` to `updated`: that row
/// replaced, every other row untouched.
pub open spec fn spec_accounts_updated(
    pre: Seq<AccountView>,
    post: Seq<AccountView>,
    id: u128,
    updated: AccountView,
) -> bool {
    post.len() == pre.len() && (forall|j: int|
        0 <= j < pre.len() && (#[trigger] pre[j]).id != id ==> post[j] == pre[j]) && (forall|j: int|
        0 <= j < pre.len() && (#[trigger] pre[j]).id == id ==> post[j] == updated)
}

/// The subscription surface.  Streaming lives in the transport layer outside
/// the verified core; nothing of it is part of the authentication contract.
pub struct Subscription;

} // verus!
