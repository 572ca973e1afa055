//! The session handle handed to request handling: a resolved, validated
//! session record, with the join back to its owning account.

use vstd::prelude::*;

use crate::auth;
use crate::environment::Environment;
use crate::model;

verus! {

use crate::auth::{auth_state, resolve_transition, AuthError};
use crate::model::SessionView;
use crate::store::{get_account_by_session_key, spec_find_account_by_id, spec_find_session};

pub struct Session {
    pub auth: auth::Session,
}

impl View for Session {
    type V = SessionView;

    open spec fn view(&self) -> SessionView {
        self.auth@
    }
}

pub open spec fn session_result_view(r: Result<Session, AuthError>) -> Result<
    SessionView,
    AuthError,
> {
    match r {
        Ok(s) => Ok(s@),
        Err(e) => Err(e),
    }
}

impl Session {
    /// Fetches the session from the cache if it exists, otherwise resolves it
    /// against the store and caches it: the cache-aside read.
    pub fn new(env: &mut Environment, jwt: &str, csrf: &str, now: i64) -> (r: Result<
        Session,
        AuthError,
    >)
        requires
            old(env).wf(),
            now >= 0,
        ensures
            final(env).wf(),
            final(env).accounts@ == old(env).accounts@,
            final(env).argon == old(env).argon,
            final(env).jwt == old(env).jwt,
            final(env).session_lifetime == old(env).session_lifetime,
            resolve_transition(
                old(env).jwt.spec_secret(),
                auth_state(*old(env)),
                jwt@,
                csrf@,
                now,
                auth_state(*final(env)),
                session_result_view(r),
            ),
    {
        match auth::resolve(env, jwt, csrf, now) {
            Ok(s) => Ok(Session { auth: s }),
            Err(e) => Err(e),
        }
    }

    /// The account owning this session's row, looked up through the store.
    pub fn account(&self, env: &Environment) -> (r: Option<model::Account>)
        ensures
            match spec_find_session(env.sessions@, self@.key) {
                Some(rec) => match spec_find_account_by_id(env.accounts@, rec.account) {
                    Some(a) => r matches Some(acc) && acc@ == a,
                    None => r is None,
                },
                None => r is None,
            },
    {
        get_account_by_session_key(&env.accounts, &env.sessions, self.auth.0.key.as_str())
    }
}

} // verus!
