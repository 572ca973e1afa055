//! The explicit dependency set the authentication core runs against: hasher
//! and codec configuration, the configured session lifetime, and the three
//! stateful collaborators (account table, session store, session cache).

use vstd::prelude::*;

verus! {

use crate::argon::Argon;
use crate::cache::SessionCache;
use crate::jwt::Jwt;
use crate::store::{AccountStore, SessionStore};

/// Default session lifetime, in seconds, used when neither the request nor
/// the process configuration names one.
pub const DEFAULT_SESSION_LIFETIME: i64 = 86400;

/// Lifetime selection: an explicitly requested lifetime always wins over the
/// configured one, and the default applies when both are absent.
pub open spec fn spec_session_lifetime(requested: Option<i64>, configured: Option<i64>) -> i64 {
    match requested {
        Some(l) => l,
        None => match configured {
            Some(l) => l,
            None => DEFAULT_SESSION_LIFETIME,
        },
    }
}

pub struct Environment {
    pub argon: Argon,
    pub jwt: Jwt,
    pub session_lifetime: Option<i64>,
    pub accounts: AccountStore,
    pub sessions: SessionStore,
    pub cache: SessionCache,
}

impl Environment {
    /// Store and cache invariants, maintained by every operation.
    pub open spec fn wf(&self) -> bool {
        self.accounts.wf() && self.sessions.wf() && self.cache.wf()
    }

    pub fn new(
        jwt_secret: &str,
        argon_secret: &str,
        argon_memory_size: Option<u32>,
        argon_iterations: Option<u32>,
        session_lifetime: Option<i64>,
    ) -> (r: Self)
        ensures
            r.jwt.spec_secret() == jwt_secret@,
            r.argon@.secret == argon_secret@,
            r.argon@.memory_size == argon_memory_size,
            r.argon@.iterations == argon_iterations,
            r.session_lifetime == session_lifetime,
            r.accounts@ == Seq::<crate::model::AccountView>::empty(),
            r.sessions@ == Seq::<crate::model::SessionView>::empty(),
            r.sessions.spec_lookups() == 0,
            r.cache@ == Seq::<crate::cache::CacheEntryView>::empty(),
            r.wf(),
    {
        Environment {
            argon: Argon::new(argon_secret, argon_memory_size, argon_iterations),
            jwt: Jwt::new(jwt_secret),
            session_lifetime,
            accounts: AccountStore::new(),
            sessions: SessionStore::new(),
            cache: SessionCache::new(),
        }
    }

    pub fn argon(&self) -> (r: &Argon)
        ensures
            r == &self.argon,
    {
        &self.argon
    }

    pub fn jwt(&self) -> (r: &Jwt)
        ensures
            r == &self.jwt,
    {
        &self.jwt
    }

    /// The lifetime of a new session: the request's value when present, else
    /// the configured value, else the default.
    pub fn session_lifetime(&self, req_lifetime: Option<i64>) -> (r: i64)
        ensures
            r == spec_session_lifetime(req_lifetime, self.session_lifetime),
    {
        match req_lifetime {
            Some(l) => l,
            None => match self.session_lifetime {
                Some(l) => l,
                None => DEFAULT_SESSION_LIFETIME,
            },
        }
    }
}

} // verus!
