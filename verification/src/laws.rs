//! Laws of the resolution path, stated over the same transition relation the
//! resolver's contract uses.

use vstd::prelude::*;

verus! {

use crate::auth::{resolve_transition, AuthError, AuthState};
use crate::cache::spec_cache_get;
use crate::jwt::jwt_decode_of;
use crate::model::SessionView;
use crate::store::{spec_session_valid, spec_valid_lookup};

/// Cache population: once a resolution has succeeded, an immediately
/// following resolution of the same token and CSRF value at the same time is
/// answered from the cache — it returns the identical record, changes
/// nothing, and in particular asks the authoritative store no further
/// question (the read counter stands still).
pub proof fn lemma_second_resolve_hits_cache(
    secret: Seq<char>,
    s0: AuthState,
    s1: AuthState,
    s2: AuthState,
    token: Seq<char>,
    csrf: Seq<char>,
    now: i64,
    r1: Result<SessionView, AuthError>,
    r2: Result<SessionView, AuthError>,
)
    requires
        resolve_transition(secret, s0, token, csrf, now, s1, r1),
        r1 is Ok,
        resolve_transition(secret, s1, token, csrf, now, s2, r2),
    ensures
        r2 == r1,
        s2 == s1,
        s2.lookups == s1.lookups,
{
    match jwt_decode_of(secret, token) {
        None => {
            assert(false);
        },
        Some(c) => {
            assert(c.csrf == csrf);
            match spec_cache_get(s0.cache, c.session, now) {
                Some(v) => {
                    assert(s1 == s0);
                },
                None => {
                    match spec_valid_lookup(s0.sessions, c.session, csrf, now) {
                        Some(rec) => {
                            assert(spec_session_valid(rec, csrf, now));
                            assert(spec_cache_get(s1.cache, c.session, now) == Some(rec));
                        },
                        None => {
                            assert(false);
                        },
                    }
                },
            }
        },
    }
}

} // verus!
