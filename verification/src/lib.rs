//! Authentication and session resolution: credential-check decisions, signed
//! token issuance and validation, CSRF double-submit checking, and a
//! cache-backed session-resolution path over an authoritative session store.

pub mod argon;
pub mod auth;
pub mod cache;
pub mod environment;
pub mod graphql;
pub mod jwt;
pub mod laws;
pub mod lookup;
pub mod model;
pub mod problem;
pub mod session;
pub mod store;

use vstd::prelude::*;

verus! {

/// Saturating addition on `i64`, used for absolute expiry computation.
pub open spec fn spec_sat_add(a: int, b: int) -> int {
    if a + b > i64::MAX {
        i64::MAX as int
    } else if a + b < i64::MIN {
        i64::MIN as int
    } else {
        a + b
    }
}

pub fn sat_add(a: i64, b: i64) -> (r: i64)
    ensures
        r == spec_sat_add(a as int, b as int),
{
    if b >= 0 {
        if a <= i64::MAX - b {
            a + b
        } else {
            i64::MAX
        }
    } else {
        if a >= i64::MIN - b {
            a + b
        } else {
            i64::MIN
        }
    }
}

} // verus!
