//! The uniform error surface: every authentication-path error becomes a
//! problem document, deliberately uninformative for credential-level
//! failures and opaque for infrastructure failures.

use vstd::prelude::*;

use crate::auth::AuthError;

verus! {

/// An HTTP problem document, as the transport layer reports errors.
pub struct Problem {
    pub status: u16,
    pub title: String,
    pub detail: Option<String>,
}

/// Maps the error taxonomy onto problem documents.  Token failures collapse
/// into the very same unauthorized answer as credential failures, so a caller
/// cannot tell a forged or malformed token from a wrong password; the
/// internal failures become an opaque server error with no detail exposed.
pub fn pack(err: &AuthError) -> (r: Problem)
    ensures
        match err {
            AuthError::InvalidCredentials => r.status == 401 && r.title@
                == "Invalid credentials."@ && (r.detail matches Some(d) && d@
                == "The passed credentials were invalid."@),
            AuthError::TokenError => r.status == 401 && r.title@ == "Invalid credentials."@ && (
            r.detail matches Some(d) && d@ == "The passed credentials were invalid."@),
            AuthError::ArgonError => r.status == 500 && r.title@ == "Internal Server Error"@
                && r.detail is None,
            AuthError::PersistenceError => r.status == 500 && r.title@
                == "Internal Server Error"@ && r.detail is None,
        },
{
    match err {
        AuthError::InvalidCredentials | AuthError::TokenError => Problem {
            status: 401,
            title: "Invalid credentials.".to_owned(),
            detail: Some("The passed credentials were invalid.".to_owned()),
        },
        AuthError::ArgonError | AuthError::PersistenceError => Problem {
            status: 500,
            title: "Internal Server Error".to_owned(),
            detail: None,
        },
    }
}

} // verus!
