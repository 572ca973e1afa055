//! Shared data types: accounts, session records, the client identity snapshot,
//! and the redacted wrapper that keeps password hashes out of casual reach.

use vstd::prelude::*;

verus! {

/// A value that the rest of the program must not read directly.  The only way
/// to reach the wrapped value is the crate-internal accessor used by the
/// credential-verification path; anything user-facing sees a placeholder.
pub struct Redacted<T>(T);

impl<T> Redacted<T> {
    pub fn _new(value: T) -> (r: Self)
        ensures
            r.spec_inner() == value,
    {
        Redacted(value)
    }

    /// The wrapped value, as a mathematical object only.
    pub closed spec fn spec_inner(&self) -> T {
        self.0
    }

    /// Crate-internal accessor: only the credential-verification path may
    /// read the wrapped value.
    pub(crate) fn inner(&self) -> (r: &T)
        ensures
            *r == self.spec_inner(),
    {
        &self.0
    }
}

impl<T: View> View for Redacted<T> {
    type V = T::V;

    open spec fn view(&self) -> T::V {
        self.spec_inner().view()
    }
}

/// Snapshot of the client context at login time; stored for audit purposes
/// and not enforced by any check today.
pub struct Identity {
    pub fingerprint: Option<String>,
    pub ip: Option<String>,
}

pub struct IdentityView {
    pub fingerprint: Option<Seq<char>>,
    pub ip: Option<Seq<char>>,
}

impl View for Identity {
    type V = IdentityView;

    open spec fn view(&self) -> IdentityView {
        IdentityView { fingerprint: self.fingerprint.deep_view(), ip: self.ip.deep_view() }
    }
}

impl Identity {
    pub fn clone_identity(&self) -> (r: Identity)
        ensures
            r@ == self@,
    {
        Identity {
            fingerprint: match &self.fingerprint {
                Some(s) => Some(s.clone()),
                None => None,
            },
            ip: match &self.ip {
                Some(s) => Some(s.clone()),
                None => None,
            },
        }
    }
}

/// An account row, as the account collaborator stores it.  The password field
/// holds the account's password hash, never a plaintext password.
pub struct Account {
    pub id: u128,
    pub email: String,
    pub password: Redacted<String>,
    pub created_at: i64,
    pub updated_at: Option<i64>,
}

pub struct AccountView {
    pub id: u128,
    pub email: Seq<char>,
    pub password: Seq<char>,
    pub created_at: i64,
    pub updated_at: Option<i64>,
}

impl View for Account {
    type V = AccountView;

    open spec fn view(&self) -> AccountView {
        AccountView {
            id: self.id,
            email: self.email@,
            password: self.password@,
            created_at: self.created_at,
            updated_at: self.updated_at,
        }
    }
}

impl Account {
    pub fn clone_account(&self) -> (r: Account)
        ensures
            r@ == self@,
    {
        Account {
            id: self.id,
            email: self.email.clone(),
            password: Redacted::_new(self.password.inner().clone()),
            created_at: self.created_at,
            updated_at: self.updated_at,
        }
    }
}

/// A session row: the authoritative record behind one issued token.  A record
/// is usable only while `!invalidated` and `expiry` lies in the future; that
/// predicate is re-evaluated on every resolution, never cached as a fact.
pub struct Session {
    pub key: String,
    pub csrf: String,
    pub account: u128,
    pub identity: Identity,
    pub expiry: i64,
    pub invalidated: bool,
    pub created_at: i64,
    pub updated_at: Option<i64>,
}

pub struct SessionView {
    pub key: Seq<char>,
    pub csrf: Seq<char>,
    pub account: u128,
    pub identity: IdentityView,
    pub expiry: i64,
    pub invalidated: bool,
    pub created_at: i64,
    pub updated_at: Option<i64>,
}

impl View for Session {
    type V = SessionView;

    open spec fn view(&self) -> SessionView {
        SessionView {
            key: self.key@,
            csrf: self.csrf@,
            account: self.account,
            identity: self.identity@,
            expiry: self.expiry,
            invalidated: self.invalidated,
            created_at: self.created_at,
            updated_at: self.updated_at,
        }
    }
}

impl Session {
    pub fn clone_session(&self) -> (r: Session)
        ensures
            r@ == self@,
    {
        Session {
            key: self.key.clone(),
            csrf: self.csrf.clone(),
            account: self.account,
            identity: self.identity.clone_identity(),
            expiry: self.expiry,
            invalidated: self.invalidated,
            created_at: self.created_at,
            updated_at: self.updated_at,
        }
    }
}

} // verus!
