//! The authoritative tables behind authentication: the account collaborator's
//! table and the persistent session store.  Both live in memory here; the
//! process edge that loads and saves them is outside the verified core.

use vstd::prelude::*;

use crate::auth::AuthError;
use crate::model;

verus! {

use crate::lookup::{lemma_spec_find_found, lemma_spec_find_none, spec_find, str_eq};
use crate::model::{AccountView, SessionView};

/// The two columns the authenticator needs from an account row: the id and
/// the stored password hash.
pub struct AccountByEmail {
    pub id: u128,
    pub password: String,
}

/// The account row whose email is `email`, if any.
pub open spec fn spec_find_account(s: Seq<AccountView>, email: Seq<char>) -> Option<AccountView> {
    spec_find(s, |a: AccountView| a.email == email)
}

/// The account row whose id is `id`, if any.
pub open spec fn spec_find_account_by_id(s: Seq<AccountView>, id: u128) -> Option<AccountView> {
    spec_find(s, |a: AccountView| a.id == id)
}

/// Whether inserting an account with this id or email would collide.
pub open spec fn spec_account_taken(s: Seq<AccountView>, id: u128, email: Seq<char>) -> bool {
    exists|j: int| 0 <= j < s.len() && ((#[trigger] s[j]).id == id || s[j].email == email)
}

/// Whether some other account than `id` already owns `email`.
pub open spec fn spec_email_taken_by_other(
    s: Seq<AccountView>,
    email: Seq<char>,
    id: u128,
) -> bool {
    exists|j: int| 0 <= j < s.len() && (#[trigger] s[j]).email == email && s[j].id != id
}

/// The account table.  Ids and emails are unique across rows.
pub struct AccountStore {
    accounts: Vec<model::Account>,
}

impl View for AccountStore {
    type V = Seq<AccountView>;

    closed spec fn view(&self) -> Seq<AccountView> {
        self.accounts@.map_values(|a: model::Account| a@)
    }
}

impl AccountStore {
    /// Row uniqueness: no two rows share an id or an email.
    pub open spec fn wf(&self) -> bool {
        forall|i: int, j: int|
            0 <= i < j < self@.len() ==> (#[trigger] self@[i]).id != (#[trigger] self@[j]).id
                && self@[i].email != self@[j].email
    }

    pub fn new() -> (r: Self)
        ensures
            r@ == Seq::<AccountView>::empty(),
            r.wf(),
    {
        AccountStore { accounts: Vec::new() }
    }

    /// Every account row, in insertion order.
    pub fn get_all_accounts(&self) -> (r: Vec<model::Account>)
        ensures
            r@.len() == self@.len(),
            forall|j: int| 0 <= j < r@.len() ==> (#[trigger] r@[j])@ == self@[j],
    {
        let mut out: Vec<model::Account> = Vec::new();
        let n = self.accounts.len();
        for i in 0..n
            invariant
                n == self.accounts.len(),
                out@.len() == i,
                forall|j: int| 0 <= j < i ==> (#[trigger] out@[j])@ == self@[j],
        {
            out.push(self.accounts[i].clone_account());
        }
        out
    }

    /// The row with this email, if any.
    pub fn get_account(&self, email: &str) -> (r: Option<model::Account>)
        ensures
            match r {
                Some(a) => spec_find_account(self@, email@) == Some(a@),
                None => spec_find_account(self@, email@) is None,
            },
    {
        let n = self.accounts.len();
        for i in 0..n
            invariant
                n == self.accounts.len(),
                forall|j: int| 0 <= j < i ==> (#[trigger] self@[j]).email != email@,
        {
            if str_eq(self.accounts[i].email.as_str(), email) {
                proof {
                    lemma_spec_find_found(self@, |a: AccountView| a.email == email@, i as int);
                }
                return Some(self.accounts[i].clone_account());
            }
        }
        proof {
            lemma_spec_find_none(self@, |a: AccountView| a.email == email@);
        }
        None
    }

    /// What the login path reads: the id and stored hash for an email.
    pub fn get_account_id_password_by_email(&self, email: &str) -> (r: Option<AccountByEmail>)
        ensures
            match r {
                Some(ab) => spec_find_account(self@, email@) matches Some(a) && ab.id == a.id
                    && ab.password@ == a.password,
                None => spec_find_account(self@, email@) is None,
            },
    {
        match self.get_account(email) {
            Some(a) => Some(AccountByEmail { id: a.id, password: a.password.inner().clone() }),
            None => None,
        }
    }

    /// Inserts a new account row; refuses a duplicate id or email.
    pub fn create_account(&mut self, id: u128, email: String, password_hash: String, now: i64)
        -> (r: Result<model::Account, AuthError>)
        requires
            old(self).wf(),
        ensures
            final(self).wf(),
            if spec_account_taken(old(self)@, id, email@) {
                r == Err::<model::Account, AuthError>(AuthError::PersistenceError) && final(self)@
                    == old(self)@
            } else {
                (r matches Ok(a) && a@ == (AccountView {
                    id,
                    email: email@,
                    password: password_hash@,
                    created_at: now,
                    updated_at: None,
                })) && final(self)@ == old(self)@.push(
                    AccountView {
                        id,
                        email: email@,
                        password: password_hash@,
                        created_at: now,
                        updated_at: None,
                    },
                )
            },
    {
        let n = self.accounts.len();
        for i in 0..n
            invariant
                n == self.accounts.len(),
                self@ == old(self)@,
                self.wf(),
                forall|j: int|
                    0 <= j < i ==> (#[trigger] self@[j]).id != id && self@[j].email != email@,
        {
            if self.accounts[i].id == id || str_eq(self.accounts[i].email.as_str(), email.as_str())
            {
                proof {
                    assert((#[trigger] old(self)@[i as int]).id == id || old(self)@[i as int].email
                        == email@);
                }
                return Err(AuthError::PersistenceError);
            }
        }
        let ghost fresh = AccountView {
            id,
            email: email@,
            password: password_hash@,
            created_at: now,
            updated_at: None,
        };
        let account = model::Account {
            id,
            email,
            password: model::Redacted::_new(password_hash),
            created_at: now,
            updated_at: None,
        };
        let result = account.clone_account();
        self.accounts.push(account);
        proof {
            assert(self@ =~= old(self)@.push(fresh));
            assert forall|i: int, j: int| 0 <= i < j < self@.len() implies (#[trigger] self@[i]).id
                != (#[trigger] self@[j]).id && self@[i].email != self@[j].email by {
                if j < self@.len() - 1 {
                    assert(old(self)@[i] == self@[i] && old(self)@[j] == self@[j]);
                } else {
                    assert(old(self)@[i] == self@[i] && self@[j] == fresh);
                }
            }
        }
        Ok(result)
    }

    /// Updates the email of the row with this id (keeping it when no new
    /// email is given), stamping `updated_at`; refuses an unknown id or an
    /// email owned by another row.
    pub fn update_email(&mut self, id: u128, email: Option<String>, now: i64) -> (r: Result<
        model::Account,
        AuthError,
    >)
        requires
            old(self).wf(),
        ensures
            final(self).wf(),
            match spec_find_account_by_id(old(self)@, id) {
                None => r == Err::<model::Account, AuthError>(AuthError::PersistenceError)
                    && final(self)@ == old(self)@,
                Some(a) => {
                    let new_email = match email {
                        Some(e) => e@,
                        None => a.email,
                    };
                    let updated = AccountView {
                        id: a.id,
                        email: new_email,
                        password: a.password,
                        created_at: a.created_at,
                        updated_at: Some(now),
                    };
                    if spec_email_taken_by_other(old(self)@, new_email, id) {
                        r == Err::<model::Account, AuthError>(AuthError::PersistenceError)
                            && final(self)@ == old(self)@
                    } else {
                        (r matches Ok(acc) && acc@ == updated) && final(self)@.len() == old(self)@.len() && (forall|j: int|
                            0 <= j < old(self)@.len() && (#[trigger] old(self)@[j]).id != id
                                ==> final(self)@[j] == old(self)@[j]) && (forall|j: int|
                            0 <= j < old(self)@.len() && (#[trigger] old(self)@[j]).id == id
                                ==> final(self)@[j] == updated)
                    }
                },
            },
    {
        let ghost pre = self@;
        let n = self.accounts.len();
        let mut found: Option<usize> = None;
        for i in 0..n
            invariant
                n == self.accounts.len(),
                self@ == pre,
                self.wf(),
                match found {
                    Some(k) => k < i && self@[k as int].id == id && (forall|j: int|
                        0 <= j < k ==> (#[trigger] self@[j]).id != id),
                    None => forall|j: int| 0 <= j < i ==> (#[trigger] self@[j]).id != id,
                },
        {
            if found.is_none() && self.accounts[i].id == id {
                found = Some(i);
            }
        }
        let k = match found {
            Some(k) => k,
            None => {
                proof {
                    lemma_spec_find_none(pre, |a: AccountView| a.id == id);
                }
                return Err(AuthError::PersistenceError);
            },
        };
        proof {
            lemma_spec_find_found(pre, |a: AccountView| a.id == id, k as int);
        }
        let new_email: String = match email {
            Some(e) => e,
            None => self.accounts[k].email.clone(),
        };
        // A row other than `k` already owning the email makes the update a
        // uniqueness violation.
        for i in 0..n
            invariant
                n == self.accounts.len(),
                self@ == pre,
                self.wf(),
                k < n,
                spec_find_account_by_id(pre, id) == Some(pre[k as int]),
                new_email@ == match spec_find_account_by_id(pre, id) {
                    Some(a) => match email {
                        Some(e) => e@,
                        None => a.email,
                    },
                    None => new_email@,
                },
                forall|j: int|
                    0 <= j < i ==> !((#[trigger] pre[j]).email == new_email@ && pre[j].id != id),
        {
            if self.accounts[i].id != id && str_eq(
                self.accounts[i].email.as_str(),
                new_email.as_str(),
            ) {
                proof {
                    assert((#[trigger] pre[i as int]).email == new_email@ && pre[i as int].id
                        != id);
                }
                return Err(AuthError::PersistenceError);
            }
        }
        let ghost updatedv = AccountView {
            id: pre[k as int].id,
            email: new_email@,
            password: pre[k as int].password,
            created_at: pre[k as int].created_at,
            updated_at: Some(now),
        };
        let row = &mut self.accounts[k];
        row.email = new_email;
        row.updated_at = Some(now);
        let result = self.accounts[k].clone_account();
        proof {
            assert(self@ =~= pre.update(k as int, updatedv));
            assert forall|i: int, j: int| 0 <= i < j < self@.len() implies (#[trigger] self@[i]).id
                != (#[trigger] self@[j]).id && self@[i].email != self@[j].email by {
                if i == k {
                    assert(self@[j] == pre[j] && pre[j].id != pre[k as int].id);
                } else if j == k {
                    assert(self@[i] == pre[i] && pre[i].id != pre[k as int].id);
                } else {
                    assert(self@[i] == pre[i] && self@[j] == pre[j]);
                }
            }
            assert forall|j: int|
                0 <= j < pre.len() && (#[trigger] pre[j]).id == id implies self@[j] == updatedv by {
                if j != k {
                    assert(pre[j].id != pre[k as int].id);
                    assert(false);
                }
            }
        }
        Ok(result)
    }
}

/// Validity of a session row against a presented CSRF value at time `now`.
pub open spec fn spec_session_valid(r: SessionView, csrf: Seq<char>, now: i64) -> bool {
    r.csrf == csrf && r.expiry > now && !r.invalidated
}

/// The session row with this key, if any.
pub open spec fn spec_find_session(s: Seq<SessionView>, key: Seq<char>) -> Option<SessionView> {
    spec_find(s, |r: SessionView| r.key == key)
}

/// What the authoritative read query returns: the row under `key`, only if
/// it carries `csrf`, has not expired and has not been invalidated.
pub open spec fn spec_valid_lookup(
    s: Seq<SessionView>,
    key: Seq<char>,
    csrf: Seq<char>,
    now: i64,
) -> Option<SessionView> {
    match spec_find_session(s, key) {
        Some(r) => if spec_session_valid(r, csrf, now) {
            Some(r)
        } else {
            None
        },
        None => None,
    }
}

/// A saturating counter step, for the read counter.
pub open spec fn bump(n: u64) -> u64 {
    if n < u64::MAX {
        (n + 1) as u64
    } else {
        n
    }
}

/// The persistent session store: a durable table of issued sessions keyed by
/// session identifier, plus a counter of authoritative read queries.
pub struct SessionStore {
    sessions: Vec<model::Session>,
    lookups: u64,
}

impl View for SessionStore {
    type V = Seq<SessionView>;

    closed spec fn view(&self) -> Seq<SessionView> {
        self.sessions@.map_values(|s: model::Session| s@)
    }
}

impl SessionStore {
    /// Key uniqueness: generated keys are treated as collision-free, and the
    /// store refuses the negligible collision case on insert.
    pub open spec fn wf(&self) -> bool {
        forall|i: int, j: int|
            0 <= i < j < self@.len() ==> (#[trigger] self@[i]).key != (#[trigger] self@[j]).key
    }

    /// How many authoritative read queries have been answered.
    pub closed spec fn spec_lookups(&self) -> u64 {
        self.lookups
    }

    pub fn new() -> (r: Self)
        ensures
            r@ == Seq::<SessionView>::empty(),
            r.spec_lookups() == 0,
            r.wf(),
    {
        SessionStore { sessions: Vec::new(), lookups: 0 }
    }

    /// The read-query counter, observable for cache-behaviour checks.
    pub fn lookup_count(&self) -> (r: u64)
        ensures
            r == self.spec_lookups(),
    {
        self.lookups
    }

    /// How many session rows the store holds, expired and invalidated ones
    /// included: rows are never deleted, only filtered out on read.
    pub fn session_count(&self) -> (r: usize)
        ensures
            r == self@.len(),
    {
        self.sessions.len()
    }

    /// Inserts a freshly issued session row; refuses a duplicate key.
    pub fn create_session(
        &mut self,
        key: String,
        csrf: String,
        account: u128,
        identity: model::Identity,
        expiry: i64,
        now: i64,
    ) -> (r: Result<(), AuthError>)
        requires
            old(self).wf(),
        ensures
            final(self).wf(),
            final(self).spec_lookups() == old(self).spec_lookups(),
            if spec_find_session(old(self)@, key@) is Some {
                r == Err::<(), AuthError>(AuthError::PersistenceError) && final(self)@ == old(self)@
            } else {
                r == Ok::<(), AuthError>(()) && final(self)@ == old(self)@.push(
                    SessionView {
                        key: key@,
                        csrf: csrf@,
                        account,
                        identity: identity@,
                        expiry,
                        invalidated: false,
                        created_at: now,
                        updated_at: None,
                    },
                )
            },
    {
        let n = self.sessions.len();
        for i in 0..n
            invariant
                n == self.sessions.len(),
                self@ == old(self)@,
                self.spec_lookups() == old(self).spec_lookups(),
                self.wf(),
                forall|j: int| 0 <= j < i ==> (#[trigger] self@[j]).key != key@,
        {
            if str_eq(self.sessions[i].key.as_str(), key.as_str()) {
                proof {
                    lemma_spec_find_found(self@, |r: SessionView| r.key == key@, i as int);
                }
                return Err(AuthError::PersistenceError);
            }
        }
        proof {
            lemma_spec_find_none(self@, |r: SessionView| r.key == key@);
        }
        let ghost fresh = SessionView {
            key: key@,
            csrf: csrf@,
            account,
            identity: identity@,
            expiry,
            invalidated: false,
            created_at: now,
            updated_at: None,
        };
        let record = model::Session {
            key,
            csrf,
            account,
            identity,
            expiry,
            invalidated: false,
            created_at: now,
            updated_at: None,
        };
        self.sessions.push(record);
        proof {
            assert(self@ =~= old(self)@.push(fresh));
            assert forall|i: int, j: int| 0 <= i < j < self@.len() implies (#[trigger] self@[i]).key
                != (#[trigger] self@[j]).key by {
                if j < self@.len() - 1 {
                    assert(old(self)@[i] == self@[i] && old(self)@[j] == self@[j]);
                } else {
                    assert(old(self)@[i] == self@[i] && self@[j] == fresh);
                }
            }
        }
        Ok(())
    }

    /// The authoritative read: the row under `key` passing the validity
    /// predicate against `csrf` at time `now`.  Counts one read query.
    pub fn get_csrf_validated_session(&mut self, key: &str, csrf: &str, now: i64) -> (r: Option<
        model::Session,
    >)
        ensures
            final(self)@ == old(self)@,
            final(self).spec_lookups() == bump(old(self).spec_lookups()),
            match r {
                Some(rec) => spec_valid_lookup(old(self)@, key@, csrf@, now) == Some(rec@),
                None => spec_valid_lookup(old(self)@, key@, csrf@, now) is None,
            },
    {
        if self.lookups < u64::MAX {
            self.lookups = self.lookups + 1;
        }
        let n = self.sessions.len();
        for i in 0..n
            invariant
                n == self.sessions.len(),
                self@ == old(self)@,
                self.spec_lookups() == bump(old(self).spec_lookups()),
                forall|j: int| 0 <= j < i ==> (#[trigger] self@[j]).key != key@,
        {
            if str_eq(self.sessions[i].key.as_str(), key) {
                proof {
                    lemma_spec_find_found(self@, |r: SessionView| r.key == key@, i as int);
                }
                let row = &self.sessions[i];
                if str_eq(row.csrf.as_str(), csrf) && row.expiry > now && !row.invalidated {
                    return Some(row.clone_session());
                } else {
                    return None;
                }
            }
        }
        proof {
            lemma_spec_find_none(self@, |r: SessionView| r.key == key@);
        }
        None
    }

    /// The external revocation action: marks the row under `key` as
    /// invalidated.  Nothing else about the row changes, and the cache is
    /// deliberately not told (the documented staleness window).
    pub fn invalidate(&mut self, key: &str) -> (found: bool)
        requires
            old(self).wf(),
        ensures
            final(self).wf(),
            final(self).spec_lookups() == old(self).spec_lookups(),
            final(self)@.len() == old(self)@.len(),
            forall|j: int|
                0 <= j < old(self)@.len() && (#[trigger] old(self)@[j]).key != key@ ==> final(self)@[j] == old(self)@[j],
            forall|j: int|
                0 <= j < old(self)@.len() && (#[trigger] old(self)@[j]).key == key@ ==> final(self)@[j] == (SessionView { invalidated: true, ..old(self)@[j] }),
            found == (spec_find_session(old(self)@, key@) is Some),
    {
        let ghost pre = self@;
        let n = self.sessions.len();
        for i in 0..n
            invariant
                n == self.sessions.len(),
                self@ == pre,
                pre == old(self)@,
                self.wf(),
                self.spec_lookups() == old(self).spec_lookups(),
                forall|j: int| 0 <= j < i ==> (#[trigger] self@[j]).key != key@,
        {
            if str_eq(self.sessions[i].key.as_str(), key) {
                proof {
                    lemma_spec_find_found(pre, |r: SessionView| r.key == key@, i as int);
                }
                let ghost marked = SessionView { invalidated: true, ..pre[i as int] };
                let row = &mut self.sessions[i];
                row.invalidated = true;
                proof {
                    assert(self@ =~= pre.update(i as int, marked));
                    // Keys are unique, so the matched row is the only one.
                    assert forall|j: int|
                        0 <= j < pre.len() && (#[trigger] pre[j]).key == key@ implies self@[j]
                        == (SessionView { invalidated: true, ..pre[j] }) by {
                        if j != i {
                            assert(pre[i as int].key == pre[j].key);
                            assert(false);
                        }
                    }
                    assert forall|a: int, b: int| 0 <= a < b < self@.len() implies (
                    #[trigger] self@[a]).key != (#[trigger] self@[b]).key by {
                        assert(self@[a].key == pre[a].key && self@[b].key == pre[b].key);
                    }
                }
                return true;
            }
        }
        proof {
            lemma_spec_find_none(pre, |r: SessionView| r.key == key@);
        }
        false
    }
}

/// The join the session handle uses: the account that owns the session row
/// under `key`, whatever the row's validity.
pub fn get_account_by_session_key(
    accounts: &AccountStore,
    sessions: &SessionStore,
    key: &str,
) -> (r: Option<model::Account>)
    ensures
        match spec_find_session(sessions@, key@) {
            Some(rec) => match spec_find_account_by_id(accounts@, rec.account) {
                Some(a) => r matches Some(acc) && acc@ == a,
                None => r is None,
            },
            None => r is None,
        },
{
    let n = sessions.sessions.len();
    for i in 0..n
        invariant
            n == sessions.sessions.len(),
            forall|j: int| 0 <= j < i ==> (#[trigger] sessions@[j]).key != key@,
    {
        if str_eq(sessions.sessions[i].key.as_str(), key) {
            proof {
                lemma_spec_find_found(sessions@, |r: SessionView| r.key == key@, i as int);
            }
            let id = sessions.sessions[i].account;
            let m = accounts.accounts.len();
            for t in 0..m
                invariant
                    m == accounts.accounts.len(),
                    spec_find_session(sessions@, key@) matches Some(rec) && rec.account == id,
                    forall|j: int| 0 <= j < t ==> (#[trigger] accounts@[j]).id != id,
            {
                if accounts.accounts[t].id == id {
                    proof {
                        lemma_spec_find_found(accounts@, |a: AccountView| a.id == id, t as int);
                    }
                    return Some(accounts.accounts[t].clone_account());
                }
            }
            proof {
                lemma_spec_find_none(accounts@, |a: AccountView| a.id == id);
            }
            return None;
        }
    }
    proof {
        lemma_spec_find_none(sessions@, |r: SessionView| r.key == key@);
    }
    None
}

} // verus!
