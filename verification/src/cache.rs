//! The session cache: a get-or-create cache keyed by session identifier,
//! holding a validated session record copy with a bounded lifetime.  An entry
//! answers reads only while `now` lies before its absolute expiry.

use vstd::prelude::*;

use crate::model;

verus! {

use crate::lookup::{
    lemma_spec_find_found,
    lemma_spec_find_none,
    lemma_spec_find_push,
    lemma_spec_find_update,
    spec_find,
    str_eq,
};
use crate::model::SessionView;
use crate::spec_sat_add;
use crate::sat_add;
use crate::store::{bump, spec_valid_lookup, SessionStore};

/// One cached record with its absolute expiry time.
pub struct CacheEntryView {
    pub key: Seq<char>,
    pub value: SessionView,
    pub expires_at: i64,
}

struct CacheEntry {
    key: String,
    value: model::Session,
    expires_at: i64,
}

/// The cache entry under `key`, expired or not.
pub open spec fn spec_cache_find(s: Seq<CacheEntryView>, key: Seq<char>) -> Option<
    CacheEntryView,
> {
    spec_find(s, |e: CacheEntryView| e.key == key)
}

/// What a read at time `now` answers: the entry under `key`, only while its
/// expiry lies in the future.
pub open spec fn spec_cache_get(s: Seq<CacheEntryView>, key: Seq<char>, now: i64) -> Option<
    SessionView,
> {
    match spec_cache_find(s, key) {
        Some(e) => if now < e.expires_at {
            Some(e.value)
        } else {
            None
        },
        None => None,
    }
}

/// The session cache.  Keys are unique across live and expired entries.
pub struct SessionCache {
    entries: Vec<CacheEntry>,
}

impl View for SessionCache {
    type V = Seq<CacheEntryView>;

    closed spec fn view(&self) -> Seq<CacheEntryView> {
        self.entries@.map_values(
            |e: CacheEntry| CacheEntryView { key: e.key@, value: e.value@, expires_at: e.expires_at },
        )
    }
}

impl SessionCache {
    /// Key uniqueness across entries.
    pub open spec fn wf(&self) -> bool {
        forall|i: int, j: int|
            0 <= i < j < self@.len() ==> (#[trigger] self@[i]).key != (#[trigger] self@[j]).key
    }

    pub fn new() -> (r: Self)
        ensures
            r@ == Seq::<CacheEntryView>::empty(),
            r.wf(),
    {
        SessionCache { entries: Vec::new() }
    }

    /// A read at time `now`: the cached record under `key` while it has not
    /// expired, and nothing otherwise.
    pub fn get(&self, key: &str, now: i64) -> (r: Option<model::Session>)
        ensures
            match r {
                Some(v) => spec_cache_get(self@, key@, now) == Some(v@),
                None => spec_cache_get(self@, key@, now) is None,
            },
    {
        let n = self.entries.len();
        for i in 0..n
            invariant
                n == self.entries.len(),
                forall|j: int| 0 <= j < i ==> (#[trigger] self@[j]).key != key@,
        {
            if str_eq(self.entries[i].key.as_str(), key) {
                proof {
                    lemma_spec_find_found(self@, |e: CacheEntryView| e.key == key@, i as int);
                }
                let entry = &self.entries[i];
                if now < entry.expires_at {
                    return Some(entry.value.clone_session());
                } else {
                    return None;
                }
            }
        }
        proof {
            lemma_spec_find_none(self@, |e: CacheEntryView| e.key == key@);
        }
        None
    }

    /// A write with a bounded lifetime: stores `value` under `key`, replacing
    /// any previous entry, to expire `seconds` after `now`.
    pub fn set_ex(&mut self, key: String, value: model::Session, seconds: i64, now: i64)
        requires
            old(self).wf(),
            seconds >= 0,
        ensures
            final(self).wf(),
            spec_cache_find(final(self)@, key@) == Some(
                CacheEntryView {
                    key: key@,
                    value: value@,
                    expires_at: spec_sat_add(now as int, seconds as int) as i64,
                },
            ),
            forall|k: Seq<char>|
                k != key@ ==> #[trigger] spec_cache_find(final(self)@, k) == spec_cache_find(
                    old(self)@,
                    k,
                ),
    {
        let ghost pre = self@;
        let expires_at = sat_add(now, seconds);
        let ghost newv = CacheEntryView { key: key@, value: value@, expires_at };
        let n = self.entries.len();
        for i in 0..n
            invariant
                n == self.entries.len(),
                self@ == pre,
                pre == old(self)@,
                self.wf(),
                expires_at == spec_sat_add(now as int, seconds as int),
                newv == (CacheEntryView { key: key@, value: value@, expires_at }),
                forall|j: int| 0 <= j < i ==> (#[trigger] self@[j]).key != key@,
        {
            if str_eq(self.entries[i].key.as_str(), key.as_str()) {
                let entry = CacheEntry { key, value, expires_at };
                self.entries[i] = entry;
                proof {
                    assert(self@ =~= pre.update(i as int, newv));
                    assert forall|a: int, b: int| 0 <= a < b < self@.len() implies (
                    #[trigger] self@[a]).key != (#[trigger] self@[b]).key by {
                        assert(self@[a].key == pre[a].key && self@[b].key == pre[b].key);
                    }
                    lemma_spec_find_found(self@, |e: CacheEntryView| e.key == key@, i as int);
                    assert forall|k: Seq<char>| k != key@ implies #[trigger] spec_cache_find(
                        self@,
                        k,
                    ) == spec_cache_find(pre, k) by {
                        assert(!((pre[i as int]).key == k) && !(newv.key == k));
                        lemma_spec_find_update(pre, i as int, newv, |e: CacheEntryView| e.key == k);
                    }
                }
                return ;
            }
        }
        let entry = CacheEntry { key, value, expires_at };
        self.entries.push(entry);
        proof {
            assert(self@ =~= pre.push(newv));
            assert forall|a: int, b: int| 0 <= a < b < self@.len() implies (#[trigger] self@[a]).key
                != (#[trigger] self@[b]).key by {
                if b < self@.len() - 1 {
                    assert(pre[a] == self@[a] && pre[b] == self@[b]);
                } else {
                    assert(pre[a] == self@[a] && self@[b] == newv);
                }
            }
            lemma_spec_find_found(self@, |e: CacheEntryView| e.key == key@, pre.len() as int);
            assert forall|k: Seq<char>| k != key@ implies #[trigger] spec_cache_find(self@, k)
                == spec_cache_find(pre, k) by {
                lemma_spec_find_push(pre, newv, |e: CacheEntryView| e.key == k);
            }
        }
    }
}

/// The composed cache-aside read: answer from the cache when it can, and on
/// a miss ask the authoritative store, remembering its answer for the
/// record's remaining lifetime.  Nothing comes back only when the store
/// itself finds no valid row.
pub fn get_or_create(
    cache: &mut SessionCache,
    sessions: &mut SessionStore,
    key: &str,
    csrf: &str,
    now: i64,
) -> (r: Option<model::Session>)
    requires
        old(cache).wf(),
        now >= 0,
    ensures
        final(cache).wf(),
        final(sessions)@ == old(sessions)@,
        match spec_cache_get(old(cache)@, key@, now) {
            Some(v) => (r matches Some(s) && s@ == v) && final(cache)@ == old(cache)@
                && final(sessions).spec_lookups() == old(sessions).spec_lookups(),
            None => final(sessions).spec_lookups() == bump(old(sessions).spec_lookups())
                && match spec_valid_lookup(old(sessions)@, key@, csrf@, now) {
                Some(rec) => (r matches Some(s) && s@ == rec) && spec_cache_find(
                    final(cache)@,
                    key@,
                ) == Some(CacheEntryView { key: key@, value: rec, expires_at: rec.expiry }) && (
                forall|k: Seq<char>|
                    k != key@ ==> #[trigger] spec_cache_find(final(cache)@, k) == spec_cache_find(
                        old(cache)@,
                        k,
                    )),
                None => r is None && final(cache)@ == old(cache)@,
            },
        },
{
    match cache.get(key, now) {
        Some(rec) => Some(rec),
        None => {
            match sessions.get_csrf_validated_session(key, csrf, now) {
                Some(rec) => {
                    let ttl = rec.expiry - now;
                    let copy = rec.clone_session();
                    cache.set_ex(key.to_owned(), copy, ttl, now);
                    Some(rec)
                },
                None => None,
            }
        },
    }
}

} // verus!
