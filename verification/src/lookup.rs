//! First-match search over sequences, shared by the account store, the
//! session store and the session cache.

use vstd::prelude::*;

verus! {

/// String-slice comparison with a contract over the views.
pub fn str_eq(a: &str, b: &str) -> (r: bool)
    ensures
        r == (a@ == b@),
{
    let sa = a.to_owned();
    let sb = b.to_owned();
    sa == sb
}

/// The first element of `s` satisfying `p`, if any.
pub open spec fn spec_find<T>(s: Seq<T>, p: spec_fn(T) -> bool) -> Option<T>
    decreases s.len(),
{
    if s.len() == 0 {
        None
    } else if p(s[0]) {
        Some(s[0])
    } else {
        spec_find(s.drop_first(), p)
    }
}

/// If `s[i]` is the first element satisfying `p`, `spec_find` returns it.
pub proof fn lemma_spec_find_found<T>(s: Seq<T>, p: spec_fn(T) -> bool, i: int)
    requires
        0 <= i < s.len(),
        p(s[i]),
        forall|j: int| 0 <= j < i ==> !p(#[trigger] s[j]),
    ensures
        spec_find(s, p) == Some(s[i]),
    decreases i,
{
    if i == 0 {
    } else {
        assert(!p(s[0]));
        lemma_spec_find_found(s.drop_first(), p, i - 1);
        assert(s.drop_first()[i - 1] == s[i]);
    }
}

/// If no element satisfies `p`, `spec_find` finds nothing.
pub proof fn lemma_spec_find_none<T>(s: Seq<T>, p: spec_fn(T) -> bool)
    requires
        forall|j: int| 0 <= j < s.len() ==> !p(#[trigger] s[j]),
    ensures
        spec_find(s, p) is None,
    decreases s.len(),
{
    if s.len() > 0 {
        lemma_spec_find_none(s.drop_first(), p);
    }
}

/// Overwriting a non-matching element with a non-matching one leaves the
/// first match unchanged.
pub proof fn lemma_spec_find_update<T>(s: Seq<T>, i: int, v: T, p: spec_fn(T) -> bool)
    requires
        0 <= i < s.len(),
        !p(s[i]),
        !p(v),
    ensures
        spec_find(s.update(i, v), p) == spec_find(s, p),
    decreases s.len(),
{
    let t = s.update(i, v);
    assert(t.len() == s.len());
    if i == 0 {
        assert(t[0] == v);
        assert(t.drop_first() =~= s.drop_first());
    } else {
        assert(t[0] == s[0]);
        if !p(s[0]) {
            assert(t.drop_first() =~= s.drop_first().update(i - 1, v));
            lemma_spec_find_update(s.drop_first(), i - 1, v, p);
        }
    }
}

/// Appending keeps an existing first match, and otherwise the appended
/// element is the only candidate.
pub proof fn lemma_spec_find_push<T>(s: Seq<T>, v: T, p: spec_fn(T) -> bool)
    ensures
        spec_find(s.push(v), p) == match spec_find(s, p) {
            Some(w) => Some(w),
            None => if p(v) {
                Some(v)
            } else {
                None
            },
        },
    decreases s.len(),
{
    let t = s.push(v);
    if s.len() == 0 {
        assert(t[0] == v);
        assert(t.drop_first() =~= Seq::<T>::empty());
    } else {
        assert(t[0] == s[0]);
        assert(t.drop_first() =~= s.drop_first().push(v));
        lemma_spec_find_push(s.drop_first(), v, p);
    }
}

/// What `spec_find` returns satisfies `p` and occurs in `s`.
pub proof fn lemma_spec_find_sound<T>(s: Seq<T>, p: spec_fn(T) -> bool)
    ensures
        match spec_find(s, p) {
            Some(v) => p(v) && s.contains(v),
            None => forall|j: int| 0 <= j < s.len() ==> !p(#[trigger] s[j]),
        },
    decreases s.len(),
{
    if s.len() > 0 {
        lemma_spec_find_sound(s.drop_first(), p);
        if !p(s[0]) {
            match spec_find(s.drop_first(), p) {
                Some(v) => {
                    assert(s.drop_first().contains(v));
                    let j = choose|j: int|
                        0 <= j < s.drop_first().len() && s.drop_first()[j] == v;
                    assert(s[j + 1] == v);
                },
                None => {
                    assert(forall|j: int|
                        1 <= j < s.len() ==> s.drop_first()[j - 1] == #[trigger] s[j]);
                },
            }
        }
    }
}

} // verus!
