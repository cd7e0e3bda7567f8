//! A map keyed by text, kept as a vector strictly ordered by key.
//!
//! The ordering makes the representation canonical: two tables that map every key
//! alike hold the same entries in the same order, and iteration follows key order.
use vstd::prelude::*;

use crate::text::{
    compare_text, lemma_lex_asymmetric, lemma_lex_irreflexive, lemma_lex_total,
    lemma_lex_transitive, lex_le, lex_lt,
};

verus! {

/// A value that carries its own text key.
pub trait Keyed {
    spec fn key(&self) -> Seq<char>;

    fn key_text(&self) -> (k: &str)
        ensures
            k@ == self.key(),
    ;

    /// A copy of this value under the same key.
    fn duplicate(&self) -> (r: Self) where Self: std::marker::Sized
        ensures
            r.key() == self.key(),
    ;
}

impl Keyed for String {
    open spec fn key(&self) -> Seq<char> {
        self@
    }

    fn key_text(&self) -> (k: &str) {
        self.as_str()
    }

    fn duplicate(&self) -> (r: Self) {
        self.clone()
    }
}

/// Keys strictly increase along the sequence.
pub open spec fn keys_sorted<T: Keyed>(s: Seq<T>) -> bool {
    forall|i: int, j: int|
        0 <= i < j < s.len() ==> lex_lt(#[trigger] s[i].key(), #[trigger] s[j].key())
}

pub open spec fn has_key<T: Keyed>(s: Seq<T>, k: Seq<char>) -> bool {
    exists|i: int| 0 <= i < s.len() && #[trigger] s[i].key() == k
}

pub open spec fn index_of_key<T: Keyed>(s: Seq<T>, k: Seq<char>) -> int {
    choose|i: int| 0 <= i < s.len() && #[trigger] s[i].key() == k
}

/// The entry stored under `k`, if any.
pub open spec fn lookup<T: Keyed>(s: Seq<T>, k: Seq<char>) -> Option<T> {
    if has_key(s, k) {
        Some(s[index_of_key(s, k)])
    } else {
        None
    }
}

/// The keys present in `s`.
pub open spec fn key_set<T: Keyed>(s: Seq<T>) -> Set<Seq<char>> {
    Set::new(|k: Seq<char>| has_key(s, k))
}

/// In a sorted sequence a key sits at exactly one index.
pub proof fn lemma_sorted_unique<T: Keyed>(s: Seq<T>, i: int, j: int)
    requires
        keys_sorted(s),
        0 <= i < s.len(),
        0 <= j < s.len(),
        s[i].key() == s[j].key(),
    ensures
        i == j,
{
    if i < j {
        lemma_lex_irreflexive(s[i].key());
    } else if j < i {
        lemma_lex_irreflexive(s[i].key());
    }
}

/// `lookup` finds the entry at any index that holds the key.
pub proof fn lemma_lookup_at<T: Keyed>(s: Seq<T>, i: int)
    requires
        keys_sorted(s),
        0 <= i < s.len(),
    ensures
        has_key(s, s[i].key()),
        lookup(s, s[i].key()) == Some(s[i]),
{
    let k = s[i].key();
    assert(has_key(s, k));
    let j = index_of_key(s, k);
    lemma_sorted_unique(s, i, j);
}

/// Two sorted sequences that agree on every key are the same sequence.
pub proof fn lemma_canonical<T: Keyed>(s1: Seq<T>, s2: Seq<T>)
    requires
        keys_sorted(s1),
        keys_sorted(s2),
        forall|k: Seq<char>| #[trigger] lookup(s1, k) == lookup(s2, k),
    ensures
        s1 == s2,
    decreases s1.len() + s2.len(),
{
    if s1.len() == 0 {
        if s2.len() > 0 {
            lemma_lookup_at(s2, 0);
            assert(lookup(s1, s2[0].key()) == lookup(s2, s2[0].key()));
        }
        assert(s1 =~= s2);
    } else if s2.len() == 0 {
        lemma_lookup_at(s1, 0);
        assert(lookup(s1, s1[0].key()) == lookup(s2, s1[0].key()));
    } else {
        let a = s1[0];
        let b = s2[0];
        lemma_lookup_at(s1, 0);
        lemma_lookup_at(s2, 0);
        assert(lookup(s1, a.key()) == lookup(s2, a.key()));
        assert(lookup(s1, b.key()) == lookup(s2, b.key()));
        let ia = index_of_key(s2, a.key());
        let ib = index_of_key(s1, b.key());
        assert(s2[ia].key() == a.key());
        assert(s1[ib].key() == b.key());
        if ia > 0 {
            assert(lex_lt(b.key(), a.key()));
            if ib > 0 {
                assert(lex_lt(a.key(), b.key()));
                lemma_lex_asymmetric(a.key(), b.key());
            }
        }
        if ia == 0 {
            assert(a == b);
        } else {
            assert(ib == 0);
            assert(a == b);
        }
        let t1 = s1.drop_first();
        let t2 = s2.drop_first();
        assert forall|k: Seq<char>| #[trigger] lookup(t1, k) == lookup(t2, k) by {
            lemma_lookup_drop_first(s1, k);
            lemma_lookup_drop_first(s2, k);
            assert(lookup(s1, k) == lookup(s2, k));
        }
        lemma_canonical(t1, t2);
        assert(s1 =~= seq![a] + t1);
        assert(s2 =~= seq![b] + t2);
    }
}

/// Two sorted sequences holding the same keys hold them in the same order.
pub proof fn lemma_canonical_keys<T: Keyed>(s1: Seq<T>, s2: Seq<T>)
    requires
        keys_sorted(s1),
        keys_sorted(s2),
        forall|k: Seq<char>| #[trigger] has_key(s1, k) == has_key(s2, k),
    ensures
        s1.map_values(|t: T| t.key()) == s2.map_values(|t: T| t.key()),
    decreases s1.len() + s2.len(),
{
    if s1.len() == 0 {
        if s2.len() > 0 {
            assert(has_key(s2, s2[0].key()));
            assert(has_key(s1, s2[0].key()));
            assert(false);
        }
        assert(s1.map_values(|t: T| t.key()).len() == 0);
        assert(s2.map_values(|t: T| t.key()).len() == 0);
        assert(s1.map_values(|t: T| t.key()) =~= s2.map_values(|t: T| t.key()));
    } else if s2.len() == 0 {
        assert(has_key(s1, s1[0].key()));
        assert(has_key(s2, s1[0].key()));
    } else {
        let a = s1[0].key();
        let b = s2[0].key();
        assert(has_key(s1, a));
        assert(has_key(s1, b) == has_key(s2, b));
        assert(has_key(s2, b));
        let ia = choose|i: int| 0 <= i < s2.len() && #[trigger] s2[i].key() == a;
        let ib = choose|i: int| 0 <= i < s1.len() && #[trigger] s1[i].key() == b;
        if ia > 0 && ib > 0 {
            lemma_lex_asymmetric(a, b);
        }
        assert(a == b);
        let t1 = s1.drop_first();
        let t2 = s2.drop_first();
        assert forall|k: Seq<char>| #[trigger] has_key(t1, k) == has_key(t2, k) by {
            lemma_lookup_drop_first(s1, k);
            lemma_lookup_drop_first(s2, k);
            assert(has_key(s1, k) == (lookup(s1, k) is Some));
            assert(has_key(s2, k) == (lookup(s2, k) is Some));
            assert(has_key(t1, k) == (lookup(t1, k) is Some));
            assert(has_key(t2, k) == (lookup(t2, k) is Some));
        }
        lemma_lookup_drop_first(s1, a);
        lemma_lookup_drop_first(s2, a);
        lemma_canonical_keys(t1, t2);
        assert(s1.map_values(|t: T| t.key()) =~= seq![a] + t1.map_values(|t: T| t.key()));
        assert(s2.map_values(|t: T| t.key()) =~= seq![b] + t2.map_values(|t: T| t.key()));
    }
}

proof fn lemma_lookup_drop_first<T: Keyed>(s: Seq<T>, k: Seq<char>)
    requires
        keys_sorted(s),
        s.len() > 0,
    ensures
        keys_sorted(s.drop_first()),
        lookup(s.drop_first(), k) == if k == s[0].key() {
            None
        } else {
            lookup(s, k)
        },
{
    let t = s.drop_first();
    assert forall|i: int, j: int| 0 <= i < j < t.len() implies lex_lt(
        #[trigger] t[i].key(),
        #[trigger] t[j].key(),
    ) by {
        assert(t[i] == s[i + 1]);
        assert(t[j] == s[j + 1]);
    }
    if k == s[0].key() {
        if has_key(t, k) {
            let i = index_of_key(t, k);
            assert(t[i] == s[i + 1]);
            lemma_sorted_unique(s, 0, i + 1);
        }
    } else {
        if has_key(s, k) {
            let i = index_of_key(s, k);
            assert(i != 0);
            assert(t[i - 1] == s[i]);
            assert(has_key(t, k));
            let j = index_of_key(t, k);
            assert(t[j] == s[j + 1]);
            lemma_sorted_unique(s, i, j + 1);
        } else {
            if has_key(t, k) {
                let j = index_of_key(t, k);
                assert(t[j] == s[j + 1]);
            }
        }
    }
}

/// Inserting `x` at position `p` keeps a sorted sequence sorted when `p` is the
/// place of `x.key()` among the keys.
proof fn lemma_insert_sorted<T: Keyed>(s: Seq<T>, p: int, x: T)
    requires
        keys_sorted(s),
        0 <= p <= s.len(),
        forall|i: int| 0 <= i < p ==> lex_lt(#[trigger] s[i].key(), x.key()),
        forall|i: int| p <= i < s.len() ==> lex_lt(x.key(), #[trigger] s[i].key()),
    ensures
        keys_sorted(s.insert(p, x)),
        forall|k: Seq<char>| #[trigger]
            lookup(s.insert(p, x), k) == if k == x.key() {
                Some(x)
            } else {
                lookup(s, k)
            },
{
    let t = s.insert(p, x);
    assert forall|i: int, j: int| 0 <= i < j < t.len() implies lex_lt(
        #[trigger] t[i].key(),
        #[trigger] t[j].key(),
    ) by {
        if j < p {
        } else if j == p {
        } else if i < p {
            assert(t[j] == s[j - 1]);
            lemma_lex_transitive(t[i].key(), x.key(), t[j].key());
        } else if i == p {
            assert(t[j] == s[j - 1]);
        } else {
            assert(t[i] == s[i - 1]);
            assert(t[j] == s[j - 1]);
        }
    }
    assert forall|k: Seq<char>| #[trigger]
        lookup(t, k) == if k == x.key() {
            Some(x)
        } else {
            lookup(s, k)
        } by {
        assert(t[p] == x);
        if k == x.key() {
            lemma_lookup_at(t, p);
        } else if has_key(s, k) {
            let i = index_of_key(s, k);
            let ti = if i < p {
                i
            } else {
                i + 1
            };
            assert(t[ti] == s[i]);
            lemma_lookup_at(t, ti);
            lemma_lookup_at(s, i);
        } else {
            if has_key(t, k) {
                let j = index_of_key(t, k);
                if j < p {
                    assert(t[j] == s[j]);
                } else if j > p {
                    assert(t[j] == s[j - 1]);
                }
            }
        }
    }
}

proof fn lemma_update_sorted<T: Keyed>(s: Seq<T>, p: int, x: T)
    requires
        keys_sorted(s),
        0 <= p < s.len(),
        s[p].key() == x.key(),
    ensures
        keys_sorted(s.update(p, x)),
        forall|k: Seq<char>| #[trigger]
            lookup(s.update(p, x), k) == if k == x.key() {
                Some(x)
            } else {
                lookup(s, k)
            },
{
    let t = s.update(p, x);
    assert forall|i: int, j: int| 0 <= i < j < t.len() implies lex_lt(
        #[trigger] t[i].key(),
        #[trigger] t[j].key(),
    ) by {
        assert(t[i].key() == s[i].key());
        assert(t[j].key() == s[j].key());
    }
    assert forall|k: Seq<char>| #[trigger]
        lookup(t, k) == if k == x.key() {
            Some(x)
        } else {
            lookup(s, k)
        } by {
        if k == x.key() {
            lemma_lookup_at(t, p);
        } else if has_key(s, k) {
            let i = index_of_key(s, k);
            assert(t[i] == s[i]);
            lemma_lookup_at(t, i);
            lemma_lookup_at(s, i);
        } else if has_key(t, k) {
            let j = index_of_key(t, k);
            assert(t[j] == s[j]);
        }
    }
}

proof fn lemma_remove_sorted<T: Keyed>(s: Seq<T>, p: int)
    requires
        keys_sorted(s),
        0 <= p < s.len(),
    ensures
        keys_sorted(s.remove(p)),
        forall|k: Seq<char>| #[trigger]
            lookup(s.remove(p), k) == if k == s[p].key() {
                None
            } else {
                lookup(s, k)
            },
{
    let t = s.remove(p);
    assert forall|i: int, j: int| 0 <= i < j < t.len() implies lex_lt(
        #[trigger] t[i].key(),
        #[trigger] t[j].key(),
    ) by {
        let si = if i < p {
            i
        } else {
            i + 1
        };
        let sj = if j < p {
            j
        } else {
            j + 1
        };
        assert(t[i] == s[si]);
        assert(t[j] == s[sj]);
    }
    assert forall|k: Seq<char>| #[trigger]
        lookup(t, k) == if k == s[p].key() {
            None
        } else {
            lookup(s, k)
        } by {
        if has_key(t, k) {
            let j = index_of_key(t, k);
            let sj = if j < p {
                j
            } else {
                j + 1
            };
            assert(t[j] == s[sj]);
            lemma_lookup_at(t, j);
            lemma_lookup_at(s, sj);
            if k == s[p].key() {
                lemma_sorted_unique(s, p, sj);
            }
        } else if k != s[p].key() && has_key(s, k) {
            let i = index_of_key(s, k);
            assert(i != p);
            let ti = if i < p {
                i
            } else {
                i - 1
            };
            assert(t[ti] == s[i]);
        }
    }
}

/// `s` with `x` placed after every element whose key is not above `x.key()`
/// counted from the back: the insertion step of a stable insertion sort.
pub open spec fn insert_by<A>(s: Seq<A>, x: A, key: spec_fn(A) -> Seq<char>) -> Seq<A>
    decreases s.len(),
{
    if s.len() == 0 {
        seq![x]
    } else if lex_lt(key(x), key(s.last())) {
        insert_by(s.drop_last(), x, key).push(s.last())
    } else {
        s.push(x)
    }
}

/// `s` stably sorted by `key`: elements with equal keys keep their order.
pub open spec fn sort_by<A>(s: Seq<A>, key: spec_fn(A) -> Seq<char>) -> Seq<A>
    decreases s.len(),
{
    if s.len() == 0 {
        s
    } else {
        insert_by(sort_by(s.drop_last(), key), s.last(), key)
    }
}

/// Keys never decrease along `s`.
pub open spec fn ascending_by<A>(s: Seq<A>, key: spec_fn(A) -> Seq<char>) -> bool {
    forall|i: int, j: int| 0 <= i < j < s.len() ==> lex_le(key(#[trigger] s[i]), key(#[trigger] s[j]))
}

proof fn lemma_insert_by_at<A>(s: Seq<A>, x: A, key: spec_fn(A) -> Seq<char>, p: int)
    requires
        0 <= p <= s.len(),
        forall|j: int| p <= j < s.len() ==> lex_lt(key(x), key(#[trigger] s[j])),
        p > 0 ==> !lex_lt(key(x), key(s[p - 1])),
    ensures
        insert_by(s, x, key) == s.insert(p, x),
    decreases s.len(),
{
    if s.len() == 0 {
        assert(s.insert(p, x) =~= seq![x]);
    } else if p == s.len() {
        assert(s.insert(p, x) =~= s.push(x));
    } else {
        assert(lex_lt(key(x), key(s.last())));
        let t = s.drop_last();
        assert forall|j: int| p <= j < t.len() implies lex_lt(key(x), key(#[trigger] t[j])) by {
            assert(t[j] == s[j]);
        }
        if p > 0 {
            assert(t[p - 1] == s[p - 1]);
        }
        lemma_insert_by_at(t, x, key, p);
        assert(t.insert(p, x).push(s.last()) =~= s.insert(p, x));
    }
}

/// Inserting keeps the multiset of elements and adds `x`.
pub proof fn lemma_insert_by_multiset<A>(s: Seq<A>, x: A, key: spec_fn(A) -> Seq<char>)
    ensures
        insert_by(s, x, key).to_multiset() == s.to_multiset().insert(x),
    decreases s.len(),
{
    broadcast use vstd::seq_lib::group_to_multiset_ensures;

    if s.len() > 0 {
        if lex_lt(key(x), key(s.last())) {
            lemma_insert_by_multiset(s.drop_last(), x, key);
            assert(s =~= s.drop_last().push(s.last()));
            assert(s.drop_last().to_multiset().insert(x).insert(s.last()) =~= s.drop_last().to_multiset().insert(
                s.last(),
            ).insert(x));
        }
    }
}

/// Sorting permutes: it keeps the multiset of elements.
pub proof fn lemma_sort_by_multiset<A>(s: Seq<A>, key: spec_fn(A) -> Seq<char>)
    ensures
        sort_by(s, key).to_multiset() == s.to_multiset(),
    decreases s.len(),
{
    broadcast use vstd::seq_lib::group_to_multiset_ensures;

    if s.len() > 0 {
        lemma_sort_by_multiset(s.drop_last(), key);
        lemma_insert_by_multiset(sort_by(s.drop_last(), key), s.last(), key);
        assert(s =~= s.drop_last().push(s.last()));
    }
}

proof fn lemma_insert_by_bounded<A>(s: Seq<A>, x: A, key: spec_fn(A) -> Seq<char>, b: Seq<char>)
    requires
        forall|j: int| 0 <= j < s.len() ==> lex_le(key(#[trigger] s[j]), b),
        lex_le(key(x), b),
    ensures
        forall|j: int|
            0 <= j < insert_by(s, x, key).len() ==> lex_le(key(#[trigger] insert_by(s, x, key)[j]), b),
        insert_by(s, x, key).len() == s.len() + 1,
    decreases s.len(),
{
    if s.len() > 0 {
        let t = s.drop_last();
        assert forall|j: int| 0 <= j < t.len() implies lex_le(key(#[trigger] t[j]), b) by {
            assert(t[j] == s[j]);
        }
        lemma_insert_by_bounded(t, x, key, b);
        assert(lex_le(key(s[s.len() - 1]), b));
    }
}

proof fn lemma_insert_by_ascending<A>(s: Seq<A>, x: A, key: spec_fn(A) -> Seq<char>)
    requires
        ascending_by(s, key),
    ensures
        ascending_by(insert_by(s, x, key), key),
        insert_by(s, x, key).len() == s.len() + 1,
    decreases s.len(),
{
    if s.len() > 0 {
        if lex_lt(key(x), key(s.last())) {
            let t = s.drop_last();
            assert forall|i: int, j: int| 0 <= i < j < t.len() implies lex_le(
                key(#[trigger] t[i]),
                key(#[trigger] t[j]),
            ) by {
                assert(t[i] == s[i]);
                assert(t[j] == s[j]);
            }
            lemma_insert_by_ascending(t, x, key);
            let u = insert_by(t, x, key);
            assert forall|k: int| 0 <= k < t.len() implies lex_le(key(#[trigger] t[k]), key(s.last())) by {
                assert(t[k] == s[k]);
                assert(lex_le(key(s[k]), key(s[s.len() - 1])));
            }
            lemma_insert_by_bounded(t, x, key, key(s.last()));
            let w = u.push(s.last());
            assert forall|i: int, j: int| 0 <= i < j < w.len() implies lex_le(
                key(#[trigger] w[i]),
                key(#[trigger] w[j]),
            ) by {
                if j == w.len() - 1 {
                    assert(w[i] == u[i]);
                    assert(lex_le(key(u[i]), key(s.last())));
                    assert(w[j] == s.last());
                } else {
                    assert(w[i] == u[i]);
                    assert(w[j] == u[j]);
                }
            }
        } else {
            let w = s.push(x);
            assert forall|i: int, j: int| 0 <= i < j < w.len() implies lex_le(
                key(#[trigger] w[i]),
                key(#[trigger] w[j]),
            ) by {
                if j == w.len() - 1 {
                    assert(w[i] == s[i]);
                    lemma_lex_total(key(x), key(s.last()));
                    if i < s.len() - 1 {
                        assert(lex_le(key(s[i]), key(s[s.len() - 1])));
                        if lex_lt(key(s[i]), key(s.last())) && lex_lt(key(s.last()), key(x)) {
                            lemma_lex_transitive(key(s[i]), key(s.last()), key(x));
                        }
                    }
                } else {
                    assert(w[i] == s[i]);
                    assert(w[j] == s[j]);
                }
            }
        }
    }
}

/// A sorted sequence has keys that never decrease.
pub proof fn lemma_sort_by_ascending<A>(s: Seq<A>, key: spec_fn(A) -> Seq<char>)
    ensures
        ascending_by(sort_by(s, key), key),
        sort_by(s, key).len() == s.len(),
    decreases s.len(),
{
    if s.len() > 0 {
        lemma_sort_by_ascending(s.drop_last(), key);
        lemma_insert_by_ascending(sort_by(s.drop_last(), key), s.last(), key);
    }
}

/// Sorting commutes with a map that keeps keys.
pub proof fn lemma_sort_by_map<A, B>(
    s: Seq<A>,
    f: spec_fn(A) -> B,
    ka: spec_fn(A) -> Seq<char>,
    kb: spec_fn(B) -> Seq<char>,
)
    requires
        forall|a: A| #[trigger] kb(f(a)) == ka(a),
    ensures
        sort_by(s, ka).map_values(f) == sort_by(s.map_values(f), kb),
    decreases s.len(),
{
    if s.len() > 0 {
        lemma_sort_by_map(s.drop_last(), f, ka, kb);
        assert(s.map_values(f).drop_last() =~= s.drop_last().map_values(f));
        lemma_insert_by_map(sort_by(s.drop_last(), ka), s.last(), f, ka, kb);
    } else {
        assert(sort_by(s, ka).map_values(f) =~= sort_by(s.map_values(f), kb));
    }
}

proof fn lemma_insert_by_map<A, B>(
    s: Seq<A>,
    x: A,
    f: spec_fn(A) -> B,
    ka: spec_fn(A) -> Seq<char>,
    kb: spec_fn(B) -> Seq<char>,
)
    requires
        forall|a: A| #[trigger] kb(f(a)) == ka(a),
    ensures
        insert_by(s, x, ka).map_values(f) == insert_by(s.map_values(f), f(x), kb),
    decreases s.len(),
{
    assert(kb(f(x)) == ka(x));
    if s.len() == 0 {
        assert(insert_by(s, x, ka).map_values(f) =~= seq![f(x)]);
    } else {
        assert(kb(f(s.last())) == ka(s.last()));
        assert(s.map_values(f).last() == f(s.last()));
        assert(s.map_values(f).drop_last() =~= s.drop_last().map_values(f));
        if lex_lt(ka(x), ka(s.last())) {
            lemma_insert_by_map(s.drop_last(), x, f, ka, kb);
            assert(insert_by(s.drop_last(), x, ka).push(s.last()).map_values(f) =~= insert_by(
                s.drop_last(),
                x,
                ka,
            ).map_values(f).push(f(s.last())));
        } else {
            assert(s.push(x).map_values(f) =~= s.map_values(f).push(f(x)));
        }
    }
}

/// The key of a keyed value, as a function.
pub open spec fn key_fn<T: Keyed>() -> spec_fn(T) -> Seq<char> {
    |t: T| t.key()
}

fn insert_in_order<T: Keyed>(v: &mut Vec<T>, x: T)
    ensures
        final(v)@ == insert_by(old(v)@, x, key_fn::<T>()),
{
    let mut p: usize = v.len();
    while p > 0 && compare_text(x.key_text(), v[p - 1].key_text()) < 0
        invariant
            0 <= p <= v@.len(),
            forall|j: int| p <= j < v@.len() ==> lex_lt(x.key(), #[trigger] v@[j].key()),
        decreases p,
    {
        p = p - 1;
    }
    proof {
        lemma_insert_by_at(v@, x, key_fn::<T>(), p as int);
    }
    v.insert(p, x);
}

/// `v` stably sorted by key.
pub fn sort_by_key<T: Keyed>(v: Vec<T>) -> (r: Vec<T>)
    ensures
        r@ == sort_by(v@, key_fn::<T>()),
{
    let ghost g = v@;
    let n = v.len();
    let mut rest = v;
    let mut out: Vec<T> = Vec::new();
    let mut i: usize = 0;
    assert(rest@ =~= g.skip(0));
    assert(g.take(0) =~= Seq::<T>::empty());
    while i < n
        invariant
            0 <= i <= n,
            n == g.len(),
            rest@ == g.skip(i as int),
            out@ == sort_by(g.take(i as int), key_fn::<T>()),
        decreases n - i,
    {
        let x = rest.remove(0);
        insert_in_order(&mut out, x);
        proof {
            assert(g.take(i + 1).drop_last() =~= g.take(i as int));
            assert(g.take(i + 1).last() == g[i as int]);
            assert(rest@ =~= g.skip(i + 1));
        }
        i = i + 1;
    }
    assert(g.take(n as int) =~= g);
    out
}

/// A table of keyed entries, strictly ordered by key.
#[derive(Debug, PartialEq, Eq)]
pub struct KeyedTable<T: Keyed> {
    entries: Vec<T>,
}

impl<T: Keyed> KeyedTable<T> {
    #[verifier::type_invariant]
    pub closed spec fn sorted(self) -> bool {
        keys_sorted(self.entries@)
    }

    /// The entries, in key order.
    pub closed spec fn entries(self) -> Seq<T> {
        self.entries@
    }

    pub open spec fn spec_lookup(self, k: Seq<char>) -> Option<T> {
        lookup(self.entries(), k)
    }

    pub open spec fn spec_has(self, k: Seq<char>) -> bool {
        has_key(self.entries(), k)
    }

    pub open spec fn spec_keys(self) -> Set<Seq<char>> {
        key_set(self.entries())
    }

    pub proof fn lemma_sorted(self)
        requires
            self.sorted(),
        ensures
            keys_sorted(self.entries()),
    {
    }

    pub fn new() -> (t: Self)
        ensures
            t.entries() == Seq::<T>::empty(),
    {
        KeyedTable { entries: Vec::new() }
    }

    pub fn len(&self) -> (n: usize)
        ensures
            n == self.entries().len(),
    {
        self.entries.len()
    }

    pub fn is_empty(&self) -> (b: bool)
        ensures
            b == (self.entries().len() == 0),
    {
        self.entries.len() == 0
    }

    /// The entries in key order.
    pub fn as_vec(&self) -> (v: &Vec<T>)
        ensures
            v@ == self.entries(),
    {
        &self.entries
    }

    /// A copy of the table whose entries are copies under the same keys.
    pub fn duplicate_table(&self) -> (r: Self)
        ensures
            r.entries().len() == self.entries().len(),
            forall|i: int|
                0 <= i < self.entries().len() ==> (#[trigger] r.entries()[i]).key()
                    == self.entries()[i].key(),
    {
        proof {
            use_type_invariant(self);
        }
        let mut v: Vec<T> = Vec::new();
        let mut i: usize = 0;
        while i < self.entries.len()
            invariant
                0 <= i <= self.entries@.len(),
                keys_sorted(self.entries@),
                v@.len() == i,
                forall|j: int| 0 <= j < i ==> (#[trigger] v@[j]).key() == self.entries@[j].key(),
            decreases self.entries@.len() - i,
        {
            v.push(self.entries[i].duplicate());
            i = i + 1;
        }
        assert(keys_sorted(v@)) by {
            assert forall|a: int, b: int| 0 <= a < b < v@.len() implies lex_lt(
                #[trigger] v@[a].key(),
                #[trigger] v@[b].key(),
            ) by {
                assert(v@[a].key() == self.entries@[a].key());
                assert(v@[b].key() == self.entries@[b].key());
            }
        }
        KeyedTable { entries: v }
    }

    /// The first index whose key is not below `k`, and whether that key is `k`.
    fn locate(&self, k: &str) -> (r: (usize, bool))
        ensures
            r.0 <= self.entries().len(),
            forall|i: int| 0 <= i < r.0 ==> lex_lt(#[trigger] self.entries()[i].key(), k@),
            forall|i: int|
                r.0 <= i < self.entries().len() ==> lex_lt(k@, #[trigger] self.entries()[i].key())
                    || i == r.0 && r.1,
            r.1 ==> r.0 < self.entries().len() && self.entries()[r.0 as int].key() == k@,
            r.1 == self.spec_has(k@),
    {
        proof {
            use_type_invariant(self);
        }
        let mut i: usize = 0;
        while i < self.entries.len()
            invariant
                0 <= i <= self.entries@.len(),
                keys_sorted(self.entries@),
                forall|j: int| 0 <= j < i ==> lex_lt(#[trigger] self.entries@[j].key(), k@),
            decreases self.entries@.len() - i,
        {
            let c = compare_text(self.entries[i].key_text(), k);
            if c >= 0 {
                proof {
                    assert forall|j: int| i <= j < self.entries@.len() implies lex_lt(
                        k@,
                        #[trigger] self.entries@[j].key(),
                    ) || j == i && c == 0 by {
                        if j > i {
                            if c == 0 {
                                assert(lex_lt(self.entries@[i as int].key(), self.entries@[j].key()));
                            } else {
                                lemma_lex_transitive(
                                    k@,
                                    self.entries@[i as int].key(),
                                    self.entries@[j].key(),
                                );
                            }
                        }
                    }
                    if c == 0 {
                        assert(self.entries@[i as int].key() == k@);
                    } else if has_key(self.entries@, k@) {
                        lemma_lex_irreflexive(k@);
                    }
                }
                return (i, c == 0);
            }
            i = i + 1;
        }
        proof {
            lemma_lex_irreflexive(k@);
        }
        (i, false)
    }

    /// The entry under `k`.
    pub fn get(&self, k: &str) -> (r: Option<&T>)
        ensures
            r matches Some(x) ==> self.spec_lookup(k@) == Some(*x),
            r is None ==> self.spec_lookup(k@) is None,
    {
        let (i, found) = self.locate(k);
        if found {
            proof {
                use_type_invariant(self);
                lemma_lookup_at(self.entries@, i as int);
            }
            Some(&self.entries[i])
        } else {
            None
        }
    }

    pub fn contains_key(&self, k: &str) -> (b: bool)
        ensures
            b == self.spec_has(k@),
    {
        let (_, found) = self.locate(k);
        found
    }

    /// Stores `x` under its key and gives back the entry it replaced.
    pub fn insert(&mut self, x: T) -> (replaced: Option<T>)
        ensures
            replaced == old(self).spec_lookup(x.key()),
            forall|k: Seq<char>| #[trigger]
                final(self).spec_lookup(k) == if k == x.key() {
                    Some(x)
                } else {
                    old(self).spec_lookup(k)
                },
            final(self).entries().len() == old(self).entries().len() + if old(self).spec_has(
                x.key(),
            ) {
                0int
            } else {
                1int
            },
    {
        proof {
            use_type_invariant(&*self);
        }
        let (i, found) = self.locate(x.key_text());
        let ghost before = self.entries@;
        if found {
            proof {
                lemma_lookup_at(before, i as int);
                lemma_update_sorted(before, i as int, x);
            }
            let mut v: Vec<T> = Vec::new();
            std::mem::swap(&mut v, &mut self.entries);
            let old_entry = v.remove(i);
            v.insert(i, x);
            proof {
                assert(v@ =~= before.update(i as int, x));
            }
            self.entries = v;
            Some(old_entry)
        } else {
            proof {
                lemma_insert_sorted(before, i as int, x);
            }
            let mut v: Vec<T> = Vec::new();
            std::mem::swap(&mut v, &mut self.entries);
            v.insert(i, x);
            self.entries = v;
            None
        }
    }

    /// Removes the entry under `k` and gives it back.
    pub fn remove(&mut self, k: &str) -> (removed: Option<T>)
        ensures
            removed == old(self).spec_lookup(k@),
            forall|q: Seq<char>| #[trigger]
                final(self).spec_lookup(q) == if q == k@ {
                    None
                } else {
                    old(self).spec_lookup(q)
                },
            final(self).entries().len() == old(self).entries().len() - if old(self).spec_has(
                k@,
            ) {
                1int
            } else {
                0int
            },
    {
        proof {
            use_type_invariant(&*self);
        }
        let (i, found) = self.locate(k);
        let ghost before = self.entries@;
        if found {
            proof {
                lemma_lookup_at(before, i as int);
                lemma_remove_sorted(before, i as int);
            }
            let mut v: Vec<T> = Vec::new();
            std::mem::swap(&mut v, &mut self.entries);
            let old_entry = v.remove(i);
            self.entries = v;
            Some(old_entry)
        } else {
            proof {
                assert forall|q: Seq<char>| #[trigger]
                    self.spec_lookup(q) == if q == k@ {
                        None
                    } else {
                        old(self).spec_lookup(q)
                    } by {}
            }
            None
        }
    }
}

impl<T: Keyed> Clone for KeyedTable<T> {
    fn clone(&self) -> (r: Self) {
        self.duplicate_table()
    }
}

impl<T: Keyed> Default for KeyedTable<T> {
    fn default() -> (t: Self)
        ensures
            t.entries() == Seq::<T>::empty(),
    {
        KeyedTable::new()
    }
}

} // verus!
