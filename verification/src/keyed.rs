//! Records kept in a vector sorted by a text key, as an ordered map.
//!
//! Families, variants, and terminals are keyed by their identifier text. The
//! vector is kept strictly increasing in key order, so iteration visits keys in
//! `String` order and each key occurs at most once.
use vstd::prelude::*;

use crate::text::{chars_less, text_less};

verus! {

/// A record identified by a text key.
pub trait Keyed {
    /// The record's key.
    spec fn spec_key(&self) -> Seq<char>;

    /// The record's key, as characters.
    fn key_chars(&self) -> (r: Vec<char>)
        ensures
            r@ == self.spec_key(),
    ;
}

/// Keys strictly increase along `s` (so no key repeats).
pub open spec fn keys_sorted<T: Keyed>(s: Seq<T>) -> bool {
    forall|i: int, j: int|
        0 <= i < j < s.len() ==> text_less(#[trigger] s[i].spec_key(), #[trigger] s[j].spec_key())
}

/// Some record in `s` has key `k`.
pub open spec fn has_key<T: Keyed>(s: Seq<T>, k: Seq<char>) -> bool {
    exists|i: int| 0 <= i < s.len() && #[trigger] s[i].spec_key() == k
}

/// The first record in `s` with key `k`.
pub open spec fn lookup<T: Keyed>(s: Seq<T>, k: Seq<char>) -> Option<T>
    decreases s.len(),
{
    if s.len() == 0 {
        None
    } else if s[0].spec_key() == k {
        Some(s[0])
    } else {
        lookup(s.drop_first(), k)
    }
}

/// `text_less` never holds between equal texts.
pub proof fn lemma_text_less_irreflexive(a: Seq<char>)
    ensures
        !text_less(a, a),
    decreases a.len(),
{
    if a.len() > 0 {
        lemma_text_less_irreflexive(a.drop_first());
    }
}

/// `text_less` is transitive.
pub proof fn lemma_text_less_transitive(a: Seq<char>, b: Seq<char>, c: Seq<char>)
    requires
        text_less(a, b),
        text_less(b, c),
    ensures
        text_less(a, c),
    decreases a.len(),
{
    if a.len() > 0 && b.len() > 0 && c.len() > 0 && a[0] == b[0] && b[0] == c[0] {
        lemma_text_less_transitive(a.drop_first(), b.drop_first(), c.drop_first());
    }
}

/// Any two texts are equal or ordered one way.
pub proof fn lemma_text_less_total(a: Seq<char>, b: Seq<char>)
    ensures
        a == b || text_less(a, b) || text_less(b, a),
    decreases a.len(),
{
    if a.len() == 0 {
        if b.len() == 0 {
            assert(a =~= b);
        }
    } else if b.len() > 0 && a[0] != b[0] {
    } else if b.len() > 0 && a[0] == b[0] {
        lemma_text_less_total(a.drop_first(), b.drop_first());
        if a.drop_first() == b.drop_first() {
            assert(a.drop_first().len() == b.drop_first().len());
            assert(a.len() == b.len());
            assert(a =~= b) by {
                assert forall|i: int| 0 <= i < a.len() implies a[i] == b[i] by {
                    if i > 0 {
                        assert(a[i] == a.drop_first()[i - 1]);
                        assert(b[i] == b.drop_first()[i - 1]);
                    }
                }
            }
        }
    }
}

/// `lookup` finds the first index holding the key.
pub proof fn lemma_lookup_first<T: Keyed>(s: Seq<T>, k: Seq<char>, i: int)
    requires
        0 <= i < s.len(),
        s[i].spec_key() == k,
        forall|j: int| 0 <= j < i ==> (#[trigger] s[j]).spec_key() != k,
    ensures
        lookup(s, k) == Some(s[i]),
    decreases i,
{
    if i > 0 {
        assert(s[0].spec_key() != k);
        assert forall|j: int| 0 <= j < i - 1 implies (#[trigger] s.drop_first()[j]).spec_key()
            != k by {
            assert(s.drop_first()[j] == s[j + 1]);
        }
        lemma_lookup_first(s.drop_first(), k, i - 1);
    }
}

/// `lookup` finds nothing when no record has the key.
pub proof fn lemma_lookup_absent<T: Keyed>(s: Seq<T>, k: Seq<char>)
    requires
        !has_key(s, k),
    ensures
        lookup(s, k) is None,
    decreases s.len(),
{
    if s.len() > 0 {
        assert(s[0].spec_key() != k);
        assert(!has_key(s.drop_first(), k)) by {
            if has_key(s.drop_first(), k) {
                let j = choose|j: int|
                    0 <= j < s.drop_first().len() && #[trigger] s.drop_first()[j].spec_key() == k;
                assert(s[j + 1].spec_key() == k);
            }
        }
        lemma_lookup_absent(s.drop_first(), k);
    }
}

/// In a key-sorted sequence, the record with a key is the one `lookup` finds.
pub proof fn lemma_lookup_sorted<T: Keyed>(s: Seq<T>, i: int)
    requires
        keys_sorted(s),
        0 <= i < s.len(),
    ensures
        lookup(s, s[i].spec_key()) == Some(s[i]),
{
    assert forall|j: int| 0 <= j < i implies (#[trigger] s[j]).spec_key() != s[i].spec_key() by {
        assert(text_less(s[j].spec_key(), s[i].spec_key()));
        lemma_text_less_irreflexive(s[i].spec_key());
    }
    lemma_lookup_first(s, s[i].spec_key(), i);
}

/// What `lookup` returns on a key-sorted sequence.
pub proof fn lemma_lookup_cases<T: Keyed>(s: Seq<T>, k: Seq<char>)
    requires
        keys_sorted(s),
    ensures
        lookup(s, k) matches Some(x) ==> has_key(s, k) && x.spec_key() == k && exists|i: int|
            0 <= i < s.len() && s[i] == x,
        lookup(s, k) is None ==> !has_key(s, k),
{
    if has_key(s, k) {
        let i = choose|i: int| 0 <= i < s.len() && #[trigger] s[i].spec_key() == k;
        lemma_lookup_sorted(s, i);
    } else {
        lemma_lookup_absent(s, k);
    }
}

/// Equality of two character vectors.
pub fn chars_eq(a: &[char], b: &[char]) -> (r: bool)
    ensures
        r == (a@ == b@),
{
    if a.len() != b.len() {
        return false;
    }
    let mut i: usize = 0;
    while i < a.len()
        invariant
            a.len() == b.len(),
            i <= a.len(),
            forall|j: int| 0 <= j < i ==> a@[j] == b@[j],
        decreases a.len() - i,
    {
        if a[i] != b[i] {
            return false;
        }
        i = i + 1;
    }
    assert(a@ =~= b@);
    true
}

/// Index of the first record with key `key`.
pub fn find_key<T: Keyed>(v: &[T], key: &[char]) -> (r: Option<usize>)
    ensures
        match r {
            Some(i) => i < v@.len() && v@[i as int].spec_key() == key@ && lookup(v@, key@) == Some(
                v@[i as int],
            ),
            None => !has_key(v@, key@) && lookup(v@, key@) is None,
        },
{
    let mut i: usize = 0;
    while i < v.len()
        invariant
            i <= v@.len(),
            forall|j: int| 0 <= j < i ==> (#[trigger] v@[j]).spec_key() != key@,
        decreases v.len() - i,
    {
        let k = v[i].key_chars();
        if chars_eq(k.as_slice(), key) {
            proof {
                lemma_lookup_first(v@, key@, i as int);
            }
            return Some(i);
        }
        i = i + 1;
    }
    proof {
        lemma_lookup_absent(v@, key@);
    }
    None
}

/// Inserts `x`, replacing the record with the same key if there is one, and
/// keeps the keys sorted.
pub fn keyed_insert<T: Keyed>(v: &mut Vec<T>, x: T)
    requires
        keys_sorted(old(v)@),
    ensures
        keys_sorted(final(v)@),
        forall|k: Seq<char>|
            #[trigger] lookup(final(v)@, k) == if k == x.spec_key() {
                Some(x)
            } else {
                lookup(old(v)@, k)
            },
        final(v)@.len() == old(v)@.len() + if has_key(old(v)@, x.spec_key()) {
            0int
        } else {
            1int
        },
{
    let ghost s = v@;
    let ghost xk = x.spec_key();
    let key = x.key_chars();
    let mut p: usize = 0;
    while p < v.len() && chars_less(v[p].key_chars().as_slice(), key.as_slice())
        invariant
            p <= v@.len(),
            v@ == s,
            key@ == xk,
            forall|j: int| 0 <= j < p ==> text_less((#[trigger] s[j]).spec_key(), xk),
        decreases v.len() - p,
    {
        p = p + 1;
    }
    proof {
        lemma_text_less_irreflexive(xk);
    }
    let same = p < v.len() && chars_eq(v[p].key_chars().as_slice(), key.as_slice());
    if same {
        v.set(p, x);
        proof {
            let n = v@;
            assert(n == s.update(p as int, x));
            assert forall|i: int, j: int| 0 <= i < j < n.len() implies text_less(
                #[trigger] n[i].spec_key(),
                #[trigger] n[j].spec_key(),
            ) by {
                assert(text_less(s[i].spec_key(), s[j].spec_key()));
            }
            assert(has_key(s, xk)) by {
                assert(s[p as int].spec_key() == xk);
            }
            assert forall|k: Seq<char>| #[trigger]
                lookup(n, k) == if k == xk {
                    Some(x)
                } else {
                    lookup(s, k)
                } by {
                lemma_lookup_cases(s, k);
                lemma_lookup_cases(n, k);
                if k == xk {
                    lemma_lookup_sorted(n, p as int);
                } else if has_key(s, k) {
                    let i = choose|i: int| 0 <= i < s.len() && #[trigger] s[i].spec_key() == k;
                    assert(i != p);
                    assert(n[i] == s[i]);
                    lemma_lookup_sorted(s, i);
                    lemma_lookup_sorted(n, i);
                } else {
                    assert(!has_key(n, k)) by {
                        if has_key(n, k) {
                            let i = choose|i: int| 0 <= i < n.len() && #[trigger] n[i].spec_key() == k;
                            if i != p {
                                assert(s[i] == n[i]);
                            }
                        }
                    }
                    lemma_lookup_absent(n, k);
                }
            }
        }
    } else {
        proof {
            if p < s.len() {
                lemma_text_less_total(s[p as int].spec_key(), xk);
            }
        }
        v.insert(p, x);
        proof {
            let n = v@;
            assert(n == s.insert(p as int, x));
            assert forall|j: int| p < j < n.len() implies text_less(xk, (#[trigger] n[j]).spec_key()) by {
                assert(n[j] == s[j - 1]);
                if j - 1 > p {
                    assert(text_less(s[p as int].spec_key(), s[j - 1].spec_key()));
                    lemma_text_less_transitive(xk, s[p as int].spec_key(), s[j - 1].spec_key());
                }
            }
            assert forall|i: int, j: int| 0 <= i < j < n.len() implies text_less(
                #[trigger] n[i].spec_key(),
                #[trigger] n[j].spec_key(),
            ) by {
                if j < p {
                    assert(text_less(s[i].spec_key(), s[j].spec_key()));
                } else if j == p {
                    assert(n[i] == s[i]);
                } else if i < p {
                    assert(n[i] == s[i]);
                    assert(text_less(xk, n[j].spec_key()));
                    lemma_text_less_transitive(n[i].spec_key(), xk, n[j].spec_key());
                } else if i == p {
                } else {
                    assert(n[i] == s[i - 1]);
                    assert(n[j] == s[j - 1]);
                    assert(text_less(s[i - 1].spec_key(), s[j - 1].spec_key()));
                }
            }
            assert(!has_key(s, xk)) by {
                if has_key(s, xk) {
                    let i = choose|i: int| 0 <= i < s.len() && #[trigger] s[i].spec_key() == xk;
                    if i < p {
                        assert(text_less(s[i].spec_key(), xk));
                    } else if i > p {
                        assert(text_less(s[p as int].spec_key(), s[i].spec_key()));
                        lemma_text_less_transitive(xk, s[p as int].spec_key(), s[i].spec_key());
                    }
                }
            }
            assert forall|k: Seq<char>| #[trigger]
                lookup(n, k) == if k == xk {
                    Some(x)
                } else {
                    lookup(s, k)
                } by {
                lemma_lookup_cases(s, k);
                lemma_lookup_cases(n, k);
                if k == xk {
                    lemma_lookup_sorted(n, p as int);
                } else if has_key(s, k) {
                    let i = choose|i: int| 0 <= i < s.len() && #[trigger] s[i].spec_key() == k;
                    lemma_lookup_sorted(s, i);
                    if i < p {
                        assert(n[i] == s[i]);
                        lemma_lookup_sorted(n, i);
                    } else {
                        assert(n[i + 1] == s[i]);
                        lemma_lookup_sorted(n, i + 1);
                    }
                } else {
                    assert(!has_key(n, k)) by {
                        if has_key(n, k) {
                            let i = choose|i: int| 0 <= i < n.len() && #[trigger] n[i].spec_key() == k;
                            if i < p {
                                assert(s[i] == n[i]);
                            } else if i > p {
                                assert(s[i - 1] == n[i]);
                            }
                        }
                    }
                    lemma_lookup_absent(n, k);
                }
            }
        }
    }
}

} // verus!
