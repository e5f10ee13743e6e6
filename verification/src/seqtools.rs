//! A verified first-match lookup over sequences, shared by the keyed
//! collections of the graph cache and the store.

use vstd::prelude::*;

verus! {

/// Index of the first element of `s` whose key is `k`, or `-1` when no
/// element has that key.
pub open spec fn find_key_idx<A, K>(s: Seq<A>, key: spec_fn(A) -> K, k: K) -> int
    decreases s.len(),
{
    if s.len() == 0 {
        -1
    } else if key(s[0]) == k {
        0
    } else {
        let r = find_key_idx(s.drop_first(), key, k);
        if r < 0 {
            -1
        } else {
            r + 1
        }
    }
}

/// What `find_key_idx` returns: either a valid first index bearing the key,
/// or `-1` and no element bears it.
pub proof fn lemma_find_key_idx<A, K>(s: Seq<A>, key: spec_fn(A) -> K, k: K)
    ensures
        find_key_idx(s, key, k) >= 0 ==> {
            &&& find_key_idx(s, key, k) < s.len()
            &&& key(s[find_key_idx(s, key, k)]) == k
            &&& forall|j: int| 0 <= j < find_key_idx(s, key, k) ==> key(#[trigger] s[j]) != k
        },
        find_key_idx(s, key, k) < 0 ==> forall|j: int| 0 <= j < s.len() ==> key(#[trigger] s[j])
            != k,
    decreases s.len(),
{
    if s.len() > 0 && key(s[0]) != k {
        let d = s.drop_first();
        lemma_find_key_idx(d, key, k);
        assert(forall|j: int| 0 <= j < d.len() ==> #[trigger] d[j] == s[j + 1]);
        let r = find_key_idx(d, key, k);
        if r >= 0 {
            assert(d[r] == s[r + 1]);
            assert forall|j: int| 0 <= j < r + 1 implies key(#[trigger] s[j]) != k by {
                if j > 0 {
                    assert(d[j - 1] == s[j]);
                }
            }
        } else {
            assert forall|j: int| 0 <= j < s.len() implies key(#[trigger] s[j]) != k by {
                if j > 0 {
                    assert(d[j - 1] == s[j]);
                }
            }
        }
    }
}

/// A first index that bears the key exists exactly when some element does.
pub proof fn lemma_find_key_idx_exists<A, K>(s: Seq<A>, key: spec_fn(A) -> K, k: K)
    ensures
        find_key_idx(s, key, k) >= 0 <==> exists|j: int|
            0 <= j < s.len() && key(#[trigger] s[j]) == k,
{
    lemma_find_key_idx(s, key, k);
    if find_key_idx(s, key, k) >= 0 {
        assert(key(s[find_key_idx(s, key, k)]) == k);
    }
}

/// Overwriting the first element bearing a key, or appending an element
/// with a fresh key, keeps keys pairwise distinct.
pub proof fn lemma_upsert_keeps_unique<A, K>(s: Seq<A>, s2: Seq<A>, key: spec_fn(A) -> K, x: A)
    requires
        forall|i: int, j: int| #![trigger s[i], s[j]] 0 <= i < j < s.len() ==> key(s[i]) != key(
            s[j],
        ),
        s2 == (if find_key_idx(s, key, key(x)) >= 0 {
            s.update(find_key_idx(s, key, key(x)), x)
        } else {
            s.push(x)
        }),
    ensures
        forall|a: int, b: int| #![trigger s2[a], s2[b]] 0 <= a < b < s2.len() ==> key(s2[a])
            != key(s2[b]),
{
    lemma_find_key_idx(s, key, key(x));
    let i = find_key_idx(s, key, key(x));
    if i >= 0 {
        let s2 = s.update(i, x);
        assert forall|a: int, b: int| #![trigger s2[a], s2[b]] 0 <= a < b < s2.len() implies key(
            s2[a],
        ) != key(s2[b]) by {
            assert(s2[a] == if a == i {
                x
            } else {
                s[a]
            });
            assert(s2[b] == if b == i {
                x
            } else {
                s[b]
            });
            assert(key(s[i]) == key(x));
        }
    } else {
        let s2 = s.push(x);
        assert forall|a: int, b: int| #![trigger s2[a], s2[b]] 0 <= a < b < s2.len() implies key(
            s2[a],
        ) != key(s2[b]) by {
            if b == s.len() {
                assert(key(s[a]) != key(x));
            } else {
                assert(s2[a] == s[a]);
                assert(s2[b] == s[b]);
            }
        }
    }
}

/// Removing the first element bearing a key keeps keys pairwise distinct
/// and leaves no element bearing that key.
pub proof fn lemma_remove_keeps_unique<A, K>(s: Seq<A>, s2: Seq<A>, key: spec_fn(A) -> K, k: K)
    requires
        forall|i: int, j: int| #![trigger s[i], s[j]] 0 <= i < j < s.len() ==> key(s[i]) != key(
            s[j],
        ),
        find_key_idx(s, key, k) >= 0,
        s2 == s.remove(find_key_idx(s, key, k)),
    ensures
        forall|a: int, b: int| #![trigger s2[a], s2[b]] 0 <= a < b < s2.len() ==> key(s2[a])
            != key(s2[b]),
        forall|j: int| 0 <= j < s2.len() ==> key(#[trigger] s2[j]) != k,
{
    lemma_find_key_idx(s, key, k);
    let i = find_key_idx(s, key, k);
    assert forall|a: int, b: int| #![trigger s2[a], s2[b]] 0 <= a < b < s2.len() implies key(
        s2[a],
    ) != key(s2[b]) by {
        let a0: int = if a < i {
            a
        } else {
            a + 1
        };
        let b0: int = if b < i {
            b
        } else {
            b + 1
        };
        assert(s2[a] == s[a0]);
        assert(s2[b] == s[b0]);
    }
    assert forall|j: int| 0 <= j < s2.len() implies key(#[trigger] s2[j]) != k by {
        let j0: int = if j < i {
            j
        } else {
            j + 1
        };
        assert(s2[j] == s[j0]);
        if j0 < i {
            assert(key(s[j0]) != key(s[i]));
        } else {
            assert(key(s[i]) != key(s[j0]));
        }
    }
}

/// A witness below a common prefix survives extension of the sequence.
pub proof fn lemma_exists_extend<A>(s: Seq<A>, s2: Seq<A>, pred: spec_fn(A) -> bool)
    requires
        exists|k: int| 0 <= k < s.len() && pred(#[trigger] s[k]),
        s.len() <= s2.len(),
        forall|k: int| 0 <= k < s.len() ==> s2[k] == s[k],
    ensures
        exists|k: int| 0 <= k < s2.len() && pred(#[trigger] s2[k]),
{
    let k0 = choose|k: int| 0 <= k < s.len() && pred(#[trigger] s[k]);
    assert(s2[k0] == s[k0]);
    assert(pred(s2[k0]));
}

/// A failed lookup stays failed when the appended elements do not bear
/// the key either.
pub proof fn lemma_find_key_none_stable<A, K>(s: Seq<A>, s2: Seq<A>, key: spec_fn(A) -> K, k: K)
    requires
        s.len() <= s2.len(),
        forall|i: int| 0 <= i < s.len() ==> s2[i] == s[i],
        find_key_idx(s, key, k) < 0,
        forall|i: int| s.len() <= i < s2.len() ==> key(#[trigger] s2[i]) != k,
    ensures
        find_key_idx(s2, key, k) < 0,
{
    lemma_find_key_idx(s, key, k);
    lemma_find_key_idx_exists(s2, key, k);
    if find_key_idx(s2, key, k) >= 0 {
        let j = choose|j: int| 0 <= j < s2.len() && key(#[trigger] s2[j]) == k;
        if j < s.len() {
            assert(s2[j] == s[j]);
        }
        assert(false);
    }
}

/// One step of building a filtered sequence from the left.
pub proof fn lemma_filter_step<A>(s: Seq<A>, pred: spec_fn(A) -> bool, i: int)
    requires
        0 <= i < s.len(),
    ensures
        s.subrange(0, i + 1).filter(pred) == if pred(s[i]) {
            s.subrange(0, i).filter(pred).push(s[i])
        } else {
            s.subrange(0, i).filter(pred)
        },
{
    let sub0 = s.subrange(0, i);
    let sub1 = s.subrange(0, i + 1);
    assert(sub1.drop_last() =~= sub0);
    assert(sub1.last() == s[i]);
    reveal_with_fuel(Seq::filter, 2);
}

/// Filtering keeps everything when every element satisfies the predicate.
pub proof fn lemma_filter_all<A>(s: Seq<A>, pred: spec_fn(A) -> bool)
    requires
        forall|i: int| 0 <= i < s.len() ==> pred(#[trigger] s[i]),
    ensures
        s.filter(pred) == s,
    decreases s.len(),
{
    reveal_with_fuel(Seq::filter, 2);
    if s.len() > 0 {
        lemma_filter_all(s.drop_last(), pred);
        assert(pred(s.last()));
        assert(s.drop_last().filter(pred).push(s.last()) =~= s);
    } else {
        assert(s.filter(pred) =~= s);
    }
}

/// Appending elements does not change a successful first-match lookup.
pub proof fn lemma_find_key_idx_append<A, K>(s: Seq<A>, t: Seq<A>, key: spec_fn(A) -> K, k: K)
    requires
        find_key_idx(s, key, k) >= 0,
    ensures
        find_key_idx(s + t, key, k) == find_key_idx(s, key, k),
        (s + t)[find_key_idx(s, key, k)] == s[find_key_idx(s, key, k)],
    decreases s.len(),
{
    lemma_find_key_idx(s, key, k);
    if s.len() > 0 {
        if key(s[0]) == k {
            assert((s + t)[0] == s[0]);
        } else {
            lemma_find_key_idx_append(s.drop_first(), t, key, k);
            assert(s.drop_first() + t =~= (s + t).drop_first());
            assert((s + t)[0] == s[0]);
            let i = find_key_idx(s, key, k);
            assert((s + t)[i] == s[i]);
        }
    }
}

} // verus!
