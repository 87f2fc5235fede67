//! Association-list helpers shared by the registries: lists of `(u128, u128)`
//! pairs kept free of duplicates, searched and filtered by key.

use vstd::prelude::*;

verus! {

/// Find the index of the edge `(c, ch)` in an index list.
pub(crate) fn find_pair(v: &Vec<(u128, u128)>, c: u128, ch: u128) -> (r: Option<usize>)
    ensures
        match r {
            Some(i) => i < v@.len() && v@[i as int] == (c, ch),
            None => !v@.contains((c, ch)),
        },
{
    let mut i: usize = 0;
    while i < v.len()
        invariant
            i <= v@.len(),
            forall|k: int| 0 <= k < i ==> v@[k] != (c, ch),
        decreases v@.len() - i,
    {
        if v[i].0 == c && v[i].1 == ch {
            proof {
                assert(v@[i as int] == (c, ch));
            }
            return Some(i);
        }
        i += 1;
    }
    None
}

/// Remove the edge `(c, ch)` from an index list, if present.
pub(crate) fn remove_pair(v: &mut Vec<(u128, u128)>, c: u128, ch: u128)
    requires
        old(v)@.no_duplicates(),
    ensures
        final(v)@.no_duplicates(),
        forall|e: (u128, u128)|
            #[trigger] final(v)@.contains(e) <==> old(v)@.contains(e) && e != (c, ch),
{
    match find_pair(v, c, ch) {
        None => {
        }
        Some(i) => {
            let ghost pre = v@;
            v.remove(i);
            proof {
                pre.remove_ensures(i as int);
                assert forall|e: (u128, u128)| #[trigger]
                    v@.contains(e) implies pre.contains(e) && e != (c, ch) by {
                    let k = choose|k: int| 0 <= k < v@.len() && v@[k] == e;
                    let j: int = if k < i as int {
                        k
                    } else {
                        k + 1
                    };
                    assert(pre[j] == e);
                    assert(j != i as int);
                    assert(pre[j] != pre[i as int]);
                }
                assert forall|e: (u128, u128)|
                    pre.contains(e) && e != (c, ch) implies #[trigger] v@.contains(e) by {
                    let j = choose|j: int| 0 <= j < pre.len() && pre[j] == e;
                    assert(j != i as int);
                    if j < i as int {
                        assert(v@[j] == e);
                    } else {
                        assert(v@[j - 1] == e);
                    }
                }
                assert forall|k1: int, k2: int|
                    0 <= k1 < v@.len() && 0 <= k2 < v@.len() && k1 != k2 implies v@[k1] != v@[
                    k2] by {
                    let j1: int = if k1 < i as int {
                        k1
                    } else {
                        k1 + 1
                    };
                    let j2: int = if k2 < i as int {
                        k2
                    } else {
                        k2 + 1
                    };
                    assert(v@[k1] == pre[j1]);
                    assert(v@[k2] == pre[j2]);
                }
            }
        }
    }
}

/// The edges of an index list that do not belong to `key`.
pub(crate) fn retain_without_key(v: &Vec<(u128, u128)>, key: u128) -> (r: Vec<(u128, u128)>)
    requires
        v@.no_duplicates(),
    ensures
        r@.no_duplicates(),
        forall|e: (u128, u128)|
            #[trigger] r@.contains(e) <==> v@.contains(e) && e.0 != key,
{
    let mut r: Vec<(u128, u128)> = Vec::new();
    let mut i: usize = 0;
    while i < v.len()
        invariant
            i <= v@.len(),
            v@.no_duplicates(),
            r@.no_duplicates(),
            forall|e: (u128, u128)|
                #[trigger] r@.contains(e) <==> v@.subrange(0, i as int).contains(e) && e.0
                    != key,
        decreases v@.len() - i,
    {
        let ghost prefix = v@.subrange(0, i as int);
        proof {
            assert(v@.subrange(0, i as int + 1) =~= prefix.push(v@[i as int]));
            lemma_push_contains(prefix, v@[i as int]);
        }
        if v[i].0 != key {
            let e = v[i];
            proof {
                assert(v@[i as int] == e);
                if r@.contains(e) {
                    let k = choose|k: int| 0 <= k < prefix.len() && prefix[k] == e;
                    assert(v@[k] == v@[i as int]);
                    assert(false);
                }
                lemma_push_contains(r@, e);
                lemma_push_no_duplicates(r@, e);
            }
            r.push(e);
        } else {
            proof {
                assert(v@[i as int].0 == key);
            }
        }
        i += 1;
    }
    proof {
        assert(v@.subrange(0, v@.len() as int) =~= v@);
    }
    r
}

/// Membership in a sequence after a push.
pub(crate) proof fn lemma_push_contains<A>(s: Seq<A>, x: A)
    ensures
        forall|e: A| #[trigger] s.push(x).contains(e) <==> s.contains(e) || e == x,
{
    assert forall|e: A| #[trigger] s.push(x).contains(e) implies s.contains(e) || e == x by {
        let k = choose|k: int| 0 <= k < s.push(x).len() && s.push(x)[k] == e;
        if k < s.len() {
            assert(s[k] == e);
        }
    }
    assert forall|e: A| s.contains(e) || e == x implies #[trigger] s.push(x).contains(e) by {
        if s.contains(e) {
            let k = choose|k: int| 0 <= k < s.len() && s[k] == e;
            assert(s.push(x)[k] == e);
        } else {
            assert(s.push(x)[s.len() as int] == e);
        }
    }
}

/// Pushing an element that is not yet present keeps a sequence free of
/// duplicates.
pub(crate) proof fn lemma_push_no_duplicates<A>(s: Seq<A>, x: A)
    requires
        s.no_duplicates(),
        !s.contains(x),
    ensures
        s.push(x).no_duplicates(),
{
    assert forall|k1: int, k2: int|
        0 <= k1 < s.push(x).len() && 0 <= k2 < s.push(x).len() && k1 != k2 implies s.push(x)[k1]
        != s.push(x)[k2] by {
        if k1 < s.len() && k2 < s.len() {
            assert(s[k1] != s[k2]);
        } else if k1 < s.len() {
            assert(s.contains(s[k1]));
        } else if k2 < s.len() {
            assert(s.contains(s[k2]));
        }
    }
}

/// Whether a list of identifiers contains `x`.
pub(crate) fn contains_u128(v: &Vec<u128>, x: u128) -> (r: bool)
    ensures
        r == v@.contains(x),
{
    let mut i: usize = 0;
    while i < v.len()
        invariant
            i <= v@.len(),
            forall|k: int| 0 <= k < i ==> v@[k] != x,
        decreases v@.len() - i,
    {
        if v[i] == x {
            return true;
        }
        i += 1;
    }
    false
}

} // verus!
