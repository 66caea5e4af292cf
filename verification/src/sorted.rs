//! Sets of indices kept as strictly increasing vectors.

use vstd::prelude::*;

verus! {

/// Each element is smaller than the next: the vector holds a set in increasing order.
pub open spec fn strictly_sorted(s: Seq<usize>) -> bool {
    forall|i: int, j: int| 0 <= i < j < s.len() ==> s[i] < s[j]
}

/// A strictly increasing sequence has as many elements as the set it holds.
pub proof fn lemma_sorted_set_len(s: Seq<usize>)
    requires
        strictly_sorted(s),
    ensures
        s.to_set().len() == s.len(),
        s.to_set().finite(),
{
    assert(s.no_duplicates()) by {
        assert forall|i: int, j: int| 0 <= i < s.len() && 0 <= j < s.len() && i != j implies s[i] != s[j] by {
            if i < j {
                assert(s[i] < s[j]);
            } else {
                assert(s[j] < s[i]);
            }
        }
    }
    s.unique_seq_to_set();
    vstd::seq_lib::seq_to_set_is_finite(s);
}

/// Whether `x` occurs in the increasing vector `v`.
pub fn sorted_contains(v: &Vec<usize>, x: usize) -> (r: bool)
    ensures
        r == v@.contains(x),
{
    let mut i: usize = 0;
    while i < v.len()
        invariant
            0 <= i <= v@.len(),
            forall|k: int| 0 <= k < i ==> v@[k] != x,
        decreases v@.len() - i,
    {
        if v[i] == x {
            assert(v@[i as int] == x);
            return true;
        }
        i = i + 1;
    }
    false
}

/// The position at which `x` belongs in the increasing vector `v`.
fn lower_bound(v: &Vec<usize>, x: usize) -> (i: usize)
    requires
        strictly_sorted(v@),
    ensures
        i <= v@.len(),
        forall|k: int| 0 <= k < i ==> v@[k] < x,
        forall|k: int| i <= k < v@.len() ==> v@[k] >= x,
{
    let mut i: usize = 0;
    while i < v.len() && v[i] < x
        invariant
            0 <= i <= v@.len(),
            strictly_sorted(v@),
            forall|k: int| 0 <= k < i ==> v@[k] < x,
        decreases v@.len() - i,
    {
        i = i + 1;
    }
    if i < v.len() {
        assert forall|k: int| i <= k < v@.len() implies v@[k] >= x by {
            if k > i {
                assert(v@[i as int] < v@[k]);
            }
        }
    }
    i
}

/// Adds `x` to the set held in `v`.
pub fn sorted_insert(v: &mut Vec<usize>, x: usize)
    requires
        strictly_sorted(old(v)@),
    ensures
        strictly_sorted(final(v)@),
        final(v)@.to_set() == old(v)@.to_set().insert(x),
{
    let i = lower_bound(v, x);
    if i < v.len() && v[i] == x {
        assert(old(v)@.to_set() =~= old(v)@.to_set().insert(x)) by {
            assert(old(v)@[i as int] == x);
        }
        return;
    }
    v.insert(i, x);
    proof {
        let o = old(v)@;
        let n = v@;
        assert(n == o.subrange(0, i as int).push(x) + o.subrange(i as int, o.len() as int));
        assert forall|a: int, b: int| 0 <= a < b < n.len() implies n[a] < n[b] by {
            if b < i {
                assert(n[a] == o[a] && n[b] == o[b]);
            } else if b == i {
                assert(n[a] == o[a]);
            } else if a < i {
                assert(n[a] == o[a] && n[b] == o[b - 1]);
                assert(o[b - 1] >= x);
                assert(o[b - 1] != x || b - 1 != i as int);
                if b - 1 == i as int {
                    assert(o[i as int] != x);
                }
            } else if a == i {
                assert(n[b] == o[b - 1]);
                if b - 1 == i as int {
                    assert(o[i as int] != x);
                } else {
                    assert(o[i as int] < o[b - 1]);
                }
            } else {
                assert(n[a] == o[a - 1] && n[b] == o[b - 1]);
            }
        }
        assert forall|y: usize| n.to_set().contains(y) <==> o.to_set().insert(x).contains(y) by {
            if o.contains(y) {
                let k = choose|k: int| 0 <= k < o.len() && o[k] == y;
                if k < i {
                    assert(n[k] == y);
                } else {
                    assert(n[k + 1] == y);
                }
            }
            if y == x {
                assert(n[i as int] == x);
            }
            if n.contains(y) {
                let k = choose|k: int| 0 <= k < n.len() && n[k] == y;
                if k < i {
                    assert(o[k] == y);
                } else if k > i {
                    assert(o[k - 1] == y);
                }
            }
        }
        assert(n.to_set() =~= o.to_set().insert(x));
    }
}

/// Takes `x` out of the set held in `v`.
pub fn sorted_remove(v: &mut Vec<usize>, x: usize)
    requires
        strictly_sorted(old(v)@),
    ensures
        strictly_sorted(final(v)@),
        final(v)@.to_set() == old(v)@.to_set().remove(x),
{
    let i = lower_bound(v, x);
    if i < v.len() && v[i] == x {
        v.remove(i);
        proof {
            let o = old(v)@;
            let n = v@;
            assert(n == o.subrange(0, i as int) + o.subrange(i + 1, o.len() as int));
            assert forall|a: int, b: int| 0 <= a < b < n.len() implies n[a] < n[b] by {
                if b < i {
                    assert(n[a] == o[a] && n[b] == o[b]);
                } else if a < i {
                    assert(n[a] == o[a] && n[b] == o[b + 1]);
                } else {
                    assert(n[a] == o[a + 1] && n[b] == o[b + 1]);
                }
            }
            assert forall|y: usize| n.to_set().contains(y) <==> o.to_set().remove(x).contains(y) by {
                if o.contains(y) && y != x {
                    let k = choose|k: int| 0 <= k < o.len() && o[k] == y;
                    if k < i {
                        assert(n[k] == y);
                    } else {
                        assert(k != i);
                        assert(n[k - 1] == y);
                    }
                }
                if n.contains(y) {
                    let k = choose|k: int| 0 <= k < n.len() && n[k] == y;
                    if k < i {
                        assert(o[k] == y);
                        assert(o[k] < o[i as int]);
                    } else {
                        assert(o[k + 1] == y);
                        assert(o[i as int] < o[k + 1]);
                    }
                }
            }
            assert(n.to_set() =~= o.to_set().remove(x));
        }
    } else {
        assert(old(v)@.to_set() =~= old(v)@.to_set().remove(x)) by {
            if old(v)@.contains(x) {
                let k = choose|k: int| 0 <= k < old(v)@.len() && old(v)@[k] == x;
                if k < i {
                    assert(old(v)@[k] < x);
                } else if k > i {
                    assert(old(v)@[i as int] < old(v)@[k]);
                }
            }
        }
    }
}

} // verus!
