//! Walking the view tree: the children of a node in order, siblings with wrap-around,
//! focusable children and descendants, and the kinds of view above a node.

use vstd::prelude::*;
use crate::ui::{focusable_item, within, Context, NodeView, Tag};

verus! {

/// The children of node `p` among the first `k` nodes, in the order they were built.
pub open spec fn child_list(s: Seq<NodeView>, p: int, k: nat) -> Seq<int>
    decreases k,
{
    if k == 0 {
        Seq::empty()
    } else {
        let c = child_list(s, p, (k - 1) as nat);
        let i = k - 1;
        if i != p && s[i].parent == p { c.push(i) } else { c }
    }
}

/// The children of node `p`, in the order they were built.
pub open spec fn children(s: Seq<NodeView>, p: int) -> Seq<int> {
    child_list(s, p, s.len())
}

/// The position of `x` in `s`, looking from position `k` on.
pub open spec fn position(s: Seq<int>, x: int, k: int) -> Option<int>
    decreases s.len() - k,
{
    if k < 0 || k >= s.len() {
        None
    } else if s[k] == x {
        Some(k)
    } else {
        position(s, x, k + 1)
    }
}

/// The sibling `step` places after position `j` (before it, when `back`), wrapping
/// around the end.
pub open spec fn cyclic(kids: Seq<int>, j: int, step: int, back: bool) -> int {
    let n = kids.len() as int;
    if back { kids[((j - step) % n + n) % n] } else { kids[(j + step) % n] }
}

/// The first focusable sibling at `step` or more places from position `j` in the given
/// direction, before coming back round to `j`.
pub open spec fn scan(s: Seq<NodeView>, kids: Seq<int>, j: int, step: nat, back: bool) -> Option<int>
    decreases kids.len() - step,
{
    if step >= kids.len() {
        None
    } else if focusable_item(s[cyclic(kids, j, step as int, back)]) {
        Some(cyclic(kids, j, step as int, back))
    } else {
        scan(s, kids, j, step + 1, back)
    }
}

/// The next (or, when `back`, the previous) focusable sibling of `e`, wrapping around;
/// the window has no siblings.
pub open spec fn sibling_wrapped(s: Seq<NodeView>, e: int, back: bool) -> Option<int> {
    if e == 0 {
        None
    } else {
        let kids = children(s, s[e].parent as int);
        match position(kids, e, 0) {
            Some(j) => scan(s, kids, j, 1, back),
            None => None,
        }
    }
}

/// The first child of `p` that can take focus.
pub open spec fn first_focusable(s: Seq<NodeView>, kids: Seq<int>, k: int) -> Option<int>
    decreases kids.len() - k,
{
    if k < 0 || k >= kids.len() {
        None
    } else if focusable_item(s[kids[k]]) {
        Some(kids[k])
    } else {
        first_focusable(s, kids, k + 1)
    }
}

/// Whether node `e` or a node above it was built as `tag`.
pub open spec fn under_tag(s: Seq<NodeView>, e: int, tag: Tag) -> bool
    decreases e,
{
    if e < 0 || e >= s.len() {
        false
    } else if s[e].element == tag {
        true
    } else if 0 < e && s[e].parent < e {
        under_tag(s, s[e].parent as int, tag)
    } else {
        false
    }
}

/// A found position holds the value looked for.
pub proof fn lemma_position(s: Seq<int>, x: int, k: int)
    ensures
        position(s, x, k) matches Some(p) ==> 0 <= p < s.len() && s[p] == x,
    decreases s.len() - k,
{
    if k < 0 || k >= s.len() {
    } else if s[k] == x {
    } else {
        lemma_position(s, x, k + 1);
    }
}

/// Every child is a node of the tree.
pub proof fn lemma_child_list(s: Seq<NodeView>, p: int, k: nat)
    requires
        k <= s.len(),
    ensures
        forall|i: int| 0 <= i < child_list(s, p, k).len() ==> 0 <= #[trigger] child_list(s, p, k)[i] < k,
        child_list(s, p, k).len() <= k,
    decreases k,
{
    if k > 0 {
        lemma_child_list(s, p, (k - 1) as nat);
    }
}

/// The children of node `p`, in the order they were built.
pub fn children_of(cx: &Context, p: usize) -> (r: Vec<usize>)
    ensures
        r@.len() == children(cx@, p as int).len(),
        forall|i: int| 0 <= i < r@.len() ==> r@[i] as int == #[trigger] children(cx@, p as int)[i],
        forall|i: int| 0 <= i < r@.len() ==> (#[trigger] r@[i] as int) < cx@.len(),
{
    let n = cx.len();
    let mut r: Vec<usize> = Vec::new();
    let mut k: usize = 0;
    while k < n
        invariant
            0 <= k <= n,
            n == cx@.len(),
            r@.len() == child_list(cx@, p as int, k as nat).len(),
            forall|i: int| 0 <= i < r@.len() ==> r@[i] as int == #[trigger] child_list(cx@, p as int, k as nat)[i],
            forall|i: int| 0 <= i < r@.len() ==> (#[trigger] r@[i] as int) < k,
        decreases n - k,
    {
        if k != p && cx.parent(k) == p {
            r.push(k);
        }
        k = k + 1;
    }
    r
}

/// The ints of a sequence of node indices.
pub open spec fn as_ints(v: Seq<usize>) -> Seq<int> {
    Seq::new(v.len(), |i: int| v[i] as int)
}

/// The position of `x` in a list of nodes, computed.
fn find(v: &Vec<usize>, x: usize) -> (r: Option<usize>)
    ensures
        r matches Some(j) ==> position(as_ints(v@), x as int, 0) == Some(j as int),
        r is None ==> position(as_ints(v@), x as int, 0) is None,
{
    let mut j: usize = 0;
    while j < v.len()
        invariant
            0 <= j <= v@.len(),
            position(as_ints(v@), x as int, 0) == position(as_ints(v@), x as int, j as int),
        decreases v@.len() - j,
    {
        if v[j] == x {
            return Some(j);
        }
        j = j + 1;
    }
    None
}

/// The next (or, when `back`, the previous) focusable sibling of `e`, wrapping around.
fn sibling_wrapped_exec(cx: &Context, e: usize, back: bool) -> (r: Option<usize>)
    requires
        (e as int) < cx@.len(),
    ensures
        match r {
            Some(x) => sibling_wrapped(cx@, e as int, back) == Some(x as int) && (x as int) < cx@.len(),
            None => sibling_wrapped(cx@, e as int, back) is None,
        },
{
    if e == 0 {
        return None;
    }
    let p = cx.parent(e);
    let kids = children_of(cx, p);
    let ghost ks = children(cx@, p as int);
    assert(as_ints(kids@) =~= ks);
    let found = find(&kids, e);
    match found {
        None => None,
        Some(j) => {
            proof {
                lemma_position(ks, e as int, 0);
            }
            let n = kids.len();
            let mut step: usize = 1;
            while step < n
                invariant
                    1 <= step <= n,
                    n == ks.len(),
                    j < n,
                    as_ints(kids@) == ks,
                    ks == children(cx@, cx@[e as int].parent as int),
                    e != 0,
                    (e as int) < cx@.len(),
                    position(ks, e as int, 0) == Some(j as int),
                    forall|i: int| 0 <= i < kids@.len() ==> (#[trigger] kids@[i] as int) < cx@.len(),
                    scan(cx@, ks, j as int, 1, back) == scan(cx@, ks, j as int, step as nat, back),
                decreases n - step,
            {
                let idx: usize = if back {
                    if step <= j { j - step } else { j + (n - step) }
                } else {
                    if step < n - j { j + step } else { step - (n - j) }
                };
                proof {
                    let jj = j as int;
                    let nn = n as int;
                    let ss = step as int;
                    if back {
                        if ss <= jj {
                            assert(((jj - ss) % nn + nn) % nn == jj - ss) by (nonlinear_arith)
                                requires 0 < nn, 0 <= jj < nn, 1 <= ss < nn, ss <= jj;
                        } else {
                            assert(((jj - ss) % nn + nn) % nn == jj + (nn - ss)) by (nonlinear_arith)
                                requires 0 < nn, 0 <= jj < nn, 1 <= ss < nn, ss > jj;
                        }
                    } else {
                        if ss < nn - jj {
                            assert((jj + ss) % nn == jj + ss) by (nonlinear_arith)
                                requires 0 < nn, 0 <= jj, 1 <= ss, jj + ss < nn;
                        } else {
                            assert((jj + ss) % nn == ss - (nn - jj)) by (nonlinear_arith)
                                requires 0 < nn, 0 <= jj < nn, 1 <= ss < nn, jj + ss >= nn;
                        }
                    }
                    assert(cyclic(ks, jj, ss, back) == ks[idx as int]);
                }
                let c = kids[idx];
                assert(ks[idx as int] == c as int);
                if cx.is_focusable_item(c) {
                    assert(scan(cx@, ks, j as int, step as nat, back) == Some(c as int));
                    return Some(c);
                }
                step = step + 1;
            }
            None
        }
    }
}

/// The next focusable sibling of `e`, wrapping around.
pub fn next_sibling_wrapped(cx: &Context, e: usize) -> (r: Option<usize>)
    requires
        (e as int) < cx@.len(),
    ensures
        match r {
            Some(x) => sibling_wrapped(cx@, e as int, false) == Some(x as int) && (x as int) < cx@.len(),
            None => sibling_wrapped(cx@, e as int, false) is None,
        },
{
    sibling_wrapped_exec(cx, e, false)
}

/// The previous focusable sibling of `e`, wrapping around.
pub fn prev_sibling_wrapped(cx: &Context, e: usize) -> (r: Option<usize>)
    requires
        (e as int) < cx@.len(),
    ensures
        match r {
            Some(x) => sibling_wrapped(cx@, e as int, true) == Some(x as int) && (x as int) < cx@.len(),
            None => sibling_wrapped(cx@, e as int, true) is None,
        },
{
    sibling_wrapped_exec(cx, e, true)
}

/// The first child of `root` that can take focus.
pub fn first_focusable_child(cx: &Context, root: usize) -> (r: Option<usize>)
    ensures
        match r {
            Some(x) => first_focusable(cx@, children(cx@, root as int), 0) == Some(x as int) && (x as int) < cx@.len(),
            None => first_focusable(cx@, children(cx@, root as int), 0) is None,
        },
{
    let kids = children_of(cx, root);
    let ghost ks = children(cx@, root as int);
    let mut k: usize = 0;
    while k < kids.len()
        invariant
            0 <= k <= kids@.len(),
            kids@.len() == ks.len(),
            ks == children(cx@, root as int),
            forall|i: int| 0 <= i < kids@.len() ==> kids@[i] as int == #[trigger] ks[i],
            forall|i: int| 0 <= i < kids@.len() ==> (#[trigger] kids@[i] as int) < cx@.len(),
            first_focusable(cx@, ks, 0) == first_focusable(cx@, ks, k as int),
        decreases kids@.len() - k,
    {
        let c = kids[k];
        assert(ks[k as int] == c as int);
        if cx.is_focusable_item(c) {
            assert(first_focusable(cx@, ks, k as int) == Some(c as int));
            return Some(c);
        }
        k = k + 1;
    }
    None
}

/// The nodes of the subtree of `r`, depth first: `r`, then the subtree of each of its
/// children in the order they were built.
pub open spec fn preorder(s: Seq<NodeView>, r: int) -> Seq<int>
    decreases s.len() - r, 1int, 0int,
{
    if 0 <= r < s.len() {
        seq![r] + preorder_from(s, r, r + 1)
    } else {
        Seq::empty()
    }
}

/// The subtrees, depth first, of the children of `r` built at or after node `k`.
pub open spec fn preorder_from(s: Seq<NodeView>, r: int, k: int) -> Seq<int>
    decreases s.len() - r, 0int, s.len() - k,
{
    if 0 <= r < k < s.len() {
        if s[k].parent == r {
            preorder(s, k) + preorder_from(s, r, k + 1)
        } else {
            preorder_from(s, r, k + 1)
        }
    } else {
        Seq::empty()
    }
}

/// The ancestor of `x` (or `x` itself) whose parent is `r`, following parents up.
pub open spec fn child_toward(s: Seq<NodeView>, x: int, r: int) -> int
    decreases x,
{
    if 0 < x < s.len() && s[x].parent < x && s[x].parent != r {
        child_toward(s, s[x].parent as int, r)
    } else {
        x
    }
}

/// A node lies within only nodes built no later than itself.
proof fn lemma_within_order(s: Seq<NodeView>, e: int, a: int)
    requires
        within(s, e, a),
    ensures
        a <= e,
    decreases e,
{
    if e != a {
        lemma_within_order(s, s[e].parent as int, a);
    }
}

/// Lying within a node that lies within another is lying within that other.
proof fn lemma_within_trans(s: Seq<NodeView>, x: int, k: int, r: int)
    requires
        within(s, x, k),
        within(s, k, r),
    ensures
        within(s, x, r),
    decreases x,
{
    if x != k {
        lemma_within_trans(s, s[x].parent as int, k, r);
    }
}

/// Below a child `k` of `r`, the way up to `r` passes through `k`.
proof fn lemma_child_toward(s: Seq<NodeView>, x: int, k: int, r: int)
    requires
        within(s, x, k),
        0 <= r < k < s.len(),
        s[k].parent == r,
    ensures
        child_toward(s, x, r) == k,
    decreases x,
{
    if x != k {
        let p = s[x].parent as int;
        lemma_within_order(s, p, k);
        lemma_child_toward(s, p, k, r);
    }
}

/// The subtree of `r`, depth first, holds `r` and nodes within it, each once.
pub proof fn lemma_preorder_shape(s: Seq<NodeView>, r: int)
    requires
        0 <= r < s.len(),
        s[0].parent == 0,
        forall|i: int| 0 < i < s.len() ==> #[trigger] s[i].parent < i,
    ensures
        preorder(s, r).no_duplicates(),
        forall|i: int| 0 <= i < preorder(s, r).len() ==> {
            let x = #[trigger] preorder(s, r)[i];
            &&& within(s, x, r)
            &&& r <= x < s.len()
        },
    decreases s.len() - r, 1int, 0int,
{
    lemma_preorder_from_shape(s, r, r + 1);
    let f = preorder_from(s, r, r + 1);
    let p = preorder(s, r);
    assert(p == seq![r] + f);
    assert forall|i: int, j: int| 0 <= i < j < p.len() implies p[i] != p[j] by {
        if i == 0 {
            assert(p[j] == f[j - 1]);
        }
    }
}

/// The subtrees of the children of `r` built at or after `k` hold nodes within `r`
/// other than `r`, each reached from `r` through a child built at or after `k`,
/// each once.
pub proof fn lemma_preorder_from_shape(s: Seq<NodeView>, r: int, k: int)
    requires
        0 <= r < s.len(),
        r < k,
        s[0].parent == 0,
        forall|i: int| 0 < i < s.len() ==> #[trigger] s[i].parent < i,
    ensures
        preorder_from(s, r, k).no_duplicates(),
        forall|i: int| 0 <= i < preorder_from(s, r, k).len() ==> {
            let x = #[trigger] preorder_from(s, r, k)[i];
            &&& within(s, x, r)
            &&& r < x < s.len()
            &&& k <= child_toward(s, x, r)
        },
    decreases s.len() - r, 0int, s.len() - k,
{
    if k < s.len() {
        lemma_preorder_from_shape(s, r, k + 1);
        if s[k].parent == r {
            lemma_preorder_shape(s, k);
            let a = preorder(s, k);
            let b = preorder_from(s, r, k + 1);
            let f = preorder_from(s, r, k);
            assert(f == a + b);
            assert(within(s, r, r));
            assert(within(s, k, r)) by {
                reveal_with_fuel(within, 2);
            }
            assert forall|i: int| 0 <= i < a.len() implies child_toward(s, #[trigger] a[i], r) == k && within(s, a[i], r) by {
                lemma_child_toward(s, a[i], k, r);
                lemma_within_trans(s, a[i], k, r);
            }
            assert forall|i: int| 0 <= i < f.len() implies {
                let x = #[trigger] f[i];
                &&& within(s, x, r)
                &&& r < x < s.len()
                &&& k <= child_toward(s, x, r)
            } by {
                if i < a.len() {
                    assert(f[i] == a[i]);
                } else {
                    assert(f[i] == b[i - a.len()]);
                }
            }
            assert forall|i: int, j: int| 0 <= i < j < f.len() implies f[i] != f[j] by {
                if i < a.len() && j >= a.len() {
                    assert(f[i] == a[i]);
                    assert(f[j] == b[j - a.len()]);
                } else if i < a.len() {
                    assert(f[i] == a[i] && f[j] == a[j]);
                } else {
                    assert(f[i] == b[i - a.len()] && f[j] == b[j - a.len()]);
                }
            }
        }
    }
}

/// The subtree of `r`, depth first, has no more nodes than are built from `r` on.
pub proof fn lemma_preorder_len(s: Seq<NodeView>, r: int)
    requires
        0 <= r < s.len(),
        s[0].parent == 0,
        forall|i: int| 0 < i < s.len() ==> #[trigger] s[i].parent < i,
    ensures
        preorder(s, r).len() <= s.len() - r,
{
    lemma_preorder_shape(s, r);
    let p = preorder(s, r);
    p.unique_seq_to_set();
    vstd::set_lib::lemma_int_range(r, s.len() as int);
    assert(p.to_set().subset_of(vstd::set_lib::set_int_range(r, s.len() as int)));
    vstd::set_lib::lemma_len_subset(p.to_set(), vstd::set_lib::set_int_range(r, s.len() as int));
}

/// The first node of `xs` that can take focus.
pub open spec fn first_focusable_of(s: Seq<NodeView>, xs: Seq<int>) -> Option<int>
    decreases xs.len(),
{
    if xs.len() == 0 {
        None
    } else if 0 <= xs[0] < s.len() && focusable_item(s[xs[0]]) {
        Some(xs[0])
    } else {
        first_focusable_of(s, xs.drop_first())
    }
}

/// The first focusable node of two runs of nodes is the first of the first run, or
/// else the first of the second.
proof fn lemma_first_focusable_concat(s: Seq<NodeView>, a: Seq<int>, b: Seq<int>)
    ensures
        first_focusable_of(s, a + b) == match first_focusable_of(s, a) {
            Some(x) => Some(x),
            None => first_focusable_of(s, b),
        },
    decreases a.len(),
{
    if a.len() == 0 {
        assert(a + b =~= b);
    } else {
        assert((a + b).drop_first() =~= a.drop_first() + b);
        lemma_first_focusable_concat(s, a.drop_first(), b);
    }
}

/// The first node of the subtree of `r`, depth first, that can take focus.
fn search_subtree(cx: &Context, r: usize) -> (x: Option<usize>)
    requires
        (r as int) < cx@.len(),
    ensures
        x matches Some(v) ==> (v as int) < cx@.len(),
        x matches Some(v) ==> first_focusable_of(cx@, preorder(cx@, r as int)) == Some(v as int),
        x is None ==> first_focusable_of(cx@, preorder(cx@, r as int)) is None,
    decreases cx@.len() - r, 1int, 0int,
{
    let _n = cx.len();
    proof {
        assert(preorder(cx@, r as int) == seq![r as int] + preorder_from(cx@, r as int, r + 1));
        lemma_first_focusable_concat(cx@, seq![r as int], preorder_from(cx@, r as int, r + 1));
        assert(seq![r as int].drop_first() =~= Seq::<int>::empty());
        reveal_with_fuel(first_focusable_of, 2);
        assert(first_focusable_of(cx@, seq![r as int]) == if focusable_item(cx@[r as int]) { Some(r as int) } else { None::<int> });
    }
    if cx.is_focusable_item(r) {
        return Some(r);
    }
    search_children(cx, r, r + 1)
}

/// The first node, depth first, of the subtrees of the children of `r` built at or
/// after node `k`, that can take focus.
fn search_children(cx: &Context, r: usize, k: usize) -> (x: Option<usize>)
    requires
        r < k,
        (r as int) < cx@.len(),
    ensures
        x matches Some(v) ==> (v as int) < cx@.len(),
        x matches Some(v) ==> first_focusable_of(cx@, preorder_from(cx@, r as int, k as int)) == Some(v as int),
        x is None ==> first_focusable_of(cx@, preorder_from(cx@, r as int, k as int)) is None,
    decreases cx@.len() - r, 0int, cx@.len() - k,
{
    if k >= cx.len() {
        return None;
    }
    if cx.parent(k) == r {
        proof {
            lemma_first_focusable_concat(cx@, preorder(cx@, k as int), preorder_from(cx@, r as int, k + 1));
        }
        match search_subtree(cx, k) {
            Some(v) => Some(v),
            None => search_children(cx, r, k + 1),
        }
    } else {
        search_children(cx, r, k + 1)
    }
}

/// The first node below `root`, depth first with children in the order they were
/// built, that can take focus.
pub fn first_focusable_descendant(cx: &Context, root: usize) -> (r: Option<usize>)
    requires
        (root as int) < cx@.len(),
    ensures
        match r {
            Some(x) => first_focusable_of(cx@, preorder_from(cx@, root as int, root + 1)) == Some(x as int) && (x as int) < cx@.len(),
            None => first_focusable_of(cx@, preorder_from(cx@, root as int, root + 1)) is None,
        },
{
    let _n = cx.len();
    search_children(cx, root, root + 1)
}

/// The first child of `p`, if it has any.
pub fn first_child(cx: &Context, p: usize) -> (r: Option<usize>)
    ensures
        r == (if children(cx@, p as int).len() > 0 { Some(children(cx@, p as int)[0] as usize) } else { None }),
        r matches Some(x) ==> (x as int) < cx@.len(),
{
    let kids = children_of(cx, p);
    if kids.len() > 0 { Some(kids[0]) } else { None }
}

/// The last child of `p`, if it has any.
pub fn last_child(cx: &Context, p: usize) -> (r: Option<usize>)
    ensures
        r == (if children(cx@, p as int).len() > 0 {
            Some(children(cx@, p as int)[children(cx@, p as int).len() - 1] as usize)
        } else {
            None
        }),
        r matches Some(x) ==> (x as int) < cx@.len(),
{
    let kids = children_of(cx, p);
    let n = kids.len();
    if n > 0 { Some(kids[n - 1]) } else { None }
}

/// Whether node `e` or a node above it was built as `tag`.
pub fn is_under(cx: &Context, e: usize, tag: Tag) -> (r: bool)
    requires
        (e as int) < cx@.len(),
    ensures
        r == under_tag(cx@, e as int, tag),
    decreases e,
{
    if cx.element(e) == tag {
        true
    } else if e == 0 {
        false
    } else {
        let p = cx.parent(e);
        is_under(cx, p, tag)
    }
}

} // verus!
