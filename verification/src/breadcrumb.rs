//! Breadcrumbs: a navigation trail, shortened by a truncation strategy.

use vstd::prelude::*;
use crate::ui::{Class, Context, Handle, Tag, NodeView, Role};
use crate::label::label_node;

verus! {

/// A breadcrumb item containing a label.
#[derive(Debug)]
pub struct BreadcrumbItem {
    /// The display label for this breadcrumb item.
    pub label: String,
    /// Whether this item is disabled (not clickable).
    pub disabled: bool,
}

/// The content of a breadcrumb item.
pub struct ItemView {
    pub label: Seq<char>,
    pub disabled: bool,
}

impl View for BreadcrumbItem {
    type V = ItemView;

    open spec fn view(&self) -> ItemView {
        ItemView { label: self.label@, disabled: self.disabled }
    }
}

impl BreadcrumbItem {
    /// Creates a new, enabled breadcrumb item.
    pub fn new(label: String) -> (item: Self)
        ensures
            item.label@ == label@,
            !item.disabled,
    {
        BreadcrumbItem { label, disabled: false }
    }

    /// Creates a new disabled breadcrumb item.
    pub fn disabled(label: String) -> (item: Self)
        ensures
            item.label@ == label@,
            item.disabled,
    {
        BreadcrumbItem { label, disabled: true }
    }

    /// A copy of this item.
    pub fn duplicate(&self) -> (item: Self)
        ensures
            item@ == self@,
    {
        BreadcrumbItem { label: self.label.clone(), disabled: self.disabled }
    }
}

/// Defines how breadcrumb items are shortened when space is limited.
pub enum TruncationStrategy {
    /// Show all items without truncation.
    Full,
    /// Keep the first and last items, with an overflow entry in the middle.
    Middle { max_visible: usize, ellipsis: String },
    /// Hide items at the start behind an overflow entry.
    Start { max_visible: usize, ellipsis: String },
    /// Hide items at the end behind an overflow entry.
    End { max_visible: usize, ellipsis: String },
    /// The items a custom truncation function returned for the trail.
    Custom(Vec<BreadcrumbItem>),
}

/// A breadcrumb item with its position in the trail.
pub struct IndexedBreadcrumbItem {
    pub index: usize,
    pub item: BreadcrumbItem,
}

/// The content of an indexed item.
pub struct IndexedView {
    pub index: int,
    pub item: ItemView,
}

impl View for IndexedBreadcrumbItem {
    type V = IndexedView;

    open spec fn view(&self) -> IndexedView {
        IndexedView { index: self.index as int, item: self.item@ }
    }
}

/// One entry of the rendered trail: an item, or an overflow entry hiding items.
pub enum RenderedCrumb {
    Item(IndexedBreadcrumbItem),
    Overflow { label: String, hidden_items: Vec<IndexedBreadcrumbItem> },
}

/// The content of a rendered entry.
pub enum CrumbView {
    Item(IndexedView),
    Overflow(Seq<char>, Seq<IndexedView>),
}

/// The contents of a vector of indexed items.
pub open spec fn indexed_views(v: Seq<IndexedBreadcrumbItem>) -> Seq<IndexedView> {
    Seq::new(v.len(), |i: int| v[i]@)
}

impl View for RenderedCrumb {
    type V = CrumbView;

    open spec fn view(&self) -> CrumbView {
        match self {
            RenderedCrumb::Item(i) => CrumbView::Item(i@),
            RenderedCrumb::Overflow { label, hidden_items } => CrumbView::Overflow(label@, indexed_views(hidden_items@)),
        }
    }
}

/// The contents of a rendered trail.
pub open spec fn crumb_views(v: Seq<RenderedCrumb>) -> Seq<CrumbView> {
    Seq::new(v.len(), |i: int| v[i]@)
}

/// The contents of a vector of items.
pub open spec fn item_views(v: Seq<BreadcrumbItem>) -> Seq<ItemView> {
    Seq::new(v.len(), |i: int| v[i]@)
}

/// The items `lo..hi` of a trail, with their positions.
pub open spec fn indexed_range(items: Seq<ItemView>, lo: int, hi: int) -> Seq<IndexedView> {
    Seq::new((hi - lo) as nat, |k: int| IndexedView { index: lo + k, item: items[lo + k] })
}

/// The items `lo..hi` of a trail, each rendered as itself.
pub open spec fn shown_range(items: Seq<ItemView>, lo: int, hi: int) -> Seq<CrumbView> {
    Seq::new((hi - lo) as nat, |k: int| CrumbView::Item(IndexedView { index: lo + k, item: items[lo + k] }))
}

/// The rendered trail for an ordinary strategy: every item when the trail is short
/// enough or the limit is at most one, else `max_visible - 1` items and one overflow
/// entry, arranged as the strategy says.
pub open spec fn truncated(items: Seq<ItemView>, strategy: int, max_visible: int, ellipsis: Seq<char>) -> Seq<CrumbView> {
    let n = items.len() as int;
    if n <= max_visible || max_visible <= 1 {
        shown_range(items, 0, n)
    } else {
        let show = max_visible - 1;
        if strategy == 0 {
            let first = (show + 1) / 2;
            let last = show / 2;
            shown_range(items, 0, first)
                .push(CrumbView::Overflow(ellipsis, indexed_range(items, first, n - last)))
                + shown_range(items, n - last, n)
        } else if strategy == 1 {
            seq![CrumbView::Overflow(ellipsis, indexed_range(items, 0, n - show))] + shown_range(items, n - show, n)
        } else {
            shown_range(items, 0, show).push(CrumbView::Overflow(ellipsis, indexed_range(items, show, n)))
        }
    }
}

/// The rendered trail for a strategy.
pub open spec fn rendered(items: Seq<ItemView>, strategy: &TruncationStrategy) -> Seq<CrumbView> {
    match strategy {
        TruncationStrategy::Full => shown_range(items, 0, items.len() as int),
        TruncationStrategy::Middle { max_visible, ellipsis } => truncated(items, 0, *max_visible as int, ellipsis@),
        TruncationStrategy::Start { max_visible, ellipsis } => truncated(items, 1, *max_visible as int, ellipsis@),
        TruncationStrategy::End { max_visible, ellipsis } => truncated(items, 2, *max_visible as int, ellipsis@),
        TruncationStrategy::Custom(custom) => shown_range(item_views(custom@), 0, custom@.len() as int),
    }
}

/// The positions a rendered trail covers, in order: an item covers its own position
/// and an overflow entry the positions of the items it hides.
pub open spec fn covered(r: Seq<CrumbView>) -> Seq<int>
    decreases r.len(),
{
    if r.len() == 0 {
        Seq::empty()
    } else {
        covered(r.drop_last()) + match r.last() {
            CrumbView::Item(i) => seq![i.index],
            CrumbView::Overflow(_, hidden) => Seq::new(hidden.len(), |k: int| hidden[k].index),
        }
    }
}

/// The positions `lo..hi` in order.
pub open spec fn positions(lo: int, hi: int) -> Seq<int> {
    Seq::new((hi - lo) as nat, |k: int| lo + k)
}

proof fn lemma_covered_append(a: Seq<CrumbView>, b: Seq<CrumbView>)
    ensures
        covered(a + b) == covered(a) + covered(b),
    decreases b.len(),
{
    if b.len() == 0 {
        assert(a + b =~= a);
        assert(covered(b) =~= Seq::<int>::empty());
        assert(covered(a) + covered(b) =~= covered(a));
    } else {
        lemma_covered_append(a, b.drop_last());
        assert((a + b).drop_last() =~= a + b.drop_last());
        assert((a + b).last() == b.last());
    }
}

proof fn lemma_covered_shown(items: Seq<ItemView>, lo: int, hi: int)
    requires
        lo <= hi,
    ensures
        covered(shown_range(items, lo, hi)) == positions(lo, hi),
    decreases hi - lo,
{
    if hi > lo {
        lemma_covered_shown(items, lo, hi - 1);
        assert(shown_range(items, lo, hi).drop_last() =~= shown_range(items, lo, hi - 1));
        assert(positions(lo, hi) =~= positions(lo, hi - 1).push(hi - 1));
    } else {
        assert(shown_range(items, lo, hi) =~= Seq::<CrumbView>::empty());
        assert(positions(lo, hi) =~= Seq::<int>::empty());
    }
}

proof fn lemma_covered_overflow(items: Seq<ItemView>, e: Seq<char>, lo: int, hi: int)
    requires
        lo <= hi,
    ensures
        covered(seq![CrumbView::Overflow(e, indexed_range(items, lo, hi))]) == positions(lo, hi),
{
    let s = seq![CrumbView::Overflow(e, indexed_range(items, lo, hi))];
    assert(s.drop_last() =~= Seq::<CrumbView>::empty());
    assert(covered(s.drop_last()) =~= Seq::<int>::empty());
    assert(covered(s) =~= positions(lo, hi));
}

proof fn lemma_positions_split(lo: int, mid: int, hi: int)
    requires
        lo <= mid <= hi,
    ensures
        positions(lo, mid) + positions(mid, hi) == positions(lo, hi),
{
    assert(positions(lo, mid) + positions(mid, hi) =~= positions(lo, hi));
}

/// Truncation never loses or reorders an item: read in order, the rendered trail
/// covers every position of the trail exactly once, from first to last. With a limit
/// above one and a longer trail, it has exactly `max_visible` entries.
pub proof fn law_truncation_covers_trail(items: Seq<ItemView>, strategy: int, max_visible: int, ellipsis: Seq<char>)
    requires
        0 <= strategy <= 2,
        max_visible >= 0,
    ensures
        covered(truncated(items, strategy, max_visible, ellipsis)) == positions(0, items.len() as int),
        items.len() > max_visible > 1 ==> truncated(items, strategy, max_visible, ellipsis).len() == max_visible,
{
    let n = items.len() as int;
    if n <= max_visible || max_visible <= 1 {
        lemma_covered_shown(items, 0, n);
    } else {
        let show = max_visible - 1;
        if strategy == 0 {
            let first = (show + 1) / 2;
            let last = show / 2;
            let a = shown_range(items, 0, first);
            let o = seq![CrumbView::Overflow(ellipsis, indexed_range(items, first, n - last))];
            let c = shown_range(items, n - last, n);
            assert(a.push(o[0]) =~= a + o);
            lemma_covered_append(a, o);
            lemma_covered_append(a + o, c);
            lemma_covered_shown(items, 0, first);
            lemma_covered_overflow(items, ellipsis, first, n - last);
            lemma_covered_shown(items, n - last, n);
            lemma_positions_split(0, first, n - last);
            lemma_positions_split(0, n - last, n);
        } else if strategy == 1 {
            let o = seq![CrumbView::Overflow(ellipsis, indexed_range(items, 0, n - show))];
            let c = shown_range(items, n - show, n);
            lemma_covered_append(o, c);
            lemma_covered_overflow(items, ellipsis, 0, n - show);
            lemma_covered_shown(items, n - show, n);
            lemma_positions_split(0, n - show, n);
        } else {
            let a = shown_range(items, 0, show);
            let o = seq![CrumbView::Overflow(ellipsis, indexed_range(items, show, n))];
            assert(a.push(o[0]) =~= a + o);
            lemma_covered_append(a, o);
            lemma_covered_shown(items, 0, show);
            lemma_covered_overflow(items, ellipsis, show, n);
            lemma_positions_split(0, show, n);
        }
    }
}

/// The items `lo..hi` of `items`, copied, with their positions.
fn indexed_slice(items: &Vec<IndexedBreadcrumbItem>, lo: usize, hi: usize) -> (r: Vec<IndexedBreadcrumbItem>)
    requires
        lo <= hi <= items@.len(),
    ensures
        indexed_views(r@) == indexed_views(items@).subrange(lo as int, hi as int),
{
    let mut r: Vec<IndexedBreadcrumbItem> = Vec::new();
    let mut k = lo;
    while k < hi
        invariant
            lo <= k <= hi <= items@.len(),
            r@.len() == k - lo,
            indexed_views(r@) == indexed_views(items@).subrange(lo as int, k as int),
        decreases hi - k,
    {
        let it = &items[k];
        let ghost prev = r@;
        r.push(IndexedBreadcrumbItem { index: it.index, item: it.item.duplicate() });
        assert forall|i: int| 0 <= i < r@.len() implies #[trigger] r@[i]@ == indexed_views(items@)[lo + i] by {
            if i < prev.len() {
                assert(r@[i] == prev[i]);
                assert(indexed_views(prev)[i] == indexed_views(items@).subrange(lo as int, k as int)[i]);
            } else {
                assert(r@[i]@ == items@[k as int]@);
            }
        }
        assert(indexed_views(r@) =~= indexed_views(items@).subrange(lo as int, k + 1));
        k = k + 1;
    }
    r
}

/// Appends the items `lo..hi` of `items` to `out`, each rendered as itself.
fn push_shown(out: &mut Vec<RenderedCrumb>, items: &Vec<IndexedBreadcrumbItem>, lo: usize, hi: usize)
    requires
        lo <= hi <= items@.len(),
    ensures
        crumb_views(final(out)@) == crumb_views(old(out)@) + Seq::new((hi - lo) as nat, |k: int| CrumbView::Item(indexed_views(items@)[lo + k])),
{
    let ghost start = crumb_views(out@);
    assert(start.len() == out@.len());
    let mut k = lo;
    while k < hi
        invariant
            lo <= k <= hi <= items@.len(),
            out@.len() == start.len() + (k - lo),
            crumb_views(out@) == start + Seq::new((k - lo) as nat, |j: int| CrumbView::Item(indexed_views(items@)[lo + j])),
        decreases hi - k,
    {
        let it = &items[k];
        let ghost prev = out@;
        out.push(RenderedCrumb::Item(IndexedBreadcrumbItem { index: it.index, item: it.item.duplicate() }));
        assert forall|i: int| 0 <= i < out@.len() implies #[trigger] out@[i]@ == (start + Seq::new((k + 1 - lo) as nat, |j: int| CrumbView::Item(indexed_views(items@)[lo + j])))[i] by {
            if i < prev.len() {
                assert(out@[i] == prev[i]);
                assert(crumb_views(prev)[i] == out@[i]@);
            } else {
                assert(out@[i]@ == CrumbView::Item(items@[k as int]@));
            }
        }
        assert(crumb_views(out@) =~= start + Seq::new((k + 1 - lo) as nat, |j: int| CrumbView::Item(indexed_views(items@)[lo + j])));
        k = k + 1;
    }
}

/// The items of a trail with their positions.
fn index_items(items: &Vec<BreadcrumbItem>) -> (r: Vec<IndexedBreadcrumbItem>)
    ensures
        indexed_views(r@) == indexed_range(item_views(items@), 0, items@.len() as int),
{
    let mut r: Vec<IndexedBreadcrumbItem> = Vec::new();
    let mut k: usize = 0;
    while k < items.len()
        invariant
            0 <= k <= items@.len(),
            r@.len() == k,
            indexed_views(r@) == indexed_range(item_views(items@), 0, k as int),
        decreases items@.len() - k,
    {
        let ghost prev = r@;
        r.push(IndexedBreadcrumbItem { index: k, item: items[k].duplicate() });
        assert forall|i: int| 0 <= i < r@.len() implies #[trigger] r@[i]@ == indexed_range(item_views(items@), 0, k + 1)[i] by {
            if i < prev.len() {
                assert(r@[i] == prev[i]);
                assert(indexed_views(prev)[i] == indexed_range(item_views(items@), 0, k as int)[i]);
            } else {
                assert(r@[i]@ == IndexedView { index: k as int, item: items@[k as int]@ });
            }
        }
        assert(indexed_views(r@) =~= indexed_range(item_views(items@), 0, k + 1));
        k = k + 1;
    }
    r
}

/// Shows the first and last items and hides the middle ones behind an overflow entry.
pub fn truncate_middle(items: &Vec<IndexedBreadcrumbItem>, max_visible: usize, ellipsis: &String) -> (r: Vec<RenderedCrumb>)
    ensures
        crumb_views(r@) == truncated_indexed(indexed_views(items@), 0, max_visible as int, ellipsis@),
{
    let mut out: Vec<RenderedCrumb> = Vec::new();
    let n = items.len();
    if n <= max_visible || max_visible <= 1 {
        push_shown(&mut out, items, 0, n);
        assert(crumb_views(out@) =~= truncated_indexed(indexed_views(items@), 0, max_visible as int, ellipsis@));
        return out;
    }
    let items_to_show = max_visible - 1;
    let first_count = (items_to_show + 1) / 2;
    let last_count = items_to_show / 2;
    push_shown(&mut out, items, 0, first_count);
    let hidden_items = indexed_slice(items, first_count, n - last_count);
    out.push(RenderedCrumb::Overflow { label: ellipsis.clone(), hidden_items });
    push_shown(&mut out, items, n - last_count, n);
    assert(crumb_views(out@) =~= truncated_indexed(indexed_views(items@), 0, max_visible as int, ellipsis@));
    out
}

/// Hides the first items behind an overflow entry.
pub fn truncate_start(items: &Vec<IndexedBreadcrumbItem>, max_visible: usize, ellipsis: &String) -> (r: Vec<RenderedCrumb>)
    ensures
        crumb_views(r@) == truncated_indexed(indexed_views(items@), 1, max_visible as int, ellipsis@),
{
    let mut out: Vec<RenderedCrumb> = Vec::new();
    let n = items.len();
    if n <= max_visible || max_visible <= 1 {
        push_shown(&mut out, items, 0, n);
        assert(crumb_views(out@) =~= truncated_indexed(indexed_views(items@), 1, max_visible as int, ellipsis@));
        return out;
    }
    let items_to_show = max_visible - 1;
    let hidden_items = indexed_slice(items, 0, n - items_to_show);
    out.push(RenderedCrumb::Overflow { label: ellipsis.clone(), hidden_items });
    push_shown(&mut out, items, n - items_to_show, n);
    assert(crumb_views(out@) =~= truncated_indexed(indexed_views(items@), 1, max_visible as int, ellipsis@));
    out
}

/// Hides the last items behind an overflow entry.
pub fn truncate_end(items: &Vec<IndexedBreadcrumbItem>, max_visible: usize, ellipsis: &String) -> (r: Vec<RenderedCrumb>)
    ensures
        crumb_views(r@) == truncated_indexed(indexed_views(items@), 2, max_visible as int, ellipsis@),
{
    let mut out: Vec<RenderedCrumb> = Vec::new();
    let n = items.len();
    if n <= max_visible || max_visible <= 1 {
        push_shown(&mut out, items, 0, n);
        assert(crumb_views(out@) =~= truncated_indexed(indexed_views(items@), 2, max_visible as int, ellipsis@));
        return out;
    }
    let items_to_show = max_visible - 1;
    push_shown(&mut out, items, 0, items_to_show);
    let hidden_items = indexed_slice(items, items_to_show, n);
    out.push(RenderedCrumb::Overflow { label: ellipsis.clone(), hidden_items });
    assert(crumb_views(out@) =~= truncated_indexed(indexed_views(items@), 2, max_visible as int, ellipsis@));
    out
}

/// The rendered trail for already indexed items, arranged as the strategy says.
pub open spec fn truncated_indexed(items: Seq<IndexedView>, strategy: int, max_visible: int, ellipsis: Seq<char>) -> Seq<CrumbView> {
    let n = items.len() as int;
    let shown = |lo: int, hi: int| Seq::new((hi - lo) as nat, |k: int| CrumbView::Item(items[lo + k]));
    if n <= max_visible || max_visible <= 1 {
        shown(0, n)
    } else {
        let show = max_visible - 1;
        if strategy == 0 {
            let first = (show + 1) / 2;
            let last = show / 2;
            shown(0, first).push(CrumbView::Overflow(ellipsis, items.subrange(first, n - last))) + shown(n - last, n)
        } else if strategy == 1 {
            seq![CrumbView::Overflow(ellipsis, items.subrange(0, n - show))] + shown(n - show, n)
        } else {
            shown(0, show).push(CrumbView::Overflow(ellipsis, items.subrange(show, n)))
        }
    }
}

proof fn lemma_truncated_indexed(items: Seq<ItemView>, strategy: int, max_visible: int, ellipsis: Seq<char>)
    ensures
        truncated_indexed(indexed_range(items, 0, items.len() as int), strategy, max_visible, ellipsis)
            == truncated(items, strategy, max_visible, ellipsis),
{
    let ix = indexed_range(items, 0, items.len() as int);
    let n = items.len() as int;
    if n <= max_visible || max_visible <= 1 {
        assert(truncated_indexed(ix, strategy, max_visible, ellipsis) =~= truncated(items, strategy, max_visible, ellipsis));
    } else {
        let show = max_visible - 1;
        let first = (show + 1) / 2;
        let last = show / 2;
        if strategy == 0 {
            assert(ix.subrange(first, n - last) =~= indexed_range(items, first, n - last));
        } else if strategy == 1 {
            assert(ix.subrange(0, n - show) =~= indexed_range(items, 0, n - show));
        } else {
            assert(ix.subrange(show, n) =~= indexed_range(items, show, n));
        }
        assert(truncated_indexed(ix, strategy, max_visible, ellipsis) =~= truncated(items, strategy, max_visible, ellipsis));
    }
}

/// Renders a trail under a truncation strategy.
pub fn apply_truncation(items: &Vec<BreadcrumbItem>, strategy: &TruncationStrategy) -> (r: Vec<RenderedCrumb>)
    ensures
        crumb_views(r@) == rendered(item_views(items@), strategy),
{
    let indexed_items = index_items(items);
    let ghost iv = item_views(items@);
    match strategy {
        TruncationStrategy::Full => {
            let mut out: Vec<RenderedCrumb> = Vec::new();
            let ghost empty = crumb_views(out@);
            assert(empty =~= Seq::<CrumbView>::empty());
            push_shown(&mut out, &indexed_items, 0, indexed_items.len());
            assert(indexed_views(indexed_items@) == indexed_range(iv, 0, items@.len() as int));
            assert(indexed_views(indexed_items@).len() == indexed_items@.len());
            assert(indexed_items@.len() == items@.len());
            assert forall|k: int| 0 <= k < indexed_items@.len() implies #[trigger] indexed_views(indexed_items@)[k] == IndexedView { index: k, item: iv[k] } by {
                assert(indexed_range(iv, 0, items@.len() as int)[k] == IndexedView { index: k, item: iv[k] });
            }
            assert(crumb_views(out@) =~= rendered(iv, strategy));
            out
        }
        TruncationStrategy::Middle { max_visible, ellipsis } => {
            proof {
                lemma_truncated_indexed(iv, 0, *max_visible as int, ellipsis@);
            }
            truncate_middle(&indexed_items, *max_visible, ellipsis)
        }
        TruncationStrategy::Start { max_visible, ellipsis } => {
            proof {
                lemma_truncated_indexed(iv, 1, *max_visible as int, ellipsis@);
            }
            truncate_start(&indexed_items, *max_visible, ellipsis)
        }
        TruncationStrategy::End { max_visible, ellipsis } => {
            proof {
                lemma_truncated_indexed(iv, 2, *max_visible as int, ellipsis@);
            }
            truncate_end(&indexed_items, *max_visible, ellipsis)
        }
        TruncationStrategy::Custom(custom) => {
            let custom_indexed = index_items(custom);
            let mut out: Vec<RenderedCrumb> = Vec::new();
            let ghost empty = crumb_views(out@);
            assert(empty =~= Seq::<CrumbView>::empty());
            push_shown(&mut out, &custom_indexed, 0, custom_indexed.len());
            assert(indexed_views(custom_indexed@) == indexed_range(item_views(custom@), 0, custom@.len() as int));
            assert(indexed_views(custom_indexed@).len() == custom_indexed@.len());
            assert(custom_indexed@.len() == custom@.len());
            assert forall|k: int| 0 <= k < custom_indexed@.len() implies #[trigger] indexed_views(custom_indexed@)[k] == IndexedView { index: k, item: item_views(custom@)[k] } by {
                assert(indexed_range(item_views(custom@), 0, custom@.len() as int)[k] == IndexedView { index: k, item: item_views(custom@)[k] });
            }
            assert(crumb_views(out@) =~= rendered(iv, strategy));
            out
        }
    }
}

/// What a breadcrumb asks of its surroundings after a click.
#[derive(Clone, Copy, PartialEq, Eq, Structural, Debug)]
pub enum BreadcrumbAction {
    /// Run the click callback for the item at an index.
    OnItemClick(usize),
}

/// A navigation trail.
pub struct Breadcrumb {
    pub items: Vec<BreadcrumbItem>,
    pub separator: String,
    pub truncation: TruncationStrategy,
    pub has_on_click: bool,
}

/// The label of an item of the trail under `parent`, with class `c`, marked disabled
/// when the item is.
pub open spec fn crumb_label(parent: nat, it: ItemView, c: Class) -> NodeView {
    label_node(parent, it.label).class(c).toggled(Class::Disabled, it.disabled)
}

/// The tree after the labels of the first `k` hidden items were added to the overflow
/// list at `list`.
pub open spec fn hidden_nodes(s: Seq<NodeView>, list: nat, hidden: Seq<IndexedView>, k: nat) -> Seq<NodeView>
    decreases k,
{
    if k == 0 || k > hidden.len() {
        s
    } else {
        hidden_nodes(s, list, hidden, (k - 1) as nat).push(crumb_label(list, hidden[k - 1].item, Class::BreadcrumbOverflowItem))
    }
}

/// The tree after one rendered entry was built under `parent`: an item's label, or an
/// overflow dropdown with its button, the button's label and the list of hidden items.
pub open spec fn crumb_nodes(s: Seq<NodeView>, parent: nat, c: CrumbView) -> Seq<NodeView> {
    match c {
        CrumbView::Item(iv) => s.push(crumb_label(parent, iv.item, Class::BreadcrumbItem)),
        CrumbView::Overflow(label, hidden) => {
            let d = s.len();
            let t = s.push(NodeView::fresh(Tag::Dropdown, parent).class(Class::BreadcrumbOverflowDropdown))
                .push(NodeView::fresh(Tag::Button, d).with_role(Role::Button).class(Class::BreadcrumbOverflowButton))
                .push(label_node(d + 1, label).class(Class::BreadcrumbItem).class(Class::BreadcrumbOverflow))
                .push(NodeView::fresh(Tag::VStack, d).with_role(Role::GenericContainer).class(Class::BreadcrumbOverflowList));
            hidden_nodes(t, d + 3, hidden, hidden.len())
        },
    }
}

/// The number of nodes a rendered entry takes, with the separator before it.
pub open spec fn crumb_size(c: CrumbView) -> nat {
    match c {
        CrumbView::Item(_) => 2,
        CrumbView::Overflow(_, hidden) => 5 + hidden.len(),
    }
}

/// The number of nodes the first `k` entries of a trail take, at most.
pub open spec fn trail_size(crumbs: Seq<CrumbView>, k: nat) -> nat
    decreases k,
{
    if k == 0 || k > crumbs.len() { 0 } else { trail_size(crumbs, (k - 1) as nat) + crumb_size(crumbs[k - 1]) }
}

/// The tree after the first `k` entries of a rendered trail were built under
/// `parent`, a separator label showing `sep` between neighbours.
pub open spec fn trail_nodes(s: Seq<NodeView>, parent: nat, sep: Seq<char>, crumbs: Seq<CrumbView>, k: nat) -> Seq<NodeView>
    decreases k,
{
    if k == 0 || k > crumbs.len() {
        s
    } else {
        let prev = trail_nodes(s, parent, sep, crumbs, (k - 1) as nat);
        let with_sep = if k > 1 { prev.push(label_node(parent, sep).class(Class::BreadcrumbSeparator)) } else { prev };
        crumb_nodes(with_sep, parent, crumbs[k - 1])
    }
}

/// Adds a label showing `text` under `parent` with class `c`, marked disabled when
/// `disabled`.
fn add_crumb_label(cx: &mut Context, parent: usize, text: String, c: Class, disabled: bool) -> (e: usize)
    requires
        (parent as int) < old(cx)@.len(),
        old(cx)@.len() < usize::MAX,
    ensures
        e == old(cx)@.len(),
        final(cx).cur() == old(cx).cur(),
        final(cx)@ == old(cx)@.push(label_node(parent as nat, text@).class(c).toggled(Class::Disabled, disabled)),
{
    let e = cx.add_child(parent, Tag::Label);
    cx.set_text(e, text);
    cx.set_role(e, Role::Label);
    cx.add_class(e, c);
    cx.toggle_class(e, Class::Disabled, disabled);
    assert(cx@ =~= old(cx)@.push(label_node(parent as nat, text@).class(c).toggled(Class::Disabled, disabled)));
    e
}

/// Builds one rendered entry under `parent`.
fn build_crumb(cx: &mut Context, parent: usize, c: &RenderedCrumb)
    requires
        (parent as int) < old(cx)@.len(),
        old(cx)@.len() + crumb_size(c@) < usize::MAX,
    ensures
        final(cx).cur() == old(cx).cur(),
        final(cx)@ == crumb_nodes(old(cx)@, parent as nat, c@),
        final(cx)@.len() + 1 <= old(cx)@.len() + crumb_size(c@),
{
    match c {
        RenderedCrumb::Item(iv) => {
            let _e = add_crumb_label(cx, parent, iv.item.label.clone(), Class::BreadcrumbItem, iv.item.disabled);
        },
        RenderedCrumb::Overflow { label, hidden_items } => {
            let d = cx.add_child(parent, Tag::Dropdown);
            cx.add_class(d, Class::BreadcrumbOverflowDropdown);
            let b = cx.add_child(d, Tag::Button);
            cx.set_role(b, Role::Button);
            cx.add_class(b, Class::BreadcrumbOverflowButton);
            let l = cx.add_child(b, Tag::Label);
            cx.set_text(l, label.clone());
            cx.set_role(l, Role::Label);
            cx.add_class(l, Class::BreadcrumbItem);
            cx.add_class(l, Class::BreadcrumbOverflow);
            let list = cx.add_child(d, Tag::VStack);
            cx.set_role(list, Role::GenericContainer);
            cx.add_class(list, Class::BreadcrumbOverflowList);
            let ghost t = cx@;
            assert(t =~= old(cx)@.push(NodeView::fresh(Tag::Dropdown, parent as nat).class(Class::BreadcrumbOverflowDropdown))
                .push(NodeView::fresh(Tag::Button, d as nat).with_role(Role::Button).class(Class::BreadcrumbOverflowButton))
                .push(label_node((d + 1) as nat, label@).class(Class::BreadcrumbItem).class(Class::BreadcrumbOverflow))
                .push(NodeView::fresh(Tag::VStack, d as nat).with_role(Role::GenericContainer).class(Class::BreadcrumbOverflowList)));
            let ghost hv = indexed_views(hidden_items@);
            let mut k: usize = 0;
            while k < hidden_items.len()
                invariant
                    0 <= k <= hidden_items@.len(),
                    hv == indexed_views(hidden_items@),
                    list == d + 3,
                    (list as int) < t.len(),
                    t.len() == old(cx)@.len() + 4,
                    old(cx)@.len() + 5 + hidden_items@.len() < usize::MAX,
                    cx@ == hidden_nodes(t, list as nat, hv, k as nat),
                    cx@.len() == t.len() + k,
                    cx.cur() == old(cx).cur(),
                decreases hidden_items@.len() - k,
            {
                let _e = add_crumb_label(cx, list, hidden_items[k].item.label.clone(), Class::BreadcrumbOverflowItem,
                    hidden_items[k].item.disabled);
                k = k + 1;
            }
        },
    }
}

/// The trail's node count grows by each entry's size, at most.
proof fn lemma_trail_len(s: Seq<NodeView>, parent: nat, sep: Seq<char>, crumbs: Seq<CrumbView>, k: nat)
    requires
        k <= crumbs.len(),
    ensures
        trail_nodes(s, parent, sep, crumbs, k).len() <= s.len() + trail_size(crumbs, k),
        k > 0 ==> trail_nodes(s, parent, sep, crumbs, k).len() + 1 <= s.len() + trail_size(crumbs, k),
        trail_nodes(s, parent, sep, crumbs, k).len() >= s.len(),
    decreases k,
{
    if k > 0 {
        lemma_trail_len(s, parent, sep, crumbs, (k - 1) as nat);
        let prev = trail_nodes(s, parent, sep, crumbs, (k - 1) as nat);
        let with_sep = if k > 1 { prev.push(label_node(parent, sep).class(Class::BreadcrumbSeparator)) } else { prev };
        lemma_crumb_len(with_sep, parent, crumbs[k - 1]);
    }
}

/// An entry adds at most its size less one nodes.
proof fn lemma_crumb_len(s: Seq<NodeView>, parent: nat, c: CrumbView)
    ensures
        crumb_nodes(s, parent, c).len() + 1 <= s.len() + crumb_size(c),
        crumb_nodes(s, parent, c).len() >= s.len(),
{
    match c {
        CrumbView::Item(_) => {},
        CrumbView::Overflow(label, hidden) => {
            let d = s.len();
            let t = s.push(NodeView::fresh(Tag::Dropdown, parent).class(Class::BreadcrumbOverflowDropdown))
                .push(NodeView::fresh(Tag::Button, d).with_role(Role::Button).class(Class::BreadcrumbOverflowButton))
                .push(label_node(d + 1, label).class(Class::BreadcrumbItem).class(Class::BreadcrumbOverflow))
                .push(NodeView::fresh(Tag::VStack, d).with_role(Role::GenericContainer).class(Class::BreadcrumbOverflowList));
            lemma_hidden_len(t, d + 3, hidden, hidden.len());
        },
    }
}

/// The hidden items add one label each.
proof fn lemma_hidden_len(s: Seq<NodeView>, list: nat, hidden: Seq<IndexedView>, k: nat)
    requires
        k <= hidden.len(),
    ensures
        hidden_nodes(s, list, hidden, k).len() == s.len() + k,
    decreases k,
{
    if k > 0 {
        lemma_hidden_len(s, list, hidden, (k - 1) as nat);
    }
}

/// Builds a rendered trail under `parent`: each entry in order, with a separator label
/// showing `separator` between neighbours.
pub fn build_trail(cx: &mut Context, parent: usize, separator: &String, crumbs: &Vec<RenderedCrumb>)
    requires
        (parent as int) < old(cx)@.len(),
        old(cx)@.len() + trail_size(crumb_views(crumbs@), crumbs@.len()) < usize::MAX,
    ensures
        final(cx).cur() == old(cx).cur(),
        final(cx)@ == trail_nodes(old(cx)@, parent as nat, separator@, crumb_views(crumbs@), crumbs@.len()),
{
    let ghost cv = crumb_views(crumbs@);
    let mut i: usize = 0;
    while i < crumbs.len()
        invariant
            0 <= i <= crumbs@.len(),
            cv == crumb_views(crumbs@),
            (parent as int) < old(cx)@.len(),
            old(cx)@.len() + trail_size(cv, crumbs@.len()) < usize::MAX,
            cx@ == trail_nodes(old(cx)@, parent as nat, separator@, cv, i as nat),
            cx.cur() == old(cx).cur(),
        decreases crumbs@.len() - i,
    {
        proof {
            lemma_trail_len(old(cx)@, parent as nat, separator@, cv, i as nat);
            lemma_size_mono(cv, (i + 1) as nat, crumbs@.len());
            assert(trail_size(cv, (i + 1) as nat) == trail_size(cv, i as nat) + crumb_size(cv[i as int]));
            assert(cv[i as int] == crumbs@[i as int]@);
        }
        if i > 0 {
            let _sep = add_crumb_label(cx, parent, separator.clone(), Class::BreadcrumbSeparator, false);
            assert(label_node(parent as nat, separator@).class(Class::BreadcrumbSeparator).toggled(Class::Disabled, false)
                == label_node(parent as nat, separator@).class(Class::BreadcrumbSeparator)) by {
                lemma_untoggled_fresh_label(parent as nat, separator@);
            }
        }
        build_crumb(cx, parent, &crumbs[i]);
        i = i + 1;
    }
}

/// A separator label carries no disabled class to remove.
proof fn lemma_untoggled_fresh_label(parent: nat, t: Seq<char>)
    ensures
        label_node(parent, t).class(Class::BreadcrumbSeparator).toggled(Class::Disabled, false)
            == label_node(parent, t).class(Class::BreadcrumbSeparator),
{
    assert(label_node(parent, t).class(Class::BreadcrumbSeparator).classes.remove(Class::Disabled)
        =~= label_node(parent, t).class(Class::BreadcrumbSeparator).classes);
}

/// A trail of items alone takes two nodes per item.
proof fn lemma_items_size(crumbs: Seq<CrumbView>, k: nat)
    requires
        k <= crumbs.len(),
        forall|i: int| 0 <= i < crumbs.len() ==> #[trigger] crumbs[i] is Item,
    ensures
        trail_size(crumbs, k) == 2 * k,
    decreases k,
{
    if k > 0 {
        lemma_items_size(crumbs, (k - 1) as nat);
    }
}

/// Sizes of longer prefixes are no smaller.
proof fn lemma_size_mono(crumbs: Seq<CrumbView>, j: nat, k: nat)
    requires
        j <= k <= crumbs.len(),
    ensures
        trail_size(crumbs, j) <= trail_size(crumbs, k),
    decreases k - j,
{
    if j < k {
        lemma_size_mono(crumbs, j, (k - 1) as nat);
    }
}

impl Breadcrumb {
    /// Builds a breadcrumb node with the navigation role; its trail starts with every
    /// item shown and `/` as separator: inside it, a label for each item, marked
    /// disabled when the item is, with a separator label between neighbours.
    pub fn new(cx: &mut Context, items: Vec<BreadcrumbItem>) -> (h: Handle<Breadcrumb>)
        requires
            old(cx)@.len() + 2 * items@.len() + 1 < usize::MAX,
        ensures
            final(cx).cur() == old(cx).cur(),
            h.entity == old(cx)@.len(),
            item_views(h.view.items@) == item_views(items@),
            h.view.separator@ == seq!['/'],
            h.view.truncation is Full,
            !h.view.has_on_click,
            final(cx)@ == trail_nodes(
                old(cx)@.push(NodeView::fresh(Tag::Breadcrumb, old(cx).cur() as nat).with_role(Role::Navigation)),
                h.entity as nat, seq!['/'], shown_range(item_views(items@), 0, items@.len() as int), items@.len()),
    {
        let e = cx.add(Tag::Breadcrumb);
        cx.set_role(e, Role::Navigation);
        assert(cx@ =~= old(cx)@.push(NodeView::fresh(Tag::Breadcrumb, old(cx).cur() as nat).with_role(Role::Navigation)));
        let separator = String::from_str("/");
        proof {
            reveal_strlit("/");
        }
        assert(separator@ =~= seq!['/']);
        let truncation = TruncationStrategy::Full;
        let crumbs = apply_truncation(&items, &truncation);
        proof {
            let cv = crumb_views(crumbs@);
            assert(cv == shown_range(item_views(items@), 0, items@.len() as int));
            lemma_items_size(cv, cv.len());
        }
        build_trail(cx, e, &separator, &crumbs);
        Handle { entity: e, view: Breadcrumb { items, separator, truncation, has_on_click: false } }
    }

    /// The trail as currently rendered.
    pub fn rendered_items(&self) -> (r: Vec<RenderedCrumb>)
        ensures
            crumb_views(r@) == rendered(item_views(self.items@), &self.truncation),
    {
        apply_truncation(&self.items, &self.truncation)
    }

    /// A click on the item at `index` runs the click callback, when one is attached;
    /// a disabled item, or a position past the trail, takes no clicks.
    pub fn item_click(&self, index: usize) -> (actions: Vec<BreadcrumbAction>)
        ensures
            actions@ == if self.has_on_click && index < self.items@.len() && !self.items@[index as int].disabled {
                seq![BreadcrumbAction::OnItemClick(index)]
            } else {
                Seq::empty()
            },
    {
        let mut actions: Vec<BreadcrumbAction> = Vec::new();
        if self.has_on_click && index < self.items.len() && !self.items[index].disabled {
            actions.push(BreadcrumbAction::OnItemClick(index));
        }
        assert(actions@ =~= if self.has_on_click && index < self.items@.len() && !self.items@[index as int].disabled {
            seq![BreadcrumbAction::OnItemClick(index)]
        } else {
            Seq::<BreadcrumbAction>::empty()
        });
        actions
    }
}

/// Modifiers for a breadcrumb.
pub trait BreadcrumbModifiers: Sized {
    /// Sets the separator shown between items.
    fn separator(self, separator: String) -> Self;

    /// Sets the truncation strategy.
    fn truncation(self, strategy: TruncationStrategy) -> Self;

    /// Attaches the callback that runs when an item is clicked.
    fn on_item_click(self) -> Self;
}

impl BreadcrumbModifiers for Handle<Breadcrumb> {
    fn separator(self, separator: String) -> (h: Self)
        ensures
            h.entity == self.entity,
            h.view.separator@ == separator@,
            h.view.items@ == self.view.items@,
            h.view.has_on_click == self.view.has_on_click,
    {
        let mut h = self;
        h.view.separator = separator;
        h
    }

    fn truncation(self, strategy: TruncationStrategy) -> (h: Self)
        ensures
            h.entity == self.entity,
            h.view.truncation == strategy,
            h.view.items@ == self.view.items@,
            h.view.separator@ == self.view.separator@,
            h.view.has_on_click == self.view.has_on_click,
    {
        let mut h = self;
        h.view.truncation = strategy;
        h
    }

    fn on_item_click(self) -> (h: Self)
        ensures
            h.entity == self.entity,
            h.view.has_on_click,
            h.view.items@ == self.view.items@,
            h.view.separator@ == self.view.separator@,
    {
        let mut h = self;
        h.view.has_on_click = true;
        h
    }
}

} // verus!
