//! Lists: which items are selected and which item has keyboard focus.

use vstd::prelude::*;
use crate::sorted::{lemma_sorted_set_len, sorted_contains, sorted_insert, sorted_remove, strictly_sorted};
use crate::ui::{Class, Context, Handle, Tag, NodeView, Orientation, Role};

verus! {

/// How many items of a list may be selected.
#[derive(Clone, Copy, PartialEq, Eq, Structural, Debug)]
pub enum Selectable {
    /// Items cannot be selected.
    Disabled,
    /// At most one item is selected.
    Single,
    /// Any number of items may be selected.
    Multi,
}

/// Requests handled by a list.
#[derive(Clone, Copy, PartialEq, Eq, Structural, Debug)]
pub enum ListEvent {
    /// Select or deselect the item at an index.
    Select(usize),
    /// Select the focused item.
    SelectFocused,
    /// Move focus to the next item.
    FocusNext,
    /// Move focus to the previous item.
    FocusPrev,
    /// Deselect every item, when nothing has to stay selected.
    ClearSelection,
}

/// What a list asks of its surroundings after handling an event.
#[derive(Clone, Copy, PartialEq, Eq, Structural, Debug)]
pub enum ListAction {
    /// Give the list keyboard focus.
    Focus,
    /// Run the selection callback for an index.
    OnSelect(usize),
    /// Deliver `Select` for an index to the list.
    EmitSelect(usize),
    /// Deliver `SelectFocused` to the list.
    EmitSelectFocused,
}

/// A list of items, with its selection and focus.
pub struct List {
    pub num_items: usize,
    /// The selected indices, in increasing order.
    pub selection: Vec<usize>,
    pub selectable: Selectable,
    pub focused: Option<usize>,
    pub selection_follows_focus: bool,
    pub min_selected: usize,
    pub max_selected: usize,
    pub orientation: Orientation,
    pub scroll_to_cursor: bool,
    pub has_on_select: bool,
    pub has_on_scroll: bool,
    pub show_horizontal_scrollbar: bool,
    pub show_vertical_scrollbar: bool,
}

/// The smallest and largest number of selected items allowed.
pub open spec fn limits(selectable: Selectable, min_selected: usize, max_selected: usize, num_items: usize) -> (usize, usize) {
    let (lo, hi) = match selectable {
        Selectable::Disabled => (0usize, 0usize),
        Selectable::Single => (if min_selected < 1 { min_selected } else { 1usize }, 1usize),
        Selectable::Multi => (min_selected, max_selected),
    };
    let hi2 = if hi < num_items { hi } else { num_items };
    let lo2 = if lo < hi2 { lo } else { hi2 };
    (lo2, hi2)
}

/// Adds the indices `from`, `from + 1`, ... below `n` to `s` until it has `min` elements.
pub open spec fn fill(s: Set<usize>, from: int, n: usize, min: usize) -> Set<usize>
    decreases n - from,
{
    if from >= n || s.len() >= min || from < 0 {
        s
    } else {
        fill(s.insert(from as usize), from + 1, n, min)
    }
}

/// The selection after bringing it within the limits: indices past the end dropped,
/// the largest dropped while too many are left, and the smallest unselected
/// indices added while too few are left.
pub open spec fn normalized_selection(sel: Seq<usize>, n: usize, min: usize, max: usize) -> Set<usize> {
    let kept = sel.filter(|x: usize| x < n);
    let trimmed = if kept.len() > max { kept.take(max as int) } else { kept };
    fill(trimmed.to_set(), 0, n, min)
}

/// The focus after the item count changed: an index past the end moves to the last item.
pub open spec fn normalized_focus(focused: Option<usize>, n: usize) -> Option<usize> {
    match focused {
        Some(f) => if f >= n { if n == 0 { None } else { Some((n - 1) as usize) } } else { Some(f) },
        None => None,
    }
}

/// The largest element of a set of indices, if any.
#[verifier::opaque]
pub open spec fn set_max(s: Set<usize>) -> Option<usize> {
    if exists|x: usize| s.contains(x) {
        Some(choose|x: usize| s.contains(x) && forall|y: usize| s.contains(y) ==> y <= x)
    } else {
        None
    }
}

impl List {
    /// The selection is kept in increasing order.
    pub open spec fn wf(&self) -> bool {
        strictly_sorted(self.selection@)
    }

    /// The selected indices.
    pub open spec fn selected(&self) -> Set<usize> {
        self.selection@.to_set()
    }

    pub open spec fn spec_limits(&self) -> (usize, usize) {
        limits(self.selectable, self.min_selected, self.max_selected, self.num_items)
    }

    /// The selection respects the limits and names only existing items.
    pub open spec fn within_limits(&self) -> bool {
        let (lo, hi) = self.spec_limits();
        &&& lo <= self.selected().len() <= hi
        &&& forall|x: usize| self.selected().contains(x) ==> x < self.num_items
    }

    /// The list's state when built: nothing selectable or selected, nothing focused,
    /// vertical, both scrollbars shown.
    pub open spec fn initial(self, num_items: usize) -> bool {
        &&& self.num_items == num_items
        &&& self.selection@ == Seq::<usize>::empty()
        &&& self.selectable == Selectable::Disabled
        &&& self.focused == None::<usize>
        &&& !self.selection_follows_focus
        &&& self.min_selected == 0
        &&& self.max_selected == usize::MAX
        &&& self.orientation == Orientation::Vertical
        &&& !self.scroll_to_cursor
        &&& !self.has_on_select
        &&& !self.has_on_scroll
        &&& self.show_horizontal_scrollbar
        &&& self.show_vertical_scrollbar
    }

    /// The smallest and largest number of selected items the list allows.
    pub fn selection_limits(&self) -> (r: (usize, usize))
        ensures
            r == self.spec_limits(),
            r.0 <= r.1 <= self.num_items,
    {
        let mut min_selected = self.min_selected;
        let mut max_selected = self.max_selected;
        match self.selectable {
            Selectable::Disabled => {
                min_selected = 0;
                max_selected = 0;
            }
            Selectable::Single => {
                min_selected = if min_selected < 1 { min_selected } else { 1 };
                max_selected = 1;
            }
            Selectable::Multi => {}
        }
        max_selected = if max_selected < self.num_items { max_selected } else { self.num_items };
        min_selected = if min_selected < max_selected { min_selected } else { max_selected };
        (min_selected, max_selected)
    }

    /// Brings the selection within the limits and the focus within the items.
    pub fn normalize_selection_state(&mut self)
        requires
            old(self).wf(),
        ensures
            final(self).wf(),
            final(self).selected() == normalized_selection(old(self).selection@, old(self).num_items,
                old(self).spec_limits().0, old(self).spec_limits().1),
            final(self).focused == normalized_focus(old(self).focused, old(self).num_items),
            final(self).within_limits(),
            final(self).num_items == old(self).num_items,
            final(self).selectable == old(self).selectable,
            final(self).min_selected == old(self).min_selected,
            final(self).max_selected == old(self).max_selected,
            final(self).selection_follows_focus == old(self).selection_follows_focus,
            final(self).orientation == old(self).orientation,
            final(self).scroll_to_cursor == old(self).scroll_to_cursor,
            final(self).has_on_select == old(self).has_on_select,
            final(self).has_on_scroll == old(self).has_on_scroll,
            final(self).show_horizontal_scrollbar == old(self).show_horizontal_scrollbar,
            final(self).show_vertical_scrollbar == old(self).show_vertical_scrollbar,
    {
        let (min_selected, max_selected) = self.selection_limits();
        let n = self.num_items;
        let ghost sel = self.selection@;
        let ghost pred = |x: usize| x < n;
        let mut kept: Vec<usize> = Vec::new();
        let mut i: usize = 0;
        while i < self.selection.len()
            invariant
                0 <= i <= sel.len(),
                sel == self.selection@,
                strictly_sorted(sel),
                n == self.num_items,
                pred == (|x: usize| x < n),
                kept@ == sel.take(i as int).filter(pred),
                strictly_sorted(kept@),
                forall|a: int| 0 <= a < kept@.len() ==> exists|b: int| 0 <= b < i && #[trigger] sel[b] == #[trigger] kept@[a],
            decreases sel.len() - i,
        {
            let x = self.selection[i];
            proof {
                reveal(Seq::filter);
                assert(sel.take(i + 1).drop_last() =~= sel.take(i as int));
                assert(sel.take(i + 1).last() == x);
            }
            let ghost before = kept@;
            if x < n {
                kept.push(x);
                proof {
                    assert forall|a: int, c: int| 0 <= a < c < kept@.len() implies kept@[a] < kept@[c] by {
                        if c == kept@.len() - 1 {
                            assert(before[a] == kept@[a]);
                            let b = choose|b: int| 0 <= b < i && #[trigger] sel[b] == #[trigger] before[a];
                            assert(sel[b] < sel[i as int]);
                        }
                    }
                    assert forall|a: int| 0 <= a < kept@.len() implies exists|b: int| 0 <= b < i + 1 && #[trigger] sel[b] == #[trigger] kept@[a] by {
                        if a == kept@.len() - 1 {
                            assert(sel[i as int] == kept@[a]);
                        } else {
                            assert(before[a] == kept@[a]);
                            let b = choose|b: int| 0 <= b < i && #[trigger] sel[b] == #[trigger] before[a];
                            assert(sel[b] == kept@[a]);
                        }
                    }
                }
            }
            i = i + 1;
        }
        assert(sel.take(sel.len() as int) =~= sel);
        let ghost filtered = kept@;
        proof {
            assert forall|a: int| 0 <= a < filtered.len() implies filtered[a] < n by {
                broadcast use vstd::seq_lib::group_filter_ensures;
                assert(filtered.contains(filtered[a]));
            }
        }
        if kept.len() > max_selected {
            kept.truncate(max_selected);
        }
        let ghost trimmed = kept@;
        proof {
            assert(trimmed == if filtered.len() > max_selected { filtered.take(max_selected as int) } else { filtered });
            assert(strictly_sorted(trimmed));
            lemma_sorted_set_len(trimmed);
        }
        let mut index: usize = 0;
        while index < n && kept.len() < min_selected
            invariant
                0 <= index <= n,
                min_selected <= max_selected <= n,
                strictly_sorted(kept@),
                trimmed.len() <= max_selected,
                kept@.len() <= (if trimmed.len() > min_selected { trimmed.len() } else { min_selected as nat }),
                fill(kept@.to_set(), index as int, n, min_selected) == fill(trimmed.to_set(), 0, n, min_selected),
                forall|x: usize| kept@.to_set().contains(x) ==> x < n,
                forall|x: usize| (x < index || trimmed.to_set().contains(x)) ==> #[trigger] kept@.to_set().contains(x),
            decreases n - index,
        {
            proof {
                lemma_sorted_set_len(kept@);
            }
            sorted_insert(&mut kept, index);
            proof {
                lemma_sorted_set_len(kept@);
            }
            index = index + 1;
        }
        proof {
            lemma_sorted_set_len(kept@);
            assert(fill(kept@.to_set(), index as int, n, min_selected) == kept@.to_set());
            assert forall|a: int| 0 <= a < trimmed.len() implies trimmed[a] < n by {
                if filtered.len() > max_selected {
                    assert(trimmed[a] == filtered[a]);
                }
            }
            if kept@.len() < min_selected {
                assert(index == n);
                lemma_range_len(kept@.to_set(), n);
            }
        }
        self.selection = kept;
        let mut focused = self.focused;
        if let Some(f) = focused {
            if f >= n {
                focused = if n == 0 { None } else { Some(n - 1) };
            }
        }
        self.focused = focused;
    }
}

impl List {
    /// The selection after `event`.
    pub open spec fn selection_after(&self, event: ListEvent) -> Set<usize> {
        let (lo, hi) = self.spec_limits();
        let s = self.selected();
        match event {
            ListEvent::Select(index) => match self.selectable {
                Selectable::Single => if s.contains(index) {
                    if lo == 0 { Set::empty() } else { s }
                } else {
                    Set::empty().insert(index)
                },
                Selectable::Multi => if s.contains(index) {
                    if s.len() > lo { s.remove(index) } else { s }
                } else {
                    if s.len() < hi { s.insert(index) } else { s }
                },
                Selectable::Disabled => s,
            },
            ListEvent::ClearSelection => if lo == 0 { Set::empty() } else { s },
            _ => s,
        }
    }

    /// The focused item after `event`.
    pub open spec fn focus_after(&self, event: ListEvent) -> Option<usize> {
        let (lo, hi) = self.spec_limits();
        let s = self.selected();
        let last = if self.num_items == 0 { 0usize } else { (self.num_items - 1) as usize };
        match event {
            ListEvent::Select(index) => match self.selectable {
                Selectable::Single => if s.contains(index) {
                    if lo == 0 { None } else { self.focused }
                } else {
                    Some(index)
                },
                Selectable::Multi => if s.contains(index) {
                    if s.len() > lo {
                        if self.focused == Some(index) { set_max(s.remove(index)) } else { self.focused }
                    } else {
                        self.focused
                    }
                } else {
                    if s.len() < hi { Some(index) } else { self.focused }
                },
                Selectable::Disabled => self.focused,
            },
            ListEvent::FocusNext => match self.focused {
                Some(f) => if f < last { Some((f + 1) as usize) } else { Some(f) },
                None => Some(0usize),
            },
            ListEvent::FocusPrev => match self.focused {
                Some(f) => if f > 0 { Some((f - 1) as usize) } else { Some(f) },
                None => Some(last),
            },
            _ => self.focused,
        }
    }

    /// What the list asks of its surroundings after `event`.
    pub open spec fn actions_after(&self, event: ListEvent) -> Seq<ListAction> {
        let (lo, hi) = self.spec_limits();
        let s = self.selected();
        let last = if self.num_items == 0 { 0usize } else { (self.num_items - 1) as usize };
        let follow = if self.selection_follows_focus { seq![ListAction::EmitSelectFocused] } else { Seq::empty() };
        let notify = |i: usize| if self.has_on_select { seq![ListAction::OnSelect(i)] } else { Seq::<ListAction>::empty() };
        match event {
            ListEvent::Select(index) => seq![ListAction::Focus] + match self.selectable {
                Selectable::Single => if s.contains(index) { Seq::empty() } else { notify(index) },
                Selectable::Multi => if !s.contains(index) && s.len() < hi { notify(index) } else { Seq::empty() },
                Selectable::Disabled => Seq::empty(),
            },
            ListEvent::SelectFocused => match self.focused {
                Some(f) => seq![ListAction::EmitSelect(f)],
                None => Seq::empty(),
            },
            ListEvent::FocusNext => match self.focused {
                Some(f) => if f < last { follow } else { Seq::empty() },
                None => follow,
            },
            ListEvent::FocusPrev => match self.focused {
                Some(f) => if f > 0 { follow } else { Seq::empty() },
                None => follow,
            },
            ListEvent::ClearSelection => Seq::empty(),
        }
    }

    /// Handles a list event; every list event is consumed.
    pub fn event(&mut self, event: ListEvent) -> (actions: Vec<ListAction>)
        requires
            old(self).wf(),
        ensures
            final(self).wf(),
            final(self).selected() == old(self).selection_after(event),
            final(self).focused == old(self).focus_after(event),
            actions@ == old(self).actions_after(event),
            final(self).num_items == old(self).num_items,
            final(self).selectable == old(self).selectable,
            final(self).min_selected == old(self).min_selected,
            final(self).max_selected == old(self).max_selected,
            final(self).selection_follows_focus == old(self).selection_follows_focus,
            final(self).orientation == old(self).orientation,
            final(self).scroll_to_cursor == old(self).scroll_to_cursor,
            final(self).has_on_select == old(self).has_on_select,
            final(self).has_on_scroll == old(self).has_on_scroll,
            final(self).show_horizontal_scrollbar == old(self).show_horizontal_scrollbar,
            final(self).show_vertical_scrollbar == old(self).show_vertical_scrollbar,
    {
        let mut actions: Vec<ListAction> = Vec::new();
        let last = if self.num_items == 0 { 0 } else { self.num_items - 1 };
        proof {
            lemma_sorted_set_len(self.selection@);
        }
        match event {
            ListEvent::Select(index) => {
                actions.push(ListAction::Focus);
                let (min_selected, max_selected) = self.selection_limits();
                match self.selectable {
                    Selectable::Single => {
                        if sorted_contains(&self.selection, index) {
                            if min_selected == 0 {
                                self.selection = Vec::new();
                                self.focused = None;
                                assert(self.selection@.to_set() =~= Set::<usize>::empty());
                            }
                        } else {
                            let mut one: Vec<usize> = Vec::new();
                            one.push(index);
                            self.selection = one;
                            self.focused = Some(index);
                            assert(self.selection@.to_set() =~= Set::<usize>::empty().insert(index)) by {
                                assert(self.selection@[0] == index);
                            }
                            if self.has_on_select {
                                actions.push(ListAction::OnSelect(index));
                            }
                        }
                    }
                    Selectable::Multi => {
                        if sorted_contains(&self.selection, index) {
                            if self.selection.len() > min_selected {
                                sorted_remove(&mut self.selection, index);
                                if self.focused == Some(index) {
                                    self.focused = if self.selection.len() == 0 {
                                        None
                                    } else {
                                        Some(self.selection[self.selection.len() - 1])
                                    };
                                    proof {
                                        lemma_last_is_max(self.selection@);
                                    }
                                }
                            }
                        } else {
                            if self.selection.len() < max_selected {
                                sorted_insert(&mut self.selection, index);
                                self.focused = Some(index);
                                if self.has_on_select {
                                    actions.push(ListAction::OnSelect(index));
                                }
                            }
                        }
                    }
                    Selectable::Disabled => {}
                }
            }
            ListEvent::SelectFocused => {
                if let Some(f) = self.focused {
                    actions.push(ListAction::EmitSelect(f));
                }
            }
            ListEvent::ClearSelection => {
                let (min_selected, _) = self.selection_limits();
                if min_selected == 0 {
                    self.selection = Vec::new();
                    assert(self.selection@.to_set() =~= Set::<usize>::empty());
                }
            }
            ListEvent::FocusNext => {
                match self.focused {
                    Some(f) => {
                        if f < last {
                            self.focused = Some(f + 1);
                            if self.selection_follows_focus {
                                actions.push(ListAction::EmitSelectFocused);
                            }
                        }
                    }
                    None => {
                        self.focused = Some(0);
                        if self.selection_follows_focus {
                            actions.push(ListAction::EmitSelectFocused);
                        }
                    }
                }
            }
            ListEvent::FocusPrev => {
                match self.focused {
                    Some(f) => {
                        if f > 0 {
                            self.focused = Some(f - 1);
                            if self.selection_follows_focus {
                                actions.push(ListAction::EmitSelectFocused);
                            }
                        }
                    }
                    None => {
                        self.focused = Some(last);
                        if self.selection_follows_focus {
                            actions.push(ListAction::EmitSelectFocused);
                        }
                    }
                }
            }
        }
        assert(actions@ =~= old(self).actions_after(event));
        actions
    }
}

/// A finite set of indices with an element has a largest element.
proof fn lemma_max_exists(s: Set<usize>) -> (m: usize)
    requires
        s.finite(),
        s.len() > 0,
    ensures
        s.contains(m),
        forall|y: usize| s.contains(y) ==> y <= m,
    decreases s.len(),
{
    let x = s.choose();
    let t = s.remove(x);
    if t.len() == 0 {
        assert forall|y: usize| s.contains(y) implies y <= x by {
            if y != x {
                assert(t.contains(y));
            }
        }
        x
    } else {
        let m2 = lemma_max_exists(t);
        let m = if x < m2 { m2 } else { x };
        assert forall|y: usize| s.contains(y) implies y <= m by {
            if y != x {
                assert(t.contains(y));
            }
        }
        m
    }
}

/// The largest element of a finite set belongs to the set.
pub proof fn lemma_set_max_member(s: Set<usize>)
    requires
        s.finite(),
    ensures
        set_max(s) matches Some(m) ==> s.contains(m),
{
    reveal(set_max);
    if exists|x: usize| s.contains(x) {
        let w = choose|x: usize| s.contains(x);
        assert(s.len() > 0) by {
            if s.len() == 0 {
                assert(s =~= Set::<usize>::empty());
            }
        }
        let m = lemma_max_exists(s);
        assert(s.contains(m) && forall|y: usize| s.contains(y) ==> y <= m);
    }
}

/// The last element of a nonempty increasing sequence is the largest element of its set.
pub proof fn lemma_last_is_max(s: Seq<usize>)
    requires
        strictly_sorted(s),
    ensures
        s.len() == 0 ==> set_max(s.to_set()) == None::<usize>,
        s.len() > 0 ==> set_max(s.to_set()) == Some(s.last()),
{
    reveal(set_max);
    if s.len() > 0 {
        let m = s.last();
        assert(s.to_set().contains(m));
        assert forall|y: usize| s.to_set().contains(y) implies y <= m by {
            let k = choose|k: int| 0 <= k < s.len() && s[k] == y;
            if k < s.len() - 1 {
                assert(s[k] < s[s.len() - 1]);
            }
        }
        let x = choose|x: usize| s.to_set().contains(x) && forall|y: usize| s.to_set().contains(y) ==> y <= x;
        assert(x <= m && m <= x);
    } else {
        assert(!exists|x: usize| s.to_set().contains(x));
    }
}

/// Selecting an existing item keeps the selection within the list's limits.
pub proof fn law_select_keeps_limits(l: List, index: usize)
    requires
        l.wf(),
        l.within_limits(),
        index < l.num_items,
    ensures
        ({
            let (lo, hi) = l.spec_limits();
            let s = l.selection_after(ListEvent::Select(index));
            &&& lo <= s.len() <= hi
            &&& forall|x: usize| s.contains(x) ==> x < l.num_items
        }),
{
    lemma_sorted_set_len(l.selection@);
    let s = l.selected();
    match l.selectable {
        Selectable::Single => {
            if !s.contains(index) {
                assert(Set::<usize>::empty().insert(index).len() == 1);
            }
        }
        _ => {}
    }
}

/// Moving focus keeps it on an existing item, and selecting keeps the focused item
/// an existing one.
pub proof fn law_focus_stays_on_items(l: List, event: ListEvent)
    requires
        l.wf(),
        forall|x: usize| l.selected().contains(x) ==> x < l.num_items,
        l.num_items > 0,
        event matches ListEvent::Select(index) ==> index < l.num_items,
        l.focused matches Some(f) ==> f < l.num_items,
    ensures
        l.focus_after(event) matches Some(f) ==> f < l.num_items,
{
    match event {
        ListEvent::Select(index) => {
            let s = l.selected();
            lemma_sorted_set_len(l.selection@);
            lemma_set_max_member(s.remove(index));
        }
        _ => {}
    }
}

impl List {
    /// Builds a list of `num_items` items: the list node, the scroll view inside it,
    /// and one list item per index inside the scroll view.
    pub fn new(cx: &mut Context, num_items: usize) -> (h: Handle<List>)
        requires
            old(cx)@.len() + num_items + 2 < usize::MAX,
        ensures
            final(cx).cur() == old(cx).cur(),
            h.entity == old(cx)@.len(),
            h.view.wf(),
            h.view.initial(num_items),
            final(cx)@ == old(cx)@.push(list_node(old(cx).cur() as nat))
                .push(NodeView::fresh(Tag::ScrollView, h.entity as nat))
                + Seq::new(num_items as nat, |i: int| list_item_node((h.entity + 1) as nat, i as usize, None, Set::empty())),
    {
        let parent = cx.current();
        let e = cx.add(Tag::List);
        cx.toggle_class(e, Class::Selectable, false);
        cx.set_navigable(e, true);
        cx.set_role(e, Role::List);
        cx.set_current(e);
        let sv = cx.add(Tag::ScrollView);
        cx.set_current(sv);
        let ghost base = cx@;
        let mut i: usize = 0;
        while i < num_items
            invariant
                0 <= i <= num_items,
                cx.cur() == sv,
                sv == e + 1,
                base.len() == e + 2,
                cx@.len() == base.len() + i,
                base.len() + num_items < usize::MAX,
                cx@ == base + Seq::new(i as nat, |k: int| list_item_node(sv as nat, k as usize, None, Set::empty())),
            decreases num_items - i,
        {
            let ghost before = cx@;
            let _item = ListItem::new(cx, i, None, &Vec::new());
            assert(cx@ =~= base + Seq::new((i + 1) as nat, |k: int| list_item_node(sv as nat, k as usize, None, Set::empty())));
            i = i + 1;
        }
        cx.set_current(parent);
        proof {
            assert(old(cx)@[parent as int].classes.remove(Class::Selectable) =~= old(cx)@[parent as int].classes.remove(Class::Selectable));
            assert(NodeView::fresh(Tag::List, parent as nat).toggled(Class::Selectable, false).classes =~= Set::<Class>::empty());
        }
        let view = List {
            num_items,
            selection: Vec::new(),
            selectable: Selectable::Disabled,
            focused: None,
            selection_follows_focus: false,
            min_selected: 0,
            max_selected: usize::MAX,
            orientation: Orientation::Vertical,
            scroll_to_cursor: false,
            has_on_select: false,
            has_on_scroll: false,
            show_horizontal_scrollbar: true,
            show_vertical_scrollbar: true,
        };
        Handle { entity: e, view }
    }
}

impl List {
    /// The list now shows `n` items: the selection is brought within the limits and
    /// the focus within the items.
    pub fn set_num_items(&mut self, n: usize)
        requires
            old(self).wf(),
        ensures
            final(self).wf(),
            final(self).num_items == n,
            final(self).selected() == normalized_selection(old(self).selection@, n,
                limits(old(self).selectable, old(self).min_selected, old(self).max_selected, n).0,
                limits(old(self).selectable, old(self).min_selected, old(self).max_selected, n).1),
            final(self).focused == normalized_focus(old(self).focused, n),
            final(self).within_limits(),
            final(self).selectable == old(self).selectable,
            final(self).min_selected == old(self).min_selected,
            final(self).max_selected == old(self).max_selected,
    {
        self.num_items = n;
        self.normalize_selection_state();
    }
}

/// How many leading items a list keeps when its values change from `prev` to `new`:
/// those up to the first position where the values differ. The items after it are
/// removed and built again from the new values.
pub fn first_difference(prev: &Vec<u64>, new: &Vec<u64>) -> (keep: usize)
    ensures
        keep <= prev@.len() && keep <= new@.len(),
        prev@.take(keep as int) == new@.take(keep as int),
        keep < prev@.len() && keep < new@.len() ==> prev@[keep as int] != new@[keep as int],
{
    let n = if prev.len() < new.len() { prev.len() } else { new.len() };
    let mut i: usize = 0;
    while i < n
        invariant
            0 <= i <= n,
            n <= prev@.len() && n <= new@.len(),
            n == prev@.len() || n == new@.len(),
            prev@.take(i as int) == new@.take(i as int),
        decreases n - i,
    {
        if prev[i] != new[i] {
            return i;
        }
        assert(prev@.take(i + 1) =~= prev@.take(i as int).push(prev@[i as int]));
        assert(new@.take(i + 1) =~= new@.take(i as int).push(new@[i as int]));
        i = i + 1;
    }
    i
}

/// The node of a list when built.
pub open spec fn list_node(parent: nat) -> NodeView {
    NodeView::fresh(Tag::List, parent).with_navigable(true).with_role(Role::List)
}

/// The node of the list item at `index`, for a focus and a selection.
pub open spec fn list_item_node(parent: nat, index: usize, focused: Option<usize>, selection: Set<usize>) -> NodeView {
    NodeView::fresh(Tag::ListItem, parent)
        .with_role(Role::ListItem)
        .toggled(Class::Focused, focused == Some(index))
        .with_checked(selection.contains(index))
}

/// One item of a list.
pub struct ListItem {
    pub index: usize,
    /// Whether the item is selected.
    pub selected: bool,
}

impl ListItem {
    /// Builds the item at `index` under the current node: marked focused when it is the
    /// focused item and checked when it is selected.
    pub fn new(cx: &mut Context, index: usize, focused: Option<usize>, selection: &Vec<usize>) -> (h: Handle<ListItem>)
        requires
            old(cx)@.len() + 1 < usize::MAX,
        ensures
            final(cx).cur() == old(cx).cur(),
            final(cx)@.len() == old(cx)@.len() + 1,
            h.entity == old(cx)@.len(),
            h.view.index == index,
            h.view.selected == selection@.contains(index),
            final(cx)@ == old(cx)@.push(list_item_node(old(cx).cur() as nat, index, focused, selection@.to_set())),
    {
        let selected = sorted_contains(selection, index);
        let is_focused = match focused {
            Some(f) => f == index,
            None => false,
        };
        let e = cx.add(Tag::ListItem);
        cx.set_role(e, Role::ListItem);
        cx.toggle_class(e, Class::Focused, is_focused);
        cx.set_checked(e, selected);
        proof {
            assert(selection@.to_set().contains(index) == selection@.contains(index));
            assert(cx@ =~= old(cx)@.push(list_item_node(old(cx).cur() as nat, index, focused, selection@.to_set())));
        }
        Handle { entity: e, view: ListItem { index, selected } }
    }
}

/// Modifiers for a list.
impl Handle<List> {
    /// Selects exactly the given indices, focusing the last of them, then brings the
    /// selection within the limits.
    pub fn selection(self, selection: &Vec<usize>) -> (h: Self)
        requires
            self.view.wf(),
        ensures
            h.view.wf(),
            h.view.within_limits(),
            h.view.selected() == normalized_selection(sorted_of(selection@), self.view.num_items,
                self.view.spec_limits().0, self.view.spec_limits().1),
            h.view.focused == normalized_focus(
                if selection@.len() == 0 { None } else { Some(selection@.last()) }, self.view.num_items),
            h.entity == self.entity,
    {
        let mut h = self;
        let mut set: Vec<usize> = Vec::new();
        let mut focused: Option<usize> = None;
        let mut i: usize = 0;
        while i < selection.len()
            invariant
                0 <= i <= selection@.len(),
                strictly_sorted(set@),
                set@.to_set() == selection@.take(i as int).to_set(),
                focused == if i == 0 { None } else { Some(selection@[i - 1]) },
            decreases selection@.len() - i,
        {
            sorted_insert(&mut set, selection[i]);
            focused = Some(selection[i]);
            assert(selection@.take(i + 1).to_set() =~= selection@.take(i as int).to_set().insert(selection@[i as int])) by {
                assert(selection@.take(i + 1) =~= selection@.take(i as int).push(selection@[i as int]));
                selection@.take(i as int).lemma_push_to_set_commute(selection@[i as int]);
            }
            i = i + 1;
        }
        assert(selection@.take(selection@.len() as int) =~= selection@);
        let ghost sorted = set@;
        h.view.selection = set;
        h.view.focused = focused;
        h.view.normalize_selection_state();
        proof {
            lemma_sorted_of(selection@, h.view.selection@, sorted);
        }
        h
    }

    /// Attaches the callback that runs when an item is selected.
    pub fn on_select(self) -> (h: Self)
        ensures
            h.entity == self.entity,
            h.view.has_on_select,
            h.view.selection@ == self.view.selection@,
            h.view.focused == self.view.focused,
    {
        let mut h = self;
        h.view.has_on_select = true;
        h
    }

    /// Sets how many items may be selected, then brings the selection within the limits.
    pub fn selectable(self, selectable: Selectable) -> (h: Self)
        requires
            self.view.wf(),
        ensures
            h.view.wf(),
            h.view.within_limits(),
            h.entity == self.entity,
            h.view.selectable == selectable,
            h.view.selected() == normalized_selection(self.view.selection@, self.view.num_items,
                limits(selectable, self.view.min_selected, self.view.max_selected, self.view.num_items).0, limits(selectable, self.view.min_selected, self.view.max_selected, self.view.num_items).1),
    {
        let mut h = self;
        h.view.selectable = selectable;
        h.view.normalize_selection_state();
        h
    }

    /// Sets the least number of selected items, then brings the selection within the limits.
    pub fn min_selected(self, min_selected: usize) -> (h: Self)
        requires
            self.view.wf(),
        ensures
            h.view.wf(),
            h.view.within_limits(),
            h.entity == self.entity,
            h.view.min_selected == min_selected,
            h.view.selected() == normalized_selection(self.view.selection@, self.view.num_items,
                limits(self.view.selectable, min_selected, self.view.max_selected, self.view.num_items).0, limits(self.view.selectable, min_selected, self.view.max_selected, self.view.num_items).1),
    {
        let mut h = self;
        h.view.min_selected = min_selected;
        h.view.normalize_selection_state();
        h
    }

    /// Sets the largest number of selected items, then brings the selection within the limits.
    pub fn max_selected(self, max_selected: usize) -> (h: Self)
        requires
            self.view.wf(),
        ensures
            h.view.wf(),
            h.view.within_limits(),
            h.entity == self.entity,
            h.view.max_selected == max_selected,
            h.view.selected() == normalized_selection(self.view.selection@, self.view.num_items,
                limits(self.view.selectable, self.view.min_selected, max_selected, self.view.num_items).0, limits(self.view.selectable, self.view.min_selected, max_selected, self.view.num_items).1),
    {
        let mut h = self;
        h.view.max_selected = max_selected;
        h.view.normalize_selection_state();
        h
    }

    /// Sets whether moving focus also selects the focused item.
    pub fn selection_follows_focus(self, flag: bool) -> (h: Self)
        ensures
            h.entity == self.entity,
            h.view.selection_follows_focus == flag,
            h.view.selection@ == self.view.selection@,
    {
        let mut h = self;
        h.view.selection_follows_focus = flag;
        h
    }

    /// Lays the list out horizontally or vertically.
    pub fn horizontal(self, horizontal: bool) -> (h: Self)
        ensures
            h.entity == self.entity,
            h.view.orientation == if horizontal { Orientation::Horizontal } else { Orientation::Vertical },
            h.view.selection@ == self.view.selection@,
    {
        let mut h = self;
        h.view.orientation = if horizontal { Orientation::Horizontal } else { Orientation::Vertical };
        h
    }

    /// Sets whether the list scrolls to the focused item.
    pub fn scroll_to_cursor(self, flag: bool) -> (h: Self)
        ensures
            h.entity == self.entity,
            h.view.scroll_to_cursor == flag,
            h.view.selection@ == self.view.selection@,
    {
        let mut h = self;
        h.view.scroll_to_cursor = flag;
        h
    }

    /// Attaches the callback that runs when the list scrolls.
    pub fn on_scroll(self) -> (h: Self)
        ensures
            h.entity == self.entity,
            h.view.has_on_scroll,
            h.view.selection@ == self.view.selection@,
    {
        let mut h = self;
        h.view.has_on_scroll = true;
        h
    }

    /// Sets whether the horizontal scrollbar is shown.
    pub fn show_horizontal_scrollbar(self, flag: bool) -> (h: Self)
        ensures
            h.entity == self.entity,
            h.view.show_horizontal_scrollbar == flag,
            h.view.selection@ == self.view.selection@,
    {
        let mut h = self;
        h.view.show_horizontal_scrollbar = flag;
        h
    }

    /// Sets whether the vertical scrollbar is shown.
    pub fn show_vertical_scrollbar(self, flag: bool) -> (h: Self)
        ensures
            h.entity == self.entity,
            h.view.show_vertical_scrollbar == flag,
            h.view.selection@ == self.view.selection@,
    {
        let mut h = self;
        h.view.show_vertical_scrollbar = flag;
        h
    }
}

/// Some increasing sequence holding the same set of indices as `s`.
pub open spec fn sorted_of(s: Seq<usize>) -> Seq<usize> {
    choose|t: Seq<usize>| strictly_sorted(t) && t.to_set() == s.to_set()
}

/// The selection brought within limits depends only on the set of indices given.
proof fn lemma_sorted_of(s: Seq<usize>, result: Seq<usize>, t: Seq<usize>)
    requires
        strictly_sorted(t),
        t.to_set() == s.to_set(),
    ensures
        sorted_of(s) == t,
{
    let u = sorted_of(s);
    assert(strictly_sorted(u) && u.to_set() == s.to_set());
    lemma_sorted_unique(u, t);
}

/// Dropping the last element of an increasing sequence takes its largest element out of its set.
proof fn lemma_drop_last_set(a: Seq<usize>)
    requires
        strictly_sorted(a),
        a.len() > 0,
    ensures
        a.drop_last().to_set() == a.to_set().remove(a.last()),
        strictly_sorted(a.drop_last()),
{
    let a2 = a.drop_last();
    let m = a.last();
    assert forall|y: usize| a2.to_set().contains(y) implies y != m by {
        let k = choose|k: int| 0 <= k < a2.len() && a2[k] == y;
        assert(a[k] < a[a.len() - 1]);
    }
    assert forall|y: usize| a.to_set().contains(y) && y != m implies a2.to_set().contains(y) by {
        let k = choose|k: int| 0 <= k < a.len() && a[k] == y;
        assert(a2[k] == y);
    }
    assert(a2.to_set() =~= a.to_set().remove(m));
}

/// The last element of a nonempty increasing sequence is in its set and bounds it.
proof fn lemma_last_bounds(s: Seq<usize>)
    requires
        strictly_sorted(s),
        s.len() > 0,
    ensures
        s.to_set().contains(s.last()),
        forall|y: usize| s.to_set().contains(y) ==> y <= s.last(),
{
    assert(s[s.len() - 1] == s.last());
    assert forall|y: usize| s.to_set().contains(y) implies y <= s.last() by {
        let k = choose|k: int| 0 <= k < s.len() && s[k] == y;
        if k < s.len() - 1 {
            assert(s[k] < s[s.len() - 1]);
        }
    }
}

/// Two increasing sequences holding the same set are equal.
pub proof fn lemma_sorted_unique(a: Seq<usize>, b: Seq<usize>)
    requires
        strictly_sorted(a),
        strictly_sorted(b),
        a.to_set() == b.to_set(),
    ensures
        a == b,
    decreases a.len(),
{
    lemma_sorted_set_len(a);
    lemma_sorted_set_len(b);
    if a.len() > 0 {
        lemma_last_bounds(a);
        lemma_last_bounds(b);
        assert(a.to_set().contains(a.last()));
        assert(b.to_set().contains(b.last()));
        assert(a.last() <= b.last() && b.last() <= a.last());
        lemma_drop_last_set(a);
        lemma_drop_last_set(b);
        lemma_sorted_unique(a.drop_last(), b.drop_last());
        assert(a =~= a.drop_last().push(a.last()));
        assert(b =~= b.drop_last().push(b.last()));
    }
}

/// A finite set holding every index below `n` has at least `n` elements.
pub proof fn lemma_range_len(s: Set<usize>, n: usize)
    requires
        s.finite(),
        forall|x: usize| x < n ==> #[trigger] s.contains(x),
    ensures
        s.len() >= n,
    decreases n,
{
    if n > 0 {
        let m = (n - 1) as usize;
        let t = s.remove(m);
        assert(s.contains(m));
        assert forall|x: usize| x < m implies #[trigger] t.contains(x) by {
            assert(s.contains(x));
        }
        lemma_range_len(t, m);
    }
}


/// Selecting an item reports to the select callback only an item that the event
/// newly selects: `OnSelect(j)` is among the actions only for the item selected, and
/// only when it was not selected before and is selected after. And when the item is
/// newly selected and a callback is attached, it is reported.
pub proof fn law_select_reports_only_additions(l: List, i: usize)
    ensures
        forall|k: int| 0 <= k < l.actions_after(ListEvent::Select(i)).len() ==>
            (#[trigger] l.actions_after(ListEvent::Select(i))[k] matches ListAction::OnSelect(j)
                ==> j == i && !l.selected().contains(i) && l.selection_after(ListEvent::Select(i)).contains(i)),
        (l.has_on_select && !l.selected().contains(i) && l.selection_after(ListEvent::Select(i)).contains(i))
            ==> l.actions_after(ListEvent::Select(i)).contains(ListAction::OnSelect(i)),
{
    let acts = l.actions_after(ListEvent::Select(i));
    if l.has_on_select && !l.selected().contains(i) && l.selection_after(ListEvent::Select(i)).contains(i) {
        assert(acts[1] == ListAction::OnSelect(i));
    }
}

} // verus!
