//! A list whose rows can be dragged onto, before or after one another.
//!
//! Where a dragged row lands is decided from the row's bounds and the cursor: the upper
//! quarter of a row means before it, the lower quarter after it, and the middle onto it,
//! unless the row is the one being dragged. Positions are physical pixels.

use vstd::prelude::*;
use crate::layout::{Element, VStack};
use crate::scroll::{scrollbar_nodes, ScrollView};
use crate::ui::{Class, Context, Handle, NodeView, Orientation, Role, Tag};

verus! {

/// Where a dragged row is dropped, relative to the row at an index.
#[derive(Clone, Copy, PartialEq, Eq, Structural, Debug)]
pub enum DropTarget {
    Before(usize),
    Onto(usize),
    After(usize),
}

/// Where a dropped row came from: a row index of this list, or a list node and a row
/// index of another list.
#[derive(Clone, Copy, PartialEq, Eq, Structural, Debug)]
pub enum DropSource {
    Internal(usize),
    External(usize, usize),
}

/// What a drag carries.
#[derive(Clone, Copy, PartialEq, Eq, Structural, Debug)]
pub enum DropData {
    /// A row of a list: the list's node, the row's node and the row's index.
    Reorder { source_list: usize, source_item: usize, source_index: usize },
    /// Anything else.
    Other,
}

/// Requests handled by a reorderable list.
#[derive(Clone, Copy, PartialEq, Eq, Structural, Debug)]
pub enum ReorderableListEvent {
    /// A drag ended over one of the rows.
    Drop(DropData),
    /// Forget the drop target and the dragged row.
    ClearDropState,
}

/// The state of a reorderable list.
pub struct ReorderableList {
    pub num_items: usize,
    pub drop_target: Option<DropTarget>,
    /// The node of the row being dragged.
    pub dragged_item: Option<usize>,
    pub accept_external_reorder: bool,
    pub scroll_to_cursor: bool,
    pub show_horizontal_scrollbar: bool,
    pub show_vertical_scrollbar: bool,
    pub has_on_row_drop: bool,
    pub has_on_scroll: bool,
    /// The node of the first row; the rows follow one another.
    pub first_row: usize,
    /// The node of the drop indicator.
    pub indicator: usize,
    /// The vertical and the horizontal scrollbar.
    pub scrollbars: (usize, usize),
}

/// The target for a cursor at height `y` over a row spanning `top ..= top + h`, while
/// dragging; `None` when the cursor is outside the row.
pub open spec fn move_target(top: int, h: int, y: int, index: usize, own_row: bool) -> Option<DropTarget> {
    if y < top || y > top + h {
        None
    } else if 4 * y < 4 * top + h {
        Some(DropTarget::Before(index))
    } else if 4 * y > 4 * top + 3 * h {
        Some(DropTarget::After(index))
    } else if !own_row {
        Some(DropTarget::Onto(index))
    } else if 2 * y < 2 * top + h {
        Some(DropTarget::Before(index))
    } else {
        Some(DropTarget::After(index))
    }
}

/// The target for a cursor at height `y` over a row spanning `top ..= top + h`, when
/// the drag ends there.
pub open spec fn drop_target_at(top: int, h: int, y: int, index: usize, own_row: bool) -> DropTarget {
    if 4 * y < 4 * top + h {
        DropTarget::Before(index)
    } else if 4 * y > 4 * top + 3 * h {
        DropTarget::After(index)
    } else if !own_row {
        DropTarget::Onto(index)
    } else {
        DropTarget::Before(index)
    }
}

/// Twice the height of the drop indicator above the list's top: the top edge, the
/// middle or the bottom edge of the row.
pub open spec fn indicator_twice(t: DropTarget, top: int, h: int, list_top: int) -> int {
    match t {
        DropTarget::Before(_) => 2 * (top - list_top),
        DropTarget::Onto(_) => 2 * (top - list_top) + h,
        DropTarget::After(_) => 2 * (top + h - list_top),
    }
}

/// The row index a target names.
pub open spec fn target_index(t: Option<DropTarget>) -> Option<usize> {
    match t {
        Some(DropTarget::Before(i)) => Some(i),
        Some(DropTarget::Onto(i)) => Some(i),
        Some(DropTarget::After(i)) => Some(i),
        None => None,
    }
}

/// Whether a drag carries a row that this list takes.
pub open spec fn accepted(data: Option<DropData>, list: usize, accept_external: bool) -> bool {
    match data {
        Some(DropData::Reorder { source_list, .. }) => source_list == list || accept_external,
        _ => false,
    }
}

/// The row node a drag carries, if any.
pub open spec fn carried_item(data: Option<DropData>) -> usize {
    match data {
        Some(DropData::Reorder { source_item, .. }) => source_item,
        _ => 0,
    }
}

/// What a completed drop hands to the row-drop callback.
pub open spec fn row_drop(st: ReorderableList, current: usize, data: DropData) -> Option<(DropSource, DropTarget)> {
    match data {
        DropData::Reorder { source_list, source_index, .. } => {
            let same = source_list == current;
            if !same && !st.accept_external_reorder {
                None
            } else {
                match st.drop_target {
                    None => None,
                    Some(t) => if same && source_index >= st.num_items {
                        None
                    } else if !st.has_on_row_drop {
                        None
                    } else if same {
                        Some((DropSource::Internal(source_index), t))
                    } else {
                        Some((DropSource::External(source_list, source_index), t))
                    },
                }
            }
        },
        DropData::Other => None,
    }
}

/// The list node.
pub open spec fn reorder_list_node(parent: nat) -> NodeView {
    NodeView::fresh(Tag::ReorderableList, parent).with_navigable(true).with_role(Role::ListBox)
}

/// A row node.
pub open spec fn row_node(parent: nat) -> NodeView {
    NodeView::fresh(Tag::VStack, parent).with_role(Role::GenericContainer).class(Class::ReorderableListItem)
}

/// The drop indicator, hidden until there is a drop target.
pub open spec fn indicator_node(parent: nat) -> NodeView {
    NodeView::fresh(Tag::Element, parent).class(Class::ReorderIndicator).with_displayed(false)
}

/// The scroll view of a list at node `e`, with its horizontal scrollbar hidden.
pub open spec fn scrolled(s: Seq<NodeView>, e: nat) -> Seq<NodeView> {
    let sv = scrollbar_nodes(scrollbar_nodes(s
        .push(NodeView::fresh(Tag::ScrollView, e))
        .push(NodeView::fresh(Tag::ScrollContent, e + 1)), e + 1, Orientation::Vertical), e + 1, Orientation::Horizontal);
    sv.update((e + 5) as int, sv[(e + 5) as int].with_displayed(false))
}

/// The nodes of a list with `n` rows built at the end of `s` under `parent`: the list,
/// its scroll view, the stack of rows in the scroll view's content, the rows, and the
/// drop indicator.
pub open spec fn reorder_nodes(s: Seq<NodeView>, parent: nat, n: nat) -> Seq<NodeView> {
    let e = s.len();
    scrolled(s.push(reorder_list_node(parent)), e)
        .push(NodeView::fresh(Tag::VStack, e + 2).with_role(Role::GenericContainer))
        + Seq::new(n, |i: int| row_node(e + 7))
        + seq![indicator_node(e + 7)]
}

/// A row node with the classes of the current drop target and dragged row.
pub open spec fn row_view(v: NodeView, i: usize, row: int, target: Option<DropTarget>, dragged: Option<usize>) -> NodeView {
    v.toggled(Class::ReorderDropTarget, target_index(target) == Some(i))
        .toggled(Class::ReorderDropOnto, target == Some(DropTarget::Onto(i)))
        .toggled(Class::ReorderDragSource, dragged == Some(row as usize))
}

/// The nodes after the classes and the indicator follow the list's state.
pub open spec fn refreshed(s: Seq<NodeView>, list: int, st: ReorderableList) -> Seq<NodeView> {
    let vis = st.drop_target is Some;
    Seq::new(s.len(), |k: int|
        if st.first_row <= k < st.first_row + st.num_items {
            row_view(s[k], (k - st.first_row) as usize, k, st.drop_target, st.dragged_item)
        } else if k == st.indicator {
            s[k].with_displayed(vis).toggled(Class::ReorderIndicatorActive, vis)
        } else if k == list {
            s[k].toggled(Class::ReorderDropActive, vis)
        } else {
            s[k]
        })
}

impl ReorderableList {
    /// Everything but the drop target and the dragged row is as before.
    pub open spec fn same_but_drag(self, other: ReorderableList) -> bool {
        self == (ReorderableList { drop_target: self.drop_target, dragged_item: self.dragged_item, ..other })
    }

    /// Starts dragging the row at `index`, whose node is `row`, out of the list at node
    /// `list`: the row becomes the dragged one, and the drag carries it.
    pub fn drag_start(&mut self, list: usize, index: usize, row: usize) -> (d: DropData)
        ensures
            d == (DropData::Reorder { source_list: list, source_item: row, source_index: index }),
            *final(self) == (ReorderableList { dragged_item: Some(row), ..*old(self) }),
    {
        self.dragged_item = Some(row);
        DropData::Reorder { source_list: list, source_item: row, source_index: index }
    }

    /// The drag left a row: with a drag under way there is no drop target any more.
    pub fn drag_leave(&mut self, has_drop_data: bool)
        ensures
            *final(self) == if has_drop_data {
                ReorderableList { drop_target: None, ..*old(self) }
            } else {
                *old(self)
            },
    {
        if has_drop_data {
            self.drop_target = None;
        }
    }

    /// The cursor moved at height `y` over the row at `index` spanning `top ..= top + h`,
    /// whose node is `row`, in the list at node `list` whose top is at `list_top`. A
    /// drag this list takes marks its row as dragged and, inside the row, sets the drop
    /// target; the result is then twice the indicator's height above the list's top.
    pub fn drag_move(&mut self, list: usize, index: usize, row: usize, data: Option<DropData>,
        top: i32, h: i32, y: i32, list_top: i32) -> (r: Option<i64>)
        ensures
            !accepted(data, list, old(self).accept_external_reorder) ==> *final(self) == *old(self) && r is None,
            accepted(data, list, old(self).accept_external_reorder) ==> {
                let t = move_target(top as int, h as int, y as int, index, carried_item(data) == row);
                &&& final(self).same_but_drag(*old(self))
                &&& final(self).dragged_item == Some(carried_item(data))
                &&& final(self).drop_target == if t is Some { t } else { old(self).drop_target }
                &&& r == match t {
                    Some(tt) => Some(indicator_twice(tt, top as int, h as int, list_top as int) as i64),
                    None => None::<i64>,
                }
            },
    {
        let source_item = match data {
            Some(DropData::Reorder { source_list, source_item, .. }) => {
                if source_list != list && !self.accept_external_reorder {
                    return None;
                }
                source_item
            },
            _ => {
                return None;
            },
        };
        self.dragged_item = Some(source_item);
        let (t, top2, h2) = (y as i64, top as i64, h as i64);
        if t < top2 || t > top2 + h2 {
            return None;
        }
        let target = if 4 * t < 4 * top2 + h2 {
            DropTarget::Before(index)
        } else if 4 * t > 4 * top2 + 3 * h2 {
            DropTarget::After(index)
        } else if source_item != row {
            DropTarget::Onto(index)
        } else if 2 * t < 2 * top2 + h2 {
            DropTarget::Before(index)
        } else {
            DropTarget::After(index)
        };
        self.drop_target = Some(target);
        Some(indicator_offset(target, top, h, list_top))
    }

    /// The drag ended over the row at `index` spanning `top ..= top + h`, whose node is
    /// `row`, in the list at node `list`. A drag this list takes marks its row as
    /// dragged and sets the drop target; the result is then twice the indicator's
    /// height above the list's top, and the drop is to be delivered to the list.
    pub fn row_dropped(&mut self, list: usize, index: usize, row: usize, data: DropData,
        top: i32, h: i32, y: i32, list_top: i32) -> (r: Option<i64>)
        ensures
            !accepted(Some(data), list, old(self).accept_external_reorder) ==> *final(self) == *old(self) && r is None,
            accepted(Some(data), list, old(self).accept_external_reorder) ==> {
                let t = drop_target_at(top as int, h as int, y as int, index, carried_item(Some(data)) == row);
                &&& final(self).same_but_drag(*old(self))
                &&& final(self).dragged_item == Some(carried_item(Some(data)))
                &&& final(self).drop_target == Some(t)
                &&& r == Some(indicator_twice(t, top as int, h as int, list_top as int) as i64)
            },
    {
        let source_item = match data {
            DropData::Reorder { source_list, source_item, .. } => {
                if source_list != list && !self.accept_external_reorder {
                    return None;
                }
                source_item
            },
            DropData::Other => {
                return None;
            },
        };
        self.dragged_item = Some(source_item);
        let (t, top2, h2) = (y as i64, top as i64, h as i64);
        let target = if 4 * t < 4 * top2 + h2 {
            DropTarget::Before(index)
        } else if 4 * t > 4 * top2 + 3 * h2 {
            DropTarget::After(index)
        } else if source_item != row {
            DropTarget::Onto(index)
        } else {
            DropTarget::Before(index)
        };
        self.drop_target = Some(target);
        Some(indicator_offset(target, top, h, list_top))
    }

    /// Handles an event delivered to the list at node `current`. The pointer capture is
    /// released, the drop target and the dragged row are forgotten, and a completed drop
    /// that the list takes yields what the row-drop callback is called with.
    pub fn event(&mut self, current: usize, event: ReorderableListEvent) -> (r: Option<(DropSource, DropTarget)>)
        ensures
            *final(self) == (ReorderableList { drop_target: None, dragged_item: None, ..*old(self) }),
            r == match event {
                ReorderableListEvent::Drop(data) => row_drop(*old(self), current, data),
                ReorderableListEvent::ClearDropState => None::<(DropSource, DropTarget)>,
            },
    {
        let mut r: Option<(DropSource, DropTarget)> = None;
        if let ReorderableListEvent::Drop(DropData::Reorder { source_list, source_index, .. }) = event {
            let same_list = source_list == current;
            if same_list || self.accept_external_reorder {
                if let Some(t) = self.drop_target {
                    if !(same_list && source_index >= self.num_items) && self.has_on_row_drop {
                        let source = if same_list {
                            DropSource::Internal(source_index)
                        } else {
                            DropSource::External(source_list, source_index)
                        };
                        r = Some((source, t));
                    }
                }
            }
        }
        self.drop_target = None;
        self.dragged_item = None;
        r
    }
}

impl ReorderableList {
    /// Builds a list of `num_items` rows under the current node: the list, its scroll
    /// view with the horizontal scrollbar hidden, a stack in the scroll view's content
    /// holding one node per row, and the hidden drop indicator. The rows' content is
    /// built by the caller under each row node.
    pub fn new(cx: &mut Context, num_items: usize) -> (h: Handle<ReorderableList>)
        requires
            old(cx)@.len() + num_items + 10 < usize::MAX,
        ensures
            final(cx).cur() == old(cx).cur(),
            h.entity == old(cx)@.len(),
            final(cx)@ == reorder_nodes(old(cx)@, old(cx).cur() as nat, num_items as nat),
            h.view == (ReorderableList {
                num_items,
                drop_target: None,
                dragged_item: None,
                accept_external_reorder: false,
                scroll_to_cursor: false,
                show_horizontal_scrollbar: false,
                show_vertical_scrollbar: true,
                has_on_row_drop: false,
                has_on_scroll: false,
                first_row: (h.entity + 8) as usize,
                indicator: (h.entity + 8 + num_items) as usize,
                scrollbars: ((h.entity + 3) as usize, (h.entity + 5) as usize),
            }),
    {
        let parent = cx.current();
        let e = cx.add(Tag::ReorderableList);
        cx.set_navigable(e, true);
        cx.set_role(e, Role::ListBox);
        let ghost s1 = cx@;
        assert(s1 == old(cx)@.push(reorder_list_node(parent as nat)));
        cx.set_current(e);
        let sv = ScrollView::new(cx);
        let sv = sv.show_horizontal_scrollbar(cx, false);
        assert(cx@ == scrolled(s1, e as nat));
        cx.set_current(sv.view.content);
        let stack = VStack::new(cx).entity;
        cx.set_current(stack);
        let ghost base = cx@;
        let mut i: usize = 0;
        while i < num_items
            invariant
                0 <= i <= num_items,
                cx.cur() == stack,
                stack == e + 7,
                base.len() == e + 8,
                base.len() + num_items + 2 < usize::MAX,
                cx@ == base + Seq::new(i as nat, |k: int| row_node(stack as nat)),
            decreases num_items - i,
        {
            let r = VStack::new(cx).entity;
            cx.add_class(r, Class::ReorderableListItem);
            assert(cx@ =~= base + Seq::new((i + 1) as nat, |k: int| row_node(stack as nat)));
            i = i + 1;
        }
        let ind = Element::new(cx).entity;
        cx.add_class(ind, Class::ReorderIndicator);
        cx.set_displayed(ind, false);
        cx.set_current(parent);
        assert(cx@ =~= reorder_nodes(old(cx)@, parent as nat, num_items as nat));
        Handle {
            entity: e,
            view: ReorderableList {
                num_items,
                drop_target: None,
                dragged_item: None,
                accept_external_reorder: false,
                scroll_to_cursor: false,
                show_horizontal_scrollbar: false,
                show_vertical_scrollbar: true,
                has_on_row_drop: false,
                has_on_scroll: false,
                first_row: e + 8,
                indicator: ind,
                scrollbars: sv.view.scrollbars,
            },
        }
    }
}

/// Modifiers of a reorderable list.
impl Handle<ReorderableList> {
    /// Attaches the callback that receives completed row drops.
    pub fn on_row_drop(self) -> (h: Self)
        ensures
            h.entity == self.entity,
            h.view == (ReorderableList { has_on_row_drop: true, ..self.view }),
    {
        Handle { entity: self.entity, view: ReorderableList { has_on_row_drop: true, ..self.view } }
    }

    /// Sets whether rows dragged out of other lists may be dropped here.
    pub fn accept_external_reorder(self, flag: bool) -> (h: Self)
        ensures
            h.entity == self.entity,
            h.view == (ReorderableList { accept_external_reorder: flag, ..self.view }),
    {
        Handle { entity: self.entity, view: ReorderableList { accept_external_reorder: flag, ..self.view } }
    }

    /// Sets whether pressing a scrollbar's track jumps to the cursor.
    pub fn scroll_to_cursor(self, flag: bool) -> (h: Self)
        ensures
            h.entity == self.entity,
            h.view == (ReorderableList { scroll_to_cursor: flag, ..self.view }),
    {
        Handle { entity: self.entity, view: ReorderableList { scroll_to_cursor: flag, ..self.view } }
    }

    /// Attaches the callback that receives the scroll position.
    pub fn on_scroll(self) -> (h: Self)
        ensures
            h.entity == self.entity,
            h.view == (ReorderableList { has_on_scroll: true, ..self.view }),
    {
        Handle { entity: self.entity, view: ReorderableList { has_on_scroll: true, ..self.view } }
    }

    /// Shows or hides the horizontal scrollbar.
    pub fn show_horizontal_scrollbar(self, cx: &mut Context, flag: bool) -> (h: Self)
        requires
            (self.view.scrollbars.1 as int) < old(cx)@.len(),
        ensures
            h.entity == self.entity,
            h.view == (ReorderableList { show_horizontal_scrollbar: flag, ..self.view }),
            final(cx).cur() == old(cx).cur(),
            final(cx)@ == old(cx)@.update(self.view.scrollbars.1 as int,
                old(cx)@[self.view.scrollbars.1 as int].with_displayed(flag)),
    {
        cx.set_displayed(self.view.scrollbars.1, flag);
        Handle { entity: self.entity, view: ReorderableList { show_horizontal_scrollbar: flag, ..self.view } }
    }

    /// Shows or hides the vertical scrollbar.
    pub fn show_vertical_scrollbar(self, cx: &mut Context, flag: bool) -> (h: Self)
        requires
            (self.view.scrollbars.0 as int) < old(cx)@.len(),
        ensures
            h.entity == self.entity,
            h.view == (ReorderableList { show_vertical_scrollbar: flag, ..self.view }),
            final(cx).cur() == old(cx).cur(),
            final(cx)@ == old(cx)@.update(self.view.scrollbars.0 as int,
                old(cx)@[self.view.scrollbars.0 as int].with_displayed(flag)),
    {
        cx.set_displayed(self.view.scrollbars.0, flag);
        Handle { entity: self.entity, view: ReorderableList { show_vertical_scrollbar: flag, ..self.view } }
    }

    /// Brings the nodes in line with the list's state: each row is marked as the drop
    /// target, as the row dropped onto, or as the dragged row; the indicator is shown,
    /// and the list marked, exactly when there is a drop target.
    pub fn refresh(&self, cx: &mut Context)
        requires
            self.entity < self.view.first_row,
            self.view.first_row + self.view.num_items <= self.view.indicator,
            (self.view.indicator as int) < old(cx)@.len(),
        ensures
            final(cx).cur() == old(cx).cur(),
            final(cx)@ == refreshed(old(cx)@, self.entity as int, self.view),
    {
        let st = &self.view;
        let first = st.first_row;
        let n = st.num_items;
        let ghost base = cx@;
        let mut i: usize = 0;
        while i < n
            invariant
                0 <= i <= n,
                first == st.first_row,
                n == st.num_items,
                first + n <= st.indicator,
                (st.indicator as int) < base.len(),
                cx.cur() == old(cx).cur(),
                base == old(cx)@,
                cx@ == Seq::new(base.len(), |k: int|
                    if first <= k < first + i {
                        row_view(base[k], (k - first) as usize, k, st.drop_target, st.dragged_item)
                    } else {
                        base[k]
                    }),
            decreases n - i,
        {
            let row = first + i;
            refresh_row(cx, row, i, st.drop_target, st.dragged_item);
            assert(cx@ =~= Seq::new(base.len(), |k: int|
                if first <= k < first + i + 1 {
                    row_view(base[k], (k - first) as usize, k, st.drop_target, st.dragged_item)
                } else {
                    base[k]
                }));
            i = i + 1;
        }
        let visible = st.drop_target.is_some();
        cx.set_displayed(st.indicator, visible);
        cx.toggle_class(st.indicator, Class::ReorderIndicatorActive, visible);
        cx.toggle_class(self.entity, Class::ReorderDropActive, visible);
        assert(cx@ =~= refreshed(old(cx)@, self.entity as int, self.view));
    }
}

/// Inside a row, the target a drop picks is the one the drag showed there last, except
/// over the lower part of the middle of the dragged row itself, where moving shows
/// "after" and dropping picks "before".
pub proof fn law_drop_agrees_with_drag(top: int, h: int, y: int, index: usize, own_row: bool)
    requires
        top <= y <= top + h,
        !(own_row && 4 * top + h <= 4 * y <= 4 * top + 3 * h && 2 * y >= 2 * top + h),
    ensures
        move_target(top, h, y, index, own_row) == Some(drop_target_at(top, h, y, index, own_row)),
{
}

/// Marks the row at `index`, whose node is `row`, as the drop target, as the row
/// dropped onto, or as the dragged row.
fn refresh_row(cx: &mut Context, row: usize, index: usize, target: Option<DropTarget>, dragged: Option<usize>)
    requires
        (row as int) < old(cx)@.len(),
    ensures
        final(cx).cur() == old(cx).cur(),
        final(cx)@ == old(cx)@.update(row as int, row_view(old(cx)@[row as int], index, row as int, target, dragged)),
{
    let on_target = match target {
        Some(DropTarget::Before(j)) => j == index,
        Some(DropTarget::Onto(j)) => j == index,
        Some(DropTarget::After(j)) => j == index,
        None => false,
    };
    let onto = match target {
        Some(DropTarget::Onto(j)) => j == index,
        _ => false,
    };
    let source = match dragged {
        Some(d) => d == row,
        None => false,
    };
    cx.toggle_class(row, Class::ReorderDropTarget, on_target);
    cx.toggle_class(row, Class::ReorderDropOnto, onto);
    cx.toggle_class(row, Class::ReorderDragSource, source);
    assert(cx@ =~= old(cx)@.update(row as int, row_view(old(cx)@[row as int], index, row as int, target, dragged)));
}

/// Twice the height of the drop indicator above the list's top.
fn indicator_offset(t: DropTarget, top: i32, h: i32, list_top: i32) -> (r: i64)
    ensures
        r == indicator_twice(t, top as int, h as int, list_top as int),
{
    let (top2, h2, lt) = (top as i64, h as i64, list_top as i64);
    match t {
        DropTarget::Before(_) => 2 * (top2 - lt),
        DropTarget::Onto(_) => 2 * (top2 - lt) + h2,
        DropTarget::After(_) => 2 * (top2 + h2 - lt),
    }
}

} // verus!
