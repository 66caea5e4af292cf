//! The inspector: a list of the views below a node, each with its depth, and the
//! details of the view picked from it.
//!
//! What the details hold (matched style rules, computed properties) and where a view
//! lies on screen come from the style and layout systems; the inspector decides which
//! view they are asked about.

use vstd::prelude::*;
use crate::label::{label_node, Label};
use crate::layout::{HStack, VStack};
use crate::list::{list_item_node, list_node, List, Selectable};
use crate::tree::{lemma_preorder_len, preorder, preorder_from};
use crate::ui::{within, Class, Context, Handle, NodeView, Role, Tag};

verus! {

/// The pane of details shown.
#[derive(Clone, Copy, PartialEq, Eq, Structural, Debug)]
pub enum InspectorTab {
    Styles,
    Computed,
}

/// One view of the inspected tree: its node, the element and classes it is named by,
/// and how deep below the inspected node it lies.
pub struct ViewItem {
    pub entity: usize,
    pub element: Tag,
    pub classes: Vec<Class>,
    pub level: usize,
}

/// Requests handled by the inspector.
#[derive(Clone, Copy, PartialEq, Eq, Structural, Debug)]
pub enum InspectorEvent {
    /// Show the details of the view at an index of the list.
    SetSelected(usize),
    /// Outline the view at an index of the list.
    SetHovered(usize),
    /// Outline a rectangle: left, top, width and height.
    SetHoverRect(i32, i32, i32, i32),
    /// Show a pane of details.
    SelectTab(InspectorTab),
    /// The pointer left the window.
    MouseOut,
}

/// What the inspector asks of its surroundings after an event.
#[derive(Clone, Copy, PartialEq, Eq, Structural, Debug)]
pub enum InspectorAction {
    /// Fill in the details of the view at this node.
    Inspect(usize),
    /// Outline the bounds of the view at this node.
    Outline(usize),
    /// Outline nothing.
    ClearOutline,
}

/// The inspector's state.
pub struct Inspector {
    pub tab: InspectorTab,
    pub views: Vec<ViewItem>,
    pub selected: Option<usize>,
    /// The style rules matching the selected view: a selector and its declarations.
    pub styles: Vec<(String, Vec<(String, String)>)>,
    /// The computed properties of the selected view: a name and a value.
    pub computed: Vec<(String, String)>,
}

/// How many parent steps lead from node `e` up to node `a`.
pub open spec fn level(s: Seq<NodeView>, e: int, a: int) -> nat
    decreases e,
{
    if e == a {
        0
    } else if 0 < e < s.len() && s[e].parent < e {
        1 + level(s, s[e].parent as int, a)
    } else {
        0
    }
}

/// The view item describes node `e` at its depth below `root`.
pub open spec fn describes(it: ViewItem, s: Seq<NodeView>, e: int, root: int) -> bool {
    &&& it.entity == e
    &&& it.element == s[e].element
    &&& it.classes@.to_set() == s[e].classes
    &&& it.level == level(s, e, root)
}

/// The nodes of an inspector listing `n` views, built at the end of `s` under `parent`:
/// the inspector, a column holding the list of views, a row of the two tab labels,
/// and a column holding the (empty) list of style rules.
pub open spec fn inspector_nodes(s: Seq<NodeView>, parent: nat, n: nat) -> Seq<NodeView> {
    let e = s.len();
    let t = e + 4 + n;
    (s.push(NodeView::fresh(Tag::Inspector, parent))
        .push(NodeView::fresh(Tag::VStack, e).with_role(Role::GenericContainer))
        .push(list_node(e + 1))
        .push(NodeView::fresh(Tag::ScrollView, e + 2))
        + Seq::new(n, |i: int| list_item_node(e + 3, i as usize, None, Set::empty())))
        .push(NodeView::fresh(Tag::HStack, e + 1).with_role(Role::GenericContainer))
        .push(label_node(t, "Styles"@))
        .push(label_node(t, "Computed"@))
        .push(NodeView::fresh(Tag::VStack, e + 1).with_role(Role::GenericContainer))
        .push(list_node(t + 3))
        .push(NodeView::fresh(Tag::ScrollView, t + 4))
}

/// How many parent steps lead from node `e` up to node `a`, which it lies within.
fn level_of(cx: &Context, e: usize, a: usize) -> (r: usize)
    requires
        (e as int) < cx@.len(),
        within(cx@, e as int, a as int),
    ensures
        r == level(cx@, e as int, a as int),
        r <= e,
    decreases e,
{
    if e == a {
        0
    } else {
        let p = cx.parent(e);
        let l = level_of(cx, p, a);
        l + 1
    }
}

/// A node lying within another lies one step deeper than its parent.
proof fn lemma_level_step(s: Seq<NodeView>, k: int, r: int, root: int)
    requires
        0 <= r < k < s.len(),
        s[k].parent == r,
        within(s, r, root),
    ensures
        level(s, k, root) == level(s, r, root) + 1,
        within(s, k, root),
        level(s, r, root) <= r,
{
    lemma_level_le(s, r, root);
    lemma_within_root_order(s, r, root);
}

/// The depth of a node is at most its number.
proof fn lemma_level_le(s: Seq<NodeView>, e: int, a: int)
    requires
        0 <= e,
    ensures
        level(s, e, a) <= e,
    decreases e,
{
    if e != a && 0 < e < s.len() && s[e].parent < e {
        lemma_level_le(s, s[e].parent as int, a);
    }
}

/// A node lying within another comes no earlier.
proof fn lemma_within_root_order(s: Seq<NodeView>, e: int, a: int)
    requires
        within(s, e, a),
    ensures
        a <= e,
    decreases e,
{
    if e != a {
        lemma_within_root_order(s, s[e].parent as int, a);
    }
}

/// Appends to `out` the views of the subtree of `r`, depth first; `lvl` is the depth
/// of `r` below `root`.
fn collect_subtree(cx: &Context, root: usize, r: usize, lvl: usize, out: &mut Vec<ViewItem>)
    requires
        (r as int) < cx@.len(),
        lvl == level(cx@, r as int, root as int),
        within(cx@, r as int, root as int),
    ensures
        final(out)@.len() == old(out)@.len() + preorder(cx@, r as int).len(),
        forall|i: int| 0 <= i < old(out)@.len() ==> final(out)@[i] == old(out)@[i],
        forall|j: int| 0 <= j < preorder(cx@, r as int).len() ==>
            describes(#[trigger] final(out)@[old(out)@.len() + j], cx@, preorder(cx@, r as int)[j], root as int),
    decreases cx@.len() - r, 1int, 0int,
{
    let _n = cx.len();
    let item = ViewItem { entity: r, element: cx.element(r), classes: cx.classes(r), level: lvl };
    out.push(item);
    let ghost mid = out@;
    collect_children(cx, root, r, r + 1, lvl, out);
    proof {
        let p = preorder(cx@, r as int);
        let f = preorder_from(cx@, r as int, r + 1);
        assert(p == seq![r as int] + f);
        assert forall|j: int| 0 <= j < p.len() implies
            describes(#[trigger] out@[old(out)@.len() + j], cx@, p[j], root as int) by {
            if j == 0 {
                assert(out@[old(out)@.len() as int] == mid[old(out)@.len() as int]);
            } else {
                assert(p[j] == f[j - 1]);
                assert(out@[old(out)@.len() + j] == out@[mid.len() + (j - 1)]);
            }
        }
    }
}

/// Appends to `out` the views of the subtrees, depth first, of the children of `r`
/// built at or after node `k`; `lvl` is the depth of `r` below `root`.
fn collect_children(cx: &Context, root: usize, r: usize, k: usize, lvl: usize, out: &mut Vec<ViewItem>)
    requires
        r < k,
        (r as int) < cx@.len(),
        lvl == level(cx@, r as int, root as int),
        within(cx@, r as int, root as int),
    ensures
        final(out)@.len() == old(out)@.len() + preorder_from(cx@, r as int, k as int).len(),
        forall|i: int| 0 <= i < old(out)@.len() ==> final(out)@[i] == old(out)@[i],
        forall|j: int| 0 <= j < preorder_from(cx@, r as int, k as int).len() ==>
            describes(#[trigger] final(out)@[old(out)@.len() + j], cx@, preorder_from(cx@, r as int, k as int)[j], root as int),
    decreases cx@.len() - r, 0int, cx@.len() - k,
{
    if k >= cx.len() {
        return;
    }
    if cx.parent(k) == r {
        proof {
            lemma_level_step(cx@, k as int, r as int, root as int);
        }
        let ghost start = out@;
        collect_subtree(cx, root, k, lvl + 1, out);
        let ghost mid = out@;
        collect_children(cx, root, r, k + 1, lvl, out);
        proof {
            let a = preorder(cx@, k as int);
            let b = preorder_from(cx@, r as int, k + 1);
            let f = preorder_from(cx@, r as int, k as int);
            assert(f == a + b);
            assert forall|j: int| 0 <= j < f.len() implies
                describes(#[trigger] out@[start.len() + j], cx@, f[j], root as int) by {
                if j < a.len() {
                    assert(f[j] == a[j]);
                    assert(out@[start.len() + j] == mid[start.len() + j]);
                } else {
                    assert(f[j] == b[j - a.len()]);
                    assert(out@[start.len() + j] == out@[mid.len() + (j - a.len())]);
                }
            }
        }
    } else {
        collect_children(cx, root, r, k + 1, lvl, out);
    }
}

impl Inspector {
    /// Builds the inspector of the views below node `root`: it lists every node of the
    /// subtree depth first, shows the style pane, and has nothing selected.
    pub fn new(cx: &mut Context, root: usize) -> (h: Handle<Inspector>)
        requires
            (root as int) < old(cx)@.len(),
            2 * old(cx)@.len() + 20 < usize::MAX,
        ensures
            final(cx).cur() == old(cx).cur(),
            h.entity == old(cx)@.len(),
            h.view.tab == InspectorTab::Styles,
            h.view.selected is None,
            h.view.styles@.len() == 0,
            h.view.computed@.len() == 0,
            h.view.views@.len() == preorder(old(cx)@, root as int).len(),
            forall|i: int| 0 <= i < h.view.views@.len() ==>
                describes(#[trigger] h.view.views@[i], old(cx)@, preorder(old(cx)@, root as int)[i], root as int),
            final(cx)@ == inspector_nodes(old(cx)@, old(cx).cur() as nat, h.view.views@.len()),
    {
        cx.shape();
        proof {
            lemma_preorder_len(cx@, root as int);
        }
        let mut views: Vec<ViewItem> = Vec::new();
        collect_subtree(cx, root, root, 0, &mut views);
        assert forall|i: int| 0 <= i < views@.len() implies
            describes(#[trigger] views@[i], cx@, preorder(cx@, root as int)[i], root as int) by {
            assert(views@[i] == views@[0 + i]);
        }
        let n = views.len();
        let here = cx.current();
        let e = cx.add(Tag::Inspector);
        cx.set_current(e);
        let outer = VStack::new(cx).entity;
        cx.set_current(outer);
        let list = List::new(cx, n);
        let list = list.selectable(Selectable::Single);
        let _list = list.on_select();
        let tabs = HStack::new(cx).entity;
        cx.set_current(tabs);
        let styles_word = String::from_str("Styles");
        let computed_word = String::from_str("Computed");
        let _styles_label = Label::new(cx, styles_word);
        let _computed_label = Label::new(cx, computed_word);
        cx.set_current(outer);
        let content = VStack::new(cx).entity;
        cx.set_current(content);
        let _rules = List::new(cx, 0);
        cx.set_current(here);
        assert(cx@ =~= inspector_nodes(old(cx)@, here as nat, n as nat));
        Handle {
            entity: e,
            view: Inspector {
                tab: InspectorTab::Styles,
                views,
                selected: None,
                styles: Vec::new(),
                computed: Vec::new(),
            },
        }
    }

    /// Handles an event. Selecting a view shows it as selected and empties its details
    /// until they are filled in for its node; hovering one asks for its outline;
    /// choosing a pane shows it; the pointer leaving the window clears the outline.
    pub fn event(&mut self, event: InspectorEvent) -> (r: Option<InspectorAction>)
        requires
            event matches InspectorEvent::SetSelected(i) ==> i < old(self).views@.len(),
            event matches InspectorEvent::SetHovered(i) ==> i < old(self).views@.len(),
        ensures
            final(self).views@ == old(self).views@,
            match event {
                InspectorEvent::SetSelected(i) => {
                    &&& final(self).selected == Some(i)
                    &&& final(self).tab == old(self).tab
                    &&& final(self).styles@.len() == 0
                    &&& final(self).computed@.len() == 0
                    &&& r == Some(InspectorAction::Inspect(old(self).views@[i as int].entity))
                },
                InspectorEvent::SetHovered(i) => {
                    &&& final(self).selected == old(self).selected
                    &&& final(self).tab == old(self).tab
                    &&& final(self).styles@ == old(self).styles@
                    &&& final(self).computed@ == old(self).computed@
                    &&& r == Some(InspectorAction::Outline(old(self).views@[i as int].entity))
                },
                InspectorEvent::SelectTab(t) => {
                    &&& final(self).selected == old(self).selected
                    &&& final(self).tab == t
                    &&& final(self).styles@ == old(self).styles@
                    &&& final(self).computed@ == old(self).computed@
                    &&& r is None
                },
                InspectorEvent::SetHoverRect(..) => {
                    &&& final(self).selected == old(self).selected
                    &&& final(self).tab == old(self).tab
                    &&& final(self).styles@ == old(self).styles@
                    &&& final(self).computed@ == old(self).computed@
                    &&& r is None
                },
                InspectorEvent::MouseOut => {
                    &&& final(self).selected == old(self).selected
                    &&& final(self).tab == old(self).tab
                    &&& final(self).styles@ == old(self).styles@
                    &&& final(self).computed@ == old(self).computed@
                    &&& r == Some(InspectorAction::ClearOutline)
                },
            },
    {
        match event {
            InspectorEvent::SetSelected(i) => {
                self.selected = Some(i);
                self.computed = Vec::new();
                self.styles = Vec::new();
                Some(InspectorAction::Inspect(self.views[i].entity))
            },
            InspectorEvent::SetHovered(i) => Some(InspectorAction::Outline(self.views[i].entity)),
            InspectorEvent::SelectTab(t) => {
                self.tab = t;
                None
            },
            InspectorEvent::SetHoverRect(..) => None,
            InspectorEvent::MouseOut => Some(InspectorAction::ClearOutline),
        }
    }
}

} // verus!
