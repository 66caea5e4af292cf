//! Tab views with a tab list: tabs that can be closed, panels shown one at a time,
//! and a list that moves the selection with the keyboard.

use vstd::prelude::*;
use crate::ui::{Class, Context, Handle, Icon, NodeView, Role, Tag};
use crate::label::{label_node, Label};
use crate::button::button_node;
use crate::list::{List, ListEvent};
use crate::layout::Divider;

verus! {

/// Events of a tab list and a tab view.
pub enum TabListEvent {
    SetSelected(usize),
    CloseFocused,
    RequestClose(usize),
    SetTabListName(String),
    SetTabListLabeledBy(String),
}

/// What a tab list or tab view asks for after an event.
#[derive(Clone, Copy, PartialEq, Eq, Structural, Debug)]
pub struct TabResponse {
    /// The index to hand to the selection callback.
    pub on_select: Option<usize>,
    /// The index to hand to the close callback.
    pub on_close: Option<usize>,
    pub consumed: bool,
}

/// The header and content of one tab, whether it has a context menu and whether it
/// can be closed.
pub struct TabPair {
    pub header: String,
    pub content: String,
    pub has_menu: bool,
    pub closeable: bool,
}

impl TabPair {
    /// Pairs a header with its content: no menu, not closeable.
    pub fn new(header: String, content: String) -> (p: TabPair)
        ensures
            p.header@ == header@,
            p.content@ == content@,
            !p.has_menu,
            !p.closeable,
    {
        TabPair { header, content, has_menu: false, closeable: false }
    }

    /// Gives the tab a context menu.
    pub fn menu(self) -> (p: TabPair)
        ensures
            p.header@ == self.header@,
            p.content@ == self.content@,
            p.has_menu,
            p.closeable == self.closeable,
    {
        TabPair { has_menu: true, ..self }
    }

    /// Sets whether the tab can be closed.
    pub fn closeable(self, closeable: bool) -> (p: TabPair)
        ensures
            p.header@ == self.header@,
            p.content@ == self.content@,
            p.has_menu == self.has_menu,
            p.closeable == closeable,
    {
        TabPair { closeable, ..self }
    }
}

/// The node of tab `index` under `parent`.
pub open spec fn tab_node(parent: nat) -> NodeView {
    NodeView::fresh(Tag::Tab, parent).with_role(Role::Tab).toggled(Class::Closeable, false)
}

/// One tab of a tab list.
pub struct Tab {
    pub index: usize,
    /// Whether a close callback, and with it a close button, is attached.
    pub has_close: bool,
}

impl Tab {
    /// Builds tab `index` showing `text`: the tab role, neither navigable nor
    /// focusable itself.
    pub fn with_content(cx: &mut Context, index: usize, text: String) -> (h: Handle<Tab>)
        requires
            old(cx)@.len() + 1 < usize::MAX,
        ensures
            h.entity == old(cx)@.len(),
            h.view == (Tab { index, has_close: false }),
            final(cx).cur() == old(cx).cur(),
            final(cx)@ == old(cx)@.push(tab_node(old(cx).cur() as nat)).push(label_node(h.entity as nat, text@)),
    {
        let here = cx.current();
        let e = cx.add_with_role(Tag::Tab, Role::Tab);
        cx.toggle_class(e, Class::Closeable, false);
        cx.set_current(e);
        let _label = Label::new(cx, text);
        cx.set_current(here);
        assert(cx@ =~= old(cx)@.push(tab_node(old(cx).cur() as nat)).push(label_node(e as nat, text@)));
        Handle { entity: e, view: Tab { index, has_close: false } }
    }

    /// Builds tab `index` showing `label`, checked when `selected`.
    pub fn new(cx: &mut Context, index: usize, label: String, selected: bool) -> (h: Handle<Tab>)
        requires
            old(cx)@.len() + 1 < usize::MAX,
        ensures
            h.entity == old(cx)@.len(),
            h.view == (Tab { index, has_close: false }),
            final(cx).cur() == old(cx).cur(),
            final(cx)@ == old(cx)@.push(tab_node(old(cx).cur() as nat).with_checked(selected))
                .push(label_node(h.entity as nat, label@)),
    {
        let h = Tab::with_content(cx, index, label);
        cx.set_checked(h.entity, selected);
        assert(cx@ =~= old(cx)@.push(tab_node(old(cx).cur() as nat).with_checked(selected))
            .push(label_node(h.entity as nat, label@)));
        h
    }

    /// Pressing a tab selects it in its list.
    pub fn press(&self) -> (r: ListEvent)
        ensures
            r == ListEvent::Select(self.index),
    {
        ListEvent::Select(self.index)
    }
}

/// The tree after a close button was added to the tab at `e`.
pub open spec fn with_tab_close(s: Seq<NodeView>, e: int) -> Seq<NodeView> {
    s.update(e, s[e].class(Class::Closeable))
        .push(button_node(e as nat).class(Class::Close).toggled(Class::Accent, false).toggled(Class::Outline, false)
            .toggled(Class::Text, true).with_navigable(false).with_focusable(true))
        .push(NodeView::fresh(Tag::Svg, s.len()).with_icon(Icon::Close))
}

impl Handle<Tab> {
    /// Attaches the close callback: the tab becomes closeable and, the first time, gets
    /// a close button drawing a cross.
    pub fn on_close(self, cx: &mut Context) -> (h: Handle<Tab>)
        requires
            (self.entity as int) < old(cx)@.len(),
            old(cx)@.len() + 1 < usize::MAX,
        ensures
            h.entity == self.entity,
            h.view == (Tab { has_close: true, ..self.view }),
            final(cx).cur() == old(cx).cur(),
            final(cx)@ == if self.view.has_close { old(cx)@ } else { with_tab_close(old(cx)@, self.entity as int) },
    {
        if !self.view.has_close {
            let b = cx.add_child(self.entity, Tag::Button);
            cx.set_role(b, Role::Button);
            cx.set_navigable(b, true);
            cx.add_class(b, Class::Close);
            cx.toggle_class(b, Class::Accent, false);
            cx.toggle_class(b, Class::Outline, false);
            cx.toggle_class(b, Class::Text, true);
            cx.set_navigable(b, false);
            cx.set_focusable(b, true);
            let _x = cx.add_icon(b, Icon::Close);
            cx.add_class(self.entity, Class::Closeable);
            assert(cx@ =~= with_tab_close(old(cx)@, self.entity as int));
        }
        Handle { entity: self.entity, view: Tab { has_close: true, ..self.view } }
    }
}

/// The panel of one tab.
pub struct TabPanel {}

impl TabPanel {
    /// Builds the panel of tab `index`, displayed only while tab `selected` is `index`.
    pub fn new(cx: &mut Context, index: usize, selected: usize) -> (h: Handle<TabPanel>)
        requires
            old(cx)@.len() < usize::MAX,
        ensures
            h.entity == old(cx)@.len(),
            final(cx).cur() == old(cx).cur(),
            final(cx)@ == old(cx)@.push(NodeView::fresh(Tag::TabPanel, old(cx).cur() as nat).with_displayed(selected == index)),
    {
        let e = cx.add(Tag::TabPanel);
        cx.set_displayed(e, selected == index);
        assert(cx@ =~= old(cx)@.push(NodeView::fresh(Tag::TabPanel, old(cx).cur() as nat).with_displayed(selected == index)));
        Handle { entity: e, view: TabPanel {} }
    }
}

/// A scrollable list of tabs of which exactly one is selected.
pub struct TabList {
    pub is_vertical: bool,
    pub selected_index: Option<usize>,
    pub selected_indices: Vec<usize>,
    pub has_on_select: bool,
    pub has_on_close: bool,
    /// The list holding the tabs.
    pub list: Handle<List>,
}

impl TabList {
    /// Builds a horizontal tab list of `num_tabs` slots with the first selected: the
    /// tab list node and, inside it, a list with the tab-list role.
    pub fn new(cx: &mut Context, num_tabs: usize) -> (h: Handle<TabList>)
        requires
            old(cx)@.len() + num_tabs + 3 < usize::MAX,
        ensures
            h.entity == old(cx)@.len(),
            !h.view.is_vertical,
            h.view.selected_index == Some(0usize),
            h.view.selected_indices@ == seq![0usize],
            !h.view.has_on_select,
            !h.view.has_on_close,
            h.view.list.entity == h.entity + 1,
            h.view.list.view.num_items == num_tabs,
            final(cx).cur() == old(cx).cur(),
            final(cx)@.len() == old(cx)@.len() + num_tabs + 3,
            final(cx)@[h.entity as int] == NodeView::fresh(Tag::TabList, old(cx).cur() as nat).toggled(Class::Vertical, false),
            final(cx)@[h.entity + 1].role == Role::TabList,
            final(cx)@.subrange(0, old(cx)@.len() as int) == old(cx)@,
    {
        let here = cx.current();
        let e = cx.add(Tag::TabList);
        cx.toggle_class(e, Class::Vertical, false);
        cx.set_current(e);
        let list = List::new(cx, num_tabs);
        cx.set_current(here);
        cx.set_role(list.entity, Role::TabList);
        let mut selected_indices: Vec<usize> = Vec::new();
        selected_indices.push(0);
        assert(selected_indices@ =~= seq![0usize]);
        assert(cx@.subrange(0, old(cx)@.len() as int) =~= old(cx)@);
        Handle {
            entity: e,
            view: TabList {
                is_vertical: false,
                selected_index: Some(0),
                selected_indices,
                has_on_select: false,
                has_on_close: false,
                list,
            },
        }
    }
}

impl Handle<TabList> {
    /// Selects tab `index`.
    pub fn selection(self, index: usize) -> (h: Handle<TabList>)
        ensures
            h.entity == self.entity,
            h.view.selected_index == Some(index),
            h.view.selected_indices@ == seq![index],
            h.view.is_vertical == self.view.is_vertical,
            h.view.has_on_select == self.view.has_on_select,
            h.view.has_on_close == self.view.has_on_close,
    {
        let mut h = self;
        let mut v: Vec<usize> = Vec::new();
        v.push(index);
        assert(v@ =~= seq![index]);
        h.view.selected_indices = v;
        h.view.selected_index = Some(index);
        h
    }

    /// Lays the tabs out vertically or horizontally.
    pub fn vertical(self, cx: &mut Context, vertical: bool) -> (h: Handle<TabList>)
        requires
            (self.entity as int) < old(cx)@.len(),
        ensures
            h.entity == self.entity,
            h.view.is_vertical == vertical,
            h.view.selected_index == self.view.selected_index,
            h.view.has_on_select == self.view.has_on_select,
            h.view.has_on_close == self.view.has_on_close,
            final(cx).cur() == old(cx).cur(),
            final(cx)@ == old(cx)@.update(self.entity as int, old(cx)@[self.entity as int].toggled(Class::Vertical, vertical)),
    {
        cx.toggle_class(self.entity, Class::Vertical, vertical);
        let mut h = self;
        h.view.is_vertical = vertical;
        h
    }

    /// Attaches the callback that receives the selected tab.
    pub fn on_select(self) -> (h: Handle<TabList>)
        ensures
            h.entity == self.entity,
            h.view.has_on_select,
            h.view.selected_index == self.view.selected_index,
            h.view.has_on_close == self.view.has_on_close,
    {
        let mut h = self;
        h.view.has_on_select = true;
        h
    }

    /// Attaches the callback that receives the tab to close.
    pub fn on_close(self) -> (h: Handle<TabList>)
        ensures
            h.entity == self.entity,
            h.view.has_on_close,
            h.view.selected_index == self.view.selected_index,
            h.view.has_on_select == self.view.has_on_select,
    {
        let mut h = self;
        h.view.has_on_close = true;
        h
    }

    /// Handles an event: selecting a tab makes it the only selected one and reports
    /// it; closing the focused tab reports the selected one to the close callback.
    pub fn event(&mut self, event: TabListEvent) -> (r: TabResponse)
        ensures
            final(self).entity == old(self).entity,
            final(self).view.is_vertical == old(self).view.is_vertical,
            final(self).view.has_on_select == old(self).view.has_on_select,
            final(self).view.has_on_close == old(self).view.has_on_close,
            match event {
                TabListEvent::SetSelected(i) => {
                    &&& final(self).view.selected_index == Some(i)
                    &&& final(self).view.selected_indices@ == seq![i]
                    &&& r == (TabResponse { on_select: if old(self).view.has_on_select { Some(i) } else { None }, on_close: None, consumed: true })
                },
                TabListEvent::CloseFocused => {
                    &&& final(self).view.selected_index == old(self).view.selected_index
                    &&& final(self).view.selected_indices@ == old(self).view.selected_indices@
                    &&& r == (TabResponse {
                        on_select: None,
                        on_close: if old(self).view.has_on_close { old(self).view.selected_index } else { None },
                        consumed: true,
                    })
                },
                _ => {
                    &&& final(self).view.selected_index == old(self).view.selected_index
                    &&& final(self).view.selected_indices@ == old(self).view.selected_indices@
                    &&& r == (TabResponse { on_select: None, on_close: None, consumed: false })
                },
            },
    {
        match event {
            TabListEvent::SetSelected(i) => {
                let mut v: Vec<usize> = Vec::new();
                v.push(i);
                assert(v@ =~= seq![i]);
                self.view.selected_indices = v;
                self.view.selected_index = Some(i);
                TabResponse { on_select: if self.view.has_on_select { Some(i) } else { None }, on_close: None, consumed: true }
            }
            TabListEvent::CloseFocused => {
                TabResponse {
                    on_select: None,
                    on_close: if self.view.has_on_close { self.view.selected_index } else { None },
                    consumed: true,
                }
            }
            _ => TabResponse { on_select: None, on_close: None, consumed: false },
        }
    }
}

/// A tab list over the panels of the tabs, of which the selected one is shown.
pub struct TabView {
    pub selected_index: usize,
    pub is_vertical: bool,
    pub tablist_name: String,
    pub tablist_labeled_by: Option<String>,
    pub has_on_select: bool,
    pub has_on_close: bool,
    /// The tab node of each pair, inside its slot of the tab list.
    pub tabs: Vec<usize>,
    /// The divider between the tab list and the content.
    pub divider: usize,
    /// The panel of each tab.
    pub panels: Vec<usize>,
}

/// The tab node built in list slot `slot`: checked when it is the first, closeable
/// when its pair is.
pub open spec fn built_tab(slot: nat, closeable: bool, first: bool) -> NodeView {
    if closeable {
        tab_node(slot).with_checked(first).class(Class::Closeable)
    } else {
        tab_node(slot).with_checked(first)
    }
}

/// The panel nodes after tab `selected` was selected: each is displayed and visible
/// exactly when it belongs to the selected tab.
pub open spec fn panels_shown(s: Seq<NodeView>, panels: Seq<usize>, selected: usize, k: nat) -> Seq<NodeView>
    decreases k,
{
    if k == 0 || k > panels.len() {
        s
    } else {
        let t = panels_shown(s, panels, selected, (k - 1) as nat);
        let p = panels[k - 1] as int;
        t.update(p, t[p].with_displayed(selected == k - 1).with_hidden(selected != k - 1))
    }
}

impl TabView {
    /// Builds a tab view with the first tab selected: the tab list with one tab per
    /// pair, a divider, and the content column holding one panel per tab, of which
    /// only the first is displayed and visible.
    pub fn new(cx: &mut Context, pairs: &Vec<TabPair>) -> (h: Handle<TabView>)
        requires
            old(cx)@.len() + 9 * pairs@.len() + 10 < usize::MAX,
        ensures
            h.entity == old(cx)@.len(),
            h.view.selected_index == 0,
            !h.view.is_vertical,
            !h.view.has_on_select,
            !h.view.has_on_close,
            h.view.tablist_labeled_by is None,
            h.view.panels@.len() == pairs@.len(),
            h.view.tabs@.len() == pairs@.len(),
            h.entity + 1 < h.view.divider < final(cx)@.len(),
            final(cx)@[h.view.divider as int] == NodeView::fresh(Tag::Divider, h.entity as nat),
            final(cx)@[h.entity + 1] == NodeView::fresh(Tag::TabList, h.entity as nat).toggled(Class::Vertical, false),
            final(cx).cur() == old(cx).cur(),
            final(cx)@.len() > old(cx)@.len(),
            final(cx)@.subrange(0, old(cx)@.len() as int) == old(cx)@,
            final(cx)@[h.entity as int] == NodeView::fresh(Tag::TabView, old(cx).cur() as nat).toggled(Class::Vertical, false),
            forall|j: int| 0 <= j < pairs@.len() ==> {
                let t = #[trigger] h.view.tabs@[j] as int;
                &&& h.entity < t && t + 1 < final(cx)@.len()
                &&& final(cx)@[t] == built_tab((h.entity + 4 + j) as nat, pairs@[j].closeable, j == 0)
                &&& final(cx)@[t + 1] == label_node(t as nat, pairs@[j].header@)
            },
            forall|j: int| 0 <= j < pairs@.len() ==> {
                let p = #[trigger] h.view.panels@[j] as int;
                &&& 0 <= p && p + 1 < final(cx)@.len()
                &&& final(cx)@[p].element == Tag::TabPanel
                &&& final(cx)@[p].role == Role::TabPanel
                &&& final(cx)@[p].displayed == (j == 0)
                &&& final(cx)@[p].hidden == (j != 0)
                &&& final(cx)@[p + 1] == label_node(p as nat, pairs@[j].content@)
            },
    {
        let here = cx.current();
        let e = cx.add(Tag::TabView);
        cx.toggle_class(e, Class::Vertical, false);
        let n = pairs.len();
        cx.set_current(e);
        let ghost mid = cx@;
        assert(mid[e as int] == NodeView::fresh(Tag::TabView, old(cx).cur() as nat).toggled(Class::Vertical, false));
        let tablist = TabList::new(cx, n);
        assert(cx@.subrange(0, mid.len() as int)[e as int] == cx@[e as int]);
        let first_item = tablist.view.list.entity + 2;
        let mut tabs: Vec<usize> = Vec::new();
        let mut i: usize = 0;
        while i < n
            invariant
                0 <= i <= n,
                n == pairs@.len(),
                first_item == e + 4,
                e + 4 + n <= cx@.len() <= e + 4 + n + 4 * i,
                old(cx)@.len() + 9 * n + 10 < usize::MAX,
                e == old(cx)@.len(),
                cx@.subrange(0, e as int) == old(cx)@,
                cx@[e as int] == NodeView::fresh(Tag::TabView, old(cx).cur() as nat).toggled(Class::Vertical, false),
                cx@[e + 1] == NodeView::fresh(Tag::TabList, e as nat).toggled(Class::Vertical, false),
                cx.cur() == e,
                tabs@.len() == i,
                forall|k: int| 0 <= k < i ==> {
                    let t = #[trigger] tabs@[k] as int;
                    &&& e + 4 + n <= t && t + 1 < cx@.len()
                    &&& cx@[t] == built_tab((e + 4 + k) as nat, pairs@[k].closeable, k == 0)
                    &&& cx@[t + 1] == label_node(t as nat, pairs@[k].header@)
                },
            decreases n - i,
        {
            let ghost prev = cx@;
            let item = first_item + i;
            let before = cx.current();
            cx.set_current(item);
            let tab = Tab::new(cx, i, pairs[i].header.clone(), i == 0);
            let t = tab.entity;
            if pairs[i].closeable {
                let _t = tab.on_close(cx);
            }
            cx.set_current(before);
            proof {
                assert(cx@.subrange(0, e as int) =~= prev.subrange(0, e as int));
                assert(cx@[t as int] == built_tab((e + 4 + i) as nat, pairs@[i as int].closeable, i == 0));
                assert forall|k: int| 0 <= k < i implies #[trigger] cx@[tabs@[k] as int] == prev[tabs@[k] as int]
                    && cx@[tabs@[k] + 1] == prev[tabs@[k] + 1] by {}
            }
            tabs.push(t);
            i = i + 1;
        }
        let ghost tabs_built = cx@;
        let _divider = Divider::new(cx);
        let wrapper = cx.add_child(e, Tag::VStack);
        cx.set_role(wrapper, Role::GenericContainer);
        cx.add_class(wrapper, Class::TabviewContentWrapper);
        cx.set_current(wrapper);
        proof {
            assert(cx@.subrange(0, e as int) =~= tabs_built.subrange(0, e as int));
            assert forall|k: int| 0 <= k < n implies #[trigger] cx@[tabs@[k] as int] == tabs_built[tabs@[k] as int]
                && cx@[tabs@[k] + 1] == tabs_built[tabs@[k] + 1] by {}
        }
        let mut panels: Vec<usize> = Vec::new();
        let mut j: usize = 0;
        while j < n
            invariant
                0 <= j <= n,
                n == pairs@.len(),
                cx.cur() == wrapper,
                (wrapper as int) < cx@.len(),
                e < wrapper,
                e == old(cx)@.len(),
                cx@.subrange(0, e as int) == old(cx)@,
                cx@[e as int] == NodeView::fresh(Tag::TabView, old(cx).cur() as nat).toggled(Class::Vertical, false),
                cx@[e + 1] == NodeView::fresh(Tag::TabList, e as nat).toggled(Class::Vertical, false),
                e + 1 < _divider.entity < wrapper,
                cx@[_divider.entity as int] == NodeView::fresh(Tag::Divider, e as nat),
                tabs@.len() == n,
                forall|k: int| 0 <= k < n ==> {
                    let t = #[trigger] tabs@[k] as int;
                    &&& e < t && t + 1 < wrapper
                    &&& cx@[t] == built_tab((e + 4 + k) as nat, pairs@[k].closeable, k == 0)
                    &&& cx@[t + 1] == label_node(t as nat, pairs@[k].header@)
                },
                cx@.len() + 2 * (n - j) < usize::MAX,
                panels@.len() == j,
                forall|k: int| 0 <= k < j ==> {
                    let p = #[trigger] panels@[k] as int;
                    &&& e < p && p + 1 < cx@.len()
                    &&& cx@[p].element == Tag::TabPanel
                    &&& cx@[p].role == Role::TabPanel
                    &&& cx@[p].displayed == (k == 0)
                    &&& cx@[p].hidden == (k != 0)
                    &&& cx@[p + 1] == label_node(p as nat, pairs@[k].content@)
                },
            decreases n - j,
        {
            let ghost before = cx@;
            let panel = TabPanel::new(cx, j, 0);
            cx.set_role(panel.entity, Role::TabPanel);
            cx.set_hidden(panel.entity, j != 0);
            cx.set_current(panel.entity);
            let _content = Label::new(cx, pairs[j].content.clone());
            cx.set_current(wrapper);
            proof {
                assert(cx@.subrange(0, e as int) =~= before.subrange(0, e as int));
                assert forall|k: int| 0 <= k < n implies #[trigger] cx@[tabs@[k] as int] == before[tabs@[k] as int]
                    && cx@[tabs@[k] + 1] == before[tabs@[k] + 1] by {}
            }
            panels.push(panel.entity);
            j = j + 1;
        }
        cx.set_current(here);
        let name = String::from_str("Tabs");
        proof {
            reveal_strlit("Tabs");
        }
        Handle {
            entity: e,
            view: TabView {
                selected_index: 0,
                is_vertical: false,
                tablist_name: name,
                tablist_labeled_by: None,
                has_on_select: false,
                has_on_close: false,
                tabs,
                divider: _divider.entity,
                panels,
            },
        }
    }
}

/// Shows the panel of tab `selected` and hides the others.
fn show_panel(cx: &mut Context, panels: &Vec<usize>, selected: usize)
    requires
        forall|j: int| 0 <= j < panels@.len() ==> (#[trigger] panels@[j] as int) < old(cx)@.len(),
    ensures
        final(cx).cur() == old(cx).cur(),
        final(cx)@ == panels_shown(old(cx)@, panels@, selected, panels@.len()),
{
    let n = panels.len();
    let mut j: usize = 0;
    while j < n
        invariant
            0 <= j <= n,
            n == panels@.len(),
            forall|k: int| 0 <= k < n ==> (#[trigger] panels@[k] as int) < old(cx)@.len(),
            cx@.len() == old(cx)@.len(),
            cx.cur() == old(cx).cur(),
            cx@ == panels_shown(old(cx)@, panels@, selected, j as nat),
        decreases n - j,
    {
        let p = panels[j];
        cx.set_displayed(p, selected == j);
        cx.set_hidden(p, selected != j);
        j = j + 1;
    }
}

/// The nodes after the first `k` tabs took the vertical class.
pub open spec fn tabs_vertical(s: Seq<NodeView>, tabs: Seq<usize>, k: nat) -> Seq<NodeView>
    decreases k,
{
    if k == 0 || k > tabs.len() {
        s
    } else {
        let p = tabs_vertical(s, tabs, (k - 1) as nat);
        let t = tabs[k - 1] as int;
        p.update(t, p[t].toggled(Class::Vertical, true))
    }
}

/// The nodes after a tab view at `e` was laid out vertically: the view, its tab list
/// (the node after it), the divider and every tab take the vertical class.
pub open spec fn vertical_tree(s: Seq<NodeView>, e: int, divider: int, tabs: Seq<usize>) -> Seq<NodeView> {
    let a = s.update(e, s[e].toggled(Class::Vertical, true));
    let b = a.update(e + 1, a[e + 1].toggled(Class::Vertical, true));
    let c = b.update(divider, b[divider].toggled(Class::Vertical, true));
    tabs_vertical(c, tabs, tabs.len())
}

impl Handle<TabView> {
    /// Lays the tabs out vertically: the tab view, its tab list, every tab and the
    /// divider take the vertical class, and the list of tabs runs top to bottom.
    pub fn vertical(self, cx: &mut Context) -> (h: Handle<TabView>)
        requires
            self.entity + 1 < old(cx)@.len(),
            (self.view.divider as int) < old(cx)@.len(),
            forall|j: int| 0 <= j < self.view.tabs@.len() ==> (#[trigger] self.view.tabs@[j] as int) < old(cx)@.len(),
        ensures
            h.entity == self.entity,
            h.view.is_vertical,
            h.view.selected_index == self.view.selected_index,
            h.view.panels@ == self.view.panels@,
            h.view.tabs@ == self.view.tabs@,
            h.view.divider == self.view.divider,
            h.view.has_on_select == self.view.has_on_select,
            h.view.has_on_close == self.view.has_on_close,
            final(cx).cur() == old(cx).cur(),
            final(cx)@ == vertical_tree(old(cx)@, self.entity as int, self.view.divider as int, self.view.tabs@),
    {
        let _n = cx.len();
        cx.toggle_class(self.entity, Class::Vertical, true);
        cx.toggle_class(self.entity + 1, Class::Vertical, true);
        cx.toggle_class(self.view.divider, Class::Vertical, true);
        let ghost c = cx@;
        let n = self.view.tabs.len();
        let mut j: usize = 0;
        while j < n
            invariant
                0 <= j <= n,
                n == self.view.tabs@.len(),
                forall|k: int| 0 <= k < n ==> (#[trigger] self.view.tabs@[k] as int) < old(cx)@.len(),
                cx@.len() == old(cx)@.len(),
                cx.cur() == old(cx).cur(),
                cx@ == tabs_vertical(c, self.view.tabs@, j as nat),
            decreases n - j,
        {
            let t = self.view.tabs[j];
            cx.toggle_class(t, Class::Vertical, true);
            j = j + 1;
        }
        let mut h = self;
        h.view.is_vertical = true;
        h
    }

    /// Attaches the callback that receives the selected tab.
    pub fn on_select(self) -> (h: Handle<TabView>)
        ensures
            h.entity == self.entity,
            h.view.has_on_select,
            h.view.has_on_close == self.view.has_on_close,
            h.view.selected_index == self.view.selected_index,
            h.view.panels@ == self.view.panels@,
            h.view.tabs@ == self.view.tabs@,
    {
        let mut h = self;
        h.view.has_on_select = true;
        h
    }

    /// Attaches the callback that receives a tab to close.
    pub fn on_close(self) -> (h: Handle<TabView>)
        ensures
            h.entity == self.entity,
            h.view.has_on_close,
            h.view.has_on_select == self.view.has_on_select,
            h.view.selected_index == self.view.selected_index,
            h.view.panels@ == self.view.panels@,
            h.view.tabs@ == self.view.tabs@,
    {
        let mut h = self;
        h.view.has_on_close = true;
        h
    }

    /// Names the tab list for assistive technology.
    pub fn tablist_name(self, name: String) -> (h: Handle<TabView>)
        ensures
            h.entity == self.entity,
            h.view.tablist_name@ == name@,
            h.view.selected_index == self.view.selected_index,
            h.view.panels@ == self.view.panels@,
            h.view.tabs@ == self.view.tabs@,
            h.view.has_on_select == self.view.has_on_select,
            h.view.has_on_close == self.view.has_on_close,
    {
        let mut h = self;
        h.view.tablist_name = name;
        h
    }

    /// Names the view that labels the tab list.
    pub fn tablist_labeled_by(self, id: String) -> (h: Handle<TabView>)
        ensures
            h.entity == self.entity,
            h.view.tablist_labeled_by matches Some(l) && l@ == id@,
            h.view.selected_index == self.view.selected_index,
            h.view.panels@ == self.view.panels@,
            h.view.tabs@ == self.view.tabs@,
            h.view.has_on_select == self.view.has_on_select,
            h.view.has_on_close == self.view.has_on_close,
    {
        let mut h = self;
        h.view.tablist_labeled_by = Some(id);
        h
    }

    /// Selects tab `index` from outside, without reporting it.
    pub fn with_selected(self, cx: &mut Context, index: usize) -> (h: Handle<TabView>)
        requires
            forall|j: int| 0 <= j < self.view.panels@.len() ==> (#[trigger] self.view.panels@[j] as int) < old(cx)@.len(),
        ensures
            h.entity == self.entity,
            h.view.selected_index == index,
            h.view.panels@ == self.view.panels@,
            h.view.tabs@ == self.view.tabs@,
            h.view.has_on_select == self.view.has_on_select,
            h.view.has_on_close == self.view.has_on_close,
            final(cx).cur() == old(cx).cur(),
            final(cx)@ == panels_shown(old(cx)@, self.view.panels@, index, self.view.panels@.len()),
    {
        show_panel(cx, &self.view.panels, index);
        let mut h = self;
        h.view.selected_index = index;
        h
    }

    /// Handles an event: a new selection shows its panel and is reported; a close
    /// request is reported; the tab list's name and label are recorded.
    pub fn event(&mut self, cx: &mut Context, event: TabListEvent) -> (r: TabResponse)
        requires
            forall|j: int| 0 <= j < old(self).view.panels@.len() ==> (#[trigger] old(self).view.panels@[j] as int) < old(cx)@.len(),
        ensures
            final(self).entity == old(self).entity,
            final(self).view.panels@ == old(self).view.panels@,
            final(self).view.tabs@ == old(self).view.tabs@,
            final(self).view.has_on_select == old(self).view.has_on_select,
            final(self).view.has_on_close == old(self).view.has_on_close,
            final(self).view.is_vertical == old(self).view.is_vertical,
            final(cx).cur() == old(cx).cur(),
            match event {
                TabListEvent::SetSelected(i) => {
                    let changed = old(self).view.selected_index != i;
                    &&& final(self).view.selected_index == i
                    &&& final(cx)@ == if changed { panels_shown(old(cx)@, old(self).view.panels@, i, old(self).view.panels@.len()) } else { old(cx)@ }
                    &&& r == (TabResponse { on_select: if changed && old(self).view.has_on_select { Some(i) } else { None }, on_close: None, consumed: true })
                },
                TabListEvent::RequestClose(i) => {
                    &&& final(self).view.selected_index == old(self).view.selected_index
                    &&& final(cx)@ == old(cx)@
                    &&& r == (TabResponse { on_select: None, on_close: if old(self).view.has_on_close { Some(i) } else { None }, consumed: true })
                },
                TabListEvent::SetTabListName(name) => {
                    &&& final(self).view.selected_index == old(self).view.selected_index
                    &&& final(self).view.tablist_name@ == name@
                    &&& final(cx)@ == old(cx)@
                    &&& r == (TabResponse { on_select: None, on_close: None, consumed: true })
                },
                TabListEvent::SetTabListLabeledBy(id) => {
                    &&& final(self).view.selected_index == old(self).view.selected_index
                    &&& final(self).view.tablist_labeled_by matches Some(l) && l@ == id@
                    &&& final(cx)@ == old(cx)@
                    &&& r == (TabResponse { on_select: None, on_close: None, consumed: true })
                },
                TabListEvent::CloseFocused => {
                    &&& final(self).view.selected_index == old(self).view.selected_index
                    &&& final(cx)@ == old(cx)@
                    &&& r == (TabResponse { on_select: None, on_close: None, consumed: false })
                },
            },
    {
        match event {
            TabListEvent::SetSelected(i) => {
                let changed = self.view.selected_index != i;
                if changed {
                    self.view.selected_index = i;
                    show_panel(cx, &self.view.panels, i);
                }
                TabResponse { on_select: if changed && self.view.has_on_select { Some(i) } else { None }, on_close: None, consumed: true }
            }
            TabListEvent::RequestClose(i) => {
                TabResponse { on_select: None, on_close: if self.view.has_on_close { Some(i) } else { None }, consumed: true }
            }
            TabListEvent::SetTabListName(name) => {
                self.view.tablist_name = name;
                TabResponse { on_select: None, on_close: None, consumed: true }
            }
            TabListEvent::SetTabListLabeledBy(id) => {
                self.view.tablist_labeled_by = Some(id);
                TabResponse { on_select: None, on_close: None, consumed: true }
            }
            TabListEvent::CloseFocused => TabResponse { on_select: None, on_close: None, consumed: false },
        }
    }
}

} // verus!
