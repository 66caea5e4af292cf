//! A tab view: a row of tab headers over the content of the selected tab.

use vstd::prelude::*;
use crate::ui::{Class, Context, Handle, NodeView, Role, Tag};
use crate::label::{label_node, Label};

verus! {

/// Events of a tab view.
#[derive(Clone, Copy, PartialEq, Eq, Structural, Debug)]
pub enum TabEvent {
    SetSelected(usize),
}

/// The header and the content text of one tab.
pub struct TabPair {
    pub header: String,
    pub content: String,
}

impl TabPair {
    /// Pairs a tab header with its content.
    pub fn new(header: String, content: String) -> (p: TabPair)
        ensures
            p.header@ == header@,
            p.content@ == content@,
    {
        TabPair { header, content }
    }
}

/// The header of one tab; pressing it selects the tab.
pub struct TabHeader {
    pub index: usize,
}

impl TabHeader {
    /// Builds the header of tab `index`, showing `text`.
    pub fn new(cx: &mut Context, index: usize, text: String) -> (h: Handle<TabHeader>)
        requires
            old(cx)@.len() + 1 < usize::MAX,
        ensures
            h.entity == old(cx)@.len(),
            h.view.index == index,
            final(cx).cur() == old(cx).cur(),
            final(cx)@ == old(cx)@.push(NodeView::fresh(Tag::TabHeader, old(cx).cur() as nat))
                .push(label_node(h.entity as nat, text@)),
    {
        let here = cx.current();
        let e = cx.add(Tag::TabHeader);
        cx.set_current(e);
        let _label = Label::new(cx, text);
        cx.set_current(here);
        Handle { entity: e, view: TabHeader { index } }
    }

    /// A left mouse press on the header selects its tab.
    pub fn mouse_down_left(&self) -> (r: TabEvent)
        ensures
            r == TabEvent::SetSelected(self.index),
    {
        TabEvent::SetSelected(self.index)
    }
}

/// The texts of a list of tabs.
pub open spec fn tab_texts(pairs: Seq<TabPair>) -> Seq<(Seq<char>, Seq<char>)> {
    Seq::new(pairs.len(), |i: int| (pairs[i].header@, pairs[i].content@))
}

/// The tree after the headers of the first `k` tabs were appended under the header
/// row `row`, the first of them checked.
pub open spec fn headers(s: Seq<NodeView>, row: nat, texts: Seq<(Seq<char>, Seq<char>)>, k: nat) -> Seq<NodeView>
    decreases k,
{
    if k == 0 {
        s
    } else {
        let t = headers(s, row, texts, (k - 1) as nat);
        t.push(NodeView::fresh(Tag::TabHeader, row).with_checked(k - 1 == 0)).push(label_node(t.len(), texts[k - 1].0))
    }
}

/// A row of tab headers over the content of the selected tab.
pub struct TabView {
    pub selected_index: usize,
    /// The header node of each tab.
    pub headers: Vec<usize>,
    /// The content text of each tab.
    pub contents: Vec<String>,
    /// The label showing the selected tab's content, when there are tabs.
    pub content_label: Option<usize>,
}

impl TabView {
    /// Builds a tab view with the first tab selected: the header row with one header
    /// per tab, and the content row showing the first tab's content.
    pub fn new(cx: &mut Context, pairs: &Vec<TabPair>) -> (h: Handle<TabView>)
        requires
            old(cx)@.len() + 2 * pairs@.len() + 5 < usize::MAX,
        ensures
            h.entity == old(cx)@.len(),
            h.view.selected_index == 0,
            h.view.headers@ == Seq::new(pairs@.len(), |j: int| (h.entity + 2 + 2 * j) as usize),
            h.view.contents@.len() == pairs@.len(),
            forall|j: int| 0 <= j < pairs@.len() ==> #[trigger] h.view.contents@[j]@ == pairs@[j].content@,
            final(cx).cur() == old(cx).cur(),
            ({
                let rows = headers(old(cx)@.push(NodeView::fresh(Tag::TabView, old(cx).cur() as nat))
                    .push(NodeView::fresh(Tag::HStack, h.entity as nat).with_role(Role::GenericContainer).class(Class::TabviewTabheaderWrapper)),
                    (h.entity + 1) as nat, tab_texts(pairs@), pairs@.len());
                let content_row = rows.push(NodeView::fresh(Tag::HStack, h.entity as nat).with_role(Role::GenericContainer)
                    .class(Class::TabviewContentWrapper));
                &&& final(cx)@ == if pairs@.len() > 0 {
                    content_row.push(label_node(rows.len() as nat, pairs@[0].content@))
                } else {
                    content_row
                }
                &&& h.view.content_label == if pairs@.len() > 0 { Some((rows.len() + 1) as usize) } else { None }
            }),
    {
        let here = cx.current();
        let e = cx.add(Tag::TabView);
        let row = cx.add_child(e, Tag::HStack);
        cx.set_role(row, Role::GenericContainer);
        cx.add_class(row, Class::TabviewTabheaderWrapper);
        let ghost start = cx@;
        assert(start =~= old(cx)@.push(NodeView::fresh(Tag::TabView, old(cx).cur() as nat))
            .push(NodeView::fresh(Tag::HStack, e as nat).with_role(Role::GenericContainer).class(Class::TabviewTabheaderWrapper)));
        let ghost texts = tab_texts(pairs@);
        let n = pairs.len();
        let mut hs: Vec<usize> = Vec::new();
        let mut contents: Vec<String> = Vec::new();
        let mut i: usize = 0;
        cx.set_current(row);
        while i < n
            invariant
                0 <= i <= n,
                n == pairs@.len(),
                texts == tab_texts(pairs@),
                row == e + 1,
                start.len() == e + 2,
                start.len() + 2 * n + 3 < usize::MAX,
                cx.cur() == row,
                cx@ == headers(start, row as nat, texts, i as nat),
                cx@.len() == start.len() + 2 * i,
                hs@ == Seq::new(i as nat, |j: int| (e + 2 + 2 * j) as usize),
                contents@.len() == i,
                forall|j: int| 0 <= j < i ==> #[trigger] contents@[j]@ == pairs@[j].content@,
            decreases n - i,
        {
            let h = TabHeader::new(cx, i, pairs[i].header.clone());
            cx.set_checked(h.entity, i == 0);
            proof {
                let prev = headers(start, row as nat, texts, i as nat);
                assert(texts[i as int].0 == pairs@[i as int].header@);
                assert(cx@ =~= prev.push(NodeView::fresh(Tag::TabHeader, row as nat).with_checked(i == 0))
                    .push(label_node(prev.len(), texts[i as int].0)));
            }
            hs.push(h.entity);
            contents.push(pairs[i].content.clone());
            assert(hs@ =~= Seq::new((i + 1) as nat, |j: int| (e + 2 + 2 * j) as usize));
            i = i + 1;
        }
        cx.set_current(here);
        let ghost rows = cx@;
        let wrapper = cx.add_child(e, Tag::HStack);
        cx.set_role(wrapper, Role::GenericContainer);
        cx.add_class(wrapper, Class::TabviewContentWrapper);
        assert(cx@ =~= rows.push(NodeView::fresh(Tag::HStack, e as nat).with_role(Role::GenericContainer)
            .class(Class::TabviewContentWrapper)));
        let content_label = if n > 0 {
            cx.set_current(wrapper);
            let l = Label::new(cx, pairs[0].content.clone());
            cx.set_current(here);
            Some(l.entity)
        } else {
            None
        };
        Handle { entity: e, view: TabView { selected_index: 0, headers: hs, contents, content_label } }
    }
}

/// The nodes after the first `k` headers were checked or unchecked: checked exactly
/// when they belong to tab `selected`.
pub open spec fn headers_checked(s: Seq<NodeView>, headers: Seq<usize>, selected: int, k: nat) -> Seq<NodeView>
    decreases k,
{
    if k == 0 || k > headers.len() {
        s
    } else {
        let prev = headers_checked(s, headers, selected, (k - 1) as nat);
        let h = headers[k - 1] as int;
        prev.update(h, prev[h].with_checked(k - 1 == selected))
    }
}

impl Handle<TabView> {
    /// Selects tab `index`: its header is the only one checked and the content row
    /// shows its content; the event is consumed.
    pub fn event(&mut self, cx: &mut Context, event: TabEvent) -> (consumed: bool)
        requires
            event matches TabEvent::SetSelected(i) ==> i < old(self).view.contents@.len(),
            forall|j: int| 0 <= j < old(self).view.headers@.len() ==> (#[trigger] old(self).view.headers@[j] as int) < old(cx)@.len(),
            forall|j: int, k: int| 0 <= j < k < old(self).view.headers@.len() ==> old(self).view.headers@[j] < old(self).view.headers@[k],
            old(self).view.content_label matches Some(l) ==> (l as int) < old(cx)@.len(),
        ensures
            consumed,
            final(self).entity == old(self).entity,
            final(self).view.headers@ == old(self).view.headers@,
            final(self).view.contents@ == old(self).view.contents@,
            final(self).view.content_label == old(self).view.content_label,
            event matches TabEvent::SetSelected(i) ==> final(self).view.selected_index == i,
            final(cx).cur() == old(cx).cur(),
            final(cx)@.len() == old(cx)@.len(),
            event matches TabEvent::SetSelected(i) ==> {
                let c = headers_checked(old(cx)@, old(self).view.headers@, i as int, old(self).view.headers@.len());
                &&& forall|j: int| 0 <= j < old(self).view.headers@.len() ==>
                    (#[trigger] final(cx)@[old(self).view.headers@[j] as int]).checked == (j == i)
                &&& final(cx)@ == match old(self).view.content_label {
                    Some(l) => c.update(l as int, c[l as int].with_text(old(self).view.contents@[i as int]@)),
                    None => c,
                }
            },
    {
        match event {
            TabEvent::SetSelected(index) => {
                self.view.selected_index = index;
                let n = self.view.headers.len();
                let mut j: usize = 0;
                while j < n
                    invariant
                        0 <= j <= n,
                        n == self.view.headers@.len(),
                        self.view.headers@ == old(self).view.headers@,
                        forall|k: int| 0 <= k < n ==> (#[trigger] self.view.headers@[k] as int) < old(cx)@.len(),
                        forall|a: int, b: int| 0 <= a < b < n ==> self.view.headers@[a] < self.view.headers@[b],
                        cx@.len() == old(cx)@.len(),
                        cx.cur() == old(cx).cur(),
                        forall|k: int| 0 <= k < j ==> (#[trigger] cx@[self.view.headers@[k] as int]).checked == (k == index),
                        cx@ == headers_checked(old(cx)@, self.view.headers@, index as int, j as nat),
                    decreases n - j,
                {
                    let hd = self.view.headers[j];
                    cx.set_checked(hd, j == index);
                    assert(self.view.headers@[j as int] == hd);
                    j = j + 1;
                }
                match self.view.content_label {
                    Some(l) => {
                        let t = self.view.contents[index].clone();
                        cx.set_text(l, t);
                    }
                    None => {}
                }
            }
        }
        true
    }
}

} // verus!
