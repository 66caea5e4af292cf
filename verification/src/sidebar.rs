//! A sidebar: a column resized from its right edge, holding a header, scrolling
//! content and a footer, separated by dividers. Widths are in whole logical pixels.

use vstd::prelude::*;
use crate::ui::{Class, Context, Handle, NodeView, Orientation, Role, Tag};
use crate::layout::{Divider, VStack};
use crate::resizable_stack::{stack_node, ResizableStack, ResizeStackDirection};
use crate::scroll::{scrollbar_nodes, ScrollView};

verus! {

/// A resizable side column.
pub struct Sidebar {
    pub width: u32,
    /// The header column, the content's scroll view and the footer column, where
    /// their content goes.
    pub header: usize,
    pub content: usize,
    pub footer: usize,
}

/// A divider of the sidebar's column at `parent`, with its line, after `t`.
pub open spec fn sidebar_divider(t: Seq<NodeView>, parent: nat) -> Seq<NodeView> {
    t.push(NodeView::fresh(Tag::Divider, parent).class(Class::SidebarDivider))
        .push(NodeView::fresh(Tag::Element, t.len()).class(Class::DividerLine))
}

/// The content's scroll view in the sidebar's column at `parent`, after `t`.
pub open spec fn sidebar_scroll(t: Seq<NodeView>, parent: nat) -> Seq<NodeView> {
    let v = t.len();
    scrollbar_nodes(scrollbar_nodes(t.push(NodeView::fresh(Tag::ScrollView, parent).class(Class::SidebarContent))
        .push(NodeView::fresh(Tag::ScrollContent, v)), v, Orientation::Vertical), v, Orientation::Horizontal)
}

/// The nodes of a sidebar built under `parent` after `s`: the sidebar, its stack with
/// the resize handle, the header, a divider, the scroll view, a divider and the footer.
pub open spec fn sidebar_nodes(s: Seq<NodeView>, parent: nat) -> Seq<NodeView> {
    let e = s.len();
    let top = s.push(NodeView::fresh(Tag::Sidebar, parent))
        .push(stack_node(e, ResizeStackDirection::Right))
        .push(NodeView::fresh(Tag::ResizeHandle, e + 1))
        .push(NodeView::fresh(Tag::VStack, e + 1).with_role(Role::GenericContainer).class(Class::SidebarHeader));
    sidebar_divider(sidebar_scroll(sidebar_divider(top, e + 1), e + 1), e + 1)
        .push(NodeView::fresh(Tag::VStack, e + 1).with_role(Role::GenericContainer).class(Class::SidebarFooter))
}

impl Sidebar {
    /// Builds a sidebar 200 pixels wide: the sidebar, a stack resized from its right
    /// edge, and inside it the header column, a divider, the content's scroll view, a
    /// divider and the footer column.
    pub fn new(cx: &mut Context) -> (h: Handle<Sidebar>)
        requires
            old(cx)@.len() + 20 < usize::MAX,
        ensures
            h.entity == old(cx)@.len(),
            h.view == (Sidebar { width: 200, header: (h.entity + 3) as usize, content: (h.entity + 6) as usize,
                footer: (h.entity + 14) as usize }),
            final(cx).cur() == old(cx).cur(),
            final(cx)@ == sidebar_nodes(old(cx)@, old(cx).cur() as nat),
    {
        let here = cx.current();
        let e = cx.add(Tag::Sidebar);
        cx.set_current(e);
        let stack = ResizableStack::new(cx, ResizeStackDirection::Right);
        cx.set_current(stack.entity);
        let header = VStack::new(cx);
        cx.add_class(header.entity, Class::SidebarHeader);
        let ghost top = cx@;
        let d1 = Divider::new(cx);
        cx.add_class(d1.entity, Class::SidebarDivider);
        assert(cx@ =~= sidebar_divider(top, (e + 1) as nat));
        let ghost above = cx@;
        let content = ScrollView::new(cx);
        cx.add_class(content.entity, Class::SidebarContent);
        assert(cx@ =~= sidebar_scroll(above, (e + 1) as nat));
        let ghost scrolled = cx@;
        let d2 = Divider::new(cx);
        cx.add_class(d2.entity, Class::SidebarDivider);
        assert(cx@ =~= sidebar_divider(scrolled, (e + 1) as nat));
        let footer = VStack::new(cx);
        cx.add_class(footer.entity, Class::SidebarFooter);
        cx.set_current(here);
        assert(top =~= old(cx)@.push(NodeView::fresh(Tag::Sidebar, old(cx).cur() as nat))
            .push(stack_node(e as nat, ResizeStackDirection::Right))
            .push(NodeView::fresh(Tag::ResizeHandle, (e + 1) as nat))
            .push(NodeView::fresh(Tag::VStack, (e + 1) as nat).with_role(Role::GenericContainer).class(Class::SidebarHeader)));
        assert(cx@ =~= sidebar_nodes(old(cx)@, old(cx).cur() as nat));
        Handle { entity: e, view: Sidebar { width: 200, header: header.entity, content: content.entity, footer: footer.entity } }
    }

    /// Dragging the edge to `new_size` makes it the width.
    pub fn on_drag(&mut self, new_size: u32)
        ensures
            final(self).width == new_size,
            final(self).header == old(self).header,
            final(self).content == old(self).content,
            final(self).footer == old(self).footer,
    {
        self.width = new_size;
    }
}

} // verus!
