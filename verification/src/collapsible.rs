//! A collapsible section: a header that opens and closes the content below it.

use vstd::prelude::*;
use crate::ui::{Class, Context, Handle, Icon, NodeView, Role, Tag};
use crate::label::{label_node, Label};

verus! {

/// Events of a collapsible section.
#[derive(Clone, Copy, PartialEq, Eq, Structural, Debug)]
pub enum CollapsibleEvent {
    ToggleOpen,
}

/// The nodes of a closed collapsible section under `parent`: the section, its header
/// row with the header's label and the expand icon, and its content column.
pub open spec fn collapsible_nodes(before: Seq<NodeView>, parent: nat, header: Seq<char>) -> Seq<NodeView> {
    let e = before.len();
    before.push(NodeView::fresh(Tag::Collapsible, parent).toggled(Class::Open, false))
        .push(NodeView::fresh(Tag::HStack, e).with_role(Role::GenericContainer).class(Class::Header))
        .push(label_node(e + 1, header))
        .push(NodeView::fresh(Tag::Svg, e + 1).with_icon(Icon::ChevronDown).class(Class::ExpandIcon))
        .push(NodeView::fresh(Tag::VStack, e).with_role(Role::GenericContainer).class(Class::Content))
}

/// A section whose content can be shown and hidden.
pub struct Collapsible {
    pub is_open: bool,
    /// The node of the header, where the header's own content goes.
    pub header: usize,
    /// The node of the content column.
    pub content: usize,
}

impl Collapsible {
    /// Builds a closed collapsible section whose header shows `header`; the content
    /// is built inside the content column afterwards.
    pub fn new(cx: &mut Context, header: String) -> (h: Handle<Collapsible>)
        requires
            old(cx)@.len() + 4 < usize::MAX,
        ensures
            h.entity == old(cx)@.len(),
            h.view == (Collapsible { is_open: false, header: (h.entity + 1) as usize, content: (h.entity + 4) as usize }),
            final(cx).cur() == old(cx).cur(),
            final(cx)@ == collapsible_nodes(old(cx)@, old(cx).cur() as nat, header@),
    {
        let here = cx.current();
        let e = cx.add(Tag::Collapsible);
        let header_row = cx.add_child(e, Tag::HStack);
        cx.set_role(header_row, Role::GenericContainer);
        cx.add_class(header_row, Class::Header);
        cx.set_current(header_row);
        let _title = Label::new(cx, header);
        cx.set_current(here);
        let icon = cx.add_icon(header_row, Icon::ChevronDown);
        cx.add_class(icon, Class::ExpandIcon);
        let content = cx.add_child(e, Tag::VStack);
        cx.set_role(content, Role::GenericContainer);
        cx.add_class(content, Class::Content);
        cx.toggle_class(e, Class::Open, false);
        assert(cx@ =~= collapsible_nodes(old(cx)@, old(cx).cur() as nat, header@));
        Handle { entity: e, view: Collapsible { is_open: false, header: header_row, content } }
    }
}

impl Handle<Collapsible> {
    /// Handles an event: toggling flips the open state, and the section's node carries
    /// the open class exactly when it is open.
    pub fn event(&mut self, cx: &mut Context, event: CollapsibleEvent)
        requires
            (old(self).entity as int) < old(cx)@.len(),
        ensures
            final(self).entity == old(self).entity,
            final(self).view == (Collapsible { is_open: !old(self).view.is_open, ..old(self).view }),
            final(cx).cur() == old(cx).cur(),
            final(cx)@ == old(cx)@.update(old(self).entity as int,
                old(cx)@[old(self).entity as int].toggled(Class::Open, !old(self).view.is_open)),
    {
        match event {
            CollapsibleEvent::ToggleOpen => {
                self.view.is_open = !self.view.is_open;
                cx.toggle_class(self.entity, Class::Open, self.view.is_open);
            }
        }
    }

    /// Opens or closes the section.
    pub fn open(self, cx: &mut Context, open: bool) -> (h: Handle<Collapsible>)
        requires
            (self.entity as int) < old(cx)@.len(),
        ensures
            h.entity == self.entity,
            h.view == (Collapsible { is_open: open, ..self.view }),
            final(cx).cur() == old(cx).cur(),
            final(cx)@ == old(cx)@.update(self.entity as int,
                old(cx)@[self.entity as int].toggled(Class::Open, open)),
    {
        cx.toggle_class(self.entity, Class::Open, open);
        Handle { entity: self.entity, view: Collapsible { is_open: open, ..self.view } }
    }
}

} // verus!
