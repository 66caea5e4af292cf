//! Chips: compact labels that may carry a close button.

use vstd::prelude::*;
use crate::ui::{Class, Context, Handle, Icon, NodeView, Role, Tag};
use crate::label::{label_node, Label};
use crate::button::button_node;

verus! {

/// The look of a chip.
#[derive(Clone, Copy, PartialEq, Eq, Structural, Debug)]
pub enum ChipVariant {
    Filled,
    Outline,
}

/// A compact label.
pub struct Chip {
    /// Whether a close callback is attached, and with it a close button.
    pub has_on_close: bool,
}

impl Chip {
    /// Builds a chip with a label showing `text` inside it.
    pub fn new(cx: &mut Context, text: String) -> (h: Handle<Chip>)
        requires
            old(cx)@.len() + 1 < usize::MAX,
        ensures
            h.entity == old(cx)@.len(),
            !h.view.has_on_close,
            final(cx).cur() == old(cx).cur(),
            final(cx)@ == old(cx)@.push(NodeView::fresh(Tag::Chip, old(cx).cur() as nat).toggled(Class::Close, false))
                .push(label_node(h.entity as nat, text@)),
    {
        let here = cx.current();
        let e = cx.add(Tag::Chip);
        cx.set_current(e);
        let _label = Label::new(cx, text);
        cx.set_current(here);
        cx.toggle_class(e, Class::Close, false);
        assert(cx@ =~= old(cx)@.push(NodeView::fresh(Tag::Chip, old(cx).cur() as nat).toggled(Class::Close, false))
            .push(label_node(e as nat, text@)));
        Handle { entity: e, view: Chip { has_on_close: false } }
    }
}

/// The tree after a close button was added to the chip at `e`.
pub open spec fn with_close_button(before: Seq<NodeView>, e: int) -> Seq<NodeView> {
    before.update(e, before[e].class(Class::Close))
        .push(button_node(e as nat).class(Class::CloseIcon))
        .push(NodeView::fresh(Tag::Svg, before.len()).with_icon(Icon::Close))
}

impl Handle<Chip> {
    /// Attaches the close callback: the chip gets the close class and, the first time,
    /// a close button drawing a cross.
    pub fn on_close(self, cx: &mut Context) -> (h: Handle<Chip>)
        requires
            (self.entity as int) < old(cx)@.len(),
            old(cx)@.len() + 1 < usize::MAX,
        ensures
            h.entity == self.entity,
            h.view.has_on_close,
            final(cx).cur() == old(cx).cur(),
            final(cx)@ == if self.view.has_on_close { old(cx)@ } else { with_close_button(old(cx)@, self.entity as int) },
    {
        if !self.view.has_on_close {
            let b = cx.add_child(self.entity, Tag::Button);
            cx.set_role(b, Role::Button);
            cx.set_navigable(b, true);
            cx.add_class(b, Class::CloseIcon);
            let _icon = cx.add_icon(b, Icon::Close);
            cx.add_class(self.entity, Class::Close);
            assert(cx@ =~= with_close_button(old(cx)@, self.entity as int));
        }
        Handle { entity: self.entity, view: Chip { has_on_close: true } }
    }

    /// Styles the chip as `variant`.
    pub fn variant(self, cx: &mut Context, variant: ChipVariant) -> (h: Handle<Chip>)
        requires
            (self.entity as int) < old(cx)@.len(),
        ensures
            h.entity == self.entity,
            h.view.has_on_close == self.view.has_on_close,
            final(cx).cur() == old(cx).cur(),
            final(cx)@ == old(cx)@.update(self.entity as int,
                old(cx)@[self.entity as int].toggled(Class::Outline, variant == ChipVariant::Outline)),
    {
        cx.toggle_class(self.entity, Class::Outline, variant == ChipVariant::Outline);
        self
    }
}

} // verus!
