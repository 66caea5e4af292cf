//! A radio button: one of a group of mutually exclusive choices.

use vstd::prelude::*;
use crate::ui::{Class, Context, Handle, NodeView, Role, Tag};
use crate::press::{Action, PressContext, PressEvent, PressResponse};
use crate::toggle::{switch_like_event, switch_response};

verus! {

/// The nodes of a radio button under `parent`: the button and its inner dot.
pub open spec fn radio_nodes(before: Seq<NodeView>, parent: nat, checked: bool) -> Seq<NodeView> {
    before.push(NodeView::fresh(Tag::RadioButton, parent).with_checked(checked).with_navigable(true)
            .with_checkable(true).with_role(Role::RadioButton))
        .push(NodeView::fresh(Tag::Element, before.len()).class(Class::Inner))
}

/// Builds the nodes of a radio button.
pub fn build_radio(cx: &mut Context, checked: bool) -> (e: usize)
    requires
        old(cx)@.len() + 1 < usize::MAX,
    ensures
        e == old(cx)@.len(),
        final(cx).cur() == old(cx).cur(),
        final(cx)@ == radio_nodes(old(cx)@, old(cx).cur() as nat, checked),
{
    let e = cx.add(Tag::RadioButton);
    let _inner = cx.add_child_with_class(e, Tag::Element, Class::Inner);
    cx.set_checked(e, checked);
    cx.set_navigable(e, true);
    cx.set_checkable(e, true);
    cx.set_role(e, Role::RadioButton);
    assert(cx@ =~= radio_nodes(old(cx)@, old(cx).cur() as nat, checked));
    e
}

/// A radio button.
pub struct RadioButton {
    /// Whether a callback runs when the button is selected.
    pub has_on_select: bool,
}

impl RadioButton {
    /// Builds a radio button.
    pub fn new(cx: &mut Context, checked: bool) -> (h: Handle<RadioButton>)
        requires
            old(cx)@.len() + 1 < usize::MAX,
        ensures
            h.entity == old(cx)@.len(),
            !h.view.has_on_select,
            final(cx).cur() == old(cx).cur(),
            final(cx)@ == radio_nodes(old(cx)@, old(cx).cur() as nat, checked),
    {
        let e = build_radio(cx, checked);
        Handle { entity: e, view: RadioButton { has_on_select: false } }
    }

    /// What the radio button does with an event: a press that ends over it selects it
    /// unless it is disabled; an accessibility click selects it.
    pub fn event(&self, event: PressEvent, cx: PressContext) -> (r: PressResponse)
        ensures
            r == switch_response(self.has_on_select, event, cx, Action::Click, false),
    {
        switch_like_event(self.has_on_select, event, cx, Action::Click, false)
    }
}

impl Handle<RadioButton> {
    /// Attaches the callback that runs when the button is selected.
    pub fn on_select(self) -> (h: Handle<RadioButton>)
        ensures
            h.entity == self.entity,
            h.view.has_on_select,
    {
        Handle { entity: self.entity, view: RadioButton { has_on_select: true } }
    }
}

} // verus!
