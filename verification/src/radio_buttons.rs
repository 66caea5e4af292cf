//! The radio button bound to a model field, which answers the default accessibility
//! action.

use vstd::prelude::*;
use crate::ui::{Context, Handle};
use crate::press::{Action, PressContext, PressEvent, PressResponse};
use crate::toggle::{switch_like_event, switch_response};
use crate::radio::{build_radio, radio_nodes};

verus! {

/// A radio button.
pub struct RadioButton {
    /// Whether a callback runs when the button is selected.
    pub has_on_select: bool,
}

impl RadioButton {
    /// Builds a radio button.
    pub fn new(cx: &mut Context, checked: bool) -> (h: Handle<RadioButton>)
        requires
            old(cx)@.len() + 1 < usize::MAX,
        ensures
            h.entity == old(cx)@.len(),
            !h.view.has_on_select,
            final(cx).cur() == old(cx).cur(),
            final(cx)@ == radio_nodes(old(cx)@, old(cx).cur() as nat, checked),
    {
        let e = build_radio(cx, checked);
        Handle { entity: e, view: RadioButton { has_on_select: false } }
    }

    /// What the radio button does with an event: a press that ends over it selects it
    /// unless it is disabled; the default accessibility action selects it.
    pub fn event(&self, event: PressEvent, cx: PressContext) -> (r: PressResponse)
        ensures
            r == switch_response(self.has_on_select, event, cx, Action::Default, false),
    {
        switch_like_event(self.has_on_select, event, cx, Action::Default, false)
    }
}

impl Handle<RadioButton> {
    /// Attaches the callback that runs when the button is selected.
    pub fn on_select(self) -> (h: Handle<RadioButton>)
        ensures
            h.entity == self.entity,
            h.view.has_on_select,
    {
        Handle { entity: self.entity, view: RadioButton { has_on_select: true } }
    }
}

} // verus!
