//! Dropdowns: a trigger with a popup that opens below it.

use vstd::prelude::*;
use crate::ui::{Context, Handle, NodeView, Placement, Tag};
use crate::popup::{popup_open_after, Popup, PopupEvent};

verus! {

/// A trigger view with a popup that opens next to it.
#[derive(Clone, Copy, Debug)]
pub struct Dropdown {
    pub is_open: bool,
    pub placement: Placement,
    pub show_arrow: bool,
    /// The size of the popup's arrow, in whole logical pixels.
    pub arrow_size: u32,
    pub should_reposition: bool,
}

impl Dropdown {
    /// The state of a dropdown when built: closed, opening below with an arrow of four
    /// pixels, repositioned when it does not fit.
    pub open spec fn initial() -> Dropdown {
        Dropdown { is_open: false, placement: Placement::Bottom, show_arrow: true, arrow_size: 4, should_reposition: true }
    }

    /// Builds a closed dropdown; its trigger is built inside it afterwards.
    pub fn new(cx: &mut Context) -> (h: Handle<Dropdown>)
        requires
            old(cx)@.len() < usize::MAX,
        ensures
            h.entity == old(cx)@.len(),
            h.view == Dropdown::initial(),
            final(cx).cur() == old(cx).cur(),
            final(cx)@ == old(cx)@.push(NodeView::fresh(Tag::Dropdown, old(cx).cur() as nat)),
    {
        let e = cx.add(Tag::Dropdown);
        Handle {
            entity: e,
            view: Dropdown { is_open: false, placement: Placement::Bottom, show_arrow: true, arrow_size: 4, should_reposition: true },
        }
    }

    /// Opens, closes or flips the dropdown; every popup event is consumed.
    pub fn event(&mut self, event: PopupEvent) -> (consumed: bool)
        ensures
            *final(self) == (Dropdown { is_open: popup_open_after(old(self).is_open, event), ..*old(self) }),
            consumed,
    {
        self.is_open = match event {
            PopupEvent::Open => true,
            PopupEvent::Close => false,
            PopupEvent::Switch => !self.is_open,
        };
        true
    }

    /// The popup that the dropdown shows: none while closed; while open, one set up
    /// as the dropdown says, which closes the dropdown when it loses focus.
    pub fn popup(&self) -> (p: Option<Popup>)
        ensures
            p == if self.is_open {
                Some(Popup {
                    placement: self.placement,
                    show_arrow: self.show_arrow,
                    arrow_size: self.arrow_size,
                    should_reposition: self.should_reposition,
                    has_on_blur: true,
                })
            } else {
                None
            },
    {
        if self.is_open {
            Some(Popup {
                placement: self.placement,
                show_arrow: self.show_arrow,
                arrow_size: self.arrow_size,
                should_reposition: self.should_reposition,
                has_on_blur: true,
            })
        } else {
            None
        }
    }
}

impl Handle<Dropdown> {
    /// Sets where the popup opens.
    pub fn placement(self, placement: Placement) -> (h: Handle<Dropdown>)
        ensures
            h.entity == self.entity,
            h.view == (Dropdown { placement, ..self.view }),
    {
        Handle { entity: self.entity, view: Dropdown { placement, ..self.view } }
    }

    /// Sets whether the popup shows an arrow.
    pub fn show_arrow(self, show_arrow: bool) -> (h: Handle<Dropdown>)
        ensures
            h.entity == self.entity,
            h.view == (Dropdown { show_arrow, ..self.view }),
    {
        Handle { entity: self.entity, view: Dropdown { show_arrow, ..self.view } }
    }

    /// Sets the size of the popup's arrow.
    pub fn arrow_size(self, size: u32) -> (h: Handle<Dropdown>)
        ensures
            h.entity == self.entity,
            h.view == (Dropdown { arrow_size: size, ..self.view }),
    {
        Handle { entity: self.entity, view: Dropdown { arrow_size: size, ..self.view } }
    }

    /// Sets whether the popup may move when it does not fit.
    pub fn should_reposition(self, flag: bool) -> (h: Handle<Dropdown>)
        ensures
            h.entity == self.entity,
            h.view == (Dropdown { should_reposition: flag, ..self.view }),
    {
        Handle { entity: self.entity, view: Dropdown { should_reposition: flag, ..self.view } }
    }
}

} // verus!
