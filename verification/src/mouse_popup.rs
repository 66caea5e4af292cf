//! Popups that open where the mouse is. Positions are in whole logical pixels.

use vstd::prelude::*;
use crate::ui::{Context, Handle, NodeView, Tag};

verus! {

/// Requests to open, close or flip a mouse popup.
#[derive(Clone, Copy, PartialEq, Eq, Structural, Debug)]
pub enum MousePopupEvent {
    Open,
    Close,
    Switch,
}

/// Whether a mouse popup is open and where.
#[derive(Clone, Copy, PartialEq, Eq, Structural, Debug)]
pub struct MousePopupData {
    pub is_open: bool,
    pub x: i64,
    pub y: i64,
}

impl MousePopupData {
    /// Handles an event with the cursor at (`cursor_x`, `cursor_y`): opening moves the
    /// popup to the cursor; every event is consumed.
    pub fn event(&mut self, event: MousePopupEvent, cursor_x: i64, cursor_y: i64) -> (consumed: bool)
        ensures
            consumed,
            *final(self) == match event {
                MousePopupEvent::Open => MousePopupData { is_open: true, x: cursor_x, y: cursor_y },
                MousePopupEvent::Close => MousePopupData { is_open: false, ..*old(self) },
                MousePopupEvent::Switch => if !old(self).is_open {
                    MousePopupData { is_open: true, x: cursor_x, y: cursor_y }
                } else {
                    MousePopupData { is_open: false, ..*old(self) }
                },
            },
    {
        match event {
            MousePopupEvent::Open => {
                self.is_open = true;
                self.x = cursor_x;
                self.y = cursor_y;
            }
            MousePopupEvent::Close => {
                self.is_open = false;
            }
            MousePopupEvent::Switch => {
                self.is_open = !self.is_open;
                if self.is_open {
                    self.x = cursor_x;
                    self.y = cursor_y;
                }
            }
        }
        true
    }
}

/// A popup placed at a point, checked while open.
pub struct MousePopup {
    pub x: i64,
    pub y: i64,
    pub capture_focus: bool,
}

impl MousePopup {
    /// Builds a popup at (`x`, `y`), checked when `is_open`.
    pub fn new(cx: &mut Context, is_open: bool, x: i64, y: i64, capture_focus: bool) -> (h: Handle<MousePopup>)
        requires
            old(cx)@.len() < usize::MAX,
        ensures
            h.entity == old(cx)@.len(),
            h.view.x == x && h.view.y == y && h.view.capture_focus == capture_focus,
            final(cx).cur() == old(cx).cur(),
            final(cx)@ == old(cx)@.push(NodeView::fresh(Tag::Popup, old(cx).cur() as nat).with_checked(is_open)),
    {
        let e = cx.add(Tag::Popup);
        cx.set_checked(e, is_open);
        assert(cx@ =~= old(cx)@.push(NodeView::fresh(Tag::Popup, old(cx).cur() as nat).with_checked(is_open)));
        Handle { entity: e, view: MousePopup { x, y, capture_focus } }
    }
}

} // verus!
