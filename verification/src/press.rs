//! The pointer and keyboard events that pressable views react to, the state their
//! handlers read, and what a handler asks to be done.

use vstd::prelude::*;

verus! {

/// An accessibility action requested by assistive technology.
#[derive(Clone, Copy, PartialEq, Eq, Structural, Debug)]
pub enum Action {
    Click,
    Default,
    Focus,
    Increment,
    Decrement,
    Expand,
    Collapse,
    Other,
}

/// A key that views react to.
#[derive(Clone, Copy, PartialEq, Eq, Structural, Debug)]
pub enum Key {
    ArrowDown,
    ArrowUp,
    ArrowLeft,
    ArrowRight,
    Home,
    End,
    PageUp,
    PageDown,
    Enter,
    Space,
    Escape,
    Tab,
    Backspace,
    Delete,
    Other,
}

/// An event delivered to a pressable view.
#[derive(Clone, Copy, PartialEq, Eq, Structural, Debug)]
pub enum PressEvent {
    /// A press began; `mouse` tells a pointer press from a keyboard one.
    PressDown { mouse: bool },
    /// A press completed.
    Press { mouse: bool },
    /// The left mouse button went up.
    MouseUpLeft,
    /// An accessibility action.
    ActionRequest(Action),
    /// Any other event.
    Other,
}

/// What the handler of a pressable view reads besides the event.
#[derive(Clone, Copy, PartialEq, Eq, Structural, Debug)]
pub struct PressContext {
    /// The view handling the event.
    pub current: usize,
    /// The view the event was sent to.
    pub target: usize,
    /// The view the left mouse button went down on.
    pub pressed: usize,
    /// The view holding keyboard focus.
    pub focused: usize,
    /// Whether the handling view is disabled.
    pub disabled: bool,
}

/// What a handler asks to be done.
#[derive(Clone, Copy, PartialEq, Eq, Structural, Debug)]
pub struct PressResponse {
    /// Move keyboard focus to the view.
    pub focus: bool,
    /// Capture the mouse.
    pub capture: bool,
    /// Release the mouse.
    pub release: bool,
    /// Run the view's callback.
    pub callback: bool,
}

/// A response that does nothing.
pub open spec fn nothing() -> PressResponse {
    PressResponse { focus: false, capture: false, release: false, callback: false }
}

/// Whether a completed press belongs to the view: it ended over the view (under the
/// mouse for a pointer press, in focus for a keyboard one) and was sent to it.
pub open spec fn press_over_view(cx: PressContext, mouse: bool) -> bool {
    let over = if mouse { cx.pressed } else { cx.focused };
    over == cx.current && cx.target == cx.current
}

/// The exec form of [`press_over_view`].
pub fn is_press_over_view(cx: PressContext, mouse: bool) -> (r: bool)
    ensures
        r == press_over_view(cx, mouse),
{
    let over = if mouse { cx.pressed } else { cx.focused };
    over == cx.current && cx.target == cx.current
}

/// A response that only asks for focus, when `focus` holds.
pub fn focus_only(focus: bool) -> (r: PressResponse)
    ensures
        r == (PressResponse { focus, ..nothing() }),
{
    PressResponse { focus, capture: false, release: false, callback: false }
}

/// A response that only asks for the callback, when `callback` holds.
pub fn callback_only(callback: bool) -> (r: PressResponse)
    ensures
        r == (PressResponse { callback, ..nothing() }),
{
    PressResponse { focus: false, capture: false, release: false, callback }
}

} // verus!
