//! Resizable stacks: a container with a handle on one edge that is dragged to resize
//! it. Positions and sizes are in whole logical pixels.

use vstd::prelude::*;
use crate::ui::{Class, Context, Handle, NodeView, Tag};

verus! {

/// The edge of a resizable stack that its handle sits on.
#[derive(Clone, Copy, PartialEq, Eq, Structural, Debug)]
pub enum ResizeStackDirection {
    Left,
    Right,
    Top,
    Bottom,
}

/// Whether the stack is resized along the horizontal axis.
pub open spec fn is_horizontal(d: ResizeStackDirection) -> bool {
    d == ResizeStackDirection::Left || d == ResizeStackDirection::Right
}

/// Whether dragging the handle away from the stack's inside grows it from its start.
pub open spec fn from_leading_edge(d: ResizeStackDirection) -> bool {
    d == ResizeStackDirection::Left || d == ResizeStackDirection::Top
}

impl ResizeStackDirection {
    /// Whether the stack is resized along the horizontal axis.
    pub fn is_horizontal(self) -> (r: bool)
        ensures
            r == is_horizontal(self),
    {
        match self {
            ResizeStackDirection::Left | ResizeStackDirection::Right => true,
            _ => false,
        }
    }

    /// Whether the stack is resized along the vertical axis.
    pub fn is_vertical(self) -> (r: bool)
        ensures
            r == !is_horizontal(self),
    {
        match self {
            ResizeStackDirection::Top | ResizeStackDirection::Bottom => true,
            _ => false,
        }
    }

    /// Whether the handle sits on the stack's leading edge.
    pub fn resizes_from_leading_edge(self) -> (r: bool)
        ensures
            r == from_leading_edge(self),
    {
        match self {
            ResizeStackDirection::Left | ResizeStackDirection::Top => true,
            _ => false,
        }
    }
}

/// The node of a resizable stack with its handle on edge `d`.
pub open spec fn stack_node(parent: nat, d: ResizeStackDirection) -> NodeView {
    NodeView::fresh(Tag::ResizableStack, parent)
        .toggled(Class::Horizontal, !is_horizontal(d))
        .toggled(Class::Vertical, is_horizontal(d))
        .toggled(Class::Left, d == ResizeStackDirection::Left)
        .toggled(Class::Right, d == ResizeStackDirection::Right)
        .toggled(Class::Top, d == ResizeStackDirection::Top)
        .toggled(Class::Bottom, d == ResizeStackDirection::Bottom)
}

/// Events of a resizable stack.
#[derive(Clone, Copy, PartialEq, Eq, Structural, Debug)]
pub enum ResizableStackEvent {
    /// Dragging starts with the cursor at the given position, the stack being `size`
    /// long along its axis.
    StartDrag { cursor_x: i64, cursor_y: i64, size: i64 },
    StopDrag,
    Reset,
    /// The cursor moved.
    MouseMove { x: i64, y: i64 },
    /// The left mouse button went up.
    MouseUpLeft,
}

/// What a resizable stack asks for after an event.
#[derive(Clone, Copy, PartialEq, Eq, Structural, Debug)]
pub struct ResizeResponse {
    /// Start capturing the pointer: the stack turns active, captures the mouse, locks
    /// the cursor icon and turns pointer events off everywhere.
    pub begin_capture: bool,
    /// Stop capturing the pointer, undoing all of the above.
    pub end_capture: bool,
    /// The new size to hand to the drag callback.
    pub on_drag: Option<i64>,
    /// Run the reset callback.
    pub on_reset: bool,
    /// Emit `StopDrag`.
    pub emit_stop: bool,
    pub consumed: bool,
}

/// A response that does nothing.
pub open spec fn still() -> ResizeResponse {
    ResizeResponse { begin_capture: false, end_capture: false, on_drag: None, on_reset: false, emit_stop: false, consumed: false }
}

/// A container that is resized by dragging a handle on one of its edges.
pub struct ResizableStack {
    pub is_dragging: bool,
    pub has_on_reset: bool,
    pub direction: ResizeStackDirection,
    pub drag_start: i64,
    pub start_size: i64,
}

/// The smallest size a drag may ask for is just over this.
pub open spec fn min_drag_size() -> int {
    5
}

impl ResizableStack {
    /// Builds a resizable stack with its handle on edge `direction`, the handle inside
    /// it; its content is built inside it afterwards.
    pub fn new(cx: &mut Context, direction: ResizeStackDirection) -> (h: Handle<ResizableStack>)
        requires
            old(cx)@.len() + 1 < usize::MAX,
        ensures
            h.entity == old(cx)@.len(),
            h.view == (ResizableStack { is_dragging: false, has_on_reset: false, direction, drag_start: 0, start_size: 0 }),
            final(cx).cur() == old(cx).cur(),
            final(cx)@ == old(cx)@.push(stack_node(old(cx).cur() as nat, direction))
                .push(NodeView::fresh(Tag::ResizeHandle, h.entity as nat)),
    {
        let e = cx.add(Tag::ResizableStack);
        let _handle = cx.add_child(e, Tag::ResizeHandle);
        let horizontal = direction.is_horizontal();
        cx.toggle_class(e, Class::Horizontal, !horizontal);
        cx.toggle_class(e, Class::Vertical, horizontal);
        cx.toggle_class(e, Class::Left, direction == ResizeStackDirection::Left);
        cx.toggle_class(e, Class::Right, direction == ResizeStackDirection::Right);
        cx.toggle_class(e, Class::Top, direction == ResizeStackDirection::Top);
        cx.toggle_class(e, Class::Bottom, direction == ResizeStackDirection::Bottom);
        assert(cx@ =~= old(cx)@.push(stack_node(old(cx).cur() as nat, direction))
            .push(NodeView::fresh(Tag::ResizeHandle, e as nat)));
        Handle { entity: e, view: ResizableStack { is_dragging: false, has_on_reset: false, direction, drag_start: 0, start_size: 0 } }
    }

    /// The size a drag to position `pos` along the axis asks for.
    pub open spec fn dragged_size(self, pos: int) -> int {
        let delta = pos - self.drag_start;
        if from_leading_edge(self.direction) { self.start_size - delta } else { self.start_size + delta }
    }

    /// The state after an event.
    pub open spec fn after(self, event: ResizableStackEvent) -> ResizableStack {
        match event {
            ResizableStackEvent::StartDrag { cursor_x, cursor_y, size } => ResizableStack {
                is_dragging: true,
                start_size: size,
                drag_start: if is_horizontal(self.direction) { cursor_x } else { cursor_y },
                ..self
            },
            ResizableStackEvent::StopDrag | ResizableStackEvent::Reset => ResizableStack { is_dragging: false, ..self },
            _ => self,
        }
    }

    /// What the stack asks for after an event: while dragging, every move to a size of
    /// more than five pixels goes to the drag callback.
    pub open spec fn response(self, event: ResizableStackEvent) -> ResizeResponse {
        match event {
            ResizableStackEvent::StartDrag { .. } => ResizeResponse { begin_capture: true, consumed: true, ..still() },
            ResizableStackEvent::StopDrag => ResizeResponse { end_capture: true, consumed: true, ..still() },
            ResizableStackEvent::Reset => ResizeResponse { end_capture: true, on_reset: self.has_on_reset, consumed: true, ..still() },
            ResizableStackEvent::MouseMove { x, y } => {
                let size = self.dragged_size(if is_horizontal(self.direction) { x as int } else { y as int });
                if self.is_dragging && size > min_drag_size() && i64::MIN <= size <= i64::MAX {
                    ResizeResponse { on_drag: Some(size as i64), ..still() }
                } else {
                    still()
                }
            },
            ResizableStackEvent::MouseUpLeft => ResizeResponse { emit_stop: true, ..still() },
        }
    }

    /// Handles an event.
    pub fn event(&mut self, event: ResizableStackEvent) -> (r: ResizeResponse)
        ensures
            *final(self) == old(self).after(event),
            r == old(self).response(event),
    {
        let none = ResizeResponse { begin_capture: false, end_capture: false, on_drag: None, on_reset: false, emit_stop: false, consumed: false };
        match event {
            ResizableStackEvent::StartDrag { cursor_x, cursor_y, size } => {
                self.is_dragging = true;
                self.start_size = size;
                self.drag_start = if self.direction.is_horizontal() { cursor_x } else { cursor_y };
                ResizeResponse { begin_capture: true, consumed: true, ..none }
            }
            ResizableStackEvent::StopDrag => {
                self.is_dragging = false;
                ResizeResponse { end_capture: true, consumed: true, ..none }
            }
            ResizableStackEvent::Reset => {
                self.is_dragging = false;
                ResizeResponse { end_capture: true, on_reset: self.has_on_reset, consumed: true, ..none }
            }
            ResizableStackEvent::MouseMove { x, y } => {
                if !self.is_dragging {
                    return none;
                }
                let pos: i128 = if self.direction.is_horizontal() { x as i128 } else { y as i128 };
                let delta: i128 = pos - self.drag_start as i128;
                let size: i128 = if self.direction.resizes_from_leading_edge() {
                    self.start_size as i128 - delta
                } else {
                    self.start_size as i128 + delta
                };
                if size > 5 && size <= i64::MAX as i128 {
                    ResizeResponse { on_drag: Some(size as i64), ..none }
                } else {
                    none
                }
            }
            ResizableStackEvent::MouseUpLeft => ResizeResponse { emit_stop: true, ..none },
        }
    }
}

impl Handle<ResizableStack> {
    /// Attaches the callback that runs when the stack is reset.
    pub fn on_reset(self) -> (h: Handle<ResizableStack>)
        ensures
            h.entity == self.entity,
            h.view == (ResizableStack { has_on_reset: true, ..self.view }),
    {
        Handle { entity: self.entity, view: ResizableStack { has_on_reset: true, ..self.view } }
    }
}

/// The handle that a resizable stack is dragged by.
pub struct ResizeHandle {}

impl ResizeHandle {
    /// Builds a resize handle.
    pub fn new(cx: &mut Context) -> (h: Handle<ResizeHandle>)
        requires
            old(cx)@.len() < usize::MAX,
        ensures
            h.entity == old(cx)@.len(),
            final(cx).cur() == old(cx).cur(),
            final(cx)@ == old(cx)@.push(NodeView::fresh(Tag::ResizeHandle, old(cx).cur() as nat)),
    {
        let e = cx.add(Tag::ResizeHandle);
        Handle { entity: e, view: ResizeHandle {} }
    }

    /// A mouse press on the handle starts a drag from the cursor's position, the stack
    /// being `size` long; a left double click resets the stack.
    pub fn event(press_down_mouse: bool, double_click_left: bool, cursor_x: i64, cursor_y: i64, size: i64)
        -> (r: Option<ResizableStackEvent>)
        ensures
            r == if press_down_mouse {
                Some(ResizableStackEvent::StartDrag { cursor_x, cursor_y, size })
            } else if double_click_left {
                Some(ResizableStackEvent::Reset)
            } else {
                None
            },
    {
        if press_down_mouse {
            Some(ResizableStackEvent::StartDrag { cursor_x, cursor_y, size })
        } else if double_click_left {
            Some(ResizableStackEvent::Reset)
        } else {
            None
        }
    }
}

} // verus!
