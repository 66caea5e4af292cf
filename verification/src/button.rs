//! Buttons and button groups.

use vstd::prelude::*;
use crate::ui::{Class, Context, Handle, NodeView, Role, Tag};
use crate::label::{label_node, Label};
use crate::press::{callback_only, focus_only, nothing, Action, PressContext, PressEvent, PressResponse};

verus! {

/// What a clickable view (a button or a checkbox) does with an event: a press that
/// begins on it takes focus, a press that ends on it runs its callback, and so does an
/// accessibility click.
pub open spec fn click_response(has_callback: bool, event: PressEvent, cx: PressContext) -> PressResponse {
    match event {
        PressEvent::PressDown { .. } => PressResponse { focus: cx.target == cx.current, ..nothing() },
        PressEvent::Press { .. } => PressResponse { callback: cx.target == cx.current && has_callback, ..nothing() },
        PressEvent::ActionRequest(Action::Click) => PressResponse { callback: has_callback, ..nothing() },
        _ => nothing(),
    }
}

/// Decides what a clickable view does with an event.
pub fn clickable_event(has_callback: bool, event: PressEvent, cx: PressContext) -> (r: PressResponse)
    ensures
        r == click_response(has_callback, event, cx),
{
    match event {
        PressEvent::PressDown { .. } => focus_only(cx.target == cx.current),
        PressEvent::Press { .. } => callback_only(cx.target == cx.current && has_callback),
        PressEvent::ActionRequest(Action::Click) => callback_only(has_callback),
        _ => callback_only(false),
    }
}

/// The node of a button under `parent`: the button role, reachable by keyboard.
pub open spec fn button_node(parent: nat) -> NodeView {
    NodeView::fresh(Tag::Button, parent).with_role(Role::Button).with_navigable(true)
}

/// A view which runs an action when pressed.
pub struct Button {
    /// Whether an action is attached.
    pub has_action: bool,
}

impl Button {
    /// Builds a button with a label showing `text` inside it.
    pub fn new(cx: &mut Context, text: String) -> (h: Handle<Button>)
        requires
            old(cx)@.len() + 1 < usize::MAX,
        ensures
            h.entity == old(cx)@.len(),
            !h.view.has_action,
            final(cx).cur() == old(cx).cur(),
            final(cx)@ == old(cx)@.push(button_node(old(cx).cur() as nat)).push(label_node(h.entity as nat, text@)),
    {
        let here = cx.current();
        let e = cx.add_with_role(Tag::Button, Role::Button);
        cx.set_navigable(e, true);
        cx.set_current(e);
        let _label = Label::new(cx, text);
        cx.set_current(here);
        assert(cx@ =~= old(cx)@.push(button_node(old(cx).cur() as nat)).push(label_node(e as nat, text@)));
        Handle { entity: e, view: Button { has_action: false } }
    }

    /// What the button does with an event.
    pub fn event(&self, event: PressEvent, cx: PressContext) -> (r: PressResponse)
        ensures
            r == click_response(self.has_action, event, cx),
    {
        clickable_event(self.has_action, event, cx)
    }
}

impl Handle<Button> {
    /// Attaches the action that runs when the button is pressed.
    pub fn on_press(self) -> (h: Handle<Button>)
        ensures
            h.entity == self.entity,
            h.view.has_action,
    {
        Handle { entity: self.entity, view: Button { has_action: true } }
    }
}

/// The look of a button.
#[derive(Clone, Copy, PartialEq, Eq, Structural, Debug)]
pub enum ButtonVariant {
    Normal,
    Accent,
    Outline,
    Text,
}

/// A node styled as variant `v`: one class for each variant other than the normal one.
pub open spec fn styled(n: NodeView, v: ButtonVariant) -> NodeView {
    n.toggled(Class::Accent, v == ButtonVariant::Accent)
        .toggled(Class::Outline, v == ButtonVariant::Outline)
        .toggled(Class::Text, v == ButtonVariant::Text)
}

/// Styles node `e` as variant `v`.
pub(crate) fn style_variant(cx: &mut Context, e: usize, v: ButtonVariant)
    requires
        (e as int) < old(cx)@.len(),
    ensures
        final(cx).cur() == old(cx).cur(),
        final(cx)@ == old(cx)@.update(e as int, styled(old(cx)@[e as int], v)),
{
    cx.toggle_class(e, Class::Accent, v == ButtonVariant::Accent);
    cx.toggle_class(e, Class::Outline, v == ButtonVariant::Outline);
    cx.toggle_class(e, Class::Text, v == ButtonVariant::Text);
    assert(cx@ =~= old(cx)@.update(e as int, styled(old(cx)@[e as int], v)));
}

/// Modifiers for the look of buttons and button groups.
pub trait ButtonModifiers: Sized {
    /// The node the modifiers act on.
    spec fn node(&self) -> usize;

    /// Styles the view as variant `variant`.
    fn variant(self, cx: &mut Context, variant: ButtonVariant) -> (h: Self)
        requires
            (self.node() as int) < old(cx)@.len(),
        ensures
            h.node() == self.node(),
            final(cx).cur() == old(cx).cur(),
            final(cx)@ == old(cx)@.update(self.node() as int, styled(old(cx)@[self.node() as int], variant));
}

impl ButtonModifiers for Handle<Button> {
    open spec fn node(&self) -> usize {
        self.entity
    }

    fn variant(self, cx: &mut Context, variant: ButtonVariant) -> (h: Self) {
        style_variant(cx, self.entity, variant);
        self
    }
}

/// A row or column of buttons drawn as one control.
pub struct ButtonGroup {}

impl ButtonGroup {
    /// Builds a button group.
    pub fn new(cx: &mut Context) -> (h: Handle<ButtonGroup>)
        requires
            old(cx)@.len() < usize::MAX,
        ensures
            h.entity == old(cx)@.len(),
            final(cx).cur() == old(cx).cur(),
            final(cx)@ == old(cx)@.push(NodeView::fresh(Tag::ButtonGroup, old(cx).cur() as nat)),
    {
        let e = cx.add(Tag::ButtonGroup);
        Handle { entity: e, view: ButtonGroup {} }
    }
}

impl Handle<ButtonGroup> {
    /// Sets whether the buttons of the group are stacked vertically.
    pub fn vertical(self, cx: &mut Context, is_vertical: bool) -> (h: Handle<ButtonGroup>)
        requires
            (self.entity as int) < old(cx)@.len(),
        ensures
            h.entity == self.entity,
            final(cx).cur() == old(cx).cur(),
            final(cx)@ == old(cx)@.update(self.entity as int,
                old(cx)@[self.entity as int].toggled(Class::Vertical, is_vertical)),
    {
        cx.toggle_class(self.entity, Class::Vertical, is_vertical);
        self
    }
}

impl ButtonModifiers for Handle<ButtonGroup> {
    open spec fn node(&self) -> usize {
        self.entity
    }

    fn variant(self, cx: &mut Context, variant: ButtonVariant) -> (h: Self) {
        style_variant(cx, self.entity, variant);
        self
    }
}

} // verus!
