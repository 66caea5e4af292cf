//! Views that show and flip a checked state: checkboxes, switches and toggle buttons.
//!
//! None of them changes its own state: a press runs the attached callback, which is
//! expected to flip the state that the view is built from.

use vstd::prelude::*;
use crate::ui::{Class, Context, Handle, Icon, NodeView, Role, Tag};
use crate::label::{label_node, Label};
use crate::press::{is_press_over_view, nothing, press_over_view, Action, PressContext, PressEvent, PressResponse};
use crate::button::{click_response, clickable_event};

verus! {

/// The tree after an svg node drawing `icon` was appended under `parent`, if there is
/// an icon.
pub open spec fn with_icon_node(s: Seq<NodeView>, parent: nat, icon: Option<Icon>) -> Seq<NodeView> {
    match icon {
        Some(i) => s.push(NodeView::fresh(Tag::Svg, parent).with_icon(i)),
        None => s,
    }
}

/// Appends an svg node drawing `icon` under `parent`, if there is an icon.
fn add_optional_icon(cx: &mut Context, parent: usize, icon: Option<Icon>)
    requires
        (parent as int) < old(cx)@.len(),
        old(cx)@.len() < usize::MAX,
    ensures
        final(cx).cur() == old(cx).cur(),
        final(cx)@ == with_icon_node(old(cx)@, parent as nat, icon),
{
    match icon {
        Some(i) => {
            let _svg = cx.add_icon(parent, i);
        }
        None => {}
    }
}

/// The node of a checkbox under `parent`.
pub open spec fn checkbox_node(parent: nat, checked: bool) -> NodeView {
    NodeView::fresh(Tag::Checkbox, parent).with_checked(checked).with_role(Role::CheckBox).with_navigable(true)
}

/// The icon a checkbox with custom icons shows.
pub open spec fn custom_icon(checked: bool, icon_default: Option<Icon>, icon_checked: Option<Icon>) -> Option<Icon> {
    if checked { icon_checked } else { icon_default }
}

/// The icon a checkbox with an intermediate state shows.
pub open spec fn tristate_icon(checked: bool, intermediate: bool) -> Option<Icon> {
    if checked {
        Some(Icon::Check)
    } else if intermediate {
        Some(Icon::Minus)
    } else {
        None
    }
}

/// A box that shows a check mark when checked.
pub struct Checkbox {
    /// Whether a callback runs when the checkbox is toggled.
    pub has_on_toggle: bool,
}

impl Checkbox {
    /// Builds a checkbox, with a check mark inside it when `checked` holds.
    pub fn new(cx: &mut Context, checked: bool) -> (h: Handle<Checkbox>)
        requires
            old(cx)@.len() + 1 < usize::MAX,
        ensures
            h.entity == old(cx)@.len(),
            !h.view.has_on_toggle,
            final(cx).cur() == old(cx).cur(),
            final(cx)@ == with_icon_node(old(cx)@.push(checkbox_node(old(cx).cur() as nat, checked)),
                h.entity as nat, if checked { Some(Icon::Check) } else { None }),
    {
        let icon = if checked { Some(Icon::Check) } else { None };
        Checkbox::with_icons(cx, checked, None, icon)
    }

    /// Builds a checkbox that shows `icon_checked` when checked and `icon_default`
    /// otherwise.
    pub fn with_icons(cx: &mut Context, checked: bool, icon_default: Option<Icon>, icon_checked: Option<Icon>) -> (h: Handle<Checkbox>)
        requires
            old(cx)@.len() + 1 < usize::MAX,
        ensures
            h.entity == old(cx)@.len(),
            !h.view.has_on_toggle,
            final(cx).cur() == old(cx).cur(),
            final(cx)@ == with_icon_node(old(cx)@.push(checkbox_node(old(cx).cur() as nat, checked)),
                h.entity as nat, custom_icon(checked, icon_default, icon_checked)),
    {
        let e = cx.add_with_role(Tag::Checkbox, Role::CheckBox);
        cx.set_checked(e, checked);
        cx.set_navigable(e, true);
        assert(cx@ =~= old(cx)@.push(checkbox_node(old(cx).cur() as nat, checked)));
        let icon = if checked { icon_checked } else { icon_default };
        add_optional_icon(cx, e, icon);
        Handle { entity: e, view: Checkbox { has_on_toggle: false } }
    }

    /// Builds a checkbox with a third, intermediate state: a check mark when checked,
    /// a dash when intermediate and not checked, and the intermediate class then.
    pub fn intermediate(cx: &mut Context, checked: bool, intermediate: bool) -> (h: Handle<Checkbox>)
        requires
            old(cx)@.len() + 1 < usize::MAX,
        ensures
            h.entity == old(cx)@.len(),
            !h.view.has_on_toggle,
            final(cx).cur() == old(cx).cur(),
            final(cx)@ == with_icon_node(old(cx)@.push(NodeView::fresh(Tag::Checkbox, old(cx).cur() as nat)
                    .toggled(Class::Intermediate, !checked && intermediate).with_checked(checked).with_navigable(true)),
                h.entity as nat, tristate_icon(checked, intermediate)),
    {
        let e = cx.add(Tag::Checkbox);
        cx.toggle_class(e, Class::Intermediate, !checked && intermediate);
        cx.set_checked(e, checked);
        cx.set_navigable(e, true);
        assert(cx@ =~= old(cx)@.push(NodeView::fresh(Tag::Checkbox, old(cx).cur() as nat)
            .toggled(Class::Intermediate, !checked && intermediate).with_checked(checked).with_navigable(true)));
        let icon = if checked {
            Some(Icon::Check)
        } else if intermediate {
            Some(Icon::Minus)
        } else {
            None
        };
        add_optional_icon(cx, e, icon);
        Handle { entity: e, view: Checkbox { has_on_toggle: false } }
    }

    /// What the checkbox does with an event: as a button does.
    pub fn event(&self, event: PressEvent, cx: PressContext) -> (r: PressResponse)
        ensures
            r == click_response(self.has_on_toggle, event, cx),
    {
        clickable_event(self.has_on_toggle, event, cx)
    }
}

impl Handle<Checkbox> {
    /// Attaches the callback that runs when the checkbox is toggled.
    pub fn on_toggle(self) -> (h: Handle<Checkbox>)
        ensures
            h.entity == self.entity,
            h.view.has_on_toggle,
    {
        Handle { entity: self.entity, view: Checkbox { has_on_toggle: true } }
    }
}

/// What a switch-like view (a switch or a radio button) does with an event: a press
/// that ends over it and was sent to it runs its callback unless the view is disabled;
/// so does the accessibility action `action`, unless `guarded` and the view is disabled.
pub open spec fn switch_response(has_callback: bool, event: PressEvent, cx: PressContext, action: Action, guarded: bool) -> PressResponse {
    match event {
        PressEvent::Press { mouse } => PressResponse {
            callback: press_over_view(cx, mouse) && !cx.disabled && has_callback,
            ..nothing()
        },
        PressEvent::ActionRequest(a) => PressResponse {
            callback: a == action && has_callback && !(guarded && cx.disabled),
            ..nothing()
        },
        _ => nothing(),
    }
}

/// Decides what a switch-like view does with an event.
pub fn switch_like_event(has_callback: bool, event: PressEvent, cx: PressContext, action: Action, guarded: bool) -> (r: PressResponse)
    ensures
        r == switch_response(has_callback, event, cx, action, guarded),
{
    let callback = match event {
        PressEvent::Press { mouse } => is_press_over_view(cx, mouse) && !cx.disabled && has_callback,
        PressEvent::ActionRequest(a) => a == action && has_callback && !(guarded && cx.disabled),
        _ => false,
    };
    PressResponse { focus: false, capture: false, release: false, callback }
}

/// A sliding on/off control.
pub struct Switch {
    /// Whether a callback runs when the switch is toggled.
    pub has_on_toggle: bool,
}

impl Switch {
    /// Builds a switch with its track and handle inside it.
    pub fn new(cx: &mut Context, checked: bool) -> (h: Handle<Switch>)
        requires
            old(cx)@.len() + 2 < usize::MAX,
        ensures
            h.entity == old(cx)@.len(),
            !h.view.has_on_toggle,
            final(cx).cur() == old(cx).cur(),
            final(cx)@ == old(cx)@
                .push(NodeView::fresh(Tag::Switch, old(cx).cur() as nat).with_checked(checked).with_role(Role::Switch).with_navigable(true))
                .push(NodeView::fresh(Tag::Element, h.entity as nat).class(Class::SwitchHandleBg))
                .push(NodeView::fresh(Tag::Element, h.entity as nat).class(Class::SwitchHandle)),
    {
        let e = cx.add(Tag::Switch);
        let _bg = cx.add_child_with_class(e, Tag::Element, Class::SwitchHandleBg);
        let _handle = cx.add_child_with_class(e, Tag::Element, Class::SwitchHandle);
        cx.set_checked(e, checked);
        cx.set_role(e, Role::Switch);
        cx.set_navigable(e, true);
        assert(cx@ =~= old(cx)@
            .push(NodeView::fresh(Tag::Switch, old(cx).cur() as nat).with_checked(checked).with_role(Role::Switch).with_navigable(true))
            .push(NodeView::fresh(Tag::Element, e as nat).class(Class::SwitchHandleBg))
            .push(NodeView::fresh(Tag::Element, e as nat).class(Class::SwitchHandle)));
        Handle { entity: e, view: Switch { has_on_toggle: false } }
    }

    /// What the switch does with an event; a disabled switch ignores presses and
    /// clicks.
    pub fn event(&self, event: PressEvent, cx: PressContext) -> (r: PressResponse)
        ensures
            r == switch_response(self.has_on_toggle, event, cx, Action::Click, true),
    {
        switch_like_event(self.has_on_toggle, event, cx, Action::Click, true)
    }
}

impl Handle<Switch> {
    /// Attaches the callback that runs when the switch is toggled.
    pub fn on_toggle(self) -> (h: Handle<Switch>)
        ensures
            h.entity == self.entity,
            h.view.has_on_toggle,
    {
        Handle { entity: self.entity, view: Switch { has_on_toggle: true } }
    }
}

/// The node of a toggle button under `parent`.
pub open spec fn toggle_button_node(parent: nat, checked: bool) -> NodeView {
    NodeView::fresh(Tag::ToggleButton, parent).with_role(Role::Button).with_navigable(true)
        .with_checkable(true).with_checked(checked)
}

/// What a toggle button does with an event: any press that begins takes focus and,
/// from the mouse, captures it; a press that ends over it runs its callback unless it
/// is disabled; releasing the left button releases the mouse; an accessibility click
/// runs the callback.
pub open spec fn toggle_button_response(has_callback: bool, event: PressEvent, cx: PressContext) -> PressResponse {
    match event {
        PressEvent::PressDown { mouse } => PressResponse { focus: true, capture: mouse, ..nothing() },
        PressEvent::Press { mouse } => PressResponse {
            callback: press_over_view(cx, mouse) && !cx.disabled && has_callback,
            ..nothing()
        },
        PressEvent::MouseUpLeft => PressResponse { release: true, ..nothing() },
        PressEvent::ActionRequest(Action::Click) => PressResponse { callback: has_callback, ..nothing() },
        _ => nothing(),
    }
}

/// A button that stays pressed while checked.
pub struct ToggleButton {
    /// Whether a callback runs when the button is toggled.
    pub has_on_toggle: bool,
}

impl ToggleButton {
    /// Builds a toggle button with a label showing `text` inside it.
    pub fn new(cx: &mut Context, checked: bool, text: String) -> (h: Handle<ToggleButton>)
        requires
            old(cx)@.len() + 1 < usize::MAX,
        ensures
            h.entity == old(cx)@.len(),
            !h.view.has_on_toggle,
            final(cx).cur() == old(cx).cur(),
            final(cx)@ == old(cx)@.push(toggle_button_node(old(cx).cur() as nat, checked))
                .push(label_node(h.entity as nat, text@)),
    {
        let here = cx.current();
        let e = cx.add_with_role(Tag::ToggleButton, Role::Button);
        cx.set_current(e);
        let _label = Label::new(cx, text);
        cx.set_current(here);
        cx.set_navigable(e, true);
        cx.set_checkable(e, true);
        cx.set_checked(e, checked);
        assert(cx@ =~= old(cx)@.push(toggle_button_node(old(cx).cur() as nat, checked))
            .push(label_node(e as nat, text@)));
        Handle { entity: e, view: ToggleButton { has_on_toggle: false } }
    }

    /// Builds a toggle button whose label shows `checked_text` when checked and
    /// `unchecked_text` otherwise.
    pub fn with_contents(cx: &mut Context, checked: bool, unchecked_text: String, checked_text: String) -> (h: Handle<ToggleButton>)
        requires
            old(cx)@.len() + 1 < usize::MAX,
        ensures
            h.entity == old(cx)@.len(),
            !h.view.has_on_toggle,
            final(cx).cur() == old(cx).cur(),
            final(cx)@ == old(cx)@.push(toggle_button_node(old(cx).cur() as nat, checked))
                .push(label_node(h.entity as nat, if checked { checked_text@ } else { unchecked_text@ })),
    {
        let text = if checked { checked_text } else { unchecked_text };
        ToggleButton::new(cx, checked, text)
    }

    /// What the toggle button does with an event.
    pub fn event(&self, event: PressEvent, cx: PressContext) -> (r: PressResponse)
        ensures
            r == toggle_button_response(self.has_on_toggle, event, cx),
    {
        match event {
            PressEvent::PressDown { mouse } => PressResponse { focus: true, capture: mouse, release: false, callback: false },
            PressEvent::Press { mouse } => PressResponse {
                focus: false,
                capture: false,
                release: false,
                callback: is_press_over_view(cx, mouse) && !cx.disabled && self.has_on_toggle,
            },
            PressEvent::MouseUpLeft => PressResponse { focus: false, capture: false, release: true, callback: false },
            PressEvent::ActionRequest(Action::Click) => PressResponse {
                focus: false,
                capture: false,
                release: false,
                callback: self.has_on_toggle,
            },
            _ => PressResponse { focus: false, capture: false, release: false, callback: false },
        }
    }
}

impl Handle<ToggleButton> {
    /// Attaches the callback that runs when the button is toggled.
    pub fn on_toggle(self) -> (h: Handle<ToggleButton>)
        ensures
            h.entity == self.entity,
            h.view.has_on_toggle,
    {
        Handle { entity: self.entity, view: ToggleButton { has_on_toggle: true } }
    }
}

} // verus!
