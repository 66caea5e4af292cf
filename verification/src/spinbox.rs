//! Spinboxes: a value between a decrement and an increment button, kept within an
//! optional range. Values are whole numbers.

use vstd::prelude::*;
use crate::ui::{Class, Context, Handle, Icon, NodeView, Orientation, Role, Tag};
use crate::text::{decimal, decimal_string};
use crate::press::Key;

verus! {

/// Which icons the buttons of a spinbox draw.
#[derive(Clone, Copy, PartialEq, Eq, Structural, Debug)]
pub enum SpinboxIcons {
    PlusMinus,
    Chevrons,
}

/// Events a spinbox sends itself.
#[derive(Clone, Copy, PartialEq, Eq, Structural, Debug)]
pub enum SpinboxEvent {
    Increment,
    Decrement,
    SetMin,
    SetMax,
}

/// The event a key bound in a spinbox emits.
pub open spec fn spinbox_key(key: Key) -> Option<SpinboxEvent> {
    match key {
        Key::ArrowUp | Key::ArrowRight => Some(SpinboxEvent::Increment),
        Key::ArrowDown | Key::ArrowLeft => Some(SpinboxEvent::Decrement),
        Key::Home => Some(SpinboxEvent::SetMin),
        Key::End => Some(SpinboxEvent::SetMax),
        _ => None,
    }
}

/// What a spinbox asks for after an event.
#[derive(Clone, Copy, PartialEq, Eq, Structural, Debug)]
pub struct SpinboxResponse {
    /// The value to hand to the change callback.
    pub on_change: Option<i64>,
    pub on_increment: bool,
    pub on_decrement: bool,
}

/// A value with buttons to step it up and down.
pub struct Spinbox {
    pub value: i64,
    pub orientation: Orientation,
    pub icons: SpinboxIcons,
    pub min: Option<i64>,
    pub max: Option<i64>,
    pub has_on_change: bool,
    pub has_on_increment: bool,
    pub has_on_decrement: bool,
}

/// A value kept at least the minimum, then at most the maximum.
pub open spec fn clamped(v: i64, min: Option<i64>, max: Option<i64>) -> i64 {
    let a = match min { Some(m) => if v < m { m } else { v }, None => v };
    match max { Some(m) => if a > m { m } else { a }, None => a }
}

/// The icon of the first button: the decrement button of a horizontal spinbox, the
/// increment button of a vertical one.
pub open spec fn first_icon(o: Orientation, icons: SpinboxIcons) -> Icon {
    match (o, icons) {
        (Orientation::Horizontal, SpinboxIcons::PlusMinus) => Icon::Minus,
        (Orientation::Horizontal, SpinboxIcons::Chevrons) => Icon::ChevronLeft,
        (Orientation::Vertical, SpinboxIcons::PlusMinus) => Icon::Plus,
        (Orientation::Vertical, SpinboxIcons::Chevrons) => Icon::ChevronUp,
    }
}

/// The icon of the second button.
pub open spec fn second_icon(o: Orientation, icons: SpinboxIcons) -> Icon {
    match (o, icons) {
        (Orientation::Horizontal, SpinboxIcons::PlusMinus) => Icon::Plus,
        (Orientation::Horizontal, SpinboxIcons::Chevrons) => Icon::ChevronRight,
        (Orientation::Vertical, SpinboxIcons::PlusMinus) => Icon::Minus,
        (Orientation::Vertical, SpinboxIcons::Chevrons) => Icon::ChevronDown,
    }
}

/// Whether the value sits at the minimum.
pub open spec fn at_min(v: i64, min: Option<i64>) -> bool {
    min matches Some(m) && v <= m
}

/// Whether the value sits at the maximum.
pub open spec fn at_max(v: i64, max: Option<i64>) -> bool {
    max matches Some(m) && v >= m
}

/// A spinbox button under `parent` drawing `icon`, disabled when `disabled`.
pub open spec fn step_button(s: Seq<NodeView>, parent: nat, icon: Icon, disabled: bool) -> Seq<NodeView> {
    s.push(NodeView::fresh(Tag::Button, parent).with_role(Role::Button).with_navigable(false)
            .with_disabled(disabled).class(Class::SpinboxButton))
        .push(NodeView::fresh(Tag::Svg, s.len()).with_icon(icon))
}

/// Appends a spinbox button under `parent`.
fn add_step_button(cx: &mut Context, parent: usize, icon: Icon, disabled: bool)
    requires
        (parent as int) < old(cx)@.len(),
        old(cx)@.len() + 1 < usize::MAX,
    ensures
        final(cx).cur() == old(cx).cur(),
        final(cx)@ == step_button(old(cx)@, parent as nat, icon, disabled),
{
    let b = cx.add_child(parent, Tag::Button);
    cx.set_role(b, Role::Button);
    cx.set_navigable(b, false);
    cx.set_disabled(b, disabled);
    cx.add_class(b, Class::SpinboxButton);
    let _icon = cx.add_icon(b, icon);
    assert(cx@ =~= step_button(old(cx)@, parent as nat, icon, disabled));
}

impl Spinbox {
    /// Builds a horizontal spinbox with chevrons and no range, showing `value`: the
    /// spinbox, its decrement button, its value textbox and its increment button.
    pub fn new(cx: &mut Context, value: i64) -> (h: Handle<Spinbox>)
        requires
            old(cx)@.len() + 5 < usize::MAX,
        ensures
            h.entity == old(cx)@.len(),
            h.view == (Spinbox {
                value,
                orientation: Orientation::Horizontal,
                icons: SpinboxIcons::Chevrons,
                min: None,
                max: None,
                has_on_change: false,
                has_on_increment: false,
                has_on_decrement: false,
            }),
            final(cx).cur() == old(cx).cur(),
            ({
                let e = h.entity as nat;
                let first = step_button(old(cx)@.push(NodeView::fresh(Tag::Spinbox, old(cx).cur() as nat)
                    .toggled(Class::Horizontal, true).toggled(Class::Vertical, false)), e, Icon::ChevronLeft, false);
                let with_value = first.push(NodeView::fresh(Tag::Textbox, e).with_text(decimal(value as int))
                    .class(Class::SpinboxValue).with_role(Role::SpinButton));
                final(cx)@ == step_button(with_value, e, Icon::ChevronRight, false)
            }),
    {
        let e = cx.add(Tag::Spinbox);
        cx.toggle_class(e, Class::Horizontal, true);
        cx.toggle_class(e, Class::Vertical, false);
        add_step_button(cx, e, Icon::ChevronLeft, false);
        let t = cx.add_child(e, Tag::Textbox);
        cx.set_text(t, decimal_string(value));
        cx.add_class(t, Class::SpinboxValue);
        cx.set_role(t, Role::SpinButton);
        let ghost mid = cx@;
        add_step_button(cx, e, Icon::ChevronRight, false);
        Handle {
            entity: e,
            view: Spinbox {
                value,
                orientation: Orientation::Horizontal,
                icons: SpinboxIcons::Chevrons,
                min: None,
                max: None,
                has_on_change: false,
                has_on_increment: false,
                has_on_decrement: false,
            },
        }
    }

    /// The value kept within the range.
    pub fn clamp_value(&self, v: i64) -> (r: i64)
        ensures
            r == clamped(v, self.min, self.max),
    {
        let a = match self.min {
            Some(m) => if v < m { m } else { v },
            None => v,
        };
        match self.max {
            Some(m) => if a > m { m } else { a },
            None => a,
        }
    }

    /// The event a key pressed in the spinbox emits.
    pub fn key_binding(key: Key) -> (r: Option<SpinboxEvent>)
        ensures
            r == spinbox_key(key),
    {
        match key {
            Key::ArrowUp | Key::ArrowRight => Some(SpinboxEvent::Increment),
            Key::ArrowDown | Key::ArrowLeft => Some(SpinboxEvent::Decrement),
            Key::Home => Some(SpinboxEvent::SetMin),
            Key::End => Some(SpinboxEvent::SetMax),
            _ => None,
        }
    }

    /// What the spinbox asks for after an event: a step reports the stepped value,
    /// kept in range, to the change callback and runs the step's own callback; jumping
    /// to an end reports that end when it is set.
    pub open spec fn response(self, event: SpinboxEvent) -> SpinboxResponse {
        match event {
            SpinboxEvent::Increment => SpinboxResponse {
                on_change: if self.has_on_change {
                    Some(clamped(if self.value < i64::MAX { (self.value + 1) as i64 } else { i64::MAX }, self.min, self.max))
                } else {
                    None
                },
                on_increment: self.has_on_increment,
                on_decrement: false,
            },
            SpinboxEvent::Decrement => SpinboxResponse {
                on_change: if self.has_on_change {
                    Some(clamped(if self.value > i64::MIN { (self.value - 1) as i64 } else { i64::MIN }, self.min, self.max))
                } else {
                    None
                },
                on_increment: false,
                on_decrement: self.has_on_decrement,
            },
            SpinboxEvent::SetMin => SpinboxResponse {
                on_change: match self.min {
                    Some(m) if self.has_on_change => Some(clamped(m, self.min, self.max)),
                    _ => None,
                },
                on_increment: false,
                on_decrement: false,
            },
            SpinboxEvent::SetMax => SpinboxResponse {
                on_change: match self.max {
                    Some(m) if self.has_on_change => Some(clamped(m, self.min, self.max)),
                    _ => None,
                },
                on_increment: false,
                on_decrement: false,
            },
        }
    }

    /// Handles an event.
    pub fn event(&self, event: SpinboxEvent) -> (r: SpinboxResponse)
        ensures
            r == self.response(event),
    {
        match event {
            SpinboxEvent::Increment => {
                let v = if self.value < i64::MAX { self.value + 1 } else { i64::MAX };
                SpinboxResponse {
                    on_change: if self.has_on_change { Some(self.clamp_value(v)) } else { None },
                    on_increment: self.has_on_increment,
                    on_decrement: false,
                }
            }
            SpinboxEvent::Decrement => {
                let v = if self.value > i64::MIN { self.value - 1 } else { i64::MIN };
                SpinboxResponse {
                    on_change: if self.has_on_change { Some(self.clamp_value(v)) } else { None },
                    on_increment: false,
                    on_decrement: self.has_on_decrement,
                }
            }
            SpinboxEvent::SetMin => SpinboxResponse {
                on_change: match self.min {
                    Some(m) => if self.has_on_change { Some(self.clamp_value(m)) } else { None },
                    None => None,
                },
                on_increment: false,
                on_decrement: false,
            },
            SpinboxEvent::SetMax => SpinboxResponse {
                on_change: match self.max {
                    Some(m) => if self.has_on_change { Some(self.clamp_value(m)) } else { None },
                    None => None,
                },
                on_increment: false,
                on_decrement: false,
            },
        }
    }

    /// Whether each of the two buttons is disabled: the one that steps down while the
    /// value sits at the minimum, the one that steps up while it sits at the maximum.
    pub fn buttons_disabled(&self) -> (r: (bool, bool))
        ensures
            r == match self.orientation {
                Orientation::Horizontal => (at_min(self.value, self.min), at_max(self.value, self.max)),
                Orientation::Vertical => (at_max(self.value, self.max), at_min(self.value, self.min)),
            },
    {
        let lo = match self.min {
            Some(m) => self.value <= m,
            None => false,
        };
        let hi = match self.max {
            Some(m) => self.value >= m,
            None => false,
        };
        match self.orientation {
            Orientation::Horizontal => (lo, hi),
            Orientation::Vertical => (hi, lo),
        }
    }

    /// The icons of the two buttons.
    pub fn button_icons(&self) -> (r: (Icon, Icon))
        ensures
            r == (first_icon(self.orientation, self.icons), second_icon(self.orientation, self.icons)),
    {
        match (self.orientation, self.icons) {
            (Orientation::Horizontal, SpinboxIcons::PlusMinus) => (Icon::Minus, Icon::Plus),
            (Orientation::Horizontal, SpinboxIcons::Chevrons) => (Icon::ChevronLeft, Icon::ChevronRight),
            (Orientation::Vertical, SpinboxIcons::PlusMinus) => (Icon::Plus, Icon::Minus),
            (Orientation::Vertical, SpinboxIcons::Chevrons) => (Icon::ChevronUp, Icon::ChevronDown),
        }
    }
}

impl Handle<Spinbox> {
    /// Attaches the callback that receives the new value.
    pub fn on_change(self) -> (h: Handle<Spinbox>)
        ensures
            h.entity == self.entity,
            h.view == (Spinbox { has_on_change: true, ..self.view }),
    {
        Handle { entity: self.entity, view: Spinbox { has_on_change: true, ..self.view } }
    }

    /// Attaches the callback that runs on each step up.
    pub fn on_increment(self) -> (h: Handle<Spinbox>)
        ensures
            h.entity == self.entity,
            h.view == (Spinbox { has_on_increment: true, ..self.view }),
    {
        Handle { entity: self.entity, view: Spinbox { has_on_increment: true, ..self.view } }
    }

    /// Attaches the callback that runs on each step down.
    pub fn on_decrement(self) -> (h: Handle<Spinbox>)
        ensures
            h.entity == self.entity,
            h.view == (Spinbox { has_on_decrement: true, ..self.view }),
    {
        Handle { entity: self.entity, view: Spinbox { has_on_decrement: true, ..self.view } }
    }

    /// Sets the orientation; the spinbox node carries the class of that orientation
    /// and not the other.
    pub fn orientation(self, cx: &mut Context, orientation: Orientation) -> (h: Handle<Spinbox>)
        requires
            (self.entity as int) < old(cx)@.len(),
        ensures
            h.entity == self.entity,
            h.view == (Spinbox { orientation, ..self.view }),
            final(cx).cur() == old(cx).cur(),
            final(cx)@ == old(cx)@.update(self.entity as int, old(cx)@[self.entity as int]
                .toggled(Class::Horizontal, orientation == Orientation::Horizontal)
                .toggled(Class::Vertical, orientation == Orientation::Vertical)),
    {
        cx.toggle_class(self.entity, Class::Horizontal, orientation == Orientation::Horizontal);
        cx.toggle_class(self.entity, Class::Vertical, orientation == Orientation::Vertical);
        assert(cx@ =~= old(cx)@.update(self.entity as int, old(cx)@[self.entity as int]
            .toggled(Class::Horizontal, orientation == Orientation::Horizontal)
            .toggled(Class::Vertical, orientation == Orientation::Vertical)));
        Handle { entity: self.entity, view: Spinbox { orientation, ..self.view } }
    }

    /// Sets which icons the buttons draw.
    pub fn icons(self, icons: SpinboxIcons) -> (h: Handle<Spinbox>)
        ensures
            h.entity == self.entity,
            h.view == (Spinbox { icons, ..self.view }),
    {
        Handle { entity: self.entity, view: Spinbox { icons, ..self.view } }
    }

    /// Sets the smallest value.
    pub fn min(self, min: i64) -> (h: Handle<Spinbox>)
        ensures
            h.entity == self.entity,
            h.view == (Spinbox { min: Some(min), ..self.view }),
    {
        Handle { entity: self.entity, view: Spinbox { min: Some(min), ..self.view } }
    }

    /// Sets the largest value.
    pub fn max(self, max: i64) -> (h: Handle<Spinbox>)
        ensures
            h.entity == self.entity,
            h.view == (Spinbox { max: Some(max), ..self.view }),
    {
        Handle { entity: self.entity, view: Spinbox { max: Some(max), ..self.view } }
    }
}


/// Home jumps to the minimum and End to the maximum: with both ends set (the minimum
/// not above the maximum) and a change callback, handling the event Home stands for
/// reports the minimum, the event End stands for reports the maximum, and every other
/// bound key reports a value between them.
pub proof fn law_home_end_jump_to_ends(s: Spinbox, key: Key)
    requires
        s.has_on_change,
        s.min matches Some(lo) && s.max matches Some(hi) && lo <= hi,
    ensures
        spinbox_key(Key::Home) matches Some(e) && s.response(e).on_change == s.min,
        spinbox_key(Key::End) matches Some(e) && s.response(e).on_change == s.max,
        spinbox_key(key) matches Some(e) ==> (s.response(e).on_change matches Some(v)
            && s.min->0 <= v <= s.max->0),
{
}


/// The up keys step the value up and the down keys step it down: with a change
/// callback and the value inside its range, what an up key reports is never below the
/// value and what a down key reports never above it.
pub proof fn law_up_down_keys_step_opposite(s: Spinbox, key: Key)
    requires
        s.has_on_change,
        s.min matches Some(lo) ==> lo <= s.value,
        s.max matches Some(hi) ==> s.value <= hi,
        s.min matches Some(lo) && s.max matches Some(hi) ==> lo <= hi,
    ensures
        (key == Key::ArrowUp || key == Key::ArrowRight) ==> (spinbox_key(key) matches Some(e)
            && s.response(e).on_change matches Some(v) && v >= s.value),
        (key == Key::ArrowDown || key == Key::ArrowLeft) ==> (spinbox_key(key) matches Some(e)
            && s.response(e).on_change matches Some(v) && v <= s.value),
{
}

} // verus!
