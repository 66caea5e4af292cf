//! Number inputs: a textbox holding a whole number, checked against an optional
//! range.

use vstd::prelude::*;
use crate::ui::{Class, Context, Handle, NodeView, Role, Tag};
use crate::text::{decimal, decimal_string};

verus! {

/// A textbox for a whole number.
pub struct NumberInput {
    pub value: i64,
    pub min: Option<i64>,
    pub max: Option<i64>,
    /// Whether a submitted value is written back to the value.
    pub two_way: bool,
    /// Whether a validator of the caller's is attached.
    pub has_validator: bool,
}

/// Whether a value lies in the range: at least the minimum and at most the maximum,
/// where they are set.
pub open spec fn in_range(v: i64, min: Option<i64>, max: Option<i64>) -> bool {
    (match min { Some(m) => v >= m, None => true }) && (match max { Some(m) => v <= m, None => true })
}

impl NumberInput {
    /// Builds a number input showing `value`: the number-input node with a textbox
    /// inside it.
    pub fn new(cx: &mut Context, value: i64) -> (h: Handle<NumberInput>)
        requires
            old(cx)@.len() + 1 < usize::MAX,
        ensures
            h.entity == old(cx)@.len(),
            h.view == (NumberInput { value, min: None, max: None, two_way: false, has_validator: false }),
            final(cx).cur() == old(cx).cur(),
            final(cx)@ == old(cx)@.push(NodeView::fresh(Tag::NumberInput, old(cx).cur() as nat).class(Class::NumberInput))
                .push(NodeView::fresh(Tag::Textbox, h.entity as nat).with_role(Role::TextInput).with_text(decimal(value as int))),
    {
        let e = cx.add(Tag::NumberInput);
        cx.add_class(e, Class::NumberInput);
        let t = cx.add_child(e, Tag::Textbox);
        cx.set_role(t, Role::TextInput);
        cx.set_text(t, decimal_string(value));
        assert(cx@ =~= old(cx)@.push(NodeView::fresh(Tag::NumberInput, old(cx).cur() as nat).class(Class::NumberInput))
            .push(NodeView::fresh(Tag::Textbox, e as nat).with_role(Role::TextInput).with_text(decimal(value as int))));
        Handle { entity: e, view: NumberInput { value, min: None, max: None, two_way: false, has_validator: false } }
    }

    /// Whether the textbox accepts `v`: inside the range and, when a validator is
    /// attached, accepted by it (`validator_ok`).
    pub fn accepts(&self, v: i64, validator_ok: bool) -> (r: bool)
        ensures
            r == (in_range(v, self.min, self.max) && (!self.has_validator || validator_ok)),
    {
        let min_ok = match self.min {
            Some(m) => v >= m,
            None => true,
        };
        let max_ok = match self.max {
            Some(m) => v <= m,
            None => true,
        };
        min_ok && max_ok && (!self.has_validator || validator_ok)
    }

    /// The value after the textbox submitted `v`: taken when two-way, kept otherwise.
    pub fn submitted(&mut self, v: i64)
        ensures
            *final(self) == (NumberInput { value: if old(self).two_way { v } else { old(self).value }, ..*old(self) }),
    {
        if self.two_way {
            self.value = v;
        }
    }
}

impl Handle<NumberInput> {
    /// Sets the smallest accepted value; an attached validator still applies besides
    /// the range.
    pub fn min(self, min: i64) -> (h: Handle<NumberInput>)
        ensures
            h.entity == self.entity,
            h.view == (NumberInput { min: Some(min), ..self.view }),
    {
        Handle { entity: self.entity, view: NumberInput { min: Some(min), ..self.view } }
    }

    /// Sets the largest accepted value; an attached validator still applies besides
    /// the range.
    pub fn max(self, max: i64) -> (h: Handle<NumberInput>)
        ensures
            h.entity == self.entity,
            h.view == (NumberInput { max: Some(max), ..self.view }),
    {
        Handle { entity: self.entity, view: NumberInput { max: Some(max), ..self.view } }
    }

    /// Sets both ends of the accepted range; an attached validator still applies
    /// besides the range.
    pub fn range(self, min: i64, max: i64) -> (h: Handle<NumberInput>)
        ensures
            h.entity == self.entity,
            h.view == (NumberInput { min: Some(min), max: Some(max), ..self.view }),
    {
        Handle { entity: self.entity, view: NumberInput { min: Some(min), max: Some(max), ..self.view } }
    }

    /// Writes submitted values back to the value.
    pub fn two_way(self) -> (h: Handle<NumberInput>)
        ensures
            h.entity == self.entity,
            h.view == (NumberInput { two_way: true, ..self.view }),
    {
        Handle { entity: self.entity, view: NumberInput { two_way: true, ..self.view } }
    }

    /// Attaches a validator that values must pass besides the range.
    pub fn validate(self) -> (h: Handle<NumberInput>)
        ensures
            h.entity == self.entity,
            h.view == (NumberInput { has_validator: true, ..self.view }),
    {
        Handle { entity: self.entity, view: NumberInput { has_validator: true, ..self.view } }
    }
}

} // verus!
