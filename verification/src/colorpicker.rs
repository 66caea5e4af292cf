//! Color pickers: a saturation and value square with the hue, saturation and value
//! shown in textboxes. The conversions between color spaces use floating point and
//! are done outside the library.

use vstd::prelude::*;
use crate::ui::{Context, Handle, NodeView, Role, Tag};

verus! {

/// A color with 8-bit red, green, blue and alpha channels.
#[derive(Clone, Copy, PartialEq, Eq, Structural, Debug)]
pub struct Color {
    pub r: u8,
    pub g: u8,
    pub b: u8,
    pub a: u8,
}

/// Events of a color picker.
#[derive(Clone, Copy, PartialEq, Eq, Structural, Debug)]
pub enum ColorPickerEvent {
    SetColor(Color),
}

/// The nodes of a color selector under `parent`: the selector and its thumb.
pub open spec fn selector_nodes(s: Seq<NodeView>, parent: nat) -> Seq<NodeView> {
    s.push(NodeView::fresh(Tag::ColorSelector, parent)).push(NodeView::fresh(Tag::Element, s.len()))
}

/// The square on which saturation and value are picked.
pub struct ColorSelector {
    pub has_on_change: bool,
    pub is_dragging: bool,
}

impl ColorSelector {
    /// Builds a color selector with its thumb inside it.
    pub fn new(cx: &mut Context) -> (h: Handle<ColorSelector>)
        requires
            old(cx)@.len() + 1 < usize::MAX,
        ensures
            h.entity == old(cx)@.len(),
            h.view == (ColorSelector { has_on_change: false, is_dragging: false }),
            final(cx).cur() == old(cx).cur(),
            final(cx)@ == selector_nodes(old(cx)@, old(cx).cur() as nat),
    {
        let e = cx.add(Tag::ColorSelector);
        let _thumb = cx.add_child(e, Tag::Element);
        Handle { entity: e, view: ColorSelector { has_on_change: false, is_dragging: false } }
    }
}

impl Handle<ColorSelector> {
    /// Attaches the callback that receives the picked color.
    pub fn on_change(self) -> (h: Handle<ColorSelector>)
        ensures
            h.entity == self.entity,
            h.view == (ColorSelector { has_on_change: true, ..self.view }),
    {
        Handle { entity: self.entity, view: ColorSelector { has_on_change: true, ..self.view } }
    }
}

/// A color picker: a selector and a row of three textboxes.
pub struct ColorPicker {
    pub has_on_change: bool,
}

/// The node of an empty textbox under `parent`.
pub open spec fn empty_textbox(parent: nat) -> NodeView {
    NodeView::fresh(Tag::Textbox, parent).with_role(Role::TextInput)
}

impl ColorPicker {
    /// Builds a color picker: the picker, its selector with the thumb, and a row
    /// holding the hue, saturation and value textboxes.
    pub fn new(cx: &mut Context) -> (h: Handle<ColorPicker>)
        requires
            old(cx)@.len() + 6 < usize::MAX,
        ensures
            h.entity == old(cx)@.len(),
            !h.view.has_on_change,
            final(cx).cur() == old(cx).cur(),
            ({
                let e = h.entity as nat;
                let s = selector_nodes(old(cx)@.push(NodeView::fresh(Tag::ColorPicker, old(cx).cur() as nat)), e);
                let row = s.len();
                final(cx)@ == s.push(NodeView::fresh(Tag::HStack, e).with_role(Role::GenericContainer))
                    .push(empty_textbox(row)).push(empty_textbox(row)).push(empty_textbox(row))
            }),
    {
        let here = cx.current();
        let e = cx.add(Tag::ColorPicker);
        cx.set_current(e);
        let _selector = ColorSelector::new(cx);
        let row = cx.add_with_role(Tag::HStack, Role::GenericContainer);
        cx.set_current(here);
        let t1 = cx.add_child(row, Tag::Textbox);
        cx.set_role(t1, Role::TextInput);
        let t2 = cx.add_child(row, Tag::Textbox);
        cx.set_role(t2, Role::TextInput);
        let t3 = cx.add_child(row, Tag::Textbox);
        cx.set_role(t3, Role::TextInput);
        Handle { entity: e, view: ColorPicker { has_on_change: false } }
    }

    /// A new color goes to the change callback, if any.
    pub fn event(&self, event: ColorPickerEvent) -> (r: Option<Color>)
        ensures
            r == match event {
                ColorPickerEvent::SetColor(c) => if self.has_on_change { Some(c) } else { None },
            },
    {
        match event {
            ColorPickerEvent::SetColor(c) => if self.has_on_change { Some(c) } else { None },
        }
    }
}

impl Handle<ColorPicker> {
    /// Attaches the callback that receives the new color.
    pub fn on_change(self) -> (h: Handle<ColorPicker>)
        ensures
            h.entity == self.entity,
            h.view.has_on_change,
    {
        Handle { entity: self.entity, view: ColorPicker { has_on_change: true } }
    }
}

} // verus!
