//! Labels and the text spans inside rich labels.

use vstd::prelude::*;
use crate::ui::{Class, Context, Handle, NodeView, Role, Tag};

verus! {

/// The node of a label showing `text` under `parent`.
pub open spec fn label_node(parent: nat, text: Seq<char>) -> NodeView {
    NodeView::fresh(Tag::Label, parent).with_text(text).with_role(Role::Label)
}

/// A view which displays a piece of text.
pub struct Label {
    /// The identifier of the view this label describes, if it describes one.
    pub describing: Option<String>,
}

impl Label {
    /// Builds a label showing `text`, with the label role.
    pub fn new(cx: &mut Context, text: String) -> (h: Handle<Label>)
        requires
            old(cx)@.len() < usize::MAX,
        ensures
            h.entity == old(cx)@.len(),
            h.view.describing is None,
            final(cx).cur() == old(cx).cur(),
            final(cx)@ == old(cx)@.push(label_node(old(cx).cur() as nat, text@)),
    {
        let e = cx.add(Tag::Label);
        cx.set_text(e, text);
        cx.set_role(e, Role::Label);
        assert(cx@ =~= old(cx)@.push(label_node(old(cx).cur() as nat, text@)));
        Handle { entity: e, view: Label { describing: None } }
    }

    /// Builds a label showing `text` whose spans are built inside it afterwards.
    pub fn rich(cx: &mut Context, text: String) -> (h: Handle<Label>)
        requires
            old(cx)@.len() < usize::MAX,
        ensures
            h.entity == old(cx)@.len(),
            h.view.describing is None,
            final(cx).cur() == old(cx).cur(),
            final(cx)@ == old(cx)@.push(label_node(old(cx).cur() as nat, text@)),
    {
        Label::new(cx, text)
    }
}

impl Handle<Label> {
    /// Sets whether the text of the label can be selected with the mouse.
    pub fn text_selectable(self, cx: &mut Context, selectable: bool) -> (h: Handle<Label>)
        requires
            (self.entity as int) < old(cx)@.len(),
        ensures
            h.entity == self.entity,
            h.view.describing == self.view.describing,
            final(cx).cur() == old(cx).cur(),
            final(cx)@ == old(cx)@.update(self.entity as int,
                old(cx)@[self.entity as int].toggled(Class::TextSelectable, selectable)),
    {
        cx.toggle_class(self.entity, Class::TextSelectable, selectable);
        self
    }

    /// Makes the label describe the view with identifier `id`: the label is hidden and
    /// a press on it goes to that view.
    pub fn describing(self, cx: &mut Context, id: String) -> (h: Handle<Label>)
        requires
            (self.entity as int) < old(cx)@.len(),
        ensures
            h.entity == self.entity,
            h.view.describing == Some(id),
            final(cx).cur() == old(cx).cur(),
            final(cx)@ == old(cx)@.update(self.entity as int,
                old(cx)@[self.entity as int].class(Class::Describing).with_hidden(true)),
    {
        cx.add_class(self.entity, Class::Describing);
        cx.set_hidden(self.entity, true);
        assert(cx@ =~= old(cx)@.update(self.entity as int,
            old(cx)@[self.entity as int].class(Class::Describing).with_hidden(true)));
        Handle { entity: self.entity, view: Label { describing: Some(id) } }
    }
}

/// Where a press on a label goes, given the state the label's event handler reads.
#[derive(Clone, Copy, PartialEq, Eq, Structural, Debug)]
pub enum LabelPress {
    /// The press is consumed by text selection.
    Consumed,
    /// Focus moves, without a visible focus ring, to the described view, which then
    /// receives the press.
    Forward(usize),
    /// Nothing happens.
    Ignored,
}

/// What a press on a label does: a selectable label swallows it; otherwise a press
/// that started on the label itself goes to the view it describes, when that view
/// could be found.
pub open spec fn label_press_spec(selectable: bool, pressed_here: bool, described: Option<usize>) -> LabelPress {
    if selectable {
        LabelPress::Consumed
    } else if pressed_here && described is Some {
        LabelPress::Forward(described->0)
    } else {
        LabelPress::Ignored
    }
}

/// Decides what a press on a label does.
pub fn label_press(selectable: bool, pressed_here: bool, described: Option<usize>) -> (r: LabelPress)
    ensures
        r == label_press_spec(selectable, pressed_here, described),
{
    if selectable {
        LabelPress::Consumed
    } else if pressed_here {
        match described {
            Some(d) => LabelPress::Forward(d),
            None => LabelPress::Ignored,
        }
    } else {
        LabelPress::Ignored
    }
}

/// A span of text inside a rich label; it is laid out as part of the label's text,
/// not as a view of its own.
pub struct TextSpan {}

impl TextSpan {
    /// Builds a span holding `text`, taken out of layout and drawing.
    pub fn new(cx: &mut Context, text: String) -> (h: Handle<TextSpan>)
        requires
            old(cx)@.len() < usize::MAX,
        ensures
            h.entity == old(cx)@.len(),
            final(cx).cur() == old(cx).cur(),
            final(cx)@ == old(cx)@.push(NodeView::fresh(Tag::TextSpan, old(cx).cur() as nat)
                .with_text(text@).with_displayed(false)),
    {
        let e = cx.add(Tag::TextSpan);
        cx.set_text(e, text);
        cx.set_displayed(e, false);
        assert(cx@ =~= old(cx)@.push(NodeView::fresh(Tag::TextSpan, old(cx).cur() as nat)
            .with_text(text@).with_displayed(false)));
        Handle { entity: e, view: TextSpan {} }
    }
}

} // verus!
