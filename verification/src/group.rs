//! Views that group other views under a caption: form controls, form groups and
//! frames.

use vstd::prelude::*;
use crate::ui::{Class, Context, Handle, NodeView, Role, Tag};
use crate::label::{label_node, Label};

verus! {

/// Where the label of a form control goes relative to the control.
#[derive(Clone, Copy, PartialEq, Eq, Structural, Debug)]
pub enum FormPlacement {
    Top,
    Start,
    Bottom,
    End,
}

/// Whether the label comes before the control.
pub open spec fn label_first(p: FormPlacement) -> bool {
    p == FormPlacement::Start || p == FormPlacement::Top
}

/// Whether label and control are stacked vertically.
pub open spec fn stacked(p: FormPlacement) -> bool {
    p == FormPlacement::Top || p == FormPlacement::Bottom
}

/// The node of a form control whose label is placed at `p`.
pub open spec fn placed_form(n: NodeView, p: FormPlacement) -> NodeView {
    n.toggled(Class::PosStart, label_first(p)).toggled(Class::Vertical, stacked(p))
}

/// The node of a label describing the control next to it.
pub open spec fn describing_label(parent: nat, text: Seq<char>) -> NodeView {
    label_node(parent, text).class(Class::Describing).with_hidden(true)
}

/// A control with a caption; which of its two labels shows depends on the placement.
pub struct FormControl {
    pub label_placement: FormPlacement,
}

impl FormControl {
    /// Builds a form control: a caption label, a fresh control node built as `control`,
    /// and a second caption label, the label placed at the start.
    pub fn new(cx: &mut Context, control: Tag, label: String) -> (h: Handle<FormControl>)
        requires
            old(cx)@.len() + 3 < usize::MAX,
        ensures
            h.entity == old(cx)@.len(),
            h.view.label_placement == FormPlacement::Start,
            final(cx).cur() == old(cx).cur(),
            final(cx)@ == old(cx)@
                .push(placed_form(NodeView::fresh(Tag::FormControl, old(cx).cur() as nat), FormPlacement::Start))
                .push(describing_label(h.entity as nat, label@))
                .push(NodeView::fresh(control, h.entity as nat))
                .push(describing_label(h.entity as nat, label@)),
    {
        let here = cx.current();
        let e = cx.add(Tag::FormControl);
        cx.set_current(e);
        let first = Label::new(cx, label.clone());
        let _first = first.describing(cx, label.clone());
        let _control = cx.add(control);
        let second = Label::new(cx, label.clone());
        let _second = second.describing(cx, label.clone());
        cx.set_current(here);
        cx.toggle_class(e, Class::PosStart, true);
        cx.toggle_class(e, Class::Vertical, false);
        assert(label@ == label@);
        assert(cx@ =~= old(cx)@
            .push(placed_form(NodeView::fresh(Tag::FormControl, old(cx).cur() as nat), FormPlacement::Start))
            .push(describing_label(e as nat, label@))
            .push(NodeView::fresh(control, e as nat))
            .push(describing_label(e as nat, label@)));
        Handle { entity: e, view: FormControl { label_placement: FormPlacement::Start } }
    }
}

impl Handle<FormControl> {
    /// Places the label of the form control.
    pub fn label_placement(self, cx: &mut Context, placement: FormPlacement) -> (h: Handle<FormControl>)
        requires
            (self.entity as int) < old(cx)@.len(),
        ensures
            h.entity == self.entity,
            h.view.label_placement == placement,
            final(cx).cur() == old(cx).cur(),
            final(cx)@ == old(cx)@.update(self.entity as int, placed_form(old(cx)@[self.entity as int], placement)),
    {
        let first = placement == FormPlacement::Start || placement == FormPlacement::Top;
        let vertical = placement == FormPlacement::Top || placement == FormPlacement::Bottom;
        cx.toggle_class(self.entity, Class::PosStart, first);
        cx.toggle_class(self.entity, Class::Vertical, vertical);
        assert(cx@ =~= old(cx)@.update(self.entity as int, placed_form(old(cx)@[self.entity as int], placement)));
        Handle { entity: self.entity, view: FormControl { label_placement: placement } }
    }
}

/// A group of form controls under a legend.
pub struct FormGroup {}

impl FormGroup {
    /// Builds a form group with its legend, which is displayed only when `label` is
    /// not empty.
    pub fn new(cx: &mut Context, label: String) -> (h: Handle<FormGroup>)
        requires
            old(cx)@.len() + 1 < usize::MAX,
        ensures
            h.entity == old(cx)@.len(),
            final(cx).cur() == old(cx).cur(),
            final(cx)@ == old(cx)@.push(NodeView::fresh(Tag::FormGroup, old(cx).cur() as nat))
                .push(label_node(h.entity as nat, label@).class(Class::Legend).with_displayed(label@.len() > 0)),
    {
        let here = cx.current();
        let e = cx.add(Tag::FormGroup);
        let has_text = !label.as_str().is_empty();
        cx.set_current(e);
        let legend = Label::new(cx, label);
        cx.set_current(here);
        cx.add_class(legend.entity, Class::Legend);
        cx.set_displayed(legend.entity, has_text);
        assert(cx@ =~= old(cx)@.push(NodeView::fresh(Tag::FormGroup, old(cx).cur() as nat))
            .push(label_node(e as nat, label@).class(Class::Legend).with_displayed(label@.len() > 0)));
        Handle { entity: e, view: FormGroup {} }
    }
}

/// Where the title sits on the border of a frame.
#[derive(Clone, Copy, PartialEq, Eq, Structural, Debug)]
pub enum FrameTitlePosition {
    TopLeft,
    TopCenter,
    TopRight,
}

/// The title node at position `pos`: exactly one of the three position classes.
pub open spec fn positioned_title(n: NodeView, pos: FrameTitlePosition) -> NodeView {
    n.toggled(Class::Left, pos == FrameTitlePosition::TopLeft)
        .toggled(Class::Center, pos == FrameTitlePosition::TopCenter)
        .toggled(Class::Right, pos == FrameTitlePosition::TopRight)
}

/// A bordered container with an optional title on its border.
pub struct Frame {
    pub title_position: FrameTitlePosition,
    /// The node of the title, for a frame built with one.
    pub title: Option<usize>,
}

impl Frame {
    /// Builds a frame without a title.
    pub fn new(cx: &mut Context) -> (h: Handle<Frame>)
        requires
            old(cx)@.len() < usize::MAX,
        ensures
            h.entity == old(cx)@.len(),
            h.view == (Frame { title_position: FrameTitlePosition::TopLeft, title: None }),
            final(cx).cur() == old(cx).cur(),
            final(cx)@ == old(cx)@.push(NodeView::fresh(Tag::Frame, old(cx).cur() as nat)),
    {
        let e = cx.add(Tag::Frame);
        Handle { entity: e, view: Frame { title_position: FrameTitlePosition::TopLeft, title: None } }
    }

    /// Builds a frame whose title, a label showing `title`, sits at the top left of
    /// its border.
    pub fn with_title(cx: &mut Context, title: String) -> (h: Handle<Frame>)
        requires
            old(cx)@.len() + 1 < usize::MAX,
        ensures
            h.entity == old(cx)@.len(),
            h.view == (Frame { title_position: FrameTitlePosition::TopLeft, title: Some((h.entity + 1) as usize) }),
            final(cx).cur() == old(cx).cur(),
            final(cx)@ == old(cx)@.push(NodeView::fresh(Tag::Frame, old(cx).cur() as nat))
                .push(positioned_title(label_node(h.entity as nat, title@).class(Class::FrameTitle), FrameTitlePosition::TopLeft)),
    {
        let here = cx.current();
        let e = cx.add(Tag::Frame);
        cx.set_current(e);
        let t = Label::new(cx, title);
        cx.set_current(here);
        cx.add_class(t.entity, Class::FrameTitle);
        cx.toggle_class(t.entity, Class::Left, true);
        cx.toggle_class(t.entity, Class::Center, false);
        cx.toggle_class(t.entity, Class::Right, false);
        assert(cx@ =~= old(cx)@.push(NodeView::fresh(Tag::Frame, old(cx).cur() as nat))
            .push(positioned_title(label_node(e as nat, title@).class(Class::FrameTitle), FrameTitlePosition::TopLeft)));
        Handle { entity: e, view: Frame { title_position: FrameTitlePosition::TopLeft, title: Some(t.entity) } }
    }
}

impl Handle<Frame> {
    /// Moves the title of the frame along its top border.
    pub fn title_position(self, cx: &mut Context, position: FrameTitlePosition) -> (h: Handle<Frame>)
        requires
            self.view.title matches Some(t) ==> (t as int) < old(cx)@.len(),
        ensures
            h.entity == self.entity,
            h.view == (Frame { title_position: position, ..self.view }),
            final(cx).cur() == old(cx).cur(),
            final(cx)@ == match self.view.title {
                Some(t) => old(cx)@.update(t as int, positioned_title(old(cx)@[t as int], position)),
                None => old(cx)@,
            },
    {
        match self.view.title {
            Some(t) => {
                cx.toggle_class(t, Class::Left, position == FrameTitlePosition::TopLeft);
                cx.toggle_class(t, Class::Center, position == FrameTitlePosition::TopCenter);
                cx.toggle_class(t, Class::Right, position == FrameTitlePosition::TopRight);
                assert(cx@ =~= old(cx)@.update(t as int, positioned_title(old(cx)@[t as int], position)));
            }
            None => {}
        }
        Handle { entity: self.entity, view: Frame { title_position: position, title: self.view.title } }
    }
}

} // verus!
