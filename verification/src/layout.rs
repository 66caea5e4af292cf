//! Containers that only arrange what is built inside them: stacks, grids, cards,
//! frames, dividers, dialogs and the plain element.
//!
//! Each builder appends its own nodes under the current node and hands back a handle;
//! what goes inside a container is built afterwards by making its node current.

use vstd::prelude::*;
use crate::ui::{Class, Context, Handle, NodeView, Orientation, Role, Tag};

verus! {

/// The tree after one node built as `tag`, with role `role`, was appended under `parent`.
pub open spec fn with_node(before: Seq<NodeView>, tag: Tag, parent: usize, role: Role) -> Seq<NodeView> {
    before.push(NodeView::fresh(tag, parent as nat).with_role(role))
}

/// A view which arranges its children into a vertical stack (column).
pub struct VStack {}

impl VStack {
    /// Builds a vertical stack: a generic container.
    pub fn new(cx: &mut Context) -> (h: Handle<VStack>)
        requires
            old(cx)@.len() < usize::MAX,
        ensures
            h.entity == old(cx)@.len(),
            final(cx).cur() == old(cx).cur(),
            final(cx)@ == with_node(old(cx)@, Tag::VStack, old(cx).cur(), Role::GenericContainer),
    {
        let e = cx.add_with_role(Tag::VStack, Role::GenericContainer);
        Handle { entity: e, view: VStack {} }
    }
}

/// A view which arranges its children into a horizontal stack (row).
pub struct HStack {}

impl HStack {
    /// Builds a horizontal stack: a generic container laid out as a row.
    pub fn new(cx: &mut Context) -> (h: Handle<HStack>)
        requires
            old(cx)@.len() < usize::MAX,
        ensures
            h.entity == old(cx)@.len(),
            final(cx).cur() == old(cx).cur(),
            final(cx)@ == with_node(old(cx)@, Tag::HStack, old(cx).cur(), Role::GenericContainer),
    {
        let e = cx.add_with_role(Tag::HStack, Role::GenericContainer);
        Handle { entity: e, view: HStack {} }
    }
}

/// A view which overlays its children on top of each other.
pub struct ZStack {}

impl ZStack {
    /// Builds an overlay stack.
    pub fn new(cx: &mut Context) -> (h: Handle<ZStack>)
        requires
            old(cx)@.len() < usize::MAX,
        ensures
            h.entity == old(cx)@.len(),
            final(cx).cur() == old(cx).cur(),
            final(cx)@ == old(cx)@.push(NodeView::fresh(Tag::ZStack, old(cx).cur() as nat)),
    {
        let e = cx.add(Tag::ZStack);
        Handle { entity: e, view: ZStack {} }
    }
}

/// A view which arranges its children into a grid.
pub struct Grid {}

impl Grid {
    /// Builds a grid: a generic container laid out in tracks.
    pub fn new(cx: &mut Context) -> (h: Handle<Grid>)
        requires
            old(cx)@.len() < usize::MAX,
        ensures
            h.entity == old(cx)@.len(),
            final(cx).cur() == old(cx).cur(),
            final(cx)@ == with_node(old(cx)@, Tag::Grid, old(cx).cur(), Role::GenericContainer),
    {
        let e = cx.add_with_role(Tag::Grid, Role::GenericContainer);
        Handle { entity: e, view: Grid {} }
    }
}

/// A basic element with no interactivity and no children.
pub struct Element {}

impl Element {
    /// Builds an element.
    pub fn new(cx: &mut Context) -> (h: Handle<Element>)
        requires
            old(cx)@.len() < usize::MAX,
        ensures
            h.entity == old(cx)@.len(),
            final(cx).cur() == old(cx).cur(),
            final(cx)@ == old(cx)@.push(NodeView::fresh(Tag::Element, old(cx).cur() as nat)),
    {
        let e = cx.add(Tag::Element);
        Handle { entity: e, view: Element {} }
    }
}

/// A container view used to group related content.
pub struct Card {}

/// The header section of a card.
pub struct CardHeader {}

/// The content section of a card.
pub struct CardContent {}

/// The footer section of a card.
pub struct CardFooter {}

impl Card {
    /// Builds a card.
    pub fn new(cx: &mut Context) -> (h: Handle<Card>)
        requires
            old(cx)@.len() < usize::MAX,
        ensures
            h.entity == old(cx)@.len(),
            final(cx).cur() == old(cx).cur(),
            final(cx)@ == old(cx)@.push(NodeView::fresh(Tag::Card, old(cx).cur() as nat)),
    {
        let e = cx.add(Tag::Card);
        Handle { entity: e, view: Card {} }
    }
}

impl CardHeader {
    /// Builds the header section of a card.
    pub fn new(cx: &mut Context) -> (h: Handle<CardHeader>)
        requires
            old(cx)@.len() < usize::MAX,
        ensures
            h.entity == old(cx)@.len(),
            final(cx).cur() == old(cx).cur(),
            final(cx)@ == old(cx)@.push(NodeView::fresh(Tag::CardHeader, old(cx).cur() as nat)),
    {
        let e = cx.add(Tag::CardHeader);
        Handle { entity: e, view: CardHeader {} }
    }
}

impl CardContent {
    /// Builds the content section of a card.
    pub fn new(cx: &mut Context) -> (h: Handle<CardContent>)
        requires
            old(cx)@.len() < usize::MAX,
        ensures
            h.entity == old(cx)@.len(),
            final(cx).cur() == old(cx).cur(),
            final(cx)@ == old(cx)@.push(NodeView::fresh(Tag::CardContent, old(cx).cur() as nat)),
    {
        let e = cx.add(Tag::CardContent);
        Handle { entity: e, view: CardContent {} }
    }
}

impl CardFooter {
    /// Builds the footer section of a card.
    pub fn new(cx: &mut Context) -> (h: Handle<CardFooter>)
        requires
            old(cx)@.len() < usize::MAX,
        ensures
            h.entity == old(cx)@.len(),
            final(cx).cur() == old(cx).cur(),
            final(cx)@ == old(cx)@.push(NodeView::fresh(Tag::CardFooter, old(cx).cur() as nat)),
    {
        let e = cx.add(Tag::CardFooter);
        Handle { entity: e, view: CardFooter {} }
    }
}

/// A dialog whose content exists only while it is open.
pub struct Dialog {
    pub is_open: bool,
}

impl Dialog {
    /// Builds a dialog node; its content is built inside it only when `is_open` holds.
    pub fn new(cx: &mut Context, is_open: bool) -> (h: Handle<Dialog>)
        requires
            old(cx)@.len() < usize::MAX,
        ensures
            h.entity == old(cx)@.len(),
            h.view.is_open == is_open,
            final(cx).cur() == old(cx).cur(),
            final(cx)@ == old(cx)@.push(NodeView::fresh(Tag::Dialog, old(cx).cur() as nat)),
    {
        let e = cx.add(Tag::Dialog);
        Handle { entity: e, view: Dialog { is_open } }
    }

    /// Whether the dialog's content is to be built.
    pub fn shows_content(&self) -> (r: bool)
        ensures
            r == self.is_open,
    {
        self.is_open
    }
}

/// A block holding read-only code, shown in a textbox.
pub struct CodeBlock {}

impl CodeBlock {
    /// Builds a code block with a textbox holding `code` inside it.
    pub fn new(cx: &mut Context, code: String) -> (h: Handle<CodeBlock>)
        requires
            old(cx)@.len() + 1 < usize::MAX,
        ensures
            h.entity == old(cx)@.len(),
            final(cx).cur() == old(cx).cur(),
            final(cx)@ == old(cx)@.push(NodeView::fresh(Tag::CodeBlock, old(cx).cur() as nat))
                .push(NodeView::fresh(Tag::Textbox, h.entity as nat).with_role(Role::TextInput).with_text(code@)),
    {
        let e = cx.add(Tag::CodeBlock);
        let t = cx.add_child(e, Tag::Textbox);
        cx.set_role(t, Role::TextInput);
        cx.set_text(t, code);
        assert(cx@ =~= old(cx)@.push(NodeView::fresh(Tag::CodeBlock, old(cx).cur() as nat))
            .push(NodeView::fresh(Tag::Textbox, e as nat).with_role(Role::TextInput).with_text(code@)));
        Handle { entity: e, view: CodeBlock {} }
    }
}

/// A thin line separating views.
pub struct Divider {}

impl Divider {
    /// Builds a divider with its line inside it; the orientation comes from the styling
    /// around it.
    pub fn new(cx: &mut Context) -> (h: Handle<Divider>)
        requires
            old(cx)@.len() + 1 < usize::MAX,
        ensures
            h.entity == old(cx)@.len(),
            final(cx).cur() == old(cx).cur(),
            final(cx)@ == old(cx)@.push(NodeView::fresh(Tag::Divider, old(cx).cur() as nat))
                .push(NodeView::fresh(Tag::Element, h.entity as nat).class(Class::DividerLine)),
    {
        let e = cx.add(Tag::Divider);
        let _line = cx.add_child_with_class(e, Tag::Element, Class::DividerLine);
        Handle { entity: e, view: Divider {} }
    }

    /// Builds a horizontal divider.
    pub fn horizontal(cx: &mut Context) -> (h: Handle<Divider>)
        requires
            old(cx)@.len() + 1 < usize::MAX,
        ensures
            h.entity == old(cx)@.len(),
            final(cx).cur() == old(cx).cur(),
            final(cx)@ == old(cx)@.push(NodeView::fresh(Tag::Divider, old(cx).cur() as nat).class(Class::Horizontal))
                .push(NodeView::fresh(Tag::Element, h.entity as nat).class(Class::DividerLine)),
    {
        let h = Divider::new(cx);
        cx.add_class(h.entity, Class::Horizontal);
        assert(cx@ =~= old(cx)@.push(NodeView::fresh(Tag::Divider, old(cx).cur() as nat).class(Class::Horizontal))
            .push(NodeView::fresh(Tag::Element, h.entity as nat).class(Class::DividerLine)));
        h
    }

    /// Builds a vertical divider.
    pub fn vertical(cx: &mut Context) -> (h: Handle<Divider>)
        requires
            old(cx)@.len() + 1 < usize::MAX,
        ensures
            h.entity == old(cx)@.len(),
            final(cx).cur() == old(cx).cur(),
            final(cx)@ == old(cx)@.push(NodeView::fresh(Tag::Divider, old(cx).cur() as nat).class(Class::Vertical))
                .push(NodeView::fresh(Tag::Element, h.entity as nat).class(Class::DividerLine)),
    {
        let h = Divider::new(cx);
        cx.add_class(h.entity, Class::Vertical);
        assert(cx@ =~= old(cx)@.push(NodeView::fresh(Tag::Divider, old(cx).cur() as nat).class(Class::Vertical))
            .push(NodeView::fresh(Tag::Element, h.entity as nat).class(Class::DividerLine)));
        h
    }
}

impl Handle<Divider> {
    /// Sets the orientation of the divider: the divider node carries the class of that
    /// orientation and not the other.
    pub fn orientation(self, cx: &mut Context, orientation: Orientation) -> (h: Handle<Divider>)
        requires
            (self.entity as int) < old(cx)@.len(),
        ensures
            h.entity == self.entity,
            final(cx).cur() == old(cx).cur(),
            final(cx)@ == old(cx)@.update(self.entity as int, old(cx)@[self.entity as int]
                .toggled(Class::Horizontal, orientation == Orientation::Horizontal)
                .toggled(Class::Vertical, orientation == Orientation::Vertical)),
    {
        cx.toggle_class(self.entity, Class::Horizontal, orientation == Orientation::Horizontal);
        cx.toggle_class(self.entity, Class::Vertical, orientation == Orientation::Vertical);
        assert(cx@ =~= old(cx)@.update(self.entity as int, old(cx)@[self.entity as int]
            .toggled(Class::Horizontal, orientation == Orientation::Horizontal)
            .toggled(Class::Vertical, orientation == Orientation::Vertical)));
        self
    }
}

} // verus!
