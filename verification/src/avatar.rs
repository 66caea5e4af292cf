//! Avatars: round or square pictures of a user, alone or in groups.

use vstd::prelude::*;
use crate::ui::{Class, Context, Handle, NodeView, Tag};
use crate::badge::{Badge, BadgePlacement};

verus! {

/// The shape of an avatar.
#[derive(Clone, Copy, PartialEq, Eq, Structural, Debug)]
pub enum AvatarVariant {
    Circle,
    Square,
    Rounded,
}

/// A node shaped as `v`: the class of that shape and no other shape class.
pub open spec fn shaped(n: NodeView, v: AvatarVariant) -> NodeView {
    n.toggled(Class::Circle, v == AvatarVariant::Circle)
        .toggled(Class::Square, v == AvatarVariant::Square)
        .toggled(Class::Rounded, v == AvatarVariant::Rounded)
}

/// Shapes node `e` as `v`.
fn shape(cx: &mut Context, e: usize, v: AvatarVariant)
    requires
        (e as int) < old(cx)@.len(),
    ensures
        final(cx).cur() == old(cx).cur(),
        final(cx)@ == old(cx)@.update(e as int, shaped(old(cx)@[e as int], v)),
{
    cx.toggle_class(e, Class::Circle, v == AvatarVariant::Circle);
    cx.toggle_class(e, Class::Square, v == AvatarVariant::Square);
    cx.toggle_class(e, Class::Rounded, v == AvatarVariant::Rounded);
    assert(cx@ =~= old(cx)@.update(e as int, shaped(old(cx)@[e as int], v)));
}

/// A picture of a user.
pub struct Avatar {}

impl Avatar {
    /// Builds a round avatar, whose content is built inside it afterwards.
    pub fn new(cx: &mut Context) -> (h: Handle<Avatar>)
        requires
            old(cx)@.len() < usize::MAX,
        ensures
            h.entity == old(cx)@.len(),
            final(cx).cur() == old(cx).cur(),
            final(cx)@ == old(cx)@.push(NodeView::fresh(Tag::Avatar, old(cx).cur() as nat).class(Class::Circle)),
    {
        let e = cx.add(Tag::Avatar);
        cx.add_class(e, Class::Circle);
        assert(cx@ =~= old(cx)@.push(NodeView::fresh(Tag::Avatar, old(cx).cur() as nat).class(Class::Circle)));
        Handle { entity: e, view: Avatar {} }
    }
}

/// Modifiers of avatars and avatar groups.
pub trait AvatarModifiers: Sized {
    /// The node the modifiers act on.
    spec fn node(&self) -> usize;

    /// Shapes the view as `variant`.
    fn variant(self, cx: &mut Context, variant: AvatarVariant) -> (h: Self)
        requires
            (self.node() as int) < old(cx)@.len(),
        ensures
            h.node() == self.node(),
            final(cx).cur() == old(cx).cur(),
            final(cx)@ == old(cx)@.update(self.node() as int, shaped(old(cx)@[self.node() as int], variant));

    /// Attaches a badge to the view, at the top right; a group takes no badge.
    fn badge(self, cx: &mut Context) -> (h: Self)
        requires
            (self.node() as int) < old(cx)@.len(),
            old(cx)@.len() < usize::MAX,
        ensures
            h.node() == self.node(),
            final(cx).cur() == old(cx).cur();
}

impl AvatarModifiers for Handle<Avatar> {
    open spec fn node(&self) -> usize {
        self.entity
    }

    fn variant(self, cx: &mut Context, variant: AvatarVariant) -> (h: Self) {
        shape(cx, self.entity, variant);
        self
    }

    fn badge(self, cx: &mut Context) -> (h: Self)
        ensures
            final(cx)@ == old(cx)@.push(NodeView::fresh(Tag::Badge, self.entity as nat)),
    {
        let here = cx.current();
        cx.set_current(self.entity);
        let b = Badge::new(cx);
        let _b = b.placement(BadgePlacement::TopRight);
        cx.set_current(here);
        self
    }
}

/// A row of overlapping avatars.
pub struct AvatarGroup {}

impl AvatarGroup {
    /// Builds an avatar group.
    pub fn new(cx: &mut Context) -> (h: Handle<AvatarGroup>)
        requires
            old(cx)@.len() < usize::MAX,
        ensures
            h.entity == old(cx)@.len(),
            final(cx).cur() == old(cx).cur(),
            final(cx)@ == old(cx)@.push(NodeView::fresh(Tag::AvatarGroup, old(cx).cur() as nat)),
    {
        let e = cx.add(Tag::AvatarGroup);
        Handle { entity: e, view: AvatarGroup {} }
    }
}

impl AvatarModifiers for Handle<AvatarGroup> {
    open spec fn node(&self) -> usize {
        self.entity
    }

    fn variant(self, cx: &mut Context, variant: AvatarVariant) -> (h: Self) {
        shape(cx, self.entity, variant);
        self
    }

    fn badge(self, cx: &mut Context) -> (h: Self)
        ensures
            final(cx)@ == old(cx)@,
    {
        self
    }
}

} // verus!
