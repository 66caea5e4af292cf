//! Badges: small markers attached to a corner or an edge of another view.

use vstd::prelude::*;
use crate::ui::{Context, Handle, NodeView, Tag};

verus! {

/// Where a badge sits on the view it marks.
#[derive(Clone, Copy, PartialEq, Eq, Structural, Debug)]
pub enum BadgePlacement {
    TopLeft,
    Top,
    TopRight,
    Left,
    Right,
    BottomLeft,
    Bottom,
    BottomRight,
}

/// One side of a badge's position inside the view it marks.
#[derive(Clone, Copy, PartialEq, Eq, Structural, Debug)]
pub enum Inset {
    /// Takes up the free space.
    Stretch,
    /// A percentage of the marked view, in hundredths of a percent.
    Percent(i32),
}

/// The position of a badge: its four sides, then its shift relative to its own size,
/// in hundredths of a percent.
#[derive(Clone, Copy, PartialEq, Eq, Structural, Debug)]
pub struct BadgeLayout {
    pub top: Inset,
    pub bottom: Inset,
    pub left: Inset,
    pub right: Inset,
    pub translate_x: i32,
    pub translate_y: i32,
}

/// The inset that puts a corner badge on the rim of a round view: 85.35% is where the
/// diagonal meets the circle.
pub open spec fn rim() -> Inset {
    Inset::Percent(8535)
}

/// The vertical sides for placement `p`.
pub open spec fn vertical_insets(p: BadgePlacement) -> (Inset, Inset) {
    match p {
        BadgePlacement::TopLeft | BadgePlacement::TopRight => (Inset::Stretch, rim()),
        BadgePlacement::Top => (Inset::Stretch, Inset::Percent(10000)),
        BadgePlacement::Bottom => (Inset::Percent(10000), Inset::Stretch),
        BadgePlacement::BottomLeft | BadgePlacement::BottomRight => (rim(), Inset::Stretch),
        BadgePlacement::Left | BadgePlacement::Right => (Inset::Stretch, Inset::Stretch),
    }
}

/// The horizontal sides for placement `p`.
pub open spec fn horizontal_insets(p: BadgePlacement) -> (Inset, Inset) {
    match p {
        BadgePlacement::TopLeft | BadgePlacement::BottomLeft => (Inset::Stretch, rim()),
        BadgePlacement::TopRight | BadgePlacement::BottomRight => (rim(), Inset::Stretch),
        BadgePlacement::Left => (Inset::Stretch, Inset::Percent(10000)),
        BadgePlacement::Right => (Inset::Percent(10000), Inset::Stretch),
        BadgePlacement::Top | BadgePlacement::Bottom => (Inset::Stretch, Inset::Stretch),
    }
}

/// The shift for placement `p`: half the badge's size towards the inside on each axis
/// where it sits on an edge.
pub open spec fn translation(p: BadgePlacement) -> (int, int) {
    match p {
        BadgePlacement::TopLeft => (5000, 5000),
        BadgePlacement::Top => (0, 5000),
        BadgePlacement::TopRight => (-5000, 5000),
        BadgePlacement::BottomLeft => (5000, -5000),
        BadgePlacement::Bottom => (0, -5000),
        BadgePlacement::BottomRight => (-5000, -5000),
        BadgePlacement::Left => (5000, 0),
        BadgePlacement::Right => (-5000, 0),
    }
}

/// The position of a badge placed at `p`.
pub open spec fn badge_layout_spec(p: BadgePlacement) -> BadgeLayout {
    BadgeLayout {
        top: vertical_insets(p).0,
        bottom: vertical_insets(p).1,
        left: horizontal_insets(p).0,
        right: horizontal_insets(p).1,
        translate_x: translation(p).0 as i32,
        translate_y: translation(p).1 as i32,
    }
}

/// A small marker on a view.
pub struct Badge {
    pub placement: BadgePlacement,
}

impl Badge {
    /// Builds a badge node at the top right.
    fn common(cx: &mut Context) -> (h: Handle<Badge>)
        requires
            old(cx)@.len() < usize::MAX,
        ensures
            h.entity == old(cx)@.len(),
            h.view.placement == BadgePlacement::TopRight,
            final(cx).cur() == old(cx).cur(),
            final(cx)@ == old(cx)@.push(NodeView::fresh(Tag::Badge, old(cx).cur() as nat)),
    {
        let e = cx.add(Tag::Badge);
        Handle { entity: e, view: Badge { placement: BadgePlacement::TopRight } }
    }

    /// Builds an empty badge, a dot, at the top right.
    pub fn empty(cx: &mut Context) -> (h: Handle<Badge>)
        requires
            old(cx)@.len() < usize::MAX,
        ensures
            h.entity == old(cx)@.len(),
            h.view.placement == BadgePlacement::TopRight,
            final(cx).cur() == old(cx).cur(),
            final(cx)@ == old(cx)@.push(NodeView::fresh(Tag::Badge, old(cx).cur() as nat)),
    {
        Badge::common(cx)
    }

    /// Builds a badge at the top right, whose content is built inside it afterwards.
    pub fn new(cx: &mut Context) -> (h: Handle<Badge>)
        requires
            old(cx)@.len() < usize::MAX,
        ensures
            h.entity == old(cx)@.len(),
            h.view.placement == BadgePlacement::TopRight,
            final(cx).cur() == old(cx).cur(),
            final(cx)@ == old(cx)@.push(NodeView::fresh(Tag::Badge, old(cx).cur() as nat)),
    {
        Badge::common(cx)
    }

    /// The position of the badge on the view it marks.
    pub fn layout(&self) -> (l: BadgeLayout)
        ensures
            l == badge_layout_spec(self.placement),
    {
        let rim = Inset::Percent(8535);
        let whole = Inset::Percent(10000);
        let (top, bottom) = match self.placement {
            BadgePlacement::TopLeft | BadgePlacement::TopRight => (Inset::Stretch, rim),
            BadgePlacement::Top => (Inset::Stretch, whole),
            BadgePlacement::Bottom => (whole, Inset::Stretch),
            BadgePlacement::BottomLeft | BadgePlacement::BottomRight => (rim, Inset::Stretch),
            BadgePlacement::Left | BadgePlacement::Right => (Inset::Stretch, Inset::Stretch),
        };
        let (left, right) = match self.placement {
            BadgePlacement::TopLeft | BadgePlacement::BottomLeft => (Inset::Stretch, rim),
            BadgePlacement::TopRight | BadgePlacement::BottomRight => (rim, Inset::Stretch),
            BadgePlacement::Left => (Inset::Stretch, whole),
            BadgePlacement::Right => (whole, Inset::Stretch),
            BadgePlacement::Top | BadgePlacement::Bottom => (Inset::Stretch, Inset::Stretch),
        };
        let (translate_x, translate_y): (i32, i32) = match self.placement {
            BadgePlacement::TopLeft => (5000, 5000),
            BadgePlacement::Top => (0, 5000),
            BadgePlacement::TopRight => (-5000, 5000),
            BadgePlacement::BottomLeft => (5000, -5000),
            BadgePlacement::Bottom => (0, -5000),
            BadgePlacement::BottomRight => (-5000, -5000),
            BadgePlacement::Left => (5000, 0),
            BadgePlacement::Right => (-5000, 0),
        };
        BadgeLayout { top, bottom, left, right, translate_x, translate_y }
    }
}

impl Handle<Badge> {
    /// Moves the badge to `placement`.
    pub fn placement(self, placement: BadgePlacement) -> (h: Handle<Badge>)
        ensures
            h.entity == self.entity,
            h.view.placement == placement,
    {
        Handle { entity: self.entity, view: Badge { placement } }
    }
}

} // verus!
