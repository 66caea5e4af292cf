//! Popups: open/close state and the choice of where a popup is placed when the
//! preferred side does not fit inside the window.

use vstd::prelude::*;
use crate::ui::{Context, Handle, Tag, NodeView, Placement};

verus! {

/// Room above the parent, aligned to its start.
pub const TOP_START: u16 = 1;
/// Room above the parent, centered.
pub const TOP: u16 = 2;
/// Room above the parent, aligned to its end.
pub const TOP_END: u16 = 4;
/// Room left of the parent, aligned to its start.
pub const LEFT_START: u16 = 8;
/// Room left of the parent, centered.
pub const LEFT: u16 = 16;
/// Room left of the parent, aligned to its end.
pub const LEFT_END: u16 = 32;
/// Room below the parent, aligned to its start.
pub const BOTTOM_START: u16 = 64;
/// Room below the parent, centered.
pub const BOTTOM: u16 = 128;
/// Room below the parent, aligned to its end.
pub const BOTTOM_END: u16 = 256;
/// Room right of the parent, aligned to its start.
pub const RIGHT_START: u16 = 512;
/// Room right of the parent, centered.
pub const RIGHT: u16 = 1024;
/// Room right of the parent, aligned to its end.
pub const RIGHT_END: u16 = 2048;

/// The set of placements for which there is room in the window, one bit per placement.
#[derive(Clone, Copy, Debug)]
pub struct AvailablePlacement {
    pub bits: u16,
}

/// Whether `p` is one of the twelve placements beside the parent (not `Over` or `Cursor`).
pub open spec fn is_side(p: Placement) -> bool {
    p != Placement::Over && p != Placement::Cursor
}

/// The bit that stands for a side placement.
pub open spec fn flag_of(p: Placement) -> u16 {
    match p {
        Placement::TopStart => TOP_START,
        Placement::Top => TOP,
        Placement::TopEnd => TOP_END,
        Placement::LeftStart => LEFT_START,
        Placement::Left => LEFT,
        Placement::LeftEnd => LEFT_END,
        Placement::BottomStart => BOTTOM_START,
        Placement::Bottom => BOTTOM,
        Placement::BottomEnd => BOTTOM_END,
        Placement::RightStart => RIGHT_START,
        Placement::Right => RIGHT,
        Placement::RightEnd => RIGHT_END,
        _ => 0,
    }
}

impl AvailablePlacement {
    /// Only the twelve placement bits may be set.
    pub open spec fn wf(self) -> bool {
        self.bits < 4096
    }

    /// Whether a popup fits at `p`.
    pub open spec fn spec_can_place(self, p: Placement) -> bool {
        is_side(p) && self.bits & flag_of(p) != 0
    }

    /// Every placement has room.
    pub fn all() -> (a: AvailablePlacement)
        ensures
            a.wf(),
            forall|p: Placement| is_side(p) ==> #[trigger] a.spec_can_place(p),
    {
        let a = AvailablePlacement { bits: 4095 };
        assert(forall|p: Placement| is_side(p) ==> #[trigger] a.spec_can_place(p)) by {
            assert(4095u16 & 1u16 != 0) by (bit_vector);
            assert(4095u16 & 2u16 != 0) by (bit_vector);
            assert(4095u16 & 4u16 != 0) by (bit_vector);
            assert(4095u16 & 8u16 != 0) by (bit_vector);
            assert(4095u16 & 16u16 != 0) by (bit_vector);
            assert(4095u16 & 32u16 != 0) by (bit_vector);
            assert(4095u16 & 64u16 != 0) by (bit_vector);
            assert(4095u16 & 128u16 != 0) by (bit_vector);
            assert(4095u16 & 256u16 != 0) by (bit_vector);
            assert(4095u16 & 512u16 != 0) by (bit_vector);
            assert(4095u16 & 1024u16 != 0) by (bit_vector);
            assert(4095u16 & 2048u16 != 0) by (bit_vector);
        }
        a
    }

    /// Records whether there is room for the placement whose bit is `flag`.
    pub fn set(&mut self, flag: u16, value: bool)
        requires
            old(self).wf(),
            flag < 4096,
        ensures
            final(self).wf(),
            final(self).bits == if value { old(self).bits | flag } else { old(self).bits & !flag },
    {
        let b = self.bits;
        if value {
            assert(b < 4096 && flag < 4096 ==> b | flag < 4096) by (bit_vector);
            self.bits = b | flag;
        } else {
            assert(b < 4096 ==> b & !flag < 4096) by (bit_vector);
            self.bits = b & !flag;
        }
    }

    /// No placement has room.
    pub fn is_empty(&self) -> (r: bool)
        ensures
            r == (self.bits == 0),
    {
        self.bits == 0
    }

    /// Whether a popup fits at `placement`; `Over` and `Cursor` never count as fitting.
    pub fn can_place(&self, placement: Placement) -> (r: bool)
        ensures
            r == self.spec_can_place(placement),
    {
        match placement {
            Placement::Bottom => self.bits & BOTTOM != 0,
            Placement::BottomStart => self.bits & BOTTOM_START != 0,
            Placement::BottomEnd => self.bits & BOTTOM_END != 0,
            Placement::Top => self.bits & TOP != 0,
            Placement::TopStart => self.bits & TOP_START != 0,
            Placement::TopEnd => self.bits & TOP_END != 0,
            Placement::Left => self.bits & LEFT != 0,
            Placement::LeftStart => self.bits & LEFT_START != 0,
            Placement::LeftEnd => self.bits & LEFT_END != 0,
            Placement::Right => self.bits & RIGHT != 0,
            Placement::RightStart => self.bits & RIGHT_START != 0,
            Placement::RightEnd => self.bits & RIGHT_END != 0,
            _ => false,
        }
    }
}

/// The number of a placement, in declaration order.
pub open spec fn index_of(p: Placement) -> int {
    match p {
        Placement::TopStart => 0,
        Placement::Top => 1,
        Placement::TopEnd => 2,
        Placement::BottomStart => 3,
        Placement::Bottom => 4,
        Placement::BottomEnd => 5,
        Placement::RightStart => 6,
        Placement::Right => 7,
        Placement::RightEnd => 8,
        Placement::LeftStart => 9,
        Placement::Left => 10,
        Placement::LeftEnd => 11,
        Placement::Over => 12,
        Placement::Cursor => 13,
    }
}

/// The placement with a given number; numbers past `Over` give `Cursor`.
pub open spec fn placement_of(i: int) -> Placement {
    if i == 0 { Placement::TopStart }
    else if i == 1 { Placement::Top }
    else if i == 2 { Placement::TopEnd }
    else if i == 3 { Placement::BottomStart }
    else if i == 4 { Placement::Bottom }
    else if i == 5 { Placement::BottomEnd }
    else if i == 6 { Placement::RightStart }
    else if i == 7 { Placement::Right }
    else if i == 8 { Placement::RightEnd }
    else if i == 9 { Placement::LeftStart }
    else if i == 10 { Placement::Left }
    else if i == 11 { Placement::LeftEnd }
    else if i == 12 { Placement::Over }
    else { Placement::Cursor }
}

/// For a preferred placement, the table that gives, for each placement number,
/// the number of the placement tried after it.
pub open spec fn fallback_table(original: Placement) -> Seq<u16> {
    match original {
        Placement::TopStart => seq![1u16, 2, 3, 4, 5, 6, 7, 8, 9, 10, 11, 12],
        Placement::Top => seq![2u16, 0, 4, 5, 3, 7, 8, 6, 10, 11, 9, 12],
        Placement::TopEnd => seq![5u16, 0, 1, 8, 3, 4, 11, 6, 7, 12, 9, 10],
        Placement::BottomStart => seq![1u16, 2, 6, 4, 5, 0, 7, 8, 9, 10, 11, 12],
        Placement::Bottom => seq![2u16, 0, 7, 5, 3, 1, 8, 6, 10, 11, 9, 12],
        Placement::BottomEnd => seq![8u16, 0, 1, 2, 3, 4, 11, 6, 7, 12, 9, 10],
        Placement::LeftStart => seq![1u16, 2, 12, 4, 5, 0, 7, 8, 3, 10, 11, 6],
        Placement::Left => seq![2u16, 0, 12, 5, 3, 1, 8, 6, 4, 11, 9, 7],
        Placement::LeftEnd => seq![12u16, 0, 1, 2, 3, 4, 5, 6, 7, 8, 9, 10],
        Placement::RightStart => seq![1u16, 2, 12, 4, 5, 0, 7, 8, 9, 10, 11, 3],
        Placement::Right => seq![2u16, 0, 12, 5, 3, 1, 8, 6, 10, 11, 9, 4],
        Placement::RightEnd => seq![12u16, 0, 1, 2, 3, 4, 11, 6, 7, 5, 9, 10],
        _ => seq![12u16, 12, 12, 12, 12, 12, 12, 12, 12, 12, 12, 12],
    }
}

/// The placement tried after `p` when the preferred placement is `original`.
pub open spec fn spec_next(p: Placement, original: Placement) -> Placement {
    placement_of(fallback_table(original)[index_of(p)] as int)
}

/// The order in which placements are tried, starting from the preferred one.
pub open spec fn fallback_chain(original: Placement) -> Seq<Placement> {
    match original {
        Placement::TopStart => seq![Placement::TopStart, Placement::Top, Placement::TopEnd, Placement::BottomStart, Placement::Bottom, Placement::BottomEnd, Placement::RightStart, Placement::Right, Placement::RightEnd, Placement::LeftStart, Placement::Left, Placement::LeftEnd],
        Placement::Top => seq![Placement::Top, Placement::TopStart, Placement::TopEnd, Placement::Bottom, Placement::BottomStart, Placement::BottomEnd, Placement::Right, Placement::RightStart, Placement::RightEnd, Placement::Left, Placement::LeftStart, Placement::LeftEnd],
        Placement::TopEnd => seq![Placement::TopEnd, Placement::Top, Placement::TopStart, Placement::BottomEnd, Placement::Bottom, Placement::BottomStart, Placement::RightEnd, Placement::Right, Placement::RightStart, Placement::LeftEnd, Placement::Left, Placement::LeftStart],
        Placement::BottomStart => seq![Placement::BottomStart, Placement::Bottom, Placement::BottomEnd, Placement::TopStart, Placement::Top, Placement::TopEnd, Placement::RightStart, Placement::Right, Placement::RightEnd, Placement::LeftStart, Placement::Left, Placement::LeftEnd],
        Placement::Bottom => seq![Placement::Bottom, Placement::BottomStart, Placement::BottomEnd, Placement::Top, Placement::TopStart, Placement::TopEnd, Placement::Right, Placement::RightStart, Placement::RightEnd, Placement::Left, Placement::LeftStart, Placement::LeftEnd],
        Placement::BottomEnd => seq![Placement::BottomEnd, Placement::Bottom, Placement::BottomStart, Placement::TopEnd, Placement::Top, Placement::TopStart, Placement::RightEnd, Placement::Right, Placement::RightStart, Placement::LeftEnd, Placement::Left, Placement::LeftStart],
        Placement::LeftStart => seq![Placement::LeftStart, Placement::Left, Placement::LeftEnd, Placement::RightStart, Placement::Right, Placement::RightEnd, Placement::BottomStart, Placement::Bottom, Placement::BottomEnd, Placement::TopStart, Placement::Top, Placement::TopEnd],
        Placement::Left => seq![Placement::Left, Placement::LeftStart, Placement::LeftEnd, Placement::Right, Placement::RightStart, Placement::RightEnd, Placement::Bottom, Placement::BottomStart, Placement::BottomEnd, Placement::Top, Placement::TopStart, Placement::TopEnd],
        Placement::LeftEnd => seq![Placement::LeftEnd, Placement::Left, Placement::LeftStart, Placement::RightEnd, Placement::Right, Placement::RightStart, Placement::BottomEnd, Placement::Bottom, Placement::BottomStart, Placement::TopEnd, Placement::Top, Placement::TopStart],
        Placement::RightStart => seq![Placement::RightStart, Placement::Right, Placement::RightEnd, Placement::LeftStart, Placement::Left, Placement::LeftEnd, Placement::BottomStart, Placement::Bottom, Placement::BottomEnd, Placement::TopStart, Placement::Top, Placement::TopEnd],
        Placement::Right => seq![Placement::Right, Placement::RightStart, Placement::RightEnd, Placement::Left, Placement::LeftStart, Placement::LeftEnd, Placement::Bottom, Placement::BottomStart, Placement::BottomEnd, Placement::Top, Placement::TopStart, Placement::TopEnd],
        Placement::RightEnd => seq![Placement::RightEnd, Placement::Right, Placement::RightStart, Placement::LeftEnd, Placement::Left, Placement::LeftStart, Placement::BottomEnd, Placement::Bottom, Placement::BottomStart, Placement::TopEnd, Placement::Top, Placement::TopStart],
        _ => Seq::empty(),
    }
}

/// What `place` chooses: the preferred placement when it is `Over` or `Cursor`;
/// `Over` when nothing has room; otherwise the first placement of the fallback
/// order that has room.
pub open spec fn placed(original: Placement, available: AvailablePlacement) -> Placement {
    if !is_side(original) {
        original
    } else if available.bits == 0 {
        Placement::Over
    } else {
        let k = choose|k: int| 0 <= k < 12 && available.spec_can_place(#[trigger] fallback_chain(original)[k])
            && forall|j: int| 0 <= j < k ==> !available.spec_can_place(#[trigger] fallback_chain(original)[j]);
        fallback_chain(original)[k]
    }
}

proof fn lemma_steps_top_start(k: int)
    requires
        0 <= k < 12,
    ensures
        fallback_chain(Placement::TopStart).len() == 12,
        fallback_chain(Placement::TopStart)[0] == Placement::TopStart,
        is_side(fallback_chain(Placement::TopStart)[k]),
        k < 11 ==> spec_next(fallback_chain(Placement::TopStart)[k], Placement::TopStart) == fallback_chain(Placement::TopStart)[k + 1],
        k == 11 ==> spec_next(fallback_chain(Placement::TopStart)[k], Placement::TopStart) == Placement::Over,
{
    let c = fallback_chain(Placement::TopStart);
    let t = fallback_table(Placement::TopStart);

    if k == 0 {
        assert(c[0] == c[0]);
        assert(t[index_of(c[0])] == t[index_of(c[0])]);
    } else if k == 1 {
        assert(c[1] == c[1]);
        assert(t[index_of(c[1])] == t[index_of(c[1])]);
    } else if k == 2 {
        assert(c[2] == c[2]);
        assert(t[index_of(c[2])] == t[index_of(c[2])]);
    } else if k == 3 {
        assert(c[3] == c[3]);
        assert(t[index_of(c[3])] == t[index_of(c[3])]);
    } else if k == 4 {
        assert(c[4] == c[4]);
        assert(t[index_of(c[4])] == t[index_of(c[4])]);
    } else if k == 5 {
        assert(c[5] == c[5]);
        assert(t[index_of(c[5])] == t[index_of(c[5])]);
    } else if k == 6 {
        assert(c[6] == c[6]);
        assert(t[index_of(c[6])] == t[index_of(c[6])]);
    } else if k == 7 {
        assert(c[7] == c[7]);
        assert(t[index_of(c[7])] == t[index_of(c[7])]);
    } else if k == 8 {
        assert(c[8] == c[8]);
        assert(t[index_of(c[8])] == t[index_of(c[8])]);
    } else if k == 9 {
        assert(c[9] == c[9]);
        assert(t[index_of(c[9])] == t[index_of(c[9])]);
    } else if k == 10 {
        assert(c[10] == c[10]);
        assert(t[index_of(c[10])] == t[index_of(c[10])]);
    } else if k == 11 {
        assert(c[11] == c[11]);
        assert(t[index_of(c[11])] == t[index_of(c[11])]);
    }
}

proof fn lemma_steps_top(k: int)
    requires
        0 <= k < 12,
    ensures
        fallback_chain(Placement::Top).len() == 12,
        fallback_chain(Placement::Top)[0] == Placement::Top,
        is_side(fallback_chain(Placement::Top)[k]),
        k < 11 ==> spec_next(fallback_chain(Placement::Top)[k], Placement::Top) == fallback_chain(Placement::Top)[k + 1],
        k == 11 ==> spec_next(fallback_chain(Placement::Top)[k], Placement::Top) == Placement::Over,
{
    let c = fallback_chain(Placement::Top);
    let t = fallback_table(Placement::Top);

    if k == 0 {
        assert(c[0] == c[0]);
        assert(t[index_of(c[0])] == t[index_of(c[0])]);
    } else if k == 1 {
        assert(c[1] == c[1]);
        assert(t[index_of(c[1])] == t[index_of(c[1])]);
    } else if k == 2 {
        assert(c[2] == c[2]);
        assert(t[index_of(c[2])] == t[index_of(c[2])]);
    } else if k == 3 {
        assert(c[3] == c[3]);
        assert(t[index_of(c[3])] == t[index_of(c[3])]);
    } else if k == 4 {
        assert(c[4] == c[4]);
        assert(t[index_of(c[4])] == t[index_of(c[4])]);
    } else if k == 5 {
        assert(c[5] == c[5]);
        assert(t[index_of(c[5])] == t[index_of(c[5])]);
    } else if k == 6 {
        assert(c[6] == c[6]);
        assert(t[index_of(c[6])] == t[index_of(c[6])]);
    } else if k == 7 {
        assert(c[7] == c[7]);
        assert(t[index_of(c[7])] == t[index_of(c[7])]);
    } else if k == 8 {
        assert(c[8] == c[8]);
        assert(t[index_of(c[8])] == t[index_of(c[8])]);
    } else if k == 9 {
        assert(c[9] == c[9]);
        assert(t[index_of(c[9])] == t[index_of(c[9])]);
    } else if k == 10 {
        assert(c[10] == c[10]);
        assert(t[index_of(c[10])] == t[index_of(c[10])]);
    } else if k == 11 {
        assert(c[11] == c[11]);
        assert(t[index_of(c[11])] == t[index_of(c[11])]);
    }
}

proof fn lemma_steps_top_end(k: int)
    requires
        0 <= k < 12,
    ensures
        fallback_chain(Placement::TopEnd).len() == 12,
        fallback_chain(Placement::TopEnd)[0] == Placement::TopEnd,
        is_side(fallback_chain(Placement::TopEnd)[k]),
        k < 11 ==> spec_next(fallback_chain(Placement::TopEnd)[k], Placement::TopEnd) == fallback_chain(Placement::TopEnd)[k + 1],
        k == 11 ==> spec_next(fallback_chain(Placement::TopEnd)[k], Placement::TopEnd) == Placement::Over,
{
    let c = fallback_chain(Placement::TopEnd);
    let t = fallback_table(Placement::TopEnd);

    if k == 0 {
        assert(c[0] == c[0]);
        assert(t[index_of(c[0])] == t[index_of(c[0])]);
    } else if k == 1 {
        assert(c[1] == c[1]);
        assert(t[index_of(c[1])] == t[index_of(c[1])]);
    } else if k == 2 {
        assert(c[2] == c[2]);
        assert(t[index_of(c[2])] == t[index_of(c[2])]);
    } else if k == 3 {
        assert(c[3] == c[3]);
        assert(t[index_of(c[3])] == t[index_of(c[3])]);
    } else if k == 4 {
        assert(c[4] == c[4]);
        assert(t[index_of(c[4])] == t[index_of(c[4])]);
    } else if k == 5 {
        assert(c[5] == c[5]);
        assert(t[index_of(c[5])] == t[index_of(c[5])]);
    } else if k == 6 {
        assert(c[6] == c[6]);
        assert(t[index_of(c[6])] == t[index_of(c[6])]);
    } else if k == 7 {
        assert(c[7] == c[7]);
        assert(t[index_of(c[7])] == t[index_of(c[7])]);
    } else if k == 8 {
        assert(c[8] == c[8]);
        assert(t[index_of(c[8])] == t[index_of(c[8])]);
    } else if k == 9 {
        assert(c[9] == c[9]);
        assert(t[index_of(c[9])] == t[index_of(c[9])]);
    } else if k == 10 {
        assert(c[10] == c[10]);
        assert(t[index_of(c[10])] == t[index_of(c[10])]);
    } else if k == 11 {
        assert(c[11] == c[11]);
        assert(t[index_of(c[11])] == t[index_of(c[11])]);
    }
}

proof fn lemma_steps_bottom_start(k: int)
    requires
        0 <= k < 12,
    ensures
        fallback_chain(Placement::BottomStart).len() == 12,
        fallback_chain(Placement::BottomStart)[0] == Placement::BottomStart,
        is_side(fallback_chain(Placement::BottomStart)[k]),
        k < 11 ==> spec_next(fallback_chain(Placement::BottomStart)[k], Placement::BottomStart) == fallback_chain(Placement::BottomStart)[k + 1],
        k == 11 ==> spec_next(fallback_chain(Placement::BottomStart)[k], Placement::BottomStart) == Placement::Over,
{
    let c = fallback_chain(Placement::BottomStart);
    let t = fallback_table(Placement::BottomStart);

    if k == 0 {
        assert(c[0] == c[0]);
        assert(t[index_of(c[0])] == t[index_of(c[0])]);
    } else if k == 1 {
        assert(c[1] == c[1]);
        assert(t[index_of(c[1])] == t[index_of(c[1])]);
    } else if k == 2 {
        assert(c[2] == c[2]);
        assert(t[index_of(c[2])] == t[index_of(c[2])]);
    } else if k == 3 {
        assert(c[3] == c[3]);
        assert(t[index_of(c[3])] == t[index_of(c[3])]);
    } else if k == 4 {
        assert(c[4] == c[4]);
        assert(t[index_of(c[4])] == t[index_of(c[4])]);
    } else if k == 5 {
        assert(c[5] == c[5]);
        assert(t[index_of(c[5])] == t[index_of(c[5])]);
    } else if k == 6 {
        assert(c[6] == c[6]);
        assert(t[index_of(c[6])] == t[index_of(c[6])]);
    } else if k == 7 {
        assert(c[7] == c[7]);
        assert(t[index_of(c[7])] == t[index_of(c[7])]);
    } else if k == 8 {
        assert(c[8] == c[8]);
        assert(t[index_of(c[8])] == t[index_of(c[8])]);
    } else if k == 9 {
        assert(c[9] == c[9]);
        assert(t[index_of(c[9])] == t[index_of(c[9])]);
    } else if k == 10 {
        assert(c[10] == c[10]);
        assert(t[index_of(c[10])] == t[index_of(c[10])]);
    } else if k == 11 {
        assert(c[11] == c[11]);
        assert(t[index_of(c[11])] == t[index_of(c[11])]);
    }
}

proof fn lemma_steps_bottom(k: int)
    requires
        0 <= k < 12,
    ensures
        fallback_chain(Placement::Bottom).len() == 12,
        fallback_chain(Placement::Bottom)[0] == Placement::Bottom,
        is_side(fallback_chain(Placement::Bottom)[k]),
        k < 11 ==> spec_next(fallback_chain(Placement::Bottom)[k], Placement::Bottom) == fallback_chain(Placement::Bottom)[k + 1],
        k == 11 ==> spec_next(fallback_chain(Placement::Bottom)[k], Placement::Bottom) == Placement::Over,
{
    let c = fallback_chain(Placement::Bottom);
    let t = fallback_table(Placement::Bottom);

    if k == 0 {
        assert(c[0] == c[0]);
        assert(t[index_of(c[0])] == t[index_of(c[0])]);
    } else if k == 1 {
        assert(c[1] == c[1]);
        assert(t[index_of(c[1])] == t[index_of(c[1])]);
    } else if k == 2 {
        assert(c[2] == c[2]);
        assert(t[index_of(c[2])] == t[index_of(c[2])]);
    } else if k == 3 {
        assert(c[3] == c[3]);
        assert(t[index_of(c[3])] == t[index_of(c[3])]);
    } else if k == 4 {
        assert(c[4] == c[4]);
        assert(t[index_of(c[4])] == t[index_of(c[4])]);
    } else if k == 5 {
        assert(c[5] == c[5]);
        assert(t[index_of(c[5])] == t[index_of(c[5])]);
    } else if k == 6 {
        assert(c[6] == c[6]);
        assert(t[index_of(c[6])] == t[index_of(c[6])]);
    } else if k == 7 {
        assert(c[7] == c[7]);
        assert(t[index_of(c[7])] == t[index_of(c[7])]);
    } else if k == 8 {
        assert(c[8] == c[8]);
        assert(t[index_of(c[8])] == t[index_of(c[8])]);
    } else if k == 9 {
        assert(c[9] == c[9]);
        assert(t[index_of(c[9])] == t[index_of(c[9])]);
    } else if k == 10 {
        assert(c[10] == c[10]);
        assert(t[index_of(c[10])] == t[index_of(c[10])]);
    } else if k == 11 {
        assert(c[11] == c[11]);
        assert(t[index_of(c[11])] == t[index_of(c[11])]);
    }
}

proof fn lemma_steps_bottom_end(k: int)
    requires
        0 <= k < 12,
    ensures
        fallback_chain(Placement::BottomEnd).len() == 12,
        fallback_chain(Placement::BottomEnd)[0] == Placement::BottomEnd,
        is_side(fallback_chain(Placement::BottomEnd)[k]),
        k < 11 ==> spec_next(fallback_chain(Placement::BottomEnd)[k], Placement::BottomEnd) == fallback_chain(Placement::BottomEnd)[k + 1],
        k == 11 ==> spec_next(fallback_chain(Placement::BottomEnd)[k], Placement::BottomEnd) == Placement::Over,
{
    let c = fallback_chain(Placement::BottomEnd);
    let t = fallback_table(Placement::BottomEnd);

    if k == 0 {
        assert(c[0] == c[0]);
        assert(t[index_of(c[0])] == t[index_of(c[0])]);
    } else if k == 1 {
        assert(c[1] == c[1]);
        assert(t[index_of(c[1])] == t[index_of(c[1])]);
    } else if k == 2 {
        assert(c[2] == c[2]);
        assert(t[index_of(c[2])] == t[index_of(c[2])]);
    } else if k == 3 {
        assert(c[3] == c[3]);
        assert(t[index_of(c[3])] == t[index_of(c[3])]);
    } else if k == 4 {
        assert(c[4] == c[4]);
        assert(t[index_of(c[4])] == t[index_of(c[4])]);
    } else if k == 5 {
        assert(c[5] == c[5]);
        assert(t[index_of(c[5])] == t[index_of(c[5])]);
    } else if k == 6 {
        assert(c[6] == c[6]);
        assert(t[index_of(c[6])] == t[index_of(c[6])]);
    } else if k == 7 {
        assert(c[7] == c[7]);
        assert(t[index_of(c[7])] == t[index_of(c[7])]);
    } else if k == 8 {
        assert(c[8] == c[8]);
        assert(t[index_of(c[8])] == t[index_of(c[8])]);
    } else if k == 9 {
        assert(c[9] == c[9]);
        assert(t[index_of(c[9])] == t[index_of(c[9])]);
    } else if k == 10 {
        assert(c[10] == c[10]);
        assert(t[index_of(c[10])] == t[index_of(c[10])]);
    } else if k == 11 {
        assert(c[11] == c[11]);
        assert(t[index_of(c[11])] == t[index_of(c[11])]);
    }
}

proof fn lemma_steps_right_start(k: int)
    requires
        0 <= k < 12,
    ensures
        fallback_chain(Placement::RightStart).len() == 12,
        fallback_chain(Placement::RightStart)[0] == Placement::RightStart,
        is_side(fallback_chain(Placement::RightStart)[k]),
        k < 11 ==> spec_next(fallback_chain(Placement::RightStart)[k], Placement::RightStart) == fallback_chain(Placement::RightStart)[k + 1],
        k == 11 ==> spec_next(fallback_chain(Placement::RightStart)[k], Placement::RightStart) == Placement::Over,
{
    let c = fallback_chain(Placement::RightStart);
    let t = fallback_table(Placement::RightStart);

    if k == 0 {
        assert(c[0] == c[0]);
        assert(t[index_of(c[0])] == t[index_of(c[0])]);
    } else if k == 1 {
        assert(c[1] == c[1]);
        assert(t[index_of(c[1])] == t[index_of(c[1])]);
    } else if k == 2 {
        assert(c[2] == c[2]);
        assert(t[index_of(c[2])] == t[index_of(c[2])]);
    } else if k == 3 {
        assert(c[3] == c[3]);
        assert(t[index_of(c[3])] == t[index_of(c[3])]);
    } else if k == 4 {
        assert(c[4] == c[4]);
        assert(t[index_of(c[4])] == t[index_of(c[4])]);
    } else if k == 5 {
        assert(c[5] == c[5]);
        assert(t[index_of(c[5])] == t[index_of(c[5])]);
    } else if k == 6 {
        assert(c[6] == c[6]);
        assert(t[index_of(c[6])] == t[index_of(c[6])]);
    } else if k == 7 {
        assert(c[7] == c[7]);
        assert(t[index_of(c[7])] == t[index_of(c[7])]);
    } else if k == 8 {
        assert(c[8] == c[8]);
        assert(t[index_of(c[8])] == t[index_of(c[8])]);
    } else if k == 9 {
        assert(c[9] == c[9]);
        assert(t[index_of(c[9])] == t[index_of(c[9])]);
    } else if k == 10 {
        assert(c[10] == c[10]);
        assert(t[index_of(c[10])] == t[index_of(c[10])]);
    } else if k == 11 {
        assert(c[11] == c[11]);
        assert(t[index_of(c[11])] == t[index_of(c[11])]);
    }
}

proof fn lemma_steps_right(k: int)
    requires
        0 <= k < 12,
    ensures
        fallback_chain(Placement::Right).len() == 12,
        fallback_chain(Placement::Right)[0] == Placement::Right,
        is_side(fallback_chain(Placement::Right)[k]),
        k < 11 ==> spec_next(fallback_chain(Placement::Right)[k], Placement::Right) == fallback_chain(Placement::Right)[k + 1],
        k == 11 ==> spec_next(fallback_chain(Placement::Right)[k], Placement::Right) == Placement::Over,
{
    let c = fallback_chain(Placement::Right);
    let t = fallback_table(Placement::Right);

    if k == 0 {
        assert(c[0] == c[0]);
        assert(t[index_of(c[0])] == t[index_of(c[0])]);
    } else if k == 1 {
        assert(c[1] == c[1]);
        assert(t[index_of(c[1])] == t[index_of(c[1])]);
    } else if k == 2 {
        assert(c[2] == c[2]);
        assert(t[index_of(c[2])] == t[index_of(c[2])]);
    } else if k == 3 {
        assert(c[3] == c[3]);
        assert(t[index_of(c[3])] == t[index_of(c[3])]);
    } else if k == 4 {
        assert(c[4] == c[4]);
        assert(t[index_of(c[4])] == t[index_of(c[4])]);
    } else if k == 5 {
        assert(c[5] == c[5]);
        assert(t[index_of(c[5])] == t[index_of(c[5])]);
    } else if k == 6 {
        assert(c[6] == c[6]);
        assert(t[index_of(c[6])] == t[index_of(c[6])]);
    } else if k == 7 {
        assert(c[7] == c[7]);
        assert(t[index_of(c[7])] == t[index_of(c[7])]);
    } else if k == 8 {
        assert(c[8] == c[8]);
        assert(t[index_of(c[8])] == t[index_of(c[8])]);
    } else if k == 9 {
        assert(c[9] == c[9]);
        assert(t[index_of(c[9])] == t[index_of(c[9])]);
    } else if k == 10 {
        assert(c[10] == c[10]);
        assert(t[index_of(c[10])] == t[index_of(c[10])]);
    } else if k == 11 {
        assert(c[11] == c[11]);
        assert(t[index_of(c[11])] == t[index_of(c[11])]);
    }
}

proof fn lemma_steps_right_end(k: int)
    requires
        0 <= k < 12,
    ensures
        fallback_chain(Placement::RightEnd).len() == 12,
        fallback_chain(Placement::RightEnd)[0] == Placement::RightEnd,
        is_side(fallback_chain(Placement::RightEnd)[k]),
        k < 11 ==> spec_next(fallback_chain(Placement::RightEnd)[k], Placement::RightEnd) == fallback_chain(Placement::RightEnd)[k + 1],
        k == 11 ==> spec_next(fallback_chain(Placement::RightEnd)[k], Placement::RightEnd) == Placement::Over,
{
    let c = fallback_chain(Placement::RightEnd);
    let t = fallback_table(Placement::RightEnd);

    if k == 0 {
        assert(c[0] == c[0]);
        assert(t[index_of(c[0])] == t[index_of(c[0])]);
    } else if k == 1 {
        assert(c[1] == c[1]);
        assert(t[index_of(c[1])] == t[index_of(c[1])]);
    } else if k == 2 {
        assert(c[2] == c[2]);
        assert(t[index_of(c[2])] == t[index_of(c[2])]);
    } else if k == 3 {
        assert(c[3] == c[3]);
        assert(t[index_of(c[3])] == t[index_of(c[3])]);
    } else if k == 4 {
        assert(c[4] == c[4]);
        assert(t[index_of(c[4])] == t[index_of(c[4])]);
    } else if k == 5 {
        assert(c[5] == c[5]);
        assert(t[index_of(c[5])] == t[index_of(c[5])]);
    } else if k == 6 {
        assert(c[6] == c[6]);
        assert(t[index_of(c[6])] == t[index_of(c[6])]);
    } else if k == 7 {
        assert(c[7] == c[7]);
        assert(t[index_of(c[7])] == t[index_of(c[7])]);
    } else if k == 8 {
        assert(c[8] == c[8]);
        assert(t[index_of(c[8])] == t[index_of(c[8])]);
    } else if k == 9 {
        assert(c[9] == c[9]);
        assert(t[index_of(c[9])] == t[index_of(c[9])]);
    } else if k == 10 {
        assert(c[10] == c[10]);
        assert(t[index_of(c[10])] == t[index_of(c[10])]);
    } else if k == 11 {
        assert(c[11] == c[11]);
        assert(t[index_of(c[11])] == t[index_of(c[11])]);
    }
}

proof fn lemma_steps_left_start(k: int)
    requires
        0 <= k < 12,
    ensures
        fallback_chain(Placement::LeftStart).len() == 12,
        fallback_chain(Placement::LeftStart)[0] == Placement::LeftStart,
        is_side(fallback_chain(Placement::LeftStart)[k]),
        k < 11 ==> spec_next(fallback_chain(Placement::LeftStart)[k], Placement::LeftStart) == fallback_chain(Placement::LeftStart)[k + 1],
        k == 11 ==> spec_next(fallback_chain(Placement::LeftStart)[k], Placement::LeftStart) == Placement::Over,
{
    let c = fallback_chain(Placement::LeftStart);
    let t = fallback_table(Placement::LeftStart);

    if k == 0 {
        assert(c[0] == c[0]);
        assert(t[index_of(c[0])] == t[index_of(c[0])]);
    } else if k == 1 {
        assert(c[1] == c[1]);
        assert(t[index_of(c[1])] == t[index_of(c[1])]);
    } else if k == 2 {
        assert(c[2] == c[2]);
        assert(t[index_of(c[2])] == t[index_of(c[2])]);
    } else if k == 3 {
        assert(c[3] == c[3]);
        assert(t[index_of(c[3])] == t[index_of(c[3])]);
    } else if k == 4 {
        assert(c[4] == c[4]);
        assert(t[index_of(c[4])] == t[index_of(c[4])]);
    } else if k == 5 {
        assert(c[5] == c[5]);
        assert(t[index_of(c[5])] == t[index_of(c[5])]);
    } else if k == 6 {
        assert(c[6] == c[6]);
        assert(t[index_of(c[6])] == t[index_of(c[6])]);
    } else if k == 7 {
        assert(c[7] == c[7]);
        assert(t[index_of(c[7])] == t[index_of(c[7])]);
    } else if k == 8 {
        assert(c[8] == c[8]);
        assert(t[index_of(c[8])] == t[index_of(c[8])]);
    } else if k == 9 {
        assert(c[9] == c[9]);
        assert(t[index_of(c[9])] == t[index_of(c[9])]);
    } else if k == 10 {
        assert(c[10] == c[10]);
        assert(t[index_of(c[10])] == t[index_of(c[10])]);
    } else if k == 11 {
        assert(c[11] == c[11]);
        assert(t[index_of(c[11])] == t[index_of(c[11])]);
    }
}

proof fn lemma_steps_left(k: int)
    requires
        0 <= k < 12,
    ensures
        fallback_chain(Placement::Left).len() == 12,
        fallback_chain(Placement::Left)[0] == Placement::Left,
        is_side(fallback_chain(Placement::Left)[k]),
        k < 11 ==> spec_next(fallback_chain(Placement::Left)[k], Placement::Left) == fallback_chain(Placement::Left)[k + 1],
        k == 11 ==> spec_next(fallback_chain(Placement::Left)[k], Placement::Left) == Placement::Over,
{
    let c = fallback_chain(Placement::Left);
    let t = fallback_table(Placement::Left);

    if k == 0 {
        assert(c[0] == c[0]);
        assert(t[index_of(c[0])] == t[index_of(c[0])]);
    } else if k == 1 {
        assert(c[1] == c[1]);
        assert(t[index_of(c[1])] == t[index_of(c[1])]);
    } else if k == 2 {
        assert(c[2] == c[2]);
        assert(t[index_of(c[2])] == t[index_of(c[2])]);
    } else if k == 3 {
        assert(c[3] == c[3]);
        assert(t[index_of(c[3])] == t[index_of(c[3])]);
    } else if k == 4 {
        assert(c[4] == c[4]);
        assert(t[index_of(c[4])] == t[index_of(c[4])]);
    } else if k == 5 {
        assert(c[5] == c[5]);
        assert(t[index_of(c[5])] == t[index_of(c[5])]);
    } else if k == 6 {
        assert(c[6] == c[6]);
        assert(t[index_of(c[6])] == t[index_of(c[6])]);
    } else if k == 7 {
        assert(c[7] == c[7]);
        assert(t[index_of(c[7])] == t[index_of(c[7])]);
    } else if k == 8 {
        assert(c[8] == c[8]);
        assert(t[index_of(c[8])] == t[index_of(c[8])]);
    } else if k == 9 {
        assert(c[9] == c[9]);
        assert(t[index_of(c[9])] == t[index_of(c[9])]);
    } else if k == 10 {
        assert(c[10] == c[10]);
        assert(t[index_of(c[10])] == t[index_of(c[10])]);
    } else if k == 11 {
        assert(c[11] == c[11]);
        assert(t[index_of(c[11])] == t[index_of(c[11])]);
    }
}

proof fn lemma_steps_left_end(k: int)
    requires
        0 <= k < 12,
    ensures
        fallback_chain(Placement::LeftEnd).len() == 12,
        fallback_chain(Placement::LeftEnd)[0] == Placement::LeftEnd,
        is_side(fallback_chain(Placement::LeftEnd)[k]),
        k < 11 ==> spec_next(fallback_chain(Placement::LeftEnd)[k], Placement::LeftEnd) == fallback_chain(Placement::LeftEnd)[k + 1],
        k == 11 ==> spec_next(fallback_chain(Placement::LeftEnd)[k], Placement::LeftEnd) == Placement::Over,
{
    let c = fallback_chain(Placement::LeftEnd);
    let t = fallback_table(Placement::LeftEnd);

    if k == 0 {
        assert(c[0] == c[0]);
        assert(t[index_of(c[0])] == t[index_of(c[0])]);
    } else if k == 1 {
        assert(c[1] == c[1]);
        assert(t[index_of(c[1])] == t[index_of(c[1])]);
    } else if k == 2 {
        assert(c[2] == c[2]);
        assert(t[index_of(c[2])] == t[index_of(c[2])]);
    } else if k == 3 {
        assert(c[3] == c[3]);
        assert(t[index_of(c[3])] == t[index_of(c[3])]);
    } else if k == 4 {
        assert(c[4] == c[4]);
        assert(t[index_of(c[4])] == t[index_of(c[4])]);
    } else if k == 5 {
        assert(c[5] == c[5]);
        assert(t[index_of(c[5])] == t[index_of(c[5])]);
    } else if k == 6 {
        assert(c[6] == c[6]);
        assert(t[index_of(c[6])] == t[index_of(c[6])]);
    } else if k == 7 {
        assert(c[7] == c[7]);
        assert(t[index_of(c[7])] == t[index_of(c[7])]);
    } else if k == 8 {
        assert(c[8] == c[8]);
        assert(t[index_of(c[8])] == t[index_of(c[8])]);
    } else if k == 9 {
        assert(c[9] == c[9]);
        assert(t[index_of(c[9])] == t[index_of(c[9])]);
    } else if k == 10 {
        assert(c[10] == c[10]);
        assert(t[index_of(c[10])] == t[index_of(c[10])]);
    } else if k == 11 {
        assert(c[11] == c[11]);
        assert(t[index_of(c[11])] == t[index_of(c[11])]);
    }
}

/// Following the fallback table from a placement gives the next placement of the
/// fallback order, and `Over` after the last one.
pub proof fn lemma_fallback_steps(original: Placement, k: int)
    requires
        is_side(original),
        0 <= k < 12,
    ensures
        fallback_chain(original).len() == 12,
        fallback_chain(original)[0] == original,
        is_side(fallback_chain(original)[k]),
        k < 11 ==> spec_next(fallback_chain(original)[k], original) == fallback_chain(original)[k + 1],
        k == 11 ==> spec_next(fallback_chain(original)[k], original) == Placement::Over,
{
    match original {
        Placement::TopStart => lemma_steps_top_start(k),
        Placement::Top => lemma_steps_top(k),
        Placement::TopEnd => lemma_steps_top_end(k),
        Placement::BottomStart => lemma_steps_bottom_start(k),
        Placement::Bottom => lemma_steps_bottom(k),
        Placement::BottomEnd => lemma_steps_bottom_end(k),
        Placement::RightStart => lemma_steps_right_start(k),
        Placement::Right => lemma_steps_right(k),
        Placement::RightEnd => lemma_steps_right_end(k),
        Placement::LeftStart => lemma_steps_left_start(k),
        Placement::Left => lemma_steps_left(k),
        Placement::LeftEnd => lemma_steps_left_end(k),
        _ => {},
    }
}

/// The position of side placement `p` in the fallback order of `original`.
pub open spec fn fallback_rank(original: Placement, p: Placement) -> int {
    match original {
        Placement::TopStart => match p {
            Placement::TopStart => 0,
            Placement::Top => 1,
            Placement::TopEnd => 2,
            Placement::BottomStart => 3,
            Placement::Bottom => 4,
            Placement::BottomEnd => 5,
            Placement::RightStart => 6,
            Placement::Right => 7,
            Placement::RightEnd => 8,
            Placement::LeftStart => 9,
            Placement::Left => 10,
            Placement::LeftEnd => 11,
            _ => 12,
        },
        Placement::Top => match p {
            Placement::Top => 0,
            Placement::TopStart => 1,
            Placement::TopEnd => 2,
            Placement::Bottom => 3,
            Placement::BottomStart => 4,
            Placement::BottomEnd => 5,
            Placement::Right => 6,
            Placement::RightStart => 7,
            Placement::RightEnd => 8,
            Placement::Left => 9,
            Placement::LeftStart => 10,
            Placement::LeftEnd => 11,
            _ => 12,
        },
        Placement::TopEnd => match p {
            Placement::TopEnd => 0,
            Placement::Top => 1,
            Placement::TopStart => 2,
            Placement::BottomEnd => 3,
            Placement::Bottom => 4,
            Placement::BottomStart => 5,
            Placement::RightEnd => 6,
            Placement::Right => 7,
            Placement::RightStart => 8,
            Placement::LeftEnd => 9,
            Placement::Left => 10,
            Placement::LeftStart => 11,
            _ => 12,
        },
        Placement::BottomStart => match p {
            Placement::BottomStart => 0,
            Placement::Bottom => 1,
            Placement::BottomEnd => 2,
            Placement::TopStart => 3,
            Placement::Top => 4,
            Placement::TopEnd => 5,
            Placement::RightStart => 6,
            Placement::Right => 7,
            Placement::RightEnd => 8,
            Placement::LeftStart => 9,
            Placement::Left => 10,
            Placement::LeftEnd => 11,
            _ => 12,
        },
        Placement::Bottom => match p {
            Placement::Bottom => 0,
            Placement::BottomStart => 1,
            Placement::BottomEnd => 2,
            Placement::Top => 3,
            Placement::TopStart => 4,
            Placement::TopEnd => 5,
            Placement::Right => 6,
            Placement::RightStart => 7,
            Placement::RightEnd => 8,
            Placement::Left => 9,
            Placement::LeftStart => 10,
            Placement::LeftEnd => 11,
            _ => 12,
        },
        Placement::BottomEnd => match p {
            Placement::BottomEnd => 0,
            Placement::Bottom => 1,
            Placement::BottomStart => 2,
            Placement::TopEnd => 3,
            Placement::Top => 4,
            Placement::TopStart => 5,
            Placement::RightEnd => 6,
            Placement::Right => 7,
            Placement::RightStart => 8,
            Placement::LeftEnd => 9,
            Placement::Left => 10,
            Placement::LeftStart => 11,
            _ => 12,
        },
        Placement::LeftStart => match p {
            Placement::LeftStart => 0,
            Placement::Left => 1,
            Placement::LeftEnd => 2,
            Placement::RightStart => 3,
            Placement::Right => 4,
            Placement::RightEnd => 5,
            Placement::BottomStart => 6,
            Placement::Bottom => 7,
            Placement::BottomEnd => 8,
            Placement::TopStart => 9,
            Placement::Top => 10,
            Placement::TopEnd => 11,
            _ => 12,
        },
        Placement::Left => match p {
            Placement::Left => 0,
            Placement::LeftStart => 1,
            Placement::LeftEnd => 2,
            Placement::Right => 3,
            Placement::RightStart => 4,
            Placement::RightEnd => 5,
            Placement::Bottom => 6,
            Placement::BottomStart => 7,
            Placement::BottomEnd => 8,
            Placement::Top => 9,
            Placement::TopStart => 10,
            Placement::TopEnd => 11,
            _ => 12,
        },
        Placement::LeftEnd => match p {
            Placement::LeftEnd => 0,
            Placement::Left => 1,
            Placement::LeftStart => 2,
            Placement::RightEnd => 3,
            Placement::Right => 4,
            Placement::RightStart => 5,
            Placement::BottomEnd => 6,
            Placement::Bottom => 7,
            Placement::BottomStart => 8,
            Placement::TopEnd => 9,
            Placement::Top => 10,
            Placement::TopStart => 11,
            _ => 12,
        },
        Placement::RightStart => match p {
            Placement::RightStart => 0,
            Placement::Right => 1,
            Placement::RightEnd => 2,
            Placement::LeftStart => 3,
            Placement::Left => 4,
            Placement::LeftEnd => 5,
            Placement::BottomStart => 6,
            Placement::Bottom => 7,
            Placement::BottomEnd => 8,
            Placement::TopStart => 9,
            Placement::Top => 10,
            Placement::TopEnd => 11,
            _ => 12,
        },
        Placement::Right => match p {
            Placement::Right => 0,
            Placement::RightStart => 1,
            Placement::RightEnd => 2,
            Placement::Left => 3,
            Placement::LeftStart => 4,
            Placement::LeftEnd => 5,
            Placement::Bottom => 6,
            Placement::BottomStart => 7,
            Placement::BottomEnd => 8,
            Placement::Top => 9,
            Placement::TopStart => 10,
            Placement::TopEnd => 11,
            _ => 12,
        },
        Placement::RightEnd => match p {
            Placement::RightEnd => 0,
            Placement::Right => 1,
            Placement::RightStart => 2,
            Placement::LeftEnd => 3,
            Placement::Left => 4,
            Placement::LeftStart => 5,
            Placement::BottomEnd => 6,
            Placement::Bottom => 7,
            Placement::BottomStart => 8,
            Placement::TopEnd => 9,
            Placement::Top => 10,
            Placement::TopStart => 11,
            _ => 12,
        },
        _ => 12,
    }
}

/// Every side placement occurs in every fallback order.
pub proof fn lemma_fallback_covers(original: Placement, p: Placement)
    requires
        is_side(original),
        is_side(p),
    ensures
        0 <= fallback_rank(original, p) < 12,
        fallback_chain(original)[fallback_rank(original, p)] == p,
{
}

/// When some placement has room, one of the twelve side placements has room.
pub proof fn lemma_nonempty_has_room(a: AvailablePlacement) -> (p: Placement)
    requires
        a.wf(),
        a.bits != 0,
    ensures
        is_side(p),
        a.spec_can_place(p),
{
    let b = a.bits;
    assert(b < 4096 && b != 0 ==> (b & 1 != 0 || b & 2 != 0 || b & 4 != 0 || b & 8 != 0 || b & 16 != 0
        || b & 32 != 0 || b & 64 != 0 || b & 128 != 0 || b & 256 != 0 || b & 512 != 0 || b & 1024 != 0
        || b & 2048 != 0)) by (bit_vector);
    if b & 1 != 0 { Placement::TopStart }
    else if b & 2 != 0 { Placement::Top }
    else if b & 4 != 0 { Placement::TopEnd }
    else if b & 8 != 0 { Placement::LeftStart }
    else if b & 16 != 0 { Placement::Left }
    else if b & 32 != 0 { Placement::LeftEnd }
    else if b & 64 != 0 { Placement::BottomStart }
    else if b & 128 != 0 { Placement::Bottom }
    else if b & 256 != 0 { Placement::BottomEnd }
    else if b & 512 != 0 { Placement::RightStart }
    else if b & 1024 != 0 { Placement::Right }
    else { Placement::RightEnd }
}

impl Placement {
    /// The number of this placement.
    pub fn index(&self) -> (i: u16)
        ensures
            i as int == index_of(*self),
    {
        match self {
            Placement::TopStart => 0,
            Placement::Top => 1,
            Placement::TopEnd => 2,
            Placement::BottomStart => 3,
            Placement::Bottom => 4,
            Placement::BottomEnd => 5,
            Placement::RightStart => 6,
            Placement::Right => 7,
            Placement::RightEnd => 8,
            Placement::LeftStart => 9,
            Placement::Left => 10,
            Placement::LeftEnd => 11,
            Placement::Over => 12,
            Placement::Cursor => 13,
        }
    }

    /// The placement with number `value`; every number past 12 gives `Cursor`.
    pub fn from_int(value: u16) -> (p: Placement)
        ensures
            p == placement_of(value as int),
    {
        match value {
            0 => Placement::TopStart,
            1 => Placement::Top,
            2 => Placement::TopEnd,
            3 => Placement::BottomStart,
            4 => Placement::Bottom,
            5 => Placement::BottomEnd,
            6 => Placement::RightStart,
            7 => Placement::Right,
            8 => Placement::RightEnd,
            9 => Placement::LeftStart,
            10 => Placement::Left,
            11 => Placement::LeftEnd,
            12 => Placement::Over,
            _ => Placement::Cursor,
        }
    }

    /// The placement tried after this one when `original` has no room.
    pub fn next(&self, original: Placement) -> (p: Placement)
        requires
            is_side(*self),
            is_side(original),
        ensures
            p == spec_next(*self, original),
    {
        let states: [u16; 12] = match original {
            Placement::TopStart => [1, 2, 3, 4, 5, 6, 7, 8, 9, 10, 11, 12],
            Placement::Top => [2, 0, 4, 5, 3, 7, 8, 6, 10, 11, 9, 12],
            Placement::TopEnd => [5, 0, 1, 8, 3, 4, 11, 6, 7, 12, 9, 10],
            Placement::BottomStart => [1, 2, 6, 4, 5, 0, 7, 8, 9, 10, 11, 12],
            Placement::Bottom => [2, 0, 7, 5, 3, 1, 8, 6, 10, 11, 9, 12],
            Placement::BottomEnd => [8, 0, 1, 2, 3, 4, 11, 6, 7, 12, 9, 10],
            Placement::RightStart => [1, 2, 12, 4, 5, 0, 7, 8, 9, 10, 11, 3],
            Placement::Right => [2, 0, 12, 5, 3, 1, 8, 6, 10, 11, 9, 4],
            Placement::RightEnd => [12, 0, 1, 2, 3, 4, 11, 6, 7, 5, 9, 10],
            Placement::LeftStart => [1, 2, 12, 4, 5, 0, 7, 8, 3, 10, 11, 6],
            Placement::Left => [2, 0, 12, 5, 3, 1, 8, 6, 4, 11, 9, 7],
            Placement::LeftEnd => [12, 0, 1, 2, 3, 4, 5, 6, 7, 8, 9, 10],
            _ => [12, 12, 12, 12, 12, 12, 12, 12, 12, 12, 12, 12],
        };
        assert(states@ =~= fallback_table(original));
        let i = self.index();
        Placement::from_int(states[i as usize])
    }

    /// Chooses where a popup preferring this placement goes, given which placements have room.
    pub fn place(&self, available: AvailablePlacement) -> (p: Placement)
        requires
            available.wf(),
        ensures
            p == placed(*self, available),
            is_side(*self) && available.bits != 0 ==> available.spec_can_place(p),
    {
        if *self == Placement::Over || *self == Placement::Cursor {
            return *self;
        }
        if available.is_empty() {
            return Placement::Over;
        }
        let ghost original = *self;
        let ghost chain = fallback_chain(original);
        let mut placement = *self;
        let ghost mut k: int = 0;
        proof {
            lemma_fallback_steps(original, 0);
        }
        while !available.can_place(placement)
            invariant
                is_side(original),
                original == *self,
                available.wf(),
                available.bits != 0,
                chain == fallback_chain(original),
                chain.len() == 12,
                0 <= k < 12,
                placement == chain[k],
                forall|j: int| 0 <= j < k ==> !available.spec_can_place(#[trigger] chain[j]),
            decreases 12 - k,
        {
            proof {
                lemma_fallback_steps(original, k);
                if k == 11 {
                    let q = lemma_nonempty_has_room(available);
                    lemma_fallback_covers(original, q);
                    let m = fallback_rank(original, q);
                    assert(!available.spec_can_place(chain[m]));
                }
            }
            placement = placement.next(*self);
            proof {
                k = k + 1;
            }
        }
        proof {
            let kk = choose|kk: int| 0 <= kk < 12 && available.spec_can_place(#[trigger] fallback_chain(original)[kk])
                && forall|j: int| 0 <= j < kk ==> !available.spec_can_place(#[trigger] fallback_chain(original)[j]);
            assert(available.spec_can_place(chain[k]));
            if kk < k {
                assert(!available.spec_can_place(chain[kk]));
            }
            if k < kk {
                assert(!available.spec_can_place(chain[k]));
            }
            assert(kk == k);
        }
        placement
    }
}

/// A popup's own open state, kept by a model above it.
#[derive(Clone, Copy, Debug)]
pub struct PopupData {
    pub is_open: bool,
}

/// Requests to open, close or flip a popup.
#[derive(Clone, Copy, PartialEq, Eq, Structural, Debug)]
pub enum PopupEvent {
    Open,
    Close,
    Switch,
}

/// The open state after a popup event.
pub open spec fn popup_open_after(is_open: bool, event: PopupEvent) -> bool {
    match event {
        PopupEvent::Open => true,
        PopupEvent::Close => false,
        PopupEvent::Switch => !is_open,
    }
}

impl PopupData {
    /// Applies a popup event to the open state; every popup event is consumed.
    pub fn event(&mut self, event: PopupEvent) -> (consumed: bool)
        ensures
            final(self).is_open == popup_open_after(old(self).is_open, event),
            consumed,
    {
        match event {
            PopupEvent::Open => {
                self.is_open = true;
            }
            PopupEvent::Close => {
                self.is_open = false;
            }
            PopupEvent::Switch => {
                self.is_open = !self.is_open;
            }
        }
        true
    }
}

/// A view displayed beside its parent, repositioned when it does not fit.
#[derive(Clone, Copy, Debug)]
pub struct Popup {
    pub placement: Placement,
    pub show_arrow: bool,
    /// The size of the arrow, in whole logical pixels.
    pub arrow_size: u32,
    pub should_reposition: bool,
    /// Whether a callback runs when the popup loses focus.
    pub has_on_blur: bool,
}

impl Popup {
    /// The popup's state when built: below its parent, with an arrow of 8 pixels,
    /// repositioned when it does not fit.
    pub open spec fn initial() -> Popup {
        Popup { placement: Placement::Bottom, show_arrow: true, arrow_size: 8, should_reposition: true, has_on_blur: false }
    }

    /// Builds a popup node under the current node, with its arrow inside it.
    pub fn new(cx: &mut Context) -> (h: Handle<Popup>)
        requires
            old(cx)@.len() + 2 < usize::MAX,
        ensures
            final(cx).cur() == old(cx).cur(),
            h.entity == old(cx)@.len(),
            h.view == Popup::initial(),
            final(cx)@ == old(cx)@.push(NodeView::fresh(Tag::Popup, old(cx).cur() as nat))
                .push(NodeView::fresh(Tag::Arrow, h.entity as nat)),
    {
        let parent = cx.current();
        let e = cx.add(Tag::Popup);
        cx.set_current(e);
        let _arrow = cx.add(Tag::Arrow);
        cx.set_current(parent);
        Handle { entity: e, view: Popup { placement: Placement::Bottom, show_arrow: true, arrow_size: 8, should_reposition: true, has_on_blur: false } }
    }

    /// Where the popup goes after its geometry changed: its placement adjusted to the
    /// available room when it may be repositioned, its placement as set otherwise.
    pub fn reposition(&self, available: AvailablePlacement) -> (p: Placement)
        requires
            available.wf(),
        ensures
            p == if self.should_reposition { placed(self.placement, available) } else { self.placement },
    {
        if self.should_reposition {
            self.placement.place(available)
        } else {
            self.placement
        }
    }
}

/// Modifiers for a popup.
pub trait PopupModifiers: Sized {
    /// Sets the preferred placement of the popup.
    fn placement(self, placement: Placement) -> Self;

    /// Sets whether the popup shows an arrow.
    fn show_arrow(self, show_arrow: bool) -> Self;

    /// Sets the size of the arrow.
    fn arrow_size(self, size: u32) -> Self;

    /// Sets whether the popup may move when it does not fit.
    fn should_reposition(self, should_reposition: bool) -> Self;

    /// Attaches the callback that runs when the popup loses focus.
    fn on_blur(self) -> Self;
}

impl PopupModifiers for Handle<Popup> {
    fn placement(self, placement: Placement) -> (h: Self)
        ensures
            h.entity == self.entity,
            h.view == (Popup { placement, ..self.view }),
    {
        Handle { entity: self.entity, view: Popup { placement, ..self.view } }
    }

    fn show_arrow(self, show_arrow: bool) -> (h: Self)
        ensures
            h.entity == self.entity,
            h.view == (Popup { show_arrow, ..self.view }),
    {
        Handle { entity: self.entity, view: Popup { show_arrow, ..self.view } }
    }

    fn arrow_size(self, size: u32) -> (h: Self)
        ensures
            h.entity == self.entity,
            h.view == (Popup { arrow_size: size, ..self.view }),
    {
        Handle { entity: self.entity, view: Popup { arrow_size: size, ..self.view } }
    }

    fn should_reposition(self, should_reposition: bool) -> (h: Self)
        ensures
            h.entity == self.entity,
            h.view == (Popup { should_reposition, ..self.view }),
    {
        Handle { entity: self.entity, view: Popup { should_reposition, ..self.view } }
    }

    fn on_blur(self) -> (h: Self)
        ensures
            h.entity == self.entity,
            h.view == (Popup { has_on_blur: true, ..self.view }),
    {
        Handle { entity: self.entity, view: Popup { has_on_blur: true, ..self.view } }
    }
}

} // verus!
