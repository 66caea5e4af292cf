//! A star rating input.

use vstd::prelude::*;
use crate::ui::{Class, Context, Handle, Icon, NodeView, Role, Tag};
use crate::press::Key;

verus! {

/// The node of star `i` (counted from one) of a rating under `parent`: filled when the
/// rating reaches it.
pub open spec fn star_node(parent: nat, i: int, rating: u32) -> NodeView {
    NodeView::fresh(Tag::Svg, parent).with_icon(Icon::Star).with_checkable(true)
        .with_role(Role::RadioButton).with_checked(rating >= i).toggled(Class::Foo, rating >= i)
}

/// The tree after the first `k` stars of a rating at `e` were appended.
pub open spec fn stars(s: Seq<NodeView>, e: nat, rating: u32, k: nat) -> Seq<NodeView>
    decreases k,
{
    if k == 0 {
        s
    } else {
        stars(s, e, rating, (k - 1) as nat).push(star_node(e, k as int, rating))
    }
}

/// The tree after the foo class of every star of a rating at `e` was set to follow
/// `rating`.
pub open spec fn shown(s: Seq<NodeView>, e: int, max: u32, rating: u32) -> Seq<NodeView> {
    Seq::new(s.len(), |k: int|
        if e < k <= e + max { s[k].toggled(Class::Foo, rating >= k - e) } else { s[k] })
}

/// Events of a rating.
#[derive(Clone, Copy, PartialEq, Eq, Structural, Debug)]
pub enum RatingEvent {
    /// The pointer moved over the star with the given number.
    SetRating(u32),
    /// Report the current rating.
    EmitRating,
    Increment,
    Decrement,
}

/// A row of stars of which the first `rating` are filled.
pub struct Rating {
    pub rating: u32,
    pub max_rating: u32,
    /// Whether a callback receives the rating when it is chosen.
    pub has_on_change: bool,
}

/// The rating after an event: one more, wrapping from the maximum to none; one less,
/// wrapping from none to the maximum.
pub open spec fn rating_after(rating: u32, max: u32, event: RatingEvent) -> u32 {
    match event {
        RatingEvent::SetRating(v) => v,
        RatingEvent::EmitRating => rating,
        RatingEvent::Increment => ((rating + 1) % (max + 1)) as u32,
        RatingEvent::Decrement => if rating == 0 { max } else { (rating - 1) as u32 },
    }
}

/// Whether an event reports the rating to the callback.
pub open spec fn reports(event: RatingEvent) -> bool {
    event == RatingEvent::EmitRating || event == RatingEvent::Increment || event == RatingEvent::Decrement
}

/// The event a key press on a rating emits.
pub open spec fn rating_key(key: Key) -> Option<RatingEvent> {
    match key {
        Key::ArrowLeft => Some(RatingEvent::Decrement),
        Key::ArrowRight => Some(RatingEvent::Increment),
        _ => None,
    }
}

impl Rating {
    /// Builds a rating out of `max_rating` stars, the first `rating` of them filled.
    pub fn new(cx: &mut Context, max_rating: u32, rating: u32) -> (h: Handle<Rating>)
        requires
            old(cx)@.len() + max_rating + 1 < usize::MAX,
            max_rating < u32::MAX,
        ensures
            h.entity == old(cx)@.len(),
            h.view == (Rating { rating, max_rating, has_on_change: false }),
            final(cx).cur() == old(cx).cur(),
            final(cx)@ == stars(old(cx)@.push(NodeView::fresh(Tag::Rating, old(cx).cur() as nat)
                .with_navigable(true).with_role(Role::RadioGroup)), h.entity as nat, rating, max_rating as nat),
    {
        let e = cx.add(Tag::Rating);
        cx.set_navigable(e, true);
        cx.set_role(e, Role::RadioGroup);
        let ghost start = cx@;
        assert(start =~= old(cx)@.push(NodeView::fresh(Tag::Rating, old(cx).cur() as nat)
            .with_navigable(true).with_role(Role::RadioGroup)));
        let mut i: u32 = 1;
        while i <= max_rating
            invariant
                1 <= i <= max_rating + 1,
                max_rating < u32::MAX,
                start.len() + max_rating < usize::MAX,
                e == start.len() - 1,
                cx@ == stars(start, e as nat, rating, (i - 1) as nat),
                cx@.len() == start.len() + i - 1,
                cx.cur() == old(cx).cur(),
            decreases max_rating + 1 - i,
        {
            let s = cx.add_icon(e, Icon::Star);
            cx.set_checkable(s, true);
            cx.set_role(s, Role::RadioButton);
            cx.set_checked(s, rating >= i);
            cx.toggle_class(s, Class::Foo, rating >= i);
            proof {
                let prev = stars(start, e as nat, rating, (i - 1) as nat);
                assert(stars(start, e as nat, rating, i as nat) == prev.push(star_node(e as nat, i as int, rating)));
                assert(cx@ =~= prev.push(star_node(e as nat, i as int, rating)));
            }
            i = i + 1;
        }
        Handle { entity: e, view: Rating { rating, max_rating, has_on_change: false } }
    }

    /// The event a key press emits: the left arrow lowers the rating, the right arrow
    /// raises it.
    pub fn key_down(key: Key) -> (r: Option<RatingEvent>)
        ensures
            r == rating_key(key),
    {
        match key {
            Key::ArrowLeft => Some(RatingEvent::Decrement),
            Key::ArrowRight => Some(RatingEvent::Increment),
            _ => None,
        }
    }
}

impl Handle<Rating> {
    /// Attaches the callback that receives the chosen rating.
    pub fn on_change(self) -> (h: Handle<Rating>)
        ensures
            h.entity == self.entity,
            h.view == (Rating { has_on_change: true, ..self.view }),
    {
        Handle { entity: self.entity, view: Rating { has_on_change: true, ..self.view } }
    }

    /// Handles an event: updates the rating and the filled stars, and returns the
    /// rating for the callback when the event reports it and a callback is attached.
    pub fn event(&mut self, cx: &mut Context, event: RatingEvent) -> (reported: Option<u32>)
        requires
            old(self).view.max_rating < u32::MAX,
            old(self).entity + old(self).view.max_rating < old(cx)@.len(),
            event == RatingEvent::Increment ==> old(self).view.rating < u32::MAX,
        ensures
            final(self).entity == old(self).entity,
            final(self).view == (Rating {
                rating: rating_after(old(self).view.rating, old(self).view.max_rating, event),
                ..old(self).view
            }),
            reported == if reports(event) && old(self).view.has_on_change {
                Some(rating_after(old(self).view.rating, old(self).view.max_rating, event))
            } else {
                None
            },
            final(cx).cur() == old(cx).cur(),
            final(cx)@ == shown(old(cx)@, old(self).entity as int, old(self).view.max_rating,
                rating_after(old(self).view.rating, old(self).view.max_rating, event)),
    {
        let max = self.view.max_rating;
        let r = self.view.rating;
        let next: u32 = match event {
            RatingEvent::SetRating(v) => v,
            RatingEvent::EmitRating => r,
            RatingEvent::Increment => (r + 1) % (max + 1),
            RatingEvent::Decrement => if r == 0 { max } else { r - 1 },
        };
        self.view.rating = next;
        let e = self.entity;
        let total = cx.len();
        let mut i: u32 = 1;
        while i <= max
            invariant
                1 <= i <= max + 1,
                max < u32::MAX,
                e + max < old(cx)@.len(),
                cx@.len() == old(cx)@.len(),
                total == old(cx)@.len(),
                cx.cur() == old(cx).cur(),
                forall|k: int| 0 <= k < cx@.len() ==> #[trigger] cx@[k] ==
                    if e < k < e + i { old(cx)@[k].toggled(Class::Foo, next >= k - e) } else { old(cx)@[k] },
            decreases max + 1 - i,
        {
            let star: usize = e + (i as usize);
            cx.toggle_class(star, Class::Foo, next >= i);
            i = i + 1;
        }
        assert(cx@ =~= shown(old(cx)@, e as int, max, next));
        let reports = match event {
            RatingEvent::SetRating(_) => false,
            _ => true,
        };
        if reports && self.view.has_on_change {
            Some(next)
        } else {
            None
        }
    }
}

/// One step up and one step down give back the rating, and so do one step down and
/// one step up, for every rating up to the maximum.
pub proof fn law_steps_undo_each_other(rating: u32, max: u32)
    requires
        rating <= max,
        max < u32::MAX,
    ensures
        rating_after(rating_after(rating, max, RatingEvent::Increment), max, RatingEvent::Decrement) == rating,
        rating_after(rating_after(rating, max, RatingEvent::Decrement), max, RatingEvent::Increment) == rating,
{
    let m: nat = (max + 1) as nat;
    if rating < max {
        vstd::arithmetic::div_mod::lemma_small_mod((rating + 1) as nat, m);
    } else {
        vstd::arithmetic::div_mod::lemma_mod_self_0(m as int);
    }
    if rating > 0 {
        vstd::arithmetic::div_mod::lemma_small_mod(rating as nat, m);
    } else {
        vstd::arithmetic::div_mod::lemma_mod_self_0(m as int);
    }
}


/// A rating within its range stays within it under every event that reports it: the
/// value handed to the change callback lies between 0 and the number of stars.
pub proof fn law_reported_rating_in_range(rating: u32, max: u32, event: RatingEvent)
    requires
        rating <= max < u32::MAX,
        reports(event),
    ensures
        rating_after(rating, max, event) <= max,
{
    if event == RatingEvent::Increment {
        assert((rating + 1) % (max + 1) < max + 1) by (nonlinear_arith)
            requires max + 1 > 0;
    }
}

} // verus!
