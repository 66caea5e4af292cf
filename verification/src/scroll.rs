//! Scroll views: content that scrolls inside a container, with scrollbars. The scroll
//! positions themselves are fractions handled outside the library; this module builds
//! the views and keeps their flags.

use vstd::prelude::*;
use crate::ui::{Class, Context, Handle, NodeView, Orientation, Role, Tag};

verus! {

/// The node of a scrollbar laid along `o` under `parent`.
pub open spec fn scrollbar_nodes(s: Seq<NodeView>, parent: nat, o: Orientation) -> Seq<NodeView> {
    s.push(NodeView::fresh(Tag::Scrollbar, parent).with_role(Role::ScrollBar)
            .class(if o == Orientation::Horizontal { Class::Horizontal } else { Class::Vertical }))
        .push(NodeView::fresh(Tag::Element, s.len()).class(Class::Thumb).with_focusable(true))
}

/// A scrollbar.
pub struct Scrollbar {
    pub orientation: Orientation,
    pub scroll_to_cursor: bool,
}

impl Scrollbar {
    /// Builds a scrollbar laid along `orientation`, with its focusable thumb inside it.
    pub fn new(cx: &mut Context, orientation: Orientation) -> (h: Handle<Scrollbar>)
        requires
            old(cx)@.len() + 1 < usize::MAX,
        ensures
            h.entity == old(cx)@.len(),
            h.view == (Scrollbar { orientation, scroll_to_cursor: false }),
            final(cx).cur() == old(cx).cur(),
            final(cx)@ == scrollbar_nodes(old(cx)@, old(cx).cur() as nat, orientation),
    {
        let e = cx.add_with_role(Tag::Scrollbar, Role::ScrollBar);
        let thumb = cx.add_child(e, Tag::Element);
        cx.add_class(thumb, Class::Thumb);
        cx.set_focusable(thumb, true);
        cx.add_class(e, if orientation == Orientation::Horizontal { Class::Horizontal } else { Class::Vertical });
        assert(cx@ =~= scrollbar_nodes(old(cx)@, old(cx).cur() as nat, orientation));
        Handle { entity: e, view: Scrollbar { orientation, scroll_to_cursor: false } }
    }
}

impl Handle<Scrollbar> {
    /// Sets whether pressing the track jumps the thumb to the cursor.
    pub fn scroll_to_cursor(self, flag: bool) -> (h: Handle<Scrollbar>)
        ensures
            h.entity == self.entity,
            h.view == (Scrollbar { scroll_to_cursor: flag, ..self.view }),
    {
        Handle { entity: self.entity, view: Scrollbar { scroll_to_cursor: flag, ..self.view } }
    }
}

/// The container of what a scroll view scrolls.
pub struct ScrollContent {}

impl ScrollContent {
    /// Builds the scroll content node; what scrolls is built inside it afterwards.
    pub fn new(cx: &mut Context) -> (h: Handle<ScrollContent>)
        requires
            old(cx)@.len() < usize::MAX,
        ensures
            h.entity == old(cx)@.len(),
            final(cx).cur() == old(cx).cur(),
            final(cx)@ == old(cx)@.push(NodeView::fresh(Tag::ScrollContent, old(cx).cur() as nat)),
    {
        let e = cx.add(Tag::ScrollContent);
        Handle { entity: e, view: ScrollContent {} }
    }
}

/// Content that scrolls inside a container.
pub struct ScrollView {
    pub scroll_to_cursor: bool,
    pub show_horizontal_scrollbar: bool,
    pub show_vertical_scrollbar: bool,
    pub has_on_scroll: bool,
    /// The node of the content.
    pub content: usize,
    /// The vertical and the horizontal scrollbar.
    pub scrollbars: (usize, usize),
}

impl ScrollView {
    /// Builds a scroll view with both scrollbars: the scroll view, its content node,
    /// then its vertical and its horizontal scrollbar.
    pub fn new(cx: &mut Context) -> (h: Handle<ScrollView>)
        requires
            old(cx)@.len() + 5 < usize::MAX,
        ensures
            h.entity == old(cx)@.len(),
            h.view == (ScrollView {
                scroll_to_cursor: false,
                show_horizontal_scrollbar: true,
                show_vertical_scrollbar: true,
                has_on_scroll: false,
                content: (h.entity + 1) as usize,
                scrollbars: ((h.entity + 2) as usize, (h.entity + 4) as usize),
            }),
            final(cx).cur() == old(cx).cur(),
            final(cx)@ == scrollbar_nodes(scrollbar_nodes(old(cx)@
                    .push(NodeView::fresh(Tag::ScrollView, old(cx).cur() as nat))
                    .push(NodeView::fresh(Tag::ScrollContent, h.entity as nat)),
                h.entity as nat, Orientation::Vertical), h.entity as nat, Orientation::Horizontal),
    {
        let here = cx.current();
        let e = cx.add(Tag::ScrollView);
        cx.set_current(e);
        let content = ScrollContent::new(cx);
        let v = Scrollbar::new(cx, Orientation::Vertical);
        let h = Scrollbar::new(cx, Orientation::Horizontal);
        cx.set_current(here);
        Handle {
            entity: e,
            view: ScrollView {
                scroll_to_cursor: false,
                show_horizontal_scrollbar: true,
                show_vertical_scrollbar: true,
                has_on_scroll: false,
                content: content.entity,
                scrollbars: (v.entity, h.entity),
            },
        }
    }
}

impl Handle<ScrollView> {
    /// Attaches the callback that receives the scroll position.
    pub fn on_scroll(self) -> (h: Handle<ScrollView>)
        ensures
            h.entity == self.entity,
            h.view == (ScrollView { has_on_scroll: true, ..self.view }),
    {
        Handle { entity: self.entity, view: ScrollView { has_on_scroll: true, ..self.view } }
    }

    /// Sets whether pressing a scrollbar's track jumps to the cursor.
    pub fn scroll_to_cursor(self, flag: bool) -> (h: Handle<ScrollView>)
        ensures
            h.entity == self.entity,
            h.view == (ScrollView { scroll_to_cursor: flag, ..self.view }),
    {
        Handle { entity: self.entity, view: ScrollView { scroll_to_cursor: flag, ..self.view } }
    }

    /// Shows or hides the horizontal scrollbar.
    pub fn show_horizontal_scrollbar(self, cx: &mut Context, flag: bool) -> (h: Handle<ScrollView>)
        requires
            (self.view.scrollbars.1 as int) < old(cx)@.len(),
        ensures
            h.entity == self.entity,
            h.view == (ScrollView { show_horizontal_scrollbar: flag, ..self.view }),
            final(cx).cur() == old(cx).cur(),
            final(cx)@ == old(cx)@.update(self.view.scrollbars.1 as int,
                old(cx)@[self.view.scrollbars.1 as int].with_displayed(flag)),
    {
        cx.set_displayed(self.view.scrollbars.1, flag);
        Handle { entity: self.entity, view: ScrollView { show_horizontal_scrollbar: flag, ..self.view } }
    }

    /// Shows or hides the vertical scrollbar.
    pub fn show_vertical_scrollbar(self, cx: &mut Context, flag: bool) -> (h: Handle<ScrollView>)
        requires
            (self.view.scrollbars.0 as int) < old(cx)@.len(),
        ensures
            h.entity == self.entity,
            h.view == (ScrollView { show_vertical_scrollbar: flag, ..self.view }),
            final(cx).cur() == old(cx).cur(),
            final(cx)@ == old(cx)@.update(self.view.scrollbars.0 as int,
                old(cx)@[self.view.scrollbars.0 as int].with_displayed(flag)),
    {
        cx.set_displayed(self.view.scrollbars.0, flag);
        Handle { entity: self.entity, view: ScrollView { show_vertical_scrollbar: flag, ..self.view } }
    }
}

} // verus!
