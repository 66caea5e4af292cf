//! Pick lists: a button showing the picked item, which opens a list of the items.

use vstd::prelude::*;
use crate::ui::{Context, Handle, NodeView, Tag};
use crate::select::{picker_nodes, select_event, select_open_after, select_response, shown_string, shown_text,
    texts, build_trigger, SelectEvent, SelectResponse};

verus! {

/// A button showing the picked item, opening a list of the items.
pub struct PickList {
    pub items: Vec<String>,
    pub selected: usize,
    pub placeholder: String,
    pub is_open: bool,
    pub has_on_select: bool,
    /// The node of the label showing the picked item.
    pub label: usize,
}

impl PickList {
    /// Builds a closed pick list over `items` with item `selected` picked and an
    /// empty placeholder, shown when `selected` is past the end.
    pub fn new(cx: &mut Context, items: Vec<String>, selected: usize, show_handle: bool) -> (h: Handle<PickList>)
        requires
            old(cx)@.len() + 5 < usize::MAX,
        ensures
            h.entity == old(cx)@.len(),
            h.view.items@ == items@,
            h.view.selected == selected,
            h.view.placeholder@ == Seq::<char>::empty(),
            !h.view.is_open,
            !h.view.has_on_select,
            h.view.label == h.entity + 3,
            final(cx).cur() == old(cx).cur(),
            final(cx)@ == picker_nodes(old(cx)@.push(NodeView::fresh(Tag::PickList, old(cx).cur() as nat)),
                h.entity as nat, shown_text(texts(items@), Some(selected), Seq::empty()), show_handle),
    {
        let e = cx.add(Tag::PickList);
        let placeholder = String::new();
        let text = shown_string(&items, Some(selected), &placeholder);
        let label = build_trigger(cx, e, text, show_handle, false);
        Handle {
            entity: e,
            view: PickList { items, selected, placeholder, is_open: false, has_on_select: false, label },
        }
    }

    /// Handles an event.
    pub fn event(&mut self, event: SelectEvent) -> (r: SelectResponse)
        ensures
            final(self).is_open == select_open_after(old(self).is_open, event),
            final(self).items@ == old(self).items@,
            final(self).selected == old(self).selected,
            final(self).placeholder@ == old(self).placeholder@,
            final(self).has_on_select == old(self).has_on_select,
            final(self).label == old(self).label,
            r == select_response(old(self).has_on_select, event),
    {
        select_event(&mut self.is_open, self.has_on_select, event)
    }
}

impl Handle<PickList> {
    /// Sets the text shown while the picked index is past the end of the items.
    pub fn placeholder(self, cx: &mut Context, placeholder: String) -> (h: Handle<PickList>)
        requires
            (self.view.label as int) < old(cx)@.len(),
        ensures
            h.entity == self.entity,
            h.view.placeholder@ == placeholder@,
            h.view.items@ == self.view.items@,
            h.view.selected == self.view.selected,
            h.view.label == self.view.label,
            final(cx).cur() == old(cx).cur(),
            final(cx)@ == old(cx)@.update(self.view.label as int, old(cx)@[self.view.label as int]
                .with_text(shown_text(texts(self.view.items@), Some(self.view.selected), placeholder@))),
    {
        let mut h = self;
        let text = shown_string(&h.view.items, Some(h.view.selected), &placeholder);
        cx.set_text(h.view.label, text);
        h.view.placeholder = placeholder;
        h
    }

    /// Attaches the callback that receives the picked index.
    pub fn on_select(self) -> (h: Handle<PickList>)
        ensures
            h.entity == self.entity,
            h.view.has_on_select,
            h.view.items@ == self.view.items@,
            h.view.selected == self.view.selected,
            h.view.label == self.view.label,
    {
        let mut h = self;
        h.view.has_on_select = true;
        h
    }
}

} // verus!
