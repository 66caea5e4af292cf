//! Selects: a button showing the chosen option, which opens a list of the options.

use vstd::prelude::*;
use crate::ui::{Class, Context, Handle, Icon, NodeView, Role, Tag};
use crate::label::label_node;
use crate::button::button_node;
use crate::popup::PopupEvent;

verus! {

/// The text a select shows: the chosen option when one is chosen and exists, the
/// placeholder otherwise.
pub open spec fn shown_text(items: Seq<Seq<char>>, selected: Option<usize>, placeholder: Seq<char>) -> Seq<char> {
    match selected {
        Some(i) => if i < items.len() { items[i as int] } else { placeholder },
        None => placeholder,
    }
}

/// The texts of a list of strings.
pub open spec fn texts(v: Seq<String>) -> Seq<Seq<char>> {
    Seq::new(v.len(), |i: int| v[i]@)
}

/// The text a select shows, computed.
pub fn shown_string(items: &Vec<String>, selected: Option<usize>, placeholder: &String) -> (r: String)
    ensures
        r@ == shown_text(texts(items@), selected, placeholder@),
{
    match selected {
        Some(i) => {
            if i < items.len() {
                items[i].clone()
            } else {
                placeholder.clone()
            }
        }
        None => placeholder.clone(),
    }
}

/// The nodes of a select's trigger under the select node `e`: an outlined button, a
/// row inside it, the label showing `text`, and the chevron when `show_handle` holds.
pub open spec fn trigger_nodes(s: Seq<NodeView>, e: nat, text: Seq<char>, show_handle: bool) -> Seq<NodeView> {
    let b = s.len();
    let t = s.push(button_node(e).toggled(Class::Accent, false).toggled(Class::Outline, true).toggled(Class::Text, false))
        .push(NodeView::fresh(Tag::HStack, b).with_role(Role::GenericContainer))
        .push(label_node(b + 1, text));
    if show_handle {
        t.push(NodeView::fresh(Tag::Svg, b + 1).with_icon(Icon::ChevronDown).class(Class::Icon))
    } else {
        t
    }
}

/// Builds a select's trigger under node `e`; returns the node of its label.
pub fn build_trigger(cx: &mut Context, e: usize, text: String, show_handle: bool, outlined: bool) -> (label: usize)
    requires
        (e as int) < old(cx)@.len(),
        old(cx)@.len() + 4 < usize::MAX,
    ensures
        label == old(cx)@.len() + 2,
        final(cx).cur() == old(cx).cur(),
        outlined ==> final(cx)@ == trigger_nodes(old(cx)@, e as nat, text@, show_handle),
        !outlined ==> final(cx)@ == picker_nodes(old(cx)@, e as nat, text@, show_handle),
{
    let b = cx.add_child(e, Tag::Button);
    cx.set_role(b, Role::Button);
    cx.set_navigable(b, true);
    if outlined {
        cx.toggle_class(b, Class::Accent, false);
        cx.toggle_class(b, Class::Outline, true);
        cx.toggle_class(b, Class::Text, false);
    }
    let row = cx.add_child(b, Tag::HStack);
    cx.set_role(row, Role::GenericContainer);
    let l = cx.add_child(row, Tag::Label);
    cx.set_text(l, text);
    cx.set_role(l, Role::Label);
    if show_handle {
        let i = cx.add_icon(row, Icon::ChevronDown);
        cx.add_class(i, Class::Icon);
    }
    assert(outlined ==> cx@ =~= trigger_nodes(old(cx)@, e as nat, text@, show_handle));
    assert(!outlined ==> cx@ =~= picker_nodes(old(cx)@, e as nat, text@, show_handle));
    l
}

/// The trigger nodes of a pick list: as a select's, with a plain button.
pub open spec fn picker_nodes(s: Seq<NodeView>, e: nat, text: Seq<char>, show_handle: bool) -> Seq<NodeView> {
    let b = s.len();
    let t = s.push(button_node(e))
        .push(NodeView::fresh(Tag::HStack, b).with_role(Role::GenericContainer))
        .push(label_node(b + 1, text));
    if show_handle {
        t.push(NodeView::fresh(Tag::Svg, b + 1).with_icon(Icon::ChevronDown).class(Class::Icon))
    } else {
        t
    }
}

/// What a select or pick list asks for after an event.
#[derive(Clone, Copy, PartialEq, Eq, Structural, Debug)]
pub struct SelectResponse {
    /// The option to hand to the callback.
    pub callback: Option<usize>,
    /// Move focus back to the trigger button.
    pub focus_trigger: bool,
}

/// Events of a select or pick list: an option was chosen in the list, or the popup
/// is to open, close or flip.
#[derive(Clone, Copy, PartialEq, Eq, Structural, Debug)]
pub enum SelectEvent {
    SetOption(usize),
    Popup(PopupEvent),
}

/// The open state after an event.
pub open spec fn select_open_after(is_open: bool, event: SelectEvent) -> bool {
    match event {
        SelectEvent::SetOption(_) => is_open,
        SelectEvent::Popup(PopupEvent::Open) => true,
        SelectEvent::Popup(PopupEvent::Close) => false,
        SelectEvent::Popup(PopupEvent::Switch) => !is_open,
    }
}

/// The response to an event: a chosen option goes to the callback, if any; closing
/// hands the focus back to the trigger.
pub open spec fn select_response(has_on_select: bool, event: SelectEvent) -> SelectResponse {
    match event {
        SelectEvent::SetOption(i) => SelectResponse { callback: if has_on_select { Some(i) } else { None }, focus_trigger: false },
        SelectEvent::Popup(PopupEvent::Close) => SelectResponse { callback: None, focus_trigger: true },
        _ => SelectResponse { callback: None, focus_trigger: false },
    }
}

/// Applies a select event to the open state.
pub fn select_event(is_open: &mut bool, has_on_select: bool, event: SelectEvent) -> (r: SelectResponse)
    ensures
        *final(is_open) == select_open_after(*old(is_open), event),
        r == select_response(has_on_select, event),
{
    match event {
        SelectEvent::SetOption(i) => SelectResponse { callback: if has_on_select { Some(i) } else { None }, focus_trigger: false },
        SelectEvent::Popup(PopupEvent::Open) => {
            *is_open = true;
            SelectResponse { callback: None, focus_trigger: false }
        }
        SelectEvent::Popup(PopupEvent::Close) => {
            *is_open = false;
            SelectResponse { callback: None, focus_trigger: true }
        }
        SelectEvent::Popup(PopupEvent::Switch) => {
            *is_open = !*is_open;
            SelectResponse { callback: None, focus_trigger: false }
        }
    }
}

/// A button showing the chosen option, opening a list of the options.
pub struct Select {
    pub items: Vec<String>,
    pub selected: Option<usize>,
    pub placeholder: String,
    pub is_open: bool,
    pub min_selected: usize,
    pub max_selected: usize,
    pub has_on_select: bool,
    /// The node of the label showing the chosen option.
    pub label: usize,
}

impl Select {
    /// Builds a closed select over `items` with `selected` chosen and an empty
    /// placeholder; the list in its popup may hold from none to any number of choices.
    pub fn new(cx: &mut Context, items: Vec<String>, selected: Option<usize>, show_handle: bool) -> (h: Handle<Select>)
        requires
            old(cx)@.len() + 5 < usize::MAX,
        ensures
            h.entity == old(cx)@.len(),
            h.view.items@ == items@,
            h.view.selected == selected,
            h.view.placeholder@ == Seq::<char>::empty(),
            !h.view.is_open,
            h.view.min_selected == 0,
            h.view.max_selected == usize::MAX,
            !h.view.has_on_select,
            h.view.label == h.entity + 3,
            final(cx).cur() == old(cx).cur(),
            final(cx)@ == trigger_nodes(old(cx)@.push(NodeView::fresh(Tag::Select, old(cx).cur() as nat)),
                h.entity as nat, shown_text(texts(items@), selected, Seq::empty()), show_handle),
    {
        let e = cx.add(Tag::Select);
        let placeholder = String::new();
        let text = shown_string(&items, selected, &placeholder);
        let label = build_trigger(cx, e, text, show_handle, true);
        Handle {
            entity: e,
            view: Select {
                items,
                selected,
                placeholder,
                is_open: false,
                min_selected: 0,
                max_selected: usize::MAX,
                has_on_select: false,
                label,
            },
        }
    }

    /// Handles an event.
    pub fn event(&mut self, event: SelectEvent) -> (r: SelectResponse)
        ensures
            final(self).is_open == select_open_after(old(self).is_open, event),
            final(self).items@ == old(self).items@,
            final(self).selected == old(self).selected,
            final(self).placeholder@ == old(self).placeholder@,
            final(self).has_on_select == old(self).has_on_select,
            final(self).label == old(self).label,
            r == select_response(old(self).has_on_select, event),
    {
        select_event(&mut self.is_open, self.has_on_select, event)
    }
}

impl Handle<Select> {
    /// Sets the text shown while no option is chosen.
    pub fn placeholder(self, cx: &mut Context, placeholder: String) -> (h: Handle<Select>)
        requires
            (self.view.label as int) < old(cx)@.len(),
        ensures
            h.entity == self.entity,
            h.view.placeholder@ == placeholder@,
            h.view.items@ == self.view.items@,
            h.view.selected == self.view.selected,
            h.view.label == self.view.label,
            final(cx).cur() == old(cx).cur(),
            final(cx)@ == old(cx)@.update(self.view.label as int, old(cx)@[self.view.label as int]
                .with_text(shown_text(texts(self.view.items@), self.view.selected, placeholder@))),
    {
        let mut h = self;
        let text = shown_string(&h.view.items, h.view.selected, &placeholder);
        cx.set_text(h.view.label, text);
        h.view.placeholder = placeholder;
        h
    }

    /// Attaches the callback that receives the chosen option.
    pub fn on_select(self) -> (h: Handle<Select>)
        ensures
            h.entity == self.entity,
            h.view.has_on_select,
            h.view.items@ == self.view.items@,
            h.view.selected == self.view.selected,
            h.view.label == self.view.label,
    {
        let mut h = self;
        h.view.has_on_select = true;
        h
    }

    /// Sets the fewest options the list may hold chosen.
    pub fn min_selected(self, min_selected: usize) -> (h: Handle<Select>)
        ensures
            h.entity == self.entity,
            h.view.min_selected == min_selected,
            h.view.max_selected == self.view.max_selected,
            h.view.items@ == self.view.items@,
            h.view.selected == self.view.selected,
            h.view.label == self.view.label,
    {
        let mut h = self;
        h.view.min_selected = min_selected;
        h
    }

    /// Sets the most options the list may hold chosen.
    pub fn max_selected(self, max_selected: usize) -> (h: Handle<Select>)
        ensures
            h.entity == self.entity,
            h.view.max_selected == max_selected,
            h.view.min_selected == self.view.min_selected,
            h.view.items@ == self.view.items@,
            h.view.selected == self.view.selected,
            h.view.label == self.view.label,
    {
        let mut h = self;
        h.view.max_selected = max_selected;
        h
    }
}

} // verus!
