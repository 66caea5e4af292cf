use vizia_views::list::{List, ListAction, ListEvent, Selectable};
use vizia_views::sorted::{sorted_contains, sorted_insert, sorted_remove};
use vizia_views::ui::{Class, Context, Role, Tag};

fn list_of(n: usize) -> List {
    let mut cx = Context::new();
    List::new(&mut cx, n).view
}

#[test]
fn list_builds_items_under_scroll_view() {
    let mut cx = Context::new();
    let h = List::new(&mut cx, 3);
    assert_eq!(h.entity, 1);
    assert_eq!(cx.len(), 6);
    assert_eq!(cx.element(1), Tag::List);
    assert_eq!(cx.role(1), Role::List);
    assert!(cx.is_navigable(1));
    assert_eq!(cx.element(2), Tag::ScrollView);
    for i in 3..6 {
        assert_eq!(cx.element(i), Tag::ListItem);
        assert_eq!(cx.parent(i), 2);
        assert!(!cx.is_checked(i));
        assert!(!cx.has_class(i, Class::Focused));
    }
    assert_eq!(h.view.num_items, 3);
    assert!(h.view.selection.is_empty());
    assert_eq!(h.view.focused, None);
}

#[test]
fn single_selection_replaces_and_deselects() {
    let mut cx = Context::new();
    let h = List::new(&mut cx, 4).selectable(Selectable::Single).on_select();
    let mut list = h.view;
    let actions = list.event(ListEvent::Select(2));
    assert_eq!(list.selection, vec![2]);
    assert_eq!(list.focused, Some(2));
    assert_eq!(actions, vec![ListAction::Focus, ListAction::OnSelect(2)]);

    let actions = list.event(ListEvent::Select(1));
    assert_eq!(list.selection, vec![1]);
    assert_eq!(actions, vec![ListAction::Focus, ListAction::OnSelect(1)]);

    // Selecting the selected item again deselects it, as nothing has to stay selected.
    let actions = list.event(ListEvent::Select(1));
    assert!(list.selection.is_empty());
    assert_eq!(list.focused, None);
    assert_eq!(actions, vec![ListAction::Focus]);
}

#[test]
fn single_selection_with_minimum_keeps_item() {
    let mut cx = Context::new();
    let h = List::new(&mut cx, 4).selectable(Selectable::Single).min_selected(1);
    let mut list = h.view;
    // The minimum fills in the first item.
    assert_eq!(list.selection, vec![0]);
    list.event(ListEvent::Select(0));
    assert_eq!(list.selection, vec![0]);
    list.event(ListEvent::ClearSelection);
    assert_eq!(list.selection, vec![0]);
}

#[test]
fn multi_selection_respects_maximum() {
    let mut cx = Context::new();
    let h = List::new(&mut cx, 5).selectable(Selectable::Multi).max_selected(2);
    let mut list = h.view;
    list.event(ListEvent::Select(4));
    list.event(ListEvent::Select(1));
    assert_eq!(list.selection, vec![1, 4]);
    // A third item does not fit.
    let actions = list.event(ListEvent::Select(3));
    assert_eq!(list.selection, vec![1, 4]);
    assert_eq!(actions, vec![ListAction::Focus]);
    // Deselecting the focused item moves focus to the largest selected item.
    list.event(ListEvent::Select(1));
    assert_eq!(list.selection, vec![4]);
    assert_eq!(list.focused, Some(4));
    list.event(ListEvent::ClearSelection);
    assert!(list.selection.is_empty());
}

#[test]
fn focus_moves_and_stops_at_ends() {
    let mut list = list_of(3);
    list.event(ListEvent::FocusPrev);
    assert_eq!(list.focused, Some(2));
    list.event(ListEvent::FocusNext);
    assert_eq!(list.focused, Some(2));
    list.event(ListEvent::FocusPrev);
    list.event(ListEvent::FocusPrev);
    list.event(ListEvent::FocusPrev);
    assert_eq!(list.focused, Some(0));

    let mut other = list_of(3);
    other.event(ListEvent::FocusNext);
    assert_eq!(other.focused, Some(0));
}

#[test]
fn selection_follows_focus_asks_for_selection() {
    let mut cx = Context::new();
    let h = List::new(&mut cx, 3).selectable(Selectable::Single).selection_follows_focus(true);
    let mut list = h.view;
    let actions = list.event(ListEvent::FocusNext);
    assert_eq!(actions, vec![ListAction::EmitSelectFocused]);
    let actions = list.event(ListEvent::SelectFocused);
    assert_eq!(actions, vec![ListAction::EmitSelect(0)]);
}

#[test]
fn disabled_list_never_selects() {
    let mut list = list_of(3);
    let actions = list.event(ListEvent::Select(1));
    assert!(list.selection.is_empty());
    assert_eq!(actions, vec![ListAction::Focus]);
    assert_eq!(list.selection_limits(), (0, 0));
}

#[test]
fn selection_modifier_normalizes() {
    let mut cx = Context::new();
    let h = List::new(&mut cx, 4).selectable(Selectable::Multi).max_selected(2);
    let h = h.selection(&vec![3, 9, 0, 2]);
    // Index 9 is past the end; the largest is dropped to keep two.
    assert_eq!(h.view.selection, vec![0, 2]);
    assert_eq!(h.view.focused, Some(2));
}

#[test]
fn sorted_vector_operations() {
    let mut v: Vec<usize> = Vec::new();
    sorted_insert(&mut v, 5);
    sorted_insert(&mut v, 1);
    sorted_insert(&mut v, 3);
    sorted_insert(&mut v, 3);
    assert_eq!(v, vec![1, 3, 5]);
    assert!(sorted_contains(&v, 3));
    assert!(!sorted_contains(&v, 4));
    sorted_remove(&mut v, 3);
    sorted_remove(&mut v, 7);
    assert_eq!(v, vec![1, 5]);
}
