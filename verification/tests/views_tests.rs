use vizia_views::inspector::{Inspector, InspectorAction, InspectorEvent, InspectorTab};
use vizia_views::keybind::{chord_labels, KeyChord};
use vizia_views::knob::KnobMode;
use vizia_views::markdown::{parents_from_depths, Markdown, MdKind, MdNode};
use vizia_views::media::{svg_key, Svg};
use vizia_views::press::Key;
use vizia_views::rating::{Rating, RatingEvent};
use vizia_views::reorderable::{DropData, DropSource, DropTarget, ReorderableList, ReorderableListEvent};
use vizia_views::table::{
    next_sort_direction, sort_indicator, Table, TableColumn, TableEvent, TableModifiers, TableResponse, TableSortCycle,
    TableSortDirection, TableSortState,
};
use vizia_views::text::decimal_string;
use vizia_views::ui::{Class, Context, Role, Tag};

fn reorderable(n: usize) -> (Context, vizia_views::ui::Handle<ReorderableList>) {
    let mut cx = Context::new();
    let h = ReorderableList::new(&mut cx, n);
    (cx, h)
}

#[test]
fn reorderable_list_layout() {
    let (cx, h) = reorderable(2);
    assert_eq!(h.entity, 1);
    assert_eq!(cx.element(1), Tag::ReorderableList);
    assert_eq!(cx.role(1), Role::ListBox);
    assert!(cx.is_navigable(1));
    assert_eq!(h.view.first_row, 9);
    assert_eq!(h.view.indicator, 11);
    assert_eq!(cx.len(), 12);
    assert!(cx.has_class(9, Class::ReorderableListItem));
    assert!(cx.has_class(10, Class::ReorderableListItem));
    assert_eq!(cx.parent(9), 8);
    assert!(cx.has_class(11, Class::ReorderIndicator));
    assert!(!cx.is_displayed(11));
    // The horizontal scrollbar is hidden, the vertical one shown.
    assert!(!cx.is_displayed(h.view.scrollbars.1));
    assert!(cx.is_displayed(h.view.scrollbars.0));
}

#[test]
fn dragging_picks_the_zone_of_the_row() {
    let (_cx, h) = reorderable(3);
    let mut list = h.view;
    let data = Some(DropData::Reorder { source_list: 1, source_item: 9, source_index: 0 });
    // A row from 100 to 140; the list starts at 20.
    assert_eq!(list.drag_move(1, 1, 10, data, 100, 40, 105, 20), Some(160));
    assert_eq!(list.drop_target, Some(DropTarget::Before(1)));
    assert_eq!(list.dragged_item, Some(9));
    assert_eq!(list.drag_move(1, 1, 10, data, 100, 40, 135, 20), Some(240));
    assert_eq!(list.drop_target, Some(DropTarget::After(1)));
    assert_eq!(list.drag_move(1, 1, 10, data, 100, 40, 120, 20), Some(200));
    assert_eq!(list.drop_target, Some(DropTarget::Onto(1)));
    // Over its own row the middle splits into before and after.
    assert_eq!(list.drag_move(1, 0, 9, data, 100, 40, 115, 20), Some(160));
    assert_eq!(list.drop_target, Some(DropTarget::Before(0)));
    assert_eq!(list.drag_move(1, 0, 9, data, 100, 40, 120, 20), Some(240));
    assert_eq!(list.drop_target, Some(DropTarget::After(0)));
    // Outside the row nothing changes but the dragged row.
    assert_eq!(list.drag_move(1, 2, 11, data, 100, 40, 141, 20), None);
    assert_eq!(list.drop_target, Some(DropTarget::After(0)));
    list.drag_leave(true);
    assert_eq!(list.drop_target, None);
}

#[test]
fn drags_from_other_lists_need_permission() {
    let (_cx, h) = reorderable(3);
    let mut list = h.view;
    let foreign = Some(DropData::Reorder { source_list: 50, source_item: 52, source_index: 1 });
    assert_eq!(list.drag_move(1, 0, 9, foreign, 0, 40, 5, 0), None);
    assert_eq!(list.dragged_item, None);
    assert_eq!(list.drag_move(1, 0, 9, Some(DropData::Other), 0, 40, 5, 0), None);
    list.accept_external_reorder = true;
    assert_eq!(list.drag_move(1, 0, 9, foreign, 0, 40, 5, 0), Some(0));
    assert_eq!(list.dragged_item, Some(52));
}

#[test]
fn drop_reports_source_and_target_then_clears() {
    let (_cx, h) = reorderable(3);
    let h = h.on_row_drop();
    let mut list = h.view;
    let d = list.drag_start(1, 2, 11);
    assert_eq!(d, DropData::Reorder { source_list: 1, source_item: 11, source_index: 2 });
    assert_eq!(list.row_dropped(1, 0, 9, d, 100, 40, 120, 100), Some(40));
    assert_eq!(list.drop_target, Some(DropTarget::Onto(0)));
    let r = list.event(1, ReorderableListEvent::Drop(d));
    assert_eq!(r, Some((DropSource::Internal(2), DropTarget::Onto(0))));
    assert_eq!(list.drop_target, None);
    assert_eq!(list.dragged_item, None);

    // A drop of the dragged row onto its own middle puts it before itself.
    assert_eq!(list.row_dropped(1, 2, 11, d, 100, 40, 125, 100), Some(0));
    assert_eq!(list.drop_target, Some(DropTarget::Before(2)));

    // An index past the end of this list is not reported.
    let bad = DropData::Reorder { source_list: 1, source_item: 11, source_index: 7 };
    assert_eq!(list.event(1, ReorderableListEvent::Drop(bad)), None);

    // A row of another list is reported as external when accepted.
    list.accept_external_reorder = true;
    list.drop_target = Some(DropTarget::After(1));
    let other = DropData::Reorder { source_list: 40, source_item: 41, source_index: 7 };
    assert_eq!(list.event(1, ReorderableListEvent::Drop(other)), Some((DropSource::External(40, 7), DropTarget::After(1))));
    list.drop_target = Some(DropTarget::After(1));
    assert_eq!(list.event(1, ReorderableListEvent::ClearDropState), None);
    assert_eq!(list.drop_target, None);
}

#[test]
fn refresh_marks_rows_and_indicator() {
    let (mut cx, h) = reorderable(3);
    let mut h = h;
    h.view.drop_target = Some(DropTarget::Onto(1));
    h.view.dragged_item = Some(9);
    h.refresh(&mut cx);
    assert!(cx.has_class(10, Class::ReorderDropTarget));
    assert!(cx.has_class(10, Class::ReorderDropOnto));
    assert!(!cx.has_class(9, Class::ReorderDropTarget));
    assert!(cx.has_class(9, Class::ReorderDragSource));
    assert!(cx.is_displayed(12));
    assert!(cx.has_class(12, Class::ReorderIndicatorActive));
    assert!(cx.has_class(1, Class::ReorderDropActive));
    h.view.drop_target = None;
    h.view.dragged_item = None;
    h.refresh(&mut cx);
    assert!(!cx.has_class(10, Class::ReorderDropTarget));
    assert!(!cx.has_class(9, Class::ReorderDragSource));
    assert!(!cx.is_displayed(12));
    assert!(!cx.has_class(1, Class::ReorderDropActive));
}

fn node(kind: MdKind, parent: Option<usize>) -> MdNode {
    MdNode { kind, parent }
}

#[test]
fn markdown_builds_nested_nodes() {
    let mut cx = Context::new();
    let doc = vec![
        node(MdKind::Paragraph, None),
        node(MdKind::Text(String::from("hi")), Some(0)),
        node(MdKind::Other, None),
        node(MdKind::Text(String::from("hidden")), Some(2)),
        node(MdKind::Item, None),
        node(MdKind::Text(String::from("a")), Some(4)),
        node(MdKind::CodeBlock(String::from("let x\n")), None),
        node(MdKind::Heading(2), None),
    ];
    let h = Markdown::build(&mut cx, doc);
    assert_eq!(h.entity, 1);
    assert_eq!(cx.element(1), Tag::Markdown);
    assert_eq!(h.view.built, vec![Some(2), Some(3), None, None, Some(4), Some(7), Some(8), Some(15)]);
    assert!(cx.has_class(2, Class::P));
    assert_eq!(cx.text(3).as_str(), "hi");
    assert_eq!(cx.parent(3), 2);
    assert!(cx.has_class(4, Class::Li));
    assert_eq!(cx.text(5).as_str(), "\u{2022} ");
    assert_eq!(cx.parent(7), 6);
    assert_eq!(cx.element(8), Tag::ScrollView);
    assert!(!cx.is_displayed(10));
    assert_eq!(cx.text(14).as_str(), "let x");
    assert_eq!(cx.parent(14), 9);
    assert!(cx.has_class(14, Class::Code));
    assert!(cx.has_class(15, Class::H2));
    assert_eq!(cx.len(), 16);
}

#[test]
fn markdown_table_rows() {
    let mut cx = Context::new();
    let doc = vec![
        node(MdKind::Table, None),
        node(MdKind::TableRow(true), Some(0)),
        node(MdKind::TableCell, Some(1)),
        node(MdKind::TableRow(false), Some(0)),
    ];
    let h = Markdown::build(&mut cx, doc);
    assert_eq!(h.view.built, vec![Some(2), Some(3), Some(6), Some(7)]);
    assert!(cx.has_class(2, Class::Table));
    assert!(cx.has_class(3, Class::TableHeaders));
    assert_eq!(cx.element(4), Tag::Divider);
    assert_eq!(cx.parent(4), 2);
    assert!(cx.has_class(6, Class::TableCell));
    assert_eq!(cx.parent(6), 3);
    assert!(!cx.has_class(7, Class::TableHeaders));
}

#[test]
fn inspector_lists_subtree_with_levels() {
    let mut cx = Context::new();
    let stack = cx.add(Tag::VStack);
    cx.set_current(stack);
    let label = cx.add(Tag::Label);
    cx.add_class(label, Class::P);
    let sibling = cx.add(Tag::Button);
    cx.set_current(label);
    let span = cx.add(Tag::TextSpan);
    cx.set_current(0);
    let _other = cx.add(Tag::Button);
    let h = Inspector::new(&mut cx, stack);
    // Depth first: the span below the label comes before the label's later sibling.
    let entities: Vec<usize> = h.view.views.iter().map(|v| v.entity).collect();
    assert_eq!(entities, vec![stack, label, span, sibling]);
    let levels: Vec<usize> = h.view.views.iter().map(|v| v.level).collect();
    assert_eq!(levels, vec![0, 1, 2, 1]);
    assert_eq!(h.view.views[1].element, Tag::Label);
    assert_eq!(h.view.views[1].classes, vec![Class::P]);
    assert_eq!(h.view.tab, InspectorTab::Styles);
    assert_eq!(cx.element(h.entity), Tag::Inspector);

    let mut ins = h.view;
    assert_eq!(ins.event(InspectorEvent::SetSelected(1)), Some(InspectorAction::Inspect(label)));
    assert_eq!(ins.selected, Some(1));
    assert_eq!(ins.event(InspectorEvent::SetHovered(2)), Some(InspectorAction::Outline(span)));
    assert_eq!(ins.event(InspectorEvent::SelectTab(InspectorTab::Computed)), None);
    assert_eq!(ins.tab, InspectorTab::Computed);
    assert_eq!(ins.event(InspectorEvent::MouseOut), Some(InspectorAction::ClearOutline));
    assert_eq!(ins.event(InspectorEvent::SetHoverRect(0, 0, 1, 1)), None);
}

#[test]
fn rating_wraps_both_ways() {
    let mut cx = Context::new();
    let mut h = Rating::new(&mut cx, 3, 3).on_change();
    assert_eq!(h.event(&mut cx, RatingEvent::Increment), Some(0));
    assert_eq!(h.view.rating, 0);
    assert_eq!(h.event(&mut cx, RatingEvent::Decrement), Some(3));
    assert_eq!(h.event(&mut cx, RatingEvent::SetRating(2)), None);
    assert_eq!(h.view.rating, 2);
    assert_eq!(h.event(&mut cx, RatingEvent::EmitRating), Some(2));
}

#[test]
fn sort_directions_cycle() {
    let (u, a, d0) = (TableSortDirection::Unsorted, TableSortDirection::Ascending, TableSortDirection::Descending);
    assert_eq!(next_sort_direction(TableSortCycle::BiState, u), a);
    assert_eq!(next_sort_direction(TableSortCycle::BiState, a), d0);
    assert_eq!(next_sort_direction(TableSortCycle::BiState, d0), a);
    let mut d = u;
    for expected in [a, d0, u, a] {
        d = next_sort_direction(TableSortCycle::TriState, d);
        assert_eq!(d, expected);
    }
    assert_eq!(sort_indicator(a).as_str(), "^");
    assert_eq!(sort_indicator(d0).as_str(), "v");
}

#[test]
fn decimal_text_of_numbers() {
    assert_eq!(decimal_string(0).as_str(), "0");
    assert_eq!(decimal_string(1907).as_str(), "1907");
    assert_eq!(decimal_string(-42).as_str(), "-42");
}

#[test]
fn svg_keys_are_hexadecimal_hashes() {
    assert_eq!(svg_key(0).as_str(), "0");
    assert_eq!(svg_key(255).as_str(), "ff");
    assert_eq!(svg_key(0x1a2b).as_str(), "1a2b");
    let mut cx = Context::new();
    let a = Svg::new(&mut cx, b"<svg/>");
    let b = Svg::new(&mut cx, b"<svg/>");
    let c = Svg::new(&mut cx, b"<svg></svg>");
    assert_eq!(a.view.key, b.view.key);
    assert_ne!(a.view.key, c.view.key);
    assert!(a.view.key.chars().all(|ch| ch.is_ascii_hexdigit()));
    assert_eq!(cx.element(a.entity), Tag::Svg);
}

#[test]
fn chord_labels_name_modifiers_then_key() {
    let c = KeyChord { logo: false, ctrl: true, shift: true, alt: false, code: Key::ArrowUp };
    let labels = chord_labels(c);
    assert_eq!(labels, vec!["Ctrl", "+", "Shift", "+", "ArrowUp"]);
    let plain = KeyChord { logo: false, ctrl: false, shift: false, alt: false, code: Key::Escape };
    assert_eq!(chord_labels(plain), vec!["Esc"]);
}

#[test]
fn knob_mode_defaults_to_continuous() {
    assert_eq!(KnobMode::default(), KnobMode::Continuous);
    assert_ne!(KnobMode::Discrete(5), KnobMode::Continuous);
    assert_ne!(KnobMode::Discrete(5), KnobMode::Discrete(4));
}

#[test]
fn table_builds_headers_rows_and_cells() {
    let mut cx = Context::new();
    let columns = vec![
        TableColumn::new(1, "Name".to_string()),
        TableColumn::new(2, "Secret".to_string()).hidden(true),
        TableColumn::new(3, "Size".to_string()).sortable(false),
    ];
    let h = Table::new(&mut cx, vec![10, 20, 30], columns);
    assert_eq!(h.entity, 1);
    assert_eq!(cx.element(1), Tag::Table);
    assert!(cx.has_class(2, Class::TableHeaderRow));
    assert_eq!(h.view.header_columns, vec![0, 2]);
    assert_eq!(h.view.header_cells.len(), 2);
    let first = h.view.header_cells[0];
    let last = h.view.header_cells[1];
    assert!(cx.has_class(first, Class::TableHeaderCell) && cx.has_class(first, Class::Sortable));
    assert!(cx.has_class(last, Class::TableHeaderCell) && !cx.has_class(last, Class::Sortable));
    assert!(!cx.has_class(first, Class::Resizable));
    assert!(cx.has_class(h.view.body, Class::TableBody));
    assert_eq!(h.view.row_nodes.len(), 3);
    for (i, &r) in h.view.row_nodes.iter().enumerate() {
        assert!(cx.has_class(r, Class::TableRow));
        assert_eq!(cx.has_class(r, Class::Even), i % 2 == 0);
        assert_eq!(cx.has_class(r, Class::Odd), i % 2 == 1);
        assert_eq!(cx.parent(r), h.view.body + 2 + i);
        for m in 0..2 {
            assert!(cx.has_class(r + 1 + m, Class::TableCell));
            assert_eq!(cx.parent(r + 1 + m), r);
        }
    }
    assert_eq!(h.view.header_press(0), Some(TableEvent::RequestSort(1, TableSortDirection::Ascending)));
    assert_eq!(h.view.header_press(2), None);
    let h = h.on_sort().on_row_select();
    assert_eq!(
        h.view.event(TableEvent::RequestSort(1, TableSortDirection::Ascending)),
        TableResponse { on_sort: Some(TableSortState { key: 1, direction: TableSortDirection::Ascending }), on_row_select: None }
    );
    assert_eq!(h.view.event(TableEvent::SelectRow(1)), TableResponse { on_sort: None, on_row_select: Some(20) });
    assert_eq!(h.view.event(TableEvent::SelectRow(3)), TableResponse { on_sort: None, on_row_select: None });
}

#[test]
fn markdown_parents_follow_depths() {
    assert_eq!(
        parents_from_depths(&vec![1, 2, 3, 2, 1, 2]),
        vec![None, Some(0), Some(1), Some(0), None, Some(4)]
    );
}

#[test]
fn markdown_parses_text() {
    let doc = Markdown::parse("# Title\n\nHello *world*\n");
    assert_eq!(
        doc,
        vec![
            node(MdKind::Heading(1), None),
            node(MdKind::Text(String::from("Title")), Some(0)),
            node(MdKind::Paragraph, None),
            node(MdKind::Text(String::from("Hello ")), Some(2)),
            node(MdKind::Emph, Some(2)),
            node(MdKind::Text(String::from("world")), Some(4)),
        ]
    );
    let mut cx = Context::new();
    let h = Markdown::new(&mut cx, "```\nlet x\n```\n").unwrap();
    assert_eq!(h.view.doc, vec![node(MdKind::CodeBlock(String::from("let x\n")), None)]);
    assert!(cx.has_class(h.view.built[0].unwrap() + 6, Class::Code));
    assert_eq!(cx.text(h.view.built[0].unwrap() + 6).as_str(), "let x");
}

#[test]
fn markdown_refuses_empty_code_block() {
    let doc = vec![node(MdKind::CodeBlock(String::new()), None)];
    assert!(!Markdown::code_blocks_checked(&doc));
    let mut cx = Context::new();
    assert!(Markdown::new(&mut cx, "```\n```\n").is_none());
    assert_eq!(cx.len(), 1);
}

#[test]
fn markdown_show_checks_code_blocks() {
    let mut cx = Context::new();
    assert!(Markdown::show(&mut cx, vec![node(MdKind::CodeBlock(String::new()), None)]).is_none());
    assert_eq!(cx.len(), 1);
    let hidden = vec![node(MdKind::Other, None), node(MdKind::CodeBlock(String::new()), Some(0))];
    let h = Markdown::show(&mut cx, hidden).unwrap();
    assert_eq!(h.view.built, vec![None, None]);
    assert_eq!(cx.len(), 2);
}
