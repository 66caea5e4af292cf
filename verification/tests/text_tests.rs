use vizia_views::breadcrumb::{
    apply_truncation, build_trail, Breadcrumb, BreadcrumbAction, BreadcrumbItem, BreadcrumbModifiers, RenderedCrumb,
    TruncationStrategy,
};
use vizia_views::popup::{AvailablePlacement, BOTTOM, LEFT, TOP, TOP_START};
use vizia_views::textbox::{
    byte_offset_to_char_index, byte_to_grapheme_index, diff_removed_range, grapheme_index_to_byte, range_display_to_real, TextMovement, Textbox,
};
use vizia_views::textbox_event::{KeyMods, TextCommand, TextKey, TextboxInput};
use vizia_views::timepicker::{DigitalTimepicker, DigitalTimepickerEvent, Time};
use vizia_views::ui::{Class, Context, Placement, Tag};

fn items(labels: &[&str]) -> Vec<BreadcrumbItem> {
    labels.iter().map(|l| BreadcrumbItem::new(String::from(*l))).collect()
}

fn shape(r: &[RenderedCrumb]) -> Vec<String> {
    r.iter()
        .map(|c| match c {
            RenderedCrumb::Item(i) => format!("{}:{}", i.index, i.item.label),
            RenderedCrumb::Overflow { label, hidden_items } => {
                let hidden: Vec<String> = hidden_items.iter().map(|i| i.index.to_string()).collect();
                format!("{}[{}]", label, hidden.join(","))
            }
        })
        .collect()
}

#[test]
fn truncation_in_the_middle_keeps_ends() {
    let trail = items(&["a", "b", "c", "d", "e", "f"]);
    let s = TruncationStrategy::Middle { max_visible: 4, ellipsis: String::from("...") };
    assert_eq!(shape(&apply_truncation(&trail, &s)), vec!["0:a", "1:b", "...[2,3,4]", "5:f"]);
    let s = TruncationStrategy::Middle { max_visible: 3, ellipsis: String::from("~") };
    assert_eq!(shape(&apply_truncation(&trail, &s)), vec!["0:a", "~[1,2,3,4]", "5:f"]);
}

#[test]
fn truncation_at_start_and_end() {
    let trail = items(&["a", "b", "c", "d"]);
    let s = TruncationStrategy::Start { max_visible: 3, ellipsis: String::from("...") };
    assert_eq!(shape(&apply_truncation(&trail, &s)), vec!["...[0,1]", "2:c", "3:d"]);
    let s = TruncationStrategy::End { max_visible: 2, ellipsis: String::from("...") };
    assert_eq!(shape(&apply_truncation(&trail, &s)), vec!["0:a", "...[1,2,3]"]);
}

#[test]
fn short_trails_are_not_truncated() {
    let trail = items(&["a", "b"]);
    for s in [
        TruncationStrategy::Full,
        TruncationStrategy::Middle { max_visible: 2, ellipsis: String::from("...") },
        TruncationStrategy::End { max_visible: 1, ellipsis: String::from("...") },
    ] {
        assert_eq!(shape(&apply_truncation(&trail, &s)), vec!["0:a", "1:b"]);
    }
    let custom = TruncationStrategy::Custom(items(&["x"]));
    assert_eq!(shape(&apply_truncation(&trail, &custom)), vec!["0:x"]);
}

#[test]
fn popups_fall_back_to_free_placements() {
    let all = AvailablePlacement::all();
    assert_eq!(Placement::Bottom.place(all), Placement::Bottom);
    let mut only_top = AvailablePlacement { bits: 0 };
    assert!(only_top.is_empty());
    assert_eq!(Placement::Bottom.place(only_top), Placement::Over);
    only_top.set(TOP, true);
    assert!(only_top.can_place(Placement::Top));
    assert!(!only_top.can_place(Placement::Bottom));
    // Below does not fit: the popup flips above.
    assert_eq!(Placement::Bottom.place(only_top), Placement::Top);
    let mut left_or_start = AvailablePlacement { bits: 0 };
    left_or_start.set(LEFT, true);
    left_or_start.set(TOP_START, true);
    assert_eq!(Placement::TopEnd.place(left_or_start), Placement::TopStart);
    assert_eq!(Placement::Over.place(left_or_start), Placement::Over);
    left_or_start.set(TOP_START, false);
    assert_eq!(left_or_start.bits, LEFT);
    let _ = BOTTOM;
}

#[test]
fn placement_fallback_order() {
    assert_eq!(Placement::Bottom.next(Placement::Bottom), Placement::BottomStart);
    assert_eq!(Placement::Top.next(Placement::Bottom), Placement::TopStart);
    assert_eq!(Placement::from_int(7), Placement::Right);
    assert_eq!(Placement::from_int(40), Placement::Cursor);
    assert_eq!(Placement::LeftEnd.index(), 11);
}

fn masked(mask: char) -> Textbox {
    let mut t = Textbox::holding(String::from("secret"));
    t.mask_char = Some(mask);
    t
}

#[test]
fn masks_cover_whole_graphemes() {
    let t = masked('*');
    // An "e" with a combining accent is one grapheme.
    assert_eq!(t.mask_str(&String::from("e\u{301}x")).as_str(), "**");
    assert_eq!(t.mask_str(&String::from("ab\ncd")).as_str(), "**\n**");
    let mut shown = masked('*');
    shown.mask_visible = true;
    assert_eq!(shown.mask_str(&String::from("ab")).as_str(), "ab");
    assert_eq!(Textbox::holding(String::from("ab")).mask_str(&String::from("ab")).as_str(), "ab");
}

#[test]
fn grapheme_and_byte_positions() {
    let s = String::from("ae\u{301}b");
    assert_eq!(grapheme_index_to_byte(&s, 0), 0);
    assert_eq!(grapheme_index_to_byte(&s, 1), 1);
    assert_eq!(grapheme_index_to_byte(&s, 2), 4);
    assert_eq!(grapheme_index_to_byte(&s, 9), 5);
    assert_eq!(byte_to_grapheme_index(&s, 0), 0);
    assert_eq!(byte_to_grapheme_index(&s, 2), 2);
    assert_eq!(byte_to_grapheme_index(&s, 4), 2);
    assert_eq!(byte_to_grapheme_index(&s, 5), 3);
    // Two masked graphemes select the first two graphemes of the value.
    assert_eq!(range_display_to_real(&String::from("**"), &String::from("e\u{301}z"), 0, 1), (0, 3));
}

#[test]
fn removed_range_of_a_deletion() {
    assert_eq!(diff_removed_range("hello", "helo"), (3, 4));
    assert_eq!(diff_removed_range("abcdef", "abef"), (2, 4));
    assert_eq!(diff_removed_range("same", "same"), (4, 4));
    assert_eq!(diff_removed_range("x\u{e9}y", "xy"), (1, 3));
}

#[test]
fn textbox_placeholder_shows_for_empty_text() {
    assert!(Textbox::holding(String::new()).show_placeholder);
    assert!(!Textbox::holding(String::from("a")).show_placeholder);
    let t = masked('*');
    assert_eq!(t.clamp_insert_text(&String::from("xyz"), 0, 0).as_str(), "xyz");
}

#[test]
fn digital_timepicker_steps() {
    let mut cx = Context::new();
    let p = DigitalTimepicker::new(&mut cx).on_change().view;
    let t = |hour: u32, minute: u32| Time { hour, minute, second: 30 };
    assert_eq!(p.event(t(11, 59), DigitalTimepickerEvent::IncrementHour), Some(t(0, 59)));
    assert_eq!(p.event(t(23, 59), DigitalTimepickerEvent::IncrementHour), Some(t(12, 59)));
    assert_eq!(p.event(t(10, 59), DigitalTimepickerEvent::IncrementMinutes), Some(t(10, 0)));
    assert_eq!(p.event(t(0, 0), DigitalTimepickerEvent::DecrementHour), Some(t(11, 0)));
    assert_eq!(p.event(t(12, 0), DigitalTimepickerEvent::DecrementHour), Some(t(23, 0)));
    assert_eq!(p.event(t(10, 0), DigitalTimepickerEvent::DecrementMinutes), Some(t(10, 59)));
    assert_eq!(p.event(t(10, 5), DigitalTimepickerEvent::ToggleAMOrPM), Some(t(22, 5)));
    assert_eq!(p.event(t(10, 5), DigitalTimepickerEvent::SetHour(12)), Some(t(0, 5)));
    assert_eq!(p.event(t(10, 5), DigitalTimepickerEvent::SetMinutes(45)), Some(t(10, 45)));
    let silent = DigitalTimepicker::new(&mut cx).view;
    assert_eq!(silent.event(t(10, 5), DigitalTimepickerEvent::IncrementHour), None);
}

#[test]
fn typing_replaces_the_same_graphemes_of_the_value() {
    let mut t = masked('*');
    // The value "secret" shows as six masks; select the second and third.
    let shown = t.insert_text(&String::from("******"), 1, 3, &String::from("XY"));
    assert_eq!(t.real_text.as_str(), "sXYret");
    assert_eq!(shown.as_str(), "**");
    assert!(!t.show_placeholder);
}

#[test]
fn typing_respects_the_maximum_length() {
    let mut t = Textbox::holding(String::from("abc"));
    t.max_length = Some(4);
    let shown = t.insert_text(&String::from("abc"), 3, 3, &String::from("de\u{301}f"));
    assert_eq!(t.real_text.as_str(), "abcd");
    assert_eq!(shown.as_str(), "d");
    // Replacing one grapheme leaves room for one grapheme of the typed text.
    let shown = t.insert_text(&String::from("abcd"), 0, 1, &String::from("e\u{301}zz"));
    assert_eq!(t.real_text.as_str(), "e\u{301}bcd");
    assert_eq!(shown.as_str(), "e\u{301}");
}

#[test]
fn typing_over_the_placeholder_starts_fresh() {
    let mut t = Textbox::holding(String::new());
    t.placeholder = String::from("Name");
    assert!(t.show_placeholder);
    let shown = t.insert_text(&String::from("Name"), 0, 4, &String::from("Jo"));
    assert_eq!(t.real_text.as_str(), "Jo");
    assert_eq!(shown.as_str(), "Jo");
    assert!(!t.show_placeholder);
}

#[test]
fn deletions_follow_the_shown_text() {
    let mut t = masked('*');
    // The editor removed one mask; the shown texts differ at their end.
    let removed = t.delete_text(&String::from("******"), &String::from("*****"));
    assert_eq!(removed, (5, 6));
    assert_eq!(t.real_text.as_str(), "secre");
    let mut plain = Textbox::holding(String::from("ae\u{301}b"));
    let removed = plain.delete_text(&String::from("ae\u{301}b"), &String::from("ab"));
    assert_eq!(removed, (1, 4));
    assert_eq!(plain.real_text.as_str(), "ab");
    // Deleting everything brings the placeholder back.
    let mut one = Textbox::holding(String::from("x"));
    one.delete_text(&String::from("x"), &String::new());
    assert_eq!(one.real_text.as_str(), "");
    assert!(one.show_placeholder);
    // Nothing changes while the placeholder shows.
    let mut empty = Textbox::holding(String::new());
    empty.delete_text(&String::from("hint"), &String::from("hin"));
    assert_eq!(empty.real_text.as_str(), "");
}

#[test]
fn copying_takes_the_value_not_the_mask() {
    let t = masked('*');
    assert_eq!(t.clone_selected(&String::from("******"), 2, 5).as_str(), "cre");
    assert_eq!(t.clone_selected(&String::from("******"), 4, 4).as_str(), "");
    let mut r = masked('*');
    r.placeholder = String::from("Password");
    assert_eq!(r.reset_text().as_str(), "Password");
    assert_eq!(r.real_text.as_str(), "");
    assert!(r.show_placeholder);
    r.show_placeholder = false;
    r.clear_preedit();
    assert!(r.show_placeholder);
}

#[test]
fn resync_keeps_the_selection_on_the_same_graphemes() {
    let mut t = Textbox::holding(String::from("ae\u{301}b"));
    // The shown text is already the value.
    assert!(t.resync_display_text(&String::from("ae\u{301}b"), 0, 1).is_none());
    // Masking shows one mask per grapheme; the selection of "e\u{301}" follows.
    t.mask_char = Some('*');
    let (shown, a, f) = t.resync_display_text(&String::from("ae\u{301}b"), 1, 4).unwrap();
    assert_eq!(shown.as_str(), "***");
    assert_eq!((a, f), (1, 2));
}

#[test]
fn textbox_event_edit_cycle() {
    let plain = KeyMods { shift: false, ctrl: false, alt: false, logo: false };
    let ctrl = KeyMods { shift: false, ctrl: true, alt: false, logo: false };
    let mut t = Textbox::holding(String::from("12"));
    t.has_on_submit = true;
    let r = t.event(TextboxInput::FocusIn { pressed_here: false }, true);
    assert_eq!(r.emit, Some(TextCommand::StartEdit));
    let r = t.event(TextboxInput::StartEdit { disabled: false }, true);
    assert!(t.edit && r.take_focus);
    assert_eq!(r.set_valid, Some(true));
    let r = t.event(TextboxInput::CharInput { c: 'x', mods: plain, read_only: false }, true);
    assert_eq!(r.emit, Some(TextCommand::InsertChar('x')));
    let r = t.event(TextboxInput::CharInput { c: '\u{8}', mods: plain, read_only: false }, true);
    assert_eq!(r.emit, None);
    let r = t.event(TextboxInput::KeyDown { key: TextKey::Enter, mods: plain, read_only: false }, true);
    assert_eq!(r.emit, Some(TextCommand::Submit(true)));
    let r = t.event(TextboxInput::Submit(true), false);
    assert_eq!((r.set_valid, r.on_submit), (Some(false), None));
    let r = t.event(TextboxInput::Submit(true), true);
    assert_eq!(r.on_submit, Some(true));
    let r = t.event(TextboxInput::KeyDown { key: TextKey::ArrowLeft, mods: ctrl, read_only: false }, true);
    assert_eq!(r.emit, Some(TextCommand::MoveCursor(TextMovement::WordLeft, false)));
    let r = t.event(TextboxInput::KeyDown { key: TextKey::Backspace, mods: plain, read_only: true }, true);
    assert_eq!(r.emit, None);
    let r = t.event(TextboxInput::KeyDown { key: TextKey::Escape, mods: plain, read_only: false }, true);
    assert_eq!(r.emit, Some(TextCommand::EndEdit));
    let r = t.event(TextboxInput::Blur, true);
    assert_eq!((r.emit, r.emit_after), (Some(TextCommand::Submit(false)), Some(TextCommand::EndEdit)));
    let r = t.event(TextboxInput::EndEdit, true);
    assert!(!t.edit && r.release);
    assert_eq!(r.set_valid, None);
}

#[test]
fn byte_offsets_map_to_characters() {
    let lens = [1u8, 2, 1];
    assert_eq!(byte_offset_to_char_index(&lens, 0), 0);
    assert_eq!(byte_offset_to_char_index(&lens, 1), 1);
    assert_eq!(byte_offset_to_char_index(&lens, 2), 1);
    assert_eq!(byte_offset_to_char_index(&lens, 3), 2);
    assert_eq!(byte_offset_to_char_index(&lens, 4), 3);
    assert_eq!(byte_offset_to_char_index(&lens, 10), 3);
}

#[test]
fn grapheme_indices_round_trip() {
    let text = String::from("he\u{301}llo");
    assert_eq!(grapheme_index_to_byte(&text, 2), 4);
    assert_eq!(byte_to_grapheme_index(&text, 4), 2);
    assert_eq!(grapheme_index_to_byte(&text, 10), text.len());
    assert_eq!(byte_to_grapheme_index(&text, text.len()), 5);
    for i in 0..7 {
        let b = grapheme_index_to_byte(&text, i);
        assert_eq!(byte_to_grapheme_index(&text, b), i.min(5));
    }
}

#[test]
fn breadcrumb_builds_its_trail() {
    let mut cx = Context::new();
    let items = vec![
        BreadcrumbItem::new(String::from("Home")),
        BreadcrumbItem::disabled(String::from("Docs")),
        BreadcrumbItem::new(String::from("Page")),
    ];
    let h = Breadcrumb::new(&mut cx, items);
    assert_eq!(h.entity, 1);
    assert_eq!(cx.len(), 7);
    assert_eq!(cx.text(2).as_str(), "Home");
    assert!(cx.has_class(2, Class::BreadcrumbItem) && !cx.has_class(2, Class::Disabled));
    assert_eq!(cx.text(3).as_str(), "/");
    assert!(cx.has_class(3, Class::BreadcrumbSeparator));
    assert_eq!(cx.text(4).as_str(), "Docs");
    assert!(cx.has_class(4, Class::Disabled));
    assert_eq!(cx.text(6).as_str(), "Page");
    assert_eq!(cx.parent(6), 1);
    let h = h.on_item_click();
    assert_eq!(h.view.item_click(0), vec![BreadcrumbAction::OnItemClick(0)]);
    assert!(h.view.item_click(1).is_empty());
    assert!(h.view.item_click(3).is_empty());
}

#[test]
fn breadcrumb_overflow_dropdown_lists_hidden_items() {
    let items: Vec<BreadcrumbItem> = ["a", "b", "c", "d", "e"].iter().map(|t| BreadcrumbItem::new(t.to_string())).collect();
    let crumbs = apply_truncation(&items, &TruncationStrategy::Middle { max_visible: 3, ellipsis: String::from("...") });
    let mut cx = Context::new();
    let root = cx.add(Tag::Breadcrumb);
    build_trail(&mut cx, root, &String::from(">"), &crumbs);
    let dropdown = (1..cx.len()).find(|&e| cx.has_class(e, Class::BreadcrumbOverflowDropdown)).unwrap();
    assert_eq!(cx.element(dropdown), Tag::Dropdown);
    assert_eq!(cx.text(dropdown + 2).as_str(), "...");
    assert!(cx.has_class(dropdown + 3, Class::BreadcrumbOverflowList));
    let hidden: Vec<usize> = (1..cx.len()).filter(|&e| cx.has_class(e, Class::BreadcrumbOverflowItem)).collect();
    assert!(!hidden.is_empty());
    for e in hidden {
        assert_eq!(cx.parent(e), dropdown + 3);
    }
}
