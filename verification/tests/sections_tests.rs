use vizia_views::accordion::{Accordion, AccordionAction, AccordionEvent, AccordionPair};
use vizia_views::collapsible::{Collapsible, CollapsibleEvent};
use vizia_views::colorpicker::{Color, ColorPicker, ColorPickerEvent};
use vizia_views::notification::{Notification, NotificationEvent};
use vizia_views::number_input::NumberInput;
use vizia_views::popup::{PopupData, PopupEvent};
use vizia_views::ui::{Class, Context, Icon, Tag};

fn pair(h: &str, c: &str) -> AccordionPair {
    AccordionPair::new(String::from(h), String::from(c))
}

#[test]
fn accordion_opens_one_section_at_a_time() {
    let mut cx = Context::new();
    let pairs = vec![pair("One", "first"), pair("Two", "second"), pair("Three", "third")];
    let mut h = Accordion::new(&mut cx, &pairs);
    assert_eq!(h.view.sections.len(), 3);
    let sections = h.view.sections.clone();
    for s in &sections {
        assert_eq!(cx.element(*s), Tag::Collapsible);
        assert!(!cx.has_class(*s, Class::Open));
    }
    let focused = 0;
    assert_eq!(h.event(&mut cx, focused, AccordionEvent::SetOpen(Some(1))), AccordionAction::Nothing);
    assert_eq!(h.view.open_index, Some(1));
    assert!(cx.has_class(sections[1], Class::Open));
    assert!(!cx.has_class(sections[0], Class::Open));
    h.event(&mut cx, focused, AccordionEvent::SetOpen(Some(2)));
    assert!(!cx.has_class(sections[1], Class::Open));
    assert!(cx.has_class(sections[2], Class::Open));
    h.event(&mut cx, focused, AccordionEvent::SetOpen(None));
    assert!(sections.iter().all(|s| !cx.has_class(*s, Class::Open)));
}

#[test]
fn accordion_moves_focus_between_headers_and_wraps() {
    let mut cx = Context::new();
    let pairs = vec![pair("One", "first"), pair("Two", "second")];
    let mut h = Accordion::new(&mut cx, &pairs);
    let headers: Vec<usize> = h.view.header_entities.iter().map(|x| x.unwrap()).collect();
    let last = headers[1];
    assert_eq!(h.event(&mut cx, last, AccordionEvent::FocusNextHeader), AccordionAction::Focus(Some(headers[0])));
    assert_eq!(h.event(&mut cx, headers[0], AccordionEvent::FocusPrevHeader), AccordionAction::Focus(Some(last)));
    assert_eq!(h.event(&mut cx, headers[0], AccordionEvent::FocusLastHeader), AccordionAction::Focus(Some(last)));
    // Focus outside every header moves nowhere.
    assert_eq!(h.event(&mut cx, 0, AccordionEvent::FocusNextHeader), AccordionAction::Nothing);
    h.event(&mut cx, 0, AccordionEvent::ClearHeaders);
    assert!(h.view.header_entities.is_empty());
    h.event(&mut cx, 0, AccordionEvent::RegisterHeader(2, 40));
    assert_eq!(h.view.header_entities, vec![None, None, Some(40)]);
}

#[test]
fn collapsible_toggles_open_class() {
    let mut cx = Context::new();
    let mut h = Collapsible::new(&mut cx, String::from("Details"));
    assert!(!h.view.is_open);
    h.event(&mut cx, CollapsibleEvent::ToggleOpen);
    assert!(h.view.is_open);
    assert!(cx.has_class(h.entity, Class::Open));
    h.event(&mut cx, CollapsibleEvent::ToggleOpen);
    assert!(!cx.has_class(h.entity, Class::Open));
}

#[test]
fn notification_shows_and_hides_its_content() {
    let mut cx = Context::new();
    let mut h = Notification::new(&mut cx, String::from("Saved"), Some(String::from("All changes saved.")));
    let (button, icon) = h.view.expand.unwrap();
    let container = h.view.container.unwrap();
    assert!(!cx.is_displayed(container));
    h.event(&mut cx, NotificationEvent::ToggleContainer);
    assert!(cx.is_displayed(container));
    assert!(cx.is_checked(button));
    h.event(&mut cx, NotificationEvent::ToggleContainer);
    assert!(!cx.is_displayed(container));
    let _ = icon;
    let mut cx2 = Context::new();
    let plain = Notification::new(&mut cx2, String::from("Hi"), None);
    assert!(plain.view.expand.is_none());
    assert!(plain.view.container.is_none());
    let _ = Icon::Close;
}

#[test]
fn color_picker_reports_only_with_callback() {
    let mut cx = Context::new();
    let h = ColorPicker::new(&mut cx);
    let c = Color { r: 1, g: 2, b: 3, a: 255 };
    assert_eq!(h.view.event(ColorPickerEvent::SetColor(c)), None);
    let h = h.on_change();
    assert_eq!(h.view.event(ColorPickerEvent::SetColor(c)), Some(c));
}

#[test]
fn number_input_range_and_two_way_binding() {
    let mut cx = Context::new();
    let h = NumberInput::new(&mut cx, 42);
    assert_eq!(cx.text(h.entity + 1).as_str(), "42");
    let h = h.range(0, 100);
    assert!(h.view.accepts(100, false));
    assert!(!h.view.accepts(101, true));
    let h = h.validate();
    assert!(!h.view.accepts(50, false));
    assert!(h.view.accepts(50, true));
    let h = h.max(60);
    assert!(!h.view.accepts(50, false));
    assert!(h.view.accepts(50, true));
    assert!(!h.view.accepts(61, true));
    let mut v = h.view;
    v.submitted(7);
    assert_eq!(v.value, 42);
    let mut cx2 = Context::new();
    let mut w = NumberInput::new(&mut cx2, 1).two_way().view;
    w.submitted(7);
    assert_eq!(w.value, 7);
}

#[test]
fn popup_state_switches() {
    let mut p = PopupData { is_open: false };
    assert!(p.event(PopupEvent::Switch));
    assert!(p.is_open);
    p.event(PopupEvent::Open);
    assert!(p.is_open);
    p.event(PopupEvent::Switch);
    assert!(!p.is_open);
    p.event(PopupEvent::Close);
    assert!(!p.is_open);
}
