use vizia_views::button::{clickable_event, Button};
use vizia_views::combobox::{ComboBox, ComboBoxEvent, ComboInput};
use vizia_views::list::first_difference;
use vizia_views::press::{Action, PressContext, PressEvent, PressResponse};
use vizia_views::resizable_stack::{ResizableStack, ResizableStackEvent, ResizeStackDirection};
use vizia_views::sidebar::Sidebar;
use vizia_views::spinbox::{Spinbox, SpinboxEvent};
use vizia_views::tabview::{TabListEvent, TabPair, TabResponse, TabView};
use vizia_views::toggle::Checkbox;
use vizia_views::ui::{Class, Context, Role, Tag};

fn press_cx(current: usize, target: usize) -> PressContext {
    PressContext { current, target, pressed: current, focused: current, disabled: false }
}

const NOTHING: PressResponse = PressResponse { focus: false, capture: false, release: false, callback: false };

#[test]
fn buttons_run_their_callback_on_press() {
    let mut cx = Context::new();
    let b = Button::new(&mut cx, String::from("OK")).on_press();
    assert_eq!(cx.role(b.entity), Role::Button);
    assert!(cx.is_navigable(b.entity));
    let here = press_cx(b.entity, b.entity);
    assert_eq!(b.view.event(PressEvent::PressDown { mouse: true }, here), PressResponse { focus: true, ..NOTHING });
    assert_eq!(b.view.event(PressEvent::Press { mouse: true }, here), PressResponse { callback: true, ..NOTHING });
    assert_eq!(b.view.event(PressEvent::Press { mouse: true }, press_cx(b.entity, 0)), NOTHING);
    assert_eq!(b.view.event(PressEvent::ActionRequest(Action::Click), here), PressResponse { callback: true, ..NOTHING });
    assert_eq!(clickable_event(false, PressEvent::Press { mouse: false }, here), NOTHING);
}

#[test]
fn checkboxes_toggle_like_buttons() {
    let mut cx = Context::new();
    let c = Checkbox::new(&mut cx, true);
    assert!(cx.is_checked(c.entity));
    let here = press_cx(c.entity, c.entity);
    assert_eq!(c.view.event(PressEvent::Press { mouse: false }, here), NOTHING);
    let c = c.on_toggle();
    assert_eq!(c.view.event(PressEvent::Press { mouse: false }, here), PressResponse { callback: true, ..NOTHING });
}

#[test]
fn spinbox_steps_within_range() {
    let mut cx = Context::new();
    let s = Spinbox::new(&mut cx, 9).min(0).max(10).on_change().on_increment();
    assert_eq!(s.view.event(SpinboxEvent::Increment).on_change, Some(10));
    assert!(s.view.event(SpinboxEvent::Increment).on_increment);
    assert_eq!(s.view.event(SpinboxEvent::SetMin).on_change, Some(0));
    assert_eq!(s.view.event(SpinboxEvent::SetMax).on_change, Some(10));
    assert_eq!(s.view.clamp_value(42), 10);
    assert_eq!(s.view.clamp_value(-3), 0);
    let mut top = s.view;
    top.value = 10;
    assert_eq!(top.event(SpinboxEvent::Increment).on_change, Some(10));
    assert_eq!(top.event(SpinboxEvent::Decrement).on_change, Some(9));
}

#[test]
fn resizable_stack_drags_from_its_edge() {
    let mut cx = Context::new();
    let h = ResizableStack::new(&mut cx, ResizeStackDirection::Right);
    assert_eq!(cx.element(h.entity + 1), Tag::ResizeHandle);
    assert!(cx.has_class(h.entity, Class::Right));
    assert!(cx.has_class(h.entity, Class::Vertical));
    let mut s = h.view;
    let r = s.event(ResizableStackEvent::StartDrag { cursor_x: 100, cursor_y: 0, size: 200 });
    assert!(r.begin_capture);
    assert_eq!(s.event(ResizableStackEvent::MouseMove { x: 130, y: 0 }).on_drag, Some(230));
    // Sizes of five pixels or less are not asked for.
    assert_eq!(s.event(ResizableStackEvent::MouseMove { x: -95, y: 0 }).on_drag, None);
    assert!(s.event(ResizableStackEvent::MouseUpLeft).emit_stop);
    assert!(s.event(ResizableStackEvent::StopDrag).end_capture);
    assert_eq!(s.event(ResizableStackEvent::MouseMove { x: 130, y: 0 }).on_drag, None);

    let mut cx = Context::new();
    let mut left = ResizableStack::new(&mut cx, ResizeStackDirection::Left).view;
    left.event(ResizableStackEvent::StartDrag { cursor_x: 100, cursor_y: 0, size: 200 });
    assert_eq!(left.event(ResizableStackEvent::MouseMove { x: 130, y: 0 }).on_drag, Some(170));
}

#[test]
fn sidebar_has_header_content_and_footer() {
    let mut cx = Context::new();
    let h = Sidebar::new(&mut cx);
    assert_eq!(h.view.width, 200);
    assert!(cx.has_class(h.view.header, Class::SidebarHeader));
    assert!(cx.has_class(h.view.content, Class::SidebarContent));
    assert!(cx.has_class(h.view.footer, Class::SidebarFooter));
    let mut s = h.view;
    s.on_drag(320);
    assert_eq!(s.width, 320);
}

#[test]
fn combo_box_filters_ignoring_case() {
    let mut cx = Context::new();
    let items = vec![String::from("Apple"), String::from("banana"), String::from("Cherry"), String::from("grape")];
    let mut h = ComboBox::new(&mut cx, items, 1);
    assert_eq!(h.view.placeholder.as_str(), "banana");
    assert_eq!(h.view.filtered_indices(), vec![0, 1, 2, 3]);
    h.view.event(ComboInput::Combo(ComboBoxEvent::SetFilterText(String::from("AP"))));
    assert_eq!(h.view.filtered_indices(), vec![0, 3]);
    h.view.filter_text = String::from("rr");
    assert_eq!(h.view.filtered_indices(), vec![2]);
}

#[test]
fn list_values_keep_their_common_prefix() {
    assert_eq!(first_difference(&vec![1, 2, 3, 4], &vec![1, 2, 9, 4]), 2);
    assert_eq!(first_difference(&vec![1, 2], &vec![1, 2, 3]), 2);
    assert_eq!(first_difference(&vec![5, 6, 7], &vec![5]), 1);
    assert_eq!(first_difference(&vec![], &vec![1]), 0);
    assert_eq!(first_difference(&vec![3, 3], &vec![3, 3]), 2);
}

#[test]
fn focus_search_goes_depth_first() {
    let mut cx = Context::new();
    let a = cx.add(Tag::VStack);
    let b = cx.add(Tag::Button);
    cx.set_focusable(b, true);
    cx.set_current(a);
    let c = cx.add(Tag::Button);
    cx.set_focusable(c, true);
    cx.set_current(0);
    // The child of the first child comes before the second child.
    assert_eq!(vizia_views::tree::first_focusable_descendant(&cx, 0), Some(c));
    assert_eq!(vizia_views::tree::first_focusable_descendant(&cx, a), Some(c));
    assert_eq!(vizia_views::tree::first_focusable_descendant(&cx, b), None);
    cx.set_displayed(c, false);
    assert_eq!(vizia_views::tree::first_focusable_descendant(&cx, 0), Some(b));
}

#[test]
fn tab_view_builds_tabs_and_panels() {
    let mut cx = Context::new();
    let pairs = vec![
        TabPair::new("One".to_string(), "first".to_string()),
        TabPair::new("Two".to_string(), "second".to_string()).closeable(true),
    ];
    let mut h = TabView::new(&mut cx, &pairs);
    assert_eq!(h.entity, 1);
    assert_eq!(cx.element(1), Tag::TabView);
    assert_eq!(h.view.tabs.len(), 2);
    assert_eq!(h.view.panels.len(), 2);
    let (t0, t1) = (h.view.tabs[0], h.view.tabs[1]);
    assert_eq!(cx.element(t0), Tag::Tab);
    assert_eq!(cx.parent(t0), 5);
    assert!(cx.is_checked(t0));
    assert!(!cx.has_class(t0, Class::Closeable));
    assert_eq!(cx.text(t0 + 1).as_str(), "One");
    assert_eq!(cx.parent(t1), 6);
    assert!(!cx.is_checked(t1));
    assert!(cx.has_class(t1, Class::Closeable));
    assert_eq!(cx.text(t1 + 1).as_str(), "Two");
    let (p0, p1) = (h.view.panels[0], h.view.panels[1]);
    assert!(cx.is_displayed(p0) && !cx.is_hidden(p0));
    assert!(!cx.is_displayed(p1) && cx.is_hidden(p1));
    assert_eq!(cx.text(p0 + 1).as_str(), "first");
    assert_eq!(cx.text(p1 + 1).as_str(), "second");
    let r = h.event(&mut cx, TabListEvent::SetSelected(1));
    assert_eq!(r, TabResponse { on_select: None, on_close: None, consumed: true });
    assert!(!cx.is_displayed(p0) && cx.is_hidden(p0));
    assert!(cx.is_displayed(p1) && !cx.is_hidden(p1));
}

#[test]
fn tab_view_turns_vertical() {
    let mut cx = Context::new();
    let pairs = vec![TabPair::new("One".to_string(), "first".to_string()), TabPair::new("Two".to_string(), "second".to_string())];
    let h = TabView::new(&mut cx, &pairs);
    let (t0, t1, d) = (h.view.tabs[0], h.view.tabs[1], h.view.divider);
    assert_eq!(cx.element(d), Tag::Divider);
    assert!(!cx.has_class(1, Class::Vertical) && !cx.has_class(2, Class::Vertical));
    let h = h.vertical(&mut cx);
    assert!(h.view.is_vertical);
    for e in [1, 2, t0, t1, d] {
        assert!(cx.has_class(e, Class::Vertical));
    }
    assert!(!cx.has_class(h.view.panels[0], Class::Vertical));
}
