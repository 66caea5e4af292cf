//! Menus: a menu bar of submenus, each opening a popup menu of items and nested
//! submenus, with keyboard navigation between and inside them.

use vstd::prelude::*;
use crate::ui::{Class, Context, Handle, Icon, NodeView, Placement, Role, Tag};
use crate::label::{label_node, Label};
use crate::press::Key;
use crate::tree::{children, first_child, first_focusable, first_focusable_child, first_focusable_of, preorder_from,
    first_focusable_descendant, is_under, last_child, next_sibling_wrapped, prev_sibling_wrapped, sibling_wrapped,
    under_tag};

verus! {

/// Events that menus send each other.
#[derive(Clone, Copy, PartialEq, Eq, Structural, Debug)]
pub enum MenuEvent {
    ToggleOpen,
    Open,
    Close,
    CloseAndFocusTrigger,
    CloseAll,
    MenuIsOpen,
    FocusNext,
    FocusPrev,
    FocusFirst,
    FocusLast,
    TriggerArrowDown,
    TriggerArrowRight,
    TriggerArrowLeft,
    FocusNextMenuBarItem,
    FocusPrevMenuBarItem,
}

/// What a menu view asks for after an input.
#[derive(Clone, Copy, PartialEq, Eq, Structural, Debug)]
pub struct MenuResponse {
    /// Move focus to this node.
    pub focus: Option<usize>,
    /// Move focus to the handling view itself.
    pub focus_self: bool,
    /// Events emitted from the handling view, in order.
    pub emit: Option<MenuEvent>,
    pub emit_after: Option<MenuEvent>,
    /// Send `Close` to this node and everything below it.
    pub close_subtree: Option<usize>,
    /// Send `CloseAll` to this node alone.
    pub close_all_to: Option<usize>,
    /// Send `TriggerArrowDown` to this node alone.
    pub arrow_down_to: Option<usize>,
    /// Hide the enclosing modal menu.
    pub hide_modal_menu: bool,
    pub consumed: bool,
}

/// A response that does nothing.
pub open spec fn idle() -> MenuResponse {
    MenuResponse {
        focus: None,
        focus_self: false,
        emit: None,
        emit_after: None,
        close_subtree: None,
        close_all_to: None,
        arrow_down_to: None,
        hide_modal_menu: false,
        consumed: false,
    }
}

/// The exec form of [`idle`].
pub fn nothing_to_do() -> (r: MenuResponse)
    ensures
        r == idle(),
{
    MenuResponse {
        focus: None,
        focus_self: false,
        emit: None,
        emit_after: None,
        close_subtree: None,
        close_all_to: None,
        arrow_down_to: None,
        hide_modal_menu: false,
        consumed: false,
    }
}

/// What reaches a menu view's handler.
#[derive(Clone, Copy, PartialEq, Eq, Structural, Debug)]
pub enum MenuInput {
    Menu(MenuEvent),
    KeyDown(Key),
    /// Focus entered; `on_self` when the view itself is the target.
    FocusIn { on_self: bool },
    /// The pointer entered; `on_self` when the view itself is the target.
    MouseEnter { on_self: bool },
    /// A mouse button went down somewhere: `from_self` when on the view itself,
    /// `hovered_inside` when over one of its descendants.
    MouseDown { from_self: bool, hovered_inside: bool },
}

/// Whether a mouse press falls outside an open menu view.
pub open spec fn pressed_outside(open: bool, from_self: bool, hovered_inside: bool) -> bool {
    open && !from_self && !hovered_inside
}

/// A horizontal bar of menus.
pub struct MenuBar {
    pub is_open: bool,
    pub focused_item: Option<usize>,
}

/// The node of a menu bar under `parent`.
pub open spec fn menu_bar_node(parent: nat) -> NodeView {
    NodeView::fresh(Tag::MenuBar, parent).with_role(Role::MenuBar).with_navigable(true)
}

impl MenuBar {
    /// Builds a closed menu bar; its menus are built inside it afterwards.
    pub fn new(cx: &mut Context) -> (h: Handle<MenuBar>)
        requires
            old(cx)@.len() < usize::MAX,
        ensures
            h.entity == old(cx)@.len(),
            h.view == (MenuBar { is_open: false, focused_item: None }),
            final(cx).cur() == old(cx).cur(),
            final(cx)@ == old(cx)@.push(menu_bar_node(old(cx).cur() as nat)),
    {
        let e = cx.add_with_role(Tag::MenuBar, Role::MenuBar);
        cx.set_navigable(e, true);
        Handle { entity: e, view: MenuBar { is_open: false, focused_item: None } }
    }

    /// The state after an input to the menu bar at `me`.
    pub open spec fn after(self, s: Seq<NodeView>, me: int, input: MenuInput) -> MenuBar {
        match input {
            MenuInput::FocusIn { on_self } => match first_focusable(s, children(s, me), 0) {
                Some(f) if on_self => MenuBar { focused_item: Some(f as usize), ..self },
                _ => self,
            },
            MenuInput::Menu(MenuEvent::MenuIsOpen) => MenuBar { is_open: true, ..self },
            MenuInput::Menu(MenuEvent::CloseAll) => MenuBar { is_open: false, ..self },
            MenuInput::Menu(MenuEvent::FocusPrevMenuBarItem) => match self.focused_item {
                Some(c) => match sibling_wrapped(s, c as int, true) {
                    Some(n) => MenuBar { focused_item: Some(n as usize), ..self },
                    None => self,
                },
                None => self,
            },
            MenuInput::Menu(MenuEvent::FocusNextMenuBarItem) => match self.focused_item {
                Some(c) => match sibling_wrapped(s, c as int, false) {
                    Some(n) => MenuBar { focused_item: Some(n as usize), ..self },
                    None => self,
                },
                None => self,
            },
            _ => self,
        }
    }

    /// What the menu bar at `me` asks for after an input.
    pub open spec fn response(self, s: Seq<NodeView>, me: int, input: MenuInput) -> MenuResponse {
        match input {
            MenuInput::FocusIn { on_self } => match first_focusable(s, children(s, me), 0) {
                Some(f) if on_self => MenuResponse { focus: Some(f as usize), consumed: true, ..idle() },
                _ => idle(),
            },
            MenuInput::KeyDown(Key::ArrowLeft) => if !self.is_open {
                MenuResponse { emit: Some(MenuEvent::FocusPrevMenuBarItem), consumed: true, ..idle() }
            } else {
                idle()
            },
            MenuInput::KeyDown(Key::ArrowRight) => if !self.is_open {
                MenuResponse { emit: Some(MenuEvent::FocusNextMenuBarItem), consumed: true, ..idle() }
            } else {
                idle()
            },
            MenuInput::Menu(MenuEvent::CloseAll) => MenuResponse { close_subtree: Some(me as usize), ..idle() },
            MenuInput::Menu(MenuEvent::FocusPrevMenuBarItem) => self.moved(s, true),
            MenuInput::Menu(MenuEvent::FocusNextMenuBarItem) => self.moved(s, false),
            MenuInput::MouseDown { from_self, hovered_inside } => if pressed_outside(self.is_open, from_self, hovered_inside) {
                MenuResponse { emit: Some(MenuEvent::CloseAll), ..idle() }
            } else {
                idle()
            },
            _ => idle(),
        }
    }

    /// Moving along the bar: focus goes to the neighbouring item; while a menu is open,
    /// the menu of the item left is closed and the new item's menu opened.
    pub open spec fn moved(self, s: Seq<NodeView>, back: bool) -> MenuResponse {
        match self.focused_item {
            Some(c) => match sibling_wrapped(s, c as int, back) {
                Some(n) => if self.is_open {
                    MenuResponse { focus: Some(n as usize), close_subtree: Some(c), arrow_down_to: Some(n as usize), ..idle() }
                } else {
                    MenuResponse { focus: Some(n as usize), ..idle() }
                },
                None => idle(),
            },
            None => idle(),
        }
    }

    /// Moves along the bar, computed.
    fn move_focus(&mut self, cx: &Context, back: bool) -> (r: MenuResponse)
        requires
            old(self).focused_item matches Some(c) ==> (c as int) < cx@.len(),
        ensures
            r == old(self).moved(cx@, back),
            *final(self) == old(self).after(cx@, 0, MenuInput::Menu(
                if back { MenuEvent::FocusPrevMenuBarItem } else { MenuEvent::FocusNextMenuBarItem })),
            final(self).focused_item matches Some(c) ==> (c as int) < cx@.len(),
    {
        match self.focused_item {
            Some(c) => {
                let next = if back { prev_sibling_wrapped(cx, c) } else { next_sibling_wrapped(cx, c) };
                match next {
                    Some(n) => {
                        let mut r = nothing_to_do();
                        r.focus = Some(n);
                        if self.is_open {
                            r.close_subtree = Some(c);
                            r.arrow_down_to = Some(n);
                        }
                        self.focused_item = Some(n);
                        r
                    }
                    None => nothing_to_do(),
                }
            }
            None => nothing_to_do(),
        }
    }

    /// Handles an input to the menu bar at node `me`.
    pub fn event(&mut self, cx: &Context, me: usize, input: MenuInput) -> (r: MenuResponse)
        requires
            old(self).focused_item matches Some(c) ==> (c as int) < cx@.len(),
        ensures
            *final(self) == old(self).after(cx@, me as int, input),
            r == old(self).response(cx@, me as int, input),
            final(self).focused_item matches Some(c) ==> (c as int) < cx@.len(),
    {
        match input {
            MenuInput::FocusIn { on_self } => {
                if on_self {
                    match first_focusable_child(cx, me) {
                        Some(f) => {
                            self.focused_item = Some(f);
                            let mut r = nothing_to_do();
                            r.focus = Some(f);
                            r.consumed = true;
                            r
                        }
                        None => nothing_to_do(),
                    }
                } else {
                    nothing_to_do()
                }
            }
            MenuInput::KeyDown(Key::ArrowLeft) => {
                let mut r = nothing_to_do();
                if !self.is_open {
                    r.emit = Some(MenuEvent::FocusPrevMenuBarItem);
                    r.consumed = true;
                }
                r
            }
            MenuInput::KeyDown(Key::ArrowRight) => {
                let mut r = nothing_to_do();
                if !self.is_open {
                    r.emit = Some(MenuEvent::FocusNextMenuBarItem);
                    r.consumed = true;
                }
                r
            }
            MenuInput::Menu(MenuEvent::MenuIsOpen) => {
                self.is_open = true;
                nothing_to_do()
            }
            MenuInput::Menu(MenuEvent::CloseAll) => {
                self.is_open = false;
                let mut r = nothing_to_do();
                r.close_subtree = Some(me);
                r
            }
            MenuInput::Menu(MenuEvent::FocusPrevMenuBarItem) => self.move_focus(cx, true),
            MenuInput::Menu(MenuEvent::FocusNextMenuBarItem) => self.move_focus(cx, false),
            MenuInput::MouseDown { from_self, hovered_inside } => {
                let mut r = nothing_to_do();
                if self.is_open && !from_self && !hovered_inside {
                    r.emit = Some(MenuEvent::CloseAll);
                }
                r
            }
            _ => nothing_to_do(),
        }
    }
}

/// The keyboard bindings of an open menu's popup.
pub open spec fn menu_keymap(key: Key) -> Option<MenuEvent> {
    match key {
        Key::ArrowDown => Some(MenuEvent::FocusNext),
        Key::ArrowUp => Some(MenuEvent::FocusPrev),
        Key::Home => Some(MenuEvent::FocusFirst),
        Key::End => Some(MenuEvent::FocusLast),
        Key::Escape => Some(MenuEvent::CloseAndFocusTrigger),
        Key::ArrowLeft => Some(MenuEvent::TriggerArrowLeft),
        Key::Tab => Some(MenuEvent::CloseAll),
        _ => None,
    }
}

/// The keyboard bindings of a submenu's trigger.
pub open spec fn trigger_keymap(key: Key) -> Option<MenuEvent> {
    match key {
        Key::ArrowDown | Key::Space | Key::Enter => Some(MenuEvent::TriggerArrowDown),
        Key::ArrowRight => Some(MenuEvent::TriggerArrowRight),
        _ => None,
    }
}

/// The popup holding the items of an open menu.
pub struct Menu {
    pub placement: Placement,
    pub focus_on_open: bool,
}

impl Menu {
    /// Builds the popup of a menu: a popover with the menu role, placed at
    /// `placement`, without an arrow; its items are built inside it afterwards.
    pub fn new(cx: &mut Context, placement: Placement, focus_on_open: bool) -> (h: Handle<Menu>)
        requires
            old(cx)@.len() < usize::MAX,
        ensures
            h.entity == old(cx)@.len(),
            h.view == (Menu { placement, focus_on_open }),
            final(cx).cur() == old(cx).cur(),
            final(cx)@ == old(cx)@.push(NodeView::fresh(Tag::Popover, old(cx).cur() as nat).with_role(Role::Menu)),
    {
        let e = cx.add_with_role(Tag::Popover, Role::Menu);
        Handle { entity: e, view: Menu { placement, focus_on_open } }
    }

    /// The event a key pressed in an open menu emits.
    pub fn key_binding(key: Key) -> (r: Option<MenuEvent>)
        ensures
            r == menu_keymap(key),
    {
        match key {
            Key::ArrowDown => Some(MenuEvent::FocusNext),
            Key::ArrowUp => Some(MenuEvent::FocusPrev),
            Key::Home => Some(MenuEvent::FocusFirst),
            Key::End => Some(MenuEvent::FocusLast),
            Key::Escape => Some(MenuEvent::CloseAndFocusTrigger),
            Key::ArrowLeft => Some(MenuEvent::TriggerArrowLeft),
            Key::Tab => Some(MenuEvent::CloseAll),
            _ => None,
        }
    }
}

impl Handle<Menu> {
    /// Where focus goes once the menu's items are built: to the first focusable item
    /// below the popup, when the menu was opened from the keyboard.
    pub fn initial_focus(&self, cx: &Context) -> (r: Option<usize>)
        requires
            (self.entity as int) < cx@.len(),
        ensures
            r matches Some(x) ==> self.view.focus_on_open
                && first_focusable_of(cx@, preorder_from(cx@, self.entity as int, self.entity + 1)) == Some(x as int),
            r is None ==> !self.view.focus_on_open
                || first_focusable_of(cx@, preorder_from(cx@, self.entity as int, self.entity + 1)) is None,
    {
        if self.view.focus_on_open {
            first_focusable_descendant(cx, self.entity)
        } else {
            None
        }
    }
}

/// A menu item that opens a menu of its own.
pub struct Submenu {
    pub is_open: bool,
    pub focus_on_open: bool,
    pub open_on_hover: bool,
    pub is_submenu: bool,
}

impl Submenu {
    /// Where the popup of the submenu opens: to the right inside another submenu,
    /// below otherwise.
    pub open spec fn placement_spec(self) -> Placement {
        if self.is_submenu { Placement::RightStart } else { Placement::BottomStart }
    }

    /// Where the popup of the submenu opens.
    pub fn placement(&self) -> (p: Placement)
        ensures
            p == self.placement_spec(),
    {
        if self.is_submenu { Placement::RightStart } else { Placement::BottomStart }
    }

    /// Builds a closed submenu trigger showing `text`, with a right chevron: it can
    /// take focus, is reached by keyboard navigation only outside menu bars and other
    /// submenus, and opens on hover when it is inside another submenu.
    pub fn new(cx: &mut Context, text: String) -> (h: Handle<Submenu>)
        requires
            old(cx)@.len() + 2 < usize::MAX,
        ensures
            h.entity == old(cx)@.len(),
            ({
                let in_submenu = under_tag(old(cx)@, old(cx).cur() as int, Tag::Submenu);
                let in_bar = under_tag(old(cx)@, old(cx).cur() as int, Tag::MenuBar);
                &&& h.view == (Submenu { is_open: false, focus_on_open: false, open_on_hover: in_submenu, is_submenu: in_submenu })
                &&& final(cx)@ == old(cx)@
                    .push(NodeView::fresh(Tag::Submenu, old(cx).cur() as nat).with_focusable(true)
                        .with_navigable(!in_bar && !in_submenu).with_role(Role::MenuItem).with_checked(false))
                    .push(label_node(h.entity as nat, text@))
                    .push(NodeView::fresh(Tag::Svg, h.entity as nat).with_icon(Icon::ChevronRight).class(Class::Arrow))
            }),
            final(cx).cur() == old(cx).cur(),
    {
        let here = cx.current();
        let in_submenu = is_under(cx, here, Tag::Submenu);
        let in_bar = is_under(cx, here, Tag::MenuBar);
        let e = cx.add(Tag::Submenu);
        cx.set_current(e);
        let _label = Label::new(cx, text);
        cx.set_current(here);
        let arrow = cx.add_icon(e, Icon::ChevronRight);
        cx.add_class(arrow, Class::Arrow);
        cx.set_focusable(e, true);
        cx.set_navigable(e, !in_bar && !in_submenu);
        cx.set_role(e, Role::MenuItem);
        cx.set_checked(e, false);
        assert(cx@ =~= old(cx)@
            .push(NodeView::fresh(Tag::Submenu, old(cx).cur() as nat).with_focusable(true)
                .with_navigable(!in_bar && !in_submenu).with_role(Role::MenuItem).with_checked(false))
            .push(label_node(e as nat, text@))
            .push(NodeView::fresh(Tag::Svg, e as nat).with_icon(Icon::ChevronRight).class(Class::Arrow)));
        Handle {
            entity: e,
            view: Submenu { is_open: false, focus_on_open: false, open_on_hover: in_submenu, is_submenu: in_submenu },
        }
    }

    /// The event a key pressed on the trigger emits.
    pub fn key_binding(key: Key) -> (r: Option<MenuEvent>)
        ensures
            r == trigger_keymap(key),
    {
        match key {
            Key::ArrowDown | Key::Space | Key::Enter => Some(MenuEvent::TriggerArrowDown),
            Key::ArrowRight => Some(MenuEvent::TriggerArrowRight),
            _ => None,
        }
    }

    /// Follows the open state of the menu bar the submenu sits in: while a menu of the
    /// bar is open, the others open on hover.
    pub fn follow_menu_bar(&mut self, bar_open: bool)
        ensures
            *final(self) == (Submenu { open_on_hover: bar_open, ..*old(self) }),
    {
        self.open_on_hover = bar_open;
    }

    /// The state after an input.
    pub open spec fn after(self, input: MenuInput) -> Submenu {
        match input {
            MenuInput::MouseEnter { on_self } => if on_self && self.open_on_hover {
                Submenu { focus_on_open: false, ..self }
            } else {
                self
            },
            MenuInput::Menu(MenuEvent::TriggerArrowDown) => if !self.is_open && !self.is_submenu {
                Submenu { focus_on_open: true, is_open: true, ..self }
            } else {
                self
            },
            MenuInput::Menu(MenuEvent::TriggerArrowRight) => if self.is_submenu && !self.is_open {
                Submenu { focus_on_open: true, is_open: true, ..self }
            } else {
                self
            },
            MenuInput::Menu(MenuEvent::Open) => if !self.is_open {
                Submenu { focus_on_open: false, is_open: true, ..self }
            } else {
                self
            },
            MenuInput::Menu(MenuEvent::CloseAll) | MenuInput::Menu(MenuEvent::Close)
            | MenuInput::Menu(MenuEvent::CloseAndFocusTrigger) => Submenu { is_open: false, ..self },
            MenuInput::Menu(MenuEvent::ToggleOpen) => if !self.is_open {
                Submenu { is_open: true, focus_on_open: false, ..self }
            } else {
                Submenu { is_open: false, ..self }
            },
            _ => self,
        }
    }

    /// What the submenu at `me`, whose parent is `parent`, asks for after an input;
    /// `parent_is_bar` tells whether that parent is a menu bar and `focused` is the node
    /// holding the focus.
    pub open spec fn response(self, s: Seq<NodeView>, me: int, parent: int, parent_is_bar: bool, focused: int, input: MenuInput) -> MenuResponse {
        match input {
            MenuInput::MouseEnter { on_self } => if on_self && self.open_on_hover {
                MenuResponse { close_subtree: Some(parent as usize), emit: Some(MenuEvent::Open), ..idle() }
            } else {
                idle()
            },
            MenuInput::Menu(MenuEvent::TriggerArrowDown) => if self.is_open {
                MenuResponse { consumed: true, ..idle() }
            } else if !self.is_submenu {
                MenuResponse { emit: Some(MenuEvent::MenuIsOpen), consumed: true, ..idle() }
            } else {
                idle()
            },
            MenuInput::Menu(MenuEvent::TriggerArrowRight) => if self.is_submenu && !self.is_open {
                MenuResponse { emit: Some(MenuEvent::MenuIsOpen), consumed: true, ..idle() }
            } else {
                MenuResponse { consumed: true, ..idle() }
            },
            MenuInput::Menu(MenuEvent::TriggerArrowLeft) => MenuResponse {
                emit: Some(if parent_is_bar { MenuEvent::FocusPrevMenuBarItem } else { MenuEvent::CloseAndFocusTrigger }),
                consumed: true,
                ..idle()
            },
            MenuInput::Menu(MenuEvent::Open) => if !self.is_open {
                MenuResponse { emit: Some(MenuEvent::MenuIsOpen), consumed: true, ..idle() }
            } else {
                MenuResponse { consumed: true, ..idle() }
            },
            MenuInput::Menu(MenuEvent::CloseAll) => MenuResponse { close_subtree: Some(me as usize), ..idle() },
            MenuInput::Menu(MenuEvent::CloseAndFocusTrigger) => MenuResponse {
                focus_self: true,
                emit: if !self.is_submenu { Some(MenuEvent::CloseAll) } else { None },
                consumed: true,
                ..idle()
            },
            MenuInput::Menu(MenuEvent::FocusNext) => MenuResponse {
                focus: match sibling_wrapped(s, focused, false) { Some(x) => Some(x as usize), None => None },
                consumed: true,
                ..idle()
            },
            MenuInput::Menu(MenuEvent::FocusPrev) => MenuResponse {
                focus: match sibling_wrapped(s, focused, true) { Some(x) => Some(x as usize), None => None },
                consumed: true,
                ..idle()
            },
            MenuInput::Menu(MenuEvent::FocusFirst) => MenuResponse {
                focus: if focused == 0 || children(s, s[focused].parent as int).len() == 0 {
                    None
                } else {
                    Some(children(s, s[focused].parent as int)[0] as usize)
                },
                consumed: true,
                ..idle()
            },
            MenuInput::Menu(MenuEvent::FocusLast) => MenuResponse {
                focus: if focused == 0 || children(s, s[focused].parent as int).len() == 0 {
                    None
                } else {
                    let kids = children(s, s[focused].parent as int);
                    Some(kids[kids.len() - 1] as usize)
                },
                consumed: true,
                ..idle()
            },
            MenuInput::Menu(MenuEvent::ToggleOpen) => if !self.is_open {
                MenuResponse { emit: Some(MenuEvent::MenuIsOpen), consumed: true, ..idle() }
            } else {
                MenuResponse { close_all_to: Some(parent as usize), consumed: true, ..idle() }
            },
            MenuInput::MouseDown { from_self, hovered_inside } => if pressed_outside(self.is_open, from_self, hovered_inside) {
                MenuResponse { emit: Some(MenuEvent::CloseAll), emit_after: Some(MenuEvent::Close), ..idle() }
            } else {
                idle()
            },
            _ => idle(),
        }
    }
}

/// The first or last sibling of `focused`, computed.
fn end_sibling(cx: &Context, focused: usize, last: bool) -> (r: Option<usize>)
    requires
        (focused as int) < cx@.len(),
    ensures
        r == if focused == 0 || children(cx@, cx@[focused as int].parent as int).len() == 0 {
            None
        } else if last {
            Some(children(cx@, cx@[focused as int].parent as int)[children(cx@, cx@[focused as int].parent as int).len() - 1] as usize)
        } else {
            Some(children(cx@, cx@[focused as int].parent as int)[0] as usize)
        },
{
    if focused == 0 {
        return None;
    }
    let p = cx.parent(focused);
    if last { last_child(cx, p) } else { first_child(cx, p) }
}

impl Handle<Submenu> {
    /// Handles an input; `focused` is the node holding the focus and `parent_is_bar`
    /// tells whether the submenu's parent is a menu bar.
    pub fn event(&mut self, cx: &Context, focused: usize, parent_is_bar: bool, input: MenuInput) -> (r: MenuResponse)
        requires
            (old(self).entity as int) < cx@.len(),
            (focused as int) < cx@.len(),
        ensures
            final(self).entity == old(self).entity,
            final(self).view == old(self).view.after(input),
            r == old(self).view.response(cx@, old(self).entity as int, cx@[old(self).entity as int].parent as int,
                parent_is_bar, focused as int, input),
    {
        let me = self.entity;
        let mut r = nothing_to_do();
        match input {
            MenuInput::MouseEnter { on_self } => {
                if on_self && self.view.open_on_hover {
                    let parent = cx.parent(me);
                    r.close_subtree = Some(parent);
                    self.view.focus_on_open = false;
                    r.emit = Some(MenuEvent::Open);
                }
            }
            MenuInput::Menu(MenuEvent::TriggerArrowDown) => {
                if self.view.is_open {
                    r.consumed = true;
                } else if !self.view.is_submenu {
                    self.view.focus_on_open = true;
                    self.view.is_open = true;
                    r.emit = Some(MenuEvent::MenuIsOpen);
                    r.consumed = true;
                }
            }
            MenuInput::Menu(MenuEvent::TriggerArrowRight) => {
                if self.view.is_submenu && !self.view.is_open {
                    self.view.focus_on_open = true;
                    self.view.is_open = true;
                    r.emit = Some(MenuEvent::MenuIsOpen);
                }
                r.consumed = true;
            }
            MenuInput::Menu(MenuEvent::TriggerArrowLeft) => {
                r.emit = Some(if parent_is_bar { MenuEvent::FocusPrevMenuBarItem } else { MenuEvent::CloseAndFocusTrigger });
                r.consumed = true;
            }
            MenuInput::Menu(MenuEvent::Open) => {
                if !self.view.is_open {
                    self.view.focus_on_open = false;
                    self.view.is_open = true;
                    r.emit = Some(MenuEvent::MenuIsOpen);
                }
                r.consumed = true;
            }
            MenuInput::Menu(MenuEvent::CloseAll) => {
                self.view.is_open = false;
                r.close_subtree = Some(me);
            }
            MenuInput::Menu(MenuEvent::Close) => {
                self.view.is_open = false;
            }
            MenuInput::Menu(MenuEvent::CloseAndFocusTrigger) => {
                self.view.is_open = false;
                r.focus_self = true;
                if !self.view.is_submenu {
                    r.emit = Some(MenuEvent::CloseAll);
                }
                r.consumed = true;
            }
            MenuInput::Menu(MenuEvent::FocusNext) => {
                r.focus = next_sibling_wrapped(cx, focused);
                r.consumed = true;
            }
            MenuInput::Menu(MenuEvent::FocusPrev) => {
                r.focus = prev_sibling_wrapped(cx, focused);
                r.consumed = true;
            }
            MenuInput::Menu(MenuEvent::FocusFirst) => {
                r.focus = end_sibling(cx, focused, false);
                r.consumed = true;
            }
            MenuInput::Menu(MenuEvent::FocusLast) => {
                r.focus = end_sibling(cx, focused, true);
                r.consumed = true;
            }
            MenuInput::Menu(MenuEvent::ToggleOpen) => {
                let open = !self.view.is_open;
                self.view.is_open = open;
                if open {
                    self.view.focus_on_open = false;
                    r.emit = Some(MenuEvent::MenuIsOpen);
                } else {
                    let parent = cx.parent(me);
                    r.close_all_to = Some(parent);
                }
                r.consumed = true;
            }
            MenuInput::MouseDown { from_self, hovered_inside } => {
                if self.view.is_open && !from_self && !hovered_inside {
                    r.emit = Some(MenuEvent::CloseAll);
                    r.emit_after = Some(MenuEvent::Close);
                }
            }
            _ => {}
        }
        r
    }
}

/// A menu item that runs an action.
pub struct MenuButton {
    /// Whether an action is attached.
    pub has_action: bool,
}

impl MenuButton {
    /// Builds a menu item showing `text`: it can take focus and is not reached by
    /// keyboard navigation.
    pub fn new(cx: &mut Context, text: String) -> (h: Handle<MenuButton>)
        requires
            old(cx)@.len() + 1 < usize::MAX,
        ensures
            h.entity == old(cx)@.len(),
            h.view.has_action,
            final(cx).cur() == old(cx).cur(),
            final(cx)@ == old(cx)@
                .push(NodeView::fresh(Tag::MenuButton, old(cx).cur() as nat).with_focusable(true).with_role(Role::MenuItem))
                .push(label_node(h.entity as nat, text@)),
    {
        let here = cx.current();
        let e = cx.add(Tag::MenuButton);
        cx.set_current(e);
        let _label = Label::new(cx, text);
        cx.set_current(here);
        cx.set_focusable(e, true);
        cx.set_role(e, Role::MenuItem);
        assert(cx@ =~= old(cx)@
            .push(NodeView::fresh(Tag::MenuButton, old(cx).cur() as nat).with_focusable(true).with_role(Role::MenuItem))
            .push(label_node(e as nat, text@)));
        Handle { entity: e, view: MenuButton { has_action: true } }
    }

    /// Pressing the item: its action runs, then every menu closes.
    pub fn press(&self) -> (r: MenuResponse)
        ensures
            r == (MenuResponse { emit: Some(MenuEvent::CloseAll), emit_after: Some(MenuEvent::Close), hide_modal_menu: true, ..idle() }),
    {
        let mut r = nothing_to_do();
        r.emit = Some(MenuEvent::CloseAll);
        r.hide_modal_menu = true;
        r.emit_after = Some(MenuEvent::Close);
        r
    }
}

impl Handle<MenuButton> {
    /// Handles an input: entering with the pointer closes the open submenus next to
    /// the item; the right arrow moves along the menu bar.
    pub fn event(&self, cx: &Context, input: MenuInput) -> (r: MenuResponse)
        requires
            (self.entity as int) < cx@.len(),
        ensures
            r == match input {
                MenuInput::MouseEnter { on_self } => if on_self {
                    MenuResponse { close_subtree: Some(cx@[self.entity as int].parent as usize), ..idle() }
                } else {
                    idle()
                },
                MenuInput::KeyDown(Key::ArrowRight) => MenuResponse { emit: Some(MenuEvent::FocusNextMenuBarItem), ..idle() },
                _ => idle(),
            },
    {
        let mut r = nothing_to_do();
        match input {
            MenuInput::MouseEnter { on_self } => {
                if on_self {
                    r.close_subtree = Some(cx.parent(self.entity));
                }
            }
            MenuInput::KeyDown(Key::ArrowRight) => {
                r.emit = Some(MenuEvent::FocusNextMenuBarItem);
            }
            _ => {}
        }
        r
    }
}


/// On a closed menu bar the left arrow moves focus to the previous item and the right
/// arrow to the next (wrapping): each key is consumed and emits the event that, handled
/// by the bar, focuses that sibling of the focused item.
pub proof fn law_bar_arrows_move_opposite(b: MenuBar, s: Seq<NodeView>, me: int, c: usize)
    requires
        !b.is_open,
        b.focused_item == Some(c),
    ensures
        b.response(s, me, MenuInput::KeyDown(Key::ArrowLeft)).consumed,
        b.response(s, me, MenuInput::KeyDown(Key::ArrowRight)).consumed,
        b.response(s, me, MenuInput::KeyDown(Key::ArrowLeft)).emit matches Some(e)
            && b.after(s, me, MenuInput::Menu(e)).focused_item == match sibling_wrapped(s, c as int, true) {
                Some(n) => Some(n as usize),
                None => Some(c),
            },
        b.response(s, me, MenuInput::KeyDown(Key::ArrowRight)).emit matches Some(e)
            && b.after(s, me, MenuInput::Menu(e)).focused_item == match sibling_wrapped(s, c as int, false) {
                Some(n) => Some(n as usize),
                None => Some(c),
            },
{
}

} // verus!
