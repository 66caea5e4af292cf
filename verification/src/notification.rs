//! Notifications: a header with a close button and, when there is more to say, a
//! button that shows and hides the rest.

use vstd::prelude::*;
use crate::ui::{Class, Context, Handle, Icon, NodeView, Role, Tag};
use crate::label::{label_node, Label};
use crate::button::button_node;

verus! {

/// Events of a notification.
#[derive(Clone, Copy, PartialEq, Eq, Structural, Debug)]
pub enum NotificationEvent {
    ToggleContainer,
}

/// The icon of the expand button: down when open, right when closed.
pub open spec fn chevron(open: bool) -> Icon {
    if open { Icon::ChevronDown } else { Icon::ChevronRight }
}

/// An icon button under `parent` whose label draws `icon`.
pub open spec fn icon_button(s: Seq<NodeView>, parent: nat, icon: Icon) -> Seq<NodeView> {
    s.push(button_node(parent).class(Class::Icon))
        .push(NodeView::fresh(Tag::Label, s.len()).with_role(Role::Label).with_icon(icon).class(Class::Icon))
}

/// The nodes of a closed notification under `parent`: the notification, its header
/// row with the header label, the expand button when there is content, the close
/// button, and the hidden content row with its label when there is content.
pub open spec fn notification_nodes(s: Seq<NodeView>, parent: nat, header: Seq<char>, content: Option<Seq<char>>) -> Seq<NodeView> {
    let e = s.len();
    let row = s.push(NodeView::fresh(Tag::Notification, parent).with_navigable(true))
        .push(NodeView::fresh(Tag::HStack, e).with_role(Role::GenericContainer).class(Class::NotificationHeader))
        .push(label_node(e + 1, header));
    let expand = if content is Some { icon_button(row, e + 1, chevron(false)) } else { row };
    let close = icon_button(expand, e + 1, Icon::Close);
    match content {
        Some(t) => close.push(NodeView::fresh(Tag::HStack, e).with_role(Role::GenericContainer)
                .class(Class::NotificationContainer).with_displayed(false))
            .push(label_node(close.len(), t)),
        None => close,
    }
}

/// The expand button after the content was shown (`open`) or hidden.
pub open spec fn expand_shown(s: Seq<NodeView>, expand: Option<(usize, usize)>, open: bool) -> Seq<NodeView> {
    match expand {
        Some(p) => {
            let a = s.update(p.0 as int, s[p.0 as int].with_checked(open));
            a.update(p.1 as int, a[p.1 as int].with_icon(chevron(open)))
        }
        None => s,
    }
}

/// The notification's nodes after the content was shown (`open`) or hidden: the
/// expand button is checked and points down exactly when open, and the content row is
/// displayed exactly when open.
pub open spec fn notification_shown(s: Seq<NodeView>, expand: Option<(usize, usize)>, container: Option<usize>, open: bool) -> Seq<NodeView> {
    let a = expand_shown(s, expand, open);
    match container {
        Some(c) => a.update(c as int, a[c as int].with_displayed(open)),
        None => a,
    }
}

/// A message shown to the user.
pub struct Notification {
    pub container_open: bool,
    /// The expand button and its icon label, for a notification with content.
    pub expand: Option<(usize, usize)>,
    /// The row holding the content, for a notification with content.
    pub container: Option<usize>,
}

/// Appends an icon button under `parent`; returns the button and its label.
fn add_icon_button(cx: &mut Context, parent: usize, icon: Icon) -> (r: (usize, usize))
    requires
        (parent as int) < old(cx)@.len(),
        old(cx)@.len() + 1 < usize::MAX,
    ensures
        r.0 == old(cx)@.len(),
        r.1 == old(cx)@.len() + 1,
        final(cx).cur() == old(cx).cur(),
        final(cx)@ == icon_button(old(cx)@, parent as nat, icon),
{
    let b = cx.add_child(parent, Tag::Button);
    cx.set_role(b, Role::Button);
    cx.set_navigable(b, true);
    cx.add_class(b, Class::Icon);
    let l = cx.add_child(b, Tag::Label);
    cx.set_role(l, Role::Label);
    cx.set_icon(l, icon);
    cx.add_class(l, Class::Icon);
    assert(cx@ =~= icon_button(old(cx)@, parent as nat, icon));
    (b, l)
}

impl Notification {
    /// Builds a closed notification.
    pub fn new(cx: &mut Context, header: String, content: Option<String>) -> (h: Handle<Notification>)
        requires
            old(cx)@.len() + 10 < usize::MAX,
        ensures
            h.entity == old(cx)@.len(),
            !h.view.container_open,
            h.view.expand is Some <==> content is Some,
            h.view.container is Some <==> content is Some,
            final(cx).cur() == old(cx).cur(),
            final(cx)@ == notification_nodes(old(cx)@, old(cx).cur() as nat, header@,
                match content { Some(t) => Some(t@), None => None }),
    {
        let ghost ct = match &content { Some(t) => Some(t@), None => None::<Seq<char>> };
        let here = cx.current();
        let e = cx.add(Tag::Notification);
        cx.set_navigable(e, true);
        let row = cx.add_child(e, Tag::HStack);
        cx.set_role(row, Role::GenericContainer);
        cx.add_class(row, Class::NotificationHeader);
        cx.set_current(row);
        let _title = Label::new(cx, header);
        cx.set_current(here);
        let ghost after_row = cx@;
        let expand = match &content {
            Some(_) => Some(add_icon_button(cx, row, Icon::ChevronRight)),
            None => None,
        };
        let _close = add_icon_button(cx, row, Icon::Close);
        let container = match content {
            Some(t) => {
                let c = cx.add_child(e, Tag::HStack);
                cx.set_role(c, Role::GenericContainer);
                cx.add_class(c, Class::NotificationContainer);
                cx.set_displayed(c, false);
                cx.set_current(c);
                let _text = Label::new(cx, t);
                cx.set_current(here);
                Some(c)
            }
            None => None,
        };
        proof {
            assert(after_row =~= old(cx)@.push(NodeView::fresh(Tag::Notification, old(cx).cur() as nat).with_navigable(true))
                .push(NodeView::fresh(Tag::HStack, e as nat).with_role(Role::GenericContainer).class(Class::NotificationHeader))
                .push(label_node((e + 1) as nat, header@)));
            assert(cx@ =~= notification_nodes(old(cx)@, old(cx).cur() as nat, header@, ct));
        }
        Handle { entity: e, view: Notification { container_open: false, expand, container } }
    }
}

impl Handle<Notification> {
    /// Shows or hides the content.
    pub fn event(&mut self, cx: &mut Context, event: NotificationEvent)
        requires
            old(self).view.expand matches Some(p) ==> (p.0 as int) < old(cx)@.len() && (p.1 as int) < old(cx)@.len(),
            old(self).view.container matches Some(c) ==> (c as int) < old(cx)@.len(),
        ensures
            final(self).entity == old(self).entity,
            final(self).view.expand == old(self).view.expand,
            final(self).view.container == old(self).view.container,
            final(self).view.container_open == !old(self).view.container_open,
            final(cx).cur() == old(cx).cur(),
            final(cx)@ == notification_shown(old(cx)@, old(self).view.expand, old(self).view.container,
                !old(self).view.container_open),
    {
        match event {
            NotificationEvent::ToggleContainer => {
                let open = !self.view.container_open;
                self.view.container_open = open;
                match self.view.expand {
                    Some((b, l)) => {
                        cx.set_checked(b, open);
                        cx.set_icon(l, if open { Icon::ChevronDown } else { Icon::ChevronRight });
                    }
                    None => {}
                }
                let ghost mid = cx@;
                assert(mid == expand_shown(old(cx)@, self.view.expand, open));
                match self.view.container {
                    Some(c) => {
                        cx.set_displayed(c, open);
                    }
                    None => {}
                }
            }
        }
    }
}

} // verus!
