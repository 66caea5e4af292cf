//! The view tree that views are built into.
//!
//! A [`Context`] holds the nodes of the tree in creation order. Each node records the
//! element it was built as, its parent, its style classes, its accessibility role and
//! the few interaction flags that views set on themselves. Builders append nodes under
//! the context's current node; modifiers change the node of a [`Handle`].

use vstd::prelude::*;

verus! {

/// The element name under which a node is styled.
#[derive(Clone, Copy, PartialEq, Eq, Structural, Debug)]
pub enum Tag {
    Window,
    Element,
    Label,
    TextSpan,
    Svg,
    Image,
    HStack,
    VStack,
    ZStack,
    Accordion,
    Collapsible,
    Avatar,
    AvatarGroup,
    Badge,
    Breadcrumb,
    Button,
    ButtonGroup,
    Card,
    CardHeader,
    CardContent,
    CardFooter,
    Checkbox,
    Chip,
    CodeBlock,
    Textbox,
    Dialog,
    Divider,
    Dropdown,
    Popup,
    Popover,
    Arrow,
    FormControl,
    FormGroup,
    Frame,
    Grid,
    List,
    ListItem,
    ScrollView,
    MenuBar,
    Menu,
    Submenu,
    MenuButton,
    Notification,
    NumberInput,
    PickList,
    Select,
    ComboBox,
    RadioButton,
    Rating,
    Sidebar,
    Switch,
    ToggleButton,
    TabView,
    TabHeader,
    TabPanel,
    Tab,
    TabList,
    Table,
    TableHeader,
    Spinbox,
    ResizableStack,
    ResizeHandle,
    Resizable,
    Scrollbar,
    ScrollContent,
    SvgDisplay,
    Timepicker,
    DigitalTimepicker,
    AnalogTimepicker,
    KeyBindView,
    Inspector,
    ColorPicker,
    ColorSelector,
    MousePopup,
    ProgressBar,
    ReorderableList,
    Markdown,
    Datepicker,
    DatetimePicker,
    Calendar,
}

/// A style class that a view puts on one of its nodes.
#[derive(Clone, Copy, PartialEq, Eq, Structural, Debug)]
pub enum Class {
    Circle,
    Square,
    Rounded,
    Accent,
    Outline,
    Text,
    Vertical,
    Horizontal,
    DividerLine,
    Close,
    CloseIcon,
    Intermediate,
    Header,
    Content,
    ExpandIcon,
    Open,
    Inner,
    SwitchHandleBg,
    SwitchHandle,
    Describing,
    TextSelectable,
    Legend,
    PosStart,
    FrameTitle,
    Left,
    Center,
    Right,
    BreadcrumbSeparator,
    BreadcrumbItem,
    Disabled,
    BreadcrumbOverflow,
    BreadcrumbOverflowButton,
    BreadcrumbOverflowDropdown,
    BreadcrumbOverflowList,
    BreadcrumbOverflowItem,
    Selectable,
    Focused,
    Arrow,
    Icon,
    Checkmark,
    FocusIndicator,
    NumberInput,
    NotificationHeader,
    NotificationContainer,
    Closeable,
    TabviewContentWrapper,
    TabviewTabheaderWrapper,
    Multiline,
    Caret,
    Foo,
    Title,
    TableHeaderTitle,
    TableSortIndicator,
    TableHeaderCell,
    TableHeaderRow,
    TableBody,
    TableRow,
    TableCell,
    Sortable,
    Resizable,
    Odd,
    Top,
    Bottom,
    Even,
    SpinboxButton,
    SpinboxValue,
    Thumb,
    SidebarHeader,
    SidebarDivider,
    SidebarContent,
    SidebarFooter,
    ReorderableListItem,
    ReorderIndicator,
    ReorderIndicatorActive,
    ReorderDropTarget,
    ReorderDropOnto,
    ReorderDragSource,
    ReorderDropActive,
    P,
    H1,
    H2,
    H3,
    H4,
    H5,
    H6,
    Span,
    Emph,
    Strong,
    Strikethrough,
    Li,
    Code,
    Link,
    Table,
    TableHeaders,
    CalendarControls,
    MonthNav,
    CalendarControlsSelect,
    CalendarMonthYearHeading,
    CalendarKeyboardHelp,
    CalendarHeader,
    CalendarDow,
    CalendarDay,
    CalendarDayDisabled,
    CalendarDayFocused,
    CalendarDaySelected,
}

/// A built-in icon drawn by an svg node.
#[derive(Clone, Copy, PartialEq, Eq, Structural, Debug)]
pub enum Icon {
    Check,
    Minus,
    Plus,
    ChevronDown,
    ChevronUp,
    ChevronLeft,
    ChevronRight,
    Close,
    Dots,
    Star,
    Calendar,
    Clock,
    User,
}

/// The accessibility role of a node.
#[derive(Clone, Copy, PartialEq, Eq, Structural, Debug)]
pub enum Role {
    Generic,
    GenericContainer,
    Button,
    CheckBox,
    Label,
    RadioButton,
    RadioGroup,
    Switch,
    List,
    ListItem,
    Navigation,
    MenuBar,
    Menu,
    MenuItem,
    Tab,
    TabList,
    TabPanel,
    TextInput,
    MultilineTextInput,
    SpinButton,
    ScrollBar,
    Slider,
    ListBox,
    Row,
    ColumnHeader,
    GridCell,
}

/// The orientation of a widget, such as a slider or scrollbar.
#[derive(Clone, Copy, PartialEq, Eq, Structural, Debug)]
pub enum Orientation {
    /// A horizontal orientation.
    Horizontal,
    /// A vertical orientation.
    Vertical,
}

/// Describes the placement of a view relative to its parent element.
#[derive(Clone, Copy, PartialEq, Eq, Structural, Debug)]
pub enum Placement {
    /// Above the parent, left edges aligned.
    TopStart,
    /// Above the parent, centers aligned.
    Top,
    /// Above the parent, right edges aligned.
    TopEnd,
    /// Below the parent, left edges aligned.
    BottomStart,
    /// Below the parent, centers aligned.
    Bottom,
    /// Below the parent, right edges aligned.
    BottomEnd,
    /// Right of the parent, top edges aligned.
    RightStart,
    /// Right of the parent, centers aligned.
    Right,
    /// Right of the parent, bottom edges aligned.
    RightEnd,
    /// Left of the parent, top edges aligned.
    LeftStart,
    /// Left of the parent, centers aligned.
    Left,
    /// Left of the parent, bottom edges aligned.
    LeftEnd,
    /// Over the parent.
    Over,
    /// Following the cursor.
    Cursor,
}

/// One node of the view tree.
pub struct Node {
    pub element: Tag,
    pub parent: usize,
    pub classes: Vec<Class>,
    pub role: Role,
    pub navigable: bool,
    pub focusable: bool,
    pub disabled: bool,
    pub checked: bool,
    pub checkable: bool,
    pub hidden: bool,
    pub displayed: bool,
    pub icon: Option<Icon>,
    pub text: String,
}

/// The mathematical content of a node.
pub struct NodeView {
    pub element: Tag,
    pub parent: nat,
    pub classes: Set<Class>,
    pub role: Role,
    pub navigable: bool,
    pub focusable: bool,
    pub disabled: bool,
    pub checked: bool,
    pub checkable: bool,
    pub hidden: bool,
    pub displayed: bool,
    pub icon: Option<Icon>,
    pub text: Seq<char>,
}

impl NodeView {
    /// A freshly built node: no classes, generic role, no flags, no text.
    pub open spec fn fresh(element: Tag, parent: nat) -> NodeView {
        NodeView {
            element,
            parent,
            classes: Set::empty(),
            role: Role::Generic,
            navigable: false,
            focusable: false,
            disabled: false,
            checked: false,
            checkable: false,
            hidden: false,
            displayed: true,
            icon: None,
            text: Seq::empty(),
        }
    }

    pub open spec fn class(self, c: Class) -> NodeView {
        NodeView { classes: self.classes.insert(c), ..self }
    }

    pub open spec fn toggled(self, c: Class, on: bool) -> NodeView {
        NodeView { classes: if on { self.classes.insert(c) } else { self.classes.remove(c) }, ..self }
    }

    pub open spec fn with_role(self, r: Role) -> NodeView {
        NodeView { role: r, ..self }
    }

    pub open spec fn with_navigable(self, b: bool) -> NodeView {
        NodeView { navigable: b, ..self }
    }

    pub open spec fn with_focusable(self, b: bool) -> NodeView {
        NodeView { focusable: b, ..self }
    }

    pub open spec fn with_disabled(self, b: bool) -> NodeView {
        NodeView { disabled: b, ..self }
    }

    pub open spec fn with_checked(self, b: bool) -> NodeView {
        NodeView { checked: b, ..self }
    }

    pub open spec fn with_checkable(self, b: bool) -> NodeView {
        NodeView { checkable: b, ..self }
    }

    pub open spec fn with_hidden(self, b: bool) -> NodeView {
        NodeView { hidden: b, ..self }
    }

    pub open spec fn with_displayed(self, b: bool) -> NodeView {
        NodeView { displayed: b, ..self }
    }

    pub open spec fn with_icon(self, i: Icon) -> NodeView {
        NodeView { icon: Some(i), ..self }
    }

    pub open spec fn with_text(self, t: Seq<char>) -> NodeView {
        NodeView { text: t, ..self }
    }
}

impl View for Node {
    type V = NodeView;

    open spec fn view(&self) -> NodeView {
        NodeView {
            element: self.element,
            parent: self.parent as nat,
            classes: self.classes@.to_set(),
            role: self.role,
            navigable: self.navigable,
            focusable: self.focusable,
            disabled: self.disabled,
            checked: self.checked,
            checkable: self.checkable,
            hidden: self.hidden,
            displayed: self.displayed,
            icon: self.icon,
            text: self.text@,
        }
    }
}

/// The view tree under construction.
pub struct Context {
    nodes: Vec<Node>,
    /// The node under which builders add their nodes.
    current: usize,
}

impl View for Context {
    type V = Seq<NodeView>;

    closed spec fn view(&self) -> Seq<NodeView> {
        nodes_view(self.nodes@)
    }
}

/// A built view: the entity of its node and the view's own state.
pub struct Handle<V> {
    pub entity: usize,
    pub view: V,
}

impl Context {
    /// The tree is never empty, the current node lies in it, and every node but the
    /// window comes after its parent.
    #[verifier::type_invariant]
    closed spec fn inv(&self) -> bool {
        parts_inv(self.nodes@, self.current)
    }

    /// The node under which builders add their nodes.
    pub closed spec fn cur(&self) -> usize {
        self.current
    }

    /// The number of nodes.
    pub fn len(&self) -> (n: usize)
        ensures
            n == self@.len(),
    {
        self.nodes.len()
    }

    /// The node under which builders add their nodes.
    pub fn current(&self) -> (e: usize)
        ensures
            e == self.cur(),
            (e as int) < self@.len(),
    {
        proof {
            use_type_invariant(self);
        }
        self.current
    }

    /// The element node `e` was built as.
    pub fn element(&self, e: usize) -> (r: Tag)
        requires
            (e as int) < self@.len(),
        ensures
            r == self@[e as int].element,
    {
        self.nodes[e].element
    }

    /// The shape of the tree: never empty, the window its own parent, every other node
    /// built after its parent. Nothing happens when it runs.
    pub fn shape(&self)
        ensures
            self@.len() >= 1,
            self@[0].parent == 0,
            forall|i: int| 0 < i < self@.len() ==> #[trigger] self@[i].parent < i,
    {
        proof {
            use_type_invariant(self);
            assert forall|i: int| 0 < i < self@.len() implies #[trigger] self@[i].parent < i by {
                assert(self@[i] == self.nodes@[i]@);
            }
        }
    }

    /// The classes of node `e`, in the order they were put on.
    pub fn classes(&self, e: usize) -> (r: Vec<Class>)
        requires
            (e as int) < self@.len(),
        ensures
            r@.to_set() == self@[e as int].classes,
    {
        let src = &self.nodes[e].classes;
        let mut r: Vec<Class> = Vec::new();
        let mut i: usize = 0;
        while i < src.len()
            invariant
                0 <= i <= src@.len(),
                r@ == src@.take(i as int),
            decreases src@.len() - i,
        {
            r.push(src[i]);
            assert(r@ =~= src@.take(i + 1));
            i = i + 1;
        }
        assert(r@ =~= src@);
        r
    }

    /// The parent of node `e`.
    pub fn parent(&self, e: usize) -> (r: usize)
        requires
            (e as int) < self@.len(),
        ensures
            r as int == self@[e as int].parent,
            e > 0 ==> r < e,
            e == 0 ==> r == 0,
    {
        proof {
            use_type_invariant(self);
        }
        self.nodes[e].parent
    }

    /// Whether node `e` is node `a` or lies below it.
    pub fn is_within(&self, e: usize, a: usize) -> (r: bool)
        requires
            (e as int) < self@.len(),
        ensures
            r == within(self@, e as int, a as int),
        decreases e,
    {
        proof {
            use_type_invariant(self);
        }
        if e == a {
            true
        } else if e == 0 {
            false
        } else {
            let p = self.parent(e);
            self.is_within(p, a)
        }
    }

    /// Whether node `e` has class `c`.
    pub fn has_class(&self, e: usize, c: Class) -> (r: bool)
        requires
            (e as int) < self@.len(),
        ensures
            r == self@[e as int].classes.contains(c),
    {
        let classes = &self.nodes[e].classes;
        let ghost wanted = self@[e as int].classes;
        assert(wanted == classes@.to_set());
        let mut i: usize = 0;
        while i < classes.len()
            invariant
                0 <= i <= classes@.len(),
                wanted == classes@.to_set(),
                wanted == self@[e as int].classes,
                (e as int) < self@.len(),
                forall|k: int| 0 <= k < i ==> classes@[k] != c,
            decreases classes@.len() - i,
        {
            if classes[i] == c {
                assert(classes@.contains(c)) by {
                    assert(classes@[i as int] == c);
                }
                assert(classes@.to_set().contains(c));
                return true;
            }
            i = i + 1;
        }
        assert(!classes@.to_set().contains(c));
        false
    }

    /// The role of node `e`.
    pub fn role(&self, e: usize) -> (r: Role)
        requires
            (e as int) < self@.len(),
        ensures
            r == self@[e as int].role,
    {
        self.nodes[e].role
    }

    /// Whether node `e` is checked.
    pub fn is_checked(&self, e: usize) -> (r: bool)
        requires
            (e as int) < self@.len(),
        ensures
            r == self@[e as int].checked,
    {
        self.nodes[e].checked
    }

    /// Whether node `e` can be reached by keyboard navigation.
    pub fn is_navigable(&self, e: usize) -> (r: bool)
        requires
            (e as int) < self@.len(),
        ensures
            r == self@[e as int].navigable,
    {
        self.nodes[e].navigable
    }

    /// Whether node `e` can take keyboard focus right now: it is displayed, enabled
    /// and focusable.
    pub fn is_focusable_item(&self, e: usize) -> (r: bool)
        requires
            (e as int) < self@.len(),
        ensures
            r == focusable_item(self@[e as int]),
    {
        self.nodes[e].displayed && !self.nodes[e].disabled && self.nodes[e].focusable
    }

    /// Whether node `e` is hidden.
    pub fn is_hidden(&self, e: usize) -> (r: bool)
        requires
            (e as int) < self@.len(),
        ensures
            r == self@[e as int].hidden,
    {
        self.nodes[e].hidden
    }

    /// Whether node `e` takes part in layout and drawing.
    pub fn is_displayed(&self, e: usize) -> (r: bool)
        requires
            (e as int) < self@.len(),
        ensures
            r == self@[e as int].displayed,
    {
        self.nodes[e].displayed
    }

    /// The text of node `e`.
    pub fn text(&self, e: usize) -> (r: &String)
        requires
            (e as int) < self@.len(),
        ensures
            r@ == self@[e as int].text,
    {
        &self.nodes[e].text
    }

    /// A tree holding only the window node, which is current.
    pub fn new() -> (cx: Context)
        ensures
            cx.cur() == 0,
            cx@ == seq![NodeView::fresh(Tag::Window, 0)],
    {
        let mut nodes: Vec<Node> = Vec::new();
        nodes.push(Node {
            element: Tag::Window,
            parent: 0,
            classes: Vec::new(),
            role: Role::Generic,
            navigable: false,
            focusable: false,
            disabled: false,
            checked: false,
            checkable: false,
            hidden: false,
            displayed: true,
            icon: None,
            text: String::new(),
        });
        let cx = Context { nodes, current: 0 };
        assert(cx.nodes@[0]@.classes =~= Set::<Class>::empty());
        assert(cx.nodes@[0]@.classes =~= Set::<Class>::empty());
        assert(cx@ =~= seq![NodeView::fresh(Tag::Window, 0)]);
        cx
    }

    /// Takes the nodes and the current node out, leaving a fresh tree behind.
    fn take_parts(&mut self) -> (r: (Vec<Node>, usize))
        ensures
            parts_inv(r.0@, r.1),
            nodes_view(r.0@) == old(self)@,
            r.1 == old(self).cur(),
    {
        let mut taken = Context::new();
        std::mem::swap(self, &mut taken);
        proof {
            use_type_invariant(&taken);
        }
        let Context { nodes, current } = taken;
        (nodes, current)
    }

    /// Puts nodes and a current node in place.
    fn put_parts(&mut self, nodes: Vec<Node>, current: usize)
        requires
            parts_inv(nodes@, current),
        ensures
            final(self)@ == nodes_view(nodes@),
            final(self).cur() == current,
    {
        let mut put = Context { nodes, current };
        std::mem::swap(self, &mut put);
    }

    /// Appends a fresh node built as `element` under the current node.
    pub fn add(&mut self, element: Tag) -> (e: usize)
        requires
            old(self)@.len() < usize::MAX,
        ensures
            e == old(self)@.len(),
            final(self)@.len() == old(self)@.len() + 1,
            final(self).cur() == old(self).cur(),
            final(self)@ == old(self)@.push(NodeView::fresh(element, old(self).cur() as nat)),
    {
        let (mut nodes, current) = self.take_parts();
        let e = nodes.len();
        nodes.push(Node {
            element,
            parent: current,
            classes: Vec::new(),
            role: Role::Generic,
            navigable: false,
            focusable: false,
            disabled: false,
            checked: false,
            checkable: false,
            hidden: false,
            displayed: true,
            icon: None,
            text: String::new(),
        });
        assert(nodes@[e as int]@.classes =~= Set::<Class>::empty());
        assert(nodes_view(nodes@) =~= old(self)@.push(NodeView::fresh(element, old(self).cur() as nat)));
        self.put_parts(nodes, current);
        e
    }

    /// Appends a fresh node built as `element` under node `parent`, leaving the current
    /// node as it was.
    pub fn add_child(&mut self, parent: usize, element: Tag) -> (e: usize)
        requires
            (parent as int) < old(self)@.len(),
            old(self)@.len() < usize::MAX,
        ensures
            e == old(self)@.len(),
            final(self).cur() == old(self).cur(),
            final(self)@ == old(self)@.push(NodeView::fresh(element, parent as nat)),
    {
        let here = self.current();
        self.set_current(parent);
        let e = self.add(element);
        self.set_current(here);
        e
    }

    /// Appends a fresh node built as `element` under the current node, with role `role`.
    pub fn add_with_role(&mut self, element: Tag, role: Role) -> (e: usize)
        requires
            old(self)@.len() < usize::MAX,
        ensures
            e == old(self)@.len(),
            final(self).cur() == old(self).cur(),
            final(self)@ == old(self)@.push(NodeView::fresh(element, old(self).cur() as nat).with_role(role)),
    {
        let e = self.add(element);
        self.set_role(e, role);
        assert(self@ =~= old(self)@.push(NodeView::fresh(element, old(self).cur() as nat).with_role(role)));
        e
    }

    /// Appends a fresh node built as `element` under node `parent`, with class `c`.
    pub fn add_child_with_class(&mut self, parent: usize, element: Tag, c: Class) -> (e: usize)
        requires
            (parent as int) < old(self)@.len(),
            old(self)@.len() < usize::MAX,
        ensures
            e == old(self)@.len(),
            final(self).cur() == old(self).cur(),
            final(self)@ == old(self)@.push(NodeView::fresh(element, parent as nat).class(c)),
    {
        let e = self.add_child(parent, element);
        self.add_class(e, c);
        assert(self@ =~= old(self)@.push(NodeView::fresh(element, parent as nat).class(c)));
        e
    }

    /// Makes `e` the node under which builders add their nodes.
    pub fn set_current(&mut self, e: usize)
        requires
            (e as int) < old(self)@.len(),
        ensures
            final(self).cur() == e,
            final(self)@ == old(self)@,
    {
        let (nodes, _current) = self.take_parts();
        self.put_parts(nodes, e);
    }

    /// Puts class `c` on node `e` when `on` holds, and takes it off otherwise.
    pub fn toggle_class(&mut self, e: usize, c: Class, on: bool)
        requires
            (e as int) < old(self)@.len(),
        ensures
            final(self).cur() == old(self).cur(),
            final(self)@ == old(self)@.update(e as int, old(self)@[e as int].toggled(c, on)),
    {
        let (mut nodes, current) = self.take_parts();
        let ghost before = nodes@[e as int].classes@;
        let mut kept: Vec<Class> = Vec::new();
        let n = nodes[e].classes.len();
        let mut i: usize = 0;
        while i < n
            invariant
                0 <= i <= n,
                e < nodes@.len(),
                n == nodes@[e as int].classes@.len(),
                nodes@[e as int].classes@ == before,
                forall|x: Class| #[trigger] kept@.contains(x) <==> (x != c && exists|k: int| 0 <= k < i && #[trigger] before[k] == x),
            decreases n - i,
        {
            let x = nodes[e].classes[i];
            let ghost prev = kept@;
            if x != c {
                kept.push(x);
                assert(kept@[kept@.len() - 1] == x);
            }
            proof {
                assert forall|y: Class| #[trigger] kept@.contains(y) <==> (y != c && exists|k: int| 0 <= k < i + 1 && #[trigger] before[k] == y) by {
                    if kept@.contains(y) {
                        if prev.contains(y) {
                            let k = choose|k: int| 0 <= k < i && #[trigger] before[k] == y;
                            assert(before[k] == y);
                        } else {
                            let j = choose|j: int| 0 <= j < kept@.len() && kept@[j] == y;
                            if j < prev.len() {
                                assert(prev[j] == y);
                            }
                            assert(before[i as int] == y);
                        }
                    }
                    if y != c && (exists|k: int| 0 <= k < i + 1 && #[trigger] before[k] == y) {
                        let k = choose|k: int| 0 <= k < i + 1 && #[trigger] before[k] == y;
                        if k < i {
                            assert(prev.contains(y));
                            let j = choose|j: int| 0 <= j < prev.len() && prev[j] == y;
                            assert(kept@[j] == y);
                        }
                    }
                }
            }
            i = i + 1;
        }
        let ghost unmarked = kept@;
        if on {
            kept.push(c);
        }
        assert forall|y: Class| #[trigger] kept@.contains(y) <==> (unmarked.contains(y) || (on && y == c)) by {
            if on {
                assert(kept@ == unmarked.push(c));
                assert(kept@[kept@.len() - 1] == c);
                if unmarked.contains(y) {
                    let j = choose|j: int| 0 <= j < unmarked.len() && unmarked[j] == y;
                    assert(kept@[j] == y);
                }
                if kept@.contains(y) && y != c {
                    let j = choose|j: int| 0 <= j < kept@.len() && kept@[j] == y;
                    assert(unmarked[j] == y);
                }
            }
        }
        proof {
            let target = if on { before.to_set().insert(c) } else { before.to_set().remove(c) };
            assert forall|y: Class| kept@.to_set().contains(y) <==> target.contains(y) by {
                if before.contains(y) {
                    let k = choose|k: int| 0 <= k < before.len() && before[k] == y;
                    assert(before[k] == y);
                }
                if on && y == c {
                    assert(kept@[kept@.len() - 1] == c);
                }
            }
            assert(kept@.to_set() =~= target);
        }
        nodes[e].classes = kept;
        assert(nodes_view(nodes@) =~= old(self)@.update(e as int, old(self)@[e as int].toggled(c, on)));
        self.put_parts(nodes, current);
    }

    /// Puts class `c` on node `e`.
    pub fn add_class(&mut self, e: usize, c: Class)
        requires
            (e as int) < old(self)@.len(),
        ensures
            final(self).cur() == old(self).cur(),
            final(self)@ == old(self)@.update(e as int, old(self)@[e as int].class(c)),
    {
        self.toggle_class(e, c, true);
    }

    /// Sets the accessibility role of node `e`.
    pub fn set_role(&mut self, e: usize, b: Role)
        requires
            (e as int) < old(self)@.len(),
        ensures
            final(self).cur() == old(self).cur(),
            final(self)@ == old(self)@.update(e as int, old(self)@[e as int].with_role(b)),
    {
        let (mut nodes, current) = self.take_parts();
        nodes[e].role = b;
        assert(nodes_view(nodes@) =~= old(self)@.update(e as int, old(self)@[e as int].with_role(b)));
        self.put_parts(nodes, current);
    }

    /// Sets whether node `e` can be reached by keyboard navigation.
    pub fn set_navigable(&mut self, e: usize, b: bool)
        requires
            (e as int) < old(self)@.len(),
        ensures
            final(self).cur() == old(self).cur(),
            final(self)@ == old(self)@.update(e as int, old(self)@[e as int].with_navigable(b)),
    {
        let (mut nodes, current) = self.take_parts();
        nodes[e].navigable = b;
        assert(nodes_view(nodes@) =~= old(self)@.update(e as int, old(self)@[e as int].with_navigable(b)));
        self.put_parts(nodes, current);
    }

    /// Sets whether node `e` can take keyboard focus.
    pub fn set_focusable(&mut self, e: usize, b: bool)
        requires
            (e as int) < old(self)@.len(),
        ensures
            final(self).cur() == old(self).cur(),
            final(self)@ == old(self)@.update(e as int, old(self)@[e as int].with_focusable(b)),
    {
        let (mut nodes, current) = self.take_parts();
        nodes[e].focusable = b;
        assert(nodes_view(nodes@) =~= old(self)@.update(e as int, old(self)@[e as int].with_focusable(b)));
        self.put_parts(nodes, current);
    }

    /// Sets whether node `e` is disabled.
    pub fn set_disabled(&mut self, e: usize, b: bool)
        requires
            (e as int) < old(self)@.len(),
        ensures
            final(self).cur() == old(self).cur(),
            final(self)@ == old(self)@.update(e as int, old(self)@[e as int].with_disabled(b)),
    {
        let (mut nodes, current) = self.take_parts();
        nodes[e].disabled = b;
        assert(nodes_view(nodes@) =~= old(self)@.update(e as int, old(self)@[e as int].with_disabled(b)));
        self.put_parts(nodes, current);
    }

    /// Sets the checked state of node `e`.
    pub fn set_checked(&mut self, e: usize, b: bool)
        requires
            (e as int) < old(self)@.len(),
        ensures
            final(self).cur() == old(self).cur(),
            final(self)@ == old(self)@.update(e as int, old(self)@[e as int].with_checked(b)),
    {
        let (mut nodes, current) = self.take_parts();
        nodes[e].checked = b;
        assert(nodes_view(nodes@) =~= old(self)@.update(e as int, old(self)@[e as int].with_checked(b)));
        self.put_parts(nodes, current);
    }

    /// Sets whether node `e` can be checked.
    pub fn set_checkable(&mut self, e: usize, b: bool)
        requires
            (e as int) < old(self)@.len(),
        ensures
            final(self).cur() == old(self).cur(),
            final(self)@ == old(self)@.update(e as int, old(self)@[e as int].with_checkable(b)),
    {
        let (mut nodes, current) = self.take_parts();
        nodes[e].checkable = b;
        assert(nodes_view(nodes@) =~= old(self)@.update(e as int, old(self)@[e as int].with_checkable(b)));
        self.put_parts(nodes, current);
    }

    /// Sets whether node `e` is hidden.
    pub fn set_hidden(&mut self, e: usize, b: bool)
        requires
            (e as int) < old(self)@.len(),
        ensures
            final(self).cur() == old(self).cur(),
            final(self)@ == old(self)@.update(e as int, old(self)@[e as int].with_hidden(b)),
    {
        let (mut nodes, current) = self.take_parts();
        nodes[e].hidden = b;
        assert(nodes_view(nodes@) =~= old(self)@.update(e as int, old(self)@[e as int].with_hidden(b)));
        self.put_parts(nodes, current);
    }

    /// Sets whether node `e` takes part in layout and drawing.
    pub fn set_displayed(&mut self, e: usize, b: bool)
        requires
            (e as int) < old(self)@.len(),
        ensures
            final(self).cur() == old(self).cur(),
            final(self)@ == old(self)@.update(e as int, old(self)@[e as int].with_displayed(b)),
    {
        let (mut nodes, current) = self.take_parts();
        nodes[e].displayed = b;
        assert(nodes_view(nodes@) =~= old(self)@.update(e as int, old(self)@[e as int].with_displayed(b)));
        self.put_parts(nodes, current);
    }

    /// Sets the icon that node `e` draws.
    pub fn set_icon(&mut self, e: usize, i: Icon)
        requires
            (e as int) < old(self)@.len(),
        ensures
            final(self).cur() == old(self).cur(),
            final(self)@ == old(self)@.update(e as int, old(self)@[e as int].with_icon(i)),
    {
        let (mut nodes, current) = self.take_parts();
        nodes[e].icon = Some(i);
        assert(nodes_view(nodes@) =~= old(self)@.update(e as int, old(self)@[e as int].with_icon(i)));
        self.put_parts(nodes, current);
    }

    /// Appends an svg node drawing icon `i` under node `parent`.
    pub fn add_icon(&mut self, parent: usize, i: Icon) -> (e: usize)
        requires
            (parent as int) < old(self)@.len(),
            old(self)@.len() < usize::MAX,
        ensures
            e == old(self)@.len(),
            final(self).cur() == old(self).cur(),
            final(self)@ == old(self)@.push(NodeView::fresh(Tag::Svg, parent as nat).with_icon(i)),
    {
        let e = self.add_child(parent, Tag::Svg);
        self.set_icon(e, i);
        assert(self@ =~= old(self)@.push(NodeView::fresh(Tag::Svg, parent as nat).with_icon(i)));
        e
    }

    /// Sets the text of node `e`.
    pub fn set_text(&mut self, e: usize, t: String)
        requires
            (e as int) < old(self)@.len(),
        ensures
            final(self).cur() == old(self).cur(),
            final(self)@ == old(self)@.update(e as int, old(self)@[e as int].with_text(t@)),
    {
        let (mut nodes, current) = self.take_parts();
        nodes[e].text = t;
        assert(nodes_view(nodes@) =~= old(self)@.update(e as int, old(self)@[e as int].with_text(t@)));
        self.put_parts(nodes, current);
    }
}

/// Whether a node can take keyboard focus right now: it is displayed, enabled and
/// focusable.
pub open spec fn focusable_item(n: NodeView) -> bool {
    n.displayed && !n.disabled && n.focusable
}

/// Whether node `e` is node `a` or one of its descendants, following parents up to
/// the window.
pub open spec fn within(s: Seq<NodeView>, e: int, a: int) -> bool
    decreases e,
{
    if e == a {
        true
    } else if 0 < e < s.len() && s[e].parent < e {
        within(s, s[e].parent as int, a)
    } else {
        false
    }
}

/// The contents of a sequence of nodes.
pub open spec fn nodes_view(nodes: Seq<Node>) -> Seq<NodeView> {
    Seq::new(nodes.len(), |i: int| nodes[i]@)
}

/// The shape every tree keeps: never empty, the current node inside it, and every node
/// but the window after its parent.
pub open spec fn parts_inv(nodes: Seq<Node>, current: usize) -> bool {
    &&& current < nodes.len()
    &&& nodes.len() >= 1
    &&& nodes[0].parent == 0
    &&& forall|i: int| 0 < i < nodes.len() ==> #[trigger] nodes[i].parent < i
}

} // verus!
