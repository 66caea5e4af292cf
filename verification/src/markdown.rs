//! Markdown shown as rich text: each node of a parsed document becomes labels, spans,
//! stacks and scroll views, with the node's children built inside.
//!
//! Markdown text is parsed with comrak. The view is built from the parsed document,
//! given in preorder, each node naming the index of its parent (an earlier node) or
//! none for a node at the top of the document.

use vstd::prelude::*;
use comrak::nodes::NodeValue;
use crate::label::{label_node, Label, TextSpan};
use crate::layout::{Divider, HStack, VStack};
use crate::scroll::{scrollbar_nodes, ScrollView};
use crate::ui::{Class, Context, Handle, NodeView, Orientation, Role, Tag};

verus! {

/// What a node of a markdown document is.
#[derive(Clone, Debug, PartialEq, Eq)]
pub enum MdKind {
    Paragraph,
    /// A heading of a level.
    Heading(u8),
    Text(String),
    Emph,
    Strong,
    Strikethrough,
    List,
    Item,
    /// Inline code.
    Code(String),
    /// A fenced or indented block of code, whose text ends with a line break.
    CodeBlock(String),
    /// A link to a URL.
    Link(String),
    SoftBreak,
    Table,
    /// A row of a table, which is a row of headers or not.
    TableRow(bool),
    TableCell,
    /// Anything else, which is not shown.
    Other,
}

/// A node of a markdown document.
#[derive(Clone, Debug, PartialEq, Eq)]
pub struct MdNode {
    pub kind: MdKind,
    pub parent: Option<usize>,
}

/// The view showing a markdown document.
pub struct Markdown {
    /// The document shown.
    pub doc: Vec<MdNode>,
    /// For each node of the document, the first view node built for it, if it was shown.
    pub built: Vec<Option<usize>>,
}

#[verifier::external_type_specification]
#[verifier::external_body]
pub struct ExNodeValue(comrak::nodes::NodeValue);

/// The depth of each node of a markdown text as comrak parses it, in its preorder,
/// from the document node itself at depth 1.
pub uninterp spec fn comrak_depths(text: Seq<char>) -> Seq<usize>;

/// The kind, as the view knows it, of each node of a markdown text as comrak parses
/// it, in its preorder from the document node itself.
pub uninterp spec fn comrak_kinds(text: Seq<char>) -> Seq<MdKind>;

/// Parses markdown text with comrak's `parse_document`, strikethrough and tables on,
/// and lists the nodes in the crate's preorder (`descendants`, which starts with the
/// document node), each with its kind as the view knows it (the verified `md_kind`,
/// handed to `map`) and the number of nodes from it up to the document
/// (`ancestors().count()`). The kinds are named `comrak_kinds` and the depths
/// `comrak_depths`: both depend on the text alone. As the source's preorder walk
/// shows, the document comes first, at depth 1, and every later node lies below it, at
/// most one level deeper than the node before it.
#[verifier::external_body]
fn comrak_nodes(text: &str) -> (r: Vec<(MdKind, usize)>)
    ensures
        r@.len() >= 1,
        Seq::new(r@.len(), |i: int| r@[i].0) == comrak_kinds(text@),
        Seq::new(r@.len(), |i: int| r@[i].1) == comrak_depths(text@),
        r@[0].1 == 1,
        forall|i: int| 1 <= i < r@.len() ==> 2 <= #[trigger] r@[i].1 <= r@[i - 1].1 + 1,
{
    let arena = comrak::Arena::new();
    let mut options = comrak::Options::default();
    options.extension.strikethrough = true;
    options.extension.table = true;
    let root = comrak::parse_document(&arena, text, &options);
    root.descendants().map(|n| (md_kind(&n.data.borrow().value), n.ancestors().count())).collect()
}

/// The kind of a comrak block node (paragraph, heading, list, item, code block,
/// table, table row or table cell), its fields carried over; `None` for any other.
#[verifier::external_body]
fn block_kind(v: &NodeValue) -> (k: Option<MdKind>) {
    match v {
        NodeValue::Paragraph => Some(MdKind::Paragraph),
        NodeValue::Heading(h) => Some(MdKind::Heading(h.level)),
        NodeValue::List(_) => Some(MdKind::List),
        NodeValue::Item(_) => Some(MdKind::Item),
        NodeValue::CodeBlock(c) => Some(MdKind::CodeBlock(c.literal.clone())),
        NodeValue::Table(_) => Some(MdKind::Table),
        NodeValue::TableRow(h) => Some(MdKind::TableRow(*h)),
        NodeValue::TableCell => Some(MdKind::TableCell),
        _ => None,
    }
}

/// The kind of a comrak inline node (text, emphasis, strong, strikethrough, code,
/// link or soft break), its fields carried over; `None` for any other.
#[verifier::external_body]
fn inline_kind(v: &NodeValue) -> (k: Option<MdKind>) {
    match v {
        NodeValue::Text(t) => Some(MdKind::Text(t.to_string())),
        NodeValue::Emph => Some(MdKind::Emph),
        NodeValue::Strong => Some(MdKind::Strong),
        NodeValue::Strikethrough => Some(MdKind::Strikethrough),
        NodeValue::Code(c) => Some(MdKind::Code(c.literal.clone())),
        NodeValue::Link(l) => Some(MdKind::Link(l.url.clone())),
        NodeValue::SoftBreak => Some(MdKind::SoftBreak),
        _ => None,
    }
}

/// The kind of a comrak node as the view knows it: a block or inline node it shows,
/// or `Other`.
fn md_kind(v: &NodeValue) -> MdKind {
    match block_kind(v) {
        Some(k) => k,
        None => match inline_kind(v) {
            Some(k) => k,
            None => MdKind::Other,
        },
    }
}

/// The nearest node before node `j` that is one level above node `i`.
pub open spec fn nearest_above(depths: Seq<usize>, i: int, j: int) -> Option<usize>
    decreases j,
{
    if j <= 0 {
        None
    } else if depths[j - 1] + 1 == depths[i] {
        Some((j - 1) as usize)
    } else {
        nearest_above(depths, i, j - 1)
    }
}

/// Depths of a preorder listing: the first node at the top (depth 1), and every node
/// at least at the top and at most one level deeper than the node before it.
pub open spec fn preorder_depths(depths: Seq<usize>) -> bool {
    &&& depths.len() > 0 ==> depths[0] == 1
    &&& forall|i: int| 1 <= i < depths.len() ==> 1 <= #[trigger] depths[i] <= depths[i - 1] + 1
}

/// A node found above another comes before it, one level up.
proof fn lemma_nearest_above(depths: Seq<usize>, i: int, j: int)
    requires
        0 <= i < depths.len(),
        depths.len() <= usize::MAX,
        j <= i,
    ensures
        nearest_above(depths, i, j) matches Some(p) ==> 0 <= p < j && depths[p as int] + 1 == depths[i],
    decreases j,
{
    if j > 0 {
        lemma_nearest_above(depths, i, j - 1);
    }
}

/// In a preorder listing, every node below the top has a node one level up before it.
proof fn lemma_parent_exists(depths: Seq<usize>, i: int, j: int)
    requires
        preorder_depths(depths),
        depths.len() <= usize::MAX,
        0 < j <= i < depths.len(),
        depths[i] >= 2,
        depths[j - 1] + 1 >= depths[i],
    ensures
        nearest_above(depths, i, j) is Some,
    decreases j,
{
    if depths[j - 1] + 1 != depths[i] {
        assert(j - 1 != 0);
        assert(1 <= depths[j - 1] <= depths[j - 2] + 1);
        lemma_parent_exists(depths, i, j - 1);
    }
}

/// The parent of each node of a preorder listing given by the depth of each node: the
/// nearest earlier node one level up, or none.
pub fn parents_from_depths(depths: &Vec<usize>) -> (r: Vec<Option<usize>>)
    ensures
        r@.len() == depths@.len(),
        forall|i: int| 0 <= i < depths@.len() ==> #[trigger] r@[i] == nearest_above(depths@, i, i),
{
    let mut r: Vec<Option<usize>> = Vec::new();
    let mut i: usize = 0;
    while i < depths.len()
        invariant
            0 <= i <= depths@.len(),
            r@.len() == i,
            forall|k: int| 0 <= k < i ==> #[trigger] r@[k] == nearest_above(depths@, k, k),
        decreases depths@.len() - i,
    {
        let mut j: usize = i;
        let mut found: Option<usize> = None;
        while j > 0
            invariant
                j <= i < depths@.len(),
                nearest_above(depths@, i as int, i as int) == match found {
                    Some(p) => Some(p),
                    None => nearest_above(depths@, i as int, j as int),
                },
                found is Some ==> j == 0,
            decreases j,
        {
            if depths[i] > 0 && depths[j - 1] == depths[i] - 1 {
                found = Some(j - 1);
                j = 0;
            } else {
                j = j - 1;
            }
        }
        r.push(found);
        i = i + 1;
    }
    r
}

/// The depths of the nodes below the document of a markdown text, counted from 1 for
/// its top nodes.
pub open spec fn top_depths(text: Seq<char>) -> Seq<usize> {
    let d = comrak_depths(text);
    Seq::new((d.len() - 1) as nat, |i: int| (d[i + 1] - 1) as usize)
}

/// The document of a markdown text below comrak's document node: each node with its
/// kind, under the nearest earlier node one level up, or at the top.
pub open spec fn comrak_doc(text: Seq<char>) -> Seq<MdNode> {
    let top = top_depths(text);
    Seq::new(top.len(), |i: int| MdNode { kind: comrak_kinds(text)[i + 1], parent: nearest_above(top, i, i) })
}

/// The class of a heading of a level.
pub open spec fn heading_class(level: u8) -> Class {
    if level == 1 { Class::H1 }
    else if level == 2 { Class::H2 }
    else if level == 3 { Class::H3 }
    else if level == 4 { Class::H4 }
    else if level == 5 { Class::H5 }
    else { Class::H6 }
}

/// A text span node holding `t` under `parent`.
pub open spec fn span_node(parent: nat, t: Seq<char>) -> NodeView {
    NodeView::fresh(Tag::TextSpan, parent).with_text(t).with_displayed(false)
}

/// A stack node under `parent`.
pub open spec fn stack_node(tag: Tag, parent: nat) -> NodeView {
    NodeView::fresh(tag, parent).with_role(Role::GenericContainer)
}

/// Whether the children of a node of this kind are shown.
pub open spec fn shows_children(kind: MdKind) -> bool {
    !(kind is Text || kind is Code || kind is CodeBlock || kind is Other)
}

/// The view node the children of a node of this kind go into, when its first view
/// node is `e`.
pub open spec fn md_container(kind: MdKind, e: usize) -> Option<usize> {
    if !shows_children(kind) {
        None
    } else if kind is Item {
        Some((e + 2) as usize)
    } else {
        Some(e)
    }
}

/// The tree after a node of kind `kind` is built under node `pc`.
pub open spec fn md_built(s: Seq<NodeView>, kind: MdKind, pc: nat) -> Seq<NodeView> {
    let e = s.len();
    match kind {
        MdKind::Paragraph => s.push(label_node(pc, Seq::empty()).class(Class::P)),
        MdKind::Heading(l) => s.push(label_node(pc, Seq::empty()).class(heading_class(l))),
        MdKind::Text(t) => s.push(span_node(pc, t@).class(Class::Span)),
        MdKind::Emph => s.push(span_node(pc, Seq::empty()).class(Class::Emph)),
        MdKind::Strong => s.push(span_node(pc, Seq::empty()).class(Class::Strong)),
        MdKind::Strikethrough => s.push(span_node(pc, Seq::empty()).class(Class::Strikethrough)),
        MdKind::List => s.push(stack_node(Tag::VStack, pc)),
        MdKind::Item => s.push(stack_node(Tag::HStack, pc).class(Class::Li))
            .push(label_node(e, "\u{2022} "@))
            .push(stack_node(Tag::VStack, e)),
        MdKind::Code(c) => s.push(span_node(pc, c@).class(Class::Code)),
        MdKind::CodeBlock(c) => {
            let sv = scrollbar_nodes(scrollbar_nodes(s
                .push(NodeView::fresh(Tag::ScrollView, pc))
                .push(NodeView::fresh(Tag::ScrollContent, e)), e, Orientation::Vertical), e, Orientation::Horizontal);
            sv.update((e + 2) as int, sv[(e + 2) as int].with_displayed(false)).push(label_node(e + 1, c@.drop_last()).class(Class::Code))
        },
        MdKind::Link(_) => s.push(span_node(pc, Seq::empty()).class(Class::Link)),
        MdKind::SoftBreak => s.push(span_node(pc, seq!['\n'])),
        MdKind::Table => s.push(stack_node(Tag::VStack, pc).class(Class::Table)),
        MdKind::TableRow(h) => s.push(stack_node(Tag::HStack, pc).class(Class::TableRow).toggled(Class::TableHeaders, h))
            .push(NodeView::fresh(Tag::Divider, pc).class(Class::Horizontal))
            .push(NodeView::fresh(Tag::Element, e + 1).class(Class::DividerLine)),
        MdKind::TableCell => s.push(label_node(pc, Seq::empty()).class(Class::TableCell)),
        MdKind::Other => s,
    }
}

/// Whether node `i` of a document is shown: it is at the top, or its parent is shown
/// and shows its children.
pub open spec fn reached(doc: Seq<MdNode>, i: int) -> bool
    decreases i,
{
    if i < 0 || i >= doc.len() {
        false
    } else {
        match doc[i].parent {
            None => true,
            Some(p) => p < i && reached(doc, p as int) && shows_children(doc[p as int].kind),
        }
    }
}

/// Every code block that is shown has text (its final line break is dropped).
pub open spec fn code_blocks_ok(doc: Seq<MdNode>) -> bool {
    forall|i: int| 0 <= i < doc.len() && #[trigger] reached(doc, i) ==>
        (doc[i].kind matches MdKind::CodeBlock(c) ==> c@.len() > 0)
}

/// The tree and the first view node of each document node after the first `k` nodes
/// of `doc` were built, the top ones under node `root`.
pub open spec fn md_run(s0: Seq<NodeView>, doc: Seq<MdNode>, root: usize, k: nat) -> (Seq<NodeView>, Seq<Option<usize>>)
    decreases k,
{
    if k == 0 {
        (s0, Seq::empty())
    } else {
        let (s, b) = md_run(s0, doc, root, (k - 1) as nat);
        let i = k - 1;
        let pc: Option<usize> = match doc[i].parent {
            None => Some(root),
            Some(p) => if p < i && b[p as int] is Some { md_container(doc[p as int].kind, b[p as int]->0) } else { None },
        };
        match pc {
            Some(c) => if doc[i].kind is Other {
                (s, b.push(None))
            } else {
                (md_built(s, doc[i].kind, c as nat), b.push(Some(s.len() as usize)))
            },
            None => (s, b.push(None)),
        }
    }
}

/// The first view node of each shown node is where it was built.
proof fn lemma_run_shape(s0: Seq<NodeView>, doc: Seq<MdNode>, root: usize, k: nat)
    requires
        k <= doc.len(),
    ensures
        md_run(s0, doc, root, k).1.len() == k,
        md_run(s0, doc, root, k).0.len() >= s0.len(),
        md_run(s0, doc, root, k).0.len() <= s0.len() + 7 * k,
        forall|j: int| 0 <= j < k ==> (#[trigger] md_run(s0, doc, root, k).1[j] is Some <==> (reached(doc, j) && !(doc[j].kind is Other))),
    decreases k,
{
    if k > 0 {
        lemma_run_shape(s0, doc, root, (k - 1) as nat);
        let (s, b) = md_run(s0, doc, root, (k - 1) as nat);
        let i = (k - 1) as int;
        let r = md_run(s0, doc, root, k);
        assert forall|j: int| 0 <= j < k implies (#[trigger] r.1[j] is Some <==> (reached(doc, j) && !(doc[j].kind is Other))) by {
            if j < i {
                assert(r.1[j] == b[j]);
            } else {
                match doc[i].parent {
                    None => {},
                    Some(p) => {
                        if p < i {
                            assert(b[p as int] is Some <==> (reached(doc, p as int) && !(doc[p as int].kind is Other)));
                        }
                    },
                }
            }
        }
    }
}

/// Builds the view nodes of a node of kind `kind` under the current node; the result
/// is its first view node.
fn parse_node(cx: &mut Context, kind: &MdKind) -> (e: usize)
    requires
        old(cx)@.len() + 8 < usize::MAX,
        kind matches MdKind::CodeBlock(c) ==> c@.len() > 0,
        !(kind is Other),
    ensures
        e == old(cx)@.len(),
        final(cx).cur() == old(cx).cur(),
        final(cx)@ == md_built(old(cx)@, *kind, old(cx).cur() as nat),
{
    let here = cx.current();
    match kind {
        MdKind::Paragraph => {
            let h = Label::rich(cx, String::new());
            cx.add_class(h.entity, Class::P);
            assert(cx@ =~= md_built(old(cx)@, *kind, here as nat));
            h.entity
        },
        MdKind::Heading(l) => {
            let h = Label::rich(cx, String::new());
            let c = if *l == 1 { Class::H1 } else if *l == 2 { Class::H2 } else if *l == 3 { Class::H3 }
                else if *l == 4 { Class::H4 } else if *l == 5 { Class::H5 } else { Class::H6 };
            cx.add_class(h.entity, c);
            assert(cx@ =~= md_built(old(cx)@, *kind, here as nat));
            h.entity
        },
        MdKind::Text(t) => {
            let h = TextSpan::new(cx, t.clone());
            cx.add_class(h.entity, Class::Span);
            assert(cx@ =~= md_built(old(cx)@, *kind, here as nat));
            h.entity
        },
        MdKind::Emph => {
            let h = TextSpan::new(cx, String::new());
            cx.add_class(h.entity, Class::Emph);
            assert(cx@ =~= md_built(old(cx)@, *kind, here as nat));
            h.entity
        },
        MdKind::Strong => {
            let h = TextSpan::new(cx, String::new());
            cx.add_class(h.entity, Class::Strong);
            assert(cx@ =~= md_built(old(cx)@, *kind, here as nat));
            h.entity
        },
        MdKind::Strikethrough => {
            let h = TextSpan::new(cx, String::new());
            cx.add_class(h.entity, Class::Strikethrough);
            assert(cx@ =~= md_built(old(cx)@, *kind, here as nat));
            h.entity
        },
        MdKind::List => {
            let h = VStack::new(cx);
            assert(cx@ =~= md_built(old(cx)@, *kind, here as nat));
            h.entity
        },
        MdKind::Item => {
            let row = HStack::new(cx).entity;
            cx.add_class(row, Class::Li);
            cx.set_current(row);
            let bullet = String::from_str("\u{2022} ");
            let _b = Label::new(cx, bullet);
            let _inner = VStack::new(cx);
            cx.set_current(here);
            assert(cx@ =~= md_built(old(cx)@, *kind, here as nat));
            row
        },
        MdKind::Code(c) => {
            let h = TextSpan::new(cx, c.clone());
            cx.add_class(h.entity, Class::Code);
            assert(cx@ =~= md_built(old(cx)@, *kind, here as nat));
            h.entity
        },
        MdKind::CodeBlock(c) => {
            let code = drop_last_char(c);
            let sv = ScrollView::new(cx);
            let sv = sv.show_vertical_scrollbar(cx, false);
            cx.set_current(sv.view.content);
            let label = Label::new(cx, code);
            cx.add_class(label.entity, Class::Code);
            cx.set_current(here);
            assert(cx@ =~= md_built(old(cx)@, *kind, here as nat));
            sv.entity
        },
        MdKind::Link(_) => {
            let h = TextSpan::new(cx, String::new());
            cx.add_class(h.entity, Class::Link);
            assert(cx@ =~= md_built(old(cx)@, *kind, here as nat));
            h.entity
        },
        MdKind::SoftBreak => {
            let newline = String::from_str("\n");
            proof {
                reveal_strlit("\n");
                assert(newline@ =~= seq!['\n']);
            }
            let h = TextSpan::new(cx, newline);
            assert(cx@ =~= md_built(old(cx)@, *kind, here as nat));
            h.entity
        },
        MdKind::Table => {
            let t = VStack::new(cx).entity;
            cx.add_class(t, Class::Table);
            assert(cx@ =~= md_built(old(cx)@, *kind, here as nat));
            t
        },
        MdKind::TableRow(headers) => {
            let row = HStack::new(cx).entity;
            cx.add_class(row, Class::TableRow);
            cx.toggle_class(row, Class::TableHeaders, *headers);
            let _d = Divider::horizontal(cx);
            assert(cx@ =~= md_built(old(cx)@, *kind, here as nat));
            row
        },
        MdKind::TableCell => {
            let h = Label::rich(cx, String::new());
            cx.add_class(h.entity, Class::TableCell);
            assert(cx@ =~= md_built(old(cx)@, *kind, here as nat));
            h.entity
        },
        MdKind::Other => 0,
    }
}

/// The text of a code block without its last character.
fn drop_last_char(s: &String) -> (r: String)
    requires
        s@.len() > 0,
    ensures
        r@ == s@.drop_last(),
{
    let chars = crate::text::chars_of(s);
    let mut v: Vec<char> = Vec::new();
    let n = chars.len() - 1;
    let mut i: usize = 0;
    while i < n
        invariant
            chars@ == s@,
            n == chars@.len() - 1,
            i <= n,
            v@ == chars@.take(i as int),
        decreases n - i,
    {
        v.push(chars[i]);
        i = i + 1;
    }
    assert(v@ =~= s@.drop_last());
    crate::text::string_from_chars(&v)
}

impl Markdown {
    /// Builds the view of a document under the current node: the markdown node, and
    /// inside it the nodes of the document in order, each under the view node that its
    /// parent puts its children in. Nodes of other kinds, and everything below them,
    /// are not shown.
    pub fn build(cx: &mut Context, doc: Vec<MdNode>) -> (h: Handle<Markdown>)
        requires
            old(cx)@.len() + 7 * doc@.len() + 2 < usize::MAX,
            code_blocks_ok(doc@),
        ensures
            h.entity == old(cx)@.len(),
            h.view.doc@ == doc@,
            final(cx).cur() == old(cx).cur(),
            (final(cx)@, h.view.built@) == md_run(old(cx)@.push(NodeView::fresh(Tag::Markdown, old(cx).cur() as nat)),
                doc@, h.entity, doc@.len()),
    {
        let here = cx.current();
        let e = cx.add(Tag::Markdown);
        cx.set_current(e);
        let ghost s0 = cx@;
        let n = doc.len();
        let mut built: Vec<Option<usize>> = Vec::new();
        let mut i: usize = 0;
        while i < n
            invariant
                0 <= i <= n,
                n == doc@.len(),
                (e as int) < s0.len(),
                s0.len() + 7 * n + 1 < usize::MAX,
                code_blocks_ok(doc@),
                (cx@, built@) == md_run(s0, doc@, e, i as nat),
                cx@.len() <= s0.len() + 7 * i,
                cx@.len() >= s0.len(),
                (here as int) < s0.len(),
                built@.len() == i,
                forall|j: int| 0 <= j < i && (#[trigger] built@[j]) is Some ==>
                    (built@[j]->0 as int) < cx@.len()
                    && (md_container(doc@[j].kind, built@[j]->0) matches Some(c) ==> (c as int) < cx@.len()),
            decreases n - i,
        {
            proof {
                lemma_run_shape(s0, doc@, e, i as nat);
                lemma_run_shape(s0, doc@, e, (i + 1) as nat);
            }
            let pc: Option<usize> = match doc[i].parent {
                None => Some(e),
                Some(p) => {
                    if p < i {
                        match built[p] {
                            Some(bp) => container_of(&doc[p].kind, bp),
                            None => None,
                        }
                    } else {
                        None
                    }
                },
            };
            match pc {
                Some(c) => {
                    if is_other(&doc[i].kind) {
                        built.push(None);
                    } else {
                        proof {
                            assert(reached(doc@, i as int));
                        }
                        cx.set_current(c);
                        let first = parse_node(cx, &doc[i].kind);
                        cx.set_current(e);
                        built.push(Some(first));
                    }
                },
                None => {
                    built.push(None);
                },
            }
            i = i + 1;
        }
        cx.set_current(here);
        Handle { entity: e, view: Markdown { doc, built } }
    }

    /// Parses markdown text with comrak, strikethrough and tables on, into the document
    /// of the nodes below comrak's document node: one node for each, in comrak's order,
    /// with its kind, each under the nearest earlier node one level up, or at the top.
    pub fn parse(document: &str) -> (doc: Vec<MdNode>)
        ensures
            doc@ == comrak_doc(document@),
            forall|i: int| 0 <= i < doc@.len() ==> match (#[trigger] doc@[i]).parent {
                Some(p) => p < i && top_depths(document@)[p as int] + 1 == top_depths(document@)[i],
                None => top_depths(document@)[i] == 1,
            },
    {
        let nodes = comrak_nodes(document);
        let ghost d = comrak_depths(document@);
        let ghost ks = comrak_kinds(document@);
        assert(d.len() == nodes@.len());
        let mut depths: Vec<usize> = Vec::new();
        let mut i: usize = 1;
        while i < nodes.len()
            invariant
                1 <= i <= nodes@.len(),
                d == comrak_depths(document@),
                d == Seq::new(nodes@.len(), |k: int| nodes@[k].1),
                forall|k: int| 1 <= k < nodes@.len() ==> 2 <= #[trigger] nodes@[k].1 <= nodes@[k - 1].1 + 1,
                nodes@[0].1 == 1,
                depths@.len() == i - 1,
                forall|k: int| 0 <= k < i - 1 ==> #[trigger] depths@[k] == (d[k + 1] - 1) as usize,
            decreases nodes@.len() - i,
        {
            assert(nodes@[i as int].1 == d[i as int]);
            depths.push(nodes[i].1 - 1);
            i = i + 1;
        }
        let ghost top = top_depths(document@);
        assert(depths@ =~= top);
        assert(preorder_depths(top)) by {
            assert forall|k: int| 1 <= k < top.len() implies 1 <= #[trigger] top[k] <= top[k - 1] + 1 by {
                assert(nodes@[k + 1].1 == d[k + 1]);
                assert(nodes@[k].1 == d[k]);
                assert(2 <= nodes@[k + 1].1 <= nodes@[k].1 + 1);
            }
            if top.len() > 0 {
                assert(nodes@[1].1 == d[1]);
                assert(2 <= nodes@[1].1 <= nodes@[0].1 + 1);
            }
        }
        let parents = parents_from_depths(&depths);
        let n = depths.len();
        let mut rest = nodes;
        let ghost all = rest@;
        let mut doc: Vec<MdNode> = Vec::new();
        let mut k: usize = 0;
        while k < n
            invariant
                0 <= k <= n,
                n == parents@.len(),
                n + 1 == all.len(),
                ks == Seq::new(all.len(), |x: int| all[x].0),
                rest@ == seq![all[0]] + all.subrange(k + 1, all.len() as int),
                doc@.len() == k,
                forall|x: int| 0 <= x < k ==> (#[trigger] doc@[x]).parent == parents@[x] && doc@[x].kind == ks[x + 1],
            decreases n - k,
        {
            assert(rest@[1] == all[k + 1]);
            let (kind, _) = rest.remove(1);
            assert(rest@ =~= seq![all[0]] + all.subrange(k + 2, all.len() as int));
            doc.push(MdNode { kind, parent: parents[k] });
            k = k + 1;
        }
        proof {
            assert(doc@ =~= comrak_doc(document@));
            assert forall|x: int| 0 <= x < doc@.len() implies match (#[trigger] doc@[x]).parent {
                Some(p) => p < x && top[p as int] + 1 == top[x],
                None => top[x] == 1,
            } by {
                assert(doc@[x].parent == nearest_above(top, x, x));
                lemma_nearest_above(top, x, x);
                if doc@[x].parent is None && top[x] >= 2 {
                    if x > 0 {
                        lemma_parent_exists(top, x, x);
                    }
                }
            }
        }
        doc
    }

    /// Whether every code block of a document that is shown has text.
    pub fn code_blocks_checked(doc: &Vec<MdNode>) -> (r: bool)
        ensures
            r == code_blocks_ok(doc@),
    {
        let n = doc.len();
        let mut shown: Vec<bool> = Vec::new();
        let mut ok = true;
        let mut i: usize = 0;
        while i < n
            invariant
                0 <= i <= n,
                n == doc@.len(),
                shown@.len() == i,
                forall|k: int| 0 <= k < i ==> #[trigger] shown@[k] == reached(doc@, k),
                ok == (forall|k: int| 0 <= k < i && #[trigger] reached(doc@, k) ==>
                    (doc@[k].kind matches MdKind::CodeBlock(c) ==> c@.len() > 0)),
            decreases n - i,
        {
            let here = match doc[i].parent {
                None => true,
                Some(p) => p < i && shown[p] && container_of(&doc[p].kind, 0).is_some(),
            };
            proof {
                match doc@[i as int].parent {
                    None => {},
                    Some(p) => {
                        if p < i {
                            assert(md_container(doc@[p as int].kind, 0) is Some <==> shows_children(doc@[p as int].kind));
                            assert(shown@[p as int] == reached(doc@, p as int));
                        }
                    },
                }
                assert(here == reached(doc@, i as int));
            }
            let empty_code = match &doc[i].kind {
                MdKind::CodeBlock(c) => c.as_str().is_empty(),
                _ => false,
            };
            if here && empty_code {
                ok = false;
            }
            shown.push(here);
            i = i + 1;
        }
        ok
    }

    /// Shows a parsed document under the current node: when every shown code block has
    /// text (its final line break is dropped) and the nodes fit, its view is built;
    /// otherwise nothing is, and the result is `None`.
    pub fn show(cx: &mut Context, doc: Vec<MdNode>) -> (r: Option<Handle<Markdown>>)
        ensures
            final(cx).cur() == old(cx).cur(),
            r is Some <==> code_blocks_ok(doc@) && old(cx)@.len() + 7 * doc@.len() + 2 < usize::MAX,
            match r {
                Some(h) => {
                    &&& h.entity == old(cx)@.len()
                    &&& h.view.doc@ == doc@
                    &&& (final(cx)@, h.view.built@) == md_run(old(cx)@.push(NodeView::fresh(Tag::Markdown, old(cx).cur() as nat)),
                        doc@, h.entity, doc@.len())
                },
                None => final(cx)@ == old(cx)@,
            },
    {
        if !Markdown::code_blocks_checked(&doc) {
            return None;
        }
        let len = cx.len();
        let n = doc.len();
        if n > (usize::MAX - 2) / 7 {
            proof {
                assert(7 * n > usize::MAX - 2) by (nonlinear_arith)
                    requires n > (usize::MAX - 2) / 7;
            }
            return None;
        }
        proof {
            assert(7 * n <= usize::MAX - 2) by (nonlinear_arith)
                requires n <= (usize::MAX - 2) / 7;
        }
        if len >= usize::MAX - 2 - 7 * n {
            return None;
        }
        Some(Markdown::build(cx, doc))
    }

    /// Builds the view of markdown text under the current node: the text is parsed
    /// with comrak, and when every shown code block has text (its final line break is
    /// dropped) and the nodes fit, the document's view is built; otherwise nothing is.
    pub fn new(cx: &mut Context, document: &str) -> (r: Option<Handle<Markdown>>)
        ensures
            final(cx).cur() == old(cx).cur(),
            r is Some <==> code_blocks_ok(comrak_doc(document@))
                && old(cx)@.len() + 7 * comrak_doc(document@).len() + 2 < usize::MAX,
            match r {
                Some(h) => {
                    &&& h.entity == old(cx)@.len()
                    &&& h.view.doc@ == comrak_doc(document@)
                    &&& (final(cx)@, h.view.built@) == md_run(old(cx)@.push(NodeView::fresh(Tag::Markdown, old(cx).cur() as nat)),
                        h.view.doc@, h.entity, h.view.doc@.len())
                },
                None => final(cx)@ == old(cx)@,
            },
    {
        let doc = Markdown::parse(document);
        Markdown::show(cx, doc)
    }
}

/// Whether a node is of a kind that is not shown.
fn is_other(kind: &MdKind) -> (r: bool)
    ensures
        r == (*kind is Other),
{
    match kind {
        MdKind::Other => true,
        _ => false,
    }
}

/// The view node the children of a node of this kind go into.
fn container_of(kind: &MdKind, e: usize) -> (r: Option<usize>)
    requires
        e + 2 <= usize::MAX,
    ensures
        r == md_container(*kind, e),
{
    match kind {
        MdKind::Text(_) | MdKind::Code(_) | MdKind::CodeBlock(_) | MdKind::Other => None,
        MdKind::Item => Some(e + 2),
        _ => Some(e),
    }
}

} // verus!
