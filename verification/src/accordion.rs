//! An accordion: a column of collapsible sections of which at most one is open, with
//! keyboard navigation between their headers.

use vstd::prelude::*;
use crate::ui::{within, Class, Context, Handle, NodeView, Tag};
use crate::label::{label_node, Label};
use crate::collapsible::{collapsible_nodes, Collapsible};
use crate::layout::Divider;
use crate::press::Key;

verus! {

/// The header and the content text of one section of an accordion.
pub struct AccordionPair {
    pub header: String,
    pub content: String,
}

impl AccordionPair {
    /// Pairs a header with the content it opens.
    pub fn new(header: String, content: String) -> (p: AccordionPair)
        ensures
            p.header@ == header@,
            p.content@ == content@,
    {
        AccordionPair { header, content }
    }
}

/// The texts of a list of sections.
pub open spec fn pair_texts(pairs: Seq<AccordionPair>) -> Seq<(Seq<char>, Seq<char>)> {
    Seq::new(pairs.len(), |i: int| (pairs[i].header@, pairs[i].content@))
}

/// The nodes of one section appended under the accordion `acc`: the collapsible
/// section, its content label, and a horizontal divider unless it is the last one.
pub open spec fn section_nodes(s: Seq<NodeView>, acc: nat, texts: (Seq<char>, Seq<char>), last: bool) -> Seq<NodeView> {
    let c = collapsible_nodes(s, acc, texts.0).push(label_node(s.len() + 4, texts.1));
    if last {
        c
    } else {
        c.push(NodeView::fresh(Tag::Divider, acc).class(Class::Horizontal))
            .push(NodeView::fresh(Tag::Element, c.len()).class(Class::DividerLine))
    }
}

/// The tree after the first `k` sections of `texts` were appended under `acc`.
pub open spec fn sections(s: Seq<NodeView>, acc: nat, texts: Seq<(Seq<char>, Seq<char>)>, k: nat) -> Seq<NodeView>
    decreases k,
{
    if k == 0 {
        s
    } else {
        section_nodes(sections(s, acc, texts, (k - 1) as nat), acc, texts[k - 1], k == texts.len())
    }
}

/// The node of section `j` of an accordion at `acc`; each section but the last takes
/// eight nodes.
pub open spec fn section_at(acc: int, j: int) -> int {
    acc + 1 + 8 * j
}

/// Events of an accordion.
#[derive(Clone, Copy, PartialEq, Eq, Structural, Debug)]
pub enum AccordionEvent {
    /// Opens the section with the given index, or closes all of them.
    SetOpen(Option<usize>),
    /// Forgets the registered headers.
    ClearHeaders,
    /// Registers the header node of the section with the given index.
    RegisterHeader(usize, usize),
    FocusNextHeader,
    FocusPrevHeader,
    FocusFirstHeader,
    FocusLastHeader,
}

/// What an accordion asks to be done after an event.
#[derive(Clone, Copy, PartialEq, Eq, Structural, Debug)]
pub enum AccordionAction {
    Nothing,
    /// Move focus to the given header; `None` stands for a header slot that no header
    /// was registered in.
    Focus(Option<usize>),
}

/// A column of collapsible sections.
pub struct Accordion {
    /// The open section, if one is open.
    pub open_index: Option<usize>,
    /// The header node of each section, by index, where one was registered.
    pub header_entities: Vec<Option<usize>>,
    /// The node of each section.
    pub sections: Vec<usize>,
}

/// Whether `h` is a registered header that `focused` lies in.
pub open spec fn holds_focus(s: Seq<NodeView>, focused: int, h: Option<usize>) -> bool {
    h matches Some(x) && within(s, focused, x as int)
}

/// The first header at or after `k` that holds the focus.
pub open spec fn first_focused_from(s: Seq<NodeView>, hs: Seq<Option<usize>>, focused: int, k: int) -> Option<usize>
    decreases hs.len() - k,
{
    if k < 0 || k >= hs.len() {
        None
    } else if holds_focus(s, focused, hs[k]) {
        Some(k as usize)
    } else {
        first_focused_from(s, hs, focused, k + 1)
    }
}

/// The tree after the open class of the first `k` sections was set: section `j`
/// carries it exactly when `j` is the open index.
pub open spec fn opened(s: Seq<NodeView>, secs: Seq<usize>, open: Option<usize>, k: nat) -> Seq<NodeView>
    decreases k,
{
    if k == 0 || k > secs.len() {
        s
    } else {
        let t = opened(s, secs, open, (k - 1) as nat);
        let e = secs[k - 1] as int;
        t.update(e, t[e].toggled(Class::Open, open == Some((k - 1) as usize)))
    }
}

/// The header slots after registering header `e` at `index`: the slots grow with
/// empty ones up to `index`, and slot `index` holds `e`.
pub open spec fn registered(hs: Seq<Option<usize>>, index: nat, e: usize) -> Seq<Option<usize>> {
    let grown = if hs.len() <= index { hs + Seq::new((index + 1 - hs.len()) as nat, |i: int| None::<usize>) } else { hs };
    grown.update(index as int, Some(e))
}

impl Accordion {
    /// The state after an event.
    pub open spec fn after(self, event: AccordionEvent) -> (Option<usize>, Seq<Option<usize>>) {
        match event {
            AccordionEvent::SetOpen(i) => (i, self.header_entities@),
            AccordionEvent::ClearHeaders => (self.open_index, Seq::empty()),
            AccordionEvent::RegisterHeader(i, e) => (self.open_index, registered(self.header_entities@, i as nat, e)),
            _ => (self.open_index, self.header_entities@),
        }
    }

    /// What the accordion asks for after an event, with focus on `focused`.
    pub open spec fn action(self, s: Seq<NodeView>, focused: int, event: AccordionEvent) -> AccordionAction {
        let hs = self.header_entities@;
        let f = first_focused_from(s, hs, focused, 0);
        match event {
            AccordionEvent::FocusNextHeader => match f {
                Some(i) => AccordionAction::Focus(hs[(i + 1) % (hs.len() as int)]),
                None => AccordionAction::Nothing,
            },
            AccordionEvent::FocusPrevHeader => match f {
                Some(i) => AccordionAction::Focus(hs[if i == 0 { hs.len() - 1 } else { i - 1 }]),
                None => AccordionAction::Nothing,
            },
            AccordionEvent::FocusFirstHeader => if hs.len() > 0 {
                AccordionAction::Focus(hs[0])
            } else {
                AccordionAction::Nothing
            },
            AccordionEvent::FocusLastHeader => if hs.len() > 0 {
                AccordionAction::Focus(hs[hs.len() - 1])
            } else {
                AccordionAction::Nothing
            },
            _ => AccordionAction::Nothing,
        }
    }

    /// The index of the section whose header holds the focus, if any.
    pub fn focused_header_index(&self, cx: &Context, focused: usize) -> (r: Option<usize>)
        requires
            (focused as int) < cx@.len(),
        ensures
            r == first_focused_from(cx@, self.header_entities@, focused as int, 0),
            r matches Some(i) ==> i < self.header_entities@.len(),
    {
        let n = self.header_entities.len();
        let mut i: usize = 0;
        while i < n
            invariant
                0 <= i <= n,
                n == self.header_entities@.len(),
                (focused as int) < cx@.len(),
                first_focused_from(cx@, self.header_entities@, focused as int, 0)
                    == first_focused_from(cx@, self.header_entities@, focused as int, i as int),
            decreases n - i,
        {
            match self.header_entities[i] {
                Some(h) => {
                    if cx.is_within(focused, h) {
                        return Some(i);
                    }
                }
                None => {}
            }
            i = i + 1;
        }
        None
    }

    /// Whether a key press is the accordion's to consume: the navigation keys while a
    /// header holds the focus.
    pub fn key_down(&self, cx: &Context, focused: usize, key: Key) -> (consumed: bool)
        requires
            (focused as int) < cx@.len(),
        ensures
            consumed == ((key == Key::ArrowDown || key == Key::ArrowUp || key == Key::Home || key == Key::End)
                && first_focused_from(cx@, self.header_entities@, focused as int, 0) is Some),
    {
        match key {
            Key::ArrowDown | Key::ArrowUp | Key::Home | Key::End => self.focused_header_index(cx, focused).is_some(),
            _ => false,
        }
    }
}

/// The key that each navigation event is bound to.
pub open spec fn keymap(key: Key) -> Option<AccordionEvent> {
    match key {
        Key::ArrowDown => Some(AccordionEvent::FocusNextHeader),
        Key::ArrowUp => Some(AccordionEvent::FocusPrevHeader),
        Key::Home => Some(AccordionEvent::FocusFirstHeader),
        Key::End => Some(AccordionEvent::FocusLastHeader),
        _ => None,
    }
}

/// The accordion event a key press emits.
pub fn key_binding(key: Key) -> (r: Option<AccordionEvent>)
    ensures
        r == keymap(key),
{
    match key {
        Key::ArrowDown => Some(AccordionEvent::FocusNextHeader),
        Key::ArrowUp => Some(AccordionEvent::FocusPrevHeader),
        Key::Home => Some(AccordionEvent::FocusFirstHeader),
        Key::End => Some(AccordionEvent::FocusLastHeader),
        _ => None,
    }
}

impl Accordion {
    /// Builds an accordion holding one closed section per pair, separated by horizontal
    /// dividers, with the header of each section registered.
    pub fn new(cx: &mut Context, pairs: &Vec<AccordionPair>) -> (h: Handle<Accordion>)
        requires
            old(cx)@.len() + 8 * pairs@.len() + 2 < usize::MAX,
        ensures
            h.entity == old(cx)@.len(),
            h.view.open_index is None,
            h.view.header_entities@ == Seq::new(pairs@.len(), |j: int| Some((section_at(h.entity as int, j) + 1) as usize)),
            h.view.sections@ == Seq::new(pairs@.len(), |j: int| section_at(h.entity as int, j) as usize),
            final(cx).cur() == old(cx).cur(),
            final(cx)@ == sections(old(cx)@.push(NodeView::fresh(Tag::Accordion, old(cx).cur() as nat)),
                h.entity as nat, pair_texts(pairs@), pairs@.len()),
    {
        let here = cx.current();
        let e = cx.add(Tag::Accordion);
        let ghost start = cx@;
        let ghost texts = pair_texts(pairs@);
        cx.set_current(e);
        let n = pairs.len();
        let mut headers: Vec<Option<usize>> = Vec::new();
        let mut items: Vec<usize> = Vec::new();
        let mut i: usize = 0;
        while i < n
            invariant
                0 <= i <= n,
                n == pairs@.len(),
                texts == pair_texts(pairs@),
                e == start.len() - 1,
                start.len() + 8 * n + 1 < usize::MAX,
                cx.cur() == e,
                cx@ == sections(start, e as nat, texts, i as nat),
                cx@.len() == section_at(e as int, i as int) - (if i == n && n > 0 { 2int } else { 0int }),
                headers@ == Seq::new(i as nat, |j: int| Some((section_at(e as int, j) + 1) as usize)),
                items@ == Seq::new(i as nat, |j: int| section_at(e as int, j) as usize),
            decreases n - i,
        {
            let ghost before = cx@;
            let c = Collapsible::new(cx, pairs[i].header.clone());
            cx.set_current(c.view.content);
            let _content = Label::new(cx, pairs[i].content.clone());
            cx.set_current(e);
            let last = i + 1 == n;
            if !last {
                let _d = Divider::horizontal(cx);
            }
            proof {
                assert(texts[i as int] == (pairs@[i as int].header@, pairs@[i as int].content@));
                assert(cx@ =~= section_nodes(before, e as nat, texts[i as int], last));
            }
            headers.push(Some(c.view.header));
            items.push(c.entity);
            proof {
                assert(headers@ =~= Seq::new((i + 1) as nat, |j: int| Some((section_at(e as int, j) + 1) as usize)));
                assert(items@ =~= Seq::new((i + 1) as nat, |j: int| section_at(e as int, j) as usize));
            }
            i = i + 1;
        }
        cx.set_current(here);
        Handle { entity: e, view: Accordion { open_index: None, header_entities: headers, sections: items } }
    }
}

impl Handle<Accordion> {
    /// Opens section `index`, or closes all sections.
    pub fn with_open(self, cx: &mut Context, index: Option<usize>) -> (h: Handle<Accordion>)
        requires
            forall|j: int| 0 <= j < self.view.sections@.len() ==> (self.view.sections@[j] as int) < old(cx)@.len(),
        ensures
            h.entity == self.entity,
            h.view.open_index == index,
            h.view.header_entities@ == self.view.header_entities@,
            h.view.sections@ == self.view.sections@,
            final(cx).cur() == old(cx).cur(),
            final(cx)@ == opened(old(cx)@, self.view.sections@, index, self.view.sections@.len()),
    {
        let mut h = self;
        h.set_open(cx, index);
        h
    }

    /// Sets the open section and the open class of every section node.
    fn set_open(&mut self, cx: &mut Context, index: Option<usize>)
        requires
            forall|j: int| 0 <= j < old(self).view.sections@.len() ==> (old(self).view.sections@[j] as int) < old(cx)@.len(),
        ensures
            final(self).entity == old(self).entity,
            final(self).view.open_index == index,
            final(self).view.header_entities@ == old(self).view.header_entities@,
            final(self).view.sections@ == old(self).view.sections@,
            final(cx).cur() == old(cx).cur(),
            final(cx)@ == opened(old(cx)@, old(self).view.sections@, index, old(self).view.sections@.len()),
    {
        self.view.open_index = index;
        let n = self.view.sections.len();
        let ghost secs = self.view.sections@;
        let mut j: usize = 0;
        while j < n
            invariant
                0 <= j <= n,
                n == secs.len(),
                secs == self.view.sections@,
                forall|k: int| 0 <= k < secs.len() ==> (secs[k] as int) < old(cx)@.len(),
                cx.cur() == old(cx).cur(),
                cx@.len() == old(cx)@.len(),
                cx@ == opened(old(cx)@, secs, index, j as nat),
            decreases n - j,
        {
            let s = self.view.sections[j];
            cx.toggle_class(s, Class::Open, index == Some(j));
            j = j + 1;
        }
    }

    /// Handles an accordion event with focus on `focused`.
    pub fn event(&mut self, cx: &mut Context, focused: usize, event: AccordionEvent) -> (r: AccordionAction)
        requires
            (focused as int) < old(cx)@.len(),
            forall|j: int| 0 <= j < old(self).view.sections@.len() ==> (old(self).view.sections@[j] as int) < old(cx)@.len(),
            event matches AccordionEvent::RegisterHeader(i, _) ==> i < usize::MAX,
        ensures
            final(self).entity == old(self).entity,
            final(self).view.sections@ == old(self).view.sections@,
            (final(self).view.open_index, final(self).view.header_entities@) == old(self).view.after(event),
            r == old(self).view.action(old(cx)@, focused as int, event),
            final(cx).cur() == old(cx).cur(),
            final(cx)@ == match event {
                AccordionEvent::SetOpen(i) => opened(old(cx)@, old(self).view.sections@, i, old(self).view.sections@.len()),
                _ => old(cx)@,
            },
    {
        match event {
            AccordionEvent::SetOpen(i) => {
                Handle::<Accordion>::set_open(&mut *self, cx, i);
                AccordionAction::Nothing
            }
            AccordionEvent::ClearHeaders => {
                self.view.header_entities = Vec::new();
                AccordionAction::Nothing
            }
            AccordionEvent::RegisterHeader(index, entity) => {
                let ghost hs = self.view.header_entities@;
                if self.view.header_entities.len() <= index {
                    while self.view.header_entities.len() < index + 1
                        invariant
                            index < usize::MAX,
                            hs.len() <= index,
                            self.entity == old(self).entity,
                            self.view.sections@ == old(self).view.sections@,
                            self.view.open_index == old(self).view.open_index,
                            hs.len() <= self.view.header_entities@.len() <= index + 1,
                            self.view.header_entities@ =~= hs + Seq::new((self.view.header_entities@.len() - hs.len()) as nat, |i: int| None::<usize>),
                        decreases index + 1 - self.view.header_entities@.len(),
                    {
                        self.view.header_entities.push(None);
                    }
                }
                self.view.header_entities.set(index, Some(entity));
                assert(self.view.header_entities@ =~= registered(hs, index as nat, entity));
                AccordionAction::Nothing
            }
            AccordionEvent::FocusNextHeader => {
                match self.view.focused_header_index(cx, focused) {
                    Some(i) => {
                        let n = self.view.header_entities.len();
                        AccordionAction::Focus(self.view.header_entities[(i + 1) % n])
                    }
                    None => AccordionAction::Nothing,
                }
            }
            AccordionEvent::FocusPrevHeader => {
                match self.view.focused_header_index(cx, focused) {
                    Some(i) => {
                        let n = self.view.header_entities.len();
                        let p = if i == 0 { n - 1 } else { i - 1 };
                        AccordionAction::Focus(self.view.header_entities[p])
                    }
                    None => AccordionAction::Nothing,
                }
            }
            AccordionEvent::FocusFirstHeader => {
                if self.view.header_entities.len() > 0 {
                    AccordionAction::Focus(self.view.header_entities[0])
                } else {
                    AccordionAction::Nothing
                }
            }
            AccordionEvent::FocusLastHeader => {
                let n = self.view.header_entities.len();
                if n > 0 {
                    AccordionAction::Focus(self.view.header_entities[n - 1])
                } else {
                    AccordionAction::Nothing
                }
            }
        }
    }
}


/// Setting the open class of the first `k` sections keeps the tree's length, and each
/// of those sections carries the class exactly when it is the open one.
proof fn lemma_opened(s: Seq<NodeView>, secs: Seq<usize>, open: Option<usize>, k: nat)
    requires
        k <= secs.len() <= usize::MAX,
        forall|a: int, b: int| 0 <= a < b < secs.len() ==> secs[a] != secs[b],
        forall|a: int| 0 <= a < secs.len() ==> (#[trigger] secs[a] as int) < s.len(),
    ensures
        opened(s, secs, open, k).len() == s.len(),
        forall|j: int| 0 <= j < k ==> (#[trigger] opened(s, secs, open, k)[secs[j] as int]).classes.contains(Class::Open)
            == (open == Some(j as usize)),
    decreases k,
{
    if k > 0 {
        lemma_opened(s, secs, open, (k - 1) as nat);
        let t = opened(s, secs, open, (k - 1) as nat);
        let e = secs[k - 1] as int;
        assert forall|j: int| 0 <= j < k implies (#[trigger] opened(s, secs, open, k)[secs[j] as int]).classes.contains(Class::Open)
            == (open == Some(j as usize)) by {
            if j < k - 1 {
                assert(secs[j] != secs[k - 1]);
            }
        }
    }
}

/// At most one section of an accordion is open: after the open index is set, a
/// section carries the open class exactly when it is the open one.
pub proof fn law_at_most_one_open(s: Seq<NodeView>, secs: Seq<usize>, open: Option<usize>, j: int)
    requires
        secs.len() <= usize::MAX,
        forall|a: int, b: int| 0 <= a < b < secs.len() ==> secs[a] != secs[b],
        forall|a: int| 0 <= a < secs.len() ==> (#[trigger] secs[a] as int) < s.len(),
        0 <= j < secs.len(),
    ensures
        opened(s, secs, open, secs.len())[secs[j] as int].classes.contains(Class::Open) == (open == Some(j as usize)),
{
    lemma_opened(s, secs, open, secs.len());
}

} // verus!
