//! Combo boxes: a textbox that filters a list of options shown in a popup, with
//! keyboard navigation through the options that match.

use vstd::prelude::*;
use crate::ui::{Class, Context, Handle, NodeView, Role, Tag};
use crate::press::Key;
use crate::select::texts;
use crate::text::{chars_of, contains_chars, lower, lower_chars, occurs_in};

verus! {

/// Whether an option matches the filter: every option matches an empty filter, and
/// otherwise an option matches when the filter occurs in it, ignoring ASCII case.
pub open spec fn matches_query(item: Seq<char>, query: Seq<char>) -> bool {
    query.len() == 0 || occurs_in(lower(query), lower(item))
}

/// The indices of the first `k` options that match the filter, in order.
pub open spec fn filtered(items: Seq<Seq<char>>, query: Seq<char>, k: nat) -> Seq<usize>
    decreases k,
{
    if k == 0 {
        Seq::empty()
    } else {
        let f = filtered(items, query, (k - 1) as nat);
        if matches_query(items[k - 1], query) { f.push((k - 1) as usize) } else { f }
    }
}

/// The indices of all options that match the filter.
pub open spec fn matching(items: Seq<Seq<char>>, query: Seq<char>) -> Seq<usize> {
    filtered(items, query, items.len())
}

/// The position of the first `x` in `s` at or after `k`.
pub open spec fn index_of(s: Seq<usize>, x: usize, k: int) -> Option<int>
    decreases s.len() - k,
{
    if k < 0 || k >= s.len() {
        None
    } else if s[k] == x {
        Some(k)
    } else {
        index_of(s, x, k + 1)
    }
}

/// The row of the matching options that keyboard navigation starts from: the
/// highlighted option's, else the selected option's, else the first.
pub open spec fn start_row(f: Seq<usize>, highlighted: Option<usize>, selected: usize) -> int {
    let fallback = match index_of(f, selected, 0) { Some(p) => p, None => 0 };
    match highlighted {
        Some(h) => match index_of(f, h, 0) { Some(p) => p, None => fallback },
        None => fallback,
    }
}

/// Events that a combo box sends itself.
pub enum ComboBoxEvent {
    /// The option with the given index was chosen.
    SetOption(usize),
    /// The text in the textbox changed.
    SetFilterText(String),
}

/// What reaches a combo box's handler.
pub enum ComboInput {
    Combo(ComboBoxEvent),
    /// The textbox started editing.
    StartEdit,
    /// The textbox submitted; `true` when by the enter key.
    Submit(bool),
    KeyDown(Key),
    /// A mouse button went down somewhere in the window: `from_self` when on the combo
    /// box itself, `hovered_inside` when over one of its descendants.
    MouseDown { from_self: bool, hovered_inside: bool },
}

/// An event that the combo box emits for itself to handle next.
#[derive(Clone, Copy, PartialEq, Eq, Structural, Debug)]
pub enum ComboEmit {
    SetOption(usize),
    /// Submit the textbox without the enter key, which chooses the selected option.
    SubmitCancel,
}

/// What a combo box asks for after an input.
#[derive(Clone, Copy, PartialEq, Eq, Structural, Debug)]
pub struct ComboResponse {
    /// The option to hand to the callback.
    pub callback: Option<usize>,
    /// End editing in the textbox.
    pub end_edit: bool,
    pub emit: Option<ComboEmit>,
    pub consumed: bool,
}

/// A response that does nothing.
pub open spec fn quiet() -> ComboResponse {
    ComboResponse { callback: None, end_edit: false, emit: None, consumed: false }
}

/// A textbox over a filtered list of options.
pub struct ComboBox {
    pub items: Vec<String>,
    pub selected: usize,
    pub filter_text: String,
    pub placeholder: String,
    pub is_open: bool,
    pub highlighted: Option<usize>,
    pub has_on_select: bool,
}

/// The placeholder shown for option `i`: its text when it exists, `otherwise` when not.
pub open spec fn option_text(items: Seq<Seq<char>>, i: usize, otherwise: Seq<char>) -> Seq<char> {
    if i < items.len() { items[i as int] } else { otherwise }
}

/// The text "Select".
pub open spec fn select_word() -> Seq<char> {
    seq!['S', 'e', 'l', 'e', 'c', 't']
}

impl ComboBox {
    /// The options' texts.
    pub open spec fn item_texts(&self) -> Seq<Seq<char>> {
        texts(self.items@)
    }

    /// The indices of the options that match the filter text.
    pub fn filtered_indices(&self) -> (r: Vec<usize>)
        ensures
            r@ == matching(self.item_texts(), self.filter_text@),
    {
        let query = lower_chars(&chars_of(&self.filter_text));
        let mut r: Vec<usize> = Vec::new();
        let mut i: usize = 0;
        while i < self.items.len()
            invariant
                0 <= i <= self.items@.len(),
                query@ == lower(self.filter_text@),
                r@ == filtered(self.item_texts(), self.filter_text@, i as nat),
            decreases self.items@.len() - i,
        {
            let hit = if query.len() == 0 {
                true
            } else {
                let item = lower_chars(&chars_of(&self.items[i]));
                contains_chars(&item, &query)
            };
            proof {
                assert(self.item_texts()[i as int] == self.items@[i as int]@);
                assert(lower(self.filter_text@).len() == self.filter_text@.len());
            }
            if hit {
                r.push(i);
            }
            i = i + 1;
        }
        r
    }

    /// Builds a closed combo box over `items` with option `selected` chosen: its
    /// placeholder is that option's text, or "Select" when there is no such option.
    pub fn new(cx: &mut Context, items: Vec<String>, selected: usize) -> (h: Handle<ComboBox>)
        requires
            old(cx)@.len() + 1 < usize::MAX,
        ensures
            h.entity == old(cx)@.len(),
            h.view.items@ == items@,
            h.view.selected == selected,
            h.view.filter_text@ == Seq::<char>::empty(),
            h.view.placeholder@ == option_text(texts(items@), selected, select_word()),
            !h.view.is_open,
            h.view.highlighted == Some(selected),
            !h.view.has_on_select,
            final(cx).cur() == old(cx).cur(),
            final(cx)@ == old(cx)@.push(NodeView::fresh(Tag::ComboBox, old(cx).cur() as nat))
                .push(NodeView::fresh(Tag::Textbox, h.entity as nat).with_role(Role::TextInput).class(Class::Title)),
    {
        let e = cx.add(Tag::ComboBox);
        let t = cx.add_child(e, Tag::Textbox);
        cx.set_role(t, Role::TextInput);
        cx.add_class(t, Class::Title);
        assert(cx@ =~= old(cx)@.push(NodeView::fresh(Tag::ComboBox, old(cx).cur() as nat))
            .push(NodeView::fresh(Tag::Textbox, e as nat).with_role(Role::TextInput).class(Class::Title)));
        let placeholder = if selected < items.len() {
            items[selected].clone()
        } else {
            let word = String::from_str("Select");
            proof {
                reveal_strlit("Select");
            }
            word
        };
        Handle {
            entity: e,
            view: ComboBox {
                items,
                selected,
                filter_text: String::new(),
                placeholder,
                is_open: false,
                highlighted: Some(selected),
                has_on_select: false,
            },
        }
    }

    /// Follows a change of the chosen option made outside: the placeholder shows it
    /// when it exists, and it is highlighted.
    pub fn set_selected(&mut self, selected: usize)
        ensures
            final(self).selected == selected,
            final(self).highlighted == Some(selected),
            final(self).placeholder@ == option_text(old(self).item_texts(), selected, old(self).placeholder@),
            final(self).items@ == old(self).items@,
            final(self).filter_text@ == old(self).filter_text@,
            final(self).is_open == old(self).is_open,
            final(self).has_on_select == old(self).has_on_select,
    {
        if selected < self.items.len() {
            self.placeholder = self.items[selected].clone();
        }
        self.selected = selected;
        self.highlighted = Some(selected);
    }

    /// Moves the highlight one matching option down (`down`) or up, wrapping around.
    fn step_highlight(&mut self, down: bool) -> (consumed: bool)
        ensures
            ({
                let f = matching(old(self).item_texts(), old(self).filter_text@);
                let row = start_row(f, old(self).highlighted, old(self).selected);
                &&& consumed == (old(self).is_open && f.len() > 0)
                &&& final(self).highlighted == if consumed {
                    Some(f[if down { (row + 1) % (f.len() as int) } else if row == 0 { f.len() - 1 } else { row - 1 }])
                } else {
                    old(self).highlighted
                }
            }),
            final(self).items@ == old(self).items@,
            final(self).selected == old(self).selected,
            final(self).filter_text@ == old(self).filter_text@,
            final(self).placeholder@ == old(self).placeholder@,
            final(self).is_open == old(self).is_open,
            final(self).has_on_select == old(self).has_on_select,
    {
        if !self.is_open {
            return false;
        }
        let f = self.filtered_indices();
        if f.len() == 0 {
            return false;
        }
        let row = start_position(&f, self.highlighted, self.selected);
        let next = if down {
            (row + 1) % f.len()
        } else if row == 0 {
            f.len() - 1
        } else {
            row - 1
        };
        self.highlighted = Some(f[next]);
        true
    }

    /// Handles an input.
    pub fn event(&mut self, input: ComboInput) -> (r: ComboResponse)
        ensures
            final(self).items@ == old(self).items@,
            final(self).selected == old(self).selected,
            final(self).has_on_select == old(self).has_on_select,
            ({
                let f = matching(old(self).item_texts(), old(self).filter_text@);
                let row = start_row(f, old(self).highlighted, old(self).selected);
                match input {
                    ComboInput::Combo(ComboBoxEvent::SetOption(i)) => {
                        &&& final(self).placeholder@ == option_text(old(self).item_texts(), i, old(self).placeholder@)
                        &&& final(self).highlighted == Some(i)
                        &&& !final(self).is_open
                        &&& final(self).filter_text@ == Seq::<char>::empty()
                        &&& r == (ComboResponse { callback: if old(self).has_on_select { Some(i) } else { None }, end_edit: true, ..quiet() })
                    },
                    ComboInput::Combo(ComboBoxEvent::SetFilterText(t)) => {
                        let g = matching(old(self).item_texts(), t@);
                        &&& final(self).placeholder@ == t@
                        &&& final(self).filter_text@ == t@
                        &&& final(self).highlighted == if g.len() > 0 { Some(g[0]) } else { None }
                        &&& final(self).is_open
                        &&& r == quiet()
                    },
                    ComboInput::StartEdit => {
                        &&& final(self).placeholder@ == old(self).placeholder@
                        &&& final(self).filter_text@ == old(self).filter_text@
                        &&& final(self).highlighted == if f.len() > 0 { Some(f[0]) } else { Some(old(self).selected) }
                        &&& final(self).is_open
                        &&& r == quiet()
                    },
                    ComboInput::Submit(enter) => {
                        &&& final(self).placeholder@ == old(self).placeholder@
                        &&& final(self).filter_text@ == old(self).filter_text@
                        &&& final(self).highlighted == old(self).highlighted
                        &&& final(self).is_open == old(self).is_open
                        &&& r == if enter { quiet() } else { ComboResponse { emit: Some(ComboEmit::SetOption(old(self).selected)), ..quiet() } }
                    },
                    ComboInput::KeyDown(key) => {
                        &&& final(self).placeholder@ == old(self).placeholder@
                        &&& final(self).filter_text@ == old(self).filter_text@
                        &&& match key {
                            Key::ArrowDown | Key::ArrowUp => {
                                let moves = old(self).is_open && f.len() > 0;
                                &&& final(self).is_open == old(self).is_open
                                &&& final(self).highlighted == if moves {
                                    Some(f[if key == Key::ArrowDown { (row + 1) % (f.len() as int) } else if row == 0 { f.len() - 1 } else { row - 1 }])
                                } else {
                                    old(self).highlighted
                                }
                                &&& r == ComboResponse { consumed: moves, ..quiet() }
                            },
                            Key::Enter => {
                                &&& final(self).is_open == old(self).is_open
                                &&& final(self).highlighted == old(self).highlighted
                                &&& r == if old(self).is_open && old(self).highlighted is Some {
                                    ComboResponse { emit: Some(ComboEmit::SetOption(old(self).highlighted->0)), consumed: true, ..quiet() }
                                } else {
                                    quiet()
                                }
                            },
                            Key::Escape => {
                                &&& final(self).is_open == false
                                &&& final(self).highlighted == old(self).highlighted
                                &&& r == if old(self).is_open { quiet() } else { ComboResponse { emit: Some(ComboEmit::SubmitCancel), ..quiet() } }
                            },
                            _ => {
                                &&& final(self).is_open == old(self).is_open
                                &&& final(self).highlighted == old(self).highlighted
                                &&& r == quiet()
                            },
                        }
                    },
                    ComboInput::MouseDown { from_self, hovered_inside } => {
                        let away = old(self).is_open && !from_self && !hovered_inside;
                        &&& final(self).placeholder@ == old(self).placeholder@
                        &&& final(self).filter_text@ == old(self).filter_text@
                        &&& final(self).highlighted == old(self).highlighted
                        &&& final(self).is_open == old(self).is_open
                        &&& r == if away {
                            ComboResponse { emit: Some(ComboEmit::SubmitCancel), end_edit: true, consumed: true, callback: None }
                        } else {
                            quiet()
                        }
                    },
                }
            }),
    {
        let none = ComboResponse { callback: None, end_edit: false, emit: None, consumed: false };
        match input {
            ComboInput::Combo(ComboBoxEvent::SetOption(i)) => {
                if i < self.items.len() {
                    self.placeholder = self.items[i].clone();
                }
                self.highlighted = Some(i);
                self.is_open = false;
                self.filter_text = String::new();
                ComboResponse { callback: if self.has_on_select { Some(i) } else { None }, end_edit: true, emit: None, consumed: false }
            }
            ComboInput::Combo(ComboBoxEvent::SetFilterText(t)) => {
                self.placeholder = t.clone();
                self.filter_text = t;
                let g = self.filtered_indices();
                self.highlighted = if g.len() > 0 { Some(g[0]) } else { None };
                self.is_open = true;
                none
            }
            ComboInput::StartEdit => {
                self.is_open = true;
                let f = self.filtered_indices();
                self.highlighted = if f.len() > 0 { Some(f[0]) } else { Some(self.selected) };
                none
            }
            ComboInput::Submit(enter) => {
                if enter {
                    none
                } else {
                    ComboResponse { callback: None, end_edit: false, emit: Some(ComboEmit::SetOption(self.selected)), consumed: false }
                }
            }
            ComboInput::KeyDown(key) => {
                match key {
                    Key::ArrowDown => {
                        let consumed = self.step_highlight(true);
                        ComboResponse { callback: None, end_edit: false, emit: None, consumed }
                    }
                    Key::ArrowUp => {
                        let consumed = self.step_highlight(false);
                        ComboResponse { callback: None, end_edit: false, emit: None, consumed }
                    }
                    Key::Enter => {
                        if self.is_open {
                            match self.highlighted {
                                Some(i) => ComboResponse { callback: None, end_edit: false, emit: Some(ComboEmit::SetOption(i)), consumed: true },
                                None => none,
                            }
                        } else {
                            none
                        }
                    }
                    Key::Escape => {
                        if self.is_open {
                            self.is_open = false;
                            none
                        } else {
                            ComboResponse { callback: None, end_edit: false, emit: Some(ComboEmit::SubmitCancel), consumed: false }
                        }
                    }
                    _ => none,
                }
            }
            ComboInput::MouseDown { from_self, hovered_inside } => {
                if self.is_open && !from_self && !hovered_inside {
                    ComboResponse { callback: None, end_edit: true, emit: Some(ComboEmit::SubmitCancel), consumed: true }
                } else {
                    none
                }
            }
        }
    }
}

/// The position of the first `x` in `s`, computed.
fn position_of(s: &Vec<usize>, x: usize) -> (r: Option<usize>)
    ensures
        match r {
            Some(p) => index_of(s@, x, 0) == Some(p as int),
            None => index_of(s@, x, 0) is None,
        },
{
    let mut i: usize = 0;
    while i < s.len()
        invariant
            0 <= i <= s@.len(),
            index_of(s@, x, 0) == index_of(s@, x, i as int),
        decreases s@.len() - i,
    {
        if s[i] == x {
            return Some(i);
        }
        i = i + 1;
    }
    None
}

/// The row that keyboard navigation starts from, computed.
fn start_position(f: &Vec<usize>, highlighted: Option<usize>, selected: usize) -> (r: usize)
    requires
        f@.len() > 0,
    ensures
        r as int == start_row(f@, highlighted, selected),
        r < f@.len(),
{
    proof {
        lemma_index_of_bounds(f@, selected, 0);
        if let Some(h) = highlighted {
            lemma_index_of_bounds(f@, h, 0);
        }
    }
    let fallback = match position_of(f, selected) {
        Some(p) => p,
        None => 0,
    };
    match highlighted {
        Some(h) => match position_of(f, h) {
            Some(p) => p,
            None => fallback,
        },
        None => fallback,
    }
}

/// A found position lies in the sequence.
proof fn lemma_index_of_bounds(s: Seq<usize>, x: usize, k: int)
    ensures
        index_of(s, x, k) matches Some(p) ==> 0 <= p < s.len() && s[p] == x,
    decreases s.len() - k,
{
    if k < 0 || k >= s.len() {
    } else if s[k] == x {
    } else {
        lemma_index_of_bounds(s, x, k + 1);
    }
}

impl Handle<ComboBox> {
    /// Attaches the callback that receives the chosen option.
    pub fn on_select(self) -> (h: Handle<ComboBox>)
        ensures
            h.entity == self.entity,
            h.view.has_on_select,
            h.view.items@ == self.view.items@,
            h.view.selected == self.view.selected,
            h.view.filter_text@ == self.view.filter_text@,
            h.view.placeholder@ == self.view.placeholder@,
            h.view.is_open == self.view.is_open,
            h.view.highlighted == self.view.highlighted,
    {
        let mut h = self;
        h.view.has_on_select = true;
        h
    }
}


/// The options that match are listed in increasing order, each below `k`.
proof fn lemma_filtered_increasing(items: Seq<Seq<char>>, query: Seq<char>, k: nat)
    requires
        k <= items.len() <= usize::MAX,
    ensures
        forall|i: int, j: int| 0 <= i < j < filtered(items, query, k).len() ==>
            filtered(items, query, k)[i] < filtered(items, query, k)[j],
        forall|i: int| 0 <= i < filtered(items, query, k).len() ==> #[trigger] filtered(items, query, k)[i] < k,
    decreases k,
{
    if k > 0 {
        lemma_filtered_increasing(items, query, (k - 1) as nat);
        let f = filtered(items, query, (k - 1) as nat);
        if matches_query(items[k - 1], query) {
            assert(filtered(items, query, k) == f.push((k - 1) as usize));
            assert forall|i: int| 0 <= i < f.len() + 1 implies #[trigger] f.push((k - 1) as usize)[i] < k by {
                if i < f.len() {
                    assert(f.push((k - 1) as usize)[i] == f[i]);
                }
            }
        }
    }
}

/// In a list without repeats, searching from row `j` at or before row `k` finds the
/// entry of row `k` there.
proof fn lemma_index_of_row(f: Seq<usize>, k: int, j: int)
    requires
        forall|a: int, b: int| 0 <= a < b < f.len() ==> f[a] < f[b],
        0 <= j <= k < f.len(),
    ensures
        index_of(f, f[k], j) == Some(k),
    decreases k - j,
{
    if j < k {
        lemma_index_of_row(f, k, j + 1);
    }
}

/// Keyboard navigation stays among the matching options, which are listed once each:
/// from the option at row `k`, the down arrow highlights the next row (the first after
/// the last), and the up arrow from there comes back to row `k`.
pub proof fn law_arrows_undo_each_other(items: Seq<Seq<char>>, query: Seq<char>, k: int, selected: usize)
    requires
        items.len() <= usize::MAX,
        0 <= k < matching(items, query).len(),
    ensures
        ({
            let f = matching(items, query);
            let n = f.len() as int;
            let down = (k + 1) % n;
            let back = if down == 0 { n - 1 } else { down - 1 };
            &&& forall|i: int, j: int| 0 <= i < j < n ==> f[i] != f[j]
            &&& start_row(f, Some(f[k]), selected) == k
            &&& 0 <= down < n
            &&& start_row(f, Some(f[down]), selected) == down
            &&& back == k
        }),
{
    let f = matching(items, query);
    let n = f.len() as int;
    lemma_filtered_increasing(items, query, items.len());
    lemma_index_of_row(f, k, 0);
    let down = (k + 1) % n;
    if k + 1 < n {
        assert((k + 1) % n == k + 1) by (nonlinear_arith)
            requires 0 <= k + 1 < n;
    } else {
        assert((k + 1) % n == 0) by (nonlinear_arith)
            requires k + 1 == n, n > 0;
    }
    lemma_index_of_row(f, down, 0);
}

} // verus!
