//! A view listing the key bindings of the keymaps below a view.

use vstd::prelude::*;
use crate::ui::{Context, Handle, NodeView, Tag};
use crate::press::Key;
use crate::list::{list_node, List};

verus! {

/// A key with the modifiers held with it.
#[derive(Clone, Copy, PartialEq, Eq, Structural, Debug)]
pub struct KeyChord {
    pub logo: bool,
    pub ctrl: bool,
    pub shift: bool,
    pub alt: bool,
    pub code: Key,
}

/// Events of a key binding view.
#[derive(Clone, Copy, PartialEq, Eq, Structural, Debug)]
pub enum KeyBindEvent {
    Create,
}

/// The labels a modifier adds when held: its name and a plus sign.
pub open spec fn modifier_labels(held: bool, name: Seq<char>) -> Seq<Seq<char>> {
    if held { seq![name, seq!['+']] } else { Seq::empty() }
}

/// The label of a key: the arrows and escape have names, every other key is a
/// question mark.
pub open spec fn key_label(k: Key) -> Seq<char> {
    match k {
        Key::ArrowDown => seq!['A', 'r', 'r', 'o', 'w', 'D', 'o', 'w', 'n'],
        Key::ArrowUp => seq!['A', 'r', 'r', 'o', 'w', 'U', 'p'],
        Key::Escape => seq!['E', 's', 'c'],
        _ => seq!['?'],
    }
}

/// The labels shown for a chord: each held modifier, in the order logo, control,
/// shift, alt, with a plus sign after it, then the key.
pub open spec fn chord_labels_spec(c: KeyChord) -> Seq<Seq<char>> {
    modifier_labels(c.logo, seq!['L', 'o', 'g', 'o'])
        + modifier_labels(c.ctrl, seq!['C', 't', 'r', 'l'])
        + modifier_labels(c.shift, seq!['S', 'h', 'i', 'f', 't'])
        + modifier_labels(c.alt, seq!['A', 'l', 't'])
        + seq![key_label(c.code)]
}

/// The texts of a list of strings.
pub open spec fn texts_of(v: Seq<String>) -> Seq<Seq<char>> {
    Seq::new(v.len(), |i: int| v[i]@)
}

/// Appends a modifier's labels when it is held.
fn push_modifier(v: &mut Vec<String>, held: bool, name: &str)
    ensures
        texts_of(final(v)@) == texts_of(old(v)@) + modifier_labels(held, name@),
{
    if held {
        let first = name.to_owned();
        v.push(first);
        let plus = "+";
        proof {
            reveal_strlit("+");
        }
        let second = plus.to_owned();
        v.push(second);
        let ghost n = old(v)@.len();
        assert(v@.len() == n + 2);
        assert(v@[n as int]@ == name@);
        assert(v@[n as int + 1]@ == seq!['+']);
        assert forall|i: int| 0 <= i < n implies v@[i] == old(v)@[i] by {}
        assert(texts_of(v@) =~= texts_of(old(v)@) + modifier_labels(held, name@));
    } else {
        assert(texts_of(v@) =~= texts_of(old(v)@) + modifier_labels(held, name@));
    }
}

/// The label of a key, computed.
fn key_name(code: Key) -> (s: String)
    ensures
        s@ == key_label(code),
{
    match code {
        Key::ArrowDown => {
            let s = "ArrowDown";
            proof {
                reveal_strlit("ArrowDown");
            }
            s.to_owned()
        }
        Key::ArrowUp => {
            let s = "ArrowUp";
            proof {
                reveal_strlit("ArrowUp");
            }
            s.to_owned()
        }
        Key::Escape => {
            let s = "Esc";
            proof {
                reveal_strlit("Esc");
            }
            s.to_owned()
        }
        _ => {
            let s = "?";
            proof {
                reveal_strlit("?");
            }
            s.to_owned()
        }
    }
}

/// The labels shown for a chord.
pub fn chord_labels(c: KeyChord) -> (v: Vec<String>)
    ensures
        texts_of(v@) == chord_labels_spec(c),
{
    let mut v: Vec<String> = Vec::new();
    let logo = "Logo";
    let ctrl = "Ctrl";
    let shift = "Shift";
    let alt = "Alt";
    proof {
        reveal_strlit("Logo");
        reveal_strlit("Ctrl");
        reveal_strlit("Shift");
        reveal_strlit("Alt");
    }
    push_modifier(&mut v, c.logo, logo);
    push_modifier(&mut v, c.ctrl, ctrl);
    push_modifier(&mut v, c.shift, shift);
    push_modifier(&mut v, c.alt, alt);
    proof {
        assert(logo@ =~= seq!['L', 'o', 'g', 'o']);
        assert(ctrl@ =~= seq!['C', 't', 'r', 'l']);
        assert(shift@ =~= seq!['S', 'h', 'i', 'f', 't']);
        assert(alt@ =~= seq!['A', 'l', 't']);
    }
    let ghost before = v@;
    v.push(key_name(c.code));
    proof {
        assert(texts_of(v@) =~= texts_of(before) + seq![key_label(c.code)]);
    }
    v
}

/// One binding: the action's name and its chord.
pub struct Binding {
    pub action: String,
    pub chord: KeyChord,
}

/// The bindings of one keymap, under its name.
pub struct KeymapBindings {
    pub name: String,
    pub bindings: Vec<Binding>,
}

/// A view listing key bindings.
pub struct KeyBindView {
    /// The view whose subtree the keymaps are collected from.
    pub entity: usize,
    pub bindings: Vec<KeymapBindings>,
}

impl KeyBindView {
    /// Builds a key binding view for the keymaps below `entity`: the view and an empty
    /// list inside it, filled once the keymaps are collected.
    pub fn new(cx: &mut Context, entity: usize) -> (h: Handle<KeyBindView>)
        requires
            old(cx)@.len() + 3 < usize::MAX,
        ensures
            h.entity == old(cx)@.len(),
            h.view.entity == entity,
            h.view.bindings@.len() == 0,
            final(cx).cur() == old(cx).cur(),
            final(cx)@ == old(cx)@.push(NodeView::fresh(Tag::KeyBindView, old(cx).cur() as nat))
                .push(list_node(h.entity as nat)).push(NodeView::fresh(Tag::ScrollView, (h.entity + 1) as nat)),
    {
        let here = cx.current();
        let e = cx.add(Tag::KeyBindView);
        cx.set_current(e);
        let _list = List::new(cx, 0);
        cx.set_current(here);
        assert(cx@ =~= old(cx)@.push(NodeView::fresh(Tag::KeyBindView, old(cx).cur() as nat))
            .push(list_node(e as nat)).push(NodeView::fresh(Tag::ScrollView, (e + 1) as nat)));
        Handle { entity: e, view: KeyBindView { entity, bindings: Vec::new() } }
    }

    /// Records the keymaps found below the view, in the order they were found, after
    /// those recorded before.
    pub fn create(&mut self, found: Vec<KeymapBindings>)
        ensures
            final(self).entity == old(self).entity,
            final(self).bindings@ == old(self).bindings@ + found@,
    {
        let mut found = found;
        self.bindings.append(&mut found);
    }
}

} // verus!
