//! Textboxes: the text a textbox shows (its value, masked for passwords, or its
//! placeholder), the limits on what can be typed, and the conversions between byte
//! offsets and grapheme positions that editing needs.

use vstd::prelude::*;
use vstd::utf8::{encode_utf8, is_char_boundary};
use vstd::string::StringSliceAdditionalSpecFns;
use unicode_segmentation::UnicodeSegmentation;
use crate::text::{chars_of, string_from_chars};
use crate::ui::{Class, Context, Handle, NodeView, Role, Tag};
use vstd::string::StrSliceExecFns;

verus! {

/// A movement of the text cursor.
#[derive(Clone, Copy, PartialEq, Eq, Structural, Debug)]
pub enum TextMovement {
    Left,
    Right,
    WordLeft,
    WordRight,
    Up,
    Down,
    LineStart,
    LineEnd,
}

/// What a deletion removes.
#[derive(Clone, Copy, PartialEq, Eq, Structural, Debug)]
pub enum DeleteMovement {
    BackwardGrapheme,
    BackwardWord,
    BackwardToLineStart,
    ForwardGrapheme,
    ForwardWord,
}

/// The extended grapheme clusters of a text, in order, as unicode-segmentation
/// splits it.
pub uninterp spec fn grapheme_split(s: Seq<char>) -> Seq<Seq<char>>;

/// The texts of a list of strings.
pub open spec fn views_of(v: Seq<String>) -> Seq<Seq<char>> {
    Seq::new(v.len(), |i: int| v[i]@)
}

/// Pieces of text joined in order.
pub open spec fn concat(gs: Seq<Seq<char>>) -> Seq<char>
    decreases gs.len(),
{
    if gs.len() == 0 { Seq::empty() } else { concat(gs.drop_last()) + gs.last() }
}

/// Splits a text into its extended grapheme clusters (unicode-segmentation's
/// `graphemes(true)`): the clusters are what the crate computes; its iterator hands
/// out consecutive non-empty slices of the text from its start to its end, so they
/// join back into the text.
#[verifier::external_body]
fn graphemes(s: &str) -> (v: Vec<String>)
    ensures
        views_of(v@) == grapheme_split(s@),
        concat(views_of(v@)) == s@,
        forall|i: int| 0 <= i < v@.len() ==> (#[trigger] v@[i])@.len() > 0,
{
    s.graphemes(true).map(String::from).collect()
}

/// A byte range of a string (std's `str` indexing): the bytes from `start` to `end`,
/// which must both lie on character boundaries.
#[verifier::external_body]
fn byte_slice(s: &str, start: usize, end: usize) -> (r: &str)
    requires
        start <= end <= s.spec_bytes().len(),
        is_char_boundary(s.spec_bytes(), start as int),
        is_char_boundary(s.spec_bytes(), end as int),
    ensures
        r.spec_bytes() == s.spec_bytes().subrange(start as int, end as int),
{
    &s[start..end]
}

/// The number of bytes a text takes in UTF-8.
pub open spec fn byte_len(s: Seq<char>) -> nat {
    encode_utf8(s).len()
}

/// The UTF-8 bytes of two texts joined are the bytes of each, joined.
proof fn lemma_encode_concat(a: Seq<char>, b: Seq<char>)
    ensures
        encode_utf8(a + b) == encode_utf8(a) + encode_utf8(b),
    decreases a.len(),
{
    if a.len() == 0 {
        assert(a + b =~= b);
    } else {
        lemma_encode_concat(a.drop_first(), b);
        assert((a + b).drop_first() =~= a.drop_first() + b);
        assert(encode_utf8(a) + encode_utf8(b) =~= vstd::utf8::encode_scalar(a[0] as u32) + (encode_utf8(a.drop_first()) + encode_utf8(b)));
    }
}

/// The byte offset where grapheme `idx` of `text` starts; past the last grapheme, the
/// end of the text.
pub open spec fn grapheme_start(text: Seq<char>, idx: nat) -> nat {
    let gs = grapheme_split(text);
    if idx == 0 {
        0
    } else if idx < gs.len() {
        byte_len(concat(gs.subrange(0, idx as int)))
    } else {
        byte_len(text)
    }
}

/// The number of graphemes of `text` that start before byte `offset`.
pub open spec fn graphemes_before(text: Seq<char>, offset: nat) -> nat {
    count_before(grapheme_split(text), offset, grapheme_split(text).len())
}

/// The number of the first `k` graphemes that start before byte `offset`.
pub open spec fn count_before(gs: Seq<Seq<char>>, offset: nat, k: nat) -> nat
    decreases k,
{
    if k == 0 {
        0
    } else if byte_len(concat(gs.subrange(0, k - 1))) < offset {
        count_before(gs, offset, (k - 1) as nat) + 1
    } else {
        count_before(gs, offset, (k - 1) as nat)
    }
}

/// The number of UTF-8 bytes of a string, from its characters.
fn utf8_len(s: &String) -> (n: usize)
    ensures
        n == byte_len(s@),
{
    let bytes = s.as_str().as_bytes();
    bytes.len()
}

/// The byte offset where grapheme `idx` of `text` starts.
pub fn grapheme_index_to_byte(text: &String, idx: usize) -> (b: usize)
    ensures
        b == grapheme_start(text@, idx as nat),
        concat(grapheme_split(text@)) == text@,
        forall|k: int| 0 <= k < grapheme_split(text@).len() ==> (#[trigger] grapheme_split(text@)[k]).len() > 0,
{
    let gs = graphemes(text.as_str());
    let ghost g = grapheme_split(text@);
    assert forall|k: int| 0 <= k < g.len() implies (#[trigger] g[k]).len() > 0 by {
        assert(g[k] == gs@[k]@);
    }
    if idx == 0 {
        return 0;
    }
    let mut offset: usize = 0;
    let mut i: usize = 0;
    let total = utf8_len(text);
    while i < gs.len()
        invariant
            0 <= i <= gs@.len(),
            views_of(gs@) == g,
            g == grapheme_split(text@),
            concat(g) == text@,
            total == byte_len(text@),
            offset == byte_len(concat(g.subrange(0, i as int))),
            offset <= total,
            forall|k: int| 0 <= k < g.len() ==> (#[trigger] g[k]).len() > 0,
            idx > 0,
            i <= idx,
        decreases gs@.len() - i,
    {
        if i == idx {
            assert(g.len() == gs@.len());
            return offset;
        }
        let piece = utf8_len(&gs[i]);
        proof {
            assert(g.subrange(0, (i + 1) as int).drop_last() =~= g.subrange(0, i as int));
            assert(g.subrange(0, (i + 1) as int).last() == g[i as int]);
            lemma_encode_concat(concat(g.subrange(0, i as int)), g[i as int]);
            lemma_prefix_bytes(g, (i + 1) as nat);
        }
        offset = offset + piece;
        i = i + 1;
    }
    total
}

/// The bytes of the first `k` graphemes fit in the bytes of the whole text.
proof fn lemma_prefix_bytes(g: Seq<Seq<char>>, k: nat)
    requires
        k <= g.len(),
    ensures
        byte_len(concat(g.subrange(0, k as int))) <= byte_len(concat(g)),
    decreases g.len() - k,
{
    if k < g.len() {
        lemma_prefix_bytes(g, k + 1);
        let a = g.subrange(0, k as int);
        let b = g.subrange(0, (k + 1) as int);
        assert(b.drop_last() =~= a);
        lemma_encode_concat(concat(a), b.last());
    } else {
        assert(g.subrange(0, k as int) =~= g);
    }
}

/// The number of graphemes of `text` that start before byte `offset`.
pub fn byte_to_grapheme_index(text: &String, offset: usize) -> (n: usize)
    ensures
        n == graphemes_before(text@, offset as nat),
{
    let gs = graphemes(text.as_str());
    let ghost g = grapheme_split(text@);
    let mut start: usize = 0;
    let mut n: usize = 0;
    let mut i: usize = 0;
    let total = utf8_len(text);
    while i < gs.len()
        invariant
            0 <= i <= gs@.len(),
            views_of(gs@) == g,
            g == grapheme_split(text@),
            concat(g) == text@,
            total == byte_len(text@),
            start == byte_len(concat(g.subrange(0, i as int))),
            start <= total,
            n <= i,
            n == count_before(g, offset as nat, i as nat),
            forall|k: int| 0 <= k < i ==> byte_len(concat(#[trigger] g.subrange(0, k))) < offset,
        decreases gs@.len() - i,
    {
        if start >= offset {
            proof {
                assert(g.len() == gs@.len());
                lemma_count_rest(g, offset as nat, i as nat);
            }
            return n;
        }
        let piece = utf8_len(&gs[i]);
        proof {
            assert(g.subrange(0, (i + 1) as int).drop_last() =~= g.subrange(0, i as int));
            lemma_encode_concat(concat(g.subrange(0, i as int)), g[i as int]);
            lemma_prefix_bytes(g, (i + 1) as nat);
        }
        n = n + 1;
        start = start + piece;
        i = i + 1;
    }
    n
}

/// Once a grapheme starts at or after the offset, so do all later ones: the count
/// stops growing.
proof fn lemma_count_rest(g: Seq<Seq<char>>, offset: nat, i: nat)
    requires
        i <= g.len(),
        byte_len(concat(g.subrange(0, i as int))) >= offset,
    ensures
        count_before(g, offset, g.len()) == count_before(g, offset, i),
    decreases g.len() - i,
{
    if i < g.len() {
        let a = g.subrange(0, i as int);
        let b = g.subrange(0, (i + 1) as int);
        assert(b.drop_last() =~= a);
        lemma_encode_concat(concat(a), b.last());
        lemma_count_rest(g, offset, i + 1);
    }
}

/// The text with every grapheme but a line break replaced by `mask`.
pub open spec fn masked(gs: Seq<Seq<char>>) -> Seq<bool>
    decreases gs.len(),
{
    if gs.len() == 0 { Seq::empty() } else { masked(gs.drop_last()).push(gs.last() == seq!['\n']) }
}

/// The characters shown for a text masked with `mask`: a line break for each grapheme
/// that is one, the mask for every other.
pub open spec fn mask_chars(text: Seq<char>, mask: char) -> Seq<char> {
    masked(grapheme_split(text)).map_values(|nl: bool| if nl { '\n' } else { mask })
}

/// Whether a text is a single line break.
fn is_line_break(s: &String) -> (r: bool)
    ensures
        r == (s@ == seq!['\n']),
{
    let cs = chars_of(s);
    if cs.len() == 1 && cs[0] == '\n' {
        assert(s@ =~= seq!['\n']);
        true
    } else {
        false
    }
}

/// A textbox's state that does not depend on text layout.
pub struct Textbox {
    /// The value's text.
    pub real_text: String,
    pub placeholder: String,
    pub show_placeholder: bool,
    pub mask_char: Option<char>,
    pub mask_visible: bool,
    pub max_length: Option<usize>,
    pub can_copy: bool,
    pub can_paste: bool,
    pub has_on_edit: bool,
    pub has_on_submit: bool,
    pub has_on_blur: bool,
    pub has_on_cancel: bool,
    pub has_validate: bool,
    /// Whether the textbox is taking text input.
    pub edit: bool,
    /// Whether the textbox holds several lines.
    pub multiline: bool,
    /// Whether the text was changed since editing last started.
    pub edited_since_focus: bool,
    /// Whether the text was ever changed.
    pub edited_once: bool,
}

impl Textbox {
    /// The state of a textbox holding `text`, showing its placeholder when the text
    /// is empty.
    pub fn holding(text: String) -> (t: Textbox)
        ensures
            t.real_text@ == text@,
            t.placeholder@ == Seq::<char>::empty(),
            t.show_placeholder == (text@.len() == 0),
            t.mask_char is None,
            !t.mask_visible,
            t.max_length is None,
            t.can_copy,
            t.can_paste,
            !t.has_on_edit && !t.has_on_submit && !t.has_on_blur && !t.has_on_cancel && !t.has_validate,
            !t.edit && !t.multiline && !t.edited_since_focus && !t.edited_once,
    {
        let empty = text.as_str().is_empty();
        Textbox {
            real_text: text,
            placeholder: String::new(),
            show_placeholder: empty,
            mask_char: None,
            mask_visible: false,
            max_length: None,
            can_copy: true,
            can_paste: true,
            has_on_edit: false,
            has_on_submit: false,
            has_on_blur: false,
            has_on_cancel: false,
            has_validate: false,
            edit: false,
            multiline: false,
            edited_since_focus: false,
            edited_once: false,
        }
    }

    /// The characters shown for `s`: as they are while the mask is visible or there
    /// is no mask; masked otherwise.
    pub open spec fn mask_spec(&self, s: Seq<char>) -> Seq<char> {
        match self.mask_char {
            Some(m) if !self.mask_visible => mask_chars(s, m),
            _ => s,
        }
    }

    /// The characters shown for `s`.
    pub fn mask_str(&self, s: &String) -> (r: String)
        ensures
            r@ == self.mask_spec(s@),
    {
        if self.mask_visible {
            return s.clone();
        }
        let mask = match self.mask_char {
            Some(m) => m,
            None => {
                return s.clone();
            }
        };
        let gs = graphemes(s.as_str());
        let ghost g = grapheme_split(s@);
        let mut out: Vec<char> = Vec::new();
        let mut i: usize = 0;
        while i < gs.len()
            invariant
                0 <= i <= gs@.len(),
                views_of(gs@) == g,
                out@ == masked(g.subrange(0, i as int)).map_values(|nl: bool| if nl { '\n' } else { mask }),
            decreases gs@.len() - i,
        {
            let nl = is_line_break(&gs[i]);
            proof {
                assert(g[i as int] == gs@[i as int]@);
                assert(g.subrange(0, (i + 1) as int).drop_last() =~= g.subrange(0, i as int));
            }
            out.push(if nl { '\n' } else { mask });
            proof {
                assert(out@ =~= masked(g.subrange(0, (i + 1) as int)).map_values(|nl: bool| if nl { '\n' } else { mask }));
            }
            i = i + 1;
        }
        assert(g.subrange(0, g.len() as int) =~= g);
        string_from_chars(&out)
    }

    /// The text the textbox shows: the placeholder while it is shown, the masked value
    /// otherwise.
    pub fn display_text_from_real(&self) -> (r: String)
        ensures
            r@ == if self.show_placeholder { self.placeholder@ } else { self.mask_spec(self.real_text@) },
    {
        if self.show_placeholder {
            return self.placeholder.clone();
        }
        self.mask_str(&self.real_text)
    }

    /// The text that copying everything takes: none while the placeholder shows.
    pub fn clone_text(&self) -> (r: String)
        ensures
            r@ == if self.show_placeholder { Seq::<char>::empty() } else { self.real_text@ },
    {
        if self.show_placeholder {
            return String::new();
        }
        self.real_text.clone()
    }

    /// How much of `txt` fits over the byte range `start..end` of the value: all of it
    /// without a maximum length, else as many of its leading graphemes as there is room
    /// for once the graphemes outside the range are counted.
    pub open spec fn clamp_spec(&self, txt: Seq<char>, start: usize, end: usize) -> Seq<char> {
        match self.max_length {
            None => txt,
            Some(max) => {
                let current = grapheme_split(self.real_text@).len();
                let replaced = grapheme_split(self.replaced(start, end)).len();
                let preserved = if current >= replaced { current - replaced } else { 0 };
                let room = if max >= preserved { max - preserved } else { 0 };
                let gs = grapheme_split(txt);
                concat(gs.subrange(0, if room < gs.len() { room as int } else { gs.len() as int }))
            },
        }
    }

    /// How much of `txt` can be inserted over the byte range `start..end` of the value
    /// without exceeding the maximum length in graphemes: all of it when there is no
    /// maximum, else as many of its leading graphemes as there is room for.
    pub fn clamp_insert_text(&self, txt: &String, start: usize, end: usize) -> (r: String)
        requires
            start <= end <= byte_len(self.real_text@),
            is_char_boundary(encode_utf8(self.real_text@), start as int),
            is_char_boundary(encode_utf8(self.real_text@), end as int),
        ensures
            r@ == self.clamp_spec(txt@, start, end),
    {
        let max = match self.max_length {
            Some(m) => m,
            None => {
                return txt.clone();
            }
        };
        let current = graphemes(self.real_text.as_str()).len();
        let part = byte_slice(self.real_text.as_str(), start, end);
        let replaced = graphemes(part).len();
        proof {
            vstd::utf8::encode_utf8_decode_utf8(part@);
            assert(part@ == self.replaced(start, end));
        }
        let preserved = if current >= replaced { current - replaced } else { 0 };
        let room = if max >= preserved { max - preserved } else { 0 };
        if room == 0 {
            return String::new();
        }
        let gs = graphemes(txt.as_str());
        let ghost g = grapheme_split(txt@);
        let take = if room < gs.len() { room } else { gs.len() };
        let mut out: Vec<char> = Vec::new();
        let mut i: usize = 0;
        while i < take
            invariant
                0 <= i <= take,
                take <= gs@.len(),
                views_of(gs@) == g,
                out@ == concat(g.subrange(0, i as int)),
            decreases take - i,
        {
            let piece = chars_of(&gs[i]);
            let mut j: usize = 0;
            let ghost before = out@;
            while j < piece.len()
                invariant
                    0 <= j <= piece@.len(),
                    out@ == before + piece@.subrange(0, j as int),
                decreases piece@.len() - j,
            {
                out.push(piece[j]);
                assert(out@ =~= before + piece@.subrange(0, (j + 1) as int));
                j = j + 1;
            }
            proof {
                assert(piece@.subrange(0, piece@.len() as int) =~= piece@);
                assert(g.subrange(0, (i + 1) as int).drop_last() =~= g.subrange(0, i as int));
                assert(g[i as int] == gs@[i as int]@);
            }
            i = i + 1;
        }
        string_from_chars(&out)
    }

    /// The characters of the value in the byte range `start..end`.
    pub open spec fn replaced(&self, start: usize, end: usize) -> Seq<char> {
        decode_range(self.real_text@, start as int, end as int)
    }
}

/// What the editor does with text being composed.
#[derive(Clone, Copy, PartialEq, Eq, Structural, Debug)]
pub enum PreeditAction {
    /// Nothing.
    Ignore,
    /// Show the composed text at the cursor.
    Compose,
    /// Empty the shown text, put the cursor at its start, then show the composed text.
    ClearThenCompose,
}

/// Replaces the bytes `start..end` of a string by a text (std's `String::replace_range`,
/// which requires both ends to lie on character boundaries within the string).
#[verifier::external_body]
fn replace_bytes(s: &mut String, start: usize, end: usize, with: &str)
    requires
        start <= end <= encode_utf8(old(s)@).len(),
        is_char_boundary(encode_utf8(old(s)@), start as int),
        is_char_boundary(encode_utf8(old(s)@), end as int),
    ensures
        encode_utf8(final(s)@) == encode_utf8(old(s)@).subrange(0, start as int) + encode_utf8(with@)
            + encode_utf8(old(s)@).subrange(end as int, encode_utf8(old(s)@).len() as int),
{
    s.replace_range(start..end, with);
}

/// The bytes of a text with the range `a..b` replaced by the bytes of `with`.
pub open spec fn spliced(text: Seq<char>, a: int, b: int, with: Seq<char>) -> Seq<u8> {
    encode_utf8(text).subrange(0, a) + encode_utf8(with) + encode_utf8(text).subrange(b, encode_utf8(text).len() as int)
}

impl Textbox {
    /// Everything but the value and whether the placeholder shows is as in `other`.
    pub open spec fn same_settings(&self, other: &Textbox) -> bool {
        &&& self.placeholder@ == other.placeholder@
        &&& self.mask_char == other.mask_char
        &&& self.mask_visible == other.mask_visible
        &&& self.max_length == other.max_length
        &&& self.can_copy == other.can_copy
        &&& self.can_paste == other.can_paste
        &&& self.has_on_edit == other.has_on_edit
        &&& self.has_on_submit == other.has_on_submit
        &&& self.has_on_blur == other.has_on_blur
        &&& self.has_on_cancel == other.has_on_cancel
        &&& self.has_validate == other.has_validate
    }

    /// The byte range of the value that typing `txt` over the selection `start..end` of
    /// the shown text replaces. While the placeholder shows, typing starts over an empty
    /// text.
    pub open spec fn typed_range(&self, display: Seq<char>, start: usize, end: usize, txt: Seq<char>) -> (nat, nat) {
        let (d, s, e) = if self.show_placeholder && txt.len() > 0 { (Seq::<char>::empty(), 0usize, 0usize) } else { (display, start, end) };
        (grapheme_start(self.real_text@, graphemes_before(d, s as nat)), grapheme_start(self.real_text@, graphemes_before(d, e as nat)))
    }

    /// Types `txt` over the selection `start..end` of the shown text `display`: the same
    /// graphemes of the value are replaced by as much of `txt` as fits. The placeholder
    /// shows afterwards exactly when the value is empty. The result is the text to put
    /// into the shown text: what was inserted, masked.
    pub fn insert_text(&mut self, display: &String, start: usize, end: usize, txt: &String) -> (shown: String)
        requires
            start <= end,
        ensures
            ({
                let (a, b) = old(self).typed_range(display@, start, end, txt@);
                let c = old(self).clamp_spec(txt@, a as usize, b as usize);
                &&& encode_utf8(final(self).real_text@) == spliced(old(self).real_text@, a as int, b as int, c)
                &&& shown@ == old(self).mask_spec(c)
            }),
            final(self).show_placeholder == (final(self).real_text@.len() == 0),
            final(self).same_settings(old(self)),
    {
        let fresh = self.show_placeholder && !txt.as_str().is_empty();
        let empty = String::new();
        let (a, b) = if fresh {
            range_display_to_real(&empty, &self.real_text, 0, 0)
        } else {
            range_display_to_real(display, &self.real_text, start, end)
        };
        let clamped = self.clamp_insert_text(txt, a, b);
        replace_bytes(&mut self.real_text, a, b, clamped.as_str());
        self.show_placeholder = self.real_text.as_str().is_empty();
        self.mask_str(&clamped)
    }

    /// Takes over a deletion the editor made in the shown text, from `before` to `after`:
    /// unless the placeholder shows, the same graphemes are removed from the value, and
    /// the placeholder shows afterwards exactly when the value is empty. The result is
    /// the byte range of `before` that was removed.
    pub fn delete_text(&mut self, before: &String, after: &String) -> (removed: (usize, usize))
        ensures
            old(self).show_placeholder ==> final(self).real_text@ == old(self).real_text@
                && final(self).show_placeholder,
            !old(self).show_placeholder && before@ != after@ ==> removed_range(encode_utf8(before@), encode_utf8(after@), removed),
            !old(self).show_placeholder ==> ({
                let a = grapheme_start(old(self).real_text@, graphemes_before(before@, removed.0 as nat));
                let b = grapheme_start(old(self).real_text@, graphemes_before(before@, removed.1 as nat));
                (before@ != after@ && a < b) ==> encode_utf8(final(self).real_text@) == spliced(old(self).real_text@, a as int, b as int, Seq::empty())
            }),
            !old(self).show_placeholder ==> ({
                let a = grapheme_start(old(self).real_text@, graphemes_before(before@, removed.0 as nat));
                let b = grapheme_start(old(self).real_text@, graphemes_before(before@, removed.1 as nat));
                !(before@ != after@ && a < b) ==> final(self).real_text@ == old(self).real_text@
            }),
            !old(self).show_placeholder ==> final(self).show_placeholder == (final(self).real_text@.len() == 0),
            final(self).same_settings(old(self)),
    {
        if self.show_placeholder {
            return (0, 0);
        }
        let mut removed: (usize, usize) = (0, 0);
        let same = *before == *after;
        if !same {
            removed = diff_removed_range(before.as_str(), after.as_str());
            let (a, b) = range_display_to_real(before, &self.real_text, removed.0, removed.1);
            if a < b {
                let nothing = String::new();
                replace_bytes(&mut self.real_text, a, b, nothing.as_str());
                proof {
                    assert(encode_utf8(nothing@) =~= Seq::<u8>::empty());
                }
            }
        }
        self.show_placeholder = self.real_text.as_str().is_empty();
        removed
    }

    /// The text that copying the selection `start..end` of the shown text takes: the
    /// same graphemes of the value.
    pub fn clone_selected(&self, display: &String, start: usize, end: usize) -> (r: String)
        ensures
            ({
                let a = grapheme_start(self.real_text@, graphemes_before(display@, start as nat));
                let b = grapheme_start(self.real_text@, graphemes_before(display@, end as nat));
                &&& a >= b ==> r@ == Seq::<char>::empty()
                &&& a < b ==> r@ == decode_range(self.real_text@, a as int, b as int)
            }),
    {
        let (a, b) = range_display_to_real(display, &self.real_text, start, end);
        if a >= b {
            return String::new();
        }
        let part = byte_slice(self.real_text.as_str(), a, b);
        proof {
            vstd::utf8::encode_utf8_decode_utf8(part@);
        }
        part.to_string()
    }

    /// Clears the value; the placeholder shows. The result is the text then shown.
    pub fn reset_text(&mut self) -> (shown: String)
        ensures
            final(self).real_text@ == Seq::<char>::empty(),
            final(self).show_placeholder,
            final(self).same_settings(old(self)),
            shown@ == old(self).placeholder@,
    {
        self.real_text = String::new();
        self.show_placeholder = true;
        self.display_text_from_real()
    }

    /// Text being composed by an input method arrives: it is shown (over an emptied
    /// text when the placeholder was showing) unless it is empty or has no cursor.
    pub fn update_preedit(&mut self, preedit: &String, cursor: Option<(usize, usize)>) -> (r: PreeditAction)
        ensures
            r == if preedit@.len() == 0 || cursor is None {
                PreeditAction::Ignore
            } else if old(self).show_placeholder {
                PreeditAction::ClearThenCompose
            } else {
                PreeditAction::Compose
            },
            final(self).real_text@ == old(self).real_text@,
            final(self).show_placeholder == (old(self).show_placeholder && r == PreeditAction::Ignore),
            final(self).same_settings(old(self)),
    {
        if preedit.as_str().is_empty() || cursor.is_none() {
            return PreeditAction::Ignore;
        }
        if self.show_placeholder {
            self.show_placeholder = false;
            return PreeditAction::ClearThenCompose;
        }
        PreeditAction::Compose
    }

    /// Brings the shown text in line with the value, when the editor shows
    /// `old_display` with its selection running from byte `anchor` to byte `focus`:
    /// nothing when the text is already right; otherwise the new text, with the
    /// selection moved to the same grapheme positions in it.
    pub fn resync_display_text(&self, old_display: &String, anchor: usize, focus: usize) -> (r: Option<(String, usize, usize)>)
        ensures
            ({
                let shown = if self.show_placeholder { self.placeholder@ } else { self.mask_spec(self.real_text@) };
                &&& old_display@ == shown ==> r is None
                &&& old_display@ != shown ==> (r matches Some((t, a, f)) && {
                    &&& t@ == shown
                    &&& a == grapheme_start(shown, graphemes_before(old_display@, anchor as nat))
                    &&& f == grapheme_start(shown, graphemes_before(old_display@, focus as nat))
                })
            }),
    {
        let new_display = self.display_text_from_real();
        if *old_display == new_display {
            return None;
        }
        let anchor_g = byte_to_grapheme_index(old_display, anchor);
        let focus_g = byte_to_grapheme_index(old_display, focus);
        let anchor_b = grapheme_index_to_byte(&new_display, anchor_g);
        let focus_b = grapheme_index_to_byte(&new_display, focus_g);
        Some((new_display, anchor_b, focus_b))
    }

    /// Ends composing input: the placeholder shows exactly when the value is empty.
    pub fn clear_preedit(&mut self)
        ensures
            final(self).real_text@ == old(self).real_text@,
            final(self).show_placeholder == (old(self).real_text@.len() == 0),
            final(self).same_settings(old(self)),
    {
        self.show_placeholder = self.real_text.as_str().is_empty();
    }
}

/// The characters whose UTF-8 bytes lie in the range `start..end` of a text's bytes.
pub open spec fn decode_range(text: Seq<char>, start: int, end: int) -> Seq<char> {
    vstd::utf8::decode_utf8(encode_utf8(text).subrange(start, end))
}

impl Textbox {
    /// The text the textbox shows.
    pub open spec fn shown(self) -> Seq<char> {
        if self.show_placeholder { self.placeholder@ } else { self.mask_spec(self.real_text@) }
    }

    /// Builds the node of a textbox under the current node.
    fn build(cx: &mut Context, text: String, multiline: bool, wrap: bool) -> (h: Handle<Textbox>)
        requires
            old(cx)@.len() < usize::MAX,
        ensures
            h.entity == old(cx)@.len(),
            h.view.real_text@ == text@,
            h.view.placeholder@ == Seq::<char>::empty(),
            h.view.show_placeholder == (text@.len() == 0),
            h.view.mask_char is None,
            !h.view.mask_visible,
            h.view.max_length is None,
            h.view.can_copy && h.view.can_paste,
            !h.view.has_on_edit && !h.view.has_on_submit && !h.view.has_on_blur && !h.view.has_on_cancel && !h.view.has_validate,
            !h.view.edit && h.view.multiline == multiline && !h.view.edited_since_focus && !h.view.edited_once,
            final(cx).cur() == old(cx).cur(),
            final(cx)@ == old(cx)@.push(NodeView::fresh(Tag::Textbox, old(cx).cur() as nat)
                .toggled(Class::Multiline, multiline && wrap).with_navigable(true)
                .with_role(if multiline { Role::MultilineTextInput } else { Role::TextInput })
                .toggled(Class::Caret, false).with_text(text@)),
    {
        let mut t = Textbox::holding(text);
        t.multiline = multiline;
        let e = cx.add(Tag::Textbox);
        cx.toggle_class(e, Class::Multiline, multiline && wrap);
        cx.set_navigable(e, true);
        cx.set_role(e, if multiline { Role::MultilineTextInput } else { Role::TextInput });
        cx.toggle_class(e, Class::Caret, false);
        let shown = t.display_text_from_real();
        proof {
            if !t.show_placeholder {
                assert(t.mask_spec(t.real_text@) == t.real_text@);
            } else {
                assert(t.real_text@ =~= Seq::<char>::empty());
            }
        }
        cx.set_text(e, shown);
        assert(cx@ =~= old(cx)@.push(NodeView::fresh(Tag::Textbox, old(cx).cur() as nat)
            .toggled(Class::Multiline, multiline && wrap).with_navigable(true)
            .with_role(if multiline { Role::MultilineTextInput } else { Role::TextInput })
            .toggled(Class::Caret, false).with_text(text@)));
        Handle { entity: e, view: t }
    }

    /// Builds a single-line textbox holding `text`.
    pub fn new(cx: &mut Context, text: String) -> (h: Handle<Textbox>)
        requires
            old(cx)@.len() < usize::MAX,
        ensures
            h.entity == old(cx)@.len(),
            h.view.real_text@ == text@,
            h.view.show_placeholder == (text@.len() == 0),
            h.view.mask_char is None,
            h.view.max_length is None,
            !h.view.edit && !h.view.multiline && !h.view.edited_since_focus && !h.view.edited_once,
            final(cx).cur() == old(cx).cur(),
            final(cx)@ == old(cx)@.push(NodeView::fresh(Tag::Textbox, old(cx).cur() as nat)
                .toggled(Class::Multiline, false).with_navigable(true).with_role(Role::TextInput)
                .toggled(Class::Caret, false).with_text(text@)),
    {
        Textbox::build(cx, text, false, false)
    }

    /// Builds a textbox holding several lines of `text`, wrapping them when `wrap`.
    pub fn new_multiline(cx: &mut Context, text: String, wrap: bool) -> (h: Handle<Textbox>)
        requires
            old(cx)@.len() < usize::MAX,
        ensures
            h.entity == old(cx)@.len(),
            h.view.real_text@ == text@,
            h.view.show_placeholder == (text@.len() == 0),
            h.view.mask_char is None,
            h.view.max_length is None,
            !h.view.edit && h.view.multiline && !h.view.edited_since_focus && !h.view.edited_once,
            final(cx).cur() == old(cx).cur(),
            final(cx)@ == old(cx)@.push(NodeView::fresh(Tag::Textbox, old(cx).cur() as nat)
                .toggled(Class::Multiline, wrap).with_navigable(true).with_role(Role::MultilineTextInput)
                .toggled(Class::Caret, false).with_text(text@)),
    {
        Textbox::build(cx, text, true, wrap)
    }
}

/// The textbox state `t` with one of its callbacks attached.
pub open spec fn same_text(a: Textbox, b: Textbox) -> bool {
    &&& a.real_text@ == b.real_text@
    &&& a.placeholder@ == b.placeholder@
    &&& a.show_placeholder == b.show_placeholder
    &&& a.mask_char == b.mask_char
    &&& a.mask_visible == b.mask_visible
    &&& a.max_length == b.max_length
    &&& a.can_copy == b.can_copy
    &&& a.can_paste == b.can_paste
}

impl Handle<Textbox> {
    /// Attaches the callback that receives the text after each edit.
    pub fn on_edit(self) -> (h: Handle<Textbox>)
        ensures
            h.entity == self.entity,
            same_text(h.view, self.view),
            h.view.has_on_edit,
    {
        let mut h = self;
        h.view.has_on_edit = true;
        h
    }

    /// Attaches the callback that receives the value when the text is submitted.
    pub fn on_submit(self) -> (h: Handle<Textbox>)
        ensures
            h.entity == self.entity,
            same_text(h.view, self.view),
            h.view.has_on_submit,
    {
        let mut h = self;
        h.view.has_on_submit = true;
        h
    }

    /// Attaches the callback that runs when the textbox loses focus.
    pub fn on_blur(self) -> (h: Handle<Textbox>)
        ensures
            h.entity == self.entity,
            same_text(h.view, self.view),
            h.view.has_on_blur,
    {
        let mut h = self;
        h.view.has_on_blur = true;
        h
    }

    /// Attaches the callback that runs when editing is cancelled.
    pub fn on_cancel(self) -> (h: Handle<Textbox>)
        ensures
            h.entity == self.entity,
            same_text(h.view, self.view),
            h.view.has_on_cancel,
    {
        let mut h = self;
        h.view.has_on_cancel = true;
        h
    }

    /// Attaches a check that a typed value must pass.
    pub fn validate(self) -> (h: Handle<Textbox>)
        ensures
            h.entity == self.entity,
            same_text(h.view, self.view),
            h.view.has_validate,
    {
        let mut h = self;
        h.view.has_validate = true;
        h
    }

    /// Sets the placeholder; the textbox shows its new text.
    pub fn placeholder(self, cx: &mut Context, text: String) -> (h: Handle<Textbox>)
        requires
            (self.entity as int) < old(cx)@.len(),
        ensures
            h.entity == self.entity,
            h.view.placeholder@ == text@,
            h.view.real_text@ == self.view.real_text@,
            h.view.show_placeholder == self.view.show_placeholder,
            h.view.mask_char == self.view.mask_char,
            h.view.mask_visible == self.view.mask_visible,
            h.view.max_length == self.view.max_length,
            final(cx).cur() == old(cx).cur(),
            final(cx)@ == old(cx)@.update(self.entity as int, old(cx)@[self.entity as int].with_text(h.view.shown())),
    {
        let mut h = self;
        h.view.placeholder = text;
        let shown = h.view.display_text_from_real();
        cx.set_text(h.entity, shown);
        h
    }

    /// Sets the character that hides the text; the textbox shows its new text.
    pub fn mask_char(self, cx: &mut Context, mask: Option<char>) -> (h: Handle<Textbox>)
        requires
            (self.entity as int) < old(cx)@.len(),
        ensures
            h.entity == self.entity,
            h.view.mask_char == mask,
            h.view.real_text@ == self.view.real_text@,
            h.view.placeholder@ == self.view.placeholder@,
            h.view.show_placeholder == self.view.show_placeholder,
            h.view.mask_visible == self.view.mask_visible,
            h.view.max_length == self.view.max_length,
            final(cx).cur() == old(cx).cur(),
            final(cx)@ == old(cx)@.update(self.entity as int, old(cx)@[self.entity as int].with_text(h.view.shown())),
    {
        let mut h = self;
        h.view.mask_char = mask;
        let shown = h.view.display_text_from_real();
        cx.set_text(h.entity, shown);
        h
    }

    /// Shows or hides the masked text; when that changes, the textbox shows its new
    /// text.
    pub fn mask_visible(self, cx: &mut Context, visible: bool) -> (h: Handle<Textbox>)
        requires
            (self.entity as int) < old(cx)@.len(),
        ensures
            h.entity == self.entity,
            h.view.mask_visible == visible,
            h.view.mask_char == self.view.mask_char,
            h.view.real_text@ == self.view.real_text@,
            h.view.placeholder@ == self.view.placeholder@,
            h.view.show_placeholder == self.view.show_placeholder,
            h.view.max_length == self.view.max_length,
            final(cx).cur() == old(cx).cur(),
            final(cx)@ == if visible == self.view.mask_visible {
                old(cx)@
            } else {
                old(cx)@.update(self.entity as int, old(cx)@[self.entity as int].with_text(h.view.shown()))
            },
    {
        let mut h = self;
        if h.view.mask_visible != visible {
            h.view.mask_visible = visible;
            let shown = h.view.display_text_from_real();
            cx.set_text(h.entity, shown);
        }
        h
    }

    /// Sets the most graphemes the text may hold.
    pub fn max_length(self, max: Option<usize>) -> (h: Handle<Textbox>)
        ensures
            h.entity == self.entity,
            h.view.max_length == max,
            h.view.real_text@ == self.view.real_text@,
            h.view.mask_char == self.view.mask_char,
    {
        let mut h = self;
        h.view.max_length = max;
        h
    }

    /// Sets whether the text can be copied.
    pub fn can_copy(self, state: bool) -> (h: Handle<Textbox>)
        ensures
            h.entity == self.entity,
            h.view.can_copy == state,
            h.view.can_paste == self.view.can_paste,
            h.view.real_text@ == self.view.real_text@,
    {
        let mut h = self;
        h.view.can_copy = state;
        h
    }

    /// Sets whether text can be pasted.
    pub fn can_paste(self, state: bool) -> (h: Handle<Textbox>)
        ensures
            h.entity == self.entity,
            h.view.can_paste == state,
            h.view.can_copy == self.view.can_copy,
            h.view.real_text@ == self.view.real_text@,
    {
        let mut h = self;
        h.view.can_paste = state;
        h
    }
}

/// The end of the encoding of a text's first part is a character boundary of the
/// encoding of the whole text.
proof fn lemma_boundary_after_prefix(a: Seq<char>, b: Seq<char>)
    ensures
        is_char_boundary(encode_utf8(a + b), encode_utf8(a).len() as int),
    decreases a.len(),
{
    vstd::utf8::encode_utf8_valid_utf8(a + b);
    lemma_encode_concat(a, b);
    if a.len() > 0 {
        let ab = a + b;
        vstd::utf8::encode_utf8_first_scalar(ab);
        assert(ab.drop_first() =~= a.drop_first() + b);
        assert(vstd::utf8::pop_first_scalar(encode_utf8(ab)) =~= encode_utf8(ab.drop_first()));
        lemma_boundary_after_prefix(a.drop_first(), b);
    }
}

/// Joining pieces is joining the pieces before `k` and the pieces from `k` on.
proof fn lemma_concat_split(g: Seq<Seq<char>>, k: int)
    requires
        0 <= k <= g.len(),
    ensures
        concat(g) == concat(g.subrange(0, k)) + concat(g.subrange(k, g.len() as int)),
    decreases g.len(),
{
    if k == g.len() {
        assert(g.subrange(0, k) =~= g);
        assert(g.subrange(k, g.len() as int) =~= Seq::<Seq<char>>::empty());
        assert(concat(g) + Seq::<char>::empty() =~= concat(g));
    } else {
        let d = g.drop_last();
        lemma_concat_split(d, k);
        assert(d.subrange(0, k) =~= g.subrange(0, k));
        let t = g.subrange(k, g.len() as int);
        assert(t.drop_last() =~= d.subrange(k, d.len() as int));
        assert(t.last() == g.last());
        assert(concat(g) =~= concat(g.subrange(0, k)) + concat(t));
    }
}

/// Where a grapheme starts lies within the text, on a character boundary.
proof fn lemma_grapheme_start_boundary(text: Seq<char>, idx: nat)
    requires
        concat(grapheme_split(text)) == text,
    ensures
        grapheme_start(text, idx) <= byte_len(text),
        is_char_boundary(encode_utf8(text), grapheme_start(text, idx) as int),
{
    let g = grapheme_split(text);
    vstd::utf8::encode_utf8_valid_utf8(text);
    vstd::utf8::is_char_boundary_start_end_of_seq(encode_utf8(text));
    if 0 < idx < g.len() {
        lemma_concat_split(g, idx as int);
        lemma_boundary_after_prefix(concat(g.subrange(0, idx as int)), concat(g.subrange(idx as int, g.len() as int)));
        lemma_prefix_bytes(g, idx);
    }
}

/// Later graphemes start no earlier.
proof fn lemma_grapheme_start_mono(text: Seq<char>, i: nat, j: nat)
    requires
        concat(grapheme_split(text)) == text,
        i <= j,
    ensures
        grapheme_start(text, i) <= grapheme_start(text, j),
{
    let g = grapheme_split(text);
    lemma_grapheme_start_boundary(text, i);
    if 0 < i && j < g.len() {
        let h = g.subrange(0, j as int);
        lemma_prefix_bytes(h, i);
        assert(h.subrange(0, i as int) =~= g.subrange(0, i as int));
    }
}

/// A later offset has at least as many graphemes starting before it.
proof fn lemma_count_mono(gs: Seq<Seq<char>>, o1: nat, o2: nat, k: nat)
    requires
        o1 <= o2,
    ensures
        count_before(gs, o1, k) <= count_before(gs, o2, k),
    decreases k,
{
    if k > 0 {
        lemma_count_mono(gs, o1, o2, (k - 1) as nat);
    }
}

/// Maps a byte range of the shown text to the same graphemes of the value: each end
/// is counted in graphemes of the shown text, then found again in the value.
pub fn range_display_to_real(display: &String, value: &String, start: usize, end: usize) -> (r: (usize, usize))
    ensures
        r.0 == grapheme_start(value@, graphemes_before(display@, start as nat)),
        r.1 == grapheme_start(value@, graphemes_before(display@, end as nat)),
        start <= end ==> r.0 <= r.1,
        r.0 <= byte_len(value@) && r.1 <= byte_len(value@),
        is_char_boundary(encode_utf8(value@), r.0 as int),
        is_char_boundary(encode_utf8(value@), r.1 as int),
{
    let start_g = byte_to_grapheme_index(display, start);
    let end_g = byte_to_grapheme_index(display, end);
    let a = grapheme_index_to_byte(value, start_g);
    let b = grapheme_index_to_byte(value, end_g);
    proof {
        lemma_grapheme_start_boundary(value@, start_g as nat);
        lemma_grapheme_start_boundary(value@, end_g as nat);
        if start <= end {
            let g = grapheme_split(display@);
            lemma_count_mono(g, start as nat, end as nat, g.len());
            lemma_grapheme_start_mono(value@, start_g as nat, end_g as nat);
        }
    }
    (a, b)
}

/// Whether the first `p` bytes of `a` and `b` agree and `p` is a character boundary
/// of both.
pub open spec fn prefix_ok(a: Seq<u8>, b: Seq<u8>, p: int) -> bool {
    &&& 0 <= p <= a.len() && p <= b.len()
    &&& a.subrange(0, p) == b.subrange(0, p)
    &&& is_char_boundary(a, p) && is_char_boundary(b, p)
}

/// Whether the last `q` bytes of `a` and `b` agree, neither reaching back past
/// `start`, and `q` bytes from the end is a character boundary of both.
pub open spec fn suffix_ok(a: Seq<u8>, b: Seq<u8>, start: int, q: int) -> bool {
    &&& 0 <= q && start + q <= a.len() && start + q <= b.len()
    &&& a.subrange(a.len() - q, a.len() as int) == b.subrange(b.len() - q, b.len() as int)
    &&& is_char_boundary(a, a.len() - q) && is_char_boundary(b, b.len() - q)
}

/// Whether `r` is the byte range of `a` deleted to give `b`: it starts after the
/// longest common prefix that ends on a character boundary of both, and ends before
/// the longest common suffix after that, likewise on boundaries.
pub open spec fn removed_range(a: Seq<u8>, b: Seq<u8>, r: (usize, usize)) -> bool {
    let q = a.len() - r.1;
    &&& prefix_ok(a, b, r.0 as int)
    &&& forall|p: int| r.0 < p <= a.len() && p <= b.len() ==> !prefix_ok(a, b, p)
    &&& r.0 <= r.1 <= a.len()
    &&& suffix_ok(a, b, r.0 as int, q)
    &&& forall|k: int| q < k ==> !suffix_ok(a, b, r.0 as int, k)
}

/// The byte range of `old` that was deleted to give `new`, for two texts that differ by
/// one deletion: it starts after the longest common prefix that ends on a character
/// boundary of both, and ends before the longest common suffix after that, likewise
/// on boundaries.
pub fn diff_removed_range(old: &str, new: &str) -> (r: (usize, usize))
    ensures
        removed_range(old.spec_bytes(), new.spec_bytes(), r),
{
    let ob = old.as_bytes();
    let nb = new.as_bytes();
    let ghost a = old.spec_bytes();
    let ghost b = new.spec_bytes();
    proof {
        vstd::utf8::encode_utf8_valid_utf8(old@);
        vstd::utf8::encode_utf8_valid_utf8(new@);
        vstd::utf8::is_char_boundary_start_end_of_seq(a);
        vstd::utf8::is_char_boundary_start_end_of_seq(b);
    }
    let ol = ob.len();
    let nl = nb.len();
    let max_prefix = if ol < nl { ol } else { nl };
    let mut prefix: usize = 0;
    while prefix < max_prefix && ob[prefix] == nb[prefix]
        invariant
            ob@ == a,
            nb@ == b,
            ol == a.len(),
            nl == b.len(),
            max_prefix <= ol && max_prefix <= nl,
            max_prefix == ol || max_prefix == nl,
            0 <= prefix <= max_prefix,
            forall|k: int| 0 <= k < prefix ==> a[k] == b[k],
        decreases max_prefix - prefix,
    {
        prefix = prefix + 1;
    }
    let ghost scanned = prefix;
    while prefix > 0 && (!old.is_char_boundary(prefix) || !new.is_char_boundary(prefix))
        invariant
            ob@ == a,
            nb@ == b,
            a == old.spec_bytes(),
            b == new.spec_bytes(),
            0 <= prefix <= scanned <= max_prefix,
            forall|k: int| 0 <= k < scanned ==> a[k] == b[k],
            forall|p: int| prefix < p <= scanned ==> !(is_char_boundary(a, p) && is_char_boundary(b, p)),
        decreases prefix,
    {
        prefix = prefix - 1;
    }
    proof {
        assert(a.subrange(0, prefix as int) =~= b.subrange(0, prefix as int));
        assert forall|p: int| prefix < p <= a.len() && p <= b.len() implies !prefix_ok(a, b, p) by {
            if p > scanned {
                assert(scanned < max_prefix);
                assert(a[scanned as int] != b[scanned as int]);
                assert(a.subrange(0, p)[scanned as int] == a[scanned as int]);
                assert(b.subrange(0, p)[scanned as int] == b[scanned as int]);
            }
        }
    }
    let rem_old = ol - prefix;
    let rem_new = nl - prefix;
    let max_suffix = if rem_old < rem_new { rem_old } else { rem_new };
    let mut suffix: usize = 0;
    while suffix < max_suffix && ob[ol - 1 - suffix] == nb[nl - 1 - suffix]
        invariant
            ob@ == a,
            nb@ == b,
            ol == a.len(),
            nl == b.len(),
            prefix + max_suffix <= ol && prefix + max_suffix <= nl,
            max_suffix == ol - prefix || max_suffix == nl - prefix,
            0 <= suffix <= max_suffix,
            forall|i: int| ol - suffix <= i < ol ==> #[trigger] a[i] == b[i + nl - ol],
        decreases max_suffix - suffix,
    {
        suffix = suffix + 1;
    }
    let ghost scanned_suffix = suffix;
    while suffix > 0 && (!old.is_char_boundary(ol - suffix) || !new.is_char_boundary(nl - suffix))
        invariant
            ob@ == a,
            nb@ == b,
            a == old.spec_bytes(),
            b == new.spec_bytes(),
            ol == a.len(),
            nl == b.len(),
            prefix + max_suffix <= ol && prefix + max_suffix <= nl,
            0 <= suffix <= scanned_suffix <= max_suffix,
            forall|i: int| ol - scanned_suffix <= i < ol ==> #[trigger] a[i] == b[i + nl - ol],
            forall|p: int| ol - scanned_suffix <= p < ol - suffix ==> !(#[trigger] is_char_boundary(a, p) && is_char_boundary(b, p + nl - ol)),
        decreases suffix,
    {
        suffix = suffix - 1;
    }
    proof {
        assert forall|k: int| 0 <= k < suffix implies #[trigger] a.subrange(ol - suffix, ol as int)[k] == b.subrange(nl - suffix, nl as int)[k] by {
            let i = ol - suffix + k;
            assert(a[i] == b[i + nl - ol]);
        }
        assert(a.subrange(ol - suffix, ol as int) =~= b.subrange(nl - suffix, nl as int));
        assert forall|k: int| suffix < k implies !suffix_ok(a, b, prefix as int, k) by {
            if suffix < k <= scanned_suffix {
                let p = ol - k;
                assert(!(is_char_boundary(a, p) && is_char_boundary(b, p + nl - ol)));
            }
            if k > scanned_suffix && prefix + k <= ol && prefix + k <= nl {
                assert(scanned_suffix < max_suffix);
                let j = scanned_suffix as int;
                assert(a[ol - 1 - j] != b[(ol - 1 - j) + nl - ol]);
                assert(a.subrange(ol - k, ol as int)[k - 1 - j] == a[ol - 1 - j]);
                assert(b.subrange(nl - k, nl as int)[k - 1 - j] == b[nl - 1 - j]);
            }
        }
    }
    (prefix, ol - suffix)
}


/// The number of bytes the first `k` characters take, given each character's length.
pub open spec fn bytes_before(lens: Seq<u8>, k: int) -> int
    decreases k,
{
    if k <= 0 || k > lens.len() { 0 } else { bytes_before(lens, k - 1) + lens[k - 1] }
}

/// The index of the character holding byte `offset`, given each character's length
/// in bytes: the first character whose bytes reach past the offset, or the number of
/// characters when none does.
pub fn byte_offset_to_char_index(lens: &[u8], offset: usize) -> (i: usize)
    ensures
        i <= lens@.len(),
        forall|j: int| 1 <= j <= i ==> #[trigger] bytes_before(lens@, j) <= offset,
        i < lens@.len() ==> offset < bytes_before(lens@, i + 1),
{
    let mut cumulative: u128 = 0;
    let mut i: usize = 0;
    while i < lens.len()
        invariant
            0 <= i <= lens@.len(),
            cumulative as int == bytes_before(lens@, i as int),
            cumulative <= 255 * i,
            forall|j: int| 1 <= j <= i ==> #[trigger] bytes_before(lens@, j) <= offset,
        decreases lens@.len() - i,
    {
        cumulative = cumulative + lens[i] as u128;
        if (offset as u128) < cumulative {
            return i;
        }
        i = i + 1;
    }
    lens.len()
}


/// A text that is not empty takes at least one byte.
proof fn lemma_nonempty_bytes(s: Seq<char>)
    requires
        s.len() > 0,
    ensures
        byte_len(s) > 0,
{
    assert(vstd::utf8::encode_scalar(s[0] as u32).len() > 0);
}

/// Where graphemes are never empty, each later grapheme starts at a later byte.
proof fn lemma_starts_increase(gs: Seq<Seq<char>>, j: int, k: int)
    requires
        forall|x: int| 0 <= x < gs.len() ==> (#[trigger] gs[x]).len() > 0,
        0 <= j < k <= gs.len(),
    ensures
        byte_len(concat(gs.subrange(0, j))) < byte_len(concat(gs.subrange(0, k))),
    decreases k - j,
{
    let a = gs.subrange(0, k - 1);
    let b = gs.subrange(0, k);
    assert(b.drop_last() =~= a);
    lemma_encode_concat(concat(a), b.last());
    lemma_nonempty_bytes(gs[k - 1]);
    if j < k - 1 {
        lemma_starts_increase(gs, j, k - 1);
    }
}

/// Of the first `k` graphemes, those starting before grapheme `i` starts are the ones
/// before it.
proof fn lemma_count_starts(gs: Seq<Seq<char>>, i: int, k: nat)
    requires
        forall|x: int| 0 <= x < gs.len() ==> (#[trigger] gs[x]).len() > 0,
        0 <= i <= gs.len(),
        k <= gs.len(),
    ensures
        count_before(gs, byte_len(concat(gs.subrange(0, i))), k) == if k < i { k as int } else { i },
    decreases k,
{
    if k > 0 {
        lemma_count_starts(gs, i, (k - 1) as nat);
        if k - 1 < i {
            lemma_starts_increase(gs, k - 1, i);
        } else if k - 1 > i {
            lemma_starts_increase(gs, i, k - 1);
        }
    }
}

/// Counting the graphemes before the start of grapheme `i` gives `i` back, or the
/// number of graphemes past the last one; so turning a grapheme boundary into an index
/// and back gives the boundary again.
pub proof fn law_grapheme_round_trip(text: Seq<char>, i: nat)
    requires
        concat(grapheme_split(text)) == text,
        forall|k: int| 0 <= k < grapheme_split(text).len() ==> (#[trigger] grapheme_split(text)[k]).len() > 0,
    ensures
        graphemes_before(text, grapheme_start(text, i)) == if i < grapheme_split(text).len() { i } else { grapheme_split(text).len() },
        i <= grapheme_split(text).len() ==>
            grapheme_start(text, graphemes_before(text, grapheme_start(text, i))) == grapheme_start(text, i),
{
    let gs = grapheme_split(text);
    let n = gs.len();
    let j: int = if i < n { i as int } else { n as int };
    assert(gs.subrange(0, n as int) =~= gs);
    if i == 0 {
        assert(gs.subrange(0, 0) =~= Seq::<Seq<char>>::empty());
    }
    assert(grapheme_start(text, i) == byte_len(concat(gs.subrange(0, j))));
    lemma_count_starts(gs, j, n);
}

} // verus!
