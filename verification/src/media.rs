//! Images and svg icons: views drawn from a picture that the context loads.

use vstd::prelude::*;
use crate::ui::{Context, Handle, NodeView, Tag};
use crate::text::string_from_chars;

verus! {

/// The lower-case hexadecimal digits of a number, most significant first.
pub open spec fn hex(n: nat) -> Seq<char>
    decreases n,
{
    if n < 16 {
        seq![hex_digit(n)]
    } else {
        hex(n / 16).push(hex_digit(n % 16))
    }
}

/// The character of a hexadecimal digit.
pub open spec fn hex_digit(d: nat) -> char {
    if d < 10 { ((d + 48) as u32) as char } else { ((d - 10 + 97) as u32) as char }
}

/// The character of hexadecimal digit `d`, computed.
fn hex_char(d: u64) -> (c: char)
    requires
        d < 16,
    ensures
        c == hex_digit(d as nat),
{
    let b: u8 = if d < 10 { (d as u8) + 48 } else { (d as u8) - 10 + 97 };
    b as char
}

/// The hexadecimal digits of `n`, computed.
fn hex_chars(n: u64) -> (v: Vec<char>)
    ensures
        v@ == hex(n as nat),
    decreases n,
{
    if n < 16 {
        let mut v: Vec<char> = Vec::new();
        v.push(hex_char(n));
        assert(v@ =~= seq![hex_digit(n as nat)]);
        v
    } else {
        let mut v = hex_chars(n / 16);
        v.push(hex_char(n % 16));
        v
    }
}

/// The key under which svg data with hash `hash` is stored: the hash in hexadecimal.
pub fn svg_key(hash: u64) -> (k: String)
    ensures
        k@ == hex(hash as nat),
{
    string_from_chars(&hex_chars(hash))
}

/// The 64-bit hash of some bytes (fxhash's `hash64`). Nothing is claimed of the value:
/// the crate reads the bytes in eight- and four-byte words of the machine's native
/// byte order, so the same bytes hash differently on little- and big-endian machines.
#[verifier::external_body]
fn fx_hash64(data: &[u8]) -> (h: u64) {
    fxhash::hash64(data)
}

/// A view drawing svg data.
pub struct Svg {
    /// The key the data is stored under.
    pub key: String,
}

impl Svg {
    /// Builds an svg node drawing `data`, stored under the hexadecimal hash of the
    /// data.
    pub fn new(cx: &mut Context, data: &[u8]) -> (h: Handle<Svg>)
        requires
            old(cx)@.len() < usize::MAX,
        ensures
            h.entity == old(cx)@.len(),
            exists|hash: u64| h.view.key@ == hex(hash as nat),
            final(cx).cur() == old(cx).cur(),
            final(cx)@ == old(cx)@.push(NodeView::fresh(Tag::Svg, old(cx).cur() as nat)),
    {
        let hash = fx_hash64(data);
        let key = svg_key(hash);
        let e = cx.add(Tag::Svg);
        Handle { entity: e, view: Svg { key } }
    }
}

/// A view drawing the picture at a path or URL.
pub struct Image {
    pub url: String,
}

impl Image {
    /// Builds an image node drawing the picture at `url`.
    pub fn new(cx: &mut Context, url: String) -> (h: Handle<Image>)
        requires
            old(cx)@.len() < usize::MAX,
        ensures
            h.entity == old(cx)@.len(),
            h.view.url@ == url@,
            final(cx).cur() == old(cx).cur(),
            final(cx)@ == old(cx)@.push(NodeView::fresh(Tag::Image, old(cx).cur() as nat)),
    {
        let e = cx.add(Tag::Image);
        Handle { entity: e, view: Image { url } }
    }
}

/// A view drawing an svg tree's paths.
pub struct SvgDisplay {}

impl SvgDisplay {
    /// Builds an svg display node.
    pub fn new(cx: &mut Context) -> (h: Handle<SvgDisplay>)
        requires
            old(cx)@.len() < usize::MAX,
        ensures
            h.entity == old(cx)@.len(),
            final(cx).cur() == old(cx).cur(),
            final(cx)@ == old(cx)@.push(NodeView::fresh(Tag::SvgDisplay, old(cx).cur() as nat)),
    {
        let e = cx.add(Tag::SvgDisplay);
        Handle { entity: e, view: SvgDisplay {} }
    }
}

} // verus!
