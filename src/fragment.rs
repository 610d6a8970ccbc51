//! The decoded unit of content: one piece of obfuscated text, where it stands
//! and how large it is drawn, and the request batch that carries them.
//!
//! Coordinates and font sizes arrive as binary64 numbers. The library never
//! computes with them, only hands them on, so it holds each one losslessly as
//! its bit pattern (`f64::to_bits`), and the drawing side turns it back.
use vstd::prelude::*;
use crate::codec::{decrypt, xor_text};

verus! {

/// Where a fragment is drawn, as the bit patterns of its two coordinates.
#[derive(Clone, Copy, Debug, PartialEq, Eq, Structural)]
pub struct Position {
    pub x: u64,
    pub y: u64,
}

/// How large a fragment is drawn, as the bit pattern of its size in pixels.
#[derive(Clone, Copy, Debug, PartialEq, Eq, Structural)]
pub struct FontStyle {
    pub size: u64,
}

/// One fragment: its text, obfuscated until the decrypt pass has run,
/// its position and its font size.
#[derive(Debug)]
pub struct RenderString {
    pub cipher: String,
    pub position: Position,
    pub font_style: FontStyle,
}

/// A fragment as a mathematical value.
pub struct FragmentView {
    pub text: Seq<char>,
    pub x: u64,
    pub y: u64,
    pub size: u64,
}

impl View for RenderString {
    type V = FragmentView;

    open spec fn view(&self) -> FragmentView {
        FragmentView {
            text: self.cipher@,
            x: self.position.x,
            y: self.position.y,
            size: self.font_style.size,
        }
    }
}

/// One incoming request: the fragments in order and the caller's token.
#[derive(Debug)]
pub struct Params {
    pub render_info: Vec<RenderString>,
    pub user_token: String,
}

/// The views of a sequence of fragments.
pub open spec fn fragments_view(v: Seq<RenderString>) -> Seq<FragmentView> {
    v.map_values(|f: RenderString| f@)
}

/// A fragment after its text has been decrypted once.
pub open spec fn decrypted(f: FragmentView) -> FragmentView {
    FragmentView { text: xor_text(f.text), ..f }
}

/// Every fragment of `v` decrypted once, in the same order.
pub open spec fn decrypted_all(v: Seq<FragmentView>) -> Seq<FragmentView> {
    v.map_values(|f: FragmentView| decrypted(f))
}

impl RenderString {
    /// A copy of this fragment.
    pub fn duplicate(&self) -> (r: RenderString)
        ensures
            r@ == self@,
    {
        RenderString {
            cipher: self.cipher.clone(),
            position: self.position,
            font_style: self.font_style,
        }
    }
}

/// A copy of every fragment of `v`, in the same order.
pub fn duplicate_all(v: &Vec<RenderString>) -> (r: Vec<RenderString>)
    ensures
        fragments_view(r@) == fragments_view(v@),
{
    let mut r: Vec<RenderString> = Vec::new();
    let mut i: usize = 0;
    while i < v.len()
        invariant
            i <= v@.len(),
            r@.len() == i,
            forall|j: int| 0 <= j < i ==> (#[trigger] r@[j])@ == v@[j]@,
        decreases v.len() - i,
    {
        r.push(v[i].duplicate());
        i += 1;
    }
    assert(fragments_view(r@) =~= fragments_view(v@));
    r
}

/// Decrypts the text of every fragment in place, exactly once.
pub fn decrypt_info(info: &mut Vec<RenderString>)
    ensures
        fragments_view(final(info)@) == decrypted_all(fragments_view(old(info)@)),
{
    let ghost start = fragments_view(info@);
    let mut i: usize = 0;
    while i < info.len()
        invariant
            start == fragments_view(old(info)@),
            info@.len() == start.len(),
            i <= info@.len(),
            forall|j: int| 0 <= j < i ==> (#[trigger] info@[j])@ == decrypted(start[j]),
            forall|j: int| i <= j < info@.len() ==> (#[trigger] info@[j])@ == start[j],
        decreases info.len() - i,
    {
        let text = decrypt(&info[i].cipher);
        info[i].cipher = text;
        i += 1;
    }
    assert(fragments_view(info@) =~= decrypted_all(start));
}

} // verus!
