//! A deliberately weak, reversible obfuscation of fragment text: the UTF-8
//! bytes of the text are combined with a fixed one-byte key by exclusive or,
//! and the result is read back as text.
//!
//! Bytes that do not form valid UTF-8 after the exclusive or are read back
//! lossily, so the round trip is only promised where the intermediate bytes
//! stay valid, which is always the case for ASCII text.
use vstd::prelude::*;
use vstd::utf8::*;

verus! {

broadcast use vstd::utf8::group_utf8_lib;

/// The fixed key that the codec combines with every byte.
pub const KEY: u8 = 123;

/// Every byte of `b` combined with `key` by exclusive or.
pub open spec fn xor_bytes(b: Seq<u8>, key: u8) -> Seq<u8> {
    Seq::new(b.len(), |i: int| b[i] ^ key)
}

/// What the standard library reads from the bytes `b` when it replaces
/// every invalid UTF-8 sequence by the replacement character.
pub uninterp spec fn lossy_text(b: Seq<u8>) -> Seq<char>;

/// What the codec makes of the text `s`, in either direction.
pub open spec fn xor_text(s: Seq<char>) -> Seq<char> {
    lossy_text(xor_bytes(encode_utf8(s), KEY))
}

/// The codec on ASCII text, character by character.
pub open spec fn xor_chars(s: Seq<char>) -> Seq<char> {
    Seq::new(s.len(), |i: int| ((s[i] as u8) ^ KEY) as char)
}

/// Relies on `String::from_utf8_lossy`: the text depends on the bytes alone,
/// and bytes that are valid UTF-8 are decoded as they are.
#[verifier::external_body]
fn text_from_bytes(b: &Vec<u8>) -> (r: String)
    ensures
        r@ == lossy_text(b@),
        valid_utf8(b@) ==> r@ == decode_utf8(b@),
{
    String::from_utf8_lossy(b.as_slice()).to_string()
}

proof fn lemma_ascii_byte(x: u8)
    requires
        x < 128,
    ensures
        x ^ KEY < 128,
        (x ^ KEY) ^ KEY == x,
{
    assert(x < 128 ==> x ^ 123u8 < 128 && (x ^ 123u8) ^ 123u8 == x) by (bit_vector);
}

/// On ASCII text `decrypt(encrypt(s))` and `encrypt(decrypt(s))` give `s`
/// back: on such text both map each character to an ASCII character, as
/// `xor_chars` says, and doing that twice is the identity.
pub proof fn lemma_ascii_round_trip(s: Seq<char>)
    requires
        is_ascii_chars(s),
    ensures
        is_ascii_chars(xor_chars(s)),
        xor_chars(xor_chars(s)) == s,
{
    let c = xor_chars(s);
    assert forall|i: int| 0 <= i < s.len() implies '\0' <= #[trigger] c[i] <= '\u{7f}'
        && ((c[i] as u8) ^ KEY) as char == s[i] by {
        lemma_ascii_byte(s[i] as u8);
    }
    assert(xor_chars(c) =~= s);
}

proof fn lemma_ascii_xor_bytes(s: Seq<char>)
    requires
        is_ascii_chars(s),
    ensures
        valid_utf8(xor_bytes(encode_utf8(s), KEY)),
        decode_utf8(xor_bytes(encode_utf8(s), KEY)) == xor_chars(s),
{
    lemma_ascii_round_trip(s);
    let c = xor_chars(s);
    let b = xor_bytes(encode_utf8(s), KEY);
    assert forall|i: int| 0 <= i < s.len() implies #[trigger] b[i] == encode_utf8(c)[i] by {
        lemma_ascii_byte(s[i] as u8);
    }
    assert(b =~= encode_utf8(c));
}

fn xor_with_key(s: &String) -> (r: String)
    ensures
        r@ == xor_text(s@),
        is_ascii_chars(s@) ==> r@ == xor_chars(s@),
{
    let bytes: &[u8] = s.as_str().as_bytes();
    let mut out: Vec<u8> = Vec::new();
    let mut i: usize = 0;
    while i < bytes.len()
        invariant
            bytes@ == encode_utf8(s@),
            i <= bytes@.len(),
            out@.len() == i,
            forall|j: int| 0 <= j < i ==> out@[j] == #[trigger] bytes@[j] ^ KEY,
        decreases bytes.len() - i,
    {
        out.push(bytes[i] ^ KEY);
        i += 1;
    }
    assert(out@ =~= xor_bytes(encode_utf8(s@), KEY));
    proof {
        if is_ascii_chars(s@) {
            lemma_ascii_xor_bytes(s@);
        }
    }
    text_from_bytes(&out)
}

/// Obfuscates `s`.
pub fn encrypt(s: &String) -> (r: String)
    ensures
        r@ == xor_text(s@),
        is_ascii_chars(s@) ==> r@ == xor_chars(s@),
{
    xor_with_key(s)
}

/// Reverses `encrypt`; the two are the same operation.
pub fn decrypt(s: &String) -> (r: String)
    ensures
        r@ == xor_text(s@),
        is_ascii_chars(s@) ==> r@ == xor_chars(s@),
{
    xor_with_key(s)
}

} // verus!
