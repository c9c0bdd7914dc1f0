//! Text out of bytes: lossy decoding and the display of header values.

use vstd::prelude::*;
use vstd::string::*;
use vstd::utf8::{decode_utf8, valid_utf8};

verus! {

/// The characters of an optional string.
pub open spec fn text_of(s: Option<String>) -> Option<Seq<char>> {
    match s {
        Some(s) => Some(s@),
        None => None,
    }
}

/// The bytes of an optional vector.
pub open spec fn bytes_of(bytes: Option<Vec<u8>>) -> Option<Seq<u8>> {
    match bytes {
        Some(b) => Some(b@),
        None => None,
    }
}

/// `String::push`: the string with `c` behind its last character.
pub assume_specification[ String::push ](s: &mut String, c: char)
    ensures
        final(s)@ == old(s)@.push(c),
;

/// The text that lossy decoding makes of `bytes`: the text that they encode
/// where they are UTF-8, and otherwise that text with a replacement
/// character for each run of bytes that is not.
pub uninterp spec fn lossy_text(bytes: Seq<u8>) -> Seq<char>;

/// `String::from_utf8_lossy`, the result owned. On bytes that are UTF-8 it is
/// the text that they encode.
#[verifier::external_body]
fn from_utf8_lossy(bytes: &[u8]) -> (r: String)
    ensures
        r@ == lossy_text(bytes@),
        valid_utf8(bytes@) ==> r@ == decode_utf8(bytes@),
{
    String::from_utf8_lossy(bytes).into_owned()
}

/// The text of `bytes`: what they encode where they are UTF-8, and what
/// lossy decoding makes of them where they are not.
pub open spec fn decoded_text(bytes: Seq<u8>) -> Seq<char> {
    if valid_utf8(bytes) {
        decode_utf8(bytes)
    } else {
        lossy_text(bytes)
    }
}

/// Decodes `bytes` as UTF-8, replacing what cannot be decoded.
pub fn decode_lossy(bytes: &[u8]) -> (r: String)
    ensures
        r@ == decoded_text(bytes@),
{
    from_utf8_lossy(bytes)
}

/// Whether `b` is a visible ASCII character, a space or a tab.
pub open spec fn is_visible_byte(b: u8) -> bool {
    (32 <= b < 127) || b == 9
}

/// Whether all of `bytes` can be shown as text.
pub open spec fn is_visible(bytes: Seq<u8>) -> bool {
    forall|i: int| 0 <= i < bytes.len() ==> is_visible_byte(#[trigger] bytes[i])
}

/// The characters that ASCII bytes stand for.
pub open spec fn ascii_text(bytes: Seq<u8>) -> Seq<char> {
    bytes.map_values(|b: u8| b as char)
}

/// Whether `b` is a visible ASCII character, a space or a tab.
pub fn visible_byte(b: u8) -> (r: bool)
    ensures
        r == is_visible_byte(b),
{
    (32 <= b && b < 127) || b == 9
}

/// The text of `bytes` where all of them are visible, and nothing where one
/// is not.
pub fn visible_text(bytes: &[u8]) -> (r: Option<String>)
    ensures
        text_of(r) == (if is_visible(bytes@) {
            Some(ascii_text(bytes@))
        } else {
            None
        }),
{
    let mut text = String::new();
    let mut i: usize = 0;
    while i < bytes.len()
        invariant
            i <= bytes.len(),
            is_visible(bytes@.take(i as int)),
            text@ == ascii_text(bytes@.take(i as int)),
        decreases bytes.len() - i,
    {
        let b: u8 = bytes[i];
        if !visible_byte(b) {
            return None;
        }
        text.push(b as char);
        proof {
            let before = bytes@.take(i as int);
            let after = bytes@.take(i + 1);
            assert(after == before.push(b));
            assert(ascii_text(after) =~= ascii_text(before).push(b as char));
        }
        i += 1;
    }
    proof {
        assert(bytes@.take(i as int) == bytes@);
    }
    Some(text)
}

} // verus!
