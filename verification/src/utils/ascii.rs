//! Access to the bytes of a text that holds ASCII characters only.

use vstd::prelude::*;

verus! {

/// `c` is an ASCII character.
pub open spec fn is_ascii_char(c: char) -> bool {
    '\0' <= c <= '\u{7f}'
}

/// `bytes` holds the characters of `text`, one byte for each, and every one
/// of them is an ASCII character.
pub open spec fn bytes_spell(bytes: Seq<u8>, text: Seq<char>) -> bool {
    &&& bytes.len() == text.len()
    &&& forall|i: int|
        #![trigger text[i]]
        #![trigger bytes[i]]
        0 <= i < text.len() ==> is_ascii_char(text[i]) && bytes[i] == text[i] as u8
}

/// The bytes of `text` where all of its characters are ASCII, and `None`
/// where one is not.
pub fn ascii_bytes(text: &str) -> (bytes: Option<&[u8]>)
    ensures
        match bytes {
            Some(b) => bytes_spell(b@, text@),
            None => exists|i: int| 0 <= i < text@.len() && !is_ascii_char(#[trigger] text@[i]),
        },
{
    if text.is_ascii() {
        let bytes = text.as_bytes();
        proof {
            vstd::utf8::is_ascii_chars_encode_utf8(text@);
        }
        Some(bytes)
    } else {
        None
    }
}

} // verus!
