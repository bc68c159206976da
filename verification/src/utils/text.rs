//! Texts and their UTF-8 bytes: length, equality and prefixes.

use vstd::prelude::*;
use vstd::utf8::{
    char_u32_cast, encode_utf8, encode_utf8_decode_utf8, encode_utf8_first_scalar, valid_utf8,
};

verus! {

/// The number of bytes that `text` takes in UTF-8.
pub open spec fn byte_length(text: Seq<char>) -> nat {
    encode_utf8(text).len()
}

/// Two texts with the same UTF-8 bytes are the same text.
pub proof fn lemma_same_bytes_same_text(a: Seq<char>, b: Seq<char>)
    requires
        encode_utf8(a) == encode_utf8(b),
    ensures
        a == b,
{
    encode_utf8_decode_utf8(a);
    encode_utf8_decode_utf8(b);
}

/// A text starts with a prefix exactly where its bytes start with the bytes
/// of the prefix.
pub proof fn lemma_prefix_of_text_and_of_bytes(prefix: Seq<char>, text: Seq<char>)
    ensures
        encode_utf8(prefix).is_prefix_of(encode_utf8(text)) <==> prefix.is_prefix_of(text),
    decreases prefix.len(),
{
    let head = encode_utf8(prefix);
    let whole = encode_utf8(text);
    if prefix.len() > 0 && text.len() > 0 {
        let prefix_rest = prefix.drop_first();
        let text_rest = text.drop_first();
        encode_utf8_first_scalar(prefix);
        encode_utf8_first_scalar(text);
        lemma_prefix_of_text_and_of_bytes(prefix_rest, text_rest);
        let head_rest = encode_utf8(prefix_rest);
        let head_length = vstd::utf8::length_of_first_scalar(head);
        assert(head_rest =~= head.subrange(head_length, head.len() as int));
        if head.is_prefix_of(whole) {
            assert(forall|i: int| 0 <= i < head.len() ==> head[i] == whole.subrange(
                0,
                head.len() as int,
            )[i]);
            char_u32_cast(prefix[0], prefix[0] as u32);
            char_u32_cast(text[0], text[0] as u32);
            assert(prefix =~= text.subrange(0, prefix.len() as int)) by {
                assert forall|i: int| 0 <= i < prefix.len() implies prefix[i] == text[i] by {
                    if i > 0 {
                        assert(prefix_rest[i - 1] == text_rest.subrange(
                            0,
                            prefix_rest.len() as int,
                        )[i - 1]);
                    }
                }
            }
        }
    }
}

/// Calls `std::str::from_utf8`: the text that `bytes` encode in UTF-8, and
/// `None` where they encode none.
#[verifier::external_body]
pub(crate) fn text_of_bytes(bytes: &[u8]) -> (text: Option<&str>)
    ensures
        match text {
            Some(t) => valid_utf8(bytes@) && encode_utf8(t@) == bytes@,
            None => !valid_utf8(bytes@),
        },
{
    std::str::from_utf8(bytes).ok()
}

/// Whether two byte strings are equal.
pub fn same_bytes(a: &[u8], b: &[u8]) -> (same: bool)
    ensures
        same == (a@ == b@),
{
    if a.len() != b.len() {
        return false;
    }
    let n: usize = a.len();
    let mut i: usize = 0;
    while i < n
        invariant
            i <= n,
            n == a.len(),
            n == b.len(),
            a@.subrange(0, i as int) == b@.subrange(0, i as int),
        decreases n - i,
    {
        if a[i] != b[i] {
            return false;
        }
        i = i + 1;
    }
    assert(a@ =~= a@.subrange(0, n as int));
    assert(b@ =~= b@.subrange(0, n as int));
    true
}

/// Whether two texts are equal.
pub fn same_text(a: &str, b: &str) -> (same: bool)
    ensures
        same == (a@ == b@),
{
    let same = same_bytes(a.as_bytes(), b.as_bytes());
    proof {
        if same {
            lemma_same_bytes_same_text(a@, b@);
        }
    }
    same
}

/// Whether `bytes` starts with `prefix`.
pub fn starts_with(bytes: &[u8], prefix: &[u8]) -> (starts: bool)
    ensures
        starts == prefix@.is_prefix_of(bytes@),
{
    if prefix.len() > bytes.len() {
        return false;
    }
    let n: usize = prefix.len();
    let mut i: usize = 0;
    while i < n
        invariant
            i <= n,
            n == prefix.len(),
            n <= bytes.len(),
            prefix@.subrange(0, i as int) == bytes@.subrange(0, i as int),
        decreases n - i,
    {
        if prefix[i] != bytes[i] {
            return false;
        }
        i = i + 1;
    }
    true
}

} // verus!
