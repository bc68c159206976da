//! The checks that stand before the routes: the API key of a request, and
//! the message that reports a body that could not be read.

use vstd::prelude::*;
use vstd::slice::slice_subrange;
use vstd::string::StringExecFns;
use vstd::utf8::{
    encode_utf8, encode_utf8_valid_utf8, is_char_boundary_iff_not_is_continuation_byte,
};
use crate::errors::{CustomError, CustomErrorView};
use crate::utils::text::{same_bytes, starts_with};

verus! {

/// The failure that rejects a request without the header of the API key.
pub open spec fn missing_api_key_error() -> CustomErrorView {
    CustomErrorView::UnauthorizedError("missing `X-Api-Key` header"@)
}

/// The failure that rejects a request whose header is not the API key.
pub open spec fn invalid_api_key_error() -> CustomErrorView {
    CustomErrorView::ForbiddenError("invalid `X-Api-Key` header"@)
}

/// What the check of the API key answers: nothing where the header holds
/// the bytes of the key, and else the failure that rejects the request.
pub open spec fn api_key_rejection(header: Option<Seq<u8>>, expected: Seq<char>) -> Option<
    CustomErrorView,
> {
    match header {
        None => Some(missing_api_key_error()),
        Some(bytes) => if bytes == encode_utf8(expected) {
            None
        } else {
            Some(invalid_api_key_error())
        },
    }
}

/// The bytes behind an optional slice.
pub open spec fn header_view(header: Option<&[u8]>) -> Option<Seq<u8>> {
    match header {
        Some(bytes) => Some(bytes@),
        None => None,
    }
}

/// Checks the API key of a request. `api_key_header` is the value of the
/// header `X-Api-Key`, if the request has one. A request without the header
/// is unauthorized; one with another value than the key is forbidden.
pub fn auth_middleware(api_key_header: Option<&[u8]>, expected_api_key: &str) -> (checked: Result<
    (),
    CustomError,
>)
    ensures
        match checked {
            Ok(_) => api_key_rejection(header_view(api_key_header), expected_api_key@) is None,
            Err(e) => api_key_rejection(header_view(api_key_header), expected_api_key@) == Some(e@),
        },
{
    match api_key_header {
        None => Err(CustomError::UnauthorizedError(String::from_str("missing `X-Api-Key` header"))),
        Some(bytes) => {
            if same_bytes(bytes, expected_api_key.as_bytes()) {
                Ok(())
            } else {
                Err(CustomError::ForbiddenError(String::from_str("invalid `X-Api-Key` header")))
            }
        },
    }
}

/// `pattern` stands in `text` at position `i`.
pub open spec fn occurs_at(text: Seq<u8>, pattern: Seq<u8>, i: int) -> bool {
    &&& 0 <= i
    &&& i + pattern.len() <= text.len()
    &&& text.subrange(i, i + pattern.len()) == pattern
}

/// `i` is the first position at which `pattern` stands in `text`.
pub open spec fn is_first_occurrence(text: Seq<u8>, pattern: Seq<u8>, i: int) -> bool {
    &&& occurs_at(text, pattern, i)
    &&& forall|j: int| 0 <= j < i ==> !occurs_at(text, pattern, j)
}

/// The part of `text` before the first place where `pattern` stands in it;
/// all of `text` where it stands nowhere.
pub open spec fn before_first(text: Seq<u8>, pattern: Seq<u8>) -> Seq<u8> {
    if exists|i: int| is_first_occurrence(text, pattern, i) {
        text.subrange(0, choose|i: int| is_first_occurrence(text, pattern, i))
    } else {
        text
    }
}

/// The first position at which `pattern` stands in `text`, if it stands
/// anywhere.
pub fn find_first(text: &[u8], pattern: &[u8]) -> (found: Option<usize>)
    ensures
        match found {
            Some(i) => is_first_occurrence(text@, pattern@, i as int),
            None => forall|j: int| !occurs_at(text@, pattern@, j),
        },
{
    let n: usize = text.len();
    let m: usize = pattern.len();
    if m > n {
        return None;
    }
    let mut i: usize = 0;
    while i <= n - m
        invariant
            m <= n,
            n == text.len(),
            m == pattern.len(),
            i <= n - m + 1,
            forall|j: int| 0 <= j < i ==> !occurs_at(text@, pattern@, j),
        decreases n - m + 1 - i,
    {
        let tail = slice_subrange(text, i, n);
        if starts_with(tail, pattern) {
            assert(tail@.subrange(0, m as int) =~= text@.subrange(i as int, i + m));
            return Some(i);
        }
        assert(!occurs_at(text@, pattern@, i as int));
        i = i + 1;
    }
    None
}

/// The first occurrence of a pattern is the only one that is first.
proof fn lemma_first_occurrence_is_unique(text: Seq<u8>, pattern: Seq<u8>, i: int, j: int)
    requires
        is_first_occurrence(text, pattern, i),
        is_first_occurrence(text, pattern, j),
    ensures
        i == j,
{
}

/// The text at which the report of a body that could not be read breaks
/// off: what follows tells the line and the column.
pub open spec fn position_marker() -> Seq<char> {
    " at line"@
}

/// The message of a report without the position: the part of `err_message`
/// before the first " at line", and all of it where it holds none.
pub fn clean_error_message(err_message: &str) -> (clean: String)
    ensures
        encode_utf8(clean@) == before_first(
            encode_utf8(err_message@),
            encode_utf8(position_marker()),
        ),
{
    let bytes = err_message.as_bytes();
    let marker = " at line".as_bytes();
    let ghost text = encode_utf8(err_message@);
    let ghost pattern = encode_utf8(position_marker());
    proof {
        reveal_strlit(" at line");
        vstd::utf8::is_ascii_chars_encode_utf8(position_marker());
    }
    match find_first(bytes, marker) {
        None => {
            String::from_str(err_message)
        },
        Some(i) => {
            proof {
                encode_utf8_valid_utf8(err_message@);
                is_char_boundary_iff_not_is_continuation_byte(text, i as int);
                let first = choose|k: int| is_first_occurrence(text, pattern, k);
                lemma_first_occurrence_is_unique(text, pattern, i as int, first);
            }
            let (head, _) = err_message.split_at(i);
            String::from_str(head)
        },
    }
}

/// The failure that reports a body that could not be read, with the message
/// of the reader's report without the position.
pub fn json_error(err_message: &str) -> (error: CustomError)
    ensures
        error@ is ValidationError,
        encode_utf8(error@.message()) == before_first(
            encode_utf8(err_message@),
            encode_utf8(position_marker()),
        ),
{
    CustomError::ValidationError(clean_error_message(err_message))
}

} // verus!
