//! The two literals of a truth value.

use vstd::prelude::*;
use crate::utils::ascii::ascii_bytes;

verus! {

/// The truth value that `s` writes: `true` for the word "true", `false` for
/// the word "false", in lower case and with nothing around them.
pub open spec fn bool_literal(s: Seq<char>) -> Option<bool> {
    if s == "true"@ {
        Some(true)
    } else if s == "false"@ {
        Some(false)
    } else {
        None
    }
}

/// `s` is the literal of a truth value.
pub open spec fn is_bool_literal(s: Seq<char>) -> bool {
    bool_literal(s) is Some
}

/// Reads a truth value from its literal.
pub fn parse_bool(text: &str) -> (parsed: Option<bool>)
    ensures
        parsed == bool_literal(text@),
{
    proof {
        reveal_strlit("true");
        reveal_strlit("false");
    }
    let ghost s = text@;
    let bytes = match ascii_bytes(text) {
        Some(b) => b,
        None => {
            return None;
        },
    };
    let n: usize = bytes.len();
    if n == 4 && bytes[0] == 116u8 && bytes[1] == 114u8 && bytes[2] == 117u8 && bytes[3] == 101u8 {
        assert(s =~= "true"@);
        Some(true)
    } else if n == 5 && bytes[0] == 102u8 && bytes[1] == 97u8 && bytes[2] == 108u8 && bytes[3]
        == 115u8 && bytes[4] == 101u8 {
        assert(s =~= "false"@);
        Some(false)
    } else {
        None
    }
}

} // verus!
