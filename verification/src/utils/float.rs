//! Literals of floating-point numbers.
//!
//! The grammar, read on the lower-case form of the text:
//!
//! ```text
//! Float  ::= Sign? ( 'inf' | 'infinity' | 'nan' | Number )
//! Number ::= ( Digit+ | Digit+ '.' Digit* | Digit* '.' Digit+ ) Exp?
//! Exp    ::= 'e' Sign? Digit+
//! Sign   ::= [+-]
//! Digit  ::= [0-9]
//! ```

use vstd::prelude::*;
use crate::utils::ascii::{ascii_bytes, bytes_spell, is_ascii_char};
use crate::utils::integer::{all_digits, decimal_value, is_digit, unsigned_part};

verus! {

/// The number of decimal digits that stand in `s` from position `from` on,
/// without a gap.
pub open spec fn digit_run(s: Seq<char>, from: int) -> nat
    decreases s.len() - from,
{
    if 0 <= from < s.len() && is_digit(s[from]) {
        1 + digit_run(s, from + 1)
    } else {
        0
    }
}

/// The lower-case form of an upper-case ASCII letter; any other character
/// as it is.
pub open spec fn to_lower(c: char) -> char {
    if 'A' <= c <= 'Z' {
        ((c as int) + 32) as char
    } else {
        c
    }
}

/// `s` is `word`, written in any mix of upper and lower case.
pub open spec fn spells_ignoring_case(s: Seq<char>, word: Seq<char>) -> bool {
    &&& s.len() == word.len()
    &&& forall|i: int| 0 <= i < s.len() ==> to_lower(#[trigger] s[i]) == word[i]
}

/// `s` names an infinity or the value that is not a number.
pub open spec fn is_special_value(s: Seq<char>) -> bool {
    ||| spells_ignoring_case(s, "inf"@)
    ||| spells_ignoring_case(s, "infinity"@)
    ||| spells_ignoring_case(s, "nan"@)
}

/// `s` is an exponent: the letter e, an optional sign, one or more digits.
pub open spec fn is_exponent(s: Seq<char>) -> bool {
    &&& s.len() > 0
    &&& to_lower(s[0]) == 'e'
    &&& ({
        let digits = unsigned_part(s.subrange(1, s.len() as int));
        digits.len() > 0 && all_digits(digits)
    })
}

/// `s` is an unsigned decimal number: digits, with at most one point among
/// them or at either end, and at least one digit; then an optional exponent.
pub open spec fn is_decimal_number(s: Seq<char>) -> bool {
    let whole = digit_run(s, 0) as int;
    let has_point = whole < s.len() && s[whole] == '.';
    let fraction = if has_point {
        digit_run(s, whole + 1) as int
    } else {
        0
    };
    let end = if has_point {
        whole + 1 + fraction
    } else {
        whole
    };
    &&& whole + fraction > 0
    &&& (end == s.len() || is_exponent(s.subrange(end, s.len() as int)))
}

/// `s` is the literal of a floating-point number.
pub open spec fn is_float_literal(s: Seq<char>) -> bool {
    let body = unsigned_part(s);
    is_decimal_number(body) || is_special_value(body)
}

/// A run of digits lies inside the text, holds digits only, and ends where
/// the text ends or where another character stands.
proof fn lemma_digit_run(s: Seq<char>, from: int)
    requires
        0 <= from <= s.len(),
    ensures
        from + digit_run(s, from) <= s.len(),
        forall|k: int| from <= k < from + digit_run(s, from) ==> is_digit(#[trigger] s[k]),
        from + digit_run(s, from) < s.len() ==> !is_digit(s[from + digit_run(s, from)]),
    decreases s.len() - from,
{
    if from < s.len() && is_digit(s[from]) {
        lemma_digit_run(s, from + 1);
    }
}

/// A run of digits in the tail of a text is the run at the same place in
/// the whole text.
proof fn lemma_digit_run_in_tail(s: Seq<char>, cut: int, from: int)
    requires
        0 <= cut <= s.len(),
        0 <= from,
    ensures
        digit_run(s.subrange(cut, s.len() as int), from) == digit_run(s, cut + from),
    decreases s.len() - cut - from,
{
    let tail = s.subrange(cut, s.len() as int);
    if from < tail.len() {
        if is_digit(tail[from]) {
            lemma_digit_run_in_tail(s, cut, from + 1);
        }
    }
}

/// The tail of a text holds digits only where the run of digits that starts
/// it reaches the end of the text.
proof fn lemma_digits_to_the_end(s: Seq<char>, from: int)
    requires
        0 <= from <= s.len(),
    ensures
        all_digits(s.subrange(from, s.len() as int)) <==> from + digit_run(s, from) == s.len(),
{
    lemma_digit_run(s, from);
    let tail = s.subrange(from, s.len() as int);
    let end = from + digit_run(s, from);
    if end == s.len() {
        assert forall|i: int| 0 <= i < tail.len() implies is_digit(#[trigger] tail[i]) by {}
    } else {
        assert(tail[end - from] == s[end]);
    }
}

/// `s` is put together from the parts of a number: the digits `whole`; then,
/// where `point` holds, a point and the digits `fraction`; then `exponent`,
/// which is an exponent or nothing. There is at least one digit before the
/// exponent.
pub open spec fn is_number_of_parts(
    s: Seq<char>,
    whole: Seq<char>,
    point: bool,
    fraction: Seq<char>,
    exponent: Seq<char>,
) -> bool {
    &&& all_digits(whole)
    &&& all_digits(fraction)
    &&& whole.len() + fraction.len() > 0
    &&& (point || fraction.len() == 0)
    &&& (exponent.len() == 0 || is_exponent(exponent))
    &&& s == whole + (if point {
        seq!['.']
    } else {
        Seq::<char>::empty()
    }) + fraction + exponent
}

/// Where `count` digits stand in `s` from `from` on and no digit follows
/// them, the run of digits from `from` is `count` long.
proof fn lemma_digits_then_another(s: Seq<char>, from: int, count: int)
    requires
        0 <= from,
        0 <= count,
        from + count <= s.len(),
        forall|k: int| from <= k < from + count ==> is_digit(#[trigger] s[k]),
        from + count < s.len() ==> !is_digit(s[from + count]),
    ensures
        digit_run(s, from) == count,
    decreases count,
{
    if count > 0 {
        lemma_digits_then_another(s, from + 1, count - 1);
    }
}

/// The unsigned decimal numbers are the texts of the grammar
/// `( Digit+ | Digit+ '.' Digit* | Digit* '.' Digit+ ) Exp?`.
pub proof fn lemma_decimal_numbers_are_the_grammar(s: Seq<char>)
    ensures
        is_decimal_number(s) <==> exists|
            whole: Seq<char>,
            point: bool,
            fraction: Seq<char>,
            exponent: Seq<char>,
        | is_number_of_parts(s, whole, point, fraction, exponent),
{
    if is_decimal_number(s) {
        let w = digit_run(s, 0) as int;
        lemma_digit_run(s, 0);
        let point = w < s.len() && s[w] == '.';
        let f = if point {
            lemma_digit_run(s, w + 1);
            digit_run(s, w + 1) as int
        } else {
            0
        };
        let end = if point {
            w + 1 + f
        } else {
            w
        };
        let whole = s.subrange(0, w);
        let fraction = if point {
            s.subrange(w + 1, end)
        } else {
            Seq::<char>::empty()
        };
        let exponent = s.subrange(end, s.len() as int);
        let dot = if point {
            seq!['.']
        } else {
            Seq::<char>::empty()
        };
        assert(s =~= whole + dot + fraction + exponent);
        assert(is_number_of_parts(s, whole, point, fraction, exponent));
    }
    if exists|whole: Seq<char>, point: bool, fraction: Seq<char>, exponent: Seq<char>|
        is_number_of_parts(s, whole, point, fraction, exponent) {
        let (whole, point, fraction, exponent) = choose|
            whole: Seq<char>,
            point: bool,
            fraction: Seq<char>,
            exponent: Seq<char>,
        | is_number_of_parts(s, whole, point, fraction, exponent);
        let w = whole.len() as int;
        let f = fraction.len() as int;
        let end = if point {
            w + 1 + f
        } else {
            w
        };
        assert forall|k: int| 0 <= k < w implies is_digit(#[trigger] s[k]) by {
            assert(s[k] == whole[k]);
        }
        if end < s.len() {
            assert(s[end] == exponent[0]);
        }
        if point {
            assert(s[w] == '.');
            lemma_digits_then_another(s, 0, w);
            assert forall|k: int| w + 1 <= k < w + 1 + f implies is_digit(#[trigger] s[k]) by {
                assert(s[k] == fraction[k - w - 1]);
            }
            lemma_digits_then_another(s, w + 1, f);
        } else {
            lemma_digits_then_another(s, 0, w);
        }
        assert(s.subrange(end, s.len() as int) =~= exponent);
    }
}

/// Every text that writes an integer is the literal of a floating-point
/// number.
pub proof fn lemma_integers_are_float_literals(s: Seq<char>)
    requires
        decimal_value(s) is Some,
    ensures
        is_float_literal(s),
{
    let body = unsigned_part(s);
    lemma_digits_to_the_end(body, 0);
    lemma_digit_run(body, 0);
}

/// Every character of a floating-point literal is an ASCII character.
pub proof fn lemma_float_literal_is_ascii(s: Seq<char>)
    requires
        is_float_literal(s),
    ensures
        forall|i: int| 0 <= i < s.len() ==> is_ascii_char(#[trigger] s[i]),
{
    reveal_strlit("inf");
    reveal_strlit("infinity");
    reveal_strlit("nan");
    let body = unsigned_part(s);
    let shift = s.len() - body.len();
    assert forall|i: int| 0 <= i < body.len() implies is_ascii_char(#[trigger] body[i]) by {
        if is_special_value(body) {
            let c = body[i];
            assert(to_lower(c) == "inf"@[i] || to_lower(c) == "infinity"@[i] || to_lower(c)
                == "nan"@[i]);
        } else {
            let whole = digit_run(body, 0) as int;
            lemma_digit_run(body, 0);
            let has_point = whole < body.len() && body[whole] == '.';
            let end = if has_point {
                lemma_digit_run(body, whole + 1);
                whole + 1 + digit_run(body, whole + 1)
            } else {
                whole
            };
            if i >= end {
                let exponent = body.subrange(end, body.len() as int);
                if i > end {
                    let rest = exponent.subrange(1, exponent.len() as int);
                    let digits = unsigned_part(rest);
                    if digits.len() < rest.len() {
                        if i > end + 1 {
                            assert(digits[i - end - 2] == body[i]);
                        }
                    } else {
                        assert(digits[i - end - 1] == body[i]);
                    }
                }
            }
        }
    }
    assert forall|i: int| 0 <= i < s.len() implies is_ascii_char(#[trigger] s[i]) by {
        if i >= shift {
            assert(body[i - shift] == s[i]);
        }
    }
}

/// The position where the run of digits that starts at `from` ends.
fn scan_digits(bytes: &[u8], from: usize, Ghost(s): Ghost<Seq<char>>) -> (end: usize)
    requires
        bytes_spell(bytes@, s),
        from <= bytes.len(),
    ensures
        end == from + digit_run(s, from as int),
        end <= bytes.len(),
{
    let n: usize = bytes.len();
    let mut end: usize = from;
    while end < n && 48u8 <= bytes[end] && bytes[end] <= 57u8
        invariant
            from <= end <= n,
            n == bytes.len(),
            bytes_spell(bytes@, s),
            from + digit_run(s, from as int) == end + digit_run(s, end as int),
        decreases n - end,
    {
        end = end + 1;
    }
    end
}

/// The byte of the lower-case form of an upper-case letter; any other byte
/// as it is.
fn lower_byte(b: u8) -> (lower: u8)
    ensures
        lower == if 65 <= b <= 90 {
            (b + 32) as u8
        } else {
            b
        },
{
    if 65u8 <= b && b <= 90u8 {
        b + 32u8
    } else {
        b
    }
}

/// Whether the text from `from` on is `word`, in any mix of cases.
fn tail_spells(bytes: &[u8], from: usize, word: &str, Ghost(s): Ghost<Seq<char>>) -> (same: bool)
    requires
        bytes_spell(bytes@, s),
        from <= bytes.len(),
        forall|i: int| 0 <= i < word@.len() ==> 'a' <= #[trigger] word@[i] <= 'z',
    ensures
        same == spells_ignoring_case(s.subrange(from as int, s.len() as int), word@),
{
    let ghost tail = s.subrange(from as int, s.len() as int);
    let letters = match ascii_bytes(word) {
        Some(b) => b,
        None => {
            return false;
        },
    };
    let n: usize = bytes.len();
    let m: usize = letters.len();
    if n - from != m {
        return false;
    }
    let mut i: usize = 0;
    while i < m
        invariant
            i <= m,
            m == letters.len(),
            n == bytes.len(),
            from <= n,
            n - from == m,
            bytes_spell(bytes@, s),
            bytes_spell(letters@, word@),
            tail == s.subrange(from as int, s.len() as int),
            forall|k: int| 0 <= k < i ==> to_lower(#[trigger] tail[k]) == word@[k],
        decreases m - i,
    {
        let b: u8 = lower_byte(bytes[from + i]);
        if b != letters[i] {
            assert(to_lower(tail[i as int]) != word@[i as int]);
            return false;
        }
        i = i + 1;
    }
    true
}

/// Whether the text from `from` on is an exponent.
fn tail_is_exponent(bytes: &[u8], from: usize, Ghost(s): Ghost<Seq<char>>) -> (valid: bool)
    requires
        bytes_spell(bytes@, s),
        from < bytes.len(),
    ensures
        valid == is_exponent(s.subrange(from as int, s.len() as int)),
{
    let n: usize = bytes.len();
    let ghost exponent = s.subrange(from as int, n as int);
    let ghost rest = exponent.subrange(1, exponent.len() as int);
    if bytes[from] != 101u8 && bytes[from] != 69u8 {
        return false;
    }
    let mut first: usize = from + 1;
    if first < n {
        if bytes[first] == 43u8 || bytes[first] == 45u8 {
            first = first + 1;
        }
    }
    assert(unsigned_part(rest) =~= s.subrange(first as int, n as int));
    if first == n {
        return false;
    }
    let end: usize = scan_digits(bytes, first, Ghost(s));
    proof {
        lemma_digits_to_the_end(s, first as int);
    }
    end == n
}

/// Whether `text` is the literal of a floating-point number.
pub fn parses_as_float(text: &str) -> (valid: bool)
    ensures
        valid == is_float_literal(text@),
{
    let ghost s = text@;
    let bytes = match ascii_bytes(text) {
        Some(b) => b,
        None => {
            proof {
                if is_float_literal(s) {
                    lemma_float_literal_is_ascii(s);
                }
            }
            return false;
        },
    };
    let n: usize = bytes.len();
    let start: usize = if n > 0 && (bytes[0] == 43u8 || bytes[0] == 45u8) {
        1
    } else {
        0
    };
    let ghost body = unsigned_part(s);
    assert(body =~= s.subrange(start as int, n as int));
    proof {
        reveal_strlit("inf");
        reveal_strlit("infinity");
        reveal_strlit("nan");
    }
    if tail_spells(bytes, start, "inf", Ghost(s)) || tail_spells(bytes, start, "infinity", Ghost(s))
        || tail_spells(bytes, start, "nan", Ghost(s)) {
        return true;
    }
    let whole_end: usize = scan_digits(bytes, start, Ghost(s));
    proof {
        lemma_digit_run_in_tail(s, start as int, 0);
    }
    let has_point: bool = whole_end < n && bytes[whole_end] == 46u8;
    assert(has_point <==> (digit_run(body, 0) < body.len() && body[digit_run(body, 0) as int]
        == '.'));
    let mut end: usize = whole_end;
    let mut digits: usize = whole_end - start;
    if has_point {
        end = scan_digits(bytes, whole_end + 1, Ghost(s));
        proof {
            lemma_digit_run_in_tail(s, start as int, whole_end + 1 - start);
        }
        digits = digits + (end - whole_end - 1);
    }
    if digits == 0 {
        return false;
    }
    if end == n {
        return true;
    }
    assert(body.subrange(end - start, body.len() as int) =~= s.subrange(end as int, n as int));
    tail_is_exponent(bytes, end, Ghost(s))
}

} // verus!
