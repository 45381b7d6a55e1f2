//! Text helpers: comparing strings and writing decimal numbers.

use vstd::prelude::*;

verus! {

/// Whether two strings hold the same characters.
pub fn text_is(value: &str, expected: &str) -> (same: bool)
    ensures
        same == (value@ == expected@),
{
    let value_owned = value.to_owned();
    let expected_owned = expected.to_owned();
    value_owned == expected_owned
}

/// The ASCII character of the decimal digit `d`.
pub open spec fn digit_char(d: nat) -> char
    recommends
        d < 10,
{
    ((d + 48) as u32) as char
}

/// The decimal representation of `n`, without leading zeros.
pub open spec fn decimal_text(n: nat) -> Seq<char>
    decreases n,
{
    if n < 10 {
        seq![digit_char(n)]
    } else {
        decimal_text(n / 10).push(digit_char(n % 10))
    }
}

/// Appends one character to a string.
#[verifier::external_body]
pub(crate) fn push_char(text: &mut String, c: char)
    ensures
        final(text)@ == old(text)@.push(c),
{
    text.push(c);
}

/// The ASCII character of the decimal digit `d`.
pub fn digit(d: u64) -> (c: char)
    requires
        d < 10,
    ensures
        c == digit_char(d as nat),
{
    let code: u32 = (d as u32) + 48;
    proof {
        assert(0x30 <= code <= 0x39);
    }
    char_of(code)
}

/// The character whose code point is `code`, for a code point of an ASCII digit.
fn char_of(code: u32) -> (c: char)
    requires
        0x30 <= code <= 0x39,
    ensures
        c == code as char,
{
    code as u8 as char
}

/// Appends the decimal representation of `n`.
pub fn push_decimal(text: &mut String, n: u64)
    ensures
        final(text)@ == old(text)@ + decimal_text(n as nat),
    decreases n,
{
    if n >= 10 {
        push_decimal(text, n / 10);
    }
    push_char(text, digit(n % 10));
    proof {
        assert(text@ =~= old(text)@ + decimal_text(n as nat));
    }
}

/// Whether `c` has the Unicode `White_Space` property, as `char::is_whitespace`
/// tests it.
pub open spec fn is_white_space(c: char) -> bool {
    let u = c as u32;
    ||| 0x09 <= u <= 0x0d
    ||| u == 0x20
    ||| u == 0x85
    ||| u == 0xa0
    ||| u == 0x1680
    ||| 0x2000 <= u <= 0x200a
    ||| u == 0x2028
    ||| u == 0x2029
    ||| u == 0x202f
    ||| u == 0x205f
    ||| u == 0x3000
}

/// Whether `text` holds nothing but white space, that is, whether trimming
/// its white space leaves it empty.
pub open spec fn is_blank_text(text: Seq<char>) -> bool {
    forall|i: int| 0 <= i < text.len() ==> is_white_space(#[trigger] text[i])
}

/// Whether `c` has the Unicode `White_Space` property.
pub fn white_space(c: char) -> (white: bool)
    ensures
        white == is_white_space(c),
{
    let u = c as u32;
    (0x09 <= u && u <= 0x0d) || u == 0x20 || u == 0x85 || u == 0xa0 || u == 0x1680 || (0x2000 <= u
        && u <= 0x200a) || u == 0x2028 || u == 0x2029 || u == 0x202f || u == 0x205f || u == 0x3000
}

/// Whether `line` is blank: empty or white space only, so that a trace
/// reader skips it.
pub fn is_blank(line: &str) -> (blank: bool)
    ensures
        blank == is_blank_text(line@),
{
    let n = line.unicode_len();
    let mut i: usize = 0;
    while i < n
        invariant
            i <= n,
            n == line@.len(),
            forall|j: int| 0 <= j < i ==> is_white_space(#[trigger] line@[j]),
        decreases n - i,
    {
        let c = line.get_char(i);
        if !white_space(c) {
            return false;
        }
        i = i + 1;
    }
    true
}

} // verus!
