//! Small verified text helpers: blankness of an input field, character-wise
//! string equality, and rendering a numeric verification code as six digits.

use vstd::prelude::*;

verus! {

/// The whitespace characters that count when deciding whether an input
/// field is blank: the Unicode white-space set, the same characters that
/// `char::is_whitespace` accepts.
pub open spec fn char_is_space(c: char) -> bool {
    let n = c as u32;
    (9 <= n && n <= 13) || n == 32 || n == 0x85 || n == 0xA0 || n == 0x1680 || (0x2000 <= n && n
        <= 0x200A) || n == 0x2028 || n == 0x2029 || n == 0x202F || n == 0x205F || n == 0x3000
}

/// A string is blank when every character is spacing; the empty string is blank.
pub open spec fn spec_is_blank(s: Seq<char>) -> bool {
    forall|i: int| 0 <= i < s.len() ==> char_is_space(s[i])
}

/// Whether `s` is empty or made of spacing characters only.
pub fn is_blank(s: &str) -> (r: bool)
    ensures
        r == spec_is_blank(s@),
{
    let len = s.unicode_len();
    let mut i: usize = 0;
    while i < len
        invariant
            0 <= i <= len,
            len == s@.len(),
            forall|j: int| 0 <= j < i ==> char_is_space(s@[j]),
        decreases len - i,
    {
        let n = s.get_char(i) as u32;
        let space = (9 <= n && n <= 13) || n == 32 || n == 0x85 || n == 0xA0 || n == 0x1680 || (
        0x2000 <= n && n <= 0x200A) || n == 0x2028 || n == 0x2029 || n == 0x202F || n == 0x205F
            || n == 0x3000;
        if !space {
            return false;
        }
        i += 1;
    }
    true
}

/// Character-for-character equality of two string slices.
pub fn str_eq(a: &str, b: &str) -> (r: bool)
    ensures
        r == (a@ == b@),
{
    let alen = a.unicode_len();
    let blen = b.unicode_len();
    if alen != blen {
        return false;
    }
    let mut i: usize = 0;
    while i < alen
        invariant
            0 <= i <= alen,
            alen == a@.len(),
            alen == b@.len(),
            forall|j: int| 0 <= j < i ==> a@[j] == b@[j],
        decreases alen - i,
    {
        if a.get_char(i) != b.get_char(i) {
            return false;
        }
        i += 1;
    }
    proof {
        assert(a@ =~= b@);
    }
    true
}

/// The character for one decimal digit.
pub open spec fn spec_digit_char(d: int) -> char {
    if d == 0 {
        '0'
    } else if d == 1 {
        '1'
    } else if d == 2 {
        '2'
    } else if d == 3 {
        '3'
    } else if d == 4 {
        '4'
    } else if d == 5 {
        '5'
    } else if d == 6 {
        '6'
    } else if d == 7 {
        '7'
    } else if d == 8 {
        '8'
    } else {
        '9'
    }
}

/// The six decimal digits of `code`, most significant first, zero-padded.
pub open spec fn spec_code_digits(code: u32) -> Seq<char> {
    seq![
        spec_digit_char(code as int / 100000 % 10),
        spec_digit_char(code as int / 10000 % 10),
        spec_digit_char(code as int / 1000 % 10),
        spec_digit_char(code as int / 100 % 10),
        spec_digit_char(code as int / 10 % 10),
        spec_digit_char(code as int % 10),
    ]
}

/// One decimal digit as a string slice.
fn digit_str(d: u32) -> (r: &'static str)
    requires
        d < 10,
    ensures
        r@ == seq![spec_digit_char(d as int)],
{
    let r: &'static str = match d {
        0 => "0",
        1 => "1",
        2 => "2",
        3 => "3",
        4 => "4",
        5 => "5",
        6 => "6",
        7 => "7",
        8 => "8",
        _ => "9",
    };
    proof {
        reveal_strlit("0");
        reveal_strlit("1");
        reveal_strlit("2");
        reveal_strlit("3");
        reveal_strlit("4");
        reveal_strlit("5");
        reveal_strlit("6");
        reveal_strlit("7");
        reveal_strlit("8");
        reveal_strlit("9");
        assert(r@ =~= seq![spec_digit_char(d as int)]);
    }
    r
}

/// Renders a verification code below one million as exactly six decimal
/// digits, zero-padded on the left.
pub fn code_string(code: u32) -> (r: String)
    requires
        code < 1_000_000,
    ensures
        r@ == spec_code_digits(code),
        r@.len() == 6,
{
    let mut s = String::new();
    let d0 = code / 100_000 % 10;
    let d1 = code / 10_000 % 10;
    let d2 = code / 1_000 % 10;
    let d3 = code / 100 % 10;
    let d4 = code / 10 % 10;
    let d5 = code % 10;
    s.append(digit_str(d0));
    s.append(digit_str(d1));
    s.append(digit_str(d2));
    s.append(digit_str(d3));
    s.append(digit_str(d4));
    s.append(digit_str(d5));
    proof {
        assert(s@ =~= spec_code_digits(code));
    }
    s
}

} // verus!
