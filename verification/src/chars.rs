//! Character classes the game distinguishes.

use vstd::prelude::*;

verus! {

/// The character that asks for a hint.
pub const HINT_TRIGGER: char = '*';

/// The character that stands for a position not yet revealed.
pub const BLANK: char = '_';

/// `c` is one of the twenty-six letters `a` to `z`.
pub open spec fn lowercase_letter(c: char) -> bool {
    'a' <= c && c <= 'z'
}

/// `c` is one of `a`, `e`, `i`, `o`, `u`.
pub open spec fn vowel(c: char) -> bool {
    c == 'a' || c == 'e' || c == 'i' || c == 'o' || c == 'u'
}

/// `c` with the letters `A` to `Z` mapped to `a` to `z`; every other
/// character stays as it is.
pub open spec fn lowered(c: char) -> char {
    if 'A' <= c && c <= 'Z' {
        ((c as u8) + 32) as char
    } else {
        c
    }
}

/// `c` has the Unicode property `White_Space`.
pub open spec fn whitespace(c: char) -> bool {
    let n = c as u32;
    ||| 0x09 <= n <= 0x0D
    ||| n == 0x20
    ||| n == 0x85
    ||| n == 0xA0
    ||| n == 0x1680
    ||| 0x2000 <= n <= 0x200A
    ||| n == 0x2028
    ||| n == 0x2029
    ||| n == 0x202F
    ||| n == 0x205F
    ||| n == 0x3000
}

/// Whether `c` is one of the letters `a` to `z`.
pub fn is_lowercase_letter(c: char) -> (r: bool)
    ensures
        r == lowercase_letter(c),
{
    'a' <= c && c <= 'z'
}

/// Whether `c` is a vowel.
pub fn is_vowel(c: char) -> (r: bool)
    ensures
        r == vowel(c),
{
    c == 'a' || c == 'e' || c == 'i' || c == 'o' || c == 'u'
}

/// `c` in lower case, where it is one of the letters `A` to `Z`.
pub fn to_lower(c: char) -> (r: char)
    ensures
        r == lowered(c),
{
    if 'A' <= c && c <= 'Z' {
        let byte: u8 = c as u8;
        (byte + 32u8) as char
    } else {
        c
    }
}

/// Whether `c` is whitespace.
pub fn is_whitespace(c: char) -> (r: bool)
    ensures
        r == whitespace(c),
{
    let n: u32 = c as u32;
    (0x09 <= n && n <= 0x0D) || n == 0x20 || n == 0x85 || n == 0xA0 || n == 0x1680 || (0x2000 <= n
        && n <= 0x200A) || n == 0x2028 || n == 0x2029 || n == 0x202F || n == 0x205F || n == 0x3000
}

} // verus!
