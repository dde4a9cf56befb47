//! Mapping of Unicode math alphanumeric symbols to ASCII equivalents.
//!
//! Math fonts address letters through the Unicode math alphanumeric blocks
//! (italic, bold, bold italic, sans-serif, monospace, and styled digits).
//! A primary text font only carries the ASCII letters, so glyph fallback
//! needs the ASCII character that a math symbol stands for.

use vstd::prelude::*;

verus! {

/// The ASCII code point that a Unicode math alphanumeric code point stands
/// for, or `None` when the code point is not a math alphanumeric symbol.
///
/// Each styled alphabet is a contiguous run mapped onto `A`-`Z` (code 65),
/// `a`-`z` (code 97) or `0`-`9` (code 48).  The italic small letters have a
/// hole at U+1D455: the italic `h` lives at U+210E (the Planck constant).
pub open spec fn math_ascii_code(cp: int) -> Option<int> {
    if 0x1D434 <= cp <= 0x1D44D {  // Math Italic Capital A-Z
        Some(65 + (cp - 0x1D434))
    } else if 0x1D44E <= cp <= 0x1D454 {  // Math Italic Small a-g
        Some(97 + (cp - 0x1D44E))
    } else if 0x1D456 <= cp <= 0x1D467 {  // Math Italic Small i-z
        Some(97 + (cp - 0x1D456) + 8)
    } else if cp == 0x210E {  // Planck constant (math italic h)
        Some(104)
    } else if 0x1D400 <= cp <= 0x1D419 {  // Math Bold Capital A-Z
        Some(65 + (cp - 0x1D400))
    } else if 0x1D41A <= cp <= 0x1D433 {  // Math Bold Small a-z
        Some(97 + (cp - 0x1D41A))
    } else if 0x1D468 <= cp <= 0x1D481 {  // Math Bold Italic Capital A-Z
        Some(65 + (cp - 0x1D468))
    } else if 0x1D482 <= cp <= 0x1D49B {  // Math Bold Italic Small a-z
        Some(97 + (cp - 0x1D482))
    } else if 0x1D5A0 <= cp <= 0x1D5B9 {  // Math Sans Capital A-Z
        Some(65 + (cp - 0x1D5A0))
    } else if 0x1D5BA <= cp <= 0x1D5D3 {  // Math Sans Small a-z
        Some(97 + (cp - 0x1D5BA))
    } else if 0x1D670 <= cp <= 0x1D689 {  // Math Monospace Capital A-Z
        Some(65 + (cp - 0x1D670))
    } else if 0x1D68A <= cp <= 0x1D6A3 {  // Math Monospace Small a-z
        Some(97 + (cp - 0x1D68A))
    } else if 0x1D7CE <= cp <= 0x1D7D7 {  // Math Bold Digits
        Some(48 + (cp - 0x1D7CE))
    } else if 0x1D7D8 <= cp <= 0x1D7E1 {  // Math Double-Struck Digits
        Some(48 + (cp - 0x1D7D8))
    } else if 0x1D7E2 <= cp <= 0x1D7EB {  // Math Sans Digits
        Some(48 + (cp - 0x1D7E2))
    } else if 0x1D7EC <= cp <= 0x1D7F5 {  // Math Sans Bold Digits
        Some(48 + (cp - 0x1D7EC))
    } else if 0x1D7F6 <= cp <= 0x1D7FF {  // Math Monospace Digits
        Some(48 + (cp - 0x1D7F6))
    } else {
        None
    }
}

/// Map a Unicode math alphanumeric symbol to its ASCII equivalent.
pub fn math_to_ascii(c: char) -> (r: Option<char>)
    ensures
        (r is Some) == (math_ascii_code(c as u32 as int) is Some),
        r matches Some(a) ==> math_ascii_code(c as u32 as int) == Some((a as u32) as int),
{
    let cp = c as u32;
    let base: u32 = if 0x1D434 <= cp && cp <= 0x1D44D {
        65 + (cp - 0x1D434)
    } else if 0x1D44E <= cp && cp <= 0x1D454 {
        97 + (cp - 0x1D44E)
    } else if 0x1D456 <= cp && cp <= 0x1D467 {
        97 + (cp - 0x1D456) + 8
    } else if cp == 0x210E {
        104
    } else if 0x1D400 <= cp && cp <= 0x1D419 {
        65 + (cp - 0x1D400)
    } else if 0x1D41A <= cp && cp <= 0x1D433 {
        97 + (cp - 0x1D41A)
    } else if 0x1D468 <= cp && cp <= 0x1D481 {
        65 + (cp - 0x1D468)
    } else if 0x1D482 <= cp && cp <= 0x1D49B {
        97 + (cp - 0x1D482)
    } else if 0x1D5A0 <= cp && cp <= 0x1D5B9 {
        65 + (cp - 0x1D5A0)
    } else if 0x1D5BA <= cp && cp <= 0x1D5D3 {
        97 + (cp - 0x1D5BA)
    } else if 0x1D670 <= cp && cp <= 0x1D689 {
        65 + (cp - 0x1D670)
    } else if 0x1D68A <= cp && cp <= 0x1D6A3 {
        97 + (cp - 0x1D68A)
    } else if 0x1D7CE <= cp && cp <= 0x1D7D7 {
        48 + (cp - 0x1D7CE)
    } else if 0x1D7D8 <= cp && cp <= 0x1D7E1 {
        48 + (cp - 0x1D7D8)
    } else if 0x1D7E2 <= cp && cp <= 0x1D7EB {
        48 + (cp - 0x1D7E2)
    } else if 0x1D7EC <= cp && cp <= 0x1D7F5 {
        48 + (cp - 0x1D7EC)
    } else if 0x1D7F6 <= cp && cp <= 0x1D7FF {
        48 + (cp - 0x1D7F6)
    } else {
        return None;
    };
    Some((base as u8) as char)
}

} // verus!
