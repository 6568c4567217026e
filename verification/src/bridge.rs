//! Trusted bridges to `std` string functions and to the `unicode-width`
//! crate. Each item makes one outside call; its contract states only what
//! the called function's documentation or source shows.

use vstd::prelude::*;
use crate::text::byte_len;

verus! {

/// The Unicode scalar value of `c`.
pub open spec fn code_point(c: char) -> u32 {
    c as u32
}

/// Display columns that `unicode_width` assigns to one character
/// (`None` for control characters).
pub uninterp spec fn char_columns(c: char) -> Option<usize>;

/// Display columns that `unicode_width` assigns to a whole string.
pub uninterp spec fn str_columns(s: Seq<char>) -> usize;

/// `unicode_width::UnicodeWidthChar::width`. Besides naming the result, the
/// contract states what the crate's `single_char_width` shows: C0 and C1
/// control characters have no width, printable ASCII is one column, and every
/// other character has a width read from a two-bit table entry.
#[verifier::external_body]
pub(crate) fn char_width(c: char) -> (res: Option<usize>)
    ensures
        res == char_columns(c),
        res is None <==> code_point(c) < 0x20 || 0x7f <= code_point(c) < 0xa0,
        0x20 <= code_point(c) < 0x7f ==> res == Some(1usize),
        res matches Some(w) ==> w <= 3,
{
    unicode_width::UnicodeWidthChar::width(c)
}

/// `unicode_width::UnicodeWidthStr::width`; the result is named, since the
/// crate treats some character sequences (emoji and script ligatures)
/// differently from the sum of their characters.
#[verifier::external_body]
pub(crate) fn str_width(s: &str) -> (res: usize)
    ensures
        res == str_columns(s@),
{
    unicode_width::UnicodeWidthStr::width(s)
}

/// `String::push` from `std`: appends one character.
#[verifier::external_body]
pub(crate) fn push_char(s: &mut String, c: char)
    ensures
        final(s)@ == old(s)@.push(c),
{
    s.push(c)
}

/// `str::len` from `std`: the length of the UTF-8 encoding in bytes, which
/// like every Rust allocation is at most `isize::MAX`.
#[verifier::external_body]
pub(crate) fn str_byte_len(s: &str) -> (n: usize)
    ensures
        n == byte_len(s@),
        n <= isize::MAX,
{
    s.len()
}

} // verus!
