use vstd::prelude::*;
use unicode_width::UnicodeWidthChar;

verus! {

/// The display width, in terminal columns, that `unicode_width` assigns to a
/// character (`None` for control characters).
pub uninterp spec fn char_width_of(c: char) -> Option<usize>;

/// Printable ASCII, from the space up to the tilde.
pub open spec fn is_printable_ascii(c: char) -> bool {
    0x20 <= (c as u32) && (c as u32) < 0x7f
}

/// A character may stand in a bar when it occupies one or two columns.
pub open spec fn width_is_valid(w: Option<usize>) -> bool {
    match w {
        Some(n) => 1 <= n && n <= 2,
        None => false,
    }
}

/// Relies on `UnicodeWidthChar::width` of unicode-width: the width depends on
/// the character alone, and the printable ASCII characters are one column wide.
#[verifier::external_body]
pub(crate) fn display_width(c: char) -> (r: Option<usize>)
    ensures
        r == char_width_of(c),
        is_printable_ascii(c) ==> r == Some(1usize),
{
    UnicodeWidthChar::width(c)
}

/// Relies on `String::push`: the character is appended at the end.
pub assume_specification[ String::push ](s: &mut String, ch: char)
    ensures
        final(s)@ == old(s)@.push(ch),
;

} // verus!
