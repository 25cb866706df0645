//! Unicode character classes the validation rules depend on.

use vstd::prelude::*;

verus! {

/// Whether the character is Unicode alphanumeric (alphabetic or numeric).
pub uninterp spec fn char_is_alphanumeric(c: char) -> bool;

/// Whether the character is a Unicode control character.
pub uninterp spec fn char_is_control(c: char) -> bool;

/// Relies on `char::is_alphanumeric`: true exactly for Unicode alphabetic or
/// numeric characters.  On the ASCII range those are exactly the letters and
/// digits.
#[verifier::external_body]
pub fn is_alphanumeric_char(c: char) -> (r: bool)
    ensures
        r == char_is_alphanumeric(c),
        ('0' <= c <= '9' || 'a' <= c <= 'z' || 'A' <= c <= 'Z') ==> r,
        (c < '\u{80}' && !('0' <= c <= '9' || 'a' <= c <= 'z' || 'A' <= c <= 'Z')) ==> !r,
{
    c.is_alphanumeric()
}

/// Whether the character is Unicode whitespace.
pub uninterp spec fn char_is_whitespace(c: char) -> bool;

/// Relies on `char::is_whitespace`: true exactly for Unicode whitespace.
/// Space, tab, line feed and carriage return are whitespace; the other
/// printable ASCII characters are not.
#[verifier::external_body]
pub fn is_whitespace_char(c: char) -> (r: bool)
    ensures
        r == char_is_whitespace(c),
        (c == ' ' || c == '\t' || c == '\n' || c == '\r') ==> r,
        ('\u{21}' <= c < '\u{7f}') ==> !r,
{
    c.is_whitespace()
}

/// Relies on `char::is_control`: true exactly for Unicode control characters.
/// On the ASCII range those are exactly `U+0000..U+001F` and `U+007F`.
#[verifier::external_body]
pub fn is_control_char(c: char) -> (r: bool)
    ensures
        r == char_is_control(c),
        (c < '\u{20}' || c == '\u{7f}') ==> r,
        ('\u{20}' <= c < '\u{7f}') ==> !r,
{
    c.is_control()
}

} // verus!
