//! Character classification for the scanner.
//!
//! The Unicode character classes come from `std`'s `char` methods.  Their
//! full tables cannot reasonably be restated here, so each class is named
//! by an uninterpreted spec function, refined only by the handful of facts
//! the scanner's proofs need: the blank is white space, and neither the
//! end-of-input sentinel nor the line terminator belongs to any class a
//! token may continue with.

use vstd::prelude::*;

verus! {

/// Sentinel codepoint the input layer returns forever once the source is
/// exhausted.
pub const END_OF_INPUT: char = '\x04';

/// The Unicode `White_Space` property, as decided by `char::is_whitespace`.
pub uninterp spec fn unicode_space(c: char) -> bool;

/// The Unicode `Alphabetic` property, as decided by `char::is_alphabetic`.
pub uninterp spec fn unicode_letter(c: char) -> bool;

/// Unicode alphanumerics, as decided by `char::is_alphanumeric`.
pub uninterp spec fn unicode_alnum(c: char) -> bool;

/// The ASCII punctuation this language builds its operators from.
pub open spec fn is_operator_char(c: char) -> bool {
    ||| c == '(' || c == ')' || c == '+' || c == '-' || c == '*' || c == '/'
    ||| c == ':' || c == '=' || c == '!' || c == '<' || c == '>'
}

/// White space: the blank is white space; the end-of-input sentinel, a
/// control character, is not.
pub open spec fn is_space(c: char) -> bool {
    c == ' ' || (c != END_OF_INPUT && unicode_space(c))
}

/// Alphabetic characters, which start identifiers and keywords: a subset
/// of the alphanumerics.
pub open spec fn is_letter(c: char) -> bool {
    unicode_letter(c) && is_letter_or_digit(c)
}

/// Alphanumeric characters, which continue identifiers and keywords.
/// The blank, control characters — the sentinel and the line terminator
/// among them — and ASCII punctuation are not alphanumeric.
pub open spec fn is_letter_or_digit(c: char) -> bool {
    c != ' ' && c != END_OF_INPUT && c != '\n' && c != '.' && !is_operator_char(c)
        && unicode_alnum(c)
}

/// An ASCII decimal digit.
pub open spec fn is_digit(c: char) -> bool {
    48 <= c as u32 <= 57
}

/// Relies on `char::is_whitespace`: true exactly for codepoints with the
/// Unicode `White_Space` property.  The blank `' '` has the property; the
/// control character `'\x04'` does not.
#[verifier::external_body]
pub(crate) fn whitespace(c: char) -> (r: bool)
    ensures
        r == is_space(c),
        c != END_OF_INPUT ==> r == unicode_space(c),
{
    c.is_whitespace()
}

/// Relies on `char::is_alphabetic`: true exactly for codepoints with the
/// Unicode `Alphabetic` property.  Every such codepoint is alphanumeric;
/// the blank, the control characters `'\x04'` and `'\n'`, the full stop
/// and the ASCII punctuation this language builds its operators from are
/// not.
#[verifier::external_body]
pub(crate) fn alphabetic(c: char) -> (r: bool)
    ensures
        r == is_letter(c),
        c != END_OF_INPUT && c != '\n' ==> r == (unicode_letter(c) && unicode_alnum(c)),
{
    c.is_alphabetic()
}

/// Relies on `char::is_alphanumeric`: true exactly for codepoints that are
/// alphabetic or numeric.  The blank, the control characters `'\x04'` and
/// `'\n'`, the full stop and the ASCII punctuation this language builds
/// its operators from are neither.
#[verifier::external_body]
pub(crate) fn alphanumeric(c: char) -> (r: bool)
    ensures
        r == is_letter_or_digit(c),
        c != END_OF_INPUT && c != '\n' ==> r == unicode_alnum(c),
{
    c.is_alphanumeric()
}

/// Decides `is_digit` directly.
pub fn digit(c: char) -> (r: bool)
    ensures
        r == is_digit(c),
{
    let u = c as u32;
    48 <= u && u <= 57
}

} // verus!
