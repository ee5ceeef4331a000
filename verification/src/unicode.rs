//! The trusted boundary around the Unicode crates and the few std string
//! operations that vstd leaves unspecified. Everything else in the crate is
//! verified against the contracts stated here.

use unicode_segmentation::UnicodeSegmentation;
use unicode_width::UnicodeWidthStr;
use vstd::prelude::*;

verus! {

/// The extended grapheme clusters of a string, in order, as defined by
/// Unicode Standard Annex #29. The segmentation depends on the characters
/// alone, so it is given a name here rather than a definition.
pub uninterp spec fn graphemes_of(s: Seq<char>) -> Seq<Seq<char>>;

/// The displayed width of a string in terminal columns, as assigned by
/// Unicode Standard Annex #11 with ambiguous characters counted as one
/// column. A function of the characters alone.
pub uninterp spec fn display_width_of(s: Seq<char>) -> nat;

/// Whether a character has the Unicode `White_Space` property.
pub uninterp spec fn whitespace_char(c: char) -> bool;

/// Whether a character is a Unicode control character (general category
/// `Cc`): the code points U+0000 through U+001F and U+007F through U+009F.
/// Unlike the properties above, this category is two fixed ranges, so it is
/// defined here rather than named.
pub open spec fn control_char(c: char) -> bool {
    (c as u32) <= 0x1f || (0x7f <= (c as u32) && (c as u32) <= 0x9f)
}

/// Relies on `unicode_segmentation::UnicodeSegmentation::graphemes` (with
/// extended clusters selected), which splits a string into its grapheme
/// clusters: non-empty consecutive substrings whose concatenation is the
/// original string.
#[verifier::external_body]
pub(crate) fn split_graphemes(s: &str) -> (r: Vec<String>)
    ensures
        r@.map_values(|g: String| g@) == graphemes_of(s@),
        r@.map_values(|g: String| g@).flatten() == s@,
        forall|i: int| 0 <= i < r@.len() ==> r@[i]@.len() > 0,
{
    s.graphemes(true).map(|g| g.to_string()).collect()
}

/// Relies on `unicode_width::UnicodeWidthStr::width`: the displayed width of
/// a string, a function of its characters alone.
#[verifier::external_body]
pub(crate) fn str_display_width(s: &str) -> (r: usize)
    ensures
        r as nat == display_width_of(s@),
{
    s.width()
}

/// Relies on `char::is_whitespace`: the Unicode `White_Space` property.
#[verifier::external_body]
pub(crate) fn char_is_whitespace(c: char) -> (r: bool)
    ensures
        r == whitespace_char(c),
{
    c.is_whitespace()
}

/// Decides `control_char`. This is verified, not trusted: the two ranges
/// are checked directly, which is also what std's `char::is_control`
/// documents itself to do.
pub(crate) fn char_is_control(c: char) -> (r: bool)
    ensures
        r == control_char(c),
{
    let u = c as u32;
    u <= 0x1f || (0x7f <= u && u <= 0x9f)
}

/// Relies on `String::push`: appends one character to the string.
#[verifier::external_body]
pub(crate) fn push_char(s: &mut String, c: char)
    ensures
        final(s)@ == old(s)@.push(c),
{
    s.push(c);
}

/// Relies on `String::from_iter` (through `collect`): builds the string
/// holding exactly the given characters in order.
#[verifier::external_body]
pub(crate) fn chars_to_string(v: &Vec<char>) -> (r: String)
    ensures
        r@ == v@,
{
    v.iter().collect()
}

} // verus!
