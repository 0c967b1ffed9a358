use vstd::prelude::*;
use vstd::utf8::*;

verus! {

/// What `str::trim` leaves of a text: the text without its leading and
/// trailing Unicode white space.
pub uninterp spec fn trimmed(text: Seq<char>) -> Seq<char>;

/// Whether a character is alphabetic or numeric in Unicode's sense, as
/// `char::is_alphanumeric` tells.
pub uninterp spec fn is_alphanumeric(c: char) -> bool;

/// What `str::parse::<u64>` makes of a text: the number, or `None` where the
/// text is no decimal numeral or names a number too large.
pub uninterp spec fn parsed_u64(text: Seq<char>) -> Option<u64>;

/// `needle` stands somewhere in `text`.
pub open spec fn occurs_in(needle: Seq<char>, text: Seq<char>) -> bool {
    exists|i: int|
        0 <= i <= text.len() - needle.len() && #[trigger] text.subrange(i, i + needle.len())
            == needle
}

/// `text` opens with `prefix`.
pub open spec fn has_prefix(text: Seq<char>, prefix: Seq<char>) -> bool {
    text.len() >= prefix.len() && text.subrange(0, prefix.len() as int) == prefix
}

/// `String::from_utf8`, with the error dropped: the decoded text where the
/// bytes are valid UTF-8, and `None` where they are not.
#[verifier::external_body]
pub(crate) fn string_from_utf8(bytes: Vec<u8>) -> (text: Option<String>)
    ensures
        match text {
            Some(t) => valid_utf8(bytes@) && t@ == decode_utf8(bytes@),
            None => !valid_utf8(bytes@),
        },
{
    String::from_utf8(bytes).ok()
}

/// `str::trim`. The result is a part of the text, so it is no longer.
#[verifier::external_body]
pub(crate) fn trim<'a>(text: &'a str) -> (inner: &'a str)
    ensures
        inner@ == trimmed(text@),
        inner@.len() <= text@.len(),
{
    text.trim()
}

/// `str::contains` for a text pattern: whether the pattern matches a part
/// of the text.
#[verifier::external_body]
pub(crate) fn contains(text: &str, needle: &str) -> (found: bool)
    ensures
        found == occurs_in(needle@, text@),
{
    text.contains(needle)
}

/// `str::strip_prefix` for a text pattern: the text after the prefix, or
/// `None` where the text does not open with it.
#[verifier::external_body]
pub(crate) fn strip_prefix<'a>(text: &'a str, prefix: &str) -> (rest: Option<&'a str>)
    ensures
        match rest {
            Some(r) => has_prefix(text@, prefix@) && text@ == prefix@ + r@,
            None => !has_prefix(text@, prefix@),
        },
{
    text.strip_prefix(prefix)
}

/// `char::is_alphanumeric`. The contract only names the result.
#[verifier::external_body]
pub(crate) fn char_is_alphanumeric(c: char) -> (yes: bool)
    ensures
        yes == is_alphanumeric(c),
{
    c.is_alphanumeric()
}

/// `str::parse::<u64>`, with the error dropped. The contract only names the
/// result.
#[verifier::external_body]
pub(crate) fn parse_u64(text: &str) -> (number: Option<u64>)
    ensures
        number == parsed_u64(text@),
{
    text.parse::<u64>().ok()
}

} // verus!
