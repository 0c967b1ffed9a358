use vstd::prelude::*;

verus! {

/// The text of the first capture group in the leftmost match of a regular
/// expression in a text: `None` where the expression does not compile, does
/// not match, or matches without that group.
pub uninterp spec fn first_capture(pattern: Seq<char>, text: Seq<char>) -> Option<Seq<char>>;

/// `Regex::new(pattern)`, then `Regex::captures(text)` and `Captures::get(1)`.
/// The contract only names the result.
#[verifier::external_body]
pub(crate) fn regex_first_capture(pattern: &str, text: &str) -> (group: Option<String>)
    ensures
        match group {
            Some(g) => first_capture(pattern@, text@) == Some(g@),
            None => first_capture(pattern@, text@) is None,
        },
{
    let compiled = regex::Regex::new(pattern).ok()?;
    compiled.captures(text)?.get(1).map(|m| m.as_str().to_string())
}

} // verus!
