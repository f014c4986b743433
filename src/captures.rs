//! Regular expression matching, done by the `regex` crate.
use regex::Regex;
use vstd::prelude::*;

verus! {

#[verifier::external_type_specification]
#[verifier::external_body]
pub struct ExRegexError(regex::Error);

/// The successive non-overlapping leftmost-first matches of `pattern` in `text`,
/// each given as its capture groups in order (group 0 being the whole match),
/// with the text that each group matched, or `None` for a group that took no part.
pub uninterp spec fn capture_groups(pattern: Seq<char>, text: Seq<char>) -> Seq<
    Seq<Option<Seq<char>>>,
>;

/// Relies on `regex::Regex::new` to compile `pattern`, and on `Regex::captures_iter`
/// and `Captures::iter` for the groups of every match of it in `text`; each group is
/// handed back as the slice of `text` that `Match::as_str` gives. `Regex::new` fails
/// only on an invalid pattern or one over its size limit; the two signature patterns
/// of this library are valid and small, so for them the result is `Ok`.
#[verifier::external_body]
pub(crate) fn captures_all<'h>(pattern: &str, text: &'h str) -> (r: Result<
    Vec<Vec<Option<&'h str>>>,
    regex::Error,
>)
    ensures
        pattern@ == crate::FILE_PATTERN@ || pattern@ == crate::fn_definition::SIGNATURE_PATTERN@
            ==> r is Ok,
        r is Ok ==> r->Ok_0.deep_view() == capture_groups(pattern@, text@),
{
    let re = Regex::new(pattern)?;
    Ok(re.captures_iter(text).map(|c| c.iter().map(|m| m.map(|m| m.as_str())).collect()).collect())
}

} // verus!
