//! Regular-expression replacement, done by the `regex` crate.

use vstd::prelude::*;
use crate::text::opt_text;

verus! {

/// What `regex` makes of a text when every match of a pattern is replaced:
/// the result of `Regex::replace_all` for the regular expression that
/// `Regex::new` compiles from `pattern`, or `None` where `Regex::new` refuses
/// the pattern. In `replacement`, `$1` stands for the first capture group of
/// the match.
pub uninterp spec fn regex_replaced(
    pattern: Seq<char>,
    text: Seq<char>,
    replacement: Seq<char>,
) -> Option<Seq<char>>;

/// `text` with every match of `pattern` replaced, or as it is where the
/// pattern is refused.
pub open spec fn replaced_or_same(
    pattern: Seq<char>,
    text: Seq<char>,
    replacement: Seq<char>,
) -> Seq<char> {
    match regex_replaced(pattern, text, replacement) {
        Some(replaced) => replaced,
        None => text,
    }
}

/// `regex::Regex::new` followed by `regex::Regex::replace_all`: compiles
/// `pattern` and replaces every non-overlapping match in `text`. A pattern
/// that `Regex::new` refuses gives `None`. Nothing is proved of the result:
/// it is named.
#[verifier::external_body]
pub(crate) fn replace_all(
    pattern: &str,
    text: &str,
    replacement: &str,
) -> (replaced: Option<String>)
    ensures
        opt_text(replaced) == regex_replaced(pattern@, text@, replacement@),
{
    match regex::Regex::new(pattern) {
        Ok(re) => Some(re.replace_all(text, replacement).into_owned()),
        Err(_) => None,
    }
}

/// `text` with every match of `pattern` replaced by `replacement`. A text is
/// returned as it is where the pattern is no regular expression.
pub fn replace_matches(pattern: &str, text: String, replacement: &str) -> (replaced: String)
    ensures
        replaced@ == replaced_or_same(pattern@, text@, replacement@),
{
    match replace_all(pattern, text.as_str(), replacement) {
        Some(replaced) => replaced,
        None => text,
    }
}

} // verus!
