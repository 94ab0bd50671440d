//! Regular-expression matching, done by the `regex` crate.
use crate::text::views;
use vstd::prelude::*;

verus! {

/// The text of capture group 1 in each successive non-overlapping match of the regular
/// expression `pattern` in `text`, leftmost first; the empty text where group 1 took no part;
/// no match at all where `pattern` is not a valid expression.
pub uninterp spec fn regex_captures(pattern: Seq<char>, text: Seq<char>) -> Seq<Seq<char>>;

/// `text` with every non-overlapping match of the regular expression `pattern` replaced by
/// `replacement`, in which `$n` and `${n}` stand for capture group n; `text` unchanged where
/// `pattern` is not a valid expression.
pub uninterp spec fn regex_replaced(
    pattern: Seq<char>,
    text: Seq<char>,
    replacement: Seq<char>,
) -> Seq<char>;

/// Relies on `regex::Regex::new` and `regex::Regex::captures_iter`: group 1 of each match.
#[verifier::external_body]
pub(crate) fn captures_group1(pattern: &str, text: &str) -> (r: Vec<String>)
    ensures
        views(r@) == regex_captures(pattern@, text@),
{
    match regex::Regex::new(pattern) {
        Ok(re) => re.captures_iter(text).map(
            |c| c.get(1).map_or(String::new(), |m| m.as_str().to_string()),
        ).collect(),
        Err(_) => Vec::new(),
    }
}

/// Relies on `regex::Regex::new` and `regex::Regex::replace_all`.
#[verifier::external_body]
pub(crate) fn replace_matches(pattern: &str, text: &str, replacement: &str) -> (r: String)
    ensures
        r@ == regex_replaced(pattern@, text@, replacement@),
{
    match regex::Regex::new(pattern) {
        Ok(re) => re.replace_all(text, replacement).into_owned(),
        Err(_) => text.to_string(),
    }
}

} // verus!
