//! The regular-expression searches of the library, made with the `regex`
//! crate. Each pattern is compiled from its text at the call.
use vstd::prelude::*;

verus! {

/// What compiling `pattern` and replacing every match in `text` by `rep`
/// gives (`Regex::new(pattern)`, then `replace_all(text, rep)`); `None`
/// when the pattern does not compile.
pub uninterp spec fn regex_replaced(pattern: Seq<char>, text: Seq<char>, rep: Seq<char>) -> Option<
    Seq<char>,
>;

/// Replaces every match of `pattern` in `text` by `rep` (`regex::Regex::new`
/// and `Regex::replace_all`); the contract claims only that the result is
/// `regex_replaced(pattern, text, rep)`.
#[verifier::external_body]
pub(crate) fn regex_replace_all(pattern: &str, text: &str, rep: &str) -> (r: Option<String>)
    ensures
        match r {
            Some(s) => regex_replaced(pattern@, text@, rep@) == Some(s@),
            None => regex_replaced(pattern@, text@, rep@) is None,
        },
{
    match regex::Regex::new(pattern) {
        Ok(re) => Some(re.replace_all(text, rep).into_owned()),
        Err(_) => None,
    }
}

/// The byte offsets `(start, end)` of the successive matches of `pattern`
/// in `text` (`Regex::new(pattern)`, then `find_iter(text)`); `None` when
/// the pattern does not compile.
pub uninterp spec fn regex_match_spans(pattern: Seq<char>, text: Seq<char>) -> Option<
    Seq<(usize, usize)>,
>;

/// Finds the matches of `pattern` in `text` (`regex::Regex::new` and
/// `Regex::find_iter`), as byte offsets; the contract claims only that the
/// result is `regex_match_spans(pattern, text)`.
#[verifier::external_body]
pub(crate) fn regex_find_spans(pattern: &str, text: &str) -> (r: Option<Vec<(usize, usize)>>)
    ensures
        match r {
            Some(v) => regex_match_spans(pattern@, text@) == Some(v@),
            None => regex_match_spans(pattern@, text@) is None,
        },
{
    match regex::Regex::new(pattern) {
        Ok(re) => Some(re.find_iter(text).map(|m| (m.start(), m.end())).collect()),
        Err(_) => None,
    }
}

/// The texts of the capture groups of the first match of `pattern` in
/// `text` (`Regex::new(pattern)`, then `captures(text)`), group 0 first,
/// `None` for a group that took no part; `None` when the pattern does not
/// compile or does not match.
pub uninterp spec fn regex_capture_texts(pattern: Seq<char>, text: Seq<char>) -> Option<
    Seq<Option<Seq<char>>>,
>;

/// The views of optional strings.
pub open spec fn opt_views(v: Seq<Option<String>>) -> Seq<Option<Seq<char>>> {
    v.map_values(
        |o: Option<String>|
            match o {
                Some(s) => Some(s@),
                None => None,
            },
    )
}

/// The capture groups of the first match of `pattern` in `text`
/// (`regex::Regex::new` and `Regex::captures`); the contract claims only
/// that the result is `regex_capture_texts(pattern, text)`.
#[verifier::external_body]
pub(crate) fn regex_captures(pattern: &str, text: &str) -> (r: Option<Vec<Option<String>>>)
    ensures
        match r {
            Some(v) => regex_capture_texts(pattern@, text@) == Some(opt_views(v@)),
            None => regex_capture_texts(pattern@, text@) is None,
        },
{
    match regex::Regex::new(pattern) {
        Ok(re) => re.captures(text).map(
            |c| c.iter().map(|g| g.map(|m| m.as_str().to_string())).collect(),
        ),
        Err(_) => None,
    }
}

} // verus!
