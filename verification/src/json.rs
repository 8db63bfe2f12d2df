//! The JSON reads that the workflow makes, through `serde_json`.
use vstd::prelude::*;
use crate::text::views;

verus! {

/// What `serde_json::from_str::<Vec<String>>` gives for `text`: the strings
/// of a JSON array of strings, or nothing when `text` is not one.
pub uninterp spec fn json_string_array(text: Seq<char>) -> Option<Seq<Seq<char>>>;

/// Reads `text` as a JSON array of strings (`serde_json::from_str::<Vec<String>>`);
/// the contract claims that the result is `json_string_array(text)`.
#[verifier::external_body]
pub(crate) fn parse_string_array(text: &str) -> (r: Option<Vec<String>>)
    ensures
        match r {
            Some(v) => json_string_array(text@) == Some(views(v@)),
            None => json_string_array(text@) is None,
        },
{
    serde_json::from_str::<Vec<String>>(text).ok()
}

/// What the text at `choices[0].delta.content` of the JSON document `text`
/// is, when `text` is a JSON document and that member is a string.
pub uninterp spec fn json_delta_content(text: Seq<char>) -> Option<Seq<char>>;

/// Reads `choices[0].delta.content` from the JSON document `text`
/// (`serde_json::from_str::<Value>`, then indexing and `as_str`); the
/// contract claims that the result is `json_delta_content(text)`.
#[verifier::external_body]
pub(crate) fn read_delta_content(text: &str) -> (r: Option<String>)
    ensures
        match r {
            Some(s) => json_delta_content(text@) == Some(s@),
            None => json_delta_content(text@) is None,
        },
{
    match serde_json::from_str::<serde_json::Value>(text) {
        Ok(v) => v["choices"][0]["delta"]["content"].as_str().map(|s| s.to_string()),
        Err(_) => None,
    }
}

/// What the members `content` (a string) and `stop` (a boolean) of the JSON
/// document `text` are: `None` when `text` is not JSON, otherwise each
/// member when it has that type.
pub uninterp spec fn json_stream_piece(text: Seq<char>) -> Option<(Option<Seq<char>>, Option<bool>)>;

/// Reads the members `content` and `stop` of the JSON document `text`
/// (`serde_json::from_str::<Value>`, then indexing, `as_str` and `as_bool`);
/// the contract claims that the result is `json_stream_piece(text)`.
#[verifier::external_body]
pub(crate) fn read_stream_piece(text: &str) -> (r: Option<(Option<String>, Option<bool>)>)
    ensures
        match r {
            Some((c, st)) => json_stream_piece(text@) == Some(
                (
                    match c {
                        Some(s) => Some(s@),
                        None => None,
                    },
                    st,
                ),
            ),
            None => json_stream_piece(text@) is None,
        },
{
    match serde_json::from_str::<serde_json::Value>(text) {
        Ok(v) => Some((v["content"].as_str().map(|s| s.to_string()), v["stop"].as_bool())),
        Err(_) => None,
    }
}

/// One result of a web search as the JSON answer gives it: its `title`,
/// `url` and `content` members, each when it is a string.
#[derive(Debug, Clone)]
pub struct SearchHit {
    pub title: Option<String>,
    pub url: Option<String>,
    pub content: Option<String>,
}

/// The views of a search hit's members.
pub open spec fn hit_view(h: SearchHit) -> (Option<Seq<char>>, Option<Seq<char>>, Option<Seq<char>>) {
    (
        match h.title {
            Some(s) => Some(s@),
            None => None,
        },
        match h.url {
            Some(s) => Some(s@),
            None => None,
        },
        match h.content {
            Some(s) => Some(s@),
            None => None,
        },
    )
}

/// The views of a list of search hits.
pub open spec fn hit_views(v: Seq<SearchHit>) -> Seq<(Option<Seq<char>>, Option<Seq<char>>, Option<Seq<char>>)> {
    v.map_values(|h: SearchHit| hit_view(h))
}

/// What the members of the elements of the `results` array of the JSON
/// document `text` are: `None` when `text` is not JSON, `Some(None)` when
/// it has no `results` array.
pub uninterp spec fn json_search_hits(text: Seq<char>) -> Option<
    Option<Seq<(Option<Seq<char>>, Option<Seq<char>>, Option<Seq<char>>)>>,
>;

/// Reads the `results` of a web search answer (`serde_json::from_str::<Value>`,
/// then `as_array`, indexing and `as_str`); the contract claims that the
/// result is `json_search_hits(text)`.
#[verifier::external_body]
pub(crate) fn read_search_hits(text: &str) -> (r: Option<Option<Vec<SearchHit>>>)
    ensures
        match r {
            Some(Some(v)) => json_search_hits(text@) == Some(Some(hit_views(v@))),
            Some(None) => json_search_hits(text@) == Some(
                None::<Seq<(Option<Seq<char>>, Option<Seq<char>>, Option<Seq<char>>)>>,
            ),
            None => json_search_hits(text@) is None,
        },
{
    let v: serde_json::Value = match serde_json::from_str(text) {
        Ok(v) => v,
        Err(_) => return None,
    };
    let field = |r: &serde_json::Value, k: &str| r[k].as_str().map(|s| s.to_string());
    Some(v["results"].as_array().map(|a| a.iter().map(|r| SearchHit {
        title: field(r, "title"),
        url: field(r, "url"),
        content: field(r, "content"),
    }).collect()))
}

/// The view of an optional string.
pub open spec fn opt_str(o: Option<String>) -> Option<Seq<char>> {
    match o {
        Some(s) => Some(s@),
        None => None,
    }
}

/// The views of the elements of an optional array, each a string or not.
pub open spec fn opt_strs(o: Option<Vec<Option<String>>>) -> Option<Seq<Option<Seq<char>>>> {
    match o {
        Some(v) => Some(v@.map_values(|e: Option<String>| opt_str(e))),
        None => None,
    }
}

/// What the members of the intent analyser's JSON answer `text` are:
/// `None` when `text` is not JSON; otherwise `is_complex`, `needs_web` and
/// `is_code` when they are booleans, `domain` when it is a string,
/// `knowledge_cutoff_year` of the `intent_vector` member when that member
/// is there (the year when it is an unsigned integer), the elements of
/// `context_retention` when it is an array (each when it is a string), and
/// `pruning_rigor` when it is a string.
pub uninterp spec fn json_intent(text: Seq<char>) -> Option<
    (
        Option<bool>,
        Option<bool>,
        Option<bool>,
        Option<Seq<char>>,
        Option<Option<u64>>,
        Option<Seq<Option<Seq<char>>>>,
        Option<Seq<char>>,
    ),
>;

/// Reads the members of the intent analyser's answer (`serde_json::from_str::<Value>`,
/// then `get`, indexing, `as_bool`, `as_str`, `as_u64` and `as_array`); the
/// contract claims that the result is `json_intent(text)`.
#[verifier::external_body]
pub(crate) fn read_intent(text: &str) -> (r: Option<
    (
        Option<bool>,
        Option<bool>,
        Option<bool>,
        Option<String>,
        Option<Option<u64>>,
        Option<Vec<Option<String>>>,
        Option<String>,
    ),
>)
    ensures
        match r {
            Some((c, w, k, d, y, keys, p)) => json_intent(text@) == Some(
                (c, w, k, opt_str(d), y, opt_strs(keys), opt_str(p)),
            ),
            None => json_intent(text@) is None,
        },
{
    let v: serde_json::Value = match serde_json::from_str(text) {
        Ok(v) => v,
        Err(_) => return None,
    };
    let s = |x: &serde_json::Value| x.as_str().map(|t| t.to_string());
    let year = v.get("intent_vector").map(|iv| iv["knowledge_cutoff_year"].as_u64());
    let keys = v["context_retention"].as_array().map(|a| a.iter().map(s).collect());
    Some((v["is_complex"].as_bool(), v["needs_web"].as_bool(), v["is_code"].as_bool(),
        s(&v["domain"]), year, keys, s(&v["pruning_rigor"])))
}

} // verus!
