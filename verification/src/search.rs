//! The web searcher's own logic: where it searches, the sidecar's URL for
//! a query, and the context it makes of the results. The HTTP calls are
//! made by the caller.
use vstd::prelude::*;
use crate::json::{hit_view, hit_views, json_search_hits, read_search_hits, SearchHit};
use crate::text::{concat2, concat3, push_str};

verus! {

/// The UTF-8 encoding of `c`.
pub open spec fn utf8_bytes(c: char) -> Seq<u8> {
    let u = c as u32;
    if u < 0x80 {
        seq![u as u8]
    } else if u < 0x800 {
        seq![(0xC0 + u / 64) as u8, (0x80 + u % 64) as u8]
    } else if u < 0x10000 {
        seq![(0xE0 + u / 4096) as u8, (0x80 + (u / 64) % 64) as u8, (0x80 + u % 64) as u8]
    } else {
        seq![
            (0xF0 + u / 262144) as u8,
            (0x80 + (u / 4096) % 64) as u8,
            (0x80 + (u / 64) % 64) as u8,
            (0x80 + u % 64) as u8,
        ]
    }
}

/// The upper-case hexadecimal digit of `d` (below 16).
pub open spec fn hex_digit(d: u8) -> char {
    if d < 10 {
        (48 + d) as char
    } else {
        (55 + d) as char
    }
}

/// The bytes left as they are: ASCII letters, digits and `-._~`.
pub open spec fn unreserved(b: u8) -> bool {
    ||| 48 <= b <= 57
    ||| 65 <= b <= 90
    ||| 97 <= b <= 122
    ||| b == 45 || b == 46 || b == 95 || b == 126
}

/// The bytes `bs` percent-encoded: an unreserved byte as its character,
/// any other as `%` and its two upper-case hexadecimal digits.
pub open spec fn bytes_encoded(bs: Seq<u8>) -> Seq<char>
    decreases bs.len(),
{
    if bs.len() == 0 {
        seq![]
    } else {
        let b = bs.last();
        bytes_encoded(bs.drop_last()) + if unreserved(b) {
            seq![b as char]
        } else {
            seq!['%', hex_digit(b / 16), hex_digit(b % 16)]
        }
    }
}

/// `s` percent-encoded as `urlencoding::encode` does it: its UTF-8 bytes,
/// each encoded by `bytes_encoded`.
pub open spec fn url_encoded(s: Seq<char>) -> Seq<char>
    decreases s.len(),
{
    if s.len() == 0 {
        seq![]
    } else {
        url_encoded(s.drop_last()) + bytes_encoded(utf8_bytes(s.last()))
    }
}

/// Percent-encodes `s` (`urlencoding::encode`); the contract claims that
/// the result is `url_encoded(s)`: every byte of the UTF-8 encoding but the
/// ASCII letters, digits and `-._~` is written as `%` and two upper-case
/// hexadecimal digits.
#[verifier::external_body]
fn encode_query(s: &str) -> (r: String)
    ensures
        r@ == url_encoded(s@),
{
    urlencoding::encode(s).into_owned()
}

/// Where web searches go: Tavily when an API key is set, and the local
/// sidecar otherwise or when Tavily fails.
#[derive(Debug, Clone)]
pub struct TavilySearcher {
    pub api_key: Option<String>,
    pub sidecar_url: String,
}

/// The sidecar used when none is configured.
pub const DEFAULT_SIDECAR_URL: &'static str = "http://127.0.0.1:8001";

/// The address of the Tavily search API.
pub const TAVILY_URL: &'static str = "https://api.tavily.com/search";

impl TavilySearcher {
    /// The searcher for the given environment: the `TAVILY_API_KEY` and
    /// `SEARCH_SIDECAR_URL` variables, when set.
    pub fn new(api_key: Option<String>, sidecar_url: Option<String>) -> (t: Self)
        ensures
            t.api_key == api_key,
            t.sidecar_url@ == match sidecar_url {
                Some(u) => u@,
                None => DEFAULT_SIDECAR_URL@,
            },
    {
        let url = match sidecar_url {
            Some(u) => u,
            None => DEFAULT_SIDECAR_URL.to_owned(),
        };
        TavilySearcher { api_key, sidecar_url: url }
    }

    /// Whether Tavily is tried first.
    pub fn uses_tavily(&self) -> (b: bool)
        ensures
            b == self.api_key is Some,
    {
        self.api_key.is_some()
    }

    /// The sidecar's URL for `query`.
    pub fn sidecar_query_url(&self, query: &str) -> (u: String)
        ensures
            u@ == self.sidecar_url@ + "/search?q="@ + url_encoded(query@),
    {
        let q = encode_query(query);
        concat3(self.sidecar_url.as_str(), "/search?q=", q.as_str())
    }
}

/// The line of one result: its title, URL and summary, with stand-ins for
/// the missing ones.
pub open spec fn hit_line(h: (Option<Seq<char>>, Option<Seq<char>>, Option<Seq<char>>)) -> Seq<char> {
    "- Title: "@ + match h.0 {
        Some(t) => t,
        None => "No Title"@,
    } + "\n  URL: "@ + match h.1 {
        Some(u) => u,
        None => "No URL"@,
    } + "\n  Summary: "@ + match h.2 {
        Some(c) => c,
        None => "No Content"@,
    } + "\n\n"@
}

/// The lines of a list of results, one after the other.
pub open spec fn hit_lines(hs: Seq<(Option<Seq<char>>, Option<Seq<char>>, Option<Seq<char>>)>) -> Seq<char>
    decreases hs.len(),
{
    if hs.len() == 0 {
        seq![]
    } else {
        hit_lines(hs.drop_last()) + hit_line(hs.last())
    }
}

fn text_or(o: &Option<String>, dflt: &str) -> (s: String)
    ensures
        s@ == match o {
            Some(x) => x@,
            None => dflt@,
        },
{
    match o {
        Some(x) => x.clone(),
        None => dflt.to_owned(),
    }
}

/// The line of one result.
fn hit_text(h: &SearchHit) -> (s: String)
    ensures
        s@ == hit_line(hit_view(*h)),
{
    let t = text_or(&h.title, "No Title");
    let u = text_or(&h.url, "No URL");
    let c = text_or(&h.content, "No Content");
    let mut s = concat3("- Title: ", t.as_str(), "\n  URL: ");
    push_str(&mut s, u.as_str());
    push_str(&mut s, "\n  Summary: ");
    push_str(&mut s, c.as_str());
    push_str(&mut s, "\n\n");
    s
}

/// The search context: `header` followed by the line of each result.
pub fn results_context(header: &str, hits: &Vec<SearchHit>) -> (s: String)
    ensures
        s@ == header@ + hit_lines(hit_views(hits@)),
{
    let mut s = header.to_owned();
    let mut i: usize = 0;
    while i < hits.len()
        invariant
            i <= hits@.len(),
            s@ == header@ + hit_lines(hit_views(hits@).take(i as int)),
        decreases hits.len() - i,
    {
        assert(hit_views(hits@).take(i + 1).drop_last() =~= hit_views(hits@).take(i as int));
        let line = hit_text(&hits[i]);
        assert(hit_views(hits@)[i as int] == hit_view(hits@[i as int]));
        push_str(&mut s, line.as_str());
        i += 1;
    }
    assert(hit_views(hits@).take(hits@.len() as int) =~= hit_views(hits@));
    s
}

/// The header of Tavily's results.
pub const TAVILY_HEADER: &'static str = "[LIVE WEB SEARCH RESULTS (TAVILY)]:\n";

/// The header of the sidecar's results.
pub const SIDECAR_HEADER: &'static str = "[LIVE WEB SEARCH RESULTS (LOCAL SIDECAR)]:\n";

/// The search context made of the JSON answer `body` under `header`: the
/// header and a line per element of its `results` array (just the header
/// when it has none); `None` when `body` is not JSON.
pub fn context_from_answer(header: &str, body: &str) -> (r: Option<String>)
    ensures
        match json_search_hits(body@) {
            None => r is None,
            Some(None) => r matches Some(s) && s@ == header@,
            Some(Some(hs)) => r matches Some(s) && s@ == header@ + hit_lines(hs),
        },
{
    match read_search_hits(body) {
        None => None,
        Some(None) => Some(header.to_owned()),
        Some(Some(hits)) => Some(results_context(header, &hits)),
    }
}

/// The error of a sidecar that answered with a failure status.
pub fn sidecar_error(status: &str) -> (s: String)
    ensures
        s@ == "Sidecar Error: "@ + status@,
{
    concat2("Sidecar Error: ", status)
}

} // verus!
