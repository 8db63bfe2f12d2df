//! Semantic chunking of Markdown: the text is cut at its level 1 to 3
//! headings, and each section is labelled with the path of headings it
//! falls under.
use vstd::prelude::*;
use crate::patterns::{regex_capture_texts, regex_captures, regex_find_spans, regex_match_spans};
use crate::text::{
    chars_of, concat2, join, push_str, string_of, string_of_range, trim, trim_bounds, utf8_len,
    utf8_len_chars, utf8_width, views,
};

verus! {

/// A Markdown heading: `#`, `##` or `###` at the start of a line, then
/// whitespace, then the title up to the end of the line.
pub const HEADER_PATTERN: &'static str = "(?m)^(#{1,3})\\s+(.*)$";

/// A section of a Markdown document and the label of where it comes from.
#[derive(Debug, Clone, PartialEq, Eq)]
pub struct MarkdownSection {
    pub text: String,
    pub source: String,
}

/// The `(text, source)` views of sections.
pub open spec fn section_views(v: Seq<MarkdownSection>) -> Seq<(Seq<char>, Seq<char>)> {
    v.map_values(|s: MarkdownSection| (s.text@, s.source@))
}

/// A heading found in a document: where it starts (in characters), its
/// level and its title.
#[derive(Debug, Clone, PartialEq, Eq)]
pub struct Heading {
    pub start: usize,
    pub level: usize,
    pub title: String,
}

/// The `(start, level, title)` views of headings.
pub open spec fn heading_views(v: Seq<Heading>) -> Seq<(int, int, Seq<char>)> {
    v.map_values(|h: Heading| (h.start as int, h.level as int, h.title@))
}

/// The titles of the headings that currently enclose the text, for levels
/// 1, 2 and 3 (empty where none).
pub type HeadingPath = (Seq<char>, Seq<char>, Seq<char>);

/// The path once a heading of `level` titled `title` is met: its level
/// takes the title and the deeper levels are emptied.
pub open spec fn path_update(p: HeadingPath, level: int, title: Seq<char>) -> HeadingPath {
    if level <= 0 {
        (seq![], seq![], seq![])
    } else if level == 1 {
        (title, seq![], seq![])
    } else if level == 2 {
        (p.0, title, seq![])
    } else if level == 3 {
        (p.0, p.1, title)
    } else {
        p
    }
}

/// The title of level `k` (1, 2 or 3) in the path `p`.
pub open spec fn title_at(p: HeadingPath, k: int) -> Seq<char> {
    if k == 1 {
        p.0
    } else if k == 2 {
        p.1
    } else {
        p.2
    }
}

/// A heading of level 1, 2 or 3 sets the title of its level, keeps the
/// titles of the levels above it and empties every deeper level: after a
/// level-2 heading no level-3 title of the earlier section remains.
pub proof fn heading_resets_deeper_levels(p: HeadingPath, level: int, title: Seq<char>)
    requires
        1 <= level <= 3,
    ensures
        forall|k: int|
            1 <= k <= 3 ==> #[trigger] title_at(path_update(p, level, title), k) == if k < level {
                title_at(p, k)
            } else if k == level {
                title
            } else {
                Seq::<char>::empty()
            },
{
}

/// The non-empty entries of `s`, in order.
pub open spec fn non_empty(s: Seq<Seq<char>>) -> Seq<Seq<char>>
    decreases s.len(),
{
    if s.len() == 0 {
        seq![]
    } else if s.last().len() > 0 {
        non_empty(s.drop_last()).push(s.last())
    } else {
        non_empty(s.drop_last())
    }
}

/// The label of a section: `source#` and the non-empty titles of the path
/// joined with `/`.
pub open spec fn path_label(source: Seq<char>, p: HeadingPath) -> Seq<char> {
    source + seq!['#'] + join(non_empty(seq![p.0, p.1, p.2]), seq!['/'])
}

/// A section made of `text` if it is not empty.
pub open spec fn section_if_any(text: Seq<char>, label: Seq<char>) -> Seq<(Seq<char>, Seq<char>)> {
    if text.len() > 0 {
        seq![(text, label)]
    } else {
        seq![]
    }
}

/// The sections from heading `i` on, the path being `p` before it: the
/// text between the previous heading and this one (or the introduction
/// before the first heading), then what follows; after the last heading,
/// the text from it to the end. Each text is trimmed and left out when
/// empty.
pub open spec fn sections_from(
    c: Seq<char>,
    source: Seq<char>,
    hs: Seq<(int, int, Seq<char>)>,
    i: int,
    p: HeadingPath,
) -> Seq<(Seq<char>, Seq<char>)>
    decreases hs.len() - i,
{
    if i < 0 || i >= hs.len() {
        if hs.len() > 0 && hs.last().0 < c.len() {
            section_if_any(trim(c.subrange(hs.last().0, c.len() as int)), path_label(source, p))
        } else {
            seq![]
        }
    } else {
        let start = hs[i].0;
        let before = if i > 0 {
            section_if_any(trim(c.subrange(hs[i - 1].0, start)), path_label(source, p))
        } else if start > 0 {
            section_if_any(trim(c.subrange(0, start)), source + "/Intro"@)
        } else {
            seq![]
        };
        before + sections_from(c, source, hs, i + 1, path_update(p, hs[i].1, hs[i].2))
    }
}

/// The sections of `c` cut at the headings `hs`; the whole text, labelled
/// with `source`, when there is no heading.
pub open spec fn sections(c: Seq<char>, source: Seq<char>, hs: Seq<(int, int, Seq<char>)>) -> Seq<
    (Seq<char>, Seq<char>),
> {
    if hs.len() == 0 {
        seq![(c, source)]
    } else {
        sections_from(c, source, hs, 0, (seq![], seq![], seq![]))
    }
}

/// Headings lie in the text, in order.
pub open spec fn headings_in_order(len: nat, hs: Seq<(int, int, Seq<char>)>) -> bool {
    &&& forall|i: int| 0 <= i < hs.len() ==> 0 <= (#[trigger] hs[i]).0 <= len
    &&& forall|i: int, j: int| 0 <= i < j < hs.len() ==> (#[trigger] hs[i]).0 <= (#[trigger] hs[j]).0
}

fn path_label_of(source: &str, p1: &String, p2: &String, p3: &String) -> (s: String)
    ensures
        s@ == path_label(source@, (p1@, p2@, p3@)),
{
    let mut parts: Vec<String> = Vec::new();
    let ghost e: Seq<Seq<char>> = seq![];
    assert(seq![p1@, p2@, p3@].drop_last() =~= seq![p1@, p2@]);
    assert(seq![p1@, p2@].drop_last() =~= seq![p1@]);
    assert(seq![p1@].drop_last() =~= e);
    assert(views(parts@) =~= non_empty(e));
    if !p1.as_str().is_empty() {
        parts.push(p1.clone());
    }
    assert(views(parts@) =~= non_empty(seq![p1@]));
    if !p2.as_str().is_empty() {
        parts.push(p2.clone());
    }
    assert(views(parts@) =~= non_empty(seq![p1@, p2@]));
    if !p3.as_str().is_empty() {
        parts.push(p3.clone());
    }
    assert(views(parts@) =~= non_empty(seq![p1@, p2@, p3@]));
    proof {
        reveal_strlit("/");
        reveal_strlit("#");
        assert("/"@ =~= seq!['/']);
        assert("#"@ =~= seq!['#']);
    }
    let joined = crate::text::join_strings(&parts, "/");
    let mut s = concat2(source, "#");
    push_str(&mut s, joined.as_str());
    s
}

fn update_path(p1: &mut String, p2: &mut String, p3: &mut String, level: usize, title: &String)
    ensures
        (final(p1)@, final(p2)@, final(p3)@) == path_update(
            (old(p1)@, old(p2)@, old(p3)@),
            level as int,
            title@,
        ),
{
    if level == 0 {
        *p1 = String::new();
        *p2 = String::new();
        *p3 = String::new();
    } else if level == 1 {
        *p1 = title.clone();
        *p2 = String::new();
        *p3 = String::new();
    } else if level == 2 {
        *p2 = title.clone();
        *p3 = String::new();
    } else if level == 3 {
        *p3 = title.clone();
    }
}

fn push_section(out: &mut Vec<MarkdownSection>, v: &Vec<char>, lo: usize, hi: usize, label: String)
    requires
        lo <= hi <= v.len(),
    ensures
        section_views(final(out)@) == section_views(old(out)@) + section_if_any(
            trim(v@.subrange(lo as int, hi as int)),
            label@,
        ),
{
    let (a, b) = trim_bounds(v, lo, hi);
    let ghost before = out@;
    if a < b {
        let text = string_of_range(v, a, b);
        out.push(MarkdownSection { text, source: label });
        assert(section_views(out@) =~= section_views(before).push(
            (v@.subrange(a as int, b as int), label@),
        ));
    } else {
        assert(section_views(out@) =~= section_views(before) + seq![]);
    }
}

/// Cuts `content` at the headings `headings` and labels each section with
/// the path of headings it falls under.
pub fn chunk_sections(content: &Vec<char>, source: &str, headings: &Vec<Heading>) -> (out: Vec<
    MarkdownSection,
>)
    requires
        headings_in_order(content@.len(), heading_views(headings@)),
    ensures
        section_views(out@) == sections(content@, source@, heading_views(headings@)),
{
    let ghost hs = heading_views(headings@);
    let mut out: Vec<MarkdownSection> = Vec::new();
    if headings.len() == 0 {
        let text = string_of(content);
        out.push(MarkdownSection { text, source: source.to_owned() });
        assert(section_views(out@) =~= seq![(content@, source@)]);
        return out;
    }
    let mut p1 = String::new();
    let mut p2 = String::new();
    let mut p3 = String::new();
    let mut i: usize = 0;
    while i < headings.len()
        invariant
            i <= headings.len(),
            hs == heading_views(headings@),
            hs.len() > 0,
            headings_in_order(content@.len(), hs),
            sections(content@, source@, hs) == section_views(out@) + sections_from(
                content@,
                source@,
                hs,
                i as int,
                (p1@, p2@, p3@),
            ),
        decreases headings.len() - i,
    {
        let start = headings[i].start;
        assert(hs[i as int] == (start as int, headings@[i as int].level as int, headings@[i as int].title@));
        let ghost before = section_views(out@);
        let ghost path = (p1@, p2@, p3@);
        if i > 0 {
            let prev = headings[i - 1].start;
            assert(hs[i - 1].0 == prev as int);
            assert(hs[i - 1].0 <= hs[i as int].0);
            let label = path_label_of(source, &p1, &p2, &p3);
            push_section(&mut out, content, prev, start, label);
        } else if start > 0 {
            let label = concat2(source, "/Intro");
            push_section(&mut out, content, 0, start, label);
        } else {
            assert(section_views(out@) =~= before + seq![]);
        }
        let level = headings[i].level;
        update_path(&mut p1, &mut p2, &mut p3, level, &headings[i].title);
        assert(section_views(out@) + sections_from(content@, source@, hs, i + 1, (p1@, p2@, p3@))
            =~= before + sections_from(content@, source@, hs, i as int, path));
        i += 1;
    }
    let last = headings[headings.len() - 1].start;
    assert(hs.last().0 == last as int);
    let ghost before = section_views(out@);
    if last < content.len() {
        let label = path_label_of(source, &p1, &p2, &p3);
        push_section(&mut out, content, last, content.len(), label);
    }
    assert(section_views(out@) =~= before + sections_from(
        content@,
        source@,
        hs,
        headings.len() as int,
        (p1@, p2@, p3@),
    ));
    out
}

proof fn lemma_utf8_len_take_step(c: Seq<char>, k: int)
    requires
        0 <= k < c.len(),
    ensures
        utf8_len(c.take(k + 1)) == utf8_len(c.take(k)) + utf8_width(c[k]),
        utf8_len(c.take(k + 1)) > utf8_len(c.take(k)),
{
    assert(c.take(k + 1).drop_last() =~= c.take(k));
}

/// The character position `k`, at or after `from`, whose first `k`
/// characters take `b` bytes of UTF-8, if there is one.
pub open spec fn char_index_from(c: Seq<char>, b: int, from: int) -> Option<int>
    decreases c.len() - from,
{
    if from < 0 || from > c.len() {
        None
    } else if utf8_len(c.take(from)) == b {
        Some(from)
    } else if utf8_len(c.take(from)) > b || from == c.len() {
        None
    } else {
        char_index_from(c, b, from + 1)
    }
}

/// The character position whose prefix takes `b` bytes of UTF-8, if `b`
/// falls on a character boundary of `c`.
pub open spec fn char_index_at_byte(c: Seq<char>, b: int) -> Option<int> {
    char_index_from(c, b, 0)
}

/// The character position at byte offset `b` of `v`, if `b` falls on a
/// character boundary.
pub fn char_index_of_byte(v: &Vec<char>, b: usize) -> (r: Option<usize>)
    ensures
        match char_index_at_byte(v@, b as int) {
            Some(k) => r matches Some(x) && x as int == k,
            None => r is None,
        },
        r matches Some(x) ==> x <= v.len(),
{
    let mut k: usize = 0;
    let mut n: u128 = 0;
    loop
        invariant
            k <= v.len(),
            n as nat == utf8_len(v@.take(k as int)),
            char_index_at_byte(v@, b as int) == char_index_from(v@, b as int, k as int),
        decreases v.len() - k,
    {
        if n == b as u128 {
            return Some(k);
        }
        if n > b as u128 || k == v.len() {
            return None;
        }
        proof {
            lemma_utf8_len_take_step(v@, k as int);
            crate::text::lemma_utf8_len_bound(v@.take(k as int));
        }
        let u = v[k] as u32;
        let w: u128 = if u < 0x80 {
            1
        } else if u < 0x800 {
            2
        } else if u < 0x10000 {
            3
        } else {
            4
        };
        n = n + w;
        k += 1;
    }
}

/// The level a heading's marks give, where every level above 3 counts
/// as 4 (those leave the path unchanged alike).
pub open spec fn marks_level(marks: Seq<char>) -> int {
    if utf8_len(marks) > 4 {
        4
    } else {
        utf8_len(marks) as int
    }
}

/// The heading that the match at byte span `span` of `c` gives: where it
/// starts, the level its marks give and its title; `None` when the span
/// does not fall on character boundaries or the groups are missing.
pub open spec fn heading_from(c: Seq<char>, span: (usize, usize)) -> Option<(int, int, Seq<char>)> {
    match (char_index_at_byte(c, span.0 as int), char_index_at_byte(c, span.1 as int)) {
        (Some(ks), Some(ke)) => if ks <= ke {
            match regex_capture_texts(HEADER_PATTERN@, c.subrange(ks, ke)) {
                Some(g) => if g.len() >= 3 && g[1] is Some && g[2] is Some {
                    Some((ks, marks_level(g[1]->0), g[2]->0))
                } else {
                    None
                },
                None => None,
            }
        } else {
            None
        },
        _ => None,
    }
}

/// The headings of `c`, as the heading pattern finds them: none when the
/// pattern does not compile; `None` when a match cannot be read as a
/// heading or the matches are out of order.
pub open spec fn headings_found(c: Seq<char>) -> Option<Seq<(int, int, Seq<char>)>> {
    match regex_match_spans(HEADER_PATTERN@, c) {
        None => Some(seq![]),
        Some(spans) => if forall|i: int| 0 <= i < spans.len() ==> (#[trigger] heading_from(c, spans[i])) is Some {
            let hs = Seq::new(spans.len(), |i: int| heading_from(c, spans[i])->0);
            if headings_in_order(c.len(), hs) {
                Some(hs)
            } else {
                None
            }
        } else {
            None
        },
    }
}

/// The sections of a Markdown document: cut at its headings when they can
/// be read, otherwise the whole document in one section.
pub open spec fn markdown_sections(c: Seq<char>, source: Seq<char>) -> Seq<(Seq<char>, Seq<char>)> {
    match headings_found(c) {
        Some(hs) => sections(c, source, hs),
        None => seq![(c, source)],
    }
}

fn heading_of_span(v: &Vec<char>, content: &str, span: (usize, usize)) -> (r: Option<Heading>)
    requires
        v@ == content@,
    ensures
        match heading_from(v@, span) {
            Some(h) => r matches Some(x) && (x.start as int, x.level as int, x.title@) == h,
            None => r is None,
        },
{
    let r0 = char_index_of_byte(v, span.0);
    let ks = match r0 {
        Some(k) => k,
        None => return None,
    };
    let r1 = char_index_of_byte(v, span.1);
    let ke = match r1 {
        Some(k) => k,
        None => {
            assert(char_index_at_byte(v@, span.1 as int) is None);
            assert(heading_from(v@, span) is None);
            return None;
        },
    };
    assert(char_index_at_byte(v@, span.0 as int) == Some(ks as int));
    assert(char_index_at_byte(v@, span.1 as int) == Some(ke as int));
    if ks > ke {
        assert(heading_from(v@, span) is None);
        return None;
    }
    let text = string_of_range(v, ks, ke);
    let groups = match regex_captures(HEADER_PATTERN, text.as_str()) {
        Some(g) => g,
        None => return None,
    };
    if groups.len() < 3 {
        return None;
    }
    let marks = match &groups[1] {
        Some(m) => m,
        None => return None,
    };
    let title = match &groups[2] {
        Some(t) => t,
        None => return None,
    };
    let mv = chars_of(marks.as_str());
    let n = utf8_len_chars(&mv);
    let level: usize = if n > 4 {
        4
    } else {
        n as usize
    };
    Some(Heading { start: ks, level, title: title.clone() })
}

/// The `MarkdownChunker` splits Markdown at its headings.
pub struct MarkdownChunker;

impl MarkdownChunker {
    /// Cuts `content` at its `#`, `##` and `###` headings: the introduction
    /// before the first heading is labelled `source/Intro`, every other
    /// section `source#` followed by the titles of the enclosing headings
    /// joined with `/`; sections are trimmed and empty ones left out. A
    /// document without headings is one section labelled `source`.
    pub fn chunk_markdown(content: &str, source: &str) -> (out: Vec<MarkdownSection>)
        ensures
            section_views(out@) == markdown_sections(content@, source@),
    {
        let v = chars_of(content);
        let spans = match regex_find_spans(HEADER_PATTERN, content) {
            Some(s) => s,
            None => {
                let empty: Vec<Heading> = Vec::new();
                assert(heading_views(empty@) =~= seq![]);
                return chunk_sections(&v, source, &empty);
            },
        };
        let ghost c = v@;
        let mut headings: Vec<Heading> = Vec::new();
        let mut i: usize = 0;
        while i < spans.len()
            invariant
                i <= spans.len(),
                c == v@,
                v@ == content@,
                regex_match_spans(HEADER_PATTERN@, c) == Some(spans@),
                headings.len() == i,
                forall|j: int| 0 <= j < i ==> heading_from(c, #[trigger] spans@[j]) == Some(
                    heading_views(headings@)[j],
                ),
            decreases spans.len() - i,
        {
            match heading_of_span(&v, content, spans[i]) {
                Some(h) => {
                    let ghost before = headings@;
                    headings.push(h);
                    proof {
                        assert forall|j: int| 0 <= j < i + 1 implies heading_from(
                            c,
                            #[trigger] spans@[j],
                        ) == Some(heading_views(headings@)[j]) by {
                            if j < i {
                                assert(headings@[j] == before[j]);
                            }
                        }
                    }
                },
                None => {
                    return MarkdownChunker::whole(&v, content, source);
                },
            }
            i += 1;
        }
        proof {
            let hs = Seq::new(spans@.len(), |j: int| heading_from(c, spans@[j])->0);
            assert(heading_views(headings@) =~= hs);
        }
        let mut ordered = true;
        let mut j: usize = 0;
        while j < headings.len()
            invariant
                j <= headings.len(),
                ordered ==> forall|a: int| 0 <= a < j ==> 0 <= (#[trigger] heading_views(headings@)[a]).0 <= v@.len(),
                ordered ==> forall|a: int, b: int| 0 <= a < b < j ==> (#[trigger] heading_views(headings@)[a]).0 <= (#[trigger] heading_views(headings@)[b]).0,
                !ordered ==> !headings_in_order(v@.len(), heading_views(headings@)),
            decreases headings.len() - j,
        {
            if ordered {
                if headings[j].start > v.len() || (j > 0 && headings[j - 1].start > headings[j].start) {
                    ordered = false;
                    proof {
                        let hv = heading_views(headings@);
                        assert(hv[j as int].0 == headings@[j as int].start as int);
                        if j > 0 && headings@[j - 1].start > headings@[j as int].start {
                            assert(hv[j - 1].0 == headings@[j - 1].start as int);
                            assert(hv[j - 1].0 > hv[j as int].0);
                            assert(!headings_in_order(v@.len(), hv));
                        } else {
                            assert(!(hv[j as int].0 <= v@.len()));
                            assert(!headings_in_order(v@.len(), hv));
                        }
                    }
                } else {
                    proof {
                        let hv = heading_views(headings@);
                        assert forall|a: int, b: int| 0 <= a < b < j + 1 implies (#[trigger] hv[a]).0 <= (#[trigger] hv[b]).0 by {
                            if b == j && a < j - 1 {
                                assert(hv[a].0 <= hv[j - 1].0);
                            }
                        }
                    }
                }
            }
            j += 1;
        }
        if !ordered {
            return MarkdownChunker::whole(&v, content, source);
        }
        chunk_sections(&v, source, &headings)
    }

    fn whole(v: &Vec<char>, content: &str, source: &str) -> (out: Vec<MarkdownSection>)
        requires
            v@ == content@,
        ensures
            section_views(out@) == seq![(content@, source@)],
    {
        let mut out: Vec<MarkdownSection> = Vec::new();
        out.push(MarkdownSection { text: string_of(v), source: source.to_owned() });
        assert(section_views(out@) =~= seq![(content@, source@)]);
        out
    }
}

} // verus!
