//! Line splitting (`str::lines`) and the part of a line after its last
//! occurrence of a character (`str::split(c).next_back()`).
use vstd::prelude::*;
use crate::text::{chars_of, string_of_range};

verus! {

/// The first position at or after `i` that holds `c`, or `s.len()`.
pub open spec fn next_index_of(s: Seq<char>, c: char, i: int) -> int
    decreases s.len() - i,
{
    if i >= s.len() {
        s.len() as int
    } else if s[i] == c {
        i
    } else {
        next_index_of(s, c, i + 1)
    }
}

/// The lines of `s` from position `start` on: each piece ends before a
/// `'\n'`; a piece that ended at a `'\n'` loses one `'\r'` at its end; a
/// final `'\n'` gives no empty last line.
pub open spec fn lines_from(s: Seq<char>, start: int) -> Seq<Seq<char>>
    decreases s.len() - start,
{
    if start < 0 || start >= s.len() {
        seq![]
    } else {
        let e = next_index_of(s, '\n', start);
        let piece = s.subrange(start, e);
        let line = if e < s.len() && piece.len() > 0 && piece.last() == '\r' {
            piece.drop_last()
        } else {
            piece
        };
        if e < start {
            seq![]
        } else if e >= s.len() {
            seq![line]
        } else {
            seq![line] + lines_from(s, e + 1)
        }
    }
}

/// The lines of `s` (`str::lines`).
pub open spec fn lines(s: Seq<char>) -> Seq<Seq<char>> {
    lines_from(s, 0)
}

proof fn lemma_next_index_of_bounds(s: Seq<char>, c: char, i: int)
    requires
        0 <= i,
    ensures
        i <= next_index_of(s, c, i) || (i > s.len() && next_index_of(s, c, i) == s.len()),
        next_index_of(s, c, i) <= s.len() || i > s.len(),
        next_index_of(s, c, i) < s.len() ==> s[next_index_of(s, c, i)] == c,
        forall|k: int| i <= k < next_index_of(s, c, i) ==> s[k] != c,
    decreases s.len() - i,
{
    if i < s.len() && s[i] != c {
        lemma_next_index_of_bounds(s, c, i + 1);
    }
}

/// The position of the first `c` at or after `i` in `v`, or `v.len()`.
fn find_from(v: &Vec<char>, c: char, i: usize) -> (e: usize)
    requires
        i <= v.len(),
    ensures
        e as int == next_index_of(v@, c, i as int),
        i <= e <= v.len(),
{
    let mut e = i;
    while e < v.len() && v[e] != c
        invariant
            i <= e <= v.len(),
            next_index_of(v@, c, i as int) == next_index_of(v@, c, e as int),
        decreases v.len() - e,
    {
        e += 1;
    }
    e
}

/// The lines of `s`, as `str::lines` gives them.
pub fn lines_of(s: &str) -> (ls: Vec<String>)
    ensures
        ls@.map_values(|l: String| l@) == lines(s@),
{
    let v = chars_of(s);
    let mut ls: Vec<String> = Vec::new();
    let mut start: usize = 0;
    while start < v.len()
        invariant
            start <= v.len(),
            v@ == s@,
            lines(s@) == ls@.map_values(|l: String| l@) + lines_from(v@, start as int),
        decreases v.len() - start,
    {
        let e = find_from(&v, '\n', start);
        let hi = if e < v.len() && e > start && v[e - 1] == '\r' {
            e - 1
        } else {
            e
        };
        let line = string_of_range(&v, start, hi);
        let ghost before = ls@.map_values(|l: String| l@);
        proof {
            let piece = v@.subrange(start as int, e as int);
            if e < v.len() && e > start && v@[e - 1] == '\r' {
                assert(piece.drop_last() =~= v@.subrange(start as int, hi as int));
            }
        }
        ls.push(line);
        assert(ls@.map_values(|l: String| l@) =~= before.push(v@.subrange(start as int, hi as int)));
        if e == v.len() {
            assert(lines_from(v@, (e + 1) as int) =~= seq![]);
        }
        assert(ls@.map_values(|l: String| l@) + lines_from(v@, (e + 1) as int) =~= before
            + lines_from(v@, start as int));
        start = if e < v.len() {
            e + 1
        } else {
            v.len()
        };
    }
    assert(lines_from(v@, start as int) =~= seq![]);
    assert(ls@.map_values(|l: String| l@) + seq![] =~= ls@.map_values(|l: String| l@));
    ls
}

/// The position of the last `c` in `s` before `i`, or -1.
pub open spec fn last_index_before(s: Seq<char>, c: char, i: int) -> int
    decreases i,
{
    if i <= 0 {
        -1
    } else if s[i - 1] == c {
        i - 1
    } else {
        last_index_before(s, c, i - 1)
    }
}

/// What follows the last `c` in `s`; all of `s` when it holds no `c`
/// (`s.split(c).next_back()`).
pub open spec fn after_last(s: Seq<char>, c: char) -> Seq<char> {
    s.subrange(last_index_before(s, c, s.len() as int) + 1, s.len() as int)
}

proof fn lemma_last_index_before_bounds(s: Seq<char>, c: char, i: int)
    requires
        0 <= i <= s.len(),
    ensures
        -1 <= last_index_before(s, c, i) < i,
    decreases i,
{
    if i > 0 && s[i - 1] != c {
        lemma_last_index_before_bounds(s, c, i - 1);
    }
}

/// What follows the last `c` in `v`.
pub fn after_last_of(v: &Vec<char>, c: char) -> (r: String)
    ensures
        r@ == after_last(v@, c),
{
    let mut i = v.len();
    while i > 0 && v[i - 1] != c
        invariant
            i <= v.len(),
            last_index_before(v@, c, v@.len() as int) == last_index_before(v@, c, i as int),
        decreases i,
    {
        i -= 1;
    }
    proof {
        lemma_last_index_before_bounds(v@, c, i as int);
    }
    string_of_range(v, i, v.len())
}

} // verus!
