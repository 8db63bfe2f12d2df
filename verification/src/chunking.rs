//! Whitespace normalisation and fixed-size overlapping character windows.
use vstd::prelude::*;
use crate::text::{chars_of, concat_all, is_whitespace, is_ws, join, string_of, string_of_range, views};

verus! {

/// The whitespace-separated words of `s` (`str::split_whitespace`).
pub open spec fn words(s: Seq<char>) -> Seq<Seq<char>>
    decreases s.len(),
{
    if s.len() == 0 {
        seq![]
    } else {
        let w = words(s.drop_last());
        if is_ws(s.last()) {
            w
        } else if s.len() >= 2 && !is_ws(s[s.len() - 2]) {
            w.update(w.len() - 1, w.last().push(s.last()))
        } else {
            w.push(seq![s.last()])
        }
    }
}

/// `s` with every run of whitespace made a single space and no whitespace
/// at either end.
pub open spec fn normalized(s: Seq<char>) -> Seq<char> {
    join(words(s), seq![' '])
}

proof fn lemma_words_nonempty_when_word_ends(s: Seq<char>)
    requires
        s.len() > 0,
        !is_ws(s.last()),
    ensures
        words(s).len() > 0,
    decreases s.len(),
{
    if s.len() >= 2 && !is_ws(s[s.len() - 2]) {
        assert(s.drop_last().last() == s[s.len() - 2]);
        lemma_words_nonempty_when_word_ends(s.drop_last());
    }
}

proof fn lemma_join_extend_last(w: Seq<Seq<char>>, c: char, sep: Seq<char>)
    requires
        w.len() > 0,
    ensures
        join(w.update(w.len() - 1, w.last().push(c)), sep) == join(w, sep).push(c),
{
    let u = w.update(w.len() - 1, w.last().push(c));
    if w.len() == 1 {
        assert(join(u, sep) == u[0]);
    } else {
        assert(u.drop_last() =~= w.drop_last());
        assert(join(u, sep) =~= join(w, sep).push(c));
    }
}

proof fn lemma_join_push(w: Seq<Seq<char>>, x: Seq<char>, sep: Seq<char>)
    ensures
        join(w.push(x), sep) == if w.len() == 0 {
            x
        } else {
            join(w, sep) + sep + x
        },
{
    assert(w.push(x).drop_last() =~= w);
}

/// Every word is non-empty and holds no whitespace.
pub open spec fn proper_words(ws: Seq<Seq<char>>) -> bool {
    forall|i: int| 0 <= i < ws.len() ==> #[trigger] ws[i].len() > 0 && (forall|j: int|
        0 <= j < ws[i].len() ==> !is_ws(#[trigger] ws[i][j]))
}

proof fn lemma_words_proper(s: Seq<char>)
    ensures
        proper_words(words(s)),
    decreases s.len(),
{
    if s.len() > 0 {
        let w = words(s.drop_last());
        lemma_words_proper(s.drop_last());
        if is_ws(s.last()) {
        } else if s.len() >= 2 && !is_ws(s[s.len() - 2]) {
            assert(s.drop_last().last() == s[s.len() - 2]);
            lemma_words_nonempty_when_word_ends(s.drop_last());
            let u = w.update(w.len() - 1, w.last().push(s.last()));
            assert forall|i: int| 0 <= i < u.len() implies #[trigger] u[i].len() > 0 && (forall|j: int|
                0 <= j < u[i].len() ==> !is_ws(#[trigger] u[i][j])) by {
                if i == w.len() - 1 {
                    assert forall|j: int| 0 <= j < u[i].len() implies !is_ws(#[trigger] u[i][j]) by {
                        if j < w.last().len() {
                            assert(u[i][j] == w[i][j]);
                        }
                    }
                }
            }
        } else {
            let u = w.push(seq![s.last()]);
            assert forall|i: int| 0 <= i < u.len() implies #[trigger] u[i].len() > 0 && (forall|j: int|
                0 <= j < u[i].len() ==> !is_ws(#[trigger] u[i][j])) by {
                if i < w.len() {
                    assert(u[i] == w[i]);
                }
            }
        }
    }
}

proof fn lemma_words_after_space(a: Seq<char>, w: Seq<char>)
    requires
        a.len() == 0 || is_ws(a.last()),
        w.len() > 0,
        forall|j: int| 0 <= j < w.len() ==> !is_ws(#[trigger] w[j]),
    ensures
        words(a + w) == words(a).push(w),
    decreases w.len(),
{
    let s = a + w;
    if w.len() == 1 {
        assert(s.drop_last() =~= a);
        assert(s.last() == w[0]);
        if a.len() > 0 {
            assert(s[s.len() - 2] == a.last());
        }
        assert(seq![w[0]] =~= w);
    } else {
        let v = w.drop_last();
        lemma_words_after_space(a, v);
        assert(s.drop_last() =~= a + v);
        assert(s.last() == w.last());
        assert(s[s.len() - 2] == w[w.len() - 2]);
        let p = words(a).push(v);
        assert(p.update(p.len() - 1, p.last().push(w.last())) =~= words(a).push(w)) by {
            assert(v.push(w.last()) =~= w);
        }
    }
}

proof fn lemma_words_of_joined(ws: Seq<Seq<char>>)
    requires
        proper_words(ws),
    ensures
        words(join(ws, seq![' '])) == ws,
    decreases ws.len(),
{
    if ws.len() == 1 {
        assert(ws[0].len() > 0);
        assert(forall|j: int| 0 <= j < ws[0].len() ==> !is_ws(#[trigger] ws[0][j]));
        lemma_words_after_space(Seq::<char>::empty(), ws[0]);
        assert(Seq::<char>::empty() + ws[0] =~= ws[0]);
        assert(seq![ws[0]] =~= ws);
    } else if ws.len() >= 2 {
        let front = ws.drop_last();
        assert(proper_words(front)) by {
            assert forall|i: int| 0 <= i < front.len() implies #[trigger] front[i].len() > 0 && (forall|j: int|
                0 <= j < front[i].len() ==> !is_ws(#[trigger] front[i][j])) by {
                assert(front[i] == ws[i]);
            }
        }
        lemma_words_of_joined(front);
        let a = join(front, seq![' ']) + seq![' '];
        assert(a.drop_last() =~= join(front, seq![' ']));
        assert(is_ws(a.last()));
        let last = ws.last();
        assert(last == ws[ws.len() - 1]);
        assert(forall|j: int| 0 <= j < last.len() ==> !is_ws(#[trigger] last[j]));
        lemma_words_after_space(a, last);
        assert(front.push(last) =~= ws);
    }
}

/// Normalising text twice gives what normalising it once gives: a
/// normalised text is left as it is.
pub proof fn normalize_is_idempotent(s: Seq<char>)
    ensures
        normalized(normalized(s)) == normalized(s),
{
    lemma_words_proper(s);
    lemma_words_of_joined(words(s));
}

/// Collapses all whitespace of `text` to single spaces and trims both ends.
pub fn normalize_text(text: &str) -> (out: String)
    ensures
        out@ == normalized(text@),
{
    let v = chars_of(text);
    let mut out: Vec<char> = Vec::new();
    let mut in_word = false;
    let mut any = false;
    let mut i: usize = 0;
    while i < v.len()
        invariant
            i <= v.len(),
            out@ == join(words(v@.take(i as int)), seq![' ']),
            in_word == (i > 0 && !is_ws(v@[i - 1])),
            any == (words(v@.take(i as int)).len() > 0),
        decreases v.len() - i,
    {
        let c = v[i];
        let ghost pre = v@.take(i as int);
        let ghost cur = v@.take(i + 1);
        assert(cur.drop_last() =~= pre);
        assert(cur.last() == c);
        if is_whitespace(c) {
            in_word = false;
        } else {
            if in_word {
                assert(cur[cur.len() - 2] == v@[i - 1]);
                proof {
                    lemma_words_nonempty_when_word_ends(pre);
                    lemma_join_extend_last(words(pre), c, seq![' ']);
                }
                out.push(c);
            } else {
                proof {
                    if i > 0 {
                        assert(cur[cur.len() - 2] == v@[i - 1]);
                    }
                    lemma_join_push(words(pre), seq![c], seq![' ']);
                }
                if any {
                    out.push(' ');
                }
                out.push(c);
                assert(out@ =~= join(words(cur), seq![' ']));
            }
            in_word = true;
            any = true;
        }
        i += 1;
    }
    assert(v@.take(v.len() as int) =~= v@);
    string_of(&out)
}

/// The windows that `chunk_text` cuts from `c`, starting at `start`: each
/// `size` characters long (shorter at the end), `step` apart, the last one
/// reaching the end of `c`.
pub open spec fn windows(c: Seq<char>, size: nat, step: nat, start: nat) -> Seq<Seq<char>>
    decreases c.len() - start,
{
    if start >= c.len() || step == 0 {
        seq![]
    } else {
        let end = if start + size < c.len() {
            start + size
        } else {
            c.len() as nat
        };
        let w = c.subrange(start as int, end as int);
        if end == c.len() {
            seq![w]
        } else {
            let next = if start + step < c.len() {
                start + step
            } else {
                c.len() as nat
            };
            seq![w] + windows(c, size, step, next)
        }
    }
}

/// The distance between the starts of consecutive windows.
pub open spec fn window_step(chunk_size: nat, overlap: nat) -> nat {
    if chunk_size > overlap {
        (chunk_size - overlap) as nat
    } else {
        1
    }
}

/// Splits `text` into windows of `chunk_size` characters where consecutive
/// windows share `overlap` characters (one character apart when `overlap`
/// is not smaller than `chunk_size`); the last window reaches the end of
/// the text, and an empty text gives no window.
pub fn chunk_text(text: &str, chunk_size: usize, overlap: usize) -> (chunks: Vec<String>)
    ensures
        views(chunks@) == windows(
            text@,
            chunk_size as nat,
            window_step(chunk_size as nat, overlap as nat),
            0,
        ),
{
    let mut chunks: Vec<String> = Vec::new();
    let chars = chars_of(text);
    let len = chars.len();
    if len == 0 {
        assert(views(chunks@) =~= seq![]);
        return chunks;
    }
    let step = if chunk_size > overlap {
        chunk_size - overlap
    } else {
        1
    };
    let ghost all = windows(chars@, chunk_size as nat, step as nat, 0);
    assert(views(chunks@) + all =~= all);
    let mut start: usize = 0;
    while start < len
        invariant
            len == chars@.len(),
            chars@ == text@,
            start <= len,
            step > 0,
            step as nat == window_step(chunk_size as nat, overlap as nat),
            step <= chunk_size || step == 1,
            all == views(chunks@) + windows(chars@, chunk_size as nat, step as nat, start as nat),
            all == windows(
                text@,
                chunk_size as nat,
                window_step(chunk_size as nat, overlap as nat),
                0,
            ),
        decreases len - start,
    {
        let end = if chunk_size < len - start {
            start + chunk_size
        } else {
            len
        };
        let chunk = string_of_range(&chars, start, end);
        let ghost rest = windows(chars@, chunk_size as nat, step as nat, start as nat);
        let ghost before = views(chunks@);
        chunks.push(chunk);
        assert(views(chunks@) =~= before.push(chars@.subrange(start as int, end as int)));
        if end == len {
            assert(rest == seq![chars@.subrange(start as int, end as int)]);
            assert(views(chunks@) =~= all);
            return chunks;
        }
        let next: usize = if step < len - start {
            start + step
        } else {
            len
        };
        assert(rest == seq![chars@.subrange(start as int, end as int)] + windows(
            chars@,
            chunk_size as nat,
            step as nat,
            next as nat,
        ));
        assert(views(chunks@) + windows(chars@, chunk_size as nat, step as nat, next as nat)
            =~= all);
        start = next;
    }
    assert(views(chunks@) =~= all);
    chunks
}

proof fn lemma_concat_all_single(w: Seq<char>)
    ensures
        concat_all(seq![w]) == w,
{
    assert(seq![w].drop_last() =~= Seq::<Seq<char>>::empty());
    assert(concat_all(Seq::<Seq<char>>::empty()) == Seq::<char>::empty());
    assert(Seq::<char>::empty() + w =~= w);
}

proof fn lemma_concat_all_cons(w: Seq<char>, rest: Seq<Seq<char>>)
    ensures
        concat_all(seq![w] + rest) == w + concat_all(rest),
    decreases rest.len(),
{
    let s = seq![w] + rest;
    if rest.len() == 0 {
        assert(s =~= seq![w]);
        lemma_concat_all_single(w);
        assert(concat_all(rest) == Seq::<char>::empty());
        assert(w + concat_all(rest) =~= w);
    } else {
        assert(s.drop_last() =~= seq![w] + rest.drop_last());
        lemma_concat_all_cons(w, rest.drop_last());
        assert(s.last() == rest.last());
        assert(concat_all(s) =~= w + concat_all(rest));
    }
}

proof fn lemma_windows_rebuild(c: Seq<char>, size: nat, start: nat)
    requires
        size > 0,
        start <= c.len(),
    ensures
        concat_all(windows(c, size, size, start)) == c.subrange(start as int, c.len() as int),
    decreases c.len() - start,
{
    if start >= c.len() {
        assert(c.subrange(start as int, c.len() as int) =~= Seq::<char>::empty());
    } else {
        let end = if start + size < c.len() {
            start + size
        } else {
            c.len() as nat
        };
        let w = c.subrange(start as int, end as int);
        if end == c.len() {
            lemma_concat_all_single(w);
        } else {
            lemma_windows_rebuild(c, size, end);
            lemma_concat_all_cons(w, windows(c, size, size, end));
            assert(w + c.subrange(end as int, c.len() as int) =~= c.subrange(start as int, c.len() as int));
        }
    }
}

/// Chunks without overlap lose and repeat nothing: for a chunk size above
/// zero and no overlap, the chunks put back together are the text.
pub proof fn chunks_without_overlap_rebuild_text(text: Seq<char>, chunk_size: nat)
    requires
        chunk_size > 0,
    ensures
        concat_all(windows(text, chunk_size, window_step(chunk_size, 0), 0)) == text,
{
    lemma_windows_rebuild(text, chunk_size, 0);
    assert(text.subrange(0, text.len() as int) =~= text);
}

/// Consecutive chunks start `window_step` characters apart and none is
/// longer than the chunk size: every chunk is at most `chunk_size`
/// characters of the text.
pub proof fn chunks_are_bounded(text: Seq<char>, chunk_size: nat, step: nat, start: nat)
    requires
        step > 0,
    ensures
        forall|i: int|
            0 <= i < windows(text, chunk_size, step, start).len() ==> (#[trigger] windows(
                text,
                chunk_size,
                step,
                start,
            )[i]).len() <= chunk_size,
    decreases text.len() - start,
{
    if start < text.len() {
        let end = if start + chunk_size < text.len() {
            start + chunk_size
        } else {
            text.len() as nat
        };
        if end < text.len() {
            let next = if start + step < text.len() {
                start + step
            } else {
                text.len() as nat
            };
            chunks_are_bounded(text, chunk_size, step, next);
            let ws = windows(text, chunk_size, step, start);
            let rest = windows(text, chunk_size, step, next);
            assert forall|i: int| 0 <= i < ws.len() implies (#[trigger] ws[i]).len() <= chunk_size by {
                if i > 0 {
                    assert(ws[i] == rest[i - 1]);
                }
            }
        }
    }
}

} // verus!
