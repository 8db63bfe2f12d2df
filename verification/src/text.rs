//! Character-level text utilities shared by the rest of the library:
//! whitespace, trimming, substring search, joining, decimal numerals,
//! line splitting and UTF-8 byte lengths, each with its specification.
use vstd::prelude::*;

verus! {

// ---------------------------------------------------------------------
// Building strings
// ---------------------------------------------------------------------

/// Appends one character to a string (std `String::push`).
#[verifier::external_body]
pub(crate) fn push_char(s: &mut String, c: char)
    ensures
        final(s)@ == old(s)@.push(c),
{
    s.push(c);
}

/// Appends a string slice to a string.
pub(crate) fn push_str(s: &mut String, t: &str)
    ensures
        final(s)@ == old(s)@ + t@,
{
    s.append(t);
}

/// The characters of `s`, in order.
pub fn chars_of(s: &str) -> (v: Vec<char>)
    ensures
        v@ == s@,
{
    let mut v: Vec<char> = Vec::new();
    for c in it: s.chars()
        invariant
            v@ == it.seq().take(it.index() as int),
    {
        v.push(c);
    }
    v
}

/// The string whose characters are `v`.
pub fn string_of(v: &Vec<char>) -> (s: String)
    ensures
        s@ == v@,
{
    string_of_range(v, 0, v.len())
}

/// The string made of the characters `v[lo..hi]`.
pub fn string_of_range(v: &Vec<char>, lo: usize, hi: usize) -> (s: String)
    requires
        lo <= hi <= v.len(),
    ensures
        s@ == v@.subrange(lo as int, hi as int),
{
    let mut s = String::new();
    let mut i: usize = lo;
    while i < hi
        invariant
            lo <= i <= hi <= v.len(),
            s@ == v@.subrange(lo as int, i as int),
        decreases hi - i,
    {
        push_char(&mut s, v[i]);
        assert(v@.subrange(lo as int, i as int).push(v@[i as int]) =~= v@.subrange(
            lo as int,
            i + 1,
        ));
        i += 1;
    }
    s
}

/// Concatenation of two strings.
pub fn concat2(a: &str, b: &str) -> (s: String)
    ensures
        s@ == a@ + b@,
{
    let mut s = String::new();
    push_str(&mut s, a);
    push_str(&mut s, b);
    assert(s@ =~= a@ + b@);
    s
}

/// Concatenation of three strings.
pub fn concat3(a: &str, b: &str, c: &str) -> (s: String)
    ensures
        s@ == a@ + b@ + c@,
{
    let mut s = concat2(a, b);
    push_str(&mut s, c);
    s
}

/// Concatenation of a sequence of strings.
pub open spec fn concat_all(parts: Seq<Seq<char>>) -> Seq<char>
    decreases parts.len(),
{
    if parts.len() == 0 {
        seq![]
    } else {
        concat_all(parts.drop_last()) + parts.last()
    }
}

/// The views of a vector of strings.
pub open spec fn views(v: Seq<String>) -> Seq<Seq<char>> {
    v.map_values(|s: String| s@)
}

/// The first `n` characters of `s` (all of them when it is shorter), as
/// `chars().take(n)` gives them.
pub open spec fn first_chars(s: Seq<char>, n: nat) -> Seq<char> {
    if s.len() <= n {
        s
    } else {
        s.take(n as int)
    }
}

/// Pushing a string pushes its view; a prefix one longer adds the next view.
pub proof fn lemma_views_push(v: Seq<String>, s: String, w: Seq<String>, i: int)
    requires
        0 <= i < w.len(),
    ensures
        views(v.push(s)) == views(v).push(s@),
        views(w).take(i + 1) == views(w).take(i).push(w[i]@),
{
    assert(views(v.push(s)) =~= views(v).push(s@));
    assert(views(w).take(i + 1) =~= views(w).take(i).push(w[i]@));
}

/// Whether two strings hold the same characters.
pub fn str_eq(a: &str, b: &str) -> (r: bool)
    ensures
        r == (a@ == b@),
{
    let av = chars_of(a);
    let bv = chars_of(b);
    if av.len() != bv.len() {
        return false;
    }
    let mut i: usize = 0;
    while i < av.len()
        invariant
            i <= av.len(),
            av.len() == bv.len(),
            av@ == a@,
            bv@ == b@,
            forall|k: int| 0 <= k < i ==> av@[k] == bv@[k],
        decreases av.len() - i,
    {
        if av[i] != bv[i] {
            return false;
        }
        i += 1;
    }
    assert(av@ =~= bv@);
    true
}

// ---------------------------------------------------------------------
// Whitespace and trimming
// ---------------------------------------------------------------------

/// Unicode `White_Space`, the property that `char::is_whitespace` tests.
pub open spec fn is_ws(c: char) -> bool {
    let u = c as u32;
    ||| (9 <= u && u <= 13)
    ||| u == 32
    ||| u == 0x85
    ||| u == 0xA0
    ||| u == 0x1680
    ||| (0x2000 <= u && u <= 0x200A)
    ||| u == 0x2028
    ||| u == 0x2029
    ||| u == 0x202F
    ||| u == 0x205F
    ||| u == 0x3000
}

/// Whether `c` is Unicode whitespace.
pub fn is_whitespace(c: char) -> (b: bool)
    ensures
        b == is_ws(c),
{
    let u = c as u32;
    (9 <= u && u <= 13) || u == 32 || u == 0x85 || u == 0xA0 || u == 0x1680 || (0x2000 <= u
        && u <= 0x200A) || u == 0x2028 || u == 0x2029 || u == 0x202F || u == 0x205F || u
        == 0x3000
}

/// `s` without its leading whitespace.
pub open spec fn trim_start(s: Seq<char>) -> Seq<char>
    decreases s.len(),
{
    if s.len() > 0 && is_ws(s[0]) {
        trim_start(s.drop_first())
    } else {
        s
    }
}

/// `s` without its trailing whitespace.
pub open spec fn trim_end(s: Seq<char>) -> Seq<char>
    decreases s.len(),
{
    if s.len() > 0 && is_ws(s.last()) {
        trim_end(s.drop_last())
    } else {
        s
    }
}

/// `s` without leading and trailing whitespace (`str::trim`).
pub open spec fn trim(s: Seq<char>) -> Seq<char> {
    trim_end(trim_start(s))
}

/// The bounds of `v[lo..hi]` once trimmed of whitespace.
pub fn trim_bounds(v: &Vec<char>, lo: usize, hi: usize) -> (r: (usize, usize))
    requires
        lo <= hi <= v.len(),
    ensures
        lo <= r.0 <= r.1 <= hi,
        v@.subrange(r.0 as int, r.1 as int) == trim(v@.subrange(lo as int, hi as int)),
{
    let mut a = lo;
    while a < hi && is_whitespace(v[a])
        invariant
            lo <= a <= hi <= v.len(),
            trim_start(v@.subrange(lo as int, hi as int)) == trim_start(
                v@.subrange(a as int, hi as int),
            ),
        decreases hi - a,
    {
        assert(v@.subrange(a as int, hi as int).drop_first() =~= v@.subrange(a + 1, hi as int));
        a += 1;
    }
    assert(trim_start(v@.subrange(a as int, hi as int)) == v@.subrange(a as int, hi as int));
    let mut b = hi;
    while b > a && is_whitespace(v[b - 1])
        invariant
            lo <= a <= b <= hi <= v.len(),
            trim_end(v@.subrange(a as int, hi as int)) == trim_end(
                v@.subrange(a as int, b as int),
            ),
        decreases b - a,
    {
        assert(v@.subrange(a as int, b as int).drop_last() =~= v@.subrange(a as int, b - 1));
        b -= 1;
    }
    (a, b)
}

/// `s` trimmed of leading and trailing whitespace.
pub fn trim_str(s: &str) -> (t: String)
    ensures
        t@ == trim(s@),
{
    let v = chars_of(s);
    let (a, b) = trim_bounds(&v, 0, v.len());
    assert(v@.subrange(0, v@.len() as int) =~= v@);
    string_of_range(&v, a, b)
}

// ---------------------------------------------------------------------
// Case
// ---------------------------------------------------------------------

/// What `str::to_lowercase` gives for `s` (Unicode lowercase mapping).
pub uninterp spec fn lowercase(s: Seq<char>) -> Seq<char>;

/// `s` in lowercase (`str::to_lowercase`); the contract claims only that
/// the result is `lowercase(s)`.
#[verifier::external_body]
pub(crate) fn to_lowercase(s: &str) -> (r: String)
    ensures
        r@ == lowercase(s@),
{
    s.to_lowercase()
}

// ---------------------------------------------------------------------
// Substrings
// ---------------------------------------------------------------------

/// `p` occurs in `s` starting at position `i`.
pub open spec fn occurs_at(s: Seq<char>, p: Seq<char>, i: int) -> bool {
    0 <= i && i + p.len() <= s.len() && s.subrange(i, i + p.len()) == p
}

/// `p` is a substring of `s` (`str::contains`).
pub open spec fn contains(s: Seq<char>, p: Seq<char>) -> bool {
    exists|i: int| occurs_at(s, p, i)
}

/// Whether `p` occurs in `s` at position `i`.
pub fn matches_at(s: &Vec<char>, p: &Vec<char>, i: usize) -> (b: bool)
    requires
        i + p.len() <= s.len(),
    ensures
        b == occurs_at(s@, p@, i as int),
{
    let mut j: usize = 0;
    while j < p.len()
        invariant
            i + p.len() <= s.len(),
            j <= p.len(),
            forall|k: int| 0 <= k < j ==> s@[i + k] == p@[k],
        decreases p.len() - j,
    {
        if s[i + j] != p[j] {
            assert(s@.subrange(i as int, i + p.len())[j as int] != p@[j as int]);
            return false;
        }
        j += 1;
    }
    assert(s@.subrange(i as int, i + p.len()) =~= p@);
    true
}

/// Whether `p` occurs in `s`.
pub fn contains_chars(s: &Vec<char>, p: &Vec<char>) -> (b: bool)
    ensures
        b == contains(s@, p@),
{
    if p.len() > s.len() {
        return false;
    }
    let mut i: usize = 0;
    let last = s.len() - p.len();
    loop
        invariant
            p.len() <= s.len(),
            last == s.len() - p.len(),
            i <= last,
            forall|k: int| 0 <= k < i ==> !occurs_at(s@, p@, k),
        decreases last - i,
    {
        if matches_at(s, p, i) {
            return true;
        }
        if i == last {
            return false;
        }
        i += 1;
    }
}

/// Whether the string `p` occurs in the string `s`.
pub fn str_contains(s: &str, p: &str) -> (b: bool)
    ensures
        b == contains(s@, p@),
{
    let sv = chars_of(s);
    let pv = chars_of(p);
    contains_chars(&sv, &pv)
}

/// `p` is a prefix of `s`.
pub open spec fn starts_with(s: Seq<char>, p: Seq<char>) -> bool {
    p.len() <= s.len() && s.subrange(0, p.len() as int) == p
}

/// Whether `p` is a prefix of `s`.
pub fn starts_with_chars(s: &Vec<char>, p: &Vec<char>) -> (b: bool)
    ensures
        b == starts_with(s@, p@),
{
    if p.len() > s.len() {
        return false;
    }
    matches_at(s, p, 0)
}

/// `s` without every leading repetition of `p` (`str::trim_start_matches`).
pub open spec fn strip_all(s: Seq<char>, p: Seq<char>) -> Seq<char>
    decreases s.len(),
{
    if p.len() > 0 && starts_with(s, p) {
        strip_all(s.subrange(p.len() as int, s.len() as int), p)
    } else {
        s
    }
}

/// `s` without its leading repetitions of `p`.
pub fn strip_all_str(s: &str, p: &str) -> (r: String)
    ensures
        r@ == strip_all(s@, p@),
{
    let v = chars_of(s);
    let q = chars_of(p);
    let mut i: usize = 0;
    assert(v@.subrange(0, v@.len() as int) =~= v@);
    while q.len() > 0 && q.len() <= v.len() - i && matches_at(&v, &q, i)
        invariant
            i <= v@.len(),
            v@ == s@,
            q@ == p@,
            strip_all(s@, p@) == strip_all(v@.subrange(i as int, v@.len() as int), p@),
        decreases v.len() - i,
    {
        let ghost rest = v@.subrange(i as int, v@.len() as int);
        assert(rest.subrange(0, q@.len() as int) =~= v@.subrange(i as int, i + q@.len()));
        assert(rest.subrange(q@.len() as int, rest.len() as int) =~= v@.subrange(
            i + q@.len(),
            v@.len() as int,
        ));
        i += q.len();
    }
    proof {
        let rest = v@.subrange(i as int, v@.len() as int);
        if q@.len() > 0 && starts_with(rest, p@) {
            assert(rest.subrange(0, q@.len() as int) =~= v@.subrange(i as int, i + q@.len()));
        }
    }
    string_of_range(&v, i, v.len())
}

// ---------------------------------------------------------------------
// Joining
// ---------------------------------------------------------------------

/// `parts` joined with `sep` between consecutive parts (`[..].join(sep)`).
pub open spec fn join(parts: Seq<Seq<char>>, sep: Seq<char>) -> Seq<char>
    decreases parts.len(),
{
    if parts.len() == 0 {
        seq![]
    } else if parts.len() == 1 {
        parts[0]
    } else {
        join(parts.drop_last(), sep) + sep + parts.last()
    }
}

/// The strings of `parts` joined with `sep`.
pub fn join_strings(parts: &Vec<String>, sep: &str) -> (s: String)
    ensures
        s@ == join(views(parts@), sep@),
{
    let mut s = String::new();
    let mut i: usize = 0;
    while i < parts.len()
        invariant
            i <= parts.len(),
            s@ == join(views(parts@).take(i as int), sep@),
        decreases parts.len() - i,
    {
        let ghost before = views(parts@).take(i as int);
        if i > 0 {
            push_str(&mut s, sep);
        }
        push_str(&mut s, parts[i].as_str());
        assert(views(parts@).take(i + 1).drop_last() =~= before);
        if i == 0 {
            assert(views(parts@).take(1) =~= seq![parts@[0]@]);
        }
        i += 1;
    }
    assert(views(parts@).take(parts.len() as int) =~= views(parts@));
    s
}

// ---------------------------------------------------------------------
// Decimal numerals
// ---------------------------------------------------------------------

/// The ASCII digit for `d` in `0..10`.
pub open spec fn digit_char(d: int) -> char {
    seq!['0', '1', '2', '3', '4', '5', '6', '7', '8', '9'][d]
}

/// The decimal numeral of `n`, without leading zeros (`n.to_string()`).
pub open spec fn dec(n: nat) -> Seq<char>
    decreases n,
{
    if n < 10 {
        seq![digit_char(n as int)]
    } else {
        dec(n / 10).push(digit_char((n % 10) as int))
    }
}

fn digit(d: u64) -> (c: char)
    requires
        d < 10,
    ensures
        c == digit_char(d as int),
{
    let digits = ['0', '1', '2', '3', '4', '5', '6', '7', '8', '9'];
    assert(digits@ =~= seq!['0', '1', '2', '3', '4', '5', '6', '7', '8', '9']);
    digits[d as usize]
}

/// The decimal numeral of `n`.
pub fn u64_to_dec(n: u64) -> (s: String)
    ensures
        s@ == dec(n as nat),
{
    let mut m = n;
    let mut tail: Vec<char> = Vec::new();
    while m >= 10
        invariant
            dec(n as nat) == dec(m as nat) + tail@,
        decreases m,
    {
        let c = digit(m % 10);
        let ghost old_tail = tail@;
        tail.insert(0, c);
        assert(dec(m as nat) == dec((m / 10) as nat).push(c));
        assert(dec((m / 10) as nat).push(c) + old_tail =~= dec((m / 10) as nat) + tail@);
        m = m / 10;
    }
    let mut out: Vec<char> = Vec::new();
    out.push(digit(m));
    let mut i: usize = 0;
    while i < tail.len()
        invariant
            i <= tail.len(),
            out@ == seq![digit_char(m as int)] + tail@.take(i as int),
        decreases tail.len() - i,
    {
        out.push(tail[i]);
        assert(tail@.take(i as int).push(tail@[i as int]) =~= tail@.take(i + 1));
        i += 1;
    }
    assert(tail@.take(tail.len() as int) =~= tail@);
    assert(dec(m as nat) =~= seq![digit_char(m as int)]);
    string_of(&out)
}

/// The decimal numeral of `n`.
pub fn usize_to_dec(n: usize) -> (s: String)
    ensures
        s@ == dec(n as nat),
{
    u64_to_dec(n as u64)
}

/// The value of a sequence of ASCII digits.
pub open spec fn digits_value(d: Seq<char>) -> nat
    decreases d.len(),
{
    if d.len() == 0 {
        0
    } else {
        digits_value(d.drop_last()) * 10 + ((d.last() as u32) - 48) as nat
    }
}

/// `c` is an ASCII digit.
pub open spec fn is_digit(c: char) -> bool {
    '0' <= c && c <= '9'
}

/// `s` without one leading `+`, if it has one.
pub open spec fn unsigned_part(s: Seq<char>) -> Seq<char> {
    if s.len() > 0 && s[0] == '+' {
        s.drop_first()
    } else {
        s
    }
}

/// The value of a numeral of ASCII digits, if it is one and fits in `u32`.
pub open spec fn parse_digits(d: Seq<char>) -> Option<u32> {
    if d.len() == 0 || !(forall|i: int| 0 <= i < d.len() ==> is_digit(#[trigger] d[i])) {
        None
    } else if digits_value(d) > u32::MAX {
        None
    } else {
        Some(digits_value(d) as u32)
    }
}

/// What `s.parse::<u32>()` gives: an optional `+`, then at least one ASCII
/// digit and nothing else, with a value that fits in `u32`.
pub open spec fn parse_u32(s: Seq<char>) -> Option<u32> {
    parse_digits(unsigned_part(s))
}

proof fn lemma_digits_value_mono(d: Seq<char>, i: int)
    requires
        0 <= i <= d.len(),
        forall|k: int| 0 <= k < d.len() ==> is_digit(#[trigger] d[k]),
    ensures
        digits_value(d.take(i)) <= digits_value(d),
    decreases d.len() - i,
{
    if i < d.len() {
        lemma_digits_value_mono(d, i + 1);
        assert(d.take(i + 1).drop_last() =~= d.take(i));
    } else {
        assert(d.take(i) =~= d);
    }
}

/// Parses `v` as `s.parse::<u32>()` does.
pub fn parse_u32_chars(v: &Vec<char>) -> (r: Option<u32>)
    ensures
        r == parse_u32(v@),
{
    let start: usize = if v.len() > 0 && v[0] == '+' {
        1
    } else {
        0
    };
    let ghost d = v@.subrange(start as int, v@.len() as int);
    proof {
        if start == 1 {
            assert(v@.drop_first() =~= d);
        } else {
            assert(v@ =~= d);
        }
        assert(unsigned_part(v@) == d);
    }
    if start == v.len() {
        return None;
    }
    let mut acc: u64 = 0;
    let mut i: usize = start;
    while i < v.len()
        invariant
            start <= i <= v.len(),
            start < v.len(),
            d == v@.subrange(start as int, v@.len() as int),
            unsigned_part(v@) == d,
            forall|k: int| start <= k < i ==> is_digit(#[trigger] v@[k]),
            acc as nat == digits_value(v@.subrange(start as int, i as int)),
            acc <= u32::MAX,
        decreases v.len() - i,
    {
        let c = v[i];
        if !('0' <= c && c <= '9') {
            assert(d[i - start] == c);
            assert(!is_digit(d[i - start]));
            return None;
        }
        let ghost prev = v@.subrange(start as int, i as int);
        assert(v@.subrange(start as int, i + 1).drop_last() =~= prev);
        let dv: u64 = (c as u32 - 48) as u64;
        acc = acc * 10 + dv;
        if acc > 4294967295 {
            proof {
                if forall|k: int| 0 <= k < d.len() ==> is_digit(#[trigger] d[k]) {
                    lemma_digits_value_mono(d, (i + 1 - start) as int);
                    assert(d.take((i + 1 - start) as int) =~= v@.subrange(start as int, i + 1));
                }
            }
            return None;
        }
        i += 1;
    }
    assert(v@.subrange(start as int, i as int) =~= d);
    assert forall|k: int| 0 <= k < d.len() implies is_digit(#[trigger] d[k]) by {
        assert(d[k] == v@[start + k]);
    }
    Some(acc as u32)
}

/// Parses `s` as `s.parse::<u32>()` does.
pub fn parse_u32_str(s: &str) -> (r: Option<u32>)
    ensures
        r == parse_u32(s@),
{
    let v = chars_of(s);
    parse_u32_chars(&v)
}

// ---------------------------------------------------------------------
// UTF-8 byte lengths
// ---------------------------------------------------------------------

/// The number of bytes of the UTF-8 encoding of `c`.
pub open spec fn utf8_width(c: char) -> nat {
    let u = c as u32;
    if u < 0x80 {
        1
    } else if u < 0x800 {
        2
    } else if u < 0x10000 {
        3
    } else {
        4
    }
}

/// The number of bytes of the UTF-8 encoding of `s` (`str::len`).
pub open spec fn utf8_len(s: Seq<char>) -> nat
    decreases s.len(),
{
    if s.len() == 0 {
        0
    } else {
        utf8_len(s.drop_last()) + utf8_width(s.last())
    }
}

pub proof fn lemma_utf8_len_bound(s: Seq<char>)
    ensures
        utf8_len(s) <= 4 * s.len(),
    decreases s.len(),
{
    if s.len() > 0 {
        lemma_utf8_len_bound(s.drop_last());
    }
}

/// The number of bytes of the UTF-8 encoding of `v`.
pub fn utf8_len_chars(v: &Vec<char>) -> (n: u128)
    ensures
        n as nat == utf8_len(v@),
{
    let mut n: u128 = 0;
    let mut i: usize = 0;
    while i < v.len()
        invariant
            i <= v.len(),
            n as nat == utf8_len(v@.take(i as int)),
        decreases v.len() - i,
    {
        proof {
            lemma_utf8_len_bound(v@.take(i as int));
        }
        let u = v[i] as u32;
        let w: u128 = if u < 0x80 {
            1
        } else if u < 0x800 {
            2
        } else if u < 0x10000 {
            3
        } else {
            4
        };
        assert(v@.take(i + 1).drop_last() =~= v@.take(i as int));
        n = n + w;
        i += 1;
    }
    assert(v@.take(v.len() as int) =~= v@);
    n
}

/// The number of bytes of the UTF-8 encoding of `s`.
pub fn utf8_len_str(s: &str) -> (n: u128)
    ensures
        n as nat == utf8_len(s@),
{
    let v = chars_of(s);
    utf8_len_chars(&v)
}

// ---------------------------------------------------------------------
// Replacing
// ---------------------------------------------------------------------

/// `s` with each occurrence of the non-empty `p`, found left to right and
/// without overlap, replaced by `r` (`str::replace`).
pub open spec fn replace_all(s: Seq<char>, p: Seq<char>, r: Seq<char>) -> Seq<char>
    decreases s.len(),
{
    if p.len() == 0 || s.len() == 0 {
        s
    } else if starts_with(s, p) {
        r + replace_all(s.skip(p.len() as int), p, r)
    } else {
        seq![s[0]] + replace_all(s.drop_first(), p, r)
    }
}

/// `s` with every occurrence of the non-empty pattern `p` replaced by `r`.
pub fn replace_str(s: &str, p: &str, r: &str) -> (out: String)
    requires
        p@.len() > 0,
    ensures
        out@ == replace_all(s@, p@, r@),
{
    let v = chars_of(s);
    let pv = chars_of(p);
    let rv = chars_of(r);
    let mut out: Vec<char> = Vec::new();
    let mut i: usize = 0;
    assert(v@.skip(0) =~= v@);
    assert(out@ + replace_all(v@.skip(0), pv@, rv@) =~= replace_all(v@, pv@, rv@));
    while i < v.len()
        invariant
            i <= v.len(),
            pv@.len() > 0,
            pv@ == p@,
            rv@ == r@,
            replace_all(v@, pv@, rv@) == out@ + replace_all(v@.skip(i as int), pv@, rv@),
        decreases v.len() - i,
    {
        let ghost rest = v@.skip(i as int);
        if pv.len() <= v.len() - i && matches_at(&v, &pv, i) {
            assert(rest.subrange(0, pv@.len() as int) =~= v@.subrange(i as int, i + pv@.len()));
            assert(rest.skip(pv@.len() as int) =~= v@.skip(i + pv@.len()));
            let mut j: usize = 0;
            let ghost before = out@;
            while j < rv.len()
                invariant
                    j <= rv.len(),
                    out@ == before + rv@.take(j as int),
                decreases rv.len() - j,
            {
                out.push(rv[j]);
                assert(rv@.take(j + 1) =~= rv@.take(j as int).push(rv@[j as int]));
                j += 1;
            }
            assert(rv@.take(rv.len() as int) =~= rv@);
            assert(out@ + replace_all(v@.skip(i + pv@.len()), pv@, rv@) =~= before + (rv@
                + replace_all(rest.skip(pv@.len() as int), pv@, rv@)));
            i += pv.len();
        } else {
            assert(!starts_with(rest, pv@)) by {
                if pv@.len() <= rest.len() {
                    assert(rest.subrange(0, pv@.len() as int) =~= v@.subrange(i as int, i + pv@.len()));
                }
            }
            assert(rest.drop_first() =~= v@.skip(i + 1));
            let ghost before = out@;
            out.push(v[i]);
            assert(out@ + replace_all(v@.skip(i + 1), pv@, rv@) =~= before + (seq![rest[0]]
                + replace_all(rest.drop_first(), pv@, rv@)));
            i += 1;
        }
    }
    assert(v@.skip(i as int) =~= Seq::<char>::empty());
    string_of(&out)
}

} // verus!
