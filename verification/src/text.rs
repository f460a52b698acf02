//! Character-level text utilities: whitespace, trimming, substring search,
//! word splitting and joining, all stated over `Seq<char>` models.
use vstd::prelude::*;
use vstd::string::*;

verus! {

// ---------------------------------------------------------------------------
// Whitespace and trimming
// ---------------------------------------------------------------------------

/// Unicode `White_Space`: the characters for which `char::is_whitespace` holds.
pub open spec fn is_ws(c: char) -> bool {
    let v = c as u32;
    ||| (0x9 <= v && v <= 0xd)
    ||| v == 0x20
    ||| v == 0x85
    ||| v == 0xa0
    ||| v == 0x1680
    ||| (0x2000 <= v && v <= 0x200a)
    ||| v == 0x2028
    ||| v == 0x2029
    ||| v == 0x202f
    ||| v == 0x205f
    ||| v == 0x3000
}

/// `s` without its leading whitespace.
pub open spec fn trim_start(s: Seq<char>) -> Seq<char>
    decreases s.len(),
{
    if s.len() > 0 && is_ws(s[0]) {
        trim_start(s.drop_first())
    } else {
        s
    }
}

/// `s` without its trailing whitespace.
pub open spec fn trim_end(s: Seq<char>) -> Seq<char>
    decreases s.len(),
{
    if s.len() > 0 && is_ws(s.last()) {
        trim_end(s.drop_last())
    } else {
        s
    }
}

/// `s` without leading and trailing whitespace (what `str::trim` returns).
pub open spec fn trim(s: Seq<char>) -> Seq<char> {
    trim_end(trim_start(s))
}

/// Whether `c` is Unicode whitespace.
pub fn is_whitespace(c: char) -> (r: bool)
    ensures
        r == is_ws(c),
{
    let v = c as u32;
    (0x9 <= v && v <= 0xd) || v == 0x20 || v == 0x85 || v == 0xa0 || v == 0x1680 || (0x2000
        <= v && v <= 0x200a) || v == 0x2028 || v == 0x2029 || v == 0x202f || v == 0x205f || v
        == 0x3000
}

/// The characters of `s`, in order.
pub fn chars_of(s: &str) -> (r: Vec<char>)
    ensures
        r@ == s@,
{
    let mut out: Vec<char> = Vec::new();
    for c in it: s.chars()
        invariant
            out@ == it.seq().take(it.index() as int),
    {
        out.push(c);
    }
    out
}

/// The bounds, inside `lo..hi`, of `v[lo..hi]` with surrounding whitespace removed.
pub fn trim_range(v: &Vec<char>, lo: usize, hi: usize) -> (r: (usize, usize))
    requires
        lo <= hi <= v.len(),
    ensures
        lo <= r.0 <= r.1 <= hi,
        v@.subrange(r.0 as int, r.1 as int) == trim(v@.subrange(lo as int, hi as int)),
{
    let mut i = lo;
    while i < hi && is_whitespace(v[i])
        invariant
            lo <= i <= hi <= v.len(),
            trim_start(v@.subrange(lo as int, hi as int)) == trim_start(
                v@.subrange(i as int, hi as int),
            ),
        decreases hi - i,
    {
        assert(v@.subrange(i as int, hi as int).drop_first() =~= v@.subrange(
            i + 1,
            hi as int,
        ));
        i += 1;
    }
    assert(trim_start(v@.subrange(i as int, hi as int)) == v@.subrange(i as int, hi as int));
    let mut j = hi;
    while j > i && is_whitespace(v[j - 1])
        invariant
            lo <= i <= j <= hi <= v.len(),
            trim(v@.subrange(lo as int, hi as int)) == trim_end(v@.subrange(i as int, j as int)),
        decreases j - i,
    {
        assert(v@.subrange(i as int, j as int).drop_last() =~= v@.subrange(
            i as int,
            j - 1,
        ));
        j -= 1;
    }
    (i, j)
}

/// `s` without leading and trailing whitespace, as `str::trim` gives it.
pub fn trim_str(s: &str) -> (r: String)
    ensures
        r@ == trim(s@),
{
    let v = chars_of(s);
    let (a, b) = trim_range(&v, 0, v.len());
    assert(v@.subrange(0, v@.len() as int) =~= v@);
    let sub = s.substring_char(a, b);
    String::from_str(sub)
}

// ---------------------------------------------------------------------------
// Substring search
// ---------------------------------------------------------------------------

/// `needle` occurs in `hay` starting at index `i`.
pub open spec fn occurs_at(hay: Seq<char>, needle: Seq<char>, i: int) -> bool {
    0 <= i && i + needle.len() <= hay.len() && hay.subrange(i, i + needle.len()) == needle
}

/// `needle` occurs somewhere in `hay` (what `str::contains` tests for a string pattern).
pub open spec fn contains_text(hay: Seq<char>, needle: Seq<char>) -> bool {
    exists|i: int| occurs_at(hay, needle, i)
}

/// `p` is a prefix of `s`.
pub open spec fn starts_with(s: Seq<char>, p: Seq<char>) -> bool {
    p.len() <= s.len() && s.subrange(0, p.len() as int) == p
}

/// Whether `needle` occurs in `hay` at index `i`.
pub fn matches_at(hay: &Vec<char>, needle: &Vec<char>, i: usize) -> (r: bool)
    requires
        i + needle.len() <= hay.len(),
    ensures
        r == occurs_at(hay@, needle@, i as int),
{
    let mut j: usize = 0;
    while j < needle.len()
        invariant
            i + needle.len() <= hay.len(),
            j <= needle.len(),
            forall|k: int| 0 <= k < j ==> hay@[i + k] == needle@[k],
        decreases needle.len() - j,
    {
        if hay[i + j] != needle[j] {
            assert(hay@.subrange(i as int, i + needle@.len())[j as int] != needle@[j as int]);
            return false;
        }
        j += 1;
    }
    assert(hay@.subrange(i as int, i + needle@.len()) =~= needle@);
    true
}

/// Whether `needle` occurs anywhere in `hay`.
pub fn find_text(hay: &Vec<char>, needle: &Vec<char>) -> (r: bool)
    ensures
        r == contains_text(hay@, needle@),
{
    if needle.len() > hay.len() {
        assert forall|k: int| !occurs_at(hay@, needle@, k) by {}
        return false;
    }
    let last = hay.len() - needle.len();
    let mut i: usize = 0;
    while i < last
        invariant
            last == hay.len() - needle.len(),
            i <= last,
            forall|k: int| 0 <= k < i ==> !occurs_at(hay@, needle@, k),
        decreases last - i,
    {
        if matches_at(hay, needle, i) {
            return true;
        }
        i += 1;
    }
    if matches_at(hay, needle, last) {
        return true;
    }
    assert forall|k: int| !occurs_at(hay@, needle@, k) by {}
    false
}

/// Whether `needle` occurs in `hay`, as `str::contains` tests it.
pub fn str_contains(hay: &str, needle: &str) -> (r: bool)
    ensures
        r == contains_text(hay@, needle@),
{
    let h = chars_of(hay);
    let n = chars_of(needle);
    find_text(&h, &n)
}

/// Whether `v[lo..hi]` starts with `p`, as `str::starts_with` tests it.
pub fn prefix_at(v: &Vec<char>, lo: usize, hi: usize, p: &Vec<char>) -> (r: bool)
    requires
        lo <= hi <= v.len(),
    ensures
        r == starts_with(v@.subrange(lo as int, hi as int), p@),
{
    if p.len() > hi - lo {
        return false;
    }
    let ok = matches_at(v, p, lo);
    assert(v@.subrange(lo as int, hi as int).subrange(0, p@.len() as int) =~= v@.subrange(
        lo as int,
        lo + p@.len(),
    ));
    ok
}

// ---------------------------------------------------------------------------
// Words and separators
// ---------------------------------------------------------------------------

/// Length of the run of non-whitespace characters at the front of `s`.
pub open spec fn word_len(s: Seq<char>) -> nat
    decreases s.len(),
{
    if s.len() == 0 || is_ws(s[0]) {
        0
    } else {
        1 + word_len(s.drop_first())
    }
}

pub proof fn lemma_word_len(s: Seq<char>)
    ensures
        word_len(s) <= s.len(),
        s.len() > 0 && !is_ws(s[0]) ==> word_len(s) >= 1,
    decreases s.len(),
{
    if s.len() > 0 && !is_ws(s[0]) {
        lemma_word_len(s.drop_first());
    }
}

/// The whitespace-separated words of `s` (what `str::split_whitespace` yields).
pub open spec fn split_ws(s: Seq<char>) -> Seq<Seq<char>>
    decreases s.len(),
{
    if s.len() == 0 {
        seq![]
    } else if is_ws(s[0]) {
        split_ws(s.drop_first())
    } else {
        let k = word_len(s);
        proof {
            lemma_word_len(s);
        }
        seq![s.take(k as int)] + split_ws(s.skip(k as int))
    }
}

/// Index of the first `c` in `s`, or `s.len()` when there is none.
pub open spec fn index_of_char(s: Seq<char>, c: char) -> nat
    decreases s.len(),
{
    if s.len() == 0 || s[0] == c {
        0
    } else {
        1 + index_of_char(s.drop_first(), c)
    }
}

pub proof fn lemma_index_of_char(s: Seq<char>, c: char)
    ensures
        index_of_char(s, c) <= s.len(),
        index_of_char(s, c) < s.len() ==> s[index_of_char(s, c) as int] == c,
        forall|k: int| 0 <= k < index_of_char(s, c) ==> s[k] != c,
    decreases s.len(),
{
    if s.len() > 0 && s[0] != c {
        lemma_index_of_char(s.drop_first(), c);
        assert forall|k: int| 0 <= k < index_of_char(s, c) implies s[k] != c by {
            if k > 0 {
                assert(s[k] == s.drop_first()[k - 1]);
            }
        }
    }
}

/// The part of `s` before its first `c` (the first item of `str::split(c)`).
pub open spec fn before_char(s: Seq<char>, c: char) -> Seq<char> {
    s.take(index_of_char(s, c) as int)
}

/// End of the run of non-whitespace characters that starts at `i`, within `..hi`.
fn word_end(v: &Vec<char>, i: usize, hi: usize) -> (r: usize)
    requires
        i <= hi <= v.len(),
    ensures
        i <= r <= hi,
        r == i + word_len(v@.subrange(i as int, hi as int)),
{
    let mut j = i;
    while j < hi && !is_whitespace(v[j])
        invariant
            i <= j <= hi <= v.len(),
            word_len(v@.subrange(i as int, hi as int)) == (j - i) + word_len(
                v@.subrange(j as int, hi as int),
            ),
        decreases hi - j,
    {
        assert(v@.subrange(j as int, hi as int).drop_first() =~= v@.subrange(j + 1, hi as int));
        j += 1;
    }
    j
}

/// First index at or after `i`, within `..hi`, that is not whitespace (or `hi`);
/// the words of `v[i..hi]` and of `v[r..hi]` are the same.
fn skip_ws(v: &Vec<char>, i: usize, hi: usize) -> (r: usize)
    requires
        i <= hi <= v.len(),
    ensures
        i <= r <= hi,
        r < hi ==> !is_ws(v@[r as int]),
        split_ws(v@.subrange(i as int, hi as int)) == split_ws(v@.subrange(r as int, hi as int)),
{
    let mut j = i;
    while j < hi && is_whitespace(v[j])
        invariant
            i <= j <= hi <= v.len(),
            split_ws(v@.subrange(i as int, hi as int)) == split_ws(
                v@.subrange(j as int, hi as int),
            ),
        decreases hi - j,
    {
        assert(v@.subrange(j as int, hi as int).drop_first() =~= v@.subrange(j + 1, hi as int));
        j += 1;
    }
    j
}

proof fn lemma_split_ws_word(v: Seq<char>, p: int, q: int, hi: int)
    requires
        0 <= p < hi <= v.len(),
        !is_ws(v[p]),
        q == p + word_len(v.subrange(p, hi)),
    ensures
        p < q <= hi,
        split_ws(v.subrange(p, hi)) == seq![v.subrange(p, q)] + split_ws(v.subrange(q, hi)),
{
    let s = v.subrange(p, hi);
    lemma_word_len(s);
    assert(s.take(q - p) =~= v.subrange(p, q));
    assert(s.skip(q - p) =~= v.subrange(q, hi));
}

/// Bounds of the second whitespace-separated word of `v[lo..hi]`, if there is one.
pub fn second_word(v: &Vec<char>, lo: usize, hi: usize) -> (r: Option<(usize, usize)>)
    requires
        lo <= hi <= v.len(),
    ensures
        match r {
            Some((c, d)) => {
                &&& lo <= c <= d <= hi
                &&& split_ws(v@.subrange(lo as int, hi as int)).len() > 1
                &&& v@.subrange(c as int, d as int) == split_ws(
                    v@.subrange(lo as int, hi as int),
                )[1]
            },
            None => split_ws(v@.subrange(lo as int, hi as int)).len() <= 1,
        },
{
    let p = skip_ws(v, lo, hi);
    if p == hi {
        assert(v@.subrange(hi as int, hi as int).len() == 0);
        return None;
    }
    let q = word_end(v, p, hi);
    proof {
        lemma_split_ws_word(v@, p as int, q as int, hi as int);
    }
    let p2 = skip_ws(v, q, hi);
    if p2 == hi {
        assert(v@.subrange(hi as int, hi as int).len() == 0);
        return None;
    }
    let q2 = word_end(v, p2, hi);
    proof {
        lemma_split_ws_word(v@, p2 as int, q2 as int, hi as int);
    }
    Some((p2, q2))
}

/// Index of the first `c` in `v[lo..hi]`, as an index of `v` (or `hi`).
pub fn find_char(v: &Vec<char>, lo: usize, hi: usize, c: char) -> (r: usize)
    requires
        lo <= hi <= v.len(),
    ensures
        r == lo + index_of_char(v@.subrange(lo as int, hi as int), c),
        lo <= r <= hi,
{
    let mut j = lo;
    while j < hi && v[j] != c
        invariant
            lo <= j <= hi <= v.len(),
            index_of_char(v@.subrange(lo as int, hi as int), c) == (j - lo) + index_of_char(
                v@.subrange(j as int, hi as int),
                c,
            ),
        decreases hi - j,
    {
        assert(v@.subrange(j as int, hi as int).drop_first() =~= v@.subrange(j + 1, hi as int));
        j += 1;
    }
    j
}

/// The items of `parts` joined with `sep` between them (what `[String]::join` gives).
pub open spec fn join(parts: Seq<Seq<char>>, sep: Seq<char>) -> Seq<char>
    decreases parts.len(),
{
    if parts.len() == 0 {
        seq![]
    } else if parts.len() == 1 {
        parts[0]
    } else {
        join(parts.drop_last(), sep) + sep + parts.last()
    }
}

/// The views of the strings `v[from..]`.
pub open spec fn views_from(v: Seq<String>, from: int) -> Seq<Seq<char>> {
    v.skip(from).map_values(|s: String| s@)
}

/// `args[from..].join(" ")`; empty when `from` is past the end.
pub fn join_from(args: &[String], from: usize) -> (r: String)
    requires
        from <= args.len(),
    ensures
        r@ == join(views_from(args@, from as int), " "@),
{
    let mut out = String::new();
    let mut i = from;
    let ghost parts = views_from(args@, from as int);
    while i < args.len()
        invariant
            from <= i <= args.len(),
            parts == views_from(args@, from as int),
            out@ == join(parts.take(i - from), " "@),
        decreases args.len() - i,
    {
        proof {
            assert(parts.take(i + 1 - from).drop_last() =~= parts.take(i - from));
            assert(parts.take(i + 1 - from).last() == args@[i as int]@);
        }
        if i > from {
            out.append(" ");
        } else {
            assert(parts.take(i + 1 - from) =~= seq![args@[i as int]@]);
        }
        out.append(args[i].as_str());
        i += 1;
    }
    assert(parts.take(args@.len() - from) =~= parts);
    out
}

} // verus!

verus! {

/// Whether `a` and `b` hold the same characters.
pub fn text_eq(a: &str, b: &str) -> (r: bool)
    ensures
        r == (a@ == b@),
{
    let x = chars_of(a);
    let y = chars_of(b);
    if x.len() != y.len() {
        return false;
    }
    let mut i: usize = 0;
    while i < x.len()
        invariant
            x@ == a@,
            y@ == b@,
            x.len() == y.len(),
            i <= x.len(),
            forall|k: int| 0 <= k < i ==> x@[k] == y@[k],
        decreases x.len() - i,
    {
        if x[i] != y[i] {
            assert(x@[i as int] != y@[i as int]);
            return false;
        }
        i += 1;
    }
    assert(x@ =~= y@);
    true
}

/// Whether `c` occurs in `s`.
pub fn has_char(s: &str, c: char) -> (r: bool)
    ensures
        r == s@.contains(c),
{
    let v = chars_of(s);
    let k = find_char(&v, 0, v.len(), c);
    proof {
        assert(v@.subrange(0, v@.len() as int) =~= v@);
        lemma_index_of_char(v@, c);
        if k == v.len() {
            assert(!v@.contains(c));
        }
    }
    k < v.len()
}

} // verus!
