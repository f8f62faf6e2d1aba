//! Character-level text primitives: whitespace and trimming, substring search and
//! first-occurrence replacement, and splitting into lines, each against a model over
//! `Seq<char>`.

use vstd::prelude::*;

verus! {

/// Appending a character to a `String` extends its characters by that one character
/// (`String::push` in std: "Appends the given char to the end of this String").
pub assume_specification[ String::push ](s: &mut String, ch: char)
    ensures
        final(s)@ == old(s)@.push(ch),
;

/// The characters of `s`, in order.
pub fn chars_of(s: &str) -> (v: Vec<char>)
    ensures
        v@ == s@,
{
    let mut v: Vec<char> = Vec::new();
    for c in it: s.chars()
        invariant
            v@ == it.seq().take(it.index() as int),
    {
        v.push(c);
    }
    v
}

/// A `String` holding exactly the characters of `v`.
pub fn string_of(v: &Vec<char>) -> (s: String)
    ensures
        s@ == v@,
{
    let mut s = String::new();
    let mut i: usize = 0;
    while i < v.len()
        invariant
            i <= v.len(),
            s@ == v@.take(i as int),
        decreases v.len() - i,
    {
        s.push(v[i]);
        assert(v@.take(i as int).push(v@[i as int]) =~= v@.take(i + 1));
        i += 1;
    }
    assert(v@.take(v.len() as int) =~= v@);
    s
}

/// Appends every character of `tail` to `v`.
pub fn extend_chars(v: &mut Vec<char>, tail: &Vec<char>)
    ensures
        final(v)@ == old(v)@ + tail@,
{
    let mut i: usize = 0;
    while i < tail.len()
        invariant
            i <= tail.len(),
            v@ == old(v)@ + tail@.take(i as int),
        decreases tail.len() - i,
    {
        v.push(tail[i]);
        assert(tail@.take(i as int).push(tail@[i as int]) =~= tail@.take(i + 1));
        i += 1;
    }
    assert(tail@.take(tail.len() as int) =~= tail@);
}

/// The characters `v[from..to]`.
pub fn slice_chars(v: &Vec<char>, from: usize, to: usize) -> (r: Vec<char>)
    requires
        from <= to <= v.len(),
    ensures
        r@ == v@.subrange(from as int, to as int),
{
    let mut r: Vec<char> = Vec::new();
    let mut i: usize = from;
    while i < to
        invariant
            from <= i <= to <= v.len(),
            r@ == v@.subrange(from as int, i as int),
        decreases to - i,
    {
        r.push(v[i]);
        assert(v@.subrange(from as int, i as int).push(v@[i as int]) =~= v@.subrange(
            from as int,
            i + 1,
        ));
        i += 1;
    }
    r
}

/// Unicode `White_Space`: the characters for which std's `char::is_whitespace` holds.
pub open spec fn is_ws(c: char) -> bool {
    ||| ('\u{9}' <= c && c <= '\u{d}')
    ||| c == ' '
    ||| c == '\u{85}'
    ||| c == '\u{a0}'
    ||| c == '\u{1680}'
    ||| ('\u{2000}' <= c && c <= '\u{200a}')
    ||| c == '\u{2028}'
    ||| c == '\u{2029}'
    ||| c == '\u{202f}'
    ||| c == '\u{205f}'
    ||| c == '\u{3000}'
}

/// Whether `c` is whitespace in the sense of `is_ws`.
pub fn is_whitespace(c: char) -> (b: bool)
    ensures
        b == is_ws(c),
{
    ('\u{9}' <= c && c <= '\u{d}') || c == ' ' || c == '\u{85}' || c == '\u{a0}' || c == '\u{1680}'
        || ('\u{2000}' <= c && c <= '\u{200a}') || c == '\u{2028}' || c == '\u{2029}' || c
        == '\u{202f}' || c == '\u{205f}' || c == '\u{3000}'
}

/// `s` without its leading whitespace.
pub open spec fn trim_start(s: Seq<char>) -> Seq<char>
    decreases s.len(),
{
    if s.len() > 0 && is_ws(s[0]) {
        trim_start(s.drop_first())
    } else {
        s
    }
}

/// `s` without its trailing whitespace.
pub open spec fn trim_end(s: Seq<char>) -> Seq<char>
    decreases s.len(),
{
    if s.len() > 0 && is_ws(s.last()) {
        trim_end(s.drop_last())
    } else {
        s
    }
}

/// `s` without leading and trailing whitespace, as std's `str::trim` gives it.
pub open spec fn trim(s: Seq<char>) -> Seq<char> {
    trim_end(trim_start(s))
}

/// The characters of `s` between its leading and its trailing whitespace.
pub fn trim_chars(s: &Vec<char>) -> (r: Vec<char>)
    ensures
        r@ == trim(s@),
{
    let n = s.len();
    let mut i: usize = 0;
    assert(s@.skip(0) =~= s@);
    while i < n && is_whitespace(s[i])
        invariant
            i <= n == s.len(),
            trim_start(s@) == trim_start(s@.skip(i as int)),
        decreases n - i,
    {
        assert(s@.skip(i as int).drop_first() =~= s@.skip(i + 1));
        i += 1;
    }
    assert(trim_start(s@.skip(i as int)) == s@.skip(i as int));
    let mut j: usize = n;
    assert(s@.skip(i as int) =~= s@.subrange(i as int, n as int));
    while j > i && is_whitespace(s[j - 1])
        invariant
            i <= j <= n == s.len(),
            trim_end(s@.skip(i as int)) == trim_end(s@.subrange(i as int, j as int)),
        decreases j,
    {
        assert(s@.subrange(i as int, j as int).drop_last() =~= s@.subrange(i as int, j - 1));
        j -= 1;
    }
    assert(trim_end(s@.subrange(i as int, j as int)) == s@.subrange(i as int, j as int));
    slice_chars(s, i, j)
}


/// `p` occurs in `s` starting at index `i`.
pub open spec fn occurs_at(s: Seq<char>, p: Seq<char>, i: int) -> bool {
    0 <= i && i + p.len() <= s.len() && s.subrange(i, i + p.len()) == p
}

/// `p` occurs somewhere in `s` (std's `str::contains` with a string pattern).
pub open spec fn contains(s: Seq<char>, p: Seq<char>) -> bool {
    exists|i: int| occurs_at(s, p, i)
}

/// `i` is where the leftmost occurrence of `p` in `s` starts.
pub open spec fn is_first_occurrence(s: Seq<char>, p: Seq<char>, i: int) -> bool {
    occurs_at(s, p, i) && forall|j: int| 0 <= j < i ==> !occurs_at(s, p, j)
}

/// The start of the leftmost occurrence of `p` in `s` (meaningful where `contains(s, p)`).
pub open spec fn first_occurrence(s: Seq<char>, p: Seq<char>) -> int {
    choose|i: int| is_first_occurrence(s, p, i)
}

/// `s` with its leftmost occurrence of `p` replaced by `r`, or `s` itself where `p` does
/// not occur (std's `str::replacen(p, r, 1)`).
pub open spec fn replace_first(s: Seq<char>, p: Seq<char>, r: Seq<char>) -> Seq<char> {
    if contains(s, p) {
        let i = first_occurrence(s, p);
        s.take(i) + r + s.skip(i + p.len())
    } else {
        s
    }
}

/// A leftmost occurrence is the one that `first_occurrence` names.
pub proof fn lemma_first_occurrence_unique(s: Seq<char>, p: Seq<char>, i: int)
    requires
        is_first_occurrence(s, p, i),
    ensures
        contains(s, p),
        first_occurrence(s, p) == i,
{
    let k = first_occurrence(s, p);
    assert(is_first_occurrence(s, p, k));
    if k < i {
        assert(!occurs_at(s, p, k));
    } else if i < k {
        assert(!occurs_at(s, p, i));
    }
}

/// Whether `p` occurs in `s` at index `i`.
pub fn matches_at(s: &Vec<char>, p: &Vec<char>, i: usize) -> (b: bool)
    ensures
        b == occurs_at(s@, p@, i as int),
{
    if i > s.len() || p.len() > s.len() - i {
        return false;
    }
    let mut k: usize = 0;
    while k < p.len()
        invariant
            i + p.len() <= s.len(),
            k <= p.len(),
            forall|j: int| 0 <= j < k ==> s@[i + j] == p@[j],
        decreases p.len() - k,
    {
        if s[i + k] != p[k] {
            assert(s@.subrange(i as int, i + p.len())[k as int] != p@[k as int]);
            return false;
        }
        k += 1;
    }
    assert(s@.subrange(i as int, i + p.len()) =~= p@);
    true
}

/// The start of the leftmost occurrence of `p` in `s`, if any.
pub fn find(s: &Vec<char>, p: &Vec<char>) -> (r: Option<usize>)
    ensures
        match r {
            Some(i) => is_first_occurrence(s@, p@, i as int),
            None => !contains(s@, p@),
        },
{
    if p.len() > s.len() {
        assert forall|i: int| !occurs_at(s@, p@, i) by {}
        return None;
    }
    let last = s.len() - p.len();
    let mut i: usize = 0;
    loop
        invariant
            i <= last,
            last + p.len() == s.len(),
            forall|j: int| 0 <= j < i ==> !occurs_at(s@, p@, j),
        ensures
            forall|j: int| 0 <= j <= last ==> !occurs_at(s@, p@, j),
        decreases last - i,
    {
        if matches_at(s, p, i) {
            return Some(i);
        }
        if i == last {
            break;
        }
        i += 1;
    }
    assert forall|j: int| !occurs_at(s@, p@, j) by {
        if 0 <= j <= last {
        }
    }
    None
}

/// Whether `p` occurs in `s`.
pub fn contains_chars(s: &Vec<char>, p: &Vec<char>) -> (b: bool)
    ensures
        b == contains(s@, p@),
{
    match find(s, p) {
        Some(i) => {
            assert(occurs_at(s@, p@, i as int));
            true
        },
        None => false,
    }
}

/// `s` with its leftmost occurrence of `p` replaced by `r`.
pub fn replace_first_chars(s: &Vec<char>, p: &Vec<char>, r: &Vec<char>) -> (out: Vec<char>)
    ensures
        out@ == replace_first(s@, p@, r@),
{
    match find(s, p) {
        Some(i) => {
            proof {
                lemma_first_occurrence_unique(s@, p@, i as int);
            }
            let mut out = slice_chars(s, 0, i);
            extend_chars(&mut out, r);
            let rest = slice_chars(s, i + p.len(), s.len());
            extend_chars(&mut out, &rest);
            assert(s@.subrange(0, i as int) =~= s@.take(i as int));
            assert(s@.subrange(i + p.len(), s.len() as int) =~= s@.skip(i + p.len()));
            out
        },
        None => slice_chars(s, 0, s.len()),
    }
}

/// The index of the first `'\n'` in `s`, or the length of `s` where there is none.
pub open spec fn newline_index(s: Seq<char>) -> nat
    decreases s.len(),
{
    if s.len() == 0 {
        0
    } else if s[0] == '\n' {
        0
    } else {
        1 + newline_index(s.drop_first())
    }
}

/// `l` without one trailing carriage return.
pub open spec fn strip_cr(l: Seq<char>) -> Seq<char> {
    if l.len() > 0 && l.last() == '\r' {
        l.drop_last()
    } else {
        l
    }
}

/// The lines of `s` as std's `str::lines` gives them: split at each `'\n'`, a `'\r'`
/// just before the `'\n'` dropped, and no empty line after a final `'\n'`.
pub open spec fn lines(s: Seq<char>) -> Seq<Seq<char>>
    decreases s.len(),
{
    if s.len() == 0 {
        seq![]
    } else {
        let k = newline_index(s);
        if k < s.len() {
            seq![strip_cr(s.take(k as int))] + lines(s.skip(k + 1int))
        } else {
            seq![s]
        }
    }
}

/// The first newline of `s` is at `k` (or `s` has none and `k` is its length).
pub proof fn lemma_newline_index(s: Seq<char>, k: int)
    requires
        0 <= k <= s.len(),
        forall|j: int| 0 <= j < k ==> s[j] != '\n',
        k == s.len() || s[k] == '\n',
    ensures
        newline_index(s) == k,
    decreases k,
{
    if k > 0 {
        lemma_newline_index(s.drop_first(), k - 1);
    }
}

/// The lines of `s`, each as its characters.
pub fn split_lines(s: &Vec<char>) -> (r: Vec<Vec<char>>)
    ensures
        r@.len() == lines(s@).len(),
        forall|i: int| 0 <= i < r@.len() ==> #[trigger] r@[i]@ == lines(s@)[i],
{
    let n = s.len();
    let mut r: Vec<Vec<char>> = Vec::new();
    let mut pos: usize = 0;
    let ghost done: Seq<Seq<char>> = seq![];
    assert(s@.skip(0) =~= s@);
    while pos < n
        invariant
            pos <= n == s.len(),
            r@.len() == done.len(),
            forall|i: int| 0 <= i < r@.len() ==> #[trigger] r@[i]@ == done[i],
            done + lines(s@.skip(pos as int)) == lines(s@),
        decreases n - pos,
    {
        let mut k: usize = pos;
        while k < n && s[k] != '\n'
            invariant
                pos <= k <= n == s.len(),
                forall|j: int| pos <= j < k ==> s@[j] != '\n',
            decreases n - k,
        {
            k += 1;
        }
        let ghost rest = s@.skip(pos as int);
        proof {
            lemma_newline_index(rest, k - pos);
        }
        let mut line = slice_chars(s, pos, k);
        assert(line@ =~= rest.take(k - pos));
        if k < n {
            if line.len() > 0 && line[line.len() - 1] == '\r' {
                line.pop();
            }
            assert(rest.skip(k - pos + 1) =~= s@.skip(k + 1));
            proof {
                assert(lines(rest) == seq![line@] + lines(s@.skip(k + 1)));
                assert(done.push(line@) + lines(s@.skip(k + 1)) =~= done + lines(rest));
                done = done.push(line@);
            }
            r.push(line);
            pos = k + 1;
        } else {
            assert(rest.take(k - pos) =~= rest);
            assert(s@.skip(n as int) =~= Seq::<char>::empty());
            proof {
                assert(done.push(line@) + lines(s@.skip(n as int)) =~= done + lines(rest));
                done = done.push(line@);
            }
            r.push(line);
            pos = n;
        }
    }
    assert(s@.skip(n as int) =~= Seq::<char>::empty());
    assert(done =~= lines(s@));
    r
}


/// `newline_index` names the first newline, or the length where there is none.
pub proof fn lemma_newline_index_props(s: Seq<char>)
    ensures
        newline_index(s) <= s.len(),
        newline_index(s) < s.len() ==> s[newline_index(s) as int] == '\n',
        forall|j: int| 0 <= j < newline_index(s) ==> s[j] != '\n',
    decreases s.len(),
{
    if s.len() > 0 && s[0] != '\n' {
        lemma_newline_index_props(s.drop_first());
        assert forall|j: int| 0 <= j < newline_index(s) implies s[j] != '\n' by {
            if j > 0 {
                assert(s[j] == s.drop_first()[j - 1]);
            }
        }
    }
}

/// The lines of `a + b`, where `a` is empty or ends a line, are those of `a` and then
/// those of `b`.
pub proof fn lemma_lines_append(a: Seq<char>, b: Seq<char>)
    requires
        a.len() == 0 || a.last() == '\n',
    ensures
        lines(a + b) == lines(a) + lines(b),
    decreases a.len(),
{
    if a.len() == 0 {
        assert(a + b =~= b);
        assert(lines(a) =~= Seq::<Seq<char>>::empty());
        assert(lines(a) + lines(b) =~= lines(b));
    } else {
        lemma_newline_index_props(a);
        let k = newline_index(a) as int;
        if k == a.len() {
            assert(a[a.len() - 1] == '\n');
            assert(false);
        }
        let ab = a + b;
        assert forall|j: int| 0 <= j < k implies ab[j] != '\n' by {
            assert(ab[j] == a[j]);
        }
        assert(ab[k] == a[k]);
        lemma_newline_index(ab, k);
        assert(ab.take(k) =~= a.take(k));
        let rest = a.skip(k + 1);
        assert(ab.skip(k + 1) =~= rest + b);
        if rest.len() > 0 {
            assert(rest.last() == a.last());
        }
        lemma_lines_append(rest, b);
        assert(lines(ab) =~= seq![strip_cr(a.take(k))] + (lines(rest) + lines(b)));
        assert(lines(a) =~= seq![strip_cr(a.take(k))] + lines(rest));
        assert(lines(ab) =~= lines(a) + lines(b));
    }
}

/// Leading whitespace stops at `a`: trimming the start leaves `s[a..]`.
pub proof fn lemma_trim_start_at(s: Seq<char>, a: int)
    requires
        0 <= a <= s.len(),
        forall|j: int| 0 <= j < a ==> is_ws(#[trigger] s[j]),
        a == s.len() || !is_ws(s[a]),
    ensures
        trim_start(s) == s.skip(a),
    decreases a,
{
    if a == 0 {
        assert(s.skip(0) =~= s);
    } else {
        let t = s.drop_first();
        assert forall|j: int| 0 <= j < a - 1 implies is_ws(#[trigger] t[j]) by {
            assert(t[j] == s[j + 1]);
        }
        if a < s.len() {
            assert(t[a - 1] == s[a]);
        }
        lemma_trim_start_at(t, a - 1);
        assert(t.skip(a - 1) =~= s.skip(a));
    }
}

/// Trailing whitespace starts at `b`: trimming the end leaves `s[..b]`.
pub proof fn lemma_trim_end_at(s: Seq<char>, b: int)
    requires
        0 <= b <= s.len(),
        forall|j: int| b <= j < s.len() ==> is_ws(#[trigger] s[j]),
        b == 0 || !is_ws(s[b - 1]),
    ensures
        trim_end(s) == s.take(b),
    decreases s.len() - b,
{
    if b == s.len() {
        assert(s.take(b) =~= s);
    } else {
        let t = s.drop_last();
        assert forall|j: int| b <= j < t.len() implies is_ws(#[trigger] t[j]) by {
            assert(t[j] == s[j]);
        }
        if b > 0 {
            assert(t[b - 1] == s[b - 1]);
        }
        lemma_trim_end_at(t, b);
        assert(t.take(b) =~= s.take(b));
    }
}

/// With only whitespace before `a` and from `b` on, and non-whitespace at `a` and at
/// `b - 1`, trimming leaves `s[a..b]`.
pub proof fn lemma_trim_at(s: Seq<char>, a: int, b: int)
    requires
        0 <= a <= b <= s.len(),
        forall|j: int| 0 <= j < a ==> is_ws(#[trigger] s[j]),
        forall|j: int| b <= j < s.len() ==> is_ws(#[trigger] s[j]),
        a < b ==> !is_ws(s[a]) && !is_ws(s[b - 1]),
    ensures
        trim(s) == s.subrange(a, b),
{
    if a == b {
        assert forall|j: int| 0 <= j < s.len() implies is_ws(#[trigger] s[j]) by {
            if j >= b {
            }
        }
        lemma_trim_start_at(s, s.len() as int);
        assert(s.skip(s.len() as int) =~= Seq::<char>::empty());
        assert(s.subrange(a, b) =~= Seq::<char>::empty());
    } else {
        lemma_trim_start_at(s, a);
        let t = s.skip(a);
        assert forall|j: int| b - a <= j < t.len() implies is_ws(#[trigger] t[j]) by {
            assert(t[j] == s[j + a]);
        }
        assert(t[b - a - 1] == s[b - 1]);
        lemma_trim_end_at(t, b - a);
        assert(t.take(b - a) =~= s.subrange(a, b));
    }
}

/// Trimming the start skips a prefix made only of whitespace.
pub proof fn lemma_trim_start_skips_ws(p: Seq<char>, r: Seq<char>)
    requires
        forall|j: int| 0 <= j < p.len() ==> is_ws(#[trigger] p[j]),
    ensures
        trim_start(p + r) == trim_start(r),
    decreases p.len(),
{
    if p.len() > 0 {
        let q = p.drop_first();
        assert forall|j: int| 0 <= j < q.len() implies is_ws(#[trigger] q[j]) by {
            assert(q[j] == p[j + 1]);
        }
        assert((p + r)[0] == p[0]);
        assert((p + r).drop_first() =~= q + r);
        lemma_trim_start_skips_ws(q, r);
    } else {
        assert(p + r =~= r);
    }
}


/// The index of the first non-whitespace character of `s`, or its length.
pub open spec fn first_non_ws(s: Seq<char>) -> int
    decreases s.len(),
{
    if s.len() == 0 {
        0
    } else if !is_ws(s[0]) {
        0
    } else {
        1 + first_non_ws(s.drop_first())
    }
}

/// One past the index of the last non-whitespace character of `s`, or zero.
pub open spec fn end_non_ws(s: Seq<char>) -> int
    decreases s.len(),
{
    if s.len() == 0 {
        0
    } else if !is_ws(s.last()) {
        s.len() as int
    } else {
        end_non_ws(s.drop_last())
    }
}

proof fn lemma_first_non_ws(s: Seq<char>)
    ensures
        0 <= first_non_ws(s) <= s.len(),
        forall|j: int| 0 <= j < first_non_ws(s) ==> is_ws(#[trigger] s[j]),
        first_non_ws(s) < s.len() ==> !is_ws(s[first_non_ws(s)]),
    decreases s.len(),
{
    if s.len() > 0 && is_ws(s[0]) {
        lemma_first_non_ws(s.drop_first());
        assert forall|j: int| 0 <= j < first_non_ws(s) implies is_ws(#[trigger] s[j]) by {
            if j > 0 {
                assert(s[j] == s.drop_first()[j - 1]);
            }
        }
    }
}

proof fn lemma_end_non_ws(s: Seq<char>)
    ensures
        0 <= end_non_ws(s) <= s.len(),
        forall|j: int| end_non_ws(s) <= j < s.len() ==> is_ws(#[trigger] s[j]),
        end_non_ws(s) > 0 ==> !is_ws(s[end_non_ws(s) - 1]),
    decreases s.len(),
{
    if s.len() > 0 && is_ws(s.last()) {
        lemma_end_non_ws(s.drop_last());
        assert forall|j: int| end_non_ws(s) <= j < s.len() implies is_ws(#[trigger] s[j]) by {
            if j < s.len() - 1 {
                assert(s[j] == s.drop_last()[j]);
            }
        }
    }
}

/// A trimmed text that holds no newline is, trimmed, one of the text's lines.
pub proof fn lemma_trimmed_is_a_line(s: Seq<char>)
    requires
        s.len() > 0,
        forall|i: int| 0 <= i < trim(s).len() ==> #[trigger] trim(s)[i] != '\n',
    ensures
        exists|i: int| 0 <= i < lines(s).len() && trim(#[trigger] lines(s)[i]) == trim(s),
    decreases s.len(),
{
    lemma_newline_index_props(s);
    let k = newline_index(s) as int;
    if k == s.len() {
        assert(lines(s) =~= seq![s]);
        assert(trim(lines(s)[0]) == trim(s));
    } else {
        let seg = s.take(k);
        let rest = s.skip(k + 1);
        assert(lines(s) == seq![strip_cr(seg)] + lines(rest));
        assert(lines(s)[0] == strip_cr(seg));
        if exists|j: int| 0 <= j < k && !is_ws(#[trigger] s[j]) {
            // the trimmed text starts inside the first line, so it ends there too
            let w = choose|j: int| 0 <= j < k && !is_ws(#[trigger] s[j]);
            lemma_first_non_ws(s);
            lemma_end_non_ws(s);
            let a = first_non_ws(s);
            let b = end_non_ws(s);
            assert(a <= w);
            assert(w < b);
            lemma_trim_at(s, a, b);
            if b > k {
                assert(trim(s)[k - a] == s[k]);
                assert(false);
            }
            let l = strip_cr(seg);
            assert(b <= l.len()) by {
                if l.len() < seg.len() {
                    assert(seg[k - 1] == '\r');
                    assert(s[k - 1] == seg[k - 1]);
                }
            }
            assert forall|j: int| 0 <= j < l.len() implies l[j] == s[j] by {}
            assert forall|j: int| b <= j < l.len() implies is_ws(#[trigger] l[j]) by {
                assert(l[j] == s[j]);
            }
            assert forall|j: int| 0 <= j < a implies is_ws(#[trigger] l[j]) by {
                assert(l[j] == s[j]);
            }
            lemma_trim_at(l, a, b);
            assert(l.subrange(a, b) =~= s.subrange(a, b));
            assert(trim(lines(s)[0]) == trim(s));
        } else {
            assert forall|j: int| 0 <= j < k + 1 implies is_ws(#[trigger] s.take(k + 1)[j]) by {
                assert(s.take(k + 1)[j] == s[j]);
            }
            assert(s =~= s.take(k + 1) + rest);
            lemma_trim_start_skips_ws(s.take(k + 1), rest);
            assert(trim(s) == trim(rest));
            if rest.len() == 0 {
                let l = strip_cr(seg);
                assert forall|j: int| 0 <= j < l.len() implies is_ws(#[trigger] l[j]) by {
                    assert(l[j] == s[j]);
                }
                lemma_trim_at(l, l.len() as int, l.len() as int);
                lemma_trim_at(rest, 0, 0);
                assert(trim(lines(s)[0]) =~= trim(s));
            } else {
                lemma_trimmed_is_a_line(rest);
                let i = choose|i: int| 0 <= i < lines(rest).len() && trim(#[trigger] lines(rest)[i]) == trim(rest);
                assert(lines(s)[i + 1] == lines(rest)[i]);
                assert(trim(lines(s)[i + 1]) == trim(s));
            }
        }
    }
}

} // verus!
