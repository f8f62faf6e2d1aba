//! Placeholder substitution for the scaffolding templates: every `{key}` whose key is
//! bound is replaced by the bound text, everything else is copied unchanged.

use vstd::prelude::*;

use crate::text::{chars_of, extend_chars, matches_at, occurs_at, string_of};

verus! {

/// The placeholder text `{key}`.
pub open spec fn placeholder(key: Seq<char>) -> Seq<char> {
    seq!['{'] + key + seq!['}']
}

/// The index of the first binding whose placeholder starts `t`, if any.
pub open spec fn matching_binding(t: Seq<char>, b: Seq<(Seq<char>, Seq<char>)>) -> Option<int>
    decreases b.len(),
{
    if b.len() == 0 {
        None
    } else if occurs_at(t, placeholder(b[0].0), 0) {
        Some(0)
    } else {
        match matching_binding(t, b.drop_first()) {
            Some(k) => Some(k + 1),
            None => None,
        }
    }
}

/// A binding that `matching_binding` names is one of `b`, and its placeholder starts `t`.
pub proof fn lemma_matching_binding(t: Seq<char>, b: Seq<(Seq<char>, Seq<char>)>)
    ensures
        matching_binding(t, b) matches Some(k) ==> 0 <= k < b.len() && occurs_at(
            t,
            placeholder(b[k].0),
            0,
        ),
    decreases b.len(),
{
    if b.len() > 0 && !occurs_at(t, placeholder(b[0].0), 0) {
        lemma_matching_binding(t, b.drop_first());
    }
}

/// `t` with each bound placeholder replaced, scanning from left to right; replaced text
/// is not scanned again. Where two bound placeholders start at the same position, the
/// earlier binding wins.
pub open spec fn render(t: Seq<char>, b: Seq<(Seq<char>, Seq<char>)>) -> Seq<char>
    decreases t.len(),
{
    if t.len() == 0 {
        seq![]
    } else {
        match matching_binding(t, b) {
            Some(k) => {
                proof {
                    lemma_matching_binding(t, b);
                }
                b[k].1 + render(t.skip(placeholder(b[k].0).len() as int), b)
            },
            None => seq![t[0]] + render(t.drop_first(), b),
        }
    }
}

/// A placeholder starts with `{`.
pub proof fn lemma_placeholder_starts_with_brace(t: Seq<char>, key: Seq<char>)
    requires
        occurs_at(t, placeholder(key), 0),
    ensures
        t.len() > 0 && t[0] == '{',
{
    assert(t.subrange(0, placeholder(key).len() as int)[0] == placeholder(key)[0]);
}

/// Text without `{` is left as it is.
pub proof fn lemma_render_no_brace(t: Seq<char>, b: Seq<(Seq<char>, Seq<char>)>)
    requires
        forall|i: int| 0 <= i < t.len() ==> #[trigger] t[i] != '{',
    ensures
        render(t, b) == t,
    decreases t.len(),
{
    if t.len() > 0 {
        lemma_matching_binding(t, b);
        if let Some(k) = matching_binding(t, b) {
            lemma_placeholder_starts_with_brace(t, b[k].0);
        }
        let rest = t.drop_first();
        assert forall|i: int| 0 <= i < rest.len() implies #[trigger] rest[i] != '{' by {
            assert(rest[i] == t[i + 1]);
        }
        lemma_render_no_brace(rest, b);
        assert(seq![t[0]] + rest =~= t);
    }
}

/// Where the same placeholders start two texts, the same binding matches both.
pub proof fn lemma_matching_binding_same(t1: Seq<char>, t2: Seq<char>, b: Seq<(Seq<char>, Seq<char>)>)
    requires
        forall|k: int|
            0 <= k < b.len() ==> occurs_at(t1, placeholder(#[trigger] b[k].0), 0) == occurs_at(
                t2,
                placeholder(b[k].0),
                0,
            ),
    ensures
        matching_binding(t1, b) == matching_binding(t2, b),
    decreases b.len(),
{
    if b.len() > 0 {
        let rest = b.drop_first();
        assert forall|k: int| 0 <= k < rest.len() implies occurs_at(
            t1,
            placeholder(#[trigger] rest[k].0),
            0,
        ) == occurs_at(t2, placeholder(rest[k].0), 0) by {
            assert(rest[k] == b[k + 1]);
        }
        lemma_matching_binding_same(t1, t2, rest);
        assert(occurs_at(t1, placeholder(b[0].0), 0) == occurs_at(t2, placeholder(b[0].0), 0));
    }
}

/// Rendering splits after a character that is neither `{` nor part of any key: no
/// placeholder can run across it.
pub proof fn lemma_render_split(x: Seq<char>, y: Seq<char>, b: Seq<(Seq<char>, Seq<char>)>)
    requires
        x.len() > 0,
        x.last() != '{',
        forall|k: int, j: int|
            0 <= k < b.len() && 0 <= j < b[k].0.len() ==> #[trigger] b[k].0[j] != x.last(),
    ensures
        render(x + y, b) == render(x, b) + render(y, b),
    decreases x.len(),
{
    let t = x + y;
    assert forall|k: int| 0 <= k < b.len() implies occurs_at(t, placeholder(#[trigger] b[k].0), 0)
        == occurs_at(x, placeholder(b[k].0), 0) by {
        let p = placeholder(b[k].0);
        if occurs_at(t, p, 0) {
            if p.len() > x.len() {
                let m = x.len() - 1;
                assert(t[m] == t.subrange(0, p.len() as int)[m]);
                assert(t[m] == x.last());
                if m == 0 {
                    assert(p[0] == '{');
                } else {
                    assert(p[m] == b[k].0[m - 1]);
                }
                assert(false);
            }
            assert(x.subrange(0, p.len() as int) =~= t.subrange(0, p.len() as int));
        }
        if occurs_at(x, p, 0) {
            assert(x.subrange(0, p.len() as int) =~= t.subrange(0, p.len() as int));
        }
    }
    lemma_matching_binding_same(t, x, b);
    lemma_matching_binding(x, b);
    match matching_binding(x, b) {
        Some(k) => {
            let w = placeholder(b[k].0).len() as int;
            assert(t.skip(w) =~= x.skip(w) + y);
            if w == x.len() {
                assert(x.skip(w) =~= Seq::<char>::empty());
                assert(render(x.skip(w), b) =~= Seq::<char>::empty());
                assert(x.skip(w) + y =~= y);
                assert(render(x, b) =~= b[k].1);
            } else {
                assert(x.skip(w).last() == x.last());
                lemma_render_split(x.skip(w), y, b);
            }
            assert(render(t, b) =~= render(x, b) + render(y, b));
        },
        None => {
            assert(t.drop_first() =~= x.drop_first() + y);
            assert(t[0] == x[0]);
            if x.len() == 1 {
                assert(x.drop_first() + y =~= y);
                assert(render(x.drop_first(), b) =~= Seq::<char>::empty());
                assert(render(x, b) =~= seq![x[0]]);
            } else {
                assert(x.drop_first().last() == x.last());
                lemma_render_split(x.drop_first(), y, b);
            }
            assert(render(t, b) =~= render(x, b) + render(y, b));
        },
    }
}

/// A `{` followed by a character that starts no key opens no placeholder: it is copied,
/// and the rest is rendered from the next character.
pub proof fn lemma_render_lone_brace(t: Seq<char>, b: Seq<(Seq<char>, Seq<char>)>)
    requires
        t.len() > 1,
        t[0] == '{',
        forall|k: int| 0 <= k < b.len() ==> #[trigger] b[k].0.len() > 0 && b[k].0[0] != t[1],
    ensures
        render(t, b) == seq!['{'] + render(t.drop_first(), b),
{
    assert forall|i: int| 0 <= i < b.len() implies !occurs_at(t, placeholder(#[trigger] b[i].0), 0) by {
        if occurs_at(t, placeholder(b[i].0), 0) {
            assert(t.subrange(0, placeholder(b[i].0).len() as int)[1] == placeholder(b[i].0)[1]);
            assert(placeholder(b[i].0)[1] == b[i].0[0]);
        }
    }
    lemma_matching_binding_first(t, b, b.len() as int);
}

/// The bindings as pairs of character sequences.
pub open spec fn bindings_view(b: Seq<(Vec<char>, Vec<char>)>) -> Seq<(Seq<char>, Seq<char>)> {
    b.map_values(|e: (Vec<char>, Vec<char>)| (e.0@, e.1@))
}

/// The first binding (from index `j` on) whose placeholder starts `t` is the first
/// one whose placeholder matches.
pub proof fn lemma_matching_binding_first(t: Seq<char>, b: Seq<(Seq<char>, Seq<char>)>, j: int)
    requires
        0 <= j <= b.len(),
        forall|i: int| 0 <= i < j ==> !occurs_at(t, placeholder(#[trigger] b[i].0), 0),
    ensures
        j < b.len() && occurs_at(t, placeholder(b[j].0), 0) ==> matching_binding(t, b) == Some(
            j,
        ),
        j == b.len() ==> matching_binding(t, b) is None,
    decreases j,
{
    if j > 0 {
        let rest = b.drop_first();
        assert forall|i: int| 0 <= i < j - 1 implies !occurs_at(
            t,
            placeholder(#[trigger] rest[i].0),
            0,
        ) by {
            assert(rest[i] == b[i + 1]);
        }
        lemma_matching_binding_first(t, rest, j - 1);
        assert(!occurs_at(t, placeholder(b[0].0), 0));
    }
}

/// `t` with every placeholder bound in `b` replaced by its text.
pub fn render_chars(t: &Vec<char>, b: &Vec<(Vec<char>, Vec<char>)>) -> (out: Vec<char>)
    ensures
        out@ == render(t@, bindings_view(b@)),
{
    let ghost bv = bindings_view(b@);
    let mut holes: Vec<Vec<char>> = Vec::new();
    let mut j: usize = 0;
    while j < b.len()
        invariant
            j <= b.len(),
            bv == bindings_view(b@),
            holes@.len() == j,
            forall|i: int| 0 <= i < j ==> #[trigger] holes@[i]@ == placeholder(bv[i].0),
        decreases b.len() - j,
    {
        let mut h: Vec<char> = Vec::new();
        h.push('{');
        extend_chars(&mut h, &b[j].0);
        h.push('}');
        assert(h@ =~= placeholder(bv[j as int].0));
        holes.push(h);
        j += 1;
    }
    let n = t.len();
    let mut out: Vec<char> = Vec::new();
    let mut i: usize = 0;
    assert(t@.skip(0) =~= t@);
    while i < n
        invariant
            i <= n == t.len(),
            bv == bindings_view(b@),
            bv.len() == b@.len(),
            holes@.len() == b@.len(),
            forall|k: int| 0 <= k < b@.len() ==> #[trigger] holes@[k]@ == placeholder(bv[k].0),
            out@ + render(t@.skip(i as int), bv) == render(t@, bv),
        decreases n - i,
    {
        let ghost rest = t@.skip(i as int);
        let mut k: usize = 0;
        let mut found = false;
        while k < holes.len()
            invariant
                k <= holes.len() == b@.len(),
                i < n == t.len(),
                rest == t@.skip(i as int),
                bv == bindings_view(b@),
                bv.len() == b@.len(),
                forall|m: int| 0 <= m < b@.len() ==> #[trigger] holes@[m]@ == placeholder(bv[m].0),
                found ==> k < b@.len() && occurs_at(rest, placeholder(bv[k as int].0), 0),
                forall|m: int| 0 <= m < k ==> !occurs_at(rest, placeholder(#[trigger] bv[m].0), 0),
            ensures
                k <= holes.len(),
                found ==> k < b@.len() && occurs_at(rest, placeholder(bv[k as int].0), 0),
                !found ==> k == holes.len(),
                forall|m: int| 0 <= m < k ==> !occurs_at(rest, placeholder(#[trigger] bv[m].0), 0),
            decreases holes.len() - k,
        {
            if matches_at(t, &holes[k], i) {
                assert(rest.subrange(0, holes@[k as int]@.len() as int) =~= t@.subrange(
                    i as int,
                    i + holes@[k as int]@.len(),
                ));
                found = true;
                break;
            }
            assert(!occurs_at(rest, placeholder(bv[k as int].0), 0)) by {
                if occurs_at(rest, placeholder(bv[k as int].0), 0) {
                    assert(t@.subrange(i as int, i + holes@[k as int]@.len()) =~= rest.subrange(
                        0,
                        holes@[k as int]@.len() as int,
                    ));
                }
            }
            k += 1;
        }
        proof {
            lemma_matching_binding_first(rest, bv, k as int);
            lemma_matching_binding(rest, bv);
        }
        if found {
            let ghost before = out@;
            extend_chars(&mut out, &b[k].1);
            let width = holes[k].len();
            assert(bv[k as int] == (b@[k as int].0@, b@[k as int].1@));
            assert(rest.skip(width as int) =~= t@.skip(i + width));
            assert(render(rest, bv) == bv[k as int].1 + render(rest.skip(width as int), bv));
            assert(out@ + render(t@.skip(i + width), bv) =~= before + render(rest, bv));
            i = i + width;
        } else {
            let ghost before = out@;
            out.push(t[i]);
            assert(rest.drop_first() =~= t@.skip(i + 1));
            assert(render(rest, bv) == seq![rest[0]] + render(rest.drop_first(), bv));
            assert(out@ + render(t@.skip(i + 1), bv) =~= before + render(rest, bv));
            i = i + 1;
        }
    }
    assert(t@.skip(n as int) =~= Seq::<char>::empty());
    assert(out@ + render(t@.skip(n as int), bv) =~= out@);
    out
}

/// `template` with every placeholder bound in `bindings` replaced by its text.
pub fn render_template(template: &str, bindings: &Vec<(Vec<char>, Vec<char>)>) -> (out: String)
    ensures
        out@ == render(template@, bindings_view(bindings@)),
{
    let t = chars_of(template);
    let r = render_chars(&t, bindings);
    string_of(&r)
}

/// The binding of `key` to the characters of `value`.
pub fn binding(key: &str, value: &str) -> (b: (Vec<char>, Vec<char>))
    ensures
        b.0@ == key@,
        b.1@ == value@,
{
    (chars_of(key), chars_of(value))
}

/// `template` with `{key}` replaced by `value`.
pub fn render_one(template: &str, key: &str, value: &str) -> (r: String)
    ensures
        r@ == render(template@, seq![(key@, value@)]),
{
    let mut b: Vec<(Vec<char>, Vec<char>)> = Vec::new();
    b.push(binding(key, value));
    assert(bindings_view(b@) =~= seq![(key@, value@)]);
    render_template(template, &b)
}

} // verus!
