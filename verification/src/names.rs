//! The names the scaffolding CLI accepts and derives: package labels, snake-case
//! module identifiers and their PascalCase type names.

use vstd::prelude::*;

use crate::cli::CliError;
use crate::text::{chars_of, extend_chars, is_ws, string_of, trim, trim_chars};

verus! {

/// An ASCII letter.
pub open spec fn is_ascii_letter(c: char) -> bool {
    ('a' <= c && c <= 'z') || ('A' <= c && c <= 'Z')
}

/// An ASCII letter or digit.
pub open spec fn is_ascii_alnum(c: char) -> bool {
    is_ascii_letter(c) || ('0' <= c && c <= '9')
}

/// A character allowed in a package label.
pub open spec fn is_label_char(c: char) -> bool {
    is_ascii_alnum(c) || c == '-' || c == '_'
}

/// A character allowed in a snake-case identifier.
pub open spec fn is_ident_char(c: char) -> bool {
    is_ascii_alnum(c) || c == '_'
}

fn ascii_letter(c: char) -> (b: bool)
    ensures
        b == is_ascii_letter(c),
{
    ('a' <= c && c <= 'z') || ('A' <= c && c <= 'Z')
}

fn ascii_alnum(c: char) -> (b: bool)
    ensures
        b == is_ascii_alnum(c),
{
    ascii_letter(c) || ('0' <= c && c <= '9')
}

/// What `package_label` gives for `name`: the trimmed name, if it is non-empty, starts
/// with an ASCII letter and holds only ASCII letters, digits, `-` and `_`.
pub open spec fn spec_package_label(name: Seq<char>) -> Result<Seq<char>, CliError> {
    let s = trim(name);
    if s.len() == 0 {
        Err(CliError::EmptyName)
    } else if !is_ascii_letter(s[0]) {
        Err(CliError::ProjectNameStart)
    } else if !(forall|i: int| 0 <= i < s.len() ==> is_label_char(#[trigger] s[i])) {
        Err(CliError::ProjectNameChars)
    } else {
        Ok(s)
    }
}

/// `s` with every `-` turned into `_`.
pub open spec fn dashes_to_underscores(s: Seq<char>) -> Seq<char> {
    s.map_values(|c: char| if c == '-' { '_' } else { c })
}

/// What `snake_identifier` gives for `name`: the trimmed name with `-` turned into `_`,
/// if it is non-empty, starts with an ASCII letter or `_` and holds only ASCII
/// letters, digits and `_`.
pub open spec fn spec_snake_identifier(name: Seq<char>) -> Result<Seq<char>, CliError> {
    let s = dashes_to_underscores(trim(name));
    if s.len() == 0 {
        Err(CliError::EmptyName)
    } else if !(is_ascii_letter(s[0]) || s[0] == '_') {
        Err(CliError::IdentifierStart)
    } else if !(forall|i: int| 0 <= i < s.len() ==> is_ident_char(#[trigger] s[i])) {
        Err(CliError::IdentifierChars)
    } else {
        Ok(s)
    }
}

/// The result of a name check, taken by its view.
pub open spec fn name_result_view(r: Result<String, CliError>) -> Result<Seq<char>, CliError> {
    match r {
        Ok(s) => Ok(s@),
        Err(e) => Err(e),
    }
}

/// Cargo package / directory label (allows `-`, e.g. `blog-api`).
pub fn package_label(name: &str) -> (r: Result<String, CliError>)
    ensures
        name_result_view(r) == spec_package_label(name@),
{
    let s = trim_chars(&chars_of(name));
    if s.len() == 0 {
        return Err(CliError::EmptyName);
    }
    if !ascii_letter(s[0]) {
        return Err(CliError::ProjectNameStart);
    }
    let mut i: usize = 0;
    while i < s.len()
        invariant
            i <= s.len(),
            s@ == trim(name@),
            is_ascii_letter(s@[0]),
            forall|j: int| 0 <= j < i ==> is_label_char(#[trigger] s@[j]),
        decreases s.len() - i,
    {
        let c = s[i];
        if !(ascii_alnum(c) || c == '-' || c == '_') {
            assert(!is_label_char(s@[i as int]));
            assert(!(forall|j: int| 0 <= j < s@.len() ==> is_label_char(#[trigger] s@[j])));
            return Err(CliError::ProjectNameChars);
        }
        i += 1;
    }
    Ok(string_of(&s))
}

/// A snake-case module identifier: the trimmed name with `-` turned into `_`.
pub fn snake_identifier(name: &str) -> (r: Result<String, CliError>)
    ensures
        name_result_view(r) == spec_snake_identifier(name@),
{
    let t = trim_chars(&chars_of(name));
    let mut s: Vec<char> = Vec::new();
    let mut i: usize = 0;
    while i < t.len()
        invariant
            i <= t.len(),
            s@ == dashes_to_underscores(t@.take(i as int)),
        decreases t.len() - i,
    {
        let c = t[i];
        s.push(if c == '-' { '_' } else { c });
        assert(dashes_to_underscores(t@.take(i + 1)) =~= dashes_to_underscores(t@.take(i as int)).push(
            if c == '-' { '_' } else { c },
        ));
        i += 1;
    }
    assert(t@.take(t.len() as int) =~= t@);
    if s.len() == 0 {
        return Err(CliError::EmptyName);
    }
    if !(ascii_letter(s[0]) || s[0] == '_') {
        return Err(CliError::IdentifierStart);
    }
    let mut i: usize = 0;
    while i < s.len()
        invariant
            i <= s.len(),
            s@ == dashes_to_underscores(trim(name@)),
            is_ascii_letter(s@[0]) || s@[0] == '_',
            forall|j: int| 0 <= j < i ==> is_ident_char(#[trigger] s@[j]),
        decreases s.len() - i,
    {
        if !(ascii_alnum(s[i]) || s[i] == '_') {
            assert(!is_ident_char(s@[i as int]));
            assert(!(forall|j: int| 0 <= j < s@.len() ==> is_ident_char(#[trigger] s@[j])));
            return Err(CliError::IdentifierChars);
        }
        i += 1;
    }
    Ok(string_of(&s))
}

/// What std's `char::to_uppercase` yields for `c`: its Unicode uppercase mapping.
pub uninterp spec fn char_uppercase(c: char) -> Seq<char>;

/// The uppercase mapping of an ASCII character: a lowercase letter becomes its capital,
/// every other ASCII character stays as it is.
pub open spec fn ascii_uppercase(c: char) -> Seq<char> {
    if 'a' <= c && c <= 'z' {
        seq![((c as int) - 32) as char]
    } else {
        seq![c]
    }
}

/// Calls std's `char::to_uppercase` and collects what it yields. Claimed: the result is
/// `char_uppercase(c)`; for an ASCII character it is `ascii_uppercase(c)` (Unicode maps
/// `a`-`z` to `A`-`Z` and gives no other ASCII character an uppercase mapping, and the
/// documentation says a character without a mapping is yielded unchanged).
#[verifier::external_body]
fn uppercase_of(c: char) -> (u: String)
    ensures
        u@ == char_uppercase(c),
        c <= '\u{7f}' ==> u@ == ascii_uppercase(c),
{
    c.to_uppercase().collect::<String>()
}

/// PascalCase from `s`, with `upper` capitalizing the first character of each run
/// between underscores; the underscores are dropped. `at_start` says whether the next
/// character begins a run.
pub open spec fn pascal_with(s: Seq<char>, at_start: bool, upper: spec_fn(char) -> Seq<char>) -> Seq<
    char,
>
    decreases s.len(),
{
    if s.len() == 0 {
        seq![]
    } else if s[0] == '_' {
        pascal_with(s.drop_first(), true, upper)
    } else if at_start {
        upper(s[0]) + pascal_with(s.drop_first(), false, upper)
    } else {
        seq![s[0]] + pascal_with(s.drop_first(), false, upper)
    }
}

/// What `pascal_case` gives for `s`: each non-empty run between underscores with its
/// first character uppercased (std's `char::to_uppercase`), the runs joined.
pub open spec fn spec_pascal_case(s: Seq<char>) -> Seq<char> {
    pascal_with(s, true, |c: char| char_uppercase(c))
}

/// The same for ASCII text, where uppercasing is the ASCII one.
pub open spec fn spec_ascii_pascal_case(s: Seq<char>) -> Seq<char> {
    pascal_with(s, true, |c: char| ascii_uppercase(c))
}

/// All characters of `s` are ASCII.
pub open spec fn all_ascii(s: Seq<char>) -> bool {
    forall|i: int| 0 <= i < s.len() ==> #[trigger] s[i] <= '\u{7f}'
}

/// PascalCase type-name stem from a snake-case identifier (`blog_api` -> `BlogApi`).
pub fn pascal_case(snake: &str) -> (r: String)
    ensures
        r@ == spec_pascal_case(snake@),
        all_ascii(snake@) ==> r@ == spec_ascii_pascal_case(snake@),
{
    let s = chars_of(snake);
    let ghost up = |c: char| char_uppercase(c);
    let ghost aup = |c: char| ascii_uppercase(c);
    let mut out: Vec<char> = Vec::new();
    let mut at_start = true;
    let mut i: usize = 0;
    assert(s@.skip(0) =~= s@);
    while i < s.len()
        invariant
            i <= s.len(),
            s@ == snake@,
            up == (|c: char| char_uppercase(c)),
            aup == (|c: char| ascii_uppercase(c)),
            out@ + pascal_with(s@.skip(i as int), at_start, up) == pascal_with(s@, true, up),
            all_ascii(s@) ==> out@ + pascal_with(s@.skip(i as int), at_start, aup)
                == pascal_with(s@, true, aup),
        decreases s.len() - i,
    {
        let ghost rest = s@.skip(i as int);
        let ghost before = out@;
        assert(rest.drop_first() =~= s@.skip(i + 1));
        let c = s[i];
        if c == '_' {
            at_start = true;
        } else if at_start {
            let u = uppercase_of(c);
            let uc = chars_of(u.as_str());
            extend_chars(&mut out, &uc);
            at_start = false;
            assert(all_ascii(s@) ==> c <= '\u{7f}');
            assert(out@ + pascal_with(s@.skip(i + 1), false, up) =~= before + pascal_with(rest, true, up));
            assert(all_ascii(s@) ==> out@ + pascal_with(s@.skip(i + 1), false, aup) =~= before
                + pascal_with(rest, true, aup));
        } else {
            out.push(c);
            assert(out@ + pascal_with(s@.skip(i + 1), false, up) =~= before + pascal_with(rest, false, up));
            assert(out@ + pascal_with(s@.skip(i + 1), false, aup) =~= before + pascal_with(rest, false, aup));
        }
        i += 1;
    }
    assert(s@.skip(s.len() as int) =~= Seq::<char>::empty());
    assert(out@ + pascal_with(s@.skip(s.len() as int), at_start, up) =~= out@);
    assert(out@ + pascal_with(s@.skip(s.len() as int), at_start, aup) =~= out@);
    string_of(&out)
}

/// A sequence with no whitespace at either end is its own trim.
pub proof fn lemma_trim_of_untrimmable(s: Seq<char>)
    requires
        s.len() > 0 ==> !is_ws(s[0]) && !is_ws(s.last()),
    ensures
        trim(s) == s,
{
}

/// A package label is a fixed point of `package_label`: checking an accepted label again
/// accepts it unchanged.
pub proof fn law_package_label_idempotent(name: Seq<char>)
    requires
        spec_package_label(name) is Ok,
    ensures
        spec_package_label(spec_package_label(name)->Ok_0) == spec_package_label(name),
{
    let s = trim(name);
    assert(is_label_char(s[0]) && is_label_char(s[s.len() - 1]));
    lemma_trim_of_untrimmable(s);
}

/// A snake identifier is a fixed point of `snake_identifier`: an accepted identifier
/// is accepted again unchanged.
pub proof fn law_snake_identifier_idempotent(name: Seq<char>)
    requires
        spec_snake_identifier(name) is Ok,
    ensures
        spec_snake_identifier(spec_snake_identifier(name)->Ok_0) == spec_snake_identifier(name),
{
    let s = dashes_to_underscores(trim(name));
    assert(is_ident_char(s[0]) && is_ident_char(s[s.len() - 1]));
    lemma_trim_of_untrimmable(s);
    assert(dashes_to_underscores(s) =~= s);
}

/// An underscore ends a run: what follows it starts a run of its own.
pub proof fn lemma_pascal_with_underscore(
    a: Seq<char>,
    b: Seq<char>,
    at_start: bool,
    upper: spec_fn(char) -> Seq<char>,
)
    ensures
        pascal_with(a + seq!['_'] + b, at_start, upper) == pascal_with(a, at_start, upper)
            + pascal_with(b, true, upper),
    decreases a.len(),
{
    let t = a + seq!['_'] + b;
    if a.len() == 0 {
        assert(t.drop_first() =~= b);
        assert(pascal_with(a, at_start, upper) =~= Seq::<char>::empty());
        assert(pascal_with(a, at_start, upper) + pascal_with(b, true, upper) =~= pascal_with(
            b,
            true,
            upper,
        ));
    } else {
        assert(t.drop_first() =~= a.drop_first() + seq!['_'] + b);
        assert(t[0] == a[0]);
        lemma_pascal_with_underscore(a.drop_first(), b, a[0] == '_', upper);
        if a[0] == '_' {
        } else if at_start {
            assert(pascal_with(t, at_start, upper) =~= upper(a[0]) + (pascal_with(
                a.drop_first(),
                false,
                upper,
            ) + pascal_with(b, true, upper)));
        } else {
            assert(pascal_with(t, at_start, upper) =~= seq![a[0]] + (pascal_with(
                a.drop_first(),
                false,
                upper,
            ) + pascal_with(b, true, upper)));
        }
    }
}

/// Inside a run, characters are copied as they are.
pub proof fn lemma_pascal_with_inside_run(s: Seq<char>, upper: spec_fn(char) -> Seq<char>)
    requires
        forall|i: int| 0 <= i < s.len() ==> #[trigger] s[i] != '_',
    ensures
        pascal_with(s, false, upper) == s,
    decreases s.len(),
{
    if s.len() > 0 {
        assert(s[0] != '_');
        let rest = s.drop_first();
        assert forall|i: int| 0 <= i < rest.len() implies #[trigger] rest[i] != '_' by {
            assert(rest[i] == s[i + 1]);
        }
        lemma_pascal_with_inside_run(rest, upper);
        assert(seq![s[0]] + rest =~= s);
    }
}

/// PascalCase joins runs: the PascalCase of `a`, an underscore and `b` is the PascalCase
/// of `a` followed by that of `b`, so the underscore itself is dropped and `b` starts a
/// run of its own.
pub proof fn law_pascal_case_joins_runs(a: Seq<char>, b: Seq<char>)
    ensures
        spec_pascal_case(a + seq!['_'] + b) == spec_pascal_case(a) + spec_pascal_case(b),
        spec_ascii_pascal_case(a + seq!['_'] + b) == spec_ascii_pascal_case(a)
            + spec_ascii_pascal_case(b),
{
    lemma_pascal_with_underscore(a, b, true, |c: char| char_uppercase(c));
    lemma_pascal_with_underscore(a, b, true, |c: char| ascii_uppercase(c));
}

/// PascalCase of one run (a non-empty text without underscores): its first character
/// uppercased, then every other character copied unchanged. For ASCII uppercasing the
/// first character is its capital where it is a lowercase letter and itself otherwise.
/// The empty text gives the empty text.
pub proof fn law_pascal_case_of_a_run(s: Seq<char>)
    requires
        s.len() > 0,
        forall|i: int| 0 <= i < s.len() ==> #[trigger] s[i] != '_',
    ensures
        spec_pascal_case(s) == char_uppercase(s[0]) + s.drop_first(),
        spec_ascii_pascal_case(s) == seq![
            if 'a' <= s[0] && s[0] <= 'z' {
                ((s[0] as int) - 32) as char
            } else {
                s[0]
            },
        ] + s.drop_first(),
        spec_pascal_case(Seq::<char>::empty()) == Seq::<char>::empty(),
        spec_ascii_pascal_case(Seq::<char>::empty()) == Seq::<char>::empty(),
{
    let rest = s.drop_first();
    assert forall|i: int| 0 <= i < rest.len() implies #[trigger] rest[i] != '_' by {
        assert(rest[i] == s[i + 1]);
    }
    assert(s[0] != '_');
    lemma_pascal_with_inside_run(rest, |c: char| char_uppercase(c));
    lemma_pascal_with_inside_run(rest, |c: char| ascii_uppercase(c));
}

/// Which names `package_label` accepts: after trimming, a name is accepted exactly when it
/// is non-empty, starts with an ASCII letter of either case, and holds only ASCII
/// letters, digits, `-` and `_`; the accepted label is the trimmed name. An empty trimmed
/// name, a bad first character and a bad later character are each refused with their
/// own error.
pub proof fn law_package_label_accepts(name: Seq<char>)
    ensures
        trim(name).len() > 0 && (('a' <= trim(name)[0] && trim(name)[0] <= 'z') || ('A' <= trim(
            name,
        )[0] && trim(name)[0] <= 'Z')) && (forall|i: int|
            0 <= i < trim(name).len() ==> ('a' <= #[trigger] trim(name)[i] && trim(name)[i] <= 'z')
                || ('A' <= trim(name)[i] && trim(name)[i] <= 'Z') || ('0' <= trim(name)[i]
                && trim(name)[i] <= '9') || trim(name)[i] == '-' || trim(name)[i] == '_')
            ==> spec_package_label(name) == Ok::<Seq<char>, CliError>(trim(name)),
        trim(name).len() == 0 ==> spec_package_label(name) == Err::<Seq<char>, CliError>(
            CliError::EmptyName,
        ),
        trim(name).len() > 0 && !(('a' <= trim(name)[0] && trim(name)[0] <= 'z') || ('A' <= trim(
            name,
        )[0] && trim(name)[0] <= 'Z')) ==> spec_package_label(name) == Err::<Seq<char>, CliError>(
            CliError::ProjectNameStart,
        ),
        trim(name).len() > 0 && (('a' <= trim(name)[0] && trim(name)[0] <= 'z') || ('A' <= trim(
            name,
        )[0] && trim(name)[0] <= 'Z')) && (exists|i: int|
            0 <= i < trim(name).len() && !(('a' <= #[trigger] trim(name)[i] && trim(name)[i] <= 'z')
                || ('A' <= trim(name)[i] && trim(name)[i] <= 'Z') || ('0' <= trim(name)[i]
                && trim(name)[i] <= '9') || trim(name)[i] == '-' || trim(name)[i] == '_'))
            ==> spec_package_label(name) == Err::<Seq<char>, CliError>(CliError::ProjectNameChars),
{
}

/// Which names `snake_identifier` accepts: after trimming, a name is accepted exactly when
/// it is non-empty, starts with an ASCII letter, `_` or `-`, and holds only ASCII letters,
/// digits, `_` and `-`; the identifier is the trimmed name with each `-` turned into `_`
/// and every other character kept in place.
pub proof fn law_snake_identifier_accepts(name: Seq<char>)
    ensures
        trim(name).len() > 0 && (('a' <= trim(name)[0] && trim(name)[0] <= 'z') || ('A' <= trim(
            name,
        )[0] && trim(name)[0] <= 'Z') || trim(name)[0] == '_' || trim(name)[0] == '-') && (forall|
            i: int,
        |
            0 <= i < trim(name).len() ==> ('a' <= #[trigger] trim(name)[i] && trim(name)[i] <= 'z')
                || ('A' <= trim(name)[i] && trim(name)[i] <= 'Z') || ('0' <= trim(name)[i]
                && trim(name)[i] <= '9') || trim(name)[i] == '-' || trim(name)[i] == '_')
            ==> (spec_snake_identifier(name) is Ok && spec_snake_identifier(name)->Ok_0.len()
            == trim(name).len() && forall|i: int|
            0 <= i < trim(name).len() ==> #[trigger] spec_snake_identifier(name)->Ok_0[i] == (
            if trim(name)[i] == '-' {
                '_'
            } else {
                trim(name)[i]
            })),
        trim(name).len() == 0 ==> spec_snake_identifier(name) == Err::<Seq<char>, CliError>(
            CliError::EmptyName,
        ),
        trim(name).len() > 0 && !(('a' <= trim(name)[0] && trim(name)[0] <= 'z') || ('A' <= trim(
            name,
        )[0] && trim(name)[0] <= 'Z') || trim(name)[0] == '_' || trim(name)[0] == '-')
            ==> spec_snake_identifier(name) == Err::<Seq<char>, CliError>(CliError::IdentifierStart),
        trim(name).len() > 0 && (('a' <= trim(name)[0] && trim(name)[0] <= 'z') || ('A' <= trim(
            name,
        )[0] && trim(name)[0] <= 'Z') || trim(name)[0] == '_' || trim(name)[0] == '-') && (exists|
            i: int,
        |
            0 <= i < trim(name).len() && !(('a' <= #[trigger] trim(name)[i] && trim(name)[i] <= 'z')
                || ('A' <= trim(name)[i] && trim(name)[i] <= 'Z') || ('0' <= trim(name)[i]
                && trim(name)[i] <= '9') || trim(name)[i] == '-' || trim(name)[i] == '_'))
            ==> spec_snake_identifier(name) == Err::<Seq<char>, CliError>(CliError::IdentifierChars),
{
    let t = trim(name);
    let s = dashes_to_underscores(t);
    if t.len() > 0 {
        assert(s[0] == (if t[0] == '-' { '_' } else { t[0] }));
        if forall|i: int|
            0 <= i < t.len() ==> ('a' <= #[trigger] t[i] && t[i] <= 'z') || ('A' <= t[i] && t[i]
                <= 'Z') || ('0' <= t[i] && t[i] <= '9') || t[i] == '-' || t[i] == '_' {
            assert forall|i: int| 0 <= i < s.len() implies is_ident_char(#[trigger] s[i]) by {
                assert(s[i] == (if t[i] == '-' { '_' } else { t[i] }));
            }
        } else {
            let i = choose|i: int|
                0 <= i < t.len() && !(('a' <= #[trigger] t[i] && t[i] <= 'z') || ('A' <= t[i] && t[i]
                    <= 'Z') || ('0' <= t[i] && t[i] <= '9') || t[i] == '-' || t[i] == '_');
            assert(s[i] == t[i]);
            assert(!is_ident_char(s[i]));
        }
    }
}

} // verus!
