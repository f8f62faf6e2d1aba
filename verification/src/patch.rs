//! Editing a generated project's source text: registering a `pub mod` line in a
//! `mod.rs`, and registering a new module in `app_module.rs`.

use vstd::prelude::*;

use crate::cli::CliError;
use crate::text::{
    chars_of, contains, contains_chars, extend_chars, first_occurrence, is_first_occurrence, lemma_lines_append,
    lemma_trim_at, lemma_trimmed_is_a_line, lines, occurs_at, replace_first, replace_first_chars, split_lines, string_of, trim,
    trim_chars,
};

verus! {

/// Some line of `content`, trimmed, is `t`.
pub open spec fn has_line_trimmed_to(content: Seq<char>, t: Seq<char>) -> bool {
    exists|i: int| 0 <= i < lines(content).len() && trim(#[trigger] lines(content)[i]) == t
}

/// `content` with `line` appended, after a newline where `content` does not end a line.
pub open spec fn appended(content: Seq<char>, line: Seq<char>) -> Seq<char> {
    if content.len() == 0 || content.last() == '\n' {
        content + line
    } else {
        content + seq!['\n'] + line
    }
}

/// What merging `line` into a `mod.rs` holding `content` writes: nothing (`None`) where
/// some line of `content` already trims to the trimmed `line`, else `content` with `line`
/// appended.
pub open spec fn spec_merge_mod(content: Seq<char>, line: Seq<char>) -> Option<Seq<char>> {
    if has_line_trimmed_to(content, trim(line)) {
        None
    } else {
        Some(appended(content, line))
    }
}

/// Whether `a` and `b` hold the same characters.
pub fn same_chars(a: &Vec<char>, b: &Vec<char>) -> (r: bool)
    ensures
        r == (a@ == b@),
{
    if a.len() != b.len() {
        return false;
    }
    let mut i: usize = 0;
    while i < a.len()
        invariant
            i <= a.len() == b.len(),
            forall|j: int| 0 <= j < i ==> a@[j] == b@[j],
        decreases a.len() - i,
    {
        if a[i] != b[i] {
            return false;
        }
        i += 1;
    }
    assert(a@ =~= b@);
    true
}

/// The new text of a `mod.rs` holding `content` once `line` is merged into it, or `None`
/// where a line of it already trims to the trimmed `line` and nothing is to be written.
pub fn merge_mod_content(content: &str, line: &str) -> (r: Option<String>)
    ensures
        match r {
            Some(s) => spec_merge_mod(content@, line@) == Some(s@),
            None => spec_merge_mod(content@, line@) is None,
        },
{
    let c = chars_of(content);
    let l = chars_of(line);
    let t = trim_chars(&l);
    let ls = split_lines(&c);
    let mut i: usize = 0;
    while i < ls.len()
        invariant
            i <= ls.len(),
            c@ == content@,
            t@ == trim(line@),
            ls@.len() == lines(c@).len(),
            forall|k: int| 0 <= k < ls@.len() ==> #[trigger] ls@[k]@ == lines(c@)[k],
            forall|k: int| 0 <= k < i ==> trim(#[trigger] lines(c@)[k]) != t@,
        decreases ls.len() - i,
    {
        let tl = trim_chars(&ls[i]);
        if same_chars(&tl, &t) {
            assert(trim(lines(c@)[i as int]) == t@);
            return None;
        }
        i += 1;
    }
    let mut out = c;
    if !(out.len() == 0 || out[out.len() - 1] == '\n') {
        out.push('\n');
    }
    extend_chars(&mut out, &l);
    assert(out@ =~= appended(content@, line@));
    Some(string_of(&out))
}

/// The `mod.rs` line that declares module `name`.
pub open spec fn spec_mod_line(name: Seq<char>) -> Seq<char> {
    "pub mod "@ + name + ";\n"@
}

/// The `mod.rs` line that declares module `name`: `pub mod <name>;` and a newline.
pub fn mod_line(name: &str) -> (r: String)
    ensures
        r@ == spec_mod_line(name@),
{
    let mut v = chars_of("pub mod ");
    extend_chars(&mut v, &chars_of(name));
    extend_chars(&mut v, &chars_of(";\n"));
    string_of(&v)
}

/// The text that `app_module.rs` imports generated modules after.
pub const USE_ANCHOR: &'static str = "use rezis::{Module, ModuleContext};";

/// The registration that new modules are registered after.
pub const HEALTH_ANCHOR: &'static str = "ctx.module(HealthModule::new());";

pub const USE_PREFIX: &'static str = "use crate::modules::";

pub const PATH_SEP: &'static str = "::";

pub const MODULE_FILE_SUFFIX: &'static str = "_module::";

pub const MODULE_TYPE_SUFFIX: &'static str = "Module;";

pub const CTX_PREFIX: &'static str = "        ctx.module(";

pub const NEW_CALL: &'static str = "Module::new()";

pub const CALL_END: &'static str = ");";

/// `use crate::modules::<snake>::<snake>_module::<Pascal>Module;`
pub open spec fn spec_use_line(snake: Seq<char>, pascal: Seq<char>) -> Seq<char> {
    USE_PREFIX@ + snake + PATH_SEP@ + snake + MODULE_FILE_SUFFIX@ + pascal + MODULE_TYPE_SUFFIX@
}

/// `<Pascal>Module::new()`: present where the module is registered already.
pub open spec fn spec_registration(pascal: Seq<char>) -> Seq<char> {
    pascal + NEW_CALL@
}

/// `        ctx.module(<Pascal>Module::new());`
pub open spec fn spec_ctx_line(pascal: Seq<char>) -> Seq<char> {
    CTX_PREFIX@ + spec_registration(pascal) + CALL_END@
}

/// `content` with the module's import added: unchanged where it is there already, else
/// on a line after the first `USE_ANCHOR`, else on a first line of its own.
pub open spec fn with_use_line(content: Seq<char>, snake: Seq<char>, pascal: Seq<char>) -> Seq<
    char,
> {
    let use_line = spec_use_line(snake, pascal);
    if contains(content, use_line) {
        content
    } else if contains(content, USE_ANCHOR@) {
        replace_first(content, USE_ANCHOR@, USE_ANCHOR@ + seq!['\n'] + use_line)
    } else {
        use_line + seq!['\n'] + content
    }
}

/// What registering module `snake` (type `<pascal>Module`) in an `app_module.rs` holding
/// `content` gives: `Ok(None)` where `<pascal>Module::new()` occurs already (nothing is
/// written); else the import added (see `with_use_line`) and the registration line put
/// after the first `HEALTH_ANCHOR`; the error where neither that anchor nor the
/// registration line is there.
pub open spec fn spec_patch_app_module(content: Seq<char>, snake: Seq<char>, pascal: Seq<char>) -> Result<
    Option<Seq<char>>,
    CliError,
> {
    if contains(content, spec_registration(pascal)) {
        Ok(None)
    } else {
        let c1 = with_use_line(content, snake, pascal);
        let ctx_line = spec_ctx_line(pascal);
        if contains(c1, HEALTH_ANCHOR@) && !contains(c1, ctx_line) {
            Ok(Some(replace_first(c1, HEALTH_ANCHOR@, HEALTH_ANCHOR@ + seq!['\n'] + ctx_line)))
        } else if !contains(c1, ctx_line) {
            Err(CliError::AppModuleAnchorMissing)
        } else {
            Ok(Some(c1))
        }
    }
}

/// The result of a patch, taken by its view.
pub open spec fn patch_result_view(r: Result<Option<String>, CliError>) -> Result<
    Option<Seq<char>>,
    CliError,
> {
    match r {
        Ok(Some(s)) => Ok(Some(s@)),
        Ok(None) => Ok(None),
        Err(e) => Err(e),
    }
}

/// The import line for module `snake` of type `<pascal>Module`.
fn use_line_chars(snake: &Vec<char>, pascal: &Vec<char>) -> (r: Vec<char>)
    ensures
        r@ == spec_use_line(snake@, pascal@),
{
    let mut r = chars_of(USE_PREFIX);
    extend_chars(&mut r, snake);
    extend_chars(&mut r, &chars_of(PATH_SEP));
    extend_chars(&mut r, snake);
    extend_chars(&mut r, &chars_of(MODULE_FILE_SUFFIX));
    extend_chars(&mut r, pascal);
    extend_chars(&mut r, &chars_of(MODULE_TYPE_SUFFIX));
    r
}

/// `first`, a newline, then `second`.
fn joined_by_newline(first: &Vec<char>, second: &Vec<char>) -> (r: Vec<char>)
    ensures
        r@ == first@ + seq!['\n'] + second@,
{
    let mut r: Vec<char> = Vec::new();
    extend_chars(&mut r, first);
    r.push('\n');
    extend_chars(&mut r, second);
    r
}

/// The new text of an `app_module.rs` holding `content` once module `snake` (type
/// `<pascal>Module`) is registered in it; `None` where it is registered already.
pub fn patch_app_module_content(content: &str, snake: &str, pascal: &str) -> (r: Result<
    Option<String>,
    CliError,
>)
    ensures
        patch_result_view(r) == spec_patch_app_module(content@, snake@, pascal@),
{
    let c = chars_of(content);
    let s = chars_of(snake);
    let p = chars_of(pascal);
    let mut registration = p.clone();
    extend_chars(&mut registration, &chars_of(NEW_CALL));
    assert(registration@ == spec_registration(pascal@));
    if contains_chars(&c, &registration) {
        return Ok(None);
    }
    let use_line = use_line_chars(&s, &p);
    let use_anchor = chars_of(USE_ANCHOR);
    let c1 = if contains_chars(&c, &use_line) {
        c
    } else if contains_chars(&c, &use_anchor) {
        replace_first_chars(&c, &use_anchor, &joined_by_newline(&use_anchor, &use_line))
    } else {
        joined_by_newline(&use_line, &c)
    };
    assert(c1@ == with_use_line(content@, snake@, pascal@));
    let mut ctx_line = chars_of(CTX_PREFIX);
    extend_chars(&mut ctx_line, &registration);
    extend_chars(&mut ctx_line, &chars_of(CALL_END));
    assert(ctx_line@ == spec_ctx_line(pascal@));
    let health = chars_of(HEALTH_ANCHOR);
    let has_ctx = contains_chars(&c1, &ctx_line);
    if contains_chars(&c1, &health) && !has_ctx {
        let out = replace_first_chars(&c1, &health, &joined_by_newline(&health, &ctx_line));
        Ok(Some(string_of(&out)))
    } else if !has_ctx {
        Err(CliError::AppModuleAnchorMissing)
    } else {
        Ok(Some(string_of(&c1)))
    }
}


/// `p` occurs in `x + p + y` right after `x`.
pub proof fn lemma_occurs_between(x: Seq<char>, p: Seq<char>, y: Seq<char>)
    ensures
        occurs_at(x + p + y, p, x.len() as int),
{
    assert((x + p + y).subrange(x.len() as int, (x.len() + p.len()) as int) =~= p);
}

/// An occurrence inside an occurrence is an occurrence.
pub proof fn lemma_occurs_within(s: Seq<char>, q: Seq<char>, p: Seq<char>, i: int, j: int)
    requires
        occurs_at(s, q, i),
        occurs_at(q, p, j),
    ensures
        occurs_at(s, p, i + j),
{
    assert(s.subrange(i + j, i + j + p.len()) =~= q.subrange(j, j + p.len()));
}

/// The replacement text occurs in the result of a replacement that took place.
pub proof fn lemma_replacement_occurs(s: Seq<char>, p: Seq<char>, r: Seq<char>)
    requires
        contains(s, p),
    ensures
        occurs_at(replace_first(s, p, r), r, first_occurrence(s, p)),
{
    let i = first_occurrence(s, p);
    let w = choose|k: int| occurs_at(s, p, k);
    assert(exists|k: int| is_first_occurrence(s, p, k)) by {
        // the leftmost of the occurrences up to `w`
        lemma_leftmost_occurrence(s, p, w);
    }
    assert(is_first_occurrence(s, p, i));
    assert(s.take(i).len() == i);
    lemma_occurs_between(s.take(i), r, s.skip(i + p.len()));
}

/// Where `p` occurs at `w`, some occurrence at or before `w` is the leftmost one.
pub proof fn lemma_leftmost_occurrence(s: Seq<char>, p: Seq<char>, w: int)
    requires
        occurs_at(s, p, w),
    ensures
        exists|k: int| is_first_occurrence(s, p, k),
    decreases w,
{
    if exists|j: int| 0 <= j < w && occurs_at(s, p, j) {
        let j = choose|j: int| 0 <= j < w && occurs_at(s, p, j);
        lemma_leftmost_occurrence(s, p, j);
    } else {
        assert(is_first_occurrence(s, p, w));
    }
}

/// Merging a `mod.rs` line twice writes it once: once `line` has been merged, merging it
/// again leaves the text as it is. This holds for every line that is not empty and whose
/// trimmed text holds no newline.
pub proof fn law_merge_mod_idempotent(content: Seq<char>, line: Seq<char>)
    requires
        line.len() > 0,
        forall|i: int| 0 <= i < trim(line).len() ==> #[trigger] trim(line)[i] != '\n',
    ensures
        spec_merge_mod(
            match spec_merge_mod(content, line) {
                Some(c) => c,
                None => content,
            },
            line,
        ) is None,
{
    if let Some(c2) = spec_merge_mod(content, line) {
        let a = if content.len() == 0 || content.last() == '\n' {
            content
        } else {
            content + seq!['\n']
        };
        assert(c2 =~= a + line);
        if a.len() > 0 {
            assert(a.last() == '\n');
        }
        lemma_lines_append(a, line);
        lemma_trimmed_is_a_line(line);
        let i = choose|i: int| 0 <= i < lines(line).len() && trim(#[trigger] lines(line)[i]) == trim(line);
        assert(lines(c2)[lines(a).len() + i] == lines(line)[i]);
        assert(trim(lines(c2)[lines(a).len() + i]) == trim(line));
    }
}

/// Registering a module in `app_module.rs` is done once: text that a registration
/// produced holds `<Pascal>Module::new()`, so registering the module again changes
/// nothing.
pub proof fn law_patch_app_module_idempotent(content: Seq<char>, snake: Seq<char>, pascal: Seq<char>)
    requires
        spec_patch_app_module(content, snake, pascal) is Ok,
        spec_patch_app_module(content, snake, pascal)->Ok_0 is Some,
    ensures
        contains(spec_patch_app_module(content, snake, pascal)->Ok_0->Some_0, spec_registration(pascal)),
        spec_patch_app_module(spec_patch_app_module(content, snake, pascal)->Ok_0->Some_0, snake, pascal)
            == Ok::<Option<Seq<char>>, CliError>(None),
{
    let c1 = with_use_line(content, snake, pascal);
    let reg = spec_registration(pascal);
    let ctx_line = spec_ctx_line(pascal);
    let c2 = spec_patch_app_module(content, snake, pascal)->Ok_0->Some_0;
    lemma_occurs_between(CTX_PREFIX@, reg, CALL_END@);
    if contains(c1, HEALTH_ANCHOR@) && !contains(c1, ctx_line) {
        let r = HEALTH_ANCHOR@ + seq!['\n'] + ctx_line;
        lemma_replacement_occurs(c1, HEALTH_ANCHOR@, r);
        assert(r =~= (HEALTH_ANCHOR@ + seq!['\n']) + ctx_line + Seq::<char>::empty());
        lemma_occurs_between(HEALTH_ANCHOR@ + seq!['\n'], ctx_line, Seq::<char>::empty());
        let i = first_occurrence(c1, HEALTH_ANCHOR@);
        lemma_occurs_within(c2, r, ctx_line, i, HEALTH_ANCHOR@.len() + 1int);
        lemma_occurs_within(c2, ctx_line, reg, i + HEALTH_ANCHOR@.len() + 1, CTX_PREFIX@.len() as int);
    } else {
        let j = choose|j: int| occurs_at(c1, ctx_line, j);
        lemma_occurs_within(c2, ctx_line, reg, j, CTX_PREFIX@.len() as int);
    }
}

/// Declaring a module in `src/modules/mod.rs` is done once: after `pub mod <name>;` has
/// been merged, merging it again leaves the file as it is (for every name without a
/// newline).
pub proof fn law_mod_line_merged_once(content: Seq<char>, name: Seq<char>)
    requires
        forall|i: int| 0 <= i < name.len() ==> #[trigger] name[i] != '\n',
    ensures
        spec_merge_mod(
            match spec_merge_mod(content, spec_mod_line(name)) {
                Some(c) => c,
                None => content,
            },
            spec_mod_line(name),
        ) is None,
{
    reveal_strlit("pub mod ");
    reveal_strlit(";\n");
    let line = spec_mod_line(name);
    let core = "pub mod "@ + name + seq![';'];
    assert(line =~= core + seq!['\n']);
    lemma_trim_at(line, 0, core.len() as int);
    assert(line.subrange(0, core.len() as int) =~= core);
    assert forall|i: int| 0 <= i < trim(line).len() implies #[trigger] trim(line)[i] != '\n' by {
        if 8 <= i < 8 + name.len() {
            assert(core[i] == name[i - 8]);
        }
    }
    law_merge_mod_idempotent(content, line);
}

/// The leftmost occurrence of `p` in `s` is where `first_occurrence` says.
proof fn lemma_first_occurrence_is_first(s: Seq<char>, p: Seq<char>)
    requires
        contains(s, p),
    ensures
        is_first_occurrence(s, p, first_occurrence(s, p)),
{
    let w = choose|k: int| occurs_at(s, p, k);
    lemma_leftmost_occurrence(s, p, w);
}

/// An occurrence of `q` apart from the leftmost occurrence of `p` survives the
/// replacement of that occurrence.
pub proof fn lemma_occurrence_survives_replacement(
    s: Seq<char>,
    p: Seq<char>,
    r: Seq<char>,
    q: Seq<char>,
    j: int,
)
    requires
        contains(s, p),
        occurs_at(s, q, j),
        j + q.len() <= first_occurrence(s, p) || j >= first_occurrence(s, p) + p.len(),
    ensures
        contains(replace_first(s, p, r), q),
{
    lemma_first_occurrence_is_first(s, p);
    let i = first_occurrence(s, p);
    let out = replace_first(s, p, r);
    assert(out == s.take(i) + r + s.skip(i + p.len()));
    if j + q.len() <= i {
        assert(out.subrange(j, j + q.len()) =~= s.subrange(j, j + q.len()));
        assert(occurs_at(out, q, j));
    } else {
        let k = j - p.len() + r.len();
        assert(out.subrange(k, k + q.len()) =~= s.subrange(j, j + q.len()));
        assert(occurs_at(out, q, k));
    }
}

/// The import line of the module is in the text once it has been added.
proof fn lemma_with_use_line_imports(content: Seq<char>, snake: Seq<char>, pascal: Seq<char>)
    ensures
        contains(with_use_line(content, snake, pascal), spec_use_line(snake, pascal)),
{
    let u = spec_use_line(snake, pascal);
    let c1 = with_use_line(content, snake, pascal);
    if contains(content, u) {
    } else if contains(content, USE_ANCHOR@) {
        let r = USE_ANCHOR@ + seq!['\n'] + u;
        lemma_replacement_occurs(content, USE_ANCHOR@, r);
        assert(r =~= (USE_ANCHOR@ + seq!['\n']) + u + Seq::<char>::empty());
        lemma_occurs_between(USE_ANCHOR@ + seq!['\n'], u, Seq::<char>::empty());
        lemma_occurs_within(c1, r, u, first_occurrence(content, USE_ANCHOR@), USE_ANCHOR@.len() + 1int);
    } else {
        assert(c1 =~= Seq::<char>::empty() + u + (seq!['\n'] + content));
        lemma_occurs_between(Seq::<char>::empty(), u, seq!['\n'] + content);
    }
}

/// No character of `s` is a `.`.
pub open spec fn has_no_dot(s: Seq<char>) -> bool {
    forall|k: int| 0 <= k < s.len() ==> #[trigger] s[k] != '.'
}

/// Joining two texts without `.` gives a text without `.`.
proof fn lemma_no_dot_concat(a: Seq<char>, b: Seq<char>)
    requires
        has_no_dot(a),
        has_no_dot(b),
    ensures
        has_no_dot(a + b),
{
    assert forall|k: int| 0 <= k < (a + b).len() implies #[trigger] (a + b)[k] != '.' by {
        if k < a.len() {
            assert((a + b)[k] == a[k]);
        } else {
            assert((a + b)[k] == b[k - a.len()]);
        }
    }
}

/// The import line holds a `.` only where the module or type name holds one; it starts
/// with `us` and ends with `le;`.
proof fn lemma_use_line_shape(snake: Seq<char>, pascal: Seq<char>)
    requires
        has_no_dot(snake),
        has_no_dot(pascal),
    ensures
        has_no_dot(spec_use_line(snake, pascal)),
        spec_use_line(snake, pascal).len() >= 3,
        spec_use_line(snake, pascal)[0] == 'u',
        spec_use_line(snake, pascal)[1] == 's',
        spec_use_line(snake, pascal)[spec_use_line(snake, pascal).len() - 1] == ';',
        spec_use_line(snake, pascal)[spec_use_line(snake, pascal).len() - 2] == 'e',
        spec_use_line(snake, pascal)[spec_use_line(snake, pascal).len() - 3] == 'l',
{
    reveal_strlit("use crate::modules::");
    reveal_strlit("::");
    reveal_strlit("_module::");
    reveal_strlit("Module;");
    assert(has_no_dot(USE_PREFIX@));
    assert(has_no_dot(PATH_SEP@));
    assert(has_no_dot(MODULE_FILE_SUFFIX@));
    assert(has_no_dot(MODULE_TYPE_SUFFIX@));
    lemma_no_dot_concat(USE_PREFIX@, snake);
    lemma_no_dot_concat(USE_PREFIX@ + snake, PATH_SEP@);
    lemma_no_dot_concat(USE_PREFIX@ + snake + PATH_SEP@, snake);
    lemma_no_dot_concat(USE_PREFIX@ + snake + PATH_SEP@ + snake, MODULE_FILE_SUFFIX@);
    lemma_no_dot_concat(USE_PREFIX@ + snake + PATH_SEP@ + snake + MODULE_FILE_SUFFIX@, pascal);
    lemma_no_dot_concat(
        USE_PREFIX@ + snake + PATH_SEP@ + snake + MODULE_FILE_SUFFIX@ + pascal,
        MODULE_TYPE_SUFFIX@,
    );
    let u = spec_use_line(snake, pascal);
    let x = USE_PREFIX@ + snake + PATH_SEP@ + snake + MODULE_FILE_SUFFIX@ + pascal;
    assert(u == x + MODULE_TYPE_SUFFIX@);
    assert(u[u.len() - 1] == MODULE_TYPE_SUFFIX@[6]);
    assert(u[u.len() - 2] == MODULE_TYPE_SUFFIX@[5]);
    assert(u[u.len() - 3] == MODULE_TYPE_SUFFIX@[4]);
    assert(u[0] == USE_PREFIX@[0]);
    assert(u[1] == USE_PREFIX@[1]);
}

/// An import line of that shape and the `HEALTH_ANCHOR` registration never overlap in a
/// text: the anchor holds a `.` early on and does not start with the import line's last
/// characters, and the import line's `us` does not occur in the anchor.
proof fn lemma_use_line_apart_from_anchor(c: Seq<char>, u: Seq<char>, i: int, j: int)
    requires
        occurs_at(c, u, j),
        occurs_at(c, HEALTH_ANCHOR@, i),
        has_no_dot(u),
        u.len() >= 3,
        u[0] == 'u',
        u[1] == 's',
        u[u.len() - 1] == ';',
        u[u.len() - 2] == 'e',
        u[u.len() - 3] == 'l',
    ensures
        j + u.len() <= i || j >= i + HEALTH_ANCHOR@.len(),
{
    reveal_strlit("ctx.module(HealthModule::new());");
    let h = HEALTH_ANCHOR@;
    assert(h.len() == 32);
    assert forall|k: int| 0 <= k < h.len() implies c[i + k] == #[trigger] h[k] by {
        assert(c.subrange(i, i + h.len())[k] == h[k]);
    }
    assert forall|k: int| 0 <= k < u.len() implies c[j + k] == #[trigger] u[k] by {
        assert(c.subrange(j, j + u.len())[k] == u[k]);
    }
    if j <= i && i < j + u.len() {
        if i + 3 < j + u.len() {
            assert(c[i + 3] == h[3]);
            assert(c[i + 3] == u[i + 3 - j]);
            assert(false);
        } else {
            assert(c[i] == h[0]);
            assert(c[i] == u[i - j]);
            assert(false);
        }
    } else if i < j && j < i + h.len() {
        let d = j - i;
        assert(c[j] == u[0]);
        assert(c[j] == h[d]);
        assert(h[d] == 'u');
        assert(d == 7 || d == 20);
        assert(c[j + 1] == u[1]);
        assert(c[j + 1] == h[d + 1]);
        assert(false);
    }
}

/// A registration that writes `app_module.rs` leaves in it both the import
/// `use crate::modules::<snake>::<snake>_module::<Pascal>Module;` and the registration
/// `        ctx.module(<Pascal>Module::new());`, so the type imported is the type
/// registered. This holds for every module and type name without a `.`.
pub proof fn law_patch_app_module_imports_what_it_registers(
    content: Seq<char>,
    snake: Seq<char>,
    pascal: Seq<char>,
)
    requires
        spec_patch_app_module(content, snake, pascal) is Ok,
        spec_patch_app_module(content, snake, pascal)->Ok_0 is Some,
        forall|k: int| 0 <= k < snake.len() ==> #[trigger] snake[k] != '.',
        forall|k: int| 0 <= k < pascal.len() ==> #[trigger] pascal[k] != '.',
    ensures
        contains(
            spec_patch_app_module(content, snake, pascal)->Ok_0->Some_0,
            "use crate::modules::"@ + snake + "::"@ + snake + "_module::"@ + pascal + "Module;"@,
        ),
        contains(
            spec_patch_app_module(content, snake, pascal)->Ok_0->Some_0,
            "        ctx.module("@ + pascal + "Module::new());"@,
        ),
{
    reveal_strlit("        ctx.module(");
    reveal_strlit("Module::new()");
    reveal_strlit(");");
    reveal_strlit("Module::new());");
    let u = spec_use_line(snake, pascal);
    let c1 = with_use_line(content, snake, pascal);
    let ctx_line = spec_ctx_line(pascal);
    let c2 = spec_patch_app_module(content, snake, pascal)->Ok_0->Some_0;
    assert(ctx_line =~= "        ctx.module("@ + pascal + "Module::new());"@);
    lemma_with_use_line_imports(content, snake, pascal);
    lemma_use_line_shape(snake, pascal);
    if contains(c1, HEALTH_ANCHOR@) && !contains(c1, ctx_line) {
        let r = HEALTH_ANCHOR@ + seq!['\n'] + ctx_line;
        lemma_replacement_occurs(c1, HEALTH_ANCHOR@, r);
        assert(r =~= (HEALTH_ANCHOR@ + seq!['\n']) + ctx_line + Seq::<char>::empty());
        lemma_occurs_between(HEALTH_ANCHOR@ + seq!['\n'], ctx_line, Seq::<char>::empty());
        let i = first_occurrence(c1, HEALTH_ANCHOR@);
        lemma_occurs_within(c2, r, ctx_line, i, HEALTH_ANCHOR@.len() + 1int);
        lemma_first_occurrence_is_first(c1, HEALTH_ANCHOR@);
        let j = choose|j: int| occurs_at(c1, u, j);
        lemma_use_line_apart_from_anchor(c1, u, i, j);
        lemma_occurrence_survives_replacement(c1, HEALTH_ANCHOR@, r, u, j);
    }
}

} // verus!
