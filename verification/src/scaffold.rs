//! What `rezis new` and `rezis g …` write: the files of a new project, the manifest's
//! dependency on rezis, and for each generator the files, `mod.rs` lines and
//! registrations it makes. The commands read and write the file system through these
//! plans; every path here is relative to the project root.

use vstd::prelude::*;

use crate::cli::{CliError, GenCommands};
use crate::names::{pascal_case, snake_identifier, spec_pascal_case, spec_snake_identifier};
use crate::template::{
    binding, bindings_view, lemma_matching_binding, lemma_matching_binding_first, lemma_render_lone_brace, lemma_render_no_brace,
    lemma_render_split, matching_binding, placeholder, render, render_template,
};
use crate::templates::{
    MODULE_TEMPLATE, CONTROLLER_STUB_TEMPLATE, SERVICE_STUB_TEMPLATE, DTO_TEMPLATE, SERVICE_TEMPLATE, CONTROLLER_TEMPLATE, RESOURCE_MODULE_TEMPLATE, RESOURCE_MOD_TEMPLATE, CARGO_TOML_HEAD_TEMPLATE, CARGO_TOML_TAIL, README_MD, DOTENV, MAIN_RS, APP_MODULE_RS, HEALTH_MOD_RS, HEALTH_CONTROLLER_RS, HEALTH_MODULE_RS, COMMON_ERROR_RS, COMMON_RESPONSE_RS, COMMON_CONFIG_RS, REZIS_PATH_DEP_TEMPLATE, REZIS_VERSION_DEP, VERBATIM_PREFIX, MODULE_DIR_PATH, MODULE_MOD_RS_PATH, MODULE_FILE_PATH, CONTROLLER_FILE_PATH, SERVICE_FILE_PATH, DTO_FILE_PATH, MODULE_MOD_LINE, CONTROLLER_MOD_LINE, SERVICE_MOD_LINE, DTO_MOD_LINE, MODULE_DONE, CONTROLLER_DONE, SERVICE_DONE, DTO_DONE, RESOURCE_DONE, PROJECT_DONE, MODULES_MOD_RS, HEALTH_DIR, COMMON_DIR,
};
use crate::text::{chars_of, extend_chars, matches_at, occurs_at, slice_chars, string_of};

verus! {

/// A file to write: its path relative to the project root, and its content.
#[derive(Debug)]
pub struct ScaffoldFile {
    pub path: String,
    pub content: String,
}

/// The files as (path, content) pairs.
pub open spec fn files_view(fs: Seq<ScaffoldFile>) -> Seq<(Seq<char>, Seq<char>)> {
    fs.map_values(|f: ScaffoldFile| (f.path@, f.content@))
}

/// `s` with every `\` turned into `/`.
pub open spec fn backslashes_to_slashes(s: Seq<char>) -> Seq<char> {
    s.map_values(|c: char| if c == '\\' { '/' } else { c })
}

/// The manifest form of a canonical path: without the Windows verbatim prefix `\\?\`
/// (which Cargo rejects), and with `/` for every `\`.
pub open spec fn spec_normalize_path(raw: Seq<char>) -> Seq<char> {
    let rest = if occurs_at(raw, VERBATIM_PREFIX@, 0) {
        raw.skip(VERBATIM_PREFIX@.len() as int)
    } else {
        raw
    };
    backslashes_to_slashes(rest)
}

/// Absolute path string safe for `Cargo.toml` `path = "..."` on Windows (Cargo rejects
/// `\\?\` verbatim paths); `raw` is the canonical path as text.
pub fn normalize_path_for_manifest(raw: &str) -> (r: String)
    ensures
        r@ == spec_normalize_path(raw@),
{
    let v = chars_of(raw);
    let prefix = chars_of(VERBATIM_PREFIX);
    let rest = if matches_at(&v, &prefix, 0) {
        slice_chars(&v, prefix.len(), v.len())
    } else {
        slice_chars(&v, 0, v.len())
    };
    assert(v@.subrange(prefix@.len() as int, v@.len() as int) =~= v@.skip(prefix@.len() as int));
    assert(v@.subrange(0, v@.len() as int) =~= v@);
    let mut out: Vec<char> = Vec::new();
    let mut i: usize = 0;
    while i < rest.len()
        invariant
            i <= rest.len(),
            out@ == backslashes_to_slashes(rest@.take(i as int)),
        decreases rest.len() - i,
    {
        let c = rest[i];
        out.push(if c == '\\' { '/' } else { c });
        assert(backslashes_to_slashes(rest@.take(i + 1)) =~= backslashes_to_slashes(
            rest@.take(i as int),
        ).push(if c == '\\' { '/' } else { c }));
        i += 1;
    }
    assert(rest@.take(rest.len() as int) =~= rest@);
    string_of(&out)
}

/// The manifest's dependency line on rezis: a path dependency on the checkout at
/// `rezis_path` (a canonical path, normalized for the manifest), else the published
/// version.
pub open spec fn spec_rezis_dep(rezis_path: Option<Seq<char>>) -> Seq<char> {
    match rezis_path {
        Some(p) => render(REZIS_PATH_DEP_TEMPLATE@, seq![("path_str"@, spec_normalize_path(p))]),
        None => REZIS_VERSION_DEP@,
    }
}

/// The head of the manifest of a new project named `package_name`: its `[package]`
/// section and the `[dependencies]` header, ending with a newline.
pub open spec fn spec_manifest_head(package_name: Seq<char>) -> Seq<char> {
    render(CARGO_TOML_HEAD_TEMPLATE@, seq![("package_name"@, package_name)])
}

/// The manifest of a new project named `package_name`: the head, the dependency line on
/// rezis, and the other dependencies.
pub open spec fn spec_cargo_toml(package_name: Seq<char>, rezis_path: Option<Seq<char>>) -> Seq<
    char,
> {
    spec_manifest_head(package_name) + spec_rezis_dep(rezis_path) + CARGO_TOML_TAIL@
}

/// An optional text, by its view.
pub open spec fn opt_view(o: Option<&str>) -> Option<Seq<char>> {
    match o {
        Some(s) => Some(s@),
        None => None,
    }
}

/// The manifest of a new project named `package_name`, depending on the rezis checkout at
/// the canonical path `rezis_path` where one is given, else on the published rezis.
pub fn cargo_toml(package_name: &str, rezis_path: Option<&str>) -> (r: String)
    ensures
        r@ == spec_cargo_toml(package_name@, opt_view(rezis_path)),
{
    let dep = match rezis_path {
        Some(p) => {
            let path_str = normalize_path_for_manifest(p);
            let mut b: Vec<(Vec<char>, Vec<char>)> = Vec::new();
            b.push(binding("path_str", path_str.as_str()));
            assert(bindings_view(b@) =~= seq![("path_str"@, spec_normalize_path(p@))]);
            render_template(REZIS_PATH_DEP_TEMPLATE, &b)
        },
        None => String::from_str(REZIS_VERSION_DEP),
    };
    let mut b: Vec<(Vec<char>, Vec<char>)> = Vec::new();
    b.push(binding("package_name", package_name));
    assert(bindings_view(b@) =~= seq![("package_name"@, package_name@)]);
    let head = render_template(CARGO_TOML_HEAD_TEMPLATE, &b);
    let mut out = chars_of(head.as_str());
    extend_chars(&mut out, &chars_of(dep.as_str()));
    extend_chars(&mut out, &chars_of(CARGO_TOML_TAIL));
    string_of(&out)
}

/// A new project: the directories to create and the files to write, in order.
#[derive(Debug)]
pub struct NewProject {
    pub dirs: Vec<String>,
    pub files: Vec<ScaffoldFile>,
}

/// The files of a new project named `package_name`, in the order they are written.
pub open spec fn spec_new_project_files(package_name: Seq<char>, rezis_path: Option<Seq<char>>) -> Seq<
    (Seq<char>, Seq<char>),
> {
    seq![
        ("Cargo.toml"@, spec_cargo_toml(package_name, rezis_path)),
        ("README.md"@, README_MD@),
        (".env.example"@, DOTENV@),
        (".env"@, DOTENV@),
        ("src/main.rs"@, MAIN_RS@),
        ("src/app_module.rs"@, APP_MODULE_RS@),
        ("src/modules/mod.rs"@, MODULES_MOD_RS@),
        ("src/modules/health/mod.rs"@, HEALTH_MOD_RS@),
        ("src/modules/health/health_controller.rs"@, HEALTH_CONTROLLER_RS@),
        ("src/modules/health/health_module.rs"@, HEALTH_MODULE_RS@),
        ("src/common/error.rs"@, COMMON_ERROR_RS@),
        ("src/common/response.rs"@, COMMON_RESPONSE_RS@),
        ("src/common/config.rs"@, COMMON_CONFIG_RS@),
    ]
}

fn file(path: &str, content: String) -> (f: ScaffoldFile)
    ensures
        f.path@ == path@,
        f.content@ == content@,
{
    ScaffoldFile { path: String::from_str(path), content }
}

/// The layout of a new project named `package_name` (see `cargo_toml` for `rezis_path`).
pub fn new_project(package_name: &str, rezis_path: Option<&str>) -> (p: NewProject)
    ensures
        p.dirs@.map_values(|d: String| d@) == seq![HEALTH_DIR@, COMMON_DIR@],
        files_view(p.files@) == spec_new_project_files(package_name@, opt_view(rezis_path)),
{
    let mut dirs: Vec<String> = Vec::new();
    dirs.push(String::from_str(HEALTH_DIR));
    dirs.push(String::from_str(COMMON_DIR));
    let mut files: Vec<ScaffoldFile> = Vec::new();
    files.push(file("Cargo.toml", cargo_toml(package_name, rezis_path)));
    files.push(file("README.md", String::from_str(README_MD)));
    files.push(file(".env.example", String::from_str(DOTENV)));
    files.push(file(".env", String::from_str(DOTENV)));
    files.push(file("src/main.rs", String::from_str(MAIN_RS)));
    files.push(file("src/app_module.rs", String::from_str(APP_MODULE_RS)));
    files.push(file("src/modules/mod.rs", String::from_str(MODULES_MOD_RS)));
    files.push(file("src/modules/health/mod.rs", String::from_str(HEALTH_MOD_RS)));
    files.push(
        file("src/modules/health/health_controller.rs", String::from_str(HEALTH_CONTROLLER_RS)),
    );
    files.push(file("src/modules/health/health_module.rs", String::from_str(HEALTH_MODULE_RS)));
    files.push(file("src/common/error.rs", String::from_str(COMMON_ERROR_RS)));
    files.push(file("src/common/response.rs", String::from_str(COMMON_RESPONSE_RS)));
    files.push(file("src/common/config.rs", String::from_str(COMMON_CONFIG_RS)));
    assert(dirs@.map_values(|d: String| d@) =~= seq![HEALTH_DIR@, COMMON_DIR@]);
    assert(files_view(files@) =~= spec_new_project_files(package_name@, opt_view(rezis_path)));
    NewProject { dirs, files }
}

/// Whether `rezis new` may go on at a project directory shown as `root`: refused where it
/// exists and `force` is not set; otherwise `Ok(true)` where it exists and is to be
/// removed first.
pub fn check_destination(root: &str, exists: bool, force: bool) -> (r: Result<bool, CliError>)
    ensures
        exists && !force ==> (r matches Err(CliError::DestinationExists(p)) && p@ == root@),
        !(exists && !force) ==> r == Ok::<bool, CliError>(exists && force),
{
    if exists && !force {
        return Err(CliError::DestinationExists(String::from_str(root)));
    }
    Ok(exists && force)
}

/// Whether a file shown as `path` may be written: refused where it exists and `force` is
/// not set.
pub fn check_overwrite(path: &str, exists: bool, force: bool) -> (r: Result<(), CliError>)
    ensures
        exists && !force ==> (r matches Err(CliError::RefuseOverwrite(p)) && p@ == path@),
        !(exists && !force) ==> r is Ok,
{
    if exists && !force {
        return Err(CliError::RefuseOverwrite(String::from_str(path)));
    }
    Ok(())
}

/// The report of a project created as `package` at the directory shown as `root`.
pub fn created_message(package: &str, root: &str) -> (m: String)
    ensures
        m@ == render(PROJECT_DONE@, seq![("package"@, package@), ("root"@, root@)]),
{
    let mut b: Vec<(Vec<char>, Vec<char>)> = Vec::new();
    b.push(binding("package", package));
    b.push(binding("root", root));
    assert(bindings_view(b@) =~= seq![("package"@, package@), ("root"@, root@)]);
    render_template(PROJECT_DONE, &b)
}

/// What `rezis g` generates.
#[derive(Debug, Clone, Copy, PartialEq, Eq, Structural)]
pub enum GenKind {
    Module,
    Controller,
    Service,
    Dto,
    Resource,
}

/// What one `rezis g` command does, once the project root is found.
#[derive(Debug)]
pub struct GenPlan {
    /// The snake-case module name.
    pub snake: String,
    /// Its PascalCase type-name stem.
    pub pascal: String,
    /// The module directory.
    pub module_dir: String,
    /// `true`: the module directory is created; `false`: it must exist already.
    pub create_dir: bool,
    /// The files to write, in order.
    pub files: Vec<ScaffoldFile>,
    /// Whether existing files are overwritten.
    pub force: bool,
    /// A line to merge into the module directory's `mod.rs`.
    pub mod_rs_line: Option<String>,
    /// Whether the module is declared in `src/modules/mod.rs` and registered in
    /// `src/app_module.rs`.
    pub register: bool,
    /// The report once everything is done.
    pub done_message: String,
}

/// The text bound to the template keys for module `sn` with type-name stem `pascal`.
pub open spec fn gen_bindings(sn: Seq<char>, pascal: Seq<char>) -> Seq<(Seq<char>, Seq<char>)> {
    seq![
        ("sn"@, sn),
        ("pascal"@, pascal),
        ("dto_name"@, "Create"@ + pascal + "Dto"@),
        ("item"@, pascal + "Item"@),
    ]
}

/// The files a generator writes for module `sn`.
pub open spec fn spec_gen_files(kind: GenKind, sn: Seq<char>, pascal: Seq<char>) -> Seq<
    (Seq<char>, Seq<char>),
> {
    let b = gen_bindings(sn, pascal);
    match kind {
        GenKind::Module => seq![
            (render(MODULE_FILE_PATH@, b), render(MODULE_TEMPLATE@, b)),
            (render(MODULE_MOD_RS_PATH@, b), render(MODULE_MOD_LINE@, b)),
        ],
        GenKind::Controller => seq![
            (render(CONTROLLER_FILE_PATH@, b), render(CONTROLLER_STUB_TEMPLATE@, b)),
        ],
        GenKind::Service => seq![(render(SERVICE_FILE_PATH@, b), render(SERVICE_STUB_TEMPLATE@, b))],
        GenKind::Dto => seq![(render(DTO_FILE_PATH@, b), render(DTO_TEMPLATE@, b))],
        GenKind::Resource => seq![
            (render(DTO_FILE_PATH@, b), render(DTO_TEMPLATE@, b)),
            (render(SERVICE_FILE_PATH@, b), render(SERVICE_TEMPLATE@, b)),
            (render(CONTROLLER_FILE_PATH@, b), render(CONTROLLER_TEMPLATE@, b)),
            (render(MODULE_FILE_PATH@, b), render(RESOURCE_MODULE_TEMPLATE@, b)),
            (render(MODULE_MOD_RS_PATH@, b), render(RESOURCE_MOD_TEMPLATE@, b)),
        ],
    }
}

/// The line a stub generator merges into the module's `mod.rs`.
pub open spec fn spec_gen_mod_line(kind: GenKind, sn: Seq<char>, pascal: Seq<char>) -> Option<
    Seq<char>,
> {
    let b = gen_bindings(sn, pascal);
    match kind {
        GenKind::Controller => Some(render(CONTROLLER_MOD_LINE@, b)),
        GenKind::Service => Some(render(SERVICE_MOD_LINE@, b)),
        GenKind::Dto => Some(render(DTO_MOD_LINE@, b)),
        _ => None,
    }
}

/// The report of a generator.
pub open spec fn spec_gen_done(kind: GenKind, sn: Seq<char>, pascal: Seq<char>) -> Seq<char> {
    let b = gen_bindings(sn, pascal);
    match kind {
        GenKind::Module => render(MODULE_DONE@, b),
        GenKind::Controller => render(CONTROLLER_DONE@, b),
        GenKind::Service => render(SERVICE_DONE@, b),
        GenKind::Dto => render(DTO_DONE@, b),
        GenKind::Resource => render(RESOURCE_DONE@, b),
    }
}

/// An optional `String`, by its view.
pub open spec fn opt_string_view(o: Option<String>) -> Option<Seq<char>> {
    match o {
        Some(s) => Some(s@),
        None => None,
    }
}

/// `p` is what the generator `kind` does for the name `name`.
pub open spec fn is_gen_plan(p: GenPlan, kind: GenKind, name: Seq<char>, force: bool) -> bool {
    &&& spec_snake_identifier(name) == Ok::<Seq<char>, CliError>(p.snake@)
    &&& p.pascal@ == spec_pascal_case(p.snake@)
    &&& p.module_dir@ == render(MODULE_DIR_PATH@, gen_bindings(p.snake@, p.pascal@))
    &&& p.create_dir == (kind == GenKind::Module || kind == GenKind::Resource)
    &&& files_view(p.files@) == spec_gen_files(kind, p.snake@, p.pascal@)
    &&& p.force == force
    &&& opt_string_view(p.mod_rs_line) == spec_gen_mod_line(kind, p.snake@, p.pascal@)
    &&& p.register == (kind == GenKind::Module || kind == GenKind::Resource)
    &&& p.done_message@ == spec_gen_done(kind, p.snake@, p.pascal@)
}

/// The template bindings for module `sn` with type-name stem `pascal`.
fn gen_binding_list(sn: &str, pascal: &str) -> (b: Vec<(Vec<char>, Vec<char>)>)
    ensures
        bindings_view(b@) == gen_bindings(sn@, pascal@),
{
    let mut dto = chars_of("Create");
    let p = chars_of(pascal);
    extend_chars(&mut dto, &p);
    extend_chars(&mut dto, &chars_of("Dto"));
    let mut item = chars_of(pascal);
    extend_chars(&mut item, &chars_of("Item"));
    let mut b: Vec<(Vec<char>, Vec<char>)> = Vec::new();
    b.push(binding("sn", sn));
    b.push(binding("pascal", pascal));
    b.push((chars_of("dto_name"), dto));
    b.push((chars_of("item"), item));
    assert(bindings_view(b@) =~= gen_bindings(sn@, pascal@));
    b
}

fn rendered_file(
    path: &str,
    template: &str,
    b: &Vec<(Vec<char>, Vec<char>)>,
) -> (f: ScaffoldFile)
    ensures
        f.path@ == render(path@, bindings_view(b@)),
        f.content@ == render(template@, bindings_view(b@)),
{
    ScaffoldFile { path: render_template(path, b), content: render_template(template, b) }
}

/// What the generator `kind` does for the name `name`: the files, `mod.rs` line and
/// registration for the module `snake_identifier(name)`; refused where `name` is not a
/// snake identifier.
pub fn plan_generate(kind: GenKind, name: &str, force: bool) -> (r: Result<GenPlan, CliError>)
    ensures
        match r {
            Ok(p) => is_gen_plan(p, kind, name@, force),
            Err(e) => spec_snake_identifier(name@) == Err::<Seq<char>, CliError>(e),
        },
{
    let snake = match snake_identifier(name) {
        Ok(s) => s,
        Err(e) => return Err(e),
    };
    let pascal = pascal_case(snake.as_str());
    let b = gen_binding_list(snake.as_str(), pascal.as_str());
    let ghost bv = gen_bindings(snake@, pascal@);
    let module_dir = render_template(MODULE_DIR_PATH, &b);
    let mut files: Vec<ScaffoldFile> = Vec::new();
    let mod_rs_line;
    let done_message;
    match kind {
        GenKind::Module => {
            files.push(rendered_file(MODULE_FILE_PATH, MODULE_TEMPLATE, &b));
            files.push(rendered_file(MODULE_MOD_RS_PATH, MODULE_MOD_LINE, &b));
            mod_rs_line = None;
            done_message = render_template(MODULE_DONE, &b);
        },
        GenKind::Controller => {
            files.push(rendered_file(CONTROLLER_FILE_PATH, CONTROLLER_STUB_TEMPLATE, &b));
            mod_rs_line = Some(render_template(CONTROLLER_MOD_LINE, &b));
            done_message = render_template(CONTROLLER_DONE, &b);
        },
        GenKind::Service => {
            files.push(rendered_file(SERVICE_FILE_PATH, SERVICE_STUB_TEMPLATE, &b));
            mod_rs_line = Some(render_template(SERVICE_MOD_LINE, &b));
            done_message = render_template(SERVICE_DONE, &b);
        },
        GenKind::Dto => {
            files.push(rendered_file(DTO_FILE_PATH, DTO_TEMPLATE, &b));
            mod_rs_line = Some(render_template(DTO_MOD_LINE, &b));
            done_message = render_template(DTO_DONE, &b);
        },
        GenKind::Resource => {
            files.push(rendered_file(DTO_FILE_PATH, DTO_TEMPLATE, &b));
            files.push(rendered_file(SERVICE_FILE_PATH, SERVICE_TEMPLATE, &b));
            files.push(rendered_file(CONTROLLER_FILE_PATH, CONTROLLER_TEMPLATE, &b));
            files.push(rendered_file(MODULE_FILE_PATH, RESOURCE_MODULE_TEMPLATE, &b));
            files.push(rendered_file(MODULE_MOD_RS_PATH, RESOURCE_MOD_TEMPLATE, &b));
            mod_rs_line = None;
            done_message = render_template(RESOURCE_DONE, &b);
        },
    }
    assert(files_view(files@) =~= spec_gen_files(kind, snake@, pascal@));
    let creates = match kind {
        GenKind::Module | GenKind::Resource => true,
        _ => false,
    };
    Ok(
        GenPlan {
            snake,
            pascal,
            module_dir,
            create_dir: creates,
            files,
            force,
            mod_rs_line,
            register: creates,
            done_message,
        },
    )
}

/// The generator, name and `--force` flag of a `rezis g` command.
pub open spec fn gen_parts(gen: GenCommands) -> (GenKind, Seq<char>, bool) {
    match gen {
        GenCommands::Module { name, force } => (GenKind::Module, name@, force),
        GenCommands::Controller { name, force } => (GenKind::Controller, name@, force),
        GenCommands::Service { name, force } => (GenKind::Service, name@, force),
        GenCommands::Dto { name, force } => (GenKind::Dto, name@, force),
        GenCommands::Resource { name, force } => (GenKind::Resource, name@, force),
    }
}

/// What a `rezis g` command does (see `plan_generate`).
pub fn cmd_generate(gen: &GenCommands) -> (r: Result<GenPlan, CliError>)
    ensures
        match r {
            Ok(p) => is_gen_plan(p, gen_parts(*gen).0, gen_parts(*gen).1, gen_parts(*gen).2),
            Err(e) => spec_snake_identifier(gen_parts(*gen).1) == Err::<Seq<char>, CliError>(e),
        },
{
    match gen {
        GenCommands::Module { name, force } => plan_generate(GenKind::Module, name.as_str(), *force),
        GenCommands::Controller { name, force } => plan_generate(
            GenKind::Controller,
            name.as_str(),
            *force,
        ),
        GenCommands::Service { name, force } => plan_generate(GenKind::Service, name.as_str(), *force),
        GenCommands::Dto { name, force } => plan_generate(GenKind::Dto, name.as_str(), *force),
        GenCommands::Resource { name, force } => plan_generate(
            GenKind::Resource,
            name.as_str(),
            *force,
        ),
    }
}

/// A rendered text whose template ends a line ends that line too, where no key holds a
/// newline.
pub proof fn lemma_render_ends_line(t: Seq<char>, b: Seq<(Seq<char>, Seq<char>)>)
    requires
        t.len() > 0,
        t.last() == '\n',
        forall|k: int, j: int|
            0 <= k < b.len() && 0 <= j < b[k].0.len() ==> #[trigger] b[k].0[j] != '\n',
    ensures
        render(t, b).len() > 0,
        render(t, b).last() == '\n',
    decreases t.len(),
{
    lemma_matching_binding(t, b);
    match matching_binding(t, b) {
        Some(k) => {
            let w = placeholder(b[k].0).len() as int;
            if w == t.len() {
                // the placeholder would end on the newline, but it ends with `}`
                assert(t.subrange(0, w)[w - 1] == placeholder(b[k].0)[w - 1]);
                assert(false);
            }
            let rest = t.skip(w);
            assert(rest.last() == t.last());
            lemma_render_ends_line(rest, b);
            assert(render(t, b) == b[k].1 + render(rest, b));
        },
        None => {
            let rest = t.drop_first();
            if rest.len() == 0 {
                assert(render(rest, b) =~= Seq::<char>::empty());
                assert(render(t, b) =~= seq![t[0]]);
            } else {
                assert(rest.last() == t.last());
                lemma_render_ends_line(rest, b);
                assert(render(t, b) == seq![t[0]] + render(rest, b));
            }
        },
    }
}

/// The manifest written with a rezis checkout differs from the one written with the
/// published rezis only in the rezis dependency line: both are the same head, which ends a
/// line, then the dependency line, then the same remaining dependencies, which start on a
/// new line.
pub proof fn law_manifest_differs_only_in_rezis_line(package_name: Seq<char>, rezis_path: Seq<char>)
    ensures
        spec_cargo_toml(package_name, None) == spec_manifest_head(package_name)
            + REZIS_VERSION_DEP@ + CARGO_TOML_TAIL@,
        spec_cargo_toml(package_name, Some(rezis_path)) == spec_manifest_head(package_name)
            + render(REZIS_PATH_DEP_TEMPLATE@, seq![("path_str"@, spec_normalize_path(rezis_path))])
            + CARGO_TOML_TAIL@,
        spec_manifest_head(package_name).len() > 0,
        spec_manifest_head(package_name).last() == '\n',
        CARGO_TOML_TAIL@.len() > 0,
        CARGO_TOML_TAIL@[0] == '\n',
        forall|i: int| 0 <= i < REZIS_VERSION_DEP@.len() ==> #[trigger] REZIS_VERSION_DEP@[i] != '\n',
{
    reveal_strlit("package_name");
    reveal_strlit(r##"rezis = "0.1.0-alpha.1""##);
    reveal_strlit(r##"[package]
name = "{package_name}"
version = "0.1.0"
edition = "2021"

[dependencies]
"##);
    reveal_strlit(r##"
serde = { version = "1", features = ["derive"] }
serde_json = "1"
tokio = { version = "1", features = ["macros", "rt-multi-thread"] }
validator = { version = "0.20", features = ["derive"] }
"##);
    let b = seq![("package_name"@, package_name)];
    assert forall|k: int, j: int| 0 <= k < b.len() && 0 <= j < b[k].0.len() implies #[trigger] b[k].0[j]
        != '\n' by {
        assert(b[k].0 == "package_name"@);
    }
    lemma_render_ends_line(CARGO_TOML_HEAD_TEMPLATE@, b);
}

/// Normalizing a path for the manifest changes nothing but the leading verbatim prefix
/// `\\?\`, which is dropped, and backslashes, which become `/`: every other character is
/// kept, in its place. So a path without a backslash is returned as it is.
pub proof fn law_normalize_path_keeps_other_chars(raw: Seq<char>)
    ensures
        raw.len() >= 4 && raw.take(4) == seq!['\\', '\\', '?', '\\'] ==> spec_normalize_path(raw).len()
            == raw.len() - 4 && forall|i: int|
            0 <= i < raw.len() - 4 ==> #[trigger] spec_normalize_path(raw)[i] == (if raw[i + 4]
                == '\\' {
                '/'
            } else {
                raw[i + 4]
            }),
        !(raw.len() >= 4 && raw.take(4) == seq!['\\', '\\', '?', '\\']) ==> spec_normalize_path(
            raw,
        ).len() == raw.len() && forall|i: int|
            0 <= i < raw.len() ==> #[trigger] spec_normalize_path(raw)[i] == (if raw[i] == '\\' {
                '/'
            } else {
                raw[i]
            }),
        (forall|i: int| 0 <= i < raw.len() ==> #[trigger] raw[i] != '\\') ==> spec_normalize_path(raw)
            == raw,
{
    reveal_strlit(r##"\\?\"##);
    let pre = seq!['\\', '\\', '?', '\\'];
    assert(VERBATIM_PREFIX@ =~= pre);
    if raw.len() >= 4 && raw.take(4) == pre {
        assert(occurs_at(raw, VERBATIM_PREFIX@, 0)) by {
            assert(raw.subrange(0, 4) =~= raw.take(4));
        }
    } else {
        assert(!occurs_at(raw, VERBATIM_PREFIX@, 0)) by {
            if occurs_at(raw, VERBATIM_PREFIX@, 0) {
                assert(raw.subrange(0, 4) =~= raw.take(4));
            }
        }
    }
    if forall|i: int| 0 <= i < raw.len() ==> #[trigger] raw[i] != '\\' {
        if raw.len() >= 4 {
            assert(raw[0] != '\\');
            assert(raw.take(4)[0] != pre[0]);
        }
        assert(spec_normalize_path(raw) =~= raw);
    }
}

/// No key bound for a generator holds a space, a newline or a `{`.
proof fn lemma_gen_keys_plain(sn: Seq<char>, pascal: Seq<char>)
    ensures
        forall|k: int, j: int|
            0 <= k < gen_bindings(sn, pascal).len() && 0 <= j < gen_bindings(sn, pascal)[k].0.len()
                ==> #[trigger] gen_bindings(sn, pascal)[k].0[j] != ' ' && gen_bindings(sn, pascal)[k].0[j]
                != '\n' && gen_bindings(sn, pascal)[k].0[j] != '{',
        forall|k: int|
            0 <= k < gen_bindings(sn, pascal).len() ==> #[trigger] gen_bindings(sn, pascal)[k].0.len()
                > 0 && 'a' <= gen_bindings(sn, pascal)[k].0[0] && gen_bindings(sn, pascal)[k].0[0] <= 'z',
{
    reveal_strlit("sn");
    reveal_strlit("pascal");
    reveal_strlit("dto_name");
    reveal_strlit("item");
    let b = gen_bindings(sn, pascal);
    assert(b[0].0 == "sn"@);
    assert(b[1].0 == "pascal"@);
    assert(b[2].0 == "dto_name"@);
    assert(b[3].0 == "item"@);
}

/// The DTO a generator writes is named `Create<Pascal>Dto`, after the type-name stem.
proof fn lemma_dto_render(sn: Seq<char>, pascal: Seq<char>)
    ensures
        render(DTO_TEMPLATE@, gen_bindings(sn, pascal)) == "use serde::Deserialize;\nuse validator::Validate;\n\n#[derive(Debug, Deserialize, Validate)]\npub struct "@
            + ("Create"@ + pascal + "Dto"@)
            + " {\n    #[validate(length(min = 1))]\n    pub name: String,\n}\n"@,
{
    reveal_strlit(r##"use serde::Deserialize;
use validator::Validate;

#[derive(Debug, Deserialize, Validate)]
pub struct {dto_name} {
    #[validate(length(min = 1))]
    pub name: String,
}
"##);
    reveal_strlit("use serde::Deserialize;\nuse validator::Validate;\n\n#[derive(Debug, Deserialize, Validate)]\npub struct ");
    reveal_strlit(" {\n    #[validate(length(min = 1))]\n    pub name: String,\n}\n");
    reveal_strlit("{dto_name}");
    reveal_strlit("dto_name");
    reveal_strlit("sn");
    reveal_strlit("pascal");
    let a = "use serde::Deserialize;\nuse validator::Validate;\n\n#[derive(Debug, Deserialize, Validate)]\npub struct "@;
    let tail = " {\n    #[validate(length(min = 1))]\n    pub name: String,\n}\n"@;
    let hole = "{dto_name}"@;
    let b = gen_bindings(sn, pascal);
    lemma_gen_keys_plain(sn, pascal);
    assert(DTO_TEMPLATE@ =~= a + (hole + tail));
    // the text before the type name has no placeholder
    assert(a.last() == ' ');
    lemma_render_split(a, hole + tail, b);
    lemma_render_no_brace(a, b);
    // the type name
    let rest = hole + tail;
    assert(b[2].0 == "dto_name"@);
    assert(rest.subrange(0, 10) =~= placeholder(b[2].0));
    assert forall|i: int| 0 <= i < 2 implies !occurs_at(rest, placeholder(#[trigger] b[i].0), 0) by {
        if occurs_at(rest, placeholder(b[i].0), 0) {
            assert(rest.subrange(0, placeholder(b[i].0).len() as int)[1] == placeholder(b[i].0)[1]);
            assert(b[0].0 == "sn"@);
            assert(b[1].0 == "pascal"@);
        }
    }
    lemma_matching_binding_first(rest, b, 2);
    assert(rest.skip(10) =~= tail);
    assert(render(rest, b) == b[2].1 + render(tail, b));
    // the text after it: a space, then a `{` that opens the struct's body
    let body = tail.drop_first();
    assert(tail =~= seq![' '] + body);
    lemma_render_split(seq![' '], body, b);
    lemma_render_no_brace(seq![' '], b);
    lemma_render_lone_brace(body, b);
    lemma_render_no_brace(body.drop_first(), b);
    assert(seq!['{'] + body.drop_first() =~= body);
}

/// A DTO generator (`rezis g dto` or `rezis g resource`) writes first the DTO, named
/// `Create<Pascal>Dto` after the same PascalCase stem that names the module's other
/// types.
pub proof fn law_generated_dto_is_named_after_the_type(
    p: GenPlan,
    kind: GenKind,
    name: Seq<char>,
    force: bool,
)
    requires
        is_gen_plan(p, kind, name, force),
        kind == GenKind::Dto || kind == GenKind::Resource,
    ensures
        files_view(p.files@).len() > 0,
        files_view(p.files@)[0].1 == "use serde::Deserialize;\nuse validator::Validate;\n\n#[derive(Debug, Deserialize, Validate)]\npub struct "@
            + "Create"@ + p.pascal@ + "Dto"@
            + " {\n    #[validate(length(min = 1))]\n    pub name: String,\n}\n"@,
        p.pascal@ == spec_pascal_case(p.snake@),
{
    lemma_dto_render(p.snake@, p.pascal@);
}

/// With a rezis checkout the manifest depends on it by path: its dependency line is
/// `rezis = { path = "<path>" }` with the normalized path written in unchanged, between
/// the same head and remaining dependencies as always.
pub proof fn law_manifest_depends_on_the_checkout_path(package_name: Seq<char>, rezis_path: Seq<char>)
    ensures
        spec_cargo_toml(package_name, Some(rezis_path)) == spec_manifest_head(package_name)
            + "rezis = { path = \""@ + spec_normalize_path(rezis_path) + "\" }"@ + CARGO_TOML_TAIL@,
{
    reveal_strlit(r##"rezis = { path = "{path_str}" }"##);
    reveal_strlit("rezis = { path = \"");
    reveal_strlit("\" }");
    reveal_strlit("path_str");
    reveal_strlit("{path_str}");
    let v = spec_normalize_path(rezis_path);
    let b = seq![("path_str"@, v)];
    let x1 = "rezis = "@;
    let x2 = " path = \""@;
    let hole = "{path_str}"@;
    let end = "\" }"@;
    reveal_strlit("rezis = ");
    reveal_strlit(" path = \"");
    let t = REZIS_PATH_DEP_TEMPLATE@;
    let y = seq!['{'] + (x2 + (hole + end));
    assert(t =~= x1 + y);
    assert forall|k: int, j: int| 0 <= k < b.len() && 0 <= j < b[k].0.len() implies #[trigger] b[k].0[j]
        != ' ' && b[k].0[j] != '"' by {
        assert(b[k].0 == "path_str"@);
    }
    // `rezis = `
    lemma_render_split(x1, y, b);
    lemma_render_no_brace(x1, b);
    // the `{` of the inline table
    assert(b[0].0 == "path_str"@);
    lemma_render_lone_brace(y, b);
    assert(y.drop_first() =~= x2 + (hole + end));
    // ` path = "`
    lemma_render_split(x2, hole + end, b);
    lemma_render_no_brace(x2, b);
    // the path
    let rest = hole + end;
    assert(rest.subrange(0, 10) =~= placeholder(b[0].0));
    lemma_matching_binding_first(rest, b, 0);
    assert(rest.skip(10) =~= end);
    lemma_render_no_brace(end, b);
    assert(render(rest, b) == v + end);
    assert(render(t, b) =~= "rezis = { path = \""@ + v + end);
}

} // verus!
