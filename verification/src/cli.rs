//! The scaffolding CLI's commands (`rezis new`, `rezis g …`) and the reasons it refuses
//! one.

use vstd::prelude::*;

use crate::template::{binding, bindings_view, render, render_one, render_template};

verus! {

/// NestJS-style scaffolding for Rezis (`rezis new`, `rezis g …`).
#[derive(Debug)]
pub struct Cli {
    pub command: Commands,
}

/// The top-level commands.
#[derive(Debug)]
pub enum Commands {
    /// Create a new API crate in `./<NAME>/`.
    New {
        /// Package directory name (e.g. `blog-api`).
        name: String,
        /// Overwrite existing files / directory.
        force: bool,
        /// Use a path dependency for `rezis` (for tests / local dev).
        rezis_path: Option<String>,
    },
    /// Generate modules, stubs, or a full resource.
    Generate { gen: GenCommands },
}

/// What `rezis g` generates.
#[derive(Debug)]
pub enum GenCommands {
    /// `src/modules/<name>/` + `<name>_module.rs`.
    Module { name: String, force: bool },
    /// Stub controller (requires `src/modules/<name>/`).
    Controller { name: String, force: bool },
    /// Stub service.
    Service { name: String, force: bool },
    /// Stub DTO with serde + validator.
    Dto { name: String, force: bool },
    /// Controller + service + dto + module; patches `modules/mod.rs` and `app_module.rs`.
    Resource { name: String, force: bool },
}

/// Why a CLI command was refused.
#[derive(Debug)]
pub enum CliError {
    /// The name is empty after trimming.
    EmptyName,
    /// A package label does not start with an ASCII letter.
    ProjectNameStart,
    /// A package label holds a character other than ASCII letters, digits, `-` and `_`.
    ProjectNameChars,
    /// An identifier does not start with an ASCII letter or `_`.
    IdentifierStart,
    /// An identifier holds a character other than ASCII letters, digits and `_`.
    IdentifierChars,
    /// `app_module.rs` holds neither the registration line nor the anchor it goes after.
    AppModuleAnchorMissing,
    /// The project directory exists and `--force` was not given.
    DestinationExists(String),
    /// The current directory has no `src/`.
    MissingSrc,
    /// A stub was asked for in a module directory that does not exist.
    MissingModuleDir { dir: String, name: String },
    /// A file exists and `--force` was not given.
    RefuseOverwrite(String),
    /// The project has no `src/modules/mod.rs`.
    MissingModulesFile(String),
}

/// Reports `EmptyName`.
pub const EMPTY_NAME_MSG: &'static str = "name must not be empty";

/// Reports `ProjectNameStart`.
pub const PROJECT_NAME_START_MSG: &'static str = "project name must start with a letter";

/// Reports `ProjectNameChars`.
pub const PROJECT_NAME_CHARS_MSG: &'static str = "project name must be ASCII alphanumeric with '-' or '_'";

/// Reports `IdentifierStart`.
pub const IDENTIFIER_START_MSG: &'static str = "name must start with a letter or underscore";

/// Reports `IdentifierChars`.
pub const IDENTIFIER_CHARS_MSG: &'static str = "name must be alphanumeric ASCII or underscore";

/// Reports `AppModuleAnchorMissing`.
pub const ANCHOR_MISSING_MSG: &'static str = "could not patch `app_module.rs`: expected `ctx.module(HealthModule::new());` as insertion anchor";

/// Reports `DestinationExists`; `{path}` is the directory.
pub const DESTINATION_EXISTS_MSG: &'static str = "destination `{path}` already exists (pass `--force` to overwrite)";

/// Reports `MissingSrc`.
pub const MISSING_SRC_MSG: &'static str = "missing `src/` — run `rezis new <name>` first (from parent directory)";

/// Reports `MissingModuleDir`; `{dir}` is the directory, `{name}` the module.
pub const MISSING_MODULE_DIR_MSG: &'static str = "missing `{dir}` — run `rezis g module {name}` first";

/// Reports `RefuseOverwrite`; `{path}` is the file.
pub const REFUSE_OVERWRITE_MSG: &'static str = "refusing to overwrite `{path}` (pass `--force`)";

/// Reports `MissingModulesFile`; `{path}` is the file.
pub const MISSING_MODULES_FILE_MSG: &'static str = "missing `{path}` — run `rezis new` first";

/// The message that reports `e`.
pub open spec fn spec_message(e: CliError) -> Seq<char> {
    match e {
        CliError::EmptyName => EMPTY_NAME_MSG@,
        CliError::ProjectNameStart => PROJECT_NAME_START_MSG@,
        CliError::ProjectNameChars => PROJECT_NAME_CHARS_MSG@,
        CliError::IdentifierStart => IDENTIFIER_START_MSG@,
        CliError::IdentifierChars => IDENTIFIER_CHARS_MSG@,
        CliError::AppModuleAnchorMissing => ANCHOR_MISSING_MSG@,
        CliError::DestinationExists(p) => render(DESTINATION_EXISTS_MSG@, seq![("path"@, p@)]),
        CliError::MissingSrc => MISSING_SRC_MSG@,
        CliError::MissingModuleDir { dir, name } => render(
            MISSING_MODULE_DIR_MSG@,
            seq![("dir"@, dir@), ("name"@, name@)],
        ),
        CliError::RefuseOverwrite(p) => render(REFUSE_OVERWRITE_MSG@, seq![("path"@, p@)]),
        CliError::MissingModulesFile(p) => render(MISSING_MODULES_FILE_MSG@, seq![("path"@, p@)]),
    }
}

impl CliError {
    /// The message that reports this error.
    pub fn message(&self) -> (m: String)
        ensures
            m@ == spec_message(*self),
    {
        match self {
            CliError::EmptyName => String::from_str(EMPTY_NAME_MSG),
            CliError::ProjectNameStart => String::from_str(PROJECT_NAME_START_MSG),
            CliError::ProjectNameChars => String::from_str(PROJECT_NAME_CHARS_MSG),
            CliError::IdentifierStart => String::from_str(IDENTIFIER_START_MSG),
            CliError::IdentifierChars => String::from_str(IDENTIFIER_CHARS_MSG),
            CliError::AppModuleAnchorMissing => String::from_str(ANCHOR_MISSING_MSG),
            CliError::DestinationExists(p) => render_one(DESTINATION_EXISTS_MSG, "path", p.as_str()),
            CliError::MissingSrc => String::from_str(MISSING_SRC_MSG),
            CliError::MissingModuleDir { dir, name } => {
                let mut b: Vec<(Vec<char>, Vec<char>)> = Vec::new();
                b.push(binding("dir", dir.as_str()));
                b.push(binding("name", name.as_str()));
                assert(bindings_view(b@) =~= seq![("dir"@, dir@), ("name"@, name@)]);
                render_template(MISSING_MODULE_DIR_MSG, &b)
            },
            CliError::RefuseOverwrite(p) => render_one(REFUSE_OVERWRITE_MSG, "path", p.as_str()),
            CliError::MissingModulesFile(p) => render_one(MISSING_MODULES_FILE_MSG, "path", p.as_str()),
        }
    }
}

} // verus!
