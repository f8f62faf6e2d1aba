use rezis::cli::{CliError, GenCommands};
use rezis::patch::{merge_mod_content, mod_line, patch_app_module_content};
use rezis::scaffold::{
    cargo_toml, check_destination, check_overwrite, cmd_generate, created_message, new_project,
    normalize_path_for_manifest, plan_generate, GenKind,
};
use rezis::templates::{
    APP_MODULE_RS, COMMON_CONFIG_RS, COMMON_ERROR_RS, COMMON_RESPONSE_RS, DOTENV, HEALTH_CONTROLLER_RS,
    HEALTH_MODULE_RS, HEALTH_MOD_RS, MAIN_RS, README_MD,
};

// What the generators are expected to write, spelled with `format!`.

fn expected_module_rs(pascal: &str) -> String {
    format!(
        r#"use rezis::{{Module, ModuleContext}};

pub struct {pascal}Module;

impl {pascal}Module {{
    pub fn new() -> Self {{
        Self
    }}
}}

impl Module for {pascal}Module {{
    fn register(&self, _ctx: &mut ModuleContext<'_>) {{
        // Add ctx.controller(...) here
    }}
}}
"#
    )
}

fn expected_controller_stub(sn: &str, pascal: &str) -> String {
    format!(
        r#"use rezis::{{json, Controller, RouteBuilder}};

#[derive(Clone, Copy)]
pub struct {pascal}Controller;

impl Controller for {pascal}Controller {{
    fn register<'a>(&self, routes: RouteBuilder<'a>) -> RouteBuilder<'a> {{
        routes.get("/{sn}", || async {{ json("ok") }})
    }}
}}
"#
    )
}

fn expected_service_stub(pascal: &str) -> String {
    format!(
        r#"#[derive(Clone, Default)]
pub struct {pascal}Service;

impl {pascal}Service {{
    pub fn new() -> Self {{
        Self
    }}
}}
"#
    )
}

fn expected_dto(pascal: &str) -> String {
    let dto_name = format!("Create{pascal}Dto");
    format!(
        r#"use serde::Deserialize;
use validator::Validate;

#[derive(Debug, Deserialize, Validate)]
pub struct {dto_name} {{
    #[validate(length(min = 1))]
    pub name: String,
}}
"#
    )
}

fn expected_resource_service(sn: &str, pascal: &str) -> String {
    let dto_name = format!("Create{pascal}Dto");
    let item = format!("{pascal}Item");
    format!(
        r#"use serde::Serialize;

use super::{sn}_dto::{dto_name};

#[derive(Debug, Clone, Serialize)]
pub struct {item} {{
    pub id: u64,
    pub name: String,
}}

#[derive(Clone, Default)]
pub struct {pascal}Service;

impl {pascal}Service {{
    pub fn new() -> Self {{
        Self
    }}

    pub async fn find_all(&self) -> Vec<{item}> {{
        vec![]
    }}

    pub async fn create(&self, dto: {dto_name}) -> {item} {{
        {item} {{
            id: 1,
            name: dto.name,
        }}
    }}
}}
"#
    )
}

fn expected_resource_controller(sn: &str, pascal: &str) -> String {
    let dto_name = format!("Create{pascal}Dto");
    let item = format!("{pascal}Item");
    format!(
        r#"use rezis::{{json, Controller, JsonResult, RouteBuilder, ValidatedJson}};

use super::{sn}_dto::{dto_name};
use super::{sn}_service::{{{item}, {pascal}Service}};

#[derive(Clone)]
pub struct {pascal}Controller {{
    service: {pascal}Service,
}}

impl {pascal}Controller {{
    pub fn new(service: {pascal}Service) -> Self {{
        Self {{ service }}
    }}

    async fn create_item(&self, dto: {dto_name}) -> JsonResult<{item}> {{
        Ok(json(self.service.create(dto).await))
    }}
}}

impl Controller for {pascal}Controller {{
    fn register<'a>(&self, routes: RouteBuilder<'a>) -> RouteBuilder<'a> {{
        routes
            .get("/{sn}", {{
                let c = self.clone();
                || async move {{ json(c.service.find_all().await) }}
            }})
            .post("/{sn}", {{
                let c = self.clone();
                |ValidatedJson(body)| async move {{ c.create_item(body).await }}
            }})
    }}
}}
"#
    )
}

fn expected_resource_module(sn: &str, pascal: &str) -> String {
    format!(
        r#"use rezis::{{Module, ModuleContext}};

use super::{sn}_controller::{pascal}Controller;
use super::{sn}_service::{pascal}Service;

pub struct {pascal}Module;

impl {pascal}Module {{
    pub fn new() -> Self {{
        Self
    }}
}}

impl Module for {pascal}Module {{
    fn register(&self, ctx: &mut ModuleContext<'_>) {{
        let service = {pascal}Service::new();
        let controller = {pascal}Controller::new(service);
        ctx.controller(controller);
    }}
}}
"#
    )
}

fn expected_resource_mod_rs(sn: &str) -> String {
    format!(
        r#"pub mod {sn}_controller;
pub mod {sn}_dto;
pub mod {sn}_module;
pub mod {sn}_service;
"#
    )
}

fn expected_cargo_toml(package_name: &str, rezis_dep: &str) -> String {
    format!(
        r#"[package]
name = "{package_name}"
version = "0.1.0"
edition = "2021"

[dependencies]
{rezis_dep}
serde = {{ version = "1", features = ["derive"] }}
serde_json = "1"
tokio = {{ version = "1", features = ["macros", "rt-multi-thread"] }}
validator = {{ version = "0.20", features = ["derive"] }}
"#
    )
}

/// The merge of a `mod.rs` line as the file-based command performs it.
fn reference_merge(content: &str, line: &str) -> Option<String> {
    let trimmed = line.trim();
    if content.lines().any(|l| l.trim() == trimmed) {
        return None;
    }
    Some(if content.is_empty() || content.ends_with('\n') {
        format!("{content}{line}")
    } else {
        format!("{content}\n{line}")
    })
}

/// The `app_module.rs` patch as the file-based command performs it.
fn reference_patch(content: &str, snake: &str, pascal: &str) -> Result<Option<String>, ()> {
    let mut content = content.to_string();
    let use_line = format!("use crate::modules::{snake}::{snake}_module::{pascal}Module;");
    let needle = "ctx.module(HealthModule::new());";
    let ctx_line = format!("        ctx.module({pascal}Module::new());");
    if content.contains(&format!("{pascal}Module::new()")) {
        return Ok(None);
    }
    if !content.contains(&use_line) {
        let anchor = "use rezis::{Module, ModuleContext};";
        if content.contains(anchor) {
            content = content.replacen(anchor, &format!("{anchor}\n{use_line}"), 1);
        } else {
            content = format!("{use_line}\n{content}");
        }
    }
    if content.contains(needle) && !content.contains(&ctx_line) {
        content = content.replacen(needle, &format!("{needle}\n{ctx_line}"), 1);
    } else if !content.contains(&ctx_line) {
        return Err(());
    }
    Ok(Some(content))
}

#[test]
fn merge_mod_rs_inserts_once_and_is_idempotent() {
    let first = merge_mod_content("", "pub mod foo;\n").expect("first merge writes");
    assert!(merge_mod_content(&first, "pub mod foo;\n").is_none());
    assert_eq!(first.matches("pub mod foo").count(), 1);
}

#[test]
fn patch_modules_mod_appends_and_is_idempotent() {
    let line = mod_line("users");
    assert_eq!(line, "pub mod users;\n");
    let s = merge_mod_content("pub mod health;\n", &line).expect("first patch writes");
    assert!(merge_mod_content(&s, &line).is_none());
    assert!(s.contains("pub mod health;"));
    assert_eq!(s.matches("pub mod users").count(), 1);
}

#[test]
fn merge_mod_agrees_with_line_semantics() {
    let contents = [
        "",
        "pub mod a;",
        "pub mod a;\n",
        "pub mod a;\r\npub mod b;\r\n",
        "  pub mod foo;  \n",
        "x\n\n",
        "a\n",
        "\n",
        "pub mod foo;\r",
        "pub mod foobar;\n",
    ];
    let lines = ["pub mod foo;\n", "pub mod b;", "\n", "", "  ", "pub mod a;\n", "x\ny\n"];
    for c in contents {
        for l in lines {
            assert_eq!(merge_mod_content(c, l), reference_merge(c, l), "content {c:?}, line {l:?}");
        }
    }
}

#[test]
fn merge_mod_appends_after_a_newline() {
    assert_eq!(merge_mod_content("pub mod a;", "pub mod b;\n").unwrap(), "pub mod a;\npub mod b;\n");
    assert_eq!(merge_mod_content("pub mod a;\n", "pub mod b;\n").unwrap(), "pub mod a;\npub mod b;\n");
    // a line already present, whatever its surrounding whitespace, is not written again
    assert!(merge_mod_content("\tpub mod b;  \r\n", "pub mod b;\n").is_none());
}

#[test]
fn patch_app_module_registers_once() {
    let patched = patch_app_module_content(APP_MODULE_RS, "users", "Users").unwrap().unwrap();
    assert_eq!(Some(patched.clone()), reference_patch(APP_MODULE_RS, "users", "Users").unwrap());
    assert!(patched.contains("use crate::modules::users::users_module::UsersModule;"));
    assert!(patched.contains(
        "ctx.module(HealthModule::new());\n        ctx.module(UsersModule::new());"
    ));
    assert!(patch_app_module_content(&patched, "users", "Users").unwrap().is_none());
    let twice = patch_app_module_content(&patched, "widgets", "Widgets").unwrap().unwrap();
    assert!(twice.contains("WidgetsModule"));
    assert!(twice.contains("UsersModule"));
}

#[test]
fn patch_app_module_agrees_with_reference() {
    let contents = [
        APP_MODULE_RS.to_string(),
        "ctx.module(HealthModule::new());".to_string(),
        "use crate::modules::users::users_module::UsersModule;\nctx.module(HealthModule::new());"
            .to_string(),
        "fn x() {}\n".to_string(),
        "        ctx.module(UsersModule::new());".to_string(),
        "use rezis::{Module, ModuleContext};\nuse rezis::{Module, ModuleContext};\nctx.module(HealthModule::new()); ctx.module(HealthModule::new());".to_string(),
        String::new(),
    ];
    for c in &contents {
        let got = patch_app_module_content(c, "users", "Users");
        let want = reference_patch(c, "users", "Users");
        match (got, want) {
            (Ok(g), Ok(w)) => assert_eq!(g, w, "content {c:?}"),
            (Err(CliError::AppModuleAnchorMissing), Err(())) => {}
            (g, w) => panic!("content {c:?}: got {g:?}, want {w:?}"),
        }
    }
}

#[test]
fn patch_app_module_without_anchor_is_refused() {
    assert!(matches!(
        patch_app_module_content("fn main() {}\n", "users", "Users"),
        Err(CliError::AppModuleAnchorMissing)
    ));
}

#[test]
fn cargo_toml_matches_the_manifest_format() {
    assert_eq!(
        cargo_toml("my-api", None),
        expected_cargo_toml("my-api", r#"rezis = "0.1.0-alpha.1""#)
    );
    assert_eq!(
        cargo_toml("chk-api", Some("/home/u/rezis")),
        expected_cargo_toml("chk-api", r#"rezis = { path = "/home/u/rezis" }"#)
    );
    assert_eq!(
        cargo_toml("w", Some(r"\\?\C:\src\rezis")),
        expected_cargo_toml("w", r#"rezis = { path = "C:/src/rezis" }"#)
    );
}

#[test]
fn normalize_path_strips_verbatim_prefix() {
    assert_eq!(normalize_path_for_manifest(r"\\?\C:\a\b"), "C:/a/b");
    assert_eq!(normalize_path_for_manifest(r"C:\a\b"), "C:/a/b");
    assert_eq!(normalize_path_for_manifest("/usr/src/rezis"), "/usr/src/rezis");
    assert_eq!(normalize_path_for_manifest(r"x\\?\y"), "x//?/y");
    assert_eq!(normalize_path_for_manifest(""), "");
}

#[test]
fn new_project_lists_every_file() {
    let p = new_project("my-api", None);
    assert_eq!(p.dirs, vec!["src/modules/health".to_string(), "src/common".to_string()]);
    let paths: Vec<&str> = p.files.iter().map(|f| f.path.as_str()).collect();
    assert_eq!(
        paths,
        vec![
            "Cargo.toml",
            "README.md",
            ".env.example",
            ".env",
            "src/main.rs",
            "src/app_module.rs",
            "src/modules/mod.rs",
            "src/modules/health/mod.rs",
            "src/modules/health/health_controller.rs",
            "src/modules/health/health_module.rs",
            "src/common/error.rs",
            "src/common/response.rs",
            "src/common/config.rs",
        ]
    );
    assert_eq!(p.files[0].content, expected_cargo_toml("my-api", r#"rezis = "0.1.0-alpha.1""#));
    assert_eq!(p.files[1].content, README_MD);
    assert_eq!(p.files[2].content, "PORT=3000\nRUST_LOG=info\n");
    assert_eq!(p.files[3].content, DOTENV);
    assert_eq!(p.files[4].content, MAIN_RS);
    assert_eq!(p.files[5].content, APP_MODULE_RS);
    assert_eq!(p.files[6].content, "pub mod health;\n");
    assert_eq!(p.files[7].content, HEALTH_MOD_RS);
    assert_eq!(p.files[8].content, HEALTH_CONTROLLER_RS);
    assert_eq!(p.files[9].content, HEALTH_MODULE_RS);
    assert_eq!(p.files[10].content, COMMON_ERROR_RS);
    assert_eq!(p.files[11].content, COMMON_RESPONSE_RS);
    assert_eq!(p.files[12].content, COMMON_CONFIG_RS);
    assert!(HEALTH_CONTROLLER_RS.contains("routes.get(\"/health\""));
}

#[test]
fn destination_and_overwrite_checks() {
    assert!(matches!(check_destination("/t/a", true, false), Err(CliError::DestinationExists(p)) if p == "/t/a"));
    assert_eq!(check_destination("/t/a", true, true).unwrap(), true);
    assert_eq!(check_destination("/t/a", false, true).unwrap(), false);
    assert_eq!(check_destination("/t/a", false, false).unwrap(), false);
    assert!(matches!(check_overwrite("/t/f", true, false), Err(CliError::RefuseOverwrite(p)) if p == "/t/f"));
    assert!(check_overwrite("/t/f", true, true).is_ok());
    assert!(check_overwrite("/t/f", false, false).is_ok());
    assert_eq!(
        created_message("my-api", "/t/my-api"),
        "Created Rezis project `my-api` at /t/my-api"
    );
}

#[test]
fn generate_module_plan() {
    let p = plan_generate(GenKind::Module, "blog-api", false).unwrap();
    assert_eq!(p.snake, "blog_api");
    assert_eq!(p.pascal, "BlogApi");
    assert_eq!(p.module_dir, "src/modules/blog_api");
    assert!(p.create_dir && p.register && !p.force);
    assert!(p.mod_rs_line.is_none());
    assert_eq!(p.files.len(), 2);
    assert_eq!(p.files[0].path, "src/modules/blog_api/blog_api_module.rs");
    assert_eq!(p.files[0].content, expected_module_rs("BlogApi"));
    assert_eq!(p.files[1].path, "src/modules/blog_api/mod.rs");
    assert_eq!(p.files[1].content, "pub mod blog_api_module;\n");
    assert_eq!(p.done_message, "Generated module `blog_api`");
}

#[test]
fn generate_stub_plans() {
    let c = plan_generate(GenKind::Controller, "users", true).unwrap();
    assert!(!c.create_dir && !c.register && c.force);
    assert_eq!(c.files.len(), 1);
    assert_eq!(c.files[0].path, "src/modules/users/users_controller.rs");
    assert_eq!(c.files[0].content, expected_controller_stub("users", "Users"));
    assert_eq!(c.mod_rs_line.as_deref(), Some("pub mod users_controller;\n"));
    assert_eq!(c.done_message, "Generated controller `users_controller`");

    let s = plan_generate(GenKind::Service, "users", false).unwrap();
    assert_eq!(s.files[0].path, "src/modules/users/users_service.rs");
    assert_eq!(s.files[0].content, expected_service_stub("Users"));
    assert_eq!(s.mod_rs_line.as_deref(), Some("pub mod users_service;\n"));
    assert_eq!(s.done_message, "Generated service `users_service`");

    let d = plan_generate(GenKind::Dto, "users", false).unwrap();
    assert_eq!(d.files[0].path, "src/modules/users/users_dto.rs");
    assert_eq!(d.files[0].content, expected_dto("Users"));
    assert_eq!(d.mod_rs_line.as_deref(), Some("pub mod users_dto;\n"));
    assert_eq!(d.done_message, "Generated dto `users_dto`");
}

#[test]
fn generate_resource_plan() {
    let r = cmd_generate(&GenCommands::Resource { name: "widgets".to_string(), force: false })
        .unwrap();
    assert!(r.create_dir && r.register);
    let paths: Vec<&str> = r.files.iter().map(|f| f.path.as_str()).collect();
    assert_eq!(
        paths,
        vec![
            "src/modules/widgets/widgets_dto.rs",
            "src/modules/widgets/widgets_service.rs",
            "src/modules/widgets/widgets_controller.rs",
            "src/modules/widgets/widgets_module.rs",
            "src/modules/widgets/mod.rs",
        ]
    );
    assert_eq!(r.files[0].content, expected_dto("Widgets"));
    assert_eq!(r.files[1].content, expected_resource_service("widgets", "Widgets"));
    assert_eq!(r.files[2].content, expected_resource_controller("widgets", "Widgets"));
    assert_eq!(r.files[3].content, expected_resource_module("widgets", "Widgets"));
    assert_eq!(r.files[4].content, expected_resource_mod_rs("widgets"));
    assert_eq!(r.done_message, "Generated resource `widgets`");
}

#[test]
fn generate_refuses_bad_names() {
    assert!(matches!(
        cmd_generate(&GenCommands::Module { name: "1x".to_string(), force: false }),
        Err(CliError::IdentifierStart)
    ));
    assert!(matches!(
        cmd_generate(&GenCommands::Dto { name: "  ".to_string(), force: true }),
        Err(CliError::EmptyName)
    ));
}

#[test]
fn manifest_with_checkout_differs_only_in_the_rezis_line() {
    let published = cargo_toml("blog-api", None);
    let local = cargo_toml("blog-api", Some(r"\\?\C:\dev\rezis"));
    let a: Vec<&str> = published.lines().collect();
    let b: Vec<&str> = local.lines().collect();
    assert_eq!(a.len(), b.len());
    let differing: Vec<usize> = (0..a.len()).filter(|&i| a[i] != b[i]).collect();
    assert_eq!(differing.len(), 1);
    let i = differing[0];
    assert_eq!(a[i], r#"rezis = "0.1.0-alpha.1""#);
    assert_eq!(b[i], r#"rezis = { path = "C:/dev/rezis" }"#);
    assert!(a.contains(&r#"name = "blog-api""#));
}
