//! The text of the files that the CLI writes. In the templates, `{key}` stands for the
//! text bound to `key` (see `crate::template`).

use vstd::prelude::*;

verus! {

/// A module stub; `{pascal}` is the type-name stem.
pub const MODULE_TEMPLATE: &'static str = r##"use rezis::{Module, ModuleContext};

pub struct {pascal}Module;

impl {pascal}Module {
    pub fn new() -> Self {
        Self
    }
}

impl Module for {pascal}Module {
    fn register(&self, _ctx: &mut ModuleContext<'_>) {
        // Add ctx.controller(...) here
    }
}
"##;

/// A controller stub answering `GET /{sn}`.
pub const CONTROLLER_STUB_TEMPLATE: &'static str = r##"use rezis::{json, Controller, RouteBuilder};

#[derive(Clone, Copy)]
pub struct {pascal}Controller;

impl Controller for {pascal}Controller {
    fn register<'a>(&self, routes: RouteBuilder<'a>) -> RouteBuilder<'a> {
        routes.get("/{sn}", || async { json("ok") })
    }
}
"##;

/// A service stub.
pub const SERVICE_STUB_TEMPLATE: &'static str = r##"#[derive(Clone, Default)]
pub struct {pascal}Service;

impl {pascal}Service {
    pub fn new() -> Self {
        Self
    }
}
"##;

/// A DTO checked by `validator`; `{dto_name}` is its type name.
pub const DTO_TEMPLATE: &'static str = r##"use serde::Deserialize;
use validator::Validate;

#[derive(Debug, Deserialize, Validate)]
pub struct {dto_name} {
    #[validate(length(min = 1))]
    pub name: String,
}
"##;

/// The service of a resource, with its item type `{item}`.
pub const SERVICE_TEMPLATE: &'static str = r##"use serde::Serialize;

use super::{sn}_dto::{dto_name};

#[derive(Debug, Clone, Serialize)]
pub struct {item} {
    pub id: u64,
    pub name: String,
}

#[derive(Clone, Default)]
pub struct {pascal}Service;

impl {pascal}Service {
    pub fn new() -> Self {
        Self
    }

    pub async fn find_all(&self) -> Vec<{item}> {
        vec![]
    }

    pub async fn create(&self, dto: {dto_name}) -> {item} {
        {item} {
            id: 1,
            name: dto.name,
        }
    }
}
"##;

/// The controller of a resource, answering `GET` and `POST` on `/{sn}`.
pub const CONTROLLER_TEMPLATE: &'static str = r##"use rezis::{json, Controller, JsonResult, RouteBuilder, ValidatedJson};

use super::{sn}_dto::{dto_name};
use super::{sn}_service::{{item}, {pascal}Service};

#[derive(Clone)]
pub struct {pascal}Controller {
    service: {pascal}Service,
}

impl {pascal}Controller {
    pub fn new(service: {pascal}Service) -> Self {
        Self { service }
    }

    async fn create_item(&self, dto: {dto_name}) -> JsonResult<{item}> {
        Ok(json(self.service.create(dto).await))
    }
}

impl Controller for {pascal}Controller {
    fn register<'a>(&self, routes: RouteBuilder<'a>) -> RouteBuilder<'a> {
        routes
            .get("/{sn}", {
                let c = self.clone();
                || async move { json(c.service.find_all().await) }
            })
            .post("/{sn}", {
                let c = self.clone();
                |ValidatedJson(body)| async move { c.create_item(body).await }
            })
    }
}
"##;

/// The module of a resource, wiring its service into its controller.
pub const RESOURCE_MODULE_TEMPLATE: &'static str = r##"use rezis::{Module, ModuleContext};

use super::{sn}_controller::{pascal}Controller;
use super::{sn}_service::{pascal}Service;

pub struct {pascal}Module;

impl {pascal}Module {
    pub fn new() -> Self {
        Self
    }
}

impl Module for {pascal}Module {
    fn register(&self, ctx: &mut ModuleContext<'_>) {
        let service = {pascal}Service::new();
        let controller = {pascal}Controller::new(service);
        ctx.controller(controller);
    }
}
"##;

/// The `mod.rs` of a resource.
pub const RESOURCE_MOD_TEMPLATE: &'static str = r##"pub mod {sn}_controller;
pub mod {sn}_dto;
pub mod {sn}_module;
pub mod {sn}_service;
"##;

/// The manifest of a new project up to its dependency line on rezis; `{package_name}`
/// is the package's name.
pub const CARGO_TOML_HEAD_TEMPLATE: &'static str = r##"[package]
name = "{package_name}"
version = "0.1.0"
edition = "2021"

[dependencies]
"##;

/// The manifest of a new project after its dependency line on rezis.
pub const CARGO_TOML_TAIL: &'static str = r##"
serde = { version = "1", features = ["derive"] }
serde_json = "1"
tokio = { version = "1", features = ["macros", "rt-multi-thread"] }
validator = { version = "0.20", features = ["derive"] }
"##;

/// The README of a new project.
pub const README_MD: &'static str = r##"# My Rezis API

Copy env template (optional):

```bash
cp .env.example .env
```

Run:

```bash
cargo run
```

`PORT` is read from `.env` via `RezisApp::listen_from_env`.
"##;

/// The `.env` and `.env.example` of a new project.
pub const DOTENV: &'static str = r##"PORT=3000
RUST_LOG=info
"##;

/// The `src/main.rs` of a new project.
pub const MAIN_RS: &'static str = r##"mod app_module;
mod modules;

use app_module::AppModule;
use rezis::RezisApp;

#[tokio::main]
async fn main() {
    RezisApp::new()
        .module(AppModule::new())
        .listen_from_env()
        .await;
}
"##;

/// The `src/app_module.rs` of a new project.
pub const APP_MODULE_RS: &'static str = r##"use rezis::{Module, ModuleContext};

use crate::modules::health::health_module::HealthModule;

pub struct AppModule;

impl AppModule {
    pub fn new() -> Self {
        Self
    }
}

impl Module for AppModule {
    fn register(&self, ctx: &mut ModuleContext<'_>) {
        ctx.module(HealthModule::new());
    }
}
"##;

/// The health module's `mod.rs`.
pub const HEALTH_MOD_RS: &'static str = r##"pub mod health_controller;
pub mod health_module;
"##;

/// The health controller, answering `GET /health`.
pub const HEALTH_CONTROLLER_RS: &'static str = r##"use rezis::{json, Controller, RouteBuilder};

#[derive(Clone, Copy)]
pub struct HealthController;

impl Controller for HealthController {
    fn register<'a>(&self, routes: RouteBuilder<'a>) -> RouteBuilder<'a> {
        routes.get("/health", || async {
            json(serde_json::json!({ "status": "ok" }))
        })
    }
}
"##;

/// The health module.
pub const HEALTH_MODULE_RS: &'static str = r##"use rezis::{Module, ModuleContext};

use super::health_controller::HealthController;

pub struct HealthModule;

impl HealthModule {
    pub fn new() -> Self {
        Self
    }
}

impl Module for HealthModule {
    fn register(&self, ctx: &mut ModuleContext<'_>) {
        ctx.controller(HealthController);
    }
}
"##;

/// `src/common/error.rs` of a new project.
pub const COMMON_ERROR_RS: &'static str = r##"//! App-level error aliases — extend as needed.
pub use rezis::RezisError;
"##;

/// `src/common/response.rs` of a new project.
pub const COMMON_RESPONSE_RS: &'static str = r##"//! Shared JSON helpers.
pub use rezis::{json, ApiSuccess};
"##;

/// `src/common/config.rs` of a new project.
pub const COMMON_CONFIG_RS: &'static str = r##"//! Configuration helpers — uses framework defaults.
pub use rezis::RezisConfig;
"##;

/// The dependency line on rezis from a local checkout at `{path_str}`.
pub const REZIS_PATH_DEP_TEMPLATE: &'static str = r##"rezis = { path = "{path_str}" }"##;

/// The dependency line on the published rezis.
pub const REZIS_VERSION_DEP: &'static str = r##"rezis = "0.1.0-alpha.1""##;

/// The prefix of a Windows verbatim path, which Cargo does not accept in a manifest.
pub const VERBATIM_PREFIX: &'static str = r##"\\?\"##;

/// The directory of module `{sn}`, relative to the project root.
pub const MODULE_DIR_PATH: &'static str = "src/modules/{sn}";

/// The `mod.rs` of module `{sn}`.
pub const MODULE_MOD_RS_PATH: &'static str = "src/modules/{sn}/mod.rs";

/// The module file of module `{sn}`.
pub const MODULE_FILE_PATH: &'static str = "src/modules/{sn}/{sn}_module.rs";

/// The controller file of module `{sn}`.
pub const CONTROLLER_FILE_PATH: &'static str = "src/modules/{sn}/{sn}_controller.rs";

/// The service file of module `{sn}`.
pub const SERVICE_FILE_PATH: &'static str = "src/modules/{sn}/{sn}_service.rs";

/// The DTO file of module `{sn}`.
pub const DTO_FILE_PATH: &'static str = "src/modules/{sn}/{sn}_dto.rs";

/// The `mod.rs` of a new module, declaring its module file.
pub const MODULE_MOD_LINE: &'static str = "pub mod {sn}_module;\n";

/// The `mod.rs` line declaring a controller.
pub const CONTROLLER_MOD_LINE: &'static str = "pub mod {sn}_controller;\n";

/// The `mod.rs` line declaring a service.
pub const SERVICE_MOD_LINE: &'static str = "pub mod {sn}_service;\n";

/// The `mod.rs` line declaring a DTO.
pub const DTO_MOD_LINE: &'static str = "pub mod {sn}_dto;\n";

/// Reported once a module is generated.
pub const MODULE_DONE: &'static str = "Generated module `{sn}`";

/// Reported once a controller is generated.
pub const CONTROLLER_DONE: &'static str = "Generated controller `{sn}_controller`";

/// Reported once a service is generated.
pub const SERVICE_DONE: &'static str = "Generated service `{sn}_service`";

/// Reported once a DTO is generated.
pub const DTO_DONE: &'static str = "Generated dto `{sn}_dto`";

/// Reported once a resource is generated.
pub const RESOURCE_DONE: &'static str = "Generated resource `{sn}`";

/// Reported once a project is created at `{root}`.
pub const PROJECT_DONE: &'static str = "Created Rezis project `{package}` at {root}";

/// The `src/modules/mod.rs` of a new project.
pub const MODULES_MOD_RS: &'static str = "pub mod health;\n";

/// The directories of a new project, created before its files.
pub const HEALTH_DIR: &'static str = "src/modules/health";

/// The directory of a new project's shared helpers.
pub const COMMON_DIR: &'static str = "src/common";

} // verus!
