//! Rezis: a NestJS-inspired backend framework and its scaffolding CLI. This crate holds
//! their logic: name checks, project templates and source patching for the CLI; port
//! configuration, error codes and JSON envelopes, request-body outcomes and the route
//! record for the framework.

pub mod cli;
pub mod config;
pub mod error;
pub mod names;
pub mod patch;
pub mod response;
pub mod routing;
pub mod scaffold;
pub mod template;
pub mod templates;
pub mod text;
pub mod validation;

pub use cli::{Cli, CliError, Commands, GenCommands};
pub use config::{parse_port, RezisConfig};
pub use error::{ApiErrorBody, ApiFailure, DetailedRezisError, RezisError};
pub use names::{package_label, pascal_case, snake_identifier};
pub use response::{json, ApiSuccess};
pub use validation::ValidatedJson;
