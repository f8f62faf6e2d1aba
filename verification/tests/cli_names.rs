use rezis::cli::CliError;
use rezis::{package_label, pascal_case, snake_identifier};

#[test]
fn package_label_keeps_hyphen() {
    assert_eq!(package_label("blog-api").unwrap(), "blog-api");
    assert!(package_label("-bad").is_err());
}

#[test]
fn snake_and_pascal() {
    assert_eq!(snake_identifier("blog-api").unwrap(), "blog_api");
    assert_eq!(pascal_case("blog_api"), "BlogApi");
    assert_eq!(pascal_case("users"), "Users");
}

#[test]
fn package_label_trims_and_reports_each_rule() {
    assert_eq!(package_label("  my_api2 \n").unwrap(), "my_api2");
    assert!(matches!(package_label("   "), Err(CliError::EmptyName)));
    assert!(matches!(package_label(""), Err(CliError::EmptyName)));
    assert!(matches!(package_label("1api"), Err(CliError::ProjectNameStart)));
    assert!(matches!(package_label("_api"), Err(CliError::ProjectNameStart)));
    assert!(matches!(package_label("my api"), Err(CliError::ProjectNameChars)));
    assert!(matches!(package_label("api.rs"), Err(CliError::ProjectNameChars)));
    assert!(matches!(package_label("éclair"), Err(CliError::ProjectNameStart)));
}

#[test]
fn snake_identifier_reports_each_rule() {
    assert_eq!(snake_identifier(" _private-thing ").unwrap(), "_private_thing");
    assert_eq!(snake_identifier("-x").unwrap(), "_x");
    assert!(matches!(snake_identifier(""), Err(CliError::EmptyName)));
    assert!(matches!(snake_identifier("9lives"), Err(CliError::IdentifierStart)));
    assert!(matches!(snake_identifier("a.b"), Err(CliError::IdentifierChars)));
    assert!(matches!(snake_identifier("a b"), Err(CliError::IdentifierChars)));
}

#[test]
fn snake_identifier_is_idempotent_on_examples() {
    for name in ["blog-api", " users ", "_x-y-z", "A1-b2"] {
        let once = snake_identifier(name).unwrap();
        assert_eq!(snake_identifier(&once).unwrap(), once);
    }
    let label = package_label(" blog-api ").unwrap();
    assert_eq!(package_label(&label).unwrap(), label);
}

#[test]
fn pascal_case_runs_and_underscores() {
    assert_eq!(pascal_case("__a__b_"), "AB");
    assert_eq!(pascal_case(""), "");
    assert_eq!(pascal_case("___"), "");
    assert_eq!(pascal_case("blog_api_v2"), "BlogApiV2");
    assert_eq!(pascal_case("aBc_dEF"), "ABcDEF");
    assert_eq!(pascal_case("9_x"), "9X");
}

#[test]
fn pascal_case_uses_unicode_uppercase() {
    // `ß` has the two-character uppercase mapping `SS`; `é` maps to `É`
    assert_eq!(pascal_case("ßtraße_éa"), "SStraßeÉa");
}

#[test]
fn cli_error_messages() {
    assert_eq!(CliError::EmptyName.message(), "name must not be empty");
    assert_eq!(
        CliError::ProjectNameStart.message(),
        "project name must start with a letter"
    );
    assert_eq!(
        CliError::ProjectNameChars.message(),
        "project name must be ASCII alphanumeric with '-' or '_'"
    );
    assert_eq!(
        CliError::IdentifierStart.message(),
        "name must start with a letter or underscore"
    );
    assert_eq!(
        CliError::IdentifierChars.message(),
        "name must be alphanumeric ASCII or underscore"
    );
    assert_eq!(
        CliError::DestinationExists("/tmp/x/my-api".to_string()).message(),
        "destination `/tmp/x/my-api` already exists (pass `--force` to overwrite)"
    );
    assert_eq!(
        CliError::MissingSrc.message(),
        "missing `src/` — run `rezis new <name>` first (from parent directory)"
    );
    assert_eq!(
        CliError::MissingModuleDir {
            dir: "/p/src/modules/users".to_string(),
            name: "users".to_string()
        }
        .message(),
        "missing `/p/src/modules/users` — run `rezis g module users` first"
    );
    assert_eq!(
        CliError::RefuseOverwrite("/p/README.md".to_string()).message(),
        "refusing to overwrite `/p/README.md` (pass `--force`)"
    );
    assert_eq!(
        CliError::MissingModulesFile("/p/src/modules/mod.rs".to_string()).message(),
        "missing `/p/src/modules/mod.rs` — run `rezis new` first"
    );
    assert_eq!(
        CliError::AppModuleAnchorMissing.message(),
        "could not patch `app_module.rs`: expected `ctx.module(HealthModule::new());` as insertion anchor"
    );
}
