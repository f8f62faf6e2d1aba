use rezis::config::{parse_u16_chars, DEFAULT_PORT};
use rezis::routing::{HttpMethod, RouteTable};
use rezis::validation::{decoded, validated, INVALID_BODY_MSG};
use rezis::{json, parse_port, RezisConfig, RezisError, ValidatedJson};

#[test]
fn parse_port_defaults_and_valid() {
    assert_eq!(parse_port(None), 3000);
    assert_eq!(parse_port(Some(String::new())), 3000);
    assert_eq!(parse_port(Some("not-a-port".into())), 3000);
    assert_eq!(parse_port(Some("8080".into())), 8080);
}

#[test]
fn parse_port_follows_u16_parsing() {
    for raw in ["0", "65535", "65536", "+80", "+", "-1", "0080", " 80", "80 ", "99999999999", "1e3", "++1"] {
        let want = raw.parse::<u16>().unwrap_or(DEFAULT_PORT);
        assert_eq!(parse_port(Some(raw.to_string())), want, "raw {raw:?}");
    }
    let chars: Vec<char> = "12".chars().collect();
    assert_eq!(parse_u16_chars(&chars), Some(12));
}

#[test]
fn bind_address_format() {
    let c = RezisConfig { port: 3000 };
    assert_eq!(c.bind_address(), "0.0.0.0:3000");
}

#[test]
fn bind_address_reads_back_as_its_port() {
    for port in [0u16, 1, 9, 10, 99, 100, 3000, 8080, 65535] {
        let addr = RezisConfig::new(port).bind_address();
        assert_eq!(addr, format!("0.0.0.0:{port}"));
        let numeral = addr.strip_prefix("0.0.0.0:").unwrap().to_string();
        assert_eq!(parse_port(Some(numeral)), port);
    }
    assert_eq!(RezisConfig::from_port_setting(Some("4000".into())).port, 4000);
    assert_eq!(RezisConfig::from_port_setting(None).port, 3000);
}

#[test]
fn not_found_response_shape() {
    let (status, v) = RezisError::NotFound("User not found".into()).into_failure();
    assert_eq!(status, 404);
    assert_eq!(v.success, false);
    assert_eq!(v.error.code, "NOT_FOUND");
    assert_eq!(v.error.message, "User not found");
    assert!(v.error.details.is_none());
}

#[test]
fn error_codes_and_statuses() {
    let cases = [
        (RezisError::BadRequest("m".into()), "BAD_REQUEST", 400),
        (RezisError::Unauthorized("m".into()), "UNAUTHORIZED", 401),
        (RezisError::Forbidden("m".into()), "FORBIDDEN", 403),
        (RezisError::NotFound("m".into()), "NOT_FOUND", 404),
        (RezisError::Validation("m".into()), "VALIDATION_ERROR", 400),
        (RezisError::InvalidJson("m".into()), "INVALID_JSON", 400),
        (RezisError::Internal("m".into()), "INTERNAL_ERROR", 500),
    ];
    for (e, code, status) in cases {
        assert_eq!(e.code(), code);
        assert_eq!(e.status_code(), status);
        assert_eq!(e.message(), "m");
    }
}

#[test]
fn detailed_error_keeps_its_details() {
    let details = serde_json::Value::Array(vec![serde_json::Value::String("email".into())]);
    let d = RezisError::Validation("Invalid request body".into()).with_details(details.clone());
    let (status, v) = d.into_failure();
    assert_eq!(status, 400);
    assert!(!v.success);
    assert_eq!(v.error.code, "VALIDATION_ERROR");
    assert_eq!(v.error.message, "Invalid request body");
    assert_eq!(v.error.details, Some(details));
}

#[test]
fn malformed_body_is_invalid_json() {
    let r: Result<u8, RezisError> = decoded(Err("expected value at line 1 column 2".to_string()));
    let e = r.unwrap_err();
    assert_eq!(e.code(), "INVALID_JSON");
    assert_eq!(e.status_code(), 400);
    assert_eq!(e.message(), "expected value at line 1 column 2");
    let (status, v) = e.into_failure();
    assert_eq!(status, 400);
    assert!(!v.success);
    assert_eq!(v.error.code, "INVALID_JSON");
    assert_eq!(decoded::<u8>(Ok(7)).unwrap(), 7);
}

#[test]
fn failed_validation_is_a_validation_envelope() {
    let mut fields = serde_json::Map::new();
    fields.insert(
        "email".to_string(),
        serde_json::Value::Array(vec![serde_json::Value::String("email".into())]),
    );
    let details = serde_json::Value::Object(fields);
    let d = validated("body", Err(details.clone())).unwrap_err();
    let (status, v) = d.into_failure();
    assert_eq!(status, 400);
    assert!(!v.success);
    assert_eq!(v.error.code, "VALIDATION_ERROR");
    assert_eq!(v.error.message, INVALID_BODY_MSG);
    assert_eq!(v.error.message, "Invalid request body");
    let emails = v.error.details.as_ref().unwrap()["email"].as_array().expect("email details");
    assert!(!emails.is_empty());
    let ok: ValidatedJson<&str> = validated("body", Ok(())).unwrap();
    assert_eq!(ok.0, "body");
    assert_eq!(*ok.inner(), "body");
}

#[test]
fn success_envelope_serializes() {
    let inner = json("Hello from Rezis");
    assert_eq!(inner.success, true);
    assert_eq!(inner.data, "Hello from Rezis");
}

#[test]
fn route_table_lists_routes_in_order() {
    let mut t = RouteTable::new();
    assert_eq!(t.len(), 0);
    t.record(HttpMethod::Get, "/".to_string());
    t.record(HttpMethod::Get, "/health".to_string());
    t.record(HttpMethod::Post, "/users".to_string());
    assert_eq!(t.len(), 3);
    assert_eq!(t.listing(), vec!["GET /", "GET /health", "POST /users"]);
    assert_eq!(HttpMethod::Post.as_str(), "POST");
}
