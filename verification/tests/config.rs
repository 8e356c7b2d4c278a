use mudzidzi::config::{Config, ConfigError, EnvVars};
use mudzidzi::number::{parse_i64, parse_u16};

fn vars() -> EnvVars {
    EnvVars {
        database_url: Some("postgres://localhost/mudzidzi".to_string()),
        redis_url: Some("redis://localhost".to_string()),
        jwt_secret: Some("signing-key-for-tests".to_string()),
        jwt_access_token_ttl_minutes: None,
        jwt_refresh_token_ttl_days: None,
        rust_api_port: None,
        ai_service_internal_url: None,
    }
}

#[test]
fn defaults_apply_to_unset_optional_variables() {
    let c = Config::from_vars(vars()).unwrap();
    assert_eq!(c.database_url, "postgres://localhost/mudzidzi");
    assert_eq!(c.jwt_access_token_ttl_minutes, 15);
    assert_eq!(c.jwt_refresh_token_ttl_days, 30);
    assert_eq!(c.rust_api_port, 8080);
    assert_eq!(c.ai_service_internal_url, "http://localhost:8000");
}

#[test]
fn set_variables_are_read() {
    let mut v = vars();
    v.jwt_access_token_ttl_minutes = Some("+5".to_string());
    v.jwt_refresh_token_ttl_days = Some("-2".to_string());
    v.rust_api_port = Some("65535".to_string());
    v.ai_service_internal_url = Some("http://ai:9000".to_string());
    let c = Config::from_vars(v).unwrap();
    assert_eq!(c.jwt_access_token_ttl_minutes, 5);
    assert_eq!(c.jwt_refresh_token_ttl_days, -2);
    assert_eq!(c.rust_api_port, 65535);
    assert_eq!(c.ai_service_internal_url, "http://ai:9000");
}

#[test]
fn first_missing_variable_is_reported() {
    let mut v = vars();
    v.redis_url = None;
    v.jwt_secret = None;
    match Config::from_vars(v) {
        Err(ConfigError::MissingVar(k)) => assert_eq!(k, "REDIS_URL"),
        _ => panic!("expected a missing variable"),
    }
    let mut v = vars();
    v.database_url = None;
    match Config::from_vars(v) {
        Err(ConfigError::MissingVar(k)) => assert_eq!(k, "DATABASE_URL"),
        _ => panic!("expected a missing variable"),
    }
}

#[test]
fn invalid_numbers_are_reported() {
    let mut v = vars();
    v.rust_api_port = Some("70000".to_string());
    match Config::from_vars(v) {
        Err(ConfigError::InvalidVar(k)) => assert_eq!(k, "RUST_API_PORT"),
        _ => panic!("expected an invalid variable"),
    }
    let mut v = vars();
    v.jwt_access_token_ttl_minutes = Some("15m".to_string());
    v.rust_api_port = Some("-1".to_string());
    match Config::from_vars(v) {
        Err(ConfigError::InvalidVar(k)) => assert_eq!(k, "JWT_ACCESS_TOKEN_TTL_MINUTES"),
        _ => panic!("expected an invalid variable"),
    }
}

#[test]
fn integers_parse_as_std_does() {
    for s in ["0", "42", "-42", "+7", "007", "-0", "9223372036854775807", "-9223372036854775808",
        "9223372036854775808", "-9223372036854775809", "", "+", "-", " 1", "1 ", "1_000", "٣",
        "99999999999999999999999"] {
        assert_eq!(parse_i64(s), s.parse::<i64>().ok(), "i64 {:?}", s);
        assert_eq!(parse_u16(s), s.parse::<u16>().ok(), "u16 {:?}", s);
    }
    assert_eq!(parse_u16("65535"), Some(65535));
    assert_eq!(parse_u16("65536"), None);
    assert_eq!(parse_u16("-1"), None);
    assert_eq!(parse_i64("-17"), Some(-17));
}
