use mediavault_auth::config::{parse_cors_origins, Config, LogFormat};
use mediavault_auth::error::{AppError, ErrorResponse, OptionExt};
use mediavault_auth::health::{HealthResponse, ReadyResponse};
use mediavault_auth::models::{cover_mime_type, SongMetadata};

#[test]
fn test_error_codes() {
    assert_eq!(AppError::NotFound("test".into()).error_code(), "NOT_FOUND");
    assert_eq!(AppError::Unauthorized("test".into()).error_code(), "UNAUTHORIZED");
    assert_eq!(AppError::Forbidden("test".into()).error_code(), "FORBIDDEN");
}

#[test]
fn test_status_codes() {
    assert_eq!(AppError::NotFound("test".into()).status_code(), 404);
    assert_eq!(AppError::Unauthorized("test".into()).status_code(), 401);
    assert_eq!(AppError::Internal("test".into()).status_code(), 500);
}

#[test]
fn every_error_class_has_its_code_and_status() {
    let cases = [
        (AppError::Validation("v".into()), "VALIDATION_ERROR", 422),
        (AppError::Conflict("c".into()), "CONFLICT", 409),
        (AppError::BadRequest("b".into()), "BAD_REQUEST", 400),
        (AppError::Forbidden("f".into()), "FORBIDDEN", 403),
        (AppError::Internal("i".into()), "INTERNAL_ERROR", 500),
    ];
    for (e, code, status) in cases {
        assert_eq!(e.error_code(), code);
        assert_eq!(e.status_code(), status);
    }
    let io = AppError::Io(std::io::Error::new(std::io::ErrorKind::Other, "disk"));
    assert_eq!((io.error_code(), io.status_code()), ("IO_ERROR", 500));
}

#[test]
fn named_errors_carry_fixed_messages() {
    assert!(matches!(AppError::invalid_credentials(), AppError::Unauthorized(m) if m == "Invalid username or password"));
    assert!(matches!(AppError::invalid_token(), AppError::Unauthorized(m) if m == "Invalid or expired token"));
    assert!(matches!(AppError::song_not_found("a.mp3"), AppError::NotFound(m) if m == "Song not found: a.mp3"));
    assert!(matches!(AppError::path_traversal(), AppError::BadRequest(_)));
}

#[test]
fn error_response_and_option_helper() {
    let r = ErrorResponse::new("TEST_ERROR".to_string(), "Test message".to_string());
    assert_eq!(r.error, "TEST_ERROR");
    assert_eq!(r.message, "Test message");
    assert!(r.details.is_none());
    let r = r.with_details(serde_json::Value::Bool(true));
    assert_eq!(r.details, Some(serde_json::Value::Bool(true)));
    assert_eq!(Some(3).ok_or_not_found("x".to_string()).unwrap(), 3);
    assert!(matches!(None::<u8>.ok_or_not_found("gone".to_string()), Err(AppError::NotFound(m)) if m == "gone"));
}

fn config_with(host: &str, port: u16) -> Config {
    Config {
        host: host.to_string(),
        port,
        music_folder: "./music".to_string(),
        users_file: "./data/users.json".to_string(),
        jwt_secret: "s".to_string(),
        jwt_expiry_days: 7,
        log_level: "info".to_string(),
        log_format: LogFormat::Pretty,
        cors_origins: vec!["*".to_string()],
    }
}

#[test]
fn bind_address_joins_host_and_port() {
    assert_eq!(config_with("0.0.0.0", 8080).bind_address(), "0.0.0.0:8080");
    assert_eq!(config_with("localhost", 0).bind_address(), "localhost:0");
    assert_eq!(config_with("h", 65535).bind_address(), "h:65535");
}

#[test]
fn log_format_parse() {
    assert_eq!(LogFormat::parse("json"), LogFormat::Json);
    assert_eq!(LogFormat::parse("JSON"), LogFormat::Json);
    assert_eq!(LogFormat::parse("pretty"), LogFormat::Pretty);
    assert_eq!(LogFormat::parse("anything"), LogFormat::Pretty);
}

#[test]
fn readiness_needs_both_checks() {
    let r = ReadyResponse::from_checks(true, true);
    assert_eq!(r.status, "ready");
    assert!(r.is_ready());
    let r = ReadyResponse::from_checks(true, false);
    assert_eq!(r.status, "not_ready");
    assert!(!r.users_file);
    assert_eq!(HealthResponse::healthy("1.0", "svc").status, "healthy");
}

#[test]
fn song_metadata_defaults_missing_tags() {
    let s = SongMetadata::from_tags(Some("T".to_string()), None, None, 125, "a.flac".to_string());
    assert_eq!(s.title, "T");
    assert_eq!(s.artist, "Unknown");
    assert_eq!(s.album, "Unknown");
    assert_eq!(s.duration, Some(125));
    assert_eq!(s.file, "a.flac");
    assert_eq!(cover_mime_type(Some("image/png")), "image/png");
    assert_eq!(cover_mime_type(None), "application/octet-stream");
}

fn defaults() -> Config {
    Config::from_parts(None, None, None, None, None, "generated".to_string(), None, None, None, None)
}

#[test]
fn test_default_config() {
    let config = defaults();

    assert_eq!(config.host, "0.0.0.0");
    assert_eq!(config.port, 8080);
    assert_eq!(config.log_level, "info");
    assert_eq!(config.jwt_expiry_days, 7);
}

#[test]
fn default_config_other_fields() {
    let config = defaults();
    assert_eq!(config.music_folder, "./music");
    assert_eq!(config.users_file, "./data/users.json");
    assert_eq!(config.jwt_secret, "generated");
    assert_eq!(config.log_format, LogFormat::Pretty);
    assert_eq!(config.cors_origins, vec!["*".to_string()]);
    let given = Config::from_parts(
        Some("127.0.0.1".to_string()),
        Some(9000),
        None,
        None,
        Some("from-env".to_string()),
        "generated".to_string(),
        Some(30),
        None,
        Some("Json".to_string()),
        Some("a, b".to_string()),
    );
    assert_eq!(given.bind_address(), "127.0.0.1:9000");
    assert_eq!(given.jwt_secret, "from-env");
    assert_eq!(given.jwt_expiry_days, 30);
    assert_eq!(given.log_format, LogFormat::Json);
    assert_eq!(given.cors_origins, vec!["a".to_string(), "b".to_string()]);
}

#[test]
fn test_cors_origins_parsing() {
    let origins = parse_cors_origins("http://localhost:3000, http://example.com");

    assert_eq!(origins.len(), 2);
    assert!(origins.contains(&"http://localhost:3000".to_string()));
    assert!(origins.contains(&"http://example.com".to_string()));
}

#[test]
fn cors_parsing_drops_empty_pieces() {
    assert_eq!(parse_cors_origins(""), Vec::<String>::new());
    assert_eq!(parse_cors_origins(" , ,"), Vec::<String>::new());
    assert_eq!(parse_cors_origins("*"), vec!["*".to_string()]);
    assert_eq!(parse_cors_origins(",x,,  y  ,"), vec!["x".to_string(), "y".to_string()]);
}
