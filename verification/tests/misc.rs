use query_service::config::{AiAnalyzerConfig, QuickwitConfig, ServerConfig};
use query_service::query::{
    default_page, default_page_size, default_sort_by, default_sort_desc, default_time_range_type,
};
use query_service::quickwit::field_names;
use query_service::{AppError, Config};

#[test]
fn request_defaults() {
    assert_eq!(default_time_range_type(), "absolute");
    assert_eq!(default_page(), 1);
    assert_eq!(default_page_size(), 50);
    assert_eq!(default_sort_by(), "timestamp");
    assert!(default_sort_desc());
}

#[test]
fn searchable_fields() {
    assert_eq!(
        field_names(),
        vec![
            "timestamp",
            "message",
            "level",
            "service",
            "host",
            "env",
            "trace_id",
            "span_id",
            "source_file",
            "line_number",
        ]
    );
}

#[test]
fn error_messages_name_their_kind() {
    assert_eq!(
        AppError::QuickwitError("down".to_string()).message(),
        "Quickwit error: down"
    );
    assert_eq!(
        AppError::ValidationError("bad page".to_string()).message(),
        "Validation error: bad page"
    );
    assert_eq!(
        AppError::ParseError("no hits".to_string()).message(),
        "Parse error: no hits"
    );
}

#[test]
fn error_kinds_map_to_status_codes() {
    assert_eq!(AppError::ValidationError(String::new()).status_code(), 400);
    assert_eq!(AppError::QuickwitError(String::new()).status_code(), 502);
    assert_eq!(AppError::ParseError(String::new()).status_code(), 500);
}

#[test]
fn a_bare_message_is_a_validation_error() {
    let err: AppError = "oops".to_string().into();
    assert!(matches!(err, AppError::ValidationError(m) if m == "oops"));
}

#[test]
fn config_parts_are_kept() {
    let config = Config::load(
        ServerConfig {
            host: "0.0.0.0".to_string(),
            port: 8080,
        },
        QuickwitConfig {
            base_url: "http://localhost:7280".to_string(),
            index_id: "logs".to_string(),
        },
        AiAnalyzerConfig {
            base_url: "http://localhost:9999".to_string(),
            api_key: None,
            model: "small".to_string(),
        },
    );
    assert_eq!(config.server.host, "0.0.0.0");
    assert_eq!(config.server.port, 8080);
    assert_eq!(config.quickwit.base_url, "http://localhost:7280");
    assert_eq!(config.quickwit.index_id, "logs");
    assert_eq!(config.ai_analyzer.model, "small");
    assert!(config.ai_analyzer.api_key.is_none());
}
