use aivyx_server::channels::manager::{ChannelConfig, MessageHandler, MAX_MESSAGES_PER_MINUTE};
use aivyx_server::error::{map_error, AivyxError, ServerError};
use aivyx_server::routes::sessions::{new_session_id, parse_session_id};

fn status_of(err: AivyxError) -> u16 {
    ServerError(err).status_and_message().0
}

fn body_of(err: AivyxError) -> (u16, String) {
    ServerError(err).status_and_message()
}

#[test]
fn rate_limit_maps_to_429() {
    assert_eq!(status_of(AivyxError::RateLimit("slow down".into())), 429);
}

#[test]
fn not_initialized_maps_to_503() {
    assert_eq!(status_of(AivyxError::NotInitialized("not ready".into())), 503);
}

#[test]
fn capability_denied_maps_to_403() {
    assert_eq!(status_of(AivyxError::CapabilityDenied("nope".into())), 403);
}

#[test]
fn error_body_has_code_field() {
    let (code, error) = body_of(AivyxError::RateLimit("test".into()));
    assert_eq!(code, 429);
    assert_eq!(error, "test");
}

#[test]
fn config_not_found_maps_to_404() {
    assert_eq!(status_of(AivyxError::Config("agent not found".into())), 404);
}

#[test]
fn llm_provider_error_maps_to_502() {
    assert_eq!(status_of(AivyxError::LlmProvider("model unavailable".into())), 502);
}

#[test]
fn http_error_maps_to_502() {
    assert_eq!(status_of(AivyxError::Http("connection refused".into())), 502);
}

#[test]
fn channel_error_maps_to_502() {
    assert_eq!(status_of(AivyxError::Channel("telegram poll failed".into())), 502);
}

#[test]
fn serialization_error_maps_to_400() {
    let serde_err = serde_json::from_str::<serde_json::Value>("not json").unwrap_err();
    assert_eq!(status_of(AivyxError::Serialization(serde_err.to_string())), 400);
}

#[test]
fn generic_error_maps_to_500_with_masked_message() {
    let (code, error) = body_of(AivyxError::Storage("database corruption detected".into()));
    assert_eq!(code, 500);
    assert_eq!(error, "internal server error");
    assert!(!error.contains("database corruption"));
}

#[test]
fn io_error_maps_to_500() {
    let server_err = ServerError::from(AivyxError::Io("no access".into()));
    assert_eq!(server_err.status_and_message().0, 500);
}

#[test]
fn toml_de_error_maps_to_400() {
    assert_eq!(status_of(AivyxError::TomlDe("expected string".into())), 400);
}

#[test]
fn config_without_not_found_maps_to_500() {
    assert_eq!(status_of(AivyxError::Config("invalid value".into())), 500);
}

#[test]
fn server_error_from_aivyx_error() {
    let server_err = ServerError::from(AivyxError::Agent("turn loop failed".into()));
    assert_eq!(server_err, ServerError(AivyxError::Agent("turn loop failed".into())));
    assert_eq!(server_err.status_and_message().0, 500);
}

#[test]
fn rate_limit_body_preserves_message() {
    let (code, error) = body_of(AivyxError::RateLimit("retry after 30s".into()));
    assert_eq!(code, 429);
    assert_eq!(error, "retry after 30s");
}

#[test]
fn capability_denied_body_preserves_message() {
    let (code, error) = body_of(AivyxError::CapabilityDenied("filesystem access denied".into()));
    assert_eq!(code, 403);
    assert_eq!(error, "filesystem access denied");
}

#[test]
fn session_id_parse_valid_uuid() {
    let result = parse_session_id("550e8400-e29b-41d4-a716-446655440000");
    assert!(result.is_ok());
}

#[test]
fn session_id_parse_invalid_returns_err() {
    assert!(parse_session_id("not-a-uuid").is_err());
}

#[test]
fn delete_session_rejects_invalid_id() {
    let err = parse_session_id("garbage").unwrap_err();
    assert_eq!(err, ServerError(AivyxError::Config("invalid session ID: garbage".into())));
    assert_eq!(map_error(&err.0).0, 500);
}

#[test]
fn delete_session_not_found_id_maps_correctly() {
    let err = ServerError(AivyxError::Config("session not found".into()));
    assert_eq!(err.status_and_message().0, 404);
}

#[test]
fn session_id_new_produces_valid_uuid() {
    let id = new_session_id();
    assert!(parse_session_id(id.as_str()).is_ok());
}

#[test]
fn session_id_display_roundtrip() {
    let id = new_session_id();
    let parsed = parse_session_id(id.as_str()).unwrap();
    assert_eq!(parsed.as_str(), id.as_str());
}

#[test]
fn session_id_parse_canonicalises_case() {
    let parsed = parse_session_id("550E8400-E29B-41D4-A716-446655440000").unwrap();
    assert_eq!(parsed.as_str(), "550e8400-e29b-41d4-a716-446655440000");
}

fn channel_config() -> ChannelConfig {
    ChannelConfig {
        name: "tg-test".into(),
        platform: "telegram".into(),
        agent: "assistant".into(),
        allowed_users: vec!["123456".into()],
        enabled: true,
        settings: vec![],
    }
}

#[test]
fn rate_limiter_allows_within_limit() {
    let mut handler = MessageHandler::new(channel_config());
    for _ in 0..MAX_MESSAGES_PER_MINUTE {
        assert!(!handler.is_rate_limited("user1"));
    }
}

#[test]
fn rate_limiter_blocks_over_limit() {
    let mut handler = MessageHandler::new(channel_config());
    for _ in 0..MAX_MESSAGES_PER_MINUTE {
        handler.is_rate_limited("user1");
    }
    assert!(handler.is_rate_limited("user1"));
}

#[test]
fn rate_limiter_per_user() {
    let mut handler = MessageHandler::new(channel_config());
    for _ in 0..MAX_MESSAGES_PER_MINUTE {
        handler.is_rate_limited("user1");
    }
    assert!(!handler.is_rate_limited("user2"));
}
