use aivyx_server::error::{map_error, AivyxError, ServerError};
use aivyx_server::routes::a2a::{extract_text_from_parts, A2aPart};
use aivyx_server::routes::admin::generate_random_token;
use aivyx_server::routes::tasks::TaskId;
use aivyx_server::routes::ws::parse_approval_prompt;
use aivyx_server::routes::ws_voice::find_sentence_boundary;
use aivyx_server::security::capability_audit::{audit_agent_capabilities, format_scope, CapabilityScope};
use aivyx_server::startup::bearer_token_hash;
use aivyx_server::validation::{validate_name, validate_secret_name};

#[test]
fn extract_text_joins_parts() {
    let parts = vec![
        A2aPart::Text { text: "Hello".into() },
        A2aPart::Data { data: "{\"key\":\"value\"}".into() },
        A2aPart::Text { text: "world".into() },
    ];
    assert_eq!(extract_text_from_parts(&parts), "Hello\nworld");
}

#[test]
fn extract_text_empty_parts() {
    let parts: Vec<A2aPart> = vec![];
    assert_eq!(extract_text_from_parts(&parts), "");
}

#[test]
fn a2a_truncate_short_string() {
    assert_eq!(aivyx_server::routes::a2a::truncate("hello", 10), "hello");
}

#[test]
fn a2a_truncate_long_string() {
    let long = "a".repeat(300);
    let result = aivyx_server::routes::a2a::truncate(&long, 200);
    assert!(result.ends_with("..."));
    assert!(result.len() <= 204);
}

#[test]
fn scheduler_truncate_short_string() {
    assert_eq!(aivyx_server::scheduler::truncate("hello", 10), "hello");
}

#[test]
fn scheduler_truncate_long_string() {
    let long = "a".repeat(300);
    let result = aivyx_server::scheduler::truncate(&long, 200);
    assert!(result.len() <= 204);
    assert!(result.ends_with("..."));
}

#[test]
fn random_token_is_hex_and_long_enough() {
    let token = generate_random_token();
    assert!(token.len() >= 64);
    assert!(token.chars().all(|c| c.is_ascii_hexdigit()));
}

#[test]
fn random_tokens_are_unique() {
    let a = generate_random_token();
    let b = generate_random_token();
    assert_ne!(a, b);
}

#[test]
fn plugins_validate_name_rejects_traversal() {
    assert!(validate_name("../etc/passwd").is_err());
    assert!(validate_name("foo/bar").is_err());
    assert!(validate_name("").is_err());
    assert!(validate_name("a".repeat(65).as_str()).is_err());
}

#[test]
fn validate_name_accepts_valid() {
    assert!(validate_name("my-plugin").is_ok());
    assert!(validate_name("plugin_v2").is_ok());
    assert!(validate_name("test").is_ok());
}

#[test]
fn projects_validate_name_rejects_traversal() {
    assert!(validate_name("../etc").is_err());
    assert!(validate_name("foo/bar").is_err());
    assert!(validate_name("foo\\bar").is_err());
    assert!(validate_name("").is_err());
    assert!(validate_name("a\0b").is_err());
}

#[test]
fn validate_name_rejects_too_long() {
    assert!(validate_name(&"x".repeat(65)).is_err());
}

#[test]
fn validate_name_accepts_max_length() {
    assert!(validate_name(&"x".repeat(64)).is_ok());
}

#[test]
fn validate_name_accepts_valid_names() {
    assert!(validate_name("my-project").is_ok());
    assert!(validate_name("project_v2").is_ok());
    assert!(validate_name("a").is_ok());
}

#[test]
fn valid_names() {
    assert!(validate_name("my-agent").is_ok());
    assert!(validate_name("agent_v2").is_ok());
    assert!(validate_name("test123").is_ok());
}

#[test]
fn rejects_empty() {
    assert!(validate_name("").is_err());
}

#[test]
fn rejects_path_traversal() {
    assert!(validate_name("../etc/passwd").is_err());
    assert!(validate_name("foo/bar").is_err());
    assert!(validate_name("foo\\bar").is_err());
}

#[test]
fn rejects_leading_dot() {
    assert!(validate_name(".hidden").is_err());
}

#[test]
fn rejects_control_chars() {
    assert!(validate_name("foo\nbar").is_err());
    assert!(validate_name("foo\x00bar").is_err());
}

#[test]
fn rejects_leading_trailing_whitespace() {
    assert!(validate_name(" leading").is_err());
    assert!(validate_name("trailing ").is_err());
}

#[test]
fn rejects_too_long() {
    let long = "a".repeat(65);
    assert!(validate_name(&long).is_err());
}

#[test]
fn secret_name_allows_longer() {
    let name = "a".repeat(128);
    assert!(validate_secret_name(&name).is_ok());
    let too_long = "a".repeat(129);
    assert!(validate_secret_name(&too_long).is_err());
}

#[test]
fn task_id_parse_valid() {
    let uuid_str = "550e8400-e29b-41d4-a716-446655440000";
    assert!(TaskId::parse(uuid_str).is_ok());
}

#[test]
fn task_id_parse_invalid() {
    assert!(TaskId::parse("not-a-uuid").is_err());
}

#[test]
fn task_id_roundtrip() {
    let id = TaskId { bytes: *uuid::Uuid::new_v4().as_bytes() };
    let s = id.to_text();
    let parsed = TaskId::parse(&s).unwrap();
    assert_eq!(id, parsed);
}

#[test]
fn invalid_task_id_error_message() {
    let bad_id = "xyz";
    let err = ServerError(AivyxError::Config(format!("invalid task ID: {bad_id}")));
    let (status, _) = map_error(&err.0);
    assert_eq!(status, 500);
}

#[test]
fn task_not_found_maps_to_404() {
    let err = ServerError(AivyxError::Config("task not found: abc".into()));
    let (status, _) = map_error(&err.0);
    assert_eq!(status, 404);
}

#[test]
fn parse_approval_prompt_extracts_tool() {
    let prompt = "Tool `shell` wants to execute with input: ls -la\nApprove? [y/n]";
    let (tool, input) = parse_approval_prompt(prompt);
    assert_eq!(tool, "shell");
    assert!(input.contains("ls -la"));
}

#[test]
fn parse_approval_prompt_fallback() {
    let prompt = "Do you approve this action?";
    let (tool, input) = parse_approval_prompt(prompt);
    assert_eq!(tool, "unknown");
    assert_eq!(input, prompt);
}

#[test]
fn find_sentence_boundary_period() {
    assert_eq!(find_sentence_boundary("Hello world. This"), Some(12));
}

#[test]
fn find_sentence_boundary_question() {
    assert_eq!(find_sentence_boundary("How are you? Fine"), Some(12));
}

#[test]
fn find_sentence_boundary_exclamation() {
    assert_eq!(find_sentence_boundary("Wow! That"), Some(4));
}

#[test]
fn find_sentence_boundary_none() {
    assert_eq!(find_sentence_boundary("Hello world"), None);
}

#[test]
fn find_sentence_boundary_end_of_string() {
    assert_eq!(find_sentence_boundary("Done."), Some(5));
}

#[test]
fn find_sentence_boundary_abbreviation() {
    assert_eq!(find_sentence_boundary("e.g."), Some(4));
    assert_eq!(find_sentence_boundary("e.g. something"), Some(4));
}

#[test]
fn empty_agents_dir() {
    let report = audit_agent_capabilities(&[], 0);
    assert_eq!(report.agents_scanned, 0);
    assert!(report.agents.is_empty());
    assert!(report.warnings.is_empty());
}

#[test]
fn nonexistent_dir_returns_empty_report() {
    let report = audit_agent_capabilities(&[], 0);
    assert_eq!(report.agents_scanned, 0);
}

#[test]
fn format_scope_display() {
    assert_eq!(format_scope(&CapabilityScope::Filesystem { root: "/home".into() }), "Filesystem(/home)");
    assert_eq!(format_scope(&CapabilityScope::Shell { allowed_commands: vec![] }), "Shell(*)");
    assert_eq!(
        format_scope(&CapabilityScope::Shell { allowed_commands: vec!["ls".into(), "cat".into()] }),
        "Shell([ls, cat])"
    );
    assert_eq!(format_scope(&CapabilityScope::Network { hosts: vec![], ports: vec![] }), "Network(*)");
    assert_eq!(format_scope(&CapabilityScope::Calendar), "Calendar");
    assert_eq!(format_scope(&CapabilityScope::Custom("memory".into())), "Custom(memory)");
}

#[test]
fn bearer_token_hashing() {
    let expected = bearer_token_hash("test-token");
    let actual = bearer_token_hash("test-token");
    assert_eq!(expected, actual);
}
