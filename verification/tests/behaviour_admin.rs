use aivyx_server::backup::{archive_time_text, backup_file_name, is_prunable};
use aivyx_server::error::{AivyxError, ServerError};
use aivyx_server::routes::agents::{
    check_create_agent, check_duplicate, created_profile, duplicated_profile, AgentProfile,
    CreateAgentRequest,
};
use aivyx_server::routes::tenants::parse_tenant_id;

fn config_message(r: Result<(), ServerError>) -> String {
    match r {
        Err(ServerError(AivyxError::Config(m))) => m,
        other => panic!("expected a config error, got {other:?}"),
    }
}

fn template(name: &str) -> AgentProfile {
    AgentProfile {
        name: name.to_string(),
        role: "tester".to_string(),
        soul: "template soul".to_string(),
        tool_ids: vec!["shell".to_string()],
        skills: vec![],
        autonomy_tier: None,
        provider: None,
        max_tokens: 4096,
        persona: None,
    }
}

#[test]
fn create_agent_gate() {
    assert!(check_create_agent("helper", false).is_ok());
    assert_eq!(config_message(check_create_agent("helper", true)), "agent already exists: helper");
    assert_eq!(config_message(check_create_agent("../etc", false)), "invalid resource name: ../etc");
    assert_eq!(config_message(check_create_agent("", true)), "invalid resource name: ");
}

#[test]
fn created_profile_takes_soul_and_persona() {
    let req = CreateAgentRequest {
        name: "helper".to_string(),
        role: "tester".to_string(),
        soul: Some("be brief".to_string()),
        persona: Some("{\"tone\":\"dry\"}".to_string()),
    };
    let p = created_profile(template("helper"), req);
    assert_eq!(p.soul, "be brief");
    assert_eq!(p.persona.as_deref(), Some("{\"tone\":\"dry\"}"));
    assert_eq!(p.tool_ids, vec!["shell".to_string()]);

    let bare = CreateAgentRequest {
        name: "helper".to_string(),
        role: "tester".to_string(),
        soul: None,
        persona: None,
    };
    assert_eq!(created_profile(template("helper"), bare), template("helper"));
}

#[test]
fn duplicate_agent_gate() {
    assert!(check_duplicate("coder", "coder-2", true, false).is_ok());
    assert_eq!(config_message(check_duplicate("coder", "coder-2", false, false)), "agent not found: coder");
    assert_eq!(
        config_message(check_duplicate("coder", "coder-2", true, true)),
        "agent already exists: coder-2"
    );
    assert_eq!(config_message(check_duplicate("a/b", "c", true, false)), "invalid resource name: a/b");
    assert_eq!(config_message(check_duplicate("coder", ".x", true, false)), "invalid resource name: .x");
}

#[test]
fn duplicated_profile_renames_only() {
    let p = duplicated_profile(template("coder"), "my-clone".to_string());
    assert_eq!(p.name, "my-clone");
    assert_eq!(AgentProfile { name: "coder".to_string(), ..p }, template("coder"));
}

#[test]
fn tenant_id_parsing() {
    let id = parse_tenant_id("550e8400-e29b-41d4-a716-446655440000").unwrap();
    assert_eq!(id.bytes[0], 0x55);
    assert_eq!(id.bytes[15], 0x00);
    match parse_tenant_id("not-a-uuid") {
        Err(ServerError(AivyxError::Config(m))) => assert_eq!(m, "invalid tenant ID: not-a-uuid"),
        other => panic!("unexpected {other:?}"),
    }
}

#[test]
fn created_archive_names_are_recognised() {
    let name = backup_file_name(1_700_000_000_000).unwrap();
    assert_eq!(archive_time_text(&name).unwrap(), "20231114-221320");
    assert!(is_prunable(&name, 1_700_000_001_000));
    assert!(!is_prunable(&name, 1_700_000_000_000));
}
