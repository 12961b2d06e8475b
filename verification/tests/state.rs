use aivyx_server::auth::session_cache::{SessionCache, SessionRecord};
use aivyx_server::backup::BackupConfig;
use aivyx_server::scaling::{ScalingConfig, SessionAffinityStrategy};
use aivyx_server::scheduler::is_due;
use aivyx_server::sso::oidc::{OidcValidator, SsoError};
use aivyx_server::sso::role_mapper::{GroupRoleMapping, RoleMapper};
use aivyx_server::sso::oidc::OidcClaims;
use aivyx_server::tenant::AivyxRole;

fn now_ms() -> i64 {
    chrono::Utc::now().timestamp_millis()
}

fn make_record(id: &str, expires_in_secs: i64) -> SessionRecord {
    SessionRecord {
        session_id: id.to_string(),
        user_id: format!("user-{id}"),
        role: AivyxRole::Operator,
        tenant_id: None,
        expires_at: now_ms() + expires_in_secs * 1000,
    }
}

#[test]
fn create_and_get_session() {
    let mut cache = SessionCache::new();
    let record = make_record("sess-1", 3600);
    let id = cache.create_session(record);
    assert_eq!(id, "sess-1");
    let found = cache.get_session("sess-1").unwrap();
    assert_eq!(found.user_id, "user-sess-1");
    assert_eq!(found.role, AivyxRole::Operator);
}

#[test]
fn get_nonexistent_session_returns_none() {
    let cache = SessionCache::new();
    assert!(cache.get_session("does-not-exist").is_none());
}

#[test]
fn expired_session_returns_none() {
    let mut cache = SessionCache::new();
    let record = make_record("expired", -1);
    cache.create_session(record);
    assert!(cache.get_session("expired").is_none());
}

#[test]
fn destroy_session() {
    let mut cache = SessionCache::new();
    cache.create_session(make_record("sess-2", 3600));
    assert!(cache.get_session("sess-2").is_some());
    cache.destroy_session("sess-2");
    assert!(cache.get_session("sess-2").is_none());
}

#[test]
fn destroy_nonexistent_session_is_noop() {
    let mut cache = SessionCache::new();
    cache.destroy_session("nope");
    assert_eq!(cache.len(), 0);
}

#[test]
fn cleanup_expired_removes_old_sessions() {
    let mut cache = SessionCache::new();
    cache.create_session(make_record("active", 3600));
    cache.create_session(make_record("expired-1", -1));
    cache.create_session(make_record("expired-2", -100));
    cache.cleanup_expired();
    assert!(cache.get_session("active").is_some());
    assert_eq!(cache.len(), 1);
}

#[test]
fn session_with_tenant_id() {
    let mut cache = SessionCache::new();
    let tid = uuid::Uuid::new_v4().to_string();
    let record = SessionRecord {
        session_id: "tenant-sess".into(),
        user_id: "alice".into(),
        role: AivyxRole::Admin,
        tenant_id: Some(tid.clone()),
        expires_at: now_ms() + 3600 * 1000,
    };
    cache.create_session(record);
    let found = cache.get_session("tenant-sess").unwrap();
    assert_eq!(found.tenant_id, Some(tid));
    assert_eq!(found.role, AivyxRole::Admin);
}

#[test]
fn backup_config_default() {
    let config = BackupConfig::default();
    assert!(!config.enabled);
    assert_eq!(config.schedule, "0 2 * * *");
    assert!(config.destination.is_empty());
    assert_eq!(config.retention_days, 30);
}

#[test]
fn default_scaling_config_is_not_stateless() {
    let config = ScalingConfig::default();
    assert!(!config.stateless_mode);
    assert_eq!(config.session_affinity, SessionAffinityStrategy::NoAffinity);
    assert!(!config.instance_id.is_empty());
}

#[test]
fn is_due_first_run() {
    let now = now_ms();
    assert!(is_due("* * * * *", None, now));
}

#[test]
fn is_due_recently_run() {
    let now = now_ms();
    assert!(!is_due("* * * * *", Some(now), now));
}

#[test]
fn is_due_invalid_cron() {
    let now = now_ms();
    assert!(!is_due("invalid cron", None, now));
}

fn test_mappings() -> Vec<GroupRoleMapping> {
    vec![
        GroupRoleMapping { group: "viewers".into(), role: AivyxRole::Viewer },
        GroupRoleMapping { group: "operators".into(), role: AivyxRole::Operator },
        GroupRoleMapping { group: "admins".into(), role: AivyxRole::Admin },
        GroupRoleMapping { group: "billing".into(), role: AivyxRole::Billing },
    ]
}

fn claims_with(groups: Vec<&str>) -> OidcClaims {
    OidcClaims {
        sub: "user".into(),
        email: None,
        groups: groups.into_iter().map(|g| g.to_string()).collect(),
        tenant_hint: None,
        exp: u64::MAX,
    }
}

#[test]
fn single_group_maps_correctly() {
    let mapper = RoleMapper::new(test_mappings());
    assert_eq!(mapper.map_claims(&claims_with(vec!["operators"])), AivyxRole::Operator);
}

#[test]
fn multiple_groups_highest_role_wins() {
    let mapper = RoleMapper::new(test_mappings());
    assert_eq!(mapper.map_claims(&claims_with(vec!["viewers", "admins", "billing"])), AivyxRole::Admin);
}

#[test]
fn no_matching_groups_defaults_to_viewer() {
    let mapper = RoleMapper::new(test_mappings());
    assert_eq!(mapper.map_claims(&claims_with(vec!["unknown-group"])), AivyxRole::Viewer);
}

#[test]
fn empty_groups_defaults_to_viewer() {
    let mapper = RoleMapper::new(test_mappings());
    assert_eq!(mapper.map_claims(&claims_with(vec![])), AivyxRole::Viewer);
}

#[test]
fn empty_mappings_defaults_to_viewer() {
    let mapper = RoleMapper::new(vec![]);
    assert_eq!(mapper.map_claims(&claims_with(vec!["admins"])), AivyxRole::Viewer);
}

#[test]
fn billing_group_maps_to_billing() {
    let mapper = RoleMapper::new(test_mappings());
    assert_eq!(mapper.map_claims(&claims_with(vec!["billing"])), AivyxRole::Billing);
}

#[test]
fn malformed_token_fails() {
    let validator = OidcValidator::new("https://idp.example.com".into(), "my-client".into());
    let result = validator.decode_payload("only.two");
    assert!(matches!(result, Err(SsoError::InvalidToken(_))));
    let result = validator.decode_payload("a.!!!invalid!!!.c");
    assert!(result.is_err());
}
