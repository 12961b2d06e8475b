use aivyx_server::middleware::auth::{AuthFailureLimiter, AuthRejection, MAX_AUTH_FAILURES};
use aivyx_server::middleware::tenant_auth::{parse_tags, KeyLookup, TenantAuthError, TenantLookup};
use aivyx_server::middleware::trace_context::{format_traceparent, parse_traceparent, propagated_traceparent};
use aivyx_server::startup::{bearer_token_hash, cors_policy, is_sidecar_origin, CorsPolicy};
use aivyx_server::tenant::{AivyxRole, TenantStatus};

fn hash_of(token: &str) -> [u8; 32] {
    bearer_token_hash(token)
}

#[test]
fn bearer_hash_is_sha256_of_token() {
    let expected: [u8; 32] = [
        76, 93, 201, 183, 112, 137, 5, 247, 127, 94, 93, 22, 49, 107, 93, 251, 66, 94, 104, 203, 50, 109, 205, 85,
        168, 96, 233, 10, 119, 7, 3, 30,
    ];
    assert_eq!(bearer_token_hash("test-token"), expected);
}

#[test]
fn auth_accepts_right_token() {
    let mut l = AuthFailureLimiter::new();
    let h = hash_of("secret");
    assert_eq!(l.authenticate(Some("10.0.0.1"), Some("Bearer secret"), &h, 1000), Ok(()));
}

#[test]
fn auth_refuses_missing_and_malformed_headers() {
    let mut l = AuthFailureLimiter::new();
    let h = hash_of("secret");
    let missing = l.authenticate(Some("10.0.0.1"), None, &h, 1000).unwrap_err();
    assert_eq!(missing, AuthRejection::MissingHeader);
    assert_eq!(missing.status(), 401);
    assert_eq!(missing.reason(), "missing authorization header");
    let malformed = l.authenticate(Some("10.0.0.1"), Some("Basic abc"), &h, 1000).unwrap_err();
    assert_eq!(malformed, AuthRejection::MalformedHeader);
    assert_eq!(malformed.reason(), "malformed authorization header");
    let wrong = l.authenticate(Some("10.0.0.1"), Some("Bearer nope"), &h, 1000).unwrap_err();
    assert_eq!(wrong, AuthRejection::InvalidToken);
    assert_eq!(wrong.reason(), "invalid bearer token");
}

#[test]
fn auth_limits_an_ip_after_ten_failures() {
    let mut l = AuthFailureLimiter::new();
    let h = hash_of("secret");
    for i in 0..MAX_AUTH_FAILURES {
        assert_eq!(l.authenticate(Some("10.0.0.9"), Some("Bearer bad"), &h, 1000 + i as i64), Err(AuthRejection::InvalidToken));
    }
    let r = l.authenticate(Some("10.0.0.9"), Some("Bearer secret"), &h, 2000).unwrap_err();
    assert_eq!(r, AuthRejection::TooManyFailures);
    assert_eq!(r.status(), 429);
    assert_eq!(r.reason(), "too many failed auth attempts");
    // Another IP is not affected.
    assert_eq!(l.authenticate(Some("10.0.0.8"), Some("Bearer secret"), &h, 2000), Ok(()));
    // After the window the failures expire.
    assert_eq!(l.authenticate(Some("10.0.0.9"), Some("Bearer secret"), &h, 1000 + 60_000 + 10), Ok(()));
}

#[test]
fn auth_without_ip_is_never_limited() {
    let mut l = AuthFailureLimiter::new();
    let h = hash_of("secret");
    for _ in 0..20 {
        assert!(l.authenticate(None, Some("Bearer bad"), &h, 5).is_err());
    }
    assert_eq!(l.authenticate(None, Some("Bearer secret"), &h, 5), Ok(()));
}

#[test]
fn tags_last_pair_wins_and_trims() {
    let tags = parse_tags(" team = core , cost=42,team=infra,junk, =x");
    let mut sorted = tags.clone();
    sorted.sort();
    assert_eq!(
        sorted,
        vec![
            ("".to_string(), "x".to_string()),
            ("cost".to_string(), "42".to_string()),
            ("team".to_string(), "infra".to_string())
        ]
    );
}

#[test]
fn tags_of_empty_header_are_empty() {
    assert!(parse_tags("").is_empty());
}

#[test]
fn tenant_key_of_active_tenant_is_admitted() {
    let mut l = AuthFailureLimiter::new();
    let h = hash_of("legacy");
    let key = KeyLookup::Found { tenant_id: "t1".into(), key_id: "k1".into(), role: AivyxRole::Operator };
    let tenant = Some(TenantLookup::Found { name: "Acme".into(), status: TenantStatus::Active });
    let ctx = l.finish_tenant_auth(Some("1.2.3.4"), "tok", &h, key, tenant, parse_tags("a=b"), 7).unwrap();
    assert_eq!(ctx.tenant_id.as_deref(), Some("t1"));
    assert_eq!(ctx.tenant_name.as_deref(), Some("Acme"));
    assert_eq!(ctx.key_id.as_deref(), Some("k1"));
    assert_eq!(ctx.role, AivyxRole::Operator);
    assert_eq!(ctx.tags, vec![("a".to_string(), "b".to_string())]);
}

#[test]
fn tenant_key_of_suspended_tenant_is_refused() {
    let mut l = AuthFailureLimiter::new();
    let h = hash_of("legacy");
    let key = KeyLookup::Found { tenant_id: "t1".into(), key_id: "k1".into(), role: AivyxRole::Admin };
    let tenant = Some(TenantLookup::Found {
        name: "Acme".into(),
        status: TenantStatus::Suspended { reason: "unpaid".into() },
    });
    let err = l.finish_tenant_auth(None, "tok", &h, key, tenant, vec![], 7).unwrap_err();
    assert_eq!(err.status(), 403);
    assert_eq!(err.message(), "tenant suspended: unpaid");
    let key = KeyLookup::Found { tenant_id: "t1".into(), key_id: "k1".into(), role: AivyxRole::Admin };
    let err = l.finish_tenant_auth(None, "tok", &h, key, Some(TenantLookup::Failed), vec![], 7).unwrap_err();
    assert_eq!(err, TenantAuthError::Internal);
    assert_eq!(err.status(), 500);
    assert_eq!(err.message(), "internal server error");
    let key = KeyLookup::Found { tenant_id: "t1".into(), key_id: "k1".into(), role: AivyxRole::Admin };
    let err = l.finish_tenant_auth(None, "tok", &h, key, Some(TenantLookup::NotFound), vec![], 7).unwrap_err();
    assert_eq!(err.message(), "tenant not found for API key");
    let key = KeyLookup::Found { tenant_id: "t1".into(), key_id: "k1".into(), role: AivyxRole::Admin };
    let deleted = Some(TenantLookup::Found { name: "Acme".into(), status: TenantStatus::Deleted });
    let err = l.finish_tenant_auth(None, "tok", &h, key, deleted, vec![], 7).unwrap_err();
    assert_eq!(err.message(), "tenant has been deleted");
}

#[test]
fn unknown_key_falls_back_to_legacy_token() {
    let mut l = AuthFailureLimiter::new();
    let h = hash_of("legacy");
    let ctx = l.finish_tenant_auth(None, "legacy", &h, KeyLookup::NotFound, None, vec![], 7).unwrap();
    assert_eq!(ctx.role, AivyxRole::Admin);
    assert!(ctx.tenant_id.is_none());
    let err = l.finish_tenant_auth(None, "other", &h, KeyLookup::Failed, None, vec![], 7).unwrap_err();
    assert_eq!(err, TenantAuthError::Auth(AuthRejection::InvalidToken));
    assert_eq!(err.status(), 401);
}

#[test]
fn sidecar_origins() {
    assert!(is_sidecar_origin(b"tauri://localhost"));
    assert!(is_sidecar_origin(b"http://localhost"));
    assert!(is_sidecar_origin(b"http://localhost:1420"));
    assert!(is_sidecar_origin(b"https://127.0.0.1:8443"));
    assert!(!is_sidecar_origin(b"http://localhost.evil.com"));
    assert!(!is_sidecar_origin(b"https://example.com"));
    assert!(!is_sidecar_origin(b"ftp://localhost"));
    assert!(!is_sidecar_origin(&[0xff, 0xfe]));
}

#[test]
fn cors_policy_prefers_configured_origins() {
    let o = vec!["https://app.example".to_string()];
    assert_eq!(cors_policy(Some(o.clone()), true), CorsPolicy::Origins(o));
    assert_eq!(cors_policy(Some(vec![]), true), CorsPolicy::Sidecar);
    assert_eq!(cors_policy(None, false), CorsPolicy::DenyAll);
}

#[test]
fn traceparent_format_then_parse_gives_parts_back() {
    let tp = format_traceparent("4bf92f3577b34da6a3ce929d0e0e4736", "00f067aa0ba902b7", "01");
    assert_eq!(tp, "00-4bf92f3577b34da6a3ce929d0e0e4736-00f067aa0ba902b7-01");
    let (t, p, f) = parse_traceparent(&tp).unwrap();
    assert_eq!((t.as_str(), p.as_str(), f.as_str()), ("4bf92f3577b34da6a3ce929d0e0e4736", "00f067aa0ba902b7", "01"));
}

#[test]
fn valid_incoming_traceparent_is_propagated() {
    let incoming = "00-4bf92f3577b34da6a3ce929d0e0e4736-00f067aa0ba902b7-01";
    assert_eq!(propagated_traceparent(Some(incoming), "generated".into()), incoming);
    assert_eq!(propagated_traceparent(Some("garbage"), "generated".into()), "generated");
    assert_eq!(propagated_traceparent(None, "generated".into()), "generated");
}
