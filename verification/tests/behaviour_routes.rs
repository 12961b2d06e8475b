use aivyx_server::backup::{
    archive_time_text, backup_file_name, is_excluded_name, is_prunable, prune_cutoff, select_prunable,
};
use aivyx_server::engine::AutonomyTier;
use aivyx_server::error::{AivyxError, ServerError};
use aivyx_server::routes::a2a::{
    dispatch_method, final_event, mission_to_a2a_task, send_goal, A2aMessage, A2aMethod, A2aPart, A2aRole,
    A2aTaskState, Mission, Step, StepKind, StepStatus, TaskStatus,
};
use aivyx_server::routes::webhooks::{find_trigger, signature_header, verify_signature, webhook_prompt, TriggerConfig};
use aivyx_server::scheduler::{due_entries, finish_run, ScheduleEntry};
use aivyx_server::security::capability_audit::{
    audit_agent_capabilities, AuditedProfile, Capability, CapabilityScope, CapabilityWarning,
};
use aivyx_server::task_recovery::recover_mission;

fn denied(r: Result<(), ServerError>) -> String {
    match r {
        Err(ServerError(AivyxError::CapabilityDenied(m))) => m,
        other => panic!("expected a denial, got {other:?}"),
    }
}

#[test]
fn webhook_signature_checks() {
    let secret = b"It's a Secret to Everybody";
    let body = b"Hello, World!";
    let good = "sha256=757107ea0eb2509fc211221cce984b8a37570b6d7586c22c46f4379c8b043e17";
    assert!(verify_signature(secret, body, good).is_ok());
    let upper = "sha256=757107EA0EB2509FC211221CCE984B8A37570B6D7586C22C46F4379C8B043E17";
    assert!(verify_signature(secret, body, upper).is_ok());
    assert_eq!(denied(verify_signature(secret, body, "md5=abc")), "invalid signature format");
    assert_eq!(denied(verify_signature(secret, body, "sha256=xyz")), "invalid signature hex");
    assert_eq!(denied(verify_signature(secret, body, "sha256=abc")), "invalid signature hex");
    let other = "sha256=0000000000000000000000000000000000000000000000000000000000000000";
    assert_eq!(denied(verify_signature(secret, body, other)), "HMAC signature verification failed");
    assert_eq!(denied(verify_signature(secret, b"Hello, World?", good)), "HMAC signature verification failed");
    assert_eq!(denied(signature_header(None).map(|_| ())), "missing X-Hub-Signature-256 header");
}

#[test]
fn webhook_trigger_lookup() {
    let t = |name: &str, enabled: bool| TriggerConfig {
        name: name.into(),
        agent: "a".into(),
        prompt_template: "p".into(),
        secret_ref: None,
        enabled,
    };
    let triggers = vec![t("deploy", false), t("deploy", true), t("other", true)];
    let found = find_trigger(&triggers, "deploy").unwrap();
    assert!(found.enabled);
    match find_trigger(&triggers, "missing") {
        Err(ServerError(AivyxError::Config(m))) => assert_eq!(m, "webhook trigger not found: missing"),
        _ => panic!("expected not found"),
    }
}

#[test]
fn webhook_prompt_replaces_every_placeholder() {
    assert_eq!(webhook_prompt("Event: {payload} / again {payload}", "X"), "Event: X / again X");
    assert_eq!(webhook_prompt("no placeholder", "X"), "no placeholder");
    assert_eq!(webhook_prompt("{payload}", "{payload}"), "{payload}");
}

#[test]
fn backup_names_and_exclusions() {
    assert_eq!(backup_file_name(0).unwrap(), "aivyx-backup-19700101-000000.tar.gz");
    assert_eq!(backup_file_name(1_700_000_000_000).unwrap(), "aivyx-backup-20231114-221320.tar.gz");
    assert!(is_excluded_name("scratch.tmp"));
    assert!(is_excluded_name("session.lock"));
    assert!(is_excluded_name("tmp"));
    assert!(is_excluded_name(".hidden"));
    assert!(!is_excluded_name("config.toml"));
    assert!(!is_excluded_name("tmpfile"));
    assert_eq!(archive_time_text("aivyx-backup-20240101-000000.tar.gz").unwrap(), "20240101-000000");
    assert!(archive_time_text("aivyx-backup-.tar.gz").unwrap().is_empty());
    assert!(archive_time_text("backup.tar.gz").is_none());
}

#[test]
fn backup_pruning_decisions() {
    let day = 86_400_000i64;
    let now = 1_700_000_000_000i64;
    assert_eq!(prune_cutoff(now, 30), now - 30 * day);
    assert!(is_prunable("aivyx-backup-20200101-000000.tar.gz", now));
    assert!(!is_prunable("aivyx-backup-20300101-000000.tar.gz", now));
    assert!(!is_prunable("aivyx-backup-garbage.tar.gz", now));
    assert!(!is_prunable("notes.txt", now));
    let names: Vec<String> = vec![
        "aivyx-backup-20200101-000000.tar.gz".into(),
        "aivyx-backup-20231113-000000.tar.gz".into(),
        "readme".into(),
        "aivyx-backup-20231001-000000.tar.gz".into(),
    ];
    assert_eq!(select_prunable(&names, now, 30), vec![0, 3]);
    assert_eq!(select_prunable(&names, now, 0), vec![0, 1, 3]);
}

fn entry(name: &str, cron: &str, enabled: bool, last: Option<i64>) -> ScheduleEntry {
    ScheduleEntry {
        name: name.into(),
        agent: "assistant".into(),
        cron: cron.into(),
        prompt: "go".into(),
        team: None,
        enabled,
        notify: true,
        last_run_at: last,
    }
}

#[test]
fn scheduler_picks_enabled_due_entries() {
    let now = chrono::Utc::now().timestamp_millis();
    let entries = vec![
        entry("a", "* * * * *", true, None),
        entry("b", "* * * * *", false, None),
        entry("c", "* * * * *", true, Some(now)),
        entry("d", "not a cron", true, None),
    ];
    assert_eq!(due_entries(&entries, now), vec![0]);
}

#[test]
fn scheduler_run_report() {
    let mut e = entry("a", "* * * * *", true, None);
    let rep = finish_run(&mut e, Ok("x".repeat(300)), 42);
    assert_eq!(e.last_run_at, Some(42));
    assert!(rep.success);
    assert_eq!(rep.result_summary, format!("{}...", "x".repeat(200)));
    assert_eq!(rep.notification, Some("x".repeat(300)));
    let rep = finish_run(&mut e, Err("boom".into()), 43);
    assert!(!rep.success);
    assert_eq!(rep.result_summary, "boom");
    assert!(rep.notification.is_none());
}

fn profile(name: &str, tier: Option<AutonomyTier>, scopes: Vec<CapabilityScope>) -> AuditedProfile {
    AuditedProfile {
        name: name.into(),
        role: "ops".into(),
        autonomy_tier: tier,
        capabilities: scopes.into_iter().map(|s| Capability { scope: s, pattern: "*".into() }).collect(),
        tool_ids: vec!["shell".into()],
    }
}

#[test]
fn capability_audit_warnings() {
    let p = profile(
        "free-agent",
        Some(AutonomyTier::Free),
        vec![
            CapabilityScope::Shell { allowed_commands: vec![] },
            CapabilityScope::Filesystem { root: "/".into() },
            CapabilityScope::Network { hosts: vec![], ports: vec![443] },
            CapabilityScope::Custom("memory".into()),
            CapabilityScope::Custom("mcp:github".into()),
        ],
    );
    let report = audit_agent_capabilities(&[p], 5);
    assert_eq!(report.generated_at, 5);
    assert_eq!(report.agents_scanned, 1);
    assert_eq!(report.agents[0].autonomy_tier, "Free");
    assert_eq!(report.agents[0].tool_count, 1);
    assert_eq!(report.agents[0].capabilities[2].scope, "Network(ports=[443])");
    assert_eq!(
        report.warnings,
        vec![
            CapabilityWarning::WildcardShell { agent: "free-agent".into() },
            CapabilityWarning::WildcardFilesystem { agent: "free-agent".into(), root: "/".into() },
            CapabilityWarning::WildcardNetwork { agent: "free-agent".into() },
            CapabilityWarning::UnrestrictedCustom { agent: "free-agent".into(), scope: "memory".into() },
            CapabilityWarning::HighAutonomyWithBroadScope {
                agent: "free-agent".into(),
                tier: "Free".into(),
                scope_count: 5
            },
        ]
    );
    let leash = profile(
        "leash",
        Some(AutonomyTier::Leash),
        vec![CapabilityScope::Calendar, CapabilityScope::Calendar, CapabilityScope::Calendar],
    );
    let report = audit_agent_capabilities(&[leash], 0);
    assert!(report.warnings.is_empty());
    assert_eq!(report.agents[0].autonomy_tier, "Leash");
    let none = profile("plain", None, vec![]);
    assert_eq!(audit_agent_capabilities(&[none], 0).agents[0].autonomy_tier, "Default");
}

#[test]
fn network_scope_with_hosts_and_ports() {
    let s = CapabilityScope::Network { hosts: vec!["a.com".into(), "b.com".into()], ports: vec![80, 443] };
    assert_eq!(
        aivyx_server::security::capability_audit::format_scope(&s),
        "Network(hosts=[a.com, b.com], ports=[80, 443])"
    );
    let e = CapabilityScope::Email { allowed_recipients: vec!["x@y".into()] };
    assert_eq!(aivyx_server::security::capability_audit::format_scope(&e), "Email([x@y])");
}

fn step(index: usize, status: StepStatus, kind: StepKind, result: Option<&str>) -> Step {
    Step { index, description: format!("do {index}"), kind, status, result: result.map(|s| s.to_string()) }
}

#[test]
fn mission_reads_as_a2a_task() {
    let m = Mission {
        id: "m1".into(),
        goal: "Research".into(),
        status: TaskStatus::Executing,
        steps: vec![
            step(0, StepStatus::Completed, StepKind::Action, Some("found it")),
            step(1, StepStatus::Pending, StepKind::Approval, None),
        ],
        updated_at: "2026-01-01T00:00:00Z".into(),
    };
    let t = mission_to_a2a_task(&m);
    assert_eq!(t.id, "m1");
    assert_eq!(t.status.state, A2aTaskState::InputRequired);
    let msg = t.status.message.unwrap();
    assert_eq!(msg.parts, vec![A2aPart::Text { text: "Executing step 2/2".into() }]);
    let h = t.history.unwrap();
    assert_eq!(h.len(), 2);
    assert_eq!(h[0].role, A2aRole::User);
    assert_eq!(h[1].parts, vec![A2aPart::Text { text: "Step 1: found it".into() }]);
    let a = t.artifacts.unwrap();
    assert_eq!(a.len(), 1);
    assert_eq!(a[0].name.as_deref(), Some("step-0: do 0"));

    let failed = Mission { status: TaskStatus::Failed { reason: "x".into() }, steps: vec![], ..m.clone() };
    let t = mission_to_a2a_task(&failed);
    assert_eq!(t.status.state, A2aTaskState::Failed);
    assert!(t.artifacts.is_none());
    assert_eq!(t.history.unwrap().len(), 1);
}

#[test]
fn a2a_dispatch_and_send() {
    assert_eq!(dispatch_method("tasks/get"), Ok(A2aMethod::Get));
    assert_eq!(dispatch_method("foo"), Err((-32601, "method not found: foo".to_string())));
    let empty = A2aMessage { role: A2aRole::User, parts: vec![A2aPart::Data { data: "{}".into() }] };
    assert_eq!(send_goal(&empty), Err((-32602, "message must contain at least one text part".to_string())));
    let msg = A2aMessage { role: A2aRole::User, parts: vec![A2aPart::Text { text: "hi".into() }] };
    assert_eq!(send_goal(&msg), Ok("hi".to_string()));
    let e = final_event("t".into(), "now".into());
    assert!(e.is_final);
    assert_eq!(e.status.state, A2aTaskState::Completed);
}

#[test]
fn interrupted_missions_are_failed() {
    let mut m = Mission {
        id: "m".into(),
        goal: "g".into(),
        status: TaskStatus::Verifying,
        steps: vec![],
        updated_at: "old".into(),
    };
    assert!(recover_mission(&mut m, "now".into()));
    assert_eq!(m.status, TaskStatus::Failed { reason: "interrupted by server restart (was Verifying)".into() });
    assert_eq!(m.updated_at, "now");
    assert!(!recover_mission(&mut m, "later".into()));
    assert_eq!(m.updated_at, "now");
}
