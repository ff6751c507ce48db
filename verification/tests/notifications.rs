//! Which events are notified, and how often.
use periclaw::domain::agent::AgentId;
use periclaw::net::events::GatewayUpdate;
use periclaw::net::rpc::{ApprovalEventPayload, CronState};
use periclaw::notifications::{approval_dedup_key, shorten, Notifier};

fn make_approval(id: Option<&str>, tool: &str, summary: &str) -> ApprovalEventPayload {
    ApprovalEventPayload {
        id: id.map(str::to_string),
        session_key: None,
        tool: Some(tool.to_string()),
        summary: Some(summary.to_string()),
    }
}

#[test]
fn approval_dedup_by_id() {
    let mut n = Notifier::new();
    let p = make_approval(Some("abc"), "bash", "run ls");
    assert!(n.approval_requested(&p).is_some());
    assert!(n.approvals_seen.contains("abc"));
    assert!(n.approval_requested(&p).is_none());
    assert_eq!(n.approvals_seen.len(), 1);
}

#[test]
fn approval_dedup_falls_back_when_id_missing() {
    let mut n = Notifier::new();
    let p = make_approval(None, "bash", "run ls");
    n.approval_requested(&p);
    n.approval_requested(&p);
    assert_eq!(n.approvals_seen.len(), 1);
    assert!(n.approvals_seen.contains("bash:run ls"));
}

#[test]
fn bare_approvals_have_a_key_too() {
    let bare = ApprovalEventPayload {
        id: None,
        session_key: None,
        tool: None,
        summary: None,
    };
    assert_eq!(approval_dedup_key(&bare), "?:");
}

#[test]
fn approval_resolved_clears_dedup() {
    let mut n = Notifier::new();
    n.approval_requested(&make_approval(Some("abc"), "bash", "run"));
    n.approval_resolved(&Some("abc".to_string()));
    assert!(!n.approvals_seen.contains("abc"));
    assert!(n
        .approval_requested(&make_approval(Some("abc"), "bash", "run"))
        .is_some());
}

#[test]
fn cron_error_refires_only_when_text_changes() {
    let mut n = Notifier::new();
    let id = AgentId::new("sync");
    let mut state = CronState {
        last_error: Some("timeout".to_string()),
        ..Default::default()
    };
    assert!(n.cron_state_changed(&id, &state).is_some());
    assert_eq!(
        n.cron_errors_notified.get("sync").map(String::as_str),
        Some("timeout")
    );
    assert!(n.cron_state_changed(&id, &state).is_none());
    assert_eq!(n.cron_errors_notified.len(), 1);
    state.last_error = Some("connection refused".to_string());
    assert!(n.cron_state_changed(&id, &state).is_some());
    assert_eq!(
        n.cron_errors_notified.get("sync").map(String::as_str),
        Some("connection refused"),
    );
}

#[test]
fn cron_error_cleared_when_last_error_goes_none() {
    let mut n = Notifier::new();
    let id = AgentId::new("sync");
    let state = CronState {
        last_error: Some("timeout".to_string()),
        ..Default::default()
    };
    n.cron_state_changed(&id, &state);
    let healthy = CronState::default();
    n.cron_state_changed(&id, &healthy);
    assert!(!n.cron_errors_notified.contains_key("sync"));
}

#[test]
fn update_dedup_on_version_pair() {
    let mut n = Notifier::new();
    let u1 = GatewayUpdate {
        current: "1.0.0".into(),
        latest: "1.1.0".into(),
        channel: "stable".into(),
    };
    n.update_available(&u1);
    n.update_available(&u1);
    assert_eq!(n.update_notified.as_deref(), Some("1.0.0->1.1.0"));
    let u2 = GatewayUpdate {
        current: "1.0.0".into(),
        latest: "1.2.0".into(),
        channel: "stable".into(),
    };
    n.update_available(&u2);
    assert_eq!(n.update_notified.as_deref(), Some("1.0.0->1.2.0"));
}

#[test]
fn shorten_trims_long_bodies() {
    let long = "x".repeat(200);
    let out = shorten(&long);
    assert_eq!(out.chars().count(), 140);
    assert!(out.ends_with('…'));
}

#[test]
fn shorten_leaves_short_bodies_alone() {
    assert_eq!(shorten("  hello  "), "hello");
}

#[test]
fn reset_on_disconnect_keeps_update_state() {
    let mut n = Notifier::new();
    n.approvals_seen.insert("abc".into());
    n.cron_errors_notified.insert("sync".into(), "err".into());
    n.update_notified = Some("1.0->1.1".into());
    n.reset_on_disconnect();
    assert!(n.approvals_seen.is_empty());
    assert!(n.cron_errors_notified.is_empty());
    assert_eq!(n.update_notified.as_deref(), Some("1.0->1.1"));
}
