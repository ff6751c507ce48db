//! What gateway payloads mean for the roster.
use periclaw::domain::status::AgentStatus;
use periclaw::net::events::{
    agent_stream_to_activity, channel_agent_id, channel_status, cron_agent_id,
    cron_job_from_event, cron_status, main_agent_status, ActivityKind,
};
use periclaw::net::rpc::{Channel, CronEventPayload, CronJob, CronState, MainAgent};

fn cron_with(running: bool, last: Option<&str>) -> CronJob {
    CronJob {
        name: "x".into(),
        id: None,
        state: CronState {
            running,
            last_status: last.map(|s| s.to_string()),
            ..Default::default()
        },
    }
}

fn evt(action: &str, status: Option<&str>) -> CronEventPayload {
    CronEventPayload {
        job_id: "zpool-health-check".into(),
        job_name: None,
        action: action.into(),
        run_at_ms: None,
        duration_ms: None,
        status: status.map(str::to_string),
        error: None,
        next_run_at_ms: None,
    }
}

#[test]
fn started_event_yields_running_job() {
    let job = cron_job_from_event(&evt("started", None)).expect("started produces job");
    assert!(job.state.running);
    assert_eq!(job.name, "zpool-health-check");
    assert_eq!(cron_status(&job), AgentStatus::Running);
}

#[test]
fn finished_ok_event_yields_ok_job() {
    let job = cron_job_from_event(&evt("finished", Some("ok"))).expect("finished produces job");
    assert!(!job.state.running);
    assert_eq!(job.state.last_status.as_deref(), Some("ok"));
    assert_eq!(cron_status(&job), AgentStatus::Healthy);
}

#[test]
fn finished_error_event_yields_error_job() {
    let job = cron_job_from_event(&evt("finished", Some("error"))).unwrap();
    assert_eq!(cron_status(&job), AgentStatus::Error);
}

#[test]
fn non_run_actions_ignored() {
    for action in ["added", "updated", "removed"] {
        assert!(
            cron_job_from_event(&evt(action, None)).is_none(),
            "action {action} should not produce a CronJob — use RPC refresh"
        );
    }
}

#[test]
fn events_carry_their_details_over() {
    let job = cron_job_from_event(&CronEventPayload {
        job_id: "uuid".into(),
        job_name: Some("sync".into()),
        action: "finished".into(),
        run_at_ms: Some(10),
        duration_ms: Some(20),
        status: Some("failed".into()),
        error: Some("boom".into()),
        next_run_at_ms: Some(30),
    })
    .unwrap();
    assert_eq!(job.name, "sync");
    assert_eq!(job.state.last_run_at_ms, Some(10));
    assert_eq!(job.state.last_duration_ms, Some(20));
    assert_eq!(job.state.next_run_at_ms, Some(30));
    assert_eq!(job.state.last_error.as_deref(), Some("boom"));
}

#[test]
fn agent_stream_mapping() {
    assert_eq!(
        agent_stream_to_activity("tool"),
        Some(ActivityKind::ToolCalling)
    );
    assert_eq!(
        agent_stream_to_activity("item"),
        Some(ActivityKind::Thinking)
    );
    assert_eq!(
        agent_stream_to_activity("error"),
        Some(ActivityKind::Errored)
    );
    assert_eq!(agent_stream_to_activity("assistant"), None);
    assert_eq!(agent_stream_to_activity("lifecycle"), None);
}

#[test]
fn running_takes_precedence_over_last_status() {
    assert_eq!(
        cron_status(&cron_with(true, Some("error"))),
        AgentStatus::Running
    );
}

#[test]
fn error_variants_mapped() {
    for s in ["error", "failed", "timeout"] {
        assert_eq!(cron_status(&cron_with(false, Some(s))), AgentStatus::Error);
    }
}

#[test]
fn unknown_last_status_is_unknown() {
    assert_eq!(
        cron_status(&cron_with(false, Some("weird-future-status"))),
        AgentStatus::Unknown
    );
    assert_eq!(cron_status(&cron_with(false, None)), AgentStatus::Unknown);
}

fn channel(enabled: bool, connected: bool, error: Option<&str>) -> Channel {
    Channel {
        name: "whatsapp".into(),
        enabled,
        connected,
        last_error: error.map(str::to_string),
    }
}

#[test]
fn channel_disabled_short_circuits() {
    let ch = Channel {
        name: "whatsapp".into(),
        enabled: false,
        connected: false,
        last_error: None,
    };
    assert_eq!(channel_status(&ch), AgentStatus::Disabled);
}

#[test]
fn channel_health() {
    assert_eq!(channel_status(&channel(true, true, None)), AgentStatus::Healthy);
    assert_eq!(
        channel_status(&channel(true, false, Some("boom"))),
        AgentStatus::Error
    );
    assert_eq!(channel_agent_id(&channel(true, true, None)).as_str(), "whatsapp");
    assert_eq!(cron_agent_id(&cron_with(false, None)).as_str(), "x");
}

#[test]
fn main_agent_states() {
    let with = |state: Option<&str>| MainAgent {
        id: "main".into(),
        model: None,
        state: state.map(str::to_string),
    };
    assert_eq!(main_agent_status(&with(Some("running"))), AgentStatus::Running);
    assert_eq!(main_agent_status(&with(Some("error"))), AgentStatus::Error);
    assert_eq!(main_agent_status(&with(Some("idle"))), AgentStatus::Healthy);
}
