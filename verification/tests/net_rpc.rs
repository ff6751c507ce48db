//! Reading the gateway's payloads.
use periclaw::json::Json;
use periclaw::net::openclaw_ssh::{poll_config, poll_crons, read_config, read_jobs, PollError};
use periclaw::net::events::WsEvent;
use periclaw::net::rpc::{
    AgentEventPayload, AgentsListResponse, Channel, CronEventPayload, CronJob, SessionInfo,
    SessionUsageTimeseries,
};

fn json(text: &str) -> Json {
    Json::from_text(text).unwrap()
}

#[test]
fn parses_cron_status_fixture() {
    let json_text = r#"
        {
            "name": "example-data-sync-hourly",
            "state": {
                "nextRunAtMs": 1776441517517,
                "lastRunAtMs": 1776427117517,
                "lastStatus": "ok",
                "lastDurationMs": 160203,
                "lastError": null,
                "running": false
            }
        }
        "#;
    let cron = CronJob::decode(&json(json_text)).unwrap();
    assert_eq!(cron.name, "example-data-sync-hourly");
    assert_eq!(cron.state.last_status.as_deref(), Some("ok"));
    assert!(!cron.state.running);
}

#[test]
fn ignores_unknown_fields() {
    let json_text = r#"
        {
            "name": "openclaw-auto-update",
            "future_field_we_havent_seen": 42,
            "state": {
                "lastStatus": "error",
                "lastError": "network timeout",
                "mystery": true
            }
        }
        "#;
    let cron = CronJob::decode(&json(json_text)).unwrap();
    assert_eq!(cron.name, "openclaw-auto-update");
    assert_eq!(cron.state.last_status.as_deref(), Some("error"));
}

#[test]
fn a_cron_needs_its_name() {
    assert!(CronJob::decode(&json("{}")).is_none());
    assert!(CronJob::decode(&json("{\"name\": 3}")).is_none());
    assert!(CronJob::decode(&json("{\"name\": \"x\"}")).is_some());
}

#[test]
fn agents_list_parses_sebastian_shape() {
    let json_text = r#"
        {
            "defaultId": "main",
            "mainKey": "main",
            "scope": "per-sender",
            "agents": [
                {
                    "id": "main",
                    "name": "Sebastian",
                    "identity": { "name": "Sebastian", "emoji": "🦀" },
                    "workspace": "/Users/chris/.openclaw",
                    "model": {
                        "primary": "openai-codex/gpt-5.4",
                        "fallbacks": ["vllm/qwen3-14b"]
                    }
                }
            ]
        }
        "#;
    let resp = AgentsListResponse::decode(&json(json_text)).unwrap();
    assert_eq!(resp.default_id, "main");
    assert_eq!(resp.agents.len(), 1);
    let a = &resp.agents[0];
    assert_eq!(a.id, "main");
    assert_eq!(a.display_name(), "Sebastian");
    assert_eq!(a.display_with_emoji(), "Sebastian 🦀");
    assert_eq!(a.primary_model(), Some("openai-codex/gpt-5.4"));
}

#[test]
fn channel_parse() {
    let ch = Channel::decode(&json(
        r#"{ "name": "slack", "enabled": true, "connected": true }"#,
    ))
    .unwrap();
    assert!(ch.enabled && ch.connected);
}

#[test]
fn cron_event_parse() {
    let json_text = r#"
        {
            "jobId": "zpool-health-check",
            "action": "finished",
            "runAtMs": 1776440000000,
            "durationMs": 2415,
            "status": "ok",
            "nextRunAtMs": 1776443600000
        }
        "#;
    let evt = CronEventPayload::decode(&json(json_text)).unwrap();
    assert_eq!(evt.action, "finished");
    assert_eq!(evt.status.as_deref(), Some("ok"));
    assert_eq!(evt.duration_ms, Some(2415));
}

#[test]
fn agent_event_parses_stream_ignoring_extras() {
    let json_text = r#"
        {
            "runId": "r1",
            "stream": "tool",
            "ts": 1776440000000,
            "sessionKey": "s1",
            "data": {"phase": "start", "name": "bash"}
        }
        "#;
    let evt = AgentEventPayload::decode(&json(json_text)).unwrap();
    assert_eq!(evt.stream, "tool");
}

#[test]
fn parses_jobs_file() {
    let json_text = r#"
        {
            "version": 1,
            "jobs": [
                {
                    "name": "zpool-health-check",
                    "state": { "lastStatus": "ok", "running": false }
                },
                {
                    "name": "openclaw-auto-update",
                    "state": { "lastStatus": "error", "running": false }
                }
            ]
        }
        "#;
    let jobs = read_jobs(&json(json_text)).unwrap();
    assert_eq!(jobs.len(), 2);
    assert_eq!(jobs[0].name, "zpool-health-check");
    let events = poll_crons(Ok(json_text.as_bytes().to_vec()));
    assert_eq!(events, vec![WsEvent::CronSnapshot(jobs)]);
}

#[test]
fn parses_config_channels() {
    let json_text = r#"
        {
            "channels": {
                "slack": { "enabled": true },
                "whatsapp": { "enabled": false }
            },
            "agents": {
                "defaults": {
                    "model": {
                        "primary": "openai-codex/gpt-5.4",
                        "fallbacks": ["vllm/qwen3-14b"]
                    }
                }
            }
        }
        "#;
    let (channels, main) = read_config(&json(json_text)).unwrap();
    let find = |name: &str| channels.iter().find(|c| c.name == name).unwrap();
    assert!(find("slack").enabled);
    assert!(!find("whatsapp").enabled);
    assert_eq!(
        main.as_ref().unwrap().model.as_deref(),
        Some("openai-codex/gpt-5.4")
    );
    let events = poll_config(Ok(json_text.as_bytes().to_vec()));
    assert_eq!(events.len(), 2);
    assert!(matches!(&events[0], WsEvent::ChannelSnapshot(c) if c.len() == 2));
    assert!(matches!(&events[1], WsEvent::MainAgent(m) if m.id == "main"));
}

#[test]
fn a_bad_file_is_told_for_crons_and_not_for_the_config() {
    let events = poll_crons(Ok(b"{".to_vec()));
    assert!(matches!(&events[..], [WsEvent::Disconnected(why)] if why.starts_with("cron: ")));
    let events = poll_crons(Ok(b"[1]".to_vec()));
    assert!(matches!(&events[..], [WsEvent::Disconnected(why)] if why.contains("unexpected shape")));
    for e in [
        PollError::Timeout,
        PollError::Io("gone".into()),
        PollError::NonZero {
            code: Some(255),
            stderr: "no route".into(),
        },
    ] {
        let words = e.message();
        let events = poll_crons(Err(e));
        assert_eq!(events, vec![WsEvent::Disconnected(format!("cron: {words}"))]);
    }
    assert!(poll_config(Ok(b"{".to_vec())).is_empty());
    assert!(poll_config(Ok(b"[]x".to_vec())).is_empty());
}

#[test]
fn sessions_and_usage_parse() {
    let info = SessionInfo::decode(&json(
        r#"{"key":"agent:main:main","totalTokens":12,"contextTokens":100,"updatedAt":7}"#,
    ))
    .unwrap();
    assert_eq!(info.key, "agent:main:main");
    assert_eq!(info.total_tokens, Some(12));
    assert_eq!(info.context_tokens, Some(100));
    assert_eq!(info.updated_at_ms, Some(7));
    let series = SessionUsageTimeseries::decode(&json(
        r#"{"points":[{"timestamp":1,"cumulativeTokens":5,"cost":0.5}]}"#,
    ))
    .unwrap();
    assert_eq!(series.points.len(), 1);
    assert_eq!(series.points[0].cumulative_tokens, 5);
    assert_eq!(series.points[0].cost, "0.5");
    assert_eq!(series.points[0].input, 0);
}
