//! The scripted streams.
use periclaw::domain::agent::AgentId;
use periclaw::net::commands::GatewayCommand;
use periclaw::net::demo::{
    self, bootstrap_events, compact_prompt, emit_tick, handle_demo_command, loop_events,
    next_batch, LoopCursor, Scenario, TimedDemoEvent,
};
use periclaw::net::events::{ActivityKind, WsEvent};
use periclaw::net::mock::{self, mock_step, script, Script};
use periclaw::net::openclaw_ssh::uses_ssh;

fn find_event_after(
    events: &[TimedDemoEvent],
    start: usize,
    pred: impl Fn(&WsEvent) -> bool,
) -> usize {
    events
        .iter()
        .enumerate()
        .skip(start)
        .find(|(_, evt)| pred(&evt.event))
        .map(|(idx, _)| idx)
        .expect("matching event not found")
}

#[test]
fn loop_events_are_sorted() {
    let events = loop_events();
    assert!(
        events.windows(2).all(|w| w[0].at_ms <= w[1].at_ms),
        "Demo events must stay sorted for scheduler ordering",
    );
}

#[test]
fn bootstrap_covers_chat_sessions_and_logs() {
    let events = bootstrap_events(1_800_000_000_000, 1_800_000_000);
    assert!(events
        .iter()
        .any(|e| matches!(e, WsEvent::AgentsList { .. })));
    assert!(events
        .iter()
        .any(|e| matches!(e, WsEvent::ChatHistory { .. })));
    assert!(events.iter().any(|e| matches!(e, WsEvent::SessionUsage(_))));
    assert!(events
        .iter()
        .any(|e| matches!(e, WsEvent::SessionUsageTimeseries { .. })));
    assert!(events.iter().any(|e| matches!(e, WsEvent::LogTail(_))));
}

#[test]
fn loop_covers_activity_lifecycle() {
    let events = loop_events();
    assert!(events
        .iter()
        .any(|e| matches!(&e.event, WsEvent::AgentInboundUserMessage { .. })));
    assert!(events.iter().any(|e| matches!(
        &e.event,
        WsEvent::AgentActivity {
            kind: ActivityKind::Thinking,
            ..
        }
    )));
    assert!(events
        .iter()
        .any(|e| matches!(&e.event, WsEvent::AgentToolInvoked { .. })));
    assert!(events
        .iter()
        .any(|e| matches!(&e.event, WsEvent::AgentMessage { .. })));
    assert!(events.iter().any(|e| matches!(
        &e.event,
        WsEvent::AgentActivity {
            kind: ActivityKind::Idle,
            ..
        }
    )));
}

#[test]
fn loop_exercises_visible_silent_and_error_paths_in_order() {
    let events = loop_events();
    let inbound = |event: &WsEvent| matches!(event, WsEvent::AgentInboundUserMessage { .. });
    let activity = |wanted: ActivityKind| {
        move |event: &WsEvent| {
            matches!(event, WsEvent::AgentActivity { kind, .. } if *kind == wanted)
        }
    };

    let mut cursor = 0;
    cursor = find_event_after(&events, cursor, inbound);
    cursor = find_event_after(&events, cursor + 1, activity(ActivityKind::Thinking));
    cursor = find_event_after(&events, cursor + 1, |event| {
        matches!(event, WsEvent::AgentToolInvoked { .. })
    });
    cursor = find_event_after(&events, cursor + 1, |event| {
        matches!(event, WsEvent::AgentMessage { .. })
    });
    cursor = find_event_after(&events, cursor + 1, activity(ActivityKind::Idle));

    cursor = find_event_after(&events, cursor + 1, inbound);
    cursor = find_event_after(&events, cursor + 1, activity(ActivityKind::Thinking));
    cursor = find_event_after(&events, cursor + 1, |event| {
        matches!(event, WsEvent::AgentSilentTurn { .. })
    });
    cursor = find_event_after(&events, cursor + 1, activity(ActivityKind::Idle));

    cursor = find_event_after(&events, cursor + 1, inbound);
    cursor = find_event_after(&events, cursor + 1, activity(ActivityKind::Thinking));
    cursor = find_event_after(&events, cursor + 1, activity(ActivityKind::Errored));
    let _ = find_event_after(&events, cursor + 1, activity(ActivityKind::Idle));
}

const FIXTURE: &str = r#"{"loop_seconds": 30, "ticks": [
    {"at_ms": 0, "crons": [{"name": "sync", "state": {"running": true}}],
     "channels": [{"name": "slack", "enabled": true, "connected": true}],
     "main": {"id": "main", "state": "idle"}},
    {"at_ms": 1200, "crons": [], "channels": [], "main": {"id": "main"}}
]}"#;

#[test]
fn scenarios_are_read() {
    let s = Scenario::from_text(FIXTURE).unwrap();
    assert_eq!(s.loop_seconds, 30);
    assert_eq!(s.ticks.len(), 2);
    assert_eq!(s.ticks[0].crons[0].name, "sync");
    assert_eq!(s.ticks[1].at_ms, 1200);
    assert_eq!(
        Scenario::from_text("{}").unwrap_err(),
        "bad fixture: unexpected shape"
    );
    let e = Scenario::from_text("{").unwrap_err();
    assert!(e.starts_with("bad fixture: EOF"), "{e}");
}

#[test]
fn large_numbers_are_read_and_negative_ones_are_not() {
    let s = Scenario::from_text(r#"{"loop_seconds": 18446744073709551615, "ticks": []}"#).unwrap();
    assert_eq!(s.loop_seconds, u64::MAX);
    assert!(Scenario::from_text(r#"{"loop_seconds": -1, "ticks": []}"#).is_err());
    assert!(Scenario::from_text(r#"{"loop_seconds": 1.5, "ticks": []}"#).is_err());
    assert!(Scenario::from_text(r#"{"loop_seconds": 99999999999999999999, "ticks": []}"#).is_err());
}

#[test]
fn ticks_and_events_go_out_at_their_times() {
    let s = Scenario::from_text(FIXTURE).unwrap();
    let events = loop_events();
    let mut c = LoopCursor { tick: 0, event: 0 };
    let mut times = vec![];
    let mut sent = 0;
    while let Some((t, next)) = next_batch(&s.ticks, &events, c) {
        times.push(t);
        sent += next.tick - c.tick + next.event - c.event;
        c = next;
    }
    assert_eq!(sent, s.ticks.len() + events.len());
    assert!(times.windows(2).all(|w| w[0] < w[1]));
    assert_eq!(&times[..3], &[0, 1200, 1800]);
}

#[test]
fn a_tick_is_three_events() {
    let s = Scenario::from_text(FIXTURE).unwrap();
    let events = emit_tick(&s.ticks[0]);
    assert!(matches!(
        &events[..],
        [
            WsEvent::CronSnapshot(_),
            WsEvent::ChannelSnapshot(_),
            WsEvent::MainAgent(_)
        ]
    ));
}

#[test]
fn the_mock_loop_starts_over() {
    let s = Scenario::from_text(FIXTURE).unwrap();
    let first = mock_step(&s, 0);
    assert_eq!((first.due_ms, first.events.len(), first.next), (0, 3, 1));
    let second = mock_step(&s, 1);
    assert_eq!((second.due_ms, second.next), (1200, 2));
    let end = mock_step(&s, 2);
    assert_eq!((end.due_ms, end.events.len(), end.next), (30_000, 0, 0));
}

#[test]
fn demo_answers_a_prompt() {
    let events = handle_demo_command(
        &GatewayCommand::SendChat {
            agent_id: "main".into(),
            message: "  how   are you ".into(),
            idempotency_key: "k".into(),
        },
        1_800_000_000_000,
        1_800_000_000,
    );
    assert!(events.iter().any(
        |e| matches!(e, WsEvent::AgentMessage { agent_id, text } if *agent_id == AgentId::new("main")
            && text.contains("how are you"))
    ));
}

#[test]
fn demo_reset_empties_the_chat() {
    let events = handle_demo_command(
        &GatewayCommand::ResetSession {
            session_key: "agent:main:main".into(),
        },
        1_800_000_000_000,
        1_800_000_000,
    );
    assert!(events
        .iter()
        .any(|e| matches!(e, WsEvent::ChatHistory { messages, .. } if messages.is_empty())));
}

#[test]
fn prompts_are_compacted() {
    assert_eq!(compact_prompt(" a \n b ", 10), "a b");
    assert_eq!(compact_prompt("abcdef", 4), "abc…");
}

#[test]
fn streams_are_asked_for_by_variables() {
    assert!(demo::enabled(Some("1"), None));
    assert!(demo::enabled(None, Some("yes")));
    assert!(!demo::enabled(Some("0"), Some("TRUE")));
    assert!(mock::enabled(Some("true")));
    assert!(!mock::enabled(Some("on")));
    assert!(!mock::enabled(None));
}

#[test]
fn the_stream_is_chosen_by_variables() {
    assert_eq!(script(Some("1"), Some("1")), Some(Script::Demo));
    assert_eq!(script(None, Some("yes")), Some(Script::Mock));
    assert_eq!(script(Some("0"), None), None);
    assert!(uses_ssh(Some("1"), Some("gw")));
    assert!(!uses_ssh(Some("true"), Some("gw")));
    assert!(!uses_ssh(Some("1"), Some("  ")));
    assert!(!uses_ssh(None, Some("gw")));
}

#[test]
fn the_script_needs_no_room_ahead() {
    assert_eq!(bootstrap_events(i64::MAX, 0).len(), 8);
    let usage = GatewayCommand::FetchSessionUsage {
        session_key: "k".into(),
    };
    assert_eq!(handle_demo_command(&usage, i64::MAX, 0).len(), 1);
    assert_eq!(
        handle_demo_command(&GatewayCommand::Reconnect, i64::MIN, 0),
        vec![WsEvent::Connected]
    );
}
