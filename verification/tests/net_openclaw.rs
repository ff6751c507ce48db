//! The gateway session: frames in, frames out.
use periclaw::device_identity::{DeviceIdentity, SignConnectParams};
use periclaw::domain::agent::AgentId;
use periclaw::json::Json;
use periclaw::net::commands::GatewayCommand;
use periclaw::net::events::{ActivityKind, PairRequestKind, WsEvent};
use periclaw::net::handshake::{
    accepted_events, after_session, await_challenge, await_hello, bearer, connect_frame,
    derive_origin, on_challenge, on_hello, ClientInfo, Hello, Incoming, SessionError,
    INITIAL_BACKOFF_MS, MAX_BACKOFF_MS, PAIRING_BACKOFF_MS,
};
use periclaw::net::openclaw::{build_command_frame, frame_text, Session, SEEN_IDS_MAX};
use periclaw::net::payloads::{agent_id_from_session_key, is_silent_reply};
use periclaw::ui::chat_view::ChatRole;

fn at<'a>(v: &'a Json, path: &[&str]) -> &'a Json {
    path.iter().fold(v, |v, k| v.get(k).unwrap())
}

fn text_at<'a>(v: &'a Json, path: &[&str]) -> &'a str {
    at(v, path).as_str().unwrap()
}

#[test]
fn send_chat_frame_uses_agent_scoped_session_key() {
    let cmd = GatewayCommand::SendChat {
        agent_id: "memoria".into(),
        message: "hello memoria".into(),
        idempotency_key: "idem-42".into(),
    };
    let (method, frame) = build_command_frame(7, &cmd);
    assert_eq!(method, "chat.send");
    assert_eq!(text_at(&frame, &["params", "sessionKey"]), "agent:memoria:main");
    assert_eq!(text_at(&frame, &["params", "message"]), "hello memoria");
    assert_eq!(text_at(&frame, &["params", "idempotencyKey"]), "idem-42");
}

#[test]
fn send_chat_frame_for_default_agent_uses_full_form() {
    let cmd = GatewayCommand::SendChat {
        agent_id: "main".into(),
        message: "hi".into(),
        idempotency_key: "k".into(),
    };
    let (_, frame) = build_command_frame(1, &cmd);
    assert_eq!(text_at(&frame, &["params", "sessionKey"]), "agent:main:main");
}

#[test]
fn fetch_chat_history_frame_targets_agent_session() {
    let cmd = GatewayCommand::FetchChatHistory {
        agent_id: "docs".into(),
    };
    let (method, frame) = build_command_frame(9, &cmd);
    assert_eq!(method, "chat.history");
    assert_eq!(text_at(&frame, &["params", "sessionKey"]), "agent:docs:main");
    assert!(matches!(at(&frame, &["params", "limit"]), Json::Int(200)));
}

#[test]
fn is_silent_reply_detects_sentinels() {
    assert!(is_silent_reply("NO_REPLY"));
    assert!(is_silent_reply("  NO_REPLY  "));
    assert!(is_silent_reply("\nno_reply\n"));
    assert!(is_silent_reply("HEARTBEAT_OK"));
    assert!(is_silent_reply("{\"action\":\"NO_REPLY\"}"));
    assert!(!is_silent_reply("Here's a reply.\nNO_REPLY"));
    assert!(!is_silent_reply("NO_REPLY but here is more"));
    assert!(!is_silent_reply(""));
    assert!(!is_silent_reply("Hello"));
}

#[test]
fn session_key_parser_extracts_agent_id() {
    assert_eq!(
        agent_id_from_session_key("agent:main:main").as_deref(),
        Some("main")
    );
    assert_eq!(
        agent_id_from_session_key("agent:memoria:dashboard:foo").as_deref(),
        Some("memoria")
    );
    assert_eq!(agent_id_from_session_key("main"), None);
    assert_eq!(agent_id_from_session_key("agent::main"), None);
    assert_eq!(agent_id_from_session_key("agent:onlyid"), None);
}

#[test]
fn resolve_approval_frame_matches_gateway_schema() {
    let cmd = GatewayCommand::ResolveApproval {
        id: "abc-123".into(),
        decision: "allow-once".into(),
    };
    let (method, frame) = build_command_frame(42, &cmd);
    assert_eq!(method, "exec.approval.resolve");
    assert_eq!(text_at(&frame, &["type"]), "req");
    assert_eq!(text_at(&frame, &["id"]), "42");
    assert_eq!(text_at(&frame, &["method"]), "exec.approval.resolve");
    assert_eq!(text_at(&frame, &["params", "id"]), "abc-123");
    assert_eq!(text_at(&frame, &["params", "decision"]), "allow-once");
}

#[test]
fn frames_go_out_as_json() {
    let (_, frame) = build_command_frame(
        3,
        &GatewayCommand::RunCron {
            job_id: "u\"1".into(),
        },
    );
    let text = frame_text(&frame);
    let back: serde_json::Value = serde_json::from_str(&text).unwrap();
    assert_eq!(back["type"], "req");
    assert_eq!(back["id"], "3");
    assert_eq!(back["method"], "cron.run");
    assert!(text.contains("u\\\"1"));
    assert!(!text.contains('\n'));
}

#[test]
fn origins_follow_the_scheme() {
    assert_eq!(
        derive_origin("wss://gw.example/path").as_deref(),
        Some("https://gw.example")
    );
    assert_eq!(
        derive_origin("ws://localhost:1234").as_deref(),
        Some("http://localhost:1234")
    );
    assert_eq!(derive_origin("https://gw.example"), None);
    assert_eq!(derive_origin("wss:///x"), None);
}

#[test]
fn challenges_carry_a_nonce() {
    let txt = r#"{"type":"event","event":"connect.challenge","payload":{"nonce":"n1"}}"#;
    assert_eq!(await_challenge(txt).unwrap().as_deref(), Some("n1"));
    let txt = r#"{"type":"event","event":"tick"}"#;
    assert_eq!(await_challenge(txt).unwrap(), None);
    let txt = r#"{"type":"event","event":"connect.challenge","payload":{}}"#;
    assert_eq!(
        await_challenge(txt),
        Err(SessionError::HandshakeRejected("challenge missing nonce".into()))
    );
    assert!(matches!(await_challenge("{"), Err(SessionError::Json(_))));
}

#[test]
fn connect_frame_signs_the_challenge() {
    let ident = DeviceIdentity::from_signing_key([0u8; 32]);
    let client = ClientInfo {
        version: "1".into(),
        platform: "linux".into(),
        instance_id: "i".into(),
    };
    let frame = connect_frame(&client, &Some("tok".to_string()), Some(&ident), "n1", 17);
    assert_eq!(text_at(&frame, &["id"]), "connect-1");
    assert_eq!(text_at(&frame, &["method"]), "connect");
    assert_eq!(text_at(&frame, &["params", "client", "instanceId"]), "i");
    assert_eq!(text_at(&frame, &["params", "auth", "token"]), "tok");
    assert_eq!(text_at(&frame, &["params", "device", "id"]), ident.device_id());
    let signed = ident.sign_connect(&SignConnectParams {
        client_id: "openclaw-tui".into(),
        client_mode: "ui".into(),
        role: "operator".into(),
        scopes: vec![
            "operator.read".into(),
            "operator.approvals".into(),
            "operator.admin".into(),
        ],
        token: Some("tok".into()),
        nonce: "n1".into(),
        signed_at_ms: 17,
    });
    assert_eq!(
        text_at(&frame, &["params", "device", "signature"]),
        signed.signature_base64url
    );
    let bare = connect_frame(&client, &None, None, "n1", 17);
    assert!(bare.get("params").unwrap().get("auth").is_none());
    assert!(bare.get("params").unwrap().get("device").is_none());
}

#[test]
fn hello_is_accepted_or_refused() {
    let txt = r#"{"type":"res","id":"connect-1","ok":true,"payload":{"type":"hello-ok",
        "server":{"connId":"c9"},"auth":{"scopes":["operator.read",3]}}}"#;
    assert_eq!(
        await_hello(txt, &None).unwrap(),
        Hello::Accepted {
            conn_id: "c9".into(),
            scopes: vec!["operator.read".into()],
        }
    );
    assert_eq!(
        await_hello(r#"{"type":"event","event":"x"}"#, &None).unwrap(),
        Hello::Wait
    );
    let refusal = r#"{"type":"res","id":"connect-1","ok":false}"#;
    assert_eq!(
        await_hello(refusal, &None),
        Err(SessionError::HandshakeRejected(refusal.into()))
    );
    let pairing = r#"{"type":"res","id":"connect-1","ok":false,"error":{"details":{
        "code":"PAIRING_REQUIRED","reason":"scope-upgrade","requestId":"r1"}}}"#;
    match await_hello(pairing, &Some("dev".to_string())) {
        Err(SessionError::PairingRequired(p)) => {
            assert_eq!(p.request_id, "r1");
            assert_eq!(p.device_id.as_deref(), Some("dev"));
            assert_eq!(p.kind, PairRequestKind::ScopeUpgrade);
        }
        other => panic!("{other:?}"),
    }
    let first = r#"{"type":"res","id":"connect-1","ok":false,"error":{"details":{
        "code":"PAIRING_REQUIRED","reason":"not-paired","requestId":"r2"}}}"#;
    assert!(matches!(
        await_hello(first, &None),
        Err(SessionError::PairingRequired(p)) if p.kind == PairRequestKind::FirstPair
    ));
}

#[test]
fn acceptance_clears_the_pair_notice() {
    assert_eq!(
        accepted_events(),
        vec![WsEvent::PairRequestPending(None), WsEvent::Connected]
    );
}

#[test]
fn waits_double_up_to_the_longest() {
    let r = after_session(Some(SessionError::SocketClosed), INITIAL_BACKOFF_MS);
    assert_eq!(r.wait_ms, 500);
    assert_eq!(r.backoff_ms, 1_000);
    assert_eq!(r.events, vec![WsEvent::Disconnected("socket closed".into())]);
    let r = after_session(Some(SessionError::HandshakeTimeout), 16_000);
    assert_eq!(r.backoff_ms, MAX_BACKOFF_MS);
    assert_eq!(r.events, vec![WsEvent::Disconnected("handshake timeout".into())]);
    let r = after_session(None, 8_000);
    assert_eq!((r.wait_ms, r.backoff_ms), (500, 1_000));
    assert!(r.events.is_empty());
}

#[test]
fn every_failure_has_its_words() {
    let cases = [
        (SessionError::Connect("refused".into()), "connect refused"),
        (
            SessionError::HandshakeRejected("no".into()),
            "handshake rejected: no",
        ),
        (SessionError::Json("eof".into()), "json: eof"),
        (SessionError::Send("gone".into()), "send: gone"),
    ];
    for (e, words) in cases {
        assert_eq!(e.message(), words);
    }
}

#[test]
fn a_pair_request_waits_long() {
    let txt = r#"{"type":"res","id":"connect-1","ok":false,"error":{"details":{
        "code":"PAIRING_REQUIRED","reason":"not-paired","requestId":"r2"}}}"#;
    let e = await_hello(txt, &None).unwrap_err();
    assert_eq!(e.message(), "pairing required (request r2)");
    let r = after_session(Some(e), 2_000);
    assert_eq!(r.wait_ms, PAIRING_BACKOFF_MS);
    assert_eq!(r.backoff_ms, 2_000);
    assert_eq!(r.events.len(), 2);
    assert_eq!(
        r.events[1],
        WsEvent::Disconnected("awaiting pairing approval (r2)".into())
    );
}

fn message(id: &str, text: &str) -> String {
    format!(
        r#"{{"type":"event","event":"session.message","payload":{{"messageId":"{id}",
        "sessionKey":"agent:memoria:main","message":{{"role":"assistant","content":[{{"type":"text","text":"{text}"}},
        {{"type":"media"}}]}}}}}}"#
    )
}

#[test]
fn a_turn_is_told_once() {
    let mut s = Session::new();
    let events = s.handle_frame(&message("m1", "hello"), 0).unwrap();
    assert_eq!(
        events.last(),
        Some(&WsEvent::AgentMessage {
            agent_id: AgentId::new("memoria"),
            text: "hello".into(),
        })
    );
    assert!(s.handle_frame(&message("m1", "hello"), 0).unwrap().is_empty());
}

#[test]
fn a_silent_turn_is_told_as_such() {
    let mut s = Session::new();
    let events = s.handle_frame(&message("m1", "NO_REPLY"), 0).unwrap();
    assert_eq!(
        events.last(),
        Some(&WsEvent::AgentSilentTurn {
            agent_id: AgentId::new("memoria"),
        })
    );
}

#[test]
fn remembered_ids_stay_bounded() {
    let mut s = Session::new();
    for i in 0..(SEEN_IDS_MAX + 10) {
        s.handle_frame(&message(&format!("m{i}"), "x"), 0).unwrap();
    }
    assert_eq!(s.seen_message_ids.len(), SEEN_IDS_MAX);
    assert_eq!(s.seen_message_ids[0], "m10");
}

#[test]
fn user_messages_are_not_told() {
    let mut s = Session::new();
    let txt = r#"{"type":"event","event":"session.message","payload":{"messageId":"u",
        "sessionKey":"agent:main:main","message":{"role":"user","content":"hi"}}}"#;
    assert!(s.handle_frame(txt, 0).unwrap().is_empty());
}

#[test]
fn tools_show_when_they_start() {
    let mut s = Session::new();
    let txt = r#"{"type":"event","event":"session.tool","payload":{
        "sessionKey":"agent:main:main","data":{"phase":"start","name":"bash"}}}"#;
    let events = s.handle_frame(txt, 0).unwrap();
    assert_eq!(
        events,
        vec![
            WsEvent::AgentToolInvoked {
                agent_id: AgentId::new("main"),
                text: "⚙ bash".into(),
            },
            WsEvent::AgentActivity {
                agent_id: AgentId::new("main"),
                kind: ActivityKind::ToolCalling,
            },
        ]
    );
}

#[test]
fn history_reaches_its_asker() {
    let mut s = Session::new();
    let frame = s
        .command(&GatewayCommand::FetchChatHistory {
            agent_id: "docs".into(),
        })
        .unwrap();
    let id = text_at(&frame, &["id"]).to_string();
    let reply = format!(
        r#"{{"type":"res","id":"{id}","ok":true,"payload":{{"sessionKey":"agent:docs:main",
        "messages":[{{"role":"user","content":"hi"}},{{"role":"assistant","content":"yo"}}]}}}}"#
    );
    let events = s.handle_frame(&reply, 77).unwrap();
    match &events[..] {
        [WsEvent::ChatHistory { agent_id, messages }] => {
            assert_eq!(agent_id.as_str(), "docs");
            assert_eq!(messages.len(), 2);
            assert_eq!(messages[0].role, ChatRole::User);
            assert_eq!(messages[1].text, "yo");
        }
        other => panic!("{other:?}"),
    }
    assert!(s.pending_history.is_empty());
}

#[test]
fn refusals_change_nothing() {
    let mut s = Session::new();
    s.command(&GatewayCommand::FetchChatHistory {
        agent_id: "docs".into(),
    });
    let before = s.pending_history.len();
    let txt = r#"{"type":"res","id":"101","ok":false,"payload":{}}"#;
    assert!(s.handle_frame(txt, 0).unwrap().is_empty());
    assert_eq!(s.pending_history.len(), before);
    assert!(matches!(s.handle_frame("nope", 0), Err(SessionError::Json(_))));
}

#[test]
fn bootstrap_asks_for_the_first_snapshots() {
    let mut s = Session::new();
    let frames = s.bootstrap();
    let methods: Vec<&str> = frames.iter().map(|f| text_at(f, &["method"])).collect();
    assert_eq!(
        methods,
        vec![
            "cron.list",
            "channels.status",
            "sessions.subscribe",
            "sessions.list",
            "agents.list"
        ]
    );
    assert_eq!(text_at(&frames[0], &["id"]), "101");
    assert_eq!(s.rpc_id, 105);
    assert_eq!(text_at(&s.heartbeat(), &["method"]), "channels.status");
    assert_eq!(text_at(&s.tail_log(), &["method"]), "logs.tail");
}

#[test]
fn a_live_session_drops_reconnect() {
    let mut s = Session::new();
    assert!(s.command(&GatewayCommand::Reconnect).is_none());
    assert_eq!(s.rpc_id, 100);
}

#[test]
fn crons_get_their_name_from_the_snapshot() {
    let mut s = Session::new();
    let list = r#"{"type":"res","id":"101","ok":true,"payload":{"jobs":[
        {"id":"uuid-1","name":"sync","state":{"lastStatus":"ok"}}]}}"#;
    let events = s.handle_frame(list, 0).unwrap();
    assert!(matches!(&events[..], [WsEvent::CronSnapshot(jobs)] if jobs[0].name == "sync"));
    let started = r#"{"type":"event","event":"cron","payload":{"jobId":"uuid-1","action":"started"}}"#;
    let events = s.handle_frame(started, 0).unwrap();
    assert!(matches!(&events[..], [WsEvent::CronDelta(job)] if job.name == "sync" && job.state.running));
}

#[test]
fn approvals_and_updates_are_told() {
    let mut s = Session::new();
    let txt = r#"{"type":"event","event":"exec.approval.requested","payload":{"id":"a1","tool":"bash"}}"#;
    let events = s.handle_frame(txt, 0).unwrap();
    assert!(matches!(&events[..], [WsEvent::ApprovalRequested(p)] if p.id.as_deref() == Some("a1")));
    let txt = r#"{"type":"event","event":"exec.approval.resolved","payload":{"id":"a1"}}"#;
    assert_eq!(
        s.handle_frame(txt, 0).unwrap(),
        vec![WsEvent::ApprovalResolved {
            id: Some("a1".into())
        }]
    );
    let txt = r#"{"type":"event","event":"update.available","payload":{"updateAvailable":
        {"currentVersion":"1","latestVersion":"2"}}}"#;
    let events = s.handle_frame(txt, 0).unwrap();
    assert!(matches!(&events[..], [WsEvent::UpdateAvailable(Some(u))] if u.channel == "stable"));
    let txt = r#"{"type":"event","event":"sessions.changed"}"#;
    assert_eq!(s.handle_frame(txt, 0).unwrap(), vec![WsEvent::SessionsChanged]);
}

#[test]
fn the_socket_ends_a_handshake() {
    let challenge = r#"{"type":"event","event":"connect.challenge","payload":{"nonce":"n1"}}"#;
    assert_eq!(
        on_challenge(Incoming::Text(challenge.into())).unwrap().as_deref(),
        Some("n1")
    );
    assert_eq!(on_challenge(Incoming::Other), Ok(None));
    assert_eq!(
        on_challenge(Incoming::Closed(None)),
        Err(SessionError::HandshakeRejected("closed before challenge".into()))
    );
    assert_eq!(
        on_challenge(Incoming::Closed(Some("busy".into()))),
        Err(SessionError::HandshakeRejected("busy".into()))
    );
    assert_eq!(
        on_hello(Incoming::Closed(None), &None),
        Err(SessionError::HandshakeRejected("closed during handshake".into()))
    );
    assert_eq!(on_hello(Incoming::Other, &None), Ok(Hello::Wait));
    assert_eq!(
        on_hello(Incoming::Failed("reset".into()), &None),
        Err(SessionError::Connect("reset".into()))
    );
    assert_eq!(on_hello(Incoming::Ended, &None), Err(SessionError::SocketClosed));
    assert_eq!(
        on_hello(Incoming::TimedOut, &None),
        Err(SessionError::HandshakeTimeout)
    );
    assert_eq!(bearer("tok"), "Bearer tok");
}

#[test]
fn the_socket_ends_a_live_session() {
    let mut s = Session::new();
    let txt = r#"{"type":"event","event":"sessions.changed"}"#;
    assert_eq!(
        s.take(Incoming::Text(txt.into()), 0),
        Ok(vec![WsEvent::SessionsChanged])
    );
    assert_eq!(s.take(Incoming::Other, 0), Ok(vec![]));
    assert_eq!(
        s.take(Incoming::Closed(Some("bye".into())), 0),
        Err(SessionError::SocketClosed)
    );
    assert_eq!(s.take(Incoming::Ended, 0), Err(SessionError::SocketClosed));
    assert_eq!(
        s.take(Incoming::Failed("reset".into()), 0),
        Err(SessionError::Connect("reset".into()))
    );
}

#[test]
fn a_turn_stays_told_among_others() {
    let mut s = Session::new();
    s.handle_frame(&message("first", "hello"), 0).unwrap();
    for i in 0..(SEEN_IDS_MAX - 1) {
        s.handle_frame(&message(&format!("m{i}"), "x"), 0).unwrap();
    }
    assert!(s.handle_frame(&message("first", "hello"), 0).unwrap().is_empty());
    s.handle_frame(&message("last", "x"), 0).unwrap();
    assert!(!s.handle_frame(&message("first", "hello"), 0).unwrap().is_empty());
}

#[test]
fn a_turn_with_new_metadata_is_not_told_again() {
    let mut s = Session::new();
    s.handle_frame(&message("m1", "hello"), 0).unwrap();
    let again = r#"{"type":"event","event":"session.message","payload":{"key":"agent:main:main",
        "totalTokens":5,"message":{"id":"m1","role":"assistant",
        "content":[{"type":"text","text":"hello again"}]}}}"#;
    assert!(s.handle_frame(again, 9).unwrap().is_empty());
    assert_eq!(s.seen_message_ids, vec!["m1".to_string()]);
}
