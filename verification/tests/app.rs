//! The application: what messages do.
use periclaw::app::keys::{key_message, Key};
use periclaw::app::state::{
    App, ChatActivity, Clock, ConnectionStatus, Effect, LaunchEnv, Message, NavItem, CHAT_LOG_MAX,
    RESET_CONFIRM_WINDOW_MS, TRANSITION_FLASH_MS,
};
use periclaw::app::update::Source;
use periclaw::domain::agent::{AgentId, AgentKind};
use periclaw::domain::status::AgentStatus;
use periclaw::net::commands::GatewayCommand;
use periclaw::net::events::{ActivityKind, GatewayUpdate, WsEvent};
use periclaw::net::rpc::{
    AgentInfo, ApprovalEventPayload, Channel, CronJob, CronState, LogTailPayload, MainAgent,
    SessionInfo,
};
use periclaw::ui::chat_view::{ChatMessage, ChatRole};
use periclaw::ui::palette::PaletteRow;
use periclaw::ui_state::{Settings, UiState};

fn launch() -> LaunchEnv {
    LaunchEnv {
        demo: false,
        gateway_url: Some("wss://gw/".into()),
    }
}

fn app() -> App {
    App::new(UiState::default(), launch(), false, None)
}

fn clock(now_ms: u64) -> Clock {
    Clock {
        now_ms,
        wall_secs: 1_700_000_000,
    }
}

fn send(app: &mut App, m: Message, now_ms: u64) -> Vec<Effect> {
    app.update_with(m, clock(now_ms), "key".into())
}

fn ws(app: &mut App, e: WsEvent, now_ms: u64) -> Vec<Effect> {
    send(app, Message::Ws(e), now_ms)
}

fn id(s: &str) -> AgentId {
    AgentId::new(s)
}

fn agent(name: &str) -> AgentInfo {
    AgentInfo {
        id: name.into(),
        name: None,
        identity: None,
        model: None,
        workspace: None,
    }
}

fn list(app: &mut App, ids: &[&str]) -> Vec<Effect> {
    ws(
        app,
        WsEvent::AgentsList {
            default_id: ids[0].into(),
            agents: ids.iter().map(|s| agent(s)).collect(),
        },
        0,
    )
}

fn session(key: &str) -> SessionInfo {
    SessionInfo {
        key: key.into(),
        total_tokens: Some(1),
        context_tokens: Some(2),
        input_tokens: None,
        output_tokens: None,
        updated_at_ms: None,
        age_ms: None,
        model: None,
        kind: None,
        thinking_level: None,
        agent_id: None,
    }
}

#[test]
fn first_run_opens_the_settings() {
    let none = LaunchEnv {
        demo: false,
        gateway_url: None,
    };
    let state = UiState {
        tab: Some("logs".into()),
        ..UiState::default()
    };
    let a = App::new(state.clone(), none, false, None);
    assert_eq!(a.nav, NavItem::Settings);
    assert!(a.first_run_incomplete());
    assert_eq!(a.subscription(), Source::Idle);
    assert_eq!(a.connection_status, ConnectionStatus::Untested);
    let b = App::new(state, launch(), false, None);
    assert_eq!(b.nav, NavItem::Logs);
    assert_eq!(b.connection_status, ConnectionStatus::Connecting);
    assert!(matches!(b.subscription(), Source::Gateway(p) if p.gateway_url == "wss://gw/"));
}

#[test]
fn demo_needs_no_gateway() {
    let a = App::new(
        UiState::default(),
        LaunchEnv {
            demo: true,
            gateway_url: None,
        },
        false,
        None,
    );
    assert_eq!(a.nav, NavItem::Overview);
    assert_eq!(a.subscription(), Source::Demo);
}

#[test]
fn a_relaunch_restores() {
    let mut a = app();
    send(&mut a, Message::NavClicked(NavItem::Sessions), 0);
    send(&mut a, Message::SelectChatAgent(id("memoria")), 0);
    send(&mut a, Message::SessionSelected("agent:memoria:x".into()), 0);
    let b = App::new(a.ui_state_snapshot(), launch(), false, None);
    assert_eq!(b.nav, NavItem::Sessions);
    assert_eq!(b.selected_chat_agent.as_str(), "memoria");
    assert_eq!(b.active_session_key.as_deref(), Some("agent:memoria:x"));
}

#[test]
fn a_prompt_is_logged_and_sent() {
    let mut a = app();
    ws(&mut a, WsEvent::Connected, 0);
    send(&mut a, Message::ChatInputChanged("  hello ".into()), 0);
    let effects = send(&mut a, Message::SendChat, 5);
    assert!(effects.contains(&Effect::Send(GatewayCommand::SendChat {
        agent_id: "main".into(),
        message: "hello".into(),
        idempotency_key: "key".into(),
    })));
    assert_eq!(a.chat_input, "");
    let log = a.chat_logs.get("main").unwrap();
    assert_eq!(log.len(), 1);
    assert_eq!(log.at(0).role, ChatRole::User);
    assert_eq!(log.at(0).text, "hello");
    assert_eq!(
        a.chat_activities.get("main").unwrap().kind,
        ChatActivity::Sending
    );
    assert!(send(&mut a, Message::SendChat, 6).is_empty());
}

#[test]
fn prompts_get_fresh_keys() {
    let mut keys = vec![];
    for _ in 0..2 {
        let mut a = app();
        ws(&mut a, WsEvent::Connected, 0);
        send(&mut a, Message::ChatInputChanged("x".into()), 0);
        for e in a.update(Message::SendChat, clock(1)) {
            if let Effect::Send(GatewayCommand::SendChat {
                idempotency_key, ..
            }) = e
            {
                keys.push(idempotency_key);
            }
        }
    }
    assert_eq!(keys.len(), 2);
    assert_eq!(keys[0].len(), 36);
    assert_ne!(keys[0], keys[1]);
}

#[test]
fn replies_count_until_they_are_seen() {
    let mut a = app();
    list(&mut a, &["main", "memoria"]);
    for text in ["one", "two"] {
        ws(
            &mut a,
            WsEvent::AgentMessage {
                agent_id: id("memoria"),
                text: text.into(),
            },
            10,
        );
    }
    assert_eq!(a.unread.get("memoria"), Some(&2));
    assert_eq!(a.total_unread(), 2);
    send(&mut a, Message::NavClicked(NavItem::Chat), 11);
    assert_eq!(a.unread.get("memoria"), Some(&2));
    send(&mut a, Message::SelectChatAgent(id("memoria")), 12);
    assert_eq!(a.total_unread(), 0);
    ws(
        &mut a,
        WsEvent::AgentMessage {
            agent_id: id("memoria"),
            text: "three".into(),
        },
        13,
    );
    assert_eq!(a.total_unread(), 0);
    assert_eq!(a.chat_logs.get("memoria").unwrap().len(), 3);
}

#[test]
fn a_lost_connection_keeps_transcripts() {
    let mut a = app();
    ws(&mut a, WsEvent::Connected, 0);
    ws(
        &mut a,
        WsEvent::AgentMessage {
            agent_id: id("main"),
            text: "hi".into(),
        },
        1,
    );
    send(&mut a, Message::SelectChatAgent(id("main")), 2);
    ws(&mut a, WsEvent::Disconnected("gone".into()), 3);
    assert!(!a.connected);
    assert_eq!(a.last_disconnect.as_deref(), Some("gone"));
    assert_eq!(a.chat_logs.get("main").unwrap().len(), 1);
    assert!(a.history_fetched.is_empty());
    assert_eq!(
        a.connection_status,
        ConnectionStatus::Failed("gone".into())
    );
}

#[test]
fn history_is_fetched_once_per_connection() {
    let fetches = |effects: &[Effect]| {
        effects
            .iter()
            .filter(|e| matches!(e, Effect::Send(GatewayCommand::FetchChatHistory { .. })))
            .count()
    };
    let mut a = app();
    ws(&mut a, WsEvent::Connected, 0);
    let first = send(&mut a, Message::SelectChatAgent(id("docs")), 1);
    let second = send(&mut a, Message::SelectChatAgent(id("docs")), 2);
    assert_eq!((fetches(&first), fetches(&second)), (1, 0));
    ws(&mut a, WsEvent::Disconnected("x".into()), 3);
    ws(&mut a, WsEvent::Connected, 4);
    send(&mut a, Message::SelectChatAgent(id("main")), 4);
    let third = send(&mut a, Message::SelectChatAgent(id("docs")), 5);
    assert_eq!(fetches(&third), 1);
}

#[test]
fn the_operators_choice_outlives_a_list() {
    let mut a = app();
    send(&mut a, Message::SelectChatAgent(id("memoria")), 0);
    list(&mut a, &["main", "memoria"]);
    assert_eq!(a.selected_chat_agent.as_str(), "memoria");
    assert_eq!(a.roster.len(), 2);
    assert!(a.roster.iter().all(|r| r.kind == AgentKind::Main));
}

#[test]
fn statuses_change_once() {
    let mut a = app();
    let job = CronJob {
        name: "sync".into(),
        id: Some("u1".into()),
        state: CronState {
            running: true,
            ..CronState::default()
        },
    };
    ws(&mut a, WsEvent::CronSnapshot(vec![job.clone()]), 100);
    assert_eq!(a.statuses.get("sync"), Some(&AgentStatus::Running));
    assert_eq!(a.bubbles.len(), 1);
    assert_eq!(a.bubbles[0].text, "...working...");
    ws(&mut a, WsEvent::CronSnapshot(vec![job]), 200);
    assert_eq!(a.bubbles.len(), 1);
    assert_eq!(a.transition_moments.get("sync"), Some(&100));
}

#[test]
fn deltas_keep_what_they_do_not_carry() {
    let mut a = app();
    ws(
        &mut a,
        WsEvent::CronSnapshot(vec![CronJob {
            name: "sync".into(),
            id: Some("u1".into()),
            state: CronState {
                next_run_at_ms: Some(99),
                ..CronState::default()
            },
        }]),
        0,
    );
    ws(
        &mut a,
        WsEvent::CronDelta(CronJob {
            name: "sync".into(),
            id: None,
            state: CronState {
                last_status: Some("ok".into()),
                ..CronState::default()
            },
        }),
        1,
    );
    let state = a.cron_details.get("sync").unwrap();
    assert_eq!(state.next_run_at_ms, Some(99));
    assert_eq!(state.last_status.as_deref(), Some("ok"));
    assert_eq!(a.cron_ids.get("sync").map(String::as_str), Some("u1"));
    let effects = send(&mut a, Message::RunCron(id("sync")), 2);
    assert_eq!(
        effects,
        vec![Effect::Send(GatewayCommand::RunCron {
            job_id: "u1".into()
        })]
    );
}

#[test]
fn cron_errors_are_notified_once() {
    let mut a = app();
    let failed = CronJob {
        name: "sync".into(),
        id: None,
        state: CronState {
            last_status: Some("error".into()),
            last_error: Some("boom".into()),
            ..CronState::default()
        },
    };
    let notes = |effects: Vec<Effect>| {
        effects
            .iter()
            .filter(|e| matches!(e, Effect::Notify(_)))
            .count()
    };
    let first = ws(&mut a, WsEvent::CronDelta(failed.clone()), 0);
    let second = ws(&mut a, WsEvent::CronDelta(failed), 1);
    assert_eq!((notes(first), notes(second)), (1, 0));
}

#[test]
fn tools_outrank_thinking() {
    let mut a = app();
    ws(
        &mut a,
        WsEvent::AgentToolInvoked {
            agent_id: id("main"),
            text: "⚙ bash".into(),
        },
        1,
    );
    ws(
        &mut a,
        WsEvent::AgentActivity {
            agent_id: id("main"),
            kind: ActivityKind::Thinking,
        },
        2,
    );
    assert_eq!(
        a.chat_activities.get("main").unwrap().kind,
        ChatActivity::Tool("bash".into())
    );
    ws(
        &mut a,
        WsEvent::AgentActivity {
            agent_id: id("main"),
            kind: ActivityKind::Errored,
        },
        3,
    );
    assert!(a.chat_activities.get("main").is_none());
    assert_eq!(a.statuses.get("main"), Some(&AgentStatus::Error));
}

#[test]
fn a_reset_takes_two_clicks() {
    let mut a = app();
    assert!(send(&mut a, Message::ResetMainSession(id("main")), 0).is_empty());
    assert!(a.pending_resets.contains_key("main"));
    let effects = send(&mut a, Message::ResetMainSession(id("main")), 100);
    assert_eq!(
        effects,
        vec![Effect::Send(GatewayCommand::ResetSession {
            session_key: "agent:main:main".into()
        })]
    );
    assert!(send(&mut a, Message::ResetMainSession(id("main")), 200).is_empty());
    let late = 200 + RESET_CONFIRM_WINDOW_MS;
    assert!(send(&mut a, Message::ResetMainSession(id("main")), late).is_empty());
}

#[test]
fn ticks_sweep_out_what_is_over() {
    let mut a = app();
    ws(
        &mut a,
        WsEvent::MainAgent(MainAgent {
            id: "main".into(),
            model: Some("opus".into()),
            state: Some("running".into()),
        }),
        0,
    );
    assert_eq!(a.active_model.as_deref(), Some("opus"));
    assert_eq!(a.bubbles.len(), 1);
    assert_eq!(a.tick_interval_ms(0), 33);
    send(&mut a, Message::Tick, 10_000);
    assert!(a.bubbles.is_empty());
    assert!(a.transition_moments.is_empty());
    assert!(a.any_sprite_animating(10_000));
    let quiet = app();
    assert_eq!(quiet.tick_interval_ms(TRANSITION_FLASH_MS), 50);
}

#[test]
fn saving_reconnects() {
    let mut a = app();
    send(&mut a, Message::SettingsGatewayUrlChanged("wss://new/".into()), 0);
    send(&mut a, Message::SettingsTokenChanged("tok".into()), 0);
    send(&mut a, Message::SettingsModeSelected("ws"), 0);
    let effects = send(&mut a, Message::SettingsSave, 1);
    assert_eq!(a.save_nonce, 1);
    assert_eq!(a.settings.gateway_url.as_deref(), Some("wss://new/"));
    assert!(effects.iter().any(|e| matches!(e, Effect::SaveState(_))));
    assert!(effects.contains(&Effect::StoreToken("tok".into())));
    send(&mut a, Message::TokenSaved(Some("tok".into())), 2);
    assert_eq!(a.settings_form.token, "");
    assert!(a.token_present);
    assert_eq!(a.cached_token.as_deref(), Some("tok"));
    let effects = send(&mut a, Message::SettingsClearToken, 3);
    assert_eq!(effects, vec![Effect::PurgeToken]);
    assert!(!a.token_present);
    send(&mut a, Message::SettingsSave, 4);
    assert_eq!(a.save_nonce, 2);
}

#[test]
fn approvals_come_and_go() {
    let mut a = app();
    let effects = ws(
        &mut a,
        WsEvent::ApprovalRequested(ApprovalEventPayload {
            id: Some("a1".into()),
            session_key: None,
            tool: Some("bash".into()),
            summary: Some("ls".into()),
        }),
        0,
    );
    assert!(effects.iter().any(|e| matches!(e, Effect::Notify(_))));
    assert_eq!(a.pending_approvals.len(), 1);
    let strip = a.bottom_strip(0);
    assert_eq!(strip.approvals[0].summary, "ls");
    let effects = send(
        &mut a,
        Message::ResolveApproval {
            id: "a1".into(),
            decision: "deny",
        },
        1,
    );
    assert_eq!(
        effects,
        vec![Effect::Send(GatewayCommand::ResolveApproval {
            id: "a1".into(),
            decision: "deny".into(),
        })]
    );
    assert!(a.pending_approvals.is_empty());
}

#[test]
fn the_palette_opens_moves_and_runs() {
    let mut a = app();
    assert!(a.palette_page().is_none());
    assert_eq!(
        send(&mut a, Message::PaletteToggle, 0),
        vec![Effect::FocusPalette]
    );
    let page = a.palette_page().unwrap();
    assert_eq!(page.footer, "6 of 6");
    assert!(matches!(&page.rows[0], PaletteRow::Heading(_)));
    send(&mut a, Message::PaletteMove(-1), 0);
    assert_eq!(a.palette_selected, 5);
    send(&mut a, Message::PaletteMove(1), 0);
    assert_eq!(a.palette_selected, 0);
    send(&mut a, Message::PaletteInputChanged("logs".into()), 0);
    send(&mut a, Message::PaletteExecute, 0);
    assert_eq!(a.nav, NavItem::Logs);
    assert!(!a.palette_open);
}

#[test]
fn keys_drive_the_palette() {
    assert_eq!(
        key_message(&Key::Character("k".into()), true),
        Some(Message::PaletteToggle)
    );
    assert_eq!(key_message(&Key::Character("k".into()), false), None);
    assert_eq!(key_message(&Key::Character("j".into()), true), None);
    assert_eq!(key_message(&Key::Escape, false), Some(Message::PaletteClose));
    assert_eq!(key_message(&Key::ArrowUp, false), Some(Message::PaletteMove(-1)));
    assert_eq!(key_message(&Key::ArrowDown, false), Some(Message::PaletteMove(1)));
    assert_eq!(key_message(&Key::Other, true), None);
}

#[test]
fn log_tails_fill_the_buffer() {
    let mut a = app();
    let tail = |reset: bool, lines: &[&str]| {
        WsEvent::LogTail(LogTailPayload {
            cursor: 0,
            lines: lines.iter().map(|s| s.to_string()).collect(),
            reset,
        })
    };
    ws(&mut a, tail(false, &["12:00 WARN a", "b"]), 0);
    ws(&mut a, tail(false, &["c"]), 1);
    assert_eq!(a.log_lines.len(), 3);
    ws(&mut a, tail(true, &["12:01 \u{1b}[31mERROR\u{1b}[0m d"]), 2);
    assert_eq!(a.log_lines.len(), 1);
    let page = a.logs_page();
    assert_eq!(page.rows[0].text, "12:01 ERROR d");
    assert_eq!(page.hits, "showing 1 of 1");
    assert!(!page.jump_pill);
    send(&mut a, Message::LogsScrolled(false), 3);
    assert!(a.logs_page().jump_pill);
    assert_eq!(
        send(&mut a, Message::LogsJumpToLatest, 4),
        vec![Effect::SnapLogsToEnd]
    );
}

#[test]
fn logs_never_outgrow_their_bound() {
    let mut a = app();
    let messages: Vec<ChatMessage> = (0..CHAT_LOG_MAX + 5)
        .map(|i| ChatMessage::assistant(&format!("m{i}"), 0))
        .collect();
    ws(
        &mut a,
        WsEvent::ChatHistory {
            agent_id: id("main"),
            messages,
        },
        0,
    );
    let log = a.chat_logs.get("main").unwrap();
    assert_eq!(log.len(), CHAT_LOG_MAX);
    assert_eq!(log.at(0).text, "m5");
}

#[test]
fn the_window_is_saved_once_it_rests() {
    let mut a = app();
    send(&mut a, Message::WindowResized("800".into(), "600".into()), 1_000);
    let saves = |effects: Vec<Effect>| {
        effects
            .iter()
            .filter(|e| matches!(e, Effect::SaveState(_)))
            .count()
    };
    let early = send(&mut a, Message::Tick, 1_100);
    let late = send(&mut a, Message::Tick, 1_250);
    let again = send(&mut a, Message::Tick, 1_300);
    assert_eq!((saves(early), saves(late), saves(again)), (0, 1, 0));
    assert_eq!(a.pending_window.as_ref().unwrap().width, "800");
}

#[test]
fn the_tabs_show_the_state() {
    let mut a = app();
    ws(&mut a, WsEvent::Connected, 0);
    list(&mut a, &["main", "memoria"]);
    ws(
        &mut a,
        WsEvent::ChannelSnapshot(vec![Channel {
            name: "slack".into(),
            enabled: true,
            connected: true,
            last_error: None,
        }]),
        0,
    );
    ws(&mut a, WsEvent::SessionUsage(session("agent:main:main")), 0);
    let overview = a.overview(0);
    assert_eq!(overview.cards.len(), a.roster.len());
    assert_eq!(overview.plan.agents.len(), a.roster.len());
    assert_eq!(overview.input.placeholder, "Ask main anything…");
    let agents = a.agents_page(0);
    assert_eq!(agents.count, "3 tracked");
    assert_eq!(agents.rows[2].kind, "channel");
    assert_eq!(
        agents.rows[0].lines,
        vec!["main session: 1 / 2 tokens".to_string()]
    );
    let chat = a.chat_page();
    assert_eq!(chat.picker.len(), 2);
    assert!(chat.picker[0].active && !chat.picker[1].active);
    assert_eq!(chat.pane.subtitle, "0 messages");
    let sessions = a.sessions_page(0);
    assert_eq!(sessions.count, "1 tracked");
    assert!(sessions.detail.is_none());
    let settings = a.settings_page("OS keychain");
    assert_eq!(settings.connection, "✓ connected");
    assert_eq!(settings.rooms.len(), 3);
    assert_eq!(settings.homes.len(), 2);
    let strip = a.bottom_strip(0);
    assert_eq!(strip.status.dot, "●");
    assert!(strip.status.chunks.iter().any(|c| c.text == "· ctx 1/2"));
}

#[test]
fn updates_are_shown_and_cleared() {
    let mut a = app();
    let update = GatewayUpdate {
        current: "1".into(),
        latest: "2".into(),
        channel: "stable".into(),
    };
    let effects = ws(&mut a, WsEvent::UpdateAvailable(Some(update)), 0);
    assert!(effects.iter().any(|e| matches!(e, Effect::Notify(_))));
    assert!(a
        .bottom_strip(0)
        .status
        .chunks
        .iter()
        .any(|c| c.text == "· update 1 → 2"));
    ws(&mut a, WsEvent::UpdateAvailable(None), 1);
    assert!(a.gateway_update.is_none());
}

#[test]
fn errors_fold_and_unfold() {
    let mut a = app();
    send(&mut a, Message::ToggleAgentError(id("x")), 0);
    assert!(a.expanded_errors.contains("x"));
    send(&mut a, Message::ToggleAgentError(id("x")), 0);
    assert!(!a.expanded_errors.contains("x"));
}

#[test]
fn settings_form_knows_its_modes() {
    let state = UiState {
        settings: Settings {
            gateway_url: Some("wss://x/".into()),
            mode: Some("nonsense".into()),
        },
        ..UiState::default()
    };
    let a = App::new(state, launch(), true, None);
    assert_eq!(a.settings_form.mode, "auto");
    assert_eq!(a.settings_form.gateway_url, "wss://x/");
    assert_eq!(a.settings_form.token, "");
}

#[test]
fn copying_is_left_to_the_desktop() {
    let mut a = app();
    assert_eq!(
        send(&mut a, Message::CopyToClipboard("x".into()), 0),
        vec![Effect::Copy("x".into())]
    );
    assert!(send(&mut a, Message::InputDiscard("x".into()), 0).is_empty());
    assert_eq!(
        send(&mut a, Message::RequestReconnect, 0),
        vec![Effect::Send(GatewayCommand::Reconnect)]
    );
}
