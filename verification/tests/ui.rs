//! What the tabs show.
use periclaw::app::state::{ChatActivity, ChatActivityState, ConnectionStatus, NavItem, SettingsForm};
use periclaw::domain::agent::{Agent, AgentId, Tint};
use periclaw::domain::job::Job;
use periclaw::domain::room::{default_rooms, Room};
use periclaw::domain::status::AgentStatus;
use periclaw::figures::{is_mostly_used, percent_of};
use periclaw::keyed::{StrMap, StrSet};
use periclaw::logs::{LogFilters, LogLine, LogSeverity};
use periclaw::net::rpc::{
    AgentIdentity, AgentInfo, AgentModelRef, ApprovalEventPayload, Channel, CronState, SessionInfo,
    SessionUsagePoint,
};
use periclaw::ring::Ring;
use periclaw::ui::agents_view::{
    self, format_duration_ms, format_time_ago as agents_time_ago, format_time_until, yes_no,
    AgentsViewSnapshot, RowAction,
};
use periclaw::ui::approvals::{self, summary_for};
use periclaw::ui::chat_bubble;
use periclaw::ui::chat_input;
use periclaw::ui::chat_view::{self, activity_indicator, base_name, ChatMessage, ChatRole};
use periclaw::ui::logs_view::{self, strip_ansi};
use periclaw::ui::sessions_view::{
    self, display_key, fmt_tokens, format_time_ago, sorted_sessions, tokens_summary, DetailBody,
    SessionsViewSnapshot,
};
use periclaw::ui::settings_view;
use periclaw::ui::sidebar::{self, unread_badge};
use periclaw::ui::sparkline::{fmt_tokens_short, Sparkline, TokenSparkline};
use periclaw::ui::status_bar::{
    self, compact_count, connection_line, format_age, truncate, Press, Snapshot,
};
use periclaw::ui::widgets::status_label;
use periclaw::ui_state::Settings;

#[test]
fn format_duration_buckets() {
    assert_eq!(format_duration_ms(500), "0s");
    assert_eq!(format_duration_ms(45_000), "45s");
    assert_eq!(format_duration_ms(95_000), "1m 35s");
    assert_eq!(format_duration_ms(3_700_000), "1h 1m");
    assert_eq!(format_duration_ms(-1), "?");
}

#[test]
fn truncate_adds_ellipsis() {
    assert_eq!(agents_view::truncate("hello", 10), "hello");
    let out = agents_view::truncate(&"x".repeat(120), 10);
    assert_eq!(out.chars().count(), 10);
    assert!(out.ends_with('…'));
}

#[test]
fn times_are_told_in_their_largest_unit() {
    let now = 1_000_000_000;
    assert_eq!(agents_time_ago(now, now - 59_999), "(59s ago)");
    assert_eq!(agents_time_ago(now, now - 60_000), "(1m ago)");
    assert_eq!(agents_time_ago(now, now - 7_200_000), "(2h ago)");
    assert_eq!(agents_time_ago(now, now - 2 * 86_400_000), "(2d ago)");
    assert_eq!(agents_time_ago(now, now + 1), "never");
    assert_eq!(format_time_ago(now, now - 60_000), "1m ago");
    assert_eq!(format_time_ago(now, now + 1), "now");
    assert_eq!(format_time_until(now, now), "overdue");
    assert_eq!(format_time_until(now, now + 30_000), "in 30s");
    assert_eq!(format_time_until(now, now + 90_000), "in 1m");
    assert_eq!(format_time_until(now, now + 3_700_000), "in 1h 1m");
    assert_eq!(format_time_until(now, now + 3 * 86_400_000), "in 3d");
    assert_eq!(format_time_until(i64::MIN, i64::MAX), "in 213503982334d");
    assert_eq!(format_age(59_000), "59s ago");
    assert_eq!(format_age(100 * 3_600_000), "100h ago");
}

#[test]
fn strip_ansi_removes_csi_sequences() {
    let raw = "\u{1b}[2m2026-04-20T00:53:42Z\u{1b}[0m \u{1b}[32m INFO\u{1b}[0m message";
    assert_eq!(strip_ansi(raw), "2026-04-20T00:53:42Z  INFO message",);
}

#[test]
fn strip_ansi_passes_through_plain_text() {
    let raw = "no escapes here";
    assert_eq!(strip_ansi(raw), raw);
}

#[test]
fn strip_ansi_at_the_edges() {
    assert_eq!(strip_ansi("a\u{1b}"), "a");
    assert_eq!(strip_ansi("a\u{1b}[12"), "a");
    assert_eq!(strip_ansi("a\u{1b}]b"), "ab");
    assert_eq!(strip_ansi("\u{1b}[1;31mX"), "X");
}

#[test]
fn display_key_strips_agent_prefix() {
    assert_eq!(display_key("agent:main:main"), "main:main");
    assert_eq!(display_key("foo:bar"), "foo:bar");
}

#[test]
fn fmt_tokens_scales() {
    assert_eq!(fmt_tokens(500), "500");
    assert_eq!(fmt_tokens(12_400), "12.4k");
    assert_eq!(fmt_tokens(2_300_000), "2.3M");
}

fn session(key: &str, updated: Option<i64>) -> SessionInfo {
    SessionInfo {
        key: key.into(),
        total_tokens: None,
        context_tokens: None,
        input_tokens: None,
        output_tokens: None,
        updated_at_ms: updated,
        age_ms: None,
        model: None,
        kind: None,
        thinking_level: None,
        agent_id: None,
    }
}

#[test]
fn tokens_summary_shapes() {
    let mut info = SessionInfo {
        key: "agent:main:main".into(),
        total_tokens: Some(50_000),
        context_tokens: Some(200_000),
        input_tokens: None,
        output_tokens: None,
        updated_at_ms: None,
        age_ms: None,
        model: None,
        kind: None,
        thinking_level: None,
        agent_id: None,
    };
    let s = tokens_summary(&info);
    assert!(s.contains("50.0k"), "{}", s);
    assert!(s.contains("200.0k"), "{}", s);
    assert!(s.contains("25%"), "{}", s);

    info.total_tokens = None;
    assert_eq!(tokens_summary(&info), "context: 200.0k");
    info.context_tokens = None;
    assert_eq!(tokens_summary(&info), "tokens: —");
    info.total_tokens = Some(7);
    assert_eq!(tokens_summary(&info), "tokens: 7");
}

#[test]
fn fmt_tokens_short_scales() {
    assert_eq!(fmt_tokens_short(0), "0");
    assert_eq!(fmt_tokens_short(500), "500");
    assert_eq!(fmt_tokens_short(12_400), "12.4k");
    assert_eq!(fmt_tokens_short(2_300_000), "2.3M");
    assert_eq!(fmt_tokens_short(-1_500), "-1.5k");
}

#[test]
fn charts_show_no_trailing_zero() {
    assert_eq!(fmt_tokens_short(2_000), "2k");
    assert_eq!(fmt_tokens_short(-50_000), "-50k");
    assert_eq!(fmt_tokens_short(2_000_000), "2M");
    assert_eq!(fmt_tokens_short(2_040), "2k");
    assert_eq!(fmt_tokens_short(2_060), "2.1k");
    assert_eq!(fmt_tokens(2_000), "2.0k");
}

fn float_count(n: i64) -> String {
    let v = n.unsigned_abs();
    let sign = if n < 0 { "-" } else { "" };
    if v >= 1_000_000 {
        format!("{sign}{:.1}M", v as f64 / 1_000_000.0)
    } else if v >= 1_000 {
        format!("{sign}{:.1}k", v as f64 / 1_000.0)
    } else {
        format!("{sign}{v}")
    }
}

#[test]
fn counts_round_as_doubles_do() {
    let mut samples: Vec<i64> = (900..20_000).step_by(7).collect();
    samples.extend((1_000..1_000_000).step_by(50));
    samples.extend((1_000_000..40_000_000).step_by(49_999));
    samples.extend((1_050_000..90_000_000).step_by(100_000));
    samples.extend([i64::MAX, i64::MAX - 1, i64::MIN, -999, -1_050, 999_949, 999_950, 999_999]);
    samples.extend((0..63).map(|k| 1i64 << k));
    samples.extend((1..63).map(|k| (1i64 << k) - 1));
    for n in samples {
        assert_eq!(fmt_tokens(n), float_count(n), "{n}");
        let bare = float_count(n).replace(".0k", "k").replace(".0M", "M");
        assert_eq!(fmt_tokens_short(n), bare, "{n}");
    }
}

#[test]
fn percentages_round_as_doubles_do() {
    let float = |a: i64, b: i64| {
        if b > 0 {
            format!("{:.0}", (a as f64 / b as f64 * 100.0).clamp(0.0, 999.0))
        } else {
            "0".to_string()
        }
    };
    let mut pairs: Vec<(i64, i64)> = vec![(0, 1), (-5, 10), (5, 0), (i64::MAX, 1), (1, i64::MAX)];
    for a in (0..2_200).step_by(3) {
        for b in [1, 3, 7, 8, 40, 200, 201, 1_000, 128_000] {
            pairs.push((a, b));
        }
    }
    pairs.push((i64::MAX, i64::MAX - 3));
    pairs.push((999, 100));
    for (a, b) in pairs {
        assert_eq!(percent_of(a, b).to_string(), float(a, b), "{a}/{b}");
    }
}

#[test]
fn four_fifths_are_weighed_as_doubles() {
    for ctx in [1i64, 2, 5, 10, 15, 100, 999, 200_000, i64::MAX] {
        for total in [0i64, 1, 4, 8, 12, 79, 80, 799, 800, 159_999, 160_000, i64::MAX] {
            assert_eq!(
                is_mostly_used(total, ctx),
                total as f64 >= (ctx as f64) * 0.8,
                "{total} of {ctx}"
            );
        }
    }
    assert!(!is_mostly_used(-1, 1));
}

fn snapshot() -> Snapshot<'static> {
    Snapshot {
        connected: true,
        agents_tracked: 0,
        last_poll: None,
        active_model: None,
        last_disconnect: None,
        main_usage: None,
        pending_approvals: 0,
        update: None,
    }
}

#[test]
fn connection_line_connected() {
    let snap = Snapshot {
        connected: true,
        agents_tracked: 0,
        last_poll: None,
        active_model: None,
        last_disconnect: None,
        main_usage: None,
        pending_approvals: 0,
        update: None,
    };
    let (dot, label) = connection_line(&snap);
    assert_eq!(dot, "●");
    assert_eq!(label, "connected");
}

#[test]
fn connection_line_disconnected_with_reason() {
    let snap = Snapshot {
        connected: false,
        agents_tracked: 0,
        last_poll: None,
        active_model: None,
        last_disconnect: Some("auth failed"),
        main_usage: None,
        pending_approvals: 0,
        update: None,
    };
    let (dot, label) = connection_line(&snap);
    assert_eq!(dot, "○");
    assert_eq!(label, "disconnected: auth failed");
}

#[test]
fn a_connected_bar_cuts_no_reason() {
    let reason = format!("{}é", "x".repeat(59));
    let snap = Snapshot {
        last_disconnect: Some(&reason),
        ..snapshot()
    };
    assert_eq!(connection_line(&snap).1, "connected");
}

#[test]
fn connection_line_before_the_first_attempt() {
    let snap = Snapshot {
        connected: false,
        ..snapshot()
    };
    assert_eq!(connection_line(&snap).1, "connecting…");
}

#[test]
fn compact_count_scales() {
    assert_eq!(compact_count(500), "500");
    assert_eq!(compact_count(12_400), "12K");
    assert_eq!(compact_count(2_300_000), "2.3M");
    assert_eq!(compact_count(-12_400), "-12K");
    assert_eq!(compact_count(-5), "-5");
}

#[test]
fn truncate_respects_max() {
    assert_eq!(truncate("short", 10), "short");
    let out = truncate("a very long disconnect reason here", 10);
    assert_eq!(out, "a very lon…");
}

#[test]
fn the_bar_shows_what_it_knows() {
    let snap = Snapshot {
        agents_tracked: 3,
        last_poll: Some(1_000),
        active_model: Some("opus"),
        main_usage: Some((160_000, 200_000)),
        pending_approvals: 2,
        update: Some(("1", "2")),
        ..snapshot()
    };
    let bar = status_bar::view(snap, 6_500);
    let texts: Vec<&str> = bar.chunks.iter().map(|c| c.text.as_str()).collect();
    assert_eq!(
        texts,
        vec![
            "connected",
            "3 agents tracked",
            "· opus",
            "· last poll 5s ago",
            "· ctx 160K/200K",
            "· 2 approval(s) pending",
            "· update 1 → 2",
        ]
    );
    assert_eq!(bar.chunks[0].press, Some(Press::Go(NavItem::Logs)));
    assert_eq!(bar.chunks[2].press, None);
    assert_eq!(bar.chunks[4].tint, Tint::StatusDegraded);
    assert_eq!(bar.chunks[6].press, Some(Press::Reconnect));
    assert_eq!(bar.dot_tint, Tint::TerminalGreen);
    let full = Snapshot {
        main_usage: Some((5, 5)),
        ..snapshot()
    };
    assert_eq!(status_bar::view(full, 0).chunks[2].tint, Tint::StatusDown);
}

fn point(timestamp: i64, cumulative_tokens: i64) -> SessionUsagePoint {
    SessionUsagePoint {
        timestamp,
        input: 0,
        output: 0,
        cache_read: 0,
        cache_write: 0,
        total_tokens: 0,
        cumulative_tokens,
        cost: "0".into(),
        cumulative_cost: "0".into(),
    }
}

#[test]
fn sparklines_need_two_points_some_time_and_tokens() {
    let draw = |points: &Vec<SessionUsagePoint>, context_budget: Option<i64>| {
        TokenSparkline {
            points,
            context_budget,
        }
        .draw()
    };
    assert!(matches!(
        draw(&vec![point(1, 5)], None),
        Sparkline::Placeholder("no usage recorded yet")
    ));
    assert!(matches!(
        draw(&vec![point(1, 5), point(1, 6)], None),
        Sparkline::Placeholder("usage pending first message")
    ));
    assert!(matches!(
        draw(&vec![point(1, 0), point(2, 0)], None),
        Sparkline::Placeholder("usage pending first message")
    ));
    match draw(&vec![point(3, 1_000), point(1, 5), point(2, 2_500)], Some(10_000)) {
        Sparkline::Chart(c) => {
            assert_eq!((c.t_min, c.t_max, c.y_max), (1, 3, 10_000));
            assert_eq!(c.budget, Some(10_000));
            assert_eq!(c.label, "2.5k / 10k (25%)");
        }
        other => panic!("{other:?}"),
    }
    match draw(&vec![point(1, 5), point(2, 1_500)], Some(0)) {
        Sparkline::Chart(c) => {
            assert_eq!(c.budget, None);
            assert_eq!(c.y_max, 1_500);
            assert_eq!(c.label, "1.5k");
        }
        other => panic!("{other:?}"),
    }
}

#[test]
fn badges_collapse() {
    assert_eq!(unread_badge(7), "7");
    assert_eq!(unread_badge(99), "99");
    assert_eq!(unread_badge(100), "99+");
}

#[test]
fn the_sidebar_lists_the_tabs() {
    let rows = sidebar::view(NavItem::Agents, 3);
    let labels: Vec<&str> = rows.iter().map(|r| r.label).collect();
    assert_eq!(
        labels,
        vec!["Overview", "Chat", "Agents", "Sessions", "Logs", "Settings"]
    );
    assert!(rows[2].active && !rows[1].active);
    assert_eq!(rows[1].badge.as_deref(), Some("3"));
    assert!(rows[0].badge.is_none());
    assert!(sidebar::view(NavItem::Chat, 0)[1].badge.is_none());
}

#[test]
fn statuses_have_labels() {
    assert_eq!(status_label(AgentStatus::Running), ("RUNNING", Tint::TerminalGreen));
    assert_eq!(status_label(AgentStatus::Healthy), ("OK", Tint::StatusUp));
    assert_eq!(status_label(AgentStatus::Error), ("ERROR", Tint::StatusDown));
    assert_eq!(status_label(AgentStatus::Disabled), ("OFF", Tint::Muted));
    assert_eq!(status_label(AgentStatus::Unknown), ("?", Tint::StatusUnknown));
}

#[test]
fn bubbles_stand_on_their_side() {
    let row = chat_bubble::view(&ChatMessage::user("hi", 0));
    assert_eq!((row.label, row.at_right), ("you", true));
    let row = chat_bubble::view(&ChatMessage::assistant("hi", 0));
    assert_eq!((row.label, row.at_right), ("agent", false));
    let row = chat_bubble::view(&ChatMessage {
        role: ChatRole::Other,
        text: "x".into(),
        at: 0,
    });
    assert_eq!((row.label, row.accent), ("system", Tint::StatusDegraded));
}

#[test]
fn blank_prompts_cannot_be_sent() {
    let input = chat_input::view("  ", true, "Sebastian");
    assert_eq!(input.placeholder, "Ask Sebastian anything…");
    assert!(input.editable && !input.can_send);
    assert!(chat_input::view("x", true, "S").can_send);
    let input = chat_input::view("x", false, "S");
    assert_eq!(input.placeholder, "gateway disconnected");
    assert!(!input.editable && !input.can_send);
}

#[test]
fn approvals_fall_back() {
    let payload = |summary: Option<&str>, key: Option<&str>, tool: Option<&str>| {
        ApprovalEventPayload {
            id: None,
            session_key: key.map(str::to_string),
            tool: tool.map(str::to_string),
            summary: summary.map(str::to_string),
        }
    };
    assert_eq!(summary_for(&payload(Some("s"), Some("k"), None)), "s");
    assert_eq!(summary_for(&payload(None, Some("k"), None)), "session: k");
    assert_eq!(summary_for(&payload(None, None, None)), "pending approval");
    let mut pending = StrMap::new();
    pending.insert("a".to_string(), payload(None, None, None));
    pending.insert("b".to_string(), payload(None, None, Some("bash")));
    let rows = approvals::view(&pending);
    assert_eq!((rows[0].id.as_str(), rows[0].tool.as_str()), ("a", "exec"));
    assert_eq!((rows[1].id.as_str(), rows[1].tool.as_str()), ("b", "bash"));
}

#[test]
fn the_log_page_filters() {
    let mut lines = Ring::new();
    let mut filters = LogFilters::default();
    let page = logs_view::view(&lines, &filters, true);
    assert_eq!(page.notice.as_deref(), Some("waiting for gateway log lines…"));
    lines.push(LogLine::classify("12:00 WARN a".into()), 10);
    filters.toggle(LogSeverity::Warn);
    let page = logs_view::view(&lines, &filters, true);
    assert_eq!(
        page.notice.as_deref(),
        Some("no matches (1 line hidden by filters)")
    );
    assert_eq!(page.hits, "showing 0 of 1");
    assert!(!page.chips[1].active && page.chips[0].active);
    lines.push(LogLine::classify("12:00 WARN b".into()), 10);
    let page = logs_view::view(&lines, &filters, true);
    assert_eq!(
        page.notice.as_deref(),
        Some("no matches (2 lines hidden by filters)")
    );
    filters.toggle(LogSeverity::Warn);
    let page = logs_view::view(&lines, &filters, true);
    assert_eq!(page.rows.len(), 2);
    assert_eq!(page.rows[0].tint, Tint::StatusDegraded);
    assert!(page.notice.is_none());
}

#[test]
fn sessions_stand_newest_first() {
    let mut sessions = StrMap::new();
    for (key, at) in [
        ("agent:b:x", None),
        ("agent:a:x", None),
        ("agent:c:x", Some(5)),
        ("agent:e:x", Some(9)),
        ("agent:d:x", Some(9)),
    ] {
        sessions.insert(key.to_string(), session(key, at));
    }
    let keys: Vec<String> = sorted_sessions(&sessions)
        .iter()
        .map(|s| s.key.clone())
        .collect();
    assert_eq!(
        keys,
        vec!["agent:d:x", "agent:e:x", "agent:c:x", "agent:a:x", "agent:b:x"]
    );
}

#[test]
fn the_session_detail_says_what_it_waits_for() {
    let mut sessions = StrMap::new();
    let mut info = session("agent:main:main", Some(1_000));
    info.model = Some("opus".into());
    info.thinking_level = Some("high".into());
    sessions.insert("agent:main:main".to_string(), info);
    let mut transcripts: StrMap<Ring<ChatMessage>> = StrMap::new();
    let mut hydrated = StrSet::new();
    let usage: StrMap<Vec<SessionUsagePoint>> = StrMap::new();
    let show = |key: Option<&str>,
                transcripts: &StrMap<Ring<ChatMessage>>,
                hydrated: &StrSet,
                connected: bool| {
        sessions_view::view(
            &SessionsViewSnapshot {
                sessions: &sessions,
                active_session_key: key,
                transcripts,
                hydrated,
                usage: &usage,
                connected,
            },
            61_000,
        )
    };
    assert!(show(None, &transcripts, &hydrated, true).detail.is_none());
    let d = show(Some("agent:main:main"), &transcripts, &hydrated, true)
        .detail
        .unwrap();
    assert_eq!(d.title, "main:main");
    assert_eq!(
        d.subtitle.as_deref(),
        Some("opus · thinking: high · tokens: — · updated 1m ago")
    );
    assert!(matches!(d.body, DetailBody::Notice("loading transcript…")));
    assert!(d.copy.is_none());
    let d = show(Some("gone"), &transcripts, &hydrated, false)
        .detail
        .unwrap();
    assert_eq!(d.title, "session gone not in list (waiting?)");
    assert!(matches!(
        d.body,
        DetailBody::Notice("disconnected — reconnect to load transcript")
    ));
    transcripts.insert("agent:main:main".to_string(), Ring::new());
    hydrated.insert("agent:main:main".to_string());
    let d = show(Some("agent:main:main"), &transcripts, &hydrated, true)
        .detail
        .unwrap();
    assert!(matches!(d.body, DetailBody::Notice("session is empty")));
    let mut log = Ring::new();
    log.push(ChatMessage::user("hi", 0), 10);
    transcripts.insert("agent:main:main".to_string(), log);
    let page = show(Some("agent:main:main"), &transcripts, &hydrated, true);
    assert!(page.cards[0].active);
    assert_eq!(page.cards[0].freshness, "1m ago");
    let d = page.detail.unwrap();
    assert!(matches!(d.body, DetailBody::Messages(rows) if rows.len() == 1));
    assert!(d.copy.unwrap().starts_with("# main:main\n\n## you"));
}

#[test]
fn agents_and_jobs_have_rows() {
    let roster = vec![Agent::new("main", "main")];
    let mut jobs = StrMap::new();
    jobs.insert("zed".to_string(), Job::channel("zed"));
    jobs.insert("sync".to_string(), Job::cron("sync"));
    jobs.insert("bare".to_string(), Job::cron("bare"));
    let statuses = StrMap::new();
    let mut cron_details = StrMap::new();
    cron_details.insert(
        "sync".to_string(),
        CronState {
            last_status: Some("ok".into()),
            last_duration_ms: Some(95_000),
            last_run_at_ms: Some(0),
            next_run_at_ms: Some(200_000),
            last_error: Some("e".repeat(120)),
            running: false,
        },
    );
    let mut cron_ids = StrMap::new();
    cron_ids.insert("sync".to_string(), "u".to_string());
    let mut channel_details = StrMap::new();
    channel_details.insert(
        "zed".to_string(),
        Channel {
            name: "zed".into(),
            enabled: true,
            connected: false,
            last_error: None,
        },
    );
    let sessions = StrMap::new();
    let mut pending_resets = StrMap::new();
    pending_resets.insert("main".to_string(), 1u64);
    let expanded_errors = StrSet::new();
    let page = agents_view::view(
        &AgentsViewSnapshot {
            roster: &roster,
            jobs: &jobs,
            statuses: &statuses,
            cron_details: &cron_details,
            cron_ids: &cron_ids,
            channel_details: &channel_details,
            active_model: Some("opus"),
            sessions: &sessions,
            pending_resets: &pending_resets,
            expanded_errors: &expanded_errors,
        },
        120_000,
    );
    assert_eq!(page.count, "4 tracked");
    let ids: Vec<&str> = page.rows.iter().map(|r| r.id.as_str()).collect();
    assert_eq!(ids, vec!["main", "bare", "sync", "zed"]);
    assert_eq!(page.rows[0].action, Some(RowAction::Reset { armed: true }));
    assert_eq!(page.rows[0].action.unwrap().label(), "Confirm reset?");
    assert_eq!(page.rows[0].lines, vec!["model: opus".to_string()]);
    assert_eq!(page.rows[1].lines, vec!["no state yet".to_string()]);
    assert_eq!(page.rows[1].action, None);
    assert_eq!(
        page.rows[2].lines,
        vec![
            "last: ok (1m 35s) (2m ago)".to_string(),
            "next: in 1m".to_string()
        ]
    );
    assert_eq!(page.rows[2].action, Some(RowAction::RunNow));
    let error = page.rows[2].error.as_ref().unwrap();
    assert_eq!(error.indicator, "▸");
    assert_eq!(error.text.chars().count(), 107);
    assert_eq!(
        page.rows[3].lines,
        vec!["configured: yes · connected: no".to_string()]
    );
    assert_eq!(yes_no(true), "yes");
    let error = agents_view::error_row("boom", true);
    assert_eq!((error.indicator, error.text.as_str()), ("▾", "error: boom"));
}

fn sebastian() -> AgentInfo {
    AgentInfo {
        id: "main".into(),
        name: Some("main".into()),
        identity: Some(AgentIdentity {
            name: Some("Sebastian".into()),
            emoji: Some("🦀".into()),
            theme: None,
            avatar: None,
        }),
        model: Some(AgentModelRef {
            primary: Some("opus".into()),
            fallbacks: None,
        }),
        workspace: Some("/home/x/.openclaw".into()),
    }
}

#[test]
fn the_chat_page_speaks_of_its_agent() {
    let agents = vec![sebastian()];
    let mut unread = StrMap::new();
    unread.insert("main".to_string(), 120usize);
    let mut log = Ring::new();
    log.push(ChatMessage::user("hi", 0), 10);
    let activity = ChatActivityState {
        kind: ChatActivity::Tool("bash".into()),
        since: 0,
    };
    let page = chat_view::view(
        &agents,
        &AgentId::new("main"),
        Some(&log),
        Some(&activity),
        "",
        true,
        &unread,
    );
    assert_eq!(page.picker[0].label, "Sebastian 🦀");
    assert_eq!(page.picker[0].badge.as_deref(), Some("99+"));
    assert_eq!(page.pane.title, "Sebastian 🦀");
    assert_eq!(page.pane.subtitle, "opus · .openclaw");
    assert_eq!(page.pane.activity.as_deref(), Some("Sebastian is using bash…"));
    assert!(page.pane.copy.unwrap().starts_with("# Sebastian 🦀"));
    let page = chat_view::view(
        &vec![],
        &AgentId::new("ghost"),
        None,
        None,
        "",
        false,
        &StrMap::new(),
    );
    assert!(page.picker.is_empty());
    assert_eq!(page.pane.title, "ghost");
    assert_eq!(page.pane.subtitle, "0 messages");
    assert!(page.pane.copy.is_none() && page.pane.messages.is_empty());
}

#[test]
fn activities_have_words() {
    let with = |kind: ChatActivity| activity_indicator("Sebastian 🦀", &ChatActivityState { kind, since: 0 });
    assert_eq!(with(ChatActivity::Sending), "Sebastian is receiving your message…");
    assert_eq!(with(ChatActivity::Thinking), "Sebastian is thinking…");
    assert_eq!(base_name("a/b/c"), "c");
    assert_eq!(base_name("c"), "c");
    assert_eq!(base_name("a/"), "");
}

#[test]
fn the_settings_page_knows_its_limits() {
    let settings = Settings {
        gateway_url: None,
        mode: None,
    };
    let form = SettingsForm {
        gateway_url: "wss://x/".into(),
        mode: "ws",
        token: "".into(),
    };
    let rooms = default_rooms();
    let roster = vec![Agent::new("main", "main"), Agent::new("lost", "lost")];
    let mut agent_rooms = StrMap::new();
    agent_rooms.insert("lost".to_string(), "attic".to_string());
    let status = ConnectionStatus::Failed("nope".into());
    let page = settings_view::view(&settings_view::Snapshot {
        settings: &settings,
        form: &form,
        first_run_incomplete: true,
        token_present: false,
        storage_location: "OS keychain",
        connection_status: &status,
        rooms: &rooms,
        roster: &roster,
        agent_rooms: &agent_rooms,
    });
    assert!(page.first_run_banner);
    assert_eq!(page.connection, "✗ nope");
    assert_eq!(page.connection_tint, Tint::StatusDown);
    assert_eq!(
        page.token_status,
        "(no token saved; storage backend: OS keychain)"
    );
    assert!(!page.can_clear_token);
    assert_eq!(
        page.saved,
        "Currently saved: (none — using env var or staying idle)"
    );
    let selected: Vec<bool> = page.modes.iter().map(|m| m.selected).collect();
    assert_eq!(selected, vec![false, true, false]);
    assert!(!page.rooms[0].can_move_up && page.rooms[0].can_move_down);
    assert!(page.rooms[2].can_move_up && !page.rooms[2].can_move_down);
    assert!(page.rooms[1].can_delete);
    assert_eq!(page.homes[0].room, Some(0));
    assert_eq!(page.homes[1].room, None);
    let one = vec![Room::new("a", "A")];
    assert!(!settings_view::rooms_section(&one)[0].can_delete);
    assert_eq!(
        settings_view::connection_status_row(&ConnectionStatus::Untested).0,
        "(not tested — click Save to try)"
    );
}
