//! The command palette.
use periclaw::app::NavItem;
use periclaw::keyed::StrMap;
use periclaw::net::rpc::{AgentInfo, CronState, SessionInfo};
use periclaw::palette::{
    build_entries, find_subslice, fuzzy_score, is_word_boundary, rank, PaletteAction,
    PaletteContext, PaletteEntry, PaletteGroup,
};
use periclaw::domain::agent::{AgentId, AgentKind};

fn entry(label: &str, group: PaletteGroup) -> PaletteEntry {
    PaletteEntry {
        action: PaletteAction::Nav(NavItem::Overview),
        label: label.to_string(),
        subtitle: None,
        group,
    }
}

#[test]
fn empty_query_returns_zero_not_none() {
    assert_eq!(fuzzy_score("", "anything"), Some(0));
}

#[test]
fn exact_equality_beats_prefix_beats_substring() {
    let exact = fuzzy_score("chat", "chat").unwrap();
    let prefix = fuzzy_score("chat", "chat with sebastian").unwrap();
    let substring = fuzzy_score("session", "go to sessions").unwrap();
    let subsequence = fuzzy_score("gto", "go to overview").unwrap();
    assert!(exact > prefix, "{exact} > {prefix}");
    assert!(prefix > substring, "{prefix} > {substring}");
    assert!(substring > subsequence, "{substring} > {subsequence}");
}

#[test]
fn case_insensitive() {
    assert!(fuzzy_score("CHAT", "chat with memoria").is_some());
    assert!(fuzzy_score("chat", "CHAT WITH MEMORIA").is_some());
}

#[test]
fn subsequence_match_boundary_bonus() {
    let good = fuzzy_score("goto", "Go to Overview").unwrap();
    let bad = fuzzy_score("goto", "goat ovoid").unwrap();
    assert!(good > bad, "good={good} bad={bad}");
}

#[test]
fn non_matching_returns_none() {
    assert_eq!(fuzzy_score("xyz", "chat with memoria"), None);
}

#[test]
fn rank_orders_by_score_then_insertion() {
    let entries = vec![
        entry("Go to Overview", PaletteGroup::Navigation),
        entry("Go to Chat", PaletteGroup::Navigation),
        entry("Chat with Sebastian", PaletteGroup::Chat),
    ];
    let ranked = rank(&entries, "chat");
    let labels: Vec<&str> = ranked
        .iter()
        .map(|(i, _)| entries[*i].label.as_str())
        .collect();
    assert_eq!(
        labels,
        vec!["Chat with Sebastian", "Go to Chat"],
        "actual order: {labels:?}",
    );
}

#[test]
fn rank_empty_query_groups_navigation_first() {
    let entries = vec![
        entry("Reset session for main", PaletteGroup::Actions),
        entry("Go to Overview", PaletteGroup::Navigation),
        entry("Chat with main", PaletteGroup::Chat),
    ];
    let ranked = rank(&entries, "");
    let labels: Vec<&str> = ranked
        .iter()
        .map(|(i, _)| entries[*i].label.as_str())
        .collect();
    assert_eq!(
        labels,
        vec!["Go to Overview", "Chat with main", "Reset session for main"],
    );
}

#[test]
fn word_boundary_detection() {
    let hello = b"hello world".to_vec();
    assert!(is_word_boundary(&hello, 0));
    assert!(is_word_boundary(&hello, 6)); // "world"
    assert!(!is_word_boundary(&hello, 3)); // inside "hello"
    assert!(is_word_boundary(&b"reset-session".to_vec(), 6));
}

#[test]
fn subslices_are_found_at_their_first_place() {
    assert_eq!(find_subslice(&b"abcabc".to_vec(), &b"bc".to_vec()), Some(1));
    assert_eq!(find_subslice(&b"abc".to_vec(), &b"d".to_vec()), None);
}

#[test]
fn ties_keep_their_order() {
    let entries = vec![
        entry("alpha", PaletteGroup::Chat),
        entry("alpha", PaletteGroup::Chat),
    ];
    let ranked = rank(&entries, "al");
    assert_eq!(ranked.iter().map(|r| r.0).collect::<Vec<_>>(), vec![0, 1]);
}

#[test]
fn catalog_lists_every_group() {
    let chat_agents = vec![AgentInfo {
        id: "main".into(),
        name: Some("Sebastian".into()),
        identity: None,
        workspace: None,
        model: None,
    }];
    let mut cron_details: StrMap<CronState> = StrMap::new();
    cron_details.insert("openclaw-sync".into(), CronState::default());
    let mut cron_ids: StrMap<String> = StrMap::new();
    cron_ids.insert("openclaw-sync".into(), "uuid-1".into());
    let sessions: StrMap<SessionInfo> = StrMap::new();
    let mut agent_kind: StrMap<AgentKind> = StrMap::new();
    agent_kind.insert("main".into(), AgentKind::Main);
    let entries = build_entries(PaletteContext {
        chat_agents: &chat_agents,
        cron_details: &cron_details,
        cron_ids: &cron_ids,
        sessions: &sessions,
        agent_kind: &agent_kind,
    });
    let count = |g: PaletteGroup| entries.iter().filter(|e| e.group == g).count();
    assert_eq!(count(PaletteGroup::Navigation), 6);
    assert_eq!(count(PaletteGroup::Chat), 1);
    assert_eq!(count(PaletteGroup::Crons), 1);
    assert_eq!(count(PaletteGroup::Sessions), 0);
    assert_eq!(count(PaletteGroup::Actions), 1);
    assert!(entries
        .iter()
        .any(|e| e.action == PaletteAction::ChatWithAgent(AgentId::new("main"))));
}

#[test]
fn case_never_changes_a_score() {
    for (q, t) in [("goto", "Go to Overview"), ("ÉcH", "éch Écho"), ("z", "AbC"), ("chat", "Chat")] {
        let score = fuzzy_score(q, t);
        assert_eq!(fuzzy_score(&q.to_ascii_uppercase(), t), score);
        assert_eq!(fuzzy_score(q, &t.to_ascii_uppercase()), score);
        assert_eq!(fuzzy_score(&q.to_ascii_lowercase(), &t.to_ascii_lowercase()), score);
    }
}
