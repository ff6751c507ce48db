//! Log lines, their severity, and the filters.
use periclaw::logs::{
    find_token, parse_severity, push_line, push_lines, LogFilters, LogLine, LogSeverity,
    LOG_BUFFER_MAX,
};
use periclaw::ring::Ring;
use periclaw::text::head_bytes;

#[test]
fn parses_tracing_style_levels() {
    assert_eq!(
        parse_severity("2026-04-19T12:00:00Z  INFO my::mod: hello"),
        LogSeverity::Info,
    );
    assert_eq!(
        parse_severity("2026-04-19T12:00:00Z  WARN my::mod: uh"),
        LogSeverity::Warn,
    );
    assert_eq!(
        parse_severity("2026-04-19T12:00:00Z ERROR my::mod: boom"),
        LogSeverity::Error,
    );
    assert_eq!(
        parse_severity("2026-04-19T12:00:00Z DEBUG my::mod: trace"),
        LogSeverity::Debug,
    );
}

#[test]
fn trace_counts_as_debug() {
    assert_eq!(parse_severity("12:00 TRACE x"), LogSeverity::Debug);
}

#[test]
fn substrings_do_not_match_tokens() {
    assert_eq!(parse_severity("xx information about"), LogSeverity::Info);
    assert_eq!(
        parse_severity("12:00 WARNING: user wrote this"),
        LogSeverity::Info,
    );
}

#[test]
fn earliest_token_wins_even_when_body_mentions_error() {
    let line = "2026-04-19T12:00:00Z  INFO periclaw::net: got ERROR from peer";
    assert_eq!(parse_severity(line), LogSeverity::Info);
}

#[test]
fn handles_multibyte_chars_at_head_boundary() {
    let prefix = "x".repeat(78);
    let line = format!("{prefix}🚀 WARN tail");
    assert_eq!(parse_severity(&line), LogSeverity::Info);
}

#[test]
fn head_bytes_snaps_to_char_boundary() {
    assert_eq!(head_bytes("eéx", 3), "eé");
    assert_eq!(head_bytes("eéx", 2), "e");
    assert_eq!(head_bytes("abcdef", 3), "abc");
}

#[test]
fn long_prefix_beyond_head_window_is_ignored() {
    let line = format!("{}  INFO periclaw::net: real content", "x".repeat(80),);
    assert_eq!(parse_severity(&line), LogSeverity::Info);
}

#[test]
fn tokens_past_the_window_do_not_count() {
    let line = format!("{} ERROR late", "x".repeat(80));
    assert_eq!(parse_severity(&line), LogSeverity::Info);
    let line = format!("{} ERROR early", "x".repeat(70));
    assert_eq!(parse_severity(&line), LogSeverity::Error);
}

#[test]
fn tokens_stand_alone() {
    assert_eq!(find_token("xERROR ERROR", "ERROR"), Some(7));
    assert_eq!(find_token("ERRORS", "ERROR"), None);
    assert_eq!(find_token("[ERROR]", "ERROR"), Some(1));
    // Places are counted in bytes.
    assert_eq!(find_token("é🚀 xWARN WARN", "WARN"), Some(13));
    assert_eq!(find_token("éé", "é"), Some(0));
    assert_eq!(find_token("ab  c", ""), Some(3));
    assert_eq!(find_token("", ""), Some(0));
    assert_eq!(find_token("", "INFO"), None);
}

#[test]
fn filters_default_show_everything() {
    let f = LogFilters::default();
    for sev in LogSeverity::all() {
        assert!(f.shows(sev));
    }
}

#[test]
fn filter_search_is_case_insensitive() {
    let f = LogFilters {
        search: "SCOPE".to_string(),
        ..LogFilters::default()
    };
    let line = LogLine::classify("waiting for scope-upgrade".to_string());
    assert!(f.matches(&line));
    let other = LogLine::classify("waiting".to_string());
    assert!(!f.matches(&other));
}

#[test]
fn filter_search_folds_letters_beyond_ascii() {
    let f = LogFilters {
        search: "ÄRGER".to_string(),
        ..LogFilters::default()
    };
    assert!(f.matches(&LogLine::classify("kein ärger".to_string())));
}

#[test]
fn hidden_severity_beats_a_match() {
    let mut f = LogFilters::default();
    f.toggle(LogSeverity::Error);
    let line = LogLine::classify("12:00 ERROR boom".to_string());
    assert!(!f.matches(&line));
}

#[test]
fn severity_toggle_round_trips() {
    let mut f = LogFilters::default();
    f.toggle(LogSeverity::Warn);
    assert!(!f.show_warn);
    f.toggle(LogSeverity::Warn);
    assert!(f.show_warn);
}

#[test]
fn push_line_caps_at_max() {
    let mut buf = Ring::new();
    for i in 0..(LOG_BUFFER_MAX + 50) {
        push_line(&mut buf, LogLine::classify(format!("line {i}")));
    }
    assert_eq!(buf.len(), LOG_BUFFER_MAX);
    assert_eq!(buf.at(0).text, "line 50");
}

#[test]
fn pushing_many_classifies_each() {
    let mut buf = Ring::new();
    let lines = vec!["12:00 WARN a".to_string(), "b".to_string()];
    push_lines(&mut buf, &lines);
    assert_eq!(buf.len(), 2);
    assert_eq!(buf.at(0).severity, LogSeverity::Warn);
    assert_eq!(buf.at(1).severity, LogSeverity::Info);
}

#[test]
fn severities_have_labels() {
    let labels: Vec<&str> = LogSeverity::all().iter().map(|s| s.label()).collect();
    assert_eq!(labels, vec!["ERROR", "WARN", "INFO", "DEBUG"]);
}
