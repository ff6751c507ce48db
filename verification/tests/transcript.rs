//! Transcripts as markdown, and dates.
use periclaw::calendar::{format_unix_ts, unix_to_ymdhms};
use periclaw::ring::Ring;
use periclaw::transcript::{format_timestamp, log_to_markdown, to_markdown};
use periclaw::ui::chat_view::{ChatMessage, ChatRole};

fn mk(role: ChatRole, text: &str, epoch_secs: i64) -> ChatMessage {
    ChatMessage {
        role,
        text: text.to_string(),
        at: epoch_secs,
    }
}

#[test]
fn empty_transcript_renders_placeholder() {
    let out = to_markdown("Sebastian 🦀", &vec![]);
    assert!(out.contains("# Sebastian 🦀"));
    assert!(out.contains("_(empty transcript)_"));
}

#[test]
fn blank_title_omits_header() {
    let out = to_markdown("   ", &vec![mk(ChatRole::User, "hi", 0)]);
    assert!(!out.starts_with("# "), "unexpected H1 header: {out:?}");
    assert!(out.starts_with("## you"));
}

#[test]
fn role_labels_map_cleanly() {
    let msgs = vec![
        mk(ChatRole::User, "hi", 1_700_000_000),
        mk(ChatRole::Assistant, "hello", 1_700_000_005),
        mk(ChatRole::Other, "system note", 1_700_000_010),
    ];
    let out = to_markdown("Session", &msgs);
    assert!(out.contains("## you"));
    assert!(out.contains("## agent"));
    assert!(out.contains("## system"));
}

#[test]
fn messages_separated_by_blank_lines() {
    let msgs = vec![
        mk(ChatRole::User, "one", 1_700_000_000),
        mk(ChatRole::Assistant, "two", 1_700_000_005),
    ];
    let out = to_markdown("", &msgs);
    assert_eq!(out.matches("\n\n## ").count(), 1);
}

#[test]
fn body_trailing_whitespace_trimmed_but_leading_preserved() {
    let msgs = vec![mk(
        ChatRole::Assistant,
        "    indented code line\n\n\n",
        1_700_000_000,
    )];
    let out = to_markdown("", &msgs);
    assert!(
        out.contains("    indented code line"),
        "leading indent should survive: {out:?}",
    );
    assert!(!out.ends_with("\n\n\n"), "trailing blanks should collapse");
}

#[test]
fn timestamp_formats_to_iso_utc() {
    assert_eq!(format_unix_ts(1_704_164_645), "2024-01-02T03:04:05Z");
}

#[test]
fn timestamp_handles_leap_year() {
    assert_eq!(format_unix_ts(1_709_208_000), "2024-02-29T12:00:00Z");
}

#[test]
fn timestamp_handles_epoch() {
    assert_eq!(format_unix_ts(0), "1970-01-01T00:00:00Z");
}

#[test]
fn timestamp_handles_century_boundary() {
    assert_eq!(format_unix_ts(951_868_800), "2000-03-01T00:00:00Z");
}

#[test]
fn timestamp_of_the_last_second_of_a_year() {
    let d = unix_to_ymdhms(1_735_689_599);
    assert_eq!((d.year, d.month, d.day), (2024, 12, 31));
    assert_eq!((d.hour, d.minute, d.second), (23, 59, 59));
    assert_eq!(format_unix_ts(4_107_542_400), "2100-03-01T00:00:00Z");
}

#[test]
fn times_before_the_epoch_have_no_stamp() {
    assert_eq!(format_timestamp(-1), None);
    let out = to_markdown("", &vec![mk(ChatRole::User, "hi", -1)]);
    assert_eq!(out, "## you\n\nhi\n");
}

#[test]
fn markdown_output_shape() {
    let msgs = vec![
        mk(ChatRole::User, "run ls", 1_704_164_645),
        mk(
            ChatRole::Assistant,
            "Files:\n\n- a.txt\n- b.txt",
            1_704_164_650,
        ),
    ];
    let out = to_markdown("Sebastian 🦀", &msgs);
    let expected = "\
# Sebastian 🦀

## you — 2024-01-02T03:04:05Z

run ls

## agent — 2024-01-02T03:04:10Z

Files:

- a.txt
- b.txt
";
    assert_eq!(out, expected);
}

#[test]
fn a_log_reads_like_its_messages() {
    let mut log = Ring::new();
    log.push(mk(ChatRole::User, "one", 0), 10);
    log.push(mk(ChatRole::Other, "two", 1), 10);
    let msgs = vec![mk(ChatRole::User, "one", 0), mk(ChatRole::Other, "two", 1)];
    assert_eq!(log_to_markdown("t", &log), to_markdown("t", &msgs));
}
