//! Bubble text.
use periclaw::bubble_text::clean_bubble_text;

#[test]
fn strips_code_fences_and_joins_lines() {
    let input = "```\nLinux host 6.8.0-110-generic\nx86_64 GNU/Linux\n```";
    assert_eq!(
        clean_bubble_text(input, 80),
        "Linux host 6.8.0-110-generic x86_64 GNU/Linux"
    );
}

#[test]
fn drops_markdown_emphasis_and_collapses_whitespace() {
    let input = "Done with **step 1** and    *step 2*.";
    assert_eq!(clean_bubble_text(input, 80), "Done with step 1 and step 2.");
}

#[test]
fn truncates_with_ellipsis() {
    let input = "a".repeat(200);
    let out = clean_bubble_text(&input, 10);
    assert_eq!(out.chars().count(), 10);
    assert!(out.ends_with('…'));
}

#[test]
fn empty_after_cleanup_returns_empty() {
    assert_eq!(clean_bubble_text("```\n```", 80), "");
    assert_eq!(clean_bubble_text("   ", 80), "");
}

#[test]
fn underscores_stay_and_backticks_go() {
    assert_eq!(clean_bubble_text("use `session_key`", 80), "use session_key");
}

#[test]
fn a_cut_of_nothing_leaves_the_ellipsis() {
    assert_eq!(clean_bubble_text("hello", 0), "…");
    assert_eq!(clean_bubble_text("hello", 5), "hello");
    assert_eq!(clean_bubble_text("hello", 4), "hel…");
}

#[test]
fn cleaning_twice_is_cleaning_once() {
    for raw in [
        "```\ncode  here\n```\n**bold**  text",
        "  one\r\n\r\n two `x` *",
        "a b c d e f",
        "* *",
        "",
    ] {
        for max in [0, 1, 2, 3, 4, 80] {
            let once = clean_bubble_text(raw, max);
            assert_eq!(clean_bubble_text(&once, max), once, "{raw:?} {max}");
        }
    }
}
