//! Chat and session transcripts as markdown, for the clipboard.
use vstd::prelude::*;

use crate::calendar::{format_unix_ts, is_moment, iso_text, moment};
use crate::ring::Ring;
use crate::text::{join, joined, trim, trim_end, trimmed, trimmed_end};
use crate::ui::chat_view::{ChatMessage, ChatMessageView, ChatRole};

verus! {

/// The word for a role.
pub open spec fn role_word(role: ChatRole) -> Seq<char> {
    match role {
        ChatRole::User => "you"@,
        ChatRole::Assistant => "agent"@,
        ChatRole::Other => "system"@,
    }
}

pub fn role_label(role: ChatRole) -> (r: &'static str)
    ensures
        r@ == role_word(role),
{
    match role {
        ChatRole::User => "you",
        ChatRole::Assistant => "agent",
        ChatRole::Other => "system",
    }
}

/// The stamp of a time; none before the epoch.
pub open spec fn stamp(at: i64) -> Option<Seq<char>> {
    if at < 0 {
        None
    } else {
        Some(iso_text(moment(at as u64)))
    }
}

/// Renders a time, in whole seconds since the epoch, as
/// `YYYY-MM-DDThh:mm:ssZ`; `None` before the epoch.
pub fn format_timestamp(at: i64) -> (r: Option<String>)
    ensures
        r.deep_view() == stamp(at),
        at >= 0 ==> is_moment(moment(at as u64), at as u64),
{
    if at < 0 {
        None
    } else {
        Some(format_unix_ts(at as u64))
    }
}

/// One turn: a header with the role and the time, and the text as it is, but
/// for white space at its end.
pub open spec fn turn(m: ChatMessageView) -> Seq<char> {
    let head = "## "@ + role_word(m.role);
    let dated = match stamp(m.at) {
        Some(ts) => head + " — "@ + ts,
        None => head,
    };
    dated + "\n\n"@ + trimmed_end(m.text)
}

pub open spec fn turns(messages: Seq<ChatMessageView>) -> Seq<Seq<char>> {
    Seq::new(messages.len(), |i: int| turn(messages[i]))
}

/// The title line, unless the title is blank.
pub open spec fn title_line(title: Seq<char>) -> Seq<char> {
    let t = trimmed(title);
    if t.len() == 0 {
        Seq::empty()
    } else {
        "# "@ + t + "\n\n"@
    }
}

/// A transcript as markdown: the title, and the turns with a blank line
/// between each two; a note where there are none.
pub open spec fn markdown(title: Seq<char>, messages: Seq<ChatMessageView>) -> Seq<char> {
    if messages.len() == 0 {
        title_line(title) + "_(empty transcript)_\n"@
    } else {
        title_line(title) + joined(turns(messages), "\n\n"@) + "\n"@
    }
}

fn print_turn(m: &ChatMessage) -> (r: String)
    ensures
        r@ == turn(m.deep_view()),
{
    let mut out = "## ".to_owned();
    out.append(role_label(m.role));
    if let Some(ts) = format_timestamp(m.at) {
        out.append(" — ");
        out.append(ts.as_str());
    }
    out.append("\n\n");
    out.append(trim_end(m.text.as_str()).as_str());
    out
}

fn print_title(title: &str) -> (r: String)
    ensures
        r@ == title_line(title@),
{
    let t = trim(title);
    if t.as_str().is_empty() {
        return String::new();
    }
    let mut out = "# ".to_owned();
    out.append(t.as_str());
    out.append("\n\n");
    out
}

/// Renders a transcript as markdown.
pub fn to_markdown(title: &str, messages: &Vec<ChatMessage>) -> (r: String)
    ensures
        r@ == markdown(title@, messages.deep_view()),
{
    let mut out = print_title(title);
    if messages.len() == 0 {
        out.append("_(empty transcript)_\n");
        return out;
    }
    let ghost all = turns(messages.deep_view());
    let mut parts: Vec<String> = Vec::new();
    let mut i: usize = 0;
    while i < messages.len()
        invariant
            i <= messages@.len(),
            parts@.len() == i,
            all == turns(messages.deep_view()),
            forall|k: int| 0 <= k < i ==> (#[trigger] parts@[k])@ == all[k],
        decreases messages@.len() - i,
    {
        parts.push(print_turn(&messages[i]));
        i = i + 1;
    }
    assert(parts.deep_view() =~= all);
    out.append(join(&parts, "\n\n").as_str());
    out.append("\n");
    out
}

/// Renders a log as markdown.
pub fn log_to_markdown(title: &str, log: &Ring<ChatMessage>) -> (r: String)
    ensures
        r@ == markdown(title@, log.deep_view()),
{
    let mut messages: Vec<ChatMessage> = Vec::new();
    let mut i: usize = 0;
    let n = log.len();
    while i < n
        invariant
            i <= n,
            n == log.deep_view().len(),
            messages@.len() == i,
            forall|k: int|
                0 <= k < i ==> (#[trigger] messages@[k]).deep_view() == log.deep_view()[k],
        decreases n - i,
    {
        messages.push(log.at(i).clone());
        i = i + 1;
    }
    assert(messages.deep_view() =~= log.deep_view());
    to_markdown(title, &messages)
}

} // verus!
