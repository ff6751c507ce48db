//! The multi-agent chat tab: its log entries and what it shows around them.
use vstd::prelude::*;

use crate::app::state::{ChatActivity, ChatActivityState, ChatActivityStateView, ChatActivityView};
use crate::domain::agent::AgentId;
use crate::keyed::{lookup, StrMap};
use crate::net::rpc::{AgentInfo, AgentInfoView};
use crate::ring::Ring;
use crate::seqs::{no_items, push_to};
use crate::text::{
    cat, cat3, chars_of, decimal, join, joined, same, split_words, text_of, usize_text, words,
};
use crate::transcript::{log_to_markdown, markdown};
use crate::ui::chat_bubble::{self, bubble_row, BubbleRow, BubbleRowView};
use crate::ui::chat_input::{self, input_state, ChatInput, ChatInputView};
use crate::ui::sidebar::{badge_text, unread_badge};

verus! {

/// Whose side of the conversation a log entry is on.
#[derive(Debug, Clone, Copy, PartialEq, Eq, Structural)]
pub enum ChatRole {
    User,
    Assistant,
    /// System / tool output, kept apart from the back-and-forth.
    Other,
}

impl DeepView for ChatRole {
    type V = ChatRole;

    open spec fn deep_view(&self) -> ChatRole {
        *self
    }
}

/// One chat-log entry: the role that drives its styling, and its body as one
/// string.
#[derive(Debug, PartialEq)]
pub struct ChatMessage {
    pub role: ChatRole,
    pub text: String,
    /// When it was said: whole seconds since the Unix epoch, negative before.
    pub at: i64,
}

/// What [`ChatMessage`] holds, as mathematical values.
#[verifier::ext_equal]
pub struct ChatMessageView {
    pub role: ChatRole,
    pub text: Seq<char>,
    pub at: i64,
}

impl DeepView for ChatMessage {
    type V = ChatMessageView;

    open spec fn deep_view(&self) -> ChatMessageView {
        ChatMessageView {
            role: self.role.deep_view(),
            text: self.text.deep_view(),
            at: self.at.deep_view(),
        }
    }
}

impl Clone for ChatMessage {
    fn clone(&self) -> (r: ChatMessage)
        ensures
            r.deep_view() == self.deep_view(),
    {
        ChatMessage {
            role: self.role,
            text: self.text.clone(),
            at: self.at,
        }
    }
}

impl ChatMessage {
    pub fn user(text: &str, at: i64) -> (r: ChatMessage)
        ensures
            r.deep_view() == (ChatMessageView { role: ChatRole::User, text: text@, at }),
    {
        ChatMessage { role: ChatRole::User, text: text.to_owned(), at }
    }

    pub fn assistant(text: &str, at: i64) -> (r: ChatMessage)
        ensures
            r.deep_view() == (ChatMessageView { role: ChatRole::Assistant, text: text@, at }),
    {
        ChatMessage { role: ChatRole::Assistant, text: text.to_owned(), at }
    }
}

// ---------------------------------------------------------------------
// The picker
// ---------------------------------------------------------------------

/// One agent to pick.
#[derive(Debug)]
pub struct PickerRow {
    pub id: String,
    pub label: String,
    pub active: bool,
    pub badge: Option<String>,
}

/// What [`PickerRow`] holds, as mathematical values.
#[verifier::ext_equal]
pub struct PickerRowView {
    pub id: Seq<char>,
    pub label: Seq<char>,
    pub active: bool,
    pub badge: Option<Seq<char>>,
}

impl DeepView for PickerRow {
    type V = PickerRowView;

    open spec fn deep_view(&self) -> PickerRowView {
        PickerRowView {
            id: self.id.deep_view(),
            label: self.label.deep_view(),
            active: self.active.deep_view(),
            badge: self.badge.deep_view(),
        }
    }
}

/// The row of an agent.
pub open spec fn picker_row(
    info: AgentInfoView,
    selected: Seq<char>,
    unread: Seq<(Seq<char>, usize)>,
) -> PickerRowView {
    let count: nat = match lookup(unread, info.id) {
        Some(n) => n as nat,
        None => 0,
    };
    PickerRowView {
        id: info.id,
        label: info.shown_with_emoji(),
        active: info.id == selected,
        badge: if count > 0 {
            Some(badge_text(count))
        } else {
            None
        },
    }
}

/// The rows of the picker, one per agent. Without an agent yet, the column
/// says that they are being discovered.
pub fn picker_column(
    agents: &Vec<AgentInfo>,
    selected: &AgentId,
    unread: &StrMap<usize>,
) -> (r: Vec<PickerRow>)
    ensures
        r.deep_view() == agents.deep_view().map_values(
            |a: AgentInfoView| picker_row(a, selected.deep_view(), unread.deep_view()),
        ),
{
    let ghost all = agents.deep_view();
    let ghost f = |a: AgentInfoView| picker_row(a, selected.deep_view(), unread.deep_view());
    let mut r: Vec<PickerRow> = no_items();
    let mut i: usize = 0;
    while i < agents.len()
        invariant
            all == agents.deep_view(),
            f == (|a: AgentInfoView| picker_row(a, selected.deep_view(), unread.deep_view())),
            i <= agents@.len(),
            r.deep_view() == all.take(i as int).map_values(f),
        decreases agents@.len() - i,
    {
        let info = &agents[i];
        assert(all[i as int] == info.deep_view());
        let count: usize = match unread.get(info.id.as_str()) {
            Some(n) => *n,
            None => 0,
        };
        let badge = if count > 0 {
            Some(unread_badge(count))
        } else {
            None
        };
        push_to(
            &mut r,
            PickerRow {
                id: info.id.clone(),
                label: info.display_with_emoji(),
                active: same(info.id.as_str(), selected.as_str()),
                badge,
            },
        );
        i = i + 1;
        assert(r.deep_view() =~= all.take(i as int).map_values(f));
    }
    assert(all.take(i as int) =~= all);
    r
}

// ---------------------------------------------------------------------
// The conversation
// ---------------------------------------------------------------------

/// What stands behind the last slash.
pub open spec fn last_segment(path: Seq<char>) -> Seq<char>
    decreases path.len(),
{
    if path.len() == 0 || path.last() == '/' {
        Seq::empty()
    } else {
        last_segment(path.drop_last()).push(path.last())
    }
}

/// What stands behind the last slash.
pub fn base_name(path: &str) -> (r: String)
    ensures
        r@ == last_segment(path@),
{
    let chars = chars_of(path);
    let n = chars.len();
    let mut i: usize = n;
    let ghost mut tail: Seq<char> = Seq::empty();
    assert(path@.take(n as int) =~= path@);
    assert(last_segment(path@) =~= last_segment(path@.take(i as int)) + tail);
    assert(path@.skip(n as int) =~= tail);
    while i > 0 && chars[i - 1] != '/'
        invariant
            chars@ == path@,
            n == chars@.len(),
            i <= n,
            tail == path@.skip(i as int),
            last_segment(path@) == last_segment(path@.take(i as int)) + tail,
        decreases i,
    {
        proof {
            let t = path@.take(i as int);
            assert(t.drop_last() =~= path@.take(i - 1));
            assert(t.last() == path@[i - 1]);
            let longer = path@.skip(i - 1);
            assert(longer =~= seq![path@[i - 1]] + tail);
            assert(last_segment(t) + tail =~= last_segment(path@.take(i - 1)) + longer);
            tail = longer;
        }
        i = i - 1;
    }
    proof {
        if i > 0 {
            assert(path@.take(i as int).last() == '/');
        }
        assert(last_segment(path@.take(i as int)) =~= Seq::empty());
        assert(path@.subrange(i as int, n as int) =~= tail);
        assert(last_segment(path@) =~= tail);
    }
    text_of(&chars, i, n)
}

/// The parts of the subtitle of an agent: its model, and the name of its
/// workspace.
pub open spec fn about_parts(info: AgentInfoView) -> Seq<Seq<char>> {
    (match info.model {
        Some(m) => match m.primary {
            Some(p) => seq![p],
            None => Seq::empty(),
        },
        None => Seq::empty(),
    }) + (match info.workspace {
        Some(w) => seq![last_segment(w)],
        None => Seq::empty(),
    })
}

/// The first agent with the id `id`.
pub open spec fn find_agent(agents: Seq<AgentInfoView>, id: Seq<char>) -> Option<AgentInfoView>
    decreases agents.len(),
{
    if agents.len() == 0 {
        None
    } else if agents[0].id == id {
        Some(agents[0])
    } else {
        find_agent(agents.drop_first(), id)
    }
}

/// The heading of the conversation: the display name and the subtitle, which
/// falls back to the number of messages.
pub open spec fn heading(agents: Seq<AgentInfoView>, selected: Seq<char>, messages: nat) -> (
    Seq<char>,
    Seq<char>,
) {
    let found = find_agent(agents, selected);
    let about = match found {
        Some(info) => joined(about_parts(info), " · "@),
        None => Seq::empty(),
    };
    (
        match found {
            Some(info) => info.shown_with_emoji(),
            None => selected,
        },
        if about.len() == 0 {
            decimal(messages) + " messages"@
        } else {
            about
        },
    )
}

fn find_agent_in<'a>(agents: &'a Vec<AgentInfo>, id: &str) -> (r: Option<&'a AgentInfo>)
    ensures
        match r {
            Some(a) => find_agent(agents.deep_view(), id@) == Some(a.deep_view()),
            None => find_agent(agents.deep_view(), id@) is None,
        },
{
    let ghost all = agents.deep_view();
    let mut i: usize = 0;
    assert(all.skip(0) =~= all);
    while i < agents.len()
        invariant
            all == agents.deep_view(),
            i <= agents@.len(),
            find_agent(all, id@) == find_agent(all.skip(i as int), id@),
        decreases agents@.len() - i,
    {
        assert(all.skip(i as int)[0] == agents@[i as int].deep_view());
        assert(all.skip(i as int).drop_first() =~= all.skip(i + 1));
        if same(agents[i].id.as_str(), id) {
            return Some(&agents[i]);
        }
        i = i + 1;
    }
    None
}

/// The heading of the conversation with `selected`.
pub fn pane_heading(agents: &Vec<AgentInfo>, selected: &AgentId, messages: usize) -> (r: (
    String,
    String,
))
    ensures
        (r.0@, r.1@) == heading(agents.deep_view(), selected.deep_view(), messages as nat),
{
    let (display, about) = match find_agent_in(agents, selected.as_str()) {
        Some(info) => {
            let mut parts: Vec<String> = no_items();
            if let Some(model) = info.primary_model() {
                push_to(&mut parts, model.to_owned());
            }
            if let Some(w) = &info.workspace {
                push_to(&mut parts, base_name(w.as_str()));
            }
            assert(parts.deep_view() =~= about_parts(info.deep_view()));
            (info.display_with_emoji(), join(&parts, " · "))
        },
        None => (selected.as_str().to_owned(), String::new()),
    };
    if about.as_str().is_empty() {
        (display, cat(usize_text(messages).as_str(), " messages"))
    } else {
        (display, about)
    }
}

/// The name by which the activity row speaks of an agent: the first word of
/// its display name.
pub open spec fn speaker(display: Seq<char>) -> Seq<char> {
    if words(display).len() > 0 {
        words(display)[0]
    } else {
        display
    }
}

/// What an agent is doing, in words.
pub open spec fn activity_text(display: Seq<char>, activity: ChatActivityView) -> Seq<char> {
    match activity {
        ChatActivityView::Sending => speaker(display) + " is receiving your message…"@,
        ChatActivityView::Thinking => speaker(display) + " is thinking…"@,
        ChatActivityView::Tool(name) => speaker(display) + " is using "@ + name + "…"@,
    }
}

/// What an agent is doing, in words.
pub fn activity_indicator(agent_display: &str, state: &ChatActivityState) -> (r: String)
    ensures
        r@ == activity_text(agent_display@, state.deep_view().kind),
{
    let ws = split_words(agent_display);
    let who = if ws.len() > 0 {
        assert(ws.deep_view()[0] == ws@[0]@);
        ws[0].clone()
    } else {
        agent_display.to_owned()
    };
    match &state.kind {
        ChatActivity::Sending => cat(who.as_str(), " is receiving your message…"),
        ChatActivity::Thinking => cat(who.as_str(), " is thinking…"),
        ChatActivity::Tool(name) => {
            let using = cat3(who.as_str(), " is using ", name.as_str());
            cat(using.as_str(), "…")
        },
    }
}

/// The conversation with one agent.
#[derive(Debug)]
pub struct ChatPane {
    pub title: String,
    pub subtitle: String,
    /// The transcript as markdown, where there is one.
    pub copy: Option<String>,
    /// Empty where nothing has been said yet.
    pub messages: Vec<BubbleRow>,
    pub activity: Option<String>,
    pub input: ChatInput,
}

/// What [`ChatPane`] holds, as mathematical values.
#[verifier::ext_equal]
pub struct ChatPaneView {
    pub title: Seq<char>,
    pub subtitle: Seq<char>,
    pub copy: Option<Seq<char>>,
    pub messages: Seq<BubbleRowView>,
    pub activity: Option<Seq<char>>,
    pub input: ChatInputView,
}

impl DeepView for ChatPane {
    type V = ChatPaneView;

    open spec fn deep_view(&self) -> ChatPaneView {
        ChatPaneView {
            title: self.title.deep_view(),
            subtitle: self.subtitle.deep_view(),
            copy: self.copy.deep_view(),
            messages: self.messages.deep_view(),
            activity: self.activity.deep_view(),
            input: self.input.deep_view(),
        }
    }
}

/// What the tab shows.
#[derive(Debug)]
pub struct ChatPage {
    pub picker: Vec<PickerRow>,
    pub pane: ChatPane,
}

/// The conversation with the selected agent.
pub open spec fn chat_pane(
    agents: Seq<AgentInfoView>,
    selected: Seq<char>,
    log: Option<Seq<ChatMessageView>>,
    activity: Option<ChatActivityStateView>,
    input: Seq<char>,
    connected: bool,
) -> ChatPaneView {
    let said = match log {
        Some(l) => l,
        None => Seq::empty(),
    };
    let title = heading(agents, selected, said.len()).0;
    ChatPaneView {
        title,
        subtitle: heading(agents, selected, said.len()).1,
        copy: if said.len() > 0 {
            Some(markdown(title, said))
        } else {
            None
        },
        messages: said.map_values(|m: ChatMessageView| bubble_row(m)),
        activity: match activity {
            Some(state) => Some(activity_text(title, state.kind)),
            None => None,
        },
        input: input_state(input, connected, title),
    }
}

/// The rows of a log.
pub fn bubble_rows(log: &Ring<ChatMessage>) -> (r: Vec<BubbleRow>)
    ensures
        r.deep_view() == log.deep_view().map_values(|m: ChatMessageView| bubble_row(m)),
{
    let ghost all = log.deep_view();
    let n = log.len();
    let mut r: Vec<BubbleRow> = no_items();
    let mut i: usize = 0;
    while i < n
        invariant
            all == log.deep_view(),
            n == all.len(),
            i <= n,
            r.deep_view() == all.take(i as int).map_values(|m: ChatMessageView| bubble_row(m)),
        decreases n - i,
    {
        push_to(&mut r, chat_bubble::view(log.at(i)));
        i = i + 1;
        assert(r.deep_view() =~= all.take(i as int).map_values(|m: ChatMessageView| bubble_row(m)));
    }
    assert(all.take(i as int) =~= all);
    r
}

fn right_pane(
    agents: &Vec<AgentInfo>,
    selected: &AgentId,
    log: Option<&Ring<ChatMessage>>,
    activity: Option<&ChatActivityState>,
    input: &str,
    connected: bool,
) -> (r: ChatPane)
    ensures
        r.deep_view() == chat_pane(
            agents.deep_view(),
            selected.deep_view(),
            log.deep_view(),
            activity.deep_view(),
            input@,
            connected,
        ),
{
    let count: usize = match log {
        Some(l) => l.len(),
        None => 0,
    };
    let (title, subtitle) = pane_heading(agents, selected, count);
    let (copy, messages) = match log {
        Some(l) => {
            let copy = if l.is_empty() {
                None
            } else {
                Some(log_to_markdown(title.as_str(), l))
            };
            (copy, bubble_rows(l))
        },
        None => (None, no_items()),
    };
    proof {
        if log is None {
            assert(Seq::<ChatMessageView>::empty().map_values(|m: ChatMessageView| bubble_row(m))
                =~= Seq::empty());
        }
    }
    let activity = match activity {
        Some(state) => Some(activity_indicator(title.as_str(), state)),
        None => None,
    };
    let input = chat_input::view(input, connected, title.as_str());
    ChatPane { title, subtitle, copy, messages, activity, input }
}

/// What the tab shows.
pub fn view(
    agents: &Vec<AgentInfo>,
    selected: &AgentId,
    log: Option<&Ring<ChatMessage>>,
    activity: Option<&ChatActivityState>,
    input: &str,
    connected: bool,
    unread: &StrMap<usize>,
) -> (r: ChatPage)
    ensures
        r.picker.deep_view() == agents.deep_view().map_values(
            |a: AgentInfoView| picker_row(a, selected.deep_view(), unread.deep_view()),
        ),
        r.pane.deep_view() == chat_pane(
            agents.deep_view(),
            selected.deep_view(),
            log.deep_view(),
            activity.deep_view(),
            input@,
            connected,
        ),
{
    ChatPage {
        picker: picker_column(agents, selected, unread),
        pane: right_pane(agents, selected, log, activity, input, connected),
    }
}

} // verus!
