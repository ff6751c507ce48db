//! What each of the operator's messages does, said of every state.
use vstd::prelude::*;

use crate::app::model::{
    event_effects, log_of, on_action, on_chat_input, on_clear_token, on_event, on_execute, on_form,
    on_log_filters, on_log_tailing, on_moved, on_nav, on_palette_input, on_palette_move,
    on_reconnect, on_reset, on_resized, on_resolve_approval, on_run_cron, on_select_agent,
    on_select_session, on_send_chat, on_settings_save, on_toggle_error, on_token_saved,
    palette_catalog, palette_closed, palette_opened, palette_rows, snapshot, step, unread_of,
};
use crate::app::state::{
    AppView, ChatActivityView, Clock, ConnectionStatusView, EffectView, MessageView, NavItem,
    SettingsFormView,
};
use crate::domain::status::AgentStatus;
use crate::keyed::{
    distinct_keys, lookup, put_law, removed_law, with_member_law, without_member_law,
};
use crate::logs::LogSeverity;
use crate::net::commands::GatewayCommandView;
use crate::net::events::WsEventView;
use crate::palette::PaletteActionView;
use crate::scene::thought_bubble::{BubbleKind, ThoughtBubbleView};
use crate::text::trimmed;
use crate::ui::chat_view::{ChatMessageView, ChatRole};

verus! {

// ---------------------------------------------------------------------
// Tabs, agents and sessions
// ---------------------------------------------------------------------

/// A click on a tab opens it and changes nothing else but that the chat,
/// when it opens, has been read; a new tab is kept for the next launch.
pub proof fn click_opens_its_tab(
    s: AppView,
    item: NavItem,
    c: Clock,
    key: Seq<char>,
    other: Seq<char>,
)
    requires
        distinct_keys(s.unread),
        item == NavItem::Chat ==> other != s.selected_chat_agent,
    ensures
        ({
            let (t, effects) = step(s, MessageView::NavClicked(item), c, key);
            &&& t == AppView { nav: item, unread: t.unread, ..s }
            &&& lookup(t.unread, other) == lookup(s.unread, other)
            &&& item == NavItem::Chat ==> lookup(t.unread, s.selected_chat_agent) is None
            &&& item != NavItem::Chat ==> t.unread == s.unread
            &&& s.nav == item ==> effects.len() == 0
            &&& s.nav != item ==> effects == seq![EffectView::SaveState(snapshot(t))]
        }),
{
    reveal(on_nav);
    removed_law(s.unread, s.selected_chat_agent, other);
}

/// Picking another agent shows it, read and with an empty prompt, and asks for
/// its history unless that has been asked for.
pub proof fn picking_shows_the_agent(
    s: AppView,
    id: Seq<char>,
    c: Clock,
    key: Seq<char>,
    other: Seq<char>,
)
    requires
        distinct_keys(s.unread),
        s.selected_chat_agent != id,
        other != id,
    ensures
        ({
            let (t, effects) = step(s, MessageView::SelectChatAgent(id), c, key);
            let fetch = EffectView::Send(GatewayCommandView::FetchChatHistory { agent_id: id });
            &&& t == AppView {
                selected_chat_agent: id,
                chat_input: Seq::empty(),
                unread: t.unread,
                history_fetched: t.history_fetched,
                ..s
            }
            &&& lookup(t.unread, id) is None
            &&& lookup(t.unread, other) == lookup(s.unread, other)
            &&& t.history_fetched.contains(id)
            &&& t.history_fetched.contains(other) == s.history_fetched.contains(other)
            &&& s.history_fetched.contains(id) ==> effects == seq![
                EffectView::SaveState(snapshot(t)),
            ]
            &&& !s.history_fetched.contains(id) ==> effects == seq![
                fetch,
                EffectView::SaveState(snapshot(t)),
            ]
        }),
{
    reveal(on_select_agent);
    removed_law(s.unread, id, other);
    with_member_law(s.history_fetched, id, other);
}

/// Picking the agent that is shown already does nothing.
pub proof fn picking_again_is_nothing(s: AppView, c: Clock, key: Seq<char>)
    ensures
        step(s, MessageView::SelectChatAgent(s.selected_chat_agent), c, key) == (
            s,
            Seq::<EffectView>::empty(),
        ),
{
    reveal(on_select_agent);
}

/// Opening a session shows it, and asks for its transcript and usage the
/// first time.
pub proof fn opening_shows_the_session(
    s: AppView,
    session: Seq<char>,
    c: Clock,
    key: Seq<char>,
    other: Seq<char>,
)
    requires
        other != session,
    ensures
        ({
            let (t, effects) = step(s, MessageView::SessionSelected(session), c, key);
            let history = EffectView::Send(
                GatewayCommandView::FetchSessionHistory { session_key: session },
            );
            let usage = EffectView::Send(
                GatewayCommandView::FetchSessionUsage { session_key: session },
            );
            &&& t == AppView {
                active_session_key: Some(session),
                session_history_fetched: t.session_history_fetched,
                ..s
            }
            &&& t.session_history_fetched.contains(session)
            &&& t.session_history_fetched.contains(other) == s.session_history_fetched.contains(
                other,
            )
            &&& effects.contains(history) <==> !s.session_history_fetched.contains(session)
            &&& effects.contains(usage) <==> !s.session_history_fetched.contains(session)
            &&& effects.contains(EffectView::SaveState(snapshot(t))) <==> s.active_session_key
                != Some(session)
            &&& effects.contains(EffectView::RedrawUsage) <==> s.active_session_key != Some(session)
        }),
{
    reveal(on_select_session);
    with_member_law(s.session_history_fetched, session, other);
    let (t, effects) = on_select_session(s, session);
    let same = s.active_session_key == Some(session);
    let asked = s.session_history_fetched.contains(session);
    if !same {
        assert(effects[0] == EffectView::RedrawUsage);
        assert(effects[1] == EffectView::SaveState(snapshot(t)));
        if !asked {
            assert(effects[2] is Send);
            assert(effects[3] is Send);
        }
    } else if !asked {
        assert(effects[0] is Send);
        assert(effects[1] is Send);
    }
}

// ---------------------------------------------------------------------
// Chat
// ---------------------------------------------------------------------

/// What is typed is the prompt, as it is typed.
pub proof fn typing_is_kept(s: AppView, text: Seq<char>, c: Clock, key: Seq<char>)
    ensures
        step(s, MessageView::ChatInputChanged(text), c, key) == (
            AppView { chat_input: text, ..s },
            Seq::<EffectView>::empty(),
        ),
{
    reveal(on_chat_input);
}

/// Sending a prompt hands the trimmed prompt to the agent that is shown, with
/// the key, and once; the prompt ends its log as the user's, the agent is at
/// work on it, and the field is empty. No other agent's log, activity or
/// status changes.
pub proof fn sending_reaches_the_agent(s: AppView, c: Clock, key: Seq<char>, other: Seq<char>)
    requires
        trimmed(s.chat_input).len() > 0,
        other != s.selected_chat_agent,
    ensures
        ({
            let (t, effects) = step(s, MessageView::SendChat, c, key);
            let to = s.selected_chat_agent;
            let said = ChatMessageView {
                role: ChatRole::User,
                text: trimmed(s.chat_input),
                at: c.wall_secs,
            };
            let sent = EffectView::Send(
                GatewayCommandView::SendChat {
                    agent_id: to,
                    message: trimmed(s.chat_input),
                    idempotency_key: key,
                },
            );
            &&& effects == seq![EffectView::RedrawScene, sent]
            &&& t == AppView {
                chat_input: Seq::empty(),
                bubbles: t.bubbles,
                chat_logs: t.chat_logs,
                chat_activities: t.chat_activities,
                statuses: t.statuses,
                transition_moments: t.transition_moments,
                ..s
            }
            &&& log_of(t.chat_logs, to).last() == said
            &&& log_of(s.chat_logs, to).len() < 500 ==> log_of(t.chat_logs, to) == log_of(
                s.chat_logs,
                to,
            ).push(said)
            &&& lookup(t.chat_logs, other) == lookup(s.chat_logs, other)
            &&& lookup(t.chat_activities, to) matches Some(a) && a.kind == ChatActivityView::Sending
                && a.since == c.now_ms
            &&& lookup(t.chat_activities, other) == lookup(s.chat_activities, other)
            &&& lookup(t.statuses, to) == Some(AgentStatus::Running)
            &&& lookup(t.statuses, other) == lookup(s.statuses, other)
            &&& crate::bubble_text::bubble_snippet(said.text, 80).len() > 0 ==> t.bubbles.contains(
                ThoughtBubbleView {
                    agent: to,
                    text: crate::bubble_text::bubble_snippet(said.text, 80),
                    born: c.now_ms,
                    kind: BubbleKind::Outgoing,
                },
            )
        }),
{
    reveal(on_send_chat);
    let to = s.selected_chat_agent;
    if crate::bubble_text::bubble_snippet(trimmed(s.chat_input), 80).len() > 0 {
        let t = on_send_chat(s, key, c).0;
        assert(t.bubbles[s.bubbles.len() as int].kind == BubbleKind::Outgoing);
    }
    let said = ChatMessageView {
        role: ChatRole::User,
        text: trimmed(s.chat_input),
        at: c.wall_secs,
    };
    let log = crate::ring::capped_push(log_of(s.chat_logs, to), said, 500);
    put_law(s.chat_logs, to, log, other);
    put_law(
        s.chat_activities,
        to,
        crate::app::state::ChatActivityStateView {
            kind: ChatActivityView::Sending,
            since: c.now_ms,
        },
        other,
    );
    put_law(s.statuses, to, AgentStatus::Running, other);
}

/// A blank prompt is not sent.
pub proof fn blank_is_not_sent(s: AppView, c: Clock, key: Seq<char>)
    requires
        trimmed(s.chat_input).len() == 0,
    ensures
        step(s, MessageView::SendChat, c, key) == (s, Seq::<EffectView>::empty()),
{
    reveal(on_send_chat);
}

// ---------------------------------------------------------------------
// Jobs, approvals and the connection
// ---------------------------------------------------------------------

/// Running a job asks the gateway to run it under the id that its name is
/// known by, and asks nothing for a name without one.
pub proof fn running_names_the_job(
    s: AppView,
    name: Seq<char>,
    job: Seq<char>,
    c: Clock,
    key: Seq<char>,
)
    ensures
        ({
            let (t, effects) = step(s, MessageView::RunCron(name), c, key);
            &&& t == s
            &&& lookup(s.cron_ids, name) == Some(job) ==> effects == seq![
                EffectView::Send(GatewayCommandView::RunCron { job_id: job }),
            ]
            &&& lookup(s.cron_ids, name) is None ==> effects.len() == 0
        }),
{
    reveal(on_run_cron);
}

/// Deciding an approval sends that decision for that approval, and takes it,
/// and no other, off the list.
pub proof fn deciding_settles_one_approval(
    s: AppView,
    id: Seq<char>,
    decision: Seq<char>,
    c: Clock,
    key: Seq<char>,
    other: Seq<char>,
)
    requires
        distinct_keys(s.pending_approvals),
        other != id,
    ensures
        ({
            let (t, effects) = step(s, MessageView::ResolveApproval { id, decision }, c, key);
            &&& effects == seq![
                EffectView::Send(GatewayCommandView::ResolveApproval { id, decision }),
            ]
            &&& t == AppView { pending_approvals: t.pending_approvals, ..s }
            &&& lookup(t.pending_approvals, id) is None
            &&& lookup(t.pending_approvals, other) == lookup(s.pending_approvals, other)
        }),
{
    reveal(on_resolve_approval);
    removed_law(s.pending_approvals, id, other);
}

/// Asking to reconnect asks the gateway, and drops the pairing notice.
pub proof fn reconnecting_drops_the_notice(s: AppView, c: Clock, key: Seq<char>)
    ensures
        step(s, MessageView::RequestReconnect, c, key) == (
            AppView { pending_pair_request: None, ..s },
            seq![EffectView::Send(GatewayCommandView::Reconnect)],
        ),
{
    reveal(on_reconnect);
}

/// Copying copies the text that was asked for and changes nothing.
pub proof fn copying_changes_nothing(s: AppView, text: Seq<char>, c: Clock, key: Seq<char>)
    ensures
        step(s, MessageView::CopyToClipboard(text), c, key) == (s, seq![EffectView::Copy(text)]),
        step(s, MessageView::InputDiscard(text), c, key) == (s, Seq::<EffectView>::empty()),
{
}

/// A job's or agent's error opens with one click and closes with the next,
/// and no other one does.
pub proof fn error_opens_and_closes(
    s: AppView,
    id: Seq<char>,
    c: Clock,
    key: Seq<char>,
    other: Seq<char>,
)
    requires
        s.expanded_errors.no_duplicates(),
        other != id,
    ensures
        ({
            let (t, effects) = step(s, MessageView::ToggleAgentError(id), c, key);
            &&& effects.len() == 0
            &&& t == AppView { expanded_errors: t.expanded_errors, ..s }
            &&& t.expanded_errors.contains(id) == !s.expanded_errors.contains(id)
            &&& t.expanded_errors.contains(other) == s.expanded_errors.contains(other)
        }),
{
    reveal(on_toggle_error);
    without_member_law(s.expanded_errors, id, other);
    with_member_law(s.expanded_errors, id, other);
}

// ---------------------------------------------------------------------
// The log
// ---------------------------------------------------------------------

/// A click on a severity turns that one over and leaves the others and the
/// search alone.
pub proof fn severity_turns_over(
    s: AppView,
    severity: LogSeverity,
    other: LogSeverity,
    c: Clock,
    key: Seq<char>,
)
    requires
        other != severity,
    ensures
        ({
            let (t, effects) = step(s, MessageView::LogsToggleSeverity(severity), c, key);
            &&& effects.len() == 0
            &&& t == AppView { log_filters: t.log_filters, ..s }
            &&& t.log_filters.shown(severity) == !s.log_filters.shown(severity)
            &&& t.log_filters.shown(other) == s.log_filters.shown(other)
            &&& t.log_filters.search == s.log_filters.search
        }),
{
    reveal(on_log_filters);
}

/// The search is what was typed; the severities stay.
pub proof fn search_is_kept(
    s: AppView,
    text: Seq<char>,
    severity: LogSeverity,
    c: Clock,
    key: Seq<char>,
)
    ensures
        ({
            let (t, effects) = step(s, MessageView::LogsSearchChanged(text), c, key);
            &&& effects.len() == 0
            &&& t == AppView { log_filters: t.log_filters, ..s }
            &&& t.log_filters.search == text
            &&& t.log_filters.shown(severity) == s.log_filters.shown(severity)
        }),
{
    reveal(on_log_filters);
}

/// The log follows its end exactly while it is scrolled there; a jump goes
/// there.
pub proof fn log_follows_its_end(s: AppView, pinned: bool, c: Clock, key: Seq<char>)
    ensures
        step(s, MessageView::LogsScrolled(pinned), c, key) == (
            AppView { logs_auto_tail: pinned, ..s },
            Seq::<EffectView>::empty(),
        ),
        step(s, MessageView::LogsJumpToLatest, c, key) == (
            AppView { logs_auto_tail: true, ..s },
            seq![EffectView::SnapLogsToEnd],
        ),
{
    reveal(on_log_tailing);
}

// ---------------------------------------------------------------------
// The palette
// ---------------------------------------------------------------------

/// The key opens the palette on its first row, with the field focused, and
/// closes it, empty.
pub proof fn palette_opens_and_closes(s: AppView, c: Clock, key: Seq<char>)
    ensures
        !s.palette_open ==> step(s, MessageView::PaletteToggle, c, key) == (
            AppView { palette_open: true, palette_selected: 0, ..s },
            seq![EffectView::FocusPalette],
        ),
        s.palette_open ==> step(s, MessageView::PaletteToggle, c, key) == step(
            s,
            MessageView::PaletteClose,
            c,
            key,
        ),
        step(s, MessageView::PaletteClose, c, key) == (
            AppView { palette_open: false, palette_input: Seq::empty(), palette_selected: 0, ..s },
            Seq::<EffectView>::empty(),
        ),
{
    reveal(palette_opened);
    reveal(palette_closed);
}

/// What is typed into the palette is the query.
pub proof fn query_is_kept(s: AppView, text: Seq<char>, c: Clock, key: Seq<char>)
    ensures
        ({
            let (t, effects) = step(s, MessageView::PaletteInputChanged(text), c, key);
            &&& effects.len() == 0
            &&& t == AppView { palette_input: text, palette_selected: t.palette_selected, ..s }
            &&& s.palette_selected < palette_rows(t).len() ==> t.palette_selected
                == s.palette_selected
        }),
{
    reveal(on_palette_input);
    let t = on_palette_input(s, text);
    assert(palette_rows(t) == palette_rows(AppView { palette_input: text, ..s }));
}

/// Moving goes on by as many rows as asked, around the ends; a closed palette
/// does not move.
pub proof fn moving_goes_on(s: AppView, delta: i32, c: Clock, key: Seq<char>)
    requires
        palette_rows(s).len() <= usize::MAX,
    ensures
        ({
            let (t, effects) = step(s, MessageView::PaletteMove(delta), c, key);
            let n = palette_rows(s).len() as int;
            let to = s.palette_selected + delta;
            &&& effects.len() == 0
            &&& t == AppView { palette_selected: t.palette_selected, ..s }
            &&& !s.palette_open ==> t == s
            &&& s.palette_open && 0 <= to < n ==> t.palette_selected == to
            &&& s.palette_open && n > 0 && to == n ==> t.palette_selected == 0
            &&& s.palette_open && n > 0 && to == -1 ==> t.palette_selected == n - 1
        }),
{
    reveal(on_palette_move);
    let n = palette_rows(s).len() as int;
    let to = s.palette_selected + delta;
    if 0 <= to < n {
        vstd::arithmetic::div_mod::lemma_small_mod(to as nat, n as nat);
    }
    if n > 0 && to == n {
        vstd::arithmetic::div_mod::lemma_mod_self_0(n);
    }
    if n > 0 && to == -1 {
        vstd::arithmetic::div_mod::lemma_mod_add_multiples_vanish(-1, n);
        vstd::arithmetic::div_mod::lemma_small_mod((n - 1) as nat, n as nat);
    }
}

/// The action of a row of the palette.
pub open spec fn row_action(s: AppView, idx: int) -> PaletteActionView {
    palette_catalog(s)[palette_rows(s)[idx].0 as int].action
}

/// The selected row is carried out as a clicked one is.
pub proof fn enter_is_a_click(s: AppView, c: Clock, key: Seq<char>)
    ensures
        step(s, MessageView::PaletteExecute, c, key) == step(
            s,
            MessageView::PaletteSelectAndExecute(s.palette_selected),
            c,
            key,
        ),
{
}

/// A row that stands for a chat opens the chat with its agent: the tab, the
/// agent and its replies read, and its history asked for where the agent was
/// not shown and its history not asked for before.
pub proof fn chat_row_opens_the_chat(
    s: AppView,
    idx: usize,
    id: Seq<char>,
    c: Clock,
    key: Seq<char>,
    other: Seq<char>,
)
    requires
        distinct_keys(s.unread),
        idx < palette_rows(s).len(),
        row_action(s, idx as int) == PaletteActionView::ChatWithAgent(id),
        other != id,
        other != s.selected_chat_agent,
    ensures
        ({
            let (t, effects) = step(s, MessageView::PaletteSelectAndExecute(idx), c, key);
            let fetch = EffectView::Send(GatewayCommandView::FetchChatHistory { agent_id: id });
            &&& t.nav == NavItem::Chat
            &&& t.selected_chat_agent == id
            &&& unread_of(t, id) == 0
            &&& lookup(t.unread, id) is None
            &&& lookup(t.unread, other) == lookup(s.unread, other)
            &&& !t.palette_open
            &&& effects.contains(fetch) <==> s.selected_chat_agent != id
                && !s.history_fetched.contains(id)
            &&& s.selected_chat_agent != id ==> t.history_fetched.contains(id)
            &&& s.selected_chat_agent != id ==> effects.contains(
                EffectView::SaveState(snapshot(t)),
            )
            &&& s.nav != NavItem::Chat && s.selected_chat_agent == id ==> effects.contains(
                EffectView::SaveState(snapshot(t)),
            )
            &&& t.chat_logs == s.chat_logs
            &&& t.active_session_key == s.active_session_key
        }),
{
    reveal(on_execute);
    reveal(on_action);
    reveal(palette_closed);
    reveal(on_nav);
    reveal(on_select_agent);
    let closed = palette_closed(s);
    let first = on_nav(closed, NavItem::Chat);
    let second = on_select_agent(first.0, id);
    let effects = first.1 + second.1;
    removed_law(s.unread, s.selected_chat_agent, id);
    removed_law(s.unread, s.selected_chat_agent, other);
    removed_law(first.0.unread, id, other);
    with_member_law(s.history_fetched, id, other);
    let fetch = EffectView::Send(GatewayCommandView::FetchChatHistory { agent_id: id });
    let n = first.1.len() as int;
    assert forall|i: int| 0 <= i < n implies first.1[i] is SaveState by {}
    if s.selected_chat_agent != id {
        if s.history_fetched.contains(id) {
            assert(effects[n] == second.1[0]);
            assert forall|i: int| 0 <= i < effects.len() implies effects[i] != fetch by {}
        } else {
            assert(effects[n] == second.1[0]);
            assert(effects[n + 1] == second.1[1]);
        }
    } else {
        assert forall|i: int| 0 <= i < effects.len() implies effects[i] != fetch by {}
        if n > 0 {
            assert(effects[0] == first.1[0]);
        }
    }
}

/// A row that stands for a session opens it: the tab and the session, whose
/// transcript and usage are asked for the first time.
pub proof fn session_row_opens_the_session(
    s: AppView,
    idx: usize,
    session: Seq<char>,
    c: Clock,
    key: Seq<char>,
)
    requires
        idx < palette_rows(s).len(),
        row_action(s, idx as int) == PaletteActionView::OpenSession(session),
    ensures
        ({
            let (t, effects) = step(s, MessageView::PaletteSelectAndExecute(idx), c, key);
            let history = EffectView::Send(
                GatewayCommandView::FetchSessionHistory { session_key: session },
            );
            let usage = EffectView::Send(
                GatewayCommandView::FetchSessionUsage { session_key: session },
            );
            &&& t.nav == NavItem::Sessions
            &&& t.active_session_key == Some(session)
            &&& t.session_history_fetched.contains(session)
            &&& !t.palette_open
            &&& effects.contains(history) <==> !s.session_history_fetched.contains(session)
            &&& effects.contains(usage) <==> !s.session_history_fetched.contains(session)
            &&& s.active_session_key != Some(session) ==> effects.contains(
                EffectView::SaveState(snapshot(t)),
            ) && effects.contains(EffectView::RedrawUsage)
            &&& t.selected_chat_agent == s.selected_chat_agent
            &&& t.unread == s.unread
        }),
{
    reveal(on_execute);
    reveal(on_action);
    reveal(palette_closed);
    reveal(on_nav);
    reveal(on_select_session);
    let closed = palette_closed(s);
    let first = on_nav(closed, NavItem::Sessions);
    let second = on_select_session(first.0, session);
    let effects = first.1 + second.1;
    let n = first.1.len() as int;
    assert forall|i: int| 0 <= i < n implies first.1[i] is SaveState by {}
    let same = s.active_session_key == Some(session);
    let asked = s.session_history_fetched.contains(session);
    if !asked {
        assert(s.session_history_fetched.push(session)[s.session_history_fetched.len() as int]
            == session);
    }
    if !same {
        assert(effects[n] == second.1[0]);
        assert(effects[n + 1] == second.1[1]);
        if !asked {
            assert(effects[n + 2] == second.1[2]);
            assert(effects[n + 3] == second.1[3]);
        }
    } else if !asked {
        assert(effects[n] == second.1[0]);
        assert(effects[n + 1] == second.1[1]);
    }
}

/// A row that stands for a tab, a job or a reset does what a click on the tab,
/// the job or the reset does, with the palette closed.
pub proof fn other_rows_are_clicks(
    s: AppView,
    idx: usize,
    item: NavItem,
    id: Seq<char>,
    c: Clock,
    key: Seq<char>,
)
    requires
        idx < palette_rows(s).len(),
    ensures
        ({
            let done = step(s, MessageView::PaletteSelectAndExecute(idx), c, key);
            let closed = step(s, MessageView::PaletteClose, c, key).0;
            &&& row_action(s, idx as int) == PaletteActionView::Nav(item) ==> done == step(
                closed,
                MessageView::NavClicked(item),
                c,
                key,
            )
            &&& row_action(s, idx as int) == PaletteActionView::RunCron(id) ==> done == step(
                closed,
                MessageView::RunCron(id),
                c,
                key,
            )
            &&& row_action(s, idx as int) == PaletteActionView::ResetMainSession(id) ==> done
                == step(closed, MessageView::ResetMainSession(id), c, key)
        }),
{
    reveal(on_execute);
    reveal(on_action);
}

/// Carrying out a row that is not there only closes the palette.
pub proof fn no_row_does_nothing(s: AppView, idx: usize, c: Clock, key: Seq<char>)
    requires
        idx >= palette_rows(s).len(),
    ensures
        step(s, MessageView::PaletteSelectAndExecute(idx), c, key) == (
            AppView { palette_open: false, ..s },
            Seq::<EffectView>::empty(),
        ),
{
    reveal(on_execute);
}

// ---------------------------------------------------------------------
// Resets
// ---------------------------------------------------------------------

/// Arming or carrying out the reset of one agent's session leaves the others'
/// alone, and what is reset is that agent's main session.
pub proof fn reset_is_of_one_agent(
    s: AppView,
    id: Seq<char>,
    c: Clock,
    key: Seq<char>,
    other: Seq<char>,
)
    requires
        distinct_keys(s.pending_resets),
        other != id,
    ensures
        ({
            let (t, effects) = step(s, MessageView::ResetMainSession(id), c, key);
            &&& t == AppView { pending_resets: t.pending_resets, ..s }
            &&& lookup(t.pending_resets, other) == lookup(s.pending_resets, other)
            &&& lookup(s.pending_resets, id) is None ==> effects.len() == 0 && lookup(
                t.pending_resets,
                id,
            ) == Some(c.now_ms)
            &&& lookup(s.pending_resets, id) matches Some(at) ==> {
                &&& at <= c.now_ms < at + 4_000 ==> lookup(t.pending_resets, id) is None && effects
                    == seq![
                    EffectView::Send(
                        GatewayCommandView::ResetSession {
                            session_key: "agent:"@ + id + ":main"@,
                        },
                    ),
                ]
                &&& c.now_ms >= at + 4_000 ==> effects.len() == 0 && lookup(t.pending_resets, id)
                    == Some(c.now_ms)
            }
        }),
{
    reveal(on_reset);
    put_law(s.pending_resets, id, c.now_ms, other);
    removed_law(s.pending_resets, id, other);
}

// ---------------------------------------------------------------------
// Settings and the window
// ---------------------------------------------------------------------

/// Each field of the settings form holds what was typed or picked in it, and
/// nothing is saved by that.
pub proof fn form_holds_what_was_typed(s: AppView, text: Seq<char>, c: Clock, key: Seq<char>)
    ensures
        step(s, MessageView::SettingsGatewayUrlChanged(text), c, key) == (
            AppView {
                settings_form: SettingsFormView { gateway_url: text, ..s.settings_form },
                ..s
            },
            Seq::<EffectView>::empty(),
        ),
        step(s, MessageView::SettingsModeSelected(text), c, key) == (
            AppView { settings_form: SettingsFormView { mode: text, ..s.settings_form }, ..s },
            Seq::<EffectView>::empty(),
        ),
        step(s, MessageView::SettingsTokenChanged(text), c, key) == (
            AppView { settings_form: SettingsFormView { token: text, ..s.settings_form }, ..s },
            Seq::<EffectView>::empty(),
        ),
{
    reveal(on_form);
}

/// Saving keeps the URL of the form without the space around it, or none
/// where it is blank, and the mode where it is one of the two there are; a
/// token that was typed is stored, trimmed, and only then. What is saved is
/// kept for the next launch.
pub proof fn saving_keeps_the_form(s: AppView, c: Clock, key: Seq<char>)
    ensures
        ({
            let (t, effects) = step(s, MessageView::SettingsSave, c, key);
            let form = s.settings_form;
            &&& t == AppView {
                settings: t.settings,
                save_nonce: t.save_nonce,
                connection_status: t.connection_status,
                ..s
            }
            &&& trimmed(form.gateway_url).len() == 0 ==> t.settings.gateway_url is None
            &&& trimmed(form.gateway_url).len() > 0 ==> t.settings.gateway_url == Some(
                trimmed(form.gateway_url),
            )
            &&& form.mode == "ws"@ || form.mode == "mock"@ ==> t.settings.mode == Some(form.mode)
            &&& form.mode != "ws"@ && form.mode != "mock"@ ==> t.settings.mode is None
            &&& trimmed(form.token).len() == 0 ==> effects == seq![
                EffectView::SaveState(snapshot(t)),
            ]
            &&& trimmed(form.token).len() > 0 ==> effects == seq![
                EffectView::SaveState(snapshot(t)),
                EffectView::StoreToken(trimmed(form.token)),
            ]
            &&& trimmed(form.gateway_url).len() > 0 ==> t.connection_status
                == ConnectionStatusView::Connecting
        }),
{
    reveal(on_settings_save);
    crate::text::trimmed_twice(s.settings_form.gateway_url);
}

/// A stored token is there from then on, and is the one that was stored.
pub proof fn stored_token_is_used(s: AppView, token: Option<Seq<char>>, c: Clock, key: Seq<char>)
    ensures
        ({
            let (t, effects) = step(s, MessageView::TokenSaved(token), c, key);
            &&& effects.len() == 0
            &&& t.token_present
            &&& t.cached_token == token
            &&& t == AppView {
                token_present: true,
                cached_token: token,
                settings_form: SettingsFormView { token: Seq::empty(), ..s.settings_form },
                ..s
            }
        }),
        ({
            let (t, effects) = step(s, MessageView::SettingsClearToken, c, key);
            &&& effects == seq![EffectView::PurgeToken]
            &&& t == AppView {
                token_present: false,
                cached_token: None,
                settings_form: SettingsFormView { token: Seq::empty(), ..s.settings_form },
                ..s
            }
        }),
{
    reveal(on_token_saved);
    reveal(on_clear_token);
}

/// The window's last size and last place are both remembered, whichever
/// changed last.
pub proof fn window_is_remembered(
    s: AppView,
    w: Seq<char>,
    h: Seq<char>,
    x: Seq<char>,
    y: Seq<char>,
    c: Clock,
    key: Seq<char>,
)
    ensures
        ({
            let sized = step(s, MessageView::WindowResized(w, h), c, key);
            let moved = step(s, MessageView::WindowMoved(x, y), c, key);
            let both = step(sized.0, MessageView::WindowMoved(x, y), c, key);
            let turned = step(moved.0, MessageView::WindowResized(w, h), c, key);
            &&& sized.0 == AppView {
                pending_window: sized.0.pending_window,
                pending_window_since: Some(c.now_ms),
                ..s
            }
            &&& moved.0 == AppView {
                pending_window: moved.0.pending_window,
                pending_window_since: Some(c.now_ms),
                ..s
            }
            &&& sized.1.len() == 0 && moved.1.len() == 0
            &&& sized.0.pending_window matches Some(p) && p.width == w && p.height == h
            &&& moved.0.pending_window matches Some(p) && p.position == Some((x, y))
            &&& both.0.pending_window matches Some(p) && p.width == w && p.height == h && p.position
                == Some((x, y))
            &&& turned.0 == both.0
            &&& s.pending_window matches Some(p) ==> sized.0.pending_window->Some_0.position
                == p.position && moved.0.pending_window->Some_0.width == p.width
                && moved.0.pending_window->Some_0.height == p.height
        }),
{
    reveal(on_resized);
    reveal(on_moved);
}

// ---------------------------------------------------------------------
// Events
// ---------------------------------------------------------------------

/// An event is taken in as it comes, and the scene is drawn anew after it.
pub proof fn events_redraw_the_scene(s: AppView, e: WsEventView, c: Clock, key: Seq<char>)
    ensures
        step(s, MessageView::Ws(e), c, key).0 == on_event(s, e, c),
        step(s, MessageView::Ws(e), c, key).1.drop_last() == event_effects(s, e, c),
        step(s, MessageView::Ws(e), c, key).1.last() == EffectView::RedrawScene,
{
    let effects = event_effects(s, e, c);
    assert(effects.push(EffectView::RedrawScene).drop_last() =~= effects);
}

} // verus!
