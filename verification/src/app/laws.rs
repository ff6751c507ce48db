//! What holds of the application whatever messages come in.
use vstd::prelude::*;

use crate::app::model::{
    first_run, in_roster, is_armed, launched, log_of, merged_cron, on_action, on_activity,
    on_agent_message, on_agents_list, on_approval, on_channels, on_chat_history, on_chat_input,
    on_clear_token, on_connected, on_cron_delta, on_crons, on_disconnected, on_event, on_execute,
    on_form, on_heard, on_identity, on_log_filters, on_log_tail, on_log_tailing, on_main_agent,
    on_moved, on_nav, on_pairing, on_palette_input, on_palette_move, on_reconnect, on_reset,
    on_resized, on_resolution, on_resolve_approval, on_run_cron, on_select_agent, on_select_session,
    on_send_chat, on_session_history, on_session_info, on_settings_save, on_silent_turn, on_tick,
    on_toggle_error, on_token_saved, on_tool, on_update, on_usage, palette_catalog, palette_closed,
    palette_opened, palette_rows, renamed, snapshot, step, unread_of, uses_tool, watching,
    with_agent, with_entry, with_history, with_personas, with_status,
};
use crate::app::state::{
    AppView, Clock, EffectView, LaunchEnvView, MessageView, NavItem, CHAT_LOG_MAX,
    RESET_CONFIRM_WINDOW_MS,
};
use crate::domain::agent::{AgentKind, AgentView};
use crate::domain::status::AgentStatus;
use crate::keyed::{distinct_keys, key_index_bounds, lookup, put, put_law, removed_law};
use crate::logs::{classified_all, LOG_BUFFER_MAX};
use crate::net::commands::GatewayCommandView;
use crate::net::events::{ActivityKind, WsEventView};
use crate::net::payloads::main_session_key;
use crate::net::rpc::{AgentInfoView, ChannelView, CronJobView, CronStateView};
use crate::palette::PaletteActionView;
use crate::ring::{capped_extend, capped_push};
use crate::ui::chat_view::ChatMessageView;
use crate::ui_state::{nav_name, nav_round_trip, UiStateView};

verus! {

// ---------------------------------------------------------------------
// Connection
// ---------------------------------------------------------------------

/// A lost connection keeps every transcript, and forgets what was asked for
/// on it and who was at work.
pub proof fn disconnect_keeps_transcripts(s: AppView, reason: Seq<char>, c: Clock)
    ensures
        ({
            let t = on_event(s, WsEventView::Disconnected(reason), c);
            &&& !t.connected
            &&& t.last_disconnect == Some(reason)
            &&& t.chat_logs == s.chat_logs
            &&& t.session_transcripts == s.session_transcripts
            &&& t.log_lines == s.log_lines
            &&& t.history_fetched.len() == 0
            &&& t.session_history_fetched.len() == 0
            &&& t.chat_activities.len() == 0
        }),
{
    reveal(on_event);
    reveal(on_disconnected);
}

/// After a lost connection the history of an agent is asked for again when
/// the operator opens it; until then it is asked for once.
pub proof fn history_is_asked_for_once(s: AppView, id: Seq<char>, other: Seq<char>)
    requires
        s.selected_chat_agent != id,
        other != id,
    ensures
        s.history_fetched.contains(id) <==> !on_select_agent(s, id).1.contains(
            EffectView::Send(GatewayCommandView::FetchChatHistory { agent_id: id }),
        ),
        on_select_agent(s, id).0.history_fetched.contains(id),
        !on_select_agent(on_select_agent(on_select_agent(s, id).0, other).0, id).1.contains(
            EffectView::Send(GatewayCommandView::FetchChatHistory { agent_id: id }),
        ),
{
    reveal(on_select_agent);
    let fetch = EffectView::Send(GatewayCommandView::FetchChatHistory { agent_id: id });
    let a = on_select_agent(s, id);
    if s.history_fetched.contains(id) {
        assert forall|i: int| 0 <= i < a.1.len() implies a.1[i] != fetch by {}
    } else {
        assert(a.1[0] == fetch);
        assert(s.history_fetched.push(id)[s.history_fetched.len() as int] == id);
    }
    let b = on_select_agent(a.0, other);
    assert(b.0.history_fetched.contains(id)) by {
        let i = a.0.history_fetched.index_of(id);
        assert(a.0.history_fetched[i] == id);
        assert(b.0.history_fetched[i] == id);
    }
    let d = on_select_agent(b.0, id);
    assert forall|i: int| 0 <= i < d.1.len() implies d.1[i] != fetch by {}
}

/// A list of agents never overrides the operator's choice.
pub proof fn list_keeps_the_choice(
    s: AppView,
    default_id: Seq<char>,
    agents: Seq<AgentInfoView>,
    c: Clock,
)
    requires
        s.selected_chat_agent != "main"@ || s.history_fetched.contains(s.selected_chat_agent),
    ensures
        on_event(s, WsEventView::AgentsList { default_id, agents }, c).selected_chat_agent
            == s.selected_chat_agent,
{
    reveal(on_event);
    reveal(on_agents_list);
}

/// Saving the settings, changed or not, starts a new connection: the number
/// that goes into it changes.
pub proof fn save_reconnects(s: AppView)
    ensures
        on_settings_save(s).0.save_nonce != s.save_nonce,
{
    reveal(on_settings_save);
}

// ---------------------------------------------------------------------
// Unread replies
// ---------------------------------------------------------------------

/// A reply counts as unread exactly when the operator is not looking at its
/// agent, and changes no other agent's count.
pub proof fn reply_counts_as_unread(
    s: AppView,
    id: Seq<char>,
    text: Seq<char>,
    c: Clock,
    other: Seq<char>,
)
    requires
        unread_of(s, id) < usize::MAX,
        other != id,
    ensures
        ({
            let t = on_event(s, WsEventView::AgentMessage { agent_id: id, text }, c);
            &&& unread_of(t, id) == unread_of(s, id) + (if watching(s, id) {
                0int
            } else {
                1int
            })
            &&& unread_of(t, other) == unread_of(s, other)
        }),
{
    reveal(on_event);
    reveal(on_agent_message);
    put_law(s.unread, id, (unread_of(s, id) + 1) as usize, other);
    put_law(s.unread, id, (unread_of(s, id) + 1) as usize, id);
}

/// Opening the chat, or picking an agent, clears the count of the agent that
/// is then shown and of no other.
pub proof fn looking_clears_unread(s: AppView, id: Seq<char>, other: Seq<char>)
    requires
        distinct_keys(s.unread),
        id != s.selected_chat_agent,
        other != id,
    ensures
        unread_of(on_nav(s, NavItem::Chat).0, s.selected_chat_agent) == 0,
        unread_of(on_nav(s, NavItem::Chat).0, id) == unread_of(s, id),
        unread_of(on_select_agent(s, id).0, id) == 0,
        unread_of(on_select_agent(s, id).0, other) == unread_of(s, other),
{
    reveal(on_nav);
    reveal(on_select_agent);
    removed_law(s.unread, s.selected_chat_agent, id);
    removed_law(s.unread, id, other);
}

// ---------------------------------------------------------------------
// Status
// ---------------------------------------------------------------------

/// Reporting a status twice does no more than reporting it once.
pub proof fn status_is_idempotent(
    s: AppView,
    id: Seq<char>,
    next: AgentStatus,
    now: u64,
    later: u64,
)
    ensures
        lookup(with_status(s, id, next, now).statuses, id) == Some(next),
        with_status(with_status(s, id, next, now), id, next, later) == with_status(
            s,
            id,
            next,
            now,
        ),
{
    put_law(s.statuses, id, next, id);
}

/// A delta never wipes a field that it does not carry, and what it carries
/// counts.
pub proof fn delta_never_wipes(dst: CronStateView, src: CronStateView)
    ensures
        merged_cron(dst, src).running == src.running,
        dst.next_run_at_ms is Some ==> merged_cron(dst, src).next_run_at_ms is Some,
        dst.last_run_at_ms is Some ==> merged_cron(dst, src).last_run_at_ms is Some,
        dst.last_status is Some ==> merged_cron(dst, src).last_status is Some,
        dst.last_duration_ms is Some ==> merged_cron(dst, src).last_duration_ms is Some,
        dst.last_error is Some ==> merged_cron(dst, src).last_error is Some,
        src.last_error is Some ==> merged_cron(dst, src).last_error == src.last_error,
        merged_cron(merged_cron(dst, src), src) == merged_cron(dst, src),
{
}

/// A tool that an agent is shown to use stays shown while the agent is merely
/// said to be at work, and goes with an error.
pub proof fn tool_outranks_thinking(s: AppView, id: Seq<char>, now: u64)
    requires
        distinct_keys(s.chat_activities),
        uses_tool(s.chat_activities, id),
    ensures
        on_activity(s, id, ActivityKind::Thinking, now).chat_activities == s.chat_activities,
        on_activity(s, id, ActivityKind::ToolCalling, now).chat_activities == s.chat_activities,
        lookup(on_activity(s, id, ActivityKind::Errored, now).chat_activities, id) is None,
{
    reveal(on_activity);
    removed_law(s.chat_activities, id, id);
}

// ---------------------------------------------------------------------
// Resets
// ---------------------------------------------------------------------

/// A session is reset by a second click in time and by nothing less: the
/// first click only arms, the second one within the window resets and
/// disarms, and one after the window arms again.
pub proof fn reset_takes_two_clicks(s: AppView, id: Seq<char>, first: u64, second: u64)
    requires
        distinct_keys(s.pending_resets),
        !is_armed(s, id, first),
        first <= second,
    ensures
        ({
            let armed = on_reset(s, id, first);
            let again = on_reset(armed.0, id, second);
            let reset = EffectView::Send(
                GatewayCommandView::ResetSession { session_key: main_session_key(id) },
            );
            &&& armed.1.len() == 0
            &&& second - first < RESET_CONFIRM_WINDOW_MS ==> again.1 == seq![reset] && !is_armed(
                again.0,
                id,
                second,
            )
            &&& second - first >= RESET_CONFIRM_WINDOW_MS ==> again.1.len() == 0 && is_armed(
                again.0,
                id,
                second,
            )
        }),
{
    reveal(on_reset);
    put_law(s.pending_resets, id, first, id);
    let armed = on_reset(s, id, first).0;
    put_law(armed.pending_resets, id, second, id);
    removed_law(armed.pending_resets, id, id);
}

// ---------------------------------------------------------------------
// The palette
// ---------------------------------------------------------------------

/// The selection stays on a row: after typing, and after moving while the
/// palette is open.
pub proof fn selection_stays_on_a_row(s: AppView, value: Seq<char>, delta: i32)
    ensures
        ({
            let t = on_palette_input(s, value);
            palette_rows(t).len() > 0 ==> t.palette_selected < palette_rows(t).len()
        }),
        ({
            let t = on_palette_move(s, delta);
            s.palette_open && palette_rows(s).len() > 0 && palette_rows(s).len() <= usize::MAX
                ==> t.palette_selected < palette_rows(t).len()
        }),
{
    reveal(on_palette_input);
    reveal(on_palette_move);
    let n = palette_rows(s).len() as int;
    if n > 0 {
        assert(0 <= (s.palette_selected + delta) % n < n);
    }
}

/// Moving down and up again, or up and down, comes back to the same row.
pub proof fn moves_cancel(s: AppView, delta: i32)
    requires
        delta != i32::MIN,
        s.palette_open,
        palette_rows(s).len() <= usize::MAX,
        s.palette_selected < palette_rows(s).len(),
    ensures
        on_palette_move(on_palette_move(s, delta), (-delta) as i32).palette_selected
            == s.palette_selected,
{
    reveal(on_palette_move);
    let n = palette_rows(s).len() as int;
    let a = s.palette_selected as int;
    let t = on_palette_move(s, delta);
    assert(palette_rows(t) == palette_rows(s));
    let b = (a + delta) % n;
    assert(0 <= b < n);
    vstd::arithmetic::div_mod::lemma_add_mod_noop(a + delta, -(delta as int), n);
    vstd::arithmetic::div_mod::lemma_add_mod_noop(b, -(delta as int), n);
    vstd::arithmetic::div_mod::lemma_mod_twice(a + delta, n);
    vstd::arithmetic::div_mod::lemma_small_mod(a as nat, n as nat);
}

/// Carrying out a row closes the palette, whatever the row does.
pub proof fn executing_closes_the_palette(s: AppView, idx: int, now: u64)
    ensures
        !on_execute(s, idx, now).0.palette_open,
{
    reveal(on_execute);
    reveal(on_action);
    reveal(palette_closed);
    reveal(on_nav);
    reveal(on_run_cron);
    reveal(on_select_agent);
    reveal(on_select_session);
    reveal(on_reset);
}

// ---------------------------------------------------------------------
// From one launch to the next
// ---------------------------------------------------------------------

/// What a launch finds is what the last one left: the tab, the selected
/// agent, the open session, the window and the settings.
pub proof fn relaunch_restores(
    s: AppView,
    launch: LaunchEnvView,
    token_present: bool,
    token: Option<Seq<char>>,
)
    requires
        !first_run(launch, s.settings.gateway_url),
        s.selected_chat_agent.len() > 0,
        s.active_session_key matches Some(k) ==> k.len() > 0,
    ensures
        ({
            let t = launched(snapshot(s), launch, token_present, token);
            &&& t.nav == s.nav
            &&& t.selected_chat_agent == s.selected_chat_agent
            &&& t.active_session_key == s.active_session_key
            &&& t.pending_window == s.pending_window
            &&& t.settings == s.settings
            &&& snapshot(t) == snapshot(s)
        }),
{
    nav_round_trip(s.nav, nav_name(s.nav));
}

/// Without a gateway to connect to, the Settings tab opens, whatever was
/// open before.
pub proof fn first_run_opens_settings(
    state: UiStateView,
    launch: LaunchEnvView,
    token_present: bool,
    token: Option<Seq<char>>,
)
    requires
        first_run(launch, state.settings.gateway_url),
    ensures
        launched(state, launch, token_present, token).nav == NavItem::Settings,
{
}

/// Neither clearing nor storing a token leaves one in the form.
pub proof fn token_field_is_cleared(s: AppView, token: Option<Seq<char>>)
    ensures
        on_clear_token(s).settings_form.token.len() == 0,
        on_clear_token(s).cached_token is None,
        !on_clear_token(s).token_present,
        on_token_saved(s, token).settings_form.token.len() == 0,
{
    reveal(on_clear_token);
    reveal(on_token_saved);
}

// ---------------------------------------------------------------------
// Invariants
// ---------------------------------------------------------------------

/// No id stands in the roster twice.
pub open spec fn distinct_roster(roster: Seq<AgentView>) -> bool {
    forall|i: int, j: int| 0 <= i < j < roster.len() ==> roster[i].id != roster[j].id
}

/// No log outgrows its bound.
pub open spec fn bounded_logs(logs: Seq<(Seq<char>, Seq<ChatMessageView>)>) -> bool {
    forall|i: int| 0 <= i < logs.len() ==> (#[trigger] logs[i]).1.len() <= CHAT_LOG_MAX
}

/// What every state keeps: each agent has one sprite, and no log outgrows its
/// bound.
pub open spec fn sound(s: AppView) -> bool {
    &&& distinct_roster(s.roster)
    &&& bounded_logs(s.chat_logs)
    &&& bounded_logs(s.session_transcripts)
    &&& s.log_lines.len() <= LOG_BUFFER_MAX
}

proof fn with_agent_distinct(roster: Seq<AgentView>, id: Seq<char>, kind: AgentKind)
    requires
        distinct_roster(roster),
    ensures
        distinct_roster(with_agent(roster, id, kind)),
{
    if !in_roster(roster, id) {
        assert forall|i: int| 0 <= i < roster.len() implies (#[trigger] roster[i]).id != id by {}
    }
}

proof fn renamed_distinct(roster: Seq<AgentView>, id: Seq<char>, display: Seq<char>)
    requires
        distinct_roster(roster),
    ensures
        distinct_roster(renamed(roster, id, display)),
{
    crate::app::gateway::roster_index_bounds(roster, id);
    let r = renamed(roster, id, display);
    assert forall|i: int| 0 <= i < r.len() implies (#[trigger] r[i]).id == roster[i].id by {}
}

proof fn with_personas_distinct(roster: Seq<AgentView>, agents: Seq<AgentInfoView>)
    requires
        distinct_roster(roster),
    ensures
        distinct_roster(with_personas(roster, agents)),
    decreases agents.len(),
{
    if agents.len() > 0 {
        let before = with_personas(roster, agents.drop_last());
        let info = agents.last();
        with_personas_distinct(roster, agents.drop_last());
        renamed_distinct(before, info.id, info.shown_with_emoji());
        if !in_roster(before, info.id) {
            assert forall|i: int| 0 <= i < before.len() implies (#[trigger] before[i]).id
                != info.id by {}
        }
    }
}

proof fn bounded_put(
    logs: Seq<(Seq<char>, Seq<ChatMessageView>)>,
    k: Seq<char>,
    log: Seq<ChatMessageView>,
)
    requires
        bounded_logs(logs),
        log.len() <= CHAT_LOG_MAX,
    ensures
        bounded_logs(put(logs, k, log)),
{
    key_index_bounds(logs, k);
}

proof fn bounded_entry(
    logs: Seq<(Seq<char>, Seq<ChatMessageView>)>,
    k: Seq<char>,
    m: ChatMessageView,
)
    requires
        bounded_logs(logs),
    ensures
        bounded_logs(with_entry(logs, k, m)),
{
    key_index_bounds(logs, k);
    let log = log_of(logs, k);
    assert(log.len() <= CHAT_LOG_MAX);
    bounded_put(logs, k, capped_push(log, m, CHAT_LOG_MAX as nat));
}

proof fn bounded_history(
    logs: Seq<(Seq<char>, Seq<ChatMessageView>)>,
    k: Seq<char>,
    m: Seq<ChatMessageView>,
)
    requires
        bounded_logs(logs),
    ensures
        bounded_logs(with_history(logs, k, m)),
{
    crate::ring::capped_extend_keeps_newest(
        Seq::<ChatMessageView>::empty(),
        m,
        CHAT_LOG_MAX as nat,
    );
    bounded_put(logs, k, capped_extend(Seq::empty(), m, CHAT_LOG_MAX as nat));
}

proof fn sound_crons(s: AppView, crons: Seq<CronJobView>, now: u64)
    requires
        sound(s),
    ensures
        sound(on_crons(s, crons, now)),
    decreases crons.len(),
{
    if crons.len() > 0 {
        sound_crons(s, crons.drop_last(), now);
        let before = on_crons(s, crons.drop_last(), now);
        with_agent_distinct(before.roster, crons.last().name, AgentKind::Cron);
    }
}

proof fn sound_channels(s: AppView, channels: Seq<ChannelView>, now: u64)
    requires
        sound(s),
    ensures
        sound(on_channels(s, channels, now)),
    decreases channels.len(),
{
    if channels.len() > 0 {
        sound_channels(s, channels.drop_last(), now);
        let before = on_channels(s, channels.drop_last(), now);
        with_agent_distinct(before.roster, channels.last().name, AgentKind::Channel);
    }
}

/// Every event keeps what every state keeps.
pub proof fn events_keep_it_sound(s: AppView, e: WsEventView, c: Clock)
    requires
        sound(s),
    ensures
        sound(on_event(s, e, c)),
{
    reveal(on_event);
    let now = c.now_ms;
    match e {
        WsEventView::Connected => {
            reveal(on_connected);
        },
        WsEventView::Disconnected(reason) => {
            reveal(on_disconnected);
        },
        WsEventView::CronSnapshot(crons) => {
            reveal(on_heard);
            sound_crons(on_heard(s, now), crons, now);
        },
        WsEventView::CronDelta(cron) => {
            reveal(on_cron_delta);
            with_agent_distinct(s.roster, cron.name, AgentKind::Cron);
        },
        WsEventView::ChannelSnapshot(channels) => {
            reveal(on_heard);
            sound_channels(on_heard(s, now), channels, now);
        },
        WsEventView::MainAgent(main) => {
            reveal(on_main_agent);
        },
        WsEventView::AgentsList { default_id, agents } => {
            reveal(on_agents_list);
            with_personas_distinct(s.roster, agents);
        },
        WsEventView::AgentIdentity { agent_id, name, emoji } => {
            reveal(on_identity);
            let i = crate::app::model::info_index(s.chat_agents, agent_id);
            if i < s.chat_agents.len() {
                let info = crate::app::model::with_identity(s.chat_agents[i], name, emoji);
                renamed_distinct(s.roster, agent_id, info.shown_with_emoji());
            }
        },
        WsEventView::AgentMessage { agent_id, text } => {
            reveal(on_agent_message);
            with_agent_distinct(s.roster, agent_id, AgentKind::Main);
            bounded_entry(
                s.chat_logs,
                agent_id,
                ChatMessageView {
                    role: crate::ui::chat_view::ChatRole::Assistant,
                    text,
                    at: c.wall_secs,
                },
            );
        },
        WsEventView::AgentInboundUserMessage { .. } => {
            reveal(on_heard);
        },
        WsEventView::AgentSilentTurn { agent_id } => {
            reveal(on_silent_turn);
            reveal(on_heard);
        },
        WsEventView::ChatHistory { agent_id, messages } => {
            reveal(on_chat_history);
            bounded_history(s.chat_logs, agent_id, messages);
        },
        WsEventView::SessionHistory { session_key, messages } => {
            reveal(on_session_history);
            bounded_history(s.session_transcripts, session_key, messages);
        },
        WsEventView::SessionUsageTimeseries { .. } => {
            reveal(on_usage);
        },
        WsEventView::AgentToolInvoked { .. } => {
            reveal(on_tool);
        },
        WsEventView::AgentActivity { .. } => {
            reveal(on_activity);
        },
        WsEventView::SessionsChanged => {
            reveal(on_heard);
        },
        WsEventView::SessionUsage(_) => {
            reveal(on_session_info);
        },
        WsEventView::PairRequestPending(_) => {
            reveal(on_pairing);
        },
        WsEventView::ApprovalRequested(_) => {
            reveal(on_approval);
            reveal(on_heard);
        },
        WsEventView::ApprovalResolved { .. } => {
            reveal(on_resolution);
            reveal(on_heard);
        },
        WsEventView::UpdateAvailable(_) => {
            reveal(on_update);
        },
        WsEventView::LogTail(tail) => {
            reveal(on_log_tail);
            crate::ring::capped_extend_keeps_newest(
                if tail.reset {
                    Seq::empty()
                } else {
                    s.log_lines
                },
                classified_all(tail.lines),
                LOG_BUFFER_MAX as nat,
            );
        },
    }
}

proof fn sound_send(s: AppView, key: Seq<char>, c: Clock)
    requires
        sound(s),
    ensures
        sound(on_send_chat(s, key, c).0),
{
    reveal(on_send_chat);
    bounded_entry(
        s.chat_logs,
        s.selected_chat_agent,
        ChatMessageView {
            role: crate::ui::chat_view::ChatRole::User,
            text: crate::text::trimmed(s.chat_input),
            at: c.wall_secs,
        },
    );
}

/// Whether `t` has the roster, the transcripts and the log of `s`.
spec fn same_core(s: AppView, t: AppView) -> bool {
    &&& t.roster == s.roster
    &&& t.chat_logs == s.chat_logs
    &&& t.session_transcripts == s.session_transcripts
    &&& t.log_lines == s.log_lines
}

proof fn actions_keep_the_core(s: AppView, a: PaletteActionView, now: u64)
    ensures
        same_core(s, on_action(s, a, now).0),
{
    reveal(on_action);
    reveal(on_nav);
    reveal(on_run_cron);
    reveal(on_select_agent);
    reveal(on_select_session);
    reveal(on_reset);
}

proof fn operator_keeps_the_core(s: AppView, m: MessageView, c: Clock, key: Seq<char>)
    requires
        !(m is Ws) && !(m is SendChat),
    ensures
        same_core(s, step(s, m, c, key).0),
{
    match m {
        MessageView::NavClicked(item) => {
            reveal(on_nav);
        },
        MessageView::Tick => {
            reveal(on_tick);
        },
        MessageView::ResolveApproval { .. } => {
            reveal(on_resolve_approval);
        },
        MessageView::RunCron(id) => {
            reveal(on_run_cron);
        },
        MessageView::RequestReconnect => {
            reveal(on_reconnect);
        },
        MessageView::ChatInputChanged(v) => {
            reveal(on_chat_input);
        },
        MessageView::SelectChatAgent(id) => {
            reveal(on_select_agent);
        },
        MessageView::LogsToggleSeverity(_) => {
            reveal(on_log_filters);
        },
        MessageView::LogsSearchChanged(_) => {
            reveal(on_log_filters);
        },
        MessageView::LogsScrolled(_) => {
            reveal(on_log_tailing);
        },
        MessageView::LogsJumpToLatest => {
            reveal(on_log_tailing);
        },
        MessageView::ResetMainSession(id) => {
            reveal(on_reset);
        },
        MessageView::ToggleAgentError(id) => {
            reveal(on_toggle_error);
        },
        MessageView::SessionSelected(key) => {
            reveal(on_select_session);
        },
        MessageView::PaletteToggle => {
            reveal(palette_closed);
            reveal(palette_opened);
        },
        MessageView::PaletteClose => {
            reveal(palette_closed);
        },
        MessageView::PaletteInputChanged(_) => {
            reveal(on_palette_input);
        },
        MessageView::PaletteMove(_) => {
            reveal(on_palette_move);
        },
        MessageView::PaletteExecute => {
            executing_keeps_the_core(s, s.palette_selected as int, c.now_ms);
        },
        MessageView::PaletteSelectAndExecute(idx) => {
            executing_keeps_the_core(s, idx as int, c.now_ms);
        },
        MessageView::WindowResized(_, _) => {
            reveal(on_resized);
        },
        MessageView::WindowMoved(_, _) => {
            reveal(on_moved);
        },
        MessageView::SettingsGatewayUrlChanged(_) => {
            reveal(on_form);
        },
        MessageView::SettingsModeSelected(_) => {
            reveal(on_form);
        },
        MessageView::SettingsTokenChanged(_) => {
            reveal(on_form);
        },
        MessageView::SettingsSave => {
            reveal(on_settings_save);
        },
        MessageView::SettingsClearToken => {
            reveal(on_clear_token);
        },
        MessageView::TokenSaved(_) => {
            reveal(on_token_saved);
        },
        _ => {},
    }
}

proof fn executing_keeps_the_core(s: AppView, idx: int, now: u64)
    ensures
        same_core(s, on_execute(s, idx, now).0),
{
    reveal(on_execute);
    reveal(palette_closed);
    let rows = palette_rows(s);
    if idx < rows.len() {
        let a = palette_catalog(s)[rows[idx].0 as int].action;
        actions_keep_the_core(palette_closed(s), a, now);
    }
}

/// Every message keeps what every state keeps, and a launch establishes it.
pub proof fn messages_keep_it_sound(s: AppView, m: MessageView, c: Clock, key: Seq<char>)
    requires
        sound(s),
    ensures
        sound(step(s, m, c, key).0),
{
    match m {
        MessageView::Ws(e) => {
            events_keep_it_sound(s, e, c);
        },
        MessageView::SendChat => {
            sound_send(s, key, c);
        },
        _ => {
            operator_keeps_the_core(s, m, c, key);
        },
    }
}

/// The state at launch is sound.
pub proof fn launch_is_sound(
    state: UiStateView,
    launch: LaunchEnvView,
    token_present: bool,
    token: Option<Seq<char>>,
)
    ensures
        sound(launched(state, launch, token_present, token)),
{
}

} // verus!
