//! What each message and event does, as functions on the state's model.
use vstd::prelude::*;

use crate::app::state::{
    form_of, AppView, ChatActivityStateView, ChatActivityView, Clock, ConnectionStatusView,
    EffectView, LaunchEnvView, MessageView, NavItem, SettingsFormView, BUBBLE_MAX,
    CHAT_ACTIVITY_TIMEOUT_MS, CHAT_LOG_MAX, RESET_CONFIRM_WINDOW_MS, TRANSITION_FLASH_MS,
    WINDOW_SAVE_DEBOUNCE_MS,
};
use crate::bubble_text::bubble_snippet;
use crate::config::{given, resolved_url};
use crate::domain::agent::{AgentKind, AgentView};
use crate::domain::job::shortened;
use crate::domain::status::AgentStatus;
use crate::keyed::{lookup, put, removed, with_member, without_member};
use crate::logs::{classified_all, LogFiltersView, LOG_BUFFER_MAX};
use crate::net::commands::GatewayCommandView;
use crate::net::events::{
    status_of_channel, status_of_cron, status_of_main, ActivityKind, GatewayUpdateView,
    PairRequestView, WsEventView,
};
use crate::net::payloads::main_session_key;
use crate::net::rpc::{
    idle_state, AgentIdentityView, AgentInfoView, ApprovalEventPayloadView, ChannelView,
    CronJobView, CronStateView, LogTailPayloadView, MainAgentView, SessionInfoView,
    SessionUsagePointView,
};
use crate::notifications::{approval_key, NotificationView, NotifierView};
use crate::palette::{catalog, ranking, PaletteActionView, PaletteEntryView};
use crate::ring::{capped_extend, capped_push};
use crate::scene::flourish::elapsed;
use crate::scene::thought_bubble::{transition_words, BubbleKind, ThoughtBubbleView, TTL_MS};
use crate::text::{has_prefix, trimmed};
use crate::ui::chat_view::{ChatMessageView, ChatRole};
use crate::ui_state::{nav_name, nav_named, UiStateView, WindowStateView};

verus! {

// ---------------------------------------------------------------------
// Pieces
// ---------------------------------------------------------------------

/// Whether the roster has an entry with an id.
pub open spec fn in_roster(roster: Seq<AgentView>, id: Seq<char>) -> bool {
    exists|i: int| 0 <= i < roster.len() && (#[trigger] roster[i]).id == id
}

/// A new roster entry.
pub open spec fn new_agent(id: Seq<char>, kind: AgentKind) -> AgentView {
    AgentView {
        id,
        display: match kind {
            AgentKind::Cron => shortened(id),
            _ => id,
        },
        kind,
    }
}

/// The roster with an entry for an id.
pub open spec fn with_agent(roster: Seq<AgentView>, id: Seq<char>, kind: AgentKind) -> Seq<
    AgentView,
> {
    if in_roster(roster, id) {
        roster
    } else {
        roster.push(new_agent(id, kind))
    }
}

/// The state with an agent's status set. A change is stamped, and gets its
/// bubble if it has a word for it.
pub open spec fn with_status(s: AppView, id: Seq<char>, next: AgentStatus, now: u64) -> AppView {
    let prev = lookup(s.statuses, id);
    if prev == Some(next) {
        s
    } else {
        AppView {
            statuses: put(s.statuses, id, next),
            transition_moments: put(s.transition_moments, id, now),
            bubbles: match transition_words(prev, next) {
                Some(text) => s.bubbles.push(
                    ThoughtBubbleView { agent: id, text, born: now, kind: BubbleKind::Work },
                ),
                None => s.bubbles,
            },
            ..s
        }
    }
}

/// What a log holds; a log that is not there is empty.
pub open spec fn log_of(logs: Seq<(Seq<char>, Seq<ChatMessageView>)>, k: Seq<char>) -> Seq<
    ChatMessageView,
> {
    match lookup(logs, k) {
        Some(l) => l,
        None => Seq::empty(),
    }
}

/// The logs with an entry added to one.
pub open spec fn with_entry(
    logs: Seq<(Seq<char>, Seq<ChatMessageView>)>,
    k: Seq<char>,
    m: ChatMessageView,
) -> Seq<(Seq<char>, Seq<ChatMessageView>)> {
    put(logs, k, capped_push(log_of(logs, k), m, CHAT_LOG_MAX as nat))
}

/// The logs with one replaced by a history, of which the newest entries stay.
pub open spec fn with_history(
    logs: Seq<(Seq<char>, Seq<ChatMessageView>)>,
    k: Seq<char>,
    messages: Seq<ChatMessageView>,
) -> Seq<(Seq<char>, Seq<ChatMessageView>)> {
    put(logs, k, capped_extend(Seq::empty(), messages, CHAT_LOG_MAX as nat))
}

/// What a notifier raises, as effects.
pub open spec fn raised(n: Option<NotificationView>) -> Seq<EffectView> {
    match n {
        Some(x) => seq![EffectView::Notify(x)],
        None => Seq::empty(),
    }
}

/// The state that is kept for the next launch.
pub open spec fn snapshot(s: AppView) -> UiStateView {
    UiStateView {
        tab: Some(nav_name(s.nav)),
        selected_agent: Some(s.selected_chat_agent),
        active_session_key: s.active_session_key,
        window: s.pending_window,
        settings: s.settings,
    }
}

/// Whether there is nothing to connect to yet.
pub open spec fn first_run(launch: LaunchEnvView, saved_url: Option<Seq<char>>) -> bool {
    !launch.demo && resolved_url(launch.gateway_url, saved_url) is None
}

// ---------------------------------------------------------------------
// Launch
// ---------------------------------------------------------------------

/// The state at launch.
pub open spec fn launched(
    state: UiStateView,
    launch: LaunchEnvView,
    token_present: bool,
    cached_token: Option<Seq<char>>,
) -> AppView {
    let unset = first_run(launch, state.settings.gateway_url);
    AppView {
        nav: if unset {
            NavItem::Settings
        } else {
            match state.tab {
                Some(t) => match nav_named(t) {
                    Some(n) => n,
                    None => NavItem::Overview,
                },
                None => NavItem::Overview,
            }
        },
        roster: seq![AgentView { id: "main"@, display: "main"@, kind: AgentKind::Main }],
        statuses: Seq::empty(),
        bubbles: Seq::empty(),
        active_model: None,
        last_poll: None,
        connected: false,
        last_disconnect: None,
        pending_approvals: Seq::empty(),
        sessions: Seq::empty(),
        gateway_update: None,
        pending_pair_request: None,
        cron_details: Seq::empty(),
        cron_ids: Seq::empty(),
        channel_details: Seq::empty(),
        log_lines: Seq::empty(),
        log_filters: LogFiltersView::open_wide(),
        logs_auto_tail: true,
        transition_moments: Seq::empty(),
        chat_input: Seq::empty(),
        chat_logs: Seq::empty(),
        chat_agents: Seq::empty(),
        selected_chat_agent: match state.selected_agent {
            Some(a) => if a.len() == 0 {
                "main"@
            } else {
                a
            },
            None => "main"@,
        },
        history_fetched: Seq::empty(),
        chat_activities: Seq::empty(),
        pending_resets: Seq::empty(),
        expanded_errors: Seq::empty(),
        session_transcripts: Seq::empty(),
        session_history_fetched: Seq::empty(),
        active_session_key: match state.active_session_key {
            Some(k) => if k.len() == 0 {
                None
            } else {
                Some(k)
            },
            None => None,
        },
        unread: Seq::empty(),
        notifier: NotifierView::fresh(),
        palette_open: false,
        palette_input: Seq::empty(),
        palette_selected: 0,
        session_usage: Seq::empty(),
        pending_window: state.window,
        pending_window_since: None,
        settings: state.settings,
        settings_form: form_of(state.settings),
        token_present,
        cached_token,
        connection_status: if unset || launch.demo {
            ConnectionStatusView::Untested
        } else {
            ConnectionStatusView::Connecting
        },
        save_nonce: 0,
        launch,
    }
}

// ---------------------------------------------------------------------
// Events from the gateway
// ---------------------------------------------------------------------

/// After the connection is up.
#[verifier::opaque]
pub open spec fn on_connected(s: AppView) -> AppView {
    AppView {
        connected: true,
        last_disconnect: None,
        connection_status: ConnectionStatusView::Connected,
        ..s
    }
}

/// After the connection is down: what was asked for on it is forgotten, and
/// no agent is taken to be at work; transcripts stay.
#[verifier::opaque]
pub open spec fn on_disconnected(s: AppView, reason: Seq<char>) -> AppView {
    AppView {
        connected: false,
        last_disconnect: Some(reason),
        connection_status: ConnectionStatusView::Failed(reason),
        history_fetched: Seq::empty(),
        session_history_fetched: Seq::empty(),
        notifier: s.notifier.disconnected(),
        chat_activities: Seq::empty(),
        ..s
    }
}

/// A cron of a snapshot.
pub open spec fn on_cron(s: AppView, cron: CronJobView, now: u64) -> AppView {
    let noted = AppView {
        roster: with_agent(s.roster, cron.name, AgentKind::Cron),
        cron_details: put(s.cron_details, cron.name, cron.state),
        cron_ids: match cron.id {
            Some(id) => put(s.cron_ids, cron.name, id),
            None => s.cron_ids,
        },
        notifier: s.notifier.after_cron(cron.name, cron.state),
        ..s
    };
    with_status(noted, cron.name, status_of_cron(cron), now)
}

/// The crons of a snapshot, one after the other.
pub open spec fn on_crons(s: AppView, crons: Seq<CronJobView>, now: u64) -> AppView
    decreases crons.len(),
{
    if crons.len() == 0 {
        s
    } else {
        on_cron(on_crons(s, crons.drop_last(), now), crons.last(), now)
    }
}

/// What the crons of a snapshot raise.
pub open spec fn crons_raise(s: AppView, crons: Seq<CronJobView>, now: u64) -> Seq<EffectView>
    decreases crons.len(),
{
    if crons.len() == 0 {
        Seq::empty()
    } else {
        let before = on_crons(s, crons.drop_last(), now);
        let last = crons.last();
        crons_raise(s, crons.drop_last(), now) + raised(
            before.notifier.raises_cron(last.name, last.state),
        )
    }
}

/// A field that a delta carries, else the one that was known.
pub open spec fn newer<T>(known: Option<T>, carried: Option<T>) -> Option<T> {
    if carried is Some {
        carried
    } else {
        known
    }
}

/// A cron state with a delta on top: only `running` is always taken over.
pub open spec fn merged_cron(dst: CronStateView, src: CronStateView) -> CronStateView {
    CronStateView {
        running: src.running,
        next_run_at_ms: newer(dst.next_run_at_ms, src.next_run_at_ms),
        last_run_at_ms: newer(dst.last_run_at_ms, src.last_run_at_ms),
        last_status: newer(dst.last_status, src.last_status),
        last_duration_ms: newer(dst.last_duration_ms, src.last_duration_ms),
        last_error: newer(dst.last_error, src.last_error),
    }
}

/// The state of a cron with a delta on top.
pub open spec fn cron_after_delta(s: AppView, cron: CronJobView) -> CronStateView {
    merged_cron(
        match lookup(s.cron_details, cron.name) {
            Some(known) => known,
            None => idle_state(),
        },
        cron.state,
    )
}

/// A cron's delta.
#[verifier::opaque]
pub open spec fn on_cron_delta(s: AppView, cron: CronJobView, now: u64) -> AppView {
    let after = cron_after_delta(s, cron);
    let noted = AppView {
        roster: with_agent(s.roster, cron.name, AgentKind::Cron),
        cron_details: put(s.cron_details, cron.name, after),
        notifier: s.notifier.after_cron(cron.name, after),
        last_poll: Some(now),
        ..s
    };
    with_status(noted, cron.name, status_of_cron(cron), now)
}

/// A channel of a snapshot.
pub open spec fn on_channel(s: AppView, ch: ChannelView, now: u64) -> AppView {
    let noted = AppView {
        roster: with_agent(s.roster, ch.name, AgentKind::Channel),
        channel_details: put(s.channel_details, ch.name, ch),
        ..s
    };
    with_status(noted, ch.name, status_of_channel(ch), now)
}

/// The channels of a snapshot, one after the other.
pub open spec fn on_channels(s: AppView, channels: Seq<ChannelView>, now: u64) -> AppView
    decreases channels.len(),
{
    if channels.len() == 0 {
        s
    } else {
        on_channel(on_channels(s, channels.drop_last(), now), channels.last(), now)
    }
}

/// The first entry of the roster with an id; the roster's length if none.
pub open spec fn roster_index(roster: Seq<AgentView>, id: Seq<char>) -> int
    decreases roster.len(),
{
    if roster.len() == 0 || roster[0].id == id {
        0
    } else {
        1 + roster_index(roster.drop_first(), id)
    }
}

/// The roster with the display name of an id set, if it is there.
pub open spec fn renamed(roster: Seq<AgentView>, id: Seq<char>, display: Seq<char>) -> Seq<
    AgentView,
> {
    let i = roster_index(roster, id);
    if i < roster.len() {
        roster.update(i, AgentView { display, ..roster[i] })
    } else {
        roster
    }
}

/// The roster with one agent of a list under its persona.
pub open spec fn with_persona(roster: Seq<AgentView>, info: AgentInfoView) -> Seq<AgentView> {
    if in_roster(roster, info.id) {
        renamed(roster, info.id, info.shown_with_emoji())
    } else {
        roster.push(
            AgentView { id: info.id, display: info.shown_with_emoji(), kind: AgentKind::Main },
        )
    }
}

/// The roster with the agents of a list.
pub open spec fn with_personas(roster: Seq<AgentView>, agents: Seq<AgentInfoView>) -> Seq<
    AgentView,
>
    decreases agents.len(),
{
    if agents.len() == 0 {
        roster
    } else {
        with_persona(with_personas(roster, agents.drop_last()), agents.last())
    }
}

/// One request for the persona of each agent.
pub open spec fn persona_requests(agents: Seq<AgentInfoView>) -> Seq<EffectView> {
    Seq::new(
        agents.len(),
        |i: int|
            EffectView::Send(GatewayCommandView::FetchAgentIdentity { agent_id: agents[i].id }),
    )
}

/// The agent that is selected after a list has come in: the server's default
/// takes the place of `main` if nothing was opened on this connection.
pub open spec fn selected_after_list(s: AppView, default_id: Seq<char>) -> Seq<char> {
    if !s.history_fetched.contains(s.selected_chat_agent) && s.selected_chat_agent == "main"@
        && default_id.len() > 0 && default_id != "main"@ {
        default_id
    } else {
        s.selected_chat_agent
    }
}

/// The list of agents.
#[verifier::opaque]
pub open spec fn on_agents_list(
    s: AppView,
    default_id: Seq<char>,
    agents: Seq<AgentInfoView>,
) -> AppView {
    let selected = selected_after_list(s, default_id);
    AppView {
        chat_agents: agents,
        roster: with_personas(s.roster, agents),
        selected_chat_agent: selected,
        history_fetched: with_member(s.history_fetched, selected),
        ..s
    }
}

/// What the list of agents leads to: a request for each persona, and one for
/// the history of the selected agent unless it was asked for already.
#[verifier::opaque]
pub open spec fn agents_list_effects(
    s: AppView,
    default_id: Seq<char>,
    agents: Seq<AgentInfoView>,
) -> Seq<EffectView> {
    let selected = selected_after_list(s, default_id);
    if s.history_fetched.contains(selected) {
        persona_requests(agents)
    } else {
        persona_requests(agents).push(
            EffectView::Send(GatewayCommandView::FetchChatHistory { agent_id: selected }),
        )
    }
}

/// The first agent of a list with an id; the list's length if none.
pub open spec fn info_index(agents: Seq<AgentInfoView>, id: Seq<char>) -> int
    decreases agents.len(),
{
    if agents.len() == 0 || agents[0].id == id {
        0
    } else {
        1 + info_index(agents.drop_first(), id)
    }
}

/// An agent with a richer persona: what is given replaces what was known.
pub open spec fn with_identity(
    info: AgentInfoView,
    name: Option<Seq<char>>,
    emoji: Option<Seq<char>>,
) -> AgentInfoView {
    let known = match info.identity {
        Some(i) => i,
        None => AgentIdentityView { name: None, emoji: None, avatar: None, theme: None },
    };
    AgentInfoView {
        identity: Some(
            AgentIdentityView {
                name: newer(known.name, name),
                emoji: newer(known.emoji, emoji),
                ..known
            },
        ),
        ..info
    }
}

/// A richer persona for one agent, if the agent is known.
#[verifier::opaque]
pub open spec fn on_identity(
    s: AppView,
    id: Seq<char>,
    name: Option<Seq<char>>,
    emoji: Option<Seq<char>>,
) -> AppView {
    let i = info_index(s.chat_agents, id);
    if i < s.chat_agents.len() {
        let info = with_identity(s.chat_agents[i], name, emoji);
        AppView {
            chat_agents: s.chat_agents.update(i, info),
            roster: renamed(s.roster, id, info.shown_with_emoji()),
            ..s
        }
    } else {
        s
    }
}

/// Whether the operator is looking at the chat with an agent.
pub open spec fn watching(s: AppView, id: Seq<char>) -> bool {
    s.nav == NavItem::Chat && s.selected_chat_agent == id
}

/// How many replies of an agent are unread.
pub open spec fn unread_of(s: AppView, id: Seq<char>) -> usize {
    match lookup(s.unread, id) {
        Some(n) => n,
        None => 0,
    }
}

/// The bubbles with one more, unless it would be empty.
pub open spec fn with_bubble(
    bubbles: Seq<ThoughtBubbleView>,
    id: Seq<char>,
    text: Seq<char>,
    kind: BubbleKind,
    now: u64,
) -> Seq<ThoughtBubbleView> {
    if text.len() == 0 {
        bubbles
    } else {
        bubbles.push(ThoughtBubbleView { agent: id, text, born: now, kind })
    }
}

/// What an agent said: the full text goes into its log, a snippet into a
/// bubble; it counts as unread unless the operator is looking.
#[verifier::opaque]
pub open spec fn on_agent_message(s: AppView, id: Seq<char>, text: Seq<char>, c: Clock) -> AppView {
    AppView {
        last_poll: Some(c.now_ms),
        roster: with_agent(s.roster, id, AgentKind::Main),
        chat_activities: removed(s.chat_activities, id),
        unread: if watching(s, id) {
            s.unread
        } else {
            put(s.unread, id, (unread_of(s, id) + 1) as usize)
        },
        chat_logs: with_entry(
            s.chat_logs,
            id,
            ChatMessageView { role: ChatRole::Assistant, text, at: c.wall_secs },
        ),
        bubbles: with_bubble(
            s.bubbles,
            id,
            bubble_snippet(text, BUBBLE_MAX as int),
            BubbleKind::Message,
            c.now_ms,
        ),
        ..s
    }
}

/// The tool that a tool bubble names.
pub open spec fn tool_of(snippet: Seq<char>) -> Seq<char> {
    if has_prefix(snippet, "⚙ "@) {
        snippet.skip("⚙ "@.len() as int)
    } else {
        snippet
    }
}

/// A tool call.
#[verifier::opaque]
pub open spec fn on_tool(s: AppView, id: Seq<char>, text: Seq<char>, now: u64) -> AppView {
    let snippet = bubble_snippet(text, BUBBLE_MAX as int);
    let tool = tool_of(snippet);
    AppView {
        last_poll: Some(now),
        bubbles: with_bubble(s.bubbles, id, snippet, BubbleKind::Tool, now),
        chat_activities: if tool.len() == 0 {
            s.chat_activities
        } else {
            put(
                s.chat_activities,
                id,
                ChatActivityStateView { kind: ChatActivityView::Tool(tool), since: now },
            )
        },
        ..s
    }
}

/// The status that an activity stands for.
pub open spec fn status_of_activity(kind: ActivityKind) -> AgentStatus {
    match kind {
        ActivityKind::Thinking => AgentStatus::Running,
        ActivityKind::ToolCalling => AgentStatus::Running,
        ActivityKind::Errored => AgentStatus::Error,
        ActivityKind::Idle => AgentStatus::Healthy,
    }
}

/// Whether an agent is shown to be using a tool.
pub open spec fn uses_tool(
    activities: Seq<(Seq<char>, ChatActivityStateView)>,
    id: Seq<char>,
) -> bool {
    lookup(activities, id) matches Some(a) && a.kind is Tool
}

/// An agent's activity. A tool that is shown is not replaced by the mere news
/// that the agent is at work; an error or the end of the work clears it.
#[verifier::opaque]
pub open spec fn on_activity(s: AppView, id: Seq<char>, kind: ActivityKind, now: u64) -> AppView {
    let noted = with_status(AppView { last_poll: Some(now), ..s }, id, status_of_activity(kind), now);
    AppView {
        chat_activities: match kind {
            ActivityKind::Errored => removed(s.chat_activities, id),
            ActivityKind::Idle => removed(s.chat_activities, id),
            _ => if uses_tool(s.chat_activities, id) {
                s.chat_activities
            } else {
                put(
                    s.chat_activities,
                    id,
                    ChatActivityStateView { kind: ChatActivityView::Thinking, since: now },
                )
            },
        },
        ..noted
    }
}

/// New log lines. A log that started over drops what was there.
#[verifier::opaque]
pub open spec fn on_log_tail(s: AppView, tail: LogTailPayloadView) -> AppView {
    AppView {
        log_lines: capped_extend(
            if tail.reset {
                Seq::empty()
            } else {
                s.log_lines
            },
            classified_all(tail.lines),
            LOG_BUFFER_MAX as nat,
        ),
        ..s
    }
}

/// Something was heard of the gateway.
#[verifier::opaque]
pub open spec fn on_heard(s: AppView, now: u64) -> AppView {
    AppView { last_poll: Some(now), ..s }
}

/// The main agent's state.
#[verifier::opaque]
pub open spec fn on_main_agent(s: AppView, main: MainAgentView, now: u64) -> AppView {
    with_status(
        AppView { active_model: newer(s.active_model, main.model), ..s },
        main.id,
        status_of_main(main),
        now,
    )
}

/// An agent stayed quiet: it is not at work any more.
#[verifier::opaque]
pub open spec fn on_silent_turn(s: AppView, id: Seq<char>, now: u64) -> AppView {
    AppView { chat_activities: removed(s.chat_activities, id), ..on_heard(s, now) }
}

/// The history of an agent's main session.
#[verifier::opaque]
pub open spec fn on_chat_history(s: AppView, id: Seq<char>, m: Seq<ChatMessageView>) -> AppView {
    AppView { chat_logs: with_history(s.chat_logs, id, m), ..s }
}

/// The history of a session.
#[verifier::opaque]
pub open spec fn on_session_history(
    s: AppView,
    key: Seq<char>,
    m: Seq<ChatMessageView>,
) -> AppView {
    AppView { session_transcripts: with_history(s.session_transcripts, key, m), ..s }
}

/// The token usage of a session.
#[verifier::opaque]
pub open spec fn on_usage(
    s: AppView,
    key: Seq<char>,
    points: Seq<SessionUsagePointView>,
) -> AppView {
    AppView { session_usage: put(s.session_usage, key, points), ..s }
}

/// The metadata of a session.
#[verifier::opaque]
pub open spec fn on_session_info(s: AppView, info: SessionInfoView) -> AppView {
    AppView { sessions: put(s.sessions, info.key, info), ..s }
}

/// A pair request, or the end of one.
#[verifier::opaque]
pub open spec fn on_pairing(s: AppView, req: Option<PairRequestView>) -> AppView {
    AppView { pending_pair_request: req, ..s }
}

/// An approval is wanted.
#[verifier::opaque]
pub open spec fn on_approval(s: AppView, p: ApprovalEventPayloadView, now: u64) -> AppView {
    AppView {
        notifier: s.notifier.after_approval(p),
        pending_approvals: put(s.pending_approvals, approval_key(p), p),
        ..on_heard(s, now)
    }
}

/// An approval was resolved; all of them when it is not said which.
#[verifier::opaque]
pub open spec fn on_resolution(s: AppView, id: Option<Seq<char>>, now: u64) -> AppView {
    AppView {
        notifier: s.notifier.after_resolution(id),
        pending_approvals: match id {
            Some(i) => removed(s.pending_approvals, i),
            None => Seq::empty(),
        },
        ..on_heard(s, now)
    }
}

/// An update is available, or none any more.
#[verifier::opaque]
pub open spec fn on_update(s: AppView, update: Option<GatewayUpdateView>) -> AppView {
    AppView {
        notifier: match update {
            Some(u) => s.notifier.after_update(u),
            None => s.notifier,
        },
        gateway_update: update,
        ..s
    }
}

/// What an event does to the state.
#[verifier::opaque]
pub open spec fn on_event(s: AppView, e: WsEventView, c: Clock) -> AppView {
    let now = c.now_ms;
    match e {
        WsEventView::Connected => on_connected(s),
        WsEventView::Disconnected(reason) => on_disconnected(s, reason),
        WsEventView::CronSnapshot(crons) => on_crons(on_heard(s, now), crons, now),
        WsEventView::CronDelta(cron) => on_cron_delta(s, cron, now),
        WsEventView::ChannelSnapshot(channels) => on_channels(on_heard(s, now), channels, now),
        WsEventView::MainAgent(main) => on_main_agent(s, main, now),
        WsEventView::AgentsList { default_id, agents } => on_agents_list(s, default_id, agents),
        WsEventView::AgentIdentity { agent_id, name, emoji } => on_identity(
            s,
            agent_id,
            name,
            emoji,
        ),
        WsEventView::AgentMessage { agent_id, text } => on_agent_message(s, agent_id, text, c),
        WsEventView::AgentInboundUserMessage { .. } => on_heard(s, now),
        WsEventView::AgentSilentTurn { agent_id } => on_silent_turn(s, agent_id, now),
        WsEventView::ChatHistory { agent_id, messages } => on_chat_history(s, agent_id, messages),
        WsEventView::SessionHistory { session_key, messages } => on_session_history(
            s,
            session_key,
            messages,
        ),
        WsEventView::SessionUsageTimeseries { session_key, points } => on_usage(
            s,
            session_key,
            points,
        ),
        WsEventView::AgentToolInvoked { agent_id, text } => on_tool(s, agent_id, text, now),
        WsEventView::AgentActivity { agent_id, kind } => on_activity(s, agent_id, kind, now),
        WsEventView::SessionsChanged => on_heard(s, now),
        WsEventView::SessionUsage(info) => on_session_info(s, info),
        WsEventView::PairRequestPending(req) => on_pairing(s, req),
        WsEventView::ApprovalRequested(p) => on_approval(s, p, now),
        WsEventView::ApprovalResolved { id } => on_resolution(s, id, now),
        WsEventView::UpdateAvailable(update) => on_update(s, update),
        WsEventView::LogTail(tail) => on_log_tail(s, tail),
    }
}

/// The redraws that a session's new usage leads to.
#[verifier::opaque]
pub open spec fn usage_effects(s: AppView, key: Seq<char>) -> Seq<EffectView> {
    if s.active_session_key == Some(key) {
        seq![EffectView::RedrawUsageRow(key), EffectView::RedrawUsage]
    } else {
        seq![EffectView::RedrawUsageRow(key)]
    }
}

/// What an event leads to.
#[verifier::opaque]
pub open spec fn event_effects(s: AppView, e: WsEventView, c: Clock) -> Seq<EffectView> {
    let now = c.now_ms;
    match e {
        WsEventView::CronSnapshot(crons) => crons_raise(
            on_heard(s, now),
            crons,
            now,
        ),
        WsEventView::CronDelta(cron) => raised(
            s.notifier.raises_cron(cron.name, cron_after_delta(s, cron)),
        ),
        WsEventView::AgentsList { default_id, agents } => agents_list_effects(
            s,
            default_id,
            agents,
        ),
        WsEventView::SessionUsageTimeseries { session_key, .. } => usage_effects(s, session_key),
        WsEventView::ApprovalRequested(p) => raised(s.notifier.raises_approval(p)),
        WsEventView::UpdateAvailable(Some(u)) => raised(s.notifier.raises_update(u)),
        _ => Seq::empty(),
    }
}

// ---------------------------------------------------------------------
// Messages from the operator
// ---------------------------------------------------------------------

/// A tab was clicked. Going to the chat marks the selected agent as read.
#[verifier::opaque]
pub open spec fn on_nav(s: AppView, item: NavItem) -> (AppView, Seq<EffectView>) {
    let moved = AppView { nav: item, ..s };
    (
        if item == NavItem::Chat {
            AppView { unread: removed(s.unread, s.selected_chat_agent), ..moved }
        } else {
            moved
        },
        if s.nav == item {
            Seq::empty()
        } else {
            seq![EffectView::SaveState(snapshot(moved))]
        },
    )
}

/// An agent was picked for the chat. Its draft starts fresh, it counts as
/// read, and its history is asked for once per connection.
#[verifier::opaque]
pub open spec fn on_select_agent(s: AppView, id: Seq<char>) -> (AppView, Seq<EffectView>) {
    if s.selected_chat_agent == id {
        (s, Seq::empty())
    } else {
        let picked = AppView {
            selected_chat_agent: id,
            chat_input: Seq::empty(),
            unread: removed(s.unread, id),
            history_fetched: with_member(s.history_fetched, id),
            ..s
        };
        let save = EffectView::SaveState(snapshot(picked));
        (
            picked,
            if s.history_fetched.contains(id) {
                seq![save]
            } else {
                seq![
                    EffectView::Send(GatewayCommandView::FetchChatHistory { agent_id: id }),
                    save,
                ]
            },
        )
    }
}

/// A session was opened. Its history and usage are asked for once per
/// connection.
#[verifier::opaque]
pub open spec fn on_select_session(s: AppView, key: Seq<char>) -> (AppView, Seq<EffectView>) {
    let opened = AppView { active_session_key: Some(key), ..s };
    let shown = if s.active_session_key == Some(key) {
        Seq::empty()
    } else {
        seq![EffectView::RedrawUsage, EffectView::SaveState(snapshot(opened))]
    };
    let asked = if s.session_history_fetched.contains(key) {
        Seq::empty()
    } else {
        seq![
            EffectView::Send(GatewayCommandView::FetchSessionHistory { session_key: key }),
            EffectView::Send(GatewayCommandView::FetchSessionUsage { session_key: key }),
        ]
    };
    (
        AppView {
            session_history_fetched: with_member(s.session_history_fetched, key),
            ..opened
        },
        shown + asked,
    )
}

/// A prompt was sent, under an idempotency key: it goes into the log of the
/// selected agent, which is shown at work.
#[verifier::opaque]
pub open spec fn on_send_chat(s: AppView, key: Seq<char>, c: Clock) -> (AppView, Seq<EffectView>) {
    let prompt = trimmed(s.chat_input);
    let target = s.selected_chat_agent;
    if prompt.len() == 0 {
        (s, Seq::empty())
    } else {
        let said = AppView {
            chat_input: Seq::empty(),
            bubbles: with_bubble(
                s.bubbles,
                target,
                bubble_snippet(prompt, BUBBLE_MAX as int),
                BubbleKind::Outgoing,
                c.now_ms,
            ),
            chat_logs: with_entry(
                s.chat_logs,
                target,
                ChatMessageView { role: ChatRole::User, text: prompt, at: c.wall_secs },
            ),
            chat_activities: put(
                s.chat_activities,
                target,
                ChatActivityStateView { kind: ChatActivityView::Sending, since: c.now_ms },
            ),
            ..s
        };
        (
            with_status(said, target, AgentStatus::Running, c.now_ms),
            seq![
                EffectView::RedrawScene,
                EffectView::Send(
                    GatewayCommandView::SendChat {
                        agent_id: target,
                        message: prompt,
                        idempotency_key: key,
                    },
                ),
            ],
        )
    }
}

/// A cron is to run now; nothing happens without its UUID.
#[verifier::opaque]
pub open spec fn on_run_cron(s: AppView, id: Seq<char>) -> (AppView, Seq<EffectView>) {
    (
        s,
        match lookup(s.cron_ids, id) {
            Some(job_id) => seq![EffectView::Send(GatewayCommandView::RunCron { job_id })],
            None => Seq::empty(),
        },
    )
}

/// Whether a reset is armed.
pub open spec fn is_armed(s: AppView, id: Seq<char>, now: u64) -> bool {
    lookup(s.pending_resets, id) matches Some(t) && elapsed(now, t) < RESET_CONFIRM_WINDOW_MS
}

/// A reset was clicked: the second click in time resets, any other arms.
#[verifier::opaque]
pub open spec fn on_reset(s: AppView, id: Seq<char>, now: u64) -> (AppView, Seq<EffectView>) {
    if is_armed(s, id, now) {
        (
            AppView { pending_resets: removed(s.pending_resets, id), ..s },
            seq![
                EffectView::Send(
                    GatewayCommandView::ResetSession { session_key: main_session_key(id) },
                ),
            ],
        )
    } else {
        (AppView { pending_resets: put(s.pending_resets, id, now), ..s }, Seq::empty())
    }
}

/// The kinds of the roster's entries by id.
pub open spec fn kinds_of(roster: Seq<AgentView>) -> Seq<(Seq<char>, AgentKind)>
    decreases roster.len(),
{
    if roster.len() == 0 {
        Seq::empty()
    } else {
        put(kinds_of(roster.drop_last()), roster.last().id, roster.last().kind)
    }
}

/// The catalog of the palette.
pub open spec fn palette_catalog(s: AppView) -> Seq<PaletteEntryView> {
    catalog(s.chat_agents, s.cron_details, s.cron_ids, s.sessions, kinds_of(s.roster))
}

/// The palette's rows in the order in which they show.
pub open spec fn palette_rows(s: AppView) -> Seq<(usize, u32)> {
    ranking(palette_catalog(s), s.palette_input)
}

/// The palette closed, with nothing typed.
#[verifier::opaque]
pub open spec fn palette_closed(s: AppView) -> AppView {
    AppView { palette_open: false, palette_input: Seq::empty(), palette_selected: 0, ..s }
}

/// What an action of the palette does.
#[verifier::opaque]
pub open spec fn on_action(s: AppView, a: PaletteActionView, now: u64) -> (
    AppView,
    Seq<EffectView>,
) {
    match a {
        PaletteActionView::Nav(item) => on_nav(s, item),
        PaletteActionView::RunCron(id) => on_run_cron(s, id),
        PaletteActionView::ChatWithAgent(id) => {
            let first = on_nav(s, NavItem::Chat);
            let second = on_select_agent(first.0, id);
            (second.0, first.1 + second.1)
        },
        PaletteActionView::OpenSession(key) => {
            let first = on_nav(s, NavItem::Sessions);
            let second = on_select_session(first.0, key);
            (second.0, first.1 + second.1)
        },
        PaletteActionView::ResetMainSession(id) => on_reset(s, id, now),
    }
}

/// The row at `idx` is carried out and the palette closed; a row that is not
/// there only closes it.
#[verifier::opaque]
pub open spec fn on_execute(s: AppView, idx: int, now: u64) -> (AppView, Seq<EffectView>) {
    let rows = palette_rows(s);
    if idx < rows.len() {
        on_action(palette_closed(s), palette_catalog(s)[rows[idx].0 as int].action, now)
    } else {
        (AppView { palette_open: false, ..s }, Seq::empty())
    }
}

/// The palette's input changed: the selection stays within the rows.
#[verifier::opaque]
pub open spec fn on_palette_input(s: AppView, value: Seq<char>) -> AppView {
    let typed = AppView { palette_input: value, ..s };
    let n = palette_rows(typed).len();
    AppView {
        palette_selected: if n == 0 {
            0
        } else if typed.palette_selected >= n {
            (n - 1) as usize
        } else {
            typed.palette_selected
        },
        ..typed
    }
}

/// The selection moved; at either end it goes on at the other.
#[verifier::opaque]
pub open spec fn on_palette_move(s: AppView, delta: i32) -> AppView {
    let n = palette_rows(s).len();
    if !s.palette_open || n == 0 {
        s
    } else {
        AppView { palette_selected: ((s.palette_selected + delta) % (n as int)) as usize, ..s }
    }
}

/// A pending approval was decided: it goes at once, and the gateway is told.
#[verifier::opaque]
pub open spec fn on_resolve_approval(s: AppView, id: Seq<char>) -> AppView {
    AppView { pending_approvals: removed(s.pending_approvals, id), ..s }
}

/// A new attempt to connect was asked for.
#[verifier::opaque]
pub open spec fn on_reconnect(s: AppView) -> AppView {
    AppView { pending_pair_request: None, ..s }
}

/// The chat's draft changed.
#[verifier::opaque]
pub open spec fn on_chat_input(s: AppView, value: Seq<char>) -> AppView {
    AppView { chat_input: value, ..s }
}

/// The log's filters changed.
#[verifier::opaque]
pub open spec fn on_log_filters(s: AppView, f: LogFiltersView) -> AppView {
    AppView { log_filters: f, ..s }
}

/// New log lines follow, or stay out of view.
#[verifier::opaque]
pub open spec fn on_log_tailing(s: AppView, on: bool) -> AppView {
    AppView { logs_auto_tail: on, ..s }
}

/// An agent's error was unfolded or folded.
#[verifier::opaque]
pub open spec fn on_toggle_error(s: AppView, id: Seq<char>) -> AppView {
    AppView {
        expanded_errors: if s.expanded_errors.contains(id) {
            without_member(s.expanded_errors, id)
        } else {
            with_member(s.expanded_errors, id)
        },
        ..s
    }
}

/// The palette opened, with nothing selected but the first row.
#[verifier::opaque]
pub open spec fn palette_opened(s: AppView) -> AppView {
    AppView { palette_open: true, palette_selected: 0, ..s }
}

/// The form of the Settings tab changed.
#[verifier::opaque]
pub open spec fn on_form(s: AppView, f: SettingsFormView) -> AppView {
    AppView { settings_form: f, ..s }
}

/// The settings were saved. A typed token is handed to the store; an empty
/// field leaves the stored one alone.
#[verifier::opaque]
pub open spec fn on_settings_save(s: AppView) -> (AppView, Seq<EffectView>) {
    let form = s.settings_form;
    let saved = AppView {
        settings: crate::ui_state::SettingsView {
            gateway_url: given(Some(form.gateway_url)),
            mode: if form.mode == "ws"@ || form.mode == "mock"@ {
                Some(form.mode)
            } else {
                None
            },
        },
        ..s
    };
    let token = trimmed(form.token);
    (
        AppView {
            save_nonce: if s.save_nonce == u64::MAX {
                0
            } else {
                (s.save_nonce + 1) as u64
            },
            connection_status: if first_run(saved.launch, saved.settings.gateway_url) {
                ConnectionStatusView::Untested
            } else {
                ConnectionStatusView::Connecting
            },
            ..saved
        },
        if token.len() == 0 {
            seq![EffectView::SaveState(snapshot(saved))]
        } else {
            seq![EffectView::SaveState(snapshot(saved)), EffectView::StoreToken(token)]
        },
    )
}

/// The typed token has been stored: its field is cleared.
#[verifier::opaque]
pub open spec fn on_token_saved(s: AppView, token: Option<Seq<char>>) -> AppView {
    AppView {
        token_present: true,
        cached_token: token,
        settings_form: SettingsFormView { token: Seq::empty(), ..s.settings_form },
        ..s
    }
}

/// The token is to be cleared, everywhere.
#[verifier::opaque]
pub open spec fn on_clear_token(s: AppView) -> AppView {
    AppView {
        token_present: false,
        cached_token: None,
        settings_form: SettingsFormView { token: Seq::empty(), ..s.settings_form },
        ..s
    }
}

/// The window changed its size; its position stays.
#[verifier::opaque]
pub open spec fn on_resized(s: AppView, width: Seq<char>, height: Seq<char>, now: u64) -> AppView {
    AppView {
        pending_window: Some(
            WindowStateView {
                width,
                height,
                position: match s.pending_window {
                    Some(w) => w.position,
                    None => None,
                },
            },
        ),
        pending_window_since: Some(now),
        ..s
    }
}

/// The window moved; its size stays, or is that of a first launch.
#[verifier::opaque]
pub open spec fn on_moved(s: AppView, x: Seq<char>, y: Seq<char>, now: u64) -> AppView {
    AppView {
        pending_window: Some(
            match s.pending_window {
                Some(w) => WindowStateView { position: Some((x, y)), ..w },
                None => WindowStateView {
                    width: "1280.0"@,
                    height: "800.0"@,
                    position: Some((x, y)),
                },
            },
        ),
        pending_window_since: Some(now),
        ..s
    }
}

// ---------------------------------------------------------------------
// Time
// ---------------------------------------------------------------------

/// The status of an agent; unknown until it is reported.
pub open spec fn status_in(statuses: Seq<(Seq<char>, AgentStatus)>, id: Seq<char>) -> AgentStatus {
    match lookup(statuses, id) {
        Some(s) => s,
        None => AgentStatus::Unknown,
    }
}

/// Whether a sprite moves: an agent runs, or changed its status just now.
pub open spec fn sprite_animates(s: AppView, now: u64) -> bool {
    ||| exists|i: int|
        0 <= i < s.statuses.len() && (#[trigger] s.statuses[i]).1 == AgentStatus::Running
    ||| exists|i: int|
        0 <= i < s.transition_moments.len() && elapsed(now, (#[trigger] s.transition_moments[i]).1)
            < TRANSITION_FLASH_MS
}

/// Whether a roster entry of some kinds is not disabled.
pub open spec fn awake(s: AppView, a: AgentView, channels: bool) -> bool {
    (a.kind == AgentKind::Channel) == channels && status_in(s.statuses, a.id)
        != AgentStatus::Disabled
}

/// Whether an agent or a cron walks in place.
pub open spec fn sprite_idles(s: AppView) -> bool {
    exists|i: int| 0 <= i < s.roster.len() && awake(s, #[trigger] s.roster[i], false)
}

/// Whether a channel is on.
pub open spec fn channel_is_on(s: AppView) -> bool {
    exists|i: int| 0 <= i < s.roster.len() && awake(s, #[trigger] s.roster[i], true)
}

/// The entries of `m` whose time is less than `limit` ago.
pub open spec fn recent(m: Seq<(Seq<char>, u64)>, now: u64, limit: u64) -> Seq<(Seq<char>, u64)> {
    m.filter(|e: (Seq<char>, u64)| elapsed(now, e.1) < limit)
}

/// The activities that are less than `limit` old.
pub open spec fn recent_activities(
    m: Seq<(Seq<char>, ChatActivityStateView)>,
    now: u64,
    limit: u64,
) -> Seq<(Seq<char>, ChatActivityStateView)> {
    m.filter(|e: (Seq<char>, ChatActivityStateView)| elapsed(now, e.1.since) < limit)
}

/// The bubbles that still show.
pub open spec fn living(b: Seq<ThoughtBubbleView>, now: u64) -> Seq<ThoughtBubbleView> {
    b.filter(|x: ThoughtBubbleView| elapsed(now, x.born) < TTL_MS)
}

/// Whether the window has rested long enough for its geometry to be saved.
pub open spec fn window_rests(s: AppView, now: u64) -> bool {
    s.pending_window_since matches Some(t) && elapsed(now, t) >= WINDOW_SAVE_DEBOUNCE_MS
}

/// The state after a tick: what has run out is dropped.
#[verifier::opaque]
pub open spec fn on_tick(s: AppView, now: u64) -> AppView {
    AppView {
        bubbles: living(s.bubbles, now),
        transition_moments: recent(s.transition_moments, now, TRANSITION_FLASH_MS),
        pending_window_since: if window_rests(s, now) {
            None
        } else {
            s.pending_window_since
        },
        chat_activities: recent_activities(s.chat_activities, now, CHAT_ACTIVITY_TIMEOUT_MS),
        pending_resets: recent(s.pending_resets, now, RESET_CONFIRM_WINDOW_MS),
        ..s
    }
}

/// Whether the scene has to be drawn again after a tick.
pub open spec fn tick_redraws(before: AppView, now: u64) -> bool {
    let s = on_tick(before, now);
    ||| s.bubbles.len() != before.bubbles.len()
    ||| s.bubbles.len() > 0
    ||| sprite_animates(s, now)
    ||| sprite_idles(s)
    ||| channel_is_on(s)
}

/// What a tick leads to.
#[verifier::opaque]
pub open spec fn tick_effects(s: AppView, now: u64) -> Seq<EffectView> {
    let saved = if window_rests(s, now) {
        seq![EffectView::SaveState(snapshot(s))]
    } else {
        Seq::empty()
    };
    if tick_redraws(s, now) {
        saved.push(EffectView::RedrawScene)
    } else {
        saved
    }
}

// ---------------------------------------------------------------------
// Everything
// ---------------------------------------------------------------------

/// What a message does to the state, and what it leads to. `key` is the
/// idempotency key of a prompt that it sends.
pub open spec fn step(s: AppView, m: MessageView, c: Clock, key: Seq<char>) -> (
    AppView,
    Seq<EffectView>,
) {
    let now = c.now_ms;
    match m {
        MessageView::NavClicked(item) => on_nav(s, item),
        MessageView::Ws(e) => (
            on_event(s, e, c),
            event_effects(s, e, c).push(EffectView::RedrawScene),
        ),
        MessageView::Tick => (on_tick(s, now), tick_effects(s, now)),
        MessageView::ResolveApproval { id, decision } => (
            on_resolve_approval(s, id),
            seq![EffectView::Send(GatewayCommandView::ResolveApproval { id, decision })],
        ),
        MessageView::CopyToClipboard(v) => (s, seq![EffectView::Copy(v)]),
        MessageView::InputDiscard(_) => (s, Seq::empty()),
        MessageView::RunCron(id) => on_run_cron(s, id),
        MessageView::RequestReconnect => (
            on_reconnect(s),
            seq![EffectView::Send(GatewayCommandView::Reconnect)],
        ),
        MessageView::ChatInputChanged(v) => (on_chat_input(s, v), Seq::empty()),
        MessageView::SendChat => on_send_chat(s, key, c),
        MessageView::SelectChatAgent(id) => on_select_agent(s, id),
        MessageView::LogsToggleSeverity(sev) => (
            on_log_filters(s, s.log_filters.toggled(sev)),
            Seq::empty(),
        ),
        MessageView::LogsSearchChanged(v) => (
            on_log_filters(s, LogFiltersView { search: v, ..s.log_filters }),
            Seq::empty(),
        ),
        MessageView::LogsScrolled(pinned) => (on_log_tailing(s, pinned), Seq::empty()),
        MessageView::LogsJumpToLatest => (
            on_log_tailing(s, true),
            seq![EffectView::SnapLogsToEnd],
        ),
        MessageView::ResetMainSession(id) => on_reset(s, id, now),
        MessageView::ToggleAgentError(id) => (on_toggle_error(s, id), Seq::empty()),
        MessageView::SessionSelected(key) => on_select_session(s, key),
        MessageView::PaletteToggle => if s.palette_open {
            (palette_closed(s), Seq::empty())
        } else {
            (palette_opened(s), seq![EffectView::FocusPalette])
        },
        MessageView::PaletteClose => (palette_closed(s), Seq::empty()),
        MessageView::PaletteInputChanged(v) => (on_palette_input(s, v), Seq::empty()),
        MessageView::PaletteMove(delta) => (on_palette_move(s, delta), Seq::empty()),
        MessageView::PaletteExecute => on_execute(s, s.palette_selected as int, now),
        MessageView::PaletteSelectAndExecute(idx) => on_execute(s, idx as int, now),
        MessageView::WindowResized(w, h) => (on_resized(s, w, h, now), Seq::empty()),
        MessageView::WindowMoved(x, y) => (on_moved(s, x, y, now), Seq::empty()),
        MessageView::SettingsGatewayUrlChanged(v) => (
            on_form(s, SettingsFormView { gateway_url: v, ..s.settings_form }),
            Seq::empty(),
        ),
        MessageView::SettingsModeSelected(v) => (
            on_form(s, SettingsFormView { mode: v, ..s.settings_form }),
            Seq::empty(),
        ),
        MessageView::SettingsTokenChanged(v) => (
            on_form(s, SettingsFormView { token: v, ..s.settings_form }),
            Seq::empty(),
        ),
        MessageView::SettingsSave => on_settings_save(s),
        MessageView::SettingsClearToken => (on_clear_token(s), seq![EffectView::PurgeToken]),
        MessageView::TokenSaved(token) => (on_token_saved(s, token), Seq::empty()),
    }
}

} // verus!
