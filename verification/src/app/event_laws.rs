//! What each of the gateway's events does, said of every state.
use vstd::prelude::*;

use crate::app::model::{
    agents_list_effects, cron_after_delta, event_effects, in_roster, info_index, log_of,
    on_activity, on_agent_message, on_agents_list, on_approval, on_channel, on_channels,
    on_chat_history, on_connected, on_cron, on_cron_delta, on_crons, on_disconnected, on_event,
    on_heard, on_identity, on_log_tail, on_main_agent, on_pairing, on_resolution,
    on_session_history, on_session_info, on_silent_turn, on_tool, on_update, on_usage,
    usage_effects, with_agent, with_status,
};
use crate::app::state::{
    AppView, ChatActivityStateView, ChatActivityView, Clock, ConnectionStatusView, EffectView,
    NavItem,
};
use crate::domain::agent::{AgentKind, AgentView};
use crate::domain::status::AgentStatus;
use crate::keyed::{distinct_keys, lookup, put_law, removed_law, without_member_law};
use crate::logs::{classified_all, LogLineView};
use crate::net::commands::GatewayCommandView;
use crate::net::events::{ActivityKind, GatewayUpdateView, PairRequestView, WsEventView};
use crate::net::rpc::{
    AgentInfoView, ApprovalEventPayloadView, ChannelView, CronJobView, CronStateView,
    LogTailPayloadView, MainAgentView, SessionInfoView, SessionUsagePointView,
};
use crate::scene::thought_bubble::{transition_words, BubbleKind, ThoughtBubbleView};
use crate::text::trimmed;
use crate::ui::chat_view::{ChatMessageView, ChatRole};

verus! {

// ---------------------------------------------------------------------
// Approvals
// ---------------------------------------------------------------------

/// A settled approval is no longer pending and every other one still is, as
/// it was; when it is not said which one was settled, none is pending.
pub proof fn resolution_takes_one_approval(
    s: AppView,
    id: Seq<char>,
    other: Seq<char>,
    c: Clock,
)
    requires
        distinct_keys(s.pending_approvals),
        s.notifier.approvals_seen.no_duplicates(),
        other != id,
    ensures
        ({
            let t = on_event(s, WsEventView::ApprovalResolved { id: Some(id) }, c);
            &&& !t.notifier.approvals_seen.contains(id)
            &&& t.notifier.approvals_seen.contains(other) == s.notifier.approvals_seen.contains(
                other,
            )
            &&& lookup(t.pending_approvals, id) is None
            &&& lookup(t.pending_approvals, other) == lookup(s.pending_approvals, other)
            &&& t == AppView {
                pending_approvals: t.pending_approvals,
                notifier: t.notifier,
                last_poll: Some(c.now_ms),
                ..s
            }
        }),
        ({
            let t = on_event(s, WsEventView::ApprovalResolved { id: None }, c);
            &&& t.pending_approvals.len() == 0
            &&& t == AppView {
                pending_approvals: t.pending_approvals,
                notifier: t.notifier,
                last_poll: Some(c.now_ms),
                ..s
            }
        }),
        event_effects(s, WsEventView::ApprovalResolved { id: Some(id) }, c).len() == 0,
        event_effects(s, WsEventView::ApprovalResolved { id: None }, c).len() == 0,
{
    reveal(on_event);
    reveal(on_resolution);
    reveal(on_heard);
    reveal(event_effects);
    removed_law(s.pending_approvals, id, other);
    without_member_law(s.notifier.approvals_seen, id, other);
}

/// The key under which an approval waits: its id; without one, its tool and
/// what it is about.
pub open spec fn waits_under(p: ApprovalEventPayloadView, key: Seq<char>) -> bool {
    match p.id {
        Some(id) => key == id,
        None => match (p.tool, p.summary) {
            (Some(tool), Some(summary)) => key == tool + ":"@ + summary,
            (Some(tool), None) => key == tool + ":"@,
            (None, Some(summary)) => key == "?:"@ + summary,
            (None, None) => key == "?:"@,
        },
    }
}

/// A request for approval is pending from then on, as it came, beside those
/// that were; the operator is notified of it, by its tool and what it is
/// about, unless that has been done.
pub proof fn request_is_pending(
    s: AppView,
    p: ApprovalEventPayloadView,
    key: Seq<char>,
    other: Seq<char>,
    c: Clock,
)
    requires
        waits_under(p, key),
        other != key,
    ensures
        ({
            let e = WsEventView::ApprovalRequested(p);
            let t = on_event(s, e, c);
            let effects = event_effects(s, e, c);
            &&& lookup(t.pending_approvals, key) == Some(p)
            &&& lookup(t.pending_approvals, other) == lookup(s.pending_approvals, other)
            &&& t == AppView {
                pending_approvals: t.pending_approvals,
                notifier: t.notifier,
                last_poll: Some(c.now_ms),
                ..s
            }
            &&& t.notifier.approvals_seen.contains(key)
            &&& s.notifier.approvals_seen.contains(key) ==> effects.len() == 0
            &&& !s.notifier.approvals_seen.contains(key) ==> {
                &&& effects.len() == 1
                &&& effects[0] is Notify
                &&& effects[0]->Notify_0.title == "Approval requested"@
                &&& p.tool is Some && (p.summary is None || p.summary->Some_0.len() == 0)
                    ==> effects[0]->Notify_0.body == p.tool->Some_0 + ": "@
                    + "awaiting operator decision"@
                &&& p.tool is Some && p.summary is Some && 0 < p.summary->Some_0.len() && trimmed(
                    p.summary->Some_0,
                ).len() <= 140 ==> effects[0]->Notify_0.body == p.tool->Some_0 + ": "@ + trimmed(
                    p.summary->Some_0,
                )
            }
        }),
{
    reveal(on_event);
    reveal(on_approval);
    reveal(on_heard);
    reveal(event_effects);
    reveal_strlit("");
    reveal_strlit(":");
    reveal_strlit("?");
    reveal_strlit("?:");
    assert("?"@ + ":"@ =~= "?:"@);
    let k = crate::notifications::approval_key(p);
    if p.id is None {
        if p.summary is None {
            assert(":"@ + ""@ =~= ":"@);
            if p.tool is Some {
                assert(p.tool->Some_0 + ":"@ + ""@ =~= p.tool->Some_0 + ":"@);
            } else {
                assert("?"@ + ":"@ + ""@ =~= "?:"@);
            }
        }
    }
    assert(k == key);
    put_law(s.pending_approvals, key, p, other);
    let seen = s.notifier.approvals_seen;
    assert(seen.push(key)[seen.len() as int] == key);
    if let Some(x) = p.summary {
        crate::text::ellipsized_fits(trimmed(x), 140);
        if x.len() == 0 {
            crate::text::trimmed_has_bare_ends(x);
        }
    }
}

// ---------------------------------------------------------------------
// Transcripts
// ---------------------------------------------------------------------

/// A reply ends the log of the agent that spoke, word for word, and no other
/// log; the agent is then no longer at work, and stands in the roster.
pub proof fn reply_ends_its_log(
    s: AppView,
    id: Seq<char>,
    text: Seq<char>,
    c: Clock,
    other: Seq<char>,
)
    requires
        distinct_keys(s.chat_activities),
        other != id,
    ensures
        ({
            let e = WsEventView::AgentMessage { agent_id: id, text };
            let t = on_event(s, e, c);
            let said = ChatMessageView { role: ChatRole::Assistant, text, at: c.wall_secs };
            let before = log_of(s.chat_logs, id);
            let after = log_of(t.chat_logs, id);
            &&& after.last() == said
            &&& before.len() < 500 ==> after == before.push(said)
            &&& before.len() >= 500 ==> after == before.skip(1).push(said)
            &&& lookup(t.chat_logs, other) == lookup(s.chat_logs, other)
            &&& lookup(t.chat_activities, id) is None
            &&& lookup(t.chat_activities, other) == lookup(s.chat_activities, other)
            &&& in_roster(t.roster, id)
            &&& in_roster(s.roster, id) ==> t.roster == s.roster
            &&& t == AppView {
                last_poll: Some(c.now_ms),
                roster: t.roster,
                chat_activities: t.chat_activities,
                unread: t.unread,
                chat_logs: t.chat_logs,
                bubbles: t.bubbles,
                ..s
            }
            &&& event_effects(s, e, c).len() == 0
            &&& t.bubbles == s.bubbles || t.bubbles.drop_last() == s.bubbles && t.bubbles.len()
                == s.bubbles.len() + 1 && t.bubbles.last().agent == id && t.bubbles.last().kind
                == BubbleKind::Message && t.bubbles.last().born == c.now_ms
            &&& crate::bubble_text::bubble_snippet(text, 80).len() > 0 ==> t.bubbles
                != s.bubbles && t.bubbles.last().text == crate::bubble_text::bubble_snippet(
                text,
                80,
            )
        }),
{
    reveal(on_event);
    reveal(on_agent_message);
    reveal(event_effects);
    let said = ChatMessageView { role: ChatRole::Assistant, text, at: c.wall_secs };
    let log = crate::ring::capped_push(log_of(s.chat_logs, id), said, 500);
    put_law(s.chat_logs, id, log, other);
    removed_law(s.chat_activities, id, other);
    joins_roster(s.roster, id, AgentKind::Main);
    let t = on_agent_message(s, id, text, c);
    assert(log_of(s.chat_logs, id).skip(1) =~= log_of(s.chat_logs, id).drop_first() || log_of(
        s.chat_logs,
        id,
    ).len() == 0);
    if t.bubbles.len() != s.bubbles.len() {
        assert(t.bubbles.drop_last() =~= s.bubbles);
    }
}

proof fn joins_roster(roster: Seq<AgentView>, id: Seq<char>, kind: AgentKind)
    ensures
        in_roster(with_agent(roster, id, kind), id),
        in_roster(roster, id) ==> with_agent(roster, id, kind) == roster,
        !in_roster(roster, id) ==> {
            let r = with_agent(roster, id, kind);
            &&& r.len() == roster.len() + 1
            &&& r.drop_last() == roster
            &&& r.last().id == id
            &&& r.last().kind == kind
        },
{
    if !in_roster(roster, id) {
        let r = with_agent(roster, id, kind);
        assert(r[roster.len() as int].id == id);
        assert(r.drop_last() =~= roster);
    }
}

proof fn roster_only_grows(roster: Seq<AgentView>, name: Seq<char>, kind: AgentKind)
    ensures
        forall|id: Seq<char>|
            in_roster(roster, id) ==> #[trigger] in_roster(with_agent(roster, name, kind), id),
{
    let r = with_agent(roster, name, kind);
    assert forall|id: Seq<char>| in_roster(roster, id) implies #[trigger] in_roster(r, id) by {
        let k = choose|k: int| 0 <= k < roster.len() && (#[trigger] roster[k]).id == id;
        assert(r[k].id == id);
    }
}

/// Whoever is heard of for the first time joins the roster at its end, as what
/// it is: a job under its short name, anyone else under its own. Whoever is
/// there already changes nothing.
pub proof fn newcomers_join_at_the_end(
    roster: Seq<AgentView>,
    id: Seq<char>,
    kind: AgentKind,
    rest: Seq<char>,
)
    ensures
        in_roster(roster, id) ==> with_agent(roster, id, kind) == roster,
        !in_roster(roster, id) ==> {
            let r = with_agent(roster, id, kind);
            &&& r.len() == roster.len() + 1
            &&& r.drop_last() == roster
            &&& r.last().id == id
            &&& r.last().kind == kind
            &&& kind != AgentKind::Cron ==> r.last().display == id
            &&& kind == AgentKind::Cron && id == "teamapp-"@ + rest ==> r.last().display == rest
            &&& kind == AgentKind::Cron && id == "openclaw-"@ + rest ==> r.last().display == rest
            &&& kind == AgentKind::Cron && !crate::text::has_prefix(id, "teamapp-"@)
                && !crate::text::has_prefix(id, "openclaw-"@) ==> r.last().display == id
        },
{
    joins_roster(roster, id, kind);
    if id == "teamapp-"@ + rest {
        let n = "teamapp-"@.len() as int;
        assert(id.take(n) =~= "teamapp-"@);
        assert(id.skip(n) =~= rest);
    }
    if id == "openclaw-"@ + rest {
        let n = "openclaw-"@.len() as int;
        reveal_strlit("teamapp-");
        reveal_strlit("openclaw-");
        assert(id.take(n) =~= "openclaw-"@);
        assert(id.skip(n) =~= rest);
        assert(id[0] == 'o');
        assert(id.take("teamapp-"@.len() as int)[0] == 'o');
    }
}

/// A history is the log of its agent from then on, its last five hundred
/// entries where it has more; every other log and every session's transcript
/// stay. The same holds of a session's history and its transcript.
pub proof fn history_replaces_its_log(
    s: AppView,
    id: Seq<char>,
    messages: Seq<ChatMessageView>,
    c: Clock,
    other: Seq<char>,
)
    requires
        other != id,
    ensures
        ({
            let t = on_event(s, WsEventView::ChatHistory { agent_id: id, messages }, c);
            &&& t == AppView { chat_logs: t.chat_logs, ..s }
            &&& lookup(t.chat_logs, other) == lookup(s.chat_logs, other)
            &&& messages.len() <= 500 ==> lookup(t.chat_logs, id) == Some(messages)
            &&& messages.len() > 500 ==> lookup(t.chat_logs, id) == Some(
                messages.skip(messages.len() - 500),
            )
        }),
        ({
            let t = on_event(s, WsEventView::SessionHistory { session_key: id, messages }, c);
            &&& t == AppView { session_transcripts: t.session_transcripts, ..s }
            &&& lookup(t.session_transcripts, other) == lookup(s.session_transcripts, other)
            &&& messages.len() <= 500 ==> lookup(t.session_transcripts, id) == Some(messages)
            &&& messages.len() > 500 ==> lookup(t.session_transcripts, id) == Some(
                messages.skip(messages.len() - 500),
            )
        }),
{
    reveal(on_event);
    reveal(on_chat_history);
    reveal(on_session_history);
    let none = Seq::<ChatMessageView>::empty();
    let log = crate::ring::capped_extend(none, messages, 500);
    crate::ring::capped_extend_keeps_newest(none, messages, 500);
    assert(none + messages =~= messages);
    put_law(s.chat_logs, id, log, other);
    put_law(s.session_transcripts, id, log, other);
}

/// A silent turn ends an agent's work and says nothing; what a user said
/// elsewhere, and that the sessions changed, only shows that the gateway is
/// there.
pub proof fn silence_only_ends_the_work(s: AppView, id: Seq<char>, c: Clock, other: Seq<char>)
    requires
        distinct_keys(s.chat_activities),
        other != id,
    ensures
        ({
            let t = on_event(s, WsEventView::AgentSilentTurn { agent_id: id }, c);
            &&& t == AppView {
                last_poll: Some(c.now_ms),
                chat_activities: t.chat_activities,
                ..s
            }
            &&& lookup(t.chat_activities, id) is None
            &&& lookup(t.chat_activities, other) == lookup(s.chat_activities, other)
        }),
        on_event(s, WsEventView::AgentInboundUserMessage { agent_id: id }, c) == (AppView {
            last_poll: Some(c.now_ms),
            ..s
        }),
        on_event(s, WsEventView::SessionsChanged, c) == (AppView {
            last_poll: Some(c.now_ms),
            ..s
        }),
{
    reveal(on_event);
    reveal(on_silent_turn);
    reveal(on_heard);
    removed_law(s.chat_activities, id, other);
}

// ---------------------------------------------------------------------
// Sessions and the log
// ---------------------------------------------------------------------

/// What is told of a session is kept under its key, beside what is known of
/// the others.
pub proof fn sessions_are_kept_apart(
    s: AppView,
    info: SessionInfoView,
    points: Seq<SessionUsagePointView>,
    key: Seq<char>,
    other: Seq<char>,
    c: Clock,
)
    requires
        other != info.key,
        other != key,
    ensures
        ({
            let t = on_event(s, WsEventView::SessionUsage(info), c);
            &&& t == AppView { sessions: t.sessions, ..s }
            &&& lookup(t.sessions, info.key) == Some(info)
            &&& lookup(t.sessions, other) == lookup(s.sessions, other)
        }),
        ({
            let e = WsEventView::SessionUsageTimeseries { session_key: key, points };
            let t = on_event(s, e, c);
            let effects = event_effects(s, e, c);
            &&& t == AppView { session_usage: t.session_usage, ..s }
            &&& lookup(t.session_usage, key) == Some(points)
            &&& lookup(t.session_usage, other) == lookup(s.session_usage, other)
            &&& effects.contains(EffectView::RedrawUsageRow(key))
            &&& effects.contains(EffectView::RedrawUsage) <==> s.active_session_key == Some(key)
        }),
{
    reveal(on_event);
    reveal(on_session_info);
    reveal(on_usage);
    reveal(event_effects);
    reveal(usage_effects);
    put_law(s.sessions, info.key, info, other);
    put_law(s.session_usage, key, points, other);
    assert(usage_effects(s, key)[0] == EffectView::RedrawUsageRow(key));
    if s.active_session_key == Some(key) {
        assert(usage_effects(s, key)[1] == EffectView::RedrawUsage);
    }
}

/// New lines go behind those that are there, or take their place where the
/// log starts anew; the last two thousand stay, each with its own text.
pub proof fn log_grows_at_its_end(s: AppView, tail: LogTailPayloadView, c: Clock)
    requires
        s.log_lines.len() <= 2000,
    ensures
        ({
            let t = on_event(s, WsEventView::LogTail(tail), c);
            let kept = if tail.reset {
                Seq::<LogLineView>::empty()
            } else {
                s.log_lines
            };
            let n = tail.lines.len();
            let all = kept.len() + n;
            &&& t == AppView { log_lines: t.log_lines, ..s }
            &&& t.log_lines.len() == if all <= 2000 {
                all
            } else {
                2000
            }
            &&& forall|i: int|
                0 <= i < n && i < 2000 ==> (#[trigger] t.log_lines[t.log_lines.len() - 1 - i]).text
                    == tail.lines[n - 1 - i]
            &&& all <= 2000 ==> t.log_lines.take(kept.len() as int) == kept
        }),
{
    reveal(on_event);
    reveal(on_log_tail);
    let kept = if tail.reset {
        Seq::<LogLineView>::empty()
    } else {
        s.log_lines
    };
    let new = classified_all(tail.lines);
    crate::ring::capped_extend_keeps_newest(kept, new, 2000);
    let t = on_log_tail(s, tail);
    assert forall|i: int| 0 <= i < new.len() implies (#[trigger] new[i]).text == tail.lines[i] by {}
    if kept.len() + new.len() <= 2000 {
        assert(t.log_lines.take(kept.len() as int) =~= kept);
    }
    assert forall|i: int| 0 <= i < new.len() && i < 2000 implies (#[trigger] t.log_lines[
        t.log_lines.len() - 1 - i]).text == tail.lines[new.len() - 1 - i] by {
        assert(t.log_lines[t.log_lines.len() - 1 - i] == (kept + new)[kept.len() + new.len() - 1
            - i]);
        assert((kept + new)[kept.len() + new.len() - 1 - i] == new[new.len() - 1 - i]);
    }
}

// ---------------------------------------------------------------------
// Agents at work
// ---------------------------------------------------------------------

/// An agent's activity shows as its status, and no other agent's changes: at
/// work while it thinks or calls tools, in error, and healthy when idle. It
/// is shown thinking in the chat unless a tool is shown, and not at all when
/// it is idle or in error.
pub proof fn activity_shows_as_status(
    s: AppView,
    id: Seq<char>,
    kind: ActivityKind,
    c: Clock,
    other: Seq<char>,
)
    requires
        distinct_keys(s.chat_activities),
        other != id,
    ensures
        ({
            let t = on_event(s, WsEventView::AgentActivity { agent_id: id, kind }, c);
            let shown = lookup(t.chat_activities, id);
            &&& kind == ActivityKind::Thinking || kind == ActivityKind::ToolCalling ==> lookup(
                t.statuses,
                id,
            ) == Some(AgentStatus::Running)
            &&& kind == ActivityKind::Errored ==> lookup(t.statuses, id) == Some(AgentStatus::Error)
            &&& kind == ActivityKind::Idle ==> lookup(t.statuses, id) == Some(AgentStatus::Healthy)
            &&& lookup(t.statuses, other) == lookup(s.statuses, other)
            &&& kind == ActivityKind::Errored || kind == ActivityKind::Idle ==> shown is None
            &&& (kind == ActivityKind::Thinking || kind == ActivityKind::ToolCalling) ==> match lookup(
                s.chat_activities,
                id,
            ) {
                Some(was) => if was.kind is Tool {
                    shown == Some(was)
                } else {
                    shown matches Some(a) && a.kind == ChatActivityView::Thinking && a.since
                        == c.now_ms
                },
                None => shown matches Some(a) && a.kind == ChatActivityView::Thinking && a.since
                    == c.now_ms,
            }
            &&& lookup(t.chat_activities, other) == lookup(s.chat_activities, other)
            &&& t.last_poll == Some(c.now_ms)
            &&& t == AppView {
                last_poll: t.last_poll,
                statuses: t.statuses,
                transition_moments: t.transition_moments,
                bubbles: t.bubbles,
                chat_activities: t.chat_activities,
                ..s
            }
        }),
{
    reveal(on_event);
    reveal(on_activity);
    let next = crate::app::model::status_of_activity(kind);
    put_law(s.statuses, id, next, other);
    removed_law(s.chat_activities, id, other);
    put_law(
        s.chat_activities,
        id,
        ChatActivityStateView { kind: ChatActivityView::Thinking, since: c.now_ms },
        other,
    );
}

/// A tool call shows the tool in the chat of the agent that makes it, and
/// over its head, and no other agent's.
pub proof fn tool_shows_with_its_agent(
    s: AppView,
    id: Seq<char>,
    text: Seq<char>,
    c: Clock,
    other: Seq<char>,
)
    requires
        other != id,
    ensures
        ({
            let t = on_event(s, WsEventView::AgentToolInvoked { agent_id: id, text }, c);
            let snippet = crate::bubble_text::bubble_snippet(text, 80);
            &&& t == AppView {
                last_poll: Some(c.now_ms),
                bubbles: t.bubbles,
                chat_activities: t.chat_activities,
                ..s
            }
            &&& lookup(t.chat_activities, other) == lookup(s.chat_activities, other)
            &&& forall|tool: Seq<char>|
                tool.len() > 0 && snippet == #[trigger] ("⚙ "@ + tool) ==> lookup(
                    t.chat_activities,
                    id,
                ) == Some(
                    ChatActivityStateView { kind: ChatActivityView::Tool(tool), since: c.now_ms },
                )
            &&& snippet.len() > 0 ==> t.bubbles.len() == s.bubbles.len() + 1
                && t.bubbles.drop_last() == s.bubbles && t.bubbles.last().agent == id
                && t.bubbles.last().text == snippet && t.bubbles.last().kind == BubbleKind::Tool
                && t.bubbles.last().born == c.now_ms
            &&& snippet.len() == 0 ==> t.bubbles == s.bubbles && t.chat_activities
                == s.chat_activities
        }),
{
    reveal(on_event);
    reveal(on_tool);
    let t = on_tool(s, id, text, c.now_ms);
    let snippet = crate::bubble_text::bubble_snippet(text, 80);
    let tool = crate::app::model::tool_of(snippet);
    put_law(
        s.chat_activities,
        id,
        ChatActivityStateView { kind: ChatActivityView::Tool(tool), since: c.now_ms },
        other,
    );
    assert forall|name: Seq<char>| name.len() > 0 && snippet == #[trigger] ("⚙ "@ + name) implies tool
        == name by {
        assert(snippet.take("⚙ "@.len() as int) =~= "⚙ "@);
        assert(snippet.skip("⚙ "@.len() as int) =~= name);
    }
    if snippet.len() > 0 {
        assert(t.bubbles.drop_last() =~= s.bubbles);
    }
    reveal_strlit("⚙ ");
}

// ---------------------------------------------------------------------
// Jobs and channels
// ---------------------------------------------------------------------

proof fn status_law(s: AppView, id: Seq<char>, next: AgentStatus, now: u64, other: Seq<char>)
    requires
        other != id,
    ensures
        ({
            let t = with_status(s, id, next, now);
            &&& lookup(t.statuses, id) == Some(next)
            &&& lookup(t.statuses, other) == lookup(s.statuses, other)
            &&& t == AppView {
                statuses: t.statuses,
                transition_moments: t.transition_moments,
                bubbles: t.bubbles,
                ..s
            }
        }),
{
    put_law(s.statuses, id, next, other);
}

/// Whether a status is that of a job in a state.
pub open spec fn shows_job(status: AgentStatus, state: CronStateView) -> bool {
    if state.running {
        status == AgentStatus::Running
    } else {
        match state.last_status {
            Some(w) => if w == "ok"@ {
                status == AgentStatus::Healthy
            } else if w == "error"@ || w == "failed"@ || w == "timeout"@ {
                status == AgentStatus::Error
            } else {
                status == AgentStatus::Unknown
            },
            None => status == AgentStatus::Unknown,
        }
    }
}

proof fn one_cron(s: AppView, cron: CronJobView, now: u64, other: Seq<char>)
    requires
        other != cron.name,
    ensures
        ({
            let t = on_cron(s, cron, now);
            &&& lookup(t.cron_details, cron.name) == Some(cron.state)
            &&& cron.id is Some ==> lookup(t.cron_ids, cron.name) == cron.id
            &&& cron.id is None ==> t.cron_ids == s.cron_ids
            &&& lookup(t.statuses, cron.name) matches Some(x) && shows_job(x, cron.state)
            &&& lookup(t.cron_details, other) == lookup(s.cron_details, other)
            &&& lookup(t.cron_ids, other) == lookup(s.cron_ids, other)
            &&& lookup(t.statuses, other) == lookup(s.statuses, other)
            &&& in_roster(t.roster, cron.name)
            &&& forall|id: Seq<char>| in_roster(s.roster, id) ==> #[trigger] in_roster(t.roster, id)
            &&& t.last_poll == s.last_poll
        }),
{
    roster_only_grows(s.roster, cron.name, AgentKind::Cron);
    put_law(s.cron_details, cron.name, cron.state, other);
    if let Some(id) = cron.id {
        put_law(s.cron_ids, cron.name, id, other);
    }
    joins_roster(s.roster, cron.name, AgentKind::Cron);
    let noted = AppView {
        roster: with_agent(s.roster, cron.name, AgentKind::Cron),
        cron_details: crate::keyed::put(s.cron_details, cron.name, cron.state),
        cron_ids: match cron.id {
            Some(id) => crate::keyed::put(s.cron_ids, cron.name, id),
            None => s.cron_ids,
        },
        notifier: s.notifier.after_cron(cron.name, cron.state),
        ..s
    };
    status_law(noted, cron.name, crate::net::events::status_of_cron(cron), now, other);
}

proof fn crons_law(s: AppView, crons: Seq<CronJobView>, i: int, name: Seq<char>, now: u64)
    ensures
        ({
            let t = on_crons(s, crons, now);
            &&& t.last_poll == s.last_poll
            &&& forall|id: Seq<char>| in_roster(s.roster, id) ==> #[trigger] in_roster(t.roster, id)
            &&& 0 <= i < crons.len() ==> in_roster(t.roster, crons[i].name)
            &&& 0 <= i < crons.len() && crons[i].name == name && (forall|j: int|
                i < j < crons.len() ==> (#[trigger] crons[j]).name != name) ==> {
                &&& lookup(t.cron_details, name) == Some(crons[i].state)
                &&& crons[i].id is Some ==> lookup(t.cron_ids, name) == crons[i].id
                &&& lookup(t.statuses, name) matches Some(x) && shows_job(x, crons[i].state)
            }
            &&& (forall|j: int| 0 <= j < crons.len() ==> (#[trigger] crons[j]).name != name) ==> {
                &&& lookup(t.cron_details, name) == lookup(s.cron_details, name)
                &&& lookup(t.cron_ids, name) == lookup(s.cron_ids, name)
                &&& lookup(t.statuses, name) == lookup(s.statuses, name)
            }
        }),
    decreases crons.len(),
{
    if crons.len() > 0 {
        let before = crons.drop_last();
        crons_law(s, before, i, name, now);
        let mid = on_crons(s, before, now);
        if crons.last().name != name {
            one_cron(mid, crons.last(), now, name);
            assert forall|j: int| 0 <= j < before.len() implies #[trigger] before[j] == crons[j] by {}
        } else {
            assert(name.push('x').len() != name.len());
            one_cron(mid, crons.last(), now, name.push('x'));
        }
    }
}

/// A list of jobs sets what is known of each: its state, its id and its
/// status. A job that is not listed stays as it was.
pub proof fn listed_jobs_are_known(
    s: AppView,
    crons: Seq<CronJobView>,
    i: int,
    name: Seq<char>,
    c: Clock,
)
    ensures
        ({
            let t = on_event(s, WsEventView::CronSnapshot(crons), c);
            &&& t.last_poll == Some(c.now_ms)
            &&& forall|id: Seq<char>| in_roster(s.roster, id) ==> #[trigger] in_roster(t.roster, id)
            &&& 0 <= i < crons.len() ==> in_roster(t.roster, crons[i].name)
            &&& 0 <= i < crons.len() && crons[i].name == name && (forall|j: int|
                i < j < crons.len() ==> (#[trigger] crons[j]).name != name) ==> {
                &&& lookup(t.cron_details, name) == Some(crons[i].state)
                &&& crons[i].id is Some ==> lookup(t.cron_ids, name) == crons[i].id
                &&& lookup(t.statuses, name) matches Some(x) && shows_job(x, crons[i].state)
            }
            &&& (forall|j: int| 0 <= j < crons.len() ==> (#[trigger] crons[j]).name != name) ==> {
                &&& lookup(t.cron_details, name) == lookup(s.cron_details, name)
                &&& lookup(t.cron_ids, name) == lookup(s.cron_ids, name)
                &&& lookup(t.statuses, name) == lookup(s.statuses, name)
            }
        }),
{
    reveal(on_event);
    reveal(on_heard);
    crons_law(on_heard(s, c.now_ms), crons, i, name, c.now_ms);
}

/// A job's start or end changes what is known of that job alone: it runs or
/// does not, as the event says, and what the event carries counts over what
/// was known.
pub proof fn delta_is_of_its_job(s: AppView, cron: CronJobView, c: Clock, other: Seq<char>)
    requires
        other != cron.name,
    ensures
        ({
            let t = on_event(s, WsEventView::CronDelta(cron), c);
            let now_known = lookup(t.cron_details, cron.name);
            let was = lookup(s.cron_details, cron.name);
            &&& now_known is Some
            &&& now_known->Some_0.running == cron.state.running
            &&& cron.state.last_status is Some ==> now_known->Some_0.last_status
                == cron.state.last_status
            &&& cron.state.last_run_at_ms is Some ==> now_known->Some_0.last_run_at_ms
                == cron.state.last_run_at_ms
            &&& cron.state.next_run_at_ms is Some ==> now_known->Some_0.next_run_at_ms
                == cron.state.next_run_at_ms
            &&& cron.state.last_duration_ms is Some ==> now_known->Some_0.last_duration_ms
                == cron.state.last_duration_ms
            &&& cron.state.last_error is Some ==> now_known->Some_0.last_error
                == cron.state.last_error
            &&& was matches Some(w) ==> {
                &&& cron.state.last_status is None ==> now_known->Some_0.last_status
                    == w.last_status
                &&& cron.state.last_run_at_ms is None ==> now_known->Some_0.last_run_at_ms
                    == w.last_run_at_ms
                &&& cron.state.next_run_at_ms is None ==> now_known->Some_0.next_run_at_ms
                    == w.next_run_at_ms
                &&& cron.state.last_duration_ms is None ==> now_known->Some_0.last_duration_ms
                    == w.last_duration_ms
                &&& cron.state.last_error is None ==> now_known->Some_0.last_error == w.last_error
            }
            &&& was is None ==> {
                &&& now_known->Some_0.last_status == cron.state.last_status
                &&& now_known->Some_0.last_error == cron.state.last_error
            }
            &&& lookup(t.statuses, cron.name) matches Some(x) && shows_job(x, cron.state)
            &&& lookup(t.cron_details, other) == lookup(s.cron_details, other)
            &&& lookup(t.statuses, other) == lookup(s.statuses, other)
            &&& t.cron_ids == s.cron_ids
            &&& in_roster(t.roster, cron.name)
            &&& t.last_poll == Some(c.now_ms)
        }),
{
    reveal(on_event);
    reveal(on_cron_delta);
    let after = cron_after_delta(s, cron);
    put_law(s.cron_details, cron.name, after, other);
    joins_roster(s.roster, cron.name, AgentKind::Cron);
    let noted = AppView {
        roster: with_agent(s.roster, cron.name, AgentKind::Cron),
        cron_details: crate::keyed::put(s.cron_details, cron.name, after),
        notifier: s.notifier.after_cron(cron.name, after),
        last_poll: Some(c.now_ms),
        ..s
    };
    status_law(noted, cron.name, crate::net::events::status_of_cron(cron), c.now_ms, other);
}

/// A job's failure is notified once, under the job's name and with its error.
pub proof fn failure_is_notified_once(s: AppView, cron: CronJobView, error: Seq<char>, c: Clock)
    requires
        cron.state.last_error == Some(error),
    ensures
        ({
            let effects = event_effects(s, WsEventView::CronDelta(cron), c);
            let told = lookup(s.notifier.cron_errors_notified, cron.name) == Some(error);
            let t = on_event(s, WsEventView::CronDelta(cron), c);
            &&& told ==> effects.len() == 0
            &&& !told ==> {
                &&& effects.len() == 1
                &&& effects[0] is Notify
                &&& effects[0]->Notify_0.title == "Cron failed: "@ + cron.name
                &&& trimmed(error).len() <= 140 ==> effects[0]->Notify_0.body
                    == trimmed(error)
            }
            &&& lookup(t.notifier.cron_errors_notified, cron.name) == Some(error)
            &&& event_effects(t, WsEventView::CronDelta(cron), c).len() == 0
        }),
{
    reveal(on_event);
    reveal(on_cron_delta);
    reveal(event_effects);
    crate::text::ellipsized_fits(trimmed(error), 140);
    put_law(s.notifier.cron_errors_notified, cron.name, error, cron.name);
    let after = cron_after_delta(s, cron);
    put_law(s.cron_details, cron.name, after, cron.name);
}

proof fn one_channel(s: AppView, ch: ChannelView, now: u64, other: Seq<char>)
    requires
        other != ch.name,
    ensures
        ({
            let t = on_channel(s, ch, now);
            &&& in_roster(t.roster, ch.name)
            &&& forall|id: Seq<char>| in_roster(s.roster, id) ==> #[trigger] in_roster(t.roster, id)
            &&& lookup(t.channel_details, ch.name) == Some(ch)
            &&& lookup(t.statuses, ch.name) == Some(
                crate::net::events::status_of_channel(ch),
            )
            &&& lookup(t.channel_details, other) == lookup(s.channel_details, other)
            &&& lookup(t.statuses, other) == lookup(s.statuses, other)
        }),
{
    joins_roster(s.roster, ch.name, AgentKind::Channel);
    roster_only_grows(s.roster, ch.name, AgentKind::Channel);
    put_law(s.channel_details, ch.name, ch, other);
    let noted = AppView {
        roster: with_agent(s.roster, ch.name, AgentKind::Channel),
        channel_details: crate::keyed::put(s.channel_details, ch.name, ch),
        ..s
    };
    status_law(noted, ch.name, crate::net::events::status_of_channel(ch), now, other);
}

proof fn channels_law(s: AppView, channels: Seq<ChannelView>, i: int, name: Seq<char>, now: u64)
    ensures
        ({
            let t = on_channels(s, channels, now);
            &&& forall|id: Seq<char>| in_roster(s.roster, id) ==> #[trigger] in_roster(t.roster, id)
            &&& 0 <= i < channels.len() ==> in_roster(t.roster, channels[i].name)
            &&& 0 <= i < channels.len() && channels[i].name == name && (forall|j: int|
                i < j < channels.len() ==> (#[trigger] channels[j]).name != name) ==> {
                &&& lookup(t.channel_details, name) == Some(channels[i])
                &&& lookup(t.statuses, name) == Some(
                    crate::net::events::status_of_channel(channels[i]),
                )
            }
            &&& (forall|j: int| 0 <= j < channels.len() ==> (#[trigger] channels[j]).name != name)
                ==> {
                &&& lookup(t.channel_details, name) == lookup(s.channel_details, name)
                &&& lookup(t.statuses, name) == lookup(s.statuses, name)
            }
        }),
    decreases channels.len(),
{
    if channels.len() > 0 {
        let before = channels.drop_last();
        channels_law(s, before, i, name, now);
        let mid = on_channels(s, before, now);
        if channels.last().name != name {
            one_channel(mid, channels.last(), now, name);
            assert forall|j: int| 0 <= j < before.len() implies #[trigger] before[j]
                == channels[j] by {}
        } else {
            assert(name.push('x').len() != name.len());
            one_channel(mid, channels.last(), now, name.push('x'));
        }
    }
}

/// A list of channels sets what is known of each, and its status: disabled
/// when it is not enabled, else in error when it has one, else healthy when
/// connected. A channel that is not listed stays as it was.
pub proof fn listed_channels_are_known(
    s: AppView,
    channels: Seq<ChannelView>,
    i: int,
    name: Seq<char>,
    c: Clock,
)
    ensures
        ({
            let t = on_event(s, WsEventView::ChannelSnapshot(channels), c);
            let ch = channels[i];
            &&& forall|id: Seq<char>| in_roster(s.roster, id) ==> #[trigger] in_roster(t.roster, id)
            &&& 0 <= i < channels.len() ==> in_roster(t.roster, channels[i].name)
            &&& 0 <= i < channels.len() && channels[i].name == name && (forall|j: int|
                i < j < channels.len() ==> (#[trigger] channels[j]).name != name) ==> {
                &&& lookup(t.channel_details, name) == Some(channels[i])
                &&& !ch.enabled ==> lookup(t.statuses, name) == Some(AgentStatus::Disabled)
                &&& ch.enabled && ch.last_error is Some ==> lookup(t.statuses, name) == Some(
                    AgentStatus::Error,
                )
                &&& ch.enabled && ch.last_error is None && ch.connected ==> lookup(t.statuses, name)
                    == Some(AgentStatus::Healthy)
                &&& ch.enabled && ch.last_error is None && !ch.connected ==> lookup(
                    t.statuses,
                    name,
                ) == Some(AgentStatus::Unknown)
            }
            &&& (forall|j: int| 0 <= j < channels.len() ==> (#[trigger] channels[j]).name != name)
                ==> {
                &&& lookup(t.channel_details, name) == lookup(s.channel_details, name)
                &&& lookup(t.statuses, name) == lookup(s.statuses, name)
            }
        }),
{
    reveal(on_event);
    reveal(on_heard);
    channels_law(on_heard(s, c.now_ms), channels, i, name, c.now_ms);
}

// ---------------------------------------------------------------------
// The roster and the connection
// ---------------------------------------------------------------------

/// The main agent's report sets its status and, where it says which, the
/// model in use.
pub proof fn main_report_counts(s: AppView, main: MainAgentView, c: Clock, other: Seq<char>)
    requires
        other != main.id,
    ensures
        ({
            let t = on_event(s, WsEventView::MainAgent(main), c);
            let status = lookup(t.statuses, main.id);
            &&& main.model is Some ==> t.active_model == main.model
            &&& main.model is None ==> t.active_model == s.active_model
            &&& main.state == Some("running"@) ==> status == Some(AgentStatus::Running)
            &&& main.state == Some("idle"@) || main.state == Some("ok"@) ==> status == Some(
                AgentStatus::Healthy,
            )
            &&& main.state == Some("error"@) ==> status == Some(AgentStatus::Error)
            &&& main.state is None ==> status == Some(AgentStatus::Unknown)
            &&& lookup(t.statuses, other) == lookup(s.statuses, other)
            &&& t.chat_logs == s.chat_logs
            &&& t.roster == s.roster
        }),
{
    reveal(on_event);
    reveal(on_main_agent);
    reveal_strlit("running");
    reveal_strlit("idle");
    reveal_strlit("ok");
    reveal_strlit("error");
    assert("running"@.len() == 7);
    assert("idle"@.len() == 4);
    assert("ok"@.len() == 2);
    assert("error"@.len() == 5);
    let noted = AppView {
        active_model: if main.model is Some {
            main.model
        } else {
            s.active_model
        },
        ..s
    };
    status_law(noted, main.id, crate::net::events::status_of_main(main), c.now_ms, other);
}

/// A list of agents is what the chat offers from then on. Each agent's persona
/// is asked for, in order, and the history of the agent that is then shown
/// unless it has been.
pub proof fn listed_agents_are_offered(
    s: AppView,
    default_id: Seq<char>,
    agents: Seq<AgentInfoView>,
    c: Clock,
)
    ensures
        ({
            let e = WsEventView::AgentsList { default_id, agents };
            let t = on_event(s, e, c);
            let effects = event_effects(s, e, c);
            let n = agents.len() as int;
            let shown = t.selected_chat_agent;
            &&& t.chat_agents == agents
            &&& t.history_fetched.contains(shown)
            &&& shown == s.selected_chat_agent || shown == default_id
            &&& s.selected_chat_agent == "main"@ && !s.history_fetched.contains("main"@)
                && default_id.len() > 0 ==> shown == default_id
            &&& effects.len() == n + (if s.history_fetched.contains(shown) {
                0int
            } else {
                1int
            })
            &&& forall|i: int|
                0 <= i < n ==> #[trigger] effects[i] == EffectView::Send(
                    GatewayCommandView::FetchAgentIdentity { agent_id: agents[i].id },
                )
            &&& !s.history_fetched.contains(shown) ==> effects[n] == EffectView::Send(
                GatewayCommandView::FetchChatHistory { agent_id: shown },
            )
            &&& t == AppView {
                chat_agents: agents,
                roster: t.roster,
                selected_chat_agent: shown,
                history_fetched: t.history_fetched,
                ..s
            }
        }),
{
    reveal(on_event);
    reveal(on_agents_list);
    reveal(event_effects);
    reveal(agents_list_effects);
    let shown = crate::app::model::selected_after_list(s, default_id);
    let h = s.history_fetched;
    if !h.contains(shown) {
        assert(h.push(shown)[h.len() as int] == shown);
    }
}

/// Every listed agent stands in the roster afterwards, under its persona, and
/// everyone who stood there still does.
pub proof fn listed_agents_join_the_roster(
    roster: Seq<AgentView>,
    agents: Seq<AgentInfoView>,
    i: int,
    id: Seq<char>,
)
    ensures
        ({
            let after = crate::app::model::with_personas(roster, agents);
            &&& 0 <= i < agents.len() ==> in_roster(after, agents[i].id)
            &&& in_roster(roster, id) ==> in_roster(after, id)
            &&& in_roster(after, id) && !in_roster(roster, id) ==> exists|j: int|
                0 <= j < agents.len() && (#[trigger] agents[j]).id == id
        }),
    decreases agents.len(),
{
    if agents.len() > 0 {
        let init = agents.drop_last();
        let info = agents.last();
        listed_agents_join_the_roster(roster, init, i, id);
        let before = crate::app::model::with_personas(roster, init);
        let after = crate::app::model::with_personas(roster, agents);
        persona_keeps_ids(before, info, id);
        persona_keeps_ids(before, info, info.id);
        if 0 <= i < init.len() {
            assert(init[i] == agents[i]);
            persona_keeps_ids(before, info, agents[i].id);
        }
        if in_roster(after, id) && !in_roster(roster, id) {
            if id == info.id {
                assert(agents[agents.len() - 1].id == id);
            } else {
                let j = choose|j: int| 0 <= j < init.len() && (#[trigger] init[j]).id == id;
                assert(agents[j].id == id);
            }
        }
    }
}

proof fn persona_keeps_ids(roster: Seq<AgentView>, info: AgentInfoView, id: Seq<char>)
    ensures
        in_roster(crate::app::model::with_persona(roster, info), id) <==> in_roster(roster, id)
            || id == info.id,
{
    let after = crate::app::model::with_persona(roster, info);
    crate::app::gateway::roster_index_bounds(roster, info.id);
    if in_roster(roster, info.id) {
        assert forall|j: int| 0 <= j < roster.len() implies (#[trigger] after[j]).id
            == roster[j].id by {}
        if in_roster(roster, id) {
            let j = choose|j: int| 0 <= j < roster.len() && (#[trigger] roster[j]).id == id;
            assert(after[j].id == id);
        }
        if in_roster(after, id) {
            let j = choose|j: int| 0 <= j < after.len() && (#[trigger] after[j]).id == id;
            assert(roster[j].id == id);
        }
    } else {
        assert(after[roster.len() as int].id == info.id);
        if in_roster(roster, id) {
            let j = choose|j: int| 0 <= j < roster.len() && (#[trigger] roster[j]).id == id;
            assert(after[j].id == id);
        }
        if in_roster(after, id) && id != info.id {
            let j = choose|j: int| 0 <= j < after.len() && (#[trigger] after[j]).id == id;
            assert(roster[j].id == id);
        }
    }
}

/// The place of an agent in a list is that of the first entry with its id.
pub proof fn info_index_law(agents: Seq<AgentInfoView>, id: Seq<char>)
    ensures
        0 <= info_index(agents, id) <= agents.len(),
        info_index(agents, id) < agents.len() ==> agents[info_index(agents, id)].id == id,
        forall|j: int| 0 <= j < info_index(agents, id) ==> (#[trigger] agents[j]).id != id,
    decreases agents.len(),
{
    if agents.len() > 0 && agents[0].id != id {
        info_index_law(agents.drop_first(), id);
        assert forall|j: int| 0 <= j < info_index(agents, id) implies (#[trigger] agents[j]).id
            != id by {
            if j > 0 {
                assert(agents[j] == agents.drop_first()[j - 1]);
            }
        }
    }
}

/// A persona changes the agent that it belongs to and no other: its name and
/// emoji become those that came, and what did not come stays.
pub proof fn persona_is_of_its_agent(
    s: AppView,
    id: Seq<char>,
    name: Option<Seq<char>>,
    emoji: Option<Seq<char>>,
    c: Clock,
    i: int,
)
    requires
        0 <= i < s.chat_agents.len(),
    ensures
        ({
            let t = on_event(s, WsEventView::AgentIdentity { agent_id: id, name, emoji }, c);
            let was = s.chat_agents[i];
            let is = t.chat_agents[i];
            let first = was.id == id && forall|j: int|
                0 <= j < i ==> (#[trigger] s.chat_agents[j]).id != id;
            &&& t.chat_agents.len() == s.chat_agents.len()
            &&& is.id == was.id && is.name == was.name && is.model == was.model && is.workspace
                == was.workspace
            &&& was.id != id ==> is == was
            &&& first ==> is.identity is Some
            &&& first && name is Some ==> is.identity->Some_0.name == name
            &&& first && emoji is Some ==> is.identity->Some_0.emoji == emoji
            &&& first && name is None ==> is.identity->Some_0.name == (match was.identity {
                Some(x) => x.name,
                None => None,
            })
            &&& first && emoji is None ==> is.identity->Some_0.emoji == (match was.identity {
                Some(x) => x.emoji,
                None => None,
            })
            &&& t == AppView { chat_agents: t.chat_agents, roster: t.roster, ..s }
        }),
{
    reveal(on_event);
    reveal(on_identity);
    info_index_law(s.chat_agents, id);
    let at = info_index(s.chat_agents, id);
    if at < i {
        assert(s.chat_agents[at].id == id);
    }
}

/// A connection that is up shows as such, and a pairing notice shows while
/// there is one.
pub proof fn connection_is_shown(
    s: AppView,
    reason: Seq<char>,
    req: Option<PairRequestView>,
    c: Clock,
)
    ensures
        on_event(s, WsEventView::Connected, c) == (AppView {
            connected: true,
            last_disconnect: None,
            connection_status: ConnectionStatusView::Connected,
            ..s
        }),
        on_event(s, WsEventView::Disconnected(reason), c).connection_status
            == ConnectionStatusView::Failed(reason),
        on_event(s, WsEventView::PairRequestPending(req), c) == (AppView {
            pending_pair_request: req,
            ..s
        }),
{
    reveal(on_event);
    reveal(on_connected);
    reveal(on_disconnected);
    reveal(on_pairing);
}

/// An update is offered as it came, and notified once, with both versions.
pub proof fn update_is_offered(s: AppView, u: GatewayUpdateView, c: Clock)
    ensures
        ({
            let e = WsEventView::UpdateAvailable(Some(u));
            let t = on_event(s, e, c);
            let effects = event_effects(s, e, c);
            &&& t == AppView { gateway_update: Some(u), notifier: t.notifier, ..s }
            &&& effects.len() <= 1
            &&& s.notifier.update_notified is None ==> effects.len() == 1
            &&& effects.len() == 1 ==> effects[0] is Notify && effects[0]->Notify_0.title
                == "OpenClaw update available"@ && effects[0]->Notify_0.body == u.current + " → "@
                + u.latest
            &&& event_effects(t, e, c).len() == 0
        }),
        on_event(s, WsEventView::UpdateAvailable(None), c) == (AppView {
            gateway_update: None,
            ..s
        }),
        event_effects(s, WsEventView::UpdateAvailable(None), c).len() == 0,
{
    reveal(on_event);
    reveal(on_update);
    reveal(event_effects);
}

/// A change of status is stamped with its time, and a status that stays is
/// not stamped again.
pub proof fn changes_are_stamped(
    s: AppView,
    id: Seq<char>,
    next: AgentStatus,
    now: u64,
    other: Seq<char>,
)
    requires
        other != id,
    ensures
        ({
            let t = with_status(s, id, next, now);
            &&& lookup(s.statuses, id) != Some(next) ==> lookup(t.transition_moments, id) == Some(now)
            &&& lookup(s.statuses, id) == Some(next) ==> t == s
            &&& lookup(t.transition_moments, other) == lookup(s.transition_moments, other)
            &&& t.bubbles == s.bubbles || t.bubbles.len() == s.bubbles.len() + 1
                && t.bubbles.drop_last() == s.bubbles && t.bubbles.last().agent == id
                && t.bubbles.last().born == now && t.bubbles.last().kind == BubbleKind::Work
        }),
{
    put_law(s.transition_moments, id, now, other);
    let t = with_status(s, id, next, now);
    if t.bubbles.len() != s.bubbles.len() {
        assert(t.bubbles.drop_last() =~= s.bubbles);
    }
}

/// Of a list of jobs each failure is notified that has not been, in the order
/// of the list.
pub proof fn listed_failures_are_notified(
    s: AppView,
    crons: Seq<CronJobView>,
    job: CronJobView,
    c: Clock,
)
    ensures
        ({
            let before = event_effects(s, WsEventView::CronSnapshot(crons), c);
            let all = event_effects(s, WsEventView::CronSnapshot(crons.push(job)), c);
            let mid = on_event(s, WsEventView::CronSnapshot(crons), c);
            let told = lookup(mid.notifier.cron_errors_notified, job.name)
                == job.state.last_error;
            &&& event_effects(s, WsEventView::CronSnapshot(Seq::empty()), c).len() == 0
            &&& job.state.last_error is None || told ==> all == before
            &&& job.state.last_error is Some && !told ==> {
                &&& all.len() == before.len() + 1
                &&& all.drop_last() == before
                &&& all.last() is Notify
                &&& all.last()->Notify_0.title == "Cron failed: "@ + job.name
            }
        }),
{
    reveal(on_event);
    reveal(event_effects);
    let all = crons.push(job);
    assert(all.drop_last() =~= crons);
    let heard = on_heard(s, c.now_ms);
    let before = crate::app::model::crons_raise(heard, crons, c.now_ms);
    let after = crate::app::model::crons_raise(heard, all, c.now_ms);
    assert(all.last() == job);
    if job.state.last_error is Some && lookup(
        on_crons(heard, crons, c.now_ms).notifier.cron_errors_notified,
        job.name,
    ) != job.state.last_error {
        assert(after.drop_last() =~= before);
    } else {
        assert(after =~= before);
    }
}

/// A persona that is known shows in the roster too: whoever is listed stands
/// there under its name, with its emoji, and a new one as an agent.
pub proof fn personas_show_in_the_roster(roster: Seq<AgentView>, info: AgentInfoView, i: int)
    ensures
        ({
            let after = crate::app::model::with_persona(roster, info);
            let first = 0 <= i < roster.len() && roster[i].id == info.id && forall|j: int|
                0 <= j < i ==> (#[trigger] roster[j]).id != info.id;
            &&& first ==> after.len() == roster.len() && after[i].display
                == info.shown_with_emoji() && after[i].id == info.id && after[i].kind
                == roster[i].kind
            &&& 0 <= i < roster.len() && roster[i].id != info.id ==> after[i] == roster[i]
            &&& !in_roster(roster, info.id) ==> after.len() == roster.len() + 1 && after.last()
                == (AgentView {
                id: info.id,
                display: info.shown_with_emoji(),
                kind: AgentKind::Main,
            })
        }),
{
    let at = crate::app::model::roster_index(roster, info.id);
    crate::app::gateway::roster_index_bounds(roster, info.id);
    if in_roster(roster, info.id) && at < i < roster.len() {
        assert(roster[at].id == info.id);
    }
    if 0 <= i < roster.len() && roster[i].id == info.id {
        assert(in_roster(roster, info.id));
    }
}

/// What is told of agents, transcripts, sessions, the log and the connection
/// asks for nothing and notifies of nothing.
pub proof fn other_events_have_no_effects(s: AppView, e: WsEventView, c: Clock)
    requires
        !(e is CronSnapshot),
        !(e is CronDelta),
        !(e is AgentsList),
        !(e is SessionUsageTimeseries),
        !(e is ApprovalRequested),
        !(e is UpdateAvailable),
    ensures
        event_effects(s, e, c).len() == 0,
{
    reveal(event_effects);
}

/// A newer update is notified though an older one was.
pub proof fn newer_update_is_notified(
    s: AppView,
    u: GatewayUpdateView,
    v: GatewayUpdateView,
    c: Clock,
)
    requires
        u.current == v.current,
        u.latest != v.latest,
    ensures
        ({
            let t = on_event(s, WsEventView::UpdateAvailable(Some(u)), c);
            event_effects(t, WsEventView::UpdateAvailable(Some(v)), c).len() == 1
        }),
{
    reveal(on_event);
    reveal(on_update);
    reveal(event_effects);
    let head = u.current + "->"@;
    let a = head + u.latest;
    let b = head + v.latest;
    if a == b {
        assert(a.skip(head.len() as int) =~= u.latest);
        assert(b.skip(head.len() as int) =~= v.latest);
    }
}

/// A state of the main agent that is none of those that are known leaves its
/// status open.
pub proof fn strange_states_are_unknown(s: AppView, main: MainAgentView, state: Seq<char>, c: Clock)
    requires
        main.state == Some(state),
        state != "running"@,
        state != "idle"@,
        state != "ok"@,
        state != "error"@,
    ensures
        lookup(on_event(s, WsEventView::MainAgent(main), c).statuses, main.id) == Some(
            AgentStatus::Unknown,
        ),
{
    reveal(on_event);
    reveal(on_main_agent);
    assert(main.id.push('x').len() != main.id.len());
    let noted = AppView {
        active_model: if main.model is Some {
            main.model
        } else {
            s.active_model
        },
        ..s
    };
    status_law(
        noted,
        main.id,
        crate::net::events::status_of_main(main),
        c.now_ms,
        main.id.push('x'),
    );
}

/// A reply is unread unless its agent is the one shown in the open chat: its
/// count goes up by one, and no other count changes.
pub proof fn replies_elsewhere_are_unread(
    s: AppView,
    id: Seq<char>,
    text: Seq<char>,
    c: Clock,
    other: Seq<char>,
)
    requires
        other != id,
        lookup(s.unread, id) matches Some(n) ==> n < usize::MAX,
    ensures
        ({
            let t = on_event(s, WsEventView::AgentMessage { agent_id: id, text }, c);
            let seen = s.nav == NavItem::Chat && s.selected_chat_agent == id;
            &&& seen ==> t.unread == s.unread
            &&& !seen && lookup(s.unread, id) is None ==> lookup(t.unread, id) == Some(1usize)
            &&& !seen && lookup(s.unread, id) is Some ==> lookup(t.unread, id) == Some(
                (lookup(s.unread, id)->Some_0 + 1) as usize,
            )
            &&& lookup(t.unread, other) == lookup(s.unread, other)
        }),
{
    reveal(on_event);
    reveal(on_agent_message);
    let n = match lookup(s.unread, id) {
        Some(n) => n,
        None => 0usize,
    };
    put_law(s.unread, id, (n + 1) as usize, other);
}

/// A log is what is kept under its key, and empty where nothing is.
pub proof fn logs_are_kept_by_key(
    logs: Seq<(Seq<char>, Seq<ChatMessageView>)>,
    k: Seq<char>,
)
    ensures
        lookup(logs, k) matches Some(l) ==> log_of(logs, k) == l,
        lookup(logs, k) is None ==> log_of(logs, k).len() == 0,
{
}

/// What a change of status leaves behind, whoever reports it: its time, and a
/// bubble over the agent with the word for the change.
pub open spec fn marks_the_change(
    s: AppView,
    t: AppView,
    id: Seq<char>,
    next: AgentStatus,
    now: u64,
) -> bool {
    let was = lookup(s.statuses, id);
    let word = transition_words(was, next);
    &&& was == Some(next) ==> t.transition_moments == s.transition_moments && t.bubbles == s.bubbles
    &&& was != Some(next) ==> lookup(t.transition_moments, id) == Some(now)
    &&& was != Some(next) && word is None ==> t.bubbles == s.bubbles
    &&& was != Some(next) && word is Some ==> t.bubbles == s.bubbles.push(
        ThoughtBubbleView { agent: id, text: word->Some_0, born: now, kind: BubbleKind::Work },
    )
}

/// A change of status is marked when an activity, a job's start or end, or the
/// main agent's report brings it, and a status that stays is not.
pub proof fn reported_changes_are_marked(
    s: AppView,
    id: Seq<char>,
    cron: CronJobView,
    main: MainAgentView,
    c: Clock,
)
    ensures
        marks_the_change(
            s,
            on_event(s, WsEventView::AgentActivity { agent_id: id, kind: ActivityKind::Thinking }, c),
            id,
            AgentStatus::Running,
            c.now_ms,
        ),
        marks_the_change(
            s,
            on_event(s, WsEventView::AgentActivity { agent_id: id, kind: ActivityKind::Errored }, c),
            id,
            AgentStatus::Error,
            c.now_ms,
        ),
        marks_the_change(
            s,
            on_event(s, WsEventView::AgentActivity { agent_id: id, kind: ActivityKind::Idle }, c),
            id,
            AgentStatus::Healthy,
            c.now_ms,
        ),
        cron.state.running ==> marks_the_change(
            s,
            on_event(s, WsEventView::CronDelta(cron), c),
            cron.name,
            AgentStatus::Running,
            c.now_ms,
        ),
        main.state == Some("running"@) ==> marks_the_change(
            s,
            on_event(s, WsEventView::MainAgent(main), c),
            main.id,
            AgentStatus::Running,
            c.now_ms,
        ),
{
    reveal(on_event);
    reveal(on_activity);
    reveal(on_cron_delta);
    reveal(on_main_agent);
    put_law(s.transition_moments, id, c.now_ms, id);
    put_law(s.transition_moments, cron.name, c.now_ms, cron.name);
    put_law(s.transition_moments, main.id, c.now_ms, main.id);
}

/// After a lost connection an approval and a failed job are notified anew, and
/// an update is not; what is known of jobs, sessions and approvals stays.
pub proof fn disconnect_notifies_anew(
    s: AppView,
    reason: Seq<char>,
    p: ApprovalEventPayloadView,
    cron: CronJobView,
    u: GatewayUpdateView,
    c: Clock,
)
    ensures
        ({
            let t = on_event(s, WsEventView::Disconnected(reason), c);
            &&& event_effects(t, WsEventView::ApprovalRequested(p), c).len() == 1
            &&& cron.state.last_error is Some ==> event_effects(
                t,
                WsEventView::CronDelta(cron),
                c,
            ).len() == 1
            &&& event_effects(t, WsEventView::UpdateAvailable(Some(u)), c) == event_effects(
                s,
                WsEventView::UpdateAvailable(Some(u)),
                c,
            )
            &&& t == AppView {
                connected: false,
                last_disconnect: Some(reason),
                connection_status: ConnectionStatusView::Failed(reason),
                history_fetched: Seq::empty(),
                session_history_fetched: Seq::empty(),
                chat_activities: Seq::empty(),
                notifier: t.notifier,
                ..s
            }
        }),
{
    reveal(on_event);
    reveal(on_disconnected);
    reveal(event_effects);
    crate::notifications::disconnect_law(
        s.notifier,
        p,
        cron.name,
        cron_after_delta(on_disconnected(s, reason), cron),
        u,
    );
}

/// A persona that comes for a listed agent shows in the roster, under that
/// agent and no other.
pub proof fn persona_shows_in_the_roster(
    s: AppView,
    id: Seq<char>,
    name: Seq<char>,
    emoji: Seq<char>,
    c: Clock,
    i: int,
    k: int,
)
    requires
        0 <= i < s.chat_agents.len(),
        s.chat_agents[i].id == id,
        0 <= k < s.roster.len(),
        emoji.len() > 0,
    ensures
        ({
            let e = WsEventView::AgentIdentity {
                agent_id: id,
                name: Some(name),
                emoji: Some(emoji),
            };
            let t = on_event(s, e, c);
            &&& t.roster.len() == s.roster.len()
            &&& t.roster[k].id == s.roster[k].id && t.roster[k].kind == s.roster[k].kind
            &&& s.roster[k].id != id ==> t.roster[k] == s.roster[k]
            &&& s.roster[k].id == id && (forall|j: int|
                0 <= j < k ==> (#[trigger] s.roster[j]).id != id) ==> t.roster[k].display == name
                + " "@ + emoji
        }),
{
    reveal(on_event);
    reveal(on_identity);
    info_index_law(s.chat_agents, id);
    crate::app::gateway::roster_index_bounds(s.roster, id);
    let at = info_index(s.chat_agents, id);
    if at > i {
        assert(s.chat_agents[i].id != id);
    }
    let r = crate::app::model::roster_index(s.roster, id);
    if r > k && s.roster[k].id == id {
        assert(s.roster[k].id != id);
    }
    if r < k && r < s.roster.len() {
        assert(s.roster[r].id == id);
    }
    if s.roster[k].id == id {
        assert(in_roster(s.roster, id));
    }
}

/// Every agent of a list stands in the roster after it, and the last one under
/// its persona.
pub proof fn list_fills_the_roster(
    s: AppView,
    default_id: Seq<char>,
    agents: Seq<AgentInfoView>,
    i: int,
    id: Seq<char>,
    c: Clock,
)
    ensures
        ({
            let t = on_event(s, WsEventView::AgentsList { default_id, agents }, c);
            &&& 0 <= i < agents.len() ==> in_roster(t.roster, agents[i].id)
            &&& in_roster(s.roster, id) ==> in_roster(t.roster, id)
            &&& in_roster(t.roster, id) && !in_roster(s.roster, id) ==> exists|j: int|
                0 <= j < agents.len() && (#[trigger] agents[j]).id == id
            &&& agents.len() > 0 ==> exists|k: int|
                0 <= k < t.roster.len() && (#[trigger] t.roster[k]).id == agents.last().id
                    && t.roster[k].display == agents.last().shown_with_emoji()
        }),
{
    reveal(on_event);
    reveal(on_agents_list);
    listed_agents_join_the_roster(s.roster, agents, i, id);
    if agents.len() > 0 {
        let k = last_persona_shows(s.roster, agents);
        let t = on_event(s, WsEventView::AgentsList { default_id, agents }, c);
        assert(t.roster[k].id == agents.last().id);
    }
}

proof fn last_persona_shows(roster: Seq<AgentView>, agents: Seq<AgentInfoView>) -> (k: int)
    requires
        agents.len() > 0,
    ensures
        ({
            let after = crate::app::model::with_personas(roster, agents);
            &&& 0 <= k < after.len()
            &&& after[k].id == agents.last().id
            &&& after[k].display == agents.last().shown_with_emoji()
        }),
{
    let info = agents.last();
    let before = crate::app::model::with_personas(roster, agents.drop_last());
    assert(crate::app::model::with_personas(roster, agents) == crate::app::model::with_persona(
        before,
        info,
    ));
    crate::app::gateway::roster_index_bounds(before, info.id);
    if in_roster(before, info.id) {
        crate::app::model::roster_index(before, info.id)
    } else {
        before.len() as int
    }
}

} // verus!
