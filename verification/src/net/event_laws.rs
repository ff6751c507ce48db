//! What a pushed event tells, said of every event.
use vstd::prelude::*;

use crate::json::{items_in, member, text_in, JsonView};
use crate::keyed::lookup;
use crate::net::events::{ActivityKind, GatewayUpdateView, WsEventView};
use crate::net::openclaw::{framed, SessionView};
use crate::net::payloads::{agent_for_key, agent_in_key, chunks_text, is_silent};
use crate::net::record_laws::{
    agent_event_payload_reads_its_members, approval_event_payload_reads_its_members,
    cron_event_payload_reads_its_members, int_in, may_be_int, may_be_text,
    session_info_reads_its_members,
};
use crate::net::rpc::session_info;
use crate::text::{
    has_prefix, lowered, occurs, position, position_bounds, position_unique, trimmed, uppered,
};

verus! {

// ---------------------------------------------------------------------
// Session keys
// ---------------------------------------------------------------------

/// Whether a session key is one of an agent: `agent:<id>:<session>`, where the
/// id is not empty and holds no colon.
pub open spec fn is_key_of(key: Seq<char>, agent: Seq<char>) -> bool {
    &&& agent.len() > 0
    &&& forall|i: int| 0 <= i < agent.len() ==> agent[i] != ':'
    &&& exists|session: Seq<char>| key == "agent:"@ + agent + ":"@ + session
}

/// A session key leads to the agent whose key it is; one that is nobody's
/// leads to `main`.
pub proof fn keys_lead_to_their_agent(key: Seq<char>, agent: Seq<char>)
    ensures
        is_key_of(key, agent) ==> agent_in_key(key) == Some(agent) && agent_for_key(key) == agent,
        (forall|a: Seq<char>| !is_key_of(key, a)) ==> agent_in_key(key) is None && agent_for_key(
            key,
        ) == "main"@,
{
    reveal_strlit("agent:");
    reveal_strlit(":");
    let start = "agent:"@.len() as int;
    if is_key_of(key, agent) {
        let session = choose|session: Seq<char>| key == "agent:"@ + agent + ":"@ + session;
        assert(key.take(start) =~= "agent:"@);
        let rest = key.skip(start);
        assert(rest =~= agent + ":"@ + session);
        assert(rest[agent.len() as int] == ':');
        position_unique(rest, ':', agent.len() as int);
        assert(rest.take(agent.len() as int) =~= agent);
    }
    if agent_in_key(key) is Some {
        let a = agent_in_key(key)->Some_0;
        let rest = key.skip(start);
        let end = position(rest, ':');
        position_bounds(rest, ':');
        let session = rest.skip(end + 1);
        assert(key =~= "agent:"@ + rest);
        assert(rest =~= a + ":"@ + session);
        assert(key =~= "agent:"@ + a + ":"@ + session);
        assert(is_key_of(key, a));
    }
}

/// The key of an agent's main session is one of its keys.
pub proof fn main_session_is_its_own(agent: Seq<char>)
    requires
        agent.len() > 0,
        forall|i: int| 0 <= i < agent.len() ==> agent[i] != ':',
    ensures
        is_key_of("agent:"@ + agent + ":main"@, agent),
{
    reveal_strlit(":");
    reveal_strlit(":main");
    assert("agent:"@ + agent + ":main"@ =~= "agent:"@ + agent + ":"@ + ":main"@.skip(1));
}

// ---------------------------------------------------------------------
// Events
// ---------------------------------------------------------------------

/// Whether a frame pushes an event with a payload.
pub open spec fn pushes(frame: JsonView, event: Seq<char>, payload: JsonView) -> bool {
    &&& text_in(frame.field("type"@)) == Some("event"@)
    &&& text_in(frame.field("event"@)) == Some(event)
    &&& frame.field("payload"@) == Some(payload)
}

proof fn event_words_differ()
    ensures
        "sessions.changed"@ != "exec.approval.resolved"@,
        "sessions.changed"@ != "cron"@,
        "sessions.changed"@ != "agent"@,
        "sessions.changed"@ != "session.message"@,
        "sessions.changed"@ != "session.tool"@,
        "sessions.changed"@ != "exec.approval.requested"@,
        "sessions.changed"@ != "update.available"@,
        "exec.approval.resolved"@ != "cron"@,
        "exec.approval.resolved"@ != "agent"@,
        "exec.approval.resolved"@ != "session.message"@,
        "exec.approval.resolved"@ != "session.tool"@,
        "exec.approval.resolved"@ != "exec.approval.requested"@,
        "exec.approval.resolved"@ != "update.available"@,
        "cron"@ != "agent"@,
        "cron"@ != "session.message"@,
        "cron"@ != "session.tool"@,
        "cron"@ != "exec.approval.requested"@,
        "cron"@ != "update.available"@,
        "agent"@ != "session.message"@,
        "agent"@ != "session.tool"@,
        "agent"@ != "exec.approval.requested"@,
        "agent"@ != "update.available"@,
        "session.message"@ != "session.tool"@,
        "session.message"@ != "exec.approval.requested"@,
        "session.message"@ != "update.available"@,
        "session.tool"@ != "exec.approval.requested"@,
        "session.tool"@ != "update.available"@,
        "exec.approval.requested"@ != "update.available"@,
        "event"@ != "res"@,
{
    reveal_strlit("sessions.changed");
    reveal_strlit("exec.approval.resolved");
    reveal_strlit("cron");
    reveal_strlit("agent");
    reveal_strlit("session.message");
    reveal_strlit("session.tool");
    reveal_strlit("exec.approval.requested");
    reveal_strlit("update.available");
    assert("sessions.changed"@.len() == 16);
    assert("exec.approval.resolved"@.len() == 22);
    assert("cron"@.len() == 4);
    assert("agent"@.len() == 5);
    assert("session.message"@.len() == 15);
    assert("session.tool"@.len() == 12);
    assert("exec.approval.requested"@.len() == 23);
    assert("update.available"@.len() == 16);
    assert("sessions.changed"@[0] != "update.available"@[0]);
    reveal_strlit("event");
    reveal_strlit("res");
    assert("event"@.len() == 5);
    assert("res"@.len() == 3);
}

/// An agent's activity is told of the agent whose session it is in, and as
/// what its stream stands for. It changes nothing in the session.
pub proof fn activity_reaches_its_agent(
    s: SessionView,
    frame: JsonView,
    now: i64,
    p: JsonView,
    stream: Seq<char>,
    key: Seq<char>,
    agent: Seq<char>,
)
    requires
        pushes(frame, "agent"@, p),
        text_in(p.field("stream"@)) == Some(stream),
        text_in(p.field("sessionKey"@)) == Some(key),
        is_key_of(key, agent),
    ensures
        stream == "tool"@ ==> framed(s, frame, now).0 == seq![
            WsEventView::AgentActivity { agent_id: agent, kind: ActivityKind::ToolCalling },
        ],
        stream == "item"@ ==> framed(s, frame, now).0 == seq![
            WsEventView::AgentActivity { agent_id: agent, kind: ActivityKind::Thinking },
        ],
        stream == "error"@ ==> framed(s, frame, now).0 == seq![
            WsEventView::AgentActivity { agent_id: agent, kind: ActivityKind::Errored },
        ],
        stream != "tool"@ && stream != "item"@ && stream != "error"@ ==> framed(
            s,
            frame,
            now,
        ).0.len() == 0,
        framed(s, frame, now).1 == s,
{
    event_words_differ();
    agent_event_payload_reads_its_members(p);
    keys_lead_to_their_agent(key, agent);
    reveal_strlit("tool");
    reveal_strlit("item");
    reveal_strlit("error");
    assert("tool"@.len() == 4);
    assert("error"@.len() == 5);
    assert("tool"@[0] != "item"@[0]);
}

/// An activity that names no session, or one of no agent, is the main
/// agent's.
pub proof fn activity_falls_to_main(s: SessionView, frame: JsonView, now: i64, p: JsonView)
    requires
        pushes(frame, "agent"@, p),
        text_in(p.field("stream"@)) == Some("tool"@),
        p.field("sessionKey"@) is None || text_in(p.field("sessionKey"@)) is Some,
        text_in(p.field("sessionKey"@)) matches Some(k) ==> forall|a: Seq<char>| !is_key_of(k, a),
    ensures
        framed(s, frame, now).0 == seq![
            WsEventView::AgentActivity { agent_id: "main"@, kind: ActivityKind::ToolCalling },
        ],
{
    event_words_differ();
    agent_event_payload_reads_its_members(p);
    if let Some(k) = text_in(p.field("sessionKey"@)) {
        keys_lead_to_their_agent(k, k);
    }
}

/// The text of a message is the text of its chunks in order; what is no text
/// adds nothing.
pub proof fn chunks_add_up(chunks: Seq<JsonView>, c: JsonView)
    ensures
        chunks_text(Seq::empty()) == Seq::<char>::empty(),
        text_in(c.field("type"@)) == Some("text"@) && text_in(c.field("text"@)) is Some
            ==> chunks_text(chunks.push(c)) == chunks_text(chunks) + text_in(
            c.field("text"@),
        )->Some_0,
        text_in(c.field("type"@)) != Some("text"@) || text_in(c.field("text"@)) is None
            ==> chunks_text(chunks.push(c)) == chunks_text(chunks),
{
    reveal_strlit("");
    let f = |c: JsonView| crate::net::payloads::chunk_text(c);
    let n = chunks.len() as int;
    let all = chunks.push(c);
    crate::seqs::filter_map_step(all, n, f);
    assert(all.take(n + 1) =~= all);
    assert(all.take(n) =~= chunks);
    let before = chunks.filter_map(f);
    assert(Seq::<JsonView>::empty().filter_map(f) =~= Seq::empty());
    if let Some(t) = crate::net::payloads::chunk_text(c) {
        assert(all.filter_map(f) == before.push(t));
        assert(before.push(t).drop_last() =~= before);
        assert(crate::text::joined(before, ""@) + ""@ + t =~= crate::text::joined(before, ""@) + t);
        if before.len() == 0 {
            assert(crate::text::joined(before, ""@) + t =~= t);
        }
    }
}

/// What counts as silence: the bare word `NO_REPLY` or `HEARTBEAT_OK` in any
/// case and with any space around it, and the envelope with an `"action"`
/// that holds one of them. What is neither a bare word nor an envelope is
/// not.
pub proof fn silence_is_the_sentinel(text: Seq<char>)
    ensures
        lowered(trimmed(text)) == "no_reply"@ ==> is_silent(text),
        lowered(trimmed(text)) == "heartbeat_ok"@ ==> is_silent(text),
        has_prefix(trimmed(text), "{"@) && crate::text::has_suffix(trimmed(text), "}"@) && occurs(
            trimmed(text),
            "\"action\""@,
        ) && (occurs(uppered(trimmed(text)), "NO_REPLY"@) || occurs(
            uppered(trimmed(text)),
            "HEARTBEAT_OK"@,
        )) ==> is_silent(text),
        !has_prefix(trimmed(text), "{"@) && lowered(trimmed(text)) != "no_reply"@ && lowered(
            trimmed(text),
        ) != "heartbeat_ok"@ ==> !is_silent(text),
        !occurs(trimmed(text), "\"action\""@) && lowered(trimmed(text)) != "no_reply"@ && lowered(
            trimmed(text),
        ) != "heartbeat_ok"@ ==> !is_silent(text),
{
    reveal_strlit("NO_REPLY");
    reveal_strlit("no_reply");
    reveal_strlit("HEARTBEAT_OK");
    reveal_strlit("heartbeat_ok");
    reveal_strlit("{");
    assert(lowered("NO_REPLY"@) =~= "no_reply"@);
    assert(lowered("HEARTBEAT_OK"@) =~= "heartbeat_ok"@);
    let t = trimmed(text);
    assert(lowered(t).len() == t.len());
}

/// Whether a payload is an assistant's turn under an id that has not been
/// seen, in a session of an agent, with content.
pub open spec fn is_fresh_turn(
    s: SessionView,
    p: JsonView,
    id: Seq<char>,
    key: Seq<char>,
    agent: Seq<char>,
    chunks: Seq<JsonView>,
) -> bool {
    let m = p.field("message"@);
    &&& text_in(member(m, "role"@)) == Some("assistant"@)
    &&& items_in(member(m, "content"@)) == Some(chunks)
    &&& text_in(p.field("sessionKey"@)) == Some(key)
    &&& is_key_of(key, agent)
    &&& text_in(p.field("messageId"@)) == Some(id) || p.field("messageId"@) is None && text_in(
        member(m, "id"@),
    ) == Some(id)
    &&& !s.seen_message_ids.contains(id)
}

/// An assistant's turn is told to the agent in whose session it was spoken,
/// word for word, and a silent one as silence; a turn without words says
/// neither. What its payload says of the session's tokens is told before.
pub proof fn turn_reaches_its_agent(
    s: SessionView,
    frame: JsonView,
    now: i64,
    p: JsonView,
    id: Seq<char>,
    key: Seq<char>,
    agent: Seq<char>,
    chunks: Seq<JsonView>,
)
    requires
        pushes(frame, "session.message"@, p),
        is_fresh_turn(s, p, id, key, agent, chunks),
    ensures
        ({
            let text = chunks_text(chunks);
            let told = framed(s, frame, now).0;
            let usage = match session_info(p) {
                Some(i) => seq![WsEventView::SessionUsage(i)],
                None => Seq::empty(),
            };
            &&& trimmed(text).len() == 0 ==> told == usage
            &&& trimmed(text).len() > 0 && is_silent(text) ==> told == usage.push(
                WsEventView::AgentSilentTurn { agent_id: agent },
            )
            &&& trimmed(text).len() > 0 && !is_silent(text) ==> told == usage.push(
                WsEventView::AgentMessage { agent_id: agent, text },
            )
            &&& session_info(p) matches Some(i) ==> i.key == key && i.total_tokens == int_in(
                p.field("totalTokens"@),
            )
            &&& framed(s, frame, now).1.seen_message_ids.contains(id)
        }),
{
    event_words_differ();
    keys_lead_to_their_agent(key, agent);
    session_info_reads_its_members(p);
    let seen = s.seen_message_ids;
    let after = framed(s, frame, now).1.seen_message_ids;
    assert(seen.push(id).last() == id);
    assert(after[after.len() - 1] == id);
    assert(key.len() > 0);
}

/// What a user says, and what any other role says, is not told.
pub proof fn others_are_not_told(s: SessionView, frame: JsonView, now: i64, p: JsonView)
    requires
        pushes(frame, "session.message"@, p),
        text_in(member(p.field("message"@), "role"@)) != Some("assistant"@),
    ensures
        framed(s, frame, now) == (Seq::<WsEventView>::empty(), s),
{
    event_words_differ();
}

/// A tool call is told of the agent in whose session it is made: the tool's
/// name once, when it starts, and each time that the agent is calling tools.
pub proof fn tool_call_reaches_its_agent(
    s: SessionView,
    frame: JsonView,
    now: i64,
    p: JsonView,
    key: Seq<char>,
    agent: Seq<char>,
    tool: Seq<char>,
)
    requires
        pushes(frame, "session.tool"@, p),
        text_in(p.field("sessionKey"@)) == Some(key),
        is_key_of(key, agent),
    ensures
        ({
            let data = p.field("data"@);
            let told = framed(s, frame, now).0;
            let calling = WsEventView::AgentActivity {
                agent_id: agent,
                kind: ActivityKind::ToolCalling,
            };
            let starts = text_in(member(data, "phase"@)) == Some("start"@);
            let named = seq![
                WsEventView::AgentToolInvoked { agent_id: agent, text: "⚙ "@ + tool },
                calling,
            ];
            &&& !starts ==> told == seq![calling]
            &&& starts && text_in(member(data, "name"@)) == Some(tool) ==> told == named
            &&& starts && member(data, "name"@) is None && text_in(member(data, "tool"@)) == Some(
                tool,
            ) ==> told == named
            &&& starts && member(data, "name"@) is None && member(data, "tool"@) is None && tool
                == "tool"@ ==> told == named
            &&& framed(s, frame, now).1 == s
        }),
{
    event_words_differ();
    keys_lead_to_their_agent(key, agent);
}

/// Whether the members of a cron event's payload have the right types.
pub open spec fn reads_as_cron_event(p: JsonView) -> bool {
    &&& text_in(p.field("jobId"@)) is Some
    &&& text_in(p.field("action"@)) is Some
    &&& may_be_text(p.field("jobName"@))
    &&& may_be_text(p.field("status"@))
    &&& may_be_text(p.field("error"@))
    &&& may_be_int(p.field("runAtMs"@))
    &&& may_be_int(p.field("durationMs"@))
    &&& may_be_int(p.field("nextRunAtMs"@))
}

/// A job's start and end are told of the job: under the name that the event
/// carries, else under the one that its id is known by, else under its id. A
/// start tells that it runs; an end tells that it does not, and how it went.
/// Any other action tells nothing.
pub proof fn cron_event_is_told_of_its_job(
    s: SessionView,
    frame: JsonView,
    now: i64,
    p: JsonView,
    id: Seq<char>,
    name: Seq<char>,
)
    requires
        pushes(frame, "cron"@, p),
        reads_as_cron_event(p),
        text_in(p.field("jobId"@)) == Some(id),
        match text_in(p.field("jobName"@)) {
            Some(n) => name == n,
            None => match lookup(s.cron_id_to_name, id) {
                Some(n) => name == n,
                None => name == id,
            },
        },
    ensures
        ({
            let told = framed(s, frame, now).0;
            let action = text_in(p.field("action"@));
            let job = told[0]->CronDelta_0;
            &&& framed(s, frame, now).1 == s
            &&& action != Some("started"@) && action != Some("finished"@) ==> told.len() == 0
            &&& action == Some("started"@) || action == Some("finished"@) ==> {
                &&& told.len() == 1
                &&& told[0] is CronDelta
                &&& job.name == name
                &&& job.id == Some(id)
                &&& job.state.running == (action == Some("started"@))
            }
            &&& action == Some("finished"@) ==> {
                &&& job.state.last_status == text_in(p.field("status"@))
                &&& job.state.last_error == text_in(p.field("error"@))
                &&& job.state.last_run_at_ms == int_in(p.field("runAtMs"@))
                &&& job.state.last_duration_ms == int_in(p.field("durationMs"@))
                &&& job.state.next_run_at_ms == int_in(p.field("nextRunAtMs"@))
            }
            &&& action == Some("started"@) ==> {
                &&& job.state.last_status is None
                &&& job.state.last_error is None
                &&& job.state.last_run_at_ms is None
                &&& job.state.last_duration_ms is None
                &&& job.state.next_run_at_ms is None
            }
        }),
{
    event_words_differ();
    cron_event_payload_reads_its_members(p);
    reveal_strlit("started");
    reveal_strlit("finished");
    assert("started"@.len() == 7);
    assert("finished"@.len() == 8);
}

/// A request for approval is told with its id, session, tool and summary as
/// they came.
pub proof fn approval_request_is_told(s: SessionView, frame: JsonView, now: i64, p: JsonView)
    requires
        pushes(frame, "exec.approval.requested"@, p),
        p is Object,
        may_be_text(p.field("id"@)),
        may_be_text(p.field("sessionKey"@)),
        may_be_text(p.field("tool"@)),
        may_be_text(p.field("summary"@)),
    ensures
        ({
            let told = framed(s, frame, now).0;
            let a = told[0]->ApprovalRequested_0;
            &&& told.len() == 1
            &&& told[0] is ApprovalRequested
            &&& a.id == text_in(p.field("id"@))
            &&& a.session_key == text_in(p.field("sessionKey"@))
            &&& a.tool == text_in(p.field("tool"@))
            &&& a.summary == text_in(p.field("summary"@))
            &&& framed(s, frame, now).1 == s
        }),
{
    event_words_differ();
    approval_event_payload_reads_its_members(p);
}

/// A settled approval is told with its id, and without one when the payload
/// has none.
pub proof fn approval_end_is_told(s: SessionView, frame: JsonView, now: i64, p: JsonView)
    requires
        pushes(frame, "exec.approval.resolved"@, p),
    ensures
        framed(s, frame, now) == (
            seq![WsEventView::ApprovalResolved { id: text_in(p.field("id"@)) }],
            s,
        ),
{
    event_words_differ();
}

/// An update is told with both versions and its channel, `stable` unless the
/// payload says another; without both versions it is told that there is none.
pub proof fn update_is_told(s: SessionView, frame: JsonView, now: i64, p: JsonView)
    requires
        pushes(frame, "update.available"@, p),
    ensures
        ({
            let u = p.field("updateAvailable"@);
            let told = framed(s, frame, now).0;
            let from = text_in(member(u, "currentVersion"@));
            let to = text_in(member(u, "latestVersion"@));
            let channel = text_in(member(u, "channel"@));
            &&& told.len() == 1
            &&& from is Some && to is Some && channel is Some ==> told[0]
                == WsEventView::UpdateAvailable(
                Some(
                    GatewayUpdateView {
                        current: from->Some_0,
                        latest: to->Some_0,
                        channel: channel->Some_0,
                    },
                ),
            )
            &&& from is Some && to is Some && channel is None ==> told[0]
                == WsEventView::UpdateAvailable(
                Some(
                    GatewayUpdateView {
                        current: from->Some_0,
                        latest: to->Some_0,
                        channel: "stable"@,
                    },
                ),
            )
            &&& from is None || to is None ==> told[0] == WsEventView::UpdateAvailable(None)
            &&& framed(s, frame, now).1 == s
        }),
{
    event_words_differ();
}

/// That the sessions changed is told whatever the payload.
pub proof fn session_change_is_told(s: SessionView, frame: JsonView, now: i64)
    requires
        text_in(frame.field("type"@)) == Some("event"@),
        text_in(frame.field("event"@)) == Some("sessions.changed"@),
    ensures
        framed(s, frame, now) == (seq![WsEventView::SessionsChanged], s),
{
    event_words_differ();
}

/// A frame that is neither an event nor a response, and an event of another
/// name, lead to nothing.
pub proof fn unknown_frames_are_inert(s: SessionView, frame: JsonView, now: i64)
    requires
        ({
            let kind = text_in(frame.field("type"@));
            let event = text_in(frame.field("event"@));
            ||| kind != Some("event"@) && kind != Some("res"@)
            ||| kind == Some("event"@) && (event is None || 
                event != Some("sessions.changed"@)
                && event != Some("exec.approval.resolved"@)
                && event != Some("cron"@)
                && event != Some("agent"@)
                && event != Some("session.message"@)
                && event != Some("session.tool"@)
                && event != Some("exec.approval.requested"@)
                && event != Some("update.available"@))
        }),
    ensures
        framed(s, frame, now) == (Seq::<WsEventView>::empty(), s),
{
    event_words_differ();
    reveal_strlit("?");
    assert("?"@.len() == 1);

    reveal_strlit("sessions.changed");
    assert("sessions.changed"@.len() == 16);
    reveal_strlit("exec.approval.resolved");
    assert("exec.approval.resolved"@.len() == 22);
    reveal_strlit("cron");
    assert("cron"@.len() == 4);
    reveal_strlit("agent");
    assert("agent"@.len() == 5);
    reveal_strlit("session.message");
    assert("session.message"@.len() == 15);
    reveal_strlit("session.tool");
    assert("session.tool"@.len() == 12);
    reveal_strlit("exec.approval.requested");
    assert("exec.approval.requested"@.len() == 23);
    reveal_strlit("update.available");
    assert("update.available"@.len() == 16);
}

/// A turn and a tool call that name no session, or one of no agent, are the
/// main agent's.
pub proof fn the_rest_falls_to_main(s: SessionView, frame: JsonView, now: i64, p: JsonView)
    requires
        p.field("sessionKey"@) is None || text_in(p.field("sessionKey"@)) is Some,
        text_in(p.field("sessionKey"@)) matches Some(k) ==> forall|a: Seq<char>| !is_key_of(k, a),
    ensures
        ({
            let told = framed(s, frame, now).0;
            &&& pushes(frame, "session.tool"@, p) ==> told.len() > 0 && told.last() == (
            WsEventView::AgentActivity { agent_id: "main"@, kind: ActivityKind::ToolCalling })
            &&& pushes(frame, "session.message"@, p) ==> forall|i: int|
                0 <= i < told.len() ==> match #[trigger] told[i] {
                    WsEventView::AgentMessage { agent_id, .. } => agent_id == "main"@,
                    WsEventView::AgentSilentTurn { agent_id } => agent_id == "main"@,
                    WsEventView::SessionUsage(_) => true,
                    _ => false,
                }
        }),
{
    event_words_differ();
    reveal_strlit("");
    if let Some(k) = text_in(p.field("sessionKey"@)) {
        keys_lead_to_their_agent(k, k);
    } else {
        reveal_strlit("agent:");
        assert forall|a: Seq<char>| !is_key_of(""@, a) by {
            if is_key_of(""@, a) {
                let rest = choose|rest: Seq<char>| ""@ == "agent:"@ + a + ":"@ + rest;
                assert(("agent:"@ + a + ":"@ + rest).len() > 0);
            }
        }
        keys_lead_to_their_agent(""@, ""@);
    }
}

/// A turn whose id has been seen is told no more, whatever it says.
pub proof fn seen_turns_are_not_told(
    s: SessionView,
    frame: JsonView,
    now: i64,
    p: JsonView,
    id: Seq<char>,
)
    requires
        pushes(frame, "session.message"@, p),
        text_in(p.field("messageId"@)) == Some(id) || p.field("messageId"@) is None && text_in(
            member(p.field("message"@), "id"@),
        ) == Some(id),
        s.seen_message_ids.contains(id),
    ensures
        framed(s, frame, now) == (Seq::<WsEventView>::empty(), s),
{
    event_words_differ();
}

} // verus!
