//! What a response tells, said of every response.
use vstd::prelude::*;

use crate::json::{flag_in, parsed, text_in, JsonView};
use crate::keyed::{distinct_keys, lookup, put_law, removed_law};
use crate::net::commands::GatewayCommandView;
use crate::net::events::WsEventView;
use crate::net::handshake::{IncomingView, SessionErrorView};
use crate::net::openclaw::{framed, learned, taken, Session, SessionView};
use crate::net::payloads::{
    chat_history_in, chunks_text, first_main, history_entry, is_silent, session_list_in,
};
use crate::net::record_laws::{
    cron_job_reads_its_members, log_tail_payload_reads_its_members, main_agent_reads_its_members,
    may_be_text,
};
use crate::net::rpc::{
    agent_info, channel, cron_job, cron_state, main_agent, session_info, session_usage_point,
    CronJobView,
};
use crate::seqs::filter_map_all;
use crate::text::{decimal, trimmed};
use crate::ui::chat_view::{ChatMessageView, ChatRole};

verus! {

/// Whether a frame answers a request and grants it, with a payload.
pub open spec fn answers(frame: JsonView, id: Seq<char>, payload: JsonView) -> bool {
    &&& text_in(frame.field("type"@)) == Some("res"@)
    &&& text_in(frame.field("id"@)) == Some(id)
    &&& flag_in(frame.field("ok"@)) == Some(true)
    &&& frame.field("payload"@) == Some(payload)
}

/// Whether a payload has none of the members by which jobs, the log, a
/// persona, the agents and a history are recognised.
pub open spec fn has_no_earlier_shape(p: JsonView) -> bool {
    &&& p is Object
    &&& p.field("jobs"@) is None
    &&& p.field("cursor"@) is None
    &&& p.field("agentId"@) is None
    &&& p.field("defaultId"@) is None
    &&& p.field("messages"@) is None
}

// ---------------------------------------------------------------------
// Jobs
// ---------------------------------------------------------------------

/// A list of jobs names each of them: an id is known by the name that it was
/// last listed under, and one that is not listed by the name it had.
pub proof fn listed_ids_are_known(
    names: Seq<(Seq<char>, Seq<char>)>,
    crons: Seq<CronJobView>,
    i: int,
    id: Seq<char>,
)
    ensures
        0 <= i < crons.len() && crons[i].id == Some(id) && (forall|j: int|
            i < j < crons.len() ==> (#[trigger] crons[j]).id != Some(id)) ==> lookup(
            learned(names, crons),
            id,
        ) == Some(crons[i].name),
        (forall|j: int| 0 <= j < crons.len() ==> (#[trigger] crons[j]).id != Some(id)) ==> lookup(
            learned(names, crons),
            id,
        ) == lookup(names, id),
    decreases crons.len(),
{
    if crons.len() > 0 {
        let before = crons.drop_last();
        listed_ids_are_known(names, before, i, id);
        if let Some(k) = crons.last().id {
            put_law(learned(names, before), k, crons.last().name, id);
        }
        if crons.last().id != Some(id) {
            assert forall|j: int| 0 <= j < before.len() implies #[trigger] before[j]
                == crons[j] by {}
        }
    }
}

/// A list of jobs is told whole and in order, each job under its own name and
/// id, and afterwards the session knows each listed id by its name.
pub proof fn jobs_are_told(
    s: SessionView,
    frame: JsonView,
    now: i64,
    id: Seq<char>,
    p: JsonView,
    a: Seq<JsonView>,
)
    requires
        answers(frame, id, p),
        p.field("jobs"@) == Some(JsonView::Array(a)),
        forall|i: int|
            0 <= i < a.len() ==> {
                &&& (#[trigger] a[i]) is Object
                &&& text_in(a[i].field("name"@)) matches Some(n) && n.len() > 0
                &&& may_be_text(a[i].field("id"@))
                &&& a[i].field("state"@) matches Some(x) ==> cron_state(x) is Some
            },
    ensures
        ({
            let (told, after) = framed(s, frame, now);
            let l = told[0]->CronSnapshot_0;
            &&& told.len() == 1
            &&& told[0] is CronSnapshot
            &&& l.len() == a.len()
            &&& forall|i: int|
                0 <= i < a.len() ==> {
                    &&& text_in((#[trigger] a[i]).field("name"@)) == Some(l[i].name)
                    &&& l[i].id == text_in(a[i].field("id"@))
                    &&& a[i].field("state"@) matches Some(x) ==> cron_state(x) == Some(l[i].state)
                }
            &&& after == SessionView { cron_id_to_name: after.cron_id_to_name, ..s }
            &&& forall|i: int|
                0 <= i < l.len() && l[i].id is Some && (forall|j: int|
                    i < j < l.len() ==> (#[trigger] l[j]).id != l[i].id) ==> lookup(
                    after.cron_id_to_name,
                    (#[trigger] l[i]).id->Some_0,
                ) == Some(l[i].name)
        }),
{
    res_is_no_event();
    let f = |x: JsonView| cron_job(x);
    assert forall|i: int| 0 <= i < a.len() implies (#[trigger] f(a[i])) is Some && (f(
        a[i],
    )->Some_0).name.len() > 0 by {
        cron_job_reads_its_members(a[i]);
    }
    let l = crate::net::rpc::cron_job_list(JsonView::Array(a))->Some_0;
    assert forall|i: int| 0 <= i < l.len() implies (#[trigger] l[i]).name.len() > 0 by {
        assert(f(a[i]) is Some);
    }
    assert(crate::net::payloads::cron_list_in(p) == Some(l));
    assert forall|i: int| 0 <= i < a.len() implies {
        &&& text_in((#[trigger] a[i]).field("name"@)) == Some(l[i].name)
        &&& l[i].id == text_in(a[i].field("id"@))
        &&& a[i].field("state"@) matches Some(x) ==> cron_state(x) == Some(l[i].state)
    } by {
        assert(f(a[i]) is Some);
        cron_job_reads_its_members(a[i]);
    }
    assert forall|i: int|
        0 <= i < l.len() && l[i].id is Some && (forall|j: int|
            i < j < l.len() ==> (#[trigger] l[j]).id != l[i].id) implies lookup(
        learned(s.cron_id_to_name, l),
        (#[trigger] l[i]).id->Some_0,
    ) == Some(l[i].name) by {
        listed_ids_are_known(s.cron_id_to_name, l, i, l[i].id->Some_0);
    }
}

proof fn res_is_no_event()
    ensures
        "res"@ != "event"@,
{
    reveal_strlit("res");
    reveal_strlit("event");
    assert("res"@.len() == 3);
    assert("event"@.len() == 5);
}

// ---------------------------------------------------------------------
// The log
// ---------------------------------------------------------------------

/// A slice of the log is told line by line, and the next request for the log
/// goes on where it ended.
pub proof fn log_is_tailed(
    s: SessionView,
    frame: JsonView,
    now: i64,
    id: Seq<char>,
    p: JsonView,
    a: Seq<JsonView>,
    cursor: i64,
)
    requires
        answers(frame, id, p),
        p.field("jobs"@) is None,
        p.field("cursor"@) == Some(JsonView::Int(cursor)),
        p.field("lines"@) == Some(JsonView::Array(a)),
        forall|i: int| 0 <= i < a.len() ==> (#[trigger] a[i]) is Str,
        p.field("reset"@) is None || flag_in(p.field("reset"@)) is Some,
    ensures
        ({
            let (told, after) = framed(s, frame, now);
            let tail = told[0]->LogTail_0;
            &&& told.len() == 1
            &&& told[0] is LogTail
            &&& tail.cursor == cursor
            &&& tail.reset == (flag_in(p.field("reset"@)) == Some(true))
            &&& tail.lines.len() == a.len()
            &&& forall|i: int| 0 <= i < a.len() ==> #[trigger] a[i] == JsonView::Str(tail.lines[i])
            &&& after == SessionView { log_cursor: Some(cursor), ..s }
            &&& Session::tail_params(after.log_cursor).field("cursor"@) == Some(
                JsonView::Int(cursor),
            )
        }),
{
    res_is_no_event();
    log_tail_payload_reads_its_members(p);
    crate::keyed::key_index_unique(seq![("cursor"@, JsonView::Int(cursor))], "cursor"@, 0);
}

// ---------------------------------------------------------------------
// Agents
// ---------------------------------------------------------------------

/// A persona is told of the agent it belongs to, with its name and emoji where
/// they are not empty.
pub proof fn persona_is_told(
    s: SessionView,
    frame: JsonView,
    now: i64,
    id: Seq<char>,
    p: JsonView,
    agent: Seq<char>,
)
    requires
        answers(frame, id, p),
        p.field("jobs"@) is None,
        p.field("cursor"@) is None,
        text_in(p.field("agentId"@)) == Some(agent),
        agent.len() > 0,
    ensures
        ({
            let (told, after) = framed(s, frame, now);
            let name = text_in(p.field("name"@));
            let emoji = text_in(p.field("emoji"@));
            &&& told.len() == 1
            &&& told[0] is AgentIdentity
            &&& told[0]->AgentIdentity_agent_id == agent
            &&& told[0]->AgentIdentity_name is Some <==> (name matches Some(n) && n.len() > 0)
            &&& told[0]->AgentIdentity_name is Some ==> told[0]->AgentIdentity_name == name
            &&& told[0]->AgentIdentity_emoji is Some <==> (emoji matches Some(e) && e.len() > 0)
            &&& told[0]->AgentIdentity_emoji is Some ==> told[0]->AgentIdentity_emoji == emoji
            &&& after == s
        }),
{
    res_is_no_event();
}

/// A list of agents is told whole and in order, with the default one.
pub proof fn agents_are_told(
    s: SessionView,
    frame: JsonView,
    now: i64,
    id: Seq<char>,
    p: JsonView,
    a: Seq<JsonView>,
    default_id: Seq<char>,
)
    requires
        answers(frame, id, p),
        p.field("jobs"@) is None,
        p.field("cursor"@) is None,
        p.field("agentId"@) is None,
        text_in(p.field("defaultId"@)) == Some(default_id),
        p.field("agents"@) == Some(JsonView::Array(a)),
        forall|i: int| 0 <= i < a.len() ==> agent_info(#[trigger] a[i]) is Some,
    ensures
        ({
            let (told, after) = framed(s, frame, now);
            let l = told[0]->AgentsList_agents;
            &&& told.len() == 1
            &&& told[0] is AgentsList
            &&& told[0]->AgentsList_default_id == default_id
            &&& l.len() == a.len()
            &&& forall|i: int| 0 <= i < a.len() ==> agent_info(#[trigger] a[i]) == Some(l[i])
            &&& after == s
        }),
{
    res_is_no_event();
    let f = |x: JsonView| agent_info(x);
    assert forall|i: int| 0 <= i < a.len() implies (#[trigger] f(a[i])) is Some by {
        assert(agent_info(a[i]) is Some);
    }
}

/// The main agent is told with its id, model and state.
pub proof fn main_agent_is_told(
    s: SessionView,
    frame: JsonView,
    now: i64,
    id: Seq<char>,
    p: JsonView,
    agent: Seq<char>,
)
    requires
        answers(frame, id, p),
        has_no_earlier_shape(p),
        p.field("points"@) is None,
        p.field("sessions"@) is None,
        p.field("channels"@) is None,
        p.field("agents"@) is None,
        text_in(p.field("id"@)) == Some(agent),
        may_be_text(p.field("model"@)),
        may_be_text(p.field("state"@)),
    ensures
        ({
            let told = framed(s, frame, now).0;
            let m = told[0]->MainAgent_0;
            &&& told.len() == 1
            &&& told[0] is MainAgent
            &&& m.id == agent
            &&& m.model == text_in(p.field("model"@))
            &&& m.state == text_in(p.field("state"@))
        }),
{
    res_is_no_event();
    main_agent_reads_its_members(p);
}

// ---------------------------------------------------------------------
// Transcripts
// ---------------------------------------------------------------------

/// A history holds its entries in order: one with a role and words that are
/// no silence becomes a message with those words, its role and the time it
/// was read; any other is left out.
pub proof fn history_keeps_what_was_said(
    v: JsonView,
    w: JsonView,
    a: Seq<JsonView>,
    m: JsonView,
    text: Seq<char>,
    at: i64,
)
    requires
        v.field("messages"@) == Some(JsonView::Array(a)),
        w.field("messages"@) == Some(JsonView::Array(a.push(m))),
        chat_history_in(v, at) is Some,
        m.field("content"@) == Some(JsonView::Str(text)) || (m.field("content"@) matches Some(
            JsonView::Array(chunks),
        ) && text == chunks_text(chunks)) || m.field("content"@) is None && text_in(
            m.field("text"@),
        ) == Some(text),
    ensures
        ({
            let role = text_in(m.field("role"@));
            let before = chat_history_in(v, at)->Some_0;
            let after = chat_history_in(w, at)->Some_0;
            let says = trimmed(text).len() > 0 && !is_silent(text);
            &&& chat_history_in(w, at) is Some
            &&& role == Some("user"@) && says ==> after == before.push(
                ChatMessageView { role: ChatRole::User, text, at },
            )
            &&& role == Some("assistant"@) && says ==> after == before.push(
                ChatMessageView { role: ChatRole::Assistant, text, at },
            )
            &&& role is Some && role != Some("user"@) && role != Some("assistant"@) && says
                ==> after == before.push(ChatMessageView { role: ChatRole::Other, text, at })
            &&& role is None || !says ==> after == before
        }),
{
    reveal_strlit("user");
    reveal_strlit("assistant");
    assert("user"@.len() == 4);
    assert("assistant"@.len() == 9);
    let f = |m: JsonView| history_entry(m, at);
    let all = a.push(m);
    crate::seqs::filter_map_step(all, a.len() as int, f);
    assert(all.take(a.len() as int) =~= a);
    assert(all.take(a.len() as int + 1) =~= all);
    let i = choose|i: int| 0 <= i < a.len() && text_in((#[trigger] a[i]).field("role"@)) is Some;
    assert(all[i] == a[i]);
}

/// A response with messages is a history as soon as one of them has a role.
pub proof fn roles_make_a_history(v: JsonView, a: Seq<JsonView>, i: int, at: i64)
    requires
        v.field("messages"@) == Some(JsonView::Array(a)),
        0 <= i < a.len(),
        text_in(a[i].field("role"@)) is Some,
    ensures
        chat_history_in(v, at) is Some,
        chat_history_in(v, at)->Some_0.len() <= a.len(),
{
    history_is_no_longer(a, at);
}

proof fn history_is_no_longer(a: Seq<JsonView>, at: i64)
    ensures
        a.filter_map(|m: JsonView| history_entry(m, at)).len() <= a.len(),
    decreases a.len(),
{
    let f = |m: JsonView| history_entry(m, at);
    if a.len() > 0 {
        history_is_no_longer(a.drop_last(), at);
        crate::seqs::filter_map_step(a, a.len() - 1, f);
        assert(a.take(a.len() as int) =~= a);
        assert(a.take(a.len() - 1) =~= a.drop_last());
    } else {
        assert(a.filter_map(f) =~= Seq::empty());
    }
}

// ---------------------------------------------------------------------
// Sessions and channels
// ---------------------------------------------------------------------

/// A usage series that was asked for is told point by point, in order, of the
/// session that was asked about.
pub proof fn usage_is_told(
    s: SessionView,
    frame: JsonView,
    now: i64,
    id: Seq<char>,
    p: JsonView,
    a: Seq<JsonView>,
    key: Seq<char>,
)
    requires
        answers(frame, id, p),
        has_no_earlier_shape(p),
        lookup(s.pending_session_usage, id) == Some(key),
        p.field("points"@) == Some(JsonView::Array(a)),
        forall|i: int| 0 <= i < a.len() ==> session_usage_point(#[trigger] a[i]) is Some,
    ensures
        ({
            let told = framed(s, frame, now).0;
            let l = told[0]->SessionUsageTimeseries_points;
            &&& told.len() == 1
            &&& told[0] is SessionUsageTimeseries
            &&& told[0]->SessionUsageTimeseries_session_key == key
            &&& l.len() == a.len()
            &&& forall|i: int| 0 <= i < a.len() ==> session_usage_point(#[trigger] a[i]) == Some(l[i])
        }),
{
    res_is_no_event();
    let f = |x: JsonView| session_usage_point(x);
    assert forall|i: int| 0 <= i < a.len() implies (#[trigger] f(a[i])) is Some by {
        assert(session_usage_point(a[i]) is Some);
    }
}

/// A list of sessions is told one by one, in order.
pub proof fn sessions_are_told(
    s: SessionView,
    frame: JsonView,
    now: i64,
    id: Seq<char>,
    p: JsonView,
    a: Seq<JsonView>,
)
    requires
        answers(frame, id, p),
        has_no_earlier_shape(p),
        p.field("points"@) is None,
        p.field("sessions"@) == Some(JsonView::Array(a)),
        a.len() > 0,
        forall|i: int| 0 <= i < a.len() ==> session_info(#[trigger] a[i]) is Some,
    ensures
        ({
            let told = framed(s, frame, now).0;
            &&& told.len() == a.len()
            &&& forall|i: int|
                0 <= i < a.len() ==> Some(#[trigger] told[i]) == Some(
                    WsEventView::SessionUsage(session_info(a[i])->Some_0),
                )
        }),
{
    res_is_no_event();
    let f = |x: JsonView| session_info(x);
    assert forall|i: int| 0 <= i < a.len() implies (#[trigger] f(a[i])) is Some by {
        assert(session_info(a[i]) is Some);
    }
    filter_map_all(a, f);
    assert forall|i: int| 0 <= i < a.len() implies session_info(#[trigger] a[i]) == Some(
        a.filter_map(f)[i],
    ) by {
        assert(f(a[i]) is Some);
    }
    assert(session_list_in(p) is Some);
}

/// A list of channels is told whole and in order.
pub proof fn channels_are_told(
    s: SessionView,
    frame: JsonView,
    now: i64,
    id: Seq<char>,
    p: JsonView,
    a: Seq<JsonView>,
)
    requires
        answers(frame, id, p),
        has_no_earlier_shape(p),
        p.field("points"@) is None,
        p.field("sessions"@) is None,
        p.field("channels"@) == Some(JsonView::Array(a)),
        forall|i: int|
            0 <= i < a.len() ==> (channel(#[trigger] a[i]) matches Some(c) && c.name.len() > 0),
    ensures
        ({
            let told = framed(s, frame, now).0;
            let l = told[0]->ChannelSnapshot_0;
            &&& told.len() == 1
            &&& told[0] is ChannelSnapshot
            &&& l.len() == a.len()
            &&& forall|i: int| 0 <= i < a.len() ==> channel(#[trigger] a[i]) == Some(l[i])
        }),
{
    res_is_no_event();
    let f = |x: JsonView| channel(x);
    assert forall|i: int| 0 <= i < a.len() implies (#[trigger] f(a[i])) is Some by {
        assert(channel(a[i]) is Some);
    }
    let l = crate::net::rpc::channel_list(JsonView::Array(a))->Some_0;
    assert forall|i: int| 0 <= i < l.len() implies (#[trigger] l[i]).name.len() > 0 by {
        assert(channel(a[i]) is Some);
    }
}

/// A map of channels tells of each under its name, in the order that the
/// payload gives: enabled when it is configured, connected when it runs
/// without an error.
pub proof fn channel_map_is_told(
    s: SessionView,
    frame: JsonView,
    now: i64,
    id: Seq<char>,
    p: JsonView,
    fs: Seq<(Seq<char>, JsonView)>,
    order: Seq<JsonView>,
    i: int,
)
    requires
        answers(frame, id, p),
        has_no_earlier_shape(p),
        p.field("points"@) is None,
        p.field("sessions"@) is None,
        p.field("channels"@) == Some(JsonView::Object(fs)),
        p.field("channelOrder"@) == Some(JsonView::Array(order)),
        0 <= i < order.len(),
        forall|k: int|
            0 <= k < order.len() ==> (#[trigger] order[k]) is Str && lookup(fs, order[k]->Str_0)
                is Some,
    ensures
        ({
            let told = framed(s, frame, now).0;
            let name = order[i]->Str_0;
            let e = lookup(fs, name)->Some_0;
            let l = told[0]->ChannelSnapshot_0;
            let error = text_in(e.field("lastError"@));
            &&& told.len() == 1
            &&& told[0] is ChannelSnapshot
            &&& l.len() == order.len()
            &&& l[i].name == name
            &&& l[i].enabled <==> flag_in(e.field("configured"@)) == Some(true)
            &&& l[i].connected <==> flag_in(e.field("running"@)) == Some(true) && error is None
            &&& l[i].last_error == error
        }),
{
    res_is_no_event();
    let f = |x: JsonView| x.as_text();
    assert forall|k: int| 0 <= k < order.len() implies (#[trigger] f(order[k])) is Some by {
        assert(order[k] is Str);
    }
    filter_map_all(order, f);
    let names = order.filter_map(f);
    let g = |n: Seq<char>| crate::net::payloads::named_channel(fs, n);
    assert forall|k: int| 0 <= k < names.len() implies (#[trigger] g(names[k])) is Some by {
        assert(order[k] is Str);
        assert(f(order[k]) == Some(names[k]));
    }
    filter_map_all(names, g);
    assert(f(order[i]) == Some(names[i]));
    assert(g(names[i]) is Some);
}

/// A map of channels without an order is told in its own.
pub proof fn channel_map_has_its_own_order(
    s: SessionView,
    frame: JsonView,
    now: i64,
    id: Seq<char>,
    p: JsonView,
    fs: Seq<(Seq<char>, JsonView)>,
    i: int,
)
    requires
        answers(frame, id, p),
        has_no_earlier_shape(p),
        p.field("points"@) is None,
        p.field("sessions"@) is None,
        p.field("channels"@) == Some(JsonView::Object(fs)),
        p.field("channelOrder"@) is None,
        distinct_keys(fs),
        0 <= i < fs.len(),
    ensures
        ({
            let told = framed(s, frame, now).0;
            let l = told[0]->ChannelSnapshot_0;
            &&& told.len() == 1
            &&& told[0] is ChannelSnapshot
            &&& l.len() == fs.len()
            &&& l[i].name == fs[i].0
            &&& l[i].last_error == text_in(fs[i].1.field("lastError"@))
        }),
{
    res_is_no_event();
    let names = Seq::new(fs.len(), |k: int| fs[k].0);
    let g = |n: Seq<char>| crate::net::payloads::named_channel(fs, n);
    assert forall|k: int| 0 <= k < names.len() implies (#[trigger] g(names[k])) is Some by {
        crate::keyed::key_index_unique(fs, fs[k].0, k);
    }
    filter_map_all(names, g);
    crate::keyed::key_index_unique(fs, fs[i].0, i);
    assert(g(names[i]) is Some);
}

/// A command changes of a session only its number and what the answer will
/// need: under the number, the agent or session that was asked about.
pub proof fn commands_remember_what_they_ask(
    s: SessionView,
    c: GatewayCommandView,
    id: u64,
    asked: Seq<char>,
    other: Seq<char>,
)
    requires
        other != decimal(id as nat),
    ensures
        ({
            let t = Session::commanded(s, c, id);
            let k = decimal(id as nat);
            &&& t.rpc_id == id
            &&& t.cron_id_to_name == s.cron_id_to_name
            &&& t.seen_message_ids == s.seen_message_ids
            &&& t.log_cursor == s.log_cursor
            &&& lookup(t.pending_history, other) == lookup(s.pending_history, other)
            &&& lookup(t.pending_session_history, other) == lookup(s.pending_session_history, other)
            &&& lookup(t.pending_session_usage, other) == lookup(s.pending_session_usage, other)
            &&& c == (GatewayCommandView::FetchChatHistory { agent_id: asked }) ==> lookup(
                t.pending_history,
                k,
            ) == Some(asked)
            &&& c == (GatewayCommandView::FetchSessionHistory { session_key: asked }) ==> lookup(
                t.pending_session_history,
                k,
            ) == Some(asked)
            &&& c == (GatewayCommandView::FetchSessionUsage { session_key: asked }) ==> lookup(
                t.pending_session_usage,
                k,
            ) == Some(asked)
        }),
{
    let k = decimal(id as nat);
    match c {
        GatewayCommandView::FetchChatHistory { agent_id } => {
            put_law(s.pending_history, k, agent_id, other);
        },
        GatewayCommandView::FetchSessionHistory { session_key } => {
            put_law(s.pending_session_history, k, session_key, other);
        },
        GatewayCommandView::FetchSessionUsage { session_key } => {
            put_law(s.pending_session_usage, k, session_key, other);
        },
        _ => {},
    }
}

/// A text frame is taken as what it says; one that is no JSON ends the session,
/// as does a socket that closes, ends or fails. Nothing else is told or
/// changed by what is no text.
pub proof fn frames_are_taken_as_they_say(
    s: SessionView,
    txt: Seq<char>,
    frame: JsonView,
    why: Seq<char>,
    reason: Option<Seq<char>>,
    now: i64,
)
    ensures
        parsed(txt) == Ok::<JsonView, Seq<char>>(frame) ==> taken(s, IncomingView::Text(txt), now)
            == Ok::<(Seq<WsEventView>, SessionView), SessionErrorView>(framed(s, frame, now)),
        parsed(txt) == Err::<JsonView, Seq<char>>(why) ==> taken(s, IncomingView::Text(txt), now)
            == Err::<(Seq<WsEventView>, SessionView), SessionErrorView>(
            SessionErrorView::Json(why),
        ),
        taken(s, IncomingView::Closed(reason), now) == Err::<
            (Seq<WsEventView>, SessionView),
            SessionErrorView,
        >(SessionErrorView::SocketClosed),
        taken(s, IncomingView::Ended, now) == Err::<(Seq<WsEventView>, SessionView), SessionErrorView>(
            SessionErrorView::SocketClosed,
        ),
        taken(s, IncomingView::Failed(why), now) == Err::<
            (Seq<WsEventView>, SessionView),
            SessionErrorView,
        >(SessionErrorView::Connect(why)),
        taken(s, IncomingView::Other, now) == Ok::<
            (Seq<WsEventView>, SessionView),
            SessionErrorView,
        >((Seq::empty(), s)),
{
}

/// An answered request is no longer pending, and every other one still is.
pub proof fn answers_settle_one_request(
    s: SessionView,
    frame: JsonView,
    now: i64,
    id: Seq<char>,
    p: JsonView,
    other: Seq<char>,
)
    requires
        answers(frame, id, p),
        distinct_keys(s.pending_history),
        distinct_keys(s.pending_session_history),
        distinct_keys(s.pending_session_usage),
        other != id,
    ensures
        ({
            let t = framed(s, frame, now).1;
            &&& lookup(t.pending_history, other) == lookup(s.pending_history, other)
            &&& lookup(t.pending_session_history, other) == lookup(s.pending_session_history, other)
            &&& lookup(t.pending_session_usage, other) == lookup(s.pending_session_usage, other)
            &&& framed(s, frame, now).0.len() == 1 && framed(s, frame, now).0[0] is SessionHistory
                ==> lookup(t.pending_session_history, id) is None
            &&& framed(s, frame, now).0.len() == 1 && framed(s, frame, now).0[0] is ChatHistory
                ==> lookup(t.pending_history, id) is None
            &&& framed(s, frame, now).0.len() == 1 && framed(s, frame, now).0[0]
                is SessionUsageTimeseries ==> lookup(t.pending_session_usage, id) is None
            &&& t.rpc_id == s.rpc_id
            &&& t.seen_message_ids == s.seen_message_ids
        }),
{
    res_is_no_event();
    removed_law(s.pending_history, id, other);
    removed_law(s.pending_session_history, id, other);
    removed_law(s.pending_session_usage, id, other);
}

/// The main agent of a list is the first entry that reads as `main`.
pub proof fn main_agent_is_the_first_of_its_name(a: Seq<JsonView>, i: int)
    requires
        0 <= i < a.len(),
        main_agent(a[i]) matches Some(m) && m.id == "main"@,
        forall|j: int|
            0 <= j < i ==> !(main_agent(#[trigger] a[j]) matches Some(m) && m.id == "main"@),
    ensures
        first_main(a) == main_agent(a[i]),
    decreases i,
{
    if i > 0 {
        assert(!(main_agent(a[0]) matches Some(m) && m.id == "main"@));
        let rest = a.drop_first();
        assert forall|j: int| 0 <= j < i - 1 implies !(main_agent(#[trigger] rest[j]) matches Some(m)
            && m.id == "main"@) by {
            assert(rest[j] == a[j + 1]);
        }
        main_agent_is_the_first_of_its_name(rest, i - 1);
    }
}

} // verus!
