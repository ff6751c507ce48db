//! What the streams that stand in for the gateway tell, said of every command
//! and every file.
use vstd::prelude::*;

use crate::json::{flag_in, member, parsed_bytes, text_in, JsonView};
use crate::net::commands::GatewayCommandView;
use crate::net::demo::{
    cursor_after, demo_answer, demo_session_info, events_due, next_time, scenario, tick,
    tick_events, ticks_due, truthy, usage_series, LoopCursor, TickView, TimedDemoEventView,
};
use crate::net::event_laws::{is_key_of, keys_lead_to_their_agent};
use crate::net::events::{ActivityKind, WsEventView};
use crate::net::fields::count_of;
use crate::net::mock::{script_asked, Script};
use crate::net::openclaw_ssh::{
    channels_in, config_in, config_polled, jobs_in, jobs_polled, primary_in, provider,
    PollErrorView,
};
use crate::net::rpc::{channel_list, cron_job, cron_job_list, main_agent, MainAgentView};
use crate::text::words;
use crate::ui::chat_view::ChatMessageView;

verus! {

// ---------------------------------------------------------------------
// The demo
// ---------------------------------------------------------------------

/// What the demo answers is about the agent or the session that was asked
/// about, whichever it is, and a message is answered by its agent and by no
/// other.
pub proof fn demo_answers_about_what_was_asked(
    id: Seq<char>,
    message: Seq<char>,
    key: Seq<char>,
    now_ms: i64,
    at: i64,
)
    ensures
        ({
            let r = demo_answer(
                GatewayCommandView::SendChat { agent_id: id, message, idempotency_key: key },
                now_ms,
                at,
            );
            &&& r.len() == 4
            &&& r[0] == WsEventView::AgentActivity { agent_id: id, kind: ActivityKind::Thinking }
            &&& r[1] is AgentToolInvoked && r[1]->AgentToolInvoked_agent_id == id
            &&& r[2] is AgentMessage && r[2]->AgentMessage_agent_id == id
            &&& r[3] == WsEventView::AgentActivity { agent_id: id, kind: ActivityKind::Idle }
        }),
        ({
            let r = demo_answer(GatewayCommandView::FetchChatHistory { agent_id: id }, now_ms, at);
            r.len() == 1 && r[0] is ChatHistory && r[0]->ChatHistory_agent_id == id
        }),
        ({
            let r = demo_answer(
                GatewayCommandView::FetchAgentIdentity { agent_id: id },
                now_ms,
                at,
            );
            r.len() == 1 && r[0] is AgentIdentity && r[0]->AgentIdentity_agent_id == id
        }),
        ({
            let r = demo_answer(
                GatewayCommandView::FetchSessionHistory { session_key: id },
                now_ms,
                at,
            );
            r.len() == 1 && r[0] is SessionHistory && r[0]->SessionHistory_session_key == id
        }),
        ({
            let r = demo_answer(
                GatewayCommandView::FetchSessionUsage { session_key: id },
                now_ms,
                at,
            );
            r.len() == 1 && r[0] is SessionUsageTimeseries
                && r[0]->SessionUsageTimeseries_session_key == id
                && r[0]->SessionUsageTimeseries_points.len() > 1
        }),
        demo_answer(GatewayCommandView::Reconnect, now_ms, at) == seq![WsEventView::Connected],
        demo_answer(GatewayCommandView::RunCron { job_id: id }, now_ms, at).len() == 0,
        demo_answer(
            GatewayCommandView::ResolveApproval { id, decision: message },
            now_ms,
            at,
        ).len() == 0,
{
}

/// A reset empties the chat of the agent whose session it is.
pub proof fn demo_reset_is_of_its_agent(key: Seq<char>, agent: Seq<char>, now_ms: i64, at: i64)
    requires
        is_key_of(key, agent),
    ensures
        demo_answer(GatewayCommandView::ResetSession { session_key: key }, now_ms, at) == seq![
            WsEventView::ChatHistory { agent_id: agent, messages: Seq::<ChatMessageView>::empty() },
        ],
{
    keys_lead_to_their_agent(key, agent);
}

/// The demo's reply to a short message of single words repeats it.
pub proof fn demo_reply_repeats_the_message(
    id: Seq<char>,
    message: Seq<char>,
    key: Seq<char>,
    now_ms: i64,
    at: i64,
)
    requires
        crate::text::joined(words(message), " "@) == message,
        message.len() <= 72,
    ensures
        demo_answer(
            GatewayCommandView::SendChat { agent_id: id, message, idempotency_key: key },
            now_ms,
            at,
        )[2]->AgentMessage_text == "Demo reply: I received \""@ + message
            + "\" and kept the exchange offline."@,
{
}

/// A usage series has a point for each total, in order and half a minute
/// apart.
pub proof fn usage_grows_by_its_totals(start_ms: i64, totals: Seq<i64>, i: int)
    requires
        0 <= i < totals.len(),
        i64::MIN <= start_ms + i * 30_000 <= i64::MAX,
    ensures
        usage_series(start_ms, totals).len() == totals.len(),
        usage_series(start_ms, totals)[i].cumulative_tokens == totals[i],
        usage_series(start_ms, totals)[i].total_tokens == totals[i],
        usage_series(start_ms, totals)[i].timestamp == start_ms + i * 30_000,
        totals[i] >= 0 ==> usage_series(start_ms, totals)[i].input + usage_series(
            start_ms,
            totals,
        )[i].output == totals[i],
{
}

proof fn ticks_due_law(ticks: Seq<TickView>, i: int, t: u64)
    requires
        0 <= i <= ticks.len(),
    ensures
        0 <= ticks_due(ticks, i, t) <= ticks.len() - i,
        forall|k: int| i <= k < i + ticks_due(ticks, i, t) ==> (#[trigger] ticks[k]).at_ms == t,
        i + ticks_due(ticks, i, t) < ticks.len() ==> ticks[i + ticks_due(ticks, i, t)].at_ms != t,
    decreases ticks.len() - i,
{
    if i < ticks.len() && ticks[i].at_ms == t {
        ticks_due_law(ticks, i + 1, t);
    }
}

proof fn events_due_law(events: Seq<TimedDemoEventView>, i: int, t: u64)
    requires
        0 <= i <= events.len(),
    ensures
        0 <= events_due(events, i, t) <= events.len() - i,
        forall|k: int| i <= k < i + events_due(events, i, t) ==> (#[trigger] events[k]).at_ms == t,
        i + events_due(events, i, t) < events.len() ==> events[i + events_due(events, i, t)].at_ms
            != t,
    decreases events.len() - i,
{
    if i < events.len() && events[i].at_ms == t {
        events_due_law(events, i + 1, t);
    }
}

/// What comes next in the loop is what is due first, and all of what is due
/// at that time: nothing is passed over and nothing comes early.
pub proof fn loop_plays_in_time(
    ticks: Seq<TickView>,
    events: Seq<TimedDemoEventView>,
    c: LoopCursor,
    t: u64,
)
    requires
        c.tick <= ticks.len() <= usize::MAX,
        c.event <= events.len() <= usize::MAX,
        next_time(ticks, events, c) == Some(t),
    ensures
        ({
            let next = cursor_after(ticks, events, c, t);
            &&& c.tick < ticks.len() ==> t <= ticks[c.tick as int].at_ms
            &&& c.event < events.len() ==> t <= events[c.event as int].at_ms
            &&& c.tick < ticks.len() && t == ticks[c.tick as int].at_ms || c.event < events.len()
                && t == events[c.event as int].at_ms
            &&& forall|k: int| c.tick <= k < next.tick ==> (#[trigger] ticks[k]).at_ms == t
            &&& forall|k: int| c.event <= k < next.event ==> (#[trigger] events[k]).at_ms == t
            &&& next.tick < ticks.len() ==> ticks[next.tick as int].at_ms != t
            &&& next.event < events.len() ==> events[next.event as int].at_ms != t
        }),
{
    ticks_due_law(ticks, c.tick as int, t);
    events_due_law(events, c.event as int, t);
}

/// The loop ends when nothing is left.
pub proof fn loop_ends_at_its_end(
    ticks: Seq<TickView>,
    events: Seq<TimedDemoEventView>,
    c: LoopCursor,
)
    ensures
        next_time(ticks, events, c) is None <==> c.tick >= ticks.len() && c.event >= events.len(),
{
}

/// A tick tells its jobs, its channels and its main agent.
pub proof fn tick_tells_all(t: TickView)
    ensures
        tick_events(t).len() == 3,
        tick_events(t)[0] == WsEventView::CronSnapshot(t.crons),
        tick_events(t)[1] == WsEventView::ChannelSnapshot(t.channels),
        tick_events(t)[2] == WsEventView::MainAgent(t.main),
{
}

/// A scenario is read member by member, its ticks in order.
pub proof fn scenario_reads_its_members(v: JsonView, a: Seq<JsonView>, seconds: i64)
    requires
        v.field("loop_seconds"@) == Some(JsonView::Int(seconds)),
        seconds >= 0,
        v.field("ticks"@) == Some(JsonView::Array(a)),
        forall|i: int| 0 <= i < a.len() ==> tick(#[trigger] a[i]) is Some,
    ensures
        ({
            let s = scenario(v)->Some_0;
            &&& scenario(v) is Some
            &&& s.loop_seconds == seconds
            &&& s.ticks.len() == a.len()
            &&& forall|i: int| 0 <= i < a.len() ==> tick(#[trigger] a[i]) == Some(s.ticks[i])
        }),
{
    let f = |x: JsonView| tick(x);
    assert forall|i: int| 0 <= i < a.len() implies (#[trigger] f(a[i])) is Some by {
        assert(tick(a[i]) is Some);
    }
}

/// A tick is read member by member, each under its own name.
pub proof fn tick_reads_its_members(v: JsonView)
    requires
        v is Object,
    ensures
        tick(v) matches Some(t) ==> {
            &&& count_of(v.field("at_ms"@)) == Some(t.at_ms)
            &&& v.field("crons"@) is Some && cron_job_list(v.field("crons"@)->Some_0) == Some(
                t.crons,
            )
            &&& v.field("channels"@) is Some && channel_list(v.field("channels"@)->Some_0) == Some(
                t.channels,
            )
            &&& v.field("main"@) is Some && main_agent(v.field("main"@)->Some_0) == Some(t.main)
        },
{
}

// ---------------------------------------------------------------------
// Files
// ---------------------------------------------------------------------

/// The file of the jobs lists them whole and in order; one without any lists
/// none.
pub proof fn job_file_lists_its_jobs(v: JsonView, a: Seq<JsonView>)
    requires
        v is Object,
    ensures
        v.field("jobs"@) is None ==> jobs_in(v) is Some && jobs_in(v)->Some_0.len() == 0,
        v.field("jobs"@) == Some(JsonView::Array(a)) && (forall|i: int|
            0 <= i < a.len() ==> cron_job(#[trigger] a[i]) is Some) ==> {
            &&& jobs_in(v) is Some
            &&& jobs_in(v)->Some_0.len() == a.len()
            &&& forall|i: int|
                0 <= i < a.len() ==> cron_job(#[trigger] a[i]) == Some(jobs_in(v)->Some_0[i])
        },
{
    let f = |x: JsonView| cron_job(x);
    if forall|i: int| 0 <= i < a.len() ==> cron_job(#[trigger] a[i]) is Some {
        assert forall|i: int| 0 <= i < a.len() implies (#[trigger] f(a[i])) is Some by {
            assert(cron_job(a[i]) is Some);
        }
    }
}

/// The configuration tells of each channel under its own name, on exactly
/// when it is enabled, and of the main agent by the model it is given.
pub proof fn config_tells_channels_and_model(
    v: JsonView,
    fs: Seq<(Seq<char>, JsonView)>,
    model: Seq<char>,
    i: int,
)
    requires
        v.field("channels"@) == Some(JsonView::Object(fs)),
        forall|k: int|
            0 <= k < fs.len() ==> (#[trigger] fs[k]).1 is Object && (fs[k].1.field("enabled"@)
                is None || flag_in(fs[k].1.field("enabled"@)) is Some),
        0 <= i < fs.len(),
        ({
            let agents = v.field("agents"@);
            let defaults = member(agents, "defaults"@);
            text_in(member(member(defaults, "model"@), "primary"@)) == Some(model)
        }),
    ensures
        ({
            let c = config_in(v)->Some_0;
            let on = flag_in(fs[i].1.field("enabled"@)) == Some(true);
            &&& config_in(v) is Some
            &&& c.0.len() == fs.len()
            &&& c.0[i].name == fs[i].0
            &&& c.0[i].enabled == on
            &&& c.0[i].connected == on
            &&& c.0[i].last_error is None
            &&& c.1 == Some(
                MainAgentView { id: "main"@, model: Some(model), state: Some("idle"@) },
            )
        }),
{
    assert forall|k: int| 0 <= k < fs.len() implies provider(#[trigger] fs[k]) is Some by {}
    assert(channels_in(v) is Some);
    assert(provider(fs[i]) is Some);
    let agents = v.field("agents"@)->Some_0;
    let defaults = agents.field("defaults"@)->Some_0;
    let m = defaults.field("model"@)->Some_0;
    assert(m.field("primary"@) == Some(JsonView::Str(model)));
    assert(primary_in(v) == Some(Some(model)));
}

/// A poll of the jobs tells the jobs that the file lists, or that the
/// connection is down and why; a poll of the configuration tells what it
/// configures, or nothing.
pub proof fn polls_tell_what_the_files_say(raw: Seq<u8>, v: JsonView, e: PollErrorView)
    ensures
        parsed_bytes(raw) == Ok::<JsonView, Seq<char>>(v) ==> (jobs_in(v) matches Some(jobs)
            ==> jobs_polled(Ok(raw)) == seq![WsEventView::CronSnapshot(jobs)]),
        parsed_bytes(raw) is Err || jobs_in(parsed_bytes(raw)->Ok_0) is None ==> jobs_polled(
            Ok(raw),
        ).len() == 1 && jobs_polled(Ok(raw))[0] is Disconnected,
        jobs_polled(Err(e)) == seq![WsEventView::Disconnected("cron: "@ + e.told())],
        parsed_bytes(raw) == Ok::<JsonView, Seq<char>>(v) ==> (config_in(v) matches Some(c) ==> {
            let told = config_polled(Ok(raw));
            &&& told[0] == WsEventView::ChannelSnapshot(c.0)
            &&& c.1 is None ==> told.len() == 1
            &&& c.1 matches Some(main) ==> told.len() == 2 && told[1] == WsEventView::MainAgent(
                main,
            )
        }),
        parsed_bytes(raw) is Err ==> config_polled(Ok(raw)).len() == 0,
        config_polled(Err(e)).len() == 0,
{
}

/// A script is played when it is asked for by `1`, `true` or `yes`; the demo
/// comes before the mock.
pub proof fn scripts_are_asked_for(v: Seq<char>, other: Option<Seq<char>>)
    ensures
        truthy(Some(v)) <==> v == "1"@ || v == "true"@ || v == "yes"@,
        !truthy(None),
        script_asked(Some("1"@), other) == Some(Script::Demo),
        script_asked(None, Some("1"@)) == Some(Script::Mock),
        script_asked(None, None) is None,
        script_asked(None, Some(v)) is Some <==> v == "1"@ || v == "true"@ || v == "yes"@,
{
}

/// A session of the demo is the one it is asked for, with the tokens it is
/// given.
pub proof fn demo_sessions_are_their_own(
    key: Seq<char>,
    total: i64,
    updated_at_ms: i64,
    kind: Seq<char>,
    now_ms: i64,
)
    ensures
        ({
            let s = demo_session_info(key, total, updated_at_ms, kind, now_ms);
            &&& s.key == key
            &&& s.total_tokens == Some(total)
            &&& s.updated_at_ms == Some(updated_at_ms)
            &&& s.kind == Some(kind)
            &&& updated_at_ms <= now_ms && now_ms - updated_at_ms <= i64::MAX ==> s.age_ms == Some(
                (now_ms - updated_at_ms) as i64,
            )
        }),
{
}

} // verus!
