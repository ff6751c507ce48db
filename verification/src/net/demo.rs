//! The scripted stream of Demo mode, which stands in for a gateway.
//!
//! A scenario holds snapshots to send at given times of a loop. Each loop
//! also covers a visible reply with a tool call, a silent run, and an error
//! with the recovery from it.
use vstd::prelude::*;

use crate::domain::agent::AgentId;
use crate::json::{parse, parsed, Json, JsonView};
use crate::net::commands::{GatewayCommand, GatewayCommandView};
use crate::net::events::{ActivityKind, WsEvent, WsEventView};
use crate::net::fields::{
    count_of, get_slot, is_record, read_all, read_count, record_shape, slot,
};
use crate::net::payloads::{agent_for_key, route_agent};
use crate::net::rpc::{
    channel_list, cron_job_list, decode_channels, decode_cron_jobs, main_agent, AgentIdentity,
    AgentIdentityView, AgentInfo, AgentInfoView, AgentModelRef, AgentModelRefView, Channel,
    ChannelView, CronJob, CronJobView, LogTailPayload, LogTailPayloadView, MainAgent, MainAgentView,
    SessionInfo, SessionInfoView, SessionUsagePoint, SessionUsagePointView,
};
use crate::seqs::{no_items, one_item, push_to};
use crate::text::{
    cat3, decimal, ellipsize, ellipsized, join, joined, padded_text, same, split_words, u64_text,
    words, zero_padded,
};
use crate::ui::chat_view::{ChatMessage, ChatMessageView, ChatRole};

verus! {

// ---------------------------------------------------------------------
// The scenario
// ---------------------------------------------------------------------

/// The snapshots of one moment of the loop.
#[derive(Debug, PartialEq)]
pub struct Tick {
    pub at_ms: u64,
    pub crons: Vec<CronJob>,
    pub channels: Vec<Channel>,
    pub main: MainAgent,
}

/// What [`Tick`] holds, as mathematical values.
#[verifier::ext_equal]
pub struct TickView {
    pub at_ms: u64,
    pub crons: Seq<CronJobView>,
    pub channels: Seq<ChannelView>,
    pub main: MainAgentView,
}

impl DeepView for Tick {
    type V = TickView;

    open spec fn deep_view(&self) -> TickView {
        TickView {
            at_ms: self.at_ms.deep_view(),
            crons: self.crons.deep_view(),
            channels: self.channels.deep_view(),
            main: self.main.deep_view(),
        }
    }
}

impl Clone for Tick {
    fn clone(&self) -> (r: Tick)
        ensures
            r.deep_view() == self.deep_view(),
    {
        let r = Tick {
            at_ms: self.at_ms,
            crons: self.crons.clone(),
            channels: self.channels.clone(),
            main: self.main.clone(),
        };
        assert(r.crons.deep_view() =~= self.crons.deep_view());
        assert(r.channels.deep_view() =~= self.channels.deep_view());
        r
    }
}

/// A loop of snapshots.
#[derive(Debug, PartialEq)]
pub struct Scenario {
    pub loop_seconds: u64,
    pub ticks: Vec<Tick>,
}

/// What [`Scenario`] holds, as mathematical values.
#[verifier::ext_equal]
pub struct ScenarioView {
    pub loop_seconds: u64,
    pub ticks: Seq<TickView>,
}

impl DeepView for Scenario {
    type V = ScenarioView;

    open spec fn deep_view(&self) -> ScenarioView {
        ScenarioView {
            loop_seconds: self.loop_seconds.deep_view(),
            ticks: self.ticks.deep_view(),
        }
    }
}

impl Clone for Scenario {
    fn clone(&self) -> (r: Scenario)
        ensures
            r.deep_view() == self.deep_view(),
    {
        let r = Scenario {
            loop_seconds: self.loop_seconds,
            ticks: self.ticks.clone(),
        };
        assert(r.ticks.deep_view() =~= self.ticks.deep_view());
        r
    }
}

/// Reads a tick from a value.
pub open spec fn tick(v: JsonView) -> Option<TickView> {
    if !is_record(v, 4) {
        None
    } else {
        let at_ms = count_of(slot(v, "at_ms"@, 0));
        let crons = match slot(v, "crons"@, 1) {
            Some(l) => cron_job_list(l),
            None => None,
        };
        let channels = match slot(v, "channels"@, 2) {
            Some(l) => channel_list(l),
            None => None,
        };
        let main = match slot(v, "main"@, 3) {
            Some(m) => main_agent(m),
            None => None,
        };
        if at_ms is Some && crons is Some && channels is Some && main is Some {
            Some(
                TickView {
                    at_ms: at_ms->Some_0,
                    crons: crons->Some_0,
                    channels: channels->Some_0,
                    main: main->Some_0,
                },
            )
        } else {
            None
        }
    }
}

/// Reads a list of ticks from a value.
pub open spec fn tick_list(v: JsonView) -> Option<Seq<TickView>> {
    match v {
        JsonView::Array(a) => read_all(a, |x: JsonView| tick(x)),
        _ => None,
    }
}

/// Reads a scenario from a value.
pub open spec fn scenario(v: JsonView) -> Option<ScenarioView> {
    if !is_record(v, 2) {
        None
    } else {
        let loop_seconds = count_of(slot(v, "loop_seconds"@, 0));
        let ticks = match slot(v, "ticks"@, 1) {
            Some(l) => tick_list(l),
            None => None,
        };
        if loop_seconds is Some && ticks is Some {
            Some(ScenarioView { loop_seconds: loop_seconds->Some_0, ticks: ticks->Some_0 })
        } else {
            None
        }
    }
}

impl Tick {
    pub fn decode(v: &Json) -> (r: Option<Tick>)
        ensures
            r.deep_view() == tick(v.deep_view()),
    {
        if !record_shape(v, 4) {
            return None;
        }
        let at_ms: u64 = read_count(get_slot(v, "at_ms", 0))?;
        let crons: Vec<CronJob> = match get_slot(v, "crons", 1) {
            Some(l) => decode_cron_jobs(l)?,
            None => {
                return None;
            },
        };
        let channels: Vec<Channel> = match get_slot(v, "channels", 2) {
            Some(l) => decode_channels(l)?,
            None => {
                return None;
            },
        };
        let main: MainAgent = match get_slot(v, "main", 3) {
            Some(m) => MainAgent::decode(m)?,
            None => {
                return None;
            },
        };
        Some(Tick { at_ms, crons, channels, main })
    }
}

fn decode_ticks(v: &Json) -> (r: Option<Vec<Tick>>)
    ensures
        r.deep_view() == tick_list(v.deep_view()),
{
    match v {
        Json::Array(a) => {
            proof {
                crate::json::array_tree(*a);
            }
            let ghost f = |x: JsonView| tick(x);
            let ghost all = a.deep_view();
            let mut out: Vec<Tick> = Vec::new();
            let mut i: usize = 0;
            while i < a.len()
                invariant
                    i <= a@.len(),
                    all == a.deep_view(),
                    f == (|x: JsonView| tick(x)),
                    v.deep_view() == JsonView::Array(all),
                    out@.len() == i,
                    forall|j: int|
                        0 <= j < i ==> (#[trigger] f(all[j])) == Some(out@[j].deep_view()),
                decreases a@.len() - i,
            {
                assert(all[i as int] == a@[i as int].deep_view());
                match Tick::decode(&a[i]) {
                    Some(x) => {
                        out.push(x);
                    },
                    None => {
                        assert(f(all[i as int]) is None);
                        return None;
                    },
                }
                i = i + 1;
            }
            assert(out.deep_view() =~= read_all(all, f)->Some_0);
            Some(out)
        },
        _ => None,
    }
}

impl Scenario {
    pub fn decode(v: &Json) -> (r: Option<Scenario>)
        ensures
            r.deep_view() == scenario(v.deep_view()),
    {
        if !record_shape(v, 2) {
            return None;
        }
        let loop_seconds: u64 = read_count(get_slot(v, "loop_seconds", 0))?;
        let ticks: Vec<Tick> = match get_slot(v, "ticks", 1) {
            Some(l) => decode_ticks(l)?,
            None => {
                return None;
            },
        };
        Some(Scenario { loop_seconds, ticks })
    }

    /// Reads a scenario from JSON text. The error says why not.
    pub fn from_text(text: &str) -> (r: Result<Scenario, String>)
        ensures
            match r {
                Ok(s) => parsed(text@) is Ok && scenario(parsed(text@)->Ok_0) == Some(
                    s.deep_view(),
                ),
                Err(e) => match parsed(text@) {
                    Ok(v) => scenario(v) is None && e@ == "bad fixture: unexpected shape"@,
                    Err(why) => e@ == "bad fixture: "@ + why,
                },
            },
    {
        match parse(text) {
            Ok(v) => match Scenario::decode(&v) {
                Some(s) => Ok(s),
                None => Err("bad fixture: unexpected shape".to_owned()),
            },
            Err(e) => Err(crate::text::cat("bad fixture: ", e.as_str())),
        }
    }
}

// ---------------------------------------------------------------------
// The loop
// ---------------------------------------------------------------------

/// An event at a time of the loop.
#[derive(Debug, PartialEq)]
pub struct TimedDemoEvent {
    pub at_ms: u64,
    pub event: WsEvent,
}

/// What [`TimedDemoEvent`] holds, as mathematical values.
#[verifier::ext_equal]
pub struct TimedDemoEventView {
    pub at_ms: u64,
    pub event: WsEventView,
}

impl DeepView for TimedDemoEvent {
    type V = TimedDemoEventView;

    open spec fn deep_view(&self) -> TimedDemoEventView {
        TimedDemoEventView {
            at_ms: self.at_ms.deep_view(),
            event: self.event.deep_view(),
        }
    }
}

impl Clone for TimedDemoEvent {
    fn clone(&self) -> (r: TimedDemoEvent)
        ensures
            r.deep_view() == self.deep_view(),
    {
        TimedDemoEvent {
            at_ms: self.at_ms,
            event: self.event.clone(),
        }
    }
}

pub open spec fn at(at_ms: u64, event: WsEventView) -> TimedDemoEventView {
    TimedDemoEventView { at_ms, event }
}

pub open spec fn inbound() -> WsEventView {
    WsEventView::AgentInboundUserMessage { agent_id: "main"@ }
}

pub open spec fn active(kind: ActivityKind) -> WsEventView {
    WsEventView::AgentActivity { agent_id: "main"@, kind }
}

/// The events of one loop.
pub open spec fn loop_script() -> Seq<TimedDemoEventView> {
    seq![
        at(1_200, inbound()),
        at(1_800, active(ActivityKind::Thinking)),
        at(
            3_000,
            WsEventView::AgentToolInvoked { agent_id: "main"@, text: "⚙ logs.tail"@ },
        ),
        at(3_200, active(ActivityKind::ToolCalling)),
        at(
            5_300,
            WsEventView::AgentMessage {
                agent_id: "main"@,
                text: "Demo check complete: Slack and Telegram are connected; WhatsApp is intentionally disabled."@,
            },
        ),
        at(5_700, active(ActivityKind::Idle)),
        at(13_000, inbound()),
        at(13_700, active(ActivityKind::Thinking)),
        at(15_600, WsEventView::AgentSilentTurn { agent_id: "main"@ }),
        at(16_000, active(ActivityKind::Idle)),
        at(21_000, inbound()),
        at(22_000, active(ActivityKind::Thinking)),
        at(23_000, active(ActivityKind::Errored)),
        at(25_500, active(ActivityKind::Idle)),
    ]
}

fn add_event(out: &mut Vec<TimedDemoEvent>, at_ms: u64, event: WsEvent)
    ensures
        final(out).deep_view() == old(out).deep_view().push(at(at_ms, event.deep_view())),
{
    push_to(out, TimedDemoEvent { at_ms, event });
}

fn inbound_event() -> (r: WsEvent)
    ensures
        r.deep_view() == inbound(),
{
    WsEvent::AgentInboundUserMessage { agent_id: AgentId::new("main") }
}

fn activity_event(kind: ActivityKind) -> (r: WsEvent)
    ensures
        r.deep_view() == active(kind),
{
    WsEvent::AgentActivity { agent_id: AgentId::new("main"), kind }
}

/// The events of one loop: a visible reply, a silent run, and an error with
/// the recovery from it.
pub fn loop_events() -> (r: Vec<TimedDemoEvent>)
    ensures
        r.deep_view() == loop_script(),
{
    let mut out: Vec<TimedDemoEvent> = no_items();
    add_event(&mut out, 1_200, inbound_event());
    add_event(&mut out, 1_800, activity_event(ActivityKind::Thinking));
    add_event(
        &mut out,
        3_000,
        WsEvent::AgentToolInvoked {
            agent_id: AgentId::new("main"),
            text: "⚙ logs.tail".to_owned(),
        },
    );
    add_event(&mut out, 3_200, activity_event(ActivityKind::ToolCalling));
    add_event(
        &mut out,
        5_300,
        WsEvent::AgentMessage {
            agent_id: AgentId::new("main"),
            text: "Demo check complete: Slack and Telegram are connected; WhatsApp is intentionally disabled.".to_owned(),
        },
    );
    add_event(&mut out, 5_700, activity_event(ActivityKind::Idle));
    add_event(&mut out, 13_000, inbound_event());
    add_event(&mut out, 13_700, activity_event(ActivityKind::Thinking));
    add_event(
        &mut out,
        15_600,
        WsEvent::AgentSilentTurn { agent_id: AgentId::new("main") },
    );
    add_event(&mut out, 16_000, activity_event(ActivityKind::Idle));
    add_event(&mut out, 21_000, inbound_event());
    add_event(&mut out, 22_000, activity_event(ActivityKind::Thinking));
    add_event(&mut out, 23_000, activity_event(ActivityKind::Errored));
    add_event(&mut out, 25_500, activity_event(ActivityKind::Idle));
    assert(out.deep_view() =~= loop_script());
    out
}

/// Whether events come in the order of their times.
pub open spec fn in_time_order(s: Seq<TimedDemoEventView>) -> bool {
    forall|i: int, j: int| 0 <= i < j < s.len() ==> s[i].at_ms <= s[j].at_ms
}

/// The script is in the order of its times.
pub proof fn loop_script_is_sorted()
    ensures
        in_time_order(loop_script()),
{
    assert forall|i: int| 0 <= i < 13 implies (#[trigger] loop_script()[i]).at_ms <= loop_script()[i
        + 1].at_ms by {}
    sorted_from_neighbours(loop_script());
}

proof fn sorted_from_neighbours(s: Seq<TimedDemoEventView>)
    requires
        forall|i: int| 0 <= i < s.len() - 1 ==> (#[trigger] s[i]).at_ms <= s[i + 1].at_ms,
    ensures
        in_time_order(s),
    decreases s.len(),
{
    if s.len() > 0 {
        let t = s.drop_last();
        assert forall|i: int| 0 <= i < t.len() - 1 implies (#[trigger] t[i]).at_ms <= t[i
            + 1].at_ms by {
            assert(t[i] == s[i] && t[i + 1] == s[i + 1]);
        }
        sorted_from_neighbours(t);
        assert forall|i: int, j: int| 0 <= i < j < s.len() implies s[i].at_ms <= s[j].at_ms by {
            if j < s.len() - 1 {
                assert(t[i] == s[i] && t[j] == s[j]);
            } else if i < j - 1 {
                assert(t[i].at_ms <= t[j - 1].at_ms);
                assert(s[j - 1].at_ms <= s[j].at_ms);
            }
        }
    }
}

/// How far the loop has come: the next tick and the next event.
#[derive(Debug, Clone, Copy, PartialEq, Eq, Structural)]
pub struct LoopCursor {
    pub tick: usize,
    pub event: usize,
}

/// How many ticks from `i` on are due at `t`, without a gap.
pub open spec fn ticks_due(ticks: Seq<TickView>, i: int, t: u64) -> int
    decreases ticks.len() - i,
{
    if 0 <= i < ticks.len() && ticks[i].at_ms == t {
        1 + ticks_due(ticks, i + 1, t)
    } else {
        0
    }
}

/// How many events from `i` on are due at `t`, without a gap.
pub open spec fn events_due(events: Seq<TimedDemoEventView>, i: int, t: u64) -> int
    decreases events.len() - i,
{
    if 0 <= i < events.len() && events[i].at_ms == t {
        1 + events_due(events, i + 1, t)
    } else {
        0
    }
}

/// The next time at which something is due; none at the end of the loop.
pub open spec fn next_time(
    ticks: Seq<TickView>,
    events: Seq<TimedDemoEventView>,
    c: LoopCursor,
) -> Option<u64> {
    let t = if c.tick < ticks.len() {
        Some(ticks[c.tick as int].at_ms)
    } else {
        None
    };
    let e = if c.event < events.len() {
        Some(events[c.event as int].at_ms)
    } else {
        None
    };
    match (t, e) {
        (Some(a), Some(b)) => Some(
            if a < b {
                a
            } else {
                b
            },
        ),
        (Some(a), None) => Some(a),
        (None, b) => b,
    }
}

/// The cursor after what is due at `t` has been sent.
pub open spec fn cursor_after(
    ticks: Seq<TickView>,
    events: Seq<TimedDemoEventView>,
    c: LoopCursor,
    t: u64,
) -> LoopCursor {
    LoopCursor {
        tick: (c.tick + ticks_due(ticks, c.tick as int, t)) as usize,
        event: (c.event + events_due(events, c.event as int, t)) as usize,
    }
}

proof fn ticks_due_bounds(ticks: Seq<TickView>, i: int, t: u64)
    requires
        0 <= i <= ticks.len(),
    ensures
        0 <= ticks_due(ticks, i, t) <= ticks.len() - i,
    decreases ticks.len() - i,
{
    if i < ticks.len() && ticks[i].at_ms == t {
        ticks_due_bounds(ticks, i + 1, t);
    }
}

proof fn events_due_bounds(events: Seq<TimedDemoEventView>, i: int, t: u64)
    requires
        0 <= i <= events.len(),
    ensures
        0 <= events_due(events, i, t) <= events.len() - i,
    decreases events.len() - i,
{
    if i < events.len() && events[i].at_ms == t {
        events_due_bounds(events, i + 1, t);
    }
}

/// What comes next in the loop: the time, and where the loop stands once what
/// is due then has been sent. The ticks from the old cursor to the new one go
/// out first, then the events. `None` at the end of the loop.
pub fn next_batch(ticks: &Vec<Tick>, events: &Vec<TimedDemoEvent>, c: LoopCursor) -> (r: Option<
    (u64, LoopCursor),
>)
    requires
        c.tick <= ticks@.len(),
        c.event <= events@.len(),
    ensures
        match r {
            Some((t, next)) => {
                &&& next_time(ticks.deep_view(), events.deep_view(), c) == Some(t)
                &&& next == cursor_after(ticks.deep_view(), events.deep_view(), c, t)
                &&& c.tick <= next.tick <= ticks@.len()
                &&& c.event <= next.event <= events@.len()
                &&& c.tick + c.event < next.tick + next.event
            },
            None => next_time(ticks.deep_view(), events.deep_view(), c) is None && c.tick
                == ticks@.len() && c.event == events@.len(),
        },
{
    let ghost ts = ticks.deep_view();
    let ghost es = events.deep_view();
    let t: u64 = if c.tick < ticks.len() {
        let a = ticks[c.tick].at_ms;
        assert(ts[c.tick as int].at_ms == a);
        if c.event < events.len() {
            let b = events[c.event].at_ms;
            assert(es[c.event as int].at_ms == b);
            if a < b {
                a
            } else {
                b
            }
        } else {
            a
        }
    } else if c.event < events.len() {
        let b = events[c.event].at_ms;
        assert(es[c.event as int].at_ms == b);
        b
    } else {
        return None;
    };
    let mut i: usize = c.tick;
    while i < ticks.len() && ticks[i].at_ms == t
        invariant
            c.tick <= i <= ticks@.len(),
            ts == ticks.deep_view(),
            i - c.tick + ticks_due(ts, i as int, t) == ticks_due(ts, c.tick as int, t),
        decreases ticks@.len() - i,
    {
        assert(ts[i as int].at_ms == t);
        i = i + 1;
    }
    proof {
        if i < ticks.len() {
            assert(ts[i as int].at_ms == ticks@[i as int].at_ms);
        }
    }
    let mut j: usize = c.event;
    while j < events.len() && events[j].at_ms == t
        invariant
            c.event <= j <= events@.len(),
            es == events.deep_view(),
            j - c.event + events_due(es, j as int, t) == events_due(es, c.event as int, t),
        decreases events@.len() - j,
    {
        assert(es[j as int].at_ms == t);
        j = j + 1;
    }
    proof {
        if j < events.len() {
            assert(es[j as int].at_ms == events@[j as int].at_ms);
        }
    }
    Some((t, LoopCursor { tick: i, event: j }))
}

/// The events that a tick stands for.
pub open spec fn tick_events(t: TickView) -> Seq<WsEventView> {
    seq![
        WsEventView::CronSnapshot(t.crons),
        WsEventView::ChannelSnapshot(t.channels),
        WsEventView::MainAgent(t.main),
    ]
}

/// Turns a tick into its events.
pub fn emit_tick(t: &Tick) -> (r: Vec<WsEvent>)
    ensures
        r.deep_view() == tick_events(t.deep_view()),
{
    let mut out: Vec<WsEvent> = no_items();
    let copy = t.clone();
    push_to(&mut out, WsEvent::CronSnapshot(copy.crons));
    push_to(&mut out, WsEvent::ChannelSnapshot(copy.channels));
    push_to(&mut out, WsEvent::MainAgent(copy.main));
    assert(out.deep_view() =~= tick_events(t.deep_view()));
    out
}

// ---------------------------------------------------------------------
// Fixtures
// ---------------------------------------------------------------------

pub open spec fn demo_history(at: i64) -> Seq<ChatMessageView> {
    seq![
        ChatMessageView {
            role: ChatRole::User,
            text: "Can you check the office systems?"@,
            at,
        },
        ChatMessageView {
            role: ChatRole::Assistant,
            text: "Demo mode is online. I will cycle through chat, tools, cron jobs, and sessions so the desktop can be tested offline."@,
            at,
        },
    ]
}

fn demo_chat_history(at: i64) -> (r: Vec<ChatMessage>)
    ensures
        r.deep_view() == demo_history(at),
{
    let mut out: Vec<ChatMessage> = no_items();
    push_to(&mut out, ChatMessage::user("Can you check the office systems?", at));
    push_to(
        &mut out,
        ChatMessage::assistant(
            "Demo mode is online. I will cycle through chat, tools, cron jobs, and sessions so the desktop can be tested offline.",
            at,
        ),
    );
    assert(out.deep_view() =~= demo_history(at));
    out
}

pub open spec fn digest_history(at: i64) -> Seq<ChatMessageView> {
    seq![
        ChatMessageView {
            role: ChatRole::User,
            text: "Summarize the last weekly digest run."@,
            at,
        },
        ChatMessageView {
            role: ChatRole::Assistant,
            text: "Demo digest: cron completed, two channels were healthy, and WhatsApp stayed disabled by configuration."@,
            at,
        },
    ]
}

/// The history of a session: the digest has its own.
pub open spec fn session_script(key: Seq<char>, at: i64) -> Seq<ChatMessageView> {
    if key == "agent:main:weekly-digest"@ {
        digest_history(at)
    } else {
        demo_history(at)
    }
}

fn demo_session_history(session_key: &str, at: i64) -> (r: Vec<ChatMessage>)
    ensures
        r.deep_view() == session_script(session_key@, at),
{
    if !same(session_key, "agent:main:weekly-digest") {
        return demo_chat_history(at);
    }
    let mut out: Vec<ChatMessage> = no_items();
    push_to(&mut out, ChatMessage::user("Summarize the last weekly digest run.", at));
    push_to(
        &mut out,
        ChatMessage::assistant(
            "Demo digest: cron completed, two channels were healthy, and WhatsApp stayed disabled by configuration.",
            at,
        ),
    );
    assert(out.deep_view() =~= digest_history(at));
    out
}

pub open spec fn demo_agent_info() -> AgentInfoView {
    AgentInfoView {
        id: "main"@,
        name: Some("Sebastian"@),
        identity: Some(
            AgentIdentityView {
                name: Some("Sebastian"@),
                emoji: Some("🦀"@),
                avatar: None,
                theme: Some("terminal"@),
            },
        ),
        model: Some(
            AgentModelRefView {
                primary: Some("demo/local-agent"@),
                fallbacks: Some(seq!["demo/fallback-agent"@]),
            },
        ),
        workspace: Some("/demo/openclaw"@),
    }
}

fn demo_agent() -> (r: AgentInfo)
    ensures
        r.deep_view() == demo_agent_info(),
{
    AgentInfo {
        id: "main".to_owned(),
        name: Some("Sebastian".to_owned()),
        identity: Some(
            AgentIdentity {
                name: Some("Sebastian".to_owned()),
                emoji: Some("🦀".to_owned()),
                avatar: None,
                theme: Some("terminal".to_owned()),
            },
        ),
        model: Some(
            AgentModelRef {
                primary: Some("demo/local-agent".to_owned()),
                fallbacks: Some(one_item("demo/fallback-agent".to_owned())),
            },
        ),
        workspace: Some("/demo/openclaw".to_owned()),
    }
}

/// How long ago `then` was, in milliseconds; never negative.
pub open spec fn age(now_ms: i64, then: i64) -> i64 {
    if now_ms - then < 0 {
        0
    } else if now_ms - then > i64::MAX {
        i64::MAX
    } else {
        (now_ms - then) as i64
    }
}

pub open spec fn demo_session_info(
    key: Seq<char>,
    total: i64,
    updated_at_ms: i64,
    kind: Seq<char>,
    now_ms: i64,
) -> SessionInfoView {
    SessionInfoView {
        key,
        total_tokens: Some(total),
        context_tokens: Some(131_072),
        input_tokens: Some((total * 3 / 5) as i64),
        output_tokens: Some((total * 2 / 5) as i64),
        updated_at_ms: Some(updated_at_ms),
        age_ms: Some(age(now_ms, updated_at_ms)),
        model: Some("demo/local-agent"@),
        kind: Some(kind),
        thinking_level: Some("medium"@),
        agent_id: Some("main"@),
    }
}

fn demo_session(key: &str, total: i64, updated_at_ms: i64, kind: &str, now_ms: i64) -> (r:
    SessionInfo)
    requires
        0 <= total <= 1_000_000_000,
    ensures
        r.deep_view() == demo_session_info(key@, total, updated_at_ms, kind@, now_ms),
{
    let age_ms: i64 = if now_ms < updated_at_ms {
        0
    } else if updated_at_ms < 0 && now_ms > i64::MAX + updated_at_ms {
        i64::MAX
    } else {
        now_ms - updated_at_ms
    };
    SessionInfo {
        key: key.to_owned(),
        total_tokens: Some(total),
        context_tokens: Some(131_072),
        input_tokens: Some(total * 3 / 5),
        output_tokens: Some(total * 2 / 5),
        updated_at_ms: Some(updated_at_ms),
        age_ms: Some(age_ms),
        model: Some("demo/local-agent".to_owned()),
        kind: Some(kind.to_owned()),
        thinking_level: Some("medium".to_owned()),
        agent_id: Some("main".to_owned()),
    }
}

/// What some tokens cost, at two ten-millionths each, as the text of a number.
pub open spec fn cost_of(total: i64) -> Seq<char> {
    let n = (total * 2) as nat;
    decimal(n / 10_000_000) + "."@ + zero_padded(n % 10_000_000, 7)
}

fn cost_text(total: i64) -> (r: String)
    requires
        0 <= total <= 1_000_000_000,
    ensures
        r@ == cost_of(total),
{
    let n: u64 = (total as u64) * 2;
    let whole = u64_text(n / 10_000_000);
    let part = padded_text(n % 10_000_000, 7);
    cat3(whole.as_str(), ".", part.as_str())
}

/// A point of a usage series: a third of the tokens is output.
pub open spec fn usage_point(timestamp: i64, total: i64) -> SessionUsagePointView {
    let output = total / 3;
    let input = total - output;
    SessionUsagePointView {
        timestamp,
        input: input as i64,
        output: output as i64,
        cache_read: (input / 10) as i64,
        cache_write: (input / 20) as i64,
        total_tokens: total,
        cumulative_tokens: total,
        cost: cost_of(total),
        cumulative_cost: cost_of(total),
    }
}

/// A usage series with a point every half minute.
pub open spec fn usage_series(start_ms: i64, totals: Seq<i64>) -> Seq<SessionUsagePointView> {
    Seq::new(
        totals.len(),
        |i: int| usage_point((start_ms + i * 30_000) as i64, totals[i]),
    )
}

fn usage_points(start_ms: i64, totals: &Vec<i64>) -> (r: Vec<SessionUsagePoint>)
    requires
        forall|i: int| 0 <= i < totals@.len() ==> 0 <= #[trigger] totals@[i] <= 1_000_000_000,
        totals@.len() <= 1000,
        start_ms + (totals@.len() - 1) * 30_000 <= i64::MAX,
    ensures
        r.deep_view() == usage_series(start_ms, totals@),
{
    let mut out: Vec<SessionUsagePoint> = Vec::new();
    let mut i: usize = 0;
    while i < totals.len()
        invariant
            i <= totals@.len() <= 1000,
            start_ms + (totals@.len() - 1) * 30_000 <= i64::MAX,
            forall|i: int| 0 <= i < totals@.len() ==> 0 <= #[trigger] totals@[i] <= 1_000_000_000,
            out@.len() == i,
            forall|k: int|
                0 <= k < i ==> (#[trigger] out@[k]).deep_view() == usage_point(
                    (start_ms + k * 30_000) as i64,
                    totals@[k],
                ),
        decreases totals@.len() - i,
    {
        let total = totals[i];
        let output: i64 = total / 3;
        let input: i64 = total - output;
        out.push(
            SessionUsagePoint {
                timestamp: start_ms + (i as i64) * 30_000,
                input,
                output,
                cache_read: input / 10,
                cache_write: input / 20,
                total_tokens: total,
                cumulative_tokens: total,
                cost: cost_text(total),
                cumulative_cost: cost_text(total),
            },
        );
        i = i + 1;
    }
    assert(out.deep_view() =~= usage_series(start_ms, totals@));
    out
}

fn four(a: i64, b: i64, c: i64, d: i64) -> (r: Vec<i64>)
    ensures
        r@ == seq![a, b, c, d],
{
    let mut v: Vec<i64> = Vec::new();
    v.push(a);
    v.push(b);
    v.push(c);
    v.push(d);
    assert(v@ =~= seq![a, b, c, d]);
    v
}

/// What the demo says when it connects: the agent and its chat, two sessions
/// with their usage, and some log lines. `now_ms` is the wall clock in
/// milliseconds, `at` in seconds.
pub open spec fn bootstrap_script(now_ms: i64, at: i64) -> Seq<WsEventView> {
    seq![
        WsEventView::AgentsList { default_id: "main"@, agents: seq![demo_agent_info()] },
        WsEventView::ChatHistory { agent_id: "main"@, messages: demo_history(at) },
        WsEventView::SessionUsage(
            demo_session_info(
                "agent:main:main"@,
                39_200,
                (now_ms - 15_000) as i64,
                "live"@,
                now_ms,
            ),
        ),
        WsEventView::SessionUsage(
            demo_session_info(
                "agent:main:weekly-digest"@,
                81_500,
                (now_ms - 86_000) as i64,
                "archived"@,
                now_ms,
            ),
        ),
        WsEventView::SessionHistory {
            session_key: "agent:main:weekly-digest"@,
            messages: session_script("agent:main:weekly-digest"@, at),
        },
        WsEventView::SessionUsageTimeseries {
            session_key: "agent:main:main"@,
            points: usage_series((now_ms - 90_000) as i64, seq![12_000, 24_500, 31_800, 39_200]),
        },
        WsEventView::SessionUsageTimeseries {
            session_key: "agent:main:weekly-digest"@,
            points: usage_series((now_ms - 260_000) as i64, seq![18_000, 37_000, 64_000, 81_500]),
        },
        WsEventView::LogTail(
            LogTailPayloadView {
                cursor: 3,
                lines: seq![
                    "INFO demo stream connected"@,
                    "INFO demo agents.list count=1 default=main"@,
                    "WARN demo whatsapp disabled by fixture"@,
                ],
                reset: true,
            },
        ),
    ]
}

fn demo_log() -> (r: LogTailPayload)
    ensures
        WsEventView::LogTail(r.deep_view()) == bootstrap_script(0, 0)[7],
{
    let mut lines: Vec<String> = no_items();
    push_to(&mut lines, "INFO demo stream connected".to_owned());
    push_to(&mut lines, "INFO demo agents.list count=1 default=main".to_owned());
    push_to(&mut lines, "WARN demo whatsapp disabled by fixture".to_owned());
    assert(lines.deep_view() =~= seq![
        "INFO demo stream connected"@,
        "INFO demo agents.list count=1 default=main"@,
        "WARN demo whatsapp disabled by fixture"@,
    ]);
    LogTailPayload { cursor: 3, lines, reset: true }
}

/// Builds what the demo says when it connects.
pub fn bootstrap_events(now_ms: i64, at: i64) -> (r: Vec<WsEvent>)
    requires
        i64::MIN + 260_000 <= now_ms,
    ensures
        r.deep_view() == bootstrap_script(now_ms, at),
{
    let mut out: Vec<WsEvent> = no_items();
    push_to(
        &mut out,
        WsEvent::AgentsList { default_id: "main".to_owned(), agents: one_item(demo_agent()) },
    );
    push_to(
        &mut out,
        WsEvent::ChatHistory { agent_id: AgentId::new("main"), messages: demo_chat_history(at) },
    );
    push_to(
        &mut out,
        WsEvent::SessionUsage(
            demo_session("agent:main:main", 39_200, now_ms - 15_000, "live", now_ms),
        ),
    );
    push_to(
        &mut out,
        WsEvent::SessionUsage(
            demo_session("agent:main:weekly-digest", 81_500, now_ms - 86_000, "archived", now_ms),
        ),
    );
    push_to(
        &mut out,
        WsEvent::SessionHistory {
            session_key: "agent:main:weekly-digest".to_owned(),
            messages: demo_session_history("agent:main:weekly-digest", at),
        },
    );
    push_to(
        &mut out,
        WsEvent::SessionUsageTimeseries {
            session_key: "agent:main:main".to_owned(),
            points: usage_points(now_ms - 90_000, &four(12_000, 24_500, 31_800, 39_200)),
        },
    );
    push_to(
        &mut out,
        WsEvent::SessionUsageTimeseries {
            session_key: "agent:main:weekly-digest".to_owned(),
            points: usage_points(now_ms - 260_000, &four(18_000, 37_000, 64_000, 81_500)),
        },
    );
    push_to(&mut out, WsEvent::LogTail(demo_log()));
    assert(out.deep_view() =~= bootstrap_script(now_ms, at));
    out
}

// ---------------------------------------------------------------------
// Commands
// ---------------------------------------------------------------------

/// A prompt on one line, cut to `max` characters.
pub open spec fn compacted_prompt(prompt: Seq<char>, max: int) -> Seq<char> {
    ellipsized(joined(words(prompt), " "@), max)
}

pub fn compact_prompt(prompt: &str, max: usize) -> (r: String)
    ensures
        r@ == compacted_prompt(prompt@, max as int),
{
    let ws = split_words(prompt);
    let flat = join(&ws, " ");
    ellipsize(flat.as_str(), max)
}

/// What the demo answers to a command.
pub open spec fn demo_answer(c: GatewayCommandView, now_ms: i64, at: i64) -> Seq<WsEventView> {
    match c {
        GatewayCommandView::SendChat { agent_id, message, .. } => seq![
            WsEventView::AgentActivity { agent_id, kind: ActivityKind::Thinking },
            WsEventView::AgentToolInvoked { agent_id, text: "⚙ demo.reply"@ },
            WsEventView::AgentMessage {
                agent_id,
                text: "Demo reply: I received \""@ + compacted_prompt(message, 72)
                    + "\" and kept the exchange offline."@,
            },
            WsEventView::AgentActivity { agent_id, kind: ActivityKind::Idle },
        ],
        GatewayCommandView::FetchChatHistory { agent_id } => seq![
            WsEventView::ChatHistory { agent_id, messages: demo_history(at) },
        ],
        GatewayCommandView::FetchAgentIdentity { agent_id } => seq![
            WsEventView::AgentIdentity {
                agent_id,
                name: Some("Sebastian"@),
                emoji: Some("🦀"@),
            },
        ],
        GatewayCommandView::FetchSessionHistory { session_key } => seq![
            WsEventView::SessionHistory { session_key, messages: session_script(session_key, at) },
        ],
        GatewayCommandView::FetchSessionUsage { session_key } => seq![
            WsEventView::SessionUsageTimeseries {
                session_key,
                points: usage_series((now_ms - 90_000) as i64, seq![8_000, 19_500, 28_000, 42_000]),
            },
        ],
        GatewayCommandView::ResetSession { session_key } => seq![
            WsEventView::ChatHistory {
                agent_id: agent_for_key(session_key),
                messages: Seq::empty(),
            },
        ],
        GatewayCommandView::Reconnect => seq![WsEventView::Connected],
        GatewayCommandView::ResolveApproval { .. } => Seq::empty(),
        GatewayCommandView::RunCron { .. } => Seq::empty(),
    }
}

/// Answers a command offline: a chat gets a reply with a tool call, histories
/// and usage come from the fixtures, a reset empties the agent's chat.
pub fn handle_demo_command(cmd: &GatewayCommand, now_ms: i64, at: i64) -> (r: Vec<WsEvent>)
    requires
        cmd.deep_view() is FetchSessionUsage ==> i64::MIN + 90_000 <= now_ms,
    ensures
        r.deep_view() == demo_answer(cmd.deep_view(), now_ms, at),
{
    match cmd {
        GatewayCommand::SendChat { agent_id, message, .. } => {
            let prompt = compact_prompt(message.as_str(), 72);
            let mut out: Vec<WsEvent> = no_items();
            push_to(
                &mut out,
                WsEvent::AgentActivity {
                    agent_id: AgentId::new(agent_id.as_str()),
                    kind: ActivityKind::Thinking,
                },
            );
            push_to(
                &mut out,
                WsEvent::AgentToolInvoked {
                    agent_id: AgentId::new(agent_id.as_str()),
                    text: "⚙ demo.reply".to_owned(),
                },
            );
            push_to(
                &mut out,
                WsEvent::AgentMessage {
                    agent_id: AgentId::new(agent_id.as_str()),
                    text: cat3(
                        "Demo reply: I received \"",
                        prompt.as_str(),
                        "\" and kept the exchange offline.",
                    ),
                },
            );
            push_to(
                &mut out,
                WsEvent::AgentActivity {
                    agent_id: AgentId::new(agent_id.as_str()),
                    kind: ActivityKind::Idle,
                },
            );
            assert(out.deep_view() =~= demo_answer(cmd.deep_view(), now_ms, at));
            out
        },
        GatewayCommand::FetchChatHistory { agent_id } => one_item(
            WsEvent::ChatHistory {
                agent_id: AgentId::new(agent_id.as_str()),
                messages: demo_chat_history(at),
            },
        ),
        GatewayCommand::FetchAgentIdentity { agent_id } => one_item(
            WsEvent::AgentIdentity {
                agent_id: AgentId::new(agent_id.as_str()),
                name: Some("Sebastian".to_owned()),
                emoji: Some("🦀".to_owned()),
            },
        ),
        GatewayCommand::FetchSessionHistory { session_key } => one_item(
            WsEvent::SessionHistory {
                session_key: session_key.clone(),
                messages: demo_session_history(session_key.as_str(), at),
            },
        ),
        GatewayCommand::FetchSessionUsage { session_key } => one_item(
            WsEvent::SessionUsageTimeseries {
                session_key: session_key.clone(),
                points: usage_points(now_ms - 90_000, &four(8_000, 19_500, 28_000, 42_000)),
            },
        ),
        GatewayCommand::ResetSession { session_key } => one_item(
            WsEvent::ChatHistory {
                agent_id: AgentId(route_agent(session_key.as_str())),
                messages: no_items(),
            },
        ),
        GatewayCommand::Reconnect => one_item(WsEvent::Connected),
        GatewayCommand::ResolveApproval { .. } => no_items(),
        GatewayCommand::RunCron { .. } => no_items(),
    }
}

/// A session that is reset is answered as that agent's empty chat.
pub proof fn reset_empties_the_chat(agent_id: Seq<char>, now_ms: i64, at: i64)
    requires
        agent_id.len() > 0,
        forall|i: int| 0 <= i < agent_id.len() ==> agent_id[i] != ':',
    ensures
        demo_answer(
            GatewayCommandView::ResetSession {
                session_key: crate::net::payloads::main_session_key(agent_id),
            },
            now_ms,
            at,
        ) == seq![WsEventView::ChatHistory { agent_id, messages: Seq::empty() }],
{
    crate::net::payloads::main_session_routes_back(agent_id);
}

// ---------------------------------------------------------------------
// Switching it on
// ---------------------------------------------------------------------

/// Whether a variable's value switches something on.
pub open spec fn truthy(v: Option<Seq<char>>) -> bool {
    v == Some("1"@) || v == Some("true"@) || v == Some("yes"@)
}

/// Whether a variable's value switches something on.
pub fn env_truthy(v: Option<&str>) -> (r: bool)
    ensures
        r == truthy(v.deep_view()),
{
    match v {
        Some(s) => same(s, "1") || same(s, "true") || same(s, "yes"),
        None => false,
    }
}

/// Whether Demo mode is asked for: by `PERICLAW_DEMO`, or by its older name
/// `OPENCLAW_MOCK`.
pub fn enabled(periclaw_demo: Option<&str>, openclaw_mock: Option<&str>) -> (r: bool)
    ensures
        r == (truthy(periclaw_demo.deep_view()) || truthy(openclaw_mock.deep_view())),
{
    env_truthy(periclaw_demo) || env_truthy(openclaw_mock)
}

} // verus!
