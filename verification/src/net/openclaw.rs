//! The live gateway session: what each frame, timer and command leads to.
//!
//! The UI is driven by push events. Right after the connection is accepted a
//! few snapshot requests go out; channel state, which the gateway does not
//! push, is asked for again on a heartbeat, and the log is tailed by a cursor.
use vstd::prelude::*;

use crate::domain::agent::AgentId;
use crate::json::{
    add_field, bool_in, flag_in, get_in, member, parse, parsed, print, printed, str_in, str_is,
    text_in, Json, JsonField, JsonView,
};
use crate::keyed::{lookup, put, removed, StrMap};
use crate::net::commands::{GatewayCommand, GatewayCommandView};
use crate::net::events::{
    activity_of_stream, agent_stream_to_activity, cron_job_from_event, job_of_event, ActivityKind,
    GatewayUpdate, GatewayUpdateView, WsEvent, WsEventView,
};
use crate::net::handshake::{
    request, request_frame, Incoming, IncomingView, SessionError, SessionErrorView,
};
use crate::net::payloads::{
    agent_for_key, agent_main_session_key, agents_list_in, channel_list_in, chat_history_in,
    cron_list_in, extract_message_text, identity_in, is_silent, is_silent_reply, log_tail_in,
    main_agent_in, main_session_key, payload_text, route_agent, session_list_in,
    try_agent_identity, try_agents_list, try_channel_list, try_chat_history, try_cron_list,
    try_log_tail, try_main_agent, try_session_list, try_session_usage_timeseries, usage_in,
};
use crate::net::rpc::{
    agent_event_payload, approval_event_payload, cron_event_payload, session_info,
    AgentEventPayload, ApprovalEventPayload, CronEventPayload, CronEventPayloadView, CronJob,
    CronJobView, SessionInfo, SessionInfoView,
};
use crate::seqs::{no_items, one_item, push_to};
use crate::text::{cat, decimal, same, trim, trimmed, u64_text};

verus! {

/// How often channel state is asked for, in milliseconds.
pub const CHANNEL_HEARTBEAT_MS: u64 = 30_000;

/// How often the log is tailed, in milliseconds.
pub const LOG_TAIL_INTERVAL_MS: u64 = 3_000;

/// How many message ids are remembered.
pub const SEEN_IDS_MAX: usize = 32;

/// What identifies a connection: a change in any field starts a new one.
/// `save_nonce` grows with every save, so that saving unchanged values
/// reconnects too.
#[derive(Debug, PartialEq, Eq, Hash)]
pub struct ConnectParams {
    pub gateway_url: String,
    pub token: Option<String>,
    pub save_nonce: u64,
}

/// What [`ConnectParams`] holds, as mathematical values.
#[verifier::ext_equal]
pub struct ConnectParamsView {
    pub gateway_url: Seq<char>,
    pub token: Option<Seq<char>>,
    pub save_nonce: u64,
}

impl DeepView for ConnectParams {
    type V = ConnectParamsView;

    open spec fn deep_view(&self) -> ConnectParamsView {
        ConnectParamsView {
            gateway_url: self.gateway_url.deep_view(),
            token: self.token.deep_view(),
            save_nonce: self.save_nonce.deep_view(),
        }
    }
}

impl Clone for ConnectParams {
    fn clone(&self) -> (r: ConnectParams)
        ensures
            r.deep_view() == self.deep_view(),
    {
        ConnectParams {
            gateway_url: self.gateway_url.clone(),
            token: self.token.clone(),
            save_nonce: self.save_nonce,
        }
    }
}

/// What a live session keeps between frames.
pub struct Session {
    /// The number of the last request sent.
    pub rpc_id: u64,
    /// Cron names by their UUID, learned from snapshots.
    pub cron_id_to_name: StrMap<String>,
    /// Ids of the last messages rendered: the gateway sends each turn twice.
    pub seen_message_ids: Vec<String>,
    /// Where the next log request starts.
    pub log_cursor: Option<i64>,
    /// Agents by the request that asked for their history.
    pub pending_history: StrMap<String>,
    /// Session keys by the request that asked for their history.
    pub pending_session_history: StrMap<String>,
    /// Session keys by the request that asked for their usage.
    pub pending_session_usage: StrMap<String>,
}

/// What [`Session`] holds, as mathematical values.
#[verifier::ext_equal]
pub struct SessionView {
    pub rpc_id: u64,
    pub cron_id_to_name: Seq<(Seq<char>, Seq<char>)>,
    pub seen_message_ids: Seq<Seq<char>>,
    pub log_cursor: Option<i64>,
    pub pending_history: Seq<(Seq<char>, Seq<char>)>,
    pub pending_session_history: Seq<(Seq<char>, Seq<char>)>,
    pub pending_session_usage: Seq<(Seq<char>, Seq<char>)>,
}

impl DeepView for Session {
    type V = SessionView;

    open spec fn deep_view(&self) -> SessionView {
        SessionView {
            rpc_id: self.rpc_id.deep_view(),
            cron_id_to_name: self.cron_id_to_name.deep_view(),
            seen_message_ids: self.seen_message_ids.deep_view(),
            log_cursor: self.log_cursor.deep_view(),
            pending_history: self.pending_history.deep_view(),
            pending_session_history: self.pending_session_history.deep_view(),
            pending_session_usage: self.pending_session_usage.deep_view(),
        }
    }
}

// ---------------------------------------------------------------------
// Requests
// ---------------------------------------------------------------------

/// The request method of a command.
pub open spec fn method_of(c: GatewayCommandView) -> Seq<char> {
    match c {
        GatewayCommandView::ResolveApproval { .. } => "exec.approval.resolve"@,
        GatewayCommandView::RunCron { .. } => "cron.run"@,
        GatewayCommandView::SendChat { .. } => "chat.send"@,
        GatewayCommandView::FetchChatHistory { .. } => "chat.history"@,
        GatewayCommandView::FetchAgentIdentity { .. } => "agent.identity.get"@,
        GatewayCommandView::ResetSession { .. } => "sessions.reset"@,
        GatewayCommandView::FetchSessionHistory { .. } => "chat.history"@,
        GatewayCommandView::FetchSessionUsage { .. } => "sessions.usage.timeseries"@,
        GatewayCommandView::Reconnect => ""@,
    }
}

/// The request parameters of a command.
pub open spec fn params_of(c: GatewayCommandView) -> JsonView {
    JsonView::Object(
        match c {
            GatewayCommandView::ResolveApproval { id, decision } => seq![
                ("id"@, JsonView::Str(id)),
                ("decision"@, JsonView::Str(decision)),
            ],
            GatewayCommandView::RunCron { job_id } => seq![
                ("id"@, JsonView::Str(job_id)),
                ("mode"@, JsonView::Str("force"@)),
            ],
            GatewayCommandView::SendChat { agent_id, message, idempotency_key } => seq![
                ("sessionKey"@, JsonView::Str(main_session_key(agent_id))),
                ("message"@, JsonView::Str(message)),
                ("idempotencyKey"@, JsonView::Str(idempotency_key)),
            ],
            GatewayCommandView::FetchChatHistory { agent_id } => seq![
                ("sessionKey"@, JsonView::Str(main_session_key(agent_id))),
                ("limit"@, JsonView::Int(200)),
            ],
            GatewayCommandView::FetchAgentIdentity { agent_id } => seq![
                ("agentId"@, JsonView::Str(agent_id)),
            ],
            GatewayCommandView::ResetSession { session_key } => seq![
                ("key"@, JsonView::Str(session_key)),
                ("reason"@, JsonView::Str("reset"@)),
            ],
            GatewayCommandView::FetchSessionHistory { session_key } => seq![
                ("sessionKey"@, JsonView::Str(session_key)),
                ("limit"@, JsonView::Int(200)),
            ],
            GatewayCommandView::FetchSessionUsage { session_key } => seq![
                ("key"@, JsonView::Str(session_key)),
            ],
            GatewayCommandView::Reconnect => Seq::empty(),
        },
    )
}

/// The request number `id` with a method and parameters.
pub open spec fn rpc(id: u64, method: Seq<char>, params: JsonView) -> JsonView {
    request(decimal(id as nat), method, params)
}

/// A request without parameters.
pub open spec fn bare_rpc(id: u64, method: Seq<char>) -> JsonView {
    rpc(id, method, JsonView::Object(Seq::empty()))
}

fn rpc_frame(id: u64, method: &str, params: Json) -> (r: Json)
    ensures
        r.deep_view() == rpc(id, method@, params.deep_view()),
{
    let n = u64_text(id);
    request_frame(n.as_str(), method, params)
}

fn bare_frame(id: u64, method: &str) -> (r: Json)
    ensures
        r.deep_view() == bare_rpc(id, method@),
{
    rpc_frame(id, method, Json::object(no_items()))
}

/// Builds the request for a command, with its method. `Reconnect` is no
/// request: the connection loop takes it.
pub fn build_command_frame(id: u64, cmd: &GatewayCommand) -> (r: (&'static str, Json))
    requires
        !(cmd.deep_view() is Reconnect),
    ensures
        r.0@ == method_of(cmd.deep_view()),
        r.1.deep_view() == rpc(id, method_of(cmd.deep_view()), params_of(cmd.deep_view())),
{
    let mut fs: Vec<JsonField> = no_items();
    let method: &'static str = match cmd {
        GatewayCommand::ResolveApproval { id, decision } => {
            add_field(&mut fs, "id", Json::text(id.as_str()));
            add_field(&mut fs, "decision", Json::text(decision.as_str()));
            "exec.approval.resolve"
        },
        GatewayCommand::RunCron { job_id } => {
            add_field(&mut fs, "id", Json::text(job_id.as_str()));
            add_field(&mut fs, "mode", Json::text("force"));
            "cron.run"
        },
        GatewayCommand::SendChat { agent_id, message, idempotency_key } => {
            let key = agent_main_session_key(agent_id.as_str());
            add_field(&mut fs, "sessionKey", Json::text(key.as_str()));
            add_field(&mut fs, "message", Json::text(message.as_str()));
            add_field(&mut fs, "idempotencyKey", Json::text(idempotency_key.as_str()));
            "chat.send"
        },
        GatewayCommand::FetchChatHistory { agent_id } => {
            let key = agent_main_session_key(agent_id.as_str());
            add_field(&mut fs, "sessionKey", Json::text(key.as_str()));
            add_field(&mut fs, "limit", Json::Int(200));
            "chat.history"
        },
        GatewayCommand::FetchAgentIdentity { agent_id } => {
            add_field(&mut fs, "agentId", Json::text(agent_id.as_str()));
            "agent.identity.get"
        },
        GatewayCommand::ResetSession { session_key } => {
            add_field(&mut fs, "key", Json::text(session_key.as_str()));
            add_field(&mut fs, "reason", Json::text("reset"));
            "sessions.reset"
        },
        GatewayCommand::FetchSessionHistory { session_key } => {
            add_field(&mut fs, "sessionKey", Json::text(session_key.as_str()));
            add_field(&mut fs, "limit", Json::Int(200));
            "chat.history"
        },
        GatewayCommand::FetchSessionUsage { session_key } => {
            add_field(&mut fs, "key", Json::text(session_key.as_str()));
            "sessions.usage.timeseries"
        },
        GatewayCommand::Reconnect => "",
    };
    assert(fs.deep_view() =~= params_of(cmd.deep_view())->Object_0);
    (method, rpc_frame(id, method, Json::object(fs)))
}

// ---------------------------------------------------------------------
// Pushed events
// ---------------------------------------------------------------------

/// The remembered ids with one more; the oldest goes when there are too many.
pub open spec fn remembered(seen: Seq<Seq<char>>, id: Seq<char>) -> Seq<Seq<char>> {
    let s = seen.push(id);
    if s.len() > SEEN_IDS_MAX {
        s.drop_first()
    } else {
        s
    }
}

/// The `cron` event with the job's name filled in from the learned names.
pub open spec fn with_name(
    e: CronEventPayloadView,
    names: Seq<(Seq<char>, Seq<char>)>,
) -> CronEventPayloadView {
    if e.job_name is None {
        CronEventPayloadView { job_name: lookup(names, e.job_id), ..e }
    } else {
        e
    }
}

/// What a `cron` event leads to.
pub open spec fn cron_events(
    payload: JsonView,
    names: Seq<(Seq<char>, Seq<char>)>,
) -> Seq<WsEventView> {
    match cron_event_payload(payload) {
        Some(e) => match job_of_event(with_name(e, names)) {
            Some(job) => seq![WsEventView::CronDelta(job)],
            None => Seq::empty(),
        },
        None => Seq::empty(),
    }
}

/// What an `agent` event leads to.
pub open spec fn agent_events(payload: JsonView) -> Seq<WsEventView> {
    match agent_event_payload(payload) {
        Some(e) => match activity_of_stream(e.stream) {
            Some(kind) => seq![
                WsEventView::AgentActivity {
                    agent_id: match e.session_key {
                        Some(k) => agent_for_key(k),
                        None => "main"@,
                    },
                    kind,
                },
            ],
            None => Seq::empty(),
        },
        None => Seq::empty(),
    }
}

/// The id of the message in a `session.message` payload.
pub open spec fn message_id(p: JsonView) -> Option<Seq<char>> {
    match text_in(p.field("messageId"@)) {
        Some(m) => Some(m),
        None => text_in(member(p.field("message"@), "id"@)),
    }
}

/// The agent that a payload's `sessionKey` routes to.
pub open spec fn payload_agent(p: JsonView) -> Seq<char> {
    match text_in(p.field("sessionKey"@)) {
        Some(k) => agent_for_key(k),
        None => agent_for_key(""@),
    }
}

/// The session snapshot that a `session.message` payload carries along.
pub open spec fn carried_usage(p: JsonView) -> Seq<WsEventView> {
    match session_info(p) {
        Some(i) => if i.key.len() > 0 {
            seq![WsEventView::SessionUsage(i)]
        } else {
            Seq::empty()
        },
        None => Seq::empty(),
    }
}

/// Whether a `session.message` payload is an assistant's turn that has not
/// been seen.
pub open spec fn is_new_turn(p: JsonView, seen: Seq<Seq<char>>) -> bool {
    &&& text_in(member(p.field("message"@), "role"@)) == Some("assistant"@)
    &&& !(message_id(p) matches Some(m) && seen.contains(m))
}

/// What a `session.message` event leads to: the snapshot it carries, and the
/// text for the agent that said it, or the news that it stayed quiet.
pub open spec fn message_events(p: JsonView, seen: Seq<Seq<char>>) -> Seq<WsEventView> {
    if !is_new_turn(p, seen) {
        Seq::empty()
    } else {
        let text = payload_text(p);
        if trimmed(text).len() == 0 {
            carried_usage(p)
        } else if is_silent(text) {
            carried_usage(p).push(WsEventView::AgentSilentTurn { agent_id: payload_agent(p) })
        } else {
            carried_usage(p).push(WsEventView::AgentMessage { agent_id: payload_agent(p), text })
        }
    }
}

/// The ids remembered after a `session.message` event.
pub open spec fn message_seen(p: JsonView, seen: Seq<Seq<char>>) -> Seq<Seq<char>> {
    if is_new_turn(p, seen) {
        match message_id(p) {
            Some(m) => remembered(seen, m),
            None => seen,
        }
    } else {
        seen
    }
}

/// The name of the tool in a `session.tool` payload.
pub open spec fn tool_name(data: Option<JsonView>) -> Seq<char> {
    let named = match member(data, "name"@) {
        Some(n) => Some(n),
        None => member(data, "tool"@),
    };
    match text_in(named) {
        Some(n) => n,
        None => "tool"@,
    }
}

/// What a `session.tool` event leads to: always an activity, and the tool's
/// name when the call starts.
pub open spec fn tool_events(p: JsonView) -> Seq<WsEventView> {
    let data = p.field("data"@);
    let activity = WsEventView::AgentActivity {
        agent_id: payload_agent(p),
        kind: ActivityKind::ToolCalling,
    };
    if text_in(member(data, "phase"@)) == Some("start"@) {
        seq![
            WsEventView::AgentToolInvoked {
                agent_id: payload_agent(p),
                text: "⚙ "@ + tool_name(data),
            },
            activity,
        ]
    } else {
        seq![activity]
    }
}

/// The update that an `update.available` payload announces.
pub open spec fn update_in(p: JsonView) -> Option<GatewayUpdateView> {
    let u = p.field("updateAvailable"@);
    match (text_in(member(u, "currentVersion"@)), text_in(member(u, "latestVersion"@))) {
        (Some(current), Some(latest)) => Some(
            GatewayUpdateView {
                current,
                latest,
                channel: match text_in(member(u, "channel"@)) {
                    Some(c) => c,
                    None => "stable"@,
                },
            },
        ),
        _ => None,
    }
}

/// What a pushed event leads to.
pub open spec fn pushed(
    event: Seq<char>,
    payload: Option<JsonView>,
    names: Seq<(Seq<char>, Seq<char>)>,
    seen: Seq<Seq<char>>,
) -> Seq<WsEventView> {
    if event == "sessions.changed"@ {
        seq![WsEventView::SessionsChanged]
    } else if event == "exec.approval.resolved"@ {
        seq![WsEventView::ApprovalResolved { id: text_in(member(payload, "id"@)) }]
    } else {
        match payload {
            None => Seq::empty(),
            Some(p) => if event == "cron"@ {
                cron_events(p, names)
            } else if event == "agent"@ {
                agent_events(p)
            } else if event == "session.message"@ {
                message_events(p, seen)
            } else if event == "session.tool"@ {
                tool_events(p)
            } else if event == "exec.approval.requested"@ {
                match approval_event_payload(p) {
                    Some(a) => seq![WsEventView::ApprovalRequested(a)],
                    None => Seq::empty(),
                }
            } else if event == "update.available"@ {
                seq![WsEventView::UpdateAvailable(update_in(p))]
            } else {
                Seq::empty()
            },
        }
    }
}

/// The ids remembered after a pushed event.
pub open spec fn pushed_seen(
    event: Seq<char>,
    payload: Option<JsonView>,
    seen: Seq<Seq<char>>,
) -> Seq<Seq<char>> {
    match payload {
        Some(p) => if event == "session.message"@ {
            message_seen(p, seen)
        } else {
            seen
        },
        None => seen,
    }
}

fn handle_cron(payload: &Json, names: &StrMap<String>) -> (r: Vec<WsEvent>)
    ensures
        r.deep_view() == cron_events(payload.deep_view(), names.deep_view()),
{
    match CronEventPayload::decode(payload) {
        Some(e) => {
            let mut evt = e;
            if evt.job_name.is_none() {
                if let Some(name) = names.get(evt.job_id.as_str()) {
                    evt.job_name = Some(name.clone());
                }
            }
            match cron_job_from_event(&evt) {
                Some(job) => one_item(WsEvent::CronDelta(job)),
                None => no_items(),
            }
        },
        None => no_items(),
    }
}

fn handle_agent(payload: &Json) -> (r: Vec<WsEvent>)
    ensures
        r.deep_view() == agent_events(payload.deep_view()),
{
    match AgentEventPayload::decode(payload) {
        Some(e) => match agent_stream_to_activity(e.stream.as_str()) {
            Some(kind) => {
                let agent = match &e.session_key {
                    Some(k) => route_agent(k.as_str()),
                    None => "main".to_owned(),
                };
                one_item(WsEvent::AgentActivity { agent_id: AgentId(agent), kind })
            },
            None => no_items(),
        },
        None => no_items(),
    }
}

fn agent_of_payload(payload: &Json) -> (r: AgentId)
    ensures
        r.deep_view() == payload_agent(payload.deep_view()),
{
    match str_in(payload.get("sessionKey")) {
        Some(k) => AgentId(route_agent(k.as_str())),
        None => AgentId(route_agent("")),
    }
}

fn has_seen(seen: &Vec<String>, id: &str) -> (r: bool)
    ensures
        r == seen.deep_view().contains(id@),
{
    let mut i: usize = 0;
    while i < seen.len()
        invariant
            i <= seen@.len(),
            forall|k: int| 0 <= k < i ==> seen.deep_view()[k] != id@,
        decreases seen@.len() - i,
    {
        assert(seen.deep_view()[i as int] == seen@[i as int]@);
        if same(seen[i].as_str(), id) {
            assert(seen.deep_view().contains(id@));
            return true;
        }
        i = i + 1;
    }
    false
}

fn remember(seen: &mut Vec<String>, id: String)
    ensures
        final(seen).deep_view() == remembered(old(seen).deep_view(), id@),
{
    let ghost before = seen.deep_view();
    push_to(seen, id);
    if seen.len() > SEEN_IDS_MAX {
        let _ = seen.remove(0);
        assert(seen.deep_view() =~= before.push(id@).drop_first());
    }
}

fn handle_message(payload: &Json, seen: &mut Vec<String>) -> (r: Vec<WsEvent>)
    ensures
        r.deep_view() == message_events(payload.deep_view(), old(seen).deep_view()),
        final(seen).deep_view() == message_seen(payload.deep_view(), old(seen).deep_view()),
{
    if !str_is(get_in(payload.get("message"), "role"), "assistant") {
        return no_items();
    }
    let id = match str_in(payload.get("messageId")) {
        Some(m) => Some(m),
        None => str_in(get_in(payload.get("message"), "id")),
    };
    if let Some(m) = id {
        if has_seen(seen, m.as_str()) {
            return no_items();
        }
        remember(seen, m.clone());
    }
    let mut out: Vec<WsEvent> = no_items();
    if let Some(info) = SessionInfo::decode(payload) {
        if !info.key.as_str().is_empty() {
            out = one_item(WsEvent::SessionUsage(info));
        }
    }
    let text = extract_message_text(payload);
    let bare = trim(text.as_str());
    if bare.as_str().is_empty() {
        return out;
    }
    let agent_id = agent_of_payload(payload);
    if is_silent_reply(text.as_str()) {
        push_to(&mut out, WsEvent::AgentSilentTurn { agent_id });
    } else {
        push_to(&mut out, WsEvent::AgentMessage { agent_id, text });
    }
    out
}

fn handle_tool(payload: &Json) -> (r: Vec<WsEvent>)
    ensures
        r.deep_view() == tool_events(payload.deep_view()),
{
    let data = payload.get("data");
    let named = match get_in(data, "name") {
        Some(n) => Some(n),
        None => get_in(data, "tool"),
    };
    let name = match str_in(named) {
        Some(n) => n.as_str(),
        None => "tool",
    };
    let mut out: Vec<WsEvent> = no_items();
    if str_is(get_in(data, "phase"), "start") {
        push_to(
            &mut out,
            WsEvent::AgentToolInvoked { agent_id: agent_of_payload(payload), text: cat("⚙ ", name) },
        );
    }
    push_to(
        &mut out,
        WsEvent::AgentActivity {
            agent_id: agent_of_payload(payload),
            kind: ActivityKind::ToolCalling,
        },
    );
    assert(out.deep_view() =~= tool_events(payload.deep_view()));
    out
}

fn read_update(payload: &Json) -> (r: Option<GatewayUpdate>)
    ensures
        r.deep_view() == update_in(payload.deep_view()),
{
    let u = payload.get("updateAvailable");
    match (str_in(get_in(u, "currentVersion")), str_in(get_in(u, "latestVersion"))) {
        (Some(current), Some(latest)) => {
            let channel = match str_in(get_in(u, "channel")) {
                Some(c) => c.clone(),
                None => "stable".to_owned(),
            };
            Some(GatewayUpdate { current: current.clone(), latest: latest.clone(), channel })
        },
        _ => None,
    }
}

/// Turns a pushed event into what the UI is told.
pub fn handle_event(
    event: &str,
    payload: Option<&Json>,
    names: &StrMap<String>,
    seen: &mut Vec<String>,
) -> (r: Vec<WsEvent>)
    ensures
        r.deep_view() == pushed(
            event@,
            payload.deep_view(),
            names.deep_view(),
            old(seen).deep_view(),
        ),
        final(seen).deep_view() == pushed_seen(
            event@,
            payload.deep_view(),
            old(seen).deep_view(),
        ),
{
    proof {
        event_names_differ();
    }
    if same(event, "sessions.changed") {
        return one_item(WsEvent::SessionsChanged);
    }
    if same(event, "exec.approval.resolved") {
        let id = match str_in(get_in(payload, "id")) {
            Some(s) => Some(s.clone()),
            None => None,
        };
        return one_item(WsEvent::ApprovalResolved { id });
    }
    let p = match payload {
        Some(p) => p,
        None => {
            return no_items();
        },
    };
    if same(event, "cron") {
        handle_cron(p, names)
    } else if same(event, "agent") {
        handle_agent(p)
    } else if same(event, "session.message") {
        handle_message(p, seen)
    } else if same(event, "session.tool") {
        handle_tool(p)
    } else if same(event, "exec.approval.requested") {
        match ApprovalEventPayload::decode(p) {
            Some(a) => one_item(WsEvent::ApprovalRequested(a)),
            None => no_items(),
        }
    } else if same(event, "update.available") {
        one_item(WsEvent::UpdateAvailable(read_update(p)))
    } else {
        no_items()
    }
}

proof fn event_names_differ()
    ensures
        "session.message"@ != "sessions.changed"@,
        "session.message"@ != "exec.approval.resolved"@,
        "session.message"@ != "cron"@,
        "session.message"@ != "agent"@,
{
    reveal_strlit("session.message");
    reveal_strlit("sessions.changed");
    reveal_strlit("exec.approval.resolved");
    reveal_strlit("cron");
    reveal_strlit("agent");
    assert("session.message"@.len() == 15);
    assert("sessions.changed"@.len() == 16);
}

/// The role in a `session.message` payload.
pub open spec fn message_role(p: JsonView) -> Option<Seq<char>> {
    text_in(member(p.field("message"@), "role"@))
}

/// The gateway sends an assistant's turn twice under one id, the second time
/// with other metadata: whatever else the second one carries, it leads to
/// nothing and changes nothing.
pub proof fn turn_is_told_once(
    p: JsonView,
    q: JsonView,
    names: Seq<(Seq<char>, Seq<char>)>,
    seen: Seq<Seq<char>>,
)
    requires
        message_id(p) is Some,
        message_id(q) == message_id(p),
        message_role(q) == message_role(p),
    ensures
        ({
            let after = pushed_seen("session.message"@, Some(p), seen);
            &&& pushed("session.message"@, Some(q), names, after) == Seq::<WsEventView>::empty()
            &&& pushed_seen("session.message"@, Some(q), after) == after
        }),
{
    event_names_differ();
    let id = message_id(p)->Some_0;
    if is_new_turn(p, seen) {
        let s = seen.push(id);
        let after = remembered(seen, id);
        assert(s.last() == id);
        assert(after.last() == id);
        assert(after[after.len() - 1] == id);
        assert(after.contains(id));
    }
}

/// The ids remembered after a number of `session.message` events.
pub open spec fn seen_through(ps: Seq<JsonView>, seen: Seq<Seq<char>>) -> Seq<Seq<char>>
    decreases ps.len(),
{
    if ps.len() == 0 {
        seen
    } else {
        message_seen(ps.last(), seen_through(ps.drop_last(), seen))
    }
}

/// How many ids the events bring that were not remembered when they came.
pub open spec fn ids_brought(ps: Seq<JsonView>, seen: Seq<Seq<char>>) -> nat
    decreases ps.len(),
{
    if ps.len() == 0 {
        0
    } else {
        let before = seen_through(ps.drop_last(), seen);
        ids_brought(ps.drop_last(), seen) + (if is_new_turn(ps.last(), before) && message_id(
            ps.last(),
        ) is Some {
            1nat
        } else {
            0
        })
    }
}

proof fn id_stays(ps: Seq<JsonView>, seen: Seq<Seq<char>>, id: Seq<char>) -> (at: int)
    requires
        0 < seen.len() <= SEEN_IDS_MAX,
        seen.last() == id,
        ids_brought(ps, seen) < SEEN_IDS_MAX,
    ensures
        0 <= at < seen_through(ps, seen).len() <= SEEN_IDS_MAX,
        seen_through(ps, seen)[at] == id,
        at >= seen_through(ps, seen).len() - 1 - ids_brought(ps, seen),
    decreases ps.len(),
{
    if ps.len() == 0 {
        seen.len() - 1
    } else {
        let before = seen_through(ps.drop_last(), seen);
        let i = id_stays(ps.drop_last(), seen, id);
        let p = ps.last();
        if is_new_turn(p, before) && message_id(p) is Some {
            let longer = before.push(message_id(p)->Some_0);
            if longer.len() > SEEN_IDS_MAX {
                assert(longer.drop_first()[i - 1] == longer[i]);
                i - 1
            } else {
                i
            }
        } else {
            i
        }
    }
}

/// A turn that has been told is not told again, with whatever else its id
/// comes back, while fewer other ids have come in since than are remembered,
/// whatever else came between.
pub proof fn turn_stays_told(
    p: JsonView,
    q: JsonView,
    names: Seq<(Seq<char>, Seq<char>)>,
    seen: Seq<Seq<char>>,
    between: Seq<JsonView>,
)
    requires
        seen.len() <= SEEN_IDS_MAX,
        is_new_turn(p, seen),
        message_id(p) is Some,
        message_id(q) == message_id(p),
        ids_brought(between, message_seen(p, seen)) < SEEN_IDS_MAX,
    ensures
        ({
            let then = seen_through(between, message_seen(p, seen));
            &&& pushed("session.message"@, Some(q), names, then) == Seq::<WsEventView>::empty()
            &&& pushed_seen("session.message"@, Some(q), then) == then
        }),
{
    event_names_differ();
    let id = message_id(p)->Some_0;
    let after = message_seen(p, seen);
    assert(seen.push(id).last() == id);
    assert(after.last() == id);
    let at = id_stays(between, after, id);
    assert(seen_through(between, after).contains(id));
}

/// No more than a fixed number of ids is remembered.
pub proof fn seen_ids_stay_bounded(
    event: Seq<char>,
    payload: Option<JsonView>,
    seen: Seq<Seq<char>>,
)
    requires
        seen.len() <= SEEN_IDS_MAX,
    ensures
        pushed_seen(event, payload, seen).len() <= SEEN_IDS_MAX,
{
}

// ---------------------------------------------------------------------
// Frames
// ---------------------------------------------------------------------

/// The names learned from a snapshot, on top of those known.
pub open spec fn learned(names: Seq<(Seq<char>, Seq<char>)>, crons: Seq<CronJobView>) -> Seq<
    (Seq<char>, Seq<char>),
>
    decreases crons.len(),
{
    if crons.len() == 0 {
        names
    } else {
        let before = learned(names, crons.drop_last());
        match crons.last().id {
            Some(id) => put(before, id, crons.last().name),
            None => before,
        }
    }
}

/// The request that a response answers.
pub open spec fn answered_id(frame: JsonView) -> Seq<char> {
    match text_in(frame.field("id"@)) {
        Some(id) => id,
        None => "?"@,
    }
}

/// What a response leads to: what the UI is told, and the session after it.
/// The payload is recognised by its shape, in this order; only a usage series
/// is recognised by the request that it answers.
pub open spec fn answered(s: SessionView, p: JsonView, id: Seq<char>, now: i64) -> (
    Seq<WsEventView>,
    SessionView,
) {
    if cron_list_in(p) is Some {
        let crons = cron_list_in(p)->Some_0;
        (
            seq![WsEventView::CronSnapshot(crons)],
            SessionView { cron_id_to_name: learned(s.cron_id_to_name, crons), ..s },
        )
    } else if log_tail_in(p) is Some {
        let tail = log_tail_in(p)->Some_0;
        (seq![WsEventView::LogTail(tail)], SessionView { log_cursor: Some(tail.cursor), ..s })
    } else if identity_in(p) is Some {
        let i = identity_in(p)->Some_0;
        (seq![WsEventView::AgentIdentity { agent_id: i.0, name: i.1, emoji: i.2 }], s)
    } else if agents_list_in(p) is Some {
        let l = agents_list_in(p)->Some_0;
        (seq![WsEventView::AgentsList { default_id: l.default_id, agents: l.agents }], s)
    } else if chat_history_in(p, now) is Some {
        let messages = chat_history_in(p, now)->Some_0;
        match lookup(s.pending_session_history, id) {
            Some(session_key) => (
                seq![WsEventView::SessionHistory { session_key, messages }],
                SessionView {
                    pending_session_history: removed(s.pending_session_history, id),
                    ..s
                },
            ),
            None => (
                seq![
                    WsEventView::ChatHistory {
                        agent_id: match lookup(s.pending_history, id) {
                            Some(a) => a,
                            None => "main"@,
                        },
                        messages,
                    },
                ],
                SessionView { pending_history: removed(s.pending_history, id), ..s },
            ),
        }
    } else {
        let after = SessionView {
            pending_session_usage: removed(s.pending_session_usage, id),
            ..s
        };
        if lookup(s.pending_session_usage, id) is Some && usage_in(p) is Some {
            (
                seq![
                    WsEventView::SessionUsageTimeseries {
                        session_key: lookup(s.pending_session_usage, id)->Some_0,
                        points: usage_in(p)->Some_0.points,
                    },
                ],
                after,
            )
        } else if session_list_in(p) is Some {
            (usages(session_list_in(p)->Some_0), after)
        } else if channel_list_in(p) is Some {
            (seq![WsEventView::ChannelSnapshot(channel_list_in(p)->Some_0)], after)
        } else if main_agent_in(p) is Some {
            (seq![WsEventView::MainAgent(main_agent_in(p)->Some_0)], after)
        } else {
            (Seq::empty(), after)
        }
    }
}

/// One event for each session.
pub open spec fn usages(l: Seq<SessionInfoView>) -> Seq<WsEventView> {
    Seq::new(l.len(), |i: int| WsEventView::SessionUsage(l[i]))
}

/// What a frame leads to. A refused request and a response without a payload
/// lead to nothing.
pub open spec fn framed(s: SessionView, frame: JsonView, now: i64) -> (
    Seq<WsEventView>,
    SessionView,
) {
    if text_in(frame.field("type"@)) == Some("res"@) {
        match frame.field("payload"@) {
            Some(p) => if flag_in(frame.field("ok"@)) == Some(true) {
                answered(s, p, answered_id(frame), now)
            } else {
                (Seq::empty(), s)
            },
            None => (Seq::empty(), s),
        }
    } else if text_in(frame.field("type"@)) == Some("event"@) {
        let event = match text_in(frame.field("event"@)) {
            Some(e) => e,
            None => "?"@,
        };
        let payload = frame.field("payload"@);
        (
            pushed(event, payload, s.cron_id_to_name, s.seen_message_ids),
            SessionView {
                seen_message_ids: pushed_seen(event, payload, s.seen_message_ids),
                ..s
            },
        )
    } else {
        (Seq::empty(), s)
    }
}

/// What a frame's text leads to.
pub open spec fn framed_text(s: SessionView, txt: Seq<char>, now: i64) -> Result<
    (Seq<WsEventView>, SessionView),
    SessionErrorView,
> {
    match parsed(txt) {
        Ok(frame) => Ok(framed(s, frame, now)),
        Err(e) => Err(SessionErrorView::Json(e)),
    }
}

/// What the socket's news leads to in a live session.
pub open spec fn taken(s: SessionView, e: IncomingView, now: i64) -> Result<
    (Seq<WsEventView>, SessionView),
    SessionErrorView,
> {
    match e {
        IncomingView::Text(txt) => framed_text(s, txt, now),
        IncomingView::Closed(_) => Err(SessionErrorView::SocketClosed),
        IncomingView::Ended => Err(SessionErrorView::SocketClosed),
        IncomingView::Failed(why) => Err(SessionErrorView::Connect(why)),
        IncomingView::Other => Ok((Seq::empty(), s)),
        IncomingView::TimedOut => Ok((Seq::empty(), s)),
    }
}

fn learn_names(names: &mut StrMap<String>, crons: &Vec<CronJob>)
    ensures
        final(names).deep_view() == learned(old(names).deep_view(), crons.deep_view()),
{
    let ghost all = crons.deep_view();
    let ghost start = names.deep_view();
    let mut i: usize = 0;
    assert(all.take(0).len() == 0);
    while i < crons.len()
        invariant
            i <= crons@.len(),
            all == crons.deep_view(),
            names.deep_view() == learned(start, all.take(i as int)),
        decreases crons@.len() - i,
    {
        assert(all.take(i + 1).drop_last() =~= all.take(i as int));
        assert(all.take(i + 1).last() == crons@[i as int].deep_view());
        if let Some(id) = &crons[i].id {
            names.insert(id.clone(), crons[i].name.clone());
        }
        i = i + 1;
    }
    assert(all.take(i as int) =~= all);
}

fn usage_events(sessions: Vec<SessionInfo>) -> (r: Vec<WsEvent>)
    ensures
        r.deep_view() == usages(sessions.deep_view()),
{
    let mut out: Vec<WsEvent> = Vec::new();
    let mut i: usize = 0;
    while i < sessions.len()
        invariant
            i <= sessions@.len(),
            out@.len() == i,
            forall|k: int|
                0 <= k < i ==> (#[trigger] out@[k]).deep_view() == WsEventView::SessionUsage(
                    sessions@[k].deep_view(),
                ),
        decreases sessions@.len() - i,
    {
        out.push(WsEvent::SessionUsage(sessions[i].clone()));
        i = i + 1;
    }
    assert(out.deep_view() =~= usages(sessions.deep_view()));
    out
}

impl Session {
    /// A session that has sent and seen nothing.
    pub open spec fn fresh() -> SessionView {
        SessionView {
            rpc_id: 100,
            cron_id_to_name: Seq::empty(),
            seen_message_ids: Seq::empty(),
            log_cursor: None,
            pending_history: Seq::empty(),
            pending_session_history: Seq::empty(),
            pending_session_usage: Seq::empty(),
        }
    }

    /// A session that has just been accepted. Requests are numbered from 101.
    pub fn new() -> (r: Session)
        ensures
            r.deep_view() == Session::fresh(),
    {
        Session {
            rpc_id: 100,
            cron_id_to_name: StrMap::new(),
            seen_message_ids: no_items(),
            log_cursor: None,
            pending_history: StrMap::new(),
            pending_session_history: StrMap::new(),
            pending_session_usage: StrMap::new(),
        }
    }

    fn answer(&mut self, payload: &Json, id: &str, now: i64) -> (r: Vec<WsEvent>)
        ensures
            (r.deep_view(), final(self).deep_view()) == answered(
                old(self).deep_view(),
                payload.deep_view(),
                id@,
                now,
            ),
    {
        if let Some(crons) = try_cron_list(payload) {
            learn_names(&mut self.cron_id_to_name, &crons);
            return one_item(WsEvent::CronSnapshot(crons));
        }
        if let Some(tail) = try_log_tail(payload) {
            self.log_cursor = Some(tail.cursor);
            return one_item(WsEvent::LogTail(tail));
        }
        if let Some((agent_id, name, emoji)) = try_agent_identity(payload) {
            return one_item(WsEvent::AgentIdentity { agent_id: AgentId(agent_id), name, emoji });
        }
        if let Some(list) = try_agents_list(payload) {
            return one_item(
                WsEvent::AgentsList { default_id: list.default_id, agents: list.agents },
            );
        }
        if let Some(messages) = try_chat_history(payload, now) {
            if let Some(session_key) = self.pending_session_history.remove(id) {
                return one_item(WsEvent::SessionHistory { session_key, messages });
            }
            let agent = match self.pending_history.remove(id) {
                Some(a) => a,
                None => "main".to_owned(),
            };
            return one_item(WsEvent::ChatHistory { agent_id: AgentId(agent), messages });
        }
        let asked = self.pending_session_usage.remove(id);
        if let Some(session_key) = asked {
            if let Some(series) = try_session_usage_timeseries(payload) {
                return one_item(
                    WsEvent::SessionUsageTimeseries { session_key, points: series.points },
                );
            }
        }
        if let Some(sessions) = try_session_list(payload) {
            return usage_events(sessions);
        }
        if let Some(channels) = try_channel_list(payload) {
            return one_item(WsEvent::ChannelSnapshot(channels));
        }
        if let Some(main) = try_main_agent(payload) {
            return one_item(WsEvent::MainAgent(main));
        }
        no_items()
    }

    /// Takes one frame in. `now` is the current time in seconds, which stamps
    /// a history.
    pub fn dispatch_frame(&mut self, frame: &Json, now: i64) -> (r: Vec<WsEvent>)
        ensures
            (r.deep_view(), final(self).deep_view()) == framed(
                old(self).deep_view(),
                frame.deep_view(),
                now,
            ),
    {
        if str_is(frame.get("type"), "res") {
            let ok = match bool_in(frame.get("ok")) {
                Some(b) => b,
                None => false,
            };
            if !ok {
                return no_items();
            }
            match frame.get("payload") {
                Some(payload) => {
                    let id = match str_in(frame.get("id")) {
                        Some(s) => s.as_str(),
                        None => "?",
                    };
                    self.answer(payload, id, now)
                },
                None => no_items(),
            }
        } else if str_is(frame.get("type"), "event") {
            let event = match str_in(frame.get("event")) {
                Some(s) => s.as_str(),
                None => "?",
            };
            handle_event(
                event,
                frame.get("payload"),
                &self.cron_id_to_name,
                &mut self.seen_message_ids,
            )
        } else {
            no_items()
        }
    }

    /// Takes one text frame in. A text that is no JSON ends the session and
    /// changes nothing.
    pub fn handle_frame(&mut self, txt: &str, now: i64) -> (r: Result<Vec<WsEvent>, SessionError>)
        ensures
            match r {
                Ok(events) => framed_text(old(self).deep_view(), txt@, now) == Ok::<
                    (Seq<WsEventView>, SessionView),
                    SessionErrorView,
                >((events.deep_view(), final(self).deep_view())),
                Err(e) => {
                    &&& framed_text(old(self).deep_view(), txt@, now) == Err::<
                        (Seq<WsEventView>, SessionView),
                        SessionErrorView,
                    >(e.deep_view())
                    &&& final(self).deep_view() == old(self).deep_view()
                },
            },
    {
        match parse(txt) {
            Ok(frame) => Ok(self.dispatch_frame(&frame, now)),
            Err(e) => Err(SessionError::Json(e)),
        }
    }

    /// Takes the socket's news. A text frame is taken in; the end of the
    /// socket, or a failure of it, ends the session.
    pub fn take(&mut self, e: Incoming, now: i64) -> (r: Result<Vec<WsEvent>, SessionError>)
        ensures
            match r {
                Ok(events) => taken(old(self).deep_view(), e.deep_view(), now) == Ok::<
                    (Seq<WsEventView>, SessionView),
                    SessionErrorView,
                >((events.deep_view(), final(self).deep_view())),
                Err(why) => {
                    &&& taken(old(self).deep_view(), e.deep_view(), now) == Err::<
                        (Seq<WsEventView>, SessionView),
                        SessionErrorView,
                    >(why.deep_view())
                    &&& final(self).deep_view() == old(self).deep_view()
                },
            },
    {
        match e {
            Incoming::Text(txt) => self.handle_frame(txt.as_str(), now),
            Incoming::Closed(_) => Err(SessionError::SocketClosed),
            Incoming::Ended => Err(SessionError::SocketClosed),
            Incoming::Failed(why) => Err(SessionError::Connect(why)),
            Incoming::Other => Ok(no_items()),
            Incoming::TimedOut => Ok(no_items()),
        }
    }

    /// The requests that go out right after the connection is accepted.
    pub open spec fn bootstrap_frames(first: u64) -> Seq<JsonView> {
        seq![
            bare_rpc(first, "cron.list"@),
            bare_rpc((first + 1) as u64, "channels.status"@),
            bare_rpc((first + 2) as u64, "sessions.subscribe"@),
            bare_rpc((first + 3) as u64, "sessions.list"@),
            bare_rpc((first + 4) as u64, "agents.list"@),
        ]
    }

    /// Asks for the first snapshots and subscribes to session events.
    pub fn bootstrap(&mut self) -> (r: Vec<Json>)
        requires
            old(self).rpc_id <= u64::MAX - 5,
        ensures
            r.deep_view() == Session::bootstrap_frames((old(self).rpc_id + 1) as u64),
            final(self).deep_view() == (SessionView {
                rpc_id: (old(self).rpc_id + 5) as u64,
                ..old(self).deep_view()
            }),
    {
        let first: u64 = self.rpc_id + 1;
        let mut out: Vec<Json> = no_items();
        push_to(&mut out, bare_frame(first, "cron.list"));
        push_to(&mut out, bare_frame(first + 1, "channels.status"));
        push_to(&mut out, bare_frame(first + 2, "sessions.subscribe"));
        push_to(&mut out, bare_frame(first + 3, "sessions.list"));
        push_to(&mut out, bare_frame(first + 4, "agents.list"));
        self.rpc_id = first + 4;
        assert(out.deep_view() =~= Session::bootstrap_frames(first));
        out
    }

    /// The request for channel state.
    pub open spec fn heartbeat_frame(id: u64) -> JsonView {
        bare_rpc(id, "channels.status"@)
    }

    /// Asks for channel state again.
    pub fn heartbeat(&mut self) -> (r: Json)
        requires
            old(self).rpc_id < u64::MAX,
        ensures
            r.deep_view() == Session::heartbeat_frame((old(self).rpc_id + 1) as u64),
            final(self).deep_view() == (SessionView {
                rpc_id: (old(self).rpc_id + 1) as u64,
                ..old(self).deep_view()
            }),
    {
        self.rpc_id = self.rpc_id + 1;
        bare_frame(self.rpc_id, "channels.status")
    }

    /// The parameters of a log request: the cursor, once there is one.
    pub open spec fn tail_params(cursor: Option<i64>) -> JsonView {
        JsonView::Object(
            match cursor {
                Some(c) => seq![("cursor"@, JsonView::Int(c))],
                None => Seq::empty(),
            },
        )
    }

    /// The request for the log lines behind a cursor.
    pub open spec fn tail_frame(id: u64, cursor: Option<i64>) -> JsonView {
        rpc(id, "logs.tail"@, Session::tail_params(cursor))
    }

    /// Asks for the log lines since the last ones.
    pub fn tail_log(&mut self) -> (r: Json)
        requires
            old(self).rpc_id < u64::MAX,
        ensures
            r.deep_view() == Session::tail_frame(
                (old(self).rpc_id + 1) as u64,
                old(self).log_cursor,
            ),
            final(self).deep_view() == (SessionView {
                rpc_id: (old(self).rpc_id + 1) as u64,
                ..old(self).deep_view()
            }),
    {
        self.rpc_id = self.rpc_id + 1;
        let mut fs: Vec<JsonField> = no_items();
        if let Some(c) = self.log_cursor {
            add_field(&mut fs, "cursor", Json::Int(c));
        }
        assert(fs.deep_view() =~= Session::tail_params(self.log_cursor)->Object_0);
        rpc_frame(self.rpc_id, "logs.tail", Json::object(fs))
    }

    /// The session after a command has gone out under the number `id`: what
    /// was asked for is remembered where the response will not say it.
    pub open spec fn commanded(s: SessionView, c: GatewayCommandView, id: u64) -> SessionView {
        let key = decimal(id as nat);
        let next = SessionView { rpc_id: id, ..s };
        match c {
            GatewayCommandView::FetchChatHistory { agent_id } => SessionView {
                pending_history: put(s.pending_history, key, agent_id),
                ..next
            },
            GatewayCommandView::FetchSessionHistory { session_key } => SessionView {
                pending_session_history: put(s.pending_session_history, key, session_key),
                ..next
            },
            GatewayCommandView::FetchSessionUsage { session_key } => SessionView {
                pending_session_usage: put(s.pending_session_usage, key, session_key),
                ..next
            },
            _ => next,
        }
    }

    /// Sends a command. A live session has no use for `Reconnect` and drops
    /// it.
    pub fn command(&mut self, cmd: &GatewayCommand) -> (r: Option<Json>)
        requires
            old(self).rpc_id < u64::MAX,
        ensures
            cmd.deep_view() is Reconnect ==> r is None && final(self).deep_view() == old(
                self,
            ).deep_view(),
            !(cmd.deep_view() is Reconnect) ==> {
                let id = (old(self).rpc_id + 1) as u64;
                &&& r.deep_view() == Some(
                    rpc(id, method_of(cmd.deep_view()), params_of(cmd.deep_view())),
                )
                &&& final(self).deep_view() == Session::commanded(
                    old(self).deep_view(),
                    cmd.deep_view(),
                    id,
                )
            },
    {
        match cmd {
            GatewayCommand::Reconnect => {
                return None;
            },
            GatewayCommand::FetchChatHistory { agent_id } => {
                self.rpc_id = self.rpc_id + 1;
                self.pending_history.insert(u64_text(self.rpc_id), agent_id.clone());
            },
            GatewayCommand::FetchSessionHistory { session_key } => {
                self.rpc_id = self.rpc_id + 1;
                self.pending_session_history.insert(u64_text(self.rpc_id), session_key.clone());
            },
            GatewayCommand::FetchSessionUsage { session_key } => {
                self.rpc_id = self.rpc_id + 1;
                self.pending_session_usage.insert(u64_text(self.rpc_id), session_key.clone());
            },
            _ => {
                self.rpc_id = self.rpc_id + 1;
            },
        }
        Some(build_command_frame(self.rpc_id, cmd).1)
    }
}

// ---------------------------------------------------------------------
// What holds of every session
// ---------------------------------------------------------------------

/// Every entry of `m` stands under the number of a request up to `last`.
pub open spec fn numbered(m: Seq<(Seq<char>, Seq<char>)>, last: u64) -> bool {
    forall|i: int|
        0 <= i < m.len() ==> exists|n: u64| n <= last && (#[trigger] m[i]).0 == #[trigger] decimal(
            n as nat,
        )
}

/// What is pending was asked for by a request that has gone out.
pub open spec fn pending_is_numbered(s: SessionView) -> bool {
    &&& numbered(s.pending_history, s.rpc_id)
    &&& numbered(s.pending_session_history, s.rpc_id)
    &&& numbered(s.pending_session_usage, s.rpc_id)
}

proof fn numbered_put(m: Seq<(Seq<char>, Seq<char>)>, last: u64, id: u64, v: Seq<char>)
    requires
        numbered(m, last),
        last <= id,
    ensures
        numbered(put(m, decimal(id as nat), v), id),
        numbered(m, id),
{
    let k = decimal(id as nat);
    let p = put(m, k, v);
    assert forall|i: int| 0 <= i < m.len() implies exists|n: u64|
        n <= id && (#[trigger] m[i]).0 == #[trigger] decimal(n as nat) by {
        let n = choose|n: u64| n <= last && m[i].0 == #[trigger] decimal(n as nat);
        assert(n <= id && m[i].0 == decimal(n as nat));
    }
    crate::keyed::key_index_bounds(m, k);
    assert forall|i: int| 0 <= i < p.len() implies exists|n: u64|
        n <= id && (#[trigger] p[i]).0 == #[trigger] decimal(n as nat) by {
        if p[i].0 == k {
            assert(id <= id && p[i].0 == decimal(id as nat));
        } else {
            assert(p[i] == m[i]);
        }
    }
}

proof fn numbered_removed(m: Seq<(Seq<char>, Seq<char>)>, last: u64, k: Seq<char>)
    requires
        numbered(m, last),
    ensures
        numbered(removed(m, k), last),
{
    crate::keyed::key_index_bounds(m, k);
    let j = crate::keyed::key_index(m, k);
    let p = removed(m, k);
    assert forall|i: int| 0 <= i < p.len() implies exists|n: u64|
        n <= last && (#[trigger] p[i]).0 == #[trigger] decimal(n as nat) by {
        if j < m.len() && i >= j {
            assert(p[i] == m[i + 1]);
        } else {
            assert(p[i] == m[i]);
        }
    }
}

proof fn unnumbered(m: Seq<(Seq<char>, Seq<char>)>, last: u64, id: u64)
    requires
        numbered(m, last),
        last < id,
    ensures
        lookup(m, decimal(id as nat)) is None,
{
    let k = decimal(id as nat);
    crate::keyed::key_index_bounds(m, k);
    let j = crate::keyed::key_index(m, k);
    if j < m.len() {
        assert(m[j].0 == k);
        let n = choose|n: u64| n <= last && m[j].0 == #[trigger] decimal(n as nat);
        crate::text::decimal_injective(n as nat, id as nat);
    }
}

/// A fresh session has nothing pending, and every frame and command keeps
/// what is pending to requests that have gone out.
pub proof fn pending_stays_numbered(
    s: SessionView,
    frame: JsonView,
    now: i64,
    c: GatewayCommandView,
    id: u64,
)
    requires
        pending_is_numbered(s),
        s.rpc_id < id,
    ensures
        pending_is_numbered(Session::fresh()),
        pending_is_numbered(framed(s, frame, now).1),
        pending_is_numbered(Session::commanded(s, c, id)),
{
    let k = answered_id(frame);
    numbered_removed(s.pending_history, s.rpc_id, k);
    numbered_removed(s.pending_session_history, s.rpc_id, k);
    numbered_removed(s.pending_session_usage, s.rpc_id, k);
    match c {
        GatewayCommandView::FetchChatHistory { agent_id } => {
            numbered_put(s.pending_history, s.rpc_id, id, agent_id);
        },
        GatewayCommandView::FetchSessionHistory { session_key } => {
            numbered_put(s.pending_session_history, s.rpc_id, id, session_key);
        },
        GatewayCommandView::FetchSessionUsage { session_key } => {
            numbered_put(s.pending_session_usage, s.rpc_id, id, session_key);
        },
        _ => {},
    }
    numbered_put(s.pending_history, s.rpc_id, id, Seq::empty());
    numbered_put(s.pending_session_history, s.rpc_id, id, Seq::empty());
    numbered_put(s.pending_session_usage, s.rpc_id, id, Seq::empty());
}

/// Whether a payload is a chat history and nothing that is recognised before
/// one.
pub open spec fn is_history_only(p: JsonView, now: i64) -> bool {
    &&& cron_list_in(p) is None
    &&& log_tail_in(p) is None
    &&& identity_in(p) is None
    &&& agents_list_in(p) is None
    &&& chat_history_in(p, now) is Some
}

/// A history that answers a request goes to the agent, or to the session,
/// that the request was about.
pub proof fn history_reaches_its_asker(
    s: SessionView,
    asked: Seq<char>,
    id: u64,
    p: JsonView,
    now: i64,
)
    requires
        pending_is_numbered(s),
        s.rpc_id < id,
        is_history_only(p, now),
    ensures
        answered(
            Session::commanded(s, GatewayCommandView::FetchChatHistory { agent_id: asked }, id),
            p,
            decimal(id as nat),
            now,
        ).0 == seq![
            WsEventView::ChatHistory {
                agent_id: asked,
                messages: chat_history_in(p, now)->Some_0,
            },
        ],
        answered(
            Session::commanded(
                s,
                GatewayCommandView::FetchSessionHistory { session_key: asked },
                id,
            ),
            p,
            decimal(id as nat),
            now,
        ).0 == seq![
            WsEventView::SessionHistory {
                session_key: asked,
                messages: chat_history_in(p, now)->Some_0,
            },
        ],
{
    let k = decimal(id as nat);
    unnumbered(s.pending_session_history, s.rpc_id, id);
    crate::keyed::put_law(s.pending_history, k, asked, k);
    crate::keyed::put_law(s.pending_session_history, k, asked, k);
}

/// A usage series that answers a request goes to the session that the request
/// was about.
pub proof fn usage_reaches_its_asker(
    s: SessionView,
    asked: Seq<char>,
    id: u64,
    p: JsonView,
    now: i64,
)
    requires
        usage_in(p) is Some,
        cron_list_in(p) is None,
        log_tail_in(p) is None,
        identity_in(p) is None,
        agents_list_in(p) is None,
        chat_history_in(p, now) is None,
    ensures
        answered(
            Session::commanded(
                s,
                GatewayCommandView::FetchSessionUsage { session_key: asked },
                id,
            ),
            p,
            decimal(id as nat),
            now,
        ).0 == seq![
            WsEventView::SessionUsageTimeseries {
                session_key: asked,
                points: usage_in(p)->Some_0.points,
            },
        ],
{
    crate::keyed::put_law(s.pending_session_usage, decimal(id as nat), asked, decimal(id as nat));
}

/// A refused request changes nothing and leads to nothing.
pub proof fn refusal_is_inert(s: SessionView, frame: JsonView, now: i64)
    requires
        text_in(frame.field("type"@)) == Some("res"@),
        flag_in(frame.field("ok"@)) != Some(true),
    ensures
        framed(s, frame, now) == (Seq::<WsEventView>::empty(), s),
{
}

/// The text in which a frame goes out.
pub fn frame_text(frame: &Json) -> (r: String)
    ensures
        r@ == printed(frame.deep_view()),
{
    print(frame)
}

} // verus!
