//! Events pushed from the gateway stream (real or demo) into the app.
use vstd::prelude::*;

use crate::domain::agent::AgentId;
use crate::domain::status::AgentStatus;
use crate::net::rpc::{
    idle_state, AgentInfo, AgentInfoView, ApprovalEventPayload, ApprovalEventPayloadView, Channel,
    ChannelView, CronEventPayload, CronEventPayloadView, CronJob, CronJobView, CronState,
    CronStateView, LogTailPayload, LogTailPayloadView, MainAgent, MainAgentView, SessionInfo,
    SessionInfoView, SessionUsagePoint, SessionUsagePointView,
};
use crate::text::same;
use crate::ui::chat_view::{ChatMessage, ChatMessageView};

verus! {

/// Coarse-grained agent activity signals.
#[derive(Debug, Clone, Copy, PartialEq, Eq, Structural)]
pub enum ActivityKind {
    Thinking,
    ToolCalling,
    Errored,
    /// The agent has settled down.
    Idle,
}

impl DeepView for ActivityKind {
    type V = ActivityKind;

    open spec fn deep_view(&self) -> ActivityKind {
        *self
    }
}

/// Whether a device asks to be paired for the first time, or is paired and
/// asks for broader scopes.
#[derive(Debug, Clone, Copy, PartialEq, Eq, Structural)]
pub enum PairRequestKind {
    /// `details.reason == "not-paired"`.
    FirstPair,
    /// `details.reason == "scope-upgrade"`.
    ScopeUpgrade,
}

impl DeepView for PairRequestKind {
    type V = PairRequestKind;

    open spec fn deep_view(&self) -> PairRequestKind {
        *self
    }
}

/// A pair request that the operator has to approve.
#[derive(Debug, PartialEq, Eq)]
pub struct PairRequest {
    /// What the operator passes to `openclaw devices approve`.
    pub request_id: String,
    /// SHA-256 of this device's public key, in hex.
    pub device_id: Option<String>,
    /// Short server-authored hint.
    pub remediation_hint: Option<String>,
    pub kind: PairRequestKind,
}

/// What [`PairRequest`] holds, as mathematical values.
#[verifier::ext_equal]
pub struct PairRequestView {
    pub request_id: Seq<char>,
    pub device_id: Option<Seq<char>>,
    pub remediation_hint: Option<Seq<char>>,
    pub kind: PairRequestKind,
}

impl DeepView for PairRequest {
    type V = PairRequestView;

    open spec fn deep_view(&self) -> PairRequestView {
        PairRequestView {
            request_id: self.request_id.deep_view(),
            device_id: self.device_id.deep_view(),
            remediation_hint: self.remediation_hint.deep_view(),
            kind: self.kind.deep_view(),
        }
    }
}

impl Clone for PairRequest {
    fn clone(&self) -> (r: PairRequest)
        ensures
            r.deep_view() == self.deep_view(),
    {
        PairRequest {
            request_id: self.request_id.clone(),
            device_id: self.device_id.clone(),
            remediation_hint: self.remediation_hint.clone(),
            kind: self.kind,
        }
    }
}

/// Gateway-side update notification.
#[derive(Debug, PartialEq, Eq)]
pub struct GatewayUpdate {
    pub current: String,
    pub latest: String,
    pub channel: String,
}

/// What [`GatewayUpdate`] holds, as mathematical values.
#[verifier::ext_equal]
pub struct GatewayUpdateView {
    pub current: Seq<char>,
    pub latest: Seq<char>,
    pub channel: Seq<char>,
}

impl DeepView for GatewayUpdate {
    type V = GatewayUpdateView;

    open spec fn deep_view(&self) -> GatewayUpdateView {
        GatewayUpdateView {
            current: self.current.deep_view(),
            latest: self.latest.deep_view(),
            channel: self.channel.deep_view(),
        }
    }
}

impl Clone for GatewayUpdate {
    fn clone(&self) -> (r: GatewayUpdate)
        ensures
            r.deep_view() == self.deep_view(),
    {
        GatewayUpdate {
            current: self.current.clone(),
            latest: self.latest.clone(),
            channel: self.channel.clone(),
        }
    }
}

/// One event from the gateway.
#[derive(Debug, PartialEq)]
pub enum WsEvent {
    /// Snapshot of all cron jobs.
    CronSnapshot(Vec<CronJob>),
    /// Delta for a single cron job.
    CronDelta(CronJob),
    /// Snapshot of all channel providers.
    ChannelSnapshot(Vec<Channel>),
    /// Main agent status update.
    MainAgent(MainAgent),
    /// Every chat-capable agent plus the server-side default.
    AgentsList { default_id: String, agents: Vec<AgentInfo> },
    /// Richer persona for one agent.
    AgentIdentity { agent_id: AgentId, name: Option<String>, emoji: Option<String> },
    /// Agent chat text.
    AgentMessage { agent_id: AgentId, text: String },
    /// A user message that reached an agent through another channel.
    AgentInboundUserMessage { agent_id: AgentId },
    /// Agent chose not to reply this turn.
    AgentSilentTurn { agent_id: AgentId },
    /// History of an agent's main session.
    ChatHistory { agent_id: AgentId, messages: Vec<ChatMessage> },
    /// History of a specific session.
    SessionHistory { session_key: String, messages: Vec<ChatMessage> },
    /// Token-usage time series of a session.
    SessionUsageTimeseries { session_key: String, points: Vec<SessionUsagePoint> },
    /// Tool-invocation text.
    AgentToolInvoked { agent_id: AgentId, text: String },
    /// Agent activity without new text.
    AgentActivity { agent_id: AgentId, kind: ActivityKind },
    /// A session summary changed.
    SessionsChanged,
    /// Snapshot of a single session's metadata.
    SessionUsage(SessionInfo),
    /// The gateway wants this device paired; `None` clears the notice.
    PairRequestPending(Option<PairRequest>),
    /// Pending exec approval requires operator attention.
    ApprovalRequested(ApprovalEventPayload),
    /// Previously-pending approval has resolved.
    ApprovalResolved { id: Option<String> },
    /// Gateway-side update notification; `None` clears an earlier one.
    UpdateAvailable(Option<GatewayUpdate>),
    /// New log lines since the last cursor.
    LogTail(LogTailPayload),
    /// Connection to the gateway is healthy.
    Connected,
    /// Connection dropped (reason for display).
    Disconnected(String),
}

/// What [`WsEvent`] holds, as mathematical values.
#[verifier::ext_equal]
pub enum WsEventView {
    CronSnapshot(Seq<CronJobView>),
    CronDelta(CronJobView),
    ChannelSnapshot(Seq<ChannelView>),
    MainAgent(MainAgentView),
    AgentsList { default_id: Seq<char>, agents: Seq<AgentInfoView> },
    AgentIdentity { agent_id: Seq<char>, name: Option<Seq<char>>, emoji: Option<Seq<char>> },
    AgentMessage { agent_id: Seq<char>, text: Seq<char> },
    AgentInboundUserMessage { agent_id: Seq<char> },
    AgentSilentTurn { agent_id: Seq<char> },
    ChatHistory { agent_id: Seq<char>, messages: Seq<ChatMessageView> },
    SessionHistory { session_key: Seq<char>, messages: Seq<ChatMessageView> },
    SessionUsageTimeseries { session_key: Seq<char>, points: Seq<SessionUsagePointView> },
    AgentToolInvoked { agent_id: Seq<char>, text: Seq<char> },
    AgentActivity { agent_id: Seq<char>, kind: ActivityKind },
    SessionsChanged,
    SessionUsage(SessionInfoView),
    PairRequestPending(Option<PairRequestView>),
    ApprovalRequested(ApprovalEventPayloadView),
    ApprovalResolved { id: Option<Seq<char>> },
    UpdateAvailable(Option<GatewayUpdateView>),
    LogTail(LogTailPayloadView),
    Connected,
    Disconnected(Seq<char>),
}

impl DeepView for WsEvent {
    type V = WsEventView;

    open spec fn deep_view(&self) -> WsEventView {
        match *self {
            WsEvent::CronSnapshot(a0) => WsEventView::CronSnapshot(a0.deep_view()),
            WsEvent::CronDelta(a0) => WsEventView::CronDelta(a0.deep_view()),
            WsEvent::ChannelSnapshot(a0) => WsEventView::ChannelSnapshot(a0.deep_view()),
            WsEvent::MainAgent(a0) => WsEventView::MainAgent(a0.deep_view()),
            WsEvent::AgentsList { default_id, agents } => WsEventView::AgentsList {
                default_id: default_id.deep_view(),
                agents: agents.deep_view(),
            },
            WsEvent::AgentIdentity { agent_id, name, emoji } => WsEventView::AgentIdentity {
                agent_id: agent_id.deep_view(),
                name: name.deep_view(),
                emoji: emoji.deep_view(),
            },
            WsEvent::AgentMessage { agent_id, text } => WsEventView::AgentMessage {
                agent_id: agent_id.deep_view(),
                text: text.deep_view(),
            },
            WsEvent::AgentInboundUserMessage { agent_id } => WsEventView::AgentInboundUserMessage {
                agent_id: agent_id.deep_view(),
            },
            WsEvent::AgentSilentTurn { agent_id } => WsEventView::AgentSilentTurn {
                agent_id: agent_id.deep_view(),
            },
            WsEvent::ChatHistory { agent_id, messages } => WsEventView::ChatHistory {
                agent_id: agent_id.deep_view(),
                messages: messages.deep_view(),
            },
            WsEvent::SessionHistory { session_key, messages } => WsEventView::SessionHistory {
                session_key: session_key.deep_view(),
                messages: messages.deep_view(),
            },
            WsEvent::SessionUsageTimeseries { session_key, points } => WsEventView::SessionUsageTimeseries {
                session_key: session_key.deep_view(),
                points: points.deep_view(),
            },
            WsEvent::AgentToolInvoked { agent_id, text } => WsEventView::AgentToolInvoked {
                agent_id: agent_id.deep_view(),
                text: text.deep_view(),
            },
            WsEvent::AgentActivity { agent_id, kind } => WsEventView::AgentActivity {
                agent_id: agent_id.deep_view(),
                kind: kind.deep_view(),
            },
            WsEvent::SessionsChanged => WsEventView::SessionsChanged,
            WsEvent::SessionUsage(a0) => WsEventView::SessionUsage(a0.deep_view()),
            WsEvent::PairRequestPending(a0) => WsEventView::PairRequestPending(a0.deep_view()),
            WsEvent::ApprovalRequested(a0) => WsEventView::ApprovalRequested(a0.deep_view()),
            WsEvent::ApprovalResolved { id } => WsEventView::ApprovalResolved {
                id: id.deep_view(),
            },
            WsEvent::UpdateAvailable(a0) => WsEventView::UpdateAvailable(a0.deep_view()),
            WsEvent::LogTail(a0) => WsEventView::LogTail(a0.deep_view()),
            WsEvent::Connected => WsEventView::Connected,
            WsEvent::Disconnected(a0) => WsEventView::Disconnected(a0.deep_view()),
        }
    }
}

impl Clone for WsEvent {
    fn clone(&self) -> (r: WsEvent)
        ensures
            r.deep_view() == self.deep_view(),
    {
        match self {
            WsEvent::CronSnapshot(a0) => WsEvent::CronSnapshot(a0.clone()),
            WsEvent::CronDelta(a0) => WsEvent::CronDelta(a0.clone()),
            WsEvent::ChannelSnapshot(a0) => WsEvent::ChannelSnapshot(a0.clone()),
            WsEvent::MainAgent(a0) => WsEvent::MainAgent(a0.clone()),
            WsEvent::AgentsList { default_id, agents } => WsEvent::AgentsList { default_id: default_id.clone(), agents: agents.clone() },
            WsEvent::AgentIdentity { agent_id, name, emoji } => WsEvent::AgentIdentity { agent_id: agent_id.clone(), name: name.clone(), emoji: emoji.clone() },
            WsEvent::AgentMessage { agent_id, text } => WsEvent::AgentMessage { agent_id: agent_id.clone(), text: text.clone() },
            WsEvent::AgentInboundUserMessage { agent_id } => WsEvent::AgentInboundUserMessage { agent_id: agent_id.clone() },
            WsEvent::AgentSilentTurn { agent_id } => WsEvent::AgentSilentTurn { agent_id: agent_id.clone() },
            WsEvent::ChatHistory { agent_id, messages } => WsEvent::ChatHistory { agent_id: agent_id.clone(), messages: messages.clone() },
            WsEvent::SessionHistory { session_key, messages } => WsEvent::SessionHistory { session_key: session_key.clone(), messages: messages.clone() },
            WsEvent::SessionUsageTimeseries { session_key, points } => WsEvent::SessionUsageTimeseries { session_key: session_key.clone(), points: points.clone() },
            WsEvent::AgentToolInvoked { agent_id, text } => WsEvent::AgentToolInvoked { agent_id: agent_id.clone(), text: text.clone() },
            WsEvent::AgentActivity { agent_id, kind } => WsEvent::AgentActivity { agent_id: agent_id.clone(), kind: *kind },
            WsEvent::SessionsChanged => WsEvent::SessionsChanged,
            WsEvent::SessionUsage(a0) => WsEvent::SessionUsage(a0.clone()),
            WsEvent::PairRequestPending(a0) => WsEvent::PairRequestPending(a0.clone()),
            WsEvent::ApprovalRequested(a0) => WsEvent::ApprovalRequested(a0.clone()),
            WsEvent::ApprovalResolved { id } => WsEvent::ApprovalResolved { id: id.clone() },
            WsEvent::UpdateAvailable(a0) => WsEvent::UpdateAvailable(a0.clone()),
            WsEvent::LogTail(a0) => WsEvent::LogTail(a0.clone()),
            WsEvent::Connected => WsEvent::Connected,
            WsEvent::Disconnected(a0) => WsEvent::Disconnected(a0.clone()),
        }
    }
}

// ---------------------------------------------------------------------
// From reported states to statuses
// ---------------------------------------------------------------------

/// The status that a cron's reported state stands for.
pub open spec fn status_of_cron(c: CronJobView) -> AgentStatus {
    if c.state.running {
        AgentStatus::Running
    } else if c.state.last_status == Some("ok"@) {
        AgentStatus::Healthy
    } else if c.state.last_status == Some("error"@) || c.state.last_status == Some("failed"@)
        || c.state.last_status == Some("timeout"@) {
        AgentStatus::Error
    } else {
        AgentStatus::Unknown
    }
}

/// Maps a cron job's reported state to its status.
pub fn cron_status(cron: &CronJob) -> (r: AgentStatus)
    ensures
        r == status_of_cron(cron.deep_view()),
{
    if cron.state.running {
        return AgentStatus::Running;
    }
    match &cron.state.last_status {
        Some(s) => {
            if same(s.as_str(), "ok") {
                AgentStatus::Healthy
            } else if same(s.as_str(), "error") || same(s.as_str(), "failed") || same(
                s.as_str(),
                "timeout",
            ) {
                AgentStatus::Error
            } else {
                AgentStatus::Unknown
            }
        },
        None => AgentStatus::Unknown,
    }
}

/// The status that a channel's reported state stands for.
pub open spec fn status_of_channel(c: ChannelView) -> AgentStatus {
    if !c.enabled {
        AgentStatus::Disabled
    } else if c.last_error is Some {
        AgentStatus::Error
    } else if c.connected {
        AgentStatus::Healthy
    } else {
        AgentStatus::Unknown
    }
}

/// Maps a channel's state to its status.
pub fn channel_status(ch: &Channel) -> (r: AgentStatus)
    ensures
        r == status_of_channel(ch.deep_view()),
{
    if !ch.enabled {
        return AgentStatus::Disabled;
    }
    if ch.last_error.is_some() {
        return AgentStatus::Error;
    }
    if ch.connected {
        AgentStatus::Healthy
    } else {
        AgentStatus::Unknown
    }
}

/// The status that a main agent's reported state stands for.
pub open spec fn status_of_main(a: MainAgentView) -> AgentStatus {
    if a.state == Some("running"@) {
        AgentStatus::Running
    } else if a.state == Some("idle"@) || a.state == Some("ok"@) {
        AgentStatus::Healthy
    } else if a.state == Some("error"@) {
        AgentStatus::Error
    } else {
        AgentStatus::Unknown
    }
}

/// Maps a main agent's state string to its status.
pub fn main_agent_status(agent: &MainAgent) -> (r: AgentStatus)
    ensures
        r == status_of_main(agent.deep_view()),
{
    match &agent.state {
        Some(s) => {
            if same(s.as_str(), "running") {
                AgentStatus::Running
            } else if same(s.as_str(), "idle") || same(s.as_str(), "ok") {
                AgentStatus::Healthy
            } else if same(s.as_str(), "error") {
                AgentStatus::Error
            } else {
                AgentStatus::Unknown
            }
        },
        None => AgentStatus::Unknown,
    }
}

/// The agent id for a cron's name.
pub fn cron_agent_id(cron: &CronJob) -> (r: AgentId)
    ensures
        r.deep_view() == cron.deep_view().name,
{
    AgentId::new(cron.name.as_str())
}

/// The agent id for a channel's name.
pub fn channel_agent_id(ch: &Channel) -> (r: AgentId)
    ensures
        r.deep_view() == ch.deep_view().name,
{
    AgentId::new(ch.name.as_str())
}

/// The job that a `cron` event stands for: a running one when it started, one
/// with the run's outcome when it finished, none for any other action. It
/// goes by its name, or by its id where the event has no name.
pub open spec fn job_of_event(e: CronEventPayloadView) -> Option<CronJobView> {
    let name = match e.job_name {
        Some(n) => n,
        None => e.job_id,
    };
    if e.action == "started"@ {
        Some(
            CronJobView {
                name,
                id: Some(e.job_id),
                state: CronStateView { running: true, ..idle_state() },
            },
        )
    } else if e.action == "finished"@ {
        Some(
            CronJobView {
                name,
                id: Some(e.job_id),
                state: CronStateView {
                    running: false,
                    last_status: e.status,
                    last_run_at_ms: e.run_at_ms,
                    last_duration_ms: e.duration_ms,
                    last_error: e.error,
                    next_run_at_ms: e.next_run_at_ms,
                },
            },
        )
    } else {
        None
    }
}

/// Makes a job out of a pushed `cron` event, so that it can be treated like a
/// snapshot entry.
pub fn cron_job_from_event(evt: &CronEventPayload) -> (r: Option<CronJob>)
    ensures
        r.deep_view() == job_of_event(evt.deep_view()),
{
    let name = match &evt.job_name {
        Some(n) => n.clone(),
        None => evt.job_id.clone(),
    };
    if same(evt.action.as_str(), "started") {
        let mut state = CronState::default();
        state.running = true;
        Some(CronJob { name, id: Some(evt.job_id.clone()), state })
    } else if same(evt.action.as_str(), "finished") {
        Some(
            CronJob {
                name,
                id: Some(evt.job_id.clone()),
                state: CronState {
                    running: false,
                    last_status: evt.status.clone(),
                    last_run_at_ms: evt.run_at_ms,
                    last_duration_ms: evt.duration_ms,
                    last_error: evt.error.clone(),
                    next_run_at_ms: evt.next_run_at_ms,
                },
            },
        )
    } else {
        None
    }
}

/// The activity that an `agent` event's stream stands for.
pub open spec fn activity_of_stream(stream: Seq<char>) -> Option<ActivityKind> {
    if stream == "tool"@ {
        Some(ActivityKind::ToolCalling)
    } else if stream == "item"@ {
        Some(ActivityKind::Thinking)
    } else if stream == "error"@ {
        Some(ActivityKind::Errored)
    } else {
        None
    }
}

/// Interprets an `agent` event's stream as an activity.
pub fn agent_stream_to_activity(stream: &str) -> (r: Option<ActivityKind>)
    ensures
        r == activity_of_stream(stream@),
{
    if same(stream, "tool") {
        Some(ActivityKind::ToolCalling)
    } else if same(stream, "item") {
        Some(ActivityKind::Thinking)
    } else if same(stream, "error") {
        Some(ActivityKind::Errored)
    } else {
        None
    }
}

/// A job that an event says is running is seen as running, whatever it did
/// before; one that finished never is.
pub proof fn event_status_law(e: CronEventPayloadView)
    ensures
        e.action == "started"@ ==> job_of_event(e) is Some && status_of_cron(
            job_of_event(e)->Some_0,
        ) == AgentStatus::Running,
        e.action == "finished"@ ==> job_of_event(e) is Some && status_of_cron(
            job_of_event(e)->Some_0,
        ) != AgentStatus::Running,
{
    reveal_strlit("started");
    reveal_strlit("finished");
    assert("started"@.len() != "finished"@.len());
}

} // verus!
