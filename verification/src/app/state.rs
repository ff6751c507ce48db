//! The state of the application, the messages it takes, and the effects it
//! leaves.
use vstd::prelude::*;

use crate::domain::agent::{Agent, AgentId, AgentView};
use crate::domain::status::AgentStatus;
use crate::keyed::{StrMap, StrSet};
use crate::logs::{LogFilters, LogFiltersView, LogLine, LogLineView, LogSeverity};
use crate::net::commands::{GatewayCommand, GatewayCommandView};
use crate::net::events::{
    GatewayUpdate, GatewayUpdateView, PairRequest, PairRequestView, WsEvent, WsEventView,
};
use crate::net::rpc::{
    AgentInfo, AgentInfoView, ApprovalEventPayload, ApprovalEventPayloadView, Channel, ChannelView,
    CronState, CronStateView, SessionInfo, SessionInfoView, SessionUsagePoint,
    SessionUsagePointView,
};
use crate::notifications::{Notification, NotificationView, Notifier, NotifierView};
use crate::ring::Ring;
use crate::scene::thought_bubble::{ThoughtBubble, ThoughtBubbleView};
use crate::text::same;
use crate::ui::chat_view::{ChatMessage, ChatMessageView};
use crate::ui_state::{Settings, SettingsView, UiState, UiStateView, WindowState, WindowStateView};

verus! {

/// How long a status change flashes, in milliseconds.
pub const TRANSITION_FLASH_MS: u64 = 600;

/// How long an activity row stays without news, in milliseconds.
pub const CHAT_ACTIVITY_TIMEOUT_MS: u64 = 45_000;

/// How many entries a chat log keeps.
pub const CHAT_LOG_MAX: usize = 500;

/// How long the window has to rest before its geometry is saved, in
/// milliseconds.
pub const WINDOW_SAVE_DEBOUNCE_MS: u64 = 250;

/// How long a session reset stays armed, in milliseconds.
pub const RESET_CONFIRM_WINDOW_MS: u64 = 4_000;

/// How many characters a bubble shows.
pub const BUBBLE_MAX: usize = 80;

/// A tab of the window.
#[derive(Debug, Clone, Copy, PartialEq, Eq, Structural)]
pub enum NavItem {
    Overview,
    Chat,
    Agents,
    Sessions,
    Logs,
    Settings,
}

impl DeepView for NavItem {
    type V = NavItem;

    open spec fn deep_view(&self) -> NavItem {
        *self
    }
}

/// The time at which a message is taken in.
#[derive(Debug, Clone, Copy, PartialEq, Eq, Structural)]
pub struct Clock {
    /// Milliseconds on a clock that never goes back.
    pub now_ms: u64,
    /// Whole seconds since the Unix epoch.
    pub wall_secs: i64,
}

/// What the process was launched with.
#[derive(Debug, PartialEq)]
pub struct LaunchEnv {
    /// The scripted stream stands in for the gateway.
    pub demo: bool,
    /// The gateway URL from the environment.
    pub gateway_url: Option<String>,
}

/// What [`LaunchEnv`] holds, as mathematical values.
#[verifier::ext_equal]
pub struct LaunchEnvView {
    pub demo: bool,
    pub gateway_url: Option<Seq<char>>,
}

impl DeepView for LaunchEnv {
    type V = LaunchEnvView;

    open spec fn deep_view(&self) -> LaunchEnvView {
        LaunchEnvView {
            demo: self.demo.deep_view(),
            gateway_url: self.gateway_url.deep_view(),
        }
    }
}

impl Clone for LaunchEnv {
    fn clone(&self) -> (r: LaunchEnv)
        ensures
            r.deep_view() == self.deep_view(),
    {
        LaunchEnv {
            demo: self.demo,
            gateway_url: self.gateway_url.clone(),
        }
    }
}

/// The outcome of the latest connect attempt.
#[derive(Debug, PartialEq)]
pub enum ConnectionStatus {
    /// No attempt yet.
    Untested,
    Connecting,
    /// Handshake succeeded and events are flowing.
    Connected,
    /// The attempt failed, for this reason.
    Failed(String),
}

/// What [`ConnectionStatus`] holds, as mathematical values.
#[verifier::ext_equal]
pub enum ConnectionStatusView {
    Untested,
    Connecting,
    Connected,
    Failed(Seq<char>),
}

impl DeepView for ConnectionStatus {
    type V = ConnectionStatusView;

    open spec fn deep_view(&self) -> ConnectionStatusView {
        match *self {
            ConnectionStatus::Untested => ConnectionStatusView::Untested,
            ConnectionStatus::Connecting => ConnectionStatusView::Connecting,
            ConnectionStatus::Connected => ConnectionStatusView::Connected,
            ConnectionStatus::Failed(a0) => ConnectionStatusView::Failed(a0.deep_view()),
        }
    }
}

impl Clone for ConnectionStatus {
    fn clone(&self) -> (r: ConnectionStatus)
        ensures
            r.deep_view() == self.deep_view(),
    {
        match self {
            ConnectionStatus::Untested => ConnectionStatus::Untested,
            ConnectionStatus::Connecting => ConnectionStatus::Connecting,
            ConnectionStatus::Connected => ConnectionStatus::Connected,
            ConnectionStatus::Failed(a0) => ConnectionStatus::Failed(a0.clone()),
        }
    }
}

/// What an agent is doing for the operator.
#[derive(Debug, PartialEq)]
pub enum ChatActivity {
    /// The prompt is sent and nothing has come back yet.
    Sending,
    Thinking,
    /// The agent runs a tool.
    Tool(String),
}

/// What [`ChatActivity`] holds, as mathematical values.
#[verifier::ext_equal]
pub enum ChatActivityView {
    Sending,
    Thinking,
    Tool(Seq<char>),
}

impl DeepView for ChatActivity {
    type V = ChatActivityView;

    open spec fn deep_view(&self) -> ChatActivityView {
        match *self {
            ChatActivity::Sending => ChatActivityView::Sending,
            ChatActivity::Thinking => ChatActivityView::Thinking,
            ChatActivity::Tool(a0) => ChatActivityView::Tool(a0.deep_view()),
        }
    }
}

impl Clone for ChatActivity {
    fn clone(&self) -> (r: ChatActivity)
        ensures
            r.deep_view() == self.deep_view(),
    {
        match self {
            ChatActivity::Sending => ChatActivity::Sending,
            ChatActivity::Thinking => ChatActivity::Thinking,
            ChatActivity::Tool(a0) => ChatActivity::Tool(a0.clone()),
        }
    }
}

/// What an agent is doing, and since when.
#[derive(Debug, PartialEq)]
pub struct ChatActivityState {
    pub kind: ChatActivity,
    pub since: u64,
}

/// What [`ChatActivityState`] holds, as mathematical values.
#[verifier::ext_equal]
pub struct ChatActivityStateView {
    pub kind: ChatActivityView,
    pub since: u64,
}

impl DeepView for ChatActivityState {
    type V = ChatActivityStateView;

    open spec fn deep_view(&self) -> ChatActivityStateView {
        ChatActivityStateView {
            kind: self.kind.deep_view(),
            since: self.since.deep_view(),
        }
    }
}

impl Clone for ChatActivityState {
    fn clone(&self) -> (r: ChatActivityState)
        ensures
            r.deep_view() == self.deep_view(),
    {
        ChatActivityState {
            kind: self.kind.clone(),
            since: self.since,
        }
    }
}

/// The form of the Settings tab. The token field is write-only: it is never
/// filled from storage.
#[derive(Debug, PartialEq)]
pub struct SettingsForm {
    pub gateway_url: String,
    /// `"auto"`, `"ws"`, or `"mock"`.
    pub mode: &'static str,
    pub token: String,
}

/// What [`SettingsForm`] holds, as mathematical values.
#[verifier::ext_equal]
pub struct SettingsFormView {
    pub gateway_url: Seq<char>,
    pub mode: Seq<char>,
    pub token: Seq<char>,
}

impl DeepView for SettingsForm {
    type V = SettingsFormView;

    open spec fn deep_view(&self) -> SettingsFormView {
        SettingsFormView {
            gateway_url: self.gateway_url.deep_view(),
            mode: self.mode.deep_view(),
            token: self.token.deep_view(),
        }
    }
}

/// The mode that a saved one stands for; one that is not known falls back to
/// `auto`.
pub open spec fn known_mode(mode: Option<Seq<char>>) -> Seq<char> {
    match mode {
        Some(m) => if m == "ws"@ {
            "ws"@
        } else if m == "mock"@ {
            "mock"@
        } else {
            "auto"@
        },
        None => "auto"@,
    }
}

/// Maps a saved mode onto the small set that the form offers.
pub fn mode_as_static(mode: &Option<String>) -> (r: &'static str)
    ensures
        r@ == known_mode(mode.deep_view()),
{
    match mode {
        Some(m) => {
            if same(m.as_str(), "ws") {
                "ws"
            } else if same(m.as_str(), "mock") {
                "mock"
            } else {
                "auto"
            }
        },
        None => "auto",
    }
}

/// The form that shows some settings.
pub open spec fn form_of(s: SettingsView) -> SettingsFormView {
    SettingsFormView {
        gateway_url: match s.gateway_url {
            Some(u) => u,
            None => Seq::empty(),
        },
        mode: known_mode(s.mode),
        token: Seq::empty(),
    }
}

impl SettingsForm {
    pub fn from_settings(settings: &Settings) -> (r: SettingsForm)
        ensures
            r.deep_view() == form_of(settings.deep_view()),
    {
        SettingsForm {
            gateway_url: match &settings.gateway_url {
                Some(u) => u.clone(),
                None => String::new(),
            },
            mode: mode_as_static(&settings.mode),
            token: String::new(),
        }
    }
}

/// A message to the application.
#[derive(Debug, PartialEq)]
pub enum Message {
    NavClicked(NavItem),
    Ws(WsEvent),
    Tick,
    /// Operator resolved a pending exec approval.
    ResolveApproval { id: String, decision: &'static str },
    CopyToClipboard(String),
    /// Input of a field that cannot be edited.
    InputDiscard(String),
    /// Fire a cron job immediately.
    RunCron(AgentId),
    RequestReconnect,
    ChatInputChanged(String),
    SendChat,
    SelectChatAgent(AgentId),
    LogsToggleSeverity(LogSeverity),
    LogsSearchChanged(String),
    /// The log was scrolled; tells whether it is now at the bottom.
    LogsScrolled(bool),
    LogsJumpToLatest,
    /// First click arms, a second one soon after resets the session.
    ResetMainSession(AgentId),
    ToggleAgentError(AgentId),
    SessionSelected(String),
    PaletteToggle,
    PaletteClose,
    PaletteInputChanged(String),
    /// Move the selection, up for a negative number.
    PaletteMove(i32),
    PaletteExecute,
    PaletteSelectAndExecute(usize),
    WindowResized(String, String),
    WindowMoved(String, String),
    SettingsGatewayUrlChanged(String),
    SettingsModeSelected(&'static str),
    SettingsTokenChanged(String),
    SettingsSave,
    SettingsClearToken,
    /// The typed token has been stored; carries the token that is in force.
    TokenSaved(Option<String>),
}

/// What [`Message`] holds, as mathematical values.
#[verifier::ext_equal]
pub enum MessageView {
    NavClicked(NavItem),
    Ws(WsEventView),
    Tick,
    ResolveApproval { id: Seq<char>, decision: Seq<char> },
    CopyToClipboard(Seq<char>),
    InputDiscard(Seq<char>),
    RunCron(Seq<char>),
    RequestReconnect,
    ChatInputChanged(Seq<char>),
    SendChat,
    SelectChatAgent(Seq<char>),
    LogsToggleSeverity(LogSeverity),
    LogsSearchChanged(Seq<char>),
    LogsScrolled(bool),
    LogsJumpToLatest,
    ResetMainSession(Seq<char>),
    ToggleAgentError(Seq<char>),
    SessionSelected(Seq<char>),
    PaletteToggle,
    PaletteClose,
    PaletteInputChanged(Seq<char>),
    PaletteMove(i32),
    PaletteExecute,
    PaletteSelectAndExecute(usize),
    WindowResized(Seq<char>, Seq<char>),
    WindowMoved(Seq<char>, Seq<char>),
    SettingsGatewayUrlChanged(Seq<char>),
    SettingsModeSelected(Seq<char>),
    SettingsTokenChanged(Seq<char>),
    SettingsSave,
    SettingsClearToken,
    TokenSaved(Option<Seq<char>>),
}

impl DeepView for Message {
    type V = MessageView;

    open spec fn deep_view(&self) -> MessageView {
        match *self {
            Message::NavClicked(a0) => MessageView::NavClicked(a0.deep_view()),
            Message::Ws(a0) => MessageView::Ws(a0.deep_view()),
            Message::Tick => MessageView::Tick,
            Message::ResolveApproval { id, decision } => MessageView::ResolveApproval {
                id: id.deep_view(),
                decision: decision.deep_view(),
            },
            Message::CopyToClipboard(a0) => MessageView::CopyToClipboard(a0.deep_view()),
            Message::InputDiscard(a0) => MessageView::InputDiscard(a0.deep_view()),
            Message::RunCron(a0) => MessageView::RunCron(a0.deep_view()),
            Message::RequestReconnect => MessageView::RequestReconnect,
            Message::ChatInputChanged(a0) => MessageView::ChatInputChanged(a0.deep_view()),
            Message::SendChat => MessageView::SendChat,
            Message::SelectChatAgent(a0) => MessageView::SelectChatAgent(a0.deep_view()),
            Message::LogsToggleSeverity(a0) => MessageView::LogsToggleSeverity(a0.deep_view()),
            Message::LogsSearchChanged(a0) => MessageView::LogsSearchChanged(a0.deep_view()),
            Message::LogsScrolled(a0) => MessageView::LogsScrolled(a0.deep_view()),
            Message::LogsJumpToLatest => MessageView::LogsJumpToLatest,
            Message::ResetMainSession(a0) => MessageView::ResetMainSession(a0.deep_view()),
            Message::ToggleAgentError(a0) => MessageView::ToggleAgentError(a0.deep_view()),
            Message::SessionSelected(a0) => MessageView::SessionSelected(a0.deep_view()),
            Message::PaletteToggle => MessageView::PaletteToggle,
            Message::PaletteClose => MessageView::PaletteClose,
            Message::PaletteInputChanged(a0) => MessageView::PaletteInputChanged(a0.deep_view()),
            Message::PaletteMove(a0) => MessageView::PaletteMove(a0.deep_view()),
            Message::PaletteExecute => MessageView::PaletteExecute,
            Message::PaletteSelectAndExecute(a0) => MessageView::PaletteSelectAndExecute(a0.deep_view()),
            Message::WindowResized(a0, a1) => MessageView::WindowResized(a0.deep_view(), a1.deep_view()),
            Message::WindowMoved(a0, a1) => MessageView::WindowMoved(a0.deep_view(), a1.deep_view()),
            Message::SettingsGatewayUrlChanged(a0) => MessageView::SettingsGatewayUrlChanged(a0.deep_view()),
            Message::SettingsModeSelected(a0) => MessageView::SettingsModeSelected(a0.deep_view()),
            Message::SettingsTokenChanged(a0) => MessageView::SettingsTokenChanged(a0.deep_view()),
            Message::SettingsSave => MessageView::SettingsSave,
            Message::SettingsClearToken => MessageView::SettingsClearToken,
            Message::TokenSaved(a0) => MessageView::TokenSaved(a0.deep_view()),
        }
    }
}

impl Clone for Message {
    fn clone(&self) -> (r: Message)
        ensures
            r.deep_view() == self.deep_view(),
    {
        match self {
            Message::NavClicked(a0) => Message::NavClicked(*a0),
            Message::Ws(a0) => Message::Ws(a0.clone()),
            Message::Tick => Message::Tick,
            Message::ResolveApproval { id, decision } => Message::ResolveApproval { id: id.clone(), decision: *decision },
            Message::CopyToClipboard(a0) => Message::CopyToClipboard(a0.clone()),
            Message::InputDiscard(a0) => Message::InputDiscard(a0.clone()),
            Message::RunCron(a0) => Message::RunCron(a0.clone()),
            Message::RequestReconnect => Message::RequestReconnect,
            Message::ChatInputChanged(a0) => Message::ChatInputChanged(a0.clone()),
            Message::SendChat => Message::SendChat,
            Message::SelectChatAgent(a0) => Message::SelectChatAgent(a0.clone()),
            Message::LogsToggleSeverity(a0) => Message::LogsToggleSeverity(*a0),
            Message::LogsSearchChanged(a0) => Message::LogsSearchChanged(a0.clone()),
            Message::LogsScrolled(a0) => Message::LogsScrolled(*a0),
            Message::LogsJumpToLatest => Message::LogsJumpToLatest,
            Message::ResetMainSession(a0) => Message::ResetMainSession(a0.clone()),
            Message::ToggleAgentError(a0) => Message::ToggleAgentError(a0.clone()),
            Message::SessionSelected(a0) => Message::SessionSelected(a0.clone()),
            Message::PaletteToggle => Message::PaletteToggle,
            Message::PaletteClose => Message::PaletteClose,
            Message::PaletteInputChanged(a0) => Message::PaletteInputChanged(a0.clone()),
            Message::PaletteMove(a0) => Message::PaletteMove(*a0),
            Message::PaletteExecute => Message::PaletteExecute,
            Message::PaletteSelectAndExecute(a0) => Message::PaletteSelectAndExecute(*a0),
            Message::WindowResized(a0, a1) => Message::WindowResized(a0.clone(), a1.clone()),
            Message::WindowMoved(a0, a1) => Message::WindowMoved(a0.clone(), a1.clone()),
            Message::SettingsGatewayUrlChanged(a0) => Message::SettingsGatewayUrlChanged(a0.clone()),
            Message::SettingsModeSelected(a0) => Message::SettingsModeSelected(*a0),
            Message::SettingsTokenChanged(a0) => Message::SettingsTokenChanged(a0.clone()),
            Message::SettingsSave => Message::SettingsSave,
            Message::SettingsClearToken => Message::SettingsClearToken,
            Message::TokenSaved(a0) => Message::TokenSaved(a0.clone()),
        }
    }
}

/// Something for the desktop to carry out.
#[derive(Debug, PartialEq)]
pub enum Effect {
    /// Ask something of the gateway session.
    Send(GatewayCommand),
    /// Write the state file.
    SaveState(UiState),
    /// Store the token, then report with `Message::TokenSaved` if it took.
    StoreToken(String),
    /// Purge the token from every store.
    PurgeToken,
    Notify(Notification),
    Copy(String),
    FocusPalette,
    SnapLogsToEnd,
    /// Redraw the office scene.
    RedrawScene,
    /// Redraw the usage chart of the open session.
    RedrawUsage,
    /// Redraw the small usage chart of one session.
    RedrawUsageRow(String),
}

/// What [`Effect`] holds, as mathematical values.
#[verifier::ext_equal]
pub enum EffectView {
    Send(GatewayCommandView),
    SaveState(UiStateView),
    StoreToken(Seq<char>),
    PurgeToken,
    Notify(NotificationView),
    Copy(Seq<char>),
    FocusPalette,
    SnapLogsToEnd,
    RedrawScene,
    RedrawUsage,
    RedrawUsageRow(Seq<char>),
}

impl DeepView for Effect {
    type V = EffectView;

    open spec fn deep_view(&self) -> EffectView {
        match *self {
            Effect::Send(a0) => EffectView::Send(a0.deep_view()),
            Effect::SaveState(a0) => EffectView::SaveState(a0.deep_view()),
            Effect::StoreToken(a0) => EffectView::StoreToken(a0.deep_view()),
            Effect::PurgeToken => EffectView::PurgeToken,
            Effect::Notify(a0) => EffectView::Notify(a0.deep_view()),
            Effect::Copy(a0) => EffectView::Copy(a0.deep_view()),
            Effect::FocusPalette => EffectView::FocusPalette,
            Effect::SnapLogsToEnd => EffectView::SnapLogsToEnd,
            Effect::RedrawScene => EffectView::RedrawScene,
            Effect::RedrawUsage => EffectView::RedrawUsage,
            Effect::RedrawUsageRow(a0) => EffectView::RedrawUsageRow(a0.deep_view()),
        }
    }
}

/// The state of the application. Times are in milliseconds.
pub struct App {
    pub nav: NavItem,
    pub roster: Vec<Agent>,
    pub statuses: StrMap<AgentStatus>,
    pub bubbles: Vec<ThoughtBubble>,
    pub active_model: Option<String>,
    /// When something was last heard of the gateway.
    pub last_poll: Option<u64>,
    pub connected: bool,
    pub last_disconnect: Option<String>,
    /// Pending exec approvals by their id.
    pub pending_approvals: StrMap<ApprovalEventPayload>,
    /// Sessions by their key.
    pub sessions: StrMap<SessionInfo>,
    pub gateway_update: Option<GatewayUpdate>,
    pub pending_pair_request: Option<PairRequest>,
    pub cron_details: StrMap<CronState>,
    /// UUIDs of crons by their name.
    pub cron_ids: StrMap<String>,
    pub channel_details: StrMap<Channel>,
    pub log_lines: Ring<LogLine>,
    pub log_filters: LogFilters,
    /// Whether new log lines scroll into view.
    pub logs_auto_tail: bool,
    /// When each agent last changed its status.
    pub transition_moments: StrMap<u64>,
    pub chat_input: String,
    /// Transcripts by agent.
    pub chat_logs: StrMap<Ring<ChatMessage>>,
    pub chat_agents: Vec<AgentInfo>,
    pub selected_chat_agent: AgentId,
    /// Agents whose history has been asked for on this connection.
    pub history_fetched: StrSet,
    pub chat_activities: StrMap<ChatActivityState>,
    /// Agents armed for a session reset, with the time of the first click.
    pub pending_resets: StrMap<u64>,
    pub expanded_errors: StrSet,
    /// Transcripts by session key.
    pub session_transcripts: StrMap<Ring<ChatMessage>>,
    /// Sessions whose history has been asked for on this connection.
    pub session_history_fetched: StrSet,
    pub active_session_key: Option<String>,
    /// Unread replies by agent.
    pub unread: StrMap<usize>,
    pub notifier: Notifier,
    pub palette_open: bool,
    pub palette_input: String,
    pub palette_selected: usize,
    /// Token usage by session key; an empty series means that there is none.
    pub session_usage: StrMap<Vec<SessionUsagePoint>>,
    pub pending_window: Option<WindowState>,
    pub pending_window_since: Option<u64>,
    pub settings: Settings,
    pub settings_form: SettingsForm,
    pub token_present: bool,
    /// The token in force.
    pub cached_token: Option<String>,
    pub connection_status: ConnectionStatus,
    /// Grows with every save.
    pub save_nonce: u64,
    pub launch: LaunchEnv,
}

/// What [`App`] holds, as mathematical values.
pub struct AppView {
    pub nav: NavItem,
    pub roster: Seq<AgentView>,
    pub statuses: Seq<(Seq<char>, AgentStatus)>,
    pub bubbles: Seq<ThoughtBubbleView>,
    pub active_model: Option<Seq<char>>,
    pub last_poll: Option<u64>,
    pub connected: bool,
    pub last_disconnect: Option<Seq<char>>,
    pub pending_approvals: Seq<(Seq<char>, ApprovalEventPayloadView)>,
    pub sessions: Seq<(Seq<char>, SessionInfoView)>,
    pub gateway_update: Option<GatewayUpdateView>,
    pub pending_pair_request: Option<PairRequestView>,
    pub cron_details: Seq<(Seq<char>, CronStateView)>,
    pub cron_ids: Seq<(Seq<char>, Seq<char>)>,
    pub channel_details: Seq<(Seq<char>, ChannelView)>,
    pub log_lines: Seq<LogLineView>,
    pub log_filters: LogFiltersView,
    pub logs_auto_tail: bool,
    pub transition_moments: Seq<(Seq<char>, u64)>,
    pub chat_input: Seq<char>,
    pub chat_logs: Seq<(Seq<char>, Seq<ChatMessageView>)>,
    pub chat_agents: Seq<AgentInfoView>,
    pub selected_chat_agent: Seq<char>,
    pub history_fetched: Seq<Seq<char>>,
    pub chat_activities: Seq<(Seq<char>, ChatActivityStateView)>,
    pub pending_resets: Seq<(Seq<char>, u64)>,
    pub expanded_errors: Seq<Seq<char>>,
    pub session_transcripts: Seq<(Seq<char>, Seq<ChatMessageView>)>,
    pub session_history_fetched: Seq<Seq<char>>,
    pub active_session_key: Option<Seq<char>>,
    pub unread: Seq<(Seq<char>, usize)>,
    pub notifier: NotifierView,
    pub palette_open: bool,
    pub palette_input: Seq<char>,
    pub palette_selected: usize,
    pub session_usage: Seq<(Seq<char>, Seq<SessionUsagePointView>)>,
    pub pending_window: Option<WindowStateView>,
    pub pending_window_since: Option<u64>,
    pub settings: SettingsView,
    pub settings_form: SettingsFormView,
    pub token_present: bool,
    pub cached_token: Option<Seq<char>>,
    pub connection_status: ConnectionStatusView,
    pub save_nonce: u64,
    pub launch: LaunchEnvView,
}

impl DeepView for App {
    type V = AppView;

    open spec fn deep_view(&self) -> AppView {
        self.model()
    }
}

impl App {
    /// What the application holds, as mathematical values.
    #[verifier::opaque]
    pub open spec fn model(&self) -> AppView {
        AppView {
            nav: self.nav.deep_view(),
            roster: self.roster.deep_view(),
            statuses: self.statuses.deep_view(),
            bubbles: self.bubbles.deep_view(),
            active_model: self.active_model.deep_view(),
            last_poll: self.last_poll.deep_view(),
            connected: self.connected.deep_view(),
            last_disconnect: self.last_disconnect.deep_view(),
            pending_approvals: self.pending_approvals.deep_view(),
            sessions: self.sessions.deep_view(),
            gateway_update: self.gateway_update.deep_view(),
            pending_pair_request: self.pending_pair_request.deep_view(),
            cron_details: self.cron_details.deep_view(),
            cron_ids: self.cron_ids.deep_view(),
            channel_details: self.channel_details.deep_view(),
            log_lines: self.log_lines.deep_view(),
            log_filters: self.log_filters.deep_view(),
            logs_auto_tail: self.logs_auto_tail.deep_view(),
            transition_moments: self.transition_moments.deep_view(),
            chat_input: self.chat_input.deep_view(),
            chat_logs: self.chat_logs.deep_view(),
            chat_agents: self.chat_agents.deep_view(),
            selected_chat_agent: self.selected_chat_agent.deep_view(),
            history_fetched: self.history_fetched.deep_view(),
            chat_activities: self.chat_activities.deep_view(),
            pending_resets: self.pending_resets.deep_view(),
            expanded_errors: self.expanded_errors.deep_view(),
            session_transcripts: self.session_transcripts.deep_view(),
            session_history_fetched: self.session_history_fetched.deep_view(),
            active_session_key: self.active_session_key.deep_view(),
            unread: self.unread.deep_view(),
            notifier: self.notifier.deep_view(),
            palette_open: self.palette_open.deep_view(),
            palette_input: self.palette_input.deep_view(),
            palette_selected: self.palette_selected.deep_view(),
            session_usage: self.session_usage.deep_view(),
            pending_window: self.pending_window.deep_view(),
            pending_window_since: self.pending_window_since.deep_view(),
            settings: self.settings.deep_view(),
            settings_form: self.settings_form.deep_view(),
            token_present: self.token_present.deep_view(),
            cached_token: self.cached_token.deep_view(),
            connection_status: self.connection_status.deep_view(),
            save_nonce: self.save_nonce.deep_view(),
            launch: self.launch.deep_view(),
        }
    }
}

} // verus!
