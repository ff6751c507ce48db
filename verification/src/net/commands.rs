//! What the UI asks of the gateway session.
use vstd::prelude::*;

verus! {

/// A request from the UI to the gateway session.
#[derive(Debug, PartialEq)]
pub enum GatewayCommand {
    /// Resolve an exec approval with a decision the gateway accepts
    /// (`"allow-once" | "allow-always" | "deny"`).
    ResolveApproval { id: String, decision: String },
    /// Fire a cron job immediately. `job_id` is the stable UUID.
    RunCron { job_id: String },
    /// Operator-requested reconnect: stop sleeping, try connecting now.
    Reconnect,
    /// Send a prompt to an agent's main chat session.
    SendChat { agent_id: String, message: String, idempotency_key: String },
    /// Fetch an agent's recent history on first selection per connection.
    FetchChatHistory { agent_id: String },
    /// Fill in an agent's operator-chosen persona.
    FetchAgentIdentity { agent_id: String },
    /// Reset the session under the fully-qualified key.
    ResetSession { session_key: String },
    /// Fetch the history of an arbitrary session.
    FetchSessionHistory { session_key: String },
    /// Fetch the token-usage time series of a session.
    FetchSessionUsage { session_key: String },
}

/// What [`GatewayCommand`] holds, as mathematical values.
#[verifier::ext_equal]
pub enum GatewayCommandView {
    ResolveApproval { id: Seq<char>, decision: Seq<char> },
    RunCron { job_id: Seq<char> },
    Reconnect,
    SendChat { agent_id: Seq<char>, message: Seq<char>, idempotency_key: Seq<char> },
    FetchChatHistory { agent_id: Seq<char> },
    FetchAgentIdentity { agent_id: Seq<char> },
    ResetSession { session_key: Seq<char> },
    FetchSessionHistory { session_key: Seq<char> },
    FetchSessionUsage { session_key: Seq<char> },
}

impl DeepView for GatewayCommand {
    type V = GatewayCommandView;

    open spec fn deep_view(&self) -> GatewayCommandView {
        match *self {
            GatewayCommand::ResolveApproval { id, decision } => GatewayCommandView::ResolveApproval {
                id: id.deep_view(),
                decision: decision.deep_view(),
            },
            GatewayCommand::RunCron { job_id } => GatewayCommandView::RunCron {
                job_id: job_id.deep_view(),
            },
            GatewayCommand::Reconnect => GatewayCommandView::Reconnect,
            GatewayCommand::SendChat { agent_id, message, idempotency_key } => GatewayCommandView::SendChat {
                agent_id: agent_id.deep_view(),
                message: message.deep_view(),
                idempotency_key: idempotency_key.deep_view(),
            },
            GatewayCommand::FetchChatHistory { agent_id } => GatewayCommandView::FetchChatHistory {
                agent_id: agent_id.deep_view(),
            },
            GatewayCommand::FetchAgentIdentity { agent_id } => GatewayCommandView::FetchAgentIdentity {
                agent_id: agent_id.deep_view(),
            },
            GatewayCommand::ResetSession { session_key } => GatewayCommandView::ResetSession {
                session_key: session_key.deep_view(),
            },
            GatewayCommand::FetchSessionHistory { session_key } => GatewayCommandView::FetchSessionHistory {
                session_key: session_key.deep_view(),
            },
            GatewayCommand::FetchSessionUsage { session_key } => GatewayCommandView::FetchSessionUsage {
                session_key: session_key.deep_view(),
            },
        }
    }
}

impl Clone for GatewayCommand {
    fn clone(&self) -> (r: GatewayCommand)
        ensures
            r.deep_view() == self.deep_view(),
    {
        match self {
            GatewayCommand::ResolveApproval { id, decision } => GatewayCommand::ResolveApproval { id: id.clone(), decision: decision.clone() },
            GatewayCommand::RunCron { job_id } => GatewayCommand::RunCron { job_id: job_id.clone() },
            GatewayCommand::Reconnect => GatewayCommand::Reconnect,
            GatewayCommand::SendChat { agent_id, message, idempotency_key } => GatewayCommand::SendChat { agent_id: agent_id.clone(), message: message.clone(), idempotency_key: idempotency_key.clone() },
            GatewayCommand::FetchChatHistory { agent_id } => GatewayCommand::FetchChatHistory { agent_id: agent_id.clone() },
            GatewayCommand::FetchAgentIdentity { agent_id } => GatewayCommand::FetchAgentIdentity { agent_id: agent_id.clone() },
            GatewayCommand::ResetSession { session_key } => GatewayCommand::ResetSession { session_key: session_key.clone() },
            GatewayCommand::FetchSessionHistory { session_key } => GatewayCommand::FetchSessionHistory { session_key: session_key.clone() },
            GatewayCommand::FetchSessionUsage { session_key } => GatewayCommand::FetchSessionUsage { session_key: session_key.clone() },
        }
    }
}

} // verus!
