//! Operational state of one roster entry.
use vstd::prelude::*;

verus! {

/// Operational state of a single agent (cron job, main agent, or channel).
#[derive(Debug, Clone, Copy, PartialEq, Eq, Hash, Structural)]
pub enum AgentStatus {
    /// Doing work right now.
    Running,
    /// Idle, healthy, last run was OK.
    Healthy,
    /// Last run ended in error; not currently running.
    Error,
    /// Not yet observed / unknown state.
    Unknown,
    /// Deliberately disabled (e.g. WhatsApp channel turned off).
    Disabled,
}

impl DeepView for AgentStatus {
    type V = AgentStatus;

    open spec fn deep_view(&self) -> AgentStatus {
        *self
    }
}

} // verus!
