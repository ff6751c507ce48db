//! Shared pieces of the views.
use vstd::prelude::*;

use crate::domain::agent::Tint;
use crate::domain::status::AgentStatus;

verus! {

/// The text and tint of a status.
pub open spec fn status_word(status: AgentStatus) -> (Seq<char>, Tint) {
    match status {
        AgentStatus::Running => ("RUNNING"@, Tint::TerminalGreen),
        AgentStatus::Healthy => ("OK"@, Tint::StatusUp),
        AgentStatus::Error => ("ERROR"@, Tint::StatusDown),
        AgentStatus::Disabled => ("OFF"@, Tint::Muted),
        AgentStatus::Unknown => ("?"@, Tint::StatusUnknown),
    }
}

/// The text of the status pill, and its tint.
pub fn status_label(status: AgentStatus) -> (r: (&'static str, Tint))
    ensures
        (r.0@, r.1) == status_word(status),
{
    match status {
        AgentStatus::Running => ("RUNNING", Tint::TerminalGreen),
        AgentStatus::Healthy => ("OK", Tint::StatusUp),
        AgentStatus::Error => ("ERROR", Tint::StatusDown),
        AgentStatus::Disabled => ("OFF", Tint::Muted),
        AgentStatus::Unknown => ("?", Tint::StatusUnknown),
    }
}

} // verus!
