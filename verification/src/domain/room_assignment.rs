//! Pure mapping from an agent and its status to the room its sprite occupies.
//!
//! Each agent has a home room where it lives when idle, and a work room it
//! moves to while running. Errors get a room of their own.
use vstd::prelude::*;

use crate::domain::agent::{AgentId, AgentKind};
use crate::domain::status::AgentStatus;
use crate::text::same;

verus! {

/// Six rooms arranged in a 3×2 grid (top row first).
#[derive(Debug, Clone, Copy, PartialEq, Eq, Hash, Structural)]
pub enum RoomId {
    /// Top left.
    Observatory,
    /// Top center.
    CommandHq,
    /// Top right.
    Security,
    /// Bottom left.
    ResearchLab,
    /// Bottom center.
    MemoryVault,
    /// Bottom right.
    Studio,
}

impl RoomId {
    /// The text drawn in the room.
    pub open spec fn name(self) -> Seq<char> {
        match self {
            RoomId::Observatory => "Observatory"@,
            RoomId::CommandHq => "Command HQ"@,
            RoomId::Security => "Security"@,
            RoomId::ResearchLab => "Research Lab"@,
            RoomId::MemoryVault => "Memory Vault"@,
            RoomId::Studio => "Studio"@,
        }
    }

    /// The room at a column and row of the grid.
    pub open spec fn at(col: u8, row: u8) -> RoomId {
        if row == 0 {
            if col == 0 {
                RoomId::Observatory
            } else if col == 1 {
                RoomId::CommandHq
            } else {
                RoomId::Security
            }
        } else {
            if col == 0 {
                RoomId::ResearchLab
            } else if col == 1 {
                RoomId::MemoryVault
            } else {
                RoomId::Studio
            }
        }
    }

    pub fn label(self) -> (r: &'static str)
        ensures
            r@ == self.name(),
    {
        match self {
            RoomId::Observatory => "Observatory",
            RoomId::CommandHq => "Command HQ",
            RoomId::Security => "Security",
            RoomId::ResearchLab => "Research Lab",
            RoomId::MemoryVault => "Memory Vault",
            RoomId::Studio => "Studio",
        }
    }

    /// Grid column, from the left.
    pub fn col(self) -> (r: u8)
        ensures
            r <= 2,
            exists|row: u8| row <= 1 && self == #[trigger] RoomId::at(r, row),
    {
        let r: u8 = match self {
            RoomId::Observatory | RoomId::ResearchLab => 0,
            RoomId::CommandHq | RoomId::MemoryVault => 1,
            RoomId::Security | RoomId::Studio => 2,
        };
        assert(self == RoomId::at(r, 0) || self == RoomId::at(r, 1));
        r
    }

    /// Grid row, from the top.
    pub fn row(self) -> (r: u8)
        ensures
            r <= 1,
            exists|col: u8| col <= 2 && self == #[trigger] RoomId::at(col, r),
    {
        let r: u8 = match self {
            RoomId::Observatory | RoomId::CommandHq | RoomId::Security => 0,
            RoomId::ResearchLab | RoomId::MemoryVault | RoomId::Studio => 1,
        };
        assert(self == RoomId::at(0, r) || self == RoomId::at(1, r) || self == RoomId::at(2, r));
        r
    }
}

/// Each cell of the grid holds one room, and no room stands in two cells.
pub proof fn grid_is_a_bijection(a: u8, b: u8, c: u8, d: u8)
    requires
        a <= 2,
        b <= 1,
        c <= 2,
        d <= 1,
    ensures
        RoomId::at(a, b) == RoomId::at(c, d) <==> a == c && b == d,
{
}

/// The room for an agent, by its id, kind and status.
pub open spec fn assigned_room(id: Seq<char>, kind: AgentKind, status: AgentStatus) -> RoomId {
    if status == AgentStatus::Error {
        RoomId::Security
    } else {
        match kind {
            AgentKind::Main => RoomId::CommandHq,
            AgentKind::Cron => if status == AgentStatus::Running {
                RoomId::CommandHq
            } else if id == "zpool-health-check"@ {
                RoomId::Observatory
            } else if id == "openclaw-auto-update"@ {
                RoomId::ResearchLab
            } else if id == "example-data-sync-hourly"@ {
                RoomId::MemoryVault
            } else if id == "example-weekly-digest"@ {
                RoomId::Studio
            } else {
                RoomId::ResearchLab
            },
            AgentKind::Channel => if status == AgentStatus::Disabled {
                RoomId::MemoryVault
            } else {
                RoomId::Studio
            },
        }
    }
}

/// Computes the room assignment for an agent in a given status.
///
/// - Any agent in `Error` heads to Security.
/// - Running cron jobs go to Command HQ; idle ones to their themed home room.
/// - The main agent lives in Command HQ always.
/// - Channels live in Studio, in Memory Vault when disabled.
pub fn room_for(id: &AgentId, kind: AgentKind, status: AgentStatus) -> (r: RoomId)
    ensures
        r == assigned_room(id.deep_view(), kind, status),
{
    if status == AgentStatus::Error {
        return RoomId::Security;
    }
    match kind {
        AgentKind::Main => RoomId::CommandHq,
        AgentKind::Cron => {
            if status == AgentStatus::Running {
                RoomId::CommandHq
            } else if same(id.as_str(), "zpool-health-check") {
                RoomId::Observatory
            } else if same(id.as_str(), "openclaw-auto-update") {
                RoomId::ResearchLab
            } else if same(id.as_str(), "example-data-sync-hourly") {
                RoomId::MemoryVault
            } else if same(id.as_str(), "example-weekly-digest") {
                RoomId::Studio
            } else {
                RoomId::ResearchLab
            }
        },
        AgentKind::Channel => if status == AgentStatus::Disabled {
            RoomId::MemoryVault
        } else {
            RoomId::Studio
        },
    }
}

/// Security holds the entries in error and no others.
pub proof fn security_is_for_errors(id: Seq<char>, kind: AgentKind, status: AgentStatus)
    ensures
        assigned_room(id, kind, status) == RoomId::Security <==> status == AgentStatus::Error,
{
}

} // verus!
