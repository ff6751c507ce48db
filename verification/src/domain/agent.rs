//! Chat-capable agents and the other roster entries that share their shape.
//!
//! Only the `main` agent is seeded at startup; the rest of the roster is
//! populated from the gateway's `agents.list`, cron and channel snapshots.
use vstd::prelude::*;
use vstd::utf8::encode_utf8;

use crate::domain::job::{shorten_for_display, shortened};
use crate::text::same;

verus! {

/// Stable identifier used to key per-agent state across updates.
#[derive(Debug, PartialEq, Eq, Hash)]
pub struct AgentId(pub String);

impl DeepView for AgentId {
    type V = Seq<char>;

    open spec fn deep_view(&self) -> Seq<char> {
        self.0@
    }
}

impl Clone for AgentId {
    fn clone(&self) -> (r: AgentId)
        ensures
            r.deep_view() == self.deep_view(),
    {
        AgentId(self.0.clone())
    }
}

impl AgentId {
    pub fn new(s: &str) -> (r: AgentId)
        ensures
            r.deep_view() == s@,
    {
        AgentId(s.to_owned())
    }

    pub fn as_str(&self) -> (r: &str)
        ensures
            r@ == self.deep_view(),
    {
        self.0.as_str()
    }
}

/// What kind of roster entry this is.
#[derive(Debug, Clone, Copy, PartialEq, Eq, Hash, Structural)]
pub enum AgentKind {
    /// A chat-capable agent.
    Main,
    /// A scheduled cron job.
    Cron,
    /// A messaging channel provider.
    Channel,
}

impl DeepView for AgentKind {
    type V = AgentKind;

    open spec fn deep_view(&self) -> AgentKind {
        *self
    }
}

/// The theme color an entry is drawn in.
#[derive(Debug, Clone, Copy, PartialEq, Eq, Hash, Structural)]
pub enum Tint {
    TerminalGreen,
    StatusUp,
    StatusDegraded,
    StatusDown,
    StatusUnknown,
    Foreground,
    Muted,
}

impl DeepView for Tint {
    type V = Tint;

    open spec fn deep_view(&self) -> Tint {
        *self
    }
}

/// One roster entry.
#[derive(Debug)]
pub struct Agent {
    pub id: AgentId,
    /// Short label displayed under the sprite.
    pub display: String,
    pub kind: AgentKind,
}

/// What [`Agent`] holds, as mathematical values.
#[verifier::ext_equal]
pub struct AgentView {
    pub id: Seq<char>,
    pub display: Seq<char>,
    pub kind: AgentKind,
}

impl DeepView for Agent {
    type V = AgentView;

    open spec fn deep_view(&self) -> AgentView {
        AgentView {
            id: self.id.deep_view(),
            display: self.display.deep_view(),
            kind: self.kind.deep_view(),
        }
    }
}

impl Clone for Agent {
    fn clone(&self) -> (r: Agent)
        ensures
            r.deep_view() == self.deep_view(),
    {
        Agent {
            id: self.id.clone(),
            display: self.display.clone(),
            kind: self.kind,
        }
    }
}

/// The value of the byte hash `h * 33 + b`, started at 5381 and kept in 64 bits.
pub open spec fn byte_hash(bytes: Seq<u8>) -> u64
    decreases bytes.len(),
{
    if bytes.len() == 0 {
        5381
    } else {
        ((byte_hash(bytes.drop_last()) * 33 + bytes.last()) % 0x1_0000_0000_0000_0000) as u64
    }
}

/// Hashes the UTF-8 bytes of `id`.
pub fn hash_bytes(id: &str) -> (r: u64)
    ensures
        r == byte_hash(encode_utf8(id@)),
{
    let bytes = id.as_bytes();
    let mut h: u64 = 5381;
    let mut i: usize = 0;
    assert(bytes@.take(0).len() == 0);
    while i < bytes.len()
        invariant
            bytes@ == encode_utf8(id@),
            i <= bytes@.len(),
            h == byte_hash(bytes@.take(i as int)),
        decreases bytes@.len() - i,
    {
        let b: u64 = bytes[i] as u64;
        let ghost before = h;
        h = h.wrapping_mul(33).wrapping_add(b);
        proof {
            let m: int = 0x1_0000_0000_0000_0000;
            assert(bytes@.take(i + 1).drop_last() =~= bytes@.take(i as int));
            assert(((before * 33) % m + b) % m == (before * 33 + b) % m) by (nonlinear_arith)
                requires
                    m == 0x1_0000_0000_0000_0000,
            ;
        }
        i = i + 1;
    }
    assert(bytes@.take(i as int) =~= bytes@);
    h
}

/// A position below `modulus` (below 1 when it is 0) that depends on `id` alone.
pub fn stable_index(id: &str, modulus: usize) -> (r: usize)
    ensures
        r == (byte_hash(encode_utf8(id@)) as usize) as int % (if modulus == 0 {
            1int
        } else {
            modulus as int
        }),
{
    let h = hash_bytes(id);
    let m: usize = if modulus == 0 {
        1
    } else {
        modulus
    };
    (h as usize) % m
}

/// The four ghost hues, in palette order.
pub open spec fn ghost(i: int) -> Tint {
    if i == 0 {
        Tint::StatusUp
    } else if i == 1 {
        Tint::StatusDegraded
    } else if i == 2 {
        Tint::TerminalGreen
    } else {
        Tint::StatusUnknown
    }
}

/// The ghost hue that `id` always gets.
pub open spec fn ghost_of(bytes: Seq<u8>) -> Tint {
    ghost((byte_hash(bytes) as usize) as int % 4)
}

/// The ghost hue of an id.
pub fn ghost_tint(id: &str) -> (r: Tint)
    ensures
        r == ghost_of(encode_utf8(id@)),
{
    let i = stable_index(id, 4);
    if i == 0 {
        Tint::StatusUp
    } else if i == 1 {
        Tint::StatusDegraded
    } else if i == 2 {
        Tint::TerminalGreen
    } else {
        Tint::StatusUnknown
    }
}

impl AgentView {
    /// The color of an entry.
    pub open spec fn tint(self) -> Tint {
        if self.id == "main"@ {
            Tint::TerminalGreen
        } else {
            ghost_of(encode_utf8(self.id))
        }
    }
}

impl Agent {
    /// A chat-capable agent.
    pub fn new(id: &str, display: &str) -> (r: Agent)
        ensures
            r.deep_view() == (AgentView { id: id@, display: display@, kind: AgentKind::Main }),
    {
        Agent { id: AgentId::new(id), display: display.to_owned(), kind: AgentKind::Main }
    }

    /// A chat-capable agent under its persona's display name.
    pub fn main_with_display(id: &str, display: &str) -> (r: Agent)
        ensures
            r.deep_view() == (AgentView { id: id@, display: display@, kind: AgentKind::Main }),
    {
        Agent::new(id, display)
    }

    /// A cron job, displayed without the boilerplate prefix of its name.
    pub fn cron(id: &str) -> (r: Agent)
        ensures
            r.deep_view() == (AgentView { id: id@, display: shortened(id@), kind: AgentKind::Cron }),
    {
        Agent { id: AgentId::new(id), display: shorten_for_display(id), kind: AgentKind::Cron }
    }

    /// A channel provider.
    pub fn channel(id: &str) -> (r: Agent)
        ensures
            r.deep_view() == (AgentView { id: id@, display: id@, kind: AgentKind::Channel }),
    {
        Agent { id: AgentId::new(id), display: id.to_owned(), kind: AgentKind::Channel }
    }

    /// Main gets the signature green; every other entry a ghost hue keyed by
    /// its id, so that personas stay visually stable across runs.
    pub fn color(&self) -> (r: Tint)
        ensures
            r == self.deep_view().tint(),
    {
        if same(self.id.as_str(), "main") {
            Tint::TerminalGreen
        } else {
            ghost_tint(self.id.as_str())
        }
    }
}

/// Seed roster: just `main`. More agents arrive once the gateway connects.
pub fn seed_roster() -> (r: Vec<Agent>)
    ensures
        r.deep_view() == seq![AgentView {
            id: "main"@,
            display: "main"@,
            kind: AgentKind::Main,
        }],
{
    let mut r: Vec<Agent> = Vec::new();
    r.push(Agent::new("main", "main"));
    assert(r.deep_view() =~= seq![AgentView {
        id: "main"@,
        display: "main"@,
        kind: AgentKind::Main,
    }]);
    r
}

} // verus!
