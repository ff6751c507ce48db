//! Thought bubbles above the sprites. A bubble lives for [`TTL_MS`] and fades
//! out in the last half-second.
use vstd::prelude::*;

use crate::domain::agent::AgentId;
use crate::domain::status::AgentStatus;
use crate::scene::flourish::{elapsed, since};

verus! {

/// How long a bubble lives, in milliseconds.
pub const TTL_MS: u64 = 2000;

/// When a bubble starts to fade, in milliseconds.
pub const FADE_START_MS: u64 = 1500;

/// How long the fade takes, in milliseconds. A bubble that does not fade yet
/// has an alpha of this many parts.
pub const FADE_SPAN_MS: u64 = 500;

/// What a bubble carries, which drives its styling.
#[derive(Debug, Clone, Copy, PartialEq, Eq, Structural)]
pub enum BubbleKind {
    /// A status transition.
    Work,
    /// What an agent said.
    Message,
    /// What the operator said to an agent.
    Outgoing,
    /// A tool call.
    Tool,
}

impl DeepView for BubbleKind {
    type V = BubbleKind;

    open spec fn deep_view(&self) -> BubbleKind {
        *self
    }
}

/// A bubble above an agent's sprite. Times are in milliseconds.
#[derive(Debug, PartialEq)]
pub struct ThoughtBubble {
    pub agent: AgentId,
    pub text: String,
    pub born: u64,
    pub kind: BubbleKind,
}

/// What [`ThoughtBubble`] holds, as mathematical values.
#[verifier::ext_equal]
pub struct ThoughtBubbleView {
    pub agent: Seq<char>,
    pub text: Seq<char>,
    pub born: u64,
    pub kind: BubbleKind,
}

impl DeepView for ThoughtBubble {
    type V = ThoughtBubbleView;

    open spec fn deep_view(&self) -> ThoughtBubbleView {
        ThoughtBubbleView {
            agent: self.agent.deep_view(),
            text: self.text.deep_view(),
            born: self.born.deep_view(),
            kind: self.kind.deep_view(),
        }
    }
}

impl Clone for ThoughtBubble {
    fn clone(&self) -> (r: ThoughtBubble)
        ensures
            r.deep_view() == self.deep_view(),
    {
        ThoughtBubble {
            agent: self.agent.clone(),
            text: self.text.clone(),
            born: self.born,
            kind: self.kind,
        }
    }
}

/// A bubble's alpha at `now`, in parts of [`FADE_SPAN_MS`]; `None` once it is
/// gone.
pub open spec fn alpha_at(born: u64, now: u64) -> Option<u64> {
    let age = elapsed(now, born);
    if age >= TTL_MS {
        None
    } else if age < FADE_START_MS {
        Some(FADE_SPAN_MS)
    } else {
        Some((TTL_MS - age) as u64)
    }
}

impl ThoughtBubble {
    /// A bubble for a status transition.
    pub fn new(agent: AgentId, text: &str, now: u64) -> (r: ThoughtBubble)
        ensures
            r.deep_view() == (ThoughtBubbleView {
                agent: agent.deep_view(),
                text: text@,
                born: now,
                kind: BubbleKind::Work,
            }),
    {
        ThoughtBubble { agent, text: text.to_owned(), born: now, kind: BubbleKind::Work }
    }

    /// A bubble for what an agent said.
    pub fn message(agent: AgentId, text: String, now: u64) -> (r: ThoughtBubble)
        ensures
            r.deep_view() == (ThoughtBubbleView {
                agent: agent.deep_view(),
                text: text@,
                born: now,
                kind: BubbleKind::Message,
            }),
    {
        ThoughtBubble { agent, text, born: now, kind: BubbleKind::Message }
    }

    /// A bubble for what the operator said.
    pub fn outgoing(agent: AgentId, text: String, now: u64) -> (r: ThoughtBubble)
        ensures
            r.deep_view() == (ThoughtBubbleView {
                agent: agent.deep_view(),
                text: text@,
                born: now,
                kind: BubbleKind::Outgoing,
            }),
    {
        ThoughtBubble { agent, text, born: now, kind: BubbleKind::Outgoing }
    }

    /// A bubble for a tool call.
    pub fn tool(agent: AgentId, text: String, now: u64) -> (r: ThoughtBubble)
        ensures
            r.deep_view() == (ThoughtBubbleView {
                agent: agent.deep_view(),
                text: text@,
                born: now,
                kind: BubbleKind::Tool,
            }),
    {
        ThoughtBubble { agent, text, born: now, kind: BubbleKind::Tool }
    }

    /// The alpha in parts of [`FADE_SPAN_MS`]; `None` once the bubble is gone.
    pub fn alpha(&self, now: u64) -> (r: Option<u64>)
        ensures
            r == alpha_at(self.born, now),
    {
        let age = since(now, self.born);
        if age >= TTL_MS {
            return None;
        }
        if age < FADE_START_MS {
            return Some(FADE_SPAN_MS);
        }
        Some(TTL_MS - age)
    }

    pub fn expired(&self, now: u64) -> (r: bool)
        ensures
            r == (alpha_at(self.born, now) is None),
            r == (elapsed(now, self.born) >= TTL_MS),
    {
        self.alpha(now).is_none()
    }
}

/// A bubble's alpha is between one part and all of them, never grows, and
/// once the bubble is gone it stays gone.
pub proof fn alpha_fades(born: u64, now: u64, later: u64)
    requires
        now <= later,
    ensures
        alpha_at(born, now) matches Some(a) ==> 0 < a <= FADE_SPAN_MS,
        alpha_at(born, now) is None ==> alpha_at(born, later) is None,
        alpha_at(born, later) matches Some(b) ==> (alpha_at(born, now) matches Some(a) && b <= a),
{
}

/// The short text for going from one status to another; none when nothing
/// changes, and for the changes that are not worth a word.
pub open spec fn transition_words(prev: Option<AgentStatus>, next: AgentStatus) -> Option<
    Seq<char>,
> {
    let p = match prev {
        Some(s) => s,
        None => AgentStatus::Unknown,
    };
    if p == next {
        None
    } else if next == AgentStatus::Error {
        Some("anomaly!"@)
    } else if p == AgentStatus::Error && next == AgentStatus::Healthy {
        Some("recovered"@)
    } else if next == AgentStatus::Running {
        Some("...working..."@)
    } else if p == AgentStatus::Running && next == AgentStatus::Healthy {
        Some("eureka!"@)
    } else if p == AgentStatus::Unknown && next == AgentStatus::Healthy {
        Some("online"@)
    } else if next == AgentStatus::Disabled {
        Some("zzz"@)
    } else if p == AgentStatus::Disabled {
        Some("awake"@)
    } else if next == AgentStatus::Unknown {
        Some("?"@)
    } else {
        None
    }
}

/// Picks a short transition message. An agent without a status counts as one
/// in an unknown state.
pub fn transition_text(prev: Option<AgentStatus>, next: AgentStatus) -> (r: Option<&'static str>)
    ensures
        r.deep_view() == transition_words(prev, next),
{
    let p = match prev {
        Some(s) => s,
        None => AgentStatus::Unknown,
    };
    if p == next {
        None
    } else if next == AgentStatus::Error {
        Some("anomaly!")
    } else if p == AgentStatus::Error && next == AgentStatus::Healthy {
        Some("recovered")
    } else if next == AgentStatus::Running {
        Some("...working...")
    } else if p == AgentStatus::Running && next == AgentStatus::Healthy {
        Some("eureka!")
    } else if p == AgentStatus::Unknown && next == AgentStatus::Healthy {
        Some("online")
    } else if next == AgentStatus::Disabled {
        Some("zzz")
    } else if p == AgentStatus::Disabled {
        Some("awake")
    } else if next == AgentStatus::Unknown {
        Some("?")
    } else {
        None
    }
}

/// Every change of status has its word, and staying put has none.
pub proof fn transition_law(prev: AgentStatus, next: AgentStatus)
    ensures
        transition_words(Some(prev), next) is Some <==> prev != next,
        prev != AgentStatus::Error ==> transition_words(Some(prev), AgentStatus::Error) == Some(
            "anomaly!"@,
        ),
{
}

} // verus!
