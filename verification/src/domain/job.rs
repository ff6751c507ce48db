//! Runtime entities of the office scene that cannot be chatted with: cron
//! schedules and channel providers.
use vstd::prelude::*;
use vstd::utf8::encode_utf8;

use crate::domain::agent::{ghost_of, ghost_tint, Tint};
use crate::domain::status::AgentStatus;
use crate::text::{has_prefix, strip_prefix};

verus! {

/// Stable identifier for a job, distinct from an agent's so that the two
/// cannot be swapped.
#[derive(Debug, PartialEq, Eq, Hash)]
pub struct JobId(pub String);

impl DeepView for JobId {
    type V = Seq<char>;

    open spec fn deep_view(&self) -> Seq<char> {
        self.0@
    }
}

impl Clone for JobId {
    fn clone(&self) -> (r: JobId)
        ensures
            r.deep_view() == self.deep_view(),
    {
        JobId(self.0.clone())
    }
}

impl JobId {
    pub fn new(s: &str) -> (r: JobId)
        ensures
            r.deep_view() == s@,
    {
        JobId(s.to_owned())
    }

    pub fn as_str(&self) -> (r: &str)
        ensures
            r@ == self.deep_view(),
    {
        self.0.as_str()
    }
}

/// What kind of job this is.
#[derive(Debug, Clone, Copy, PartialEq, Eq, Hash, Structural)]
pub enum JobKind {
    /// Scheduled cron (`cron.list`, `cron.run`).
    Cron,
    /// Messaging channel provider (Slack / Telegram / WhatsApp).
    Channel,
}

impl DeepView for JobKind {
    type V = JobKind;

    open spec fn deep_view(&self) -> JobKind {
        *self
    }
}

/// One job in the office.
#[derive(Debug)]
pub struct Job {
    pub id: JobId,
    pub display: String,
    pub kind: JobKind,
    pub status: AgentStatus,
}

/// What [`Job`] holds, as mathematical values.
#[verifier::ext_equal]
pub struct JobView {
    pub id: Seq<char>,
    pub display: Seq<char>,
    pub kind: JobKind,
    pub status: AgentStatus,
}

impl DeepView for Job {
    type V = JobView;

    open spec fn deep_view(&self) -> JobView {
        JobView {
            id: self.id.deep_view(),
            display: self.display.deep_view(),
            kind: self.kind.deep_view(),
            status: self.status.deep_view(),
        }
    }
}

impl Clone for Job {
    fn clone(&self) -> (r: Job)
        ensures
            r.deep_view() == self.deep_view(),
    {
        Job {
            id: self.id.clone(),
            display: self.display.clone(),
            kind: self.kind,
            status: self.status.clone(),
        }
    }
}

impl JobView {
    /// The color of a job.
    pub open spec fn tint(self) -> Tint {
        match self.kind {
            JobKind::Cron => ghost_of(encode_utf8(self.id)),
            JobKind::Channel => Tint::Muted,
        }
    }
}

impl Job {
    /// A cron whose status is not known yet.
    pub fn cron(id: &str) -> (r: Job)
        ensures
            r.deep_view() == (JobView {
                id: id@,
                display: shortened(id@),
                kind: JobKind::Cron,
                status: AgentStatus::Unknown,
            }),
    {
        Job {
            id: JobId::new(id),
            display: shorten_for_display(id),
            kind: JobKind::Cron,
            status: AgentStatus::Unknown,
        }
    }

    /// A channel whose status is not known yet.
    pub fn channel(id: &str) -> (r: Job)
        ensures
            r.deep_view() == (JobView {
                id: id@,
                display: id@,
                kind: JobKind::Channel,
                status: AgentStatus::Unknown,
            }),
    {
        Job {
            id: JobId::new(id),
            display: id.to_owned(),
            kind: JobKind::Channel,
            status: AgentStatus::Unknown,
        }
    }

    /// Crons take a ghost hue keyed by their id; channels are muted.
    pub fn color(&self) -> (r: Tint)
        ensures
            r == self.deep_view().tint(),
    {
        match self.kind {
            JobKind::Cron => ghost_tint(self.id.as_str()),
            JobKind::Channel => Tint::Muted,
        }
    }
}

/// `id` without the boilerplate prefix `teamapp-`, or else `openclaw-`.
pub open spec fn shortened(id: Seq<char>) -> Seq<char> {
    if has_prefix(id, "teamapp-"@) {
        id.skip("teamapp-"@.len() as int)
    } else if has_prefix(id, "openclaw-"@) {
        id.skip("openclaw-"@.len() as int)
    } else {
        id
    }
}

/// Collapses one boilerplate prefix off a long cron name, so that the label
/// under the sprite stays readable.
pub fn shorten_for_display(id: &str) -> (r: String)
    ensures
        r@ == shortened(id@),
{
    match strip_prefix(id, "teamapp-") {
        Some(rest) => rest,
        None => match strip_prefix(id, "openclaw-") {
            Some(rest) => rest,
            None => id.to_owned(),
        },
    }
}

} // verus!
