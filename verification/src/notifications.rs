//! Native notifications: approval requests, cron failures, gateway updates.
//!
//! A [`Notifier`] remembers what it has already raised, so that the periodic
//! snapshots do not raise the same thing every cycle. What it decides to
//! raise comes back as a [`Notification`] for the desktop to show.
use vstd::prelude::*;

use crate::domain::agent::AgentId;
use crate::keyed::{lookup, put, removed, with_member, without_member, StrMap, StrSet};
use crate::net::events::{GatewayUpdate, GatewayUpdateView};
use crate::net::rpc::{ApprovalEventPayload, ApprovalEventPayloadView, CronState, CronStateView};
use crate::text::{cat, cat3, ellipsize, ellipsized, same, trim, trimmed};

verus! {

/// How many characters a notification's body may have.
pub const BODY_MAX: usize = 140;

/// A notification for the desktop to show.
#[derive(Debug, PartialEq)]
pub struct Notification {
    pub title: String,
    pub body: String,
}

/// What [`Notification`] holds, as mathematical values.
#[verifier::ext_equal]
pub struct NotificationView {
    pub title: Seq<char>,
    pub body: Seq<char>,
}

impl DeepView for Notification {
    type V = NotificationView;

    open spec fn deep_view(&self) -> NotificationView {
        NotificationView {
            title: self.title.deep_view(),
            body: self.body.deep_view(),
        }
    }
}

impl Clone for Notification {
    fn clone(&self) -> (r: Notification)
        ensures
            r.deep_view() == self.deep_view(),
    {
        Notification {
            title: self.title.clone(),
            body: self.body.clone(),
        }
    }
}

/// What has been raised already.
pub struct Notifier {
    /// Approvals raised, by id, or by tool and summary where there is none.
    pub approvals_seen: StrSet,
    /// The last error raised for each cron.
    pub cron_errors_notified: StrMap<String>,
    /// The update raised, as `<current>-><latest>`.
    pub update_notified: Option<String>,
}

/// What [`Notifier`] holds, as mathematical values.
#[verifier::ext_equal]
pub struct NotifierView {
    pub approvals_seen: Seq<Seq<char>>,
    pub cron_errors_notified: Seq<(Seq<char>, Seq<char>)>,
    pub update_notified: Option<Seq<char>>,
}

impl DeepView for Notifier {
    type V = NotifierView;

    open spec fn deep_view(&self) -> NotifierView {
        NotifierView {
            approvals_seen: self.approvals_seen.deep_view(),
            cron_errors_notified: self.cron_errors_notified.deep_view(),
            update_notified: self.update_notified.deep_view(),
        }
    }
}

/// The body of a notification: trimmed, and clipped.
pub open spec fn shortened(text: Seq<char>) -> Seq<char> {
    ellipsized(trimmed(text), BODY_MAX as int)
}

/// Clips to a sane length for a notification body.
pub fn shorten(text: &str) -> (r: String)
    ensures
        r@ == shortened(text@),
{
    let t = trim(text);
    ellipsize(t.as_str(), BODY_MAX)
}

/// A body never has more than the allowed number of characters.
pub proof fn shortened_fits(text: Seq<char>)
    ensures
        shortened(text).len() <= BODY_MAX,
{
}

/// What an approval goes by: its id, else its tool and summary.
pub open spec fn approval_key(p: ApprovalEventPayloadView) -> Seq<char> {
    match p.id {
        Some(id) => id,
        None => {
            let tool = match p.tool {
                Some(t) => t,
                None => "?"@,
            };
            let summary = match p.summary {
                Some(s) => s,
                None => ""@,
            };
            tool + ":"@ + summary
        },
    }
}

/// What an approval goes by.
pub fn approval_dedup_key(payload: &ApprovalEventPayload) -> (r: String)
    ensures
        r@ == approval_key(payload.deep_view()),
{
    match &payload.id {
        Some(id) => id.clone(),
        None => {
            let tool = match &payload.tool {
                Some(t) => t.as_str(),
                None => "?",
            };
            let summary = match &payload.summary {
                Some(s) => s.as_str(),
                None => "",
            };
            cat3(tool, ":", summary)
        },
    }
}

/// The notification for an approval request.
pub open spec fn approval_note(p: ApprovalEventPayloadView) -> NotificationView {
    let tool = match p.tool {
        Some(t) => t,
        None => "tool"@,
    };
    let summary = match p.summary {
        Some(s) => if s.len() == 0 {
            "awaiting operator decision"@
        } else {
            shortened(s)
        },
        None => "awaiting operator decision"@,
    };
    NotificationView { title: "Approval requested"@, body: tool + ": "@ + summary }
}

/// The notification for a cron error.
pub open spec fn cron_note(id: Seq<char>, error: Seq<char>) -> NotificationView {
    NotificationView { title: "Cron failed: "@ + id, body: shortened(error) }
}

/// The notification for a gateway update.
pub open spec fn update_note(u: GatewayUpdateView) -> NotificationView {
    NotificationView {
        title: "OpenClaw update available"@,
        body: u.current + " → "@ + u.latest,
    }
}

impl NotifierView {
    /// Nothing raised yet.
    pub open spec fn fresh() -> NotifierView {
        NotifierView {
            approvals_seen: Seq::empty(),
            cron_errors_notified: Seq::empty(),
            update_notified: None,
        }
    }

    /// After a disconnect: only the update stays.
    pub open spec fn disconnected(self) -> NotifierView {
        NotifierView { update_notified: self.update_notified, ..NotifierView::fresh() }
    }

    /// What is raised for an approval request.
    pub open spec fn raises_approval(self, p: ApprovalEventPayloadView) -> Option<
        NotificationView,
    > {
        if self.approvals_seen.contains(approval_key(p)) {
            None
        } else {
            Some(approval_note(p))
        }
    }

    pub open spec fn after_approval(self, p: ApprovalEventPayloadView) -> NotifierView {
        NotifierView { approvals_seen: with_member(self.approvals_seen, approval_key(p)), ..self }
    }

    pub open spec fn after_resolution(self, id: Option<Seq<char>>) -> NotifierView {
        NotifierView {
            approvals_seen: match id {
                Some(i) => without_member(self.approvals_seen, i),
                None => Seq::empty(),
            },
            ..self
        }
    }

    /// What is raised for a cron's state.
    pub open spec fn raises_cron(self, id: Seq<char>, s: CronStateView) -> Option<
        NotificationView,
    > {
        match s.last_error {
            Some(e) => if lookup(self.cron_errors_notified, id) == Some(e) {
                None
            } else {
                Some(cron_note(id, e))
            },
            None => None,
        }
    }

    pub open spec fn after_cron(self, id: Seq<char>, s: CronStateView) -> NotifierView {
        match s.last_error {
            Some(e) => if lookup(self.cron_errors_notified, id) == Some(e) {
                self
            } else {
                NotifierView {
                    cron_errors_notified: put(self.cron_errors_notified, id, e),
                    ..self
                }
            },
            None => NotifierView {
                cron_errors_notified: removed(self.cron_errors_notified, id),
                ..self
            },
        }
    }

    /// What is raised for an update.
    pub open spec fn raises_update(self, u: GatewayUpdateView) -> Option<NotificationView> {
        if self.update_notified == Some(u.current + "->"@ + u.latest) {
            None
        } else {
            Some(update_note(u))
        }
    }

    pub open spec fn after_update(self, u: GatewayUpdateView) -> NotifierView {
        NotifierView { update_notified: Some(u.current + "->"@ + u.latest), ..self }
    }
}

impl Notifier {
    pub fn new() -> (r: Notifier)
        ensures
            r.deep_view() == NotifierView::fresh(),
    {
        Notifier {
            approvals_seen: StrSet::new(),
            cron_errors_notified: StrMap::new(),
            update_notified: None,
        }
    }

    /// Forgets approvals and cron errors, so that what is still unresolved is
    /// raised again after the next connect. An update being available has
    /// nothing to do with the connection, so that one stays.
    pub fn reset_on_disconnect(&mut self)
        ensures
            final(self).deep_view() == old(self).deep_view().disconnected(),
    {
        self.approvals_seen.clear();
        self.cron_errors_notified.clear();
    }

    /// Raises an approval request the first time it is seen.
    pub fn approval_requested(&mut self, payload: &ApprovalEventPayload) -> (r: Option<
        Notification,
    >)
        ensures
            r.deep_view() == old(self).deep_view().raises_approval(payload.deep_view()),
            final(self).deep_view() == old(self).deep_view().after_approval(payload.deep_view()),
    {
        if !self.approvals_seen.insert(approval_dedup_key(payload)) {
            return None;
        }
        let tool = match &payload.tool {
            Some(t) => t.as_str(),
            None => "tool",
        };
        let summary = match &payload.summary {
            Some(s) => if s.as_str().is_empty() {
                "awaiting operator decision".to_owned()
            } else {
                shorten(s.as_str())
            },
            None => "awaiting operator decision".to_owned(),
        };
        Some(
            Notification {
                title: "Approval requested".to_owned(),
                body: cat3(tool, ": ", summary.as_str()),
            },
        )
    }

    /// Forgets a resolved approval, or all of them when it is not said which.
    pub fn approval_resolved(&mut self, id: &Option<String>)
        ensures
            final(self).deep_view() == old(self).deep_view().after_resolution(id.deep_view()),
    {
        match id {
            Some(i) => {
                let _ = self.approvals_seen.remove(i.as_str());
            },
            None => {
                self.approvals_seen.clear();
            },
        }
    }

    /// Raises a cron's error unless the same one was raised last; forgets it
    /// once the cron has none.
    pub fn cron_state_changed(&mut self, agent_id: &AgentId, state: &CronState) -> (r: Option<
        Notification,
    >)
        ensures
            r.deep_view() == old(self).deep_view().raises_cron(
                agent_id.deep_view(),
                state.deep_view(),
            ),
            final(self).deep_view() == old(self).deep_view().after_cron(
                agent_id.deep_view(),
                state.deep_view(),
            ),
    {
        match &state.last_error {
            Some(error) => {
                let already = match self.cron_errors_notified.get(agent_id.as_str()) {
                    Some(e) => same(e.as_str(), error.as_str()),
                    None => false,
                };
                if already {
                    return None;
                }
                self.cron_errors_notified.insert(agent_id.as_str().to_owned(), error.clone());
                Some(
                    Notification {
                        title: cat("Cron failed: ", agent_id.as_str()),
                        body: shorten(error.as_str()),
                    },
                )
            },
            None => {
                let _ = self.cron_errors_notified.remove(agent_id.as_str());
                None
            },
        }
    }

    /// Raises a gateway update unless the same one was raised last.
    pub fn update_available(&mut self, update: &GatewayUpdate) -> (r: Option<Notification>)
        ensures
            r.deep_view() == old(self).deep_view().raises_update(update.deep_view()),
            final(self).deep_view() == old(self).deep_view().after_update(update.deep_view()),
    {
        let key = cat3(update.current.as_str(), "->", update.latest.as_str());
        let already = match &self.update_notified {
            Some(k) => same(k.as_str(), key.as_str()),
            None => false,
        };
        if already {
            return None;
        }
        self.update_notified = Some(key);
        Some(
            Notification {
                title: "OpenClaw update available".to_owned(),
                body: cat3(update.current.as_str(), " → ", update.latest.as_str()),
            },
        )
    }
}

/// The same approval, cron error or update is raised once: straight after, it
/// raises nothing and changes nothing.
pub proof fn raised_once(
    n: NotifierView,
    p: ApprovalEventPayloadView,
    id: Seq<char>,
    s: CronStateView,
    u: GatewayUpdateView,
)
    ensures
        n.after_approval(p).raises_approval(p) is None,
        n.after_approval(p).after_approval(p) == n.after_approval(p),
        n.after_cron(id, s).raises_cron(id, s) is None,
        n.after_update(u).raises_update(u) is None,
        n.after_update(u).after_update(u) == n.after_update(u),
{
    let k = approval_key(p);
    if !n.approvals_seen.contains(k) {
        assert(n.approvals_seen.push(k)[n.approvals_seen.len() as int] == k);
    }
    if let Some(e) = s.last_error {
        crate::keyed::put_law(n.cron_errors_notified, id, e, id);
    }
}

/// A cron error is raised again once its text changes or the cron has
/// recovered in between.
pub proof fn cron_error_refires(
    n: NotifierView,
    id: Seq<char>,
    s: CronStateView,
    t: CronStateView,
    healthy: CronStateView,
)
    requires
        crate::keyed::distinct_keys(n.cron_errors_notified),
        s.last_error is Some,
        t.last_error is Some,
        s.last_error != t.last_error,
        healthy.last_error is None,
    ensures
        n.after_cron(id, s).raises_cron(id, t) is Some,
        n.after_cron(id, s).after_cron(id, healthy).raises_cron(id, s) is Some,
{
    let e = s.last_error->Some_0;
    crate::keyed::put_law(n.cron_errors_notified, id, e, id);
    crate::keyed::removed_law(n.after_cron(id, s).cron_errors_notified, id, id);
}

/// After a disconnect approvals and cron errors are raised again, the update
/// is not.
pub proof fn disconnect_law(
    n: NotifierView,
    p: ApprovalEventPayloadView,
    id: Seq<char>,
    s: CronStateView,
    u: GatewayUpdateView,
)
    ensures
        n.disconnected().raises_approval(p) is Some,
        s.last_error is Some ==> n.disconnected().raises_cron(id, s) is Some,
        n.disconnected().raises_update(u) == n.raises_update(u),
{
}

/// A resolved approval is raised again if it is requested once more.
pub proof fn resolved_approval_refires(n: NotifierView, p: ApprovalEventPayloadView)
    requires
        n.approvals_seen.no_duplicates(),
    ensures
        n.after_resolution(Some(approval_key(p))).raises_approval(p) is Some,
        n.after_resolution(None).raises_approval(p) is Some,
{
    let k = approval_key(p);
    let s = n.approvals_seen;
    if s.contains(k) {
        let i = s.index_of(k);
        let t = s.remove(i);
        if t.contains(k) {
            let j = t.index_of(k);
            let x = if j < i { j } else { j + 1 };
            assert(s[x] == k && s[i] == k && x != i);
        }
    }
}

} // verus!
