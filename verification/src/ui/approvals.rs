//! The panel of pending exec approvals. Each row offers to allow once or to
//! deny; a lasting permission is not offered here.
use vstd::prelude::*;

use crate::keyed::StrMap;
use crate::net::rpc::{ApprovalEventPayload, ApprovalEventPayloadView};
use crate::seqs::{no_items, push_to};
use crate::text::cat;

verus! {

/// The decision of the Allow button.
pub const ALLOW: &'static str = "allow-once";

/// The decision of the Deny button.
pub const DENY: &'static str = "deny";

/// One pending approval.
#[derive(Debug)]
pub struct ApprovalRow {
    pub id: String,
    pub tool: String,
    pub summary: String,
}

/// What [`ApprovalRow`] holds, as mathematical values.
#[verifier::ext_equal]
pub struct ApprovalRowView {
    pub id: Seq<char>,
    pub tool: Seq<char>,
    pub summary: Seq<char>,
}

impl DeepView for ApprovalRow {
    type V = ApprovalRowView;

    open spec fn deep_view(&self) -> ApprovalRowView {
        ApprovalRowView {
            id: self.id.deep_view(),
            tool: self.tool.deep_view(),
            summary: self.summary.deep_view(),
        }
    }
}

/// What a request is about: its summary, else its session, else a stock text.
pub open spec fn summary_text(p: ApprovalEventPayloadView) -> Seq<char> {
    match p.summary {
        Some(s) => s,
        None => match p.session_key {
            Some(k) => "session: "@ + k,
            None => "pending approval"@,
        },
    }
}

/// What a request is about.
pub fn summary_for(payload: &ApprovalEventPayload) -> (r: String)
    ensures
        r@ == summary_text(payload.deep_view()),
{
    match &payload.summary {
        Some(s) => s.clone(),
        None => match &payload.session_key {
            Some(k) => cat("session: ", k.as_str()),
            None => "pending approval".to_owned(),
        },
    }
}

/// The row of a pending approval.
pub open spec fn approval_row(entry: (Seq<char>, ApprovalEventPayloadView)) -> ApprovalRowView {
    ApprovalRowView {
        id: entry.0,
        tool: match entry.1.tool {
            Some(t) => t,
            None => "exec"@,
        },
        summary: summary_text(entry.1),
    }
}

/// The rows of the panel, one per pending approval.
pub fn view(pending: &StrMap<ApprovalEventPayload>) -> (r: Vec<ApprovalRow>)
    ensures
        r.deep_view() == pending.deep_view().map_values(
            |e: (Seq<char>, ApprovalEventPayloadView)| approval_row(e),
        ),
{
    let ghost all = pending.deep_view();
    let n = pending.len();
    let mut r: Vec<ApprovalRow> = no_items();
    let mut i: usize = 0;
    while i < n
        invariant
            all == pending.deep_view(),
            n == all.len(),
            i <= n,
            r.deep_view() == all.take(i as int).map_values(
                |e: (Seq<char>, ApprovalEventPayloadView)| approval_row(e),
            ),
        decreases n - i,
    {
        let payload = pending.value_at(i);
        let tool = match &payload.tool {
            Some(t) => t.clone(),
            None => "exec".to_owned(),
        };
        let row = ApprovalRow {
            id: pending.key_at(i).clone(),
            tool,
            summary: summary_for(payload),
        };
        assert(row.deep_view() == approval_row(all[i as int]));
        push_to(&mut r, row);
        i = i + 1;
        assert(r.deep_view() =~= all.take(i as int).map_values(
            |e: (Seq<char>, ApprovalEventPayloadView)| approval_row(e),
        ));
    }
    assert(all.take(i as int) =~= all);
    r
}

} // verus!
