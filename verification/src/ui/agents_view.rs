//! The Agents tab: a card for every agent and every job.
//!
//! - crons: when they ran and will run, the last error, and "Run now"
//! - channels: whether they are configured and connected, and the last error
//! - agents: the active model, the main session, and "Reset session", which
//!   takes two clicks
use vstd::prelude::*;

use crate::domain::agent::{Agent, AgentKind, AgentView, Tint};
use crate::domain::job::{shortened, Job, JobKind, JobView};
use crate::domain::status::AgentStatus;
use crate::figures::{in_largest_unit, largest_unit_text, seconds_between, seconds_since};
use crate::keyed::{has_key, lookup, put, StrMap, StrSet};
use crate::net::rpc::{
    Channel, ChannelView, CronState, CronStateView, SessionInfo, SessionInfoView,
};
use crate::scene::office::{agent_status, status_of};
use crate::seqs::{
    is_strict_order, no_items, one_item, ordered, ordered_law, place_of_unique, push_to,
};
use crate::text::{
    cat, cat3, comes_before, decimal, ellipsize, ellipsized, i64_text, signed_decimal, text_before,
    text_order_law, u64_text, usize_text,
};
use crate::ui::widgets::{status_label, status_word};

verus! {

/// How many characters of an error show while it is folded.
pub const ERROR_MAX: usize = 100;

/// The session that the agents' rows tell about.
pub const MAIN_SESSION: &'static str = "agent:main:main";

/// What the tab is drawn from.
pub struct AgentsViewSnapshot<'a> {
    pub roster: &'a Vec<Agent>,
    pub jobs: &'a StrMap<Job>,
    pub statuses: &'a StrMap<AgentStatus>,
    pub cron_details: &'a StrMap<CronState>,
    /// UUIDs of the crons that came from the snapshot.
    pub cron_ids: &'a StrMap<String>,
    pub channel_details: &'a StrMap<Channel>,
    pub active_model: Option<&'a str>,
    pub sessions: &'a StrMap<SessionInfo>,
    pub pending_resets: &'a StrMap<u64>,
    pub expanded_errors: &'a StrSet,
}

/// What [`AgentsViewSnapshot`] holds, as mathematical values.
pub struct AgentsSnapshotView {
    pub roster: Seq<AgentView>,
    pub jobs: Seq<(Seq<char>, JobView)>,
    pub statuses: Seq<(Seq<char>, AgentStatus)>,
    pub cron_details: Seq<(Seq<char>, CronStateView)>,
    pub cron_ids: Seq<(Seq<char>, Seq<char>)>,
    pub channel_details: Seq<(Seq<char>, ChannelView)>,
    pub active_model: Option<Seq<char>>,
    pub sessions: Seq<(Seq<char>, SessionInfoView)>,
    pub pending_resets: Seq<(Seq<char>, u64)>,
    pub expanded_errors: Seq<Seq<char>>,
}

impl<'a> AgentsViewSnapshot<'a> {
    /// What the tab is drawn from, as mathematical values.
    pub open spec fn model(&self) -> AgentsSnapshotView {
        AgentsSnapshotView {
            roster: self.roster.deep_view(),
            jobs: self.jobs.deep_view(),
            statuses: self.statuses.deep_view(),
            cron_details: self.cron_details.deep_view(),
            cron_ids: self.cron_ids.deep_view(),
            channel_details: self.channel_details.deep_view(),
            active_model: self.active_model.deep_view(),
            sessions: self.sessions.deep_view(),
            pending_resets: self.pending_resets.deep_view(),
            expanded_errors: self.expanded_errors.deep_view(),
        }
    }
}

/// What the button of a row does.
#[derive(Debug, Clone, Copy, PartialEq, Eq, Structural)]
pub enum RowAction {
    /// Resets the session; `armed` after the first click.
    Reset { armed: bool },
    /// Runs the cron now.
    RunNow,
}

impl DeepView for RowAction {
    type V = RowAction;

    open spec fn deep_view(&self) -> RowAction {
        *self
    }
}

impl RowAction {
    /// The text of the button.
    pub open spec fn text(self) -> Seq<char> {
        match self {
            RowAction::Reset { armed } => if armed {
                "Confirm reset?"@
            } else {
                "Reset session"@
            },
            RowAction::RunNow => "Run now"@,
        }
    }

    pub fn label(self) -> (r: &'static str)
        ensures
            r@ == self.text(),
    {
        match self {
            RowAction::Reset { armed } => if armed {
                "Confirm reset?"
            } else {
                "Reset session"
            },
            RowAction::RunNow => "Run now",
        }
    }
}

/// The error of a row; a click folds and unfolds it.
#[derive(Debug)]
pub struct ErrorRow {
    pub indicator: &'static str,
    pub text: String,
}

/// What [`ErrorRow`] holds, as mathematical values.
#[verifier::ext_equal]
pub struct ErrorRowView {
    pub indicator: Seq<char>,
    pub text: Seq<char>,
}

impl DeepView for ErrorRow {
    type V = ErrorRowView;

    open spec fn deep_view(&self) -> ErrorRowView {
        ErrorRowView {
            indicator: self.indicator.deep_view(),
            text: self.text.deep_view(),
        }
    }
}

/// The detail of a row.
#[derive(Debug)]
pub struct AgentDetail {
    pub lines: Vec<String>,
    pub error: Option<String>,
}

/// What [`AgentDetail`] holds, as mathematical values.
#[verifier::ext_equal]
pub struct AgentDetailView {
    pub lines: Seq<Seq<char>>,
    pub error: Option<Seq<char>>,
}

impl DeepView for AgentDetail {
    type V = AgentDetailView;

    open spec fn deep_view(&self) -> AgentDetailView {
        AgentDetailView {
            lines: self.lines.deep_view(),
            error: self.error.deep_view(),
        }
    }
}

/// One row of the tab.
#[derive(Debug)]
pub struct AgentRow {
    pub id: String,
    pub dot: Tint,
    pub display: String,
    pub kind: &'static str,
    pub action: Option<RowAction>,
    pub badge: &'static str,
    pub badge_tint: Tint,
    pub lines: Vec<String>,
    pub error: Option<ErrorRow>,
}

/// What [`AgentRow`] holds, as mathematical values.
#[verifier::ext_equal]
pub struct AgentRowView {
    pub id: Seq<char>,
    pub dot: Tint,
    pub display: Seq<char>,
    pub kind: Seq<char>,
    pub action: Option<RowAction>,
    pub badge: Seq<char>,
    pub badge_tint: Tint,
    pub lines: Seq<Seq<char>>,
    pub error: Option<ErrorRowView>,
}

impl DeepView for AgentRow {
    type V = AgentRowView;

    open spec fn deep_view(&self) -> AgentRowView {
        AgentRowView {
            id: self.id.deep_view(),
            dot: self.dot.deep_view(),
            display: self.display.deep_view(),
            kind: self.kind.deep_view(),
            action: self.action.deep_view(),
            badge: self.badge.deep_view(),
            badge_tint: self.badge_tint.deep_view(),
            lines: self.lines.deep_view(),
            error: self.error.deep_view(),
        }
    }
}

/// What the tab shows.
#[derive(Debug)]
pub struct AgentsPage {
    pub count: String,
    pub rows: Vec<AgentRow>,
}

// ---------------------------------------------------------------------
// Texts
// ---------------------------------------------------------------------

/// `yes` or `no`.
pub open spec fn yes_or_no(b: bool) -> Seq<char> {
    if b {
        "yes"@
    } else {
        "no"@
    }
}

pub fn yes_no(b: bool) -> (r: &'static str)
    ensures
        r@ == yes_or_no(b),
{
    if b {
        "yes"
    } else {
        "no"
    }
}

/// A duration in its two largest units; `?` for a negative one.
pub open spec fn duration_text(ms: int) -> Seq<char> {
    if ms < 0 {
        "?"@
    } else {
        let secs = (ms / 1000) as nat;
        if secs < 60 {
            decimal(secs) + "s"@
        } else if secs < 3600 {
            decimal(secs / 60) + "m "@ + decimal(secs % 60) + "s"@
        } else {
            decimal(secs / 3600) + "h "@ + decimal(secs % 3600 / 60) + "m"@
        }
    }
}

pub fn format_duration_ms(ms: i64) -> (r: String)
    ensures
        r@ == duration_text(ms as int),
{
    if ms < 0 {
        return "?".to_owned();
    }
    let secs: u64 = ms as u64 / 1000;
    if secs < 60 {
        cat(u64_text(secs).as_str(), "s")
    } else if secs < 3600 {
        let minutes = cat(u64_text(secs / 60).as_str(), "m ");
        cat3(minutes.as_str(), u64_text(secs % 60).as_str(), "s")
    } else {
        let hours = cat(u64_text(secs / 3600).as_str(), "h ");
        cat3(hours.as_str(), u64_text((secs % 3600) / 60).as_str(), "m")
    }
}

/// How long ago a time was, in brackets; `never` where it is still to come.
pub open spec fn ago_text(now_ms: int, ms: int) -> Seq<char> {
    match seconds_since(now_ms, ms) {
        Some(secs) => "("@ + in_largest_unit(secs) + " ago)"@,
        None => "never"@,
    }
}

pub fn format_time_ago(now_ms: i64, ms: i64) -> (r: String)
    ensures
        r@ == ago_text(now_ms as int, ms as int),
{
    match seconds_between(now_ms, ms) {
        Some(secs) => cat3("(", largest_unit_text(secs).as_str(), " ago)"),
        None => "never".to_owned(),
    }
}

/// How long it is until a time; `overdue` once it has come.
pub open spec fn until_text(now_ms: int, ms: int) -> Seq<char> {
    if ms <= now_ms {
        "overdue"@
    } else {
        let secs = ((ms - now_ms) / 1000) as nat;
        if 3600 <= secs < 86400 {
            "in "@ + decimal(secs / 3600) + "h "@ + decimal(secs % 3600 / 60) + "m"@
        } else {
            "in "@ + in_largest_unit(secs)
        }
    }
}

pub fn format_time_until(now_ms: i64, ms: i64) -> (r: String)
    ensures
        r@ == until_text(now_ms as int, ms as int),
{
    if ms <= now_ms {
        return "overdue".to_owned();
    }
    let secs: u64 = match seconds_between(ms, now_ms) {
        Some(s) => s,
        None => 0,
    };
    if 3600 <= secs && secs < 86400 {
        let hours = cat3("in ", u64_text(secs / 3600).as_str(), "h ");
        cat3(hours.as_str(), u64_text((secs % 3600) / 60).as_str(), "m")
    } else {
        cat("in ", largest_unit_text(secs).as_str())
    }
}

/// Cuts `s` to `max` characters, the last one an ellipsis if anything goes.
pub fn truncate(s: &str, max: usize) -> (r: String)
    ensures
        r@ == ellipsized(s@, max as int),
{
    ellipsize(s, max)
}

// ---------------------------------------------------------------------
// Details
// ---------------------------------------------------------------------

/// The line about the last run.
pub open spec fn last_run_line(state: CronStateView, now_ms: int) -> Seq<Seq<char>> {
    match state.last_status {
        Some(status) => seq![
            "last: "@ + status + (match state.last_duration_ms {
                Some(ms) => " ("@ + duration_text(ms as int) + ")"@,
                None => ""@,
            }) + (match state.last_run_at_ms {
                Some(ms) => " "@ + ago_text(now_ms, ms as int),
                None => ""@,
            }),
        ],
        None => Seq::empty(),
    }
}

/// The line about the next run.
pub open spec fn next_run_line(state: CronStateView, now_ms: int) -> Seq<Seq<char>> {
    match state.next_run_at_ms {
        Some(ms) => seq!["next: "@ + until_text(now_ms, ms as int)],
        None => Seq::empty(),
    }
}

/// The detail of a cron.
pub open spec fn cron_detail_of(state: Option<CronStateView>, now_ms: int) -> AgentDetailView {
    match state {
        None => AgentDetailView { lines: seq!["no state yet"@], error: None },
        Some(state) => {
            let lines = last_run_line(state, now_ms) + next_run_line(state, now_ms);
            AgentDetailView {
                lines: if lines.len() == 0 && state.last_error is None {
                    seq!["no recent runs"@]
                } else {
                    lines
                },
                error: state.last_error,
            }
        },
    }
}

/// When a cron ran and will run, and its last error.
pub fn cron_detail(state: Option<&CronState>, now_ms: i64) -> (r: AgentDetail)
    ensures
        r.deep_view() == cron_detail_of(state.deep_view(), now_ms as int),
{
    let state = match state {
        Some(s) => s,
        None => {
            return AgentDetail { lines: one_item("no state yet".to_owned()), error: None };
        },
    };
    let mut lines: Vec<String> = no_items();
    if let Some(status) = &state.last_status {
        let dur = match state.last_duration_ms {
            Some(ms) => cat3(" (", format_duration_ms(ms).as_str(), ")"),
            None => "".to_owned(),
        };
        let ago = match state.last_run_at_ms {
            Some(ms) => cat(" ", format_time_ago(now_ms, ms).as_str()),
            None => "".to_owned(),
        };
        let head = cat("last: ", status.as_str());
        push_to(&mut lines, cat3(head.as_str(), dur.as_str(), ago.as_str()));
    }
    if let Some(ms) = state.next_run_at_ms {
        push_to(&mut lines, cat("next: ", format_time_until(now_ms, ms).as_str()));
    }
    assert(lines.deep_view() =~= last_run_line(state.deep_view(), now_ms as int) + next_run_line(
        state.deep_view(),
        now_ms as int,
    ));
    if lines.len() == 0 && state.last_error.is_none() {
        push_to(&mut lines, "no recent runs".to_owned());
        assert(lines.deep_view() =~= seq!["no recent runs"@]);
    }
    AgentDetail { lines, error: state.last_error.clone() }
}

/// The detail of a channel.
pub open spec fn channel_detail_of(channel: Option<ChannelView>) -> AgentDetailView {
    match channel {
        None => AgentDetailView { lines: seq!["no state yet"@], error: None },
        Some(ch) => AgentDetailView {
            lines: seq![
                "configured: "@ + yes_or_no(ch.enabled) + " · connected: "@ + yes_or_no(
                    ch.connected,
                ),
            ],
            error: ch.last_error,
        },
    }
}

/// Whether a channel is configured and connected, and its last error.
pub fn channel_detail(channel: Option<&Channel>) -> (r: AgentDetail)
    ensures
        r.deep_view() == channel_detail_of(channel.deep_view()),
{
    match channel {
        None => AgentDetail { lines: one_item("no state yet".to_owned()), error: None },
        Some(ch) => {
            let configured = cat("configured: ", yes_no(ch.enabled));
            let line = cat3(configured.as_str(), " · connected: ", yes_no(ch.connected));
            AgentDetail { lines: one_item(line), error: ch.last_error.clone() }
        },
    }
}

/// The detail of an agent: the active model, and the tokens of the main
/// session.
pub open spec fn main_detail_of(
    model: Option<Seq<char>>,
    session: Option<SessionInfoView>,
) -> AgentDetailView {
    let first: Seq<Seq<char>> = match model {
        Some(m) => seq!["model: "@ + m],
        None => Seq::empty(),
    };
    let second: Seq<Seq<char>> = match session {
        Some(info) => match (info.total_tokens, info.context_tokens) {
            (Some(total), Some(ctx)) => seq![
                "main session: "@ + signed_decimal(total as int) + " / "@ + signed_decimal(
                    ctx as int,
                ) + " tokens"@,
            ],
            _ => Seq::empty(),
        },
        None => Seq::empty(),
    };
    AgentDetailView {
        lines: if (first + second).len() == 0 {
            seq!["no session data yet"@]
        } else {
            first + second
        },
        error: None,
    }
}

/// The active model, and the tokens of the main session.
pub fn main_detail(model: Option<&str>, session: Option<&SessionInfo>) -> (r: AgentDetail)
    ensures
        r.deep_view() == main_detail_of(model.deep_view(), session.deep_view()),
{
    let ghost want = main_detail_of(model.deep_view(), session.deep_view());
    let mut lines: Vec<String> = no_items();
    if let Some(m) = model {
        push_to(&mut lines, cat("model: ", m));
    }
    if let Some(info) = session {
        if let (Some(total), Some(ctx)) = (info.total_tokens, info.context_tokens) {
            let used = cat("main session: ", i64_text(total).as_str());
            let both = cat3(used.as_str(), " / ", i64_text(ctx).as_str());
            push_to(&mut lines, cat(both.as_str(), " tokens"));
        }
    }
    if lines.len() == 0 {
        push_to(&mut lines, "no session data yet".to_owned());
    }
    assert(lines.deep_view() =~= want.lines);
    AgentDetail { lines, error: None }
}

/// The row of an error: cut while it is folded.
pub open spec fn error_row_of(err: Seq<char>, expanded: bool) -> ErrorRowView {
    ErrorRowView {
        indicator: if expanded {
            "▾"@
        } else {
            "▸"@
        },
        text: "error: "@ + (if expanded {
            err
        } else {
            ellipsized(err, ERROR_MAX as int)
        }),
    }
}

/// The row of an error.
pub fn error_row(err: &str, expanded: bool) -> (r: ErrorRow)
    ensures
        r.deep_view() == error_row_of(err@, expanded),
{
    let indicator = if expanded {
        "▾"
    } else {
        "▸"
    };
    let body = if expanded {
        err.to_owned()
    } else {
        truncate(err, ERROR_MAX)
    };
    ErrorRow { indicator, text: cat("error: ", body.as_str()) }
}

// ---------------------------------------------------------------------
// Rows
// ---------------------------------------------------------------------

/// The error row of a detail.
pub open spec fn folded_error(detail: AgentDetailView, expanded: bool) -> Option<ErrorRowView> {
    match detail.error {
        Some(e) => Some(error_row_of(e, expanded)),
        None => None,
    }
}

/// The row of an agent.
pub open spec fn agent_row(agent: AgentView, s: AgentsSnapshotView) -> AgentRowView {
    let word = status_word(status_of(s.statuses, agent.id));
    let detail = main_detail_of(s.active_model, lookup(s.sessions, MAIN_SESSION@));
    AgentRowView {
        id: agent.id,
        dot: agent.tint(),
        display: agent.display,
        kind: "agent"@,
        action: Some(RowAction::Reset { armed: has_key(s.pending_resets, agent.id) }),
        badge: word.0,
        badge_tint: word.1,
        lines: detail.lines,
        error: folded_error(detail, s.expanded_errors.contains(agent.id)),
    }
}

/// The row of a job.
pub open spec fn job_row(job: JobView, s: AgentsSnapshotView, now_ms: int) -> AgentRowView {
    let word = status_word(job.status);
    let detail = match job.kind {
        JobKind::Cron => cron_detail_of(lookup(s.cron_details, job.id), now_ms),
        JobKind::Channel => channel_detail_of(lookup(s.channel_details, job.id)),
    };
    AgentRowView {
        id: job.id,
        dot: job.tint(),
        display: job.display,
        kind: match job.kind {
            JobKind::Cron => "cron"@,
            JobKind::Channel => "channel"@,
        },
        action: if job.kind == JobKind::Cron && has_key(s.cron_ids, job.id) {
            Some(RowAction::RunNow)
        } else {
            None
        },
        badge: word.0,
        badge_tint: word.1,
        lines: detail.lines,
        error: folded_error(detail, s.expanded_errors.contains(job.id)),
    }
}

fn show_error(error: Option<String>, expanded: bool) -> (r: Option<ErrorRow>)
    ensures
        r.deep_view() == (match error.deep_view() {
            Some(e) => Some(error_row_of(e, expanded)),
            None => None,
        }),
{
    match error {
        Some(e) => Some(error_row(e.as_str(), expanded)),
        None => None,
    }
}

fn make_agent_row(agent: &Agent, snap: &AgentsViewSnapshot<'_>) -> (r: AgentRow)
    ensures
        r.deep_view() == agent_row(agent.deep_view(), snap.model()),
{
    let id = agent.id.as_str();
    let (badge, badge_tint) = status_label(agent_status(snap.statuses, &agent.id));
    let detail = main_detail(snap.active_model, snap.sessions.get(MAIN_SESSION));
    let expanded = snap.expanded_errors.contains(id);
    AgentRow {
        id: id.to_owned(),
        dot: agent.color(),
        display: agent.display.clone(),
        kind: "agent",
        action: Some(RowAction::Reset { armed: snap.pending_resets.contains_key(id) }),
        badge,
        badge_tint,
        lines: detail.lines,
        error: show_error(detail.error, expanded),
    }
}

fn make_job_row(job: &Job, snap: &AgentsViewSnapshot<'_>, now_ms: i64) -> (r: AgentRow)
    ensures
        r.deep_view() == job_row(job.deep_view(), snap.model(), now_ms as int),
{
    let id = job.id.as_str();
    let (badge, badge_tint) = status_label(job.status);
    let action = if job.kind == JobKind::Cron && snap.cron_ids.contains_key(id) {
        Some(RowAction::RunNow)
    } else {
        None
    };
    let kind = match job.kind {
        JobKind::Cron => "cron",
        JobKind::Channel => "channel",
    };
    let detail = match job.kind {
        JobKind::Cron => cron_detail(snap.cron_details.get(id), now_ms),
        JobKind::Channel => channel_detail(snap.channel_details.get(id)),
    };
    let expanded = snap.expanded_errors.contains(id);
    AgentRow {
        id: id.to_owned(),
        dot: job.color(),
        display: job.display.clone(),
        kind,
        action,
        badge,
        badge_tint,
        lines: detail.lines,
        error: show_error(detail.error, expanded),
    }
}

/// The jobs, without their keys in the map.
pub open spec fn job_list(jobs: Seq<(Seq<char>, JobView)>) -> Seq<JobView> {
    jobs.map_values(|e: (Seq<char>, JobView)| e.1)
}

/// The order of the jobs: by their ids.
pub open spec fn job_order() -> spec_fn(JobView, JobView) -> bool {
    |a: JobView, b: JobView| text_before(a.id, b.id)
}

/// The jobs in order.
pub open spec fn jobs_sorted(jobs: Seq<(Seq<char>, JobView)>) -> Seq<JobView> {
    ordered(job_list(jobs), job_order())
}

fn sorted_jobs(jobs: &StrMap<Job>) -> (r: Vec<Job>)
    ensures
        r.deep_view() == jobs_sorted(jobs.deep_view()),
{
    let ghost all = job_list(jobs.deep_view());
    let ghost before = job_order();
    let n = jobs.len();
    let mut out: Vec<Job> = no_items();
    let mut i: usize = 0;
    assert(all.take(0) =~= Seq::empty());
    while i < n
        invariant
            all == job_list(jobs.deep_view()),
            before == job_order(),
            n == all.len(),
            i <= n,
            out.deep_view() == ordered(all.take(i as int), before),
        decreases n - i,
    {
        let x = jobs.value_at(i);
        let ghost s = out.deep_view();
        assert(all[i as int] == x.deep_view());
        let mut at: usize = 0;
        while at < out.len() && !comes_before(x.id.as_str(), out[at].id.as_str())
            invariant
                at <= out@.len(),
                s == out.deep_view(),
                before == job_order(),
                forall|j: int| 0 <= j < at ==> !before(x.deep_view(), #[trigger] s[j]),
            decreases out@.len() - at,
        {
            assert(s[at as int] == out@[at as int].deep_view());
            at = at + 1;
        }
        proof {
            if at < s.len() {
                assert(s[at as int] == out@[at as int].deep_view());
            }
            place_of_unique(s, x.deep_view(), before, at as int);
            assert(all.take(i + 1).drop_last() =~= all.take(i as int));
            assert(all.take(i + 1).last() == x.deep_view());
        }
        out.insert(at, x.clone());
        assert(out.deep_view() =~= s.insert(at as int, x.deep_view()));
        i = i + 1;
    }
    assert(all.take(i as int) =~= all);
    out
}

/// Every job has its row, and the rows stand in the order of the ids.
pub proof fn jobs_are_sorted(jobs: Seq<(Seq<char>, JobView)>)
    ensures
        jobs_sorted(jobs).to_multiset() == job_list(jobs).to_multiset(),
        forall|i: int, j: int|
            0 <= i < j < jobs_sorted(jobs).len() ==> !text_before(
                (#[trigger] jobs_sorted(jobs)[j]).id,
                (#[trigger] jobs_sorted(jobs)[i]).id,
            ),
{
    let before = job_order();
    assert(is_strict_order(before)) by {
        assert forall|a: JobView| !#[trigger] before(a, a) by {
            text_order_law(a.id, a.id, a.id);
        }
        assert forall|a: JobView, b: JobView, c: JobView| #[trigger] before(a, b) && #[trigger]
            before(b, c) implies before(a, c) by {
            text_order_law(a.id, b.id, c.id);
        }
    }
    ordered_law(job_list(jobs), before);
    let out = jobs_sorted(jobs);
    assert forall|i: int, j: int| 0 <= i < j < out.len() implies !text_before(
        (#[trigger] out[j]).id,
        (#[trigger] out[i]).id,
    ) by {
        assert(!before(out[j], out[i]));
    }
}

/// The rows of the tab: the agents in the order of the roster, and then the
/// jobs.
pub open spec fn page_rows(s: AgentsSnapshotView, now_ms: int) -> Seq<AgentRowView> {
    s.roster.map_values(|a: AgentView| agent_row(a, s)) + jobs_sorted(s.jobs).map_values(
        |j: JobView| job_row(j, s, now_ms),
    )
}

/// What the tab shows at `now_ms`, in milliseconds since the epoch.
pub fn view(snap: &AgentsViewSnapshot<'_>, now_ms: i64) -> (r: AgentsPage)
    requires
        snap.roster@.len() + snap.jobs.deep_view().len() <= usize::MAX,
    ensures
        r.count@ == decimal(snap.roster@.len() + snap.jobs.deep_view().len()) + " tracked"@,
        r.rows.deep_view() == page_rows(snap.model(), now_ms as int),
{
    let ghost s = snap.model();
    let ghost top = s.roster.map_values(|a: AgentView| agent_row(a, s));
    let ghost bottom = jobs_sorted(s.jobs).map_values(|j: JobView| job_row(j, s, now_ms as int));
    let mut rows: Vec<AgentRow> = no_items();
    let mut i: usize = 0;
    while i < snap.roster.len()
        invariant
            s == snap.model(),
            top == s.roster.map_values(|a: AgentView| agent_row(a, s)),
            i <= snap.roster@.len(),
            rows.deep_view() == top.take(i as int),
        decreases snap.roster@.len() - i,
    {
        assert(s.roster[i as int] == snap.roster@[i as int].deep_view());
        push_to(&mut rows, make_agent_row(&snap.roster[i], snap));
        i = i + 1;
        assert(rows.deep_view() =~= top.take(i as int));
    }
    let jobs = sorted_jobs(snap.jobs);
    let mut k: usize = 0;
    assert(rows.deep_view() =~= top + bottom.take(0));
    while k < jobs.len()
        invariant
            s == snap.model(),
            bottom == jobs_sorted(s.jobs).map_values(|j: JobView| job_row(j, s, now_ms as int)),
            jobs.deep_view() == jobs_sorted(s.jobs),
            k <= jobs@.len(),
            rows.deep_view() == top + bottom.take(k as int),
        decreases jobs@.len() - k,
    {
        assert(jobs_sorted(s.jobs)[k as int] == jobs@[k as int].deep_view());
        push_to(&mut rows, make_job_row(&jobs[k], snap, now_ms));
        k = k + 1;
        assert(rows.deep_view() =~= top + bottom.take(k as int));
    }
    assert(bottom.take(k as int) =~= bottom);
    let count = snap.roster.len() + snap.jobs.len();
    AgentsPage { count: cat(usize_text(count).as_str(), " tracked"), rows }
}

// ---------------------------------------------------------------------
// The roster in two
// ---------------------------------------------------------------------

/// The job that a roster entry stands for; none for a chat agent.
pub open spec fn job_of(
    agent: AgentView,
    statuses: Seq<(Seq<char>, AgentStatus)>,
) -> Option<JobView> {
    match agent.kind {
        AgentKind::Main => None,
        AgentKind::Cron => Some(
            JobView {
                id: agent.id,
                display: shortened(agent.id),
                kind: JobKind::Cron,
                status: status_of(statuses, agent.id),
            },
        ),
        AgentKind::Channel => Some(
            JobView {
                id: agent.id,
                display: agent.id,
                kind: JobKind::Channel,
                status: status_of(statuses, agent.id),
            },
        ),
    }
}

/// The jobs among the first `n` roster entries.
pub open spec fn jobs_among(
    roster: Seq<AgentView>,
    statuses: Seq<(Seq<char>, AgentStatus)>,
    n: int,
) -> Seq<(Seq<char>, JobView)>
    decreases n,
{
    if n <= 0 {
        Seq::empty()
    } else {
        let before = jobs_among(roster, statuses, n - 1);
        match job_of(roster[n - 1], statuses) {
            Some(job) => put(before, job.id, job),
            None => before,
        }
    }
}

/// The jobs of a roster: its crons and channels, with their status.
pub fn jobs_of(roster: &Vec<Agent>, statuses: &StrMap<AgentStatus>) -> (r: StrMap<Job>)
    ensures
        r.deep_view() == jobs_among(
            roster.deep_view(),
            statuses.deep_view(),
            roster@.len() as int,
        ),
{
    let ghost all = roster.deep_view();
    let mut r: StrMap<Job> = StrMap::new();
    let mut i: usize = 0;
    while i < roster.len()
        invariant
            all == roster.deep_view(),
            i <= roster@.len(),
            r.deep_view() == jobs_among(all, statuses.deep_view(), i as int),
        decreases roster@.len() - i,
    {
        let agent = &roster[i];
        assert(all[i as int] == agent.deep_view());
        let made = match agent.kind {
            AgentKind::Main => None,
            AgentKind::Cron => Some(Job::cron(agent.id.as_str())),
            AgentKind::Channel => Some(Job::channel(agent.id.as_str())),
        };
        if let Some(job) = made {
            let placed = Job {
                id: job.id,
                display: job.display,
                kind: job.kind,
                status: agent_status(statuses, &agent.id),
            };
            r.insert(agent.id.as_str().to_owned(), placed);
        }
        i = i + 1;
    }
    r
}

/// The chat agents of a roster.
pub open spec fn chat_agents_of(roster: Seq<AgentView>, n: int) -> Seq<AgentView>
    decreases n,
{
    if n <= 0 {
        Seq::empty()
    } else if roster[n - 1].kind == AgentKind::Main {
        chat_agents_of(roster, n - 1).push(roster[n - 1])
    } else {
        chat_agents_of(roster, n - 1)
    }
}

/// The chat agents of a roster, in order.
pub fn chat_agents(roster: &Vec<Agent>) -> (r: Vec<Agent>)
    ensures
        r.deep_view() == chat_agents_of(roster.deep_view(), roster@.len() as int),
{
    let ghost all = roster.deep_view();
    let mut r: Vec<Agent> = no_items();
    let mut i: usize = 0;
    while i < roster.len()
        invariant
            all == roster.deep_view(),
            i <= roster@.len(),
            r.deep_view() == chat_agents_of(all, i as int),
        decreases roster@.len() - i,
    {
        assert(all[i as int] == roster@[i as int].deep_view());
        if roster[i].kind == AgentKind::Main {
            push_to(&mut r, roster[i].clone());
        }
        i = i + 1;
    }
    r
}

} // verus!
