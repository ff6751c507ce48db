//! The status bar: connection, agent count, active model, age of the last
//! news, context usage, pending approvals and available update.
//!
//! What has a useful destination is clickable: the connection leads to the
//! logs, the agent count to the agents, the context usage to the sessions, the
//! pending approvals to the overview, and the update reconnects.
use vstd::prelude::*;

use crate::app::state::NavItem;
use crate::domain::agent::Tint;
use crate::figures::{
    bare_count, bare_count_text, is_mostly_used, mostly_used,
};
use crate::scene::flourish::{elapsed, since};
use crate::seqs::{no_items, push_to};
use crate::text::{byte_len, cat, cat3, decimal, head, head_bytes, u64_text, usize_text};

verus! {

/// How many bytes of a disconnect reason are shown.
pub const REASON_MAX: usize = 60;

/// What the bar is drawn from. Times are in milliseconds.
pub struct Snapshot<'a> {
    pub connected: bool,
    pub agents_tracked: usize,
    pub last_poll: Option<u64>,
    pub active_model: Option<&'a str>,
    pub last_disconnect: Option<&'a str>,
    /// Token usage of the main session: total and context.
    pub main_usage: Option<(i64, i64)>,
    /// Exec approvals that wait for a decision.
    pub pending_approvals: usize,
    /// Available gateway update: current and latest version.
    pub update: Option<(&'a str, &'a str)>,
}

/// What [`Snapshot`] holds, as mathematical values.
#[verifier::ext_equal]
pub struct SnapshotView {
    pub connected: bool,
    pub agents_tracked: usize,
    pub last_poll: Option<u64>,
    pub active_model: Option<Seq<char>>,
    pub last_disconnect: Option<Seq<char>>,
    pub main_usage: Option<(i64, i64)>,
    pub pending_approvals: usize,
    pub update: Option<(Seq<char>, Seq<char>)>,
}

impl<'a> Snapshot<'a> {
    /// What the bar is drawn from, as mathematical values.
    pub open spec fn model(&self) -> SnapshotView {
        SnapshotView {
            connected: self.connected,
            agents_tracked: self.agents_tracked,
            last_poll: self.last_poll,
            active_model: self.active_model.deep_view(),
            last_disconnect: self.last_disconnect.deep_view(),
            main_usage: self.main_usage,
            pending_approvals: self.pending_approvals,
            update: self.update.deep_view(),
        }
    }
}

/// Where a click on a part of the bar leads.
#[derive(Debug, Clone, Copy, PartialEq, Eq, Structural)]
pub enum Press {
    Go(NavItem),
    Reconnect,
}

impl DeepView for Press {
    type V = Press;

    open spec fn deep_view(&self) -> Press {
        *self
    }
}

/// One part of the bar.
#[derive(Debug)]
pub struct Chunk {
    pub text: String,
    pub tint: Tint,
    /// `None` for what is only read.
    pub press: Option<Press>,
}

/// What [`Chunk`] holds, as mathematical values.
#[verifier::ext_equal]
pub struct ChunkView {
    pub text: Seq<char>,
    pub tint: Tint,
    pub press: Option<Press>,
}

impl DeepView for Chunk {
    type V = ChunkView;

    open spec fn deep_view(&self) -> ChunkView {
        ChunkView {
            text: self.text.deep_view(),
            tint: self.tint.deep_view(),
            press: self.press.deep_view(),
        }
    }
}

/// The bar.
#[derive(Debug)]
pub struct StatusBar {
    pub dot: &'static str,
    pub dot_tint: Tint,
    pub chunks: Vec<Chunk>,
}

/// `s`, or what fits of it into `max` bytes with an ellipsis behind it.
pub open spec fn clipped(s: Seq<char>, max: int) -> Seq<char> {
    if byte_len(s) <= max {
        s
    } else {
        head(s, max).push('…')
    }
}

/// Whether `s` has at most `max` bytes, or a character of it ends at byte
/// `max`.
pub open spec fn cuts_cleanly(s: Seq<char>, max: int) -> bool {
    byte_len(s) <= max || byte_len(head(s, max)) == max
}

/// Cuts `s` after `max` bytes, with an ellipsis in place of what goes.
pub fn truncate(s: &str, max: usize) -> (r: String)
    requires
        cuts_cleanly(s@, max as int),
    ensures
        r@ == clipped(s@, max as int),
        byte_len(s@) > max ==> byte_len(r@.drop_last()) == max,
{
    if s.as_bytes().len() <= max {
        return s.to_owned();
    }
    let mut out = head_bytes(s, max).to_owned();
    out.push('…');
    assert(out@.drop_last() =~= head(s@, max as int));
    out
}

/// Whether the disconnect reason that is shown, if any, can be cut where the
/// bar cuts it.
pub open spec fn reason_cuts_cleanly(connected: bool, reason: Option<Seq<char>>) -> bool {
    !connected ==> (reason matches Some(r) ==> cuts_cleanly(r, REASON_MAX as int))
}

/// The dot and the text for the connection.
pub open spec fn connection(connected: bool, last_disconnect: Option<Seq<char>>) -> (
    Seq<char>,
    Seq<char>,
) {
    if connected {
        ("●"@, "connected"@)
    } else {
        match last_disconnect {
            Some(reason) => ("○"@, "disconnected: "@ + clipped(reason, REASON_MAX as int)),
            None => ("○"@, "connecting…"@),
        }
    }
}

/// The dot and the text for the connection.
pub fn connection_line(snap: &Snapshot<'_>) -> (r: (&'static str, String))
    requires
        reason_cuts_cleanly(snap.connected, snap.last_disconnect.deep_view()),
    ensures
        (r.0@, r.1@) == connection(snap.connected, snap.last_disconnect.deep_view()),
{
    if snap.connected {
        ("●", "connected".to_owned())
    } else {
        match snap.last_disconnect {
            Some(reason) => ("○", cat("disconnected: ", truncate(reason, REASON_MAX).as_str())),
            None => ("○", "connecting…".to_owned()),
        }
    }
}

/// Short-form token counts: `420`, `34K`, `1.2M`.
pub fn compact_count(n: i64) -> (r: String)
    ensures
        r@ == bare_count(n as int),
{
    bare_count_text(n)
}

/// An age in seconds, minutes, or hours.
pub open spec fn age(secs: nat) -> Seq<char> {
    if secs < 60 {
        decimal(secs) + "s ago"@
    } else if secs < 3600 {
        decimal(secs / 60) + "m ago"@
    } else {
        decimal(secs / 3600) + "h ago"@
    }
}

/// How long ago something was, in seconds, minutes, or hours.
pub fn format_age(ms: u64) -> (r: String)
    ensures
        r@ == age((ms / 1000) as nat),
{
    let secs = ms / 1000;
    if secs < 60 {
        cat(u64_text(secs).as_str(), "s ago")
    } else if secs < 3600 {
        cat(u64_text(secs / 60).as_str(), "m ago")
    } else {
        cat(u64_text(secs / 3600).as_str(), "h ago")
    }
}

/// The tint of the context usage: a warning from four fifths on, an alarm when
/// the context is full.
pub open spec fn usage_tint(total: int, ctx: int) -> Tint {
    if ctx > 0 && total >= ctx {
        Tint::StatusDown
    } else if ctx > 0 && mostly_used(total, ctx) {
        Tint::StatusDegraded
    } else {
        Tint::Muted
    }
}

/// At most one part.
pub open spec fn maybe(c: Option<ChunkView>) -> Seq<ChunkView> {
    match c {
        Some(c) => seq![c],
        None => Seq::empty(),
    }
}

/// The parts of the bar, from the left.
pub open spec fn bar_chunks(s: SnapshotView, now: u64) -> Seq<ChunkView> {
    seq![
        ChunkView {
            text: connection(s.connected, s.last_disconnect).1,
            tint: Tint::Foreground,
            press: Some(Press::Go(NavItem::Logs)),
        },
        ChunkView {
            text: decimal(s.agents_tracked as nat) + " agents tracked"@,
            tint: Tint::Muted,
            press: Some(Press::Go(NavItem::Agents)),
        },
    ] + maybe(
        match s.active_model {
            Some(m) => Some(ChunkView { text: "· "@ + m, tint: Tint::Muted, press: None }),
            None => None,
        },
    ) + maybe(
        match s.last_poll {
            Some(t) => Some(
                ChunkView {
                    text: "· last poll "@ + age((elapsed(now, t) / 1000) as nat),
                    tint: Tint::Muted,
                    press: None,
                },
            ),
            None => None,
        },
    ) + maybe(
        match s.main_usage {
            Some((total, ctx)) => Some(
                ChunkView {
                    text: "· ctx "@ + bare_count(total as int) + "/"@ + bare_count(ctx as int),
                    tint: usage_tint(total as int, ctx as int),
                    press: Some(Press::Go(NavItem::Sessions)),
                },
            ),
            None => None,
        },
    ) + maybe(
        if s.pending_approvals > 0 {
            Some(
                ChunkView {
                    text: "· "@ + decimal(s.pending_approvals as nat) + " approval(s) pending"@,
                    tint: Tint::StatusDegraded,
                    press: Some(Press::Go(NavItem::Overview)),
                },
            )
        } else {
            None
        },
    ) + maybe(
        match s.update {
            Some((current, latest)) => Some(
                ChunkView {
                    text: "· update "@ + current + " → "@ + latest,
                    tint: Tint::StatusDegraded,
                    press: Some(Press::Reconnect),
                },
            ),
            None => None,
        },
    )
}

/// The bar at `now`.
pub fn view(snap: Snapshot<'_>, now: u64) -> (r: StatusBar)
    requires
        reason_cuts_cleanly(snap.connected, snap.last_disconnect.deep_view()),
    ensures
        r.dot@ == connection(snap.connected, snap.last_disconnect.deep_view()).0,
        r.dot_tint == (if snap.connected {
            Tint::TerminalGreen
        } else {
            Tint::Muted
        }),
        r.chunks.deep_view() == bar_chunks(snap.model(), now),
{
    let (dot, label) = connection_line(&snap);
    let dot_tint = if snap.connected {
        Tint::TerminalGreen
    } else {
        Tint::Muted
    };
    let mut chunks: Vec<Chunk> = no_items();
    push_to(
        &mut chunks,
        Chunk { text: label, tint: Tint::Foreground, press: Some(Press::Go(NavItem::Logs)) },
    );
    push_to(
        &mut chunks,
        Chunk {
            text: cat(usize_text(snap.agents_tracked).as_str(), " agents tracked"),
            tint: Tint::Muted,
            press: Some(Press::Go(NavItem::Agents)),
        },
    );
    if let Some(model) = snap.active_model {
        push_to(&mut chunks, Chunk { text: cat("· ", model), tint: Tint::Muted, press: None });
    }
    if let Some(t) = snap.last_poll {
        let text = cat("· last poll ", format_age(since(now, t)).as_str());
        push_to(&mut chunks, Chunk { text, tint: Tint::Muted, press: None });
    }
    if let Some((total, ctx)) = snap.main_usage {
        let tint = if ctx > 0 && total >= ctx {
            Tint::StatusDown
        } else if ctx > 0 && is_mostly_used(total, ctx) {
            Tint::StatusDegraded
        } else {
            Tint::Muted
        };
        let used = cat("· ctx ", compact_count(total).as_str());
        let text = cat3(used.as_str(), "/", compact_count(ctx).as_str());
        push_to(&mut chunks, Chunk { text, tint, press: Some(Press::Go(NavItem::Sessions)) });
    }
    if snap.pending_approvals > 0 {
        let text = cat3("· ", usize_text(snap.pending_approvals).as_str(), " approval(s) pending");
        push_to(
            &mut chunks,
            Chunk { text, tint: Tint::StatusDegraded, press: Some(Press::Go(NavItem::Overview)) },
        );
    }
    if let Some((current, latest)) = snap.update {
        let text = cat3(cat("· update ", current).as_str(), " → ", latest);
        push_to(
            &mut chunks,
            Chunk { text, tint: Tint::StatusDegraded, press: Some(Press::Reconnect) },
        );
    }
    assert(chunks.deep_view() =~= bar_chunks(snap.model(), now));
    StatusBar { dot, dot_tint, chunks }
}

} // verus!
