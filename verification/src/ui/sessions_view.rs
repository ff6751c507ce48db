//! The Sessions tab: the list of sessions, newest first, and the detail of
//! the selected one.
//!
//! Sessions are named `agent:<agentId>:<sessionId>`; the prefix is not shown.
use vstd::prelude::*;

use crate::domain::agent::Tint;
use crate::figures::{
    in_largest_unit, largest_unit_text, percent, percent_of, seconds_between, seconds_since,
    short_count, short_count_text,
};
use crate::keyed::{lookup, StrMap, StrSet};
use crate::net::rpc::{SessionInfo, SessionInfoView, SessionUsagePoint, SessionUsagePointView};
use crate::palette::short_key;
use crate::ring::Ring;
use crate::seqs::{is_strict_order, no_items, ordered, ordered_law, place_of_unique, push_to};
use crate::text::{
    cat, cat3, comes_before, decimal, join, joined, same, strip_prefix, text_before,
    text_order_law, u64_text, usize_text,
};
use crate::transcript::{log_to_markdown, markdown};
use crate::ui::chat_bubble::{bubble_row, BubbleRow, BubbleRowView};
use crate::ui::chat_view::{bubble_rows, ChatMessage, ChatMessageView};
use crate::ui::sparkline::{plot, Sparkline, SparklineView, TokenSparkline};

verus! {

/// What the tab is drawn from. Times are in milliseconds since the epoch.
pub struct SessionsViewSnapshot<'a> {
    pub sessions: &'a StrMap<SessionInfo>,
    pub active_session_key: Option<&'a str>,
    pub transcripts: &'a StrMap<Ring<ChatMessage>>,
    /// Sessions whose history has been asked for on this connection.
    pub hydrated: &'a StrSet,
    /// Token usage by session key.
    pub usage: &'a StrMap<Vec<SessionUsagePoint>>,
    pub connected: bool,
}

// ---------------------------------------------------------------------
// Texts
// ---------------------------------------------------------------------

/// `agent:main:main` → `main:main`; other shapes are left as they are.
pub fn display_key(key: &str) -> (r: String)
    ensures
        r@ == short_key(key@),
{
    match strip_prefix(key, "agent:") {
        Some(rest) => rest,
        None => key.to_owned(),
    }
}

/// Token count: `500`, `12.4k`, `2.3M`.
pub fn fmt_tokens(n: i64) -> (r: String)
    ensures
        r@ == short_count(n as int),
{
    short_count_text(n)
}

/// Total and context tokens of a session, as far as they are known, with the
/// share where both are.
pub open spec fn tokens_text(total: Option<i64>, ctx: Option<i64>) -> Seq<char> {
    match (total, ctx) {
        (Some(t), Some(c)) => "tokens: "@ + short_count(t as int) + " / "@ + short_count(c as int)
            + " ("@ + decimal(percent(t as int, c as int)) + "%)"@,
        (Some(t), None) => "tokens: "@ + short_count(t as int),
        (None, Some(c)) => "context: "@ + short_count(c as int),
        (None, None) => "tokens: —"@,
    }
}

/// Total and context tokens of a session.
pub fn tokens_summary(info: &SessionInfo) -> (r: String)
    ensures
        r@ == tokens_text(info.total_tokens, info.context_tokens),
{
    match (info.total_tokens, info.context_tokens) {
        (Some(total), Some(ctx)) => {
            let head = cat("tokens: ", fmt_tokens(total).as_str());
            let counts = cat3(head.as_str(), " / ", fmt_tokens(ctx).as_str());
            let opened = cat3(counts.as_str(), " (", u64_text(percent_of(total, ctx)).as_str());
            cat(opened.as_str(), "%)")
        },
        (Some(total), None) => cat("tokens: ", fmt_tokens(total).as_str()),
        (None, Some(ctx)) => cat("context: ", fmt_tokens(ctx).as_str()),
        (None, None) => "tokens: —".to_owned(),
    }
}

/// How long ago a time was; `now` where it is still to come.
pub open spec fn time_ago(now_ms: int, ms: int) -> Seq<char> {
    match seconds_since(now_ms, ms) {
        Some(secs) => in_largest_unit(secs) + " ago"@,
        None => "now"@,
    }
}

/// How long before `now_ms` the time `ms` was.
pub fn format_time_ago(now_ms: i64, ms: i64) -> (r: String)
    ensures
        r@ == time_ago(now_ms as int, ms as int),
{
    match seconds_between(now_ms, ms) {
        Some(secs) => cat(largest_unit_text(secs).as_str(), " ago"),
        None => "now".to_owned(),
    }
}

/// The freshness badge of a session.
pub open spec fn freshness(now_ms: int, updated: Option<i64>) -> (Seq<char>, Tint) {
    match updated {
        Some(ms) => (time_ago(now_ms, ms as int), Tint::Muted),
        None => ("—"@, Tint::StatusUnknown),
    }
}

// ---------------------------------------------------------------------
// The list
// ---------------------------------------------------------------------

/// Whether one time is newer than another; no time is older than every time.
pub open spec fn newer(a: Option<i64>, b: Option<i64>) -> bool {
    match (a, b) {
        (Some(x), Some(y)) => x > y,
        (Some(_), None) => true,
        _ => false,
    }
}

/// Whether a session stands above another: the newer one first, and of two of
/// one time the one whose key comes first.
pub open spec fn stands_above(a: SessionInfoView, b: SessionInfoView) -> bool {
    newer(a.updated_at_ms, b.updated_at_ms) || (a.updated_at_ms == b.updated_at_ms && text_before(
        a.key,
        b.key,
    ))
}

/// The order of the list.
pub open spec fn list_order() -> spec_fn(SessionInfoView, SessionInfoView) -> bool {
    |a: SessionInfoView, b: SessionInfoView| stands_above(a, b)
}

/// The sessions, without their keys in the map.
pub open spec fn infos(sessions: Seq<(Seq<char>, SessionInfoView)>) -> Seq<SessionInfoView> {
    sessions.map_values(|e: (Seq<char>, SessionInfoView)| e.1)
}

/// The sessions in the order of the list.
pub open spec fn listed(sessions: Seq<(Seq<char>, SessionInfoView)>) -> Seq<SessionInfoView> {
    ordered(infos(sessions), list_order())
}

fn is_above(a: &SessionInfo, b: &SessionInfo) -> (r: bool)
    ensures
        r == stands_above(a.deep_view(), b.deep_view()),
{
    match (a.updated_at_ms, b.updated_at_ms) {
        (Some(x), Some(y)) => x > y || (x == y && comes_before(a.key.as_str(), b.key.as_str())),
        (Some(_), None) => true,
        (None, Some(_)) => false,
        (None, None) => comes_before(a.key.as_str(), b.key.as_str()),
    }
}

/// The sessions in the order of the list: newest first; those without a time
/// at the end, by their keys.
pub fn sorted_sessions(sessions: &StrMap<SessionInfo>) -> (r: Vec<SessionInfo>)
    ensures
        r.deep_view() == listed(sessions.deep_view()),
{
    let ghost all = infos(sessions.deep_view());
    let ghost before = list_order();
    let n = sessions.len();
    let mut out: Vec<SessionInfo> = no_items();
    let mut i: usize = 0;
    assert(all.take(0) =~= Seq::empty());
    while i < n
        invariant
            all == infos(sessions.deep_view()),
            before == list_order(),
            n == all.len(),
            i <= n,
            out.deep_view() == ordered(all.take(i as int), before),
        decreases n - i,
    {
        let x = sessions.value_at(i);
        let ghost s = out.deep_view();
        assert(all[i as int] == x.deep_view());
        let mut at: usize = 0;
        while at < out.len() && !is_above(x, &out[at])
            invariant
                at <= out@.len(),
                s == out.deep_view(),
                before == list_order(),
                forall|j: int| 0 <= j < at ==> !before(x.deep_view(), #[trigger] s[j]),
            decreases out@.len() - at,
        {
            assert(s[at as int] == out@[at as int].deep_view());
            at = at + 1;
        }
        proof {
            if at < s.len() {
                assert(s[at as int] == out@[at as int].deep_view());
            }
            place_of_unique(s, x.deep_view(), before, at as int);
            assert(all.take(i + 1).drop_last() =~= all.take(i as int));
            assert(all.take(i + 1).last() == x.deep_view());
        }
        out.insert(at, x.clone());
        assert(out.deep_view() =~= s.insert(at as int, x.deep_view()));
        i = i + 1;
    }
    assert(all.take(i as int) =~= all);
    out
}

/// The list holds every session, and none stands below one that it belongs
/// above.
pub proof fn list_is_sorted(sessions: Seq<(Seq<char>, SessionInfoView)>)
    ensures
        listed(sessions).to_multiset() == infos(sessions).to_multiset(),
        forall|i: int, j: int|
            0 <= i < j < listed(sessions).len() ==> !stands_above(
                #[trigger] listed(sessions)[j],
                #[trigger] listed(sessions)[i],
            ),
{
    let before = list_order();
    assert(is_strict_order(before)) by {
        assert forall|a: SessionInfoView| !#[trigger] before(a, a) by {
            text_order_law(a.key, a.key, a.key);
        }
        assert forall|a: SessionInfoView, b: SessionInfoView, c: SessionInfoView| #[trigger]
            before(a, b) && #[trigger] before(b, c) implies before(a, c) by {
            text_order_law(a.key, b.key, c.key);
        }
    }
    ordered_law(infos(sessions), before);
    let out = listed(sessions);
    assert forall|i: int, j: int| 0 <= i < j < out.len() implies !stands_above(
        #[trigger] out[j],
        #[trigger] out[i],
    ) by {
        assert(!before(out[j], out[i]));
    }
}

/// One card of the list.
#[derive(Debug)]
pub struct SessionCard {
    pub key: String,
    pub title: String,
    pub model: String,
    pub tokens: String,
    pub freshness: String,
    pub freshness_tint: Tint,
    pub active: bool,
}

/// What [`SessionCard`] holds, as mathematical values.
#[verifier::ext_equal]
pub struct SessionCardView {
    pub key: Seq<char>,
    pub title: Seq<char>,
    pub model: Seq<char>,
    pub tokens: Seq<char>,
    pub freshness: Seq<char>,
    pub freshness_tint: Tint,
    pub active: bool,
}

impl DeepView for SessionCard {
    type V = SessionCardView;

    open spec fn deep_view(&self) -> SessionCardView {
        SessionCardView {
            key: self.key.deep_view(),
            title: self.title.deep_view(),
            model: self.model.deep_view(),
            tokens: self.tokens.deep_view(),
            freshness: self.freshness.deep_view(),
            freshness_tint: self.freshness_tint.deep_view(),
            active: self.active.deep_view(),
        }
    }
}

/// The text of an option, unless it is empty.
pub open spec fn nonempty(s: Option<Seq<char>>) -> Option<Seq<char>> {
    match s {
        Some(t) => if t.len() > 0 {
            Some(t)
        } else {
            None
        },
        None => None,
    }
}

/// The card of a session.
pub open spec fn session_card(
    info: SessionInfoView,
    active_key: Option<Seq<char>>,
    now_ms: int,
) -> SessionCardView {
    SessionCardView {
        key: info.key,
        title: short_key(info.key),
        model: match nonempty(info.model) {
            Some(m) => m,
            None => "—"@,
        },
        tokens: tokens_text(info.total_tokens, info.context_tokens),
        freshness: freshness(now_ms, info.updated_at_ms).0,
        freshness_tint: freshness(now_ms, info.updated_at_ms).1,
        active: active_key == Some(info.key),
    }
}

fn card_of(info: &SessionInfo, active_key: Option<&str>, now_ms: i64) -> (r: SessionCard)
    ensures
        r.deep_view() == session_card(info.deep_view(), active_key.deep_view(), now_ms as int),
{
    let model = match &info.model {
        Some(m) => if m.as_str().is_empty() {
            "—".to_owned()
        } else {
            m.clone()
        },
        None => "—".to_owned(),
    };
    let (freshness, freshness_tint) = match info.updated_at_ms {
        Some(ms) => (format_time_ago(now_ms, ms), Tint::Muted),
        None => ("—".to_owned(), Tint::StatusUnknown),
    };
    let active = match active_key {
        Some(k) => same(info.key.as_str(), k),
        None => false,
    };
    SessionCard {
        key: info.key.clone(),
        title: display_key(info.key.as_str()),
        model,
        tokens: tokens_summary(info),
        freshness,
        freshness_tint,
        active,
    }
}

// ---------------------------------------------------------------------
// The detail
// ---------------------------------------------------------------------

/// The parts of the subtitle of a session: model, thinking level unless it is
/// off, tokens, and age.
pub open spec fn subtitle_parts(info: SessionInfoView, now_ms: int) -> Seq<Seq<char>> {
    (match nonempty(info.model) {
        Some(m) => seq![m],
        None => Seq::empty(),
    }) + (match nonempty(info.thinking_level) {
        Some(t) => if t != "off"@ {
            seq!["thinking: "@ + t]
        } else {
            Seq::empty()
        },
        None => Seq::empty(),
    }) + seq![tokens_text(info.total_tokens, info.context_tokens)] + (match info.updated_at_ms {
        Some(ms) => seq!["updated "@ + time_ago(now_ms, ms as int)],
        None => Seq::empty(),
    })
}

/// The subtitle of a session.
pub fn detail_subtitle(info: &SessionInfo, now_ms: i64) -> (r: String)
    ensures
        r@ == joined(subtitle_parts(info.deep_view(), now_ms as int), " · "@),
{
    let mut parts: Vec<String> = no_items();
    if let Some(m) = &info.model {
        if !m.as_str().is_empty() {
            push_to(&mut parts, m.clone());
        }
    }
    if let Some(t) = &info.thinking_level {
        if !t.as_str().is_empty() && !same(t.as_str(), "off") {
            push_to(&mut parts, cat("thinking: ", t.as_str()));
        }
    }
    push_to(&mut parts, tokens_summary(info));
    if let Some(ms) = info.updated_at_ms {
        push_to(&mut parts, cat("updated ", format_time_ago(now_ms, ms).as_str()));
    }
    assert(parts.deep_view() =~= subtitle_parts(info.deep_view(), now_ms as int));
    join(&parts, " · ")
}

/// The body of the detail.
#[derive(Debug)]
pub enum DetailBody {
    Messages(Vec<BubbleRow>),
    Notice(&'static str),
}

/// What [`DetailBody`] holds, as mathematical values.
#[verifier::ext_equal]
pub enum DetailBodyView {
    Messages(Seq<BubbleRowView>),
    Notice(Seq<char>),
}

impl DeepView for DetailBody {
    type V = DetailBodyView;

    open spec fn deep_view(&self) -> DetailBodyView {
        match *self {
            DetailBody::Messages(a0) => DetailBodyView::Messages(a0.deep_view()),
            DetailBody::Notice(a0) => DetailBodyView::Notice(a0.deep_view()),
        }
    }
}

/// The detail of a session.
#[derive(Debug)]
pub struct SessionDetail {
    pub title: String,
    /// `None` for a session that is not in the list.
    pub subtitle: Option<String>,
    /// The transcript as markdown, where there is one.
    pub copy: Option<String>,
    pub body: DetailBody,
    pub sparkline: Sparkline,
}

/// What [`SessionDetail`] holds, as mathematical values.
#[verifier::ext_equal]
pub struct SessionDetailView {
    pub title: Seq<char>,
    pub subtitle: Option<Seq<char>>,
    pub copy: Option<Seq<char>>,
    pub body: DetailBodyView,
    pub sparkline: SparklineView,
}

impl DeepView for SessionDetail {
    type V = SessionDetailView;

    open spec fn deep_view(&self) -> SessionDetailView {
        SessionDetailView {
            title: self.title.deep_view(),
            subtitle: self.subtitle.deep_view(),
            copy: self.copy.deep_view(),
            body: self.body.deep_view(),
            sparkline: self.sparkline.deep_view(),
        }
    }
}

/// What the tab shows.
#[derive(Debug)]
pub struct SessionsPage {
    pub count: String,
    /// What is said in place of the cards when there are none.
    pub notice: Option<&'static str>,
    pub cards: Vec<SessionCard>,
    /// `None` while no session is selected.
    pub detail: Option<SessionDetail>,
}

/// What is said when no session is selected.
pub const SELECT_PROMPT: &'static str = "Select a session to see its transcript and usage.";

/// The body of a detail: the messages, or what keeps them from being there.
pub open spec fn detail_body(
    transcript: Option<Seq<ChatMessageView>>,
    hydrated: bool,
    connected: bool,
) -> DetailBodyView {
    let loading = if !connected {
        DetailBodyView::Notice("disconnected — reconnect to load transcript"@)
    } else {
        DetailBodyView::Notice("loading transcript…"@)
    };
    match transcript {
        Some(ms) => if ms.len() > 0 {
            DetailBodyView::Messages(ms.map_values(|m: ChatMessageView| bubble_row(m)))
        } else if hydrated {
            DetailBodyView::Notice("session is empty"@)
        } else {
            loading
        },
        None => loading,
    }
}

/// The first session of the list with the key `key`.
pub open spec fn find_info(list: Seq<SessionInfoView>, key: Seq<char>) -> Option<SessionInfoView>
    decreases list.len(),
{
    if list.len() == 0 {
        None
    } else if list[0].key == key {
        Some(list[0])
    } else {
        find_info(list.drop_first(), key)
    }
}

/// The detail of the session with the key `key`.
pub open spec fn session_detail(
    list: Seq<SessionInfoView>,
    key: Seq<char>,
    transcript: Option<Seq<ChatMessageView>>,
    hydrated: bool,
    usage: Option<Seq<SessionUsagePointView>>,
    connected: bool,
    now_ms: int,
) -> SessionDetailView {
    let info = find_info(list, key);
    SessionDetailView {
        title: match info {
            Some(i) => short_key(i.key),
            None => "session "@ + key + " not in list (waiting?)"@,
        },
        subtitle: match info {
            Some(i) => Some(joined(subtitle_parts(i, now_ms), " · "@)),
            None => None,
        },
        copy: match transcript {
            Some(ms) => if ms.len() > 0 {
                Some(markdown(short_key(key), ms))
            } else {
                None
            },
            None => None,
        },
        body: detail_body(transcript, hydrated, connected),
        sparkline: plot(
            match usage {
                Some(u) => u,
                None => Seq::empty(),
            },
            match info {
                Some(i) => i.context_tokens,
                None => None,
            },
        ),
    }
}

fn find_in_list<'a>(list: &'a Vec<SessionInfo>, key: &str) -> (r: Option<&'a SessionInfo>)
    ensures
        match r {
            Some(i) => find_info(list.deep_view(), key@) == Some(i.deep_view()),
            None => find_info(list.deep_view(), key@) is None,
        },
{
    let ghost all = list.deep_view();
    let mut i: usize = 0;
    assert(all.skip(0) =~= all);
    while i < list.len()
        invariant
            all == list.deep_view(),
            i <= list@.len(),
            find_info(all, key@) == find_info(all.skip(i as int), key@),
        decreases list@.len() - i,
    {
        assert(all.skip(i as int)[0] == list@[i as int].deep_view());
        assert(all.skip(i as int).drop_first() =~= all.skip(i + 1));
        if same(list[i].key.as_str(), key) {
            return Some(&list[i]);
        }
        i = i + 1;
    }
    None
}

fn detail_pane(
    list: &Vec<SessionInfo>,
    key: &str,
    snap: &SessionsViewSnapshot<'_>,
    now_ms: i64,
) -> (r: SessionDetail)
    ensures
        r.deep_view() == session_detail(
            list.deep_view(),
            key@,
            lookup(snap.transcripts.deep_view(), key@),
            snap.hydrated.deep_view().contains(key@),
            lookup(snap.usage.deep_view(), key@),
            snap.connected,
            now_ms as int,
        ),
{
    let info = find_in_list(list, key);
    let (title, subtitle, context_budget) = match info {
        Some(i) => (
            display_key(i.key.as_str()),
            Some(detail_subtitle(i, now_ms)),
            i.context_tokens,
        ),
        None => (cat3("session ", key, " not in list (waiting?)"), None, None),
    };
    let transcript = snap.transcripts.get(key);
    let copy = match transcript {
        Some(ms) => if ms.is_empty() {
            None
        } else {
            Some(log_to_markdown(display_key(key).as_str(), ms))
        },
        None => None,
    };
    let hydrated = snap.hydrated.contains(key);
    let loading = if !snap.connected {
        DetailBody::Notice("disconnected — reconnect to load transcript")
    } else {
        DetailBody::Notice("loading transcript…")
    };
    let body = match transcript {
        Some(ms) => if !ms.is_empty() {
            DetailBody::Messages(bubble_rows(ms))
        } else if hydrated {
            DetailBody::Notice("session is empty")
        } else {
            loading
        },
        None => loading,
    };
    let none: Vec<SessionUsagePoint> = no_items();
    let points = match snap.usage.get(key) {
        Some(u) => u,
        None => &none,
    };
    let sparkline = TokenSparkline { points, context_budget }.draw();
    SessionDetail { title, subtitle, copy, body, sparkline }
}

/// What the tab shows at `now_ms`.
pub fn view(snap: &SessionsViewSnapshot<'_>, now_ms: i64) -> (r: SessionsPage)
    ensures
        ({
            let list = listed(snap.sessions.deep_view());
            let key = snap.active_session_key.deep_view();
            &&& r.count@ == decimal(snap.sessions.deep_view().len()) + " tracked"@
            &&& r.notice.deep_view() == (if list.len() == 0 {
                Some("no session data yet — waiting for sessions.list"@)
            } else {
                None
            })
            &&& r.cards.deep_view() == list.map_values(
                |i: SessionInfoView| session_card(i, key, now_ms as int),
            )
            &&& r.detail.deep_view() == (match key {
                Some(k) => Some(
                    session_detail(
                        list,
                        k,
                        lookup(snap.transcripts.deep_view(), k),
                        snap.hydrated.deep_view().contains(k),
                        lookup(snap.usage.deep_view(), k),
                        snap.connected,
                        now_ms as int,
                    ),
                ),
                None => None,
            })
        }),
{
    let entries = sorted_sessions(snap.sessions);
    let ghost list = listed(snap.sessions.deep_view());
    let ghost key = snap.active_session_key.deep_view();
    let mut cards: Vec<SessionCard> = no_items();
    let mut i: usize = 0;
    while i < entries.len()
        invariant
            list == entries.deep_view(),
            key == snap.active_session_key.deep_view(),
            i <= entries@.len(),
            cards.deep_view() == list.take(i as int).map_values(
                |x: SessionInfoView| session_card(x, key, now_ms as int),
            ),
        decreases entries@.len() - i,
    {
        assert(list[i as int] == entries@[i as int].deep_view());
        push_to(&mut cards, card_of(&entries[i], snap.active_session_key, now_ms));
        i = i + 1;
        assert(cards.deep_view() =~= list.take(i as int).map_values(
            |x: SessionInfoView| session_card(x, key, now_ms as int),
        ));
    }
    assert(list.take(i as int) =~= list);
    let notice = if entries.len() == 0 {
        Some("no session data yet — waiting for sessions.list")
    } else {
        None
    };
    let detail = match snap.active_session_key {
        Some(k) => Some(detail_pane(&entries, k, snap, now_ms)),
        None => None,
    };
    SessionsPage {
        count: cat(usize_text(snap.sessions.len()).as_str(), " tracked"),
        notice,
        cards,
        detail,
    }
}

} // verus!
