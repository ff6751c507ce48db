//! Command palette: the action catalog, the fuzzy scorer and the ranking.
use vstd::prelude::*;
use vstd::utf8::{
    encode_scalar, encode_utf8, last_continuation_byte, leading_byte_width_1, leading_byte_width_2,
    leading_byte_width_3, leading_byte_width_4, second_last_continuation_byte,
    third_last_continuation_byte,
};

use crate::app::NavItem;
use crate::domain::agent::{AgentId, AgentKind};
use crate::keyed::{has_key, lookup, StrMap};
use crate::net::rpc::{
    AgentInfo, AgentInfoView, CronState, CronStateView, SessionInfo, SessionInfoView,
};
use crate::seqs::{filter_map_step, push_to};
use crate::text::{cat, has_prefix, lower, lowered, same, strip_prefix, trim, trimmed};

verus! {

/// A thing the operator can invoke via the palette.
#[derive(Debug, PartialEq)]
pub enum PaletteAction {
    Nav(NavItem),
    RunCron(AgentId),
    ChatWithAgent(AgentId),
    OpenSession(String),
    ResetMainSession(AgentId),
}

/// What [`PaletteAction`] holds, as mathematical values.
#[verifier::ext_equal]
pub enum PaletteActionView {
    Nav(NavItem),
    RunCron(Seq<char>),
    ChatWithAgent(Seq<char>),
    OpenSession(Seq<char>),
    ResetMainSession(Seq<char>),
}

impl DeepView for PaletteAction {
    type V = PaletteActionView;

    open spec fn deep_view(&self) -> PaletteActionView {
        match *self {
            PaletteAction::Nav(a0) => PaletteActionView::Nav(a0.deep_view()),
            PaletteAction::RunCron(a0) => PaletteActionView::RunCron(a0.deep_view()),
            PaletteAction::ChatWithAgent(a0) => PaletteActionView::ChatWithAgent(a0.deep_view()),
            PaletteAction::OpenSession(a0) => PaletteActionView::OpenSession(a0.deep_view()),
            PaletteAction::ResetMainSession(a0) => PaletteActionView::ResetMainSession(a0.deep_view()),
        }
    }
}

impl Clone for PaletteAction {
    fn clone(&self) -> (r: PaletteAction)
        ensures
            r.deep_view() == self.deep_view(),
    {
        match self {
            PaletteAction::Nav(a0) => PaletteAction::Nav(*a0),
            PaletteAction::RunCron(a0) => PaletteAction::RunCron(a0.clone()),
            PaletteAction::ChatWithAgent(a0) => PaletteAction::ChatWithAgent(a0.clone()),
            PaletteAction::OpenSession(a0) => PaletteAction::OpenSession(a0.clone()),
            PaletteAction::ResetMainSession(a0) => PaletteAction::ResetMainSession(a0.clone()),
        }
    }
}

/// Grouping for rendering while nothing is typed.
#[derive(Debug, Clone, Copy, PartialEq, Eq, Hash, Structural)]
pub enum PaletteGroup {
    Navigation,
    Chat,
    Crons,
    Sessions,
    Actions,
}

impl DeepView for PaletteGroup {
    type V = PaletteGroup;

    open spec fn deep_view(&self) -> PaletteGroup {
        *self
    }
}

impl PaletteGroup {
    /// The group's heading.
    pub open spec fn name(self) -> Seq<char> {
        match self {
            PaletteGroup::Navigation => "Navigation"@,
            PaletteGroup::Chat => "Chat"@,
            PaletteGroup::Crons => "Crons"@,
            PaletteGroup::Sessions => "Sessions"@,
            PaletteGroup::Actions => "Actions"@,
        }
    }

    /// The group's place: navigation first, destructive actions last.
    pub open spec fn order(self) -> u8 {
        match self {
            PaletteGroup::Navigation => 0,
            PaletteGroup::Chat => 1,
            PaletteGroup::Crons => 2,
            PaletteGroup::Sessions => 3,
            PaletteGroup::Actions => 4,
        }
    }

    pub fn label(self) -> (r: &'static str)
        ensures
            r@ == self.name(),
    {
        match self {
            PaletteGroup::Navigation => "Navigation",
            PaletteGroup::Chat => "Chat",
            PaletteGroup::Crons => "Crons",
            PaletteGroup::Sessions => "Sessions",
            PaletteGroup::Actions => "Actions",
        }
    }

    pub fn sort_key(self) -> (r: u8)
        ensures
            r == self.order(),
            r <= 4,
    {
        match self {
            PaletteGroup::Navigation => 0,
            PaletteGroup::Chat => 1,
            PaletteGroup::Crons => 2,
            PaletteGroup::Sessions => 3,
            PaletteGroup::Actions => 4,
        }
    }
}

/// One row of the palette.
#[derive(Debug, PartialEq)]
pub struct PaletteEntry {
    pub action: PaletteAction,
    /// The label that is matched and shown.
    pub label: String,
    /// Optional second line.
    pub subtitle: Option<String>,
    pub group: PaletteGroup,
}

/// What [`PaletteEntry`] holds, as mathematical values.
#[verifier::ext_equal]
pub struct PaletteEntryView {
    pub action: PaletteActionView,
    pub label: Seq<char>,
    pub subtitle: Option<Seq<char>>,
    pub group: PaletteGroup,
}

impl DeepView for PaletteEntry {
    type V = PaletteEntryView;

    open spec fn deep_view(&self) -> PaletteEntryView {
        PaletteEntryView {
            action: self.action.deep_view(),
            label: self.label.deep_view(),
            subtitle: self.subtitle.deep_view(),
            group: self.group.deep_view(),
        }
    }
}

impl Clone for PaletteEntry {
    fn clone(&self) -> (r: PaletteEntry)
        ensures
            r.deep_view() == self.deep_view(),
    {
        PaletteEntry {
            action: self.action.clone(),
            label: self.label.clone(),
            subtitle: self.subtitle.clone(),
            group: self.group,
        }
    }
}

/// What the catalog is built from.
pub struct PaletteContext<'a> {
    pub chat_agents: &'a Vec<AgentInfo>,
    pub cron_details: &'a StrMap<CronState>,
    pub cron_ids: &'a StrMap<String>,
    pub sessions: &'a StrMap<SessionInfo>,
    pub agent_kind: &'a StrMap<AgentKind>,
}

// ---------------------------------------------------------------------
// The catalog
// ---------------------------------------------------------------------

/// The row for a tab.
pub open spec fn nav_entry(item: NavItem, name: Seq<char>) -> PaletteEntryView {
    PaletteEntryView {
        action: PaletteActionView::Nav(item),
        label: "Go to "@ + name,
        subtitle: None,
        group: PaletteGroup::Navigation,
    }
}

/// The rows for the tabs.
pub open spec fn nav_entries() -> Seq<PaletteEntryView> {
    seq![
        nav_entry(NavItem::Overview, "Overview"@),
        nav_entry(NavItem::Chat, "Chat"@),
        nav_entry(NavItem::Agents, "Agents"@),
        nav_entry(NavItem::Sessions, "Sessions"@),
        nav_entry(NavItem::Logs, "Logs"@),
        nav_entry(NavItem::Settings, "Settings"@),
    ]
}

/// The row for chatting with an agent; the id goes below the label where the
/// label does not show it.
pub open spec fn chat_entry(info: AgentInfoView) -> PaletteEntryView {
    let display = info.shown_with_emoji();
    PaletteEntryView {
        action: PaletteActionView::ChatWithAgent(info.id),
        label: "Chat with "@ + display,
        subtitle: if display == info.id {
            None
        } else {
            Some(info.id)
        },
        group: PaletteGroup::Chat,
    }
}

pub open spec fn chat_entries(agents: Seq<AgentInfoView>) -> Seq<PaletteEntryView> {
    Seq::new(agents.len(), |i: int| chat_entry(agents[i]))
}

/// The row for running a cron; none without a known UUID, which running it
/// takes.
pub open spec fn cron_entry(
    cron: (Seq<char>, CronStateView),
    ids: Seq<(Seq<char>, Seq<char>)>,
) -> Option<PaletteEntryView> {
    if has_key(ids, cron.0) {
        Some(
            PaletteEntryView {
                action: PaletteActionView::RunCron(cron.0),
                label: "Run cron "@ + cron.0,
                subtitle: match cron.1.last_status {
                    Some(s) => Some("last: "@ + s),
                    None => if cron.1.next_run_at_ms is Some {
                        Some("scheduled"@)
                    } else {
                        None
                    },
                },
                group: PaletteGroup::Crons,
            },
        )
    } else {
        None
    }
}

pub open spec fn cron_entries(
    crons: Seq<(Seq<char>, CronStateView)>,
    ids: Seq<(Seq<char>, Seq<char>)>,
) -> Seq<PaletteEntryView> {
    crons.filter_map(|c: (Seq<char>, CronStateView)| cron_entry(c, ids))
}

/// A session key without its `agent:` prefix.
pub open spec fn short_key(key: Seq<char>) -> Seq<char> {
    if has_prefix(key, "agent:"@) {
        key.skip("agent:"@.len() as int)
    } else {
        key
    }
}

/// The row for opening a session.
pub open spec fn session_entry(s: (Seq<char>, SessionInfoView)) -> PaletteEntryView {
    PaletteEntryView {
        action: PaletteActionView::OpenSession(s.0),
        label: "Open session "@ + short_key(s.0),
        subtitle: match s.1.model {
            Some(m) => if m.len() == 0 {
                None
            } else {
                Some(m)
            },
            None => None,
        },
        group: PaletteGroup::Sessions,
    }
}

pub open spec fn session_entries(sessions: Seq<(Seq<char>, SessionInfoView)>) -> Seq<
    PaletteEntryView,
> {
    Seq::new(sessions.len(), |i: int| session_entry(sessions[i]))
}

/// The row for resetting an agent's session; only for main agents.
pub open spec fn reset_entry(
    info: AgentInfoView,
    kinds: Seq<(Seq<char>, AgentKind)>,
) -> Option<PaletteEntryView> {
    if lookup(kinds, info.id) == Some(AgentKind::Main) || info.id == "main"@ {
        Some(
            PaletteEntryView {
                action: PaletteActionView::ResetMainSession(info.id),
                label: "Reset session for "@ + info.shown_with_emoji(),
                subtitle: Some("destructive — two clicks to confirm"@),
                group: PaletteGroup::Actions,
            },
        )
    } else {
        None
    }
}

pub open spec fn reset_entries(
    agents: Seq<AgentInfoView>,
    kinds: Seq<(Seq<char>, AgentKind)>,
) -> Seq<PaletteEntryView> {
    agents.filter_map(|i: AgentInfoView| reset_entry(i, kinds))
}

/// The whole catalog.
pub open spec fn catalog(
    agents: Seq<AgentInfoView>,
    crons: Seq<(Seq<char>, CronStateView)>,
    ids: Seq<(Seq<char>, Seq<char>)>,
    sessions: Seq<(Seq<char>, SessionInfoView)>,
    kinds: Seq<(Seq<char>, AgentKind)>,
) -> Seq<PaletteEntryView> {
    nav_entries() + chat_entries(agents) + cron_entries(crons, ids) + session_entries(sessions)
        + reset_entries(agents, kinds)
}

fn add_nav(out: &mut Vec<PaletteEntry>, item: NavItem, name: &str)
    ensures
        final(out).deep_view() == old(out).deep_view().push(nav_entry(item, name@)),
{
    push_to(
        out,
        PaletteEntry {
            action: PaletteAction::Nav(item),
            label: cat("Go to ", name),
            subtitle: None,
            group: PaletteGroup::Navigation,
        },
    );
}

fn add_chats(out: &mut Vec<PaletteEntry>, agents: &Vec<AgentInfo>)
    ensures
        final(out).deep_view() == old(out).deep_view() + chat_entries(agents.deep_view()),
{
    let ghost start = out.deep_view();
    let ghost all = agents.deep_view();
    let mut i: usize = 0;
    assert(chat_entries(all).take(0) =~= Seq::empty());
    assert(start =~= start + chat_entries(all).take(0));
    while i < agents.len()
        invariant
            i <= agents@.len(),
            all == agents.deep_view(),
            out.deep_view() == start + chat_entries(all).take(i as int),
        decreases agents@.len() - i,
    {
        let info = &agents[i];
        assert(all[i as int] == info.deep_view());
        let display = info.display_with_emoji();
        let subtitle = if same(display.as_str(), info.id.as_str()) {
            None
        } else {
            Some(info.id.clone())
        };
        push_to(
            out,
            PaletteEntry {
                action: PaletteAction::ChatWithAgent(AgentId::new(info.id.as_str())),
                label: cat("Chat with ", display.as_str()),
                subtitle,
                group: PaletteGroup::Chat,
            },
        );
        assert(chat_entries(all).take(i + 1) =~= chat_entries(all).take(i as int).push(
            chat_entry(all[i as int]),
        ));
        i = i + 1;
        assert(out.deep_view() =~= start + chat_entries(all).take(i as int));
    }
    assert(chat_entries(all).take(i as int) =~= chat_entries(all));
}

fn add_crons(out: &mut Vec<PaletteEntry>, crons: &StrMap<CronState>, ids: &StrMap<String>)
    ensures
        final(out).deep_view() == old(out).deep_view() + cron_entries(
            crons.deep_view(),
            ids.deep_view(),
        ),
{
    let ghost start = out.deep_view();
    let ghost all = crons.deep_view();
    let ghost known = ids.deep_view();
    let ghost f = |c: (Seq<char>, CronStateView)| cron_entry(c, known);
    let mut i: usize = 0;
    assert(all.take(0).filter_map(f) =~= Seq::empty());
    assert(start =~= start + all.take(0).filter_map(f));
    let n = crons.len();
    while i < n
        invariant
            i <= n,
            n == all.len(),
            all == crons.deep_view(),
            known == ids.deep_view(),
            f == (|c: (Seq<char>, CronStateView)| cron_entry(c, known)),
            out.deep_view() == start + all.take(i as int).filter_map(f),
        decreases n - i,
    {
        let id = crons.key_at(i);
        let state = crons.value_at(i);
        proof {
            filter_map_step(all, i as int, f);
        }
        assert(all[i as int] == (id@, state.deep_view()));
        if ids.contains_key(id.as_str()) {
            let subtitle = match &state.last_status {
                Some(s) => Some(cat("last: ", s.as_str())),
                None => if state.next_run_at_ms.is_some() {
                    Some("scheduled".to_owned())
                } else {
                    None
                },
            };
            push_to(
                out,
                PaletteEntry {
                    action: PaletteAction::RunCron(AgentId::new(id.as_str())),
                    label: cat("Run cron ", id.as_str()),
                    subtitle,
                    group: PaletteGroup::Crons,
                },
            );
        }
        i = i + 1;
        assert(out.deep_view() =~= start + all.take(i as int).filter_map(f));
    }
    assert(all.take(i as int) =~= all);
}

fn add_sessions(out: &mut Vec<PaletteEntry>, sessions: &StrMap<SessionInfo>)
    ensures
        final(out).deep_view() == old(out).deep_view() + session_entries(sessions.deep_view()),
{
    let ghost start = out.deep_view();
    let ghost all = sessions.deep_view();
    let mut i: usize = 0;
    assert(session_entries(all).take(0) =~= Seq::empty());
    assert(start =~= start + session_entries(all).take(0));
    let n = sessions.len();
    while i < n
        invariant
            i <= n,
            n == all.len(),
            all == sessions.deep_view(),
            out.deep_view() == start + session_entries(all).take(i as int),
        decreases n - i,
    {
        let key = sessions.key_at(i);
        let info = sessions.value_at(i);
        assert(all[i as int] == (key@, info.deep_view()));
        let short = match strip_prefix(key.as_str(), "agent:") {
            Some(rest) => rest,
            None => key.clone(),
        };
        let subtitle = match &info.model {
            Some(m) => if m.as_str().is_empty() {
                None
            } else {
                Some(m.clone())
            },
            None => None,
        };
        push_to(
            out,
            PaletteEntry {
                action: PaletteAction::OpenSession(key.clone()),
                label: cat("Open session ", short.as_str()),
                subtitle,
                group: PaletteGroup::Sessions,
            },
        );
        assert(session_entries(all).take(i + 1) =~= session_entries(all).take(i as int).push(
            session_entry(all[i as int]),
        ));
        i = i + 1;
        assert(out.deep_view() =~= start + session_entries(all).take(i as int));
    }
    assert(session_entries(all).take(i as int) =~= session_entries(all));
}

fn add_resets(out: &mut Vec<PaletteEntry>, agents: &Vec<AgentInfo>, kinds: &StrMap<AgentKind>)
    ensures
        final(out).deep_view() == old(out).deep_view() + reset_entries(
            agents.deep_view(),
            kinds.deep_view(),
        ),
{
    let ghost start = out.deep_view();
    let ghost all = agents.deep_view();
    let ghost known = kinds.deep_view();
    let ghost f = |i: AgentInfoView| reset_entry(i, known);
    let mut i: usize = 0;
    assert(all.take(0).filter_map(f) =~= Seq::empty());
    assert(start =~= start + all.take(0).filter_map(f));
    while i < agents.len()
        invariant
            i <= agents@.len(),
            all == agents.deep_view(),
            known == kinds.deep_view(),
            f == (|i: AgentInfoView| reset_entry(i, known)),
            out.deep_view() == start + all.take(i as int).filter_map(f),
        decreases agents@.len() - i,
    {
        let info = &agents[i];
        assert(all[i as int] == info.deep_view());
        proof {
            filter_map_step(all, i as int, f);
        }
        let listed = match kinds.get(info.id.as_str()) {
            Some(k) => *k == AgentKind::Main,
            None => false,
        };
        if listed || same(info.id.as_str(), "main") {
            let display = info.display_with_emoji();
            push_to(
                out,
                PaletteEntry {
                    action: PaletteAction::ResetMainSession(AgentId::new(info.id.as_str())),
                    label: cat("Reset session for ", display.as_str()),
                    subtitle: Some("destructive — two clicks to confirm".to_owned()),
                    group: PaletteGroup::Actions,
                },
            );
        }
        i = i + 1;
        assert(out.deep_view() =~= start + all.take(i as int).filter_map(f));
    }
    assert(all.take(i as int) =~= all);
}

/// Builds the full action catalog: tabs, chats, crons that can be run,
/// sessions, and session resets.
pub fn build_entries(ctx: PaletteContext<'_>) -> (r: Vec<PaletteEntry>)
    ensures
        r.deep_view() == catalog(
            ctx.chat_agents.deep_view(),
            ctx.cron_details.deep_view(),
            ctx.cron_ids.deep_view(),
            ctx.sessions.deep_view(),
            ctx.agent_kind.deep_view(),
        ),
{
    let mut out: Vec<PaletteEntry> = Vec::new();
    add_nav(&mut out, NavItem::Overview, "Overview");
    add_nav(&mut out, NavItem::Chat, "Chat");
    add_nav(&mut out, NavItem::Agents, "Agents");
    add_nav(&mut out, NavItem::Sessions, "Sessions");
    add_nav(&mut out, NavItem::Logs, "Logs");
    add_nav(&mut out, NavItem::Settings, "Settings");
    assert(out.deep_view() =~= nav_entries());
    add_chats(&mut out, ctx.chat_agents);
    add_crons(&mut out, ctx.cron_details, ctx.cron_ids);
    add_sessions(&mut out, ctx.sessions);
    add_resets(&mut out, ctx.chat_agents, ctx.agent_kind);
    out
}

// ---------------------------------------------------------------------
// The scorer
// ---------------------------------------------------------------------

/// ASCII lower case of a byte.
pub open spec fn lower_byte(b: u8) -> u8 {
    if 65 <= b <= 90 {
        (b + 32) as u8
    } else {
        b
    }
}

pub open spec fn lower_bytes(s: Seq<u8>) -> Seq<u8> {
    Seq::new(s.len(), |i: int| lower_byte(s[i]))
}

/// Whether `b` is an ASCII letter or digit.
pub open spec fn is_alphanumeric(b: u8) -> bool {
    48 <= b <= 57 || 65 <= b <= 90 || 97 <= b <= 122
}

/// Whether a word starts at `i`: at the beginning, or behind a byte that is
/// no letter or digit.
pub open spec fn boundary(t: Seq<u8>, i: int) -> bool {
    i == 0 || !is_alphanumeric(t[i - 1])
}

/// Whether `q` stands in `t` at `i`.
pub open spec fn stands_at(t: Seq<u8>, q: Seq<u8>, i: int) -> bool {
    0 <= i && i + q.len() <= t.len() && t.subrange(i, i + q.len()) == q
}

/// The first position from `i` on at which `q` stands in `t`.
pub open spec fn find_from(t: Seq<u8>, q: Seq<u8>, i: int) -> Option<int>
    decreases t.len() + 1 - i,
{
    if i < 0 || i + q.len() > t.len() {
        None
    } else if stands_at(t, q, i) {
        Some(i)
    } else {
        find_from(t, q, i + 1)
    }
}

/// The bonus for a small number: what it lacks to 256.
pub open spec fn nearness(n: int) -> u32 {
    let k = (n as usize) as u32;
    if k < 256 {
        (256 - k) as u32
    } else {
        0
    }
}

pub open spec fn saturating(a: int) -> u32 {
    if a > u32::MAX {
        u32::MAX
    } else {
        a as u32
    }
}

/// The first position from `i` on at which `t` holds `b`; `t.len()` if none.
pub open spec fn next_byte(t: Seq<u8>, b: u8, i: int) -> int
    decreases t.len() - i,
{
    if i >= t.len() {
        t.len() as int
    } else if t[i] == b {
        i
    } else {
        next_byte(t, b, i + 1)
    }
}

/// The score so far with one more byte found at `at`: more for one right
/// behind the last, and more for one that starts a word.
pub open spec fn hit(t: Seq<u8>, at: int, score: u32, last: Option<int>) -> u32 {
    let a = if last == Some(at - 1) {
        saturating(score + 10)
    } else {
        score
    };
    if boundary(t, at) {
        saturating(a + 20)
    } else {
        a
    }
}

/// The score of finding the bytes of `q` in `t` from `i` on, one after the
/// other; none when one is missing.
pub open spec fn scattered(t: Seq<u8>, q: Seq<u8>, i: int, score: u32, last: Option<int>) -> Option<
    u32,
>
    decreases q.len(),
{
    if q.len() == 0 {
        Some(score)
    } else {
        let at = next_byte(t, q[0], i);
        if at >= t.len() {
            None
        } else {
            scattered(t, q.drop_first(), at + 1, hit(t, at, score, last), Some(at))
        }
    }
}

/// How well `q` matches `t`, both in lower case.
pub open spec fn match_score(q: Seq<u8>, t: Seq<u8>) -> Option<u32> {
    if q.len() == 0 {
        Some(0)
    } else if q == t {
        Some(10_000)
    } else if stands_at(t, q, 0) {
        Some((5_000 + nearness(t.len() as int)) as u32)
    } else {
        match find_from(t, q, 0) {
            Some(pos) => Some(
                (2_000 + (if boundary(t, pos) {
                    500int
                } else {
                    0int
                }) + nearness(pos)) as u32,
            ),
            None => scattered(t, q, 0, 100, None),
        }
    }
}

/// How well a query matches a label; none when it does not match at all.
pub open spec fn score_of(query: Seq<char>, target: Seq<char>) -> Option<u32> {
    match_score(lower_bytes(encode_utf8(query)), lower_bytes(encode_utf8(target)))
}

fn lower_of(s: &str) -> (r: Vec<u8>)
    ensures
        r@ == lower_bytes(encode_utf8(s@)),
{
    let bytes = s.as_bytes();
    let mut out: Vec<u8> = Vec::new();
    let mut i: usize = 0;
    while i < bytes.len()
        invariant
            i <= bytes@.len(),
            bytes@ == encode_utf8(s@),
            out@.len() == i,
            forall|k: int| 0 <= k < i ==> out@[k] == lower_byte(bytes@[k]),
        decreases bytes@.len() - i,
    {
        let b = bytes[i];
        if 65 <= b && b <= 90 {
            out.push(b + 32);
        } else {
            out.push(b);
        }
        i = i + 1;
    }
    assert(out@ =~= lower_bytes(encode_utf8(s@)));
    out
}

/// Whether a word starts at `idx`.
pub fn is_word_boundary(bytes: &Vec<u8>, idx: usize) -> (r: bool)
    requires
        idx <= bytes@.len(),
    ensures
        r == boundary(bytes@, idx as int),
{
    if idx == 0 {
        return true;
    }
    let b = bytes[idx - 1];
    !((48 <= b && b <= 57) || (65 <= b && b <= 90) || (97 <= b && b <= 122))
}

fn stands_here(t: &Vec<u8>, q: &Vec<u8>, i: usize) -> (r: bool)
    ensures
        r == stands_at(t@, q@, i as int),
{
    if i > t.len() || q.len() > t.len() - i {
        return false;
    }
    let mut k: usize = 0;
    while k < q.len()
        invariant
            i + q@.len() <= t.len(),
            k <= q@.len(),
            forall|j: int| 0 <= j < k ==> t@[i + j] == q@[j],
        decreases q@.len() - k,
    {
        if t[i + k] != q[k] {
            assert(t@.subrange(i as int, i + q@.len())[k as int] != q@[k as int]);
            return false;
        }
        k = k + 1;
    }
    assert(t@.subrange(i as int, i + q@.len()) =~= q@);
    true
}

/// The first position at which `needle` stands in `haystack`; none for an
/// empty needle.
pub fn find_subslice(haystack: &Vec<u8>, needle: &Vec<u8>) -> (r: Option<usize>)
    ensures
        match r {
            Some(i) => needle@.len() > 0 && find_from(haystack@, needle@, 0) == Some(i as int)
                && i + needle@.len() <= haystack@.len(),
            None => needle@.len() == 0 || find_from(haystack@, needle@, 0) is None,
        },
{
    if needle.len() == 0 || haystack.len() < needle.len() {
        return None;
    }
    let last: usize = haystack.len() - needle.len();
    let mut i: usize = 0;
    while i <= last
        invariant
            needle@.len() > 0,
            last == haystack@.len() - needle@.len(),
            i <= last + 1,
            last < haystack@.len() <= usize::MAX,
            find_from(haystack@, needle@, i as int) == find_from(haystack@, needle@, 0),
        decreases last + 1 - i,
    {
        if stands_here(haystack, needle, i) {
            return Some(i);
        }
        i = i + 1;
    }
    None
}

fn near(n: usize) -> (r: u32)
    ensures
        r == nearness(n as int),
        r <= 256,
{
    let k: u32 = n as u32;
    if k < 256 {
        256 - k
    } else {
        0
    }
}

fn plus(a: u32, b: u32) -> (r: u32)
    ensures
        r == saturating(a + b),
{
    if a > u32::MAX - b {
        u32::MAX
    } else {
        a + b
    }
}

fn find_scattered(t: &Vec<u8>, q: &Vec<u8>) -> (r: Option<u32>)
    ensures
        r == scattered(t@, q@, 0, 100, None),
{
    let mut ti: usize = 0;
    let mut score: u32 = 100;
    let mut last: Option<usize> = None;
    let mut k: usize = 0;
    assert(q@.skip(0) =~= q@);
    while k < q.len()
        invariant
            k <= q@.len(),
            ti <= t@.len(),
            last matches Some(l) ==> l < ti,
            scattered(
                t@,
                q@.skip(k as int),
                ti as int,
                score,
                match last {
                    Some(l) => Some(l as int),
                    None => None,
                },
            ) == scattered(t@, q@, 0, 100, None),
        decreases q@.len() - k,
    {
        let ghost from = ti;
        let qc = q[k];
        assert(q@.skip(k as int)[0] == qc);
        assert(q@.skip(k as int).drop_first() =~= q@.skip(k + 1));
        while ti < t.len() && t[ti] != qc
            invariant
                from <= ti <= t@.len(),
                next_byte(t@, qc, from as int) == next_byte(t@, qc, ti as int),
            decreases t@.len() - ti,
        {
            ti = ti + 1;
        }
        if ti >= t.len() {
            return None;
        }
        let follows = match last {
            Some(l) => l + 1 == ti,
            None => false,
        };
        if follows {
            score = plus(score, 10);
        }
        if is_word_boundary(t, ti) {
            score = plus(score, 20);
        }
        last = Some(ti);
        ti = ti + 1;
        k = k + 1;
    }
    Some(score)
}

/// Scores how well `query` matches `target`, upper and lower case alike;
/// `None` when the query's bytes do not even occur in order. Equality scores
/// most, then a prefix (more for a shorter label), then a substring (more at
/// the start of a word and near the beginning), then scattered bytes (more
/// for consecutive ones and for those that start a word).
pub fn fuzzy_score(query: &str, target: &str) -> (r: Option<u32>)
    ensures
        r == score_of(query@, target@),
{
    let q = lower_of(query);
    let t = lower_of(target);
    if q.len() == 0 {
        return Some(0);
    }
    if q.len() == t.len() && stands_here(&t, &q, 0) {
        assert(t@.subrange(0, q@.len() as int) =~= t@);
        return Some(10_000);
    }
    assert(q@ != t@) by {
        if q@ == t@ {
            assert(t@.subrange(0, q@.len() as int) =~= q@);
        }
    }
    if stands_here(&t, &q, 0) {
        return Some(5_000 + near(t.len()));
    }
    if let Some(pos) = find_subslice(&t, &q) {
        let bonus: u32 = if is_word_boundary(&t, pos) {
            500
        } else {
            0
        };
        return Some(2_000 + bonus + near(pos));
    }
    find_scattered(&t, &q)
}

// ---------------------------------------------------------------------
// The ranking
// ---------------------------------------------------------------------

/// Where an item of weight `w` goes: behind all that weigh as much or more,
/// counted from the end.
pub open spec fn place_for(s: Seq<(usize, u32)>, w: u32) -> int
    decreases s.len(),
{
    if s.len() == 0 || s.last().1 >= w {
        s.len() as int
    } else {
        place_for(s.drop_last(), w)
    }
}

/// `s` with `x` in its place.
pub open spec fn placed(s: Seq<(usize, u32)>, x: (usize, u32)) -> Seq<(usize, u32)> {
    s.insert(place_for(s, x.1), x)
}

/// The weight of an entry: by its group while nothing is typed, else by its
/// score. Entries without a weight are left out.
pub open spec fn weight(e: PaletteEntryView, query: Seq<char>) -> Option<u32> {
    if trimmed(query).len() == 0 {
        Some((4 - e.group.order()) as u32)
    } else {
        score_of(trimmed(query), e.label)
    }
}

/// The first `n` entries with their weights, the heaviest first, those of one
/// weight in their own order.
pub open spec fn weighed(entries: Seq<PaletteEntryView>, query: Seq<char>, n: int) -> Seq<
    (usize, u32),
>
    decreases n,
{
    if n <= 0 {
        Seq::empty()
    } else {
        let before = weighed(entries, query, n - 1);
        match weight(entries[n - 1], query) {
            Some(w) => placed(before, ((n - 1) as usize, w)),
            None => before,
        }
    }
}

/// The entries in the order in which they show, by their position in the
/// catalog, with their scores (0 while nothing is typed).
pub open spec fn ranking(entries: Seq<PaletteEntryView>, query: Seq<char>) -> Seq<(usize, u32)> {
    let all = weighed(entries, query, entries.len() as int);
    if trimmed(query).len() == 0 {
        Seq::new(all.len(), |i: int| (all[i].0, 0u32))
    } else {
        all
    }
}

fn place(v: &mut Vec<(usize, u32)>, x: (usize, u32))
    ensures
        final(v)@ == placed(old(v)@, x),
{
    let ghost s = v@;
    let mut at: usize = v.len();
    assert(s.take(at as int) =~= s);
    while at > 0 && v[at - 1].1 < x.1
        invariant
            v@ == s,
            at <= s.len(),
            place_for(s.take(at as int), x.1) == place_for(s, x.1),
        decreases at,
    {
        assert(s.take(at as int).drop_last() =~= s.take(at - 1));
        at = at - 1;
    }
    v.insert(at, x);
}

/// Ranks the entries against a query. With an empty query every entry comes,
/// group by group; else those that match, the best score first, and those of
/// one score in their own order.
pub fn rank(entries: &Vec<PaletteEntry>, query: &str) -> (r: Vec<(usize, u32)>)
    ensures
        r@ == ranking(entries.deep_view(), query@),
{
    let q = trim(query);
    let empty = q.as_str().is_empty();
    let ghost all = entries.deep_view();
    let mut out: Vec<(usize, u32)> = Vec::new();
    let mut i: usize = 0;
    while i < entries.len()
        invariant
            i <= entries@.len(),
            all == entries.deep_view(),
            q@ == trimmed(query@),
            empty == (q@.len() == 0),
            out@ == weighed(all, query@, i as int),
        decreases entries@.len() - i,
    {
        assert(all[i as int] == entries@[i as int].deep_view());
        let w = if empty {
            let key = entries[i].group.sort_key();
            Some(4 - key as u32)
        } else {
            fuzzy_score(q.as_str(), entries[i].label.as_str())
        };
        if let Some(w) = w {
            place(&mut out, (i, w));
        }
        i = i + 1;
    }
    if empty {
        let mut bare: Vec<(usize, u32)> = Vec::new();
        let mut k: usize = 0;
        while k < out.len()
            invariant
                k <= out@.len(),
                bare@.len() == k,
                forall|j: int| 0 <= j < k ==> bare@[j] == (out@[j].0, 0u32),
            decreases out@.len() - k,
        {
            bare.push((out[k].0, 0));
            k = k + 1;
        }
        assert(bare@ =~= ranking(all, query@));
        bare
    } else {
        out
    }
}

// ---------------------------------------------------------------------
// What holds of scores and rankings
// ---------------------------------------------------------------------

/// Whether `s` runs from the heaviest to the lightest, and those of one
/// weight in the order of their positions.
pub open spec fn in_order(s: Seq<(usize, u32)>) -> bool {
    forall|i: int, j: int|
        0 <= i < j < s.len() ==> s[i].1 > s[j].1 || (s[i].1 == s[j].1 && s[i].0 < s[j].0)
}

proof fn place_for_splits(s: Seq<(usize, u32)>, w: u32)
    requires
        in_order(s),
    ensures
        0 <= place_for(s, w) <= s.len(),
        forall|i: int| 0 <= i < place_for(s, w) ==> s[i].1 >= w,
        forall|i: int| place_for(s, w) <= i < s.len() ==> s[i].1 < w,
    decreases s.len(),
{
    if s.len() > 0 && s.last().1 < w {
        place_for_splits(s.drop_last(), w);
        assert forall|i: int| 0 <= i < place_for(s, w) implies s[i].1 >= w by {
            assert(s.drop_last()[i] == s[i]);
        }
        assert forall|i: int| place_for(s, w) <= i < s.len() implies s[i].1 < w by {
            if i < s.len() - 1 {
                assert(s.drop_last()[i] == s[i]);
            }
        }
    } else if s.len() > 0 {
        assert forall|i: int| 0 <= i < s.len() implies s[i].1 >= w by {
            if i < s.len() - 1 {
                assert(s[i].1 >= s[s.len() - 1].1);
            }
        }
    }
}

proof fn weighed_law(entries: Seq<PaletteEntryView>, query: Seq<char>, n: int)
    requires
        0 <= n <= entries.len() <= usize::MAX,
    ensures
        in_order(weighed(entries, query, n)),
        forall|k: int|
            0 <= k < weighed(entries, query, n).len() ==> {
                let x = #[trigger] weighed(entries, query, n)[k];
                x.0 < n && weight(entries[x.0 as int], query) == Some(x.1)
            },
        forall|i: int|
            0 <= i < n && (#[trigger] weight(entries[i], query)) is Some ==> weighed(
                entries,
                query,
                n,
            ).contains((i as usize, weight(entries[i], query)->Some_0)),
    decreases n,
{
    if n > 0 {
        weighed_law(entries, query, n - 1);
        let before = weighed(entries, query, n - 1);
        if let Some(w) = weight(entries[n - 1], query) {
            let x = ((n - 1) as usize, w);
            place_for_splits(before, w);
            let p = place_for(before, w);
            let after = before.insert(p, x);
            assert(after == weighed(entries, query, n));
            assert forall|k: int| 0 <= k < after.len() implies {
                let y = #[trigger] after[k];
                y.0 < n && weight(entries[y.0 as int], query) == Some(y.1)
            } by {
                if k < p {
                    assert(after[k] == before[k]);
                } else if k > p {
                    assert(after[k] == before[k - 1]);
                }
            }
            assert forall|i: int, j: int| 0 <= i < j < after.len() implies after[i].1 > after[j].1
                || (after[i].1 == after[j].1 && after[i].0 < after[j].0) by {
                let a = if i < p {
                    before[i]
                } else if i == p {
                    x
                } else {
                    before[i - 1]
                };
                let b = if j < p {
                    before[j]
                } else if j == p {
                    x
                } else {
                    before[j - 1]
                };
                assert(after[i] == a && after[j] == b);
            }
            assert forall|i: int|
                0 <= i < n && (#[trigger] weight(entries[i], query)) is Some implies after.contains(
                (i as usize, weight(entries[i], query)->Some_0),
            ) by {
                let y = (i as usize, weight(entries[i], query)->Some_0);
                if i == n - 1 {
                    assert(after[p] == y);
                } else {
                    assert(before.contains(y));
                    let k = before.index_of(y);
                    if k < p {
                        assert(after[k] == y);
                    } else {
                        assert(after[k + 1] == y);
                    }
                }
            }
        }
    }
}

/// Every row of a ranking stands for an entry of the catalog.
pub proof fn ranking_positions(entries: Seq<PaletteEntryView>, query: Seq<char>)
    requires
        entries.len() <= usize::MAX,
    ensures
        forall|k: int|
            0 <= k < ranking(entries, query).len() ==> (#[trigger] ranking(entries, query)[k]).0
                < entries.len(),
{
    let all = weighed(entries, query, entries.len() as int);
    weighed_law(entries, query, entries.len() as int);
    assert forall|k: int| 0 <= k < ranking(entries, query).len() implies (#[trigger] ranking(
        entries,
        query,
    )[k]).0 < entries.len() by {
        assert(all[k].0 < entries.len());
    }
}

/// A ranking against a query lists exactly the entries that match, each once,
/// with its score, the best score first, and those of one score in their own
/// order.
pub proof fn ranking_law(entries: Seq<PaletteEntryView>, query: Seq<char>)
    requires
        entries.len() <= usize::MAX,
        trimmed(query).len() > 0,
    ensures
        in_order(ranking(entries, query)),
        forall|k: int|
            0 <= k < ranking(entries, query).len() ==> {
                let x = #[trigger] ranking(entries, query)[k];
                x.0 < entries.len() && score_of(trimmed(query), entries[x.0 as int].label) == Some(
                    x.1,
                )
            },
        forall|i: int|
            0 <= i < entries.len() && (#[trigger] score_of(
                trimmed(query),
                entries[i].label,
            )) is Some ==> ranking(entries, query).contains(
                (i as usize, score_of(trimmed(query), entries[i].label)->Some_0),
            ),
{
    weighed_law(entries, query, entries.len() as int);
    assert forall|i: int|
        0 <= i < entries.len() && (#[trigger] score_of(
            trimmed(query),
            entries[i].label,
        )) is Some implies ranking(entries, query).contains(
        (i as usize, score_of(trimmed(query), entries[i].label)->Some_0),
    ) by {
        assert(weight(entries[i], query) is Some);
    }
}

/// With an empty query every entry is listed, group by group, and in its own
/// order within a group.
pub proof fn empty_query_lists_all(entries: Seq<PaletteEntryView>, query: Seq<char>)
    requires
        entries.len() <= usize::MAX,
        trimmed(query).len() == 0,
    ensures
        forall|i: int|
            0 <= i < entries.len() ==> #[trigger] ranking(entries, query).contains(
                (i as usize, 0u32),
            ),
        forall|i: int, j: int|
            0 <= i < j < ranking(entries, query).len() ==> {
                let a = #[trigger] ranking(entries, query)[i].0;
                let b = #[trigger] ranking(entries, query)[j].0;
                let x = entries[a as int].group.order();
                let y = entries[b as int].group.order();
                a < entries.len() && b < entries.len() && (x < y || (x == y && a < b))
            },
{
    let all = weighed(entries, query, entries.len() as int);
    weighed_law(entries, query, entries.len() as int);
    let r = ranking(entries, query);
    assert forall|i: int| 0 <= i < entries.len() implies #[trigger] r.contains(
        (i as usize, 0u32),
    ) by {
        let w = weight(entries[i], query);
        assert(w is Some);
        let y = (i as usize, w->Some_0);
        assert(all.contains(y));
        let k = all.index_of(y);
        assert(r[k] == (i as usize, 0u32));
    }
    assert forall|i: int, j: int| 0 <= i < j < r.len() implies {
        let a = #[trigger] r[i].0;
        let b = #[trigger] r[j].0;
        let x = entries[a as int].group.order();
        let y = entries[b as int].group.order();
        a < entries.len() && b < entries.len() && (x < y || (x == y && a < b))
    } by {
        assert(r[i].0 == all[i].0 && r[j].0 == all[j].0);
        assert(weight(entries[all[i].0 as int], query) == Some(all[i].1));
        assert(weight(entries[all[j].0 as int], query) == Some(all[j].1));
    }
}

proof fn scattered_bound(t: Seq<u8>, q: Seq<u8>, i: int, score: u32, last: Option<int>)
    requires
        score + 30 * q.len() <= u32::MAX,
    ensures
        scattered(t, q, i, score, last) matches Some(s) ==> s <= score + 30 * q.len(),
    decreases q.len(),
{
    if q.len() > 0 {
        let at = next_byte(t, q[0], i);
        if at < t.len() {
            let h = hit(t, at, score, last);
            assert(h <= score + 30);
            scattered_bound(t, q.drop_first(), at + 1, h, Some(at));
        }
    }
}

/// Equality beats a prefix, a prefix beats a substring, and a substring beats
/// scattered bytes, whatever the labels, for queries short enough (in bytes)
/// that their scattered hits cannot add up to a substring's score.
pub proof fn score_tiers(q: Seq<u8>, a: Seq<u8>, b: Seq<u8>, c: Seq<u8>, d: Seq<u8>)
    requires
        0 < q.len() <= 63,
        a == q,
        b != q && stands_at(b, q, 0),
        !stands_at(c, q, 0) && find_from(c, q, 0) is Some,
        d != q && !stands_at(d, q, 0) && find_from(d, q, 0) is None,
        scattered(d, q, 0, 100, None) is Some,
    ensures
        match_score(q, a)->Some_0 > match_score(q, b)->Some_0,
        match_score(q, b)->Some_0 > match_score(q, c)->Some_0,
        match_score(q, c)->Some_0 > match_score(q, d)->Some_0,
{
    assert(c != q) by {
        if c == q {
            assert(c.subrange(0, q.len() as int) =~= q);
        }
    }
    scattered_bound(d, q, 0, 100, None);
}

proof fn lowered_scalar(c: char)
    ensures
        lower_bytes(encode_scalar(c as u32)) == encode_scalar(lower(c) as u32),
{
    let v = c as u32;
    let w = lower(c) as u32;
    if v <= 0x7f {
        assert(leading_byte_width_1(v) == v as u8) by (bit_vector)
            requires
                v <= 0x7f,
        ;
        assert(leading_byte_width_1(w) == w as u8) by (bit_vector)
            requires
                w <= 0x7f,
        ;
        assert(lower_bytes(encode_scalar(v)) =~= encode_scalar(w));
    } else {
        assert(lower(c) == c);
        let a = leading_byte_width_2(v);
        let b = leading_byte_width_3(v);
        let d = leading_byte_width_4(v);
        let x = last_continuation_byte(v);
        let y = second_last_continuation_byte(v);
        let z = third_last_continuation_byte(v);
        assert(a >= 0x80 && b >= 0x80 && d >= 0x80 && x >= 0x80 && y >= 0x80 && z >= 0x80)
            by (bit_vector)
            requires
                a == leading_byte_width_2(v),
                b == leading_byte_width_3(v),
                d == leading_byte_width_4(v),
                x == last_continuation_byte(v),
                y == second_last_continuation_byte(v),
                z == third_last_continuation_byte(v),
        ;
        assert(lower_bytes(encode_scalar(v)) =~= encode_scalar(v));
    }
}

proof fn lowered_bytes(s: Seq<char>)
    ensures
        lower_bytes(encode_utf8(s)) == encode_utf8(lowered(s)),
    decreases s.len(),
{
    if s.len() > 0 {
        let rest = s.drop_first();
        lowered_scalar(s[0]);
        lowered_bytes(rest);
        assert(lowered(s).drop_first() =~= lowered(rest));
        assert(lower_bytes(encode_utf8(s)) =~= lower_bytes(encode_scalar(s[0] as u32))
            + lower_bytes(encode_utf8(rest)));
    } else {
        assert(lower_bytes(encode_utf8(s)) =~= encode_utf8(lowered(s)));
    }
}

/// The ASCII case of neither the query nor the label changes a score.
pub proof fn case_never_matters(q: Seq<char>, r: Seq<char>, t: Seq<char>, u: Seq<char>)
    requires
        lowered(q) == lowered(r),
        lowered(t) == lowered(u),
    ensures
        score_of(q, t) == score_of(r, u),
{
    lowered_bytes(q);
    lowered_bytes(r);
    lowered_bytes(t);
    lowered_bytes(u);
}

} // verus!
