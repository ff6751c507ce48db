//! What the palette offers and finds, said of every catalog and query.
use vstd::prelude::*;

use crate::app::state::NavItem;
use crate::domain::agent::AgentKind;
use crate::keyed::lookup;
use crate::net::rpc::{AgentInfoView, CronStateView, SessionInfoView};
use crate::palette::{
    catalog, chat_entries, chat_entry, cron_entries, cron_entry, find_from, hit, is_alphanumeric,
    match_score, nav_entries, next_byte, reset_entries, reset_entry, scattered, session_entries,
    session_entry, stands_at, PaletteActionView, PaletteEntryView, PaletteGroup,
};
use crate::seqs::{filter_map_keeps, filter_map_source};

verus! {

// ---------------------------------------------------------------------
// The catalog
// ---------------------------------------------------------------------

proof fn in_catalog(
    agents: Seq<AgentInfoView>,
    crons: Seq<(Seq<char>, CronStateView)>,
    ids: Seq<(Seq<char>, Seq<char>)>,
    sessions: Seq<(Seq<char>, SessionInfoView)>,
    kinds: Seq<(Seq<char>, AgentKind)>,
    e: PaletteEntryView,
)
    ensures
        catalog(agents, crons, ids, sessions, kinds).contains(e) <==> {
            ||| nav_entries().contains(e)
            ||| chat_entries(agents).contains(e)
            ||| cron_entries(crons, ids).contains(e)
            ||| session_entries(sessions).contains(e)
            ||| reset_entries(agents, kinds).contains(e)
        },
{
    broadcast use vstd::seq_lib::lemma_seq_concat_contains_all_elements;

}

/// The row that a catalog has for an action, if it has one.
pub open spec fn offers(
    entries: Seq<PaletteEntryView>,
    action: PaletteActionView,
    label: Seq<char>,
) -> bool {
    exists|i: int|
        0 <= i < entries.len() && (#[trigger] entries[i]).action == action && entries[i].label
            == label
}

/// The catalog offers a chat with every agent, by its persona; every job that
/// can be run, by its name; every session, by its key; a reset for every agent
/// that is one; and every tab.
pub proof fn catalog_offers_everything(
    agents: Seq<AgentInfoView>,
    crons: Seq<(Seq<char>, CronStateView)>,
    ids: Seq<(Seq<char>, Seq<char>)>,
    sessions: Seq<(Seq<char>, SessionInfoView)>,
    kinds: Seq<(Seq<char>, AgentKind)>,
    i: int,
)
    ensures
        ({
            let all = catalog(agents, crons, ids, sessions, kinds);
            &&& 0 <= i < agents.len() ==> offers(
                all,
                PaletteActionView::ChatWithAgent(agents[i].id),
                "Chat with "@ + agents[i].shown_with_emoji(),
            )
            &&& 0 <= i < crons.len() && lookup(ids, crons[i].0) is Some ==> offers(
                all,
                PaletteActionView::RunCron(crons[i].0),
                "Run cron "@ + crons[i].0,
            )
            &&& 0 <= i < sessions.len() ==> forall|rest: Seq<char>|
                sessions[i].0 == #[trigger] ("agent:"@ + rest) ==> offers(
                    all,
                    PaletteActionView::OpenSession(sessions[i].0),
                    "Open session "@ + rest,
                )
            &&& 0 <= i < sessions.len() && !crate::text::has_prefix(sessions[i].0, "agent:"@)
                ==> offers(
                all,
                PaletteActionView::OpenSession(sessions[i].0),
                "Open session "@ + sessions[i].0,
            )
            &&& 0 <= i < agents.len() && (agents[i].id == "main"@ || lookup(kinds, agents[i].id)
                == Some(AgentKind::Main)) ==> offers(
                all,
                PaletteActionView::ResetMainSession(agents[i].id),
                "Reset session for "@ + agents[i].shown_with_emoji(),
            )
            &&& offers(all, PaletteActionView::Nav(NavItem::Overview), "Go to "@ + "Overview"@)
            &&& offers(all, PaletteActionView::Nav(NavItem::Chat), "Go to "@ + "Chat"@)
            &&& offers(all, PaletteActionView::Nav(NavItem::Agents), "Go to "@ + "Agents"@)
            &&& offers(all, PaletteActionView::Nav(NavItem::Sessions), "Go to "@ + "Sessions"@)
            &&& offers(all, PaletteActionView::Nav(NavItem::Logs), "Go to "@ + "Logs"@)
            &&& offers(all, PaletteActionView::Nav(NavItem::Settings), "Go to "@ + "Settings"@)
        }),
{
    let all = catalog(agents, crons, ids, sessions, kinds);
    assert forall|e: PaletteEntryView| #[trigger] all.contains(e) implies offers(
        all,
        e.action,
        e.label,
    ) by {
        let at = all.index_of(e);
        assert(all[at] == e);
    }
    if 0 <= i < agents.len() {
        let e = chat_entry(agents[i]);
        assert(chat_entries(agents)[i] == e);
        in_catalog(agents, crons, ids, sessions, kinds, e);
        assert(all.contains(e));
        let f = |a: AgentInfoView| reset_entry(a, kinds);
        if let Some(r) = reset_entry(agents[i], kinds) {
            filter_map_keeps(agents, f, i);
            in_catalog(agents, crons, ids, sessions, kinds, r);
            assert(all.contains(r));
        }
    }
    if 0 <= i < crons.len() {
        let f = |c: (Seq<char>, CronStateView)| cron_entry(c, ids);
        if let Some(r) = cron_entry(crons[i], ids) {
            filter_map_keeps(crons, f, i);
            in_catalog(agents, crons, ids, sessions, kinds, r);
            assert(all.contains(r));
        }
    }
    if 0 <= i < sessions.len() {
        let e = session_entry(sessions[i]);
        assert(session_entries(sessions)[i] == e);
        in_catalog(agents, crons, ids, sessions, kinds, e);
        assert(all.contains(e));
        assert forall|rest: Seq<char>| sessions[i].0 == #[trigger] ("agent:"@ + rest) implies offers(
            all,
            PaletteActionView::OpenSession(sessions[i].0),
            "Open session "@ + rest,
        ) by {
            assert(sessions[i].0.take("agent:"@.len() as int) =~= "agent:"@);
            assert(sessions[i].0.skip("agent:"@.len() as int) =~= rest);
        }
    }
    assert forall|k: int| 0 <= k < nav_entries().len() implies all.contains(
        #[trigger] nav_entries()[k],
    ) by {
        in_catalog(agents, crons, ids, sessions, kinds, nav_entries()[k]);
    }
    assert(all.contains(nav_entries()[0]));
    assert(all.contains(nav_entries()[1]));
    assert(all.contains(nav_entries()[2]));
    assert(all.contains(nav_entries()[3]));
    assert(all.contains(nav_entries()[4]));
    assert(all.contains(nav_entries()[5]));
}

/// The catalog offers nothing but that: a chat only with an agent that is
/// listed, a run only of a job whose id is known, a session that is there, and
/// a reset only of an agent.
pub proof fn catalog_offers_nothing_else(
    agents: Seq<AgentInfoView>,
    crons: Seq<(Seq<char>, CronStateView)>,
    ids: Seq<(Seq<char>, Seq<char>)>,
    sessions: Seq<(Seq<char>, SessionInfoView)>,
    kinds: Seq<(Seq<char>, AgentKind)>,
    k: int,
)
    requires
        0 <= k < catalog(agents, crons, ids, sessions, kinds).len(),
    ensures
        ({
            let e = catalog(agents, crons, ids, sessions, kinds)[k];
            match e.action {
                PaletteActionView::Nav(_) => true,
                PaletteActionView::ChatWithAgent(id) => exists|i: int|
                    0 <= i < agents.len() && (#[trigger] agents[i]).id == id && e.label
                        == "Chat with "@ + agents[i].shown_with_emoji(),
                PaletteActionView::RunCron(id) => lookup(ids, id) is Some && e.label == "Run cron "@
                    + id,
                PaletteActionView::OpenSession(key) => exists|i: int|
                    0 <= i < sessions.len() && (#[trigger] sessions[i]).0 == key,
                PaletteActionView::ResetMainSession(id) => (id == "main"@ || lookup(kinds, id)
                    == Some(AgentKind::Main)) && exists|i: int|
                    0 <= i < agents.len() && (#[trigger] agents[i]).id == id && e.label
                        == "Reset session for "@ + agents[i].shown_with_emoji(),
            }
        }),
{
    let all = catalog(agents, crons, ids, sessions, kinds);
    let e = all[k];
    assert(all.contains(e));
    in_catalog(agents, crons, ids, sessions, kinds, e);
    if nav_entries().contains(e) {
        let i = nav_entries().index_of(e);
        assert(nav_entries()[i].action is Nav);
    } else if chat_entries(agents).contains(e) {
        let i = chat_entries(agents).index_of(e);
        assert(e == chat_entry(agents[i]));
    } else if cron_entries(crons, ids).contains(e) {
        let f = |c: (Seq<char>, CronStateView)| cron_entry(c, ids);
        let i = filter_map_source(crons, f, e);
        assert(cron_entry(crons[i], ids) == Some(e));
    } else if session_entries(sessions).contains(e) {
        let i = session_entries(sessions).index_of(e);
        assert(e == session_entry(sessions[i]));
    } else {
        let f = |a: AgentInfoView| reset_entry(a, kinds);
        let i = filter_map_source(agents, f, e);
        assert(reset_entry(agents[i], kinds) == Some(e));
    }
}

// ---------------------------------------------------------------------
// Matching
// ---------------------------------------------------------------------

/// Whether the bytes of `q` stand in `t` at `places`, one after the other.
pub open spec fn stands_scattered(t: Seq<u8>, q: Seq<u8>, places: Seq<int>) -> bool {
    &&& places.len() == q.len()
    &&& forall|k: int|
        0 <= k < q.len() ==> 0 <= #[trigger] places[k] < t.len() && t[places[k]] == q[k]
    &&& forall|k: int, l: int| 0 <= k < l < q.len() ==> places[k] < places[l]
}

proof fn next_byte_law(t: Seq<u8>, b: u8, i: int)
    requires
        0 <= i,
    ensures
        next_byte(t, b, i) < t.len() ==> next_byte(t, b, i) >= i && t[next_byte(t, b, i)] == b,
        forall|j: int| i <= j < next_byte(t, b, i) && j < t.len() ==> t[j] != b,
        next_byte(t, b, i) <= t.len() || i > t.len(),
    decreases t.len() - i,
{
    if i < t.len() && t[i] != b {
        next_byte_law(t, b, i + 1);
    }
}

proof fn scattered_is_found(
    t: Seq<u8>,
    q: Seq<u8>,
    i: int,
    score: u32,
    last: Option<int>,
    places: Seq<int>,
)
    requires
        0 <= i,
        stands_scattered(t, q, places),
        q.len() > 0 ==> places[0] >= i,
    ensures
        scattered(t, q, i, score, last) is Some,
    decreases q.len(),
{
    if q.len() > 0 {
        next_byte_law(t, q[0], i);
        let at = next_byte(t, q[0], i);
        assert(t[places[0]] == q[0]);
        assert(at <= places[0]);
        let rest = places.drop_first();
        let tail = q.drop_first();
        assert(stands_scattered(t, tail, rest)) by {
            assert forall|k: int| 0 <= k < tail.len() implies 0 <= #[trigger] rest[k] < t.len()
                && t[rest[k]] == tail[k] by {
                assert(rest[k] == places[k + 1]);
            }
        }
        if tail.len() > 0 {
            assert(rest[0] == places[1]);
        }
        scattered_is_found(t, tail, at + 1, hit(t, at, score, last), Some(at), rest);
    }
}

proof fn found_is_scattered(
    t: Seq<u8>,
    q: Seq<u8>,
    i: int,
    score: u32,
    last: Option<int>,
) -> (places:
    Seq<int>)
    requires
        0 <= i,
        scattered(t, q, i, score, last) is Some,
    ensures
        stands_scattered(t, q, places),
        q.len() > 0 ==> places[0] >= i,
    decreases q.len(),
{
    if q.len() == 0 {
        Seq::empty()
    } else {
        next_byte_law(t, q[0], i);
        let at = next_byte(t, q[0], i);
        let tail = q.drop_first();
        let rest = found_is_scattered(t, tail, at + 1, hit(t, at, score, last), Some(at));
        let places = seq![at] + rest;
        assert forall|k: int| 0 <= k < q.len() implies 0 <= #[trigger] places[k] < t.len()
            && t[places[k]] == q[k] by {
            if k > 0 {
                assert(places[k] == rest[k - 1]);
                assert(tail[k - 1] == q[k]);
            }
        }
        assert forall|k: int, l: int| 0 <= k < l < q.len() implies places[k] < places[l] by {
            assert(places[l] == rest[l - 1]);
            if k > 0 {
                assert(places[k] == rest[k - 1]);
            } else if l > 1 {
                assert(rest[0] < rest[l - 1]);
            }
        }
        places
    }
}

proof fn found_stands(t: Seq<u8>, q: Seq<u8>, i: int)
    requires
        0 <= i,
    ensures
        find_from(t, q, i) matches Some(p) ==> stands_at(t, q, p),
    decreases t.len() + 1 - i,
{
    if i + q.len() <= t.len() && !stands_at(t, q, i) {
        found_stands(t, q, i + 1);
    }
}

/// A query finds exactly the texts in which its bytes stand one after the
/// other, with anything between.
pub proof fn query_finds_what_holds_it(q: Seq<u8>, t: Seq<u8>)
    ensures
        match_score(q, t) is Some <==> exists|places: Seq<int>| stands_scattered(t, q, places),
{
    if exists|places: Seq<int>| stands_scattered(t, q, places) {
        let places = choose|places: Seq<int>| stands_scattered(t, q, places);
        if q.len() > 0 {
            assert(places[0] >= 0);
        }
        scattered_is_found(t, q, 0, 100, None, places);
    }
    if match_score(q, t) is Some {
        let together = |p: int| Seq::new(q.len(), |k: int| p + k);
        if q.len() == 0 {
            assert(stands_scattered(t, q, Seq::empty()));
        } else if q == t {
            assert(stands_scattered(t, q, together(0)));
        } else if stands_at(t, q, 0) {
            run_stands(t, q, 0);
        } else if find_from(t, q, 0) is Some {
            found_stands(t, q, 0);
            run_stands(t, q, find_from(t, q, 0)->Some_0);
        } else {
            let places = found_is_scattered(t, q, 0, 100, None);
            assert(stands_scattered(t, q, places));
        }
    }
}

proof fn run_stands(t: Seq<u8>, q: Seq<u8>, p: int)
    requires
        stands_at(t, q, p),
    ensures
        exists|places: Seq<int>| stands_scattered(t, q, places),
{
    let places = Seq::new(q.len(), |k: int| p + k);
    assert forall|k: int| 0 <= k < q.len() implies 0 <= #[trigger] places[k] < t.len()
        && t[places[k]] == q[k] by {
        assert(t.subrange(p, p + q.len())[k] == q[k]);
    }
    assert(stands_scattered(t, q, places));
}

/// Among the texts that a query begins, a shorter one counts for more; among
/// those that hold it further on, one that holds it at the start of a word
/// does, and else one that holds it earlier.
pub proof fn closer_matches_count_for_more(q: Seq<u8>, t: Seq<u8>, u: Seq<u8>, i: int, j: int)
    requires
        q.len() > 0,
        q != t,
        q != u,
    ensures
        stands_at(t, q, 0) && stands_at(u, q, 0) && t.len() < u.len() < 0x1_0000_0000 && t.len() < 256
            ==> match_score(q, t)->Some_0 > match_score(q, u)->Some_0,
        !stands_at(t, q, 0) && !stands_at(u, q, 0) && find_from(t, q, 0) == Some(i) && find_from(
            u,
            q,
            0,
        ) == Some(j) && 0 < i < j && i < 256 && !is_alphanumeric(t[i - 1]) == !is_alphanumeric(
            u[j - 1],
        ) && j < 0x1_0000_0000 ==> match_score(q, t)->Some_0 > match_score(q, u)->Some_0,
        !stands_at(t, q, 0) && !stands_at(u, q, 0) && find_from(t, q, 0) == Some(i) && find_from(
            u,
            q,
            0,
        ) == Some(j) && 0 < i && 0 < j && !is_alphanumeric(t[i - 1]) && is_alphanumeric(u[j - 1])
            ==> match_score(q, t)->Some_0 > match_score(q, u)->Some_0,
{
}

/// What a row says beside its label: a chat its agent's id where that is not
/// the label, a job how it went last, a session its model, and a reset that it
/// takes two clicks.
pub proof fn rows_say_more(
    info: AgentInfoView,
    cron: (Seq<char>, CronStateView),
    ids: Seq<(Seq<char>, Seq<char>)>,
    session: (Seq<char>, SessionInfoView),
    kinds: Seq<(Seq<char>, AgentKind)>,
)
    ensures
        chat_entry(info).subtitle == (if info.shown_with_emoji() == info.id {
            None
        } else {
            Some(info.id)
        }),
        cron_entry(cron, ids) matches Some(e) ==> {
            &&& cron.1.last_status matches Some(w) ==> e.subtitle == Some("last: "@ + w)
            &&& cron.1.last_status is None && cron.1.next_run_at_ms is Some ==> e.subtitle == Some(
                "scheduled"@,
            )
            &&& cron.1.last_status is None && cron.1.next_run_at_ms is None ==> e.subtitle is None
        },
        session.1.model matches Some(m) ==> m.len() > 0 ==> session_entry(session).subtitle == Some(
            m,
        ),
        session.1.model is None ==> session_entry(session).subtitle is None,
        reset_entry(info, kinds) matches Some(e) ==> e.subtitle == Some(
            "destructive — two clicks to confirm"@,
        ),
{
}

/// A byte that is found counts for more behind the one found before, and for
/// more still at the start of a word.
pub proof fn runs_and_word_starts_count(t: Seq<u8>, at: int, score: u32, last: Option<int>)
    requires
        0 <= at < t.len(),
        score <= u32::MAX - 30,
    ensures
        ({
            let run = if last == Some(at - 1) {
                10int
            } else {
                0
            };
            let start = if at == 0 || !is_alphanumeric(t[at - 1]) {
                20int
            } else {
                0
            };
            hit(t, at, score, last) == score + run + start
        }),
{
}

/// The groups stand in their order: tabs, chats, jobs, sessions, actions.
pub proof fn groups_have_their_order()
    ensures
        PaletteGroup::Navigation.order() < PaletteGroup::Chat.order(),
        PaletteGroup::Chat.order() < PaletteGroup::Crons.order(),
        PaletteGroup::Crons.order() < PaletteGroup::Sessions.order(),
        PaletteGroup::Sessions.order() < PaletteGroup::Actions.order(),
{
}

} // verus!
