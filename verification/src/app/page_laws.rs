//! What the pages are given, where events come from, and what time does, said
//! of every state.
use vstd::prelude::*;

use crate::app::keys::{shortcut, KeyView};
use crate::app::model::{
    awake, kinds_of, launched, on_connected, on_event, on_pairing, on_settings_save, on_tick,
    snapshot, sprite_animates, sprite_idles, step, tick_effects, tick_redraws, window_rests,
};
use crate::app::state::{
    form_of, AppView, ChatActivityStateView, Clock, ConnectionStatusView, EffectView, LaunchEnvView,
    MessageView, NavItem,
};
use crate::app::update::{pace, source_of, unread_sum, SourceView};
use crate::app::view::{
    agents_of, cards_of, detail_of, office_of, pane_of, picker_of, selected_display, status_of_app,
};
use crate::domain::agent::{AgentKind, AgentView};
use crate::domain::status::AgentStatus;
use crate::keyed::{distinct_keys, filter_law, lookup, put_law};
use crate::net::handshake::accepted_news;
use crate::net::rpc::AgentInfoView;
use crate::scene::flourish::elapsed;
use crate::scene::thought_bubble::ThoughtBubbleView;
use crate::text::trimmed;
use crate::ui_state::{SettingsView, UiStateView};

verus! {

// ---------------------------------------------------------------------
// Where events come from
// ---------------------------------------------------------------------

/// The demo plays its script whatever is configured. Otherwise the events come
/// from the environment's gateway, else from the saved one, with the token
/// that is at hand; without either they come from nowhere.
pub proof fn events_come_from_the_gateway(s: AppView, url: Seq<char>)
    ensures
        s.launch.demo ==> source_of(s) == SourceView::Demo,
        !s.launch.demo && s.launch.gateway_url == Some(url) && trimmed(url).len() > 0 ==> {
            &&& source_of(s) is Gateway
            &&& source_of(s)->Gateway_0.gateway_url == trimmed(url)
            &&& source_of(s)->Gateway_0.token == s.cached_token
        },
        !s.launch.demo && s.launch.gateway_url is None && s.settings.gateway_url == Some(url)
            && trimmed(url).len() > 0 ==> {
            &&& source_of(s) is Gateway
            &&& source_of(s)->Gateway_0.gateway_url == trimmed(url)
            &&& source_of(s)->Gateway_0.token == s.cached_token
        },
        !s.launch.demo && s.launch.gateway_url is None && s.settings.gateway_url is None
            ==> source_of(s) == SourceView::Idle,
{
}

/// Saving the settings changes where the events come from as long as there is
/// a gateway, so that saving connects anew even when nothing was changed.
pub proof fn saving_connects_anew(s: AppView, c: Clock, key: Seq<char>)
    ensures
        ({
            let t = step(s, MessageView::SettingsSave, c, key).0;
            &&& source_of(t) is Gateway ==> source_of(t) != source_of(s)
            &&& !s.launch.demo && trimmed(s.settings_form.gateway_url).len() > 0 ==> source_of(t)
                is Gateway
        }),
{
    reveal(on_settings_save);
    crate::text::trimmed_twice(s.settings_form.gateway_url);
}

/// A launch starts with what was kept: the settings, in the form too, but for
/// a token, and the token that was found. It connects at once where there is
/// a gateway, and has heard nothing yet.
pub proof fn launch_starts_with_what_was_kept(
    state: UiStateView,
    launch: LaunchEnvView,
    token_present: bool,
    token: Option<Seq<char>>,
)
    ensures
        ({
            let t = launched(state, launch, token_present, token);
            &&& t.settings == state.settings
            &&& t.launch == launch
            &&& t.token_present == token_present
            &&& t.cached_token == token
            &&& t.pending_window == state.window
            &&& state.settings.gateway_url matches Some(u) ==> t.settings_form.gateway_url == u
            &&& state.settings.gateway_url is None ==> t.settings_form.gateway_url.len() == 0
            &&& t.settings_form.token.len() == 0
            &&& !t.connected && !t.palette_open && t.logs_auto_tail
            &&& t.chat_logs.len() == 0 && t.unread.len() == 0 && t.pending_approvals.len() == 0
            &&& t.log_lines.len() == 0 && t.sessions.len() == 0 && t.statuses.len() == 0
            &&& source_of(t) is Gateway <==> t.connection_status
                == ConnectionStatusView::Connecting
            &&& source_of(t) is Idle ==> t.nav == NavItem::Settings
            &&& t.roster.len() == 1 && t.roster[0].id == "main"@ && t.roster[0].kind
                == AgentKind::Main
        }),
{
}

// ---------------------------------------------------------------------
// Time
// ---------------------------------------------------------------------

/// A bubble stays on a tick exactly until it is two seconds old.
pub proof fn tick_drops_old_bubbles(s: AppView, b: ThoughtBubbleView, c: Clock, key: Seq<char>)
    ensures
        ({
            let t = step(s, MessageView::Tick, c, key).0;
            &&& t.bubbles.contains(b) <==> s.bubbles.contains(b) && elapsed(c.now_ms, b.born) < 2000
            &&& t.bubbles.len() <= s.bubbles.len()
        }),
{
    reveal(on_tick);
    let f = |x: ThoughtBubbleView| elapsed(c.now_ms, x.born) < 2000;
    let all = s.bubbles;
    all.lemma_filter_len(f);
    if all.contains(b) && f(b) {
        all.lemma_filter_contains(f, all.index_of(b));
    }
    if all.filter(f).contains(b) {
        all.lemma_filter_contains_rev(f, b);
        all.lemma_filter_pred(f, all.filter(f).index_of(b));
    }
}

/// A tick forgets a flash after six tenths of a second, an activity of which
/// nothing was heard for three quarters of a minute, and a reset that was not
/// confirmed within four seconds; what is younger stays as it is.
pub proof fn tick_forgets_what_is_old(s: AppView, id: Seq<char>, c: Clock, key: Seq<char>)
    requires
        distinct_keys(s.transition_moments),
        distinct_keys(s.chat_activities),
        distinct_keys(s.pending_resets),
    ensures
        ({
            let t = step(s, MessageView::Tick, c, key).0;
            let now = c.now_ms;
            &&& lookup(t.transition_moments, id) == (match lookup(s.transition_moments, id) {
                Some(at) => if elapsed(now, at) < 600 {
                    Some(at)
                } else {
                    None
                },
                None => None,
            })
            &&& lookup(t.chat_activities, id) == (match lookup(s.chat_activities, id) {
                Some(a) => if elapsed(now, a.since) < 45_000 {
                    Some(a)
                } else {
                    None
                },
                None => None,
            })
            &&& lookup(t.pending_resets, id) == (match lookup(s.pending_resets, id) {
                Some(at) => if elapsed(now, at) < 4_000 {
                    Some(at)
                } else {
                    None
                },
                None => None,
            })
            &&& t == AppView {
                bubbles: t.bubbles,
                transition_moments: t.transition_moments,
                chat_activities: t.chat_activities,
                pending_resets: t.pending_resets,
                pending_window_since: t.pending_window_since,
                ..s
            }
        }),
{
    reveal(on_tick);
    let now = c.now_ms;
    filter_law(
        s.transition_moments,
        |e: (Seq<char>, u64)| elapsed(now, e.1) < crate::app::state::TRANSITION_FLASH_MS,
        id,
    );
    filter_law(
        s.chat_activities,
        |e: (Seq<char>, ChatActivityStateView)|
            elapsed(now, e.1.since) < crate::app::state::CHAT_ACTIVITY_TIMEOUT_MS,
        id,
    );
    filter_law(
        s.pending_resets,
        |e: (Seq<char>, u64)| elapsed(now, e.1) < crate::app::state::RESET_CONFIRM_WINDOW_MS,
        id,
    );
}

/// The window's place is kept once it has rested for a quarter of a second,
/// once, and not before.
pub proof fn resting_window_is_kept(s: AppView, c: Clock, key: Seq<char>)
    ensures
        ({
            let (t, effects) = step(s, MessageView::Tick, c, key);
            let rests = s.pending_window_since matches Some(at) && elapsed(c.now_ms, at) >= 250;
            &&& rests ==> effects.contains(EffectView::SaveState(snapshot(s)))
            &&& rests ==> t.pending_window_since is None
            &&& !rests ==> t.pending_window_since == s.pending_window_since
            &&& !rests ==> forall|i: int|
                0 <= i < effects.len() ==> !((#[trigger] effects[i]) is SaveState)
            &&& t.pending_window == s.pending_window
        }),
{
    reveal(on_tick);
    reveal(tick_effects);
    let effects = tick_effects(s, c.now_ms);
    if window_rests(s, c.now_ms) {
        assert(effects[0] == EffectView::SaveState(snapshot(s)));
    }
}

/// The scene is redrawn on a tick while a bubble shows or has just gone, while
/// an agent is at work, and while someone is awake.
pub proof fn tick_redraws_what_moves(s: AppView, i: int, c: Clock, key: Seq<char>)
    ensures
        ({
            let (t, effects) = step(s, MessageView::Tick, c, key);
            let redraws = effects.contains(EffectView::RedrawScene);
            &&& t.bubbles.len() > 0 ==> redraws
            &&& t.bubbles.len() != s.bubbles.len() ==> redraws
            &&& 0 <= i < s.statuses.len() && s.statuses[i].1 == AgentStatus::Running ==> redraws
            &&& 0 <= i < s.roster.len() && lookup(s.statuses, s.roster[i].id) != Some(
                AgentStatus::Disabled,
            ) ==> redraws
        }),
{
    reveal(on_tick);
    reveal(tick_effects);
    let t = on_tick(s, c.now_ms);
    let effects = tick_effects(s, c.now_ms);
    if tick_redraws(s, c.now_ms) {
        assert(effects[effects.len() - 1] == EffectView::RedrawScene);
    }
    if 0 <= i < s.roster.len() && lookup(s.statuses, s.roster[i].id) != Some(
        AgentStatus::Disabled,
    ) {
        assert(awake(t, t.roster[i], true) || awake(t, t.roster[i], false));
    }
    if 0 <= i < s.statuses.len() && s.statuses[i].1 == AgentStatus::Running {
        assert(t.statuses[i].1 == AgentStatus::Running);
    }
}

/// The scene moves thirty times a second while something does, slowly while
/// someone idles, and hardly otherwise.
pub proof fn pace_follows_what_moves(s: AppView, i: int, now: u64)
    ensures
        s.bubbles.len() > 0 ==> pace(s, now) == 33,
        0 <= i < s.statuses.len() && s.statuses[i].1 == AgentStatus::Running ==> pace(s, now) == 33,
        s.bubbles.len() == 0 && s.statuses.len() == 0 && s.transition_moments.len() == 0
            && s.roster.len() == 0 ==> pace(s, now) == 500,
        s.bubbles.len() == 0 && !sprite_animates(s, now) && 0 <= i < s.roster.len()
            && s.roster[i].kind != AgentKind::Channel && lookup(s.statuses, s.roster[i].id)
            != Some(AgentStatus::Disabled) ==> pace(s, now) == 50,
{
    if 0 <= i < s.roster.len() && s.roster[i].kind != AgentKind::Channel && lookup(
        s.statuses,
        s.roster[i].id,
    ) != Some(AgentStatus::Disabled) {
        assert(awake(s, s.roster[i], false));
    }
}

// ---------------------------------------------------------------------
// What the pages are given
// ---------------------------------------------------------------------

/// The office shows the state's own agents, statuses, bubbles and moments.
pub proof fn office_is_of_the_state(s: AppView)
    ensures
        office_of(s).roster == s.roster,
        office_of(s).statuses == s.statuses,
        office_of(s).bubbles == s.bubbles,
        office_of(s).transition_moments == s.transition_moments,
        office_of(s).agent_rooms.len() == 0,
        office_of(s).rooms.len() == 3,
        office_of(s).rooms[0].id == "command-deck"@,
{
}

/// The agents' page is given what is known of each agent, job and channel.
pub proof fn agents_page_is_of_the_state(s: AppView)
    ensures
        agents_of(s).statuses == s.statuses,
        agents_of(s).cron_details == s.cron_details,
        agents_of(s).cron_ids == s.cron_ids,
        agents_of(s).channel_details == s.channel_details,
        agents_of(s).active_model == s.active_model,
        agents_of(s).sessions == s.sessions,
        agents_of(s).pending_resets == s.pending_resets,
        agents_of(s).expanded_errors == s.expanded_errors,
        agents_of(s).roster == s.roster.filter(|a: AgentView| a.kind == AgentKind::Main),
{
    crate::ui::laws::roster_agents_are_listed(s.roster);
}

/// The status bar is given the state of the connection, the tokens of the main
/// session, and how many approvals wait.
pub proof fn bar_is_of_the_state(s: AppView)
    ensures
        ({
            let b = status_of_app(s);
            &&& b.connected == s.connected
            &&& b.last_poll == s.last_poll
            &&& b.active_model == s.active_model
            &&& b.last_disconnect == s.last_disconnect
            &&& s.pending_approvals.len() <= usize::MAX ==> b.pending_approvals
                == s.pending_approvals.len()
            &&& s.statuses.len() <= usize::MAX ==> b.agents_tracked == s.statuses.len()
            &&& s.gateway_update matches Some(u) ==> b.update == Some((u.current, u.latest))
            &&& s.gateway_update is None ==> b.update is None
            &&& lookup(s.sessions, "agent:main:main"@) is None ==> b.main_usage is None
            &&& lookup(s.sessions, "agent:main:main"@) matches Some(i) ==> (i.total_tokens is Some
                && i.context_tokens is Some ==> b.main_usage == Some(
                (i.total_tokens->Some_0, i.context_tokens->Some_0),
            ))
        }),
{
}

/// The prompt names the agent that is shown, by its persona where it is
/// listed.
pub proof fn prompt_names_the_agent(s: AppView, i: int)
    ensures
        0 <= i < s.chat_agents.len() && s.chat_agents[i].id == s.selected_chat_agent && (forall|
            j: int,
        |
            0 <= j < i ==> (#[trigger] s.chat_agents[j]).id != s.selected_chat_agent)
            ==> selected_display(s) == s.chat_agents[i].shown_with_emoji(),
        (forall|j: int|
            0 <= j < s.chat_agents.len() ==> (#[trigger] s.chat_agents[j]).id
                != s.selected_chat_agent) ==> selected_display(s) == s.selected_chat_agent,
{
    let id = s.selected_chat_agent;
    crate::app::event_laws::info_index_law(s.chat_agents, id);
    let at = crate::app::model::info_index(s.chat_agents, id);
    if at < s.chat_agents.len() {
        assert(s.chat_agents[at].id == id);
    }
    if 0 <= i < s.chat_agents.len() && s.chat_agents[i].id == id && (forall|j: int|
        0 <= j < i ==> (#[trigger] s.chat_agents[j]).id != id) {
        assert(at == i);
    }
}

/// A persona shows as its name with its emoji behind it; without a persona an
/// agent shows as its own name, else as its id.
pub proof fn persona_shows(a: AgentInfoView, name: Seq<char>, emoji: Seq<char>)
    ensures
        a.identity matches Some(p) ==> (p.name == Some(name) && p.emoji == Some(emoji) && emoji.len()
            > 0 ==> a.shown_with_emoji() == name + " "@ + emoji),
        a.identity matches Some(p) ==> (p.name == Some(name) && p.emoji is None
            ==> a.shown_with_emoji() == name),
        a.identity is None && a.name == Some(name) ==> a.shown_with_emoji() == name,
        a.identity is None && a.name is None ==> a.shown_with_emoji() == a.id,
{
}

/// The tab of the chat counts the unread replies of all agents.
pub proof fn unread_replies_add_up(m: Seq<(Seq<char>, usize)>, k: Seq<char>, n: usize)
    ensures
        unread_sum(Seq::empty()) == 0,
        unread_sum(m.push((k, n))) == unread_sum(m) + n,
{
    assert(m.push((k, n)).drop_last() =~= m);
}

/// The palette knows everyone in the roster as what it is.
pub proof fn kinds_are_those_of_the_roster(roster: Seq<AgentView>, i: int, id: Seq<char>)
    ensures
        0 <= i < roster.len() && roster[i].id == id && (forall|j: int|
            i < j < roster.len() ==> (#[trigger] roster[j]).id != id) ==> lookup(
            kinds_of(roster),
            id,
        ) == Some(roster[i].kind),
        (forall|j: int| 0 <= j < roster.len() ==> (#[trigger] roster[j]).id != id) ==> lookup(
            kinds_of(roster),
            id,
        ) is None,
    decreases roster.len(),
{
    if roster.len() > 0 {
        let init = roster.drop_last();
        kinds_are_those_of_the_roster(init, i, id);
        put_law(kinds_of(init), roster.last().id, roster.last().kind, id);
        assert forall|j: int| 0 <= j < init.len() implies #[trigger] init[j] == roster[j] by {}
        assert(roster[roster.len() - 1] == roster.last());
    } else {
        crate::keyed::key_index_bounds(kinds_of(roster), id);
    }
}

/// The form starts with what is saved: the URL, and the mode where it is one
/// of those on offer, and never with a token.
pub proof fn form_starts_with_the_settings(settings: SettingsView, url: Seq<char>)
    ensures
        ({
            let f = form_of(settings);
            &&& settings.gateway_url == Some(url) ==> f.gateway_url == url
            &&& settings.gateway_url is None ==> f.gateway_url.len() == 0
            &&& settings.mode == Some("ws"@) ==> f.mode == "ws"@
            &&& settings.mode == Some("mock"@) ==> f.mode == "mock"@
            &&& settings.mode != Some("ws"@) && settings.mode != Some("mock"@) ==> f.mode
                == "auto"@
            &&& f.token.len() == 0
        }),
{
}

/// Sprites move while someone is at work and for a moment after a change of
/// status; idling is for those who are awake.
pub proof fn sprites_move_with_their_agents(s: AppView, i: int, now: u64)
    ensures
        0 <= i < s.transition_moments.len() && elapsed(now, s.transition_moments[i].1) < 600
            ==> sprite_animates(s, now),
        0 <= i < s.statuses.len() && s.statuses[i].1 == AgentStatus::Running ==> sprite_animates(
            s,
            now,
        ),
        sprite_animates(s, now) ==> (exists|k: int|
            0 <= k < s.statuses.len() && (#[trigger] s.statuses[k]).1 == AgentStatus::Running)
            || exists|k: int|
            0 <= k < s.transition_moments.len() && elapsed(
                now,
                (#[trigger] s.transition_moments[k]).1,
            ) < 600,
        0 <= i < s.roster.len() && s.roster[i].kind != AgentKind::Channel && lookup(
            s.statuses,
            s.roster[i].id,
        ) != Some(AgentStatus::Disabled) ==> sprite_idles(s),
{
    if 0 <= i < s.roster.len() && s.roster[i].kind != AgentKind::Channel && lookup(
        s.statuses,
        s.roster[i].id,
    ) != Some(AgentStatus::Disabled) {
        assert(awake(s, s.roster[i], false));
    }
}

/// The chat that is shown is that of the selected agent: its log, word for word
/// and in order, and what it is doing. The picker has a row for every agent.
pub proof fn chat_is_of_the_selected_agent(s: AppView, i: int)
    ensures
        ({
            let log = crate::app::model::log_of(s.chat_logs, s.selected_chat_agent);
            let p = pane_of(s);
            &&& p.messages.len() == log.len()
            &&& 0 <= i < log.len() ==> p.messages[i].text == log[i].text
            &&& p.activity is Some <==> lookup(s.chat_activities, s.selected_chat_agent) is Some
            &&& p.input.can_send <==> s.connected && trimmed(s.chat_input).len() > 0
            &&& picker_of(s).len() == s.chat_agents.len()
            &&& 0 <= i < s.chat_agents.len() ==> picker_of(s)[i].id == s.chat_agents[i].id
            &&& 0 <= i < s.chat_agents.len() ==> (picker_of(s)[i].active <==> s.chat_agents[i].id
                == s.selected_chat_agent)
        }),
{
}

/// The sessions' page has a card for every session, marks the open one, and
/// shows its own transcript.
pub proof fn detail_is_of_the_open_session(s: AppView, now_ms: int, i: int)
    ensures
        cards_of(s, now_ms).len() == s.sessions.len(),
        0 <= i < s.sessions.len() ==> (cards_of(s, now_ms)[i].active <==> s.active_session_key
            == Some(cards_of(s, now_ms)[i].key)),
        s.active_session_key is None ==> detail_of(s, now_ms) is None,
        s.active_session_key matches Some(k) ==> {
            &&& detail_of(s, now_ms) is Some
            &&& lookup(s.session_transcripts, k) matches Some(t) ==> t.len() > 0 ==> {
                let body = detail_of(s, now_ms)->Some_0.body;
                &&& body is Messages
                &&& body->Messages_0.len() == t.len()
                &&& 0 <= i < t.len() ==> body->Messages_0[i].text == t[i].text
            }
            &&& lookup(s.session_transcripts, k) is None ==> detail_of(s, now_ms)->Some_0.body
                is Notice
        },
{
    let l = crate::ui::sessions_view::listed(s.sessions);
    crate::ui::sessions_view::list_is_sorted(s.sessions);
    crate::ui::sessions_view::infos(s.sessions).to_multiset_ensures();
    l.to_multiset_ensures();
}

/// When the gateway takes the connection, the UI shows it as up, and no
/// pairing as pending.
pub proof fn acceptance_is_shown(s: AppView, c: Clock)
    ensures
        ({
            let news = accepted_news();
            let t = on_event(on_event(s, news[0], c), news[1], c);
            &&& news.len() == 2
            &&& t.connected
            &&& t.pending_pair_request is None
            &&& t.connection_status == ConnectionStatusView::Connected
            &&& t.last_disconnect is None
        }),
{
    reveal(on_event);
    reveal(on_connected);
    reveal(on_pairing);
}

/// The palette is driven by its keys: the command key with `k` opens and closes
/// it, escape closes it, and the arrows move by one row; no other key does
/// anything.
pub proof fn keys_drive_the_palette(text: Seq<char>, command: bool)
    ensures
        shortcut(KeyView::Character(text), command) is Some <==> command && text == "k"@,
        shortcut(KeyView::Character("k"@), true) == Some(MessageView::PaletteToggle),
        shortcut(KeyView::Escape, command) == Some(MessageView::PaletteClose),
        shortcut(KeyView::ArrowDown, command) == Some(MessageView::PaletteMove(1)),
        shortcut(KeyView::ArrowUp, command) == Some(MessageView::PaletteMove(-1i32)),
        shortcut(KeyView::Other, command) is None,
{
}

/// What is kept for the next launch is where one is: the tab by its name, the
/// agent, the session, the window and the settings.
pub proof fn what_is_kept_is_where_one_is(s: AppView)
    ensures
        ({
            let k = snapshot(s);
            &&& s.nav == NavItem::Overview ==> k.tab == Some("overview"@)
            &&& s.nav == NavItem::Chat ==> k.tab == Some("chat"@)
            &&& s.nav == NavItem::Agents ==> k.tab == Some("agents"@)
            &&& s.nav == NavItem::Sessions ==> k.tab == Some("sessions"@)
            &&& s.nav == NavItem::Logs ==> k.tab == Some("logs"@)
            &&& s.nav == NavItem::Settings ==> k.tab == Some("settings"@)
            &&& k.selected_agent == Some(s.selected_chat_agent)
            &&& k.active_session_key == s.active_session_key
            &&& k.window == s.pending_window
            &&& k.settings == s.settings
        }),
{
}

} // verus!
