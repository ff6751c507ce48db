//! Taking in events from the gateway.
use vstd::prelude::*;

use crate::app::model::{
    agents_list_effects, cron_after_delta, crons_raise, event_effects, in_roster, info_index,
    merged_cron, on_activity, on_approval, on_chat_history, on_connected, on_heard, on_main_agent,
    on_pairing, on_resolution, on_session_history, on_session_info, on_silent_turn, on_update,
    on_usage, usage_effects, on_agent_message, on_agents_list, on_channels, on_cron, on_cron_delta,
    on_crons, on_disconnected, on_event, on_identity, on_log_tail, on_tool, persona_requests,
    raised, renamed, roster_index, with_agent, with_bubble, with_entry, with_history, with_identity,
    with_persona, with_personas, with_status,
};
use crate::app::state::{
    App, AppView, ChatActivity, ChatActivityState, Clock, ConnectionStatus, Effect, EffectView,
    NavItem, BUBBLE_MAX, CHAT_LOG_MAX,
};
use crate::bubble_text::clean_bubble_text;
use crate::domain::agent::{Agent, AgentId, AgentKind, AgentView};
use crate::domain::status::AgentStatus;
use crate::keyed::{lookup, put_twice, StrMap};
use crate::logs::push_lines;
use crate::net::commands::{GatewayCommand, GatewayCommandView};
use crate::net::events::{
    channel_status, cron_status, main_agent_status, ActivityKind, GatewayUpdate, PairRequest,
    WsEvent, WsEventView,
};
use crate::net::rpc::{
    AgentIdentity, AgentInfo, AgentInfoView, ApprovalEventPayload, Channel, CronJob, CronState,
    LogTailPayload, MainAgent, SessionInfo, SessionUsagePoint,
};
use crate::notifications::{approval_dedup_key, Notification};
use crate::ring::Ring;
use crate::scene::thought_bubble::{transition_text, BubbleKind, ThoughtBubble};
use crate::seqs::{no_items, one_item, push_to};
use crate::text::{same, strip_prefix};
use crate::ui::chat_view::{ChatMessage, ChatMessageView};

verus! {

// ---------------------------------------------------------------------
// Pieces
// ---------------------------------------------------------------------

/// Appends a message to the log under `id`; the oldest goes when it is full.
pub fn push_chat(logs: &mut StrMap<Ring<ChatMessage>>, id: &str, msg: ChatMessage)
    ensures
        final(logs).deep_view() == with_entry(old(logs).deep_view(), id@, msg.deep_view()),
{
    let ghost before = logs.deep_view();
    let mut log = match logs.replace(id, Ring::new()) {
        Some(l) => l,
        None => Ring::new(),
    };
    log.push(msg, CHAT_LOG_MAX);
    proof {
        put_twice(before, id@, Seq::<ChatMessageView>::empty(), log.deep_view());
    }
    logs.insert(id.to_owned(), log);
}

/// Replaces the log under `id` by a history.
pub fn set_history(logs: &mut StrMap<Ring<ChatMessage>>, id: &str, messages: Vec<ChatMessage>)
    ensures
        final(logs).deep_view() == with_history(
            old(logs).deep_view(),
            id@,
            messages.deep_view(),
        ),
{
    let mut log: Ring<ChatMessage> = Ring::new();
    log.extend(messages, CHAT_LOG_MAX);
    logs.insert(id.to_owned(), log);
}

/// Puts a cron delta on top of what is known. Deltas carry only what changed,
/// so that a field they lack is kept.
pub fn merge_cron_state(dst: &mut CronState, src: &CronState)
    ensures
        final(dst).deep_view() == merged_cron(old(dst).deep_view(), src.deep_view()),
{
    dst.running = src.running;
    if src.next_run_at_ms.is_some() {
        dst.next_run_at_ms = src.next_run_at_ms;
    }
    if src.last_run_at_ms.is_some() {
        dst.last_run_at_ms = src.last_run_at_ms;
    }
    if src.last_status.is_some() {
        dst.last_status = src.last_status.clone();
    }
    if src.last_duration_ms.is_some() {
        dst.last_duration_ms = src.last_duration_ms;
    }
    if src.last_error.is_some() {
        dst.last_error = src.last_error.clone();
    }
}

fn raise(n: Option<Notification>) -> (r: Vec<Effect>)
    ensures
        r.deep_view() == raised(n.deep_view()),
{
    match n {
        Some(x) => one_item(Effect::Notify(x)),
        None => no_items(),
    }
}

fn raise_onto(out: &mut Vec<Effect>, n: Option<Notification>)
    ensures
        final(out).deep_view() == old(out).deep_view() + raised(n.deep_view()),
{
    let ghost before = out.deep_view();
    if let Some(x) = n {
        push_to(out, Effect::Notify(x));
    }
    assert(out.deep_view() =~= before + raised(n.deep_view()));
}

/// The index of a roster entry is its first place, if it is there.
pub proof fn roster_index_bounds(roster: Seq<AgentView>, id: Seq<char>)
    ensures
        0 <= roster_index(roster, id) <= roster.len(),
        roster_index(roster, id) < roster.len() <==> in_roster(roster, id),
        roster_index(roster, id) < roster.len() ==> roster[roster_index(roster, id)].id == id,
        forall|k: int| 0 <= k < roster_index(roster, id) ==> (#[trigger] roster[k]).id != id,
    decreases roster.len(),
{
    if roster.len() > 0 && roster[0].id != id {
        let rest = roster.drop_first();
        roster_index_bounds(rest, id);
        if in_roster(roster, id) {
            let i = choose|i: int| 0 <= i < roster.len() && (#[trigger] roster[i]).id == id;
            assert(rest[i - 1].id == id);
        }
        if in_roster(rest, id) {
            let i = choose|i: int| 0 <= i < rest.len() && (#[trigger] rest[i]).id == id;
            assert(roster[i + 1].id == id);
        }
        assert forall|k: int| 0 <= k < roster_index(roster, id) implies (#[trigger] roster[k]).id
            != id by {
            if k > 0 {
                assert(rest[k - 1] == roster[k]);
            }
        }
    } else if roster.len() > 0 {
        assert(roster[0].id == id);
    }
}

fn find_in_roster(roster: &Vec<Agent>, id: &str) -> (r: usize)
    ensures
        r == roster_index(roster.deep_view(), id@),
        r <= roster@.len(),
        r < roster@.len() <==> in_roster(roster.deep_view(), id@),
{
    let ghost all = roster.deep_view();
    let mut i: usize = 0;
    proof {
        roster_index_bounds(all, id@);
    }
    while i < roster.len()
        invariant
            i <= roster@.len(),
            all == roster.deep_view(),
            0 <= roster_index(all, id@) <= all.len(),
            roster_index(all, id@) < all.len() <==> in_roster(all, id@),
            roster_index(all, id@) < all.len() ==> all[roster_index(all, id@)].id == id@,
            forall|k: int| 0 <= k < roster_index(all, id@) ==> (#[trigger] all[k]).id != id@,
            forall|k: int| 0 <= k < i ==> (#[trigger] all[k]).id != id@,
        decreases roster@.len() - i,
    {
        assert(all[i as int] == roster@[i as int].deep_view());
        if same(roster[i].id.as_str(), id) {
            assert(all[i as int].id == id@);
            return i;
        }
        i = i + 1;
    }
    i
}

/// Sets the display name of a roster entry.
fn rename(roster: &mut Vec<Agent>, id: &str, display: String)
    ensures
        final(roster).deep_view() == renamed(old(roster).deep_view(), id@, display@),
{
    let ghost before = roster.deep_view();
    let i = find_in_roster(roster, id);
    if i < roster.len() {
        assert(before[i as int] == roster@[i as int].deep_view());
        let entry = Agent {
            id: roster[i].id.clone(),
            display,
            kind: roster[i].kind,
        };
        roster[i] = entry;
        assert(roster.deep_view() =~= renamed(before, id@, display@));
    }
}

fn add_persona(roster: &mut Vec<Agent>, info: &AgentInfo)
    ensures
        final(roster).deep_view() == with_persona(old(roster).deep_view(), info.deep_view()),
{
    let persona = info.display_with_emoji();
    let i = find_in_roster(roster, info.id.as_str());
    if i < roster.len() {
        rename(roster, info.id.as_str(), persona);
    } else {
        push_to(roster, Agent::main_with_display(info.id.as_str(), persona.as_str()));
    }
}

fn add_personas(roster: &mut Vec<Agent>, agents: &Vec<AgentInfo>)
    ensures
        final(roster).deep_view() == with_personas(old(roster).deep_view(), agents.deep_view()),
{
    let ghost all = agents.deep_view();
    let ghost before = roster.deep_view();
    let mut i: usize = 0;
    assert(all.take(0).len() == 0);
    while i < agents.len()
        invariant
            i <= agents@.len(),
            all == agents.deep_view(),
            roster.deep_view() == with_personas(before, all.take(i as int)),
        decreases agents@.len() - i,
    {
        assert(all.take(i + 1).drop_last() =~= all.take(i as int));
        assert(all.take(i + 1).last() == agents@[i as int].deep_view());
        add_persona(roster, &agents[i]);
        i = i + 1;
    }
    assert(all.take(i as int) =~= all);
}

fn request_personas(agents: &Vec<AgentInfo>) -> (r: Vec<Effect>)
    ensures
        r.deep_view() == persona_requests(agents.deep_view()),
{
    let mut out: Vec<Effect> = Vec::new();
    let mut i: usize = 0;
    while i < agents.len()
        invariant
            i <= agents@.len(),
            out@.len() == i,
            forall|k: int|
                0 <= k < i ==> (#[trigger] out@[k]).deep_view() == EffectView::Send(
                    GatewayCommandView::FetchAgentIdentity { agent_id: agents@[k].id@ },
                ),
        decreases agents@.len() - i,
    {
        out.push(
            Effect::Send(GatewayCommand::FetchAgentIdentity { agent_id: agents[i].id.clone() }),
        );
        i = i + 1;
    }
    assert(out.deep_view() =~= persona_requests(agents.deep_view()));
    out
}

proof fn info_index_unique(agents: Seq<AgentInfoView>, id: Seq<char>, i: int)
    requires
        0 <= i <= agents.len(),
        i < agents.len() ==> agents[i].id == id,
        forall|k: int| 0 <= k < i ==> (#[trigger] agents[k]).id != id,
    ensures
        info_index(agents, id) == i,
    decreases agents.len(),
{
    if agents.len() > 0 && i > 0 {
        let rest = agents.drop_first();
        assert(agents[0].id != id);
        assert forall|k: int| 0 <= k < i - 1 implies (#[trigger] rest[k]).id != id by {
            assert(rest[k] == agents[k + 1]);
        }
        info_index_unique(rest, id, i - 1);
    }
}

/// The position of the agent with an id; the list's length if none.
pub fn find_agent_info(agents: &Vec<AgentInfo>, id: &str) -> (r: usize)
    ensures
        r == info_index(agents.deep_view(), id@),
        r <= agents@.len(),
{
    let ghost all = agents.deep_view();
    let mut i: usize = 0;
    while i < agents.len()
        invariant
            i <= agents@.len(),
            all == agents.deep_view(),
            forall|k: int| 0 <= k < i ==> (#[trigger] all[k]).id != id@,
        decreases agents@.len() - i,
    {
        assert(all[i as int] == agents@[i as int].deep_view());
        if same(agents[i].id.as_str(), id) {
            proof {
                info_index_unique(all, id@, i as int);
            }
            return i;
        }
        i = i + 1;
    }
    proof {
        info_index_unique(all, id@, i as int);
    }
    i
}

fn refine(info: &AgentInfo, name: &Option<String>, emoji: &Option<String>) -> (r: AgentInfo)
    ensures
        r.deep_view() == with_identity(info.deep_view(), name.deep_view(), emoji.deep_view()),
{
    let mut identity = match &info.identity {
        Some(i) => i.clone(),
        None => AgentIdentity { name: None, emoji: None, avatar: None, theme: None },
    };
    if name.is_some() {
        identity.name = name.clone();
    }
    if emoji.is_some() {
        identity.emoji = emoji.clone();
    }
    AgentInfo {
        id: info.id.clone(),
        name: info.name.clone(),
        identity: Some(identity),
        model: info.model.clone(),
        workspace: info.workspace.clone(),
    }
}

fn add_bubble(bubbles: &mut Vec<ThoughtBubble>, id: &AgentId, text: String, kind: BubbleKind, now: u64)
    ensures
        final(bubbles).deep_view() == with_bubble(
            old(bubbles).deep_view(),
            id.deep_view(),
            text@,
            kind,
            now,
        ),
{
    if !text.as_str().is_empty() {
        push_to(bubbles, ThoughtBubble { agent: id.clone(), text, born: now, kind });
    }
}

// ---------------------------------------------------------------------
// Events
// ---------------------------------------------------------------------

impl App {
    /// Makes sure that the roster has an entry for `id`.
    pub fn ensure_agent(&mut self, id: &AgentId, kind: AgentKind)
        ensures
            final(self).deep_view() == (AppView {
                roster: with_agent(old(self).deep_view().roster, id.deep_view(), kind),
                ..old(self).deep_view()
            }),
    {
        proof {
            reveal(App::model);
        }
        let i = find_in_roster(&self.roster, id.as_str());
        if i < self.roster.len() {
            return;
        }
        let agent = match kind {
            AgentKind::Cron => Agent::cron(id.as_str()),
            AgentKind::Channel => Agent::channel(id.as_str()),
            AgentKind::Main => Agent::main_with_display(id.as_str(), id.as_str()),
        };
        push_to(&mut self.roster, agent);
    }

    /// Sets an agent's status. A change is stamped and gets its bubble.
    pub fn apply_status_update(&mut self, id: &AgentId, next: AgentStatus, now: u64)
        ensures
            final(self).deep_view() == with_status(
                old(self).deep_view(),
                id.deep_view(),
                next,
                now,
            ),
    {
        proof {
            reveal(App::model);
        }
        let prev: Option<AgentStatus> = match self.statuses.get(id.as_str()) {
            Some(s) => Some(*s),
            None => None,
        };
        if let Some(s) = prev {
            if s == next {
                return;
            }
        }
        self.statuses.insert(id.as_str().to_owned(), next);
        self.transition_moments.insert(id.as_str().to_owned(), now);
        if let Some(text) = transition_text(prev, next) {
            push_to(&mut self.bubbles, ThoughtBubble::new(id.clone(), text, now));
        }
    }

    fn take_cron(&mut self, cron: &CronJob, now: u64, out: &mut Vec<Effect>)
        ensures
            final(self).deep_view() == on_cron(old(self).deep_view(), cron.deep_view(), now),
            final(out).deep_view() == old(out).deep_view() + raised(
                old(self).deep_view().notifier.raises_cron(
                    cron.deep_view().name,
                    cron.deep_view().state,
                ),
            ),
    {
        proof {
            reveal(App::model);
        }
        let id = AgentId::new(cron.name.as_str());
        self.ensure_agent(&id, AgentKind::Cron);
        self.cron_details.insert(cron.name.clone(), cron.state.clone());
        if let Some(uuid) = &cron.id {
            self.cron_ids.insert(cron.name.clone(), uuid.clone());
        }
        let n = self.notifier.cron_state_changed(&id, &cron.state);
        raise_onto(out, n);
        self.apply_status_update(&id, cron_status(cron), now);
    }

    fn take_crons(&mut self, crons: &Vec<CronJob>, now: u64) -> (r: Vec<Effect>)
        ensures
            final(self).deep_view() == on_crons(old(self).deep_view(), crons.deep_view(), now),
            r.deep_view() == crons_raise(old(self).deep_view(), crons.deep_view(), now),
    {
        let ghost all = crons.deep_view();
        let ghost before = self.deep_view();
        let mut out: Vec<Effect> = no_items();
        let mut i: usize = 0;
        assert(all.take(0).len() == 0);
        while i < crons.len()
            invariant
                i <= crons@.len(),
                all == crons.deep_view(),
                self.deep_view() == on_crons(before, all.take(i as int), now),
                out.deep_view() == crons_raise(before, all.take(i as int), now),
            decreases crons@.len() - i,
        {
            assert(all.take(i + 1).drop_last() =~= all.take(i as int));
            assert(all.take(i + 1).last() == crons@[i as int].deep_view());
            self.take_cron(&crons[i], now, &mut out);
            i = i + 1;
        }
        assert(all.take(i as int) =~= all);
        out
    }

    fn take_cron_delta(&mut self, cron: &CronJob, now: u64) -> (r: Vec<Effect>)
        ensures
            final(self).deep_view() == on_cron_delta(old(self).deep_view(), cron.deep_view(), now),
            r.deep_view() == raised(
                old(self).deep_view().notifier.raises_cron(
                    cron.deep_view().name,
                    cron_after_delta(old(self).deep_view(), cron.deep_view()),
                ),
            ),
    {
        proof {
            reveal(on_cron_delta);
            reveal(App::model);
        }
        let id = AgentId::new(cron.name.as_str());
        self.last_poll = Some(now);
        self.ensure_agent(&id, AgentKind::Cron);
        let mut state = match self.cron_details.get(cron.name.as_str()) {
            Some(known) => known.clone(),
            None => CronState::default(),
        };
        merge_cron_state(&mut state, &cron.state);
        let n = self.notifier.cron_state_changed(&id, &state);
        self.cron_details.insert(cron.name.clone(), state);
        self.apply_status_update(&id, cron_status(cron), now);
        raise(n)
    }

    fn take_channels(&mut self, channels: &Vec<Channel>, now: u64)
        ensures
            final(self).deep_view() == on_channels(
                old(self).deep_view(),
                channels.deep_view(),
                now,
            ),
    {
        let ghost all = channels.deep_view();
        let ghost before = self.deep_view();
        let mut i: usize = 0;
        assert(all.take(0).len() == 0);
        while i < channels.len()
            invariant
                i <= channels@.len(),
                all == channels.deep_view(),
                self.deep_view() == on_channels(before, all.take(i as int), now),
            decreases channels@.len() - i,
        {
            assert(all.take(i + 1).drop_last() =~= all.take(i as int));
            assert(all.take(i + 1).last() == channels@[i as int].deep_view());
            let ch = &channels[i];
            proof {
                reveal(App::model);
            }
            let id = AgentId::new(ch.name.as_str());
            self.ensure_agent(&id, AgentKind::Channel);
            self.channel_details.insert(ch.name.clone(), ch.clone());
            self.apply_status_update(&id, channel_status(ch), now);
            i = i + 1;
        }
        assert(all.take(i as int) =~= all);
    }

    fn take_agents_list(&mut self, default_id: String, agents: Vec<AgentInfo>) -> (r: Vec<Effect>)
        ensures
            final(self).deep_view() == on_agents_list(
                old(self).deep_view(),
                default_id@,
                agents.deep_view(),
            ),
            r.deep_view() == agents_list_effects(
                old(self).deep_view(),
                default_id@,
                agents.deep_view(),
            ),
    {
        proof {
            reveal(on_agents_list);
            reveal(agents_list_effects);
            reveal(App::model);
        }
        add_personas(&mut self.roster, &agents);
        let mut out = request_personas(&agents);
        if !self.history_fetched.contains(self.selected_chat_agent.as_str()) && same(
            self.selected_chat_agent.as_str(),
            "main",
        ) && !default_id.as_str().is_empty() && !same(default_id.as_str(), "main") {
            self.selected_chat_agent = AgentId(default_id);
        }
        let target = self.selected_chat_agent.as_str().to_owned();
        if self.history_fetched.insert(target.clone()) {
            push_to(&mut out, Effect::Send(GatewayCommand::FetchChatHistory { agent_id: target }));
        }
        self.chat_agents = agents;
        out
    }

    fn take_identity(&mut self, id: &AgentId, name: Option<String>, emoji: Option<String>)
        ensures
            final(self).deep_view() == on_identity(
                old(self).deep_view(),
                id.deep_view(),
                name.deep_view(),
                emoji.deep_view(),
            ),
    {
        proof {
            reveal(on_identity);
            reveal(App::model);
        }
        let ghost before = self.deep_view();
        let i = find_agent_info(&self.chat_agents, id.as_str());
        if i < self.chat_agents.len() {
            assert(before.chat_agents[i as int] == self.chat_agents@[i as int].deep_view());
            let info = refine(&self.chat_agents[i], &name, &emoji);
            let persona = info.display_with_emoji();
            rename(&mut self.roster, id.as_str(), persona);
            let ghost view = info.deep_view();
            self.chat_agents[i] = info;
            assert(self.deep_view().chat_agents =~= before.chat_agents.update(i as int, view));
        }
    }

    fn take_agent_message(&mut self, id: &AgentId, text: String, c: Clock)
        requires
            lookup(old(self).deep_view().unread, id.deep_view()) != Some(usize::MAX),
        ensures
            final(self).deep_view() == on_agent_message(
                old(self).deep_view(),
                id.deep_view(),
                text@,
                c,
            ),
    {
        proof {
            reveal(on_agent_message);
            reveal(App::model);
        }
        self.last_poll = Some(c.now_ms);
        self.ensure_agent(id, AgentKind::Main);
        let _ = self.chat_activities.remove(id.as_str());
        let watching = self.nav == NavItem::Chat && same(
            self.selected_chat_agent.as_str(),
            id.as_str(),
        );
        if !watching {
            let n: usize = match self.unread.get(id.as_str()) {
                Some(k) => *k,
                None => 0,
            };
            self.unread.insert(id.as_str().to_owned(), n + 1);
        }
        push_chat(
            &mut self.chat_logs,
            id.as_str(),
            ChatMessage::assistant(text.as_str(), c.wall_secs),
        );
        let snippet = clean_bubble_text(text.as_str(), BUBBLE_MAX);
        add_bubble(&mut self.bubbles, id, snippet, BubbleKind::Message, c.now_ms);
    }

    fn take_tool(&mut self, id: &AgentId, text: &str, now: u64)
        ensures
            final(self).deep_view() == on_tool(old(self).deep_view(), id.deep_view(), text@, now),
    {
        proof {
            reveal(on_tool);
            reveal(App::model);
        }
        self.last_poll = Some(now);
        let snippet = clean_bubble_text(text, BUBBLE_MAX);
        let tool = match strip_prefix(snippet.as_str(), "⚙ ") {
            Some(rest) => rest,
            None => snippet.clone(),
        };
        add_bubble(&mut self.bubbles, id, snippet, BubbleKind::Tool, now);
        if !tool.as_str().is_empty() {
            self.chat_activities.insert(
                id.as_str().to_owned(),
                ChatActivityState { kind: ChatActivity::Tool(tool), since: now },
            );
        }
    }

    fn take_activity(&mut self, id: &AgentId, kind: ActivityKind, now: u64)
        ensures
            final(self).deep_view() == on_activity(
                old(self).deep_view(),
                id.deep_view(),
                kind,
                now,
            ),
    {
        proof {
            reveal(on_activity);
            reveal(App::model);
        }
        self.last_poll = Some(now);
        let status = match kind {
            ActivityKind::Thinking => AgentStatus::Running,
            ActivityKind::ToolCalling => AgentStatus::Running,
            ActivityKind::Errored => AgentStatus::Error,
            ActivityKind::Idle => AgentStatus::Healthy,
        };
        self.apply_status_update(id, status, now);
        match kind {
            ActivityKind::Errored => {
                let _ = self.chat_activities.remove(id.as_str());
            },
            ActivityKind::Idle => {
                let _ = self.chat_activities.remove(id.as_str());
            },
            _ => {
                let keep = match self.chat_activities.get(id.as_str()) {
                    Some(a) => match a.kind {
                        ChatActivity::Tool(_) => true,
                        _ => false,
                    },
                    None => false,
                };
                if !keep {
                    self.chat_activities.insert(
                        id.as_str().to_owned(),
                        ChatActivityState { kind: ChatActivity::Thinking, since: now },
                    );
                }
            },
        }
    }

    fn take_usage(&mut self, key: String, points: Vec<SessionUsagePoint>) -> (r: Vec<Effect>)
        ensures
            final(self).deep_view() == on_usage(
                old(self).deep_view(),
                key@,
                points.deep_view(),
            ),
            r.deep_view() == usage_effects(old(self).deep_view(), key@),
    {
        proof {
            reveal(on_usage);
            reveal(usage_effects);
            reveal(App::model);
        }
        let shown = match &self.active_session_key {
            Some(k) => same(k.as_str(), key.as_str()),
            None => false,
        };
        let mut out: Vec<Effect> = one_item(Effect::RedrawUsageRow(key.clone()));
        if shown {
            push_to(&mut out, Effect::RedrawUsage);
            assert(out.deep_view() =~= seq![
                EffectView::RedrawUsageRow(key@),
                EffectView::RedrawUsage,
            ]);
        }
        self.session_usage.insert(key, points);
        out
    }

    fn take_connected(&mut self)
        ensures
            final(self).deep_view() == on_connected(old(self).deep_view()),
    {
        proof {
            reveal(on_connected);
            reveal(App::model);
        }
        self.connected = true;
        self.last_disconnect = None;
        self.connection_status = ConnectionStatus::Connected;
    }

    fn take_disconnected(&mut self, reason: String)
        ensures
            final(self).deep_view() == on_disconnected(old(self).deep_view(), reason@),
    {
        proof {
            reveal(on_disconnected);
            reveal(App::model);
        }
        self.connected = false;
        self.last_disconnect = Some(reason.clone());
        self.connection_status = ConnectionStatus::Failed(reason);
        self.history_fetched.clear();
        self.session_history_fetched.clear();
        self.notifier.reset_on_disconnect();
        self.chat_activities.clear();
    }

    fn hear(&mut self, now: u64)
        ensures
            final(self).deep_view() == on_heard(old(self).deep_view(), now),
    {
        proof {
            reveal(on_heard);
            reveal(App::model);
        }
        self.last_poll = Some(now);
    }

    fn take_main_agent(&mut self, main: &MainAgent, now: u64)
        ensures
            final(self).deep_view() == on_main_agent(old(self).deep_view(), main.deep_view(), now),
    {
        proof {
            reveal(on_main_agent);
            reveal(App::model);
        }
        if main.model.is_some() {
            self.active_model = main.model.clone();
        }
        let id = AgentId::new(main.id.as_str());
        self.apply_status_update(&id, main_agent_status(main), now);
    }

    fn take_silent_turn(&mut self, id: &AgentId, now: u64)
        ensures
            final(self).deep_view() == on_silent_turn(old(self).deep_view(), id.deep_view(), now),
    {
        proof {
            reveal(on_silent_turn);
            reveal(on_heard);
            reveal(App::model);
        }
        self.last_poll = Some(now);
        let _ = self.chat_activities.remove(id.as_str());
    }

    fn take_chat_history(&mut self, id: &AgentId, messages: Vec<ChatMessage>)
        ensures
            final(self).deep_view() == on_chat_history(
                old(self).deep_view(),
                id.deep_view(),
                messages.deep_view(),
            ),
    {
        proof {
            reveal(on_chat_history);
            reveal(App::model);
        }
        set_history(&mut self.chat_logs, id.as_str(), messages);
    }

    fn take_session_history(&mut self, key: &str, messages: Vec<ChatMessage>)
        ensures
            final(self).deep_view() == on_session_history(
                old(self).deep_view(),
                key@,
                messages.deep_view(),
            ),
    {
        proof {
            reveal(on_session_history);
            reveal(App::model);
        }
        set_history(&mut self.session_transcripts, key, messages);
    }

    fn take_session_info(&mut self, info: SessionInfo)
        ensures
            final(self).deep_view() == on_session_info(old(self).deep_view(), info.deep_view()),
    {
        proof {
            reveal(on_session_info);
            reveal(App::model);
        }
        self.sessions.insert(info.key.clone(), info);
    }

    fn take_pairing(&mut self, req: Option<PairRequest>)
        ensures
            final(self).deep_view() == on_pairing(old(self).deep_view(), req.deep_view()),
    {
        proof {
            reveal(on_pairing);
            reveal(App::model);
        }
        self.pending_pair_request = req;
    }

    fn take_approval(&mut self, payload: ApprovalEventPayload, now: u64) -> (r: Vec<Effect>)
        ensures
            final(self).deep_view() == on_approval(
                old(self).deep_view(),
                payload.deep_view(),
                now,
            ),
            r.deep_view() == raised(
                old(self).deep_view().notifier.raises_approval(payload.deep_view()),
            ),
    {
        proof {
            reveal(on_approval);
            reveal(on_heard);
            reveal(App::model);
        }
        self.last_poll = Some(now);
        let n = self.notifier.approval_requested(&payload);
        self.pending_approvals.insert(approval_dedup_key(&payload), payload);
        raise(n)
    }

    fn take_resolution(&mut self, id: &Option<String>, now: u64)
        ensures
            final(self).deep_view() == on_resolution(old(self).deep_view(), id.deep_view(), now),
    {
        proof {
            reveal(on_resolution);
            reveal(on_heard);
            reveal(App::model);
        }
        self.last_poll = Some(now);
        self.notifier.approval_resolved(id);
        match id {
            Some(i) => {
                let _ = self.pending_approvals.remove(i.as_str());
            },
            None => {
                self.pending_approvals.clear();
            },
        }
    }

    fn take_update(&mut self, update: Option<GatewayUpdate>) -> (r: Vec<Effect>)
        ensures
            final(self).deep_view() == on_update(old(self).deep_view(), update.deep_view()),
            r.deep_view() == (match update.deep_view() {
                Some(u) => raised(old(self).deep_view().notifier.raises_update(u)),
                None => Seq::empty(),
            }),
    {
        proof {
            reveal(on_update);
            reveal(App::model);
        }
        let n = match &update {
            Some(u) => self.notifier.update_available(u),
            None => None,
        };
        self.gateway_update = update;
        raise(n)
    }

    fn take_log_tail(&mut self, tail: &LogTailPayload)
        ensures
            final(self).deep_view() == on_log_tail(old(self).deep_view(), tail.deep_view()),
    {
        proof {
            reveal(on_log_tail);
            reveal(App::model);
        }
        if tail.reset {
            self.log_lines.clear();
        }
        push_lines(&mut self.log_lines, &tail.lines);
    }

    /// Takes in an event from the gateway.
    pub fn apply_ws(&mut self, event: WsEvent, c: Clock) -> (r: Vec<Effect>)
        requires
            event.deep_view() matches WsEventView::AgentMessage { agent_id, .. } ==> lookup(
                old(self).deep_view().unread,
                agent_id,
            ) != Some(usize::MAX),
        ensures
            final(self).deep_view() == on_event(old(self).deep_view(), event.deep_view(), c),
            r.deep_view() == event_effects(old(self).deep_view(), event.deep_view(), c),
    {
        proof {
            reveal(on_event);
            reveal(event_effects);
        }
        let now = c.now_ms;
        match event {
            WsEvent::CronSnapshot(crons) => {
                self.hear(now);
                return self.take_crons(&crons, now);
            },
            WsEvent::CronDelta(cron) => {
                return self.take_cron_delta(&cron, now);
            },
            WsEvent::AgentsList { default_id, agents } => {
                return self.take_agents_list(default_id, agents);
            },
            WsEvent::SessionUsageTimeseries { session_key, points } => {
                return self.take_usage(session_key, points);
            },
            WsEvent::ApprovalRequested(payload) => {
                return self.take_approval(payload, now);
            },
            WsEvent::UpdateAvailable(update) => {
                return self.take_update(update);
            },
            WsEvent::Connected => {
                self.take_connected();
                return no_items();
            },
            WsEvent::Disconnected(reason) => {
                self.take_disconnected(reason);
                return no_items();
            },
            WsEvent::ChannelSnapshot(channels) => {
                self.hear(now);
                self.take_channels(&channels, now);
                return no_items();
            },
            WsEvent::MainAgent(main) => {
                self.take_main_agent(&main, now);
                return no_items();
            },
            WsEvent::AgentIdentity { agent_id, name, emoji } => {
                self.take_identity(&agent_id, name, emoji);
                return no_items();
            },
            WsEvent::AgentMessage { agent_id, text } => {
                self.take_agent_message(&agent_id, text, c);
                return no_items();
            },
            WsEvent::AgentInboundUserMessage { .. } => {
                self.hear(now);
                return no_items();
            },
            WsEvent::AgentSilentTurn { agent_id } => {
                self.take_silent_turn(&agent_id, now);
                return no_items();
            },
            WsEvent::ChatHistory { agent_id, messages } => {
                self.take_chat_history(&agent_id, messages);
                return no_items();
            },
            WsEvent::SessionHistory { session_key, messages } => {
                self.take_session_history(session_key.as_str(), messages);
                return no_items();
            },
            WsEvent::AgentToolInvoked { agent_id, text } => {
                self.take_tool(&agent_id, text.as_str(), now);
                return no_items();
            },
            WsEvent::AgentActivity { agent_id, kind } => {
                self.take_activity(&agent_id, kind, now);
                return no_items();
            },
            WsEvent::SessionsChanged => {
                self.hear(now);
                return no_items();
            },
            WsEvent::SessionUsage(info) => {
                self.take_session_info(info);
                return no_items();
            },
            WsEvent::PairRequestPending(req) => {
                self.take_pairing(req);
                return no_items();
            },
            WsEvent::ApprovalResolved { id } => {
                self.take_resolution(&id, now);
                return no_items();
            },
            WsEvent::LogTail(tail) => {
                self.take_log_tail(&tail);
                return no_items();
            },
        }
    }
}

} // verus!
