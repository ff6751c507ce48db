//! Taking in messages: launch, the operator's actions, and the clock.
use vstd::prelude::*;

use crate::app::gateway::{find_agent_info, push_chat};
use crate::app::model::{
    awake, first_run, info_index, kinds_of, launched, on_action, on_chat_input, on_clear_token,
    on_execute, on_form, on_log_filters, on_log_tailing, on_moved, on_nav, on_palette_input,
    on_palette_move, on_reconnect, on_reset, on_resized, on_resolve_approval, on_run_cron,
    on_select_agent, on_select_session, on_send_chat, on_settings_save, on_tick, on_toggle_error,
    on_token_saved, palette_catalog, palette_closed, palette_opened, palette_rows, snapshot,
    sprite_animates, sprite_idles, step, tick_effects, tick_redraws, window_rests,
};
use crate::app::prune::{prune_activities, prune_bubbles, prune_times};
use crate::app::state::{
    App, AppView, ChatActivity, ChatActivityState, Clock, ConnectionStatus, Effect, EffectView,
    LaunchEnv, Message, MessageView, NavItem, SettingsForm, SettingsFormView, BUBBLE_MAX,
    CHAT_ACTIVITY_TIMEOUT_MS, RESET_CONFIRM_WINDOW_MS, TRANSITION_FLASH_MS, WINDOW_SAVE_DEBOUNCE_MS,
};
use crate::bubble_text::clean_bubble_text;
use crate::config::{gateway_url, given_text, resolved_url};
use crate::crypto::{is_uuid_v4_text, new_uuid};
use crate::domain::agent::{seed_roster, AgentId, AgentKind};
use crate::domain::status::AgentStatus;
use crate::keyed::{lookup, StrMap, StrSet};
use crate::logs::LogFilters;
use crate::net::commands::GatewayCommand;
use crate::net::events::WsEventView;
use crate::net::openclaw::{ConnectParams, ConnectParamsView};
use crate::net::payloads::agent_main_session_key;
use crate::notifications::Notifier;
use crate::palette::{build_entries, rank, PaletteAction, PaletteContext, PaletteEntry};
use crate::ring::Ring;
use crate::scene::flourish::{elapsed, since};
use crate::scene::thought_bubble::ThoughtBubble;
use crate::seqs::{no_items, one_item, push_to};
use crate::text::{same, trim};
use crate::ui::chat_view::ChatMessage;
use crate::ui_state::{nav_from_str, nav_to_str, Settings, UiState, WindowState};

verus! {

fn kept_text(o: &Option<String>) -> (r: Option<String>)
    ensures
        r.deep_view() == (match o.deep_view() {
            Some(k) => if k.len() == 0 {
                None
            } else {
                Some(k)
            },
            None => None,
        }),
{
    match o {
        Some(s) => if s.as_str().is_empty() {
            None
        } else {
            Some(s.clone())
        },
        None => None,
    }
}

fn as_option_str(o: &Option<String>) -> (r: Option<&str>)
    ensures
        r.deep_view() == o.deep_view(),
{
    match o {
        Some(s) => Some(s.as_str()),
        None => None,
    }
}

fn nothing_to_connect(launch: &LaunchEnv, saved_url: &Option<String>) -> (r: bool)
    ensures
        r == first_run(launch.deep_view(), saved_url.deep_view()),
{
    !launch.demo && gateway_url(
        as_option_str(&launch.gateway_url),
        as_option_str(saved_url),
    ).is_none()
}

/// What the event stream is to be connected to.
#[derive(Debug, PartialEq)]
pub enum Source {
    /// The scripted stream.
    Demo,
    /// A gateway.
    Gateway(ConnectParams),
    /// Nothing, until a gateway is configured.
    Idle,
}

/// What [`Source`] holds, as mathematical values.
#[verifier::ext_equal]
pub enum SourceView {
    Demo,
    Gateway(ConnectParamsView),
    Idle,
}

impl DeepView for Source {
    type V = SourceView;

    open spec fn deep_view(&self) -> SourceView {
        match *self {
            Source::Demo => SourceView::Demo,
            Source::Gateway(a0) => SourceView::Gateway(a0.deep_view()),
            Source::Idle => SourceView::Idle,
        }
    }
}

/// Where the events come from: the script of the demo, the gateway, or, while
/// there is none to connect to, nowhere.
pub open spec fn source_of(s: AppView) -> SourceView {
    if s.launch.demo {
        SourceView::Demo
    } else {
        match resolved_url(s.launch.gateway_url, s.settings.gateway_url) {
            Some(url) => SourceView::Gateway(
                ConnectParamsView {
                    gateway_url: url,
                    token: s.cached_token,
                    save_nonce: s.save_nonce,
                },
            ),
            None => SourceView::Idle,
        }
    }
}

/// How long the scene may stand still, in milliseconds: not at all while
/// something moves, a little while someone idles, and long otherwise.
pub open spec fn pace(s: AppView, now: u64) -> u64 {
    if s.bubbles.len() > 0 || sprite_animates(s, now) {
        33
    } else if sprite_idles(s) {
        50
    } else {
        500
    }
}

impl App {
    // -----------------------------------------------------------------
    // Launch
    // -----------------------------------------------------------------

    /// Builds the application, applying the persisted state where it is still
    /// meaningful. Without a gateway to connect to it opens on the Settings
    /// tab.
    pub fn new(
        state: UiState,
        launch: LaunchEnv,
        token_present: bool,
        cached_token: Option<String>,
    ) -> (r: App)
        ensures
            r.deep_view() == launched(
                state.deep_view(),
                launch.deep_view(),
                token_present,
                cached_token.deep_view(),
            ),
    {
        proof {
            reveal(App::model);
        }
        let unset = nothing_to_connect(&launch, &state.settings.gateway_url);
        let nav = if unset {
            NavItem::Settings
        } else {
            match &state.tab {
                Some(t) => match nav_from_str(t.as_str()) {
                    Some(n) => n,
                    None => NavItem::Overview,
                },
                None => NavItem::Overview,
            }
        };
        let selected_chat_agent = match kept_text(&state.selected_agent) {
            Some(a) => AgentId(a),
            None => AgentId::new("main"),
        };
        let connection_status = if unset || launch.demo {
            ConnectionStatus::Untested
        } else {
            ConnectionStatus::Connecting
        };
        App {
            nav,
            roster: seed_roster(),
            statuses: StrMap::new(),
            bubbles: no_items(),
            active_model: None,
            last_poll: None,
            connected: false,
            last_disconnect: None,
            pending_approvals: StrMap::new(),
            sessions: StrMap::new(),
            gateway_update: None,
            pending_pair_request: None,
            cron_details: StrMap::new(),
            cron_ids: StrMap::new(),
            channel_details: StrMap::new(),
            log_lines: Ring::new(),
            log_filters: LogFilters::default(),
            logs_auto_tail: true,
            transition_moments: StrMap::new(),
            chat_input: String::new(),
            chat_logs: StrMap::new(),
            chat_agents: no_items(),
            selected_chat_agent,
            history_fetched: StrSet::new(),
            chat_activities: StrMap::new(),
            pending_resets: StrMap::new(),
            expanded_errors: StrSet::new(),
            session_transcripts: StrMap::new(),
            session_history_fetched: StrSet::new(),
            active_session_key: kept_text(&state.active_session_key),
            unread: StrMap::new(),
            notifier: Notifier::new(),
            palette_open: false,
            palette_input: String::new(),
            palette_selected: 0,
            session_usage: StrMap::new(),
            pending_window: state.window,
            pending_window_since: None,
            settings_form: SettingsForm::from_settings(&state.settings),
            settings: state.settings,
            token_present,
            cached_token,
            connection_status,
            save_nonce: 0,
            launch,
        }
    }

    /// Whether there is nothing to connect to yet.
    pub fn first_run_incomplete(&self) -> (r: bool)
        ensures
            r == first_run(self.deep_view().launch, self.deep_view().settings.gateway_url),
    {
        proof {
            reveal(App::model);
        }
        nothing_to_connect(&self.launch, &self.settings.gateway_url)
    }

    /// What is kept for the next launch.
    pub fn ui_state_snapshot(&self) -> (r: UiState)
        ensures
            r.deep_view() == snapshot(self.deep_view()),
    {
        proof {
            reveal(App::model);
        }
        UiState {
            tab: Some(nav_to_str(self.nav).to_owned()),
            selected_agent: Some(self.selected_chat_agent.as_str().to_owned()),
            active_session_key: self.active_session_key.clone(),
            window: self.pending_window.clone(),
            settings: self.settings.clone(),
        }
    }

    // -----------------------------------------------------------------
    // Navigation and chat
    // -----------------------------------------------------------------

    pub fn nav_clicked(&mut self, item: NavItem) -> (r: Vec<Effect>)
        ensures
            (final(self).deep_view(), r.deep_view()) == on_nav(old(self).deep_view(), item),
    {
        proof {
            reveal(App::model);
            reveal(on_nav);
        }
        let mut out: Vec<Effect> = no_items();
        if self.nav != item {
            self.nav = item;
            out = one_item(Effect::SaveState(self.ui_state_snapshot()));
        }
        if item == NavItem::Chat {
            let _ = self.unread.remove(self.selected_chat_agent.as_str());
        }
        out
    }

    pub fn select_chat_agent(&mut self, id: AgentId) -> (r: Vec<Effect>)
        ensures
            (final(self).deep_view(), r.deep_view()) == on_select_agent(
                old(self).deep_view(),
                id.deep_view(),
            ),
    {
        proof {
            reveal(App::model);
            reveal(on_select_agent);
        }
        if same(self.selected_chat_agent.as_str(), id.as_str()) {
            return no_items();
        }
        let target = id.as_str().to_owned();
        self.selected_chat_agent = id;
        self.chat_input = String::new();
        let _ = self.unread.remove(target.as_str());
        let mut out: Vec<Effect> = no_items();
        let ghost before = old(self).deep_view();
        if self.history_fetched.insert(target.clone()) {
            push_to(&mut out, Effect::Send(GatewayCommand::FetchChatHistory { agent_id: target }));
        }
        push_to(&mut out, Effect::SaveState(self.ui_state_snapshot()));
        assert(out.deep_view() =~= on_select_agent(before, id.deep_view()).1);
        out
    }

    pub fn session_selected(&mut self, key: String) -> (r: Vec<Effect>)
        ensures
            (final(self).deep_view(), r.deep_view()) == on_select_session(
                old(self).deep_view(),
                key@,
            ),
    {
        proof {
            reveal(App::model);
            reveal(on_select_session);
        }
        let ghost before = old(self).deep_view();
        let shown = match &self.active_session_key {
            Some(k) => same(k.as_str(), key.as_str()),
            None => false,
        };
        let mut out: Vec<Effect> = no_items();
        if !shown {
            self.active_session_key = Some(key.clone());
            push_to(&mut out, Effect::RedrawUsage);
            push_to(&mut out, Effect::SaveState(self.ui_state_snapshot()));
        }
        if self.session_history_fetched.insert(key.clone()) {
            push_to(
                &mut out,
                Effect::Send(GatewayCommand::FetchSessionHistory { session_key: key.clone() }),
            );
            push_to(
                &mut out,
                Effect::Send(GatewayCommand::FetchSessionUsage { session_key: key }),
            );
        }
        assert(out.deep_view() =~= on_select_session(before, key@).1);
        out
    }

    /// Sends the draft to the selected agent under an idempotency key. A
    /// draft of white space is not sent.
    pub fn send_chat(&mut self, key: String, c: Clock) -> (r: Vec<Effect>)
        ensures
            (final(self).deep_view(), r.deep_view()) == on_send_chat(
                old(self).deep_view(),
                key@,
                c,
            ),
    {
        proof {
            reveal(App::model);
            reveal(on_send_chat);
        }
        let ghost before = old(self).deep_view();
        let prompt = trim(self.chat_input.as_str());
        if prompt.as_str().is_empty() {
            return no_items();
        }
        let target = self.selected_chat_agent.clone();
        self.chat_input = String::new();
        let snippet = clean_bubble_text(prompt.as_str(), BUBBLE_MAX);
        if !snippet.as_str().is_empty() {
            push_to(
                &mut self.bubbles,
                ThoughtBubble::outgoing(target.clone(), snippet, c.now_ms),
            );
        }
        push_chat(
            &mut self.chat_logs,
            target.as_str(),
            ChatMessage::user(prompt.as_str(), c.wall_secs),
        );
        self.chat_activities.insert(
            target.as_str().to_owned(),
            ChatActivityState { kind: ChatActivity::Sending, since: c.now_ms },
        );
        self.apply_status_update(&target, AgentStatus::Running, c.now_ms);
        let mut out: Vec<Effect> = one_item(Effect::RedrawScene);
        push_to(
            &mut out,
            Effect::Send(
                GatewayCommand::SendChat {
                    agent_id: target.as_str().to_owned(),
                    message: prompt,
                    idempotency_key: key,
                },
            ),
        );
        assert(out.deep_view() =~= on_send_chat(before, key@, c).1);
        out
    }

    pub fn run_cron(&mut self, id: &AgentId) -> (r: Vec<Effect>)
        ensures
            (final(self).deep_view(), r.deep_view()) == on_run_cron(
                old(self).deep_view(),
                id.deep_view(),
            ),
    {
        proof {
            reveal(App::model);
            reveal(on_run_cron);
        }
        match self.cron_ids.get(id.as_str()) {
            Some(uuid) => one_item(Effect::Send(GatewayCommand::RunCron { job_id: uuid.clone() })),
            None => no_items(),
        }
    }

    pub fn reset_main_session(&mut self, id: &AgentId, now: u64) -> (r: Vec<Effect>)
        ensures
            (final(self).deep_view(), r.deep_view()) == on_reset(
                old(self).deep_view(),
                id.deep_view(),
                now,
            ),
    {
        proof {
            reveal(App::model);
            reveal(on_reset);
        }
        let armed = match self.pending_resets.get(id.as_str()) {
            Some(t) => since(now, *t) < RESET_CONFIRM_WINDOW_MS,
            None => false,
        };
        if armed {
            let _ = self.pending_resets.remove(id.as_str());
            one_item(
                Effect::Send(
                    GatewayCommand::ResetSession {
                        session_key: agent_main_session_key(id.as_str()),
                    },
                ),
            )
        } else {
            self.pending_resets.insert(id.as_str().to_owned(), now);
            no_items()
        }
    }

    fn resolve_approval(&mut self, id: String, decision: &'static str) -> (r: Vec<Effect>)
        ensures
            (final(self).deep_view(), r.deep_view()) == step(
                old(self).deep_view(),
                MessageView::ResolveApproval { id: id@, decision: decision@ },
                Clock { now_ms: 0, wall_secs: 0 },
                Seq::empty(),
            ),
    {
        proof {
            reveal(App::model);
            reveal(on_resolve_approval);
        }
        let _ = self.pending_approvals.remove(id.as_str());
        one_item(
            Effect::Send(GatewayCommand::ResolveApproval { id, decision: decision.to_owned() }),
        )
    }

    // -----------------------------------------------------------------
    // The palette
    // -----------------------------------------------------------------

    fn agent_kinds(&self) -> (r: StrMap<AgentKind>)
        ensures
            r.deep_view() == kinds_of(self.deep_view().roster),
    {
        proof {
            reveal(App::model);
        }
        let ghost all = self.roster.deep_view();
        let mut kinds: StrMap<AgentKind> = StrMap::new();
        let mut i: usize = 0;
        assert(all.take(0).len() == 0);
        while i < self.roster.len()
            invariant
                i <= self.roster@.len(),
                all == self.roster.deep_view(),
                kinds.deep_view() == kinds_of(all.take(i as int)),
            decreases self.roster@.len() - i,
        {
            assert(all.take(i + 1).drop_last() =~= all.take(i as int));
            assert(all.take(i + 1).last() == self.roster@[i as int].deep_view());
            kinds.insert(self.roster[i].id.as_str().to_owned(), self.roster[i].kind);
            i = i + 1;
        }
        assert(all.take(i as int) =~= all);
        kinds
    }

    /// The palette's catalog.
    pub fn palette_entries(&self) -> (r: Vec<PaletteEntry>)
        ensures
            r.deep_view() == palette_catalog(self.deep_view()),
    {
        proof {
            reveal(App::model);
        }
        let kinds = self.agent_kinds();
        build_entries(
            PaletteContext {
                chat_agents: &self.chat_agents,
                cron_details: &self.cron_details,
                cron_ids: &self.cron_ids,
                sessions: &self.sessions,
                agent_kind: &kinds,
            },
        )
    }

    /// The palette's catalog, the order in which its rows show, and the row
    /// that is selected.
    pub fn palette_list(&self) -> (r: (Vec<PaletteEntry>, Vec<(usize, u32)>, usize))
        ensures
            r.0.deep_view() == palette_catalog(self.deep_view()),
            r.1@ == palette_rows(self.deep_view()),
            r.2 == (if r.1@.len() == 0 {
                0int
            } else if self.deep_view().palette_selected < r.1@.len() {
                self.deep_view().palette_selected as int
            } else {
                r.1@.len() - 1
            }),
    {
        proof {
            reveal(App::model);
        }
        let entries = self.palette_entries();
        let rows = rank(&entries, self.palette_input.as_str());
        let n = rows.len();
        let selected: usize = if n == 0 {
            0
        } else if self.palette_selected < n {
            self.palette_selected
        } else {
            n - 1
        };
        (entries, rows, selected)
    }

    fn close_palette(&mut self)
        ensures
            final(self).deep_view() == palette_closed(old(self).deep_view()),
    {
        proof {
            reveal(App::model);
            reveal(palette_closed);
        }
        self.palette_open = false;
        self.palette_input = String::new();
        self.palette_selected = 0;
    }

    fn open_palette(&mut self)
        ensures
            final(self).deep_view() == palette_opened(old(self).deep_view()),
    {
        proof {
            reveal(App::model);
            reveal(palette_opened);
        }
        self.palette_open = true;
        self.palette_selected = 0;
    }

    fn palette_typed(&mut self, value: String)
        ensures
            final(self).deep_view() == on_palette_input(old(self).deep_view(), value@),
    {
        proof {
            reveal(App::model);
            reveal(on_palette_input);
        }
        self.palette_input = value;
        let (_, rows, selected) = self.palette_list();
        self.palette_selected = selected;
    }

    fn palette_moved(&mut self, delta: i32)
        ensures
            final(self).deep_view() == on_palette_move(old(self).deep_view(), delta),
    {
        proof {
            reveal(App::model);
            reveal(on_palette_move);
        }
        if !self.palette_open {
            return;
        }
        let (_, rows, _) = self.palette_list();
        let n = rows.len();
        if n == 0 {
            return;
        }
        self.palette_selected = wrap(self.palette_selected, delta, n);
    }

    fn act(&mut self, action: PaletteAction, now: u64) -> (r: Vec<Effect>)
        ensures
            (final(self).deep_view(), r.deep_view()) == on_action(
                old(self).deep_view(),
                action.deep_view(),
                now,
            ),
    {
        proof {
            reveal(on_action);
        }
        match action {
            PaletteAction::Nav(item) => self.nav_clicked(item),
            PaletteAction::RunCron(id) => self.run_cron(&id),
            PaletteAction::ChatWithAgent(id) => {
                let first = self.nav_clicked(NavItem::Chat);
                let second = self.select_chat_agent(id);
                join_effects(first, second)
            },
            PaletteAction::OpenSession(key) => {
                let first = self.nav_clicked(NavItem::Sessions);
                let second = self.session_selected(key);
                join_effects(first, second)
            },
            PaletteAction::ResetMainSession(id) => self.reset_main_session(&id, now),
        }
    }

    /// Carries out the row at `idx` and closes the palette.
    pub fn palette_execute(&mut self, idx: usize, now: u64) -> (r: Vec<Effect>)
        ensures
            (final(self).deep_view(), r.deep_view()) == on_execute(
                old(self).deep_view(),
                idx as int,
                now,
            ),
    {
        proof {
            reveal(on_execute);
        }
        let (entries, rows, _) = self.palette_list();
        proof {
            crate::palette::ranking_positions(
                palette_catalog(self.deep_view()),
                self.deep_view().palette_input,
            );
        }
        if idx >= rows.len() {
            proof {
                reveal(App::model);
            }
            self.palette_open = false;
            return no_items();
        }
        let at = rows[idx].0;
        assert(entries.deep_view()[at as int] == entries@[at as int].deep_view());
        let action = entries[at].action.clone();
        self.close_palette();
        self.act(action, now)
    }

    // -----------------------------------------------------------------
    // Settings and the window
    // -----------------------------------------------------------------

    fn settings_save(&mut self) -> (r: Vec<Effect>)
        ensures
            (final(self).deep_view(), r.deep_view()) == on_settings_save(old(self).deep_view()),
    {
        proof {
            reveal(App::model);
            reveal(on_settings_save);
        }
        let ghost before = old(self).deep_view();
        self.settings.gateway_url = given_text(Some(self.settings_form.gateway_url.as_str()));
        self.settings.mode = if same(self.settings_form.mode, "ws") || same(
            self.settings_form.mode,
            "mock",
        ) {
            Some(self.settings_form.mode.to_owned())
        } else {
            None
        };
        let mut out: Vec<Effect> = one_item(Effect::SaveState(self.ui_state_snapshot()));
        let token = trim(self.settings_form.token.as_str());
        if !token.as_str().is_empty() {
            push_to(&mut out, Effect::StoreToken(token));
        }
        assert(out.deep_view() =~= on_settings_save(before).1);
        self.save_nonce = if self.save_nonce == u64::MAX {
            0
        } else {
            self.save_nonce + 1
        };
        self.connection_status = if self.first_run_incomplete() {
            ConnectionStatus::Untested
        } else {
            ConnectionStatus::Connecting
        };
        out
    }

    fn token_saved(&mut self, token: Option<String>)
        ensures
            final(self).deep_view() == on_token_saved(old(self).deep_view(), token.deep_view()),
    {
        proof {
            reveal(App::model);
            reveal(on_token_saved);
        }
        self.token_present = true;
        self.cached_token = token;
        self.settings_form.token = String::new();
    }

    fn clear_token(&mut self)
        ensures
            final(self).deep_view() == on_clear_token(old(self).deep_view()),
    {
        proof {
            reveal(App::model);
            reveal(on_clear_token);
        }
        self.token_present = false;
        self.settings_form.token = String::new();
        self.cached_token = None;
    }

    fn window_resized(&mut self, width: String, height: String, now: u64)
        ensures
            final(self).deep_view() == on_resized(old(self).deep_view(), width@, height@, now),
    {
        proof {
            reveal(App::model);
            reveal(on_resized);
        }
        let position = match &self.pending_window {
            Some(w) => match &w.position {
                Some((x, y)) => Some((x.clone(), y.clone())),
                None => None,
            },
            None => None,
        };
        self.pending_window = Some(WindowState { width, height, position });
        self.pending_window_since = Some(now);
    }

    fn window_moved(&mut self, x: String, y: String, now: u64)
        ensures
            final(self).deep_view() == on_moved(old(self).deep_view(), x@, y@, now),
    {
        proof {
            reveal(App::model);
            reveal(on_moved);
        }
        let (width, height) = match &self.pending_window {
            Some(w) => (w.width.clone(), w.height.clone()),
            None => ("1280.0".to_owned(), "800.0".to_owned()),
        };
        self.pending_window = Some(WindowState { width, height, position: Some((x, y)) });
        self.pending_window_since = Some(now);
    }

    // -----------------------------------------------------------------
    // The clock
    // -----------------------------------------------------------------

    /// Whether a sprite moves.
    pub fn any_sprite_animating(&self, now: u64) -> (r: bool)
        ensures
            r == sprite_animates(self.deep_view(), now),
    {
        proof {
            reveal(App::model);
        }
        let ghost s = self.deep_view();
        let n = self.statuses.len();
        let mut i: usize = 0;
        while i < n
            invariant
                n == s.statuses.len(),
                s.statuses == self.statuses.deep_view(),
                s == self.deep_view(),
                i <= n,
                forall|k: int| 0 <= k < i ==> (#[trigger] s.statuses[k]).1 != AgentStatus::Running,
            decreases n - i,
        {
            if *self.statuses.value_at(i) == AgentStatus::Running {
                assert(s.statuses[i as int].1 == AgentStatus::Running);
                return true;
            }
            i = i + 1;
        }
        let m = self.transition_moments.len();
        let mut j: usize = 0;
        while j < m
            invariant
                m == s.transition_moments.len(),
                s.transition_moments == self.transition_moments.deep_view(),
                s == self.deep_view(),
                j <= m,
                forall|k: int|
                    0 <= k < j ==> elapsed(now, (#[trigger] s.transition_moments[k]).1)
                        >= TRANSITION_FLASH_MS,
            decreases m - j,
        {
            if since(now, *self.transition_moments.value_at(j)) < TRANSITION_FLASH_MS {
                assert(elapsed(now, s.transition_moments[j as int].1) < TRANSITION_FLASH_MS);
                return true;
            }
            j = j + 1;
        }
        false
    }

    fn any_awake(&self, channels: bool) -> (r: bool)
        ensures
            r == exists|i: int|
                0 <= i < self.deep_view().roster.len() && awake(
                    self.deep_view(),
                    #[trigger] self.deep_view().roster[i],
                    channels,
                ),
    {
        proof {
            reveal(App::model);
        }
        let ghost s = self.deep_view();
        let mut i: usize = 0;
        while i < self.roster.len()
            invariant
                s == self.deep_view(),
                s.roster == self.roster.deep_view(),
                s.statuses == self.statuses.deep_view(),
                i <= self.roster@.len(),
                forall|k: int| 0 <= k < i ==> !awake(s, #[trigger] s.roster[k], channels),
            decreases self.roster@.len() - i,
        {
            assert(s.roster[i as int] == self.roster@[i as int].deep_view());
            let is_channel = self.roster[i].kind == AgentKind::Channel;
            let status = match self.statuses.get(self.roster[i].id.as_str()) {
                Some(t) => *t,
                None => AgentStatus::Unknown,
            };
            if is_channel == channels && status != AgentStatus::Disabled {
                assert(awake(s, s.roster[i as int], channels));
                return true;
            }
            i = i + 1;
        }
        false
    }

    /// Whether an agent or a cron walks in place.
    pub fn any_sprite_idle_cycling(&self) -> (r: bool)
        ensures
            r == sprite_idles(self.deep_view()),
    {
        self.any_awake(false)
    }

    fn tick(&mut self, now: u64) -> (r: Vec<Effect>)
        ensures
            final(self).deep_view() == on_tick(old(self).deep_view(), now),
            r.deep_view() == tick_effects(old(self).deep_view(), now),
    {
        let ghost start = self.deep_view();
        let before = self.bubbles.len();
        let mut out: Vec<Effect> = no_items();
        let rests = match self.pending_window_since {
            Some(t) => since(now, t) >= WINDOW_SAVE_DEBOUNCE_MS,
            None => false,
        };
        if rests {
            out = one_item(Effect::SaveState(self.ui_state_snapshot()));
        }
        assert(rests == window_rests(start, now)) by {
            reveal(App::model);
        }
        assert(before == start.bubbles.len()) by {
            reveal(App::model);
        }
        self.prune(now, rests);
        proof {
            reveal(App::model);
            reveal(on_tick);
            reveal(tick_effects);
        }
        let redraw = self.bubbles.len() != before || self.bubbles.len() > 0
            || self.any_sprite_animating(now) || self.any_sprite_idle_cycling() || self.any_awake(
            true,
        );
        assert(redraw == tick_redraws(start, now));
        if redraw {
            push_to(&mut out, Effect::RedrawScene);
        }
        out
    }

    fn prune(&mut self, now: u64, rests: bool)
        requires
            rests == window_rests(old(self).deep_view(), now),
        ensures
            final(self).deep_view() == on_tick(old(self).deep_view(), now),
    {
        proof {
            reveal(App::model);
            reveal(on_tick);
        }
        prune_bubbles(&mut self.bubbles, now);
        prune_times(&mut self.transition_moments, now, TRANSITION_FLASH_MS);
        if rests {
            self.pending_window_since = None;
        }
        prune_activities(&mut self.chat_activities, now, CHAT_ACTIVITY_TIMEOUT_MS);
        prune_times(&mut self.pending_resets, now, RESET_CONFIRM_WINDOW_MS);
    }

    /// How long to wait until the next tick, in milliseconds: short while
    /// anything moves, a little longer while sprites walk in place, long on a
    /// still scene.
    pub fn tick_interval_ms(&self, now: u64) -> (r: u64)
        ensures
            r == pace(self.deep_view(), now),
    {
        proof {
            reveal(App::model);
        }
        if self.bubbles.len() > 0 || self.any_sprite_animating(now) {
            33
        } else if self.any_sprite_idle_cycling() {
            50
        } else {
            500
        }
    }

    // -----------------------------------------------------------------
    // What is shown around the tabs
    // -----------------------------------------------------------------

    /// What the event stream is to be connected to: the scripted one, the
    /// gateway under the resolved URL, or nothing.
    pub fn subscription(&self) -> (r: Source)
        ensures
            r.deep_view() == source_of(self.deep_view()),
    {
        proof {
            reveal(App::model);
        }
        if self.launch.demo {
            return Source::Demo;
        }
        match gateway_url(
            as_option_str(&self.launch.gateway_url),
            as_option_str(&self.settings.gateway_url),
        ) {
            Some(url) => Source::Gateway(
                ConnectParams {
                    gateway_url: url,
                    token: self.cached_token.clone(),
                    save_nonce: self.save_nonce,
                },
            ),
            None => Source::Idle,
        }
    }

    /// The selected agent's display name: its persona, else its id.
    pub fn selected_chat_display(&self) -> (r: String)
        ensures
            r@ == ({
                let s = self.deep_view();
                let i = info_index(s.chat_agents, s.selected_chat_agent);
                if i < s.chat_agents.len() {
                    s.chat_agents[i].shown_with_emoji()
                } else {
                    s.selected_chat_agent
                }
            }),
    {
        proof {
            reveal(App::model);
        }
        let i = find_agent_info(&self.chat_agents, self.selected_chat_agent.as_str());
        if i < self.chat_agents.len() {
            assert(self.deep_view().chat_agents[i as int] == self.chat_agents@[i as int].deep_view());
            self.chat_agents[i].display_with_emoji()
        } else {
            self.selected_chat_agent.as_str().to_owned()
        }
    }

    /// How many replies are unread, over all agents.
    pub fn total_unread(&self) -> (r: usize)
        requires
            unread_sum(self.deep_view().unread) <= usize::MAX,
        ensures
            r == unread_sum(self.deep_view().unread),
    {
        proof {
            reveal(App::model);
        }
        let ghost all = self.unread.deep_view();
        let n = self.unread.len();
        let mut total: usize = 0;
        let mut i: usize = 0;
        assert(all.take(0).len() == 0);
        while i < n
            invariant
                n == all.len(),
                all == self.unread.deep_view(),
                i <= n,
                total == unread_sum(all.take(i as int)),
                unread_sum(all) <= usize::MAX,
            decreases n - i,
        {
            assert(all.take(i + 1).drop_last() =~= all.take(i as int));
            assert(all.take(i + 1).last() == all[i as int]);
            proof {
                unread_sum_grows(all, i + 1);
            }
            total = total + *self.unread.value_at(i);
            i = i + 1;
        }
        assert(all.take(i as int) =~= all);
        total
    }

    // -----------------------------------------------------------------
    // Messages
    // -----------------------------------------------------------------

    /// Takes in a message. A prompt that it sends goes out under a fresh
    /// idempotency key.
    pub fn update(&mut self, message: Message, c: Clock) -> (r: Vec<Effect>)
        requires
            message.deep_view() matches MessageView::Ws(
                WsEventView::AgentMessage { agent_id, .. },
            ) ==> lookup(old(self).deep_view().unread, agent_id) != Some(usize::MAX),
        ensures
            exists|key: Seq<char>|
                is_uuid_v4_text(key) && (final(self).deep_view(), r.deep_view()) == #[trigger] step(
                    old(self).deep_view(),
                    message.deep_view(),
                    c,
                    key,
                ),
    {
        let key = new_uuid();
        self.update_with(message, c, key)
    }

    /// Takes in a message; `key` is the idempotency key of a prompt that it
    /// sends.
    pub fn update_with(&mut self, message: Message, c: Clock, key: String) -> (r: Vec<Effect>)
        requires
            message.deep_view() matches MessageView::Ws(
                WsEventView::AgentMessage { agent_id, .. },
            ) ==> lookup(old(self).deep_view().unread, agent_id) != Some(usize::MAX),
        ensures
            (final(self).deep_view(), r.deep_view()) == step(
                old(self).deep_view(),
                message.deep_view(),
                c,
                key@,
            ),
    {
        match message {
            Message::NavClicked(item) => {
                return self.nav_clicked(item);
            },
            Message::Ws(event) => {
                let mut out = self.apply_ws(event, c);
                push_to(&mut out, Effect::RedrawScene);
                return out;
            },
            Message::Tick => {
                return self.tick(c.now_ms);
            },
            Message::ResolveApproval { id, decision } => {
                return self.resolve_approval(id, decision);
            },
            Message::CopyToClipboard(value) => {
                return one_item(Effect::Copy(value));
            },
            Message::InputDiscard(_) => {
                return no_items();
            },
            Message::RunCron(id) => {
                return self.run_cron(&id);
            },
            Message::RequestReconnect => {
                self.forget_pairing();
                return one_item(Effect::Send(GatewayCommand::Reconnect));
            },
            Message::ChatInputChanged(value) => {
                self.chat_typed(value);
                return no_items();
            },
            Message::SendChat => {
                return self.send_chat(key, c);
            },
            Message::SelectChatAgent(id) => {
                return self.select_chat_agent(id);
            },
            Message::LogsToggleSeverity(sev) => {
                self.toggle_severity(sev);
                return no_items();
            },
            Message::LogsSearchChanged(value) => {
                self.search_logs(value);
                return no_items();
            },
            Message::LogsScrolled(pinned) => {
                self.tail_logs(pinned);
                return no_items();
            },
            Message::LogsJumpToLatest => {
                self.tail_logs(true);
                return one_item(Effect::SnapLogsToEnd);
            },
            Message::ResetMainSession(id) => {
                return self.reset_main_session(&id, c.now_ms);
            },
            Message::ToggleAgentError(id) => {
                self.toggle_error(&id);
                return no_items();
            },
            Message::SessionSelected(session_key) => {
                return self.session_selected(session_key);
            },
            Message::PaletteToggle => {
                return self.toggle_palette();
            },
            Message::PaletteClose => {
                self.close_palette();
                return no_items();
            },
            Message::PaletteInputChanged(value) => {
                self.palette_typed(value);
                return no_items();
            },
            Message::PaletteMove(delta) => {
                self.palette_moved(delta);
                return no_items();
            },
            Message::PaletteExecute => {
                return self.execute_selected(c.now_ms);
            },
            Message::PaletteSelectAndExecute(idx) => {
                return self.palette_execute(idx, c.now_ms);
            },
            Message::WindowResized(width, height) => {
                self.window_resized(width, height, c.now_ms);
                return no_items();
            },
            Message::WindowMoved(x, y) => {
                self.window_moved(x, y, c.now_ms);
                return no_items();
            },
            Message::SettingsGatewayUrlChanged(value) => {
                self.url_typed(value);
                return no_items();
            },
            Message::SettingsModeSelected(value) => {
                self.mode_selected(value);
                return no_items();
            },
            Message::SettingsTokenChanged(value) => {
                self.token_typed(value);
                return no_items();
            },
            Message::SettingsSave => {
                return self.settings_save();
            },
            Message::SettingsClearToken => {
                self.clear_token();
                return one_item(Effect::PurgeToken);
            },
            Message::TokenSaved(token) => {
                self.token_saved(token);
                return no_items();
            },
        }
    }

    fn toggle_palette(&mut self) -> (r: Vec<Effect>)
        ensures
            (final(self).deep_view(), r.deep_view()) == (if old(self).deep_view().palette_open {
                (palette_closed(old(self).deep_view()), Seq::empty())
            } else {
                (palette_opened(old(self).deep_view()), seq![EffectView::FocusPalette])
            }),
    {
        assert(self.palette_open == self.deep_view().palette_open) by {
            reveal(App::model);
        }
        if self.palette_open {
            self.close_palette();
            no_items()
        } else {
            self.open_palette();
            one_item(Effect::FocusPalette)
        }
    }

    fn execute_selected(&mut self, now: u64) -> (r: Vec<Effect>)
        ensures
            (final(self).deep_view(), r.deep_view()) == on_execute(
                old(self).deep_view(),
                old(self).deep_view().palette_selected as int,
                now,
            ),
    {
        assert(self.palette_selected == self.deep_view().palette_selected) by {
            reveal(App::model);
        }
        let selected = self.palette_selected;
        self.palette_execute(selected, now)
    }

    fn forget_pairing(&mut self)
        ensures
            final(self).deep_view() == on_reconnect(old(self).deep_view()),
    {
        proof {
            reveal(App::model);
            reveal(on_reconnect);
        }
        self.pending_pair_request = None;
    }

    fn chat_typed(&mut self, value: String)
        ensures
            final(self).deep_view() == on_chat_input(old(self).deep_view(), value@),
    {
        proof {
            reveal(App::model);
            reveal(on_chat_input);
        }
        self.chat_input = value;
    }

    fn toggle_severity(&mut self, sev: crate::logs::LogSeverity)
        ensures
            final(self).deep_view() == on_log_filters(
                old(self).deep_view(),
                old(self).deep_view().log_filters.toggled(sev),
            ),
    {
        proof {
            reveal(App::model);
            reveal(on_log_filters);
        }
        self.log_filters.toggle(sev);
    }

    fn search_logs(&mut self, value: String)
        ensures
            final(self).deep_view() == on_log_filters(
                old(self).deep_view(),
                crate::logs::LogFiltersView {
                    search: value@,
                    ..old(self).deep_view().log_filters
                },
            ),
    {
        proof {
            reveal(App::model);
            reveal(on_log_filters);
        }
        self.log_filters.search = value;
    }

    fn tail_logs(&mut self, on: bool)
        ensures
            final(self).deep_view() == on_log_tailing(old(self).deep_view(), on),
    {
        proof {
            reveal(App::model);
            reveal(on_log_tailing);
        }
        self.logs_auto_tail = on;
    }

    fn toggle_error(&mut self, id: &AgentId)
        ensures
            final(self).deep_view() == on_toggle_error(old(self).deep_view(), id.deep_view()),
    {
        proof {
            reveal(App::model);
            reveal(on_toggle_error);
        }
        if !self.expanded_errors.remove(id.as_str()) {
            let _ = self.expanded_errors.insert(id.as_str().to_owned());
        }
    }

    fn url_typed(&mut self, value: String)
        ensures
            final(self).deep_view() == on_form(
                old(self).deep_view(),
                SettingsFormView { gateway_url: value@, ..old(self).deep_view().settings_form },
            ),
    {
        proof {
            reveal(App::model);
            reveal(on_form);
        }
        self.settings_form.gateway_url = value;
    }

    fn mode_selected(&mut self, value: &'static str)
        ensures
            final(self).deep_view() == on_form(
                old(self).deep_view(),
                SettingsFormView { mode: value@, ..old(self).deep_view().settings_form },
            ),
    {
        proof {
            reveal(App::model);
            reveal(on_form);
        }
        self.settings_form.mode = value;
    }

    fn token_typed(&mut self, value: String)
        ensures
            final(self).deep_view() == on_form(
                old(self).deep_view(),
                SettingsFormView { token: value@, ..old(self).deep_view().settings_form },
            ),
    {
        proof {
            reveal(App::model);
            reveal(on_form);
        }
        self.settings_form.token = value;
    }
}

/// How many replies are unread, over all agents.
pub open spec fn unread_sum(m: Seq<(Seq<char>, usize)>) -> int
    decreases m.len(),
{
    if m.len() == 0 {
        0
    } else {
        unread_sum(m.drop_last()) + m.last().1
    }
}

proof fn unread_sum_grows(m: Seq<(Seq<char>, usize)>, n: int)
    requires
        0 <= n <= m.len(),
    ensures
        unread_sum(m.take(n)) <= unread_sum(m),
    decreases m.len() - n,
{
    if n < m.len() {
        unread_sum_grows(m, n + 1);
        assert(m.take(n + 1).drop_last() =~= m.take(n));
    } else {
        assert(m.take(n) =~= m);
    }
}

/// `at` moved by `delta` around a list of `n` rows.
fn wrap(at: usize, delta: i32, n: usize) -> (r: usize)
    requires
        n > 0,
    ensures
        r == (at + delta) % (n as int),
        r < n,
{
    let len: u128 = n as u128;
    let base: u128 = (at as u128) % len;
    let size: u128 = if delta < 0 {
        (-(delta as i64)) as u128
    } else {
        delta as u128
    };
    let back: u128 = size % len;
    let next: u128 = if delta < 0 {
        (base + len - back) % len
    } else {
        (base + back) % len
    };
    proof {
        let m = n as int;
        let a = at as int;
        let d = delta as int;
        if delta < 0 {
            wrap_back(a, -d, m);
        } else {
            vstd::arithmetic::div_mod::lemma_add_mod_noop(a, d, m);
        }
        assert(0 <= next < len);
    }
    next as usize
}

proof fn wrap_back(a: int, k: int, m: int)
    requires
        m > 0,
        k >= 0,
    ensures
        (a % m + m - k % m) % m == (a - k) % m,
{
    vstd::arithmetic::div_mod::lemma_sub_mod_noop(a, k, m);
    vstd::arithmetic::div_mod::lemma_mod_add_multiples_vanish(a % m - k % m, m);
}

fn join_effects(a: Vec<Effect>, b: Vec<Effect>) -> (r: Vec<Effect>)
    ensures
        r.deep_view() == a.deep_view() + b.deep_view(),
{
    let mut out = a;
    let mut rest = b;
    let ghost x = out.deep_view();
    let ghost y = rest.deep_view();
    out.append(&mut rest);
    assert(out.deep_view() =~= x + y);
    out
}

} // verus!
