//! What the window shows of the application's state, tab by tab.
use vstd::prelude::*;

use crate::app::model::{first_run, info_index, palette_catalog, palette_rows};
use crate::app::state::{App, AppView};
use crate::domain::agent::AgentView;
use crate::domain::job::Job;
use crate::domain::room::{default_rooms, first_rooms};
use crate::domain::status::AgentStatus;
use crate::keyed::{key_index_bounds, lookup, put, StrMap};
use crate::net::rpc::{AgentInfoView, ApprovalEventPayloadView, SessionInfoView};
use crate::palette::ranking_positions;
use crate::scene::office::{floating, placed, OfficePlan, OfficeScene, OfficeView};
use crate::text::{decimal, trimmed};
use crate::ui::agent_card::{self, agent_card, AgentCard};
use crate::ui::agents_view::{
    self, chat_agents, chat_agents_of, job_of, jobs_among, jobs_of, page_rows, AgentsPage,
    AgentsSnapshotView, AgentsViewSnapshot, MAIN_SESSION,
};
use crate::ui::approvals::{self, approval_row, ApprovalRow};
use crate::ui::chat_input::{self, input_state, ChatInput};
use crate::ui::chat_view::{self, chat_pane, picker_row, ChatPage, ChatPaneView, PickerRowView};
use crate::ui::logs_view::{self, chips_of, empty_notice, shown_rows, LogsPage};
use crate::ui::palette::{self as palette_view, palette_rows as listed_rows, PalettePage};
use crate::ui::sessions_view::{
    self, listed, session_card, session_detail, SessionCardView, SessionDetailView, SessionsPage,
    SessionsViewSnapshot,
};
use crate::ui::settings_view::{
    self, connection_text, home_row, mode_choices, room_row, saved_text, token_text, SettingsPage,
};
use crate::ui::status_bar::{
    self, bar_chunks, connection, reason_cuts_cleanly, SnapshotView, StatusBar,
};

verus! {

/// The Overview tab.
#[derive(Debug)]
pub struct Overview {
    pub plan: OfficePlan,
    pub cards: Vec<AgentCard>,
    pub input: ChatInput,
}

/// What stands below every tab.
#[derive(Debug)]
pub struct BottomStrip {
    pub approvals: Vec<ApprovalRow>,
    pub status: StatusBar,
}

/// What the office is drawn from: everyone lives in the rooms of the first
/// launch.
pub open spec fn office_of(s: AppView) -> OfficeView {
    OfficeView {
        roster: s.roster,
        jobs: Seq::empty(),
        statuses: s.statuses,
        rooms: first_rooms(),
        agent_rooms: Seq::empty(),
        job_rooms: Seq::empty(),
        bubbles: s.bubbles,
        transition_moments: s.transition_moments,
    }
}

/// The selected agent's display name.
pub open spec fn selected_display(s: AppView) -> Seq<char> {
    let i = info_index(s.chat_agents, s.selected_chat_agent);
    if i < s.chat_agents.len() {
        s.chat_agents[i].shown_with_emoji()
    } else {
        s.selected_chat_agent
    }
}

/// The picker of the Chat tab.
pub open spec fn picker_of(s: AppView) -> Seq<PickerRowView> {
    s.chat_agents.map_values(
        |a: AgentInfoView| picker_row(a, s.selected_chat_agent, s.unread),
    )
}

/// The chat of the Chat tab.
pub open spec fn pane_of(s: AppView) -> ChatPaneView {
    chat_pane(
        s.chat_agents,
        s.selected_chat_agent,
        lookup(s.chat_logs, s.selected_chat_agent),
        lookup(s.chat_activities, s.selected_chat_agent),
        s.chat_input,
        s.connected,
    )
}

/// The cards of the Sessions tab.
pub open spec fn cards_of(s: AppView, now_ms: int) -> Seq<SessionCardView> {
    listed(s.sessions).map_values(
        |i: SessionInfoView| session_card(i, s.active_session_key, now_ms),
    )
}

/// The open session of the Sessions tab.
pub open spec fn detail_of(s: AppView, now_ms: int) -> Option<SessionDetailView> {
    match s.active_session_key {
        Some(k) => Some(
            session_detail(
                listed(s.sessions),
                k,
                lookup(s.session_transcripts, k),
                s.session_history_fetched.contains(k),
                lookup(s.session_usage, k),
                s.connected,
                now_ms,
            ),
        ),
        None => None,
    }
}

/// What the Agents tab is drawn from: the chat agents of the roster, and its
/// other entries as jobs.
pub open spec fn agents_of(s: AppView) -> AgentsSnapshotView {
    AgentsSnapshotView {
        roster: chat_agents_of(s.roster, s.roster.len() as int),
        jobs: jobs_among(s.roster, s.statuses, s.roster.len() as int),
        statuses: s.statuses,
        cron_details: s.cron_details,
        cron_ids: s.cron_ids,
        channel_details: s.channel_details,
        active_model: s.active_model,
        sessions: s.sessions,
        pending_resets: s.pending_resets,
        expanded_errors: s.expanded_errors,
    }
}

/// What the status bar is drawn from.
pub open spec fn status_of_app(s: AppView) -> SnapshotView {
    SnapshotView {
        connected: s.connected,
        agents_tracked: s.statuses.len() as usize,
        last_poll: s.last_poll,
        active_model: s.active_model,
        last_disconnect: s.last_disconnect,
        main_usage: match lookup(s.sessions, MAIN_SESSION@) {
            Some(info) => match (info.total_tokens, info.context_tokens) {
                (Some(total), Some(ctx)) => Some((total, ctx)),
                _ => None,
            },
            None => None,
        },
        pending_approvals: s.pending_approvals.len() as usize,
        update: match s.gateway_update {
            Some(u) => Some((u.current, u.latest)),
            None => None,
        },
    }
}

/// The roster falls into chat agents and jobs, and no entry is counted twice.
pub proof fn roster_splits(
    roster: Seq<AgentView>,
    statuses: Seq<(Seq<char>, AgentStatus)>,
    n: int,
)
    requires
        0 <= n <= roster.len(),
    ensures
        chat_agents_of(roster, n).len() + jobs_among(roster, statuses, n).len() <= n,
    decreases n,
{
    if n > 0 {
        roster_splits(roster, statuses, n - 1);
        let before = jobs_among(roster, statuses, n - 1);
        match job_of(roster[n - 1], statuses) {
            Some(job) => {
                key_index_bounds(before, job.id);
                assert(put(before, job.id, job).len() <= before.len() + 1);
            },
            None => {},
        }
    }
}

impl App {
    /// The Overview tab at `now`.
    pub fn overview(&self, now: u64) -> (r: Overview)
        ensures
            ({
                let s = self.deep_view();
                let agents = placed(office_of(s), now, s.roster.len() as int);
                &&& r.plan.agents.deep_view() == agents
                &&& r.plan.bubbles.deep_view() == floating(
                    s.bubbles,
                    agents,
                    now,
                    s.bubbles.len() as int,
                )
                &&& r.cards.deep_view() == s.roster.map_values(
                    |a: AgentView| agent_card(a, s.statuses),
                )
                &&& r.input.deep_view() == input_state(
                    s.chat_input,
                    s.connected,
                    selected_display(s),
                )
            }),
    {
        proof {
            reveal(App::model);
        }
        let jobs: StrMap<Job> = StrMap::new();
        let rooms = default_rooms();
        let agent_rooms: StrMap<String> = StrMap::new();
        let job_rooms: StrMap<String> = StrMap::new();
        let scene = OfficeScene {
            roster: &self.roster,
            jobs: &jobs,
            statuses: &self.statuses,
            rooms: &rooms,
            agent_rooms: &agent_rooms,
            job_rooms: &job_rooms,
            bubbles: &self.bubbles,
            transition_moments: &self.transition_moments,
        };
        Overview {
            plan: scene.draw(now),
            cards: agent_card::row_view(&self.roster, &self.statuses),
            input: chat_input::view(
                self.chat_input.as_str(),
                self.connected,
                self.selected_chat_display().as_str(),
            ),
        }
    }

    /// The Agents tab at `now_ms`, in milliseconds since the epoch.
    pub fn agents_page(&self, now_ms: i64) -> (r: AgentsPage)
        ensures
            r.count@ == decimal(
                agents_of(self.deep_view()).roster.len() + agents_of(self.deep_view()).jobs.len(),
            ) + " tracked"@,
            r.rows.deep_view() == page_rows(agents_of(self.deep_view()), now_ms as int),
    {
        proof {
            reveal(App::model);
            roster_splits(
                self.roster.deep_view(),
                self.statuses.deep_view(),
                self.roster@.len() as int,
            );
        }
        let roster = chat_agents(&self.roster);
        let jobs = jobs_of(&self.roster, &self.statuses);
        let count: usize = self.roster.len();
        assert(roster@.len() == roster.deep_view().len() && count == self.roster.deep_view().len());
        let active_model = match &self.active_model {
            Some(m) => Some(m.as_str()),
            None => None,
        };
        let snap = AgentsViewSnapshot {
            roster: &roster,
            jobs: &jobs,
            statuses: &self.statuses,
            cron_details: &self.cron_details,
            cron_ids: &self.cron_ids,
            channel_details: &self.channel_details,
            active_model,
            sessions: &self.sessions,
            pending_resets: &self.pending_resets,
            expanded_errors: &self.expanded_errors,
        };
        agents_view::view(&snap, now_ms)
    }

    /// The Chat tab.
    pub fn chat_page(&self) -> (r: ChatPage)
        ensures
            ({
                let s = self.deep_view();
                &&& r.picker.deep_view() == picker_of(s)
                &&& r.pane.deep_view() == pane_of(s)
            }),
    {
        proof {
            reveal(App::model);
        }
        chat_view::view(
            &self.chat_agents,
            &self.selected_chat_agent,
            self.chat_logs.get(self.selected_chat_agent.as_str()),
            self.chat_activities.get(self.selected_chat_agent.as_str()),
            self.chat_input.as_str(),
            self.connected,
            &self.unread,
        )
    }

    /// The Sessions tab at `now_ms`, in milliseconds since the epoch.
    pub fn sessions_page(&self, now_ms: i64) -> (r: SessionsPage)
        ensures
            ({
                let s = self.deep_view();
                let list = listed(s.sessions);
                &&& r.count@ == decimal(s.sessions.len()) + " tracked"@
                &&& r.notice.deep_view() == (if list.len() == 0 {
                    Some("no session data yet — waiting for sessions.list"@)
                } else {
                    None
                })
                &&& r.cards.deep_view() == cards_of(s, now_ms as int)
                &&& r.detail.deep_view() == detail_of(s, now_ms as int)
            }),
    {
        proof {
            reveal(App::model);
        }
        let active_session_key = match &self.active_session_key {
            Some(k) => Some(k.as_str()),
            None => None,
        };
        let snap = SessionsViewSnapshot {
            sessions: &self.sessions,
            active_session_key,
            transcripts: &self.session_transcripts,
            hydrated: &self.session_history_fetched,
            usage: &self.session_usage,
            connected: self.connected,
        };
        sessions_view::view(&snap, now_ms)
    }

    /// The Logs tab.
    pub fn logs_page(&self) -> (r: LogsPage)
        ensures
            ({
                let s = self.deep_view();
                let rows = shown_rows(s.log_lines, s.log_filters);
                &&& r.chips.deep_view() == chips_of(s.log_filters)
                &&& r.rows.deep_view() == rows
                &&& r.notice.deep_view() == empty_notice(rows.len(), s.log_lines.len())
                &&& r.hits@ == "showing "@ + decimal(rows.len()) + " of "@ + decimal(
                    s.log_lines.len(),
                )
                &&& r.jump_pill == !s.logs_auto_tail
            }),
    {
        proof {
            reveal(App::model);
        }
        logs_view::view(&self.log_lines, &self.log_filters, self.logs_auto_tail)
    }

    /// The Settings tab.
    pub fn settings_page(&self, storage_location: &'static str) -> (r: SettingsPage)
        ensures
            ({
                let s = self.deep_view();
                let agents = chat_agents_of(s.roster, s.roster.len() as int);
                &&& r.first_run_banner == first_run(s.launch, s.settings.gateway_url)
                &&& r.gateway_url@ == s.settings_form.gateway_url
                &&& r.token@ == s.settings_form.token
                &&& (r.connection@, r.connection_tint) == connection_text(s.connection_status)
                &&& r.modes.deep_view() == mode_choices(s.settings_form.mode)
                &&& r.token_status@ == token_text(s.token_present, storage_location@)
                &&& r.can_clear_token == s.token_present
                &&& r.rooms.deep_view() == Seq::new(
                    first_rooms().len(),
                    |i: int| room_row(first_rooms(), i),
                )
                &&& r.homes.deep_view() == agents.map_values(
                    |a: AgentView| home_row(a, first_rooms(), Seq::empty()),
                )
                &&& r.saved@ == saved_text(s.settings.gateway_url)
            }),
    {
        proof {
            reveal(App::model);
        }
        let rooms = default_rooms();
        let roster = chat_agents(&self.roster);
        let agent_rooms: StrMap<String> = StrMap::new();
        let snap = settings_view::Snapshot {
            settings: &self.settings,
            form: &self.settings_form,
            first_run_incomplete: self.first_run_incomplete(),
            token_present: self.token_present,
            storage_location,
            connection_status: &self.connection_status,
            rooms: &rooms,
            roster: &roster,
            agent_rooms: &agent_rooms,
        };
        settings_view::view(&snap)
    }

    /// What stands below every tab: the pending approvals and the status bar.
    pub fn bottom_strip(&self, now: u64) -> (r: BottomStrip)
        requires
            reason_cuts_cleanly(self.deep_view().connected, self.deep_view().last_disconnect),
        ensures
            ({
                let s = self.deep_view();
                &&& r.approvals.deep_view() == s.pending_approvals.map_values(
                    |e: (Seq<char>, ApprovalEventPayloadView)| approval_row(e),
                )
                &&& r.status.dot@ == connection(s.connected, s.last_disconnect).0
                &&& r.status.chunks.deep_view() == bar_chunks(status_of_app(s), now)
            }),
    {
        proof {
            reveal(App::model);
        }
        let active_model = match &self.active_model {
            Some(m) => Some(m.as_str()),
            None => None,
        };
        let last_disconnect = match &self.last_disconnect {
            Some(reason) => Some(reason.as_str()),
            None => None,
        };
        let main_usage = match self.sessions.get(MAIN_SESSION) {
            Some(info) => match (info.total_tokens, info.context_tokens) {
                (Some(total), Some(ctx)) => Some((total, ctx)),
                _ => None,
            },
            None => None,
        };
        let update = match &self.gateway_update {
            Some(u) => Some((u.current.as_str(), u.latest.as_str())),
            None => None,
        };
        let snap = status_bar::Snapshot {
            connected: self.connected,
            agents_tracked: self.statuses.len(),
            last_poll: self.last_poll,
            active_model,
            last_disconnect,
            main_usage,
            pending_approvals: self.pending_approvals.len(),
            update,
        };
        assert(snap.model() =~= status_of_app(self.deep_view()));
        BottomStrip {
            approvals: approvals::view(&self.pending_approvals),
            status: status_bar::view(snap, now),
        }
    }

    /// The palette, where it is open.
    pub fn palette_page(&self) -> (r: Option<PalettePage>)
        ensures
            ({
                let s = self.deep_view();
                let rows = palette_rows(s);
                let selected: int = if rows.len() == 0 {
                    0
                } else if s.palette_selected < rows.len() {
                    s.palette_selected as int
                } else {
                    rows.len() - 1
                };
                &&& r is Some == s.palette_open
                &&& r matches Some(page) ==> {
                    &&& page.rows.deep_view() == listed_rows(
                        palette_catalog(s),
                        rows,
                        selected,
                        trimmed(s.palette_input).len() == 0,
                        rows.len() as int,
                    )
                    &&& page.footer@ == decimal(rows.len()) + " of "@ + decimal(
                        palette_catalog(s).len(),
                    )
                }
            }),
    {
        proof {
            reveal(App::model);
        }
        if !self.palette_open {
            return None;
        }
        let (entries, ranked, selected) = self.palette_list();
        let count: usize = entries.len();
        assert(count == entries.deep_view().len());
        proof {
            ranking_positions(entries.deep_view(), self.deep_view().palette_input);
        }
        Some(palette_view::view(self.palette_input.as_str(), &entries, &ranked, selected))
    }
}

} // verus!
