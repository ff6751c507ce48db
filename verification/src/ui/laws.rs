//! What the pages show, said of whatever they are given.
use vstd::prelude::*;

use crate::app::state::{
    ChatActivityStateView, ChatActivityView, ConnectionStatusView, NavItem,
};
use crate::domain::agent::{AgentKind, AgentView, Tint};
use crate::domain::job::{JobKind, JobView};
use crate::domain::room::RoomView;
use crate::domain::status::AgentStatus;
use crate::figures::{chart_count, in_largest_unit, percent, short_count};
use crate::keyed::{lookup, put_law};
use crate::logs::{is_letter, LogFiltersView, LogLineView, LogSeverity};
use crate::net::rpc::{
    AgentInfoView, ApprovalEventPayloadView, ChannelView, CronStateView, SessionInfoView,
    SessionUsagePointView,
};
use crate::palette::PaletteEntryView;
use crate::text::{decimal, occurs, text_before, trimmed, unicode_lowercase};
use crate::transcript::markdown;
use crate::ui::agent_card::agent_card;
use crate::ui::agents_view::{
    agent_row, ago_text, channel_detail_of, chat_agents_of, cron_detail_of, duration_text,
    error_row_of, job_list, job_row, jobs_among, jobs_sorted, main_detail_of, page_rows, until_text,
    AgentsSnapshotView, RowAction,
};
use crate::ui::approvals::approval_row;
use crate::ui::chat_bubble::bubble_row;
use crate::ui::chat_view::{
    chat_pane, find_agent, heading, last_segment, picker_row, ChatMessageView, ChatRole,
};
use crate::ui::logs_view::{
    after_sequence, chips_of, empty_notice, log_row, shown_row, shown_rows, without_escapes,
};
use crate::ui::palette::{palette_rows, PaletteRowView};
use crate::ui::sessions_view::{
    detail_body, find_info, infos, list_is_sorted, listed, session_card, session_detail,
    subtitle_parts, time_ago, tokens_text, DetailBodyView,
};
use crate::ui::settings_view::{
    connection_text, home_row, mode_choices, room_row, saved_text, token_text,
};
use crate::ui::sidebar::{badge_text, nav_row};
use crate::ui::sparkline::{first_time, last_time, most_tokens, plot};
use crate::ui::status_bar::{bar_chunks, connection, usage_tint, Press, SnapshotView};

verus! {

// ---------------------------------------------------------------------
// The sidebar and the picker
// ---------------------------------------------------------------------

/// A count of unread replies shows as it is up to ninety-nine, and as more
/// than that beyond.
pub proof fn badges_count(count: nat)
    ensures
        count <= 99 ==> badge_text(count) == decimal(count),
        count > 99 ==> badge_text(count) == "99+"@,
{
}

/// The open tab, and only it, is marked; unread replies show on the chat's
/// tab and on no other.
pub proof fn tabs_show_where_one_is(item: NavItem, active: NavItem, unread: nat)
    ensures
        nav_row(item, active, unread).item == item,
        nav_row(item, active, unread).active <==> item == active,
        nav_row(item, active, unread).badge is Some <==> item == NavItem::Chat && unread > 0,
        item == NavItem::Chat && 0 < unread <= 99 ==> nav_row(item, active, unread).badge == Some(
            decimal(unread),
        ),
{
}

/// Each agent has its own row in the picker: marked when it is the one shown,
/// and with its own count of unread replies.
pub proof fn picker_tells_agents_apart(
    info: AgentInfoView,
    selected: Seq<char>,
    unread: Seq<(Seq<char>, usize)>,
)
    ensures
        ({
            let row = picker_row(info, selected, unread);
            &&& row.id == info.id
            &&& row.active <==> info.id == selected
            &&& lookup(unread, info.id) is None ==> row.badge is None
            &&& lookup(unread, info.id) == Some(0usize) ==> row.badge is None
            &&& lookup(unread, info.id) matches Some(n) ==> 0 < n <= 99 ==> row.badge == Some(
                decimal(n as nat),
            )
            &&& info.identity is None && info.name is None ==> row.label == info.id
            &&& info.identity is None && info.name is Some ==> Some(row.label) == info.name
        }),
{
}

// ---------------------------------------------------------------------
// Chat
// ---------------------------------------------------------------------

proof fn find_agent_law(agents: Seq<AgentInfoView>, id: Seq<char>, i: int)
    requires
        0 <= i < agents.len(),
        agents[i].id == id,
        forall|j: int| 0 <= j < i ==> (#[trigger] agents[j]).id != id,
    ensures
        find_agent(agents, id) == Some(agents[i]),
    decreases i,
{
    if i > 0 {
        assert(agents[0].id != id);
        let rest = agents.drop_first();
        assert forall|j: int| 0 <= j < i - 1 implies (#[trigger] rest[j]).id != id by {
            assert(rest[j] == agents[j + 1]);
        }
        find_agent_law(rest, id, i - 1);
    }
}

proof fn find_agent_none(agents: Seq<AgentInfoView>, id: Seq<char>)
    requires
        forall|j: int| 0 <= j < agents.len() ==> (#[trigger] agents[j]).id != id,
    ensures
        find_agent(agents, id) is None,
    decreases agents.len(),
{
    if agents.len() > 0 {
        assert(agents[0].id != id);
        let rest = agents.drop_first();
        assert forall|j: int| 0 <= j < rest.len() implies (#[trigger] rest[j]).id != id by {
            assert(rest[j] == agents[j + 1]);
        }
        find_agent_none(rest, id);
    }
}

/// The chat is headed by the agent that is shown: by its persona where it is
/// listed, else by its id.
pub proof fn chat_is_headed_by_its_agent(
    agents: Seq<AgentInfoView>,
    selected: Seq<char>,
    i: int,
    n: nat,
)
    ensures
        0 <= i < agents.len() && agents[i].id == selected && (forall|j: int|
            0 <= j < i ==> (#[trigger] agents[j]).id != selected) ==> heading(agents, selected, n).0
            == agents[i].shown_with_emoji(),
        (forall|j: int| 0 <= j < agents.len() ==> (#[trigger] agents[j]).id != selected) ==> heading(
            agents,
            selected,
            n,
        ) == (selected, decimal(n) + " messages"@),
{
    if 0 <= i < agents.len() && agents[i].id == selected && (forall|j: int|
        0 <= j < i ==> (#[trigger] agents[j]).id != selected) {
        find_agent_law(agents, selected, i);
    }
    if forall|j: int| 0 <= j < agents.len() ==> (#[trigger] agents[j]).id != selected {
        find_agent_none(agents, selected);
    }
}

/// The chat shows every message of the log, in order and word for word, the
/// user's on the right; it can be copied once there is one. A prompt can be
/// sent while connected and not blank.
pub proof fn chat_shows_its_log(
    agents: Seq<AgentInfoView>,
    selected: Seq<char>,
    log: Seq<ChatMessageView>,
    activity: Option<ChatActivityStateView>,
    input: Seq<char>,
    connected: bool,
)
    ensures
        ({
            let p = chat_pane(agents, selected, Some(log), activity, input, connected);
            let none = chat_pane(agents, selected, None, activity, input, connected);
            &&& p.messages.len() == log.len()
            &&& forall|i: int|
                0 <= i < log.len() ==> (#[trigger] p.messages[i]).text == log[i].text
                    && p.messages[i].at_right == (log[i].role == ChatRole::User)
            &&& p.copy is Some <==> log.len() > 0
            &&& p.copy is Some ==> p.copy == Some(markdown(p.title, log))
            &&& p.activity is Some <==> activity is Some
            &&& p.input.can_send <==> connected && trimmed(input).len() > 0
            &&& p.input.editable <==> connected
            &&& none.messages.len() == 0 && none.copy is None
        }),
{
}

/// What an agent is shown doing names the tool that it uses.
pub proof fn activity_names_the_tool(display: Seq<char>, tool: Seq<char>)
    requires
        crate::text::words(display).len() > 0,
    ensures
        ({
            let who = crate::text::words(display)[0];
            &&& crate::ui::chat_view::activity_text(display, ChatActivityView::Tool(tool)) == who
                + " is using "@ + tool + "…"@
            &&& crate::ui::chat_view::activity_text(display, ChatActivityView::Thinking) == who
                + " is thinking…"@
            &&& crate::ui::chat_view::activity_text(display, ChatActivityView::Sending) == who
                + " is receiving your message…"@
        }),
{
}

// ---------------------------------------------------------------------
// Agents
// ---------------------------------------------------------------------

/// The page lists the agents in the roster's order and then the jobs.
pub proof fn agents_come_before_jobs(s: AgentsSnapshotView, now_ms: int, i: int)
    ensures
        page_rows(s, now_ms).len() == s.roster.len() + s.jobs.len(),
        0 <= i < s.roster.len() ==> page_rows(s, now_ms)[i].id == s.roster[i].id
            && page_rows(s, now_ms)[i].display == s.roster[i].display
            && page_rows(s, now_ms)[i].kind == "agent"@,
        0 <= i < s.jobs.len() ==> page_rows(s, now_ms)[s.roster.len() + i].id == jobs_sorted(
            s.jobs,
        )[i].id,
{
    crate::ui::agents_view::jobs_are_sorted(s.jobs);
    job_list(s.jobs).to_multiset_ensures();
    jobs_sorted(s.jobs).to_multiset_ensures();
}

/// An agent's row can reset its session, and asks to confirm while that is
/// armed; it shows the agent's own status.
pub proof fn agent_row_is_its_own(a: AgentView, s: AgentsSnapshotView)
    ensures
        agent_row(a, s).id == a.id,
        agent_row(a, s).action == Some(
            RowAction::Reset { armed: lookup(s.pending_resets, a.id) is Some },
        ),
        lookup(s.statuses, a.id) == Some(AgentStatus::Running) ==> agent_row(a, s).badge
            == "RUNNING"@,
        lookup(s.statuses, a.id) == Some(AgentStatus::Healthy) ==> agent_row(a, s).badge == "OK"@,
        lookup(s.statuses, a.id) == Some(AgentStatus::Error) ==> agent_row(a, s).badge == "ERROR"@,
        lookup(s.statuses, a.id) == Some(AgentStatus::Disabled) ==> agent_row(a, s).badge == "OFF"@,
        lookup(s.statuses, a.id) is None ==> agent_row(a, s).badge == "?"@,
        s.active_model matches Some(m) ==> agent_row(a, s).lines[0] == "model: "@ + m,
{
}

/// A job's row is of that job: a cron can be run exactly when its id is known,
/// and its lines and error come from its own state; a channel cannot be run.
pub proof fn job_row_is_its_own(job: JobView, s: AgentsSnapshotView, now_ms: int)
    ensures
        ({
            let row = job_row(job, s, now_ms);
            let cron = lookup(s.cron_details, job.id);
            let channel = lookup(s.channel_details, job.id);
            &&& row.id == job.id
            &&& row.display == job.display
            &&& row.action is Some ==> row.action == Some(RowAction::RunNow)
            &&& row.action is Some <==> job.kind == JobKind::Cron && lookup(s.cron_ids, job.id)
                is Some
            &&& job.kind == JobKind::Cron ==> row.lines == cron_detail_of(cron, now_ms).lines
                && row.kind == "cron"@
            &&& job.kind == JobKind::Cron ==> (row.error is Some <==> (cron matches Some(x)
                && x.last_error is Some))
            &&& job.kind == JobKind::Channel ==> row.lines == channel_detail_of(channel).lines
                && row.kind == "channel"@
            &&& job.kind == JobKind::Channel ==> (row.error is Some <==> (channel matches Some(x)
                && x.last_error is Some))
        }),
{
}

/// An opened error shows whole, and a folded one whole up to a hundred
/// characters.
pub proof fn opened_error_shows_whole(error: Seq<char>)
    ensures
        error_row_of(error, true).text == "error: "@ + error,
        error.len() <= 100 ==> error_row_of(error, false).text == "error: "@ + error,
        error.len() > 100 ==> error_row_of(error, false).text.len() < ("error: "@ + error).len()
            || error.len() == 101,
        error_row_of(error, true).indicator != error_row_of(error, false).indicator,
{
    crate::text::ellipsized_fits(error, 100);
    reveal_strlit("▾");
    reveal_strlit("▸");
    assert("▾"@[0] != "▸"@[0]);
}

/// What is shown of a job: how its last run went, when the next is due, and
/// its error.
pub proof fn job_details_show_its_state(state: CronStateView, now_ms: int, status: Seq<char>)
    ensures
        ({
            let d = cron_detail_of(Some(state), now_ms);
            &&& d.error == state.last_error
            &&& state.last_status == Some(status) && state.last_duration_ms is None
                && state.last_run_at_ms is None ==> d.lines[0] == "last: "@ + status
            &&& state.last_status == Some(status) ==> crate::text::has_prefix(
                d.lines[0],
                "last: "@ + status,
            )
            &&& state.next_run_at_ms is Some ==> crate::text::has_prefix(d.lines.last(), "next: "@)
            &&& state.next_run_at_ms matches Some(at) ==> at <= now_ms ==> d.lines.last()
                == "next: "@ + "overdue"@
            &&& cron_detail_of(None, now_ms).lines == seq!["no state yet"@]
        }),
{
    let d = cron_detail_of(Some(state), now_ms);
    reveal_strlit("");
    if state.last_status == Some(status) {
        let head = "last: "@ + status;
        assert(crate::ui::agents_view::last_run_line(state, now_ms)[0] == d.lines[0]);
        assert(d.lines[0].take(head.len() as int) =~= head);
        if state.last_duration_ms is None && state.last_run_at_ms is None {
            assert(d.lines[0] =~= head);
        }
    }
    if state.next_run_at_ms is Some {
        let last = crate::ui::agents_view::next_run_line(state, now_ms)[0];
        assert(d.lines.last() == last);
        assert(last.take("next: "@.len() as int) =~= "next: "@);
    }
}

/// A duration shows in its largest units: hours with minutes, minutes with
/// seconds, or seconds.
pub proof fn durations_add_up(h: nat, m: nat, s: nat, ms: nat)
    requires
        m < 60,
        s < 60,
        ms < 1000,
    ensures
        ({
            let total = ((h * 60 + m) * 60 + s) * 1000 + ms;
            &&& h > 0 ==> duration_text(total as int) == decimal(h) + "h "@ + decimal(m) + "m"@
            &&& h == 0 && m > 0 ==> duration_text(total as int) == decimal(m) + "m "@ + decimal(s)
                + "s"@
            &&& h == 0 && m == 0 ==> duration_text(total as int) == decimal(s) + "s"@
        }),
{
    let secs = (h * 60 + m) * 60 + s;
    assert((secs * 1000 + ms) / 1000 == secs);
    if h > 0 {
        assert(secs >= 3600);
        assert(secs / 3600 == h);
        assert(secs % 3600 == m * 60 + s);
        assert((m * 60 + s) / 60 == m);
    } else if m > 0 {
        assert(secs == m * 60 + s);
        assert(secs / 60 == m);
        assert(secs % 60 == s);
    }
}

/// The jobs of the page are those of the roster that are no agents, each under
/// its id, with its own status.
pub proof fn roster_jobs_are_listed(
    roster: Seq<AgentView>,
    statuses: Seq<(Seq<char>, AgentStatus)>,
    n: int,
    i: int,
)
    requires
        0 <= i < n <= roster.len(),
        forall|a: int, b: int| 0 <= a < b < roster.len() ==> roster[a].id != roster[b].id,
    ensures
        ({
            let job = lookup(jobs_among(roster, statuses, n), roster[i].id);
            &&& job is Some <==> roster[i].kind != AgentKind::Main
            &&& job matches Some(j) ==> j.id == roster[i].id && (j.kind == JobKind::Cron <==>
                roster[i].kind == AgentKind::Cron) && j.status == (match lookup(
                statuses,
                roster[i].id,
            ) {
                Some(x) => x,
                None => AgentStatus::Unknown,
            })
        }),
    decreases n,
{
    let before = jobs_among(roster, statuses, n - 1);
    let last = roster[n - 1];
    match crate::ui::agents_view::job_of(last, statuses) {
        Some(job) => {
            put_law(before, job.id, job, roster[i].id);
        },
        None => {},
    }
    if i < n - 1 {
        roster_jobs_are_listed(roster, statuses, n - 1, i);
        assert(roster[i].id != roster[n - 1].id);
    } else {
        others_are_no_job_here(roster, statuses, n - 1, i);
    }
}

proof fn others_are_no_job_here(
    roster: Seq<AgentView>,
    statuses: Seq<(Seq<char>, AgentStatus)>,
    n: int,
    i: int,
)
    requires
        0 <= n <= i < roster.len(),
        forall|a: int, b: int| 0 <= a < b < roster.len() ==> roster[a].id != roster[b].id,
    ensures
        lookup(jobs_among(roster, statuses, n), roster[i].id) is None,
    decreases n,
{
    if n > 0 {
        others_are_no_job_here(roster, statuses, n - 1, i);
        let before = jobs_among(roster, statuses, n - 1);
        match crate::ui::agents_view::job_of(roster[n - 1], statuses) {
            Some(job) => {
                put_law(before, job.id, job, roster[i].id);
                assert(roster[n - 1].id != roster[i].id);
            },
            None => {},
        }
    } else {
        crate::keyed::key_index_bounds(jobs_among(roster, statuses, n), roster[i].id);
    }
}

/// The agents of the page are those of the roster, in its order.
pub proof fn roster_agents_are_listed(roster: Seq<AgentView>)
    ensures
        chat_agents_of(roster, roster.len() as int) == roster.filter(
            |a: AgentView| a.kind == AgentKind::Main,
        ),
{
    agents_so_far(roster, roster.len() as int);
    assert(roster.take(roster.len() as int) =~= roster);
}

proof fn agents_so_far(roster: Seq<AgentView>, n: int)
    requires
        0 <= n <= roster.len(),
    ensures
        chat_agents_of(roster, n) == roster.take(n).filter(|a: AgentView| a.kind == AgentKind::Main),
    decreases n,
{
    let f = |a: AgentView| a.kind == AgentKind::Main;
    if n > 0 {
        agents_so_far(roster, n - 1);
        crate::seqs::filter_step(roster, n - 1, f);
    } else {
        crate::seqs::filter_empty(roster, f);
    }
}

// ---------------------------------------------------------------------
// Sessions
// ---------------------------------------------------------------------

/// The sessions are listed once each, the one that changed last first; those
/// of which it is not known when come last, and equal ones by key.
pub proof fn newest_sessions_come_first(
    sessions: Seq<(Seq<char>, SessionInfoView)>,
    i: int,
    j: int,
)
    requires
        0 <= i < j < sessions.len(),
    ensures
        ({
            let l = listed(sessions);
            let a = l[i].updated_at_ms;
            let b = l[j].updated_at_ms;
            &&& l.len() == sessions.len()
            &&& a is None ==> b is None
            &&& a is Some && b is Some ==> a->Some_0 >= b->Some_0
            &&& a == b ==> !text_before(l[j].key, l[i].key)
        }),
{
    list_is_sorted(sessions);
    infos(sessions).to_multiset_ensures();
    listed(sessions).to_multiset_ensures();
    let l = listed(sessions);
    assert(!crate::ui::sessions_view::stands_above(l[j], l[i]));
}

/// A card is of its session: its key, its model where it has one, and marked
/// when it is the one that is open.
pub proof fn card_is_of_its_session(info: SessionInfoView, open: Option<Seq<char>>, now_ms: int)
    ensures
        ({
            let c = session_card(info, open, now_ms);
            &&& c.key == info.key
            &&& c.active <==> open == Some(info.key)
            &&& info.model matches Some(m) ==> m.len() > 0 ==> c.model == m
            &&& info.model is None ==> c.model == "—"@
        }),
        forall|rest: Seq<char>|
            info.key == #[trigger] ("agent:"@ + rest) ==> session_card(info, open, now_ms).title
                == rest,
        !crate::text::has_prefix(info.key, "agent:"@) ==> session_card(info, open, now_ms).title
            == info.key,
{
    assert forall|rest: Seq<char>| info.key == #[trigger] ("agent:"@ + rest) implies session_card(
        info,
        open,
        now_ms,
    ).title == rest by {
        assert(info.key.take("agent:"@.len() as int) =~= "agent:"@);
        assert(info.key.skip("agent:"@.len() as int) =~= rest);
    }
}

/// The detail shows every message of the transcript, in order and word for
/// word; without one it says whether it is loading, cannot load or is empty.
pub proof fn detail_shows_the_transcript(
    transcript: Seq<ChatMessageView>,
    hydrated: bool,
    connected: bool,
)
    ensures
        transcript.len() > 0 ==> {
            let body = detail_body(Some(transcript), hydrated, connected);
            &&& body is Messages
            &&& body->Messages_0.len() == transcript.len()
            &&& forall|i: int|
                0 <= i < transcript.len() ==> (#[trigger] body->Messages_0[i]).text
                    == transcript[i].text && body->Messages_0[i].at_right == (transcript[i].role
                    == ChatRole::User)
        },
        transcript.len() == 0 && hydrated ==> detail_body(Some(transcript), hydrated, connected)
            == DetailBodyView::Notice("session is empty"@),
        transcript.len() == 0 && !hydrated ==> detail_body(Some(transcript), hydrated, connected)
            == detail_body(None, hydrated, connected),
        connected ==> detail_body(None, hydrated, connected) == DetailBodyView::Notice(
            "loading transcript…"@,
        ),
        !connected ==> detail_body(None, hydrated, connected) == DetailBodyView::Notice(
            "disconnected — reconnect to load transcript"@,
        ),
{
}

proof fn find_info_law(list: Seq<SessionInfoView>, key: Seq<char>, i: int)
    requires
        0 <= i < list.len(),
        list[i].key == key,
        forall|j: int| 0 <= j < i ==> (#[trigger] list[j]).key != key,
    ensures
        find_info(list, key) == Some(list[i]),
    decreases i,
{
    if i > 0 {
        assert(list[0].key != key);
        let rest = list.drop_first();
        assert forall|j: int| 0 <= j < i - 1 implies (#[trigger] rest[j]).key != key by {
            assert(rest[j] == list[j + 1]);
        }
        find_info_law(rest, key, i - 1);
    }
}

/// The detail is of the session that is open: its own title, transcript, copy
/// and chart.
pub proof fn detail_is_of_its_session(
    list: Seq<SessionInfoView>,
    i: int,
    transcript: Option<Seq<ChatMessageView>>,
    hydrated: bool,
    usage: Option<Seq<SessionUsagePointView>>,
    connected: bool,
    now_ms: int,
)
    requires
        0 <= i < list.len(),
        forall|j: int| 0 <= j < i ==> (#[trigger] list[j]).key != list[i].key,
    ensures
        ({
            let key = list[i].key;
            let d = session_detail(list, key, transcript, hydrated, usage, connected, now_ms);
            &&& d.title == session_card(list[i], None, now_ms).title
            &&& d.subtitle is Some
            &&& d.body == detail_body(transcript, hydrated, connected)
            &&& d.copy is Some <==> (transcript matches Some(t) && t.len() > 0)
            &&& d.copy is Some ==> d.copy == Some(markdown(d.title, transcript->Some_0))
            &&& usage matches Some(u) ==> d.sparkline == crate::ui::sparkline::plot(
                u,
                list[i].context_tokens,
            )
        }),
{
    find_info_law(list, list[i].key, i);
}

// ---------------------------------------------------------------------
// The log, approvals, settings
// ---------------------------------------------------------------------

/// A line of the log is shown exactly when its severity is and it holds the
/// search, whatever the case; lines stay in order, and the last one shown is
/// the last one that passes.
pub proof fn shown_lines_pass(lines: Seq<LogLineView>, line: LogLineView, f: LogFiltersView)
    ensures
        ({
            let severity_shown = match line.severity {
                LogSeverity::Error => f.show_error,
                LogSeverity::Warn => f.show_warn,
                LogSeverity::Info => f.show_info,
                LogSeverity::Debug => f.show_debug,
            };
            let found = f.search.len() == 0 || occurs(
                unicode_lowercase(line.text),
                unicode_lowercase(f.search),
            );
            let before = shown_rows(lines, f);
            let after = shown_rows(lines.push(line), f);
            &&& shown_rows(Seq::empty(), f).len() == 0
            &&& severity_shown && found ==> after.len() == before.len() + 1 && after.drop_last()
                == before
            &&& severity_shown && found && (forall|i: int|
                0 <= i < line.text.len() ==> line.text[i] != '\u{1b}') ==> after.last().text
                == line.text
            &&& !(severity_shown && found) ==> after == before
        }),
{
    let g = |l: LogLineView| shown_row(f, l);
    let n = lines.len() as int;
    let all = lines.push(line);
    crate::seqs::filter_map_step(all, n, g);
    assert(all.take(n + 1) =~= all);
    assert(all.take(n) =~= lines);
    assert(Seq::<LogLineView>::empty().filter_map(g) =~= Seq::empty());
    if let Some(row) = shown_row(f, line) {
        assert(shown_rows(all, f) == shown_rows(lines, f).push(row));
        assert(shown_rows(all, f).drop_last() =~= shown_rows(lines, f));
    }
    if forall|i: int| 0 <= i < line.text.len() ==> line.text[i] != '\u{1b}' {
        plain_text_stays(line.text);
    }
}

/// A text without escapes stays as it is.
proof fn plain_text_stays(s: Seq<char>)
    requires
        forall|i: int| 0 <= i < s.len() ==> s[i] != '\u{1b}',
    ensures
        crate::ui::logs_view::without_escapes(s) == s,
    decreases s.len(),
{
    if s.len() > 0 {
        plain_text_stays(s.drop_first());
        assert(seq![s[0]] + s.drop_first() =~= s);
    }
}

/// A pending approval is shown under the id by which it is decided, with its
/// tool and what it is about.
pub proof fn approval_is_shown(key: Seq<char>, p: ApprovalEventPayloadView)
    ensures
        ({
            let row = approval_row((key, p));
            &&& row.id == key
            &&& p.tool matches Some(t) ==> row.tool == t
            &&& p.tool is None ==> row.tool == "exec"@
            &&& p.summary matches Some(x) ==> row.summary == x
            &&& p.summary is None && p.session_key is Some ==> row.summary == "session: "@
                + p.session_key->Some_0
            &&& p.summary is None && p.session_key is None ==> row.summary == "pending approval"@
        }),
{
}

/// Exactly the mode that the form holds is marked, and picking a mode hands
/// over its own value.
pub proof fn modes_are_marked(mode: Seq<char>, i: int)
    requires
        0 <= i < 3,
    ensures
        mode_choices(mode).len() == 3,
        mode_choices(mode)[i].selected <==> mode_choices(mode)[i].value == mode,
        mode_choices(mode)[0].value == "auto"@,
        mode_choices(mode)[1].value == "ws"@,
        mode_choices(mode)[2].value == "mock"@,
{
}

/// A room can be moved towards where there is one, and deleted while it is
/// not the last.
pub proof fn rooms_move_within(rooms: Seq<RoomView>, i: int)
    requires
        0 <= i < rooms.len(),
    ensures
        room_row(rooms, i).id == rooms[i].id,
        room_row(rooms, i).label == rooms[i].label,
        room_row(rooms, i).can_move_up <==> i > 0,
        room_row(rooms, i).can_move_down <==> i < rooms.len() - 1,
        room_row(rooms, i).can_delete <==> rooms.len() >= 2,
{
}

// ---------------------------------------------------------------------
// The palette
// ---------------------------------------------------------------------

/// The rows of the palette show the entries in the order of their ranking:
/// each under its place, with its own label, and the selected one, and only
/// it, marked.
pub proof fn palette_shows_the_ranking(
    entries: Seq<PaletteEntryView>,
    ranked: Seq<(usize, u32)>,
    selected: int,
    headings: bool,
    n: int,
    i: int,
)
    requires
        0 <= i < n <= ranked.len(),
        ranked.len() <= usize::MAX,
    ensures
        ({
            let entry = entries[ranked[i].0 as int];
            palette_rows(entries, ranked, selected, headings, n).contains(
                PaletteRowView::Entry {
                    index: i as usize,
                    label: entry.label,
                    subtitle: entry.subtitle,
                    active: i == selected,
                },
            )
        }),
        !headings ==> palette_rows(entries, ranked, selected, headings, n).len() == n && ({
            let row = palette_rows(entries, ranked, selected, headings, n)[i];
            row is Entry && row->Entry_index == i
        }),
    decreases n,
{
    let before = palette_rows(entries, ranked, selected, headings, n - 1);
    let rows = palette_rows(entries, ranked, selected, headings, n);
    if n > 1 {
        let k = if i < n - 1 {
            i
        } else {
            0
        };
        palette_shows_the_ranking(entries, ranked, selected, headings, n - 1, k);
    }
    if i < n - 1 {
        let entry = entries[ranked[i].0 as int];
        let row = PaletteRowView::Entry {
            index: i as usize,
            label: entry.label,
            subtitle: entry.subtitle,
            active: i == selected,
        };
        let at = before.index_of(row);
        assert(rows[at] == row);
    } else {
        assert(rows[rows.len() - 1] == rows.last());
    }
}

// ---------------------------------------------------------------------
// The status bar
// ---------------------------------------------------------------------

/// The bar always tells of the connection and of how many agents there are,
/// and of the model, the last news, the context, the approvals and an update
/// exactly when there is something to tell.
pub proof fn bar_tells_what_there_is(s: SnapshotView, now: u64)
    ensures
        ({
            let chunks = bar_chunks(s, now);
            let n = 2 + (if s.active_model is Some {
                1int
            } else {
                0
            }) + (if s.last_poll is Some {
                1int
            } else {
                0
            }) + (if s.main_usage is Some {
                1int
            } else {
                0
            }) + (if s.pending_approvals > 0 {
                1int
            } else {
                0
            }) + (if s.update is Some {
                1int
            } else {
                0
            });
            &&& chunks.len() == n
            &&& chunks[0].press == Some(Press::Go(NavItem::Logs))
            &&& chunks[1].text == decimal(s.agents_tracked as nat) + " agents tracked"@
            &&& chunks[1].press == Some(Press::Go(NavItem::Agents))
            &&& s.connected ==> chunks[0].text == "connected"@
            &&& s.active_model matches Some(m) ==> chunks[2].text == "· "@ + m
            &&& s.update matches Some((from, to)) ==> chunks.last().text == "· update "@ + from
                + " → "@ + to
            &&& s.update is Some ==> chunks.last().press == Some(Press::Reconnect)
            &&& s.pending_approvals > 0 ==> ({
                let c = if s.update is Some {
                    chunks[n - 2]
                } else {
                    chunks[n - 1]
                };
                &&& c.text == "· "@ + decimal(s.pending_approvals as nat) + " approval(s) pending"@
                &&& c.press == Some(Press::Go(NavItem::Overview))
            })
        }),
{
}

/// A lost connection is shown with its reason, whole where it is short.
pub proof fn lost_connection_says_why(reason: Seq<char>)
    requires
        crate::text::byte_len(reason) <= 60,
    ensures
        connection(true, Some(reason)).1 == "connected"@,
        connection(false, Some(reason)).1 == "disconnected: "@ + reason,
        connection(false, None).1 == "connecting…"@,
        connection(true, None).0 != connection(false, None).0,
        connection(false, Some(reason)).0 == connection(false, None).0,
{
    reveal_strlit("●");
    reveal_strlit("○");
    assert("●"@[0] != "○"@[0]);
}

// ---------------------------------------------------------------------
// Times, tokens and charts
// ---------------------------------------------------------------------

/// A span shows in its largest unit, whole: days, hours, minutes or seconds.
pub proof fn spans_show_in_their_unit(n: nat, rest: nat)
    ensures
        n < 60 ==> in_largest_unit(n) == decimal(n) + "s"@,
        0 < n < 60 && rest < 60 ==> in_largest_unit(n * 60 + rest) == decimal(n) + "m"@,
        0 < n < 24 && rest < 3600 ==> in_largest_unit(n * 3600 + rest) == decimal(n) + "h"@,
        0 < n && rest < 86_400 ==> in_largest_unit(n * 86_400 + rest) == decimal(n) + "d"@,
{
    if 0 < n < 60 && rest < 60 {
        assert((n * 60 + rest) / 60 == n);
    }
    if 0 < n < 24 && rest < 3600 {
        assert((n * 3600 + rest) / 3600 == n);
    }
    if 0 < n && rest < 86_400 {
        assert((n * 86_400 + rest) / 86_400 == n);
    }
}

/// How long ago something was counts whole seconds up to now, and what lies
/// ahead is no time ago; how long until something counts the same way.
pub proof fn times_count_from_now(now_ms: int, secs: nat, ms: nat)
    requires
        ms < 1000,
    ensures
        time_ago(now_ms, now_ms - (secs * 1000 + ms)) == in_largest_unit(secs) + " ago"@,
        ago_text(now_ms, now_ms - (secs * 1000 + ms)) == "("@ + in_largest_unit(secs) + " ago)"@,
        ms > 0 ==> time_ago(now_ms, now_ms + ms) == "now"@,
        ms > 0 ==> ago_text(now_ms, now_ms + ms) == "never"@,
        until_text(now_ms, now_ms - (secs * 1000 + ms)) == "overdue"@,
        0 < secs * 1000 + ms && secs < 3600 ==> until_text(now_ms, now_ms + (secs * 1000 + ms))
            == "in "@ + in_largest_unit(secs),
        secs >= 86_400 ==> until_text(now_ms, now_ms + (secs * 1000 + ms)) == "in "@
            + in_largest_unit(secs),
{
    assert((secs * 1000 + ms) / 1000 == secs);
}

/// What a session has used shows with its context and the share of it where
/// both are known, and alone where one is.
pub proof fn tokens_show_what_is_known(total: i64, context: i64)
    ensures
        tokens_text(Some(total), Some(context)) == "tokens: "@ + short_count(total as int) + " / "@
            + short_count(context as int) + " ("@ + decimal(percent(total as int, context as int))
            + "%)"@,
        tokens_text(Some(total), None) == "tokens: "@ + short_count(total as int),
        tokens_text(None, Some(context)) == "context: "@ + short_count(context as int),
        tokens_text(None, None) == "tokens: —"@,
{
}

proof fn extremes_are_reached(points: Seq<SessionUsagePointView>, floor: i64)
    requires
        points.len() > 0,
    ensures
        first_time(points) == i64::MAX || exists|i: int|
            0 <= i < points.len() && (#[trigger] points[i]).timestamp == first_time(points),
        last_time(points) == i64::MIN || exists|i: int|
            0 <= i < points.len() && (#[trigger] points[i]).timestamp == last_time(points),
        most_tokens(points, floor) == floor || exists|i: int|
            0 <= i < points.len() && (#[trigger] points[i]).cumulative_tokens == most_tokens(
                points,
                floor,
            ),
    decreases points.len(),
{
    let init = points.drop_last();
    let n = points.len() - 1;
    assert(points[n] == points.last());
    if init.len() > 0 {
        extremes_are_reached(init, floor);
        if first_time(init) != i64::MAX {
            let i = choose|i: int|
                0 <= i < init.len() && (#[trigger] init[i]).timestamp == first_time(init);
            assert(points[i].timestamp == first_time(init));
        }
        if last_time(init) != i64::MIN {
            let i = choose|i: int|
                0 <= i < init.len() && (#[trigger] init[i]).timestamp == last_time(init);
            assert(points[i].timestamp == last_time(init));
        }
        if most_tokens(init, floor) != floor {
            let i = choose|i: int|
                0 <= i < init.len() && (#[trigger] init[i]).cumulative_tokens == most_tokens(
                    init,
                    floor,
                );
            assert(points[i].cumulative_tokens == most_tokens(init, floor));
        }
    } else {
        assert(first_time(init) == i64::MAX);
        assert(last_time(init) == i64::MIN);
        assert(most_tokens(init, floor) == floor);
    }
}

/// The chart reaches from the first point to the last and as high as the
/// highest, or as the budget; it is labelled by what was used last, and shows
/// the budget where there is one.
pub proof fn chart_fits_its_points(points: Seq<SessionUsagePointView>, budget: Option<i64>)
    requires
        plot(points, budget) is Chart,
    ensures
        ({
            let c = plot(points, budget)->Chart_0;
            let used = points.last().cumulative_tokens;
            &&& exists|i: int| 0 <= i < points.len() && (#[trigger] points[i]).timestamp == c.t_min
            &&& exists|i: int| 0 <= i < points.len() && (#[trigger] points[i]).timestamp == c.t_max
            &&& budget == Some(c.y_max) || exists|i: int|
                0 <= i < points.len() && (#[trigger] points[i]).cumulative_tokens == c.y_max
            &&& budget is None ==> c.budget is None && c.label == chart_count(used as int)
            &&& budget matches Some(b) ==> b > 0 ==> c.budget == budget && c.label == chart_count(
                used as int,
            ) + " / "@ + chart_count(b as int) + " ("@ + decimal(percent(used as int, b as int))
                + "%)"@
        }),
{
    let floor = match budget {
        Some(b) => b,
        None => 0,
    };
    extremes_are_reached(points, floor);
    crate::ui::sparkline::chart_holds_every_point(points, budget, 0);
    let k = points.len() - 1;
    crate::ui::sparkline::chart_holds_every_point(points, budget, k);
}

/// The context is shown as used up from its end on, as running out from four
/// fifths on, and as calm before.
pub proof fn full_context_is_marked(total: int, context: int)
    ensures
        context > 0 && total >= context ==> usage_tint(total, context) == Tint::StatusDown,
        context <= 0 ==> usage_tint(total, context) == Tint::Muted,
        total < 0 && context > 0 ==> usage_tint(total, context) == Tint::Muted,
        0 <= total < context <= 0x100_0000_0000 && 5 * total > 4 * context ==> usage_tint(
            total,
            context,
        ) == Tint::StatusDegraded,
        0 <= total < context <= 0x100_0000_0000 && 5 * total < 4 * context ==> usage_tint(
            total,
            context,
        ) == Tint::Muted,
{
    if 0 <= total < context <= 0x100_0000_0000 {
        crate::figures::four_fifths_is_mostly(total as nat, context as nat);
    }
}

/// An agent's home is the room it was given, else the command deck, by its
/// place among the rooms.
pub proof fn homes_are_shown(
    a: AgentView,
    rooms: Seq<RoomView>,
    homes: Seq<(Seq<char>, Seq<char>)>,
    i: int,
)
    requires
        rooms.len() <= usize::MAX,
        0 <= i < rooms.len(),
        forall|j: int| 0 <= j < i ==> (#[trigger] rooms[j]).id != rooms[i].id,
    ensures
        home_row(a, rooms, homes).agent == a.id,
        home_row(a, rooms, homes).display == a.display,
        lookup(homes, a.id) == Some(rooms[i].id) ==> home_row(a, rooms, homes).room == Some(
            i as usize,
        ),
        lookup(homes, a.id) is None && rooms[i].id == "command-deck"@ ==> home_row(
            a,
            rooms,
            homes,
        ).room == Some(i as usize),
{
    crate::scene::room::room_index_unique(rooms, rooms[i].id, i);
}

/// What is saved, and whether a token is, shows as it is.
pub proof fn settings_show_what_is_saved(url: Seq<char>, place: Seq<char>, why: Seq<char>)
    ensures
        saved_text(Some(url)) == "Currently saved: "@ + url,
        token_text(true, place) == "✓ token saved to "@ + place,
        token_text(false, place) == "(no token saved; storage backend: "@ + place + ")"@,
        connection_text(ConnectionStatusView::Failed(why)).0 == "✗ "@ + why,
        connection_text(ConnectionStatusView::Connected).0 == "✓ connected"@,
{
}

/// There is a chip for every severity, lit while that severity shows.
pub proof fn chips_show_the_filters(f: LogFiltersView)
    ensures
        chips_of(f).len() == 4,
        chips_of(f)[0].severity == LogSeverity::Error && chips_of(f)[0].active == f.show_error,
        chips_of(f)[1].severity == LogSeverity::Warn && chips_of(f)[1].active == f.show_warn,
        chips_of(f)[2].severity == LogSeverity::Info && chips_of(f)[2].active == f.show_info,
        chips_of(f)[3].severity == LogSeverity::Debug && chips_of(f)[3].active == f.show_debug,
{
}

/// A card shows its agent's name and status.
pub proof fn card_is_of_its_agent(a: AgentView, statuses: Seq<(Seq<char>, AgentStatus)>)
    ensures
        agent_card(a, statuses).display == a.display,
        lookup(statuses, a.id) == Some(AgentStatus::Running) ==> agent_card(a, statuses).badge
            == "RUNNING"@,
        lookup(statuses, a.id) == Some(AgentStatus::Error) ==> agent_card(a, statuses).badge
            == "ERROR"@,
        lookup(statuses, a.id) == Some(AgentStatus::Healthy) ==> agent_card(a, statuses).badge
            == "OK"@,
        lookup(statuses, a.id) is None ==> agent_card(a, statuses).badge == "?"@,
{
}

/// What is said under a session's title: its model, how hard it thinks, its
/// tokens and when it changed, as far as they are known.
pub proof fn subtitle_says_what_is_known(info: SessionInfoView, now_ms: int)
    ensures
        ({
            let parts = subtitle_parts(info, now_ms);
            &&& parts.contains(tokens_text(info.total_tokens, info.context_tokens))
            &&& info.model matches Some(m) ==> m.len() > 0 ==> parts[0] == m
            &&& info.thinking_level matches Some(t) ==> t.len() > 0 && t != "off"@
                ==> parts.contains("thinking: "@ + t)
            &&& info.updated_at_ms matches Some(ms) ==> parts.last() == "updated "@ + time_ago(
                now_ms,
                ms as int,
            )
            &&& info.updated_at_ms is None ==> parts.last() == tokens_text(
                info.total_tokens,
                info.context_tokens,
            )
        }),
{
    broadcast use vstd::seq_lib::lemma_seq_concat_contains_all_elements;

    let parts = subtitle_parts(info, now_ms);
    let tokens = tokens_text(info.total_tokens, info.context_tokens);
    assert(seq![tokens][0] == tokens);
    assert(seq![tokens].contains(tokens));
    if let Some(t) = info.thinking_level {
        let x = "thinking: "@ + t;
        assert(seq![x][0] == x);
        assert(seq![x].contains(x));
    }
}

/// An escape sequence goes whole, up to the letter that ends it, and takes
/// nothing before or behind it along.
pub proof fn escapes_leave_the_rest(a: Seq<char>, codes: Seq<char>, end: char, b: Seq<char>)
    requires
        forall|i: int| 0 <= i < a.len() ==> a[i] != '\u{1b}',
        forall|i: int| 0 <= i < codes.len() ==> !is_letter(codes[i]),
        is_letter(end),
    ensures
        without_escapes(a + (seq!['\u{1b}', '['] + codes + seq![end] + b)) == a + without_escapes(b),
    decreases a.len(),
{
    let tail = seq!['\u{1b}', '['] + codes + seq![end] + b;
    let s = a + tail;
    if a.len() > 0 {
        escapes_leave_the_rest(a.drop_first(), codes, end, b);
        assert(s.drop_first() =~= a.drop_first() + tail);
        assert(seq![a[0]] + (a.drop_first() + without_escapes(b)) =~= a + without_escapes(b));
    } else {
        assert(s =~= tail);
        assert(s[0] == '\u{1b}' && s[1] == '[');
        assert(s.skip(2) =~= codes + seq![end] + b);
        codes_go(codes, end, b);
        assert(a + without_escapes(b) =~= without_escapes(b));
    }
}

proof fn codes_go(codes: Seq<char>, end: char, b: Seq<char>)
    requires
        forall|i: int| 0 <= i < codes.len() ==> !is_letter(codes[i]),
        is_letter(end),
    ensures
        after_sequence(codes + seq![end] + b) == b,
    decreases codes.len(),
{
    let s = codes + seq![end] + b;
    if codes.len() > 0 {
        assert(s[0] == codes[0]);
        assert(s.drop_first() =~= codes.drop_first() + seq![end] + b);
        codes_go(codes.drop_first(), end, b);
    } else {
        assert(s[0] == end);
        assert(s.drop_first() =~= b);
    }
}

/// Without a query the palette heads each group: an entry has its group's
/// heading before it exactly when it is the first, or the one before it is of
/// another group.
pub proof fn groups_are_headed(
    entries: Seq<PaletteEntryView>,
    ranked: Seq<(usize, u32)>,
    selected: int,
    n: int,
)
    requires
        0 < n <= ranked.len(),
    ensures
        ({
            let before = palette_rows(entries, ranked, selected, true, n - 1);
            let all = palette_rows(entries, ranked, selected, true, n);
            let group = entries[ranked[n - 1].0 as int].group;
            let heads = n == 1 || entries[ranked[n - 2].0 as int].group != group;
            &&& heads ==> all.len() == before.len() + 2 && all[before.len() as int]
                == PaletteRowView::Heading(group) && all.take(before.len() as int) == before
            &&& !heads ==> all.len() == before.len() + 1 && all.take(before.len() as int) == before
            &&& all.last() is Entry
        }),
{
    let before = palette_rows(entries, ranked, selected, true, n - 1);
    let all = palette_rows(entries, ranked, selected, true, n);
    assert(all.take(before.len() as int) =~= before);
}

/// The name of a folder is what follows its last slash.
pub proof fn folders_show_their_name(path: Seq<char>, name: Seq<char>)
    requires
        forall|i: int| 0 <= i < name.len() ==> name[i] != '/',
    ensures
        last_segment(path + seq!['/'] + name) == name,
        last_segment(name) == name,
    decreases name.len(),
{
    let s = path + seq!['/'] + name;
    if name.len() > 0 {
        let init = name.drop_last();
        folders_show_their_name(path, init);
        assert(s.drop_last() =~= path + seq!['/'] + init);
        assert(init.push(name.last()) =~= name);
    } else {
        assert(s.last() == '/');
        assert(last_segment(s) =~= name);
        assert(last_segment(name) =~= name);
    }
}

/// What is said under the chat's title: the agent's model and the name of its
/// folder, where they are known.
pub proof fn chat_says_what_it_runs_on(
    agents: Seq<AgentInfoView>,
    i: int,
    model: Seq<char>,
    folder: Seq<char>,
    n: nat,
)
    requires
        0 <= i < agents.len(),
        forall|j: int| 0 <= j < i ==> (#[trigger] agents[j]).id != agents[i].id,
        agents[i].model matches Some(m) && m.primary == Some(model),
        agents[i].workspace == Some(folder),
        model.len() > 0,
    ensures
        heading(agents, agents[i].id, n).1 == model + " · "@ + last_segment(folder),
{
    find_agent_law(agents, agents[i].id, i);
    let parts = crate::ui::chat_view::about_parts(agents[i]);
    assert(parts =~= seq![model, last_segment(folder)]);
    assert(parts.drop_last() =~= seq![model]);
    assert(crate::text::joined(parts.drop_last(), " · "@) == model);
}

/// Each tab is labelled by its name.
pub proof fn tabs_have_their_names(active: NavItem, unread: nat)
    ensures
        nav_row(NavItem::Overview, active, unread).label == "Overview"@,
        nav_row(NavItem::Chat, active, unread).label == "Chat"@,
        nav_row(NavItem::Agents, active, unread).label == "Agents"@,
        nav_row(NavItem::Sessions, active, unread).label == "Sessions"@,
        nav_row(NavItem::Logs, active, unread).label == "Logs"@,
        nav_row(NavItem::Settings, active, unread).label == "Settings"@,
{
}

/// A message is labelled by who said it.
pub proof fn messages_say_who_spoke(m: ChatMessageView)
    ensures
        bubble_row(m).text == m.text,
        m.role == ChatRole::User ==> bubble_row(m).label == "you"@ && bubble_row(m).at_right,
        m.role == ChatRole::Assistant ==> bubble_row(m).label == "agent"@ && !bubble_row(
            m,
        ).at_right,
        m.role == ChatRole::Other ==> bubble_row(m).label == "system"@ && !bubble_row(m).at_right,
{
}

/// What is shown of a channel: whether it is configured, whether it is
/// connected, and its error.
pub proof fn channel_details_show_its_state(ch: ChannelView)
    ensures
        ({
            let d = channel_detail_of(Some(ch));
            let on = if ch.enabled {
                "yes"@
            } else {
                "no"@
            };
            let up = if ch.connected {
                "yes"@
            } else {
                "no"@
            };
            &&& d.error == ch.last_error
            &&& d.lines == seq!["configured: "@ + on + " · connected: "@ + up]
            &&& channel_detail_of(None).lines == seq!["no state yet"@]
        }),
{
}

/// What is shown of the main session: the model, and the tokens of its
/// context.
pub proof fn main_details_show_the_session(
    model: Seq<char>,
    info: SessionInfoView,
    total: i64,
    context: i64,
)
    requires
        info.total_tokens == Some(total),
        info.context_tokens == Some(context),
    ensures
        ({
            let tokens = "main session: "@ + crate::text::signed_decimal(total as int) + " / "@
                + crate::text::signed_decimal(context as int) + " tokens"@;
            &&& main_detail_of(Some(model), Some(info)).lines == seq!["model: "@ + model, tokens]
            &&& main_detail_of(None, Some(info)).lines == seq![tokens]
            &&& main_detail_of(Some(model), None).lines == seq!["model: "@ + model]
            &&& main_detail_of(None, None).lines == seq!["no session data yet"@]
        }),
{
    let tokens = "main session: "@ + crate::text::signed_decimal(total as int) + " / "@
        + crate::text::signed_decimal(context as int) + " tokens"@;
    assert(main_detail_of(Some(model), Some(info)).lines =~= seq!["model: "@ + model, tokens]);
    assert(main_detail_of(None, Some(info)).lines =~= seq![tokens]);
    assert(main_detail_of(Some(model), None).lines =~= seq!["model: "@ + model]);
}

/// A card says when its session changed last, where that is known.
pub proof fn card_says_when(info: SessionInfoView, open: Option<Seq<char>>, now_ms: int)
    ensures
        info.updated_at_ms matches Some(ms) ==> session_card(info, open, now_ms).freshness
            == time_ago(now_ms, ms as int),
        info.updated_at_ms is None ==> session_card(info, open, now_ms).freshness == "—"@,
        session_card(info, open, now_ms).tokens == tokens_text(
            info.total_tokens,
            info.context_tokens,
        ),
{
}

/// The log says why it shows nothing, and only then: that nothing has come
/// yet, or how much the filters hide.
pub proof fn empty_log_says_why(visible: nat, total: nat)
    ensures
        empty_notice(visible, total) is Some <==> visible == 0,
        visible == 0 && total == 0 ==> empty_notice(visible, total) == Some(
            "waiting for gateway log lines…"@,
        ),
        visible == 0 && total > 1 ==> empty_notice(visible, total) == Some(
            "no matches ("@ + decimal(total) + " line"@ + "s"@ + " hidden by filters)"@,
        ),
{
}

/// Severities are told apart by their tint: an error is down, a warning
/// degraded.
pub proof fn severities_have_their_tint(line: LogLineView)
    ensures
        line.severity == LogSeverity::Error ==> log_row(line).tint == Tint::StatusDown,
        line.severity == LogSeverity::Warn ==> log_row(line).tint == Tint::StatusDegraded,
        line.severity == LogSeverity::Info ==> log_row(line).tint == Tint::Foreground,
        line.severity == LogSeverity::Debug ==> log_row(line).tint == Tint::Muted,
{
}

/// The main agent is green, and a channel muted.
pub proof fn main_agent_is_green(a: AgentView, job: JobView)
    ensures
        a.id == "main"@ ==> a.tint() == Tint::TerminalGreen,
        job.kind == JobKind::Channel ==> job.tint() == Tint::Muted,
        job.kind == JobKind::Cron && a.id == job.id && a.id != "main"@ ==> job.tint() == a.tint(),
{
}

/// A reason that is too long is cut where a character ends, with an ellipsis.
pub proof fn long_reasons_are_cut(reason: Seq<char>)
    requires
        crate::text::byte_len(reason) > 60,
    ensures
        connection(false, Some(reason)).1 == "disconnected: "@ + crate::text::head(reason, 60).push(
            '…',
        ),
{
}

} // verus!
