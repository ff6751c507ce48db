//! The Settings tab: connection, token, rooms, and the agents' home rooms.
//!
//! The token field is write-only: a stored token is never shown, only whether
//! there is one.
use vstd::prelude::*;

use crate::app::state::{ConnectionStatus, ConnectionStatusView, SettingsForm};
use crate::domain::agent::{Agent, AgentView, Tint};
use crate::domain::room::{Room, RoomView};
use crate::keyed::StrMap;
use crate::scene::office::{agent_room, resolve_agent_room};
use crate::scene::room::{room_index, room_index_unique};
use crate::seqs::{no_items, push_to};
use crate::text::{cat, cat3, same};
use crate::ui_state::Settings;

verus! {

/// What the tab is drawn from.
pub struct Snapshot<'a> {
    pub settings: &'a Settings,
    pub form: &'a SettingsForm,
    /// No gateway is configured and the scripted stream is off.
    pub first_run_incomplete: bool,
    pub token_present: bool,
    /// Where tokens are stored.
    pub storage_location: &'static str,
    pub connection_status: &'a ConnectionStatus,
    pub rooms: &'a Vec<Room>,
    pub roster: &'a Vec<Agent>,
    pub agent_rooms: &'a StrMap<String>,
}

/// One choice of the mode.
#[derive(Debug)]
pub struct ModeChoice {
    pub label: &'static str,
    pub value: &'static str,
    pub selected: bool,
}

/// What [`ModeChoice`] holds, as mathematical values.
#[verifier::ext_equal]
pub struct ModeChoiceView {
    pub label: Seq<char>,
    pub value: Seq<char>,
    pub selected: bool,
}

impl DeepView for ModeChoice {
    type V = ModeChoiceView;

    open spec fn deep_view(&self) -> ModeChoiceView {
        ModeChoiceView {
            label: self.label.deep_view(),
            value: self.value.deep_view(),
            selected: self.selected.deep_view(),
        }
    }
}

/// One row of the room editor, and which of its buttons work.
#[derive(Debug)]
pub struct RoomRow {
    pub id: String,
    pub label: String,
    pub can_move_up: bool,
    pub can_move_down: bool,
    pub can_delete: bool,
}

/// What [`RoomRow`] holds, as mathematical values.
#[verifier::ext_equal]
pub struct RoomRowView {
    pub id: Seq<char>,
    pub label: Seq<char>,
    pub can_move_up: bool,
    pub can_move_down: bool,
    pub can_delete: bool,
}

impl DeepView for RoomRow {
    type V = RoomRowView;

    open spec fn deep_view(&self) -> RoomRowView {
        RoomRowView {
            id: self.id.deep_view(),
            label: self.label.deep_view(),
            can_move_up: self.can_move_up.deep_view(),
            can_move_down: self.can_move_down.deep_view(),
            can_delete: self.can_delete.deep_view(),
        }
    }
}

/// The home room of an agent.
#[derive(Debug)]
pub struct HomeRow {
    pub agent: String,
    pub display: String,
    /// Position of its home among the rooms; `None` when that is not there.
    pub room: Option<usize>,
}

/// What [`HomeRow`] holds, as mathematical values.
#[verifier::ext_equal]
pub struct HomeRowView {
    pub agent: Seq<char>,
    pub display: Seq<char>,
    pub room: Option<usize>,
}

impl DeepView for HomeRow {
    type V = HomeRowView;

    open spec fn deep_view(&self) -> HomeRowView {
        HomeRowView {
            agent: self.agent.deep_view(),
            display: self.display.deep_view(),
            room: self.room.deep_view(),
        }
    }
}

/// What the tab shows.
#[derive(Debug)]
pub struct SettingsPage {
    pub first_run_banner: bool,
    pub gateway_url: String,
    pub token: String,
    pub connection: String,
    pub connection_tint: Tint,
    pub modes: Vec<ModeChoice>,
    pub token_status: String,
    pub can_clear_token: bool,
    pub rooms: Vec<RoomRow>,
    pub homes: Vec<HomeRow>,
    pub saved: String,
}

/// The outcome of the latest connect attempt, in words.
pub open spec fn connection_text(status: ConnectionStatusView) -> (Seq<char>, Tint) {
    match status {
        ConnectionStatusView::Untested => ("(not tested — click Save to try)"@, Tint::Muted),
        ConnectionStatusView::Connecting => ("⟳ connecting…"@, Tint::Muted),
        ConnectionStatusView::Connected => ("✓ connected"@, Tint::StatusUp),
        ConnectionStatusView::Failed(reason) => ("✗ "@ + reason, Tint::StatusDown),
    }
}

/// The outcome of the latest connect attempt, in words.
pub fn connection_status_row(status: &ConnectionStatus) -> (r: (String, Tint))
    ensures
        (r.0@, r.1) == connection_text(status.deep_view()),
{
    match status {
        ConnectionStatus::Untested => (
            "(not tested — click Save to try)".to_owned(),
            Tint::Muted,
        ),
        ConnectionStatus::Connecting => ("⟳ connecting…".to_owned(), Tint::Muted),
        ConnectionStatus::Connected => ("✓ connected".to_owned(), Tint::StatusUp),
        ConnectionStatus::Failed(reason) => (cat("✗ ", reason.as_str()), Tint::StatusDown),
    }
}

/// Whether a token is stored, and where.
pub open spec fn token_text(present: bool, location: Seq<char>) -> Seq<char> {
    if present {
        "✓ token saved to "@ + location
    } else {
        "(no token saved; storage backend: "@ + location + ")"@
    }
}

/// Whether a token is stored, and where.
pub fn token_status(present: bool, location: &str) -> (r: String)
    ensures
        r@ == token_text(present, location@),
{
    if present {
        cat("✓ token saved to ", location)
    } else {
        cat3("(no token saved; storage backend: ", location, ")")
    }
}

/// Which gateway is saved.
pub open spec fn saved_text(url: Option<Seq<char>>) -> Seq<char> {
    match url {
        Some(u) => "Currently saved: "@ + u,
        None => "Currently saved: (none — using env var or staying idle)"@,
    }
}

/// Which gateway is saved.
pub fn footer_hint(settings: &Settings) -> (r: String)
    ensures
        r@ == saved_text(settings.deep_view().gateway_url),
{
    match &settings.gateway_url {
        Some(url) => cat("Currently saved: ", url.as_str()),
        None => "Currently saved: (none — using env var or staying idle)".to_owned(),
    }
}

/// The modes to choose from.
pub open spec fn mode_choices(mode: Seq<char>) -> Seq<ModeChoiceView> {
    seq![
        ModeChoiceView { label: "Auto"@, value: "auto"@, selected: mode == "auto"@ },
        ModeChoiceView { label: "Live WS"@, value: "ws"@, selected: mode == "ws"@ },
        ModeChoiceView { label: "Mock (offline)"@, value: "mock"@, selected: mode == "mock"@ },
    ]
}

/// The modes to choose from.
pub fn mode_section(form: &SettingsForm) -> (r: Vec<ModeChoice>)
    ensures
        r.deep_view() == mode_choices(form.deep_view().mode),
{
    let mode = form.mode;
    let mut r: Vec<ModeChoice> = no_items();
    push_to(
        &mut r,
        ModeChoice { label: "Auto", value: "auto", selected: same(mode, "auto") },
    );
    push_to(
        &mut r,
        ModeChoice { label: "Live WS", value: "ws", selected: same(mode, "ws") },
    );
    push_to(
        &mut r,
        ModeChoice { label: "Mock (offline)", value: "mock", selected: same(mode, "mock") },
    );
    assert(r.deep_view() =~= mode_choices(form.deep_view().mode));
    r
}

/// The row of the room at `i`: the first cannot move up, the last cannot move
/// down, and the only one cannot go.
pub open spec fn room_row(rooms: Seq<RoomView>, i: int) -> RoomRowView {
    RoomRowView {
        id: rooms[i].id,
        label: rooms[i].label,
        can_move_up: i > 0,
        can_move_down: i + 1 < rooms.len(),
        can_delete: rooms.len() > 1,
    }
}

/// The rows of the room editor.
pub fn rooms_section(rooms: &Vec<Room>) -> (r: Vec<RoomRow>)
    ensures
        r.deep_view() == Seq::new(rooms@.len(), |i: int| room_row(rooms.deep_view(), i)),
{
    let ghost all = rooms.deep_view();
    let n = rooms.len();
    let mut r: Vec<RoomRow> = no_items();
    let mut i: usize = 0;
    while i < n
        invariant
            all == rooms.deep_view(),
            n == rooms@.len(),
            i <= n,
            r.deep_view() == Seq::new(i as nat, |k: int| room_row(all, k)),
        decreases n - i,
    {
        assert(all[i as int] == rooms@[i as int].deep_view());
        push_to(
            &mut r,
            RoomRow {
                id: rooms[i].id.clone(),
                label: rooms[i].label.clone(),
                can_move_up: i > 0,
                can_move_down: i < n - 1,
                can_delete: n > 1,
            },
        );
        i = i + 1;
        assert(r.deep_view() =~= Seq::new(i as nat, |k: int| room_row(all, k)));
    }
    assert(r.deep_view() =~= Seq::new(rooms@.len(), |i: int| room_row(rooms.deep_view(), i)));
    r
}

/// The home of an agent.
pub open spec fn home_row(
    agent: AgentView,
    rooms: Seq<RoomView>,
    agent_rooms: Seq<(Seq<char>, Seq<char>)>,
) -> HomeRowView {
    let at = room_index(rooms, agent_room(agent_rooms, agent.id));
    HomeRowView {
        agent: agent.id,
        display: agent.display,
        room: if at < rooms.len() {
            Some(at as usize)
        } else {
            None
        },
    }
}

fn find_room(rooms: &Vec<Room>, id: &str) -> (r: Option<usize>)
    ensures
        match r {
            Some(i) => room_index(rooms.deep_view(), id@) == i && i < rooms@.len(),
            None => room_index(rooms.deep_view(), id@) == rooms@.len(),
        },
{
    let ghost all = rooms.deep_view();
    let mut i: usize = 0;
    while i < rooms.len()
        invariant
            all == rooms.deep_view(),
            i <= rooms@.len(),
            forall|j: int| 0 <= j < i ==> (#[trigger] all[j]).id != id@,
        decreases rooms@.len() - i,
    {
        assert(all[i as int].id == rooms@[i as int].id@);
        if same(rooms[i].id.as_str(), id) {
            proof {
                room_index_unique(all, id@, i as int);
            }
            return Some(i);
        }
        i = i + 1;
    }
    proof {
        room_index_unique(all, id@, i as int);
    }
    None
}

/// The homes of the agents.
pub fn agent_rooms_section(
    roster: &Vec<Agent>,
    rooms: &Vec<Room>,
    agent_rooms: &StrMap<String>,
) -> (r: Vec<HomeRow>)
    ensures
        r.deep_view() == roster.deep_view().map_values(
            |a: AgentView| home_row(a, rooms.deep_view(), agent_rooms.deep_view()),
        ),
{
    let ghost all = roster.deep_view();
    let ghost f = |a: AgentView| home_row(a, rooms.deep_view(), agent_rooms.deep_view());
    let mut r: Vec<HomeRow> = no_items();
    let mut i: usize = 0;
    while i < roster.len()
        invariant
            all == roster.deep_view(),
            f == (|a: AgentView| home_row(a, rooms.deep_view(), agent_rooms.deep_view())),
            i <= roster@.len(),
            r.deep_view() == all.take(i as int).map_values(f),
        decreases roster@.len() - i,
    {
        let agent = &roster[i];
        assert(all[i as int] == agent.deep_view());
        let room = find_room(rooms, resolve_agent_room(agent, agent_rooms));
        push_to(
            &mut r,
            HomeRow {
                agent: agent.id.as_str().to_owned(),
                display: agent.display.clone(),
                room,
            },
        );
        i = i + 1;
        assert(r.deep_view() =~= all.take(i as int).map_values(f));
    }
    assert(all.take(i as int) =~= all);
    r
}

/// What the tab shows.
pub fn view(snap: &Snapshot<'_>) -> (r: SettingsPage)
    ensures
        r.first_run_banner == snap.first_run_incomplete,
        r.gateway_url@ == snap.form.deep_view().gateway_url,
        r.token@ == snap.form.deep_view().token,
        (r.connection@, r.connection_tint) == connection_text(snap.connection_status.deep_view()),
        r.modes.deep_view() == mode_choices(snap.form.deep_view().mode),
        r.token_status@ == token_text(snap.token_present, snap.storage_location@),
        r.can_clear_token == snap.token_present,
        r.rooms.deep_view() == Seq::new(
            snap.rooms@.len(),
            |i: int| room_row(snap.rooms.deep_view(), i),
        ),
        r.homes.deep_view() == snap.roster.deep_view().map_values(
            |a: AgentView| home_row(a, snap.rooms.deep_view(), snap.agent_rooms.deep_view()),
        ),
        r.saved@ == saved_text(snap.settings.deep_view().gateway_url),
{
    let (connection, connection_tint) = connection_status_row(snap.connection_status);
    SettingsPage {
        first_run_banner: snap.first_run_incomplete,
        gateway_url: snap.form.gateway_url.clone(),
        token: snap.form.token.clone(),
        connection,
        connection_tint,
        modes: mode_section(snap.form),
        token_status: token_status(snap.token_present, snap.storage_location),
        can_clear_token: snap.token_present,
        rooms: rooms_section(snap.rooms),
        homes: agent_rooms_section(snap.roster, snap.rooms, snap.agent_rooms),
        saved: footer_hint(snap.settings),
    }
}

} // verus!
