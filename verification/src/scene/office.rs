//! The plan of the office scene: who stands where, what they show, and what
//! floats above them.
//!
//! Agents are pinned to their home room. Jobs are not drawn; a running job, or
//! an agent at work, lights up its room: every agent there gets a power-up
//! sparkle. An agent with a visible bubble gets none, so that the sparkle is
//! left to silent work.
use vstd::prelude::*;
use vstd::utf8::encode_utf8;

use crate::app::state::TRANSITION_FLASH_MS;
use crate::domain::agent::{byte_hash, hash_bytes, Agent, AgentId, AgentView};
use crate::domain::job::{Job, JobView};
use crate::domain::room::{Room, RoomView, MAIN_ROOM};
use crate::domain::status::AgentStatus;
use crate::keyed::{lookup, with_member, StrMap, StrSet};
use crate::scene::flourish::{elapsed, since};
use crate::scene::room::{shown_index, RoomLayout};
use crate::scene::thought_bubble::{alpha_at, BubbleKind, ThoughtBubble, ThoughtBubbleView};
use crate::seqs::push_to;
use crate::text::{cat3, chars_of, joined, same, split_words, words, words_are_not_empty};

verus! {

/// What there is to draw.
pub struct OfficeScene<'a> {
    pub roster: &'a Vec<Agent>,
    pub jobs: &'a StrMap<Job>,
    pub statuses: &'a StrMap<AgentStatus>,
    pub rooms: &'a Vec<Room>,
    /// Home rooms by agent. Agents without one live in [`MAIN_ROOM`]; agents
    /// whose room is not there are not drawn.
    pub agent_rooms: &'a StrMap<String>,
    /// Rooms by job. A running job lights its room.
    pub job_rooms: &'a StrMap<String>,
    pub bubbles: &'a Vec<ThoughtBubble>,
    /// When each agent last changed its status.
    pub transition_moments: &'a StrMap<u64>,
}

/// What [`OfficeScene`] holds, as mathematical values.
pub struct OfficeView {
    pub roster: Seq<AgentView>,
    pub jobs: Seq<(Seq<char>, JobView)>,
    pub statuses: Seq<(Seq<char>, AgentStatus)>,
    pub rooms: Seq<RoomView>,
    pub agent_rooms: Seq<(Seq<char>, Seq<char>)>,
    pub job_rooms: Seq<(Seq<char>, Seq<char>)>,
    pub bubbles: Seq<ThoughtBubbleView>,
    pub transition_moments: Seq<(Seq<char>, u64)>,
}

/// An agent on its place.
#[derive(Debug)]
pub struct PlacedAgent {
    pub agent: Agent,
    pub status: AgentStatus,
    /// List position of the room it stands in.
    pub room: usize,
    /// How many agents came into that room before it.
    pub slot: usize,
    /// What is left of the flash of its last status change, in milliseconds.
    pub flash: u64,
    /// Whether the power-up sparkle floats above it.
    pub working: bool,
}

/// What [`PlacedAgent`] holds, as mathematical values.
#[verifier::ext_equal]
pub struct PlacedAgentView {
    pub agent: AgentView,
    pub status: AgentStatus,
    pub room: usize,
    pub slot: usize,
    pub flash: u64,
    pub working: bool,
}

impl DeepView for PlacedAgent {
    type V = PlacedAgentView;

    open spec fn deep_view(&self) -> PlacedAgentView {
        PlacedAgentView {
            agent: self.agent.deep_view(),
            status: self.status.deep_view(),
            room: self.room.deep_view(),
            slot: self.slot.deep_view(),
            flash: self.flash.deep_view(),
            working: self.working.deep_view(),
        }
    }
}

/// A bubble above an agent.
#[derive(Debug)]
pub struct PlacedBubble {
    /// Position among the placed agents.
    pub anchor: usize,
    pub text: String,
    pub kind: BubbleKind,
    /// Parts of full opacity.
    pub alpha: u64,
    /// How many newer bubbles of the same agent stand below it.
    pub depth: usize,
}

/// What [`PlacedBubble`] holds, as mathematical values.
#[verifier::ext_equal]
pub struct PlacedBubbleView {
    pub anchor: usize,
    pub text: Seq<char>,
    pub kind: BubbleKind,
    pub alpha: u64,
    pub depth: usize,
}

impl DeepView for PlacedBubble {
    type V = PlacedBubbleView;

    open spec fn deep_view(&self) -> PlacedBubbleView {
        PlacedBubbleView {
            anchor: self.anchor.deep_view(),
            text: self.text.deep_view(),
            kind: self.kind.deep_view(),
            alpha: self.alpha.deep_view(),
            depth: self.depth.deep_view(),
        }
    }
}

/// The plan of one picture.
#[derive(Debug)]
pub struct OfficePlan {
    /// In the order of the roster.
    pub agents: Vec<PlacedAgent>,
    /// Newest first.
    pub bubbles: Vec<PlacedBubble>,
}

// ---------------------------------------------------------------------
// Rooms
// ---------------------------------------------------------------------

/// Where an agent lives: the room set for it, else the main room.
pub open spec fn agent_room(overrides: Seq<(Seq<char>, Seq<char>)>, id: Seq<char>) -> Seq<char> {
    match lookup(overrides, id) {
        Some(room) => room,
        None => MAIN_ROOM@,
    }
}

/// Whether there is a room with this id.
pub open spec fn has_room(rooms: Seq<RoomView>, id: Seq<char>) -> bool {
    exists|i: int| 0 <= i < rooms.len() && (#[trigger] rooms[i]).id == id
}

/// Which room a job lights: the one set for it when it is there, else the
/// main room.
pub open spec fn job_room(
    overrides: Seq<(Seq<char>, Seq<char>)>,
    rooms: Seq<RoomView>,
    id: Seq<char>,
) -> Seq<char> {
    match lookup(overrides, id) {
        Some(room) => if has_room(rooms, room) {
            room
        } else {
            MAIN_ROOM@
        },
        None => MAIN_ROOM@,
    }
}

/// Where a chat agent lives. Status does not matter: agents in error stay in
/// place.
pub fn resolve_agent_room<'a>(agent: &Agent, overrides: &'a StrMap<String>) -> (r: &'a str)
    ensures
        r@ == agent_room(overrides.deep_view(), agent.id.deep_view()),
{
    match overrides.get(agent.id.as_str()) {
        Some(room) => room.as_str(),
        None => MAIN_ROOM,
    }
}

/// Which room a job lights while it runs.
pub fn resolve_job_room<'a>(
    job: &Job,
    overrides: &'a StrMap<String>,
    rooms: &Vec<Room>,
) -> (r: &'a str)
    ensures
        r@ == job_room(overrides.deep_view(), rooms.deep_view(), job.id.deep_view()),
{
    let configured = match overrides.get(job.id.as_str()) {
        Some(room) => room.as_str(),
        None => {
            return MAIN_ROOM;
        },
    };
    let ghost all = rooms.deep_view();
    let mut i: usize = 0;
    while i < rooms.len()
        invariant
            all == rooms.deep_view(),
            lookup(overrides.deep_view(), job.id.deep_view()) == Some(configured@),
            i <= rooms@.len(),
            forall|j: int| 0 <= j < i ==> (#[trigger] all[j]).id != configured@,
        decreases rooms@.len() - i,
    {
        assert(all[i as int].id == rooms@[i as int].id@);
        if same(rooms[i].id.as_str(), configured) {
            return configured;
        }
        i = i + 1;
    }
    MAIN_ROOM
}

/// A job always lights a room that is there, as long as the main room is.
pub proof fn jobs_light_real_rooms(
    overrides: Seq<(Seq<char>, Seq<char>)>,
    rooms: Seq<RoomView>,
    id: Seq<char>,
)
    requires
        has_room(rooms, MAIN_ROOM@),
    ensures
        has_room(rooms, job_room(overrides, rooms, id)),
{
}

// ---------------------------------------------------------------------
// Who is at work
// ---------------------------------------------------------------------

/// The status of an agent; unknown until something is heard of it.
pub open spec fn status_of(statuses: Seq<(Seq<char>, AgentStatus)>, id: Seq<char>) -> AgentStatus {
    match lookup(statuses, id) {
        Some(s) => s,
        None => AgentStatus::Unknown,
    }
}

/// The status of an agent; unknown until something is heard of it.
pub fn agent_status(statuses: &StrMap<AgentStatus>, id: &AgentId) -> (r: AgentStatus)
    ensures
        r == status_of(statuses.deep_view(), id.deep_view()),
{
    match statuses.get(id.as_str()) {
        Some(s) => *s,
        None => AgentStatus::Unknown,
    }
}

/// Whether the job at `i` runs and lights `room`.
pub open spec fn job_lights(s: OfficeView, i: int, room: Seq<char>) -> bool {
    s.jobs[i].1.status == AgentStatus::Running && job_room(
        s.job_rooms,
        s.rooms,
        s.jobs[i].1.id,
    ) == room
}

/// Whether the agent at `i` runs and lives in `room`.
pub open spec fn agent_lights(s: OfficeView, i: int, room: Seq<char>) -> bool {
    status_of(s.statuses, s.roster[i].id) == AgentStatus::Running && agent_room(
        s.agent_rooms,
        s.roster[i].id,
    ) == room
}

/// Whether something runs in `room`: a job that lights it, or an agent that
/// lives there.
pub open spec fn room_is_running(s: OfficeView, room: Seq<char>) -> bool {
    ||| exists|i: int| 0 <= i < s.jobs.len() && #[trigger] job_lights(s, i, room)
    ||| exists|i: int| 0 <= i < s.roster.len() && #[trigger] agent_lights(s, i, room)
}

/// Whether the bubble at `i` is one of `id` and can be seen.
pub open spec fn bubble_shows(bubbles: Seq<ThoughtBubbleView>, i: int, id: Seq<char>, now: u64) -> bool {
    bubbles[i].agent == id && alpha_at(bubbles[i].born, now) is Some
}

/// Whether a bubble of `id` can be seen.
pub open spec fn has_visible_bubble(bubbles: Seq<ThoughtBubbleView>, id: Seq<char>, now: u64) -> bool {
    exists|i: int| 0 <= i < bubbles.len() && #[trigger] bubble_shows(bubbles, i, id, now)
}

/// Whether the sparkle floats above an agent: something runs in its room, and
/// no bubble of its own says so.
pub fn should_render_power_up(
    agent_id: &AgentId,
    room_id: &str,
    running_rooms: &StrSet,
    visible_bubble_agents: &StrSet,
) -> (r: bool)
    ensures
        r == (running_rooms.deep_view().contains(room_id@)
            && !visible_bubble_agents.deep_view().contains(agent_id.deep_view())),
{
    running_rooms.contains(room_id) && !visible_bubble_agents.contains(agent_id.as_str())
}

// ---------------------------------------------------------------------
// Movement
// ---------------------------------------------------------------------

/// What is left of the flash of a status change at `then`, in milliseconds.
pub open spec fn flash_left(now: u64, then: Option<u64>) -> u64 {
    match then {
        Some(t) => if elapsed(now, t) < TRANSITION_FLASH_MS {
            (TRANSITION_FLASH_MS - elapsed(now, t)) as u64
        } else {
            0
        },
        None => 0,
    }
}

/// The flash fades out within its time, and is full when the status changes.
pub proof fn flash_fades(now: u64, later: u64, then: u64)
    requires
        now <= later,
    ensures
        flash_left(later, Some(then)) <= flash_left(now, Some(then)) <= TRANSITION_FLASH_MS,
        flash_left(then, Some(then)) == TRANSITION_FLASH_MS,
        elapsed(now, then) >= TRANSITION_FLASH_MS <==> flash_left(now, Some(then)) == 0,
{
}

/// Whether a sprite wanders through its room: while it is idle.
pub fn wanders(status: AgentStatus) -> (r: bool)
    ensures
        r == (status == AgentStatus::Healthy || status == AgentStatus::Unknown),
{
    match status {
        AgentStatus::Healthy | AgentStatus::Unknown => true,
        _ => false,
    }
}

/// Whether a sprite bobs in place: while it works.
pub fn bobs(status: AgentStatus) -> (r: bool)
    ensures
        r == (status == AgentStatus::Running),
{
    status == AgentStatus::Running
}

/// How a sprite wanders: two phases in degrees, and a pace from 0 to 39. It
/// depends on the id alone, so that no two sprites march in step.
#[derive(Debug, Clone, Copy, PartialEq, Eq, Structural)]
pub struct Gait {
    pub phase_x: u64,
    pub phase_y: u64,
    pub pace: u64,
}

/// How the sprite with this id wanders.
pub fn gait(id: &str) -> (r: Gait)
    ensures
        ({
            let h = byte_hash(encode_utf8(id@));
            r == Gait {
                phase_x: (h % 360) as u64,
                phase_y: (h / 7 % 360) as u64,
                pace: (h % 40) as u64,
            }
        }),
{
    let h = hash_bytes(id);
    Gait { phase_x: h % 360, phase_y: (h / 7) % 360, pace: h % 40 }
}

// ---------------------------------------------------------------------
// The plan
// ---------------------------------------------------------------------

/// How many of the first `n` agents of the roster live in `room`.
pub open spec fn room_mates(s: OfficeView, room: Seq<char>, n: int) -> nat
    decreases n,
{
    if n <= 0 {
        0
    } else {
        room_mates(s, room, n - 1) + (if agent_room(s.agent_rooms, s.roster[n - 1].id) == room {
            1nat
        } else {
            0
        })
    }
}

/// The agent at `i` on its place; none when its room has no cell.
pub open spec fn place(s: OfficeView, i: int, now: u64) -> Option<PlacedAgentView> {
    let agent = s.roster[i];
    let room = agent_room(s.agent_rooms, agent.id);
    match shown_index(s.rooms, room) {
        Some(cell) => Some(
            PlacedAgentView {
                agent,
                status: status_of(s.statuses, agent.id),
                room: cell as usize,
                slot: room_mates(s, room, i) as usize,
                flash: flash_left(now, lookup(s.transition_moments, agent.id)),
                working: room_is_running(s, room) && !has_visible_bubble(s.bubbles, agent.id, now),
            },
        ),
        None => None,
    }
}

/// The first `n` agents of the roster, those that are drawn, on their places.
pub open spec fn placed(s: OfficeView, now: u64, n: int) -> Seq<PlacedAgentView>
    decreases n,
{
    if n <= 0 {
        Seq::empty()
    } else {
        match place(s, n - 1, now) {
            Some(p) => placed(s, now, n - 1).push(p),
            None => placed(s, now, n - 1),
        }
    }
}

/// The last of the placed agents with this id.
pub open spec fn anchor_of(agents: Seq<PlacedAgentView>, id: Seq<char>) -> Option<int>
    decreases agents.len(),
{
    if agents.len() == 0 {
        None
    } else if agents.last().agent.id == id {
        Some(agents.len() - 1)
    } else {
        anchor_of(agents.drop_last(), id)
    }
}

/// How many of the bubbles stand above the agent at `anchor`.
pub open spec fn stacked(bubbles: Seq<PlacedBubbleView>, anchor: int) -> nat
    decreases bubbles.len(),
{
    if bubbles.len() == 0 {
        0
    } else {
        stacked(bubbles.drop_last(), anchor) + (if bubbles.last().anchor == anchor {
            1nat
        } else {
            0
        })
    }
}

/// The newest `n` bubbles, those that can be seen and whose agent is drawn.
pub open spec fn floating(
    bubbles: Seq<ThoughtBubbleView>,
    agents: Seq<PlacedAgentView>,
    now: u64,
    n: int,
) -> Seq<PlacedBubbleView>
    decreases n,
{
    if n <= 0 {
        Seq::empty()
    } else {
        let before = floating(bubbles, agents, now, n - 1);
        let b = bubbles[bubbles.len() - n];
        match (alpha_at(b.born, now), anchor_of(agents, b.agent)) {
            (Some(alpha), Some(anchor)) => before.push(
                PlacedBubbleView {
                    anchor: anchor as usize,
                    text: b.text,
                    kind: b.kind,
                    alpha,
                    depth: stacked(before, anchor) as usize,
                },
            ),
            _ => before,
        }
    }
}

impl<'a> OfficeScene<'a> {
    /// What there is to draw, as mathematical values.
    pub open spec fn model(&self) -> OfficeView {
        OfficeView {
            roster: self.roster.deep_view(),
            jobs: self.jobs.deep_view(),
            statuses: self.statuses.deep_view(),
            rooms: self.rooms.deep_view(),
            agent_rooms: self.agent_rooms.deep_view(),
            job_rooms: self.job_rooms.deep_view(),
            bubbles: self.bubbles.deep_view(),
            transition_moments: self.transition_moments.deep_view(),
        }
    }

    /// The rooms in which something runs.
    pub fn running_rooms(&self) -> (r: StrSet)
        ensures
            forall|room: Seq<char>|
                #![trigger r.deep_view().contains(room)]
                r.deep_view().contains(room) <==> room_is_running(self.model(), room),
    {
        let ghost s = self.model();
        let mut out = StrSet::new();
        let mut i: usize = 0;
        let n = self.jobs.len();
        while i < n
            invariant
                s == self.model(),
                n == s.jobs.len(),
                i <= n,
                forall|room: Seq<char>|
                    #![trigger out.deep_view().contains(room)]
                    out.deep_view().contains(room) <==> exists|k: int|
                        0 <= k < i && #[trigger] job_lights(s, k, room),
            decreases n - i,
        {
            let job = self.jobs.value_at(i);
            let ghost was = out.deep_view();
            if job.status == AgentStatus::Running {
                let room = resolve_job_room(job, self.job_rooms, self.rooms);
                let _ = out.insert(room.to_owned());
                proof {
                    member_law(was, room@);
                    assert(job_lights(s, i as int, room@));
                }
            }
            assert forall|room: Seq<char>|
                #![trigger out.deep_view().contains(room)]
                out.deep_view().contains(room) <==> exists|k: int|
                    0 <= k < i + 1 && #[trigger] job_lights(s, k, room) by {
                if out.deep_view().contains(room) {
                    if was.contains(room) {
                        let k = choose|k: int| 0 <= k < i && #[trigger] job_lights(s, k, room);
                        assert(job_lights(s, k, room));
                    } else {
                        assert(job_lights(s, i as int, room));
                    }
                }
                if exists|k: int| 0 <= k < i + 1 && #[trigger] job_lights(s, k, room) {
                    let k = choose|k: int| 0 <= k < i + 1 && #[trigger] job_lights(s, k, room);
                    if k < i {
                        assert(was.contains(room));
                    }
                }
            }
            i = i + 1;
        }
        let mut j: usize = 0;
        while j < self.roster.len()
            invariant
                s == self.model(),
                j <= self.roster@.len(),
                forall|room: Seq<char>|
                    #![trigger out.deep_view().contains(room)]
                    out.deep_view().contains(room) <==> ((exists|k: int|
                        0 <= k < s.jobs.len() && #[trigger] job_lights(s, k, room)) || (exists|
                        k: int,
                    | 0 <= k < j && #[trigger] agent_lights(s, k, room))),
            decreases self.roster@.len() - j,
        {
            let agent = &self.roster[j];
            assert(s.roster[j as int] == agent.deep_view());
            let ghost was = out.deep_view();
            if agent_status(self.statuses, &agent.id) == AgentStatus::Running {
                let room = resolve_agent_room(agent, self.agent_rooms);
                let _ = out.insert(room.to_owned());
                proof {
                    member_law(was, room@);
                    assert(agent_lights(s, j as int, room@));
                }
            }
            assert forall|room: Seq<char>|
                #![trigger out.deep_view().contains(room)]
                out.deep_view().contains(room) <==> ((exists|k: int|
                    0 <= k < s.jobs.len() && #[trigger] job_lights(s, k, room)) || (exists|k: int|
                    0 <= k < j + 1 && #[trigger] agent_lights(s, k, room))) by {
                if out.deep_view().contains(room) {
                    if was.contains(room) {
                        if exists|k: int| 0 <= k < j && #[trigger] agent_lights(s, k, room) {
                            let k = choose|k: int|
                                0 <= k < j && #[trigger] agent_lights(s, k, room);
                            assert(agent_lights(s, k, room));
                        }
                    } else {
                        assert(agent_lights(s, j as int, room));
                    }
                }
                if exists|k: int| 0 <= k < j + 1 && #[trigger] agent_lights(s, k, room) {
                    let k = choose|k: int| 0 <= k < j + 1 && #[trigger] agent_lights(s, k, room);
                    if k < j {
                        assert(was.contains(room));
                    }
                }
                if exists|k: int| 0 <= k < s.jobs.len() && #[trigger] job_lights(s, k, room) {
                    assert(was.contains(room));
                }
            }
            j = j + 1;
        }
        out
    }

    /// The agents with a bubble that can be seen.
    pub fn visible_bubble_agents(&self, now: u64) -> (r: StrSet)
        ensures
            forall|id: Seq<char>|
                #![trigger r.deep_view().contains(id)]
                r.deep_view().contains(id) <==> has_visible_bubble(self.model().bubbles, id, now),
    {
        let ghost all = self.bubbles.deep_view();
        let mut out = StrSet::new();
        let mut i: usize = 0;
        while i < self.bubbles.len()
            invariant
                all == self.bubbles.deep_view(),
                i <= self.bubbles@.len(),
                forall|id: Seq<char>|
                    #![trigger out.deep_view().contains(id)]
                    out.deep_view().contains(id) <==> exists|k: int|
                        0 <= k < i && #[trigger] bubble_shows(all, k, id, now),
            decreases self.bubbles@.len() - i,
        {
            let b = &self.bubbles[i];
            assert(all[i as int] == b.deep_view());
            let ghost was = out.deep_view();
            if b.alpha(now).is_some() {
                let _ = out.insert(b.agent.as_str().to_owned());
                proof {
                    member_law(was, b.agent.deep_view());
                    assert(bubble_shows(all, i as int, b.agent.deep_view(), now));
                }
            }
            assert forall|id: Seq<char>|
                #![trigger out.deep_view().contains(id)]
                out.deep_view().contains(id) <==> exists|k: int|
                    0 <= k < i + 1 && #[trigger] bubble_shows(all, k, id, now) by {
                if out.deep_view().contains(id) {
                    if was.contains(id) {
                        let k = choose|k: int| 0 <= k < i && #[trigger] bubble_shows(all, k, id, now);
                        assert(bubble_shows(all, k, id, now));
                    } else {
                        assert(bubble_shows(all, i as int, id, now));
                    }
                }
                if exists|k: int| 0 <= k < i + 1 && #[trigger] bubble_shows(all, k, id, now) {
                    let k = choose|k: int|
                        0 <= k < i + 1 && #[trigger] bubble_shows(all, k, id, now);
                    if k < i {
                        assert(was.contains(id));
                    }
                }
            }
            i = i + 1;
        }
        out
    }

    /// How many of the first `n` agents of the roster live in `room`.
    fn mates(&self, room: &str, n: usize) -> (r: usize)
        requires
            n <= self.roster@.len(),
        ensures
            r == room_mates(self.model(), room@, n as int),
    {
        let ghost s = self.model();
        let mut r: usize = 0;
        let mut i: usize = 0;
        while i < n
            invariant
                s == self.model(),
                i <= n <= self.roster@.len(),
                r == room_mates(s, room@, i as int),
                r <= i,
            decreases n - i,
        {
            assert(s.roster[i as int] == self.roster@[i as int].deep_view());
            if same(resolve_agent_room(&self.roster[i], self.agent_rooms), room) {
                r = r + 1;
            }
            i = i + 1;
        }
        r
    }

    /// The plan of the picture at `now`: every agent whose room has a cell, in
    /// the order of the roster, and above them the visible bubbles, newest
    /// first.
    pub fn draw(&self, now: u64) -> (r: OfficePlan)
        ensures
            r.agents.deep_view() == placed(self.model(), now, self.roster@.len() as int),
            r.bubbles.deep_view() == floating(
                self.model().bubbles,
                placed(self.model(), now, self.roster@.len() as int),
                now,
                self.bubbles@.len() as int,
            ),
    {
        let ghost s = self.model();
        let layout = RoomLayout::new(self.rooms);
        let running = self.running_rooms();
        let visible = self.visible_bubble_agents(now);
        let mut agents: Vec<PlacedAgent> = Vec::new();
        assert(agents.deep_view() =~= Seq::empty());
        let mut i: usize = 0;
        while i < self.roster.len()
            invariant
                s == self.model(),
                layout.list() == s.rooms,
                i <= self.roster@.len(),
                forall|room: Seq<char>|
                    #![trigger running.deep_view().contains(room)]
                    running.deep_view().contains(room) <==> room_is_running(s, room),
                forall|id: Seq<char>|
                    #![trigger visible.deep_view().contains(id)]
                    visible.deep_view().contains(id) <==> has_visible_bubble(s.bubbles, id, now),
                agents.deep_view() == placed(s, now, i as int),
            decreases self.roster@.len() - i,
        {
            let agent = &self.roster[i];
            assert(s.roster[i as int] == agent.deep_view());
            let room = resolve_agent_room(agent, self.agent_rooms);
            if let Some(cell) = layout.room_at(room) {
                let slot = self.mates(room, i);
                let flash = match self.transition_moments.get(agent.id.as_str()) {
                    Some(t) => {
                        let age = since(now, *t);
                        if age < TRANSITION_FLASH_MS {
                            TRANSITION_FLASH_MS - age
                        } else {
                            0
                        }
                    },
                    None => 0,
                };
                let p = PlacedAgent {
                    agent: agent.clone(),
                    status: agent_status(self.statuses, &agent.id),
                    room: cell,
                    slot,
                    flash,
                    working: should_render_power_up(&agent.id, room, &running, &visible),
                };
                assert(place(s, i as int, now) == Some(p.deep_view()));
                push_to(&mut agents, p);
            }
            i = i + 1;
        }
        let bubbles = float_bubbles(self.bubbles, &agents, now);
        OfficePlan { agents, bubbles }
    }
}

/// The last of the placed agents with this id.
fn find_anchor(agents: &Vec<PlacedAgent>, id: &AgentId) -> (r: Option<usize>)
    ensures
        match r {
            Some(i) => anchor_of(agents.deep_view(), id.deep_view()) == Some(i as int),
            None => anchor_of(agents.deep_view(), id.deep_view()) is None,
        },
{
    let ghost all = agents.deep_view();
    let mut i: usize = agents.len();
    assert(all.take(i as int) =~= all);
    while i > 0
        invariant
            all == agents.deep_view(),
            i <= agents@.len(),
            anchor_of(all, id.deep_view()) == anchor_of(all.take(i as int), id.deep_view()),
        decreases i,
    {
        let k = i - 1;
        assert(all.take(i as int).last() == agents@[k as int].deep_view());
        assert(all.take(i as int).drop_last() =~= all.take(k as int));
        if same(agents[k].agent.id.as_str(), id.as_str()) {
            return Some(k);
        }
        i = k;
    }
    None
}

/// How many of the bubbles stand above the agent at `anchor`.
fn count_stacked(bubbles: &Vec<PlacedBubble>, anchor: usize) -> (r: usize)
    ensures
        r == stacked(bubbles.deep_view(), anchor as int),
{
    let ghost all = bubbles.deep_view();
    let mut r: usize = 0;
    let mut i: usize = 0;
    while i < bubbles.len()
        invariant
            all == bubbles.deep_view(),
            i <= bubbles@.len(),
            r == stacked(all.take(i as int), anchor as int),
            r <= i,
        decreases bubbles@.len() - i,
    {
        assert(all.take(i + 1).last() == bubbles@[i as int].deep_view());
        assert(all.take(i + 1).drop_last() =~= all.take(i as int));
        if bubbles[i].anchor == anchor {
            r = r + 1;
        }
        i = i + 1;
    }
    assert(all.take(i as int) =~= all);
    r
}

/// The visible bubbles of the placed agents, newest first.
fn float_bubbles(bubbles: &Vec<ThoughtBubble>, agents: &Vec<PlacedAgent>, now: u64) -> (r: Vec<
    PlacedBubble,
>)
    ensures
        r.deep_view() == floating(
            bubbles.deep_view(),
            agents.deep_view(),
            now,
            bubbles@.len() as int,
        ),
{
    let ghost all = bubbles.deep_view();
    let mut out: Vec<PlacedBubble> = Vec::new();
    assert(out.deep_view() =~= Seq::empty());
    let mut n: usize = 0;
    while n < bubbles.len()
        invariant
            all == bubbles.deep_view(),
            n <= bubbles@.len(),
            out.deep_view() == floating(all, agents.deep_view(), now, n as int),
        decreases bubbles@.len() - n,
    {
        let b = &bubbles[bubbles.len() - 1 - n];
        assert(all[all.len() - (n + 1)] == b.deep_view());
        if let Some(alpha) = b.alpha(now) {
            if let Some(anchor) = find_anchor(agents, &b.agent) {
                let depth = count_stacked(&out, anchor);
                push_to(
                    &mut out,
                    PlacedBubble { anchor, text: b.text.clone(), kind: b.kind, alpha, depth },
                );
            }
        }
        n = n + 1;
    }
    out
}

proof fn member_law(s: Seq<Seq<char>>, k: Seq<char>)
    ensures
        forall|x: Seq<char>|
            #![trigger with_member(s, k).contains(x)]
            with_member(s, k).contains(x) <==> x == k || s.contains(x),
{
    let t = with_member(s, k);
    assert forall|x: Seq<char>| #![trigger t.contains(x)] t.contains(x) <==> x == k || s.contains(
        x,
    ) by {
        if !s.contains(k) {
            assert(t[s.len() as int] == k);
            if s.contains(x) {
                let i = s.index_of(x);
                assert(s[i] == x && t[i] == x);
            }
            if t.contains(x) && x != k {
                let i = t.index_of(x);
                assert(s[i] == x);
            }
        }
    }
}

/// Of two agents in one room the one that comes first in the roster has the
/// lower slot.
pub proof fn slots_follow_the_roster(s: OfficeView, room: Seq<char>, i: int, j: int)
    requires
        0 <= i < j <= s.roster.len(),
        agent_room(s.agent_rooms, s.roster[i].id) == room,
    ensures
        room_mates(s, room, i) < room_mates(s, room, j),
    decreases j,
{
    if i + 1 < j {
        slots_follow_the_roster(s, room, i, j - 1);
    }
}

/// No sparkle floats above an agent with a visible bubble, and every other
/// agent that runs and is drawn has one.
pub proof fn bubbles_outrank_the_sparkle(s: OfficeView, i: int, now: u64)
    requires
        0 <= i < s.roster.len(),
    ensures
        has_visible_bubble(s.bubbles, s.roster[i].id, now) ==> (place(s, i, now) matches Some(p)
            ==> !p.working),
        status_of(s.statuses, s.roster[i].id) == AgentStatus::Running && !has_visible_bubble(
            s.bubbles,
            s.roster[i].id,
            now,
        ) ==> (place(s, i, now) matches Some(p) ==> p.working),
{
    let room = agent_room(s.agent_rooms, s.roster[i].id);
    if status_of(s.statuses, s.roster[i].id) == AgentStatus::Running {
        assert(agent_lights(s, i, room));
    }
}

// ---------------------------------------------------------------------
// Bubble text
// ---------------------------------------------------------------------

/// The lines of a bubble: `words` after `line`, as many to a line as fit into
/// `max` characters.
pub open spec fn wrapped(words: Seq<Seq<char>>, line: Seq<char>, max: nat) -> Seq<Seq<char>>
    decreases words.len(),
{
    if words.len() == 0 {
        if line.len() == 0 {
            Seq::empty()
        } else {
            seq![line]
        }
    } else if line.len() == 0 {
        wrapped(words.drop_first(), words[0], max)
    } else if line.len() + 1 + words[0].len() > max {
        seq![line] + wrapped(words.drop_first(), words[0], max)
    } else {
        wrapped(words.drop_first(), line + seq![' '] + words[0], max)
    }
}

/// The lines that a bubble with the text `text` shows.
pub open spec fn bubble_lines(text: Seq<char>, max: nat) -> Seq<Seq<char>> {
    if words(text).len() == 0 {
        seq![Seq::empty()]
    } else {
        wrapped(words(text), Seq::empty(), max)
    }
}

/// Collapses white space and wraps the words, as many to a line as fit. A
/// word that is too long has a line to itself.
pub fn bubble_display_lines(text: &str, max_chars: usize) -> (r: Vec<String>)
    ensures
        r.deep_view() == bubble_lines(text@, max_chars as nat),
{
    let ws = split_words(text);
    let mut out: Vec<String> = Vec::new();
    assert(out.deep_view() =~= Seq::empty());
    if ws.len() == 0 {
        push_to(&mut out, String::new());
        assert(out.deep_view() =~= seq![Seq::empty()]);
        return out;
    }
    let ghost all = ws.deep_view();
    let ghost max = max_chars as nat;
    let mut line = String::new();
    let mut i: usize = 0;
    assert(all.skip(0) =~= all);
    assert(line@ =~= Seq::empty());
    assert(out.deep_view() + wrapped(all, Seq::empty(), max) =~= wrapped(all, Seq::empty(), max));
    while i < ws.len()
        invariant
            all == ws.deep_view(),
            max == max_chars,
            i <= ws@.len(),
            out.deep_view() + wrapped(all.skip(i as int), line@, max) == wrapped(
                all,
                Seq::empty(),
                max,
            ),
        decreases ws@.len() - i,
    {
        let ghost rest = all.skip(i as int);
        assert(rest[0] == ws@[i as int]@);
        assert(rest.drop_first() =~= all.skip(i + 1));
        let have = chars_of(line.as_str()).len();
        let need = chars_of(ws[i].as_str()).len();
        if have == 0 {
            assert(line@.len() == 0);
            line = ws[i].clone();
        } else if have >= max_chars || need >= max_chars - have {
            let ghost before = out.deep_view();
            let ghost was = line@;
            push_to(&mut out, line);
            line = ws[i].clone();
            assert(out.deep_view() + wrapped(all.skip(i + 1), line@, max) =~= before + (seq![was]
                + wrapped(all.skip(i + 1), line@, max)));
        } else {
            line = cat3(line.as_str(), " ", ws[i].as_str());
            proof {
                reveal_strlit(" ");
                assert(" "@ =~= seq![' ']);
            }
        }
        i = i + 1;
    }
    assert(all.skip(i as int).len() == 0);
    if chars_of(line.as_str()).len() > 0 {
        let ghost before = out.deep_view();
        let ghost was = line@;
        push_to(&mut out, line);
        assert(out.deep_view() =~= before + seq![was]);
    } else {
        assert(out.deep_view() =~= out.deep_view() + Seq::<Seq<char>>::empty());
    }
    out
}

/// `words` after `line`, which is left out when it is empty.
spec fn after_line(words: Seq<Seq<char>>, line: Seq<char>) -> Seq<Seq<char>> {
    if line.len() == 0 {
        words
    } else {
        seq![line] + words
    }
}

proof fn joined_front(x: Seq<char>, rest: Seq<Seq<char>>, sep: Seq<char>)
    requires
        rest.len() > 0,
    ensures
        joined(seq![x] + rest, sep) == x + sep + joined(rest, sep),
    decreases rest.len(),
{
    let whole = seq![x] + rest;
    assert(whole.last() == rest.last());
    assert(whole.drop_last() =~= seq![x] + rest.drop_last());
    if rest.len() == 1 {
        assert(whole.drop_last() =~= seq![x]);
        assert(joined(whole.drop_last(), sep) == x);
    } else {
        joined_front(x, rest.drop_last(), sep);
        assert(joined(whole, sep) =~= x + sep + joined(rest, sep));
    }
}

proof fn wrapping_joins_back(words: Seq<Seq<char>>, line: Seq<char>, max: nat)
    requires
        forall|i: int| 0 <= i < words.len() ==> (#[trigger] words[i]).len() > 0,
    ensures
        joined(wrapped(words, line, max), seq![' ']) == joined(
            after_line(words, line),
            seq![' '],
        ),
        wrapped(words, line, max).len() == 0 <==> words.len() == 0 && line.len() == 0,
    decreases words.len(),
{
    let sep = seq![' '];
    if words.len() == 0 {
        if line.len() > 0 {
            assert(after_line(words, line) =~= seq![line]);
        } else {
            assert(after_line(words, line) =~= Seq::empty());
        }
    } else {
        let rest = words.drop_first();
        let w = words[0];
        assert(w.len() > 0);
        assert(seq![w] + rest =~= words);
        assert forall|i: int| 0 <= i < rest.len() implies (#[trigger] rest[i]).len() > 0 by {
            assert(rest[i] == words[i + 1]);
        }
        if line.len() == 0 {
            wrapping_joins_back(rest, w, max);
        } else if line.len() + 1 + w.len() > max {
            wrapping_joins_back(rest, w, max);
            joined_front(line, wrapped(rest, w, max), sep);
            joined_front(line, words, sep);
        } else {
            let longer = line + sep + w;
            wrapping_joins_back(rest, longer, max);
            joined_front(line, words, sep);
            if rest.len() > 0 {
                joined_front(longer, rest, sep);
                joined_front(w, rest, sep);
                assert(longer + sep + joined(rest, sep) =~= line + sep + (w + sep + joined(
                    rest,
                    sep,
                )));
            } else {
                assert(seq![longer] + rest =~= seq![longer]);
                assert(words =~= seq![w]);
            }
        }
    }
}

/// Wrapping loses no word and adds none: the lines of a bubble, joined by
/// spaces, are the words of its text, joined by spaces.
pub proof fn wrapping_keeps_the_words(text: Seq<char>, max: nat)
    ensures
        joined(bubble_lines(text, max), seq![' ']) == joined(words(text), seq![' ']),
        bubble_lines(text, max).len() > 0,
{
    words_are_not_empty(text);
    wrapping_joins_back(words(text), Seq::empty(), max);
}

/// Whether `line` is one of `words`.
pub open spec fn is_word(words: Seq<Seq<char>>, line: Seq<char>) -> bool {
    exists|j: int| 0 <= j < words.len() && #[trigger] words[j] == line
}

/// Every line has at most `max` characters, or is a single one of `words`.
pub open spec fn all_fit(lines: Seq<Seq<char>>, words: Seq<Seq<char>>, max: nat) -> bool {
    forall|i: int|
        0 <= i < lines.len() ==> (#[trigger] lines[i]).len() <= max || is_word(words, lines[i])
}

proof fn wrapping_fits(all: Seq<Seq<char>>, from: int, line: Seq<char>, max: nat)
    requires
        0 <= from <= all.len(),
        line.len() <= max || is_word(all, line),
    ensures
        all_fit(wrapped(all.skip(from), line, max), all, max),
    decreases all.len() - from,
{
    let ws = all.skip(from);
    let out = wrapped(ws, line, max);
    if ws.len() > 0 {
        assert(ws.drop_first() =~= all.skip(from + 1));
        assert(ws[0] == all[from]);
        assert(is_word(all, ws[0]));
        if line.len() == 0 {
            wrapping_fits(all, from + 1, ws[0], max);
        } else if line.len() + 1 + ws[0].len() > max {
            wrapping_fits(all, from + 1, ws[0], max);
            let tail = wrapped(ws.drop_first(), ws[0], max);
            assert(out == seq![line] + tail);
            assert forall|i: int| 0 <= i < out.len() implies (#[trigger] out[i]).len() <= max
                || is_word(all, out[i]) by {
                if i > 0 {
                    assert(out[i] == tail[i - 1]);
                }
            }
        } else {
            wrapping_fits(all, from + 1, line + seq![' '] + ws[0], max);
        }
    }
}

/// Every line of a bubble fits, but for a word that is too long by itself.
pub proof fn lines_fit(text: Seq<char>, max: nat)
    ensures
        all_fit(bubble_lines(text, max), words(text), max),
{
    assert(words(text).skip(0) =~= words(text));
    wrapping_fits(words(text), 0, Seq::empty(), max);
}

/// How many characters a bubble line may have in a scene that is `half_px`
/// half pixels wide: what is left of 40 to 520 pixels without the padding,
/// at 6.5 pixels a character, and no fewer than 8.
pub fn bubble_columns(half_px: u32) -> (r: usize)
    ensures
        ({
            let room: int = half_px - 32;
            let width: int = if room < 80 {
                80
            } else if room > 1040 {
                1040
            } else {
                room
            };
            r == if (width - 40) / 13 < 8 {
                8
            } else {
                (width - 40) / 13
            }
        }),
        8 <= r <= 76,
{
    let width: u32 = if half_px < 112 {
        80
    } else if half_px > 1072 {
        1040
    } else {
        half_px - 32
    };
    let n = (width - 40) / 13;
    if n < 8 {
        8
    } else {
        n as usize
    }
}

/// The lines of a bubble, and how many characters the longest one has.
#[derive(Debug)]
pub struct BubbleLayout {
    pub lines: Vec<String>,
    pub longest: usize,
}

/// The length of the longest line.
pub open spec fn longest_line(lines: Seq<Seq<char>>) -> nat
    decreases lines.len(),
{
    if lines.len() == 0 {
        0
    } else {
        let before = longest_line(lines.drop_last());
        if lines.last().len() > before {
            lines.last().len()
        } else {
            before
        }
    }
}

/// Lays out a text for lines of at most `max_chars` characters.
pub fn bubble_layout(text: &str, max_chars: usize) -> (r: BubbleLayout)
    ensures
        r.lines.deep_view() == bubble_lines(text@, max_chars as nat),
        r.longest == longest_line(r.lines.deep_view()),
{
    let lines = bubble_display_lines(text, max_chars);
    let ghost all = lines.deep_view();
    let mut longest: usize = 0;
    let mut i: usize = 0;
    while i < lines.len()
        invariant
            all == lines.deep_view(),
            i <= lines@.len(),
            longest == longest_line(all.take(i as int)),
        decreases lines@.len() - i,
    {
        assert(all.take(i + 1).last() == lines@[i as int]@);
        assert(all.take(i + 1).drop_last() =~= all.take(i as int));
        let n = chars_of(lines[i].as_str()).len();
        if n > longest {
            longest = n;
        }
        i = i + 1;
    }
    assert(all.take(i as int) =~= all);
    BubbleLayout { lines, longest }
}

} // verus!
