//! What the office shows, said of every office.
use vstd::prelude::*;

use crate::domain::agent::AgentKind;
use crate::domain::room::RoomView;
use crate::domain::room_assignment::{assigned_room, RoomId};
use crate::domain::status::AgentStatus;
use crate::keyed::lookup;
use crate::scene::flourish::elapsed;
use crate::scene::office::{
    agent_lights, agent_room, anchor_of, bubble_lines, bubble_shows, floating, has_room,
    has_visible_bubble, longest_line, job_lights, job_room, place, placed, room_is_running,
    room_mates, stacked, wrapped, OfficeView, PlacedAgentView, PlacedBubbleView,
};
use crate::scene::room::{room_index, room_index_names_it};
use crate::scene::sprite::{frame_cells, ink_of, row_cells, Cell};
use crate::scene::thought_bubble::{alpha_at, transition_words, ThoughtBubbleView};
use crate::text::{joined, words};

verus! {

// ---------------------------------------------------------------------
// Rooms
// ---------------------------------------------------------------------

/// An agent, and a job whose room is there, stay in the room they were given;
/// everyone else is on the command deck.
pub proof fn homes_are_kept(
    overrides: Seq<(Seq<char>, Seq<char>)>,
    rooms: Seq<RoomView>,
    id: Seq<char>,
    i: int,
)
    ensures
        lookup(overrides, id) matches Some(room) ==> agent_room(overrides, id) == room,
        lookup(overrides, id) is None ==> agent_room(overrides, id) == "command-deck"@ && job_room(
            overrides,
            rooms,
            id,
        ) == "command-deck"@,
        0 <= i < rooms.len() && lookup(overrides, id) == Some(rooms[i].id) ==> job_room(
            overrides,
            rooms,
            id,
        ) == rooms[i].id,
        (lookup(overrides, id) matches Some(room) && forall|j: int|
            0 <= j < rooms.len() ==> (#[trigger] rooms[j]).id != room) ==> job_room(
            overrides,
            rooms,
            id,
        ) == "command-deck"@,
{
}

/// A room is lit by an agent at work in it, by a job that runs in it, and by
/// nothing else.
pub proof fn work_lights_its_room(s: OfficeView, i: int, room: Seq<char>)
    ensures
        0 <= i < s.roster.len() && lookup(s.statuses, s.roster[i].id) == Some(AgentStatus::Running)
            && agent_room(s.agent_rooms, s.roster[i].id) == room ==> room_is_running(s, room),
        0 <= i < s.jobs.len() && s.jobs[i].1.status == AgentStatus::Running && job_room(
            s.job_rooms,
            s.rooms,
            s.jobs[i].1.id,
        ) == room ==> room_is_running(s, room),
        (forall|k: int|
            0 <= k < s.roster.len() ==> lookup(s.statuses, (#[trigger] s.roster[k]).id) != Some(
                AgentStatus::Running,
            ) || agent_room(s.agent_rooms, s.roster[k].id) != room) && (forall|k: int|
            0 <= k < s.jobs.len() ==> (#[trigger] s.jobs[k]).1.status != AgentStatus::Running
                || job_room(s.job_rooms, s.rooms, s.jobs[k].1.id) != room) ==> !room_is_running(
            s,
            room,
        ),
{
    if 0 <= i < s.roster.len() && agent_lights(s, i, room) {
    }
    if 0 <= i < s.jobs.len() && job_lights(s, i, room) {
    }
    if (forall|k: int|
        0 <= k < s.roster.len() ==> lookup(s.statuses, (#[trigger] s.roster[k]).id) != Some(
            AgentStatus::Running,
        ) || agent_room(s.agent_rooms, s.roster[k].id) != room) && (forall|k: int|
        0 <= k < s.jobs.len() ==> (#[trigger] s.jobs[k]).1.status != AgentStatus::Running
            || job_room(s.job_rooms, s.rooms, s.jobs[k].1.id) != room) {
        assert forall|k: int| 0 <= k < s.roster.len() implies !#[trigger] agent_lights(
            s,
            k,
            room,
        ) by {
            assert(s.roster[k].id == s.roster[k].id);
        }
        assert forall|k: int| 0 <= k < s.jobs.len() implies !#[trigger] job_lights(s, k, room) by {
            assert(s.jobs[k].1 == s.jobs[k].1);
        }
    }
}

/// An agent stands in its own room, with its own status, and flashes for six
/// tenths of a second after a change of it; it is left out only when its room
/// is not shown.
pub proof fn agents_stand_in_their_rooms(s: OfficeView, i: int, now: u64)
    requires
        0 <= i < s.roster.len(),
        s.rooms.len() <= 8,
    ensures
        ({
            let a = s.roster[i];
            let home = agent_room(s.agent_rooms, a.id);
            &&& place(s, i, now) is Some <==> has_room(s.rooms, home)
            &&& place(s, i, now) matches Some(p) ==> {
                &&& p.agent == a
                &&& p.room < s.rooms.len()
                &&& s.rooms[p.room as int].id == home
                &&& lookup(s.statuses, a.id) matches Some(x) ==> p.status == x
                &&& lookup(s.statuses, a.id) is None ==> p.status == AgentStatus::Unknown
                &&& lookup(s.transition_moments, a.id) is None ==> p.flash == 0
                &&& lookup(s.transition_moments, a.id) matches Some(t) ==> (t <= now < t + 600
                    ==> p.flash == 600 - (now - t)) && (t + 600 <= now ==> p.flash == 0)
                &&& p.working <==> room_is_running(s, home) && !has_visible_bubble(
                    s.bubbles,
                    a.id,
                    now,
                )
            }
        }),
{
    let home = agent_room(s.agent_rooms, s.roster[i].id);
    room_index_names_it(s.rooms, home);
    if has_room(s.rooms, home) {
        first_room(s.rooms, home);
    } else if room_index(s.rooms, home) < s.rooms.len() {
        assert(s.rooms[room_index(s.rooms, home)].id == home);
    }
    if s.rooms.len() > 0 {
        crate::scene::room::grid_is_tight(s.rooms.len());
    }
}

proof fn first_room(rooms: Seq<RoomView>, id: Seq<char>)
    requires
        has_room(rooms, id),
    ensures
        room_index(rooms, id) < rooms.len(),
    decreases rooms.len(),
{
    let k = choose|k: int| 0 <= k < rooms.len() && (#[trigger] rooms[k]).id == id;
    if rooms[0].id != id {
        let rest = rooms.drop_first();
        assert(rest[k - 1].id == id);
        first_room(rest, id);
    }
}

/// Those who share a room stand side by side: the first of them on the first
/// place, and each later one of the roster further on.
pub proof fn room_mates_stand_apart(s: OfficeView, i: int, j: int, now: u64)
    requires
        0 <= i < j < s.roster.len() <= usize::MAX,
        agent_room(s.agent_rooms, s.roster[i].id) == agent_room(s.agent_rooms, s.roster[j].id),
        place(s, i, now) is Some,
    ensures
        place(s, j, now) is Some,
        place(s, i, now)->Some_0.room == place(s, j, now)->Some_0.room,
        place(s, i, now)->Some_0.slot < place(s, j, now)->Some_0.slot,
        (forall|k: int|
            0 <= k < i ==> agent_room(s.agent_rooms, (#[trigger] s.roster[k]).id) != agent_room(
                s.agent_rooms,
                s.roster[i].id,
            )) ==> place(s, i, now)->Some_0.slot == 0,
        (forall|k: int|
            i < k < j ==> agent_room(s.agent_rooms, (#[trigger] s.roster[k]).id) != agent_room(
                s.agent_rooms,
                s.roster[i].id,
            )) ==> place(s, j, now)->Some_0.slot == place(s, i, now)->Some_0.slot + 1,
{
    let room = agent_room(s.agent_rooms, s.roster[i].id);
    crate::scene::office::slots_follow_the_roster(s, room, i, j);
    mates_are_few(s, room, i);
    mates_are_few(s, room, j);
    if forall|k: int|
        0 <= k < i ==> agent_room(s.agent_rooms, (#[trigger] s.roster[k]).id) != room {
        strangers_do_not_count(s, room, 0, i);
    }
    if forall|k: int|
        i < k < j ==> agent_room(s.agent_rooms, (#[trigger] s.roster[k]).id) != room {
        strangers_do_not_count(s, room, i + 1, j);
    }
}

proof fn mates_are_few(s: OfficeView, room: Seq<char>, n: int)
    requires
        0 <= n <= s.roster.len(),
    ensures
        room_mates(s, room, n) <= n,
    decreases n,
{
    if n > 0 {
        mates_are_few(s, room, n - 1);
    }
}

proof fn strangers_do_not_count(s: OfficeView, room: Seq<char>, from: int, to: int)
    requires
        0 <= from <= to <= s.roster.len(),
        forall|k: int|
            from <= k < to ==> agent_room(s.agent_rooms, (#[trigger] s.roster[k]).id) != room,
    ensures
        room_mates(s, room, to) == room_mates(s, room, from),
    decreases to - from,
{
    if from < to {
        strangers_do_not_count(s, room, from, to - 1);
        assert(agent_room(s.agent_rooms, s.roster[to - 1].id) != room);
    }
}

/// Everyone who has a place stands in the office, in the roster's order.
pub proof fn everyone_with_a_place_stands(s: OfficeView, now: u64, n: int, i: int)
    requires
        0 <= i < n <= s.roster.len(),
    ensures
        place(s, i, now) matches Some(p) ==> placed(s, now, n).contains(p),
        placed(s, now, n).len() <= n,
        placed(s, now, 0).len() == 0,
        place(s, n - 1, now) matches Some(p) ==> placed(s, now, n) == placed(s, now, n - 1).push(p),
        place(s, n - 1, now) is None ==> placed(s, now, n) == placed(s, now, n - 1),
    decreases n,
{
    let before = placed(s, now, n - 1);
    let all = placed(s, now, n);
    if n > 1 {
        let k = if i < n - 1 {
            i
        } else {
            0
        };
        everyone_with_a_place_stands(s, now, n - 1, k);
    }
    if let Some(p) = place(s, i, now) {
        if i == n - 1 {
            assert(all[all.len() - 1] == p);
        } else {
            let at = before.index_of(p);
            assert(all[at] == p);
        }
    }
}

/// Where an agent belongs by what it is and does: what runs and every agent in
/// the command room, what failed in security, a channel that is off in the
/// vault and one that is on in the studio.
pub proof fn status_decides_the_room(id: Seq<char>, kind: AgentKind, status: AgentStatus)
    ensures
        status == AgentStatus::Error ==> assigned_room(id, kind, status) == RoomId::Security,
        kind == AgentKind::Main && status != AgentStatus::Error ==> assigned_room(id, kind, status)
            == RoomId::CommandHq,
        kind == AgentKind::Cron && status == AgentStatus::Running ==> assigned_room(
            id,
            kind,
            status,
        ) == RoomId::CommandHq,
        kind == AgentKind::Channel && status == AgentStatus::Disabled ==> assigned_room(
            id,
            kind,
            status,
        ) == RoomId::MemoryVault,
        kind == AgentKind::Channel && status != AgentStatus::Disabled && status
            != AgentStatus::Error ==> assigned_room(id, kind, status) == RoomId::Studio,
{
}

// ---------------------------------------------------------------------
// Bubbles
// ---------------------------------------------------------------------

/// A bubble shows for two seconds, whole for the first one and a half, and
/// fades evenly in the last half.
pub proof fn bubbles_last_two_seconds(born: u64, now: u64)
    requires
        born <= now,
    ensures
        now - born < 1500 ==> alpha_at(born, now) == Some(500u64),
        1500 <= now - born < 2000 ==> alpha_at(born, now) == Some((2000 - (now - born)) as u64),
        now - born >= 2000 ==> alpha_at(born, now) is None,
{
}

/// An agent counts as speaking exactly while one of its own bubbles shows.
pub proof fn own_bubbles_speak(bubbles: Seq<ThoughtBubbleView>, i: int, id: Seq<char>, now: u64)
    ensures
        0 <= i < bubbles.len() && bubbles[i].agent == id && elapsed(now, bubbles[i].born) < 2000
            ==> has_visible_bubble(bubbles, id, now),
        (forall|k: int|
            0 <= k < bubbles.len() ==> (#[trigger] bubbles[k]).agent != id || elapsed(
                now,
                bubbles[k].born,
            ) >= 2000) ==> !has_visible_bubble(bubbles, id, now),
{
    if 0 <= i < bubbles.len() && bubble_shows(bubbles, i, id, now) {
    }
    if has_visible_bubble(bubbles, id, now) {
        let k = choose|k: int|
            0 <= k < bubbles.len() && #[trigger] bubble_shows(bubbles, k, id, now);
        assert(bubbles[k].agent == id);
    }
}

proof fn anchor_law(agents: Seq<PlacedAgentView>, id: Seq<char>)
    ensures
        anchor_of(agents, id) matches Some(a) ==> 0 <= a < agents.len() && agents[a].agent.id == id,
        anchor_of(agents, id) is None ==> forall|k: int|
            0 <= k < agents.len() ==> (#[trigger] agents[k]).agent.id != id,
    decreases agents.len(),
{
    if agents.len() > 0 && agents.last().agent.id != id {
        let rest = agents.drop_last();
        anchor_law(rest, id);
        if anchor_of(agents, id) is None {
            assert forall|k: int| 0 <= k < agents.len() implies (#[trigger] agents[k]).agent.id
                != id by {
                if k < rest.len() {
                    assert(rest[k].agent.id != id);
                }
            }
        }
    }
}

/// A bubble that shows floats over the agent that it belongs to, with its own
/// words and kind, and higher by one for each newer bubble of that agent; the
/// newest ones come first. One that has gone, or whose agent is not in the
/// office, does not float.
pub proof fn bubbles_float_over_their_agent(
    bubbles: Seq<ThoughtBubbleView>,
    agents: Seq<PlacedAgentView>,
    now: u64,
    n: int,
)
    requires
        0 < n <= bubbles.len(),
        agents.len() <= usize::MAX,
        bubbles.len() <= usize::MAX,
    ensures
        ({
            let b = bubbles[bubbles.len() - n];
            let before = floating(bubbles, agents, now, n - 1);
            let all = floating(bubbles, agents, now, n);
            let here = exists|k: int| 0 <= k < agents.len() && (#[trigger] agents[k]).agent.id
                == b.agent;
            &&& floating(bubbles, agents, now, 0).len() == 0
            &&& elapsed(now, b.born) >= 2000 || !here ==> all == before
            &&& elapsed(now, b.born) < 2000 && here ==> {
                &&& all.len() == before.len() + 1
                &&& all.drop_last() == before
                &&& all.last().text == b.text
                &&& all.last().kind == b.kind
                &&& all.last().anchor < agents.len()
                &&& agents[all.last().anchor as int].agent.id == b.agent
                &&& Some(all.last().alpha) == alpha_at(b.born, now)
                &&& all.last().depth == stacked(before, all.last().anchor as int)
            }
        }),
{
    let b = bubbles[bubbles.len() - n];
    anchor_law(agents, b.agent);
    let before = floating(bubbles, agents, now, n - 1);
    let all = floating(bubbles, agents, now, n);
    floats_are_few(bubbles, agents, now, n - 1);
    if let Some(a) = anchor_of(agents, b.agent) {
        assert(agents[a].agent.id == b.agent);
        stack_is_counted(before, a, 0);
        if elapsed(now, b.born) < 2000 {
            assert(all.drop_last() =~= before);
        }
    }
}

proof fn floats_are_few(
    bubbles: Seq<ThoughtBubbleView>,
    agents: Seq<PlacedAgentView>,
    now: u64,
    n: int,
)
    requires
        0 <= n <= bubbles.len(),
    ensures
        floating(bubbles, agents, now, n).len() <= n,
    decreases n,
{
    if n > 0 {
        floats_are_few(bubbles, agents, now, n - 1);
    }
}

/// The height of a bubble counts those over the same agent.
pub proof fn stack_is_counted(bubbles: Seq<PlacedBubbleView>, anchor: int, other: int)
    ensures
        stacked(bubbles, anchor) <= bubbles.len(),
        bubbles.len() == 0 ==> stacked(bubbles, anchor) == 0,
        bubbles.len() > 0 && bubbles.last().anchor == anchor ==> stacked(bubbles, anchor) == stacked(
            bubbles.drop_last(),
            anchor,
        ) + 1,
        bubbles.len() > 0 && bubbles.last().anchor == other && other != anchor ==> stacked(
            bubbles,
            anchor,
        ) == stacked(bubbles.drop_last(), anchor),
    decreases bubbles.len(),
{
    if bubbles.len() > 0 {
        stack_is_counted(bubbles.drop_last(), anchor, other);
    }
}

// ---------------------------------------------------------------------
// Sprites
// ---------------------------------------------------------------------

/// A row of a sprite is painted where it has ink: each inked column once, in
/// its own row, at its own place or, flipped, at the one that mirrors it.
pub proof fn rows_are_painted(row: Seq<char>, at: nat, width: nat, flip: bool, n: nat, k: int)
    requires
        0 <= k < n <= row.len() <= width,
        at <= usize::MAX,
        width <= usize::MAX,
    ensures
        ink_of(row[k]) matches Some(ink) ==> row_cells(row, at, width, flip, n).contains(
            Cell {
                row: at as usize,
                col: (if flip {
                    width - 1 - k
                } else {
                    k
                }) as usize,
                ink,
            },
        ),
        row_cells(row, at, width, flip, n).len() <= n,
        forall|j: int|
            0 <= j < row_cells(row, at, width, flip, n).len() ==> (#[trigger] row_cells(
                row,
                at,
                width,
                flip,
                n,
            )[j]).row == at,
    decreases n,
{
    let before = row_cells(row, at, width, flip, (n - 1) as nat);
    let all = row_cells(row, at, width, flip, n);
    if n > 1 {
        let i = if k < n - 1 {
            k
        } else {
            0
        };
        rows_are_painted(row, at, width, flip, (n - 1) as nat, i);
    }
    if let Some(ink) = ink_of(row[k]) {
        if k == n - 1 {
            assert(all[all.len() - 1].ink == ink);
        } else {
            let c = Cell {
                row: at as usize,
                col: (if flip {
                    width - 1 - k
                } else {
                    k
                }) as usize,
                ink,
            };
            let i = before.index_of(c);
            assert(all[i] == c);
        }
    }
    assert forall|j: int| 0 <= j < all.len() implies (#[trigger] all[j]).row == at by {
        if j < before.len() {
            assert(all[j] == before[j]);
        }
    }
}

/// A sprite is painted row by row.
pub proof fn frames_are_painted_by_rows(rows: Seq<Seq<char>>, width: nat, flip: bool, n: nat)
    requires
        0 < n <= rows.len(),
    ensures
        frame_cells(rows, width, flip, 0).len() == 0,
        frame_cells(rows, width, flip, n) == frame_cells(rows, width, flip, (n - 1) as nat)
            + row_cells(rows[n - 1], (n - 1) as nat, width, flip, rows[n - 1].len()),
{
}

/// A change of status has its word: trouble and its end, work and its end, and
/// who falls asleep or wakes.
pub proof fn changes_have_their_word(p: AgentStatus)
    ensures
        p != AgentStatus::Error ==> transition_words(Some(p), AgentStatus::Error) == Some(
            "anomaly!"@,
        ),
        transition_words(Some(AgentStatus::Error), AgentStatus::Healthy) == Some("recovered"@),
        p != AgentStatus::Running ==> transition_words(Some(p), AgentStatus::Running) == Some(
            "...working..."@,
        ),
        transition_words(Some(AgentStatus::Running), AgentStatus::Healthy) == Some("eureka!"@),
        transition_words(Some(AgentStatus::Unknown), AgentStatus::Healthy) == Some("online"@),
        transition_words(None, AgentStatus::Healthy) == Some("online"@),
        p != AgentStatus::Disabled ==> transition_words(Some(p), AgentStatus::Disabled) == Some(
            "zzz"@,
        ),
        transition_words(Some(AgentStatus::Disabled), AgentStatus::Healthy) == Some("awake"@),
        transition_words(Some(AgentStatus::Disabled), AgentStatus::Unknown) == Some("awake"@),
        p != AgentStatus::Unknown && p != AgentStatus::Disabled ==> transition_words(
            Some(p),
            AgentStatus::Unknown,
        ) == Some("?"@),
        transition_words(Some(p), p) is None,
{
}

/// A text that fits on one line stays on one line.
pub proof fn short_text_stays_on_one_line(text: Seq<char>, max: nat)
    requires
        words(text).len() > 0,
        joined(words(text), seq![' ']).len() <= max,
    ensures
        bubble_lines(text, max) == seq![joined(words(text), seq![' '])],
{
    crate::text::words_are_not_empty(text);
    let ws = words(text);
    let first = ws[0];
    let rest = ws.drop_first();
    assert(seq![first] + rest =~= ws);
    assert(first.len() > 0);
    one_line(rest, first, max);
}

proof fn one_line(rest: Seq<Seq<char>>, line: Seq<char>, max: nat)
    requires
        line.len() > 0,
        joined(seq![line] + rest, seq![' ']).len() <= max,
    ensures
        wrapped(rest, line, max) == seq![joined(seq![line] + rest, seq![' '])],
    decreases rest.len(),
{
    let all = seq![line] + rest;
    let space = seq![' '];
    if rest.len() == 0 {
        assert(all =~= seq![line]);
    } else {
        let next = line + space + rest[0];
        let more = rest.drop_first();
        merge_front(line, rest[0], more);
        assert(seq![line] + rest =~= seq![line, rest[0]] + more);
        front_fits(next, more);
        one_line(more, next, max);
    }
}

proof fn merge_front(a: Seq<char>, b: Seq<char>, rest: Seq<Seq<char>>)
    ensures
        joined(seq![a, b] + rest, seq![' ']) == joined(seq![a + seq![' '] + b] + rest, seq![' ']),
    decreases rest.len(),
{
    let space = seq![' '];
    let x = seq![a, b] + rest;
    let y = seq![a + space + b] + rest;
    if rest.len() == 0 {
        assert(x.drop_last() =~= seq![a]);
        assert(x.last() == b);
        assert(joined(x.drop_last(), space) == a);
        assert(y =~= seq![a + space + b]);
    } else {
        merge_front(a, b, rest.drop_last());
        assert(x.drop_last() =~= seq![a, b] + rest.drop_last());
        assert(y.drop_last() =~= seq![a + space + b] + rest.drop_last());
    }
}

proof fn front_fits(a: Seq<char>, rest: Seq<Seq<char>>)
    ensures
        a.len() <= joined(seq![a] + rest, seq![' ']).len(),
    decreases rest.len(),
{
    let x = seq![a] + rest;
    if rest.len() == 0 {
        assert(x =~= seq![a]);
    } else {
        front_fits(a, rest.drop_last());
        assert(x.drop_last() =~= seq![a] + rest.drop_last());
    }
}

/// The time since a moment is what has passed, and none before it.
pub proof fn time_passes(now: u64, then: u64)
    ensures
        then <= now ==> elapsed(now, then) == now - then,
        now < then ==> elapsed(now, then) == 0,
{
}

/// The longest line is one of the lines, and none is longer.
pub proof fn longest_line_is_a_line(lines: Seq<Seq<char>>, i: int)
    requires
        0 <= i < lines.len(),
    ensures
        lines[i].len() <= longest_line(lines),
        exists|k: int| 0 <= k < lines.len() && (#[trigger] lines[k]).len() == longest_line(lines),
    decreases lines.len(),
{
    let init = lines.drop_last();
    let n = lines.len() - 1;
    assert(lines[n] == lines.last());
    if init.len() > 0 {
        let at = if i < n {
            i
        } else {
            0
        };
        longest_line_is_a_line(init, at);
        let k = choose|k: int|
            0 <= k < init.len() && (#[trigger] init[k]).len() == longest_line(init);
        assert(lines[k].len() == longest_line(init));
        assert(init[at] == lines[at]);
    } else {
        assert(longest_line(init) == 0);
    }
}

} // verus!
