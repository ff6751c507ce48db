//! The office scene.
use periclaw::domain::agent::{Agent, AgentId};
use periclaw::domain::job::{Job, JobId};
use periclaw::domain::room::{default_rooms, Room, MAIN_ROOM};
use periclaw::domain::room_assignment::RoomId;
use periclaw::domain::status::AgentStatus;
use periclaw::keyed::{StrMap, StrSet};
use periclaw::scene::flourish::{Flourish, FLOURISH_LIFETIME_MS};
use periclaw::scene::office::{
    bobs, bubble_columns, bubble_display_lines, bubble_layout, gait, resolve_agent_room,
    resolve_job_room, should_render_power_up, wanders, OfficeScene,
};
use periclaw::scene::room::{grid_for, RoomLayout};
use periclaw::scene::sprite::{
    decor_for_room, lobster, monitor, painted_cells, scanline_row, sprite_for, Cell, Ink, Sprite,
};
use periclaw::scene::thought_bubble::{
    transition_text, BubbleKind, ThoughtBubble, FADE_SPAN_MS, TTL_MS,
};

#[test]
fn progress_crosses_zero_to_one() {
    let f = Flourish::spawn(JobId::new("zpool-health-check"), 5_000);
    // Just after spawn, progress is at its start.
    assert!((f.progress(5_001) as f64) / (FLOURISH_LIFETIME_MS as f64) < 0.05);
    // Long past lifetime, it stays at its end.
    let far_future = f.spawned + FLOURISH_LIFETIME_MS * 2;
    assert_eq!(f.progress(far_future), FLOURISH_LIFETIME_MS);
    assert!(f.expired(far_future));
    assert!(!f.expired(f.spawned + FLOURISH_LIFETIME_MS - 1));
}

#[test]
fn transition_error_always_anomaly() {
    assert_eq!(
        transition_text(Some(AgentStatus::Healthy), AgentStatus::Error),
        Some("anomaly!")
    );
    assert_eq!(
        transition_text(Some(AgentStatus::Running), AgentStatus::Error),
        Some("anomaly!")
    );
}

#[test]
fn same_status_produces_nothing() {
    assert_eq!(
        transition_text(Some(AgentStatus::Healthy), AgentStatus::Healthy),
        None
    );
}

#[test]
fn running_to_ok_is_eureka() {
    assert_eq!(
        transition_text(Some(AgentStatus::Running), AgentStatus::Healthy),
        Some("eureka!")
    );
}

#[test]
fn other_transitions_have_their_words() {
    assert_eq!(transition_text(None, AgentStatus::Unknown), None);
    assert_eq!(transition_text(None, AgentStatus::Healthy), Some("online"));
    assert_eq!(transition_text(Some(AgentStatus::Error), AgentStatus::Healthy), Some("recovered"));
    assert_eq!(transition_text(Some(AgentStatus::Healthy), AgentStatus::Running), Some("...working..."));
    assert_eq!(transition_text(Some(AgentStatus::Healthy), AgentStatus::Disabled), Some("zzz"));
    assert_eq!(transition_text(Some(AgentStatus::Disabled), AgentStatus::Healthy), Some("awake"));
    assert_eq!(transition_text(Some(AgentStatus::Healthy), AgentStatus::Unknown), Some("?"));
}

#[test]
fn alpha_full_then_fade_then_gone() {
    let bubble = ThoughtBubble::new(AgentId::new("x"), "hi", 10_000);
    let born = bubble.born;
    assert_eq!(bubble.alpha(born), Some(FADE_SPAN_MS));
    assert_eq!(bubble.alpha(born + 1499), Some(FADE_SPAN_MS));
    let mid = bubble.alpha(born + 1750).unwrap();
    assert!(mid > 0 && mid < FADE_SPAN_MS, "mid-fade alpha was {mid}");
    assert_eq!(mid, 250);
    assert_eq!(bubble.alpha(born + TTL_MS), None);
    assert!(bubble.expired(born + TTL_MS));
}

#[test]
fn bubbles_know_their_kind() {
    let id = AgentId::new("x");
    assert_eq!(ThoughtBubble::new(id.clone(), "a", 0).kind, BubbleKind::Work);
    assert_eq!(ThoughtBubble::message(id.clone(), "a".into(), 0).kind, BubbleKind::Message);
    assert_eq!(ThoughtBubble::outgoing(id.clone(), "a".into(), 0).kind, BubbleKind::Outgoing);
    assert_eq!(ThoughtBubble::tool(id, "a".into(), 0).kind, BubbleKind::Tool);
}

#[test]
fn job_room_override_is_used_when_room_exists() {
    let rooms = default_rooms();
    let job = Job::cron("demo-cron");
    let mut overrides = StrMap::new();
    overrides.insert(job.id.as_str().to_string(), "engine-room".to_string());

    assert_eq!(resolve_job_room(&job, &overrides, &rooms), "engine-room");
}

#[test]
fn job_room_falls_back_when_override_is_missing_or_stale() {
    let rooms = default_rooms();
    let job = Job::cron("demo-cron");
    assert_eq!(resolve_job_room(&job, &StrMap::new(), &rooms), MAIN_ROOM);

    let mut overrides = StrMap::new();
    overrides.insert(job.id.as_str().to_string(), "deleted-room".to_string());
    assert_eq!(resolve_job_room(&job, &overrides, &rooms), MAIN_ROOM);
}

#[test]
fn agents_stay_where_they_are_put() {
    let agent = Agent::new("a", "a");
    let mut overrides = StrMap::new();
    assert_eq!(resolve_agent_room(&agent, &overrides), MAIN_ROOM);
    overrides.insert("a".to_string(), "nowhere".to_string());
    assert_eq!(resolve_agent_room(&agent, &overrides), "nowhere");
}

#[test]
fn bubble_display_lines_compact_and_wrap() {
    assert_eq!(
        bubble_display_lines("one\n\n two   three", 80),
        vec!["one two three".to_string()]
    );
    assert_eq!(
        bubble_display_lines("alpha beta gamma delta", 12),
        vec!["alpha beta".to_string(), "gamma delta".to_string()]
    );
}

#[test]
fn long_words_have_a_line_of_their_own() {
    assert_eq!(
        bubble_display_lines("a incomprehensible b", 8),
        vec!["a".to_string(), "incomprehensible".to_string(), "b".to_string()]
    );
    assert_eq!(bubble_display_lines("  \n ", 8), vec![String::new()]);
    let layout = bubble_layout("alpha beta gamma delta", 12);
    assert_eq!((layout.lines.len(), layout.longest), (2, 11));
}

#[test]
fn bubble_columns_follow_the_width() {
    for width in [0.0f32, 30.0, 100.0, 200.5, 333.0, 536.0, 900.0, 4000.0] {
        let max_width = (width - 16.0).clamp(40.0, 520.0);
        let expected = ((max_width - 20.0) / 6.5).floor().max(8.0) as usize;
        assert_eq!(bubble_columns((width * 2.0).floor() as u32), expected, "{width}");
    }
}

#[test]
fn power_up_hides_when_agent_has_visible_bubble() {
    let agent = AgentId::new("sebastian");
    let mut running_rooms = StrSet::new();
    running_rooms.insert("main".to_string());
    let mut visible_bubble_agents = StrSet::new();
    visible_bubble_agents.insert("sebastian".to_string());

    assert!(!should_render_power_up(
        &agent,
        "main",
        &running_rooms,
        &visible_bubble_agents
    ));
}

#[test]
fn power_up_shows_for_silent_running_agent() {
    let agent = AgentId::new("sebastian");
    let mut running_rooms = StrSet::new();
    running_rooms.insert("main".to_string());

    assert!(should_render_power_up(
        &agent,
        "main",
        &running_rooms,
        &StrSet::new()
    ));
}

#[test]
fn grid_table_matches_spec() {
    assert_eq!(grid_for(1), (1, 1));
    assert_eq!(grid_for(2), (2, 1));
    assert_eq!(grid_for(3), (3, 1));
    assert_eq!(grid_for(4), (2, 2));
    assert_eq!(grid_for(5), (3, 2));
    assert_eq!(grid_for(6), (3, 2));
    assert_eq!(grid_for(7), (4, 2));
    assert_eq!(grid_for(8), (4, 2));
}

fn rooms(n: usize) -> Vec<Room> {
    (0..n)
        .map(|i| Room::new(&format!("r{i}"), &format!("Room {i}")))
        .collect()
}

#[test]
fn six_rooms_stand_three_by_two() {
    let rooms = rooms(6);
    let layout = RoomLayout::new(&rooms);
    assert_eq!(layout.shown(), 6);
    let cells: Vec<_> = (0..6).map(|i| layout.cell_of(i)).collect();
    assert_eq!(cells, vec![(0, 0), (1, 0), (2, 0), (0, 1), (1, 1), (2, 1)]);
}

#[test]
fn rooms_are_found_by_id_as_far_as_they_show() {
    let few = default_rooms();
    let layout = RoomLayout::new(&few);
    assert_eq!(layout.room_at("command-deck"), Some(0));
    assert_eq!(layout.room_at("engine-room"), Some(2));
    assert!(layout.room_at("does-not-exist").is_none());
    let many = rooms(10);
    let layout = RoomLayout::new(&many);
    assert_eq!(layout.shown(), 8);
    assert_eq!(layout.room_at("r7"), Some(7));
    assert_eq!(layout.room_at("r8"), None);
}

#[test]
fn sprites_of_a_room_take_four_slots() {
    let rooms = default_rooms();
    let layout = RoomLayout::new(&rooms);
    let slots: Vec<_> = (0..5).map(|i| layout.sprite_slot(i)).collect();
    assert_eq!(slots, vec![(0, 0), (1, 0), (0, 1), (1, 1), (0, 0)]);
}

#[test]
fn all_sprites_are_rectangular() {
    let mut sprites = vec![lobster(), monitor()];
    for room in [
        RoomId::Observatory,
        RoomId::CommandHq,
        RoomId::Security,
        RoomId::ResearchLab,
        RoomId::MemoryVault,
        RoomId::Studio,
    ] {
        sprites.push(decor_for_room(room).unwrap());
    }
    for sprite in &sprites {
        let w = sprite.width();
        let h = sprite.height();
        assert!(w > 0 && h > 0, "sprite has zero dimensions");
        for (f_idx, frame) in sprite.frames.iter().enumerate() {
            assert_eq!(frame.len(), h, "frame {f_idx} height mismatch");
            for (r_idx, row) in frame.iter().enumerate() {
                assert_eq!(
                    row.chars().count(),
                    w,
                    "frame {f_idx} row {r_idx} width mismatch: expected {w}, got {}",
                    row.chars().count(),
                );
            }
        }
    }
    assert_eq!((sprites[0].width(), sprites[0].height()), (14, 11));
    assert_eq!((sprites[1].width(), sprites[1].height()), (14, 13));
    assert_eq!((sprites[2].width(), sprites[2].height()), (8, 9));
}

#[test]
fn frame_phase_cycles_through_all_frames() {
    // At 2 Hz each frame lasts half a second.
    let lobster = lobster();
    assert_eq!(lobster.frame(0, 2_000), &lobster.frames[0]);
    assert_eq!(lobster.frame(250, 2_000), &lobster.frames[0]);
    assert_eq!(lobster.frame(500, 2_000), &lobster.frames[1]);
    assert_eq!(lobster.frame(1_000, 2_000), &lobster.frames[2]);
    assert_eq!(lobster.frame(1_500, 2_000), &lobster.frames[0]);
    // At a rate of 0 the first frame stays.
    assert_eq!(lobster.frame(10_000, 0), &lobster.frames[0]);
    assert_ne!(lobster.frames[0], lobster.frames[1]);
    assert_ne!(lobster.frames[1], lobster.frames[2]);
}

#[test]
fn channels_are_monitors() {
    let main = sprite_for(&Agent::new("main", "main"));
    let cron = sprite_for(&Agent::cron("sync"));
    let channel = sprite_for(&Agent::channel("slack"));
    assert_eq!(main.frames, lobster().frames);
    assert_eq!(cron.frames, lobster().frames);
    assert_eq!(channel.frames, monitor().frames);
}

#[test]
fn cells_are_painted_and_mirrored() {
    let rows = vec!["X.x".to_string(), " WK".to_string()];
    let cell = |row: usize, col: usize, ink: Ink| Cell { row, col, ink };
    assert_eq!(
        painted_cells(&rows, 3, false),
        vec![
            cell(0, 0, Ink::Primary),
            cell(0, 2, Ink::Dim),
            cell(1, 1, Ink::Light),
            cell(1, 2, Ink::Outline),
        ]
    );
    assert_eq!(
        painted_cells(&rows, 3, true),
        vec![
            cell(0, 2, Ink::Primary),
            cell(0, 0, Ink::Dim),
            cell(1, 1, Ink::Light),
            cell(1, 0, Ink::Outline),
        ]
    );
    let none = Sprite { frames: vec![] };
    assert_eq!((none.width(), none.height()), (0, 0));
}

#[test]
fn idle_sprites_wander_and_busy_ones_bob() {
    assert!(wanders(AgentStatus::Healthy) && wanders(AgentStatus::Unknown));
    assert!(!wanders(AgentStatus::Running) && !wanders(AgentStatus::Error));
    assert!(bobs(AgentStatus::Running) && !bobs(AgentStatus::Healthy));
    // The hash of "a" is 177670.
    let g = gait("a");
    assert_eq!((g.phase_x, g.phase_y, g.pace), (190, 181, 30));
}

#[test]
fn the_plan_puts_everyone_in_place() {
    let roster = vec![
        Agent::new("main", "main"),
        Agent::new("lost", "lost"),
        Agent::new("docs", "docs"),
        Agent::new("aux", "aux"),
    ];
    let mut jobs = StrMap::new();
    let mut job = Job::cron("sync");
    job.status = AgentStatus::Running;
    jobs.insert("sync".to_string(), job);
    let mut statuses = StrMap::new();
    statuses.insert("docs".to_string(), AgentStatus::Error);
    let rooms = default_rooms();
    let mut agent_rooms = StrMap::new();
    agent_rooms.insert("lost".to_string(), "attic".to_string());
    agent_rooms.insert("aux".to_string(), "galley".to_string());
    let job_rooms = StrMap::new();
    let bubbles = vec![
        ThoughtBubble::message(AgentId::new("docs"), "old".into(), 0),
        ThoughtBubble::message(AgentId::new("docs"), "first".into(), 9_000),
        ThoughtBubble::tool(AgentId::new("lost"), "unseen".into(), 9_500),
        ThoughtBubble::tool(AgentId::new("docs"), "second".into(), 9_600),
    ];
    let mut transition_moments = StrMap::new();
    transition_moments.insert("docs".to_string(), 9_900);
    let scene = OfficeScene {
        roster: &roster,
        jobs: &jobs,
        statuses: &statuses,
        rooms: &rooms,
        agent_rooms: &agent_rooms,
        job_rooms: &job_rooms,
        bubbles: &bubbles,
        transition_moments: &transition_moments,
    };
    let plan = scene.draw(10_000);
    let placed: Vec<(&str, usize, usize, bool)> = plan
        .agents
        .iter()
        .map(|a| (a.agent.id.as_str(), a.room, a.slot, a.working))
        .collect();
    assert_eq!(
        placed,
        vec![
            ("main", 0, 0, true),
            ("docs", 0, 1, false),
            ("aux", 1, 0, false),
        ]
    );
    assert_eq!(plan.agents[1].status, AgentStatus::Error);
    assert_eq!(plan.agents[1].flash, 500);
    assert_eq!(plan.agents[0].flash, 0);
    let floating: Vec<(&str, usize, usize, u64)> = plan
        .bubbles
        .iter()
        .map(|b| (b.text.as_str(), b.anchor, b.depth, b.alpha))
        .collect();
    assert_eq!(floating, vec![("second", 1, 0, 500), ("first", 1, 1, 500)]);
}

#[test]
fn scanlines_run_down_the_screen() {
    let rows: Vec<_> = [0, 499, 500, 1_000, 2_499, 2_500]
        .iter()
        .map(|ms| scanline_row(*ms, 3, 8))
        .collect();
    assert_eq!(
        rows,
        vec![Some(3), Some(3), Some(4), Some(5), Some(7), Some(3)]
    );
    assert_eq!(scanline_row(1, 3, 3), None);
}
