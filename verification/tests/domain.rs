//! Agents, jobs, rooms, and where entries go.
use periclaw::domain::agent::{hash_bytes, seed_roster, stable_index, Agent, AgentId, AgentKind, Tint};
use periclaw::domain::job::{shorten_for_display, Job, JobKind};
use periclaw::domain::room::{default_rooms, Room, MAIN_ROOM};
use periclaw::domain::room_assignment::{room_for, RoomId};
use periclaw::domain::status::AgentStatus;

fn id(s: &str) -> AgentId {
    AgentId::new(s)
}

#[test]
fn error_always_routes_to_security() {
    for kind in [AgentKind::Cron, AgentKind::Main, AgentKind::Channel] {
        assert_eq!(
            room_for(&id("anything"), kind, AgentStatus::Error),
            RoomId::Security
        );
    }
}

#[test]
fn main_lives_in_hq() {
    for status in [
        AgentStatus::Healthy,
        AgentStatus::Running,
        AgentStatus::Unknown,
        AgentStatus::Disabled,
    ] {
        assert_eq!(
            room_for(&id("main"), AgentKind::Main, status),
            RoomId::CommandHq
        );
    }
}

#[test]
fn running_crons_visit_command_hq() {
    let crons = [
        "zpool-health-check",
        "openclaw-auto-update",
        "example-data-sync-hourly",
        "example-weekly-digest",
    ];
    for name in crons {
        assert_eq!(
            room_for(&id(name), AgentKind::Cron, AgentStatus::Running),
            RoomId::CommandHq,
        );
    }
}

#[test]
fn idle_crons_go_home() {
    let cases = [
        ("zpool-health-check", RoomId::Observatory),
        ("openclaw-auto-update", RoomId::ResearchLab),
        ("example-data-sync-hourly", RoomId::MemoryVault),
        ("example-weekly-digest", RoomId::Studio),
    ];
    for (name, expected) in cases {
        assert_eq!(
            room_for(&id(name), AgentKind::Cron, AgentStatus::Healthy),
            expected,
        );
    }
}

#[test]
fn unknown_crons_go_to_the_lab() {
    assert_eq!(
        room_for(&id("someone-else"), AgentKind::Cron, AgentStatus::Unknown),
        RoomId::ResearchLab,
    );
}

#[test]
fn channels_live_in_studio_when_ok() {
    for name in ["slack", "telegram", "whatsapp"] {
        assert_eq!(
            room_for(&id(name), AgentKind::Channel, AgentStatus::Healthy),
            RoomId::Studio,
        );
    }
}

#[test]
fn disabled_channels_go_to_memory_vault() {
    assert_eq!(
        room_for(&id("whatsapp"), AgentKind::Channel, AgentStatus::Disabled),
        RoomId::MemoryVault,
    );
}

#[test]
fn default_rooms_have_stable_ids() {
    let rooms = default_rooms();
    let ids: Vec<&str> = rooms.iter().map(|r| r.id.as_str()).collect();
    assert_eq!(ids, vec!["command-deck", "galley", "engine-room"]);
}

#[test]
fn main_room_is_in_defaults() {
    let rooms = default_rooms();
    assert!(rooms.iter().any(|r| r.id == MAIN_ROOM));
}

#[test]
fn rooms_have_their_cells() {
    let cells: Vec<(u8, u8)> = [
        RoomId::Observatory,
        RoomId::CommandHq,
        RoomId::Security,
        RoomId::ResearchLab,
        RoomId::MemoryVault,
        RoomId::Studio,
    ]
    .iter()
    .map(|r| (r.col(), r.row()))
    .collect();
    assert_eq!(cells, vec![(0, 0), (1, 0), (2, 0), (0, 1), (1, 1), (2, 1)]);
    assert_eq!(RoomId::CommandHq.label(), "Command HQ");
    assert_eq!(RoomId::MemoryVault.label(), "Memory Vault");
}

#[test]
fn room_keeps_id_and_label() {
    let r = Room::new("attic", "Attic");
    assert_eq!((r.id.as_str(), r.label.as_str()), ("attic", "Attic"));
}

#[test]
fn seed_roster_is_main_alone() {
    let roster = seed_roster();
    assert_eq!(roster.len(), 1);
    assert_eq!(roster[0].id.as_str(), "main");
    assert_eq!(roster[0].display, "main");
    assert_eq!(roster[0].kind, AgentKind::Main);
}

#[test]
fn byte_hash_is_the_classic_one() {
    // 5381 * 33 + 97
    assert_eq!(hash_bytes(""), 5381);
    assert_eq!(hash_bytes("a"), 177_670);
    assert_eq!(stable_index("a", 4), 2);
    assert_eq!(stable_index("a", 0), 0);
    let mut h: u64 = 5381;
    for b in "openclaw-auto-update-é".bytes() {
        h = h.wrapping_mul(33).wrapping_add(b as u64);
    }
    assert_eq!(hash_bytes("openclaw-auto-update-é"), h);
}

#[test]
fn colors_follow_the_id() {
    assert_eq!(Agent::new("main", "Sebastian").color(), Tint::TerminalGreen);
    // 177670 is 2 modulo 4.
    assert_eq!(Agent::new("a", "a").color(), Tint::TerminalGreen);
    // 177671 is 3 modulo 4.
    assert_eq!(Agent::new("b", "b").color(), Tint::StatusUnknown);
    assert_eq!(Job::channel("slack").color(), Tint::Muted);
    assert_eq!(Job::cron("b").color(), Tint::StatusUnknown);
}

#[test]
fn cron_names_lose_one_prefix() {
    assert_eq!(shorten_for_display("teamapp-openclaw-x"), "openclaw-x");
    assert_eq!(shorten_for_display("openclaw-auto-update"), "auto-update");
    assert_eq!(shorten_for_display("zpool-health-check"), "zpool-health-check");
    let job = Job::cron("openclaw-auto-update");
    assert_eq!(job.display, "auto-update");
    assert_eq!(job.kind, JobKind::Cron);
    assert_eq!(job.status, AgentStatus::Unknown);
    assert_eq!(Agent::cron("openclaw-auto-update").display, "auto-update");
    assert_eq!(Agent::channel("slack").kind, AgentKind::Channel);
}
