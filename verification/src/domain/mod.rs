//! The things the operator watches: agents, jobs, rooms and their status.
pub mod agent;
pub mod job;
pub mod room;
pub mod room_assignment;
pub mod status;

pub use agent::{Agent, AgentId, AgentKind};
pub use job::{Job, JobId, JobKind};
pub use room::{default_rooms, Room, MAIN_ROOM};
pub use room_assignment::{room_for, RoomId};
pub use status::AgentStatus;
