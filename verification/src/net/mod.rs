//! The gateway: its messages, the session protocol, and the streams that stand
//! in for it.
pub mod commands;
pub mod demo;
pub mod demo_laws;
pub mod event_laws;
pub mod events;
pub mod fields;
pub mod handshake;
pub mod handshake_laws;
pub mod laws;
pub mod mock;
pub mod openclaw;
pub mod openclaw_ssh;
pub mod payloads;
pub mod record_laws;
pub mod response_laws;
pub mod rpc;
