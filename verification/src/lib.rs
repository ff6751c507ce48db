//! PeriClaw, a desktop companion to the OpenClaw gateway: everything that it
//! decides and computes.
//!
//! - [`app`]: the state of the application, and what each message does to it
//! - [`net`]: the gateway's messages, the session protocol, and the scripted
//!   streams that stand in for a gateway
//! - [`domain`]: agents, jobs, rooms, and their status
//! - [`scene`]: the plan of the office
//! - [`ui`]: what each tab shows
//! - [`config`], [`secret_store`], [`device_identity`], [`ui_state`]: what is
//!   kept between launches
//! - [`palette`], [`logs`], [`notifications`], [`transcript`], [`bubble_text`]:
//!   the rules behind single features
//! - [`json`], [`crypto`]: the calls into outside crates
//! - [`text`], [`calendar`], [`figures`], [`keyed`], [`ring`], [`seqs`]: texts,
//!   dates, numbers, and collections
//!
//! What holds of all of it, whatever comes in, is proved beside it: in
//! [`app::laws`], [`app::event_laws`], [`app::operator_laws`] and
//! [`app::page_laws`] of the application, in [`net::laws`],
//! [`net::handshake_laws`], [`net::event_laws`], [`net::response_laws`],
//! [`net::record_laws`] and [`net::demo_laws`] of the gateway, and in
//! [`ui::laws`], [`scene::laws`], [`palette_laws`], [`text_laws`] and
//! [`kept_laws`] of the rest.
//!
//! Windows, sockets, files, the keychain, and the clock stay outside: they hand
//! in plain values, and carry out what comes back.
pub mod app;
pub mod bubble_text;
pub mod calendar;
pub mod config;
pub mod crypto;
pub mod device_identity;
pub mod domain;
pub mod figures;
pub mod json;
pub mod kept_laws;
pub mod keyed;
pub mod logs;
pub mod net;
pub mod notifications;
pub mod palette;
pub mod palette_laws;
pub mod ring;
pub mod scene;
pub mod secret_store;
pub mod seqs;
pub mod text;
pub mod text_laws;
pub mod transcript;
pub mod ui;
pub mod ui_state;
