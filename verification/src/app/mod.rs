//! The application: its state, and what each message does to it.
//!
//! A message changes the state and leaves effects for the desktop to carry
//! out: requests to the gateway, writes, notifications, redraws.
pub mod event_laws;
pub mod gateway;
pub mod keys;
pub mod laws;
pub mod model;
pub mod operator_laws;
pub mod page_laws;
pub mod prune;
pub mod state;
pub mod update;
pub mod view;

pub use state::{
    App, ChatActivity, ChatActivityState, Clock, ConnectionStatus, Effect, LaunchEnv, Message,
    NavItem, SettingsForm,
};
