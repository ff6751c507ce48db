//! What the window shows, as plain data: texts, tints, and where clicks lead.
pub mod agent_card;
pub mod agents_view;
pub mod approvals;
pub mod chat_bubble;
pub mod chat_input;
pub mod chat_view;
pub mod laws;
pub mod logs_view;
pub mod palette;
pub mod sessions_view;
pub mod settings_view;
pub mod sidebar;
pub mod sparkline;
pub mod status_bar;
pub mod widgets;
