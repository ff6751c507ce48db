//! The office scene: who stands where, and what floats above them.
pub mod flourish;
pub mod laws;
pub mod office;
pub mod room;
pub mod sprite;
pub mod thought_bubble;
