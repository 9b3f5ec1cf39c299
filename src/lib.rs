//! Turns a workflow-failure event into a chat card: a recipient call-out,
//! a marked-up header message and optional action buttons.

pub mod event;
pub mod render;
pub mod laws;
pub mod delivery;
pub mod json;
