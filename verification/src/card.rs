//! The card domain's commands, events and payloads.

pub mod command;
pub mod event;
pub mod payload;
