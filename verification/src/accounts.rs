//! The account aggregate: an event-sourced bank-account entity.

pub mod aggregate;
pub mod command;
pub mod error;
pub mod event;
