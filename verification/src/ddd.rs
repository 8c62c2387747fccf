//! Domain-driven-design primitives: entities, metadata, and the
//! aggregate/event abstractions.

pub mod aggregate;
pub mod constants;
pub mod entity;
pub mod event;
pub mod metadata;
