//! The transactional envelope around one message: a dispatch registry and
//! the unit-of-work phase machine.

pub mod registry;
pub mod unit_of_work;
