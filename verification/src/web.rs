//! The ticket web service's model and error taxonomy: the parts with
//! decisions of their own, kept apart from any transport.

pub mod ctx;
pub mod error;
pub mod model;
