//! A framework for exercising aggregate logic: given a history, when a
//! command, then inspect the produced events or error.

pub mod executor;
pub mod framework;
pub mod validator;
