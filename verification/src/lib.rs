//! Core building blocks for event-sourced, message-driven services:
//! entities and metadata, messages and correlation policies, a handler
//! registry, an event-sourced aggregate runtime, a unit-of-work phase
//! machine, and a saga/compensating-task orchestrator.

pub mod accounts;
pub mod card;
pub mod correlation;
pub mod ddd;
pub mod fsm;
pub mod interceptor;
pub mod message;
pub mod saga;
pub mod tester;
pub mod transaction;
pub mod uow;
pub mod util;
pub mod web;
