//! Policy actions and the host rules that bound them.

pub mod api;
pub mod guardrails;
pub mod laws;
pub mod transition;
