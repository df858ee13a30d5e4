//! Per-connection autotune state machines around the tuner.

pub mod capacity_probe;
pub mod controller;
pub mod diagnostics;
pub mod feedback;
pub mod force;
pub mod laws;
pub mod reload;
pub mod session;
pub mod tap;
pub mod window;
