//! The mesh: path-MTU constraints, trace correlation, presence, transit and
//! ingress dispatch.

pub mod ingress;
pub mod laws;
pub mod pmtu;
pub mod presence;
pub mod relay;
pub mod startup;
pub mod trace;
pub mod transit;
