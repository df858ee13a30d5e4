//! Transport tuning, dataplane admission and mesh control rules of the ironet
//! overlay runtime.

pub mod autotune;
pub mod bytes;
pub mod config;
pub mod connection;
pub mod cpu;
pub mod dataplane;
pub mod digest;
pub mod fec;
pub mod grouping;
pub mod host_network;
pub mod identity;
pub mod json;
pub mod link;
pub mod mesh;
pub mod net;
pub mod num;
pub mod peers;
pub mod policy;
pub mod prefix;
pub mod product;
pub mod queue;
pub mod route_selection;
pub mod routes;
pub mod routing;
pub mod sort;
pub mod text;
pub mod time;
pub mod tuning;
