//! Device polling for roasting hardware: typed configuration, the byte-level
//! protocols of the supported field devices, and the supervision of a periodic
//! polling session.
//!
//! The library never touches a port or a socket itself. Each driver is a small
//! state machine: it tells its caller which bytes to write and how many to
//! read, and is told what came back. Everything that is decided in between is
//! stated in contracts and proved.

pub mod config;
pub mod devices;
pub mod exchange;
pub mod reading;
pub mod scheduler;
pub mod text;
