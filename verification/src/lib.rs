//! Coordination core of a daemon that drives TP-Link Tapo smart lights: the
//! per-device session lifecycle with retry and backoff, the time-bounded
//! snapshot cache with optimistic updates, the property-change resolver, the
//! capability gating per device class, and the event fan-out decisions, all
//! stated in contracts and verified.
//!
//! Everything here is a pure function of state, request and clock: the caller
//! performs the device I/O and feeds the outcomes back in.

pub mod cache;
pub mod cli;
pub mod completions;
pub mod config;
pub mod coordinator;
pub mod device;
pub mod error;
pub mod events;
pub mod properties;
pub mod registry;
pub mod rpc;
pub mod session;
