//! A crawler's core for monitoring Fediverse instances: a time-spread scheduler, a registry of
//! instances with their lifecycle state machine, the checker protocol that drives it, and the
//! rule that selects which instances get published.
pub mod domain;
pub mod http;
pub mod ipc;
pub mod lifecycle;
pub mod listing;
pub mod nodeinfo;
pub mod orchestrator;
pub mod protocol;
pub mod registry;
pub mod time;
