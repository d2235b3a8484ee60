//! Supervision of one long-lived backend process.
//!
//! The library decides; the host performs. Spawning, polling and signalling
//! a process are left to the caller, who hands their outcomes back as plain
//! values. Every decision about what the supervisor holds, which candidate
//! executable comes next and what each operation reports is verified here.
pub mod app_info;
pub mod launch;
pub mod laws;
pub mod messages;
pub mod supervisor;
