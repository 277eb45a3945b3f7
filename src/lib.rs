//! Playback-queue coordination: per-session queues of tracks (history,
//! current, upcoming), a registry of queues keyed by id, and the dispatch
//! of client commands onto them.

pub mod error;
pub mod song;
pub mod queue;
pub mod registry;
pub mod command;
pub mod session;
