//! Per-session media queue orchestrator.
//!
//! The library owns the truth of "what is playing, what is queued, and what
//! should happen next" for each independent session (a Discord guild). It
//! verifies the playback state machine, the session registry, the orchestrator
//! operations, and the decision logic of the asynchronous event handlers. The
//! command surface, the audio transport and all network I/O live outside the
//! library and hand it plain values.

pub mod actions;
pub mod checks;
pub mod commands;
pub mod configuration;
pub mod event_handlers;
pub mod models;
pub mod registry;
pub mod server;
