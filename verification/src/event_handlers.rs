//! The decision logic of the asynchronous event handlers: track-end chaining,
//! forced disconnects, inactivity detection, and stream errors.
//!
//! The transport fires these events on its own tasks; the unverified shell
//! resolves what the events carry into plain values, calls the functions
//! here under the registry lock, and performs whatever transport work the
//! returned value asks for.

pub mod disconnect_handler;
pub mod error_handler;
pub mod inactivity_handler;
pub mod queue_handler;

pub use disconnect_handler::handle_disconnect;
pub use error_handler::ErrorHandler;
pub use inactivity_handler::VoicePresence;
pub use inactivity_handler::should_leave;
pub use queue_handler::TrackEndAction;
pub use queue_handler::handle_track_end;
