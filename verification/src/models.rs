//! The data model: track and playlist metadata, queue elements, the playback
//! state machine, and per-session state.

pub mod gemini;
pub mod guild_state;
pub mod playback_state;
pub mod playlist_metadata;
pub mod queue_element;
pub mod video_metadata;
pub mod youtube;

pub use guild_state::GuildState;
pub use playback_state::PlaybackState;
pub use playlist_metadata::PlaylistMetadata;
pub use queue_element::QueueElement;
pub use video_metadata::VideoMetadata;
pub use youtube::YoutubeError;
pub use youtube::YoutubeMetadata;
