//! The bookkeeping an entry of the session registry holds for one guild.

use vstd::prelude::*;

use crate::models::playback_state::PlaybackState;
use crate::models::playback_state::idle_model;

verus! {

/// One guild's session bookkeeping.
#[derive(Debug)]
pub struct GuildState {
    pub playback_state: PlaybackState,
}

impl Default for GuildState {
    /// A fresh session: idle playback state.
    fn default() -> (r: Self)
        ensures
            r.playback_state.inv(),
            r.playback_state@ == idle_model(),
    {
        GuildState { playback_state: PlaybackState::default() }
    }
}

} // verus!
