//! The track-end chaining handler: when a stream ends, advance the queue and
//! tell the shell which track to start next, so the chain continues until the
//! queue is exhausted.

use vstd::prelude::*;

use crate::models::playback_state::idle_model;
use crate::models::playback_state::queue_advanced;
use crate::models::queue_element::flatten_queue;
use crate::models::video_metadata::VideoMetadata;
use crate::registry::GuildRegistry;

verus! {

/// What a track-end event decided.
#[derive(Debug)]
pub enum TrackEndAction {
    /// The session's entry was already removed (a disconnect won the race):
    /// nothing was touched, and that is success, not a fault.
    NoSession,
    /// The queue is exhausted: the session is idle and the chain stops.
    Finished,
    /// The next track: the shell must start a stream for its locator,
    /// re-register the track-end handler on the new stream, and attach the
    /// new handle token.
    Play(VideoMetadata),
}

/// React to a finished stream: advance the session's queue and report what
/// should happen next. Firing after the session's entry has been removed
/// performs no mutation and is no error.
pub fn handle_track_end(registry: &mut GuildRegistry, guild_id: u64) -> (r: TrackEndAction)
    requires
        old(registry).inv(),
    ensures
        final(registry).inv(),
        !old(registry)@.dom().contains(guild_id) ==> r is NoSession && final(registry)@ == old(
            registry,
        )@,
        old(registry)@.dom().contains(guild_id) && old(registry)@[guild_id].queue.len() == 0 ==> r
            is Finished && final(registry)@ == old(registry)@.insert(guild_id, idle_model()),
        old(registry)@.dom().contains(guild_id) && old(registry)@[guild_id].queue.len() > 0 ==> {
            &&& r matches TrackEndAction::Play(t)
                && t == flatten_queue(old(registry)@[guild_id].queue).first()
            &&& final(registry)@ == old(registry)@.insert(guild_id, final(registry)@[guild_id])
            &&& final(registry)@[guild_id].playing == true
            &&& final(registry)@[guild_id].current_track == Some(
                flatten_queue(old(registry)@[guild_id].queue).first(),
            )
            &&& final(registry)@[guild_id].track_handle is None
            &&& flatten_queue(final(registry)@[guild_id].queue) == flatten_queue(
                old(registry)@[guild_id].queue,
            ).drop_first()
            &&& queue_advanced(old(registry)@[guild_id].queue, final(registry)@[guild_id].queue)
        },
{
    match registry.remove_entry(guild_id) {
        None => {
            proof {
                assert(registry@ =~= old(registry)@);
            }
            TrackEndAction::NoSession
        },
        Some(mut state) => {
            state.playback_state.play_next();
            let track = match state.playback_state.get_current_track() {
                Some(t) => Some(t.clone()),
                None => None,
            };
            registry.insert_entry(guild_id, state);
            proof {
                assert(registry@ =~= old(registry)@.insert(guild_id, registry@[guild_id]));
                if old(registry)@[guild_id].queue.len() == 0 {
                    assert(registry@[guild_id] =~= idle_model());
                    assert(registry@ =~= old(registry)@.insert(guild_id, idle_model()));
                }
            }
            match track {
                Some(t) => TrackEndAction::Play(t),
                None => TrackEndAction::Finished,
            }
        },
    }
}

} // verus!
