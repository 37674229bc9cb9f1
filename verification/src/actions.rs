//! The orchestrator operations: enqueue, start playback, stop, skip, and the
//! read-only queries the commands render from.
//!
//! Each operation acquires one session's bookkeeping from the registry,
//! mutates it, and puts it back; what the external transport must then do
//! (start, stop, pause or resume a stream) is returned as a plain value for
//! the unverified shell to carry out, never performed while the registry is
//! held.

use vstd::prelude::*;

use crate::models::guild_state::GuildState;
use crate::models::playback_state::PlaybackStateModel;
use crate::models::playback_state::idle_model;
use crate::models::playback_state::queue_advanced;
use crate::models::playback_state::queue_view;
use crate::models::playback_state::spec_enqueue;
use crate::models::queue_element::QueueElement;
use crate::models::queue_element::expand;
use crate::models::queue_element::flatten_queue;
use crate::models::video_metadata::VideoMetadata;
use crate::registry::GuildRegistry;

verus! {

/// The session's abstract state, or the fresh idle state where the registry
/// has no entry yet.
pub open spec fn state_or_idle(
    m: Map<u64, PlaybackStateModel>,
    guild_id: u64,
) -> PlaybackStateModel {
    if m.dom().contains(guild_id) {
        m[guild_id]
    } else {
        idle_model()
    }
}

/// Append an element to a session's queue, creating the session's
/// bookkeeping if it has none yet. Returns whether the session was already
/// playing, which decides the reply the user sees.
pub fn add_element_to_queue(
    registry: &mut GuildRegistry,
    guild_id: u64,
    element: QueueElement,
) -> (was_playing: bool)
    requires
        old(registry).inv(),
        flatten_queue(state_or_idle(old(registry)@, guild_id).queue).len() + expand(
            element@,
        ).len() <= usize::MAX,
    ensures
        final(registry).inv(),
        was_playing == state_or_idle(old(registry)@, guild_id).playing,
        final(registry)@ == old(registry)@.insert(
            guild_id,
            (PlaybackStateModel {
                queue: spec_enqueue(state_or_idle(old(registry)@, guild_id).queue, element@),
                ..state_or_idle(old(registry)@, guild_id)
            }),
        ),
{
    let mut state = match registry.remove_entry(guild_id) {
        Some(g) => g,
        None => GuildState::default(),
    };
    let was_playing = state.playback_state.is_playing();
    state.playback_state.enqueue(element);
    registry.insert_entry(guild_id, state);
    proof {
        assert(registry@ =~= old(registry)@.insert(
            guild_id,
            (PlaybackStateModel {
                queue: spec_enqueue(state_or_idle(old(registry)@, guild_id).queue, element@),
                ..state_or_idle(old(registry)@, guild_id)
            }),
        ));
    }
    was_playing
}

/// What starting playback decided.
#[derive(Debug)]
pub enum StartPlayback {
    /// The session has no bookkeeping: nothing to play (an internal
    /// consistency signal, not a fault).
    MissingSession,
    /// A track is already playing; starting again would double the audio, so
    /// nothing changes.
    AlreadyPlaying,
    /// Nothing was queued; the session is idle.
    QueueEmpty,
    /// Playback advanced to this track: the shell must start a stream for its
    /// locator and attach the new handle token.
    Started(VideoMetadata),
}

/// Begin playback for a session unless it is already playing: advance the
/// queue into `current_track` and tell the shell which track to start.
pub fn start_queue_playback(registry: &mut GuildRegistry, guild_id: u64) -> (r: StartPlayback)
    requires
        old(registry).inv(),
    ensures
        final(registry).inv(),
        !old(registry)@.dom().contains(guild_id) ==> r is MissingSession && final(registry)@ == old(
            registry,
        )@,
        old(registry)@.dom().contains(guild_id) && old(registry)@[guild_id].playing ==> r
            is AlreadyPlaying && final(registry)@ == old(registry)@,
        old(registry)@.dom().contains(guild_id) && !old(registry)@[guild_id].playing && old(
            registry,
        )@[guild_id].queue.len() == 0 ==> r is QueueEmpty && final(registry)@ == old(
            registry,
        )@.insert(guild_id, idle_model()),
        old(registry)@.dom().contains(guild_id) && !old(registry)@[guild_id].playing && old(
            registry,
        )@[guild_id].queue.len() > 0 ==> {
            &&& r matches StartPlayback::Started(t)
                && t == flatten_queue(old(registry)@[guild_id].queue).first()
            &&& final(registry)@ == old(registry)@.insert(guild_id, final(registry)@[guild_id])
            &&& final(registry)@[guild_id].playing == true
            &&& final(registry)@[guild_id].current_track == Some(
                flatten_queue(old(registry)@[guild_id].queue).first(),
            )
            &&& final(registry)@[guild_id].track_handle is None
            &&& flatten_queue(final(registry)@[guild_id].queue) == flatten_queue(
                old(registry)@[guild_id].queue,
            ).drop_first()
            &&& queue_advanced(old(registry)@[guild_id].queue, final(registry)@[guild_id].queue)
        },
{
    match registry.remove_entry(guild_id) {
        None => {
            proof {
                assert(registry@ =~= old(registry)@);
            }
            StartPlayback::MissingSession
        },
        Some(mut state) => {
            if state.playback_state.is_playing() {
                registry.insert_entry(guild_id, state);
                proof {
                    assert(registry@ =~= old(registry)@);
                }
                StartPlayback::AlreadyPlaying
            } else {
                state.playback_state.play_next();
                let track = match state.playback_state.get_current_track() {
                    Some(t) => Some(t.clone()),
                    None => None,
                };
                registry.insert_entry(guild_id, state);
                proof {
                    assert(registry@ =~= old(registry)@.insert(guild_id, registry@[guild_id]));
                    if old(registry)@[guild_id].queue.len() == 0 {
                        assert(registry@[guild_id] =~= idle_model());
                        assert(registry@ =~= old(registry)@.insert(guild_id, idle_model()));
                    }
                }
                match track {
                    Some(t) => StartPlayback::Started(t),
                    None => StartPlayback::QueueEmpty,
                }
            }
        },
    }
}

/// Store the stream-handle token of a freshly started stream into the
/// session's bookkeeping. If the session's entry is gone (a disconnect won
/// the race), nothing is stored and the shell must release the stream.
pub fn attach_stream_handle(registry: &mut GuildRegistry, guild_id: u64, handle: u64) -> (attached:
    bool)
    requires
        old(registry).inv(),
    ensures
        final(registry).inv(),
        attached == old(registry)@.dom().contains(guild_id),
        !old(registry)@.dom().contains(guild_id) ==> final(registry)@ == old(registry)@,
        old(registry)@.dom().contains(guild_id) ==> final(registry)@ == old(registry)@.insert(
            guild_id,
            (PlaybackStateModel { track_handle: Some(handle), ..old(registry)@[guild_id] }),
        ),
{
    match registry.remove_entry(guild_id) {
        None => {
            proof {
                assert(registry@ =~= old(registry)@);
            }
            false
        },
        Some(mut state) => {
            state.playback_state.set_track_handle(Some(handle));
            registry.insert_entry(guild_id, state);
            proof {
                assert(registry@ =~= old(registry)@.insert(
                    guild_id,
                    (PlaybackStateModel { track_handle: Some(handle), ..old(registry)@[guild_id] }),
                ));
            }
            true
        },
    }
}

/// Halt a session: reset its bookkeeping to idle with an empty queue.
/// Returns whether the session had bookkeeping, so the shell knows whether a
/// stream may need stopping. Safe to call with no entry.
pub fn stop(registry: &mut GuildRegistry, guild_id: u64) -> (had_session: bool)
    requires
        old(registry).inv(),
    ensures
        final(registry).inv(),
        had_session == old(registry)@.dom().contains(guild_id),
        !old(registry)@.dom().contains(guild_id) ==> final(registry)@ == old(registry)@,
        old(registry)@.dom().contains(guild_id) ==> final(registry)@ == old(registry)@.insert(
            guild_id,
            idle_model(),
        ),
{
    match registry.remove_entry(guild_id) {
        None => {
            proof {
                assert(registry@ =~= old(registry)@);
            }
            false
        },
        Some(mut state) => {
            state.playback_state.reset();
            registry.insert_entry(guild_id, state);
            proof {
                assert(registry@[guild_id] =~= idle_model());
                assert(registry@ =~= old(registry)@.insert(guild_id, idle_model()));
            }
            true
        },
    }
}

/// The track now streaming and its handle token, if the session has both.
/// Pause and resume act on exactly this pair: they touch only the external
/// stream, never the queue or the current track.
pub fn current_track_and_handle(registry: &GuildRegistry, guild_id: u64) -> (r: Option<
    (VideoMetadata, u64),
>)
    ensures
        match r {
            Some((t, h)) => {
                &&& registry@.dom().contains(guild_id)
                &&& registry@[guild_id].current_track == Some(t)
                &&& registry@[guild_id].track_handle == Some(h)
            },
            None => {
                ||| !registry@.dom().contains(guild_id)
                ||| registry@[guild_id].current_track is None
                ||| registry@[guild_id].track_handle is None
            },
        },
{
    match registry.get_entry(guild_id) {
        None => None,
        Some(state) => {
            let handle = state.playback_state.get_track_handle();
            match (state.playback_state.get_current_track(), handle) {
                (Some(t), Some(h)) => Some((t.clone(), h)),
                _ => None,
            }
        },
    }
}

/// What a skip decided.
#[derive(Debug)]
pub enum SkipOutcome {
    /// The session has no bookkeeping: nothing to skip.
    MissingSession,
    /// No stream handle is attached, so nothing is playing to skip past.
    NothingPlaying,
    /// Tracks were skipped: the shell must stop the stream behind `handle`
    /// (the track-end chain then starts whatever is now at the queue front)
    /// and report the outcome.
    Skipped {
        /// How many tracks were skipped: the one playing, plus every queued
        /// track discarded. Never more than was asked, and fewer only when
        /// the queue ran out.
        skipped: usize,
        /// The element now at the queue front, if any: what plays next.
        next: Option<QueueElement>,
        /// How many tracks remain queued after the skip.
        remaining_tracks: usize,
        /// The handle token of the stream to stop.
        handle: u64,
    },
}

/// Skip `n` tracks: the one playing, plus `n - 1` discarded from the queue
/// front by the same popping rule as an advance. Degrades gracefully: when
/// `n` exceeds what remains, the queue is exhausted and the true number
/// skipped is reported, never an error.
pub fn skip(registry: &mut GuildRegistry, guild_id: u64, n: usize) -> (r: SkipOutcome)
    requires
        old(registry).inv(),
        n >= 1,
    ensures
        final(registry).inv(),
        !old(registry)@.dom().contains(guild_id) ==> r is MissingSession && final(registry)@ == old(
            registry,
        )@,
        old(registry)@.dom().contains(guild_id) ==> match old(registry)@[guild_id].track_handle {
            None => r is NothingPlaying && final(registry)@ == old(registry)@,
            Some(h) => {
                let discarded = if n - 1 <= flatten_queue(old(registry)@[guild_id].queue).len() {
                    n - 1
                } else {
                    flatten_queue(old(registry)@[guild_id].queue).len() as int
                };
                &&& r matches SkipOutcome::Skipped { skipped, next, remaining_tracks, handle } && {
                    &&& handle == h
                    &&& skipped == 1 + discarded
                    &&& final(registry)@ == old(registry)@.insert(
                        guild_id,
                        final(registry)@[guild_id],
                    )
                    &&& final(registry)@[guild_id] == (PlaybackStateModel {
                        queue: final(registry)@[guild_id].queue,
                        ..old(registry)@[guild_id]
                    })
                    &&& flatten_queue(final(registry)@[guild_id].queue) == flatten_queue(
                        old(registry)@[guild_id].queue,
                    ).skip(discarded)
                    &&& (next matches Some(e) ==> final(registry)@[guild_id].queue.len() > 0 && e@
                        == final(registry)@[guild_id].queue.first())
                    &&& (next is None ==> final(registry)@[guild_id].queue.len() == 0)
                    &&& remaining_tracks == flatten_queue(final(registry)@[guild_id].queue).len()
                }
            },
        },
{
    match registry.remove_entry(guild_id) {
        None => {
            proof {
                assert(registry@ =~= old(registry)@);
            }
            SkipOutcome::MissingSession
        },
        Some(mut state) => {
            match state.playback_state.get_track_handle() {
                None => {
                    registry.insert_entry(guild_id, state);
                    proof {
                        assert(registry@ =~= old(registry)@);
                    }
                    SkipOutcome::NothingPlaying
                },
                Some(handle) => {
                    let discarded = state.playback_state.discard_tracks(n - 1);
                    let skipped = 1 + discarded;
                    let next = match state.playback_state.next() {
                        Some(e) => Some(e.clone()),
                        None => None,
                    };
                    let remaining_tracks = state.playback_state.number_of_tracks_queued();
                    proof {
                        if state.playback_state@.queue.len() == 0 {
                            assert(flatten_queue(state.playback_state@.queue).len() == 0);
                        } else {
                            crate::models::queue_element::lemma_flatten_queue_first(
                                state.playback_state@.queue,
                            );
                        }
                    }
                    registry.insert_entry(guild_id, state);
                    proof {
                        assert(registry@ =~= old(registry)@.insert(
                            guild_id,
                            registry@[guild_id],
                        ));
                        assert(registry@[guild_id] =~= (PlaybackStateModel {
                            queue: registry@[guild_id].queue,
                            ..old(registry)@[guild_id]
                        }));
                    }
                    SkipOutcome::Skipped { skipped, next, remaining_tracks, handle }
                },
            }
        },
    }
}

/// One consistent snapshot of a session's queue, taken under a single
/// registry access: the upcoming elements, and the track and item counts.
#[derive(Debug)]
pub struct QueueSnapshot {
    /// Up to the asked-for number of upcoming queue elements, front first.
    pub next_items: Vec<QueueElement>,
    /// Total tracks the queue stands for, playlists expanded.
    pub n_tracks: usize,
    /// Total top-level queue elements.
    pub n_items: usize,
}

/// Read a session's queue for display: up to `k` upcoming elements and both
/// counts, all from one snapshot. `None` when the session has no bookkeeping.
pub fn show_queue(registry: &GuildRegistry, guild_id: u64, k: usize) -> (r: Option<QueueSnapshot>)
    requires
        registry.inv(),
    ensures
        match r {
            Some(s) => {
                &&& registry@.dom().contains(guild_id)
                &&& queue_view(s.next_items@) == registry@[guild_id].queue.take(
                    if k <= registry@[guild_id].queue.len() {
                        k as int
                    } else {
                        registry@[guild_id].queue.len() as int
                    },
                )
                &&& s.n_tracks == flatten_queue(registry@[guild_id].queue).len()
                &&& s.n_items == registry@[guild_id].queue.len()
            },
            None => !registry@.dom().contains(guild_id),
        },
{
    match registry.get_entry(guild_id) {
        None => None,
        Some(state) => {
            let next_items = state.playback_state.next_items_queued(k);
            let n_tracks = state.playback_state.number_of_tracks_queued();
            let n_items = state.playback_state.number_of_items_queued();
            Some(QueueSnapshot { next_items, n_tracks, n_items })
        },
    }
}

} // verus!
