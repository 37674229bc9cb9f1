//! The session registry: the concurrency-safe mapping from guild identifier
//! to playback state that every command and event handler goes through.
//!
//! The registry itself is the single piece of shared mutable state. The
//! unverified shell wraps one [`GuildRegistry`] in a process-wide
//! reader/writer lock and holds the write lock for the duration of each
//! operation, never across an unbounded external call; under that discipline
//! the operations below are the totally ordered state transitions of each
//! session.

use std::collections::HashMap;
use vstd::prelude::*;

use crate::models::guild_state::GuildState;
use crate::models::playback_state::PlaybackStateModel;
use crate::models::playback_state::model_inv;

verus! {

broadcast use vstd::std_specs::hash::group_hash_axioms;

/// The mapping from guild identifier to session bookkeeping. Absence of an
/// entry is a valid state meaning "no active session".
pub struct GuildRegistry {
    map: HashMap<u64, GuildState>,
}

impl View for GuildRegistry {
    type V = Map<u64, PlaybackStateModel>;

    closed spec fn view(&self) -> Map<u64, PlaybackStateModel> {
        Map::new(
            |g: u64| self.map@.dom().contains(g),
            |g: u64| self.map@[g].playback_state@,
        )
    }
}

impl GuildRegistry {
    /// Every registered session satisfies the playback-state invariant.
    pub open spec fn inv(self) -> bool {
        forall|g: u64| #[trigger] self@.dom().contains(g) ==> model_inv(self@[g])
    }

    /// An empty registry: no session has bookkeeping yet.
    pub fn new() -> (r: Self)
        ensures
            r.inv(),
            r@ == Map::<u64, PlaybackStateModel>::empty(),
    {
        let r = GuildRegistry { map: HashMap::new() };
        proof {
            assert(r@ =~= Map::<u64, PlaybackStateModel>::empty());
        }
        r
    }

    /// Whether a session currently has bookkeeping.
    pub fn has_session(&self, guild_id: u64) -> (r: bool)
        ensures
            r == self@.dom().contains(guild_id),
    {
        self.map.contains_key(&guild_id)
    }

    /// Take a session's bookkeeping out of the registry, to hand it back with
    /// [`Self::insert_entry`] after mutating it. Removing an absent entry is
    /// a no-op.
    pub fn remove_entry(&mut self, guild_id: u64) -> (r: Option<GuildState>)
        ensures
            final(self)@ == old(self)@.remove(guild_id),
            match r {
                Some(g) => old(self)@.dom().contains(guild_id) && g.playback_state@ == old(
                    self,
                )@[guild_id],
                None => !old(self)@.dom().contains(guild_id),
            },
    {
        let r = self.map.remove(&guild_id);
        proof {
            assert(final(self)@ =~= old(self)@.remove(guild_id));
        }
        r
    }

    /// Register a session's bookkeeping, replacing whatever was there.
    pub fn insert_entry(&mut self, guild_id: u64, state: GuildState)
        ensures
            final(self)@ == old(self)@.insert(guild_id, state.playback_state@),
    {
        self.map.insert(guild_id, state);
        proof {
            assert(final(self)@ =~= old(self)@.insert(guild_id, state.playback_state@));
        }
    }

    /// Borrow a session's bookkeeping for reading.
    pub fn get_entry(&self, guild_id: u64) -> (r: Option<&GuildState>)
        ensures
            match r {
                Some(g) => self@.dom().contains(guild_id) && g.playback_state@ == self@[guild_id],
                None => !self@.dom().contains(guild_id),
            },
    {
        self.map.get(&guild_id)
    }
}

} // verus!
