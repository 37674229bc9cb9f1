//! The disconnect handler: when the transport reports a forced disconnect,
//! the session's bookkeeping is removed entirely.

use vstd::prelude::*;

use crate::registry::GuildRegistry;

verus! {

/// React to a forced disconnect: remove the session's entire registry entry.
/// Idempotent — if the entry is already gone (the track-end handler or an
/// earlier disconnect raced ahead), nothing changes and that is success.
/// Returns whether an entry was removed, so the shell releases the
/// transport's per-session resources exactly when there was a session.
pub fn handle_disconnect(registry: &mut GuildRegistry, guild_id: u64) -> (removed: bool)
    requires
        old(registry).inv(),
    ensures
        final(registry).inv(),
        removed == old(registry)@.dom().contains(guild_id),
        final(registry)@ == old(registry)@.remove(guild_id),
{
    match registry.remove_entry(guild_id) {
        Some(_) => true,
        None => false,
    }
}

} // verus!
