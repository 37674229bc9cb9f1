//! Plain values of the command surface.

use vstd::prelude::*;

verus! {

/// Which kind of resource a search command asks for. A search without a kind
/// asks for a track.
#[derive(Debug, Clone, Copy, PartialEq, Eq, Structural)]
pub enum ResourceType {
    Track,
    Playlist,
}

impl Default for ResourceType {
    /// The kind a search falls back to.
    fn default() -> (r: Self)
        ensures
            r == ResourceType::Track,
    {
        ResourceType::Track
    }
}

} // verus!
