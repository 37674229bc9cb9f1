//! Pre-command checks on the author's and the bot's voice channels.
//!
//! The command surface resolves the channels from its cache and hands the
//! plain channel identifiers to these functions; they decide whether the
//! command may proceed and which refusal the user should see.

use vstd::prelude::*;

verus! {

/// Outcome of a voice-channel check, telling the caller which reply to render.
#[derive(PartialEq, Eq, Structural, Debug, Clone, Copy)]
pub enum VoiceCheck {
    /// The command may proceed.
    Allowed,
    /// The author is in a voice channel, but not the one the bot occupies.
    NotShared,
    /// The author is in no voice channel at all.
    NotInVoice,
}

/// A command that needs the author in a voice channel: allowed exactly when
/// the author has a voice state in the guild.
pub fn author_in_voice_channel(author_has_voice_state: bool) -> (r: VoiceCheck)
    ensures
        r == (if author_has_voice_state {
            VoiceCheck::Allowed
        } else {
            VoiceCheck::NotInVoice
        }),
{
    if author_has_voice_state {
        VoiceCheck::Allowed
    } else {
        VoiceCheck::NotInVoice
    }
}

/// What `author_in_shared_voice_channel` decides, as a spec-level table over
/// the author's and the bot's voice channels.
pub open spec fn spec_shared_voice_check(
    author_channel: Option<u64>,
    bot_channel: Option<u64>,
) -> VoiceCheck {
    match (author_channel, bot_channel) {
        (Some(a), Some(b)) => if a == b {
            VoiceCheck::Allowed
        } else {
            VoiceCheck::NotShared
        },
        (Some(_), None) => VoiceCheck::Allowed,
        (None, Some(_)) => VoiceCheck::NotShared,
        (None, None) => VoiceCheck::NotInVoice,
    }
}

/// A command that needs the author and the bot to share a voice channel:
/// allowed when both sit in the same channel, or when the bot is not yet in
/// any channel (it will join the author's).
pub fn author_in_shared_voice_channel(
    author_channel: Option<u64>,
    bot_channel: Option<u64>,
) -> (r: VoiceCheck)
    ensures
        r == spec_shared_voice_check(author_channel, bot_channel),
{
    match (author_channel, bot_channel) {
        (Some(a), Some(b)) => if a == b {
            VoiceCheck::Allowed
        } else {
            VoiceCheck::NotShared
        },
        (Some(_), None) => VoiceCheck::Allowed,
        (None, Some(_)) => VoiceCheck::NotShared,
        (None, None) => VoiceCheck::NotInVoice,
    }
}

} // verus!
