//! The inactivity handler: when voice-channel membership changes, decide
//! whether the bot sits alone and should leave. Leaving then fires the
//! disconnect handler, which performs the actual cleanup; this decision never
//! mutates playback state.

use vstd::prelude::*;

verus! {

/// One member's voice presence, as the shell reads it from its cache: the
/// channel the member occupies (if any), and whether the member is a bot.
/// A member whose kind cannot be determined counts as a bot, so that it
/// never keeps a session alive on its own.
#[derive(Debug, Clone, Copy)]
pub struct VoicePresence {
    pub channel_id: Option<u64>,
    pub is_bot: bool,
}

/// How many of the given members are non-bot listeners sitting in `channel`.
pub open spec fn count_listeners(members: Seq<VoicePresence>, channel: u64) -> nat
    decreases members.len(),
{
    if members.len() == 0 {
        0
    } else {
        (if members.first().channel_id == Some(channel) && !members.first().is_bot {
            1 as nat
        } else {
            0 as nat
        }) + count_listeners(members.drop_first(), channel)
    }
}

/// Decide whether the bot should leave its voice channel: yes exactly when
/// the bot's channel is known and no non-bot listener remains in it. When the
/// channel cannot be resolved (a transient cache gap), the answer is no —
/// absence of information never forces a departure.
pub fn should_leave(bot_channel: Option<u64>, members: &Vec<VoicePresence>) -> (r: bool)
    ensures
        r == (bot_channel matches Some(c) && count_listeners(members@, c) == 0),
        bot_channel is None ==> r == false,
{
    match bot_channel {
        None => false,
        Some(c) => {
            let mut i: usize = 0;
            let mut listeners: usize = 0;
            while i < members.len()
                invariant
                    i <= members@.len(),
                    listeners == count_listeners(members@.take(i as int), c),
                    listeners <= i,
                decreases members@.len() - i,
            {
                proof {
                    lemma_count_listeners_take(members@, c, i as int);
                }
                let m = members[i];
                if !m.is_bot {
                    let in_channel = match m.channel_id {
                        Some(ch) => ch == c,
                        None => false,
                    };
                    if in_channel {
                        listeners = listeners + 1;
                    }
                }
                i = i + 1;
            }
            proof {
                assert(members@.take(members@.len() as int) =~= members@);
            }
            listeners == 0
        },
    }
}

/// Counting one more member adds one exactly when that member is a non-bot
/// listener in the channel.
proof fn lemma_count_listeners_take(members: Seq<VoicePresence>, channel: u64, i: int)
    requires
        0 <= i < members.len(),
    ensures
        count_listeners(members.take(i + 1), channel) == count_listeners(members.take(i), channel)
            + (if members[i].channel_id == Some(channel) && !members[i].is_bot {
            1 as nat
        } else {
            0 as nat
        }),
    decreases i,
{
    if i == 0 {
        assert(members.take(1).drop_first() =~= Seq::<VoicePresence>::empty());
        assert(members.take(0) =~= Seq::<VoicePresence>::empty());
    } else {
        lemma_count_listeners_take(members.drop_first(), channel, i - 1);
        assert(members.take(i + 1).drop_first() =~= members.drop_first().take(i));
        assert(members.take(i).drop_first() =~= members.drop_first().take(i - 1));
        assert(members.take(i + 1).first() == members.first());
        assert(members.take(i).first() == members.first());
        assert(members.drop_first()[i - 1] == members[i]);
    }
}

} // verus!
