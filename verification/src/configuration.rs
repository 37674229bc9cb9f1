//! The configuration values the process runs with. Reading them from the
//! secrets file is the shell's work; the library holds the values and hands
//! them out unchanged.

use vstd::prelude::*;

verus! {

/// The configuration values: the chat service's token, the metadata lookup
/// service's key, and the development guild to register commands in.
#[derive(Debug, Clone)]
pub struct ConfigurationVariables {
    discord_token: String,
    youtube_api_key: String,
    dev_guild_id: u64,
}

impl ConfigurationVariables {
    /// What the token reads as.
    pub closed spec fn spec_discord_token(&self) -> Seq<char> {
        self.discord_token@
    }

    /// What the key reads as.
    pub closed spec fn spec_youtube_api_key(&self) -> Seq<char> {
        self.youtube_api_key@
    }

    /// Which guild development commands are registered in.
    pub closed spec fn spec_dev_guild_id(&self) -> u64 {
        self.dev_guild_id
    }

    /// Hold the values read from the secrets file.
    pub fn new(discord_token: String, youtube_api_key: String, dev_guild_id: u64) -> (r: Self)
        ensures
            r.spec_discord_token() == discord_token@,
            r.spec_youtube_api_key() == youtube_api_key@,
            r.spec_dev_guild_id() == dev_guild_id,
    {
        ConfigurationVariables { discord_token, youtube_api_key, dev_guild_id }
    }

    pub fn discord_token(&self) -> (r: &str)
        ensures
            r@ == self.spec_discord_token(),
    {
        self.discord_token.as_str()
    }

    pub fn youtube_api_key(&self) -> (r: &str)
        ensures
            r@ == self.spec_youtube_api_key(),
    {
        self.youtube_api_key.as_str()
    }

    pub fn dev_guild_id(&self) -> (r: u64)
        ensures
            r == self.spec_dev_guild_id(),
    {
        self.dev_guild_id
    }
}

} // verus!
