//! A pointer to one posted announcement message that mirrors a roster.
use vstd::prelude::*;

verus! {

/// The community, channel and message of one announcement.
#[derive(Clone, Copy, PartialEq, Eq, Structural, Debug)]
pub struct WarMessage {
    guild_id: u64,
    channel_id: u64,
    message_id: u64,
}

impl WarMessage {
    /// The community id.
    pub closed spec fn spec_guild_id(self) -> u64 {
        self.guild_id
    }

    /// The channel id.
    pub closed spec fn spec_channel_id(self) -> u64 {
        self.channel_id
    }

    /// The message id.
    pub closed spec fn spec_message_id(self) -> u64 {
        self.message_id
    }

    /// The pointer with the given ids.
    pub closed spec fn new_spec(guild_id: u64, channel_id: u64, message_id: u64) -> WarMessage {
        WarMessage { guild_id, channel_id, message_id }
    }

    /// The pointer to message `message_id` in `channel_id` of `guild_id`.
    pub fn new(guild_id: u64, channel_id: u64, message_id: u64) -> (r: Self)
        ensures
            r == Self::new_spec(guild_id, channel_id, message_id),
            r.spec_guild_id() == guild_id,
            r.spec_channel_id() == channel_id,
            r.spec_message_id() == message_id,
    {
        WarMessage { guild_id, channel_id, message_id }
    }

    /// The community id.
    pub fn get_guild_id(&self) -> (r: u64)
        ensures
            r == self.spec_guild_id(),
    {
        self.guild_id
    }

    /// The channel id.
    pub fn get_channel_id(&self) -> (r: u64)
        ensures
            r == self.spec_channel_id(),
    {
        self.channel_id
    }

    /// The message id.
    pub fn get_message_id(&self) -> (r: u64)
        ensures
            r == self.spec_message_id(),
    {
        self.message_id
    }
}

/// Two announcement pointers are equal exactly when their three ids are.
pub proof fn lemma_war_message_eq(a: WarMessage, b: WarMessage)
    ensures
        WarMessage::new_spec(a.spec_guild_id(), a.spec_channel_id(), a.spec_message_id()) == a,
        a == b <==> (a.spec_guild_id() == b.spec_guild_id() && a.spec_channel_id()
            == b.spec_channel_id() && a.spec_message_id() == b.spec_message_id()),
{
}

} // verus!
