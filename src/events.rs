//! The events that cross between the interface and the session manager.
//!
//! Outbound events go from the interface to the manager, inbound events back;
//! the two directions travel on separate channels and never mix.
use vstd::prelude::*;

verus! {

/// Capacity of each of the two event channels.
pub const COMM_BUFFER_SIZE: usize = 512;

/// A chat message that arrived from the backend.
pub struct ReceivedMessage {
    pub author: String,
    pub content: String,
    pub channel_id: u64,
}

/// A server the account belongs to.
pub struct GuildSummary {
    pub id: u64,
    pub name: String,
}

/// One channel of a server.
pub struct ChannelSummary {
    pub id: u64,
    pub name: String,
    /// Whether the channel carries text messages.
    pub is_text: bool,
}

pub enum DiscordCommEvent {
    // interface -> manager
    Login(String),
    Logout,
    MessageSend(u64, String),
    GetGuilds,
    GetAvailableTextChannels(u64),
    // manager -> interface
    Ready,
    Error(String),
    MessageReceived(ReceivedMessage),
    GuildsListed(Vec<GuildSummary>),
    AvailableTextChannelsListed(Vec<ChannelSummary>),
}

impl DiscordCommEvent {
    /// An event that the interface sends to the manager.
    pub open spec fn is_outbound(&self) -> bool {
        ||| self is Login
        ||| self is Logout
        ||| self is MessageSend
        ||| self is GetGuilds
        ||| self is GetAvailableTextChannels
    }

    /// An event that the manager sends to the interface.
    pub open spec fn is_inbound(&self) -> bool {
        !self.is_outbound()
    }

    pub fn outbound(&self) -> (r: bool)
        ensures
            r == self.is_outbound(),
    {
        match self {
            DiscordCommEvent::Login(_) | DiscordCommEvent::Logout | DiscordCommEvent::MessageSend(
                _,
                _,
            ) | DiscordCommEvent::GetGuilds | DiscordCommEvent::GetAvailableTextChannels(_) => true,
            _ => false,
        }
    }
}

} // verus!
