//! Identifiers and small value types of the TeamSpeak API.
use vstd::prelude::*;

verus! {

/// A wrapper for a server id.
#[derive(Debug, PartialEq, Eq, PartialOrd, Ord, Clone, Copy, Hash, Structural)]
pub struct ServerId(pub u64);

/// A wrapper for a channel id.
#[derive(Debug, PartialEq, Eq, PartialOrd, Ord, Clone, Copy, Hash, Structural)]
pub struct ChannelId(pub u64);

/// A wrapper for a connection id.
#[derive(Debug, PartialEq, Eq, PartialOrd, Ord, Clone, Copy, Hash, Structural)]
pub struct ConnectionId(pub u16);

/// A wrapper for a permission id.
#[derive(Debug, PartialEq, Eq, PartialOrd, Ord, Clone, Copy, Hash, Structural)]
pub struct PermissionId(pub u32);

/// A wrapper for a server group id.
#[derive(Debug, PartialEq, Eq, PartialOrd, Ord, Clone, Copy, Hash, Structural)]
pub struct ServerGroupId(pub u64);

/// A wrapper for a channel group id.
#[derive(Debug, PartialEq, Eq, PartialOrd, Ord, Clone, Copy, Hash, Structural)]
pub struct ChannelGroupId(pub u64);

/// Permissions (carry no data yet).
#[derive(Debug, PartialEq, Eq, Clone, Copy, Structural)]
pub struct Permissions;

/// A permission (carries no data yet).
#[derive(Debug, Clone, Copy)]
pub struct Permission {}

/// A server group (carries no data yet).
#[derive(Debug, Clone, Copy)]
pub struct ServerGroup {}

/// A channel group (carries no data yet).
#[derive(Debug, Clone, Copy)]
pub struct ChannelGroup {}

/// A TeamSpeak error code. The code `0` means success, but the library also
/// uses it to mark data that is not available.
#[derive(Debug, PartialEq, Eq, Clone, Copy, Structural)]
pub struct Error(pub u32);

impl Error {
    /// The code that TeamSpeak returns on success.
    pub fn ok() -> (e: Error)
        ensures
            e.0 == 0,
    {
        Error(0)
    }

    /// Whether this code reports success.
    pub fn is_ok(&self) -> (b: bool)
        ensures
            b == (self.0 == 0),
    {
        self.0 == 0
    }
}

/// The possible receivers of a message. A message can be sent to a specific
/// connection, to the current channel chat or to the server chat.
#[derive(Debug, PartialEq, Eq, Clone, Copy, Structural)]
pub enum MessageReceiver {
    Connection(ConnectionId),
    Channel,
    Server,
}

/// How a connection's visibility changes when it moves.
#[derive(Debug, PartialEq, Eq, Clone, Copy, Structural)]
pub enum Visibility {
    /// The connection joined from an unsubscribed channel, or joined the server.
    Enter,
    /// The connection switched between two subscribed channels.
    Retain,
    /// The connection switched to an unsubscribed channel, or left the server.
    Leave,
}

/// The status of the connection to a server.
#[derive(Debug, PartialEq, Eq, Clone, Copy, Structural)]
pub enum ConnectStatus {
    Disconnected,
    Connecting,
    Connected,
    ConnectionEstablishing,
    ConnectionEstablished,
}

/// The target of a text message as TeamSpeak reports it.
#[derive(Debug, PartialEq, Eq, Clone, Copy, Structural)]
pub enum TextMessageTargetMode {
    Client,
    Channel,
    Server,
    Max,
}

/// Whether a connection is talking.
#[derive(Debug, PartialEq, Eq, Clone, Copy, Structural)]
pub enum TalkStatus {
    NotTalking,
    Talking,
    TalkingWhileDisabled,
}

} // verus!
