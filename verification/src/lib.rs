//! Client-side model of the TeamSpeak 3 plugin API: the ids, the cached
//! server, channel and connection data, the state changes that TeamSpeak
//! events cause, and the property descriptions from which the data structs
//! are generated.
use vstd::prelude::*;

pub mod ids;
pub mod model;
pub mod events;
pub mod plugin;
pub mod conversions;
pub mod codegen;
pub mod laws;
pub mod value_names;

pub use ids::{
    ChannelGroup, ChannelGroupId, ChannelId, ConnectStatus, ConnectionId, Error, MessageReceiver,
    Permission, PermissionId, Permissions, ServerGroup, ServerGroupId, ServerId, TalkStatus,
    TextMessageTargetMode, Visibility,
};

verus! {

} // verus!
