//! The interface that a plugin implements.
use vstd::prelude::*;

use crate::ids::{
    ChannelGroupId, ChannelId, ConnectStatus, ConnectionId, Error, MessageReceiver, PermissionId,
    ServerGroupId, ServerId, TalkStatus, Visibility,
};
use crate::model::{ChannelData, ConnectionData, InvokerData, TsApi};
use ts3plugin_sys::public_definitions::Speaker;

verus! {

/// The speaker positions that sound callbacks are given, as TeamSpeak
/// defines them.
#[verifier::external_type_specification]
#[verifier::external_body]
pub struct ExSpeaker(Speaker);

/// Why the initialisation of a plugin failed.
#[derive(Debug, PartialEq, Eq, Clone, Copy, Structural)]
pub enum InitError {
    /// Initialisation failed, the plugin will be unloaded again
    Failure,
    /// Like `Failure`, but the client will not show a "failed to load" warning.
    /// This is a very special case and should only be used if a plugin displays
    /// a dialog (e.g. overlay) asking the user to disable the plugin again,
    /// avoiding the show another dialog by the client telling the user the
    /// plugin failed to load.
    /// For normal case, if a plugin really failed to load because of an error,
    /// the correct return value is `Failure`.
    FailureNoMessage,
}

/// The code that `ts3plugin_init` returns for the outcome of the
/// initialisation: 0 on success, 1 on failure and -2 on a failure that the
/// client should not report.
pub fn init_result_code(result: Result<(), InitError>) -> (r: i32)
    ensures
        r == match result {
            Ok(()) => 0i32,
            Err(InitError::Failure) => 1i32,
            Err(InitError::FailureNoMessage) => -2i32,
        },
{
    match result {
        Ok(()) => 0,
        Err(InitError::Failure) => 1,
        Err(InitError::FailureNoMessage) => -2,
    }
}

/// The trait that has to be implemented by a plugin. The event callbacks do
/// nothing by default; the ones that return a `bool` return `false`, which
/// lets TeamSpeak handle the event normally.
#[allow(unused_variables)]
pub trait Plugin {
    // ************************** Required functions ***************************
    /// Called when the plugin is loaded by TeamSpeak.
    fn new(api: &mut TsApi) -> Result<Box<Self>, InitError> where Self: Sized;

    /// If the connection status changes.
    /// If `status = ConnectStatus::Connecting`, the server is not yet
    /// registered in the `TsApi`.
    fn connect_status_change(&mut self, api: &mut TsApi, server_id: ServerId, status: ConnectStatus, error: Error) {
    }

    fn server_stop(&mut self, api: &mut TsApi, server_id: ServerId, message: String) {
    }

    /// Return `false` if the TeamSpeak client should handle the error normally or
    /// `true` if the client should ignore the error.
    fn server_error(
        &mut self,
        api: &mut TsApi,
        server_id: ServerId,
        error: Error,
        message: String,
        return_code: String,
        extra_message: String,
    ) -> (handled: bool)
        default_ensures
            !handled,
    {
        false
    }

    fn server_edited(&mut self, api: &mut TsApi, server_id: ServerId, invoker: Option<InvokerData>) {
    }

    fn server_connection_info(&mut self, api: &mut TsApi, server_id: ServerId) {
    }

    fn connection_info(&mut self, api: &mut TsApi, server_id: ServerId, connection_id: ConnectionId) {
    }

    fn connection_updated(
        &mut self,
        api: &mut TsApi,
        server_id: ServerId,
        connection_id: ConnectionId,
        old_connection: Option<ConnectionData>,
        invoker: InvokerData,
    ) {
    }

    /// If the plugin was informed about a new connection. If appeared is true, the connection
    /// was previously not known to the plugin, if appeared is false, the connection left
    /// the view of connection.
    fn connection_announced(
        &mut self,
        api: &mut TsApi,
        server_id: ServerId,
        connection_id: ConnectionId,
        appeared: bool,
    ) {
    }

    /// Called, if a connection connects to the server. This is also called for our own
    /// connection.
    fn connection_changed(
        &mut self,
        api: &mut TsApi,
        server_id: ServerId,
        connection_id: ConnectionId,
        connected: bool,
        message: String,
    ) {
    }

    fn connection_move(
        &mut self,
        api: &mut TsApi,
        server_id: ServerId,
        connection_id: ConnectionId,
        old_channel_id: ChannelId,
        new_channel_id: ChannelId,
        visibility: Visibility,
    ) {
    }

    fn connection_moved(
        &mut self,
        api: &mut TsApi,
        server_id: ServerId,
        connection_id: ConnectionId,
        old_channel_id: ChannelId,
        new_channel_id: ChannelId,
        visibility: Visibility,
        invoker: InvokerData,
    ) {
    }

    fn connection_timeout(&mut self, api: &mut TsApi, server_id: ServerId, connection_id: ConnectionId) {
    }

    fn channel_announced(&mut self, api: &mut TsApi, server_id: ServerId, channel_id: ChannelId) {
    }

    fn channel_description_updated(&mut self, api: &mut TsApi, server_id: ServerId, channel_id: ChannelId) {
    }

    fn channel_updated(
        &mut self,
        api: &mut TsApi,
        server_id: ServerId,
        channel_id: ChannelId,
        old_channel: Option<ChannelData>,
    ) {
    }

    fn channel_created(
        &mut self,
        api: &mut TsApi,
        server_id: ServerId,
        channel_id: ChannelId,
        invoker: Option<InvokerData>,
    ) {
    }

    fn channel_deleted(
        &mut self,
        api: &mut TsApi,
        server_id: ServerId,
        channel_id: ChannelId,
        invoker: Option<InvokerData>,
    ) {
    }

    fn channel_edited(
        &mut self,
        api: &mut TsApi,
        server_id: ServerId,
        channel_id: ChannelId,
        old_channel: Option<ChannelData>,
        invoker: InvokerData,
    ) {
    }

    fn channel_password_updated(&mut self, api: &mut TsApi, server_id: ServerId, channel_id: ChannelId) {
    }

    /// The current parent id of the channel is the old one, the new
    /// parent id is given as a parameter.
    fn channel_moved(
        &mut self,
        api: &mut TsApi,
        server_id: ServerId,
        channel_id: ChannelId,
        new_parent_channel_id: ChannelId,
        invoker: Option<InvokerData>,
    ) {
    }

    /// A message was received. `ignored` describes, if the friend and fool system
    /// of TeamSpeak ignored the message.
    /// Return `false` if the TeamSpeak client should handle the message normally or
    /// `true` if the client should ignore the message.
    fn message(
        &mut self,
        api: &mut TsApi,
        server_id: ServerId,
        invoker: InvokerData,
        target: MessageReceiver,
        message: String,
        ignored: bool,
    ) -> (handled: bool)
        default_ensures
            !handled,
    {
        false
    }

    /// A user poked us. `ignored` describes, if the friend and fool system
    /// of TeamSpeak ignored the message.
    /// Return `false` if the TeamSpeak client should handle the poke normally or
    /// `true` if the client should ignore the poke.
    fn poke(
        &mut self,
        api: &mut TsApi,
        server_id: ServerId,
        invoker: InvokerData,
        message: String,
        ignored: bool,
    ) -> (handled: bool)
        default_ensures
            !handled,
    {
        false
    }

    fn channel_kick(
        &mut self,
        api: &mut TsApi,
        server_id: ServerId,
        connection_id: ConnectionId,
        old_channel_id: ChannelId,
        new_channel_id: ChannelId,
        visibility: Visibility,
        invoker: InvokerData,
        message: String,
    ) {
    }

    fn server_kick(
        &mut self,
        api: &mut TsApi,
        server_id: ServerId,
        connection_id: ConnectionId,
        invoker: InvokerData,
        message: String,
    ) {
    }

    fn server_ban(
        &mut self,
        api: &mut TsApi,
        server_id: ServerId,
        connection_id: ConnectionId,
        invoker: InvokerData,
        message: String,
        time: u64,
    ) {
    }

    /// The old values of `talking` and `whispering` are available from the connection.
    /// They will be updated after this functions returned.
    fn talking_changed(
        &mut self,
        api: &mut TsApi,
        server_id: ServerId,
        connection_id: ConnectionId,
        talking: TalkStatus,
        whispering: bool,
    ) {
    }

    fn avatar_changed(
        &mut self,
        api: &mut TsApi,
        server_id: ServerId,
        connection_id: ConnectionId,
        path: Option<String>,
    ) {
    }

    fn connection_channel_group_changed(
        &mut self,
        api: &mut TsApi,
        server_id: ServerId,
        connection_id: ConnectionId,
        channel_group_id: ChannelGroupId,
        channel_id: ChannelId,
        invoker: InvokerData,
    ) {
    }

    fn connection_server_group_added(
        &mut self,
        api: &mut TsApi,
        server_id: ServerId,
        connection: InvokerData,
        server_group_id: ServerGroupId,
        invoker: InvokerData,
    ) {
    }

    fn connection_server_group_removed(
        &mut self,
        api: &mut TsApi,
        server_id: ServerId,
        connection: InvokerData,
        server_group_id: ServerGroupId,
        invoker: InvokerData,
    ) {
    }

    /// The voice data is available as 16 bit with 48 KHz. The channels are packed
    /// (interleaved).
    fn playback_voice_data(
        &mut self,
        api: &mut TsApi,
        server_id: ServerId,
        connection_id: ConnectionId,
        samples: &mut [i16],
        channels: i32,
    ) {
    }

    fn post_process_voice_data(
        &mut self,
        api: &mut TsApi,
        server_id: ServerId,
        connection_id: ConnectionId,
        samples: &mut [i16],
        channels: i32,
        channel_speaker_array: &[Speaker],
        channel_fill_mask: &mut u32,
    ) {
    }

    fn mixed_playback_voice_data(
        &mut self,
        api: &mut TsApi,
        server_id: ServerId,
        samples: &mut [i16],
        channels: i32,
        channel_speaker_array: &[Speaker],
        channel_fill_mask: &mut u32,
    ) {
    }

    /// The recorded sound from the current capture device.
    /// `send` is set if the audio data will be send to the server. This attribute
    /// can be changed in this callback.
    /// The return value of this function describes if the sound data was altered.
    /// Return `true` if the sound was changed and `false` otherwise.
    fn captured_voice_data(
        &mut self,
        api: &mut TsApi,
        server_id: ServerId,
        samples: &mut [i16],
        channels: i32,
        send: &mut bool,
    ) -> (changed: bool)
        default_ensures
            !changed,
            *final(send) == *old(send),
            final(samples)@ == old(samples)@,
    {
        false
    }

    /// Return `false` if the TeamSpeak client should handle the error normally or
    /// `true` if the client should ignore the error.
    fn permission_error(
        &mut self,
        api: &mut TsApi,
        server_id: ServerId,
        permission_id: PermissionId,
        error: Error,
        message: String,
        return_code: String,
    ) -> (handled: bool)
        default_ensures
            !handled,
    {
        false
    }

    /// A plugin message (a `PluginCommand` in TeamSpeak) was received.
    fn plugin_message(&mut self, api: &mut TsApi, server_id: ServerId, plugin: String, message: String) {
    }

    /// A chat command for this plugin was entered. Return `true` if the
    /// command was handled.
    fn process_command(&mut self, api: &mut TsApi, server_id: ServerId, command: String) -> (handled: bool)
        default_ensures
            !handled,
    {
        false
    }

    /// Called if the plugin is disabled (either by the user or if TeamSpeak is
    /// exiting).
    fn shutdown(&mut self, api: &mut TsApi) {
    }
}

} // verus!
