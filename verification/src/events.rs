//! The changes that TeamSpeak events make to the cached data. An event
//! handler changes the data, calls the plugin, and may change the data once
//! more: the changes before the plugin call are the `*_begin` functions, the
//! ones after it the `*_end` functions.
use vstd::prelude::*;

use crate::ids::{ChannelId, ConnectionId, ConnectStatus, Error, MessageReceiver, ServerId, TalkStatus, TextMessageTargetMode, Visibility};
use crate::model::{
    invoker_applied, str_result, ChannelData, InvokerView, ServerData, ChannelView, ConnectionData, ConnectionView, InvokerData,
    ServerView, TsApi, TsApiView,
};

verus! {

// ******************** Changes of the server list ********************

/// The api with the data of one server replaced.
pub open spec fn with_server(api: TsApiView, server: ServerView) -> TsApiView {
    TsApiView { servers: api.servers.insert(server.id.0, server), ..api }
}

/// The api after a change of the data of a server, if the api knows it.
pub open spec fn change_server(api: TsApiView, id: ServerId, f: spec_fn(ServerView) -> ServerView) -> TsApiView {
    if api.servers.contains_key(id.0) {
        TsApiView { servers: api.servers.insert(id.0, f(api.servers[id.0])), ..api }
    } else {
        api
    }
}

/// A server with a connection made visible.
pub open spec fn server_add_connection(s: ServerView, c: ConnectionView) -> ServerView {
    ServerView { connections: s.connections.insert(c.id.0, c), ..s }
}

/// A server with a connection no longer visible.
pub open spec fn server_remove_connection(s: ServerView, id: ConnectionId) -> ServerView {
    ServerView { connections: s.connections.remove(id.0), ..s }
}

/// A server with a visible connection changed, if it is visible.
pub open spec fn server_change_connection(
    s: ServerView,
    id: ConnectionId,
    f: spec_fn(ConnectionView) -> ConnectionView,
) -> ServerView {
    if s.connections.contains_key(id.0) {
        ServerView { connections: s.connections.insert(id.0, f(s.connections[id.0])), ..s }
    } else {
        s
    }
}

/// A server with a channel changed, if it is known.
pub open spec fn server_change_channel(
    s: ServerView,
    id: ChannelId,
    f: spec_fn(ChannelView) -> ChannelView,
) -> ServerView {
    match s.channels {
        Ok(m) => if m.contains_key(id.0) {
            ServerView { channels: Ok(m.insert(id.0, f(m[id.0]))), ..s }
        } else {
            s
        },
        Err(_) => s,
    }
}

/// A server with a channel added (if its channels are known).
pub open spec fn server_add_channel(s: ServerView, c: ChannelView) -> ServerView {
    match s.channels {
        Ok(m) => ServerView { channels: Ok(m.insert(c.id.0, c)), ..s },
        Err(_) => s,
    }
}

/// A server with a channel removed (if its channels are known).
pub open spec fn server_remove_channel(s: ServerView, id: ChannelId) -> ServerView {
    match s.channels {
        Ok(m) => ServerView { channels: Ok(m.remove(id.0)), ..s },
        Err(_) => s,
    }
}


/// A server after a channel was fetched anew: the new data replaces the old,
/// but keeps the properties that have to be requested explicitly.
pub open spec fn server_replace_channel(s: ServerView, c: ChannelView) -> ServerView {
    match s.channels {
        Ok(m) => ServerView {
            channels: Ok(
                m.insert(
                    c.id.0,
                    if m.contains_key(c.id.0) {
                        ChannelView { description: m[c.id.0].description, ..c }
                    } else {
                        c
                    },
                ),
            ),
            ..s
        },
        Err(_) => s,
    }
}

/// The data of a visible connection, if the api knows it.
pub open spec fn visible(api: TsApiView, server_id: ServerId, id: ConnectionId) -> bool {
    api.servers.contains_key(server_id.0) && api.servers[server_id.0].connections.contains_key(id.0)
}

/// Whether the api knows a channel.
pub open spec fn known_channel(api: TsApiView, server_id: ServerId, id: ChannelId) -> bool {
    api.servers.contains_key(server_id.0) && api.servers[server_id.0].channels is Ok
        && api.servers[server_id.0].channels->Ok_0.contains_key(id.0)
}

impl TsApi {
    /// Make a connection visible on its server. Nothing changes if the
    /// server is not known.
    pub fn add_connection(&mut self, connection: ConnectionData)
        ensures
            final(self)@ == change_server(
                old(self)@,
                connection@.server_id,
                |s: ServerView| server_add_connection(s, connection@),
            ),
    {
        let server_id = connection.get_server_id();
        self.is_well_formed();
        if let Some(mut server) = self.remove_server(server_id) {
            server.add_connection(connection);
            self.add_server(server);
            assert(self@.servers =~= change_server(
                old(self)@,
                server_id,
                |s: ServerView| server_add_connection(s, connection@),
            ).servers);
        } else {
            assert(self@.servers =~= old(self)@.servers);
        }
    }

    /// Remove a connection from the visible connections of a server and
    /// return it. Nothing changes if the server is not known.
    pub fn remove_connection(&mut self, server_id: ServerId, connection_id: ConnectionId) -> (r: Option<ConnectionData>)
        ensures
            final(self)@ == change_server(
                old(self)@,
                server_id,
                |s: ServerView| server_remove_connection(s, connection_id),
            ),
            match r {
                Some(c) => visible(old(self)@, server_id, connection_id) && c@
                    == old(self)@.servers[server_id.0].connections[connection_id.0],
                None => !visible(old(self)@, server_id, connection_id),
            },
    {
        self.is_well_formed();
        if let Some(mut server) = self.remove_server(server_id) {
            let r = server.remove_connection(connection_id);
            self.add_server(server);
            assert(self@.servers =~= change_server(
                old(self)@,
                server_id,
                |s: ServerView| server_remove_connection(s, connection_id),
            ).servers);
            r
        } else {
            assert(self@.servers =~= old(self)@.servers);
            None
        }
    }

    /// Record that a visible connection is in another channel. Nothing
    /// changes if the connection is not visible.
    pub fn set_connection_channel(&mut self, server_id: ServerId, connection_id: ConnectionId, channel_id: ChannelId)
        ensures
            final(self)@ == change_server(
                old(self)@,
                server_id,
                |s: ServerView|
                    server_change_connection(
                        s,
                        connection_id,
                        |c: ConnectionView| ConnectionView { channel_id: Ok(channel_id), ..c },
                    ),
            ),
    {
        self.is_well_formed();
        if let Some(mut server) = self.remove_server(server_id) {
            server.set_connection_channel(connection_id, channel_id);
            self.add_server(server);
            assert(self@.servers =~= change_server(
                old(self)@,
                server_id,
                |s: ServerView|
                    server_change_connection(
                        s,
                        connection_id,
                        |c: ConnectionView| ConnectionView { channel_id: Ok(channel_id), ..c },
                    ),
            ).servers);
        } else {
            assert(self@.servers =~= old(self)@.servers);
        }
    }

    /// Record the talk status of a visible connection. Nothing changes if
    /// the connection is not visible.
    pub fn set_connection_talking(
        &mut self,
        server_id: ServerId,
        connection_id: ConnectionId,
        talking: TalkStatus,
        whispering: bool,
    )
        ensures
            final(self)@ == change_server(
                old(self)@,
                server_id,
                |s: ServerView|
                    server_change_connection(
                        s,
                        connection_id,
                        |c: ConnectionView|
                            ConnectionView { talking: Ok(talking), whispering: Ok(whispering), ..c },
                    ),
            ),
    {
        self.is_well_formed();
        if let Some(mut server) = self.remove_server(server_id) {
            server.set_connection_talking(connection_id, talking, whispering);
            self.add_server(server);
            assert(self@.servers =~= change_server(
                old(self)@,
                server_id,
                |s: ServerView|
                    server_change_connection(
                        s,
                        connection_id,
                        |c: ConnectionView|
                            ConnectionView { talking: Ok(talking), whispering: Ok(whispering), ..c },
                    ),
            ).servers);
        } else {
            assert(self@.servers =~= old(self)@.servers);
        }
    }

    /// Add a channel to its server. Fails with the stored error (and changes
    /// nothing) if the channels of the server could not be fetched.
    pub fn add_channel(&mut self, channel: ChannelData) -> (r: Result<(), Error>)
        requires
            old(self)@.servers.contains_key(channel@.server_id.0),
        ensures
            final(self)@ == change_server(
                old(self)@,
                channel@.server_id,
                |s: ServerView| server_add_channel(s, channel@),
            ),
            match old(self)@.servers[channel@.server_id.0].channels {
                Ok(_) => r is Ok,
                Err(e) => r == Err::<(), Error>(e),
            },
    {
        self.is_well_formed();
        let server_id = channel.get_server_id();
        let ghost cv = channel@;
        let mut server = self.remove_server(server_id).unwrap();
        let r = server.add_channel(channel);
        self.add_server(server);
        assert(self@.servers =~= change_server(
            old(self)@,
            server_id,
            |s: ServerView| server_add_channel(s, cv),
        ).servers);
        r
    }

    /// Remove a channel and return it. Nothing changes if the server or its
    /// channels are not known.
    pub fn remove_channel(&mut self, server_id: ServerId, channel_id: ChannelId) -> (r: Option<ChannelData>)
        ensures
            final(self)@ == change_server(
                old(self)@,
                server_id,
                |s: ServerView| server_remove_channel(s, channel_id),
            ),
            match r {
                Some(c) => known_channel(old(self)@, server_id, channel_id) && c@
                    == old(self)@.servers[server_id.0].channels->Ok_0[channel_id.0],
                None => !known_channel(old(self)@, server_id, channel_id),
            },
    {
        self.is_well_formed();
        if let Some(mut server) = self.remove_server(server_id) {
            let r = server.remove_channel(channel_id);
            self.add_server(server);
            assert(self@.servers =~= change_server(
                old(self)@,
                server_id,
                |s: ServerView| server_remove_channel(s, channel_id),
            ).servers);
            r
        } else {
            assert(self@.servers =~= old(self)@.servers);
            None
        }
    }

    /// Replace a channel by newly fetched data, keeping the properties that
    /// have to be requested explicitly, and return the old data. Fails with
    /// the stored error (and changes nothing) if the channels of the server
    /// could not be fetched.
    pub fn replace_channel(&mut self, channel: ChannelData) -> (r: Result<Option<ChannelData>, Error>)
        requires
            old(self)@.servers.contains_key(channel@.server_id.0),
        ensures
            final(self)@ == change_server(
                old(self)@,
                channel@.server_id,
                |s: ServerView| server_replace_channel(s, channel@),
            ),
            match old(self)@.servers[channel@.server_id.0].channels {
                Ok(m) => match r {
                    Ok(Some(c)) => m.contains_key(channel@.id.0) && c@ == m[channel@.id.0],
                    Ok(None) => !m.contains_key(channel@.id.0),
                    Err(_) => false,
                },
                Err(e) => r == Err::<Option<ChannelData>, Error>(e),
            },
    {
        self.is_well_formed();
        let server_id = channel.get_server_id();
        let channel_id = channel.get_id();
        let ghost cv = channel@;
        let mut channel = channel;
        let mut server = self.remove_server(server_id).unwrap();
        let ghost s0 = server@;
        let old_channel = server.remove_channel(channel_id);
        if let Some(old_channel) = &old_channel {
            channel.update_from(old_channel);
        }
        let ghost s1 = server@;
        let ghost c1 = channel@;
        let r = match server.add_channel(channel) {
            Ok(()) => Ok(old_channel),
            Err(e) => Err(e),
        };
        proof {
            match s0.channels {
                Ok(m) => {
                    assert(s1.channels == Ok::<Map<u64, ChannelView>, Error>(m.remove(channel_id.0)));
                    assert(m.remove(channel_id.0).insert(channel_id.0, c1) =~= m.insert(channel_id.0, c1));
                    assert(server@ == server_replace_channel(s0, cv));
                },
                Err(_) => {
                    assert(server@ == s0);
                },
            }
        }
        self.add_server(server);
        assert(self@.servers =~= change_server(
            old(self)@,
            server_id,
            |s: ServerView| server_replace_channel(s, cv),
        ).servers);
        r
    }

    /// Record the new parent of a channel. Nothing changes if the channel is
    /// not known.
    pub fn set_channel_parent(&mut self, server_id: ServerId, channel_id: ChannelId, parent_channel_id: ChannelId)
        ensures
            final(self)@ == change_server(
                old(self)@,
                server_id,
                |s: ServerView|
                    server_change_channel(
                        s,
                        channel_id,
                        |c: ChannelView| ChannelView { parent_channel_id: Ok(parent_channel_id), ..c },
                    ),
            ),
    {
        self.is_well_formed();
        if let Some(mut server) = self.remove_server(server_id) {
            server.set_channel_parent(channel_id, parent_channel_id);
            self.add_server(server);
            assert(self@.servers =~= change_server(
                old(self)@,
                server_id,
                |s: ServerView|
                    server_change_channel(
                        s,
                        channel_id,
                        |c: ChannelView| ChannelView { parent_channel_id: Ok(parent_channel_id), ..c },
                    ),
            ).servers);
        } else {
            assert(self@.servers =~= old(self)@.servers);
        }
    }

    /// Store the fetched description of a channel and report whether it
    /// could be fetched. A channel that is not known is left alone and gives
    /// `Ok`.
    pub fn update_channel_description(
        &mut self,
        server_id: ServerId,
        channel_id: ChannelId,
        description: Result<String, Error>,
    ) -> (r: Result<(), Error>)
        requires
            old(self)@.servers.contains_key(server_id.0),
        ensures
            final(self)@ == change_server(
                old(self)@,
                server_id,
                |s: ServerView|
                    server_change_channel(
                        s,
                        channel_id,
                        |c: ChannelView| ChannelView { description: str_result(description), ..c },
                    ),
            ),
            if known_channel(old(self)@, server_id, channel_id) {
                match description {
                    Ok(_) => r is Ok,
                    Err(e) => r == Err::<(), Error>(e),
                }
            } else {
                r is Ok
            },
    {
        self.is_well_formed();
        let ghost dv = str_result(description);
        let mut server = self.remove_server(server_id).unwrap();
        let known = server.get_channel_data(channel_id).is_some();
        let r = if known {
            match &description {
                Ok(_) => Ok(()),
                Err(e) => Err(*e),
            }
        } else {
            Ok(())
        };
        server.set_channel_description(channel_id, description);
        self.add_server(server);
        assert(self@.servers =~= change_server(
            old(self)@,
            server_id,
            |s: ServerView|
                server_change_channel(
                    s,
                    channel_id,
                    |c: ChannelView| ChannelView { description: dv, ..c },
                ),
        ).servers);
        r
    }
}


// ******************** Events ********************

/// The plugin callback that a move of a connection leads to.
#[derive(Debug, PartialEq, Eq, Clone, Copy, Structural)]
pub enum MoveCallback {
    /// The connection connected (`true`) to or disconnected (`false`) from
    /// the server.
    ConnectionChanged(bool),
    /// The connection appeared (`true`) in or left (`false`) the view of
    /// the client.
    ConnectionAnnounced(bool),
    /// The connection switched channels.
    ConnectionMove,
    /// No callback.
    Nothing,
}

/// Which callback a move from `old` to `new` with the given visibility change
/// leads to. Channel 0 stands for "not on the server".
pub open spec fn move_callback(old: ChannelId, new: ChannelId, visibility: Visibility) -> MoveCallback {
    if old.0 == 0 {
        MoveCallback::ConnectionChanged(true)
    } else if new.0 == 0 {
        MoveCallback::ConnectionChanged(false)
    } else if old == new {
        match visibility {
            Visibility::Enter => MoveCallback::ConnectionAnnounced(true),
            Visibility::Leave => MoveCallback::ConnectionAnnounced(false),
            Visibility::Retain => MoveCallback::Nothing,
        }
    } else {
        MoveCallback::ConnectionMove
    }
}

/// The api with a connection made visible on its server.
pub open spec fn api_add_connection(api: TsApiView, c: ConnectionView) -> TsApiView {
    change_server(api, c.server_id, |s: ServerView| server_add_connection(s, c))
}

/// The api with a connection no longer visible on a server.
pub open spec fn api_remove_connection(api: TsApiView, server_id: ServerId, id: ConnectionId) -> TsApiView {
    change_server(api, server_id, |s: ServerView| server_remove_connection(s, id))
}

/// The api with a visible connection recorded in another channel.
pub open spec fn api_set_connection_channel(
    api: TsApiView,
    server_id: ServerId,
    id: ConnectionId,
    channel_id: ChannelId,
) -> TsApiView {
    change_server(
        api,
        server_id,
        |s: ServerView|
            server_change_connection(
                s,
                id,
                |c: ConnectionView| ConnectionView { channel_id: Ok(channel_id), ..c },
            ),
    )
}

/// The api after the identity of an invoker was taken over.
pub open spec fn api_apply_invoker(api: TsApiView, server_id: ServerId, invoker: InvokerView) -> TsApiView {
    change_server(api, server_id, |s: ServerView| invoker_applied(s, invoker))
}

/// The change that a move of a connection makes before the plugin is called:
/// a connection that connected or entered the view becomes visible (with the
/// freshly fetched data `c`), and a connection that switched channels is
/// recorded in its new channel.
pub open spec fn client_move_begin_spec(
    api: TsApiView,
    c: ConnectionView,
    old: ChannelId,
    new: ChannelId,
    visibility: Visibility,
) -> TsApiView {
    if old.0 == 0 {
        api_add_connection(api, c)
    } else if new.0 == 0 {
        api
    } else if old == new {
        if visibility == Visibility::Enter {
            api_add_connection(api, c)
        } else {
            api
        }
    } else {
        let entered = if visibility == Visibility::Enter {
            api_add_connection(api, c)
        } else {
            api
        };
        api_set_connection_channel(entered, c.server_id, c.id, new)
    }
}

/// The change that a move of a connection makes after the plugin was called:
/// a connection that disconnected or left the view is no longer visible.
pub open spec fn client_move_end_spec(
    api: TsApiView,
    server_id: ServerId,
    id: ConnectionId,
    old: ChannelId,
    new: ChannelId,
    visibility: Visibility,
) -> TsApiView {
    if old.0 == 0 {
        api
    } else if new.0 == 0 {
        api_remove_connection(api, server_id, id)
    } else if visibility == Visibility::Leave {
        api_remove_connection(api, server_id, id)
    } else {
        api
    }
}

/// The change that a connection status event makes before the plugin is
/// called: a server that is not known is added (with the freshly fetched
/// data) unless we are still connecting to it.
pub open spec fn connect_status_begin_spec(api: TsApiView, server: ServerView, status: ConnectStatus) -> TsApiView {
    if status != ConnectStatus::Connecting && !api.servers.contains_key(server.id.0) {
        with_server(api, server)
    } else {
        api
    }
}

/// The change that a connection status event makes after the plugin was
/// called: a server we disconnected from is removed.
pub open spec fn connect_status_end_spec(api: TsApiView, server_id: ServerId, status: ConnectStatus) -> TsApiView {
    if status == ConnectStatus::Disconnected {
        TsApiView { servers: api.servers.remove(server_id.0), ..api }
    } else {
        api
    }
}

impl TsApi {
    /// The part of a move event (`onClientMoveEvent`,
    /// `onClientMoveMovedEvent`) before the plugin is called. `connection` is
    /// the freshly fetched data of the moved connection; it is only stored if
    /// the connection becomes visible. Returns the callback to make.
    pub fn client_move_begin(
        &mut self,
        connection: ConnectionData,
        old_channel_id: ChannelId,
        new_channel_id: ChannelId,
        visibility: Visibility,
    ) -> (r: MoveCallback)
        ensures
            r == move_callback(old_channel_id, new_channel_id, visibility),
            final(self)@ == client_move_begin_spec(
                old(self)@,
                connection@,
                old_channel_id,
                new_channel_id,
                visibility,
            ),
    {
        let server_id = connection.get_server_id();
        let connection_id = connection.get_id();
        if old_channel_id.0 == 0 {
            // Connection connected, this will also be called for ourselves
            self.add_connection(connection);
            MoveCallback::ConnectionChanged(true)
        } else if new_channel_id.0 == 0 {
            // Connection disconnected
            MoveCallback::ConnectionChanged(false)
        } else if old_channel_id == new_channel_id {
            // Connection announced
            match visibility {
                Visibility::Enter => {
                    self.add_connection(connection);
                    MoveCallback::ConnectionAnnounced(true)
                },
                Visibility::Leave => MoveCallback::ConnectionAnnounced(false),
                Visibility::Retain => MoveCallback::Nothing,
            }
        } else {
            // Connection switched channel; add it if it entered the view
            if visibility == Visibility::Enter {
                self.add_connection(connection);
            }
            self.set_connection_channel(server_id, connection_id, new_channel_id);
            MoveCallback::ConnectionMove
        }
    }

    /// The part of a move event after the plugin was called.
    pub fn client_move_end(
        &mut self,
        server_id: ServerId,
        connection_id: ConnectionId,
        old_channel_id: ChannelId,
        new_channel_id: ChannelId,
        visibility: Visibility,
    )
        ensures
            final(self)@ == client_move_end_spec(
                old(self)@,
                server_id,
                connection_id,
                old_channel_id,
                new_channel_id,
                visibility,
            ),
    {
        if old_channel_id.0 == 0 {
        } else if new_channel_id.0 == 0 || visibility == Visibility::Leave {
            self.remove_connection(server_id, connection_id);
        }
    }

    /// The part of a subscription event (`onClientMoveSubscriptionEvent`)
    /// before the plugin is called: a connection that entered the view
    /// becomes visible. Returns the announcement to make, if any.
    pub fn client_subscription_begin(&mut self, connection: ConnectionData, visibility: Visibility) -> (r: Option<bool>)
        ensures
            r == match visibility {
                Visibility::Enter => Some(true),
                Visibility::Leave => Some(false),
                Visibility::Retain => None::<bool>,
            },
            final(self)@ == if visibility == Visibility::Enter {
                api_add_connection(old(self)@, connection@)
            } else {
                old(self)@
            },
    {
        match visibility {
            Visibility::Enter => {
                self.add_connection(connection);
                Some(true)
            },
            Visibility::Leave => Some(false),
            Visibility::Retain => None,
        }
    }

    /// The part of a subscription event after the plugin was called: a
    /// connection that left the view is no longer visible.
    pub fn client_subscription_end(&mut self, server_id: ServerId, connection_id: ConnectionId, visibility: Visibility)
        ensures
            final(self)@ == if visibility == Visibility::Leave {
                api_remove_connection(old(self)@, server_id, connection_id)
            } else {
                old(self)@
            },
    {
        if visibility == Visibility::Leave {
            self.remove_connection(server_id, connection_id);
        }
    }

    /// The part of an update event (`onUpdateClientEvent`) before the plugin
    /// is called: the invoker's identity is taken over, and the connection is
    /// replaced by its freshly fetched data. Returns the old data.
    pub fn update_client(&mut self, connection: ConnectionData, invoker: &InvokerData) -> (r: Option<ConnectionData>)
        ensures
            ({
                let applied = api_apply_invoker(old(self)@, connection@.server_id, invoker@);
                &&& final(self)@ == api_add_connection(applied, connection@)
                &&& match r {
                    Some(c) => visible(applied, connection@.server_id, connection@.id) && c@
                        == applied.servers[connection@.server_id.0].connections[connection@.id.0],
                    None => !visible(applied, connection@.server_id, connection@.id),
                }
            }),
    {
        let server_id = connection.get_server_id();
        let connection_id = connection.get_id();
        self.try_update_invoker(server_id, invoker);
        let ghost applied = self@;
        proof {
            assert(applied.servers =~= api_apply_invoker(old(self)@, server_id, invoker@).servers);
        }
        let old_connection = self.remove_connection(server_id, connection_id);
        let ghost removed = self@;
        self.add_connection(connection);
        proof {
            if applied.servers.contains_key(server_id.0) {
                assert(removed.servers[server_id.0].connections.insert(connection_id.0, connection@)
                    =~= applied.servers[server_id.0].connections.insert(connection_id.0, connection@));
                assert(self@.servers =~= api_add_connection(applied, connection@).servers);
            } else {
                assert(self@.servers =~= api_add_connection(applied, connection@).servers);
            }
        }
        old_connection
    }

    /// The part of a connection status event (`onConnectStatusChangeEvent`)
    /// before the plugin is called: a server that is not known is added
    /// (with the freshly fetched data `server`) unless we are still
    /// connecting to it.
    pub fn connect_status_begin(&mut self, server: ServerData, status: ConnectStatus)
        ensures
            final(self)@ == connect_status_begin_spec(old(self)@, server@, status),
    {
        let server_id = server.get_id();
        if status != ConnectStatus::Connecting && self.get_server_data(server_id).is_none() {
            self.add_server(server);
        }
    }

    /// The part of a connection status event after the plugin was called: a
    /// server we disconnected from is removed.
    pub fn connect_status_end(&mut self, server_id: ServerId, status: ConnectStatus)
        ensures
            final(self)@ == connect_status_end_spec(old(self)@, server_id, status),
    {
        if status == ConnectStatus::Disconnected {
            self.remove_server(server_id);
        }
    }

    /// The part of a kick from a channel (`onClientKickFromChannelEvent`)
    /// after the plugin was called: a connection that left the view is no
    /// longer visible, otherwise it is recorded in its new channel.
    pub fn channel_kick_end(
        &mut self,
        server_id: ServerId,
        connection_id: ConnectionId,
        new_channel_id: ChannelId,
        visibility: Visibility,
    )
        ensures
            final(self)@ == if visibility == Visibility::Leave {
                api_remove_connection(old(self)@, server_id, connection_id)
            } else {
                api_set_connection_channel(old(self)@, server_id, connection_id, new_channel_id)
            },
    {
        if visibility == Visibility::Leave {
            self.remove_connection(server_id, connection_id);
        } else {
            self.set_connection_channel(server_id, connection_id, new_channel_id);
        }
    }
}

/// The invoker that TeamSpeak passes along with an event; id 0 means that
/// the event has no invoker.
pub fn invoker_from(id: ConnectionId, uid: String, name: String) -> (r: Option<InvokerData>)
    ensures
        match r {
            Some(i) => id.0 != 0 && i@ == (InvokerView { id, uid: uid@, name: name@ }),
            None => id.0 == 0,
        },
{
    if id.0 == 0 {
        None
    } else {
        Some(InvokerData::new(id, uid, name))
    }
}

/// Whether a text message target mode names a receiver.
pub fn is_valid_target_mode(mode: TextMessageTargetMode) -> (r: bool)
    ensures
        r == (mode != TextMessageTargetMode::Max),
{
    mode != TextMessageTargetMode::Max
}

/// The receiver of a text message. A message to a client is addressed to the
/// receiving connection; an invalid mode counts as a server message.
pub fn message_receiver(mode: TextMessageTargetMode, receiver_id: ConnectionId) -> (r: MessageReceiver)
    ensures
        r == match mode {
            TextMessageTargetMode::Client => MessageReceiver::Connection(receiver_id),
            TextMessageTargetMode::Channel => MessageReceiver::Channel,
            _ => MessageReceiver::Server,
        },
{
    match mode {
        TextMessageTargetMode::Client => MessageReceiver::Connection(receiver_id),
        TextMessageTargetMode::Channel => MessageReceiver::Channel,
        TextMessageTargetMode::Server => MessageReceiver::Server,
        TextMessageTargetMode::Max => MessageReceiver::Server,
    }
}

} // verus!
