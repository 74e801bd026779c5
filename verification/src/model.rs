//! The data that the library keeps about the servers, channels and
//! connections that the client can see, and the borrowed handles through
//! which plugins read it.
use std::collections::HashMap;
use vstd::prelude::*;
use vstd::std_specs::iter::IteratorSpec;

use crate::ids::{
    ChannelGroup, ChannelGroupId, ChannelId, ConnectStatus, ConnectionId, Error, Permission,
    PermissionId,
    ServerGroup, ServerGroupId, ServerId, TalkStatus,
};

verus! {

broadcast use vstd::std_specs::hash::group_hash_axioms;

/// The view of a stored `Result<String, Error>`.
pub open spec fn str_result(r: Result<String, Error>) -> Result<Seq<char>, Error> {
    match r {
        Ok(s) => Ok(s@),
        Err(e) => Err(e),
    }
}

/// The value of a property that has not been fetched yet.
pub open spec fn not_loaded<T>() -> Result<T, Error> {
    Err(Error(0))
}


/// An item of a complete walk over the values of a map is a value of the map.
proof fn lemma_walked_value<K, V>(m: Map<K, V>, all: Seq<&V>, i: int) -> (k: K)
    requires
        all.unref().to_set() == m.values(),
        0 <= i < all.len(),
    ensures
        m.contains_key(k),
        m[k] == *all[i],
{
    assert(all.unref()[i] == *all[i]);
    assert(all.unref().contains(*all[i]));
    assert(m.values().contains(*all[i]));
    choose|k: K| m.contains_key(k) && m[k] == *all[i]
}

/// Every value of a map is met by a complete walk over its values.
proof fn lemma_walk_meets<K, V>(m: Map<K, V>, all: Seq<&V>, k: K) -> (j: int)
    requires
        all.unref().to_set() == m.values(),
        m.contains_key(k),
    ensures
        0 <= j < all.len(),
        *all[j] == m[k],
{
    assert(m.values().contains(m[k]));
    assert(all.unref().to_set().contains(m[k]));
    let j = choose|j: int| 0 <= j < all.unref().len() && all.unref()[j] == m[k];
    assert(all.unref()[j] == *all[j]);
    j
}

// ******************** Invoker ********************

/// The id, unique id and name of the connection that caused an event.
#[derive(Debug)]
pub struct InvokerData {
    id: ConnectionId,
    uid: String,
    name: String,
}

/// What an `InvokerData` holds.
pub struct InvokerView {
    pub id: ConnectionId,
    pub uid: Seq<char>,
    pub name: Seq<char>,
}

impl View for InvokerData {
    type V = InvokerView;

    closed spec fn view(&self) -> InvokerView {
        InvokerView { id: self.id, uid: self.uid@, name: self.name@ }
    }
}

impl InvokerData {
    /// Bundle the data of an invoker.
    pub fn new(id: ConnectionId, uid: String, name: String) -> (r: InvokerData)
        ensures
            r@ == (InvokerView { id, uid: uid@, name: name@ }),
    {
        InvokerData { id, uid, name }
    }

    /// Get the connection id of this invoker.
    pub fn get_id(&self) -> (r: ConnectionId)
        ensures
            r == self@.id,
    {
        self.id
    }

    /// Get the unique id of this invoker.
    pub fn get_uid(&self) -> (r: &String)
        ensures
            r@ == self@.uid,
    {
        &self.uid
    }

    /// Get the name of this invoker.
    pub fn get_name(&self) -> (r: &String)
        ensures
            r@ == self@.name,
    {
        &self.name
    }

    /// Two invokers are the same if they have the same connection id.
    pub fn same_as(&self, other: &InvokerData) -> (r: bool)
        ensures
            r == (self@.id == other@.id),
    {
        self.id == other.id
    }
}


// ******************** Connection ********************

/// The cached data of a connection (a client) on a server.
/// Properties are `Err` until they were fetched, `Err(Error(0))` if they
/// were never fetched.
#[derive(Debug)]
pub struct ConnectionData {
    id: ConnectionId,
    server_id: ServerId,
    channel_id: Result<ChannelId, Error>,
    uid: Result<String, Error>,
    name: Result<String, Error>,
    talking: Result<TalkStatus, Error>,
    whispering: Result<bool, Error>,
    channel_group_inherited_channel_id: Result<ChannelId, Error>,
}

/// What a `ConnectionData` holds.
pub struct ConnectionView {
    pub id: ConnectionId,
    pub server_id: ServerId,
    pub channel_id: Result<ChannelId, Error>,
    pub uid: Result<Seq<char>, Error>,
    pub name: Result<Seq<char>, Error>,
    pub talking: Result<TalkStatus, Error>,
    pub whispering: Result<bool, Error>,
    pub channel_group_inherited_channel_id: Result<ChannelId, Error>,
}

impl View for ConnectionData {
    type V = ConnectionView;

    closed spec fn view(&self) -> ConnectionView {
        ConnectionView {
            id: self.id,
            server_id: self.server_id,
            channel_id: self.channel_id,
            uid: str_result(self.uid),
            name: str_result(self.name),
            talking: self.talking,
            whispering: self.whispering,
            channel_group_inherited_channel_id: self.channel_group_inherited_channel_id,
        }
    }
}

impl ConnectionData {
    /// A connection of which no property has been fetched yet.
    pub fn new(server_id: ServerId, id: ConnectionId) -> (r: ConnectionData)
        ensures
            r@ == (ConnectionView {
                id,
                server_id,
                channel_id: not_loaded(),
                uid: not_loaded(),
                name: not_loaded(),
                talking: not_loaded(),
                whispering: not_loaded(),
                channel_group_inherited_channel_id: not_loaded(),
            }),
    {
        ConnectionData {
            id,
            server_id,
            channel_id: Err(Error(0)),
            uid: Err(Error(0)),
            name: Err(Error(0)),
            talking: Err(Error(0)),
            whispering: Err(Error(0)),
            channel_group_inherited_channel_id: Err(Error(0)),
        }
    }

    pub fn get_id(&self) -> (r: ConnectionId)
        ensures
            r == self@.id,
    {
        self.id
    }

    pub fn get_server_id(&self) -> (r: ServerId)
        ensures
            r == self@.server_id,
    {
        self.server_id
    }

    pub fn get_channel_id(&self) -> (r: Result<ChannelId, Error>)
        ensures
            r == self@.channel_id,
    {
        self.channel_id
    }

    /// Get the unique identifier of this connection.
    pub fn get_uid(&self) -> (r: Result<&String, Error>)
        ensures
            match r {
                Ok(s) => self@.uid == Ok::<Seq<char>, Error>(s@),
                Err(e) => self@.uid == Err::<Seq<char>, Error>(e),
            },
    {
        match &self.uid {
            Ok(s) => Ok(s),
            Err(e) => Err(*e),
        }
    }

    /// Get the nickname of this connection.
    pub fn get_name(&self) -> (r: Result<&String, Error>)
        ensures
            match r {
                Ok(s) => self@.name == Ok::<Seq<char>, Error>(s@),
                Err(e) => self@.name == Err::<Seq<char>, Error>(e),
            },
    {
        match &self.name {
            Ok(s) => Ok(s),
            Err(e) => Err(*e),
        }
    }

    pub fn get_talking(&self) -> (r: Result<TalkStatus, Error>)
        ensures
            r == self@.talking,
    {
        self.talking
    }

    pub fn get_whispering(&self) -> (r: Result<bool, Error>)
        ensures
            r == self@.whispering,
    {
        self.whispering
    }

    /// The channel that sets the current channel group of this connection.
    pub fn get_channel_group_inherited_channel_id(&self) -> (r: Result<ChannelId, Error>)
        ensures
            r == self@.channel_group_inherited_channel_id,
    {
        self.channel_group_inherited_channel_id
    }

    pub fn update_channel_id(&mut self, value: Result<ChannelId, Error>)
        ensures
            final(self)@ == (ConnectionView { channel_id: value, ..old(self)@ }),
    {
        self.channel_id = value;
    }

    pub fn update_uid(&mut self, value: Result<String, Error>)
        ensures
            final(self)@ == (ConnectionView { uid: str_result(value), ..old(self)@ }),
    {
        self.uid = value;
    }

    pub fn update_name(&mut self, value: Result<String, Error>)
        ensures
            final(self)@ == (ConnectionView { name: str_result(value), ..old(self)@ }),
    {
        self.name = value;
    }

    pub fn update_talking(&mut self, value: Result<TalkStatus, Error>)
        ensures
            final(self)@ == (ConnectionView { talking: value, ..old(self)@ }),
    {
        self.talking = value;
    }

    pub fn update_whispering(&mut self, value: Result<bool, Error>)
        ensures
            final(self)@ == (ConnectionView { whispering: value, ..old(self)@ }),
    {
        self.whispering = value;
    }

    pub fn update_channel_group_inherited_channel_id(&mut self, value: Result<ChannelId, Error>)
        ensures
            final(self)@ == (ConnectionView {
                channel_group_inherited_channel_id: value,
                ..old(self)@
            }),
    {
        self.channel_group_inherited_channel_id = value;
    }
}

// ******************** Channel ********************

/// The cached data of a channel on a server.
#[derive(Debug)]
pub struct ChannelData {
    id: ChannelId,
    server_id: ServerId,
    parent_channel_id: Result<ChannelId, Error>,
    name: Result<String, Error>,
    topic: Result<String, Error>,
    description: Result<String, Error>,
}

/// What a `ChannelData` holds.
pub struct ChannelView {
    pub id: ChannelId,
    pub server_id: ServerId,
    pub parent_channel_id: Result<ChannelId, Error>,
    pub name: Result<Seq<char>, Error>,
    pub topic: Result<Seq<char>, Error>,
    pub description: Result<Seq<char>, Error>,
}

impl View for ChannelData {
    type V = ChannelView;

    closed spec fn view(&self) -> ChannelView {
        ChannelView {
            id: self.id,
            server_id: self.server_id,
            parent_channel_id: self.parent_channel_id,
            name: str_result(self.name),
            topic: str_result(self.topic),
            description: str_result(self.description),
        }
    }
}

impl ChannelData {
    /// A channel of which no property has been fetched yet.
    pub fn new(server_id: ServerId, id: ChannelId) -> (r: ChannelData)
        ensures
            r@ == (ChannelView {
                id,
                server_id,
                parent_channel_id: not_loaded(),
                name: not_loaded(),
                topic: not_loaded(),
                description: not_loaded(),
            }),
    {
        ChannelData {
            id,
            server_id,
            parent_channel_id: Err(Error(0)),
            name: Err(Error(0)),
            topic: Err(Error(0)),
            description: Err(Error(0)),
        }
    }

    pub fn get_id(&self) -> (r: ChannelId)
        ensures
            r == self@.id,
    {
        self.id
    }

    pub fn get_server_id(&self) -> (r: ServerId)
        ensures
            r == self@.server_id,
    {
        self.server_id
    }

    /// The id of the parent channel, 0 if there is no parent channel.
    pub fn get_parent_channel_id(&self) -> (r: Result<ChannelId, Error>)
        ensures
            r == self@.parent_channel_id,
    {
        self.parent_channel_id
    }

    pub fn get_name(&self) -> (r: Result<&String, Error>)
        ensures
            match r {
                Ok(s) => self@.name == Ok::<Seq<char>, Error>(s@),
                Err(e) => self@.name == Err::<Seq<char>, Error>(e),
            },
    {
        match &self.name {
            Ok(s) => Ok(s),
            Err(e) => Err(*e),
        }
    }

    pub fn get_topic(&self) -> (r: Result<&String, Error>)
        ensures
            match r {
                Ok(s) => self@.topic == Ok::<Seq<char>, Error>(s@),
                Err(e) => self@.topic == Err::<Seq<char>, Error>(e),
            },
    {
        match &self.topic {
            Ok(s) => Ok(s),
            Err(e) => Err(*e),
        }
    }

    /// The description is only available after it was requested.
    pub fn get_description(&self) -> (r: Result<&String, Error>)
        ensures
            match r {
                Ok(s) => self@.description == Ok::<Seq<char>, Error>(s@),
                Err(e) => self@.description == Err::<Seq<char>, Error>(e),
            },
    {
        match &self.description {
            Ok(s) => Ok(s),
            Err(e) => Err(*e),
        }
    }

    pub fn update_parent_channel_id(&mut self, value: Result<ChannelId, Error>)
        ensures
            final(self)@ == (ChannelView { parent_channel_id: value, ..old(self)@ }),
    {
        self.parent_channel_id = value;
    }

    pub fn update_name(&mut self, value: Result<String, Error>)
        ensures
            final(self)@ == (ChannelView { name: str_result(value), ..old(self)@ }),
    {
        self.name = value;
    }

    pub fn update_topic(&mut self, value: Result<String, Error>)
        ensures
            final(self)@ == (ChannelView { topic: str_result(value), ..old(self)@ }),
    {
        self.topic = value;
    }

    pub fn update_description(&mut self, value: Result<String, Error>)
        ensures
            final(self)@ == (ChannelView { description: str_result(value), ..old(self)@ }),
    {
        self.description = value;
    }

    /// Take over the properties that have to be requested explicitly from
    /// an older copy of this channel.
    pub fn update_from(&mut self, old_channel: &ChannelData)
        ensures
            final(self)@ == (ChannelView { description: old_channel@.description, ..old(self)@ }),
    {
        self.description = match &old_channel.description {
            Ok(s) => Ok(s.clone()),
            Err(e) => Err(*e),
        };
    }
}


// ******************** Server ********************

/// The views of the connections in a map.
pub open spec fn connection_views(m: Map<u16, ConnectionData>) -> Map<u16, ConnectionView> {
    m.map_values(|c: ConnectionData| c@)
}

/// The views of the channels in a map.
pub open spec fn channel_views(m: Map<u64, ChannelData>) -> Map<u64, ChannelView> {
    m.map_values(|c: ChannelData| c@)
}

/// The map that inserting the connections of `s` one after the other gives:
/// a later connection with the same id replaces an earlier one.
pub open spec fn connection_map_of(s: Seq<ConnectionView>) -> Map<u16, ConnectionView>
    decreases s.len(),
{
    if s.len() == 0 {
        Map::empty()
    } else {
        connection_map_of(s.drop_last()).insert(s.last().id.0, s.last())
    }
}

/// The map that inserting the channels of `s` one after the other gives.
pub open spec fn channel_map_of(s: Seq<ChannelView>) -> Map<u64, ChannelView>
    decreases s.len(),
{
    if s.len() == 0 {
        Map::empty()
    } else {
        channel_map_of(s.drop_last()).insert(s.last().id.0, s.last())
    }
}

/// The cached data of a server and of the connections and channels on it.
#[derive(Debug)]
pub struct ServerData {
    id: ServerId,
    uid: Result<String, Error>,
    name: Result<String, Error>,
    own_connection_id: Result<ConnectionId, Error>,
    visible_connections: HashMap<u16, ConnectionData>,
    channels: Result<HashMap<u64, ChannelData>, Error>,
}

/// What a `ServerData` holds.
pub struct ServerView {
    pub id: ServerId,
    pub uid: Result<Seq<char>, Error>,
    pub name: Result<Seq<char>, Error>,
    pub own_connection_id: Result<ConnectionId, Error>,
    /// The visible connections, by connection id.
    pub connections: Map<u16, ConnectionView>,
    /// The channels by channel id, or the error that fetching them gave.
    pub channels: Result<Map<u64, ChannelView>, Error>,
}

impl ServerView {
    /// Every connection and channel is stored under its own id and belongs
    /// to this server.
    pub open spec fn wf(self) -> bool {
        &&& forall|k: u16| #[trigger]
            self.connections.contains_key(k) ==> self.connections[k].id.0 == k
                && self.connections[k].server_id == self.id
        &&& self.channels is Ok ==> forall|k: u64| #[trigger]
            self.channels->Ok_0.contains_key(k) ==> self.channels->Ok_0[k].id.0 == k
                && self.channels->Ok_0[k].server_id == self.id
    }
}

impl View for ServerData {
    type V = ServerView;

    closed spec fn view(&self) -> ServerView {
        ServerView {
            id: self.id,
            uid: str_result(self.uid),
            name: str_result(self.name),
            own_connection_id: self.own_connection_id,
            connections: connection_views(self.visible_connections@),
            channels: match self.channels {
                Ok(m) => Ok(channel_views(m@)),
                Err(e) => Err(e),
            },
        }
    }
}

impl ServerData {
    #[verifier::type_invariant]
    closed spec fn inv(self) -> bool {
        self@.wf()
    }

    /// A server of which nothing has been fetched yet.
    pub fn new(id: ServerId) -> (r: ServerData)
        ensures
            r@ == (ServerView {
                id,
                uid: not_loaded(),
                name: not_loaded(),
                own_connection_id: not_loaded(),
                connections: Map::empty(),
                channels: not_loaded(),
            }),
            r@.wf(),
    {
        let r = ServerData {
            id,
            uid: Err(Error(0)),
            name: Err(Error(0)),
            own_connection_id: Err(Error(0)),
            visible_connections: HashMap::new(),
            channels: Err(Error(0)),
        };
        assert(r@.connections =~= Map::empty());
        r
    }

    /// The invariant of this server holds.
    pub fn is_well_formed(&self) -> (b: bool)
        ensures
            b,
            self@.wf(),
    {
        proof {
            use_type_invariant(self);
        }
        true
    }

    pub fn get_id(&self) -> (r: ServerId)
        ensures
            r == self@.id,
    {
        self.id
    }

    pub fn get_uid(&self) -> (r: Result<&String, Error>)
        ensures
            match r {
                Ok(s) => self@.uid == Ok::<Seq<char>, Error>(s@),
                Err(e) => self@.uid == Err::<Seq<char>, Error>(e),
            },
    {
        match &self.uid {
            Ok(s) => Ok(s),
            Err(e) => Err(*e),
        }
    }

    pub fn get_name(&self) -> (r: Result<&String, Error>)
        ensures
            match r {
                Ok(s) => self@.name == Ok::<Seq<char>, Error>(s@),
                Err(e) => self@.name == Err::<Seq<char>, Error>(e),
            },
    {
        match &self.name {
            Ok(s) => Ok(s),
            Err(e) => Err(*e),
        }
    }

    /// The id of our own connection to this server.
    pub fn get_own_connection_id(&self) -> (r: Result<ConnectionId, Error>)
        ensures
            r == self@.own_connection_id,
    {
        self.own_connection_id
    }


    /// Replace the visible connections by the given ones (an error while
    /// listing them leaves no connection visible).
    pub fn update_connections(&mut self, connections: Result<Vec<ConnectionData>, Error>)
        requires
            connections matches Ok(v) ==> forall|i: int|
                0 <= i < v.len() ==> #[trigger] v[i]@.server_id == old(self)@.id,
        ensures
            final(self)@ == (ServerView {
                connections: match connections {
                    Ok(v) => connection_map_of(v@.map_values(|c: ConnectionData| c@)),
                    Err(_) => Map::empty(),
                },
                ..old(self)@
            }),
    {
        proof {
            use_type_invariant(&*self);
        }
        let mut map: HashMap<u16, ConnectionData> = HashMap::new();
        if let Ok(v) = connections {
            let ghost views = v@.map_values(|c: ConnectionData| c@);
            let ghost sid = self.id;
            for c in it: v.into_iter()
                invariant
                    it.seq() == v@,
                    views == v@.map_values(|c: ConnectionData| c@),
                    forall|i: int| 0 <= i < v.len() ==> #[trigger] v[i]@.server_id == sid,
                    connection_views(map@) == connection_map_of(views.take(it.index() as int)),
                    forall|k: u16| #[trigger]
                        map@.contains_key(k) ==> map@[k]@.id.0 == k && map@[k]@.server_id == sid,
            {
                let ghost i = it.index();
                assert(views.take(i + 1).drop_last() =~= views.take(i as int));
                let key = c.id.0;
                map.insert(key, c);
                assert(connection_views(map@) =~= connection_map_of(views.take(i + 1)));
            }
            assert(views.take(v.len() as int) =~= views);
        } else {
            assert(connection_views(map@) =~= Map::empty());
        }
        self.visible_connections = map;
    }

    /// Replace the channels by the given ones, or by the error that listing
    /// them gave.
    pub fn update_channels(&mut self, channels: Result<Vec<ChannelData>, Error>)
        requires
            channels matches Ok(v) ==> forall|i: int|
                0 <= i < v.len() ==> #[trigger] v[i]@.server_id == old(self)@.id,
        ensures
            final(self)@ == (ServerView {
                channels: match channels {
                    Ok(v) => Ok(channel_map_of(v@.map_values(|c: ChannelData| c@))),
                    Err(e) => Err(e),
                },
                ..old(self)@
            }),
    {
        proof {
            use_type_invariant(&*self);
        }
        match channels {
            Ok(v) => {
                let mut map: HashMap<u64, ChannelData> = HashMap::new();
                let ghost views = v@.map_values(|c: ChannelData| c@);
                let ghost sid = self.id;
                assert(channel_views(map@) =~= channel_map_of(views.take(0)));
                for c in it: v.into_iter()
                    invariant
                        it.seq() == v@,
                        views == v@.map_values(|c: ChannelData| c@),
                        forall|i: int| 0 <= i < v.len() ==> #[trigger] v[i]@.server_id == sid,
                        channel_views(map@) == channel_map_of(views.take(it.index() as int)),
                        forall|k: u64| #[trigger]
                            map@.contains_key(k) ==> map@[k]@.id.0 == k && map@[k]@.server_id
                                == sid,
                {
                    let ghost i = it.index();
                    assert(views.take(i + 1).drop_last() =~= views.take(i as int));
                    let key = c.id.0;
                    map.insert(key, c);
                    assert(channel_views(map@) =~= channel_map_of(views.take(i + 1)));
                }
                assert(views.take(v.len() as int) =~= views);
                self.channels = Ok(map);
            },
            Err(e) => {
                self.channels = Err(e);
            },
        }
    }


    /// Make a connection visible, replacing the one with the same id.
    pub fn add_connection(&mut self, connection: ConnectionData)
        requires
            connection@.server_id == old(self)@.id,
        ensures
            final(self)@ == (ServerView {
                connections: old(self)@.connections.insert(connection@.id.0, connection@),
                ..old(self)@
            }),
    {
        proof {
            use_type_invariant(&*self);
        }
        let key = connection.id.0;
        let ghost cv = connection@;
        let mut map: HashMap<u16, ConnectionData> = HashMap::new();
        std::mem::swap(&mut map, &mut self.visible_connections);
        map.insert(key, connection);
        assert(connection_views(map@) =~= old(self)@.connections.insert(key, cv));
        self.visible_connections = map;
    }

    /// Remove a connection from the visible connections and return it.
    pub fn remove_connection(&mut self, connection_id: ConnectionId) -> (r: Option<ConnectionData>)
        ensures
            final(self)@ == (ServerView {
                connections: old(self)@.connections.remove(connection_id.0),
                ..old(self)@
            }),
            match r {
                Some(c) => old(self)@.connections.contains_key(connection_id.0) && c@
                    == old(self)@.connections[connection_id.0],
                None => !old(self)@.connections.contains_key(connection_id.0),
            },
    {
        proof {
            use_type_invariant(&*self);
        }
        let mut map: HashMap<u16, ConnectionData> = HashMap::new();
        std::mem::swap(&mut map, &mut self.visible_connections);
        let r = map.remove(&connection_id.0);
        assert(connection_views(map@) =~= old(self)@.connections.remove(connection_id.0));
        self.visible_connections = map;
        r
    }

    /// Add a channel, replacing the one with the same id. Fails with the
    /// stored error if the channels of this server could not be fetched.
    pub fn add_channel(&mut self, channel: ChannelData) -> (r: Result<(), Error>)
        requires
            channel@.server_id == old(self)@.id,
        ensures
            match old(self)@.channels {
                Ok(m) => r is Ok && final(self)@ == (ServerView {
                    channels: Ok(m.insert(channel@.id.0, channel@)),
                    ..old(self)@
                }),
                Err(e) => r == Err::<(), Error>(e) && final(self)@ == old(self)@,
            },
    {
        proof {
            use_type_invariant(&*self);
        }
        let mut channels: Result<HashMap<u64, ChannelData>, Error> = Err(Error(0));
        std::mem::swap(&mut channels, &mut self.channels);
        let r = match channels {
            Ok(mut cs) => {
                let key = channel.id.0;
                let ghost cv = channel@;
                let ghost old_m = channel_views(cs@);
                cs.insert(key, channel);
                assert(channel_views(cs@) =~= old_m.insert(key, cv));
                self.channels = Ok(cs);
                Ok(())
            },
            Err(e) => {
                self.channels = Err(e);
                Err(e)
            },
        };
        r
    }

    /// Remove a channel and return it.
    pub fn remove_channel(&mut self, channel_id: ChannelId) -> (r: Option<ChannelData>)
        ensures
            match old(self)@.channels {
                Ok(m) => final(self)@ == (ServerView {
                    channels: Ok(m.remove(channel_id.0)),
                    ..old(self)@
                }) && match r {
                    Some(c) => m.contains_key(channel_id.0) && c@ == m[channel_id.0],
                    None => !m.contains_key(channel_id.0),
                },
                Err(_) => r is None && final(self)@ == old(self)@,
            },
    {
        proof {
            use_type_invariant(&*self);
        }
        let mut channels: Result<HashMap<u64, ChannelData>, Error> = Err(Error(0));
        std::mem::swap(&mut channels, &mut self.channels);
        match channels {
            Ok(mut cs) => {
                let ghost old_m = channel_views(cs@);
                let r = cs.remove(&channel_id.0);
                assert(channel_views(cs@) =~= old_m.remove(channel_id.0));
                self.channels = Ok(cs);
                r
            },
            Err(e) => {
                self.channels = Err(e);
                None
            },
        }
    }

    /// Get the data of the visible connection with the given id.
    pub fn get_connection_data(&self, connection_id: ConnectionId) -> (r: Option<&ConnectionData>)
        ensures
            match r {
                Some(c) => self@.connections.contains_key(connection_id.0) && c@
                    == self@.connections[connection_id.0],
                None => !self@.connections.contains_key(connection_id.0),
            },
    {
        self.visible_connections.get(&connection_id.0)
    }

    /// Get the data of the channel with the given id.
    pub fn get_channel_data(&self, channel_id: ChannelId) -> (r: Option<&ChannelData>)
        ensures
            match r {
                Some(c) => self@.channels matches Ok(m) && m.contains_key(channel_id.0) && c@
                    == m[channel_id.0],
                None => !(self@.channels matches Ok(m) && m.contains_key(channel_id.0)),
            },
    {
        match &self.channels {
            Ok(cs) => cs.get(&channel_id.0),
            Err(_) => None,
        }
    }


    /// Record that a visible connection is now in another channel. Nothing
    /// changes if the connection is not visible.
    pub fn set_connection_channel(&mut self, connection_id: ConnectionId, channel_id: ChannelId)
        ensures
            final(self)@ == (ServerView {
                connections: if old(self)@.connections.contains_key(connection_id.0) {
                    old(self)@.connections.insert(
                        connection_id.0,
                        ConnectionView {
                            channel_id: Ok(channel_id),
                            ..old(self)@.connections[connection_id.0]
                        },
                    )
                } else {
                    old(self)@.connections
                },
                ..old(self)@
            }),
    {
        proof {
            use_type_invariant(&*self);
        }
        let mut map: HashMap<u16, ConnectionData> = HashMap::new();
        std::mem::swap(&mut map, &mut self.visible_connections);
        if let Some(mut c) = map.remove(&connection_id.0) {
            c.update_channel_id(Ok(channel_id));
            let ghost cv = c@;
            map.insert(connection_id.0, c);
            assert(connection_views(map@) =~= old(self)@.connections.insert(connection_id.0, cv));
        } else {
            assert(connection_views(map@) =~= old(self)@.connections);
        }
        self.visible_connections = map;
    }

    /// Record the talk status of a visible connection. Nothing changes if the
    /// connection is not visible.
    pub fn set_connection_talking(
        &mut self,
        connection_id: ConnectionId,
        talking: TalkStatus,
        whispering: bool,
    )
        ensures
            final(self)@ == (ServerView {
                connections: if old(self)@.connections.contains_key(connection_id.0) {
                    old(self)@.connections.insert(
                        connection_id.0,
                        ConnectionView {
                            talking: Ok(talking),
                            whispering: Ok(whispering),
                            ..old(self)@.connections[connection_id.0]
                        },
                    )
                } else {
                    old(self)@.connections
                },
                ..old(self)@
            }),
    {
        proof {
            use_type_invariant(&*self);
        }
        let mut map: HashMap<u16, ConnectionData> = HashMap::new();
        std::mem::swap(&mut map, &mut self.visible_connections);
        if let Some(mut c) = map.remove(&connection_id.0) {
            c.update_talking(Ok(talking));
            c.update_whispering(Ok(whispering));
            let ghost cv = c@;
            map.insert(connection_id.0, c);
            assert(connection_views(map@) =~= old(self)@.connections.insert(connection_id.0, cv));
        } else {
            assert(connection_views(map@) =~= old(self)@.connections);
        }
        self.visible_connections = map;
    }

    /// Take over the unique id and the name of an invoker into the visible
    /// connection with the same id, where they differ. Nothing changes if the
    /// connection is not visible.
    pub fn update_from_invoker(&mut self, invoker: &InvokerData)
        ensures
            final(self)@ == (ServerView {
                connections: if old(self)@.connections.contains_key(invoker@.id.0) {
                    old(self)@.connections.insert(
                        invoker@.id.0,
                        ConnectionView {
                            uid: Ok(invoker@.uid),
                            name: Ok(invoker@.name),
                            ..old(self)@.connections[invoker@.id.0]
                        },
                    )
                } else {
                    old(self)@.connections
                },
                ..old(self)@
            }),
    {
        proof {
            use_type_invariant(&*self);
        }
        let key = invoker.get_id().0;
        let mut map: HashMap<u16, ConnectionData> = HashMap::new();
        std::mem::swap(&mut map, &mut self.visible_connections);
        if let Some(mut c) = map.remove(&key) {
            let uid_differs = match c.get_uid() {
                Ok(uid) => *uid != *invoker.get_uid(),
                Err(_) => true,
            };
            if uid_differs {
                c.update_uid(Ok(invoker.get_uid().clone()));
            }
            let name_differs = match c.get_name() {
                Ok(name) => *name != *invoker.get_name(),
                Err(_) => true,
            };
            if name_differs {
                c.update_name(Ok(invoker.get_name().clone()));
            }
            let ghost cv = c@;
            assert(cv == ConnectionView {
                uid: Ok(invoker@.uid),
                name: Ok(invoker@.name),
                ..old(self)@.connections[key]
            });
            map.insert(key, c);
            assert(connection_views(map@) =~= old(self)@.connections.insert(key, cv));
        } else {
            assert(connection_views(map@) =~= old(self)@.connections);
        }
        self.visible_connections = map;
    }

    /// Record the new parent of a channel. Nothing changes if the channel is
    /// not known.
    pub fn set_channel_parent(&mut self, channel_id: ChannelId, parent_channel_id: ChannelId)
        ensures
            final(self)@ == (ServerView {
                channels: match old(self)@.channels {
                    Ok(m) => Ok(
                        if m.contains_key(channel_id.0) {
                            m.insert(
                                channel_id.0,
                                ChannelView {
                                    parent_channel_id: Ok(parent_channel_id),
                                    ..m[channel_id.0]
                                },
                            )
                        } else {
                            m
                        },
                    ),
                    Err(e) => Err(e),
                },
                ..old(self)@
            }),
    {
        proof {
            use_type_invariant(&*self);
        }
        let mut channels: Result<HashMap<u64, ChannelData>, Error> = Err(Error(0));
        std::mem::swap(&mut channels, &mut self.channels);
        match channels {
            Ok(mut cs) => {
                let ghost old_m = channel_views(cs@);
                if let Some(mut c) = cs.remove(&channel_id.0) {
                    c.update_parent_channel_id(Ok(parent_channel_id));
                    let ghost cv = c@;
                    cs.insert(channel_id.0, c);
                    assert(channel_views(cs@) =~= old_m.insert(channel_id.0, cv));
                } else {
                    assert(channel_views(cs@) =~= old_m);
                }
                self.channels = Ok(cs);
            },
            Err(e) => {
                self.channels = Err(e);
            },
        }
    }

    /// Record the (re-)fetched description of a channel. Nothing changes if
    /// the channel is not known.
    pub fn set_channel_description(&mut self, channel_id: ChannelId, description: Result<String, Error>)
        ensures
            final(self)@ == (ServerView {
                channels: match old(self)@.channels {
                    Ok(m) => Ok(
                        if m.contains_key(channel_id.0) {
                            m.insert(
                                channel_id.0,
                                ChannelView {
                                    description: str_result(description),
                                    ..m[channel_id.0]
                                },
                            )
                        } else {
                            m
                        },
                    ),
                    Err(e) => Err(e),
                },
                ..old(self)@
            }),
    {
        proof {
            use_type_invariant(&*self);
        }
        let mut channels: Result<HashMap<u64, ChannelData>, Error> = Err(Error(0));
        std::mem::swap(&mut channels, &mut self.channels);
        match channels {
            Ok(mut cs) => {
                let ghost old_m = channel_views(cs@);
                if let Some(mut c) = cs.remove(&channel_id.0) {
                    c.update_description(description);
                    let ghost cv = c@;
                    cs.insert(channel_id.0, c);
                    assert(channel_views(cs@) =~= old_m.insert(channel_id.0, cv));
                } else {
                    assert(channel_views(cs@) =~= old_m);
                }
                self.channels = Ok(cs);
            },
            Err(e) => {
                self.channels = Err(e);
            },
        }
    }

    pub fn update_uid(&mut self, value: Result<String, Error>)
        ensures
            final(self)@ == (ServerView { uid: str_result(value), ..old(self)@ }),
    {
        proof {
            use_type_invariant(&*self);
        }
        self.uid = value;
    }

    pub fn update_name(&mut self, value: Result<String, Error>)
        ensures
            final(self)@ == (ServerView { name: str_result(value), ..old(self)@ }),
    {
        proof {
            use_type_invariant(&*self);
        }
        self.name = value;
    }

    pub fn update_own_connection_id(&mut self, value: Result<ConnectionId, Error>)
        ensures
            final(self)@ == (ServerView { own_connection_id: value, ..old(self)@ }),
    {
        proof {
            use_type_invariant(&*self);
        }
        self.own_connection_id = value;
    }
}


// ******************** TsApi ********************

/// The main struct that contains all permanently saved data.
pub struct TsApi {
    /// All known servers, by server id.
    servers: HashMap<u64, ServerData>,
    /// The plugin id from TeamSpeak.
    plugin_id: String,
}

/// What a `TsApi` holds.
pub struct TsApiView {
    pub servers: Map<u64, ServerView>,
    pub plugin_id: Seq<char>,
}

impl TsApiView {
    /// Every server is stored under its own id and is well formed.
    pub open spec fn wf(self) -> bool {
        forall|k: u64| #[trigger]
            self.servers.contains_key(k) ==> self.servers[k].id.0 == k && self.servers[k].wf()
    }
}

/// The views of the servers in a map.
pub open spec fn server_views(m: Map<u64, ServerData>) -> Map<u64, ServerView> {
    m.map_values(|s: ServerData| s@)
}

impl View for TsApi {
    type V = TsApiView;

    closed spec fn view(&self) -> TsApiView {
        TsApiView { servers: server_views(self.servers@), plugin_id: self.plugin_id@ }
    }
}

/// The ids of the server tabs whose connection status could be read and is
/// not `Disconnected`, in order.
pub open spec fn connected_handlers(handlers: Seq<(ServerId, Result<ConnectStatus, Error>)>) -> Seq<ServerId>
    decreases handlers.len(),
{
    if handlers.len() == 0 {
        Seq::empty()
    } else {
        let rest = connected_handlers(handlers.drop_last());
        let last = handlers.last();
        if last.1 matches Ok(status) && status != ConnectStatus::Disconnected {
            rest.push(last.0)
        } else {
            rest
        }
    }
}

impl TsApi {
    #[verifier::type_invariant]
    closed spec fn inv(self) -> bool {
        self@.wf()
    }

    /// Create a new TsApi instance without loading anything.
    pub fn new(plugin_id: String) -> (r: TsApi)
        ensures
            r@.servers == Map::<u64, ServerView>::empty(),
            r@.plugin_id == plugin_id@,
    {
        let r = TsApi { servers: HashMap::new(), plugin_id };
        assert(r@.servers =~= Map::<u64, ServerView>::empty());
        r
    }

    /// The invariant of this api holds.
    pub fn is_well_formed(&self) -> (b: bool)
        ensures
            b,
            self@.wf(),
    {
        proof {
            use_type_invariant(self);
        }
        true
    }

    /// Of the server tabs that TeamSpeak lists, with the connection status
    /// that could be read of each, the ones that are connected and have to be
    /// loaded (open tabs are listed even when they are disconnected).
    pub fn servers_to_load(handlers: &Vec<(ServerId, Result<ConnectStatus, Error>)>) -> (r: Vec<ServerId>)
        ensures
            r@ == connected_handlers(handlers@),
    {
        let mut r: Vec<ServerId> = Vec::new();
        let mut i: usize = 0;
        while i < handlers.len()
            invariant
                i <= handlers.len(),
                r@ == connected_handlers(handlers@.take(i as int)),
            decreases handlers.len() - i,
        {
            assert(handlers@.take(i + 1).drop_last() =~= handlers@.take(i as int));
            let (id, status) = handlers[i];
            match status {
                Ok(s) => {
                    if s != ConnectStatus::Disconnected {
                        r.push(id);
                    }
                },
                Err(_) => {},
            }
            i = i + 1;
        }
        assert(handlers@.take(handlers.len() as int) =~= handlers@);
        r
    }

    /// Add a server to the server list (replacing the one with the same id).
    pub fn add_server(&mut self, server: ServerData)
        ensures
            final(self)@ == (TsApiView {
                servers: old(self)@.servers.insert(server@.id.0, server@),
                ..old(self)@
            }),
    {
        proof {
            use_type_invariant(&*self);
            use_type_invariant(&server);
        }
        let key = server.id.0;
        let ghost sv = server@;
        let mut map: HashMap<u64, ServerData> = HashMap::new();
        std::mem::swap(&mut map, &mut self.servers);
        map.insert(key, server);
        assert(server_views(map@) =~= old(self)@.servers.insert(key, sv));
        self.servers = map;
    }

    /// Remove a server from the server list and return it.
    pub fn remove_server(&mut self, server_id: ServerId) -> (r: Option<ServerData>)
        ensures
            final(self)@ == (TsApiView {
                servers: old(self)@.servers.remove(server_id.0),
                ..old(self)@
            }),
            match r {
                Some(s) => old(self)@.servers.contains_key(server_id.0) && s@
                    == old(self)@.servers[server_id.0],
                None => !old(self)@.servers.contains_key(server_id.0),
            },
    {
        proof {
            use_type_invariant(&*self);
        }
        let mut map: HashMap<u64, ServerData> = HashMap::new();
        std::mem::swap(&mut map, &mut self.servers);
        let r = map.remove(&server_id.0);
        assert(server_views(map@) =~= old(self)@.servers.remove(server_id.0));
        self.servers = map;
        r
    }

    /// Get the plugin id assigned by TeamSpeak.
    pub fn get_plugin_id(&self) -> (r: &str)
        ensures
            r@ == self@.plugin_id,
    {
        self.plugin_id.as_str()
    }

    /// Get the data of the server with the given id.
    pub fn get_server_data(&self, server_id: ServerId) -> (r: Option<&ServerData>)
        ensures
            match r {
                Some(s) => self@.servers.contains_key(server_id.0) && s@
                    == self@.servers[server_id.0],
                None => !self@.servers.contains_key(server_id.0),
            },
    {
        self.servers.get(&server_id.0)
    }

    /// Update the data of a connection with the data from the same connection
    /// as an invoker if possible.
    pub fn try_update_invoker(&mut self, server_id: ServerId, invoker: &InvokerData)
        ensures
            final(self)@ == (TsApiView {
                servers: if old(self)@.servers.contains_key(server_id.0) {
                    old(self)@.servers.insert(
                        server_id.0,
                        invoker_applied(old(self)@.servers[server_id.0], invoker@),
                    )
                } else {
                    old(self)@.servers
                },
                ..old(self)@
            }),
    {
        proof {
            use_type_invariant(&*self);
        }
        if let Some(mut server) = self.remove_server(server_id) {
            server.update_from_invoker(invoker);
            self.add_server(server);
            assert(self@.servers =~= old(self)@.servers.insert(
                server_id.0,
                invoker_applied(old(self)@.servers[server_id.0], invoker@),
            ));
        } else {
            assert(self@.servers =~= old(self)@.servers);
        }
    }

    /// Get the server that has the specified id, returns `None` if there is no
    /// such server.
    pub fn get_server(&self, server_id: ServerId) -> (r: Option<Server<'_>>)
        ensures
            match r {
                Some(s) => self@.servers.contains_key(server_id.0) && s@ == server_ref(
                    self@,
                    server_id,
                ),
                None => !self@.servers.contains_key(server_id.0),
            },
    {
        proof {
            use_type_invariant(self);
        }
        match self.servers.get(&server_id.0) {
            Some(s) => Some(Server::new(self, s)),
            None => None,
        }
    }

    /// Get the server with the given id; a server that is not known gives a
    /// handle without data.
    fn get_server_unwrap(&self, server_id: ServerId) -> (r: Server<'_>)
        ensures
            r@ == server_ref(self@, server_id),
    {
        proof {
            use_type_invariant(self);
        }
        match self.servers.get(&server_id.0) {
            Some(s) => Server::new(self, s),
            None => Server::new_err(self, server_id),
        }
    }

    /// Get all servers to which this client is currently connected.
    pub fn get_servers(&self) -> (r: Vec<Server<'_>>)
        ensures
            r.len() == self@.servers.len(),
            forall|i: int| #![trigger r[i]]
                0 <= i < r.len() ==> self@.servers.contains_key(r[i]@.id.0) && r[i]@ == server_ref(
                    self@,
                    r[i]@.id,
                ),
            forall|k: u64| #[trigger]
                self@.servers.contains_key(k) ==> exists|i: int|
                    0 <= i < r.len() && r[i]@.id.0 == k,
    {
        proof {
            use_type_invariant(self);
        }
        let mut r: Vec<Server<'_>> = Vec::new();
        let ghost all = vstd::std_specs::hash::spec_values_iter(&self.servers).remaining();
        proof {
            assert(all.unref().to_set() == self.servers@.values());
        }
        for s in it: self.servers.values()
            invariant
                all == vstd::std_specs::hash::spec_values_iter(&self.servers).remaining(),
                all.unref().to_set() == self.servers@.values(),
                it.seq() == all,
                r.len() == it.index(),
                self@.wf(),
                forall|i: int| #![trigger r[i]]
                    0 <= i < r.len() ==> r[i]@ == server_ref(self@, all[i]@.id)
                        && self@.servers.contains_key(all[i]@.id.0),
        {
            proof {
                let k = lemma_walked_value(self.servers@, all, it.index() as int);
                assert(self@.servers.contains_key(k));
            }
            r.push(Server::new(self, s));
        }
        proof {
            assert forall|k: u64| #[trigger] self@.servers.contains_key(k) implies exists|i: int|
                0 <= i < r.len() && r[i]@.id.0 == k by {
                let j = lemma_walk_meets(self.servers@, all, k);
                assert(r[j]@.id.0 == k);
            }
            assert(self@.servers.dom() == self.servers@.dom());
        }
        r
    }

    /// Get a permission (carries no data yet).
    pub fn get_permission(&self, _permission_id: PermissionId) -> (r: Option<Permission>)
        ensures
            r is Some,
    {
        Some(Permission {})
    }
}

/// A server after the identity of an invoker was taken over into its
/// connections.
pub open spec fn invoker_applied(s: ServerView, invoker: InvokerView) -> ServerView {
    ServerView {
        connections: if s.connections.contains_key(invoker.id.0) {
            s.connections.insert(
                invoker.id.0,
                ConnectionView {
                    uid: Ok(invoker.uid),
                    name: Ok(invoker.name),
                    ..s.connections[invoker.id.0]
                },
            )
        } else {
            s.connections
        },
        ..s
    }
}

// ******************** Handles ********************

/// What a `Server` handle refers to: the api, the server id and the data of
/// the server, if the api knows it.
pub struct ServerRefView {
    pub api: TsApiView,
    pub id: ServerId,
    pub data: Option<ServerView>,
}

/// What a `Channel` handle refers to.
pub struct ChannelRefView {
    pub api: TsApiView,
    pub server_id: ServerId,
    pub id: ChannelId,
    pub data: Option<ChannelView>,
}

/// What a `Connection` handle refers to.
pub struct ConnectionRefView {
    pub api: TsApiView,
    pub server_id: ServerId,
    pub id: ConnectionId,
    pub data: Option<ConnectionView>,
}

/// The handle of the server with the given id in an api.
pub open spec fn server_ref(api: TsApiView, id: ServerId) -> ServerRefView {
    ServerRefView {
        api,
        id,
        data: if api.servers.contains_key(id.0) {
            Some(api.servers[id.0])
        } else {
            None
        },
    }
}

/// The data of a channel on a server of an api, if the api knows it.
pub open spec fn lookup_channel(api: TsApiView, server_id: ServerId, id: ChannelId) -> Option<ChannelView> {
    if api.servers.contains_key(server_id.0) && api.servers[server_id.0].channels is Ok
        && api.servers[server_id.0].channels->Ok_0.contains_key(id.0) {
        Some(api.servers[server_id.0].channels->Ok_0[id.0])
    } else {
        None
    }
}

/// The data of a visible connection on a server of an api, if the api knows it.
pub open spec fn lookup_connection(api: TsApiView, server_id: ServerId, id: ConnectionId) -> Option<ConnectionView> {
    if api.servers.contains_key(server_id.0) && api.servers[server_id.0].connections.contains_key(
        id.0,
    ) {
        Some(api.servers[server_id.0].connections[id.0])
    } else {
        None
    }
}

/// The handle of the channel with the given id on a server of an api.
pub open spec fn channel_ref(api: TsApiView, server_id: ServerId, id: ChannelId) -> ChannelRefView {
    ChannelRefView { api, server_id, id, data: lookup_channel(api, server_id, id) }
}

/// The handle of the connection with the given id on a server of an api.
pub open spec fn connection_ref(api: TsApiView, server_id: ServerId, id: ConnectionId) -> ConnectionRefView {
    ConnectionRefView { api, server_id, id, data: lookup_connection(api, server_id, id) }
}

/// A server as seen through the api. It may carry no data if the server is
/// not (or no longer) known.
#[derive(Clone, Copy)]
pub struct Server<'a> {
    api: &'a TsApi,
    data: Result<&'a ServerData, ServerId>,
}

impl<'a> View for Server<'a> {
    type V = ServerRefView;

    closed spec fn view(&self) -> ServerRefView {
        ServerRefView {
            api: self.api@,
            id: match self.data {
                Ok(d) => d@.id,
                Err(id) => id,
            },
            data: match self.data {
                Ok(d) => Some(d@),
                Err(_) => None,
            },
        }
    }
}


impl<'a> Server<'a> {
    #[verifier::type_invariant]
    closed spec fn inv(self) -> bool {
        &&& self.api@.wf()
        &&& self@ == server_ref(self.api@, self@.id)
    }

    fn new(api: &'a TsApi, data: &'a ServerData) -> (r: Server<'a>)
        requires
            api@.wf(),
            api@.servers.contains_key(data@.id.0),
            api@.servers[data@.id.0] == data@,
        ensures
            r@ == server_ref(api@, data@.id),
    {
        Server { api, data: Ok(data) }
    }

    fn new_err(api: &'a TsApi, server_id: ServerId) -> (r: Server<'a>)
        requires
            api@.wf(),
            !api@.servers.contains_key(server_id.0),
        ensures
            r@ == server_ref(api@, server_id),
    {
        Server { api, data: Err(server_id) }
    }

    /// The handle refers to what the api holds.
    pub fn is_well_formed(&self) -> (b: bool)
        ensures
            b,
            self@.api.wf(),
            self@ == server_ref(self@.api, self@.id),
    {
        proof {
            use_type_invariant(self);
        }
        true
    }

    pub fn get_id(&self) -> (r: ServerId)
        ensures
            r == self@.id,
    {
        match self.data {
            Ok(data) => data.get_id(),
            Err(id) => id,
        }
    }

    /// The api through which this server is seen.
    pub fn get_api(&self) -> (r: &'a TsApi)
        ensures
            r@ == self@.api,
    {
        self.api
    }

    /// The data of this server, if the api knows the server.
    pub fn get_data(&self) -> (r: Option<&'a ServerData>)
        ensures
            match r {
                Some(d) => self@.data == Some(d@),
                None => self@.data is None,
            },
    {
        match self.data {
            Ok(data) => Some(data),
            Err(_) => None,
        }
    }

    /// Get the connection on this server that has the specified id, returns
    /// `None` if there is no such connection.
    pub fn get_connection(&self, connection_id: ConnectionId) -> (r: Option<Connection<'a>>)
        ensures
            match r {
                Some(c) => lookup_connection(self@.api, self@.id, connection_id) is Some && c@
                    == connection_ref(self@.api, self@.id, connection_id),
                None => lookup_connection(self@.api, self@.id, connection_id) is None,
            },
    {
        proof {
            use_type_invariant(self);
        }
        match self.data {
            Ok(data) => match data.get_connection_data(connection_id) {
                Some(c) => Some(Connection::new(self.api, c)),
                None => None,
            },
            Err(_) => None,
        }
    }

    /// Get the channel on this server that has the specified id, returns
    /// `None` if there is no such channel.
    pub fn get_channel(&self, channel_id: ChannelId) -> (r: Option<Channel<'a>>)
        ensures
            match r {
                Some(c) => lookup_channel(self@.api, self@.id, channel_id) is Some && c@
                    == channel_ref(self@.api, self@.id, channel_id),
                None => lookup_channel(self@.api, self@.id, channel_id) is None,
            },
    {
        proof {
            use_type_invariant(self);
        }
        match self.data {
            Ok(data) => match data.get_channel_data(channel_id) {
                Some(c) => Some(Channel::new(self.api, c)),
                None => None,
            },
            Err(_) => None,
        }
    }

    /// Get the connection with the given id; one that is not visible gives a
    /// handle without data.
    fn get_connection_unwrap(&self, connection_id: ConnectionId) -> (r: Connection<'a>)
        ensures
            r@ == connection_ref(self@.api, self@.id, connection_id),
    {
        proof {
            use_type_invariant(self);
        }
        match self.get_connection(connection_id) {
            Some(c) => c,
            None => Connection::new_err(self.api, self.get_id(), connection_id),
        }
    }

    /// Get the channel with the given id; one that is not known gives a
    /// handle without data.
    fn get_channel_unwrap(&self, channel_id: ChannelId) -> (r: Channel<'a>)
        ensures
            r@ == channel_ref(self@.api, self@.id, channel_id),
    {
        proof {
            use_type_invariant(self);
        }
        match self.get_channel(channel_id) {
            Some(c) => c,
            None => Channel::new_owned(self.api, self.get_id(), channel_id),
        }
    }

    fn get_server_group_unwrap(&self, server_group_id: ServerGroupId) -> (r: ServerGroup) {
        match self.get_server_group(server_group_id) {
            Some(g) => g,
            None => ServerGroup {},
        }
    }

    fn get_channel_group_unwrap(&self, channel_group_id: ChannelGroupId) -> (r: ChannelGroup) {
        match self.get_channel_group(channel_group_id) {
            Some(g) => g,
            None => ChannelGroup {},
        }
    }

    /// Get the own connection to the server. Fails with `Error(0)` if the
    /// server is not known, and with the stored error if our own connection
    /// id could not be fetched.
    pub fn get_own_connection(&self) -> (r: Result<Connection<'a>, Error>)
        ensures
            match self@.data {
                Some(d) => match d.own_connection_id {
                    Ok(id) => r matches Ok(c) && c@ == connection_ref(self@.api, self@.id, id),
                    Err(e) => r == Err::<Connection<'a>, Error>(e),
                },
                None => r == Err::<Connection<'a>, Error>(Error(0)),
            },
    {
        match self.data {
            Ok(data) => match data.get_own_connection_id() {
                Ok(id) => Ok(self.get_connection_unwrap(id)),
                Err(e) => Err(e),
            },
            Err(_) => Err(Error(0)),
        }
    }

    /// Get all visible connections on this server.
    pub fn get_connections(&self) -> (r: Vec<Connection<'a>>)
        ensures
            match self@.data {
                Some(d) => {
                    &&& r.len() == d.connections.len()
                    &&& forall|i: int| #![trigger r[i]]
                        0 <= i < r.len() ==> d.connections.contains_key(r[i]@.id.0) && r[i]@
                            == connection_ref(self@.api, self@.id, r[i]@.id)
                    &&& forall|k: u16| #[trigger]
                        d.connections.contains_key(k) ==> exists|i: int|
                            0 <= i < r.len() && r[i]@.id.0 == k
                },
                None => r.len() == 0,
            },
    {
        proof {
            use_type_invariant(self);
        }
        let mut r: Vec<Connection<'a>> = Vec::new();
        match self.data {
            Ok(data) => {
                let ghost m = data.visible_connections@;
                let ghost all = vstd::std_specs::hash::spec_values_iter(&data.visible_connections).remaining();
                let ghost sid = self@.id;
                let ghost api = self.api@;
                proof {
                    assert(all.unref().to_set() == m.values());
                    assert(api.servers[sid.0] == data@);
                }
                for c in it: data.visible_connections.values()
                    invariant
                        all == vstd::std_specs::hash::spec_values_iter(&data.visible_connections).remaining(),
                        all.unref().to_set() == m.values(),
                        m == data.visible_connections@,
                        it.seq() == all,
                        r.len() == it.index(),
                        api == self.api@,
                        api.wf(),
                        api.servers.contains_key(sid.0),
                        api.servers[sid.0] == data@,
                        data@.id == sid,
                        forall|i: int| #![trigger r[i]]
                            0 <= i < r.len() ==> r[i]@ == connection_ref(api, sid, all[i]@.id)
                                && data@.connections.contains_key(all[i]@.id.0),
                {
                    proof {
                        let k = lemma_walked_value(m, all, it.index() as int);
                        assert(data@.connections.contains_key(k));
                        assert(data@.connections[k] == m[k]@);
                    }
                    r.push(Connection::new(self.api, c));
                }
                proof {
                    assert forall|k: u16| #[trigger] data@.connections.contains_key(k) implies exists|i: int|
                        0 <= i < r.len() && r[i]@.id.0 == k by {
                        assert(m.contains_key(k));
                        let j = lemma_walk_meets(m, all, k);
                        assert(data@.connections[k] == m[k]@);
                        assert(r[j]@.id.0 == k);
                    }
                    assert(data@.connections.dom() == m.dom());
                }
            },
            Err(_) => {},
        }
        r
    }

    /// Get all channels on this server (none if they could not be fetched).
    pub fn get_channels(&self) -> (r: Vec<Channel<'a>>)
        ensures
            match self@.data {
                Some(d) => match d.channels {
                    Ok(cs) => {
                        &&& r.len() == cs.len()
                        &&& forall|i: int| #![trigger r[i]]
                            0 <= i < r.len() ==> cs.contains_key(r[i]@.id.0) && r[i]@
                                == channel_ref(self@.api, self@.id, r[i]@.id)
                        &&& forall|k: u64| #[trigger]
                            cs.contains_key(k) ==> exists|i: int|
                                0 <= i < r.len() && r[i]@.id.0 == k
                    },
                    Err(_) => r.len() == 0,
                },
                None => r.len() == 0,
            },
    {
        proof {
            use_type_invariant(self);
        }
        let mut r: Vec<Channel<'a>> = Vec::new();
        match self.data {
            Ok(data) => match &data.channels {
                Ok(cs) => {
                    let ghost m = cs@;
                    let ghost all = vstd::std_specs::hash::spec_values_iter(cs).remaining();
                    let ghost sid = self@.id;
                    let ghost api = self.api@;
                    let ghost views = channel_views(m);
                    proof {
                        assert(all.unref().to_set() == m.values());
                        assert(api.servers[sid.0] == data@);
                        assert(data@.channels == Ok::<Map<u64, ChannelView>, Error>(views));
                    }
                    for c in it: cs.values()
                        invariant
                            all == vstd::std_specs::hash::spec_values_iter(cs).remaining(),
                            all.unref().to_set() == m.values(),
                            m == cs@,
                            views == channel_views(m),
                            it.seq() == all,
                            r.len() == it.index(),
                            api == self.api@,
                            api.wf(),
                            api.servers.contains_key(sid.0),
                            api.servers[sid.0] == data@,
                            data@.channels == Ok::<Map<u64, ChannelView>, Error>(views),
                            data@.id == sid,
                            forall|i: int| #![trigger r[i]]
                                0 <= i < r.len() ==> r[i]@ == channel_ref(api, sid, all[i]@.id)
                                    && views.contains_key(all[i]@.id.0),
                    {
                        proof {
                            let k = lemma_walked_value(m, all, it.index() as int);
                            assert(views.contains_key(k));
                            assert(views[k] == m[k]@);
                        }
                        r.push(Channel::new(self.api, c));
                    }
                    proof {
                        assert forall|k: u64| #[trigger] views.contains_key(k) implies exists|i: int|
                            0 <= i < r.len() && r[i]@.id.0 == k by {
                            assert(m.contains_key(k));
                            let j = lemma_walk_meets(m, all, k);
                            assert(views[k] == m[k]@);
                            assert(r[j]@.id.0 == k);
                        }
                        assert(views.dom() == m.dom());
                    }
                },
                Err(_) => {},
            },
            Err(_) => {},
        }
        r
    }

    /// Get a server group (carries no data yet).
    pub fn get_server_group(&self, _server_group_id: ServerGroupId) -> (r: Option<ServerGroup>)
        ensures
            r is Some,
    {
        Some(ServerGroup {})
    }

    /// Get a channel group (carries no data yet).
    pub fn get_channel_group(&self, _channel_group_id: ChannelGroupId) -> (r: Option<ChannelGroup>)
        ensures
            r is Some,
    {
        Some(ChannelGroup {})
    }

    /// Two handles are equal if they refer to the same server id.
    pub fn same_as(&self, other: &Server) -> (r: bool)
        ensures
            r == (self@.id == other@.id),
    {
        self.get_id() == other.get_id()
    }
}


/// A channel as seen through the api. It may carry no data if the channel is
/// not (or no longer) known.
#[derive(Clone, Copy)]
pub struct Channel<'a> {
    api: &'a TsApi,
    data: Result<&'a ChannelData, (ServerId, ChannelId)>,
}

impl<'a> View for Channel<'a> {
    type V = ChannelRefView;

    closed spec fn view(&self) -> ChannelRefView {
        ChannelRefView {
            api: self.api@,
            server_id: match self.data {
                Ok(d) => d@.server_id,
                Err((s, _)) => s,
            },
            id: match self.data {
                Ok(d) => d@.id,
                Err((_, c)) => c,
            },
            data: match self.data {
                Ok(d) => Some(d@),
                Err(_) => None,
            },
        }
    }
}

impl<'a> Channel<'a> {
    #[verifier::type_invariant]
    closed spec fn inv(self) -> bool {
        &&& self.api@.wf()
        &&& self@ == channel_ref(self.api@, self@.server_id, self@.id)
    }

    fn new(api: &'a TsApi, data: &'a ChannelData) -> (r: Channel<'a>)
        requires
            api@.wf(),
            lookup_channel(api@, data@.server_id, data@.id) == Some(data@),
        ensures
            r@ == channel_ref(api@, data@.server_id, data@.id),
    {
        Channel { api, data: Ok(data) }
    }

    fn new_owned(api: &'a TsApi, server_id: ServerId, channel_id: ChannelId) -> (r: Channel<'a>)
        requires
            api@.wf(),
            lookup_channel(api@, server_id, channel_id) is None,
        ensures
            r@ == channel_ref(api@, server_id, channel_id),
    {
        Channel { api, data: Err((server_id, channel_id)) }
    }

    /// The handle refers to what the api holds.
    pub fn is_well_formed(&self) -> (b: bool)
        ensures
            b,
            self@.api.wf(),
            self@ == channel_ref(self@.api, self@.server_id, self@.id),
    {
        proof {
            use_type_invariant(self);
        }
        true
    }

    /// The id of the server of this channel.
    pub fn get_server_id(&self) -> (r: ServerId)
        ensures
            r == self@.server_id,
    {
        match self.data {
            Ok(data) => data.get_server_id(),
            Err((server_id, _)) => server_id,
        }
    }

    pub fn get_id(&self) -> (r: ChannelId)
        ensures
            r == self@.id,
    {
        match self.data {
            Ok(data) => data.get_id(),
            Err((_, channel_id)) => channel_id,
        }
    }

    /// The data of this channel, if the api knows the channel.
    pub fn get_data(&self) -> (r: Option<&'a ChannelData>)
        ensures
            match r {
                Some(d) => self@.data == Some(d@),
                None => self@.data is None,
            },
    {
        match self.data {
            Ok(data) => Some(data),
            Err(_) => None,
        }
    }

    /// Get the server of this channel.
    pub fn get_server(&self) -> (r: Server<'a>)
        ensures
            r@ == server_ref(self@.api, self@.server_id),
    {
        self.api.get_server_unwrap(self.get_server_id())
    }

    /// Get the parent channel: `None` if the parent channel id is 0. Fails
    /// with `Error(0)` if the channel is not known and with the stored error
    /// if its parent could not be fetched.
    pub fn get_parent_channel(&self) -> (r: Result<Option<Channel<'a>>, Error>)
        ensures
            match self@.data {
                Some(d) => match d.parent_channel_id {
                    Ok(p) => if p.0 == 0 {
                        r == Ok::<Option<Channel<'a>>, Error>(None)
                    } else {
                        r matches Ok(Some(c)) && c@ == channel_ref(self@.api, self@.server_id, p)
                    },
                    Err(e) => r == Err::<Option<Channel<'a>>, Error>(e),
                },
                None => r == Err::<Option<Channel<'a>>, Error>(Error(0)),
            },
    {
        match self.data {
            Ok(data) => match data.get_parent_channel_id() {
                Ok(parent_channel_id) => {
                    if parent_channel_id.0 == 0 {
                        Ok(None)
                    } else {
                        Ok(Some(self.get_server().get_channel_unwrap(parent_channel_id)))
                    }
                },
                Err(e) => Err(e),
            },
            Err(_) => Err(Error(0)),
        }
    }

    /// Two handles are equal if they refer to the same channel on the same
    /// server.
    pub fn same_as(&self, other: &Channel) -> (r: bool)
        ensures
            r == (self@.server_id == other@.server_id && self@.id == other@.id),
    {
        self.get_server_id() == other.get_server_id() && self.get_id() == other.get_id()
    }
}

/// A connection as seen through the api. It may carry no data if the
/// connection is not (or no longer) visible.
#[derive(Clone, Copy)]
pub struct Connection<'a> {
    api: &'a TsApi,
    data: Result<&'a ConnectionData, (ServerId, ConnectionId)>,
}

impl<'a> View for Connection<'a> {
    type V = ConnectionRefView;

    closed spec fn view(&self) -> ConnectionRefView {
        ConnectionRefView {
            api: self.api@,
            server_id: match self.data {
                Ok(d) => d@.server_id,
                Err((s, _)) => s,
            },
            id: match self.data {
                Ok(d) => d@.id,
                Err((_, c)) => c,
            },
            data: match self.data {
                Ok(d) => Some(d@),
                Err(_) => None,
            },
        }
    }
}

impl<'a> Connection<'a> {
    #[verifier::type_invariant]
    closed spec fn inv(self) -> bool {
        &&& self.api@.wf()
        &&& self@ == connection_ref(self.api@, self@.server_id, self@.id)
    }

    fn new(api: &'a TsApi, data: &'a ConnectionData) -> (r: Connection<'a>)
        requires
            api@.wf(),
            lookup_connection(api@, data@.server_id, data@.id) == Some(data@),
        ensures
            r@ == connection_ref(api@, data@.server_id, data@.id),
    {
        Connection { api, data: Ok(data) }
    }

    fn new_err(api: &'a TsApi, server_id: ServerId, connection_id: ConnectionId) -> (r: Connection<'a>)
        requires
            api@.wf(),
            lookup_connection(api@, server_id, connection_id) is None,
        ensures
            r@ == connection_ref(api@, server_id, connection_id),
    {
        Connection { api, data: Err((server_id, connection_id)) }
    }

    /// The handle refers to what the api holds.
    pub fn is_well_formed(&self) -> (b: bool)
        ensures
            b,
            self@.api.wf(),
            self@ == connection_ref(self@.api, self@.server_id, self@.id),
    {
        proof {
            use_type_invariant(self);
        }
        true
    }

    /// The id of the server of this connection.
    pub fn get_server_id(&self) -> (r: ServerId)
        ensures
            r == self@.server_id,
    {
        match self.data {
            Ok(data) => data.get_server_id(),
            Err((server_id, _)) => server_id,
        }
    }

    pub fn get_id(&self) -> (r: ConnectionId)
        ensures
            r == self@.id,
    {
        match self.data {
            Ok(data) => data.get_id(),
            Err((_, connection_id)) => connection_id,
        }
    }

    /// The data of this connection, if it is visible.
    pub fn get_data(&self) -> (r: Option<&'a ConnectionData>)
        ensures
            match r {
                Some(d) => self@.data == Some(d@),
                None => self@.data is None,
            },
    {
        match self.data {
            Ok(data) => Some(data),
            Err(_) => None,
        }
    }

    /// Get the server of this connection.
    pub fn get_server(&self) -> (r: Server<'a>)
        ensures
            r@ == server_ref(self@.api, self@.server_id),
    {
        self.api.get_server_unwrap(self.get_server_id())
    }

    /// Get the channel of this connection. Fails with `Error(0)` if the
    /// connection is not visible and with the stored error if its channel
    /// could not be fetched.
    pub fn get_channel(&self) -> (r: Result<Channel<'a>, Error>)
        ensures
            match self@.data {
                Some(d) => match d.channel_id {
                    Ok(c) => r matches Ok(ch) && ch@ == channel_ref(self@.api, self@.server_id, c),
                    Err(e) => r == Err::<Channel<'a>, Error>(e),
                },
                None => r == Err::<Channel<'a>, Error>(Error(0)),
            },
    {
        match self.data {
            Ok(data) => match data.get_channel_id() {
                Ok(c) => Ok(self.get_server().get_channel_unwrap(c)),
                Err(e) => Err(e),
            },
            Err(_) => Err(Error(0)),
        }
    }

    /// Get the channel that sets the current channel group of this
    /// connection. Fails like `get_channel`.
    pub fn get_channel_group_inherited_channel(&self) -> (r: Result<Channel<'a>, Error>)
        ensures
            match self@.data {
                Some(d) => match d.channel_group_inherited_channel_id {
                    Ok(c) => r matches Ok(ch) && ch@ == channel_ref(self@.api, self@.server_id, c),
                    Err(e) => r == Err::<Channel<'a>, Error>(e),
                },
                None => r == Err::<Channel<'a>, Error>(Error(0)),
            },
    {
        match self.data {
            Ok(data) => match data.get_channel_group_inherited_channel_id() {
                Ok(c) => Ok(self.get_server().get_channel_unwrap(c)),
                Err(e) => Err(e),
            },
            Err(_) => Err(Error(0)),
        }
    }

    /// Two handles are equal if they refer to the same connection on the
    /// same server.
    pub fn same_as(&self, other: &Connection) -> (r: bool)
        ensures
            r == (self@.server_id == other@.server_id && self@.id == other@.id),
    {
        self.get_server_id() == other.get_server_id() && self.get_id() == other.get_id()
    }
}

/// The invoker of an event. It may not be visible to the user, but we get
/// events caused by him, so some information about him is passed along with
/// his id.
pub struct Invoker<'a> {
    server: Server<'a>,
    data: InvokerData,
}

impl<'a> Invoker<'a> {
    pub fn new(server: Server<'a>, data: InvokerData) -> (r: Invoker<'a>)
        ensures
            r.server()@ == server@,
            r.data()@ == data@,
    {
        Invoker { server, data }
    }

    pub closed spec fn server(self) -> Server<'a> {
        self.server
    }

    pub closed spec fn data(self) -> InvokerData {
        self.data
    }

    /// The id, unique id and name of the invoker.
    pub fn get_data(&self) -> (r: &InvokerData)
        ensures
            r@ == self.data()@,
    {
        &self.data
    }

    /// The server on which the invoker caused the event.
    pub fn get_server(&self) -> (r: Server<'a>)
        ensures
            r@ == self.server()@,
    {
        self.server
    }

    /// The connection of the invoker, if it is visible.
    pub fn get_connection(&self) -> (r: Option<Connection<'a>>)
        ensures
            match r {
                Some(c) => lookup_connection(self.server()@.api, self.server()@.id, self.data()@.id)
                    is Some && c@ == connection_ref(
                    self.server()@.api,
                    self.server()@.id,
                    self.data()@.id,
                ),
                None => lookup_connection(self.server()@.api, self.server()@.id, self.data()@.id)
                    is None,
            },
    {
        self.server.get_connection(self.data.get_id())
    }

    /// Two invokers are equal if they are on the same server and have the
    /// same connection id.
    pub fn same_as(&self, other: &Invoker) -> (r: bool)
        ensures
            r == (self.server()@.id == other.server()@.id && self.data()@.id == other.data()@.id),
    {
        self.server.same_as(&other.server) && self.data.same_as(&other.data)
    }
}

} // verus!
