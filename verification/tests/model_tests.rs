use ts3plugin::model::{ChannelData, ConnectionData, InvokerData, ServerData, TsApi};
use ts3plugin::{ChannelId, ConnectStatus, ConnectionId, Error, PermissionId, ServerGroupId, ServerId, TalkStatus};

fn connection(server: u64, id: u16, uid: &str, name: &str, channel: u64) -> ConnectionData {
    let mut c = ConnectionData::new(ServerId(server), ConnectionId(id));
    c.update_uid(Ok(uid.to_string()));
    c.update_name(Ok(name.to_string()));
    c.update_channel_id(Ok(ChannelId(channel)));
    c
}

fn channel(server: u64, id: u64, parent: u64, name: &str) -> ChannelData {
    let mut c = ChannelData::new(ServerId(server), ChannelId(id));
    c.update_parent_channel_id(Ok(ChannelId(parent)));
    c.update_name(Ok(name.to_string()));
    c
}

fn server_with(id: u64, connections: Vec<ConnectionData>, channels: Vec<ChannelData>) -> ServerData {
    let mut s = ServerData::new(ServerId(id));
    s.update_connections(Ok(connections));
    s.update_channels(Ok(channels));
    s
}

#[test]
fn invoker_data_getters() {
    let i = InvokerData::new(ConnectionId(7), "uid7".to_string(), "seven".to_string());
    assert_eq!(i.get_id(), ConnectionId(7));
    assert_eq!(i.get_uid(), "uid7");
    assert_eq!(i.get_name(), "seven");
    let j = InvokerData::new(ConnectionId(7), "other".to_string(), "other".to_string());
    assert!(i.same_as(&j));
}

#[test]
fn new_data_is_not_loaded() {
    let c = ConnectionData::new(ServerId(1), ConnectionId(2));
    assert_eq!(c.get_id(), ConnectionId(2));
    assert_eq!(c.get_server_id(), ServerId(1));
    assert_eq!(c.get_uid(), Err(Error(0)));
    assert_eq!(c.get_channel_id(), Err(Error(0)));
    let ch = ChannelData::new(ServerId(1), ChannelId(3));
    assert_eq!(ch.get_parent_channel_id(), Err(Error(0)));
    assert_eq!(ch.get_description(), Err(Error(0)));
    let s = ServerData::new(ServerId(1));
    assert_eq!(s.get_own_connection_id(), Err(Error(0)));
    assert!(s.get_connection_data(ConnectionId(2)).is_none());
    assert!(s.is_well_formed());
}

#[test]
fn update_connections_later_replaces_earlier() {
    let mut s = ServerData::new(ServerId(1));
    s.update_connections(Ok(vec![
        connection(1, 5, "a", "first", 1),
        connection(1, 6, "b", "other", 1),
        connection(1, 5, "a", "second", 2),
    ]));
    let c = s.get_connection_data(ConnectionId(5)).unwrap();
    assert_eq!(c.get_name().unwrap(), "second");
    assert_eq!(c.get_channel_id(), Ok(ChannelId(2)));
    assert!(s.get_connection_data(ConnectionId(6)).is_some());
}

#[test]
fn update_connections_error_leaves_none_visible() {
    let mut s = server_with(1, vec![connection(1, 5, "a", "a", 1)], vec![]);
    s.update_connections(Err(Error(0x200)));
    assert!(s.get_connection_data(ConnectionId(5)).is_none());
}

#[test]
fn channels_error_is_kept() {
    let mut s = ServerData::new(ServerId(1));
    s.update_channels(Err(Error(0x300)));
    assert_eq!(s.add_channel(channel(1, 4, 0, "c")), Err(Error(0x300)));
    assert!(s.remove_channel(ChannelId(4)).is_none());
    assert!(s.get_channel_data(ChannelId(4)).is_none());
}

#[test]
fn add_then_remove_connection() {
    let mut s = server_with(1, vec![], vec![]);
    s.add_connection(connection(1, 9, "u", "n", 3));
    assert!(s.get_connection_data(ConnectionId(9)).is_some());
    let removed = s.remove_connection(ConnectionId(9)).unwrap();
    assert_eq!(removed.get_uid().unwrap(), "u");
    assert!(s.get_connection_data(ConnectionId(9)).is_none());
    assert!(s.remove_connection(ConnectionId(9)).is_none());
}

#[test]
fn server_mutators() {
    let mut s = server_with(1, vec![connection(1, 2, "u", "n", 3)], vec![channel(1, 3, 0, "c")]);
    s.set_connection_channel(ConnectionId(2), ChannelId(4));
    assert_eq!(s.get_connection_data(ConnectionId(2)).unwrap().get_channel_id(), Ok(ChannelId(4)));
    s.set_connection_talking(ConnectionId(2), TalkStatus::Talking, true);
    let c = s.get_connection_data(ConnectionId(2)).unwrap();
    assert_eq!(c.get_talking(), Ok(TalkStatus::Talking));
    assert_eq!(c.get_whispering(), Ok(true));
    s.set_channel_parent(ChannelId(3), ChannelId(8));
    assert_eq!(s.get_channel_data(ChannelId(3)).unwrap().get_parent_channel_id(), Ok(ChannelId(8)));
    s.set_channel_description(ChannelId(3), Ok("desc".to_string()));
    assert_eq!(s.get_channel_data(ChannelId(3)).unwrap().get_description().unwrap(), "desc");
    // Not visible: nothing happens
    s.set_connection_channel(ConnectionId(99), ChannelId(4));
    assert!(s.get_connection_data(ConnectionId(99)).is_none());
}

#[test]
fn channel_update_from_keeps_description() {
    let mut old = channel(1, 3, 0, "old");
    old.update_description(Ok("described".to_string()));
    let mut new = channel(1, 3, 0, "new");
    new.update_from(&old);
    assert_eq!(new.get_description().unwrap(), "described");
    assert_eq!(new.get_name().unwrap(), "new");
}

#[test]
fn api_servers() {
    let mut api = TsApi::new("plugin-id".to_string());
    assert_eq!(api.get_plugin_id(), "plugin-id");
    assert!(api.get_server(ServerId(1)).is_none());
    api.add_server(server_with(1, vec![], vec![]));
    api.add_server(server_with(2, vec![], vec![]));
    assert_eq!(api.get_server(ServerId(1)).unwrap().get_id(), ServerId(1));
    let mut ids: Vec<u64> = api.get_servers().iter().map(|s| s.get_id().0).collect();
    ids.sort();
    assert_eq!(ids, vec![1, 2]);
    assert!(api.remove_server(ServerId(1)).is_some());
    assert!(api.remove_server(ServerId(1)).is_none());
    assert_eq!(api.get_servers().len(), 1);
    assert!(api.get_permission(PermissionId(1)).is_some());
}

#[test]
fn servers_to_load_keeps_connected_tabs() {
    let handlers = vec![
        (ServerId(1), Ok(ConnectStatus::Disconnected)),
        (ServerId(2), Ok(ConnectStatus::ConnectionEstablished)),
        (ServerId(3), Err(Error(1))),
        (ServerId(4), Ok(ConnectStatus::Connecting)),
    ];
    assert_eq!(TsApi::servers_to_load(&handlers), vec![ServerId(2), ServerId(4)]);
}

#[test]
fn try_update_invoker_takes_over_identity() {
    let mut api = TsApi::new(String::new());
    api.add_server(server_with(1, vec![connection(1, 5, "old-uid", "old", 1)], vec![]));
    let invoker = InvokerData::new(ConnectionId(5), "new-uid".to_string(), "new".to_string());
    api.try_update_invoker(ServerId(1), &invoker);
    {
        let s = api.get_server(ServerId(1)).unwrap();
        let c = s.get_connection(ConnectionId(5)).unwrap();
        assert_eq!(c.get_data().unwrap().get_uid().unwrap(), "new-uid");
        assert_eq!(c.get_data().unwrap().get_name().unwrap(), "new");
    }
    // Twice is the same as once.
    api.try_update_invoker(ServerId(1), &invoker);
    let s = api.get_server(ServerId(1)).unwrap();
    let c = s.get_connection(ConnectionId(5)).unwrap();
    assert_eq!(c.get_data().unwrap().get_name().unwrap(), "new");
    // An unknown server or connection is left alone.
    api.try_update_invoker(ServerId(9), &invoker);
}

#[test]
fn handles_lookups() {
    let mut api = TsApi::new(String::new());
    let mut s = server_with(
        1,
        vec![connection(1, 5, "u5", "five", 10), connection(1, 6, "u6", "six", 77)],
        vec![channel(1, 10, 0, "root"), channel(1, 11, 10, "child"), channel(1, 12, 99, "orphan")],
    );
    s.update_own_connection_id(Ok(ConnectionId(5)));
    api.add_server(s);
    let server = api.get_server(ServerId(1)).unwrap();
    assert_eq!(server.get_connections().len(), 2);
    assert_eq!(server.get_channels().len(), 3);
    let own = server.get_own_connection().unwrap();
    assert_eq!(own.get_id(), ConnectionId(5));
    assert_eq!(own.get_channel().unwrap().get_id(), ChannelId(10));
    // Channel 77 is not known: a handle without data.
    let six = server.get_connection(ConnectionId(6)).unwrap();
    let ch = six.get_channel().unwrap();
    assert_eq!(ch.get_id(), ChannelId(77));
    assert!(ch.get_data().is_none());
    assert_eq!(ch.get_parent_channel().err(), Some(Error(0)));
    // Parents
    let root = server.get_channel(ChannelId(10)).unwrap();
    assert!(root.get_parent_channel().unwrap().is_none());
    let child = server.get_channel(ChannelId(11)).unwrap();
    assert_eq!(child.get_parent_channel().unwrap().unwrap().get_id(), ChannelId(10));
    let orphan = server.get_channel(ChannelId(12)).unwrap();
    let parent = orphan.get_parent_channel().unwrap().unwrap();
    assert_eq!(parent.get_id(), ChannelId(99));
    assert!(parent.get_data().is_none());
    assert_eq!(child.get_server().get_id(), ServerId(1));
    assert!(server.get_connection(ConnectionId(8)).is_none());
    assert!(server.get_channel(ChannelId(8)).is_none());
    assert!(server.get_server_group(ServerGroupId(1)).is_some());
    assert!(six.same_as(&server.get_connection(ConnectionId(6)).unwrap()));
    assert!(!six.same_as(&own));
    // The channel of a connection whose channel is not loaded
    assert_eq!(six.get_channel_group_inherited_channel().err(), Some(Error(0)));
}

#[test]
fn own_connection_errors() {
    let mut api = TsApi::new(String::new());
    let mut s = ServerData::new(ServerId(3));
    s.update_own_connection_id(Err(Error(0x200)));
    api.add_server(s);
    let server = api.get_server(ServerId(3)).unwrap();
    assert_eq!(server.get_own_connection().err(), Some(Error(0x200)));
    assert_eq!(server.get_connections().len(), 0);
    assert_eq!(server.get_channels().len(), 0);
}
