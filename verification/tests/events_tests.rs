use ts3plugin::events::{invoker_from, is_valid_target_mode, message_receiver, MoveCallback};
use ts3plugin::model::{ChannelData, ConnectionData, InvokerData, ServerData, TsApi};
use ts3plugin::{
    ChannelId, ConnectStatus, ConnectionId, Error, MessageReceiver, ServerId, TalkStatus,
    TextMessageTargetMode, Visibility,
};

fn connection(server: u64, id: u16, name: &str, channel: u64) -> ConnectionData {
    let mut c = ConnectionData::new(ServerId(server), ConnectionId(id));
    c.update_uid(Ok(format!("uid-{}", id)));
    c.update_name(Ok(name.to_string()));
    c.update_channel_id(Ok(ChannelId(channel)));
    c
}

fn channel(server: u64, id: u64, name: &str) -> ChannelData {
    let mut c = ChannelData::new(ServerId(server), ChannelId(id));
    c.update_parent_channel_id(Ok(ChannelId(0)));
    c.update_name(Ok(name.to_string()));
    c
}

fn api_with_server(id: u64) -> TsApi {
    let mut api = TsApi::new("p".to_string());
    let mut s = ServerData::new(ServerId(id));
    s.update_connections(Ok(vec![]));
    s.update_channels(Ok(vec![channel(id, 1, "lobby"), channel(id, 2, "afk")]));
    api.add_server(s);
    api
}

fn visible(api: &TsApi, server: u64, id: u16) -> bool {
    api.get_server_data(ServerId(server))
        .map(|s| s.get_connection_data(ConnectionId(id)).is_some())
        .unwrap_or(false)
}

fn channel_of(api: &TsApi, server: u64, id: u16) -> Result<ChannelId, Error> {
    api.get_server_data(ServerId(server)).unwrap().get_connection_data(ConnectionId(id)).unwrap().get_channel_id()
}

#[test]
fn connect_then_disconnect() {
    let mut api = api_with_server(1);
    let cb = api.client_move_begin(connection(1, 5, "a", 1), ChannelId(0), ChannelId(1), Visibility::Enter);
    assert_eq!(cb, MoveCallback::ConnectionChanged(true));
    api.client_move_end(ServerId(1), ConnectionId(5), ChannelId(0), ChannelId(1), Visibility::Enter);
    assert!(visible(&api, 1, 5));
    let cb = api.client_move_begin(connection(1, 5, "a", 1), ChannelId(1), ChannelId(0), Visibility::Leave);
    assert_eq!(cb, MoveCallback::ConnectionChanged(false));
    // Still visible while the plugin is called.
    assert!(visible(&api, 1, 5));
    api.client_move_end(ServerId(1), ConnectionId(5), ChannelId(1), ChannelId(0), Visibility::Leave);
    assert!(!visible(&api, 1, 5));
}

#[test]
fn announce_and_leave_view() {
    let mut api = api_with_server(1);
    let cb = api.client_move_begin(connection(1, 6, "b", 2), ChannelId(2), ChannelId(2), Visibility::Enter);
    assert_eq!(cb, MoveCallback::ConnectionAnnounced(true));
    api.client_move_end(ServerId(1), ConnectionId(6), ChannelId(2), ChannelId(2), Visibility::Enter);
    assert!(visible(&api, 1, 6));
    let cb = api.client_move_begin(connection(1, 6, "b", 2), ChannelId(2), ChannelId(2), Visibility::Retain);
    assert_eq!(cb, MoveCallback::Nothing);
    let cb = api.client_move_begin(connection(1, 6, "b", 2), ChannelId(2), ChannelId(2), Visibility::Leave);
    assert_eq!(cb, MoveCallback::ConnectionAnnounced(false));
    assert!(visible(&api, 1, 6));
    api.client_move_end(ServerId(1), ConnectionId(6), ChannelId(2), ChannelId(2), Visibility::Leave);
    assert!(!visible(&api, 1, 6));
}

#[test]
fn switch_channel_records_new_channel() {
    let mut api = api_with_server(1);
    api.client_move_begin(connection(1, 7, "c", 1), ChannelId(0), ChannelId(1), Visibility::Enter);
    let cb = api.client_move_begin(connection(1, 7, "c", 1), ChannelId(1), ChannelId(2), Visibility::Retain);
    assert_eq!(cb, MoveCallback::ConnectionMove);
    assert_eq!(channel_of(&api, 1, 7), Ok(ChannelId(2)));
    api.client_move_end(ServerId(1), ConnectionId(7), ChannelId(1), ChannelId(2), Visibility::Retain);
    assert!(visible(&api, 1, 7));
}

#[test]
fn switch_into_view_adds_connection() {
    let mut api = api_with_server(1);
    let cb = api.client_move_begin(connection(1, 8, "d", 1), ChannelId(3), ChannelId(1), Visibility::Enter);
    assert_eq!(cb, MoveCallback::ConnectionMove);
    assert_eq!(channel_of(&api, 1, 8), Ok(ChannelId(1)));
}

#[test]
fn switch_out_of_view_removes_connection() {
    let mut api = api_with_server(1);
    api.client_move_begin(connection(1, 9, "e", 1), ChannelId(0), ChannelId(1), Visibility::Enter);
    api.client_move_begin(connection(1, 9, "e", 1), ChannelId(1), ChannelId(3), Visibility::Leave);
    assert!(visible(&api, 1, 9));
    api.client_move_end(ServerId(1), ConnectionId(9), ChannelId(1), ChannelId(3), Visibility::Leave);
    assert!(!visible(&api, 1, 9));
}

#[test]
fn move_on_unknown_server_changes_nothing() {
    let mut api = api_with_server(1);
    let cb = api.client_move_begin(connection(4, 5, "a", 1), ChannelId(0), ChannelId(1), Visibility::Enter);
    assert_eq!(cb, MoveCallback::ConnectionChanged(true));
    assert!(api.get_server_data(ServerId(4)).is_none());
}

#[test]
fn subscription_events() {
    let mut api = api_with_server(1);
    assert_eq!(api.client_subscription_begin(connection(1, 3, "s", 2), Visibility::Enter), Some(true));
    assert!(visible(&api, 1, 3));
    api.client_subscription_end(ServerId(1), ConnectionId(3), Visibility::Enter);
    assert!(visible(&api, 1, 3));
    assert_eq!(api.client_subscription_begin(connection(1, 3, "s", 2), Visibility::Retain), None);
    assert_eq!(api.client_subscription_begin(connection(1, 3, "s", 2), Visibility::Leave), Some(false));
    assert!(visible(&api, 1, 3));
    api.client_subscription_end(ServerId(1), ConnectionId(3), Visibility::Leave);
    assert!(!visible(&api, 1, 3));
}

#[test]
fn update_client_returns_old_data() {
    let mut api = api_with_server(1);
    api.add_connection(connection(1, 4, "before", 1));
    let invoker = InvokerData::new(ConnectionId(4), "uid-4".to_string(), "after".to_string());
    let old = api.update_client(connection(1, 4, "after", 1), &invoker).unwrap();
    assert_eq!(old.get_name().unwrap(), "after");
    let now = api.get_server_data(ServerId(1)).unwrap().get_connection_data(ConnectionId(4)).unwrap();
    assert_eq!(now.get_name().unwrap(), "after");
    // A connection that was not visible gives no old data but is added.
    let invoker = InvokerData::new(ConnectionId(9), "uid-9".to_string(), "new".to_string());
    assert!(api.update_client(connection(1, 10, "new", 1), &invoker).is_none());
    assert!(visible(&api, 1, 10));
}

#[test]
fn connect_status_adds_and_removes_server() {
    let mut api = TsApi::new(String::new());
    api.connect_status_begin(ServerData::new(ServerId(2)), ConnectStatus::Connecting);
    assert!(api.get_server_data(ServerId(2)).is_none());
    api.connect_status_begin(ServerData::new(ServerId(2)), ConnectStatus::Connected);
    assert!(api.get_server_data(ServerId(2)).is_some());
    // A known server is not replaced.
    let mut other = ServerData::new(ServerId(2));
    other.update_name(Ok("other".to_string()));
    api.connect_status_begin(other, ConnectStatus::ConnectionEstablished);
    assert!(api.get_server_data(ServerId(2)).unwrap().get_name().is_err());
    api.connect_status_end(ServerId(2), ConnectStatus::ConnectionEstablished);
    assert!(api.get_server_data(ServerId(2)).is_some());
    api.connect_status_end(ServerId(2), ConnectStatus::Disconnected);
    assert!(api.get_server_data(ServerId(2)).is_none());
}

#[test]
fn channel_kick() {
    let mut api = api_with_server(1);
    api.add_connection(connection(1, 5, "k", 1));
    api.add_connection(connection(1, 6, "l", 1));
    api.channel_kick_end(ServerId(1), ConnectionId(5), ChannelId(2), Visibility::Retain);
    assert_eq!(channel_of(&api, 1, 5), Ok(ChannelId(2)));
    api.channel_kick_end(ServerId(1), ConnectionId(6), ChannelId(3), Visibility::Leave);
    assert!(!visible(&api, 1, 6));
}

#[test]
fn channel_events() {
    let mut api = api_with_server(1);
    assert_eq!(api.add_channel(channel(1, 3, "new")), Ok(()));
    assert!(api.get_server_data(ServerId(1)).unwrap().get_channel_data(ChannelId(3)).is_some());
    api.set_channel_parent(ServerId(1), ChannelId(3), ChannelId(1));
    let c = api.get_server_data(ServerId(1)).unwrap().get_channel_data(ChannelId(3)).unwrap();
    assert_eq!(c.get_parent_channel_id(), Ok(ChannelId(1)));
    assert_eq!(
        api.update_channel_description(ServerId(1), ChannelId(3), Ok("text".to_string())),
        Ok(())
    );
    let old = api.replace_channel(channel(1, 3, "renamed")).unwrap().unwrap();
    assert_eq!(old.get_name().unwrap(), "new");
    let c = api.get_server_data(ServerId(1)).unwrap().get_channel_data(ChannelId(3)).unwrap();
    assert_eq!(c.get_name().unwrap(), "renamed");
    assert_eq!(c.get_description().unwrap(), "text");
    let removed = api.remove_channel(ServerId(1), ChannelId(3)).unwrap();
    assert_eq!(removed.get_name().unwrap(), "renamed");
    assert!(api.remove_channel(ServerId(1), ChannelId(3)).is_none());
    assert!(api.replace_channel(channel(1, 4, "fresh")).unwrap().is_none());
}

#[test]
fn description_error_is_reported() {
    let mut api = api_with_server(1);
    assert_eq!(
        api.update_channel_description(ServerId(1), ChannelId(1), Err(Error(0x300))),
        Err(Error(0x300))
    );
    let c = api.get_server_data(ServerId(1)).unwrap().get_channel_data(ChannelId(1)).unwrap();
    assert_eq!(c.get_description(), Err(Error(0x300)));
    // An unknown channel is left alone.
    assert_eq!(
        api.update_channel_description(ServerId(1), ChannelId(42), Err(Error(1))),
        Ok(())
    );
}

#[test]
fn channels_not_fetched() {
    let mut api = TsApi::new(String::new());
    let mut s = ServerData::new(ServerId(1));
    s.update_channels(Err(Error(0x501)));
    api.add_server(s);
    assert_eq!(api.add_channel(channel(1, 3, "x")), Err(Error(0x501)));
    assert_eq!(api.replace_channel(channel(1, 3, "x")).err(), Some(Error(0x501)));
}

#[test]
fn talking_is_recorded() {
    let mut api = api_with_server(1);
    api.add_connection(connection(1, 5, "t", 1));
    api.set_connection_talking(ServerId(1), ConnectionId(5), TalkStatus::Talking, false);
    let c = api.get_server_data(ServerId(1)).unwrap().get_connection_data(ConnectionId(5)).unwrap();
    assert_eq!(c.get_talking(), Ok(TalkStatus::Talking));
    assert_eq!(c.get_whispering(), Ok(false));
}

#[test]
fn invoker_zero_is_none() {
    assert!(invoker_from(ConnectionId(0), "u".to_string(), "n".to_string()).is_none());
    let i = invoker_from(ConnectionId(3), "u".to_string(), "n".to_string()).unwrap();
    assert_eq!(i.get_id(), ConnectionId(3));
    assert_eq!(i.get_uid(), "u");
    assert_eq!(i.get_name(), "n");
}

#[test]
fn message_receivers() {
    assert_eq!(
        message_receiver(TextMessageTargetMode::Client, ConnectionId(4)),
        MessageReceiver::Connection(ConnectionId(4))
    );
    assert_eq!(message_receiver(TextMessageTargetMode::Channel, ConnectionId(4)), MessageReceiver::Channel);
    assert_eq!(message_receiver(TextMessageTargetMode::Server, ConnectionId(4)), MessageReceiver::Server);
    assert!(is_valid_target_mode(TextMessageTargetMode::Server));
    assert!(!is_valid_target_mode(TextMessageTargetMode::Max));
}
