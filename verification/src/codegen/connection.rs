//! The description of the connection data.
use vstd::prelude::*;

use super::{
    new_property, new_struct, pairs_view, prop, properties_view, string_pair, strings_view,
    Property, PropertyBuilder, PropertyView, Struct, StructBuilder, StructView,
};

verus! {

/// The functions that fetch connection properties, by type.
pub open spec fn connection_functions() -> Seq<(Seq<char>, Seq<char>)> {
    seq![
        ("i32"@, "ConnectionData::get_connection_property_as_uint64"@),
        ("u64"@, "ConnectionData::get_connection_property_as_uint64"@),
        ("String"@, "ConnectionData::get_connection_property_as_string"@),
    ]
}

/// The functions that fetch client properties, by type.
pub open spec fn client_property_functions() -> Seq<(Seq<char>, Seq<char>)> {
    seq![
        ("i32"@, "ConnectionData::get_client_property_as_int"@),
        ("String"@, "ConnectionData::get_client_property_as_string"@),
    ]
}

/// What every connection property starts from.
pub open spec fn connection_base() -> PropertyView {
    PropertyView {
        functions: connection_functions(),
        transmutable: seq!["InputDeactivationStatus"@, "TalkStatus"@, "MuteInputStatus"@, "MuteOutputStatus"@, "HardwareInputStatus"@, "HardwareOutputStatus"@, "AwayStatus"@],
        default_args: "server_id, id, "@,
        default_args_update: "self.server_id, self.id, "@,
        enum_name: "ConnectionProperties"@,
        ..new_property()
    }
}

/// What every client property starts from.
pub open spec fn client_base() -> PropertyView {
    PropertyView {
        functions: client_property_functions(),
        enum_name: "ClientProperties"@,
        ..connection_base()
    }
}

/// The properties that are only known of our own connection.
pub open spec fn own_connection_properties() -> Seq<PropertyView> {
    let b = connection_base();
    seq![
        PropertyView { result: false, api_getter: false, ..prop(b, "id"@, "ConnectionId"@) },
        PropertyView { result: false, api_getter: false, ..prop(b, "server_id"@, "ServerId"@) },
        prop(b, "server_ip"@, "String"@),
        prop(b, "server_port"@, "u16"@),
        prop(b, "input_deactivated"@, "InputDeactivationStatus"@),
        prop(b, "default_channel"@, "ChannelId"@),
        prop(b, "default_token"@, "String"@),
    ]
}

/// The properties that are only known of server queries.
pub open spec fn serverquery_connection_properties() -> Seq<PropertyView> {
    let b = connection_base();
    seq![
        PropertyView { result: false, api_getter: false, ..prop(b, "id"@, "ConnectionId"@) },
        PropertyView { result: false, api_getter: false, ..prop(b, "server_id"@, "ServerId"@) },
        prop(b, "name"@, "String"@),
        prop(b, "password"@, "String"@),
    ]
}

/// The general properties that are only known on request.
pub open spec fn optional_general_properties() -> Seq<PropertyView> {
    let b = connection_base();
    seq![
        PropertyView { result: false, ..prop(b, "id"@, "ConnectionId"@) },
        PropertyView { result: false, api_getter: false, ..prop(b, "server_id"@, "ServerId"@) },
        prop(b, "version"@, "String"@),
        prop(b, "platform"@, "String"@),
        prop(b, "created"@, "DateTime<Utc>"@),
        prop(b, "last_connected"@, "DateTime<Utc>"@),
        prop(b, "total_connection"@, "i32"@),
        prop(b, "ping"@, "Duration"@),
        prop(b, "ping_deviation"@, "Duration"@),
        prop(b, "connected_time"@, "Duration"@),
        prop(b, "idle_time"@, "Duration"@),
        prop(b, "client_ip"@, "String"@),
        PropertyView { update: Some("Self::get_connection_property_as_uint64(server_id, id, ConnectionProperties::ClientPort) as u16"@), ..prop(b, "client_port"@, "u16"@) },
    ]
}

/// The network statistics that are only known on request.
pub open spec fn optional_network_properties() -> Seq<PropertyView> {
    let b = connection_base();
    seq![
        prop(b, "packets_sent_speech"@, "u64"@),
        prop(b, "packets_sent_keepalive"@, "u64"@),
        prop(b, "packets_sent_control"@, "u64"@),
        prop(b, "packets_sent_total"@, "u64"@),
        prop(b, "bytes_sent_speech"@, "u64"@),
        prop(b, "bytes_sent_keepalive"@, "u64"@),
        prop(b, "bytes_sent_control"@, "u64"@),
        prop(b, "bytes_sent_total"@, "u64"@),
        prop(b, "packets_received_speech"@, "u64"@),
        prop(b, "packets_received_keepalive"@, "u64"@),
        prop(b, "packets_received_control"@, "u64"@),
        prop(b, "packets_received_total"@, "u64"@),
        prop(b, "bytes_received_speech"@, "u64"@),
        prop(b, "bytes_received_keepalive"@, "u64"@),
        prop(b, "bytes_received_control"@, "u64"@),
        prop(b, "bytes_received_total"@, "u64"@),
        prop(b, "packetloss_speech"@, "u64"@),
        prop(b, "packetloss_keepalive"@, "u64"@),
        prop(b, "packetloss_control"@, "u64"@),
        prop(b, "packetloss_total"@, "u64"@),
        PropertyView { value_name: Some("Server2ClientPacketlossSpeech"@), ..prop(b, "server_to_client_packetloss_speech"@, "u64"@) },
        PropertyView { value_name: Some("Server2ClientPacketlossKeepalive"@), ..prop(b, "server_to_client_packetloss_keepalive"@, "u64"@) },
        PropertyView { value_name: Some("Server2ClientPacketlossControl"@), ..prop(b, "server_to_client_packetloss_control"@, "u64"@) },
        PropertyView { value_name: Some("Server2ClientPacketlossTotal"@), ..prop(b, "server_to_client_packetloss_total"@, "u64"@) },
        PropertyView { value_name: Some("Client2ServerPacketlossSpeech"@), ..prop(b, "client_to_server_packetloss_speech"@, "u64"@) },
        PropertyView { value_name: Some("Client2ServerPacketlossKeepalive"@), ..prop(b, "client_to_server_packetloss_keepalive"@, "u64"@) },
        PropertyView { value_name: Some("Client2ServerPacketlossControl"@), ..prop(b, "client_to_server_packetloss_control"@, "u64"@) },
        PropertyView { value_name: Some("Client2ServerPacketlossTotal"@), ..prop(b, "client_to_server_packetloss_total"@, "u64"@) },
        prop(b, "bandwidth_sent_last_second_speech"@, "u64"@),
        prop(b, "bandwidth_sent_last_second_keepalive"@, "u64"@),
        prop(b, "bandwidth_sent_last_second_control"@, "u64"@),
        prop(b, "bandwidth_sent_last_second_total"@, "u64"@),
        prop(b, "bandwidth_sent_last_minute_speech"@, "u64"@),
        prop(b, "bandwidth_sent_last_minute_keepalive"@, "u64"@),
        prop(b, "bandwidth_sent_last_minute_control"@, "u64"@),
        prop(b, "bandwidth_sent_last_minute_total"@, "u64"@),
        prop(b, "bandwidth_received_last_second_speech"@, "u64"@),
        prop(b, "bandwidth_received_last_second_keepalive"@, "u64"@),
        prop(b, "bandwidth_received_last_second_control"@, "u64"@),
        prop(b, "bandwidth_received_last_second_total"@, "u64"@),
        prop(b, "bandwidth_received_last_minute_speech"@, "u64"@),
        prop(b, "bandwidth_received_last_minute_keepalive"@, "u64"@),
        prop(b, "bandwidth_received_last_minute_control"@, "u64"@),
        prop(b, "bandwidth_received_last_minute_total"@, "u64"@),
    ]
}

/// The traffic and client properties that are only known on request.
pub open spec fn optional_client_properties() -> Seq<PropertyView> {
    let b = connection_base();
    let cb = client_base();
    seq![
        prop(b, "month_bytes_uploaded"@, "i32"@),
        prop(b, "month_bytes_downloaded"@, "i32"@),
        prop(b, "total_bytes_uploaded"@, "i32"@),
        prop(b, "total_bytes_downloaded"@, "i32"@),
        prop(cb, "default_channel_password"@, "String"@),
        prop(cb, "server_password"@, "String"@),
        PropertyView { documentation: "If the client is locally muted."@, ..prop(cb, "is_muted"@, "bool"@) },
        prop(cb, "volume_modificator"@, "i32"@),
        prop(cb, "version_sign"@, "bool"@),
        PropertyView { value_name: Some("FlagAvatar"@), ..prop(cb, "avatar"@, "bool"@) },
        prop(cb, "description"@, "String"@),
        PropertyView { value_name: Some("IsTalker"@), ..prop(cb, "talker"@, "bool"@) },
        PropertyView { value_name: Some("IsPrioritySpeaker"@), ..prop(cb, "priority_speaker"@, "bool"@) },
        prop(cb, "unread_messages"@, "bool"@),
        prop(cb, "needed_serverquery_view_power"@, "i32"@),
        prop(cb, "icon_id"@, "i32"@),
        prop(cb, "is_channel_commander"@, "bool"@),
        prop(cb, "country"@, "String"@),
        prop(cb, "badges"@, "String"@),
    ]
}

/// The properties that are only known on request.
pub open spec fn optional_connection_properties() -> Seq<PropertyView> {
    optional_general_properties() + optional_network_properties() + optional_client_properties()
}

/// The builders from which connection properties are made.
struct ConnectionBuilders {
    builder: PropertyBuilder,
    builder_string: PropertyBuilder,
    builder_i32: PropertyBuilder,
    builder_u64: PropertyBuilder,
    client_b: PropertyBuilder,
    client_b_string: PropertyBuilder,
    client_b_i32: PropertyBuilder,
}

/// The builders are those of connection and client properties.
spec fn builders_wf(bs: ConnectionBuilders) -> bool {
    &&& bs.builder@ == connection_base()
    &&& bs.builder_string@ == PropertyView { type_s: "String"@, ..connection_base() }
    &&& bs.builder_i32@ == PropertyView { type_s: "i32"@, ..connection_base() }
    &&& bs.builder_u64@ == PropertyView { type_s: "u64"@, ..connection_base() }
    &&& bs.client_b@ == client_base()
    &&& bs.client_b_string@ == PropertyView { type_s: "String"@, ..client_base() }
    &&& bs.client_b_i32@ == PropertyView { type_s: "i32"@, ..client_base() }
}

fn optional_general(bs: &ConnectionBuilders) -> (r: Vec<Property>)
    requires
        builders_wf(*bs),
    ensures
        properties_view(r@) == optional_general_properties(),
{
    let builder = &bs.builder;
    let builder_string = &bs.builder_string;
    let builder_i32 = &bs.builder_i32;
    let r: Vec<Property> = vec![
        builder.name("id").type_s("ConnectionId").result(false).finalize(),
        builder.name("server_id").type_s("ServerId").result(false).api_getter(false).finalize(),
        builder_string.name("version").finalize(),
        builder_string.name("platform").finalize(),
        builder.name("created").type_s("DateTime<Utc>").finalize(),
        builder.name("last_connected").type_s("DateTime<Utc>").finalize(),
        builder_i32.name("total_connection").finalize(),
        builder.name("ping").type_s("Duration").finalize(),
        builder.name("ping_deviation").type_s("Duration").finalize(),
        builder.name("connected_time").type_s("Duration").finalize(),
        builder.name("idle_time").type_s("Duration").finalize(),
        builder_string.name("client_ip").finalize(),
        builder.name("client_port").type_s("u16").update("Self::get_connection_property_as_uint64(server_id, id, ConnectionProperties::ClientPort) as u16").finalize(),
    ];
    assert(properties_view(r@) =~= optional_general_properties());
    r
}

#[verifier::rlimit(40)]
fn optional_network(bs: &ConnectionBuilders) -> (r: Vec<Property>)
    requires
        builders_wf(*bs),
    ensures
        properties_view(r@) == optional_network_properties(),
{
    let builder_u64 = &bs.builder_u64;
    let r: Vec<Property> = vec![
        builder_u64.name("packets_sent_speech").finalize(),
        builder_u64.name("packets_sent_keepalive").finalize(),
        builder_u64.name("packets_sent_control").finalize(),
        builder_u64.name("packets_sent_total").finalize(),
        builder_u64.name("bytes_sent_speech").finalize(),
        builder_u64.name("bytes_sent_keepalive").finalize(),
        builder_u64.name("bytes_sent_control").finalize(),
        builder_u64.name("bytes_sent_total").finalize(),
        builder_u64.name("packets_received_speech").finalize(),
        builder_u64.name("packets_received_keepalive").finalize(),
        builder_u64.name("packets_received_control").finalize(),
        builder_u64.name("packets_received_total").finalize(),
        builder_u64.name("bytes_received_speech").finalize(),
        builder_u64.name("bytes_received_keepalive").finalize(),
        builder_u64.name("bytes_received_control").finalize(),
        builder_u64.name("bytes_received_total").finalize(),
        builder_u64.name("packetloss_speech").finalize(),
        builder_u64.name("packetloss_keepalive").finalize(),
        builder_u64.name("packetloss_control").finalize(),
        builder_u64.name("packetloss_total").finalize(),
        builder_u64.name("server_to_client_packetloss_speech").value_name("Server2ClientPacketlossSpeech").finalize(),
        builder_u64.name("server_to_client_packetloss_keepalive").value_name("Server2ClientPacketlossKeepalive").finalize(),
        builder_u64.name("server_to_client_packetloss_control").value_name("Server2ClientPacketlossControl").finalize(),
        builder_u64.name("server_to_client_packetloss_total").value_name("Server2ClientPacketlossTotal").finalize(),
        builder_u64.name("client_to_server_packetloss_speech").value_name("Client2ServerPacketlossSpeech").finalize(),
        builder_u64.name("client_to_server_packetloss_keepalive").value_name("Client2ServerPacketlossKeepalive").finalize(),
        builder_u64.name("client_to_server_packetloss_control").value_name("Client2ServerPacketlossControl").finalize(),
        builder_u64.name("client_to_server_packetloss_total").value_name("Client2ServerPacketlossTotal").finalize(),
        builder_u64.name("bandwidth_sent_last_second_speech").finalize(),
        builder_u64.name("bandwidth_sent_last_second_keepalive").finalize(),
        builder_u64.name("bandwidth_sent_last_second_control").finalize(),
        builder_u64.name("bandwidth_sent_last_second_total").finalize(),
        builder_u64.name("bandwidth_sent_last_minute_speech").finalize(),
        builder_u64.name("bandwidth_sent_last_minute_keepalive").finalize(),
        builder_u64.name("bandwidth_sent_last_minute_control").finalize(),
        builder_u64.name("bandwidth_sent_last_minute_total").finalize(),
        builder_u64.name("bandwidth_received_last_second_speech").finalize(),
        builder_u64.name("bandwidth_received_last_second_keepalive").finalize(),
        builder_u64.name("bandwidth_received_last_second_control").finalize(),
        builder_u64.name("bandwidth_received_last_second_total").finalize(),
        builder_u64.name("bandwidth_received_last_minute_speech").finalize(),
        builder_u64.name("bandwidth_received_last_minute_keepalive").finalize(),
        builder_u64.name("bandwidth_received_last_minute_control").finalize(),
        builder_u64.name("bandwidth_received_last_minute_total").finalize(),
    ];
    assert(properties_view(r@) =~= optional_network_properties());
    r
}

fn optional_client(bs: &ConnectionBuilders) -> (r: Vec<Property>)
    requires
        builders_wf(*bs),
    ensures
        properties_view(r@) == optional_client_properties(),
{
    let builder_i32 = &bs.builder_i32;
    let client_b = &bs.client_b;
    let client_b_string = &bs.client_b_string;
    let client_b_i32 = &bs.client_b_i32;
    let r: Vec<Property> = vec![
        builder_i32.name("month_bytes_uploaded").finalize(),
        builder_i32.name("month_bytes_downloaded").finalize(),
        builder_i32.name("total_bytes_uploaded").finalize(),
        builder_i32.name("total_bytes_downloaded").finalize(),
        client_b_string.name("default_channel_password").finalize(),
        client_b_string.name("server_password").finalize(),
        client_b.name("is_muted").type_s("bool").documentation("If the client is locally muted.").finalize(),
        client_b_i32.name("volume_modificator").finalize(),
        client_b.name("version_sign").type_s("bool").finalize(),
        client_b.name("avatar").type_s("bool").value_name("FlagAvatar").finalize(),
        client_b_string.name("description").finalize(),
        client_b.name("talker").type_s("bool").value_name("IsTalker").finalize(),
        client_b.name("priority_speaker").type_s("bool").value_name("IsPrioritySpeaker").finalize(),
        client_b.name("unread_messages").type_s("bool").finalize(),
        client_b_i32.name("needed_serverquery_view_power").finalize(),
        client_b_i32.name("icon_id").finalize(),
        client_b.name("is_channel_commander").type_s("bool").finalize(),
        client_b_string.name("country").finalize(),
        client_b_string.name("badges").finalize(),
    ];
    assert(properties_view(r@) =~= optional_client_properties());
    r
}

fn connection_data_properties(bs: &ConnectionBuilders) -> (r: Vec<Property>)
    requires
        builders_wf(*bs),
    ensures
        properties_view(r@) == connection_properties(),
{
    // The real connection data
    let builder = bs.builder.public(false);
    let client_b = bs.client_b.public(false);
    let client_b_string = bs.client_b_string.public(false);
    let r: Vec<Property> = vec![
        builder.name("id").type_s("ConnectionId").result(false).api_getter(false).finalize(),
        builder.name("server_id").type_s("ServerId").result(false).api_getter(false).finalize(),
        builder.name("channel_id").type_s("ChannelId").update("Self::query_channel_id(self.server_id, self.id)").api_getter(false).finalize(),
        client_b_string.name("uid").value_name("UniqueIdentifier").finalize(),
        client_b_string.name("name").value_name("Nickname").finalize(),
        client_b.name("talking").type_s("TalkStatus").value_name("FlagTalking").finalize(),
        client_b.name("whispering").type_s("bool").update("Self::query_whispering(self.server_id, self.id)").finalize(),
        client_b.name("away").type_s("AwayStatus").finalize(),
        client_b_string.name("away_message").finalize(),
        client_b.name("input_muted").type_s("MuteInputStatus").finalize(),
        client_b.name("output_muted").type_s("MuteOutputStatus").finalize(),
        client_b.name("output_only_muted").type_s("MuteOutputStatus").finalize(),
        client_b.name("input_hardware").type_s("HardwareInputStatus").finalize(),
        client_b.name("output_hardware").type_s("HardwareOutputStatus").finalize(),
        client_b_string.name("phonetic_name").value_name("NicknamePhonetic").finalize(),
        client_b.name("recording").type_s("bool").value_name("IsRecording").finalize(),
        client_b.name("database_id").type_s("Permissions").documentation("Only valid data if we have the appropriate permissions.").finalize(),
        client_b.name("channel_group_id").type_s("Permissions").finalize(),
        client_b.name("server_groups").type_s("Vec<Permissions>").finalize(),
        client_b.name("talk_power").type_s("i32").finalize(),
        client_b.name("talk_request").type_s("DateTime<Utc>").finalize(),
        client_b.name("talk_request_message").type_s("String").value_name("TalkRequestMsg").finalize(),
        client_b.name("channel_group_inherited_channel_id").type_s("ChannelId").api_getter(false).documentation("The channel that sets the current channel id of this client.").finalize(),
        client_b.name("own_data").type_s("Option<OwnConnectionData>").result(false).api_getter(false).documentation("Only set for oneself").finalize(),
        client_b.name("serverquery_data").type_s("Option<ServerqueryConnectionData>").result(false).api_getter(false).documentation("Only available for serverqueries").finalize(),
        client_b.name("optional_data").type_s("OptionalConnectionData").result(false).api_getter(false).finalize(),
    ];
    assert(properties_view(r@) =~= connection_properties());
    r
}

/// The properties of every connection.
pub open spec fn connection_properties() -> Seq<PropertyView> {
    let b = connection_base();
    let cb = client_base();
    seq![
        PropertyView { result: false, api_getter: false, ..prop(b, "id"@, "ConnectionId"@) },
        PropertyView { result: false, api_getter: false, ..prop(b, "server_id"@, "ServerId"@) },
        PropertyView { update: Some("Self::query_channel_id(self.server_id, self.id)"@), api_getter: false, ..prop(b, "channel_id"@, "ChannelId"@) },
        PropertyView { value_name: Some("UniqueIdentifier"@), ..prop(cb, "uid"@, "String"@) },
        PropertyView { value_name: Some("Nickname"@), ..prop(cb, "name"@, "String"@) },
        PropertyView { value_name: Some("FlagTalking"@), ..prop(cb, "talking"@, "TalkStatus"@) },
        PropertyView { update: Some("Self::query_whispering(self.server_id, self.id)"@), ..prop(cb, "whispering"@, "bool"@) },
        prop(cb, "away"@, "AwayStatus"@),
        prop(cb, "away_message"@, "String"@),
        prop(cb, "input_muted"@, "MuteInputStatus"@),
        prop(cb, "output_muted"@, "MuteOutputStatus"@),
        prop(cb, "output_only_muted"@, "MuteOutputStatus"@),
        prop(cb, "input_hardware"@, "HardwareInputStatus"@),
        prop(cb, "output_hardware"@, "HardwareOutputStatus"@),
        PropertyView { value_name: Some("NicknamePhonetic"@), ..prop(cb, "phonetic_name"@, "String"@) },
        PropertyView { value_name: Some("IsRecording"@), ..prop(cb, "recording"@, "bool"@) },
        PropertyView { documentation: "Only valid data if we have the appropriate permissions."@, ..prop(cb, "database_id"@, "Permissions"@) },
        prop(cb, "channel_group_id"@, "Permissions"@),
        prop(cb, "server_groups"@, "Vec<Permissions>"@),
        prop(cb, "talk_power"@, "i32"@),
        prop(cb, "talk_request"@, "DateTime<Utc>"@),
        PropertyView { value_name: Some("TalkRequestMsg"@), ..prop(cb, "talk_request_message"@, "String"@) },
        PropertyView { api_getter: false, documentation: "The channel that sets the current channel id of this client."@, ..prop(cb, "channel_group_inherited_channel_id"@, "ChannelId"@) },
        PropertyView { result: false, api_getter: false, documentation: "Only set for oneself"@, ..prop(cb, "own_data"@, "Option<OwnConnectionData>"@) },
        PropertyView { result: false, api_getter: false, documentation: "Only available for serverqueries"@, ..prop(cb, "serverquery_data"@, "Option<ServerqueryConnectionData>"@) },
        PropertyView { result: false, api_getter: false, ..prop(cb, "optional_data"@, "OptionalConnectionData"@) },
    ]
}

/// A struct with the data of a connection that is not updated.
pub open spec fn connection_part(name: Seq<char>, properties: Seq<PropertyView>) -> StructView {
    StructView {
        name,
        constructor_args: "server_id: ServerId, id: ConnectionId"@,
        do_update: false,
        properties,
        ..new_struct()
    }
}

/// The description of the connection data struct.
pub open spec fn connection_struct() -> StructView {
    StructView {
        name: "ConnectionData"@,
        api_name: "Connection"@,
        do_api_impl: true,
        constructor_args: "server_id: ServerId, id: ConnectionId"@,
        extra_initialisation: "let optional_data = OptionalConnectionData::new(server_id, id);\nlet own_data = None;\nlet serverquery_data = None;\n"@,
        properties: connection_properties(),
        ..new_struct()
    }
}

/// The descriptions of the data that is kept of a connection: the data of
/// our own connection, of server queries, the data that has to be requested
/// and the data of every connection.
pub fn create() -> (r: Vec<Struct>)
    ensures
        r.len() == 4,
        r[0]@ == connection_part("OwnConnectionData"@, own_connection_properties()),
        r[1]@ == connection_part("ServerqueryConnectionData"@, serverquery_connection_properties()),
        r[2]@ == connection_part("OptionalConnectionData"@, optional_connection_properties()),
        r[3]@ == connection_struct(),
{
    // Map types to functions that will get that type
    let default_functions: Vec<(String, String)> = vec![
        string_pair("i32", "ConnectionData::get_connection_property_as_uint64"),
        string_pair("u64", "ConnectionData::get_connection_property_as_uint64"),
        string_pair("String", "ConnectionData::get_connection_property_as_string"),
    ];
    assert(pairs_view(default_functions@) =~= connection_functions());
    let client_functions: Vec<(String, String)> = vec![
        string_pair("i32", "ConnectionData::get_client_property_as_int"),
        string_pair("String", "ConnectionData::get_client_property_as_string"),
    ];
    assert(pairs_view(client_functions@) =~= client_property_functions());
    let transmutable: Vec<String> = vec![
        "InputDeactivationStatus".to_owned(),
        "TalkStatus".to_owned(),
        "MuteInputStatus".to_owned(),
        "MuteOutputStatus".to_owned(),
        "HardwareInputStatus".to_owned(),
        "HardwareOutputStatus".to_owned(),
        "AwayStatus".to_owned(),
    ];
    assert(strings_view(transmutable@) =~= seq!["InputDeactivationStatus"@, "TalkStatus"@, "MuteInputStatus"@, "MuteOutputStatus"@, "HardwareInputStatus"@, "HardwareOutputStatus"@, "AwayStatus"@]);

    let builder = PropertyBuilder::new()
        .functions(&default_functions)
        .transmutable(&transmutable)
        .default_args("server_id, id, ")
        .default_args_update("self.server_id, self.id, ")
        .enum_name("ConnectionProperties");
    let builder_string = builder.type_s("String");
    let builder_i32 = builder.type_s("i32");
    let builder_u64 = builder.type_s("u64");

    let client_b = builder.enum_name("ClientProperties").functions(&client_functions);
    let client_b_string = client_b.type_s("String");
    let client_b_i32 = client_b.type_s("i32");

    // Own connection data
    let own_properties: Vec<Property> = vec![
        builder.name("id").type_s("ConnectionId").result(false).api_getter(false).finalize(),
        builder.name("server_id").type_s("ServerId").result(false).api_getter(false).finalize(),
        builder_string.name("server_ip").finalize(),
        builder.name("server_port").type_s("u16").finalize(),
        builder.name("input_deactivated").type_s("InputDeactivationStatus").finalize(),
        builder.name("default_channel").type_s("ChannelId").finalize(),
        builder_string.name("default_token").finalize(),
    ];
    assert(properties_view(own_properties@) =~= own_connection_properties());
    let own_connection_data = StructBuilder::new()
        .name("OwnConnectionData")
        .constructor_args("server_id: ServerId, id: ConnectionId")
        .do_update(false)
        .properties(own_properties)
        .finalize();

    // Serverquery connection data
    let serverquery_properties: Vec<Property> = vec![
        builder.name("id").type_s("ConnectionId").result(false).api_getter(false).finalize(),
        builder.name("server_id").type_s("ServerId").result(false).api_getter(false).finalize(),
        builder_string.name("name").finalize(),
        builder_string.name("password").finalize(),
    ];
    assert(properties_view(serverquery_properties@) =~= serverquery_connection_properties());
    let serverquery_connection_data = StructBuilder::new()
        .name("ServerqueryConnectionData")
        .constructor_args("server_id: ServerId, id: ConnectionId")
        .do_update(false)
        .properties(serverquery_properties)
        .finalize();

    let bs = ConnectionBuilders {
        builder,
        builder_string,
        builder_i32,
        builder_u64,
        client_b,
        client_b_string,
        client_b_i32,
    };

    // Optional connection data
    let mut optional_properties = optional_general(&bs);
    let mut network = optional_network(&bs);
    let mut client = optional_client(&bs);
    optional_properties.append(&mut network);
    optional_properties.append(&mut client);
    assert(properties_view(optional_properties@) =~= optional_connection_properties());
    let optional_connection_data = StructBuilder::new()
        .name("OptionalConnectionData")
        .constructor_args("server_id: ServerId, id: ConnectionId")
        .do_update(false)
        .properties(optional_properties)
        .finalize();

    let properties = connection_data_properties(&bs);
    let connection = StructBuilder::new()
        .name("ConnectionData")
        .api_name("Connection")
        .public(false)
        .do_api_impl(true)
        .constructor_args("server_id: ServerId, id: ConnectionId")
        .extra_initialisation(
            "let optional_data = OptionalConnectionData::new(server_id, id);\nlet own_data = None;\nlet serverquery_data = None;\n",
        )
        .properties(properties)
        .finalize();

    vec![own_connection_data, serverquery_connection_data, optional_connection_data, connection]
}

} // verus!
