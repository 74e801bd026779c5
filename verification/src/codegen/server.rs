//! The description of the server data.
use vstd::prelude::*;

use super::{
    new_property, new_struct, pairs_view, prop, properties_view, string_pair, strings_view,
    triples_view, Property, PropertyBuilder, PropertyView, Struct, StructBuilder, StructView,
};

verus! {

/// The functions that fetch server properties, by type.
pub open spec fn server_functions() -> Seq<(Seq<char>, Seq<char>)> {
    seq![
        ("i32"@, "ServerData::get_property_as_int"@),
        ("u64"@, "ServerData::get_property_as_uint64"@),
        ("String"@, "ServerData::get_property_as_string"@),
    ]
}

/// What every server property starts from.
pub open spec fn server_base() -> PropertyView {
    PropertyView {
        functions: server_functions(),
        transmutable: seq!["CodecEncryptionMode"@, "HostbannerMode"@, "HostmessageMode"@],
        default_args: "id, "@,
        default_args_update: "self.id, "@,
        enum_name: "VirtualServerProperties"@,
        ..new_property()
    }
}

/// The properties of a server; the ones from `welcome_message` on (except
/// the host message and the plugin block points) have to be requested.
pub open spec fn server_properties() -> Seq<PropertyView> {
    let b = server_base();
    let br = PropertyView { requested: true, ..b };
    seq![
        PropertyView { result: false, initialisation: Some("id"@), should_update: false, api_getter: false, ..prop(b, "id"@, "ServerId"@) },
        PropertyView { value_name: Some("UniqueIdentifier"@), ..prop(b, "uid"@, "String"@) },
        PropertyView { update: Some("Self::query_own_connection_id(self.id)"@), api_getter: false, ..prop(b, "own_connection_id"@, "ConnectionId"@) },
        prop(b, "name"@, "String"@),
        PropertyView { value_name: Some("NamePhonetic"@), ..prop(b, "phonetic_name"@, "String"@) },
        prop(b, "platform"@, "String"@),
        prop(b, "version"@, "String"@),
        prop(b, "nickname"@, "String"@),
        prop(b, "accounting_token"@, "String"@),
        prop(b, "created"@, "DateTime<Utc>"@),
        prop(b, "codec_encryption_mode"@, "CodecEncryptionMode"@),
        prop(b, "default_server_group"@, "ServerGroupId"@),
        prop(b, "default_channel_group"@, "ChannelGroupId"@),
        prop(b, "default_channel_admin_group"@, "ChannelGroupId"@),
        prop(b, "hostbanner_url"@, "String"@),
        prop(b, "hostbanner_gfx_url"@, "String"@),
        prop(b, "hostbanner_gfx_interval"@, "Duration"@),
        prop(b, "hostbanner_mode"@, "HostbannerMode"@),
        prop(b, "priority_speaker_dimm_modificator"@, "i32"@),
        prop(b, "hostbutton_tooltip"@, "String"@),
        prop(b, "hostbutton_url"@, "String"@),
        prop(b, "hostbutton_gfx_url"@, "String"@),
        prop(b, "icon_id"@, "i32"@),
        prop(b, "reserved_slots"@, "i32"@),
        prop(b, "ask_for_privilegekey"@, "bool"@),
        prop(b, "channel_temp_delete_delay_default"@, "Duration"@),
        PropertyView { result: false, initialisation: Some("Map::new()"@), update: Some("Self::query_connections(self.id)"@), api_getter: false, ..prop(b, "visible_connections"@, "Map<ConnectionId, ConnectionData>"@) },
        PropertyView { update: Some("Self::query_channels(self.id)"@), api_getter: false, ..prop(b, "channels"@, "Map<ChannelId, ChannelData>"@) },
        PropertyView { value_name: Some("Welcomemessage"@), ..prop(br, "welcome_message"@, "String"@) },
        prop(br, "max_clients"@, "i32"@),
        prop(br, "clients_online"@, "i32"@),
        prop(br, "channels_online"@, "i32"@),
        prop(br, "client_connections"@, "i32"@),
        prop(br, "query_client_connections"@, "i32"@),
        PropertyView { value_name: Some("QueryclientsOnline"@), ..prop(br, "query_clients_online"@, "i32"@) },
        prop(br, "uptime"@, "Duration"@),
        prop(br, "password"@, "bool"@),
        prop(br, "max_download_total_bandwidth"@, "i32"@),
        prop(br, "max_upload_total_bandwidth"@, "i32"@),
        prop(br, "download_quota"@, "i32"@),
        prop(br, "upload_quota"@, "i32"@),
        prop(br, "month_bytes_downloaded"@, "i32"@),
        prop(br, "month_bytes_uploaded"@, "i32"@),
        prop(br, "total_bytes_downloaded"@, "i32"@),
        prop(br, "total_bytes_uploaded"@, "i32"@),
        prop(br, "complain_autoban_count"@, "i32"@),
        prop(br, "complain_autoban_time"@, "Duration"@),
        prop(br, "complain_remove_time"@, "Duration"@),
        prop(br, "min_clients_in_channel_before_forced_silence"@, "i32"@),
        prop(br, "antiflood_points_tick_reduce"@, "i32"@),
        prop(br, "antiflood_points_needed_command_block"@, "i32"@),
        prop(br, "antiflood_points_needed_ip_block"@, "i32"@),
        prop(br, "port"@, "i32"@),
        prop(br, "autostart"@, "bool"@),
        prop(br, "machine_id"@, "i32"@),
        prop(br, "needed_identity_security_level"@, "i32"@),
        prop(br, "log_client"@, "bool"@),
        prop(br, "log_query"@, "bool"@),
        prop(br, "log_channel"@, "bool"@),
        prop(br, "log_permissions"@, "bool"@),
        prop(br, "log_server"@, "bool"@),
        prop(br, "log_filetransfer"@, "bool"@),
        prop(br, "min_client_version"@, "String"@),
        prop(br, "total_packetloss_speech"@, "i32"@),
        prop(br, "total_packetloss_keepalive"@, "i32"@),
        prop(br, "total_packetloss_control"@, "i32"@),
        prop(br, "total_packetloss_total"@, "i32"@),
        prop(br, "total_ping"@, "i32"@),
        prop(br, "weblist_enabled"@, "bool"@),
        PropertyView { documentation: "Only set on connect and not updated"@, ..prop(b, "hostmessage"@, "String"@) },
        PropertyView { documentation: "Only set on connect and not updated"@, ..prop(b, "hostmessage_mode"@, "HostmessageMode"@) },
        prop(b, "antiflood_points_needed_plugin_block"@, "i32"@),
    ]
}

/// The description of the server data struct.
pub open spec fn server_struct() -> StructView {
    StructView {
        name: "ServerData"@,
        api_name: "Server"@,
        do_api_impl: true,
        do_properties: true,
        constructor_args: "id: ServerId"@,
        extra_property_list: seq![("Connection<'a>"@, "Connection"@, "OwnConnection,"@)],
        extra_properties: "ServerProperty::Connection {\n\tproperty: ServerConnectionProperty::OwnConnection,\n\tdata: self.get_own_connection(),\n},"@,
        properties: server_properties(),
        ..new_struct()
    }
}

/// The description of the data that is kept of a server.
#[verifier::rlimit(50)]
pub fn create() -> (r: Vec<Struct>)
    ensures
        r.len() == 1,
        r[0]@ == server_struct(),
{
    // Map types to functions that will get that type
    let default_functions: Vec<(String, String)> = vec![
        string_pair("i32", "ServerData::get_property_as_int"),
        string_pair("u64", "ServerData::get_property_as_uint64"),
        string_pair("String", "ServerData::get_property_as_string"),
    ];
    assert(pairs_view(default_functions@) =~= server_functions());
    let transmutable: Vec<String> = vec![
        "CodecEncryptionMode".to_owned(),
        "HostbannerMode".to_owned(),
        "HostmessageMode".to_owned(),
    ];
    assert(strings_view(transmutable@) =~= seq!["CodecEncryptionMode"@, "HostbannerMode"@, "HostmessageMode"@]);

    let builder = PropertyBuilder::new()
        .functions(&default_functions)
        .transmutable(&transmutable)
        .default_args("id, ")
        .default_args_update("self.id, ")
        .enum_name("VirtualServerProperties");
    let builder_string = builder.type_s("String");
    let builder_i32 = builder.type_s("i32");

    let builder_r = builder.requested(true);
    let builder_string_r = builder_string.requested(true);
    let builder_i32_r = builder_i32.requested(true);

    let properties: Vec<Property> = vec![
        builder.name("id").type_s("ServerId").result(false).initialisation("id").should_update(false).api_getter(false).finalize(),
        builder_string.name("uid").value_name("UniqueIdentifier").finalize(),
        builder.name("own_connection_id").type_s("ConnectionId").update("Self::query_own_connection_id(self.id)").api_getter(false).finalize(),
        builder_string.name("name").finalize(),
        builder_string.name("phonetic_name").value_name("NamePhonetic").finalize(),
        builder_string.name("platform").finalize(),
        builder_string.name("version").finalize(),
        builder_string.name("nickname").finalize(),
        builder_string.name("accounting_token").finalize(),
        builder.name("created").type_s("DateTime<Utc>").finalize(),
        builder.name("codec_encryption_mode").type_s("CodecEncryptionMode").finalize(),
        builder.name("default_server_group").type_s("ServerGroupId").finalize(),
        builder.name("default_channel_group").type_s("ChannelGroupId").finalize(),
        builder.name("default_channel_admin_group").type_s("ChannelGroupId").finalize(),
        builder_string.name("hostbanner_url").finalize(),
        builder_string.name("hostbanner_gfx_url").finalize(),
        builder.name("hostbanner_gfx_interval").type_s("Duration").finalize(),
        builder.name("hostbanner_mode").type_s("HostbannerMode").finalize(),
        builder_i32.name("priority_speaker_dimm_modificator").finalize(),
        builder_string.name("hostbutton_tooltip").finalize(),
        builder_string.name("hostbutton_url").finalize(),
        builder_string.name("hostbutton_gfx_url").finalize(),
        builder_i32.name("icon_id").finalize(),
        builder_i32.name("reserved_slots").finalize(),
        builder.name("ask_for_privilegekey").type_s("bool").finalize(),
        builder.name("channel_temp_delete_delay_default").type_s("Duration").finalize(),
        builder.name("visible_connections").type_s("Map<ConnectionId, ConnectionData>").result(false).initialisation("Map::new()").update("Self::query_connections(self.id)").api_getter(false).finalize(),
        builder.name("channels").type_s("Map<ChannelId, ChannelData>").update("Self::query_channels(self.id)").api_getter(false).finalize(),
        builder_string_r.name("welcome_message").value_name("Welcomemessage").finalize(),
        builder_i32_r.name("max_clients").finalize(),
        builder_i32_r.name("clients_online").finalize(),
        builder_i32_r.name("channels_online").finalize(),
        builder_i32_r.name("client_connections").finalize(),
        builder_i32_r.name("query_client_connections").finalize(),
        builder_i32_r.name("query_clients_online").value_name("QueryclientsOnline").finalize(),
        builder_r.name("uptime").type_s("Duration").finalize(),
        builder_r.name("password").type_s("bool").finalize(),
        builder_i32_r.name("max_download_total_bandwidth").finalize(),
        builder_i32_r.name("max_upload_total_bandwidth").finalize(),
        builder_i32_r.name("download_quota").finalize(),
        builder_i32_r.name("upload_quota").finalize(),
        builder_i32_r.name("month_bytes_downloaded").finalize(),
        builder_i32_r.name("month_bytes_uploaded").finalize(),
        builder_i32_r.name("total_bytes_downloaded").finalize(),
        builder_i32_r.name("total_bytes_uploaded").finalize(),
        builder_i32_r.name("complain_autoban_count").finalize(),
        builder_r.name("complain_autoban_time").type_s("Duration").finalize(),
        builder_r.name("complain_remove_time").type_s("Duration").finalize(),
        builder_i32_r.name("min_clients_in_channel_before_forced_silence").finalize(),
        builder_i32_r.name("antiflood_points_tick_reduce").finalize(),
        builder_i32_r.name("antiflood_points_needed_command_block").finalize(),
        builder_i32_r.name("antiflood_points_needed_ip_block").finalize(),
        builder_i32_r.name("port").finalize(),
        builder_r.name("autostart").type_s("bool").finalize(),
        builder_i32_r.name("machine_id").finalize(),
        builder_i32_r.name("needed_identity_security_level").finalize(),
        builder_r.name("log_client").type_s("bool").finalize(),
        builder_r.name("log_query").type_s("bool").finalize(),
        builder_r.name("log_channel").type_s("bool").finalize(),
        builder_r.name("log_permissions").type_s("bool").finalize(),
        builder_r.name("log_server").type_s("bool").finalize(),
        builder_r.name("log_filetransfer").type_s("bool").finalize(),
        builder_string_r.name("min_client_version").finalize(),
        builder_i32_r.name("total_packetloss_speech").finalize(),
        builder_i32_r.name("total_packetloss_keepalive").finalize(),
        builder_i32_r.name("total_packetloss_control").finalize(),
        builder_i32_r.name("total_packetloss_total").finalize(),
        builder_i32_r.name("total_ping").finalize(),
        builder_r.name("weblist_enabled").type_s("bool").finalize(),
        builder_string.name("hostmessage").documentation("Only set on connect and not updated").finalize(),
        builder.name("hostmessage_mode").type_s("HostmessageMode").documentation("Only set on connect and not updated").finalize(),
        builder_i32.name("antiflood_points_needed_plugin_block").finalize(),
    ];
    assert(properties_view(properties@) =~= server_properties());

    let extra_property_list: Vec<(String, String, String)> = vec![
        ("Connection<'a>".to_owned(), "Connection".to_owned(), "OwnConnection,".to_owned()),
    ];
    assert(triples_view(extra_property_list@) =~= seq![("Connection<'a>"@, "Connection"@, "OwnConnection,"@)]);

    let server = StructBuilder::new()
        .name("ServerData")
        .api_name("Server")
        .do_api_impl(true)
        .do_properties(true)
        .constructor_args("id: ServerId")
        .extra_property_list(extra_property_list)
        .extra_properties(
            "ServerProperty::Connection {\n\tproperty: ServerConnectionProperty::OwnConnection,\n\tdata: self.get_own_connection(),\n},",
        )
        .properties(properties)
        .finalize();

    vec![server]
}

} // verus!
