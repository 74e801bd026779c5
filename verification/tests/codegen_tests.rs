use std::collections::HashSet;

use ts3plugin::codegen::text::{same_text, starts_with, to_pascal_case};
use ts3plugin::codegen::{channel, connection, server, string_pair, Property, PropertyBuilder, Struct, StructBuilder};

fn find<'a>(s: &'a Struct, name: &str) -> &'a Property {
    s.get_properties().iter().find(|p| p.get_name() == name).unwrap()
}

#[test]
fn pascal_case() {
    assert_eq!(to_pascal_case("max_family_clients"), "MaxFamilyClients");
    assert_eq!(to_pascal_case("id"), "Id");
    assert_eq!(to_pascal_case("_a__b_"), "AB");
    assert_eq!(to_pascal_case(""), "");
    assert_eq!(to_pascal_case("Already"), "Already");
}

#[test]
fn text_helpers() {
    assert!(same_text("abc", "abc"));
    assert!(!same_text("abc", "abd"));
    assert!(!same_text("abc", "ab"));
    assert!(starts_with("Option<u8>", "Option"));
    assert!(!starts_with("Opt", "Option"));
    assert!(starts_with("x", ""));
    assert_eq!(string_pair("a", "b"), ("a".to_string(), "b".to_string()));
}

#[test]
fn channel_description() {
    let structs = channel::create();
    assert_eq!(structs.len(), 1);
    let c = &structs[0];
    assert_eq!(c.get_name(), "ChannelData");
    assert_eq!(c.get_api_name(), "Channel");
    assert_eq!(c.get_properties().len(), 27);
    assert_eq!(c.get_properties()[0].get_name(), "id");
    assert_eq!(c.get_properties()[26].get_name(), "description");
}

#[test]
fn channel_property_code() {
    let structs = channel::create();
    let c = &structs[0];

    let quality = find(c, "codec_quality");
    assert_eq!(quality.create_initialisation(), "Err(::Error::Ok)");
    assert_eq!(
        quality.intern_create_initialisation("server_id, id, ", false),
        "ChannelData::get_property_as_int(server_id, id, ChannelProperties::CodecQuality)"
    );
    assert_eq!(
        quality.create_update_body(),
        "ChannelData::get_property_as_int(self.server_id, self.id, ChannelProperties::CodecQuality)"
    );
    assert_eq!(quality.create_return_type(), "Result<i32, ::Error>");
    assert_eq!(quality.create_getter_body(), "self.codec_quality");
    assert!(!quality.is_ref_type());

    let permanent = find(c, "permanent");
    assert_eq!(
        permanent.create_update_body(),
        "ChannelData::get_property_as_int(self.server_id, self.id, ChannelProperties::FlagPermanent).map(|v| v != 0)"
    );

    let codec = find(c, "codec");
    assert_eq!(
        codec.create_update_body(),
        "ChannelData::get_property_as_int(self.server_id, self.id, ChannelProperties::Codec).map(|v| unsafe { transmute(v) })"
    );

    let name = find(c, "name");
    assert_eq!(
        name.create_update_body(),
        "ChannelData::get_property_as_string(self.server_id, self.id, ChannelProperties::Name)"
    );
    assert_eq!(name.create_return_type(), "Result<&str, ::Error>");
    assert_eq!(name.create_ref_type(), "&'a str");
    assert_eq!(name.create_getter_body(), "self.name.as_ref().map(|v| v.as_str()).map_err(|e| *e)");
    assert!(name.is_ref_type());
    assert_eq!(name.get_type(), "String");

    let parent = find(c, "parent_channel_id");
    assert_eq!(parent.create_update_body(), "Self::query_parent_channel_id(self.server_id, self.id)");
    assert_eq!(parent.intern_create_initialisation("server_id, id, ", false), "");

    let id = find(c, "id");
    assert_eq!(id.create_initialisation(), "");
    assert_eq!(id.create_constructor_body(), "id");
    assert_eq!(id.create_return_type(), "ChannelId");
    assert_eq!(id.create_ref_type(), "ChannelId");
    assert_eq!(id.create_getter_body(), "self.id");

    assert_eq!(quality.create_constructor_body(), "Err(::Error::Ok)");
}

#[test]
fn server_description() {
    let structs = server::create();
    assert_eq!(structs.len(), 1);
    let s = &structs[0];
    assert_eq!(s.get_name(), "ServerData");
    assert_eq!(s.get_api_name(), "Server");
    assert_eq!(s.get_properties().len(), 72);
    let uptime = find(s, "uptime");
    assert_eq!(
        uptime.create_update_body(),
        "ServerData::get_property_as_uint64(self.id, VirtualServerProperties::Uptime).map(|d| Duration::seconds(d as i64))"
    );
    let created = find(s, "created");
    assert_eq!(
        created.create_update_body(),
        "ServerData::get_property_as_uint64(self.id, VirtualServerProperties::Created).map(|d| DateTime::from_utc(chrono::NaiveDateTime::from_timestamp(d as i64, 0), chrono::Utc))"
    );
    let connections = find(s, "visible_connections");
    assert_eq!(connections.create_initialisation(), "Map::new()");
    assert_eq!(connections.create_constructor_body(), "Map::new()");
    assert_eq!(connections.create_update_body(), "Self::query_connections(self.id)");
    assert_eq!(connections.create_return_type(), "&Map<ConnectionId, ConnectionData>");
    assert_eq!(connections.create_getter_body(), "&self.visible_connections");
    let welcome = find(s, "welcome_message");
    assert_eq!(
        welcome.create_update_body(),
        "ServerData::get_property_as_string(self.id, VirtualServerProperties::Welcomemessage)"
    );
}

#[test]
fn connection_description() {
    let structs = connection::create();
    assert_eq!(structs.len(), 4);
    let names: Vec<&str> = structs.iter().map(|s| s.get_name().as_str()).collect();
    assert_eq!(
        names,
        vec!["OwnConnectionData", "ServerqueryConnectionData", "OptionalConnectionData", "ConnectionData"]
    );
    assert_eq!(structs[0].get_properties().len(), 7);
    assert_eq!(structs[1].get_properties().len(), 4);
    assert_eq!(structs[2].get_properties().len(), 76);
    assert_eq!(structs[3].get_properties().len(), 26);
    assert_eq!(structs[3].get_api_name(), "Connection");
    assert_eq!(structs[0].get_api_name(), "");
}

#[test]
fn collect_properties_keeps_first_of_each_name() {
    let structs = connection::create();
    let refs: Vec<&Struct> = structs.iter().collect();
    let collected = structs[0].collect_properties(&refs);
    // The expected list: the properties of the structs with an empty api
    // name, the first of each name only, in order.
    let mut seen = HashSet::new();
    let mut expected: Vec<&str> = Vec::new();
    for s in structs.iter().filter(|s| s.get_api_name().is_empty()) {
        for p in s.get_properties() {
            if seen.insert(p.get_name().clone()) {
                expected.push(p.get_name().as_str());
            }
        }
    }
    let got: Vec<&str> = collected.iter().map(|p| p.get_name().as_str()).collect();
    assert_eq!(got, expected);
    assert!(got.len() < 7 + 4 + 76);
    assert_eq!(got[0], "id");
    assert_eq!(got[1], "server_id");
    // The first property of a name is the one that counts.
    assert!(std::ptr::eq(collected[0], &structs[0].get_properties()[0]));

    let connection_props = structs[3].collect_properties(&refs);
    assert_eq!(connection_props.len(), structs[3].get_properties().len());
}

#[test]
fn collect_property_types_of_channel() {
    let structs = channel::create();
    let refs: Vec<&Struct> = structs.iter().collect();
    let types = structs[0].collect_property_types(&refs);
    // Every type once, in order of first use.
    let firsts: Vec<&str> = types.iter().map(|t| t.0.as_str()).collect();
    let unique: HashSet<&str> = firsts.iter().cloned().collect();
    assert_eq!(unique.len(), firsts.len());
    assert!(types.contains(&("String".to_string(), "&'a str".to_string())));
    assert!(types.contains(&("i32".to_string(), "i32".to_string())));
    assert!(types.contains(&("bool".to_string(), "bool".to_string())));
    // The extra property is added as (reference name, type).
    assert_eq!(
        types.last().unwrap(),
        &("OptionChannel".to_string(), "Option<Channel<'a>>".to_string())
    );
    // The ids and the parent channel have no api getter.
    assert!(!firsts.contains(&"ChannelId"));
    assert_eq!(types[0], ("String".to_string(), "&'a str".to_string()));
}

#[test]
fn builders() {
    let functions = vec![string_pair("i32", "get_int")];
    let p = PropertyBuilder::new()
        .name("talk_power")
        .type_s("i32")
        .functions(&functions)
        .enum_name("Props")
        .default_args("a, ")
        .default_args_update("b, ")
        .result(false)
        .finalize();
    assert_eq!(p.get_name(), "talk_power");
    assert_eq!(p.create_initialisation(), "get_int(a, Props::TalkPower)");
    assert_eq!(p.create_constructor_body(), "get_int(a, Props::TalkPower)");
    assert_eq!(p.create_update_body(), "get_int(b, Props::TalkPower)");
    let copy = p.copy();
    assert_eq!(copy.create_update_body(), "get_int(b, Props::TalkPower)");

    let no_update = PropertyBuilder::new()
        .name("x")
        .type_s("i32")
        .functions(&functions)
        .should_update(false)
        .finalize();
    assert_eq!(no_update.create_update_body(), "");
    let not_initialised = PropertyBuilder::new()
        .name("x")
        .type_s("i32")
        .functions(&functions)
        .initialise(false)
        .result(false)
        .finalize();
    assert_eq!(not_initialised.create_initialisation(), "");
    assert_eq!(not_initialised.create_constructor_body(), "x");
    let special = PropertyBuilder::new()
        .name("y")
        .type_s("i32")
        .method_name("special")
        .enum_name("E")
        .finalize();
    assert_eq!(special.create_update_body(), "special(E::Y)");
    // Transmutable without an integer function gives no code.
    let t = vec!["Mode".to_string()];
    let mode = PropertyBuilder::new().name("m").type_s("Mode").transmutable(&t).finalize();
    assert_eq!(mode.create_update_body(), "");
    // A duration without functions falls back to get_property_as_int.
    let d = PropertyBuilder::new().name("d").type_s("Duration").enum_name("E").finalize();
    assert_eq!(d.create_update_body(), "get_property_as_int(E::D).map(|d| Duration::seconds(d as i64))");

    let mut sb = StructBuilder::new();
    let s = sb.name("Data").api_name("Api").properties(vec![p]).finalize();
    assert_eq!(s.get_name(), "Data");
    assert_eq!(s.get_api_name(), "Api");
    assert_eq!(s.get_properties().len(), 1);
}

#[test]
fn serverquery_name_update_body() {
    let structs = connection::create();
    let name = find(&structs[1], "name");
    assert_eq!(
        name.create_update_body(),
        "ConnectionData::get_connection_property_as_string(self.server_id, self.id, ConnectionProperties::Name)"
    );
    let uid = find(&structs[3], "uid");
    assert_eq!(
        uid.create_update_body(),
        "ConnectionData::get_client_property_as_string(self.server_id, self.id, ClientProperties::UniqueIdentifier)"
    );
}

#[test]
fn later_function_for_a_type_wins() {
    let functions = vec![string_pair("i32", "first"), string_pair("u64", "other"), string_pair("i32", "second")];
    let p = PropertyBuilder::new()
        .name("level")
        .type_s("i32")
        .functions(&functions)
        .enum_name("E")
        .finalize();
    assert_eq!(p.create_update_body(), "second(E::Level)");
}
