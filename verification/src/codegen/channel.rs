//! The description of the channel data.
use vstd::prelude::*;

use super::{
    new_property, new_struct, pairs_view, plain_id, prop, properties_view, string_pair,
    strings_view, triples_view, with_doc, with_value_name, Property, PropertyBuilder, PropertyView,
    Struct, StructBuilder, StructView,
};

verus! {

/// The functions that fetch channel properties, by type.
pub open spec fn channel_functions() -> Seq<(Seq<char>, Seq<char>)> {
    seq![
        ("i32"@, "ChannelData::get_property_as_int"@),
        ("u64"@, "ChannelData::get_property_as_uint64"@),
        ("String"@, "ChannelData::get_property_as_string"@),
    ]
}

/// What every channel property starts from.
pub open spec fn channel_base() -> PropertyView {
    PropertyView {
        functions: channel_functions(),
        transmutable: seq!["CodecType"@, "HostbannerMode"@],
        default_args: "server_id, id, "@,
        default_args_update: "self.server_id, self.id, "@,
        enum_name: "ChannelProperties"@,
        ..new_property()
    }
}

/// The properties of a channel.
pub open spec fn channel_properties() -> Seq<PropertyView> {
    let b = channel_base();
    seq![
        plain_id(prop(b, "id"@, "ChannelId"@)),
        plain_id(prop(b, "server_id"@, "ServerId"@)),
        PropertyView {
            update: Some("Self::query_parent_channel_id(self.server_id, self.id)"@),
            documentation: "The id of the parent channel, 0 if there is no parent channel"@,
            api_getter: false,
            ..prop(b, "parent_channel_id"@, "ChannelId"@)
        },
        prop(b, "name"@, "String"@),
        prop(b, "topic"@, "String"@),
        prop(b, "codec"@, "CodecType"@),
        prop(b, "codec_quality"@, "i32"@),
        prop(b, "max_clients"@, "i32"@),
        prop(b, "max_family_clients"@, "i32"@),
        prop(b, "order"@, "i32"@),
        with_value_name(prop(b, "permanent"@, "bool"@), "FlagPermanent"@),
        with_value_name(prop(b, "semi_permanent"@, "bool"@), "FlagSemiPermanent"@),
        with_value_name(prop(b, "default"@, "bool"@), "FlagDefault"@),
        with_value_name(prop(b, "password"@, "bool"@), "FlagPassword"@),
        prop(b, "codec_latency_factor"@, "i32"@),
        prop(b, "codec_is_unencrypted"@, "bool"@),
        prop(b, "delete_delay"@, "i32"@),
        with_value_name(prop(b, "max_clients_unlimited"@, "bool"@), "FlagMaxClientsUnlimited"@),
        with_value_name(
            prop(b, "max_family_clients_unlimited"@, "bool"@),
            "FlagMaxFamilyClientsUnlimited"@,
        ),
        with_doc(
            with_value_name(prop(b, "subscribed"@, "bool"@), "FlagAreSubscribed"@),
            "If we are subscribed to this channel"@,
        ),
        prop(b, "needed_talk_power"@, "i32"@),
        prop(b, "forced_silence"@, "i32"@),
        with_value_name(prop(b, "phonetic_name"@, "String"@), "NamePhonetic"@),
        prop(b, "icon_id"@, "i32"@),
        with_value_name(prop(b, "banner_gfx_url"@, "String"@), "BannerGfxUrl"@),
        with_value_name(prop(b, "banner_mode"@, "HostbannerMode"@), "BannerMode"@),
        PropertyView { requested: true, ..prop(b, "description"@, "String"@) },
    ]
}

/// The description of the channel data struct.
pub open spec fn channel_struct() -> StructView {
    StructView {
        name: "ChannelData"@,
        api_name: "Channel"@,
        do_api_impl: true,
        do_properties: true,
        constructor_args: "server_id: ServerId, id: ChannelId"@,
        extra_property_list: seq![("Option<Channel<'a>>"@, "OptionChannel"@, "ParentChannel,"@)],
        extra_properties: "ChannelProperty::OptionChannel {\n\tproperty: ChannelOptionChannelProperty::ParentChannel,\n\tdata: self.get_parent_channel(),\n},"@,
        properties: channel_properties(),
        ..new_struct()
    }
}

/// The description of the data that is kept of a channel.
pub fn create() -> (r: Vec<Struct>)
    ensures
        r.len() == 1,
        r[0]@ == channel_struct(),
{
    // Map types to functions that will get that type
    let default_functions: Vec<(String, String)> = vec![
        string_pair("i32", "ChannelData::get_property_as_int"),
        string_pair("u64", "ChannelData::get_property_as_uint64"),
        string_pair("String", "ChannelData::get_property_as_string"),
    ];
    assert(pairs_view(default_functions@) =~= channel_functions());
    let transmutable: Vec<String> = vec!["CodecType".to_owned(), "HostbannerMode".to_owned()];
    assert(strings_view(transmutable@) =~= seq!["CodecType"@, "HostbannerMode"@]);

    let builder = PropertyBuilder::new()
        .functions(&default_functions)
        .transmutable(&transmutable)
        .default_args("server_id, id, ")
        .default_args_update("self.server_id, self.id, ")
        .enum_name("ChannelProperties");
    let builder_string = builder.type_s("String");
    let builder_i32 = builder.type_s("i32");
    let builder_bool = builder.type_s("bool");

    let properties: Vec<Property> = vec![
        builder.name("id").type_s("ChannelId").result(false).api_getter(false).finalize(),
        builder.name("server_id").type_s("ServerId").result(false).api_getter(false).finalize(),
        builder
            .name("parent_channel_id")
            .type_s("ChannelId")
            .update("Self::query_parent_channel_id(self.server_id, self.id)")
            .documentation("The id of the parent channel, 0 if there is no parent channel")
            .api_getter(false)
            .finalize(),
        builder_string.name("name").finalize(),
        builder_string.name("topic").finalize(),
        builder.name("codec").type_s("CodecType").finalize(),
        builder_i32.name("codec_quality").finalize(),
        builder_i32.name("max_clients").finalize(),
        builder_i32.name("max_family_clients").finalize(),
        builder_i32.name("order").finalize(),
        builder_bool.name("permanent").value_name("FlagPermanent").finalize(),
        builder_bool.name("semi_permanent").value_name("FlagSemiPermanent").finalize(),
        builder_bool.name("default").value_name("FlagDefault").finalize(),
        builder_bool.name("password").value_name("FlagPassword").finalize(),
        builder_i32.name("codec_latency_factor").finalize(),
        builder_bool.name("codec_is_unencrypted").finalize(),
        builder_i32.name("delete_delay").finalize(),
        builder_bool.name("max_clients_unlimited").value_name("FlagMaxClientsUnlimited").finalize(),
        builder_bool
            .name("max_family_clients_unlimited")
            .value_name("FlagMaxFamilyClientsUnlimited")
            .finalize(),
        builder_bool
            .name("subscribed")
            .value_name("FlagAreSubscribed")
            .documentation("If we are subscribed to this channel")
            .finalize(),
        builder_i32.name("needed_talk_power").finalize(),
        builder_i32.name("forced_silence").finalize(),
        builder_string.name("phonetic_name").value_name("NamePhonetic").finalize(),
        builder_i32.name("icon_id").finalize(),
        builder_string.name("banner_gfx_url").value_name("BannerGfxUrl").finalize(),
        builder.name("banner_mode").value_name("BannerMode").type_s("HostbannerMode").finalize(),
        // Requested
        builder_string.name("description").requested(true).finalize(),
    ];
    assert(properties_view(properties@) =~= channel_properties());

    let extra_property_list: Vec<(String, String, String)> = vec![
        ("Option<Channel<'a>>".to_owned(), "OptionChannel".to_owned(), "ParentChannel,".to_owned()),
    ];
    assert(triples_view(extra_property_list@) =~= seq![
        ("Option<Channel<'a>>"@, "OptionChannel"@, "ParentChannel,"@),
    ]);

    let channel = StructBuilder::new()
        .name("ChannelData")
        .api_name("Channel")
        .do_api_impl(true)
        .do_properties(true)
        .constructor_args("server_id: ServerId, id: ChannelId")
        .extra_property_list(extra_property_list)
        .extra_properties(
            "ChannelProperty::OptionChannel {\n\tproperty: ChannelOptionChannelProperty::ParentChannel,\n\tdata: self.get_parent_channel(),\n},",
        )
        .properties(properties)
        .finalize();

    vec![channel]
}

} // verus!
