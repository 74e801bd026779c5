//! The descriptions fetch each property by an enum value of its own.
use vstd::prelude::*;

use crate::codegen::text::{pascal_case, pascal_from};
use crate::codegen::{value_name_of, PropertyView};
use crate::codegen::channel::channel_properties;
use crate::codegen::server::server_properties;
use crate::codegen::connection::own_connection_properties;
use crate::codegen::connection::serverquery_connection_properties;
use crate::codegen::connection::optional_connection_properties;
use crate::codegen::connection::connection_properties;

verus! {

/// The enum values by which the properties of a description are fetched.
pub open spec fn value_names(ps: Seq<PropertyView>) -> Seq<Seq<char>> {
    ps.map_values(|p: PropertyView| value_name_of(p))
}

/// Whether no two texts of a list are equal.
pub open spec fn pairwise_distinct(s: Seq<Seq<char>>) -> bool {
    forall|i: int, j: int| 0 <= i < j < s.len() ==> s[i] != s[j]
}

spec fn absent_from(s: Seq<Seq<char>>, x: Seq<char>, j: int) -> bool
    decreases s.len() - j,
{
    if j < 0 || j >= s.len() {
        true
    } else {
        s[j] != x && absent_from(s, x, j + 1)
    }
}

spec fn distinct_from(s: Seq<Seq<char>>, i: int) -> bool
    decreases s.len() - i,
{
    if i < 0 || i >= s.len() {
        true
    } else {
        absent_from(s, s[i], i + 1) && distinct_from(s, i + 1)
    }
}

proof fn lemma_absent_from(s: Seq<Seq<char>>, x: Seq<char>, j: int)
    requires
        0 <= j,
        absent_from(s, x, j),
    ensures
        forall|k: int| j <= k < s.len() ==> s[k] != x,
    decreases s.len() - j,
{
    if j < s.len() {
        lemma_absent_from(s, x, j + 1);
    }
}

proof fn lemma_distinct_from(s: Seq<Seq<char>>, i: int)
    requires
        0 <= i,
        distinct_from(s, i),
    ensures
        forall|a: int, b: int| i <= a < b < s.len() ==> s[a] != s[b],
    decreases s.len() - i,
{
    if i < s.len() {
        lemma_absent_from(s, s[i], i + 1);
        lemma_distinct_from(s, i + 1);
    }
}

/// The enum values of the properties of the channel data.
spec fn channel_value_list() -> Seq<Seq<char>> {
    seq![
        "Id"@,
        "ServerId"@,
        "ParentChannelId"@,
        "Name"@,
        "Topic"@,
        "Codec"@,
        "CodecQuality"@,
        "MaxClients"@,
        "MaxFamilyClients"@,
        "Order"@,
        "FlagPermanent"@,
        "FlagSemiPermanent"@,
        "FlagDefault"@,
        "FlagPassword"@,
        "CodecLatencyFactor"@,
        "CodecIsUnencrypted"@,
        "DeleteDelay"@,
        "FlagMaxClientsUnlimited"@,
        "FlagMaxFamilyClientsUnlimited"@,
        "FlagAreSubscribed"@,
        "NeededTalkPower"@,
        "ForcedSilence"@,
        "NamePhonetic"@,
        "IconId"@,
        "BannerGfxUrl"@,
        "BannerMode"@,
        "Description"@,
    ]
}

#[verifier::rlimit(100)]
proof fn lemma_channel_pascal_0()
    ensures
        pascal_case("id"@) == "Id"@,
        pascal_case("server_id"@) == "ServerId"@,
        pascal_case("parent_channel_id"@) == "ParentChannelId"@,
        pascal_case("name"@) == "Name"@,
        pascal_case("topic"@) == "Topic"@,
        pascal_case("codec"@) == "Codec"@,
        pascal_case("codec_quality"@) == "CodecQuality"@,
        pascal_case("max_clients"@) == "MaxClients"@,
{
    reveal_strlit("id");
    reveal_strlit("Id");
    reveal_strlit("server_id");
    reveal_strlit("ServerId");
    reveal_strlit("parent_channel_id");
    reveal_strlit("ParentChannelId");
    reveal_strlit("name");
    reveal_strlit("Name");
    reveal_strlit("topic");
    reveal_strlit("Topic");
    reveal_strlit("codec");
    reveal_strlit("Codec");
    reveal_strlit("codec_quality");
    reveal_strlit("CodecQuality");
    reveal_strlit("max_clients");
    reveal_strlit("MaxClients");
    reveal_with_fuel(pascal_from, 19);
    assert(pascal_case("id"@) =~= "Id"@);
    assert(pascal_case("server_id"@) =~= "ServerId"@);
    assert(pascal_case("parent_channel_id"@) =~= "ParentChannelId"@);
    assert(pascal_case("name"@) =~= "Name"@);
    assert(pascal_case("topic"@) =~= "Topic"@);
    assert(pascal_case("codec"@) =~= "Codec"@);
    assert(pascal_case("codec_quality"@) =~= "CodecQuality"@);
    assert(pascal_case("max_clients"@) =~= "MaxClients"@);
}

#[verifier::rlimit(100)]
proof fn lemma_channel_pascal_1()
    ensures
        pascal_case("max_family_clients"@) == "MaxFamilyClients"@,
        pascal_case("order"@) == "Order"@,
        pascal_case("codec_latency_factor"@) == "CodecLatencyFactor"@,
{
    reveal_strlit("max_family_clients");
    reveal_strlit("MaxFamilyClients");
    reveal_strlit("order");
    reveal_strlit("Order");
    reveal_strlit("codec_latency_factor");
    reveal_strlit("CodecLatencyFactor");
    reveal_with_fuel(pascal_from, 22);
    assert(pascal_case("max_family_clients"@) =~= "MaxFamilyClients"@);
    assert(pascal_case("order"@) =~= "Order"@);
    assert(pascal_case("codec_latency_factor"@) =~= "CodecLatencyFactor"@);
}

#[verifier::rlimit(100)]
proof fn lemma_channel_pascal_2()
    ensures
        pascal_case("codec_is_unencrypted"@) == "CodecIsUnencrypted"@,
        pascal_case("delete_delay"@) == "DeleteDelay"@,
        pascal_case("needed_talk_power"@) == "NeededTalkPower"@,
{
    reveal_strlit("codec_is_unencrypted");
    reveal_strlit("CodecIsUnencrypted");
    reveal_strlit("delete_delay");
    reveal_strlit("DeleteDelay");
    reveal_strlit("needed_talk_power");
    reveal_strlit("NeededTalkPower");
    reveal_with_fuel(pascal_from, 22);
    assert(pascal_case("codec_is_unencrypted"@) =~= "CodecIsUnencrypted"@);
    assert(pascal_case("delete_delay"@) =~= "DeleteDelay"@);
    assert(pascal_case("needed_talk_power"@) =~= "NeededTalkPower"@);
}

#[verifier::rlimit(100)]
proof fn lemma_channel_pascal_3()
    ensures
        pascal_case("forced_silence"@) == "ForcedSilence"@,
        pascal_case("icon_id"@) == "IconId"@,
        pascal_case("description"@) == "Description"@,
{
    reveal_strlit("forced_silence");
    reveal_strlit("ForcedSilence");
    reveal_strlit("icon_id");
    reveal_strlit("IconId");
    reveal_strlit("description");
    reveal_strlit("Description");
    reveal_with_fuel(pascal_from, 16);
    assert(pascal_case("forced_silence"@) =~= "ForcedSilence"@);
    assert(pascal_case("icon_id"@) =~= "IconId"@);
    assert(pascal_case("description"@) =~= "Description"@);
}


proof fn lemma_channel_value_names()
    ensures
        value_names(channel_properties()) == channel_value_list(),
{
    lemma_channel_pascal_0();
    lemma_channel_pascal_1();
    lemma_channel_pascal_2();
    lemma_channel_pascal_3();
    // Each property's value name: the given one, else the computed one.
    assert(value_name_of(channel_properties()[0]) == "Id"@);
    assert(value_name_of(channel_properties()[1]) == "ServerId"@);
    assert(value_name_of(channel_properties()[2]) == "ParentChannelId"@);
    assert(value_name_of(channel_properties()[3]) == "Name"@);
    assert(value_name_of(channel_properties()[4]) == "Topic"@);
    assert(value_name_of(channel_properties()[5]) == "Codec"@);
    assert(value_name_of(channel_properties()[6]) == "CodecQuality"@);
    assert(value_name_of(channel_properties()[7]) == "MaxClients"@);
    assert(value_name_of(channel_properties()[8]) == "MaxFamilyClients"@);
    assert(value_name_of(channel_properties()[9]) == "Order"@);
    assert(value_name_of(channel_properties()[10]) == "FlagPermanent"@);
    assert(value_name_of(channel_properties()[11]) == "FlagSemiPermanent"@);
    assert(value_name_of(channel_properties()[12]) == "FlagDefault"@);
    assert(value_name_of(channel_properties()[13]) == "FlagPassword"@);
    assert(value_name_of(channel_properties()[14]) == "CodecLatencyFactor"@);
    assert(value_name_of(channel_properties()[15]) == "CodecIsUnencrypted"@);
    assert(value_name_of(channel_properties()[16]) == "DeleteDelay"@);
    assert(value_name_of(channel_properties()[17]) == "FlagMaxClientsUnlimited"@);
    assert(value_name_of(channel_properties()[18]) == "FlagMaxFamilyClientsUnlimited"@);
    assert(value_name_of(channel_properties()[19]) == "FlagAreSubscribed"@);
    assert(value_name_of(channel_properties()[20]) == "NeededTalkPower"@);
    assert(value_name_of(channel_properties()[21]) == "ForcedSilence"@);
    assert(value_name_of(channel_properties()[22]) == "NamePhonetic"@);
    assert(value_name_of(channel_properties()[23]) == "IconId"@);
    assert(value_name_of(channel_properties()[24]) == "BannerGfxUrl"@);
    assert(value_name_of(channel_properties()[25]) == "BannerMode"@);
    assert(value_name_of(channel_properties()[26]) == "Description"@);
    assert(value_names(channel_properties()) =~= channel_value_list());
}

#[verifier::rlimit(100)]
proof fn lemma_channel_values_distinct()
    ensures
        pairwise_distinct(channel_value_list()),
{
    reveal_strlit("BannerGfxUrl");
    reveal_strlit("BannerMode");
    reveal_strlit("Codec");
    reveal_strlit("CodecIsUnencrypted");
    reveal_strlit("CodecLatencyFactor");
    reveal_strlit("CodecQuality");
    reveal_strlit("DeleteDelay");
    reveal_strlit("Description");
    reveal_strlit("FlagAreSubscribed");
    reveal_strlit("FlagDefault");
    reveal_strlit("FlagMaxClientsUnlimited");
    reveal_strlit("FlagMaxFamilyClientsUnlimited");
    reveal_strlit("FlagPassword");
    reveal_strlit("FlagPermanent");
    reveal_strlit("FlagSemiPermanent");
    reveal_strlit("ForcedSilence");
    reveal_strlit("IconId");
    reveal_strlit("Id");
    reveal_strlit("MaxClients");
    reveal_strlit("MaxFamilyClients");
    reveal_strlit("Name");
    reveal_strlit("NamePhonetic");
    reveal_strlit("NeededTalkPower");
    reveal_strlit("Order");
    reveal_strlit("ParentChannelId");
    reveal_strlit("ServerId");
    reveal_strlit("Topic");
    // The length of each value name, and for two of equal length a letter
    // in which they differ.
    assert("BannerGfxUrl"@.len() == 12);
    assert("BannerMode"@.len() == 10);
    assert("Codec"@.len() == 5);
    assert("CodecIsUnencrypted"@.len() == 18);
    assert("CodecLatencyFactor"@.len() == 18);
    assert("CodecQuality"@.len() == 12);
    assert("DeleteDelay"@.len() == 11);
    assert("Description"@.len() == 11);
    assert("FlagAreSubscribed"@.len() == 17);
    assert("FlagDefault"@.len() == 11);
    assert("FlagMaxClientsUnlimited"@.len() == 23);
    assert("FlagMaxFamilyClientsUnlimited"@.len() == 29);
    assert("FlagPassword"@.len() == 12);
    assert("FlagPermanent"@.len() == 13);
    assert("FlagSemiPermanent"@.len() == 17);
    assert("ForcedSilence"@.len() == 13);
    assert("IconId"@.len() == 6);
    assert("Id"@.len() == 2);
    assert("MaxClients"@.len() == 10);
    assert("MaxFamilyClients"@.len() == 16);
    assert("Name"@.len() == 4);
    assert("NamePhonetic"@.len() == 12);
    assert("NeededTalkPower"@.len() == 15);
    assert("Order"@.len() == 5);
    assert("ParentChannelId"@.len() == 15);
    assert("ServerId"@.len() == 8);
    assert("Topic"@.len() == 5);
    assert("ParentChannelId"@[0] != "NeededTalkPower"@[0]);
    assert("Topic"@[0] != "Codec"@[0]);
    assert("Topic"@[0] != "Order"@[0]);
    assert("Codec"@[0] != "Order"@[0]);
    assert("CodecQuality"@[0] != "FlagPassword"@[0]);
    assert("CodecQuality"@[0] != "NamePhonetic"@[0]);
    assert("CodecQuality"@[0] != "BannerGfxUrl"@[0]);
    assert("MaxClients"@[0] != "BannerMode"@[0]);
    assert("FlagPermanent"@[1] != "ForcedSilence"@[1]);
    assert("FlagSemiPermanent"@[4] != "FlagAreSubscribed"@[4]);
    assert("FlagDefault"@[0] != "DeleteDelay"@[0]);
    assert("FlagDefault"@[0] != "Description"@[0]);
    assert("FlagPassword"@[0] != "NamePhonetic"@[0]);
    assert("FlagPassword"@[0] != "BannerGfxUrl"@[0]);
    assert("CodecLatencyFactor"@[5] != "CodecIsUnencrypted"@[5]);
    assert("DeleteDelay"@[2] != "Description"@[2]);
    assert("NamePhonetic"@[0] != "BannerGfxUrl"@[0]);
    reveal_with_fuel(distinct_from, 28);
    reveal_with_fuel(absent_from, 28);
    assert(distinct_from(channel_value_list(), 0));
    lemma_distinct_from(channel_value_list(), 0);
}

/// No two properties of the channel data are fetched by the same enum value: each
/// one's value name (its given value name, else its name in pascal case) is
/// its own.
pub proof fn law_channel_value_names_distinct()
    ensures
        forall|i: int, j: int|
            0 <= i < j < channel_properties().len() ==> value_name_of(#[trigger] channel_properties()[i])
                != value_name_of(#[trigger] channel_properties()[j]),
{
    lemma_channel_value_names();
    lemma_channel_values_distinct();
    assert forall|i: int, j: int| 0 <= i < j < channel_properties().len() implies value_name_of(
        #[trigger] channel_properties()[i],
    ) != value_name_of(#[trigger] channel_properties()[j]) by {
        assert(value_names(channel_properties())[i] == value_name_of(channel_properties()[i]));
        assert(value_names(channel_properties())[j] == value_name_of(channel_properties()[j]));
    }
}

/// The enum values of the properties of the server data.
spec fn server_value_list() -> Seq<Seq<char>> {
    seq![
        "Id"@,
        "UniqueIdentifier"@,
        "OwnConnectionId"@,
        "Name"@,
        "NamePhonetic"@,
        "Platform"@,
        "Version"@,
        "Nickname"@,
        "AccountingToken"@,
        "Created"@,
        "CodecEncryptionMode"@,
        "DefaultServerGroup"@,
        "DefaultChannelGroup"@,
        "DefaultChannelAdminGroup"@,
        "HostbannerUrl"@,
        "HostbannerGfxUrl"@,
        "HostbannerGfxInterval"@,
        "HostbannerMode"@,
        "PrioritySpeakerDimmModificator"@,
        "HostbuttonTooltip"@,
        "HostbuttonUrl"@,
        "HostbuttonGfxUrl"@,
        "IconId"@,
        "ReservedSlots"@,
        "AskForPrivilegekey"@,
        "ChannelTempDeleteDelayDefault"@,
        "VisibleConnections"@,
        "Channels"@,
        "Welcomemessage"@,
        "MaxClients"@,
        "ClientsOnline"@,
        "ChannelsOnline"@,
        "ClientConnections"@,
        "QueryClientConnections"@,
        "QueryclientsOnline"@,
        "Uptime"@,
        "Password"@,
        "MaxDownloadTotalBandwidth"@,
        "MaxUploadTotalBandwidth"@,
        "DownloadQuota"@,
        "UploadQuota"@,
        "MonthBytesDownloaded"@,
        "MonthBytesUploaded"@,
        "TotalBytesDownloaded"@,
        "TotalBytesUploaded"@,
        "ComplainAutobanCount"@,
        "ComplainAutobanTime"@,
        "ComplainRemoveTime"@,
        "MinClientsInChannelBeforeForcedSilence"@,
        "AntifloodPointsTickReduce"@,
        "AntifloodPointsNeededCommandBlock"@,
        "AntifloodPointsNeededIpBlock"@,
        "Port"@,
        "Autostart"@,
        "MachineId"@,
        "NeededIdentitySecurityLevel"@,
        "LogClient"@,
        "LogQuery"@,
        "LogChannel"@,
        "LogPermissions"@,
        "LogServer"@,
        "LogFiletransfer"@,
        "MinClientVersion"@,
        "TotalPacketlossSpeech"@,
        "TotalPacketlossKeepalive"@,
        "TotalPacketlossControl"@,
        "TotalPacketlossTotal"@,
        "TotalPing"@,
        "WeblistEnabled"@,
        "Hostmessage"@,
        "HostmessageMode"@,
        "AntifloodPointsNeededPluginBlock"@,
    ]
}

#[verifier::rlimit(100)]
proof fn lemma_server_pascal_0()
    ensures
        pascal_case("id"@) == "Id"@,
        pascal_case("own_connection_id"@) == "OwnConnectionId"@,
        pascal_case("name"@) == "Name"@,
        pascal_case("platform"@) == "Platform"@,
        pascal_case("version"@) == "Version"@,
        pascal_case("nickname"@) == "Nickname"@,
        pascal_case("accounting_token"@) == "AccountingToken"@,
        pascal_case("created"@) == "Created"@,
{
    reveal_strlit("id");
    reveal_strlit("Id");
    reveal_strlit("own_connection_id");
    reveal_strlit("OwnConnectionId");
    reveal_strlit("name");
    reveal_strlit("Name");
    reveal_strlit("platform");
    reveal_strlit("Platform");
    reveal_strlit("version");
    reveal_strlit("Version");
    reveal_strlit("nickname");
    reveal_strlit("Nickname");
    reveal_strlit("accounting_token");
    reveal_strlit("AccountingToken");
    reveal_strlit("created");
    reveal_strlit("Created");
    reveal_with_fuel(pascal_from, 19);
    assert(pascal_case("id"@) =~= "Id"@);
    assert(pascal_case("own_connection_id"@) =~= "OwnConnectionId"@);
    assert(pascal_case("name"@) =~= "Name"@);
    assert(pascal_case("platform"@) =~= "Platform"@);
    assert(pascal_case("version"@) =~= "Version"@);
    assert(pascal_case("nickname"@) =~= "Nickname"@);
    assert(pascal_case("accounting_token"@) =~= "AccountingToken"@);
    assert(pascal_case("created"@) =~= "Created"@);
}

#[verifier::rlimit(100)]
proof fn lemma_server_pascal_1()
    ensures
        pascal_case("codec_encryption_mode"@) == "CodecEncryptionMode"@,
        pascal_case("default_server_group"@) == "DefaultServerGroup"@,
{
    reveal_strlit("codec_encryption_mode");
    reveal_strlit("CodecEncryptionMode");
    reveal_strlit("default_server_group");
    reveal_strlit("DefaultServerGroup");
    reveal_with_fuel(pascal_from, 23);
    assert(pascal_case("codec_encryption_mode"@) =~= "CodecEncryptionMode"@);
    assert(pascal_case("default_server_group"@) =~= "DefaultServerGroup"@);
}

#[verifier::rlimit(100)]
proof fn lemma_server_pascal_2()
    ensures
        pascal_case("default_channel_group"@) == "DefaultChannelGroup"@,
{
    reveal_strlit("default_channel_group");
    reveal_strlit("DefaultChannelGroup");
    reveal_with_fuel(pascal_from, 23);
    assert(pascal_case("default_channel_group"@) =~= "DefaultChannelGroup"@);
}

#[verifier::rlimit(100)]
proof fn lemma_server_pascal_3()
    ensures
        pascal_case("default_channel_admin_group"@) == "DefaultChannelAdminGroup"@,
{
    reveal_strlit("default_channel_admin_group");
    reveal_strlit("DefaultChannelAdminGroup");
    reveal_with_fuel(pascal_from, 29);
    assert(pascal_case("default_channel_admin_group"@) =~= "DefaultChannelAdminGroup"@);
}

#[verifier::rlimit(100)]
proof fn lemma_server_pascal_4()
    ensures
        pascal_case("hostbanner_url"@) == "HostbannerUrl"@,
        pascal_case("hostbanner_gfx_url"@) == "HostbannerGfxUrl"@,
{
    reveal_strlit("hostbanner_url");
    reveal_strlit("HostbannerUrl");
    reveal_strlit("hostbanner_gfx_url");
    reveal_strlit("HostbannerGfxUrl");
    reveal_with_fuel(pascal_from, 20);
    assert(pascal_case("hostbanner_url"@) =~= "HostbannerUrl"@);
    assert(pascal_case("hostbanner_gfx_url"@) =~= "HostbannerGfxUrl"@);
}

#[verifier::rlimit(100)]
proof fn lemma_server_pascal_5()
    ensures
        pascal_case("hostbanner_gfx_interval"@) == "HostbannerGfxInterval"@,
        pascal_case("hostbanner_mode"@) == "HostbannerMode"@,
{
    reveal_strlit("hostbanner_gfx_interval");
    reveal_strlit("HostbannerGfxInterval");
    reveal_strlit("hostbanner_mode");
    reveal_strlit("HostbannerMode");
    reveal_with_fuel(pascal_from, 25);
    assert(pascal_case("hostbanner_gfx_interval"@) =~= "HostbannerGfxInterval"@);
    assert(pascal_case("hostbanner_mode"@) =~= "HostbannerMode"@);
}

#[verifier::rlimit(100)]
proof fn lemma_server_pascal_6()
    ensures
        pascal_case("priority_speaker_dimm_modificator"@) == "PrioritySpeakerDimmModificator"@,
{
    reveal_strlit("priority_speaker_dimm_modificator");
    reveal_strlit("PrioritySpeakerDimmModificator");
    reveal_with_fuel(pascal_from, 35);
    assert(pascal_case("priority_speaker_dimm_modificator"@) =~= "PrioritySpeakerDimmModificator"@);
}

#[verifier::rlimit(100)]
proof fn lemma_server_pascal_7()
    ensures
        pascal_case("hostbutton_tooltip"@) == "HostbuttonTooltip"@,
        pascal_case("hostbutton_url"@) == "HostbuttonUrl"@,
        pascal_case("hostbutton_gfx_url"@) == "HostbuttonGfxUrl"@,
        pascal_case("icon_id"@) == "IconId"@,
{
    reveal_strlit("hostbutton_tooltip");
    reveal_strlit("HostbuttonTooltip");
    reveal_strlit("hostbutton_url");
    reveal_strlit("HostbuttonUrl");
    reveal_strlit("hostbutton_gfx_url");
    reveal_strlit("HostbuttonGfxUrl");
    reveal_strlit("icon_id");
    reveal_strlit("IconId");
    reveal_with_fuel(pascal_from, 20);
    assert(pascal_case("hostbutton_tooltip"@) =~= "HostbuttonTooltip"@);
    assert(pascal_case("hostbutton_url"@) =~= "HostbuttonUrl"@);
    assert(pascal_case("hostbutton_gfx_url"@) =~= "HostbuttonGfxUrl"@);
    assert(pascal_case("icon_id"@) =~= "IconId"@);
}

#[verifier::rlimit(100)]
proof fn lemma_server_pascal_8()
    ensures
        pascal_case("reserved_slots"@) == "ReservedSlots"@,
        pascal_case("ask_for_privilegekey"@) == "AskForPrivilegekey"@,
{
    reveal_strlit("reserved_slots");
    reveal_strlit("ReservedSlots");
    reveal_strlit("ask_for_privilegekey");
    reveal_strlit("AskForPrivilegekey");
    reveal_with_fuel(pascal_from, 22);
    assert(pascal_case("reserved_slots"@) =~= "ReservedSlots"@);
    assert(pascal_case("ask_for_privilegekey"@) =~= "AskForPrivilegekey"@);
}

#[verifier::rlimit(100)]
proof fn lemma_server_pascal_9()
    ensures
        pascal_case("channel_temp_delete_delay_default"@) == "ChannelTempDeleteDelayDefault"@,
{
    reveal_strlit("channel_temp_delete_delay_default");
    reveal_strlit("ChannelTempDeleteDelayDefault");
    reveal_with_fuel(pascal_from, 35);
    assert(pascal_case("channel_temp_delete_delay_default"@) =~= "ChannelTempDeleteDelayDefault"@);
}

#[verifier::rlimit(100)]
proof fn lemma_server_pascal_10()
    ensures
        pascal_case("visible_connections"@) == "VisibleConnections"@,
        pascal_case("channels"@) == "Channels"@,
        pascal_case("max_clients"@) == "MaxClients"@,
        pascal_case("clients_online"@) == "ClientsOnline"@,
{
    reveal_strlit("visible_connections");
    reveal_strlit("VisibleConnections");
    reveal_strlit("channels");
    reveal_strlit("Channels");
    reveal_strlit("max_clients");
    reveal_strlit("MaxClients");
    reveal_strlit("clients_online");
    reveal_strlit("ClientsOnline");
    reveal_with_fuel(pascal_from, 21);
    assert(pascal_case("visible_connections"@) =~= "VisibleConnections"@);
    assert(pascal_case("channels"@) =~= "Channels"@);
    assert(pascal_case("max_clients"@) =~= "MaxClients"@);
    assert(pascal_case("clients_online"@) =~= "ClientsOnline"@);
}

#[verifier::rlimit(100)]
proof fn lemma_server_pascal_11()
    ensures
        pascal_case("channels_online"@) == "ChannelsOnline"@,
        pascal_case("client_connections"@) == "ClientConnections"@,
{
    reveal_strlit("channels_online");
    reveal_strlit("ChannelsOnline");
    reveal_strlit("client_connections");
    reveal_strlit("ClientConnections");
    reveal_with_fuel(pascal_from, 20);
    assert(pascal_case("channels_online"@) =~= "ChannelsOnline"@);
    assert(pascal_case("client_connections"@) =~= "ClientConnections"@);
}

#[verifier::rlimit(100)]
proof fn lemma_server_pascal_12()
    ensures
        pascal_case("query_client_connections"@) == "QueryClientConnections"@,
        pascal_case("uptime"@) == "Uptime"@,
        pascal_case("password"@) == "Password"@,
{
    reveal_strlit("query_client_connections");
    reveal_strlit("QueryClientConnections");
    reveal_strlit("uptime");
    reveal_strlit("Uptime");
    reveal_strlit("password");
    reveal_strlit("Password");
    reveal_with_fuel(pascal_from, 26);
    assert(pascal_case("query_client_connections"@) =~= "QueryClientConnections"@);
    assert(pascal_case("uptime"@) =~= "Uptime"@);
    assert(pascal_case("password"@) =~= "Password"@);
}

#[verifier::rlimit(100)]
proof fn lemma_server_pascal_13()
    ensures
        pascal_case("max_download_total_bandwidth"@) == "MaxDownloadTotalBandwidth"@,
{
    reveal_strlit("max_download_total_bandwidth");
    reveal_strlit("MaxDownloadTotalBandwidth");
    reveal_with_fuel(pascal_from, 30);
    assert(pascal_case("max_download_total_bandwidth"@) =~= "MaxDownloadTotalBandwidth"@);
}

#[verifier::rlimit(100)]
proof fn lemma_server_pascal_14()
    ensures
        pascal_case("max_upload_total_bandwidth"@) == "MaxUploadTotalBandwidth"@,
        pascal_case("download_quota"@) == "DownloadQuota"@,
{
    reveal_strlit("max_upload_total_bandwidth");
    reveal_strlit("MaxUploadTotalBandwidth");
    reveal_strlit("download_quota");
    reveal_strlit("DownloadQuota");
    reveal_with_fuel(pascal_from, 28);
    assert(pascal_case("max_upload_total_bandwidth"@) =~= "MaxUploadTotalBandwidth"@);
    assert(pascal_case("download_quota"@) =~= "DownloadQuota"@);
}

#[verifier::rlimit(100)]
proof fn lemma_server_pascal_15()
    ensures
        pascal_case("upload_quota"@) == "UploadQuota"@,
        pascal_case("month_bytes_downloaded"@) == "MonthBytesDownloaded"@,
{
    reveal_strlit("upload_quota");
    reveal_strlit("UploadQuota");
    reveal_strlit("month_bytes_downloaded");
    reveal_strlit("MonthBytesDownloaded");
    reveal_with_fuel(pascal_from, 24);
    assert(pascal_case("upload_quota"@) =~= "UploadQuota"@);
    assert(pascal_case("month_bytes_downloaded"@) =~= "MonthBytesDownloaded"@);
}

#[verifier::rlimit(100)]
proof fn lemma_server_pascal_16()
    ensures
        pascal_case("month_bytes_uploaded"@) == "MonthBytesUploaded"@,
        pascal_case("total_bytes_downloaded"@) == "TotalBytesDownloaded"@,
{
    reveal_strlit("month_bytes_uploaded");
    reveal_strlit("MonthBytesUploaded");
    reveal_strlit("total_bytes_downloaded");
    reveal_strlit("TotalBytesDownloaded");
    reveal_with_fuel(pascal_from, 24);
    assert(pascal_case("month_bytes_uploaded"@) =~= "MonthBytesUploaded"@);
    assert(pascal_case("total_bytes_downloaded"@) =~= "TotalBytesDownloaded"@);
}

#[verifier::rlimit(100)]
proof fn lemma_server_pascal_17()
    ensures
        pascal_case("total_bytes_uploaded"@) == "TotalBytesUploaded"@,
        pascal_case("complain_autoban_count"@) == "ComplainAutobanCount"@,
{
    reveal_strlit("total_bytes_uploaded");
    reveal_strlit("TotalBytesUploaded");
    reveal_strlit("complain_autoban_count");
    reveal_strlit("ComplainAutobanCount");
    reveal_with_fuel(pascal_from, 24);
    assert(pascal_case("total_bytes_uploaded"@) =~= "TotalBytesUploaded"@);
    assert(pascal_case("complain_autoban_count"@) =~= "ComplainAutobanCount"@);
}

#[verifier::rlimit(100)]
proof fn lemma_server_pascal_18()
    ensures
        pascal_case("complain_autoban_time"@) == "ComplainAutobanTime"@,
        pascal_case("complain_remove_time"@) == "ComplainRemoveTime"@,
{
    reveal_strlit("complain_autoban_time");
    reveal_strlit("ComplainAutobanTime");
    reveal_strlit("complain_remove_time");
    reveal_strlit("ComplainRemoveTime");
    reveal_with_fuel(pascal_from, 23);
    assert(pascal_case("complain_autoban_time"@) =~= "ComplainAutobanTime"@);
    assert(pascal_case("complain_remove_time"@) =~= "ComplainRemoveTime"@);
}

#[verifier::rlimit(100)]
proof fn lemma_server_pascal_19()
    ensures
        pascal_case("min_clients_in_channel_before_forced_silence"@) == "MinClientsInChannelBeforeForcedSilence"@,
{
    reveal_strlit("min_clients_in_channel_before_forced_silence");
    reveal_strlit("MinClientsInChannelBeforeForcedSilence");
    reveal_with_fuel(pascal_from, 46);
    assert(pascal_case("min_clients_in_channel_before_forced_silence"@) =~= "MinClientsInChannelBeforeForcedSilence"@);
}

#[verifier::rlimit(100)]
proof fn lemma_server_pascal_20()
    ensures
        pascal_case("antiflood_points_tick_reduce"@) == "AntifloodPointsTickReduce"@,
{
    reveal_strlit("antiflood_points_tick_reduce");
    reveal_strlit("AntifloodPointsTickReduce");
    reveal_with_fuel(pascal_from, 30);
    assert(pascal_case("antiflood_points_tick_reduce"@) =~= "AntifloodPointsTickReduce"@);
}

#[verifier::rlimit(100)]
proof fn lemma_server_pascal_21()
    ensures
        pascal_case("antiflood_points_needed_command_block"@) == "AntifloodPointsNeededCommandBlock"@,
{
    reveal_strlit("antiflood_points_needed_command_block");
    reveal_strlit("AntifloodPointsNeededCommandBlock");
    reveal_with_fuel(pascal_from, 39);
    assert(pascal_case("antiflood_points_needed_command_block"@) =~= "AntifloodPointsNeededCommandBlock"@);
}

#[verifier::rlimit(100)]
proof fn lemma_server_pascal_22()
    ensures
        pascal_case("antiflood_points_needed_ip_block"@) == "AntifloodPointsNeededIpBlock"@,
{
    reveal_strlit("antiflood_points_needed_ip_block");
    reveal_strlit("AntifloodPointsNeededIpBlock");
    reveal_with_fuel(pascal_from, 34);
    assert(pascal_case("antiflood_points_needed_ip_block"@) =~= "AntifloodPointsNeededIpBlock"@);
}

#[verifier::rlimit(100)]
proof fn lemma_server_pascal_23()
    ensures
        pascal_case("port"@) == "Port"@,
        pascal_case("autostart"@) == "Autostart"@,
        pascal_case("machine_id"@) == "MachineId"@,
{
    reveal_strlit("port");
    reveal_strlit("Port");
    reveal_strlit("autostart");
    reveal_strlit("Autostart");
    reveal_strlit("machine_id");
    reveal_strlit("MachineId");
    reveal_with_fuel(pascal_from, 12);
    assert(pascal_case("port"@) =~= "Port"@);
    assert(pascal_case("autostart"@) =~= "Autostart"@);
    assert(pascal_case("machine_id"@) =~= "MachineId"@);
}

#[verifier::rlimit(100)]
proof fn lemma_server_pascal_24()
    ensures
        pascal_case("needed_identity_security_level"@) == "NeededIdentitySecurityLevel"@,
{
    reveal_strlit("needed_identity_security_level");
    reveal_strlit("NeededIdentitySecurityLevel");
    reveal_with_fuel(pascal_from, 32);
    assert(pascal_case("needed_identity_security_level"@) =~= "NeededIdentitySecurityLevel"@);
}

#[verifier::rlimit(100)]
proof fn lemma_server_pascal_25()
    ensures
        pascal_case("log_client"@) == "LogClient"@,
        pascal_case("log_query"@) == "LogQuery"@,
        pascal_case("log_channel"@) == "LogChannel"@,
        pascal_case("log_permissions"@) == "LogPermissions"@,
        pascal_case("log_server"@) == "LogServer"@,
        pascal_case("log_filetransfer"@) == "LogFiletransfer"@,
{
    reveal_strlit("log_client");
    reveal_strlit("LogClient");
    reveal_strlit("log_query");
    reveal_strlit("LogQuery");
    reveal_strlit("log_channel");
    reveal_strlit("LogChannel");
    reveal_strlit("log_permissions");
    reveal_strlit("LogPermissions");
    reveal_strlit("log_server");
    reveal_strlit("LogServer");
    reveal_strlit("log_filetransfer");
    reveal_strlit("LogFiletransfer");
    reveal_with_fuel(pascal_from, 18);
    assert(pascal_case("log_client"@) =~= "LogClient"@);
    assert(pascal_case("log_query"@) =~= "LogQuery"@);
    assert(pascal_case("log_channel"@) =~= "LogChannel"@);
    assert(pascal_case("log_permissions"@) =~= "LogPermissions"@);
    assert(pascal_case("log_server"@) =~= "LogServer"@);
    assert(pascal_case("log_filetransfer"@) =~= "LogFiletransfer"@);
}

#[verifier::rlimit(100)]
proof fn lemma_server_pascal_26()
    ensures
        pascal_case("min_client_version"@) == "MinClientVersion"@,
        pascal_case("total_packetloss_speech"@) == "TotalPacketlossSpeech"@,
{
    reveal_strlit("min_client_version");
    reveal_strlit("MinClientVersion");
    reveal_strlit("total_packetloss_speech");
    reveal_strlit("TotalPacketlossSpeech");
    reveal_with_fuel(pascal_from, 25);
    assert(pascal_case("min_client_version"@) =~= "MinClientVersion"@);
    assert(pascal_case("total_packetloss_speech"@) =~= "TotalPacketlossSpeech"@);
}

#[verifier::rlimit(100)]
proof fn lemma_server_pascal_27()
    ensures
        pascal_case("total_packetloss_keepalive"@) == "TotalPacketlossKeepalive"@,
{
    reveal_strlit("total_packetloss_keepalive");
    reveal_strlit("TotalPacketlossKeepalive");
    reveal_with_fuel(pascal_from, 28);
    assert(pascal_case("total_packetloss_keepalive"@) =~= "TotalPacketlossKeepalive"@);
}

#[verifier::rlimit(100)]
proof fn lemma_server_pascal_28()
    ensures
        pascal_case("total_packetloss_control"@) == "TotalPacketlossControl"@,
{
    reveal_strlit("total_packetloss_control");
    reveal_strlit("TotalPacketlossControl");
    reveal_with_fuel(pascal_from, 26);
    assert(pascal_case("total_packetloss_control"@) =~= "TotalPacketlossControl"@);
}

#[verifier::rlimit(100)]
proof fn lemma_server_pascal_29()
    ensures
        pascal_case("total_packetloss_total"@) == "TotalPacketlossTotal"@,
        pascal_case("total_ping"@) == "TotalPing"@,
        pascal_case("weblist_enabled"@) == "WeblistEnabled"@,
{
    reveal_strlit("total_packetloss_total");
    reveal_strlit("TotalPacketlossTotal");
    reveal_strlit("total_ping");
    reveal_strlit("TotalPing");
    reveal_strlit("weblist_enabled");
    reveal_strlit("WeblistEnabled");
    reveal_with_fuel(pascal_from, 24);
    assert(pascal_case("total_packetloss_total"@) =~= "TotalPacketlossTotal"@);
    assert(pascal_case("total_ping"@) =~= "TotalPing"@);
    assert(pascal_case("weblist_enabled"@) =~= "WeblistEnabled"@);
}

#[verifier::rlimit(100)]
proof fn lemma_server_pascal_30()
    ensures
        pascal_case("hostmessage"@) == "Hostmessage"@,
        pascal_case("hostmessage_mode"@) == "HostmessageMode"@,
{
    reveal_strlit("hostmessage");
    reveal_strlit("Hostmessage");
    reveal_strlit("hostmessage_mode");
    reveal_strlit("HostmessageMode");
    reveal_with_fuel(pascal_from, 18);
    assert(pascal_case("hostmessage"@) =~= "Hostmessage"@);
    assert(pascal_case("hostmessage_mode"@) =~= "HostmessageMode"@);
}

#[verifier::rlimit(100)]
proof fn lemma_server_pascal_31()
    ensures
        pascal_case("antiflood_points_needed_plugin_block"@) == "AntifloodPointsNeededPluginBlock"@,
{
    reveal_strlit("antiflood_points_needed_plugin_block");
    reveal_strlit("AntifloodPointsNeededPluginBlock");
    reveal_with_fuel(pascal_from, 38);
    assert(pascal_case("antiflood_points_needed_plugin_block"@) =~= "AntifloodPointsNeededPluginBlock"@);
}


proof fn lemma_server_value_names()
    ensures
        value_names(server_properties()) == server_value_list(),
{
    lemma_server_pascal_0();
    lemma_server_pascal_1();
    lemma_server_pascal_2();
    lemma_server_pascal_3();
    lemma_server_pascal_4();
    lemma_server_pascal_5();
    lemma_server_pascal_6();
    lemma_server_pascal_7();
    lemma_server_pascal_8();
    lemma_server_pascal_9();
    lemma_server_pascal_10();
    lemma_server_pascal_11();
    lemma_server_pascal_12();
    lemma_server_pascal_13();
    lemma_server_pascal_14();
    lemma_server_pascal_15();
    lemma_server_pascal_16();
    lemma_server_pascal_17();
    lemma_server_pascal_18();
    lemma_server_pascal_19();
    lemma_server_pascal_20();
    lemma_server_pascal_21();
    lemma_server_pascal_22();
    lemma_server_pascal_23();
    lemma_server_pascal_24();
    lemma_server_pascal_25();
    lemma_server_pascal_26();
    lemma_server_pascal_27();
    lemma_server_pascal_28();
    lemma_server_pascal_29();
    lemma_server_pascal_30();
    lemma_server_pascal_31();
    // Each property's value name: the given one, else the computed one.
    assert(value_name_of(server_properties()[0]) == "Id"@);
    assert(value_name_of(server_properties()[1]) == "UniqueIdentifier"@);
    assert(value_name_of(server_properties()[2]) == "OwnConnectionId"@);
    assert(value_name_of(server_properties()[3]) == "Name"@);
    assert(value_name_of(server_properties()[4]) == "NamePhonetic"@);
    assert(value_name_of(server_properties()[5]) == "Platform"@);
    assert(value_name_of(server_properties()[6]) == "Version"@);
    assert(value_name_of(server_properties()[7]) == "Nickname"@);
    assert(value_name_of(server_properties()[8]) == "AccountingToken"@);
    assert(value_name_of(server_properties()[9]) == "Created"@);
    assert(value_name_of(server_properties()[10]) == "CodecEncryptionMode"@);
    assert(value_name_of(server_properties()[11]) == "DefaultServerGroup"@);
    assert(value_name_of(server_properties()[12]) == "DefaultChannelGroup"@);
    assert(value_name_of(server_properties()[13]) == "DefaultChannelAdminGroup"@);
    assert(value_name_of(server_properties()[14]) == "HostbannerUrl"@);
    assert(value_name_of(server_properties()[15]) == "HostbannerGfxUrl"@);
    assert(value_name_of(server_properties()[16]) == "HostbannerGfxInterval"@);
    assert(value_name_of(server_properties()[17]) == "HostbannerMode"@);
    assert(value_name_of(server_properties()[18]) == "PrioritySpeakerDimmModificator"@);
    assert(value_name_of(server_properties()[19]) == "HostbuttonTooltip"@);
    assert(value_name_of(server_properties()[20]) == "HostbuttonUrl"@);
    assert(value_name_of(server_properties()[21]) == "HostbuttonGfxUrl"@);
    assert(value_name_of(server_properties()[22]) == "IconId"@);
    assert(value_name_of(server_properties()[23]) == "ReservedSlots"@);
    assert(value_name_of(server_properties()[24]) == "AskForPrivilegekey"@);
    assert(value_name_of(server_properties()[25]) == "ChannelTempDeleteDelayDefault"@);
    assert(value_name_of(server_properties()[26]) == "VisibleConnections"@);
    assert(value_name_of(server_properties()[27]) == "Channels"@);
    assert(value_name_of(server_properties()[28]) == "Welcomemessage"@);
    assert(value_name_of(server_properties()[29]) == "MaxClients"@);
    assert(value_name_of(server_properties()[30]) == "ClientsOnline"@);
    assert(value_name_of(server_properties()[31]) == "ChannelsOnline"@);
    assert(value_name_of(server_properties()[32]) == "ClientConnections"@);
    assert(value_name_of(server_properties()[33]) == "QueryClientConnections"@);
    assert(value_name_of(server_properties()[34]) == "QueryclientsOnline"@);
    assert(value_name_of(server_properties()[35]) == "Uptime"@);
    assert(value_name_of(server_properties()[36]) == "Password"@);
    assert(value_name_of(server_properties()[37]) == "MaxDownloadTotalBandwidth"@);
    assert(value_name_of(server_properties()[38]) == "MaxUploadTotalBandwidth"@);
    assert(value_name_of(server_properties()[39]) == "DownloadQuota"@);
    assert(value_name_of(server_properties()[40]) == "UploadQuota"@);
    assert(value_name_of(server_properties()[41]) == "MonthBytesDownloaded"@);
    assert(value_name_of(server_properties()[42]) == "MonthBytesUploaded"@);
    assert(value_name_of(server_properties()[43]) == "TotalBytesDownloaded"@);
    assert(value_name_of(server_properties()[44]) == "TotalBytesUploaded"@);
    assert(value_name_of(server_properties()[45]) == "ComplainAutobanCount"@);
    assert(value_name_of(server_properties()[46]) == "ComplainAutobanTime"@);
    assert(value_name_of(server_properties()[47]) == "ComplainRemoveTime"@);
    assert(value_name_of(server_properties()[48]) == "MinClientsInChannelBeforeForcedSilence"@);
    assert(value_name_of(server_properties()[49]) == "AntifloodPointsTickReduce"@);
    assert(value_name_of(server_properties()[50]) == "AntifloodPointsNeededCommandBlock"@);
    assert(value_name_of(server_properties()[51]) == "AntifloodPointsNeededIpBlock"@);
    assert(value_name_of(server_properties()[52]) == "Port"@);
    assert(value_name_of(server_properties()[53]) == "Autostart"@);
    assert(value_name_of(server_properties()[54]) == "MachineId"@);
    assert(value_name_of(server_properties()[55]) == "NeededIdentitySecurityLevel"@);
    assert(value_name_of(server_properties()[56]) == "LogClient"@);
    assert(value_name_of(server_properties()[57]) == "LogQuery"@);
    assert(value_name_of(server_properties()[58]) == "LogChannel"@);
    assert(value_name_of(server_properties()[59]) == "LogPermissions"@);
    assert(value_name_of(server_properties()[60]) == "LogServer"@);
    assert(value_name_of(server_properties()[61]) == "LogFiletransfer"@);
    assert(value_name_of(server_properties()[62]) == "MinClientVersion"@);
    assert(value_name_of(server_properties()[63]) == "TotalPacketlossSpeech"@);
    assert(value_name_of(server_properties()[64]) == "TotalPacketlossKeepalive"@);
    assert(value_name_of(server_properties()[65]) == "TotalPacketlossControl"@);
    assert(value_name_of(server_properties()[66]) == "TotalPacketlossTotal"@);
    assert(value_name_of(server_properties()[67]) == "TotalPing"@);
    assert(value_name_of(server_properties()[68]) == "WeblistEnabled"@);
    assert(value_name_of(server_properties()[69]) == "Hostmessage"@);
    assert(value_name_of(server_properties()[70]) == "HostmessageMode"@);
    assert(value_name_of(server_properties()[71]) == "AntifloodPointsNeededPluginBlock"@);
    assert(value_names(server_properties()) =~= server_value_list());
}

#[verifier::rlimit(100)]
proof fn lemma_server_values_distinct()
    ensures
        pairwise_distinct(server_value_list()),
{
    reveal_strlit("AccountingToken");
    reveal_strlit("AntifloodPointsNeededCommandBlock");
    reveal_strlit("AntifloodPointsNeededIpBlock");
    reveal_strlit("AntifloodPointsNeededPluginBlock");
    reveal_strlit("AntifloodPointsTickReduce");
    reveal_strlit("AskForPrivilegekey");
    reveal_strlit("Autostart");
    reveal_strlit("ChannelTempDeleteDelayDefault");
    reveal_strlit("Channels");
    reveal_strlit("ChannelsOnline");
    reveal_strlit("ClientConnections");
    reveal_strlit("ClientsOnline");
    reveal_strlit("CodecEncryptionMode");
    reveal_strlit("ComplainAutobanCount");
    reveal_strlit("ComplainAutobanTime");
    reveal_strlit("ComplainRemoveTime");
    reveal_strlit("Created");
    reveal_strlit("DefaultChannelAdminGroup");
    reveal_strlit("DefaultChannelGroup");
    reveal_strlit("DefaultServerGroup");
    reveal_strlit("DownloadQuota");
    reveal_strlit("HostbannerGfxInterval");
    reveal_strlit("HostbannerGfxUrl");
    reveal_strlit("HostbannerMode");
    reveal_strlit("HostbannerUrl");
    reveal_strlit("HostbuttonGfxUrl");
    reveal_strlit("HostbuttonTooltip");
    reveal_strlit("HostbuttonUrl");
    reveal_strlit("Hostmessage");
    reveal_strlit("HostmessageMode");
    reveal_strlit("IconId");
    reveal_strlit("Id");
    reveal_strlit("LogChannel");
    reveal_strlit("LogClient");
    reveal_strlit("LogFiletransfer");
    reveal_strlit("LogPermissions");
    reveal_strlit("LogQuery");
    reveal_strlit("LogServer");
    reveal_strlit("MachineId");
    reveal_strlit("MaxClients");
    reveal_strlit("MaxDownloadTotalBandwidth");
    reveal_strlit("MaxUploadTotalBandwidth");
    reveal_strlit("MinClientVersion");
    reveal_strlit("MinClientsInChannelBeforeForcedSilence");
    reveal_strlit("MonthBytesDownloaded");
    reveal_strlit("MonthBytesUploaded");
    reveal_strlit("Name");
    reveal_strlit("NamePhonetic");
    reveal_strlit("NeededIdentitySecurityLevel");
    reveal_strlit("Nickname");
    reveal_strlit("OwnConnectionId");
    reveal_strlit("Password");
    reveal_strlit("Platform");
    reveal_strlit("Port");
    reveal_strlit("PrioritySpeakerDimmModificator");
    reveal_strlit("QueryClientConnections");
    reveal_strlit("QueryclientsOnline");
    reveal_strlit("ReservedSlots");
    reveal_strlit("TotalBytesDownloaded");
    reveal_strlit("TotalBytesUploaded");
    reveal_strlit("TotalPacketlossControl");
    reveal_strlit("TotalPacketlossKeepalive");
    reveal_strlit("TotalPacketlossSpeech");
    reveal_strlit("TotalPacketlossTotal");
    reveal_strlit("TotalPing");
    reveal_strlit("UniqueIdentifier");
    reveal_strlit("UploadQuota");
    reveal_strlit("Uptime");
    reveal_strlit("Version");
    reveal_strlit("VisibleConnections");
    reveal_strlit("WeblistEnabled");
    reveal_strlit("Welcomemessage");
    // The length of each value name, and for two of equal length a letter
    // in which they differ.
    assert("AccountingToken"@.len() == 15);
    assert("AntifloodPointsNeededCommandBlock"@.len() == 33);
    assert("AntifloodPointsNeededIpBlock"@.len() == 28);
    assert("AntifloodPointsNeededPluginBlock"@.len() == 32);
    assert("AntifloodPointsTickReduce"@.len() == 25);
    assert("AskForPrivilegekey"@.len() == 18);
    assert("Autostart"@.len() == 9);
    assert("ChannelTempDeleteDelayDefault"@.len() == 29);
    assert("Channels"@.len() == 8);
    assert("ChannelsOnline"@.len() == 14);
    assert("ClientConnections"@.len() == 17);
    assert("ClientsOnline"@.len() == 13);
    assert("CodecEncryptionMode"@.len() == 19);
    assert("ComplainAutobanCount"@.len() == 20);
    assert("ComplainAutobanTime"@.len() == 19);
    assert("ComplainRemoveTime"@.len() == 18);
    assert("Created"@.len() == 7);
    assert("DefaultChannelAdminGroup"@.len() == 24);
    assert("DefaultChannelGroup"@.len() == 19);
    assert("DefaultServerGroup"@.len() == 18);
    assert("DownloadQuota"@.len() == 13);
    assert("HostbannerGfxInterval"@.len() == 21);
    assert("HostbannerGfxUrl"@.len() == 16);
    assert("HostbannerMode"@.len() == 14);
    assert("HostbannerUrl"@.len() == 13);
    assert("HostbuttonGfxUrl"@.len() == 16);
    assert("HostbuttonTooltip"@.len() == 17);
    assert("HostbuttonUrl"@.len() == 13);
    assert("Hostmessage"@.len() == 11);
    assert("HostmessageMode"@.len() == 15);
    assert("IconId"@.len() == 6);
    assert("Id"@.len() == 2);
    assert("LogChannel"@.len() == 10);
    assert("LogClient"@.len() == 9);
    assert("LogFiletransfer"@.len() == 15);
    assert("LogPermissions"@.len() == 14);
    assert("LogQuery"@.len() == 8);
    assert("LogServer"@.len() == 9);
    assert("MachineId"@.len() == 9);
    assert("MaxClients"@.len() == 10);
    assert("MaxDownloadTotalBandwidth"@.len() == 25);
    assert("MaxUploadTotalBandwidth"@.len() == 23);
    assert("MinClientVersion"@.len() == 16);
    assert("MinClientsInChannelBeforeForcedSilence"@.len() == 38);
    assert("MonthBytesDownloaded"@.len() == 20);
    assert("MonthBytesUploaded"@.len() == 18);
    assert("Name"@.len() == 4);
    assert("NamePhonetic"@.len() == 12);
    assert("NeededIdentitySecurityLevel"@.len() == 27);
    assert("Nickname"@.len() == 8);
    assert("OwnConnectionId"@.len() == 15);
    assert("Password"@.len() == 8);
    assert("Platform"@.len() == 8);
    assert("Port"@.len() == 4);
    assert("PrioritySpeakerDimmModificator"@.len() == 30);
    assert("QueryClientConnections"@.len() == 22);
    assert("QueryclientsOnline"@.len() == 18);
    assert("ReservedSlots"@.len() == 13);
    assert("TotalBytesDownloaded"@.len() == 20);
    assert("TotalBytesUploaded"@.len() == 18);
    assert("TotalPacketlossControl"@.len() == 22);
    assert("TotalPacketlossKeepalive"@.len() == 24);
    assert("TotalPacketlossSpeech"@.len() == 21);
    assert("TotalPacketlossTotal"@.len() == 20);
    assert("TotalPing"@.len() == 9);
    assert("UniqueIdentifier"@.len() == 16);
    assert("UploadQuota"@.len() == 11);
    assert("Uptime"@.len() == 6);
    assert("Version"@.len() == 7);
    assert("VisibleConnections"@.len() == 18);
    assert("WeblistEnabled"@.len() == 14);
    assert("Welcomemessage"@.len() == 14);
    assert("UniqueIdentifier"@[0] != "HostbannerGfxUrl"@[0]);
    assert("UniqueIdentifier"@[0] != "HostbuttonGfxUrl"@[0]);
    assert("UniqueIdentifier"@[0] != "MinClientVersion"@[0]);
    assert("OwnConnectionId"@[0] != "AccountingToken"@[0]);
    assert("OwnConnectionId"@[0] != "LogFiletransfer"@[0]);
    assert("OwnConnectionId"@[0] != "HostmessageMode"@[0]);
    assert("Name"@[0] != "Port"@[0]);
    assert("Platform"@[0] != "Nickname"@[0]);
    assert("Platform"@[0] != "Channels"@[0]);
    assert("Platform"@[1] != "Password"@[1]);
    assert("Platform"@[0] != "LogQuery"@[0]);
    assert("Version"@[0] != "Created"@[0]);
    assert("Nickname"@[0] != "Channels"@[0]);
    assert("Nickname"@[0] != "Password"@[0]);
    assert("Nickname"@[0] != "LogQuery"@[0]);
    assert("AccountingToken"@[0] != "LogFiletransfer"@[0]);
    assert("AccountingToken"@[0] != "HostmessageMode"@[0]);
    assert("CodecEncryptionMode"@[0] != "DefaultChannelGroup"@[0]);
    assert("CodecEncryptionMode"@[2] != "ComplainAutobanTime"@[2]);
    assert("DefaultServerGroup"@[0] != "AskForPrivilegekey"@[0]);
    assert("DefaultServerGroup"@[0] != "VisibleConnections"@[0]);
    assert("DefaultServerGroup"@[0] != "QueryclientsOnline"@[0]);
    assert("DefaultServerGroup"@[0] != "MonthBytesUploaded"@[0]);
    assert("DefaultServerGroup"@[0] != "TotalBytesUploaded"@[0]);
    assert("DefaultServerGroup"@[0] != "ComplainRemoveTime"@[0]);
    assert("DefaultChannelGroup"@[0] != "ComplainAutobanTime"@[0]);
    assert("DefaultChannelAdminGroup"@[0] != "TotalPacketlossKeepalive"@[0]);
    assert("HostbannerUrl"@[5] != "HostbuttonUrl"@[5]);
    assert("HostbannerUrl"@[0] != "ReservedSlots"@[0]);
    assert("HostbannerUrl"@[0] != "ClientsOnline"@[0]);
    assert("HostbannerUrl"@[0] != "DownloadQuota"@[0]);
    assert("HostbannerGfxUrl"@[5] != "HostbuttonGfxUrl"@[5]);
    assert("HostbannerGfxUrl"@[0] != "MinClientVersion"@[0]);
    assert("HostbannerGfxInterval"@[0] != "TotalPacketlossSpeech"@[0]);
    assert("HostbannerMode"@[0] != "Welcomemessage"@[0]);
    assert("HostbannerMode"@[0] != "ChannelsOnline"@[0]);
    assert("HostbannerMode"@[0] != "LogPermissions"@[0]);
    assert("HostbannerMode"@[0] != "WeblistEnabled"@[0]);
    assert("HostbuttonTooltip"@[0] != "ClientConnections"@[0]);
    assert("HostbuttonUrl"@[0] != "ReservedSlots"@[0]);
    assert("HostbuttonUrl"@[0] != "ClientsOnline"@[0]);
    assert("HostbuttonUrl"@[0] != "DownloadQuota"@[0]);
    assert("HostbuttonGfxUrl"@[0] != "MinClientVersion"@[0]);
    assert("IconId"@[0] != "Uptime"@[0]);
    assert("ReservedSlots"@[0] != "ClientsOnline"@[0]);
    assert("ReservedSlots"@[0] != "DownloadQuota"@[0]);
    assert("AskForPrivilegekey"@[0] != "VisibleConnections"@[0]);
    assert("AskForPrivilegekey"@[0] != "QueryclientsOnline"@[0]);
    assert("AskForPrivilegekey"@[0] != "MonthBytesUploaded"@[0]);
    assert("AskForPrivilegekey"@[0] != "TotalBytesUploaded"@[0]);
    assert("AskForPrivilegekey"@[0] != "ComplainRemoveTime"@[0]);
    assert("VisibleConnections"@[0] != "QueryclientsOnline"@[0]);
    assert("VisibleConnections"@[0] != "MonthBytesUploaded"@[0]);
    assert("VisibleConnections"@[0] != "TotalBytesUploaded"@[0]);
    assert("VisibleConnections"@[0] != "ComplainRemoveTime"@[0]);
    assert("Channels"@[0] != "Password"@[0]);
    assert("Channels"@[0] != "LogQuery"@[0]);
    assert("Welcomemessage"@[0] != "ChannelsOnline"@[0]);
    assert("Welcomemessage"@[0] != "LogPermissions"@[0]);
    assert("Welcomemessage"@[2] != "WeblistEnabled"@[2]);
    assert("MaxClients"@[0] != "LogChannel"@[0]);
    assert("ClientsOnline"@[0] != "DownloadQuota"@[0]);
    assert("ChannelsOnline"@[0] != "LogPermissions"@[0]);
    assert("ChannelsOnline"@[0] != "WeblistEnabled"@[0]);
    assert("QueryClientConnections"@[0] != "TotalPacketlossControl"@[0]);
    assert("QueryclientsOnline"@[0] != "MonthBytesUploaded"@[0]);
    assert("QueryclientsOnline"@[0] != "TotalBytesUploaded"@[0]);
    assert("QueryclientsOnline"@[0] != "ComplainRemoveTime"@[0]);
    assert("Password"@[0] != "LogQuery"@[0]);
    assert("MaxDownloadTotalBandwidth"@[0] != "AntifloodPointsTickReduce"@[0]);
    assert("UploadQuota"@[0] != "Hostmessage"@[0]);
    assert("MonthBytesDownloaded"@[0] != "TotalBytesDownloaded"@[0]);
    assert("MonthBytesDownloaded"@[0] != "ComplainAutobanCount"@[0]);
    assert("MonthBytesDownloaded"@[0] != "TotalPacketlossTotal"@[0]);
    assert("MonthBytesUploaded"@[0] != "TotalBytesUploaded"@[0]);
    assert("MonthBytesUploaded"@[0] != "ComplainRemoveTime"@[0]);
    assert("TotalBytesDownloaded"@[0] != "ComplainAutobanCount"@[0]);
    assert("TotalBytesDownloaded"@[5] != "TotalPacketlossTotal"@[5]);
    assert("TotalBytesUploaded"@[0] != "ComplainRemoveTime"@[0]);
    assert("ComplainAutobanCount"@[0] != "TotalPacketlossTotal"@[0]);
    assert("Autostart"@[0] != "MachineId"@[0]);
    assert("Autostart"@[0] != "LogClient"@[0]);
    assert("Autostart"@[0] != "LogServer"@[0]);
    assert("Autostart"@[0] != "TotalPing"@[0]);
    assert("MachineId"@[0] != "LogClient"@[0]);
    assert("MachineId"@[0] != "LogServer"@[0]);
    assert("MachineId"@[0] != "TotalPing"@[0]);
    assert("LogClient"@[3] != "LogServer"@[3]);
    assert("LogClient"@[0] != "TotalPing"@[0]);
    assert("LogPermissions"@[0] != "WeblistEnabled"@[0]);
    assert("LogServer"@[0] != "TotalPing"@[0]);
    assert("LogFiletransfer"@[0] != "HostmessageMode"@[0]);
    reveal_with_fuel(distinct_from, 73);
    reveal_with_fuel(absent_from, 73);
    assert(distinct_from(server_value_list(), 0));
    lemma_distinct_from(server_value_list(), 0);
}

/// No two properties of the server data are fetched by the same enum value: each
/// one's value name (its given value name, else its name in pascal case) is
/// its own.
pub proof fn law_server_value_names_distinct()
    ensures
        forall|i: int, j: int|
            0 <= i < j < server_properties().len() ==> value_name_of(#[trigger] server_properties()[i])
                != value_name_of(#[trigger] server_properties()[j]),
{
    lemma_server_value_names();
    lemma_server_values_distinct();
    assert forall|i: int, j: int| 0 <= i < j < server_properties().len() implies value_name_of(
        #[trigger] server_properties()[i],
    ) != value_name_of(#[trigger] server_properties()[j]) by {
        assert(value_names(server_properties())[i] == value_name_of(server_properties()[i]));
        assert(value_names(server_properties())[j] == value_name_of(server_properties()[j]));
    }
}

/// The enum values of the properties of the data of our own connection.
spec fn own_value_list() -> Seq<Seq<char>> {
    seq![
        "Id"@,
        "ServerId"@,
        "ServerIp"@,
        "ServerPort"@,
        "InputDeactivated"@,
        "DefaultChannel"@,
        "DefaultToken"@,
    ]
}

#[verifier::rlimit(100)]
proof fn lemma_own_pascal_0()
    ensures
        pascal_case("id"@) == "Id"@,
        pascal_case("server_id"@) == "ServerId"@,
        pascal_case("server_ip"@) == "ServerIp"@,
        pascal_case("server_port"@) == "ServerPort"@,
        pascal_case("input_deactivated"@) == "InputDeactivated"@,
        pascal_case("default_channel"@) == "DefaultChannel"@,
{
    reveal_strlit("id");
    reveal_strlit("Id");
    reveal_strlit("server_id");
    reveal_strlit("ServerId");
    reveal_strlit("server_ip");
    reveal_strlit("ServerIp");
    reveal_strlit("server_port");
    reveal_strlit("ServerPort");
    reveal_strlit("input_deactivated");
    reveal_strlit("InputDeactivated");
    reveal_strlit("default_channel");
    reveal_strlit("DefaultChannel");
    reveal_with_fuel(pascal_from, 19);
    assert(pascal_case("id"@) =~= "Id"@);
    assert(pascal_case("server_id"@) =~= "ServerId"@);
    assert(pascal_case("server_ip"@) =~= "ServerIp"@);
    assert(pascal_case("server_port"@) =~= "ServerPort"@);
    assert(pascal_case("input_deactivated"@) =~= "InputDeactivated"@);
    assert(pascal_case("default_channel"@) =~= "DefaultChannel"@);
}

#[verifier::rlimit(100)]
proof fn lemma_own_pascal_1()
    ensures
        pascal_case("default_token"@) == "DefaultToken"@,
{
    reveal_strlit("default_token");
    reveal_strlit("DefaultToken");
    reveal_with_fuel(pascal_from, 15);
    assert(pascal_case("default_token"@) =~= "DefaultToken"@);
}


proof fn lemma_own_value_names()
    ensures
        value_names(own_connection_properties()) == own_value_list(),
{
    lemma_own_pascal_0();
    lemma_own_pascal_1();
    // Each property's value name: the given one, else the computed one.
    assert(value_name_of(own_connection_properties()[0]) == "Id"@);
    assert(value_name_of(own_connection_properties()[1]) == "ServerId"@);
    assert(value_name_of(own_connection_properties()[2]) == "ServerIp"@);
    assert(value_name_of(own_connection_properties()[3]) == "ServerPort"@);
    assert(value_name_of(own_connection_properties()[4]) == "InputDeactivated"@);
    assert(value_name_of(own_connection_properties()[5]) == "DefaultChannel"@);
    assert(value_name_of(own_connection_properties()[6]) == "DefaultToken"@);
    assert(value_names(own_connection_properties()) =~= own_value_list());
}

#[verifier::rlimit(100)]
proof fn lemma_own_values_distinct()
    ensures
        pairwise_distinct(own_value_list()),
{
    reveal_strlit("DefaultChannel");
    reveal_strlit("DefaultToken");
    reveal_strlit("Id");
    reveal_strlit("InputDeactivated");
    reveal_strlit("ServerId");
    reveal_strlit("ServerIp");
    reveal_strlit("ServerPort");
    // The length of each value name, and for two of equal length a letter
    // in which they differ.
    assert("DefaultChannel"@.len() == 14);
    assert("DefaultToken"@.len() == 12);
    assert("Id"@.len() == 2);
    assert("InputDeactivated"@.len() == 16);
    assert("ServerId"@.len() == 8);
    assert("ServerIp"@.len() == 8);
    assert("ServerPort"@.len() == 10);
    assert("ServerId"@[7] != "ServerIp"@[7]);
    reveal_with_fuel(distinct_from, 8);
    reveal_with_fuel(absent_from, 8);
    assert(distinct_from(own_value_list(), 0));
    lemma_distinct_from(own_value_list(), 0);
}

/// No two properties of the data of our own connection are fetched by the same enum value: each
/// one's value name (its given value name, else its name in pascal case) is
/// its own.
pub proof fn law_own_value_names_distinct()
    ensures
        forall|i: int, j: int|
            0 <= i < j < own_connection_properties().len() ==> value_name_of(#[trigger] own_connection_properties()[i])
                != value_name_of(#[trigger] own_connection_properties()[j]),
{
    lemma_own_value_names();
    lemma_own_values_distinct();
    assert forall|i: int, j: int| 0 <= i < j < own_connection_properties().len() implies value_name_of(
        #[trigger] own_connection_properties()[i],
    ) != value_name_of(#[trigger] own_connection_properties()[j]) by {
        assert(value_names(own_connection_properties())[i] == value_name_of(own_connection_properties()[i]));
        assert(value_names(own_connection_properties())[j] == value_name_of(own_connection_properties()[j]));
    }
}

/// The enum values of the properties of the data of server queries.
spec fn serverquery_value_list() -> Seq<Seq<char>> {
    seq![
        "Id"@,
        "ServerId"@,
        "Name"@,
        "Password"@,
    ]
}

#[verifier::rlimit(100)]
proof fn lemma_serverquery_pascal_0()
    ensures
        pascal_case("id"@) == "Id"@,
        pascal_case("server_id"@) == "ServerId"@,
        pascal_case("name"@) == "Name"@,
        pascal_case("password"@) == "Password"@,
{
    reveal_strlit("id");
    reveal_strlit("Id");
    reveal_strlit("server_id");
    reveal_strlit("ServerId");
    reveal_strlit("name");
    reveal_strlit("Name");
    reveal_strlit("password");
    reveal_strlit("Password");
    reveal_with_fuel(pascal_from, 11);
    assert(pascal_case("id"@) =~= "Id"@);
    assert(pascal_case("server_id"@) =~= "ServerId"@);
    assert(pascal_case("name"@) =~= "Name"@);
    assert(pascal_case("password"@) =~= "Password"@);
}


proof fn lemma_serverquery_value_names()
    ensures
        value_names(serverquery_connection_properties()) == serverquery_value_list(),
{
    lemma_serverquery_pascal_0();
    // Each property's value name: the given one, else the computed one.
    assert(value_name_of(serverquery_connection_properties()[0]) == "Id"@);
    assert(value_name_of(serverquery_connection_properties()[1]) == "ServerId"@);
    assert(value_name_of(serverquery_connection_properties()[2]) == "Name"@);
    assert(value_name_of(serverquery_connection_properties()[3]) == "Password"@);
    assert(value_names(serverquery_connection_properties()) =~= serverquery_value_list());
}

#[verifier::rlimit(100)]
proof fn lemma_serverquery_values_distinct()
    ensures
        pairwise_distinct(serverquery_value_list()),
{
    reveal_strlit("Id");
    reveal_strlit("Name");
    reveal_strlit("Password");
    reveal_strlit("ServerId");
    // The length of each value name, and for two of equal length a letter
    // in which they differ.
    assert("Id"@.len() == 2);
    assert("Name"@.len() == 4);
    assert("Password"@.len() == 8);
    assert("ServerId"@.len() == 8);
    assert("ServerId"@[0] != "Password"@[0]);
    reveal_with_fuel(distinct_from, 5);
    reveal_with_fuel(absent_from, 5);
    assert(distinct_from(serverquery_value_list(), 0));
    lemma_distinct_from(serverquery_value_list(), 0);
}

/// No two properties of the data of server queries are fetched by the same enum value: each
/// one's value name (its given value name, else its name in pascal case) is
/// its own.
pub proof fn law_serverquery_value_names_distinct()
    ensures
        forall|i: int, j: int|
            0 <= i < j < serverquery_connection_properties().len() ==> value_name_of(#[trigger] serverquery_connection_properties()[i])
                != value_name_of(#[trigger] serverquery_connection_properties()[j]),
{
    lemma_serverquery_value_names();
    lemma_serverquery_values_distinct();
    assert forall|i: int, j: int| 0 <= i < j < serverquery_connection_properties().len() implies value_name_of(
        #[trigger] serverquery_connection_properties()[i],
    ) != value_name_of(#[trigger] serverquery_connection_properties()[j]) by {
        assert(value_names(serverquery_connection_properties())[i] == value_name_of(serverquery_connection_properties()[i]));
        assert(value_names(serverquery_connection_properties())[j] == value_name_of(serverquery_connection_properties()[j]));
    }
}

/// The enum values of the properties of the data of a connection that is only known on request.
spec fn optional_value_list() -> Seq<Seq<char>> {
    seq![
        "Id"@,
        "ServerId"@,
        "Version"@,
        "Platform"@,
        "Created"@,
        "LastConnected"@,
        "TotalConnection"@,
        "Ping"@,
        "PingDeviation"@,
        "ConnectedTime"@,
        "IdleTime"@,
        "ClientIp"@,
        "ClientPort"@,
        "PacketsSentSpeech"@,
        "PacketsSentKeepalive"@,
        "PacketsSentControl"@,
        "PacketsSentTotal"@,
        "BytesSentSpeech"@,
        "BytesSentKeepalive"@,
        "BytesSentControl"@,
        "BytesSentTotal"@,
        "PacketsReceivedSpeech"@,
        "PacketsReceivedKeepalive"@,
        "PacketsReceivedControl"@,
        "PacketsReceivedTotal"@,
        "BytesReceivedSpeech"@,
        "BytesReceivedKeepalive"@,
        "BytesReceivedControl"@,
        "BytesReceivedTotal"@,
        "PacketlossSpeech"@,
        "PacketlossKeepalive"@,
        "PacketlossControl"@,
        "PacketlossTotal"@,
        "Server2ClientPacketlossSpeech"@,
        "Server2ClientPacketlossKeepalive"@,
        "Server2ClientPacketlossControl"@,
        "Server2ClientPacketlossTotal"@,
        "Client2ServerPacketlossSpeech"@,
        "Client2ServerPacketlossKeepalive"@,
        "Client2ServerPacketlossControl"@,
        "Client2ServerPacketlossTotal"@,
        "BandwidthSentLastSecondSpeech"@,
        "BandwidthSentLastSecondKeepalive"@,
        "BandwidthSentLastSecondControl"@,
        "BandwidthSentLastSecondTotal"@,
        "BandwidthSentLastMinuteSpeech"@,
        "BandwidthSentLastMinuteKeepalive"@,
        "BandwidthSentLastMinuteControl"@,
        "BandwidthSentLastMinuteTotal"@,
        "BandwidthReceivedLastSecondSpeech"@,
        "BandwidthReceivedLastSecondKeepalive"@,
        "BandwidthReceivedLastSecondControl"@,
        "BandwidthReceivedLastSecondTotal"@,
        "BandwidthReceivedLastMinuteSpeech"@,
        "BandwidthReceivedLastMinuteKeepalive"@,
        "BandwidthReceivedLastMinuteControl"@,
        "BandwidthReceivedLastMinuteTotal"@,
        "MonthBytesUploaded"@,
        "MonthBytesDownloaded"@,
        "TotalBytesUploaded"@,
        "TotalBytesDownloaded"@,
        "DefaultChannelPassword"@,
        "ServerPassword"@,
        "IsMuted"@,
        "VolumeModificator"@,
        "VersionSign"@,
        "FlagAvatar"@,
        "Description"@,
        "IsTalker"@,
        "IsPrioritySpeaker"@,
        "UnreadMessages"@,
        "NeededServerqueryViewPower"@,
        "IconId"@,
        "IsChannelCommander"@,
        "Country"@,
        "Badges"@,
    ]
}

#[verifier::rlimit(100)]
proof fn lemma_optional_pascal_0()
    ensures
        pascal_case("id"@) == "Id"@,
        pascal_case("server_id"@) == "ServerId"@,
        pascal_case("version"@) == "Version"@,
        pascal_case("platform"@) == "Platform"@,
        pascal_case("created"@) == "Created"@,
        pascal_case("last_connected"@) == "LastConnected"@,
        pascal_case("total_connection"@) == "TotalConnection"@,
        pascal_case("ping"@) == "Ping"@,
{
    reveal_strlit("id");
    reveal_strlit("Id");
    reveal_strlit("server_id");
    reveal_strlit("ServerId");
    reveal_strlit("version");
    reveal_strlit("Version");
    reveal_strlit("platform");
    reveal_strlit("Platform");
    reveal_strlit("created");
    reveal_strlit("Created");
    reveal_strlit("last_connected");
    reveal_strlit("LastConnected");
    reveal_strlit("total_connection");
    reveal_strlit("TotalConnection");
    reveal_strlit("ping");
    reveal_strlit("Ping");
    reveal_with_fuel(pascal_from, 18);
    assert(pascal_case("id"@) =~= "Id"@);
    assert(pascal_case("server_id"@) =~= "ServerId"@);
    assert(pascal_case("version"@) =~= "Version"@);
    assert(pascal_case("platform"@) =~= "Platform"@);
    assert(pascal_case("created"@) =~= "Created"@);
    assert(pascal_case("last_connected"@) =~= "LastConnected"@);
    assert(pascal_case("total_connection"@) =~= "TotalConnection"@);
    assert(pascal_case("ping"@) =~= "Ping"@);
}

#[verifier::rlimit(100)]
proof fn lemma_optional_pascal_1()
    ensures
        pascal_case("ping_deviation"@) == "PingDeviation"@,
        pascal_case("connected_time"@) == "ConnectedTime"@,
        pascal_case("idle_time"@) == "IdleTime"@,
        pascal_case("client_ip"@) == "ClientIp"@,
        pascal_case("client_port"@) == "ClientPort"@,
{
    reveal_strlit("ping_deviation");
    reveal_strlit("PingDeviation");
    reveal_strlit("connected_time");
    reveal_strlit("ConnectedTime");
    reveal_strlit("idle_time");
    reveal_strlit("IdleTime");
    reveal_strlit("client_ip");
    reveal_strlit("ClientIp");
    reveal_strlit("client_port");
    reveal_strlit("ClientPort");
    reveal_with_fuel(pascal_from, 16);
    assert(pascal_case("ping_deviation"@) =~= "PingDeviation"@);
    assert(pascal_case("connected_time"@) =~= "ConnectedTime"@);
    assert(pascal_case("idle_time"@) =~= "IdleTime"@);
    assert(pascal_case("client_ip"@) =~= "ClientIp"@);
    assert(pascal_case("client_port"@) =~= "ClientPort"@);
}

#[verifier::rlimit(100)]
proof fn lemma_optional_pascal_2()
    ensures
        pascal_case("packets_sent_speech"@) == "PacketsSentSpeech"@,
        pascal_case("packets_sent_keepalive"@) == "PacketsSentKeepalive"@,
{
    reveal_strlit("packets_sent_speech");
    reveal_strlit("PacketsSentSpeech");
    reveal_strlit("packets_sent_keepalive");
    reveal_strlit("PacketsSentKeepalive");
    reveal_with_fuel(pascal_from, 24);
    assert(pascal_case("packets_sent_speech"@) =~= "PacketsSentSpeech"@);
    assert(pascal_case("packets_sent_keepalive"@) =~= "PacketsSentKeepalive"@);
}

#[verifier::rlimit(100)]
proof fn lemma_optional_pascal_3()
    ensures
        pascal_case("packets_sent_control"@) == "PacketsSentControl"@,
        pascal_case("packets_sent_total"@) == "PacketsSentTotal"@,
{
    reveal_strlit("packets_sent_control");
    reveal_strlit("PacketsSentControl");
    reveal_strlit("packets_sent_total");
    reveal_strlit("PacketsSentTotal");
    reveal_with_fuel(pascal_from, 22);
    assert(pascal_case("packets_sent_control"@) =~= "PacketsSentControl"@);
    assert(pascal_case("packets_sent_total"@) =~= "PacketsSentTotal"@);
}

#[verifier::rlimit(100)]
proof fn lemma_optional_pascal_4()
    ensures
        pascal_case("bytes_sent_speech"@) == "BytesSentSpeech"@,
        pascal_case("bytes_sent_keepalive"@) == "BytesSentKeepalive"@,
{
    reveal_strlit("bytes_sent_speech");
    reveal_strlit("BytesSentSpeech");
    reveal_strlit("bytes_sent_keepalive");
    reveal_strlit("BytesSentKeepalive");
    reveal_with_fuel(pascal_from, 22);
    assert(pascal_case("bytes_sent_speech"@) =~= "BytesSentSpeech"@);
    assert(pascal_case("bytes_sent_keepalive"@) =~= "BytesSentKeepalive"@);
}

#[verifier::rlimit(100)]
proof fn lemma_optional_pascal_5()
    ensures
        pascal_case("bytes_sent_control"@) == "BytesSentControl"@,
        pascal_case("bytes_sent_total"@) == "BytesSentTotal"@,
{
    reveal_strlit("bytes_sent_control");
    reveal_strlit("BytesSentControl");
    reveal_strlit("bytes_sent_total");
    reveal_strlit("BytesSentTotal");
    reveal_with_fuel(pascal_from, 20);
    assert(pascal_case("bytes_sent_control"@) =~= "BytesSentControl"@);
    assert(pascal_case("bytes_sent_total"@) =~= "BytesSentTotal"@);
}

#[verifier::rlimit(100)]
proof fn lemma_optional_pascal_6()
    ensures
        pascal_case("packets_received_speech"@) == "PacketsReceivedSpeech"@,
{
    reveal_strlit("packets_received_speech");
    reveal_strlit("PacketsReceivedSpeech");
    reveal_with_fuel(pascal_from, 25);
    assert(pascal_case("packets_received_speech"@) =~= "PacketsReceivedSpeech"@);
}

#[verifier::rlimit(100)]
proof fn lemma_optional_pascal_7()
    ensures
        pascal_case("packets_received_keepalive"@) == "PacketsReceivedKeepalive"@,
{
    reveal_strlit("packets_received_keepalive");
    reveal_strlit("PacketsReceivedKeepalive");
    reveal_with_fuel(pascal_from, 28);
    assert(pascal_case("packets_received_keepalive"@) =~= "PacketsReceivedKeepalive"@);
}

#[verifier::rlimit(100)]
proof fn lemma_optional_pascal_8()
    ensures
        pascal_case("packets_received_control"@) == "PacketsReceivedControl"@,
{
    reveal_strlit("packets_received_control");
    reveal_strlit("PacketsReceivedControl");
    reveal_with_fuel(pascal_from, 26);
    assert(pascal_case("packets_received_control"@) =~= "PacketsReceivedControl"@);
}

#[verifier::rlimit(100)]
proof fn lemma_optional_pascal_9()
    ensures
        pascal_case("packets_received_total"@) == "PacketsReceivedTotal"@,
{
    reveal_strlit("packets_received_total");
    reveal_strlit("PacketsReceivedTotal");
    reveal_with_fuel(pascal_from, 24);
    assert(pascal_case("packets_received_total"@) =~= "PacketsReceivedTotal"@);
}

#[verifier::rlimit(100)]
proof fn lemma_optional_pascal_10()
    ensures
        pascal_case("bytes_received_speech"@) == "BytesReceivedSpeech"@,
{
    reveal_strlit("bytes_received_speech");
    reveal_strlit("BytesReceivedSpeech");
    reveal_with_fuel(pascal_from, 23);
    assert(pascal_case("bytes_received_speech"@) =~= "BytesReceivedSpeech"@);
}

#[verifier::rlimit(100)]
proof fn lemma_optional_pascal_11()
    ensures
        pascal_case("bytes_received_keepalive"@) == "BytesReceivedKeepalive"@,
{
    reveal_strlit("bytes_received_keepalive");
    reveal_strlit("BytesReceivedKeepalive");
    reveal_with_fuel(pascal_from, 26);
    assert(pascal_case("bytes_received_keepalive"@) =~= "BytesReceivedKeepalive"@);
}

#[verifier::rlimit(100)]
proof fn lemma_optional_pascal_12()
    ensures
        pascal_case("bytes_received_control"@) == "BytesReceivedControl"@,
        pascal_case("bytes_received_total"@) == "BytesReceivedTotal"@,
{
    reveal_strlit("bytes_received_control");
    reveal_strlit("BytesReceivedControl");
    reveal_strlit("bytes_received_total");
    reveal_strlit("BytesReceivedTotal");
    reveal_with_fuel(pascal_from, 24);
    assert(pascal_case("bytes_received_control"@) =~= "BytesReceivedControl"@);
    assert(pascal_case("bytes_received_total"@) =~= "BytesReceivedTotal"@);
}

#[verifier::rlimit(100)]
proof fn lemma_optional_pascal_13()
    ensures
        pascal_case("packetloss_speech"@) == "PacketlossSpeech"@,
        pascal_case("packetloss_keepalive"@) == "PacketlossKeepalive"@,
{
    reveal_strlit("packetloss_speech");
    reveal_strlit("PacketlossSpeech");
    reveal_strlit("packetloss_keepalive");
    reveal_strlit("PacketlossKeepalive");
    reveal_with_fuel(pascal_from, 22);
    assert(pascal_case("packetloss_speech"@) =~= "PacketlossSpeech"@);
    assert(pascal_case("packetloss_keepalive"@) =~= "PacketlossKeepalive"@);
}

#[verifier::rlimit(100)]
proof fn lemma_optional_pascal_14()
    ensures
        pascal_case("packetloss_control"@) == "PacketlossControl"@,
        pascal_case("packetloss_total"@) == "PacketlossTotal"@,
{
    reveal_strlit("packetloss_control");
    reveal_strlit("PacketlossControl");
    reveal_strlit("packetloss_total");
    reveal_strlit("PacketlossTotal");
    reveal_with_fuel(pascal_from, 20);
    assert(pascal_case("packetloss_control"@) =~= "PacketlossControl"@);
    assert(pascal_case("packetloss_total"@) =~= "PacketlossTotal"@);
}

#[verifier::rlimit(100)]
proof fn lemma_optional_pascal_15()
    ensures
        pascal_case("bandwidth_sent_last_second_speech"@) == "BandwidthSentLastSecondSpeech"@,
{
    reveal_strlit("bandwidth_sent_last_second_speech");
    reveal_strlit("BandwidthSentLastSecondSpeech");
    reveal_with_fuel(pascal_from, 35);
    assert(pascal_case("bandwidth_sent_last_second_speech"@) =~= "BandwidthSentLastSecondSpeech"@);
}

#[verifier::rlimit(100)]
proof fn lemma_optional_pascal_16()
    ensures
        pascal_case("bandwidth_sent_last_second_keepalive"@) == "BandwidthSentLastSecondKeepalive"@,
{
    reveal_strlit("bandwidth_sent_last_second_keepalive");
    reveal_strlit("BandwidthSentLastSecondKeepalive");
    reveal_with_fuel(pascal_from, 38);
    assert(pascal_case("bandwidth_sent_last_second_keepalive"@) =~= "BandwidthSentLastSecondKeepalive"@);
}

#[verifier::rlimit(100)]
proof fn lemma_optional_pascal_17()
    ensures
        pascal_case("bandwidth_sent_last_second_control"@) == "BandwidthSentLastSecondControl"@,
{
    reveal_strlit("bandwidth_sent_last_second_control");
    reveal_strlit("BandwidthSentLastSecondControl");
    reveal_with_fuel(pascal_from, 36);
    assert(pascal_case("bandwidth_sent_last_second_control"@) =~= "BandwidthSentLastSecondControl"@);
}

#[verifier::rlimit(100)]
proof fn lemma_optional_pascal_18()
    ensures
        pascal_case("bandwidth_sent_last_second_total"@) == "BandwidthSentLastSecondTotal"@,
{
    reveal_strlit("bandwidth_sent_last_second_total");
    reveal_strlit("BandwidthSentLastSecondTotal");
    reveal_with_fuel(pascal_from, 34);
    assert(pascal_case("bandwidth_sent_last_second_total"@) =~= "BandwidthSentLastSecondTotal"@);
}

#[verifier::rlimit(100)]
proof fn lemma_optional_pascal_19()
    ensures
        pascal_case("bandwidth_sent_last_minute_speech"@) == "BandwidthSentLastMinuteSpeech"@,
{
    reveal_strlit("bandwidth_sent_last_minute_speech");
    reveal_strlit("BandwidthSentLastMinuteSpeech");
    reveal_with_fuel(pascal_from, 35);
    assert(pascal_case("bandwidth_sent_last_minute_speech"@) =~= "BandwidthSentLastMinuteSpeech"@);
}

#[verifier::rlimit(100)]
proof fn lemma_optional_pascal_20()
    ensures
        pascal_case("bandwidth_sent_last_minute_keepalive"@) == "BandwidthSentLastMinuteKeepalive"@,
{
    reveal_strlit("bandwidth_sent_last_minute_keepalive");
    reveal_strlit("BandwidthSentLastMinuteKeepalive");
    reveal_with_fuel(pascal_from, 38);
    assert(pascal_case("bandwidth_sent_last_minute_keepalive"@) =~= "BandwidthSentLastMinuteKeepalive"@);
}

#[verifier::rlimit(100)]
proof fn lemma_optional_pascal_21()
    ensures
        pascal_case("bandwidth_sent_last_minute_control"@) == "BandwidthSentLastMinuteControl"@,
{
    reveal_strlit("bandwidth_sent_last_minute_control");
    reveal_strlit("BandwidthSentLastMinuteControl");
    reveal_with_fuel(pascal_from, 36);
    assert(pascal_case("bandwidth_sent_last_minute_control"@) =~= "BandwidthSentLastMinuteControl"@);
}

#[verifier::rlimit(100)]
proof fn lemma_optional_pascal_22()
    ensures
        pascal_case("bandwidth_sent_last_minute_total"@) == "BandwidthSentLastMinuteTotal"@,
{
    reveal_strlit("bandwidth_sent_last_minute_total");
    reveal_strlit("BandwidthSentLastMinuteTotal");
    reveal_with_fuel(pascal_from, 34);
    assert(pascal_case("bandwidth_sent_last_minute_total"@) =~= "BandwidthSentLastMinuteTotal"@);
}

#[verifier::rlimit(100)]
proof fn lemma_optional_pascal_23()
    ensures
        pascal_case("bandwidth_received_last_second_speech"@) == "BandwidthReceivedLastSecondSpeech"@,
{
    reveal_strlit("bandwidth_received_last_second_speech");
    reveal_strlit("BandwidthReceivedLastSecondSpeech");
    reveal_with_fuel(pascal_from, 39);
    assert(pascal_case("bandwidth_received_last_second_speech"@) =~= "BandwidthReceivedLastSecondSpeech"@);
}

#[verifier::rlimit(100)]
proof fn lemma_optional_pascal_24()
    ensures
        pascal_case("bandwidth_received_last_second_keepalive"@) == "BandwidthReceivedLastSecondKeepalive"@,
{
    reveal_strlit("bandwidth_received_last_second_keepalive");
    reveal_strlit("BandwidthReceivedLastSecondKeepalive");
    reveal_with_fuel(pascal_from, 42);
    assert(pascal_case("bandwidth_received_last_second_keepalive"@) =~= "BandwidthReceivedLastSecondKeepalive"@);
}

#[verifier::rlimit(100)]
proof fn lemma_optional_pascal_25()
    ensures
        pascal_case("bandwidth_received_last_second_control"@) == "BandwidthReceivedLastSecondControl"@,
{
    reveal_strlit("bandwidth_received_last_second_control");
    reveal_strlit("BandwidthReceivedLastSecondControl");
    reveal_with_fuel(pascal_from, 40);
    assert(pascal_case("bandwidth_received_last_second_control"@) =~= "BandwidthReceivedLastSecondControl"@);
}

#[verifier::rlimit(100)]
proof fn lemma_optional_pascal_26()
    ensures
        pascal_case("bandwidth_received_last_second_total"@) == "BandwidthReceivedLastSecondTotal"@,
{
    reveal_strlit("bandwidth_received_last_second_total");
    reveal_strlit("BandwidthReceivedLastSecondTotal");
    reveal_with_fuel(pascal_from, 38);
    assert(pascal_case("bandwidth_received_last_second_total"@) =~= "BandwidthReceivedLastSecondTotal"@);
}

#[verifier::rlimit(100)]
proof fn lemma_optional_pascal_27()
    ensures
        pascal_case("bandwidth_received_last_minute_speech"@) == "BandwidthReceivedLastMinuteSpeech"@,
{
    reveal_strlit("bandwidth_received_last_minute_speech");
    reveal_strlit("BandwidthReceivedLastMinuteSpeech");
    reveal_with_fuel(pascal_from, 39);
    assert(pascal_case("bandwidth_received_last_minute_speech"@) =~= "BandwidthReceivedLastMinuteSpeech"@);
}

#[verifier::rlimit(100)]
proof fn lemma_optional_pascal_28()
    ensures
        pascal_case("bandwidth_received_last_minute_keepalive"@) == "BandwidthReceivedLastMinuteKeepalive"@,
{
    reveal_strlit("bandwidth_received_last_minute_keepalive");
    reveal_strlit("BandwidthReceivedLastMinuteKeepalive");
    reveal_with_fuel(pascal_from, 42);
    assert(pascal_case("bandwidth_received_last_minute_keepalive"@) =~= "BandwidthReceivedLastMinuteKeepalive"@);
}

#[verifier::rlimit(100)]
proof fn lemma_optional_pascal_29()
    ensures
        pascal_case("bandwidth_received_last_minute_control"@) == "BandwidthReceivedLastMinuteControl"@,
{
    reveal_strlit("bandwidth_received_last_minute_control");
    reveal_strlit("BandwidthReceivedLastMinuteControl");
    reveal_with_fuel(pascal_from, 40);
    assert(pascal_case("bandwidth_received_last_minute_control"@) =~= "BandwidthReceivedLastMinuteControl"@);
}

#[verifier::rlimit(100)]
proof fn lemma_optional_pascal_30()
    ensures
        pascal_case("bandwidth_received_last_minute_total"@) == "BandwidthReceivedLastMinuteTotal"@,
{
    reveal_strlit("bandwidth_received_last_minute_total");
    reveal_strlit("BandwidthReceivedLastMinuteTotal");
    reveal_with_fuel(pascal_from, 38);
    assert(pascal_case("bandwidth_received_last_minute_total"@) =~= "BandwidthReceivedLastMinuteTotal"@);
}

#[verifier::rlimit(100)]
proof fn lemma_optional_pascal_31()
    ensures
        pascal_case("month_bytes_uploaded"@) == "MonthBytesUploaded"@,
        pascal_case("month_bytes_downloaded"@) == "MonthBytesDownloaded"@,
{
    reveal_strlit("month_bytes_uploaded");
    reveal_strlit("MonthBytesUploaded");
    reveal_strlit("month_bytes_downloaded");
    reveal_strlit("MonthBytesDownloaded");
    reveal_with_fuel(pascal_from, 24);
    assert(pascal_case("month_bytes_uploaded"@) =~= "MonthBytesUploaded"@);
    assert(pascal_case("month_bytes_downloaded"@) =~= "MonthBytesDownloaded"@);
}

#[verifier::rlimit(100)]
proof fn lemma_optional_pascal_32()
    ensures
        pascal_case("total_bytes_uploaded"@) == "TotalBytesUploaded"@,
        pascal_case("total_bytes_downloaded"@) == "TotalBytesDownloaded"@,
{
    reveal_strlit("total_bytes_uploaded");
    reveal_strlit("TotalBytesUploaded");
    reveal_strlit("total_bytes_downloaded");
    reveal_strlit("TotalBytesDownloaded");
    reveal_with_fuel(pascal_from, 24);
    assert(pascal_case("total_bytes_uploaded"@) =~= "TotalBytesUploaded"@);
    assert(pascal_case("total_bytes_downloaded"@) =~= "TotalBytesDownloaded"@);
}

#[verifier::rlimit(100)]
proof fn lemma_optional_pascal_33()
    ensures
        pascal_case("default_channel_password"@) == "DefaultChannelPassword"@,
        pascal_case("server_password"@) == "ServerPassword"@,
        pascal_case("is_muted"@) == "IsMuted"@,
{
    reveal_strlit("default_channel_password");
    reveal_strlit("DefaultChannelPassword");
    reveal_strlit("server_password");
    reveal_strlit("ServerPassword");
    reveal_strlit("is_muted");
    reveal_strlit("IsMuted");
    reveal_with_fuel(pascal_from, 26);
    assert(pascal_case("default_channel_password"@) =~= "DefaultChannelPassword"@);
    assert(pascal_case("server_password"@) =~= "ServerPassword"@);
    assert(pascal_case("is_muted"@) =~= "IsMuted"@);
}

#[verifier::rlimit(100)]
proof fn lemma_optional_pascal_34()
    ensures
        pascal_case("volume_modificator"@) == "VolumeModificator"@,
        pascal_case("version_sign"@) == "VersionSign"@,
        pascal_case("description"@) == "Description"@,
        pascal_case("unread_messages"@) == "UnreadMessages"@,
{
    reveal_strlit("volume_modificator");
    reveal_strlit("VolumeModificator");
    reveal_strlit("version_sign");
    reveal_strlit("VersionSign");
    reveal_strlit("description");
    reveal_strlit("Description");
    reveal_strlit("unread_messages");
    reveal_strlit("UnreadMessages");
    reveal_with_fuel(pascal_from, 20);
    assert(pascal_case("volume_modificator"@) =~= "VolumeModificator"@);
    assert(pascal_case("version_sign"@) =~= "VersionSign"@);
    assert(pascal_case("description"@) =~= "Description"@);
    assert(pascal_case("unread_messages"@) =~= "UnreadMessages"@);
}

#[verifier::rlimit(100)]
proof fn lemma_optional_pascal_35()
    ensures
        pascal_case("needed_serverquery_view_power"@) == "NeededServerqueryViewPower"@,
        pascal_case("icon_id"@) == "IconId"@,
{
    reveal_strlit("needed_serverquery_view_power");
    reveal_strlit("NeededServerqueryViewPower");
    reveal_strlit("icon_id");
    reveal_strlit("IconId");
    reveal_with_fuel(pascal_from, 31);
    assert(pascal_case("needed_serverquery_view_power"@) =~= "NeededServerqueryViewPower"@);
    assert(pascal_case("icon_id"@) =~= "IconId"@);
}

#[verifier::rlimit(100)]
proof fn lemma_optional_pascal_36()
    ensures
        pascal_case("is_channel_commander"@) == "IsChannelCommander"@,
        pascal_case("country"@) == "Country"@,
        pascal_case("badges"@) == "Badges"@,
{
    reveal_strlit("is_channel_commander");
    reveal_strlit("IsChannelCommander");
    reveal_strlit("country");
    reveal_strlit("Country");
    reveal_strlit("badges");
    reveal_strlit("Badges");
    reveal_with_fuel(pascal_from, 22);
    assert(pascal_case("is_channel_commander"@) =~= "IsChannelCommander"@);
    assert(pascal_case("country"@) =~= "Country"@);
    assert(pascal_case("badges"@) =~= "Badges"@);
}


proof fn lemma_optional_value_names()
    ensures
        value_names(optional_connection_properties()) == optional_value_list(),
{
    lemma_optional_pascal_0();
    lemma_optional_pascal_1();
    lemma_optional_pascal_2();
    lemma_optional_pascal_3();
    lemma_optional_pascal_4();
    lemma_optional_pascal_5();
    lemma_optional_pascal_6();
    lemma_optional_pascal_7();
    lemma_optional_pascal_8();
    lemma_optional_pascal_9();
    lemma_optional_pascal_10();
    lemma_optional_pascal_11();
    lemma_optional_pascal_12();
    lemma_optional_pascal_13();
    lemma_optional_pascal_14();
    lemma_optional_pascal_15();
    lemma_optional_pascal_16();
    lemma_optional_pascal_17();
    lemma_optional_pascal_18();
    lemma_optional_pascal_19();
    lemma_optional_pascal_20();
    lemma_optional_pascal_21();
    lemma_optional_pascal_22();
    lemma_optional_pascal_23();
    lemma_optional_pascal_24();
    lemma_optional_pascal_25();
    lemma_optional_pascal_26();
    lemma_optional_pascal_27();
    lemma_optional_pascal_28();
    lemma_optional_pascal_29();
    lemma_optional_pascal_30();
    lemma_optional_pascal_31();
    lemma_optional_pascal_32();
    lemma_optional_pascal_33();
    lemma_optional_pascal_34();
    lemma_optional_pascal_35();
    lemma_optional_pascal_36();
    // Each property's value name: the given one, else the computed one.
    assert(value_name_of(optional_connection_properties()[0]) == "Id"@);
    assert(value_name_of(optional_connection_properties()[1]) == "ServerId"@);
    assert(value_name_of(optional_connection_properties()[2]) == "Version"@);
    assert(value_name_of(optional_connection_properties()[3]) == "Platform"@);
    assert(value_name_of(optional_connection_properties()[4]) == "Created"@);
    assert(value_name_of(optional_connection_properties()[5]) == "LastConnected"@);
    assert(value_name_of(optional_connection_properties()[6]) == "TotalConnection"@);
    assert(value_name_of(optional_connection_properties()[7]) == "Ping"@);
    assert(value_name_of(optional_connection_properties()[8]) == "PingDeviation"@);
    assert(value_name_of(optional_connection_properties()[9]) == "ConnectedTime"@);
    assert(value_name_of(optional_connection_properties()[10]) == "IdleTime"@);
    assert(value_name_of(optional_connection_properties()[11]) == "ClientIp"@);
    assert(value_name_of(optional_connection_properties()[12]) == "ClientPort"@);
    assert(value_name_of(optional_connection_properties()[13]) == "PacketsSentSpeech"@);
    assert(value_name_of(optional_connection_properties()[14]) == "PacketsSentKeepalive"@);
    assert(value_name_of(optional_connection_properties()[15]) == "PacketsSentControl"@);
    assert(value_name_of(optional_connection_properties()[16]) == "PacketsSentTotal"@);
    assert(value_name_of(optional_connection_properties()[17]) == "BytesSentSpeech"@);
    assert(value_name_of(optional_connection_properties()[18]) == "BytesSentKeepalive"@);
    assert(value_name_of(optional_connection_properties()[19]) == "BytesSentControl"@);
    assert(value_name_of(optional_connection_properties()[20]) == "BytesSentTotal"@);
    assert(value_name_of(optional_connection_properties()[21]) == "PacketsReceivedSpeech"@);
    assert(value_name_of(optional_connection_properties()[22]) == "PacketsReceivedKeepalive"@);
    assert(value_name_of(optional_connection_properties()[23]) == "PacketsReceivedControl"@);
    assert(value_name_of(optional_connection_properties()[24]) == "PacketsReceivedTotal"@);
    assert(value_name_of(optional_connection_properties()[25]) == "BytesReceivedSpeech"@);
    assert(value_name_of(optional_connection_properties()[26]) == "BytesReceivedKeepalive"@);
    assert(value_name_of(optional_connection_properties()[27]) == "BytesReceivedControl"@);
    assert(value_name_of(optional_connection_properties()[28]) == "BytesReceivedTotal"@);
    assert(value_name_of(optional_connection_properties()[29]) == "PacketlossSpeech"@);
    assert(value_name_of(optional_connection_properties()[30]) == "PacketlossKeepalive"@);
    assert(value_name_of(optional_connection_properties()[31]) == "PacketlossControl"@);
    assert(value_name_of(optional_connection_properties()[32]) == "PacketlossTotal"@);
    assert(value_name_of(optional_connection_properties()[33]) == "Server2ClientPacketlossSpeech"@);
    assert(value_name_of(optional_connection_properties()[34]) == "Server2ClientPacketlossKeepalive"@);
    assert(value_name_of(optional_connection_properties()[35]) == "Server2ClientPacketlossControl"@);
    assert(value_name_of(optional_connection_properties()[36]) == "Server2ClientPacketlossTotal"@);
    assert(value_name_of(optional_connection_properties()[37]) == "Client2ServerPacketlossSpeech"@);
    assert(value_name_of(optional_connection_properties()[38]) == "Client2ServerPacketlossKeepalive"@);
    assert(value_name_of(optional_connection_properties()[39]) == "Client2ServerPacketlossControl"@);
    assert(value_name_of(optional_connection_properties()[40]) == "Client2ServerPacketlossTotal"@);
    assert(value_name_of(optional_connection_properties()[41]) == "BandwidthSentLastSecondSpeech"@);
    assert(value_name_of(optional_connection_properties()[42]) == "BandwidthSentLastSecondKeepalive"@);
    assert(value_name_of(optional_connection_properties()[43]) == "BandwidthSentLastSecondControl"@);
    assert(value_name_of(optional_connection_properties()[44]) == "BandwidthSentLastSecondTotal"@);
    assert(value_name_of(optional_connection_properties()[45]) == "BandwidthSentLastMinuteSpeech"@);
    assert(value_name_of(optional_connection_properties()[46]) == "BandwidthSentLastMinuteKeepalive"@);
    assert(value_name_of(optional_connection_properties()[47]) == "BandwidthSentLastMinuteControl"@);
    assert(value_name_of(optional_connection_properties()[48]) == "BandwidthSentLastMinuteTotal"@);
    assert(value_name_of(optional_connection_properties()[49]) == "BandwidthReceivedLastSecondSpeech"@);
    assert(value_name_of(optional_connection_properties()[50]) == "BandwidthReceivedLastSecondKeepalive"@);
    assert(value_name_of(optional_connection_properties()[51]) == "BandwidthReceivedLastSecondControl"@);
    assert(value_name_of(optional_connection_properties()[52]) == "BandwidthReceivedLastSecondTotal"@);
    assert(value_name_of(optional_connection_properties()[53]) == "BandwidthReceivedLastMinuteSpeech"@);
    assert(value_name_of(optional_connection_properties()[54]) == "BandwidthReceivedLastMinuteKeepalive"@);
    assert(value_name_of(optional_connection_properties()[55]) == "BandwidthReceivedLastMinuteControl"@);
    assert(value_name_of(optional_connection_properties()[56]) == "BandwidthReceivedLastMinuteTotal"@);
    assert(value_name_of(optional_connection_properties()[57]) == "MonthBytesUploaded"@);
    assert(value_name_of(optional_connection_properties()[58]) == "MonthBytesDownloaded"@);
    assert(value_name_of(optional_connection_properties()[59]) == "TotalBytesUploaded"@);
    assert(value_name_of(optional_connection_properties()[60]) == "TotalBytesDownloaded"@);
    assert(value_name_of(optional_connection_properties()[61]) == "DefaultChannelPassword"@);
    assert(value_name_of(optional_connection_properties()[62]) == "ServerPassword"@);
    assert(value_name_of(optional_connection_properties()[63]) == "IsMuted"@);
    assert(value_name_of(optional_connection_properties()[64]) == "VolumeModificator"@);
    assert(value_name_of(optional_connection_properties()[65]) == "VersionSign"@);
    assert(value_name_of(optional_connection_properties()[66]) == "FlagAvatar"@);
    assert(value_name_of(optional_connection_properties()[67]) == "Description"@);
    assert(value_name_of(optional_connection_properties()[68]) == "IsTalker"@);
    assert(value_name_of(optional_connection_properties()[69]) == "IsPrioritySpeaker"@);
    assert(value_name_of(optional_connection_properties()[70]) == "UnreadMessages"@);
    assert(value_name_of(optional_connection_properties()[71]) == "NeededServerqueryViewPower"@);
    assert(value_name_of(optional_connection_properties()[72]) == "IconId"@);
    assert(value_name_of(optional_connection_properties()[73]) == "IsChannelCommander"@);
    assert(value_name_of(optional_connection_properties()[74]) == "Country"@);
    assert(value_name_of(optional_connection_properties()[75]) == "Badges"@);
    assert(value_names(optional_connection_properties()) =~= optional_value_list());
}

#[verifier::rlimit(100)]
proof fn lemma_optional_values_distinct()
    ensures
        pairwise_distinct(optional_value_list()),
{
    reveal_strlit("Badges");
    reveal_strlit("BandwidthReceivedLastMinuteControl");
    reveal_strlit("BandwidthReceivedLastMinuteKeepalive");
    reveal_strlit("BandwidthReceivedLastMinuteSpeech");
    reveal_strlit("BandwidthReceivedLastMinuteTotal");
    reveal_strlit("BandwidthReceivedLastSecondControl");
    reveal_strlit("BandwidthReceivedLastSecondKeepalive");
    reveal_strlit("BandwidthReceivedLastSecondSpeech");
    reveal_strlit("BandwidthReceivedLastSecondTotal");
    reveal_strlit("BandwidthSentLastMinuteControl");
    reveal_strlit("BandwidthSentLastMinuteKeepalive");
    reveal_strlit("BandwidthSentLastMinuteSpeech");
    reveal_strlit("BandwidthSentLastMinuteTotal");
    reveal_strlit("BandwidthSentLastSecondControl");
    reveal_strlit("BandwidthSentLastSecondKeepalive");
    reveal_strlit("BandwidthSentLastSecondSpeech");
    reveal_strlit("BandwidthSentLastSecondTotal");
    reveal_strlit("BytesReceivedControl");
    reveal_strlit("BytesReceivedKeepalive");
    reveal_strlit("BytesReceivedSpeech");
    reveal_strlit("BytesReceivedTotal");
    reveal_strlit("BytesSentControl");
    reveal_strlit("BytesSentKeepalive");
    reveal_strlit("BytesSentSpeech");
    reveal_strlit("BytesSentTotal");
    reveal_strlit("Client2ServerPacketlossControl");
    reveal_strlit("Client2ServerPacketlossKeepalive");
    reveal_strlit("Client2ServerPacketlossSpeech");
    reveal_strlit("Client2ServerPacketlossTotal");
    reveal_strlit("ClientIp");
    reveal_strlit("ClientPort");
    reveal_strlit("ConnectedTime");
    reveal_strlit("Country");
    reveal_strlit("Created");
    reveal_strlit("DefaultChannelPassword");
    reveal_strlit("Description");
    reveal_strlit("FlagAvatar");
    reveal_strlit("IconId");
    reveal_strlit("Id");
    reveal_strlit("IdleTime");
    reveal_strlit("IsChannelCommander");
    reveal_strlit("IsMuted");
    reveal_strlit("IsPrioritySpeaker");
    reveal_strlit("IsTalker");
    reveal_strlit("LastConnected");
    reveal_strlit("MonthBytesDownloaded");
    reveal_strlit("MonthBytesUploaded");
    reveal_strlit("NeededServerqueryViewPower");
    reveal_strlit("PacketlossControl");
    reveal_strlit("PacketlossKeepalive");
    reveal_strlit("PacketlossSpeech");
    reveal_strlit("PacketlossTotal");
    reveal_strlit("PacketsReceivedControl");
    reveal_strlit("PacketsReceivedKeepalive");
    reveal_strlit("PacketsReceivedSpeech");
    reveal_strlit("PacketsReceivedTotal");
    reveal_strlit("PacketsSentControl");
    reveal_strlit("PacketsSentKeepalive");
    reveal_strlit("PacketsSentSpeech");
    reveal_strlit("PacketsSentTotal");
    reveal_strlit("Ping");
    reveal_strlit("PingDeviation");
    reveal_strlit("Platform");
    reveal_strlit("Server2ClientPacketlossControl");
    reveal_strlit("Server2ClientPacketlossKeepalive");
    reveal_strlit("Server2ClientPacketlossSpeech");
    reveal_strlit("Server2ClientPacketlossTotal");
    reveal_strlit("ServerId");
    reveal_strlit("ServerPassword");
    reveal_strlit("TotalBytesDownloaded");
    reveal_strlit("TotalBytesUploaded");
    reveal_strlit("TotalConnection");
    reveal_strlit("UnreadMessages");
    reveal_strlit("Version");
    reveal_strlit("VersionSign");
    reveal_strlit("VolumeModificator");
    // The length of each value name, and for two of equal length a letter
    // in which they differ.
    assert("Badges"@.len() == 6);
    assert("BandwidthReceivedLastMinuteControl"@.len() == 34);
    assert("BandwidthReceivedLastMinuteKeepalive"@.len() == 36);
    assert("BandwidthReceivedLastMinuteSpeech"@.len() == 33);
    assert("BandwidthReceivedLastMinuteTotal"@.len() == 32);
    assert("BandwidthReceivedLastSecondControl"@.len() == 34);
    assert("BandwidthReceivedLastSecondKeepalive"@.len() == 36);
    assert("BandwidthReceivedLastSecondSpeech"@.len() == 33);
    assert("BandwidthReceivedLastSecondTotal"@.len() == 32);
    assert("BandwidthSentLastMinuteControl"@.len() == 30);
    assert("BandwidthSentLastMinuteKeepalive"@.len() == 32);
    assert("BandwidthSentLastMinuteSpeech"@.len() == 29);
    assert("BandwidthSentLastMinuteTotal"@.len() == 28);
    assert("BandwidthSentLastSecondControl"@.len() == 30);
    assert("BandwidthSentLastSecondKeepalive"@.len() == 32);
    assert("BandwidthSentLastSecondSpeech"@.len() == 29);
    assert("BandwidthSentLastSecondTotal"@.len() == 28);
    assert("BytesReceivedControl"@.len() == 20);
    assert("BytesReceivedKeepalive"@.len() == 22);
    assert("BytesReceivedSpeech"@.len() == 19);
    assert("BytesReceivedTotal"@.len() == 18);
    assert("BytesSentControl"@.len() == 16);
    assert("BytesSentKeepalive"@.len() == 18);
    assert("BytesSentSpeech"@.len() == 15);
    assert("BytesSentTotal"@.len() == 14);
    assert("Client2ServerPacketlossControl"@.len() == 30);
    assert("Client2ServerPacketlossKeepalive"@.len() == 32);
    assert("Client2ServerPacketlossSpeech"@.len() == 29);
    assert("Client2ServerPacketlossTotal"@.len() == 28);
    assert("ClientIp"@.len() == 8);
    assert("ClientPort"@.len() == 10);
    assert("ConnectedTime"@.len() == 13);
    assert("Country"@.len() == 7);
    assert("Created"@.len() == 7);
    assert("DefaultChannelPassword"@.len() == 22);
    assert("Description"@.len() == 11);
    assert("FlagAvatar"@.len() == 10);
    assert("IconId"@.len() == 6);
    assert("Id"@.len() == 2);
    assert("IdleTime"@.len() == 8);
    assert("IsChannelCommander"@.len() == 18);
    assert("IsMuted"@.len() == 7);
    assert("IsPrioritySpeaker"@.len() == 17);
    assert("IsTalker"@.len() == 8);
    assert("LastConnected"@.len() == 13);
    assert("MonthBytesDownloaded"@.len() == 20);
    assert("MonthBytesUploaded"@.len() == 18);
    assert("NeededServerqueryViewPower"@.len() == 26);
    assert("PacketlossControl"@.len() == 17);
    assert("PacketlossKeepalive"@.len() == 19);
    assert("PacketlossSpeech"@.len() == 16);
    assert("PacketlossTotal"@.len() == 15);
    assert("PacketsReceivedControl"@.len() == 22);
    assert("PacketsReceivedKeepalive"@.len() == 24);
    assert("PacketsReceivedSpeech"@.len() == 21);
    assert("PacketsReceivedTotal"@.len() == 20);
    assert("PacketsSentControl"@.len() == 18);
    assert("PacketsSentKeepalive"@.len() == 20);
    assert("PacketsSentSpeech"@.len() == 17);
    assert("PacketsSentTotal"@.len() == 16);
    assert("Ping"@.len() == 4);
    assert("PingDeviation"@.len() == 13);
    assert("Platform"@.len() == 8);
    assert("Server2ClientPacketlossControl"@.len() == 30);
    assert("Server2ClientPacketlossKeepalive"@.len() == 32);
    assert("Server2ClientPacketlossSpeech"@.len() == 29);
    assert("Server2ClientPacketlossTotal"@.len() == 28);
    assert("ServerId"@.len() == 8);
    assert("ServerPassword"@.len() == 14);
    assert("TotalBytesDownloaded"@.len() == 20);
    assert("TotalBytesUploaded"@.len() == 18);
    assert("TotalConnection"@.len() == 15);
    assert("UnreadMessages"@.len() == 14);
    assert("Version"@.len() == 7);
    assert("VersionSign"@.len() == 11);
    assert("VolumeModificator"@.len() == 17);
    assert("ServerId"@[0] != "Platform"@[0]);
    assert("ServerId"@[0] != "IdleTime"@[0]);
    assert("ServerId"@[0] != "ClientIp"@[0]);
    assert("ServerId"@[0] != "IsTalker"@[0]);
    assert("Version"@[0] != "Created"@[0]);
    assert("Version"@[0] != "IsMuted"@[0]);
    assert("Version"@[0] != "Country"@[0]);
    assert("Platform"@[0] != "IdleTime"@[0]);
    assert("Platform"@[0] != "ClientIp"@[0]);
    assert("Platform"@[0] != "IsTalker"@[0]);
    assert("Created"@[0] != "IsMuted"@[0]);
    assert("Created"@[1] != "Country"@[1]);
    assert("LastConnected"@[0] != "PingDeviation"@[0]);
    assert("LastConnected"@[0] != "ConnectedTime"@[0]);
    assert("TotalConnection"@[0] != "BytesSentSpeech"@[0]);
    assert("TotalConnection"@[0] != "PacketlossTotal"@[0]);
    assert("PingDeviation"@[0] != "ConnectedTime"@[0]);
    assert("IdleTime"@[0] != "ClientIp"@[0]);
    assert("IdleTime"@[1] != "IsTalker"@[1]);
    assert("ClientIp"@[0] != "IsTalker"@[0]);
    assert("ClientPort"@[0] != "FlagAvatar"@[0]);
    assert("PacketsSentSpeech"@[6] != "PacketlossControl"@[6]);
    assert("PacketsSentSpeech"@[0] != "VolumeModificator"@[0]);
    assert("PacketsSentSpeech"@[0] != "IsPrioritySpeaker"@[0]);
    assert("PacketsSentKeepalive"@[7] != "PacketsReceivedTotal"@[7]);
    assert("PacketsSentKeepalive"@[0] != "BytesReceivedControl"@[0]);
    assert("PacketsSentKeepalive"@[0] != "MonthBytesDownloaded"@[0]);
    assert("PacketsSentKeepalive"@[0] != "TotalBytesDownloaded"@[0]);
    assert("PacketsSentControl"@[0] != "BytesSentKeepalive"@[0]);
    assert("PacketsSentControl"@[0] != "BytesReceivedTotal"@[0]);
    assert("PacketsSentControl"@[0] != "MonthBytesUploaded"@[0]);
    assert("PacketsSentControl"@[0] != "TotalBytesUploaded"@[0]);
    assert("PacketsSentControl"@[0] != "IsChannelCommander"@[0]);
    assert("PacketsSentTotal"@[0] != "BytesSentControl"@[0]);
    assert("PacketsSentTotal"@[6] != "PacketlossSpeech"@[6]);
    assert("BytesSentSpeech"@[0] != "PacketlossTotal"@[0]);
    assert("BytesSentKeepalive"@[5] != "BytesReceivedTotal"@[5]);
    assert("BytesSentKeepalive"@[0] != "MonthBytesUploaded"@[0]);
    assert("BytesSentKeepalive"@[0] != "TotalBytesUploaded"@[0]);
    assert("BytesSentKeepalive"@[0] != "IsChannelCommander"@[0]);
    assert("BytesSentControl"@[0] != "PacketlossSpeech"@[0]);
    assert("BytesSentTotal"@[0] != "ServerPassword"@[0]);
    assert("BytesSentTotal"@[0] != "UnreadMessages"@[0]);
    assert("PacketsReceivedControl"@[0] != "BytesReceivedKeepalive"@[0]);
    assert("PacketsReceivedControl"@[0] != "DefaultChannelPassword"@[0]);
    assert("PacketsReceivedTotal"@[0] != "BytesReceivedControl"@[0]);
    assert("PacketsReceivedTotal"@[0] != "MonthBytesDownloaded"@[0]);
    assert("PacketsReceivedTotal"@[0] != "TotalBytesDownloaded"@[0]);
    assert("BytesReceivedSpeech"@[0] != "PacketlossKeepalive"@[0]);
    assert("BytesReceivedKeepalive"@[0] != "DefaultChannelPassword"@[0]);
    assert("BytesReceivedControl"@[0] != "MonthBytesDownloaded"@[0]);
    assert("BytesReceivedControl"@[0] != "TotalBytesDownloaded"@[0]);
    assert("BytesReceivedTotal"@[0] != "MonthBytesUploaded"@[0]);
    assert("BytesReceivedTotal"@[0] != "TotalBytesUploaded"@[0]);
    assert("BytesReceivedTotal"@[0] != "IsChannelCommander"@[0]);
    assert("PacketlossControl"@[0] != "VolumeModificator"@[0]);
    assert("PacketlossControl"@[0] != "IsPrioritySpeaker"@[0]);
    assert("Server2ClientPacketlossSpeech"@[0] != "Client2ServerPacketlossSpeech"@[0]);
    assert("Server2ClientPacketlossSpeech"@[0] != "BandwidthSentLastSecondSpeech"@[0]);
    assert("Server2ClientPacketlossSpeech"@[0] != "BandwidthSentLastMinuteSpeech"@[0]);
    assert("Server2ClientPacketlossKeepalive"@[0] != "Client2ServerPacketlossKeepalive"@[0]);
    assert("Server2ClientPacketlossKeepalive"@[0] != "BandwidthSentLastSecondKeepalive"@[0]);
    assert("Server2ClientPacketlossKeepalive"@[0] != "BandwidthSentLastMinuteKeepalive"@[0]);
    assert("Server2ClientPacketlossKeepalive"@[0] != "BandwidthReceivedLastSecondTotal"@[0]);
    assert("Server2ClientPacketlossKeepalive"@[0] != "BandwidthReceivedLastMinuteTotal"@[0]);
    assert("Server2ClientPacketlossControl"@[0] != "Client2ServerPacketlossControl"@[0]);
    assert("Server2ClientPacketlossControl"@[0] != "BandwidthSentLastSecondControl"@[0]);
    assert("Server2ClientPacketlossControl"@[0] != "BandwidthSentLastMinuteControl"@[0]);
    assert("Server2ClientPacketlossTotal"@[0] != "Client2ServerPacketlossTotal"@[0]);
    assert("Server2ClientPacketlossTotal"@[0] != "BandwidthSentLastSecondTotal"@[0]);
    assert("Server2ClientPacketlossTotal"@[0] != "BandwidthSentLastMinuteTotal"@[0]);
    assert("Client2ServerPacketlossSpeech"@[0] != "BandwidthSentLastSecondSpeech"@[0]);
    assert("Client2ServerPacketlossSpeech"@[0] != "BandwidthSentLastMinuteSpeech"@[0]);
    assert("Client2ServerPacketlossKeepalive"@[0] != "BandwidthSentLastSecondKeepalive"@[0]);
    assert("Client2ServerPacketlossKeepalive"@[0] != "BandwidthSentLastMinuteKeepalive"@[0]);
    assert("Client2ServerPacketlossKeepalive"@[0] != "BandwidthReceivedLastSecondTotal"@[0]);
    assert("Client2ServerPacketlossKeepalive"@[0] != "BandwidthReceivedLastMinuteTotal"@[0]);
    assert("Client2ServerPacketlossControl"@[0] != "BandwidthSentLastSecondControl"@[0]);
    assert("Client2ServerPacketlossControl"@[0] != "BandwidthSentLastMinuteControl"@[0]);
    assert("Client2ServerPacketlossTotal"@[0] != "BandwidthSentLastSecondTotal"@[0]);
    assert("Client2ServerPacketlossTotal"@[0] != "BandwidthSentLastMinuteTotal"@[0]);
    assert("BandwidthSentLastSecondSpeech"@[17] != "BandwidthSentLastMinuteSpeech"@[17]);
    assert("BandwidthSentLastSecondKeepalive"@[17] != "BandwidthSentLastMinuteKeepalive"@[17]);
    assert("BandwidthSentLastSecondKeepalive"@[9] != "BandwidthReceivedLastSecondTotal"@[9]);
    assert("BandwidthSentLastSecondKeepalive"@[9] != "BandwidthReceivedLastMinuteTotal"@[9]);
    assert("BandwidthSentLastSecondControl"@[17] != "BandwidthSentLastMinuteControl"@[17]);
    assert("BandwidthSentLastSecondTotal"@[17] != "BandwidthSentLastMinuteTotal"@[17]);
    assert("BandwidthSentLastMinuteKeepalive"@[9] != "BandwidthReceivedLastSecondTotal"@[9]);
    assert("BandwidthSentLastMinuteKeepalive"@[9] != "BandwidthReceivedLastMinuteTotal"@[9]);
    assert("BandwidthReceivedLastSecondSpeech"@[21] != "BandwidthReceivedLastMinuteSpeech"@[21]);
    assert("BandwidthReceivedLastSecondKeepalive"@[21] != "BandwidthReceivedLastMinuteKeepalive"@[21]);
    assert("BandwidthReceivedLastSecondControl"@[21] != "BandwidthReceivedLastMinuteControl"@[21]);
    assert("BandwidthReceivedLastSecondTotal"@[21] != "BandwidthReceivedLastMinuteTotal"@[21]);
    assert("MonthBytesUploaded"@[0] != "TotalBytesUploaded"@[0]);
    assert("MonthBytesUploaded"@[0] != "IsChannelCommander"@[0]);
    assert("MonthBytesDownloaded"@[0] != "TotalBytesDownloaded"@[0]);
    assert("TotalBytesUploaded"@[0] != "IsChannelCommander"@[0]);
    assert("ServerPassword"@[0] != "UnreadMessages"@[0]);
    assert("IsMuted"@[0] != "Country"@[0]);
    assert("VolumeModificator"@[0] != "IsPrioritySpeaker"@[0]);
    assert("VersionSign"@[0] != "Description"@[0]);
    assert("IconId"@[0] != "Badges"@[0]);
    reveal_with_fuel(distinct_from, 77);
    reveal_with_fuel(absent_from, 77);
    assert(distinct_from(optional_value_list(), 0));
    lemma_distinct_from(optional_value_list(), 0);
}

/// No two properties of the data of a connection that is only known on request are fetched by the same enum value: each
/// one's value name (its given value name, else its name in pascal case) is
/// its own.
pub proof fn law_optional_value_names_distinct()
    ensures
        forall|i: int, j: int|
            0 <= i < j < optional_connection_properties().len() ==> value_name_of(#[trigger] optional_connection_properties()[i])
                != value_name_of(#[trigger] optional_connection_properties()[j]),
{
    lemma_optional_value_names();
    lemma_optional_values_distinct();
    assert forall|i: int, j: int| 0 <= i < j < optional_connection_properties().len() implies value_name_of(
        #[trigger] optional_connection_properties()[i],
    ) != value_name_of(#[trigger] optional_connection_properties()[j]) by {
        assert(value_names(optional_connection_properties())[i] == value_name_of(optional_connection_properties()[i]));
        assert(value_names(optional_connection_properties())[j] == value_name_of(optional_connection_properties()[j]));
    }
}

/// The enum values of the properties of the data of every connection.
spec fn connection_value_list() -> Seq<Seq<char>> {
    seq![
        "Id"@,
        "ServerId"@,
        "ChannelId"@,
        "UniqueIdentifier"@,
        "Nickname"@,
        "FlagTalking"@,
        "Whispering"@,
        "Away"@,
        "AwayMessage"@,
        "InputMuted"@,
        "OutputMuted"@,
        "OutputOnlyMuted"@,
        "InputHardware"@,
        "OutputHardware"@,
        "NicknamePhonetic"@,
        "IsRecording"@,
        "DatabaseId"@,
        "ChannelGroupId"@,
        "ServerGroups"@,
        "TalkPower"@,
        "TalkRequest"@,
        "TalkRequestMsg"@,
        "ChannelGroupInheritedChannelId"@,
        "OwnData"@,
        "ServerqueryData"@,
        "OptionalData"@,
    ]
}

#[verifier::rlimit(100)]
proof fn lemma_connection_pascal_0()
    ensures
        pascal_case("id"@) == "Id"@,
        pascal_case("server_id"@) == "ServerId"@,
        pascal_case("channel_id"@) == "ChannelId"@,
        pascal_case("whispering"@) == "Whispering"@,
        pascal_case("away"@) == "Away"@,
        pascal_case("away_message"@) == "AwayMessage"@,
        pascal_case("input_muted"@) == "InputMuted"@,
        pascal_case("output_muted"@) == "OutputMuted"@,
{
    reveal_strlit("id");
    reveal_strlit("Id");
    reveal_strlit("server_id");
    reveal_strlit("ServerId");
    reveal_strlit("channel_id");
    reveal_strlit("ChannelId");
    reveal_strlit("whispering");
    reveal_strlit("Whispering");
    reveal_strlit("away");
    reveal_strlit("Away");
    reveal_strlit("away_message");
    reveal_strlit("AwayMessage");
    reveal_strlit("input_muted");
    reveal_strlit("InputMuted");
    reveal_strlit("output_muted");
    reveal_strlit("OutputMuted");
    reveal_with_fuel(pascal_from, 14);
    assert(pascal_case("id"@) =~= "Id"@);
    assert(pascal_case("server_id"@) =~= "ServerId"@);
    assert(pascal_case("channel_id"@) =~= "ChannelId"@);
    assert(pascal_case("whispering"@) =~= "Whispering"@);
    assert(pascal_case("away"@) =~= "Away"@);
    assert(pascal_case("away_message"@) =~= "AwayMessage"@);
    assert(pascal_case("input_muted"@) =~= "InputMuted"@);
    assert(pascal_case("output_muted"@) =~= "OutputMuted"@);
}

#[verifier::rlimit(100)]
proof fn lemma_connection_pascal_1()
    ensures
        pascal_case("output_only_muted"@) == "OutputOnlyMuted"@,
        pascal_case("input_hardware"@) == "InputHardware"@,
        pascal_case("output_hardware"@) == "OutputHardware"@,
        pascal_case("database_id"@) == "DatabaseId"@,
{
    reveal_strlit("output_only_muted");
    reveal_strlit("OutputOnlyMuted");
    reveal_strlit("input_hardware");
    reveal_strlit("InputHardware");
    reveal_strlit("output_hardware");
    reveal_strlit("OutputHardware");
    reveal_strlit("database_id");
    reveal_strlit("DatabaseId");
    reveal_with_fuel(pascal_from, 19);
    assert(pascal_case("output_only_muted"@) =~= "OutputOnlyMuted"@);
    assert(pascal_case("input_hardware"@) =~= "InputHardware"@);
    assert(pascal_case("output_hardware"@) =~= "OutputHardware"@);
    assert(pascal_case("database_id"@) =~= "DatabaseId"@);
}

#[verifier::rlimit(100)]
proof fn lemma_connection_pascal_2()
    ensures
        pascal_case("channel_group_id"@) == "ChannelGroupId"@,
        pascal_case("server_groups"@) == "ServerGroups"@,
        pascal_case("talk_power"@) == "TalkPower"@,
        pascal_case("talk_request"@) == "TalkRequest"@,
{
    reveal_strlit("channel_group_id");
    reveal_strlit("ChannelGroupId");
    reveal_strlit("server_groups");
    reveal_strlit("ServerGroups");
    reveal_strlit("talk_power");
    reveal_strlit("TalkPower");
    reveal_strlit("talk_request");
    reveal_strlit("TalkRequest");
    reveal_with_fuel(pascal_from, 18);
    assert(pascal_case("channel_group_id"@) =~= "ChannelGroupId"@);
    assert(pascal_case("server_groups"@) =~= "ServerGroups"@);
    assert(pascal_case("talk_power"@) =~= "TalkPower"@);
    assert(pascal_case("talk_request"@) =~= "TalkRequest"@);
}

#[verifier::rlimit(100)]
proof fn lemma_connection_pascal_3()
    ensures
        pascal_case("channel_group_inherited_channel_id"@) == "ChannelGroupInheritedChannelId"@,
{
    reveal_strlit("channel_group_inherited_channel_id");
    reveal_strlit("ChannelGroupInheritedChannelId");
    reveal_with_fuel(pascal_from, 36);
    assert(pascal_case("channel_group_inherited_channel_id"@) =~= "ChannelGroupInheritedChannelId"@);
}

#[verifier::rlimit(100)]
proof fn lemma_connection_pascal_4()
    ensures
        pascal_case("own_data"@) == "OwnData"@,
        pascal_case("serverquery_data"@) == "ServerqueryData"@,
        pascal_case("optional_data"@) == "OptionalData"@,
{
    reveal_strlit("own_data");
    reveal_strlit("OwnData");
    reveal_strlit("serverquery_data");
    reveal_strlit("ServerqueryData");
    reveal_strlit("optional_data");
    reveal_strlit("OptionalData");
    reveal_with_fuel(pascal_from, 18);
    assert(pascal_case("own_data"@) =~= "OwnData"@);
    assert(pascal_case("serverquery_data"@) =~= "ServerqueryData"@);
    assert(pascal_case("optional_data"@) =~= "OptionalData"@);
}


proof fn lemma_connection_value_names()
    ensures
        value_names(connection_properties()) == connection_value_list(),
{
    lemma_connection_pascal_0();
    lemma_connection_pascal_1();
    lemma_connection_pascal_2();
    lemma_connection_pascal_3();
    lemma_connection_pascal_4();
    // Each property's value name: the given one, else the computed one.
    assert(value_name_of(connection_properties()[0]) == "Id"@);
    assert(value_name_of(connection_properties()[1]) == "ServerId"@);
    assert(value_name_of(connection_properties()[2]) == "ChannelId"@);
    assert(value_name_of(connection_properties()[3]) == "UniqueIdentifier"@);
    assert(value_name_of(connection_properties()[4]) == "Nickname"@);
    assert(value_name_of(connection_properties()[5]) == "FlagTalking"@);
    assert(value_name_of(connection_properties()[6]) == "Whispering"@);
    assert(value_name_of(connection_properties()[7]) == "Away"@);
    assert(value_name_of(connection_properties()[8]) == "AwayMessage"@);
    assert(value_name_of(connection_properties()[9]) == "InputMuted"@);
    assert(value_name_of(connection_properties()[10]) == "OutputMuted"@);
    assert(value_name_of(connection_properties()[11]) == "OutputOnlyMuted"@);
    assert(value_name_of(connection_properties()[12]) == "InputHardware"@);
    assert(value_name_of(connection_properties()[13]) == "OutputHardware"@);
    assert(value_name_of(connection_properties()[14]) == "NicknamePhonetic"@);
    assert(value_name_of(connection_properties()[15]) == "IsRecording"@);
    assert(value_name_of(connection_properties()[16]) == "DatabaseId"@);
    assert(value_name_of(connection_properties()[17]) == "ChannelGroupId"@);
    assert(value_name_of(connection_properties()[18]) == "ServerGroups"@);
    assert(value_name_of(connection_properties()[19]) == "TalkPower"@);
    assert(value_name_of(connection_properties()[20]) == "TalkRequest"@);
    assert(value_name_of(connection_properties()[21]) == "TalkRequestMsg"@);
    assert(value_name_of(connection_properties()[22]) == "ChannelGroupInheritedChannelId"@);
    assert(value_name_of(connection_properties()[23]) == "OwnData"@);
    assert(value_name_of(connection_properties()[24]) == "ServerqueryData"@);
    assert(value_name_of(connection_properties()[25]) == "OptionalData"@);
    assert(value_names(connection_properties()) =~= connection_value_list());
}

#[verifier::rlimit(100)]
proof fn lemma_connection_values_distinct()
    ensures
        pairwise_distinct(connection_value_list()),
{
    reveal_strlit("Away");
    reveal_strlit("AwayMessage");
    reveal_strlit("ChannelGroupId");
    reveal_strlit("ChannelGroupInheritedChannelId");
    reveal_strlit("ChannelId");
    reveal_strlit("DatabaseId");
    reveal_strlit("FlagTalking");
    reveal_strlit("Id");
    reveal_strlit("InputHardware");
    reveal_strlit("InputMuted");
    reveal_strlit("IsRecording");
    reveal_strlit("Nickname");
    reveal_strlit("NicknamePhonetic");
    reveal_strlit("OptionalData");
    reveal_strlit("OutputHardware");
    reveal_strlit("OutputMuted");
    reveal_strlit("OutputOnlyMuted");
    reveal_strlit("OwnData");
    reveal_strlit("ServerGroups");
    reveal_strlit("ServerId");
    reveal_strlit("ServerqueryData");
    reveal_strlit("TalkPower");
    reveal_strlit("TalkRequest");
    reveal_strlit("TalkRequestMsg");
    reveal_strlit("UniqueIdentifier");
    reveal_strlit("Whispering");
    // The length of each value name, and for two of equal length a letter
    // in which they differ.
    assert("Away"@.len() == 4);
    assert("AwayMessage"@.len() == 11);
    assert("ChannelGroupId"@.len() == 14);
    assert("ChannelGroupInheritedChannelId"@.len() == 30);
    assert("ChannelId"@.len() == 9);
    assert("DatabaseId"@.len() == 10);
    assert("FlagTalking"@.len() == 11);
    assert("Id"@.len() == 2);
    assert("InputHardware"@.len() == 13);
    assert("InputMuted"@.len() == 10);
    assert("IsRecording"@.len() == 11);
    assert("Nickname"@.len() == 8);
    assert("NicknamePhonetic"@.len() == 16);
    assert("OptionalData"@.len() == 12);
    assert("OutputHardware"@.len() == 14);
    assert("OutputMuted"@.len() == 11);
    assert("OutputOnlyMuted"@.len() == 15);
    assert("OwnData"@.len() == 7);
    assert("ServerGroups"@.len() == 12);
    assert("ServerId"@.len() == 8);
    assert("ServerqueryData"@.len() == 15);
    assert("TalkPower"@.len() == 9);
    assert("TalkRequest"@.len() == 11);
    assert("TalkRequestMsg"@.len() == 14);
    assert("UniqueIdentifier"@.len() == 16);
    assert("Whispering"@.len() == 10);
    assert("ServerId"@[0] != "Nickname"@[0]);
    assert("ChannelId"@[0] != "TalkPower"@[0]);
    assert("UniqueIdentifier"@[0] != "NicknamePhonetic"@[0]);
    assert("FlagTalking"@[0] != "AwayMessage"@[0]);
    assert("FlagTalking"@[0] != "OutputMuted"@[0]);
    assert("FlagTalking"@[0] != "IsRecording"@[0]);
    assert("FlagTalking"@[0] != "TalkRequest"@[0]);
    assert("Whispering"@[0] != "InputMuted"@[0]);
    assert("Whispering"@[0] != "DatabaseId"@[0]);
    assert("AwayMessage"@[0] != "OutputMuted"@[0]);
    assert("AwayMessage"@[0] != "IsRecording"@[0]);
    assert("AwayMessage"@[0] != "TalkRequest"@[0]);
    assert("InputMuted"@[0] != "DatabaseId"@[0]);
    assert("OutputMuted"@[0] != "IsRecording"@[0]);
    assert("OutputMuted"@[0] != "TalkRequest"@[0]);
    assert("OutputOnlyMuted"@[0] != "ServerqueryData"@[0]);
    assert("OutputHardware"@[0] != "ChannelGroupId"@[0]);
    assert("OutputHardware"@[0] != "TalkRequestMsg"@[0]);
    assert("IsRecording"@[0] != "TalkRequest"@[0]);
    assert("ChannelGroupId"@[0] != "TalkRequestMsg"@[0]);
    assert("ServerGroups"@[0] != "OptionalData"@[0]);
    reveal_with_fuel(distinct_from, 27);
    reveal_with_fuel(absent_from, 27);
    assert(distinct_from(connection_value_list(), 0));
    lemma_distinct_from(connection_value_list(), 0);
}

/// No two properties of the data of every connection are fetched by the same enum value: each
/// one's value name (its given value name, else its name in pascal case) is
/// its own.
pub proof fn law_connection_value_names_distinct()
    ensures
        forall|i: int, j: int|
            0 <= i < j < connection_properties().len() ==> value_name_of(#[trigger] connection_properties()[i])
                != value_name_of(#[trigger] connection_properties()[j]),
{
    lemma_connection_value_names();
    lemma_connection_values_distinct();
    assert forall|i: int, j: int| 0 <= i < j < connection_properties().len() implies value_name_of(
        #[trigger] connection_properties()[i],
    ) != value_name_of(#[trigger] connection_properties()[j]) by {
        assert(value_names(connection_properties())[i] == value_name_of(connection_properties()[i]));
        assert(value_names(connection_properties())[j] == value_name_of(connection_properties()[j]));
    }
}

} // verus!
