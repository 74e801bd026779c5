//! Properties that hold across the functions of the library.
use vstd::prelude::*;

use crate::codegen::{
    add_new_properties, api_properties, borrowed_type, getter_body_spec, initialisation_spec,
    is_ref_type_spec, lookup, pairs_map, ref_type_spec, return_type_spec, value_name_of,
    PropertyView, StructView,
};
use crate::conversions::{c_text, edited_flags, null_character_message, PATH_MAX_SIZE, PATH_START_SIZE};
use crate::events::{
    client_move_begin_spec, client_move_end_spec, connect_status_begin_spec,
    connect_status_end_spec, server_add_connection, server_remove_connection, api_add_connection,
    api_remove_connection, move_callback, server_change_channel, server_replace_channel, visible,
    MoveCallback,
};
use crate::ids::{ChannelId, ConnectStatus, ConnectionId, Error, ServerId, Visibility};
use crate::model::{
    invoker_applied, lookup_connection, ChannelView, ConnectionView, InvokerView, ServerView,
    TsApiView,
};

verus! {

// ******************** Visible connections ********************

/// A connection that connects to a known server (moves in from channel 0) is
/// visible after the event, with the data that was fetched of it.
pub proof fn law_connect_makes_visible(api: TsApiView, c: ConnectionView, new: ChannelId, visibility: Visibility)
    requires
        api.servers.contains_key(c.server_id.0),
    ensures
        ({
            let begun = client_move_begin_spec(api, c, ChannelId(0), new, visibility);
            let ended = client_move_end_spec(begun, c.server_id, c.id, ChannelId(0), new, visibility);
            lookup_connection(ended, c.server_id, c.id) == Some(c)
        }),
{
}

/// A connection that disconnects (moves out to channel 0) is not visible
/// after the event, whatever the plugin did in between.
pub proof fn law_disconnect_removes(
    between: TsApiView,
    server_id: ServerId,
    id: ConnectionId,
    old: ChannelId,
    visibility: Visibility,
)
    requires
        old.0 != 0,
    ensures
        lookup_connection(
            client_move_end_spec(between, server_id, id, old, ChannelId(0), visibility),
            server_id,
            id,
        ) is None,
{
}

/// A connection that switches from one channel to another is reported to
/// the plugin as a move, whether it stays in view, comes into view or leaves
/// it.
pub proof fn law_switch_is_a_move(old: ChannelId, new: ChannelId, visibility: Visibility)
    requires
        old.0 != 0,
        new.0 != 0,
        old != new,
    ensures
        move_callback(old, new, visibility) == MoveCallback::ConnectionMove,
{
}

/// A connection that switches between two subscribed channels stays visible
/// and is recorded in its new channel.
pub proof fn law_switch_records_channel(
    api: TsApiView,
    c: ConnectionView,
    old: ChannelId,
    new: ChannelId,
)
    requires
        old.0 != 0,
        new.0 != 0,
        old != new,
        visible(api, c.server_id, c.id),
    ensures
        ({
            let begun = client_move_begin_spec(api, c, old, new, Visibility::Retain);
            let ended = client_move_end_spec(begun, c.server_id, c.id, old, new, Visibility::Retain);
            lookup_connection(ended, c.server_id, c.id) == Some(
                ConnectionView {
                    channel_id: Ok(new),
                    ..api.servers[c.server_id.0].connections[c.id.0]
                },
            )
        }),
{
}

/// A connection that enters the view of a known server is visible, with
/// the fetched data, until it leaves it again.
pub proof fn law_enter_then_leave(api: TsApiView, c: ConnectionView)
    requires
        api.servers.contains_key(c.server_id.0),
    ensures
        lookup_connection(api_add_connection(api, c), c.server_id, c.id) == Some(c),
        lookup_connection(
            api_remove_connection(api_add_connection(api, c), c.server_id, c.id),
            c.server_id,
            c.id,
        ) is None,
{
}

/// Making a connection visible and removing it again leaves the server as
/// removing it alone does.
pub proof fn law_add_then_remove(s: ServerView, c: ConnectionView)
    ensures
        server_remove_connection(server_add_connection(s, c), c.id) == server_remove_connection(s, c.id),
{
    assert(s.connections.insert(c.id.0, c).remove(c.id.0) =~= s.connections.remove(c.id.0));
}

/// Taking over the identity of an invoker twice changes nothing more than
/// taking it over once.
pub proof fn law_invoker_idempotent(s: ServerView, invoker: InvokerView)
    ensures
        invoker_applied(invoker_applied(s, invoker), invoker) == invoker_applied(s, invoker),
{
    if s.connections.contains_key(invoker.id.0) {
        let once = invoker_applied(s, invoker);
        assert(once.connections.insert(invoker.id.0, once.connections[invoker.id.0]) =~= once.connections);
    }
}

// ******************** Channels ********************

/// A description that was stored for a channel survives when the channel is
/// fetched anew; the other properties are the fetched ones.
pub proof fn law_description_survives_refetch(
    s: ServerView,
    id: ChannelId,
    description: Result<Seq<char>, Error>,
    c: ChannelView,
)
    requires
        s.channels is Ok,
        s.channels->Ok_0.contains_key(id.0),
        c.id == id,
    ensures
        ({
            let updated = server_change_channel(
                s,
                id,
                |ch: ChannelView| ChannelView { description, ..ch },
            );
            let replaced = server_replace_channel(updated, c);
            &&& replaced.channels is Ok
            &&& replaced.channels->Ok_0[id.0] == ChannelView { description, ..c }
        }),
{
}

// ******************** Servers ********************

/// A server is not known after we disconnected from it, whatever was known
/// before.
pub proof fn law_disconnected_forgets_server(api: TsApiView, server: ServerView)
    ensures
        !connect_status_end_spec(
            connect_status_begin_spec(api, server, ConnectStatus::Disconnected),
            server.id,
            ConnectStatus::Disconnected,
        ).servers.contains_key(server.id.0),
{
}

/// While we connect to a server, a server that is not known stays unknown.
pub proof fn law_connecting_adds_nothing(api: TsApiView, server: ServerView)
    ensures
        connect_status_end_spec(
            connect_status_begin_spec(api, server, ConnectStatus::Connecting),
            server.id,
            ConnectStatus::Connecting,
        ) == api,
{
}

/// A server we connected to is known after the event, with the fetched data
/// if it was not known before.
pub proof fn law_connected_knows_server(api: TsApiView, server: ServerView, status: ConnectStatus)
    requires
        status != ConnectStatus::Connecting,
        status != ConnectStatus::Disconnected,
    ensures
        ({
            let ended = connect_status_end_spec(
                connect_status_begin_spec(api, server, status),
                server.id,
                status,
            );
            &&& ended.servers.contains_key(server.id.0)
            &&& !api.servers.contains_key(server.id.0) ==> ended.servers[server.id.0] == server
        }),
{
}

// ******************** Property descriptions ********************

/// The function that a property description gives for a type is the one
/// that a map of type to function holds after the pairs were inserted in
/// order (a later pair for a type replaces an earlier one).
pub proof fn law_functions_as_map(fs: Seq<(Seq<char>, Seq<char>)>, type_s: Seq<char>)
    ensures
        lookup(fs, type_s) == if pairs_map(fs).contains_key(type_s) {
            Some(pairs_map(fs)[type_s])
        } else {
            None
        },
    decreases fs.len(),
{
    if fs.len() > 0 {
        law_functions_as_map(fs.drop_last(), type_s);
    }
}

/// A property that holds a duration or a point in time, and that no earlier
/// rule fetches otherwise, is fetched as a number of seconds: by the
/// function for `u64` if there is one, else by the function for `i32`, and
/// only if neither exists by `get_property_as_int`; the number is then
/// turned into the duration or the time.
pub proof fn law_time_fetched_as_seconds(p: PropertyView, args: Seq<char>, update: bool)
    requires
        p.initialise,
        !update || (p.should_update && p.update is None),
        p.initialisation is None,
        p.method_name is None,
        lookup(p.functions, p.type_s) is None,
        !p.transmutable.contains(p.type_s),
        p.type_s == "Duration"@ || p.type_s == "DateTime<Utc>"@,
    ensures
        ({
            let f = match lookup(p.functions, "u64"@) {
                Some(f) => f,
                None => match lookup(p.functions, "i32"@) {
                    Some(f) => f,
                    None => "get_property_as_int"@,
                },
            };
            let convert = if p.type_s == "Duration"@ {
                ".map(|d| Duration::seconds(d as i64))"@
            } else {
                ".map(|d| DateTime::from_utc(chrono::NaiveDateTime::from_timestamp(d as i64, 0), chrono::Utc))"@
            };
            initialisation_spec(p, args, update) == f + "("@ + args + p.enum_name + "::"@
                + value_name_of(p) + ")"@ + convert
        }),
{
    reveal_strlit("Duration");
    reveal_strlit("DateTime<Utc>");
    assert("Duration"@.len() != "DateTime<Utc>"@.len());
}

/// The getter of a property that is wrapped into a result and handed out by
/// reference borrows the stored result and turns a borrowed error into an
/// error, so that it has the type `Result<&T, ::Error>` of its return type.
pub proof fn law_result_getter_maps_error(p: PropertyView)
    requires
        p.result,
        is_ref_type_spec(p.type_s),
    ensures
        ("self."@ + p.name + ".as_ref()"@).is_prefix_of(getter_body_spec(p)),
        ".map_err(|e| *e)"@.is_suffix_of(getter_body_spec(p)),
        ("Result<&"@ + borrowed_type(p.type_s) + ", ::Error>"@) == return_type_spec(p),
{
    let g = getter_body_spec(p);
    let head = "self."@ + p.name + ".as_ref()"@;
    let mid = if p.type_s == "String"@ { ".map(|v| v.as_str())"@ } else { Seq::<char>::empty() };
    assert(g =~= head + mid + ".map_err(|e| *e)"@);
    assert(g.subrange(0, head.len() as int) =~= head);
    let tail = ".map_err(|e| *e)"@;
    assert(g.subrange(g.len() - tail.len(), g.len() as int) =~= tail);
    assert(return_type_spec(p) =~= "Result<"@ + "&"@ + borrowed_type(p.type_s) + ", ::Error>"@);
    assert("Result<&"@ =~= "Result<"@ + "&"@) by {
        reveal_strlit("Result<&");
        reveal_strlit("Result<");
        reveal_strlit("&");
    }
}

/// The type under which a property is borrowed for the lifetime `'a` is a
/// reference (`&'a` and the type) exactly for the types that the getters
/// hand out by reference, and the type itself for the others; it names the
/// same type as the getter of a property that is not wrapped into a result.
pub proof fn law_ref_type_matches_getter(p: PropertyView)
    ensures
        is_ref_type_spec(p.type_s) ==> ref_type_spec(p) == "&'a "@ + borrowed_type(p.type_s),
        !is_ref_type_spec(p.type_s) ==> ref_type_spec(p) == p.type_s,
        !p.result ==> (is_ref_type_spec(p.type_s) <==> return_type_spec(p) == "&"@
            + borrowed_type(p.type_s)),
{
    reveal_strlit("String");
    reveal_strlit("&");
    assert(ref_type_spec(p) =~= if is_ref_type_spec(p.type_s) {
        "&'a "@ + borrowed_type(p.type_s)
    } else {
        borrowed_type(p.type_s)
    });
    if !p.result {
        assert(return_type_spec(p) =~= if is_ref_type_spec(p.type_s) {
            "&"@ + borrowed_type(p.type_s)
        } else {
            borrowed_type(p.type_s)
        });
        if !is_ref_type_spec(p.type_s) {
            assert(("&"@ + borrowed_type(p.type_s)).len() == borrowed_type(p.type_s).len() + 1);
        }
    }
}

/// Whether no two properties of a list have the same name.
pub open spec fn unique_names(ps: Seq<PropertyView>) -> bool {
    forall|i: int, j: int| 0 <= i < j < ps.len() ==> #[trigger] ps[i].name != #[trigger] ps[j].name
}

proof fn lemma_add_new_unique(acc: Seq<PropertyView>, ps: Seq<PropertyView>)
    requires
        unique_names(acc),
    ensures
        unique_names(add_new_properties(acc, ps)),
    decreases ps.len(),
{
    if ps.len() > 0 {
        lemma_add_new_unique(acc, ps.drop_last());
        let a = add_new_properties(acc, ps.drop_last());
        if !crate::codegen::has_property(a, ps.last().name) {
            let b = a.push(ps.last());
            assert forall|i: int, j: int| 0 <= i < j < b.len() implies #[trigger] b[i].name
                != #[trigger] b[j].name by {
                if j == b.len() - 1 {
                    assert(a[i].name != ps.last().name);
                }
            }
        }
    }
}

/// The properties that are assembled for an api type hold each name only
/// once.
pub proof fn law_api_properties_unique(structs: Seq<StructView>, api_name: Seq<char>)
    ensures
        unique_names(api_properties(structs, api_name)),
    decreases structs.len(),
{
    if structs.len() > 0 {
        law_api_properties_unique(structs.drop_last(), api_name);
        if structs.last().api_name == api_name {
            lemma_add_new_unique(api_properties(structs.drop_last(), api_name), structs.last().properties);
        }
    }
}

// ******************** C interface ********************

/// The text that is handed to TeamSpeak as a C string never contains a zero
/// character.
pub proof fn law_c_text_has_no_zero(s: Seq<char>)
    ensures
        !c_text(s).contains('\0'),
{
    reveal_strlit("String contains null character");
    if s.contains('\0') {
        let m = null_character_message();
        assert forall|i: int| 0 <= i < m.len() implies m[i] != '\0' by {
            reveal_strlit("String contains null character");
        }
    }
}

/// When the plugin neither changes the captured sound nor whether it is
/// sent, the flags handed back are the ones TeamSpeak gave.
pub proof fn law_captured_voice_unchanged(edited: i32)
    ensures
        edited_flags(edited, false, edited & 2 != 0) == edited,
{
    let send_bit: i32 = if edited & 2 != 0 { 1 } else { 0 };
    assert(((edited | 0i32) & !2i32) | (send_bit << 1u32) == edited) by (bit_vector)
        requires
            send_bit == (if edited & 2 != 0 { 1i32 } else { 0i32 }),
    ;
}

/// The number of buffers that are tried for a path starting with a buffer
/// of `size` bytes (each one twice as large as the one before, until the
/// next would exceed the limit).
pub open spec fn path_attempts(size: nat) -> nat
    decreases PATH_MAX_SIZE + 1 - size,
    when size > 0
{
    if 2 * size > PATH_MAX_SIZE {
        1
    } else {
        1 + path_attempts(2 * size)
    }
}

/// At most eight buffers are tried for a path.
pub proof fn law_path_attempts()
    ensures
        path_attempts(PATH_START_SIZE as nat) == 8,
{
    reveal_with_fuel(path_attempts, 9);
}

} // verus!
