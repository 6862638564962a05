//! Laws of what is said when somebody comes, goes, moves or is moved.
use crate::connection_events::{
    avatar_changed, channel_kick, connection_changed, connection_move, connection_moved,
    connection_server_group_added, connection_server_group_removed, connection_timeout,
    server_ban, server_kick,
};
use crate::model::{ChannelId, ConnectionId, Invoker, Server, Visibility};
use crate::names::{get_channel_name, get_connection_name, get_invoker_name};
use vstd::prelude::*;

verus! {

/// We hear nothing of our own coming and going.
pub proof fn law_own_presence_is_silent(
    server: &Server,
    id: ConnectionId,
    connected: bool,
    r: Option<String>,
)
    requires
        server.own_connection_id == Some(id),
        call_ensures(connection_changed, (Some(server), id, connected), r),
    ensures
        r is None,
{
}

/// Whoever leaves is said to have disconnected, whatever channels they and we are
/// in.
pub proof fn law_leaving(server: &Server, id: ConnectionId, name: &str, r: Option<String>)
    requires
        server.own_connection_id != Some(id),
        call_ensures(get_connection_name, (server, id), name),
        call_ensures(connection_changed, (Some(server), id, false), r),
    ensures
        r is Some,
        r->0@ == name@ + " disconnected"@,
{
}

/// The channel of whoever connects is named if it is known and not our own one, and
/// only then.
pub proof fn law_connecting(
    server: &Server,
    id: ConnectionId,
    own_channel: Option<ChannelId>,
    name: &str,
    r: Option<String>,
)
    requires
        server.own_connection_id != Some(id),
        call_ensures(Server::get_own_channel_id, (server,), own_channel),
        call_ensures(get_connection_name, (server, id), name),
        call_ensures(connection_changed, (Some(server), id, true), r),
    ensures
        r is Some,
        !server.visible_connections@.contains_key(id) ==> r->0@ == name@ + " connected"@,
        server.visible_connections@.contains_key(id) ==> {
            let channel = server.visible_connections@[id].channel_id;
            &&& channel is None ==> r->0@ == name@ + " connected"@
            &&& channel == own_channel ==> r->0@ == name@ + " connected"@
            &&& forall|channel_name: &str|
                channel is Some && channel != own_channel && #[trigger] call_ensures(
                    get_channel_name,
                    (server, channel->0),
                    channel_name,
                ) ==> r->0@ == name@ + " connected to "@ + channel_name@
        },
{
    if server.visible_connections@.contains_key(id) {
        assert(server@.connection(id) == Some(server.visible_connections@[id]@));
    } else {
        assert(server@.connection(id) is None);
    }
}

/// Our own switch is told by the new channel alone; where we come from and what we
/// see does not matter.
pub proof fn law_own_switch(
    server: &Server,
    id: ConnectionId,
    from: ChannelId,
    to: ChannelId,
    visibility: Visibility,
    to_name: &str,
    r: Option<String>,
)
    requires
        server.own_connection_id == Some(id),
        call_ensures(get_channel_name, (server, to), to_name),
        call_ensures(connection_move, (Some(server), id, from, to, visibility), r),
    ensures
        r is Some,
        r->0@ == "Switched to "@ + to_name@,
{
}

/// The switch of somebody else is told from our own channel: they left it, joined
/// it, or have nothing to do with it.
pub proof fn law_switch(
    server: &Server,
    id: ConnectionId,
    from: ChannelId,
    to: ChannelId,
    own_channel: Option<ChannelId>,
    name: &str,
    to_name: &str,
    r: Option<String>,
)
    requires
        server.own_connection_id != Some(id),
        call_ensures(Server::get_own_channel_id, (server,), own_channel),
        call_ensures(get_connection_name, (server, id), name),
        call_ensures(get_channel_name, (server, to), to_name),
        call_ensures(connection_move, (Some(server), id, from, to, Visibility::Retain), r),
    ensures
        r is Some,
        own_channel == Some(from) ==> r->0@ == name@ + " left to "@ + to_name@,
        own_channel == Some(to) && from != to ==> r->0@ == name@ + " joined"@,
        own_channel != Some(from) && own_channel != Some(to) ==> r->0@ == name@
            + " switched to "@ + to_name@,
{
    assert(r->0@ =~= server@.move_text(id, from, to, Visibility::Retain));
    assert(name@ + " left to "@ + to_name@ + Seq::<char>::empty() =~= name@ + " left to "@
        + to_name@);
    assert(name@ + " joined"@ + Seq::<char>::empty() =~= name@ + " joined"@);
    assert(name@ + " switched to "@ + to_name@ + Seq::<char>::empty() =~= name@
        + " switched to "@ + to_name@);
}

/// A changed visibility is told at the end of an otherwise equal text.
pub proof fn law_switch_visibility(
    server: &Server,
    id: ConnectionId,
    from: ChannelId,
    to: ChannelId,
    plain: Option<String>,
    enter: Option<String>,
    leave: Option<String>,
)
    requires
        server.own_connection_id != Some(id),
        call_ensures(connection_move, (Some(server), id, from, to, Visibility::Retain), plain),
        call_ensures(connection_move, (Some(server), id, from, to, Visibility::Enter), enter),
        call_ensures(connection_move, (Some(server), id, from, to, Visibility::Leave), leave),
    ensures
        plain is Some && enter is Some && leave is Some,
        enter->0@ == plain->0@ + " and appeared"@,
        leave->0@ == plain->0@ + " and disappeared"@,
{
    assert(enter->0@ =~= plain->0@ + " and appeared"@);
    assert(leave->0@ =~= plain->0@ + " and disappeared"@);
}

/// When we are moved ourselves, we are told by whom and where to, whatever else
/// holds.
pub proof fn law_being_moved(
    server: &Server,
    id: ConnectionId,
    from: ChannelId,
    to: ChannelId,
    visibility: Visibility,
    invoker: &Invoker,
    mover: &str,
    to_name: &str,
    r: Option<String>,
)
    requires
        server.own_connection_id == Some(id),
        call_ensures(get_invoker_name, (server, invoker), mover),
        call_ensures(get_channel_name, (server, to), to_name),
        call_ensures(connection_moved, (Some(server), id, from, to, visibility, invoker), r),
    ensures
        r is Some,
        r->0@ == mover@ + " moved you to "@ + to_name@,
{
}

/// When somebody else is moved, they are named after the mover, whoever the mover
/// is, and the rest is told from our own channel.
pub proof fn law_moving_somebody(
    server: &Server,
    id: ConnectionId,
    from: ChannelId,
    to: ChannelId,
    invoker: &Invoker,
    own_channel: Option<ChannelId>,
    mover: &str,
    name: &str,
    to_name: &str,
    r: Option<String>,
)
    requires
        server.own_connection_id != Some(id),
        call_ensures(Server::get_own_channel_id, (server,), own_channel),
        call_ensures(get_invoker_name, (server, invoker), mover),
        call_ensures(get_connection_name, (server, id), name),
        call_ensures(get_channel_name, (server, to), to_name),
        call_ensures(
            connection_moved,
            (Some(server), id, from, to, Visibility::Retain, invoker),
            r,
        ),
    ensures
        r is Some,
        (mover@ + " moved "@ + name@).is_prefix_of(r->0@),
        own_channel == Some(from) ==> r->0@ == mover@ + " moved "@ + name@ + " out to "@
            + to_name@,
        own_channel == Some(to) && from != to ==> r->0@ == mover@ + " moved "@ + name@ + " in"@,
        own_channel != Some(from) && own_channel != Some(to) ==> r->0@ == mover@ + " moved "@
            + name@ + " to "@ + to_name@,
{
    let head = mover@ + " moved "@ + name@;
    assert(head + " out to "@ + to_name@ + Seq::<char>::empty() =~= head + " out to "@ + to_name@);
    assert(head + " in"@ + Seq::<char>::empty() =~= head + " in"@);
    assert(head + " to "@ + to_name@ + Seq::<char>::empty() =~= head + " to "@ + to_name@);
    assert(r->0@ =~= server@.moved_text(id, from, to, Visibility::Retain, invoker@));
}

/// A changed visibility is told at the end of an otherwise equal text.
pub proof fn law_moving_visibility(
    server: &Server,
    id: ConnectionId,
    from: ChannelId,
    to: ChannelId,
    invoker: &Invoker,
    plain: Option<String>,
    enter: Option<String>,
    leave: Option<String>,
)
    requires
        server.own_connection_id != Some(id),
        call_ensures(
            connection_moved,
            (Some(server), id, from, to, Visibility::Retain, invoker),
            plain,
        ),
        call_ensures(
            connection_moved,
            (Some(server), id, from, to, Visibility::Enter, invoker),
            enter,
        ),
        call_ensures(
            connection_moved,
            (Some(server), id, from, to, Visibility::Leave, invoker),
            leave,
        ),
    ensures
        plain is Some && enter is Some && leave is Some,
        enter->0@ == plain->0@ + " and appeared"@,
        leave->0@ == plain->0@ + " and disappeared"@,
{
    assert(enter->0@ =~= plain->0@ + " and appeared"@);
    assert(leave->0@ =~= plain->0@ + " and disappeared"@);
}

/// Our own timeout is told without a name, that of anybody else with theirs.
pub proof fn law_timeout(server: &Server, id: ConnectionId, name: &str, r: Option<String>)
    requires
        call_ensures(get_connection_name, (server, id), name),
        call_ensures(connection_timeout, (Some(server), id), r),
    ensures
        r is Some,
        server.own_connection_id == Some(id) ==> r->0@ == "Timed out"@,
        server.own_connection_id != Some(id) ==> r->0@ == name@ + " timed out"@,
{
}

/// Without a reason, a kick or a ban tells who did it, to whom, and, if it leads to
/// a channel, where to.
pub proof fn law_kicks_and_bans(
    server: &Server,
    id: ConnectionId,
    to: ChannelId,
    invoker: &Invoker,
    message: &str,
    actor: &str,
    name: &str,
    to_name: &str,
    from_channel: Option<String>,
    from_server: Option<String>,
    banned: Option<String>,
)
    requires
        message@.len() == 0,
        call_ensures(get_invoker_name, (server, invoker), actor),
        call_ensures(get_connection_name, (server, id), name),
        call_ensures(get_channel_name, (server, to), to_name),
        call_ensures(channel_kick, (Some(server), id, to, invoker, message), from_channel),
        call_ensures(server_kick, (Some(server), id, invoker, message), from_server),
        call_ensures(server_ban, (Some(server), id, invoker, message), banned),
    ensures
        from_channel is Some && from_server is Some && banned is Some,
        from_channel->0@ == actor@ + " kicked "@ + name@ + " to "@ + to_name@,
        from_server->0@ == actor@ + " kicked "@ + name@,
        banned->0@ == actor@ + " banned "@ + name@,
{
    assert(from_channel->0@ =~= actor@ + " kicked "@ + name@ + " to "@ + to_name@);
    assert(from_server->0@ =~= actor@ + " kicked "@ + name@);
    assert(banned->0@ =~= actor@ + " banned "@ + name@);
}

/// With a reason, a kick from a channel is told as without one, and then the whole
/// reason.
pub proof fn law_channel_kick_reason_is_whole(
    server: &Server,
    id: ConnectionId,
    to: ChannelId,
    invoker: &Invoker,
    no_message: &str,
    message: &str,
    plain: Option<String>,
    r: Option<String>,
)
    requires
        no_message@.len() == 0,
        message@.len() > 0,
        call_ensures(channel_kick, (Some(server), id, to, invoker, no_message), plain),
        call_ensures(channel_kick, (Some(server), id, to, invoker, message), r),
    ensures
        plain is Some && r is Some,
        r->0@ == plain->0@ + " because "@ + message@,
{
    assert(r->0@ =~= plain->0@ + " because "@ + message@);
}

/// With a reason, a kick from the server is told as without one, and then the whole
/// reason.
pub proof fn law_server_kick_reason_is_whole(
    server: &Server,
    id: ConnectionId,
    invoker: &Invoker,
    no_message: &str,
    message: &str,
    plain: Option<String>,
    r: Option<String>,
)
    requires
        no_message@.len() == 0,
        message@.len() > 0,
        call_ensures(server_kick, (Some(server), id, invoker, no_message), plain),
        call_ensures(server_kick, (Some(server), id, invoker, message), r),
    ensures
        plain is Some && r is Some,
        r->0@ == plain->0@ + " because "@ + message@,
{
    assert(r->0@ =~= plain->0@ + " because "@ + message@);
}

/// With a reason, a ban is told as without one, and then the whole reason.
pub proof fn law_ban_reason_is_whole(
    server: &Server,
    id: ConnectionId,
    invoker: &Invoker,
    no_message: &str,
    message: &str,
    plain: Option<String>,
    r: Option<String>,
)
    requires
        no_message@.len() == 0,
        message@.len() > 0,
        call_ensures(server_ban, (Some(server), id, invoker, no_message), plain),
        call_ensures(server_ban, (Some(server), id, invoker, message), r),
    ensures
        plain is Some && r is Some,
        r->0@ == plain->0@ + " because "@ + message@,
{
    assert(r->0@ =~= plain->0@ + " because "@ + message@);
}

/// An avatar without a path was removed, one with any path was changed.
pub proof fn law_avatar(
    server: &Server,
    id: ConnectionId,
    path: Option<&str>,
    name: &str,
    r: Option<String>,
)
    requires
        call_ensures(get_connection_name, (server, id), name),
        call_ensures(avatar_changed, (Some(server), id, path), r),
    ensures
        r is Some,
        path is None ==> r->0@ == name@ + " removed his avatar"@,
        path is Some ==> r->0@ == name@ + " changed his avatar"@,
{
}

/// The invoker adds and removes, the connection is added and removed.
pub proof fn law_groups(
    server: &Server,
    connection: &Invoker,
    invoker: &Invoker,
    actor: &str,
    name: &str,
    added: Option<String>,
    removed: Option<String>,
)
    requires
        call_ensures(get_invoker_name, (server, invoker), actor),
        call_ensures(get_invoker_name, (server, connection), name),
        call_ensures(connection_server_group_added, (Some(server), connection, invoker), added),
        call_ensures(
            connection_server_group_removed,
            (Some(server), connection, invoker),
            removed,
        ),
    ensures
        added is Some && removed is Some,
        added->0@ == actor@ + " added "@ + name@ + " to a group"@,
        removed->0@ == actor@ + " removed "@ + name@ + " from a group"@,
{
}

/// Nothing is said of people on a server that is not known.
pub proof fn law_unknown_server_is_silent(
    id: ConnectionId,
    connected: bool,
    from: ChannelId,
    to: ChannelId,
    visibility: Visibility,
    connection: &Invoker,
    invoker: &Invoker,
    message: &str,
    path: Option<&str>,
    r: Option<String>,
)
    requires
        ({
            let none = None::<&Server>;
            ||| call_ensures(connection_changed, (none, id, connected), r)
            ||| call_ensures(connection_move, (none, id, from, to, visibility), r)
            ||| call_ensures(connection_moved, (none, id, from, to, visibility, invoker), r)
            ||| call_ensures(connection_timeout, (none, id), r)
            ||| call_ensures(channel_kick, (none, id, to, invoker, message), r)
            ||| call_ensures(server_kick, (none, id, invoker, message), r)
            ||| call_ensures(server_ban, (none, id, invoker, message), r)
            ||| call_ensures(avatar_changed, (none, id, path), r)
            ||| call_ensures(connection_server_group_added, (none, connection, invoker), r)
            ||| call_ensures(connection_server_group_removed, (none, connection, invoker), r)
        }),
    ensures
        r is None,
{
}

} // verus!
