//! Laws of lookups and names.
use crate::model::{ChannelId, Channel, Connection, ConnectionId, Invoker, Server};
use crate::names::{
    get_channel_name, get_connection_name, get_invoker_name, get_server_name,
    intern_get_connection_name,
};
use vstd::prelude::*;

verus! {

/// A lookup gives what is stored under the id, and nothing where there is nothing.
pub proof fn law_lookups(
    server: &Server,
    connection_id: ConnectionId,
    channel_id: ChannelId,
    connection: Option<&Connection>,
    channel: Option<&Channel>,
)
    requires
        call_ensures(Server::get_connection, (server, connection_id), connection),
        call_ensures(Server::get_channel, (server, channel_id), channel),
    ensures
        match connection {
            Some(c) => server.visible_connections@.contains_pair(connection_id, *c),
            None => !server.visible_connections@.contains_key(connection_id),
        },
        match channel {
            Some(c) => server.channels@.contains_pair(channel_id, *c),
            None => !server.channels@.contains_key(channel_id),
        },
{
}

/// Our own channel is known if and only if our own connection is known, visible
/// and in a known channel.
pub proof fn law_own_channel(server: &Server, r: Option<ChannelId>, channel_id: ChannelId)
    requires
        call_ensures(Server::get_own_channel_id, (server,), r),
    ensures
        r == Some(channel_id) <==> exists|own: ConnectionId|
            server.own_connection_id == Some(own) && server.visible_connections@.contains_key(own)
                && #[trigger] server.visible_connections@[own].channel_id == Some(channel_id),
{
    if let Some(own) = server.own_connection_id {
        assert(server@.connection(own) is Some <==> server.visible_connections@.contains_key(own));
        assert(server@.connection(own) is Some ==> server@.connection(own)->0.channel_id
            == server.visible_connections@[own].channel_id);
    }
}

/// A server with a pronunciation is called by it, else by its name, both in full.
pub proof fn law_server_name(server: &Server, r: &str)
    requires
        call_ensures(get_server_name, (server,), r),
    ensures
        server.phonetic_name is Some && server.phonetic_name->0@.len() > 0
            ==> r@ == server.phonetic_name->0@,
        !(server.phonetic_name is Some && server.phonetic_name->0@.len() > 0) && server.name is Some
            ==> r@
            == server.name->0@,
        !(server.phonetic_name is Some && server.phonetic_name->0@.len() > 0) && server.name is None
            ==> r@
            == "unknown server"@,
{
}

/// A channel with a pronunciation is called by it, else by its name, both in full.
pub proof fn law_channel_name(server: &Server, channel_id: ChannelId, r: &str)
    requires
        call_ensures(get_channel_name, (server, channel_id), r),
        server.channels@.contains_key(channel_id),
    ensures
        ({
            let c = server.channels@[channel_id];
            &&& c.phonetic_name is Some && c.phonetic_name->0@.len() > 0
                ==> r@ == c.phonetic_name->0@
            &&& !(c.phonetic_name is Some && c.phonetic_name->0@.len() > 0) && c.name is Some ==> r@
                == c.name->0@
            &&& !(c.phonetic_name is Some && c.phonetic_name->0@.len() > 0) && c.name is None ==> r@
                == "unknown channel"@
        }),
{
    assert(server@.channel(channel_id) == Some(server.channels@[channel_id]@));
}

/// A channel that is not known has no name either.
pub proof fn law_unknown_channel(server: &Server, channel_id: ChannelId, r: &str)
    requires
        call_ensures(get_channel_name, (server, channel_id), r),
        !server.channels@.contains_key(channel_id),
    ensures
        r@ == "unknown channel"@,
{
    assert(server@.channel(channel_id) is None);
}

/// Somebody with a pronunciation is called by its first word, else by the first
/// word of their name.
pub proof fn law_person_name(connection: &Connection, r: &str)
    requires
        call_ensures(intern_get_connection_name, (connection,), r),
    ensures
        connection.phonetic_name is Some && connection.phonetic_name->0@.len() > 0
            ==> crate::laws::text::is_first_word(r@, connection.phonetic_name->0@),
        !(connection.phonetic_name is Some && connection.phonetic_name->0@.len() > 0) && connection.name is Some
            ==> crate::laws::text::is_first_word(r@, connection.name->0@),
        !(connection.phonetic_name is Some && connection.phonetic_name->0@.len() > 0) && connection.name is None
            ==> r@ == "unknown"@,
        !r@.contains(' '),
{
    let c = connection@;
    let full = crate::names::spoken_name(c.phonetic_name, c.name, "unknown"@);
    crate::text::law_first_word_ends_at_a_space(full);
    reveal_strlit("unknown");
    if full == "unknown"@ {
        assert(crate::laws::text::is_first_word(full, full));
        crate::laws::text::law_first_word_is_unique(full, r@, full);
    }
}

/// A visible connection is called as it is called anywhere; one that is not visible
/// is unknown.
pub proof fn law_connection_name(
    server: &Server,
    connection_id: ConnectionId,
    r: &str,
    name: &str,
)
    requires
        call_ensures(get_connection_name, (server, connection_id), r),
        server.visible_connections@.contains_key(connection_id) ==> call_ensures(
            intern_get_connection_name,
            (&server.visible_connections@[connection_id],),
            name,
        ),
    ensures
        server.visible_connections@.contains_key(connection_id) ==> r@ == name@,
        !server.visible_connections@.contains_key(connection_id) ==> r@ == "unknown"@,
{
    if server.visible_connections@.contains_key(connection_id) {
        assert(server@.connection(connection_id) == Some(
            server.visible_connections@[connection_id]@,
        ));
    } else {
        assert(server@.connection(connection_id) is None);
    }
}

/// A visible invoker is called like their connection, whatever name came along;
/// any other one is called by the first word of the name that came along.
pub proof fn law_invoker_name(server: &Server, invoker: &Invoker, r: &str, name: &str)
    requires
        call_ensures(get_invoker_name, (server, invoker), r),
        call_ensures(get_connection_name, (server, invoker.id), name),
    ensures
        server.visible_connections@.contains_key(invoker.id) ==> r@ == name@,
        !server.visible_connections@.contains_key(invoker.id)
            ==> crate::laws::text::is_first_word(r@, invoker.name@),
        !r@.contains(' '),
{
    crate::text::law_first_word_ends_at_a_space(invoker.name@);
    crate::names::law_people_are_called_by_one_word(server@, invoker.id, invoker@);
    if server.visible_connections@.contains_key(invoker.id) {
        assert(server@.connection(invoker.id) == Some(server.visible_connections@[invoker.id]@));
    } else {
        assert(server@.connection(invoker.id) is None);
    }
}

} // verus!
