//! How servers, channels and people are called in what is read out.
use crate::model::{
    ChannelId, Connection, ConnectionId, ConnectionView, Invoker, InvokerView, Server, ServerView,
};
use crate::text::take_first_word;
use vstd::prelude::*;

verus! {

/// A phonetic name that is not empty comes first, then the name, then
/// `fallback`.
pub open spec fn spoken_name(
    phonetic_name: Option<Seq<char>>,
    name: Option<Seq<char>>,
    fallback: Seq<char>,
) -> Seq<char> {
    if phonetic_name is Some && phonetic_name->0.len() > 0 {
        phonetic_name->0
    } else if name is Some {
        name->0
    } else {
        fallback
    }
}

impl ServerView {
    /// How the server is called.
    pub open spec fn spoken(self) -> Seq<char> {
        spoken_name(self.phonetic_name, self.name, "unknown server"@)
    }

    /// How the channel with the given id is called.
    pub open spec fn spoken_channel(self, channel_id: ChannelId) -> Seq<char> {
        match self.channel(channel_id) {
            Some(c) => spoken_name(c.phonetic_name, c.name, "unknown channel"@),
            None => "unknown channel"@,
        }
    }

    /// How the connection with the given id is called.
    pub open spec fn spoken_connection(self, connection_id: ConnectionId) -> Seq<char> {
        match self.connection(connection_id) {
            Some(c) => c.spoken(),
            None => "unknown"@,
        }
    }

    /// How the given invoker is called.
    pub open spec fn spoken_invoker(self, invoker: InvokerView) -> Seq<char> {
        match self.connection(invoker.id) {
            Some(c) => c.spoken(),
            None => crate::text::first_word(invoker.name),
        }
    }
}

impl ConnectionView {
    /// How the connection is called: the first word of its name.
    pub open spec fn spoken(self) -> Seq<char> {
        crate::text::first_word(spoken_name(self.phonetic_name, self.name, "unknown"@))
    }
}

/// Picks the phonetic name, the name or `fallback`.
fn choose_name<'a>(
    phonetic_name: &'a Option<String>,
    name: &'a Option<String>,
    fallback: &'a str,
) -> (r: &'a str)
    ensures
        r@ == spoken_name(
            crate::text::text(*phonetic_name),
            crate::text::text(*name),
            fallback@,
        ),
{
    if let Some(s) = phonetic_name {
        if !s.as_str().is_empty() {
            return s.as_str();
        }
    }
    match name {
        Some(s) => s.as_str(),
        None => fallback,
    }
}

/// Get the name or phonetic name of a server.
pub fn get_server_name(server: &Server) -> (r: &str)
    ensures
        r@ == server@.spoken(),
{
    choose_name(&server.phonetic_name, &server.name, "unknown server")
}

/// Get the name or phonetic name of a channel.
pub fn get_channel_name<'a>(server: &'a Server, channel_id: ChannelId) -> (r: &'a str)
    ensures
        r@ == server@.spoken_channel(channel_id),
{
    match server.get_channel(channel_id) {
        Some(c) => choose_name(&c.phonetic_name, &c.name, "unknown channel"),
        None => "unknown channel",
    }
}

/// Get the name or phonetic name of a connection that is at hand, until the
/// first space.
pub fn intern_get_connection_name(connection: &Connection) -> (r: &str)
    ensures
        r@ == connection@.spoken(),
{
    take_first_word(choose_name(&connection.phonetic_name, &connection.name, "unknown"))
}

/// Get the name or phonetic name of a connection.
pub fn get_connection_name<'a>(server: &'a Server, connection_id: ConnectionId) -> (r: &'a str)
    ensures
        r@ == server@.spoken_connection(connection_id),
{
    match server.get_connection(connection_id) {
        Some(connection) => intern_get_connection_name(connection),
        None => "unknown",
    }
}

/// Get the name or phonetic name of an invoker.
/// This uses the connection name if a connection is available. If not, it uses
/// the provided invoker name.
pub fn get_invoker_name<'a>(server: &'a Server, invoker: &'a Invoker) -> (r: &'a str)
    ensures
        r@ == server@.spoken_invoker(invoker@),
{
    let result = if server.get_connection(invoker.id).is_some() {
        get_connection_name(server, invoker.id)
    } else {
        invoker.name.as_str()
    };
    proof {
        if let Some(c) = server@.connection(invoker.id) {
            crate::text::law_first_word_is_stable(
                spoken_name(c.phonetic_name, c.name, "unknown"@),
            );
        }
    }
    take_first_word(result)
}

/// Somebody who is visible is called the same whether they did something or
/// something happened to them.
pub proof fn law_invoker_is_called_like_connection(server: ServerView, invoker: InvokerView)
    requires
        server.connection(invoker.id) is Some,
    ensures
        server.spoken_invoker(invoker) == server.spoken_connection(invoker.id),
{
}

/// People are called by one word.
pub proof fn law_people_are_called_by_one_word(
    server: ServerView,
    connection_id: ConnectionId,
    invoker: InvokerView,
)
    ensures
        !server.spoken_connection(connection_id).contains(' '),
        !server.spoken_invoker(invoker).contains(' '),
{
    reveal_strlit("unknown");
    crate::text::law_first_word_ends_at_a_space(invoker.name);
    if let Some(c) = server.connection(connection_id) {
        crate::text::law_first_word_ends_at_a_space(
            spoken_name(c.phonetic_name, c.name, "unknown"@),
        );
    }
    if let Some(c) = server.connection(invoker.id) {
        crate::text::law_first_word_ends_at_a_space(
            spoken_name(c.phonetic_name, c.name, "unknown"@),
        );
    }
}

} // verus!
