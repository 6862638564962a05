//! Laws of what is said about channels.
use crate::channel_events::{channel_created, channel_deleted, channel_edited, channel_moved};
use crate::model::{ChannelId, Invoker, Server};
use crate::names::{get_channel_name, get_invoker_name};
use vstd::prelude::*;

verus! {

/// What somebody does to a channel is told with their name, the deed and the
/// channel.
pub proof fn law_deeds_of_people(
    server: &Server,
    id: ChannelId,
    invoker: &Invoker,
    actor: &str,
    channel: &str,
    created: Option<String>,
    deleted: Option<String>,
    edited: Option<String>,
    moved: Option<String>,
)
    requires
        call_ensures(get_invoker_name, (server, invoker), actor),
        call_ensures(get_channel_name, (server, id), channel),
        call_ensures(channel_created, (Some(server), id, Some(invoker)), created),
        call_ensures(channel_deleted, (Some(server), id, Some(invoker)), deleted),
        call_ensures(channel_edited, (Some(server), id, invoker), edited),
        call_ensures(channel_moved, (Some(server), id, Some(invoker)), moved),
    ensures
        created is Some && deleted is Some && edited is Some && moved is Some,
        created->0@ == actor@ + " created "@ + channel@,
        deleted->0@ == actor@ + " deleted "@ + channel@,
        edited->0@ == actor@ + " edited "@ + channel@,
        moved->0@ == actor@ + " moved "@ + channel@,
{
}

/// What nobody did to a channel was done by the server.
pub proof fn law_deeds_of_the_server(
    server: &Server,
    id: ChannelId,
    channel: &str,
    created: Option<String>,
    deleted: Option<String>,
    moved: Option<String>,
)
    requires
        call_ensures(get_channel_name, (server, id), channel),
        call_ensures(channel_created, (Some(server), id, None::<&Invoker>), created),
        call_ensures(channel_deleted, (Some(server), id, None::<&Invoker>), deleted),
        call_ensures(channel_moved, (Some(server), id, None::<&Invoker>), moved),
    ensures
        created is Some && deleted is Some && moved is Some,
        created->0@ == "The server"@ + " created "@ + channel@,
        deleted->0@ == "The server"@ + " deleted "@ + channel@,
        moved->0@ == "The server"@ + " moved "@ + channel@,
{
}

/// Nothing is said of channels on a server that is not known.
pub proof fn law_unknown_server_is_silent(
    id: ChannelId,
    actor: Option<&Invoker>,
    invoker: &Invoker,
    r: Option<String>,
)
    requires
        ({
            let none = None::<&Server>;
            ||| call_ensures(channel_created, (none, id, actor), r)
            ||| call_ensures(channel_deleted, (none, id, actor), r)
            ||| call_ensures(channel_edited, (none, id, invoker), r)
            ||| call_ensures(channel_moved, (none, id, actor), r)
        }),
    ensures
        r is None,
{
}

} // verus!
