//! What is said when a channel is created, deleted, edited or moved.
use crate::model::{ChannelId, Invoker, InvokerView, Server, ServerView};
use crate::names::{get_channel_name, get_invoker_name};
use vstd::prelude::*;

verus! {

impl ServerView {
    /// Who did something: the server itself where there is no invoker.
    pub open spec fn spoken_actor(self, invoker: Option<InvokerView>) -> Seq<char> {
        match invoker {
            Some(invoker) => self.spoken_invoker(invoker),
            None => "The server"@,
        }
    }

    /// Somebody did something (`verb`) to a channel.
    pub open spec fn channel_text(
        self,
        actor: Seq<char>,
        verb: Seq<char>,
        channel_id: ChannelId,
    ) -> Seq<char> {
        actor + verb + self.spoken_channel(channel_id)
    }
}

fn get_actor_name<'a>(server: &'a Server, invoker: Option<&'a Invoker>) -> (r: &'a str)
    ensures
        r@ == server@.spoken_actor(crate::server_events::invoker_view(invoker)),
{
    match invoker {
        Some(invoker) => get_invoker_name(server, invoker),
        None => "The server",
    }
}

fn say_channel(server: &Server, actor: &str, verb: &str, channel_id: ChannelId) -> (r: String)
    ensures
        r@ == server@.channel_text(actor@, verb@, channel_id),
{
    actor.to_owned().concat(verb).concat(get_channel_name(server, channel_id))
}

/// Called when a channel was created.
pub fn channel_created(
    server: Option<&Server>,
    channel_id: ChannelId,
    invoker: Option<&Invoker>,
) -> (r: Option<String>)
    ensures
        crate::text::text(r) == match server {
            Some(server) => Some(
                server@.channel_text(
                    server@.spoken_actor(crate::server_events::invoker_view(invoker)),
                    " created "@,
                    channel_id,
                ),
            ),
            None => None,
        },
{
    match server {
        Some(server) => Some(
            say_channel(server, get_actor_name(server, invoker), " created ", channel_id),
        ),
        None => None,
    }
}

/// Called when a channel was deleted.
pub fn channel_deleted(
    server: Option<&Server>,
    channel_id: ChannelId,
    invoker: Option<&Invoker>,
) -> (r: Option<String>)
    ensures
        crate::text::text(r) == match server {
            Some(server) => Some(
                server@.channel_text(
                    server@.spoken_actor(crate::server_events::invoker_view(invoker)),
                    " deleted "@,
                    channel_id,
                ),
            ),
            None => None,
        },
{
    match server {
        Some(server) => Some(
            say_channel(server, get_actor_name(server, invoker), " deleted ", channel_id),
        ),
        None => None,
    }
}

/// Called when a channel was edited.
pub fn channel_edited(
    server: Option<&Server>,
    channel_id: ChannelId,
    invoker: &Invoker,
) -> (r: Option<String>)
    ensures
        crate::text::text(r) == match server {
            Some(server) => Some(
                server@.channel_text(
                    server@.spoken_invoker(invoker@),
                    " edited "@,
                    channel_id,
                ),
            ),
            None => None,
        },
{
    match server {
        Some(server) => Some(
            say_channel(server, get_invoker_name(server, invoker), " edited ", channel_id),
        ),
        None => None,
    }
}

/// Called when a channel was moved.
pub fn channel_moved(
    server: Option<&Server>,
    channel_id: ChannelId,
    invoker: Option<&Invoker>,
) -> (r: Option<String>)
    ensures
        crate::text::text(r) == match server {
            Some(server) => Some(
                server@.channel_text(
                    server@.spoken_actor(crate::server_events::invoker_view(invoker)),
                    " moved "@,
                    channel_id,
                ),
            ),
            None => None,
        },
{
    match server {
        Some(server) => Some(
            say_channel(server, get_actor_name(server, invoker), " moved ", channel_id),
        ),
        None => None,
    }
}

} // verus!
