//! Laws of what is read out of messages and pokes.
use crate::chat_events::{is_message_unreadable, message, poke};
use crate::model::{Invoker, Server};
use crate::names::get_invoker_name;
use crate::text::contains_double_slash;
use vstd::prelude::*;

verus! {

/// A message of more than twenty bytes, whatever it is made of, is only mentioned.
pub proof fn law_long_messages_are_only_mentioned(
    server: &Server,
    invoker: &Invoker,
    content: &str,
    name: &str,
    r: (Option<String>, bool),
)
    requires
        vstd::utf8::encode_utf8(content@).len() > 20,
        server.own_connection_id != Some(invoker.id),
        call_ensures(get_invoker_name, (server, invoker), name),
        call_ensures(message, (Some(server), invoker, content, false), r),
    ensures
        r.0 is Some,
        r.0->0@ == name@ + " wrote a message"@,
{
}

/// A message with a double slash, wherever it stands, is only mentioned.
pub proof fn law_addresses_are_only_mentioned(
    server: &Server,
    invoker: &Invoker,
    content: &str,
    before: Seq<char>,
    after: Seq<char>,
    name: &str,
    r: (Option<String>, bool),
)
    requires
        content@ == before + "//"@ + after,
        server.own_connection_id != Some(invoker.id),
        call_ensures(get_invoker_name, (server, invoker), name),
        call_ensures(message, (Some(server), invoker, content, false), r),
    ensures
        r.0 is Some,
        r.0->0@ == name@ + " wrote a message"@,
{
    let i = before.len() as int;
    assert(content@.subrange(i, i + "//"@.len()) =~= "//"@);
}

/// Any other message is read out in full.
pub proof fn law_short_messages_are_read(
    server: &Server,
    invoker: &Invoker,
    content: &str,
    slashes: bool,
    name: &str,
    r: (Option<String>, bool),
)
    requires
        vstd::utf8::encode_utf8(content@).len() <= 20,
        call_ensures(contains_double_slash, (content,), slashes),
        !slashes,
        server.own_connection_id != Some(invoker.id),
        call_ensures(get_invoker_name, (server, invoker), name),
        call_ensures(message, (Some(server), invoker, content, false), r),
    ensures
        r.0 is Some,
        r.0->0@ == name@ + " wrote "@ + content@,
{
}

/// A message is read out if and only if it has at most twenty bytes and no double
/// slash.
pub proof fn law_unreadable(content: &str, slashes: bool, r: bool)
    requires
        call_ensures(contains_double_slash, (content,), slashes),
        call_ensures(is_message_unreadable, (content,), r),
    ensures
        r <==> vstd::utf8::encode_utf8(content@).len() > 20 || slashes,
{
}

/// Our own messages, ignored ones and those of an unknown server are not spoken of.
pub proof fn law_silent_messages(
    server: Option<&Server>,
    invoker: &Invoker,
    content: &str,
    ignored: bool,
    r: (Option<String>, bool),
)
    requires
        ignored || server is None || server->0.own_connection_id == Some(invoker.id),
        call_ensures(message, (server, invoker, content, ignored), r),
    ensures
        r.0 is None,
{
}

/// A poke is read out in full, whatever it holds, unless it is ignored or the server
/// is not known.
pub proof fn law_pokes(
    server: &Server,
    invoker: &Invoker,
    content: &str,
    name: &str,
    heard: (Option<String>, bool),
    ignored: (Option<String>, bool),
    unknown: (Option<String>, bool),
)
    requires
        call_ensures(get_invoker_name, (server, invoker), name),
        call_ensures(poke, (Some(server), invoker, content, false), heard),
        call_ensures(poke, (Some(server), invoker, content, true), ignored),
        call_ensures(poke, (None::<&Server>, invoker, content, false), unknown)
            || call_ensures(poke, (None::<&Server>, invoker, content, true), unknown),
    ensures
        heard.0 is Some && heard.0->0@ == name@ + " poked "@ + content@,
        ignored.0 is None,
        unknown.0 is None,
{
}

/// Messages and pokes are always passed on to the client.
pub proof fn law_client_handles_messages(
    server: Option<&Server>,
    invoker: &Invoker,
    content: &str,
    ignored: bool,
    r: (Option<String>, bool),
)
    requires
        call_ensures(message, (server, invoker, content, ignored), r) || call_ensures(
            poke,
            (server, invoker, content, ignored),
            r,
        ),
    ensures
        !r.1,
{
}

} // verus!
