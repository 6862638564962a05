//! What is read out of messages and pokes.
use crate::model::{Invoker, InvokerView, Server, ServerView};
use crate::names::get_invoker_name;
use crate::text::contains_double_slash;
use vstd::prelude::*;

verus! {

/// Messages with more bytes than this are not read out.
pub const MAX_MESSAGE_LEN: usize = 20;

/// Is a message too long to be read out, or does it hold an address?
pub open spec fn is_unreadable(message: Seq<char>) -> bool {
    vstd::utf8::encode_utf8(message).len() > MAX_MESSAGE_LEN || crate::text::contains_text(
        message,
        "//"@,
    )
}

impl ServerView {
    /// Did we cause the event ourselves?
    pub open spec fn is_own(self, invoker: InvokerView) -> bool {
        self.own_connection_id == Some(invoker.id)
    }

    /// Somebody wrote a message, which is read out where it can be.
    pub open spec fn message_text(self, invoker: InvokerView, message: Seq<char>) -> Seq<char> {
        if is_unreadable(message) {
            self.spoken_invoker(invoker) + " wrote a message"@
        } else {
            self.spoken_invoker(invoker) + " wrote "@ + message
        }
    }

    /// Somebody poked us.
    pub open spec fn poke_text(self, invoker: InvokerView, message: Seq<char>) -> Seq<char> {
        self.spoken_invoker(invoker) + " poked "@ + message
    }
}

/// Tells if a message is too long to be read out or holds an address.
pub fn is_message_unreadable(message: &str) -> (r: bool)
    ensures
        r == is_unreadable(message@),
{
    message.as_bytes().len() > MAX_MESSAGE_LEN || contains_double_slash(message)
}

/// Called when a message was received. `ignored` tells that the client ignores
/// it. Returns what is to be read out, and tells the client to handle the message
/// as usual.
pub fn message(
    server: Option<&Server>,
    invoker: &Invoker,
    content: &str,
    ignored: bool,
) -> (r: (Option<String>, bool))
    ensures
        crate::text::text(r.0) == match server {
            Some(server) if !ignored && !server@.is_own(invoker@) => Some(
                server@.message_text(invoker@, content@),
            ),
            _ => None,
        },
        !r.1,
{
    if ignored {
        return (None, false);
    }
    let server = match server {
        Some(server) => server,
        None => return (None, false),
    };
    // Don't read our own messages
    if let Some(own) = server.own_connection_id {
        if own == invoker.id {
            return (None, false);
        }
    }
    let name = get_invoker_name(server, invoker);
    let text = if is_message_unreadable(content) {
        name.to_owned().concat(" wrote a message")
    } else {
        name.to_owned().concat(" wrote ").concat(content)
    };
    (Some(text), false)
}

/// Called when somebody poked us. `ignored` tells that the client ignores it.
/// Returns what is to be read out, and tells the client to handle the poke as
/// usual.
pub fn poke(
    server: Option<&Server>,
    invoker: &Invoker,
    message: &str,
    ignored: bool,
) -> (r: (Option<String>, bool))
    ensures
        crate::text::text(r.0) == match server {
            Some(server) if !ignored => Some(server@.poke_text(invoker@, message@)),
            _ => None,
        },
        !r.1,
{
    if ignored {
        return (None, false);
    }
    match server {
        Some(server) => (
            Some(get_invoker_name(server, invoker).to_owned().concat(" poked ").concat(message)),
            false,
        ),
        None => (None, false),
    }
}

/// Nothing of an unreadable message is read out: any other one in its place gives
/// the same text.
pub proof fn law_unreadable_messages_stay_unread(
    server: ServerView,
    invoker: InvokerView,
    message: Seq<char>,
    other: Seq<char>,
)
    requires
        is_unreadable(message),
        is_unreadable(other),
    ensures
        server.message_text(invoker, message) == server.message_text(invoker, other),
{
}

} // verus!
