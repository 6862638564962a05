//! What is said when somebody comes, goes, moves or is moved.
use crate::model::{ChannelId, ConnectionId, Invoker, InvokerView, Server, ServerView, Visibility};
use crate::names::{get_channel_name, get_connection_name, get_invoker_name};
use crate::text::because;
use vstd::prelude::*;

verus! {

/// The ending that tells of a changed visibility.
pub open spec fn visibility_ending(visibility: Visibility) -> Seq<char> {
    match visibility {
        Visibility::Enter => " and appeared"@,
        Visibility::Leave => " and disappeared"@,
        Visibility::Retain => Seq::empty(),
    }
}

impl ServerView {
    /// Somebody connected to the server or left it. We do not speak of
    /// ourselves, and the channel is only named where it is not ours.
    pub open spec fn presence_text(
        self,
        connection_id: ConnectionId,
        connected: bool,
    ) -> Option<Seq<char>> {
        let name = self.spoken_connection(connection_id);
        let channel = match self.connection(connection_id) {
            Some(c) => c.channel_id,
            None => None,
        };
        if self.own_connection_id == Some(connection_id) {
            None
        } else if !connected {
            Some(name + " disconnected"@)
        } else if channel is Some && channel != self.own_channel() {
            Some(name + " connected to "@ + self.spoken_channel(channel->0))
        } else {
            Some(name + " connected"@)
        }
    }

    /// Somebody switched the channel, seen from our own channel.
    pub open spec fn move_text(
        self,
        connection_id: ConnectionId,
        old_channel_id: ChannelId,
        new_channel_id: ChannelId,
        visibility: Visibility,
    ) -> Seq<char> {
        let name = self.spoken_connection(connection_id);
        let channel = self.spoken_channel(new_channel_id);
        let ending = visibility_ending(visibility);
        if self.own_connection_id == Some(connection_id) {
            "Switched to "@ + channel
        } else if self.own_channel() == Some(old_channel_id) {
            name + " left to "@ + channel + ending
        } else if self.own_channel() == Some(new_channel_id) {
            name + " joined"@ + ending
        } else {
            name + " switched to "@ + channel + ending
        }
    }

    /// Somebody was moved by somebody else, seen from our own channel.
    pub open spec fn moved_text(
        self,
        connection_id: ConnectionId,
        old_channel_id: ChannelId,
        new_channel_id: ChannelId,
        visibility: Visibility,
        invoker: InvokerView,
    ) -> Seq<char> {
        let mover = self.spoken_invoker(invoker);
        let name = self.spoken_connection(connection_id);
        let channel = self.spoken_channel(new_channel_id);
        let ending = visibility_ending(visibility);
        if self.own_connection_id == Some(connection_id) {
            mover + " moved you to "@ + channel
        } else if self.own_channel() == Some(old_channel_id) {
            mover + " moved "@ + name + " out to "@ + channel + ending
        } else if self.own_channel() == Some(new_channel_id) {
            mover + " moved "@ + name + " in"@ + ending
        } else {
            mover + " moved "@ + name + " to "@ + channel + ending
        }
    }

    /// Somebody timed out, maybe ourselves.
    pub open spec fn timeout_text(self, connection_id: ConnectionId) -> Seq<char> {
        if self.own_connection_id == Some(connection_id) {
            "Timed out"@
        } else {
            self.spoken_connection(connection_id) + " timed out"@
        }
    }

    /// Somebody did something (`verb`) to somebody else.
    pub open spec fn action_text(
        self,
        invoker: InvokerView,
        verb: Seq<char>,
        connection_id: ConnectionId,
    ) -> Seq<char> {
        self.spoken_invoker(invoker) + verb + self.spoken_connection(connection_id)
    }
}

/// Returns the ending that tells of a changed visibility.
fn get_visibility_ending(visibility: Visibility) -> (r: &'static str)
    ensures
        r@ == visibility_ending(visibility),
{
    match visibility {
        Visibility::Enter => " and appeared",
        Visibility::Leave => " and disappeared",
        Visibility::Retain => {
            proof {
                reveal_strlit("");
            }
            ""
        },
    }
}

/// Tells if the given id is that of our own connection.
fn is_own_connection(server: &Server, connection_id: ConnectionId) -> (r: bool)
    ensures
        r == (server@.own_connection_id == Some(connection_id)),
{
    match server.own_connection_id {
        Some(own) => own == connection_id,
        None => false,
    }
}

/// Called when somebody connects to the server or leaves it.
pub fn connection_changed(
    server: Option<&Server>,
    connection_id: ConnectionId,
    connected: bool,
) -> (r: Option<String>)
    ensures
        crate::text::text(r) == match server {
            Some(server) => server@.presence_text(connection_id, connected),
            None => None,
        },
{
    let server = match server {
        Some(server) => server,
        None => return None,
    };
    // Ignore our own user
    if is_own_connection(server, connection_id) {
        return None;
    }
    let name = get_connection_name(server, connection_id);
    if !connected {
        return Some(name.to_owned().concat(" disconnected"));
    }
    let own_channel_id = server.get_own_channel_id();
    let channel_id = match server.get_connection(connection_id) {
        Some(c) => c.channel_id,
        None => None,
    };
    match channel_id {
        Some(channel_id) if own_channel_id != Some(channel_id) => Some(
            name.to_owned().concat(" connected to ").concat(get_channel_name(server, channel_id)),
        ),
        _ => Some(name.to_owned().concat(" connected")),
    }
}

/// Called when somebody switched the channel.
pub fn connection_move(
    server: Option<&Server>,
    connection_id: ConnectionId,
    old_channel_id: ChannelId,
    new_channel_id: ChannelId,
    visibility: Visibility,
) -> (r: Option<String>)
    ensures
        crate::text::text(r) == match server {
            Some(server) => Some(
                server@.move_text(connection_id, old_channel_id, new_channel_id, visibility),
            ),
            None => None,
        },
{
    let server = match server {
        Some(server) => server,
        None => return None,
    };
    let connection = get_connection_name(server, connection_id);
    let new_channel = get_channel_name(server, new_channel_id);
    // Check if we are the client
    if is_own_connection(server, connection_id) {
        return Some("Switched to ".to_owned().concat(new_channel));
    }
    // Inform about changed visibility
    let vis = get_visibility_ending(visibility);
    // Check if the client joined our own channel
    match server.get_own_channel_id() {
        Some(channel_id) if channel_id == old_channel_id => Some(
            connection.to_owned().concat(" left to ").concat(new_channel).concat(vis),
        ),
        Some(channel_id) if channel_id == new_channel_id => Some(
            connection.to_owned().concat(" joined").concat(vis),
        ),
        _ => Some(connection.to_owned().concat(" switched to ").concat(new_channel).concat(vis)),
    }
}

/// Called when somebody was moved by somebody else.
pub fn connection_moved(
    server: Option<&Server>,
    connection_id: ConnectionId,
    old_channel_id: ChannelId,
    new_channel_id: ChannelId,
    visibility: Visibility,
    invoker: &Invoker,
) -> (r: Option<String>)
    ensures
        crate::text::text(r) == match server {
            Some(server) => Some(
                server@.moved_text(
                    connection_id,
                    old_channel_id,
                    new_channel_id,
                    visibility,
                    invoker@,
                ),
            ),
            None => None,
        },
{
    let server = match server {
        Some(server) => server,
        None => return None,
    };
    let connection = get_connection_name(server, connection_id);
    let new_channel = get_channel_name(server, new_channel_id);
    let invoker_name = get_invoker_name(server, invoker);
    // Check if we are the client
    if is_own_connection(server, connection_id) {
        return Some(invoker_name.to_owned().concat(" moved you to ").concat(new_channel));
    }
    let vis = get_visibility_ending(visibility);
    let text = invoker_name.to_owned().concat(" moved ").concat(connection);
    // Check if the client joined our own channel
    match server.get_own_channel_id() {
        Some(channel_id) if channel_id == old_channel_id => Some(
            text.concat(" out to ").concat(new_channel).concat(vis),
        ),
        Some(channel_id) if channel_id == new_channel_id => Some(text.concat(" in").concat(vis)),
        _ => Some(text.concat(" to ").concat(new_channel).concat(vis)),
    }
}

/// Called when somebody timed out.
pub fn connection_timeout(server: Option<&Server>, connection_id: ConnectionId) -> (r: Option<
    String,
>)
    ensures
        crate::text::text(r) == match server {
            Some(server) => Some(server@.timeout_text(connection_id)),
            None => None,
        },
{
    let server = match server {
        Some(server) => server,
        None => return None,
    };
    if is_own_connection(server, connection_id) {
        Some("Timed out".to_owned())
    } else {
        Some(get_connection_name(server, connection_id).to_owned().concat(" timed out"))
    }
}

fn say_action(
    server: &Server,
    invoker: &Invoker,
    verb: &str,
    connection_id: ConnectionId,
) -> (r: String)
    ensures
        r@ == server@.action_text(invoker@, verb@, connection_id),
{
    get_invoker_name(server, invoker).to_owned().concat(verb).concat(
        get_connection_name(server, connection_id),
    )
}

/// Called when somebody was kicked from a channel into another one.
pub fn channel_kick(
    server: Option<&Server>,
    connection_id: ConnectionId,
    new_channel_id: ChannelId,
    invoker: &Invoker,
    message: &str,
) -> (r: Option<String>)
    ensures
        crate::text::text(r) == match server {
            Some(server) => Some(
                server@.action_text(invoker@, " kicked "@, connection_id) + " to "@
                    + server@.spoken_channel(new_channel_id) + crate::text::reason(message@),
            ),
            None => None,
        },
{
    match server {
        Some(server) => Some(
            say_action(server, invoker, " kicked ", connection_id).concat(" to ").concat(
                get_channel_name(server, new_channel_id),
            ).concat(because(message).as_str()),
        ),
        None => None,
    }
}

/// Called when somebody was kicked from the server.
pub fn server_kick(
    server: Option<&Server>,
    connection_id: ConnectionId,
    invoker: &Invoker,
    message: &str,
) -> (r: Option<String>)
    ensures
        crate::text::text(r) == match server {
            Some(server) => Some(
                server@.action_text(invoker@, " kicked "@, connection_id) + crate::text::reason(
                    message@,
                ),
            ),
            None => None,
        },
{
    match server {
        Some(server) => Some(
            say_action(server, invoker, " kicked ", connection_id).concat(
                because(message).as_str(),
            ),
        ),
        None => None,
    }
}

/// Called when somebody was banned from the server.
pub fn server_ban(
    server: Option<&Server>,
    connection_id: ConnectionId,
    invoker: &Invoker,
    message: &str,
) -> (r: Option<String>)
    ensures
        crate::text::text(r) == match server {
            Some(server) => Some(
                server@.action_text(invoker@, " banned "@, connection_id) + crate::text::reason(
                    message@,
                ),
            ),
            None => None,
        },
{
    match server {
        Some(server) => Some(
            say_action(server, invoker, " banned ", connection_id).concat(
                because(message).as_str(),
            ),
        ),
        None => None,
    }
}

/// Called when somebody changed their avatar, or removed it (`path` is `None`).
pub fn avatar_changed(
    server: Option<&Server>,
    connection_id: ConnectionId,
    path: Option<&str>,
) -> (r: Option<String>)
    ensures
        crate::text::text(r) == match server {
            Some(server) => Some(
                server@.spoken_connection(connection_id) + (if path is None {
                    " removed his avatar"@
                } else {
                    " changed his avatar"@
                }),
            ),
            None => None,
        },
{
    match server {
        Some(server) => {
            let name = get_connection_name(server, connection_id);
            if path.is_none() {
                Some(name.to_owned().concat(" removed his avatar"))
            } else {
                Some(name.to_owned().concat(" changed his avatar"))
            }
        },
        None => None,
    }
}

/// Called when somebody was added to a server group.
pub fn connection_server_group_added(
    server: Option<&Server>,
    connection: &Invoker,
    invoker: &Invoker,
) -> (r: Option<String>)
    ensures
        crate::text::text(r) == match server {
            Some(server) => Some(
                server@.spoken_invoker(invoker@) + " added "@ + server@.spoken_invoker(connection@)
                    + " to a group"@,
            ),
            None => None,
        },
{
    match server {
        Some(server) => Some(
            get_invoker_name(server, invoker).to_owned().concat(" added ").concat(
                get_invoker_name(server, connection),
            ).concat(" to a group"),
        ),
        None => None,
    }
}

/// Called when somebody was removed from a server group.
pub fn connection_server_group_removed(
    server: Option<&Server>,
    connection: &Invoker,
    invoker: &Invoker,
) -> (r: Option<String>)
    ensures
        crate::text::text(r) == match server {
            Some(server) => Some(
                server@.spoken_invoker(invoker@) + " removed "@ + server@.spoken_invoker(
                    connection@,
                ) + " from a group"@,
            ),
            None => None,
        },
{
    match server {
        Some(server) => Some(
            get_invoker_name(server, invoker).to_owned().concat(" removed ").concat(
                get_invoker_name(server, connection),
            ).concat(" from a group"),
        ),
        None => None,
    }
}

/// On a known server, only our own coming and going is passed over.
pub proof fn law_only_our_own_presence_is_silent(
    server: ServerView,
    connection_id: ConnectionId,
    connected: bool,
)
    ensures
        server.presence_text(connection_id, connected) is None <==> server.own_connection_id
            == Some(connection_id),
{
}

} // verus!
