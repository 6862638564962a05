//! What is known of a server, its channels and the connections on it.
//!
//! Every property is an `Option`: it is `None` where the client could not read
//! the property.
use std::collections::BTreeMap;
use vstd::prelude::*;

verus! {

/// The number by which a server knows a connection.
pub type ConnectionId = u16;

/// The number by which a server knows a channel.
pub type ChannelId = u64;

/// The stages of connecting to a server.
#[derive(Clone, Copy, Debug, PartialEq, Eq, Structural)]
pub enum ConnectStatus {
    /// There is no activity to the server.
    Disconnected,
    /// The server has not accepted us yet.
    Connecting,
    /// The server has accepted us, channels and clients are not known yet.
    Connected,
    /// We are connected and visible.
    ConnectionEstablishing,
    /// We are connected and know the channels and clients.
    ConnectionEstablished,
}

/// How a move changes what we see of a connection.
#[derive(Clone, Copy, Debug, PartialEq, Eq, Structural)]
pub enum Visibility {
    /// The connection came into view.
    Enter,
    /// Nothing changed.
    Retain,
    /// The connection went out of view.
    Leave,
}

/// Is somebody away from the keyboard?
#[derive(Clone, Copy, Debug, PartialEq, Eq, Structural)]
pub enum AwayStatus {
    Here,
    Zzz,
}

#[derive(Clone, Copy, Debug, PartialEq, Eq, Structural)]
pub enum MuteInputStatus {
    Unmuted,
    Muted,
}

#[derive(Clone, Copy, Debug, PartialEq, Eq, Structural)]
pub enum MuteOutputStatus {
    Unmuted,
    Muted,
}

#[derive(Clone, Copy, Debug, PartialEq, Eq, Structural)]
pub enum HardwareInputStatus {
    Disabled,
    Enabled,
}

#[derive(Clone, Copy, Debug, PartialEq, Eq, Structural)]
pub enum HardwareOutputStatus {
    Disabled,
    Enabled,
}

/// A channel of a server.
#[derive(Clone, Debug)]
pub struct Channel {
    pub name: Option<String>,
    /// How the name is pronounced.
    pub phonetic_name: Option<String>,
}

pub struct ChannelView {
    pub name: Option<Seq<char>>,
    pub phonetic_name: Option<Seq<char>>,
}

impl View for Channel {
    type V = ChannelView;

    open spec fn view(&self) -> ChannelView {
        ChannelView { name: crate::text::text(self.name), phonetic_name: crate::text::text(self.phonetic_name) }
    }
}

/// Properties of a connection that are only sent on request.
#[derive(Clone, Debug)]
pub struct OptionalConnectionData {
    pub description: Option<String>,
    pub talker: Option<bool>,
    pub priority_speaker: Option<bool>,
    pub unread_messages: Option<bool>,
}

pub struct OptionalConnectionDataView {
    pub description: Option<Seq<char>>,
    pub talker: Option<bool>,
    pub priority_speaker: Option<bool>,
    pub unread_messages: Option<bool>,
}

impl View for OptionalConnectionData {
    type V = OptionalConnectionDataView;

    open spec fn view(&self) -> OptionalConnectionDataView {
        OptionalConnectionDataView {
            description: crate::text::text(self.description),
            talker: self.talker,
            priority_speaker: self.priority_speaker,
            unread_messages: self.unread_messages,
        }
    }
}

/// Somebody who is connected to a server.
#[derive(Clone, Debug)]
pub struct Connection {
    pub name: Option<String>,
    /// How the name is pronounced.
    pub phonetic_name: Option<String>,
    pub channel_id: Option<ChannelId>,
    pub away: Option<AwayStatus>,
    pub away_message: Option<String>,
    pub input_muted: Option<MuteInputStatus>,
    pub output_muted: Option<MuteOutputStatus>,
    pub output_only_muted: Option<MuteOutputStatus>,
    pub input_hardware: Option<HardwareInputStatus>,
    pub output_hardware: Option<HardwareOutputStatus>,
    pub recording: Option<bool>,
    pub optional_data: OptionalConnectionData,
}

pub struct ConnectionView {
    pub name: Option<Seq<char>>,
    pub phonetic_name: Option<Seq<char>>,
    pub channel_id: Option<ChannelId>,
    pub away: Option<AwayStatus>,
    pub away_message: Option<Seq<char>>,
    pub input_muted: Option<MuteInputStatus>,
    pub output_muted: Option<MuteOutputStatus>,
    pub output_only_muted: Option<MuteOutputStatus>,
    pub input_hardware: Option<HardwareInputStatus>,
    pub output_hardware: Option<HardwareOutputStatus>,
    pub recording: Option<bool>,
    pub optional_data: OptionalConnectionDataView,
}

impl View for Connection {
    type V = ConnectionView;

    open spec fn view(&self) -> ConnectionView {
        ConnectionView {
            name: crate::text::text(self.name),
            phonetic_name: crate::text::text(self.phonetic_name),
            channel_id: self.channel_id,
            away: self.away,
            away_message: crate::text::text(self.away_message),
            input_muted: self.input_muted,
            output_muted: self.output_muted,
            output_only_muted: self.output_only_muted,
            input_hardware: self.input_hardware,
            output_hardware: self.output_hardware,
            recording: self.recording,
            optional_data: self.optional_data@,
        }
    }
}

/// Somebody who caused an event. They need not be visible to us, so their name
/// comes along with their id.
#[derive(Clone, Debug)]
pub struct Invoker {
    pub id: ConnectionId,
    pub name: String,
}

pub struct InvokerView {
    pub id: ConnectionId,
    pub name: Seq<char>,
}

impl View for Invoker {
    type V = InvokerView;

    open spec fn view(&self) -> InvokerView {
        InvokerView { id: self.id, name: self.name@ }
    }
}

/// A server that we have a tab for.
#[derive(Clone, Debug)]
pub struct Server {
    pub name: Option<String>,
    /// How the name is pronounced.
    pub phonetic_name: Option<String>,
    /// The id of our own connection.
    pub own_connection_id: Option<ConnectionId>,
    /// The connections that are visible to us, our own one among them.
    pub visible_connections: BTreeMap<ConnectionId, Connection>,
    pub channels: BTreeMap<ChannelId, Channel>,
}

pub struct ServerView {
    pub name: Option<Seq<char>>,
    pub phonetic_name: Option<Seq<char>>,
    pub own_connection_id: Option<ConnectionId>,
    pub visible_connections: Map<ConnectionId, ConnectionView>,
    pub channels: Map<ChannelId, ChannelView>,
}

impl View for Server {
    type V = ServerView;

    open spec fn view(&self) -> ServerView {
        ServerView {
            name: crate::text::text(self.name),
            phonetic_name: crate::text::text(self.phonetic_name),
            own_connection_id: self.own_connection_id,
            visible_connections: self.visible_connections@.map_values(|c: Connection| c@),
            channels: self.channels@.map_values(|c: Channel| c@),
        }
    }
}

impl ServerView {
    /// The visible connection with the given id.
    pub open spec fn connection(self, connection_id: ConnectionId) -> Option<ConnectionView> {
        if self.visible_connections.contains_key(connection_id) {
            Some(self.visible_connections[connection_id])
        } else {
            None
        }
    }

    /// The channel with the given id.
    pub open spec fn channel(self, channel_id: ChannelId) -> Option<ChannelView> {
        if self.channels.contains_key(channel_id) {
            Some(self.channels[channel_id])
        } else {
            None
        }
    }

    /// The channel that we are in, as far as it is known.
    pub open spec fn own_channel(self) -> Option<ChannelId> {
        match self.own_connection_id {
            Some(id) => match self.connection(id) {
                Some(c) => c.channel_id,
                None => None,
            },
            None => None,
        }
    }
}

impl Server {
    /// Returns the visible connection with the given id.
    pub fn get_connection(&self, connection_id: ConnectionId) -> (r: Option<&Connection>)
        ensures
            match r {
                Some(c) => self@.connection(connection_id) == Some(c@),
                None => self@.connection(connection_id) is None,
            },
            r is Some <==> self.visible_connections@.contains_key(connection_id),
            r is Some ==> *r->0 == self.visible_connections@[connection_id],
    {
        self.visible_connections.get(&connection_id)
    }

    /// Returns the channel with the given id.
    pub fn get_channel(&self, channel_id: ChannelId) -> (r: Option<&Channel>)
        ensures
            match r {
                Some(c) => self@.channel(channel_id) == Some(c@),
                None => self@.channel(channel_id) is None,
            },
            r is Some <==> self.channels@.contains_key(channel_id),
            r is Some ==> *r->0 == self.channels@[channel_id],
    {
        self.channels.get(&channel_id)
    }

    /// Returns the channel that we are in, as far as it is known.
    pub fn get_own_channel_id(&self) -> (r: Option<ChannelId>)
        ensures
            r == self@.own_channel(),
    {
        match self.own_connection_id {
            Some(id) => match self.get_connection(id) {
                Some(c) => c.channel_id,
                None => None,
            },
            None => None,
        }
    }
}

} // verus!
