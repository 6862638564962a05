use std::collections::BTreeMap;
use ts3tts::channel_events::{channel_created, channel_deleted, channel_edited, channel_moved};
use ts3tts::chat_events::{is_message_unreadable, message, poke};
use ts3tts::connection_events::{
    avatar_changed, channel_kick, connection_changed, connection_move, connection_moved,
    connection_server_group_added, connection_server_group_removed, connection_timeout,
    server_ban, server_kick,
};
use ts3tts::model::{
    Channel, ConnectStatus, Connection, Invoker, OptionalConnectionData, Server, Visibility,
};
use ts3tts::server_events::{
    connect_status_change, permission_error, server_edited, server_error, server_stop,
};

fn some(text: &str) -> Option<String> {
    Some(text.to_string())
}

fn connection(name: &str, channel_id: Option<u64>) -> Connection {
    Connection {
        name: some(name),
        phonetic_name: some(""),
        channel_id,
        away: None,
        away_message: None,
        input_muted: None,
        output_muted: None,
        output_only_muted: None,
        input_hardware: None,
        output_hardware: None,
        recording: None,
        optional_data: OptionalConnectionData {
            description: None,
            talker: None,
            priority_speaker: None,
            unread_messages: None,
        },
    }
}

/// We are connection 1 and sit in the hall; Bob sits next to us, Carol in the attic.
fn server() -> Server {
    let mut visible_connections = BTreeMap::new();
    visible_connections.insert(1, connection("Me Myself", Some(10)));
    visible_connections.insert(2, connection("Bob Builder", Some(10)));
    visible_connections.insert(3, connection("Carol", Some(11)));
    visible_connections.insert(4, connection("Dave", None));
    let mut channels = BTreeMap::new();
    channels.insert(10, Channel { name: some("the hall"), phonetic_name: some("") });
    channels.insert(11, Channel { name: some("the attic"), phonetic_name: some("") });
    channels.insert(12, Channel { name: some("the cellar"), phonetic_name: some("") });
    Server {
        name: some("Home"),
        phonetic_name: some(""),
        own_connection_id: Some(1),
        visible_connections,
        channels,
    }
}

fn carol() -> Invoker {
    Invoker { id: 3, name: "Carol".to_string() }
}

fn stranger() -> Invoker {
    Invoker { id: 9, name: "Some stranger".to_string() }
}

#[test]
fn status_changes() {
    let s = server();
    assert_eq!(
        connect_status_change(Some(&s), ConnectStatus::Connected),
        some("Connected to Home")
    );
    assert_eq!(
        connect_status_change(Some(&s), ConnectStatus::Disconnected),
        some("Disconnected from Home")
    );
    assert_eq!(connect_status_change(Some(&s), ConnectStatus::Connecting), None);
    assert_eq!(connect_status_change(Some(&s), ConnectStatus::ConnectionEstablishing), None);
    assert_eq!(connect_status_change(Some(&s), ConnectStatus::ConnectionEstablished), None);
    assert_eq!(connect_status_change(None, ConnectStatus::Connected), None);
}

#[test]
fn stopping() {
    let s = server();
    assert_eq!(server_stop(Some(&s), ""), some("Home stopped"));
    assert_eq!(server_stop(Some(&s), "maintenance"), some("Home stopped because maintenance"));
    assert_eq!(server_stop(None, "maintenance"), None);
}

#[test]
fn server_errors_are_only_logged() {
    let (line, handled) = server_error("ClientInvalidId", "invalid clientID", "extra");
    assert_eq!(line, "A server error occured: invalid clientID (ClientInvalidId; extra)");
    assert!(!handled);
}

#[test]
fn permission_errors_are_read() {
    let (text, handled) = permission_error("insufficient rights");
    assert_eq!(text, "Denied insufficient rights");
    assert!(!handled);
}

#[test]
fn editing_the_server() {
    let s = server();
    assert_eq!(server_edited(Some(&s), Some(&carol())), some("Carol edited the server"));
    assert_eq!(server_edited(Some(&s), None), some("The server was edited"));
    assert_eq!(server_edited(None, Some(&carol())), None);
    assert_eq!(server_edited(None, None), None);
}

#[test]
fn connecting_and_disconnecting() {
    let mut s = server();
    assert_eq!(connection_changed(Some(&s), 1, true), None);
    assert_eq!(connection_changed(Some(&s), 1, false), None);
    assert_eq!(connection_changed(Some(&s), 2, false), some("Bob disconnected"));
    assert_eq!(connection_changed(Some(&s), 9, false), some("unknown disconnected"));
    assert_eq!(connection_changed(Some(&s), 2, true), some("Bob connected"));
    assert_eq!(connection_changed(Some(&s), 3, true), some("Carol connected to the attic"));
    assert_eq!(connection_changed(Some(&s), 4, true), some("Dave connected"));
    assert_eq!(connection_changed(Some(&s), 9, true), some("unknown connected"));
    assert_eq!(connection_changed(None, 2, true), None);
    s.own_connection_id = None;
    assert_eq!(connection_changed(Some(&s), 1, false), some("Me disconnected"));
    assert_eq!(connection_changed(Some(&s), 2, true), some("Bob connected to the hall"));
}

#[test]
fn moving() {
    let s = server();
    let retain = Visibility::Retain;
    assert_eq!(connection_move(Some(&s), 1, 10, 11, retain), some("Switched to the attic"));
    assert_eq!(
        connection_move(Some(&s), 1, 10, 11, Visibility::Leave),
        some("Switched to the attic")
    );
    assert_eq!(connection_move(Some(&s), 2, 10, 11, retain), some("Bob left to the attic"));
    assert_eq!(
        connection_move(Some(&s), 2, 10, 11, Visibility::Leave),
        some("Bob left to the attic and disappeared")
    );
    assert_eq!(connection_move(Some(&s), 3, 11, 10, retain), some("Carol joined"));
    assert_eq!(
        connection_move(Some(&s), 3, 11, 10, Visibility::Enter),
        some("Carol joined and appeared")
    );
    assert_eq!(
        connection_move(Some(&s), 3, 11, 12, retain),
        some("Carol switched to the cellar")
    );
    assert_eq!(
        connection_move(Some(&s), 3, 11, 13, Visibility::Leave),
        some("Carol switched to unknown channel and disappeared")
    );
    assert_eq!(connection_move(Some(&s), 2, 10, 10, retain), some("Bob left to the hall"));
    assert_eq!(connection_move(None, 2, 10, 11, retain), None);
    let mut lost = server();
    lost.own_connection_id = None;
    assert_eq!(
        connection_move(Some(&lost), 1, 10, 11, retain),
        some("Me switched to the attic")
    );
}

#[test]
fn being_moved() {
    let s = server();
    let retain = Visibility::Retain;
    assert_eq!(
        connection_moved(Some(&s), 1, 10, 11, retain, &carol()),
        some("Carol moved you to the attic")
    );
    assert_eq!(
        connection_moved(Some(&s), 2, 10, 11, retain, &carol()),
        some("Carol moved Bob out to the attic")
    );
    assert_eq!(
        connection_moved(Some(&s), 2, 11, 10, Visibility::Enter, &stranger()),
        some("Some moved Bob in and appeared")
    );
    assert_eq!(
        connection_moved(Some(&s), 3, 11, 12, Visibility::Leave, &stranger()),
        some("Some moved Carol to the cellar and disappeared")
    );
    assert_eq!(connection_moved(None, 3, 11, 12, retain, &carol()), None);
}

#[test]
fn timeouts() {
    let s = server();
    assert_eq!(connection_timeout(Some(&s), 1), some("Timed out"));
    assert_eq!(connection_timeout(Some(&s), 2), some("Bob timed out"));
    assert_eq!(connection_timeout(None, 2), None);
}

#[test]
fn channels() {
    let s = server();
    assert_eq!(channel_created(Some(&s), 12, Some(&carol())), some("Carol created the cellar"));
    assert_eq!(channel_created(Some(&s), 12, None), some("The server created the cellar"));
    assert_eq!(channel_created(None, 12, None), None);
    assert_eq!(channel_deleted(Some(&s), 12, Some(&carol())), some("Carol deleted the cellar"));
    assert_eq!(channel_deleted(Some(&s), 99, None), some("The server deleted unknown channel"));
    assert_eq!(channel_deleted(None, 12, None), None);
    assert_eq!(channel_edited(Some(&s), 12, &stranger()), some("Some edited the cellar"));
    assert_eq!(channel_edited(None, 12, &stranger()), None);
    assert_eq!(channel_moved(Some(&s), 12, Some(&carol())), some("Carol moved the cellar"));
    assert_eq!(channel_moved(Some(&s), 12, None), some("The server moved the cellar"));
    assert_eq!(channel_moved(None, 12, None), None);
}

#[test]
fn messages() {
    let s = server();
    assert_eq!(
        message(Some(&s), &carol(), "hello", false),
        (some("Carol wrote hello"), false)
    );
    assert_eq!(message(Some(&s), &carol(), "", false), (some("Carol wrote "), false));
    assert_eq!(
        message(Some(&s), &carol(), "12345678901234567890", false),
        (some("Carol wrote 12345678901234567890"), false)
    );
    assert_eq!(
        message(Some(&s), &carol(), "123456789012345678901", false),
        (some("Carol wrote a message"), false)
    );
    assert_eq!(
        message(Some(&s), &carol(), "http://x", false),
        (some("Carol wrote a message"), false)
    );
    assert_eq!(message(Some(&s), &carol(), "hello", true), (None, false));
    assert_eq!(message(None, &carol(), "hello", false), (None, false));
    let me = Invoker { id: 1, name: "Me Myself".to_string() };
    assert_eq!(message(Some(&s), &me, "hello", false), (None, false));
    let mut lost = server();
    lost.own_connection_id = None;
    assert_eq!(message(Some(&lost), &me, "hello", false), (some("Me wrote hello"), false));
}

#[test]
fn the_length_of_a_message_is_counted_in_bytes() {
    assert!(!is_message_unreadable("\u{fc}\u{fc}\u{fc}\u{fc}\u{fc}\u{fc}\u{fc}\u{fc}\u{fc}\u{fc}"));
    assert!(is_message_unreadable("\u{fc}\u{fc}\u{fc}\u{fc}\u{fc}\u{fc}\u{fc}\u{fc}\u{fc}\u{fc}x"));
    assert!(is_message_unreadable("\u{1f600}\u{1f600}\u{1f600}\u{1f600}\u{1f600}\u{1f600}"));
}

#[test]
fn pokes() {
    let s = server();
    assert_eq!(poke(Some(&s), &carol(), "wake up", false), (some("Carol poked wake up"), false));
    assert_eq!(
        poke(Some(&s), &carol(), "a long one with http://address", false),
        (some("Carol poked a long one with http://address"), false)
    );
    assert_eq!(poke(Some(&s), &carol(), "wake up", true), (None, false));
    assert_eq!(poke(None, &carol(), "wake up", false), (None, false));
}

#[test]
fn kicks_and_bans() {
    let s = server();
    assert_eq!(
        channel_kick(Some(&s), 2, 12, &carol(), ""),
        some("Carol kicked Bob to the cellar")
    );
    assert_eq!(
        channel_kick(Some(&s), 2, 12, &carol(), "noise"),
        some("Carol kicked Bob to the cellar because noise")
    );
    assert_eq!(channel_kick(None, 2, 12, &carol(), ""), None);
    assert_eq!(server_kick(Some(&s), 2, &stranger(), ""), some("Some kicked Bob"));
    assert_eq!(
        server_kick(Some(&s), 2, &carol(), "noise"),
        some("Carol kicked Bob because noise")
    );
    assert_eq!(server_kick(None, 2, &carol(), ""), None);
    assert_eq!(server_ban(Some(&s), 9, &carol(), ""), some("Carol banned unknown"));
    assert_eq!(
        server_ban(Some(&s), 2, &carol(), "noise"),
        some("Carol banned Bob because noise")
    );
    assert_eq!(server_ban(None, 2, &carol(), ""), None);
}

#[test]
fn avatars() {
    let s = server();
    assert_eq!(avatar_changed(Some(&s), 2, None), some("Bob removed his avatar"));
    assert_eq!(avatar_changed(Some(&s), 2, Some("/tmp/a.png")), some("Bob changed his avatar"));
    assert_eq!(avatar_changed(None, 2, None), None);
}

#[test]
fn groups() {
    let s = server();
    assert_eq!(
        connection_server_group_added(Some(&s), &stranger(), &carol()),
        some("Carol added Some to a group")
    );
    assert_eq!(
        connection_server_group_removed(Some(&s), &stranger(), &carol()),
        some("Carol removed Some from a group")
    );
    assert_eq!(connection_server_group_added(None, &stranger(), &carol()), None);
    assert_eq!(connection_server_group_removed(None, &stranger(), &carol()), None);
}
