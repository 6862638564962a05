use std::collections::BTreeMap;
use ts3tts::model::{Channel, Connection, Invoker, OptionalConnectionData, Server};
use ts3tts::names::{
    get_channel_name, get_connection_name, get_invoker_name, get_server_name,
    intern_get_connection_name,
};
use ts3tts::text::{because, contains_double_slash, take_first_word};

fn some(text: &str) -> Option<String> {
    Some(text.to_string())
}

fn connection(name: Option<String>, phonetic_name: Option<String>) -> Connection {
    Connection {
        name,
        phonetic_name,
        channel_id: None,
        away: None,
        away_message: None,
        input_muted: None,
        output_muted: None,
        output_only_muted: None,
        input_hardware: None,
        output_hardware: None,
        recording: None,
        optional_data: OptionalConnectionData {
            description: None,
            talker: None,
            priority_speaker: None,
            unread_messages: None,
        },
    }
}

fn server() -> Server {
    let mut visible_connections = BTreeMap::new();
    visible_connections.insert(1, connection(some("Alice in Wonderland"), some("")));
    visible_connections.insert(2, connection(some("xX_Bob_Xx"), some("Bob the builder")));
    visible_connections.insert(3, connection(None, None));
    let mut channels = BTreeMap::new();
    channels.insert(10, Channel { name: some("Main hall"), phonetic_name: some("") });
    channels.insert(11, Channel { name: some("1337"), phonetic_name: some("leet room") });
    channels.insert(12, Channel { name: None, phonetic_name: None });
    Server {
        name: some("The Server"),
        phonetic_name: some(""),
        own_connection_id: Some(1),
        visible_connections,
        channels,
    }
}

#[test]
fn server_name_prefers_phonetic_name() {
    let mut s = server();
    assert_eq!(get_server_name(&s), "The Server");
    s.phonetic_name = some("sir ver");
    assert_eq!(get_server_name(&s), "sir ver");
    s.phonetic_name = None;
    s.name = None;
    assert_eq!(get_server_name(&s), "unknown server");
    s.name = some("");
    assert_eq!(get_server_name(&s), "");
}

#[test]
fn channel_names_are_read_in_full() {
    let s = server();
    assert_eq!(get_channel_name(&s, 10), "Main hall");
    assert_eq!(get_channel_name(&s, 11), "leet room");
    assert_eq!(get_channel_name(&s, 12), "unknown channel");
    assert_eq!(get_channel_name(&s, 13), "unknown channel");
}

#[test]
fn connection_names_end_at_the_first_space() {
    let s = server();
    assert_eq!(get_connection_name(&s, 1), "Alice");
    assert_eq!(get_connection_name(&s, 2), "Bob");
    assert_eq!(get_connection_name(&s, 3), "unknown");
    assert_eq!(get_connection_name(&s, 4), "unknown");
    assert_eq!(intern_get_connection_name(&connection(some(" x"), None)), "");
}

#[test]
fn invokers_are_called_like_their_connection() {
    let s = server();
    let visible = Invoker { id: 2, name: "Somebody else".to_string() };
    assert_eq!(get_invoker_name(&s, &visible), "Bob");
    assert_eq!(get_invoker_name(&s, &visible), get_connection_name(&s, 2));
    let hidden = Invoker { id: 9, name: "Ghost of Christmas".to_string() };
    assert_eq!(get_invoker_name(&s, &hidden), "Ghost");
}

#[test]
fn first_words() {
    assert_eq!(take_first_word(""), "");
    assert_eq!(take_first_word("word"), "word");
    assert_eq!(take_first_word("two words"), "two");
    assert_eq!(take_first_word(" leading"), "");
    assert_eq!(take_first_word("trailing "), "trailing");
    assert_eq!(take_first_word("tab\tnot a space"), "tab\tnot");
    assert_eq!(take_first_word("gr\u{fc}\u{df}e \u{1f600}"), "gr\u{fc}\u{df}e");
    assert_eq!(take_first_word("\u{1f600}\u{a0}x y"), "\u{1f600}\u{a0}x");
    assert_eq!(take_first_word(take_first_word("a b c")), "a");
}

#[test]
fn double_slashes() {
    assert!(contains_double_slash("//"));
    assert!(contains_double_slash("http://x"));
    assert!(contains_double_slash("a/ ///"));
    assert!(!contains_double_slash(""));
    assert!(!contains_double_slash("/"));
    assert!(!contains_double_slash("/a/b/"));
    assert!(!contains_double_slash("/ /"));
}

#[test]
fn reasons() {
    assert_eq!(because(""), "");
    assert_eq!(because("spam"), " because spam");
}

#[test]
fn lookups_in_a_server() {
    let mut s = server();
    assert!(s.get_connection(1).is_some());
    assert!(s.get_connection(4).is_none());
    assert!(s.get_channel(12).is_some());
    assert!(s.get_channel(1).is_none());
    assert_eq!(s.get_own_channel_id(), None);
    s.visible_connections.get_mut(&1).unwrap().channel_id = Some(10);
    assert_eq!(s.get_own_channel_id(), Some(10));
    s.own_connection_id = Some(4);
    assert_eq!(s.get_own_channel_id(), None);
    s.own_connection_id = None;
    assert_eq!(s.get_own_channel_id(), None);
}
