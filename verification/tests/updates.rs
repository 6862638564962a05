use std::collections::BTreeMap;
use ts3tts::model::{
    AwayStatus, Connection, HardwareInputStatus, HardwareOutputStatus, MuteInputStatus,
    MuteOutputStatus, OptionalConnectionData, Server,
};
use ts3tts::updates::{connection_updated, texts_neq, values_neq};

fn some(text: &str) -> Option<String> {
    Some(text.to_string())
}

/// Somebody of whom everything is known.
fn alice() -> Connection {
    Connection {
        name: some("Alice Liddell"),
        phonetic_name: some(""),
        channel_id: Some(10),
        away: Some(AwayStatus::Here),
        away_message: some(""),
        input_muted: Some(MuteInputStatus::Unmuted),
        output_muted: Some(MuteOutputStatus::Unmuted),
        output_only_muted: Some(MuteOutputStatus::Unmuted),
        input_hardware: Some(HardwareInputStatus::Enabled),
        output_hardware: Some(HardwareOutputStatus::Enabled),
        recording: Some(false),
        optional_data: OptionalConnectionData {
            description: some("curious"),
            talker: Some(false),
            priority_speaker: Some(false),
            unread_messages: Some(false),
        },
    }
}

fn update(new: Connection, old: Connection) -> Vec<String> {
    let mut visible_connections = BTreeMap::new();
    visible_connections.insert(7, new);
    let server = Server {
        name: None,
        phonetic_name: None,
        own_connection_id: Some(1),
        visible_connections,
        channels: BTreeMap::new(),
    };
    connection_updated(Some(&server), 7, Some(&old))
}

/// What is said when `change` is done, and when it is undone.
fn both_ways(change: fn(&mut Connection)) -> (Vec<String>, Vec<String>) {
    let mut changed = alice();
    change(&mut changed);
    (update(changed.clone(), alice()), update(alice(), changed))
}

#[test]
fn unknown_server_or_connection_is_silent() {
    let server = Server {
        name: None,
        phonetic_name: None,
        own_connection_id: None,
        visible_connections: BTreeMap::new(),
        channels: BTreeMap::new(),
    };
    assert!(connection_updated(None, 7, Some(&alice())).is_empty());
    assert!(connection_updated(Some(&server), 7, Some(&alice())).is_empty());
    let mut server = server;
    server.visible_connections.insert(7, alice());
    assert!(connection_updated(Some(&server), 7, None).is_empty());
    assert!(connection_updated(Some(&server), 8, Some(&alice())).is_empty());
}

#[test]
fn unchanged_connection_is_silent() {
    assert!(update(alice(), alice()).is_empty());
}

#[test]
fn other_properties_are_not_spoken_of() {
    let mut moved = alice();
    moved.channel_id = Some(11);
    moved.away_message = some("lunch");
    assert!(update(moved, alice()).is_empty());
}

#[test]
fn names_are_read_in_full_when_they_change() {
    let (there, back) = both_ways(|c| c.name = some("Queen of Hearts"));
    assert_eq!(there, ["Alice is now known as Queen of Hearts"]);
    assert_eq!(back, ["Queen is now known as Alice Liddell"]);
}

#[test]
fn phonetic_names_are_used_when_they_change() {
    let (there, back) = both_ways(|c| c.phonetic_name = some("Ellis L"));
    assert_eq!(there, ["Alice is now known as Ellis"]);
    assert_eq!(back, ["Ellis is now known as Alice"]);
}

#[test]
fn going_away_and_coming_back() {
    let (there, back) = both_ways(|c| c.away = Some(AwayStatus::Zzz));
    assert_eq!(there, ["Alice has gone"]);
    assert_eq!(back, ["Alice is back"]);
    let (there, back) = both_ways(|c| {
        c.away = Some(AwayStatus::Zzz);
        c.away_message = some("the tea party");
    });
    assert_eq!(there, ["Alice has gone to the tea party"]);
    assert_eq!(back, ["Alice is back"]);
}

#[test]
fn away_message_counts_while_away() {
    let mut before = alice();
    before.away = Some(AwayStatus::Zzz);
    let mut after = before.clone();
    after.away_message = some("sleep");
    assert_eq!(update(after.clone(), before.clone()), ["Alice has gone to sleep"]);
    assert_eq!(update(before, after.clone()), ["Alice has gone"]);
    let mut unknown = after.clone();
    unknown.away_message = None;
    assert!(update(unknown, after.clone()).is_empty());
    let mut first = after.clone();
    first.away = None;
    assert!(update(after.clone(), first.clone()).is_empty());
    first.away_message = some("dream");
    assert_eq!(update(after, first), ["Alice has gone to sleep"]);
}

#[test]
fn muting() {
    let (there, back) = both_ways(|c| c.input_muted = Some(MuteInputStatus::Muted));
    assert_eq!(there, ["Alice is muted"]);
    assert_eq!(back, ["Alice is unmuted"]);
    let (there, back) = both_ways(|c| c.output_muted = Some(MuteOutputStatus::Muted));
    assert_eq!(there, ["Alice is deaf"]);
    assert_eq!(back, ["Alice is listening"]);
    let (there, back) = both_ways(|c| c.output_only_muted = Some(MuteOutputStatus::Muted));
    assert_eq!(there, ["Alice is only deaf"]);
    assert_eq!(back, ["Alice is listening again"]);
}

#[test]
fn hardware() {
    let (there, back) = both_ways(|c| c.input_hardware = Some(HardwareInputStatus::Disabled));
    assert_eq!(there, ["Alice is silent"]);
    assert_eq!(back, ["Alice can talk"]);
    let (there, back) = both_ways(|c| c.output_hardware = Some(HardwareOutputStatus::Disabled));
    assert_eq!(there, ["Alice is really deaf"]);
    assert_eq!(back, ["Alice can listen"]);
}

#[test]
fn recording() {
    let (there, back) = both_ways(|c| c.recording = Some(true));
    assert_eq!(there, ["Alice starts recording"]);
    assert_eq!(back, ["Alice stops recording"]);
}

#[test]
fn data_on_request() {
    let (there, back) = both_ways(|c| c.optional_data.description = some("curiouser"));
    assert_eq!(there, ["Alice changed his description to curiouser"]);
    assert_eq!(back, ["Alice changed his description to curious"]);
    let (there, back) = both_ways(|c| c.optional_data.talker = Some(true));
    assert_eq!(there, ["Alice is talker"]);
    assert_eq!(back, ["Alice is no more talker"]);
    let (there, back) = both_ways(|c| c.optional_data.priority_speaker = Some(true));
    assert_eq!(there, ["Alice has priority"]);
    assert_eq!(back, ["Alice has no more priority"]);
}

#[test]
fn unread_messages_are_always_mentioned() {
    let mut unread = alice();
    unread.optional_data.unread_messages = Some(true);
    assert_eq!(update(unread.clone(), alice()), ["Unread message from Alice"]);
    assert_eq!(update(unread.clone(), unread.clone()), ["Unread message from Alice"]);
    assert!(update(alice(), unread).is_empty());
}

#[test]
fn what_is_not_known_is_not_compared() {
    let (there, back) = both_ways(|c| {
        c.name = None;
        c.phonetic_name = None;
        c.away = None;
        c.away_message = None;
        c.input_muted = None;
        c.output_muted = None;
        c.output_only_muted = None;
        c.input_hardware = None;
        c.output_hardware = None;
        c.recording = None;
        c.optional_data.description = None;
        c.optional_data.talker = None;
        c.optional_data.priority_speaker = None;
        c.optional_data.unread_messages = None;
    });
    assert!(there.is_empty());
    assert!(back.is_empty());
}

#[test]
fn all_changes_in_order() {
    let new = Connection {
        name: some("Queen of Hearts"),
        phonetic_name: some("Her majesty"),
        channel_id: Some(10),
        away: Some(AwayStatus::Zzz),
        away_message: some("croquet"),
        input_muted: Some(MuteInputStatus::Muted),
        output_muted: Some(MuteOutputStatus::Muted),
        output_only_muted: Some(MuteOutputStatus::Muted),
        input_hardware: Some(HardwareInputStatus::Disabled),
        output_hardware: Some(HardwareOutputStatus::Disabled),
        recording: Some(true),
        optional_data: OptionalConnectionData {
            description: some("off with their heads"),
            talker: Some(true),
            priority_speaker: Some(true),
            unread_messages: Some(true),
        },
    };
    assert_eq!(
        update(new, alice()),
        [
            "Alice is now known as Queen of Hearts",
            "Her has gone to croquet",
            "Her is muted",
            "Her is deaf",
            "Her is only deaf",
            "Her is silent",
            "Her is really deaf",
            "Alice is now known as Her",
            "Her starts recording",
            "Her changed his description to off with their heads",
            "Her is talker",
            "Her has priority",
            "Unread message from Her",
        ]
    );
}

#[test]
fn comparisons() {
    assert!(values_neq(Some(true), Some(false)));
    assert!(values_neq(Some(false), Some(true)));
    assert!(!values_neq(Some(true), Some(true)));
    assert!(!values_neq(Some(true), None));
    assert!(!values_neq(None, Some(true)));
    assert!(!values_neq::<bool>(None, None));
    assert!(texts_neq(&some("a"), &some("b")));
    assert!(!texts_neq(&some("a"), &some("a")));
    assert!(!texts_neq(&some("a"), &None));
    assert!(!texts_neq(&None, &some("a")));
    assert!(!texts_neq(&None, &None));
}
