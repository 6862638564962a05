//! What is said when the properties of a connection change.
use crate::model::{
    AwayStatus, Connection, ConnectionId, ConnectionView, HardwareInputStatus,
    HardwareOutputStatus, MuteInputStatus, MuteOutputStatus, OptionalConnectionData,
    OptionalConnectionDataView, Server, ServerView,
};
use crate::names::{get_connection_name, intern_get_connection_name};
use vstd::prelude::*;

verus! {

/// Are both values known and are they unequal?
pub open spec fn differ<T>(a: Option<T>, b: Option<T>) -> bool {
    a is Some && b is Some && a != b
}

/// Nothing to say.
pub open spec fn nothing() -> Seq<Seq<char>> {
    Seq::empty()
}

/// What is said when a property that is `on` or not changes.
pub open spec fn switch_texts<T>(
    new: Option<T>,
    old: Option<T>,
    on: T,
    name: Seq<char>,
    on_text: Seq<char>,
    off_text: Seq<char>,
) -> Seq<Seq<char>> {
    if differ(new, old) {
        seq![name + (if new == Some(on) { on_text } else { off_text })]
    } else {
        nothing()
    }
}

impl ConnectionView {
    /// Where somebody has gone to, as far as they say so.
    pub open spec fn destination(self) -> Seq<char> {
        if self.away_message is Some && self.away_message->0.len() > 0 {
            " to "@ + self.away_message->0
        } else {
            Seq::empty()
        }
    }

    /// A new name is read out in full, after the old way of calling.
    pub open spec fn name_texts(self, old: ConnectionView) -> Seq<Seq<char>> {
        if differ(self.name, old.name) {
            seq![old.spoken() + " is now known as "@ + self.name->0]
        } else {
            nothing()
        }
    }

    /// Going away, coming back, or changing the away message while away.
    pub open spec fn away_texts(self, old: ConnectionView) -> Seq<Seq<char>> {
        let gone = self.spoken() + " has gone"@ + self.destination();
        if differ(self.away, old.away) {
            if self.away == Some(AwayStatus::Zzz) {
                seq![gone]
            } else {
                seq![self.spoken() + " is back"@]
            }
        } else if self.away == Some(AwayStatus::Zzz) && differ(
            self.away_message,
            old.away_message,
        ) {
            seq![gone]
        } else {
            nothing()
        }
    }

    /// Muting and unmuting, in software and in hardware.
    pub open spec fn sound_texts(self, old: ConnectionView) -> Seq<Seq<char>> {
        let name = self.spoken();
        switch_texts(
            self.input_muted,
            old.input_muted,
            MuteInputStatus::Muted,
            name,
            " is muted"@,
            " is unmuted"@,
        ) + switch_texts(
            self.output_muted,
            old.output_muted,
            MuteOutputStatus::Muted,
            name,
            " is deaf"@,
            " is listening"@,
        ) + switch_texts(
            self.output_only_muted,
            old.output_only_muted,
            MuteOutputStatus::Muted,
            name,
            " is only deaf"@,
            " is listening again"@,
        ) + switch_texts(
            self.input_hardware,
            old.input_hardware,
            HardwareInputStatus::Disabled,
            name,
            " is silent"@,
            " can talk"@,
        ) + switch_texts(
            self.output_hardware,
            old.output_hardware,
            HardwareOutputStatus::Disabled,
            name,
            " is really deaf"@,
            " can listen"@,
        )
    }

    /// A new pronunciation.
    pub open spec fn phonetic_name_texts(self, old: ConnectionView) -> Seq<Seq<char>> {
        if differ(self.phonetic_name, old.phonetic_name) {
            seq![old.spoken() + " is now known as "@ + self.spoken()]
        } else {
            nothing()
        }
    }

    /// Starting and stopping to record.
    pub open spec fn recording_texts(self, old: ConnectionView) -> Seq<Seq<char>> {
        switch_texts(
            self.recording,
            old.recording,
            true,
            self.spoken(),
            " starts recording"@,
            " stops recording"@,
        )
    }

    /// All that is said when `old` has become `self`, in this order.
    pub open spec fn update_texts(self, old: ConnectionView) -> Seq<Seq<char>> {
        self.name_texts(old) + self.away_texts(old) + self.sound_texts(old)
            + self.phonetic_name_texts(old) + self.recording_texts(old)
            + self.optional_data.update_texts(self.spoken(), old.optional_data)
    }
}

impl ServerView {
    /// What is said when the connection with the given id was `old` before.
    pub open spec fn update_texts(
        self,
        connection_id: ConnectionId,
        old: ConnectionView,
    ) -> Seq<Seq<char>> {
        match self.connection(connection_id) {
            Some(new) => new.update_texts(old),
            None => nothing(),
        }
    }
}

impl OptionalConnectionDataView {
    /// Changes of the data that is only sent on request. Unread messages are
    /// mentioned whether they are new or not.
    pub open spec fn update_texts(
        self,
        name: Seq<char>,
        old: OptionalConnectionDataView,
    ) -> Seq<Seq<char>> {
        (if differ(self.description, old.description) {
            seq![name + " changed his description to "@ + self.description->0]
        } else {
            nothing()
        }) + switch_texts(
            self.talker,
            old.talker,
            true,
            name,
            " is talker"@,
            " is no more talker"@,
        ) + switch_texts(
            self.priority_speaker,
            old.priority_speaker,
            true,
            name,
            " has priority"@,
            " has no more priority"@,
        ) + (if self.unread_messages == Some(true) {
            seq!["Unread message from "@ + name]
        } else {
            nothing()
        })
    }
}

/// Plain values that can be told apart.
pub trait Comparable: Copy {
    fn differs(self, other: Self) -> (r: bool)
        ensures
            r == (self != other),
    ;
}

impl Comparable for bool {
    fn differs(self, other: Self) -> bool {
        self != other
    }
}

impl Comparable for AwayStatus {
    fn differs(self, other: Self) -> bool {
        self != other
    }
}

impl Comparable for MuteInputStatus {
    fn differs(self, other: Self) -> bool {
        self != other
    }
}

impl Comparable for MuteOutputStatus {
    fn differs(self, other: Self) -> bool {
        self != other
    }
}

impl Comparable for HardwareInputStatus {
    fn differs(self, other: Self) -> bool {
        self != other
    }
}

impl Comparable for HardwareOutputStatus {
    fn differs(self, other: Self) -> bool {
        self != other
    }
}

/// Compares two values. Returns `true` if both are known and unequal.
pub fn values_neq<T: Comparable>(a: Option<T>, b: Option<T>) -> (r: bool)
    ensures
        r == differ(a, b),
{
    match (a, b) {
        (Some(a), Some(b)) => a.differs(b),
        _ => false,
    }
}

/// Compares two texts. Returns `true` if both are known and unequal.
pub fn texts_neq(a: &Option<String>, b: &Option<String>) -> (r: bool)
    ensures
        r == differ(crate::text::text(*a), crate::text::text(*b)),
{
    match (a, b) {
        (Some(a), Some(b)) => *a != *b,
        _ => false,
    }
}

/// Adds `text` to `out`.
fn say(out: &mut Vec<String>, text: String)
    ensures
        crate::text::texts(final(out)@) == crate::text::texts(old(out)@) + seq![text@],
{
    out.push(text);
    assert(crate::text::texts(out@) =~= crate::text::texts(old(out)@) + seq![text@]);
}

/// Says what a changed switch is now.
fn say_switch<T: Comparable>(
    out: &mut Vec<String>,
    new: Option<T>,
    previous: Option<T>,
    on: T,
    name: &str,
    on_text: &str,
    off_text: &str,
)
    ensures
        crate::text::texts(final(out)@) == crate::text::texts(old(out)@) + switch_texts(
            new,
            previous,
            on,
            name@,
            on_text@,
            off_text@,
        ),
{
    if values_neq(new, previous) {
        if let Some(value) = new {
            let change = if value.differs(on) {
                off_text
            } else {
                on_text
            };
            say(out, name.to_owned().concat(change));
        }
    }
}

/// Says that somebody has gone, and where to.
fn gone_text(name: &str, new: &Connection) -> (r: String)
    ensures
        r@ == name@ + " has gone"@ + new@.destination(),
{
    let text = name.to_owned().concat(" has gone");
    if let Some(message) = &new.away_message {
        if !message.as_str().is_empty() {
            let destination = " to ".to_owned().concat(message.as_str());
            return text.concat(destination.as_str());
        }
    }
    assert(text@ + new@.destination() =~= text@);
    text
}

fn say_name(out: &mut Vec<String>, new: &Connection, previous: &Connection)
    ensures
        crate::text::texts(final(out)@) == crate::text::texts(old(out)@) + new@.name_texts(
            previous@,
        ),
{
    if texts_neq(&new.name, &previous.name) {
        if let Some(new_name) = &new.name {
            say(
                out,
                intern_get_connection_name(previous).to_owned().concat(
                    " is now known as ",
                ).concat(new_name.as_str()),
            );
        }
    }
}

fn say_away(out: &mut Vec<String>, name: &str, new: &Connection, previous: &Connection)
    requires
        name@ == new@.spoken(),
    ensures
        crate::text::texts(final(out)@) == crate::text::texts(old(out)@) + new@.away_texts(
            previous@,
        ),
{
    let is_away = match new.away {
        Some(away) => away == AwayStatus::Zzz,
        None => false,
    };
    if values_neq(new.away, previous.away) {
        if is_away {
            say(out, gone_text(name, new));
        } else {
            say(out, name.to_owned().concat(" is back"));
        }
    } else if is_away && texts_neq(&new.away_message, &previous.away_message) {
        say(out, gone_text(name, new));
    }
}

fn say_sound(out: &mut Vec<String>, name: &str, new: &Connection, previous: &Connection)
    requires
        name@ == new@.spoken(),
    ensures
        crate::text::texts(final(out)@) == crate::text::texts(old(out)@) + new@.sound_texts(
            previous@,
        ),
{
    say_switch(
        out,
        new.input_muted,
        previous.input_muted,
        MuteInputStatus::Muted,
        name,
        " is muted",
        " is unmuted",
    );
    say_switch(
        out,
        new.output_muted,
        previous.output_muted,
        MuteOutputStatus::Muted,
        name,
        " is deaf",
        " is listening",
    );
    say_switch(
        out,
        new.output_only_muted,
        previous.output_only_muted,
        MuteOutputStatus::Muted,
        name,
        " is only deaf",
        " is listening again",
    );
    say_switch(
        out,
        new.input_hardware,
        previous.input_hardware,
        HardwareInputStatus::Disabled,
        name,
        " is silent",
        " can talk",
    );
    say_switch(
        out,
        new.output_hardware,
        previous.output_hardware,
        HardwareOutputStatus::Disabled,
        name,
        " is really deaf",
        " can listen",
    );
    assert(crate::text::texts(out@) =~= crate::text::texts(old(out)@) + new@.sound_texts(
        previous@,
    ));
}

fn say_phonetic_name(out: &mut Vec<String>, name: &str, new: &Connection, previous: &Connection)
    requires
        name@ == new@.spoken(),
    ensures
        crate::text::texts(final(out)@) == crate::text::texts(old(out)@)
            + new@.phonetic_name_texts(previous@),
{
    if texts_neq(&new.phonetic_name, &previous.phonetic_name) {
        say(
            out,
            intern_get_connection_name(previous).to_owned().concat(" is now known as ").concat(
                name,
            ),
        );
    }
}

fn say_optional_data(
    out: &mut Vec<String>,
    name: &str,
    new: &OptionalConnectionData,
    previous: &OptionalConnectionData,
)
    ensures
        crate::text::texts(final(out)@) == crate::text::texts(old(out)@) + new@.update_texts(
            name@,
            previous@,
        ),
{
    if texts_neq(&new.description, &previous.description) {
        if let Some(description) = &new.description {
            say(
                out,
                name.to_owned().concat(" changed his description to ").concat(
                    description.as_str(),
                ),
            );
        }
    }
    say_switch(
        out,
        new.talker,
        previous.talker,
        true,
        name,
        " is talker",
        " is no more talker",
    );
    say_switch(
        out,
        new.priority_speaker,
        previous.priority_speaker,
        true,
        name,
        " has priority",
        " has no more priority",
    );
    if let Some(true) = new.unread_messages {
        say(out, "Unread message from ".to_owned().concat(name));
    }
    assert(crate::text::texts(out@) =~= crate::text::texts(old(out)@) + new@.update_texts(
        name@,
        previous@,
    ));
}

/// Called when properties of a connection have changed. Returns what is to be
/// read out, in order: nothing where the server, the connection or its old
/// properties are not known.
pub fn connection_updated(
    server: Option<&Server>,
    connection_id: ConnectionId,
    old_connection: Option<&Connection>,
) -> (r: Vec<String>)
    ensures
        crate::text::texts(r@) == match (server, old_connection) {
            (Some(server), Some(previous)) => server@.update_texts(connection_id, previous@),
            _ => nothing(),
        },
{
    let mut out: Vec<String> = Vec::new();
    assert(crate::text::texts(out@) =~= nothing());
    if let Some(server) = server {
        // Compare changes
        if let Some(previous) = old_connection {
            if let Some(new) = server.get_connection(connection_id) {
                let name = get_connection_name(server, connection_id);
                say_name(&mut out, new, previous);
                say_away(&mut out, name, new, previous);
                say_sound(&mut out, name, new, previous);
                say_phonetic_name(&mut out, name, new, previous);
                say_switch(
                    &mut out,
                    new.recording,
                    previous.recording,
                    true,
                    name,
                    " starts recording",
                    " stops recording",
                );
                say_optional_data(&mut out, name, &new.optional_data, &previous.optional_data);
                assert(crate::text::texts(out@) =~= new@.update_texts(previous@));
            }
        }
    }
    out
}

impl ConnectionView {
    /// Did any property change that is spoken of? A new away message counts only
    /// while somebody is away.
    pub open spec fn changed_since(self, old: ConnectionView) -> bool {
        ||| differ(self.name, old.name)
        ||| differ(self.phonetic_name, old.phonetic_name)
        ||| differ(self.away, old.away)
        ||| self.away == Some(AwayStatus::Zzz) && differ(self.away_message, old.away_message)
        ||| differ(self.input_muted, old.input_muted)
        ||| differ(self.output_muted, old.output_muted)
        ||| differ(self.output_only_muted, old.output_only_muted)
        ||| differ(self.input_hardware, old.input_hardware)
        ||| differ(self.output_hardware, old.output_hardware)
        ||| differ(self.recording, old.recording)
        ||| differ(self.optional_data.description, old.optional_data.description)
        ||| differ(self.optional_data.talker, old.optional_data.talker)
        ||| differ(self.optional_data.priority_speaker, old.optional_data.priority_speaker)
    }
}

/// A comparison does not depend on the order, nothing differs from itself, and
/// nothing differs from what is not known.
pub proof fn law_differ<T>(a: Option<T>, b: Option<T>)
    ensures
        differ(a, b) == differ(b, a),
        !differ(a, a),
        !differ(a, None),
        !differ(None, a),
{
}

/// An update is silent if and only if nothing changed that is spoken of and there
/// is no unread message.
pub proof fn law_silent_iff_nothing_changed(new: ConnectionView, old: ConnectionView)
    ensures
        new.update_texts(old).len() == 0 <==> !new.changed_since(old)
            && new.optional_data.unread_messages != Some(true),
{
}

/// Where nothing changed, at most the unread messages are mentioned.
pub proof fn law_unchanged_says_only_unread(new: ConnectionView, old: ConnectionView)
    requires
        !new.changed_since(old),
    ensures
        new.update_texts(old) == if new.optional_data.unread_messages == Some(true) {
            seq!["Unread message from "@ + new.spoken()]
        } else {
            nothing()
        },
{
    assert(new.update_texts(old) =~= if new.optional_data.unread_messages == Some(true) {
        seq!["Unread message from "@ + new.spoken()]
    } else {
        nothing()
    });
}

/// A connection that is the same as before did not change.
pub proof fn law_same_is_unchanged(c: ConnectionView)
    ensures
        !c.changed_since(c),
{
}

/// Each property is spoken of at most once.
pub proof fn law_each_property_is_said_once(new: ConnectionView, old: ConnectionView)
    ensures
        new.name_texts(old).len() <= 1,
        new.away_texts(old).len() <= 1,
        new.sound_texts(old).len() <= 5,
        new.phonetic_name_texts(old).len() <= 1,
        new.recording_texts(old).len() <= 1,
        new.optional_data.update_texts(new.spoken(), old.optional_data).len() <= 4,
        new.update_texts(old).len() <= 13,
{
}

/// A switch that is turned on and off again is spoken of both times, with the one
/// text and then the other.
pub proof fn law_switches_are_said_both_ways<T>(
    on: T,
    off: T,
    name: Seq<char>,
    on_text: Seq<char>,
    off_text: Seq<char>,
)
    requires
        on != off,
    ensures
        switch_texts(Some(on), Some(off), on, name, on_text, off_text) == seq![name + on_text],
        switch_texts(Some(off), Some(on), on, name, on_text, off_text) == seq![name + off_text],
{
}

} // verus!
