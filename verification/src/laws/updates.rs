//! Laws of what is said when the properties of a connection change.
use crate::model::{
    AwayStatus, Connection, ConnectionId, HardwareInputStatus, HardwareOutputStatus,
    MuteInputStatus, MuteOutputStatus, OptionalConnectionData, Server,
};
use crate::names::{get_connection_name, intern_get_connection_name};
use crate::updates::{connection_updated, texts_neq, values_neq, Comparable};
use vstd::prelude::*;

verus! {

/// Values differ if both are known and not the same.
pub proof fn law_comparing_values<T: Comparable>(a: T, b: T, r: bool, unknown: bool)
    requires
        call_ensures(values_neq::<T>, (Some(a), Some(b)), r),
        call_ensures(values_neq::<T>, (Some(a), None::<T>), unknown) || call_ensures(
            values_neq::<T>,
            (None::<T>, Some(b)),
            unknown,
        ) || call_ensures(values_neq::<T>, (None::<T>, None::<T>), unknown),
    ensures
        r <==> a != b,
        !unknown,
{
}

/// Texts differ if both are known and not the same, letter for letter.
pub proof fn law_comparing_texts(a: &Option<String>, b: &Option<String>, r: bool)
    requires
        call_ensures(texts_neq, (a, b), r),
    ensures
        *a is Some && *b is Some ==> (r <==> a->0@ != b->0@),
        *a is None || *b is None ==> !r,
{
}

/// Nothing is said where the server, the connection or its old properties are not
/// known.
pub proof fn law_unknown_is_silent(
    server: Option<&Server>,
    id: ConnectionId,
    previous: Option<&Connection>,
    r: Vec<String>,
)
    requires
        server is None || previous is None || !server->0.visible_connections@.contains_key(id),
        call_ensures(connection_updated, (server, id, previous), r),
    ensures
        r@.len() == 0,
{
    assert(crate::text::texts(r@).len() == r@.len());
    if server is Some && previous is Some {
        assert(server->0@.connection(id) is None);
    }
}

/// `text` alone if it is to be said, else nothing.
#[verifier::opaque]
pub open spec fn said(on_condition: bool, text: Seq<char>) -> Seq<Seq<char>> {
    if on_condition {
        seq![text]
    } else {
        Seq::empty()
    }
}

/// What is said, property by property and in this order. Each text depends on the
/// name and on the old and new value of its own property alone; only an away message
/// goes together with being away.
pub proof fn law_update(
    server: &Server,
    id: ConnectionId,
    previous: &Connection,
    name: &str,
    old_name: &str,
    r: Vec<String>,
)
    requires
        server.visible_connections@.contains_key(id),
        call_ensures(get_connection_name, (server, id), name),
        call_ensures(intern_get_connection_name, (previous,), old_name),
        call_ensures(connection_updated, (Some(server), id, Some(previous)), r),
    ensures
        ({
            let new = server.visible_connections@[id];
            let extra = new.optional_data;
            let old_extra = previous.optional_data;
            r@.map_values(|s: String| s@) == said(
                new.name is Some && previous.name is Some && new.name->0@ != previous.name->0@,
                old_name@ + " is now known as "@ + new.name->0@,
            ) + said(
                new.away == Some(AwayStatus::Zzz) && (previous.away == Some(AwayStatus::Here) || (
                new.away_message is Some && previous.away_message is Some && new.away_message->0@
                    != previous.away_message->0@)),
                if new.away_message is Some && new.away_message->0@.len() > 0 {
                    name@ + " has gone"@ + " to "@ + new.away_message->0@
                } else {
                    name@ + " has gone"@
                },
            ) + said(
                new.away == Some(AwayStatus::Here) && previous.away == Some(AwayStatus::Zzz),
                name@ + " is back"@,
            ) + said(
                new.input_muted == Some(MuteInputStatus::Muted) && previous.input_muted == Some(
                    MuteInputStatus::Unmuted,
                ),
                name@ + " is muted"@,
            ) + said(
                new.input_muted == Some(MuteInputStatus::Unmuted) && previous.input_muted == Some(
                    MuteInputStatus::Muted,
                ),
                name@ + " is unmuted"@,
            ) + said(
                new.output_muted == Some(MuteOutputStatus::Muted) && previous.output_muted == Some(
                    MuteOutputStatus::Unmuted,
                ),
                name@ + " is deaf"@,
            ) + said(
                new.output_muted == Some(MuteOutputStatus::Unmuted) && previous.output_muted
                    == Some(MuteOutputStatus::Muted),
                name@ + " is listening"@,
            ) + said(
                new.output_only_muted == Some(MuteOutputStatus::Muted)
                    && previous.output_only_muted == Some(MuteOutputStatus::Unmuted),
                name@ + " is only deaf"@,
            ) + said(
                new.output_only_muted == Some(MuteOutputStatus::Unmuted)
                    && previous.output_only_muted == Some(MuteOutputStatus::Muted),
                name@ + " is listening again"@,
            ) + said(
                new.input_hardware == Some(HardwareInputStatus::Disabled)
                    && previous.input_hardware == Some(HardwareInputStatus::Enabled),
                name@ + " is silent"@,
            ) + said(
                new.input_hardware == Some(HardwareInputStatus::Enabled)
                    && previous.input_hardware == Some(HardwareInputStatus::Disabled),
                name@ + " can talk"@,
            ) + said(
                new.output_hardware == Some(HardwareOutputStatus::Disabled)
                    && previous.output_hardware == Some(HardwareOutputStatus::Enabled),
                name@ + " is really deaf"@,
            ) + said(
                new.output_hardware == Some(HardwareOutputStatus::Enabled)
                    && previous.output_hardware == Some(HardwareOutputStatus::Disabled),
                name@ + " can listen"@,
            ) + said(
                new.phonetic_name is Some && previous.phonetic_name is Some
                    && new.phonetic_name->0@ != previous.phonetic_name->0@,
                old_name@ + " is now known as "@ + name@,
            ) + said(
                new.recording == Some(true) && previous.recording == Some(false),
                name@ + " starts recording"@,
            ) + said(
                new.recording == Some(false) && previous.recording == Some(true),
                name@ + " stops recording"@,
            ) + said(
                extra.description is Some && old_extra.description is Some
                    && extra.description->0@ != old_extra.description->0@,
                name@ + " changed his description to "@ + extra.description->0@,
            ) + said(
                extra.talker == Some(true) && old_extra.talker == Some(false),
                name@ + " is talker"@,
            ) + said(
                extra.talker == Some(false) && old_extra.talker == Some(true),
                name@ + " is no more talker"@,
            ) + said(
                extra.priority_speaker == Some(true) && old_extra.priority_speaker == Some(false),
                name@ + " has priority"@,
            ) + said(
                extra.priority_speaker == Some(false) && old_extra.priority_speaker == Some(true),
                name@ + " has no more priority"@,
            ) + said(extra.unread_messages == Some(true), "Unread message from "@ + name@)
        }),
{
    let new = server.visible_connections@[id];
    assert(server@.connection(id) == Some(new@));
    assert(r@.map_values(|s: String| s@) =~= crate::text::texts(r@));
    assert(name@ == new@.spoken());
    assert(old_name@ == previous@.spoken());
    assert(r@.map_values(|s: String| s@) == new@.update_texts(previous@));
    lemma_name_texts(new, *previous);
    let p = new@.name_texts(previous@);
    lemma_append_away(p, new, *previous);
    let p = p + new@.away_texts(previous@);
    lemma_append_sound(p, new, *previous);
    let p = p + new@.sound_texts(previous@);
    let p = p + new@.phonetic_name_texts(previous@);
    lemma_append_switch(
        p,
        new.recording,
        previous.recording,
        true,
        false,
        name@,
        " starts recording"@,
        " stops recording"@,
    );
    let p = p + new@.recording_texts(previous@);
    lemma_append_optional_data(p, name@, new.optional_data, previous.optional_data);
    assert(new@.update_texts(previous@) == p + new.optional_data@.update_texts(
        name@,
        previous.optional_data@,
    ));
}

/// The texts of new names.
proof fn lemma_name_texts(new: Connection, previous: Connection)
    ensures
        new@.name_texts(previous@) == said(
            new.name is Some && previous.name is Some && new.name->0@ != previous.name->0@,
            previous@.spoken() + " is now known as "@ + new.name->0@,
        ),
        new@.phonetic_name_texts(previous@) == said(
            new.phonetic_name is Some && previous.phonetic_name is Some && new.phonetic_name->0@
                != previous.phonetic_name->0@,
            previous@.spoken() + " is now known as "@ + new@.spoken(),
        ),
{
    reveal(said);
}

/// Going away and coming back, one after the other.
proof fn lemma_append_away(p: Seq<Seq<char>>, new: Connection, previous: Connection)
    ensures
        p + new@.away_texts(previous@) == p + said(
            new.away == Some(AwayStatus::Zzz) && (previous.away == Some(AwayStatus::Here) || (
            new.away_message is Some && previous.away_message is Some && new.away_message->0@
                != previous.away_message->0@)),
            if new.away_message is Some && new.away_message->0@.len() > 0 {
                new@.spoken() + " has gone"@ + " to "@ + new.away_message->0@
            } else {
                new@.spoken() + " has gone"@
            },
        ) + said(
            new.away == Some(AwayStatus::Here) && previous.away == Some(AwayStatus::Zzz),
            new@.spoken() + " is back"@,
        ),
{
    reveal(said);
    let n = new@.spoken();
    let gone = if new.away_message is Some && new.away_message->0@.len() > 0 {
        n + " has gone"@ + " to "@ + new.away_message->0@
    } else {
        n + " has gone"@
    };
    assert(n + " has gone"@ + new@.destination() =~= gone);
    let goes = new.away == Some(AwayStatus::Zzz) && (previous.away == Some(AwayStatus::Here) || (
    new.away_message is Some && previous.away_message is Some && new.away_message->0@
        != previous.away_message->0@));
    let comes = new.away == Some(AwayStatus::Here) && previous.away == Some(AwayStatus::Zzz);
    let first = said(goes, gone);
    let second = said(comes, n + " is back"@);
    assert(new.away is Some ==> new.away->0 == AwayStatus::Zzz || new.away->0
        == AwayStatus::Here);
    assert(previous.away is Some ==> previous.away->0 == AwayStatus::Zzz || previous.away->0
        == AwayStatus::Here);
    lemma_append(p, new@.away_texts(previous@), first, second);
}

/// The switches of sound, one after the other.
proof fn lemma_append_sound(p: Seq<Seq<char>>, new: Connection, previous: Connection)
    ensures
        p + new@.sound_texts(previous@) == p + said(
            new.input_muted == Some(MuteInputStatus::Muted) && previous.input_muted == Some(
                MuteInputStatus::Unmuted,
            ),
            new@.spoken() + " is muted"@,
        ) + said(
            new.input_muted == Some(MuteInputStatus::Unmuted) && previous.input_muted == Some(
                MuteInputStatus::Muted,
            ),
            new@.spoken() + " is unmuted"@,
        ) + said(
            new.output_muted == Some(MuteOutputStatus::Muted) && previous.output_muted == Some(
                MuteOutputStatus::Unmuted,
            ),
            new@.spoken() + " is deaf"@,
        ) + said(
            new.output_muted == Some(MuteOutputStatus::Unmuted) && previous.output_muted == Some(
                MuteOutputStatus::Muted,
            ),
            new@.spoken() + " is listening"@,
        ) + said(
            new.output_only_muted == Some(MuteOutputStatus::Muted) && previous.output_only_muted
                == Some(MuteOutputStatus::Unmuted),
            new@.spoken() + " is only deaf"@,
        ) + said(
            new.output_only_muted == Some(MuteOutputStatus::Unmuted)
                && previous.output_only_muted == Some(MuteOutputStatus::Muted),
            new@.spoken() + " is listening again"@,
        ) + said(
            new.input_hardware == Some(HardwareInputStatus::Disabled) && previous.input_hardware
                == Some(HardwareInputStatus::Enabled),
            new@.spoken() + " is silent"@,
        ) + said(
            new.input_hardware == Some(HardwareInputStatus::Enabled) && previous.input_hardware
                == Some(HardwareInputStatus::Disabled),
            new@.spoken() + " can talk"@,
        ) + said(
            new.output_hardware == Some(HardwareOutputStatus::Disabled)
                && previous.output_hardware == Some(HardwareOutputStatus::Enabled),
            new@.spoken() + " is really deaf"@,
        ) + said(
            new.output_hardware == Some(HardwareOutputStatus::Enabled) && previous.output_hardware
                == Some(HardwareOutputStatus::Disabled),
            new@.spoken() + " can listen"@,
        ),
{
    let n = new@.spoken();
    let s1 = crate::updates::switch_texts(
        new.input_muted,
        previous.input_muted,
        MuteInputStatus::Muted,
        n,
        " is muted"@,
        " is unmuted"@,
    );
    let s2 = crate::updates::switch_texts(
        new.output_muted,
        previous.output_muted,
        MuteOutputStatus::Muted,
        n,
        " is deaf"@,
        " is listening"@,
    );
    let s3 = crate::updates::switch_texts(
        new.output_only_muted,
        previous.output_only_muted,
        MuteOutputStatus::Muted,
        n,
        " is only deaf"@,
        " is listening again"@,
    );
    let s4 = crate::updates::switch_texts(
        new.input_hardware,
        previous.input_hardware,
        HardwareInputStatus::Disabled,
        n,
        " is silent"@,
        " can talk"@,
    );
    let s5 = crate::updates::switch_texts(
        new.output_hardware,
        previous.output_hardware,
        HardwareOutputStatus::Disabled,
        n,
        " is really deaf"@,
        " can listen"@,
    );
    assert(new@.sound_texts(previous@) == s1 + s2 + s3 + s4 + s5);
    lemma_append_five(p, s1, s2, s3, s4, s5);
    lemma_append_switch(
        p,
        new.input_muted,
        previous.input_muted,
        MuteInputStatus::Muted,
        MuteInputStatus::Unmuted,
        n,
        " is muted"@,
        " is unmuted"@,
    );
    let p = p + s1;
    lemma_append_switch(
        p,
        new.output_muted,
        previous.output_muted,
        MuteOutputStatus::Muted,
        MuteOutputStatus::Unmuted,
        n,
        " is deaf"@,
        " is listening"@,
    );
    let p = p + s2;
    lemma_append_switch(
        p,
        new.output_only_muted,
        previous.output_only_muted,
        MuteOutputStatus::Muted,
        MuteOutputStatus::Unmuted,
        n,
        " is only deaf"@,
        " is listening again"@,
    );
    let p = p + s3;
    lemma_append_switch(
        p,
        new.input_hardware,
        previous.input_hardware,
        HardwareInputStatus::Disabled,
        HardwareInputStatus::Enabled,
        n,
        " is silent"@,
        " can talk"@,
    );
    let p = p + s4;
    lemma_append_switch(
        p,
        new.output_hardware,
        previous.output_hardware,
        HardwareOutputStatus::Disabled,
        HardwareOutputStatus::Enabled,
        n,
        " is really deaf"@,
        " can listen"@,
    );
}

/// The data that is sent on request, one after the other.
proof fn lemma_append_optional_data(
    p: Seq<Seq<char>>,
    n: Seq<char>,
    new: OptionalConnectionData,
    previous: OptionalConnectionData,
)
    ensures
        p + new@.update_texts(n, previous@) == p + said(
            new.description is Some && previous.description is Some && new.description->0@
                != previous.description->0@,
            n + " changed his description to "@ + new.description->0@,
        ) + said(
            new.talker == Some(true) && previous.talker == Some(false),
            n + " is talker"@,
        ) + said(
            new.talker == Some(false) && previous.talker == Some(true),
            n + " is no more talker"@,
        ) + said(
            new.priority_speaker == Some(true) && previous.priority_speaker == Some(false),
            n + " has priority"@,
        ) + said(
            new.priority_speaker == Some(false) && previous.priority_speaker == Some(true),
            n + " has no more priority"@,
        ) + said(new.unread_messages == Some(true), "Unread message from "@ + n),
{
    let d = said(
        new.description is Some && previous.description is Some && new.description->0@
            != previous.description->0@,
        n + " changed his description to "@ + new.description->0@,
    );
    let t = crate::updates::switch_texts(
        new.talker,
        previous.talker,
        true,
        n,
        " is talker"@,
        " is no more talker"@,
    );
    let q = crate::updates::switch_texts(
        new.priority_speaker,
        previous.priority_speaker,
        true,
        n,
        " has priority"@,
        " has no more priority"@,
    );
    let u = said(new.unread_messages == Some(true), "Unread message from "@ + n);
    assert(new@.update_texts(n, previous@) == d + t + q + u) by {
        reveal(said);
    }
    lemma_append_five(p, d, t, q, u, Seq::empty());
    assert(d + t + q + u + Seq::<Seq<char>>::empty() =~= d + t + q + u);
    assert(p + d + t + q + u + Seq::<Seq<char>>::empty() =~= p + d + t + q + u);
    let p = p + d;
    lemma_append_switch(
        p,
        new.talker,
        previous.talker,
        true,
        false,
        n,
        " is talker"@,
        " is no more talker"@,
    );
    let p = p + t;
    lemma_append_switch(
        p,
        new.priority_speaker,
        previous.priority_speaker,
        true,
        false,
        n,
        " has priority"@,
        " has no more priority"@,
    );
}

/// Appending five parts is appending one after the other.
proof fn lemma_append_five(
    p: Seq<Seq<char>>,
    a: Seq<Seq<char>>,
    b: Seq<Seq<char>>,
    c: Seq<Seq<char>>,
    d: Seq<Seq<char>>,
    e: Seq<Seq<char>>,
)
    ensures
        p + (a + b + c + d + e) == p + a + b + c + d + e,
{
    assert(p + (a + b) =~= p + a + b);
    assert(p + (a + b + c) =~= p + (a + b) + c);
    assert(p + (a + b + c + d) =~= p + (a + b + c) + d);
    assert(p + (a + b + c + d + e) =~= p + (a + b + c + d) + e);
}

/// Appending two parts is appending the one and then the other.
proof fn lemma_append(
    p: Seq<Seq<char>>,
    both: Seq<Seq<char>>,
    first: Seq<Seq<char>>,
    second: Seq<Seq<char>>,
)
    requires
        both =~= first + second,
    ensures
        p + both == p + first + second,
{
    assert(p + both =~= p + first + second);
}

/// A switch with two values is turned on, turned off, or not spoken of.
proof fn lemma_append_switch<T>(
    p: Seq<Seq<char>>,
    new: Option<T>,
    previous: Option<T>,
    on: T,
    off: T,
    name: Seq<char>,
    on_text: Seq<char>,
    off_text: Seq<char>,
)
    requires
        on != off,
        new is Some ==> new->0 == on || new->0 == off,
        previous is Some ==> previous->0 == on || previous->0 == off,
    ensures
        p + crate::updates::switch_texts(new, previous, on, name, on_text, off_text) == p + said(
            new == Some(on) && previous == Some(off),
            name + on_text,
        ) + said(new == Some(off) && previous == Some(on), name + off_text),
{
    reveal(said);
    lemma_append(
        p,
        crate::updates::switch_texts(new, previous, on, name, on_text, off_text),
        said(new == Some(on) && previous == Some(off), name + on_text),
        said(new == Some(off) && previous == Some(on), name + off_text),
    );
}

/// The texts of a switch are said exactly when that switch is turned on or off,
/// whatever any other property is.
pub proof fn law_switches_are_said_exactly_when_turned(
    server: &Server,
    id: ConnectionId,
    previous: &Connection,
    name: &str,
    r: Vec<String>,
)
    requires
        server.visible_connections@.contains_key(id),
        call_ensures(get_connection_name, (server, id), name),
        call_ensures(connection_updated, (Some(server), id, Some(previous)), r),
    ensures
        ({
            let new = server.visible_connections@[id];
            let texts = r@.map_values(|s: String| s@);
            &&& texts.contains(name@ + " is muted"@)
                <==> new.input_muted == Some(MuteInputStatus::Muted)
                && previous.input_muted == Some(MuteInputStatus::Unmuted)
            &&& texts.contains(name@ + " is unmuted"@)
                <==> new.input_muted == Some(MuteInputStatus::Unmuted)
                && previous.input_muted == Some(MuteInputStatus::Muted)
            &&& texts.contains(name@ + " is deaf"@)
                <==> new.output_muted == Some(MuteOutputStatus::Muted)
                && previous.output_muted == Some(MuteOutputStatus::Unmuted)
            &&& texts.contains(name@ + " is listening"@)
                <==> new.output_muted == Some(MuteOutputStatus::Unmuted)
                && previous.output_muted == Some(MuteOutputStatus::Muted)
            &&& texts.contains(name@ + " is only deaf"@)
                <==> new.output_only_muted == Some(MuteOutputStatus::Muted)
                && previous.output_only_muted == Some(MuteOutputStatus::Unmuted)
            &&& texts.contains(name@ + " is listening again"@)
                <==> new.output_only_muted == Some(MuteOutputStatus::Unmuted)
                && previous.output_only_muted == Some(MuteOutputStatus::Muted)
            &&& texts.contains(name@ + " is silent"@)
                <==> new.input_hardware == Some(HardwareInputStatus::Disabled)
                && previous.input_hardware == Some(HardwareInputStatus::Enabled)
            &&& texts.contains(name@ + " can talk"@)
                <==> new.input_hardware == Some(HardwareInputStatus::Enabled)
                && previous.input_hardware == Some(HardwareInputStatus::Disabled)
            &&& texts.contains(name@ + " is really deaf"@)
                <==> new.output_hardware == Some(HardwareOutputStatus::Disabled)
                && previous.output_hardware == Some(HardwareOutputStatus::Enabled)
            &&& texts.contains(name@ + " can listen"@)
                <==> new.output_hardware == Some(HardwareOutputStatus::Enabled)
                && previous.output_hardware == Some(HardwareOutputStatus::Disabled)
            &&& texts.contains(name@ + " starts recording"@) <==> new.recording == Some(true)
                && previous.recording == Some(false)
            &&& texts.contains(name@ + " stops recording"@) <==> new.recording == Some(false)
                && previous.recording == Some(true)
            &&& texts.contains(name@ + " is talker"@) <==> new.optional_data.talker == Some(true)
                && previous.optional_data.talker == Some(false)
            &&& texts.contains(name@ + " is no more talker"@)
                <==> new.optional_data.talker == Some(false)
                && previous.optional_data.talker == Some(true)
            &&& texts.contains(name@ + " has priority"@)
                <==> new.optional_data.priority_speaker == Some(true)
                && previous.optional_data.priority_speaker == Some(false)
            &&& texts.contains(name@ + " has no more priority"@)
                <==> new.optional_data.priority_speaker == Some(false)
                && previous.optional_data.priority_speaker == Some(true)
        }),
{
    let new = server.visible_connections@[id];
    assert(server@.connection(id) == Some(new@));
    assert(name@ == new@.spoken());
    assert(r@.map_values(|s: String| s@) =~= crate::text::texts(r@));
    assert(r@.map_values(|s: String| s@) == new@.update_texts(previous@));
    lemma_endings();
    lemma_endings_said(new, *previous, " is muted"@);
    lemma_endings_said(new, *previous, " is unmuted"@);
    lemma_endings_said(new, *previous, " is deaf"@);
    lemma_endings_said(new, *previous, " is listening"@);
    lemma_endings_said(new, *previous, " is only deaf"@);
    lemma_endings_said(new, *previous, " is listening again"@);
    lemma_endings_said(new, *previous, " is silent"@);
    lemma_endings_said(new, *previous, " can talk"@);
    lemma_endings_said(new, *previous, " is really deaf"@);
    lemma_endings_said(new, *previous, " can listen"@);
    lemma_endings_said(new, *previous, " starts recording"@);
    lemma_endings_said(new, *previous, " stops recording"@);
    lemma_endings_said(new, *previous, " is talker"@);
    lemma_endings_said(new, *previous, " is no more talker"@);
    lemma_endings_said(new, *previous, " has priority"@);
    lemma_endings_said(new, *previous, " has no more priority"@);
}

/// The letters by which the endings are told apart.
proof fn lemma_endings()
    ensures
        " is muted"@.len() == 9 && " is muted"@[0] == ' ' && " is muted"@[1] == 'i'
            && " is muted"@[2] == 's' && " is muted"@[4] == 'm' && " is muted"@[5] == 'u'
            && " is muted"@[6] == 't',
        " is unmuted"@.len() == 11 && " is unmuted"@[0] == ' ' && " is unmuted"@[1] == 'i'
            && " is unmuted"@[2] == 's' && " is unmuted"@[4] == 'u' && " is unmuted"@[5] == 'n'
            && " is unmuted"@[6] == 'm',
        " is deaf"@.len() == 8 && " is deaf"@[0] == ' ' && " is deaf"@[1] == 'i'
            && " is deaf"@[2] == 's' && " is deaf"@[4] == 'd' && " is deaf"@[5] == 'e'
            && " is deaf"@[6] == 'a',
        " is listening"@.len() == 13 && " is listening"@[0] == ' ' && " is listening"@[1] == 'i'
            && " is listening"@[2] == 's' && " is listening"@[4] == 'l'
            && " is listening"@[5] == 'i' && " is listening"@[6] == 's',
        " is only deaf"@.len() == 13 && " is only deaf"@[0] == ' ' && " is only deaf"@[1] == 'i'
            && " is only deaf"@[2] == 's' && " is only deaf"@[4] == 'o'
            && " is only deaf"@[5] == 'n' && " is only deaf"@[6] == 'l',
        " is listening again"@.len() == 19 && " is listening again"@[0] == ' '
            && " is listening again"@[1] == 'i' && " is listening again"@[2] == 's'
            && " is listening again"@[4] == 'l' && " is listening again"@[5] == 'i'
            && " is listening again"@[6] == 's',
        " is silent"@.len() == 10 && " is silent"@[0] == ' ' && " is silent"@[1] == 'i'
            && " is silent"@[2] == 's' && " is silent"@[4] == 's' && " is silent"@[5] == 'i'
            && " is silent"@[6] == 'l',
        " can talk"@.len() == 9 && " can talk"@[0] == ' ' && " can talk"@[1] == 'c'
            && " can talk"@[2] == 'a' && " can talk"@[4] == ' ' && " can talk"@[5] == 't'
            && " can talk"@[6] == 'a',
        " is really deaf"@.len() == 15 && " is really deaf"@[0] == ' '
            && " is really deaf"@[1] == 'i' && " is really deaf"@[2] == 's'
            && " is really deaf"@[4] == 'r' && " is really deaf"@[5] == 'e'
            && " is really deaf"@[6] == 'a',
        " can listen"@.len() == 11 && " can listen"@[0] == ' ' && " can listen"@[1] == 'c'
            && " can listen"@[2] == 'a' && " can listen"@[4] == ' ' && " can listen"@[5] == 'l'
            && " can listen"@[6] == 'i',
        " starts recording"@.len() == 17 && " starts recording"@[0] == ' '
            && " starts recording"@[1] == 's' && " starts recording"@[2] == 't'
            && " starts recording"@[4] == 'r' && " starts recording"@[5] == 't'
            && " starts recording"@[6] == 's',
        " stops recording"@.len() == 16 && " stops recording"@[0] == ' '
            && " stops recording"@[1] == 's' && " stops recording"@[2] == 't'
            && " stops recording"@[4] == 'p' && " stops recording"@[5] == 's'
            && " stops recording"@[6] == ' ',
        " is talker"@.len() == 10 && " is talker"@[0] == ' ' && " is talker"@[1] == 'i'
            && " is talker"@[2] == 's' && " is talker"@[4] == 't' && " is talker"@[5] == 'a'
            && " is talker"@[6] == 'l',
        " is no more talker"@.len() == 18 && " is no more talker"@[0] == ' '
            && " is no more talker"@[1] == 'i' && " is no more talker"@[2] == 's'
            && " is no more talker"@[4] == 'n' && " is no more talker"@[5] == 'o'
            && " is no more talker"@[6] == ' ',
        " has priority"@.len() == 13 && " has priority"@[0] == ' ' && " has priority"@[1] == 'h'
            && " has priority"@[2] == 'a' && " has priority"@[4] == ' '
            && " has priority"@[5] == 'p' && " has priority"@[6] == 'r',
        " has no more priority"@.len() == 21 && " has no more priority"@[0] == ' '
            && " has no more priority"@[1] == 'h' && " has no more priority"@[2] == 'a'
            && " has no more priority"@[4] == ' ' && " has no more priority"@[5] == 'n'
            && " has no more priority"@[6] == 'o',
{
    reveal_strlit(" is muted");
    reveal_strlit(" is unmuted");
    reveal_strlit(" is deaf");
    reveal_strlit(" is listening");
    reveal_strlit(" is only deaf");
    reveal_strlit(" is listening again");
    reveal_strlit(" is silent");
    reveal_strlit(" can talk");
    reveal_strlit(" is really deaf");
    reveal_strlit(" can listen");
    reveal_strlit(" starts recording");
    reveal_strlit(" stops recording");
    reveal_strlit(" is talker");
    reveal_strlit(" is no more talker");
    reveal_strlit(" has priority");
    reveal_strlit(" has no more priority");
}

/// A name with an ending `q` is said exactly when `q` is the ending of a switch that
/// was turned.
proof fn lemma_endings_said(new: Connection, previous: Connection, q: Seq<char>)
    requires
        q.len() > 6,
        q[0] == ' ',
        q[1] == 'i' || q[1] == 'c' || q[1] == 's' || q[1] == 'h',
        !(q[1] == 'i' && q[4] == 'n' && q[5] == 'o' && q[6] == 'w'),
        !(q[1] == 'i' && q[4] == 'b'),
        !(q[1] == 'h' && q[5] == 'g'),
        !(q[1] == 'c' && q[2] == 'h'),
    ensures
        new@.update_texts(previous@).contains(new@.spoken() + q) <==> {
            ||| new.input_muted == Some(MuteInputStatus::Muted)
                && previous.input_muted == Some(MuteInputStatus::Unmuted) && q == " is muted"@
            ||| new.input_muted == Some(MuteInputStatus::Unmuted)
                && previous.input_muted == Some(MuteInputStatus::Muted) && q == " is unmuted"@
            ||| new.output_muted == Some(MuteOutputStatus::Muted)
                && previous.output_muted == Some(MuteOutputStatus::Unmuted) && q == " is deaf"@
            ||| new.output_muted == Some(MuteOutputStatus::Unmuted)
                && previous.output_muted == Some(MuteOutputStatus::Muted) && q == " is listening"@
            ||| new.output_only_muted == Some(MuteOutputStatus::Muted)
                && previous.output_only_muted == Some(MuteOutputStatus::Unmuted) && q == " is only deaf"@
            ||| new.output_only_muted == Some(MuteOutputStatus::Unmuted)
                && previous.output_only_muted == Some(MuteOutputStatus::Muted) && q == " is listening again"@
            ||| new.input_hardware == Some(HardwareInputStatus::Disabled)
                && previous.input_hardware == Some(HardwareInputStatus::Enabled) && q == " is silent"@
            ||| new.input_hardware == Some(HardwareInputStatus::Enabled)
                && previous.input_hardware == Some(HardwareInputStatus::Disabled) && q == " can talk"@
            ||| new.output_hardware == Some(HardwareOutputStatus::Disabled)
                && previous.output_hardware == Some(HardwareOutputStatus::Enabled) && q == " is really deaf"@
            ||| new.output_hardware == Some(HardwareOutputStatus::Enabled)
                && previous.output_hardware == Some(HardwareOutputStatus::Disabled) && q == " can listen"@
            ||| new.recording == Some(true)
                && previous.recording == Some(false) && q == " starts recording"@
            ||| new.recording == Some(false)
                && previous.recording == Some(true) && q == " stops recording"@
            ||| new.optional_data.talker == Some(true)
                && previous.optional_data.talker == Some(false) && q == " is talker"@
            ||| new.optional_data.talker == Some(false)
                && previous.optional_data.talker == Some(true) && q == " is no more talker"@
            ||| new.optional_data.priority_speaker == Some(true)
                && previous.optional_data.priority_speaker == Some(false) && q == " has priority"@
            ||| new.optional_data.priority_speaker == Some(false)
                && previous.optional_data.priority_speaker == Some(true) && q == " has no more priority"@
        },
{
    let n = new@.spoken();
    let x = n + q;
    let old_data = previous.optional_data;
    let data = new.optional_data;
    lemma_spoken_is_one_word(new);
    lemma_spoken_is_one_word(previous);
    lemma_names_do_not_end_so(new, previous, q);
    lemma_away_does_not_end_so(new, previous, q);
    lemma_request_does_not_end_so(new, q);
    let s1 = crate::updates::switch_texts(
        new.input_muted,
        previous.input_muted,
        MuteInputStatus::Muted,
        n,
        " is muted"@,
        " is unmuted"@,
    );
    let s2 = crate::updates::switch_texts(
        new.output_muted,
        previous.output_muted,
        MuteOutputStatus::Muted,
        n,
        " is deaf"@,
        " is listening"@,
    );
    let s3 = crate::updates::switch_texts(
        new.output_only_muted,
        previous.output_only_muted,
        MuteOutputStatus::Muted,
        n,
        " is only deaf"@,
        " is listening again"@,
    );
    let s4 = crate::updates::switch_texts(
        new.input_hardware,
        previous.input_hardware,
        HardwareInputStatus::Disabled,
        n,
        " is silent"@,
        " can talk"@,
    );
    let s5 = crate::updates::switch_texts(
        new.output_hardware,
        previous.output_hardware,
        HardwareOutputStatus::Disabled,
        n,
        " is really deaf"@,
        " can listen"@,
    );
    lemma_sum_contains(s1, s2, x);
    lemma_sum_contains(s1 + s2, s3, x);
    lemma_sum_contains(s1 + s2 + s3, s4, x);
    lemma_sum_contains(s1 + s2 + s3 + s4, s5, x);
    let sound = new@.sound_texts(previous@);
    assert(sound == s1 + s2 + s3 + s4 + s5);
    let d = if crate::updates::differ(data@.description, old_data@.description) {
        seq![n + " changed his description to "@ + data@.description->0]
    } else {
        crate::updates::nothing()
    };
    let t = crate::updates::switch_texts(
        data.talker,
        old_data.talker,
        true,
        n,
        " is talker"@,
        " is no more talker"@,
    );
    let p = crate::updates::switch_texts(
        data.priority_speaker,
        old_data.priority_speaker,
        true,
        n,
        " has priority"@,
        " has no more priority"@,
    );
    let u = if data@.unread_messages == Some(true) {
        seq!["Unread message from "@ + n]
    } else {
        crate::updates::nothing()
    };
    lemma_sum_contains(d, t, x);
    lemma_sum_contains(d + t, p, x);
    lemma_sum_contains(d + t + p, u, x);
    let extra = data@.update_texts(n, old_data@);
    assert(extra == d + t + p + u);
    let names = new@.name_texts(previous@);
    let away = new@.away_texts(previous@);
    let phonetic = new@.phonetic_name_texts(previous@);
    let recording = new@.recording_texts(previous@);
    lemma_sum_contains(names, away, x);
    lemma_sum_contains(names + away, sound, x);
    lemma_sum_contains(names + away + sound, phonetic, x);
    lemma_sum_contains(names + away + sound + phonetic, recording, x);
    lemma_sum_contains(names + away + sound + phonetic + recording, extra, x);
    assert(!d.contains(x));
    assert(!u.contains(x));
    lemma_switch_contains(new.input_muted, previous.input_muted, MuteInputStatus::Muted,
        MuteInputStatus::Unmuted, n, " is muted"@, " is unmuted"@, q);
    lemma_switch_contains(new.output_muted, previous.output_muted, MuteOutputStatus::Muted,
        MuteOutputStatus::Unmuted, n, " is deaf"@, " is listening"@, q);
    lemma_switch_contains(new.output_only_muted, previous.output_only_muted,
        MuteOutputStatus::Muted, MuteOutputStatus::Unmuted, n, " is only deaf"@,
        " is listening again"@, q);
    lemma_switch_contains(new.input_hardware, previous.input_hardware,
        HardwareInputStatus::Disabled, HardwareInputStatus::Enabled, n, " is silent"@,
        " can talk"@, q);
    lemma_switch_contains(new.output_hardware, previous.output_hardware,
        HardwareOutputStatus::Disabled, HardwareOutputStatus::Enabled, n, " is really deaf"@,
        " can listen"@, q);
    lemma_switch_contains(new.recording, previous.recording, true, false, n,
        " starts recording"@, " stops recording"@, q);
    lemma_switch_contains(data.talker, old_data.talker, true, false, n, " is talker"@,
        " is no more talker"@, q);
    lemma_switch_contains(data.priority_speaker, old_data.priority_speaker, true, false, n,
        " has priority"@, " has no more priority"@, q);
}

/// People are called by one word.
proof fn lemma_spoken_is_one_word(c: Connection)
    ensures
        !c@.spoken().contains(' '),
{
    crate::text::law_first_word_ends_at_a_space(
        crate::names::spoken_name(c@.phonetic_name, c@.name, "unknown"@),
    );
}

/// A text of one word and an ending falls apart in one way only.
proof fn lemma_same_ending(v: Seq<char>, p: Seq<char>, w: Seq<char>, q: Seq<char>)
    requires
        !v.contains(' '),
        !w.contains(' '),
        p.len() > 0 && p[0] == ' ',
        q.len() > 0 && q[0] == ' ',
        v + p == w + q,
    ensures
        p == q,
{
    assert((v + p)[v.len() as int] == ' ');
    assert((w + q)[w.len() as int] == ' ');
    if v.len() < w.len() {
        assert(w[v.len() as int] == (w + q)[v.len() as int]);
    } else if w.len() < v.len() {
        assert(v[w.len() as int] == (v + p)[w.len() as int]);
    }
    assert(p =~= (v + p).skip(v.len() as int));
    assert(q =~= (w + q).skip(w.len() as int));
}

proof fn lemma_names_do_not_end_so(new: Connection, previous: Connection, q: Seq<char>)
    requires
        q.len() > 6,
        q[0] == ' ',
        !(q[1] == 'i' && q[4] == 'n' && q[5] == 'o' && q[6] == 'w'),
    ensures
        !new@.name_texts(previous@).contains(new@.spoken() + q),
        !new@.phonetic_name_texts(previous@).contains(new@.spoken() + q),
{
    reveal_strlit(" is now known as ");
    lemma_spoken_is_one_word(new);
    lemma_spoken_is_one_word(previous);
    let v = previous@.spoken();
    let w = new@.spoken();
    let e = " is now known as "@;
    let a = new@.name->0;
    assert(v + e + a =~= v + (e + a));
    assert(v + e + w =~= v + (e + w));
    if v + (e + a) == w + q {
        lemma_same_ending(v, e + a, w, q);
        assert((e + a)[1] == 'i' && (e + a)[4] == 'n' && (e + a)[5] == 'o' && (e + a)[6] == 'w');
    }
    if v + (e + w) == w + q {
        lemma_same_ending(v, e + w, w, q);
        assert((e + w)[1] == 'i' && (e + w)[4] == 'n' && (e + w)[5] == 'o' && (e + w)[6] == 'w');
    }
}

proof fn lemma_away_does_not_end_so(new: Connection, previous: Connection, q: Seq<char>)
    requires
        q.len() > 6,
        q[0] == ' ',
        !(q[1] == 'i' && q[4] == 'b'),
        !(q[1] == 'h' && q[5] == 'g'),
    ensures
        !new@.away_texts(previous@).contains(new@.spoken() + q),
{
    reveal_strlit(" has gone");
    reveal_strlit(" is back");
    lemma_spoken_is_one_word(new);
    let w = new@.spoken();
    let gone = " has gone"@ + new@.destination();
    assert(w + " has gone"@ + new@.destination() =~= w + gone);
    assert(gone[0] == ' ' && gone[1] == 'h' && gone[5] == 'g');
    if w + gone == w + q {
        lemma_same_ending(w, gone, w, q);
    }
    if w + " is back"@ == w + q {
        lemma_same_ending(w, " is back"@, w, q);
    }
}

proof fn lemma_request_does_not_end_so(new: Connection, q: Seq<char>)
    requires
        q.len() > 6,
        q[0] == ' ',
        q[1] != 'm',
        !(q[1] == 'c' && q[2] == 'h'),
    ensures
        forall|a: Seq<char>|
            #[trigger] (new@.spoken() + " changed his description to "@ + a) != new@.spoken() + q,
        "Unread message from "@ + new@.spoken() != new@.spoken() + q,
{
    reveal_strlit(" changed his description to ");
    reveal_strlit("Unread message from ");
    lemma_spoken_is_one_word(new);
    let w = new@.spoken();
    let e = " changed his description to "@;
    assert forall|a: Seq<char>| #[trigger] (w + e + a) != w + q by {
        assert(w + e + a =~= w + (e + a));
        if w + (e + a) == w + q {
            lemma_same_ending(w, e + a, w, q);
            assert((e + a)[1] == 'c' && (e + a)[2] == 'h');
        }
    }
    let m = "Unread message from "@ + w;
    let word = m.take(6);
    let rest = m.skip(6);
    assert(m =~= word + rest);
    assert(word[0] == 'U' && word[1] == 'n' && word[2] == 'r' && word[3] == 'e' && word[4] == 'a'
        && word[5] == 'd');
    assert(!word.contains(' '));
    assert(rest[0] == ' ' && rest[1] == 'm');
    if m == w + q {
        lemma_same_ending(word, rest, w, q);
    }
}

/// A sum holds what one of its parts holds.
proof fn lemma_sum_contains(a: Seq<Seq<char>>, b: Seq<Seq<char>>, x: Seq<char>)
    ensures
        (a + b).contains(x) <==> a.contains(x) || b.contains(x),
{
    if a.contains(x) {
        let i = choose|i: int| 0 <= i < a.len() && a[i] == x;
        assert((a + b)[i] == x);
    }
    if b.contains(x) {
        let i = choose|i: int| 0 <= i < b.len() && b[i] == x;
        assert((a + b)[i + a.len()] == x);
    }
}

/// The texts of a switch with two values hold a name with an ending exactly when the
/// switch was turned that way.
proof fn lemma_switch_contains<T>(
    new: Option<T>,
    previous: Option<T>,
    on: T,
    off: T,
    name: Seq<char>,
    on_text: Seq<char>,
    off_text: Seq<char>,
    q: Seq<char>,
)
    requires
        on != off,
        new is Some ==> new->0 == on || new->0 == off,
        previous is Some ==> previous->0 == on || previous->0 == off,
    ensures
        crate::updates::switch_texts(new, previous, on, name, on_text, off_text).contains(name + q)
            <==> (new == Some(on) && previous == Some(off) && q == on_text) || (new == Some(off)
            && previous == Some(on) && q == off_text),
{
    let s = crate::updates::switch_texts(new, previous, on, name, on_text, off_text);
    assert(name + on_text == name + q ==> on_text == q) by {
        assert(on_text =~= (name + on_text).skip(name.len() as int));
        assert(q =~= (name + q).skip(name.len() as int));
    }
    assert(name + off_text == name + q ==> off_text == q) by {
        assert(off_text =~= (name + off_text).skip(name.len() as int));
        assert(q =~= (name + q).skip(name.len() as int));
    }
    if crate::updates::differ(new, previous) {
        assert(s.len() == 1);
        if new == Some(on) {
            assert(s[0] == name + on_text);
        } else {
            assert(s[0] == name + off_text);
        }
    }
}

} // verus!
