//! How one text is read out: `espeak` turns it into sound, `aplay` plays that.
//! The output of `espeak` is piped into `aplay` because `espeak` itself produces
//! stuttering sometimes.
use vstd::prelude::*;

verus! {

/// What a thread that reads a text out does with the two processes.
#[derive(Clone, Copy, Debug, PartialEq, Eq, Structural)]
pub enum Action {
    /// Start `espeak` on the text.
    StartEspeak,
    /// Start `aplay` on the output of `espeak`.
    StartAplay,
    /// Wait until `aplay` has ended.
    WaitForAplay,
    /// Wait until `espeak` has ended.
    WaitForEspeak,
}

impl Action {
    /// What comes after an action that went well (`ok`) or failed. After `None`
    /// the thread is done.
    pub open spec fn next(self, ok: bool) -> Option<Action> {
        match self {
            Action::StartEspeak => if ok {
                Some(Action::StartAplay)
            } else {
                None
            },
            Action::StartAplay => if ok {
                Some(Action::WaitForAplay)
            } else {
                Some(Action::WaitForEspeak)
            },
            Action::WaitForAplay => Some(Action::WaitForEspeak),
            Action::WaitForEspeak => None,
        }
    }

    /// The log line for an action that failed with `error`.
    pub open spec fn failure_line(self, error: Seq<char>, message: Seq<char>) -> Seq<char> {
        match self {
            Action::StartEspeak => "Couldn't read '"@ + message + "'"@,
            Action::StartAplay => "Can't start aplay process because "@ + error,
            Action::WaitForAplay => "Can't wait for aplay process because "@ + error,
            Action::WaitForEspeak => "Can't wait for espeak process because "@ + error,
        }
    }

    /// How many actions can follow at most, this one counted.
    pub open spec fn remaining(self) -> nat {
        match self {
            Action::StartEspeak => 4,
            Action::StartAplay => 3,
            Action::WaitForAplay => 2,
            Action::WaitForEspeak => 1,
        }
    }

    /// All actions from this one on, where `ok` tells which of them go well.
    pub open spec fn run(self, ok: spec_fn(Action) -> bool) -> Seq<Action>
        decreases self.remaining(),
    {
        match self.next(ok(self)) {
            Some(action) => seq![self] + action.run(ok),
            None => seq![self],
        }
    }
}

/// Decides what follows an action, given its error if it failed. Returns the next
/// action, or `None` where the thread is done, and a line for the log.
pub fn next_action(action: Action, error: Option<&str>, message: &str) -> (r: (
    Option<Action>,
    Option<String>,
))
    ensures
        r.0 == action.next(error is None),
        crate::text::text(r.1) == match error {
            Some(error) => Some(action.failure_line(error@, message@)),
            None => None,
        },
{
    match (action, error) {
        (Action::StartEspeak, None) => (Some(Action::StartAplay), None),
        (Action::StartEspeak, Some(_)) => (
            None,
            Some("Couldn't read '".to_owned().concat(message).concat("'")),
        ),
        (Action::StartAplay, None) => (Some(Action::WaitForAplay), None),
        (Action::StartAplay, Some(error)) => (
            Some(Action::WaitForEspeak),
            Some("Can't start aplay process because ".to_owned().concat(error)),
        ),
        (Action::WaitForAplay, None) => (Some(Action::WaitForEspeak), None),
        (Action::WaitForAplay, Some(error)) => (
            Some(Action::WaitForEspeak),
            Some("Can't wait for aplay process because ".to_owned().concat(error)),
        ),
        (Action::WaitForEspeak, None) => (None, None),
        (Action::WaitForEspeak, Some(error)) => (
            None,
            Some("Can't wait for espeak process because ".to_owned().concat(error)),
        ),
    }
}

/// The arguments that `espeak` is started with. The message comes after `--`, so
/// it is never taken for an option.
pub fn espeak_arguments(message: &str) -> (r: Vec<String>)
    ensures
        crate::text::texts(r@) == seq!["-ven+f2"@, "-s150"@, "--stdout"@, "--"@, message@],
{
    let mut arguments: Vec<String> = Vec::new();
    arguments.push("-ven+f2".to_owned());
    arguments.push("-s150".to_owned());
    arguments.push("--stdout".to_owned());
    arguments.push("--".to_owned());
    arguments.push(message.to_owned());
    assert(crate::text::texts(arguments@) =~= seq![
        "-ven+f2"@,
        "-s150"@,
        "--stdout"@,
        "--"@,
        message@,
    ]);
    arguments
}

/// Every action is followed by fewer actions, so each thread ends.
pub proof fn law_playback_ends(action: Action, ok: bool)
    ensures
        action.next(ok) matches Some(next) ==> next.remaining() < action.remaining(),
{
}

/// Whatever fails, a process that was started is waited for, a process that was
/// not started is not, and no action is done twice.
pub proof fn law_started_processes_are_waited_for(ok: spec_fn(Action) -> bool)
    ensures
        ({
            let run = Action::StartEspeak.run(ok);
            let espeak_started = ok(Action::StartEspeak);
            let aplay_started = espeak_started && ok(Action::StartAplay);
            &&& run.contains(Action::WaitForEspeak) <==> espeak_started
            &&& run.contains(Action::WaitForAplay) <==> aplay_started
            &&& run.contains(Action::StartAplay) <==> espeak_started
            &&& run.no_duplicates()
        }),
{
    reveal_with_fuel(Action::run, 5);
    let run = Action::StartEspeak.run(ok);
    if ok(Action::StartEspeak) {
        assert(run[1] == Action::StartAplay);
        if ok(Action::StartAplay) {
            assert(run[2] == Action::WaitForAplay);
            assert(run[3] == Action::WaitForEspeak);
        } else {
            assert(run[2] == Action::WaitForEspeak);
        }
    }
}

} // verus!
