//! Laws of the threads that read texts out and of the processes they run.
use crate::playback::{espeak_arguments, next_action, Action};
use crate::threads::TtsThreads;
use vstd::prelude::*;

verus! {

/// In the beginning nothing is running and no number is handed out.
pub proof fn law_beginning<H>(r: TtsThreads<H>)
    requires
        call_ensures(TtsThreads::<H>::new, (), r),
    ensures
        r.threads@.len() == 0,
        r.last == 0,
{
}

/// A text is read out if and only if fewer than five others are. Then its thread
/// comes last, with the handle that was given for its number, and the others stay.
/// Otherwise nothing changes.
pub proof fn law_starting<H, F: FnOnce(usize) -> H>(t: &mut TtsThreads<H>, spawn: F, r: bool)
    requires
        call_ensures(TtsThreads::<H>::tts::<F>, (t, spawn), r),
    ensures
        r <==> old(t).threads@.len() < 5,
        !r ==> final(t).threads@ == old(t).threads@ && final(t).last == old(t).last,
        r ==> final(t).threads@.drop_last() == old(t).threads@,
        r ==> final(t).threads@.last().1 == final(t).last,
        r ==> call_ensures(spawn, (final(t).last,), final(t).threads@.last().0),
{
    if r {
        assert(final(t).threads@.drop_last() =~= old(t).threads@);
    }
}

/// Numbers count up by one; after the largest one they begin anew.
pub proof fn law_numbers_count_up<H, F: FnOnce(usize) -> H>(
    t: &mut TtsThreads<H>,
    spawn: F,
    r: bool,
)
    requires
        r,
        call_ensures(TtsThreads::<H>::tts::<F>, (t, spawn), r),
    ensures
        final(t).last as int == (old(t).last + 1) % (usize::MAX + 1),
{
    assert((usize::MAX + 1) % (usize::MAX + 1) == 0) by (nonlinear_arith);
    if old(t).last < usize::MAX {
        vstd::arithmetic::div_mod::lemma_small_mod(
            (old(t).last + 1) as nat,
            (usize::MAX + 1) as nat,
        );
    }
}

/// Finishing takes out the oldest thread with the number and hands out its handle;
/// the others stay, in their order. A number that is not in use changes nothing.
pub proof fn law_finishing<H>(t: &mut TtsThreads<H>, number: usize, r: Option<H>)
    requires
        call_ensures(TtsThreads::<H>::finish, (t, number), r),
    ensures
        final(t).last == old(t).last,
        r is Some <==> exists|i: int|
            0 <= i < old(t).threads@.len() && #[trigger] old(t).threads@[i].1 == number,
        r is None ==> final(t).threads@ == old(t).threads@,
        r is Some ==> exists|i: int|
            {
                &&& 0 <= i < old(t).threads@.len()
                &&& #[trigger] old(t).threads@[i] == (r->0, number)
                &&& forall|j: int| 0 <= j < i ==> #[trigger] old(t).threads@[j].1 != number
                &&& final(t).threads@ == old(t).threads@.remove(i)
            },
{
    let numbers = old(t)@.numbers();
    numbers.index_of_first_ensures(number);
    assert forall|i: int| 0 <= i < old(t).threads@.len() implies #[trigger] old(t).threads@[i].1
        == numbers[i] by {}
    if let Some(i) = numbers.index_of_first(number) {
        assert(old(t).threads@[i] == (r->0, number));
    }
}

/// A thread that starts and then finishes leaves the list as it was, unless its
/// number was in use before.
pub proof fn law_starting_and_finishing<H, F: FnOnce(usize) -> H>(
    before: &mut TtsThreads<H>,
    spawn: F,
    after: &mut TtsThreads<H>,
    r: Option<H>,
)
    requires
        call_ensures(TtsThreads::<H>::tts::<F>, (before, spawn), true),
        old(after).threads@ == final(before).threads@,
        old(after).last == final(before).last,
        call_ensures(TtsThreads::<H>::finish, (after, final(before).last), r),
        forall|i: int|
            0 <= i < old(before).threads@.len() ==> #[trigger] old(before).threads@[i].1
                != final(before).last,
    ensures
        final(after).threads@ == old(before).threads@,
        r == Some(final(before).threads@.last().0),
{
    let number = final(before).last;
    let n = old(before).threads@.len() as int;
    let list = old(after).threads@;
    let numbers = old(after)@.numbers();
    numbers.index_of_first_ensures(number);
    assert(list.drop_last() =~= old(before).threads@);
    assert(numbers[n] == number);
    assert forall|i: int| 0 <= i < n implies numbers[i] != number by {
        assert(list.drop_last()[i] == old(before).threads@[i]);
    }
    assert(list.remove(n) =~= old(before).threads@);
}

/// The end hands out the handles of all threads, oldest first, and leaves none.
pub proof fn law_end<H>(t: &mut TtsThreads<H>, r: Vec<H>)
    requires
        call_ensures(TtsThreads::<H>::shutdown, (t,), r),
    ensures
        final(t).threads@.len() == 0,
        final(t).last == old(t).last,
        r@.len() == old(t).threads@.len(),
        forall|i: int| 0 <= i < r@.len() ==> #[trigger] r@[i] == old(t).threads@[i].0,
{
}

/// Where all goes well, `espeak` is started, then `aplay`; then `aplay` is waited
/// for, then `espeak`. Nothing is logged.
pub proof fn law_good_run(
    message: &str,
    a: (Option<Action>, Option<String>),
    b: (Option<Action>, Option<String>),
    c: (Option<Action>, Option<String>),
    d: (Option<Action>, Option<String>),
)
    requires
        call_ensures(next_action, (Action::StartEspeak, None::<&str>, message), a),
        a.0 is Some ==> call_ensures(next_action, (a.0->0, None::<&str>, message), b),
        b.0 is Some ==> call_ensures(next_action, (b.0->0, None::<&str>, message), c),
        c.0 is Some ==> call_ensures(next_action, (c.0->0, None::<&str>, message), d),
    ensures
        a.0 == Some(Action::StartAplay),
        b.0 == Some(Action::WaitForAplay),
        c.0 == Some(Action::WaitForEspeak),
        d.0 is None,
        a.1 is None && b.1 is None && c.1 is None && d.1 is None,
{
}

/// Without `espeak` there is nothing left to do. Any other failure leads to waiting
/// for `espeak`, or to the end if that is what failed.
pub proof fn law_failures(
    action: Action,
    error: &str,
    message: &str,
    r: (Option<Action>, Option<String>),
)
    requires
        call_ensures(next_action, (action, Some(error), message), r),
    ensures
        r.0 is None <==> action == Action::StartEspeak || action == Action::WaitForEspeak,
        r.0 is Some ==> r.0 == Some(Action::WaitForEspeak),
{
}

/// Each failure is logged: the text that could not be read, or what failed and the
/// whole error.
pub proof fn law_failures_are_logged(
    error: &str,
    message: &str,
    start_espeak: (Option<Action>, Option<String>),
    start_aplay: (Option<Action>, Option<String>),
    wait_aplay: (Option<Action>, Option<String>),
    wait_espeak: (Option<Action>, Option<String>),
)
    requires
        call_ensures(next_action, (Action::StartEspeak, Some(error), message), start_espeak),
        call_ensures(next_action, (Action::StartAplay, Some(error), message), start_aplay),
        call_ensures(next_action, (Action::WaitForAplay, Some(error), message), wait_aplay),
        call_ensures(next_action, (Action::WaitForEspeak, Some(error), message), wait_espeak),
    ensures
        start_espeak.1 is Some && start_aplay.1 is Some,
        wait_aplay.1 is Some && wait_espeak.1 is Some,
        start_espeak.1->0@ == "Couldn't read '"@ + message@ + "'"@,
        start_aplay.1->0@ == "Can't start aplay process because "@ + error@,
        wait_aplay.1->0@ == "Can't wait for aplay process because "@ + error@,
        wait_espeak.1->0@ == "Can't wait for espeak process because "@ + error@,
{
}

/// The message is the last argument of `espeak`, in full and after `--`; the ones
/// before do not depend on it.
pub proof fn law_arguments(message: &str, other: &str, r: Vec<String>, s: Vec<String>)
    requires
        call_ensures(espeak_arguments, (message,), r),
        call_ensures(espeak_arguments, (other,), s),
    ensures
        r@.len() == 5 && s@.len() == 5,
        r@[4]@ == message@,
        r@[3]@ == "--"@,
        r@[2]@ == "--stdout"@,
        r@[1]@ == "-s150"@,
        r@[0]@ == "-ven+f2"@,
        forall|i: int| 0 <= i < 4 ==> (#[trigger] r@[i])@ == s@[i]@,
{
    let a = crate::text::texts(r@);
    let b = crate::text::texts(s@);
    assert(a.len() == 5 && b.len() == 5);
    assert forall|i: int| 0 <= i < 5 implies (#[trigger] r@[i])@ == a[i] by {}
    assert forall|i: int| 0 <= i < 5 implies (#[trigger] s@[i])@ == b[i] by {}
}

} // verus!
