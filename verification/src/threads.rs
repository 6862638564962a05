//! The threads that read texts out.
use vstd::prelude::*;

verus! {

/// Maximum number of texts read in parallel.
pub const MAX_TTS_PROCESSES: usize = 5;

/// The running threads. Before the plugin is ended, they have to be finished.
/// `H` is the handle of a thread. The saved number is used for identifying
/// threads because handles can't be compared.
pub struct TtsThreads<H> {
    pub threads: Vec<(H, usize)>,
    /// The number that was handed out last.
    pub last: usize,
}

/// What can happen to the list of threads.
pub enum ThreadEvent<H> {
    /// A text is to be read out; the thread for it would have this handle.
    Request(H),
    /// The thread with this number is done.
    Finish(usize),
    /// All threads are taken out.
    Shutdown,
}

pub struct TtsThreadsView<H> {
    pub threads: Seq<(H, usize)>,
    pub last: usize,
}

impl<H> View for TtsThreads<H> {
    type V = TtsThreadsView<H>;

    open spec fn view(&self) -> TtsThreadsView<H> {
        TtsThreadsView { threads: self.threads@, last: self.last }
    }
}

/// The number after `n`; after the largest one the count begins anew.
pub open spec fn next_number(n: usize) -> usize {
    if n == usize::MAX {
        0
    } else {
        (n + 1) as usize
    }
}

impl<H> TtsThreadsView<H> {
    /// Not too many texts are read at once.
    pub open spec fn wf(self) -> bool {
        self.threads.len() <= MAX_TTS_PROCESSES
    }

    pub open spec fn has_room(self) -> bool {
        self.threads.len() < MAX_TTS_PROCESSES
    }

    /// The numbers of the running threads, oldest first.
    pub open spec fn numbers(self) -> Seq<usize> {
        self.threads.map_values(|t: (H, usize)| t.1)
    }

    /// How many numbers were handed out after `number`.
    pub open spec fn age(self, number: usize) -> int {
        if number <= self.last {
            self.last - number
        } else {
            self.last - number + usize::MAX + 1
        }
    }

    /// The threads stand in the order in which their numbers were handed out.
    pub open spec fn in_order(self) -> bool {
        forall|i: int, j: int|
            0 <= i < j < self.threads.len() ==> self.age(#[trigger] self.threads[i].1) > self.age(
                #[trigger] self.threads[j].1,
            )
    }

    /// The count has not come round to the number of the oldest thread.
    pub open spec fn next_is_fresh(self) -> bool {
        self.threads.len() > 0 ==> self.age(self.threads[0].1) < usize::MAX
    }

    /// A thread was started and gave the handle `h`.
    pub open spec fn started(self, h: H) -> Self {
        TtsThreadsView {
            threads: self.threads.push((h, next_number(self.last))),
            last: next_number(self.last),
        }
    }

    /// A text was to be read out: a thread was started if there was room.
    pub open spec fn request(self, h: H) -> Self {
        if self.has_room() {
            self.started(h)
        } else {
            self
        }
    }

    /// Texts were to be read out one after the other; `handles` are those of the
    /// threads that would be started for them.
    pub open spec fn requested(self, handles: Seq<H>) -> Self
        decreases handles.len(),
    {
        if handles.len() == 0 {
            self
        } else {
            self.request(handles.first()).requested(handles.drop_first())
        }
    }

    /// The oldest thread with the given number is gone, if there is any.
    pub open spec fn finished(self, number: usize) -> Self {
        match self.numbers().index_of_first(number) {
            Some(i) => TtsThreadsView { threads: self.threads.remove(i), last: self.last },
            None => self,
        }
    }

    /// One event happened.
    pub open spec fn step(self, event: ThreadEvent<H>) -> Self {
        match event {
            ThreadEvent::Request(h) => self.request(h),
            ThreadEvent::Finish(number) => self.finished(number),
            ThreadEvent::Shutdown => self.drained(),
        }
    }

    /// Events happened one after the other.
    pub open spec fn after(self, events: Seq<ThreadEvent<H>>) -> Self
        decreases events.len(),
    {
        if events.len() == 0 {
            self
        } else {
            self.after(events.drop_last()).step(events.last())
        }
    }

    /// During the given events the count never came round to a running thread.
    pub open spec fn stays_fresh(self, events: Seq<ThreadEvent<H>>) -> bool
        decreases events.len(),
    {
        events.len() > 0 ==> {
            let before = self.after(events.drop_last());
            &&& self.stays_fresh(events.drop_last())
            &&& events.last() is Request && before.has_room() ==> before.next_is_fresh()
        }
    }

    /// The list at the beginning.
    pub open spec fn initial() -> Self {
        TtsThreadsView { threads: Seq::empty(), last: 0 }
    }

    /// No thread is left.
    pub open spec fn drained(self) -> Self {
        TtsThreadsView { threads: Seq::empty(), last: self.last }
    }
}

impl<H> TtsThreads<H> {
    /// Starts without any thread.
    pub fn new() -> (r: Self)
        ensures
            r@ == TtsThreadsView::<H>::initial(),
            r@.wf(),
    {
        let r: TtsThreads<H> = TtsThreads { threads: Vec::new(), last: 0 };
        assert(r@.threads =~= Seq::empty());
        r
    }

    /// Starts a thread with `spawn`, unless the maximum number of them is
    /// running. `spawn` gets the number of the new thread. Returns if a thread
    /// was started.
    pub fn tts<F: FnOnce(usize) -> H>(&mut self, spawn: F) -> (r: bool)
        requires
            old(self)@.has_room() ==> call_requires(spawn, (next_number(old(self)@.last),)),
        ensures
            old(self)@.wf() ==> final(self)@.wf(),
            r == old(self)@.has_room(),
            r ==> exists|h: H|
                call_ensures(spawn, (next_number(old(self)@.last),), h) && final(self)@
                    == #[trigger] old(self)@.started(h),
            !r ==> final(self)@ == old(self)@,
    {
        if self.threads.len() < MAX_TTS_PROCESSES {
            let thread_num: usize = self.last.wrapping_add(1);
            self.last = thread_num;
            let handle = spawn(thread_num);
            self.threads.push((handle, thread_num));
            assert(self@ == old(self)@.started(handle));
            true
        } else {
            false
        }
    }

    /// Removes a thread that is done from the list again, and returns its handle.
    pub fn finish(&mut self, number: usize) -> (r: Option<H>)
        ensures
            old(self)@.wf() ==> final(self)@.wf(),
            final(self)@ == old(self)@.finished(number),
            match old(self)@.numbers().index_of_first(number) {
                Some(i) => r == Some(old(self)@.threads[i].0),
                None => r is None,
            },
    {
        proof {
            self@.numbers().index_of_first_ensures(number);
        }
        let mut i: usize = 0;
        while i < self.threads.len()
            invariant
                *self == *old(self),
                i <= self.threads.len(),
                forall|j: int| 0 <= j < i ==> self@.numbers()[j] != number,
            decreases self.threads.len() - i,
        {
            if self.threads[i].1 == number {
                proof {
                    self@.numbers().index_of_first_ensures(number);
                    assert(self@.numbers()[i as int] == number);
                }
                let (handle, _) = self.threads.remove(i);
                return Some(handle);
            }
            i = i + 1;
        }
        None
    }

    /// Takes the handles of all running threads out of the list, oldest first.
    pub fn shutdown(&mut self) -> (r: Vec<H>)
        ensures
            final(self)@ == old(self)@.drained(),
            final(self)@.wf(),
            r@ == old(self)@.threads.map_values(|t: (H, usize)| t.0),
    {
        let mut handles: Vec<H> = Vec::new();
        while self.threads.len() > 0
            invariant
                self.last == old(self).last,
                handles.len() + self.threads.len() == old(self).threads.len(),
                forall|j: int| 0 <= j < handles.len() ==> handles[j] == old(self).threads[j].0,
                forall|j: int|
                    0 <= j < self.threads.len() ==> self.threads[j] == old(self).threads[j
                        + handles.len()],
            decreases self.threads.len(),
        {
            let (handle, _) = self.threads.remove(0);
            handles.push(handle);
        }
        assert(self@.threads =~= Seq::empty());
        assert(handles@ =~= old(self)@.threads.map_values(|t: (H, usize)| t.0));
        handles
    }
}

/// Numbers identify the running threads: no two of them share one.
pub proof fn law_numbers_identify_threads<H>(s: TtsThreadsView<H>)
    requires
        s.in_order(),
    ensures
        s.numbers().no_duplicates(),
{
    assert forall|i: int, j: int|
        0 <= i < s.numbers().len() && 0 <= j < s.numbers().len() && i != j implies s.numbers()[i]
        != s.numbers()[j] by {
        assert(s.numbers()[i] == s.threads[i].1);
        assert(s.numbers()[j] == s.threads[j].1);
    }
}

/// Without threads the order holds, and starting keeps it as long as the count
/// has not come round to a running thread.
pub proof fn law_starting_keeps_order<H>(s: TtsThreadsView<H>, h: H)
    ensures
        s.drained().in_order(),
        s.in_order() && s.next_is_fresh() ==> s.started(h).in_order(),
{
    if s.in_order() && s.next_is_fresh() {
        let t = s.started(h);
        assert forall|i: int| 0 <= i < s.threads.len() implies t.age(#[trigger] t.threads[i].1)
            == s.age(s.threads[i].1) + 1 by {
            assert(t.threads[i] == s.threads[i]);
            assert(s.age(s.threads[i].1) <= s.age(s.threads[0].1));
        }
    }
}

/// Finishing a thread keeps the order.
pub proof fn law_finishing_keeps_order<H>(s: TtsThreadsView<H>, number: usize)
    requires
        s.in_order(),
    ensures
        s.finished(number).in_order(),
{
    s.numbers().index_of_first_ensures(number);
    let t = s.finished(number);
    if let Some(k) = s.numbers().index_of_first(number) {
        assert forall|i: int, j: int| 0 <= i < j < t.threads.len() implies t.age(
            #[trigger] t.threads[i].1,
        ) > t.age(#[trigger] t.threads[j].1) by {
            let a = if i < k { i } else { i + 1 };
            let b = if j < k { j } else { j + 1 };
            assert(t.threads[i] == s.threads[a]);
            assert(t.threads[j] == s.threads[b]);
        }
    }
}

/// A thread that finishes takes its own entry out of the list and no other.
pub proof fn law_finishing_removes_own_entry<H>(s: TtsThreadsView<H>, i: int)
    requires
        s.in_order(),
        0 <= i < s.threads.len(),
    ensures
        s.finished(s.threads[i].1).threads == s.threads.remove(i),
{
    law_numbers_identify_threads(s);
    s.numbers().index_of_first_ensures(s.threads[i].1);
    assert(s.numbers()[i] == s.threads[i].1);
}

/// Once started and finished, a thread leaves the list as it was.
pub proof fn law_finishing_undoes_starting<H>(s: TtsThreadsView<H>, h: H)
    requires
        s.in_order(),
        s.next_is_fresh(),
    ensures
        s.started(h).finished(next_number(s.last)).threads == s.threads,
{
    let t = s.started(h);
    law_starting_keeps_order(s, h);
    law_finishing_removes_own_entry(t, s.threads.len() as int);
    assert(t.threads.remove(s.threads.len() as int) =~= s.threads);
}

/// A finished number is not in use any more.
pub proof fn law_finished_number_is_gone<H>(s: TtsThreadsView<H>, number: usize)
    requires
        s.in_order(),
    ensures
        !s.finished(number).numbers().contains(number),
{
    law_numbers_identify_threads(s);
    s.numbers().index_of_first_ensures(number);
    let t = s.finished(number);
    if let Some(k) = s.numbers().index_of_first(number) {
        assert forall|i: int| 0 <= i < t.numbers().len() implies t.numbers()[i] != number by {
            let a = if i < k { i } else { i + 1 };
            assert(t.threads[i] == s.threads[a]);
            assert(t.numbers()[i] == s.numbers()[a]);
        }
    }
}

/// While no thread finishes, texts are read in the order of their requests as long
/// as there is room, and the surplus is dropped.
pub proof fn law_surplus_is_dropped<H>(s: TtsThreadsView<H>, handles: Seq<H>)
    requires
        s.wf(),
    ensures
        s.requested(handles).wf(),
        s.requested(handles).threads.len() == if s.threads.len() + handles.len()
            <= MAX_TTS_PROCESSES {
            (s.threads.len() + handles.len()) as nat
        } else {
            MAX_TTS_PROCESSES as nat
        },
        s.threads.is_prefix_of(s.requested(handles).threads),
        forall|i: int|
            s.threads.len() <= i < s.requested(handles).threads.len()
                ==> #[trigger] s.requested(handles).threads[i].0 == handles[i - s.threads.len()],
    decreases handles.len(),
{
    if handles.len() > 0 {
        let rest = handles.drop_first();
        let next = s.request(handles.first());
        law_surplus_is_dropped(next, rest);
        assert(s.requested(handles) == next.requested(rest));
        let end = s.requested(handles).threads;
        assert forall|i: int| 0 <= i < s.threads.len() implies s.threads[i] == end[i] by {
            assert(next.threads[i] == s.threads[i]);
        }
        assert forall|i: int| s.threads.len() <= i < end.len() implies #[trigger] end[i].0
            == handles[i - s.threads.len()] by {
            if i == s.threads.len() {
                assert(next.threads[i].0 == handles[0]);
            }
        }
    }
}

/// Whatever happens from the beginning on, the limit is kept, and the numbers
/// identify the running threads as long as the count has not come round to one of
/// them.
pub proof fn law_every_state_is_in_order<H>(events: Seq<ThreadEvent<H>>)
    ensures
        ({
            let start = TtsThreadsView::<H>::initial();
            let s = start.after(events);
            &&& s.wf()
            &&& start.stays_fresh(events) ==> s.in_order() && s.numbers().no_duplicates()
        }),
    decreases events.len(),
{
    let start = TtsThreadsView::<H>::initial();
    if events.len() > 0 {
        law_every_state_is_in_order(events.drop_last());
        let before = start.after(events.drop_last());
        match events.last() {
            ThreadEvent::Request(h) => {
                law_starting_keeps_order(before, h);
            },
            ThreadEvent::Finish(number) => {
                before.numbers().index_of_first_ensures(number);
                if before.in_order() {
                    law_finishing_keeps_order(before, number);
                }
            },
            ThreadEvent::Shutdown => {},
        }
    }
    if start.after(events).in_order() {
        law_numbers_identify_threads(start.after(events));
    }
}

/// The count does not come round within as many events as there are numbers.
pub proof fn law_count_takes_long_to_come_round<H>(events: Seq<ThreadEvent<H>>)
    requires
        events.len() <= usize::MAX,
    ensures
        TtsThreadsView::<H>::initial().stays_fresh(events),
{
    lemma_numbers_count_up(events);
}

/// Before the count comes round, every running thread has a number from one up to
/// the last one, and the last one is no larger than the number of events.
proof fn lemma_numbers_count_up<H>(events: Seq<ThreadEvent<H>>)
    requires
        events.len() <= usize::MAX,
    ensures
        ({
            let s = TtsThreadsView::<H>::initial().after(events);
            &&& TtsThreadsView::<H>::initial().stays_fresh(events)
            &&& s.last <= events.len()
            &&& forall|i: int|
                0 <= i < s.threads.len() ==> 0 < #[trigger] s.threads[i].1 <= s.last
        }),
    decreases events.len(),
{
    if events.len() > 0 {
        lemma_numbers_count_up(events.drop_last());
        let s = TtsThreadsView::<H>::initial().after(events.drop_last());
        let t = s.step(events.last());
        assert(t == TtsThreadsView::<H>::initial().after(events));
        if let ThreadEvent::Finish(number) = events.last() {
            s.numbers().index_of_first_ensures(number);
            if let Some(k) = s.numbers().index_of_first(number) {
                assert forall|i: int| 0 <= i < t.threads.len() implies 0 < #[trigger]
                    t.threads[i].1 <= t.last by {
                    let a = if i < k { i } else { i + 1 };
                    assert(t.threads[i] == s.threads[a]);
                }
            }
        }
    }
}

} // verus!
