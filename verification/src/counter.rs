//! The in-flight request counter: a single shared integer incremented on
//! request entry and decremented on request exit, read for statistics
//! only. It imposes no admission control; its one invariant is that it
//! never goes below zero, and that balanced enter/exit pairs return it to
//! where it started.
use vstd::prelude::*;

verus! {

/// One step of a request lifecycle as seen by the counter.
#[derive(Debug, Clone, Copy, PartialEq, Eq, Structural)]
pub enum CounterEvent {
    Enter,
    Exit,
}

/// The advisory count of requests currently in flight.
pub struct InFlightCounter {
    pub count: usize,
}

impl InFlightCounter {
    /// The current count, as seen in contracts.
    pub open spec fn spec_count(&self) -> nat {
        self.count as nat
    }

    /// A fresh counter with nothing in flight.
    pub fn new() -> (r: InFlightCounter)
        ensures
            r.spec_count() == 0,
    {
        InFlightCounter { count: 0 }
    }

    /// Records a request entering; runs once at the start of each
    /// request lifecycle.
    pub fn enter(&mut self)
        requires
            old(self).spec_count() < usize::MAX,
        ensures
            final(self).spec_count() == old(self).spec_count() + 1,
    {
        self.count = self.count + 1;
    }

    /// Records a request leaving; runs exactly once per `enter`, on
    /// every exit path. The count can never fall below zero, so an exit
    /// presupposes a matching entry.
    pub fn exit(&mut self)
        requires
            old(self).spec_count() > 0,
        ensures
            final(self).spec_count() == old(self).spec_count() - 1,
    {
        self.count = self.count - 1;
    }

    /// A non-blocking read of the current count, advisory only.
    pub fn snapshot(&self) -> (r: usize)
        ensures
            r == self.spec_count(),
    {
        self.count
    }

    /// Applies one lifecycle event.
    pub fn apply(&mut self, e: CounterEvent)
        requires
            e is Enter ==> old(self).spec_count() < usize::MAX,
            e is Exit ==> old(self).spec_count() > 0,
        ensures
            final(self).spec_count() == spec_apply_event(old(self).spec_count() as int, e),
    {
        match e {
            CounterEvent::Enter => self.enter(),
            CounterEvent::Exit => self.exit(),
        }
    }
}

/// The count after one event.
pub open spec fn spec_apply_event(c: int, e: CounterEvent) -> int {
    match e {
        CounterEvent::Enter => c + 1,
        CounterEvent::Exit => c - 1,
    }
}

/// The count after a sequence of events, applied left to right.
pub open spec fn spec_count_after(c: int, events: Seq<CounterEvent>) -> int
    decreases events.len(),
{
    if events.len() == 0 {
        c
    } else {
        spec_apply_event(spec_count_after(c, events.drop_last()), events.last())
    }
}

/// The number of events of one kind in a sequence.
pub open spec fn spec_count_of(events: Seq<CounterEvent>, e: CounterEvent) -> int {
    events.filter(|x: CounterEvent| x == e).len() as int
}

/// The net effect of a sequence of events is the number of entries minus
/// the number of exits, wherever the count started.
pub proof fn lemma_count_after_is_net(c: int, events: Seq<CounterEvent>)
    ensures
        spec_count_after(c, events) == c + spec_count_of(events, CounterEvent::Enter)
            - spec_count_of(events, CounterEvent::Exit),
    decreases events.len(),
{
    reveal(Seq::filter);
    if events.len() > 0 {
        let rest = events.drop_last();
        lemma_count_after_is_net(c, rest);
        assert(events.filter(|x: CounterEvent| x == CounterEvent::Enter) == if events.last()
            == CounterEvent::Enter {
            rest.filter(|x: CounterEvent| x == CounterEvent::Enter).push(events.last())
        } else {
            rest.filter(|x: CounterEvent| x == CounterEvent::Enter)
        });
        assert(events.filter(|x: CounterEvent| x == CounterEvent::Exit) == if events.last()
            == CounterEvent::Exit {
            rest.filter(|x: CounterEvent| x == CounterEvent::Exit).push(events.last())
        } else {
            rest.filter(|x: CounterEvent| x == CounterEvent::Exit)
        });
    }
}

/// The balance law: after any interleaving of request lifecycles in
/// which every entry is matched by an exit - as a scoped enter/exit pair
/// guarantees - the counter reads exactly what it started at; started at
/// zero, it returns to zero.
pub proof fn lemma_balanced_lifecycles(c: int, events: Seq<CounterEvent>)
    requires
        spec_count_of(events, CounterEvent::Enter) == spec_count_of(events, CounterEvent::Exit),
    ensures
        spec_count_after(c, events) == c,
{
    lemma_count_after_is_net(c, events);
}

} // verus!
