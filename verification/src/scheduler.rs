//! Pending and fired event bookkeeping for one controller.

use vstd::prelude::*;
use crate::time::Instant;
use crate::types::{Action, Event};

verus! {

/// True when some event of `s` is due at `time`.
pub open spec fn spec_has_due(s: Seq<Event>, time: Instant) -> bool {
    exists|i: int| 0 <= i < s.len() && s[i].spec_should_execute(time)
}

/// The position of the first event of `s` that is due at `time`, or `s.len()`
/// when none is. Ties among several due events are broken by insertion order,
/// not by timestamp.
pub open spec fn spec_first_due(s: Seq<Event>, time: Instant) -> int
    decreases s.len(),
{
    if s.len() == 0 {
        0
    } else if s[0].spec_should_execute(time) {
        0
    } else {
        1 + spec_first_due(s.subrange(1, s.len() as int), time)
    }
}

/// What `spec_first_due` finds: an index into `s` pointing at a due event
/// with nothing due before it, or `s.len()` exactly when nothing is due.
pub proof fn lemma_first_due(s: Seq<Event>, time: Instant)
    ensures
        0 <= spec_first_due(s, time) <= s.len(),
        spec_has_due(s, time) <==> spec_first_due(s, time) < s.len(),
        spec_first_due(s, time) < s.len() ==> s[spec_first_due(s, time)].spec_should_execute(time),
        forall|j: int| 0 <= j < spec_first_due(s, time) ==> !(#[trigger] s[j].spec_should_execute(time)),
    decreases s.len(),
{
    if s.len() == 0 {
    } else if s[0].spec_should_execute(time) {
    } else {
        let rest = s.subrange(1, s.len() as int);
        lemma_first_due(rest, time);
        assert(forall|i: int| 0 <= i < rest.len() ==> rest[i] == s[i + 1]);
        if spec_has_due(rest, time) {
            let i = choose|i: int| 0 <= i < rest.len() && rest[i].spec_should_execute(time);
            assert(s[i + 1].spec_should_execute(time));
        }
        if spec_has_due(s, time) {
            let i = choose|i: int| 0 <= i < s.len() && s[i].spec_should_execute(time);
            assert(i >= 1 && rest[i - 1].spec_should_execute(time));
        }
        assert forall|j: int| 0 <= j < spec_first_due(s, time) implies !(s[j].spec_should_execute(
            time,
        )) by {
            if j >= 1 {
                assert(rest[j - 1] == s[j]);
                assert(!rest[j - 1].spec_should_execute(time));
            }
        }
    }
}

/// Holds one controller's future events and its fired history.
///
/// The scheduler only decides *when* a pending event should be executed;
/// choosing *what* to schedule is the owning controller's business. An event
/// moves from the pending list to the fired history exactly once and never
/// back, so the two lists never share an event.
#[derive(Debug)]
pub struct Scheduler {
    /// Events that should be executed in the future, in insertion order.
    future_events: Vec<Event>,
    /// Events that have been executed, oldest first.
    events: Vec<Event>,
}

impl Scheduler {
    /// The events still waiting to fire, in insertion order.
    pub closed spec fn pending(&self) -> Seq<Event> {
        self.future_events@
    }

    /// The events that have fired, oldest first.
    pub closed spec fn fired(&self) -> Seq<Event> {
        self.events@
    }

    /// A scheduler with no pending events and an empty history.
    pub fn new() -> (r: Scheduler)
        ensures
            r.pending() == Seq::<Event>::empty(),
            r.fired() == Seq::<Event>::empty(),
    {
        Scheduler { future_events: Vec::new(), events: Vec::new() }
    }

    /// True if any event is still waiting to fire.
    pub fn has_future_events(&self) -> (r: bool)
        ensures
            r == (self.pending().len() > 0),
    {
        self.future_events.len() > 0
    }

    /// Append a pending `On` event due at `timestamp`.
    ///
    /// Nothing is deduplicated or validated: scheduling the same action and
    /// time twice yields two independently fireable events, and `timestamp`
    /// may already be in the past.
    pub fn schedule_on(&mut self, timestamp: Instant)
        ensures
            final(self).pending()
                == old(self).pending().push(Event { action: Action::On, value: None, timestamp }),
            final(self).fired() == old(self).fired(),
    {
        let event = Event::new(Action::On, timestamp);
        self.future_events.push(event);
    }

    /// Append a pending `Off` event due at `timestamp`.
    pub fn schedule_off(&mut self, timestamp: Instant)
        ensures
            final(self).pending()
                == old(self).pending().push(Event { action: Action::Off, value: None, timestamp }),
            final(self).fired() == old(self).fired(),
    {
        let event = Event::new(Action::Off, timestamp);
        self.future_events.push(event);
    }

    /// Append a pending `Read` event due at `timestamp`.
    pub fn schedule_read(&mut self, timestamp: Instant)
        ensures
            final(self).pending()
                == old(self).pending().push(Event { action: Action::Read, value: None, timestamp }),
            final(self).fired() == old(self).fired(),
    {
        let event = Event::new(Action::Read, timestamp);
        self.future_events.push(event);
    }

    /// Fire the first pending event that is due at `time`, if any.
    ///
    /// The fired event is removed from the pending list, appended to the
    /// fired history, and returned; at most one event fires per call, and
    /// the total pending plus fired count is conserved. When nothing is due
    /// the scheduler is left untouched and `None` is returned, which is a
    /// normal outcome, not an error.
    pub fn attempt_execution(&mut self, time: Instant) -> (r: Option<Event>)
        ensures
            ({
                let s = old(self).pending();
                if spec_has_due(s, time) {
                    let i = spec_first_due(s, time);
                    &&& r == Some(s[i])
                    &&& final(self).pending() == s.remove(i)
                    &&& final(self).fired() == old(self).fired().push(s[i])
                } else {
                    &&& r is None
                    &&& *final(self) == *old(self)
                }
            }),
            final(self).pending().len() + final(self).fired().len()
                == old(self).pending().len() + old(self).fired().len(),
    {
        let n: usize = self.future_events.len();
        let mut i: usize = 0;
        while i < n
            invariant
                n == self.future_events.len(),
                0 <= i <= n,
                *self == *old(self),
                forall|j: int| 0 <= j < i ==> !(#[trigger] self.future_events@[j].spec_should_execute(time)),
            decreases n - i,
        {
            if self.future_events[i].should_execute(time) {
                proof {
                    let s = old(self).pending();
                    lemma_first_due(s, time);
                    let f = spec_first_due(s, time);
                    assert(s[i as int].spec_should_execute(time));
                    assert(spec_has_due(s, time));
                    if f < i as int {
                        assert(!(self.future_events@[f].spec_should_execute(time)));
                        assert(false);
                    }
                    if f > i as int {
                        assert(!(s[i as int].spec_should_execute(time)));
                        assert(false);
                    }
                }
                let event = self.future_events.remove(i);
                self.events.push(event.clone());
                return Some(event);
            }
            i = i + 1;
        }
        proof {
            lemma_first_due(old(self).pending(), time);
            if spec_has_due(old(self).pending(), time) {
                let w = choose|w: int|
                    0 <= w < old(self).pending().len()
                        && old(self).pending()[w].spec_should_execute(time);
                assert(!old(self).pending()[w].spec_should_execute(time));
            }
        }
        None
    }

    /// The events still waiting to fire, in insertion order.
    pub fn get_future_events(&self) -> (r: &Vec<Event>)
        ensures
            r@ == self.pending(),
    {
        &self.future_events
    }

    /// The events that have fired, oldest first. The history grows without
    /// bound: fired events are retained until the scheduler is dropped.
    pub fn get_events(&self) -> (r: &Vec<Event>)
        ensures
            r@ == self.fired(),
    {
        &self.events
    }
}

impl Default for Scheduler {
    /// Same as [`Scheduler::new`].
    fn default() -> (r: Scheduler)
        ensures
            r.pending() == Seq::<Event>::empty(),
            r.fired() == Seq::<Event>::empty(),
    {
        Scheduler::new()
    }
}

/// The due-check is monotone in the query time: an event due at `t1` is due
/// at any later `t2`, so an infrequently polled controller still fires an
/// overdue event at the first poll that reaches it.
pub proof fn lemma_due_check_monotonic(e: Event, t1: Instant, t2: Instant)
    requires
        t1.millis <= t2.millis,
        e.spec_should_execute(t1),
    ensures
        e.spec_should_execute(t2),
{
}

/// Whole-list monotonicity: when a pending list holds a due event at `t1`,
/// it still holds one at any later `t2`, so a poll that would fire keeps
/// firing at every later poll until the event is consumed.
pub proof fn lemma_has_due_monotonic(s: Seq<Event>, t1: Instant, t2: Instant)
    requires
        t1.millis <= t2.millis,
        spec_has_due(s, t1),
    ensures
        spec_has_due(s, t2),
{
    let i = choose|i: int| 0 <= i < s.len() && s[i].spec_should_execute(t1);
    lemma_due_check_monotonic(s[i], t1, t2);
}

/// Firing consumes the fired instance: after the first due event leaves the
/// pending list, the list holds one fewer copy of it, so repeated polling at
/// the same instant fires a given event at most once.
pub proof fn lemma_fired_event_leaves_pending(s: Seq<Event>, time: Instant)
    requires
        spec_has_due(s, time),
    ensures
        ({
            let i = spec_first_due(s, time);
            s.remove(i).to_multiset().count(s[i]) == s.to_multiset().count(s[i]) - 1
        }),
{
    broadcast use vstd::seq_lib::group_to_multiset_ensures;

    lemma_first_due(s, time);
    let i = spec_first_due(s, time);
    assert(s.remove(i).to_multiset() =~= s.to_multiset().remove(s[i]));
    assert(s.to_multiset().contains(s[i])) by {
        assert(s.contains(s[i]));
    }
}

} // verus!
