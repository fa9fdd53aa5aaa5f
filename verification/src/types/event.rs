use vstd::prelude::*;
use crate::time::Instant;
use crate::types::action::Action;

verus! {

/// One scheduled piece of work: an [`Action`] bound to the instant at which
/// it becomes due, optionally annotated with the value a read produced.
///
/// Events are held by a [`crate::Scheduler`], which moves each one from its
/// pending list to its fired history exactly once.
#[derive(Debug)]
pub struct Event {
    pub action: Action,
    /// The value read from the input, set only while handling a read event.
    pub value: Option<String>,
    pub timestamp: Instant,
}

impl Event {
    /// A fresh event for `action`, due at `timestamp`, with no value yet.
    pub fn new(action: Action, timestamp: Instant) -> (r: Event)
        ensures
            r == (Event { action, value: None, timestamp }),
    {
        Event { action, value: None, timestamp }
    }

    /// True when the event is due at `time`: its timestamp is at or before
    /// `time`. The comparison is non-strict, so an overdue event still fires
    /// at the first poll that reaches it.
    pub open spec fn spec_should_execute(self, time: Instant) -> bool {
        self.timestamp.millis <= time.millis
    }

    /// True when the event should be executed at `time`.
    pub fn should_execute(&self, time: Instant) -> (r: bool)
        ensures
            r == self.spec_should_execute(time),
    {
        self.timestamp.millis <= time.millis
    }

    /// The action bound to this event.
    pub fn get_action(&self) -> (r: Action)
        ensures
            r == self.action,
    {
        self.action
    }

    /// The value recorded on this event, if any.
    pub fn get_value(&self) -> (r: &Option<String>)
        ensures
            *r == self.value,
    {
        &self.value
    }

    /// The instant at which this event comes due.
    pub fn get_timestamp(&self) -> (r: &Instant)
        ensures
            *r == self.timestamp,
    {
        &self.timestamp
    }

    /// Record the value a read produced.
    pub fn set_value(&mut self, value: String)
        ensures
            *final(self) == (Event { value: Some(value), ..*old(self) }),
    {
        self.value = Some(value);
    }
}

impl Clone for Event {
    /// An exact copy of the event.
    fn clone(&self) -> (r: Event)
        ensures
            r == *self,
    {
        Event {
            action: self.action,
            value: match &self.value {
                Some(s) => Some(s.clone()),
                None => None,
            },
            timestamp: self.timestamp,
        }
    }
}

} // verus!
