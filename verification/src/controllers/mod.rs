//! Controller state machines with defined scheduling.
//!
//! Each controller owns a scheduler and performs reads or drives outputs
//! when a scheduled event comes due. Most controllers operate on intervals;
//! the timed output instead anchors to a wall-clock time of day. Polling a
//! controller evaluates whether an action is due and, when one fires,
//! returns a [`Message`] for logging.

use vstd::prelude::*;
use crate::time::{Instant, MAX_INSTANT_MILLIS};
use crate::types::Message;

mod threshold;
mod bidirectional;
mod timed;

pub use threshold::Threshold;
pub use bidirectional::{BidirectionalThreshold, Zone};
pub use bidirectional::spec_zone;
pub use timed::TimedOutput;
pub use timed::{spec_next_on_millis, spec_off_millis};

verus! {

/// A typed controller failure.
///
/// A failure aborts the poll that encountered it but leaves the controller
/// usable, so one faulty sensor does not halt the rest of a group.
#[derive(Debug)]
pub enum ControlError {
    /// The input produced text that is not a decimal reading.
    MalformedReading {
        /// The text the sensor reported.
        text: String,
    },
}

/// The name a controller stamps on its messages: its own name, or empty
/// when it was never named.
pub open spec fn spec_name_or_empty(name: Option<Seq<char>>) -> Seq<char> {
    match name {
        Some(s) => s,
        None => Seq::<char>::empty(),
    }
}

/// One controller of any kind, ready to be held in a
/// [`crate::ControllerGroup`].
///
/// The kinds form a closed set; a group member is reached only through the
/// name and poll capabilities below, so the concrete kind is immaterial to
/// the group.
pub enum Controller {
    /// A [`Threshold`] controller.
    Threshold(Threshold),
    /// A [`BidirectionalThreshold`] controller.
    BidirectionalThreshold(BidirectionalThreshold),
    /// A [`TimedOutput`] controller.
    TimedOutput(TimedOutput),
}

impl Controller {
    /// Validity of the wrapped controller.
    pub open spec fn wf(&self) -> bool {
        match self {
            Controller::Threshold(c) => c.wf(),
            Controller::BidirectionalThreshold(c) => c.wf(),
            Controller::TimedOutput(c) => c.wf(),
        }
    }

    /// The wrapped controller's name, if one was set.
    pub open spec fn spec_name(&self) -> Option<Seq<char>> {
        match self {
            Controller::Threshold(c) => c.spec_name(),
            Controller::BidirectionalThreshold(c) => c.spec_name(),
            Controller::TimedOutput(c) => c.spec_name(),
        }
    }

    /// What one poll call does to a controller of whatever kind: the
    /// wrapped controller's own transition, with the kind unchanged.
    pub open spec fn poll_transition(
        pre: Controller,
        post: Controller,
        time: Instant,
        r: Result<Option<Message>, ControlError>,
    ) -> bool {
        match (pre, post) {
            (Controller::Threshold(a), Controller::Threshold(b)) => Threshold::poll_transition(
                a,
                b,
                time,
                r,
            ),
            (
                Controller::BidirectionalThreshold(a),
                Controller::BidirectionalThreshold(b),
            ) => BidirectionalThreshold::poll_transition(a, b, time, r),
            (Controller::TimedOutput(a), Controller::TimedOutput(b)) => TimedOutput::poll_transition(
                a,
                b,
                time,
                r,
            ),
            _ => false,
        }
    }

    /// Name the controller; the name is stamped on every message it emits.
    pub fn set_name(&mut self, name: String)
        ensures
            final(self).spec_name() == Some(name@),
            old(self).wf() ==> final(self).wf(),
    {
        match self {
            Controller::Threshold(c) => c.set_name(name),
            Controller::BidirectionalThreshold(c) => c.set_name(name),
            Controller::TimedOutput(c) => c.set_name(name),
        }
    }

    /// The controller's name, if one was set.
    pub fn get_name(&self) -> (r: Option<String>)
        ensures
            match r {
                Some(n) => self.spec_name() == Some(n@),
                None => self.spec_name() is None,
            },
    {
        match self {
            Controller::Threshold(c) => c.get_name(),
            Controller::BidirectionalThreshold(c) => c.get_name(),
            Controller::TimedOutput(c) => c.get_name(),
        }
    }

    /// Poll the wrapped controller at `time`.
    pub fn poll(&mut self, time: Instant) -> (r: Result<Option<Message>, ControlError>)
        requires
            old(self).wf(),
            -MAX_INSTANT_MILLIS <= time.millis <= MAX_INSTANT_MILLIS,
        ensures
            Controller::poll_transition(*old(self), *final(self), time, r),
            final(self).wf(),
    {
        match self {
            Controller::Threshold(c) => c.poll(time),
            Controller::BidirectionalThreshold(c) => c.poll(time),
            Controller::TimedOutput(c) => c.poll(time),
        }
    }
}

} // verus!
