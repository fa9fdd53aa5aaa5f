//! A controller that compares periodic sensor readings to a threshold.

use vstd::prelude::*;
use vstd::string::StringExecFns;
use crate::controllers::{spec_name_or_empty, ControlError};
use crate::input::Input;
use crate::output::Output;
use crate::scheduler::{lemma_first_due, spec_first_due, spec_has_due, Scheduler};
use crate::time::{Duration, Instant, MAX_INSTANT_MILLIS, MAX_SPAN_MILLIS};
use crate::types::{Action, Event, Message};
use crate::value::{parse_decimal, spec_parse_decimal, Decimal};

verus! {

/// Reads an input on a fixed interval and activates an output when the
/// value is above the threshold, or below it when inverted.
///
/// Classification is strict: a reading exactly equal to the threshold
/// counts as below. Every due read re-arms the next one at the poll time
/// plus the interval, whatever the reading was, and reports the outcome as
/// a message tagged `"Above Threshold"` or `"Below Threshold"`.
///
/// This controller cannot prevent overcompensation; where finer control
/// with two outputs is possible, use
/// [`BidirectionalThreshold`](crate::controllers::BidirectionalThreshold).
pub struct Threshold {
    name: Option<String>,
    threshold: Decimal,
    input: Input,
    output: Output,
    interval: Duration,
    schedule: Scheduler,
    inverted: bool,
}

impl Threshold {
    /// The controller's name, if one was set.
    pub closed spec fn spec_name(&self) -> Option<Seq<char>> {
        match self.name {
            Some(ref n) => Some(n@),
            None => None,
        }
    }

    /// The threshold readings are compared against.
    pub closed spec fn spec_threshold(&self) -> Decimal {
        self.threshold
    }

    /// The rescheduling interval.
    pub closed spec fn spec_interval(&self) -> Duration {
        self.interval
    }

    /// Whether the comparison drives the output inverted.
    pub closed spec fn spec_inverted(&self) -> bool {
        self.inverted
    }

    /// The events still waiting in the controller's scheduler.
    pub closed spec fn pending(&self) -> Seq<Event> {
        self.schedule.pending()
    }

    /// The events the controller's scheduler has fired.
    pub closed spec fn fired(&self) -> Seq<Event> {
        self.schedule.fired()
    }

    /// The last sensor reading, if any.
    pub closed spec fn input_state(&self) -> Option<Seq<char>> {
        self.input.spec_state()
    }

    /// The last commanded output state, if any.
    pub closed spec fn output_state(&self) -> Option<bool> {
        self.output.spec_state()
    }

    /// Validity: the interval is in range and only read events are ever
    /// pending. Constructors establish this and every method preserves it.
    pub open spec fn wf(&self) -> bool {
        &&& -MAX_SPAN_MILLIS <= self.spec_interval().millis <= MAX_SPAN_MILLIS
        &&& forall|k: int|
            0 <= k < self.pending().len() ==> (#[trigger] self.pending()[k]).action == Action::Read
    }

    /// A new controller with its first read scheduled at `first` plus the
    /// interval.
    ///
    /// This is the recommended way to instantiate the controller; `first`
    /// is normally the current time.
    pub fn new(threshold: Decimal, input: Input, output: Output, interval: Duration, first: Instant) -> (r: Threshold)
        requires
            -MAX_SPAN_MILLIS <= interval.millis <= MAX_SPAN_MILLIS,
            -MAX_INSTANT_MILLIS <= first.millis <= MAX_INSTANT_MILLIS,
        ensures
            r.wf(),
            r.spec_name() is None,
            r.spec_threshold() == threshold,
            r.spec_interval() == interval,
            !r.spec_inverted(),
            r.pending() == seq![
                Event {
                    action: Action::Read,
                    value: None,
                    timestamp: Instant { millis: (first.millis + interval.millis) as i64 },
                },
            ],
            r.fired() == Seq::<Event>::empty(),
            r.input_state() == input.spec_state(),
            r.output_state() == output.spec_state(),
    {
        let r = Threshold::new_without_scheduled(threshold, input, output, interval);
        let r = r.schedule_next(first);
        proof {
            assert(r.pending() =~= seq![
                Event {
                    action: Action::Read,
                    value: None,
                    timestamp: Instant { millis: (first.millis + interval.millis) as i64 },
                },
            ]);
        }
        r
    }

    /// A new controller with nothing scheduled yet; [`Threshold::schedule_next`]
    /// must be called before the controller will ever fire. Mostly useful
    /// for tests.
    pub fn new_without_scheduled(threshold: Decimal, input: Input, output: Output, interval: Duration) -> (r: Threshold)
        requires
            -MAX_SPAN_MILLIS <= interval.millis <= MAX_SPAN_MILLIS,
        ensures
            r.wf(),
            r.spec_name() is None,
            r.spec_threshold() == threshold,
            r.spec_interval() == interval,
            !r.spec_inverted(),
            r.pending() == Seq::<Event>::empty(),
            r.fired() == Seq::<Event>::empty(),
            r.input_state() == input.spec_state(),
            r.output_state() == output.spec_state(),
    {
        Threshold {
            name: None,
            threshold,
            input,
            output,
            schedule: Scheduler::new(),
            interval,
            inverted: false,
        }
    }

    /// Builder method marking the controller inverted: the output is then
    /// activated below the threshold and deactivated above it.
    pub fn set_inverted(self) -> (r: Threshold)
        ensures
            r.spec_inverted(),
            r.spec_name() == self.spec_name(),
            r.spec_threshold() == self.spec_threshold(),
            r.spec_interval() == self.spec_interval(),
            r.pending() == self.pending(),
            r.fired() == self.fired(),
            r.input_state() == self.input_state(),
            r.output_state() == self.output_state(),
            self.wf() ==> r.wf(),
    {
        Threshold { inverted: true, ..self }
    }

    /// The current threshold.
    pub fn get_threshold(&self) -> (r: Decimal)
        ensures
            r == self.spec_threshold(),
    {
        self.threshold
    }

    /// The rescheduling interval.
    pub fn get_interval(&self) -> (r: Duration)
        ensures
            r == self.spec_interval(),
    {
        self.interval
    }

    /// True when the comparison drives the output inverted.
    pub fn is_inverted(&self) -> (r: bool)
        ensures
            r == self.spec_inverted(),
    {
        self.inverted
    }

    /// The controller's scheduler, for inspection.
    pub fn get_schedule(&self) -> (r: &Scheduler)
        ensures
            r.pending() == self.pending(),
            r.fired() == self.fired(),
    {
        &self.schedule
    }

    /// The controller's output, for inspection.
    pub fn get_output(&self) -> (r: &Output)
        ensures
            r.spec_state() == self.output_state(),
    {
        &self.output
    }

    /// Replace the threshold.
    pub fn set_threshold(&mut self, threshold: Decimal)
        ensures
            final(self).spec_threshold() == threshold,
            final(self).spec_name() == old(self).spec_name(),
            final(self).spec_interval() == old(self).spec_interval(),
            final(self).spec_inverted() == old(self).spec_inverted(),
            final(self).pending() == old(self).pending(),
            final(self).fired() == old(self).fired(),
            final(self).input_state() == old(self).input_state(),
            final(self).output_state() == old(self).output_state(),
            old(self).wf() ==> final(self).wf(),
    {
        self.threshold = threshold;
    }

    /// Builder method scheduling the next read at `time` plus the interval.
    pub fn schedule_next(self, time: Instant) -> (r: Threshold)
        requires
            -MAX_SPAN_MILLIS <= self.spec_interval().millis <= MAX_SPAN_MILLIS,
            -MAX_INSTANT_MILLIS <= time.millis <= MAX_INSTANT_MILLIS,
        ensures
            r.pending() == self.pending().push(
                Event {
                    action: Action::Read,
                    value: None,
                    timestamp: Instant { millis: (time.millis + self.spec_interval().millis) as i64 },
                },
            ),
            r.fired() == self.fired(),
            r.spec_name() == self.spec_name(),
            r.spec_threshold() == self.spec_threshold(),
            r.spec_interval() == self.spec_interval(),
            r.spec_inverted() == self.spec_inverted(),
            r.input_state() == self.input_state(),
            r.output_state() == self.output_state(),
            self.wf() ==> r.wf(),
    {
        let mut r = self;
        let next = time.plus(r.interval);
        r.schedule.schedule_read(next);
        r
    }

    /// Name the controller; the name is stamped on every message it emits.
    pub fn set_name(&mut self, name: String)
        ensures
            final(self).spec_name() == Some(name@),
            final(self).spec_threshold() == old(self).spec_threshold(),
            final(self).spec_interval() == old(self).spec_interval(),
            final(self).spec_inverted() == old(self).spec_inverted(),
            final(self).pending() == old(self).pending(),
            final(self).fired() == old(self).fired(),
            final(self).input_state() == old(self).input_state(),
            final(self).output_state() == old(self).output_state(),
            old(self).wf() ==> final(self).wf(),
    {
        self.name = Some(name);
    }

    /// The controller's name, if one was set.
    pub fn get_name(&self) -> (r: Option<String>)
        ensures
            match r {
                Some(n) => self.spec_name() == Some(n@),
                None => self.spec_name() is None,
            },
    {
        match &self.name {
            Some(n) => Some(n.clone()),
            None => None,
        }
    }

    /// Everything one poll call does, as a relation between the controller
    /// before (`pre`) and after (`post`), the poll time, and the result.
    pub open spec fn poll_transition(
        pre: Threshold,
        post: Threshold,
        time: Instant,
        r: Result<Option<Message>, ControlError>,
    ) -> bool {
        let s = pre.pending();
        if !spec_has_due(s, time) {
            &&& post == pre
            &&& r == Result::<Option<Message>, ControlError>::Ok(None)
        } else {
            let e = s[spec_first_due(s, time)];
            &&& e.action == Action::Read
            &&& post.spec_name() == pre.spec_name()
            &&& post.spec_threshold() == pre.spec_threshold()
            &&& post.spec_interval() == pre.spec_interval()
            &&& post.spec_inverted() == pre.spec_inverted()
            &&& post.fired() == pre.fired().push(e)
            &&& post.pending() == s.remove(spec_first_due(s, time)).push(
                Event {
                    action: Action::Read,
                    value: None,
                    timestamp: Instant { millis: (time.millis + pre.spec_interval().millis) as i64 },
                },
            )
            &&& match post.input_state() {
                Some(v) => match spec_parse_decimal(v) {
                    Some(value) => {
                        let above = value.milli > pre.spec_threshold().milli;
                        &&& post.output_state() == Some(above != pre.spec_inverted())
                        &&& r matches Ok(Some(m)) && m.name@ == spec_name_or_empty(pre.spec_name())
                            && m.content@ == (if above {
                            "Above Threshold"@
                        } else {
                            "Below Threshold"@
                        }) && m.timestamp == time && (m.read_state matches Some(rs) && rs@ == v)
                    },
                    None => {
                        &&& post.output_state() == pre.output_state()
                        &&& r matches Err(ControlError::MalformedReading { text }) && text@ == v
                    },
                },
                None => false,
            }
        }
    }

    /// Fire the first due event, if any: read the input, drive the output
    /// by the comparison against the threshold, re-arm the next read at
    /// `time` plus the interval, and describe the outcome.
    ///
    /// With no due event the controller is untouched and `Ok(None)` is
    /// returned. A reading that is not a decimal leaves the output alone,
    /// still re-arms the next read, and is reported as a
    /// [`ControlError::MalformedReading`].
    pub fn poll(&mut self, time: Instant) -> (r: Result<Option<Message>, ControlError>)
        requires
            old(self).wf(),
            -MAX_INSTANT_MILLIS <= time.millis <= MAX_INSTANT_MILLIS,
        ensures
            Threshold::poll_transition(*old(self), *final(self), time, r),
            final(self).wf(),
    {
        proof {
            lemma_first_due(old(self).pending(), time);
        }
        match self.schedule.attempt_execution(time) {
            Some(event) => {
                match event.get_action() {
                    Action::Read => {
                        let value = self.input.read();
                        let next = time.plus(self.interval);
                        self.schedule.schedule_read(next);
                        match parse_decimal(value.as_str()) {
                            Some(d) => {
                                let above = d.milli > self.threshold.milli;
                                if above != self.inverted {
                                    self.output.activate();
                                } else {
                                    self.output.deactivate();
                                }
                                let content = if above {
                                    "Above Threshold".to_owned()
                                } else {
                                    "Below Threshold".to_owned()
                                };
                                let name = match &self.name {
                                    Some(n) => n.clone(),
                                    None => String::new(),
                                };
                                Ok(Some(Message::new(name, content, time, Some(value))))
                            },
                            None => Err(ControlError::MalformedReading { text: value }),
                        }
                    },
                    _ => {
                        proof {
                            assert(false);
                        }
                        Ok(None)
                    },
                }
            },
            None => Ok(None),
        }
    }
}

impl Default for Threshold {
    /// An unnamed, unscheduled controller with a zero threshold, idle
    /// devices and a one-second interval.
    fn default() -> (r: Threshold)
        ensures
            r.wf(),
            r.spec_name() is None,
            r.spec_threshold() == (Decimal { milli: 0 }),
            r.spec_interval() == (Duration { millis: 1000 }),
            !r.spec_inverted(),
            r.pending() == Seq::<Event>::empty(),
            r.fired() == Seq::<Event>::empty(),
    {
        Threshold::new_without_scheduled(
            Decimal::from_milli(0),
            Input::default(),
            Output::default(),
            Duration::seconds(1),
        )
    }
}

} // verus!

verus! {

/// Polling is idempotent at an instant: when a threshold controller's one
/// pending read fires at `time` and the interval is positive, an immediate
/// second poll at the same `time` fires nothing, changes nothing and yields
/// no message; the fired event has moved to the history and cannot fire
/// again.
pub proof fn lemma_repoll_fires_nothing(
    pre: Threshold,
    mid: Threshold,
    post: Threshold,
    time: Instant,
    r1: Result<Option<Message>, ControlError>,
    r2: Result<Option<Message>, ControlError>,
)
    requires
        pre.wf(),
        pre.pending().len() == 1,
        spec_has_due(pre.pending(), time),
        pre.spec_interval().millis > 0,
        -MAX_INSTANT_MILLIS <= time.millis <= MAX_INSTANT_MILLIS,
        Threshold::poll_transition(pre, mid, time, r1),
        Threshold::poll_transition(mid, post, time, r2),
    ensures
        r2 == Result::<Option<Message>, ControlError>::Ok(None),
        post == mid,
{
    lemma_first_due(pre.pending(), time);
    assert(spec_first_due(pre.pending(), time) == 0);
    assert(pre.pending().remove(0) =~= Seq::<Event>::empty());
    assert(mid.pending().len() == 1);
    let e2 = mid.pending()[0];
    assert(e2.timestamp.millis == time.millis + pre.spec_interval().millis);
    assert forall|j: int| 0 <= j < mid.pending().len() implies !(mid.pending()[j]
        .spec_should_execute(time)) by {
        assert(mid.pending()[j] == e2);
    }
    assert(!spec_has_due(mid.pending(), time));
}

} // verus!
