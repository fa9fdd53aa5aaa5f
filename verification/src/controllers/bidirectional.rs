//! A controller with two outputs that keeps a reading inside a band.

use vstd::prelude::*;
use vstd::string::StringExecFns;
use crate::controllers::{spec_name_or_empty, ControlError};
use crate::input::Input;
use crate::output::Output;
use crate::scheduler::{lemma_first_due, spec_first_due, spec_has_due, Scheduler};
use crate::time::{Duration, Instant, MAX_INSTANT_MILLIS, MAX_SPAN_MILLIS};
use crate::types::{Action, Event, Message};
use crate::value::{parse_decimal, spec_parse_decimal, Decimal, MAX_DECIMAL_MILLI};

verus! {

/// Where a reading sits relative to a threshold with a symmetric tolerance
/// band around it.
#[derive(Debug, PartialEq, Eq, Structural, Copy, Clone)]
pub enum Zone {
    /// The reading is below the band: the value should be raised.
    BelowThreshold,
    /// The reading is inside the band: nothing should change.
    WithinTolerance,
    /// The reading is above the band: the value should be lowered.
    AboveThreshold,
}

/// The zone of `value` for the band `threshold` plus or minus `tolerance`.
///
/// The classification is recomputed fresh on every read; repeated readings
/// in the same zone reissue the same commands.
pub open spec fn spec_zone(value: Decimal, threshold: Decimal, tolerance: Decimal) -> Zone {
    if value.milli > threshold.milli + tolerance.milli {
        Zone::AboveThreshold
    } else if value.milli < threshold.milli - tolerance.milli {
        Zone::BelowThreshold
    } else {
        Zone::WithinTolerance
    }
}

/// Reads an input on a fixed interval and drives two outputs: one that
/// raises the value and one that lowers it, keeping the reading inside a
/// tolerance band around a threshold.
///
/// Above the band the decrease output is activated and the increase output
/// deactivated; below the band the reverse; inside the band both are
/// deactivated. The controller is intended to keep a value within a general
/// range, not to regulate it precisely.
pub struct BidirectionalThreshold {
    name: Option<String>,
    threshold: Decimal,
    tolerance: Decimal,
    input: Input,
    increase_output: Output,
    decrease_output: Output,
    interval: Duration,
    schedule: Scheduler,
}

impl BidirectionalThreshold {
    /// The controller's name, if one was set.
    pub closed spec fn spec_name(&self) -> Option<Seq<char>> {
        match self.name {
            Some(ref n) => Some(n@),
            None => None,
        }
    }

    /// The centre of the band.
    pub closed spec fn spec_threshold(&self) -> Decimal {
        self.threshold
    }

    /// The half-width of the band.
    pub closed spec fn spec_tolerance(&self) -> Decimal {
        self.tolerance
    }

    /// The rescheduling interval.
    pub closed spec fn spec_interval(&self) -> Duration {
        self.interval
    }

    /// The events still waiting in the controller's scheduler.
    pub closed spec fn pending(&self) -> Seq<Event> {
        self.schedule.pending()
    }

    /// The events the controller's scheduler has fired.
    pub closed spec fn fired(&self) -> Seq<Event> {
        self.schedule.fired()
    }

    /// The last sensor reading, if any.
    pub closed spec fn input_state(&self) -> Option<Seq<char>> {
        self.input.spec_state()
    }

    /// The last state commanded on the increase output, if any.
    pub closed spec fn increase_state(&self) -> Option<bool> {
        self.increase_output.spec_state()
    }

    /// The last state commanded on the decrease output, if any.
    pub closed spec fn decrease_state(&self) -> Option<bool> {
        self.decrease_output.spec_state()
    }

    /// Validity: the interval, threshold and tolerance are in range and
    /// only read events are ever pending. Constructors establish this and
    /// every method preserves it.
    pub open spec fn wf(&self) -> bool {
        &&& -MAX_SPAN_MILLIS <= self.spec_interval().millis <= MAX_SPAN_MILLIS
        &&& -MAX_DECIMAL_MILLI <= self.spec_threshold().milli <= MAX_DECIMAL_MILLI
        &&& -MAX_DECIMAL_MILLI <= self.spec_tolerance().milli <= MAX_DECIMAL_MILLI
        &&& forall|k: int|
            0 <= k < self.pending().len() ==> (#[trigger] self.pending()[k]).action == Action::Read
    }

    /// A new controller with nothing scheduled yet;
    /// [`BidirectionalThreshold::schedule_next`] must be called before the
    /// controller will ever fire. [`BidirectionalThreshold::with_first`] is
    /// the preferred way to instantiate it.
    pub fn new(
        threshold: Decimal,
        tolerance: Decimal,
        input: Input,
        increase_output: Output,
        decrease_output: Output,
        interval: Duration,
    ) -> (r: BidirectionalThreshold)
        requires
            -MAX_SPAN_MILLIS <= interval.millis <= MAX_SPAN_MILLIS,
            -MAX_DECIMAL_MILLI <= threshold.milli <= MAX_DECIMAL_MILLI,
            -MAX_DECIMAL_MILLI <= tolerance.milli <= MAX_DECIMAL_MILLI,
        ensures
            r.wf(),
            r.spec_name() is None,
            r.spec_threshold() == threshold,
            r.spec_tolerance() == tolerance,
            r.spec_interval() == interval,
            r.pending() == Seq::<Event>::empty(),
            r.fired() == Seq::<Event>::empty(),
            r.input_state() == input.spec_state(),
            r.increase_state() == increase_output.spec_state(),
            r.decrease_state() == decrease_output.spec_state(),
    {
        BidirectionalThreshold {
            name: None,
            threshold,
            tolerance,
            input,
            increase_output,
            decrease_output,
            interval,
            schedule: Scheduler::new(),
        }
    }

    /// A new controller with its first read scheduled at `first` plus the
    /// interval. This is the recommended way to instantiate the controller;
    /// `first` is normally the current time.
    pub fn with_first(
        threshold: Decimal,
        tolerance: Decimal,
        input: Input,
        increase_output: Output,
        decrease_output: Output,
        interval: Duration,
        first: Instant,
    ) -> (r: BidirectionalThreshold)
        requires
            -MAX_SPAN_MILLIS <= interval.millis <= MAX_SPAN_MILLIS,
            -MAX_DECIMAL_MILLI <= threshold.milli <= MAX_DECIMAL_MILLI,
            -MAX_DECIMAL_MILLI <= tolerance.milli <= MAX_DECIMAL_MILLI,
            -MAX_INSTANT_MILLIS <= first.millis <= MAX_INSTANT_MILLIS,
        ensures
            r.wf(),
            r.spec_name() is None,
            r.spec_threshold() == threshold,
            r.spec_tolerance() == tolerance,
            r.spec_interval() == interval,
            r.pending() == seq![
                Event {
                    action: Action::Read,
                    value: None,
                    timestamp: Instant { millis: (first.millis + interval.millis) as i64 },
                },
            ],
            r.fired() == Seq::<Event>::empty(),
            r.input_state() == input.spec_state(),
            r.increase_state() == increase_output.spec_state(),
            r.decrease_state() == decrease_output.spec_state(),
    {
        let r = BidirectionalThreshold::new(
            threshold,
            tolerance,
            input,
            increase_output,
            decrease_output,
            interval,
        );
        let r = r.schedule_next(first);
        proof {
            assert(r.pending() =~= seq![
                Event {
                    action: Action::Read,
                    value: None,
                    timestamp: Instant { millis: (first.millis + interval.millis) as i64 },
                },
            ]);
        }
        r
    }

    /// Builder method scheduling the next read at `time` plus the interval.
    pub fn schedule_next(self, time: Instant) -> (r: BidirectionalThreshold)
        requires
            -MAX_SPAN_MILLIS <= self.spec_interval().millis <= MAX_SPAN_MILLIS,
            -MAX_INSTANT_MILLIS <= time.millis <= MAX_INSTANT_MILLIS,
        ensures
            r.pending() == self.pending().push(
                Event {
                    action: Action::Read,
                    value: None,
                    timestamp: Instant { millis: (time.millis + self.spec_interval().millis) as i64 },
                },
            ),
            r.fired() == self.fired(),
            r.spec_name() == self.spec_name(),
            r.spec_threshold() == self.spec_threshold(),
            r.spec_tolerance() == self.spec_tolerance(),
            r.spec_interval() == self.spec_interval(),
            r.input_state() == self.input_state(),
            r.increase_state() == self.increase_state(),
            r.decrease_state() == self.decrease_state(),
            self.wf() ==> r.wf(),
    {
        let mut r = self;
        let next = time.plus(r.interval);
        r.schedule.schedule_read(next);
        r
    }

    /// The centre of the band.
    pub fn get_threshold(&self) -> (r: Decimal)
        ensures
            r == self.spec_threshold(),
    {
        self.threshold
    }

    /// The half-width of the band.
    pub fn get_tolerance(&self) -> (r: Decimal)
        ensures
            r == self.spec_tolerance(),
    {
        self.tolerance
    }

    /// The rescheduling interval.
    pub fn get_interval(&self) -> (r: Duration)
        ensures
            r == self.spec_interval(),
    {
        self.interval
    }

    /// The controller's scheduler, for inspection.
    pub fn get_schedule(&self) -> (r: &Scheduler)
        ensures
            r.pending() == self.pending(),
            r.fired() == self.fired(),
    {
        &self.schedule
    }

    /// The output that raises the value, for inspection.
    pub fn get_increase_output(&self) -> (r: &Output)
        ensures
            r.spec_state() == self.increase_state(),
    {
        &self.increase_output
    }

    /// The output that lowers the value, for inspection.
    pub fn get_decrease_output(&self) -> (r: &Output)
        ensures
            r.spec_state() == self.decrease_state(),
    {
        &self.decrease_output
    }

    /// Name the controller; the name is stamped on every message it emits.
    pub fn set_name(&mut self, name: String)
        ensures
            final(self).spec_name() == Some(name@),
            final(self).spec_threshold() == old(self).spec_threshold(),
            final(self).spec_tolerance() == old(self).spec_tolerance(),
            final(self).spec_interval() == old(self).spec_interval(),
            final(self).pending() == old(self).pending(),
            final(self).fired() == old(self).fired(),
            final(self).input_state() == old(self).input_state(),
            final(self).increase_state() == old(self).increase_state(),
            final(self).decrease_state() == old(self).decrease_state(),
            old(self).wf() ==> final(self).wf(),
    {
        self.name = Some(name);
    }

    /// The controller's name, if one was set.
    pub fn get_name(&self) -> (r: Option<String>)
        ensures
            match r {
                Some(n) => self.spec_name() == Some(n@),
                None => self.spec_name() is None,
            },
    {
        match &self.name {
            Some(n) => Some(n.clone()),
            None => None,
        }
    }

    /// Everything one poll call does, as a relation between the controller
    /// before (`pre`) and after (`post`), the poll time, and the result.
    pub open spec fn poll_transition(
        pre: BidirectionalThreshold,
        post: BidirectionalThreshold,
        time: Instant,
        r: Result<Option<Message>, ControlError>,
    ) -> bool {
        let s = pre.pending();
        if !spec_has_due(s, time) {
            &&& post == pre
            &&& r == Result::<Option<Message>, ControlError>::Ok(None)
        } else {
            let e = s[spec_first_due(s, time)];
            &&& e.action == Action::Read
            &&& post.spec_name() == pre.spec_name()
            &&& post.spec_threshold() == pre.spec_threshold()
            &&& post.spec_tolerance() == pre.spec_tolerance()
            &&& post.spec_interval() == pre.spec_interval()
            &&& post.fired() == pre.fired().push(e)
            &&& post.pending() == s.remove(spec_first_due(s, time)).push(
                Event {
                    action: Action::Read,
                    value: None,
                    timestamp: Instant { millis: (time.millis + pre.spec_interval().millis) as i64 },
                },
            )
            &&& match post.input_state() {
                Some(v) => match spec_parse_decimal(v) {
                    Some(value) => {
                        let zone = spec_zone(value, pre.spec_threshold(), pre.spec_tolerance());
                        &&& post.increase_state() == Some(zone == Zone::BelowThreshold)
                        &&& post.decrease_state() == Some(zone == Zone::AboveThreshold)
                        &&& r matches Ok(Some(m)) && m.name@ == spec_name_or_empty(pre.spec_name())
                            && m.content@ == (match zone {
                            Zone::AboveThreshold => "Above Threshold"@,
                            Zone::BelowThreshold => "Below Threshold"@,
                            Zone::WithinTolerance => "Within Tolerance"@,
                        }) && m.timestamp == e.timestamp && (m.read_state matches Some(rs) && rs@
                            == v)
                    },
                    None => {
                        &&& post.increase_state() == pre.increase_state()
                        &&& post.decrease_state() == pre.decrease_state()
                        &&& r matches Err(ControlError::MalformedReading { text }) && text@ == v
                    },
                },
                None => false,
            }
        }
    }

    /// Fire the first due event, if any: read the input, classify it into
    /// a [`Zone`], drive the two outputs accordingly, re-arm the next read
    /// at `time` plus the interval, and describe the entered zone.
    ///
    /// The message carries the fired event's own timestamp. With no due
    /// event the controller is untouched and `Ok(None)` is returned. A
    /// reading that is not a decimal leaves both outputs alone, still
    /// re-arms the next read, and is reported as a
    /// [`ControlError::MalformedReading`].
    pub fn poll(&mut self, time: Instant) -> (r: Result<Option<Message>, ControlError>)
        requires
            old(self).wf(),
            -MAX_INSTANT_MILLIS <= time.millis <= MAX_INSTANT_MILLIS,
        ensures
            BidirectionalThreshold::poll_transition(*old(self), *final(self), time, r),
            final(self).wf(),
    {
        proof {
            lemma_first_due(old(self).pending(), time);
        }
        match self.schedule.attempt_execution(time) {
            Some(event) => {
                match event.get_action() {
                    Action::Read => {
                        let value = self.input.read();
                        let next = time.plus(self.interval);
                        self.schedule.schedule_read(next);
                        match parse_decimal(value.as_str()) {
                            Some(d) => {
                                let content = if d.milli > self.threshold.milli
                                    + self.tolerance.milli {
                                    self.decrease_output.activate();
                                    self.increase_output.deactivate();
                                    "Above Threshold".to_owned()
                                } else if d.milli < self.threshold.milli - self.tolerance.milli {
                                    self.increase_output.activate();
                                    self.decrease_output.deactivate();
                                    "Below Threshold".to_owned()
                                } else {
                                    self.increase_output.deactivate();
                                    self.decrease_output.deactivate();
                                    "Within Tolerance".to_owned()
                                };
                                let name = match &self.name {
                                    Some(n) => n.clone(),
                                    None => String::new(),
                                };
                                let timestamp = *event.get_timestamp();
                                Ok(Some(Message::new(name, content, timestamp, Some(value))))
                            },
                            None => Err(ControlError::MalformedReading { text: value }),
                        }
                    },
                    _ => {
                        proof {
                            assert(false);
                        }
                        Ok(None)
                    },
                }
            },
            None => Ok(None),
        }
    }
}

impl Default for BidirectionalThreshold {
    /// An unnamed, unscheduled controller with a zero threshold and
    /// tolerance, idle devices and a one-second interval.
    fn default() -> (r: BidirectionalThreshold)
        ensures
            r.wf(),
            r.spec_name() is None,
            r.spec_threshold() == (Decimal { milli: 0 }),
            r.spec_tolerance() == (Decimal { milli: 0 }),
            r.spec_interval() == (Duration { millis: 1000 }),
            r.pending() == Seq::<Event>::empty(),
            r.fired() == Seq::<Event>::empty(),
    {
        BidirectionalThreshold::new(
            Decimal::from_milli(0),
            Decimal::from_milli(0),
            Input::default(),
            Output::default(),
            Output::default(),
            Duration::seconds(1),
        )
    }
}

} // verus!

verus! {

/// Polling is idempotent at an instant: when a bidirectional controller's
/// one pending read fires at `time` and the interval is positive, an
/// immediate second poll at the same `time` fires nothing, changes nothing
/// and yields no message; the fired event has moved to the history and
/// cannot fire again.
pub proof fn lemma_bidirectional_repoll_fires_nothing(
    pre: BidirectionalThreshold,
    mid: BidirectionalThreshold,
    post: BidirectionalThreshold,
    time: Instant,
    r1: Result<Option<Message>, ControlError>,
    r2: Result<Option<Message>, ControlError>,
)
    requires
        pre.wf(),
        pre.pending().len() == 1,
        spec_has_due(pre.pending(), time),
        pre.spec_interval().millis > 0,
        -MAX_INSTANT_MILLIS <= time.millis <= MAX_INSTANT_MILLIS,
        BidirectionalThreshold::poll_transition(pre, mid, time, r1),
        BidirectionalThreshold::poll_transition(mid, post, time, r2),
    ensures
        r2 == Result::<Option<Message>, ControlError>::Ok(None),
        post == mid,
{
    lemma_first_due(pre.pending(), time);
    assert(spec_first_due(pre.pending(), time) == 0);
    assert(pre.pending().remove(0) =~= Seq::<Event>::empty());
    assert(mid.pending().len() == 1);
    let e2 = mid.pending()[0];
    assert(e2.timestamp.millis == time.millis + pre.spec_interval().millis);
    assert forall|j: int| 0 <= j < mid.pending().len() implies !(mid.pending()[j]
        .spec_should_execute(time)) by {
        assert(mid.pending()[j] == e2);
    }
    assert(!spec_has_due(mid.pending(), time));
}

} // verus!
