//! A controller that runs an output daily from a start time for a duration.

use vstd::prelude::*;
use vstd::string::StringExecFns;
use crate::controllers::{spec_name_or_empty, ControlError};
use crate::output::Output;
use crate::scheduler::{lemma_first_due, spec_first_due, spec_has_due, Scheduler};
use crate::time::{
    day_start, spec_day_start, spec_time_of_day, time_of_day, ClockTime, Duration, Instant,
    MAX_INSTANT_MILLIS, MAX_SPAN_MILLIS, MILLIS_PER_DAY,
};
use crate::types::{Action, Event, Message};

verus! {

/// The instant at which the output should next turn on, seen from `now`:
/// today's occurrence of `start` when the time of day at `now` is still
/// before `start`, otherwise tomorrow's.
pub open spec fn spec_next_on_millis(now: Instant, start: ClockTime) -> int {
    if spec_time_of_day(now.millis as int) < start.millis_of_day {
        spec_day_start(now.millis as int) + start.millis_of_day
    } else {
        spec_day_start(now.millis as int) + start.millis_of_day + MILLIS_PER_DAY
    }
}

/// The instant at which the output should turn off after firing on at
/// `now`: the occurrence of `start` on `now`'s calendar day, plus the
/// duration. The duration is added as elapsed time, so a cycle may run
/// past midnight.
pub open spec fn spec_off_millis(now: Instant, start: ClockTime, duration: Duration) -> int {
    spec_day_start(now.millis as int) + start.millis_of_day + duration.millis
}

/// Turns an output on at a fixed time of day and off after a fixed
/// duration, every day.
///
/// The scheduler alternates `On` and `Off` events: firing an `On` arms the
/// matching `Off`, and firing an `Off` arms the next day's `On`. The cycle
/// anchors to the wall clock rather than to a rolling interval.
pub struct TimedOutput {
    name: Option<String>,
    output: Output,
    start_time: ClockTime,
    duration: Duration,
    scheduler: Scheduler,
}

impl TimedOutput {
    /// The controller's name, if one was set.
    pub closed spec fn spec_name(&self) -> Option<Seq<char>> {
        match self.name {
            Some(ref n) => Some(n@),
            None => None,
        }
    }

    /// The daily time of day at which the output turns on.
    pub closed spec fn spec_start_time(&self) -> ClockTime {
        self.start_time
    }

    /// How long the output stays on.
    pub closed spec fn spec_duration(&self) -> Duration {
        self.duration
    }

    /// The events still waiting in the controller's scheduler.
    pub closed spec fn pending(&self) -> Seq<Event> {
        self.scheduler.pending()
    }

    /// The events the controller's scheduler has fired.
    pub closed spec fn fired(&self) -> Seq<Event> {
        self.scheduler.fired()
    }

    /// The last commanded output state, if any.
    pub closed spec fn output_state(&self) -> Option<bool> {
        self.output.spec_state()
    }

    /// Validity: the start time is a time of day, the duration is in
    /// range, and only on and off events are ever pending. Constructors
    /// establish this and every method preserves it.
    pub open spec fn wf(&self) -> bool {
        &&& self.spec_start_time().is_valid()
        &&& -MAX_SPAN_MILLIS <= self.spec_duration().millis <= MAX_SPAN_MILLIS
        &&& forall|k: int|
            0 <= k < self.pending().len() ==> (#[trigger] self.pending()[k]).action == Action::On
                || self.pending()[k].action == Action::Off
    }

    /// A new controller with nothing scheduled yet;
    /// [`TimedOutput::with_first`] is the recommended way to instantiate
    /// one, as it also arms the first on event.
    pub fn new(output: Output, start_time: ClockTime, duration: Duration) -> (r: TimedOutput)
        requires
            start_time.is_valid(),
            -MAX_SPAN_MILLIS <= duration.millis <= MAX_SPAN_MILLIS,
        ensures
            r.wf(),
            r.spec_name() is None,
            r.spec_start_time() == start_time,
            r.spec_duration() == duration,
            r.pending() == Seq::<Event>::empty(),
            r.fired() == Seq::<Event>::empty(),
            r.output_state() == output.spec_state(),
    {
        TimedOutput { name: None, output, start_time, duration, scheduler: Scheduler::new() }
    }

    /// A new controller with the first on event armed as of `first`,
    /// normally the current time: at today's `start_time` when that is
    /// still ahead, otherwise at tomorrow's.
    pub fn with_first(output: Output, start_time: ClockTime, duration: Duration, first: Instant) -> (r: TimedOutput)
        requires
            start_time.is_valid(),
            -MAX_SPAN_MILLIS <= duration.millis <= MAX_SPAN_MILLIS,
            -MAX_INSTANT_MILLIS <= first.millis <= MAX_INSTANT_MILLIS,
        ensures
            r.wf(),
            r.spec_name() is None,
            r.spec_start_time() == start_time,
            r.spec_duration() == duration,
            r.pending() == seq![
                Event {
                    action: Action::On,
                    value: None,
                    timestamp: Instant { millis: spec_next_on_millis(first, start_time) as i64 },
                },
            ],
            r.fired() == Seq::<Event>::empty(),
            r.output_state() == output.spec_state(),
    {
        let mut r = TimedOutput::new(output, start_time, duration);
        r.schedule_on_at(first);
        proof {
            assert(r.pending() =~= seq![
                Event {
                    action: Action::On,
                    value: None,
                    timestamp: Instant { millis: spec_next_on_millis(first, start_time) as i64 },
                },
            ]);
        }
        r
    }

    /// Arm the next on event as seen from `time`.
    fn schedule_on_at(&mut self, time: Instant)
        requires
            old(self).spec_start_time().is_valid(),
            -MAX_INSTANT_MILLIS <= time.millis <= MAX_INSTANT_MILLIS,
        ensures
            final(self).pending() == old(self).pending().push(
                Event {
                    action: Action::On,
                    value: None,
                    timestamp: Instant {
                        millis: spec_next_on_millis(time, old(self).spec_start_time()) as i64,
                    },
                },
            ),
            final(self).fired() == old(self).fired(),
            final(self).spec_name() == old(self).spec_name(),
            final(self).spec_start_time() == old(self).spec_start_time(),
            final(self).spec_duration() == old(self).spec_duration(),
            final(self).output_state() == old(self).output_state(),
    {
        let tod = time_of_day(time);
        let ds = day_start(time);
        let target: i64 = if tod < self.start_time.millis_of_day {
            ds + self.start_time.millis_of_day
        } else {
            ds + self.start_time.millis_of_day + MILLIS_PER_DAY
        };
        self.scheduler.schedule_on(Instant::from_millis(target));
    }

    /// Arm the off event matching an on event that fired at `time`.
    fn schedule_off_at(&mut self, time: Instant)
        requires
            old(self).spec_start_time().is_valid(),
            -MAX_SPAN_MILLIS <= old(self).spec_duration().millis <= MAX_SPAN_MILLIS,
            -MAX_INSTANT_MILLIS <= time.millis <= MAX_INSTANT_MILLIS,
        ensures
            final(self).pending() == old(self).pending().push(
                Event {
                    action: Action::Off,
                    value: None,
                    timestamp: Instant {
                        millis: spec_off_millis(
                            time,
                            old(self).spec_start_time(),
                            old(self).spec_duration(),
                        ) as i64,
                    },
                },
            ),
            final(self).fired() == old(self).fired(),
            final(self).spec_name() == old(self).spec_name(),
            final(self).spec_start_time() == old(self).spec_start_time(),
            final(self).spec_duration() == old(self).spec_duration(),
            final(self).output_state() == old(self).output_state(),
    {
        let ds = day_start(time);
        let target: i64 = ds + self.start_time.millis_of_day + self.duration.millis;
        self.scheduler.schedule_off(Instant::from_millis(target));
    }

    /// The controller's scheduler, for inspection.
    pub fn get_schedule(&self) -> (r: &Scheduler)
        ensures
            r.pending() == self.pending(),
            r.fired() == self.fired(),
    {
        &self.scheduler
    }

    /// The controller's output, for inspection.
    pub fn get_output(&self) -> (r: &Output)
        ensures
            r.spec_state() == self.output_state(),
    {
        &self.output
    }

    /// Name the controller; the name is stamped on every message it emits.
    pub fn set_name(&mut self, name: String)
        ensures
            final(self).spec_name() == Some(name@),
            final(self).spec_start_time() == old(self).spec_start_time(),
            final(self).spec_duration() == old(self).spec_duration(),
            final(self).pending() == old(self).pending(),
            final(self).fired() == old(self).fired(),
            final(self).output_state() == old(self).output_state(),
            old(self).wf() ==> final(self).wf(),
    {
        self.name = Some(name);
    }

    /// The controller's name, if one was set.
    pub fn get_name(&self) -> (r: Option<String>)
        ensures
            match r {
                Some(n) => self.spec_name() == Some(n@),
                None => self.spec_name() is None,
            },
    {
        match &self.name {
            Some(n) => Some(n.clone()),
            None => None,
        }
    }

    /// Everything one poll call does, as a relation between the controller
    /// before (`pre`) and after (`post`), the poll time, and the result.
    pub open spec fn poll_transition(
        pre: TimedOutput,
        post: TimedOutput,
        time: Instant,
        r: Result<Option<Message>, ControlError>,
    ) -> bool {
        let s = pre.pending();
        if !spec_has_due(s, time) {
            &&& post == pre
            &&& r == Result::<Option<Message>, ControlError>::Ok(None)
        } else {
            let e = s[spec_first_due(s, time)];
            &&& (e.action == Action::On || e.action == Action::Off)
            &&& post.spec_name() == pre.spec_name()
            &&& post.spec_start_time() == pre.spec_start_time()
            &&& post.spec_duration() == pre.spec_duration()
            &&& post.fired() == pre.fired().push(e)
            &&& if e.action == Action::On {
                &&& post.pending() == s.remove(spec_first_due(s, time)).push(
                    Event {
                        action: Action::Off,
                        value: None,
                        timestamp: Instant {
                            millis: spec_off_millis(
                                time,
                                pre.spec_start_time(),
                                pre.spec_duration(),
                            ) as i64,
                        },
                    },
                )
                &&& post.output_state() == Some(true)
                &&& r matches Ok(Some(m)) && m.name@ == spec_name_or_empty(pre.spec_name())
                    && m.content@ == "Activated"@ && m.timestamp == time && m.read_state is None
            } else {
                &&& post.pending() == s.remove(spec_first_due(s, time)).push(
                    Event {
                        action: Action::On,
                        value: None,
                        timestamp: Instant {
                            millis: spec_next_on_millis(time, pre.spec_start_time()) as i64,
                        },
                    },
                )
                &&& post.output_state() == Some(false)
                &&& r matches Ok(Some(m)) && m.name@ == spec_name_or_empty(pre.spec_name())
                    && m.content@ == "Deactivated"@ && m.timestamp == time && m.read_state is None
            }
        }
    }

    /// Fire the first due event, if any: an `On` event activates the
    /// output and arms the matching `Off` event, an `Off` event
    /// deactivates the output and arms the next day's `On` event, and
    /// either returns a message saying what happened.
    ///
    /// With no due event the controller is untouched and `Ok(None)` is
    /// returned.
    pub fn poll(&mut self, time: Instant) -> (r: Result<Option<Message>, ControlError>)
        requires
            old(self).wf(),
            -MAX_INSTANT_MILLIS <= time.millis <= MAX_INSTANT_MILLIS,
        ensures
            TimedOutput::poll_transition(*old(self), *final(self), time, r),
            final(self).wf(),
    {
        proof {
            lemma_first_due(old(self).pending(), time);
        }
        match self.scheduler.attempt_execution(time) {
            Some(event) => {
                let content = match event.get_action() {
                    Action::On => {
                        self.output.activate();
                        self.schedule_off_at(time);
                        "Activated".to_owned()
                    },
                    Action::Off => {
                        self.output.deactivate();
                        self.schedule_on_at(time);
                        "Deactivated".to_owned()
                    },
                    Action::Read => {
                        proof {
                            assert(false);
                        }
                        String::new()
                    },
                };
                let name = match &self.name {
                    Some(n) => n.clone(),
                    None => String::new(),
                };
                Ok(Some(Message::new(name, content, time, None)))
            },
            None => Ok(None),
        }
    }
}

impl Default for TimedOutput {
    /// An unnamed, unscheduled controller starting at midnight with a zero
    /// duration and an idle device.
    fn default() -> (r: TimedOutput)
        ensures
            r.wf(),
            r.spec_name() is None,
            r.spec_start_time() == (ClockTime { millis_of_day: 0 }),
            r.spec_duration() == (Duration { millis: 0 }),
            r.pending() == Seq::<Event>::empty(),
            r.fired() == Seq::<Event>::empty(),
    {
        TimedOutput::new(
            Output::default(),
            ClockTime { millis_of_day: 0 },
            Duration::seconds(0),
        )
    }
}

} // verus!
