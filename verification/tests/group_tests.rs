use chrono::{TimeZone, Utc};
use equilibrium::controllers::{Controller, Threshold, TimedOutput};
use equilibrium::device::InputDevice;
use equilibrium::time::{ClockTime, Duration, Instant};
use equilibrium::value::Decimal;
use equilibrium::{ControllerGroup, Input, Output};

struct FixedInput {
    value: String,
}

impl InputDevice for FixedInput {
    fn read(&mut self) -> String {
        self.value.clone()
    }
}

fn fixed_input(value: &str) -> Input {
    Input::new(Box::new(FixedInput { value: String::from(value) }))
}

fn instant(year: i32, month: u32, day: u32, hour: u32, min: u32, sec: u32) -> Instant {
    let t = Utc.with_ymd_and_hms(year, month, day, hour, min, sec).unwrap();
    Instant::from_millis(t.timestamp_millis())
}

#[test]
fn group_test_new() {
    let group = ControllerGroup::new();

    assert_eq!(group.get_controllers().len(), 0);
}

#[test]
fn test_add_controller() {
    // construct two different controllers
    let controller1 = TimedOutput::new(
        Output::default(),
        ClockTime::from_hms(5, 0, 0).unwrap(),
        Duration::hours(8),
    );

    let controller2 = Threshold::new(
        Decimal::from_int(70),
        Input::default(),
        Output::default(),
        Duration::minutes(5),
        Instant::from_millis(0),
    );

    // add controllers to group
    let group = ControllerGroup::new()
        .add_controller(Controller::TimedOutput(controller1))
        .add_controller(Controller::Threshold(controller2));

    // assert that the group has 2 controllers
    assert_eq!(group.get_controllers().len(), 2);
}

#[test]
fn group_test_poll() {
    let now = instant(2021, 1, 1, 4, 59, 59);

    // construct two different controllers and manually schedule the first
    // execution
    let timed_output_name = String::from("timed");
    let mut controller1 = TimedOutput::with_first(
        Output::default(),
        ClockTime::from_hms(5, 0, 0).unwrap(),
        Duration::hours(12),
        now,
    );
    controller1.set_name(timed_output_name.clone());

    let threshold_name = String::from("threshold");
    let mut controller2 = Threshold::new_without_scheduled(
        Decimal::from_int(70),
        fixed_input("69.0"),
        Output::default(),
        Duration::minutes(5),
    )
    .schedule_next(now);
    controller2.set_name(threshold_name.clone());

    // construct the group
    let mut group = ControllerGroup::new()
        .add_controller(Controller::TimedOutput(controller1))
        .add_controller(Controller::Threshold(controller2));

    // begin to poll the group
    let messages = group.poll(now).unwrap();
    assert_eq!(messages.len(), 0); // no messages should be returned

    // poll again, this time the timed output should be activated
    let time = now.plus(Duration::seconds(1));
    let messages = group.poll(time).unwrap();
    assert_eq!(messages.len(), 1); // one message should be returned
    assert_eq!(messages[0].get_controller_name(), timed_output_name);

    // poll again, this time the threshold output should be activated
    let time = time.plus(Duration::minutes(5));
    let messages = group.poll(time).unwrap();
    assert_eq!(messages.len(), 1); // one message should be returned
    assert_eq!(messages[0].get_controller_name(), threshold_name);

    // poll again when both controllers should be activated
    let time = instant(2021, 1, 1, 17, 0, 0);
    let messages = group.poll(time).unwrap();
    assert_eq!(messages.len(), 2); // two messages should be returned
    assert_eq!(messages[0].get_controller_name(), timed_output_name);
    assert_eq!(messages[1].get_controller_name(), threshold_name);
}

/// Messages come back in the insertion order of the members that fired,
/// with non-firing members omitted entirely.
#[test]
fn test_poll_preserves_insertion_order() {
    let time = Instant::from_millis(0);
    let poll_time = time.plus(Duration::seconds(1));

    // first and third member fire at one second; the middle one is armed a
    // minute out and stays silent
    let mut first = Threshold::new_without_scheduled(
        Decimal::from_int(5),
        fixed_input("1.0"),
        Output::default(),
        Duration::seconds(1),
    )
    .schedule_next(time);
    first.set_name(String::from("first"));

    let mut silent = Threshold::new_without_scheduled(
        Decimal::from_int(5),
        fixed_input("1.0"),
        Output::default(),
        Duration::minutes(1),
    )
    .schedule_next(time);
    silent.set_name(String::from("silent"));

    let mut third = Threshold::new_without_scheduled(
        Decimal::from_int(5),
        fixed_input("9.0"),
        Output::default(),
        Duration::seconds(1),
    )
    .schedule_next(time);
    third.set_name(String::from("third"));

    let mut group = ControllerGroup::new()
        .add_controller(Controller::Threshold(first))
        .add_controller(Controller::Threshold(silent))
        .add_controller(Controller::Threshold(third));

    let messages = group.poll(poll_time).unwrap();
    assert_eq!(messages.len(), 2);
    assert_eq!(messages[0].get_controller_name(), "first");
    assert_eq!(messages[0].get_content(), "Below Threshold");
    assert_eq!(messages[1].get_controller_name(), "third");
    assert_eq!(messages[1].get_content(), "Above Threshold");
}

/// A failing member aborts the group poll with its typed error; the
/// members after it are not polled.
#[test]
fn test_poll_aborts_on_error() {
    let time = Instant::from_millis(0);
    let poll_time = time.plus(Duration::seconds(1));

    let faulty = Threshold::new_without_scheduled(
        Decimal::from_int(5),
        fixed_input("not a number"),
        Output::default(),
        Duration::seconds(1),
    )
    .schedule_next(time);

    let untouched = Threshold::new_without_scheduled(
        Decimal::from_int(5),
        fixed_input("1.0"),
        Output::default(),
        Duration::seconds(1),
    )
    .schedule_next(time);

    let mut group = ControllerGroup::new()
        .add_controller(Controller::Threshold(faulty))
        .add_controller(Controller::Threshold(untouched));

    match group.poll(poll_time) {
        Err(equilibrium::controllers::ControlError::MalformedReading { text }) => {
            assert_eq!(text, "not a number");
        }
        _ => panic!("expected the faulty sensor to abort the poll"),
    }

    // the member after the faulty one was not polled: its read is still
    // pending
    match &group.get_controllers()[1] {
        Controller::Threshold(c) => {
            assert!(c.get_schedule().has_future_events());
            assert_eq!(c.get_schedule().get_events().len(), 0);
        }
        _ => panic!("unexpected controller kind"),
    }
}
