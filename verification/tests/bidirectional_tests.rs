use std::collections::VecDeque;
use std::sync::{Arc, Mutex};

use equilibrium::controllers::BidirectionalThreshold;
use equilibrium::device::InputDevice;
use equilibrium::time::{Duration, Instant};
use equilibrium::value::Decimal;
use equilibrium::{Input, Output};

struct FixedInput {
    value: String,
}

impl InputDevice for FixedInput {
    fn read(&mut self) -> String {
        self.value.clone()
    }
}

struct ScriptedInput {
    values: Arc<Mutex<VecDeque<String>>>,
}

impl InputDevice for ScriptedInput {
    fn read(&mut self) -> String {
        self.values.lock().unwrap().pop_front().unwrap()
    }
}

fn fixed_input(value: &str) -> Input {
    Input::new(Box::new(FixedInput { value: String::from(value) }))
}

#[test]
fn bidirectional_test_new() {
    let threshold = Decimal::from_int(10);
    let tolerance = Decimal::from_int(1);
    let input = Input::default();

    let increase_output = Output::default();
    let decrease_output = Output::default();
    let interval = Duration::seconds(1);

    let controller = BidirectionalThreshold::new(
        threshold,
        tolerance,
        input,
        increase_output,
        decrease_output,
        interval,
    );

    assert_eq!(controller.get_threshold(), threshold);
    assert_eq!(controller.get_tolerance(), tolerance);
    assert_eq!(controller.get_interval(), interval);

    assert!(!controller.get_schedule().has_future_events());

    assert!(controller.get_increase_output().get_state().is_none());
    assert!(controller.get_decrease_output().get_state().is_none());
}

#[test]
fn test_with_time() {
    let threshold = Decimal::from_int(10);
    let tolerance = Decimal::from_int(1);
    let input = Input::default();

    let increase_output = Output::default();
    let decrease_output = Output::default();
    let interval = Duration::seconds(1);

    let controller = BidirectionalThreshold::with_first(
        threshold,
        tolerance,
        input,
        increase_output,
        decrease_output,
        interval,
        Instant::from_millis(0),
    );

    assert_eq!(controller.get_threshold(), threshold);
    assert_eq!(controller.get_tolerance(), tolerance);
    assert_eq!(controller.get_interval(), interval);

    assert!(controller.get_schedule().has_future_events());
}

#[test]
fn test_handle_above_threshold() {
    let time = Instant::from_millis(0);
    let mut controller = BidirectionalThreshold::new(
        Decimal::from_int(10),
        Decimal::from_int(1),
        fixed_input("12.0"),
        Output::default(),
        Output::default(),
        Duration::seconds(1),
    )
    .schedule_next(time);

    controller.poll(time.plus(Duration::seconds(1))).unwrap();

    assert_eq!(controller.get_increase_output().get_state(), Some(false));
    assert_eq!(controller.get_decrease_output().get_state(), Some(true));
}

#[test]
fn bidirectional_test_handle_below_threshold() {
    let time = Instant::from_millis(0);
    let mut controller = BidirectionalThreshold::new(
        Decimal::from_int(10),
        Decimal::from_int(1),
        fixed_input("8.0"),
        Output::default(),
        Output::default(),
        Duration::seconds(1),
    )
    .schedule_next(time);

    controller.poll(time.plus(Duration::seconds(1))).unwrap();

    assert_eq!(controller.get_increase_output().get_state(), Some(true));
    assert_eq!(controller.get_decrease_output().get_state(), Some(false));
}

#[test]
fn test_handle_within_tolerance() {
    let time = Instant::from_millis(0);
    let mut controller = BidirectionalThreshold::new(
        Decimal::from_int(10),
        Decimal::from_int(1),
        fixed_input("10.0"),
        Output::default(),
        Output::default(),
        Duration::seconds(1),
    )
    .schedule_next(time);

    controller.poll(time.plus(Duration::seconds(1))).unwrap();

    assert_eq!(controller.get_increase_output().get_state(), Some(false));
    assert_eq!(controller.get_decrease_output().get_state(), Some(false));
}

#[test]
fn bidirectional_test_get_set_name() {
    let mut controller = BidirectionalThreshold::default();

    assert_eq!(controller.get_name(), None);

    controller.set_name(String::from("test"));

    assert_eq!(controller.get_name(), Some(String::from("test")));
}

#[test]
fn bidirectional_test_poll() {
    let threshold = Decimal::from_int(10);
    let tolerance = Decimal::from_int(1);

    let input_values = Arc::new(Mutex::new(VecDeque::from([
        "8.0".to_string(),
        "10.5".to_string(),
        "12.0".to_string(),
    ])));

    let input = Input::new(Box::new(ScriptedInput { values: input_values.clone() }));

    let increase_output = Output::default();
    let decrease_output = Output::default();
    let interval = Duration::seconds(1);

    let time = Instant::from_millis(1_600_000_000_000);
    let mut controller = BidirectionalThreshold::new(
        threshold,
        tolerance,
        input,
        increase_output,
        decrease_output,
        interval,
    )
    .schedule_next(time);

    // check default state
    assert!(controller.get_increase_output().get_state().is_none());
    assert!(controller.get_decrease_output().get_state().is_none());

    controller.poll(time).unwrap();

    assert!(controller.get_increase_output().get_state().is_none());
    assert!(controller.get_decrease_output().get_state().is_none());

    // check before first read
    controller.poll(time.plus(Duration::milliseconds(500))).unwrap();
    assert!(controller.get_increase_output().get_state().is_none());
    assert!(controller.get_decrease_output().get_state().is_none());

    // check first read which should be below threshold
    controller.poll(time.plus(Duration::seconds(1))).unwrap();
    assert_eq!(controller.get_increase_output().get_state(), Some(true));
    assert_eq!(controller.get_decrease_output().get_state(), Some(false));

    // check again before second read
    controller.poll(time.plus(Duration::milliseconds(1500))).unwrap();
    assert_eq!(controller.get_increase_output().get_state(), Some(true));
    assert_eq!(controller.get_decrease_output().get_state(), Some(false));

    // check second read which should be within tolerance
    controller.poll(time.plus(Duration::seconds(2))).unwrap();
    assert_eq!(controller.get_increase_output().get_state(), Some(false));
    assert_eq!(controller.get_decrease_output().get_state(), Some(false));

    // check again before third read
    controller.poll(time.plus(Duration::milliseconds(2500))).unwrap();
    assert_eq!(controller.get_increase_output().get_state(), Some(false));
    assert_eq!(controller.get_decrease_output().get_state(), Some(false));

    // check third read which should be above threshold
    controller.poll(time.plus(Duration::seconds(3))).unwrap();
    assert_eq!(controller.get_increase_output().get_state(), Some(false));
    assert_eq!(controller.get_decrease_output().get_state(), Some(true));

    // check again after third read
    controller.poll(time.plus(Duration::milliseconds(3500))).unwrap();
    assert_eq!(controller.get_increase_output().get_state(), Some(false));
    assert_eq!(controller.get_decrease_output().get_state(), Some(true));
}

/// The message a bidirectional controller emits names the entered zone and
/// carries the fired event's own timestamp and the reading.
#[test]
fn test_zone_messages() {
    let time = Instant::from_millis(0);
    let mut controller = BidirectionalThreshold::new(
        Decimal::from_int(10),
        Decimal::from_int(1),
        fixed_input("10.5"),
        Output::default(),
        Output::default(),
        Duration::seconds(1),
    )
    .schedule_next(time);

    let message = controller.poll(time.plus(Duration::seconds(5))).unwrap().unwrap();
    assert_eq!(message.get_content(), "Within Tolerance");
    assert_eq!(message.get_read_state().unwrap(), "10.5");
    // the event was due at one second, however late the poll came
    assert_eq!(message.get_timestamp(), Instant::from_millis(1000));
}
