use chrono::{TimeZone, Utc};
use equilibrium::controllers::TimedOutput;
use equilibrium::time::{ClockTime, Duration, Instant};
use equilibrium::Output;

fn instant(year: i32, month: u32, day: u32, hour: u32, min: u32, sec: u32) -> Instant {
    let t = Utc.with_ymd_and_hms(year, month, day, hour, min, sec).unwrap();
    Instant::from_millis(t.timestamp_millis())
}

#[test]
fn timed_test_new() {
    let time = ClockTime::from_hms(5, 0, 0).unwrap();
    let duration = Duration::hours(8);
    let output = TimedOutput::new(Output::default(), time, duration);

    assert_eq!(output.get_output().get_state(), None);
}

#[test]
fn timed_test_get_set_name() {
    let mut controller = TimedOutput::default();

    assert_eq!(controller.get_name(), None);

    controller.set_name(String::from("test"));
    assert_eq!(controller.get_name(), Some(String::from("test")));
}

#[test]
fn timed_test_poll() {
    // time to use for polling
    let time = instant(2021, 1, 1, 4, 59, 59);

    let start_time = ClockTime::from_hms(5, 0, 0).unwrap();
    let duration = Duration::hours(12);

    // force the output state to false before the cycle starts
    let mut device = Output::default();
    device.deactivate();

    let mut output = TimedOutput::with_first(device, start_time, duration, time);

    // begin polling
    output.poll(time).unwrap();
    assert_eq!(output.get_output().get_state().unwrap(), false);

    let time = time.plus(Duration::seconds(1));
    output.poll(time).unwrap();
    assert_eq!(output.get_output().get_state().unwrap(), true);

    let time = time.plus(Duration::hours(6));
    output.poll(time).unwrap();
    assert_eq!(output.get_output().get_state().unwrap(), true);

    let time = time.plus(Duration::hours(6)).minus(Duration::seconds(1));
    output.poll(time).unwrap();
    assert_eq!(output.get_output().get_state().unwrap(), true);

    let time = time.plus(Duration::seconds(1));
    output.poll(time).unwrap();
    assert_eq!(output.get_output().get_state().unwrap(), false);
}

/// The daily cycle boundaries are sharp: one second before the start time
/// nothing fires, at the start time the output goes on, one second before
/// start plus duration it is still on, and at that instant it goes off.
#[test]
fn test_duty_cycle_boundaries() {
    let start_time = ClockTime::from_hms(5, 0, 0).unwrap();
    let duration = Duration::hours(12);
    let armed_at = instant(2021, 1, 1, 0, 0, 0);

    let mut controller = TimedOutput::with_first(Output::default(), start_time, duration, armed_at);

    controller.poll(instant(2021, 1, 1, 4, 59, 59)).unwrap();
    assert!(controller.get_output().get_state().is_none());

    let message = controller.poll(instant(2021, 1, 1, 5, 0, 0)).unwrap().unwrap();
    assert_eq!(message.get_content(), "Activated");
    assert_eq!(controller.get_output().get_state(), Some(true));

    controller.poll(instant(2021, 1, 1, 16, 59, 59)).unwrap();
    assert_eq!(controller.get_output().get_state(), Some(true));

    let message = controller.poll(instant(2021, 1, 1, 17, 0, 0)).unwrap().unwrap();
    assert_eq!(message.get_content(), "Deactivated");
    assert_eq!(controller.get_output().get_state(), Some(false));

    // the next day's cycle is armed for the same start time
    let message = controller.poll(instant(2021, 1, 2, 5, 0, 0)).unwrap().unwrap();
    assert_eq!(message.get_content(), "Activated");
    assert_eq!(controller.get_output().get_state(), Some(true));
}
