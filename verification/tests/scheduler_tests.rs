use chrono::{TimeZone, Utc};
use equilibrium::time::Instant;
use equilibrium::types::{Action, Event};
use equilibrium::Scheduler;

fn instant(year: i32, month: u32, day: u32, hour: u32, min: u32, sec: u32) -> Instant {
    let t = Utc.with_ymd_and_hms(year, month, day, hour, min, sec).unwrap();
    Instant::from_millis(t.timestamp_millis())
}

#[test]
fn scheduler_test_new() {
    let scheduler = Scheduler::new();

    assert_eq!(scheduler.has_future_events(), false);
}

#[test]
fn test_schedule_on() {
    let mut scheduler = Scheduler::new();
    let timestamp = instant(2023, 1, 1, 0, 0, 0);
    scheduler.schedule_on(timestamp);

    assert_eq!(scheduler.has_future_events(), true);
}

#[test]
fn test_schedule_off() {
    let mut scheduler = Scheduler::new();
    let timestamp = instant(2023, 1, 1, 0, 0, 0);
    scheduler.schedule_off(timestamp);

    assert_eq!(scheduler.has_future_events(), true);
}

#[test]
fn test_schedule_read() {
    let mut scheduler = Scheduler::new();
    let timestamp = instant(2023, 1, 1, 0, 0, 0);
    scheduler.schedule_read(timestamp);

    assert_eq!(scheduler.has_future_events(), true);
}

#[test]
fn test_attempt_execution() {
    let mut scheduler = Scheduler::new();
    let timestamp = instant(2023, 1, 1, 0, 0, 0);
    scheduler.schedule_on(timestamp);

    let timestamp = instant(2023, 1, 1, 0, 0, 1);
    let event = scheduler.attempt_execution(timestamp);

    assert!(event.is_some());
    assert_eq!(event.unwrap().get_action(), Action::On);
    assert_eq!(scheduler.has_future_events(), false);
    assert_eq!(scheduler.get_events().len(), 1);

    // two events at once: the earliest-inserted due event fires first
    let timestamp = instant(2023, 1, 1, 0, 1, 0);
    scheduler.schedule_off(timestamp);

    let timestamp = instant(2023, 1, 1, 0, 3, 0);
    scheduler.schedule_on(timestamp);

    let timestamp = instant(2023, 1, 1, 0, 2, 0);
    let event = scheduler.attempt_execution(timestamp);

    assert!(event.is_some());
    assert_eq!(event.unwrap().get_action(), Action::Off);
    assert_eq!(scheduler.has_future_events(), true);
    assert_eq!(scheduler.get_events().len(), 2);

    let timestamp = instant(2023, 1, 1, 0, 4, 0);
    let event = scheduler.attempt_execution(timestamp);

    assert!(event.is_some());
    assert_eq!(event.unwrap().get_action(), Action::On);
    assert_eq!(scheduler.has_future_events(), false);
    assert_eq!(scheduler.get_events().len(), 3);
}

#[test]
fn event_test_new() {
    let timestamp = instant(2023, 1, 1, 0, 0, 0);
    let event = Event::new(Action::Read, timestamp);

    assert_eq!(event.get_action(), Action::Read);
    assert_eq!(event.get_timestamp(), &timestamp);
    assert!(event.get_value().is_none());
}

#[test]
fn test_should_execute() {
    let timestamp = instant(2023, 1, 1, 0, 0, 0);
    let event = Event::new(Action::Read, timestamp);

    let time = instant(2022, 1, 1, 0, 0, 0);
    assert_eq!(event.should_execute(time), false);

    let time = instant(2023, 1, 1, 0, 0, 0);
    assert_eq!(event.should_execute(time), true);

    let time = instant(2024, 1, 1, 0, 0, 0);
    assert_eq!(event.should_execute(time), true);
}

/// The due-check is monotone in the query time: once an event is due it
/// stays due at every later instant.
#[test]
fn test_due_check_monotonic() {
    let event = Event::new(Action::Read, Instant::from_millis(100));

    assert_eq!(event.should_execute(Instant::from_millis(50)), false);
    assert_eq!(event.should_execute(Instant::from_millis(100)), true);
    assert_eq!(event.should_execute(Instant::from_millis(101)), true);
    assert_eq!(event.should_execute(Instant::from_millis(1_000_000)), true);
}

/// Firing conserves the total event count: exactly the fired event moves
/// from the pending list to the history.
#[test]
fn test_execution_conserves_events() {
    let mut scheduler = Scheduler::new();
    scheduler.schedule_on(Instant::from_millis(10));
    scheduler.schedule_off(Instant::from_millis(20));
    assert_eq!(scheduler.get_future_events().len(), 2);
    assert_eq!(scheduler.get_events().len(), 0);

    let fired = scheduler.attempt_execution(Instant::from_millis(15));
    assert_eq!(fired.as_ref().unwrap().get_action(), Action::On);
    assert_eq!(scheduler.get_future_events().len(), 1);
    assert_eq!(scheduler.get_events().len(), 1);
    assert_eq!(scheduler.get_events()[0].get_action(), Action::On);
    assert_eq!(scheduler.get_future_events()[0].get_action(), Action::Off);

    // nothing due: no event fires and nothing moves
    let fired = scheduler.attempt_execution(Instant::from_millis(15));
    assert!(fired.is_none());
    assert_eq!(scheduler.get_future_events().len(), 1);
    assert_eq!(scheduler.get_events().len(), 1);
}

/// A fired event leaves the pending list for good: repeating the same
/// query fires each instance at most once.
#[test]
fn test_fired_event_not_refired() {
    let mut scheduler = Scheduler::new();
    scheduler.schedule_read(Instant::from_millis(5));
    scheduler.schedule_read(Instant::from_millis(5));

    assert!(scheduler.attempt_execution(Instant::from_millis(5)).is_some());
    assert!(scheduler.attempt_execution(Instant::from_millis(5)).is_some());
    assert!(scheduler.attempt_execution(Instant::from_millis(5)).is_none());
    assert_eq!(scheduler.get_events().len(), 2);
}
