use std::collections::VecDeque;
use std::sync::{Arc, Mutex};

use equilibrium::device::{InputDevice, OutputDevice};
use equilibrium::{Input, Output};

struct FixedInput {
    value: String,
}

impl InputDevice for FixedInput {
    fn read(&mut self) -> String {
        self.value.clone()
    }
}

struct ScriptedInput {
    values: Arc<Mutex<VecDeque<String>>>,
}

impl InputDevice for ScriptedInput {
    fn read(&mut self) -> String {
        self.values.lock().unwrap().pop_front().unwrap()
    }
}

struct SharedOutput {
    state: Arc<Mutex<bool>>,
}

impl OutputDevice for SharedOutput {
    fn write(&mut self, on: bool) {
        let mut external_state = self.state.lock().unwrap();
        *external_state = on;
    }
}

#[test]
fn input_test_new() {
    let input = Input::new(Box::new(FixedInput { value: String::from("test") }));

    assert_eq!(input.get_state(), &None);
}

#[test]
fn test_read() {
    let mut input = Input::new(Box::new(FixedInput { value: String::from("test") }));

    assert_eq!(input.get_state(), &None);

    // Read the input
    let state = input.read();
    assert_eq!(state, String::from("test"));
    assert_eq!(input.get_state(), &Some(String::from("test")));
}

/// An example that shows how to get a dynamic input in tests
#[test]
fn test_read_twice() {
    let state_sequence = Arc::new(Mutex::new(VecDeque::from([
        "test1".to_string(),
        "test2".to_string(),
    ])));
    let mut input = Input::new(Box::new(ScriptedInput { values: state_sequence.clone() }));

    assert_eq!(input.get_state(), &None);

    // Read the input
    let state = input.read();
    assert_eq!(state, String::from("test1"));
    assert_eq!(input.get_state(), &Some(String::from("test1")));

    // Read the input again
    let state = input.read();
    assert_eq!(state, String::from("test2"));
    assert_eq!(input.get_state(), &Some(String::from("test2")));
}

#[test]
fn output_test_new() {
    let output = Output::default();

    assert_eq!(output.get_state(), None);
}

#[test]
fn test_activate() {
    let external_state = Arc::new(Mutex::new(false));
    let mut output = Output::new(Box::new(SharedOutput { state: external_state.clone() }));

    // check default state
    assert_eq!(output.get_state(), None);

    output.activate();
    assert_eq!(output.get_state().unwrap(), true);
    assert_eq!(external_state.lock().unwrap().clone(), true);
}

#[test]
fn test_deactivate() {
    let external_state = Arc::new(Mutex::new(true));
    let mut output = Output::new(Box::new(SharedOutput { state: external_state.clone() }));

    // check default state
    assert_eq!(output.get_state(), None);

    output.deactivate();

    assert_eq!(external_state.lock().unwrap().clone(), false);
    assert_eq!(output.get_state().unwrap(), false);
}
