//! Hardware access interfaces.
//!
//! The crate never talks to a sensor or an actuator directly: users inject
//! the low-level code through these two interfaces. The contracts say nothing
//! about what a device does, so the controllers are verified for every
//! possible device behaviour.

use vstd::prelude::*;

verus! {

/// Low-level code that samples a physical input and reports it as text.
pub trait InputDevice {
    /// Sample the device once. May block until a sample is available.
    fn read(&mut self) -> String;
}

/// Low-level code that drives a binary physical output.
pub trait OutputDevice {
    /// Command the device on (`true`) or off (`false`).
    fn write(&mut self, on: bool);
}

/// An input that always reports an empty reading; the default sensor of an
/// [`crate::Input`] built without real hardware.
pub struct SilentInput;

impl InputDevice for SilentInput {
    fn read(&mut self) -> String {
        String::new()
    }
}

/// An output that ignores every command; the default actuator of an
/// [`crate::Output`] built without real hardware.
pub struct SilentOutput;

impl OutputDevice for SilentOutput {
    fn write(&mut self, _on: bool) {
    }
}

} // verus!
