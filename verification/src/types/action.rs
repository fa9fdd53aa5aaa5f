use vstd::prelude::*;

verus! {

/// The kinds of work a controller can schedule.
///
/// Actions are used for both input and output devices: a sensor may be polled
/// for its current value, and an actuator may be turned on or off. A
/// scheduler stores them inside [`crate::types::Event`]s so a controller
/// knows what to do when an event comes due.
#[derive(Debug, PartialEq, Eq, Structural, Copy, Clone)]
pub enum Action {
    /// The input device should be read.
    Read,
    /// The output device should be activated.
    On,
    /// The output device should be deactivated.
    Off,
}

} // verus!
