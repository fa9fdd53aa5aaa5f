//! The actuator capability a controller drives.

use vstd::prelude::*;
use crate::device::{OutputDevice, SilentOutput};

verus! {

/// A binary output device together with the last commanded state.
///
/// The low-level code that moves the actuator is injected as an
/// [`OutputDevice`]. The cached state starts out unset, which is distinct
/// from both `true` and `false`: nothing has been commanded yet.
pub struct Output {
    device: Box<dyn OutputDevice>,
    state: Option<bool>,
}

impl Output {
    /// The last commanded state, or `None` before the first command.
    pub closed spec fn spec_state(&self) -> Option<bool> {
        self.state
    }

    /// A new output backed by `device`, with nothing commanded yet.
    pub fn new(device: Box<dyn OutputDevice>) -> (r: Output)
        ensures
            r.spec_state() is None,
    {
        Output { device, state: None }
    }

    /// Command the output on.
    pub fn activate(&mut self)
        ensures
            final(self).spec_state() == Some(true),
    {
        self.state = Some(true);
        self.device.write(true);
    }

    /// Command the output off.
    pub fn deactivate(&mut self)
        ensures
            final(self).spec_state() == Some(false),
    {
        self.state = Some(false);
        self.device.write(false);
    }

    /// The last commanded state. It is updated on every command and starts
    /// out as `None`.
    pub fn get_state(&self) -> (r: Option<bool>)
        ensures
            r == self.spec_state(),
    {
        self.state
    }
}

impl Default for Output {
    /// An output whose device ignores every command.
    fn default() -> (r: Output)
        ensures
            r.spec_state() is None,
    {
        Output::new(Box::new(SilentOutput))
    }
}

} // verus!
