//! The sensor capability a controller reads from.

use vstd::prelude::*;
use crate::device::{InputDevice, SilentInput};

verus! {

/// An input device together with a cache of the last value it reported.
///
/// The low-level code that performs the actual read is injected as an
/// [`InputDevice`]. Nothing is assumed about what the device returns, so
/// everything proved about a controller holds for every possible reading.
pub struct Input {
    device: Box<dyn InputDevice>,
    state: Option<String>,
}

impl Input {
    /// The last reading, as a sequence of characters, or `None` before the
    /// first read.
    pub closed spec fn spec_state(&self) -> Option<Seq<char>> {
        match self.state {
            Some(ref s) => Some(s@),
            None => None,
        }
    }

    /// A new input backed by `device`, with nothing read yet.
    pub fn new(device: Box<dyn InputDevice>) -> (r: Input)
        ensures
            r.spec_state() is None,
    {
        Input { device, state: None }
    }

    /// Read the input once and cache the reported value.
    pub fn read(&mut self) -> (r: String)
        ensures
            final(self).spec_state() == Some(r@),
    {
        let state = self.device.read();
        self.state = Some(state.clone());
        state
    }

    /// The cached last reading. It is updated on every read and starts out
    /// as `None`.
    pub fn get_state(&self) -> (r: &Option<String>)
        ensures
            match r {
                Some(s) => self.spec_state() == Some(s@),
                None => self.spec_state() is None,
            },
    {
        &self.state
    }
}

impl Default for Input {
    /// An input whose device always reports an empty string.
    fn default() -> (r: Input)
        ensures
            r.spec_state() is None,
    {
        Input::new(Box::new(SilentInput))
    }
}

} // verus!
