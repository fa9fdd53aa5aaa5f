//! equilibrium is a framework for building automated control systems.
//!
//! Controllers decide when to activate or deactivate binary output devices,
//! either from periodic sensor samples compared against a threshold, or from a
//! wall-clock schedule. Every decision is driven by polling: an external
//! driver supplies the current time, each controller asks its scheduler
//! whether an event is due, executes the due action, re-arms the next event,
//! and reports the transition as a message.
//!
//! The crate is hardware-agnostic: the low-level code that touches a sensor or
//! an actuator is injected through the [`device::InputDevice`] and
//! [`device::OutputDevice`] interfaces.

pub mod time;
pub mod device;
pub mod types;
pub mod value;
pub mod scheduler;
mod input;
mod output;
pub mod controllers;
mod group;
mod cadence;

pub use scheduler::Scheduler;
pub use input::Input;
pub use output::Output;
pub use group::ControllerGroup;
pub use group::spec_collect;
pub use group::{poll_aborted, poll_completed, poll_failed, polled_all};
pub use cadence::Cadence;
