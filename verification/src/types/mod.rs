//! Primitive types used throughout the library

mod action;
mod event;
mod message;

pub use action::Action;
pub use event::Event;
pub use message::Message;
