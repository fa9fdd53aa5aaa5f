use vstd::prelude::*;
use crate::time::Instant;

verus! {

/// A named record of one controller transition, returned for logging.
///
/// A message serves both for building graphs and for showing a log to a
/// user. It is an immutable value with no identity beyond its fields; any
/// serializer downstream must preserve the field set verbatim.
#[derive(Debug)]
pub struct Message {
    /// The name of the originating controller.
    pub name: String,
    /// A human-readable description of what took place.
    pub content: String,
    /// The instant at which the transition took place.
    pub timestamp: Instant,
    /// The sensor value that drove the transition, if one was read.
    pub read_state: Option<String>,
}

impl Message {
    /// A new message with the given fields.
    pub fn new(name: String, content: String, timestamp: Instant, read_state: Option<String>) -> (r: Message)
        ensures
            r == (Message { name, content, timestamp, read_state }),
    {
        Message { name, content, timestamp, read_state }
    }

    /// The name of the originating controller.
    pub fn get_controller_name(&self) -> (r: String)
        ensures
            r == self.name,
    {
        self.name.clone()
    }

    /// The sensor value that drove the transition, if one was read.
    pub fn get_read_state(&self) -> (r: Option<String>)
        ensures
            r == self.read_state,
    {
        match &self.read_state {
            Some(s) => Some(s.clone()),
            None => None,
        }
    }

    /// The instant at which the transition took place.
    pub fn get_timestamp(&self) -> (r: Instant)
        ensures
            r == self.timestamp,
    {
        self.timestamp
    }

    /// The description of what took place.
    pub fn get_content(&self) -> (r: String)
        ensures
            r == self.content,
    {
        self.content.clone()
    }
}

impl Clone for Message {
    /// An exact copy of the message.
    fn clone(&self) -> (r: Message)
        ensures
            r == *self,
    {
        Message {
            name: self.name.clone(),
            content: self.content.clone(),
            timestamp: self.timestamp,
            read_state: match &self.read_state {
                Some(s) => Some(s.clone()),
                None => None,
            },
        }
    }
}

} // verus!
