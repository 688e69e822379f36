//! Error taxonomy of the relay core.

use vstd::prelude::*;

verus! {

/// The errors a session can run into: a socket failure, bytes that are not
/// valid text, a failed bus publish, or a catch-all with a message.
///
/// Every variant carries a human-readable description; [`CommandError::message`]
/// hands it out for display.
#[derive(Debug, Clone, PartialEq, Eq)]
pub enum CommandError {
    /// A socket read or write failed.
    Io(String),
    /// The bytes read from the socket are not valid UTF-8.
    Decode(String),
    /// A bus publish failed (no live subscribers, or the bus is closed).
    Send(String),
    /// Any other failure, described by its message.
    Generic(String),
}

impl CommandError {
    /// Wraps a plain message as a generic error.
    pub fn new(msg: &str) -> (e: Self)
        ensures
            e is Generic && e->Generic_0@ == msg@,
    {
        CommandError::Generic(String::from_str(msg))
    }

    /// The description carried by the error, whatever its variant.
    pub fn message(&self) -> (m: String)
        ensures
            m@ == match self {
                CommandError::Io(s) => s@,
                CommandError::Decode(s) => s@,
                CommandError::Send(s) => s@,
                CommandError::Generic(s) => s@,
            },
    {
        match self {
            CommandError::Io(s) => s.clone(),
            CommandError::Decode(s) => s.clone(),
            CommandError::Send(s) => s.clone(),
            CommandError::Generic(s) => s.clone(),
        }
    }
}

} // verus!
