//! The channel whose values go to every receiver.

pub mod receiver;

pub use receiver::{Receiver, RecvError, StreamError, TryRecvError};

use vstd::prelude::*;
use crate::chmux;
use crate::rch::base;

verus! {

/// A message to a receiver.
pub enum BroadcastMsg<T> {
    /// A value.
    Value(T),
    /// The receiver lagged behind and missed values.
    Lagged,
}

/// An error returned when a value cannot be sent.
pub enum SendError<T> {
    /// All receivers have been dropped; holds the value.
    Closed(T),
    /// Sending to the remote endpoint failed.
    Send(base::SendErrorKind),
    /// Opening the channel failed.
    Connect(chmux::ConnectError),
    /// Accepting the channel failed.
    Listen(chmux::ListenerError),
    /// An endpoint forwarding the channel failed to send.
    Forward,
}

impl<T> SendError<T> {
    /// Whether no further value can be sent.
    pub open spec fn spec_is_disconnected(self) -> bool {
        self matches SendError::Send(err) ==> err.spec_is_disconnected()
    }

    /// Returns whether no further value can be sent.
    pub fn is_disconnected(&self) -> (r: bool)
        ensures
            r == self.spec_is_disconnected(),
    {
        match self {
            SendError::Send(err) => err.is_disconnected(),
            SendError::Closed(_)
            | SendError::Connect(_)
            | SendError::Listen(_)
            | SendError::Forward => true,
        }
    }
}

} // verus!
