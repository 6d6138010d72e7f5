//! Messages exchanged between read/write locks and the owner.

use vstd::prelude::*;
use crate::rch::watch::receiver::is_dead;
use crate::rch::{mpsc, oneshot, watch};

verus! {

/// A read request from a lock to the owner.
pub struct ReadRequest {
    /// Channel for sending the value.
    pub value_tx: oneshot::Sender,
}

/// A write request from a lock to the owner.
pub struct WriteRequest {
    /// Channel for sending the current value.
    pub value_tx: oneshot::Sender,
    /// Channel for receiving the modified value.
    pub new_value_rx: oneshot::Receiver,
    /// Channel for confirming that the modified value has been stored.
    pub confirm_tx: oneshot::Sender,
}

/// A value together with the channels that invalidate it.
pub struct Value<T> {
    /// The shared value.
    pub value: T,
    /// Tells the owner that all instances of this value have been dropped.
    pub dropped_tx: mpsc::Sender,
    /// Tells whether the owner has invalidated the value.
    pub invalid_rx: watch::Receiver<bool>,
}

impl<T> Value<T> {
    /// Whether the owner is there and has not invalidated the value.
    pub open spec fn valid(self) -> bool {
        &&& self.dropped_tx.closed is None
        &&& self.dropped_tx.remote_send_err is None
        &&& self.invalid_rx.value matches Ok(invalid)
        &&& !invalid
    }

    /// Whether the owner has invalidated the value, was dropped, or can no longer be heard.
    pub open spec fn invalidated(self) -> bool {
        self.invalid_rx.value != Ok::<bool, watch::RecvError>(false)
            || self.invalid_rx.sender_dropped
    }

    /// Whether waiting for the owner to invalidate the value is over.
    pub open spec fn wait_is_over(self) -> bool {
        ||| self.invalid_rx.value == Ok::<bool, watch::RecvError>(true)
        ||| is_dead(self.invalid_rx.value)
        ||| self.invalid_rx.sender_dropped
    }

    /// Returns whether the owner is there and has not invalidated the value.
    pub fn is_valid(&self) -> (r: bool)
        ensures
            r == self.valid(),
    {
        if self.dropped_tx.is_closed() {
            return false;
        }
        match self.invalid_rx.borrow() {
            Ok(invalid) => !*invalid,
            Err(_) => false,
        }
    }
}

} // verus!
