//! The sending half of the channel that carries a single value.

use vstd::prelude::*;
use crate::rch::mpsc;
use crate::rch::mpsc::sender::Queued;
use crate::rch::{ClosedReason, SendErrorExt};

verus! {

/// An error returned when the value cannot be sent.
pub enum SendError<T> {
    /// The receiver was closed or dropped; holds the value.
    Closed(T),
    /// Sending failed.
    Failed,
}

impl<T> SendError<T> {
    /// Returns whether the receiver was closed or dropped.
    pub fn is_closed(&self) -> (r: bool)
        ensures
            r == (*self is Closed),
    {
        matches!(self, SendError::Closed(_))
    }

    /// Returns `true`, since the error is always due to disconnection.
    pub fn is_disconnected(&self) -> (r: bool)
        ensures
            r,
    {
        true
    }

    /// Discards the unsent value.
    pub fn without_item(self) -> (r: SendError<()>)
        ensures
            r == (match self {
                SendError::Closed(_) => SendError::Closed(()),
                SendError::Failed => SendError::Failed,
            }),
    {
        match self {
            SendError::Closed(_) => SendError::Closed(()),
            SendError::Failed => SendError::Failed,
        }
    }

    /// The message shown to users.
    pub open spec fn text(self) -> Seq<char> {
        match self {
            SendError::Closed(_) => "channel is closed"@,
            SendError::Failed => "send error"@,
        }
    }

    /// Returns the message shown to users.
    pub fn message(&self) -> (r: String)
        ensures
            r@ == self.text(),
    {
        match self {
            SendError::Closed(_) => String::from_str("channel is closed"),
            SendError::Failed => String::from_str("send error"),
        }
    }

    /// The error that a failure to send without waiting means.
    pub open spec fn of_try_send_error(err: mpsc::TrySendError<T>) -> SendError<T> {
        match err {
            mpsc::TrySendError::Closed(value) => SendError::Closed(value),
            _ => SendError::Failed,
        }
    }
}

impl<T> SendErrorExt for SendError<T> {
    open spec fn closed(&self) -> bool {
        *self is Closed
    }

    open spec fn disconnected(&self) -> bool {
        true
    }

    open spec fn item_specific(&self) -> bool {
        false
    }

    fn is_closed(&self) -> (r: bool) {
        SendError::is_closed(self)
    }

    fn is_disconnected(&self) -> (r: bool) {
        SendError::is_disconnected(self)
    }

    fn is_item_specific(&self) -> (r: bool) {
        false
    }
}

impl<T> From<mpsc::TrySendError<T>> for SendError<T> {
    fn from(err: mpsc::TrySendError<T>) -> (r: Self) {
        match err {
            mpsc::TrySendError::Closed(value) => SendError::Closed(value),
            _ => SendError::Failed,
        }
    }
}

impl<T> vstd::std_specs::convert::FromSpecImpl<mpsc::TrySendError<T>> for SendError<T> {
    open spec fn obeys_from_spec() -> bool {
        true
    }

    open spec fn from_spec(err: mpsc::TrySendError<T>) -> SendError<T> {
        SendError::of_try_send_error(err)
    }
}

/// The sending half of a channel for a single value.
pub struct Sender {
    /// The channel that carries the value.
    pub tx: mpsc::Sender,
}

impl Sender {
    /// The value to put into the queue, given its answer, or why it is not sent.
    pub open spec fn send_result<T>(self, value: T, queued: Queued) -> Result<T, SendError<T>> {
        match self.tx.try_send_result(value, queued) {
            Ok(value) => Ok(value),
            Err(err) => Err(SendError::of_try_send_error(err)),
        }
    }

    /// Sends the value, given the answer of the queue.
    ///
    /// Returns the value to put into the queue.
    pub fn send<T>(self, value: T, queued: Queued) -> (r: Result<T, SendError<T>>)
        ensures
            r == self.send_result(value, queued),
    {
        match self.tx.try_send(value, queued) {
            Ok(value) => Ok(value),
            Err(err) => Err(SendError::from(err)),
        }
    }

    /// Returns the reason for which the channel is closed, if it is.
    pub fn closed_reason(&self) -> (r: Option<ClosedReason>)
        ensures
            r == self.tx.spec_closed_reason(),
    {
        self.tx.closed_reason()
    }

    /// Returns whether the channel is closed.
    pub fn is_closed(&self) -> (r: bool)
        ensures
            r == (self.tx.closed is Some || self.tx.remote_send_err is Some),
    {
        self.tx.is_closed()
    }

    /// Returns the maximum size of the value.
    pub fn max_item_size(&self) -> (r: usize)
        ensures
            r == self.tx.max_item_size,
    {
        self.tx.max_item_size()
    }

    /// Sets the maximum size of the value.
    pub fn set_max_item_size(&mut self, max_item_size: usize)
        ensures
            final(self).tx == (mpsc::Sender { max_item_size, ..old(self).tx }),
    {
        self.tx.set_max_item_size(max_item_size);
    }
}

/// The size limit that was set is read back and nothing else of the sender changes.
pub proof fn law_size_limit_of_a_oneshot_sender(
    before: Sender,
    limit: usize,
    after: Sender,
    r: usize,
)
    requires
        exists|state: &mut Sender| #[trigger]
            call_ensures(Sender::set_max_item_size, (state, limit), ()) && *state == before
                && *final(state) == after,
        call_ensures(Sender::max_item_size, (&after,), r),
    ensures
        r == limit,
        after.tx == (mpsc::Sender { max_item_size: limit, ..before.tx }),
{
}

/// A value that could not be sent is given back exactly if the channel is closed. No error leaves
/// the channel usable and none is due to the value.
pub proof fn law_class_of_oneshot_error<T>(
    tried: mpsc::TrySendError<T>,
    err: SendError<T>,
    closed: bool,
    disconnected: bool,
    by_trait: (bool, bool, bool),
    without: SendError<()>,
)
    requires
        call_ensures(<SendError<T> as From<mpsc::TrySendError<T>>>::from, (tried,), err),
        call_ensures(SendError::<T>::is_closed, (&err,), closed),
        call_ensures(SendError::<T>::is_disconnected, (&err,), disconnected),
        call_ensures(<SendError<T> as SendErrorExt>::is_closed, (&err,), by_trait.0),
        call_ensures(<SendError<T> as SendErrorExt>::is_disconnected, (&err,), by_trait.1),
        call_ensures(<SendError<T> as SendErrorExt>::is_item_specific, (&err,), by_trait.2),
        call_ensures(SendError::<T>::without_item, (err,), without),
    ensures
        tried matches mpsc::TrySendError::Closed(value) ==> err == SendError::<T>::Closed(value),
        err is Closed <==> tried is Closed,
        closed <==> err is Closed,
        disconnected,
        by_trait == (closed, true, false),
        without is Closed <==> closed,
{
}

} // verus!
