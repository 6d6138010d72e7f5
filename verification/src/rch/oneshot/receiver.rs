//! The receiving half of the channel that carries a single value.

use vstd::prelude::*;
use crate::chmux;
use crate::rch::base;
use crate::rch::mpsc;
use crate::rch::mpsc::receiver::{held_back, is_held_back, Taken};
use crate::rch::ClosedReason;
use crate::text::concat;

verus! {

/// An error returned when the value cannot be received.
pub enum RecvError {
    /// The sender was dropped without sending.
    Closed,
    /// Receiving or decoding the value failed.
    Receive(base::RecvError),
    /// Opening a channel contained in the value failed.
    Connect(chmux::ConnectError),
    /// Accepting a channel contained in the value failed.
    Listen(chmux::ListenerError),
    /// An endpoint forwarding this channel reported a failure.
    ///
    /// The failure is missing when that endpoint reported one that is unknown here.
    Remote(Option<Box<RecvError>>),
}

impl RecvError {
    /// Whether the sender is gone or the connection was rejected or failed.
    pub open spec fn spec_is_disconnected(self) -> bool
        decreases self,
    {
        match self {
            RecvError::Receive(err) => err.spec_is_disconnected(),
            RecvError::Closed | RecvError::Connect(_) | RecvError::Listen(_) => true,
            RecvError::Remote(Some(err)) => err.spec_is_disconnected(),
            RecvError::Remote(None) => false,
        }
    }

    /// Returns whether the sender is gone or the connection was rejected or failed.
    pub fn is_disconnected(&self) -> (r: bool)
        ensures
            r == self.spec_is_disconnected(),
        decreases self,
    {
        match self {
            RecvError::Receive(err) => err.is_disconnected(),
            RecvError::Closed | RecvError::Connect(_) | RecvError::Listen(_) => true,
            RecvError::Remote(Some(err)) => err.is_disconnected(),
            RecvError::Remote(None) => false,
        }
    }

    /// The message shown to users.
    pub open spec fn text(self) -> Seq<char>
        decreases self,
    {
        match self {
            RecvError::Closed => "channel is closed"@,
            RecvError::Receive(err) => "receive error: "@ + err.text(),
            RecvError::Connect(err) => "connect error: "@ + err.text(),
            RecvError::Listen(err) => "listen error: "@ + err.text(),
            RecvError::Remote(Some(err)) => "remote "@ + err.text(),
            RecvError::Remote(None) => "unknown remote error"@,
        }
    }

    /// Returns the message shown to users.
    pub fn message(&self) -> (r: String)
        ensures
            r@ == self.text(),
        decreases self,
    {
        match self {
            RecvError::Closed => String::from_str("channel is closed"),
            RecvError::Receive(err) => concat("receive error: ", err.message().as_str()),
            RecvError::Connect(err) => concat("connect error: ", err.message().as_str()),
            RecvError::Listen(err) => concat("listen error: ", err.message().as_str()),
            RecvError::Remote(Some(err)) => concat("remote ", err.message().as_str()),
            RecvError::Remote(None) => String::from_str("unknown remote error"),
        }
    }

    /// The same failure of the underlying channel.
    pub open spec fn of_mpsc(err: mpsc::RecvError) -> RecvError
        decreases err,
    {
        match err {
            mpsc::RecvError::Receive(err) => RecvError::Receive(err),
            mpsc::RecvError::Connect(err) => RecvError::Connect(err),
            mpsc::RecvError::Listen(err) => RecvError::Listen(err),
            mpsc::RecvError::Remote(Some(err)) => RecvError::Remote(
                Some(Box::new(RecvError::of_mpsc(*err))),
            ),
            mpsc::RecvError::Remote(None) => RecvError::Remote(None),
        }
    }

    /// Returns the same failure of the underlying channel.
    pub fn from_mpsc(err: mpsc::RecvError) -> (r: Self)
        ensures
            r == RecvError::of_mpsc(err),
        decreases err,
    {
        match err {
            mpsc::RecvError::Receive(err) => RecvError::Receive(err),
            mpsc::RecvError::Connect(err) => RecvError::Connect(err),
            mpsc::RecvError::Listen(err) => RecvError::Listen(err),
            mpsc::RecvError::Remote(Some(err)) => RecvError::Remote(
                Some(Box::new(RecvError::from_mpsc(*err))),
            ),
            mpsc::RecvError::Remote(None) => RecvError::Remote(None),
        }
    }
}

impl From<mpsc::RecvError> for RecvError {
    fn from(err: mpsc::RecvError) -> (r: Self) {
        RecvError::from_mpsc(err)
    }
}

impl vstd::std_specs::convert::FromSpecImpl<mpsc::RecvError> for RecvError {
    open spec fn obeys_from_spec() -> bool {
        true
    }

    open spec fn from_spec(err: mpsc::RecvError) -> RecvError {
        RecvError::of_mpsc(err)
    }
}

/// An error returned when attempting to receive without waiting.
pub enum TryRecvError {
    /// The value has not arrived yet.
    Empty,
    /// The sender was dropped without sending.
    Closed,
    /// Receiving or decoding the value failed.
    Receive(base::RecvError),
    /// Opening a channel contained in the value failed.
    Connect(chmux::ConnectError),
    /// Accepting a channel contained in the value failed.
    Listen(chmux::ListenerError),
    /// An endpoint forwarding this channel reported a failure.
    Remote(Option<Box<RecvError>>),
}

impl TryRecvError {
    /// The message shown to users.
    pub open spec fn text(self) -> Seq<char> {
        match self {
            TryRecvError::Empty => "channel is empty"@,
            TryRecvError::Closed => "channel is closed"@,
            TryRecvError::Receive(err) => "receive error: "@ + err.text(),
            TryRecvError::Connect(err) => "connect error: "@ + err.text(),
            TryRecvError::Listen(err) => "listen error: "@ + err.text(),
            TryRecvError::Remote(Some(err)) => "remote "@ + err.text(),
            TryRecvError::Remote(None) => "unknown remote error"@,
        }
    }

    /// Returns the message shown to users.
    pub fn message(&self) -> (r: String)
        ensures
            r@ == self.text(),
    {
        match self {
            TryRecvError::Empty => String::from_str("channel is empty"),
            TryRecvError::Closed => String::from_str("channel is closed"),
            TryRecvError::Receive(err) => concat("receive error: ", err.message().as_str()),
            TryRecvError::Connect(err) => concat("connect error: ", err.message().as_str()),
            TryRecvError::Listen(err) => concat("listen error: ", err.message().as_str()),
            TryRecvError::Remote(Some(err)) => concat("remote ", err.message().as_str()),
            TryRecvError::Remote(None) => String::from_str("unknown remote error"),
        }
    }

    /// The same failure of the underlying channel.
    pub open spec fn of_mpsc(err: mpsc::TryRecvError) -> TryRecvError {
        match err {
            mpsc::TryRecvError::Empty => TryRecvError::Empty,
            mpsc::TryRecvError::Closed => TryRecvError::Closed,
            mpsc::TryRecvError::Receive(err) => TryRecvError::Receive(err),
            mpsc::TryRecvError::Connect(err) => TryRecvError::Connect(err),
            mpsc::TryRecvError::Listen(err) => TryRecvError::Listen(err),
            mpsc::TryRecvError::Remote(Some(err)) => TryRecvError::Remote(
                Some(Box::new(RecvError::of_mpsc(*err))),
            ),
            mpsc::TryRecvError::Remote(None) => TryRecvError::Remote(None),
        }
    }

    /// The same failure of receiving without waiting.
    pub open spec fn of_recv_error(err: RecvError) -> TryRecvError {
        match err {
            RecvError::Closed => TryRecvError::Closed,
            RecvError::Receive(err) => TryRecvError::Receive(err),
            RecvError::Connect(err) => TryRecvError::Connect(err),
            RecvError::Listen(err) => TryRecvError::Listen(err),
            RecvError::Remote(err) => TryRecvError::Remote(err),
        }
    }
}

impl From<mpsc::TryRecvError> for TryRecvError {
    fn from(err: mpsc::TryRecvError) -> (r: Self) {
        match err {
            mpsc::TryRecvError::Empty => TryRecvError::Empty,
            mpsc::TryRecvError::Closed => TryRecvError::Closed,
            mpsc::TryRecvError::Receive(err) => TryRecvError::Receive(err),
            mpsc::TryRecvError::Connect(err) => TryRecvError::Connect(err),
            mpsc::TryRecvError::Listen(err) => TryRecvError::Listen(err),
            mpsc::TryRecvError::Remote(Some(err)) => TryRecvError::Remote(
                Some(Box::new(RecvError::from_mpsc(*err))),
            ),
            mpsc::TryRecvError::Remote(None) => TryRecvError::Remote(None),
        }
    }
}

impl vstd::std_specs::convert::FromSpecImpl<mpsc::TryRecvError> for TryRecvError {
    open spec fn obeys_from_spec() -> bool {
        true
    }

    open spec fn from_spec(err: mpsc::TryRecvError) -> TryRecvError {
        TryRecvError::of_mpsc(err)
    }
}

impl From<RecvError> for TryRecvError {
    fn from(err: RecvError) -> (r: Self) {
        match err {
            RecvError::Closed => TryRecvError::Closed,
            RecvError::Receive(err) => TryRecvError::Receive(err),
            RecvError::Connect(err) => TryRecvError::Connect(err),
            RecvError::Listen(err) => TryRecvError::Listen(err),
            RecvError::Remote(err) => TryRecvError::Remote(err),
        }
    }
}

impl vstd::std_specs::convert::FromSpecImpl<RecvError> for TryRecvError {
    open spec fn obeys_from_spec() -> bool {
        true
    }

    open spec fn from_spec(err: RecvError) -> TryRecvError {
        TryRecvError::of_recv_error(err)
    }
}

impl TryFrom<TryRecvError> for RecvError {
    type Error = TryRecvError;

    fn try_from(err: TryRecvError) -> (r: Result<Self, TryRecvError>) {
        match err {
            TryRecvError::Empty => Err(TryRecvError::Empty),
            TryRecvError::Closed => Ok(RecvError::Closed),
            TryRecvError::Receive(err) => Ok(RecvError::Receive(err)),
            TryRecvError::Connect(err) => Ok(RecvError::Connect(err)),
            TryRecvError::Listen(err) => Ok(RecvError::Listen(err)),
            TryRecvError::Remote(err) => Ok(RecvError::Remote(err)),
        }
    }
}

impl vstd::std_specs::convert::TryFromSpecImpl<TryRecvError> for RecvError {
    open spec fn obeys_try_from_spec() -> bool {
        true
    }

    open spec fn try_from_spec(err: TryRecvError) -> Result<RecvError, TryRecvError> {
        match err {
            TryRecvError::Empty => Err(TryRecvError::Empty),
            TryRecvError::Closed => Ok(RecvError::Closed),
            TryRecvError::Receive(err) => Ok(RecvError::Receive(err)),
            TryRecvError::Connect(err) => Ok(RecvError::Connect(err)),
            TryRecvError::Listen(err) => Ok(RecvError::Listen(err)),
            TryRecvError::Remote(err) => Ok(RecvError::Remote(err)),
        }
    }
}

/// The receiving half of a channel for a single value.
pub struct Receiver {
    /// The channel that carries the value.
    pub rx: mpsc::Receiver,
}

impl Receiver {
    /// Closes the receiver and returns the reason to publish to the sender.
    pub fn close(&mut self) -> (r: ClosedReason)
        ensures
            r == ClosedReason::Closed,
            final(self).rx == (mpsc::Receiver { closed: true, ..old(self).rx }),
    {
        self.rx.close()
    }

    /// What is reported of what came out of the queue: an item or its end.
    pub open spec fn polled<T>(self, item: Option<Result<T, mpsc::RecvError>>) -> Option<
        Result<T, RecvError>,
    > {
        match item {
            Some(item) => if is_held_back(item) {
                None
            } else {
                match item {
                    Ok(value) => Some(Ok(value)),
                    Err(err) => Some(Err(RecvError::of_mpsc(err))),
                }
            },
            None => match self.rx.final_err {
                Some(err) => Some(Err(RecvError::of_mpsc(err))),
                None => Some(Err(RecvError::Closed)),
            },
        }
    }

    /// Processes what came out of the queue: an item or its end.
    ///
    /// Returns what to report, or `None` if the queue is to be asked again.
    pub fn poll<T>(&mut self, item: Option<Result<T, mpsc::RecvError>>) -> (r: Option<
        Result<T, RecvError>,
    >)
        ensures
            r == old(self).polled(item),
            final(self).rx == (mpsc::Receiver {
                final_err: match item {
                    Some(item) => held_back(old(self).rx.final_err, seq![item]),
                    None => None,
                },
                ..old(self).rx
            }),
    {
        match self.rx.recv(item) {
            None => None,
            Some(Ok(Some(value))) => Some(Ok(value)),
            Some(Ok(None)) => Some(Err(RecvError::Closed)),
            Some(Err(err)) => Some(Err(RecvError::from(err))),
        }
    }

    /// Processes what the queue gave without waiting.
    ///
    /// Returns what to report, or `None` if the queue is to be asked again.
    pub fn try_recv<T>(&mut self, taken: Taken<T>) -> (r: Option<Result<T, TryRecvError>>)
        ensures
            match taken {
                Taken::Item(item) => {
                    &&& r == (if is_held_back(item) {
                        None
                    } else {
                        match item {
                            Ok(value) => Some(Ok::<T, TryRecvError>(value)),
                            Err(err) => Some(
                                Err(
                                    TryRecvError::of_mpsc(mpsc::TryRecvError::of_recv_error(err)),
                                ),
                            ),
                        }
                    })
                    &&& final(self).rx == (mpsc::Receiver {
                        final_err: held_back(old(self).rx.final_err, seq![item]),
                        ..old(self).rx
                    })
                },
                Taken::Disconnected => {
                    &&& r == (match old(self).rx.final_err {
                        Some(err) => Some(
                            Err::<T, TryRecvError>(
                                TryRecvError::of_mpsc(mpsc::TryRecvError::of_recv_error(err)),
                            ),
                        ),
                        None => Some(Err(TryRecvError::Closed)),
                    })
                    &&& final(self).rx == (mpsc::Receiver { final_err: None, ..old(self).rx })
                },
                Taken::Empty => {
                    &&& r == Some(Err::<T, TryRecvError>(TryRecvError::Empty))
                    &&& *final(self) == *old(self)
                },
            },
    {
        match self.rx.try_recv(taken) {
            None => None,
            Some(Ok(value)) => Some(Ok(value)),
            Some(Err(err)) => Some(Err(TryRecvError::from(err))),
        }
    }

    /// Returns the maximum size of the value.
    pub fn max_item_size(&self) -> (r: usize)
        ensures
            r == self.rx.max_item_size,
    {
        self.rx.max_item_size()
    }

    /// Returns the receiver with another maximum size of the value.
    pub fn set_max_item_size(self, max_item_size: usize) -> (r: Self)
        ensures
            r.rx == (mpsc::Receiver { max_item_size, successor: false, ..self.rx }),
    {
        Receiver { rx: self.rx.set_max_item_size(max_item_size) }
    }

    /// Returns the maximum size of the value of the remote sender.
    pub fn remote_max_item_size(&self) -> (r: Option<usize>)
        ensures
            r == self.rx.remote_max_item_size,
    {
        self.rx.remote_max_item_size()
    }
}

/// A failure of the underlying channel keeps its classification and message.
pub proof fn law_failure_is_kept(err: mpsc::RecvError)
    ensures
        RecvError::of_mpsc(err).spec_is_disconnected() == err.spec_is_disconnected(),
        RecvError::of_mpsc(err).text() == err.text(),
    decreases err,
{
    if let mpsc::RecvError::Remote(Some(inner)) = err {
        law_failure_is_kept(*inner);
    }
}

/// A failure of receiving is the same failure of trying to receive and comes back unchanged. That
/// nothing is there yet is no failure of receiving.
pub proof fn law_failure_of_trying_to_receive_one(
    err: RecvError,
    tried: TryRecvError,
    back: Result<RecvError, TryRecvError>,
    other: TryRecvError,
    r: Result<RecvError, TryRecvError>,
)
    requires
        call_ensures(<TryRecvError as From<RecvError>>::from, (err,), tried),
        call_ensures(<RecvError as TryFrom<TryRecvError>>::try_from, (tried,), back),
        call_ensures(<RecvError as TryFrom<TryRecvError>>::try_from, (other,), r),
    ensures
        back == Ok::<RecvError, TryRecvError>(err),
        err is Closed <==> tried is Closed,
        err matches RecvError::Receive(inner) ==> tried == TryRecvError::Receive(inner),
        err matches RecvError::Connect(inner) ==> tried == TryRecvError::Connect(inner),
        err matches RecvError::Listen(inner) ==> tried == TryRecvError::Listen(inner),
        err matches RecvError::Remote(inner) ==> tried == TryRecvError::Remote(inner),
        r is Err <==> other is Empty,
        r matches Err(same) ==> same == other,
{
}

/// A failure of the queue is the same failure of the channel, at whatever endpoint it occurred.
pub proof fn law_same_failure_of_the_queue(
    err: mpsc::RecvError,
    r: RecvError,
    converted: RecvError,
    tried: mpsc::TryRecvError,
    r_tried: TryRecvError,
    of_inner: RecvError,
)
    requires
        call_ensures(RecvError::from_mpsc, (err,), r),
        call_ensures(<RecvError as From<mpsc::RecvError>>::from, (err,), converted),
        call_ensures(<TryRecvError as From<mpsc::TryRecvError>>::from, (tried,), r_tried),
        tried matches mpsc::TryRecvError::Remote(Some(inner)) ==> call_ensures(
            RecvError::from_mpsc,
            (*inner,),
            of_inner,
        ),
    ensures
        converted == r,
        err matches mpsc::RecvError::Receive(inner) ==> r == RecvError::Receive(inner),
        err matches mpsc::RecvError::Connect(inner) ==> r == RecvError::Connect(inner),
        err matches mpsc::RecvError::Listen(inner) ==> r == RecvError::Listen(inner),
        err == mpsc::RecvError::Remote(None) ==> r == RecvError::Remote(None),
        err matches mpsc::RecvError::Remote(Some(inner)) ==> forall|same: RecvError| #[trigger]
            call_ensures(RecvError::from_mpsc, (*inner,), same) ==> r == RecvError::Remote(
                Some(Box::new(same)),
            ),
        tried is Empty <==> r_tried is Empty,
        tried is Closed <==> r_tried is Closed,
        tried matches mpsc::TryRecvError::Receive(inner) ==> r_tried == TryRecvError::Receive(inner),
        tried matches mpsc::TryRecvError::Connect(inner) ==> r_tried == TryRecvError::Connect(inner),
        tried matches mpsc::TryRecvError::Listen(inner) ==> r_tried == TryRecvError::Listen(inner),
        tried == mpsc::TryRecvError::Remote(None) ==> r_tried == TryRecvError::Remote(None),
        tried matches mpsc::TryRecvError::Remote(Some(_)) ==> r_tried == TryRecvError::Remote(
            Some(Box::new(of_inner)),
        ),
{
}

/// The size limit that was set is read back and nothing else of the receiver changes.
pub proof fn law_size_limit_of_a_oneshot_receiver(
    before: Receiver,
    limit: usize,
    after: Receiver,
    r: (usize, Option<usize>),
)
    requires
        call_ensures(Receiver::set_max_item_size, (before, limit), after),
        call_ensures(Receiver::max_item_size, (&after,), r.0),
        call_ensures(Receiver::remote_max_item_size, (&after,), r.1),
    ensures
        r == (limit, before.rx.remote_max_item_size),
        after.rx == (mpsc::Receiver { max_item_size: limit, successor: false, ..before.rx }),
{
}

} // verus!
