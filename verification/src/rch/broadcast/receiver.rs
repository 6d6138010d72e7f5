//! The receiving half of the channel whose values go to every receiver.

use vstd::prelude::*;
use crate::chmux;
use crate::rch::base;
use crate::rch::broadcast::BroadcastMsg;
use crate::rch::mpsc;
use crate::rch::mpsc::receiver::{held_back, is_held_back, Taken};
use crate::text::concat;

verus! {

/// An error returned while receiving.
pub enum RecvError {
    /// There are no more senders.
    Closed,
    /// The receiver lagged behind; the next receive returns the oldest retained value.
    Lagged,
    /// Receiving or decoding a value failed.
    Receive(base::RecvError),
    /// Opening a channel contained in a value failed.
    Connect(chmux::ConnectError),
    /// Accepting a channel contained in a value failed.
    Listen(chmux::ListenerError),
    /// An endpoint forwarding this channel reported a failure.
    ///
    /// The failure is missing when that endpoint reported one that is unknown here.
    Remote(Option<Box<RecvError>>),
}

impl RecvError {
    /// Returns whether there are no more senders.
    pub fn is_closed(&self) -> (r: bool)
        ensures
            r == (*self is Closed),
    {
        matches!(self, RecvError::Closed)
    }

    /// Returns whether the receiver lagged behind.
    pub fn is_lagged(&self) -> (r: bool)
        ensures
            r == (*self is Lagged),
    {
        matches!(self, RecvError::Lagged)
    }

    /// Whether no further value can be received.
    pub open spec fn spec_is_disconnected(self) -> bool
        decreases self,
    {
        match self {
            RecvError::Receive(err) => err.spec_is_disconnected(),
            RecvError::Closed | RecvError::Connect(_) | RecvError::Listen(_) => true,
            RecvError::Lagged => false,
            RecvError::Remote(Some(err)) => err.spec_is_disconnected(),
            RecvError::Remote(None) => false,
        }
    }

    /// Returns whether no further value can be received.
    pub fn is_disconnected(&self) -> (r: bool)
        ensures
            r == self.spec_is_disconnected(),
        decreases self,
    {
        match self {
            RecvError::Receive(err) => err.is_disconnected(),
            RecvError::Closed | RecvError::Connect(_) | RecvError::Listen(_) => true,
            RecvError::Lagged => false,
            RecvError::Remote(Some(err)) => err.is_disconnected(),
            RecvError::Remote(None) => false,
        }
    }

    /// The message shown to users.
    pub open spec fn text(self) -> Seq<char>
        decreases self,
    {
        match self {
            RecvError::Closed => "channel closed"@,
            RecvError::Lagged => "receiver lagged behind"@,
            RecvError::Receive(err) => "receive error: "@ + err.text(),
            RecvError::Connect(err) => "connect error: "@ + err.text(),
            RecvError::Listen(err) => "listen error: "@ + err.text(),
            RecvError::Remote(Some(err)) => "remote "@ + err.text(),
            RecvError::Remote(None) => "unknown remote error"@,
        }
    }

    /// Returns the message shown to users.
    pub fn message(&self) -> (r: String)
        ensures
            r@ == self.text(),
        decreases self,
    {
        match self {
            RecvError::Closed => String::from_str("channel closed"),
            RecvError::Lagged => String::from_str("receiver lagged behind"),
            RecvError::Receive(err) => concat("receive error: ", err.message().as_str()),
            RecvError::Connect(err) => concat("connect error: ", err.message().as_str()),
            RecvError::Listen(err) => concat("listen error: ", err.message().as_str()),
            RecvError::Remote(Some(err)) => concat("remote ", err.message().as_str()),
            RecvError::Remote(None) => String::from_str("unknown remote error"),
        }
    }

    /// The same failure of the underlying channel.
    pub open spec fn of_mpsc(err: mpsc::RecvError) -> RecvError
        decreases err,
    {
        match err {
            mpsc::RecvError::Receive(err) => RecvError::Receive(err),
            mpsc::RecvError::Connect(err) => RecvError::Connect(err),
            mpsc::RecvError::Listen(err) => RecvError::Listen(err),
            mpsc::RecvError::Remote(Some(err)) => RecvError::Remote(
                Some(Box::new(RecvError::of_mpsc(*err))),
            ),
            mpsc::RecvError::Remote(None) => RecvError::Remote(None),
        }
    }

    /// Returns the same failure of the underlying channel.
    pub fn from_mpsc(err: mpsc::RecvError) -> (r: Self)
        ensures
            r == RecvError::of_mpsc(err),
        decreases err,
    {
        match err {
            mpsc::RecvError::Receive(err) => RecvError::Receive(err),
            mpsc::RecvError::Connect(err) => RecvError::Connect(err),
            mpsc::RecvError::Listen(err) => RecvError::Listen(err),
            mpsc::RecvError::Remote(Some(err)) => RecvError::Remote(
                Some(Box::new(RecvError::from_mpsc(*err))),
            ),
            mpsc::RecvError::Remote(None) => RecvError::Remote(None),
        }
    }
}

impl From<mpsc::RecvError> for RecvError {
    fn from(err: mpsc::RecvError) -> (r: Self) {
        RecvError::from_mpsc(err)
    }
}

impl vstd::std_specs::convert::FromSpecImpl<mpsc::RecvError> for RecvError {
    open spec fn obeys_from_spec() -> bool {
        true
    }

    open spec fn from_spec(err: mpsc::RecvError) -> RecvError {
        RecvError::of_mpsc(err)
    }
}

/// An error returned when attempting to receive without waiting.
pub enum TryRecvError {
    /// No value is ready.
    Empty,
    /// There are no more senders.
    Closed,
    /// The receiver lagged behind.
    Lagged,
    /// Receiving or decoding a value failed.
    Receive(base::RecvError),
    /// Opening a channel contained in a value failed.
    Connect(chmux::ConnectError),
    /// Accepting a channel contained in a value failed.
    Listen(chmux::ListenerError),
    /// An endpoint forwarding this channel reported a failure.
    Remote(Option<Box<RecvError>>),
}

impl TryRecvError {
    /// Returns whether no value is ready.
    pub fn is_empty(&self) -> (r: bool)
        ensures
            r == (*self is Empty),
    {
        matches!(self, TryRecvError::Empty)
    }

    /// Returns whether there are no more senders.
    pub fn is_closed(&self) -> (r: bool)
        ensures
            r == (*self is Closed),
    {
        matches!(self, TryRecvError::Closed)
    }

    /// Returns whether the receiver lagged behind.
    pub fn is_lagged(&self) -> (r: bool)
        ensures
            r == (*self is Lagged),
    {
        matches!(self, TryRecvError::Lagged)
    }

    /// Whether no further value can be received.
    pub open spec fn spec_is_disconnected(self) -> bool {
        match self {
            TryRecvError::Receive(err) => err.spec_is_disconnected(),
            TryRecvError::Closed | TryRecvError::Connect(_) | TryRecvError::Listen(_) => true,
            TryRecvError::Empty | TryRecvError::Lagged => false,
            TryRecvError::Remote(Some(err)) => err.spec_is_disconnected(),
            TryRecvError::Remote(None) => false,
        }
    }

    /// Returns whether no further value can be received.
    pub fn is_disconnected(&self) -> (r: bool)
        ensures
            r == self.spec_is_disconnected(),
    {
        match self {
            TryRecvError::Receive(err) => err.is_disconnected(),
            TryRecvError::Closed | TryRecvError::Connect(_) | TryRecvError::Listen(_) => true,
            TryRecvError::Empty | TryRecvError::Lagged => false,
            TryRecvError::Remote(Some(err)) => err.is_disconnected(),
            TryRecvError::Remote(None) => false,
        }
    }

    /// The message shown to users.
    pub open spec fn text(self) -> Seq<char> {
        match self {
            TryRecvError::Empty => "channel empty"@,
            TryRecvError::Closed => "channel closed"@,
            TryRecvError::Lagged => "receiver lagged behind"@,
            TryRecvError::Receive(err) => "receive error: "@ + err.text(),
            TryRecvError::Connect(err) => "connect error: "@ + err.text(),
            TryRecvError::Listen(err) => "listen error: "@ + err.text(),
            TryRecvError::Remote(Some(err)) => "remote "@ + err.text(),
            TryRecvError::Remote(None) => "unknown remote error"@,
        }
    }

    /// Returns the message shown to users.
    pub fn message(&self) -> (r: String)
        ensures
            r@ == self.text(),
    {
        match self {
            TryRecvError::Empty => String::from_str("channel empty"),
            TryRecvError::Closed => String::from_str("channel closed"),
            TryRecvError::Lagged => String::from_str("receiver lagged behind"),
            TryRecvError::Receive(err) => concat("receive error: ", err.message().as_str()),
            TryRecvError::Connect(err) => concat("connect error: ", err.message().as_str()),
            TryRecvError::Listen(err) => concat("listen error: ", err.message().as_str()),
            TryRecvError::Remote(Some(err)) => concat("remote ", err.message().as_str()),
            TryRecvError::Remote(None) => String::from_str("unknown remote error"),
        }
    }

    /// The same failure of receiving without waiting.
    pub open spec fn of_recv_error(err: RecvError) -> TryRecvError {
        match err {
            RecvError::Closed => TryRecvError::Closed,
            RecvError::Lagged => TryRecvError::Lagged,
            RecvError::Receive(err) => TryRecvError::Receive(err),
            RecvError::Connect(err) => TryRecvError::Connect(err),
            RecvError::Listen(err) => TryRecvError::Listen(err),
            RecvError::Remote(err) => TryRecvError::Remote(err),
        }
    }

    /// The same failure of the underlying channel.
    pub open spec fn of_mpsc_try(err: mpsc::TryRecvError) -> TryRecvError {
        match err {
            mpsc::TryRecvError::Empty => TryRecvError::Empty,
            mpsc::TryRecvError::Closed => TryRecvError::Closed,
            mpsc::TryRecvError::Receive(err) => TryRecvError::Receive(err),
            mpsc::TryRecvError::Connect(err) => TryRecvError::Connect(err),
            mpsc::TryRecvError::Listen(err) => TryRecvError::Listen(err),
            mpsc::TryRecvError::Remote(Some(err)) => TryRecvError::Remote(
                Some(Box::new(RecvError::of_mpsc(*err))),
            ),
            mpsc::TryRecvError::Remote(None) => TryRecvError::Remote(None),
        }
    }
}

impl From<RecvError> for TryRecvError {
    fn from(err: RecvError) -> (r: Self) {
        match err {
            RecvError::Closed => TryRecvError::Closed,
            RecvError::Lagged => TryRecvError::Lagged,
            RecvError::Receive(err) => TryRecvError::Receive(err),
            RecvError::Connect(err) => TryRecvError::Connect(err),
            RecvError::Listen(err) => TryRecvError::Listen(err),
            RecvError::Remote(err) => TryRecvError::Remote(err),
        }
    }
}

impl vstd::std_specs::convert::FromSpecImpl<RecvError> for TryRecvError {
    open spec fn obeys_from_spec() -> bool {
        true
    }

    open spec fn from_spec(err: RecvError) -> TryRecvError {
        TryRecvError::of_recv_error(err)
    }
}

impl From<mpsc::RecvError> for TryRecvError {
    fn from(err: mpsc::RecvError) -> (r: Self) {
        TryRecvError::from(RecvError::from_mpsc(err))
    }
}

impl vstd::std_specs::convert::FromSpecImpl<mpsc::RecvError> for TryRecvError {
    open spec fn obeys_from_spec() -> bool {
        true
    }

    open spec fn from_spec(err: mpsc::RecvError) -> TryRecvError {
        TryRecvError::of_recv_error(RecvError::of_mpsc(err))
    }
}

impl From<mpsc::TryRecvError> for TryRecvError {
    fn from(err: mpsc::TryRecvError) -> (r: Self) {
        match err {
            mpsc::TryRecvError::Receive(err) => TryRecvError::Receive(err),
            mpsc::TryRecvError::Connect(err) => TryRecvError::Connect(err),
            mpsc::TryRecvError::Listen(err) => TryRecvError::Listen(err),
            mpsc::TryRecvError::Closed => TryRecvError::Closed,
            mpsc::TryRecvError::Empty => TryRecvError::Empty,
            mpsc::TryRecvError::Remote(Some(err)) => TryRecvError::Remote(
                Some(Box::new(RecvError::from_mpsc(*err))),
            ),
            mpsc::TryRecvError::Remote(None) => TryRecvError::Remote(None),
        }
    }
}

impl vstd::std_specs::convert::FromSpecImpl<mpsc::TryRecvError> for TryRecvError {
    open spec fn obeys_from_spec() -> bool {
        true
    }

    open spec fn from_spec(err: mpsc::TryRecvError) -> TryRecvError {
        TryRecvError::of_mpsc_try(err)
    }
}

impl TryFrom<TryRecvError> for RecvError {
    type Error = TryRecvError;

    fn try_from(err: TryRecvError) -> (r: Result<Self, TryRecvError>) {
        match err {
            TryRecvError::Empty => Err(TryRecvError::Empty),
            TryRecvError::Closed => Ok(RecvError::Closed),
            TryRecvError::Lagged => Ok(RecvError::Lagged),
            TryRecvError::Receive(err) => Ok(RecvError::Receive(err)),
            TryRecvError::Connect(err) => Ok(RecvError::Connect(err)),
            TryRecvError::Listen(err) => Ok(RecvError::Listen(err)),
            TryRecvError::Remote(err) => Ok(RecvError::Remote(err)),
        }
    }
}

impl vstd::std_specs::convert::TryFromSpecImpl<TryRecvError> for RecvError {
    open spec fn obeys_try_from_spec() -> bool {
        true
    }

    open spec fn try_from_spec(err: TryRecvError) -> Result<RecvError, TryRecvError> {
        match err {
            TryRecvError::Empty => Err(TryRecvError::Empty),
            TryRecvError::Closed => Ok(RecvError::Closed),
            TryRecvError::Lagged => Ok(RecvError::Lagged),
            TryRecvError::Receive(err) => Ok(RecvError::Receive(err)),
            TryRecvError::Connect(err) => Ok(RecvError::Connect(err)),
            TryRecvError::Listen(err) => Ok(RecvError::Listen(err)),
            TryRecvError::Remote(err) => Ok(RecvError::Remote(err)),
        }
    }
}

/// An error that occurs while receiving a stream of values, whose end is not an error.
pub enum StreamError {
    /// The receiver lagged behind.
    Lagged,
    /// Receiving or decoding a value failed.
    Receive(base::RecvError),
    /// Opening a channel contained in a value failed.
    Connect(chmux::ConnectError),
    /// Accepting a channel contained in a value failed.
    Listen(chmux::ListenerError),
    /// An endpoint forwarding this channel reported a failure.
    Remote(Option<Box<RecvError>>),
}

impl StreamError {
    /// Returns whether the receiver lagged behind.
    pub fn is_lagged(&self) -> (r: bool)
        ensures
            r == (*self is Lagged),
    {
        matches!(self, StreamError::Lagged)
    }

    /// Whether no further value can be received.
    pub open spec fn spec_is_disconnected(self) -> bool {
        match self {
            StreamError::Receive(err) => err.spec_is_disconnected(),
            StreamError::Connect(_) | StreamError::Listen(_) => true,
            StreamError::Lagged => false,
            StreamError::Remote(Some(err)) => err.spec_is_disconnected(),
            StreamError::Remote(None) => false,
        }
    }

    /// Returns whether no further value can be received.
    pub fn is_disconnected(&self) -> (r: bool)
        ensures
            r == self.spec_is_disconnected(),
    {
        match self {
            StreamError::Receive(err) => err.is_disconnected(),
            StreamError::Connect(_) | StreamError::Listen(_) => true,
            StreamError::Lagged => false,
            StreamError::Remote(Some(err)) => err.is_disconnected(),
            StreamError::Remote(None) => false,
        }
    }

    /// The message shown to users.
    pub open spec fn text(self) -> Seq<char> {
        match self {
            StreamError::Lagged => "receiver lagged behind"@,
            StreamError::Receive(err) => "receive error: "@ + err.text(),
            StreamError::Connect(err) => "connect error: "@ + err.text(),
            StreamError::Listen(err) => "listen error: "@ + err.text(),
            StreamError::Remote(Some(err)) => "remote "@ + err.text(),
            StreamError::Remote(None) => "unknown remote error"@,
        }
    }

    /// Returns the message shown to users.
    pub fn message(&self) -> (r: String)
        ensures
            r@ == self.text(),
    {
        match self {
            StreamError::Lagged => String::from_str("receiver lagged behind"),
            StreamError::Receive(err) => concat("receive error: ", err.message().as_str()),
            StreamError::Connect(err) => concat("connect error: ", err.message().as_str()),
            StreamError::Listen(err) => concat("listen error: ", err.message().as_str()),
            StreamError::Remote(Some(err)) => concat("remote ", err.message().as_str()),
            StreamError::Remote(None) => String::from_str("unknown remote error"),
        }
    }

    /// The same failure of a stream; the end of the channel is none.
    pub open spec fn of_recv_error(err: RecvError) -> Result<StreamError, RecvError> {
        match err {
            RecvError::Closed => Err(RecvError::Closed),
            RecvError::Lagged => Ok(StreamError::Lagged),
            RecvError::Receive(err) => Ok(StreamError::Receive(err)),
            RecvError::Connect(err) => Ok(StreamError::Connect(err)),
            RecvError::Listen(err) => Ok(StreamError::Listen(err)),
            RecvError::Remote(err) => Ok(StreamError::Remote(err)),
        }
    }
}

impl TryFrom<RecvError> for StreamError {
    type Error = RecvError;

    fn try_from(err: RecvError) -> (r: Result<Self, RecvError>) {
        match err {
            RecvError::Lagged => Ok(StreamError::Lagged),
            RecvError::Receive(err) => Ok(StreamError::Receive(err)),
            RecvError::Connect(err) => Ok(StreamError::Connect(err)),
            RecvError::Listen(err) => Ok(StreamError::Listen(err)),
            RecvError::Remote(err) => Ok(StreamError::Remote(err)),
            other => Err(other),
        }
    }
}

impl vstd::std_specs::convert::TryFromSpecImpl<RecvError> for StreamError {
    open spec fn obeys_try_from_spec() -> bool {
        true
    }

    open spec fn try_from_spec(err: RecvError) -> Result<StreamError, RecvError> {
        StreamError::of_recv_error(err)
    }
}

/// The result of receiving that a result of the underlying channel means.
pub open spec fn recv_result<T>(received: Result<Option<BroadcastMsg<T>>, mpsc::RecvError>) -> Result<
    T,
    RecvError,
> {
    match received {
        Ok(Some(BroadcastMsg::Value(value))) => Ok(value),
        Ok(Some(BroadcastMsg::Lagged)) => Err(RecvError::Lagged),
        Ok(None) => Err(RecvError::Closed),
        Err(err) => Err(RecvError::of_mpsc(err)),
    }
}

/// The receiving half of a broadcast channel.
pub struct Receiver {
    /// The channel that carries the messages.
    pub rx: mpsc::Receiver,
}

impl Receiver {
    /// Creates the receiver.
    pub fn new(rx: mpsc::Receiver) -> (r: Self)
        ensures
            r.rx == rx,
    {
        Receiver { rx }
    }

    /// Processes what came out of the queue: a message or its end.
    ///
    /// Returns what to report, or `None` if the queue is to be asked again.
    pub fn recv<T>(&mut self, item: Option<Result<BroadcastMsg<T>, mpsc::RecvError>>) -> (r: Option<
        Result<T, RecvError>,
    >)
        ensures
            match item {
                Some(item) => {
                    &&& r == (if is_held_back(item) {
                        None
                    } else {
                        Some(
                            recv_result(
                                match item {
                                    Ok(msg) => Ok::<Option<BroadcastMsg<T>>, mpsc::RecvError>(
                                        Some(msg),
                                    ),
                                    Err(err) => Err(err),
                                },
                            ),
                        )
                    })
                    &&& final(self).rx == (mpsc::Receiver {
                        final_err: held_back(old(self).rx.final_err, seq![item]),
                        ..old(self).rx
                    })
                },
                None => {
                    &&& r == Some(
                        match old(self).rx.final_err {
                            Some(err) => Err::<T, RecvError>(RecvError::of_mpsc(err)),
                            None => Err(RecvError::Closed),
                        },
                    )
                    &&& final(self).rx == (mpsc::Receiver { final_err: None, ..old(self).rx })
                },
            },
    {
        match self.rx.recv(item) {
            None => None,
            Some(Ok(Some(BroadcastMsg::Value(value)))) => Some(Ok(value)),
            Some(Ok(Some(BroadcastMsg::Lagged))) => Some(Err(RecvError::Lagged)),
            Some(Ok(None)) => Some(Err(RecvError::Closed)),
            Some(Err(err)) => Some(Err(RecvError::from(err))),
        }
    }

    /// Processes what the queue gave without waiting.
    ///
    /// Returns what to report, or `None` if the queue is to be asked again.
    pub fn try_recv<T>(&mut self, taken: Taken<BroadcastMsg<T>>) -> (r: Option<
        Result<T, TryRecvError>,
    >)
        ensures
            match taken {
                Taken::Item(item) => {
                    &&& r == (if is_held_back(item) {
                        None
                    } else {
                        match item {
                            Ok(BroadcastMsg::Value(value)) => Some(Ok::<T, TryRecvError>(value)),
                            Ok(BroadcastMsg::Lagged) => Some(Err(TryRecvError::Lagged)),
                            Err(err) => Some(
                                Err(
                                    TryRecvError::of_mpsc_try(
                                        mpsc::TryRecvError::of_recv_error(err),
                                    ),
                                ),
                            ),
                        }
                    })
                    &&& final(self).rx == (mpsc::Receiver {
                        final_err: held_back(old(self).rx.final_err, seq![item]),
                        ..old(self).rx
                    })
                },
                Taken::Disconnected => {
                    &&& r == (match old(self).rx.final_err {
                        Some(err) => Some(
                            Err::<T, TryRecvError>(
                                TryRecvError::of_mpsc_try(mpsc::TryRecvError::of_recv_error(err)),
                            ),
                        ),
                        None => Some(Err(TryRecvError::Closed)),
                    })
                    &&& final(self).rx == (mpsc::Receiver { final_err: None, ..old(self).rx })
                },
                Taken::Empty => {
                    &&& r == Some(Err::<T, TryRecvError>(TryRecvError::Empty))
                    &&& *final(self) == *old(self)
                },
            },
    {
        match self.rx.try_recv(taken) {
            None => None,
            Some(Ok(BroadcastMsg::Value(value))) => Some(Ok(value)),
            Some(Ok(BroadcastMsg::Lagged)) => Some(Err(TryRecvError::Lagged)),
            Some(Err(err)) => Some(Err(TryRecvError::from(err))),
        }
    }

    /// Returns the maximum size of a value.
    pub fn max_item_size(&self) -> (r: usize)
        ensures
            r == self.rx.max_item_size,
    {
        self.rx.max_item_size()
    }

    /// Returns the receiver with another maximum size of a value.
    pub fn set_max_item_size(self, max_item_size: usize) -> (r: Self)
        ensures
            r.rx == (mpsc::Receiver { max_item_size, successor: false, ..self.rx }),
    {
        Receiver { rx: self.rx.set_max_item_size(max_item_size) }
    }

    /// Returns the maximum size of a value of the remote sender.
    pub fn remote_max_item_size(&self) -> (r: Option<usize>)
        ensures
            r == self.rx.remote_max_item_size,
    {
        self.rx.remote_max_item_size()
    }
}

/// Returns the next element of the stream of values; it ends with the channel.
pub fn stream_next<T>(result: Result<T, RecvError>) -> (r: Option<Result<T, StreamError>>)
    ensures
        r == (match result {
            Ok(value) => Some(Ok::<T, StreamError>(value)),
            Err(err) => match StreamError::of_recv_error(err) {
                Ok(err) => Some(Err(err)),
                Err(_) => None,
            },
        }),
        r is None <==> (result matches Err(err) && err is Closed),
{
    match result {
        Ok(value) => Some(Ok(value)),
        Err(err) => match StreamError::try_from(err) {
            Ok(err) => Some(Err(err)),
            Err(_) => None,
        },
    }
}

/// A failure of the underlying channel keeps its classification and message.
pub proof fn law_failure_is_kept(err: mpsc::RecvError)
    ensures
        RecvError::of_mpsc(err).spec_is_disconnected() == err.spec_is_disconnected(),
        RecvError::of_mpsc(err).text() == err.text(),
    decreases err,
{
    if let mpsc::RecvError::Remote(Some(inner)) = err {
        law_failure_is_kept(*inner);
    }
}

/// A value that was broadcast is received; a gap is reported as lagging behind, the end of the
/// channel as closed, and only a failed connection is held back until then.
pub proof fn law_broadcast_is_received<T>(
    before: Receiver,
    after: Receiver,
    item: Option<Result<BroadcastMsg<T>, mpsc::RecvError>>,
    r: Option<Result<T, RecvError>>,
)
    requires
        exists|state: &mut Receiver| #[trigger]
            call_ensures(Receiver::recv::<T>, (state, item), r) && *state == before
                && *final(state) == after,
    ensures
        item matches Some(Ok(BroadcastMsg::Value(value))) ==> r == Some(
            Ok::<T, RecvError>(value),
        ),
        item matches Some(Ok(BroadcastMsg::Lagged)) ==> r == Some(
            Err::<T, RecvError>(RecvError::Lagged),
        ),
        item matches Some(Ok(_)) ==> after.rx == before.rx,
        item matches Some(Err(err)) ==> (r is None <==> err.spec_is_disconnected()),
        item is None ==> {
            &&& before.rx.final_err is None ==> r == Some(Err::<T, RecvError>(RecvError::Closed))
            &&& before.rx.final_err is Some ==> (r matches Some(Err(err)) && !(err is Closed)
                && !(err is Lagged))
            &&& after.rx.final_err is None
        },
        r matches Some(Ok(value)) ==> item == Some(
            Ok::<BroadcastMsg<T>, mpsc::RecvError>(BroadcastMsg::Value(value)),
        ),
{
    if let Some(item) = item {
        reveal_with_fuel(held_back, 2);
        assert(seq![item].drop_last().len() == 0);
    }
}

/// Receiving without waiting reports the same as receiving, and besides that the queue may be empty.
pub proof fn law_ways_of_receiving_broadcasts_agree<T>(
    before: Receiver,
    waited: Receiver,
    tried: Receiver,
    item: Option<Result<BroadcastMsg<T>, mpsc::RecvError>>,
    taken: Taken<BroadcastMsg<T>>,
    r: Option<Result<T, RecvError>>,
    t: Option<Result<T, TryRecvError>>,
)
    requires
        exists|state: &mut Receiver| #[trigger]
            call_ensures(Receiver::recv::<T>, (state, item), r) && *state == before
                && *final(state) == waited,
        exists|state: &mut Receiver| #[trigger]
            call_ensures(Receiver::try_recv::<T>, (state, taken), t) && *state == before
                && *final(state) == tried,
        item matches Some(given) ==> taken == Taken::Item(given),
        item is None ==> taken is Disconnected || taken is Empty,
    ensures
        taken is Empty ==> tried == before && t == Some(
            Err::<T, TryRecvError>(TryRecvError::Empty),
        ),
        !(taken is Empty) ==> {
            &&& tried.rx == waited.rx
            &&& t is None <==> r is None
            &&& r matches Some(Ok(value)) ==> t == Some(Ok::<T, TryRecvError>(value))
            &&& r matches Some(Err(RecvError::Lagged)) ==> t == Some(
                Err::<T, TryRecvError>(TryRecvError::Lagged),
            )
            &&& r matches Some(Err(RecvError::Closed)) ==> t == Some(
                Err::<T, TryRecvError>(TryRecvError::Closed),
            )
            &&& r matches Some(Err(RecvError::Receive(err))) ==> t == Some(
                Err::<T, TryRecvError>(TryRecvError::Receive(err)),
            )
            &&& r matches Some(Err(RecvError::Connect(err))) ==> t == Some(
                Err::<T, TryRecvError>(TryRecvError::Connect(err)),
            )
            &&& r matches Some(Err(RecvError::Listen(err))) ==> t == Some(
                Err::<T, TryRecvError>(TryRecvError::Listen(err)),
            )
            &&& r matches Some(Err(RecvError::Remote(err))) ==> t == Some(
                Err::<T, TryRecvError>(TryRecvError::Remote(err)),
            )
        },
{
}

/// The stream gives every value and every failure but the end of the channel, at which it ends.
pub proof fn law_stream_of_broadcasts<T>(
    result: Result<T, RecvError>,
    r: Option<Result<T, StreamError>>,
)
    requires
        call_ensures(stream_next::<T>, (result,), r),
    ensures
        result matches Ok(value) ==> r == Some(Ok::<T, StreamError>(value)),
        r is None <==> result == Err::<T, RecvError>(RecvError::Closed),
        result == Err::<T, RecvError>(RecvError::Lagged) <==> r == Some(
            Err::<T, StreamError>(StreamError::Lagged),
        ),
        result matches Err(RecvError::Receive(err)) ==> r == Some(
            Err::<T, StreamError>(StreamError::Receive(err)),
        ),
        result matches Err(RecvError::Connect(err)) ==> r == Some(
            Err::<T, StreamError>(StreamError::Connect(err)),
        ),
        result matches Err(RecvError::Listen(err)) ==> r == Some(
            Err::<T, StreamError>(StreamError::Listen(err)),
        ),
        result matches Err(RecvError::Remote(err)) ==> r == Some(
            Err::<T, StreamError>(StreamError::Remote(err)),
        ),
{
}

/// Lagging behind and an empty queue do not end a channel; a lost connection does.
pub proof fn law_class_of_broadcast_failure(
    err: RecvError,
    r: bool,
    tried: TryRecvError,
    t: bool,
    streamed: StreamError,
    s: bool,
)
    requires
        call_ensures(RecvError::is_disconnected, (&err,), r),
        call_ensures(TryRecvError::is_disconnected, (&tried,), t),
        call_ensures(StreamError::is_disconnected, (&streamed,), s),
    ensures
        err is Lagged ==> !r,
        err is Closed || err is Connect || err is Listen ==> r,
        err matches RecvError::Receive(cause) ==> (r <==> (cause matches base::RecvError::Receive(
            mux,
        ) && (mux is ChMux || mux is Rejected))),
        err matches RecvError::Remote(Some(inner)) ==> r == inner.spec_is_disconnected(),
        err == RecvError::Remote(None) ==> !r,
        tried is Lagged || tried is Empty ==> !t,
        tried is Closed || tried is Connect || tried is Listen ==> t,
        tried matches TryRecvError::Receive(cause) ==> t == RecvError::Receive(
            cause,
        ).spec_is_disconnected(),
        tried matches TryRecvError::Remote(cause) ==> t == RecvError::Remote(
            cause,
        ).spec_is_disconnected(),
        streamed is Lagged ==> !s,
        streamed is Connect || streamed is Listen ==> s,
        streamed matches StreamError::Receive(cause) ==> s == RecvError::Receive(
            cause,
        ).spec_is_disconnected(),
        streamed matches StreamError::Remote(cause) ==> s == RecvError::Remote(
            cause,
        ).spec_is_disconnected(),
{
}

/// What a failure says of the channel is told by its kind alone.
pub proof fn law_kinds_of_broadcast_failure(
    err: RecvError,
    tried: TryRecvError,
    streamed: StreamError,
    r: (bool, bool),
    r_tried: (bool, bool, bool),
    r_streamed: bool,
)
    requires
        call_ensures(RecvError::is_closed, (&err,), r.0),
        call_ensures(RecvError::is_lagged, (&err,), r.1),
        call_ensures(TryRecvError::is_empty, (&tried,), r_tried.0),
        call_ensures(TryRecvError::is_closed, (&tried,), r_tried.1),
        call_ensures(TryRecvError::is_lagged, (&tried,), r_tried.2),
        call_ensures(StreamError::is_lagged, (&streamed,), r_streamed),
    ensures
        r.0 <==> err is Closed,
        r.1 <==> err is Lagged,
        r_tried.0 <==> tried is Empty,
        r_tried.1 <==> tried is Closed,
        r_tried.2 <==> tried is Lagged,
        r_streamed <==> streamed is Lagged,
{
}

/// A failure of receiving is the same failure of trying to receive and comes back unchanged. That
/// nothing is there yet is no failure of receiving, and that the channel is closed ends a stream
/// without a failure.
pub proof fn law_failure_of_trying_to_receive_broadcast(
    err: RecvError,
    tried: TryRecvError,
    back: Result<RecvError, TryRecvError>,
    other: TryRecvError,
    r: Result<RecvError, TryRecvError>,
    streamed: Result<StreamError, RecvError>,
)
    requires
        call_ensures(<TryRecvError as From<RecvError>>::from, (err,), tried),
        call_ensures(<RecvError as TryFrom<TryRecvError>>::try_from, (tried,), back),
        call_ensures(<RecvError as TryFrom<TryRecvError>>::try_from, (other,), r),
        call_ensures(<StreamError as TryFrom<RecvError>>::try_from, (err,), streamed),
    ensures
        back == Ok::<RecvError, TryRecvError>(err),
        err is Closed <==> tried is Closed,
        err is Lagged <==> tried is Lagged,
        err matches RecvError::Receive(inner) ==> tried == TryRecvError::Receive(inner)
            && streamed == Ok::<StreamError, RecvError>(StreamError::Receive(inner)),
        err matches RecvError::Connect(inner) ==> tried == TryRecvError::Connect(inner)
            && streamed == Ok::<StreamError, RecvError>(StreamError::Connect(inner)),
        err matches RecvError::Listen(inner) ==> tried == TryRecvError::Listen(inner) && streamed
            == Ok::<StreamError, RecvError>(StreamError::Listen(inner)),
        err matches RecvError::Remote(inner) ==> tried == TryRecvError::Remote(inner) && streamed
            == Ok::<StreamError, RecvError>(StreamError::Remote(inner)),
        err is Lagged ==> streamed matches Ok(StreamError::Lagged),
        streamed is Err <==> err is Closed,
        streamed matches Err(same) ==> same == err,
        r is Err <==> other is Empty,
        r matches Err(same) ==> same == other,
{
}

/// A failure of the queue of a subscriber is the same failure of its channel, at whatever
/// endpoint it occurred.
pub proof fn law_same_failure_of_a_subscriber(
    err: mpsc::RecvError,
    r: RecvError,
    converted: (RecvError, TryRecvError, TryRecvError),
    tried: mpsc::TryRecvError,
    r_tried: TryRecvError,
    of_inner: RecvError,
)
    requires
        call_ensures(RecvError::from_mpsc, (err,), r),
        call_ensures(<RecvError as From<mpsc::RecvError>>::from, (err,), converted.0),
        call_ensures(<TryRecvError as From<mpsc::RecvError>>::from, (err,), converted.1),
        call_ensures(<TryRecvError as From<RecvError>>::from, (r,), converted.2),
        call_ensures(<TryRecvError as From<mpsc::TryRecvError>>::from, (tried,), r_tried),
        tried matches mpsc::TryRecvError::Remote(Some(inner)) ==> call_ensures(
            RecvError::from_mpsc,
            (*inner,),
            of_inner,
        ),
    ensures
        converted.0 == r && converted.1 == converted.2,
        err matches mpsc::RecvError::Receive(inner) ==> r == RecvError::Receive(inner),
        err matches mpsc::RecvError::Connect(inner) ==> r == RecvError::Connect(inner),
        err matches mpsc::RecvError::Listen(inner) ==> r == RecvError::Listen(inner),
        err == mpsc::RecvError::Remote(None) ==> r == RecvError::Remote(None),
        err matches mpsc::RecvError::Remote(Some(inner)) ==> forall|same: RecvError| #[trigger]
            call_ensures(RecvError::from_mpsc, (*inner,), same) ==> r == RecvError::Remote(
                Some(Box::new(same)),
            ),
        tried is Empty <==> r_tried is Empty,
        tried is Closed <==> r_tried is Closed,
        tried matches mpsc::TryRecvError::Receive(inner) ==> r_tried == TryRecvError::Receive(inner),
        tried matches mpsc::TryRecvError::Connect(inner) ==> r_tried == TryRecvError::Connect(inner),
        tried matches mpsc::TryRecvError::Listen(inner) ==> r_tried == TryRecvError::Listen(inner),
        tried == mpsc::TryRecvError::Remote(None) ==> r_tried == TryRecvError::Remote(None),
        tried matches mpsc::TryRecvError::Remote(Some(_)) ==> r_tried == TryRecvError::Remote(
            Some(Box::new(of_inner)),
        ),
{
}

/// A subscriber receives from the queue that it was made with. The size limit that was set is
/// read back and nothing else of the receiver changes.
pub proof fn law_settings_of_a_subscriber(
    rx: mpsc::Receiver,
    before: Receiver,
    limit: usize,
    after: Receiver,
    r: (usize, Option<usize>),
)
    requires
        call_ensures(Receiver::new, (rx,), before),
        call_ensures(Receiver::set_max_item_size, (before, limit), after),
        call_ensures(Receiver::max_item_size, (&after,), r.0),
        call_ensures(Receiver::remote_max_item_size, (&after,), r.1),
    ensures
        before.rx == rx,
        r == (limit, rx.remote_max_item_size),
        after.rx == (mpsc::Receiver { max_item_size: limit, successor: false, ..rx }),
{
}

} // verus!
