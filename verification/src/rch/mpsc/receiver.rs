//! The receiving half of the many-producer, single-consumer channel.

use vstd::prelude::*;
use crate::chmux;
use crate::rch::base;
use crate::rch::base::{PortDeserializer, PortSerializer};
use crate::rch::mpsc::sender::{
    accept_parallel, accepted_ports, allocated_ports, allocated_requests, connect_parallel,
};
use crate::rch::mpsc::SendReq;
use crate::rch::{
    local_max_item_size, max_item_size_from_wire, max_item_size_to_wire, ClosedReason,
    RemoteSendError,
};
use crate::text::concat;

verus! {

/// An error returned while receiving.
///
/// The end of the channel is not an error.
pub enum RecvError {
    /// Receiving or decoding a value failed.
    Receive(base::RecvError),
    /// Opening a channel contained in a received value failed.
    Connect(chmux::ConnectError),
    /// Accepting a channel contained in a received value failed.
    Listen(chmux::ListenerError),
    /// An endpoint forwarding this channel reported a failure.
    ///
    /// The failure is missing when that endpoint reported one that is unknown here.
    Remote(Option<Box<RecvError>>),
}

impl RecvError {
    /// Whether the connection was rejected or failed.
    pub open spec fn spec_is_disconnected(self) -> bool
        decreases self,
    {
        match self {
            RecvError::Receive(err) => err.spec_is_disconnected(),
            RecvError::Connect(_) | RecvError::Listen(_) => true,
            RecvError::Remote(Some(err)) => err.spec_is_disconnected(),
            RecvError::Remote(None) => false,
        }
    }

    /// Returns whether the connection was rejected or failed.
    pub fn is_disconnected(&self) -> (r: bool)
        ensures
            r == self.spec_is_disconnected(),
        decreases self,
    {
        match self {
            RecvError::Receive(err) => err.is_disconnected(),
            RecvError::Connect(_) | RecvError::Listen(_) => true,
            RecvError::Remote(Some(err)) => err.is_disconnected(),
            RecvError::Remote(None) => false,
        }
    }

    /// The message shown to users.
    pub open spec fn text(self) -> Seq<char>
        decreases self,
    {
        match self {
            RecvError::Receive(err) => "receive error: "@ + err.text(),
            RecvError::Connect(err) => "connect error: "@ + err.text(),
            RecvError::Listen(err) => "listen error: "@ + err.text(),
            RecvError::Remote(Some(err)) => "remote "@ + err.text(),
            RecvError::Remote(None) => "unknown remote error"@,
        }
    }

    /// Returns the message shown to users.
    pub fn message(&self) -> (r: String)
        ensures
            r@ == self.text(),
        decreases self,
    {
        match self {
            RecvError::Receive(err) => concat("receive error: ", err.message().as_str()),
            RecvError::Connect(err) => concat("connect error: ", err.message().as_str()),
            RecvError::Listen(err) => concat("listen error: ", err.message().as_str()),
            RecvError::Remote(Some(err)) => concat("remote ", err.message().as_str()),
            RecvError::Remote(None) => String::from_str("unknown remote error"),
        }
    }
}

/// An error returned when attempting to receive without waiting.
pub enum TryRecvError {
    /// All senders have been dropped.
    Closed,
    /// No value is ready, but values may still arrive.
    Empty,
    /// Receiving or decoding a value failed.
    Receive(base::RecvError),
    /// Opening a channel contained in a received value failed.
    Connect(chmux::ConnectError),
    /// Accepting a channel contained in a received value failed.
    Listen(chmux::ListenerError),
    /// An endpoint forwarding this channel reported a failure.
    Remote(Option<Box<RecvError>>),
}

impl TryRecvError {
    /// Whether the connection was rejected or failed.
    pub open spec fn spec_is_disconnected(self) -> bool {
        match self {
            TryRecvError::Empty => false,
            TryRecvError::Receive(err) => err.spec_is_disconnected(),
            TryRecvError::Closed | TryRecvError::Connect(_) | TryRecvError::Listen(_) => true,
            TryRecvError::Remote(Some(err)) => err.spec_is_disconnected(),
            TryRecvError::Remote(None) => false,
        }
    }

    /// Returns whether the connection was rejected or failed.
    pub fn is_disconnected(&self) -> (r: bool)
        ensures
            r == self.spec_is_disconnected(),
    {
        match self {
            TryRecvError::Empty => false,
            TryRecvError::Receive(err) => err.is_disconnected(),
            TryRecvError::Closed | TryRecvError::Connect(_) | TryRecvError::Listen(_) => true,
            TryRecvError::Remote(Some(err)) => err.is_disconnected(),
            TryRecvError::Remote(None) => false,
        }
    }

    /// The message shown to users.
    pub open spec fn text(self) -> Seq<char> {
        match self {
            TryRecvError::Closed => "channel is closed"@,
            TryRecvError::Empty => "channel is empty"@,
            TryRecvError::Receive(err) => "receive error: "@ + err.text(),
            TryRecvError::Connect(err) => "connect error: "@ + err.text(),
            TryRecvError::Listen(err) => "listen error: "@ + err.text(),
            TryRecvError::Remote(Some(err)) => "remote "@ + err.text(),
            TryRecvError::Remote(None) => "unknown remote error"@,
        }
    }

    /// Returns the message shown to users.
    pub fn message(&self) -> (r: String)
        ensures
            r@ == self.text(),
    {
        match self {
            TryRecvError::Closed => String::from_str("channel is closed"),
            TryRecvError::Empty => String::from_str("channel is empty"),
            TryRecvError::Receive(err) => concat("receive error: ", err.message().as_str()),
            TryRecvError::Connect(err) => concat("connect error: ", err.message().as_str()),
            TryRecvError::Listen(err) => concat("listen error: ", err.message().as_str()),
            TryRecvError::Remote(Some(err)) => concat("remote ", err.message().as_str()),
            TryRecvError::Remote(None) => String::from_str("unknown remote error"),
        }
    }
}

impl From<RecvError> for TryRecvError {
    fn from(err: RecvError) -> (r: Self) {
        match err {
            RecvError::Receive(err) => TryRecvError::Receive(err),
            RecvError::Connect(err) => TryRecvError::Connect(err),
            RecvError::Listen(err) => TryRecvError::Listen(err),
            RecvError::Remote(err) => TryRecvError::Remote(err),
        }
    }
}

impl vstd::std_specs::convert::FromSpecImpl<RecvError> for TryRecvError {
    open spec fn obeys_from_spec() -> bool {
        true
    }

    open spec fn from_spec(err: RecvError) -> TryRecvError {
        TryRecvError::of_recv_error(err)
    }
}

impl TryRecvError {
    /// The same failure of receiving without waiting.
    pub open spec fn of_recv_error(err: RecvError) -> TryRecvError {
        match err {
            RecvError::Receive(err) => TryRecvError::Receive(err),
            RecvError::Connect(err) => TryRecvError::Connect(err),
            RecvError::Listen(err) => TryRecvError::Listen(err),
            RecvError::Remote(err) => TryRecvError::Remote(err),
        }
    }
}

impl TryFrom<TryRecvError> for RecvError {
    type Error = TryRecvError;

    fn try_from(err: TryRecvError) -> (r: Result<Self, TryRecvError>) {
        match err {
            TryRecvError::Closed => Err(TryRecvError::Closed),
            TryRecvError::Empty => Err(TryRecvError::Empty),
            TryRecvError::Receive(err) => Ok(RecvError::Receive(err)),
            TryRecvError::Connect(err) => Ok(RecvError::Connect(err)),
            TryRecvError::Listen(err) => Ok(RecvError::Listen(err)),
            TryRecvError::Remote(err) => Ok(RecvError::Remote(err)),
        }
    }
}

impl vstd::std_specs::convert::TryFromSpecImpl<TryRecvError> for RecvError {
    open spec fn obeys_try_from_spec() -> bool {
        true
    }

    open spec fn try_from_spec(err: TryRecvError) -> Result<RecvError, TryRecvError> {
        match err {
            TryRecvError::Closed => Err(TryRecvError::Closed),
            TryRecvError::Empty => Err(TryRecvError::Empty),
            TryRecvError::Receive(err) => Ok(RecvError::Receive(err)),
            TryRecvError::Connect(err) => Ok(RecvError::Connect(err)),
            TryRecvError::Listen(err) => Ok(RecvError::Listen(err)),
            TryRecvError::Remote(err) => Ok(RecvError::Remote(err)),
        }
    }
}

/// What the local queue gave without waiting.
pub enum Taken<T> {
    /// A value or an error.
    Item(Result<T, RecvError>),
    /// The queue has ended.
    Disconnected,
    /// Nothing is ready.
    Empty,
}

/// What happens to the queue of a receiver that is dropped.
#[derive(Clone, Copy, Debug, PartialEq, Eq, Structural)]
pub enum DropAction {
    /// Nothing; the queue is elsewhere or has been closed.
    Nothing,
    /// The queue is handed to the task that sends its values to another endpoint.
    HandOver,
    /// The senders are told that the receiver was dropped.
    PublishDropped,
}

/// The receiving half of a channel.
pub struct Receiver {
    /// Whether the receiver still has its queue.
    pub has_queue: bool,
    /// Whether the receiver has been closed.
    pub closed: bool,
    /// Whether a task waits to take over the queue.
    pub successor: bool,
    /// A failed connection that is held back while other senders are connected.
    pub final_err: Option<RecvError>,
    /// Largest value that may be received.
    pub max_item_size: usize,
    /// Largest value that the remote sender may send.
    pub remote_max_item_size: Option<usize>,
    /// Number of additional parallel channels.
    pub parallel: Option<usize>,
}

/// A receiver on its way to another endpoint.
pub struct TransportedReceiver {
    /// Port number.
    pub port: u32,
    /// Whether the receiver has been closed.
    pub closed: bool,
    /// Largest value that may be received.
    pub max_item_size: u64,
    /// Additional port numbers for parallel operation.
    pub parallel: Vec<u32>,
}

/// Whether an item of the queue is an error that is held back.
pub open spec fn is_held_back<T>(item: Result<T, RecvError>) -> bool {
    item matches Err(err) && err.spec_is_disconnected()
}

/// Whether an item of the queue is an error that is reported at once.
pub open spec fn is_reported<T>(item: Result<T, RecvError>) -> bool {
    item matches Err(err) && !err.spec_is_disconnected()
}

/// The held back error after `items` came out of the queue: the first one.
pub open spec fn held_back<T>(held: Option<RecvError>, items: Seq<Result<T, RecvError>>) -> Option<
    RecvError,
>
    decreases items.len(),
{
    if items.len() == 0 {
        held
    } else {
        let before = held_back(held, items.drop_last());
        if before is None && is_held_back(items.last()) {
            Some(items.last()->Err_0)
        } else {
            before
        }
    }
}

/// What receiving returns for `items` of the queue: everything but the held back errors.
pub open spec fn passed_on<T>(items: Seq<Result<T, RecvError>>) -> Seq<Result<T, RecvError>>
    decreases items.len(),
{
    if items.len() == 0 {
        Seq::empty()
    } else if is_held_back(items.last()) {
        passed_on(items.drop_last())
    } else {
        passed_on(items.drop_last()).push(items.last())
    }
}

/// The values among `items`.
pub open spec fn values<T>(items: Seq<Result<T, RecvError>>) -> Seq<T>
    decreases items.len(),
{
    if items.len() == 0 {
        Seq::empty()
    } else {
        let init = values(items.drop_last());
        match items.last() {
            Ok(value) => init.push(value),
            Err(_) => init,
        }
    }
}

/// Whether `k` is the position of the first error that is reported at once.
pub open spec fn first_reported<T>(items: Seq<Result<T, RecvError>>, k: int) -> bool {
    &&& 0 <= k < items.len()
    &&& is_reported(items[k])
    &&& forall|i: int| 0 <= i < k ==> !is_reported(#[trigger] items[i])
}

impl Receiver {
    /// Creates a receiver.
    pub fn new(
        closed: bool,
        max_item_size: usize,
        remote_max_item_size: Option<usize>,
        parallel: Option<usize>,
    ) -> (r: Self)
        ensures
            r == (Receiver {
                has_queue: true,
                closed,
                successor: false,
                final_err: None,
                max_item_size,
                remote_max_item_size,
                parallel,
            }),
    {
        Receiver {
            has_queue: true,
            closed,
            successor: false,
            final_err: None,
            max_item_size,
            remote_max_item_size,
            parallel,
        }
    }

    /// Processes what came out of the queue: an item or its end.
    ///
    /// Returns what to report, or `None` if the queue is to be asked again. A
    /// failed connection is held back until all other senders have been dropped
    /// or failed; only the first one is kept.
    pub fn recv<T>(&mut self, item: Option<Result<T, RecvError>>) -> (r: Option<
        Result<Option<T>, RecvError>,
    >)
        ensures
            match item {
                Some(item) => {
                    &&& r == (if is_held_back(item) {
                        None
                    } else {
                        match item {
                            Ok(value) => Some(Ok::<Option<T>, RecvError>(Some(value))),
                            Err(err) => Some(Err(err)),
                        }
                    })
                    &&& *final(self) == (Receiver {
                        final_err: held_back(old(self).final_err, seq![item]),
                        ..*old(self)
                    })
                },
                None => {
                    &&& r == (match old(self).final_err {
                        Some(err) => Some(Err::<Option<T>, RecvError>(err)),
                        None => Some(Ok(None)),
                    })
                    &&& *final(self) == (Receiver { final_err: None, ..*old(self) })
                },
            },
    {
        match item {
            Some(item) => {
                proof {
                    reveal_with_fuel(held_back, 2);
                    assert(seq![item].drop_last().len() == 0);
                }
                match item {
                    Ok(value) => Some(Ok(Some(value))),
                    Err(err) => {
                        if err.is_disconnected() {
                            self.hold_back(err);
                            None
                        } else {
                            Some(Err(err))
                        }
                    },
                }
            },
            None => match self.take_error() {
                Some(err) => Some(Err(err)),
                None => Some(Ok(None)),
            },
        }
    }

    /// Holds back an error unless one is held back already.
    fn hold_back(&mut self, err: RecvError)
        ensures
            *final(self) == (Receiver {
                final_err: match old(self).final_err {
                    Some(held) => Some(held),
                    None => Some(err),
                },
                ..*old(self)
            }),
    {
        if self.final_err.is_none() {
            self.final_err = Some(err);
        }
    }

    /// Whether processing what the queue gave without waiting leads to state `after` and
    /// reports `r`.
    pub open spec fn tries_recv<T>(
        self,
        taken: Taken<T>,
        after: Receiver,
        r: Option<Result<T, TryRecvError>>,
    ) -> bool {
        match taken {
            Taken::Item(item) => {
                &&& r == (if is_held_back(item) {
                    None
                } else {
                    match item {
                        Ok(value) => Some(Ok::<T, TryRecvError>(value)),
                        Err(err) => Some(Err(TryRecvError::of_recv_error(err))),
                    }
                })
                &&& after == (Receiver {
                    final_err: held_back(self.final_err, seq![item]),
                    ..self
                })
            },
            Taken::Disconnected => {
                &&& r == (match self.final_err {
                    Some(err) => Some(Err::<T, TryRecvError>(TryRecvError::of_recv_error(err))),
                    None => Some(Err(TryRecvError::Closed)),
                })
                &&& after == (Receiver { final_err: None, ..self })
            },
            Taken::Empty => {
                &&& r == Some(Err::<T, TryRecvError>(TryRecvError::Empty))
                &&& after == self
            },
        }
    }

    /// Processes what the queue gave without waiting.
    ///
    /// Returns what to report, or `None` if the queue is to be asked again.
    pub fn try_recv<T>(&mut self, taken: Taken<T>) -> (r: Option<Result<T, TryRecvError>>)
        ensures
            old(self).tries_recv(taken, *final(self), r),
    {
        match taken {
            Taken::Item(item) => {
                proof {
                    reveal_with_fuel(held_back, 2);
                    assert(seq![item].drop_last().len() == 0);
                }
                match item {
                    Ok(value) => Some(Ok(value)),
                    Err(err) => {
                        if err.is_disconnected() {
                            self.hold_back(err);
                            None
                        } else {
                            Some(Err(TryRecvError::from(err)))
                        }
                    },
                }
            },
            Taken::Disconnected => match self.take_error() {
                Some(err) => Some(Err(TryRecvError::from(err))),
                None => Some(Err(TryRecvError::Closed)),
            },
            Taken::Empty => Some(Err(TryRecvError::Empty)),
        }
    }

    /// Returns how many items to ask the queue for at once, so that neither `limit` nor the
    /// size of the receiver's buffer is exceeded.
    pub fn batch_limit(limit: usize, size: usize) -> (r: usize)
        ensures
            r == (if limit <= size {
                limit
            } else {
                size
            }),
    {
        if limit <= size {
            limit
        } else {
            size
        }
    }

    /// Processes a batch of items that came out of the queue and appends its values to `buffer`.
    ///
    /// `size` is the size of the receiver's buffer. The batch holds no more items than were
    /// asked for, so that no more than `limit` and no more than `size` values are appended.
    /// An empty batch means that the queue has ended. Returns the number of
    /// values. An error that is not held back is reported at once; the values
    /// before it have been appended, those after it are lost.
    pub fn recv_many<T>(
        &mut self,
        buffer: &mut Vec<T>,
        limit: usize,
        size: usize,
        batch: Vec<Result<T, RecvError>>,
    ) -> (r: Result<usize, RecvError>)
        requires
            batch@.len() <= limit,
            batch@.len() <= size,
        ensures
            r matches Ok(p) ==> p <= limit && p <= size,
            limit == 0 ==> {
                &&& r == Ok::<usize, RecvError>(0)
                &&& *final(self) == *old(self)
                &&& final(buffer)@ == old(buffer)@
            },
            limit > 0 && batch@.len() == 0 ==> {
                &&& r == (match old(self).final_err {
                    Some(err) => Err::<usize, RecvError>(err),
                    None => Ok(0),
                })
                &&& *final(self) == (Receiver { final_err: None, ..*old(self) })
                &&& final(buffer)@ == old(buffer)@
            },
            forall|k: int| #[trigger]
                first_reported(batch@, k) ==> {
                    &&& r == Err::<usize, RecvError>(batch@[k]->Err_0)
                    &&& final(buffer)@ == old(buffer)@ + values(batch@.take(k))
                    &&& *final(self) == (Receiver {
                        final_err: held_back(old(self).final_err, batch@.take(k)),
                        ..*old(self)
                    })
                },
            batch@.len() > 0 && (forall|i: int|
                0 <= i < batch@.len() ==> !is_reported(#[trigger] batch@[i])) ==> {
                &&& r == Ok::<usize, RecvError>(values(batch@).len() as usize)
                &&& values(batch@).len() <= limit
                &&& final(buffer)@ == old(buffer)@ + values(batch@)
                &&& *final(self) == (Receiver {
                    final_err: held_back(old(self).final_err, batch@),
                    ..*old(self)
                })
            },
    {
        if limit == 0 {
            return Ok(0);
        }
        if batch.len() == 0 {
            return match self.take_error() {
                Some(err) => Err(err),
                None => Ok(0),
            };
        }
        let ghost items = batch@;
        let ghost start = buffer@;
        let n: usize = batch.len();
        let mut rest: Vec<Result<T, RecvError>> = batch;
        let mut p: usize = 0;
        let ghost mut i: int = 0;
        assert(start + Seq::<T>::empty() =~= start);
        assert(rest@ =~= items.skip(0));
        while rest.len() > 0
            invariant
                items == batch@,
                start == old(buffer)@,
                0 <= i <= items.len(),
                n == items.len(),
                0 < n,
                n <= limit,
                n <= size,
                rest@ == items.skip(i),
                p == values(items.take(i)).len(),
                p <= i,
                buffer@ == start + values(items.take(i)),
                *self == (Receiver {
                    final_err: held_back(old(self).final_err, items.take(i)),
                    ..*old(self)
                }),
                forall|j: int| 0 <= j < i ==> !is_reported(#[trigger] items[j]),
            decreases rest@.len(),
        {
            let item = rest.remove(0);
            proof {
                assert(item == items[i]);
                assert(items.take(i + 1).drop_last() =~= items.take(i));
                assert(items.take(i + 1).last() == items[i]);
                assert(rest@ =~= items.skip(i + 1));
            }
            match item {
                Ok(value) => {
                    buffer.push(value);
                    p = p + 1;
                    assert(buffer@ =~= start + values(items.take(i + 1)));
                },
                Err(err) => {
                    if err.is_disconnected() {
                        self.hold_back(err);
                    } else {
                        proof {
                            assert(first_reported(items, i));
                            assert forall|k: int| #[trigger] first_reported(items, k) implies k
                                == i by {
                                if k < i {
                                    assert(!is_reported(items[k]));
                                } else if k > i {
                                    assert(!is_reported(items[i]));
                                }
                            }
                        }
                        return Err(err);
                    }
                },
            }
            proof {
                i = i + 1;
            }
        }
        proof {
            assert(items.take(i) =~= items);
            assert forall|k: int| !first_reported(items, k) by {
                if first_reported(items, k) {
                    assert(!is_reported(items[k]));
                }
            }
        }
        Ok(p)
    }

    /// Closes the receiver: no further values are accepted, but queued ones can be received.
    ///
    /// Returns the reason to publish to the senders.
    pub fn close(&mut self) -> (r: ClosedReason)
        ensures
            r == ClosedReason::Closed,
            *final(self) == (Receiver { closed: true, ..*old(self) }),
    {
        self.closed = true;
        ClosedReason::Closed
    }

    /// Returns the held back error, if any.
    pub fn error(&self) -> (r: &Option<RecvError>)
        ensures
            *r == self.final_err,
    {
        &self.final_err
    }

    /// Returns the held back error and clears it.
    pub fn take_error(&mut self) -> (r: Option<RecvError>)
        ensures
            r == old(self).final_err,
            *final(self) == (Receiver { final_err: None, ..*old(self) }),
    {
        self.final_err.take()
    }

    /// Returns the maximum size of a value.
    pub fn max_item_size(&self) -> (r: usize)
        ensures
            r == self.max_item_size,
    {
        self.max_item_size
    }

    /// Returns the receiver with another maximum size of a value.
    pub fn set_max_item_size(self, max_item_size: usize) -> (r: Self)
        ensures
            r == (Receiver { max_item_size, successor: false, ..self }),
    {
        Receiver { max_item_size, successor: false, ..self }
    }

    /// Returns the maximum size of a value of the remote sender.
    pub fn remote_max_item_size(&self) -> (r: Option<usize>)
        ensures
            r == self.remote_max_item_size,
    {
        self.remote_max_item_size
    }

    /// Returns the number of additional parallel channels.
    pub fn parallel(&self) -> (r: Option<usize>)
        ensures
            r == self.parallel,
    {
        self.parallel
    }

    /// Sets the number of additional parallel channels.
    pub fn set_parallel(&mut self, parallel: Option<usize>)
        ensures
            *final(self) == (Receiver { parallel, ..*old(self) }),
    {
        self.parallel = parallel;
    }

    /// Drops the receiver and says what happens to its queue.
    pub fn drop(self) -> (r: DropAction)
        ensures
            r == (if !self.has_queue {
                DropAction::Nothing
            } else if self.successor {
                DropAction::HandOver
            } else if self.closed {
                DropAction::Nothing
            } else {
                DropAction::PublishDropped
            }),
    {
        if !self.has_queue {
            return DropAction::Nothing;
        }
        if self.successor {
            return DropAction::HandOver;
        }
        if self.closed {
            DropAction::Nothing
        } else {
            DropAction::PublishDropped
        }
    }

    /// Returns the number of additional ports to allocate when this is sent.
    pub fn parallel_ports(&self, mpsc_parallel: usize) -> (r: usize)
        ensures
            r == (match self.parallel {
                Some(parallel) => parallel,
                None => mpsc_parallel,
            }),
    {
        match self.parallel {
            Some(parallel) => parallel,
            None => mpsc_parallel,
        }
    }

    /// Sends this to another endpoint.
    ///
    /// From now on a task waits to take over the queue, which it gets when the
    /// receiver is dropped. `allocated` holds what came of allocating the
    /// additional ports and `main` what came of allocating the port that carries
    /// the channel. Only the latter is indispensable.
    pub fn serialize(
        &mut self,
        ports: &mut PortSerializer,
        allocated: Vec<Result<u32, String>>,
        callbacks: &Vec<u64>,
        main: Result<u32, String>,
        main_callback: u64,
    ) -> (r: Result<TransportedReceiver, String>)
        requires
            allocated@.len() <= callbacks@.len(),
        ensures
            *final(self) == (Receiver { successor: true, ..*old(self) }),
            match main {
                Ok(port) => {
                    &&& r matches Ok(t) && t.port == port && t.closed == old(self).closed
                        && t.max_item_size as nat == old(self).max_item_size as nat
                        && t.parallel@ == allocated_ports(allocated@)
                    &&& final(ports).requests@ == (old(ports).requests@ + allocated_requests(
                        allocated@,
                        callbacks@,
                    )).push((port, main_callback))
                },
                Err(err) => {
                    &&& r == Err::<TransportedReceiver, String>(err)
                    &&& final(ports).requests@ == old(ports).requests@ + allocated_requests(
                        allocated@,
                        callbacks@,
                    )
                },
            },
            final(ports).tasks@ == old(ports).tasks@,
    {
        self.successor = true;
        let parallel = connect_parallel(ports, allocated, callbacks);
        match ports.connect_port(main, main_callback) {
            Ok(port) => Ok(
                TransportedReceiver {
                    port,
                    closed: self.closed,
                    max_item_size: max_item_size_to_wire(self.max_item_size),
                    parallel,
                },
            ),
            Err(err) => Err(err),
        }
    }

    /// Receives this from another endpoint.
    ///
    /// Also returns whether the remote endpoint may send larger values than this
    /// receiver accepts.
    pub fn deserialize(
        transported: TransportedReceiver,
        ports: &mut PortDeserializer,
        max_item_size: usize,
        callbacks: &Vec<u64>,
        main_callback: u64,
    ) -> (r: (Receiver, bool))
        requires
            transported.parallel@.len() <= callbacks@.len(),
        ensures
            r.0 == (Receiver {
                has_queue: true,
                closed: transported.closed,
                successor: false,
                final_err: None,
                max_item_size,
                remote_max_item_size: Some(local_max_item_size(transported.max_item_size)),
                parallel: Some(transported.parallel@.len() as usize),
            }),
            r.1 == (local_max_item_size(transported.max_item_size) > max_item_size),
            final(ports).expected@ == accepted_ports(
                old(ports).expected@,
                transported.parallel@,
                callbacks@,
            ).insert(transported.port, main_callback),
            final(ports).tasks@ == old(ports).tasks@,
    {
        let remote_max_item_size: usize = max_item_size_from_wire(transported.max_item_size);
        accept_parallel(ports, &transported.parallel, callbacks);
        let parallel: usize = transported.parallel.len();
        ports.accept(transported.port, main_callback);
        (
            Receiver::new(
                transported.closed,
                max_item_size,
                Some(remote_max_item_size),
                Some(parallel),
            ),
            remote_max_item_size > max_item_size,
        )
    }

    /// What to publish as the failure of sending when connecting a receiver that was sent failed.
    pub fn on_connect_failed(err: chmux::ConnectError) -> (r: RemoteSendError)
        ensures
            r == RemoteSendError::Connect(err),
    {
        RemoteSendError::Connect(err)
    }

    /// What to put into the queue when accepting the channel of a receiver failed.
    ///
    /// The receiver reports it; nobody awaits the result.
    pub fn on_accept_failed<T>(err: chmux::ListenerError) -> (r: SendReq<T>)
        ensures
            r == (SendReq { value: Err::<T, RecvError>(RecvError::Listen(err)), result_tx: None }),
    {
        SendReq::new(Err(RecvError::Listen(err)))
    }
}

/// Receiving item by item accounts for a queue as a whole.
pub proof fn law_items_add_up<T>(
    held: Option<RecvError>,
    items: Seq<Result<T, RecvError>>,
    item: Result<T, RecvError>,
)
    ensures
        held_back(held, items.push(item)) == held_back(held_back(held, items), seq![item]),
        passed_on(items.push(item)) == (if is_held_back(item) {
            passed_on(items)
        } else {
            passed_on(items).push(item)
        }),
{
    reveal_with_fuel(held_back, 2);
    assert(items.push(item).drop_last() =~= items);
    assert(seq![item].drop_last().len() == 0);
}

/// Failed connections of some senders never keep values of others from being received: the
/// values that are passed on are all values of the queue, in order.
pub proof fn law_no_value_is_lost<T>(items: Seq<Result<T, RecvError>>)
    ensures
        values(passed_on(items)) == values(items),
        forall|i: int| 0 <= i < passed_on(items).len() ==> !is_held_back(
            #[trigger] passed_on(items)[i],
        ),
    decreases items.len(),
{
    if items.len() > 0 {
        let init = items.drop_last();
        law_no_value_is_lost(init);
        if !is_held_back(items.last()) {
            assert(passed_on(items).drop_last() =~= passed_on(init));
        }
    }
}

/// The error that is held back is the first failed connection, and it is kept until it is taken.
pub proof fn law_first_failure_is_kept<T>(
    held: Option<RecvError>,
    items: Seq<Result<T, RecvError>>,
    k: int,
)
    requires
        0 <= k < items.len(),
        is_held_back(items[k]),
        forall|i: int| 0 <= i < k ==> !is_held_back(#[trigger] items[i]),
    ensures
        held is Some ==> held_back(held, items) == held,
        held is None ==> held_back(held, items) == Some(items[k]->Err_0),
    decreases items.len(),
{
    let init = items.drop_last();
    if k < items.len() - 1 {
        law_first_failure_is_kept(held, init, k);
    } else {
        lemma_none_held_back(held, init);
    }
}

proof fn lemma_none_held_back<T>(held: Option<RecvError>, items: Seq<Result<T, RecvError>>)
    requires
        forall|i: int| 0 <= i < items.len() ==> !is_held_back(#[trigger] items[i]),
    ensures
        held_back(held, items) == held,
    decreases items.len(),
{
    if items.len() > 0 {
        lemma_none_held_back(held, items.drop_last());
    }
}

/// A channel whose connections did not fail ends without an error.
pub proof fn law_orderly_end<T>(items: Seq<Result<T, RecvError>>)
    requires
        forall|i: int| 0 <= i < items.len() ==> !is_held_back(#[trigger] items[i]),
    ensures
        held_back(None, items) is None,
        passed_on(items) == items,
    decreases items.len(),
{
    lemma_none_held_back(None, items);
    if items.len() > 0 {
        law_orderly_end(items.drop_last());
        assert(passed_on(items) =~= items);
    }
}

/// A value is reported at once and only a failed connection is not; when the queue ends, the first
/// failed connection is reported, or else the end of the channel.
pub proof fn law_items_are_reported<T>(
    before: Receiver,
    after: Receiver,
    item: Option<Result<T, RecvError>>,
    r: Option<Result<Option<T>, RecvError>>,
)
    requires
        exists|state: &mut Receiver| #[trigger]
            call_ensures(Receiver::recv::<T>, (state, item), r) && *state == before
                && *final(state) == after,
    ensures
        item matches Some(Ok(value)) ==> after == before && r == Some(
            Ok::<Option<T>, RecvError>(Some(value)),
        ),
        item matches Some(Err(err)) ==> {
            &&& !err.spec_is_disconnected() ==> after == before && r == Some(
                Err::<Option<T>, RecvError>(err),
            )
            &&& err.spec_is_disconnected() ==> r is None
            &&& err.spec_is_disconnected() && before.final_err is None ==> after.final_err == Some(
                err,
            )
            &&& before.final_err is Some ==> after.final_err == before.final_err
        },
        item is None ==> {
            &&& before.final_err matches Some(err) ==> r == Some(Err::<Option<T>, RecvError>(err))
            &&& before.final_err is None ==> r == Some(Ok::<Option<T>, RecvError>(None))
            &&& after.final_err is None
        },
        after == (Receiver { final_err: after.final_err, ..before }),
{
    if let Some(item) = item {
        reveal_with_fuel(held_back, 2);
        assert(seq![item].drop_last().len() == 0);
    }
}

/// Receiving without waiting reports the same as receiving, and besides that the queue may be empty.
pub proof fn law_ways_of_receiving_agree<T>(
    before: Receiver,
    waited: Receiver,
    tried: Receiver,
    item: Option<Result<T, RecvError>>,
    taken: Taken<T>,
    r: Option<Result<Option<T>, RecvError>>,
    t: Option<Result<T, TryRecvError>>,
)
    requires
        exists|state: &mut Receiver| #[trigger]
            call_ensures(Receiver::recv::<T>, (state, item), r) && *state == before
                && *final(state) == waited,
        exists|state: &mut Receiver| #[trigger]
            call_ensures(Receiver::try_recv::<T>, (state, taken), t) && *state == before
                && *final(state) == tried,
        item matches Some(given) ==> taken == Taken::Item(given),
        item is None ==> taken is Disconnected || taken is Empty,
    ensures
        taken is Empty ==> tried == before && t == Some(
            Err::<T, TryRecvError>(TryRecvError::Empty),
        ),
        !(taken is Empty) ==> {
            &&& tried == waited
            &&& t is None <==> r is None
            &&& r matches Some(Ok(Some(value))) ==> t == Some(Ok::<T, TryRecvError>(value))
            &&& r matches Some(Ok(None)) ==> t == Some(Err::<T, TryRecvError>(TryRecvError::Closed))
            &&& r matches Some(Err(RecvError::Receive(err))) ==> t == Some(
                Err::<T, TryRecvError>(TryRecvError::Receive(err)),
            )
            &&& r matches Some(Err(RecvError::Connect(err))) ==> t == Some(
                Err::<T, TryRecvError>(TryRecvError::Connect(err)),
            )
            &&& r matches Some(Err(RecvError::Listen(err))) ==> t == Some(
                Err::<T, TryRecvError>(TryRecvError::Listen(err)),
            )
            &&& r matches Some(Err(RecvError::Remote(err))) ==> t == Some(
                Err::<T, TryRecvError>(TryRecvError::Remote(err)),
            )
        },
{
}

/// The values of a batch are appended in order and counted. Nothing else is appended, and no value
/// is lost unless a failure is reported.
pub proof fn law_batch_is_received<T>(
    before: Receiver,
    after: Receiver,
    buffer_before: Vec<T>,
    buffer_after: Vec<T>,
    limit: usize,
    size: usize,
    batch: Vec<Result<T, RecvError>>,
    r: Result<usize, RecvError>,
)
    requires
        exists|rx: &mut Receiver, buffer: &mut Vec<T>| #[trigger]
            call_ensures(Receiver::recv_many::<T>, (rx, buffer, limit, size, batch), r) && *rx
                == before && *final(rx) == after && *buffer == buffer_before && *final(buffer)
                == buffer_after,
        batch@.len() <= limit,
        batch@.len() <= size,
    ensures
        (forall|i: int| 0 <= i < batch@.len() ==> (#[trigger] batch@[i]) is Ok) && batch@.len() > 0
            ==> {
            &&& r == Ok::<usize, RecvError>(batch@.len() as usize)
            &&& buffer_after@.len() == buffer_before@.len() + batch@.len()
            &&& forall|i: int|
                0 <= i < batch@.len() ==> Ok::<T, RecvError>(
                    #[trigger] buffer_after@[buffer_before@.len() + i],
                ) == batch@[i]
            &&& after == before
        },
        (forall|i: int|
            0 <= i < batch@.len() ==> (#[trigger] batch@[i] matches Err(err)
                ==> err.spec_is_disconnected())) && batch@.len() > 0 ==> {
            &&& r matches Ok(count) && count == buffer_after@.len() - buffer_before@.len()
            &&& buffer_after@ == buffer_before@ + values(batch@)
        },
        (exists|i: int|
            0 <= i < batch@.len() && (#[trigger] batch@[i] matches Err(err)
                && !err.spec_is_disconnected())) ==> r is Err,
        limit > 0 && batch@.len() == 0 ==> {
            &&& r is Err <==> before.final_err is Some
            &&& before.final_err matches Some(err) ==> r == Err::<usize, RecvError>(err)
            &&& after.final_err is None
            &&& buffer_after@ == buffer_before@
        },
        limit == 0 ==> r == Ok::<usize, RecvError>(0) && buffer_after@ == buffer_before@ && after
            == before,
        r matches Ok(count) ==> count <= limit && count <= size,
{
    let items = batch@;
    if forall|i: int| 0 <= i < items.len() ==> (#[trigger] items[i]) is Ok {
        lemma_all_values(items);
        lemma_nothing_held_back(before.final_err, items);
    }
    if exists|i: int|
        0 <= i < items.len() && (#[trigger] items[i] matches Err(err)
            && !err.spec_is_disconnected()) {
        let i = choose|i: int|
            0 <= i < items.len() && (#[trigger] items[i] matches Err(err)
                && !err.spec_is_disconnected());
        let k = lemma_first_reported(items, i);
        assert(first_reported(items, k));
    }
}

/// The first error that is reported at once, given that there is one.
proof fn lemma_first_reported<T>(items: Seq<Result<T, RecvError>>, i: int) -> (k: int)
    requires
        0 <= i < items.len(),
        is_reported(items[i]),
    ensures
        first_reported(items, k),
    decreases i,
{
    if exists|j: int| 0 <= j < i && is_reported(#[trigger] items[j]) {
        let j = choose|j: int| 0 <= j < i && is_reported(#[trigger] items[j]);
        lemma_first_reported(items, j)
    } else {
        i
    }
}

/// Without errors the values are all items.
proof fn lemma_all_values<T>(items: Seq<Result<T, RecvError>>)
    requires
        forall|i: int| 0 <= i < items.len() ==> (#[trigger] items[i]) is Ok,
    ensures
        values(items).len() == items.len(),
        forall|i: int|
            0 <= i < items.len() ==> Ok::<T, RecvError>(#[trigger] values(items)[i]) == items[i],
    decreases items.len(),
{
    if items.len() > 0 {
        let init = items.drop_last();
        assert(forall|i: int| 0 <= i < init.len() ==> #[trigger] init[i] == items[i]);
        assert(items.last() is Ok);
        lemma_all_values(init);
    }
}

/// Without errors nothing is held back.
proof fn lemma_nothing_held_back<T>(held: Option<RecvError>, items: Seq<Result<T, RecvError>>)
    requires
        forall|i: int| 0 <= i < items.len() ==> (#[trigger] items[i]) is Ok,
    ensures
        held_back(held, items) == held,
    decreases items.len(),
{
    if items.len() > 0 {
        let init = items.drop_last();
        assert(forall|i: int| 0 <= i < init.len() ==> #[trigger] init[i] == items[i]);
        assert(items.last() is Ok);
        lemma_nothing_held_back(held, init);
    }
}

/// The values among items are those of the items in order: a further value comes last, and an error
/// adds none.
pub proof fn law_values_in_order<T>(items: Seq<Result<T, RecvError>>, value: T, err: RecvError)
    ensures
        values(Seq::<Result<T, RecvError>>::empty()).len() == 0,
        values(items.push(Ok(value))) == values(items).push(value),
        values(items.push(Err(err))) == values(items),
{
    let ok: Result<T, RecvError> = Ok(value);
    let bad: Result<T, RecvError> = Err(err);
    assert(items.push(ok).drop_last() =~= items);
    assert(items.push(bad).drop_last() =~= items);
}

/// No more items are asked for at once than are wanted and than the buffer takes, and as many as
/// that allows.
pub proof fn law_batch_limit(limit: usize, size: usize, r: usize)
    requires
        call_ensures(Receiver::batch_limit, (limit, size), r),
    ensures
        r <= limit,
        r <= size,
        r == limit || r == size,
{
}

/// A failed connection is one whose channel could not be opened or accepted or was lost, also at an
/// endpoint in between.
pub proof fn law_class_of_mpsc_receive_failure(err: RecvError, r: bool, tried: TryRecvError, t: bool)
    requires
        call_ensures(RecvError::is_disconnected, (&err,), r),
        call_ensures(TryRecvError::is_disconnected, (&tried,), t),
    ensures
        err is Connect || err is Listen ==> r,
        err matches RecvError::Receive(cause) ==> (r <==> (cause matches base::RecvError::Receive(
            mux,
        ) && (mux is ChMux || mux is Rejected))),
        err == RecvError::Remote(None) ==> !r,
        err matches RecvError::Remote(Some(inner)) ==> r == inner.spec_is_disconnected(),
        tried is Empty ==> !t,
        tried is Closed || tried is Connect || tried is Listen ==> t,
        tried matches TryRecvError::Receive(cause) ==> t == RecvError::Receive(
            cause,
        ).spec_is_disconnected(),
        tried matches TryRecvError::Remote(cause) ==> t == RecvError::Remote(
            cause,
        ).spec_is_disconnected(),
{
}

/// A held back failure is handed out once.
pub proof fn law_held_back_failure_is_taken_once(
    before: Receiver,
    after: Receiver,
    shown: &Option<RecvError>,
    r: Option<RecvError>,
    again: Option<RecvError>,
)
    requires
        call_ensures(Receiver::error, (&before,), shown),
        exists|state: &mut Receiver| #[trigger]
            call_ensures(Receiver::take_error, (state,), r) && *state == before
                && *final(state) == after,
        exists|state: &mut Receiver| #[trigger]
            call_ensures(Receiver::take_error, (state,), again) && *state == after,
    ensures
        *shown == before.final_err,
        r == before.final_err,
        again is None,
        after == (Receiver { final_err: None, ..before }),
{
}

/// Closing tells the senders that the receiver was closed and keeps what is queued; dropping tells
/// them that it was dropped, unless it was closed before or another endpoint takes over.
pub proof fn law_end_of_a_receiver(
    before: Receiver,
    closed: Receiver,
    reason: ClosedReason,
    dropped: DropAction,
    closed_and_dropped: DropAction,
)
    requires
        exists|state: &mut Receiver| #[trigger]
            call_ensures(Receiver::close, (state,), reason) && *state == before
                && *final(state) == closed,
        call_ensures(Receiver::drop, (before,), dropped),
        call_ensures(Receiver::drop, (closed,), closed_and_dropped),
    ensures
        reason is Closed,
        closed == (Receiver { closed: true, ..before }),
        dropped is HandOver <==> before.has_queue && before.successor,
        dropped is PublishDropped <==> before.has_queue && !before.successor && !before.closed,
        closed_and_dropped is HandOver <==> before.has_queue && before.successor,
        !(closed_and_dropped is PublishDropped),
{
}

/// A receiver that is received is closed like the one that was sent and knows the limit of the
/// remote endpoint; it is told whether that exceeds its own.
pub proof fn law_mpsc_receiver_arrives(
    before: Receiver,
    after: Receiver,
    allocated: Vec<Result<u32, String>>,
    callbacks: Vec<u64>,
    main: Result<u32, String>,
    callback: u64,
    sent: Result<TransportedReceiver, String>,
    arrived: TransportedReceiver,
    max_item_size: usize,
    remote_callbacks: Vec<u64>,
    remote_callback: u64,
    r: (Receiver, bool),
)
    requires
        exists|state: &mut Receiver, ports: &mut PortSerializer| #[trigger]
            call_ensures(
                Receiver::serialize,
                (state, ports, allocated, &callbacks, main, callback),
                sent,
            ) && *state == before && *final(state) == after,
        sent matches Ok(t) ==> t == arrived,
        exists|ports: &mut PortDeserializer| #[trigger]
            call_ensures(
                Receiver::deserialize,
                (arrived, ports, max_item_size, &remote_callbacks, remote_callback),
                r,
            ),
    ensures
        sent is Ok <==> main is Ok,
        main matches Err(err) ==> sent == Err::<TransportedReceiver, String>(err),
        main matches Ok(port) ==> {
            &&& arrived.port == port
            &&& r.0.closed == before.closed
            &&& r.0.remote_max_item_size == Some(before.max_item_size)
            &&& r.1 <==> before.max_item_size > max_item_size
        },
        r.0.max_item_size == max_item_size,
        r.0.parallel == Some(arrived.parallel@.len() as usize),
        r.0.has_queue && !r.0.successor && r.0.final_err is None,
        after == (Receiver { successor: true, ..before }),
{
}

/// The number of additional ports is that of the receiver, or the general one if it has none.
pub proof fn law_number_of_additional_ports_of_a_receiver(
    rx: Receiver,
    mpsc_parallel: usize,
    r: usize,
)
    requires
        call_ensures(Receiver::parallel_ports, (&rx, mpsc_parallel), r),
    ensures
        rx.parallel matches Some(parallel) ==> r == parallel,
        rx.parallel is None ==> r == mpsc_parallel,
{
}

/// A failure of receiving is the same failure of trying to receive and comes back unchanged. That
/// nothing is there, or that the channel is closed, is no failure of receiving.
pub proof fn law_failure_of_trying_to_receive(
    err: RecvError,
    tried: TryRecvError,
    back: Result<RecvError, TryRecvError>,
    other: TryRecvError,
    r: Result<RecvError, TryRecvError>,
)
    requires
        call_ensures(<TryRecvError as From<RecvError>>::from, (err,), tried),
        call_ensures(<RecvError as TryFrom<TryRecvError>>::try_from, (tried,), back),
        call_ensures(<RecvError as TryFrom<TryRecvError>>::try_from, (other,), r),
    ensures
        back == Ok::<RecvError, TryRecvError>(err),
        err matches RecvError::Receive(inner) ==> tried == TryRecvError::Receive(inner),
        err matches RecvError::Connect(inner) ==> tried == TryRecvError::Connect(inner),
        err matches RecvError::Listen(inner) ==> tried == TryRecvError::Listen(inner),
        err matches RecvError::Remote(inner) ==> tried == TryRecvError::Remote(inner),
        r is Err <==> other is Empty || other is Closed,
        r matches Err(same) ==> same == other,
{
}

/// What a receiver is made with, or is set at it, is read back, and nothing else of it changes.
/// A receiver with another size limit replaces the one it was made from.
pub proof fn law_settings_of_an_mpsc_receiver(
    closed: bool,
    size: usize,
    remote: Option<usize>,
    parallel: Option<usize>,
    before: Receiver,
    limit: usize,
    other: Option<usize>,
    limited: Receiver,
    spread_out: Receiver,
    r: (usize, Option<usize>, Option<usize>),
    set: (usize, Option<usize>),
)
    requires
        call_ensures(Receiver::new, (closed, size, remote, parallel), before),
        call_ensures(Receiver::max_item_size, (&before,), r.0),
        call_ensures(Receiver::remote_max_item_size, (&before,), r.1),
        call_ensures(Receiver::parallel, (&before,), r.2),
        call_ensures(Receiver::set_max_item_size, (before, limit), limited),
        exists|state: &mut Receiver| #[trigger]
            call_ensures(Receiver::set_parallel, (state, other), ()) && *state == before
                && *final(state) == spread_out,
        call_ensures(Receiver::max_item_size, (&limited,), set.0),
        call_ensures(Receiver::parallel, (&spread_out,), set.1),
    ensures
        r == (size, remote, parallel),
        set == (limit, other),
        before.closed == closed && before.has_queue && !before.successor && before.final_err
            is None,
        limited == (Receiver { max_item_size: limit, ..before }),
        spread_out == (Receiver { parallel: other, ..before }),
{
}

/// A receiver that could not be connected makes its sender report that, and one whose request
/// could not be accepted reports that itself.
pub proof fn law_receiver_without_connection<T>(
    connect: chmux::ConnectError,
    listen: chmux::ListenerError,
    r: (RemoteSendError, SendReq<T>),
)
    requires
        call_ensures(Receiver::on_connect_failed, (connect,), r.0),
        call_ensures(Receiver::on_accept_failed::<T>, (listen,), r.1),
    ensures
        r.0 == RemoteSendError::Connect(connect),
        r.1.value == Err::<T, RecvError>(RecvError::Listen(listen)),
        r.1.result_tx is None,
{
}

/// A receiver that is sent requests its additional ports and then the port that carries the
/// channel, with their callbacks.
pub proof fn law_ports_of_a_sent_receiver(
    before: Receiver,
    start: PortSerializer,
    extra: PortSerializer,
    after: PortSerializer,
    allocated: Vec<Result<u32, String>>,
    callbacks: Vec<u64>,
    main: Result<u32, String>,
    callback: u64,
    parallel: Vec<u32>,
    sent: Result<TransportedReceiver, String>,
)
    requires
        exists|ports: &mut PortSerializer| #[trigger]
            call_ensures(connect_parallel, (ports, allocated, &callbacks), parallel) && *ports
                == start && *final(ports) == extra,
        exists|state: &mut Receiver, ports: &mut PortSerializer| #[trigger]
            call_ensures(
                Receiver::serialize,
                (state, ports, allocated, &callbacks, main, callback),
                sent,
            ) && *state == before && *ports == start && *final(ports) == after,
    ensures
        after.tasks@ == start.tasks@,
        main is Err ==> after.requests@ == extra.requests@,
        main matches Ok(port) ==> {
            &&& after.requests@ == extra.requests@.push((port, callback))
            &&& sent matches Ok(t) && t.parallel@ == parallel@
        },
{
}

/// A receiver that arrives expects its additional ports and the port that carries the channel,
/// with their callbacks.
pub proof fn law_ports_of_an_arrived_receiver(
    transported: TransportedReceiver,
    start: PortDeserializer,
    extra: PortDeserializer,
    after: PortDeserializer,
    max_item_size: usize,
    callbacks: Vec<u64>,
    callback: u64,
    r: (Receiver, bool),
)
    requires
        exists|ports: &mut PortDeserializer| #[trigger]
            call_ensures(accept_parallel, (ports, &transported.parallel, &callbacks), ())
                && *ports == start && *final(ports) == extra,
        exists|ports: &mut PortDeserializer| #[trigger]
            call_ensures(
                Receiver::deserialize,
                (transported, ports, max_item_size, &callbacks, callback),
                r,
            ) && *ports == start && *final(ports) == after,
    ensures
        after.tasks@ == start.tasks@,
        after.expected@ == extra.expected@.insert(transported.port, callback),
{
}

/// Closing a receiver closes it and changes nothing else of it, and taking the failure that it
/// holds back leaves everything else as it was.
pub proof fn law_closing_keeps_the_rest(
    before: Receiver,
    closed: Receiver,
    reason: ClosedReason,
    taken: Receiver,
    err: Option<RecvError>,
)
    requires
        exists|state: &mut Receiver| #[trigger]
            call_ensures(Receiver::close, (state,), reason) && *state == before
                && *final(state) == closed,
        exists|state: &mut Receiver| #[trigger]
            call_ensures(Receiver::take_error, (state,), err) && *state == before
                && *final(state) == taken,
    ensures
        reason == ClosedReason::Closed,
        closed == (Receiver { closed: true, ..before }),
        err == before.final_err,
        taken == (Receiver { final_err: None, ..before }),
{
}

/// A failure within a batch that does not end the channel is reported at once: the values before
/// it are appended in order, and nothing after it counts. Of the failures before it that end the
/// channel, the first one is held back, unless one is held back already.
pub proof fn law_failure_within_a_batch<T>(
    before: Receiver,
    after: Receiver,
    buffer_before: Vec<T>,
    buffer_after: Vec<T>,
    limit: usize,
    size: usize,
    batch: Vec<Result<T, RecvError>>,
    k: int,
    r: Result<usize, RecvError>,
)
    requires
        exists|rx: &mut Receiver, buffer: &mut Vec<T>| #[trigger]
            call_ensures(Receiver::recv_many::<T>, (rx, buffer, limit, size, batch), r) && *rx
                == before && *final(rx) == after && *buffer == buffer_before && *final(buffer)
                == buffer_after,
        batch@.len() <= limit,
        batch@.len() <= size,
        0 <= k < batch@.len(),
        batch@[k] matches Err(err) && !err.spec_is_disconnected(),
        forall|i: int|
            0 <= i < k ==> (#[trigger] batch@[i] matches Err(err) ==> err.spec_is_disconnected()),
    ensures
        r == Err::<usize, RecvError>(batch@[k]->Err_0),
        buffer_after@ == buffer_before@ + values(batch@.take(k)),
        after == (Receiver { final_err: after.final_err, ..before }),
        before.final_err is Some ==> after.final_err == before.final_err,
        (forall|i: int| 0 <= i < k ==> #[trigger] batch@[i] is Ok) ==> after.final_err
            == before.final_err,
        forall|j: int|
            before.final_err is None && 0 <= j < k && (#[trigger] batch@[j]) is Err && (forall|
                i: int,
            |
                0 <= i < j ==> #[trigger] batch@[i] is Ok) ==> after.final_err == Some(
                batch@[j]->Err_0,
            ),
{
    let items = batch@.take(k);
    assert(first_reported(batch@, k));
    lemma_held_back(before.final_err, items);
    if forall|i: int| 0 <= i < k ==> #[trigger] batch@[i] is Ok {
        lemma_nothing_held_back(before.final_err, items);
    }
    assert forall|j: int|
        before.final_err is None && 0 <= j < k && (#[trigger] batch@[j]) is Err && (forall|i: int|
            0 <= i < j ==> #[trigger] batch@[i] is Ok) implies after.final_err == Some(
        batch@[j]->Err_0,
    ) by {
        assert(items[j] == batch@[j]);
        assert(forall|i: int| 0 <= i < j ==> #[trigger] items[i] == batch@[i]);
        lemma_first_held_back(items, j);
    }
}

/// What is held back is kept.
proof fn lemma_held_back<T>(held: Option<RecvError>, items: Seq<Result<T, RecvError>>)
    ensures
        held is Some ==> held_back(held, items) == held,
    decreases items.len(),
{
    if items.len() > 0 {
        lemma_held_back(held, items.drop_last());
    }
}

/// The first failure that ends the channel is held back.
proof fn lemma_first_held_back<T>(items: Seq<Result<T, RecvError>>, j: int)
    requires
        0 <= j < items.len(),
        is_held_back(items[j]),
        forall|i: int| 0 <= i < j ==> #[trigger] items[i] is Ok,
    ensures
        held_back(None, items) == Some(items[j]->Err_0),
    decreases items.len(),
{
    let init = items.drop_last();
    if j == items.len() - 1 {
        assert(forall|i: int| 0 <= i < init.len() ==> #[trigger] init[i] == items[i]);
        lemma_nothing_held_back(None, init);
    } else {
        assert(forall|i: int| 0 <= i < j ==> #[trigger] init[i] == items[i]);
        assert(init[j] == items[j]);
        lemma_first_held_back(init, j);
    }
}

} // verus!
