//! Receiving values over a base channel.
//!
//! A value arrives either in one piece or in chunks that are decoded while they
//! arrive. It is handed out once the ports of all channels it contains have
//! been connected. Every step keeps what has been received so far in the
//! receiver, so that receiving can be interrupted and resumed at any step.

use vstd::prelude::*;
use std::collections::HashMap;
use crate::chmux;
use crate::codec::DeserializationError;
use crate::rch::DEFAULT_MAX_ITEM_SIZE;
use crate::text::{concat, decimal_list, join_decimals};

verus! {

broadcast use vstd::std_specs::hash::group_hash_axioms;

/// An error that occurred during receiving from a remote endpoint.
pub enum RecvError {
    /// Receiving data over the multiplexed channel failed.
    Receive(chmux::RecvError),
    /// Decoding received data failed.
    Deserialize(DeserializationError),
    /// Ports of received channels were not received.
    MissingPorts(Vec<u32>),
    /// The value exceeds the item size limit.
    MaxItemSizeExceeded,
}

impl RecvError {
    /// Whether the connection was rejected or failed.
    pub open spec fn spec_is_disconnected(self) -> bool {
        self matches RecvError::Receive(err) && err.spec_is_disconnected()
    }

    /// Whether both describe the same failure.
    pub open spec fn same(self, other: RecvError) -> bool {
        match (self, other) {
            (RecvError::MissingPorts(a), RecvError::MissingPorts(b)) => a@ == b@,
            _ => self == other,
        }
    }

    /// Returns whether no further receive operation can succeed.
    pub fn is_final(&self) -> (r: bool)
        ensures
            r == self.spec_is_disconnected(),
    {
        match self {
            RecvError::Receive(err) => err.is_final(),
            RecvError::Deserialize(_)
            | RecvError::MissingPorts(_)
            | RecvError::MaxItemSizeExceeded => false,
        }
    }

    /// Returns whether the connection was rejected or failed.
    pub fn is_disconnected(&self) -> (r: bool)
        ensures
            r == self.spec_is_disconnected(),
    {
        match self {
            RecvError::Receive(err) => err.is_disconnected(),
            RecvError::Deserialize(_)
            | RecvError::MissingPorts(_)
            | RecvError::MaxItemSizeExceeded => false,
        }
    }

    /// The message shown to users.
    pub open spec fn text(self) -> Seq<char> {
        match self {
            RecvError::Receive(err) => "receive error: "@ + err.text(),
            RecvError::Deserialize(err) => "deserialization error: "@ + err.reason@,
            RecvError::MissingPorts(ports) => "missing chmux ports: "@ + decimal_list(ports@),
            RecvError::MaxItemSizeExceeded => "maximum item size exceeded"@,
        }
    }

    /// Returns the message shown to users.
    pub fn message(&self) -> (r: String)
        ensures
            r@ == self.text(),
    {
        match self {
            RecvError::Receive(err) => concat("receive error: ", err.message().as_str()),
            RecvError::Deserialize(err) => concat("deserialization error: ", err.reason.as_str()),
            RecvError::MissingPorts(ports) => concat(
                "missing chmux ports: ",
                join_decimals(ports).as_str(),
            ),
            RecvError::MaxItemSizeExceeded => String::from_str("maximum item size exceeded"),
        }
    }
}

impl Clone for RecvError {
    fn clone(&self) -> (r: Self)
        ensures
            r.same(*self),
    {
        match self {
            RecvError::Receive(err) => RecvError::Receive(*err),
            RecvError::Deserialize(err) => RecvError::Deserialize(err.clone()),
            RecvError::MissingPorts(ports) => {
                let copy: Vec<u32> = ports.clone();
                assert(copy@ =~= ports@);
                RecvError::MissingPorts(copy)
            },
            RecvError::MaxItemSizeExceeded => RecvError::MaxItemSizeExceeded,
        }
    }
}

impl From<chmux::RecvError> for RecvError {
    fn from(err: chmux::RecvError) -> (r: Self) {
        RecvError::Receive(err)
    }
}

impl vstd::std_specs::convert::FromSpecImpl<chmux::RecvError> for RecvError {
    open spec fn obeys_from_spec() -> bool {
        true
    }

    open spec fn from_spec(err: chmux::RecvError) -> RecvError {
        RecvError::Receive(err)
    }
}

impl From<DeserializationError> for RecvError {
    fn from(err: DeserializationError) -> (r: Self) {
        RecvError::Deserialize(err)
    }
}

impl vstd::std_specs::convert::FromSpecImpl<DeserializationError> for RecvError {
    open spec fn obeys_from_spec() -> bool {
        true
    }

    open spec fn from_spec(err: DeserializationError) -> RecvError {
        RecvError::Deserialize(err)
    }
}

/// Gathers the ports of the channels contained in a value while it is decoded.
///
/// Callbacks and tasks are referred to by the numbers under which the
/// surrounding runtime keeps them.
pub struct PortDeserializer {
    /// Callbacks by the remote port they wait for.
    pub expected: HashMap<u32, u64>,
    /// Tasks to start once the value has been received.
    pub tasks: Vec<u64>,
}

/// What is left of the expected ports, and the callbacks to run with the requests that they take
/// over, after `ids` were requested.
pub open spec fn after_requests(expected: Map<u32, u64>, ids: Seq<u32>) -> (Map<u32, u64>, Seq<
    (u32, u64),
>)
    decreases ids.len(),
{
    if ids.len() == 0 {
        (expected, Seq::empty())
    } else {
        let (left, callbacks) = after_requests(expected, ids.drop_last());
        if left.contains_key(ids.last()) {
            (left.remove(ids.last()), callbacks.push((ids.last(), left[ids.last()])))
        } else {
            (left, callbacks)
        }
    }
}

impl PortDeserializer {
    /// Starts gathering ports.
    pub fn start() -> (r: Self)
        ensures
            r.expected@ == Map::<u32, u64>::empty(),
            r.tasks@.len() == 0,
    {
        PortDeserializer { expected: HashMap::new(), tasks: Vec::new() }
    }

    /// Returns the active instance; there is one while a value is being decoded.
    pub fn instance(active: Option<Self>) -> (r: Result<Self, String>)
        ensures
            match active {
                Some(ports) => r == Ok::<Self, String>(ports),
                None => r matches Err(msg) && msg@
                    == "this remoc object can only be deserialized during receiving"@,
            },
    {
        match active {
            Some(ports) => Ok(ports),
            None => Err(
                String::from_str("this remoc object can only be deserialized during receiving"),
            ),
        }
    }

    /// Returns the data storage of the connection, which is known while a value is being decoded.
    pub fn storage(current: Option<u64>) -> (r: Result<u64, String>)
        ensures
            match current {
                Some(storage) => r == Ok::<u64, String>(storage),
                None => r matches Err(msg) && msg@
                    == "storage is only available during deserialization"@,
            },
    {
        match current {
            Some(storage) => Ok(storage),
            None => Err(
                String::from_str("storage is only available during deserialization"),
            ),
        }
    }

    /// Calls a function with the data storage of the connection.
    pub fn with_storage<T, F: FnOnce(u64) -> T>(current: Option<u64>, f: F) -> (r: Result<
        T,
        String,
    >)
        requires
            current matches Some(storage) ==> f.requires((storage,)),
        ensures
            match current {
                Some(storage) => r matches Ok(res) && f.ensures((storage,), res),
                None => r matches Err(msg) && msg@
                    == "storage is only available during deserialization"@,
            },
    {
        match Self::storage(current) {
            Ok(storage) => Ok(f(storage)),
            Err(err) => Err(err),
        }
    }

    /// Expects the given remote port and lets the callback take over its connection.
    pub fn accept(&mut self, remote_port: u32, callback: u64)
        ensures
            final(self).expected@ == old(self).expected@.insert(remote_port, callback),
            final(self).tasks@ == old(self).tasks@,
    {
        self.expected.insert(remote_port, callback);
    }

    /// Registers a task to start once the value has been received.
    pub fn spawn(&mut self, task: u64)
        ensures
            final(self).tasks@ == old(self).tasks@.push(task),
            final(self).expected@ == old(self).expected@,
    {
        self.tasks.push(task);
    }

    /// Matches received requests against the expected ports and returns the callbacks to run,
    /// each with the request that it takes over.
    ///
    /// Superfluous requests are ignored.
    pub fn take_requested(&mut self, ids: &Vec<u32>) -> (callbacks: Vec<(u32, u64)>)
        ensures
            final(self).expected@ == after_requests(old(self).expected@, ids@).0,
            callbacks@ == after_requests(old(self).expected@, ids@).1,
            final(self).tasks@ == old(self).tasks@,
    {
        let mut callbacks: Vec<(u32, u64)> = Vec::new();
        let mut i: usize = 0;
        while i < ids.len()
            invariant
                i <= ids@.len(),
                self.expected@ == after_requests(old(self).expected@, ids@.take(i as int)).0,
                callbacks@ == after_requests(old(self).expected@, ids@.take(i as int)).1,
                self.tasks@ == old(self).tasks@,
            decreases ids@.len() - i,
        {
            assert(ids@.take(i + 1).drop_last() =~= ids@.take(i as int));
            assert(ids@.take(i + 1).last() == ids@[i as int]);
            if let Some(callback) = self.expected.remove(&ids[i]) {
                callbacks.push((ids[i], callback));
            } else {
                assert(self.expected@ =~= after_requests(
                    old(self).expected@,
                    ids@.take(i as int),
                ).0);
            }
            i = i + 1;
        }
        assert(ids@.take(i as int) =~= ids@);
        callbacks
    }

    /// Returns the ports that are expected, in no particular order.
    pub fn missing(&self) -> (r: Vec<u32>)
        ensures
            r@.to_set() == self.expected@.dom(),
            r@.no_duplicates(),
    {
        let mut ports: Vec<u32> = Vec::new();
        for port in iter: self.expected.keys()
            invariant
                iter.seq() == vstd::std_specs::iter::IteratorSpec::remaining(&self.expected.keys()),
                ports@ == iter.seq().unref().take(iter.index() as int),
        {
            ports.push(*port);
            assert(ports@ =~= iter.seq().unref().take(iter.index() + 1));
        }
        proof {
            let keys = vstd::std_specs::iter::IteratorSpec::remaining(&self.expected.keys());
            assert(ports@ =~= keys.unref());
            assert forall|i: int, j: int|
                0 <= i < ports@.len() && 0 <= j < ports@.len() && i != j implies ports@[i]
                != ports@[j] by {
                assert(keys[i] != keys[j]);
            }
        }
        ports
    }
}

/// A message received over the multiplexed channel.
pub enum Received<D> {
    /// A message in one piece.
    Data {
        /// The data.
        data: D,
        /// Its size in bytes.
        size: usize,
    },
    /// The start of a message in chunks.
    Chunks,
    /// Requests to connect the ports with these numbers.
    Requests(Vec<u32>),
}

/// Where the data of the value being received comes from.
pub enum DataSource<D> {
    /// No data is being received.
    Empty,
    /// All data is available.
    Buffered {
        /// The data.
        data: D,
        /// Its size in bytes.
        size: usize,
    },
    /// The data arrives in chunks and is decoded by a task.
    Streamed {
        /// Whether the task is to be fed with further chunks.
        feeding: bool,
        /// Number of bytes received so far.
        total: usize,
    },
}

/// What to do next to receive a value.
#[derive(Clone, Copy, Debug, PartialEq, Eq, Structural)]
pub enum RecvAction {
    /// Receive a message.
    Receive,
    /// Find out whether threads are available for decoding.
    CheckThreads,
    /// Decode the buffered data.
    Deserialize,
    /// Receive a chunk and feed it to the decoding task.
    Feed,
    /// Wait for the decoding task to finish.
    AwaitTask,
    /// Allow this many ports to be requested, then receive a message.
    ReceivePorts {
        /// Maximum number of ports in a message.
        max_ports: usize,
    },
}

/// How far receiving a value has come.
pub enum Progress<T> {
    /// Something is to be done.
    Continue(RecvAction),
    /// Receiving finished: a value, the end of the channel or an error.
    Done(Result<Option<T>, RecvError>),
}

/// What happened while feeding the decoding task.
#[derive(Clone, Copy, Debug, PartialEq, Eq, Structural)]
pub enum FeedEvent {
    /// The task takes no further chunks.
    TaskDone,
    /// A chunk of this size was received and is ready to be fed.
    Chunk(usize),
    /// All chunks have been received.
    End,
    /// Receiving a chunk failed.
    Failed(chmux::RecvChunkError),
}

/// Receives values over a base channel, whatever their type.
pub struct ErasedReceiver<D, T> {
    /// A message that has been received but not processed.
    pub recved: Option<Option<Received<D>>>,
    /// Source of the data of the value being received.
    pub data: DataSource<D>,
    /// A value whose ports are not connected yet.
    pub item: Option<T>,
    /// The ports of that value.
    pub port_deser: Option<PortDeserializer>,
    /// Number of ports that a message may hold besides the expected ones.
    pub default_max_ports: Option<usize>,
    /// Largest value that may be received.
    pub max_item_size: usize,
    /// Callbacks of connected ports, ready to be run, each with the request that it takes over.
    pub callbacks: Vec<(u32, u64)>,
    /// Tasks of received values, ready to be started.
    pub tasks: Vec<u64>,
}

/// The number of ports that a message may hold when `expected` ports are expected.
pub open spec fn port_limit(expected: nat, default_max_ports: usize) -> usize {
    if expected + default_max_ports <= usize::MAX {
        (expected + default_max_ports) as usize
    } else {
        usize::MAX
    }
}

impl<D, T> ErasedReceiver<D, T> {
    /// The receiver is in a state that its methods preserve.
    pub open spec fn wf(self) -> bool {
        &&& self.item is Some ==> {
            &&& self.port_deser is Some
            &&& self.data is Empty
            &&& self.recved is None
            &&& self.default_max_ports is Some
        }
        &&& !(self.data is Empty) ==> self.recved is None
    }

    /// Whether going on in state `before` leads to state `after` and the given progress.
    pub open spec fn resumes_to(before: Self, after: Self, r: Progress<T>) -> bool {
        &&& after.max_item_size == before.max_item_size
        &&& after.default_max_ports == before.default_max_ports
        &&& after.callbacks == before.callbacks
        &&& match before.item {
            // All that is left to do is to connect the ports.
            Some(item) => {
                let pds = before.port_deser->0;
                if pds.expected@.is_empty() {
                    &&& r == Progress::Done(Ok::<Option<T>, RecvError>(Some(item)))
                    &&& after.item is None
                    &&& after.port_deser is None
                    &&& after.data == before.data
                    &&& after.recved == before.recved
                    &&& after.tasks@ == before.tasks@ + pds.tasks@
                } else {
                    &&& r == Progress::<T>::Continue(
                        RecvAction::ReceivePorts {
                            max_ports: port_limit(
                                pds.expected@.len(),
                                before.default_max_ports->0,
                            ),
                        },
                    )
                    &&& after == before
                }
            },
            None => {
                &&& after.item is None
                &&& after.port_deser == before.port_deser
                &&& after.tasks == before.tasks
                &&& match (before.data, before.recved) {
                    (DataSource::Buffered { data, size }, _)
                    | (DataSource::Empty, Some(Some(Received::Data { data, size }))) => {
                        &&& after.recved is None
                        &&& if size > before.max_item_size {
                            &&& r == Progress::Done(
                                Err::<Option<T>, RecvError>(RecvError::MaxItemSizeExceeded),
                            )
                            &&& after.data is Empty
                        } else {
                            &&& r == Progress::<T>::Continue(RecvAction::Deserialize)
                            &&& after.data == (DataSource::Buffered { data, size })
                        }
                    },
                    (DataSource::Streamed { feeding, total }, _) => {
                        &&& r == Progress::<T>::Continue(
                            if feeding {
                                RecvAction::Feed
                            } else {
                                RecvAction::AwaitTask
                            },
                        )
                        &&& after == before
                    },
                    (DataSource::Empty, None) => {
                        &&& r == Progress::<T>::Continue(RecvAction::Receive)
                        &&& after == before
                    },
                    // Requests that belong to a value whose sending was aborted.
                    (DataSource::Empty, Some(Some(Received::Requests(_)))) => {
                        &&& r == Progress::<T>::Continue(RecvAction::Receive)
                        &&& after.data is Empty
                        &&& after.recved is None
                    },
                    (DataSource::Empty, Some(Some(Received::Chunks))) => {
                        &&& r == Progress::<T>::Continue(RecvAction::CheckThreads)
                        &&& after == before
                    },
                    (DataSource::Empty, Some(None)) => {
                        &&& r == Progress::Done(Ok::<Option<T>, RecvError>(None))
                        &&& after.data is Empty
                        &&& after.recved is None
                    },
                }
            },
        }
    }

    /// Whether nothing has been received.
    pub open spec fn is_fresh(self) -> bool {
        &&& self.wf()
        &&& self.recved is None
        &&& self.data is Empty
        &&& self.item is None
        &&& self.port_deser is None
        &&& self.default_max_ports is None
        &&& self.callbacks@.len() == 0
        &&& self.tasks@.len() == 0
    }

    /// Creates a base receiver.
    pub fn new() -> (r: Self)
        ensures
            r.is_fresh(),
            r.max_item_size == DEFAULT_MAX_ITEM_SIZE,
    {
        ErasedReceiver {
            recved: None,
            data: DataSource::Empty,
            item: None,
            port_deser: None,
            default_max_ports: None,
            max_item_size: DEFAULT_MAX_ITEM_SIZE,
            callbacks: Vec::new(),
            tasks: Vec::new(),
        }
    }

    /// The maximum allowed size in bytes of an item to be received.
    pub fn max_item_size(&self) -> (r: usize)
        ensures
            r == self.max_item_size,
    {
        self.max_item_size
    }

    /// Sets the maximum allowed size in bytes of an item to be received.
    pub fn set_max_item_size(&mut self, max_item_size: usize)
        ensures
            *final(self) == (ErasedReceiver { max_item_size, ..*old(self) }),
    {
        self.max_item_size = max_item_size;
    }

    /// Starts or resumes receiving a value.
    ///
    /// `max_ports` is the number of ports that a message may hold by default. It
    /// is remembered from the first call on.
    pub fn recv_erased(&mut self, max_ports: usize) -> (r: Progress<T>)
        requires
            old(self).wf(),
        ensures
            final(self).wf(),
            final(self).default_max_ports is Some,
            Self::resumes_to(
                ErasedReceiver {
                    default_max_ports: Some(
                        match old(self).default_max_ports {
                            Some(known) => known,
                            None => max_ports,
                        },
                    ),
                    ..*old(self)
                },
                *final(self),
                r,
            ),
    {
        if self.default_max_ports.is_none() {
            self.default_max_ports = Some(max_ports);
        }
        self.resume()
    }

    /// Goes on from the current state.
    fn resume(&mut self) -> (r: Progress<T>)
        requires
            old(self).wf(),
            old(self).default_max_ports is Some,
        ensures
            final(self).wf(),
            Self::resumes_to(*old(self), *final(self), r),
    {
        if self.item.is_some() {
            match &self.port_deser {
                Some(pds) => {
                    if !pds.expected.is_empty() {
                        let default_max_ports: usize = self.default_max_ports.unwrap();
                        let expected: usize = pds.expected.len();
                        let max_ports: usize = expected.saturating_add(default_max_ports);
                        return Progress::Continue(RecvAction::ReceivePorts { max_ports });
                    }
                },
                None => {
                    assert(false);
                },
            }
            let pds = self.port_deser.take();
            if let Some(mut pds) = pds {
                self.tasks.append(&mut pds.tasks);
            }
            return Progress::Done(Ok(self.item.take()));
        }
        if let DataSource::Empty = &self.data {
            if let Some(Some(Received::Chunks)) = &self.recved {
                return Progress::Continue(RecvAction::CheckThreads);
            }
            match self.recved.take() {
                None => return Progress::Continue(RecvAction::Receive),
                Some(Some(Received::Data { data, size })) => {
                    self.data = DataSource::Buffered { data, size };
                },
                Some(Some(_)) => return Progress::Continue(RecvAction::Receive),
                Some(None) => return Progress::Done(Ok(None)),
            }
        }
        let oversized: bool = match &self.data {
            DataSource::Buffered { size, .. } => *size > self.max_item_size,
            DataSource::Streamed { feeding, .. } => {
                return Progress::Continue(
                    if *feeding {
                        RecvAction::Feed
                    } else {
                        RecvAction::AwaitTask
                    },
                );
            },
            DataSource::Empty => {
                return Progress::Continue(RecvAction::Receive);
            },
        };
        if oversized {
            self.data = DataSource::Empty;
            return Progress::Done(Err(RecvError::MaxItemSizeExceeded));
        }
        Progress::Continue(RecvAction::Deserialize)
    }

    /// Goes on after [`RecvAction::Receive`].
    pub fn on_received(&mut self, res: Result<Option<Received<D>>, chmux::RecvError>) -> (r:
        Progress<T>)
        requires
            old(self).wf(),
            old(self).default_max_ports is Some,
            old(self).item is None,
            old(self).data is Empty,
            old(self).recved is None,
        ensures
            final(self).wf(),
            match res {
                Err(err) => {
                    &&& r == Progress::Done(Err::<Option<T>, RecvError>(RecvError::Receive(err)))
                    &&& *final(self) == *old(self)
                },
                Ok(msg) => Self::resumes_to(
                    ErasedReceiver { recved: Some(msg), ..*old(self) },
                    *final(self),
                    r,
                ),
            },
    {
        match res {
            Err(err) => Progress::Done(Err(RecvError::from(err))),
            Ok(msg) => {
                self.recved = Some(msg);
                self.resume()
            },
        }
    }

    /// Goes on after [`RecvAction::CheckThreads`].
    ///
    /// Without threads the message stays unprocessed and the given failure is reported.
    pub fn on_threads(&mut self, available: bool, unavailable: DeserializationError) -> (r:
        Progress<T>)
        requires
            old(self).wf(),
            old(self).item is None,
            old(self).recved == Some(Some(Received::<D>::Chunks)),
        ensures
            final(self).wf(),
            !available ==> {
                &&& r == Progress::Done(
                    Err::<Option<T>, RecvError>(RecvError::Deserialize(unavailable)),
                )
                &&& *final(self) == *old(self)
            },
            available ==> {
                &&& r == Progress::<T>::Continue(RecvAction::Feed)
                &&& *final(self) == (ErasedReceiver {
                    recved: None,
                    data: DataSource::Streamed { feeding: true, total: 0 },
                    ..*old(self)
                })
            },
    {
        if !available {
            return Progress::Done(Err(RecvError::Deserialize(unavailable)));
        }
        self.recved = None;
        self.data = DataSource::Streamed { feeding: true, total: 0 };
        Progress::Continue(RecvAction::Feed)
    }

    /// Goes on after [`RecvAction::Deserialize`].
    pub fn on_deserialized(
        &mut self,
        res: Result<(T, PortDeserializer), DeserializationError>,
    ) -> (r: Progress<T>)
        requires
            old(self).wf(),
            old(self).default_max_ports is Some,
            old(self).item is None,
            old(self).data is Buffered,
        ensures
            final(self).wf(),
            match res {
                Err(err) => {
                    &&& r == Progress::Done(
                        Err::<Option<T>, RecvError>(RecvError::Deserialize(err)),
                    )
                    &&& *final(self) == (ErasedReceiver { data: DataSource::Empty, ..*old(self) })
                },
                Ok((item, pds)) => Self::resumes_to(
                    ErasedReceiver {
                        data: DataSource::Empty,
                        item: Some(item),
                        port_deser: Some(pds),
                        ..*old(self)
                    },
                    *final(self),
                    r,
                ),
            },
    {
        self.data = DataSource::Empty;
        self.decoded(res)
    }

    /// Takes over a decoded value.
    fn decoded(&mut self, res: Result<(T, PortDeserializer), DeserializationError>) -> (r:
        Progress<T>)
        requires
            old(self).wf(),
            old(self).default_max_ports is Some,
            old(self).item is None,
            old(self).data is Empty,
            old(self).recved is None,
        ensures
            final(self).wf(),
            match res {
                Err(err) => {
                    &&& r == Progress::Done(
                        Err::<Option<T>, RecvError>(RecvError::Deserialize(err)),
                    )
                    &&& *final(self) == *old(self)
                },
                Ok((item, pds)) => Self::resumes_to(
                    ErasedReceiver { item: Some(item), port_deser: Some(pds), ..*old(self) },
                    *final(self),
                    r,
                ),
            },
    {
        match res {
            Err(err) => Progress::Done(Err(RecvError::from(err))),
            Ok((item, pds)) => {
                self.item = Some(item);
                self.port_deser = Some(pds);
                self.resume()
            },
        }
    }

    /// Goes on after [`RecvAction::Feed`].
    ///
    /// A chunk for which this returns [`RecvAction::Feed`] is to be fed to the task.
    /// When the remote endpoint cancels the value, receiving starts over.
    pub fn on_feed(&mut self, event: FeedEvent) -> (r: Progress<T>)
        requires
            old(self).wf(),
            old(self).item is None,
            old(self).data matches DataSource::Streamed { feeding, total } && feeding && (
            event matches FeedEvent::Chunk(size) ==> total + size <= usize::MAX),
        ensures
            final(self).wf(),
            match event {
                FeedEvent::TaskDone | FeedEvent::End => {
                    &&& r == Progress::<T>::Continue(RecvAction::AwaitTask)
                    &&& *final(self) == (ErasedReceiver {
                        data: DataSource::Streamed {
                            feeding: false,
                            total: old(self).data->total,
                        },
                        ..*old(self)
                    })
                },
                FeedEvent::Chunk(size) => {
                    let total = old(self).data->total + size;
                    if total > old(self).max_item_size {
                        &&& r == Progress::Done(
                            Err::<Option<T>, RecvError>(RecvError::MaxItemSizeExceeded),
                        )
                        &&& *final(self) == (ErasedReceiver { data: DataSource::Empty, ..*old(self)
                        })
                    } else {
                        &&& r == Progress::<T>::Continue(RecvAction::Feed)
                        &&& *final(self) == (ErasedReceiver {
                            data: DataSource::Streamed { feeding: true, total: total as usize },
                            ..*old(self)
                        })
                    }
                },
                FeedEvent::Failed(err) => {
                    &&& r == (match err {
                        chmux::RecvChunkError::Cancelled => Progress::<T>::Continue(
                            RecvAction::Receive,
                        ),
                        chmux::RecvChunkError::ChMux => Progress::Done(
                            Err(RecvError::Receive(chmux::RecvError::ChMux)),
                        ),
                    })
                    &&& *final(self) == (ErasedReceiver { data: DataSource::Empty, ..*old(self) })
                },
            },
    {
        let total: usize = match &self.data {
            DataSource::Streamed { total, .. } => *total,
            _ => 0,
        };
        match event {
            FeedEvent::TaskDone | FeedEvent::End => {
                self.data = DataSource::Streamed { feeding: false, total };
                Progress::Continue(RecvAction::AwaitTask)
            },
            FeedEvent::Chunk(size) => {
                let total: usize = total + size;
                if total > self.max_item_size {
                    self.data = DataSource::Empty;
                    Progress::Done(Err(RecvError::MaxItemSizeExceeded))
                } else {
                    self.data = DataSource::Streamed { feeding: true, total };
                    Progress::Continue(RecvAction::Feed)
                }
            },
            FeedEvent::Failed(chmux::RecvChunkError::Cancelled) => {
                self.data = DataSource::Empty;
                Progress::Continue(RecvAction::Receive)
            },
            FeedEvent::Failed(chmux::RecvChunkError::ChMux) => {
                self.data = DataSource::Empty;
                Progress::Done(Err(RecvError::Receive(chmux::RecvError::ChMux)))
            },
        }
    }

    /// Goes on after [`RecvAction::AwaitTask`].
    ///
    /// `res` is what the task returned, or the reason for which it was aborted.
    pub fn on_task(
        &mut self,
        res: Result<Result<(T, PortDeserializer), DeserializationError>, String>,
    ) -> (r: Progress<T>)
        requires
            old(self).wf(),
            old(self).default_max_ports is Some,
            old(self).item is None,
            old(self).data matches DataSource::Streamed { feeding, .. } && !feeding,
        ensures
            final(self).wf(),
            match res {
                Ok(Ok((item, pds))) => Self::resumes_to(
                    ErasedReceiver {
                        data: DataSource::Empty,
                        item: Some(item),
                        port_deser: Some(pds),
                        ..*old(self)
                    },
                    *final(self),
                    r,
                ),
                Ok(Err(err)) => {
                    &&& r == Progress::Done(
                        Err::<Option<T>, RecvError>(RecvError::Deserialize(err)),
                    )
                    &&& *final(self) == (ErasedReceiver { data: DataSource::Empty, ..*old(self) })
                },
                Err(reason) => {
                    &&& r == Progress::Done(
                        Err::<Option<T>, RecvError>(
                            RecvError::Deserialize(DeserializationError { reason }),
                        ),
                    )
                    &&& *final(self) == (ErasedReceiver { data: DataSource::Empty, ..*old(self) })
                },
            },
    {
        self.data = DataSource::Empty;
        match res {
            Ok(res) => self.decoded(res),
            Err(reason) => Progress::Done(
                Err(RecvError::Deserialize(DeserializationError { reason })),
            ),
        }
    }

    /// Goes on after [`RecvAction::ReceivePorts`].
    ///
    /// The value is handed out once every expected port has been requested. Any
    /// other message means that sending of the value was aborted, so receiving
    /// starts over with that message.
    pub fn on_ports(&mut self, res: Result<Option<Received<D>>, chmux::RecvError>) -> (r: Progress<
        T,
    >)
        requires
            old(self).wf(),
            old(self).item is Some,
        ensures
            final(self).wf(),
            match res {
                Err(err) => {
                    &&& r == Progress::Done(Err::<Option<T>, RecvError>(RecvError::Receive(err)))
                    &&& *final(self) == *old(self)
                },
                Ok(Some(Received::Requests(ids))) => {
                    let pds = old(self).port_deser->0;
                    let (left, callbacks) = after_requests(pds.expected@, ids@);
                    &&& final(self).callbacks@ == old(self).callbacks@ + callbacks
                    &&& final(self).max_item_size == old(self).max_item_size
                    &&& final(self).default_max_ports == old(self).default_max_ports
                    &&& final(self).data == old(self).data
                    &&& final(self).recved == old(self).recved
                    &&& if left.is_empty() {
                        &&& r == Progress::Done(Ok::<Option<T>, RecvError>(old(self).item))
                        &&& final(self).item is None
                        &&& final(self).tasks@ == old(self).tasks@ + pds.tasks@
                    } else {
                        &&& r matches Progress::Done(Err(RecvError::MissingPorts(ports)))
                            && ports@.to_set() == left.dom() && ports@.no_duplicates()
                        &&& final(self).item == old(self).item
                        &&& final(self).port_deser matches Some(after) && after.expected@ == left
                            && after.tasks@ == pds.tasks@
                        &&& final(self).tasks == old(self).tasks
                    }
                },
                Ok(other) => Self::resumes_to(
                    ErasedReceiver {
                        recved: Some(other),
                        item: None,
                        port_deser: None,
                        ..*old(self)
                    },
                    *final(self),
                    r,
                ),
            },
    {
        match res {
            Err(err) => Progress::Done(Err(RecvError::from(err))),
            Ok(Some(Received::Requests(ids))) => {
                let taken = self.port_deser.take();
                let mut pds: PortDeserializer = taken.unwrap();
                let mut callbacks = pds.take_requested(&ids);
                self.callbacks.append(&mut callbacks);
                if !pds.expected.is_empty() {
                    let ports = pds.missing();
                    self.port_deser = Some(pds);
                    return Progress::Done(Err(RecvError::MissingPorts(ports)));
                }
                self.port_deser = Some(pds);
                self.resume()
            },
            Ok(other) => {
                self.recved = Some(other);
                self.data = DataSource::Empty;
                self.item = None;
                self.port_deser = None;
                self.resume()
            },
        }
    }

    /// Returns the callbacks to run, each with the request that it takes over, and the tasks to
    /// start, in that order.
    pub fn take_spawned(&mut self) -> (r: (Vec<(u32, u64)>, Vec<u64>))
        ensures
            r.0@ == old(self).callbacks@,
            r.1@ == old(self).tasks@,
            final(self).callbacks@.len() == 0,
            final(self).tasks@.len() == 0,
            final(self).recved == old(self).recved,
            final(self).data == old(self).data,
            final(self).item == old(self).item,
            final(self).port_deser == old(self).port_deser,
            final(self).default_max_ports == old(self).default_max_ports,
            final(self).max_item_size == old(self).max_item_size,
    {
        let mut callbacks: Vec<(u32, u64)> = Vec::new();
        let mut tasks: Vec<u64> = Vec::new();
        core::mem::swap(&mut self.callbacks, &mut callbacks);
        core::mem::swap(&mut self.tasks, &mut tasks);
        (callbacks, tasks)
    }
}

/// The ports that are still missing are the expected ones that were not requested, and each of
/// their callbacks is kept.
pub proof fn law_missing_ports(expected: Map<u32, u64>, ids: Seq<u32>)
    ensures
        after_requests(expected, ids).0 == expected.remove_keys(ids.to_set()),
    decreases ids.len(),
{
    let left = after_requests(expected, ids).0;
    if ids.len() == 0 {
        assert(left =~= expected.remove_keys(ids.to_set()));
    } else {
        let init = ids.drop_last();
        law_missing_ports(expected, init);
        assert forall|port: u32| ids.contains(port) <==> init.contains(port) || port
            == ids.last() by {
            if ids.contains(port) {
                let i = choose|i: int| 0 <= i < ids.len() && ids[i] == port;
                if i < ids.len() - 1 {
                    assert(init[i] == port);
                }
            }
            if init.contains(port) {
                let i = choose|i: int| 0 <= i < init.len() && init[i] == port;
                assert(ids[i] == port);
            }
            assert(ids[ids.len() - 1] == ids.last());
        }
        assert(left =~= expected.remove_keys(ids.to_set()));
    }
}

/// Whether `run` is an expected port that was requested together with its callback.
pub open spec fn is_requested(expected: Map<u32, u64>, ids: Seq<u32>, run: (u32, u64)) -> bool {
    ids.contains(run.0) && expected.contains_key(run.0) && expected[run.0] == run.1
}

/// Every callback that is run takes over a request of the expected port that it belongs to, and
/// no port's callback is run twice: the callbacks run and the ports left add up to the ports
/// expected.
pub proof fn law_callbacks_run_once(expected: Map<u32, u64>, ids: Seq<u32>)
    requires
        expected.dom().finite(),
    ensures
        after_requests(expected, ids).0.dom().finite(),
        after_requests(expected, ids).1.len() + after_requests(expected, ids).0.len()
            == expected.len(),
        forall|i: int|
            0 <= i < after_requests(expected, ids).1.len() ==> is_requested(
                expected,
                ids,
                #[trigger] after_requests(expected, ids).1[i],
            ),
        forall|i: int, j: int|
            0 <= i < j < after_requests(expected, ids).1.len() ==> (
            #[trigger] after_requests(expected, ids).1[i]).0 != (
            #[trigger] after_requests(expected, ids).1[j]).0,
    decreases ids.len(),
{
    if ids.len() > 0 {
        let init = ids.drop_last();
        law_callbacks_run_once(expected, init);
        law_missing_ports(expected, init);
        let last = ids.last();
        assert(ids[ids.len() - 1] == last);
        let runs = after_requests(expected, init).1;
        assert forall|i: int| 0 <= i < after_requests(expected, ids).1.len() implies is_requested(
            expected,
            ids,
            #[trigger] after_requests(expected, ids).1[i],
        ) by {
            if i < runs.len() {
                assert(is_requested(expected, init, runs[i]));
                let k = choose|k: int| 0 <= k < init.len() && init[k] == runs[i].0;
                assert(ids[k] == runs[i].0);
            }
        }
        assert forall|i: int, j: int| 0 <= i < j < after_requests(expected, ids).1.len() implies (
        #[trigger] after_requests(expected, ids).1[i]).0 != (
        #[trigger] after_requests(expected, ids).1[j]).0 by {
            if j == runs.len() {
                assert(is_requested(expected, init, runs[i]));
                assert(!after_requests(expected, init).0.contains_key(runs[i].0));
            }
        }
    }
}

/// A message in one piece is refused for its size exactly if it is larger than the limit;
/// otherwise its data is decoded next.
pub proof fn law_size_limit_of_one_piece<D, T>(
    before: ErasedReceiver<D, T>,
    after: ErasedReceiver<D, T>,
    data: D,
    size: usize,
    r: Progress<T>,
)
    requires
        exists|rx: &mut ErasedReceiver<D, T>| #[trigger]
            call_ensures(
                ErasedReceiver::<D, T>::on_received,
                (rx, Ok(Some(Received::Data { data, size }))),
                r,
            ) && *rx == before && *final(rx) == after,
        before.item is None,
        before.data is Empty,
    ensures
        size <= before.max_item_size <==> r == Progress::<T>::Continue(RecvAction::Deserialize),
        size <= before.max_item_size ==> after.data == (DataSource::Buffered { data, size }),
        size > before.max_item_size <==> r == Progress::Done(
            Err::<Option<T>, RecvError>(RecvError::MaxItemSizeExceeded),
        ),
        size > before.max_item_size ==> after.data is Empty,
        after.recved is None,
        after.item is None,
        after.max_item_size == before.max_item_size,
        after.callbacks == before.callbacks,
        after.tasks == before.tasks,
{
}

/// The chunks of a message are refused exactly when their total becomes larger than the limit,
/// which is the limit of a message in one piece; until then they are fed to the decoder and
/// counted.
pub proof fn law_size_limit_of_chunks<D, T>(
    before: ErasedReceiver<D, T>,
    after: ErasedReceiver<D, T>,
    total: usize,
    size: usize,
    r: Progress<T>,
)
    requires
        exists|rx: &mut ErasedReceiver<D, T>| #[trigger]
            call_ensures(ErasedReceiver::<D, T>::on_feed, (rx, FeedEvent::Chunk(size)), r) && *rx
                == before && *final(rx) == after,
        before.data == (DataSource::<D>::Streamed { feeding: true, total }),
        total + size <= usize::MAX,
    ensures
        total + size <= before.max_item_size <==> r == Progress::<T>::Continue(RecvAction::Feed),
        total + size <= before.max_item_size ==> after == (ErasedReceiver {
            data: DataSource::Streamed { feeding: true, total: (total + size) as usize },
            ..before
        }),
        total + size > before.max_item_size <==> r == Progress::Done(
            Err::<Option<T>, RecvError>(RecvError::MaxItemSizeExceeded),
        ),
        total + size > before.max_item_size ==> after == (ErasedReceiver {
            data: DataSource::Empty,
            ..before
        }),
{
}

/// Feeding ends when all chunks have arrived or the decoder takes no more, and the decoder is then
/// awaited; a value that the remote endpoint cancels is forgotten without an error, and a failed
/// connection is reported.
pub proof fn law_end_of_chunks<D, T>(
    before: ErasedReceiver<D, T>,
    after: ErasedReceiver<D, T>,
    total: usize,
    event: FeedEvent,
    r: Progress<T>,
)
    requires
        exists|rx: &mut ErasedReceiver<D, T>| #[trigger]
            call_ensures(ErasedReceiver::<D, T>::on_feed, (rx, event), r) && *rx == before
                && *final(rx) == after,
        before.data == (DataSource::<D>::Streamed { feeding: true, total }),
    ensures
        event is TaskDone || event is End <==> r == Progress::<T>::Continue(RecvAction::AwaitTask),
        event is TaskDone || event is End ==> after.data == (DataSource::<D>::Streamed {
            feeding: false,
            total,
        }),
        event == FeedEvent::Failed(chmux::RecvChunkError::Cancelled) <==> r == Progress::<
            T,
        >::Continue(RecvAction::Receive),
        event == FeedEvent::Failed(chmux::RecvChunkError::ChMux) <==> r == Progress::Done(
            Err::<Option<T>, RecvError>(RecvError::Receive(chmux::RecvError::ChMux)),
        ),
        event is Failed ==> after.data is Empty,
        after == (ErasedReceiver { data: after.data, ..before }),
{
}

/// What follows from other messages than a value in one piece: chunks wait for a decoder, the end
/// of the channel is reported, requests of ports without a value are dropped, and a failure is
/// reported and changes nothing.
pub proof fn law_other_messages<D, T>(
    before: ErasedReceiver<D, T>,
    after: ErasedReceiver<D, T>,
    res: Result<Option<Received<D>>, chmux::RecvError>,
    r: Progress<T>,
)
    requires
        exists|rx: &mut ErasedReceiver<D, T>| #[trigger]
            call_ensures(ErasedReceiver::<D, T>::on_received, (rx, res), r) && *rx == before
                && *final(rx) == after,
        before.item is None,
        before.data is Empty,
        before.recved is None,
    ensures
        res matches Err(err) ==> after == before && r == Progress::Done(
            Err::<Option<T>, RecvError>(RecvError::Receive(err)),
        ),
        res matches Ok(None) ==> r == Progress::Done(Ok::<Option<T>, RecvError>(None))
            && after.recved is None && after.data is Empty,
        res matches Ok(Some(Received::Chunks)) ==> r == Progress::<T>::Continue(
            RecvAction::CheckThreads,
        ) && after.recved == Some(Some(Received::<D>::Chunks)) && after.data is Empty,
        res matches Ok(Some(Received::Requests(ids))) ==> r == Progress::<T>::Continue(
            RecvAction::Receive,
        ) && after.recved is None && after.data is Empty,
        r == Progress::Done(Ok::<Option<T>, RecvError>(None)) <==> res == Ok::<
            Option<Received<D>>,
            chmux::RecvError,
        >(None),
        after.item is None,
        after.max_item_size == before.max_item_size,
        after.callbacks == before.callbacks,
        after.tasks == before.tasks,
{
}

/// A value in chunks is decoded while it arrives if there are threads; otherwise the failure is
/// reported and the value can be received later.
pub proof fn law_threads_are_needed_for_chunks<D, T>(
    before: ErasedReceiver<D, T>,
    after: ErasedReceiver<D, T>,
    available: bool,
    unavailable: DeserializationError,
    r: Progress<T>,
)
    requires
        exists|rx: &mut ErasedReceiver<D, T>| #[trigger]
            call_ensures(ErasedReceiver::<D, T>::on_threads, (rx, available, unavailable), r) && *rx
                == before && *final(rx) == after,
    ensures
        available <==> r == Progress::<T>::Continue(RecvAction::Feed),
        available ==> after.data == (DataSource::<D>::Streamed { feeding: true, total: 0 })
            && after.recved is None,
        !available ==> after == before && r == Progress::Done(
            Err::<Option<T>, RecvError>(RecvError::Deserialize(unavailable)),
        ),
        after.max_item_size == before.max_item_size,
        after.item == before.item,
{
}

/// A decoded value is handed out at once exactly if no port is expected for it, and then its tasks
/// are started; otherwise its ports are awaited, of which a message may hold as many as are
/// expected and the default beyond that. A value that cannot be decoded is dropped.
pub proof fn law_decoded_value_is_handed_out<D, T>(
    before: ErasedReceiver<D, T>,
    after: ErasedReceiver<D, T>,
    res: Result<(T, PortDeserializer), DeserializationError>,
    default_max_ports: usize,
    r: Progress<T>,
)
    requires
        exists|rx: &mut ErasedReceiver<D, T>| #[trigger]
            call_ensures(ErasedReceiver::<D, T>::on_deserialized, (rx, res), r) && *rx == before
                && *final(rx) == after,
        before.default_max_ports == Some(default_max_ports),
    ensures
        res matches Err(err) ==> r == Progress::Done(
            Err::<Option<T>, RecvError>(RecvError::Deserialize(err)),
        ) && after == (ErasedReceiver { data: DataSource::Empty, ..before }),
        res matches Ok((item, ports)) ==> {
            &&& (forall|port: u32| !ports.expected@.contains_key(port)) <==> r == Progress::Done(
                Ok::<Option<T>, RecvError>(Some(item)),
            )
            &&& (forall|port: u32| !ports.expected@.contains_key(port)) ==> after.item is None
                && after.tasks@ == before.tasks@ + ports.tasks@
            &&& (exists|port: u32| ports.expected@.contains_key(port)) ==> {
                &&& after.item == Some(item)
                &&& after.port_deser == Some(ports)
                &&& after.tasks == before.tasks
                &&& ports.expected@.len() + default_max_ports <= usize::MAX ==> r == Progress::<
                    T,
                >::Continue(
                    RecvAction::ReceivePorts {
                        max_ports: (ports.expected@.len() + default_max_ports) as usize,
                    },
                )
                &&& ports.expected@.len() + default_max_ports > usize::MAX ==> r == Progress::<
                    T,
                >::Continue(RecvAction::ReceivePorts { max_ports: usize::MAX })
            }
        },
        after.data is Empty,
        after.callbacks == before.callbacks,
        after.max_item_size == before.max_item_size,
{
    if let Ok((item, ports)) = res {
        if forall|port: u32| !ports.expected@.contains_key(port) {
            assert(ports.expected@.dom() =~= Set::empty());
            assert(ports.expected@ =~= Map::empty());
        } else {
            let port = choose|port: u32| ports.expected@.contains_key(port);
            assert(ports.expected@.dom().contains(port));
        }
    }
}

/// A value decoded from chunks is handed out like one from a single piece; a decoder that failed or
/// was aborted gives an error, and the value is dropped.
pub proof fn law_decoded_chunks_are_handed_out<D, T>(
    before: ErasedReceiver<D, T>,
    after: ErasedReceiver<D, T>,
    res: Result<Result<(T, PortDeserializer), DeserializationError>, String>,
    r: Progress<T>,
)
    requires
        exists|rx: &mut ErasedReceiver<D, T>| #[trigger]
            call_ensures(ErasedReceiver::<D, T>::on_task, (rx, res), r) && *rx == before
                && *final(rx) == after,
    ensures
        res matches Ok(Ok((item, ports))) ==> {
            &&& (forall|port: u32| !ports.expected@.contains_key(port)) <==> r == Progress::Done(
                Ok::<Option<T>, RecvError>(Some(item)),
            )
            &&& (forall|port: u32| !ports.expected@.contains_key(port)) ==> after.item is None
                && after.tasks@ == before.tasks@ + ports.tasks@
            &&& (exists|port: u32| ports.expected@.contains_key(port)) ==> {
                &&& r matches Progress::Continue(RecvAction::ReceivePorts { .. })
                &&& after.item == Some(item)
                &&& after.port_deser == Some(ports)
            }
        },
        res matches Ok(Err(err)) ==> r == Progress::Done(
            Err::<Option<T>, RecvError>(RecvError::Deserialize(err)),
        ) && after.item == before.item,
        res matches Err(reason) ==> r == Progress::Done(
            Err::<Option<T>, RecvError>(RecvError::Deserialize(DeserializationError { reason })),
        ) && after.item == before.item,
        after.data is Empty,
        after.callbacks == before.callbacks,
        after.max_item_size == before.max_item_size,
{
    if let Ok(Ok((item, ports))) = res {
        if forall|port: u32| !ports.expected@.contains_key(port) {
            assert(ports.expected@.dom() =~= Set::empty());
            assert(ports.expected@ =~= Map::empty());
        } else {
            let port = choose|port: u32| ports.expected@.contains_key(port);
            assert(ports.expected@.dom().contains(port));
        }
    }
}

/// A value whose ports are awaited is handed out exactly if every expected port is among the
/// requests, in whatever order and however many others there are. Otherwise the missing ports are
/// reported, no more and no fewer, and the value is kept.
pub proof fn law_value_needs_all_its_ports<D, T>(
    before: ErasedReceiver<D, T>,
    after: ErasedReceiver<D, T>,
    item: T,
    ports: PortDeserializer,
    ids: Vec<u32>,
    r: Progress<T>,
)
    requires
        exists|rx: &mut ErasedReceiver<D, T>| #[trigger]
            call_ensures(
                ErasedReceiver::<D, T>::on_ports,
                (rx, Ok(Some(Received::Requests(ids)))),
                r,
            ) && *rx == before && *final(rx) == after,
        before.item == Some(item),
        before.port_deser == Some(ports),
    ensures
        (forall|port: u32| #[trigger] ports.expected@.contains_key(port) ==> ids@.contains(port))
            <==> r == Progress::Done(Ok::<Option<T>, RecvError>(Some(item))),
        (forall|port: u32| #[trigger] ports.expected@.contains_key(port) ==> ids@.contains(port))
            ==> after.item is None && after.tasks@ == before.tasks@ + ports.tasks@,
        (exists|port: u32|
            #[trigger] ports.expected@.contains_key(port) && !ids@.contains(port)) ==> {
            &&& r matches Progress::Done(Err(RecvError::MissingPorts(missing)))
                && forall|port: u32|
                #![trigger missing@.contains(port)]
                #![trigger ports.expected@.contains_key(port)]
                missing@.contains(port) <==> ports.expected@.contains_key(port) && !ids@.contains(
                    port,
                )
            &&& after.item == Some(item)
            &&& after.tasks == before.tasks
        },
        forall|i: int|
            0 <= i < before.callbacks@.len() ==> #[trigger] after.callbacks@[i]
                == before.callbacks@[i],
{
    law_missing_ports(ports.expected@, ids@);
    let left = after_requests(ports.expected@, ids@).0;
    assert forall|port: u32| #[trigger] left.contains_key(port) <==> ports.expected@.contains_key(
        port,
    ) && !ids@.contains(port) by {
        assert(left.dom().contains(port) <==> ports.expected@.dom().contains(port)
            && !ids@.to_set().contains(port));
    }
    if forall|port: u32| #[trigger] ports.expected@.contains_key(port) ==> ids@.contains(port) {
        assert(left.dom() =~= Set::empty());
        assert(left =~= Map::empty());
    } else {
        let port = choose|port: u32|
            #[trigger] ports.expected@.contains_key(port) && !ids@.contains(port);
        assert(left.contains_key(port));
        assert(left.dom().contains(port));
        if let Progress::Done(Err(RecvError::MissingPorts(missing))) = r {
            assert forall|port: u32| missing@.contains(port) <==> left.contains_key(port) by {
                assert(missing@.to_set().contains(port) <==> left.dom().contains(port));
            }
        }
    }
}

/// When another message arrives in place of the requests of a value's ports, sending of that value
/// was aborted: it is forgotten, and the message is received in its stead.
pub proof fn law_aborted_value_is_forgotten<D, T>(
    before: ErasedReceiver<D, T>,
    after: ErasedReceiver<D, T>,
    res: Result<Option<Received<D>>, chmux::RecvError>,
    r: Progress<T>,
)
    requires
        exists|rx: &mut ErasedReceiver<D, T>| #[trigger]
            call_ensures(ErasedReceiver::<D, T>::on_ports, (rx, res), r) && *rx == before
                && *final(rx) == after,
        before.wf(),
        before.item is Some,
    ensures
        res matches Err(err) ==> after == before && r == Progress::Done(
            Err::<Option<T>, RecvError>(RecvError::Receive(err)),
        ),
        res matches Ok(None) ==> after.item is None && r == Progress::Done(
            Ok::<Option<T>, RecvError>(None),
        ),
        res matches Ok(Some(Received::Chunks)) ==> after.item is None && r == Progress::<
            T,
        >::Continue(RecvAction::CheckThreads),
        res matches Ok(Some(Received::Data { data, size })) ==> {
            &&& after.item is None
            &&& size <= before.max_item_size <==> r == Progress::<T>::Continue(
                RecvAction::Deserialize,
            )
            &&& size <= before.max_item_size ==> after.data == (DataSource::Buffered { data, size })
            &&& size > before.max_item_size <==> r == Progress::Done(
                Err::<Option<T>, RecvError>(RecvError::MaxItemSizeExceeded),
            )
        },
        !(res matches Ok(Some(Received::Requests(_)))) ==> after.callbacks == before.callbacks
            && after.tasks == before.tasks,
{
}

/// Receiving can be interrupted at any step: asking again what to do gives the same answer and
/// changes nothing, and the number of ports given at first is kept.
pub proof fn law_receiving_can_be_resumed<D, T>(
    before: ErasedReceiver<D, T>,
    between: ErasedReceiver<D, T>,
    after: ErasedReceiver<D, T>,
    max_ports: usize,
    other_max_ports: usize,
    action: RecvAction,
    r: Progress<T>,
)
    requires
        exists|rx: &mut ErasedReceiver<D, T>| #[trigger]
            call_ensures(
                ErasedReceiver::<D, T>::recv_erased,
                (rx, max_ports),
                Progress::Continue(action),
            ) && *rx == before && *final(rx) == between,
        exists|rx: &mut ErasedReceiver<D, T>| #[trigger]
            call_ensures(ErasedReceiver::<D, T>::recv_erased, (rx, other_max_ports), r) && *rx
                == between && *final(rx) == after,
    ensures
        r == Progress::<T>::Continue(action),
        after.data == between.data,
        after.recved == between.recved,
        after.item == between.item,
        after.port_deser == between.port_deser,
        after.default_max_ports == between.default_max_ports,
        between.default_max_ports == (if before.default_max_ports is Some {
            before.default_max_ports
        } else {
            Some(max_ports)
        }),
        between.item == before.item,
        after.callbacks == before.callbacks,
        after.tasks == before.tasks,
{
}

/// A receiver that has received nothing asks for a message.
pub proof fn law_fresh_receiver_receives<D, T>(
    before: ErasedReceiver<D, T>,
    after: ErasedReceiver<D, T>,
    max_ports: usize,
    r: Progress<T>,
)
    requires
        exists|rx: &mut ErasedReceiver<D, T>| #[trigger]
            call_ensures(ErasedReceiver::<D, T>::recv_erased, (rx, max_ports), r) && *rx == before
                && *final(rx) == after,
        before.recved is None,
        before.data is Empty,
        before.item is None,
    ensures
        r == Progress::<T>::Continue(RecvAction::Receive),
        after == (ErasedReceiver { default_max_ports: after.default_max_ports, ..before }),
{
}

/// Callbacks and tasks that are ready are handed over once, and nothing else changes.
pub proof fn law_spawned_once<D, T>(
    before: ErasedReceiver<D, T>,
    after: ErasedReceiver<D, T>,
    r: (Vec<(u32, u64)>, Vec<u64>),
)
    requires
        exists|rx: &mut ErasedReceiver<D, T>| #[trigger]
            call_ensures(ErasedReceiver::<D, T>::take_spawned, (rx,), r) && *rx == before
                && *final(rx) == after,
    ensures
        r.0@ + after.callbacks@ == before.callbacks@,
        r.1@ + after.tasks@ == before.tasks@,
        after.callbacks@.len() == 0 && after.tasks@.len() == 0,
        after.item == before.item && after.data == before.data && after.recved == before.recved,
{
    assert(r.0@ + after.callbacks@ =~= before.callbacks@);
    assert(r.1@ + after.tasks@ =~= before.tasks@);
}

/// A request is taken over by the callback of its port, at its first occurrence; one of a port that
/// is not expected is ignored.
pub proof fn law_request_meets_its_callback(expected: Map<u32, u64>, ids: Seq<u32>, i: int)
    requires
        0 <= i < ids.len(),
    ensures
        expected.contains_key(ids[i]) ==> after_requests(expected, ids).1.contains(
            (ids[i], expected[ids[i]]),
        ),
        !expected.contains_key(ids[i]) ==> forall|callback: u64|
            !#[trigger] after_requests(expected, ids).1.contains((ids[i], callback)),
    decreases ids.len(),
{
    let init = ids.drop_last();
    let (left, runs) = after_requests(expected, init);
    let all = after_requests(expected, ids).1;
    let id = ids[i];
    lemma_runs_are_expected(expected, ids);
    if exists|j: int| 0 <= j < init.len() && init[j] == id {
        let j = choose|j: int| 0 <= j < init.len() && init[j] == id;
        law_request_meets_its_callback(expected, init, j);
        if expected.contains_key(id) {
            let k = choose|k: int| 0 <= k < runs.len() && runs[k] == (id, expected[id]);
            assert(all[k] == (id, expected[id]));
        }
    } else {
        if i < init.len() {
            assert(init[i] == id);
        }
        law_missing_ports(expected, init);
        assert(!init.contains(id));
        if expected.contains_key(id) {
            assert(left.dom().contains(id));
            assert(all[runs.len() as int] == (id, expected[id]));
        }
    }
}

/// Callbacks that are run belong to expected ports.
proof fn lemma_runs_are_expected(expected: Map<u32, u64>, ids: Seq<u32>)
    ensures
        forall|i: int|
            0 <= i < after_requests(expected, ids).1.len() ==> expected.contains_key(
                (#[trigger] after_requests(expected, ids).1[i]).0,
            ),
    decreases ids.len(),
{
    if ids.len() > 0 {
        lemma_runs_are_expected(expected, ids.drop_last());
        law_missing_ports(expected, ids.drop_last());
        let (left, runs) = after_requests(expected, ids.drop_last());
        assert forall|i: int| 0 <= i < after_requests(expected, ids).1.len() implies expected.contains_key(
            (#[trigger] after_requests(expected, ids).1[i]).0,
        ) by {
            if i < runs.len() {
                assert(expected.contains_key(runs[i].0));
            } else {
                assert(left.dom().contains(ids.last()));
            }
        }
    }
}

/// Only a failed connection ends a base channel; other failures concern a single value.
pub proof fn law_class_of_receive_failure(err: RecvError, is_final: bool, disconnected: bool)
    requires
        call_ensures(RecvError::is_final, (&err,), is_final),
        call_ensures(RecvError::is_disconnected, (&err,), disconnected),
    ensures
        disconnected <==> (err matches RecvError::Receive(cause) && (cause is ChMux
            || cause is Rejected)),
        is_final == disconnected,
{
}

/// The port requests and tasks of a value are collected while it is being received and at no
/// other time.
pub proof fn law_collected_while_receiving(
    active: PortDeserializer,
    fresh: PortDeserializer,
    r: (Result<PortDeserializer, String>, Result<PortDeserializer, String>),
)
    requires
        call_ensures(PortDeserializer::start, (), fresh),
        call_ensures(PortDeserializer::instance, (Some(active),), r.0),
        call_ensures(PortDeserializer::instance, (None::<PortDeserializer>,), r.1),
    ensures
        r.0 == Ok::<PortDeserializer, String>(active),
        r.1 matches Err(msg) && msg@
            == "this remoc object can only be deserialized during receiving"@,
        forall|port: u32| !#[trigger] fresh.expected@.contains_key(port),
        fresh.tasks@.len() == 0,
{
}

/// A value that is being received can reach the storage of its connection and no other; a
/// function that needs it is applied to it.
pub proof fn law_storage_while_receiving<T, F: FnOnce(u64) -> T>(
    storage: u64,
    f: F,
    r: (Result<u64, String>, Result<u64, String>),
    applied: (Result<T, String>, Result<T, String>),
)
    requires
        call_ensures(PortDeserializer::storage, (Some(storage),), r.0),
        call_ensures(PortDeserializer::storage, (None::<u64>,), r.1),
        call_ensures(PortDeserializer::with_storage::<T, F>, (Some(storage), f), applied.0),
        call_ensures(PortDeserializer::with_storage::<T, F>, (None::<u64>, f), applied.1),
    ensures
        r.0 == Ok::<u64, String>(storage),
        r.1 is Err,
        applied.0 matches Ok(res) && call_ensures(f, (storage,), res),
        applied.1 is Err,
        (r.1->Err_0)@ == "storage is only available during deserialization"@,
        (applied.1->Err_0)@ == (r.1->Err_0)@,
{
}

/// A port that is accepted is expected with its callback, and a task that is spawned is added to
/// the others; neither changes anything else.
pub proof fn law_ports_and_tasks_are_collected(
    before: PortDeserializer,
    port: u32,
    callback: u64,
    task: u64,
    accepted: PortDeserializer,
    spawned: PortDeserializer,
)
    requires
        exists|ports: &mut PortDeserializer| #[trigger]
            call_ensures(PortDeserializer::accept, (ports, port, callback), ()) && *ports == before
                && *final(ports) == accepted,
        exists|state: &mut PortDeserializer| #[trigger]
            call_ensures(PortDeserializer::spawn, (state, task), ()) && *state == before
                && *final(state) == spawned,
    ensures
        accepted.expected@.contains_key(port) && accepted.expected@[port] == callback,
        forall|other: u32|
            other != port ==> (#[trigger] accepted.expected@.contains_key(other)
                <==> before.expected@.contains_key(other)) && accepted.expected@[other]
                == before.expected@[other],
        accepted.tasks@ == before.tasks@,
        spawned.tasks@.len() == before.tasks@.len() + 1,
        spawned.tasks@.last() == task,
        spawned.tasks@.drop_last() == before.tasks@,
        spawned.expected@ == before.expected@,
{
}

/// Requests for ports meet the callbacks of the ports that are expected: each of these is run
/// once with its own callback, no other is, and the ports that remain are missing.
pub proof fn law_requests_meet_callbacks(
    before: PortDeserializer,
    ids: Vec<u32>,
    callbacks: Vec<(u32, u64)>,
    after: PortDeserializer,
    missing: Vec<u32>,
)
    requires
        exists|state: &mut PortDeserializer| #[trigger]
            call_ensures(PortDeserializer::take_requested, (state, &ids), callbacks) && *state == before
                && *final(state) == after,
        call_ensures(PortDeserializer::missing, (&after,), missing),
    ensures
        forall|i: int|
            0 <= i < ids@.len() && before.expected@.contains_key(#[trigger] ids@[i])
                ==> callbacks@.contains((ids@[i], before.expected@[ids@[i]])),
        forall|i: int|
            0 <= i < callbacks@.len() ==> before.expected@.contains_key(
                (#[trigger] callbacks@[i]).0,
            ) && ids@.contains(callbacks@[i].0),
        forall|port: u32| #[trigger]
            missing@.contains(port) <==> before.expected@.contains_key(port) && !ids@.contains(port),
        missing@.no_duplicates(),
        after.tasks@ == before.tasks@,
{
    let (left, runs) = after_requests(before.expected@, ids@);
    law_missing_ports(before.expected@, ids@);
    lemma_runs_are_expected(before.expected@, ids@);
    lemma_runs_were_requested(before.expected@, ids@);
    assert forall|i: int|
        0 <= i < ids@.len() && before.expected@.contains_key(#[trigger] ids@[i]) implies
        callbacks@.contains((ids@[i], before.expected@[ids@[i]])) by {
        law_request_meets_its_callback(before.expected@, ids@, i);
    }
    assert forall|port: u32| #[trigger]
        missing@.contains(port) <==> before.expected@.contains_key(port) && !ids@.contains(port) by {
        assert(missing@.to_set().contains(port) <==> missing@.contains(port));
        assert(after.expected@.dom().contains(port) <==> after.expected@.contains_key(port));
    }
}

/// Callbacks that are run belong to ports that were requested.
proof fn lemma_runs_were_requested(expected: Map<u32, u64>, ids: Seq<u32>)
    ensures
        forall|i: int|
            0 <= i < after_requests(expected, ids).1.len() ==> ids.contains(
                (#[trigger] after_requests(expected, ids).1[i]).0,
            ),
    decreases ids.len(),
{
    if ids.len() > 0 {
        let init = ids.drop_last();
        lemma_runs_were_requested(expected, init);
        let (left, runs) = after_requests(expected, init);
        let all = after_requests(expected, ids).1;
        assert forall|i: int| 0 <= i < all.len() implies ids.contains((#[trigger] all[i]).0) by {
            if i < runs.len() {
                assert(all[i] == runs[i]);
                let k = choose|k: int| 0 <= k < init.len() && init[k] == runs[i].0;
                assert(ids[k] == init[k]);
            } else {
                assert(ids[ids.len() - 1] == all[i].0);
            }
        }
    }
}

/// The size limit that was set is read back and nothing else of the receiver changes; that of a
/// new receiver is sixteen mebibytes.
pub proof fn law_size_limit_of_a_receiver<D, T>(
    new: ErasedReceiver<D, T>,
    before: ErasedReceiver<D, T>,
    limit: usize,
    after: ErasedReceiver<D, T>,
    r: (usize, usize),
)
    requires
        call_ensures(ErasedReceiver::<D, T>::new, (), new),
        exists|state: &mut ErasedReceiver<D, T>| #[trigger]
            call_ensures(ErasedReceiver::<D, T>::set_max_item_size, (state, limit), ()) && *state == before
                && *final(state) == after,
        call_ensures(ErasedReceiver::<D, T>::max_item_size, (&after,), r.0),
        call_ensures(ErasedReceiver::<D, T>::max_item_size, (&new,), r.1),
    ensures
        r.0 == limit,
        after == (ErasedReceiver { max_item_size: limit, ..before }),
        r.1 == 16 * 1024 * 1024,
        new.recved is None && new.data is Empty && new.item is None && new.port_deser is None,
        new.callbacks@.len() == 0 && new.tasks@.len() == 0,
{
}

/// A copy of a failure is the same failure, and names the same ports if ports were missing.
pub proof fn law_copied_receive_failure(err: RecvError, r: RecvError)
    requires
        call_ensures(<RecvError as Clone>::clone, (&err,), r),
    ensures
        err matches RecvError::MissingPorts(ports) ==> (r matches RecvError::MissingPorts(copied)
            && copied@ == ports@),
        !(err is MissingPorts) ==> r == err,
{
}

/// How many ports a message may hold is remembered from the first time that receiving starts.
pub proof fn law_number_of_ports_is_remembered<D, T>(
    before: ErasedReceiver<D, T>,
    max_ports: usize,
    after: ErasedReceiver<D, T>,
    r: Progress<T>,
)
    requires
        exists|state: &mut ErasedReceiver<D, T>| #[trigger]
            call_ensures(ErasedReceiver::<D, T>::recv_erased, (state, max_ports), r) && *state == before
                && *final(state) == after,
    ensures
        before.default_max_ports is None ==> after.default_max_ports == Some(max_ports),
        before.default_max_ports is Some ==> after.default_max_ports == before.default_max_ports,
        after.max_item_size == before.max_item_size && after.callbacks == before.callbacks,
{
}

/// A value all of whose ports are there is handed out with its tasks when receiving goes on, and
/// what was received after it is kept.
pub proof fn law_complete_value_is_handed_out<D, T>(
    before: ErasedReceiver<D, T>,
    max_ports: usize,
    item: T,
    ports: PortDeserializer,
    after: ErasedReceiver<D, T>,
    r: Progress<T>,
)
    requires
        exists|state: &mut ErasedReceiver<D, T>| #[trigger]
            call_ensures(ErasedReceiver::<D, T>::recv_erased, (state, max_ports), r) && *state == before
                && *final(state) == after,
        before.item == Some(item),
        before.port_deser == Some(ports),
    ensures
        (forall|port: u32| !#[trigger] ports.expected@.contains_key(port)) ==> {
            &&& r == Progress::Done(Ok::<Option<T>, RecvError>(Some(item)))
            &&& after.item is None && after.port_deser is None
            &&& after.data == before.data && after.recved == before.recved
            &&& after.tasks@ == before.tasks@ + ports.tasks@
        },
        (exists|port: u32| #[trigger] ports.expected@.contains_key(port)) ==> {
            &&& r matches Progress::Continue(RecvAction::ReceivePorts { .. })
            &&& after.item == before.item && after.port_deser == before.port_deser
            &&& after.data == before.data && after.recved == before.recved
            &&& after.tasks == before.tasks
        },
{
    if forall|port: u32| !#[trigger] ports.expected@.contains_key(port) {
        assert(ports.expected@ =~= Map::empty());
        assert(ports.expected@.dom() =~= Set::empty());
    }
    if exists|port: u32| #[trigger] ports.expected@.contains_key(port) {
        let port = choose|port: u32| #[trigger] ports.expected@.contains_key(port);
        assert(ports.expected@.dom().contains(port));
    }
}

/// Requests for the ports of a value change what is known of the value and nothing else of the
/// receiver; a value whose ports are missing is kept with its tasks. A failure changes nothing.
pub proof fn law_requests_keep_the_rest<D, T>(
    before: ErasedReceiver<D, T>,
    ids: Vec<u32>,
    after: ErasedReceiver<D, T>,
    r: Progress<T>,
    err: chmux::RecvError,
    failed: ErasedReceiver<D, T>,
    of_failed: Progress<T>,
)
    requires
        exists|rx: &mut ErasedReceiver<D, T>| #[trigger]
            call_ensures(
                ErasedReceiver::<D, T>::on_ports,
                (rx, Ok(Some(Received::Requests(ids)))),
                r,
            ) && *rx == before && *final(rx) == after,
        exists|rx: &mut ErasedReceiver<D, T>| #[trigger]
            call_ensures(ErasedReceiver::<D, T>::on_ports, (rx, Err(err)), of_failed) && *rx
                == before && *final(rx) == failed,
    ensures
        after.data == before.data && after.recved == before.recved,
        after.max_item_size == before.max_item_size,
        after.default_max_ports == before.default_max_ports,
        r matches Progress::Done(Err(_)) ==> {
            &&& after.item == before.item && after.tasks == before.tasks
            &&& after.port_deser matches Some(ports) && ports.tasks@ == (
            before.port_deser->0).tasks@
        },
        failed == before,
        of_failed == Progress::Done(Err::<Option<T>, RecvError>(RecvError::Receive(err))),
{
}

} // verus!
