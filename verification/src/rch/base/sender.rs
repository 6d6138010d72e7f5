//! Sending values over a base channel.
//!
//! A value is either encoded into a buffer and sent in one piece or, when it is
//! expected to be large, encoded while it is being sent in chunks. Which way is
//! tried first follows the sizes of the preceding values.

use vstd::prelude::*;
use crate::chmux;
use crate::codec::SerializationError;
use crate::rch::{SendErrorExt, DEFAULT_MAX_ITEM_SIZE};
use crate::text::concat;

verus! {

/// How many more oversized than small values, or the reverse, are remembered.
pub const BIG_DATA_LIMIT: i8 = 16;

/// Number of chunks that are queued between encoding and sending.
pub const BIG_DATA_CHUNK_QUEUE: usize = 32;

/// Smallest buffer handed to the encoder.
pub const MIN_ENCODE_BUFFER: usize = 512;

/// Largest buffer handed to the encoder.
pub const MAX_ENCODE_BUFFER: usize = 8_192;

/// The reason a base channel send failed.
pub enum SendErrorKind {
    /// The codec could not encode the value.
    Serialize(SerializationError),
    /// Transferring the encoded value failed.
    Send(chmux::SendError),
    /// The encoded value exceeds the item size limit of the channel.
    MaxItemSizeExceeded,
}

impl Clone for SendErrorKind {
    fn clone(&self) -> (r: Self)
        ensures
            r == *self,
    {
        match self {
            SendErrorKind::Serialize(err) => SendErrorKind::Serialize(err.clone()),
            SendErrorKind::Send(err) => SendErrorKind::Send(*err),
            SendErrorKind::MaxItemSizeExceeded => SendErrorKind::MaxItemSizeExceeded,
        }
    }
}

impl SendErrorKind {
    /// Whether the remote receiver explicitly closed the channel.
    pub open spec fn spec_is_closed(self) -> bool {
        self matches SendErrorKind::Send(err) && err.spec_is_closed()
    }

    /// Whether the channel can no longer transfer values.
    pub open spec fn spec_is_disconnected(self) -> bool {
        self is Send
    }

    /// Whether the value caused the error.
    pub open spec fn spec_is_item_specific(self) -> bool {
        self is Serialize || self is MaxItemSizeExceeded
    }

    /// Returns `true` if the remote receiver explicitly closed the channel.
    pub fn is_closed(&self) -> (r: bool)
        ensures
            r == self.spec_is_closed(),
    {
        match self {
            SendErrorKind::Send(err) => err.is_closed(),
            _ => false,
        }
    }

    /// Returns `true` if the channel can no longer transfer values.
    pub fn is_disconnected(&self) -> (r: bool)
        ensures
            r == self.spec_is_disconnected(),
    {
        match self {
            SendErrorKind::Send(err) => err.is_disconnected(),
            _ => false,
        }
    }

    /// Returns whether the error is caused by the item to be sent.
    pub fn is_item_specific(&self) -> (r: bool)
        ensures
            r == self.spec_is_item_specific(),
    {
        matches!(self, SendErrorKind::Serialize(_) | SendErrorKind::MaxItemSizeExceeded)
    }

    /// The message shown to users.
    pub open spec fn text(self) -> Seq<char> {
        match self {
            SendErrorKind::Serialize(err) => "serialization error: "@ + err.reason@,
            SendErrorKind::Send(err) => "send error: "@ + err.text(),
            SendErrorKind::MaxItemSizeExceeded => "maximum item size exceeded"@,
        }
    }

    /// Returns the message shown to users.
    pub fn message(&self) -> (r: String)
        ensures
            r@ == self.text(),
    {
        match self {
            SendErrorKind::Serialize(err) => concat("serialization error: ", err.reason.as_str()),
            SendErrorKind::Send(err) => concat("send error: ", err.message().as_str()),
            SendErrorKind::MaxItemSizeExceeded => String::from_str("maximum item size exceeded"),
        }
    }
}

/// An error returned when a base channel value cannot be sent.
///
/// The value is retained, so that the caller can recover it.
pub struct SendError<T> {
    /// The reason the value could not be sent.
    pub kind: SendErrorKind,
    /// The value that could not be sent.
    pub item: T,
}

impl<T> SendError<T> {
    /// Creates the error.
    pub fn new(kind: SendErrorKind, item: T) -> (r: Self)
        ensures
            r == (SendError { kind, item }),
    {
        SendError { kind, item }
    }

    /// Returns `true` if the remote receiver explicitly closed the channel.
    pub fn is_closed(&self) -> (r: bool)
        ensures
            r == self.kind.spec_is_closed(),
    {
        self.kind.is_closed()
    }

    /// Returns `true` if the channel can no longer transfer values.
    pub fn is_disconnected(&self) -> (r: bool)
        ensures
            r == self.kind.spec_is_disconnected(),
    {
        self.kind.is_disconnected()
    }

    /// Returns whether the error was caused by the value being sent.
    pub fn is_item_specific(&self) -> (r: bool)
        ensures
            r == self.kind.spec_is_item_specific(),
    {
        self.kind.is_item_specific()
    }

    /// Discards the unsent value and returns the same error with `()` in its place.
    pub fn without_item(self) -> (r: SendError<()>)
        ensures
            r == (SendError { kind: self.kind, item: () }),
    {
        SendError { kind: self.kind, item: () }
    }

    /// Returns the message shown to users.
    pub fn message(&self) -> (r: String)
        ensures
            r@ == self.kind.text(),
    {
        self.kind.message()
    }
}

impl<T> SendErrorExt for SendError<T> {
    open spec fn closed(&self) -> bool {
        self.kind.spec_is_closed()
    }

    open spec fn disconnected(&self) -> bool {
        self.kind.spec_is_disconnected()
    }

    open spec fn item_specific(&self) -> bool {
        self.kind.spec_is_item_specific()
    }

    fn is_closed(&self) -> (r: bool) {
        self.kind.is_closed()
    }

    fn is_disconnected(&self) -> (r: bool) {
        self.kind.is_disconnected()
    }

    fn is_item_specific(&self) -> (r: bool) {
        self.kind.is_item_specific()
    }
}

/// Gathers the ports of the channels contained in a value while it is encoded.
///
/// Callbacks and tasks are referred to by the numbers under which the
/// surrounding runtime keeps them.
pub struct PortSerializer {
    /// Ports to connect, with the callback that takes over each connection.
    pub requests: Vec<(u32, u64)>,
    /// Tasks to start once the value has been sent.
    pub tasks: Vec<u64>,
}

impl PortSerializer {
    /// Starts gathering ports.
    pub fn start() -> (r: Self)
        ensures
            r.requests@.len() == 0,
            r.tasks@.len() == 0,
    {
        PortSerializer { requests: Vec::new(), tasks: Vec::new() }
    }

    /// Returns the active instance; there is one while a value is being encoded.
    pub fn instance(active: Option<Self>) -> (r: Result<Self, String>)
        ensures
            match active {
                Some(ports) => r == Ok::<Self, String>(ports),
                None => r matches Err(msg) && msg@
                    == "this remoc object can only be serialized for sending"@,
            },
    {
        match active {
            Some(ports) => Ok(ports),
            None => Err(
                String::from_str("this remoc object can only be serialized for sending"),
            ),
        }
    }

    /// Returns the data storage of the connection, which is known while a value is being encoded.
    pub fn storage(current: Option<u64>) -> (r: Result<u64, String>)
        ensures
            match current {
                Some(storage) => r == Ok::<u64, String>(storage),
                None => r matches Err(msg) && msg@
                    == "storage is only available during serialization"@,
            },
    {
        match current {
            Some(storage) => Ok(storage),
            None => Err(
                String::from_str("storage is only available during serialization"),
            ),
        }
    }

    /// Calls a function with the data storage of the connection.
    pub fn with_storage<T, F: FnOnce(u64) -> T>(current: Option<u64>, f: F) -> (r: Result<
        T,
        String,
    >)
        requires
            current matches Some(storage) ==> f.requires((storage,)),
        ensures
            match current {
                Some(storage) => r matches Ok(res) && f.ensures((storage,), res),
                None => r matches Err(msg) && msg@
                    == "storage is only available during serialization"@,
            },
    {
        match Self::storage(current) {
            Ok(storage) => Ok(f(storage)),
            Err(err) => Err(err),
        }
    }

    /// Requests the connection of an allocated port.
    pub fn connect(&mut self, port: u32, callback: u64)
        ensures
            final(self).requests@ == old(self).requests@.push((port, callback)),
            final(self).tasks@ == old(self).tasks@,
    {
        self.requests.push((port, callback));
    }

    /// Requests the connection of the port that the allocator handed out.
    ///
    /// Fails with the failure of the allocator, in which case nothing is requested.
    pub fn connect_port(&mut self, allocated: Result<u32, String>, callback: u64) -> (r: Result<
        u32,
        String,
    >)
        ensures
            r == allocated,
            final(self).requests@ == (match allocated {
                Ok(port) => old(self).requests@.push((port, callback)),
                Err(_) => old(self).requests@,
            }),
            final(self).tasks@ == old(self).tasks@,
    {
        match allocated {
            Ok(port) => {
                self.connect(port, callback);
                Ok(port)
            },
            Err(err) => Err(err),
        }
    }

    /// Registers a task to start once the value has been sent.
    pub fn spawn(&mut self, task: u64)
        ensures
            final(self).tasks@ == old(self).tasks@.push(task),
            final(self).requests@ == old(self).requests@,
    {
        self.tasks.push(task);
    }
}

/// The multiplexed channel that a base sender uses, as far as sending depends on it.
#[derive(Clone, Copy, Debug, PartialEq, Eq, Structural)]
pub struct RawSender {
    /// Identifies the connection and its data storage.
    pub storage: u64,
    /// Largest message that can be sent in one piece.
    pub max_data_size: usize,
    /// Size of a chunk of a message that is sent in pieces.
    pub chunk_size: usize,
    /// Whether the remote endpoint has closed its receiver.
    pub closed: bool,
    /// Whether the remote endpoint reports what it has received.
    pub all_received_supported: bool,
    /// Whether credits shared by all channels may be used for sending.
    pub global_credits_allowed: bool,
    /// Number of values handed to the channel.
    pub sent: u64,
}

/// Waits for the remote endpoint to receive everything sent up to a certain value.
#[derive(Clone, Copy, Debug, PartialEq, Eq, Structural)]
pub struct AllReceived {
    /// Number of values that must have been received.
    pub up_to: u64,
}

/// Sends values over a base channel, whatever their type.
pub struct ErasedSender {
    /// The multiplexed channel.
    pub sender: RawSender,
    /// Positive if recent values did not fit into a buffer.
    pub big_data: i8,
    /// Encoded size of the last buffered value, used to size the next buffer.
    pub last_size: usize,
    /// Largest value that may be sent.
    pub max_item_size: usize,
}

/// What came of encoding a value into a buffer.
pub enum Serialized {
    /// The value was encoded into this many bytes.
    Fits(usize),
    /// The value did not fit into the buffer.
    Overflow,
    /// The codec failed.
    Failed(SerializationError),
}

/// How to go on with sending a value.
pub enum SendStep {
    /// Encode the value into a buffer.
    Buffer {
        /// Size beyond which encoding is given up.
        limit: usize,
        /// Size of the buffer to start with.
        capacity: usize,
        /// Size of the encoder's own buffer.
        encode_buffer: usize,
    },
    /// Send the encoded value in one piece.
    SendData,
    /// Encode the value while sending it in chunks of this size.
    Stream {
        /// Size of a chunk.
        chunk_size: usize,
    },
    /// Sending failed.
    Fail(SendErrorKind),
}

/// Why sending the chunks of a value stopped.
#[derive(Clone, Copy, Debug, PartialEq, Eq, Structural)]
pub enum StreamError {
    /// The channel failed.
    Send(chmux::SendError),
    /// The chunks exceed the item size limit.
    MaxItemSizeExceeded,
}

/// The outside results that sending one value met.
pub struct SendOutcomes {
    /// What came of encoding into a buffer, if that was tried.
    pub serialized: Serialized,
    /// What came of sending the buffer.
    pub sent: Result<(), chmux::SendError>,
    /// Sizes of the chunks that encoding produced.
    pub chunks: Vec<usize>,
    /// The number of chunks that could be sent and why the next one could not, if so.
    pub chunk_failure: Option<(usize, chmux::SendError)>,
    /// What came of encoding while sending: the total size.
    pub streamed: Result<usize, SerializationError>,
    /// What came of finishing the chunks.
    pub finished: Result<(), chmux::SendError>,
    /// The ports and tasks of the channels that the value contains.
    pub gathered: PortSerializer,
    /// What came of connecting their ports.
    pub connected: Result<(), chmux::SendError>,
}

/// The number of bytes of the first `k` chunks.
pub open spec fn chunks_size(chunks: Seq<usize>, k: int) -> int
    decreases k,
{
    if k <= 0 {
        0
    } else {
        chunks_size(chunks, k - 1) + chunks[k - 1]
    }
}

/// Whether sending the chunks one by one stops at chunk `k` because of the limit.
pub open spec fn exceeds_at(chunks: Seq<usize>, max_item_size: usize, k: int) -> bool {
    &&& 0 <= k < chunks.len()
    &&& chunks_size(chunks, k + 1) > max_item_size
    &&& forall|i: int| 0 <= i <= k ==> #[trigger] chunks_size(chunks, i) <= max_item_size
}

/// The result of sending the chunks one by one.
pub open spec fn stream_result(
    chunks: Seq<usize>,
    failure: Option<(usize, chmux::SendError)>,
    max_item_size: usize,
) -> Result<(), StreamError> {
    if exists|k: int|
        #[trigger] exceeds_at(chunks, max_item_size, k) && (failure matches Some(f) ==> k <= f.0) {
        Err(StreamError::MaxItemSizeExceeded)
    } else {
        match failure {
            Some(f) if f.0 < chunks.len() => Err(StreamError::Send(f.1)),
            _ => Ok(()),
        }
    }
}

/// One less, but not below the limit of what is remembered.
pub open spec fn less_big(big_data: i8) -> i8 {
    if big_data - 1 < -BIG_DATA_LIMIT {
        (-BIG_DATA_LIMIT) as i8
    } else {
        (big_data - 1) as i8
    }
}

/// One more, but not above the limit of what is remembered.
pub open spec fn more_big(big_data: i8) -> i8 {
    if big_data + 1 > BIG_DATA_LIMIT {
        BIG_DATA_LIMIT
    } else {
        (big_data + 1) as i8
    }
}

/// The size of the encoder's own buffer.
pub open spec fn encode_buffer_size(capacity: usize) -> usize {
    if capacity < MIN_ENCODE_BUFFER {
        MIN_ENCODE_BUFFER
    } else if capacity > MAX_ENCODE_BUFFER {
        MAX_ENCODE_BUFFER
    } else {
        capacity
    }
}

/// The result of connecting the ports contained in a sent value.
pub open spec fn connect_result(o: SendOutcomes) -> Result<(), SendErrorKind> {
    match o.connected {
        Err(err) if o.gathered.requests@.len() > 0 => Err(SendErrorKind::Send(err)),
        _ => Ok(()),
    }
}

impl ErasedSender {
    /// The sender is in a state that its methods preserve.
    pub open spec fn wf(self) -> bool {
        &&& -BIG_DATA_LIMIT <= self.big_data <= BIG_DATA_LIMIT
        &&& self.last_size * 110 <= usize::MAX
    }

    /// Creates a base sender from a multiplexed channel.
    pub fn new(sender: RawSender) -> (r: Self)
        ensures
            r.wf(),
            r.sender == sender,
            r.big_data == 0,
            r.last_size == 0,
            r.max_item_size == DEFAULT_MAX_ITEM_SIZE,
    {
        ErasedSender { sender, big_data: 0, last_size: 0, max_item_size: DEFAULT_MAX_ITEM_SIZE }
    }

    /// Consumes this base sender and returns the underlying multiplexed channel.
    pub fn into_inner(self) -> (r: RawSender)
        ensures
            r == self.sender,
    {
        self.sender
    }

    /// Returns whether the remote endpoint has closed its receiver.
    pub fn is_closed(&self) -> (r: bool)
        ensures
            r == self.sender.closed,
    {
        self.sender.closed
    }

    /// Returns the data storage of the channel multiplexer.
    pub fn storage(&self) -> (r: u64)
        ensures
            r == self.sender.storage,
    {
        self.sender.storage
    }

    /// The maximum allowed size in bytes of an item to be sent.
    pub fn max_item_size(&self) -> (r: usize)
        ensures
            r == self.max_item_size,
    {
        self.max_item_size
    }

    /// Sets the maximum allowed size in bytes of an item to be sent.
    pub fn set_max_item_size(&mut self, max_item_size: usize)
        ensures
            *final(self) == (ErasedSender { max_item_size, ..*old(self) }),
    {
        self.max_item_size = max_item_size;
    }

    /// Returns whether the remote endpoint supports calling [`all_received`](Self::all_received).
    pub fn is_all_received_supported(&self) -> (r: bool)
        ensures
            r == self.sender.all_received_supported,
    {
        self.sender.all_received_supported
    }

    /// Returns what to wait for until everything sent up to this call has been received.
    pub fn all_received(&self) -> (r: AllReceived)
        ensures
            r.up_to == self.sender.sent,
    {
        AllReceived { up_to: self.sender.sent }
    }

    /// Returns whether credits shared by all channels may be used for sending.
    pub fn are_global_credits_allowed(&self) -> (r: bool)
        ensures
            r == self.sender.global_credits_allowed,
    {
        self.sender.global_credits_allowed
    }

    /// Sets whether credits shared by all channels may be used for sending.
    pub fn set_global_credits_allowed(&mut self, allowed: bool)
        ensures
            final(self).sender == (RawSender { global_credits_allowed: allowed, ..old(self).sender
            }),
            final(self).big_data == old(self).big_data,
            final(self).last_size == old(self).last_size,
            final(self).max_item_size == old(self).max_item_size,
    {
        self.sender.global_credits_allowed = allowed;
    }

    /// Says how to start sending a value.
    ///
    /// Encoding into a buffer is tried unless recent values did not fit. The
    /// buffer is a tenth larger than the last value that fitted.
    pub fn start_send(&self) -> (r: SendStep)
        requires
            self.wf(),
        ensures
            self.big_data <= 0 ==> r == (SendStep::Buffer {
                limit: self.sender.max_data_size,
                capacity: (self.last_size * 110 / 100) as usize,
                encode_buffer: encode_buffer_size((self.last_size * 110 / 100) as usize),
            }),
            self.big_data > 0 ==> r == (SendStep::Stream { chunk_size: self.sender.chunk_size }),
    {
        if self.big_data <= 0 {
            let capacity: usize = self.last_size * 110 / 100;
            let encode_buffer: usize = if capacity < MIN_ENCODE_BUFFER {
                MIN_ENCODE_BUFFER
            } else if capacity > MAX_ENCODE_BUFFER {
                MAX_ENCODE_BUFFER
            } else {
                capacity
            };
            SendStep::Buffer { limit: self.sender.max_data_size, capacity, encode_buffer }
        } else {
            SendStep::Stream { chunk_size: self.sender.chunk_size }
        }
    }

    /// Judges an attempt to encode a value into a limited buffer.
    ///
    /// Running over the limit counts, whatever the codec made of it.
    pub fn serialize_buffered(
        result: Result<(), SerializationError>,
        overflow: bool,
        len: usize,
    ) -> (r: Serialized)
        ensures
            r == (if overflow {
                Serialized::Overflow
            } else {
                match result {
                    Ok(()) => Serialized::Fits(len),
                    Err(err) => Serialized::Failed(err),
                }
            }),
    {
        if overflow {
            return Serialized::Overflow;
        }
        match result {
            Ok(()) => Serialized::Fits(len),
            Err(err) => Serialized::Failed(err),
        }
    }

    /// Judges the encoding of a value while it is sent.
    ///
    /// Without threads nothing can be encoded while sending. The reason of an
    /// encoding task that was aborted becomes the failure of the codec.
    pub fn serialize_streaming(
        threads_available: bool,
        unavailable: SerializationError,
        joined: Result<Result<usize, SerializationError>, String>,
    ) -> (r: Result<usize, SerializationError>)
        ensures
            !threads_available ==> r == Err::<usize, SerializationError>(unavailable),
            threads_available ==> match joined {
                Ok(result) => r == result,
                Err(reason) => r is Err && r->Err_0.reason == reason,
            },
    {
        if !threads_available {
            return Err(unavailable);
        }
        match joined {
            Ok(result) => result,
            Err(reason) => Err(SerializationError::new(reason)),
        }
    }

    /// Goes on after encoding into a buffer was tried.
    pub fn on_serialized(&mut self, serialized: Serialized) -> (r: SendStep)
        requires
            old(self).wf(),
            serialized matches Serialized::Fits(len) ==> len * 110 <= usize::MAX,
        ensures
            final(self).wf(),
            final(self).sender == old(self).sender,
            final(self).max_item_size == old(self).max_item_size,
            match serialized {
                Serialized::Fits(len) => {
                    &&& final(self).big_data == less_big(old(self).big_data)
                    &&& final(self).last_size == len
                    &&& r == (if len > old(self).max_item_size {
                        SendStep::Fail(SendErrorKind::MaxItemSizeExceeded)
                    } else {
                        SendStep::SendData
                    })
                },
                Serialized::Overflow => {
                    &&& final(self).big_data == more_big(old(self).big_data)
                    &&& final(self).last_size == old(self).last_size
                    &&& r == (SendStep::Stream { chunk_size: old(self).sender.chunk_size })
                },
                Serialized::Failed(err) => {
                    &&& *final(self) == *old(self)
                    &&& r == SendStep::Fail(SendErrorKind::Serialize(err))
                },
            },
    {
        match serialized {
            Serialized::Fits(len) => {
                self.note_small();
                self.last_size = len;
                if len > self.max_item_size {
                    SendStep::Fail(SendErrorKind::MaxItemSizeExceeded)
                } else {
                    SendStep::SendData
                }
            },
            Serialized::Overflow => {
                self.big_data = if self.big_data + 1 > BIG_DATA_LIMIT {
                    BIG_DATA_LIMIT
                } else {
                    self.big_data + 1
                };
                SendStep::Stream { chunk_size: self.sender.chunk_size }
            },
            Serialized::Failed(err) => SendStep::Fail(SendErrorKind::Serialize(err)),
        }
    }

    /// Remembers that a value was small enough to be sent in one piece.
    fn note_small(&mut self)
        requires
            old(self).wf(),
        ensures
            *final(self) == (ErasedSender { big_data: less_big(old(self).big_data), ..*old(self) }),
            final(self).wf(),
    {
        self.big_data = if self.big_data - 1 < -BIG_DATA_LIMIT {
            -BIG_DATA_LIMIT
        } else {
            self.big_data - 1
        };
    }

    /// Accounts for a further chunk and returns the new total, unless it exceeds the limit.
    pub fn on_chunk(&self, total: usize, len: usize) -> (r: Option<usize>)
        requires
            total + len <= usize::MAX,
        ensures
            r == (if total + len > self.max_item_size {
                None::<usize>
            } else {
                Some((total + len) as usize)
            }),
    {
        let total: usize = total + len;
        if total > self.max_item_size {
            None
        } else {
            Some(total)
        }
    }

    /// Sends the chunks of a value, given where the channel fails.
    pub fn send_chunks(
        &self,
        chunks: &Vec<usize>,
        failure: Option<(usize, chmux::SendError)>,
    ) -> (r: Result<(), StreamError>)
        requires
            chunks_size(chunks@, chunks@.len() as int) <= usize::MAX,
        ensures
            r == stream_result(chunks@, failure, self.max_item_size),
    {
        let mut total: usize = 0;
        let mut i: usize = 0;
        while i < chunks.len()
            invariant
                i <= chunks@.len(),
                total == chunks_size(chunks@, i as int),
                chunks_size(chunks@, chunks@.len() as int) <= usize::MAX,
                forall|j: int| 0 <= j <= i ==> #[trigger] chunks_size(chunks@, j)
                    <= self.max_item_size,
                failure matches Some(f) ==> i <= f.0,
            decreases chunks@.len() - i,
        {
            proof {
                lemma_chunks_size_monotonic(chunks@, i + 1, chunks@.len() as int);
            }
            let grown = self.on_chunk(total, chunks[i]);
            match grown {
                None => {
                    assert(exceeds_at(chunks@, self.max_item_size, i as int));
                    return Err(StreamError::MaxItemSizeExceeded);
                },
                Some(new_total) => {
                    total = new_total;
                },
            }
            if let Some((at, err)) = failure {
                if i == at {
                    proof {
                        assert forall|k: int|
                            #[trigger] exceeds_at(chunks@, self.max_item_size, k) implies k > at by {
                            if k <= at {
                                assert(chunks_size(chunks@, k + 1) <= self.max_item_size);
                            }
                        }
                    }
                    return Err(StreamError::Send(err));
                }
            }
            i = i + 1;
        }
        proof {
            assert forall|k: int| !exceeds_at(chunks@, self.max_item_size, k) by {
                if exceeds_at(chunks@, self.max_item_size, k) {
                    assert(chunks_size(chunks@, k + 1) <= self.max_item_size);
                }
            }
        }
        Ok(())
    }

    /// Goes on after the value was encoded while it was sent.
    ///
    /// A failure to send wins over a failure to encode, since the latter may be
    /// caused by the former.
    pub fn on_streamed(
        streamed: Result<usize, SerializationError>,
        sent: Result<(), StreamError>,
    ) -> (r: Result<usize, SendErrorKind>)
        ensures
            r == (match (streamed, sent) {
                (_, Err(StreamError::Send(err))) => Err::<usize, SendErrorKind>(
                    SendErrorKind::Send(err),
                ),
                (_, Err(StreamError::MaxItemSizeExceeded)) => Err(
                    SendErrorKind::MaxItemSizeExceeded,
                ),
                (Err(err), Ok(())) => Err(SendErrorKind::Serialize(err)),
                (Ok(size), Ok(())) => Ok(size),
            }),
    {
        match sent {
            Err(StreamError::Send(err)) => Err(SendErrorKind::Send(err)),
            Err(StreamError::MaxItemSizeExceeded) => Err(SendErrorKind::MaxItemSizeExceeded),
            Ok(()) => match streamed {
                Ok(size) => Ok(size),
                Err(err) => Err(SendErrorKind::Serialize(err)),
            },
        }
    }

    /// Goes on after all chunks of a value of the given size have been finished.
    pub fn on_stream_finished(
        &mut self,
        size: usize,
        finished: Result<(), chmux::SendError>,
    ) -> (r: Result<(), SendErrorKind>)
        requires
            old(self).wf(),
        ensures
            final(self).wf(),
            r == (match finished {
                Ok(()) => Ok::<(), SendErrorKind>(()),
                Err(err) => Err(SendErrorKind::Send(err)),
            }),
            *final(self) == (if finished is Ok && size <= old(self).sender.max_data_size {
                ErasedSender { big_data: less_big(old(self).big_data), ..*old(self) }
            } else {
                *old(self)
            }),
    {
        match finished {
            Err(err) => Err(SendErrorKind::Send(err)),
            Ok(()) => {
                if size <= self.sender.max_data_size {
                    self.note_small();
                }
                Ok(())
            },
        }
    }

    /// The state after a further value was handed to the channel.
    pub open spec fn counted(self) -> ErasedSender {
        ErasedSender {
            sender: RawSender { sent: (self.sender.sent + 1) as u64, ..self.sender },
            ..self
        }
    }

    /// Counts a value that was handed to the channel.
    fn note_sent(&mut self)
        requires
            old(self).wf(),
            old(self).sender.sent < u64::MAX,
        ensures
            *final(self) == old(self).counted(),
            final(self).wf(),
    {
        self.sender.sent = self.sender.sent + 1;
    }

    /// The state and result after the value had to be streamed.
    pub open spec fn streamed_result(self, o: SendOutcomes) -> (ErasedSender, Result<
        (),
        SendErrorKind,
    >) {
        match (o.streamed, stream_result(o.chunks@, o.chunk_failure, self.max_item_size)) {
            (_, Err(StreamError::Send(err))) => (self, Err(SendErrorKind::Send(err))),
            (_, Err(StreamError::MaxItemSizeExceeded)) => (
                self,
                Err(SendErrorKind::MaxItemSizeExceeded),
            ),
            (Err(err), Ok(())) => (self, Err(SendErrorKind::Serialize(err))),
            (Ok(size), Ok(())) => match o.finished {
                Err(err) => (self, Err(SendErrorKind::Send(err))),
                Ok(()) => (
                    if size <= self.sender.max_data_size {
                        ErasedSender { big_data: less_big(self.big_data), ..self }.counted()
                    } else {
                        self.counted()
                    },
                    connect_result(o),
                ),
            },
        }
    }

    /// The state and result of sending a value, for the given outside results.
    pub open spec fn send_result(self, o: SendOutcomes) -> (ErasedSender, Result<
        (),
        SendErrorKind,
    >) {
        if self.big_data > 0 {
            self.streamed_result(o)
        } else {
            match o.serialized {
                Serialized::Failed(err) => (self, Err(SendErrorKind::Serialize(err))),
                Serialized::Overflow => ErasedSender {
                    big_data: more_big(self.big_data),
                    ..self
                }.streamed_result(o),
                Serialized::Fits(len) => {
                    let after = ErasedSender {
                        big_data: less_big(self.big_data),
                        last_size: len,
                        ..self
                    };
                    if len > self.max_item_size {
                        (after, Err(SendErrorKind::MaxItemSizeExceeded))
                    } else {
                        match o.sent {
                            Err(err) => (after, Err(SendErrorKind::Send(err))),
                            Ok(()) => (after.counted(), connect_result(o)),
                        }
                    }
                },
            }
        }
    }

    /// Sends a value, given the outside results that it meets.
    ///
    /// Once the value has been sent, the callbacks of its ports are to be called with the
    /// connections, in order, and its tasks are to be started. These are returned. If
    /// sending fails, the error holds the value and nothing is started.
    ///
    /// A value that was handed to the channel counts as sent, also if connecting the ports that
    /// it contains fails. There must be a number for it.
    pub fn send_erased<T>(&mut self, item: T, outcomes: SendOutcomes) -> (r: Result<
        PortSerializer,
        SendError<T>,
    >)
        requires
            old(self).wf(),
            old(self).sender.sent < u64::MAX,
            outcomes.serialized matches Serialized::Fits(len) ==> len * 110 <= usize::MAX,
            chunks_size(outcomes.chunks@, outcomes.chunks@.len() as int) <= usize::MAX,
        ensures
            final(self).wf(),
            *final(self) == old(self).send_result(outcomes).0,
            r == (match old(self).send_result(outcomes).1 {
                Ok(()) => Ok::<PortSerializer, SendError<T>>(outcomes.gathered),
                Err(kind) => Err(SendError { kind, item }),
            }),
    {
        let SendOutcomes {
            serialized,
            sent,
            chunks,
            chunk_failure,
            streamed,
            finished,
            gathered,
            connected,
        } = outcomes;
        let step = match self.start_send() {
            SendStep::Buffer { .. } => self.on_serialized(serialized),
            other => other,
        };
        match step {
            SendStep::Fail(kind) => return Err(SendError::new(kind, item)),
            SendStep::SendData => {
                if let Err(err) = sent {
                    return Err(SendError::new(SendErrorKind::Send(err), item));
                }
            },
            _ => {
                let sent_chunks = self.send_chunks(&chunks, chunk_failure);
                match Self::on_streamed(streamed, sent_chunks) {
                    Err(kind) => return Err(SendError::new(kind, item)),
                    Ok(size) => {
                        if let Err(kind) = self.on_stream_finished(size, finished) {
                            return Err(SendError::new(kind, item));
                        }
                    },
                }
            },
        }
        self.note_sent();
        if gathered.requests.len() > 0 {
            if let Err(err) = connected {
                return Err(SendError::new(SendErrorKind::Send(err), item));
            }
        }
        Ok(gathered)
    }
}

/// More chunks hold at least as many bytes.
proof fn lemma_chunks_size_monotonic(chunks: Seq<usize>, i: int, j: int)
    requires
        0 <= i <= j <= chunks.len(),
    ensures
        0 <= chunks_size(chunks, i) <= chunks_size(chunks, j),
    decreases j,
{
    if j > 0 {
        lemma_chunks_size_monotonic(chunks, if i < j { i } else { i - 1 }, j - 1);
    }
}

/// The first chunk at which a limit is exceeded, given that it is exceeded at all.
proof fn lemma_first_excess(chunks: Seq<usize>, max_item_size: usize, n: int) -> (k: int)
    requires
        0 <= n <= chunks.len(),
        chunks_size(chunks, n) > max_item_size,
    ensures
        exceeds_at(chunks, max_item_size, k),
    decreases n,
{
    if n == 0 {
        0
    } else if chunks_size(chunks, n - 1) > max_item_size {
        lemma_first_excess(chunks, max_item_size, n - 1)
    } else {
        assert forall|i: int| 0 <= i <= n - 1 implies #[trigger] chunks_size(chunks, i)
            <= max_item_size by {
            lemma_chunks_size_monotonic(chunks, i, n - 1);
        }
        n - 1
    }
}

/// A value sent in chunks is refused for its size exactly when it is larger than the limit.
pub proof fn law_size_limit_is_exact(chunks: Seq<usize>, max_item_size: usize)
    ensures
        stream_result(chunks, None, max_item_size) == (if chunks_size(chunks, chunks.len() as int)
            > max_item_size {
            Err::<(), StreamError>(StreamError::MaxItemSizeExceeded)
        } else {
            Ok(())
        }),
{
    let n = chunks.len() as int;
    if chunks_size(chunks, n) > max_item_size {
        let k = lemma_first_excess(chunks, max_item_size, n);
        assert(exceeds_at(chunks, max_item_size, k));
    } else {
        assert forall|k: int| !exceeds_at(chunks, max_item_size, k) by {
            if exceeds_at(chunks, max_item_size, k) {
                lemma_chunks_size_monotonic(chunks, k + 1, n);
            }
        }
    }
}

/// A failure to send is either caused by the value or means that the channel is gone, but never
/// both, whatever the outside results are.
pub proof fn law_failure_is_item_specific_or_disconnects(sender: ErasedSender, o: SendOutcomes)
    ensures
        sender.send_result(o).1 matches Err(kind) ==> (kind.spec_is_item_specific()
            <==> !kind.spec_is_disconnected()),
{
}

/// What is remembered about the sizes of values stays within its limits.
pub proof fn law_size_memory_is_bounded(sender: ErasedSender, o: SendOutcomes)
    requires
        -BIG_DATA_LIMIT <= sender.big_data <= BIG_DATA_LIMIT,
    ensures
        -BIG_DATA_LIMIT <= sender.send_result(o).0.big_data <= BIG_DATA_LIMIT,
        sender.send_result(o).0.max_item_size == sender.max_item_size,
        sender.send_result(o).0.sender == (RawSender {
            sent: sender.send_result(o).0.sender.sent,
            ..sender.sender
        }),
{
}

/// Waiting for everything that was sent covers a value that was sent before, and not one that
/// was refused.
pub proof fn law_sent_values_are_counted(sender: ErasedSender, o: SendOutcomes)
    requires
        sender.sender.sent < u64::MAX,
    ensures
        sender.send_result(o).1 is Ok ==> sender.send_result(o).0.sender.sent == sender.sender.sent
            + 1,
        sender.send_result(o).1 matches Err(kind) && kind.spec_is_item_specific()
            ==> sender.send_result(o).0.sender.sent == sender.sender.sent,
{
}

/// The sizes of chunks add up.
pub proof fn law_chunk_sizes_add_up(chunks: Seq<usize>, len: usize)
    ensures
        chunks_size(Seq::empty(), 0) == 0,
        chunks_size(chunks.push(len), (chunks.len() + 1) as int) == chunks_size(chunks, chunks.len() as int)
            + len,
{
    lemma_chunks_size_extends(chunks, len, chunks.len() as int);
}

/// Further chunks do not change the size of those before them.
proof fn lemma_chunks_size_extends(chunks: Seq<usize>, len: usize, k: int)
    requires
        0 <= k <= chunks.len(),
    ensures
        chunks_size(chunks.push(len), k) == chunks_size(chunks, k),
    decreases k,
{
    if k > 0 {
        lemma_chunks_size_extends(chunks, len, k - 1);
        assert(chunks.push(len)[k - 1] == chunks[k - 1]);
    }
}

/// A value is sent exactly if every step that sending takes succeeded.
///
/// In one piece these are encoding it within the limits and sending the buffer; in chunks these
/// are encoding it, sending every chunk within the limit and finishing. Either way the ports that
/// the value contains must then be connected. A failure hands the value back.
pub proof fn law_send_succeeds_with_its_steps<T>(
    before: ErasedSender,
    after: ErasedSender,
    item: T,
    o: SendOutcomes,
    r: Result<PortSerializer, SendError<T>>,
)
    requires
        exists|sender: &mut ErasedSender| #[trigger]
            call_ensures(ErasedSender::send_erased::<T>, (sender, item, o), r) && *sender == before
                && *final(sender) == after,
    ensures
        ({
            let in_one_piece = before.big_data <= 0 && !(o.serialized is Overflow);
            let data_sent = if in_one_piece {
                &&& o.serialized matches Serialized::Fits(len)
                &&& len <= before.max_item_size
                &&& o.sent is Ok
            } else {
                &&& o.streamed is Ok
                &&& chunks_size(o.chunks@, o.chunks@.len() as int) <= before.max_item_size
                &&& (o.chunk_failure matches Some(f) ==> f.0 >= o.chunks@.len())
                &&& o.finished is Ok
            };
            &&& r is Ok <==> data_sent && (o.gathered.requests@.len() == 0 || o.connected is Ok)
            &&& data_sent ==> after.sender.sent == (before.sender.sent + 1) as u64
            &&& !data_sent ==> after.sender.sent == before.sender.sent
        }),
        r matches Ok(gathered) ==> gathered == o.gathered,
        r matches Err(err) ==> err.item == item,
        after.max_item_size == before.max_item_size,
        after.sender == (RawSender { sent: after.sender.sent, ..before.sender }),
{
    let n = o.chunks@.len() as int;
    let max = before.max_item_size;
    if chunks_size(o.chunks@, n) <= max {
        assert forall|k: int| !exceeds_at(o.chunks@, max, k) by {
            if exceeds_at(o.chunks@, max, k) {
                lemma_chunks_size_monotonic(o.chunks@, k + 1, n);
            }
        }
    } else {
        let k = lemma_first_excess(o.chunks@, max, n);
        assert(exceeds_at(o.chunks@, max, k));
    }
}

/// Sending a value that is encoded into a buffer reports the failure that occurred: that of the
/// encoder, that the value is too large, that of the channel, or that of connecting its ports.
pub proof fn law_failure_of_one_piece<T>(
    before: ErasedSender,
    after: ErasedSender,
    item: T,
    o: SendOutcomes,
    r: Result<PortSerializer, SendError<T>>,
)
    requires
        exists|sender: &mut ErasedSender| #[trigger]
            call_ensures(ErasedSender::send_erased::<T>, (sender, item, o), r) && *sender == before
                && *final(sender) == after,
        before.big_data <= 0,
    ensures
        o.serialized matches Serialized::Failed(err) ==> r == Err::<PortSerializer, SendError<T>>(
            SendError { kind: SendErrorKind::Serialize(err), item },
        ) && after == before,
        o.serialized matches Serialized::Fits(len) ==> {
            &&& after.last_size == len
            &&& (len > before.max_item_size <==> r == Err::<PortSerializer, SendError<T>>(
                SendError { kind: SendErrorKind::MaxItemSizeExceeded, item },
            ))
            &&& (len <= before.max_item_size && o.sent is Err ==> r == Err::<
                PortSerializer,
                SendError<T>,
            >(SendError { kind: SendErrorKind::Send(o.sent->Err_0), item }))
            &&& (len <= before.max_item_size && o.sent is Ok && o.gathered.requests@.len() > 0
                && o.connected is Err ==> r == Err::<PortSerializer, SendError<T>>(
                SendError { kind: SendErrorKind::Send(o.connected->Err_0), item },
            ))
        },
{
}

/// Sending a value in chunks reports the failure that occurred first: that of the channel at a
/// chunk, that the chunks up to there are too large, that of the encoder, that of finishing, or
/// that of connecting its ports.
pub proof fn law_failure_of_chunks<T>(
    before: ErasedSender,
    after: ErasedSender,
    item: T,
    o: SendOutcomes,
    r: Result<PortSerializer, SendError<T>>,
)
    requires
        exists|sender: &mut ErasedSender| #[trigger]
            call_ensures(ErasedSender::send_erased::<T>, (sender, item, o), r) && *sender == before
                && *final(sender) == after,
        before.big_data > 0 || o.serialized is Overflow,
    ensures
        ({
            let n = o.chunks@.len() as int;
            let max = before.max_item_size;
            let fails = |kind: SendErrorKind|
                r == Err::<PortSerializer, SendError<T>>(SendError { kind, item });
            match o.chunk_failure {
                Some((at, err)) if at < n => if chunks_size(o.chunks@, at + 1) <= max {
                    fails(SendErrorKind::Send(err))
                } else {
                    fails(SendErrorKind::MaxItemSizeExceeded)
                },
                _ => if chunks_size(o.chunks@, n) > max {
                    fails(SendErrorKind::MaxItemSizeExceeded)
                } else {
                    match (o.streamed, o.finished, o.connected) {
                        (Err(err), _, _) => fails(SendErrorKind::Serialize(err)),
                        (_, Err(err), _) => fails(SendErrorKind::Send(err)),
                        (_, _, Err(err)) => o.gathered.requests@.len() > 0 ==> fails(
                            SendErrorKind::Send(err),
                        ),
                        _ => r == Ok::<PortSerializer, SendError<T>>(o.gathered),
                    }
                },
            }
        }),
        after.last_size == before.last_size,
{
    let n = o.chunks@.len() as int;
    let max = before.max_item_size;
    let stop = match o.chunk_failure {
        Some((at, err)) if at < n => at + 1,
        _ => n,
    };
    if chunks_size(o.chunks@, stop) <= max {
        assert forall|k: int| exceeds_at(o.chunks@, max, k) implies k >= stop by {
            if k + 1 <= stop {
                lemma_chunks_size_monotonic(o.chunks@, k + 1, stop);
            }
        }
        if stop == n {
            assert(forall|k: int| !exceeds_at(o.chunks@, max, k));
        }
    } else {
        let k = lemma_first_excess(o.chunks@, max, stop);
        assert(exceeds_at(o.chunks@, max, k));
        assert(k < stop) by {
            if k >= stop {
                assert(chunks_size(o.chunks@, stop) <= max);
            }
        }
    }
}

/// Which way is tried first follows the sizes of recent values: each value that overflows the
/// buffer counts for chunks and each one that fits counts against them, up to sixteen either way.
pub proof fn law_method_follows_sizes(
    before: ErasedSender,
    after: ErasedSender,
    serialized: Serialized,
    step: SendStep,
)
    requires
        exists|sender: &mut ErasedSender| #[trigger]
            call_ensures(ErasedSender::on_serialized, (sender, serialized), step) && *sender
                == before && *final(sender) == after,
        before.wf(),
    ensures
        serialized is Overflow ==> {
            &&& step == (SendStep::Stream { chunk_size: before.sender.chunk_size })
            &&& after.big_data >= before.big_data
            &&& before.big_data < 16 ==> after.big_data == before.big_data + 1
        },
        serialized matches Serialized::Fits(len) ==> {
            &&& after.big_data <= before.big_data
            &&& before.big_data > -16 ==> after.big_data == before.big_data - 1
            &&& after.last_size == len
            &&& step is SendData <==> len <= before.max_item_size
            &&& !(step is SendData) ==> step == SendStep::Fail(SendErrorKind::MaxItemSizeExceeded)
        },
        serialized matches Serialized::Failed(err) ==> after == before && step == SendStep::Fail(
            SendErrorKind::Serialize(err),
        ),
        -16 <= after.big_data <= 16,
        after.max_item_size == before.max_item_size,
        after.sender == before.sender,
{
}

/// A value is tried in one piece unless recent values were mostly too large for that. The buffer
/// holds the last value and at most a tenth more, and the encoder's own buffer is as large within
/// its bounds.
pub proof fn law_start_of_sending(sender: ErasedSender, r: SendStep)
    requires
        call_ensures(ErasedSender::start_send, (&sender,), r),
        sender.wf(),
    ensures
        sender.big_data > 0 <==> r == (SendStep::Stream { chunk_size: sender.sender.chunk_size }),
        sender.big_data <= 0 <==> r is Buffer,
        r matches SendStep::Buffer { limit, capacity, encode_buffer } ==> {
            &&& limit == sender.sender.max_data_size
            &&& sender.last_size <= capacity <= sender.last_size + sender.last_size / 10 + 1
            &&& 10 * capacity + 10 > 11 * sender.last_size
            &&& 10 * capacity <= 11 * sender.last_size
            &&& 512 <= encode_buffer <= 8192
            &&& 512 <= capacity <= 8192 ==> encode_buffer == capacity
            &&& capacity < 512 ==> encode_buffer == 512
            &&& capacity > 8192 ==> encode_buffer == 8192
        },
{
}

/// What came of encoding into a buffer that has a limit: running over it counts before all else.
pub proof fn law_overflow_counts_first(
    result: Result<(), SerializationError>,
    overflow: bool,
    len: usize,
    r: Serialized,
)
    requires
        call_ensures(ErasedSender::serialize_buffered, (result, overflow, len), r),
    ensures
        r is Overflow <==> overflow,
        r == Serialized::Fits(len) <==> !overflow && result is Ok,
        !overflow && result is Err ==> r == Serialized::Failed(result->Err_0),
{
}

/// Chunks are accepted exactly as long as their total is within the limit.
pub proof fn law_chunks_are_accepted_up_to_the_limit(
    sender: ErasedSender,
    total: usize,
    len: usize,
    r: Option<usize>,
)
    requires
        call_ensures(ErasedSender::on_chunk, (&sender, total, len), r),
        total + len <= usize::MAX,
    ensures
        r is Some <==> total + len <= sender.max_item_size,
        r matches Some(sum) ==> sum - total == len,
{
}

/// Encoding while sending succeeds only with threads and a task that finished, and then with what
/// the task gave; a failure to send outranks that of the encoder.
pub proof fn law_streaming_outcome(
    threads_available: bool,
    unavailable: SerializationError,
    joined: Result<Result<usize, SerializationError>, String>,
    streamed: Result<usize, SerializationError>,
    sent: Result<(), StreamError>,
    r: Result<usize, SendErrorKind>,
)
    requires
        call_ensures(
            ErasedSender::serialize_streaming,
            (threads_available, unavailable, joined),
            streamed,
        ),
        call_ensures(ErasedSender::on_streamed, (streamed, sent), r),
    ensures
        streamed is Ok <==> threads_available && (joined matches Ok(Ok(_))),
        r is Ok <==> sent is Ok && streamed is Ok,
        r matches Ok(size) ==> joined == Ok::<Result<usize, SerializationError>, String>(Ok(size)),
        sent == Err::<(), StreamError>(StreamError::MaxItemSizeExceeded) <==> r == Err::<
            usize,
            SendErrorKind,
        >(SendErrorKind::MaxItemSizeExceeded),
        sent matches Err(StreamError::Send(err)) ==> r == Err::<usize, SendErrorKind>(
            SendErrorKind::Send(err),
        ),
        r matches Err(SendErrorKind::Send(err)) ==> sent == Err::<(), StreamError>(
            StreamError::Send(err),
        ),
        !threads_available && sent is Ok ==> r == Err::<usize, SendErrorKind>(
            SendErrorKind::Serialize(unavailable),
        ),
        threads_available && sent is Ok ==> (joined matches Ok(Err(err)) ==> r == Err::<
            usize,
            SendErrorKind,
        >(SendErrorKind::Serialize(err))),
        threads_available && sent is Ok ==> (joined matches Err(reason) ==> (r matches Err(
            SendErrorKind::Serialize(err),
        ) && err.reason == reason)),
{
}

/// A value that went out in chunks although it would have fitted into one piece counts against
/// chunks; a failure to finish is reported and changes nothing.
pub proof fn law_finished_stream(
    before: ErasedSender,
    after: ErasedSender,
    size: usize,
    finished: Result<(), chmux::SendError>,
    r: Result<(), SendErrorKind>,
)
    requires
        exists|sender: &mut ErasedSender| #[trigger]
            call_ensures(ErasedSender::on_stream_finished, (sender, size, finished), r) && *sender
                == before && *final(sender) == after,
        before.wf(),
    ensures
        finished is Ok <==> r is Ok,
        finished matches Err(err) ==> r == Err::<(), SendErrorKind>(SendErrorKind::Send(err)),
        finished is Err || size > before.sender.max_data_size ==> after == before,
        finished is Ok && size <= before.sender.max_data_size ==> {
            &&& before.big_data > -16 ==> after.big_data == before.big_data - 1
            &&& before.big_data == -16 ==> after.big_data == -16
            &&& after == (ErasedSender { big_data: after.big_data, ..before })
        },
{
}

/// The class of a failure to send: the value is at fault if it could not be encoded or is too
/// large, otherwise the channel is gone; it is closed if the multiplexed channel says so.
pub proof fn law_class_of_send_failure(
    kind: SendErrorKind,
    closed: bool,
    disconnected: bool,
    item_specific: bool,
)
    requires
        call_ensures(SendErrorKind::is_closed, (&kind,), closed),
        call_ensures(SendErrorKind::is_disconnected, (&kind,), disconnected),
        call_ensures(SendErrorKind::is_item_specific, (&kind,), item_specific),
    ensures
        item_specific <==> kind is Serialize || kind is MaxItemSizeExceeded,
        disconnected <==> kind is Send,
        item_specific != disconnected,
        closed <==> kind == SendErrorKind::Send(chmux::SendError::Closed { gracefully: true }),
        closed ==> disconnected,
{
}

/// A port is requested exactly if it could be allocated, behind those requested before and with
/// its callback; the failure of the allocator is passed on.
pub proof fn law_allocated_ports_are_requested(
    before: PortSerializer,
    after: PortSerializer,
    allocated: Result<u32, String>,
    callback: u64,
    r: Result<u32, String>,
)
    requires
        exists|ports: &mut PortSerializer| #[trigger]
            call_ensures(PortSerializer::connect_port, (ports, allocated, callback), r) && *ports
                == before && *final(ports) == after,
    ensures
        r is Ok <==> allocated is Ok,
        allocated matches Ok(port) ==> {
            &&& r == Ok::<u32, String>(port)
            &&& after.requests@.len() == before.requests@.len() + 1
            &&& after.requests@.last() == (port, callback)
            &&& after.requests@.drop_last() == before.requests@
        },
        allocated matches Err(err) ==> r == Err::<u32, String>(err) && after.requests@
            == before.requests@,
        after.tasks@ == before.tasks@,
{
    if allocated is Ok {
        assert(after.requests@.drop_last() =~= before.requests@);
    }
}

/// The port requests and tasks of a value are collected while it is being sent and at no other
/// time.
pub proof fn law_collected_while_sending(
    active: PortSerializer,
    fresh: PortSerializer,
    r: (Result<PortSerializer, String>, Result<PortSerializer, String>),
)
    requires
        call_ensures(PortSerializer::start, (), fresh),
        call_ensures(PortSerializer::instance, (Some(active),), r.0),
        call_ensures(PortSerializer::instance, (None::<PortSerializer>,), r.1),
    ensures
        r.0 == Ok::<PortSerializer, String>(active),
        r.1 matches Err(msg) && msg@ == "this remoc object can only be serialized for sending"@,
        fresh.requests@.len() == 0 && fresh.tasks@.len() == 0,
{
}

/// A value that is being sent can reach the storage of its connection and no other; a function
/// that needs it is applied to it.
pub proof fn law_storage_while_sending<T, F: FnOnce(u64) -> T>(
    storage: u64,
    f: F,
    r: (Result<u64, String>, Result<u64, String>),
    applied: (Result<T, String>, Result<T, String>),
)
    requires
        call_ensures(PortSerializer::storage, (Some(storage),), r.0),
        call_ensures(PortSerializer::storage, (None::<u64>,), r.1),
        call_ensures(PortSerializer::with_storage::<T, F>, (Some(storage), f), applied.0),
        call_ensures(PortSerializer::with_storage::<T, F>, (None::<u64>, f), applied.1),
    ensures
        r.0 == Ok::<u64, String>(storage),
        r.1 is Err,
        applied.0 matches Ok(res) && call_ensures(f, (storage,), res),
        applied.1 is Err,
        (r.1->Err_0)@ == "storage is only available during serialization"@,
        (applied.1->Err_0)@ == (r.1->Err_0)@,
{
}

/// A port that is to be opened is added to the others with its callback, and a task that is
/// spawned to the other tasks; neither changes anything else.
pub proof fn law_requests_and_tasks_are_collected(
    before: PortSerializer,
    port: u32,
    callback: u64,
    task: u64,
    connected: PortSerializer,
    spawned: PortSerializer,
)
    requires
        exists|ports: &mut PortSerializer| #[trigger]
            call_ensures(PortSerializer::connect, (ports, port, callback), ()) && *ports == before
                && *final(ports) == connected,
        exists|state: &mut PortSerializer| #[trigger]
            call_ensures(PortSerializer::spawn, (state, task), ()) && *state == before
                && *final(state) == spawned,
    ensures
        connected.requests@.len() == before.requests@.len() + 1,
        connected.requests@.last() == (port, callback),
        connected.requests@.drop_last() == before.requests@,
        connected.tasks@ == before.tasks@,
        spawned.tasks@.len() == before.tasks@.len() + 1,
        spawned.tasks@.last() == task,
        spawned.tasks@.drop_last() == before.tasks@,
        spawned.requests@ == before.requests@,
{
}

/// What is set at a sender is read back, and nothing else of it changes. A new sender is that of
/// its channel, has sent nothing big and accepts values of up to sixteen mebibytes.
pub proof fn law_settings_of_a_sender(
    sender: RawSender,
    new: ErasedSender,
    before: ErasedSender,
    limit: usize,
    allowed: bool,
    limited: ErasedSender,
    credited: ErasedSender,
    inner: RawSender,
    r: (usize, bool, usize),
    told: (bool, u64, bool, AllReceived),
)
    requires
        call_ensures(ErasedSender::new, (sender,), new),
        call_ensures(ErasedSender::into_inner, (new,), inner),
        exists|state: &mut ErasedSender| #[trigger]
            call_ensures(ErasedSender::set_max_item_size, (state, limit), ()) && *state == before
                && *final(state) == limited,
        exists|state: &mut ErasedSender| #[trigger]
            call_ensures(ErasedSender::set_global_credits_allowed, (state, allowed), ()) && *state == before
                && *final(state) == credited,
        call_ensures(ErasedSender::max_item_size, (&limited,), r.0),
        call_ensures(ErasedSender::are_global_credits_allowed, (&credited,), r.1),
        call_ensures(ErasedSender::max_item_size, (&new,), r.2),
        call_ensures(ErasedSender::is_closed, (&new,), told.0),
        call_ensures(ErasedSender::storage, (&new,), told.1),
        call_ensures(ErasedSender::is_all_received_supported, (&new,), told.2),
        call_ensures(ErasedSender::all_received, (&new,), told.3),
    ensures
        inner == sender,
        r.0 == limit && limited == (ErasedSender { max_item_size: limit, ..before }),
        r.1 == allowed,
        credited == (ErasedSender {
            sender: RawSender { global_credits_allowed: allowed, ..before.sender },
            ..before
        }),
        r.2 == 16 * 1024 * 1024,
        new.big_data == 0 && new.last_size == 0,
        told.0 == sender.closed,
        told.1 == sender.storage,
        told.2 == sender.all_received_supported,
        told.3.up_to == sender.sent,
{
}

/// Sending a value in pieces succeeds exactly if all of it stays within the limit and no piece
/// failed; where it exceeds the limit, pieces that come after that are not sent and cannot fail.
pub proof fn law_sending_in_pieces(
    tx: ErasedSender,
    chunks: Vec<usize>,
    r: Result<(), StreamError>,
    failure: (usize, chmux::SendError),
    failed: Result<(), StreamError>,
)
    requires
        chunks_size(chunks@, chunks@.len() as int) <= usize::MAX,
        call_ensures(
            ErasedSender::send_chunks,
            (&tx, &chunks, None::<(usize, chmux::SendError)>),
            r,
        ),
        call_ensures(ErasedSender::send_chunks, (&tx, &chunks, Some(failure)), failed),
    ensures
        r is Ok <==> chunks_size(chunks@, chunks@.len() as int) <= tx.max_item_size,
        r is Err ==> r == Err::<(), StreamError>(StreamError::MaxItemSizeExceeded),
        failure.0 >= chunks@.len() ==> failed == r,
        failure.0 < chunks@.len() ==> (failed == Err::<(), StreamError>(
            StreamError::MaxItemSizeExceeded,
        ) <==> chunks_size(chunks@, failure.0 + 1) > tx.max_item_size),
        failure.0 < chunks@.len() && chunks_size(chunks@, failure.0 + 1) <= tx.max_item_size
            ==> failed == Err::<(), StreamError>(StreamError::Send(failure.1)),
{
    let limit = tx.max_item_size;
    if chunks_size(chunks@, chunks@.len() as int) > limit {
        let k = lemma_first_excess(chunks@, limit, chunks@.len() as int);
    }
    if failure.0 < chunks@.len() && chunks_size(chunks@, failure.0 + 1) > limit {
        let k = lemma_first_excess(chunks@, limit, failure.0 + 1);
        if k > failure.0 {
            assert(chunks_size(chunks@, failure.0 + 1) <= limit);
        }
    }
    assert forall|k: int| #[trigger] exceeds_at(chunks@, limit, k) implies chunks_size(
        chunks@,
        chunks@.len() as int,
    ) > limit && (k <= failure.0 && failure.0 < chunks@.len() ==> chunks_size(
        chunks@,
        failure.0 + 1,
    ) > limit) by {
        lemma_chunks_size_monotonic(chunks@, k + 1, chunks@.len() as int);
        if k <= failure.0 && failure.0 < chunks@.len() {
            lemma_chunks_size_monotonic(chunks@, k + 1, failure.0 + 1);
        }
    }
}

/// An error of sending keeps why sending failed and the value, and a copy of the reason is the
/// same.
pub proof fn law_error_keeps_the_value<T>(
    kind: SendErrorKind,
    item: T,
    r: SendError<T>,
    copied: SendErrorKind,
)
    requires
        call_ensures(SendError::<T>::new, (kind, item), r),
        call_ensures(<SendErrorKind as Clone>::clone, (&kind,), copied),
    ensures
        r.kind == kind && r.item == item,
        copied == kind,
{
}

/// How much is remembered of the sizes of values, how many pieces of a value wait to be sent, and
/// the bounds of the buffer for encoding.
pub proof fn law_numbers_of_sending()
    ensures
        BIG_DATA_LIMIT == 16,
        BIG_DATA_CHUNK_QUEUE == 32,
        MIN_ENCODE_BUFFER == 512,
        MAX_ENCODE_BUFFER == 8192,
{
}

/// What is said of an error is said of why sending failed; the value is of no account, and
/// leaving it out keeps the reason.
pub proof fn law_class_of_send_error<T>(
    err: SendError<T>,
    kind: (bool, bool, bool),
    r: (bool, bool, bool),
    by_trait: (bool, bool, bool),
    without: SendError<()>,
)
    requires
        call_ensures(SendErrorKind::is_closed, (&err.kind,), kind.0),
        call_ensures(SendErrorKind::is_disconnected, (&err.kind,), kind.1),
        call_ensures(SendErrorKind::is_item_specific, (&err.kind,), kind.2),
        call_ensures(SendError::<T>::is_closed, (&err,), r.0),
        call_ensures(SendError::<T>::is_disconnected, (&err,), r.1),
        call_ensures(SendError::<T>::is_item_specific, (&err,), r.2),
        call_ensures(<SendError<T> as SendErrorExt>::is_closed, (&err,), by_trait.0),
        call_ensures(<SendError<T> as SendErrorExt>::is_disconnected, (&err,), by_trait.1),
        call_ensures(<SendError<T> as SendErrorExt>::is_item_specific, (&err,), by_trait.2),
        call_ensures(SendError::<T>::without_item, (err,), without),
    ensures
        r == kind,
        by_trait == r,
        without.kind == err.kind,
{
}

/// A value that does not fit into the buffer leaves the size that is remembered, one that fits
/// sets it, and one that cannot be encoded leaves everything. Nothing else changes.
pub proof fn law_remembered_size(
    before: ErasedSender,
    serialized: Serialized,
    after: ErasedSender,
    r: SendStep,
)
    requires
        before.wf(),
        serialized matches Serialized::Fits(len) ==> len * 110 <= usize::MAX,
        exists|state: &mut ErasedSender| #[trigger]
            call_ensures(ErasedSender::on_serialized, (state, serialized), r) && *state == before
                && *final(state) == after,
    ensures
        after.sender == before.sender && after.max_item_size == before.max_item_size,
        serialized matches Serialized::Fits(len) ==> after.last_size == len && (after.big_data
            == before.big_data - 1 || after.big_data == before.big_data && before.big_data == -16),
        serialized is Overflow ==> after.last_size == before.last_size && (after.big_data
            == before.big_data + 1 || after.big_data == before.big_data && before.big_data == 16),
        serialized is Failed ==> after == before,
{
}

} // verus!
