//! The sending half of the many-producer, single-consumer channel.

use vstd::prelude::*;
use crate::chmux;
use crate::rch::base;
use crate::rch::base::receiver::{after_requests, law_missing_ports};
use crate::rch::base::{PortDeserializer, PortSerializer};
use crate::rch::mpsc::{RecvError, SendReq};
use crate::rch::{
    closed_orderly, is_orderly, local_max_item_size, max_item_size_from_wire,
    max_item_size_to_wire, ClosedReason, RemoteSendError, SendErrorExt, SendingError,
    DEFAULT_MAX_ITEM_SIZE,
};
use crate::text::concat;

verus! {

/// An error returned when a value cannot be sent.
pub enum SendError<T> {
    /// The receiver was closed or dropped; holds the value.
    Closed(T),
    /// Sending to the remote endpoint failed.
    Send(base::SendErrorKind),
    /// Opening the channel failed.
    Connect(chmux::ConnectError),
    /// Accepting the channel failed.
    Listen(chmux::ListenerError),
    /// An endpoint forwarding the channel failed to send.
    Forward,
}

impl<T> SendError<T> {
    /// The reason for which the channel is closed, if the error closed it.
    pub open spec fn reason(self) -> Option<ClosedReason> {
        match self {
            SendError::Closed(_) => Some(ClosedReason::Closed),
            SendError::Send(err) => ClosedReason::of_send_error_kind(err),
            SendError::Connect(err) => Some(ClosedReason::of_connect_error(err)),
            SendError::Listen(_) | SendError::Forward => Some(ClosedReason::Failed),
        }
    }

    /// Whether no further value can be sent.
    pub open spec fn spec_is_disconnected(self) -> bool {
        self matches SendError::Send(err) ==> err.spec_is_disconnected()
    }

    /// Whether the value caused the error.
    pub open spec fn spec_is_item_specific(self) -> bool {
        self matches SendError::Send(err) && err.spec_is_item_specific()
    }

    /// Returns whether the receiver was closed or dropped.
    pub fn is_closed(&self) -> (r: bool)
        ensures
            r == is_orderly(self.reason()),
    {
        closed_orderly(self.closed_reason())
    }

    /// Returns the reason for which the channel is closed.
    ///
    /// An error caused by the value does not close the channel.
    pub fn closed_reason(&self) -> (r: Option<ClosedReason>)
        ensures
            r == self.reason(),
    {
        match self {
            SendError::Closed(_) => Some(ClosedReason::Closed),
            SendError::Send(err) => ClosedReason::from_send_error_kind(err),
            SendError::Connect(err) => Some(ClosedReason::from_connect_error(err)),
            SendError::Listen(_) | SendError::Forward => Some(ClosedReason::Failed),
        }
    }

    /// Returns whether no further value can be sent.
    pub fn is_disconnected(&self) -> (r: bool)
        ensures
            r == self.spec_is_disconnected(),
    {
        match self {
            SendError::Send(err) => err.is_disconnected(),
            SendError::Closed(_)
            | SendError::Connect(_)
            | SendError::Listen(_)
            | SendError::Forward => true,
        }
    }

    /// Returns whether the value caused the error.
    pub fn is_item_specific(&self) -> (r: bool)
        ensures
            r == self.spec_is_item_specific(),
    {
        match self {
            SendError::Send(err) => err.is_item_specific(),
            _ => false,
        }
    }

    /// Discards the unsent value.
    pub fn without_item(self) -> (r: SendError<()>)
        ensures
            r == (match self {
                SendError::Closed(_) => SendError::Closed(()),
                SendError::Send(err) => SendError::Send(err),
                SendError::Connect(err) => SendError::Connect(err),
                SendError::Listen(err) => SendError::Listen(err),
                SendError::Forward => SendError::Forward,
            }),
    {
        match self {
            SendError::Closed(_) => SendError::Closed(()),
            SendError::Send(err) => SendError::Send(err),
            SendError::Connect(err) => SendError::Connect(err),
            SendError::Listen(err) => SendError::Listen(err),
            SendError::Forward => SendError::Forward,
        }
    }

    /// The error that a published failure means for a value to be sent.
    pub open spec fn of_remote_send_error(err: RemoteSendError, value: T) -> SendError<T> {
        match err {
            RemoteSendError::Send(err) => SendError::Send(err),
            RemoteSendError::Connect(err) => SendError::Connect(err),
            RemoteSendError::Listen(err) => SendError::Listen(err),
            RemoteSendError::Forward => SendError::Forward,
            RemoteSendError::Closed => SendError::Closed(value),
        }
    }

    /// Returns the error that a published failure means for a value to be sent.
    pub fn from_remote_send_error(err: RemoteSendError, value: T) -> (r: Self)
        ensures
            r == SendError::of_remote_send_error(err, value),
    {
        match err {
            RemoteSendError::Send(err) => SendError::Send(err),
            RemoteSendError::Connect(err) => SendError::Connect(err),
            RemoteSendError::Listen(err) => SendError::Listen(err),
            RemoteSendError::Forward => SendError::Forward,
            RemoteSendError::Closed => SendError::Closed(value),
        }
    }

    /// The message shown to users.
    pub open spec fn text(self) -> Seq<char> {
        match self {
            SendError::Closed(_) => "channel is closed"@,
            SendError::Send(err) => "send error: "@ + err.text(),
            SendError::Connect(err) => "connect error: "@ + err.text(),
            SendError::Listen(err) => "listen error: "@ + err.text(),
            SendError::Forward => "forwarding error"@,
        }
    }

    /// Returns the message shown to users.
    pub fn message(&self) -> (r: String)
        ensures
            r@ == self.text(),
    {
        match self {
            SendError::Closed(_) => String::from_str("channel is closed"),
            SendError::Send(err) => concat("send error: ", err.message().as_str()),
            SendError::Connect(err) => concat("connect error: ", err.message().as_str()),
            SendError::Listen(err) => concat("listen error: ", err.message().as_str()),
            SendError::Forward => String::from_str("forwarding error"),
        }
    }
}

impl<T> SendErrorExt for SendError<T> {
    open spec fn closed(&self) -> bool {
        is_orderly(self.reason())
    }

    open spec fn disconnected(&self) -> bool {
        self.spec_is_disconnected()
    }

    open spec fn item_specific(&self) -> bool {
        self.spec_is_item_specific()
    }

    fn is_closed(&self) -> (r: bool) {
        SendError::is_closed(self)
    }

    fn is_disconnected(&self) -> (r: bool) {
        SendError::is_disconnected(self)
    }

    fn is_item_specific(&self) -> (r: bool) {
        SendError::is_item_specific(self)
    }
}

/// An error returned when a value cannot be sent without waiting.
pub enum TrySendError<T> {
    /// The receiver was closed or dropped; holds the value.
    Closed(T),
    /// The queue is full; holds the value.
    Full(T),
    /// Sending to the remote endpoint failed.
    Send(base::SendErrorKind),
    /// Opening the channel failed.
    Connect(chmux::ConnectError),
    /// Accepting the channel failed.
    Listen(chmux::ListenerError),
    /// An endpoint forwarding the channel failed to send.
    Forward,
}

impl<T> TrySendError<T> {
    /// The reason for which the channel is closed, if the error closed it.
    pub open spec fn reason(self) -> Option<ClosedReason> {
        match self {
            TrySendError::Full(_) => None,
            TrySendError::Closed(_) => Some(ClosedReason::Closed),
            TrySendError::Send(err) => ClosedReason::of_send_error_kind(err),
            TrySendError::Connect(err) => Some(ClosedReason::of_connect_error(err)),
            TrySendError::Listen(_) | TrySendError::Forward => Some(ClosedReason::Failed),
        }
    }

    /// Whether no further value can be sent.
    pub open spec fn spec_is_disconnected(self) -> bool {
        match self {
            TrySendError::Full(_) => false,
            TrySendError::Send(err) => err.spec_is_disconnected(),
            _ => true,
        }
    }

    /// Whether the value caused the error.
    pub open spec fn spec_is_item_specific(self) -> bool {
        self matches TrySendError::Send(err) && err.spec_is_item_specific()
    }

    /// Returns whether the receiver was closed or dropped.
    pub fn is_closed(&self) -> (r: bool)
        ensures
            r == is_orderly(self.reason()),
    {
        closed_orderly(self.closed_reason())
    }

    /// Returns the reason for which the channel is closed.
    ///
    /// A full queue and an error caused by the value do not close the channel.
    pub fn closed_reason(&self) -> (r: Option<ClosedReason>)
        ensures
            r == self.reason(),
    {
        match self {
            TrySendError::Full(_) => None,
            TrySendError::Closed(_) => Some(ClosedReason::Closed),
            TrySendError::Send(err) => ClosedReason::from_send_error_kind(err),
            TrySendError::Connect(err) => Some(ClosedReason::from_connect_error(err)),
            TrySendError::Listen(_) | TrySendError::Forward => Some(ClosedReason::Failed),
        }
    }

    /// Returns whether no further value can be sent.
    pub fn is_disconnected(&self) -> (r: bool)
        ensures
            r == self.spec_is_disconnected(),
    {
        match self {
            TrySendError::Send(err) => err.is_disconnected(),
            TrySendError::Closed(_)
            | TrySendError::Connect(_)
            | TrySendError::Listen(_)
            | TrySendError::Forward => true,
            TrySendError::Full(_) => false,
        }
    }

    /// Returns whether the value caused the error.
    pub fn is_item_specific(&self) -> (r: bool)
        ensures
            r == self.spec_is_item_specific(),
    {
        match self {
            TrySendError::Send(err) => err.is_item_specific(),
            _ => false,
        }
    }

    /// The error that a published failure means for a value to be sent.
    pub open spec fn of_remote_send_error(err: RemoteSendError, value: T) -> TrySendError<T> {
        match err {
            RemoteSendError::Send(err) => TrySendError::Send(err),
            RemoteSendError::Connect(err) => TrySendError::Connect(err),
            RemoteSendError::Listen(err) => TrySendError::Listen(err),
            RemoteSendError::Forward => TrySendError::Forward,
            RemoteSendError::Closed => TrySendError::Closed(value),
        }
    }

    /// Returns the error that a published failure means for a value to be sent.
    pub fn from_remote_send_error(err: RemoteSendError, value: T) -> (r: Self)
        ensures
            r == TrySendError::of_remote_send_error(err, value),
    {
        match err {
            RemoteSendError::Send(err) => TrySendError::Send(err),
            RemoteSendError::Connect(err) => TrySendError::Connect(err),
            RemoteSendError::Listen(err) => TrySendError::Listen(err),
            RemoteSendError::Forward => TrySendError::Forward,
            RemoteSendError::Closed => TrySendError::Closed(value),
        }
    }

    /// The message shown to users.
    pub open spec fn text(self) -> Seq<char> {
        match self {
            TrySendError::Closed(_) => "channel is closed"@,
            TrySendError::Full(_) => "channel is full"@,
            TrySendError::Send(err) => "send error: "@ + err.text(),
            TrySendError::Connect(err) => "connect error: "@ + err.text(),
            TrySendError::Listen(err) => "listen error: "@ + err.text(),
            TrySendError::Forward => "forwarding error"@,
        }
    }

    /// Returns the message shown to users.
    pub fn message(&self) -> (r: String)
        ensures
            r@ == self.text(),
    {
        match self {
            TrySendError::Closed(_) => String::from_str("channel is closed"),
            TrySendError::Full(_) => String::from_str("channel is full"),
            TrySendError::Send(err) => concat("send error: ", err.message().as_str()),
            TrySendError::Connect(err) => concat("connect error: ", err.message().as_str()),
            TrySendError::Listen(err) => concat("listen error: ", err.message().as_str()),
            TrySendError::Forward => String::from_str("forwarding error"),
        }
    }
}

impl<T> SendErrorExt for TrySendError<T> {
    open spec fn closed(&self) -> bool {
        is_orderly(self.reason())
    }

    open spec fn disconnected(&self) -> bool {
        self.spec_is_disconnected()
    }

    open spec fn item_specific(&self) -> bool {
        self.spec_is_item_specific()
    }

    fn is_closed(&self) -> (r: bool) {
        TrySendError::is_closed(self)
    }

    fn is_disconnected(&self) -> (r: bool) {
        TrySendError::is_disconnected(self)
    }

    fn is_item_specific(&self) -> (r: bool) {
        TrySendError::is_item_specific(self)
    }
}

impl<T> From<SendError<T>> for TrySendError<T> {
    fn from(err: SendError<T>) -> (r: Self) {
        match err {
            SendError::Closed(v) => TrySendError::Closed(v),
            SendError::Send(err) => TrySendError::Send(err),
            SendError::Connect(err) => TrySendError::Connect(err),
            SendError::Listen(err) => TrySendError::Listen(err),
            SendError::Forward => TrySendError::Forward,
        }
    }
}

impl<T> vstd::std_specs::convert::FromSpecImpl<SendError<T>> for TrySendError<T> {
    open spec fn obeys_from_spec() -> bool {
        true
    }

    open spec fn from_spec(err: SendError<T>) -> TrySendError<T> {
        match err {
            SendError::Closed(v) => TrySendError::Closed(v),
            SendError::Send(err) => TrySendError::Send(err),
            SendError::Connect(err) => TrySendError::Connect(err),
            SendError::Listen(err) => TrySendError::Listen(err),
            SendError::Forward => TrySendError::Forward,
        }
    }
}

impl<T> TryFrom<TrySendError<T>> for SendError<T> {
    type Error = TrySendError<T>;

    fn try_from(err: TrySendError<T>) -> (r: Result<Self, TrySendError<T>>) {
        match err {
            TrySendError::Closed(v) => Ok(SendError::Closed(v)),
            TrySendError::Send(err) => Ok(SendError::Send(err)),
            TrySendError::Connect(err) => Ok(SendError::Connect(err)),
            TrySendError::Forward => Ok(SendError::Forward),
            other => Err(other),
        }
    }
}

impl<T> vstd::std_specs::convert::TryFromSpecImpl<TrySendError<T>> for SendError<T> {
    open spec fn obeys_try_from_spec() -> bool {
        true
    }

    open spec fn try_from_spec(err: TrySendError<T>) -> Result<SendError<T>, TrySendError<T>> {
        match err {
            TrySendError::Closed(v) => Ok(SendError::Closed(v)),
            TrySendError::Send(err) => Ok(SendError::Send(err)),
            TrySendError::Connect(err) => Ok(SendError::Connect(err)),
            TrySendError::Forward => Ok(SendError::Forward),
            TrySendError::Full(v) => Err(TrySendError::Full(v)),
            TrySendError::Listen(err) => Err(TrySendError::Listen(err)),
        }
    }
}

/// What the local queue answers when it is asked to take a value.
#[derive(Clone, Copy, Debug, PartialEq, Eq, Structural)]
pub enum Queued {
    /// It takes the value.
    Queued,
    /// The queue is full.
    Full,
    /// The queue is closed.
    Closed,
}

/// The sending half of a channel.
pub struct Sender {
    /// Number of further values that the local queue takes, unless it has been closed.
    pub queue: Option<usize>,
    /// The published reason for which the channel is closed.
    pub closed: Option<ClosedReason>,
    /// The published failure to send.
    pub remote_send_err: Option<RemoteSendError>,
    /// Largest value that may be sent.
    pub max_item_size: usize,
    /// Number of additional parallel channels.
    pub parallel: Option<usize>,
}

/// A sender on its way to another endpoint.
pub struct TransportedSender {
    /// Port number; `None` if the channel is closed.
    pub port: Option<u32>,
    /// Largest value that may be sent.
    pub max_item_size: u64,
    /// Additional port numbers for parallel operation.
    pub parallel: Vec<u32>,
}

/// The ports that could be allocated, in order.
pub open spec fn allocated_ports(allocated: Seq<Result<u32, String>>) -> Seq<u32>
    decreases allocated.len(),
{
    if allocated.len() == 0 {
        Seq::empty()
    } else {
        let init = allocated_ports(allocated.drop_last());
        match allocated.last() {
            Ok(port) => init.push(port),
            Err(_) => init,
        }
    }
}

/// The connection requests for the ports that could be allocated, in order.
pub open spec fn allocated_requests(
    allocated: Seq<Result<u32, String>>,
    callbacks: Seq<u64>,
) -> Seq<(u32, u64)>
    decreases allocated.len(),
{
    if allocated.len() == 0 {
        Seq::empty()
    } else {
        let init = allocated_requests(allocated.drop_last(), callbacks);
        match allocated.last() {
            Ok(port) => init.push((port, callbacks[allocated.len() - 1])),
            Err(_) => init,
        }
    }
}

/// Requests a connection for each additional port that could be allocated.
///
/// A port that could not be allocated is left out.
pub fn connect_parallel(
    ports: &mut PortSerializer,
    allocated: Vec<Result<u32, String>>,
    callbacks: &Vec<u64>,
) -> (parallel: Vec<u32>)
    requires
        allocated@.len() <= callbacks@.len(),
    ensures
        parallel@ == allocated_ports(allocated@),
        final(ports).requests@ == old(ports).requests@ + allocated_requests(
            allocated@,
            callbacks@,
        ),
        final(ports).tasks@ == old(ports).tasks@,
{
    let mut parallel: Vec<u32> = Vec::new();
    let mut i: usize = 0;
    assert(old(ports).requests@ + Seq::<(u32, u64)>::empty() =~= old(ports).requests@);
    while i < allocated.len()
        invariant
            i <= allocated@.len(),
            allocated@.len() <= callbacks@.len(),
            parallel@ == allocated_ports(allocated@.take(i as int)),
            ports.requests@ == old(ports).requests@ + allocated_requests(
                allocated@.take(i as int),
                callbacks@,
            ),
            ports.tasks@ == old(ports).tasks@,
        decreases allocated@.len() - i,
    {
        assert(allocated@.take(i + 1).drop_last() =~= allocated@.take(i as int));
        assert(allocated@.take(i + 1).last() == allocated@[i as int]);
        if let Ok(port) = &allocated[i] {
            ports.connect(*port, callbacks[i]);
            parallel.push(*port);
            assert(ports.requests@ =~= old(ports).requests@ + allocated_requests(
                allocated@.take(i + 1),
                callbacks@,
            ));
        }
        i = i + 1;
    }
    assert(allocated@.take(i as int) =~= allocated@);
    parallel
}

/// The expected ports after accepting `ports` in order.
pub open spec fn accepted_ports(
    expected: Map<u32, u64>,
    ports: Seq<u32>,
    callbacks: Seq<u64>,
) -> Map<u32, u64>
    decreases ports.len(),
{
    if ports.len() == 0 {
        expected
    } else {
        accepted_ports(expected, ports.drop_last(), callbacks).insert(
            ports.last(),
            callbacks[ports.len() - 1],
        )
    }
}

/// Expects each additional port of a received channel half.
pub fn accept_parallel(ports: &mut PortDeserializer, parallel: &Vec<u32>, callbacks: &Vec<u64>)
    requires
        parallel@.len() <= callbacks@.len(),
    ensures
        final(ports).expected@ == accepted_ports(old(ports).expected@, parallel@, callbacks@),
        final(ports).tasks@ == old(ports).tasks@,
{
    let mut i: usize = 0;
    while i < parallel.len()
        invariant
            i <= parallel@.len(),
            parallel@.len() <= callbacks@.len(),
            ports.expected@ == accepted_ports(
                old(ports).expected@,
                parallel@.take(i as int),
                callbacks@,
            ),
            ports.tasks@ == old(ports).tasks@,
        decreases parallel@.len() - i,
    {
        assert(parallel@.take(i + 1).drop_last() =~= parallel@.take(i as int));
        assert(parallel@.take(i + 1).last() == parallel@[i as int]);
        ports.accept(parallel[i], callbacks[i]);
        i = i + 1;
    }
    assert(parallel@.take(i as int) =~= parallel@);
}

/// The channels that were established, in order.
pub open spec fn established(parallel: Seq<Option<u64>>) -> Seq<u64>
    decreases parallel.len(),
{
    if parallel.len() == 0 {
        Seq::empty()
    } else {
        let init = established(parallel.drop_last());
        match parallel.last() {
            Some(channel) => init.push(channel),
            None => init,
        }
    }
}

/// Returns the channels to use: the base channel and the parallel ones that were established.
pub fn establish(base: u64, parallel: &Vec<Option<u64>>) -> (r: Vec<u64>)
    ensures
        r@ == seq![base] + established(parallel@),
        r@.len() > 0,
{
    let mut channels: Vec<u64> = Vec::new();
    channels.push(base);
    let mut i: usize = 0;
    assert(channels@ =~= seq![base] + Seq::<u64>::empty());
    while i < parallel.len()
        invariant
            i <= parallel@.len(),
            channels@ == seq![base] + established(parallel@.take(i as int)),
        decreases parallel@.len() - i,
    {
        assert(parallel@.take(i + 1).drop_last() =~= parallel@.take(i as int));
        assert(parallel@.take(i + 1).last() == parallel@[i as int]);
        if let Some(channel) = parallel[i] {
            channels.push(channel);
            assert(channels@ =~= seq![base] + established(parallel@.take(i + 1)));
        }
        i = i + 1;
    }
    assert(parallel@.take(i as int) =~= parallel@);
    channels
}

/// Whether the local queue is to be given up, seen from the task that keeps it.
#[derive(Clone, Copy, Debug, PartialEq, Eq, Structural)]
pub enum KeepEvent {
    /// All senders have been dropped.
    Dropped,
    /// The reason for which the channel is closed changed.
    Closed(Option<ClosedReason>),
    /// The receiver is gone.
    ReceiverGone,
}

/// Returns whether to give up the local queue.
pub fn drop_when_closed(event: KeepEvent) -> (r: bool)
    ensures
        r == (event != KeepEvent::Closed(None)),
{
    match event {
        KeepEvent::Dropped => true,
        KeepEvent::Closed(reason) => reason.is_some(),
        KeepEvent::ReceiverGone => true,
    }
}

impl Sender {
    /// Creates a sender whose queue takes `capacity` values.
    pub fn new(capacity: usize, parallel: Option<usize>) -> (r: Self)
        ensures
            r == (Sender {
                queue: Some(capacity),
                closed: None,
                remote_send_err: None,
                max_item_size: DEFAULT_MAX_ITEM_SIZE,
                parallel,
            }),
    {
        Sender {
            queue: Some(capacity),
            closed: None,
            remote_send_err: None,
            max_item_size: DEFAULT_MAX_ITEM_SIZE,
            parallel,
        }
    }

    /// Creates a sender of a closed channel.
    pub fn new_closed() -> (r: Self)
        ensures
            r == (Sender {
                queue: None,
                closed: Some(ClosedReason::Closed),
                remote_send_err: None,
                max_item_size: DEFAULT_MAX_ITEM_SIZE,
                parallel: None,
            }),
    {
        Sender {
            queue: None,
            closed: Some(ClosedReason::Closed),
            remote_send_err: None,
            max_item_size: DEFAULT_MAX_ITEM_SIZE,
            parallel: None,
        }
    }

    /// The value to put into the queue, given whether there is room for it, or why it is not
    /// sent.
    pub open spec fn send_result<T>(self, value: T, granted: bool) -> Result<T, SendError<T>> {
        match self.remote_send_err {
            Some(err) => Err(SendError::of_remote_send_error(err, value)),
            None => if self.queue is Some && self.closed is None && granted {
                Ok(value)
            } else {
                Err(SendError::Closed(value))
            },
        }
    }

    /// Sends a value, given whether the queue, after waiting for room, granted it.
    ///
    /// Returns the value to put into the queue. A published failure is reported, and nothing is
    /// sent once the channel has been closed.
    pub fn send<T>(&self, value: T, granted: bool) -> (r: Result<T, SendError<T>>)
        ensures
            r == self.send_result(value, granted),
    {
        if let Some(err) = &self.remote_send_err {
            return Err(SendError::from_remote_send_error(err.clone(), value));
        }
        if self.queue.is_some() && self.closed.is_none() && granted {
            Ok(value)
        } else {
            Err(SendError::Closed(value))
        }
    }

    /// The value to put into the queue without waiting, given its answer, or why it is not sent.
    pub open spec fn try_send_result<T>(self, value: T, queued: Queued) -> Result<
        T,
        TrySendError<T>,
    > {
        match self.remote_send_err {
            Some(err) => Err(TrySendError::of_remote_send_error(err, value)),
            None => if self.queue is None || self.closed is Some || queued is Closed {
                Err(TrySendError::Closed(value))
            } else if queued is Full {
                Err(TrySendError::Full(value))
            } else {
                Ok(value)
            },
        }
    }

    /// Sends a value without waiting, given the answer of the queue.
    ///
    /// Returns the value to put into the queue. A published failure is reported, and nothing is
    /// sent once the channel has been closed.
    pub fn try_send<T>(&self, value: T, queued: Queued) -> (r: Result<T, TrySendError<T>>)
        ensures
            r == self.try_send_result(value, queued),
    {
        if let Some(err) = &self.remote_send_err {
            return Err(TrySendError::from_remote_send_error(err.clone(), value));
        }
        if self.queue.is_none() || self.closed.is_some() {
            return Err(TrySendError::Closed(value));
        }
        match queued {
            Queued::Queued => Ok(value),
            Queued::Full => Err(TrySendError::Full(value)),
            Queued::Closed => Err(TrySendError::Closed(value)),
        }
    }

    /// Makes room for a value, given whether the queue granted it.
    pub fn reserve(&self, granted: bool) -> (r: Result<(), SendError<()>>)
        ensures
            r == self.send_result((), granted),
    {
        self.send((), granted)
    }

    /// Makes room for a value without waiting, given what the queue answered.
    pub fn try_reserve(&self, granted: Queued) -> (r: Result<(), TrySendError<()>>)
        ensures
            r == self.try_send_result((), granted),
    {
        self.try_send((), granted)
    }

    /// How many values the queue takes.
    pub open spec fn spec_capacity(self) -> usize {
        match self.queue {
            Some(capacity) if self.spec_closed_reason() is None => capacity,
            _ => 0,
        }
    }

    /// Returns how many values the queue takes.
    ///
    /// This is zero once the channel has been closed or an error has occurred.
    pub fn capacity(&self) -> (r: usize)
        ensures
            r == self.spec_capacity(),
    {
        if self.is_closed() {
            return 0;
        }
        match self.queue {
            Some(capacity) => capacity,
            None => 0,
        }
    }

    /// The reason for which the channel is closed.
    pub open spec fn spec_closed_reason(self) -> Option<ClosedReason> {
        match (self.closed, self.remote_send_err) {
            (Some(reason), _) => Some(reason),
            (None, Some(err)) => Some(err.reason()),
            (None, None) => None,
        }
    }

    /// Returns the reason for which the channel is closed, if it is.
    pub fn closed_reason(&self) -> (r: Option<ClosedReason>)
        ensures
            r == self.spec_closed_reason(),
    {
        match self.closed {
            Some(reason) => Some(reason),
            None => match &self.remote_send_err {
                Some(err) => Some(err.closed_reason()),
                None => None,
            },
        }
    }

    /// Returns whether the channel is closed.
    pub fn is_closed(&self) -> (r: bool)
        ensures
            r == (self.closed is Some || self.remote_send_err is Some),
    {
        self.closed_reason().is_some()
    }

    /// Returns the maximum size of a value.
    pub fn max_item_size(&self) -> (r: usize)
        ensures
            r == self.max_item_size,
    {
        self.max_item_size
    }

    /// Sets the maximum size of a value.
    pub fn set_max_item_size(&mut self, max_item_size: usize)
        ensures
            *final(self) == (Sender { max_item_size, ..*old(self) }),
    {
        self.max_item_size = max_item_size;
    }

    /// Returns the number of additional parallel channels.
    pub fn parallel(&self) -> (r: Option<usize>)
        ensures
            r == self.parallel,
    {
        self.parallel
    }

    /// Sets the number of additional parallel channels.
    pub fn set_parallel(&mut self, parallel: Option<usize>)
        ensures
            *final(self) == (Sender { parallel, ..*old(self) }),
    {
        self.parallel = parallel;
    }

    /// The number of additional ports to allocate when this is sent.
    pub open spec fn spec_parallel_ports(self, mpsc_parallel: usize) -> usize {
        if self.queue is None {
            0
        } else {
            match self.parallel {
                Some(parallel) => parallel,
                None => mpsc_parallel,
            }
        }
    }

    /// Returns the number of additional ports to allocate when this is sent.
    pub fn parallel_ports(&self, mpsc_parallel: usize) -> (r: usize)
        ensures
            r == self.spec_parallel_ports(mpsc_parallel),
    {
        if self.queue.is_none() {
            return 0;
        }
        match self.parallel {
            Some(parallel) => parallel,
            None => mpsc_parallel,
        }
    }

    /// Sends this to another endpoint.
    ///
    /// `allocated` holds what came of allocating the additional ports and `main`
    /// what came of allocating the port that carries the channel. Only the latter
    /// is indispensable. A closed channel needs no port.
    pub fn serialize(
        &self,
        ports: &mut PortSerializer,
        allocated: Vec<Result<u32, String>>,
        callbacks: &Vec<u64>,
        main: Result<u32, String>,
        main_callback: u64,
    ) -> (r: Result<TransportedSender, String>)
        requires
            allocated@.len() <= callbacks@.len(),
            self.queue is None ==> allocated@.len() == 0,
        ensures
            self.queue is None ==> {
                &&& r matches Ok(t) && t.port is None && t.parallel@.len() == 0
                    && t.max_item_size as nat == self.max_item_size as nat
                &&& final(ports).requests@ == old(ports).requests@
            },
            self.queue is Some ==> match main {
                Ok(port) => {
                    &&& r matches Ok(t) && t.port == Some(port) && t.parallel@ == allocated_ports(
                        allocated@,
                    ) && t.max_item_size as nat == self.max_item_size as nat
                    &&& final(ports).requests@ == (old(ports).requests@ + allocated_requests(
                        allocated@,
                        callbacks@,
                    )).push((port, main_callback))
                },
                Err(err) => {
                    &&& r == Err::<TransportedSender, String>(err)
                    &&& final(ports).requests@ == old(ports).requests@ + allocated_requests(
                        allocated@,
                        callbacks@,
                    )
                },
            },
            final(ports).tasks@ == old(ports).tasks@,
    {
        let max_item_size: u64 = max_item_size_to_wire(self.max_item_size);
        if self.queue.is_none() {
            return Ok(TransportedSender { port: None, max_item_size, parallel: Vec::new() });
        }
        let parallel = connect_parallel(ports, allocated, callbacks);
        match ports.connect_port(main, main_callback) {
            Ok(port) => Ok(TransportedSender { port: Some(port), max_item_size, parallel }),
            Err(err) => Err(err),
        }
    }

    /// Receives this from another endpoint.
    ///
    /// Returns the sender and the maximum item size for the task that sends its
    /// values. The queue takes `buffer` values.
    pub fn deserialize(
        transported: TransportedSender,
        ports: &mut PortDeserializer,
        buffer: usize,
        callbacks: &Vec<u64>,
        main_callback: u64,
    ) -> (r: (Sender, Option<usize>))
        requires
            buffer > 0,
            transported.parallel@.len() <= callbacks@.len(),
        ensures
            match transported.port {
                None => {
                    &&& r.1 is None
                    &&& r.0 == (Sender {
                        queue: None,
                        closed: Some(ClosedReason::Closed),
                        remote_send_err: None,
                        max_item_size: DEFAULT_MAX_ITEM_SIZE,
                        parallel: None,
                    })
                    &&& final(ports).expected@ == old(ports).expected@
                },
                Some(port) => {
                    &&& r.1 == Some(local_max_item_size(transported.max_item_size))
                    &&& r.0 == (Sender {
                        queue: Some(buffer),
                        closed: None,
                        remote_send_err: None,
                        max_item_size: DEFAULT_MAX_ITEM_SIZE,
                        parallel: Some(transported.parallel@.len() as usize),
                    })
                    &&& final(ports).expected@ == accepted_ports(
                        old(ports).expected@,
                        transported.parallel@,
                        callbacks@,
                    ).insert(port, main_callback)
                },
            },
            final(ports).tasks@ == old(ports).tasks@,
    {
        let max_item_size: usize = max_item_size_from_wire(transported.max_item_size);
        match transported.port {
            None => (Sender::new_closed(), None),
            Some(port) => {
                accept_parallel(ports, &transported.parallel, callbacks);
                let parallel: usize = transported.parallel.len();
                ports.accept(port, main_callback);
                (Sender::new(buffer, Some(parallel)), Some(max_item_size))
            },
        }
    }

    /// What to put into the queue when connecting a sender that was sent failed.
    ///
    /// The receiver reports it; nobody awaits the result.
    pub fn on_connect_failed<T>(err: chmux::ConnectError) -> (r: SendReq<T>)
        ensures
            r == (SendReq { value: Err::<T, RecvError>(RecvError::Connect(err)), result_tx: None }),
    {
        SendReq::new(Err(RecvError::Connect(err)))
    }

    /// What to publish as the failure of sending when accepting the channel of a sender failed.
    pub fn on_accept_failed(err: chmux::ListenerError) -> (r: RemoteSendError)
        ensures
            r == RemoteSendError::Listen(err),
    {
        RemoteSendError::Listen(err)
    }
}

impl Clone for Sender {
    fn clone(&self) -> (r: Self)
        ensures
            r == *self,
    {
        let remote_send_err = match &self.remote_send_err {
            Some(err) => Some(err.clone()),
            None => None,
        };
        Sender {
            queue: self.queue,
            closed: self.closed,
            remote_send_err,
            max_item_size: self.max_item_size,
            parallel: self.parallel,
        }
    }
}

/// Feeds values into a channel one by one.
///
/// Room is made ahead of each value. `None` results of the polling methods mean
/// that the caller has to wait.
pub struct SenderSink {
    /// Whether the sink has not been closed.
    pub open: bool,
    /// Whether there is room for a value.
    pub permit: bool,
    /// Whether a value is being transmitted.
    pub sending: bool,
}

impl SenderSink {
    /// Creates a sink for a sender.
    pub fn new() -> (r: Self)
        ensures
            r == (SenderSink { open: true, permit: false, sending: false }),
    {
        SenderSink { open: true, permit: false, sending: false }
    }

    /// Creates a closed sink.
    pub fn new_closed() -> (r: Self)
        ensures
            r == (SenderSink { open: false, permit: false, sending: false }),
    {
        SenderSink { open: false, permit: false, sending: false }
    }

    /// Makes room for a value, given how far the reservation has come.
    pub fn poll_ready(&mut self, reserve: Option<Result<(), SendError<()>>>) -> (r: Option<
        Result<(), SendError<()>>,
    >)
        ensures
            r == (if old(self).permit {
                Some(Ok::<(), SendError<()>>(()))
            } else if !old(self).open {
                Some(Err(SendError::Closed(())))
            } else {
                reserve
            }),
            final(self).permit == (r matches Some(res) && res is Ok),
            final(self).open == old(self).open,
            final(self).sending == old(self).sending,
    {
        if self.permit {
            return Some(Ok(()));
        }
        if !self.open {
            return Some(Err(SendError::Closed(())));
        }
        match reserve {
            None => None,
            Some(Ok(granted)) => {
                self.permit = true;
                Some(Ok(granted))
            },
            Some(Err(err)) => Some(Err(err)),
        }
    }

    /// Uses the room for a value, which is then being transmitted.
    pub fn start_send(&mut self)
        requires
            old(self).permit,
        ensures
            *final(self) == (SenderSink { permit: false, sending: true, ..*old(self) }),
    {
        self.permit = false;
        self.sending = true;
    }

    /// Waits for the value to be transmitted, given how far that has come.
    pub fn poll_flush<T>(&mut self, sending: Option<Result<(), SendingError<T>>>) -> (r: Option<
        Result<(), SendError<()>>,
    >)
        ensures
            r == (if !old(self).sending {
                Some(Ok::<(), SendError<()>>(()))
            } else {
                match sending {
                    None => None,
                    Some(Ok(())) => Some(Ok(())),
                    Some(Err(SendingError::Send(err))) => Some(Err(SendError::Send(err.kind))),
                    Some(Err(SendingError::Dropped)) => Some(Err(SendError::Closed(()))),
                }
            }),
            final(self).sending == (old(self).sending && sending is None),
            final(self).open == old(self).open,
            final(self).permit == old(self).permit,
    {
        if !self.sending {
            return Some(Ok(()));
        }
        match sending {
            None => None,
            Some(res) => {
                self.sending = false;
                match res {
                    Ok(()) => Some(Ok(())),
                    Err(SendingError::Send(err)) => Some(Err(SendError::Send(err.kind))),
                    Err(SendingError::Dropped) => Some(Err(SendError::Closed(()))),
                }
            },
        }
    }

    /// Closes the sink.
    pub fn poll_close(&mut self) -> (r: Option<Result<(), SendError<()>>>)
        ensures
            r == Some(Ok::<(), SendError<()>>(())),
            *final(self) == (SenderSink { open: false, permit: false, ..*old(self) }),
    {
        self.open = false;
        self.permit = false;
        Some(Ok(()))
    }
}

impl Clone for SenderSink {
    fn clone(&self) -> (r: Self)
        ensures
            r == (SenderSink { open: self.open, permit: false, sending: false }),
    {
        if self.open {
            SenderSink::new()
        } else {
            SenderSink::new_closed()
        }
    }
}

/// Once a failure has been published every send fails, and an error that is not caused by the
/// value makes the channel unusable.
pub proof fn law_published_failure_is_final<T>(sender: Sender, value: T, queued: bool, tried: Queued)
    requires
        sender.remote_send_err is Some,
    ensures
        sender.send_result(value, queued) is Err,
        sender.try_send_result(value, tried) is Err,
        sender.spec_closed_reason() is Some,
        sender.send_result(value, queued) matches Err(err) ==> (err.spec_is_item_specific()
            <==> !err.spec_is_disconnected()),
{
}

/// A value that is refused because the channel is closed or its queue is full is handed back,
/// and a value that is accepted is what goes into the queue.
pub proof fn law_refused_value_is_returned<T>(
    sender: Sender,
    value: T,
    granted: bool,
    tried: Queued,
)
    ensures
        sender.try_send_result(value, tried) matches Err(TrySendError::Full(v)) ==> v == value,
        sender.try_send_result(value, tried) matches Err(TrySendError::Closed(v)) ==> v == value,
        sender.try_send_result(value, tried) matches Ok(v) ==> v == value,
        sender.send_result(value, granted) matches Err(SendError::Closed(v)) ==> v == value,
        sender.send_result(value, granted) matches Ok(v) ==> v == value,
{
}

/// Once the channel has been closed every send fails, whatever the queue answers, and no room is
/// left. Unless a failure was published, the value is handed back.
pub proof fn law_closed_channel_takes_nothing<T>(
    sender: Sender,
    value: T,
    granted: bool,
    tried: Queued,
)
    requires
        sender.closed is Some,
    ensures
        sender.send_result(value, granted) is Err,
        sender.try_send_result(value, tried) is Err,
        sender.spec_capacity() == 0,
        sender.remote_send_err is None ==> {
            &&& sender.send_result(value, granted) == Err::<T, SendError<T>>(
                SendError::Closed(value),
            )
            &&& sender.try_send_result(value, tried) == Err::<T, TrySendError<T>>(
                TrySendError::Closed(value),
            )
        },
{
}

/// The errors of both ways of sending correspond, except that only sending without waiting
/// can find the queue full. Converting there and back gives the error again, unless it is that
/// accepting the channel failed.
pub proof fn law_send_errors_correspond<T>(err: SendError<T>)
    ensures
        ({
            let tried = <TrySendError<T> as vstd::std_specs::convert::FromSpec<
                SendError<T>,
            >>::from_spec(err);
            &&& err !is Listen ==> <SendError<T> as vstd::std_specs::convert::TryFromSpec<
                TrySendError<T>,
            >>::try_from_spec(tried) == Ok::<SendError<T>, TrySendError<T>>(err)
            &&& tried.reason() == err.reason()
            &&& tried.spec_is_disconnected() == err.spec_is_disconnected()
            &&& tried.spec_is_item_specific() == err.spec_is_item_specific()
            &&& tried.text() == err.text()
        }),
{
}

/// The ports of connection requests, in order.
pub open spec fn requested_ports(requests: Seq<(u32, u64)>) -> Seq<u32> {
    requests.map_values(|request: (u32, u64)| request.0)
}

/// The requested ports are those that could be allocated.
proof fn lemma_requested_ports(allocated: Seq<Result<u32, String>>, callbacks: Seq<u64>)
    ensures
        requested_ports(allocated_requests(allocated, callbacks)) == allocated_ports(allocated),
    decreases allocated.len(),
{
    if allocated.len() > 0 {
        lemma_requested_ports(allocated.drop_last(), callbacks);
        assert(requested_ports(allocated_requests(allocated, callbacks)) =~= allocated_ports(
            allocated,
        ));
    } else {
        assert(requested_ports(Seq::empty()) =~= Seq::empty());
    }
}

/// The accepted ports are expected, besides those that were before.
proof fn lemma_accepted_ports(expected: Map<u32, u64>, ports: Seq<u32>, callbacks: Seq<u64>)
    ensures
        accepted_ports(expected, ports, callbacks).dom() == expected.dom().union(ports.to_set()),
    decreases ports.len(),
{
    if ports.len() > 0 {
        let init = ports.drop_last();
        lemma_accepted_ports(expected, init, callbacks);
        assert forall|port: u32| ports.contains(port) <==> init.contains(port) || port
            == ports.last() by {
            if ports.contains(port) {
                let i = choose|i: int| 0 <= i < ports.len() && ports[i] == port;
                if i < ports.len() - 1 {
                    assert(init[i] == port);
                }
            }
            if init.contains(port) {
                let i = choose|i: int| 0 <= i < init.len() && init[i] == port;
                assert(ports[i] == port);
            }
            assert(ports[ports.len() - 1] == ports.last());
        }
    }
    assert(accepted_ports(expected, ports, callbacks).dom() =~= expected.dom().union(
        ports.to_set(),
    ));
}

/// A half that is sent gets all of its ports connected: what the endpoint that sends it requests
/// is what the endpoint that receives it expects, so that no port is missing.
pub proof fn law_ports_are_connected(
    allocated: Seq<Result<u32, String>>,
    callbacks: Seq<u64>,
    port: u32,
    callback: u64,
    remote_callbacks: Seq<u64>,
    remote_callback: u64,
)
    ensures
        ({
            let requested = requested_ports(
                allocated_requests(allocated, callbacks).push((port, callback)),
            );
            let expected = accepted_ports(
                Map::empty(),
                allocated_ports(allocated),
                remote_callbacks,
            ).insert(port, remote_callback);
            &&& expected.dom() == requested.to_set()
            &&& after_requests(expected, requested).0 == Map::<u32, u64>::empty()
        }),
{
    let parallel = allocated_ports(allocated);
    let requested = requested_ports(
        allocated_requests(allocated, callbacks).push((port, callback)),
    );
    let expected = accepted_ports(Map::empty(), parallel, remote_callbacks).insert(
        port,
        remote_callback,
    );
    lemma_requested_ports(allocated, callbacks);
    assert(requested =~= parallel.push(port));
    lemma_accepted_ports(Map::empty(), parallel, remote_callbacks);
    assert forall|p: u32| requested.contains(p) <==> parallel.contains(p) || p == port by {
        if requested.contains(p) {
            let i = choose|i: int| 0 <= i < requested.len() && requested[i] == p;
            if i < parallel.len() {
                assert(parallel[i] == p);
            }
        }
        if parallel.contains(p) {
            let i = choose|i: int| 0 <= i < parallel.len() && parallel[i] == p;
            assert(requested[i] == p);
        }
        assert(requested[parallel.len() as int] == port);
    }
    assert(expected.dom() =~= requested.to_set());
    law_missing_ports(expected, requested);
    assert(expected.remove_keys(requested.to_set()) =~= Map::empty());
}

/// On an open channel a value is sent whenever its queue grants room, however much room that queue
/// has; without waiting, a full queue gives the value back.
pub proof fn law_open_channel_takes_values<T>(
    sender: Sender,
    value: T,
    granted: bool,
    queued: Queued,
    sent: Result<T, SendError<T>>,
    tried: Result<T, TrySendError<T>>,
    reserved: Result<(), SendError<()>>,
    tried_reserved: Result<(), TrySendError<()>>,
)
    requires
        call_ensures(Sender::send::<T>, (&sender, value, granted), sent),
        call_ensures(Sender::try_send::<T>, (&sender, value, queued), tried),
        call_ensures(Sender::reserve, (&sender, granted), reserved),
        call_ensures(Sender::try_reserve, (&sender, queued), tried_reserved),
        sender.queue is Some,
        sender.closed is None,
        sender.remote_send_err is None,
    ensures
        granted ==> sent == Ok::<T, SendError<T>>(value) && reserved is Ok,
        !granted ==> sent == Err::<T, SendError<T>>(SendError::Closed(value)) && reserved == Err::<
            (),
            SendError<()>,
        >(SendError::Closed(())),
        queued is Queued ==> tried == Ok::<T, TrySendError<T>>(value) && tried_reserved is Ok,
        queued is Full ==> tried == Err::<T, TrySendError<T>>(TrySendError::Full(value))
            && tried_reserved == Err::<(), TrySendError<()>>(TrySendError::Full(())),
        queued is Closed ==> tried == Err::<T, TrySendError<T>>(TrySendError::Closed(value))
            && tried_reserved == Err::<(), TrySendError<()>>(TrySendError::Closed(())),
{
}

/// A value is refused as closed only if the queue was given up or refused it, or the channel was
/// closed; no other way of sending gets a value through either.
pub proof fn law_refused_as_closed<T>(
    sender: Sender,
    value: T,
    granted: bool,
    queued: Queued,
    sent: Result<T, SendError<T>>,
    tried: Result<T, TrySendError<T>>,
    reserved: Result<(), SendError<()>>,
    tried_reserved: Result<(), TrySendError<()>>,
)
    requires
        call_ensures(Sender::send::<T>, (&sender, value, granted), sent),
        call_ensures(Sender::try_send::<T>, (&sender, value, queued), tried),
        call_ensures(Sender::reserve, (&sender, granted), reserved),
        call_ensures(Sender::try_reserve, (&sender, queued), tried_reserved),
        sender.remote_send_err is None,
    ensures
        sent is Err <==> sender.queue is None || sender.closed is Some || !granted,
        sent is Err ==> sent == Err::<T, SendError<T>>(SendError::Closed(value)),
        tried == Err::<T, TrySendError<T>>(TrySendError::Closed(value)) <==> sender.queue is None
            || sender.closed is Some || queued is Closed,
        reserved is Ok <==> sent is Ok,
        tried_reserved is Ok <==> tried is Ok,
{
}

/// A published failure is what every send reports, also if the channel was closed; one that says
/// that the receiver was closed hands the value back.
pub proof fn law_published_failure_is_reported<T>(
    sender: Sender,
    err: RemoteSendError,
    value: T,
    granted: bool,
    queued: Queued,
    sent: Result<T, SendError<T>>,
    tried: Result<T, TrySendError<T>>,
    reserved: Result<(), SendError<()>>,
)
    requires
        call_ensures(Sender::send::<T>, (&sender, value, granted), sent),
        call_ensures(Sender::try_send::<T>, (&sender, value, queued), tried),
        call_ensures(Sender::reserve, (&sender, granted), reserved),
        sender.remote_send_err == Some(err),
    ensures
        err is Closed ==> sent == Err::<T, SendError<T>>(SendError::Closed(value)) && tried == Err::<
            T,
            TrySendError<T>,
        >(TrySendError::Closed(value)),
        err is Forward ==> sent == Err::<T, SendError<T>>(SendError::Forward) && tried == Err::<
            T,
            TrySendError<T>,
        >(TrySendError::Forward),
        err matches RemoteSendError::Send(kind) ==> sent == Err::<T, SendError<T>>(
            SendError::Send(kind),
        ) && tried == Err::<T, TrySendError<T>>(TrySendError::Send(kind)),
        err matches RemoteSendError::Connect(cause) ==> sent == Err::<T, SendError<T>>(
            SendError::Connect(cause),
        ) && tried == Err::<T, TrySendError<T>>(TrySendError::Connect(cause)),
        err matches RemoteSendError::Listen(cause) ==> sent == Err::<T, SendError<T>>(
            SendError::Listen(cause),
        ) && tried == Err::<T, TrySendError<T>>(TrySendError::Listen(cause)),
        reserved is Err,
{
}

/// The room that is reported is that of the queue while the channel is open, and none otherwise; a
/// channel is closed exactly if it was closed or a failure was published.
pub proof fn law_room_of_a_channel(
    sender: Sender,
    capacity: usize,
    reason: Option<ClosedReason>,
    closed: bool,
)
    requires
        call_ensures(Sender::capacity, (&sender,), capacity),
        call_ensures(Sender::closed_reason, (&sender,), reason),
        call_ensures(Sender::is_closed, (&sender,), closed),
    ensures
        closed <==> sender.closed is Some || sender.remote_send_err is Some,
        reason is Some <==> closed,
        sender.closed is Some ==> reason == sender.closed,
        closed ==> capacity == 0,
        sender.queue is None ==> capacity == 0,
        !closed ==> (sender.queue matches Some(room) ==> capacity == room),
{
}

/// The queue is kept only as long as the channel is not closed and both ends are there.
pub proof fn law_queue_is_kept_while_open(event: KeepEvent, r: bool)
    requires
        call_ensures(drop_when_closed, (event,), r),
    ensures
        !r <==> event == KeepEvent::Closed(None),
{
}

/// The class of a failure to send: the value is at fault if it could not be encoded or is too
/// large, otherwise no further value can be sent, except that a full queue is only full.
pub proof fn law_class_of_mpsc_send_error<T>(
    err: SendError<T>,
    reason: Option<ClosedReason>,
    closed: bool,
    disconnected: bool,
    item_specific: bool,
    tried: TrySendError<T>,
    tried_reason: Option<ClosedReason>,
    tried_closed: bool,
    tried_disconnected: bool,
)
    requires
        call_ensures(SendError::<T>::closed_reason, (&err,), reason),
        call_ensures(SendError::<T>::is_closed, (&err,), closed),
        call_ensures(SendError::<T>::is_disconnected, (&err,), disconnected),
        call_ensures(SendError::<T>::is_item_specific, (&err,), item_specific),
        call_ensures(TrySendError::<T>::closed_reason, (&tried,), tried_reason),
        call_ensures(TrySendError::<T>::is_closed, (&tried,), tried_closed),
        call_ensures(TrySendError::<T>::is_disconnected, (&tried,), tried_disconnected),
    ensures
        item_specific <==> (err matches SendError::Send(kind) && !(kind is Send)),
        disconnected != item_specific,
        reason is Some <==> disconnected,
        closed <==> reason == Some(ClosedReason::Closed) || reason == Some(ClosedReason::Dropped),
        err is Closed ==> reason == Some(ClosedReason::Closed),
        err is Listen || err is Forward ==> reason == Some(ClosedReason::Failed),
        tried_closed <==> tried_reason == Some(ClosedReason::Closed) || tried_reason == Some(
            ClosedReason::Dropped,
        ),
        tried_reason is Some <==> tried_disconnected,
        tried is Full ==> !tried_disconnected,
        tried is Closed ==> tried_reason == Some(ClosedReason::Closed),
        !tried_disconnected ==> tried is Full || (tried matches TrySendError::Send(kind) && !(kind
            is Send)),
{
}

/// Without its value an error is the same error.
pub proof fn law_error_without_value<T>(
    err: SendError<T>,
    r: SendError<()>,
    reason: Option<ClosedReason>,
    reason_without: Option<ClosedReason>,
)
    requires
        call_ensures(SendError::<T>::without_item, (err,), r),
        call_ensures(SendError::<T>::closed_reason, (&err,), reason),
        call_ensures(SendError::<()>::closed_reason, (&r,), reason_without),
    ensures
        err is Closed <==> r is Closed,
        err is Forward <==> r is Forward,
        err matches SendError::Send(kind) ==> r == SendError::<()>::Send(kind),
        err matches SendError::Connect(cause) ==> r == SendError::<()>::Connect(cause),
        err matches SendError::Listen(cause) ==> r == SendError::<()>::Listen(cause),
        reason == reason_without,
{
}

/// An additional port is used exactly if it could be allocated, in order and with its callback; one
/// that could not be allocated changes nothing.
pub proof fn law_additional_ports(
    start: PortSerializer,
    fewer_after: PortSerializer,
    after: PortSerializer,
    fewer: Vec<Result<u32, String>>,
    allocated: Vec<Result<u32, String>>,
    callbacks: Vec<u64>,
    last: Result<u32, String>,
    of_fewer: Vec<u32>,
    r: Vec<u32>,
)
    requires
        exists|ports: &mut PortSerializer| #[trigger]
            call_ensures(connect_parallel, (ports, fewer, &callbacks), of_fewer) && *ports == start
                && *final(ports) == fewer_after,
        exists|ports: &mut PortSerializer| #[trigger]
            call_ensures(connect_parallel, (ports, allocated, &callbacks), r) && *ports == start
                && *final(ports) == after,
        allocated@ == fewer@.push(last),
        allocated@.len() <= callbacks@.len(),
    ensures
        fewer@.len() == 0 ==> of_fewer@.len() == 0 && fewer_after.requests@ == start.requests@,
        last matches Ok(port) ==> {
            &&& r@ == of_fewer@.push(port)
            &&& after.requests@ == fewer_after.requests@.push((port, callbacks@[fewer@.len() as int]))
        },
        last is Err ==> r@ == of_fewer@ && after.requests@ == fewer_after.requests@,
        after.tasks@ == start.tasks@,
{
    assert(allocated@.drop_last() =~= fewer@);
    assert(allocated@.last() == last);
    if fewer@.len() == 0 {
        assert(fewer_after.requests@ =~= start.requests@);
    }
    if last is Ok {
        assert(after.requests@ =~= fewer_after.requests@.push(
            (last->Ok_0, callbacks@[fewer@.len() as int]),
        ));
    }
}

/// Each additional port of a half that was received is expected with its callback.
pub proof fn law_additional_ports_are_expected(
    start: PortDeserializer,
    fewer_after: PortDeserializer,
    after: PortDeserializer,
    fewer: Vec<u32>,
    parallel: Vec<u32>,
    callbacks: Vec<u64>,
    last: u32,
)
    requires
        exists|ports: &mut PortDeserializer| #[trigger]
            call_ensures(accept_parallel, (ports, &fewer, &callbacks), ()) && *ports == start
                && *final(ports) == fewer_after,
        exists|ports: &mut PortDeserializer| #[trigger]
            call_ensures(accept_parallel, (ports, &parallel, &callbacks), ()) && *ports == start
                && *final(ports) == after,
        parallel@ == fewer@.push(last),
        parallel@.len() <= callbacks@.len(),
    ensures
        fewer@.len() == 0 ==> fewer_after.expected@ == start.expected@,
        after.expected@ == fewer_after.expected@.insert(last, callbacks@[fewer@.len() as int]),
        after.tasks@ == start.tasks@,
{
    assert(parallel@.drop_last() =~= fewer@);
}

/// The base channel comes first, followed by the additional channels that were established.
pub proof fn law_established_channels(
    base: u64,
    fewer: Vec<Option<u64>>,
    parallel: Vec<Option<u64>>,
    last: Option<u64>,
    of_fewer: Vec<u64>,
    r: Vec<u64>,
)
    requires
        call_ensures(establish, (base, &fewer), of_fewer),
        call_ensures(establish, (base, &parallel), r),
        parallel@ == fewer@.push(last),
    ensures
        fewer@.len() == 0 ==> of_fewer@ == seq![base],
        r@[0] == base,
        last matches Some(channel) ==> r@ == of_fewer@.push(channel),
        last is None ==> r@ == of_fewer@,
{
    assert(parallel@.drop_last() =~= fewer@);
    if fewer@.len() == 0 {
        assert(of_fewer@ =~= seq![base]);
    }
    if last is Some {
        assert(r@ =~= of_fewer@.push(last->0));
    }
}

/// A sender that is received is open exactly if the one that was sent had its queue; the task that
/// sends its values keeps to its size limit, and it uses as many additional channels as ports could
/// be allocated.
pub proof fn law_mpsc_sender_arrives(
    sender: Sender,
    allocated: Vec<Result<u32, String>>,
    callbacks: Vec<u64>,
    port: u32,
    callback: u64,
    sent: TransportedSender,
    buffer: usize,
    remote_callbacks: Vec<u64>,
    remote_callback: u64,
    r: (Sender, Option<usize>),
    closed: bool,
)
    requires
        exists|ports: &mut PortSerializer| #[trigger]
            call_ensures(
                Sender::serialize,
                (&sender, ports, allocated, &callbacks, Ok(port), callback),
                Ok(sent),
            ),
        exists|ports: &mut PortDeserializer| #[trigger]
            call_ensures(
                Sender::deserialize,
                (sent, ports, buffer, &remote_callbacks, remote_callback),
                r,
            ),
        call_ensures(Sender::is_closed, (&r.0,), closed),
    ensures
        closed <==> sender.queue is None,
        sender.queue is Some ==> {
            &&& sent.port == Some(port)
            &&& r.0.queue == Some(buffer)
            &&& r.1 == Some(sender.max_item_size)
            &&& r.0.parallel == Some(sent.parallel@.len() as usize)
            &&& r.0.remote_send_err is None
        },
        sender.queue is None ==> sent.port is None && r.0.queue is None && r.1 is None,
{
}

/// A failure to allocate the port that carries the channel fails sending the sender, and none other
/// does.
pub proof fn law_sending_needs_its_port(
    sender: Sender,
    allocated: Vec<Result<u32, String>>,
    callbacks: Vec<u64>,
    main: Result<u32, String>,
    callback: u64,
    r: Result<TransportedSender, String>,
)
    requires
        exists|ports: &mut PortSerializer| #[trigger]
            call_ensures(
                Sender::serialize,
                (&sender, ports, allocated, &callbacks, main, callback),
                r,
            ),
    ensures
        r is Err <==> sender.queue is Some && main is Err,
        r matches Err(err) ==> main == Err::<u32, String>(err),
{
}

/// The number of additional ports is that of the sender, or the general one if it has none; a
/// channel without a queue needs none.
pub proof fn law_number_of_additional_ports(sender: Sender, mpsc_parallel: usize, r: usize)
    requires
        call_ensures(Sender::parallel_ports, (&sender, mpsc_parallel), r),
    ensures
        sender.queue is None ==> r == 0,
        sender.queue is Some ==> (sender.parallel matches Some(parallel) ==> r == parallel),
        sender.queue is Some && sender.parallel is None ==> r == mpsc_parallel,
{
}

/// A sink takes a value only with room for it, uses up that room, and has flushed it when it is
/// transmitted; a closed sink takes nothing.
pub proof fn law_sink_takes_values_one_by_one(
    before: SenderSink,
    ready: SenderSink,
    started: SenderSink,
    reserve: Option<Result<(), SendError<()>>>,
    r: Option<Result<(), SendError<()>>>,
)
    requires
        exists|state: &mut SenderSink| #[trigger]
            call_ensures(SenderSink::poll_ready, (state, reserve), r) && *state == before
                && *final(state) == ready,
        ready.permit ==> exists|state: &mut SenderSink| #[trigger]
            call_ensures(SenderSink::start_send, (state,), ()) && *state == ready && *final(state)
                == started,
    ensures
        before.permit ==> (r matches Some(Ok(_))),
        !before.permit && !before.open ==> r == Some(
            Err::<(), SendError<()>>(SendError::Closed(())),
        ),
        !before.permit && before.open ==> r == reserve,
        ready.permit <==> (r matches Some(Ok(_))),
        ready.permit ==> started == (SenderSink { permit: false, sending: true, ..before }),
        ready.open == before.open && ready.sending == before.sending,
{
}

/// Flushing waits for the value that is being transmitted and reports what became of it, once.
pub proof fn law_sink_is_flushed<T>(
    before: SenderSink,
    between: SenderSink,
    after: SenderSink,
    sending: Option<Result<(), SendingError<T>>>,
    later: Option<Result<(), SendingError<T>>>,
    r: Option<Result<(), SendError<()>>>,
    again: Option<Result<(), SendError<()>>>,
)
    requires
        exists|state: &mut SenderSink| #[trigger]
            call_ensures(SenderSink::poll_flush::<T>, (state, sending), r) && *state == before
                && *final(state) == between,
        exists|state: &mut SenderSink| #[trigger]
            call_ensures(SenderSink::poll_flush::<T>, (state, later), again) && *state == between
                && *final(state) == after,
    ensures
        !before.sending ==> (r matches Some(Ok(_))),
        before.sending ==> {
            &&& r is None <==> sending is None
            &&& (r matches Some(Ok(_))) <==> (sending matches Some(Ok(_)))
            &&& sending matches Some(Err(SendingError::Send(err))) ==> r == Some(
                Err::<(), SendError<()>>(SendError::Send(err.kind)),
            )
            &&& sending matches Some(Err(SendingError::Dropped)) ==> r == Some(
                Err::<(), SendError<()>>(SendError::Closed(())),
            )
        },
        r is Some ==> !between.sending && (again matches Some(Ok(_))),
        r is None ==> between == before,
        between.open == before.open && between.permit == before.permit,
{
}

/// A sink that was closed takes no further value; a copy of a sink is open like it, without room.
pub proof fn law_closed_sink_takes_nothing(
    before: SenderSink,
    closed: SenderSink,
    after: SenderSink,
    reserve: Option<Result<(), SendError<()>>>,
    closing: Option<Result<(), SendError<()>>>,
    r: Option<Result<(), SendError<()>>>,
    copy: SenderSink,
)
    requires
        exists|state: &mut SenderSink| #[trigger]
            call_ensures(SenderSink::poll_close, (state,), closing) && *state == before
                && *final(state) == closed,
        exists|state: &mut SenderSink| #[trigger]
            call_ensures(SenderSink::poll_ready, (state, reserve), r) && *state == closed
                && *final(state) == after,
        call_ensures(<SenderSink as Clone>::clone, (&before,), copy),
    ensures
        closing matches Some(Ok(_)),
        r == Some(Err::<(), SendError<()>>(SendError::Closed(()))),
        !after.permit,
        copy.open == before.open && !copy.permit && !copy.sending,
{
}

/// A failure that was published means the same to a value that is sent and to one that is tried
/// to be sent, and a value is given back only where the channel was closed.
pub proof fn law_meaning_of_published_failure<T>(
    err: RemoteSendError,
    value: T,
    sent: SendError<T>,
    tried: TrySendError<T>,
    converted: TrySendError<T>,
    specific: bool,
)
    requires
        call_ensures(SendError::<T>::from_remote_send_error, (err, value), sent),
        call_ensures(TrySendError::<T>::from_remote_send_error, (err, value), tried),
        call_ensures(<TrySendError<T> as From<SendError<T>>>::from, (sent,), converted),
        call_ensures(TrySendError::<T>::is_item_specific, (&tried,), specific),
    ensures
        converted == tried,
        err matches RemoteSendError::Send(inner) ==> sent == SendError::<T>::Send(inner),
        err matches RemoteSendError::Connect(inner) ==> sent == SendError::<T>::Connect(inner),
        err matches RemoteSendError::Listen(inner) ==> sent == SendError::<T>::Listen(inner),
        err is Forward ==> sent is Forward,
        err is Closed ==> sent == SendError::<T>::Closed(value),
        specific <==> (err matches RemoteSendError::Send(kind) && (kind is Serialize || kind
            is MaxItemSizeExceeded)),
{
}

/// An error keeps what it says, and the value if it holds one, when it becomes that of trying to
/// send.
pub proof fn law_error_of_trying<T>(err: SendError<T>, r: TrySendError<T>)
    requires
        call_ensures(<TrySendError<T> as From<SendError<T>>>::from, (err,), r),
    ensures
        !(r is Full),
        err matches SendError::Closed(value) ==> r == TrySendError::<T>::Closed(value),
        err matches SendError::Send(inner) ==> r == TrySendError::<T>::Send(inner),
        err matches SendError::Connect(inner) ==> r == TrySendError::<T>::Connect(inner),
        err matches SendError::Listen(inner) ==> r == TrySendError::<T>::Listen(inner),
        err is Forward ==> r is Forward,
{
}

/// A new sender has the room that it was made with and accepts values of up to sixteen
/// mebibytes; one that is made closed has no queue and is closed.
pub proof fn law_new_mpsc_sender(
    capacity: usize,
    parallel: Option<usize>,
    new: Sender,
    closed: Sender,
    room: (usize, usize),
    is_closed: (bool, bool),
    r: (usize, Option<usize>),
)
    requires
        call_ensures(Sender::new, (capacity, parallel), new),
        call_ensures(Sender::new_closed, (), closed),
        call_ensures(Sender::capacity, (&new,), room.0),
        call_ensures(Sender::capacity, (&closed,), room.1),
        call_ensures(Sender::is_closed, (&new,), is_closed.0),
        call_ensures(Sender::is_closed, (&closed,), is_closed.1),
        call_ensures(Sender::max_item_size, (&new,), r.0),
        call_ensures(Sender::parallel, (&new,), r.1),
    ensures
        room == (capacity, 0usize),
        is_closed == (false, true),
        r == (16_777_216usize, parallel),
        new.queue == Some(capacity) && new.remote_send_err is None,
        closed.queue is None && closed.closed == Some(ClosedReason::Closed),
        closed.remote_send_err is None && closed.parallel is None,
{
}

/// What is set at a sender is read back, and nothing else of it changes.
pub proof fn law_settings_of_an_mpsc_sender(
    before: Sender,
    limit: usize,
    parallel: Option<usize>,
    limited: Sender,
    spread_out: Sender,
    r: (usize, Option<usize>),
)
    requires
        exists|state: &mut Sender| #[trigger]
            call_ensures(Sender::set_max_item_size, (state, limit), ()) && *state == before
                && *final(state) == limited,
        exists|state: &mut Sender| #[trigger]
            call_ensures(Sender::set_parallel, (state, parallel), ()) && *state == before
                && *final(state) == spread_out,
        call_ensures(Sender::max_item_size, (&limited,), r.0),
        call_ensures(Sender::parallel, (&spread_out,), r.1),
    ensures
        r == (limit, parallel),
        limited == (Sender { max_item_size: limit, ..before }),
        spread_out == (Sender { parallel, ..before }),
{
}

/// A sender that could not be connected makes its receiver report that, and one whose request
/// could not be accepted makes its sender report that.
pub proof fn law_sender_without_connection<T>(
    connect: chmux::ConnectError,
    listen: chmux::ListenerError,
    r: (SendReq<T>, RemoteSendError),
)
    requires
        call_ensures(Sender::on_connect_failed::<T>, (connect,), r.0),
        call_ensures(Sender::on_accept_failed, (listen,), r.1),
    ensures
        r.0.value == Err::<T, RecvError>(RecvError::Connect(connect)),
        r.0.result_tx is None,
        r.1 == RemoteSendError::Listen(listen),
{
}

/// A new sink is open and one that is made closed is not; neither holds anything.
pub proof fn law_new_sink(new: SenderSink, closed: SenderSink)
    requires
        call_ensures(SenderSink::new, (), new),
        call_ensures(SenderSink::new_closed, (), closed),
    ensures
        new.open && !closed.open,
        !new.permit && !new.sending && !closed.permit && !closed.sending,
{
}

/// A sender that is sent requests its additional ports and then the port that carries the
/// channel, with their callbacks; one without a queue requests none.
pub proof fn law_ports_of_a_sent_sender(
    sender: Sender,
    start: PortSerializer,
    extra: PortSerializer,
    after: PortSerializer,
    allocated: Vec<Result<u32, String>>,
    callbacks: Vec<u64>,
    main: Result<u32, String>,
    callback: u64,
    parallel: Vec<u32>,
    sent: Result<TransportedSender, String>,
)
    requires
        exists|ports: &mut PortSerializer| #[trigger]
            call_ensures(connect_parallel, (ports, allocated, &callbacks), parallel) && *ports
                == start && *final(ports) == extra,
        exists|ports: &mut PortSerializer| #[trigger]
            call_ensures(
                Sender::serialize,
                (&sender, ports, allocated, &callbacks, main, callback),
                sent,
            ) && *ports == start && *final(ports) == after,
    ensures
        after.tasks@ == start.tasks@,
        sender.queue is None ==> after.requests@ == start.requests@ && (sent matches Ok(t)
            && t.parallel@.len() == 0),
        sender.queue is Some && main is Err ==> after.requests@ == extra.requests@,
        sender.queue is Some ==> (main matches Ok(port) ==> {
            &&& after.requests@ == extra.requests@.push((port, callback))
            &&& sent matches Ok(t) && t.parallel@ == parallel@
        }),
{
}

/// A sender that arrives expects its additional ports and the port that carries the channel,
/// with their callbacks; one that was closed expects none.
pub proof fn law_ports_of_an_arrived_sender(
    transported: TransportedSender,
    start: PortDeserializer,
    extra: PortDeserializer,
    after: PortDeserializer,
    buffer: usize,
    callbacks: Vec<u64>,
    callback: u64,
    r: (Sender, Option<usize>),
)
    requires
        exists|ports: &mut PortDeserializer| #[trigger]
            call_ensures(accept_parallel, (ports, &transported.parallel, &callbacks), ())
                && *ports == start && *final(ports) == extra,
        exists|ports: &mut PortDeserializer| #[trigger]
            call_ensures(
                Sender::deserialize,
                (transported, ports, buffer, &callbacks, callback),
                r,
            ) && *ports == start && *final(ports) == after,
    ensures
        after.tasks@ == start.tasks@,
        transported.port is None ==> after.expected@ == start.expected@,
        transported.port matches Some(port) ==> after.expected@ == extra.expected@.insert(
            port,
            callback,
        ),
        r.0.max_item_size == 16_777_216,
{
}

/// A copy of a sender is the same sender.
pub proof fn law_copied_sender(sender: Sender, r: Sender)
    requires
        call_ensures(<Sender as Clone>::clone, (&sender,), r),
    ensures
        r == sender,
{
}

/// What is said of an error does not depend on how it is asked.
pub proof fn law_class_by_trait_of_mpsc_error<T>(
    err: SendError<T>,
    r: (bool, bool, bool),
    by_trait: (bool, bool, bool),
)
    requires
        call_ensures(SendError::<T>::is_closed, (&err,), r.0),
        call_ensures(SendError::<T>::is_disconnected, (&err,), r.1),
        call_ensures(SendError::<T>::is_item_specific, (&err,), r.2),
        call_ensures(<SendError<T> as SendErrorExt>::is_closed, (&err,), by_trait.0),
        call_ensures(<SendError<T> as SendErrorExt>::is_disconnected, (&err,), by_trait.1),
        call_ensures(<SendError<T> as SendErrorExt>::is_item_specific, (&err,), by_trait.2),
    ensures
        by_trait == r,
{
}

/// What is said of an error of trying to send does not depend on how it is asked.
pub proof fn law_class_by_trait_of_try_error<T>(
    err: TrySendError<T>,
    r: (bool, bool, bool),
    by_trait: (bool, bool, bool),
)
    requires
        call_ensures(TrySendError::<T>::is_closed, (&err,), r.0),
        call_ensures(TrySendError::<T>::is_disconnected, (&err,), r.1),
        call_ensures(TrySendError::<T>::is_item_specific, (&err,), r.2),
        call_ensures(<TrySendError<T> as SendErrorExt>::is_closed, (&err,), by_trait.0),
        call_ensures(<TrySendError<T> as SendErrorExt>::is_disconnected, (&err,), by_trait.1),
        call_ensures(<TrySendError<T> as SendErrorExt>::is_item_specific, (&err,), by_trait.2),
    ensures
        by_trait == r,
{
}

} // verus!
