//! The receiving half of a watch channel.

use vstd::prelude::*;
use vstd::pervasive::cloned;
use crate::chmux;
use crate::rch::base;
use crate::rch::base::{PortDeserializer, PortSerializer};
use crate::rch::watch::rate_limit::{
    lowest, rate_limit_channel, RateLimitReceiver, RateLimitSender,
};
use crate::rch::watch::TransferStrategy;
use crate::rch::{
    local_max_item_size, max_item_size_from_wire, max_item_size_to_wire, RemoteSendError,
};
use crate::text::concat;

verus! {

/// An error returned while receiving updates.
pub enum RecvError {
    /// Receiving or decoding an update failed.
    Receive(base::RecvError),
    /// Opening a channel contained in an update failed.
    Connect(chmux::ConnectError),
    /// Preparing a channel contained in an update failed.
    Listen(chmux::ListenerError),
    /// An endpoint forwarding this channel reported a failure.
    ///
    /// The failure is missing when that endpoint reported one that is unknown here.
    Remote(Option<Box<RecvError>>),
}

impl RecvError {
    /// Whether the connection was rejected or failed.
    pub open spec fn spec_is_disconnected(self) -> bool
        decreases self,
    {
        match self {
            RecvError::Receive(err) => err.spec_is_disconnected(),
            RecvError::Connect(_) | RecvError::Listen(_) => true,
            RecvError::Remote(Some(err)) => err.spec_is_disconnected(),
            RecvError::Remote(None) => false,
        }
    }

    /// Returns whether the connection was rejected or failed.
    pub fn is_disconnected(&self) -> (r: bool)
        ensures
            r == self.spec_is_disconnected(),
        decreases self,
    {
        match self {
            RecvError::Receive(err) => err.is_disconnected(),
            RecvError::Connect(_) | RecvError::Listen(_) => true,
            RecvError::Remote(Some(err)) => err.is_disconnected(),
            RecvError::Remote(None) => false,
        }
    }

    /// Whether both describe the same failure.
    pub open spec fn same(self, other: RecvError) -> bool
        decreases self,
    {
        match (self, other) {
            (RecvError::Receive(a), RecvError::Receive(b)) => a.same(b),
            (RecvError::Connect(a), RecvError::Connect(b)) => a == b,
            (RecvError::Listen(a), RecvError::Listen(b)) => a == b,
            (RecvError::Remote(Some(a)), RecvError::Remote(Some(b))) => a.same(*b),
            (RecvError::Remote(None), RecvError::Remote(None)) => true,
            _ => false,
        }
    }

    /// The message shown to users.
    pub open spec fn text(self) -> Seq<char>
        decreases self,
    {
        match self {
            RecvError::Receive(err) => "receive error: "@ + err.text(),
            RecvError::Connect(err) => "connect error: "@ + err.text(),
            RecvError::Listen(err) => "listen error: "@ + err.text(),
            RecvError::Remote(Some(err)) => "remote "@ + err.text(),
            RecvError::Remote(None) => "unknown remote error"@,
        }
    }

    /// Returns the message shown to users.
    pub fn message(&self) -> (r: String)
        ensures
            r@ == self.text(),
        decreases self,
    {
        match self {
            RecvError::Receive(err) => concat("receive error: ", err.message().as_str()),
            RecvError::Connect(err) => concat("connect error: ", err.message().as_str()),
            RecvError::Listen(err) => concat("listen error: ", err.message().as_str()),
            RecvError::Remote(Some(err)) => concat("remote ", err.message().as_str()),
            RecvError::Remote(None) => String::from_str("unknown remote error"),
        }
    }
}

impl Clone for RecvError {
    fn clone(&self) -> (r: Self)
        ensures
            r.same(*self),
        decreases self,
    {
        match self {
            RecvError::Receive(err) => RecvError::Receive(err.clone()),
            RecvError::Connect(err) => RecvError::Connect(*err),
            RecvError::Listen(err) => RecvError::Listen(*err),
            RecvError::Remote(Some(err)) => {
                let inner: RecvError = (&**err).clone();
                RecvError::Remote(Some(Box::new(inner)))
            },
            RecvError::Remote(None) => RecvError::Remote(None),
        }
    }
}

/// An error returned when waiting for an update.
pub enum ChangedError {
    /// The sender has been dropped.
    Closed,
    /// No further values can be received.
    Recv(RecvError),
}

impl ChangedError {
    /// Returns whether the sender has been dropped.
    pub fn is_closed(&self) -> (r: bool)
        ensures
            r == (*self is Closed),
    {
        matches!(self, ChangedError::Closed)
    }

    /// The message shown to users.
    pub open spec fn text(self) -> Seq<char> {
        match self {
            ChangedError::Closed => "closed"@,
            ChangedError::Recv(err) => err.text(),
        }
    }

    /// Returns the message shown to users.
    pub fn message(&self) -> (r: String)
        ensures
            r@ == self.text(),
    {
        match self {
            ChangedError::Closed => String::from_str("closed"),
            ChangedError::Recv(err) => err.message(),
        }
    }
}

impl From<RecvError> for ChangedError {
    fn from(err: RecvError) -> (r: Self) {
        ChangedError::Recv(err)
    }
}

impl vstd::std_specs::convert::FromSpecImpl<RecvError> for ChangedError {
    open spec fn obeys_from_spec() -> bool {
        true
    }

    open spec fn from_spec(err: RecvError) -> ChangedError {
        ChangedError::Recv(err)
    }
}

/// A receiver on its way to another endpoint.
pub struct TransportedReceiver<T> {
    /// Port number.
    pub port: u32,
    /// Current value.
    pub data: Result<T, RecvError>,
    /// Largest value that may be transferred.
    pub max_item_size: u64,
    /// Minimum delay between two updates.
    pub rate_limit: u128,
    /// How values are transferred.
    pub transfer_strategy: TransferStrategy,
}

/// Whether what was received last is a failure after which nothing follows.
pub open spec fn is_dead<T>(value: Result<T, RecvError>) -> bool {
    value matches Err(err) && err.spec_is_disconnected()
}

/// Whether a copy stands for the same value or failure.
pub open spec fn copied<T: Clone>(original: Result<T, RecvError>, copy: Result<T, RecvError>) -> bool {
    match (original, copy) {
        (Ok(a), Ok(b)) => cloned(a, b),
        (Err(a), Err(b)) => b.same(a),
        _ => false,
    }
}

/// Returns a copy of what is being watched.
pub fn copy_of<T: Clone>(value: &Result<T, RecvError>) -> (r: Result<T, RecvError>)
    ensures
        copied(*value, r),
{
    match value {
        Ok(value) => Ok(value.clone()),
        Err(err) => Err(err.clone()),
    }
}

/// The receiving half of a watch channel.
pub struct Receiver<T> {
    /// What was received last.
    pub value: Result<T, RecvError>,
    /// Whether what was received last has not been looked at.
    pub unseen: bool,
    /// Whether the sender is gone.
    pub sender_dropped: bool,
    /// Largest value that may be received.
    pub max_item_size: usize,
    /// Largest value that the remote sender may send.
    pub remote_max_item_size: Option<usize>,
    /// The rate limit that the sender applies to values sent on from here.
    pub sender_rate_limit: u128,
    /// This receiver's place among the rate limits of the channel.
    pub receiver_rate_limit: RateLimitSender,
    /// How values are transferred.
    pub transfer_strategy: TransferStrategy,
}

impl<T> Receiver<T> {
    /// Returns the current value without marking it as seen.
    pub fn borrow(&self) -> (r: Result<&T, RecvError>)
        ensures
            match self.value {
                Ok(value) => r == Ok::<&T, RecvError>(&value),
                Err(err) => r matches Err(copy) && copy.same(err),
            },
    {
        match &self.value {
            Ok(value) => Ok(value),
            Err(err) => Err(err.clone()),
        }
    }

    /// Returns the current value and marks it as seen.
    pub fn borrow_and_update(&mut self) -> (r: Result<&T, RecvError>)
        ensures
            match old(self).value {
                Ok(value) => r == Ok::<&T, RecvError>(&value),
                Err(err) => r matches Err(copy) && copy.same(err),
            },
            *final(self) == (Receiver { unseen: false, ..*old(self) }),
    {
        self.unseen = false;
        match &self.value {
            Ok(value) => Ok(value),
            Err(err) => Err(err.clone()),
        }
    }

    /// Returns whether the current value has not been seen.
    ///
    /// Fails when nothing more can be received. It also fails when the sender is gone, but not
    /// before its final value has been seen.
    pub fn has_changed(&self) -> (r: Result<bool, ChangedError>)
        ensures
            match r {
                Err(ChangedError::Recv(copy)) => is_dead(self.value) && copy.same(self.value->Err_0),
                Err(ChangedError::Closed) => !is_dead(self.value) && !self.unseen
                    && self.sender_dropped,
                Ok(changed) => !is_dead(self.value) && changed == self.unseen && (changed
                    || !self.sender_dropped),
            },
    {
        if let Err(err) = &self.value {
            if err.is_disconnected() {
                return Err(ChangedError::Recv(err.clone()));
            }
        }
        if self.sender_dropped && !self.unseen {
            Err(ChangedError::Closed)
        } else {
            Ok(self.unseen)
        }
    }

    /// Looks for an update and marks it as seen; `None` means that there is none yet.
    ///
    /// An update is found even if the sender is gone.
    pub fn changed(&mut self) -> (r: Option<Result<(), ChangedError>>)
        ensures
            match r {
                Some(Err(ChangedError::Recv(copy))) => is_dead(old(self).value) && copy.same(
                    old(self).value->Err_0,
                ),
                Some(Ok(_)) => !is_dead(old(self).value) && old(self).unseen,
                Some(Err(ChangedError::Closed)) => !is_dead(old(self).value) && !old(self).unseen
                    && old(self).sender_dropped,
                None => !is_dead(old(self).value) && !old(self).unseen && !old(
                    self,
                ).sender_dropped,
            },
            *final(self) == (Receiver {
                unseen: old(self).unseen && is_dead(old(self).value),
                ..*old(self)
            }),
    {
        if let Err(err) = &self.value {
            if err.is_disconnected() {
                return Some(Err(ChangedError::Recv(err.clone())));
            }
        }
        if self.unseen {
            self.unseen = false;
            Some(Ok(()))
        } else if self.sender_dropped {
            Some(Err(ChangedError::Closed))
        } else {
            None
        }
    }

    /// Marks the current value as not seen.
    pub fn mark_changed(&mut self)
        ensures
            *final(self) == (Receiver { unseen: true, ..*old(self) }),
    {
        self.unseen = true;
    }

    /// Marks the current value as seen.
    pub fn mark_unchanged(&mut self)
        ensures
            *final(self) == (Receiver { unseen: false, ..*old(self) }),
    {
        self.unseen = false;
    }

    /// Looks for a value that the predicate accepts; `None` means that it has not arrived yet.
    ///
    /// Every failure ends the wait. The value that is looked at is marked as seen.
    pub fn wait_for<F: Fn(&T) -> bool>(&mut self, f: F) -> (r: Option<Result<(), ChangedError>>)
        requires
            old(self).value matches Ok(value) ==> f.requires((&value,)),
        ensures
            match old(self).value {
                Err(err) => r matches Some(Err(ChangedError::Recv(copy))) && copy.same(err),
                Ok(value) => match r {
                    Some(Ok(_)) => f.ensures((&value,), true),
                    Some(Err(ChangedError::Closed)) => f.ensures((&value,), false) && old(
                        self,
                    ).sender_dropped,
                    Some(Err(ChangedError::Recv(_))) => false,
                    None => f.ensures((&value,), false) && !old(self).sender_dropped,
                },
            },
            *final(self) == (Receiver { unseen: false, ..*old(self) }),
    {
        self.unseen = false;
        match &self.value {
            Err(err) => Some(Err(ChangedError::from(err.clone()))),
            Ok(value) => {
                if f(value) {
                    Some(Ok(()))
                } else if self.sender_dropped {
                    Some(Err(ChangedError::Closed))
                } else {
                    None
                }
            },
        }
    }

    /// Returns the maximum size of a value.
    pub fn max_item_size(&self) -> (r: usize)
        ensures
            r == self.max_item_size,
    {
        self.max_item_size
    }

    /// Returns the receiver with another maximum size of a value.
    pub fn set_max_item_size(self, max_item_size: usize) -> (r: Self)
        ensures
            r == (Receiver { max_item_size, ..self }),
    {
        Receiver { max_item_size, ..self }
    }

    /// Returns the maximum size of a value of the remote sender.
    pub fn remote_max_item_size(&self) -> (r: Option<usize>)
        ensures
            r == self.remote_max_item_size,
    {
        self.remote_max_item_size
    }

    /// Returns the minimum delay between two updates that this receiver requests.
    pub fn rate_limit(&self, limits: &RateLimitReceiver) -> (r: u128)
        requires
            limits.holds(self.receiver_rate_limit),
        ensures
            r == limits.limit_of(self.receiver_rate_limit),
    {
        self.receiver_rate_limit.get(limits)
    }

    /// Requests a minimum delay between two updates.
    pub fn set_rate_limit(&mut self, limits: &mut RateLimitReceiver, rate_limit: u128)
        requires
            old(limits).holds(old(self).receiver_rate_limit),
        ensures
            *final(self) == *old(self),
            final(limits).limits@ == old(limits).limits@.update(
                old(self).receiver_rate_limit.slot as int,
                Some(rate_limit),
            ),
            final(limits).holds(old(self).receiver_rate_limit),
            final(limits).limit_of(old(self).receiver_rate_limit) == rate_limit,
            final(limits).changed,
    {
        self.receiver_rate_limit.set(limits, rate_limit);
    }

    /// Returns another receiver of the channel, which requests the same minimum delay.
    pub fn duplicate(&self, limits: &mut RateLimitReceiver) -> (r: Receiver<T>) where T: Clone
        requires
            old(limits).holds(self.receiver_rate_limit),
        ensures
            copied(self.value, r.value),
            r == (Receiver {
                value: r.value,
                receiver_rate_limit: r.receiver_rate_limit,
                ..*self
            }),
            old(limits).gained(r.receiver_rate_limit, *final(limits)),
            final(limits).limit_of(r.receiver_rate_limit) == old(limits).limit_of(
                self.receiver_rate_limit,
            ),
            final(limits).changed == old(limits).changed,
            lowest(final(limits).limits@) == lowest(old(limits).limits@),
    {
        Receiver {
            value: copy_of(&self.value),
            unseen: self.unseen,
            sender_dropped: self.sender_dropped,
            max_item_size: self.max_item_size,
            remote_max_item_size: self.remote_max_item_size,
            sender_rate_limit: self.sender_rate_limit,
            receiver_rate_limit: self.receiver_rate_limit.duplicate(limits),
            transfer_strategy: self.transfer_strategy,
        }
    }

    /// Drops the receiver, whose requested delay no longer counts.
    pub fn drop(self, limits: &mut RateLimitReceiver)
        requires
            old(limits).holds(self.receiver_rate_limit),
        ensures
            final(limits).limits@ == old(limits).limits@.update(
                self.receiver_rate_limit.slot as int,
                None,
            ),
            final(limits).changed,
    {
        self.receiver_rate_limit.drop(limits);
    }

    /// Sends this to another endpoint.
    ///
    /// `allocated` is what came of allocating the port. The second part of the result
    /// belongs to the task that sends the values: with it, it requests the delay that the
    /// remote endpoint asks for. Without a port it is given up again.
    pub fn serialize(
        &self,
        limits: &mut RateLimitReceiver,
        ports: &mut PortSerializer,
        allocated: Result<u32, String>,
        callback: u64,
    ) -> (r: Result<(TransportedReceiver<T>, RateLimitSender), String>) where T: Clone
        requires
            old(limits).holds(self.receiver_rate_limit),
        ensures
            match allocated {
                Ok(port) => {
                    &&& r matches Ok((sent, place))
                    &&& sent.port == port
                    &&& copied(self.value, sent.data)
                    &&& sent.max_item_size == self.max_item_size
                    &&& sent.rate_limit == old(limits).limit_of(self.receiver_rate_limit)
                    &&& sent.transfer_strategy == self.transfer_strategy
                    &&& old(limits).gained(place, *final(limits))
                    &&& final(limits).limit_of(place) == sent.rate_limit
                    &&& final(ports).requests@ == old(ports).requests@.push((port, callback))
                },
                Err(err) => {
                    &&& r == Err::<(TransportedReceiver<T>, RateLimitSender), String>(err)
                    &&& *final(limits) == (RateLimitReceiver { changed: true, ..*old(limits) })
                    &&& final(ports).requests@ == old(ports).requests@
                },
            },
            lowest(final(limits).limits@) == lowest(old(limits).limits@),
            final(ports).tasks@ == old(ports).tasks@,
    {
        let rate_limit: u128 = self.receiver_rate_limit.get(limits);
        match ports.connect_port(allocated, callback) {
            Ok(port) => {
                let place = self.receiver_rate_limit.duplicate(limits);
                let sent = TransportedReceiver {
                    port,
                    data: copy_of(&self.value),
                    max_item_size: max_item_size_to_wire(self.max_item_size),
                    rate_limit,
                    transfer_strategy: self.transfer_strategy,
                };
                Ok((sent, place))
            },
            Err(err) => {
                limits.changed = true;
                Err(err)
            },
        }
    }

    /// Receives this from another endpoint.
    ///
    /// A failure that arrives instead of a value is one of the remote endpoint. Values
    /// that are sent on from here are not limited again.
    pub fn deserialize(
        transported: TransportedReceiver<T>,
        max_item_size: usize,
        ports: &mut PortDeserializer,
        callback: u64,
    ) -> (r: (Receiver<T>, RateLimitReceiver))
        ensures
            r.0.value == (match transported.data {
                Ok(value) => Ok::<T, RecvError>(value),
                Err(err) => Err(RecvError::Remote(Some(Box::new(err)))),
            }),
            !r.0.unseen,
            !r.0.sender_dropped,
            r.0.max_item_size == max_item_size,
            r.0.remote_max_item_size == Some(local_max_item_size(transported.max_item_size)),
            r.0.sender_rate_limit == 0,
            r.0.transfer_strategy == transported.transfer_strategy,
            r.1.limits@ == seq![Some(transported.rate_limit)],
            r.1.holds(r.0.receiver_rate_limit),
            final(ports).expected@ == old(ports).expected@.insert(transported.port, callback),
            final(ports).tasks@ == old(ports).tasks@,
    {
        let (receiver_rate_limit, limits) = rate_limit_channel(transported.rate_limit);
        ports.accept(transported.port, callback);
        let value = match transported.data {
            Ok(value) => Ok(value),
            Err(err) => Err(RecvError::Remote(Some(Box::new(err)))),
        };
        let receiver = Receiver {
            value,
            unseen: false,
            sender_dropped: false,
            max_item_size,
            remote_max_item_size: Some(max_item_size_from_wire(transported.max_item_size)),
            sender_rate_limit: 0,
            receiver_rate_limit,
            transfer_strategy: transported.transfer_strategy,
        };
        (receiver, limits)
    }

    /// What to report when connecting a receiver that was sent failed.
    pub fn on_connect_failed(err: chmux::ConnectError) -> (r: RemoteSendError)
        ensures
            r == RemoteSendError::Connect(err),
    {
        RemoteSendError::Connect(err)
    }

    /// What is received when accepting the channel failed.
    pub fn on_accept_failed(err: chmux::ListenerError) -> (r: Result<T, RecvError>)
        ensures
            r == Err::<T, RecvError>(RecvError::Listen(err)),
    {
        Err(RecvError::Listen(err))
    }
}

/// The stream of the values of a receiver.
pub struct ReceiverStream<T> {
    /// The receiver.
    pub rx: Receiver<T>,
    /// Whether the first value has been taken.
    pub started: bool,
}

impl<T: Clone> ReceiverStream<T> {
    /// Creates the stream, which starts with the current value.
    pub fn new(rx: Receiver<T>) -> (r: Self)
        ensures
            r == (ReceiverStream { rx, started: false }),
    {
        ReceiverStream { rx, started: false }
    }

    /// Takes the next element; `None` means that there is none yet.
    ///
    /// The stream ends when the sender is gone or nothing more can be received.
    pub fn poll_next(&mut self) -> (r: Option<Option<Result<T, RecvError>>>)
        ensures
            ({
                let ended = is_dead(old(self).rx.value) || !old(self).rx.unseen && old(
                    self,
                ).rx.sender_dropped;
                let ready = !old(self).started || !is_dead(old(self).rx.value) && old(
                    self,
                ).rx.unseen;
                match r {
                    Some(Some(item)) => ready && copied(old(self).rx.value, item),
                    Some(None) => !ready && ended,
                    None => !ready && !ended,
                }
            }),
            final(self).started,
            final(self).rx == (Receiver {
                unseen: old(self).rx.unseen && old(self).started && is_dead(old(self).rx.value),
                ..old(self).rx
            }),
    {
        if self.started {
            match self.rx.changed() {
                None => {
                    return None;
                },
                Some(Err(_)) => {
                    return Some(None);
                },
                Some(Ok(_)) => {},
            }
        }
        self.started = true;
        self.rx.mark_unchanged();
        Some(Some(copy_of(&self.rx.value)))
    }
}

impl<T: Clone> From<Receiver<T>> for ReceiverStream<T> {
    fn from(rx: Receiver<T>) -> (r: Self) {
        ReceiverStream { rx, started: false }
    }
}

impl<T: Clone> vstd::std_specs::convert::FromSpecImpl<Receiver<T>> for ReceiverStream<T> {
    open spec fn obeys_from_spec() -> bool {
        true
    }

    open spec fn from_spec(rx: Receiver<T>) -> ReceiverStream<T> {
        ReceiverStream { rx, started: false }
    }
}

/// Two failures that are the same have the same class and message, and a copy is the same as what
/// it was made of.
pub proof fn law_same_failure(a: RecvError, b: RecvError)
    ensures
        a.same(b) ==> a.spec_is_disconnected() == b.spec_is_disconnected() && a.text() == b.text(),
        a.same(a),
        a.same(b) ==> b.same(a),
    decreases a,
{
    match (a, b) {
        (RecvError::Remote(Some(x)), RecvError::Remote(Some(y))) => {
            law_same_failure(*x, *y);
            law_same_failure(*x, *x);
        },
        (RecvError::Remote(Some(x)), _) => {
            law_same_failure(*x, *x);
        },
        _ => {},
    }
}

/// Nothing follows a failure exactly if connecting or accepting failed, the connection was lost, or
/// an endpoint in between reports such a failure.
pub proof fn law_class_of_watch_receive_failure(err: RecvError, r: bool)
    requires
        call_ensures(RecvError::is_disconnected, (&err,), r),
    ensures
        err is Connect || err is Listen ==> r,
        err matches RecvError::Receive(cause) ==> (r <==> (cause matches base::RecvError::Receive(
            mux,
        ) && (mux is ChMux || mux is Rejected))),
        err == RecvError::Remote(None) ==> !r,
        err matches RecvError::Remote(Some(inner)) ==> r == inner.spec_is_disconnected(),
{
}

/// Looking at the value gives what was received last; only looking and updating marks it as seen.
pub proof fn law_value_is_looked_at<T>(
    before: Receiver<T>,
    after: Receiver<T>,
    borrowed: Result<&T, RecvError>,
    updated: Result<&T, RecvError>,
)
    requires
        call_ensures(Receiver::<T>::borrow, (&before,), borrowed),
        exists|state: &mut Receiver<T>| #[trigger]
            call_ensures(Receiver::<T>::borrow_and_update, (state,), updated) && *state == before
                && *final(state) == after,
    ensures
        before.value matches Ok(value) ==> borrowed == Ok::<&T, RecvError>(&value) && updated == Ok::<
            &T,
            RecvError,
        >(&value),
        before.value is Err ==> borrowed is Err && updated is Err,
        after == (Receiver { unseen: false, ..before }),
{
}

/// Whether the value has changed: asking does not mark it as seen, and it counts as changed exactly
/// while it has not been seen. After the final value was seen a gone sender is reported, and a
/// failure after which nothing follows is reported at once.
pub proof fn law_change_is_found<T>(rx: Receiver<T>, r: Result<bool, ChangedError>)
    requires
        call_ensures(Receiver::<T>::has_changed, (&rx,), r),
    ensures
        rx.value is Ok ==> {
            &&& r == Ok::<bool, ChangedError>(true) <==> rx.unseen
            &&& r == Ok::<bool, ChangedError>(false) <==> !rx.unseen && !rx.sender_dropped
            &&& r == Err::<bool, ChangedError>(ChangedError::Closed) <==> !rx.unseen
                && rx.sender_dropped
        },
        rx.value matches Err(err) ==> {
            &&& err.spec_is_disconnected() <==> (r matches Err(ChangedError::Recv(_)))
            &&& !err.spec_is_disconnected() ==> (r == Ok::<bool, ChangedError>(true) <==> rx.unseen)
        },
{
}

/// Each update is found once: waiting finds one that was not seen and marks it as seen, so that the
/// next wait goes on until there is another one, or ends because the sender is gone.
pub proof fn law_update_is_found_once<T>(
    before: Receiver<T>,
    between: Receiver<T>,
    after: Receiver<T>,
    first: Option<Result<(), ChangedError>>,
    second: Option<Result<(), ChangedError>>,
)
    requires
        exists|state: &mut Receiver<T>| #[trigger]
            call_ensures(Receiver::<T>::changed, (state,), first) && *state == before
                && *final(state) == between,
        exists|state: &mut Receiver<T>| #[trigger]
            call_ensures(Receiver::<T>::changed, (state,), second) && *state == between
                && *final(state) == after,
        before.value matches Err(err) ==> !err.spec_is_disconnected(),
    ensures
        (first matches Some(Ok(_))) <==> before.unseen,
        first is None <==> !before.unseen && !before.sender_dropped,
        (first matches Some(Err(ChangedError::Closed))) <==> !before.unseen
            && before.sender_dropped,
        second is None <==> !before.sender_dropped,
        (second matches Some(Err(ChangedError::Closed))) <==> before.sender_dropped,
        between.value == before.value && after.value == before.value,
        !between.unseen,
{
}

/// A failure after which nothing follows ends every wait.
pub proof fn law_dead_channel_ends_waiting<T>(
    before: Receiver<T>,
    after: Receiver<T>,
    r: Option<Result<(), ChangedError>>,
)
    requires
        exists|state: &mut Receiver<T>| #[trigger]
            call_ensures(Receiver::<T>::changed, (state,), r) && *state == before
                && *final(state) == after,
        before.value matches Err(err) && err.spec_is_disconnected(),
    ensures
        r matches Some(Err(ChangedError::Recv(copy))) && copy.same(before.value->Err_0),
        after == before,
{
}

/// Marking a value as changed or unchanged decides whether the next wait finds it.
pub proof fn law_marks_take_effect<T>(
    before: Receiver<T>,
    marked: Receiver<T>,
    unmarked: Receiver<T>,
    of_marked: Result<bool, ChangedError>,
    of_unmarked: Result<bool, ChangedError>,
)
    requires
        exists|state: &mut Receiver<T>| #[trigger]
            call_ensures(Receiver::<T>::mark_changed, (state,), ()) && *state == before
                && *final(state) == marked,
        exists|state: &mut Receiver<T>| #[trigger]
            call_ensures(Receiver::<T>::mark_unchanged, (state,), ()) && *state == marked
                && *final(state) == unmarked,
        call_ensures(Receiver::<T>::has_changed, (&marked,), of_marked),
        call_ensures(Receiver::<T>::has_changed, (&unmarked,), of_unmarked),
        before.value is Ok,
        !before.sender_dropped,
    ensures
        of_marked == Ok::<bool, ChangedError>(true),
        of_unmarked == Ok::<bool, ChangedError>(false),
        marked.value == before.value && unmarked.value == before.value,
{
}

/// Waiting for a value succeeds only with a value that the predicate accepts; a value that it does
/// not accept ends the wait only if the sender is gone, and a failure always does.
pub proof fn law_awaited_value<T, F: Fn(&T) -> bool>(
    before: Receiver<T>,
    after: Receiver<T>,
    f: F,
    r: Option<Result<(), ChangedError>>,
)
    requires
        exists|state: &mut Receiver<T>| #[trigger]
            call_ensures(Receiver::<T>::wait_for::<F>, (state, f), r) && *state == before
                && *final(state) == after,
    ensures
        before.value matches Ok(value) ==> {
            &&& (r matches Some(Ok(_))) ==> f.ensures((&value,), true)
            &&& !(r matches Some(Ok(_))) ==> f.ensures((&value,), false)
            &&& r is None ==> !before.sender_dropped
            &&& (r matches Some(Err(ChangedError::Closed))) ==> before.sender_dropped
            &&& !(r matches Some(Err(ChangedError::Recv(_))))
        },
        before.value is Err ==> r matches Some(Err(ChangedError::Recv(_))),
        after == (Receiver { unseen: false, ..before }),
{
}

/// The stream gives the current value first and then each update once; it ends when the sender is
/// gone or nothing more can be received.
pub proof fn law_stream_gives_updates<T: Clone>(
    before: ReceiverStream<T>,
    between: ReceiverStream<T>,
    after: ReceiverStream<T>,
    first: Option<Option<Result<T, RecvError>>>,
    second: Option<Option<Result<T, RecvError>>>,
)
    requires
        exists|state: &mut ReceiverStream<T>| #[trigger]
            call_ensures(ReceiverStream::<T>::poll_next, (state,), first) && *state == before
                && *final(state) == between,
        exists|state: &mut ReceiverStream<T>| #[trigger]
            call_ensures(ReceiverStream::<T>::poll_next, (state,), second) && *state == between
                && *final(state) == after,
        before.rx.value is Ok,
    ensures
        (first matches Some(Some(_))) <==> !before.started || before.rx.unseen,
        first matches Some(Some(item)) ==> (item matches Ok(value) && cloned(
            before.rx.value->Ok_0,
            value,
        )),
        first is None <==> before.started && !before.rx.unseen && !before.rx.sender_dropped,
        (first matches Some(None)) <==> before.started && !before.rx.unseen
            && before.rx.sender_dropped,
        second is None <==> !before.rx.sender_dropped,
        (second matches Some(None)) <==> before.rx.sender_dropped,
        after.rx.value == before.rx.value,
{
}

/// A receiver that is received has what was sent: the value, the limits and the strategy. Values are
/// marked as seen.
pub proof fn law_receiver_arrives<T: Clone>(
    rx: Receiver<T>,
    limits: RateLimitReceiver,
    port: u32,
    callback: u64,
    sent: TransportedReceiver<T>,
    place: RateLimitSender,
    max_item_size: usize,
    remote_callback: u64,
    r: (Receiver<T>, RateLimitReceiver),
    requested: u128,
    remote: u128,
)
    requires
        exists|state: &mut RateLimitReceiver, ports: &mut PortSerializer| #[trigger]
            call_ensures(
                Receiver::<T>::serialize,
                (&rx, state, ports, Ok(port), callback),
                Ok((sent, place)),
            ) && *state == limits,
        exists|ports: &mut PortDeserializer| #[trigger]
            call_ensures(
                Receiver::<T>::deserialize,
                (sent, max_item_size, ports, remote_callback),
                r,
            ),
        call_ensures(Receiver::<T>::rate_limit, (&rx, &limits), requested),
        limits.holds(rx.receiver_rate_limit),
        call_ensures(Receiver::<T>::rate_limit, (&r.0, &r.1), remote),
    ensures
        rx.value matches Ok(value) ==> (r.0.value matches Ok(copy) && cloned(value, copy)),
        rx.value matches Err(err) ==> (r.0.value matches Err(RecvError::Remote(Some(copy)))
            && copy.same(err)),
        sent.port == port,
        r.0.max_item_size == max_item_size,
        r.0.remote_max_item_size == Some(rx.max_item_size),
        r.0.transfer_strategy == rx.transfer_strategy,
        remote == requested,
        !r.0.unseen && !r.0.sender_dropped,
{
}

/// Another receiver of the channel sees the same value and requests the same delay.
pub proof fn law_duplicated_receiver<T: Clone>(
    rx: Receiver<T>,
    before: RateLimitReceiver,
    after: RateLimitReceiver,
    r: Receiver<T>,
    requested: u128,
    of_copy: u128,
)
    requires
        exists|state: &mut RateLimitReceiver| #[trigger]
            call_ensures(Receiver::<T>::duplicate, (&rx, state), r) && *state == before && *final(state)
                == after,
        before.holds(rx.receiver_rate_limit),
        call_ensures(Receiver::<T>::rate_limit, (&rx, &before), requested),
        call_ensures(Receiver::<T>::rate_limit, (&r, &after), of_copy),
    ensures
        rx.value matches Ok(value) ==> (r.value matches Ok(copy) && cloned(value, copy)),
        r.unseen == rx.unseen && r.sender_dropped == rx.sender_dropped,
        r.max_item_size == rx.max_item_size,
        of_copy == requested,
        r.receiver_rate_limit.slot != rx.receiver_rate_limit.slot,
{
}

/// A copy of a failure is the same failure, at whatever endpoint it occurred; a failure of
/// receiving is kept when it becomes one of waiting for a change.
pub proof fn law_copied_watch_failure(
    err: RecvError,
    copied: RecvError,
    changed: ChangedError,
    closed: bool,
)
    requires
        call_ensures(<RecvError as Clone>::clone, (&err,), copied),
        call_ensures(<ChangedError as From<RecvError>>::from, (err,), changed),
        call_ensures(ChangedError::is_closed, (&changed,), closed),
    ensures
        err matches RecvError::Connect(inner) ==> copied == RecvError::Connect(inner),
        err matches RecvError::Listen(inner) ==> copied == RecvError::Listen(inner),
        err is Receive <==> copied is Receive,
        err == RecvError::Remote(None) ==> copied == RecvError::Remote(None),
        err matches RecvError::Remote(Some(_)) ==> copied matches RecvError::Remote(Some(_)),
        changed == ChangedError::Recv(err),
        !closed,
{
}

/// What is said of waiting for a change is told by its kind alone.
pub proof fn law_kind_of_changed_error(err: ChangedError, closed: bool)
    requires
        call_ensures(ChangedError::is_closed, (&err,), closed),
    ensures
        closed <==> err is Closed,
{
}

/// A copy of a value is a value and a copy of a failure is a failure.
pub proof fn law_copied_value<T: Clone>(value: Result<T, RecvError>, r: Result<T, RecvError>)
    requires
        call_ensures(copy_of::<T>, (&value,), r),
    ensures
        value matches Ok(original) ==> (r matches Ok(copy) && cloned(original, copy)),
        value is Err <==> r is Err,
{
}

/// The size limit that was set is read back and nothing else of the receiver changes.
pub proof fn law_size_limit_of_a_watch_receiver<T>(
    before: Receiver<T>,
    limit: usize,
    after: Receiver<T>,
    r: (usize, Option<usize>),
)
    requires
        call_ensures(Receiver::<T>::set_max_item_size, (before, limit), after),
        call_ensures(Receiver::<T>::max_item_size, (&after,), r.0),
        call_ensures(Receiver::<T>::remote_max_item_size, (&after,), r.1),
    ensures
        r == (limit, before.remote_max_item_size),
        after == (Receiver { max_item_size: limit, ..before }),
{
}

/// The rate limit that a receiver sets is its own: it changes that of no other holder and nothing
/// of the receiver.
pub proof fn law_rate_limit_of_a_receiver<T>(
    before: Receiver<T>,
    limits: RateLimitReceiver,
    rate_limit: u128,
    after: Receiver<T>,
    limits_after: RateLimitReceiver,
    other: RateLimitSender,
    r: (u128, u128, u128),
)
    requires
        limits.holds(before.receiver_rate_limit),
        limits.holds(other),
        exists|state: &mut Receiver<T>, held: &mut RateLimitReceiver| #[trigger]
            call_ensures(Receiver::<T>::set_rate_limit, (state, held, rate_limit), ()) && *state
                == before && *final(state) == after && *held == limits && *final(held)
                == limits_after,
        call_ensures(RateLimitSender::get, (&before.receiver_rate_limit, &limits_after), r.0),
        call_ensures(RateLimitSender::get, (&other, &limits), r.1),
        call_ensures(RateLimitSender::get, (&other, &limits_after), r.2),
    ensures
        after == before,
        r.0 == rate_limit,
        other.slot != before.receiver_rate_limit.slot ==> r.1 == r.2,
        limits_after.changed,
{
}

/// A receiver that could not be connected makes its sender report that, and one whose request
/// could not be accepted reports that itself.
pub proof fn law_watch_receiver_without_connection<T>(
    connect: chmux::ConnectError,
    listen: chmux::ListenerError,
    r: (RemoteSendError, Result<T, RecvError>),
)
    requires
        call_ensures(Receiver::<T>::on_connect_failed, (connect,), r.0),
        call_ensures(Receiver::<T>::on_accept_failed, (listen,), r.1),
    ensures
        r.0 == RemoteSendError::Connect(connect),
        r.1 == Err::<T, RecvError>(RecvError::Listen(listen)),
{
}

/// A new stream gives out the values of its receiver and has given out none.
pub proof fn law_new_watch_stream<T: Clone>(
    rx: Receiver<T>,
    made: ReceiverStream<T>,
    converted: ReceiverStream<T>,
)
    requires
        call_ensures(ReceiverStream::<T>::new, (rx,), made),
        call_ensures(<ReceiverStream<T> as From<Receiver<T>>>::from, (rx,), converted),
    ensures
        made == converted,
        made.rx == rx && !made.started,
{
}

/// A receiver that is sent requests the port that was allocated, with its callback, and takes a
/// further place among the rate limits, with its own limit; without a port it does neither.
pub proof fn law_port_of_a_sent_receiver<T: Clone>(
    rx: Receiver<T>,
    limits: RateLimitReceiver,
    limits_after: RateLimitReceiver,
    start: PortSerializer,
    after: PortSerializer,
    allocated: Result<u32, String>,
    callback: u64,
    r: Result<(TransportedReceiver<T>, RateLimitSender), String>,
    own: u128,
    placed: u128,
)
    requires
        limits.holds(rx.receiver_rate_limit),
        exists|state: &mut RateLimitReceiver, ports: &mut PortSerializer| #[trigger]
            call_ensures(
                Receiver::<T>::serialize,
                (&rx, state, ports, allocated, callback),
                r,
            ) && *state == limits && *final(state) == limits_after && *ports == start
                && *final(ports) == after,
        call_ensures(RateLimitSender::get, (&rx.receiver_rate_limit, &limits), own),
        r matches Ok((_, place)) ==> call_ensures(
            RateLimitSender::get,
            (&place, &limits_after),
            placed,
        ),
    ensures
        after.tasks@ == start.tasks@,
        allocated matches Err(err) ==> {
            &&& r == Err::<(TransportedReceiver<T>, RateLimitSender), String>(err)
            &&& after.requests@ == start.requests@
            &&& limits_after.limits@ == limits.limits@
        },
        allocated matches Ok(port) ==> {
            &&& after.requests@ == start.requests@.push((port, callback))
            &&& r matches Ok((sent, place)) && sent.rate_limit == own && placed == own
                && place.slot != rx.receiver_rate_limit.slot
        },
{
}

/// A receiver that arrives expects its port with its callback, and holds the only place among
/// its rate limits.
pub proof fn law_port_of_an_arrived_receiver<T>(
    transported: TransportedReceiver<T>,
    max_item_size: usize,
    start: PortDeserializer,
    after: PortDeserializer,
    callback: u64,
    r: (Receiver<T>, RateLimitReceiver),
)
    requires
        exists|ports: &mut PortDeserializer| #[trigger]
            call_ensures(
                Receiver::<T>::deserialize,
                (transported, max_item_size, ports, callback),
                r,
            ) && *ports == start && *final(ports) == after,
    ensures
        after.tasks@ == start.tasks@,
        after.expected@ == start.expected@.insert(transported.port, callback),
        r.0.sender_rate_limit == 0,
        r.1.limits@.len() == 1 && r.0.receiver_rate_limit.slot == 0,
{
}

/// Waiting for a change marks a value that it found as seen and changes nothing else of the
/// receiver.
pub proof fn law_waiting_keeps_the_rest<T>(
    before: Receiver<T>,
    after: Receiver<T>,
    r: Option<Result<(), ChangedError>>,
)
    requires
        exists|state: &mut Receiver<T>| #[trigger]
            call_ensures(Receiver::<T>::changed, (state,), r) && *state == before
                && *final(state) == after,
    ensures
        r matches Some(Ok(_)) ==> before.unseen && after == (Receiver { unseen: false, ..before }),
        !(r matches Some(Ok(_))) ==> after == before,
{
}

/// What is said of a value that was or was not seen does not depend on the value, as long as
/// more can be received.
pub proof fn law_change_of_any_value<T>(rx: Receiver<T>, dead: bool, r: Result<bool, ChangedError>)
    requires
        rx.value matches Err(err) ==> call_ensures(RecvError::is_disconnected, (&err,), dead),
        rx.value is Ok ==> !dead,
        call_ensures(Receiver::<T>::has_changed, (&rx,), r),
    ensures
        (r matches Err(ChangedError::Recv(_))) <==> dead,
        !dead ==> {
            &&& r == Ok::<bool, ChangedError>(true) <==> rx.unseen
            &&& r == Ok::<bool, ChangedError>(false) <==> !rx.unseen && !rx.sender_dropped
            &&& r == Err::<bool, ChangedError>(ChangedError::Closed) <==> !rx.unseen
                && rx.sender_dropped
        },
{
}

} // verus!
