//! The sending half of a watch channel.

use vstd::prelude::*;
use std::collections::VecDeque;
use crate::chmux;
use crate::rch::base;
use crate::rch::base::{PortDeserializer, PortSerializer};
use crate::rch::watch::rate_limit::{
    lowest, rate_limit_channel, RateLimitReceiver, RateLimitSender,
};
use crate::rch::watch::transfer::RecvTask;
use crate::rch::watch::receiver::{Receiver, RecvError};
use crate::rch::watch::TransferStrategy;
use crate::rch::{
    closed_orderly, is_orderly, local_max_item_size, max_item_size_from_wire,
    max_item_size_to_wire, ClosedReason, RemoteSendError, SendErrorExt, DEFAULT_MAX_ITEM_SIZE,
};
use crate::text::concat;

verus! {

/// An error returned when an update cannot be sent.
///
/// Updates are transferred later, so the error can describe an earlier one.
pub enum SendError {
    /// The receiver was dropped or the connection failed.
    Closed,
    /// Encoding or transferring an update failed.
    Send(base::SendErrorKind),
    /// Opening a channel contained in an update failed.
    Connect(chmux::ConnectError),
    /// Accepting a channel failed.
    Listen(chmux::ListenerError),
    /// An endpoint forwarding this channel could not complete the transfer.
    Forward,
}

impl SendError {
    /// The reason for which the channel was closed; an error caused by the value closes nothing.
    pub open spec fn reason(self) -> Option<ClosedReason> {
        match self {
            SendError::Closed => Some(ClosedReason::Dropped),
            SendError::Send(err) => ClosedReason::of_send_error_kind(err),
            SendError::Connect(err) => Some(ClosedReason::of_connect_error(err)),
            SendError::Listen(_) | SendError::Forward => Some(ClosedReason::Failed),
        }
    }

    /// Returns the reason for which the channel was closed, if it was.
    pub fn closed_reason(&self) -> (r: Option<ClosedReason>)
        ensures
            r == self.reason(),
    {
        match self {
            SendError::Closed => Some(ClosedReason::Dropped),
            SendError::Send(err) => ClosedReason::from_send_error_kind(err),
            SendError::Connect(err) => Some(ClosedReason::from_connect_error(err)),
            SendError::Listen(_) | SendError::Forward => Some(ClosedReason::Failed),
        }
    }

    /// Whether no receiver remains.
    pub open spec fn spec_is_closed(self) -> bool {
        is_orderly(self.reason())
    }

    /// Returns whether no receiver remains.
    pub fn is_closed(&self) -> (r: bool)
        ensures
            r == self.spec_is_closed(),
    {
        closed_orderly(self.closed_reason())
    }

    /// Whether the channel can no longer transfer updates.
    pub open spec fn spec_is_disconnected(self) -> bool {
        self matches SendError::Send(err) ==> err.spec_is_disconnected()
    }

    /// Returns whether the channel can no longer transfer updates.
    pub fn is_disconnected(&self) -> (r: bool)
        ensures
            r == self.spec_is_disconnected(),
    {
        match self {
            SendError::Send(err) => err.is_disconnected(),
            SendError::Closed | SendError::Connect(_) | SendError::Listen(_) | SendError::Forward => {
                true
            },
        }
    }

    /// Whether the value caused the error.
    pub open spec fn spec_is_item_specific(self) -> bool {
        self matches SendError::Send(err) && err.spec_is_item_specific()
    }

    /// Returns whether the value caused the error.
    pub fn is_item_specific(&self) -> (r: bool)
        ensures
            r == self.spec_is_item_specific(),
    {
        match self {
            SendError::Send(err) => err.is_item_specific(),
            _ => false,
        }
    }

    /// The message shown to users.
    pub open spec fn text(self) -> Seq<char> {
        match self {
            SendError::Closed => "channel is closed"@,
            SendError::Send(err) => "send error: "@ + err.text(),
            SendError::Connect(err) => "connect error: "@ + err.text(),
            SendError::Listen(err) => "listen error: "@ + err.text(),
            SendError::Forward => "forwarding error"@,
        }
    }

    /// Returns the message shown to users.
    pub fn message(&self) -> (r: String)
        ensures
            r@ == self.text(),
    {
        match self {
            SendError::Closed => String::from_str("channel is closed"),
            SendError::Send(err) => concat("send error: ", err.message().as_str()),
            SendError::Connect(err) => concat("connect error: ", err.message().as_str()),
            SendError::Listen(err) => concat("listen error: ", err.message().as_str()),
            SendError::Forward => String::from_str("forwarding error"),
        }
    }

    /// The error that a published failure means.
    pub open spec fn of_remote(err: RemoteSendError) -> SendError {
        match err {
            RemoteSendError::Send(err) => SendError::Send(err),
            RemoteSendError::Connect(err) => SendError::Connect(err),
            RemoteSendError::Listen(err) => SendError::Listen(err),
            RemoteSendError::Forward => SendError::Forward,
            RemoteSendError::Closed => SendError::Closed,
        }
    }
}

impl SendErrorExt for SendError {
    open spec fn closed(&self) -> bool {
        self.spec_is_closed()
    }

    open spec fn disconnected(&self) -> bool {
        self.spec_is_disconnected()
    }

    open spec fn item_specific(&self) -> bool {
        self.spec_is_item_specific()
    }

    fn is_closed(&self) -> (r: bool) {
        SendError::is_closed(self)
    }

    fn is_disconnected(&self) -> (r: bool) {
        SendError::is_disconnected(self)
    }

    fn is_item_specific(&self) -> (r: bool) {
        SendError::is_item_specific(self)
    }
}

impl From<RemoteSendError> for SendError {
    fn from(err: RemoteSendError) -> (r: Self) {
        match err {
            RemoteSendError::Send(err) => SendError::Send(err),
            RemoteSendError::Connect(err) => SendError::Connect(err),
            RemoteSendError::Listen(err) => SendError::Listen(err),
            RemoteSendError::Forward => SendError::Forward,
            RemoteSendError::Closed => SendError::Closed,
        }
    }
}

impl vstd::std_specs::convert::FromSpecImpl<RemoteSendError> for SendError {
    open spec fn obeys_from_spec() -> bool {
        true
    }

    open spec fn from_spec(err: RemoteSendError) -> SendError {
        SendError::of_remote(err)
    }
}

/// The number of failures before the first one that a value caused.
pub open spec fn harmless(errors: Seq<RemoteSendError>) -> nat
    decreases errors.len(),
{
    if errors.len() == 0 || SendError::of_remote(errors[0]).spec_is_item_specific() {
        0
    } else {
        1 + harmless(errors.drop_first())
    }
}

/// The first failure that a value caused, if there is one.
pub open spec fn check_result(errors: Seq<RemoteSendError>) -> Result<(), SendError> {
    if harmless(errors) < errors.len() {
        Err(SendError::of_remote(errors[harmless(errors) as int]))
    } else {
        Ok(())
    }
}

/// A sender on its way to another endpoint.
pub struct TransportedSender<T> {
    /// Port number.
    pub port: u32,
    /// Current value.
    pub data: Result<T, RecvError>,
    /// Largest value that may be transferred.
    pub max_item_size: u64,
    /// Minimum delay between sending two updates.
    pub sender_rate_limit: u128,
    /// Minimum delay between receiving two updates.
    pub receiver_rate_limit: u128,
    /// How values are transferred.
    pub transfer_strategy: TransferStrategy,
}

/// The sending half of a watch channel.
pub struct Sender<T> {
    /// The value that is watched.
    pub value: T,
    /// Whether no receiver remains.
    pub closed: bool,
    /// Failures that were published and not looked at yet.
    pub errors: VecDeque<RemoteSendError>,
    /// The failure that is reported.
    pub current_err: Option<RemoteSendError>,
    /// Largest value that may be sent.
    pub max_item_size: usize,
    /// Minimum delay between sending two updates.
    pub rate_limit: u128,
    /// The sender's place among the rate limits of the receivers.
    pub receiver_rate_limit: RateLimitSender,
    /// How values are transferred.
    pub transfer_strategy: TransferStrategy,
    /// Whether a task waits to take over the sender.
    pub successor: bool,
}

impl<T> Sender<T> {
    /// The failures that have not been cleared, oldest first.
    pub open spec fn pending_errors(self) -> Seq<RemoteSendError> {
        match self.current_err {
            Some(err) => seq![err] + self.errors@,
            None => self.errors@,
        }
    }

    /// Whether only the record of failures differs from another state.
    pub open spec fn same_but_errors(self, other: Sender<T>) -> bool {
        &&& self.value == other.value
        &&& self.closed == other.closed
        &&& self.max_item_size == other.max_item_size
        &&& self.rate_limit == other.rate_limit
        &&& self.receiver_rate_limit == other.receiver_rate_limit
        &&& self.transfer_strategy == other.transfer_strategy
        &&& self.successor == other.successor
    }

    /// Creates a sender.
    pub fn new(
        value: T,
        max_item_size: usize,
        rate_limit: u128,
        receiver_rate_limit: RateLimitSender,
        transfer_strategy: TransferStrategy,
    ) -> (r: Self)
        ensures
            r.value == value,
            !r.closed,
            r.errors@ == Seq::<RemoteSendError>::empty(),
            r.current_err is None,
            r.max_item_size == max_item_size,
            r.rate_limit == rate_limit,
            r.receiver_rate_limit == receiver_rate_limit,
            r.transfer_strategy == transfer_strategy,
            !r.successor,
    {
        Sender {
            value,
            closed: false,
            errors: VecDeque::new(),
            current_err: None,
            max_item_size,
            rate_limit,
            receiver_rate_limit,
            transfer_strategy,
            successor: false,
        }
    }

    /// Sends a value, notifying all receivers.
    ///
    /// If no receiver remains, the value stays as it was and the failure that was
    /// published first is returned.
    pub fn send(&mut self, value: T) -> (r: Result<(), SendError>)
        ensures
            !old(self).closed ==> r is Ok && *final(self) == (Sender { value, ..*old(self) }),
            old(self).closed ==> {
                let before = old(self).pending_errors();
                &&& r == Err::<(), SendError>(
                    if before.len() > 0 {
                        SendError::of_remote(before[0])
                    } else {
                        SendError::Closed
                    },
                )
                &&& final(self).same_but_errors(*old(self))
                &&& final(self).pending_errors() == before
            },
    {
        if !self.closed {
            self.value = value;
            return Ok(());
        }
        match self.error() {
            Some(err) => Err(err),
            None => Err(SendError::Closed),
        }
    }

    /// Modifies the value and notifies all receivers, even if none remains.
    pub fn send_modify<F: FnOnce(T) -> T>(self, func: F) -> (r: Self)
        requires
            func.requires((self.value,)),
        ensures
            func.ensures((self.value,), r.value),
            r == (Sender { value: r.value, ..self }),
    {
        let value = func(self.value);
        Sender { value, ..self }
    }

    /// Modifies the value, notifying all receivers if the function says so.
    pub fn send_if_modified<F: FnOnce(T) -> (T, bool)>(self, func: F) -> (r: (Self, bool))
        requires
            func.requires((self.value,)),
        ensures
            func.ensures((self.value,), (r.0.value, r.1)),
            r.0 == (Sender { value: r.0.value, ..self }),
    {
        let (value, modified) = func(self.value);
        (Sender { value, ..self }, modified)
    }

    /// Replaces the value and notifies all receivers if the new value differs.
    pub fn send_if_different(&mut self, value: T) -> (r: bool) where T: PartialEq
        ensures
            call_ensures(T::eq, (&old(self).value, &value), !r),
            *final(self) == (if r {
                Sender { value, ..*old(self) }
            } else {
                *old(self)
            }),
    {
        if self.value.eq(&value) {
            false
        } else {
            self.value = value;
            true
        }
    }

    /// Replaces the value, notifying all receivers, and returns the previous one.
    pub fn send_replace(&mut self, value: T) -> (r: T)
        ensures
            r == old(self).value,
            *final(self) == (Sender { value, ..*old(self) }),
    {
        let mut other = value;
        core::mem::swap(&mut self.value, &mut other);
        other
    }

    /// Returns the most recently sent value.
    pub fn borrow(&self) -> (r: &T)
        ensures
            *r == self.value,
    {
        &self.value
    }

    /// Returns whether no receiver remains.
    pub fn is_closed(&self) -> (r: bool)
        ensures
            r == self.closed,
    {
        self.closed
    }

    /// Creates a receiver that starts with the current value.
    pub fn subscribe(&mut self, limits: &mut RateLimitReceiver) -> (r: Receiver<T>) where T: Clone
        requires
            old(limits).holds(old(self).receiver_rate_limit),
        ensures
            *final(self) == (Sender { closed: false, ..*old(self) }),
            r.value matches Ok(value) && cloned(old(self).value, value),
            !r.unseen,
            !r.sender_dropped,
            r.max_item_size == DEFAULT_MAX_ITEM_SIZE,
            r.remote_max_item_size is None,
            r.sender_rate_limit == old(self).rate_limit,
            r.transfer_strategy == old(self).transfer_strategy,
            final(limits).holds(r.receiver_rate_limit),
            !old(limits).holds(r.receiver_rate_limit),
            final(limits).limit_of(r.receiver_rate_limit) == old(limits).limit_of(
                old(self).receiver_rate_limit,
            ),
            lowest(final(limits).limits@) == lowest(old(limits).limits@),
    {
        self.closed = false;
        Receiver {
            value: Ok(self.value.clone()),
            unseen: false,
            sender_dropped: false,
            max_item_size: DEFAULT_MAX_ITEM_SIZE,
            remote_max_item_size: None,
            sender_rate_limit: self.rate_limit,
            receiver_rate_limit: self.receiver_rate_limit.duplicate(limits),
            transfer_strategy: self.transfer_strategy,
        }
    }

    /// Records a failure of sending to a remote endpoint.
    pub fn publish(&mut self, err: RemoteSendError)
        ensures
            final(self).pending_errors() == old(self).pending_errors().push(err),
            final(self).current_err == old(self).current_err,
            final(self).same_but_errors(*old(self)),
    {
        let ghost before = self.pending_errors();
        self.errors.push_back(err);
        assert(self.pending_errors() =~= before.push(err));
    }

    /// Makes the oldest failure the reported one, unless there is one already.
    fn update_error(&mut self)
        ensures
            final(self).pending_errors() == old(self).pending_errors(),
            final(self).current_err is Some <==> old(self).pending_errors().len() > 0,
            final(self).same_but_errors(*old(self)),
            final(self).errors@.len() <= old(self).errors@.len(),
    {
        if self.current_err.is_some() {
            return;
        }
        let ghost before = self.errors@;
        match self.errors.pop_front() {
            Some(err) => {
                self.current_err = Some(err);
                assert(self.pending_errors() =~= before);
            },
            None => {},
        }
    }

    /// Returns the failure of sending to a remote endpoint that was published first, if any.
    pub fn error(&mut self) -> (r: Option<SendError>)
        ensures
            r == (if old(self).pending_errors().len() > 0 {
                Some(SendError::of_remote(old(self).pending_errors()[0]))
            } else {
                None
            }),
            final(self).pending_errors() == old(self).pending_errors(),
            final(self).same_but_errors(*old(self)),
    {
        self.update_error();
        match &self.current_err {
            Some(err) => Some(SendError::from(err.clone())),
            None => None,
        }
    }

    /// Clears the failure that was published first.
    pub fn clear_error(&mut self)
        ensures
            final(self).pending_errors() == (if old(self).pending_errors().len() > 0 {
                old(self).pending_errors().drop_first()
            } else {
                Seq::empty()
            }),
            final(self).same_but_errors(*old(self)),
    {
        let ghost before = self.pending_errors();
        self.update_error();
        self.current_err = None;
        proof {
            if before.len() > 0 {
                assert(self.pending_errors() =~= before.drop_first());
            } else {
                assert(self.pending_errors() =~= Seq::empty());
            }
        }
    }

    /// Checks that no update failed because of its value, clearing other failures.
    pub fn check(&mut self) -> (r: Result<(), SendError>)
        ensures
            r == check_result(old(self).pending_errors()),
            final(self).pending_errors() == old(self).pending_errors().skip(
                harmless(old(self).pending_errors()) as int,
            ),
            final(self).same_but_errors(*old(self)),
    {
        let ghost before = self.pending_errors();
        let ghost mut cleared: nat = 0;
        assert(before.skip(0) =~= before);
        loop
            invariant
                cleared <= before.len(),
                self.pending_errors() == before.skip(cleared as int),
                harmless(before) == cleared + harmless(before.skip(cleared as int)),
                self.same_but_errors(*old(self)),
                before == old(self).pending_errors(),
            decreases self.pending_errors().len(),
        {
            let ghost rest = self.pending_errors();
            match self.error() {
                Some(err) => {
                    if err.is_item_specific() {
                        return Err(err);
                    }
                    self.clear_error();
                    proof {
                        assert(rest.drop_first() =~= before.skip(cleared as int + 1));
                        cleared = cleared + 1;
                    }
                },
                None => {
                    return Ok(());
                },
            }
        }
    }

    /// Returns the maximum size of a value.
    pub fn max_item_size(&self) -> (r: usize)
        ensures
            r == self.max_item_size,
    {
        self.max_item_size
    }

    /// Sets the maximum size of a value.
    pub fn set_max_item_size(&mut self, max_item_size: usize)
        ensures
            *final(self) == (Sender { max_item_size, ..*old(self) }),
    {
        self.max_item_size = max_item_size;
    }

    /// Returns the minimum delay between sending two updates.
    pub fn rate_limit(&self) -> (r: u128)
        ensures
            r == self.rate_limit,
    {
        self.rate_limit
    }

    /// Sets the minimum delay between sending two updates.
    pub fn set_rate_limit(&mut self, rate_limit: u128)
        ensures
            *final(self) == (Sender { rate_limit, ..*old(self) }),
    {
        self.rate_limit = rate_limit;
    }

    /// Sends this to another endpoint.
    ///
    /// The task that waits for the connection takes over the sender when it is dropped.
    /// `allocated` is what came of allocating the port.
    pub fn serialize(
        &mut self,
        limits: &RateLimitReceiver,
        ports: &mut PortSerializer,
        allocated: Result<u32, String>,
        callback: u64,
    ) -> (r: Result<TransportedSender<T>, String>) where T: Clone
        ensures
            *final(self) == (Sender { successor: true, ..*old(self) }),
            match allocated {
                Ok(port) => {
                    &&& r matches Ok(sent)
                    &&& sent.port == port
                    &&& sent.data matches Ok(value) && cloned(old(self).value, value)
                    &&& sent.max_item_size == old(self).max_item_size
                    &&& sent.sender_rate_limit == old(self).rate_limit
                    &&& sent.receiver_rate_limit == lowest(limits.limits@)
                    &&& sent.transfer_strategy == old(self).transfer_strategy
                    &&& final(ports).requests@ == old(ports).requests@.push((port, callback))
                },
                Err(err) => {
                    &&& r == Err::<TransportedSender<T>, String>(err)
                    &&& final(ports).requests@ == old(ports).requests@
                },
            },
            final(ports).tasks@ == old(ports).tasks@,
    {
        let receiver_rate_limit: u128 = limits.get();
        self.successor = true;
        match ports.connect_port(allocated, callback) {
            Ok(port) => Ok(
                TransportedSender {
                    port,
                    data: Ok(self.value.clone()),
                    max_item_size: max_item_size_to_wire(self.max_item_size),
                    sender_rate_limit: self.rate_limit,
                    receiver_rate_limit,
                    transfer_strategy: self.transfer_strategy,
                },
            ),
            Err(err) => Err(err),
        }
    }

    /// Receives this from another endpoint; a failure in place of the value is refused.
    ///
    /// The third part of the result belongs to the task that sends the values: with it, it
    /// requests the delay that the remote endpoint asks for.
    pub fn deserialize(
        transported: TransportedSender<T>,
        ports: &mut PortDeserializer,
        callback: u64,
    ) -> (r: Result<(Sender<T>, RateLimitReceiver, RateLimitSender), String>)
        ensures
            match transported.data {
                Err(_) => {
                    &&& r matches Err(msg) && msg@ == "received watch data with error"@
                    &&& final(ports).expected@ == old(ports).expected@
                },
                Ok(value) => {
                    &&& r matches Ok((sender, limits, place))
                    &&& sender.value == value
                    &&& !sender.closed
                    &&& sender.pending_errors() == Seq::<RemoteSendError>::empty()
                    &&& sender.max_item_size == local_max_item_size(transported.max_item_size)
                    &&& sender.rate_limit == transported.sender_rate_limit
                    &&& sender.transfer_strategy == transported.transfer_strategy
                    &&& !sender.successor
                    &&& limits.holds(sender.receiver_rate_limit)
                    &&& limits.limit_of(sender.receiver_rate_limit)
                        == transported.receiver_rate_limit
                    &&& limits.holds(place)
                    &&& place != sender.receiver_rate_limit
                    &&& limits.limit_of(place) == transported.receiver_rate_limit
                    &&& forall|other: RateLimitSender| #[trigger]
                        limits.holds(other) ==> other == place || other
                            == sender.receiver_rate_limit
                    &&& lowest(limits.limits@) == transported.receiver_rate_limit
                    &&& final(ports).expected@ == old(ports).expected@.insert(
                        transported.port,
                        callback,
                    )
                },
            },
            final(ports).tasks@ == old(ports).tasks@,
    {
        let max_item_size: usize = max_item_size_from_wire(transported.max_item_size);
        let value = match transported.data {
            Ok(value) => value,
            Err(_) => {
                return Err(String::from_str("received watch data with error"));
            },
        };
        let (place, mut limits) = rate_limit_channel(transported.receiver_rate_limit);
        proof {
            reveal_with_fuel(crate::rch::watch::rate_limit::lowest_held, 2);
            assert(limits.limits@.drop_last() =~= Seq::empty());
        }
        let receiver_rate_limit = place.duplicate(&mut limits);
        ports.accept(transported.port, callback);
        let sender = Sender::new(
            value,
            max_item_size,
            transported.sender_rate_limit,
            receiver_rate_limit,
            transported.transfer_strategy,
        );
        Ok((sender, limits, place))
    }

    /// What is received when connecting a sender that was sent failed.
    pub fn on_connect_failed(err: chmux::ConnectError) -> (r: Result<T, RecvError>)
        ensures
            r == Err::<T, RecvError>(RecvError::Connect(err)),
    {
        Err(RecvError::Connect(err))
    }

    /// What to report when accepting the channel of a sender failed.
    pub fn on_accept_failed(err: chmux::ListenerError) -> (r: RemoteSendError)
        ensures
            r == RemoteSendError::Listen(err),
    {
        RemoteSendError::Listen(err)
    }

    /// Drops the sender; returns it for the task that waits to take it over, if there is one.
    ///
    /// Otherwise its place among the rate limits is given up.
    pub fn drop(self, limits: &mut RateLimitReceiver) -> (r: Option<Sender<T>>)
        requires
            old(limits).holds(self.receiver_rate_limit),
        ensures
            self.successor ==> r == Some(Sender { successor: false, ..self }) && *final(limits)
                == *old(limits),
            !self.successor ==> {
                &&& r is None
                &&& final(limits).limits@ == old(limits).limits@.update(
                    self.receiver_rate_limit.slot as int,
                    None,
                )
                &&& final(limits).changed
            },
    {
        if self.successor {
            Some(Sender { successor: false, ..self })
        } else {
            self.receiver_rate_limit.drop(limits);
            None
        }
    }

    /// Takes over a dropped sender for receiving its values from the remote endpoint.
    ///
    /// From then on only the delays that receivers request count. Returns the task that
    /// receives the values and the failures that it has yet to report.
    pub fn take_over(self, limits: &mut RateLimitReceiver) -> (r: (
        RecvTask,
        VecDeque<RemoteSendError>,
    ))
        requires
            old(limits).holds(self.receiver_rate_limit),
        ensures
            r.0 == (RecvTask { current_err: self.current_err is Some, rate_limit: None }),
            r.1@ == self.errors@,
            final(limits).limits@ == old(limits).limits@.update(
                self.receiver_rate_limit.slot as int,
                None,
            ),
            final(limits).changed,
    {
        self.receiver_rate_limit.drop(limits);
        (RecvTask::new(&self.current_err), self.errors)
    }
}

/// Checking finds a failure caused by a value if and only if one was published, and the one
/// that it finds was published before any other such failure.
pub proof fn law_check_finds_first(errors: Seq<RemoteSendError>, i: int)
    requires
        0 <= i < errors.len(),
    ensures
        SendError::of_remote(errors[i]).spec_is_item_specific() ==> check_result(errors) is Err
            && harmless(errors) <= i,
        check_result(errors) matches Err(err) ==> err.spec_is_item_specific() && err
            == SendError::of_remote(errors[harmless(errors) as int]),
    decreases errors.len(),
{
    if !SendError::of_remote(errors[0]).spec_is_item_specific() {
        let rest = errors.drop_first();
        if i > 0 {
            law_check_finds_first(rest, i - 1);
        } else if rest.len() > 0 {
            law_check_finds_first(rest, 0);
        }
    }
}

/// Checking succeeds exactly if no failure was caused by a value, and otherwise finds the first such
/// one.
pub proof fn lemma_check_result(errors: Seq<RemoteSendError>)
    ensures
        check_result(errors) is Ok <==> forall|i: int|
            0 <= i < errors.len() ==> (#[trigger] errors[i] matches RemoteSendError::Send(kind)
                ==> kind is Send),
        check_result(errors) matches Err(err) ==> (err matches SendError::Send(kind) && !(kind
            is Send)),
        harmless(errors) <= errors.len(),
        forall|i: int|
            0 <= i < harmless(errors) ==> (#[trigger] errors[i] matches RemoteSendError::Send(kind)
                ==> kind is Send),
    decreases errors.len(),
{
    if errors.len() > 0 && !SendError::of_remote(errors[0]).spec_is_item_specific() {
        let rest = errors.drop_first();
        lemma_check_result(rest);
        assert(forall|i: int| 0 < i < errors.len() ==> #[trigger] errors[i] == rest[i - 1]);
        assert(forall|i: int| 0 <= i < rest.len() ==> #[trigger] rest[i] == errors[i + 1]);
    }
}

/// A value is sent exactly as long as a receiver remains; it then is the value that is watched, and
/// otherwise the value stays as it was.
pub proof fn law_value_is_sent_while_watched<T>(
    before: Sender<T>,
    after: Sender<T>,
    value: T,
    r: Result<(), SendError>,
    seen: &T,
)
    requires
        exists|state: &mut Sender<T>| #[trigger]
            call_ensures(Sender::<T>::send, (state, value), r) && *state == before
                && *final(state) == after,
        call_ensures(Sender::<T>::borrow, (&after,), seen),
    ensures
        r is Ok <==> !before.closed,
        !before.closed ==> *seen == value,
        before.closed ==> *seen == before.value,
        before.closed && before.current_err is None && before.errors@.len() == 0 ==> r == Err::<
            (),
            SendError,
        >(SendError::Closed),
        after.closed == before.closed,
        after.max_item_size == before.max_item_size,
        after.rate_limit == before.rate_limit,
{
}

/// Failures are reported in the order in which they were published, each until it is cleared.
pub proof fn law_failures_are_reported_in_order<T>(
    before: Sender<T>,
    after: Sender<T>,
    cleared: Sender<T>,
    next: Option<SendError>,
    r: Option<SendError>,
)
    requires
        exists|state: &mut Sender<T>| #[trigger]
            call_ensures(Sender::<T>::error, (state,), r) && *state == before
                && *final(state) == after,
        exists|state: &mut Sender<T>| #[trigger]
            call_ensures(Sender::<T>::clear_error, (state,), ()) && *state == after
                && *final(state) == cleared,
        exists|state: &mut Sender<T>| #[trigger]
            call_ensures(Sender::<T>::error, (state,), next) && *state == cleared,
    ensures
        ({
            let first = match before.current_err {
                Some(err) => Some(err),
                None => if before.errors@.len() > 0 {
                    Some(before.errors@[0])
                } else {
                    None
                },
            };
            let rest = if before.current_err is None && before.errors@.len() > 0 {
                before.errors@.drop_first()
            } else {
                before.errors@
            };
            &&& first is None <==> r is None
            &&& first matches Some(err) ==> (r matches Some(reported) && means(err, reported))
            &&& rest.len() == 0 <==> next is None
            &&& rest.len() > 0 ==> (next matches Some(reported) && means(rest[0], reported))
        }),
        after.value == before.value && cleared.value == before.value,
        after.closed == before.closed && cleared.closed == before.closed,
{
    let pending = before.pending_errors();
    if before.current_err is Some {
        assert(pending.drop_first() =~= before.errors@);
    }
}

/// Whether an error of the sender stands for a published failure.
pub open spec fn means(published: RemoteSendError, reported: SendError) -> bool {
    match (published, reported) {
        (RemoteSendError::Send(a), SendError::Send(b)) => a == b,
        (RemoteSendError::Connect(a), SendError::Connect(b)) => a == b,
        (RemoteSendError::Listen(a), SendError::Listen(b)) => a == b,
        (RemoteSendError::Forward, SendError::Forward) => true,
        (RemoteSendError::Closed, SendError::Closed) => true,
        _ => false,
    }
}

/// A failure that is published comes behind those published before and hides none of them.
pub proof fn law_published_failure_is_last<T>(
    before: Sender<T>,
    after: Sender<T>,
    err: RemoteSendError,
    first: Option<SendError>,
)
    requires
        exists|state: &mut Sender<T>| #[trigger]
            call_ensures(Sender::<T>::publish, (state, err), ()) && *state == before
                && *final(state) == after,
        exists|state: &mut Sender<T>| #[trigger]
            call_ensures(Sender::<T>::error, (state,), first) && *state == after,
    ensures
        before.current_err matches Some(known) ==> (first matches Some(reported) && means(
            known,
            reported,
        )),
        before.current_err is None && before.errors@.len() > 0 ==> (first matches Some(reported)
            && means(before.errors@[0], reported)),
        before.current_err is None && before.errors@.len() == 0 ==> (first matches Some(reported)
            && means(err, reported)),
        after.value == before.value,
        after.closed == before.closed,
{
}

/// Checking succeeds exactly if no failure was caused by a value, that is by encoding it or by its
/// size.
pub proof fn law_check_is_about_values<T>(
    before: Sender<T>,
    after: Sender<T>,
    r: Result<(), SendError>,
)
    requires
        exists|state: &mut Sender<T>| #[trigger]
            call_ensures(Sender::<T>::check, (state,), r) && *state == before
                && *final(state) == after,
    ensures
        r is Ok <==> (before.current_err matches Some(RemoteSendError::Send(kind)) ==> kind is Send)
            && (forall|i: int|
            0 <= i < before.errors@.len() ==> (
            #[trigger] before.errors@[i] matches RemoteSendError::Send(kind) ==> kind is Send)),
        r matches Err(err) ==> (err matches SendError::Send(kind) && (kind is Serialize || kind
            is MaxItemSizeExceeded)),
        r is Ok ==> after.current_err is None && after.errors@.len() == 0,
        after.value == before.value,
        after.closed == before.closed,
{
    let pending = before.pending_errors();
    lemma_check_result(pending);
    if let Some(err) = before.current_err {
        assert(pending[0] == err);
        assert(forall|i: int|
            0 <= i < before.errors@.len() ==> pending[i + 1] == #[trigger] before.errors@[i]);
        assert(forall|i: int| 0 < i < pending.len() ==> #[trigger] pending[i] == before.errors@[i
            - 1]);
    }
    if r is Ok {
        assert(after.pending_errors().len() == 0);
    }
}

/// Replacing the value gives back the previous one; a value that is not different is not replaced.
pub proof fn law_replaced_value<T: PartialEq>(
    before: Sender<T>,
    after: Sender<T>,
    value: T,
    previous: T,
    kept: Sender<T>,
    different: bool,
)
    requires
        exists|state: &mut Sender<T>| #[trigger]
            call_ensures(Sender::<T>::send_replace, (state, value), previous) && *state == before
                && *final(state) == after,
        exists|state: &mut Sender<T>| #[trigger]
            call_ensures(Sender::<T>::send_if_different, (state, value), different) && *state == before
                && *final(state) == kept,
    ensures
        previous == before.value,
        after.value == value,
        after == (Sender { value, ..before }),
        different ==> kept == after,
        !different ==> kept == before,
        call_ensures(T::eq, (&before.value, &value), !different),
{
}

/// A sender that is received has what was sent: the value, the limits and the strategy.
pub proof fn law_sender_arrives<T: Clone>(
    before: Sender<T>,
    after: Sender<T>,
    limits: RateLimitReceiver,
    port: u32,
    callback: u64,
    sent: TransportedSender<T>,
    arrived: TransportedSender<T>,
    remote_callback: u64,
    r: (Sender<T>, RateLimitReceiver, RateLimitSender),
    remote_limit: u128,
    limit: u128,
)
    requires
        exists|state: &mut Sender<T>, ports: &mut PortSerializer| #[trigger]
            call_ensures(
                Sender::<T>::serialize,
                (state, &limits, ports, Ok(port), callback),
                Ok(sent),
            ) && *state == before && *final(state) == after,
        arrived == (TransportedSender { data: Ok(sent.data->Ok_0), ..sent }),
        exists|ports: &mut PortDeserializer| #[trigger]
            call_ensures(Sender::<T>::deserialize, (arrived, ports, remote_callback), Ok(r)),
        call_ensures(RateLimitReceiver::get, (&limits,), limit),
        call_ensures(RateLimitReceiver::get, (&r.1,), remote_limit),
    ensures
        cloned(before.value, r.0.value),
        r.0.max_item_size == before.max_item_size,
        r.0.rate_limit == before.rate_limit,
        r.0.transfer_strategy == before.transfer_strategy,
        remote_limit == limit,
        sent.port == port,
        after.successor && !r.0.successor && !r.0.closed,
        after.value == before.value,
{
}

/// A dropped sender is handed over exactly if a task waits for it.
pub proof fn law_dropped_sender_is_handed_over<T>(
    sender: Sender<T>,
    before: RateLimitReceiver,
    after: RateLimitReceiver,
    r: Option<Sender<T>>,
)
    requires
        exists|state: &mut RateLimitReceiver| #[trigger]
            call_ensures(Sender::<T>::drop, (sender, state), r) && *state == before && *final(state)
                == after,
    ensures
        r is Some <==> sender.successor,
        r matches Some(handed) ==> handed == (Sender { successor: false, ..sender }) && after
            == before,
        r is None ==> after.changed,
{
}

/// The class of an error: only one that a value caused leaves the channel usable, and it is closed
/// if the receiver went away in an orderly manner.
pub proof fn law_class_of_watch_send_error(
    err: SendError,
    reason: Option<ClosedReason>,
    closed: bool,
    disconnected: bool,
    item_specific: bool,
)
    requires
        call_ensures(SendError::closed_reason, (&err,), reason),
        call_ensures(SendError::is_closed, (&err,), closed),
        call_ensures(SendError::is_disconnected, (&err,), disconnected),
        call_ensures(SendError::is_item_specific, (&err,), item_specific),
    ensures
        item_specific <==> (err matches SendError::Send(kind) && !(kind is Send)),
        disconnected != item_specific,
        reason is Some <==> disconnected,
        closed <==> reason == Some(ClosedReason::Closed) || reason == Some(ClosedReason::Dropped),
        err is Closed ==> reason == Some(ClosedReason::Dropped),
        err is Listen || err is Forward ==> reason == Some(ClosedReason::Failed),
        err is Connect ==> (reason == Some(ClosedReason::Dropped) <==> err == SendError::Connect(
            chmux::ConnectError::Rejected,
        )),
{
}

/// A new sender holds its value and its settings, no failure was published to it, and it is
/// watched.
pub proof fn law_new_watch_sender<T>(
    value: T,
    size: usize,
    rate_limit: u128,
    holder: RateLimitSender,
    strategy: TransferStrategy,
    new: Sender<T>,
    r: (usize, u128),
)
    requires
        call_ensures(Sender::<T>::new, (value, size, rate_limit, holder, strategy), new),
        call_ensures(Sender::<T>::max_item_size, (&new,), r.0),
        call_ensures(Sender::<T>::rate_limit, (&new,), r.1),
    ensures
        r == (size, rate_limit),
        new.value == value,
        !new.closed && new.errors@.len() == 0 && new.current_err is None && !new.successor,
        new.receiver_rate_limit == holder && new.transfer_strategy == strategy,
{
}

/// What is set at a sender is read back, and nothing else of it changes.
pub proof fn law_settings_of_a_watch_sender<T>(
    before: Sender<T>,
    limit: usize,
    rate_limit: u128,
    limited: Sender<T>,
    slowed: Sender<T>,
    r: (usize, u128),
)
    requires
        exists|state: &mut Sender<T>| #[trigger]
            call_ensures(Sender::<T>::set_max_item_size, (state, limit), ()) && *state == before
                && *final(state) == limited,
        exists|state: &mut Sender<T>| #[trigger]
            call_ensures(Sender::<T>::set_rate_limit, (state, rate_limit), ()) && *state == before
                && *final(state) == slowed,
        call_ensures(Sender::<T>::max_item_size, (&limited,), r.0),
        call_ensures(Sender::<T>::rate_limit, (&slowed,), r.1),
    ensures
        r == (limit, rate_limit),
        limited == (Sender { max_item_size: limit, ..before }),
        slowed == (Sender { rate_limit, ..before }),
{
}

/// A function that changes the value is applied to the value and its result becomes the value;
/// whether it says that it changed anything is passed on.
pub proof fn law_changed_value<T, F: FnOnce(T) -> T, G: FnOnce(T) -> (T, bool)>(
    before: Sender<T>,
    change: F,
    decide: G,
    changed: Sender<T>,
    decided: (Sender<T>, bool),
)
    requires
        call_ensures(Sender::<T>::send_modify::<F>, (before, change), changed),
        call_ensures(Sender::<T>::send_if_modified::<G>, (before, decide), decided),
    ensures
        call_ensures(change, (before.value,), changed.value),
        changed == (Sender { value: changed.value, ..before }),
        call_ensures(decide, (before.value,), (decided.0.value, decided.1)),
        decided.0 == (Sender { value: decided.0.value, ..before }),
{
}

/// A further receiver starts with the current value, which it has seen, and makes the channel
/// open again. It has a rate limit of its own, equal to that of the sender's end, which leaves
/// the combined limit as it was.
pub proof fn law_further_receiver<T: Clone>(
    before: Sender<T>,
    limits: RateLimitReceiver,
    after: Sender<T>,
    limits_after: RateLimitReceiver,
    r: Receiver<T>,
    combined: (u128, u128),
    own: (u128, u128),
)
    requires
        limits.holds(before.receiver_rate_limit),
        exists|state: &mut Sender<T>, held: &mut RateLimitReceiver| #[trigger]
            call_ensures(Sender::<T>::subscribe, (state, held), r) && *state == before
                && *final(state) == after && *held == limits && *final(held) == limits_after,
        call_ensures(RateLimitReceiver::get, (&limits,), combined.0),
        call_ensures(RateLimitReceiver::get, (&limits_after,), combined.1),
        call_ensures(RateLimitSender::get, (&before.receiver_rate_limit, &limits), own.0),
        call_ensures(RateLimitSender::get, (&r.receiver_rate_limit, &limits_after), own.1),
    ensures
        after == (Sender { closed: false, ..before }),
        r.value matches Ok(value) && cloned(before.value, value),
        !r.unseen && !r.sender_dropped,
        r.max_item_size == 16_777_216 && r.remote_max_item_size is None,
        r.sender_rate_limit == before.rate_limit,
        r.transfer_strategy == before.transfer_strategy,
        r.receiver_rate_limit.slot != before.receiver_rate_limit.slot,
        combined.0 == combined.1,
        own.0 == own.1,
{
}

/// A sender that could not be connected makes its receiver report that, and one whose request
/// could not be accepted reports that itself.
pub proof fn law_watch_sender_without_connection<T>(
    connect: chmux::ConnectError,
    listen: chmux::ListenerError,
    r: (Result<T, RecvError>, RemoteSendError),
)
    requires
        call_ensures(Sender::<T>::on_connect_failed, (connect,), r.0),
        call_ensures(Sender::<T>::on_accept_failed, (listen,), r.1),
    ensures
        r.0 == Err::<T, RecvError>(RecvError::Connect(connect)),
        r.1 == RemoteSendError::Listen(listen),
{
}

/// A sender that is sent requests the port that was allocated, with its callback, and without one
/// it requests none; in either case nothing of it changes but that a task waits for it.
pub proof fn law_port_of_a_sent_sender<T: Clone>(
    before: Sender<T>,
    after: Sender<T>,
    limits: RateLimitReceiver,
    start: PortSerializer,
    end: PortSerializer,
    allocated: Result<u32, String>,
    callback: u64,
    r: Result<TransportedSender<T>, String>,
)
    requires
        exists|state: &mut Sender<T>, ports: &mut PortSerializer| #[trigger]
            call_ensures(
                Sender::<T>::serialize,
                (state, &limits, ports, allocated, callback),
                r,
            ) && *state == before && *final(state) == after && *ports == start && *final(ports)
                == end,
    ensures
        after == (Sender { successor: true, ..before }),
        end.tasks@ == start.tasks@,
        allocated matches Err(err) ==> r == Err::<TransportedSender<T>, String>(err)
            && end.requests@ == start.requests@,
        allocated matches Ok(port) ==> r is Ok && end.requests@ == start.requests@.push(
            (port, callback),
        ),
{
}

/// A sender arrives exactly if it came with a value. It then expects its port with its callback,
/// no failure was published to it, and the two places among its rate limits hold the limit that
/// it came with.
pub proof fn law_port_of_an_arrived_sender<T>(
    transported: TransportedSender<T>,
    start: PortDeserializer,
    after: PortDeserializer,
    callback: u64,
    r: Result<(Sender<T>, RateLimitReceiver, RateLimitSender), String>,
    own: u128,
    placed: u128,
)
    requires
        exists|ports: &mut PortDeserializer| #[trigger]
            call_ensures(Sender::<T>::deserialize, (transported, ports, callback), r) && *ports
                == start && *final(ports) == after,
        r matches Ok((sender, limits, place)) ==> {
            &&& call_ensures(RateLimitSender::get, (&sender.receiver_rate_limit, &limits), own)
            &&& call_ensures(RateLimitSender::get, (&place, &limits), placed)
        },
    ensures
        r is Ok <==> transported.data is Ok,
        after.tasks@ == start.tasks@,
        r matches Err(msg) ==> msg@ == "received watch data with error"@ && after.expected@
            == start.expected@,
        r matches Ok((sender, limits, place)) ==> {
            &&& after.expected@ == start.expected@.insert(transported.port, callback)
            &&& sender.errors@.len() == 0 && sender.current_err is None
            &&& own == transported.receiver_rate_limit && placed == own
            &&& place.slot != sender.receiver_rate_limit.slot
        },
{
    if let Ok((sender, limits, place)) = r {
        assert(sender.pending_errors().len() == 0);
    }
}

/// A sender that is given up, or taken over by a task, gives up its place among the rate limits
/// and leaves those of the others. The task knows whether a failure was found and gets those
/// that were not looked at.
pub proof fn law_place_is_given_up<T>(
    sender: Sender<T>,
    before: RateLimitReceiver,
    dropped: RateLimitReceiver,
    handed: Option<Sender<T>>,
    taken: RateLimitReceiver,
    r: (RecvTask, VecDeque<RemoteSendError>),
    other: RateLimitSender,
    limits: (u128, u128, u128),
)
    requires
        !sender.successor,
        before.holds(sender.receiver_rate_limit),
        before.holds(other),
        other.slot != sender.receiver_rate_limit.slot,
        exists|state: &mut RateLimitReceiver| #[trigger]
            call_ensures(Sender::<T>::drop, (sender, state), handed) && *state == before
                && *final(state) == dropped,
        exists|state: &mut RateLimitReceiver| #[trigger]
            call_ensures(Sender::<T>::take_over, (sender, state), r) && *state == before
                && *final(state) == taken,
        call_ensures(RateLimitSender::get, (&other, &before), limits.0),
        call_ensures(RateLimitSender::get, (&other, &dropped), limits.1),
        call_ensures(RateLimitSender::get, (&other, &taken), limits.2),
    ensures
        handed is None,
        limits.0 == limits.1 && limits.0 == limits.2,
        dropped.limits@[sender.receiver_rate_limit.slot as int] is None,
        taken.limits@[sender.receiver_rate_limit.slot as int] is None,
        dropped.changed && taken.changed,
        r.0.current_err <==> sender.current_err is Some,
        r.0.rate_limit is None,
        r.1@ == sender.errors@,
{
}

/// Looking for failures, clearing them, checking and publishing change the record of failures and
/// nothing else of the sender; whether it is closed is told by the sender.
pub proof fn law_failures_keep_the_rest<T>(
    before: Sender<T>,
    err: RemoteSendError,
    published: Sender<T>,
    looked: Sender<T>,
    found: Option<SendError>,
    cleared: Sender<T>,
    checked: Sender<T>,
    result: Result<(), SendError>,
    closed: bool,
)
    requires
        exists|state: &mut Sender<T>| #[trigger]
            call_ensures(Sender::<T>::publish, (state, err), ()) && *state == before
                && *final(state) == published,
        exists|state: &mut Sender<T>| #[trigger]
            call_ensures(Sender::<T>::error, (state,), found) && *state == before
                && *final(state) == looked,
        exists|state: &mut Sender<T>| #[trigger]
            call_ensures(Sender::<T>::clear_error, (state,), ()) && *state == before
                && *final(state) == cleared,
        exists|state: &mut Sender<T>| #[trigger]
            call_ensures(Sender::<T>::check, (state,), result) && *state == before
                && *final(state) == checked,
        call_ensures(Sender::<T>::is_closed, (&before,), closed),
    ensures
        closed == before.closed,
        published == (Sender {
            errors: published.errors,
            current_err: published.current_err,
            ..before
        }),
        looked == (Sender { errors: looked.errors, current_err: looked.current_err, ..before }),
        cleared == (Sender { errors: cleared.errors, current_err: cleared.current_err, ..before }),
        checked == (Sender { errors: checked.errors, current_err: checked.current_err, ..before }),
        published.current_err == before.current_err,
{
}

/// What is said of an error does not depend on how it is asked.
pub proof fn law_class_by_trait_of_watch_error(
    err: SendError,
    r: (bool, bool, bool),
    by_trait: (bool, bool, bool),
)
    requires
        call_ensures(SendError::is_closed, (&err,), r.0),
        call_ensures(SendError::is_disconnected, (&err,), r.1),
        call_ensures(SendError::is_item_specific, (&err,), r.2),
        call_ensures(<SendError as SendErrorExt>::is_closed, (&err,), by_trait.0),
        call_ensures(<SendError as SendErrorExt>::is_disconnected, (&err,), by_trait.1),
        call_ensures(<SendError as SendErrorExt>::is_item_specific, (&err,), by_trait.2),
    ensures
        by_trait == r,
{
}

/// A send that is refused leaves every failure to be reported again.
pub proof fn law_refused_send_keeps_failures<T>(
    before: Sender<T>,
    value: T,
    after: Sender<T>,
    r: Result<(), SendError>,
    first: Option<SendError>,
    again: Option<SendError>,
)
    requires
        before.closed,
        exists|state: &mut Sender<T>| #[trigger]
            call_ensures(Sender::<T>::send, (state, value), r) && *state == before
                && *final(state) == after,
        exists|state: &mut Sender<T>| #[trigger]
            call_ensures(Sender::<T>::error, (state,), first) && *state == before,
        exists|state: &mut Sender<T>| #[trigger]
            call_ensures(Sender::<T>::error, (state,), again) && *state == after,
    ensures
        again == first,
        first matches Some(err) ==> r == Err::<(), SendError>(err),
        first is None ==> r == Err::<(), SendError>(SendError::Closed),
        after.value == before.value,
        first is None <==> before.current_err is None && before.errors@.len() == 0,
{
}

} // verus!
