//! The sending half of the channel of which exactly one half is sent.

use vstd::prelude::*;
use crate::chmux;
use crate::codec::SerializationError;
use crate::rch::base;
use crate::rch::base::{PortDeserializer, PortSerializer};
use crate::rch::lr::{on_its_way, Transported};
use crate::rch::{
    local_max_item_size, max_item_size_from_wire, max_item_size_to_wire, Confirmation,
    ConnectError, Interlock, Location, SendErrorExt,
};
use crate::text::concat;

verus! {

/// The reason a send failed.
pub enum SendErrorKind {
    /// The codec could not encode the value.
    Serialize(SerializationError),
    /// Transferring the encoded value failed.
    Send(chmux::SendError),
    /// Connecting the channel failed.
    Connect(ConnectError),
    /// The encoded value exceeds the item size limit.
    MaxItemSizeExceeded,
}

impl SendErrorKind {
    /// The message shown to users.
    pub open spec fn text(self) -> Seq<char> {
        match self {
            SendErrorKind::Serialize(err) => "serialization error: "@ + err.reason@,
            SendErrorKind::Send(err) => "send error: "@ + err.text(),
            SendErrorKind::Connect(err) => "connect error: "@ + err.text(),
            SendErrorKind::MaxItemSizeExceeded => "maximum item size exceeded"@,
        }
    }

    /// Returns the message shown to users.
    pub fn message(&self) -> (r: String)
        ensures
            r@ == self.text(),
    {
        match self {
            SendErrorKind::Serialize(err) => concat("serialization error: ", err.reason.as_str()),
            SendErrorKind::Send(err) => concat("send error: ", err.message().as_str()),
            SendErrorKind::Connect(err) => concat("connect error: ", err.message().as_str()),
            SendErrorKind::MaxItemSizeExceeded => String::from_str("maximum item size exceeded"),
        }
    }

    /// The same failure of the underlying channel.
    pub open spec fn of_base(err: base::SendErrorKind) -> SendErrorKind {
        match err {
            base::SendErrorKind::Serialize(err) => SendErrorKind::Serialize(err),
            base::SendErrorKind::Send(err) => SendErrorKind::Send(err),
            base::SendErrorKind::MaxItemSizeExceeded => SendErrorKind::MaxItemSizeExceeded,
        }
    }
}

impl From<base::SendErrorKind> for SendErrorKind {
    fn from(err: base::SendErrorKind) -> (r: Self) {
        match err {
            base::SendErrorKind::Serialize(err) => SendErrorKind::Serialize(err),
            base::SendErrorKind::Send(err) => SendErrorKind::Send(err),
            base::SendErrorKind::MaxItemSizeExceeded => SendErrorKind::MaxItemSizeExceeded,
        }
    }
}

impl vstd::std_specs::convert::FromSpecImpl<base::SendErrorKind> for SendErrorKind {
    open spec fn obeys_from_spec() -> bool {
        true
    }

    open spec fn from_spec(err: base::SendErrorKind) -> SendErrorKind {
        SendErrorKind::of_base(err)
    }
}

/// An error returned when a value cannot be sent.
pub struct SendError<T> {
    /// The reason the value could not be sent.
    pub kind: SendErrorKind,
    /// The value that could not be sent.
    pub item: T,
}

impl<T> SendError<T> {
    /// Creates the error.
    pub fn new(kind: SendErrorKind, item: T) -> (r: Self)
        ensures
            r == (SendError { kind, item }),
    {
        SendError { kind, item }
    }

    /// Returns whether the remote receiver explicitly closed the channel.
    pub fn is_closed(&self) -> (r: bool)
        ensures
            r == (self.kind matches SendErrorKind::Send(err) && err.spec_is_closed()),
    {
        match &self.kind {
            SendErrorKind::Send(err) => err.is_closed(),
            _ => false,
        }
    }

    /// Returns whether no further value can be sent.
    pub fn is_disconnected(&self) -> (r: bool)
        ensures
            r == (self.kind is Send || self.kind is Connect),
    {
        matches!(&self.kind, SendErrorKind::Send(_) | SendErrorKind::Connect(_))
    }

    /// Returns whether the value caused the error.
    pub fn is_item_specific(&self) -> (r: bool)
        ensures
            r == (self.kind is Serialize || self.kind is MaxItemSizeExceeded),
    {
        matches!(&self.kind, SendErrorKind::Serialize(_) | SendErrorKind::MaxItemSizeExceeded)
    }

    /// Discards the unsent value.
    pub fn without_item(self) -> (r: SendError<()>)
        ensures
            r == (SendError { kind: self.kind, item: () }),
    {
        SendError { kind: self.kind, item: () }
    }

    /// Returns the message shown to users.
    pub fn message(&self) -> (r: String)
        ensures
            r@ == self.kind.text(),
    {
        self.kind.message()
    }
}

impl<T> SendErrorExt for SendError<T> {
    open spec fn closed(&self) -> bool {
        self.kind matches SendErrorKind::Send(err) && err.spec_is_closed()
    }

    open spec fn disconnected(&self) -> bool {
        self.kind is Send || self.kind is Connect
    }

    open spec fn item_specific(&self) -> bool {
        self.kind is Serialize || self.kind is MaxItemSizeExceeded
    }

    fn is_closed(&self) -> (r: bool) {
        SendError::is_closed(self)
    }

    fn is_disconnected(&self) -> (r: bool) {
        SendError::is_disconnected(self)
    }

    fn is_item_specific(&self) -> (r: bool) {
        SendError::is_item_specific(self)
    }
}

impl<T> From<base::SendError<T>> for SendError<T> {
    fn from(err: base::SendError<T>) -> (r: Self) {
        SendError { kind: SendErrorKind::from(err.kind), item: err.item }
    }
}

impl<T> vstd::std_specs::convert::FromSpecImpl<base::SendError<T>> for SendError<T> {
    open spec fn obeys_from_spec() -> bool {
        true
    }

    open spec fn from_spec(err: base::SendError<T>) -> SendError<T> {
        SendError { kind: SendErrorKind::of_base(err.kind), item: err.item }
    }
}

/// The sending half of a channel.
pub struct Sender {
    /// Whether the connection has been established, once that is known.
    pub sender: Option<Result<(), ConnectError>>,
    /// Whether this is at the endpoint where the channel was created.
    pub original: bool,
    /// Largest value that may be sent.
    pub max_item_size: usize,
    /// The limit that the established connection applies.
    pub connected_max_item_size: Option<usize>,
}

impl Sender {
    /// The limit of an established connection is that of this half.
    pub open spec fn wf(self) -> bool {
        &&& (self.sender matches Some(res) && res is Ok) <==> self.connected_max_item_size is Some
        &&& self.connected_max_item_size matches Some(limit) ==> limit == self.max_item_size
    }

    /// Waits for the connection, given what arrived if that is not known yet.
    ///
    /// `None` means that the other half was dropped. What is known once stays so.
    pub fn get(&mut self, arrived: Option<Result<(), ConnectError>>) -> (r: Result<
        (),
        ConnectError,
    >)
        requires
            old(self).wf(),
        ensures
            final(self).wf(),
            r == (match old(self).sender {
                Some(res) => res,
                None => match arrived {
                    Some(res) => res,
                    None => Err::<(), ConnectError>(ConnectError::Dropped),
                },
            }),
            final(self).sender == Some(r),
            final(self).original == old(self).original,
            final(self).max_item_size == old(self).max_item_size,
    {
        if self.sender.is_none() {
            let res = match arrived {
                Some(res) => res,
                None => Err(ConnectError::Dropped),
            };
            if res.is_ok() {
                self.connected_max_item_size = Some(self.max_item_size);
            }
            self.sender = Some(res);
        }
        match self.sender {
            Some(res) => res,
            None => Err(ConnectError::Dropped),
        }
    }

    /// Returns the result of sending a value, given the connection and what came of sending.
    pub fn send_result<T>(
        connection: Result<(), ConnectError>,
        item: T,
        sent: Result<(), base::SendErrorKind>,
    ) -> (r: Result<(), SendError<T>>)
        ensures
            r == (match connection {
                Err(err) => Err::<(), SendError<T>>(
                    SendError { kind: SendErrorKind::Connect(err), item },
                ),
                Ok(()) => match sent {
                    Ok(()) => Ok(()),
                    Err(kind) => Err(SendError { kind: SendErrorKind::of_base(kind), item }),
                },
            }),
    {
        match connection {
            Err(err) => Err(SendError::new(SendErrorKind::Connect(err), item)),
            Ok(()) => match sent {
                Ok(()) => Ok(()),
                Err(kind) => Err(SendError::from(base::SendError::new(kind, item))),
            },
        }
    }

    /// Returns whether the receiver has been closed, given what the connection says.
    pub fn is_closed(connection: Result<(), ConnectError>, closed: bool) -> (r: Result<
        bool,
        ConnectError,
    >)
        ensures
            r == (match connection {
                Ok(_) => Ok::<bool, ConnectError>(closed),
                Err(err) => Err(err),
            }),
    {
        match connection {
            Ok(_) => Ok(closed),
            Err(err) => Err(err),
        }
    }

    /// Returns the maximum size of a value.
    pub fn max_item_size(&self) -> (r: usize)
        ensures
            r == self.max_item_size,
    {
        self.max_item_size
    }

    /// Sets the maximum size of a value, also of an established connection.
    pub fn set_max_item_size(&mut self, max_item_size: usize)
        requires
            old(self).wf(),
        ensures
            final(self).wf(),
            final(self).max_item_size == max_item_size,
            final(self).sender == old(self).sender,
            final(self).original == old(self).original,
    {
        self.max_item_size = max_item_size;
        if self.connected_max_item_size.is_some() {
            self.connected_max_item_size = Some(max_item_size);
        }
    }

    /// Sends this to another endpoint.
    ///
    /// Fails for a sender that was received and when a half has been sent.
    /// `allocated` is what came of allocating the port.
    pub fn serialize(
        &self,
        interlock: &mut Interlock,
        confirmation: Confirmation,
        ports: &mut PortSerializer,
        allocated: Result<u32, String>,
        callback: u64,
    ) -> (r: Result<Transported, String>)
        ensures
            !self.original ==> {
                &&& r matches Err(msg) && msg@ == "cannot forward received sender"@
                &&& *final(interlock) == *old(interlock)
                &&& final(ports).requests@ == old(ports).requests@
            },
            self.original ==> {
                let settled = old(interlock).receiver.settled(confirmation);
                let local = settled is Local;
                &&& !local ==> {
                    &&& r matches Err(msg) && msg@
                        == "cannot send sender because receiver has been sent"@
                    &&& final(interlock).sender == old(interlock).sender
                    &&& final(interlock).receiver == settled
                    &&& final(ports).requests@ == old(ports).requests@
                }
                &&& local ==> {
                    &&& *final(interlock) == on_its_way()
                    &&& match allocated {
                        Ok(port) => {
                            &&& r == Ok::<Transported, String>(
                                Transported { port, max_item_size: self.max_item_size as u64 },
                            )
                            &&& final(ports).requests@ == old(ports).requests@.push(
                                (port, callback),
                            )
                        },
                        Err(err) => {
                            &&& r == Err::<Transported, String>(err)
                            &&& final(ports).requests@ == old(ports).requests@
                        },
                    }
                }
            },
            final(ports).tasks@ == old(ports).tasks@,
    {
        if !self.original {
            return Err(String::from_str("cannot forward received sender"));
        }
        if !interlock.receiver.check_local(confirmation) {
            return Err(String::from_str("cannot send sender because receiver has been sent"));
        }
        interlock.sender.start_send();
        interlock.receiver.start_send();
        match ports.connect_port(allocated, callback) {
            Ok(port) => Ok(
                Transported { port, max_item_size: max_item_size_to_wire(self.max_item_size) },
            ),
            Err(err) => Err(err),
        }
    }

    /// Receives this from another endpoint.
    pub fn deserialize(
        transported: Transported,
        ports: &mut PortDeserializer,
        callback: u64,
    ) -> (r: (Sender, Interlock))
        ensures
            r.0 == (Sender {
                sender: None,
                original: false,
                max_item_size: local_max_item_size(transported.max_item_size),
                connected_max_item_size: None,
            }),
            r.0.wf(),
            r.1 == (Interlock { sender: Location::Local, receiver: Location::Remote }),
            final(ports).expected@ == old(ports).expected@.insert(transported.port, callback),
            final(ports).tasks@ == old(ports).tasks@,
    {
        ports.accept(transported.port, callback);
        (
            Sender {
                sender: None,
                original: false,
                max_item_size: max_item_size_from_wire(transported.max_item_size),
                connected_max_item_size: None,
            },
            Interlock { sender: Location::Local, receiver: Location::Remote },
        )
    }
}

/// A failure of sending is the same failure of the connection, and an error keeps why sending
/// failed and the value.
pub proof fn law_same_failure_of_the_connection<T>(
    err: base::SendErrorKind,
    kind: SendErrorKind,
    item: T,
    r: SendError<T>,
)
    requires
        call_ensures(<SendErrorKind as From<base::SendErrorKind>>::from, (err,), kind),
        call_ensures(SendError::<T>::new, (kind, item), r),
    ensures
        err matches base::SendErrorKind::Serialize(inner) ==> kind == SendErrorKind::Serialize(
            inner,
        ),
        err matches base::SendErrorKind::Send(inner) ==> kind == SendErrorKind::Send(inner),
        err is MaxItemSizeExceeded ==> kind is MaxItemSizeExceeded,
        r.kind == kind && r.item == item,
{
}

/// The size limit that was set is read back and applies to a connection that was established.
pub proof fn law_size_limit_of_an_lr_sender(
    before: Sender,
    limit: usize,
    after: Sender,
    r: usize,
)
    requires
        before.wf(),
        exists|state: &mut Sender| #[trigger]
            call_ensures(Sender::set_max_item_size, (state, limit), ()) && *state == before
                && *final(state) == after,
        call_ensures(Sender::max_item_size, (&after,), r),
    ensures
        r == limit,
        after.sender == before.sender && after.original == before.original,
        before.sender matches Some(Ok(_)) ==> after.connected_max_item_size == Some(limit),
{
}

/// What is said of an error does not depend on how it is asked.
pub proof fn law_class_by_trait_of_lr_error<T>(
    err: SendError<T>,
    r: (bool, bool, bool),
    by_trait: (bool, bool, bool),
)
    requires
        call_ensures(SendError::<T>::is_closed, (&err,), r.0),
        call_ensures(SendError::<T>::is_disconnected, (&err,), r.1),
        call_ensures(SendError::<T>::is_item_specific, (&err,), r.2),
        call_ensures(<SendError<T> as SendErrorExt>::is_closed, (&err,), by_trait.0),
        call_ensures(<SendError<T> as SendErrorExt>::is_disconnected, (&err,), by_trait.1),
        call_ensures(<SendError<T> as SendErrorExt>::is_item_specific, (&err,), by_trait.2),
    ensures
        by_trait == r,
{
}

/// An error keeps why sending failed and the value when it becomes that of the channel, and the
/// reason when the value is left out.
pub proof fn law_error_of_the_connection<T>(
    err: base::SendError<T>,
    kind: SendErrorKind,
    r: SendError<T>,
    without: SendError<()>,
)
    requires
        call_ensures(<SendErrorKind as From<base::SendErrorKind>>::from, (err.kind,), kind),
        call_ensures(<SendError<T> as From<base::SendError<T>>>::from, (err,), r),
        call_ensures(SendError::<T>::without_item, (r,), without),
    ensures
        r.kind == kind && r.item == err.item,
        without.kind == kind,
{
}

/// A sender that is sent requests the port that was allocated, with its callback; one that is
/// refused, or has no port, requests none. Why it is refused is said. A refused sender leaves
/// both halves where they are, and one that is sent takes both along.
pub proof fn law_port_of_a_sent_lr_sender(
    half: Sender,
    before: Interlock,
    after: Interlock,
    confirmation: Confirmation,
    start: PortSerializer,
    end: PortSerializer,
    allocated: Result<u32, String>,
    callback: u64,
    r: Result<Transported, String>,
)
    requires
        exists|state: &mut Interlock, ports: &mut PortSerializer| #[trigger]
            call_ensures(
                Sender::serialize,
                (&half, state, confirmation, ports, allocated, callback),
                r,
            ) && *state == before && *final(state) == after && *ports == start && *final(ports)
                == end,
    ensures
        end.tasks@ == start.tasks@,
        r matches Ok(sent) ==> end.requests@ == start.requests@.push((sent.port, callback))
            && allocated == Ok::<u32, String>(sent.port) && sent.max_item_size
            == half.max_item_size && after.sender is Sending && after.receiver is Sending,
        r is Err ==> end.requests@ == start.requests@,
        !half.original ==> after == before && (r matches Err(msg) && msg@
            == "cannot forward received sender"@),
        half.original && before.receiver is Remote ==> after == before && (r matches Err(msg) && msg@
            == "cannot send sender because receiver has been sent"@),
        half.original && before.receiver is Local ==> (allocated matches Err(err) ==> r == Err::<
            Transported,
            String,
        >(err)),
        after.sender == before.sender || after.sender is Sending,
{
}

/// A sender that arrives expects its port with its callback and is not connected yet; the other
/// half is at the remote endpoint.
pub proof fn law_port_of_an_arrived_lr_sender(
    transported: Transported,
    start: PortDeserializer,
    after: PortDeserializer,
    callback: u64,
    r: (Sender, Interlock),
)
    requires
        exists|ports: &mut PortDeserializer| #[trigger]
            call_ensures(Sender::deserialize, (transported, ports, callback), r) && *ports == start
                && *final(ports) == after,
    ensures
        after.tasks@ == start.tasks@,
        after.expected@ == start.expected@.insert(transported.port, callback),
        r.1.sender is Local && r.1.receiver is Remote,
        !r.0.original && r.0.connected_max_item_size is None,
{
}

} // verus!
