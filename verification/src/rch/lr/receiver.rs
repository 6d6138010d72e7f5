//! The receiving half of the channel of which exactly one half is sent.

use vstd::prelude::*;
use crate::chmux;
use crate::codec::DeserializationError;
use crate::rch::base;
use crate::rch::base::{PortDeserializer, PortSerializer};
use crate::rch::lr::{on_its_way, Transported};
use crate::rch::{
    local_max_item_size, max_item_size_from_wire, max_item_size_to_wire, Confirmation,
    ConnectError, Interlock, Location,
};
use crate::text::{concat, decimal_list, join_decimals};

verus! {

/// An error returned while receiving.
pub enum RecvError {
    /// Receiving data over the multiplexed channel failed.
    Receive(chmux::RecvError),
    /// Decoding received data failed.
    Deserialize(DeserializationError),
    /// Ports of received channels were not received.
    MissingPorts(Vec<u32>),
    /// Connecting the channel failed.
    Connect(ConnectError),
    /// The value exceeds the item size limit.
    MaxItemSizeExceeded,
}

impl RecvError {
    /// Whether the connection was rejected or failed.
    pub open spec fn spec_is_disconnected(self) -> bool {
        match self {
            RecvError::Receive(err) => err.spec_is_disconnected(),
            RecvError::Connect(_) => true,
            _ => false,
        }
    }

    /// Returns whether the connection was rejected or failed.
    pub fn is_disconnected(&self) -> (r: bool)
        ensures
            r == self.spec_is_disconnected(),
    {
        match self {
            RecvError::Receive(err) => err.is_disconnected(),
            RecvError::Connect(_) => true,
            RecvError::Deserialize(_)
            | RecvError::MissingPorts(_)
            | RecvError::MaxItemSizeExceeded => false,
        }
    }

    /// The message shown to users.
    pub open spec fn text(self) -> Seq<char> {
        match self {
            RecvError::Receive(err) => "receive error: "@ + err.text(),
            RecvError::Deserialize(err) => "deserialization error: "@ + err.reason@,
            RecvError::MissingPorts(ports) => "missing chmux ports: "@ + decimal_list(ports@),
            RecvError::Connect(err) => "connect error: "@ + err.text(),
            RecvError::MaxItemSizeExceeded => "maximum item size exceeded"@,
        }
    }

    /// Returns the message shown to users.
    pub fn message(&self) -> (r: String)
        ensures
            r@ == self.text(),
    {
        match self {
            RecvError::Receive(err) => concat("receive error: ", err.message().as_str()),
            RecvError::Deserialize(err) => concat("deserialization error: ", err.reason.as_str()),
            RecvError::MissingPorts(ports) => concat(
                "missing chmux ports: ",
                join_decimals(ports).as_str(),
            ),
            RecvError::Connect(err) => concat("connect error: ", err.message().as_str()),
            RecvError::MaxItemSizeExceeded => String::from_str("maximum item size exceeded"),
        }
    }

    /// The same failure of the underlying channel.
    pub open spec fn of_base(err: base::RecvError) -> RecvError {
        match err {
            base::RecvError::Receive(err) => RecvError::Receive(err),
            base::RecvError::Deserialize(err) => RecvError::Deserialize(err),
            base::RecvError::MissingPorts(ports) => RecvError::MissingPorts(ports),
            base::RecvError::MaxItemSizeExceeded => RecvError::MaxItemSizeExceeded,
        }
    }
}

impl From<base::RecvError> for RecvError {
    fn from(err: base::RecvError) -> (r: Self) {
        match err {
            base::RecvError::Receive(err) => RecvError::Receive(err),
            base::RecvError::Deserialize(err) => RecvError::Deserialize(err),
            base::RecvError::MissingPorts(ports) => RecvError::MissingPorts(ports),
            base::RecvError::MaxItemSizeExceeded => RecvError::MaxItemSizeExceeded,
        }
    }
}

impl vstd::std_specs::convert::FromSpecImpl<base::RecvError> for RecvError {
    open spec fn obeys_from_spec() -> bool {
        true
    }

    open spec fn from_spec(err: base::RecvError) -> RecvError {
        RecvError::of_base(err)
    }
}

impl From<ConnectError> for RecvError {
    fn from(err: ConnectError) -> (r: Self) {
        RecvError::Connect(err)
    }
}

impl vstd::std_specs::convert::FromSpecImpl<ConnectError> for RecvError {
    open spec fn obeys_from_spec() -> bool {
        true
    }

    open spec fn from_spec(err: ConnectError) -> RecvError {
        RecvError::Connect(err)
    }
}

/// The receiving half of a channel.
pub struct Receiver {
    /// Whether the connection has been established, once that is known.
    pub receiver: Option<Result<(), ConnectError>>,
    /// Whether this is at the endpoint where the channel was created.
    pub original: bool,
    /// Largest value that may be received.
    pub max_item_size: usize,
    /// The limit that the established connection applies.
    pub connected_max_item_size: Option<usize>,
}

impl Receiver {
    /// The limit of an established connection is that of this half.
    pub open spec fn wf(self) -> bool {
        &&& (self.receiver matches Some(res) && res is Ok) <==> self.connected_max_item_size is Some
        &&& self.connected_max_item_size matches Some(limit) ==> limit == self.max_item_size
    }

    /// Waits for the connection, given what arrived if that is not known yet.
    ///
    /// `None` means that the other half was dropped. What is known once stays so.
    pub fn get(&mut self, arrived: Option<Result<(), ConnectError>>) -> (r: Result<
        (),
        ConnectError,
    >)
        requires
            old(self).wf(),
        ensures
            final(self).wf(),
            r == (match old(self).receiver {
                Some(res) => res,
                None => match arrived {
                    Some(res) => res,
                    None => Err::<(), ConnectError>(ConnectError::Dropped),
                },
            }),
            final(self).receiver == Some(r),
            final(self).original == old(self).original,
            final(self).max_item_size == old(self).max_item_size,
    {
        if self.receiver.is_none() {
            let res = match arrived {
                Some(res) => res,
                None => Err(ConnectError::Dropped),
            };
            if res.is_ok() {
                self.connected_max_item_size = Some(self.max_item_size);
            }
            self.receiver = Some(res);
        }
        match self.receiver {
            Some(res) => res,
            None => Err(ConnectError::Dropped),
        }
    }

    /// Returns the result of receiving, given the connection and what came of receiving.
    pub fn recv_result<T>(
        connection: Result<(), ConnectError>,
        received: Result<Option<T>, base::RecvError>,
    ) -> (r: Result<Option<T>, RecvError>)
        ensures
            r == (match connection {
                Err(err) => Err::<Option<T>, RecvError>(RecvError::Connect(err)),
                Ok(()) => match received {
                    Ok(item) => Ok(item),
                    Err(err) => Err(RecvError::of_base(err)),
                },
            }),
    {
        match connection {
            Err(err) => Err(RecvError::from(err)),
            Ok(()) => match received {
                Ok(item) => Ok(item),
                Err(err) => Err(RecvError::from(err)),
            },
        }
    }

    /// Returns the maximum size of a value.
    pub fn max_item_size(&self) -> (r: usize)
        ensures
            r == self.max_item_size,
    {
        self.max_item_size
    }

    /// Sets the maximum size of a value, also of an established connection.
    pub fn set_max_item_size(&mut self, max_item_size: usize)
        requires
            old(self).wf(),
        ensures
            final(self).wf(),
            final(self).max_item_size == max_item_size,
            final(self).receiver == old(self).receiver,
            final(self).original == old(self).original,
    {
        self.max_item_size = max_item_size;
        if self.connected_max_item_size.is_some() {
            self.connected_max_item_size = Some(max_item_size);
        }
    }

    /// Sends this to another endpoint.
    ///
    /// Fails for a receiver that was received and when a half has been sent.
    /// `allocated` is what came of allocating the port.
    pub fn serialize(
        &self,
        interlock: &mut Interlock,
        confirmation: Confirmation,
        ports: &mut PortSerializer,
        allocated: Result<u32, String>,
        callback: u64,
    ) -> (r: Result<Transported, String>)
        ensures
            !self.original ==> {
                &&& r matches Err(msg) && msg@ == "cannot forward received receiver"@
                &&& *final(interlock) == *old(interlock)
                &&& final(ports).requests@ == old(ports).requests@
            },
            self.original ==> {
                let settled = old(interlock).sender.settled(confirmation);
                let local = settled is Local;
                &&& !local ==> {
                    &&& r matches Err(msg) && msg@
                        == "cannot send receiver because sender has been sent"@
                    &&& final(interlock).receiver == old(interlock).receiver
                    &&& final(interlock).sender == settled
                    &&& final(ports).requests@ == old(ports).requests@
                }
                &&& local ==> {
                    &&& *final(interlock) == on_its_way()
                    &&& match allocated {
                        Ok(port) => {
                            &&& r == Ok::<Transported, String>(
                                Transported { port, max_item_size: self.max_item_size as u64 },
                            )
                            &&& final(ports).requests@ == old(ports).requests@.push(
                                (port, callback),
                            )
                        },
                        Err(err) => {
                            &&& r == Err::<Transported, String>(err)
                            &&& final(ports).requests@ == old(ports).requests@
                        },
                    }
                }
            },
            final(ports).tasks@ == old(ports).tasks@,
    {
        if !self.original {
            return Err(String::from_str("cannot forward received receiver"));
        }
        if !interlock.sender.check_local(confirmation) {
            return Err(String::from_str("cannot send receiver because sender has been sent"));
        }
        interlock.sender.start_send();
        interlock.receiver.start_send();
        match ports.connect_port(allocated, callback) {
            Ok(port) => Ok(
                Transported { port, max_item_size: max_item_size_to_wire(self.max_item_size) },
            ),
            Err(err) => Err(err),
        }
    }

    /// Receives this from another endpoint.
    pub fn deserialize(
        transported: Transported,
        ports: &mut PortDeserializer,
        callback: u64,
    ) -> (r: (Receiver, Interlock))
        ensures
            r.0 == (Receiver {
                receiver: None,
                original: false,
                max_item_size: local_max_item_size(transported.max_item_size),
                connected_max_item_size: None,
            }),
            r.0.wf(),
            r.1 == (Interlock { sender: Location::Remote, receiver: Location::Local }),
            final(ports).expected@ == old(ports).expected@.insert(transported.port, callback),
            final(ports).tasks@ == old(ports).tasks@,
    {
        ports.accept(transported.port, callback);
        (
            Receiver {
                receiver: None,
                original: false,
                max_item_size: max_item_size_from_wire(transported.max_item_size),
                connected_max_item_size: None,
            },
            Interlock { sender: Location::Remote, receiver: Location::Local },
        )
    }
}

/// The size limit that was set is read back and applies to a connection that was established.
pub proof fn law_size_limit_of_an_lr_receiver(
    before: Receiver,
    limit: usize,
    after: Receiver,
    r: usize,
)
    requires
        before.wf(),
        exists|state: &mut Receiver| #[trigger]
            call_ensures(Receiver::set_max_item_size, (state, limit), ()) && *state == before
                && *final(state) == after,
        call_ensures(Receiver::max_item_size, (&after,), r),
    ensures
        r == limit,
        after.receiver == before.receiver && after.original == before.original,
        before.receiver matches Some(Ok(_)) ==> after.connected_max_item_size == Some(limit),
{
}

/// A receiver that is sent requests the port that was allocated, with its callback; one that is
/// refused, or has no port, requests none. Why it is refused is said. A refused receiver leaves
/// both halves where they are, and one that is sent takes both along.
pub proof fn law_port_of_a_sent_lr_receiver(
    half: Receiver,
    before: Interlock,
    after: Interlock,
    confirmation: Confirmation,
    start: PortSerializer,
    end: PortSerializer,
    allocated: Result<u32, String>,
    callback: u64,
    r: Result<Transported, String>,
)
    requires
        exists|state: &mut Interlock, ports: &mut PortSerializer| #[trigger]
            call_ensures(
                Receiver::serialize,
                (&half, state, confirmation, ports, allocated, callback),
                r,
            ) && *state == before && *final(state) == after && *ports == start && *final(ports)
                == end,
    ensures
        end.tasks@ == start.tasks@,
        r matches Ok(sent) ==> end.requests@ == start.requests@.push((sent.port, callback))
            && allocated == Ok::<u32, String>(sent.port) && sent.max_item_size
            == half.max_item_size && after.sender is Sending && after.receiver is Sending,
        r is Err ==> end.requests@ == start.requests@,
        !half.original ==> after == before && (r matches Err(msg) && msg@
            == "cannot forward received receiver"@),
        half.original && before.sender is Remote ==> after == before && (r matches Err(msg) && msg@
            == "cannot send receiver because sender has been sent"@),
        half.original && before.sender is Local ==> (allocated matches Err(err) ==> r == Err::<
            Transported,
            String,
        >(err)),
        after.receiver == before.receiver || after.receiver is Sending,
{
}

/// A receiver that arrives expects its port with its callback and is not connected yet; the other
/// half is at the remote endpoint.
pub proof fn law_port_of_an_arrived_lr_receiver(
    transported: Transported,
    start: PortDeserializer,
    after: PortDeserializer,
    callback: u64,
    r: (Receiver, Interlock),
)
    requires
        exists|ports: &mut PortDeserializer| #[trigger]
            call_ensures(Receiver::deserialize, (transported, ports, callback), r) && *ports == start
                && *final(ports) == after,
    ensures
        after.tasks@ == start.tasks@,
        after.expected@ == start.expected@.insert(transported.port, callback),
        r.1.sender is Remote && r.1.receiver is Local,
        !r.0.original && r.0.connected_max_item_size is None,
{
}

} // verus!
