//! The channel of which exactly one half is sent to a remote endpoint.

pub mod receiver;
pub mod sender;

pub use receiver::{Receiver, RecvError};
pub use sender::{SendError, SendErrorKind, Sender};

use vstd::prelude::*;
use crate::rch::{Confirmation, Interlock, Location, DEFAULT_MAX_ITEM_SIZE};

verus! {

/// A channel half on its way to another endpoint.
#[derive(Clone, Copy, Debug, PartialEq, Eq, Structural)]
pub struct Transported {
    /// Port number.
    pub port: u32,
    /// Largest value that may be transferred.
    pub max_item_size: u64,
}

/// Creates a channel, together with what keeps track of where its halves are.
pub fn channel() -> (r: (Sender, Receiver, Interlock))
    ensures
        r.0 == (Sender {
            sender: None,
            original: true,
            max_item_size: DEFAULT_MAX_ITEM_SIZE,
            connected_max_item_size: None,
        }),
        r.1 == (Receiver {
            receiver: None,
            original: true,
            max_item_size: DEFAULT_MAX_ITEM_SIZE,
            connected_max_item_size: None,
        }),
        r.2.sender is Local,
        r.2.receiver is Local,
{
    (
        Sender {
            sender: None,
            original: true,
            max_item_size: DEFAULT_MAX_ITEM_SIZE,
            connected_max_item_size: None,
        },
        Receiver {
            receiver: None,
            original: true,
            max_item_size: DEFAULT_MAX_ITEM_SIZE,
            connected_max_item_size: None,
        },
        Interlock::new(),
    )
}

/// Where the halves are once one of them is on its way.
///
/// Both are bound to that transfer, so that no other one can be started.
pub open spec fn on_its_way() -> Interlock {
    Interlock { sender: Location::Sending, receiver: Location::Sending }
}

/// Exactly one half is sent.
///
/// Once a half is on its way, neither the other half nor the same one can be sent,
/// unless the transfer was given up.
pub proof fn law_one_half_is_sent(confirmation: Confirmation)
    ensures
        on_its_way().sender.settled(confirmation) is Local <==> confirmation is Abandoned,
        on_its_way().receiver.settled(confirmation) is Local <==> confirmation is Abandoned,
{
}

/// Both halves of a new channel can be sent and agree on the limit.
pub proof fn law_new_lr_channel(r: (Sender, Receiver, Interlock))
    requires
        call_ensures(channel, (), r),
    ensures
        r.0.original && r.1.original,
        r.0.sender is None && r.1.receiver is None,
        r.0.max_item_size == r.1.max_item_size,
        r.2.sender is Local && r.2.receiver is Local,
{
}

/// A half is sent exactly if it is original, the other half is here, and its port was allocated.
/// After that neither half can be sent as long as the transfer is not given up.
pub proof fn law_second_half_is_refused(
    tx: Sender,
    rx: Receiver,
    before: Interlock,
    between: Interlock,
    after: Interlock,
    first: Confirmation,
    second: Confirmation,
    port: u32,
    other_port: Result<u32, String>,
    callback: u64,
    other_callback: u64,
    r: Result<Transported, String>,
    other: Result<Transported, String>,
    again: Result<Transported, String>,
)
    requires
        exists|state: &mut Interlock, ports: &mut crate::rch::base::PortSerializer| #[trigger]
            call_ensures(Sender::serialize, (&tx, state, first, ports, Ok(port), callback), r)
                && *state == before && *final(state) == between,
        exists|state: &mut Interlock, ports: &mut crate::rch::base::PortSerializer| #[trigger]
            call_ensures(
                Receiver::serialize,
                (&rx, state, second, ports, other_port, other_callback),
                other,
            ) && *state == between && *final(state) == after,
        exists|state: &mut Interlock, ports: &mut crate::rch::base::PortSerializer| #[trigger]
            call_ensures(
                Sender::serialize,
                (&tx, state, second, ports, other_port, other_callback),
                again,
            ) && *state == between,
    ensures
        r is Ok <==> tx.original && (before.receiver is Local || before.receiver is Sending && first
            is Abandoned),
        r matches Ok(sent) ==> sent.port == port,
        r is Ok ==> (other is Ok <==> rx.original && second is Abandoned && other_port is Ok),
        r is Ok ==> (again is Ok <==> second is Abandoned && other_port is Ok),
        !tx.original ==> r is Err && between == before,
{
}

/// Likewise after the receiver was sent.
pub proof fn law_sender_is_refused_after_receiver(
    tx: Sender,
    rx: Receiver,
    before: Interlock,
    between: Interlock,
    after: Interlock,
    first: Confirmation,
    second: Confirmation,
    port: u32,
    other_port: Result<u32, String>,
    callback: u64,
    other_callback: u64,
    r: Result<Transported, String>,
    other: Result<Transported, String>,
    again: Result<Transported, String>,
)
    requires
        exists|state: &mut Interlock, ports: &mut crate::rch::base::PortSerializer| #[trigger]
            call_ensures(Receiver::serialize, (&rx, state, first, ports, Ok(port), callback), r)
                && *state == before && *final(state) == between,
        exists|state: &mut Interlock, ports: &mut crate::rch::base::PortSerializer| #[trigger]
            call_ensures(
                Sender::serialize,
                (&tx, state, second, ports, other_port, other_callback),
                other,
            ) && *state == between && *final(state) == after,
        exists|state: &mut Interlock, ports: &mut crate::rch::base::PortSerializer| #[trigger]
            call_ensures(
                Receiver::serialize,
                (&rx, state, second, ports, other_port, other_callback),
                again,
            ) && *state == between,
    ensures
        r is Ok <==> rx.original && (before.sender is Local || before.sender is Sending && first
            is Abandoned),
        r matches Ok(sent) ==> sent.port == port,
        r is Ok ==> (other is Ok <==> tx.original && second is Abandoned && other_port is Ok),
        r is Ok ==> (again is Ok <==> second is Abandoned && other_port is Ok),
        !rx.original ==> r is Err && between == before,
{
}

/// A half that is received keeps to the limit of the one that was sent and cannot be sent on.
pub proof fn law_half_arrives(
    tx: Sender,
    rx: Receiver,
    interlock: Interlock,
    confirmation: Confirmation,
    port: Result<u32, String>,
    callback: u64,
    sent_tx: Transported,
    sent_rx: Transported,
    remote_callback: u64,
    r_tx: (Sender, Interlock),
    r_rx: (Receiver, Interlock),
)
    requires
        exists|state: &mut Interlock, ports: &mut crate::rch::base::PortSerializer| #[trigger]
            call_ensures(
                Sender::serialize,
                (&tx, state, confirmation, ports, port, callback),
                Ok(sent_tx),
            ) && *state == interlock,
        exists|ports: &mut crate::rch::base::PortDeserializer| #[trigger]
            call_ensures(Sender::deserialize, (sent_tx, ports, remote_callback), r_tx),
        exists|state: &mut Interlock, ports: &mut crate::rch::base::PortSerializer| #[trigger]
            call_ensures(
                Receiver::serialize,
                (&rx, state, confirmation, ports, port, callback),
                Ok(sent_rx),
            ) && *state == interlock,
        exists|ports: &mut crate::rch::base::PortDeserializer| #[trigger]
            call_ensures(Receiver::deserialize, (sent_rx, ports, remote_callback), r_rx),
    ensures
        r_tx.0.max_item_size == tx.max_item_size,
        !r_tx.0.original && r_tx.0.sender is None && r_tx.1.receiver is Remote,
        r_rx.0.max_item_size == rx.max_item_size,
        !r_rx.0.original && r_rx.0.receiver is None && r_rx.1.sender is Remote,
{
}

/// The connection of a half is what arrived first, and stays so; a half whose other half was dropped
/// is not connected. The limit of an established connection is that of the half.
pub proof fn law_connection_is_settled_once(
    before: Sender,
    between: Sender,
    after: Sender,
    arrived: Option<Result<(), crate::rch::ConnectError>>,
    later: Option<Result<(), crate::rch::ConnectError>>,
    r: Result<(), crate::rch::ConnectError>,
    again: Result<(), crate::rch::ConnectError>,
    max_item_size: usize,
    limited: Sender,
)
    requires
        exists|state: &mut Sender| #[trigger]
            call_ensures(Sender::get, (state, arrived), r) && *state == before
                && *final(state) == between,
        exists|state: &mut Sender| #[trigger]
            call_ensures(Sender::get, (state, later), again) && *state == between
                && *final(state) == after,
        exists|state: &mut Sender| #[trigger]
            call_ensures(Sender::set_max_item_size, (state, max_item_size), ()) && *state == between
                && *final(state) == limited,
        before.wf(),
    ensures
        again == r,
        before.sender matches Some(known) ==> r == known,
        before.sender is None ==> (arrived matches Some(res) ==> r == res),
        before.sender is None && arrived is None ==> r == Err::<(), crate::rch::ConnectError>(
            crate::rch::ConnectError::Dropped,
        ),
        between.connected_max_item_size is Some <==> r is Ok,
        r is Ok ==> between.connected_max_item_size == Some(before.max_item_size),
        r is Ok ==> limited.connected_max_item_size == Some(max_item_size),
        limited.max_item_size == max_item_size,
{
}

/// Likewise for the receiver.
pub proof fn law_connection_of_a_receiver_is_settled_once(
    before: Receiver,
    between: Receiver,
    after: Receiver,
    arrived: Option<Result<(), crate::rch::ConnectError>>,
    later: Option<Result<(), crate::rch::ConnectError>>,
    r: Result<(), crate::rch::ConnectError>,
    again: Result<(), crate::rch::ConnectError>,
    max_item_size: usize,
    limited: Receiver,
)
    requires
        exists|state: &mut Receiver| #[trigger]
            call_ensures(Receiver::get, (state, arrived), r) && *state == before
                && *final(state) == between,
        exists|state: &mut Receiver| #[trigger]
            call_ensures(Receiver::get, (state, later), again) && *state == between
                && *final(state) == after,
        exists|state: &mut Receiver| #[trigger]
            call_ensures(Receiver::set_max_item_size, (state, max_item_size), ()) && *state == between
                && *final(state) == limited,
        before.wf(),
    ensures
        again == r,
        before.receiver matches Some(known) ==> r == known,
        before.receiver is None ==> (arrived matches Some(res) ==> r == res),
        before.receiver is None && arrived is None ==> r == Err::<(), crate::rch::ConnectError>(
            crate::rch::ConnectError::Dropped,
        ),
        between.connected_max_item_size is Some <==> r is Ok,
        r is Ok ==> between.connected_max_item_size == Some(before.max_item_size),
        r is Ok ==> limited.connected_max_item_size == Some(max_item_size),
        limited.max_item_size == max_item_size,
{
}

/// A value is sent exactly if the channel is connected and sending it succeeded; otherwise it is
/// handed back with the failure.
pub proof fn law_value_is_sent_over_the_connection<T>(
    connection: Result<(), crate::rch::ConnectError>,
    item: T,
    sent: Result<(), crate::rch::base::SendErrorKind>,
    r: Result<(), SendError<T>>,
    says_closed: bool,
    closed: Result<bool, crate::rch::ConnectError>,
)
    requires
        call_ensures(Sender::send_result::<T>, (connection, item, sent), r),
        call_ensures(Sender::is_closed, (connection, says_closed), closed),
    ensures
        r is Ok <==> connection is Ok && sent is Ok,
        r matches Err(err) ==> err.item == item,
        connection matches Err(cause) ==> r == Err::<(), SendError<T>>(
            SendError { kind: SendErrorKind::Connect(cause), item },
        ) && closed == Err::<bool, crate::rch::ConnectError>(cause),
        connection is Ok ==> closed == Ok::<bool, crate::rch::ConnectError>(says_closed),
        connection is Ok ==> (sent matches Err(crate::rch::base::SendErrorKind::Send(cause)) ==> r
            == Err::<(), SendError<T>>(SendError { kind: SendErrorKind::Send(cause), item })),
        connection is Ok ==> (sent matches Err(crate::rch::base::SendErrorKind::Serialize(cause))
            ==> r == Err::<(), SendError<T>>(
            SendError { kind: SendErrorKind::Serialize(cause), item },
        )),
        connection is Ok ==> (sent matches Err(
            crate::rch::base::SendErrorKind::MaxItemSizeExceeded,
        ) ==> r == Err::<(), SendError<T>>(
            SendError { kind: SendErrorKind::MaxItemSizeExceeded, item },
        )),
{
}

/// A value is received exactly if the channel is connected and receiving succeeded.
pub proof fn law_value_is_received_over_the_connection<T>(
    connection: Result<(), crate::rch::ConnectError>,
    received: Result<Option<T>, crate::rch::base::RecvError>,
    r: Result<Option<T>, RecvError>,
)
    requires
        call_ensures(Receiver::recv_result::<T>, (connection, received), r),
    ensures
        r is Ok <==> connection is Ok && received is Ok,
        r matches Ok(item) ==> received == Ok::<Option<T>, crate::rch::base::RecvError>(item),
        connection matches Err(cause) ==> r == Err::<Option<T>, RecvError>(
            RecvError::Connect(cause),
        ),
        connection is Ok ==> (received matches Err(crate::rch::base::RecvError::Receive(cause))
            ==> r == Err::<Option<T>, RecvError>(RecvError::Receive(cause))),
        connection is Ok ==> (received matches Err(
            crate::rch::base::RecvError::Deserialize(cause),
        ) ==> r == Err::<Option<T>, RecvError>(RecvError::Deserialize(cause))),
        connection is Ok ==> (received matches Err(
            crate::rch::base::RecvError::MissingPorts(ports),
        ) ==> r == Err::<Option<T>, RecvError>(RecvError::MissingPorts(ports))),
        connection is Ok ==> (received matches Err(
            crate::rch::base::RecvError::MaxItemSizeExceeded,
        ) ==> r == Err::<Option<T>, RecvError>(RecvError::MaxItemSizeExceeded)),
{
}

/// The class of a failure to send and of one to receive.
pub proof fn law_class_of_lr_errors<T>(
    err: SendError<T>,
    closed: bool,
    disconnected: bool,
    item_specific: bool,
    recv_err: RecvError,
    recv_disconnected: bool,
)
    requires
        call_ensures(SendError::<T>::is_closed, (&err,), closed),
        call_ensures(SendError::<T>::is_disconnected, (&err,), disconnected),
        call_ensures(SendError::<T>::is_item_specific, (&err,), item_specific),
        call_ensures(RecvError::is_disconnected, (&recv_err,), recv_disconnected),
    ensures
        item_specific <==> err.kind is Serialize || err.kind is MaxItemSizeExceeded,
        disconnected != item_specific,
        closed <==> err.kind == SendErrorKind::Send(
            crate::chmux::SendError::Closed { gracefully: true },
        ),
        recv_disconnected <==> recv_err is Connect || (recv_err matches RecvError::Receive(cause)
            && (cause is ChMux || cause is Rejected)),
{
}

} // verus!
