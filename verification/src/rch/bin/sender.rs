//! The sending half of the channel that carries binary data.

use vstd::prelude::*;
use crate::rch::base::{PortDeserializer, PortSerializer};
use crate::rch::{Confirmation, ConnectError, Interlock, Location};

verus! {

/// How far connecting to a receiver at the same endpoint has come.
#[derive(Clone, Copy, Debug, PartialEq, Eq, Structural)]
pub enum LocalConnect {
    /// A local connection is not possible.
    Impossible,
    /// A local connection can be requested.
    Ready,
    /// A local connection has been requested.
    Requested,
}

/// What to do next to connect the sender.
#[derive(Clone, Copy, Debug, PartialEq, Eq, Structural)]
pub enum ConnectAction {
    /// Request a local connection from the receiver.
    RequestLocal,
    /// Wait for the receiver to reply to the request.
    AwaitReply,
    /// Wait for a remote connection.
    AwaitRemote,
    /// Connecting finished.
    Finished,
}

/// The sending half of a binary channel.
///
/// Connections are referred to by the numbers under which the surrounding
/// runtime keeps them.
pub struct Sender {
    /// The connection, once it is known.
    pub sender: Option<Result<u64, ConnectError>>,
    /// Whether this is at the endpoint where the channel was created.
    pub original: bool,
    /// Whether a task waits to take over the sender.
    pub successor: bool,
    /// How far a local connection has come.
    pub local: LocalConnect,
}

/// A sender on its way to another endpoint.
#[derive(Clone, Copy, Debug, PartialEq, Eq, Structural)]
pub struct TransportedSender {
    /// Port number.
    pub port: u32,
}

impl Sender {
    /// What to do next to connect.
    pub open spec fn next(self) -> ConnectAction {
        if self.sender is Some {
            ConnectAction::Finished
        } else {
            match self.local {
                LocalConnect::Ready => ConnectAction::RequestLocal,
                LocalConnect::Requested => ConnectAction::AwaitReply,
                LocalConnect::Impossible => ConnectAction::AwaitRemote,
            }
        }
    }

    /// Says what to do next to connect.
    pub fn connect(&self) -> (r: ConnectAction)
        ensures
            r == self.next(),
    {
        if self.sender.is_some() {
            return ConnectAction::Finished;
        }
        match self.local {
            LocalConnect::Ready => ConnectAction::RequestLocal,
            LocalConnect::Requested => ConnectAction::AwaitReply,
            LocalConnect::Impossible => ConnectAction::AwaitRemote,
        }
    }

    /// Goes on after [`ConnectAction::RequestLocal`]; a receiver that is gone takes no request.
    pub fn on_requested(&mut self, taken: bool) -> (r: ConnectAction)
        requires
            old(self).next() == ConnectAction::RequestLocal,
        ensures
            *final(self) == (Sender {
                local: if taken {
                    LocalConnect::Requested
                } else {
                    LocalConnect::Impossible
                },
                ..*old(self)
            }),
            r == final(self).next(),
    {
        self.local = if taken {
            LocalConnect::Requested
        } else {
            LocalConnect::Impossible
        };
        self.connect()
    }

    /// Goes on after [`ConnectAction::AwaitReply`].
    ///
    /// No reply means that the receiver has been sent to a remote endpoint.
    pub fn on_reply(&mut self, reply: Option<u64>) -> (r: ConnectAction)
        requires
            old(self).next() == ConnectAction::AwaitReply,
        ensures
            *final(self) == (Sender {
                local: LocalConnect::Impossible,
                sender: match reply {
                    Some(connection) => Some(Ok(connection)),
                    None => None,
                },
                ..*old(self)
            }),
            r == final(self).next(),
    {
        self.local = LocalConnect::Impossible;
        if let Some(connection) = reply {
            self.sender = Some(Ok(connection));
        }
        self.connect()
    }

    /// Goes on after [`ConnectAction::AwaitRemote`]; nothing arrives from a dropped receiver.
    pub fn on_remote(&mut self, arrived: Option<Result<u64, ConnectError>>) -> (r: ConnectAction)
        requires
            old(self).next() == ConnectAction::AwaitRemote,
        ensures
            *final(self) == (Sender {
                sender: Some(
                    match arrived {
                        Some(res) => res,
                        None => Err(ConnectError::Dropped),
                    },
                ),
                ..*old(self)
            }),
            r == ConnectAction::Finished,
    {
        self.sender = Some(
            match arrived {
                Some(res) => res,
                None => Err(ConnectError::Dropped),
            },
        );
        ConnectAction::Finished
    }

    /// Returns the connection once connecting finished.
    pub fn get(&self) -> (r: Result<u64, ConnectError>)
        requires
            self.next() == ConnectAction::Finished,
        ensures
            Some(r) == self.sender,
    {
        self.sender.unwrap()
    }

    /// Sends this to another endpoint.
    ///
    /// The receiver is connected to the remote sender if it is here. Otherwise, and
    /// for a sender that was received, a new channel is connected to the remote sender
    /// and the task with the given number forwards its data to this sender, which it
    /// takes over when this one is dropped. `allocated` is what came of allocating the
    /// port; the callbacks hand the connection to the receiver and to the new channel.
    pub fn serialize(
        &mut self,
        interlock: &mut Interlock,
        confirmation: Confirmation,
        ports: &mut PortSerializer,
        allocated: Result<u32, String>,
        callback: u64,
        forward_callback: u64,
        forward_task: u64,
    ) -> (r: Result<TransportedSender, String>)
        ensures
            ({
                let local = old(interlock).receiver.settled(confirmation) is Local;
                let direct = old(self).original && local;
                &&& *final(self) == (Sender {
                    successor: old(self).successor || !direct,
                    ..*old(self)
                })
                &&& final(interlock).sender == (if local {
                    Location::Sending
                } else {
                    old(interlock).sender
                })
                &&& final(interlock).receiver == old(interlock).receiver.settled(confirmation)
                &&& final(ports).tasks@ == (if direct {
                    old(ports).tasks@
                } else {
                    old(ports).tasks@.push(forward_task)
                })
                &&& match allocated {
                    Ok(port) => {
                        &&& r == Ok::<TransportedSender, String>(TransportedSender { port })
                        &&& final(ports).requests@ == old(ports).requests@.push(
                            (
                                port,
                                if direct {
                                    callback
                                } else {
                                    forward_callback
                                },
                            ),
                        )
                    },
                    Err(err) => {
                        &&& r == Err::<TransportedSender, String>(err)
                        &&& final(ports).requests@ == old(ports).requests@
                    },
                }
            }),
    {
        let local: bool = interlock.receiver.check_local(confirmation);
        if local {
            interlock.sender.start_send();
        }
        let mut callback: u64 = callback;
        if !self.original || !local {
            self.successor = true;
            ports.spawn(forward_task);
            callback = forward_callback;
        }
        match ports.connect_port(allocated, callback) {
            Ok(port) => Ok(TransportedSender { port }),
            Err(err) => Err(err),
        }
    }

    /// Receives this from another endpoint.
    pub fn deserialize(
        transported: TransportedSender,
        ports: &mut PortDeserializer,
        callback: u64,
    ) -> (r: (Sender, Interlock))
        ensures
            r.0 == (Sender {
                sender: None,
                original: false,
                successor: false,
                local: LocalConnect::Impossible,
            }),
            r.1 == (Interlock { sender: Location::Local, receiver: Location::Remote }),
            final(ports).expected@ == old(ports).expected@.insert(transported.port, callback),
            final(ports).tasks@ == old(ports).tasks@,
    {
        ports.accept(transported.port, callback);
        (
            Sender {
                sender: None,
                original: false,
                successor: false,
                local: LocalConnect::Impossible,
            },
            Interlock { sender: Location::Local, receiver: Location::Remote },
        )
    }

    /// Drops the sender; returns what to hand to the task that waits to take it over, if any.
    pub fn drop(self) -> (r: Option<Sender>)
        ensures
            r == (if self.successor {
                Some(Sender { successor: false, ..self })
            } else {
                None
            }),
    {
        if self.successor {
            Some(Sender { successor: false, ..self })
        } else {
            None
        }
    }
}

/// Connecting finishes after at most three outside results.
pub proof fn law_connect_terminates(sender: Sender, taken: bool, reply: Option<u64>)
    requires
        sender.next() == ConnectAction::RequestLocal,
    ensures
        ({
            let requested = Sender {
                local: if taken {
                    LocalConnect::Requested
                } else {
                    LocalConnect::Impossible
                },
                ..sender
            };
            let replied = Sender {
                local: LocalConnect::Impossible,
                sender: match reply {
                    Some(connection) => Some(Ok(connection)),
                    None => None,
                },
                ..sender
            };
            &&& requested.next() == (if taken {
                ConnectAction::AwaitReply
            } else {
                ConnectAction::AwaitRemote
            })
            &&& replied.next() == (if reply is Some {
                ConnectAction::Finished
            } else {
                ConnectAction::AwaitRemote
            })
        }),
{
}

/// A sender is connected to a receiver at the same endpoint if that replies, and to a remote one
/// otherwise; connecting always finishes, with the first connection that is found.
pub proof fn law_sender_is_connected(
    start: Sender,
    first: ConnectAction,
    requested: Sender,
    taken: bool,
    second: ConnectAction,
    replied: Sender,
    reply: Option<u64>,
    third: ConnectAction,
    connected: Sender,
    arrived: Option<Result<u64, ConnectError>>,
    last: ConnectAction,
    r: Result<u64, ConnectError>,
)
    requires
        start.sender is None,
        start.local is Ready,
        call_ensures(Sender::connect, (&start,), first),
        exists|state: &mut Sender| #[trigger]
            call_ensures(Sender::on_requested, (state, taken), second) && *state == start
                && *final(state) == requested,
        taken ==> exists|state: &mut Sender| #[trigger]
            call_ensures(Sender::on_reply, (state, reply), third) && *state == requested && *final(state) == replied,
        !taken ==> replied == requested && third == second,
        third is AwaitRemote ==> exists|state: &mut Sender| #[trigger]
            call_ensures(Sender::on_remote, (state, arrived), last) && *state == replied && *final(state) == connected,
        !(third is AwaitRemote) ==> connected == replied && last == third,
        call_ensures(Sender::get, (&connected,), r),
    ensures
        first is RequestLocal,
        second == (if taken {
            ConnectAction::AwaitReply
        } else {
            ConnectAction::AwaitRemote
        }),
        last is Finished,
        taken && reply is Some ==> r == Ok::<u64, ConnectError>(reply->0),
        !(taken && reply is Some) ==> (arrived matches Some(res) ==> r == res),
        !(taken && reply is Some) && arrived is None ==> r == Err::<u64, ConnectError>(
            ConnectError::Dropped,
        ),
        connected.original == start.original,
{
}

/// A sender whose connection is known has finished connecting; one that was received waits for a
/// remote connection.
pub proof fn law_next_step_of_connecting(
    sender: Sender,
    r: ConnectAction,
    transported: TransportedSender,
    callback: u64,
    received: (Sender, Interlock),
    of_received: ConnectAction,
)
    requires
        call_ensures(Sender::connect, (&sender,), r),
        exists|ports: &mut PortDeserializer| #[trigger]
            call_ensures(Sender::deserialize, (transported, ports, callback), received),
        call_ensures(Sender::connect, (&received.0,), of_received),
    ensures
        r is Finished <==> sender.sender is Some,
        sender.sender is None ==> (r is RequestLocal <==> sender.local is Ready),
        sender.sender is None ==> (r is AwaitReply <==> sender.local is Requested),
        of_received is AwaitRemote,
        !received.0.original && received.1.receiver is Remote && received.1.sender is Local,
{
}

/// A sender that is sent hands its connection directly to the receiver exactly if both were created
/// here and the receiver has not left; otherwise the data is forwarded by a task that takes over the
/// sender when it is dropped.
pub proof fn law_sent_sender_is_forwarded(
    before: Sender,
    after: Sender,
    lock_before: Interlock,
    lock_after: Interlock,
    ports_before: PortSerializer,
    ports_after: PortSerializer,
    confirmation: Confirmation,
    port: u32,
    callback: u64,
    forward_callback: u64,
    forward_task: u64,
    r: Result<TransportedSender, String>,
    dropped: Option<Sender>,
)
    requires
        exists|state: &mut Sender, interlock: &mut Interlock, ports: &mut PortSerializer| #[trigger]
            call_ensures(
                Sender::serialize,
                (
                    state,
                    interlock,
                    confirmation,
                    ports,
                    Ok(port),
                    callback,
                    forward_callback,
                    forward_task,
                ),
                r,
            ) && *state == before && *final(state) == after && *interlock == lock_before && *final(
                interlock) == lock_after && *ports == ports_before && *final(ports) == ports_after,
        call_ensures(Sender::drop, (after,), dropped),
    ensures
        ({
            let here = lock_before.receiver is Local || lock_before.receiver is Sending
                && confirmation is Abandoned;
            &&& r == Ok::<TransportedSender, String>(TransportedSender { port })
            &&& before.original && here ==> ports_after.requests@ == ports_before.requests@.push(
                (port, callback),
            ) && ports_after.tasks@ == ports_before.tasks@ && after.successor == before.successor
            &&& !(before.original && here) ==> ports_after.requests@
                == ports_before.requests@.push((port, forward_callback)) && ports_after.tasks@
                == ports_before.tasks@.push(forward_task) && (dropped matches Some(handed)
                && handed.sender == before.sender && handed.original == before.original)
            &&& here ==> lock_after.sender is Sending
            &&& !here ==> lock_after.sender == lock_before.sender
        }),
        dropped is Some <==> after.successor,
{
}

/// A sender that is sent requests the port that was allocated and none without one; nothing of it
/// changes but that a task may wait for it. One that arrives expects its port with its callback
/// and cannot be connected locally.
pub proof fn law_port_of_a_binary_sender(
    before: Sender,
    after: Sender,
    interlock: Interlock,
    confirmation: Confirmation,
    start: PortSerializer,
    end: PortSerializer,
    callbacks: (u64, u64),
    task: u64,
    err: String,
    r: Result<TransportedSender, String>,
    transported: TransportedSender,
    expecting: PortDeserializer,
    expected: PortDeserializer,
    arrived: (Sender, Interlock),
)
    requires
        exists|state: &mut Sender, lock: &mut Interlock, ports: &mut PortSerializer| #[trigger]
            call_ensures(
                Sender::serialize,
                (
                    state,
                    lock,
                    confirmation,
                    ports,
                    Err(err),
                    callbacks.0,
                    callbacks.1,
                    task,
                ),
                r,
            ) && *state == before && *final(state) == after && *lock == interlock && *ports == start
                && *final(ports) == end,
        exists|ports: &mut PortDeserializer| #[trigger]
            call_ensures(Sender::deserialize, (transported, ports, callbacks.0), arrived) && *ports
                == expecting && *final(ports) == expected,
    ensures
        r == Err::<TransportedSender, String>(err),
        end.requests@ == start.requests@,
        after == (Sender { successor: after.successor, ..before }),
        expected.tasks@ == expecting.tasks@,
        expected.expected@ == expecting.expected@.insert(transported.port, callbacks.0),
        arrived.1.sender is Local && arrived.1.receiver is Remote,
        arrived.0.sender is None && !arrived.0.original && !arrived.0.successor,
        arrived.0.local is Impossible,
{
}

/// A dropped sender is handed over exactly if a task waits for it, and nobody waits for it then.
pub proof fn law_dropped_binary_sender(sender: Sender, r: Option<Sender>)
    requires
        call_ensures(Sender::drop, (sender,), r),
    ensures
        r is Some <==> sender.successor,
        r matches Some(handed) ==> handed == (Sender { successor: false, ..sender }),
{
}

} // verus!
