//! The many-producer, single-consumer channel.
//!
//! A channel half that has been sent to a remote endpoint is served by a task
//! that moves values between the local queue and the connection. The tasks'
//! decisions are made here. Several multiplexed channels may be used in
//! parallel; values are then spread over them in turn and collected in turn.

pub mod queue;
pub mod receiver;
pub mod sender;

pub use receiver::{Receiver, RecvError, TransportedReceiver, TryRecvError};
pub use sender::{SendError, Sender, SenderSink, TransportedSender, TrySendError};

use vstd::prelude::*;
use std::collections::VecDeque;
use crate::chmux;
use crate::rch::base;
use crate::rch::{
    ClosedReason, RemoteSendError, BACKCHANNEL_MSG_CLOSE, BACKCHANNEL_MSG_ERROR,
    DEFAULT_MAX_ITEM_SIZE,
};
use crate::wire::get_u8;

verus! {

/// Creates a channel whose local queue takes `local_buffer` values.
pub fn channel(local_buffer: usize) -> (r: (Sender, Receiver))
    requires
        local_buffer > 0,
    ensures
        r.0 == (Sender {
            queue: Some(local_buffer),
            closed: None,
            remote_send_err: None,
            max_item_size: DEFAULT_MAX_ITEM_SIZE,
            parallel: None,
        }),
        r.1 == (Receiver {
            has_queue: true,
            closed: false,
            successor: false,
            final_err: None,
            max_item_size: DEFAULT_MAX_ITEM_SIZE,
            remote_max_item_size: None,
            parallel: None,
        }),
{
    (
        Sender::new(local_buffer, None),
        Receiver::new(false, DEFAULT_MAX_ITEM_SIZE, None, None),
    )
}

/// Sets the maximum size of a value on both halves of a channel.
pub fn with_max_item_size(halves: (Sender, Receiver), max_item_size: usize) -> (r: (
    Sender,
    Receiver,
))
    ensures
        r.0 == (Sender { max_item_size, ..halves.0 }),
        r.1 == (Receiver { max_item_size, successor: false, ..halves.1 }),
{
    let (mut tx, rx) = halves;
    tx.set_max_item_size(max_item_size);
    let rx = rx.set_max_item_size(max_item_size);
    (tx, rx)
}

/// Sets the number of additional parallel channels on both halves of a channel.
pub fn with_parallel(halves: (Sender, Receiver), parallel: usize) -> (r: (Sender, Receiver))
    ensures
        r.0 == (Sender { parallel: Some(parallel), ..halves.0 }),
        r.1 == (Receiver { parallel: Some(parallel), ..halves.1 }),
{
    let (mut tx, mut rx) = halves;
    tx.set_parallel(Some(parallel));
    rx.set_parallel(Some(parallel));
    (tx, rx)
}

/// A value queued for sending, together with who awaits the result.
pub struct SendReq<T> {
    /// The value, or an error to be reported by the receiver.
    pub value: Result<T, RecvError>,
    /// Number of the handle that awaits the result of sending, if any.
    pub result_tx: Option<u64>,
}

impl<T> SendReq<T> {
    /// Creates a request whose result nobody awaits.
    pub fn new(value: Result<T, RecvError>) -> (r: Self)
        ensures
            r == (SendReq { value, result_tx: None }),
    {
        SendReq { value, result_tx: None }
    }

    /// Takes the value over locally.
    ///
    /// Returns the value and the handle to which success is to be reported.
    pub fn ack(self) -> (r: (Result<T, RecvError>, Option<u64>))
        ensures
            r == (self.value, self.result_tx),
    {
        let SendReq { value, result_tx } = self;
        (value, result_tx)
    }

    /// Takes the value out, leaving an error in its place.
    pub fn take_value(&mut self) -> (r: Result<T, RecvError>)
        ensures
            r == old(self).value,
            final(self).value == Err::<T, RecvError>(
                RecvError::Connect(chmux::ConnectError::Rejected),
            ),
            final(self).result_tx == old(self).result_tx,
    {
        let mut value: Result<T, RecvError> = Err(
            RecvError::Connect(chmux::ConnectError::Rejected),
        );
        core::mem::swap(&mut self.value, &mut value);
        value
    }

    /// Returns the handle to which success is to be reported, at most once.
    pub fn result_ok(&mut self) -> (r: Option<u64>)
        ensures
            r == old(self).result_tx,
            final(self).result_tx is None,
            final(self).value == old(self).value,
    {
        self.result_tx.take()
    }

    /// Reports that sending failed.
    ///
    /// `delivered` says whether the handle, if there is one, took the error. An
    /// error that reached nobody is returned, unless an error was being sent.
    pub fn result_err(
        &mut self,
        err: base::SendError<Result<T, RecvError>>,
        delivered: bool,
    ) -> (r: Result<(), base::SendError<T>>)
        ensures
            final(self).value == old(self).value,
            err.item is Err ==> r is Ok && final(self).result_tx == old(self).result_tx,
            err.item is Ok ==> {
                &&& final(self).result_tx is None
                &&& r == (if old(self).result_tx is Some && delivered {
                    Ok::<(), base::SendError<T>>(())
                } else {
                    Err(base::SendError { kind: err.kind, item: err.item->Ok_0 })
                })
            },
    {
        let base::SendError { kind, item } = err;
        match item {
            Err(_) => Ok(()),
            Ok(item) => match self.result_tx.take() {
                Some(_) if delivered => Ok(()),
                _ => Err(base::SendError { kind, item }),
            },
        }
    }
}

/// What became known about the remote half of a channel.
pub struct Verdict {
    /// The error that further sends report and the reason for which the channel is closed.
    pub publish: Option<(RemoteSendError, ClosedReason)>,
    /// Whether the task ends.
    pub stop: bool,
}

/// What a back channel message, or the end of the back channel, says.
pub open spec fn backchannel_verdict(msg: Result<Option<Seq<u8>>, ()>) -> Verdict {
    match msg {
        Ok(Some(data)) => if data.len() >= 1 && data[0] == BACKCHANNEL_MSG_CLOSE {
            Verdict {
                publish: Some((RemoteSendError::Closed, ClosedReason::Closed)),
                stop: true,
            }
        } else if data.len() >= 1 && data[0] == BACKCHANNEL_MSG_ERROR {
            Verdict {
                publish: Some((RemoteSendError::Forward, ClosedReason::Failed)),
                stop: true,
            }
        } else {
            Verdict { publish: None, stop: false }
        },
        Ok(None) => Verdict {
            publish: Some(
                (
                    RemoteSendError::Send(
                        base::SendErrorKind::Send(chmux::SendError::Closed { gracefully: false }),
                    ),
                    ClosedReason::Dropped,
                ),
            ),
            stop: true,
        },
        Err(_) => Verdict {
            publish: Some(
                (
                    RemoteSendError::Send(base::SendErrorKind::Send(chmux::SendError::ChMux)),
                    ClosedReason::Failed,
                ),
            ),
            stop: true,
        },
    }
}

/// The received message as a sequence of bytes.
pub open spec fn message_view(msg: Result<Option<Vec<u8>>, ()>) -> Result<Option<Seq<u8>>, ()> {
    match msg {
        Ok(Some(data)) => Ok(Some(data@)),
        Ok(None) => Ok(None),
        Err(()) => Err(()),
    }
}

/// Takes the multiplexed channels of a connection in turn.
pub struct RoundRobin {
    /// The channels, the next one first.
    pub order: VecDeque<usize>,
}

/// The order of `n` channels after `k` of them have been used.
pub open spec fn turn(n: nat, k: nat) -> Seq<usize> {
    Seq::new(n, |i: int| ((i + k) % (n as int)) as usize)
}

impl RoundRobin {
    /// Creates the order in which `n` channels are used.
    pub fn new(n: usize) -> (r: Self)
        ensures
            r.order@ == turn(n as nat, 0),
    {
        let mut order: VecDeque<usize> = VecDeque::new();
        let mut i: usize = 0;
        while i < n
            invariant
                i <= n,
                order@.len() == i,
                forall|j: int| 0 <= j < i ==> #[trigger] order@[j] == j,
            decreases n - i,
        {
            order.push_back(i);
            i = i + 1;
        }
        assert(order@ =~= turn(n as nat, 0)) by {
            assert forall|j: int| 0 <= j < n implies #[trigger] turn(n as nat, 0)[j] == j by {
                vstd::arithmetic::div_mod::lemma_small_mod(j as nat, n as nat);
            }
        }
        RoundRobin { order }
    }

    /// Returns the channel whose turn it is.
    pub fn current(&self) -> (r: usize)
        requires
            self.order@.len() > 0,
        ensures
            r == self.order@[0],
    {
        self.order[0]
    }

    /// Lets the next channel have its turn.
    pub fn advance(&mut self)
        requires
            old(self).order@.len() > 0,
        ensures
            final(self).order@ == old(self).order@.drop_first().push(old(self).order@[0]),
    {
        let ghost before = self.order@;
        match self.order.pop_front() {
            Some(front) => {
                self.order.push_back(front);
                assert(self.order@ =~= before.drop_first().push(before[0]));
            },
            None => {
                assert(false);
            },
        }
    }
}

/// How a request is to be sent.
#[derive(Clone, Copy, Debug, PartialEq, Eq, Structural)]
pub enum Dispatch {
    /// The channel ended, so the task ends.
    Stop,
    /// Send over the only multiplexed channel and wait for the result.
    Direct,
    /// Hand the request to the task of this multiplexed channel.
    Worker(usize),
}

/// Decisions of the task that sends queued values to a remote receiver.
pub struct SendTask {
    /// Turns of the multiplexed channels.
    pub channels: RoundRobin,
}

impl SendTask {
    /// There is at least one multiplexed channel.
    pub open spec fn wf(self) -> bool {
        self.channels.order@.len() > 0
    }

    /// Creates the task for the given number of multiplexed channels.
    pub fn new(raw_txs: usize) -> (r: Self)
        requires
            raw_txs > 0,
        ensures
            r.wf(),
            r.channels.order@ == turn(raw_txs as nat, 0),
    {
        SendTask { channels: RoundRobin::new(raw_txs) }
    }

    /// Creates the task for the given multiplexed channels, and the base sender of each of
    /// them, which takes no value larger than `max_item_size`.
    pub fn open(raw_txs: Vec<base::RawSender>, max_item_size: usize) -> (r: (
        Self,
        Vec<base::ErasedSender>,
    ))
        requires
            raw_txs@.len() > 0,
        ensures
            r.0.wf(),
            r.0.channels.order@ == turn(raw_txs@.len(), 0),
            r.1@.len() == raw_txs@.len(),
            forall|i: int|
                #![trigger r.1@[i]]
                0 <= i < r.1@.len() ==> {
                    &&& r.1@[i].wf()
                    &&& r.1@[i].sender == raw_txs@[i]
                    &&& r.1@[i].max_item_size == max_item_size
                },
    {
        let mut base_txs: Vec<base::ErasedSender> = Vec::new();
        let mut i: usize = 0;
        while i < raw_txs.len()
            invariant
                i <= raw_txs@.len(),
                base_txs@.len() == i,
                forall|j: int|
                    #![trigger base_txs@[j]]
                    0 <= j < i ==> {
                        &&& base_txs@[j].wf()
                        &&& base_txs@[j].sender == raw_txs@[j]
                        &&& base_txs@[j].max_item_size == max_item_size
                    },
            decreases raw_txs@.len() - i,
        {
            let mut base_tx = base::ErasedSender::new(raw_txs[i]);
            base_tx.set_max_item_size(max_item_size);
            base_txs.push(base_tx);
            i = i + 1;
        }
        (SendTask::new(raw_txs.len()), base_txs)
    }

    /// Processes a message of the back channel.
    ///
    /// `Ok(None)` means that the remote receiver was dropped, an error that the
    /// connection failed. Unknown and empty messages are ignored.
    pub fn on_backchannel(&self, msg: Result<Option<Vec<u8>>, ()>) -> (r: Verdict)
        ensures
            r == backchannel_verdict(message_view(msg)),
    {
        match msg {
            Ok(Some(data)) => {
                if data.len() >= 1 {
                    let kind: u8 = get_u8(data.as_slice());
                    if kind == BACKCHANNEL_MSG_CLOSE {
                        return Verdict {
                            publish: Some((RemoteSendError::Closed, ClosedReason::Closed)),
                            stop: true,
                        };
                    }
                    if kind == BACKCHANNEL_MSG_ERROR {
                        return Verdict {
                            publish: Some((RemoteSendError::Forward, ClosedReason::Failed)),
                            stop: true,
                        };
                    }
                }
                Verdict { publish: None, stop: false }
            },
            Ok(None) => Verdict {
                publish: Some(
                    (
                        RemoteSendError::Send(
                            base::SendErrorKind::Send(
                                chmux::SendError::Closed { gracefully: false },
                            ),
                        ),
                        ClosedReason::Dropped,
                    ),
                ),
                stop: true,
            },
            Err(_) => Verdict {
                publish: Some(
                    (
                        RemoteSendError::Send(base::SendErrorKind::Send(chmux::SendError::ChMux)),
                        ClosedReason::Failed,
                    ),
                ),
                stop: true,
            },
        }
    }

    /// Processes what came out of the local queue: a request or its end.
    pub fn on_request(&self, request: bool) -> (r: Dispatch)
        requires
            self.wf(),
        ensures
            r == (if !request {
                Dispatch::Stop
            } else if self.channels.order@.len() == 1 {
                Dispatch::Direct
            } else {
                Dispatch::Worker(self.channels.order@[0])
            }),
    {
        if !request {
            Dispatch::Stop
        } else if self.channels.order.len() == 1 {
            Dispatch::Direct
        } else {
            Dispatch::Worker(self.channels.current())
        }
    }

    /// Processes whether the task of a multiplexed channel took a request.
    ///
    /// Returns whether to stop, which happens once the other task is gone.
    pub fn on_handed_over(&mut self, taken: bool) -> (stop: bool)
        requires
            old(self).wf(),
        ensures
            final(self).wf(),
            stop == !taken,
            final(self).channels.order@ == (if taken {
                old(self).channels.order@.drop_first().push(old(self).channels.order@[0])
            } else {
                old(self).channels.order@
            }),
    {
        if taken {
            self.channels.advance();
        }
        !taken
    }

    /// Processes the result of sending a request and says what to publish.
    ///
    /// A failure of any kind marks the channel as failed.
    pub fn on_sent(result: &Result<(), base::SendErrorKind>) -> (r: Option<
        (RemoteSendError, ClosedReason),
    >)
        ensures
            r == (match *result {
                Ok(()) => None::<(RemoteSendError, ClosedReason)>,
                Err(kind) => Some((RemoteSendError::Send(kind), ClosedReason::Failed)),
            }),
    {
        match result {
            Ok(()) => None,
            Err(kind) => Some((RemoteSendError::Send(kind.clone()), ClosedReason::Failed)),
        }
    }

    /// Whether a failure that reached nobody is worth a warning.
    pub fn warns_about<T>(unreported: &Result<(), base::SendError<T>>) -> (r: bool)
        ensures
            r == (unreported matches Err(err) && err.kind.spec_is_item_specific()),
    {
        match unreported {
            Ok(()) => false,
            Err(err) => err.is_item_specific(),
        }
    }
}

/// When the task that receives values ends.
#[derive(Clone, Copy, Debug, PartialEq, Eq, Structural)]
pub enum Ending {
    /// Not now.
    Never,
    /// If the local receiver does not take what is delivered.
    IfRefused,
    /// Now, after delivering.
    Now,
}

/// What the task that receives values does next.
pub struct RecvStep<T> {
    /// Message to send over the back channel.
    pub send_back: Option<u8>,
    /// What to put into the local queue.
    pub deliver: Option<Result<T, RecvError>>,
    /// When to end.
    pub ending: Ending,
}

/// Decisions of the task that receives values from a remote sender.
pub struct RecvTask {
    /// Turns of the multiplexed channels.
    pub channels: RoundRobin,
}

impl RecvTask {
    /// There is at least one multiplexed channel.
    pub open spec fn wf(self) -> bool {
        self.channels.order@.len() > 0
    }

    /// Creates the task for the given number of multiplexed channels.
    pub fn new(raw_rxs: usize) -> (r: Self)
        requires
            raw_rxs > 0,
        ensures
            r.wf(),
            r.channels.order@ == turn(raw_rxs as nat, 0),
    {
        RecvTask { channels: RoundRobin::new(raw_rxs) }
    }

    /// Creates the task for the given number of multiplexed channels, and the base receiver of
    /// each of them, which takes no value larger than `max_item_size`.
    pub fn open<D, T>(raw_rxs: usize, max_item_size: usize) -> (r: (
        Self,
        Vec<base::ErasedReceiver<D, T>>,
    ))
        requires
            raw_rxs > 0,
        ensures
            r.0.wf(),
            r.0.channels.order@ == turn(raw_rxs as nat, 0),
            r.1@.len() == raw_rxs,
            forall|i: int|
                #![trigger r.1@[i]]
                0 <= i < r.1@.len() ==> {
                    &&& r.1@[i].is_fresh()
                    &&& r.1@[i].max_item_size == max_item_size
                },
    {
        let mut base_rxs: Vec<base::ErasedReceiver<D, T>> = Vec::new();
        while base_rxs.len() < raw_rxs
            invariant
                base_rxs@.len() <= raw_rxs,
                forall|j: int|
                    #![trigger base_rxs@[j]]
                    0 <= j < base_rxs@.len() ==> {
                        &&& base_rxs@[j].is_fresh()
                        &&& base_rxs@[j].max_item_size == max_item_size
                    },
            decreases raw_rxs - base_rxs@.len(),
        {
            let mut base_rx = base::ErasedReceiver::new();
            base_rx.set_max_item_size(max_item_size);
            base_rxs.push(base_rx);
        }
        (RecvTask::new(raw_rxs), base_rxs)
    }

    /// Returns the multiplexed channel to receive from.
    pub fn source(&self) -> (r: usize)
        requires
            self.wf(),
        ensures
            r == self.channels.order@[0],
    {
        self.channels.current()
    }

    /// Processes what came from the multiplexed channel whose turn it is.
    ///
    /// `None` means that its task is gone, which counts as a failed connection.
    pub fn on_turn<T>(
        &mut self,
        received: Option<Result<Option<T>, base::RecvError>>,
    ) -> (r: Result<Option<T>, base::RecvError>)
        requires
            old(self).wf(),
        ensures
            final(self).wf(),
            final(self).channels.order@ == old(self).channels.order@.drop_first().push(
                old(self).channels.order@[0],
            ),
            r == (match received {
                Some(res) => res,
                None => Err::<Option<T>, base::RecvError>(
                    base::RecvError::Receive(chmux::RecvError::ChMux),
                ),
            }),
    {
        self.channels.advance();
        match received {
            Some(res) => res,
            None => Err(base::RecvError::Receive(chmux::RecvError::ChMux)),
        }
    }

    /// Processes a change of the reason for which the local receiver is closed.
    ///
    /// An error means that the local receiver is gone.
    pub fn on_closed<T>(change: Result<Option<ClosedReason>, ()>) -> (r: RecvStep<T>)
        ensures
            r.deliver is None,
            r.send_back == (match change {
                Ok(Some(ClosedReason::Closed)) => Some(BACKCHANNEL_MSG_CLOSE),
                Ok(Some(ClosedReason::Failed)) => Some(BACKCHANNEL_MSG_ERROR),
                _ => None,
            }),
            r.ending == (match change {
                Ok(Some(ClosedReason::Dropped)) | Err(_) => Ending::Now,
                _ => Ending::Never,
            }),
    {
        match change {
            Ok(Some(ClosedReason::Closed)) => RecvStep {
                send_back: Some(BACKCHANNEL_MSG_CLOSE),
                deliver: None,
                ending: Ending::Never,
            },
            Ok(Some(ClosedReason::Failed)) => RecvStep {
                send_back: Some(BACKCHANNEL_MSG_ERROR),
                deliver: None,
                ending: Ending::Never,
            },
            Ok(Some(ClosedReason::Dropped)) => RecvStep {
                send_back: None,
                deliver: None,
                ending: Ending::Now,
            },
            Ok(None) => RecvStep { send_back: None, deliver: None, ending: Ending::Never },
            Err(_) => RecvStep { send_back: None, deliver: None, ending: Ending::Now },
        }
    }

    /// Processes a change of the error that occurred when sending on.
    pub fn on_remote_send_error<T>(present: bool) -> (r: RecvStep<T>)
        ensures
            r == (RecvStep::<T> {
                send_back: if present {
                    Some(BACKCHANNEL_MSG_ERROR)
                } else {
                    None
                },
                deliver: None,
                ending: Ending::Never,
            }),
    {
        let send_back: Option<u8> = if present {
            Some(BACKCHANNEL_MSG_ERROR)
        } else {
            None
        };
        RecvStep { send_back, deliver: None, ending: Ending::Never }
    }

    /// Processes what was received from the remote sender.
    ///
    /// The task ends when the sender is gone, the connection failed for good or
    /// the local receiver does not take what is delivered.
    pub fn on_received<T>(
        received: Result<Option<Result<T, RecvError>>, base::RecvError>,
    ) -> (r: RecvStep<T>)
        ensures
            r == (match received {
                Ok(Some(value)) => RecvStep {
                    send_back: None,
                    deliver: Some(value),
                    ending: Ending::IfRefused,
                },
                Ok(None) => RecvStep { send_back: None, deliver: None, ending: Ending::Now },
                Err(err) => RecvStep {
                    send_back: None,
                    deliver: Some(Err(RecvError::Receive(err))),
                    ending: if err.spec_is_disconnected() {
                        Ending::Now
                    } else {
                        Ending::IfRefused
                    },
                },
            }),
    {
        match received {
            Ok(Some(value)) => RecvStep {
                send_back: None,
                deliver: Some(value),
                ending: Ending::IfRefused,
            },
            Ok(None) => RecvStep { send_back: None, deliver: None, ending: Ending::Now },
            Err(err) => {
                let ending = if err.is_final() {
                    Ending::Now
                } else {
                    Ending::IfRefused
                };
                RecvStep { send_back: None, deliver: Some(Err(RecvError::Receive(err))), ending }
            },
        }
    }

    /// Whether the task goes on, given whether the local receiver took what was delivered.
    pub fn goes_on(ending: Ending, taken: bool) -> (r: bool)
        ensures
            r == (ending is Never || ending is IfRefused && taken),
    {
        match ending {
            Ending::Never => true,
            Ending::IfRefused => taken,
            Ending::Now => false,
        }
    }
}

/// How forwarding of a local queue goes on.
pub enum ForwardStep<T> {
    /// Take the next value out of the local queue.
    Receive,
    /// Send the value and then make room for the next one.
    Send(T),
    /// Forwarding finished.
    Finish(Result<(), SendError<()>>),
}

/// Goes on with forwarding after making room for a value was tried.
///
/// A receiver that went away in an orderly manner ends forwarding without an error.
pub fn forward_on_reserved<T>(reserved: Result<(), SendError<()>>) -> (r: ForwardStep<T>)
    ensures
        r == (match reserved {
            Ok(()) => ForwardStep::<T>::Receive,
            Err(err) => if crate::rch::is_orderly(err.reason()) {
                ForwardStep::Finish(Ok(()))
            } else {
                ForwardStep::Finish(Err(err))
            },
        }),
{
    match reserved {
        Ok(()) => ForwardStep::Receive,
        Err(err) => {
            if err.is_closed() {
                ForwardStep::Finish(Ok(()))
            } else {
                ForwardStep::Finish(Err(err))
            }
        },
    }
}

/// Goes on with forwarding after taking a value out of the local queue.
pub fn forward_on_value<T>(value: Option<T>) -> (r: ForwardStep<T>)
    ensures
        r == (match value {
            Some(value) => ForwardStep::Send(value),
            None => ForwardStep::Finish(Ok(())),
        }),
{
    match value {
        Some(value) => ForwardStep::Send(value),
        None => ForwardStep::Finish(Ok(())),
    }
}

/// The result of a forwarding task; one that was stopped counts as closed.
pub fn forward_result(joined: Option<Result<(), SendError<()>>>) -> (r: Result<(), SendError<()>>)
    ensures
        r == (match joined {
            Some(res) => res,
            None => Err::<(), SendError<()>>(SendError::Closed(())),
        }),
{
    match joined {
        Some(res) => res,
        None => Err(SendError::Closed(())),
    }
}

/// The contents of `n` multiplexed channels after `items` were spread over them in turn.
pub open spec fn spread<T>(items: Seq<T>, n: nat) -> Seq<Seq<T>>
    decreases items.len(),
{
    if items.len() == 0 {
        Seq::new(n, |j: int| Seq::empty())
    } else {
        let before = spread(items.drop_last(), n);
        let j = (items.len() - 1) % (n as int);
        before.update(j, before[j].push(items.last()))
    }
}

/// The number of items on channel `j` of `n` after `m` items were spread.
spec fn share(m: nat, n: nat, j: int) -> int {
    m as int / n as int + if j < m as int % n as int {
        1int
    } else {
        0int
    }
}

/// Moving on to the next item either moves on to the next channel or starts a new round.
proof fn lemma_next_turn(m: int, n: int)
    requires
        m >= 0,
        n > 0,
    ensures
        0 <= m % n < n,
        m % n + 1 < n ==> (m + 1) / n == m / n && (m + 1) % n == m % n + 1,
        m % n + 1 == n ==> (m + 1) / n == m / n + 1 && (m + 1) % n == 0,
{
    let q = m / n;
    let r = m % n;
    vstd::arithmetic::div_mod::lemma_fundamental_div_mod(m, n);
    vstd::arithmetic::div_mod::lemma_mod_bound(m, n);
    if r + 1 < n {
        vstd::arithmetic::div_mod::lemma_fundamental_div_mod_converse(m + 1, n, q, r + 1);
    } else {
        assert(n * (q + 1) == n * q + n) by (nonlinear_arith);
        vstd::arithmetic::div_mod::lemma_fundamental_div_mod_converse(m + 1, n, q + 1, 0);
    }
}

proof fn lemma_spread_shares<T>(items: Seq<T>, n: nat)
    requires
        n > 0,
    ensures
        spread(items, n).len() == n,
        forall|j: int|
            0 <= j < n ==> #[trigger] spread(items, n)[j].len() == share(items.len(), n, j),
    decreases items.len(),
{
    if items.len() == 0 {
        vstd::arithmetic::div_mod::lemma_small_mod(0, n);
        vstd::arithmetic::div_mod::lemma_div_basics(n as int);
    } else {
        let m = items.len() - 1;
        lemma_spread_shares(items.drop_last(), n);
        lemma_next_turn(m, n as int);
    }
}

/// Values arrive in the order in which they were sent, however many channels carry them:
/// the value that is taken as number `k`, collecting from the channels in turn, is the one
/// that was sent as number `k`.
pub proof fn law_order_is_kept<T>(items: Seq<T>, n: nat, k: int)
    requires
        n > 0,
        0 <= k < items.len(),
    ensures
        0 <= k % (n as int) < spread(items, n).len(),
        0 <= k / (n as int) < spread(items, n)[k % (n as int)].len(),
        spread(items, n)[k % (n as int)][k / (n as int)] == items[k],
    decreases items.len(),
{
    let m = items.len() - 1;
    let init = items.drop_last();
    lemma_spread_shares(items, n);
    lemma_spread_shares(init, n);
    lemma_next_turn(m, n as int);
    lemma_next_turn(k, n as int);
    vstd::arithmetic::div_mod::lemma_div_pos_is_pos(k, n as int);
    if k < m {
        law_order_is_kept(init, n, k);
    }
}

/// The channels have their turns one after the other: after `k` values it is the turn of
/// channel `k` modulo the number of channels, on the sending as on the receiving side.
pub proof fn law_turns(n: nat, k: nat)
    requires
        0 < n <= usize::MAX,
    ensures
        turn(n, k).len() == n,
        turn(n, k)[0] == k % n,
        turn(n, k).drop_first().push(turn(n, k)[0]) == turn(n, k + 1),
{
    let before = turn(n, k);
    let after = turn(n, k + 1);
    vstd::arithmetic::div_mod::lemma_mod_bound(k as int, n as int);
    assert forall|i: int| 0 <= i < n implies #[trigger] before.drop_first().push(before[0])[i]
        == after[i] by {
        if i == n - 1 {
            assert((n - 1) + (k + 1) == n + k);
            vstd::arithmetic::div_mod::lemma_mod_add_multiples_vanish(k as int, n as int);
        } else {
            assert(before.drop_first()[i] == before[i + 1]);
        }
    }
    assert(before.drop_first().push(before[0]) =~= after);
}

/// The halves of a new channel are open and agree; the queue takes as many values as asked for.
pub proof fn law_new_mpsc_channel(
    local_buffer: usize,
    r: (Sender, Receiver),
    capacity: usize,
    closed: bool,
    max_item_size: usize,
    sized: (Sender, Receiver),
    parallel: usize,
    spread_out: (Sender, Receiver),
)
    requires
        call_ensures(channel, (local_buffer,), r),
        local_buffer > 0,
        call_ensures(Sender::capacity, (&r.0,), capacity),
        call_ensures(Sender::is_closed, (&r.0,), closed),
        call_ensures(with_max_item_size, (r, max_item_size), sized),
        call_ensures(with_parallel, (r, parallel), spread_out),
    ensures
        capacity == local_buffer,
        !closed && !r.1.closed && r.1.has_queue && r.1.final_err is None,
        r.0.max_item_size == r.1.max_item_size,
        sized.0.max_item_size == max_item_size && sized.1.max_item_size == max_item_size,
        sized.0.queue == r.0.queue,
        spread_out.0.parallel == Some(parallel) && spread_out.1.parallel == Some(parallel),
        spread_out.0.queue == r.0.queue,
{
}

/// What a receiving task tells the remote sender makes the sending task publish the same: that the
/// receiver was closed, or that sending on failed. It ends the sending task.
pub proof fn law_closing_is_published_to_the_sender<T>(
    reason: ClosedReason,
    step: RecvStep<T>,
    byte: u8,
    task: SendTask,
    msg: Vec<u8>,
    verdict: Verdict,
)
    requires
        call_ensures(RecvTask::on_closed::<T>, (Ok(Some(reason)),), step),
        step.send_back == Some(byte),
        msg@ == seq![byte],
        call_ensures(SendTask::on_backchannel, (&task, Ok(Some(msg))), verdict),
    ensures
        verdict.stop,
        verdict.publish matches Some((err, published)) && published == reason && (reason is Closed
            ==> err is Closed) && (reason is Failed ==> err is Forward),
        reason is Closed || reason is Failed,
        step.ending is Never,
{
}

/// A receiver that is dropped or gone ends the receiving task without a message; one that is merely
/// not closed does not.
pub proof fn law_gone_receiver_ends_receiving<T>(
    change: Result<Option<ClosedReason>, ()>,
    step: RecvStep<T>,
)
    requires
        call_ensures(RecvTask::on_closed::<T>, (change,), step),
    ensures
        step.ending is Now <==> change is Err || change == Ok::<Option<ClosedReason>, ()>(
            Some(ClosedReason::Dropped),
        ),
        !(step.ending is Now) ==> step.ending is Never,
        step.send_back is Some <==> change == Ok::<Option<ClosedReason>, ()>(
            Some(ClosedReason::Closed),
        ) || change == Ok::<Option<ClosedReason>, ()>(Some(ClosedReason::Failed)),
        step.deliver is None,
{
}

/// A failure to send a value on makes the remote sender publish that.
pub proof fn law_failure_of_sending_on_is_published<T>(
    present: bool,
    step: RecvStep<T>,
    byte: u8,
    task: SendTask,
    msg: Vec<u8>,
    verdict: Verdict,
)
    requires
        call_ensures(RecvTask::on_remote_send_error::<T>, (present,), step),
        msg@ == seq![byte],
        step.send_back matches Some(sent) ==> sent == byte,
        call_ensures(SendTask::on_backchannel, (&task, Ok(Some(msg))), verdict),
    ensures
        step.send_back is Some <==> present,
        step.ending is Never,
        step.deliver is None,
        present ==> verdict.stop && verdict.publish == Some(
            (RemoteSendError::Forward, ClosedReason::Failed),
        ),
{
}

/// The end of the back channel means that the remote receiver was dropped, its failure that the
/// connection was lost; other messages mean nothing.
pub proof fn law_back_channel_of_a_sender(
    task: SendTask,
    msg: Result<Option<Vec<u8>>, ()>,
    verdict: Verdict,
)
    requires
        call_ensures(SendTask::on_backchannel, (&task, msg), verdict),
    ensures
        msg matches Ok(None) ==> verdict.stop && verdict.publish == Some(
            (
                RemoteSendError::Send(
                    base::SendErrorKind::Send(chmux::SendError::Closed { gracefully: false }),
                ),
                ClosedReason::Dropped,
            ),
        ),
        msg is Err ==> verdict.stop && verdict.publish == Some(
            (
                RemoteSendError::Send(base::SendErrorKind::Send(chmux::SendError::ChMux)),
                ClosedReason::Failed,
            ),
        ),
        msg matches Ok(Some(data)) ==> {
            &&& verdict.stop <==> data@.len() >= 1 && (data@[0] == 1 || data@[0] == 2)
            &&& verdict.publish is Some <==> verdict.stop
        },
{
}

/// A value from the remote sender is delivered and a failure is delivered as one. The task goes on
/// if the value is taken, and ends with the sender and with a lost connection.
pub proof fn law_received_value_is_queued<T>(
    received: Result<Option<Result<T, RecvError>>, base::RecvError>,
    step: RecvStep<T>,
    taken: bool,
    goes_on: bool,
)
    requires
        call_ensures(RecvTask::on_received::<T>, (received,), step),
        call_ensures(RecvTask::goes_on, (step.ending, taken), goes_on),
    ensures
        received matches Ok(Some(value)) ==> step.deliver == Some(value) && goes_on == taken,
        received matches Ok(None) ==> step.deliver is None && !goes_on,
        received matches Err(err) ==> {
            &&& step.deliver == Some(Err::<T, RecvError>(RecvError::Receive(err)))
            &&& goes_on <==> taken && !(err matches base::RecvError::Receive(cause) && (cause
                is ChMux || cause is Rejected))
        },
        step.send_back is None,
{
}

/// The channels are used in turn: the first one first, and each again after all others.
pub proof fn law_channels_take_turns(
    n: usize,
    start: RoundRobin,
    before: RoundRobin,
    after: RoundRobin,
    first: usize,
    next: usize,
)
    requires
        call_ensures(RoundRobin::new, (n,), start),
        exists|state: &mut RoundRobin| #[trigger]
            call_ensures(RoundRobin::advance, (state,), ()) && *state == before && *final(state)
                == after,
        before.order@.len() > 0,
        call_ensures(RoundRobin::current, (&before,), first),
        call_ensures(RoundRobin::current, (&after,), next),
    ensures
        start.order@.len() == n,
        forall|i: int| 0 <= i < n ==> #[trigger] start.order@[i] == i,
        first == before.order@[0],
        after.order@.len() == before.order@.len(),
        forall|i: int|
            0 <= i < before.order@.len() - 1 ==> #[trigger] after.order@[i] == before.order@[i + 1],
        after.order@[before.order@.len() - 1] == first,
        before.order@.len() > 1 ==> next == before.order@[1],
        before.order@.len() == 1 ==> next == first,
{
    assert forall|i: int| 0 <= i < n implies #[trigger] start.order@[i] == i by {
        vstd::arithmetic::div_mod::lemma_small_mod(i as nat, n as nat);
    }
}

/// A request is sent over the only channel, or else handed to the channel whose turn it is, and the
/// end of the queue ends the task. A request that was taken gives the turn to the next channel.
pub proof fn law_requests_are_dispatched_in_turn(
    before: SendTask,
    after: SendTask,
    request: bool,
    dispatch: Dispatch,
    taken: bool,
    stop: bool,
    next: Dispatch,
)
    requires
        call_ensures(SendTask::on_request, (&before, request), dispatch),
        exists|state: &mut SendTask| #[trigger]
            call_ensures(SendTask::on_handed_over, (state, taken), stop) && *state == before
                && *final(state) == after,
        call_ensures(SendTask::on_request, (&after, true), next),
        before.wf(),
    ensures
        dispatch is Stop <==> !request,
        dispatch is Direct <==> request && before.channels.order@.len() == 1,
        dispatch matches Dispatch::Worker(channel) ==> channel == before.channels.order@[0]
            && before.channels.order@.len() > 1,
        stop == !taken,
        !taken ==> after.channels.order@ == before.channels.order@,
        taken && before.channels.order@.len() > 1 ==> next == Dispatch::Worker(
            before.channels.order@[1],
        ),
{
}

/// Both ends use the channels in the same order: if they have the same turns, a value that is handed
/// over is received from the channel that it was handed to, and they have the same turns again.
pub proof fn law_ends_keep_step<T>(
    tx_before: SendTask,
    tx_after: SendTask,
    rx_before: RecvTask,
    rx_after: RecvTask,
    dispatch: Dispatch,
    stop: bool,
    source: usize,
    received: Option<Result<Option<T>, base::RecvError>>,
    r: Result<Option<T>, base::RecvError>,
)
    requires
        tx_before.wf(),
        tx_before.channels.order@ == rx_before.channels.order@,
        call_ensures(SendTask::on_request, (&tx_before, true), dispatch),
        exists|state: &mut SendTask| #[trigger]
            call_ensures(SendTask::on_handed_over, (state, true), stop) && *state == tx_before
                && *final(state) == tx_after,
        call_ensures(RecvTask::source, (&rx_before,), source),
        exists|state: &mut RecvTask| #[trigger]
            call_ensures(RecvTask::on_turn::<T>, (state, received), r) && *state == rx_before
                && *final(state) == rx_after,
    ensures
        dispatch matches Dispatch::Worker(channel) ==> channel == source,
        tx_after.channels.order@ == rx_after.channels.order@,
        received matches Some(res) ==> r == res,
        received is None ==> r == Err::<Option<T>, base::RecvError>(
            base::RecvError::Receive(chmux::RecvError::ChMux),
        ),
{
}

/// Both tasks start with the first channel and have a half with the given limit for each channel.
pub proof fn law_tasks_start_together<D, T>(
    raw_txs: Vec<base::RawSender>,
    max_item_size: usize,
    tx: (SendTask, Vec<base::ErasedSender>),
    rx: (RecvTask, Vec<base::ErasedReceiver<D, T>>),
    i: int,
)
    requires
        call_ensures(SendTask::open, (raw_txs, max_item_size), tx),
        call_ensures(RecvTask::open::<D, T>, (raw_txs@.len() as usize, max_item_size), rx),
        0 <= i < raw_txs@.len() <= usize::MAX,
    ensures
        tx.0.channels.order@ == rx.0.channels.order@,
        tx.0.channels.order@[0] == 0,
        tx.1@.len() == raw_txs@.len() && rx.1@.len() == raw_txs@.len(),
        tx.1@[i].max_item_size == max_item_size && rx.1@[i].max_item_size == max_item_size,
        tx.1@[i].sender == raw_txs@[i],
        rx.1@[i].item is None && rx.1@[i].data is Empty && rx.1@[i].recved is None,
{
    vstd::arithmetic::div_mod::lemma_small_mod(0, raw_txs@.len());
}

/// A failure to send a value is published and marks the channel as failed; a value that was sent
/// publishes nothing.
pub proof fn law_failed_send_is_published(
    result: Result<(), base::SendErrorKind>,
    r: Option<(RemoteSendError, ClosedReason)>,
)
    requires
        call_ensures(SendTask::on_sent, (&result,), r),
    ensures
        r is Some <==> result is Err,
        result matches Err(kind) ==> r == Some((RemoteSendError::Send(kind), ClosedReason::Failed)),
{
}

/// A failure that reached nobody is worth a warning exactly if the value caused it.
pub proof fn law_unreported_failure_of_a_value<T>(
    unreported: Result<(), base::SendError<T>>,
    r: bool,
)
    requires
        call_ensures(SendTask::warns_about::<T>, (&unreported,), r),
    ensures
        r <==> (unreported matches Err(err) && !(err.kind is Send)),
{
}

/// Who awaits the result of sending is told once: of success, or of the failure, which otherwise is
/// returned with the value.
pub proof fn law_result_is_reported_once<T>(
    req: SendReq<T>,
    after: SendReq<T>,
    handle: Option<u64>,
    again: Option<u64>,
    failed: SendReq<T>,
    err: base::SendError<Result<T, RecvError>>,
    delivered: bool,
    r: Result<(), base::SendError<T>>,
    acknowledged: (Result<T, RecvError>, Option<u64>),
)
    requires
        exists|state: &mut SendReq<T>| #[trigger]
            call_ensures(SendReq::<T>::result_ok, (state,), handle) && *state == req
                && *final(state) == after,
        exists|state: &mut SendReq<T>| #[trigger]
            call_ensures(SendReq::<T>::result_ok, (state,), again) && *state == after,
        exists|state: &mut SendReq<T>| #[trigger]
            call_ensures(SendReq::<T>::result_err, (state, err, delivered), r) && *state == req
                && *final(state) == failed,
        call_ensures(SendReq::<T>::ack, (req,), acknowledged),
    ensures
        handle == req.result_tx,
        again is None,
        after.value == req.value,
        acknowledged == (req.value, req.result_tx),
        r is Err <==> err.item is Ok && (req.result_tx is None || !delivered),
        r matches Err(unreported) ==> err.item == Ok::<T, RecvError>(unreported.item)
            && unreported.kind == err.kind,
        err.item is Ok ==> failed.result_tx is None,
{
}

/// The value of a request is taken out once; the request then holds an error.
pub proof fn law_value_is_taken_out<T>(req: SendReq<T>, after: SendReq<T>, r: Result<T, RecvError>)
    requires
        exists|state: &mut SendReq<T>| #[trigger]
            call_ensures(SendReq::<T>::take_value, (state,), r) && *state == req
                && *final(state) == after,
    ensures
        r == req.value,
        after.value is Err,
        after.result_tx == req.result_tx,
{
}

/// Forwarding receives a value once there is room for it and sends what it received. It ends
/// without an error when either side is gone in an orderly manner, and otherwise with the failure.
pub proof fn law_queue_is_forwarded<T>(
    reserved: Result<(), SendError<()>>,
    on_reserved: ForwardStep<T>,
    closed: bool,
    value: Option<T>,
    on_value: ForwardStep<T>,
    joined: Option<Result<(), SendError<()>>>,
    r: Result<(), SendError<()>>,
)
    requires
        call_ensures(forward_on_reserved::<T>, (reserved,), on_reserved),
        reserved matches Err(err) ==> call_ensures(SendError::<()>::is_closed, (&err,), closed),
        call_ensures(forward_on_value::<T>, (value,), on_value),
        call_ensures(forward_result, (joined,), r),
    ensures
        on_reserved is Receive <==> reserved is Ok,
        reserved is Err && closed ==> on_reserved == ForwardStep::<T>::Finish(Ok(())),
        reserved is Err && !closed ==> on_reserved == ForwardStep::<T>::Finish(reserved),
        value matches Some(v) ==> on_value == ForwardStep::Send(v),
        value is None ==> on_value == ForwardStep::<T>::Finish(Ok(())),
        joined matches Some(res) ==> r == res,
        joined is None ==> r == Err::<(), SendError<()>>(SendError::Closed(())),
{
}

/// A value that is queued holds what it was made of, and nobody waits for what becomes of it. A
/// task starts with the first channel and uses the others in order.
pub proof fn law_new_mpsc_tasks<T>(
    value: Result<T, RecvError>,
    req: SendReq<T>,
    channels: usize,
    sending: SendTask,
    receiving: RecvTask,
)
    requires
        channels > 0,
        call_ensures(SendReq::<T>::new, (value,), req),
        call_ensures(SendTask::new, (channels,), sending),
        call_ensures(RecvTask::new, (channels,), receiving),
    ensures
        req.value == value && req.result_tx is None,
        sending.channels.order@.len() == channels && receiving.channels.order@.len() == channels,
        forall|i: int| 0 <= i < channels ==> #[trigger] sending.channels.order@[i] == i,
        forall|i: int| 0 <= i < channels ==> #[trigger] receiving.channels.order@[i] == i,
{
    assert forall|i: int| 0 <= i < channels implies #[trigger] turn(channels as nat, 0)[i] == i by {
        vstd::arithmetic::div_mod::lemma_small_mod(i as nat, channels as nat);
    }
}

/// Channels take turns in order: the first one has the first turn, each turn moves the channel
/// to the end, and a channel whose task is gone counts as a failed connection.
pub proof fn law_turns_in_order<T>(
    n: usize,
    new: RoundRobin,
    before: RecvTask,
    received: Option<Result<Option<T>, base::RecvError>>,
    after: RecvTask,
    r: Result<Option<T>, base::RecvError>,
)
    requires
        n > 0,
        call_ensures(RoundRobin::new, (n,), new),
        before.wf(),
        before.channels.order@.len() > 0,
        exists|state: &mut RecvTask| #[trigger]
            call_ensures(RecvTask::on_turn::<T>, (state, received), r) && *state == before
                && *final(state) == after,
    ensures
        new.order@.len() == n,
        forall|i: int| 0 <= i < n ==> #[trigger] new.order@[i] == i,
        after.channels.order@.len() == before.channels.order@.len(),
        after.channels.order@.last() == before.channels.order@[0],
        forall|i: int|
            0 <= i < after.channels.order@.len() - 1 ==> #[trigger] after.channels.order@[i]
                == before.channels.order@[i + 1],
        received matches Some(res) ==> r == res,
        received is None ==> r == Err::<Option<T>, base::RecvError>(
            base::RecvError::Receive(chmux::RecvError::ChMux),
        ),
{
    assert forall|i: int| 0 <= i < n implies #[trigger] turn(n as nat, 0)[i] == i by {
        vstd::arithmetic::div_mod::lemma_small_mod(i as nat, n as nat);
    }
}

/// Each channel of a sending task gets a sender of its own with the size limit, in order.
pub proof fn law_senders_of_a_task(
    raw_txs: Vec<base::RawSender>,
    max_item_size: usize,
    r: (SendTask, Vec<base::ErasedSender>),
)
    requires
        raw_txs@.len() > 0,
        call_ensures(SendTask::open, (raw_txs, max_item_size), r),
    ensures
        r.1@.len() == raw_txs@.len() && r.0.channels.order@.len() == raw_txs@.len(),
        forall|i: int|
            0 <= i < raw_txs@.len() ==> (#[trigger] r.1@[i]).sender == raw_txs@[i]
                && r.1@[i].max_item_size == max_item_size,
{
}

/// Reporting what became of a value leaves the value where it is.
pub proof fn law_reporting_keeps_the_value<T>(
    before: SendReq<T>,
    err: base::SendError<Result<T, RecvError>>,
    delivered: bool,
    succeeded: SendReq<T>,
    handle: Option<u64>,
    failed: SendReq<T>,
    r: Result<(), base::SendError<T>>,
)
    requires
        exists|state: &mut SendReq<T>| #[trigger]
            call_ensures(SendReq::<T>::result_ok, (state,), handle) && *state == before
                && *final(state) == succeeded,
        exists|state: &mut SendReq<T>| #[trigger]
            call_ensures(SendReq::<T>::result_err, (state, err, delivered), r) && *state == before
                && *final(state) == failed,
    ensures
        succeeded.value == before.value && failed.value == before.value,
        handle == before.result_tx && succeeded.result_tx is None,
        err.item is Ok ==> failed.result_tx is None,
        err.item is Err ==> failed.result_tx == before.result_tx && r is Ok,
        err.item is Ok ==> (r is Ok <==> before.result_tx is Some && delivered),
        r matches Err(unreported) ==> unreported.kind == err.kind && err.item == Ok::<T, RecvError>(
            unreported.item,
        ),
{
}

} // verus!
