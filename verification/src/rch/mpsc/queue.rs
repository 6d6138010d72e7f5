//! The local queue of a channel.
//!
//! Values are kept in a bounded queue of tokio until they are received locally or sent to
//! the remote endpoint. Whether the channel is closed, and why sending failed, is published
//! through watched values. Others use these at the same time, so that what they hold may
//! change between any two calls.

use vstd::prelude::*;
use tokio::sync::mpsc::error::TryRecvError as TokioTryRecvError;
use tokio::sync::mpsc::error::TrySendError as TokioTrySendError;
use tokio::sync::mpsc::{
    channel as bounded_channel, OwnedPermit, Receiver as TokioReceiver, Sender as TokioSender,
};
use tokio::sync::watch::error::SendError as WatchSendError;
use tokio::sync::watch::{
    channel as watch_channel, Receiver as WatchReceiver, Sender as WatchSender,
};
use crate::rch::local::{found_room, peek, peeked, room_left, MAX_BUFFER};
use crate::rch::mpsc::receiver::Taken;
use crate::rch::mpsc::sender::{drop_when_closed, KeepEvent, Queued};
use crate::rch::mpsc::{Receiver, SendReq, Sender, TryRecvError, TrySendError};
use crate::rch::{ClosedReason, RemoteSendError, DEFAULT_MAX_ITEM_SIZE};

verus! {

/// The sending half of a channel with its local queue.
#[verifier::reject_recursive_types(T)]
pub struct QueueSender<T> {
    /// The queue, unless it has been given up because the channel is closed.
    pub tx: Option<TokioSender<SendReq<T>>>,
    /// The reason for which the channel is closed.
    pub closed_rx: WatchReceiver<Option<ClosedReason>>,
    /// The failure of sending to the remote endpoint.
    pub remote_send_err_rx: WatchReceiver<Option<RemoteSendError>>,
    /// Largest value that may be sent.
    pub max_item_size: usize,
    /// Number of additional parallel channels.
    pub parallel: Option<usize>,
}

/// The receiving half of a channel with its local queue.
#[verifier::reject_recursive_types(T)]
pub struct QueueReceiver<T> {
    /// The queue.
    pub rx: TokioReceiver<SendReq<T>>,
    /// Publishes the reason for which the channel is closed.
    pub closed_tx: WatchSender<Option<ClosedReason>>,
    /// Publishes the failure of sending to the remote endpoint.
    pub remote_send_err_tx: WatchSender<Option<RemoteSendError>>,
    /// What is known about the channel.
    pub state: Receiver,
}

/// Creates a channel whose local queue takes `local_buffer` values.
pub fn queue_channel<T>(local_buffer: usize) -> (r: (QueueSender<T>, QueueReceiver<T>))
    requires
        0 < local_buffer <= MAX_BUFFER,
    ensures
        r.0.tx is Some,
        call_ensures(
            bounded_channel::<SendReq<T>>,
            (local_buffer,),
            (r.0.tx->0, r.1.rx),
        ),
        call_ensures(
            watch_channel::<Option<ClosedReason>>,
            (None,),
            (r.1.closed_tx, r.0.closed_rx),
        ),
        call_ensures(
            watch_channel::<Option<RemoteSendError>>,
            (None,),
            (r.1.remote_send_err_tx, r.0.remote_send_err_rx),
        ),
        r.0.max_item_size == DEFAULT_MAX_ITEM_SIZE,
        r.0.parallel is None,
        r.1.state == (Receiver {
            has_queue: true,
            closed: false,
            successor: false,
            final_err: None,
            max_item_size: DEFAULT_MAX_ITEM_SIZE,
            remote_max_item_size: None,
            parallel: None,
        }),
{
    let (tx, rx) = bounded_channel(local_buffer);
    let (closed_tx, closed_rx) = watch_channel(None);
    let (remote_send_err_tx, remote_send_err_rx) = watch_channel(None);
    let (_, state) = crate::rch::mpsc::channel(local_buffer);
    let sender = QueueSender {
        tx: Some(tx),
        closed_rx,
        remote_send_err_rx,
        max_item_size: DEFAULT_MAX_ITEM_SIZE,
        parallel: None,
    };
    (sender, QueueReceiver { rx, closed_tx, remote_send_err_tx, state })
}

/// What the answer of a queue to an item says.
pub open spec fn answer_of<A, B>(answer: Result<A, TokioTrySendError<B>>) -> Queued {
    match answer {
        Ok(_) => Queued::Queued,
        Err(TokioTrySendError::Full(_)) => Queued::Full,
        Err(TokioTrySendError::Closed(_)) => Queued::Closed,
    }
}

/// Whether putting an item into a queue gave an answer.
pub open spec fn put_gave<T>(tx: TokioSender<T>, item: T, queued: Queued) -> bool {
    exists|answer: Result<(), TokioTrySendError<T>>| #[trigger]
        call_ensures(TokioSender::<T>::try_send, (&tx, item), answer) && queued == answer_of(
            answer,
        )
}

/// Whether making room in a queue gave an answer, and the room if it was made.
pub open spec fn reserve_gave<T>(
    tx: TokioSender<T>,
    queued: Queued,
    room: Option<OwnedPermit<T>>,
) -> bool {
    exists|own: TokioSender<T>, answer: Result<OwnedPermit<T>, TokioTrySendError<TokioSender<T>>>|
        {
            &&& #[trigger] call_ensures(TokioSender::<T>::try_reserve_owned, (own,), answer)
            &&& cloned(tx, own)
            &&& queued == answer_of(answer)
            &&& room == (match answer {
                Ok(room) => Some(room),
                Err(_) => None,
            })
        }
}

/// The result of sending once the value is in the queue.
pub open spec fn done<T>(r: Result<T, TrySendError<T>>) -> Result<(), TrySendError<T>> {
    match r {
        Ok(_) => Ok(()),
        Err(err) => Err(err),
    }
}

impl<T> QueueSender<T> {
    /// Whether the sender was found in a state: what others can change is what looking at it
    /// gave.
    pub open spec fn may_be(self, state: Sender) -> bool {
        &&& match self.tx {
            Some(tx) => state.queue matches Some(room) && found_room(tx, room),
            None => state.queue is None,
        }
        &&& peeked(self.closed_rx, state.closed)
        &&& peeked(self.remote_send_err_rx, state.remote_send_err)
        &&& state.max_item_size == self.max_item_size
        &&& state.parallel == self.parallel
    }

    /// Whether the result of trying to send may be `r`: it follows from the state in which the
    /// channel was found and, unless a failure was published or the channel was closed, from what
    /// the queue made of the value and the handle that awaits the result.
    pub open spec fn may_return(
        self,
        value: T,
        result_tx: Option<u64>,
        r: Result<(), TrySendError<T>>,
    ) -> bool {
        exists|state: Sender, queued: Queued|
            {
                &&& r == done(#[trigger] state.try_send_result(value, queued))
                &&& self.may_be(state)
                &&& state.remote_send_err is None && state.closed is None ==> (self.tx matches Some(
                    tx,
                ) ==> put_gave(tx, SendReq { value: Ok(value), result_tx }, queued))
            }
    }

    /// Whether the result of trying to make room may be `r`: it follows from the state in which
    /// the channel was found and, unless a failure was published or the channel was closed, from
    /// the answer of the queue.
    pub open spec fn may_reserve(self, r: Result<Permit<T>, TrySendError<()>>) -> bool {
        let room = match r {
            Ok(permit) => Some(permit.permit),
            Err(_) => None,
        };
        let granted = match r {
            Ok(_) => Ok::<(), TrySendError<()>>(()),
            Err(err) => Err(err),
        };
        exists|state: Sender, queued: Queued|
            {
                &&& granted == #[trigger] state.try_send_result((), queued)
                &&& self.may_be(state)
                &&& state.remote_send_err is None && state.closed is None ==> (self.tx matches Some(
                    tx,
                ) ==> reserve_gave(tx, queued, room))
            }
    }

    /// Returns the state in which the channel is found.
    pub fn state(&self) -> (r: Sender)
        ensures
            self.may_be(r),
    {
        let queue = match &self.tx {
            Some(tx) => Some(room_left(tx)),
            None => None,
        };
        Sender {
            queue,
            closed: peek(&self.closed_rx),
            remote_send_err: peek(&self.remote_send_err_rx),
            max_item_size: self.max_item_size,
            parallel: self.parallel,
        }
    }

    /// Sends a value if there is room for it in the queue.
    ///
    /// `result_tx` is the number of the handle that awaits the result of sending. A published
    /// failure is reported without trying, and nothing is sent once the channel was closed.
    pub fn try_send(&self, value: T, result_tx: Option<u64>) -> (r: Result<(), TrySendError<T>>)
        ensures
            self.may_return(value, result_tx, r),
    {
        let state = self.state();
        if let Some(err) = &state.remote_send_err {
            let r = Err(TrySendError::from_remote_send_error(err.clone(), value));
            assert(r == done(state.try_send_result(value, Queued::Closed)));
            return r;
        }
        if state.closed.is_some() {
            let r = Err(TrySendError::Closed(value));
            assert(r == done(state.try_send_result(value, Queued::Closed)));
            return r;
        }
        match &self.tx {
            Some(tx) => match tx.try_send(SendReq { value: Ok(value), result_tx }) {
                Ok(()) => {
                    let r = Ok(());
                    assert(r == done(state.try_send_result(value, Queued::Queued)));
                    r
                },
                Err(TokioTrySendError::Full(req)) => {
                    let r = Err(TrySendError::Full(req.value.ok().unwrap()));
                    assert(r == done(state.try_send_result(value, Queued::Full)));
                    r
                },
                Err(TokioTrySendError::Closed(req)) => {
                    let r = Err(TrySendError::Closed(req.value.ok().unwrap()));
                    assert(r == done(state.try_send_result(value, Queued::Closed)));
                    r
                },
            },
            None => {
                let r = Err(TrySendError::Closed(value));
                assert(r == done(state.try_send_result(value, Queued::Closed)));
                r
            },
        }
    }

    /// Makes room for a value in the queue.
    pub fn try_reserve(&self) -> (r: Result<Permit<T>, TrySendError<()>>)
        ensures
            self.may_reserve(r),
    {
        let state = self.state();
        if let Some(err) = &state.remote_send_err {
            let err = TrySendError::from_remote_send_error(err.clone(), ());
            assert(Err::<(), TrySendError<()>>(err) == state.try_send_result(
                (),
                Queued::Closed,
            ));
            return Err(err);
        }
        if state.closed.is_some() {
            let err = TrySendError::Closed(());
            assert(Err::<(), TrySendError<()>>(err) == state.try_send_result(
                (),
                Queued::Closed,
            ));
            return Err(err);
        }
        match &self.tx {
            Some(tx) => match tx.clone().try_reserve_owned() {
                Ok(permit) => {
                    let granted: Result<(), TrySendError<()>> = Ok(());
                    assert(granted == state.try_send_result((), Queued::Queued));
                    Ok(Permit { permit })
                },
                Err(TokioTrySendError::Full(_)) => {
                    let err = TrySendError::Full(());
                    assert(Err::<(), TrySendError<()>>(err) == state.try_send_result(
                        (),
                        Queued::Full,
                    ));
                    Err(err)
                },
                Err(TokioTrySendError::Closed(_)) => {
                    let err = TrySendError::Closed(());
                    assert(Err::<(), TrySendError<()>>(err) == state.try_send_result(
                        (),
                        Queued::Closed,
                    ));
                    Err(err)
                },
            },
            None => {
                let err = TrySendError::Closed(());
                assert(Err::<(), TrySendError<()>>(err) == state.try_send_result(
                    (),
                    Queued::Closed,
                ));
                Err(err)
            },
        }
    }

    /// Gives up the queue if what happened asks for it, so that the receiver finds its end.
    pub fn on_keep_event(&mut self, event: KeepEvent)
        ensures
            *final(self) == (if event != KeepEvent::Closed(None) {
                QueueSender { tx: None, ..*old(self) }
            } else {
                *old(self)
            }),
    {
        if drop_when_closed(event) {
            self.tx = None;
        }
    }

    /// Returns how many values the queue takes at the moment.
    ///
    /// This is zero once the channel has been closed or an error has occurred.
    pub fn capacity(&self) -> (r: usize)
        ensures
            exists|state: Sender| self.may_be(state) && r == #[trigger] state.spec_capacity(),
            self.tx is None ==> r == 0,
    {
        self.state().capacity()
    }

    /// Returns the reason for which the channel is closed, if it is.
    pub fn closed_reason(&self) -> (r: Option<ClosedReason>)
        ensures
            exists|state: Sender|
                self.may_be(state) && r == #[trigger] state.spec_closed_reason(),
    {
        self.state().closed_reason()
    }

    /// Returns whether the channel is closed.
    pub fn is_closed(&self) -> (r: bool)
        ensures
            exists|state: Sender|
                self.may_be(state) && r == (#[trigger] state.spec_closed_reason() is Some),
    {
        self.closed_reason().is_some()
    }
}

/// Room for one value in the queue of a channel.
#[verifier::reject_recursive_types(T)]
pub struct Permit<T> {
    /// The room.
    pub permit: OwnedPermit<SendReq<T>>,
}

impl<T> Permit<T> {
    /// Sends a value; `result_tx` is the number of the handle that awaits the result.
    pub fn send(self, value: T, result_tx: Option<u64>)
        ensures
            exists|tx: TokioSender<SendReq<T>>| #[trigger]
                call_ensures(
                    OwnedPermit::<SendReq<T>>::send,
                    (self.permit, SendReq { value: Ok(value), result_tx }),
                    tx,
                ),
    {
        let _ = self.permit.send(SendReq { value: Ok(value), result_tx });
    }
}

/// What the answer of a queue to being asked for an item says.
pub open spec fn taken_of<T>(answer: Result<SendReq<T>, TokioTryRecvError>) -> Taken<T> {
    match answer {
        Ok(req) => Taken::Item(req.value),
        Err(TokioTryRecvError::Empty) => Taken::Empty,
        Err(TokioTryRecvError::Disconnected) => Taken::Disconnected,
    }
}

/// The handle that awaits the result of sending the item that was taken out of a queue.
pub open spec fn handle_of<T>(answer: Result<SendReq<T>, TokioTryRecvError>) -> Option<u64> {
    match answer {
        Ok(req) => req.result_tx,
        Err(_) => None,
    }
}

impl<T> QueueReceiver<T> {
    /// Takes an item out of the queue if there is one.
    ///
    /// Returns what to report, or `None` if the queue is to be asked again, and the number of
    /// the handle that is to be told that the item was received.
    pub fn try_recv(&mut self) -> (r: (Option<Result<T, TryRecvError>>, Option<u64>))
        ensures
            exists|
                queue: &mut TokioReceiver<SendReq<T>>,
                answer: Result<SendReq<T>, TokioTryRecvError>,
            |
                {
                    &&& #[trigger] call_ensures(
                        TokioReceiver::<SendReq<T>>::try_recv,
                        (queue,),
                        answer,
                    )
                    &&& *queue == old(self).rx
                    &&& *final(queue) == final(self).rx
                    &&& old(self).state.tries_recv(taken_of(answer), final(self).state, r.0)
                    &&& r.1 == handle_of(answer)
                },
            final(self).closed_tx == old(self).closed_tx,
            final(self).remote_send_err_tx == old(self).remote_send_err_tx,
    {
        let (taken, acknowledged): (Taken<T>, Option<u64>) = match self.rx.try_recv() {
            Ok(req) => {
                let (item, result_tx) = req.ack();
                (Taken::Item(item), result_tx)
            },
            Err(TokioTryRecvError::Empty) => (Taken::Empty, None),
            Err(TokioTryRecvError::Disconnected) => (Taken::Disconnected, None),
        };
        let r = self.state.try_recv(taken);
        (r, acknowledged)
    }

    /// Returns the number of values in the queue.
    pub fn len(&self) -> (r: usize)
        ensures
            call_ensures(TokioReceiver::<SendReq<T>>::len, (&self.rx,), r),
    {
        self.rx.len()
    }

    /// Returns whether the queue is empty.
    pub fn is_empty(&self) -> (r: bool)
        ensures
            call_ensures(TokioReceiver::<SendReq<T>>::is_empty, (&self.rx,), r),
    {
        self.rx.is_empty()
    }

    /// Closes the channel; values in the queue can still be received.
    ///
    /// The senders learn of it through the published reason.
    pub fn close(&mut self)
        ensures
            exists|answer: Result<(), WatchSendError<Option<ClosedReason>>>| #[trigger]
                call_ensures(
                    WatchSender::<Option<ClosedReason>>::send,
                    (&old(self).closed_tx, Some(ClosedReason::Closed)),
                    answer,
                ),
            final(self).state == (Receiver { closed: true, ..old(self).state }),
            final(self).rx == old(self).rx,
            final(self).closed_tx == old(self).closed_tx,
            final(self).remote_send_err_tx == old(self).remote_send_err_tx,
    {
        let reason = self.state.close();
        let _ = self.closed_tx.send(Some(reason));
    }
}

/// A value counts as sent only if the queue took it, together with who awaits the result; a value
/// that is refused is handed back.
pub proof fn law_sent_value_is_in_the_queue<T>(
    tx: QueueSender<T>,
    value: T,
    result_tx: Option<u64>,
    r: Result<(), TrySendError<T>>,
)
    requires
        call_ensures(QueueSender::<T>::try_send, (&tx, value, result_tx), r),
    ensures
        r is Ok ==> tx.tx is Some && exists|answer: Result<(), TokioTrySendError<SendReq<T>>>|
            answer is Ok && #[trigger] call_ensures(
                TokioSender::<SendReq<T>>::try_send,
                (&tx.tx->0, SendReq { value: Ok(value), result_tx }),
                answer,
            ),
        r matches Err(TrySendError::Full(back)) ==> back == value && tx.tx is Some,
        r matches Err(TrySendError::Closed(back)) ==> back == value,
        r is Ok ==> peeked(tx.closed_rx, None) && peeked(tx.remote_send_err_rx, None),
{
    let (state, queued) = choose|state: Sender, queued: Queued|
        {
            &&& r == done(#[trigger] state.try_send_result(value, queued))
            &&& tx.may_be(state)
            &&& state.remote_send_err is None && state.closed is None ==> (tx.tx matches Some(
                queue,
            ) ==> put_gave(queue, SendReq { value: Ok(value), result_tx }, queued))
        };
    if r is Ok {
        let item = SendReq { value: Ok::<T, crate::rch::mpsc::RecvError>(value), result_tx };
        assert(put_gave(tx.tx->0, item, queued));
        let answer = choose|answer: Result<(), TokioTrySendError<SendReq<T>>>|
            #[trigger] call_ensures(TokioSender::<SendReq<T>>::try_send, (&tx.tx->0, item), answer)
                && queued == answer_of(answer);
        assert(answer is Ok);
    }
}

/// Room is granted only if the queue granted it and the channel was open.
pub proof fn law_room_is_granted_by_the_queue<T>(
    tx: QueueSender<T>,
    r: Result<Permit<T>, TrySendError<()>>,
)
    requires
        call_ensures(QueueSender::<T>::try_reserve, (&tx,), r),
    ensures
        r matches Ok(permit) ==> tx.tx is Some && exists|
            own: TokioSender<SendReq<T>>,
            answer: Result<OwnedPermit<SendReq<T>>, TokioTrySendError<TokioSender<SendReq<T>>>>,
        |
            #[trigger] call_ensures(
                TokioSender::<SendReq<T>>::try_reserve_owned,
                (own,),
                answer,
            ) && cloned(tx.tx->0, own) && (answer matches Ok(room) && room == permit.permit),
        r is Ok ==> peeked(tx.closed_rx, None) && peeked(tx.remote_send_err_rx, None),
{
}

/// A sender without its queue has no room, and neither has one whose channel is closed.
pub proof fn law_queue_has_no_room_when_closed<T>(tx: QueueSender<T>, r: usize)
    requires
        call_ensures(QueueSender::<T>::capacity, (&tx,), r),
    ensures
        tx.tx is None ==> r == 0,
        r > 0 ==> peeked(tx.closed_rx, None) && peeked(tx.remote_send_err_rx, None) && found_room(
            tx.tx->0,
            r,
        ),
{
}

/// The reason that is reported is what was published: that for which the channel was closed, or else
/// that of the failure.
pub proof fn law_published_reason_is_reported<T>(
    tx: QueueSender<T>,
    reason: Option<ClosedReason>,
    closed: bool,
)
    requires
        call_ensures(QueueSender::<T>::closed_reason, (&tx,), reason),
        call_ensures(QueueSender::<T>::is_closed, (&tx,), closed),
    ensures
        reason is None ==> peeked(tx.closed_rx, None) && peeked(tx.remote_send_err_rx, None),
        reason matches Some(why) ==> peeked(tx.closed_rx, Some(why)) || exists|
            err: RemoteSendError,
        |
            #[trigger] peeked(tx.remote_send_err_rx, Some(err)) && err.reason() == why,
        !closed ==> peeked(tx.closed_rx, None) && peeked(tx.remote_send_err_rx, None),
{
}

/// A sender gives up its queue for good once its channel is closed or an end is gone.
pub proof fn law_queue_is_given_up<T>(before: QueueSender<T>, after: QueueSender<T>, event: KeepEvent)
    requires
        exists|state: &mut QueueSender<T>| #[trigger]
            call_ensures(QueueSender::<T>::on_keep_event, (state, event), ()) && *state == before
                && *final(state) == after,
    ensures
        event != KeepEvent::Closed(None) ==> after.tx is None,
        event == KeepEvent::Closed(None) ==> after.tx == before.tx,
        before.tx is None ==> after.tx is None,
        after.max_item_size == before.max_item_size,
{
}

/// A value that is received is one that came out of the queue, and who awaits the result of sending
/// it is told.
pub proof fn law_received_value_was_in_the_queue<T>(
    before: QueueReceiver<T>,
    after: QueueReceiver<T>,
    r: (Option<Result<T, TryRecvError>>, Option<u64>),
)
    requires
        exists|state: &mut QueueReceiver<T>| #[trigger]
            call_ensures(QueueReceiver::<T>::try_recv, (state,), r) && *state == before
                && *final(state) == after,
    ensures
        r.0 matches Some(Ok(value)) ==> exists|
            queue: &mut TokioReceiver<SendReq<T>>,
            req: SendReq<T>,
        |
            #[trigger] call_ensures(TokioReceiver::<SendReq<T>>::try_recv, (queue,), Ok(req))
                && *queue == before.rx && *final(queue) == after.rx && req.value == Ok::<
                T,
                crate::rch::mpsc::RecvError,
            >(value) && r.1 == req.result_tx,
        r.0 == Some(Err::<T, TryRecvError>(TryRecvError::Empty)) ==> r.1 is None && after.state
            == before.state,
        after.state.closed == before.state.closed,
{
}

/// The receiver of a new queue is open and holds nothing back, and both ends accept values of up
/// to sixteen mebibytes.
pub proof fn law_new_queue<T>(local_buffer: usize, r: (QueueSender<T>, QueueReceiver<T>))
    requires
        local_buffer > 0,
        call_ensures(queue_channel::<T>, (local_buffer,), r),
    ensures
        r.0.tx is Some && r.0.parallel is None,
        r.0.max_item_size == 16_777_216 && r.1.state.max_item_size == 16_777_216,
        r.1.state.has_queue && !r.1.state.closed && !r.1.state.successor,
        r.1.state.final_err is None && r.1.state.remote_max_item_size is None,
        r.1.state.parallel is None,
{
}

/// Closing the receiver of a queue closes it and changes nothing else of it.
pub proof fn law_closed_queue_is_kept<T>(before: QueueReceiver<T>, after: QueueReceiver<T>)
    requires
        exists|state: &mut QueueReceiver<T>| #[trigger]
            call_ensures(QueueReceiver::<T>::close, (state,), ()) && *state == before
                && *final(state) == after,
    ensures
        after.state == (Receiver { closed: true, ..before.state }),
        after.rx == before.rx && after.closed_tx == before.closed_tx && after.remote_send_err_tx
            == before.remote_send_err_tx,
{
}

} // verus!
