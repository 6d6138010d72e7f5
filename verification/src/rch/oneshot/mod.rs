//! The channel that carries a single value.

pub mod receiver;
pub mod sender;

pub use receiver::{Receiver, RecvError, TryRecvError};
pub use sender::{SendError, Sender};

use vstd::prelude::*;
use crate::rch::mpsc;
use crate::rch::mpsc::queue::QueueSender;
use crate::rch::DEFAULT_MAX_ITEM_SIZE;

verus! {

/// Creates a channel for a single value.
pub fn channel() -> (r: (Sender, Receiver))
    ensures
        r.0.tx.queue == Some(1usize),
        r.0.tx.closed is None,
        r.0.tx.remote_send_err is None,
        r.0.tx.max_item_size == DEFAULT_MAX_ITEM_SIZE,
        r.0.tx.parallel is None,
        r.1.rx == (mpsc::Receiver {
            has_queue: true,
            closed: false,
            successor: false,
            final_err: None,
            max_item_size: DEFAULT_MAX_ITEM_SIZE,
            remote_max_item_size: None,
            parallel: None,
        }),
{
    let (tx, rx) = mpsc::channel(1);
    (Sender { tx }, Receiver { rx })
}

/// Sets the maximum size of the value on both halves of a channel.
pub fn with_max_item_size(halves: (Sender, Receiver), max_item_size: usize) -> (r: (
    Sender,
    Receiver,
))
    ensures
        r.0.tx == (mpsc::Sender { max_item_size, ..halves.0.tx }),
        r.1.rx == (mpsc::Receiver { max_item_size, successor: false, ..halves.1.rx }),
{
    let (mut tx, rx) = halves;
    tx.set_max_item_size(max_item_size);
    (tx, rx.set_max_item_size(max_item_size))
}

/// Sends the value over a local queue.
///
/// `result_tx` is the number of the handle that awaits the result of sending.
pub fn send_queued<T>(tx: QueueSender<T>, value: T, result_tx: Option<u64>) -> (r: Result<
    (),
    SendError<T>,
>)
    ensures
        r is Ok ==> tx.may_return(value, result_tx, Ok(())),
        r matches Err(err) ==> exists|queue_err: mpsc::TrySendError<T>|
            tx.may_return(value, result_tx, Err(queue_err)) && err
                == #[trigger] SendError::of_try_send_error(queue_err),
{
    match tx.try_send(value, result_tx) {
        Ok(()) => Ok(()),
        Err(err) => Err(SendError::from(err)),
    }
}

/// What forwarding of a local value came to.
pub enum ForwardEvent<T> {
    /// The remote receiver is closed.
    Closed,
    /// The local value arrived, or its sender was dropped.
    Local(Option<T>),
}

/// Returns the value to forward, or the result of forwarding if there is none.
///
/// A channel that is closed on either side ends forwarding without an error.
pub fn forward_on_event<T>(event: ForwardEvent<T>) -> (r: Result<T, Result<(), SendError<()>>>)
    ensures
        r == (match event {
            ForwardEvent::Local(Some(value)) => Ok::<T, Result<(), SendError<()>>>(value),
            _ => Err(Ok(())),
        }),
{
    match event {
        ForwardEvent::Local(Some(value)) => Ok(value),
        ForwardEvent::Local(None) => Err(Ok(())),
        ForwardEvent::Closed => Err(Ok(())),
    }
}

/// Returns the result of forwarding, given what came of sending the value.
pub fn forward_on_sent<T>(sent: Result<(), SendError<T>>) -> (r: Result<(), SendError<()>>)
    ensures
        r == (match sent {
            Ok(()) => Ok::<(), SendError<()>>(()),
            Err(SendError::Closed(_)) => Ok(()),
            Err(SendError::Failed) => Err(SendError::Failed),
        }),
{
    match sent {
        Ok(()) => Ok(()),
        Err(err) => {
            if err.is_closed() {
                Ok(())
            } else {
                Err(err.without_item())
            }
        },
    }
}

/// The result of a forwarding task; one that was stopped counts as closed.
pub fn forward_result(joined: Option<Result<(), SendError<()>>>) -> (r: Result<(), SendError<()>>)
    ensures
        r == (match joined {
            Some(res) => res,
            None => Err::<(), SendError<()>>(SendError::Closed(())),
        }),
{
    match joined {
        Some(res) => res,
        None => Err(SendError::Closed(())),
    }
}

/// The value that is sent over a channel is what its receiver gets, whether it waits or not; a
/// channel that ends without a value is reported as closed.
pub proof fn law_single_value_arrives<T>(
    tx: Sender,
    rx: Receiver,
    after: Receiver,
    tried_after: Receiver,
    value: T,
    queued: mpsc::sender::Queued,
    sent: Result<T, SendError<T>>,
    item: T,
    r: Option<Result<T, RecvError>>,
    tried: Option<Result<T, TryRecvError>>,
    ended: Option<Result<T, RecvError>>,
)
    requires
        call_ensures(Sender::send::<T>, (tx, value, queued), sent),
        sent == Ok::<T, SendError<T>>(item),
        exists|state: &mut Receiver| #[trigger]
            call_ensures(Receiver::poll::<T>, (state, Some(Ok(item))), r) && *state == rx
                && *final(state) == after,
        exists|state: &mut Receiver| #[trigger]
            call_ensures(Receiver::try_recv::<T>, (state, mpsc::receiver::Taken::Item(Ok(item))), tried) && *state == rx
                && *final(state) == tried_after,
        exists|state: &mut Receiver| #[trigger]
            call_ensures(Receiver::poll::<T>, (state, None), ended) && *state == after,
        rx.rx.final_err is None,
    ensures
        r == Some(Ok::<T, RecvError>(value)),
        tried == Some(Ok::<T, TryRecvError>(value)),
        ended == Some(Err::<T, RecvError>(RecvError::Closed)),
{
    reveal_with_fuel(mpsc::receiver::held_back, 2);
    let given: Result<T, mpsc::RecvError> = Ok(item);
    assert(seq![given].drop_last().len() == 0);
}

/// A value is sent exactly if the channel is open and its queue takes it; if the receiver is gone it
/// is handed back.
pub proof fn law_single_value_is_sent<T>(
    tx: Sender,
    value: T,
    queued: mpsc::sender::Queued,
    r: Result<T, SendError<T>>,
)
    requires
        call_ensures(Sender::send::<T>, (tx, value, queued), r),
    ensures
        r is Ok <==> tx.tx.queue is Some && tx.tx.closed is None && tx.tx.remote_send_err is None
            && queued is Queued,
        r matches Ok(item) ==> item == value,
        tx.tx.remote_send_err is None && (tx.tx.queue is None || tx.tx.closed is Some || queued
            is Closed) ==> r == Err::<T, SendError<T>>(SendError::Closed(value)),
        tx.tx.remote_send_err == Some(crate::rch::RemoteSendError::Closed) ==> r == Err::<
            T,
            SendError<T>,
        >(SendError::Closed(value)),
        tx.tx.remote_send_err matches Some(err) && !(err is Closed) ==> r == Err::<T, SendError<T>>(
            SendError::Failed,
        ),
{
}

/// Failures are reported as such: a failed connection when the queue ends, others at once.
pub proof fn law_failed_single_value<T>(
    rx: Receiver,
    after: Receiver,
    err: mpsc::RecvError,
    r: Option<Result<T, RecvError>>,
    ended: Option<Result<T, RecvError>>,
)
    requires
        exists|state: &mut Receiver| #[trigger]
            call_ensures(Receiver::poll::<T>, (state, Some(Err(err))), r) && *state == rx
                && *final(state) == after,
        exists|state: &mut Receiver| #[trigger]
            call_ensures(Receiver::poll::<T>, (state, None), ended) && *state == after,
        rx.rx.final_err is None,
    ensures
        r is None <==> err.spec_is_disconnected(),
        r is Some ==> (r matches Some(Err(reported)) && !(reported is Closed)),
        r is None ==> (ended matches Some(Err(reported)) && !(reported is Closed)),
        r is Some ==> ended == Some(Err::<T, RecvError>(RecvError::Closed)),
{
    reveal_with_fuel(mpsc::receiver::held_back, 2);
    let given: Result<T, mpsc::RecvError> = Err(err);
    assert(seq![given].drop_last().len() == 0);
}

/// A new channel carries one value and is open.
pub proof fn law_new_oneshot_channel(r: (Sender, Receiver), closed: bool)
    requires
        call_ensures(channel, (), r),
        call_ensures(Sender::is_closed, (&r.0,), closed),
    ensures
        r.0.tx.queue == Some(1usize),
        !closed && !r.1.rx.closed && r.1.rx.final_err is None,
        r.1.rx.has_queue && !r.1.rx.successor && r.1.rx.remote_max_item_size is None,
        r.0.tx.max_item_size == r.1.rx.max_item_size,
{
}

/// A value is sent over the queue of its channel or handed back.
pub proof fn law_queued_single_value<T>(
    tx: QueueSender<T>,
    value: T,
    result_tx: Option<u64>,
    r: Result<(), SendError<T>>,
)
    requires
        call_ensures(send_queued::<T>, (tx, value, result_tx), r),
    ensures
        r is Ok ==> tx.may_return(value, result_tx, Ok(())) && tx.tx is Some,
        r matches Err(SendError::Closed(back)) ==> back == value,
        tx.tx is None ==> r is Err,
{
}

/// Forwarding passes the local value on; it succeeds if either side is gone, and otherwise fails
/// only if sending did.
pub proof fn law_single_value_is_forwarded<T>(
    event: ForwardEvent<T>,
    on_event: Result<T, Result<(), SendError<()>>>,
    sent: Result<(), SendError<T>>,
    on_sent: Result<(), SendError<()>>,
    joined: Option<Result<(), SendError<()>>>,
    r: Result<(), SendError<()>>,
)
    requires
        call_ensures(forward_on_event::<T>, (event,), on_event),
        call_ensures(forward_on_sent::<T>, (sent,), on_sent),
        call_ensures(forward_result, (joined,), r),
    ensures
        event matches ForwardEvent::Local(Some(value)) ==> on_event == Ok::<
            T,
            Result<(), SendError<()>>,
        >(value),
        !(event matches ForwardEvent::Local(Some(_))) ==> (on_event matches Err(Ok(_))),
        on_sent is Err <==> (sent matches Err(SendError::Failed)),
        on_sent matches Err(err) ==> err is Failed,
        joined matches Some(res) ==> r == res,
        joined is None ==> r == Err::<(), SendError<()>>(SendError::Closed(())),
{
}

} // verus!
