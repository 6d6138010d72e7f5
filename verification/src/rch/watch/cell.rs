//! The locally shared value of a watch channel.

use vstd::prelude::*;
use tokio::sync::mpsc::error::TryRecvError as TokioTryRecvError;
use tokio::sync::mpsc::{unbounded_channel, UnboundedReceiver, UnboundedSender};
use tokio::sync::watch::error::SendError as WatchSendError;
use tokio::sync::watch::{
    channel as watch_channel, Receiver as WatchReceiver, Ref as WatchRef, Sender as WatchSender,
};
use crate::rch::local::{
    asked, copied, current, found_unwatched, held_by, is_new, is_unseen, is_unwatched, look, peek,
    peeked, unseen_in,
};
use crate::rch::watch::{ChangedError, RecvError, SendError};
use crate::rch::RemoteSendError;

verus! {

/// The sending half of a watch channel with its shared value.
#[verifier::reject_recursive_types(T)]
pub struct CellSender<T> {
    /// The value.
    pub tx: WatchSender<Result<T, RecvError>>,
    /// Publishes failures of sending to a remote endpoint.
    pub remote_send_err_tx: UnboundedSender<RemoteSendError>,
    /// Failures that were published and not looked at yet.
    pub remote_send_err_rx: UnboundedReceiver<RemoteSendError>,
    /// The failure that is reported.
    pub current_err: Option<RemoteSendError>,
}

/// The receiving half of a watch channel with its shared value.
#[verifier::reject_recursive_types(T)]
pub struct CellReceiver<T> {
    /// The value.
    pub rx: WatchReceiver<Result<T, RecvError>>,
}

/// Creates a channel with an initial value.
pub fn cell_channel<T>(init: T) -> (r: (CellSender<T>, CellReceiver<T>))
    ensures
        call_ensures(
            watch_channel::<Result<T, RecvError>>,
            (Ok(init),),
            (r.0.tx, r.1.rx),
        ),
        call_ensures(
            unbounded_channel::<RemoteSendError>,
            (),
            (r.0.remote_send_err_tx, r.0.remote_send_err_rx),
        ),
        r.0.current_err is None,
{
    let (tx, rx) = watch_channel(Ok(init));
    let (remote_send_err_tx, remote_send_err_rx) = unbounded_channel();
    (
        CellSender { tx, remote_send_err_tx, remote_send_err_rx, current_err: None },
        CellReceiver { rx },
    )
}

/// The error that a failure that is reported means, if there is one.
pub open spec fn reported(current_err: Option<RemoteSendError>) -> Option<SendError> {
    match current_err {
        Some(err) => Some(SendError::of_remote(err)),
        None => None,
    }
}

/// The failure that was found among those that were published and not looked at yet.
pub open spec fn published(answer: Result<RemoteSendError, TokioTryRecvError>) -> Option<
    RemoteSendError,
> {
    match answer {
        Ok(err) => Some(err),
        Err(_) => None,
    }
}

/// Whether it depends on the watched value being seen whether it has changed: nothing more
/// can be received after a failure that disconnects.
pub open spec fn change_is_asked<T>(current: Result<T, RecvError>) -> bool {
    current matches Err(err) ==> !err.spec_is_disconnected()
}

/// What a receiver says of a change, given the value, whether it has not been seen, and
/// whether there is a new one unless the sender is gone.
pub open spec fn change_found<T>(
    current: Result<T, RecvError>,
    unseen: bool,
    answer: Result<bool, ()>,
) -> Result<bool, ChangedError> {
    if !change_is_asked(current) {
        Err(ChangedError::Recv(current->Err_0))
    } else if unseen {
        Ok(true)
    } else {
        match answer {
            Ok(changed) => Ok(changed),
            Err(_) => Err(ChangedError::Closed),
        }
    }
}

impl<T> CellSender<T> {
    /// Sends a value, notifying all receivers.
    ///
    /// If no receiver remains, the failure that was published first is returned.
    pub fn send(&mut self, value: T) -> (r: Result<(), SendError>)
        ensures
            exists|answer: Result<(), WatchSendError<Result<T, RecvError>>>| #[trigger]
                call_ensures(
                    WatchSender::<Result<T, RecvError>>::send,
                    (&old(self).tx, Ok(value)),
                    answer,
                ) && (answer is Ok <==> r is Ok),
            r is Err && old(self).current_err is None ==> exists|
                queue: &mut UnboundedReceiver<RemoteSendError>,
                answer: Result<RemoteSendError, TokioTryRecvError>,
            |
                {
                    &&& #[trigger] call_ensures(
                        UnboundedReceiver::<RemoteSendError>::try_recv,
                        (queue,),
                        answer,
                    )
                    &&& *queue == old(self).remote_send_err_rx
                    &&& *final(queue) == final(self).remote_send_err_rx
                    &&& final(self).current_err == published(answer)
                },
            r is Ok ==> *final(self) == *old(self),
            r matches Err(err) ==> err == (match reported(final(self).current_err) {
                Some(err) => err,
                None => SendError::Closed,
            }),
            old(self).current_err is Some ==> *final(self) == *old(self),
            final(self).tx == old(self).tx,
            final(self).remote_send_err_tx == old(self).remote_send_err_tx,
    {
        match self.tx.send(Ok(value)) {
            Ok(()) => Ok(()),
            Err(_) => match self.error() {
                Some(err) => Err(err),
                None => Err(SendError::Closed),
            },
        }
    }

    /// Replaces the value, notifying all receivers, and returns the previous one.
    ///
    /// The previous value depends on what others do with it.
    pub fn send_replace(&self, value: T) -> (r: Result<T, RecvError>)
        ensures
            call_ensures(
                WatchSender::<Result<T, RecvError>>::send_replace,
                (&self.tx, Ok(value)),
                r,
            ),
    {
        self.tx.send_replace(Ok(value))
    }

    /// Returns a copy of the most recently sent value.
    pub fn borrow(&self) -> (r: Result<T, RecvError>) where T: Clone
        ensures
            held_by(self.tx, r),
    {
        current(&self.tx)
    }

    /// Returns whether no receiver remains.
    pub fn is_closed(&self) -> (r: bool)
        ensures
            found_unwatched(self.tx, r),
    {
        is_unwatched(&self.tx)
    }

    /// Creates a receiver that starts with the current value.
    pub fn subscribe(&self) -> (r: CellReceiver<T>)
        ensures
            call_ensures(WatchSender::<Result<T, RecvError>>::subscribe, (&self.tx,), r.rx),
    {
        CellReceiver { rx: self.tx.subscribe() }
    }

    /// Returns the failure of sending to a remote endpoint that was published first, if any.
    pub fn error(&mut self) -> (r: Option<SendError>)
        ensures
            r == reported(final(self).current_err),
            old(self).current_err is None ==> exists|
                queue: &mut UnboundedReceiver<RemoteSendError>,
                answer: Result<RemoteSendError, TokioTryRecvError>,
            |
                {
                    &&& #[trigger] call_ensures(
                        UnboundedReceiver::<RemoteSendError>::try_recv,
                        (queue,),
                        answer,
                    )
                    &&& *queue == old(self).remote_send_err_rx
                    &&& *final(queue) == final(self).remote_send_err_rx
                    &&& final(self).current_err == published(answer)
                },
            old(self).current_err is Some ==> *final(self) == *old(self),
            final(self).tx == old(self).tx,
            final(self).remote_send_err_tx == old(self).remote_send_err_tx,
    {
        if self.current_err.is_none() {
            self.current_err = self.remote_send_err_rx.try_recv().ok();
        }
        match &self.current_err {
            Some(err) => Some(SendError::from(err.clone())),
            None => None,
        }
    }

    /// Clears the failure that was published first.
    pub fn clear_error(&mut self)
        ensures
            final(self).current_err is None,
            old(self).current_err is None ==> exists|
                queue: &mut UnboundedReceiver<RemoteSendError>,
                answer: Result<RemoteSendError, TokioTryRecvError>,
            |
                {
                    &&& #[trigger] call_ensures(
                        UnboundedReceiver::<RemoteSendError>::try_recv,
                        (queue,),
                        answer,
                    )
                    &&& *queue == old(self).remote_send_err_rx
                    &&& *final(queue) == final(self).remote_send_err_rx
                },
            final(self).tx == old(self).tx,
            final(self).remote_send_err_tx == old(self).remote_send_err_tx,
            old(self).current_err is Some ==> final(self).remote_send_err_rx == old(
                self,
            ).remote_send_err_rx,
    {
        if self.current_err.is_none() {
            let _ = self.remote_send_err_rx.try_recv();
        }
        self.current_err = None;
    }
}

impl<T: Clone> CellReceiver<T> {
    /// Returns a copy of the current value without marking it as seen.
    pub fn borrow(&self) -> (r: Result<T, RecvError>)
        ensures
            peeked(self.rx, r),
    {
        peek(&self.rx)
    }

    /// Returns a copy of the current value and marks it as seen.
    pub fn borrow_and_update(&mut self) -> (r: Result<T, RecvError>)
        ensures
            exists|
                looking: &mut WatchReceiver<Result<T, RecvError>>,
                value: WatchRef<'_, Result<T, RecvError>>,
            |
                {
                    &&& #[trigger] call_ensures(
                        WatchReceiver::<Result<T, RecvError>>::borrow_and_update,
                        (looking,),
                        value,
                    )
                    &&& *looking == old(self).rx
                    &&& *final(looking) == final(self).rx
                    &&& copied(value, r)
                },
    {
        look(&mut self.rx)
    }

    /// Returns whether the current value has not been seen.
    ///
    /// Fails when nothing more can be received. It also fails when the sender is gone, but not
    /// before its final value has been seen.
    pub fn has_changed(&self) -> (r: Result<bool, ChangedError>)
        ensures
            exists|current: Result<T, RecvError>, unseen: bool, answer: Result<bool, ()>|
                {
                    &&& #[trigger] peeked(self.rx, current)
                    &&& r == #[trigger] change_found(current, unseen, answer)
                    &&& change_is_asked(current) ==> unseen_in(self.rx, unseen)
                    &&& change_is_asked(current) && !unseen ==> asked(self.rx, answer)
                },
            r matches Err(ChangedError::Recv(err)) ==> err.spec_is_disconnected(),
    {
        let current = peek(&self.rx);
        let ghost found = current;
        if let Err(err) = current {
            if err.is_disconnected() {
                let r = Err(ChangedError::Recv(err));
                assert(r == change_found(found, false, Ok::<bool, ()>(false)));
                return r;
            }
        }
        if is_unseen(&self.rx) {
            assert(Ok::<bool, ChangedError>(true) == change_found(found, true, Ok::<bool, ()>(true)));
            return Ok(true);
        }
        let answer = is_new(&self.rx);
        let ghost given = answer;
        let r = match answer {
            Ok(changed) => Ok(changed),
            Err(()) => Err(ChangedError::Closed),
        };
        assert(r == change_found(found, false, given));
        r
    }

    /// Marks the current value as not seen.
    pub fn mark_changed(&mut self)
        ensures
            exists|marked: &mut WatchReceiver<Result<T, RecvError>>|
                {
                    &&& #[trigger] call_ensures(
                        WatchReceiver::<Result<T, RecvError>>::mark_changed,
                        (marked,),
                        (),
                    )
                    &&& *marked == old(self).rx
                    &&& *final(marked) == final(self).rx
                },
    {
        self.rx.mark_changed();
    }

    /// Marks the current value as seen.
    pub fn mark_unchanged(&mut self)
        ensures
            exists|marked: &mut WatchReceiver<Result<T, RecvError>>|
                {
                    &&& #[trigger] call_ensures(
                        WatchReceiver::<Result<T, RecvError>>::mark_unchanged,
                        (marked,),
                        (),
                    )
                    &&& *marked == old(self).rx
                    &&& *final(marked) == final(self).rx
                },
    {
        self.rx.mark_unchanged();
    }
}

/// A failure that disconnects is reported as such, whatever was seen. Otherwise a value that was
/// not seen is a change, also when the sender is gone, and that it is gone is reported only
/// once its last value was seen.
pub proof fn law_changes_come_before_the_sender_is_gone<T: Clone>(
    rx: CellReceiver<T>,
    r: Result<bool, ChangedError>,
)
    requires
        call_ensures(CellReceiver::<T>::has_changed, (&rx,), r),
        forall|value: Result<T, RecvError>| peeked(rx.rx, value) ==> value is Ok,
    ensures
        !(r matches Err(ChangedError::Recv(_))),
        r is Err ==> unseen_in(rx.rx, false) && asked(rx.rx, Err(())),
        r matches Ok(false) ==> unseen_in(rx.rx, false) && asked(rx.rx, Ok(false)),
        r matches Ok(true) ==> unseen_in(rx.rx, true) || asked(rx.rx, Ok(true)),
{
}

/// A failure that was published and is kept is reported by every send that fails until it is
/// cleared, and none is taken for it from the others that were published.
pub proof fn law_kept_failure<T>(
    before: CellSender<T>,
    err: RemoteSendError,
    value: T,
    sent: Result<(), SendError>,
    after_send: CellSender<T>,
    reported_err: Option<SendError>,
    after_error: CellSender<T>,
    after_clear: CellSender<T>,
    meaning: SendError,
)
    requires
        before.current_err == Some(err),
        call_ensures(<SendError as From<RemoteSendError>>::from, (err,), meaning),
        exists|state: &mut CellSender<T>| #[trigger]
            call_ensures(CellSender::<T>::send, (state, value), sent) && *state == before
                && *final(state) == after_send,
        exists|state: &mut CellSender<T>| #[trigger]
            call_ensures(CellSender::<T>::error, (state,), reported_err) && *state == before
                && *final(state) == after_error,
        exists|state: &mut CellSender<T>| #[trigger]
            call_ensures(CellSender::<T>::clear_error, (state,), ()) && *state == before
                && *final(state) == after_clear,
    ensures
        after_send == before && after_error == before,
        reported_err == Some(meaning),
        sent matches Err(reason) ==> reason == meaning,
        after_clear == (CellSender { current_err: None, ..before }),
{
}

/// A value that nobody watches is refused with the failure that was published, or as closed if
/// none was; one that is watched is sent without looking for failures.
pub proof fn law_refused_value<T>(
    before: CellSender<T>,
    value: T,
    sent: Result<(), SendError>,
    after: CellSender<T>,
    meaning: SendError,
)
    requires
        exists|state: &mut CellSender<T>| #[trigger]
            call_ensures(CellSender::<T>::send, (state, value), sent) && *state == before
                && *final(state) == after,
        after.current_err matches Some(err) ==> call_ensures(
            <SendError as From<RemoteSendError>>::from,
            (err,),
            meaning,
        ),
    ensures
        sent is Ok ==> after == before,
        sent is Err ==> (after.current_err is None ==> sent matches Err(SendError::Closed)),
        sent matches Err(reason) ==> (after.current_err is Some ==> reason == meaning),
        after.tx == before.tx && after.remote_send_err_tx == before.remote_send_err_tx,
{
}

} // verus!
