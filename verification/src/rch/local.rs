//! Queues and watched values that parts of a process share.
//!
//! They are those of tokio. Others use them at the same time, so that what they hold may
//! change between any two calls.

use vstd::prelude::*;
use tokio::sync::mpsc::error::TryRecvError as TokioTryRecvError;
use tokio::sync::mpsc::error::TrySendError as TokioTrySendError;
use tokio::sync::mpsc::{
    channel as bounded_channel, unbounded_channel, OwnedPermit, Receiver as TokioReceiver,
    Sender as TokioSender, UnboundedReceiver, UnboundedSender,
};
use tokio::sync::watch::error::{RecvError as WatchError, SendError as WatchSendError};
use tokio::sync::watch::{
    channel as watch_channel, Receiver as WatchReceiver, Ref as WatchRef, Sender as WatchSender,
};

verus! {

/// The sending end of a queue.
#[verifier::external_type_specification]
#[verifier::external_body]
#[verifier::reject_recursive_types(T)]
pub struct ExTokioSender<T>(TokioSender<T>);

/// The receiving end of a queue.
#[verifier::external_type_specification]
#[verifier::external_body]
#[verifier::reject_recursive_types(T)]
pub struct ExTokioReceiver<T>(TokioReceiver<T>);

/// Room for one item in a queue.
#[verifier::external_type_specification]
#[verifier::external_body]
#[verifier::reject_recursive_types(T)]
pub struct ExOwnedPermit<T>(OwnedPermit<T>);

/// The end of a watched value that sets it.
#[verifier::external_type_specification]
#[verifier::external_body]
#[verifier::reject_recursive_types(T)]
pub struct ExWatchSender<T>(WatchSender<T>);

/// The end of a watched value that looks at it.
#[verifier::external_type_specification]
#[verifier::external_body]
#[verifier::reject_recursive_types(T)]
pub struct ExWatchReceiver<T>(WatchReceiver<T>);

/// A watched value that is being looked at.
#[verifier::external_type_specification]
#[verifier::external_body]
#[verifier::reject_recursive_types(T)]
pub struct ExWatchRef<'a, T>(WatchRef<'a, T>);

/// Nobody can set a watched value any more.
#[verifier::external_type_specification]
#[verifier::external_body]
pub struct ExWatchError(WatchError);

/// The sending end of a queue without a limit.
#[verifier::external_type_specification]
#[verifier::external_body]
#[verifier::reject_recursive_types(T)]
pub struct ExUnboundedSender<T>(UnboundedSender<T>);

/// The receiving end of a queue without a limit.
#[verifier::external_type_specification]
#[verifier::external_body]
#[verifier::reject_recursive_types(T)]
pub struct ExUnboundedReceiver<T>(UnboundedReceiver<T>);

/// Why an item could not be put into a queue, with the item.
#[verifier::external_type_specification]
#[verifier::reject_recursive_types(T)]
pub struct ExTokioTrySendError<T>(TokioTrySendError<T>);

/// Why no item could be taken out of a queue.
#[verifier::external_type_specification]
pub struct ExTokioTryRecvError(TokioTryRecvError);

/// A value that could not be set because nobody looks at it.
#[verifier::external_type_specification]
#[verifier::reject_recursive_types(T)]
pub struct ExWatchSendError<T>(WatchSendError<T>);

/// The largest number of items for which a queue can be created.
pub const MAX_BUFFER: usize = usize::MAX / 8;

/// [`tokio::sync::mpsc::channel`] creates a queue.
///
/// The call panics when the number of items is zero or larger than a semaphore can count.
/// Nothing is said of the queue, which is shared.
pub assume_specification<T>[ bounded_channel::<T> ](buffer: usize) -> (r: (
    TokioSender<T>,
    TokioReceiver<T>,
))
    requires
        0 < buffer <= usize::MAX / 8,
;

/// [`tokio::sync::mpsc::Sender::try_send`] tries to put an item into a queue.
///
/// The call hands the item back when the queue is full or its receiver is closed. Which of
/// these happens depends on what others do with the queue.
pub assume_specification<T>[ TokioSender::<T>::try_send ](tx: &TokioSender<T>, message: T) -> (r:
    std::result::Result<(), TokioTrySendError<T>>)
    ensures
        r matches Err(TokioTrySendError::Full(back)) ==> back == message,
        r matches Err(TokioTrySendError::Closed(back)) ==> back == message,
;

/// [`tokio::sync::mpsc::Sender::clone`] adds a sending end to a queue.
///
/// Nothing is said of the queue, which is shared.
pub assume_specification<T>[ <TokioSender<T> as Clone>::clone ](tx: &TokioSender<T>) -> (r:
    TokioSender<T>);

/// [`tokio::sync::mpsc::Sender::try_reserve_owned`] tries to make room in a queue.
///
/// The call fails when the queue is full or its receiver is closed. Which of these happens
/// depends on what others do with the queue.
pub assume_specification<T>[ TokioSender::<T>::try_reserve_owned ](tx: TokioSender<T>) -> (r:
    std::result::Result<OwnedPermit<T>, TokioTrySendError<TokioSender<T>>>);

/// [`tokio::sync::mpsc::OwnedPermit::send`] puts an item where room was made for it.
///
/// Nothing is said of the queue, which is shared.
pub assume_specification<T>[ OwnedPermit::<T>::send ](permit: OwnedPermit<T>, value: T) -> (r:
    TokioSender<T>);

/// Returns the room that is left in a queue with [`tokio::sync::mpsc::Sender::capacity`].
///
/// The number depends on what others do with the queue.
#[verifier::external_body]
fn room<T>(tx: &TokioSender<T>) -> (r: usize) {
    tx.capacity()
}

/// Whether asking for the room that is left in a queue gave a number.
pub closed spec fn found_room<T>(tx: TokioSender<T>, left: usize) -> bool {
    call_ensures(room::<T>, (&tx,), left)
}

/// Returns the room that is left in a queue.
pub(crate) fn room_left<T>(tx: &TokioSender<T>) -> (r: usize)
    ensures
        found_room(*tx, r),
{
    room(tx)
}

/// [`tokio::sync::mpsc::Receiver::try_recv`] tries to take an item out of a queue.
///
/// What the call returns depends on what others do with the queue.
pub assume_specification<T>[ TokioReceiver::<T>::try_recv ](rx: &mut TokioReceiver<T>) -> (r:
    std::result::Result<T, TokioTryRecvError>);

/// [`tokio::sync::mpsc::Receiver::len`] gives the number of items in a queue.
///
/// The number depends on what others do with the queue.
pub assume_specification<T>[ TokioReceiver::<T>::len ](rx: &TokioReceiver<T>) -> (r: usize);

/// [`tokio::sync::mpsc::Receiver::is_empty`] says whether a queue is empty.
///
/// The answer depends on what others do with the queue.
pub assume_specification<T>[ TokioReceiver::<T>::is_empty ](rx: &TokioReceiver<T>) -> (r: bool);

/// [`tokio::sync::watch::channel`] creates a watched value.
///
/// Nothing is said of the value, which is shared.
pub assume_specification<T>[ watch_channel::<T> ](init: T) -> (r: (
    WatchSender<T>,
    WatchReceiver<T>,
));

/// [`tokio::sync::watch::Receiver::borrow`] looks at a watched value.
///
/// The value depends on what others set it to.
pub assume_specification<T>[ WatchReceiver::<T>::borrow ](rx: &WatchReceiver<T>) -> (r: WatchRef<
    '_,
    T,
>);

/// [`tokio::sync::watch::Sender::borrow`] looks at a watched value.
///
/// The value depends on what others set it to.
pub assume_specification<T>[ WatchSender::<T>::borrow ](tx: &WatchSender<T>) -> (r: WatchRef<
    '_,
    T,
>);

/// [`tokio::sync::watch::Receiver::borrow_and_update`] looks at a watched value and marks it as
/// seen.
///
/// The value depends on what others set it to.
pub assume_specification<T>[ WatchReceiver::<T>::borrow_and_update ](
    rx: &mut WatchReceiver<T>,
) -> (r: WatchRef<'_, T>);

/// The [`core::ops::Deref`] impl of [`tokio::sync::watch::Ref`] gives the value that is being
/// looked at.
///
/// Nothing is said of the value, which is what it was when looking at it began.
pub assume_specification<'a, 'b, T>[ <WatchRef<'a, T> as core::ops::Deref>::deref ](
    value: &'b WatchRef<'a, T>,
) -> (r: &'b T);

/// Whether a copy is one of a value that is being looked at.
pub open spec fn copied<T: Clone>(value: WatchRef<'_, T>, copy: T) -> bool {
    exists|held: &T|
        #![trigger cloned(*held, copy)]
        call_ensures(<WatchRef<'_, T> as core::ops::Deref>::deref, (&value,), held) && cloned(
            *held,
            copy,
        )
}

/// Returns a copy of a value that is being looked at.
pub(crate) fn copy_of<T: Clone>(value: WatchRef<'_, T>) -> (r: T)
    ensures
        copied(value, r),
{
    let held = &*value;
    let copy = held.clone();
    assert(cloned(*held, copy));
    copy
}

/// Whether a copy is one of a watched value as it was found by a receiver.
pub open spec fn peeked<T: Clone>(rx: WatchReceiver<T>, copy: T) -> bool {
    exists|value: WatchRef<'_, T>| #[trigger]
        call_ensures(WatchReceiver::<T>::borrow, (&rx,), value) && copied(value, copy)
}

/// Returns a copy of a watched value as it is found by a receiver.
pub(crate) fn peek<T: Clone>(rx: &WatchReceiver<T>) -> (r: T)
    ensures
        peeked(*rx, r),
{
    copy_of(rx.borrow())
}

/// Whether a copy is one of a watched value as it was found by a sender.
pub open spec fn held_by<T: Clone>(tx: WatchSender<T>, copy: T) -> bool {
    exists|value: WatchRef<'_, T>| #[trigger]
        call_ensures(WatchSender::<T>::borrow, (&tx,), value) && copied(value, copy)
}

/// Returns a copy of a watched value as it is found by a sender.
pub(crate) fn current<T: Clone>(tx: &WatchSender<T>) -> (r: T)
    ensures
        held_by(*tx, r),
{
    copy_of(tx.borrow())
}

/// Returns a copy of a watched value and marks it as seen.
pub(crate) fn look<T: Clone>(rx: &mut WatchReceiver<T>) -> (r: T)
    ensures
        exists|looking: &mut WatchReceiver<T>, value: WatchRef<'_, T>|
            {
                &&& #[trigger] call_ensures(
                    WatchReceiver::<T>::borrow_and_update,
                    (looking,),
                    value,
                )
                &&& *looking == *old(rx)
                &&& *final(looking) == *final(rx)
                &&& copied(value, r)
            },
{
    copy_of(rx.borrow_and_update())
}

/// [`tokio::sync::watch::Ref::has_changed`] says whether the value that is being looked at has
/// not been seen.
///
/// Nothing is said of the answer, which was settled when looking at the value began.
pub assume_specification<'a, T>[ WatchRef::<'a, T>::has_changed ](value: &WatchRef<'a, T>) -> (r:
    bool);

/// Whether looking at a value said that it has not been seen, or that it has.
pub open spec fn unseen_in<T>(rx: WatchReceiver<T>, unseen: bool) -> bool {
    exists|value: WatchRef<'_, T>| #[trigger]
        call_ensures(WatchReceiver::<T>::borrow, (&rx,), value) && call_ensures(
            WatchRef::<'_, T>::has_changed,
            (&value,),
            unseen,
        )
}

/// Returns whether a value has not been seen, also when nobody can set it any more.
pub(crate) fn is_unseen<T>(rx: &WatchReceiver<T>) -> (r: bool)
    ensures
        unseen_in(*rx, r),
{
    let value = rx.borrow();
    value.has_changed()
}

/// [`tokio::sync::watch::Receiver::has_changed`] says whether a value has not been seen.
///
/// The call fails when nobody can set the value any more. The answer depends on what others
/// do with the value.
pub assume_specification<T>[ WatchReceiver::<T>::has_changed ](rx: &WatchReceiver<T>) -> (r:
    std::result::Result<bool, WatchError>);

/// Whether asking for a new value gave an answer; it fails when nobody can set the value any
/// more.
pub open spec fn asked<T>(rx: WatchReceiver<T>, answer: Result<bool, ()>) -> bool {
    exists|given: Result<bool, WatchError>| #[trigger]
        call_ensures(WatchReceiver::<T>::has_changed, (&rx,), given) && answer == (match given {
            Ok(changed) => Ok::<bool, ()>(changed),
            Err(_) => Err(()),
        })
}

/// Returns whether a value has not been seen, unless nobody can set it any more.
pub(crate) fn is_new<T>(rx: &WatchReceiver<T>) -> (r: Result<bool, ()>)
    ensures
        asked(*rx, r),
{
    match rx.has_changed() {
        Ok(changed) => Ok(changed),
        Err(_) => Err(()),
    }
}

/// [`tokio::sync::watch::Sender::send`] sets a watched value.
///
/// The call hands the value back when nobody looks at it any more.
pub assume_specification<T>[ WatchSender::<T>::send ](tx: &WatchSender<T>, value: T) -> (r:
    std::result::Result<(), WatchSendError<T>>)
    ensures
        r matches Err(err) ==> err.0 == value,
;

/// [`tokio::sync::mpsc::unbounded_channel`] creates a queue without a limit.
///
/// Nothing is said of the queue, which is shared.
pub assume_specification<T>[ unbounded_channel::<T> ]() -> (r: (
    UnboundedSender<T>,
    UnboundedReceiver<T>,
));

/// [`tokio::sync::mpsc::UnboundedReceiver::try_recv`] tries to take an item out of a queue
/// without a limit.
///
/// What the call returns depends on what others do with the queue.
pub assume_specification<T>[ UnboundedReceiver::<T>::try_recv ](
    rx: &mut UnboundedReceiver<T>,
) -> (r: std::result::Result<T, TokioTryRecvError>);

/// [`tokio::sync::watch::Sender::send_replace`] replaces a watched value.
///
/// The call returns the previous value, which depends on what others set it to.
pub assume_specification<T>[ WatchSender::<T>::send_replace ](tx: &WatchSender<T>, value: T) -> (r:
    T);

/// Returns whether nobody looks at a value with [`tokio::sync::watch::Sender::is_closed`].
///
/// The answer depends on what others do with the value.
#[verifier::external_body]
fn unwatched<T>(tx: &WatchSender<T>) -> (r: bool) {
    tx.is_closed()
}

/// Whether asking if nobody looks at a value gave an answer.
pub closed spec fn found_unwatched<T>(tx: WatchSender<T>, answer: bool) -> bool {
    call_ensures(unwatched::<T>, (&tx,), answer)
}

/// Returns whether nobody looks at a value.
pub(crate) fn is_unwatched<T>(tx: &WatchSender<T>) -> (r: bool)
    ensures
        found_unwatched(*tx, r),
{
    unwatched(tx)
}

/// [`tokio::sync::watch::Sender::subscribe`] starts looking at a value.
///
/// Nothing is said of the value, which is shared.
pub assume_specification<T>[ WatchSender::<T>::subscribe ](tx: &WatchSender<T>) -> (r:
    WatchReceiver<T>);

/// [`tokio::sync::watch::Receiver::clone`] starts looking at a value from where another one
/// looks at it.
///
/// Nothing is said of the value, which is shared.
pub assume_specification<T>[ <WatchReceiver<T> as Clone>::clone ](rx: &WatchReceiver<T>) -> (r:
    WatchReceiver<T>);

/// [`tokio::sync::watch::Receiver::mark_changed`] marks a value as not seen.
///
/// Nothing is said of the value, which is shared.
pub assume_specification<T>[ WatchReceiver::<T>::mark_changed ](rx: &mut WatchReceiver<T>);

/// [`tokio::sync::watch::Receiver::mark_unchanged`] marks a value as seen.
///
/// Nothing is said of the value, which is shared.
pub assume_specification<T>[ WatchReceiver::<T>::mark_unchanged ](rx: &mut WatchReceiver<T>);

} // verus!
