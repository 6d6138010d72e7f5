//! A read/write lock of a value that may be stored on a remote endpoint.

pub mod msg;

use vstd::prelude::*;
use crate::chmux;
use crate::rch::mpsc::queue::QueueSender;
use crate::rch::mpsc::sender::Queued;
use crate::rch::{base, mpsc, oneshot, watch};
use crate::robj::rw_lock::msg::Value;
use crate::text::concat;

verus! {

/// An error returned when locking a value for reading or writing.
pub enum LockError {
    /// The owner has been dropped.
    Dropped,
    /// Receiving or decoding the response failed.
    Receive(base::RecvError),
    /// Opening a channel contained in the response failed.
    Connect(chmux::ConnectError),
    /// Preparing a channel contained in the response failed.
    Listen(chmux::ListenerError),
    /// An endpoint forwarding the request or the response reported a failure.
    ///
    /// The failure is missing when that endpoint reported one that is unknown here.
    Remote(Option<Box<LockError>>),
}

impl LockError {
    /// The message shown to users.
    pub open spec fn text(self) -> Seq<char>
        decreases self,
    {
        match self {
            LockError::Dropped => "owner dropped"@,
            LockError::Receive(err) => "receive error: "@ + err.text(),
            LockError::Connect(err) => "connect error: "@ + err.text(),
            LockError::Listen(err) => "listen error: "@ + err.text(),
            LockError::Remote(Some(err)) => "remote "@ + err.text(),
            LockError::Remote(None) => "unknown remote error"@,
        }
    }

    /// Returns the message shown to users.
    pub fn message(&self) -> (r: String)
        ensures
            r@ == self.text(),
        decreases self,
    {
        match self {
            LockError::Dropped => String::from_str("owner dropped"),
            LockError::Receive(err) => concat("receive error: ", err.message().as_str()),
            LockError::Connect(err) => concat("connect error: ", err.message().as_str()),
            LockError::Listen(err) => concat("listen error: ", err.message().as_str()),
            LockError::Remote(Some(err)) => concat("remote ", err.message().as_str()),
            LockError::Remote(None) => String::from_str("unknown remote error"),
        }
    }

    /// The error that a failure to receive the value means.
    pub open spec fn of_oneshot(err: oneshot::RecvError) -> LockError
        decreases err,
    {
        match err {
            oneshot::RecvError::Closed => LockError::Dropped,
            oneshot::RecvError::Receive(err) => LockError::Receive(err),
            oneshot::RecvError::Connect(err) => LockError::Connect(err),
            oneshot::RecvError::Listen(err) => LockError::Listen(err),
            oneshot::RecvError::Remote(Some(err)) => LockError::Remote(
                Some(Box::new(LockError::of_oneshot(*err))),
            ),
            oneshot::RecvError::Remote(None) => LockError::Remote(None),
        }
    }

    /// Returns the error that a failure to receive the value means.
    pub fn from_oneshot(err: oneshot::RecvError) -> (r: Self)
        ensures
            r == LockError::of_oneshot(err),
        decreases err,
    {
        match err {
            oneshot::RecvError::Closed => LockError::Dropped,
            oneshot::RecvError::Receive(err) => LockError::Receive(err),
            oneshot::RecvError::Connect(err) => LockError::Connect(err),
            oneshot::RecvError::Listen(err) => LockError::Listen(err),
            oneshot::RecvError::Remote(Some(err)) => LockError::Remote(
                Some(Box::new(LockError::from_oneshot(*err))),
            ),
            oneshot::RecvError::Remote(None) => LockError::Remote(None),
        }
    }
}

impl From<oneshot::RecvError> for LockError {
    fn from(err: oneshot::RecvError) -> (r: Self) {
        LockError::from_oneshot(err)
    }
}

impl vstd::std_specs::convert::FromSpecImpl<oneshot::RecvError> for LockError {
    open spec fn obeys_from_spec() -> bool {
        true
    }

    open spec fn from_spec(err: oneshot::RecvError) -> LockError {
        LockError::of_oneshot(err)
    }
}

/// An error returned when committing a value.
#[derive(Clone, Copy, Debug, PartialEq, Eq, Structural)]
pub enum CommitError {
    /// The owner has been dropped.
    Dropped,
    /// The updated value could not be returned to the owner.
    Failed,
}

impl CommitError {
    /// The message shown to users.
    pub open spec fn text(self) -> Seq<char> {
        match self {
            CommitError::Dropped => "owner dropped"@,
            CommitError::Failed => "commit failed"@,
        }
    }

    /// Returns the message shown to users.
    pub fn message(&self) -> (r: String)
        ensures
            r@ == self.text(),
    {
        match self {
            CommitError::Dropped => String::from_str("owner dropped"),
            CommitError::Failed => String::from_str("commit failed"),
        }
    }

    /// The error that a failure to send the updated value means.
    pub open spec fn of_send_error<T>(err: oneshot::SendError<T>) -> CommitError {
        match err {
            oneshot::SendError::Closed(_) => CommitError::Dropped,
            oneshot::SendError::Failed => CommitError::Failed,
        }
    }
}

impl<T> From<oneshot::SendError<T>> for CommitError {
    fn from(err: oneshot::SendError<T>) -> (r: Self) {
        match err {
            oneshot::SendError::Closed(_) => CommitError::Dropped,
            oneshot::SendError::Failed => CommitError::Failed,
        }
    }
}

impl<T> vstd::std_specs::convert::FromSpecImpl<oneshot::SendError<T>> for CommitError {
    open spec fn obeys_from_spec() -> bool {
        true
    }

    open spec fn from_spec(err: oneshot::SendError<T>) -> CommitError {
        CommitError::of_send_error(err)
    }
}

impl From<oneshot::RecvError> for CommitError {
    fn from(err: oneshot::RecvError) -> (r: Self) {
        CommitError::Failed
    }
}

impl vstd::std_specs::convert::FromSpecImpl<oneshot::RecvError> for CommitError {
    open spec fn obeys_from_spec() -> bool {
        true
    }

    open spec fn from_spec(err: oneshot::RecvError) -> CommitError {
        CommitError::Failed
    }
}

/// Returns whether the task that watches for the invalidation of a value is done.
///
/// It waits for as long as the value is known to be valid and the owner may still change
/// that.
pub fn monitor_invalidation(invalid_rx: &mut watch::Receiver<bool>) -> (done: bool)
    ensures
        done == (old(invalid_rx).value != Ok::<bool, watch::RecvError>(false) || old(
            invalid_rx,
        ).sender_dropped),
        *final(invalid_rx) == (watch::Receiver { unseen: false, ..*old(invalid_rx) }),
{
    match invalid_rx.borrow_and_update() {
        Ok(invalid) => {
            if *invalid {
                return true;
            }
        },
        Err(_) => {
            return true;
        },
    }
    match invalid_rx.changed() {
        Some(Err(_)) => true,
        _ => false,
    }
}

/// A lock that allows reading of a shared value.
///
/// The value is fetched from the owner and kept until the owner invalidates it.
pub struct ReadLock<T> {
    /// The value fetched last.
    pub cache: Option<Value<T>>,
}

impl<T> ReadLock<T> {
    /// Whether a valid value is at hand.
    pub open spec fn is_cached(self) -> bool {
        self.cache matches Some(value) && value.valid()
    }

    /// Creates the lock.
    pub fn new() -> (r: Self)
        ensures
            r.cache is None,
    {
        ReadLock { cache: None }
    }

    /// Returns the value if it is at hand; otherwise it must be requested from the owner.
    pub fn fetch(&self) -> (r: Option<&Value<T>>)
        ensures
            r == (if self.is_cached() {
                Some(&self.cache->0)
            } else {
                None
            }),
    {
        match &self.cache {
            Some(value) => {
                if value.is_valid() {
                    Some(value)
                } else {
                    None
                }
            },
            None => None,
        }
    }

    /// Goes on after the owner replied to the request: keeps the value and returns it for
    /// reading.
    ///
    /// It is returned even if the owner has invalidated it in the meantime.
    pub fn on_value(&mut self, received: Result<Value<T>, oneshot::RecvError>) -> (r: Result<
        ReadGuard<'_, T>,
        LockError,
    >)
        ensures
            match received {
                Ok(value) => {
                    &&& r matches Ok(guard) && *guard.value == value
                    &&& final(self).cache == Some(value)
                },
                Err(err) => {
                    &&& r matches Err(lock_err) && lock_err == LockError::of_oneshot(err)
                    &&& *final(self) == *old(self)
                },
            },
    {
        match received {
            Ok(value) => {
                self.cache = Some(value);
                Ok(ReadGuard { value: self.cache.as_ref().unwrap() })
            },
            Err(err) => Err(LockError::from(err)),
        }
    }

    /// Forgets a value that is no longer valid, after its invalidation was noticed.
    pub fn on_invalidated(&mut self)
        ensures
            final(self).cache == (if old(self).is_cached() {
                old(self).cache
            } else {
                None
            }),
    {
        let valid: bool = match &self.cache {
            Some(value) => value.is_valid(),
            None => false,
        };
        if !valid {
            self.cache = None;
        }
    }

    /// Returns the value for reading if it is at hand.
    pub fn read(&self) -> (r: Option<ReadGuard<'_, T>>)
        ensures
            self.is_cached() ==> (r matches Some(guard) && *guard.value == self.cache->0),
            !self.is_cached() ==> r is None,
    {
        match self.fetch() {
            Some(value) => Some(ReadGuard { value }),
            None => None,
        }
    }
}

/// Shared read access to a value.
pub struct ReadGuard<'a, T> {
    /// The value.
    pub value: &'a Value<T>,
}

impl<'a, T> ReadGuard<'a, T> {
    /// Returns the shared value.
    pub fn get(&self) -> (r: &T)
        ensures
            *r == self.value.value,
    {
        &self.value.value
    }

    /// Returns whether waiting for the invalidation of the value is over.
    ///
    /// It is when the value was invalidated, when the owner was dropped and when the
    /// connection failed.
    pub fn invalidated(&self) -> (done: bool)
        ensures
            done == self.value.wait_is_over(),
    {
        match &self.value.invalid_rx.value {
            Ok(invalid) => *invalid || self.value.invalid_rx.sender_dropped,
            Err(err) => err.is_disconnected() || self.value.invalid_rx.sender_dropped,
        }
    }

    /// Returns whether the value has been invalidated.
    ///
    /// This is also the case if the owner was dropped or its word can no longer be received.
    pub fn is_invalidated(&self) -> (r: bool)
        ensures
            r == self.value.invalidated(),
    {
        match self.value.invalid_rx.borrow() {
            Ok(invalid) => *invalid || self.value.invalid_rx.sender_dropped,
            Err(_) => true,
        }
    }
}

/// A lock that allows reading and writing of a shared value.
pub struct RwLock<T> {
    /// The lock for reading.
    pub read: ReadLock<T>,
}

impl<T> RwLock<T> {
    /// Creates the lock.
    pub fn new(read: ReadLock<T>) -> (r: Self)
        ensures
            r.read == read,
    {
        RwLock { read }
    }

    /// Returns the value for reading if it is at hand.
    pub fn read(&self) -> (r: Option<ReadGuard<'_, T>>)
        ensures
            self.read.is_cached() ==> (r matches Some(guard) && *guard.value
                == self.read.cache->0),
            !self.read.is_cached() ==> r is None,
    {
        self.read.read()
    }

    /// Returns the lock for reading only.
    pub fn read_lock(&self) -> (r: &ReadLock<T>)
        ensures
            *r == self.read,
    {
        &self.read
    }

    /// Gives write access to the value that the owner sent in reply to the request.
    pub fn write(
        received: Result<T, oneshot::RecvError>,
        new_value_tx: oneshot::Sender,
        confirm_rx: oneshot::Receiver,
    ) -> (r: Result<WriteGuard<T>, LockError>)
        ensures
            r == (match received {
                Ok(value) => Ok::<WriteGuard<T>, LockError>(
                    WriteGuard { value, new_value_tx, confirm_rx },
                ),
                Err(err) => Err(LockError::of_oneshot(err)),
            }),
    {
        match received {
            Ok(value) => Ok(WriteGuard { value, new_value_tx, confirm_rx }),
            Err(err) => Err(LockError::from(err)),
        }
    }
}

/// Exclusive write access to a value; changes are lost unless they are committed.
pub struct WriteGuard<T> {
    /// The value.
    pub value: T,
    /// Channel for sending the modified value to the owner.
    pub new_value_tx: oneshot::Sender,
    /// Channel on which the owner confirms that it has stored the value.
    pub confirm_rx: oneshot::Receiver,
}

impl<T> WriteGuard<T> {
    /// Returns the value.
    pub fn get(&self) -> (r: &T)
        ensures
            *r == self.value,
    {
        &self.value
    }

    /// Replaces the value.
    pub fn set(&mut self, value: T)
        ensures
            *final(self) == (WriteGuard { value, ..*old(self) }),
    {
        self.value = value;
    }

    /// Sends the modified value to the owner, given the answer of the queue.
    ///
    /// Returns the value to put into the queue, and the channel on which the owner's confirmation
    /// decides.
    pub fn commit(self, queued: Queued) -> (r: Result<(T, oneshot::Receiver), CommitError>)
        ensures
            r == (match self.new_value_tx.send_result(self.value, queued) {
                Ok(value) => Ok::<(T, oneshot::Receiver), CommitError>((value, self.confirm_rx)),
                Err(err) => Err(CommitError::of_send_error(err)),
            }),
    {
        match self.new_value_tx.send(self.value, queued) {
            Ok(value) => Ok((value, self.confirm_rx)),
            Err(err) => Err(CommitError::from(err)),
        }
    }

    /// Sends the modified value to the owner over a local queue.
    ///
    /// Returns the channel on which the owner's confirmation decides.
    pub fn commit_queued(self, tx: QueueSender<T>) -> (r: Result<oneshot::Receiver, CommitError>)
        ensures
            r matches Ok(confirm_rx) ==> confirm_rx == self.confirm_rx && tx.may_return(
                self.value,
                None,
                Ok(()),
            ),
            r matches Err(err) ==> exists|queue_err: mpsc::TrySendError<T>|
                tx.may_return(self.value, None, Err(queue_err)) && err
                    == CommitError::of_send_error(
                    #[trigger] oneshot::SendError::of_try_send_error(queue_err),
                ),
    {
        match oneshot::send_queued(tx, self.value, None) {
            Ok(()) => Ok(self.confirm_rx),
            Err(err) => Err(CommitError::from(err)),
        }
    }

    /// Returns the result of committing, given the owner's confirmation.
    pub fn on_confirmed(confirmed: Result<(), oneshot::RecvError>) -> (r: Result<(), CommitError>)
        ensures
            r == (match confirmed {
                Ok(stored) => Ok::<(), CommitError>(stored),
                Err(_) => Err(CommitError::Failed),
            }),
    {
        match confirmed {
            Ok(stored) => Ok(stored),
            Err(err) => Err(CommitError::from(err)),
        }
    }
}

/// The owner receives the value that was committed: what goes into the queue is the value of the
/// guard, and the receiver of the owner reports it when it comes out.
pub proof fn law_committed_value_is_received<T>(
    guard: WriteGuard<T>,
    owner: oneshot::Receiver,
    queued: Queued,
)
    ensures
        guard.new_value_tx.send_result(guard.value, queued) matches Ok(value) ==> {
            &&& value == guard.value
            &&& owner.polled(Some(Ok(value))) == Some(Ok::<T, oneshot::RecvError>(guard.value))
        },
{
}

/// A value that was fetched is at hand for as long as it is valid, so that the owner is asked
/// once only; when it is found invalid it is forgotten and must be fetched again.
pub proof fn law_cache_follows_validity<T>(value: Value<T>)
    ensures
        (ReadLock { cache: Some(value) }).is_cached() <==> value.valid(),
        !(ReadLock::<T> { cache: None }).is_cached(),
{
}

/// A value counts as invalidated once waiting for that is over, and one that does not count as
/// invalidated is valid unless the owner has closed the channel on which it is released.
pub proof fn law_invalidation<T>(value: Value<T>)
    ensures
        value.wait_is_over() ==> value.invalidated(),
        !value.invalidated() && value.dropped_tx.closed is None
            && value.dropped_tx.remote_send_err is None ==> value.valid(),
{
}

/// A value that was fetched is handed out only while the owner is reachable and has not invalidated
/// it: the channel on which the value is released is neither closed nor failed, and the owner last
/// said that the value is valid. While that holds it is handed out.
pub proof fn law_valid_value_is_read<T>(
    lock: ReadLock<T>,
    value: Value<T>,
    fetched: Option<&Value<T>>,
    r: Option<ReadGuard<'_, T>>,
)
    requires
        lock.cache == Some(value),
        call_ensures(ReadLock::<T>::fetch, (&lock,), fetched),
        call_ensures(ReadLock::<T>::read, (&lock,), r),
    ensures
        r is Some <==> value.dropped_tx.closed is None && value.dropped_tx.remote_send_err is None
            && value.invalid_rx.value == Ok::<bool, watch::RecvError>(false),
        r matches Some(guard) ==> *guard.value == value,
        fetched is Some <==> r is Some,
        fetched matches Some(found) ==> *found == value,
{
}

/// Nothing is read before a value was fetched, and a new lock has fetched none.
pub proof fn law_nothing_is_read_before_it_was_fetched<T>(
    lock: ReadLock<T>,
    r: Option<ReadGuard<'_, T>>,
    fetched: Option<&Value<T>>,
    new: ReadLock<T>,
)
    requires
        lock.cache is None,
        call_ensures(ReadLock::<T>::read, (&lock,), r),
        call_ensures(ReadLock::<T>::fetch, (&lock,), fetched),
        call_ensures(ReadLock::<T>::new, (), new),
    ensures
        r is None && fetched is None,
        new.cache is None,
{
}

/// A value is valid exactly if the owner is reachable and last said so.
pub proof fn law_validity<T>(value: Value<T>, r: bool)
    requires
        call_ensures(Value::<T>::is_valid, (&value,), r),
    ensures
        r ==> value.dropped_tx.closed is None,
        r ==> value.dropped_tx.remote_send_err is None,
        r ==> value.invalid_rx.value == Ok::<bool, watch::RecvError>(false),
        value.dropped_tx.closed is None && value.dropped_tx.remote_send_err is None
            && value.invalid_rx.value == Ok::<bool, watch::RecvError>(false) ==> r,
{
}

/// The value that the owner sent is kept and handed out, whatever was kept before; if none arrives,
/// that is reported and what was kept stays.
pub proof fn law_fetched_value_is_kept<T>(
    received: Result<Value<T>, oneshot::RecvError>,
)
    ensures
        forall|lock: &mut ReadLock<T>, r: Result<ReadGuard<'_, T>, LockError>| #[trigger]
            call_ensures(ReadLock::<T>::on_value, (lock, received), r) ==> {
                &&& received matches Ok(value) ==> final(lock).cache == Some(value) && (r matches Ok(
                    guard,
                ) && *guard.value == value)
                &&& received is Err ==> r is Err && final(lock).cache == lock.cache
                &&& received matches Err(oneshot::RecvError::Closed) ==> (r matches Err(err) && err
                    is Dropped)
            },
{
}

/// A value is forgotten exactly if it is not valid any more.
pub proof fn law_invalid_value_is_forgotten<T>(
    before: ReadLock<T>,
    after: ReadLock<T>,
    value: Value<T>,
)
    requires
        exists|state: &mut ReadLock<T>| #[trigger]
            call_ensures(ReadLock::<T>::on_invalidated, (state,), ()) && *state == before && *final(state) == after,
        before.cache == Some(value),
    ensures
        after.cache is Some <==> value.dropped_tx.closed is None && value.dropped_tx.remote_send_err
            is None && value.invalid_rx.value == Ok::<bool, watch::RecvError>(false),
        after.cache is Some ==> after.cache == before.cache,
{
}

/// Waiting for the invalidation of a value is done once the owner said that the value is invalid or
/// can no longer be heard, and not before.
pub proof fn law_invalidation_is_awaited(
    before: watch::Receiver<bool>,
    after: watch::Receiver<bool>,
    done: bool,
)
    requires
        exists|state: &mut watch::Receiver<bool>| #[trigger]
            call_ensures(monitor_invalidation, (state,), done) && *state == before && *final(state)
                == after,
    ensures
        !done <==> before.value == Ok::<bool, watch::RecvError>(false) && !before.sender_dropped,
        after.value == before.value,
{
}

/// Writing gives access to the value that the owner sent; what is written is what is read from the
/// guard and what is committed.
pub proof fn law_written_value_is_committed<T>(
    current: T,
    value: T,
    new_value_tx: oneshot::Sender,
    confirm_rx: oneshot::Receiver,
    guard: WriteGuard<T>,
    written: WriteGuard<T>,
    shown: &T,
    queued: Queued,
    r: Result<(T, oneshot::Receiver), CommitError>,
)
    requires
        call_ensures(RwLock::<T>::write, (Ok(current), new_value_tx, confirm_rx), Ok(guard)),
        exists|state: &mut WriteGuard<T>| #[trigger]
            call_ensures(WriteGuard::<T>::set, (state, value), ()) && *state == guard && *final(state) == written,
        call_ensures(WriteGuard::<T>::get, (&written,), shown),
        call_ensures(WriteGuard::<T>::commit, (written, queued), r),
    ensures
        guard.value == current,
        *shown == value,
        r is Ok <==> new_value_tx.tx.queue is Some && new_value_tx.tx.closed is None
            && new_value_tx.tx.remote_send_err is None && queued is Queued,
        r matches Ok((committed, confirm)) ==> committed == value && confirm == confirm_rx,
        new_value_tx.tx.remote_send_err is None && (new_value_tx.tx.queue is None
            || new_value_tx.tx.closed is Some || queued is Closed) ==> r == Err::<
            (T, oneshot::Receiver),
            CommitError,
        >(CommitError::Dropped),
{
}

/// Writing fails if the owner sends no value, and a commit succeeds only if the owner confirms it.
pub proof fn law_failed_write<T>(
    err: oneshot::RecvError,
    new_value_tx: oneshot::Sender,
    confirm_rx: oneshot::Receiver,
    r: Result<WriteGuard<T>, LockError>,
    confirmed: Result<(), oneshot::RecvError>,
    committed: Result<(), CommitError>,
)
    requires
        call_ensures(RwLock::<T>::write, (Err(err), new_value_tx, confirm_rx), r),
        call_ensures(WriteGuard::<T>::on_confirmed, (confirmed,), committed),
    ensures
        r is Err,
        err is Closed <==> (r matches Err(lock_err) && lock_err is Dropped),
        committed is Ok <==> confirmed is Ok,
        confirmed is Err ==> committed == Err::<(), CommitError>(CommitError::Failed),
{
}

/// A value that is being read is invalidated when the owner said so, when the owner was dropped
/// and when the owner can no longer be heard; while none of this holds it is not. Waiting for
/// it to be invalidated does not end before it is.
pub proof fn law_value_being_read<'a, T>(
    guard: ReadGuard<'a, T>,
    value: &T,
    r: bool,
    done: bool,
)
    requires
        call_ensures(ReadGuard::<'a, T>::get, (&guard,), value),
        call_ensures(ReadGuard::<'a, T>::is_invalidated, (&guard,), r),
        call_ensures(ReadGuard::<'a, T>::invalidated, (&guard,), done),
    ensures
        *value == guard.value.value,
        guard.value.invalid_rx.value matches Ok(true) ==> r && done,
        guard.value.invalid_rx.sender_dropped ==> r && done,
        guard.value.invalid_rx.value is Err ==> r,
        !guard.value.invalid_rx.sender_dropped && (guard.value.invalid_rx.value matches Ok(false))
            ==> !r,
        done ==> r,
        guard.value.invalid_rx.value matches Ok(_) ==> done == r,
{
    if let Ok(invalid) = guard.value.invalid_rx.value {
        assert(guard.value.invalid_rx.value == Ok::<bool, watch::RecvError>(invalid));
    }
}

/// A failure to receive the value means the same failure of the lock; an owner that is gone is
/// told from a failure of the connection.
pub proof fn law_meaning_of_failed_lock(
    err: oneshot::RecvError,
    converted: LockError,
    r: LockError,
)
    requires
        call_ensures(<LockError as From<oneshot::RecvError>>::from, (err,), converted),
        call_ensures(LockError::from_oneshot, (err,), r),
    ensures
        converted == r,
        r is Dropped <==> err is Closed,
        err matches oneshot::RecvError::Receive(inner) ==> r == LockError::Receive(inner),
        err matches oneshot::RecvError::Connect(inner) ==> r == LockError::Connect(inner),
        err matches oneshot::RecvError::Listen(inner) ==> r == LockError::Listen(inner),
        err == oneshot::RecvError::Remote(None) ==> r == LockError::Remote(None),
        err matches oneshot::RecvError::Remote(Some(inner)) ==> forall|same: LockError| #[trigger]
            call_ensures(LockError::from_oneshot, (*inner,), same) ==> r == LockError::Remote(
                Some(Box::new(same)),
            ),
{
}

/// A value cannot be committed to an owner that is gone; any other failure to send it, or to
/// have it confirmed, is a failure of the commit.
pub proof fn law_meaning_of_failed_commit<T>(
    sent: oneshot::SendError<T>,
    confirmed: oneshot::RecvError,
    r: (CommitError, CommitError),
)
    requires
        call_ensures(<CommitError as From<oneshot::SendError<T>>>::from, (sent,), r.0),
        call_ensures(<CommitError as From<oneshot::RecvError>>::from, (confirmed,), r.1),
    ensures
        r.0 == CommitError::Dropped <==> sent is Closed,
        r.0 == CommitError::Failed <==> sent is Failed,
        r.1 == CommitError::Failed,
{
}

/// A lock for reading and writing reads as the lock for reading that it holds.
pub proof fn law_reading_through_the_lock<T>(
    read: ReadLock<T>,
    lock: RwLock<T>,
    inner: &ReadLock<T>,
    r: Option<ReadGuard<'_, T>>,
    direct: Option<ReadGuard<'_, T>>,
)
    requires
        call_ensures(RwLock::<T>::new, (read,), lock),
        call_ensures(RwLock::<T>::read_lock, (&lock,), inner),
        call_ensures(RwLock::<T>::read, (&lock,), r),
        call_ensures(ReadLock::<T>::read, (&read,), direct),
    ensures
        *inner == read,
        r is Some <==> direct is Some,
        r is Some ==> *(r->0).value == *(direct->0).value,
{
}

/// A value that was committed over a local queue went into the queue and is confirmed over the
/// channel of its guard; one that was not failed because the owner is gone or the queue did not
/// take it.
pub proof fn law_committed_over_a_queue<T>(
    guard: WriteGuard<T>,
    tx: QueueSender<T>,
    r: Result<oneshot::Receiver, CommitError>,
)
    requires
        call_ensures(WriteGuard::<T>::commit_queued, (guard, tx), r),
    ensures
        r matches Ok(confirm_rx) ==> confirm_rx == guard.confirm_rx && tx.may_return(
            guard.value,
            None,
            Ok(()),
        ),
        r matches Err(err) ==> exists|queue_err: mpsc::TrySendError<T>| #[trigger]
            tx.may_return(guard.value, None, Err(queue_err)) && (err == CommitError::Dropped
                <==> queue_err is Closed),
{
}

} // verus!
