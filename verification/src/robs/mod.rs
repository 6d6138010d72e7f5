//! Errors and change notifications of remotely observable collections.

use vstd::prelude::*;
use tokio::sync::watch::{
    channel as watch_channel, Receiver as WatchReceiver, Ref as WatchRef, Sender as WatchSender,
};
use crate::chmux;
use crate::rch;
use crate::rch::local::{asked, is_new, is_unseen, look, unseen_in};
use crate::text::{concat, decimal, push_decimal};

verus! {

/// An error that occurs when sending an event of an observable collection.
pub enum SendError {
    /// Encoding or transferring an update failed.
    Send(rch::base::SendErrorKind),
    /// Opening a channel contained in an update failed.
    Connect(chmux::ConnectError),
    /// Preparing a channel contained in an update failed.
    Listen(chmux::ListenerError),
    /// An endpoint forwarding the subscription could not complete the transfer.
    Forward,
}

impl SendError {
    /// The message shown to users.
    pub open spec fn text(self) -> Seq<char> {
        match self {
            SendError::Send(err) => "send error: "@ + err.text(),
            SendError::Connect(err) => "connect error: "@ + err.text(),
            SendError::Listen(err) => "listen error: "@ + err.text(),
            SendError::Forward => "forwarding error"@,
        }
    }

    /// Returns the message shown to users.
    pub fn message(&self) -> (r: String)
        ensures
            r@ == self.text(),
    {
        match self {
            SendError::Send(err) => concat("send error: ", err.message().as_str()),
            SendError::Connect(err) => concat("connect error: ", err.message().as_str()),
            SendError::Listen(err) => concat("listen error: ", err.message().as_str()),
            SendError::Forward => String::from_str("forwarding error"),
        }
    }

    /// The error that a failed broadcast means; a channel without receivers is none.
    pub open spec fn of_broadcast<T>(err: rch::broadcast::SendError<T>) -> Result<
        SendError,
        rch::broadcast::SendError<T>,
    > {
        match err {
            rch::broadcast::SendError::Send(err) => Ok(SendError::Send(err)),
            rch::broadcast::SendError::Connect(err) => Ok(SendError::Connect(err)),
            rch::broadcast::SendError::Listen(err) => Ok(SendError::Listen(err)),
            rch::broadcast::SendError::Forward => Ok(SendError::Forward),
            rch::broadcast::SendError::Closed(_) => Err(err),
        }
    }

    /// The error that a failed send means; a closed channel is none.
    pub open spec fn of_mpsc<T>(err: rch::mpsc::SendError<T>) -> Result<
        SendError,
        rch::mpsc::SendError<T>,
    > {
        match err {
            rch::mpsc::SendError::Send(err) => Ok(SendError::Send(err)),
            rch::mpsc::SendError::Connect(err) => Ok(SendError::Connect(err)),
            rch::mpsc::SendError::Listen(err) => Ok(SendError::Listen(err)),
            rch::mpsc::SendError::Forward => Ok(SendError::Forward),
            rch::mpsc::SendError::Closed(_) => Err(err),
        }
    }
}

impl<T> TryFrom<rch::broadcast::SendError<T>> for SendError {
    type Error = rch::broadcast::SendError<T>;

    fn try_from(err: rch::broadcast::SendError<T>) -> (r: Result<
        Self,
        rch::broadcast::SendError<T>,
    >) {
        match err {
            rch::broadcast::SendError::Send(err) => Ok(SendError::Send(err)),
            rch::broadcast::SendError::Connect(err) => Ok(SendError::Connect(err)),
            rch::broadcast::SendError::Listen(err) => Ok(SendError::Listen(err)),
            rch::broadcast::SendError::Forward => Ok(SendError::Forward),
            rch::broadcast::SendError::Closed(item) => Err(
                rch::broadcast::SendError::Closed(item),
            ),
        }
    }
}

impl<T> vstd::std_specs::convert::TryFromSpecImpl<rch::broadcast::SendError<T>> for SendError {
    open spec fn obeys_try_from_spec() -> bool {
        true
    }

    open spec fn try_from_spec(err: rch::broadcast::SendError<T>) -> Result<
        SendError,
        rch::broadcast::SendError<T>,
    > {
        SendError::of_broadcast(err)
    }
}

impl<T> TryFrom<rch::mpsc::SendError<T>> for SendError {
    type Error = rch::mpsc::SendError<T>;

    fn try_from(err: rch::mpsc::SendError<T>) -> (r: Result<Self, rch::mpsc::SendError<T>>) {
        match err {
            rch::mpsc::SendError::Send(err) => Ok(SendError::Send(err)),
            rch::mpsc::SendError::Connect(err) => Ok(SendError::Connect(err)),
            rch::mpsc::SendError::Listen(err) => Ok(SendError::Listen(err)),
            rch::mpsc::SendError::Forward => Ok(SendError::Forward),
            rch::mpsc::SendError::Closed(item) => Err(rch::mpsc::SendError::Closed(item)),
        }
    }
}

impl<T> vstd::std_specs::convert::TryFromSpecImpl<rch::mpsc::SendError<T>> for SendError {
    open spec fn obeys_try_from_spec() -> bool {
        true
    }

    open spec fn try_from_spec(err: rch::mpsc::SendError<T>) -> Result<
        SendError,
        rch::mpsc::SendError<T>,
    > {
        SendError::of_mpsc(err)
    }
}

/// An error that occurs when receiving an event or the initial value of an observed collection.
pub enum RecvError {
    /// The observed collection was dropped before it was marked as complete.
    Closed,
    /// The receiver lagged behind because the send buffer reached its limit.
    Lagged,
    /// The maximum size of the mirrored collection has been reached.
    MaxSizeExceeded(usize),
    /// Receiving or decoding an update failed.
    Receive(rch::base::RecvError),
    /// Opening a channel contained in an update failed.
    Connect(chmux::ConnectError),
    /// Preparing a channel contained in an update failed.
    Listen(chmux::ListenerError),
    /// An update referred to an index that is invalid for the mirrored collection.
    InvalidIndex(usize),
    /// An endpoint forwarding the subscription reported a failure.
    ///
    /// The failure is missing when that endpoint reported one that is unknown here.
    Remote(Option<Box<RecvError>>),
}

impl RecvError {
    /// The message shown to users.
    pub open spec fn text(self) -> Seq<char>
        decreases self,
    {
        match self {
            RecvError::Closed => "observed collection was dropped"@,
            RecvError::Lagged => "observation lagged behind"@,
            RecvError::MaxSizeExceeded(size) => "mirrored collection reached it maximum size of "@
                + decimal(size as nat),
            RecvError::Receive(err) => "receive error: "@ + err.text(),
            RecvError::Connect(err) => "connect error: "@ + err.text(),
            RecvError::Listen(err) => "listen error: "@ + err.text(),
            RecvError::InvalidIndex(idx) => "index "@ + decimal(idx as nat) + " is invalid"@,
            RecvError::Remote(Some(err)) => "remote "@ + err.text(),
            RecvError::Remote(None) => "unknown remote error"@,
        }
    }

    /// Returns the message shown to users.
    pub fn message(&self) -> (r: String)
        ensures
            r@ == self.text(),
        decreases self,
    {
        match self {
            RecvError::Closed => String::from_str("observed collection was dropped"),
            RecvError::Lagged => String::from_str("observation lagged behind"),
            RecvError::MaxSizeExceeded(size) => {
                let mut out = String::from_str("mirrored collection reached it maximum size of ");
                push_decimal(&mut out, *size as u64);
                out
            },
            RecvError::Receive(err) => concat("receive error: ", err.message().as_str()),
            RecvError::Connect(err) => concat("connect error: ", err.message().as_str()),
            RecvError::Listen(err) => concat("listen error: ", err.message().as_str()),
            RecvError::InvalidIndex(idx) => {
                let mut out = String::from_str("index ");
                push_decimal(&mut out, *idx as u64);
                out.append(" is invalid");
                out
            },
            RecvError::Remote(Some(err)) => concat("remote ", err.message().as_str()),
            RecvError::Remote(None) => String::from_str("unknown remote error"),
        }
    }

    /// The same failure of a broadcast channel.
    pub open spec fn of_broadcast(err: rch::broadcast::RecvError) -> RecvError
        decreases err,
    {
        match err {
            rch::broadcast::RecvError::Closed => RecvError::Closed,
            rch::broadcast::RecvError::Lagged => RecvError::Lagged,
            rch::broadcast::RecvError::Receive(err) => RecvError::Receive(err),
            rch::broadcast::RecvError::Connect(err) => RecvError::Connect(err),
            rch::broadcast::RecvError::Listen(err) => RecvError::Listen(err),
            rch::broadcast::RecvError::Remote(Some(err)) => RecvError::Remote(
                Some(Box::new(RecvError::of_broadcast(*err))),
            ),
            rch::broadcast::RecvError::Remote(None) => RecvError::Remote(None),
        }
    }

    /// Returns the same failure of a broadcast channel.
    pub fn from_broadcast(err: rch::broadcast::RecvError) -> (r: Self)
        ensures
            r == RecvError::of_broadcast(err),
        decreases err,
    {
        match err {
            rch::broadcast::RecvError::Closed => RecvError::Closed,
            rch::broadcast::RecvError::Lagged => RecvError::Lagged,
            rch::broadcast::RecvError::Receive(err) => RecvError::Receive(err),
            rch::broadcast::RecvError::Connect(err) => RecvError::Connect(err),
            rch::broadcast::RecvError::Listen(err) => RecvError::Listen(err),
            rch::broadcast::RecvError::Remote(Some(err)) => RecvError::Remote(
                Some(Box::new(RecvError::from_broadcast(*err))),
            ),
            rch::broadcast::RecvError::Remote(None) => RecvError::Remote(None),
        }
    }

    /// The same failure of the channel that carries the initial value.
    pub open spec fn of_mpsc(err: rch::mpsc::RecvError) -> RecvError
        decreases err,
    {
        match err {
            rch::mpsc::RecvError::Receive(err) => RecvError::Receive(err),
            rch::mpsc::RecvError::Connect(err) => RecvError::Connect(err),
            rch::mpsc::RecvError::Listen(err) => RecvError::Listen(err),
            rch::mpsc::RecvError::Remote(Some(err)) => RecvError::Remote(
                Some(Box::new(RecvError::of_mpsc(*err))),
            ),
            rch::mpsc::RecvError::Remote(None) => RecvError::Remote(None),
        }
    }

    /// Returns the same failure of the channel that carries the initial value.
    pub fn from_mpsc(err: rch::mpsc::RecvError) -> (r: Self)
        ensures
            r == RecvError::of_mpsc(err),
        decreases err,
    {
        match err {
            rch::mpsc::RecvError::Receive(err) => RecvError::Receive(err),
            rch::mpsc::RecvError::Connect(err) => RecvError::Connect(err),
            rch::mpsc::RecvError::Listen(err) => RecvError::Listen(err),
            rch::mpsc::RecvError::Remote(Some(err)) => RecvError::Remote(
                Some(Box::new(RecvError::from_mpsc(*err))),
            ),
            rch::mpsc::RecvError::Remote(None) => RecvError::Remote(None),
        }
    }
}

impl From<rch::broadcast::RecvError> for RecvError {
    fn from(err: rch::broadcast::RecvError) -> (r: Self) {
        RecvError::from_broadcast(err)
    }
}

impl vstd::std_specs::convert::FromSpecImpl<rch::broadcast::RecvError> for RecvError {
    open spec fn obeys_from_spec() -> bool {
        true
    }

    open spec fn from_spec(err: rch::broadcast::RecvError) -> RecvError {
        RecvError::of_broadcast(err)
    }
}

impl From<rch::mpsc::RecvError> for RecvError {
    fn from(err: rch::mpsc::RecvError) -> (r: Self) {
        RecvError::from_mpsc(err)
    }
}

impl vstd::std_specs::convert::FromSpecImpl<rch::mpsc::RecvError> for RecvError {
    open spec fn obeys_from_spec() -> bool {
        true
    }

    open spec fn from_spec(err: rch::mpsc::RecvError) -> RecvError {
        RecvError::of_mpsc(err)
    }
}

/// Returns the error to report after an event was sent.
///
/// That nobody listens, or no longer can, is not an error.
pub fn send_event<E>(sent: Result<(), rch::broadcast::SendError<E>>) -> (r: Option<SendError>)
    ensures
        r == (match sent {
            Ok(_) => None::<SendError>,
            Err(err) => if err.spec_is_disconnected() {
                None
            } else {
                Some(SendError::of_broadcast(err)->Ok_0)
            },
        }),
        r matches Some(err) ==> err is Send,
{
    match sent {
        Ok(_) => None,
        Err(err) => {
            if err.is_disconnected() {
                None
            } else {
                match SendError::try_from(err) {
                    Ok(err) => Some(err),
                    Err(_) => None,
                }
            }
        },
    }
}

/// The observed object has been dropped.
#[derive(Clone, Copy, Debug, PartialEq, Eq, Structural)]
pub struct DroppedError;

impl DroppedError {
    /// Returns the message shown to users.
    pub fn message(&self) -> (r: String)
        ensures
            r@ == "dropped"@,
    {
        String::from_str("dropped")
    }
}

/// Sends change notifications.
pub struct ChangeSender {
    /// Tells the notifiers of a change.
    pub tx: WatchSender<()>,
    /// Has seen no change.
    pub rx: WatchReceiver<()>,
}

impl ChangeSender {
    /// Creates a sender.
    pub fn new() -> (r: Self)
        ensures
            call_ensures(watch_channel::<()>, ((),), (r.tx, r.rx)),
    {
        let (tx, rx) = watch_channel(());
        ChangeSender { tx, rx }
    }

    /// Returns a notifier.
    ///
    /// It has seen none of the changes that were made so far.
    pub fn subscribe(&self) -> (r: ChangeNotifier)
        ensures
            cloned(self.rx, r.rx),
    {
        ChangeNotifier { rx: self.rx.clone() }
    }

    /// Notifies all notifiers.
    pub fn notify(&self)
        ensures
            call_ensures(WatchSender::<()>::send_replace, (&self.tx, ()), ()),
    {
        self.tx.send_replace(());
    }
}

/// Notifies a local observer of changes to an observable collection.
pub struct ChangeNotifier {
    /// Looks for changes.
    pub rx: WatchReceiver<()>,
}

/// What is reported to an observer, if it need not wait.
pub open spec fn notified(unseen: bool, open: Result<bool, ()>) -> Option<
    Result<(), DroppedError>,
> {
    if unseen || open == Ok::<bool, ()>(true) {
        Some(Ok(()))
    } else if open is Err {
        Some(Err(DroppedError))
    } else {
        None
    }
}

/// Returns what is reported to an observer, if it need not wait.
///
/// `unseen` says that there is a change that has not been seen, and `open` whether there is
/// one unless the collection and all its senders are gone. That they are gone is reported
/// once all changes have been seen.
pub fn notification(unseen: bool, open: Result<bool, ()>) -> (r: Option<Result<(), DroppedError>>)
    ensures
        r == notified(unseen, open),
{
    if unseen {
        return Some(Ok(()));
    }
    match open {
        Ok(true) => Some(Ok(())),
        Ok(false) => None,
        Err(_) => Some(Err(DroppedError)),
    }
}

impl ChangeNotifier {
    /// Looks for a change and marks it as seen; `None` means that there is none yet.
    ///
    /// What is found depends on what others do with the collection.
    pub fn changed(&mut self) -> (r: Option<Result<(), DroppedError>>)
        ensures
            exists|unseen: bool, open: Result<bool, ()>|
                {
                    &&& unseen_in(old(self).rx, unseen)
                    &&& asked(old(self).rx, open)
                    &&& r == #[trigger] notified(unseen, open)
                },
            r == Some(Ok::<(), DroppedError>(())) ==> exists|
                looking: &mut WatchReceiver<()>,
                value: WatchRef<'_, ()>,
            |
                {
                    &&& #[trigger] call_ensures(
                        WatchReceiver::<()>::borrow_and_update,
                        (looking,),
                        value,
                    )
                    &&& *looking == old(self).rx
                    &&& *final(looking) == final(self).rx
                },
            r != Some(Ok::<(), DroppedError>(())) ==> *final(self) == *old(self),
    {
        let unseen: bool = is_unseen(&self.rx);
        let open = is_new(&self.rx);
        let r = notification(unseen, open);
        if let Some(Ok(_)) = r {
            look(&mut self.rx);
        }
        r
    }

    /// Marks the current value as seen.
    pub fn update(&mut self)
        ensures
            exists|looking: &mut WatchReceiver<()>, value: WatchRef<'_, ()>|
                {
                    &&& #[trigger] call_ensures(
                        WatchReceiver::<()>::borrow_and_update,
                        (looking,),
                        value,
                    )
                    &&& *looking == old(self).rx
                    &&& *final(looking) == final(self).rx
                },
    {
        look(&mut self.rx);
    }

    /// Returns a notifier that has seen the same changes.
    pub fn duplicate(&self) -> (r: Self)
        ensures
            cloned(self.rx, r.rx),
    {
        ChangeNotifier { rx: self.rx.clone() }
    }
}

/// A failure of the channel that carries the initial value is the same failure of the
/// channel that carries the events.
pub proof fn law_failures_agree(err: rch::mpsc::RecvError)
    ensures
        RecvError::of_broadcast(rch::broadcast::RecvError::of_mpsc(err)) == RecvError::of_mpsc(err),
    decreases err,
{
    if let rch::mpsc::RecvError::Remote(Some(inner)) = err {
        law_failures_agree(*inner);
    }
}

/// A failure of sending an event is reported only if the event itself caused it: that nobody
/// observes the collection, or that an observer can no longer be reached, is none.
pub proof fn law_reported_failure_of_an_event<E>(
    sent: Result<(), rch::broadcast::SendError<E>>,
    r: Option<SendError>,
)
    requires
        call_ensures(send_event::<E>, (sent,), r),
    ensures
        sent is Ok ==> r is None,
        sent matches Err(err) && !(err is Send) ==> r is None,
        sent matches Err(rch::broadcast::SendError::Send(rch::base::SendErrorKind::Send(_))) ==> r
            is None,
        sent matches Err(rch::broadcast::SendError::Send(kind)) ==> (kind is Serialize || kind
            is MaxItemSizeExceeded ==> r == Some(SendError::Send(kind))),
{
}

/// A failure of a channel is the same failure of the collection; a channel that is closed is no
/// failure and is given back with its value.
pub proof fn law_same_failure_of_sending<T>(
    broadcast: rch::broadcast::SendError<T>,
    mpsc: rch::mpsc::SendError<T>,
    r: (Result<SendError, rch::broadcast::SendError<T>>, Result<SendError, rch::mpsc::SendError<T>>),
)
    requires
        call_ensures(
            <SendError as TryFrom<rch::broadcast::SendError<T>>>::try_from,
            (broadcast,),
            r.0,
        ),
        call_ensures(<SendError as TryFrom<rch::mpsc::SendError<T>>>::try_from, (mpsc,), r.1),
    ensures
        r.0 is Err <==> broadcast is Closed,
        r.0 matches Err(err) ==> err == broadcast,
        broadcast matches rch::broadcast::SendError::Send(err) ==> r.0 matches Ok(same) && same
            == SendError::Send(err),
        broadcast matches rch::broadcast::SendError::Connect(err) ==> r.0 matches Ok(same) && same
            == SendError::Connect(err),
        broadcast matches rch::broadcast::SendError::Listen(err) ==> r.0 matches Ok(same) && same
            == SendError::Listen(err),
        broadcast is Forward ==> r.0 matches Ok(SendError::Forward),
        r.1 is Err <==> mpsc is Closed,
        r.1 matches Err(err) ==> err == mpsc,
        mpsc matches rch::mpsc::SendError::Send(err) ==> r.1 matches Ok(same) && same
            == SendError::Send(err),
        mpsc matches rch::mpsc::SendError::Connect(err) ==> r.1 matches Ok(same) && same
            == SendError::Connect(err),
        mpsc matches rch::mpsc::SendError::Listen(err) ==> r.1 matches Ok(same) && same
            == SendError::Listen(err),
        mpsc is Forward ==> r.1 matches Ok(SendError::Forward),
{
}

/// A failure of receiving events is the same failure of the collection, at whatever endpoint it
/// occurred.
pub proof fn law_same_failure_of_events(
    err: rch::broadcast::RecvError,
    converted: RecvError,
    r: RecvError,
)
    requires
        call_ensures(<RecvError as From<rch::broadcast::RecvError>>::from, (err,), converted),
        call_ensures(RecvError::from_broadcast, (err,), r),
    ensures
        converted == r,
        err is Closed <==> r is Closed,
        err is Lagged <==> r is Lagged,
        err matches rch::broadcast::RecvError::Receive(inner) ==> r == RecvError::Receive(inner),
        err matches rch::broadcast::RecvError::Connect(inner) ==> r == RecvError::Connect(inner),
        err matches rch::broadcast::RecvError::Listen(inner) ==> r == RecvError::Listen(inner),
        err == rch::broadcast::RecvError::Remote(None) ==> r == RecvError::Remote(None),
        err matches rch::broadcast::RecvError::Remote(Some(inner)) ==> forall|same: RecvError|
            #[trigger]
            call_ensures(RecvError::from_broadcast, (*inner,), same) ==> r == RecvError::Remote(
                Some(Box::new(same)),
            ),
{
}

/// A failure of receiving the initial value is the same failure of the collection, at whatever
/// endpoint it occurred.
pub proof fn law_same_failure_of_initial_value(
    err: rch::mpsc::RecvError,
    converted: RecvError,
    r: RecvError,
)
    requires
        call_ensures(<RecvError as From<rch::mpsc::RecvError>>::from, (err,), converted),
        call_ensures(RecvError::from_mpsc, (err,), r),
    ensures
        converted == r,
        err matches rch::mpsc::RecvError::Receive(inner) ==> r == RecvError::Receive(inner),
        err matches rch::mpsc::RecvError::Connect(inner) ==> r == RecvError::Connect(inner),
        err matches rch::mpsc::RecvError::Listen(inner) ==> r == RecvError::Listen(inner),
        err == rch::mpsc::RecvError::Remote(None) ==> r == RecvError::Remote(None),
        err matches rch::mpsc::RecvError::Remote(Some(inner)) ==> forall|same: RecvError| #[trigger]
            call_ensures(RecvError::from_mpsc, (*inner,), same) ==> r == RecvError::Remote(
                Some(Box::new(same)),
            ),
{
}

/// An observer is told of a change as long as there is one that it has not seen, also when the
/// collection is gone; only then is it told that the collection is gone, and only if it is.
pub proof fn law_changes_come_before_the_end(
    unseen: bool,
    open: Result<bool, ()>,
    r: Option<Result<(), DroppedError>>,
)
    requires
        call_ensures(notification, (unseen, open), r),
    ensures
        unseen ==> r matches Some(Ok(_)),
        open matches Ok(true) ==> r matches Some(Ok(_)),
        !unseen && open is Err ==> r matches Some(Err(_)),
        !unseen && (open matches Ok(false)) ==> r is None,
        r matches Some(Err(_)) ==> open is Err,
{
}

/// An observer that is told of no change has seen what it had seen before.
pub proof fn law_no_change_is_seen_unreported(
    before: ChangeNotifier,
    after: ChangeNotifier,
    r: Option<Result<(), DroppedError>>,
)
    requires
        exists|state: &mut ChangeNotifier| #[trigger]
            call_ensures(ChangeNotifier::changed, (state,), r) && *state == before
                && *final(state) == after,
    ensures
        r is None ==> after == before,
        r matches Some(Err(_)) ==> after == before,
        r is None ==> unseen_in(before.rx, false),
        r matches Some(Err(_)) ==> unseen_in(before.rx, false),
{
}

} // verus!
