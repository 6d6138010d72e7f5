//! Remote channels.
//!
//! This module holds what the channel types share: why a channel was closed,
//! how failures of a send are classified, which half of a channel may still be
//! sent, and how size limits travel.

pub mod base;
pub mod bin;
pub mod broadcast;
pub mod local;
pub mod lr;
pub mod mpsc;
pub mod oneshot;
pub mod watch;

use vstd::prelude::*;
use crate::chmux;
use crate::text::concat;

verus! {

/// Default size of the buffer of a channel half that was received.
pub const DEFAULT_BUFFER: usize = 2;

/// Default maximum size of an item in bytes.
pub const DEFAULT_MAX_ITEM_SIZE: usize = 16_777_216;

/// Back channel message: the receiver has been closed.
pub const BACKCHANNEL_MSG_CLOSE: u8 = 0x01;

/// Back channel message: sending on to another endpoint failed.
pub const BACKCHANNEL_MSG_ERROR: u8 = 0x02;

/// Back channel message: the receiver requests a rate limit.
pub const BACKCHANNEL_MSG_RATE_LIMIT: u8 = 0x03;

/// Why a channel was closed.
#[derive(Clone, Copy, Debug, PartialEq, Eq, Structural)]
pub enum ClosedReason {
    /// The receiver was closed explicitly.
    Closed,
    /// The receiver was dropped.
    Dropped,
    /// The connection failed.
    Failed,
}

impl ClosedReason {
    /// The reason behind a failed send; a failure caused by the item closes nothing.
    pub open spec fn of_send_error_kind(err: base::SendErrorKind) -> Option<ClosedReason> {
        match err {
            base::SendErrorKind::Send(chmux::SendError::Closed { gracefully: true }) => Some(
                ClosedReason::Closed,
            ),
            base::SendErrorKind::Send(chmux::SendError::Closed { gracefully: false }) => Some(
                ClosedReason::Dropped,
            ),
            base::SendErrorKind::Send(chmux::SendError::ChMux) => Some(ClosedReason::Failed),
            _ => None,
        }
    }

    /// Returns the reason behind a failed send, if it closed the channel.
    pub fn from_send_error_kind(err: &base::SendErrorKind) -> (r: Option<ClosedReason>)
        ensures
            r == ClosedReason::of_send_error_kind(*err),
    {
        match err {
            base::SendErrorKind::Send(err) => match err {
                chmux::SendError::Closed { gracefully } => if *gracefully {
                    Some(ClosedReason::Closed)
                } else {
                    Some(ClosedReason::Dropped)
                },
                chmux::SendError::ChMux => Some(ClosedReason::Failed),
            },
            _ => None,
        }
    }

    /// The reason behind a failure to connect.
    pub open spec fn of_connect_error(err: chmux::ConnectError) -> ClosedReason {
        if err is Rejected {
            ClosedReason::Dropped
        } else {
            ClosedReason::Failed
        }
    }

    /// Returns the reason behind a failure to connect.
    pub fn from_connect_error(err: &chmux::ConnectError) -> (r: ClosedReason)
        ensures
            r == ClosedReason::of_connect_error(*err),
    {
        match err {
            chmux::ConnectError::Rejected => ClosedReason::Dropped,
            _ => ClosedReason::Failed,
        }
    }
}

/// Whether a reason says that the receiver went away in an orderly manner.
pub open spec fn is_orderly(reason: Option<ClosedReason>) -> bool {
    reason == Some(ClosedReason::Closed) || reason == Some(ClosedReason::Dropped)
}

/// Returns whether a reason says that the receiver went away in an orderly manner.
pub fn closed_orderly(reason: Option<ClosedReason>) -> (r: bool)
    ensures
        r == is_orderly(reason),
{
    matches!(reason, Some(ClosedReason::Closed) | Some(ClosedReason::Dropped))
}

/// A failure to send that is reported to the local half of a channel.
pub enum RemoteSendError {
    /// Sending to the remote endpoint failed.
    Send(base::SendErrorKind),
    /// Opening the channel failed.
    Connect(chmux::ConnectError),
    /// Accepting the channel failed.
    Listen(chmux::ListenerError),
    /// An endpoint forwarding the channel failed to send.
    Forward,
    /// The receiver has been closed.
    Closed,
}

impl Clone for RemoteSendError {
    fn clone(&self) -> (r: Self)
        ensures
            r == *self,
    {
        match self {
            RemoteSendError::Send(err) => RemoteSendError::Send(err.clone()),
            RemoteSendError::Connect(err) => RemoteSendError::Connect(*err),
            RemoteSendError::Listen(err) => RemoteSendError::Listen(*err),
            RemoteSendError::Forward => RemoteSendError::Forward,
            RemoteSendError::Closed => RemoteSendError::Closed,
        }
    }
}

impl RemoteSendError {
    /// The reason for which the channel is closed by this error.
    pub open spec fn reason(self) -> ClosedReason {
        match self {
            RemoteSendError::Closed => ClosedReason::Closed,
            RemoteSendError::Send(err) => match ClosedReason::of_send_error_kind(err) {
                Some(reason) => reason,
                None => ClosedReason::Failed,
            },
            RemoteSendError::Connect(err) => ClosedReason::of_connect_error(err),
            RemoteSendError::Listen(_) | RemoteSendError::Forward => ClosedReason::Failed,
        }
    }

    /// Returns the reason for which the channel is closed by this error.
    pub fn closed_reason(&self) -> (r: ClosedReason)
        ensures
            r == self.reason(),
    {
        match self {
            RemoteSendError::Closed => ClosedReason::Closed,
            RemoteSendError::Send(err) => match ClosedReason::from_send_error_kind(err) {
                Some(reason) => reason,
                None => ClosedReason::Failed,
            },
            RemoteSendError::Connect(err) => ClosedReason::from_connect_error(err),
            RemoteSendError::Listen(_) | RemoteSendError::Forward => ClosedReason::Failed,
        }
    }
}

/// Connecting a channel half failed.
#[derive(Clone, Copy, Debug, PartialEq, Eq, Structural)]
pub enum ConnectError {
    /// The other half of the channel was dropped.
    Dropped,
    /// Opening the channel failed.
    Connect(chmux::ConnectError),
    /// Accepting the channel failed.
    Listen(chmux::ListenerError),
}

impl ConnectError {
    /// The message shown to users.
    pub open spec fn text(self) -> Seq<char> {
        match self {
            ConnectError::Dropped => "other part was dropped"@,
            ConnectError::Connect(err) => "connect error: "@ + err.text(),
            ConnectError::Listen(err) => "listen error: "@ + err.text(),
        }
    }

    /// Returns the message shown to users.
    pub fn message(&self) -> (r: String)
        ensures
            r@ == self.text(),
    {
        match self {
            ConnectError::Dropped => String::from_str("other part was dropped"),
            ConnectError::Connect(err) => concat("connect error: ", err.message().as_str()),
            ConnectError::Listen(err) => concat("listen error: ", err.message().as_str()),
        }
    }
}

/// Returns what a channel half learns of opening its channel.
pub fn on_connected(res: Result<(), chmux::ConnectError>) -> (r: Result<(), ConnectError>)
    ensures
        r == (match res {
            Ok(connected) => Ok::<(), ConnectError>(connected),
            Err(err) => Err(ConnectError::Connect(err)),
        }),
{
    match res {
        Ok(connected) => Ok(connected),
        Err(err) => Err(ConnectError::Connect(err)),
    }
}

/// Returns what a channel half learns of accepting its channel.
pub fn on_accepted(res: Result<(), chmux::ListenerError>) -> (r: Result<(), ConnectError>)
    ensures
        r == (match res {
            Ok(accepted) => Ok::<(), ConnectError>(accepted),
            Err(err) => Err(ConnectError::Listen(err)),
        }),
{
    match res {
        Ok(accepted) => Ok(accepted),
        Err(err) => Err(ConnectError::Listen(err)),
    }
}

/// Transmitting a queued item failed.
pub enum SendingError<T> {
    /// Sending the item failed.
    Send(base::SendError<T>),
    /// The item was dropped before it could be sent.
    Dropped,
}

/// The reason for which transmitting a queued item failed.
pub enum SendingErrorKind {
    /// Sending the item failed.
    Send(base::SendErrorKind),
    /// The item was dropped before it could be sent.
    Dropped,
}

impl SendingErrorKind {
    /// The message shown to users.
    pub open spec fn text(self) -> Seq<char> {
        match self {
            SendingErrorKind::Send(err) => err.text(),
            SendingErrorKind::Dropped => "channel was dropped"@,
        }
    }

    /// Returns the message shown to users.
    pub fn message(&self) -> (r: String)
        ensures
            r@ == self.text(),
    {
        match self {
            SendingErrorKind::Send(err) => err.message(),
            SendingErrorKind::Dropped => String::from_str("channel was dropped"),
        }
    }
}

impl<T> SendingError<T> {
    /// The reason without the item.
    pub open spec fn spec_kind(self) -> SendingErrorKind {
        match self {
            SendingError::Send(err) => SendingErrorKind::Send(err.kind),
            SendingError::Dropped => SendingErrorKind::Dropped,
        }
    }

    /// Returns the reason, discarding the item.
    pub fn kind(self) -> (r: SendingErrorKind)
        ensures
            r == self.spec_kind(),
    {
        match self {
            SendingError::Send(err) => SendingErrorKind::Send(err.kind),
            SendingError::Dropped => SendingErrorKind::Dropped,
        }
    }
}

/// Classification shared by the send errors of all channels.
pub trait SendErrorExt {
    /// Whether the receiver went away in an orderly manner.
    spec fn closed(&self) -> bool;

    /// Whether no further value can be sent.
    spec fn disconnected(&self) -> bool;

    /// Whether the value caused the error.
    spec fn item_specific(&self) -> bool;

    /// Returns whether the receiver went away in an orderly manner.
    fn is_closed(&self) -> (r: bool)
        ensures
            r == self.closed(),
    ;

    /// Returns whether no further value can be sent.
    fn is_disconnected(&self) -> (r: bool)
        ensures
            r == self.disconnected(),
    ;

    /// Returns whether the value caused the error.
    fn is_item_specific(&self) -> (r: bool)
        ensures
            r == self.item_specific(),
    ;
}

/// What became of the confirmation that a channel half was sent.
#[derive(Clone, Copy, Debug, PartialEq, Eq, Structural)]
pub enum Confirmation {
    /// The half arrived at the remote endpoint.
    Confirmed,
    /// Nothing is known yet.
    Waiting,
    /// The send was given up.
    Abandoned,
}

/// Where a channel half is.
#[derive(Clone, Copy, Debug, PartialEq, Eq, Structural)]
pub enum Location {
    /// At this endpoint.
    Local,
    /// On its way to a remote endpoint.
    Sending,
    /// At a remote endpoint.
    Remote,
}

impl Location {
    /// Where the half is, given what became of its confirmation.
    pub open spec fn settled(self, confirmation: Confirmation) -> Location {
        if self is Sending {
            match confirmation {
                Confirmation::Confirmed => Location::Remote,
                Confirmation::Waiting => Location::Sending,
                Confirmation::Abandoned => Location::Local,
            }
        } else {
            self
        }
    }

    /// Returns whether the half is at this endpoint.
    ///
    /// A half on its way is settled by what became of its confirmation: it is
    /// remote once confirmed and local again once the send was given up.
    pub fn check_local(&mut self, confirmation: Confirmation) -> (r: bool)
        ensures
            *final(self) == old(self).settled(confirmation),
            r == (*final(self) is Local),
    {
        if let Location::Sending = *self {
            *self = match confirmation {
                Confirmation::Confirmed => Location::Remote,
                Confirmation::Waiting => Location::Sending,
                Confirmation::Abandoned => Location::Local,
            };
        }
        matches!(*self, Location::Local)
    }

    /// Marks the half as being on its way.
    pub fn start_send(&mut self)
        ensures
            *final(self) == Location::Sending,
    {
        *self = Location::Sending;
    }
}

/// Keeps track of where both halves of a channel are.
#[derive(Clone, Copy, Debug, PartialEq, Eq, Structural)]
pub struct Interlock {
    /// The sender.
    pub sender: Location,
    /// The receiver.
    pub receiver: Location,
}

impl Interlock {
    /// Both halves are at this endpoint.
    pub fn new() -> (r: Self)
        ensures
            r == (Interlock { sender: Location::Local, receiver: Location::Local }),
    {
        Interlock { sender: Location::Local, receiver: Location::Local }
    }
}

/// The size limit assumed when the remote endpoint does not send one.
pub fn default_max_item_size() -> (r: u64)
    ensures
        r == u64::MAX,
{
    u64::MAX
}

/// Returns the wire representation of a local size limit.
pub fn max_item_size_to_wire(max_item_size: usize) -> (r: u64)
    ensures
        r as nat == max_item_size as nat,
{
    max_item_size as u64
}

/// The local size limit for a limit received from a remote endpoint.
pub open spec fn local_max_item_size(wire: u64) -> usize {
    if wire <= usize::MAX {
        wire as usize
    } else {
        usize::MAX
    }
}

/// Returns the local size limit for a received one, as large as this platform can represent.
pub fn max_item_size_from_wire(wire: u64) -> (r: usize)
    ensures
        r == local_max_item_size(wire),
{
    if wire <= usize::MAX as u64 {
        wire as usize
    } else {
        usize::MAX
    }
}

/// A size limit arrives unchanged at an endpoint of the same platform.
pub proof fn law_max_item_size_round_trip(max_item_size: usize)
    ensures
        local_max_item_size(max_item_size as u64) == max_item_size,
{
}

/// A failed send that closes the channel makes it unusable, and one caused by the item does not close it.
pub proof fn law_closing_errors_disconnect(err: base::SendErrorKind)
    ensures
        ClosedReason::of_send_error_kind(err) is Some <==> err.spec_is_disconnected(),
        err.spec_is_item_specific() ==> ClosedReason::of_send_error_kind(err) is None,
        err.spec_is_closed() ==> ClosedReason::of_send_error_kind(err) == Some(
            ClosedReason::Closed,
        ),
{
}

/// The numbers and limits that endpoints agree on.
pub proof fn law_agreed_numbers()
    ensures
        BACKCHANNEL_MSG_CLOSE == 1,
        BACKCHANNEL_MSG_ERROR == 2,
        BACKCHANNEL_MSG_RATE_LIMIT == 3,
        DEFAULT_BUFFER == 2,
        DEFAULT_MAX_ITEM_SIZE == 16 * 1024 * 1024,
{
}

/// A size limit that is sent arrives unchanged, and one that is too large for the platform is the
/// largest possible one; a limit that was not sent limits nothing.
pub proof fn law_size_limit_travels(
    max_item_size: usize,
    wire: u64,
    arrived: usize,
    other: u64,
    of_other: usize,
    default: u64,
)
    requires
        call_ensures(max_item_size_to_wire, (max_item_size,), wire),
        call_ensures(max_item_size_from_wire, (wire,), arrived),
        call_ensures(max_item_size_from_wire, (other,), of_other),
        call_ensures(default_max_item_size, (), default),
    ensures
        arrived == max_item_size,
        of_other <= other,
        of_other == other || of_other == usize::MAX,
        default == u64::MAX,
{
}

/// What a failed send says of the channel: closing and dropping the receiver are orderly, a lost
/// connection is not, and a failure that the value caused closes nothing.
pub proof fn law_reason_of_failed_send(
    kind: base::SendErrorKind,
    reason: Option<ClosedReason>,
    orderly: bool,
    published: ClosedReason,
)
    requires
        call_ensures(ClosedReason::from_send_error_kind, (&kind,), reason),
        call_ensures(closed_orderly, (reason,), orderly),
        call_ensures(RemoteSendError::closed_reason, (&RemoteSendError::Send(kind),), published),
    ensures
        reason is None <==> kind is Serialize || kind is MaxItemSizeExceeded,
        reason == Some(ClosedReason::Closed) <==> kind == base::SendErrorKind::Send(
            chmux::SendError::Closed { gracefully: true },
        ),
        reason == Some(ClosedReason::Dropped) <==> kind == base::SendErrorKind::Send(
            chmux::SendError::Closed { gracefully: false },
        ),
        reason == Some(ClosedReason::Failed) <==> kind == base::SendErrorKind::Send(
            chmux::SendError::ChMux,
        ),
        orderly <==> (kind matches base::SendErrorKind::Send(err) && err is Closed),
        reason matches Some(known) ==> published == known,
        reason is None ==> published is Failed,
{
}

/// What other published failures say of the channel.
pub proof fn law_reason_of_published_failure(err: RemoteSendError, reason: ClosedReason)
    requires
        call_ensures(RemoteSendError::closed_reason, (&err,), reason),
    ensures
        err is Closed ==> reason is Closed,
        err is Forward || err is Listen ==> reason is Failed,
        err matches RemoteSendError::Connect(cause) ==> (reason is Dropped <==> cause is Rejected)
            && !(reason is Closed),
{
}

/// A rejected connection means that the other half was dropped; any other failure to connect is a
/// failure.
pub proof fn law_rejected_connection_is_dropped(err: chmux::ConnectError, r: ClosedReason)
    requires
        call_ensures(ClosedReason::from_connect_error, (&err,), r),
    ensures
        err is Rejected <==> r is Dropped,
        !(err is Rejected) <==> r is Failed,
{
}

/// A half on its way becomes remote once it has arrived and local again once the send was given up;
/// a half that is not on its way stays where it is.
pub proof fn law_half_is_settled(
    before: Location,
    after: Location,
    confirmation: Confirmation,
    r: bool,
)
    requires
        exists|state: &mut Location| #[trigger]
            call_ensures(Location::check_local, (state, confirmation), r) && *state == before
                && *final(state) == after,
    ensures
        r <==> after is Local,
        r <==> before is Local || before is Sending && confirmation is Abandoned,
        after is Remote <==> before is Remote || before is Sending && confirmation is Confirmed,
        after is Sending <==> before is Sending && confirmation is Waiting,
{
}

/// A half whose send was started is not local until that send is given up.
pub proof fn law_started_send_leaves(
    before: Location,
    started: Location,
    after: Location,
    confirmation: Confirmation,
    r: bool,
)
    requires
        exists|state: &mut Location| #[trigger]
            call_ensures(Location::start_send, (state,), ()) && *state == before
                && *final(state) == started,
        exists|state: &mut Location| #[trigger]
            call_ensures(Location::check_local, (state, confirmation), r) && *state == started
                && *final(state) == after,
    ensures
        r <==> confirmation is Abandoned,
        after is Remote <==> confirmation is Confirmed,
{
}

/// What a half learns of connecting: it succeeds if the channel was opened or accepted, and a
/// failure is passed on.
pub proof fn law_connection_result(
    connected: Result<(), chmux::ConnectError>,
    of_connected: Result<(), ConnectError>,
    accepted: Result<(), chmux::ListenerError>,
    of_accepted: Result<(), ConnectError>,
)
    requires
        call_ensures(on_connected, (connected,), of_connected),
        call_ensures(on_accepted, (accepted,), of_accepted),
    ensures
        of_connected is Ok <==> connected is Ok,
        connected matches Err(err) ==> of_connected == Err::<(), ConnectError>(
            ConnectError::Connect(err),
        ),
        of_accepted is Ok <==> accepted is Ok,
        accepted matches Err(err) ==> of_accepted == Err::<(), ConnectError>(
            ConnectError::Listen(err),
        ),
{
}

/// The reason of a failed transmission is that of the failed send.
pub proof fn law_kind_of_failed_transmission<T>(err: SendingError<T>, r: SendingErrorKind)
    requires
        call_ensures(SendingError::<T>::kind, (err,), r),
    ensures
        err is Dropped <==> r is Dropped,
        err matches SendingError::Send(send) ==> r == SendingErrorKind::Send(send.kind),
{
}

/// A copy of a failure is the same failure, and both halves of a new channel are local.
pub proof fn law_new_halves_are_local(
    err: RemoteSendError,
    copied: RemoteSendError,
    interlock: Interlock,
)
    requires
        call_ensures(<RemoteSendError as Clone>::clone, (&err,), copied),
        call_ensures(Interlock::new, (), interlock),
    ensures
        copied == err,
        interlock.sender is Local && interlock.receiver is Local,
{
}

} // verus!
