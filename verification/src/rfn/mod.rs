//! Remote functions.

pub mod msg;
pub mod tracing;

pub use msg::RFnRequest;

use vstd::prelude::*;
use crate::chmux;
use crate::rch::{base, oneshot};
use crate::text::concat;

verus! {

/// An error returned when calling a remote function.
pub enum CallError {
    /// The provider was dropped before replying, or the function panicked.
    Dropped,
    /// Receiving or decoding the result failed.
    Receive(base::RecvError),
    /// Opening a channel contained in the result failed.
    Connect(chmux::ConnectError),
    /// Preparing a channel contained in the result failed.
    Listen(chmux::ListenerError),
    /// An endpoint forwarding the call or the result reported a failure.
    ///
    /// The failure is missing when that endpoint reported one that is unknown here.
    Remote(Option<Box<CallError>>),
}

impl CallError {
    /// The message shown to users.
    pub open spec fn text(self) -> Seq<char>
        decreases self,
    {
        match self {
            CallError::Dropped => "provider dropped or function panicked"@,
            CallError::Receive(err) => "receive error: "@ + err.text(),
            CallError::Connect(err) => "connect error: "@ + err.text(),
            CallError::Listen(err) => "listen error: "@ + err.text(),
            CallError::Remote(Some(err)) => "remote "@ + err.text(),
            CallError::Remote(None) => "unknown remote error"@,
        }
    }

    /// Returns the message shown to users.
    pub fn message(&self) -> (r: String)
        ensures
            r@ == self.text(),
        decreases self,
    {
        match self {
            CallError::Dropped => String::from_str("provider dropped or function panicked"),
            CallError::Receive(err) => concat("receive error: ", err.message().as_str()),
            CallError::Connect(err) => concat("connect error: ", err.message().as_str()),
            CallError::Listen(err) => concat("listen error: ", err.message().as_str()),
            CallError::Remote(Some(err)) => concat("remote ", err.message().as_str()),
            CallError::Remote(None) => String::from_str("unknown remote error"),
        }
    }

    /// The error that a failure to receive the result means.
    pub open spec fn of_oneshot(err: oneshot::RecvError) -> CallError
        decreases err,
    {
        match err {
            oneshot::RecvError::Closed => CallError::Dropped,
            oneshot::RecvError::Receive(err) => CallError::Receive(err),
            oneshot::RecvError::Connect(err) => CallError::Connect(err),
            oneshot::RecvError::Listen(err) => CallError::Listen(err),
            oneshot::RecvError::Remote(Some(err)) => CallError::Remote(
                Some(Box::new(CallError::of_oneshot(*err))),
            ),
            oneshot::RecvError::Remote(None) => CallError::Remote(None),
        }
    }

    /// Returns the error that a failure to receive the result means.
    pub fn from_oneshot(err: oneshot::RecvError) -> (r: Self)
        ensures
            r == CallError::of_oneshot(err),
        decreases err,
    {
        match err {
            oneshot::RecvError::Closed => CallError::Dropped,
            oneshot::RecvError::Receive(err) => CallError::Receive(err),
            oneshot::RecvError::Connect(err) => CallError::Connect(err),
            oneshot::RecvError::Listen(err) => CallError::Listen(err),
            oneshot::RecvError::Remote(Some(err)) => CallError::Remote(
                Some(Box::new(CallError::from_oneshot(*err))),
            ),
            oneshot::RecvError::Remote(None) => CallError::Remote(None),
        }
    }
}

impl From<oneshot::RecvError> for CallError {
    fn from(err: oneshot::RecvError) -> (r: Self) {
        CallError::from_oneshot(err)
    }
}

impl vstd::std_specs::convert::FromSpecImpl<oneshot::RecvError> for CallError {
    open spec fn obeys_from_spec() -> bool {
        true
    }

    open spec fn from_spec(err: oneshot::RecvError) -> CallError {
        CallError::of_oneshot(err)
    }
}

/// The caller of a remote function learns what happened to the result: a provider that is gone
/// is told from a failure of the connection, and a failure that another endpoint reported keeps
/// its meaning.
pub proof fn law_meaning_of_a_failed_result(
    err: oneshot::RecvError,
    converted: CallError,
    r: CallError,
)
    requires
        call_ensures(<CallError as From<oneshot::RecvError>>::from, (err,), converted),
        call_ensures(CallError::from_oneshot, (err,), r),
    ensures
        converted == r,
        r is Dropped <==> err is Closed,
        err matches oneshot::RecvError::Receive(inner) ==> r == CallError::Receive(inner),
        err matches oneshot::RecvError::Connect(inner) ==> r == CallError::Connect(inner),
        err matches oneshot::RecvError::Listen(inner) ==> r == CallError::Listen(inner),
        err == oneshot::RecvError::Remote(None) ==> r == CallError::Remote(None),
        err matches oneshot::RecvError::Remote(Some(inner)) ==> forall|meaning: CallError|
            #[trigger]
            call_ensures(CallError::from_oneshot, (*inner,), meaning) ==> r == CallError::Remote(
                Some(Box::new(meaning)),
            ),
{
}

} // verus!
