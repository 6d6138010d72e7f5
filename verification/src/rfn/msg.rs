//! Messages exchanged between remote functions and their providers.

use vstd::prelude::*;
use crate::rch::oneshot;
use crate::tracing::TracingContext;

verus! {

/// Request to call a remote function.
pub struct RFnRequest<A> {
    /// Argument of the function.
    pub argument: A,
    /// Channel over which the result is sent.
    pub result_tx: oneshot::Sender,
    /// Tracing context of the caller.
    pub tracing: Option<TracingContext>,
}

} // verus!
