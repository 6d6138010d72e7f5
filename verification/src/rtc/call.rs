//! Calling a method of a remotable trait.

use vstd::prelude::*;
use crate::chmux;
use crate::rch::{base, mpsc, oneshot, SendingErrorKind};
use crate::rtc::ServeError;
use crate::text::concat;

verus! {

/// Calling a method of a remotable trait failed.
pub enum CallError {
    /// The object is not being served; the request was never accepted.
    NotServed,
    /// Processing the request failed; it was accepted but no response arrived.
    Dropped,
    /// Encoding or transferring the request failed.
    Send(base::SendErrorKind),
    /// Receiving or decoding the response failed.
    Receive(base::RecvError),
    /// Opening a channel carried by the request or the response failed.
    Connect(chmux::ConnectError),
    /// Preparing a channel carried by the request or the response failed.
    Listen(chmux::ListenerError),
    /// An endpoint forwarding the call or the response could not complete the transfer.
    Forward,
    /// An endpoint forwarding the call or the response reported a failure.
    ///
    /// The failure is missing when that endpoint reported one that is unknown here.
    Remote(Option<Box<CallError>>),
}

impl CallError {
    /// The message shown to users.
    pub open spec fn text(self) -> Seq<char>
        decreases self,
    {
        match self {
            CallError::NotServed => "the remote object is no longer served"@,
            CallError::Dropped => "processing request failed"@,
            CallError::Send(err) => "send error: "@ + err.text(),
            CallError::Receive(err) => "receive error: "@ + err.text(),
            CallError::Connect(err) => "connect error: "@ + err.text(),
            CallError::Listen(err) => "listen error: "@ + err.text(),
            CallError::Forward => "forwarding error"@,
            CallError::Remote(Some(err)) => "remote "@ + err.text(),
            CallError::Remote(None) => "unknown remote error"@,
        }
    }

    /// Returns the message shown to users.
    pub fn message(&self) -> (r: String)
        ensures
            r@ == self.text(),
        decreases self,
    {
        match self {
            CallError::NotServed => String::from_str("the remote object is no longer served"),
            CallError::Dropped => String::from_str("processing request failed"),
            CallError::Send(err) => concat("send error: ", err.message().as_str()),
            CallError::Receive(err) => concat("receive error: ", err.message().as_str()),
            CallError::Connect(err) => concat("connect error: ", err.message().as_str()),
            CallError::Listen(err) => concat("listen error: ", err.message().as_str()),
            CallError::Forward => String::from_str("forwarding error"),
            CallError::Remote(Some(err)) => concat("remote ", err.message().as_str()),
            CallError::Remote(None) => String::from_str("unknown remote error"),
        }
    }

    /// The error that a failure to send the request means.
    pub open spec fn of_mpsc<T>(err: mpsc::SendError<T>) -> CallError {
        match err {
            mpsc::SendError::Closed(_) => CallError::NotServed,
            mpsc::SendError::Send(err) => if err.spec_is_closed() {
                CallError::NotServed
            } else {
                CallError::Send(err)
            },
            mpsc::SendError::Connect(err) => CallError::Connect(err),
            mpsc::SendError::Listen(err) => CallError::Listen(err),
            mpsc::SendError::Forward => CallError::Forward,
        }
    }

    /// The error that a failure to receive the response means.
    pub open spec fn of_oneshot(err: oneshot::RecvError) -> CallError
        decreases err,
    {
        match err {
            oneshot::RecvError::Closed => CallError::Dropped,
            oneshot::RecvError::Receive(err) => if err == base::RecvError::Receive(
                chmux::RecvError::Rejected { no_ports: false },
            ) {
                CallError::NotServed
            } else {
                CallError::Receive(err)
            },
            oneshot::RecvError::Connect(err) => if err is Rejected {
                CallError::NotServed
            } else {
                CallError::Connect(err)
            },
            oneshot::RecvError::Listen(err) => CallError::Listen(err),
            oneshot::RecvError::Remote(Some(err)) => CallError::Remote(
                Some(Box::new(CallError::of_oneshot(*err))),
            ),
            oneshot::RecvError::Remote(None) => CallError::Remote(None),
        }
    }

    /// Returns the error that a failure to receive the response means.
    pub fn from_oneshot(err: oneshot::RecvError) -> (r: Self)
        ensures
            r == CallError::of_oneshot(err),
        decreases err,
    {
        match err {
            oneshot::RecvError::Closed => CallError::Dropped,
            oneshot::RecvError::Receive(err) => {
                let rejected: bool = match &err {
                    base::RecvError::Receive(chmux::RecvError::Rejected { no_ports }) => !*no_ports,
                    _ => false,
                };
                if rejected {
                    CallError::NotServed
                } else {
                    CallError::Receive(err)
                }
            },
            oneshot::RecvError::Connect(err) => match err {
                chmux::ConnectError::Rejected => CallError::NotServed,
                _ => CallError::Connect(err),
            },
            oneshot::RecvError::Listen(err) => CallError::Listen(err),
            oneshot::RecvError::Remote(Some(err)) => CallError::Remote(
                Some(Box::new(CallError::from_oneshot(*err))),
            ),
            oneshot::RecvError::Remote(None) => CallError::Remote(None),
        }
    }

    /// The error that the failure of a server that forwards requests means.
    pub open spec fn of_serve(err: ServeError) -> CallError {
        match err {
            ServeError::ReqReceive(err) => match err {
                mpsc::RecvError::Receive(err) => CallError::Receive(err),
                mpsc::RecvError::Connect(err) => CallError::Connect(err),
                mpsc::RecvError::Listen(err) => CallError::Listen(err),
                mpsc::RecvError::Remote(_) => CallError::Forward,
            },
            ServeError::ResponseSend(SendingErrorKind::Send(err)) => CallError::Send(err),
            ServeError::ResponseSend(SendingErrorKind::Dropped) => CallError::Dropped,
            ServeError::Forward(err) => CallError::of_mpsc(err),
            ServeError::Monitor(_) | ServeError::CallFailed { .. } => CallError::Forward,
        }
    }
}

impl<T> From<mpsc::SendError<T>> for CallError {
    fn from(err: mpsc::SendError<T>) -> (r: Self) {
        match err {
            mpsc::SendError::Closed(_) => CallError::NotServed,
            mpsc::SendError::Send(err) => {
                if err.is_closed() {
                    CallError::NotServed
                } else {
                    CallError::Send(err)
                }
            },
            mpsc::SendError::Connect(err) => CallError::Connect(err),
            mpsc::SendError::Listen(err) => CallError::Listen(err),
            mpsc::SendError::Forward => CallError::Forward,
        }
    }
}

impl<T> vstd::std_specs::convert::FromSpecImpl<mpsc::SendError<T>> for CallError {
    open spec fn obeys_from_spec() -> bool {
        true
    }

    open spec fn from_spec(err: mpsc::SendError<T>) -> CallError {
        CallError::of_mpsc(err)
    }
}

impl From<oneshot::RecvError> for CallError {
    fn from(err: oneshot::RecvError) -> (r: Self) {
        CallError::from_oneshot(err)
    }
}

impl vstd::std_specs::convert::FromSpecImpl<oneshot::RecvError> for CallError {
    open spec fn obeys_from_spec() -> bool {
        true
    }

    open spec fn from_spec(err: oneshot::RecvError) -> CallError {
        CallError::of_oneshot(err)
    }
}

impl From<ServeError> for CallError {
    fn from(err: ServeError) -> (r: Self) {
        match err {
            ServeError::ReqReceive(err) => match err {
                mpsc::RecvError::Receive(err) => CallError::Receive(err),
                mpsc::RecvError::Connect(err) => CallError::Connect(err),
                mpsc::RecvError::Listen(err) => CallError::Listen(err),
                mpsc::RecvError::Remote(_) => CallError::Forward,
            },
            ServeError::ResponseSend(SendingErrorKind::Send(err)) => CallError::Send(err),
            ServeError::ResponseSend(SendingErrorKind::Dropped) => CallError::Dropped,
            ServeError::Forward(err) => CallError::from(err),
            ServeError::Monitor(_) => CallError::Forward,
            ServeError::CallFailed { .. } => CallError::Forward,
        }
    }
}

impl vstd::std_specs::convert::FromSpecImpl<ServeError> for CallError {
    open spec fn obeys_from_spec() -> bool {
        true
    }

    open spec fn from_spec(err: ServeError) -> CallError {
        CallError::of_serve(err)
    }
}

/// Where the result of a call comes from.
pub enum CallInner<R> {
    /// It is available, because the object was called locally, until it is taken.
    Ready(Option<R>),
    /// It is awaited from the server.
    Pending,
}

/// A method call that has been started.
pub struct Call<R> {
    /// Name of the method.
    pub method: &'static str,
    /// Where the result comes from.
    pub inner: CallInner<R>,
}

impl<R> Call<R> {
    /// A call that has been performed already.
    pub fn ready(method: &'static str, result: R) -> (r: Self)
        ensures
            r.method == method,
            r.inner == CallInner::Ready(Some(result)),
    {
        Call { method, inner: CallInner::Ready(Some(result)) }
    }

    /// A call whose result is awaited.
    pub fn pending(method: &'static str) -> (r: Self)
        ensures
            r.method == method,
            r.inner == CallInner::<R>::Pending,
    {
        Call { method, inner: CallInner::Pending }
    }

    /// Whether the result has not been taken.
    pub open spec fn is_open(self) -> bool {
        self.inner matches CallInner::Ready(result) ==> result is Some
    }

    /// Takes the result, given what has arrived from the server; `None` means that it is
    /// awaited.
    ///
    /// A result that is available can be taken once only.
    pub fn poll(&mut self, arrived: Option<R>) -> (r: Option<R>)
        requires
            old(self).is_open(),
        ensures
            r == (match old(self).inner {
                CallInner::Ready(result) => result,
                CallInner::Pending => arrived,
            }),
            final(self).method == old(self).method,
            final(self).inner == (match old(self).inner {
                CallInner::Ready(_) => CallInner::<R>::Ready(None),
                CallInner::Pending => CallInner::Pending,
            }),
    {
        let mut taken = CallInner::Ready(None);
        core::mem::swap(&mut self.inner, &mut taken);
        match taken {
            CallInner::Ready(result) => result,
            CallInner::Pending => {
                self.inner = CallInner::Pending;
                arrived
            },
        }
    }
}

impl<T, E> Call<Result<T, E>> {
    /// Applies `op` to the error of the call, leaving its value untouched.
    ///
    /// If the result is awaited, `op` is handed back for [`map_result`].
    pub fn map_err<F, Op: FnOnce(E) -> F>(self, op: Op) -> (r: (Call<Result<T, F>>, Option<Op>))
        requires
            forall|err: E| #[trigger] op.requires((err,)),
        ensures
            r.0.method == self.method,
            match self.inner {
                CallInner::Ready(Some(result)) => {
                    &&& r.1 is None
                    &&& r.0.inner matches CallInner::Ready(Some(mapped))
                    &&& error_mapped(op, result, mapped)
                },
                CallInner::Ready(None) => r.0.inner == CallInner::<Result<T, F>>::Ready(None),
                CallInner::Pending => r.0.inner == CallInner::<Result<T, F>>::Pending && r.1
                    == Some(op),
            },
    {
        match self.inner {
            CallInner::Ready(Some(result)) => {
                let mapped = map_result(result, op);
                (Call { method: self.method, inner: CallInner::Ready(Some(mapped)) }, None)
            },
            CallInner::Ready(None) => {
                (Call { method: self.method, inner: CallInner::Ready(None) }, None)
            },
            CallInner::Pending => {
                (Call { method: self.method, inner: CallInner::Pending }, Some(op))
            },
        }
    }
}

/// Whether a result is another one with its error mapped.
pub open spec fn error_mapped<T, E, F, Op: FnOnce(E) -> F>(
    op: Op,
    result: Result<T, E>,
    mapped: Result<T, F>,
) -> bool {
    match result {
        Ok(value) => mapped == Ok::<T, F>(value),
        Err(err) => mapped matches Err(new) && op.ensures((err,), new),
    }
}

/// Applies `op` to the error of a result.
pub fn map_result<T, E, F, Op: FnOnce(E) -> F>(result: Result<T, E>, op: Op) -> (r: Result<T, F>)
    requires
        forall|err: E| #[trigger] op.requires((err,)),
    ensures
        error_mapped(op, result, r),
{
    match result {
        Ok(value) => Ok(value),
        Err(err) => Err(op(err)),
    }
}

/// The result of a series of calls: that of the first one that failed, or else that of the
/// last one.
pub open spec fn series_result<T, E>(results: Seq<Result<T, E>>) -> Result<T, E>
    decreases results.len(),
{
    if results.len() <= 1 || results[0] is Err {
        results[0]
    } else {
        series_result(results.drop_first())
    }
}

/// Returns the result of a series of calls, given those of the calls in the order in which
/// they were started.
///
/// The value of the last call is returned, and the values of the others are discarded. A
/// call that failed ends the series.
pub fn calls<T, E>(results: Vec<Result<T, E>>) -> (r: Result<T, E>)
    requires
        results@.len() > 0,
    ensures
        r == series_result(results@),
{
    let ghost all = results@;
    let mut rest: Vec<Result<T, E>> = results;
    while rest.len() > 1
        invariant
            rest@.len() > 0,
            all == results@,
            series_result(rest@) == series_result(all),
        decreases rest@.len(),
    {
        let ghost before = rest@;
        let first = rest.remove(0);
        assert(rest@ =~= before.drop_first());
        if first.is_err() {
            return first;
        }
    }
    rest.remove(0)
}

/// A series of calls succeeds exactly if all of them do, with the value of the last one.
pub proof fn law_series<T, E>(results: Seq<Result<T, E>>)
    requires
        results.len() > 0,
    ensures
        series_result(results) is Ok <==> forall|i: int|
            0 <= i < results.len() ==> #[trigger] results[i] is Ok,
        series_result(results) is Ok ==> series_result(results) == results.last(),
    decreases results.len(),
{
    if results.len() > 1 && results[0] is Ok {
        let rest = results.drop_first();
        law_series(rest);
        assert(rest.last() == results.last());
        if series_result(rest) is Ok {
            assert forall|i: int| 0 <= i < results.len() implies #[trigger] results[i] is Ok by {
                if i > 0 {
                    assert(rest[i - 1] is Ok);
                }
            }
        } else if forall|i: int| 0 <= i < results.len() ==> #[trigger] results[i] is Ok {
            assert forall|i: int| 0 <= i < rest.len() implies #[trigger] rest[i] is Ok by {
                assert(results[i + 1] is Ok);
            }
        }
    } else if results[0] is Err {
        assert(!(results[0] is Ok));
    }
}

/// A request that reaches no server is reported as such, whether this is noticed when the
/// request is sent or when the response is awaited.
pub proof fn law_unserved_calls<T>(item: T)
    ensures
        CallError::of_mpsc(mpsc::SendError::Closed(item)) is NotServed,
        CallError::of_mpsc::<T>(
            mpsc::SendError::Send(
                base::SendErrorKind::Send(chmux::SendError::Closed { gracefully: true }),
            ),
        ) is NotServed,
        CallError::of_oneshot(
            oneshot::RecvError::Receive(
                base::RecvError::Receive(chmux::RecvError::Rejected { no_ports: false }),
            ),
        ) is NotServed,
        CallError::of_oneshot(oneshot::RecvError::Connect(chmux::ConnectError::Rejected))
            is NotServed,
{
}

/// A call whose request was refused by the server, or whose response channel it refused, is
/// one to an object that is not served; a request that was accepted and not answered was
/// dropped. Any other failure is passed on as it is.
pub proof fn law_meaning_of_a_failed_response(
    err: oneshot::RecvError,
    converted: CallError,
    r: CallError,
)
    requires
        call_ensures(<CallError as From<oneshot::RecvError>>::from, (err,), converted),
        call_ensures(CallError::from_oneshot, (err,), r),
    ensures
        err is Closed ==> r is Dropped,
        r is Dropped ==> err is Closed,
        r is NotServed <==> (err == oneshot::RecvError::Connect(chmux::ConnectError::Rejected)
            || err == oneshot::RecvError::Receive(
            base::RecvError::Receive(chmux::RecvError::Rejected { no_ports: false }),
        )),
        err matches oneshot::RecvError::Receive(inner) ==> r is NotServed || r
            == CallError::Receive(inner),
        err matches oneshot::RecvError::Connect(inner) ==> r is NotServed || r
            == CallError::Connect(inner),
        err matches oneshot::RecvError::Listen(inner) ==> r == CallError::Listen(inner),
        err == oneshot::RecvError::Remote(None) ==> r == CallError::Remote(None),
        err matches oneshot::RecvError::Remote(Some(inner)) ==> forall|meaning: CallError|
            #[trigger]
            call_ensures(CallError::from_oneshot, (*inner,), meaning) ==> r == CallError::Remote(
                Some(Box::new(meaning)),
            ),
        converted == r,
{
}

/// A request that could not be sent because the receiver is closed, or was closed by the
/// remote endpoint, is one to an object that is not served. Any other failure is passed on as
/// it is.
pub proof fn law_meaning_of_a_failed_request<T>(err: mpsc::SendError<T>, r: CallError)
    requires
        call_ensures(<CallError as From<mpsc::SendError<T>>>::from, (err,), r),
    ensures
        r is NotServed <==> (err is Closed || err == mpsc::SendError::<T>::Send(
            base::SendErrorKind::Send(chmux::SendError::Closed { gracefully: true }),
        )),
        err matches mpsc::SendError::Send(inner) ==> r is NotServed || r == CallError::Send(inner),
        err matches mpsc::SendError::Connect(inner) ==> r == CallError::Connect(inner),
        err matches mpsc::SendError::Listen(inner) ==> r == CallError::Listen(inner),
        err is Forward ==> r is Forward,
{
}

/// A client behind a server that forwards its requests is told why forwarding failed; a
/// failure that the server found by itself is a failure to forward.
pub proof fn law_meaning_of_a_failed_server(err: ServeError, meaning: CallError, r: CallError)
    requires
        err matches ServeError::Forward(inner) ==> call_ensures(
            <CallError as From<mpsc::SendError<()>>>::from,
            (inner,),
            meaning,
        ),
        call_ensures(<CallError as From<ServeError>>::from, (err,), r),
    ensures
        err is Forward ==> r == meaning,
        err matches ServeError::ReqReceive(mpsc::RecvError::Receive(inner)) ==> r
            == CallError::Receive(inner),
        err matches ServeError::ReqReceive(mpsc::RecvError::Connect(inner)) ==> r
            == CallError::Connect(inner),
        err matches ServeError::ReqReceive(mpsc::RecvError::Listen(inner)) ==> r
            == CallError::Listen(inner),
        err matches ServeError::ReqReceive(mpsc::RecvError::Remote(_)) ==> r is Forward,
        err matches ServeError::ResponseSend(SendingErrorKind::Send(inner)) ==> r
            == CallError::Send(inner),
        err matches ServeError::ResponseSend(SendingErrorKind::Dropped) ==> r is Dropped,
        err is Monitor || err is CallFailed ==> r is Forward,
{
}

/// The result of a call that was performed locally is given out at once, without regard to
/// what arrives, and the call can then not be polled again. A call whose result is awaited
/// gives out exactly what arrives.
pub proof fn law_result_of_a_call<R>(
    before: Call<R>,
    arrived: Option<R>,
    after: Call<R>,
    r: Option<R>,
)
    requires
        before.inner != CallInner::<R>::Ready(None),
        exists|state: &mut Call<R>| #[trigger]
            call_ensures(Call::<R>::poll, (state, arrived), r) && *state == before
                && *final(state) == after,
    ensures
        before.inner matches CallInner::Ready(Some(result)) ==> r == Some(result)
            && after.inner == CallInner::<R>::Ready(None),
        before.inner is Pending ==> r == arrived && after == before,
        after.method == before.method,
{
}

/// A call that is performed locally is answered by its result when it is first polled, and
/// one whose result is awaited is not answered before a result arrives.
pub proof fn law_new_calls<R>(
    method: &'static str,
    result: R,
    ready: Call<R>,
    pending: Call<R>,
    after: Call<R>,
    r: Option<R>,
)
    requires
        call_ensures(Call::<R>::ready, (method, result), ready),
        call_ensures(Call::<R>::pending, (method,), pending),
        exists|state: &mut Call<R>| #[trigger]
            call_ensures(Call::<R>::poll, (state, None::<R>), r) && *final(state) == after && (
            *state == ready || *state == pending),
    ensures
        ready.method == method,
        pending.method == method,
        ready != pending,
        r is None || r == Some(result),
        r is None ==> after == pending,
        r is Some ==> after != ready,
        ready.inner == CallInner::Ready(Some(result)),
        pending.inner is Pending,
{
}

/// Mapping the error of a call that succeeded changes nothing, and mapping that of one that
/// failed gives a call that failed with what the function makes of the error. Where the result
/// is awaited the function is kept for it.
pub proof fn law_mapped_error<T, E, F, Op: FnOnce(E) -> F>(
    call: Call<Result<T, E>>,
    op: Op,
    r: (Call<Result<T, F>>, Option<Op>),
)
    requires
        call_ensures(Call::<Result<T, E>>::map_err::<F, Op>, (call, op), r),
    ensures
        r.0.method == call.method,
        call.inner matches CallInner::Ready(Some(Ok(value))) ==> r.0.inner == CallInner::Ready(
            Some(Ok::<T, F>(value)),
        ),
        call.inner matches CallInner::Ready(Some(Err(err))) ==> (r.0.inner matches CallInner::Ready(
            Some(Err(mapped)),
        ) && call_ensures(op, (err,), mapped)),
        call.inner == CallInner::<Result<T, E>>::Ready(None) ==> r.0.inner == CallInner::<
            Result<T, F>,
        >::Ready(None),
        call.inner is Pending ==> r.0.inner is Pending && r.1 == Some(op),
        call.inner matches CallInner::Ready(Some(_)) ==> r.1 is None,
{
}

/// What arrives for a call is mapped as the result of one that was performed locally is.
pub proof fn law_mapped_result<T, E, F, Op: FnOnce(E) -> F>(
    result: Result<T, E>,
    op: Op,
    r: Result<T, F>,
)
    requires
        call_ensures(map_result::<T, E, F, Op>, (result, op), r),
    ensures
        result matches Ok(value) ==> r == Ok::<T, F>(value),
        result matches Err(err) ==> (r matches Err(mapped) && call_ensures(op, (err,), mapped)),
{
}

/// A series of calls gives the result of the first call that failed, and if none did that of
/// the last one.
pub proof fn law_result_of_a_series<T, E>(results: Vec<Result<T, E>>, r: Result<T, E>)
    requires
        results@.len() > 0,
        call_ensures(calls::<T, E>, (results,), r),
    ensures
        r is Ok ==> r == results@.last() && forall|i: int|
            0 <= i < results@.len() ==> #[trigger] results@[i] is Ok,
        r is Err ==> exists|i: int|
            {
                &&& 0 <= i < results@.len()
                &&& #[trigger] results@[i] == r
                &&& forall|j: int| 0 <= j < i ==> #[trigger] results@[j] is Ok
            },
{
    law_series(results@);
    if r is Err {
        let i = lemma_first_failure(results@);
        assert(results@[i] == r);
    }
}

/// Returns the index of the call that ended a series that failed.
proof fn lemma_first_failure<T, E>(results: Seq<Result<T, E>>) -> (i: int)
    requires
        results.len() > 0,
        series_result(results) is Err,
    ensures
        0 <= i < results.len(),
        results[i] == series_result(results),
        forall|j: int| 0 <= j < i ==> #[trigger] results[j] is Ok,
    decreases results.len(),
{
    if results.len() <= 1 || results[0] is Err {
        0
    } else {
        let rest = results.drop_first();
        let i = lemma_first_failure(rest);
        assert forall|j: int| 0 <= j < i + 1 implies #[trigger] results[j] is Ok by {
            if j > 0 {
                assert(rest[j - 1] is Ok);
            }
        }
        i + 1
    }
}

} // verus!
