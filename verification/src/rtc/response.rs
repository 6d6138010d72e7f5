//! Sending the response to a remote method call.

use vstd::prelude::*;
use crate::rch::mpsc::queue::QueueSender;
use crate::rch::mpsc::sender::Queued;
use crate::rch::{base, mpsc, oneshot, SendingErrorKind};
use crate::rtc::{CallError, Client, ServeError};
use crate::versioned::compact::CompactVersioner;
use crate::versioned::Versioned;

verus! {

/// The return type of a method, which is a result.
pub trait Response: Sized {
    /// The return type without the value.
    type WithoutValue;

    /// Whether the method returned an error.
    spec fn failed(&self) -> bool;

    /// Returns whether the method returned an error.
    fn is_error(&self) -> (r: bool)
        ensures
            r == self.failed(),
    ;

    /// Returns the return value that stands for a failure of the call itself.
    fn from_call_error(err: CallError) -> (r: Self)
        ensures
            r.failed(),
    ;

    /// Returns the return value of a method that succeeded, without its value.
    fn without_value() -> Self::WithoutValue;
}

impl<T, E: From<CallError>> Response for Result<T, E> {
    type WithoutValue = Result<(), E>;

    open spec fn failed(&self) -> bool {
        self is Err
    }

    fn is_error(&self) -> (r: bool) {
        self.is_err()
    }

    fn from_call_error(err: CallError) -> (r: Self)
        ensures
            r matches Err(converted) && call_ensures(E::from, (err,), converted),
    {
        Err(E::from(err))
    }

    fn without_value() -> (r: Result<(), E>)
        ensures
            r is Ok,
    {
        Ok(())
    }
}

/// The return type of a method that can hand over a receiver of requests.
pub trait PipelinableResponse: Response {
    /// The client that the method returns.
    type Client;

    /// The receiver of the requests of the client.
    type ReqReceiver;

    /// Splits into the returned client, or the error as the return type without the value.
    fn split(self) -> (r: Result<Self::Client, Self::WithoutValue>)
        ensures
            r is Err <==> self.failed(),
    ;
}

impl<T: Client, E: From<CallError>> PipelinableResponse for Result<T, E> {
    type Client = T;

    type ReqReceiver = T::ReqReceiver;

    fn split(self) -> (r: Result<T, Result<(), E>>)
        ensures
            r == (match self {
                Ok(client) => Ok::<T, Result<(), E>>(client),
                Err(err) => Err(Err(err)),
            }),
    {
        match self {
            Ok(client) => Ok(client),
            Err(err) => Err(Err(err)),
        }
    }
}

/// Converts a return value into that without the value, discarding the client.
pub fn into_without_value<R: PipelinableResponse>(response: R) -> (r: R::WithoutValue)
    ensures
        response.failed() ==> call_ensures(R::split, (response,), Err(r)),
        !response.failed() ==> call_ensures(R::without_value, (), r),
{
    match response.split() {
        Ok(_) => R::without_value(),
        Err(without_value) => without_value,
    }
}

/// What became of a response that was handed over for sending.
#[derive(Debug, PartialEq, Eq)]
pub enum Sending<R> {
    /// It goes into the queue and is transmitted.
    Queued(R),
    /// It was dropped.
    Dropped,
}

/// What becomes of a response, given the result of sending it.
pub open spec fn sending<R>(sent: Result<R, oneshot::SendError<R>>) -> Sending<R> {
    match sent {
        Ok(response) => Sending::Queued(response),
        Err(_) => Sending::Dropped,
    }
}

/// Sends the response to a remote method call.
pub struct ResponseSender {
    /// The channel that carries the response.
    pub tx: oneshot::Sender,
}

/// Creates a channel for responding to a remote method call.
pub fn response_channel(max_item_size: usize) -> (r: (ResponseSender, oneshot::Receiver))
    ensures
        r.0.tx.tx.queue == Some(1usize),
        r.0.tx.tx.closed is None,
        r.0.tx.tx.remote_send_err is None,
        r.0.tx.tx.max_item_size == max_item_size,
        r.1.rx.has_queue,
        !r.1.rx.closed,
{
    let (mut tx, rx) = oneshot::channel();
    tx.set_max_item_size(max_item_size);
    (ResponseSender { tx }, rx)
}

impl ResponseSender {
    /// The response to put into the queue, given its answer, or why it is not sent.
    pub open spec fn send_result<R>(self, response: R, queued: Queued) -> Result<
        R,
        oneshot::SendError<R>,
    > {
        self.tx.send_result(response, queued)
    }

    /// Sends the response, given the answer of the queue.
    ///
    /// Returns the response to put into the queue.
    pub fn send<R>(self, response: R, queued: Queued) -> (r: Result<R, oneshot::SendError<R>>)
        ensures
            r == self.send_result(response, queued),
    {
        self.tx.send(response, queued)
    }

    /// Returns whether the caller is no longer interested in the response.
    pub fn is_closed(&self) -> (r: bool)
        ensures
            r == (self.tx.tx.closed is Some || self.tx.tx.remote_send_err is Some),
    {
        self.tx.is_closed()
    }

    /// Returns the maximum size of the response.
    pub fn max_item_size(&self) -> (r: usize)
        ensures
            r == self.tx.tx.max_item_size,
    {
        self.tx.max_item_size()
    }
}

/// Responds to a remote call.
pub struct Responder {
    /// The channel over which the response is sent.
    pub tx: ResponseSender,
    /// Whether the call is to be processed before further requests are received.
    pub sequential: bool,
    /// Whether the server is to stop when the call fails.
    pub stop_on_error: bool,
}

impl From<ResponseSender> for Responder {
    fn from(tx: ResponseSender) -> (r: Self) {
        Responder { tx, sequential: false, stop_on_error: false }
    }
}

impl vstd::std_specs::convert::FromSpecImpl<ResponseSender> for Responder {
    open spec fn obeys_from_spec() -> bool {
        true
    }

    open spec fn from_spec(tx: ResponseSender) -> Responder {
        Responder { tx, sequential: false, stop_on_error: false }
    }
}

impl From<Responder> for ResponseSender {
    fn from(responder: Responder) -> (r: Self) {
        responder.tx
    }
}

impl vstd::std_specs::convert::FromSpecImpl<Responder> for ResponseSender {
    open spec fn obeys_from_spec() -> bool {
        true
    }

    open spec fn from_spec(responder: Responder) -> ResponseSender {
        responder.tx
    }
}

impl Responder {
    /// Creates a responder with the given options.
    pub fn new(tx: ResponseSender, sequential: bool, stop_on_error: bool) -> (r: Self)
        ensures
            r == (Responder { tx, sequential, stop_on_error }),
    {
        Responder { tx, sequential, stop_on_error }
    }

    /// Returns whether the call is to be processed before further requests are received.
    pub fn sequential(&self) -> (r: bool)
        ensures
            r == self.sequential,
    {
        self.sequential
    }

    /// Returns whether the server is to stop when the call fails.
    pub fn stop_on_error(&self) -> (r: bool)
        ensures
            r == self.stop_on_error,
    {
        self.stop_on_error
    }

    /// Completes the call with the result of the method, given the answer of the queue.
    pub fn complete<R>(self, result: R, queued: Queued) -> (r: Sending<R>)
        ensures
            r == sending(self.tx.send_result(result, queued)),
    {
        match self.send(result, queued) {
            Ok(response) => Sending::Queued(response),
            Err(_) => Sending::Dropped,
        }
    }

    /// Sends the response, given the answer of the queue.
    ///
    /// Returns the response to put into the queue.
    pub fn send<R>(self, response: R, queued: Queued) -> (r: Result<R, oneshot::SendError<R>>)
        ensures
            r == self.tx.send_result(response, queued),
    {
        self.tx.send(response, queued)
    }

    /// Returns whether the caller is no longer interested in the response.
    pub fn is_closed(&self) -> (r: bool)
        ensures
            r == (self.tx.tx.tx.closed is Some || self.tx.tx.tx.remote_send_err is Some),
    {
        self.tx.is_closed()
    }

    /// Returns the maximum size of the response.
    pub fn max_item_size(&self) -> (r: usize)
        ensures
            r == self.tx.tx.tx.max_item_size,
    {
        self.tx.max_item_size()
    }

    /// Returns the underlying sender.
    pub fn into_sender(self) -> (r: ResponseSender)
        ensures
            r == self.tx,
    {
        self.tx
    }
}

/// What to do when a call completes.
pub struct Completion<R> {
    /// Whether the guard of the call is told that the call failed.
    pub notify_failed: bool,
    /// The error to report to the server once the response is on its way.
    pub report: Option<ServeError>,
    /// The response, which is transmitted so that its fate is awaited.
    pub sending: Sending<R>,
}

/// Completes a call by responding to the request, given the answer of the queue.
///
/// A method that returned an error is reported to the server if the caller asked for it,
/// after the error has been sent to the caller.
pub fn complete_call<R: Response>(
    responder: Responder,
    method: &'static str,
    result: R,
    queued: Queued,
) -> (r: Completion<R>)
    ensures
        r.notify_failed == result.failed(),
        r.report == (if result.failed() && responder.stop_on_error {
            Some(ServeError::CallFailed { method })
        } else {
            None
        }),
        r.sending == sending(responder.tx.send_result(result, queued)),
{
    let failed: bool = result.is_error();
    let report = if failed && responder.stop_on_error() {
        Some(ServeError::CallFailed { method })
    } else {
        None
    };
    Completion { notify_failed: failed, report, sending: responder.complete(result, queued) }
}

/// Completes a call by responding to the request over a local queue.
///
/// `result_tx` is the number of the handle that awaits the result of sending.
pub fn complete_call_queued<R: Response>(
    tx: QueueSender<R>,
    stop_on_error: bool,
    method: &'static str,
    result: R,
    result_tx: Option<u64>,
) -> (r: Completion<()>)
    ensures
        r.notify_failed == result.failed(),
        r.report == (if result.failed() && stop_on_error {
            Some(ServeError::CallFailed { method })
        } else {
            None
        }),
        r.sending is Queued ==> tx.may_return(result, result_tx, Ok(())),
        r.sending is Dropped ==> exists|err: mpsc::TrySendError<R>| #[trigger]
            tx.may_return(result, result_tx, Err(err)),
{
    let failed: bool = result.is_error();
    let report = if failed && stop_on_error {
        Some(ServeError::CallFailed { method })
    } else {
        None
    };
    let sending = match oneshot::send_queued(tx, result, result_tx) {
        Ok(()) => Sending::Queued(()),
        Err(_) => Sending::Dropped,
    };
    Completion { notify_failed: failed, report, sending }
}

/// Returns the error to report to the server after a response was transmitted.
///
/// That the caller is gone or the connection failed is not an error of the server.
pub fn on_response_sent(result: Result<(), SendingErrorKind>) -> (r: Option<ServeError>)
    ensures
        r == (match result {
            Ok(_) => None,
            Err(SendingErrorKind::Send(base::SendErrorKind::Send(_))) => None,
            Err(SendingErrorKind::Dropped) => None,
            Err(kind) => Some(ServeError::ResponseSend(kind)),
        }),
        r is Some <==> (result matches Err(SendingErrorKind::Send(kind))
            && kind.spec_is_item_specific()),
{
    match result {
        Ok(_) => None,
        Err(kind) => {
            let ignored: bool = match &kind {
                SendingErrorKind::Send(base::SendErrorKind::Send(_)) => true,
                SendingErrorKind::Send(_) => false,
                SendingErrorKind::Dropped => true,
            };
            if ignored {
                None
            } else {
                Some(ServeError::from(kind))
            }
        },
    }
}

/// Responds to a remote call that may hand over a receiver of requests.
pub enum PipelinableResponder<Rx> {
    /// Sends the result of the method to the caller.
    Normal(Responder),
    /// Lets the client returned by the method execute the requests of the receiver.
    Pipeline {
        /// The requests to execute.
        req_rx: Rx,
        /// Sends the result without the client.
        responder: Responder,
    },
}

/// What completing a call that may hand over a receiver of requests came to.
pub enum Completing<Rx, C, E> {
    /// The response of an ordinary call.
    Normal(Sending<Result<C, E>>),
    /// The response of a pipelined call, and the requests to forward to the client that was
    /// returned.
    Pipeline(Sending<Result<(), E>>, Option<(Rx, C)>),
}

impl<Rx> PipelinableResponder<Rx> {
    /// The responder in either case.
    pub open spec fn inner(self) -> Responder {
        match self {
            PipelinableResponder::Normal(responder) => responder,
            PipelinableResponder::Pipeline { responder, .. } => responder,
        }
    }

    /// Returns whether the call is to be processed before further requests are received.
    pub fn sequential(&self) -> (r: bool)
        ensures
            r == self.inner().sequential,
    {
        match self {
            PipelinableResponder::Normal(responder) => responder.sequential(),
            PipelinableResponder::Pipeline { responder, .. } => responder.sequential(),
        }
    }

    /// Returns whether the server is to stop when the call fails.
    pub fn stop_on_error(&self) -> (r: bool)
        ensures
            r == self.inner().stop_on_error,
    {
        match self {
            PipelinableResponder::Normal(responder) => responder.stop_on_error(),
            PipelinableResponder::Pipeline { responder, .. } => responder.stop_on_error(),
        }
    }

    /// Returns whether the caller is no longer interested in the response.
    pub fn is_closed(&self) -> (r: bool)
        ensures
            r == (self.inner().tx.tx.tx.closed is Some || self.inner().tx.tx.tx.remote_send_err
                is Some),
    {
        match self {
            PipelinableResponder::Normal(responder) => responder.is_closed(),
            PipelinableResponder::Pipeline { responder, .. } => responder.is_closed(),
        }
    }

    /// Returns whether a receiver of requests was handed over.
    pub fn is_pipelined(&self) -> (r: bool)
        ensures
            r == (*self is Pipeline),
    {
        matches!(self, PipelinableResponder::Pipeline { .. })
    }

    /// Completes the call with the result of the method, given the answer of the queue.
    ///
    /// In a pipelined call the client executes the requests that were handed over while
    /// its response holds no value; an error is passed through.
    pub fn complete<C, E>(self, result: Result<C, E>, queued: Queued) -> (r: Completing<Rx, C, E>)
        ensures
            r == (match self {
                PipelinableResponder::Normal(responder) => Completing::<Rx, C, E>::Normal(
                    sending(responder.tx.send_result(result, queued)),
                ),
                PipelinableResponder::Pipeline { req_rx, responder } => match result {
                    Ok(client) => Completing::Pipeline(
                        sending(responder.tx.send_result(Ok(()), queued)),
                        Some((req_rx, client)),
                    ),
                    Err(err) => Completing::Pipeline(
                        sending(responder.tx.send_result(Err(err), queued)),
                        None,
                    ),
                },
            }),
    {
        match self {
            PipelinableResponder::Normal(responder) => Completing::Normal(
                responder.complete(result, queued),
            ),
            PipelinableResponder::Pipeline { req_rx, responder } => match result {
                Ok(client) => {
                    let without_value: Result<(), E> = Ok(());
                    Completing::Pipeline(
                        responder.complete(without_value, queued),
                        Some((req_rx, client)),
                    )
                },
                Err(err) => {
                    let without_value: Result<(), E> = Err(err);
                    Completing::Pipeline(responder.complete(without_value, queued), None)
                },
            },
        }
    }
}

/// The caller receives the response that was sent: what goes into the queue is the response
/// itself, and the receiver reports it when it comes out.
pub proof fn law_response_is_received<R>(
    tx: ResponseSender,
    rx: oneshot::Receiver,
    response: R,
    queued: Queued,
)
    ensures
        sending(tx.send_result(response, queued)) matches Sending::Queued(item) ==> {
            &&& item == response
            &&& rx.polled(Some(Ok(item))) == Some(Ok::<R, oneshot::RecvError>(response))
        },
{
}

/// A response over a new channel is sent whenever the queue takes it, and nothing but the
/// receiver closing it or a published failure makes the caller appear gone.
pub proof fn law_response_is_owed<R>(tx: ResponseSender, response: R)
    requires
        tx.tx.tx.queue is Some,
        tx.tx.tx.closed is None,
        tx.tx.tx.remote_send_err is None,
    ensures
        tx.send_result(response, Queued::Queued) == Ok::<R, oneshot::SendError<R>>(response),
        tx.send_result(response, Queued::Closed) == Err::<R, oneshot::SendError<R>>(
            oneshot::SendError::Closed(response),
        ),
        tx.tx.tx.spec_closed_reason() is None,
{
}

/// The response channel of a transported responder, for serialization.
pub enum SenderRef<'a> {
    /// It carries the whole return value.
    Full(&'a ResponseSender),
    /// It carries the return value without its value.
    WithoutValue(&'a ResponseSender),
}

/// The response channel of a transported responder, for deserialization.
pub enum TransportedSender {
    /// It carries the whole return value.
    Full(ResponseSender),
    /// It carries the return value without its value.
    WithoutValue(ResponseSender),
}

/// A transported responder, for serialization.
pub struct ResponderRef<'a, Rx> {
    /// The response channel.
    pub tx: SenderRef<'a>,
    /// The requests that were handed over.
    pub req_rx: Option<&'a Rx>,
    /// Whether the call is to be processed before further requests are received.
    pub sequential: bool,
    /// Whether the server is to stop when the call fails.
    pub stop_on_error: bool,
}

/// A transported responder, for deserialization.
pub struct TransportedResponder<Rx> {
    /// The response channel.
    pub tx: TransportedSender,
    /// The requests that were handed over.
    pub req_rx: Option<Rx>,
    /// Whether the call is to be processed before further requests are received.
    pub sequential: bool,
    /// Whether the server is to stop when the call fails.
    pub stop_on_error: bool,
}

/// Returns what stands for a receiver of requests that was not sent.
pub fn none<T>() -> (r: Option<T>)
    ensures
        r is None,
{
    None
}

/// Returns the message for options that an old endpoint does not understand.
pub fn unsupported() -> (r: String)
    ensures
        r@ == "the remote endpoint does not support the options of this method call"@,
{
    String::from_str("the remote endpoint does not support the options of this method call")
}

/// Returns the message for a transported responder that makes no sense.
pub fn unsupported_combination() -> (r: String)
    ensures
        r@ == "unsupported combination of response channel and request receiver"@,
{
    String::from_str("unsupported combination of response channel and request receiver")
}

impl Versioned for Responder {
    type Versioner = CompactVersioner;

    type CurrentRef<'a> = ResponderRef<'a, ()>;

    fn as_current<'a>(&'a self) -> (r: Result<ResponderRef<'a, ()>, String>)
        ensures
            r == Ok::<ResponderRef<'a, ()>, String>(
                ResponderRef {
                    tx: SenderRef::Full(&self.tx),
                    req_rx: None,
                    sequential: self.sequential,
                    stop_on_error: self.stop_on_error,
                },
            ),
    {
        Ok(
            ResponderRef {
                tx: SenderRef::Full(&self.tx),
                req_rx: None,
                sequential: self.sequential,
                stop_on_error: self.stop_on_error,
            },
        )
    }

    type Current = TransportedResponder<()>;

    fn from_current(current: TransportedResponder<()>) -> (r: Result<Self, String>)
        ensures
            match (current.tx, current.req_rx) {
                (TransportedSender::Full(tx), None) => r == Ok::<Responder, String>(
                    Responder {
                        tx,
                        sequential: current.sequential,
                        stop_on_error: current.stop_on_error,
                    },
                ),
                _ => r matches Err(msg) && msg@
                    == "unsupported combination of response channel and request receiver"@,
            },
    {
        match (current.tx, current.req_rx) {
            (TransportedSender::Full(tx), None) => Ok(
                Responder {
                    tx,
                    sequential: current.sequential,
                    stop_on_error: current.stop_on_error,
                },
            ),
            _ => Err(unsupported_combination()),
        }
    }

    type OldRef<'a> = &'a ResponseSender;

    fn as_old<'a>(&'a self) -> (r: Result<&'a ResponseSender, String>)
        ensures
            self.sequential || self.stop_on_error ==> (r matches Err(msg) && msg@
                == "the remote endpoint does not support the options of this method call"@),
            !self.sequential && !self.stop_on_error ==> r == Ok::<&'a ResponseSender, String>(
                &self.tx,
            ),
    {
        if self.sequential || self.stop_on_error {
            return Err(unsupported());
        }
        Ok(&self.tx)
    }

    type Old = ResponseSender;

    fn from_old(old_tx: ResponseSender) -> (r: Result<Self, String>)
        ensures
            r == Ok::<Responder, String>(
                Responder { tx: old_tx, sequential: false, stop_on_error: false },
            ),
    {
        Ok(Responder::from(old_tx))
    }
}

impl<Rx: 'static> Versioned for PipelinableResponder<Rx> {
    type Versioner = CompactVersioner;

    type CurrentRef<'a> = ResponderRef<'a, Rx>;

    fn as_current<'a>(&'a self) -> (r: Result<ResponderRef<'a, Rx>, String>)
        ensures
            r == Ok::<ResponderRef<'a, Rx>, String>(sent_as(self)),
    {
        match self {
            PipelinableResponder::Normal(responder) => Ok(
                ResponderRef {
                    tx: SenderRef::Full(&responder.tx),
                    req_rx: None,
                    sequential: responder.sequential,
                    stop_on_error: responder.stop_on_error,
                },
            ),
            PipelinableResponder::Pipeline { req_rx, responder } => Ok(
                ResponderRef {
                    tx: SenderRef::WithoutValue(&responder.tx),
                    req_rx: Some(req_rx),
                    sequential: responder.sequential,
                    stop_on_error: responder.stop_on_error,
                },
            ),
        }
    }

    type Current = TransportedResponder<Rx>;

    fn from_current(current: TransportedResponder<Rx>) -> (r: Result<Self, String>)
        ensures
            match responder_from(current) {
                Some(responder) => r == Ok::<PipelinableResponder<Rx>, String>(responder),
                None => r matches Err(msg) && msg@
                    == "unsupported combination of response channel and request receiver"@,
            },
    {
        let sequential: bool = current.sequential;
        let stop_on_error: bool = current.stop_on_error;
        match (current.tx, current.req_rx) {
            (TransportedSender::Full(tx), None) => Ok(
                PipelinableResponder::Normal(Responder { tx, sequential, stop_on_error }),
            ),
            (TransportedSender::WithoutValue(tx), Some(req_rx)) => Ok(
                PipelinableResponder::Pipeline {
                    req_rx,
                    responder: Responder { tx, sequential, stop_on_error },
                },
            ),
            _ => Err(unsupported_combination()),
        }
    }

    type OldRef<'a> = &'a ResponseSender;

    fn as_old<'a>(&'a self) -> (r: Result<&'a ResponseSender, String>)
        ensures
            match self {
                PipelinableResponder::Normal(responder) => if responder.sequential
                    || responder.stop_on_error {
                    r matches Err(msg) && msg@
                        == "the remote endpoint does not support the options of this method call"@
                } else {
                    r == Ok::<&'a ResponseSender, String>(&responder.tx)
                },
                PipelinableResponder::Pipeline { .. } => r matches Err(msg) && msg@
                    == "the remote endpoint does not support the options of this method call"@,
            },
    {
        match self {
            PipelinableResponder::Normal(responder) => responder.as_old(),
            PipelinableResponder::Pipeline { .. } => Err(unsupported()),
        }
    }

    type Old = ResponseSender;

    fn from_old(old_tx: ResponseSender) -> (r: Result<Self, String>)
        ensures
            r == Ok::<PipelinableResponder<Rx>, String>(
                PipelinableResponder::Normal(
                    Responder { tx: old_tx, sequential: false, stop_on_error: false },
                ),
            ),
    {
        Ok(PipelinableResponder::Normal(Responder::from(old_tx)))
    }
}

/// The responder that a transported one stands for, if it makes sense.
pub open spec fn responder_from<Rx>(current: TransportedResponder<Rx>) -> Option<
    PipelinableResponder<Rx>,
> {
    match (current.tx, current.req_rx) {
        (TransportedSender::Full(tx), None) => Some(
            PipelinableResponder::Normal(
                Responder {
                    tx,
                    sequential: current.sequential,
                    stop_on_error: current.stop_on_error,
                },
            ),
        ),
        (TransportedSender::WithoutValue(tx), Some(req_rx)) => Some(
            PipelinableResponder::Pipeline {
                req_rx,
                responder: Responder {
                    tx,
                    sequential: current.sequential,
                    stop_on_error: current.stop_on_error,
                },
            },
        ),
        _ => None,
    }
}

/// What arrives at the remote endpoint of what is serialized here.
pub open spec fn arrived<Rx>(sent: ResponderRef<'_, Rx>) -> TransportedResponder<Rx> {
    TransportedResponder {
        tx: match sent.tx {
            SenderRef::Full(tx) => TransportedSender::Full(*tx),
            SenderRef::WithoutValue(tx) => TransportedSender::WithoutValue(*tx),
        },
        req_rx: match sent.req_rx {
            Some(req_rx) => Some(*req_rx),
            None => None,
        },
        sequential: sent.sequential,
        stop_on_error: sent.stop_on_error,
    }
}

/// What is serialized of a responder for an endpoint that understands the current
/// representation.
pub open spec fn sent_as<'a, Rx>(responder: &'a PipelinableResponder<Rx>) -> ResponderRef<'a, Rx> {
    match responder {
        PipelinableResponder::Normal(responder) => ResponderRef {
            tx: SenderRef::Full(&responder.tx),
            req_rx: None,
            sequential: responder.sequential,
            stop_on_error: responder.stop_on_error,
        },
        PipelinableResponder::Pipeline { req_rx, responder } => ResponderRef {
            tx: SenderRef::WithoutValue(&responder.tx),
            req_rx: Some(req_rx),
            sequential: responder.sequential,
            stop_on_error: responder.stop_on_error,
        },
    }
}

/// A responder arrives unchanged at an endpoint that understands the current representation.
pub proof fn law_responder_round_trip<Rx>(responder: PipelinableResponder<Rx>)
    ensures
        responder_from(arrived(sent_as(&responder))) == Some(responder),
{
}

/// What is sent as a response is the result of the method and nothing else: it goes into the
/// queue if the caller still waits for it and is dropped otherwise.
pub proof fn law_response_reaches_the_queue<R>(
    responder: Responder,
    result: R,
    queued: Queued,
    sent: Result<R, oneshot::SendError<R>>,
    direct: (Result<R, oneshot::SendError<R>>, Result<R, oneshot::SendError<R>>),
    r: Sending<R>,
)
    requires
        call_ensures(Responder::send::<R>, (responder, result, queued), sent),
        call_ensures(ResponseSender::send::<R>, (responder.tx, result, queued), direct.0),
        call_ensures(oneshot::Sender::send::<R>, (responder.tx.tx, result, queued), direct.1),
        call_ensures(Responder::complete::<R>, (responder, result, queued), r),
    ensures
        sent == direct.0,
        sent == direct.1,
        r matches Sending::Queued(response) ==> response == result && sent == Ok::<
            R,
            oneshot::SendError<R>,
        >(result),
        r is Dropped ==> sent is Err,
        responder.tx.tx.tx.queue is Some && responder.tx.tx.tx.closed is None
            && responder.tx.tx.tx.remote_send_err is None ==> (r is Queued <==> queued is Queued),
{
}

/// A call tells its guard that it failed exactly if the method returned an error. The server
/// is stopped by that only where the caller asked for it, and in either case the caller is
/// sent the result.
pub proof fn law_completed_call<T, E: From<CallError>>(
    responder: Responder,
    method: &'static str,
    result: Result<T, E>,
    queued: Queued,
    completed: Sending<Result<T, E>>,
    r: Completion<Result<T, E>>,
)
    requires
        call_ensures(Responder::complete::<Result<T, E>>, (responder, result, queued), completed),
        call_ensures(
            complete_call::<Result<T, E>>,
            (responder, method, result, queued),
            r,
        ),
    ensures
        r.notify_failed <==> result is Err,
        r.report is Some <==> result is Err && responder.stop_on_error,
        r.report is Some ==> r.report == Some(ServeError::CallFailed { method }),
        r.sending == completed,
{
}

/// Over a local queue a call is completed as it is otherwise.
pub proof fn law_completed_call_over_a_queue<T, E: From<CallError>>(
    tx: QueueSender<Result<T, E>>,
    stop_on_error: bool,
    method: &'static str,
    result: Result<T, E>,
    result_tx: Option<u64>,
    r: Completion<()>,
)
    requires
        call_ensures(
            complete_call_queued::<Result<T, E>>,
            (tx, stop_on_error, method, result, result_tx),
            r,
        ),
    ensures
        r.notify_failed <==> result is Err,
        r.report is Some <==> result is Err && stop_on_error,
        r.report is Some ==> r.report == Some(ServeError::CallFailed { method }),
        r.sending is Queued ==> tx.may_return(result, result_tx, Ok(())),
{
}

/// A failure of sending a response stops the server only if the response itself caused it: that
/// the caller is gone does not.
pub proof fn law_response_that_stops_the_server(
    result: Result<(), SendingErrorKind>,
    r: Option<ServeError>,
)
    requires
        call_ensures(on_response_sent, (result,), r),
    ensures
        result is Ok ==> r is None,
        result matches Err(SendingErrorKind::Dropped) ==> r is None,
        result matches Err(SendingErrorKind::Send(base::SendErrorKind::Send(_))) ==> r is None,
        result matches Err(SendingErrorKind::Send(kind)) && (kind is Serialize || kind
            is MaxItemSizeExceeded) ==> r == Some(ServeError::ResponseSend(result->Err_0)),
{
}

/// A call that is not pipelined is answered by the client that the method returned. In one that
/// is, the caller gets no client: the requests it handed over go to the client, and none go
/// anywhere if the method failed.
pub proof fn law_pipelined_call<Rx, C, E>(
    responder: PipelinableResponder<Rx>,
    result: Result<C, E>,
    queued: Queued,
    completed: Sending<Result<C, E>>,
    r: Completing<Rx, C, E>,
)
    requires
        responder matches PipelinableResponder::Normal(plain) ==> call_ensures(
            Responder::complete::<Result<C, E>>,
            (plain, result, queued),
            completed,
        ),
        call_ensures(
            PipelinableResponder::<Rx>::complete::<C, E>,
            (responder, result, queued),
            r,
        ),
    ensures
        responder is Normal ==> r == Completing::<Rx, C, E>::Normal(completed),
        responder matches PipelinableResponder::Pipeline { req_rx, responder: plain } ==> (
        r matches Completing::Pipeline(sent, forwarded) && {
            &&& result matches Ok(client) ==> forwarded == Some((req_rx, client))
            &&& result is Err ==> forwarded is None
            &&& sent matches Sending::Queued(response) ==> (response is Ok <==> result is Ok)
            &&& sent matches Sending::Queued(Err(err)) ==> result == Err::<C, E>(err)
            &&& plain.tx.tx.tx.queue is Some && plain.tx.tx.tx.closed is None
                && plain.tx.tx.tx.remote_send_err is None ==> (sent is Queued <==> queued
                is Queued)
        }),
{
}

/// The options of a call are those of its responder, whether requests were handed over or not.
pub proof fn law_options_of_a_call<Rx>(
    tx: ResponseSender,
    sequential: bool,
    stop_on_error: bool,
    req_rx: Rx,
    plain: Responder,
    options: (bool, bool, bool),
    pipelined: (bool, bool, bool, bool),
    normal: (bool, bool, bool, bool),
)
    requires
        call_ensures(Responder::new, (tx, sequential, stop_on_error), plain),
        call_ensures(Responder::sequential, (&plain,), options.0),
        call_ensures(Responder::stop_on_error, (&plain,), options.1),
        call_ensures(Responder::is_closed, (&plain,), options.2),
        call_ensures(
            PipelinableResponder::<Rx>::sequential,
            (&PipelinableResponder::Pipeline { req_rx, responder: plain },),
            pipelined.0,
        ),
        call_ensures(
            PipelinableResponder::<Rx>::stop_on_error,
            (&PipelinableResponder::Pipeline { req_rx, responder: plain },),
            pipelined.1,
        ),
        call_ensures(
            PipelinableResponder::<Rx>::is_closed,
            (&PipelinableResponder::Pipeline { req_rx, responder: plain },),
            pipelined.2,
        ),
        call_ensures(
            PipelinableResponder::<Rx>::is_pipelined,
            (&PipelinableResponder::Pipeline { req_rx, responder: plain },),
            pipelined.3,
        ),
        call_ensures(
            PipelinableResponder::<Rx>::sequential,
            (&PipelinableResponder::Normal(plain),),
            normal.0,
        ),
        call_ensures(
            PipelinableResponder::<Rx>::stop_on_error,
            (&PipelinableResponder::Normal(plain),),
            normal.1,
        ),
        call_ensures(
            PipelinableResponder::<Rx>::is_closed,
            (&PipelinableResponder::Normal(plain),),
            normal.2,
        ),
        call_ensures(
            PipelinableResponder::<Rx>::is_pipelined,
            (&PipelinableResponder::Normal(plain),),
            normal.3,
        ),
    ensures
        options == (sequential, stop_on_error, options.2),
        options.2 <==> tx.tx.tx.closed is Some || tx.tx.tx.remote_send_err is Some,
        pipelined == (sequential, stop_on_error, options.2, true),
        normal == (sequential, stop_on_error, options.2, false),
{
}

/// A responder made of a sender alone asks for nothing special and gives the sender back.
pub proof fn law_responder_of_a_sender(
    tx: ResponseSender,
    responder: Responder,
    back: ResponseSender,
    sender: ResponseSender,
    closed: bool,
    size: (usize, usize),
)
    requires
        call_ensures(<Responder as From<ResponseSender>>::from, (tx,), responder),
        call_ensures(<ResponseSender as From<Responder>>::from, (responder,), back),
        call_ensures(Responder::into_sender, (responder,), sender),
        call_ensures(ResponseSender::is_closed, (&tx,), closed),
        call_ensures(ResponseSender::max_item_size, (&tx,), size.0),
        call_ensures(Responder::max_item_size, (&responder,), size.1),
    ensures
        back == tx,
        sender == tx,
        !responder.sequential && !responder.stop_on_error,
        closed <==> tx.tx.tx.closed is Some || tx.tx.tx.remote_send_err is Some,
        size.0 == tx.tx.tx.max_item_size && size.1 == size.0,
{
}

/// A new response channel holds one response, of the size that it was made for, and its caller
/// is there.
pub proof fn law_new_response_channel(max_item_size: usize, r: (ResponseSender, oneshot::Receiver))
    requires
        call_ensures(response_channel, (max_item_size,), r),
    ensures
        r.0.tx.tx.queue == Some(1usize),
        r.0.tx.tx.closed is None && r.0.tx.tx.remote_send_err is None,
        r.0.tx.tx.max_item_size == max_item_size,
        r.1.rx.has_queue && !r.1.rx.closed,
{
}

/// An old endpoint is sent a responder only if it asks for nothing that such an endpoint does
/// not know, and the responder then arrives as it was.
pub proof fn law_responder_for_old_endpoint<Rx: 'static>(
    responder: PipelinableResponder<Rx>,
    sent: Result<&ResponseSender, String>,
    arrived_as: Result<PipelinableResponder<Rx>, String>,
)
    requires
        call_ensures(<PipelinableResponder<Rx> as Versioned>::as_old, (&responder,), sent),
        sent matches Ok(tx) ==> call_ensures(
            <PipelinableResponder<Rx> as Versioned>::from_old,
            (*tx,),
            arrived_as,
        ),
    ensures
        sent is Ok <==> (responder matches PipelinableResponder::Normal(plain) && !plain.sequential
            && !plain.stop_on_error),
        sent is Ok ==> arrived_as == Ok::<PipelinableResponder<Rx>, String>(responder),
{
}

/// A plain responder is sent to an old endpoint only if it asks for nothing special, and then
/// arrives as it was.
pub proof fn law_plain_responder_for_old_endpoint(
    responder: Responder,
    sent: Result<&ResponseSender, String>,
    arrived_as: Result<Responder, String>,
)
    requires
        call_ensures(<Responder as Versioned>::as_old, (&responder,), sent),
        sent matches Ok(tx) ==> call_ensures(<Responder as Versioned>::from_old, (*tx,), arrived_as),
    ensures
        sent is Ok <==> !responder.sequential && !responder.stop_on_error,
        sent is Ok ==> arrived_as == Ok::<Responder, String>(responder),
        sent matches Err(msg) ==> msg@
            == "the remote endpoint does not support the options of this method call"@,
{
}

/// A responder arrives unchanged at an endpoint that understands the current representation.
pub proof fn law_responder_arrives<Rx: 'static>(
    responder: PipelinableResponder<Rx>,
    sent: Result<ResponderRef<'_, Rx>, String>,
    transported: TransportedResponder<Rx>,
    r: Result<PipelinableResponder<Rx>, String>,
)
    requires
        call_ensures(<PipelinableResponder<Rx> as Versioned>::as_current, (&responder,), sent),
        sent matches Ok(current) ==> {
            &&& current.tx matches SenderRef::Full(tx) ==> transported.tx
                == TransportedSender::Full(*tx)
            &&& current.tx matches SenderRef::WithoutValue(tx) ==> transported.tx
                == TransportedSender::WithoutValue(*tx)
            &&& current.req_rx matches Some(req_rx) ==> transported.req_rx == Some(*req_rx)
            &&& current.req_rx is None ==> transported.req_rx is None
            &&& transported.sequential == current.sequential
            &&& transported.stop_on_error == current.stop_on_error
        },
        call_ensures(<PipelinableResponder<Rx> as Versioned>::from_current, (transported,), r),
    ensures
        sent is Ok,
        r == Ok::<PipelinableResponder<Rx>, String>(responder),
{
}

/// A plain responder arrives unchanged at an endpoint that understands the current
/// representation.
pub proof fn law_plain_responder_arrives(
    responder: Responder,
    sent: Result<ResponderRef<'_, ()>, String>,
    transported: TransportedResponder<()>,
    r: Result<Responder, String>,
)
    requires
        call_ensures(<Responder as Versioned>::as_current, (&responder,), sent),
        sent matches Ok(current) ==> {
            &&& current.tx matches SenderRef::Full(tx) ==> transported.tx
                == TransportedSender::Full(*tx)
            &&& current.tx matches SenderRef::WithoutValue(tx) ==> transported.tx
                == TransportedSender::WithoutValue(*tx)
            &&& current.req_rx is Some <==> transported.req_rx is Some
            &&& transported.sequential == current.sequential
            &&& transported.stop_on_error == current.stop_on_error
        },
        call_ensures(<Responder as Versioned>::from_current, (transported,), r),
    ensures
        sent is Ok,
        r == Ok::<Responder, String>(responder),
{
}

/// A transported responder makes sense exactly if a receiver of requests came with a channel
/// for responses without a value, and none with one for whole responses.
pub proof fn law_transported_responder<Rx: 'static>(
    current: TransportedResponder<Rx>,
    r: Result<PipelinableResponder<Rx>, String>,
)
    requires
        call_ensures(<PipelinableResponder<Rx> as Versioned>::from_current, (current,), r),
    ensures
        r is Ok <==> (current.tx is WithoutValue <==> current.req_rx is Some),
        r matches Ok(PipelinableResponder::Normal(_)) ==> current.req_rx is None,
        r matches Ok(PipelinableResponder::Pipeline { req_rx, .. }) ==> current.req_rx == Some(
            req_rx,
        ),
{
}

/// A plain responder comes of a channel for whole responses without a receiver of requests
/// and of nothing else.
pub proof fn law_transported_plain_responder(
    current: TransportedResponder<()>,
    r: Result<Responder, String>,
)
    requires
        call_ensures(<Responder as Versioned>::from_current, (current,), r),
    ensures
        r is Ok <==> current.tx is Full && current.req_rx is None,
{
}

/// Whether a method failed is told by its result, and a failure of the call itself is given to
/// the caller as a result that failed.
pub proof fn law_failed_response<T, E: From<CallError>>(
    result: Result<T, E>,
    failed: bool,
    err: CallError,
    made: Result<T, E>,
    empty: Result<(), E>,
)
    requires
        call_ensures(<Result<T, E> as Response>::is_error, (&result,), failed),
        call_ensures(<Result<T, E> as Response>::from_call_error, (err,), made),
        call_ensures(<Result<T, E> as Response>::without_value, (), empty),
    ensures
        failed <==> result is Err,
        made matches Err(converted) && call_ensures(E::from, (err,), converted),
        empty is Ok,
{
}

/// A response loses its client and nothing else when it is sent without its value.
pub proof fn law_response_without_value<T: Client, E: From<CallError>>(
    response: Result<T, E>,
    split: Result<T, Result<(), E>>,
    r: Result<(), E>,
)
    requires
        call_ensures(<Result<T, E> as PipelinableResponse>::split, (response,), split),
        call_ensures(into_without_value::<Result<T, E>>, (response,), r),
    ensures
        response matches Ok(client) ==> split == Ok::<T, Result<(), E>>(client) && r is Ok,
        response matches Err(err) ==> split == Err::<T, Result<(), E>>(Err(err)) && r == Err::<
            (),
            E,
        >(err),
{
}

/// What a responder cannot be sent or received as is said in words.
pub proof fn law_refused_responder<Rx: 'static>(
    responder: PipelinableResponder<Rx>,
    sent: Result<&ResponseSender, String>,
    current: TransportedResponder<Rx>,
    r: Result<PipelinableResponder<Rx>, String>,
    nothing: Option<Rx>,
)
    requires
        call_ensures(<PipelinableResponder<Rx> as Versioned>::as_old, (&responder,), sent),
        call_ensures(<PipelinableResponder<Rx> as Versioned>::from_current, (current,), r),
        call_ensures(none::<Rx>, (), nothing),
    ensures
        sent matches Err(msg) ==> msg@
            == "the remote endpoint does not support the options of this method call"@,
        r matches Err(msg) ==> msg@
            == "unsupported combination of response channel and request receiver"@,
        nothing is None,
{
}

/// A plain responder that makes no sense is refused in words.
pub proof fn law_refused_plain_responder(
    current: TransportedResponder<()>,
    r: Result<Responder, String>,
)
    requires
        call_ensures(<Responder as Versioned>::from_current, (current,), r),
    ensures
        r matches Err(msg) ==> msg@
            == "unsupported combination of response channel and request receiver"@,
{
}

} // verus!
