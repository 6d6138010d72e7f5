//! Remote trait calling.

pub mod call;
pub mod monitor;
pub mod response;
pub mod tracing;

pub use call::{Call, CallError};
pub use response::{
    response_channel, PipelinableResponder, PipelinableResponse, Responder, Response,
    ResponseSender,
};

use vstd::prelude::*;
use std::sync::Arc;
use crate::rch::{mpsc, SendingError, SendingErrorKind, DEFAULT_BUFFER};
use crate::text::concat;

verus! {

/// Default maximum number of calls a server processes concurrently.
pub const DEFAULT_PARALLELISM: usize = 32;

/// The requests of one kind to a remotable trait.
pub trait ReqEnum {
    /// Returns the name of the trait.
    fn trait_name() -> &'static str;

    /// Returns the name of the method that is requested.
    fn method_name(&self) -> &'static str;

    /// Returns whether the caller asks for the request to be processed inline.
    fn sequential(&self) -> bool;
}

/// A request from client to server, by how the method takes its object.
pub enum Req<Value, Ref, RefMut> {
    /// Request for a method that takes it by value.
    Value(Value),
    /// Request for a method that takes it by reference.
    Ref(Ref),
    /// Request for a method that takes it by mutable reference.
    RefMut(RefMut),
}

impl<Value: ReqEnum, Ref: ReqEnum, RefMut: ReqEnum> Req<Value, Ref, RefMut> {
    /// Whether all kinds of requests belong to the same trait.
    pub open spec fn same_trait() -> bool {
        &&& forall|a: &'static str, b: &'static str| #[trigger]
            call_ensures(Value::trait_name, (), a) && #[trigger] call_ensures(
                Ref::trait_name,
                (),
                b,
            ) ==> a@ == b@
        &&& forall|a: &'static str, b: &'static str| #[trigger]
            call_ensures(Value::trait_name, (), a) && #[trigger] call_ensures(
                RefMut::trait_name,
                (),
                b,
            ) ==> a@ == b@
    }

    /// Returns the name of the trait.
    pub fn trait_name() -> (r: &'static str)
        requires
            Self::same_trait(),
        ensures
            call_ensures(Value::trait_name, (), r),
            forall|name: &'static str| #[trigger]
                call_ensures(Ref::trait_name, (), name) ==> name@ == r@,
            forall|name: &'static str| #[trigger]
                call_ensures(RefMut::trait_name, (), name) ==> name@ == r@,
    {
        Value::trait_name()
    }

    /// Returns the name of the method that is requested.
    pub fn method_name(&self) -> (r: &'static str)
        ensures
            match *self {
                Req::Value(req) => call_ensures(Value::method_name, (&req,), r),
                Req::Ref(req) => call_ensures(Ref::method_name, (&req,), r),
                Req::RefMut(req) => call_ensures(RefMut::method_name, (&req,), r),
            },
    {
        match self {
            Req::Value(req) => req.method_name(),
            Req::Ref(req) => req.method_name(),
            Req::RefMut(req) => req.method_name(),
        }
    }
}

/// The client of a remotable trait.
pub trait Client: Sized {
    /// The receiver of the client's requests.
    type ReqReceiver;

    /// Creates a client and its receiver with the default buffer for requests.
    fn new() -> (r: (Self, Self::ReqReceiver))
        default_ensures
            call_ensures(Self::with_request_buffer, (DEFAULT_BUFFER,), r),
    {
        Self::with_request_buffer(DEFAULT_BUFFER)
    }

    /// Creates a client and its receiver with a buffer for requests.
    fn with_request_buffer(request_buffer: usize) -> (Self, Self::ReqReceiver)
        requires
            request_buffer > 0,
    ;

    /// Returns how many requests can be queued at the moment.
    ///
    /// This is zero once the server is gone or the connection is lost.
    fn capacity(&self) -> usize;

    /// Returns whether the server is gone or the connection is lost.
    fn is_closed(&self) -> bool;

    /// Returns the maximum size of a request.
    fn max_request_size(&self) -> usize;

    /// Sets the maximum size of a request.
    ///
    /// This does not change what the server accepts of a client that arrived from a remote
    /// endpoint.
    fn set_max_request_size(&mut self, max_request_size: usize);

    /// Returns the maximum size of a response.
    fn max_response_size(&self) -> usize;

    /// Sets the maximum size of a response.
    fn set_max_response_size(&mut self, max_response_size: usize);

    /// Returns whether the server processes the calls of this client one after another.
    fn sequential(&self) -> bool;

    /// Sets whether the server processes the calls of this client one after another.
    fn set_sequential(&mut self, sequential: bool);

    /// Returns whether the server is to stop when a call of this client fails.
    fn stop_on_error(&self) -> bool;

    /// Sets whether the server is to stop when a call of this client fails.
    fn set_stop_on_error(&mut self, stop_on_error: bool);
}

/// What all servers of a remotable trait have in common.
pub trait ServerBase {
    /// The client of the trait.
    type Client;

    /// The receiver of the client's requests.
    type ReqReceiver;
}

/// Receives the requests of the clients of a remotable trait.
pub trait ReqReceiver: ServerBase + Sized {
    /// A request of a method that takes the object by value.
    type Value: ReqEnum;

    /// A request of a method that takes the object by reference.
    type Ref: ReqEnum;

    /// A request of a method that takes the object by mutable reference.
    type RefMut: ReqEnum;

    /// Creates a receiver and its client with the default buffer for requests.
    fn new() -> (r: (Self, Self::Client))
        default_ensures
            call_ensures(Self::with_request_buffer, (DEFAULT_BUFFER,), r),
    {
        Self::with_request_buffer(DEFAULT_BUFFER)
    }

    /// Creates a receiver and its client with a buffer for requests.
    fn with_request_buffer(request_buffer: usize) -> (Self, Self::Client)
        requires
            request_buffer > 0,
    ;

    /// Closes the channel; requests that are queued can still be received.
    fn close(&mut self);
}

/// A server of an object by value.
pub trait Server<Target>: ServerBase + Sized {
    /// Creates a server and its client with the default buffer for requests.
    fn new(target: Target) -> (r: (Self, Self::Client))
        default_ensures
            call_ensures(Self::with_request_buffer, (target, DEFAULT_BUFFER), r),
    {
        Self::with_request_buffer(target, DEFAULT_BUFFER)
    }

    /// Creates a server and its client with a buffer for requests.
    fn with_request_buffer(target: Target, request_buffer: usize) -> (Self, Self::Client)
        requires
            request_buffer > 0,
    ;

    /// Creates a server for the requests of a receiver.
    fn from_req_receiver(target: Target, req_rx: Self::ReqReceiver) -> Self;
}

/// A server of an object by reference.
pub trait ServerRef<'target, Target: 'target>: ServerBase + Sized {
    /// Creates a server and its client with the default buffer for requests.
    fn new(target: &'target Target) -> (r: (Self, Self::Client))
        default_ensures
            call_ensures(Self::with_request_buffer, (target, DEFAULT_BUFFER), r),
    {
        Self::with_request_buffer(target, DEFAULT_BUFFER)
    }

    /// Creates a server and its client with a buffer for requests.
    fn with_request_buffer(target: &'target Target, request_buffer: usize) -> (Self, Self::Client)
        requires
            request_buffer > 0,
    ;

    /// Creates a server for the requests of a receiver.
    fn from_req_receiver(target: &'target Target, req_rx: Self::ReqReceiver) -> Self;
}

/// A server of an object by mutable reference.
pub trait ServerRefMut<'target, Target: 'target>: ServerBase + Sized {
    /// Creates a server and its client with the default buffer for requests.
    fn new(target: &'target mut Target) -> (r: (Self, Self::Client))
        default_ensures
            exists|lent: &'target mut Target|
                {
                    &&& #[trigger] call_ensures(
                        Self::with_request_buffer,
                        (lent, DEFAULT_BUFFER),
                        r,
                    )
                    &&& *lent == *old(target)
                    &&& *final(lent) == *final(target)
                },
    {
        Self::with_request_buffer(target, DEFAULT_BUFFER)
    }

    /// Creates a server and its client with a buffer for requests.
    fn with_request_buffer(target: &'target mut Target, request_buffer: usize) -> (
        Self,
        Self::Client,
    )
        requires
            request_buffer > 0,
    ;

    /// Creates a server for the requests of a receiver.
    fn from_req_receiver(target: &'target mut Target, req_rx: Self::ReqReceiver) -> Self;
}

/// A server of a shared object.
pub trait ServerShared<Target>: ServerBase + Sized {
    /// Creates a server and its client with the default buffer for requests.
    fn new(target: Arc<Target>) -> (r: (Self, Self::Client))
        default_ensures
            call_ensures(Self::with_request_buffer, (target, DEFAULT_BUFFER), r),
    {
        Self::with_request_buffer(target, DEFAULT_BUFFER)
    }

    /// Creates a server and its client with a buffer for requests.
    fn with_request_buffer(target: Arc<Target>, request_buffer: usize) -> (Self, Self::Client)
        requires
            request_buffer > 0,
    ;

    /// Creates a server for the requests of a receiver.
    fn from_req_receiver(target: Arc<Target>, req_rx: Self::ReqReceiver) -> Self;

    /// Returns the number of calls that are processed concurrently.
    fn parallelism(&self) -> usize;

    /// Sets the number of calls that are processed concurrently.
    fn set_parallelism(&mut self, parallelism: usize);
}

/// A server of a shared object that calls may change.
pub trait ServerSharedMut<Target>: ServerBase + Sized {
    /// The lock through which the object is changed.
    type Lock;

    /// Creates a server and its client with the default buffer for requests.
    fn new(target: Arc<Self::Lock>) -> (r: (Self, Self::Client))
        default_ensures
            call_ensures(Self::with_request_buffer, (target, DEFAULT_BUFFER), r),
    {
        Self::with_request_buffer(target, DEFAULT_BUFFER)
    }

    /// Creates a server and its client with a buffer for requests.
    fn with_request_buffer(target: Arc<Self::Lock>, request_buffer: usize) -> (Self, Self::Client)
        requires
            request_buffer > 0,
    ;

    /// Creates a server for the requests of a receiver.
    fn from_req_receiver(target: Arc<Self::Lock>, req_rx: Self::ReqReceiver) -> Self;

    /// Returns the number of calls that are processed concurrently.
    fn parallelism(&self) -> usize;

    /// Sets the number of calls that are processed concurrently.
    fn set_parallelism(&mut self, parallelism: usize);
}

/// An error that ends the work of a server.
pub enum ServeError {
    /// Receiving a request from the client failed.
    ReqReceive(mpsc::RecvError),
    /// Sending a response to the client failed.
    ResponseSend(SendingErrorKind),
    /// Forwarding a request to another client failed.
    Forward(mpsc::SendError<()>),
    /// The monitor of the server failed with this message.
    Monitor(String),
    /// A call failed and the caller asked the server to stop in that case.
    CallFailed {
        /// Name of the method that failed.
        method: &'static str,
    },
}

impl ServeError {
    /// The message shown to users.
    pub open spec fn text(self) -> Seq<char> {
        match self {
            ServeError::ReqReceive(err) => "failed to receive RTC request: "@ + err.text(),
            ServeError::ResponseSend(err) => "failed to send response to RTC request: "@
                + err.text(),
            ServeError::Forward(err) => "failed to forward RTC request: "@ + err.text(),
            ServeError::Monitor(err) => "failed by server monitor: "@ + err@,
            ServeError::CallFailed { method } => "RTC call to "@ + method@ + " failed"@,
        }
    }

    /// Returns the message shown to users.
    pub fn message(&self) -> (r: String)
        ensures
            r@ == self.text(),
    {
        match self {
            ServeError::ReqReceive(err) => concat(
                "failed to receive RTC request: ",
                err.message().as_str(),
            ),
            ServeError::ResponseSend(err) => concat(
                "failed to send response to RTC request: ",
                err.message().as_str(),
            ),
            ServeError::Forward(err) => concat(
                "failed to forward RTC request: ",
                err.message().as_str(),
            ),
            ServeError::Monitor(err) => concat("failed by server monitor: ", err.as_str()),
            ServeError::CallFailed { method } => {
                let mut out = concat("RTC call to ", method);
                out.append(" failed");
                out
            },
        }
    }
}

impl From<mpsc::RecvError> for ServeError {
    fn from(err: mpsc::RecvError) -> (r: Self) {
        ServeError::ReqReceive(err)
    }
}

impl vstd::std_specs::convert::FromSpecImpl<mpsc::RecvError> for ServeError {
    open spec fn obeys_from_spec() -> bool {
        true
    }

    open spec fn from_spec(err: mpsc::RecvError) -> ServeError {
        ServeError::ReqReceive(err)
    }
}

impl<T> From<SendingError<T>> for ServeError {
    fn from(err: SendingError<T>) -> (r: Self) {
        ServeError::ResponseSend(err.kind())
    }
}

impl<T> vstd::std_specs::convert::FromSpecImpl<SendingError<T>> for ServeError {
    open spec fn obeys_from_spec() -> bool {
        true
    }

    open spec fn from_spec(err: SendingError<T>) -> ServeError {
        ServeError::ResponseSend(err.spec_kind())
    }
}

impl From<SendingErrorKind> for ServeError {
    fn from(err: SendingErrorKind) -> (r: Self) {
        ServeError::ResponseSend(err)
    }
}

impl vstd::std_specs::convert::FromSpecImpl<SendingErrorKind> for ServeError {
    open spec fn obeys_from_spec() -> bool {
        true
    }

    open spec fn from_spec(err: SendingErrorKind) -> ServeError {
        ServeError::ResponseSend(err)
    }
}

impl From<mpsc::SendError<()>> for ServeError {
    fn from(err: mpsc::SendError<()>) -> (r: Self) {
        ServeError::Forward(err)
    }
}

impl vstd::std_specs::convert::FromSpecImpl<mpsc::SendError<()>> for ServeError {
    open spec fn obeys_from_spec() -> bool {
        true
    }

    open spec fn from_spec(err: mpsc::SendError<()>) -> ServeError {
        ServeError::Forward(err)
    }
}

/// The stream of the requests of a receiver.
#[derive(Clone, Copy, Debug, PartialEq, Eq, Structural)]
pub struct ReqReceiverStream {
    /// Whether the receiver is to be closed after the next request was received.
    pub close: bool,
}

impl ReqReceiverStream {
    /// Creates the stream.
    pub fn new() -> (r: Self)
        ensures
            !r.close,
    {
        ReqReceiverStream { close: false }
    }

    /// Closes the receiver after the next request was received.
    pub fn close(&mut self)
        ensures
            final(self).close,
    {
        self.close = true;
    }

    /// Returns the next element for what was received, and whether the receiver is to be
    /// closed before receiving goes on.
    pub fn poll_next<R>(&self, received: Result<Option<R>, mpsc::RecvError>) -> (r: (
        Option<Result<R, mpsc::RecvError>>,
        bool,
    ))
        ensures
            r.0 == (match received {
                Ok(Some(req)) => Some(Ok::<R, mpsc::RecvError>(req)),
                Ok(None) => None,
                Err(err) => Some(Err(err)),
            }),
            r.1 == self.close,
    {
        let item = match received {
            Ok(Some(req)) => Some(Ok(req)),
            Ok(None) => None,
            Err(err) => Some(Err(err)),
        };
        (item, self.close)
    }
}

/// The error of a server holds the failure it stems from.
pub proof fn law_cause_of_serve_error<T>(
    received: mpsc::RecvError,
    sent: SendingError<T>,
    kind: SendingErrorKind,
    forwarded: mpsc::SendError<()>,
    errs: (ServeError, ServeError, ServeError, ServeError),
)
    requires
        call_ensures(<ServeError as From<mpsc::RecvError>>::from, (received,), errs.0),
        call_ensures(<ServeError as From<SendingError<T>>>::from, (sent,), errs.1),
        call_ensures(<ServeError as From<SendingErrorKind>>::from, (kind,), errs.2),
        call_ensures(<ServeError as From<mpsc::SendError<()>>>::from, (forwarded,), errs.3),
    ensures
        errs.0 == ServeError::ReqReceive(received),
        sent matches SendingError::Send(err) ==> errs.1 == ServeError::ResponseSend(
            SendingErrorKind::Send(err.kind),
        ),
        sent is Dropped ==> errs.1 == ServeError::ResponseSend(SendingErrorKind::Dropped),
        errs.2 == ServeError::ResponseSend(kind),
        errs.3 == ServeError::Forward(forwarded),
{
}

/// A stream of requests gives out each request and each failure as it was received and ends
/// when receiving does. Its receiver is closed after a request was received once the stream was
/// closed, and not before.
pub proof fn law_stream_of_requests<R>(
    new: ReqReceiverStream,
    closed: ReqReceiverStream,
    received: Result<Option<R>, mpsc::RecvError>,
    first: (Option<Result<R, mpsc::RecvError>>, bool),
    last: (Option<Result<R, mpsc::RecvError>>, bool),
)
    requires
        call_ensures(ReqReceiverStream::new, (), new),
        exists|state: &mut ReqReceiverStream| #[trigger]
            call_ensures(ReqReceiverStream::close, (state,), ()) && *state == new
                && *final(state) == closed,
        call_ensures(ReqReceiverStream::poll_next::<R>, (&new, received), first),
        call_ensures(ReqReceiverStream::poll_next::<R>, (&closed, received), last),
    ensures
        !first.1,
        last.1,
        first.0 == last.0,
        received matches Ok(Some(req)) ==> first.0 == Some(Ok::<R, mpsc::RecvError>(req)),
        received matches Err(err) ==> first.0 == Some(Err::<R, mpsc::RecvError>(err)),
        first.0 is None <==> (received matches Ok(None)),
{
}

/// The number of calls that a server processes concurrently unless it is told otherwise.
pub proof fn law_default_parallelism()
    ensures
        DEFAULT_PARALLELISM == 32,
{
}

/// A request is named as the request of its kind that it holds, and all kinds belong to the trait
/// that is named.
pub proof fn law_names_of_requests<Value: ReqEnum, Ref: ReqEnum, RefMut: ReqEnum>(
    req: Req<Value, Ref, RefMut>,
    method: &'static str,
    name: &'static str,
    others: (&'static str, &'static str),
)
    requires
        call_ensures(Req::<Value, Ref, RefMut>::method_name, (&req,), method),
        call_ensures(Req::<Value, Ref, RefMut>::trait_name, (), name),
        call_ensures(Ref::trait_name, (), others.0),
        call_ensures(RefMut::trait_name, (), others.1),
    ensures
        req matches Req::Value(inner) ==> call_ensures(Value::method_name, (&inner,), method),
        req matches Req::Ref(inner) ==> call_ensures(Ref::method_name, (&inner,), method),
        req matches Req::RefMut(inner) ==> call_ensures(RefMut::method_name, (&inner,), method),
        call_ensures(Value::trait_name, (), name),
        others.0@ == name@ && others.1@ == name@,
{
}

} // verus!
