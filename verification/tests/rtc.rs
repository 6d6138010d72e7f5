use remoc::chmux;
use remoc::rch::base;
use remoc::rch::mpsc;
use remoc::rch::mpsc::queue::queue_channel;
use remoc::rch::mpsc::sender::Queued;
use remoc::rch::oneshot;
use remoc::rch::{SendingError, SendingErrorKind};
use remoc::rtc::call::{calls, map_result, Call, CallError};
use remoc::rtc::monitor::log::LogMonitor;
use remoc::rtc::monitor::{
    recv_as_dispatch, req_receiver_monitor_pre_recv, server_monitor_pre_dispatch, CallDecision,
    CallGuard, ChainedGuard, ChainedMonitor, Dispatch, DispatchDecision, PassMonitor,
    RecvDecision,
};
use remoc::rtc::response::{
    complete_call, complete_call_queued, into_without_value, on_response_sent, response_channel,
    Completing, PipelinableResponder, Responder, Response, Sending,
};
use remoc::rtc::tracing::pipeline_forward_span;
use remoc::rtc::{
    Client, Req, ReqEnum, ReqReceiver, ReqReceiverStream, ServeError, ServerBase, ServerRefMut,
};
use remoc::tracing::Level;

#[test]
fn unserved_and_dropped_calls() {
    let err = CallError::from(mpsc::SendError::Closed(3u8));
    assert!(matches!(err, CallError::NotServed));
    assert_eq!(err.message(), "the remote object is no longer served");
    let err = CallError::from(oneshot::RecvError::Closed);
    assert!(matches!(err, CallError::Dropped));
    assert_eq!(err.message(), "processing request failed");
    let err = CallError::from(mpsc::SendError::<u8>::Forward);
    assert_eq!(err.message(), "forwarding error");
}

#[test]
fn serve_errors_have_texts() {
    let err = ServeError::from(mpsc::RecvError::Remote(None));
    assert_eq!(err.message(), "failed to receive RTC request: unknown remote error");
    let err = ServeError::from(SendingError::<u8>::Dropped);
    assert_eq!(err.message(), "failed to send response to RTC request: channel was dropped");
    let err = ServeError::from(mpsc::SendError::Closed(()));
    assert_eq!(err.message(), "failed to forward RTC request: channel is closed");
    assert_eq!(
        ServeError::Monitor("denied".to_string()).message(),
        "failed by server monitor: denied"
    );
    let err = ServeError::CallFailed { method: "get" };
    assert_eq!(err.message(), "RTC call to get failed");
}

#[test]
fn calls_complete_once() {
    let mut call = Call::ready("get", 5);
    assert_eq!(call.poll(None), Some(5));
    let mut call: Call<u8> = Call::pending("get");
    assert_eq!(call.poll(None), None);
    assert_eq!(call.poll(Some(6)), Some(6));
    let failed: Call<Result<u8, u8>> = Call::ready("get", Err(2));
    let (mut mapped, _) = failed.map_err(|e| e + 1);
    assert_eq!(mapped.poll(None), Some(Err(3)));
    assert_eq!(map_result::<u8, u8, u8, _>(Ok(1), |e| e + 1), Ok(1));
}

#[test]
fn responders_respond() {
    let (tx, mut rx) = response_channel(50);
    assert_eq!(rx.max_item_size(), remoc::rch::DEFAULT_MAX_ITEM_SIZE);
    assert_eq!(tx.max_item_size(), 50);
    let responder = Responder::from(tx);
    assert!(!responder.sequential() && !responder.stop_on_error() && !responder.is_closed());
    match responder.complete(1, Queued::Queued) {
        Sending::Queued(response) => assert!(matches!(rx.poll(Some(Ok(response))), Some(Ok(1)))),
        Sending::Dropped => panic!("expected a response"),
    }
    assert!(matches!(response_channel(50).0.send(2, Queued::Queued), Ok(2)));
    let responder = Responder::from(response_channel(50).0);
    assert_eq!(responder.complete(1, Queued::Closed), Sending::Dropped);
}

struct Counter(u8);

impl Client for Counter {
    type ReqReceiver = Requests;

    fn with_request_buffer(request_buffer: usize) -> (Self, Requests) {
        (Counter(1), Requests { buffer: request_buffer, open: true })
    }

    fn capacity(&self) -> usize {
        self.0 as usize
    }

    fn is_closed(&self) -> bool {
        self.0 == 0
    }

    fn max_request_size(&self) -> usize {
        remoc::rch::DEFAULT_MAX_ITEM_SIZE
    }

    fn set_max_request_size(&mut self, _max_request_size: usize) {}

    fn max_response_size(&self) -> usize {
        remoc::rch::DEFAULT_MAX_ITEM_SIZE
    }

    fn set_max_response_size(&mut self, _max_response_size: usize) {}

    fn sequential(&self) -> bool {
        false
    }

    fn set_sequential(&mut self, _sequential: bool) {}

    fn stop_on_error(&self) -> bool {
        false
    }

    fn set_stop_on_error(&mut self, _stop_on_error: bool) {}
}

struct Requests {
    buffer: usize,
    open: bool,
}

impl ServerBase for Requests {
    type Client = Counter;
    type ReqReceiver = Requests;
}

impl ReqReceiver for Requests {
    type Value = Get;
    type Ref = Get;
    type RefMut = Get;

    fn with_request_buffer(request_buffer: usize) -> (Self, Counter) {
        (Requests { buffer: request_buffer, open: true }, Counter(1))
    }

    fn close(&mut self) {
        self.open = false;
    }
}

#[test]
fn requests_are_buffered_by_default() {
    let (mut requests, client) = <Requests as ReqReceiver>::new();
    assert_eq!(requests.buffer, remoc::rch::DEFAULT_BUFFER);
    assert!(requests.open && !client.is_closed());
    requests.close();
    assert!(!requests.open);
}

struct Adder<'a>(&'a mut u8, usize);

impl ServerBase for Adder<'_> {
    type Client = Counter;
    type ReqReceiver = Requests;
}

impl<'a> ServerRefMut<'a, u8> for Adder<'a> {
    fn with_request_buffer(target: &'a mut u8, request_buffer: usize) -> (Self, Counter) {
        (Adder(target, request_buffer), Counter(1))
    }

    fn from_req_receiver(target: &'a mut u8, req_rx: Requests) -> Self {
        Adder(target, req_rx.buffer)
    }
}

#[test]
fn server_changes_its_target() {
    let mut target = 4;
    let (adder, _) = Adder::new(&mut target);
    assert_eq!(adder.1, remoc::rch::DEFAULT_BUFFER);
    *adder.0 += 1;
    assert_eq!(target, 5);
}

#[test]
fn responses_without_value() {
    let ok: Result<Counter, CallError> = Ok(Counter::new().0);
    assert!(into_without_value(ok).is_ok());
    let failed: Result<Counter, CallError> = Err(CallError::NotServed);
    assert!(matches!(into_without_value(failed), Err(CallError::NotServed)));
    assert_eq!(Counter::new().1.buffer, remoc::rch::DEFAULT_BUFFER);
    assert_eq!(Counter::with_request_buffer(5).0 .0, 1);
    let sender = Responder::new(response_channel(3).0, true, true).into_sender();
    assert_eq!(sender.max_item_size(), 3);
}

#[test]
fn failed_calls_are_reported_on_request() {
    let failed: Result<u8, CallError> = Err(CallError::Dropped);
    let responder = Responder::new(response_channel(50).0, false, true);
    let done = complete_call(responder, "get", failed, Queued::Queued);
    assert!(done.notify_failed);
    assert!(matches!(done.sending, Sending::Queued(Err(CallError::Dropped))));
    assert!(matches!(done.report, Some(ServeError::CallFailed { method: "get" })));
    let failed: Result<u8, CallError> = Err(CallError::Dropped);
    let responder = Responder::new(response_channel(50).0, false, false);
    let done = complete_call(responder, "get", failed, Queued::Closed);
    assert!(done.notify_failed && done.report.is_none());
    assert!(matches!(done.sending, Sending::Dropped));
    let done = complete_call(
        Responder::from(response_channel(50).0),
        "get",
        Ok::<u8, CallError>(7),
        Queued::Queued,
    );
    assert!(!done.notify_failed && matches!(done.sending, Sending::Queued(Ok(7))));
    let unserved: Result<u8, CallError> = Response::from_call_error(CallError::NotServed);
    assert!(unserved.is_error());
}

#[test]
fn response_arrives_at_the_caller() {
    let (tx, mut rx) = queue_channel(1);
    let done = complete_call_queued(tx, true, "get", Ok::<u8, CallError>(9), Some(3));
    assert!(!done.notify_failed && done.report.is_none());
    assert!(matches!(done.sending, Sending::Queued(())));
    assert!(matches!(rx.try_recv(), (Some(Ok(Ok(9))), Some(3))));
    let (tx, mut rx) = queue_channel(1);
    rx.close();
    let failed: Result<u8, CallError> = Err(CallError::Dropped);
    let done = complete_call_queued(tx, true, "get", failed, None);
    assert!(done.notify_failed && matches!(done.sending, Sending::Dropped));
    assert!(matches!(done.report, Some(ServeError::CallFailed { method: "get" })));
}

#[test]
fn lost_callers_are_no_server_failure() {
    assert!(on_response_sent(Ok(())).is_none());
    assert!(on_response_sent(Err(SendingErrorKind::Dropped)).is_none());
    let lost = base::SendErrorKind::Send(chmux::SendError::ChMux);
    assert!(on_response_sent(Err(SendingErrorKind::Send(lost))).is_none());
    let large = base::SendErrorKind::MaxItemSizeExceeded;
    assert!(matches!(
        on_response_sent(Err(SendingErrorKind::Send(large))),
        Some(ServeError::ResponseSend(_))
    ));
}

#[test]
fn pipelined_calls_hand_over_requests() {
    let responder = Responder::from(response_channel(50).0);
    let pipelined: PipelinableResponder<u8> =
        PipelinableResponder::Pipeline { req_rx: 1, responder };
    let result: Result<&str, u8> = Ok("client");
    match pipelined.complete(result, Queued::Queued) {
        Completing::Pipeline(Sending::Queued(Ok(())), Some((1, "client"))) => {}
        _ => panic!("expected the requests"),
    }
    let responder = Responder::from(response_channel(50).0);
    let pipelined: PipelinableResponder<u8> =
        PipelinableResponder::Pipeline { req_rx: 1, responder };
    let result: Result<&str, u8> = Err(4);
    assert!(matches!(
        pipelined.complete(result, Queued::Queued),
        Completing::Pipeline(Sending::Queued(Err(4)), None)
    ));
    let normal: PipelinableResponder<u8> =
        PipelinableResponder::Normal(Responder::from(response_channel(50).0));
    let result: Result<&str, u8> = Ok("client");
    assert!(matches!(
        normal.complete(result, Queued::Queued),
        Completing::Normal(Sending::Queued(Ok("client")))
    ));
    assert_eq!(pipeline_forward_span().1, "rtc_pipeline_forward");
}

#[test]
fn chained_monitors_agree() {
    type Both = ChainedMonitor<(), ()>;
    assert!(matches!(
        Both::pre_call::<u8, u8>(CallDecision::Drop, None),
        Some(CallDecision::Drop)
    ));
    assert!(Both::pre_call::<u8, u8>(CallDecision::Pass, None).is_none());
    assert!(matches!(
        Both::pre_call::<u8, u8>(CallDecision::Guard(1), Some(CallDecision::Guard(2))),
        Some(CallDecision::Guard(ChainedGuard::Both { second: 2, first: 1 }))
    ));
    assert!(matches!(
        Both::pre_call::<u8, u8>(CallDecision::Pass, Some(CallDecision::Guard(2))),
        Some(CallDecision::Guard(ChainedGuard::Second(2)))
    ));
    assert!(matches!(
        Both::pre_recv(RecvDecision::Pass, Some(RecvDecision::Drop)),
        Some(RecvDecision::Drop)
    ));
    assert!(matches!(
        Both::pre_dispatch::<u8, u8, &str>(DispatchDecision::Error("no"), None),
        Some(DispatchDecision::Error("no"))
    ));
}

#[test]
fn monitor_decisions_take_effect() {
    let request: Result<Option<u8>, mpsc::RecvError> = Ok(Some(1));
    let end: Result<Option<u8>, mpsc::RecvError> = Ok(None);
    let drop: DispatchDecision<u8, &str> = DispatchDecision::Drop;
    assert!(matches!(server_monitor_pre_dispatch(drop, &request), Dispatch::Skip));
    let drop: DispatchDecision<u8, &str> = DispatchDecision::Drop;
    assert!(matches!(server_monitor_pre_dispatch(drop, &end), Dispatch::Process(None)));
    let fail: DispatchDecision<u8, &str> = DispatchDecision::Error("no");
    assert!(matches!(server_monitor_pre_dispatch(fail, &request), Dispatch::Stop("no")));
    assert!(!req_receiver_monitor_pre_recv(RecvDecision::Drop, &request));
    assert!(req_receiver_monitor_pre_recv(RecvDecision::Drop, &end));
    let passed: DispatchDecision<u8, &str> = recv_as_dispatch(RecvDecision::Pass);
    assert!(matches!(passed, DispatchDecision::Pass));
    assert!(matches!(PassMonitor.pre_recv(), RecvDecision::Pass));
}

#[test]
fn requests_are_logged() {
    let monitor = LogMonitor::default()
        .method("get", None)
        .method("set", Some(Level::Info))
        .failure_level(Some(Level::Error));
    assert_eq!(monitor.level_of(Some("get")), None);
    assert_eq!(monitor.level_of(Some("set")), Some(Level::Info));
    assert_eq!(monitor.level_of(Some("other")), Some(Level::Debug));
    let (target, level) = monitor.target_of("Counter", Some("set"));
    assert_eq!(target, "Counter::set");
    let (event, guard) = monitor.started(target, level, "calling");
    assert_eq!((event.level, event.message), (Some(Level::Info), "calling"));
    assert_eq!(event.target, "Counter::set");
    let event = guard.outcome();
    assert_eq!((event.level, event.message), (Some(Level::Info), "done"));
    let (event, decision) = monitor.pre_call("Counter", "set");
    assert_eq!((event.level, event.message), (Some(Level::Info), "calling"));
    match decision {
        CallDecision::Guard(mut guard) => {
            let event = guard.response_failure();
            assert_eq!(event.level, Some(Level::Error));
            assert_eq!(event.message, "receiving the response failed");
            CallGuard::failed(&mut guard);
            let event = guard.outcome();
            assert_eq!((event.level, event.message), (Some(Level::Error), "failed"));
            assert_eq!(event.target, "Counter::set");
        }
        _ => panic!(),
    }
    let (event, decision) = monitor.pre_dispatch::<String>("Counter", Some("get"));
    assert_eq!((event.level, event.message), (None, "dispatching"));
    assert!(matches!(decision, DispatchDecision::Guard(_)));
    let (event, decision) = monitor.pre_recv("Counter", None);
    assert_eq!((event.level, event.message), (Some(Level::Debug), "received"));
    assert_eq!(event.target, "Counter");
    assert_eq!(decision, RecvDecision::Pass);
    let changed = LogMonitor::new(Some(Level::Trace)).method("get", None).method("get", Some(Level::Warn));
    assert_eq!(changed.level_of(Some("get")), Some(Level::Warn));
    assert_eq!(changed.target_of("Counter", None).0, "Counter");
}

struct Get;

impl ReqEnum for Get {
    fn trait_name() -> &'static str {
        "Counter"
    }

    fn method_name(&self) -> &'static str {
        "get"
    }

    fn sequential(&self) -> bool {
        true
    }
}

#[test]
fn requests_have_names() {
    let req: Req<Get, Get, Get> = Req::Ref(Get);
    assert_eq!(req.method_name(), "get");
    assert_eq!(Req::<Get, Get, Get>::trait_name(), "Counter");
    let mut stream = ReqReceiverStream::new();
    assert!(matches!(stream.poll_next(Ok(Some(1u8))), (Some(Ok(1)), false)));
    stream.close();
    assert!(matches!(stream.poll_next(Ok(Some(1u8))), (Some(Ok(1)), true)));
    assert!(matches!(stream.poll_next::<u8>(Ok(None)), (None, _)));
}

#[test]
fn series_of_calls() {
    assert_eq!(calls::<u8, &str>(vec![Ok(1)]), Ok(1));
    assert_eq!(calls::<u8, &str>(vec![Ok(1), Ok(2), Ok(3)]), Ok(3));
    assert_eq!(calls::<u8, &str>(vec![Ok(1), Err("second"), Err("third")]), Err("second"));
    assert_eq!(calls::<u8, &str>(vec![Err("first"), Ok(2)]), Err("first"));
}
