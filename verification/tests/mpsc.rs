use remoc::chmux;
use remoc::rch::base;
use remoc::rch::base::{PortDeserializer, PortSerializer};
use remoc::rch::mpsc;
use remoc::rch::mpsc::receiver::{DropAction, Taken};
use remoc::rch::mpsc::sender::{drop_when_closed, establish, KeepEvent, Queued, SenderSink};
use remoc::rch::mpsc::{
    forward_on_reserved, forward_on_value, forward_result, Dispatch, Ending, ForwardStep,
    RecvError, RecvTask, RoundRobin, SendError, SendReq, SendTask, TryRecvError, TrySendError,
};
use remoc::rch::{
    max_item_size_from_wire, max_item_size_to_wire, ClosedReason, RemoteSendError, SendErrorExt,
    BACKCHANNEL_MSG_CLOSE, BACKCHANNEL_MSG_ERROR, DEFAULT_MAX_ITEM_SIZE,
};

fn failed() -> RecvError {
    RecvError::Connect(chmux::ConnectError::ChMux)
}

#[test]
fn mpsc_channel_starts_open() {
    let (tx, rx) = mpsc::channel(3);
    assert_eq!(tx.capacity(), 3);
    assert!(!tx.is_closed());
    assert_eq!(tx.closed_reason(), None);
    assert_eq!(tx.max_item_size(), DEFAULT_MAX_ITEM_SIZE);
    assert_eq!(rx.max_item_size(), DEFAULT_MAX_ITEM_SIZE);
    let (tx, rx) = mpsc::with_max_item_size((tx, rx), 77);
    let (tx, rx) = mpsc::with_parallel((tx, rx), 4);
    assert_eq!((tx.max_item_size(), rx.max_item_size()), (77, 77));
    assert_eq!((tx.parallel(), rx.parallel()), (Some(4), Some(4)));
}

#[test]
fn refused_value_is_handed_back() {
    let (tx, _rx) = mpsc::channel(1);
    assert!(matches!(tx.send("a", true), Ok("a")));
    match tx.send("b", false) {
        Err(SendError::Closed(value)) => assert_eq!(value, "b"),
        _ => panic!("expected a closed channel"),
    }
    match tx.try_send("c", Queued::Full) {
        Err(TrySendError::Full(value)) => assert_eq!(value, "c"),
        _ => panic!("expected a full channel"),
    }
    match tx.try_send("d", Queued::Closed) {
        Err(err) => {
            assert!(err.is_closed());
            assert!(err.is_disconnected());
        }
        Ok(_) => panic!("expected a closed channel"),
    }
    assert!(matches!(tx.try_send("e", Queued::Queued), Ok("e")));
    assert!(tx.reserve(true).is_ok());
    assert!(tx.try_reserve(Queued::Full).is_err());
}

#[test]
fn published_failure_is_reported() {
    let (mut tx, _rx) = mpsc::channel(1);
    tx.remote_send_err = Some(RemoteSendError::Forward);
    match tx.send(1u8, true) {
        Err(err) => {
            assert!(matches!(err, SendError::Forward));
            assert!(err.is_disconnected());
            assert!(!err.is_closed());
            assert_eq!(err.message(), "forwarding error");
            assert_eq!(SendErrorExt::is_closed(&err), false);
        }
        Ok(_) => panic!("expected a failure"),
    }
    assert!(tx.is_closed());
    assert_eq!(tx.closed_reason(), Some(ClosedReason::Failed));
}

#[test]
fn values_are_received_in_order() {
    let (_tx, mut rx) = mpsc::channel(4);
    assert!(matches!(rx.recv(Some(Ok(1u8))), Some(Ok(Some(1)))));
    assert!(matches!(rx.recv(Some(Ok(2u8))), Some(Ok(Some(2)))));
    assert!(matches!(rx.recv::<u8>(None), Some(Ok(None))));
}

#[test]
fn failed_connection_is_reported_after_all_values() {
    let (_tx, mut rx) = mpsc::channel(4);
    assert!(rx.recv::<u8>(Some(Err(failed()))).is_none());
    assert!(rx.error().is_some());
    assert!(matches!(rx.recv(Some(Ok(2u8))), Some(Ok(Some(2)))));
    assert!(matches!(rx.recv::<u8>(None), Some(Err(RecvError::Connect(_)))));
    assert!(matches!(rx.recv::<u8>(None), Some(Ok(None))));
}

#[test]
fn other_failures_are_reported_at_once() {
    let (_tx, mut rx) = mpsc::channel(4);
    let err = RecvError::Receive(base::RecvError::MaxItemSizeExceeded);
    match rx.recv::<u8>(Some(Err(err))) {
        Some(Err(err)) => {
            assert!(!err.is_disconnected());
            assert_eq!(err.message(), "receive error: maximum item size exceeded");
        }
        _ => panic!("expected the failure"),
    }
}

#[test]
fn try_recv_tells_empty_from_closed() {
    let (_tx, mut rx) = mpsc::channel(4);
    assert!(matches!(rx.try_recv::<u8>(Taken::Empty), Some(Err(TryRecvError::Empty))));
    assert!(matches!(rx.try_recv(Taken::Item(Ok(7u8))), Some(Ok(7))));
    assert!(rx.try_recv::<u8>(Taken::Item(Err(failed()))).is_none());
    assert!(matches!(
        rx.try_recv::<u8>(Taken::Disconnected),
        Some(Err(TryRecvError::Connect(_)))
    ));
    assert!(matches!(rx.try_recv::<u8>(Taken::Disconnected), Some(Err(TryRecvError::Closed))));
    assert!(RecvError::try_from(TryRecvError::Empty).is_err());
    assert!(RecvError::try_from(TryRecvError::from(failed())).is_ok());
}

#[test]
fn batches_are_received() {
    let (_tx, mut rx) = mpsc::channel(4);
    let mut buffer: Vec<u8> = vec![9];
    let batch = vec![Ok(1u8), Err(failed()), Ok(2u8)];
    assert_eq!(mpsc::Receiver::batch_limit(10, 4), 4);
    assert_eq!(mpsc::Receiver::batch_limit(3, 4), 3);
    assert!(matches!(rx.recv_many(&mut buffer, 3, 4, batch), Ok(2)));
    assert_eq!(buffer, vec![9, 1, 2]);
    assert!(rx.take_error().is_some());
}

#[test]
fn closing_and_dropping_a_receiver() {
    let (_tx, mut rx) = mpsc::channel(4);
    assert_eq!(rx.close(), ClosedReason::Closed);
    assert!(rx.closed);
    let (_tx, rx) = mpsc::channel(4);
    assert!(matches!(rx.drop(), DropAction::PublishDropped));
}

#[test]
fn senders_travel() {
    let (tx, _rx) = mpsc::channel(4);
    let mut ports = PortSerializer::start();
    let sent = tx
        .serialize(&mut ports, vec![], &vec![], Ok(11), 100)
        .ok()
        .unwrap();
    assert_eq!(sent.port, Some(11));
    assert_eq!(sent.max_item_size, DEFAULT_MAX_ITEM_SIZE as u64);
    assert_eq!(ports.requests, vec![(11, 100)]);
    let mut accepted = PortDeserializer::start();
    let (received, _) = mpsc::Sender::deserialize(sent, &mut accepted, 2, &vec![], 200);
    assert!(!received.is_closed());
    assert_eq!(accepted.expected.get(&11), Some(&200));
}

#[test]
fn receivers_travel() {
    let (_tx, mut rx) = mpsc::channel(4);
    let mut ports = PortSerializer::start();
    let sent = rx
        .serialize(&mut ports, vec![Ok(21)], &vec![1], Ok(20), 2)
        .ok()
        .unwrap();
    assert_eq!(sent.port, 20);
    assert_eq!(sent.parallel, vec![21]);
    assert_eq!(ports.requests, vec![(21, 1), (20, 2)]);
    let mut accepted = PortDeserializer::start();
    let (received, _) = mpsc::Receiver::deserialize(sent, &mut accepted, 50, &vec![3], 4);
    assert_eq!(received.remote_max_item_size(), Some(DEFAULT_MAX_ITEM_SIZE));
    assert_eq!(accepted.expected.get(&20), Some(&4));
    assert_eq!(accepted.expected.get(&21), Some(&3));
}

#[test]
fn sent_half_gets_its_ports_connected() {
    let (tx, _rx) = mpsc::channel(4);
    let mut ports = PortSerializer::start();
    let allocated = vec![Ok(21), Err("none free".to_string()), Ok(23)];
    let sent = tx.serialize(&mut ports, allocated, &vec![1, 2, 3], Ok(20), 4).ok().unwrap();
    assert_eq!(ports.requests, vec![(21, 1), (23, 3), (20, 4)]);
    let mut accepted = PortDeserializer::start();
    mpsc::Sender::deserialize(sent, &mut accepted, 2, &vec![5, 6], 7);
    let requested = ports.requests.iter().map(|request| request.0).collect();
    assert_eq!(accepted.take_requested(&requested), vec![(21, 5), (23, 6), (20, 7)]);
    assert!(accepted.missing().is_empty());
}

#[test]
fn size_limits_travel() {
    assert_eq!(max_item_size_to_wire(12), 12);
    assert_eq!(max_item_size_from_wire(12), 12);
    assert_eq!(max_item_size_from_wire(u64::MAX), usize::MAX);
}

#[test]
fn channels_take_turns() {
    let mut turns = RoundRobin::new(3);
    let mut seen = vec![];
    for _ in 0..7 {
        seen.push(turns.current());
        turns.advance();
    }
    assert_eq!(seen, vec![0, 1, 2, 0, 1, 2, 0]);
}

#[test]
fn back_channel_messages_close_the_sender() {
    let task = SendTask::new(1);
    let verdict = task.on_backchannel(Ok(Some(vec![BACKCHANNEL_MSG_CLOSE])));
    assert!(verdict.stop);
    assert!(matches!(
        verdict.publish,
        Some((RemoteSendError::Closed, ClosedReason::Closed))
    ));
    let verdict = task.on_backchannel(Ok(Some(vec![BACKCHANNEL_MSG_ERROR])));
    assert!(matches!(
        verdict.publish,
        Some((RemoteSendError::Forward, ClosedReason::Failed))
    ));
    let verdict = task.on_backchannel(Ok(None));
    assert!(matches!(verdict.publish, Some((_, ClosedReason::Dropped))));
    let verdict = task.on_backchannel(Err(()));
    assert!(matches!(verdict.publish, Some((_, ClosedReason::Failed))));
    let verdict = task.on_backchannel(Ok(Some(vec![])));
    assert!(!verdict.stop && verdict.publish.is_none());
    let verdict = task.on_backchannel(Ok(Some(vec![0xee])));
    assert!(!verdict.stop && verdict.publish.is_none());
}

#[test]
fn requests_are_spread_over_workers() {
    let mut task = SendTask::new(2);
    assert_eq!(task.on_request(true), Dispatch::Worker(0));
    assert!(!task.on_handed_over(true));
    assert_eq!(task.on_request(true), Dispatch::Worker(1));
    assert!(task.on_handed_over(false));
    assert_eq!(task.on_request(false), Dispatch::Stop);
    assert_eq!(SendTask::new(1).on_request(true), Dispatch::Direct);
    assert!(SendTask::on_sent(&Ok(())).is_none());
    assert!(matches!(
        SendTask::on_sent(&Err(base::SendErrorKind::MaxItemSizeExceeded)),
        Some((RemoteSendError::Send(_), ClosedReason::Failed))
    ));
}

#[test]
fn received_values_are_delivered() {
    let mut task = RecvTask::new(2);
    assert_eq!(task.source(), 0);
    assert!(matches!(task.on_turn(Some(Ok(Some(5u8)))), Ok(Some(5))));
    assert_eq!(task.source(), 1);
    assert!(task.on_turn::<u8>(None).is_err());
    let step = RecvTask::on_received(Ok(Some(Ok(5u8))));
    assert!(matches!(step.deliver, Some(Ok(5))));
    assert!(RecvTask::goes_on(step.ending, true));
    assert!(!RecvTask::goes_on(step.ending, false));
    let step = RecvTask::on_received::<u8>(Ok(None));
    assert_eq!(step.ending, Ending::Now);
    let lost = base::RecvError::Receive(chmux::RecvError::ChMux);
    let step = RecvTask::on_received::<u8>(Err(lost));
    assert!(matches!(step.deliver, Some(Err(RecvError::Receive(_)))));
    assert_eq!(step.ending, Ending::Now);
    let step = RecvTask::on_closed::<u8>(Ok(Some(ClosedReason::Closed)));
    assert_eq!(step.send_back, Some(BACKCHANNEL_MSG_CLOSE));
    let step = RecvTask::on_remote_send_error::<u8>(true);
    assert_eq!(step.send_back, Some(BACKCHANNEL_MSG_ERROR));
}

#[test]
fn forwarding_ends_orderly() {
    assert!(matches!(forward_on_reserved::<u8>(Ok(())), ForwardStep::Receive));
    assert!(matches!(
        forward_on_reserved::<u8>(Err(SendError::Closed(()))),
        ForwardStep::Finish(Ok(()))
    ));
    assert!(matches!(
        forward_on_reserved::<u8>(Err(SendError::Forward)),
        ForwardStep::Finish(Err(SendError::Forward))
    ));
    assert!(matches!(forward_on_value(Some(3u8)), ForwardStep::Send(3)));
    assert!(matches!(forward_on_value::<u8>(None), ForwardStep::Finish(Ok(()))));
    assert!(matches!(forward_result(None), Err(SendError::Closed(()))));
}

#[test]
fn acknowledged_requests() {
    let mut req = SendReq::new(Ok(1u8));
    assert!(matches!(req.take_value(), Ok(1)));
    let (value, _) = SendReq::new(Ok(2u8)).ack();
    assert!(matches!(value, Ok(2)));
}

fn refused<T>(item: Result<T, RecvError>) -> base::SendError<Result<T, RecvError>> {
    base::SendError::new(base::SendErrorKind::MaxItemSizeExceeded, item)
}

#[test]
fn results_reach_whoever_awaits_them() {
    let mut req = SendReq { value: Ok(1u8), result_tx: Some(9) };
    assert_eq!(req.result_ok(), Some(9));
    assert_eq!(req.result_ok(), None);
    let mut req = SendReq { value: Ok(1u8), result_tx: Some(9) };
    assert!(req.result_err(refused(Ok(1u8)), true).is_ok());
    let mut req = SendReq { value: Ok(1u8), result_tx: Some(9) };
    let unreported = req.result_err(refused(Ok(1u8)), false);
    assert!(SendTask::warns_about(&unreported));
    assert_eq!(unreported.err().unwrap().item, 1);
    let mut req = SendReq::new(Err::<u8, RecvError>(failed()));
    let unreported = req.result_err(refused(Err(failed())), false);
    assert!(unreported.is_ok());
    assert!(!SendTask::warns_about(&unreported));
}

#[test]
fn queue_is_kept_while_the_channel_is_open() {
    assert!(!drop_when_closed(KeepEvent::Closed(None)));
    assert!(drop_when_closed(KeepEvent::Closed(Some(ClosedReason::Closed))));
    assert!(drop_when_closed(KeepEvent::Dropped));
    assert!(drop_when_closed(KeepEvent::ReceiverGone));
}

#[test]
fn parallel_channels_that_failed_are_left_out() {
    assert_eq!(establish(1, &vec![Some(2), None, Some(3)]), vec![1, 2, 3]);
}

#[test]
fn sink_grants_one_item_at_a_time() {
    let mut sink = SenderSink::new();
    assert!(sink.poll_ready(None).is_none());
    assert!(matches!(sink.poll_ready(Some(Ok(()))), Some(Ok(()))));
    sink.start_send();
    assert!(sink.poll_flush::<u8>(None).is_none());
    assert!(matches!(sink.poll_flush::<u8>(Some(Ok(()))), Some(Ok(()))));
    assert!(matches!(sink.poll_close(), Some(Ok(()))));
    assert!(matches!(sink.poll_ready(Some(Ok(()))), Some(Err(_))));
    assert!(matches!(SenderSink::new_closed().poll_ready(None), Some(Err(_))));
}

#[test]
fn closed_channel_takes_nothing() {
    let (mut tx, mut rx) = mpsc::channel(4);
    tx.closed = Some(rx.close());
    assert!(matches!(tx.send(1u8, true), Err(mpsc::SendError::Closed(1))));
    assert!(matches!(tx.try_send(2u8, Queued::Queued), Err(mpsc::TrySendError::Closed(2))));
    assert!(matches!(tx.try_send(3u8, Queued::Full), Err(mpsc::TrySendError::Closed(3))));
    assert!(matches!(tx.reserve(true), Err(mpsc::SendError::Closed(()))));
    assert!(matches!(tx.try_reserve(Queued::Queued), Err(mpsc::TrySendError::Closed(()))));
    assert_eq!(tx.capacity(), 0);
    assert!(matches!(rx.recv(Some(Ok(4u8))), Some(Ok(Some(4)))));
    tx.remote_send_err = Some(RemoteSendError::Forward);
    assert!(matches!(tx.send(5u8, true), Err(mpsc::SendError::Forward)));
}

#[test]
fn failed_connections_are_reported() {
    let req: mpsc::SendReq<u8> = mpsc::Sender::on_connect_failed(chmux::ConnectError::ChMux);
    assert!(matches!(req.value, Err(mpsc::RecvError::Connect(chmux::ConnectError::ChMux))));
    assert!(req.result_tx.is_none());
    let err = mpsc::Sender::on_accept_failed(chmux::ListenerError::MultiplexerError);
    assert!(matches!(err, RemoteSendError::Listen(chmux::ListenerError::MultiplexerError)));
    let err = mpsc::Receiver::on_connect_failed(chmux::ConnectError::ChMux);
    assert!(matches!(err, RemoteSendError::Connect(chmux::ConnectError::ChMux)));
    let req: mpsc::SendReq<u8> =
        mpsc::Receiver::on_accept_failed(chmux::ListenerError::MultiplexerError);
    assert!(matches!(
        req.value,
        Err(mpsc::RecvError::Listen(chmux::ListenerError::MultiplexerError))
    ));
    assert!(req.result_tx.is_none());
}
