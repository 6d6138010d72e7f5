use remoc::chmux;
use remoc::rch::base;
use remoc::rch::base::{PortDeserializer, PortSerializer};
use remoc::rch::mpsc::Ending;
use remoc::rch::watch;
use remoc::rch::watch::rate_limit::{
    decode_rate_limit, encode_rate_limit, rate_limit_channel, MAX_DURATION,
};
use remoc::rch::watch::receiver::ChangedError;
use remoc::rch::watch::transfer::{
    is_too_much, RecvEvent, RecvTask, SendEvent, SendTask, SendWait,
};
use remoc::rch::watch::{
    forward_on_event, forward_result, ForwardEvent, ForwardStep, ReceiverStream, RecvError,
    SendError, TransferStrategy,
};
use remoc::rch::{RemoteSendError, DEFAULT_MAX_ITEM_SIZE};

#[test]
fn watch_value_is_replaced() {
    let (mut tx, rx, mut limits) = watch::channel(1);
    assert_eq!(rx.borrow().ok(), Some(&1));
    assert!(tx.send(2).is_ok());
    assert_eq!(*tx.borrow(), 2);
    assert_eq!(tx.send_replace(3), 2);
    assert!(!tx.send_if_different(3));
    assert!(tx.send_if_different(4));
    let tx = tx.send_modify(|v| v + 1);
    assert_eq!(*tx.borrow(), 5);
    let (mut tx, modified) = tx.send_if_modified(|v| (v, false));
    assert!(!modified);
    let other = tx.subscribe(&mut limits);
    assert_eq!(other.borrow().ok(), Some(&5));
}

#[test]
fn closed_watch_keeps_its_value() {
    let (mut tx, _rx, _) = watch::channel(1);
    tx.closed = true;
    assert!(matches!(tx.send(2), Err(SendError::Closed)));
    assert_eq!(*tx.borrow(), 1);
    tx.publish(RemoteSendError::Forward);
    match tx.send(2) {
        Err(err) => {
            assert_eq!(err.message(), "forwarding error");
            assert!(err.is_disconnected());
            assert!(!err.is_closed());
        }
        Ok(_) => panic!("expected a failure"),
    }
}

#[test]
fn failures_are_checked_in_order() {
    let (mut tx, _rx, _) = watch::channel(1);
    assert!(tx.check().is_ok());
    tx.publish(RemoteSendError::Forward);
    tx.publish(RemoteSendError::Send(base::SendErrorKind::MaxItemSizeExceeded));
    tx.publish(RemoteSendError::Closed);
    assert!(matches!(tx.error(), Some(SendError::Forward)));
    match tx.check() {
        Err(err) => assert!(err.is_item_specific()),
        Ok(_) => panic!("expected a failure"),
    }
    tx.clear_error();
    assert!(tx.check().is_ok());
    assert!(tx.error().is_none());
}

#[test]
fn updates_are_seen_once() {
    let (_tx, mut rx, _) = watch::channel(1);
    assert!(matches!(rx.has_changed(), Ok(false)));
    assert!(rx.changed().is_none());
    rx.value = Ok(2);
    rx.mark_changed();
    assert!(matches!(rx.has_changed(), Ok(true)));
    assert!(matches!(rx.changed(), Some(Ok(()))));
    assert!(rx.changed().is_none());
    assert!(rx.wait_for(|v| *v == 3).is_none());
    assert!(matches!(rx.wait_for(|v| *v == 2), Some(Ok(()))));
    rx.sender_dropped = true;
    rx.mark_changed();
    assert!(matches!(rx.has_changed(), Ok(true)));
    rx.mark_unchanged();
    assert!(matches!(rx.has_changed(), Err(ChangedError::Closed)));
    match rx.changed() {
        Some(Err(err)) => {
            assert!(err.is_closed());
            assert_eq!(err.message(), "closed");
        }
        _ => panic!("expected a closed channel"),
    }
    rx.value = Err(RecvError::Connect(chmux::ConnectError::ChMux));
    assert!(matches!(rx.has_changed(), Err(ChangedError::Recv(_))));
    assert_eq!(
        rx.borrow().err().unwrap().message(),
        "connect error: multiplexer error"
    );
}

#[test]
fn watch_stream_starts_with_the_current_value() {
    let (_tx, rx, _) = watch::channel(1);
    let mut stream = ReceiverStream::new(rx);
    assert!(matches!(stream.poll_next(), Some(Some(Ok(1)))));
    assert!(stream.poll_next().is_none());
    stream.rx.value = Ok(2);
    stream.rx.mark_changed();
    assert!(matches!(stream.poll_next(), Some(Some(Ok(2)))));
    stream.rx.sender_dropped = true;
    assert!(matches!(stream.poll_next(), Some(None)));
}

#[test]
fn rate_limits_are_combined() {
    let (first, mut limits) = rate_limit_channel(100);
    let second = first.duplicate(&mut limits);
    assert_eq!(limits.get(), 100);
    second.set(&mut limits, 30);
    assert!(limits.changed);
    assert_eq!(limits.get_and_update(), 30);
    assert!(!limits.changed);
    first.set(&mut limits, 0);
    assert_eq!(limits.get(), 0);
    first.drop(&mut limits);
    assert_eq!(limits.get(), 30);
    second.drop(&mut limits);
    assert_eq!(limits.get(), 0);
}

#[test]
fn rate_limit_messages() {
    let msg = encode_rate_limit(0x0102);
    assert_eq!(msg.len(), 17);
    assert_eq!(msg[..4], [3, 2, 1, 0]);
    assert_eq!(decode_rate_limit(&msg), Some(0x0102));
    assert_eq!(decode_rate_limit(&vec![3, 1, 2]), None);
    assert!(!is_too_much(&encode_rate_limit(MAX_DURATION)));
    assert!(is_too_much(&encode_rate_limit(MAX_DURATION + 1)));
}

#[test]
fn strategies_have_numbers() {
    for strategy in [
        TransferStrategy::Single,
        TransferStrategy::GlobalBuffered,
        TransferStrategy::ChannelBuffered,
    ] {
        assert_eq!(TransferStrategy::from_tag(strategy.to_tag()), strategy);
    }
    assert_eq!(TransferStrategy::ChannelBuffered.to_tag(), 59);
    assert_eq!(TransferStrategy::from_tag(200), TransferStrategy::ChannelBuffered);
    assert_eq!(TransferStrategy::default(), TransferStrategy::ChannelBuffered);
}

#[test]
fn values_are_delayed_by_the_longer_limit() {
    let mut task = SendTask::new(TransferStrategy::Single, 50);
    assert_eq!(task.wait(80, 1000), SendWait::Forever);
    assert!(!task.on_event(SendEvent::ValueChanged(Ok(()))).send);
    assert_eq!(task.wait(80, 1000), SendWait::Over);
    let sent = task.on_sent(Ok(()), 1000);
    assert!(sent.await_received && !sent.stop && sent.publish.is_none());
    task.on_event(SendEvent::ValueChanged(Ok(())));
    assert_eq!(task.wait(80, 1010), SendWait::For(70));
    assert_eq!(task.wait(0, 1010), SendWait::For(40));
    assert_eq!(task.wait(80, 1080), SendWait::Over);
    let effect = task.on_event(SendEvent::Backchannel(Ok(Some(encode_rate_limit(0)))));
    assert_eq!(effect.receiver_rate_limit, Some(0));
    assert_eq!(task.wait(0, 1010), SendWait::Over);
}

#[test]
fn final_value_is_sent_at_once() {
    let mut task = SendTask::new(TransferStrategy::ChannelBuffered, 1_000_000);
    task.on_event(SendEvent::ValueChanged(Ok(())));
    task.on_sent(Ok(()), 1000);
    task.on_event(SendEvent::ValueChanged(Ok(())));
    assert!(task.goes_on());
    assert!(task.on_event(SendEvent::ValueChanged(Err(()))).send);
    assert!(!task.goes_on());
    assert!(!task.global_credits_allowed());
    let mut task = SendTask::new(TransferStrategy::GlobalBuffered, 0);
    assert!(task.global_credits_allowed());
    assert!(!task.on_event(SendEvent::Backchannel(Ok(None))).send);
    assert!(!task.goes_on());
}

#[test]
fn failure_to_send_is_published() {
    let mut task = SendTask::new(TransferStrategy::Single, 0);
    task.on_event(SendEvent::ValueChanged(Ok(())));
    let sent = task.on_sent(Err(base::SendErrorKind::MaxItemSizeExceeded), 5);
    assert!(sent.stop);
    assert!(matches!(sent.publish, Some(RemoteSendError::Send(_))));
    let effect = task.on_event(SendEvent::Backchannel(Ok(Some(vec![2]))));
    assert!(matches!(effect.publish, Some(RemoteSendError::Forward)));
}

#[test]
fn receiving_task_reports_back() {
    let mut task = RecvTask::new(&Some(RemoteSendError::Forward));
    assert!(task.current_err);
    let step = task.on_event::<u8>(RecvEvent::CurrentError);
    assert_eq!(step.send_back, Some(vec![2]));
    assert!(!task.current_err);
    let step = task.on_event::<u8>(RecvEvent::RateLimitChanged(7));
    assert_eq!(step.send_back, Some(encode_rate_limit(7)));
    let step = task.on_event::<u8>(RecvEvent::RateLimitChanged(7));
    assert_eq!(step.send_back, None);
    let step = task.on_event(RecvEvent::Received(Ok(Some(Ok(9u8)))));
    assert!(matches!(step.deliver, Some(Ok(9))));
    assert_eq!(step.ending, Ending::IfRefused);
    let step = task.on_event::<u8>(RecvEvent::Received(Ok(None)));
    assert_eq!(step.ending, Ending::Now);
    let lost = base::RecvError::Receive(chmux::RecvError::ChMux);
    let step = task.on_event::<u8>(RecvEvent::Received(Err(lost)));
    assert!(matches!(step.deliver, Some(Err(RecvError::Receive(_)))));
    assert_eq!(step.ending, Ending::Now);
}

#[test]
fn watch_halves_travel() {
    let (mut tx, rx, mut limits) = watch::channel(6u8);
    tx.set_rate_limit(5);
    rx.receiver_rate_limit.set(&mut limits, 9);
    let mut ports = PortSerializer::start();
    let sent = tx.serialize(&limits, &mut ports, Ok(1), 10).ok().unwrap();
    assert_eq!((sent.sender_rate_limit, sent.receiver_rate_limit), (5, 0));
    let mut accepted = PortDeserializer::start();
    let (received, shared, place) =
        watch::Sender::deserialize(sent, &mut accepted, 11).ok().unwrap();
    assert_eq!(place.get(&shared), 0);
    assert_eq!(*received.borrow(), 6);
    assert_eq!(received.rate_limit(), 5);
    assert_eq!(received.max_item_size(), DEFAULT_MAX_ITEM_SIZE);
    let (sent, place) = rx.serialize(&mut limits, &mut ports, Ok(2), 20).ok().unwrap();
    assert_eq!((sent.port, sent.rate_limit), (2, 9));
    assert_eq!(place.get(&limits), 9);
    let (received, _) = watch::Receiver::deserialize(sent, 100, &mut accepted, 21);
    assert_eq!(received.borrow().ok(), Some(&6));
    assert_eq!(received.max_item_size(), 100);
    assert_eq!(received.remote_max_item_size(), Some(DEFAULT_MAX_ITEM_SIZE));
}

#[test]
fn sent_sender_leaves_the_limits_to_receivers() {
    let (mut tx, mut rx, mut limits) = watch::channel(6u8);
    rx.set_rate_limit(&mut limits, 9);
    let other = rx.duplicate(&mut limits);
    assert_eq!(other.rate_limit(&limits), 9);
    assert_eq!(limits.get(), 0);
    tx.publish(RemoteSendError::Forward);
    let mut ports = PortSerializer::start();
    tx.serialize(&limits, &mut ports, Ok(1), 10).ok().unwrap();
    let successor = tx.drop(&mut limits).unwrap();
    let (task, errors) = successor.take_over(&mut limits);
    assert!(!task.current_err);
    assert_eq!(errors.len(), 1);
    assert!(matches!(limits.changed(), Some(Ok(()))));
    assert!(limits.changed().is_none());
    assert_eq!(limits.get(), 9);
    rx.drop(&mut limits);
    other.drop(&mut limits);
    assert!(matches!(limits.changed(), Some(Ok(()))));
    assert!(matches!(limits.changed(), Some(Err(()))));
}

#[test]
fn watch_sender_with_a_failure_is_refused() {
    let mut ports = PortDeserializer::start();
    let sent: watch::sender::TransportedSender<u8> = watch::sender::TransportedSender {
        port: 1,
        data: Err(RecvError::Remote(None)),
        max_item_size: 5,
        sender_rate_limit: 0,
        receiver_rate_limit: 0,
        transfer_strategy: TransferStrategy::Single,
    };
    let refused = watch::Sender::deserialize(sent, &mut ports, 1);
    assert_eq!(refused.err().unwrap(), "received watch data with error");
}

#[test]
fn watch_forwarding() {
    let (mut tx, _rx, _) = watch::channel(1);
    assert!(matches!(forward_on_event(&mut tx, ForwardEvent::Changed(2)), ForwardStep::GoOn));
    assert_eq!(*tx.borrow(), 2);
    assert!(matches!(
        forward_on_event(&mut tx, ForwardEvent::LocalDropped),
        ForwardStep::Finish(Ok(()))
    ));
    tx.publish(RemoteSendError::Send(base::SendErrorKind::MaxItemSizeExceeded));
    assert!(matches!(
        forward_on_event(&mut tx, ForwardEvent::Closed),
        ForwardStep::Finish(Err(SendError::Send(_)))
    ));
    assert!(matches!(forward_result(None), Err(SendError::Closed)));
    let tx = watch::with_max_item_size(watch_pair(), 3).0;
    assert_eq!(tx.max_item_size(), 3);
}

fn watch_pair() -> (watch::Sender<u8>, watch::Receiver<u8>) {
    let (tx, rx, _) = watch::channel(0u8);
    watch::with_transfer_strategy((tx, rx), TransferStrategy::Single)
}
