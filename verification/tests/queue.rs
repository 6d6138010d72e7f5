use remoc::chmux;
use remoc::rch::mpsc::queue::queue_channel;
use remoc::rch::mpsc::sender::KeepEvent;
use remoc::rch::mpsc::{RecvError, SendError, SendReq, TryRecvError, TrySendError};
use remoc::rch::oneshot;
use remoc::rch::{ClosedReason, RemoteSendError, DEFAULT_MAX_ITEM_SIZE};

#[test]
fn queued_values_are_received_in_order() {
    let (tx, mut rx) = queue_channel(2);
    assert_eq!(tx.capacity(), 2);
    assert_eq!(tx.max_item_size, DEFAULT_MAX_ITEM_SIZE);
    assert!(tx.try_send("a", Some(7)).is_ok());
    assert!(tx.try_send("b", None).is_ok());
    assert_eq!(tx.capacity(), 0);
    match tx.try_send("c", None) {
        Err(TrySendError::Full(value)) => assert_eq!(value, "c"),
        _ => panic!("expected a full queue"),
    }
    assert_eq!(rx.len(), 2);
    assert!(!rx.is_empty());
    assert!(matches!(rx.try_recv(), (Some(Ok("a")), Some(7))));
    assert!(matches!(rx.try_recv(), (Some(Ok("b")), None)));
    assert!(matches!(rx.try_recv(), (Some(Err(TryRecvError::Empty)), None)));
    assert!(rx.is_empty());
    drop(tx);
    assert!(matches!(rx.try_recv(), (Some(Err(TryRecvError::Closed)), None)));
}

#[test]
fn queue_of_a_dropped_receiver_takes_nothing() {
    let (tx, rx) = queue_channel(1);
    assert!(tx.try_reserve().is_ok());
    drop(rx);
    match tx.try_send(4u8, None) {
        Err(TrySendError::Closed(value)) => assert_eq!(value, 4),
        _ => panic!("expected a closed queue"),
    }
    assert!(matches!(tx.try_reserve(), Err(TrySendError::Closed(()))));
    assert!(matches!(
        oneshot::send_queued(tx, 5u8, None),
        Err(oneshot::SendError::Closed(5))
    ));
}

#[test]
fn reserved_room_is_used() {
    let (tx, mut rx) = queue_channel(1);
    let permit = tx.try_reserve().ok().unwrap();
    assert!(matches!(tx.try_reserve(), Err(TrySendError::Full(()))));
    permit.send(6u8, Some(1));
    assert!(matches!(rx.try_recv(), (Some(Ok(6)), Some(1))));
    assert!(oneshot::send_queued(tx, 7u8, Some(9)).is_ok());
    assert!(matches!(rx.try_recv(), (Some(Ok(7)), Some(9))));
}

#[test]
fn closing_is_published() {
    let (tx, mut rx) = queue_channel::<u8>(1);
    assert!(!tx.is_closed());
    rx.close();
    assert!(rx.state.closed);
    assert_eq!(tx.closed_reason(), Some(ClosedReason::Closed));
    assert!(tx.is_closed());
    assert_eq!(tx.capacity(), 0);
}

#[test]
fn closed_queue_takes_nothing() {
    let (mut tx, mut rx) = queue_channel(4);
    assert!(tx.try_send(1u8, None).is_ok());
    rx.close();
    assert!(matches!(tx.try_send(2, None), Err(TrySendError::Closed(2))));
    assert!(matches!(tx.try_reserve(), Err(TrySendError::Closed(()))));
    assert!(matches!(rx.try_recv(), (Some(Ok(1)), None)));
    assert!(matches!(rx.try_recv(), (Some(Err(TryRecvError::Empty)), None)));
    tx.on_keep_event(KeepEvent::Closed(None));
    assert!(tx.tx.is_some());
    tx.on_keep_event(KeepEvent::Closed(tx.closed_reason()));
    assert!(tx.tx.is_none());
    assert!(matches!(tx.try_send(3, None), Err(TrySendError::Closed(3))));
    assert!(matches!(rx.try_recv(), (Some(Err(TryRecvError::Closed)), None)));
}

#[test]
fn published_failure_ends_sending() {
    let (tx, rx) = queue_channel(1);
    assert!(rx.remote_send_err_tx.send(Some(RemoteSendError::Forward)).is_ok());
    assert!(matches!(tx.try_send(1u8, None), Err(TrySendError::Forward)));
    assert!(matches!(tx.try_reserve(), Err(TrySendError::Forward)));
    assert_eq!(tx.closed_reason(), Some(ClosedReason::Failed));
    let err = SendError::try_from(TrySendError::<u8>::Forward);
    assert!(matches!(err, Ok(SendError::Forward)));
}

#[test]
fn failed_connection_in_a_queue_is_held_back() {
    let (tx, mut rx) = queue_channel(2);
    let queue = tx.tx.as_ref().unwrap().clone();
    let lost = RecvError::Connect(chmux::ConnectError::ChMux);
    assert!(queue.try_send(SendReq::new(Err(lost))).is_ok());
    assert!(tx.try_send(3u8, None).is_ok());
    assert!(matches!(rx.try_recv(), (None, None)));
    assert!(matches!(rx.try_recv(), (Some(Ok(3)), None)));
    drop(queue);
    drop(tx);
    assert!(matches!(rx.try_recv(), (Some(Err(TryRecvError::Connect(_))), None)));
}
