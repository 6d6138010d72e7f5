use remoc::chmux;
use remoc::codec::DeserializationError;
use remoc::rch::base;
use remoc::rch::base::{PortDeserializer, PortSerializer};
use remoc::rch::bin;
use remoc::rch::bin::sender::ConnectAction;
use remoc::rch::broadcast;
use remoc::rch::broadcast::BroadcastMsg;
use remoc::rch::lr;
use remoc::rch::mpsc;
use remoc::rch::mpsc::receiver::Taken;
use remoc::rch::mpsc::sender::Queued;
use remoc::rch::oneshot;
use remoc::rch::oneshot::{forward_on_event, forward_on_sent, forward_result, ForwardEvent};
use remoc::rch::{
    on_accepted, on_connected, ConnectError, Confirmation, Location, SendErrorExt,
    SendingError, SendingErrorKind, DEFAULT_MAX_ITEM_SIZE,
};

#[test]
fn oneshot_value_arrives() {
    let (tx, mut rx) = oneshot::channel();
    assert_eq!(tx.max_item_size(), DEFAULT_MAX_ITEM_SIZE);
    assert!(!tx.is_closed());
    assert!(matches!(tx.send(5u8, Queued::Queued), Ok(5)));
    assert!(matches!(rx.poll(Some(Ok(5u8))), Some(Ok(5))));
    assert!(matches!(rx.poll::<u8>(None), Some(Err(oneshot::RecvError::Closed))));
}

#[test]
fn oneshot_failures() {
    let (tx, mut rx) = oneshot::with_max_item_size(oneshot::channel(), 9);
    assert_eq!(tx.max_item_size(), 9);
    assert_eq!(rx.max_item_size(), 9);
    match tx.send("v", Queued::Closed) {
        Err(err) => {
            assert!(err.is_closed());
            assert!(err.is_disconnected());
            assert!(!SendErrorExt::is_item_specific(&err));
            assert_eq!(err.message(), "channel is closed");
            assert!(matches!(err, oneshot::SendError::Closed("v")));
        }
        Ok(_) => panic!("expected a closed channel"),
    }
    assert!(matches!(rx.try_recv::<u8>(Taken::Empty), Some(Err(oneshot::TryRecvError::Empty))));
    let failed = mpsc::RecvError::Connect(chmux::ConnectError::Rejected);
    assert!(rx.poll::<u8>(Some(Err(failed))).is_none());
    match rx.poll::<u8>(None) {
        Some(Err(err)) => {
            assert!(err.is_disconnected());
            assert_eq!(err.message(), "connect error: connection has been rejected");
        }
        _ => panic!("expected a failure"),
    }
}

#[test]
fn oneshot_errors_correspond() {
    let err = oneshot::RecvError::from(mpsc::RecvError::Remote(None));
    assert_eq!(err.message(), "unknown remote error");
    let nested = mpsc::RecvError::Remote(Some(Box::new(mpsc::RecvError::Listen(
        chmux::ListenerError::LocalPortsExhausted,
    ))));
    let err = oneshot::RecvError::from_mpsc(nested);
    assert_eq!(err.message(), "remote listen error: all local ports are in use");
    assert!(oneshot::RecvError::try_from(oneshot::TryRecvError::Empty).is_err());
    assert!(oneshot::RecvError::try_from(oneshot::TryRecvError::Closed).is_ok());
}

#[test]
fn oneshot_forwarding() {
    assert!(matches!(forward_on_event(ForwardEvent::Local(Some(3u8))), Ok(3)));
    assert!(matches!(forward_on_event::<u8>(ForwardEvent::Closed), Err(Ok(()))));
    assert!(matches!(forward_on_event::<u8>(ForwardEvent::Local(None)), Err(Ok(()))));
    assert!(forward_on_sent::<u8>(Err(oneshot::SendError::Closed(1))).is_ok());
    assert!(forward_on_sent::<u8>(Err(oneshot::SendError::Failed)).is_err());
    assert!(matches!(forward_result(None), Err(oneshot::SendError::Closed(()))));
}

#[test]
fn broadcast_values_and_lag() {
    let (_tx, rx) = mpsc::channel(4);
    let mut rx = broadcast::Receiver::new(rx);
    assert!(matches!(rx.recv(Some(Ok(BroadcastMsg::Value(1u8)))), Some(Ok(1))));
    match rx.recv::<u8>(Some(Ok(BroadcastMsg::Lagged))) {
        Some(Err(err)) => {
            assert!(err.is_lagged());
            assert!(!err.is_closed());
            assert!(!err.is_disconnected());
            assert_eq!(err.message(), "receiver lagged behind");
        }
        _ => panic!("expected a lagging receiver"),
    }
    assert!(matches!(rx.recv::<u8>(None), Some(Err(broadcast::RecvError::Closed))));
    match rx.try_recv::<u8>(Taken::Empty) {
        Some(Err(err)) => {
            assert!(err.is_empty());
            assert_eq!(err.message(), "channel empty");
            assert!(broadcast::RecvError::try_from(err).is_err());
        }
        _ => panic!("expected an empty channel"),
    }
}

#[test]
fn broadcast_stream_ends_when_closed() {
    assert!(matches!(broadcast::receiver::stream_next(Ok(4u8)), Some(Ok(4))));
    assert!(broadcast::receiver::stream_next::<u8>(Err(broadcast::RecvError::Closed)).is_none());
    match broadcast::receiver::stream_next::<u8>(Err(broadcast::RecvError::Lagged)) {
        Some(Err(err)) => assert!(err.is_lagged()),
        _ => panic!("expected a lagging receiver"),
    }
    assert!(broadcast::StreamError::try_from(broadcast::RecvError::Closed).is_err());
}

#[test]
fn local_remote_halves_connect() {
    let (mut tx, mut rx, mut interlock) = lr::channel();
    let mut ports = PortSerializer::start();
    let sent = tx
        .serialize(&mut interlock, Confirmation::Waiting, &mut ports, Ok(3), 30)
        .ok()
        .unwrap();
    assert_eq!(sent.port, 3);
    assert_eq!(ports.requests, vec![(3, 30)]);
    assert_eq!(interlock.receiver, Location::Sending);
    let mut accepted = PortDeserializer::start();
    let (remote, mut other) = lr::Sender::deserialize(sent, &mut accepted, 31);
    assert_eq!(accepted.expected.get(&3), Some(&31));
    let refused = remote.serialize(&mut other, Confirmation::Waiting, &mut ports, Ok(4), 40);
    assert_eq!(refused.err().unwrap(), "cannot forward received sender");
    let again = tx.serialize(&mut interlock, Confirmation::Confirmed, &mut ports, Ok(5), 50);
    assert_eq!(again.err().unwrap(), "cannot send sender because receiver has been sent");
    assert_eq!(rx.get(Some(Ok(()))), Ok(()));
    assert_eq!(rx.get(None), Ok(()));
    assert_eq!(tx.get(None), Err(ConnectError::Dropped));
    assert_eq!(lr::Sender::is_closed(Ok(()), true), Ok(true));
}

#[test]
fn received_receiver_cannot_be_forwarded() {
    let (_tx, rx, mut interlock) = lr::channel();
    let mut ports = PortSerializer::start();
    let sent = rx
        .serialize(&mut interlock, Confirmation::Waiting, &mut ports, Ok(3), 30)
        .ok()
        .unwrap();
    let mut accepted = PortDeserializer::start();
    let (remote, mut other) = lr::Receiver::deserialize(sent, &mut accepted, 31);
    let refused = remote.serialize(&mut other, Confirmation::Waiting, &mut ports, Ok(4), 40);
    assert_eq!(refused.err().unwrap(), "cannot forward received receiver");
    let again = rx.serialize(&mut interlock, Confirmation::Waiting, &mut ports, Ok(5), 50);
    assert_eq!(again.err().unwrap(), "cannot send receiver because sender has been sent");
}

#[test]
fn only_one_half_is_sent() {
    let (tx, rx, mut interlock) = lr::channel();
    let mut ports = PortSerializer::start();
    assert!(tx.serialize(&mut interlock, Confirmation::Waiting, &mut ports, Ok(3), 30).is_ok());
    let other = rx.serialize(&mut interlock, Confirmation::Waiting, &mut ports, Ok(4), 40);
    assert_eq!(other.err().unwrap(), "cannot send receiver because sender has been sent");
    assert_eq!(ports.requests, vec![(3, 30)]);
    assert!(rx.serialize(&mut interlock, Confirmation::Abandoned, &mut ports, Ok(5), 50).is_ok());
    let other = tx.serialize(&mut interlock, Confirmation::Confirmed, &mut ports, Ok(6), 60);
    assert_eq!(other.err().unwrap(), "cannot send sender because receiver has been sent");
}

#[test]
fn local_remote_results() {
    match lr::Sender::send_result(Err(ConnectError::Dropped), "v", Ok(())) {
        Err(err) => {
            assert!(err.is_disconnected());
            assert!(!err.is_item_specific());
            assert_eq!(err.message(), "connect error: other part was dropped");
            assert_eq!(err.item, "v");
        }
        Ok(_) => panic!("expected a failure"),
    }
    let kind = base::SendErrorKind::MaxItemSizeExceeded;
    match lr::Sender::send_result(Ok(()), "v", Err(kind)) {
        Err(err) => {
            assert!(err.is_item_specific());
            assert_eq!(err.message(), "maximum item size exceeded");
        }
        Ok(_) => panic!("expected a failure"),
    }
    let bad = base::RecvError::Deserialize(DeserializationError::new("bad".to_string()));
    match lr::Receiver::recv_result::<u8>(Ok(()), Err(bad)) {
        Err(err) => {
            assert!(!err.is_disconnected());
            assert_eq!(err.message(), "deserialization error: bad");
        }
        Ok(_) => panic!("expected a failure"),
    }
    let err = lr::receiver::RecvError::from(base::RecvError::MissingPorts(vec![7, 8]));
    assert_eq!(err.message(), "missing chmux ports: 7, 8");
    let err = lr::receiver::RecvError::from(ConnectError::Dropped);
    assert!(err.is_disconnected());
}

#[test]
fn binary_sender_connects_locally() {
    let (mut tx, _) = bin::channel();
    assert_eq!(tx.connect(), ConnectAction::RequestLocal);
    assert_eq!(tx.on_requested(true), ConnectAction::AwaitReply);
    assert_eq!(tx.on_reply(Some(12)), ConnectAction::Finished);
    assert_eq!(tx.get(), Ok(12));
}

#[test]
fn binary_sender_connects_remotely() {
    let (mut tx, _) = bin::channel();
    assert_eq!(tx.on_requested(true), ConnectAction::AwaitReply);
    assert_eq!(tx.on_reply(None), ConnectAction::AwaitRemote);
    assert_eq!(tx.on_remote(None), ConnectAction::Finished);
    assert_eq!(tx.get(), Err(ConnectError::Dropped));
}

#[test]
fn binary_sender_travels() {
    let (mut tx, mut interlock) = bin::channel();
    let mut ports = PortSerializer::start();
    let sent = tx
        .serialize(&mut interlock, Confirmation::Waiting, &mut ports, Ok(3), 30, 31, 32)
        .ok()
        .unwrap();
    assert_eq!(ports.requests, vec![(3, 30)]);
    assert!(ports.tasks.is_empty());
    let mut accepted = PortDeserializer::start();
    let (mut remote, mut other) = bin::Sender::deserialize(sent, &mut accepted, 33);
    let mut ports = PortSerializer::start();
    let forwarded = remote
        .serialize(&mut other, Confirmation::Waiting, &mut ports, Ok(4), 40, 41, 42)
        .ok()
        .unwrap();
    assert_eq!(forwarded.port, 4);
    assert_eq!(ports.requests, vec![(4, 41)]);
    assert_eq!(ports.tasks, vec![42]);
    assert!(remote.drop().is_some());
    assert!(tx.drop().is_none());
}

#[test]
fn connection_results() {
    assert_eq!(on_connected(Ok(())), Ok(()));
    assert_eq!(
        on_connected(Err(chmux::ConnectError::Rejected)),
        Err(ConnectError::Connect(chmux::ConnectError::Rejected))
    );
    assert_eq!(
        on_accepted(Err(chmux::ListenerError::MultiplexerError)).err().unwrap().message(),
        "listen error: multiplexer error"
    );
    assert_eq!(chmux::RecvError::ExceedsMaxDataSize(70).message(),
        "data exceeds maximum allowed size of 70 bytes");
    let sending: SendingError<u8> = SendingError::Dropped;
    assert!(matches!(sending.kind(), SendingErrorKind::Dropped));
    assert_eq!(SendingErrorKind::Dropped.message(), "channel was dropped");
}
