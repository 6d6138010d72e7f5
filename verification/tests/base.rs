use remoc::chmux;
use remoc::codec::{DeserializationError, SerializationError};
use remoc::rch::base::receiver::{
    DataSource, ErasedReceiver, FeedEvent, PortDeserializer, Progress, Received, RecvAction,
    RecvError,
};
use remoc::rch::base::sender::{
    ErasedSender, PortSerializer, RawSender, SendError, SendErrorKind, SendOutcomes, SendStep,
    Serialized, StreamError,
};
use remoc::rch::base::storage_ref::{storage_ref, StorageRef};
use remoc::rch::mpsc;
use remoc::rch::watch::{transfer, TransferStrategy};
use remoc::rch::{ClosedReason, Confirmation, Interlock, Location, RemoteSendError};

fn raw() -> RawSender {
    RawSender {
        storage: 7,
        max_data_size: 1000,
        chunk_size: 100,
        closed: false,
        all_received_supported: true,
        global_credits_allowed: false,
        sent: 0,
    }
}

fn fitting(len: usize) -> SendOutcomes {
    SendOutcomes {
        serialized: Serialized::Fits(len),
        sent: Ok(()),
        chunks: vec![],
        chunk_failure: None,
        streamed: Ok(0),
        finished: Ok(()),
        gathered: PortSerializer::start(),
        connected: Ok(()),
    }
}

#[test]
fn small_item_is_sent_in_one_piece() {
    let mut tx = ErasedSender::new(raw());
    assert!(tx.send_erased("x", fitting(200)).is_ok());
    assert_eq!(tx.last_size, 200);
    assert_eq!(tx.big_data, -1);
    match tx.start_send() {
        SendStep::Buffer { limit, capacity, .. } => {
            assert_eq!(limit, 1000);
            assert_eq!(capacity, 220);
        }
        _ => panic!("expected a buffer"),
    }
}

#[test]
fn encoding_into_a_buffer_is_judged() {
    let reason = SerializationError::new("broken".to_string());
    assert!(matches!(
        ErasedSender::serialize_buffered(Err(reason), true, 5),
        Serialized::Overflow
    ));
    assert!(matches!(ErasedSender::serialize_buffered(Ok(()), false, 5), Serialized::Fits(5)));
    let reason = SerializationError::new("broken".to_string());
    assert!(matches!(
        ErasedSender::serialize_buffered(Err(reason), false, 5),
        Serialized::Failed(_)
    ));
}

#[test]
fn raw_channel_is_accessible() {
    let mut tx = ErasedSender::new(raw());
    assert!(tx.is_all_received_supported());
    assert_eq!(tx.all_received().up_to, 0);
    assert!(!tx.are_global_credits_allowed());
    tx.set_global_credits_allowed(true);
    assert!(tx.are_global_credits_allowed());
    assert_eq!(tx.storage(), 7);
    assert!(!tx.is_closed());
    assert_eq!(tx.into_inner().max_data_size, 1000);
}

#[test]
fn oversized_item_is_refused_and_returned() {
    let mut tx = ErasedSender::new(raw());
    tx.set_max_item_size(10);
    let err = tx.send_erased("item", fitting(11)).err().unwrap();
    assert!(matches!(err.kind, SendErrorKind::MaxItemSizeExceeded));
    assert_eq!(err.item, "item");
    assert!(err.is_item_specific());
    assert!(!err.is_disconnected());
    assert_eq!(err.message(), "maximum item size exceeded");
    assert_eq!(tx.all_received().up_to, 0);
    assert!(tx.send_erased("item", fitting(10)).is_ok());
    assert_eq!(tx.all_received().up_to, 1);
}

#[test]
fn big_item_is_streamed() {
    let mut tx = ErasedSender::new(raw());
    tx.set_max_item_size(5000);
    let mut outcomes = fitting(0);
    outcomes.serialized = Serialized::Overflow;
    outcomes.chunks = vec![1000, 1000, 500];
    outcomes.streamed = Ok(2500);
    assert!(tx.send_erased((), outcomes).is_ok());
    assert_eq!(tx.big_data, 1);
    assert!(matches!(tx.start_send(), SendStep::Stream { chunk_size: 100 }));
    let mut outcomes = fitting(0);
    outcomes.chunks = vec![500];
    outcomes.streamed = Ok(500);
    assert!(tx.send_erased((), outcomes).is_ok());
    assert_eq!(tx.big_data, 0);
    assert_eq!(tx.all_received().up_to, 2);
}

#[test]
fn multiplexed_channels_share_the_size_limit() {
    let second = RawSender { storage: 8, ..raw() };
    let (_, txs) = mpsc::SendTask::open(vec![raw(), second], 12);
    assert_eq!(txs.len(), 2);
    assert_eq!((txs[0].storage(), txs[0].max_item_size()), (7, 12));
    assert_eq!((txs[1].storage(), txs[1].max_item_size()), (8, 12));
    let (_, rxs) = mpsc::RecvTask::open::<(), u8>(3, 13);
    assert_eq!(rxs.len(), 3);
    assert!(rxs.iter().all(|rx| rx.max_item_size() == 13));
    let (_, tx) = transfer::SendTask::open(raw(), 14, TransferStrategy::Single, 0);
    assert_eq!(tx.max_item_size(), 14);
    assert!(tx.are_global_credits_allowed());
    let (_, rx) = transfer::RecvTask::open::<(), u8>(&None, 15);
    assert_eq!(rx.max_item_size(), 15);
}

#[test]
fn contained_channels_are_connected() {
    let mut tx = ErasedSender::new(raw());
    let mut outcomes = fitting(5);
    outcomes.gathered.connect(8, 80);
    outcomes.gathered.spawn(90);
    let started = tx.send_erased((), outcomes).ok().unwrap();
    assert_eq!((started.requests, started.tasks), (vec![(8, 80)], vec![90]));
    let mut outcomes = fitting(5);
    outcomes.gathered.connect(8, 80);
    outcomes.connected = Err(chmux::SendError::ChMux);
    let err = tx.send_erased("item", outcomes).err().unwrap();
    assert!(err.is_disconnected());
    assert_eq!(err.item, "item");
    assert_eq!(
        PortSerializer::instance(None).err().unwrap(),
        "this remoc object can only be serialized for sending"
    );
    assert_eq!(
        PortDeserializer::instance(None).err().unwrap(),
        "this remoc object can only be deserialized during receiving"
    );
    assert_eq!(PortSerializer::storage(Some(4)), Ok(4));
    assert_eq!(
        PortDeserializer::with_storage(None, |s| s + 1).err().unwrap(),
        "storage is only available during deserialization"
    );
}

#[test]
fn streaming_stops_at_the_limit() {
    let mut tx = ErasedSender::new(raw());
    tx.set_max_item_size(1500);
    assert!(matches!(
        tx.send_chunks(&vec![1000, 1000], None),
        Err(StreamError::MaxItemSizeExceeded)
    ));
    assert!(tx.send_chunks(&vec![1000, 500], None).is_ok());
    assert!(matches!(
        tx.send_chunks(&vec![1000, 400], Some((1, chmux::SendError::ChMux))),
        Err(StreamError::Send(chmux::SendError::ChMux))
    ));
    assert_eq!(tx.on_chunk(1000, 500), Some(1500));
    assert_eq!(tx.on_chunk(1000, 501), None);
}

#[test]
fn failure_to_send_wins_over_failure_to_encode() {
    let reason = SerializationError::new("broken".to_string());
    assert!(matches!(
        ErasedSender::on_streamed(Err(reason), Err(StreamError::Send(chmux::SendError::ChMux))),
        Err(SendErrorKind::Send(chmux::SendError::ChMux))
    ));
    let reason = SerializationError::new("broken".to_string());
    match ErasedSender::on_streamed(Err(reason), Ok(())) {
        Err(kind) => assert_eq!(kind.message(), "serialization error: broken"),
        Ok(_) => panic!("expected a failure"),
    }
}

#[test]
fn send_error_kinds_are_classified() {
    let closed = SendErrorKind::Send(chmux::SendError::Closed { gracefully: true });
    assert!(closed.is_closed());
    assert!(closed.is_disconnected());
    assert!(!closed.is_item_specific());
    assert_eq!(ClosedReason::from_send_error_kind(&closed), Some(ClosedReason::Closed));
    let dropped = SendErrorKind::Send(chmux::SendError::Closed { gracefully: false });
    assert_eq!(ClosedReason::from_send_error_kind(&dropped), Some(ClosedReason::Dropped));
    let failed = SendErrorKind::Send(chmux::SendError::ChMux);
    assert!(!failed.is_closed());
    assert_eq!(ClosedReason::from_send_error_kind(&failed), Some(ClosedReason::Failed));
    assert_eq!(
        ClosedReason::from_send_error_kind(&SendErrorKind::MaxItemSizeExceeded),
        None
    );
    assert_eq!(
        ClosedReason::from_connect_error(&chmux::ConnectError::Rejected),
        ClosedReason::Dropped
    );
    let err = SendError::new(SendErrorKind::MaxItemSizeExceeded, 5u8);
    assert!(matches!(err.without_item().kind, SendErrorKind::MaxItemSizeExceeded));
    assert_eq!(RemoteSendError::Closed.closed_reason(), ClosedReason::Closed);
    assert_eq!(RemoteSendError::Forward.closed_reason(), ClosedReason::Failed);
}

#[test]
fn streaming_without_threads_or_with_a_lost_task_fails() {
    let unavailable = SerializationError::new("no threads".to_string());
    assert!(ErasedSender::serialize_streaming(false, unavailable, Ok(Ok(5))).is_err());
    let unavailable = SerializationError::new("no threads".to_string());
    let lost = ErasedSender::serialize_streaming(true, unavailable, Err("panicked".to_string()));
    assert_eq!(lost.err().unwrap().reason, "panicked");
    let unavailable = SerializationError::new("no threads".to_string());
    assert_eq!(ErasedSender::serialize_streaming(true, unavailable, Ok(Ok(5))).ok(), Some(5));
}

#[test]
fn buffered_item_is_received() {
    let mut rx: ErasedReceiver<&str, u32> = ErasedReceiver::new();
    assert!(matches!(rx.recv_erased(4), Progress::Continue(RecvAction::Receive)));
    let data = Received::Data { data: "bytes", size: 5 };
    assert!(matches!(
        rx.on_received(Ok(Some(data))),
        Progress::Continue(RecvAction::Deserialize)
    ));
    match rx.on_deserialized(Ok((99, PortDeserializer::start()))) {
        Progress::Done(Ok(Some(item))) => assert_eq!(item, 99),
        _ => panic!("expected the item"),
    }
    assert!(matches!(rx.recv_erased(4), Progress::Continue(RecvAction::Receive)));
    assert!(matches!(rx.on_received(Ok(None)), Progress::Done(Ok(None))));
}

#[test]
fn oversized_received_item_is_refused() {
    let mut rx: ErasedReceiver<&str, u32> = ErasedReceiver::new();
    rx.set_max_item_size(4);
    rx.recv_erased(4);
    match rx.on_received(Ok(Some(Received::Data { data: "bytes", size: 5 }))) {
        Progress::Done(Err(err)) => {
            assert!(matches!(err, RecvError::MaxItemSizeExceeded));
            assert!(!err.is_final());
            assert_eq!(err.message(), "maximum item size exceeded");
        }
        _ => panic!("expected an error"),
    }
    assert!(matches!(rx.data, DataSource::Empty));
}

#[test]
fn streamed_item_is_fed_to_its_task() {
    let mut rx: ErasedReceiver<&str, u32> = ErasedReceiver::new();
    rx.recv_erased(4);
    assert!(matches!(
        rx.on_received(Ok(Some(Received::Chunks))),
        Progress::Continue(RecvAction::CheckThreads)
    ));
    let unavailable = DeserializationError::new("no threads".to_string());
    assert!(matches!(
        rx.on_threads(true, unavailable),
        Progress::Continue(RecvAction::Feed)
    ));
    assert!(matches!(
        rx.on_feed(FeedEvent::Chunk(3)),
        Progress::Continue(RecvAction::Feed)
    ));
    assert!(matches!(
        rx.on_feed(FeedEvent::End),
        Progress::Continue(RecvAction::AwaitTask)
    ));
    assert!(matches!(
        rx.on_task(Ok(Ok((5, PortDeserializer::start())))),
        Progress::Done(Ok(Some(5)))
    ));
}

#[test]
fn ports_of_an_item_are_connected() {
    let mut rx: ErasedReceiver<&str, u32> = ErasedReceiver::new();
    rx.recv_erased(4);
    rx.on_received(Ok(Some(Received::Data { data: "bytes", size: 5 })));
    let mut ports = PortDeserializer::start();
    ports.accept(17, 1);
    ports.accept(18, 2);
    ports.spawn(3);
    assert!(matches!(
        rx.on_deserialized(Ok((1, ports))),
        Progress::Continue(RecvAction::ReceivePorts { max_ports: 6 })
    ));
    assert!(matches!(
        rx.on_ports(Ok(Some(Received::Requests(vec![18, 17])))),
        Progress::Done(Ok(Some(1)))
    ));
    let (callbacks, tasks) = rx.take_spawned();
    assert_eq!(callbacks, vec![(18, 2), (17, 1)]);
    assert_eq!(tasks, vec![3]);
}

#[test]
fn missing_ports_are_reported() {
    let mut rx: ErasedReceiver<&str, u32> = ErasedReceiver::new();
    rx.recv_erased(4);
    rx.on_received(Ok(Some(Received::Data { data: "bytes", size: 5 })));
    let mut ports = PortDeserializer::start();
    ports.accept(17, 1);
    rx.on_deserialized(Ok((1, ports)));
    match rx.on_ports(Ok(Some(Received::Requests(vec![18])))) {
        Progress::Done(Err(err)) => assert_eq!(err.message(), "missing chmux ports: 17"),
        _ => panic!("expected an error"),
    }
}

#[test]
fn aborted_item_is_skipped() {
    let mut rx: ErasedReceiver<&str, u32> = ErasedReceiver::new();
    rx.recv_erased(4);
    rx.on_received(Ok(Some(Received::Data { data: "one", size: 3 })));
    let mut ports = PortDeserializer::start();
    ports.accept(17, 1);
    rx.on_deserialized(Ok((1, ports)));
    assert!(matches!(
        rx.on_ports(Ok(Some(Received::Data { data: "two", size: 3 }))),
        Progress::Continue(RecvAction::Deserialize)
    ));
    assert!(matches!(
        rx.on_deserialized(Ok((2, PortDeserializer::start()))),
        Progress::Done(Ok(Some(2)))
    ));
    let (callbacks, _) = rx.take_spawned();
    assert!(callbacks.is_empty());
}

#[test]
fn recv_errors_are_classified() {
    let err = RecvError::from(chmux::RecvError::ChMux);
    assert!(err.is_disconnected());
    let err = RecvError::from(DeserializationError::new("bad".to_string()));
    assert!(!err.is_disconnected());
    assert_eq!(err.message(), "deserialization error: bad");
    let err = RecvError::MissingPorts(vec![1, 20, 300]);
    assert_eq!(err.message(), "missing chmux ports: 1, 20, 300");
}

#[test]
fn port_serializer_collects_requests() {
    let mut ports = PortSerializer::start();
    assert_eq!(ports.connect_port(Ok(5), 50), Ok(5));
    assert_eq!(ports.connect_port(Err("none free".to_string()), 60), Err("none free".to_string()));
    ports.spawn(9);
    assert_eq!(ports.requests, vec![(5, 50)]);
    assert_eq!(ports.tasks, vec![9]);
}

#[test]
fn storage_ref_follows_the_connection() {
    let mut sent = storage_ref();
    assert_eq!(sent.get(), None);
    sent.on_send(42);
    assert_eq!(StorageRef::on_received(43).get(), Some(43));
}

#[test]
fn location_follows_its_confirmation() {
    let mut interlock = Interlock::new();
    assert!(interlock.sender.check_local(Confirmation::Waiting));
    interlock.sender.start_send();
    assert!(!interlock.sender.check_local(Confirmation::Waiting));
    assert!(interlock.sender.check_local(Confirmation::Abandoned));
    interlock.sender.start_send();
    assert!(!interlock.sender.check_local(Confirmation::Confirmed));
    assert_eq!(interlock.sender, Location::Remote);
    assert!(!interlock.sender.check_local(Confirmation::Abandoned));
}
