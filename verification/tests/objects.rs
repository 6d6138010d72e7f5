use remoc::chmux;
use remoc::rch;
use remoc::rch::base;
use remoc::rch::mpsc;
use remoc::rch::mpsc::queue::queue_channel;
use remoc::rch::mpsc::sender::Queued;
use remoc::rch::oneshot;
use remoc::rch::watch;
use remoc::rfn;
use remoc::rfn::msg::RFnRequest;
use remoc::rfn::tracing::{default_name, ProviderSettings, ServerSpan, Settings};
use remoc::robj::rw_lock::msg::Value;
use remoc::robj::rw_lock::{
    monitor_invalidation, CommitError, LockError, ReadLock, RwLock, WriteGuard,
};
use remoc::robs;
use remoc::robs::{notification, send_event, ChangeSender, DroppedError};
use remoc::tracing::{
    LevelFilter, Providers, Tracing, TracingContext, TracingProvider,
};

struct Silent;

impl TracingProvider for Silent {
    type Span = u32;

    fn attach_parent(&self, _context: &TracingContext, _span: &u32) -> bool {
        true
    }
}

#[test]
fn call_errors_of_remote_functions() {
    let err = rfn::CallError::from(oneshot::RecvError::Closed);
    assert_eq!(err.message(), "provider dropped or function panicked");
    let err = rfn::CallError::from_oneshot(oneshot::RecvError::Remote(Some(Box::new(
        oneshot::RecvError::Connect(chmux::ConnectError::RemotePortsExhausted),
    ))));
    assert_eq!(err.message(), "remote connect error: all remote ports are in use");
    assert_eq!(rfn::CallError::Remote(None).message(), "unknown remote error");
    let (tx, _rx) = oneshot::channel();
    let request = RFnRequest { argument: 3, result_tx: tx, tracing: None };
    assert_eq!(request.argument, 3);
}

#[test]
fn settings_follow_the_provider() {
    let mut settings = Settings::new();
    let mut provider: Option<ProviderSettings<Silent>> = Some(ProviderSettings::new());
    assert!(settings.is_default_ref(true));
    assert!(!settings.is_default_ref(false));
    assert_eq!(settings.name("RFn", "u8"), default_name("RFn", "u8"));
    settings.set_name(Some("adder".to_string()), &mut provider);
    settings.set_level(LevelFilter::Info, &mut provider);
    settings.set_span(Some(3), &mut provider);
    assert!(!settings.is_default_ref(true));
    let provider_settings = provider.unwrap();
    assert_eq!(provider_settings.name.as_deref(), Some("adder"));
    assert_eq!(provider_settings.level, LevelFilter::Info);
    let providers: Providers<Silent> = Providers { list: vec![Silent] };
    let context = TracingContext { trace_id: 1, span_id: 2, flags: 0 };
    let span = provider_settings.server_span("RFn", "u8", Some(context), &providers, |s, child| {
        assert_eq!(s.unwrap().method, "adder");
        assert!(child);
        9
    });
    assert!(matches!(span, ServerSpan::Created(9, true)));
    let unlinked = Settings::default();
    assert!(!unlinked.linked);
    assert_eq!(unlinked.tracing(), Tracing::Both);
}

#[test]
fn remote_function_calls_are_traced() {
    let mut settings = Settings::default();
    let mut provider: Option<ProviderSettings<Silent>> = Some(ProviderSettings::new());
    settings.set_level(LevelFilter::Warn, &mut provider);
    assert_eq!(provider.as_ref().unwrap().level, LevelFilter::Off);
    settings.set_tracing(Tracing::Client);
    let providers: Providers<Silent> = Providers { list: vec![Silent] };
    let call = settings.client_call("RFnMut", "String", &providers, &1, |span| {
        assert_eq!(span.unwrap().method, "RFnMut<String>");
        5
    });
    assert_eq!(call.span, Some(5));
    assert!(call.context.is_none());
}

fn value(number: u32) -> Value<u32> {
    let (dropped_tx, _) = mpsc::channel(1);
    let (_, invalid_rx, _) = watch::channel(false);
    Value { value: number, dropped_tx, invalid_rx }
}

#[test]
fn read_lock_caches_until_invalidated() {
    let mut lock = ReadLock::new();
    assert!(lock.fetch().is_none());
    assert_eq!(*lock.on_value(Ok(value(7))).ok().unwrap().get(), 7);
    {
        let guard = lock.read().unwrap();
        assert_eq!(*guard.get(), 7);
        assert!(!guard.is_invalidated());
        assert!(!guard.invalidated());
    }
    let mut cached = lock.cache.take().unwrap();
    assert!(!monitor_invalidation(&mut cached.invalid_rx));
    cached.invalid_rx.value = Ok(true);
    assert!(monitor_invalidation(&mut cached.invalid_rx));
    assert!(!cached.is_valid());
    assert_eq!(*lock.on_value(Ok(cached)).ok().unwrap().get(), 7);
    assert!(lock.read().is_none());
    lock.on_invalidated();
    assert!(lock.cache.is_none());
}

#[test]
fn lock_failures() {
    let mut lock: ReadLock<u32> = ReadLock::new();
    match lock.on_value(Err(oneshot::RecvError::Closed)) {
        Err(err) => assert_eq!(err.message(), "owner dropped"),
        Ok(_) => panic!("expected a failure"),
    }
    let err = LockError::from(oneshot::RecvError::Listen(chmux::ListenerError::MultiplexerError));
    assert_eq!(err.message(), "listen error: multiplexer error");
    assert_eq!(CommitError::Failed.message(), "commit failed");
    assert_eq!(CommitError::Dropped.message(), "owner dropped");
    assert!(matches!(
        WriteGuard::<u32>::on_confirmed(Err(oneshot::RecvError::Closed)),
        Err(CommitError::Failed)
    ));
    assert!(WriteGuard::<u32>::on_confirmed(Ok(())).is_ok());
}

#[test]
fn written_value_is_committed() {
    let (tx, _) = oneshot::channel();
    let (_, confirm_rx) = oneshot::channel();
    let mut guard = RwLock::write(Ok(4u32), tx, confirm_rx).ok().unwrap();
    assert_eq!(*guard.get(), 4);
    guard.set(5);
    assert_eq!(*guard.get(), 5);
    let (committed, _) = guard.commit(Queued::Queued).ok().unwrap();
    assert_eq!(committed, 5);
    let (_, mut owner) = oneshot::channel();
    assert!(matches!(owner.poll(Some(Ok(committed))), Some(Ok(5))));
    let (tx, _) = oneshot::channel();
    let (_, confirm_rx) = oneshot::channel();
    let guard = RwLock::write(Ok(4u32), tx, confirm_rx).ok().unwrap();
    assert!(matches!(guard.commit(Queued::Closed), Err(CommitError::Dropped)));
    let mut read = ReadLock::new();
    read.on_value(Ok(value(1))).ok().unwrap();
    let lock = RwLock::new(read);
    assert_eq!(*lock.read().unwrap().get(), 1);
    assert!(lock.read_lock().fetch().is_some());
}

#[test]
fn committed_value_arrives_at_the_owner() {
    let (new_value_tx, mut new_value_rx) = queue_channel(1);
    let (tx, _) = oneshot::channel();
    let (_, confirm_rx) = oneshot::channel();
    let mut guard = RwLock::write(Ok(4u32), tx, confirm_rx).ok().unwrap();
    guard.set(6);
    assert!(guard.commit_queued(new_value_tx).is_ok());
    assert!(matches!(new_value_rx.try_recv(), (Some(Ok(6)), None)));
    let (new_value_tx, new_value_rx) = queue_channel(1);
    drop(new_value_rx);
    let (tx, _) = oneshot::channel();
    let (_, confirm_rx) = oneshot::channel();
    let guard = RwLock::write(Ok(4u32), tx, confirm_rx).ok().unwrap();
    assert!(matches!(guard.commit_queued(new_value_tx), Err(CommitError::Dropped)));
}

#[test]
fn observation_errors_correspond() {
    let err = robs::RecvError::from(rch::broadcast::RecvError::Lagged);
    assert_eq!(err.message(), "observation lagged behind");
    let err = robs::RecvError::from(rch::mpsc::RecvError::Receive(
        base::RecvError::MaxItemSizeExceeded,
    ));
    assert_eq!(err.message(), "receive error: maximum item size exceeded");
    assert_eq!(robs::RecvError::InvalidIndex(5).message(), "index 5 is invalid");
    assert_eq!(
        robs::RecvError::MaxSizeExceeded(8).message(),
        "mirrored collection reached it maximum size of 8"
    );
    assert_eq!(robs::RecvError::Closed.message(), "observed collection was dropped");
    let closed: rch::broadcast::SendError<u8> = rch::broadcast::SendError::Closed(1);
    assert!(robs::SendError::try_from(closed).is_err());
    let forward: rch::mpsc::SendError<u8> = rch::mpsc::SendError::Forward;
    assert_eq!(robs::SendError::try_from(forward).ok().unwrap().message(), "forwarding error");
}

#[test]
fn disconnected_observers_are_no_failure() {
    assert!(send_event::<u8>(Ok(())).is_none());
    assert!(send_event(Err(rch::broadcast::SendError::Closed(1u8))).is_none());
    let kind = base::SendErrorKind::MaxItemSizeExceeded;
    assert!(matches!(
        send_event::<u8>(Err(rch::broadcast::SendError::Send(kind))),
        Some(robs::SendError::Send(_))
    ));
}

#[test]
fn local_observers_are_notified() {
    let sender = ChangeSender::new();
    let mut notifier = sender.subscribe();
    assert!(notifier.changed().is_none());
    sender.notify();
    sender.notify();
    let mut copy = notifier.duplicate();
    assert!(matches!(notifier.changed(), Some(Ok(()))));
    assert!(notifier.changed().is_none());
    assert!(matches!(copy.changed(), Some(Ok(()))));
    let mut late = sender.subscribe();
    assert!(matches!(late.changed(), Some(Ok(()))));
    sender.notify();
    notifier.update();
    assert!(notifier.changed().is_none());
    drop(sender);
    assert!(matches!(copy.changed(), Some(Ok(()))));
    match copy.changed() {
        Some(Err(err)) => assert_eq!(err.message(), "dropped"),
        _ => panic!("expected the end"),
    }
    assert!(matches!(notifier.changed(), Some(Err(DroppedError))));
    assert!(matches!(notification(true, Err(())), Some(Ok(()))));
    assert!(matches!(notification(false, Ok(true)), Some(Ok(()))));
    assert!(notification(false, Ok(false)).is_none());
}
