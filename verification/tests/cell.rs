use remoc::chmux;
use remoc::rch::watch::cell::cell_channel;
use remoc::rch::watch::{ChangedError, RecvError, SendError};
use remoc::rch::RemoteSendError;

#[test]
fn shared_value_is_watched() {
    let (mut tx, mut rx) = cell_channel(1);
    assert_eq!(rx.borrow().ok(), Some(1));
    assert!(matches!(rx.has_changed(), Ok(false)));
    assert!(tx.send(2).is_ok());
    assert!(matches!(rx.has_changed(), Ok(true)));
    assert_eq!(rx.borrow_and_update().ok(), Some(2));
    assert!(matches!(rx.has_changed(), Ok(false)));
    rx.mark_changed();
    assert!(matches!(rx.has_changed(), Ok(true)));
    rx.mark_unchanged();
    assert!(matches!(rx.has_changed(), Ok(false)));
    assert_eq!(tx.send_replace(3).ok(), Some(2));
    assert_eq!(tx.borrow().ok(), Some(3));
    drop(tx);
    assert!(matches!(rx.has_changed(), Ok(true)));
    assert_eq!(rx.borrow_and_update().ok(), Some(3));
    assert!(matches!(rx.has_changed(), Err(ChangedError::Closed)));
}

#[test]
fn unwatched_value_cannot_be_sent() {
    let (mut tx, rx) = cell_channel(1);
    assert!(!tx.is_closed());
    drop(rx);
    assert!(tx.is_closed());
    assert!(matches!(tx.send(2), Err(SendError::Closed)));
    assert!(tx.remote_send_err_tx.send(RemoteSendError::Forward).is_ok());
    assert!(matches!(tx.send(2), Err(SendError::Forward)));
    assert!(matches!(tx.error(), Some(SendError::Forward)));
    tx.clear_error();
    assert!(tx.error().is_none());
    assert_eq!(tx.borrow().ok(), Some(1));
    let rx = tx.subscribe();
    assert!(tx.send(2).is_ok());
    assert_eq!(rx.borrow().ok(), Some(2));
}

#[test]
fn lost_connection_is_reported() {
    let (tx, rx) = cell_channel(1);
    let lost = RecvError::Connect(chmux::ConnectError::ChMux);
    assert!(tx.tx.send(Err(lost)).is_ok());
    assert!(matches!(rx.has_changed(), Err(ChangedError::Recv(RecvError::Connect(_)))));
}
