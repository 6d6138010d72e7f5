use remoc::remote_send::RemoteSend;
use remoc::rtc::response::{response_channel, PipelinableResponder, Responder, ResponseSender};
use remoc::versioned::compact::CompactVersioner;
use remoc::versioned::result;
use remoc::versioned::{
    deserialize, serialize, RemocCompact, RemoteCfg, Representation, Versioned, Versioner,
};

fn responder(sequential: bool, stop_on_error: bool) -> Responder {
    Responder::new(response_channel(100).0, sequential, stop_on_error)
}

fn none_current<C>() -> Result<C, String> {
    Err("not the current form".to_string())
}

#[test]
fn version_follows_the_remote_endpoint() {
    let new = RemoteCfg { compact_transported: true };
    let old = RemoteCfg { compact_transported: false };
    assert_eq!(RemocCompact::use_old(Some(new)), Ok(false));
    assert_eq!(RemocCompact::use_old(Some(old)), Ok(true));
    assert_eq!(CompactVersioner::use_old(Some(old)), Ok(true));
    assert_eq!(CompactVersioner::use_old(Some(new)), Ok(false));
}

#[test]
fn responder_uses_the_current_form() {
    let cfg = Some(RemoteCfg { compact_transported: true });
    let value = responder(true, true);
    match serialize(&value, cfg) {
        Ok(Representation::Current(current)) => {
            assert!(current.sequential && current.stop_on_error);
            assert!(current.req_rx.is_none());
        }
        _ => panic!("expected the current form"),
    }
}

#[test]
fn responder_falls_back_to_the_old_form() {
    let cfg = Some(RemoteCfg { compact_transported: false });
    let value = responder(false, false);
    assert!(matches!(serialize(&value, cfg), Ok(Representation::Old(_))));
    let value = responder(true, false);
    match serialize(&value, cfg) {
        Err(msg) => assert_eq!(
            msg,
            "the remote endpoint does not support the options of this method call"
        ),
        Ok(_) => panic!("expected a refusal"),
    }
    let tx: ResponseSender = response_channel(7).0;
    let read: Result<Responder, String> = deserialize(cfg, none_current, || Ok(tx));
    let read = read.ok().unwrap();
    assert_eq!(read.max_item_size(), 7);
    assert!(!read.sequential() && !read.stop_on_error());
}

#[test]
fn pipelined_responder_has_no_old_form() {
    let value: PipelinableResponder<u8> =
        PipelinableResponder::Pipeline { req_rx: 4, responder: responder(false, false) };
    assert!(value.is_pipelined());
    assert!(value.as_old().is_err());
    match value.as_current() {
        Ok(current) => assert_eq!(current.req_rx, Some(&4)),
        Err(_) => panic!("expected the current form"),
    }
}

#[test]
fn results_round_trip() {
    let ok: Result<u8, String> = Ok(3);
    let wire = result::Result::from(ok);
    assert!(matches!(wire, result::Result::Success(3)));
    let back: Result<u8, String> = Result::from(wire);
    assert_eq!(back, Ok(3));
    let err: Result<u8, u8> = Err(4);
    let back: Result<u8, u8> = Result::from(result::Result::from(err));
    assert_eq!(back, Err(4));
}

fn is_remote_send<T: RemoteSend>(_: &T) -> bool {
    true
}

#[test]
fn owned_data_can_be_sent() {
    assert!(is_remote_send(&vec![1u8]));
}
