use plist::{Dictionary, Value};
use usbmux::error::ErrorKind;
use usbmux::frame::{build_plist_frame, decode_frame, encode_header};
use usbmux::plist_utils::{create_plist_message, request_payload};
use usbmux::protocol::UsbmuxdHeader;
use usbmux::session::{ListDevicesSession, SessionEvent, SessionPhase, SessionStep};

fn device_list_bytes(udid: &str) -> Vec<u8> {
    let mut p = Dictionary::new();
    p.insert("ConnectionType".to_owned(), Value::String("USB".to_owned()));
    p.insert("DeviceID".to_owned(), Value::Integer(3u64.into()));
    p.insert("LocationID".to_owned(), Value::Integer(0u64.into()));
    p.insert("ProductID".to_owned(), Value::Integer(4776u64.into()));
    p.insert("SerialNumber".to_owned(), Value::String(udid.to_owned()));
    p.insert("UDID".to_owned(), Value::String(udid.to_owned()));
    let mut d = Dictionary::new();
    d.insert("DeviceID".to_owned(), Value::Integer(3u64.into()));
    d.insert("MessageType".to_owned(), Value::String("Attached".to_owned()));
    d.insert("Properties".to_owned(), Value::Dictionary(p));
    let mut top = Dictionary::new();
    top.insert("DeviceList".to_owned(), Value::Array(vec![Value::Dictionary(d)]));
    let mut buf = Vec::new();
    Value::Dictionary(top).to_writer_binary(&mut buf).unwrap();
    buf
}

fn expect_read(step: SessionStep) -> usize {
    match step {
        SessionStep::Read(n) => n,
        other => panic!("expected a read, got {:?}", other),
    }
}

#[test]
fn list_devices_happy_path() {
    let mut s = ListDevicesSession::new(1);
    let frame = match s.step(SessionEvent::Connected) {
        SessionStep::Send(f) => f,
        other => panic!("expected a send, got {:?}", other),
    };
    let (h, payload) = decode_frame(&frame).unwrap();
    assert_eq!(h.message, 8);
    assert_eq!(h.tag, 1);
    assert_eq!(h.version, 1);
    let request = Value::from_reader(std::io::Cursor::new(&payload)).unwrap();
    assert_eq!(request, create_plist_message("ListDevices".to_owned()));
    assert_eq!(payload, request_payload("ListDevices".to_owned()));

    assert_eq!(expect_read(s.step(SessionEvent::Sent)), 16);
    let body = device_list_bytes("97006ebdc8bc5daed2e354f4addae4fd2a81c52d");
    let response = build_plist_frame(1, &body).unwrap();
    let n = expect_read(s.step(SessionEvent::Received(response[..16].to_vec())));
    assert_eq!(n, body.len());
    match s.step(SessionEvent::Received(response[16..].to_vec())) {
        SessionStep::Done(Ok(devs)) => {
            assert_eq!(devs.len(), 1);
            assert_eq!(devs[0].properties.udid, "97006ebdc8bc5daed2e354f4addae4fd2a81c52d");
        }
        other => panic!("expected devices, got {:?}", other),
    }
    assert_eq!(s.phase, SessionPhase::Finished);
}

#[test]
fn connection_refused_is_connection_error() {
    let mut s = ListDevicesSession::new(1);
    match s.step(SessionEvent::ConnectFailed) {
        SessionStep::Done(Err(e)) => assert_eq!(e, ErrorKind::Connection(Box::new(ErrorKind::Io))),
        other => panic!("expected an error, got {:?}", other),
    }
    assert_eq!(s.phase, SessionPhase::Finished);
}

#[test]
fn send_failure_is_connection_error() {
    let mut s = ListDevicesSession::new(1);
    s.step(SessionEvent::Connected);
    match s.step(SessionEvent::SendFailed) {
        SessionStep::Done(Err(e)) => assert_eq!(e, ErrorKind::Connection(Box::new(ErrorKind::Io))),
        other => panic!("expected an error, got {:?}", other),
    }
}

#[test]
fn short_header_is_malformed() {
    let mut s = ListDevicesSession::new(1);
    s.step(SessionEvent::Connected);
    s.step(SessionEvent::Sent);
    match s.step(SessionEvent::Received(vec![1, 2, 3])) {
        SessionStep::Done(Err(e)) => assert_eq!(e, ErrorKind::MalformedFrame),
        other => panic!("expected an error, got {:?}", other),
    }
}

#[test]
fn unexpected_kind_is_reported() {
    let mut s = ListDevicesSession::new(1);
    s.step(SessionEvent::Connected);
    s.step(SessionEvent::Sent);
    let h = encode_header(&UsbmuxdHeader { length: 20, version: 1, message: 1, tag: 1 });
    assert_eq!(expect_read(s.step(SessionEvent::Received(h))), 4);
    match s.step(SessionEvent::Received(vec![0, 0, 0, 0])) {
        SessionStep::Done(Err(e)) => assert_eq!(e, ErrorKind::UnexpectedMessageKind(1)),
        other => panic!("expected an error, got {:?}", other),
    }
}

#[test]
fn read_failure_is_io_error() {
    let mut s = ListDevicesSession::new(1);
    s.step(SessionEvent::Connected);
    s.step(SessionEvent::Sent);
    match s.step(SessionEvent::ReadFailed) {
        SessionStep::Done(Err(e)) => assert_eq!(e, ErrorKind::Io),
        other => panic!("expected an error, got {:?}", other),
    }
}

#[test]
fn unexpected_event_ends_with_io_error() {
    let mut s = ListDevicesSession::new(1);
    match s.step(SessionEvent::Sent) {
        SessionStep::Done(Err(e)) => assert_eq!(e, ErrorKind::Io),
        other => panic!("expected an error, got {:?}", other),
    }
    assert_eq!(s.phase, SessionPhase::Finished);
    match s.step(SessionEvent::Connected) {
        SessionStep::Done(Err(e)) => assert_eq!(e, ErrorKind::Io),
        other => panic!("expected an error, got {:?}", other),
    }
}
