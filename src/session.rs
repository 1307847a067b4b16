//! One `ListDevices` exchange with the daemon, as a state machine: the
//! caller performs each step on its connection and hands back what happened.
//! A session uses one connection for one request and one response.
use crate::error::{ErrorKind, Result};
use crate::frame::{build_plist_frame, check_response, decode_header, frame_header, header_bytes, header_of, payload_length, response_check};
use crate::plist_utils::{binary_plist, device_list_result, request_entries, plist_to_object, request_payload, PlistModel};
use crate::protocol::{UsbmuxdDevice, UsbmuxdHeader, UsbmuxdMsgType, HEADER_SIZE};
use vstd::prelude::*;

verus! {

/// Where a session stands.
#[derive(Debug, Clone, Copy, PartialEq, Eq)]
pub enum SessionPhase {
    /// Waiting for the connection to be opened.
    Connecting,
    /// Waiting for the request frame to be written.
    Sending,
    /// Waiting for the 16 header bytes of the response.
    ReadingHeader,
    /// Waiting for the payload announced by this header.
    ReadingPayload(UsbmuxdHeader),
    /// Done; the connection is to be released.
    Finished,
}

/// What happened on the connection.
#[derive(Debug)]
pub enum SessionEvent {
    Connected,
    ConnectFailed,
    Sent,
    SendFailed,
    /// The bytes read, as many as were asked for or fewer.
    Received(Vec<u8>),
    ReadFailed,
}

/// What the caller does next.
#[derive(Debug)]
pub enum SessionStep {
    /// Write these bytes.
    Send(Vec<u8>),
    /// Read exactly this many bytes.
    Read(usize),
    /// Release the connection; the exchange gave this result.
    Done(Result<Vec<UsbmuxdDevice>>),
}

/// The message type of a device listing request.
pub open spec fn list_devices_type() -> Seq<char> {
    "ListDevices"@
}

/// The request frame of a device listing with this tag.
pub open spec fn list_devices_frame(tag: u32) -> Seq<u8> {
    let p = list_devices_payload();
    header_bytes(frame_header(UsbmuxdMsgType::Plist.spec_code(), tag, p.len())) + p
}

/// The request payload of a device listing.
pub open spec fn list_devices_payload() -> Seq<u8> {
    binary_plist(PlistModel::Dictionary(request_entries(list_devices_type())))
}

/// The request frame's length fits in the header's `u32` length field.
pub open spec fn request_fits() -> bool {
    HEADER_SIZE + list_devices_payload().len() <= u32::MAX
}

/// `event` is one that a session in `phase` waits for.
pub open spec fn expected(phase: SessionPhase, event: SessionEvent) -> bool {
    match phase {
        SessionPhase::Connecting => event is Connected || event is ConnectFailed,
        SessionPhase::Sending => event is Sent || event is SendFailed,
        SessionPhase::ReadingHeader => event is Received || event is ReadFailed,
        SessionPhase::ReadingPayload(_) => event is Received || event is ReadFailed,
        SessionPhase::Finished => false,
    }
}

/// The error of a failed connect or send: a `Connection` error whose cause
/// is the transport's `Io` error.
pub open spec fn connection_lost() -> ErrorKind {
    ErrorKind::Connection(Box::new(ErrorKind::Io))
}

/// The last step of a session, with its result.
pub open spec fn done(res: Result<Vec<UsbmuxdDevice>>) -> SessionStep {
    SessionStep::Done(res)
}

/// A `ListDevices` exchange.
pub struct ListDevicesSession {
    pub phase: SessionPhase,
    pub tag: u32,
}

impl ListDevicesSession {
    /// A session that waits for its connection; `tag` goes in the request header.
    pub fn new(tag: u32) -> (r: ListDevicesSession)
        ensures
            r.phase == SessionPhase::Connecting,
            r.tag == tag,
    {
        ListDevicesSession { phase: SessionPhase::Connecting, tag }
    }

    /// Takes one event and says what to do next.
    ///
    /// One request goes over each connection, so the response is taken as
    /// the answer to it: its tag is not compared with the request's.
    ///
    /// A failure to connect or to send is a `Connection` error, a failed
    /// read an `Io` error, a short header `MalformedFrame`; the payload must
    /// be as long as the header says and of kind `Plist`, and must hold a
    /// device list. An event that the phase does not expect ends the
    /// session with `Io`, so a session sends at most one request and never
    /// retries. The request is sent whenever its frame length fits in a `u32`.
    pub fn step(&mut self, event: SessionEvent) -> (r: SessionStep)
        ensures
            final(self).tag == old(self).tag,
            r is Done <==> final(self).phase == SessionPhase::Finished,
            old(self).phase == SessionPhase::Connecting && event is Connected && request_fits()
                ==> r is Send && r->Send_0@ == list_devices_frame(old(self).tag) && final(self).phase
                == SessionPhase::Sending,
            old(self).phase == SessionPhase::Connecting && event is Connected && !request_fits()
                ==> r == done(Err(ErrorKind::PayloadEncode)),
            old(self).phase == SessionPhase::Connecting && event is ConnectFailed ==> r == done(
                Err(connection_lost()),
            ),
            old(self).phase == SessionPhase::Sending && event is Sent ==> r == SessionStep::Read(
                HEADER_SIZE as usize,
            ) && final(self).phase == SessionPhase::ReadingHeader,
            old(self).phase == SessionPhase::Sending && event is SendFailed ==> r == done(
                Err(connection_lost()),
            ),
            old(self).phase == SessionPhase::ReadingHeader && event is Received ==> ({
                let b = event->Received_0@;
                if b.len() < HEADER_SIZE || header_of(b).length < HEADER_SIZE {
                    r == done(Err(ErrorKind::MalformedFrame))
                } else {
                    &&& r == SessionStep::Read((header_of(b).length - HEADER_SIZE) as usize)
                    &&& final(self).phase == SessionPhase::ReadingPayload(header_of(b))
                }
            }),
            old(self).phase is ReadingPayload && event is Received ==> ({
                let h = old(self).phase->ReadingPayload_0;
                let p = event->Received_0@;
                &&& r is Done
                &&& response_check(h, p.len()) is Err ==> r == done(
                    Err(response_check(h, p.len())->Err_0),
                )
                &&& response_check(h, p.len()) is Ok ==> device_list_result(p, r->Done_0)
            }),
            (old(self).phase == SessionPhase::ReadingHeader || old(self).phase is ReadingPayload)
                && event is ReadFailed ==> r == done(Err(ErrorKind::Io)),
            !expected(old(self).phase, event) ==> r == done(Err(ErrorKind::Io)),
    {
        let phase = self.phase;
        let (next, r) = match (phase, event) {
            (SessionPhase::Connecting, SessionEvent::Connected) => {
                let payload = request_payload("ListDevices".to_owned());
                match build_plist_frame(self.tag, &payload) {
                    Ok(frame) => (SessionPhase::Sending, SessionStep::Send(frame)),
                    Err(e) => (SessionPhase::Finished, SessionStep::Done(Err(e))),
                }
            },
            (SessionPhase::Connecting, SessionEvent::ConnectFailed) => (
                SessionPhase::Finished,
                SessionStep::Done(Err(ErrorKind::Connection(Box::new(ErrorKind::Io)))),
            ),
            (SessionPhase::Sending, SessionEvent::Sent) => (
                SessionPhase::ReadingHeader,
                SessionStep::Read(HEADER_SIZE as usize),
            ),
            (SessionPhase::Sending, SessionEvent::SendFailed) => (
                SessionPhase::Finished,
                SessionStep::Done(Err(ErrorKind::Connection(Box::new(ErrorKind::Io)))),
            ),
            (SessionPhase::ReadingHeader, SessionEvent::Received(b)) => {
                match decode_header(b.as_slice()) {
                    Ok(h) => match payload_length(&h) {
                        Ok(n) => (SessionPhase::ReadingPayload(h), SessionStep::Read(n)),
                        Err(e) => (SessionPhase::Finished, SessionStep::Done(Err(e))),
                    },
                    Err(e) => (SessionPhase::Finished, SessionStep::Done(Err(e))),
                }
            },
            (SessionPhase::ReadingPayload(h), SessionEvent::Received(p)) => {
                match check_response(&h, p.as_slice()) {
                    Ok(()) => {
                        let res = match plist_to_object(p.as_slice()) {
                            Ok(list) => Ok(list.device_list),
                            Err(e) => Err(e),
                        };
                        (SessionPhase::Finished, SessionStep::Done(res))
                    },
                    Err(e) => (SessionPhase::Finished, SessionStep::Done(Err(e))),
                }
            },
            (_, _) => (SessionPhase::Finished, SessionStep::Done(Err(ErrorKind::Io))),
        };
        self.phase = next;
        proof {
            reveal_strlit("ListDevices");
        }
        r
    }
}

} // verus!
