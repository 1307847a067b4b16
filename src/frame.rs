//! The frame codec: a 16-byte header of four little-endian `u32` fields
//! (length, version, message kind, tag) followed by the payload.
use crate::error::{ErrorKind, Result};
use crate::protocol::{UsbmuxdHeader, UsbmuxdMsgType, HEADER_SIZE, USBMUXD_PROTOCOL_VERSION};
use crate::wire::{bincode_deserialize_fields, bincode_serialize_fields, fields_bytes, le_bytes, le_u32_at};
use vstd::prelude::*;

verus! {

/// The 16 bytes that encode a header.
pub open spec fn header_bytes(h: UsbmuxdHeader) -> Seq<u8> {
    fields_bytes(h.length, h.version, h.message, h.tag)
}

/// The header held by the first 16 bytes of `b`.
pub open spec fn header_of(b: Seq<u8>) -> UsbmuxdHeader {
    UsbmuxdHeader {
        length: le_u32_at(b, 0),
        version: le_u32_at(b, 4),
        message: le_u32_at(b, 8),
        tag: le_u32_at(b, 12),
    }
}

/// Reading a `u32` back from its four little-endian bytes gives it again.
pub proof fn lemma_le_round_trip(x: u32)
    ensures
        le_u32_at(le_bytes(x), 0) == x,
{
    let b0 = (x & 0xff) as u8;
    let b1 = ((x >> 8u32) & 0xff) as u8;
    let b2 = ((x >> 16u32) & 0xff) as u8;
    let b3 = ((x >> 24u32) & 0xff) as u8;
    assert(((b0 as u32) | ((b1 as u32) << 8u32) | ((b2 as u32) << 16u32) | ((b3 as u32)
        << 24u32)) == x) by (bit_vector)
        requires
            b0 == (x & 0xff) as u8,
            b1 == ((x >> 8u32) & 0xff) as u8,
            b2 == ((x >> 16u32) & 0xff) as u8,
            b3 == ((x >> 24u32) & 0xff) as u8,
    ;
}

/// A `u32` whose four little-endian bytes stand at `b[i..i + 4]` is read back.
proof fn lemma_le_at(b: Seq<u8>, i: int, x: u32)
    requires
        0 <= i,
        i + 4 <= b.len(),
        b.subrange(i, i + 4) == le_bytes(x),
    ensures
        le_u32_at(b, i) == x,
{
    lemma_le_round_trip(x);
    assert(b[i] == b.subrange(i, i + 4)[0]);
    assert(b[i + 1] == b.subrange(i, i + 4)[1]);
    assert(b[i + 2] == b.subrange(i, i + 4)[2]);
    assert(b[i + 3] == b.subrange(i, i + 4)[3]);
}

/// Decoding the encoding of a header gives back every one of its fields.
pub proof fn lemma_header_round_trip(h: UsbmuxdHeader)
    ensures
        header_bytes(h).len() == 16,
        header_of(header_bytes(h)) == h,
{
    let b = header_bytes(h);
    assert(b.subrange(0, 4) =~= le_bytes(h.length));
    assert(b.subrange(4, 8) =~= le_bytes(h.version));
    assert(b.subrange(8, 12) =~= le_bytes(h.message));
    assert(b.subrange(12, 16) =~= le_bytes(h.tag));
    lemma_le_at(b, 0, h.length);
    lemma_le_at(b, 4, h.version);
    lemma_le_at(b, 8, h.message);
    lemma_le_at(b, 12, h.tag);
}

/// Encodes a header as 16 bytes.
pub fn encode_header(header: &UsbmuxdHeader) -> (r: Vec<u8>)
    ensures
        r@ == header_bytes(*header),
{
    match bincode_serialize_fields(header.length, header.version, header.message, header.tag) {
        Some(v) => v,
        None => Vec::new(),
    }
}

/// Decodes the header held by the first 16 bytes; fails with
/// `MalformedFrame` when fewer are given.
pub fn decode_header(bytes: &[u8]) -> (r: Result<UsbmuxdHeader>)
    ensures
        bytes@.len() < 16 <==> r == Err::<UsbmuxdHeader, ErrorKind>(ErrorKind::MalformedFrame),
        bytes@.len() >= 16 ==> r == Ok::<UsbmuxdHeader, ErrorKind>(header_of(bytes@)),
{
    match bincode_deserialize_fields(bytes) {
        Some((length, version, message, tag)) => Ok(UsbmuxdHeader { length, version, message, tag }),
        None => Err(ErrorKind::MalformedFrame),
    }
}


/// The header of a frame of kind `message` and tag `tag` that carries
/// `payload_len` bytes.
pub open spec fn frame_header(message: u32, tag: u32, payload_len: nat) -> UsbmuxdHeader {
    UsbmuxdHeader {
        length: (HEADER_SIZE + payload_len) as u32,
        version: USBMUXD_PROTOCOL_VERSION,
        message,
        tag,
    }
}

/// Builds a frame: the header, whose length counts the header and the
/// payload, then the payload. Fails with `PayloadEncode` when that length
/// does not fit in a `u32`.
pub fn build_frame(message: u32, tag: u32, payload: &Vec<u8>) -> (r: Result<Vec<u8>>)
    ensures
        HEADER_SIZE + payload@.len() > u32::MAX <==> r == Err::<Vec<u8>, ErrorKind>(
            ErrorKind::PayloadEncode,
        ),
        HEADER_SIZE + payload@.len() <= u32::MAX ==> r is Ok,
        r matches Ok(f) ==> f@ == header_bytes(frame_header(message, tag, payload@.len()))
            + payload@,
{
    if payload.len() > (u32::MAX - HEADER_SIZE) as usize {
        return Err(ErrorKind::PayloadEncode);
    }
    let header = UsbmuxdHeader {
        length: HEADER_SIZE + payload.len() as u32,
        version: USBMUXD_PROTOCOL_VERSION,
        message,
        tag,
    };
    let mut frame = encode_header(&header);
    let ghost head = frame@;
    let mut i: usize = 0;
    while i < payload.len()
        invariant
            0 <= i <= payload.len(),
            frame@ == head + payload@.subrange(0, i as int),
        decreases payload.len() - i,
    {
        frame.push(payload[i]);
        i = i + 1;
        assert(frame@ =~= head + payload@.subrange(0, i as int));
    }
    assert(payload@.subrange(0, payload@.len() as int) =~= payload@);
    Ok(frame)
}

/// Builds a `Plist` frame with the given tag around a payload.
pub fn build_plist_frame(tag: u32, payload: &Vec<u8>) -> (r: Result<Vec<u8>>)
    ensures
        HEADER_SIZE + payload@.len() > u32::MAX <==> r == Err::<Vec<u8>, ErrorKind>(
            ErrorKind::PayloadEncode,
        ),
        HEADER_SIZE + payload@.len() <= u32::MAX ==> r is Ok,
        r matches Ok(f) ==> f@ == header_bytes(
            frame_header(UsbmuxdMsgType::Plist.spec_code(), tag, payload@.len()),
        ) + payload@,
{
    build_frame(UsbmuxdMsgType::Plist.code(), tag, payload)
}

/// How many payload bytes follow a header; fails with `MalformedFrame` when
/// its length is shorter than a header.
pub fn payload_length(header: &UsbmuxdHeader) -> (r: Result<usize>)
    ensures
        header.length < HEADER_SIZE <==> r == Err::<usize, ErrorKind>(ErrorKind::MalformedFrame),
        header.length >= HEADER_SIZE ==> r == Ok::<usize, ErrorKind>(
            (header.length - HEADER_SIZE) as usize,
        ),
{
    if header.length < HEADER_SIZE {
        Err(ErrorKind::MalformedFrame)
    } else {
        Ok((header.length - HEADER_SIZE) as usize)
    }
}

/// What a received frame with this header and these payload bytes gives.
pub open spec fn response_check(header: UsbmuxdHeader, payload_len: nat) -> Result<()> {
    if header.length < HEADER_SIZE {
        Err(ErrorKind::MalformedFrame)
    } else if payload_len != header.length - HEADER_SIZE {
        Err(ErrorKind::Io)
    } else if header.message != UsbmuxdMsgType::Plist.spec_code() {
        Err(ErrorKind::UnexpectedMessageKind(header.message))
    } else {
        Ok(())
    }
}

/// Checks a received frame: the header's length must count exactly the
/// payload read (`Io` for a short read) and its kind must be `Plist`.
pub fn check_response(header: &UsbmuxdHeader, payload: &[u8]) -> (r: Result<()>)
    ensures
        r == response_check(*header, payload@.len()),
        r is Ok ==> header.length == HEADER_SIZE + payload@.len(),
{
    let remaining = payload_length(header)?;
    if payload.len() != remaining {
        return Err(ErrorKind::Io);
    }
    if header.message != UsbmuxdMsgType::Plist.code() {
        return Err(ErrorKind::UnexpectedMessageKind(header.message));
    }
    Ok(())
}

/// Every frame that the response check accepts has a length equal to the
/// header size plus the number of payload bytes read.
pub proof fn lemma_accepted_frame_length(header: UsbmuxdHeader, payload: Seq<u8>)
    requires
        response_check(header, payload.len()) is Ok,
    ensures
        header.length == HEADER_SIZE + payload.len(),
{
}

/// Splits a whole received frame into its header and its payload, and
/// checks it as `check_response` does; bytes past the frame's length are
/// not part of it.
pub fn decode_frame(bytes: &[u8]) -> (r: Result<(UsbmuxdHeader, Vec<u8>)>)
    ensures
        bytes@.len() < HEADER_SIZE ==> r == Err::<(UsbmuxdHeader, Vec<u8>), ErrorKind>(
            ErrorKind::MalformedFrame,
        ),
        bytes@.len() >= HEADER_SIZE ==> ({
            let h = header_of(bytes@);
            let avail = (bytes@.len() - HEADER_SIZE) as nat;
            let n = if h.length >= HEADER_SIZE && avail >= h.length - HEADER_SIZE {
                (h.length - HEADER_SIZE) as nat
            } else {
                avail
            };
            &&& r is Err ==> r == Err::<(UsbmuxdHeader, Vec<u8>), ErrorKind>(
                response_check(h, n)->Err_0,
            )
            &&& r is Ok <==> response_check(h, n) is Ok
            &&& r matches Ok((hh, p)) ==> hh == h && p@ == bytes@.subrange(
                HEADER_SIZE as int,
                HEADER_SIZE + n,
            )
        }),
        r matches Ok((h, p)) ==> h.length == HEADER_SIZE + p@.len(),
{
    let header = decode_header(bytes)?;
    let len: usize = bytes.len();
    let avail: usize = len - HEADER_SIZE as usize;
    let n: usize = if header.length >= HEADER_SIZE && avail >= (header.length - HEADER_SIZE) as usize {
        (header.length - HEADER_SIZE) as usize
    } else {
        avail
    };
    let start: usize = HEADER_SIZE as usize;
    let mut payload: Vec<u8> = Vec::new();
    let mut i: usize = 0;
    while i < n
        invariant
            0 <= i <= n,
            n <= avail,
            bytes@.len() >= HEADER_SIZE,
            start == HEADER_SIZE,
            len == bytes@.len(),
            avail == bytes@.len() - HEADER_SIZE,
            payload@ == bytes@.subrange(HEADER_SIZE as int, HEADER_SIZE + i),
        decreases n - i,
    {
        payload.push(bytes[start + i]);
        i = i + 1;
        assert(payload@ =~= bytes@.subrange(HEADER_SIZE as int, HEADER_SIZE + i));
    }
    check_response(&header, payload.as_slice())?;
    Ok((header, payload))
}

} // verus!
