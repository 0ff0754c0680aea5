//! Wire encoding of game messages.
//!
//! A message body starts with its type as a little-endian `u16`, followed by
//! little-endian integer fields. On the socket every body is RC4-encrypted
//! and preceded by its length as an unencrypted little-endian `u16`.

use vstd::prelude::*;

use crate::constants::MAX_MESSAGE_SIZE;
use crate::crypto::{encrypt_server_message, rc4_apply};
use crate::constants::CLIENT_DECRYPT_KEY;

verus! {

/// Item received (server to client).
pub const MSG_GET_ITEM: u16 = 41;

/// Use of an item (both directions).
pub const MSG_USE_ITEM: u16 = 31;

/// Item dropped on the ground (server broadcast).
pub const MSG_DISCARD_ITEM: u16 = 39;

/// Purchase result (server to client).
pub const MSG_SHOP_BUY: u16 = 28;

/// Purchase refused (server to client).
pub const MSG_SHOP_BUY_FAIL: u16 = 29;

/// Shop contents of a room (server to client).
pub const MSG_ROOM_SHOP_INFO: u16 = 27;

/// Bank operation result (server to client).
pub const MSG_BANK_PROCESS: u16 = 45;

/// Status of a game element, such as the bank balance (server to client).
pub const MSG_REQUEST_STATUS: u16 = 44;

/// Sell prices of the inventory (server to client).
pub const MSG_SELL_REQ_PRICES: u16 = 53;

/// Sale result (server to client).
pub const MSG_SELL: u16 = 54;

/// The two little-endian bytes of `v`.
pub open spec fn le16(v: u16) -> Seq<u8> {
    seq![(v % 256) as u8, (v / 256) as u8]
}

/// The four little-endian bytes of `v`.
pub open spec fn le32(v: u32) -> Seq<u8> {
    seq![(v % 256) as u8, ((v / 256) % 256) as u8, ((v / 65536) % 256) as u8, (v / 16777216) as u8]
}

/// The little-endian `u16` stored at `pos` in `d`.
pub open spec fn le16_at(d: Seq<u8>, pos: int) -> u16 {
    (d[pos] + 256 * d[pos + 1]) as u16
}

/// The little-endian `u32` stored at `pos` in `d`.
pub open spec fn le32_at(d: Seq<u8>, pos: int) -> u32 {
    (d[pos] + 256 * d[pos + 1] + 65536 * d[pos + 2] + 16777216 * d[pos + 3]) as u32
}

/// Reads the little-endian `u32` at `pos`, or `None` past the end.
pub fn read_u32_le(data: &[u8], pos: usize) -> (r: Option<u32>)
    ensures
        r is Some <==> pos + 4 <= data@.len(),
        r matches Some(v) ==> v == le32_at(data@, pos as int),
{
    if pos > data.len() || data.len() - pos < 4 {
        None
    } else {
        let b0 = data[pos] as u32;
        let b1 = data[pos + 1] as u32;
        let b2 = data[pos + 2] as u32;
        let b3 = data[pos + 3] as u32;
        Some(b0 + 256 * b1 + 65536 * b2 + 16777216 * b3)
    }
}

/// Little-endian bytes of `v`.
pub fn u16_le_bytes(v: u16) -> (r: [u8; 2])
    ensures
        r@ == le16(v),
{
    let r = [(v % 256) as u8, (v / 256) as u8];
    assert(r@ =~= le16(v));
    r
}

/// Reads the little-endian `u16` at `pos`, or `None` past the end.
pub fn read_u16_le(data: &[u8], pos: usize) -> (r: Option<u16>)
    ensures
        r is Some <==> pos + 2 <= data@.len(),
        r matches Some(v) ==> v == le16_at(data@, pos as int),
{
    if pos > data.len() || data.len() - pos < 2 {
        None
    } else {
        let lo = data[pos] as u16;
        let hi = data[pos + 1] as u16;
        Some(lo + 256 * hi)
    }
}

/// Reads the byte at `pos`, or `None` past the end.
pub fn read_u8_at(data: &[u8], pos: usize) -> (r: Option<u8>)
    ensures
        r is Some <==> pos < data@.len(),
        r matches Some(v) ==> v == data@[pos as int],
{
    if pos < data.len() {
        Some(data[pos])
    } else {
        None
    }
}

/// Builds a message body field by field.
pub struct MessageWriter {
    buf: Vec<u8>,
}

impl View for MessageWriter {
    type V = Seq<u8>;

    closed spec fn view(&self) -> Seq<u8> {
        self.buf@
    }
}

impl MessageWriter {
    /// An empty body.
    pub fn new() -> (w: Self)
        ensures
            w@ == Seq::<u8>::empty(),
    {
        MessageWriter { buf: Vec::new() }
    }

    /// Appends one byte.
    pub fn write_u8(&mut self, v: u8)
        ensures
            final(self)@ == old(self)@.push(v),
    {
        self.buf.push(v);
    }

    /// Appends a little-endian `u16`.
    pub fn write_u16(&mut self, v: u16)
        ensures
            final(self)@ == old(self)@ + le16(v),
    {
        self.buf.push((v % 256) as u8);
        self.buf.push((v / 256) as u8);
        assert(self.buf@ =~= old(self)@ + le16(v));
    }

    /// Appends a little-endian `u32`.
    pub fn write_u32(&mut self, v: u32)
        ensures
            final(self)@ == old(self)@ + le32(v),
    {
        self.buf.push((v % 256) as u8);
        self.buf.push(((v / 256) % 256) as u8);
        self.buf.push(((v / 65536) % 256) as u8);
        self.buf.push((v / 16777216) as u8);
        assert(self.buf@ =~= old(self)@ + le32(v));
    }

    /// The finished body.
    pub fn into_bytes(self) -> (r: Vec<u8>)
        ensures
            r@ == self@,
    {
        self.buf
    }
}

/// The first complete frame of a receive buffer.
#[derive(Debug, Clone, Copy, PartialEq, Eq, Structural)]
pub enum FrameStatus {
    /// Fewer bytes than the length prefix announces (or no prefix yet).
    Incomplete,
    /// The announced length exceeds `MAX_MESSAGE_SIZE`; the connection is dropped.
    TooLarge,
    /// A whole frame whose payload has this many bytes, after the 2-byte prefix.
    Complete(usize),
}

/// What `next_frame` decides for a buffer.
pub open spec fn frame_status(buf: Seq<u8>) -> FrameStatus {
    if buf.len() < 2 {
        FrameStatus::Incomplete
    } else {
        let n = le16_at(buf, 0);
        if n > MAX_MESSAGE_SIZE {
            FrameStatus::TooLarge
        } else if buf.len() < 2 + n {
            FrameStatus::Incomplete
        } else {
            FrameStatus::Complete(n as usize)
        }
    }
}

/// Looks at the front of a receive buffer: a frame is a little-endian `u16`
/// length followed by that many (encrypted) payload bytes.
pub fn next_frame(buf: &[u8]) -> (r: FrameStatus)
    ensures
        r == frame_status(buf@),
{
    if buf.len() < 2 {
        return FrameStatus::Incomplete;
    }
    let n = buf[0] as u16 + 256 * (buf[1] as u16);
    let len = n as usize;
    if len > MAX_MESSAGE_SIZE {
        FrameStatus::TooLarge
    } else if buf.len() < 2 + len {
        FrameStatus::Incomplete
    } else {
        FrameStatus::Complete(len)
    }
}

/// The bytes sent on the socket for a message body: its length (truncated to
/// 16 bits) and the body encrypted for the client.
pub open spec fn framed(body: Seq<u8>) -> Seq<u8> {
    le16((body.len() % 65536) as u16) + rc4_apply(CLIENT_DECRYPT_KEY@, body)
}

/// Encrypts a message body and puts its length in front.
pub fn frame_message(body: Vec<u8>) -> (r: Vec<u8>)
    ensures
        r@ == framed(body@),
{
    let mut data = body;
    encrypt_server_message(data.as_mut_slice());
    let len = (data.len() % 65536) as u16;
    let mut out: Vec<u8> = Vec::new();
    out.push((len % 256) as u8);
    out.push((len / 256) as u8);
    let mut i: usize = 0;
    while i < data.len()
        invariant
            i <= data@.len(),
            out@ == le16(len) + data@.subrange(0, i as int),
        decreases data@.len() - i,
    {
        out.push(data[i]);
        i += 1;
        assert(out@ =~= le16(len) + data@.subrange(0, i as int));
    }
    assert(data@.subrange(0, data@.len() as int) =~= data@);
    out
}

/// The type of a decrypted message body and the rest of it, or `None` for a
/// body shorter than the 2-byte type.
pub fn split_message(body: &[u8]) -> (r: Option<(u16, Vec<u8>)>)
    ensures
        r is Some <==> body@.len() >= 2,
        r matches Some((t, rest)) ==> t == le16_at(body@, 0) && rest@ == body@.subrange(2, body@.len() as int),
{
    if body.len() < 2 {
        return None;
    }
    let t = body[0] as u16 + 256 * (body[1] as u16);
    let mut rest: Vec<u8> = Vec::new();
    let mut i: usize = 2;
    while i < body.len()
        invariant
            2 <= i <= body@.len(),
            rest@ == body@.subrange(2, i as int),
        decreases body@.len() - i,
    {
        rest.push(body[i]);
        i += 1;
        assert(rest@ =~= body@.subrange(2, i as int));
    }
    Some((t, rest))
}

/// A framed message, at the front of a receive buffer, is recognised whole:
/// its payload is the encrypted body, whatever follows it.
pub proof fn lemma_frame_roundtrip(body: Seq<u8>, rest: Seq<u8>)
    requires
        body.len() <= MAX_MESSAGE_SIZE,
    ensures
        frame_status(framed(body) + rest) == FrameStatus::Complete(body.len() as usize),
        (framed(body) + rest).subrange(2, 2 + body.len() as int) == rc4_apply(CLIENT_DECRYPT_KEY@, body),
{
    crate::crypto::lemma_rc4_roundtrip(CLIENT_DECRYPT_KEY@, body);
    let buf = framed(body) + rest;
    let n = body.len() as u16;
    assert(buf[0] == (n % 256) as u8);
    assert(buf[1] == (n / 256) as u8);
    assert(le16_at(buf, 0) == n);
    assert(buf.subrange(2, 2 + body.len() as int) =~= rc4_apply(CLIENT_DECRYPT_KEY@, body));
}

} // verus!
