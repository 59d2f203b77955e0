//! Little-endian field access and the fixed request and reply headers.
use vstd::bytes::*;
use vstd::prelude::*;

use crate::error::{Error, ErrorCode};

verus! {

/// Size of `fuse_in_header`.
pub const REQUEST_HEADER_LEN: usize = 40;

/// Size of `fuse_out_header`.
pub const RESPONSE_HEADER_LEN: usize = 16;

/// The `u16` stored little-endian at `off`.
pub open spec fn u16_at(s: Seq<u8>, off: int) -> u16 {
    spec_u16_from_le_bytes(s.subrange(off, off + 2))
}

/// The `u32` stored little-endian at `off`.
pub open spec fn u32_at(s: Seq<u8>, off: int) -> u32 {
    spec_u32_from_le_bytes(s.subrange(off, off + 4))
}

/// The `u64` stored little-endian at `off`.
pub open spec fn u64_at(s: Seq<u8>, off: int) -> u64 {
    spec_u64_from_le_bytes(s.subrange(off, off + 8))
}

/// `n` zero bytes.
pub open spec fn zeros(n: nat) -> Seq<u8> {
    Seq::new(n, |i: int| 0u8)
}

pub fn read_u16(buf: &[u8], off: usize) -> (r: u16)
    requires
        off + 2 <= buf@.len(),
    ensures
        r == u16_at(buf@, off as int),
{
    let _len = buf.len();
    u16_from_le_bytes(vstd::slice::slice_subrange(buf, off, off + 2))
}

pub fn read_u32(buf: &[u8], off: usize) -> (r: u32)
    requires
        off + 4 <= buf@.len(),
    ensures
        r == u32_at(buf@, off as int),
{
    let _len = buf.len();
    u32_from_le_bytes(vstd::slice::slice_subrange(buf, off, off + 4))
}

pub fn read_u64(buf: &[u8], off: usize) -> (r: u64)
    requires
        off + 8 <= buf@.len(),
    ensures
        r == u64_at(buf@, off as int),
{
    let _len = buf.len();
    u64_from_le_bytes(vstd::slice::slice_subrange(buf, off, off + 8))
}

/// Appends every byte of `bytes` to `out`.
pub fn push_bytes(out: &mut Vec<u8>, bytes: &[u8])
    ensures
        final(out)@ == old(out)@ + bytes@,
{
    let mut i: usize = 0;
    while i < bytes.len()
        invariant
            i <= bytes@.len(),
            out@ == old(out)@ + bytes@.subrange(0, i as int),
        decreases bytes@.len() - i,
    {
        out.push(bytes[i]);
        i = i + 1;
        assert(bytes@.subrange(0, i as int) == bytes@.subrange(0, i - 1) + seq![bytes@[i - 1]]);
    }
    assert(bytes@.subrange(0, bytes@.len() as int) == bytes@);
}

/// Appends `n` zero bytes to `out`.
pub fn push_zeros(out: &mut Vec<u8>, n: usize)
    ensures
        final(out)@ == old(out)@ + zeros(n as nat),
{
    let mut i: usize = 0;
    while i < n
        invariant
            i <= n,
            out@ == old(out)@ + zeros(i as nat),
        decreases n - i,
    {
        out.push(0u8);
        i = i + 1;
        assert(zeros(i as nat) == zeros((i - 1) as nat) + seq![0u8]);
    }
}

pub fn push_u16(out: &mut Vec<u8>, x: u16)
    ensures
        final(out)@ == old(out)@ + spec_u16_to_le_bytes(x),
{
    let b = u16_to_le_bytes(x);
    push_bytes(out, b.as_slice());
}

pub fn push_u32(out: &mut Vec<u8>, x: u32)
    ensures
        final(out)@ == old(out)@ + spec_u32_to_le_bytes(x),
{
    let b = u32_to_le_bytes(x);
    push_bytes(out, b.as_slice());
}

pub fn push_u64(out: &mut Vec<u8>, x: u64)
    ensures
        final(out)@ == old(out)@ + spec_u64_to_le_bytes(x),
{
    let b = u64_to_le_bytes(x);
    push_bytes(out, b.as_slice());
}

/// Reading back what was written gives the written value, for each width.
pub proof fn lemma_le_round_trip()
    ensures
        forall|x: u16|
            #![trigger spec_u16_to_le_bytes(x)]
            spec_u16_to_le_bytes(x).len() == 2 && spec_u16_from_le_bytes(spec_u16_to_le_bytes(x)) == x,
        forall|x: u32|
            #![trigger spec_u32_to_le_bytes(x)]
            spec_u32_to_le_bytes(x).len() == 4 && spec_u32_from_le_bytes(spec_u32_to_le_bytes(x)) == x,
        forall|x: u64|
            #![trigger spec_u64_to_le_bytes(x)]
            spec_u64_to_le_bytes(x).len() == 8 && spec_u64_from_le_bytes(spec_u64_to_le_bytes(x)) == x,
        forall|s: Seq<u8>|
            s.len() == 2 ==> #[trigger] spec_u16_to_le_bytes(spec_u16_from_le_bytes(s)) == s,
        forall|s: Seq<u8>|
            s.len() == 4 ==> #[trigger] spec_u32_to_le_bytes(spec_u32_from_le_bytes(s)) == s,
        forall|s: Seq<u8>|
            s.len() == 8 ==> #[trigger] spec_u64_to_le_bytes(spec_u64_from_le_bytes(s)) == s,
{
    lemma_auto_spec_u16_to_from_le_bytes();
    lemma_auto_spec_u32_to_from_le_bytes();
    lemma_auto_spec_u64_to_from_le_bytes();
}

/// `fuse_in_header`: the fixed header in front of every request.
#[derive(Copy, Clone, Debug, PartialEq, Eq, Structural)]
pub struct RequestHeader {
    pub len: u32,
    pub opcode: u32,
    pub unique: u64,
    pub nodeid: u64,
    pub uid: u32,
    pub gid: u32,
    pub pid: u32,
    pub padding: u32,
}

/// The wire bytes of a request header.
pub open spec fn request_header_bytes(h: RequestHeader) -> Seq<u8> {
    spec_u32_to_le_bytes(h.len) + spec_u32_to_le_bytes(h.opcode) + spec_u64_to_le_bytes(h.unique)
        + spec_u64_to_le_bytes(h.nodeid) + spec_u32_to_le_bytes(h.uid) + spec_u32_to_le_bytes(
        h.gid,
    ) + spec_u32_to_le_bytes(h.pid) + spec_u32_to_le_bytes(h.padding)
}

/// The request header that the first forty bytes of `s` hold.
pub open spec fn parse_request_header(s: Seq<u8>) -> RequestHeader {
    RequestHeader {
        len: u32_at(s, 0),
        opcode: u32_at(s, 4),
        unique: u64_at(s, 8),
        nodeid: u64_at(s, 16),
        uid: u32_at(s, 24),
        gid: u32_at(s, 28),
        pid: u32_at(s, 32),
        padding: u32_at(s, 36),
    }
}

impl RequestHeader {
    /// Reads the header at the front of a request frame.
    pub fn decode(buf: &[u8]) -> (r: Result<RequestHeader, Error>)
        ensures
            buf@.len() < REQUEST_HEADER_LEN ==> r == Err::<RequestHeader, Error>(
                Error::UnexpectedEof,
            ),
            buf@.len() >= REQUEST_HEADER_LEN ==> r == Ok::<RequestHeader, Error>(
                parse_request_header(buf@),
            ),
    {
        if buf.len() < REQUEST_HEADER_LEN {
            return Err(Error::UnexpectedEof);
        }
        Ok(
            RequestHeader {
                len: read_u32(buf, 0),
                opcode: read_u32(buf, 4),
                unique: read_u64(buf, 8),
                nodeid: read_u64(buf, 16),
                uid: read_u32(buf, 24),
                gid: read_u32(buf, 28),
                pid: read_u32(buf, 32),
                padding: read_u32(buf, 36),
            },
        )
    }

    /// Appends the header's wire bytes to `out`.
    pub fn encode_into(&self, out: &mut Vec<u8>)
        ensures
            final(out)@ == old(out)@ + request_header_bytes(*self),
    {
        push_u32(out, self.len);
        push_u32(out, self.opcode);
        push_u64(out, self.unique);
        push_u64(out, self.nodeid);
        push_u32(out, self.uid);
        push_u32(out, self.gid);
        push_u32(out, self.pid);
        push_u32(out, self.padding);
        assert(final(out)@ =~= old(out)@ + request_header_bytes(*self));
    }
}

/// `fuse_out_header`: the fixed header in front of every reply.
#[derive(Copy, Clone, Debug, PartialEq, Eq, Structural)]
pub struct ResponseHeader {
    pub len: u32,
    pub error: i32,
    pub unique: u64,
}

/// The wire bytes of a reply header.
pub open spec fn response_header_bytes(h: ResponseHeader) -> Seq<u8> {
    spec_u32_to_le_bytes(h.len) + spec_u32_to_le_bytes(h.error as u32) + spec_u64_to_le_bytes(
        h.unique,
    )
}

/// The reply header that the first sixteen bytes of `s` hold.
pub open spec fn parse_response_header(s: Seq<u8>) -> ResponseHeader {
    ResponseHeader { len: u32_at(s, 0), error: u32_at(s, 4) as i32, unique: u64_at(s, 8) }
}

impl ResponseHeader {
    /// Reads the header at the front of a reply frame.
    pub fn decode(buf: &[u8]) -> (r: Result<ResponseHeader, Error>)
        ensures
            buf@.len() < RESPONSE_HEADER_LEN ==> r == Err::<ResponseHeader, Error>(
                Error::UnexpectedEof,
            ),
            buf@.len() >= RESPONSE_HEADER_LEN ==> r == Ok::<ResponseHeader, Error>(
                parse_response_header(buf@),
            ),
    {
        if buf.len() < RESPONSE_HEADER_LEN {
            return Err(Error::UnexpectedEof);
        }
        Ok(
            ResponseHeader {
                len: read_u32(buf, 0),
                error: read_u32(buf, 4) as i32,
                unique: read_u64(buf, 8),
            },
        )
    }

    /// Appends the header's wire bytes to `out`.
    pub fn encode_into(&self, out: &mut Vec<u8>)
        ensures
            final(out)@ == old(out)@ + response_header_bytes(*self),
    {
        push_u32(out, self.len);
        push_u32(out, self.error as u32);
        push_u64(out, self.unique);
        assert(final(out)@ =~= old(out)@ + response_header_bytes(*self));
    }
}

/// Decoding an encoded request header gives it back; encoding the header that
/// forty bytes hold gives those bytes back.
pub proof fn lemma_request_header_round_trip(h: RequestHeader, s: Seq<u8>)
    requires
        s.len() == REQUEST_HEADER_LEN,
    ensures
        request_header_bytes(h).len() == REQUEST_HEADER_LEN,
        parse_request_header(request_header_bytes(h)) == h,
        request_header_bytes(parse_request_header(s)) == s,
{
    lemma_le_round_trip();
    let b = request_header_bytes(h);
    assert(b.subrange(0, 4) =~= spec_u32_to_le_bytes(h.len));
    assert(b.subrange(4, 8) =~= spec_u32_to_le_bytes(h.opcode));
    assert(b.subrange(8, 16) =~= spec_u64_to_le_bytes(h.unique));
    assert(b.subrange(16, 24) =~= spec_u64_to_le_bytes(h.nodeid));
    assert(b.subrange(24, 28) =~= spec_u32_to_le_bytes(h.uid));
    assert(b.subrange(28, 32) =~= spec_u32_to_le_bytes(h.gid));
    assert(b.subrange(32, 36) =~= spec_u32_to_le_bytes(h.pid));
    assert(b.subrange(36, 40) =~= spec_u32_to_le_bytes(h.padding));
    assert(s =~= s.subrange(0, 4) + s.subrange(4, 8) + s.subrange(8, 16) + s.subrange(16, 24)
        + s.subrange(24, 28) + s.subrange(28, 32) + s.subrange(32, 36) + s.subrange(36, 40));
}

/// Decoding an encoded reply header gives it back; encoding the header that
/// sixteen bytes hold gives those bytes back.
pub proof fn lemma_response_header_round_trip(h: ResponseHeader, s: Seq<u8>)
    requires
        s.len() == RESPONSE_HEADER_LEN,
    ensures
        response_header_bytes(h).len() == RESPONSE_HEADER_LEN,
        parse_response_header(response_header_bytes(h)) == h,
        response_header_bytes(parse_response_header(s)) == s,
{
    lemma_le_round_trip();
    let b = response_header_bytes(h);
    let e = h.error;
    assert((e as u32) as i32 == e) by (bit_vector);
    assert(b.subrange(0, 4) =~= spec_u32_to_le_bytes(h.len));
    assert(b.subrange(4, 8) =~= spec_u32_to_le_bytes(h.error as u32));
    assert(b.subrange(8, 16) =~= spec_u64_to_le_bytes(h.unique));
    let u = u32_at(s, 4);
    assert((u as i32) as u32 == u) by (bit_vector);
    assert(s =~= s.subrange(0, 4) + s.subrange(4, 8) + s.subrange(8, 16));
}

/// The header of a request frame with a body of `body_len` bytes, from no
/// particular process.
pub open spec fn frame_header(opcode: u32, unique: u64, nodeid: u64, body_len: nat) -> RequestHeader {
    RequestHeader {
        len: (REQUEST_HEADER_LEN + body_len) as u32,
        opcode,
        unique,
        nodeid,
        uid: 0,
        gid: 0,
        pid: 0,
        padding: 0,
    }
}

/// The bytes of a request frame: its header, then `body`.
pub open spec fn request_frame_bytes(opcode: u32, unique: u64, nodeid: u64, body: Seq<u8>) -> Seq<
    u8,
> {
    request_header_bytes(frame_header(opcode, unique, nodeid, body.len())) + body
}

/// Builds the frame of a request with body `body`.
pub fn encode_request_frame(opcode: u32, unique: u64, nodeid: u64, body: &[u8]) -> (r: Vec<u8>)
    requires
        REQUEST_HEADER_LEN + body@.len() <= u32::MAX,
    ensures
        r@ == request_frame_bytes(opcode, unique, nodeid, body@),
{
    let h = RequestHeader {
        len: (REQUEST_HEADER_LEN + body.len()) as u32,
        opcode,
        unique,
        nodeid,
        uid: 0,
        gid: 0,
        pid: 0,
        padding: 0,
    };
    let mut out: Vec<u8> = Vec::new();
    h.encode_into(&mut out);
    push_bytes(&mut out, body);
    out
}

/// A frame's header reads back as written, and each field of the body reads
/// back from the body.
pub proof fn lemma_request_frame(opcode: u32, unique: u64, nodeid: u64, body: Seq<u8>)
    ensures
        ({
            let s = request_frame_bytes(opcode, unique, nodeid, body);
            &&& s.len() == REQUEST_HEADER_LEN + body.len()
            &&& parse_request_header(s) == frame_header(opcode, unique, nodeid, body.len())
            &&& forall|i: int, j: int|
                REQUEST_HEADER_LEN <= i <= j <= s.len() ==> #[trigger] s.subrange(i, j)
                    == body.subrange(i - REQUEST_HEADER_LEN, j - REQUEST_HEADER_LEN)
        }),
{
    let h = frame_header(opcode, unique, nodeid, body.len());
    let hb = request_header_bytes(h);
    lemma_request_header_round_trip(h, seq![0u8; 40]);
    let s = hb + body;
    assert(s.subrange(0, 4) =~= hb.subrange(0, 4));
    assert(s.subrange(4, 8) =~= hb.subrange(4, 8));
    assert(s.subrange(8, 16) =~= hb.subrange(8, 16));
    assert(s.subrange(16, 24) =~= hb.subrange(16, 24));
    assert(s.subrange(24, 28) =~= hb.subrange(24, 28));
    assert(s.subrange(28, 32) =~= hb.subrange(28, 32));
    assert(s.subrange(32, 36) =~= hb.subrange(32, 36));
    assert(s.subrange(36, 40) =~= hb.subrange(36, 40));
    assert forall|i: int, j: int|
        REQUEST_HEADER_LEN <= i <= j <= s.len() implies #[trigger] s.subrange(i, j)
        == body.subrange(i - REQUEST_HEADER_LEN, j - REQUEST_HEADER_LEN) by {
        assert(s.subrange(i, j) =~= body.subrange(i - REQUEST_HEADER_LEN, j - REQUEST_HEADER_LEN));
    }
}

/// The wire bytes of a successful reply to request `unique` carrying `payload`.
pub open spec fn reply_bytes(unique: u64, payload: Seq<u8>) -> Seq<u8> {
    response_header_bytes(
        ResponseHeader { len: (RESPONSE_HEADER_LEN + payload.len()) as u32, error: 0, unique },
    ) + payload
}

/// The wire bytes of an error reply with errno `code` to request `unique`: a
/// header alone.
pub open spec fn error_reply_bytes(unique: u64, code: u16) -> Seq<u8> {
    response_header_bytes(
        ResponseHeader { len: RESPONSE_HEADER_LEN as u32, error: -(code as int) as i32, unique },
    )
}

/// The largest payload that a reply's 32-bit length can cover.
pub open spec fn payload_fits(n: nat) -> bool {
    RESPONSE_HEADER_LEN + n <= u32::MAX
}

/// Frames `payload` as the successful reply to request `unique`.
pub fn encode_reply(unique: u64, payload: &[u8]) -> (r: Vec<u8>)
    requires
        payload_fits(payload@.len()),
    ensures
        r@ == reply_bytes(unique, payload@),
{
    let h = ResponseHeader {
        len: (RESPONSE_HEADER_LEN + payload.len()) as u32,
        error: 0,
        unique,
    };
    let mut out: Vec<u8> = Vec::new();
    h.encode_into(&mut out);
    push_bytes(&mut out, payload);
    out
}

/// Frames the error reply with `code` to request `unique`.
pub fn encode_error(unique: u64, code: ErrorCode) -> (r: Vec<u8>)
    ensures
        r@ == error_reply_bytes(unique, code@),
{
    let h = ResponseHeader { len: RESPONSE_HEADER_LEN as u32, error: code.negated(), unique };
    let mut out: Vec<u8> = Vec::new();
    h.encode_into(&mut out);
    out
}

/// The wire bytes of a notification of kind `code`: a message that answers
/// no request, so its `unique` is zero and its error field carries the kind.
pub open spec fn notify_bytes(code: i32, payload: Seq<u8>) -> Seq<u8> {
    response_header_bytes(
        ResponseHeader { len: (RESPONSE_HEADER_LEN + payload.len()) as u32, error: code, unique: 0 },
    ) + payload
}

/// Frames a notification of kind `code` carrying `payload`.
pub fn encode_notify(code: i32, payload: &[u8]) -> (r: Vec<u8>)
    requires
        payload_fits(payload@.len()),
    ensures
        r@ == notify_bytes(code, payload@),
{
    let h = ResponseHeader {
        len: (RESPONSE_HEADER_LEN + payload.len()) as u32,
        error: code,
        unique: 0,
    };
    let mut out: Vec<u8> = Vec::new();
    h.encode_into(&mut out);
    push_bytes(&mut out, payload);
    out
}

/// A successful reply's header gives the reply's whole length, the request's
/// `unique` and no error, and the payload follows it unchanged.
pub proof fn lemma_reply_header(unique: u64, payload: Seq<u8>)
    requires
        payload_fits(payload.len()),
    ensures
        ({
            let b = reply_bytes(unique, payload);
            let h = parse_response_header(b);
            &&& h.len == b.len()
            &&& h.unique == unique
            &&& h.error == 0
            &&& b.subrange(RESPONSE_HEADER_LEN as int, b.len() as int) == payload
        }),
{
    let h = ResponseHeader { len: (RESPONSE_HEADER_LEN + payload.len()) as u32, error: 0, unique };
    lemma_response_header_round_trip(h, seq![0u8; 16]);
    let hb = response_header_bytes(h);
    let b = reply_bytes(unique, payload);
    assert(b.subrange(0, 16) =~= hb);
    assert(b.subrange(0, 4) =~= hb.subrange(0, 4));
    assert(b.subrange(4, 8) =~= hb.subrange(4, 8));
    assert(b.subrange(8, 16) =~= hb.subrange(8, 16));
    assert(b.subrange(16, b.len() as int) =~= payload);
}

/// An error reply is a header alone whose length is sixteen, whose error is
/// the negated errno and whose `unique` is the request's.
pub proof fn lemma_error_reply_header(unique: u64, code: u16)
    ensures
        ({
            let b = error_reply_bytes(unique, code);
            let h = parse_response_header(b);
            &&& b.len() == RESPONSE_HEADER_LEN
            &&& h.len == b.len()
            &&& h.unique == unique
            &&& h.error == -(code as int)
        }),
{
    let h = ResponseHeader {
        len: RESPONSE_HEADER_LEN as u32,
        error: -(code as int) as i32,
        unique,
    };
    lemma_response_header_round_trip(h, seq![0u8; 16]);
}

} // verus!
