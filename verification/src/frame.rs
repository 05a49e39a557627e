//! The framing codec: frames as bytes, and bytes as frames.
//!
//! A frame opens with a one-byte tag. Requests and both kinds of response
//! carry the sixteen bytes of a request identifier next. All but the declined
//! response end with a payload behind its length, an eight-byte unsigned
//! number in native byte order.

use crate::error::ViaductError;
use crate::wire::{get_u128, get_u64, put_u128, put_u64, Endian};
use crate::wire::{lemma_u128_wire, lemma_u64_wire, u128_unwire, u128_wire, u64_unwire, u64_wire};
use vstd::prelude::*;
use vstd::slice::slice_subrange;

verus! {

/// Tag of a one-way notification.
pub const RPC: u8 = 0;

/// Tag of a request.
pub const REQUEST: u8 = 1;

/// Tag of a response that carries a payload.
pub const SOME_RESPONSE: u8 = 2;

/// Tag of a response by which the responder declined.
pub const NONE_RESPONSE: u8 = 3;

/// Bytes that a frame holds besides its tag, its identifier and its payload
/// at most: no payload that the codec frames is longer than the machine's
/// address range less this many bytes.
pub const FRAME_OVERHEAD: usize = 25;

/// One unit on the wire.
#[derive(Debug)]
pub enum Frame {
    /// A one-way notification.
    Rpc { payload: Vec<u8> },
    /// A request, which the peer answers under the same identifier.
    Request { request_id: u128, payload: Vec<u8> },
    /// The answer to a request.
    SomeResponse { request_id: u128, payload: Vec<u8> },
    /// The refusal to answer a request.
    NoneResponse { request_id: u128 },
}

/// What a [`Frame`] holds.
pub enum FrameView {
    Rpc { payload: Seq<u8> },
    Request { request_id: u128, payload: Seq<u8> },
    SomeResponse { request_id: u128, payload: Seq<u8> },
    NoneResponse { request_id: u128 },
}

impl View for Frame {
    type V = FrameView;

    open spec fn view(&self) -> FrameView {
        match *self {
            Frame::Rpc { payload } => FrameView::Rpc { payload: payload@ },
            Frame::Request { request_id, payload } => FrameView::Request {
                request_id,
                payload: payload@,
            },
            Frame::SomeResponse { request_id, payload } => FrameView::SomeResponse {
                request_id,
                payload: payload@,
            },
            Frame::NoneResponse { request_id } => FrameView::NoneResponse { request_id },
        }
    }
}

/// Whether a payload of this length fits into a frame on this machine.
pub open spec fn fits(len: nat) -> bool {
    len + FRAME_OVERHEAD <= usize::MAX
}

impl FrameView {
    /// The tag that opens the frame.
    pub open spec fn tag(self) -> u8 {
        match self {
            FrameView::Rpc { .. } => RPC,
            FrameView::Request { .. } => REQUEST,
            FrameView::SomeResponse { .. } => SOME_RESPONSE,
            FrameView::NoneResponse { .. } => NONE_RESPONSE,
        }
    }

    /// Whether this machine can frame the payload.
    pub open spec fn sendable(self) -> bool {
        match self {
            FrameView::Rpc { payload } => fits(payload.len()),
            FrameView::Request { payload, .. } => fits(payload.len()),
            FrameView::SomeResponse { payload, .. } => fits(payload.len()),
            FrameView::NoneResponse { .. } => true,
        }
    }
}

/// The sixteen bytes of a request identifier: most significant byte first,
/// whatever the machine.
pub open spec fn request_id_wire(request_id: u128) -> Seq<u8> {
    u128_wire(request_id, Endian::Big)
}

/// A payload behind its length.
pub open spec fn body_wire(payload: Seq<u8>, endian: Endian) -> Seq<u8> {
    u64_wire(payload.len() as u64, endian) + payload
}

/// The bytes of a frame.
pub open spec fn frame_wire(frame: FrameView, endian: Endian) -> Seq<u8> {
    match frame {
        FrameView::Rpc { payload } => seq![RPC] + body_wire(payload, endian),
        FrameView::Request { request_id, payload } => seq![REQUEST] + request_id_wire(request_id)
            + body_wire(payload, endian),
        FrameView::SomeResponse { request_id, payload } => seq![SOME_RESPONSE] + request_id_wire(
            request_id,
        ) + body_wire(payload, endian),
        FrameView::NoneResponse { request_id } => seq![NONE_RESPONSE] + request_id_wire(
            request_id,
        ),
    }
}

/// What the head of a byte stream is.
pub enum Scan {
    /// A whole frame, which takes up the first `used` bytes.
    Frame { frame: FrameView, used: int },
    /// The start of a frame: nothing more can be told before the stream holds
    /// `total` bytes.
    Need { total: int },
    /// No frame.
    Bad { error: ViaductError },
}

/// The bytes of a frame before its length field: the tag, and the identifier
/// where the tag asks for one.
pub open spec fn head_len(tag: u8) -> int {
    if tag == RPC {
        1
    } else {
        17
    }
}

/// The frame with the given tag, identifier and payload.
pub open spec fn assemble(tag: u8, request_id: u128, payload: Seq<u8>) -> FrameView {
    if tag == RPC {
        FrameView::Rpc { payload }
    } else if tag == REQUEST {
        FrameView::Request { request_id, payload }
    } else if tag == SOME_RESPONSE {
        FrameView::SomeResponse { request_id, payload }
    } else {
        FrameView::NoneResponse { request_id }
    }
}

/// Reads the head of a byte stream as a frame.
pub open spec fn scan(stream: Seq<u8>, endian: Endian) -> Scan {
    if stream.len() < 1 {
        Scan::Need { total: 1 }
    } else if stream[0] > NONE_RESPONSE {
        Scan::Bad { error: ViaductError::UnknownTag(stream[0]) }
    } else {
        let tag = stream[0];
        let head = head_len(tag);
        let request_id = u128_unwire(stream.subrange(1, 17), Endian::Big);
        if stream.len() < head {
            Scan::Need { total: head }
        } else if tag == NONE_RESPONSE {
            Scan::Frame { frame: assemble(tag, request_id, Seq::empty()), used: head }
        } else if stream.len() < head + 8 {
            Scan::Need { total: head + 8 }
        } else {
            let len = u64_unwire(stream.subrange(head, head + 8), endian);
            if !fits(len as nat) {
                Scan::Bad { error: ViaductError::Oversized }
            } else if stream.len() < head + 8 + len {
                Scan::Need { total: head + 8 + len }
            } else {
                Scan::Frame {
                    frame: assemble(
                        tag,
                        request_id,
                        stream.subrange(head + 8, head + 8 + len),
                    ),
                    used: head + 8 + len,
                }
            }
        }
    }
}

/// What the head of a byte slice was found to be.
#[derive(Debug)]
pub enum Scanned {
    /// A whole frame, which takes up the first `used` bytes.
    Frame { frame: Frame, used: usize },
    /// The start of a frame: nothing more can be told before the slice holds
    /// `total` bytes.
    Need { total: usize },
    /// No frame.
    Bad { error: ViaductError },
}

impl View for Scanned {
    type V = Scan;

    open spec fn view(&self) -> Scan {
        match *self {
            Scanned::Frame { frame, used } => Scan::Frame { frame: frame@, used: used as int },
            Scanned::Need { total } => Scan::Need { total: total as int },
            Scanned::Bad { error } => Scan::Bad { error },
        }
    }
}

/// A frame's length on the wire.
pub proof fn lemma_frame_len(frame: FrameView, endian: Endian)
    ensures
        frame_wire(frame, endian).len() == match frame {
            FrameView::Rpc { payload } => 9 + payload.len(),
            FrameView::Request { payload, .. } => 25 + payload.len(),
            FrameView::SomeResponse { payload, .. } => 25 + payload.len(),
            FrameView::NoneResponse { .. } => 17,
        },
        frame_wire(frame, endian)[0] == frame.tag(),
{
    match frame {
        FrameView::Rpc { payload } => {
            lemma_u64_wire(payload.len() as u64, endian);
        },
        FrameView::Request { request_id, payload } => {
            lemma_u64_wire(payload.len() as u64, endian);
            lemma_u128_wire(request_id, Endian::Big);
        },
        FrameView::SomeResponse { request_id, payload } => {
            lemma_u64_wire(payload.len() as u64, endian);
            lemma_u128_wire(request_id, Endian::Big);
        },
        FrameView::NoneResponse { request_id } => {
            lemma_u128_wire(request_id, Endian::Big);
        },
    }
}

/// A stream that opens with the bytes of a frame scans as that frame, and
/// the scan uses up exactly those bytes, whatever follows them.
pub proof fn lemma_scan_frame(frame: FrameView, endian: Endian, rest: Seq<u8>)
    requires
        frame.sendable(),
    ensures
        scan(frame_wire(frame, endian) + rest, endian) == (Scan::Frame {
            frame,
            used: frame_wire(frame, endian).len() as int,
        }),
{
    let wire = frame_wire(frame, endian);
    let stream = wire + rest;
    lemma_frame_len(frame, endian);
    match frame {
        FrameView::Rpc { payload } => {
            lemma_u64_wire(payload.len() as u64, endian);
            assert(stream.subrange(1, 9) =~= u64_wire(payload.len() as u64, endian));
            assert(stream.subrange(9, 9 + payload.len() as int) =~= payload);
        },
        FrameView::Request { request_id, payload } => {
            lemma_u64_wire(payload.len() as u64, endian);
            lemma_u128_wire(request_id, Endian::Big);
            assert(stream.subrange(1, 17) =~= request_id_wire(request_id));
            assert(stream.subrange(17, 25) =~= u64_wire(payload.len() as u64, endian));
            assert(stream.subrange(25, 25 + payload.len() as int) =~= payload);
        },
        FrameView::SomeResponse { request_id, payload } => {
            lemma_u64_wire(payload.len() as u64, endian);
            lemma_u128_wire(request_id, Endian::Big);
            assert(stream.subrange(1, 17) =~= request_id_wire(request_id));
            assert(stream.subrange(17, 25) =~= u64_wire(payload.len() as u64, endian));
            assert(stream.subrange(25, 25 + payload.len() as int) =~= payload);
        },
        FrameView::NoneResponse { request_id } => {
            lemma_u128_wire(request_id, Endian::Big);
            assert(stream.subrange(1, 17) =~= request_id_wire(request_id));
        },
    }
}

/// A stream that breaks off inside a frame scans as the start of a frame:
/// the scan asks for more bytes, and for no more than the frame holds.
pub proof fn lemma_scan_prefix(frame: FrameView, endian: Endian, cut: int)
    requires
        frame.sendable(),
        0 <= cut < frame_wire(frame, endian).len(),
    ensures
        scan(frame_wire(frame, endian).subrange(0, cut), endian) is Need,
        cut < scan(frame_wire(frame, endian).subrange(0, cut), endian)->total
            <= frame_wire(frame, endian).len(),
{
    let wire = frame_wire(frame, endian);
    let stream = wire.subrange(0, cut);
    lemma_frame_len(frame, endian);
    if cut >= 1 {
        assert(stream[0] == wire[0]);
    }
    match frame {
        FrameView::Rpc { payload } => {
            lemma_u64_wire(payload.len() as u64, endian);
            if cut >= 9 {
                assert(stream.subrange(1, 9) =~= u64_wire(payload.len() as u64, endian));
            }
        },
        FrameView::Request { request_id, payload } => {
            lemma_u64_wire(payload.len() as u64, endian);
            lemma_u128_wire(request_id, Endian::Big);
            if cut >= 25 {
                assert(stream.subrange(17, 25) =~= u64_wire(payload.len() as u64, endian));
            }
        },
        FrameView::SomeResponse { request_id, payload } => {
            lemma_u64_wire(payload.len() as u64, endian);
            lemma_u128_wire(request_id, Endian::Big);
            if cut >= 25 {
                assert(stream.subrange(17, 25) =~= u64_wire(payload.len() as u64, endian));
            }
        },
        FrameView::NoneResponse { request_id } => {
            lemma_u128_wire(request_id, Endian::Big);
        },
    }
}

/// The bytes of the frame with the given tag, identifier and payload.
pub(crate) fn frame_bytes(tag: u8, request_id: u128, payload: &[u8], endian: Endian) -> (out:
    Result<Vec<u8>, ViaductError>)
    requires
        tag <= NONE_RESPONSE,
    ensures
        out == if assemble(tag, request_id, payload@).sendable() {
            Ok::<Vec<u8>, ViaductError>(out->Ok_0)
        } else {
            Err(ViaductError::Oversized)
        },
        out is Ok ==> out->Ok_0@ == frame_wire(assemble(tag, request_id, payload@), endian),
{
    let mut out: Vec<u8> = Vec::new();
    out.push(tag);
    if tag != RPC {
        put_u128(&mut out, request_id, Endian::Big);
    }
    if tag != NONE_RESPONSE {
        if payload.len() > usize::MAX - FRAME_OVERHEAD {
            return Err(ViaductError::Oversized);
        }
        let len: u64 = payload.len() as u64;
        put_u64(&mut out, len, endian);
        out.extend_from_slice(payload);
    }
    assert(out@ =~= frame_wire(assemble(tag, request_id, payload@), endian));
    Ok(out)
}

impl Frame {
    /// The bytes of this frame in the given byte order, or `Oversized` when
    /// its payload is too long for this machine to frame.
    pub fn encode(&self, endian: Endian) -> (out: Result<Vec<u8>, ViaductError>)
        ensures
            out == if self@.sendable() {
                Ok::<Vec<u8>, ViaductError>(out->Ok_0)
            } else {
                Err(ViaductError::Oversized)
            },
            out is Ok ==> out->Ok_0@ == frame_wire(self@, endian),
    {
        match self {
            Frame::Rpc { payload } => frame_bytes(RPC, 0, payload.as_slice(), endian),
            Frame::Request { request_id, payload } => frame_bytes(
                REQUEST,
                *request_id,
                payload.as_slice(),
                endian,
            ),
            Frame::SomeResponse { request_id, payload } => frame_bytes(
                SOME_RESPONSE,
                *request_id,
                payload.as_slice(),
                endian,
            ),
            Frame::NoneResponse { request_id } => {
                let empty: Vec<u8> = Vec::new();
                frame_bytes(NONE_RESPONSE, *request_id, empty.as_slice(), endian)
            },
        }
    }
}

/// Reads the head of `stream` as a frame.
pub fn scan_bytes(stream: &[u8], endian: Endian) -> (found: Scanned)
    ensures
        found@ == scan(stream@, endian),
{
    if stream.len() < 1 {
        return Scanned::Need { total: 1 };
    }
    let tag: u8 = stream[0];
    if tag > NONE_RESPONSE {
        return Scanned::Bad { error: ViaductError::UnknownTag(tag) };
    }
    let head: usize = if tag == RPC {
        1
    } else {
        17
    };
    if stream.len() < head {
        return Scanned::Need { total: head };
    }
    let request_id: u128 = if tag == RPC {
        0
    } else {
        match get_u128(slice_subrange(stream, 1, 17), Endian::Big) {
            Some(id) => id,
            None => 0,
        }
    };
    if tag == NONE_RESPONSE {
        return Scanned::Frame { frame: Frame::NoneResponse { request_id }, used: head };
    }
    if stream.len() < head + 8 {
        return Scanned::Need { total: head + 8 };
    }
    let len: u64 = match get_u64(slice_subrange(stream, head, head + 8), endian) {
        Some(len) => len,
        None => 0,
    };
    if len > (usize::MAX - FRAME_OVERHEAD) as u64 {
        return Scanned::Bad { error: ViaductError::Oversized };
    }
    let len: usize = len as usize;
    let total: usize = head + 8 + len;
    if stream.len() < total {
        return Scanned::Need { total };
    }
    let mut payload: Vec<u8> = Vec::new();
    payload.extend_from_slice(slice_subrange(stream, head + 8, total));
    assert(payload@ =~= stream@.subrange(head + 8, total as int));
    let frame = if tag == RPC {
        Frame::Rpc { payload }
    } else if tag == REQUEST {
        Frame::Request { request_id, payload }
    } else {
        Frame::SomeResponse { request_id, payload }
    };
    Scanned::Frame { frame, used: total }
}

} // verus!
