//! The two lanes of an endpoint.
//!
//! The outbound lane turns messages into frames; the inbound lane turns the
//! bytes that the caller read from the pipe into frames and events. Neither
//! touches a pipe: the caller writes each frame whole while it holds the lock
//! of the outbound pipe, so that frames of different threads never mix.

use crate::error::ViaductError;
use crate::frame::{fits, frame_bytes, frame_wire, lemma_scan_frame, scan, scan_bytes};
use crate::frame::{Frame, FrameView, Scan, Scanned};
use crate::frame::{NONE_RESPONSE, REQUEST, RPC, SOME_RESPONSE};
use crate::serde::{ViaductDeserialize, ViaductSerialize};
use crate::table::{Deposit, ViaductResponseState};
use crate::wire::Endian;
use core::marker::PhantomData;
use vstd::prelude::*;
use vstd::slice::slice_subrange;

verus! {

/// What the outbound lane is asked to frame.
#[derive(Clone, Copy, Debug, PartialEq, Eq, Structural)]
pub enum Outbound {
    /// A one-way notification.
    Rpc,
    /// A request under the given identifier.
    Request(u128),
    /// The answer to the request with the given identifier.
    Response(u128),
}

impl Outbound {
    /// The frame that carries the given payload.
    pub open spec fn frame(self, payload: Seq<u8>) -> FrameView {
        match self {
            Outbound::Rpc => FrameView::Rpc { payload },
            Outbound::Request(request_id) => FrameView::Request { request_id, payload },
            Outbound::Response(request_id) => FrameView::SomeResponse { request_id, payload },
        }
    }
}

/// What the outbound lane of an endpoint holds.
pub struct TxView {
    /// The payload that the codec wrote last.
    pub scratch: Seq<u8>,
    /// The byte order in which lengths are written.
    pub endian: Endian,
    /// Whether the pipe has failed.
    pub broken: bool,
}

impl TxView {
    /// What the lane makes of the payload in its scratch buffer once the
    /// codec has reported: the codec's refusal, the refusal of a payload too
    /// long to frame, or the frame.
    pub open spec fn sealed(self, outbound: Outbound, encoded: bool) -> Result<
        Seq<u8>,
        ViaductError,
    > {
        if !encoded {
            Err(ViaductError::Encode)
        } else if !fits(self.scratch.len()) {
            Err(ViaductError::Oversized)
        } else {
            Ok(frame_wire(outbound.frame(self.scratch), self.endian))
        }
    }
}

/// The bytes that a lane hands out, taken as a sequence.
pub open spec fn bytes_view(out: Result<Vec<u8>, ViaductError>) -> Result<Seq<u8>, ViaductError> {
    match out {
        Ok(bytes) => Ok(bytes@),
        Err(error) => Err(error),
    }
}

/// The sending side of a viaduct.
#[derive(Debug)]
pub struct ViaductTx<RpcTx, RequestTx, RpcRx, RequestRx> where
    RpcTx: ViaductSerialize,
    RequestTx: ViaductSerialize,
    RpcRx: ViaductDeserialize,
    RequestRx: ViaductDeserialize,
 {
    buf: Vec<u8>,
    endian: Endian,
    broken: bool,
    _phantom: PhantomData<(RpcTx, RequestTx, RpcRx, RequestRx)>,
}

impl<RpcTx, RequestTx, RpcRx, RequestRx> View for ViaductTx<RpcTx, RequestTx, RpcRx, RequestRx> where
    RpcTx: ViaductSerialize,
    RequestTx: ViaductSerialize,
    RpcRx: ViaductDeserialize,
    RequestRx: ViaductDeserialize,
 {
    type V = TxView;

    closed spec fn view(&self) -> TxView {
        TxView { scratch: self.buf@, endian: self.endian, broken: self.broken }
    }
}

impl<RpcTx, RequestTx, RpcRx, RequestRx> ViaductTx<RpcTx, RequestTx, RpcRx, RequestRx> where
    RpcTx: ViaductSerialize,
    RequestTx: ViaductSerialize,
    RpcRx: ViaductDeserialize,
    RequestRx: ViaductDeserialize,
 {
    /// The outbound lane of a new channel that writes lengths in the given
    /// byte order.
    pub fn new(endian: Endian) -> (tx: Self)
        ensures
            tx@ == (TxView { scratch: Seq::empty(), endian, broken: false }),
    {
        ViaductTx { buf: Vec::new(), endian, broken: false, _phantom: PhantomData }
    }

    /// Whether the pipe has failed.
    pub fn is_broken(&self) -> (broken: bool)
        ensures
            broken == self@.broken,
    {
        self.broken
    }

    /// Records that a write to the pipe failed: from now on the lane frames
    /// nothing.
    pub fn break_pipe(&mut self)
        ensures
            final(self)@ == (TxView { broken: true, ..old(self)@ }),
    {
        self.broken = true;
    }

    /// Frames the payload in the scratch buffer after the codec has
    /// reported; `encoded` says whether the codec wrote the message.
    pub fn seal(&self, outbound: Outbound, encoded: bool) -> (out: Result<Vec<u8>, ViaductError>)
        ensures
            bytes_view(out) == self@.sealed(outbound, encoded),
    {
        if !encoded {
            return Err(ViaductError::Encode);
        }
        match outbound {
            Outbound::Rpc => frame_bytes(RPC, 0, self.buf.as_slice(), self.endian),
            Outbound::Request(request_id) => frame_bytes(
                REQUEST,
                request_id,
                self.buf.as_slice(),
                self.endian,
            ),
            Outbound::Response(request_id) => frame_bytes(
                SOME_RESPONSE,
                request_id,
                self.buf.as_slice(),
                self.endian,
            ),
        }
    }

    /// Encodes a message of any type into the scratch buffer and frames it.
    /// A broken lane frames nothing and leaves the buffer as it is.
    pub fn send<M: ViaductSerialize>(&mut self, outbound: Outbound, message: &M) -> (out: Result<
        Vec<u8>,
        ViaductError,
    >)
        ensures
            final(self)@.endian == old(self)@.endian,
            final(self)@.broken == old(self)@.broken,
            old(self)@.broken ==> out == Err::<Vec<u8>, ViaductError>(ViaductError::BrokenPipe)
                && final(self)@ == old(self)@,
            !old(self)@.broken ==> bytes_view(out) == final(self)@.sealed(outbound, true)
                || bytes_view(out) == final(self)@.sealed(outbound, false),
    {
        if self.broken {
            return Err(ViaductError::BrokenPipe);
        }
        self.buf.clear();
        let encoded = message.to_pipeable(&mut self.buf).is_ok();
        self.seal(outbound, encoded)
    }

    /// Frames a one-way notification. The caller writes the frame to the
    /// pipe; the peer sends nothing back.
    pub fn rpc(&mut self, rpc: &RpcTx) -> (out: Result<Vec<u8>, ViaductError>)
        ensures
            final(self)@.endian == old(self)@.endian,
            final(self)@.broken == old(self)@.broken,
            old(self)@.broken ==> out == Err::<Vec<u8>, ViaductError>(ViaductError::BrokenPipe)
                && final(self)@ == old(self)@,
            !old(self)@.broken ==> bytes_view(out) == final(self)@.sealed(Outbound::Rpc, true)
                || bytes_view(out) == final(self)@.sealed(Outbound::Rpc, false),
    {
        self.send(Outbound::Rpc, rpc)
    }
}

/// What the inbound lane of an endpoint holds.
pub struct RxView {
    /// The bytes that were read and belong to no frame yet.
    pub pending: Seq<u8>,
    /// The byte order in which lengths are read.
    pub endian: Endian,
    /// Whether the lane has ended.
    pub broken: bool,
}

impl RxView {
    /// The number of bytes that the next read must bring before the lane can
    /// tell more; 0 where there is something to tell without reading.
    pub open spec fn expects(self) -> int {
        if self.broken {
            0
        } else {
            match scan(self.pending, self.endian) {
                Scan::Need { total } => total - self.pending.len(),
                _ => 0,
            }
        }
    }
}

/// The frames that a byte stream holds, in order, and the fault at which
/// reading it ends: `BrokenPipe` where the stream breaks off, at the end of a
/// frame or inside one, and otherwise the fault of the bytes that are no
/// frame.
pub open spec fn replay(stream: Seq<u8>, endian: Endian) -> (Seq<FrameView>, ViaductError)
    decreases stream.len(),
{
    match scan(stream, endian) {
        Scan::Frame { frame, used } => if 0 < used <= stream.len() {
            let rest = replay(stream.skip(used), endian);
            (seq![frame] + rest.0, rest.1)
        } else {
            (Seq::empty(), ViaductError::BrokenPipe)
        },
        Scan::Need { .. } => (Seq::empty(), ViaductError::BrokenPipe),
        Scan::Bad { error } => (Seq::empty(), error),
    }
}

/// The bytes of a sequence of frames, one behind the other.
pub open spec fn frames_wire(frames: Seq<FrameView>, endian: Endian) -> Seq<u8>
    decreases frames.len(),
{
    if frames.len() == 0 {
        Seq::empty()
    } else {
        frame_wire(frames[0], endian) + frames_wire(frames.skip(1), endian)
    }
}

/// The frames in a vector, taken as a sequence of what they hold.
pub open spec fn frames_view(frames: Seq<Frame>) -> Seq<FrameView> {
    Seq::new(frames.len(), |i: int| frames[i]@)
}

/// Whatever the sender framed, the receiver reads: a stream made of the
/// bytes of frames replays as those frames, in their order and with their
/// payloads byte for byte, and ends as a closed pipe.
pub proof fn lemma_replay_frames(frames: Seq<FrameView>, endian: Endian)
    requires
        forall|i: int| 0 <= i < frames.len() ==> (#[trigger] frames[i]).sendable(),
    ensures
        replay(frames_wire(frames, endian), endian) == (frames, ViaductError::BrokenPipe),
    decreases frames.len(),
{
    if frames.len() == 0 {
        assert(frames =~= Seq::empty());
    } else {
        let first = frame_wire(frames[0], endian);
        let rest = frames_wire(frames.skip(1), endian);
        assert(frames[0].sendable());
        lemma_scan_frame(frames[0], endian, rest);
        crate::frame::lemma_frame_len(frames[0], endian);
        assert((first + rest).skip(first.len() as int) =~= rest);
        assert forall|i: int| 0 <= i < frames.skip(1).len() implies (#[trigger] frames.skip(
            1,
        )[i]).sendable() by {
            assert(frames.skip(1)[i] == frames[i + 1]);
        }
        lemma_replay_frames(frames.skip(1), endian);
        assert(seq![frames[0]] + frames.skip(1) =~= frames);
    }
}

/// What one side sends, the other receives: a frame that the outbound lane
/// made of a payload scans, on a peer with the same byte order, as a frame of
/// the same kind under the same identifier, with that payload byte for byte,
/// whatever follows it on the pipe. The codec of the peer is handed exactly
/// what the codec of the sender wrote.
pub proof fn lemma_sent_is_received(tx: TxView, outbound: Outbound, rest: Seq<u8>)
    ensures
        tx.sealed(outbound, true) matches Ok(frame) ==> scan(frame + rest, tx.endian) == (
            Scan::Frame { frame: outbound.frame(tx.scratch), used: frame.len() as int }
        ),
{
    if fits(tx.scratch.len()) {
        lemma_scan_frame(outbound.frame(tx.scratch), tx.endian, rest);
    }
}

/// The receiving side of a viaduct.
#[derive(Debug)]
pub struct ViaductRx<RpcTx, RequestTx, RpcRx, RequestRx> where
    RpcTx: ViaductSerialize,
    RequestTx: ViaductSerialize,
    RpcRx: ViaductDeserialize,
    RequestRx: ViaductDeserialize,
 {
    buf: Vec<u8>,
    endian: Endian,
    broken: bool,
    _phantom: PhantomData<(RpcTx, RequestTx, RpcRx, RequestRx)>,
}

impl<RpcTx, RequestTx, RpcRx, RequestRx> View for ViaductRx<RpcTx, RequestTx, RpcRx, RequestRx> where
    RpcTx: ViaductSerialize,
    RequestTx: ViaductSerialize,
    RpcRx: ViaductDeserialize,
    RequestRx: ViaductDeserialize,
 {
    type V = RxView;

    closed spec fn view(&self) -> RxView {
        RxView { pending: self.buf@, endian: self.endian, broken: self.broken }
    }
}

impl<RpcTx, RequestTx, RpcRx, RequestRx> ViaductRx<RpcTx, RequestTx, RpcRx, RequestRx> where
    RpcTx: ViaductSerialize,
    RequestTx: ViaductSerialize,
    RpcRx: ViaductDeserialize,
    RequestRx: ViaductDeserialize,
 {
    /// The inbound lane of a new channel that reads lengths in the given
    /// byte order.
    pub fn new(endian: Endian) -> (rx: Self)
        ensures
            rx@ == (RxView { pending: Seq::empty(), endian, broken: false }),
    {
        ViaductRx { buf: Vec::new(), endian, broken: false, _phantom: PhantomData }
    }

    /// Whether the lane has ended.
    pub fn is_broken(&self) -> (broken: bool)
        ensures
            broken == self@.broken,
    {
        self.broken
    }

    /// Records that a read from the pipe failed: the lane has ended.
    pub fn break_pipe(&mut self)
        ensures
            final(self)@ == (RxView { broken: true, ..old(self)@ }),
    {
        self.broken = true;
    }

    /// The number of bytes to read from the pipe next: what the frame at hand
    /// still lacks before the lane can tell more.
    pub fn expects(&self) -> (count: usize)
        ensures
            count == self@.expects(),
    {
        if self.broken {
            return 0;
        }
        match scan_bytes(self.buf.as_slice(), self.endian) {
            Scanned::Need { total } => total - self.buf.len(),
            _ => 0,
        }
    }

    /// Takes the bytes that the caller read. Together with the bytes taken
    /// before they are the start of a frame, a whole frame, or no frame. A
    /// whole frame is handed out and leaves the lane; bytes behind it stay
    /// for the next call. Bytes that are no frame end the lane.
    pub fn accept(&mut self, bytes: &[u8]) -> (out: Result<Option<Frame>, ViaductError>)
        ensures
            final(self)@.endian == old(self)@.endian,
            old(self)@.broken ==> out == Err::<Option<Frame>, ViaductError>(
                ViaductError::BrokenPipe,
            ) && final(self)@ == old(self)@,
            !old(self)@.broken ==> match scan(old(self)@.pending + bytes@, old(self)@.endian) {
                Scan::Frame { frame, used } => {
                    &&& out matches Ok(Some(found))
                    &&& found@ == frame
                    &&& final(self)@.pending == (old(self)@.pending + bytes@).skip(used)
                    &&& !final(self)@.broken
                },
                Scan::Need { .. } => {
                    &&& out == Ok::<Option<Frame>, ViaductError>(None)
                    &&& final(self)@.pending == old(self)@.pending + bytes@
                    &&& !final(self)@.broken
                },
                Scan::Bad { error } => {
                    &&& out == Err::<Option<Frame>, ViaductError>(error)
                    &&& final(self)@.broken
                },
            },
    {
        if self.broken {
            return Err(ViaductError::BrokenPipe);
        }
        self.buf.extend_from_slice(bytes);
        assert(self.buf@ =~= old(self)@.pending + bytes@);
        match scan_bytes(self.buf.as_slice(), self.endian) {
            Scanned::Frame { frame, used } => {
                let mut rest: Vec<u8> = Vec::new();
                rest.extend_from_slice(slice_subrange(self.buf.as_slice(), used, self.buf.len()));
                assert(rest@ =~= self.buf@.skip(used as int));
                self.buf = rest;
                Ok(Some(frame))
            },
            Scanned::Need { .. } => Ok(None),
            Scanned::Bad { error } => {
                self.broken = true;
                Err(error)
            },
        }
    }

    /// Runs the lane over a byte stream until the stream ends: the frames it
    /// held, in order, and the fault that ended the run. The run never ends
    /// without a fault: a stream that just stops is a closed pipe.
    pub fn run(self, stream: &[u8]) -> (out: (Vec<Frame>, ViaductError))
        ensures
            self@.broken ==> out.0@.len() == 0 && out.1 == ViaductError::BrokenPipe,
            !self@.broken ==> (frames_view(out.0@), out.1) == replay(
                self@.pending + stream@,
                self@.endian,
            ),
    {
        let mut frames: Vec<Frame> = Vec::new();
        if self.broken {
            return (frames, ViaductError::BrokenPipe);
        }
        let endian = self.endian;
        let mut all: Vec<u8> = self.buf;
        all.extend_from_slice(stream);
        assert(all@ =~= self@.pending + stream@);
        let mut pos: usize = 0;
        assert(all@.skip(0) =~= all@);
        assert(frames_view(frames@) + replay(all@, endian).0 =~= replay(all@, endian).0);
        loop
            invariant
                !self@.broken,
                endian == self@.endian,
                all@ == self@.pending + stream@,
                pos <= all@.len(),
                replay(all@, endian) == (
                    frames_view(frames@) + replay(all@.skip(pos as int), endian).0,
                    replay(all@.skip(pos as int), endian).1,
                ),
            decreases all@.len() - pos,
        {
            let tail = slice_subrange(all.as_slice(), pos, all.len());
            assert(tail@ =~= all@.skip(pos as int));
            match scan_bytes(tail, endian) {
                Scanned::Frame { frame, used } => {
                    assert(0 < used <= tail@.len());
                    proof {
                        assert(tail@.skip(used as int) =~= all@.skip(pos + used));
                        assert(frames_view(frames@.push(frame)) =~= frames_view(frames@) + seq![
                            frame@,
                        ]);
                        assert(frames_view(frames@) + (seq![frame@] + replay(
                            all@.skip(pos + used),
                            endian,
                        ).0) =~= frames_view(frames@.push(frame)) + replay(
                            all@.skip(pos + used),
                            endian,
                        ).0);
                    }
                    frames.push(frame);
                    pos = pos + used;
                },
                Scanned::Need { .. } => {
                    assert(frames_view(frames@) + Seq::<FrameView>::empty() =~= frames_view(
                        frames@,
                    ));
                    return (frames, ViaductError::BrokenPipe);
                },
                Scanned::Bad { error } => {
                    assert(frames_view(frames@) + Seq::<FrameView>::empty() =~= frames_view(
                        frames@,
                    ));
                    return (frames, error);
                },
            }
        }
    }
}

/// The two lanes of a new channel.
pub fn channel<RpcTx, RequestTx, RpcRx, RequestRx>(endian: Endian) -> (lanes: (
    ViaductTx<RpcTx, RequestTx, RpcRx, RequestRx>,
    ViaductRx<RpcTx, RequestTx, RpcRx, RequestRx>,
)) where
    RpcTx: ViaductSerialize,
    RequestTx: ViaductSerialize,
    RpcRx: ViaductDeserialize,
    RequestRx: ViaductDeserialize,

    ensures
        lanes.0@ == (TxView { scratch: Seq::empty(), endian, broken: false }),
        lanes.1@ == (RxView { pending: Seq::empty(), endian, broken: false }),
{
    (ViaductTx::new(endian), ViaductRx::new(endian))
}

/// What a responder hands back: the response frame to write, and the fault
/// that made it a refusal, if any.
#[derive(Debug)]
pub struct Responded {
    /// The frame to write to the pipe; empty where the lane is broken.
    pub frame: Vec<u8>,
    /// Why the response could not be framed as it was given.
    pub fault: Option<ViaductError>,
}

/// What becomes of a response once the lane has tried to frame it: the frame
/// itself, or, where it could not be framed, the frame of a refusal under the
/// same identifier together with the fault. Either way the request is
/// answered.
pub open spec fn answer_of(
    sealed: Result<Seq<u8>, ViaductError>,
    request_id: u128,
    endian: Endian,
) -> (Seq<u8>, Option<ViaductError>) {
    match sealed {
        Ok(frame) => (frame, None),
        Err(error) => (frame_wire(FrameView::NoneResponse { request_id }, endian), Some(error)),
    }
}

/// The one-shot handle by which a request is answered. Use
/// [`ViaductRequestResponder::respond`] to answer, or
/// [`ViaductRequestResponder::decline`] to refuse: either takes the handle,
/// so that each request is answered once.
#[derive(Debug)]
pub struct ViaductRequestResponder<RpcTx, RequestTx, RpcRx, RequestRx> where
    RpcTx: ViaductSerialize,
    RequestTx: ViaductSerialize,
    RpcRx: ViaductDeserialize,
    RequestRx: ViaductDeserialize,
 {
    request_id: u128,
    _phantom: PhantomData<(RpcTx, RequestTx, RpcRx, RequestRx)>,
}

impl<RpcTx, RequestTx, RpcRx, RequestRx> ViaductRequestResponder<
    RpcTx,
    RequestTx,
    RpcRx,
    RequestRx,
> where
    RpcTx: ViaductSerialize,
    RequestTx: ViaductSerialize,
    RpcRx: ViaductDeserialize,
    RequestRx: ViaductDeserialize,
 {
    /// The identifier of the request that this handle answers.
    pub closed spec fn spec_request_id(&self) -> u128 {
        self.request_id
    }

    /// The handle for the request with the given identifier.
    pub fn new(request_id: u128) -> (responder: Self)
        ensures
            responder.spec_request_id() == request_id,
    {
        ViaductRequestResponder { request_id, _phantom: PhantomData }
    }

    /// The identifier of the request that this handle answers.
    #[verifier::when_used_as_spec(spec_request_id)]
    pub fn request_id(&self) -> (request_id: u128)
        ensures
            request_id == self.spec_request_id(),
    {
        self.request_id
    }

    /// Frames the response in the lane's scratch buffer after the codec has
    /// reported; `encoded` says whether the codec wrote it. A response that
    /// cannot be framed goes out as a refusal, so that the peer does not wait
    /// forever.
    pub fn answer(self, tx: &ViaductTx<RpcTx, RequestTx, RpcRx, RequestRx>, encoded: bool) -> (out:
        Responded)
        ensures
            (out.frame@, out.fault) == answer_of(
                tx@.sealed(Outbound::Response(self.spec_request_id()), encoded),
                self.spec_request_id(),
                tx@.endian,
            ),
    {
        match tx.seal(Outbound::Response(self.request_id), encoded) {
            Ok(frame) => Responded { frame, fault: None },
            Err(error) => {
                let empty: Vec<u8> = Vec::new();
                match frame_bytes(NONE_RESPONSE, self.request_id, empty.as_slice(), tx.endian) {
                    Ok(frame) => Responded { frame, fault: Some(error) },
                    Err(_) => Responded { frame: empty, fault: Some(error) },
                }
            },
        }
    }

    /// Answers the request. The response may be of any type that can be
    /// written into a payload; the peer must read it as the same type. On a
    /// broken lane nothing is framed.
    pub fn respond<Response: ViaductSerialize>(
        self,
        tx: &mut ViaductTx<RpcTx, RequestTx, RpcRx, RequestRx>,
        response: &Response,
    ) -> (out: Responded)
        ensures
            final(tx)@.endian == old(tx)@.endian,
            final(tx)@.broken == old(tx)@.broken,
            old(tx)@.broken ==> out.frame@.len() == 0 && out.fault == Some(ViaductError::BrokenPipe)
                && final(tx)@ == old(tx)@,
            !old(tx)@.broken ==> exists|encoded: bool|
                (out.frame@, out.fault) == answer_of(
                    #[trigger] final(tx)@.sealed(
                        Outbound::Response(self.spec_request_id()),
                        encoded,
                    ),
                    self.spec_request_id(),
                    final(tx)@.endian,
                ),
    {
        if tx.broken {
            return Responded { frame: Vec::new(), fault: Some(ViaductError::BrokenPipe) };
        }
        tx.buf.clear();
        let encoded = response.to_pipeable(&mut tx.buf).is_ok();
        self.answer(tx, encoded)
    }

    /// Refuses to answer: frames the response by which the waiting request
    /// learns that no payload will come. On a broken lane nothing is framed.
    pub fn decline(self, tx: &ViaductTx<RpcTx, RequestTx, RpcRx, RequestRx>) -> (out: Result<
        Vec<u8>,
        ViaductError,
    >)
        ensures
            bytes_view(out) == if tx@.broken {
                Err::<Seq<u8>, ViaductError>(ViaductError::BrokenPipe)
            } else {
                Ok(frame_wire(FrameView::NoneResponse { request_id: self.spec_request_id() }, tx@.endian))
            },
    {
        if tx.broken {
            return Err(ViaductError::BrokenPipe);
        }
        let empty: Vec<u8> = Vec::new();
        frame_bytes(NONE_RESPONSE, self.request_id, empty.as_slice(), tx.endian)
    }
}

/// No request stays unanswered: whatever a responder does, the frame it
/// hands back is a response under the identifier of its request. A response
/// that was framed reaches the peer with the payload that the codec wrote; a
/// response that could not be framed, and a refusal, reach it as a refusal.
pub proof fn lemma_responder_answers(tx: TxView, request_id: u128, encoded: bool, rest: Seq<u8>)
    ensures
        ({
            let answer = answer_of(
                tx.sealed(Outbound::Response(request_id), encoded),
                request_id,
                tx.endian,
            );
            scan(answer.0 + rest, tx.endian) == (Scan::Frame {
                frame: if answer.1 is None {
                    FrameView::SomeResponse { request_id, payload: tx.scratch }
                } else {
                    FrameView::NoneResponse { request_id }
                },
                used: answer.0.len() as int,
            })
        }),
        ({
            let refusal = frame_wire(FrameView::NoneResponse { request_id }, tx.endian);
            scan(refusal + rest, tx.endian) == (Scan::Frame {
                frame: FrameView::NoneResponse { request_id },
                used: refusal.len() as int,
            })
        }),
{
    lemma_scan_frame(FrameView::NoneResponse { request_id }, tx.endian, rest);
    if encoded && fits(tx.scratch.len()) {
        lemma_scan_frame(
            FrameView::SomeResponse { request_id, payload: tx.scratch },
            tx.endian,
            rest,
        );
    }
}

/// What the inbound lane hands to the event handler.
#[derive(Debug)]
pub enum ViaductEvent<RpcTx, RequestTx, RpcRx, RequestRx> where
    RpcTx: ViaductSerialize,
    RequestTx: ViaductSerialize,
    RpcRx: ViaductDeserialize,
    RequestRx: ViaductDeserialize,
 {
    /// A one-way notification from the peer.
    Rpc(RpcRx),
    /// A request from the peer, with the handle that answers it.
    Request {
        request: RequestRx,
        responder: ViaductRequestResponder<RpcTx, RequestTx, RpcRx, RequestRx>,
    },
}

impl<RpcTx, RequestTx, RpcRx, RequestRx> ViaductEvent<RpcTx, RequestTx, RpcRx, RequestRx> where
    RpcTx: ViaductSerialize,
    RequestTx: ViaductSerialize,
    RpcRx: ViaductDeserialize,
    RequestRx: ViaductDeserialize,
 {
    /// The event for a notification once the codec has read its payload: the
    /// notification it read, or the decode fault.
    pub fn from_rpc<E>(decoded: Result<RpcRx, E>) -> (out: Result<Self, ViaductError>)
        ensures
            match decoded {
                Ok(rpc) => out == Ok::<Self, ViaductError>(ViaductEvent::Rpc(rpc)),
                Err(_) => out == Err::<Self, ViaductError>(ViaductError::Decode),
            },
    {
        match decoded {
            Ok(rpc) => Ok(ViaductEvent::Rpc(rpc)),
            Err(_) => Err(ViaductError::Decode),
        }
    }

    /// The event for a request once the codec has read its payload: the
    /// request it read with the handle that answers under the request's
    /// identifier, or the decode fault.
    pub fn from_request<E>(request_id: u128, decoded: Result<RequestRx, E>) -> (out: Result<
        Self,
        ViaductError,
    >)
        ensures
            match decoded {
                Ok(request) => {
                    &&& out matches Ok(ViaductEvent::Request { request: read, responder })
                    &&& read == request
                    &&& responder.spec_request_id() == request_id
                },
                Err(_) => out == Err::<Self, ViaductError>(ViaductError::Decode),
            },
    {
        match decoded {
            Ok(request) => Ok(
                ViaductEvent::Request { request, responder: ViaductRequestResponder::new(request_id) },
            ),
            Err(_) => Err(ViaductError::Decode),
        }
    }
}

/// What a frame is to the side that received it.
#[derive(Debug)]
pub enum Inbound<RpcTx, RequestTx, RpcRx, RequestRx> where
    RpcTx: ViaductSerialize,
    RequestTx: ViaductSerialize,
    RpcRx: ViaductDeserialize,
    RequestRx: ViaductDeserialize,
 {
    /// A notification or a request: it goes to the event handler.
    Event(ViaductEvent<RpcTx, RequestTx, RpcRx, RequestRx>),
    /// The response to the request with the given identifier: it goes into
    /// the response table. The payload is `None` where the peer declined.
    Response { request_id: u128, payload: Option<Vec<u8>> },
}

/// What became of a frame that the inbound lane delivered.
#[derive(Debug)]
pub enum Delivery<RpcTx, RequestTx, RpcRx, RequestRx> where
    RpcTx: ViaductSerialize,
    RequestTx: ViaductSerialize,
    RpcRx: ViaductDeserialize,
    RequestRx: ViaductDeserialize,
 {
    /// A notification or a request: it goes to the event handler.
    Event(ViaductEvent<RpcTx, RequestTx, RpcRx, RequestRx>),
    /// A response: it waits in the table for its request, and all who wait
    /// on the table are to be woken.
    Deposited,
    /// A response that found the slot taken: it is handed back, to be
    /// delivered again once the slot is free.
    Blocked(Frame),
    /// A response that nobody waits for: it is gone.
    Dropped,
}

impl<RpcTx, RequestTx, RpcRx, RequestRx> ViaductRx<RpcTx, RequestTx, RpcRx, RequestRx> where
    RpcTx: ViaductSerialize,
    RequestTx: ViaductSerialize,
    RpcRx: ViaductDeserialize,
    RequestRx: ViaductDeserialize,
 {
    /// Tells what a frame is to this side. A notification or a request is
    /// decoded into an event; a payload that the codec refuses ends the lane.
    /// A response is passed on as it came.
    pub fn decode(&mut self, frame: Frame) -> (out: Result<
        Inbound<RpcTx, RequestTx, RpcRx, RequestRx>,
        ViaductError,
    >)
        ensures
            final(self)@.pending == old(self)@.pending,
            final(self)@.endian == old(self)@.endian,
            old(self)@.broken ==> {
                &&& out matches Err(ViaductError::BrokenPipe)
                &&& final(self)@ == old(self)@
            },
            !old(self)@.broken ==> match frame@ {
                FrameView::Rpc { .. } => match out {
                    Ok(Inbound::Event(ViaductEvent::Rpc(_))) => !final(self)@.broken,
                    Err(ViaductError::Decode) => final(self)@.broken,
                    _ => false,
                },
                FrameView::Request { request_id, .. } => match out {
                    Ok(Inbound::Event(ViaductEvent::Request { responder, .. })) => {
                        responder.spec_request_id() == request_id && !final(self)@.broken
                    },
                    Err(ViaductError::Decode) => final(self)@.broken,
                    _ => false,
                },
                FrameView::SomeResponse { request_id, payload } => {
                    &&& !final(self)@.broken
                    &&& out matches Ok(Inbound::Response { request_id: id, payload: Some(bytes) })
                    &&& id == request_id
                    &&& bytes@ == payload
                },
                FrameView::NoneResponse { request_id } => {
                    &&& !final(self)@.broken
                    &&& out matches Ok(Inbound::Response { request_id: id, payload: None })
                    &&& id == request_id
                },
            },
    {
        if self.broken {
            return Err(ViaductError::BrokenPipe);
        }
        let decoded = match frame {
            Frame::Rpc { payload } => ViaductEvent::from_rpc(
                RpcRx::from_pipeable(payload.as_slice()),
            ),
            Frame::Request { request_id, payload } => ViaductEvent::from_request(
                request_id,
                RequestRx::from_pipeable(payload.as_slice()),
            ),
            Frame::SomeResponse { request_id, payload } => {
                return Ok(Inbound::Response { request_id, payload: Some(payload) });
            },
            Frame::NoneResponse { request_id } => {
                return Ok(Inbound::Response { request_id, payload: None });
            },
        };
        match decoded {
            Ok(event) => Ok(Inbound::Event(event)),
            Err(error) => {
                self.broken = true;
                Err(error)
            },
        }
    }

    /// Delivers a frame under the lock of the response table. A notification
    /// or a request is decoded into an event; a payload that the codec
    /// refuses ends the lane. A response is deposited into the table where
    /// its request waits and the slot is free, handed back where the slot is
    /// taken, and dropped where nobody waits for it.
    pub fn deliver(&mut self, frame: Frame, table: &mut ViaductResponseState) -> (out: Result<
        Delivery<RpcTx, RequestTx, RpcRx, RequestRx>,
        ViaductError,
    >)
        ensures
            final(self)@.pending == old(self)@.pending,
            final(self)@.endian == old(self)@.endian,
            old(self)@.broken ==> {
                &&& out matches Err(ViaductError::BrokenPipe)
                &&& final(self)@ == old(self)@
                &&& final(table)@ == old(table)@
            },
            !old(self)@.broken ==> match frame@ {
                FrameView::Rpc { .. } => {
                    &&& final(table)@ == old(table)@
                    &&& match out {
                        Ok(Delivery::Event(ViaductEvent::Rpc(_))) => !final(self)@.broken,
                        Err(ViaductError::Decode) => final(self)@.broken,
                        _ => false,
                    }
                },
                FrameView::Request { request_id, .. } => {
                    &&& final(table)@ == old(table)@
                    &&& match out {
                        Ok(Delivery::Event(ViaductEvent::Request { responder, .. })) => {
                            responder.spec_request_id() == request_id && !final(self)@.broken
                        },
                        Err(ViaductError::Decode) => final(self)@.broken,
                        _ => false,
                    }
                },
                FrameView::SomeResponse { request_id, payload } => {
                    &&& !final(self)@.broken
                    &&& final(table)@ == old(table)@.deposit(request_id, Some(payload))
                    &&& match out {
                        Ok(Delivery::Deposited) => old(table)@.fate(request_id) == Deposit::Filed,
                        Ok(Delivery::Blocked(back)) => old(table)@.fate(request_id)
                            == Deposit::Blocked && back@ == frame@,
                        Ok(Delivery::Dropped) => old(table)@.fate(request_id) == Deposit::Dropped,
                        _ => false,
                    }
                },
                FrameView::NoneResponse { request_id } => {
                    &&& !final(self)@.broken
                    &&& final(table)@ == old(table)@.deposit(request_id, None)
                    &&& match out {
                        Ok(Delivery::Deposited) => old(table)@.fate(request_id) == Deposit::Filed,
                        Ok(Delivery::Blocked(back)) => old(table)@.fate(request_id)
                            == Deposit::Blocked && back@ == frame@,
                        Ok(Delivery::Dropped) => old(table)@.fate(request_id) == Deposit::Dropped,
                        _ => false,
                    }
                },
            },
    {
        match self.decode(frame) {
            Err(error) => Err(error),
            Ok(Inbound::Event(event)) => Ok(Delivery::Event(event)),
            Ok(Inbound::Response { request_id, payload: Some(payload) }) => {
                match table.deposit(request_id, Some(payload.as_slice())) {
                    Deposit::Filed => Ok(Delivery::Deposited),
                    Deposit::Blocked => Ok(
                        Delivery::Blocked(Frame::SomeResponse { request_id, payload }),
                    ),
                    Deposit::Dropped => Ok(Delivery::Dropped),
                }
            },
            Ok(Inbound::Response { request_id, payload: None }) => {
                match table.deposit(request_id, None) {
                    Deposit::Filed => Ok(Delivery::Deposited),
                    Deposit::Blocked => Ok(Delivery::Blocked(Frame::NoneResponse { request_id })),
                    Deposit::Dropped => Ok(Delivery::Dropped),
                }
            },
        }
    }
}

} // verus!
