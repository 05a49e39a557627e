//! The handshake: what each side writes before the first frame, and what it
//! makes of what the peer wrote.
//!
//! Both sides write the hello banner, the probe word `0x0102` and the size
//! of their native word, the numbers in native byte order. A side enters
//! service only when the peer's three values are its own.

use crate::chan::{channel, ViaductRx, ViaductTx};
use crate::error::ViaductError;
use crate::serde::{ViaductDeserialize, ViaductSerialize};
use crate::wire::{lemma_probe_tells_order, lemma_u128_wire, probe_wire, put_u128, u128_wire, Endian};
use vstd::prelude::*;
use vstd::slice::slice_subrange;

verus! {

/// The hello banner: "Read this if you are a beautiful strong unnamed pipe
/// who don't need no handles", in ASCII.
pub const HELLO: [u8; 78] = [
    82, 101, 97, 100, 32, 116, 104, 105, 115, 32, 105, 102, 32, 121, 111, 117, 32, 97, 114, 101,
    32, 97, 32, 98, 101, 97, 117, 116, 105, 102, 117, 108, 32, 115, 116, 114, 111, 110, 103, 32,
    117, 110, 110, 97, 109, 101, 100, 32, 112, 105, 112, 101, 32, 119, 104, 111, 32, 100, 111,
    110, 39, 116, 32, 110, 101, 101, 100, 32, 110, 111, 32, 104, 97, 110, 100, 108, 101, 115,
];

/// The length of the hello banner.
pub const HELLO_LEN: usize = 78;

/// The length of the probe word.
pub const PROBE_LEN: usize = 2;

/// The length of the word size on the wire.
pub const WORD_SIZE_LEN: usize = 16;

/// The length of everything a side writes in the handshake.
pub const GREETING_LEN: usize = 96;

/// The hello banner.
pub open spec fn hello() -> Seq<u8> {
    HELLO@
}

/// Everything a side writes in the handshake.
pub open spec fn greeting_wire(endian: Endian, word_size: u128) -> Seq<u8> {
    hello() + probe_wire(endian) + u128_wire(word_size, endian)
}

/// What a side with the given byte order and word size makes of the bytes
/// that its peer opened with. The three values are checked in the order in
/// which they come, and the first that is missing or wrong decides.
pub open spec fn verdict(peer: Seq<u8>, endian: Endian, word_size: u128) -> Result<
    (),
    ViaductError,
> {
    let probe_at = HELLO_LEN as int;
    let word_size_at = probe_at + PROBE_LEN;
    let end = GREETING_LEN as int;
    if peer.len() < probe_at {
        Err(ViaductError::BrokenPipe)
    } else if peer.subrange(0, probe_at) != hello() {
        Err(ViaductError::HelloMismatch)
    } else if peer.len() < word_size_at {
        Err(ViaductError::BrokenPipe)
    } else if peer.subrange(probe_at, word_size_at) != probe_wire(endian) {
        Err(ViaductError::EndiannessMismatch)
    } else if peer.len() < end {
        Err(ViaductError::BrokenPipe)
    } else if peer.subrange(word_size_at, end) != u128_wire(word_size, endian) {
        Err(ViaductError::WordSizeMismatch)
    } else {
        Ok(())
    }
}

/// Whether two slices hold the same bytes.
pub fn same_bytes(left: &[u8], right: &[u8]) -> (same: bool)
    ensures
        same == (left@ == right@),
{
    if left.len() != right.len() {
        return false;
    }
    let mut i: usize = 0;
    while i < left.len()
        invariant
            i <= left@.len(),
            left@.len() == right@.len(),
            forall|k: int| 0 <= k < i ==> left@[k] == right@[k],
        decreases left@.len() - i,
    {
        if left[i] != right[i] {
            return false;
        }
        i = i + 1;
    }
    assert(left@ =~= right@);
    true
}

/// Everything a side writes in the handshake, in the order in which it is
/// written.
pub fn greeting(endian: Endian, word_size: u128) -> (out: Vec<u8>)
    ensures
        out@ == greeting_wire(endian, word_size),
{
    let mut out: Vec<u8> = Vec::new();
    let mut i: usize = 0;
    while i < HELLO_LEN
        invariant
            i <= HELLO_LEN,
            out@ == HELLO@.subrange(0, i as int),
        decreases HELLO_LEN - i,
    {
        out.push(HELLO[i]);
        assert(out@ =~= HELLO@.subrange(0, i + 1));
        i = i + 1;
    }
    assert(out@ =~= hello());
    endian.put_probe(&mut out);
    put_u128(&mut out, word_size, endian);
    out
}

/// Checks the bytes that the peer opened with. Bytes behind the handshake
/// are not looked at.
pub fn verify_channel(peer: &[u8], endian: Endian, word_size: u128) -> (out: Result<
    (),
    ViaductError,
>)
    ensures
        out == verdict(peer@, endian, word_size),
{
    let probe_at: usize = HELLO_LEN;
    let word_size_at: usize = HELLO_LEN + PROBE_LEN;
    if peer.len() < probe_at {
        return Err(ViaductError::BrokenPipe);
    }
    if !same_bytes(slice_subrange(peer, 0, probe_at), HELLO.as_slice()) {
        return Err(ViaductError::HelloMismatch);
    }
    if peer.len() < word_size_at {
        return Err(ViaductError::BrokenPipe);
    }
    let mut probe: Vec<u8> = Vec::new();
    endian.put_probe(&mut probe);
    assert(probe@ =~= probe_wire(endian));
    if !same_bytes(slice_subrange(peer, probe_at, word_size_at), probe.as_slice()) {
        return Err(ViaductError::EndiannessMismatch);
    }
    if peer.len() < GREETING_LEN {
        return Err(ViaductError::BrokenPipe);
    }
    let mut size: Vec<u8> = Vec::new();
    put_u128(&mut size, word_size, endian);
    assert(size@ =~= u128_wire(word_size, endian));
    if !same_bytes(slice_subrange(peer, word_size_at, GREETING_LEN), size.as_slice()) {
        return Err(ViaductError::WordSizeMismatch);
    }
    Ok(())
}

/// Enters service: the two lanes of the channel, for a side whose peer
/// opened with `peer`. A peer whose handshake is missing or wrong gets no
/// lanes.
pub fn establish<RpcTx, RequestTx, RpcRx, RequestRx>(
    peer: &[u8],
    endian: Endian,
    word_size: u128,
) -> (out: Result<
    (ViaductTx<RpcTx, RequestTx, RpcRx, RequestRx>, ViaductRx<RpcTx, RequestTx, RpcRx, RequestRx>),
    ViaductError,
>) where
    RpcTx: ViaductSerialize,
    RequestTx: ViaductSerialize,
    RpcRx: ViaductDeserialize,
    RequestRx: ViaductDeserialize,

    ensures
        match verdict(peer@, endian, word_size) {
            Ok(_) => {
                &&& out matches Ok(lanes)
                &&& lanes.0@ == (crate::chan::TxView {
                    scratch: Seq::empty(),
                    endian,
                    broken: false,
                })
                &&& lanes.1@ == (crate::chan::RxView {
                    pending: Seq::empty(),
                    endian,
                    broken: false,
                })
            },
            Err(error) => out matches Err(refusal) && refusal == error,
        },
{
    match verify_channel(peer, endian, word_size) {
        Ok(()) => Ok(channel(endian)),
        Err(error) => Err(error),
    }
}

/// Two sides with the same byte order and the same word size accept each
/// other's handshake, whatever follows it; a peer with the other byte order
/// is refused as unsupported on account of its probe word, and a peer with
/// the same byte order and another word size as unsupported on account of
/// its word size.
pub proof fn lemma_handshake(
    endian: Endian,
    word_size: u128,
    peer_endian: Endian,
    peer_word_size: u128,
    rest: Seq<u8>,
)
    ensures
        verdict(greeting_wire(peer_endian, peer_word_size) + rest, endian, word_size) == if endian
            != peer_endian {
            Err::<(), ViaductError>(ViaductError::EndiannessMismatch)
        } else if word_size != peer_word_size {
            Err(ViaductError::WordSizeMismatch)
        } else {
            Ok(())
        },
        greeting_wire(peer_endian, peer_word_size).len() == GREETING_LEN,
{
    let peer = greeting_wire(peer_endian, peer_word_size) + rest;
    lemma_probe_tells_order(endian, peer_endian);
    lemma_u128_wire(peer_word_size, peer_endian);
    lemma_u128_wire(word_size, endian);
    assert(peer.subrange(0, 78) =~= hello());
    assert(peer.subrange(78, 80) =~= probe_wire(peer_endian));
    assert(peer.subrange(80, 96) =~= u128_wire(peer_word_size, peer_endian));
}

/// A peer that opens with anything but the hello banner is refused with a
/// fault of the kind `BrokenPipe`, whatever its probe word and word size.
pub proof fn lemma_wrong_banner(peer: Seq<u8>, endian: Endian, word_size: u128)
    requires
        peer.len() < HELLO_LEN || peer.subrange(0, HELLO_LEN as int) != hello(),
    ensures
        verdict(peer, endian, word_size) is Err,
        verdict(peer, endian, word_size)->Err_0.spec_kind() == crate::error::ErrorKind::BrokenPipe,
{
}

/// A refusal in the handshake is of the kind `BrokenPipe` or `Unsupported`.
pub proof fn lemma_refusal_kinds(peer: Seq<u8>, endian: Endian, word_size: u128)
    ensures
        verdict(peer, endian, word_size) matches Err(error) ==> error.spec_kind()
            == crate::error::ErrorKind::BrokenPipe || error.spec_kind()
            == crate::error::ErrorKind::Unsupported,
{
}

} // verus!
