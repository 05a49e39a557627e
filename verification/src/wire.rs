//! Fixed-width integers as they travel over the pipe.
//!
//! Lengths and the word size are written in the sender's native byte order;
//! the handshake refuses a peer whose order differs. Request identifiers are
//! always written most significant byte first.

use vstd::bytes::*;
use vstd::prelude::*;

verus! {

/// The byte order of a machine.
#[derive(Clone, Copy, Debug, PartialEq, Eq, Structural)]
pub enum Endian {
    Little,
    Big,
}

/// The two bytes of the 16-bit probe word `0x0102` in the given byte order.
pub open spec fn probe_wire(endian: Endian) -> Seq<u8> {
    match endian {
        Endian::Little => seq![2u8, 1u8],
        Endian::Big => seq![1u8, 2u8],
    }
}

/// The eight bytes of `n` in the given byte order.
pub open spec fn u64_wire(n: u64, endian: Endian) -> Seq<u8> {
    match endian {
        Endian::Little => spec_u64_to_le_bytes(n),
        Endian::Big => spec_u64_to_le_bytes(n).reverse(),
    }
}

/// The number that eight bytes stand for in the given byte order.
pub open spec fn u64_unwire(bytes: Seq<u8>, endian: Endian) -> u64 {
    match endian {
        Endian::Little => spec_u64_from_le_bytes(bytes),
        Endian::Big => spec_u64_from_le_bytes(bytes.reverse()),
    }
}

/// The sixteen bytes of `n` in the given byte order.
pub open spec fn u128_wire(n: u128, endian: Endian) -> Seq<u8> {
    match endian {
        Endian::Little => spec_u128_to_le_bytes(n),
        Endian::Big => spec_u128_to_le_bytes(n).reverse(),
    }
}

/// The number that sixteen bytes stand for in the given byte order.
pub open spec fn u128_unwire(bytes: Seq<u8>, endian: Endian) -> u128 {
    match endian {
        Endian::Little => spec_u128_from_le_bytes(bytes),
        Endian::Big => spec_u128_from_le_bytes(bytes.reverse()),
    }
}

/// Reversing a sequence twice gives it back.
pub proof fn lemma_reverse_twice(s: Seq<u8>)
    ensures
        s.reverse().reverse() == s,
        s.reverse().len() == s.len(),
{
    assert(s.reverse().reverse() =~= s);
}

/// Eight bytes on the wire, and reading them back gives the number written.
pub proof fn lemma_u64_wire(n: u64, endian: Endian)
    ensures
        u64_wire(n, endian).len() == 8,
        u64_unwire(u64_wire(n, endian), endian) == n,
{
    lemma_auto_spec_u64_to_from_le_bytes();
    lemma_reverse_twice(spec_u64_to_le_bytes(n));
}

/// Writing the number that eight bytes stand for gives those bytes back.
pub proof fn lemma_u64_unwire(bytes: Seq<u8>, endian: Endian)
    requires
        bytes.len() == 8,
    ensures
        u64_wire(u64_unwire(bytes, endian), endian) == bytes,
{
    lemma_auto_spec_u64_to_from_le_bytes();
    lemma_reverse_twice(bytes);
}

/// Sixteen bytes on the wire, and reading them back gives the number written.
pub proof fn lemma_u128_wire(n: u128, endian: Endian)
    ensures
        u128_wire(n, endian).len() == 16,
        u128_unwire(u128_wire(n, endian), endian) == n,
{
    lemma_auto_spec_u128_to_from_le_bytes();
    lemma_reverse_twice(spec_u128_to_le_bytes(n));
}

/// Writing the number that sixteen bytes stand for gives those bytes back.
pub proof fn lemma_u128_unwire(bytes: Seq<u8>, endian: Endian)
    requires
        bytes.len() == 16,
    ensures
        u128_wire(u128_unwire(bytes, endian), endian) == bytes,
{
    lemma_auto_spec_u128_to_from_le_bytes();
    lemma_reverse_twice(bytes);
}

/// The probe word tells the two byte orders apart.
pub proof fn lemma_probe_tells_order(a: Endian, b: Endian)
    ensures
        probe_wire(a).len() == 2,
        probe_wire(a) == probe_wire(b) <==> a == b,
{
    if a != b {
        assert(probe_wire(a)[0] != probe_wire(b)[0]);
    }
}

/// A copy of `bytes` in the opposite order.
pub fn reversed(bytes: &[u8]) -> (out: Vec<u8>)
    ensures
        out@ == bytes@.reverse(),
{
    let mut out: Vec<u8> = Vec::new();
    let mut i: usize = bytes.len();
    while i > 0
        invariant
            i <= bytes@.len(),
            out@.len() == bytes@.len() - i,
            forall|k: int| 0 <= k < out@.len() ==> out@[k] == bytes@[bytes@.len() - 1 - k],
        decreases i,
    {
        i = i - 1;
        out.push(bytes[i]);
    }
    assert(out@ =~= bytes@.reverse());
    out
}

/// Appends the eight bytes of `n` in the given byte order.
pub fn put_u64(out: &mut Vec<u8>, n: u64, endian: Endian)
    ensures
        final(out)@ == old(out)@ + u64_wire(n, endian),
{
    let little = u64_to_le_bytes(n);
    match endian {
        Endian::Little => out.extend_from_slice(little.as_slice()),
        Endian::Big => {
            let big = reversed(little.as_slice());
            out.extend_from_slice(big.as_slice());
        },
    }
}

/// Reads a number from its eight bytes in the given byte order; `None` when
/// `bytes` is not eight bytes long.
pub fn get_u64(bytes: &[u8], endian: Endian) -> (n: Option<u64>)
    ensures
        n == if bytes@.len() == 8 {
            Some(u64_unwire(bytes@, endian))
        } else {
            None
        },
{
    if bytes.len() != 8 {
        return None;
    }
    match endian {
        Endian::Little => Some(u64_from_le_bytes(bytes)),
        Endian::Big => {
            let little = reversed(bytes);
            Some(u64_from_le_bytes(little.as_slice()))
        },
    }
}

/// Appends the sixteen bytes of `n` in the given byte order.
pub fn put_u128(out: &mut Vec<u8>, n: u128, endian: Endian)
    ensures
        final(out)@ == old(out)@ + u128_wire(n, endian),
{
    let little = u128_to_le_bytes(n);
    match endian {
        Endian::Little => out.extend_from_slice(little.as_slice()),
        Endian::Big => {
            let big = reversed(little.as_slice());
            out.extend_from_slice(big.as_slice());
        },
    }
}

/// Reads a number from its sixteen bytes in the given byte order; `None`
/// when `bytes` is not sixteen bytes long.
pub fn get_u128(bytes: &[u8], endian: Endian) -> (n: Option<u128>)
    ensures
        n == if bytes@.len() == 16 {
            Some(u128_unwire(bytes@, endian))
        } else {
            None
        },
{
    if bytes.len() != 16 {
        return None;
    }
    match endian {
        Endian::Little => Some(u128_from_le_bytes(bytes)),
        Endian::Big => {
            let little = reversed(bytes);
            Some(u128_from_le_bytes(little.as_slice()))
        },
    }
}

/// `u16::to_ne_bytes` on the probe word `0x0102`: the two bytes come back in
/// the byte order of the machine that runs the call, so they are the probe of
/// one of the two orders. Which one is not stated: it differs between machines.
#[verifier::external_body]
fn native_probe() -> (probe: [u8; 2])
    ensures
        probe@ == probe_wire(Endian::Little) || probe@ == probe_wire(Endian::Big),
{
    0x0102u16.to_ne_bytes()
}

/// The byte order that a probe stands for; `None` when the two bytes are no
/// probe at all.
pub fn probe_order(probe: &[u8]) -> (order: Option<Endian>)
    ensures
        match order {
            Some(endian) => probe@ == probe_wire(endian),
            None => probe@ != probe_wire(Endian::Little) && probe@ != probe_wire(Endian::Big),
        },
{
    if probe.len() != 2 {
        return None;
    }
    if probe[0] == 2 && probe[1] == 1 {
        assert(probe@ =~= probe_wire(Endian::Little));
        Some(Endian::Little)
    } else if probe[0] == 1 && probe[1] == 2 {
        assert(probe@ =~= probe_wire(Endian::Big));
        Some(Endian::Big)
    } else {
        assert(probe_wire(Endian::Little)[0] == 2 && probe_wire(Endian::Little)[1] == 1);
        assert(probe_wire(Endian::Big)[0] == 1 && probe_wire(Endian::Big)[1] == 2);
        None
    }
}

impl Endian {
    /// The byte order of the machine that runs the call.
    pub fn native() -> Endian {
        let probe = native_probe();
        match probe_order(probe.as_slice()) {
            Some(endian) => endian,
            None => Endian::Big,
        }
    }

    /// Appends the probe word in this byte order.
    pub fn put_probe(self, out: &mut Vec<u8>)
        ensures
            final(out)@ == old(out)@ + probe_wire(self),
    {
        match self {
            Endian::Little => {
                out.push(2);
                out.push(1);
            },
            Endian::Big => {
                out.push(1);
                out.push(2);
            },
        }
        assert(out@ =~= old(out)@ + probe_wire(self));
    }
}

/// The size in bytes of the machine's native unsigned word.
pub fn word_size() -> (size: u128)
    ensures
        size == vstd::layout::size_of::<usize>(),
{
    let size: usize = core::mem::size_of::<usize>();
    size as u128
}

} // verus!
