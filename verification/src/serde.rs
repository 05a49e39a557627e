//! The codec boundary: how a message becomes a payload and a payload a
//! message. The channel frames payloads and never looks into them.

use vstd::prelude::*;

verus! {

/// Types that can be written into a payload.
pub trait ViaductSerialize {
    /// The fault reported when the value cannot be written.
    type Error: core::fmt::Debug;

    /// Writes this value into `buf`, which is empty when this is called.
    fn to_pipeable(&self, buf: &mut Vec<u8>) -> Result<(), Self::Error>
        requires
            old(buf)@.len() == 0,
    ;
}

/// Types that can be read from a payload.
pub trait ViaductDeserialize: Sized {
    /// The fault reported when the payload is no value of this type.
    type Error: core::fmt::Debug;

    /// Reads a value from a payload.
    fn from_pipeable(bytes: &[u8]) -> Result<Self, Self::Error>;
}

/// The fault of reading a [`Never`]: a message arrived on a lane that was
/// declared to carry none.
#[derive(Clone, Copy, Debug, PartialEq, Eq, Structural)]
pub struct Unexpected;

/// The message type of a lane that carries no messages. It has no values, so
/// none can be sent, and every payload read as one is refused.
#[derive(Clone, Copy, Debug)]
pub enum Never {
    /// Holds a value of a type that has none.
    Never(core::convert::Infallible),
}

impl ViaductSerialize for Never {
    type Error = core::convert::Infallible;

    fn to_pipeable(&self, buf: &mut Vec<u8>) -> (written: Result<(), Self::Error>)
        ensures
            written is Ok,
            final(buf)@ == old(buf)@,
    {
        Ok(())
    }
}

impl ViaductDeserialize for Never {
    type Error = Unexpected;

    fn from_pipeable(bytes: &[u8]) -> (read: Result<Self, Self::Error>)
        ensures
            read is Err,
    {
        Err(Unexpected)
    }
}

#[verifier::external_type_specification]
#[verifier::external_body]
pub struct ExPodCastError(bytemuck::PodCastError);

/// `bytemuck::bytes_of`: the bytes of a plain value as they lie in memory,
/// copied out. The contract claims their number, the size of the type, and
/// nothing of the bytes themselves: their order is the machine's.
#[verifier::external_body]
fn pod_bytes<T: bytemuck::Pod>(value: &T) -> (bytes: Vec<u8>)
    ensures
        bytes@.len() == vstd::layout::size_of::<T>(),
{
    bytemuck::bytes_of(value).to_vec()
}

/// `bytemuck::try_from_bytes`: a plain value read from the place where its
/// bytes lie, copied out. The call fails unless the slice is exactly as long
/// as the type is large. On a slice of the right length it fails only where
/// the slice lies at an address that is no multiple of the type's alignment:
/// that depends on where the caller's bytes happen to lie, so the contract
/// promises a success only for a type whose alignment is 1, which every
/// address meets. Nothing is claimed of the value read: it is the one whose
/// bytes lie in the slice, in the machine's order.
#[verifier::external_body]
fn pod_read<T: bytemuck::Pod>(bytes: &[u8]) -> (read: Result<T, bytemuck::PodCastError>)
    ensures
        read is Ok ==> bytes@.len() == vstd::layout::size_of::<T>(),
        bytes@.len() == vstd::layout::size_of::<T>() && vstd::layout::align_of::<T>() == 1
            ==> read is Ok,
{
    bytemuck::try_from_bytes::<T>(bytes).copied()
}

impl ViaductSerialize for u8 {
    type Error = bytemuck::PodCastError;

    /// Writes the one byte of the number as they lie in memory.
    fn to_pipeable(&self, buf: &mut Vec<u8>) -> (written: Result<(), Self::Error>)
        ensures
            written is Ok,
            final(buf)@.len() == 1,
    {
        broadcast use vstd::layout::layout_of_primitives;

        let mut bytes = pod_bytes(self);
        buf.append(&mut bytes);
        Ok(())
    }
}

impl ViaductDeserialize for u8 {
    type Error = bytemuck::PodCastError;

    /// Reads a number from its one byte. A payload of one byte is always
    /// read, wherever it lies, as a byte has no alignment to meet; a payload
    /// of another length is refused.
    fn from_pipeable(bytes: &[u8]) -> (read: Result<Self, Self::Error>)
        ensures
            read is Ok <==> bytes@.len() == 1,
    {
        broadcast use vstd::layout::layout_of_primitives;

        vstd::layout::layout_for_type_is_valid::<u8>();
        proof {
            // The size of a type is a multiple of its alignment, and only 1
            // divides 1.
            let align = vstd::layout::align_of::<u8>() as int;
            if align > 1 {
                vstd::arithmetic::div_mod::lemma_small_mod(1, align as nat);
            }
        }
        pod_read(bytes)
    }
}

impl ViaductSerialize for u16 {
    type Error = bytemuck::PodCastError;

    /// Writes the two bytes of the number as they lie in memory.
    fn to_pipeable(&self, buf: &mut Vec<u8>) -> (written: Result<(), Self::Error>)
        ensures
            written is Ok,
            final(buf)@.len() == 2,
    {
        broadcast use vstd::layout::layout_of_primitives;

        let mut bytes = pod_bytes(self);
        buf.append(&mut bytes);
        Ok(())
    }
}

impl ViaductDeserialize for u16 {
    type Error = bytemuck::PodCastError;

    /// Reads a number from its two bytes as they lie in memory. A payload of
    /// another length is refused; one of the right length is read where it
    /// lies at an address that the number can be read from.
    fn from_pipeable(bytes: &[u8]) -> (read: Result<Self, Self::Error>)
        ensures
            read is Ok ==> bytes@.len() == 2,
    {
        broadcast use vstd::layout::layout_of_primitives;

        pod_read(bytes)
    }
}

impl ViaductSerialize for u32 {
    type Error = bytemuck::PodCastError;

    /// Writes the four bytes of the number as they lie in memory.
    fn to_pipeable(&self, buf: &mut Vec<u8>) -> (written: Result<(), Self::Error>)
        ensures
            written is Ok,
            final(buf)@.len() == 4,
    {
        broadcast use vstd::layout::layout_of_primitives;

        let mut bytes = pod_bytes(self);
        buf.append(&mut bytes);
        Ok(())
    }
}

impl ViaductDeserialize for u32 {
    type Error = bytemuck::PodCastError;

    /// Reads a number from its four bytes as they lie in memory. A payload of
    /// another length is refused; one of the right length is read where it
    /// lies at an address that the number can be read from.
    fn from_pipeable(bytes: &[u8]) -> (read: Result<Self, Self::Error>)
        ensures
            read is Ok ==> bytes@.len() == 4,
    {
        broadcast use vstd::layout::layout_of_primitives;

        pod_read(bytes)
    }
}

impl ViaductSerialize for u64 {
    type Error = bytemuck::PodCastError;

    /// Writes the eight bytes of the number as they lie in memory.
    fn to_pipeable(&self, buf: &mut Vec<u8>) -> (written: Result<(), Self::Error>)
        ensures
            written is Ok,
            final(buf)@.len() == 8,
    {
        broadcast use vstd::layout::layout_of_primitives;

        let mut bytes = pod_bytes(self);
        buf.append(&mut bytes);
        Ok(())
    }
}

impl ViaductDeserialize for u64 {
    type Error = bytemuck::PodCastError;

    /// Reads a number from its eight bytes as they lie in memory. A payload of
    /// another length is refused; one of the right length is read where it
    /// lies at an address that the number can be read from.
    fn from_pipeable(bytes: &[u8]) -> (read: Result<Self, Self::Error>)
        ensures
            read is Ok ==> bytes@.len() == 8,
    {
        broadcast use vstd::layout::layout_of_primitives;

        pod_read(bytes)
    }
}

impl ViaductSerialize for u128 {
    type Error = bytemuck::PodCastError;

    /// Writes the sixteen bytes of the number as they lie in memory.
    fn to_pipeable(&self, buf: &mut Vec<u8>) -> (written: Result<(), Self::Error>)
        ensures
            written is Ok,
            final(buf)@.len() == 16,
    {
        broadcast use vstd::layout::layout_of_primitives;

        let mut bytes = pod_bytes(self);
        buf.append(&mut bytes);
        Ok(())
    }
}

impl ViaductDeserialize for u128 {
    type Error = bytemuck::PodCastError;

    /// Reads a number from its sixteen bytes as they lie in memory. A payload of
    /// another length is refused; one of the right length is read where it
    /// lies at an address that the number can be read from.
    fn from_pipeable(bytes: &[u8]) -> (read: Result<Self, Self::Error>)
        ensures
            read is Ok ==> bytes@.len() == 16,
    {
        broadcast use vstd::layout::layout_of_primitives;

        pod_read(bytes)
    }
}

} // verus!
