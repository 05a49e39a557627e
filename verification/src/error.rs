//! The faults that the channel reports.

use vstd::prelude::*;

verus! {

/// The class of a fault, as a caller tells faults apart.
#[derive(Clone, Copy, Debug, PartialEq, Eq, Structural)]
pub enum ErrorKind {
    /// The peer closed the pipe, or the bytes that set the channel up were
    /// missing or wrong.
    BrokenPipe,
    /// The peer has another byte order or another word size.
    Unsupported,
    /// A request with a deadline did not complete in time.
    Timeout,
    /// The message could not be encoded.
    Encode,
    /// The payload could not be decoded.
    Decode,
    /// The byte stream is no sequence of frames.
    Protocol,
}

/// A fault of the channel.
#[derive(Clone, Copy, Debug, PartialEq, Eq, Structural)]
pub enum ViaductError {
    /// The argument list holds no start word.
    HandlesNotFound,
    /// The words after the start word are no pipe handles.
    HandlesMalformed,
    /// The peer did not open with the hello banner.
    HelloMismatch,
    /// The peer's probe word is in the other byte order.
    EndiannessMismatch,
    /// The peer's native word has another size.
    WordSizeMismatch,
    /// The pipe is closed.
    BrokenPipe,
    /// The deadline passed.
    Timeout,
    /// The codec refused the message.
    Encode,
    /// The codec refused the payload.
    Decode,
    /// A frame opens with a tag that the protocol does not know.
    UnknownTag(u8),
    /// A frame is longer than this machine can address.
    Oversized,
}

impl ViaductError {
    /// The class of this fault.
    pub open spec fn spec_kind(self) -> ErrorKind {
        match self {
            ViaductError::HandlesNotFound => ErrorKind::BrokenPipe,
            ViaductError::HandlesMalformed => ErrorKind::BrokenPipe,
            ViaductError::HelloMismatch => ErrorKind::BrokenPipe,
            ViaductError::BrokenPipe => ErrorKind::BrokenPipe,
            ViaductError::EndiannessMismatch => ErrorKind::Unsupported,
            ViaductError::WordSizeMismatch => ErrorKind::Unsupported,
            ViaductError::Timeout => ErrorKind::Timeout,
            ViaductError::Encode => ErrorKind::Encode,
            ViaductError::Decode => ErrorKind::Decode,
            ViaductError::UnknownTag(_) => ErrorKind::Protocol,
            ViaductError::Oversized => ErrorKind::Protocol,
        }
    }

    /// The class of this fault.
    #[verifier::when_used_as_spec(spec_kind)]
    pub fn kind(self) -> (kind: ErrorKind)
        ensures
            kind == self.spec_kind(),
    {
        match self {
            ViaductError::HandlesNotFound => ErrorKind::BrokenPipe,
            ViaductError::HandlesMalformed => ErrorKind::BrokenPipe,
            ViaductError::HelloMismatch => ErrorKind::BrokenPipe,
            ViaductError::BrokenPipe => ErrorKind::BrokenPipe,
            ViaductError::EndiannessMismatch => ErrorKind::Unsupported,
            ViaductError::WordSizeMismatch => ErrorKind::Unsupported,
            ViaductError::Timeout => ErrorKind::Timeout,
            ViaductError::Encode => ErrorKind::Encode,
            ViaductError::Decode => ErrorKind::Decode,
            ViaductError::UnknownTag(_) => ErrorKind::Protocol,
            ViaductError::Oversized => ErrorKind::Protocol,
        }
    }
}

} // verus!
