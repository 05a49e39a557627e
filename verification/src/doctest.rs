//! Small message types with one-byte codecs, for examples and tests.

use crate::serde::{ViaductDeserialize, ViaductSerialize};
use vstd::prelude::*;

verus! {

/// The fault of reading a payload that is no value of the type asked for.
#[derive(Clone, Copy, Debug, PartialEq, Eq, Structural)]
pub struct Malformed;

/// Noises to make.
#[derive(Clone, Copy, Debug, PartialEq, Eq, Structural)]
pub enum ExampleRpc {
    Cow,
    Pig,
    Horse,
}

/// Feats to perform.
#[derive(Clone, Copy, Debug, PartialEq, Eq, Structural)]
pub enum ExampleRequest {
    DoAFrontflip,
    DoABackflip,
}

/// Feats performed.
#[derive(Clone, Copy, Debug, PartialEq, Eq, Structural)]
pub enum ExampleResponse {
    FrontflipOk,
    BackflipOk,
}

/// A frontflip gone wrong.
#[derive(Clone, Copy, Debug, PartialEq, Eq, Structural)]
pub struct FrontflipError;

/// A backflip gone wrong.
#[derive(Clone, Copy, Debug, PartialEq, Eq, Structural)]
pub struct BackflipError;

impl ExampleRpc {
    /// The byte that stands for this noise.
    pub open spec fn code(self) -> u8 {
        match self {
            ExampleRpc::Cow => 0,
            ExampleRpc::Pig => 1,
            ExampleRpc::Horse => 2,
        }
    }

    /// The noise that a payload stands for, if any.
    pub open spec fn read(bytes: Seq<u8>) -> Option<ExampleRpc> {
        if bytes.len() != 1 {
            None
        } else if bytes[0] == 0 {
            Some(ExampleRpc::Cow)
        } else if bytes[0] == 1 {
            Some(ExampleRpc::Pig)
        } else if bytes[0] == 2 {
            Some(ExampleRpc::Horse)
        } else {
            None
        }
    }
}

impl ExampleRequest {
    /// The byte that stands for this feat.
    pub open spec fn code(self) -> u8 {
        match self {
            ExampleRequest::DoAFrontflip => 0,
            ExampleRequest::DoABackflip => 1,
        }
    }

    /// The feat that a payload stands for, if any.
    pub open spec fn read(bytes: Seq<u8>) -> Option<ExampleRequest> {
        if bytes.len() != 1 {
            None
        } else if bytes[0] == 0 {
            Some(ExampleRequest::DoAFrontflip)
        } else if bytes[0] == 1 {
            Some(ExampleRequest::DoABackflip)
        } else {
            None
        }
    }
}

impl ExampleResponse {
    /// The byte that stands for this outcome.
    pub open spec fn code(self) -> u8 {
        match self {
            ExampleResponse::FrontflipOk => 0,
            ExampleResponse::BackflipOk => 1,
        }
    }

    /// The outcome that a payload stands for, if any.
    pub open spec fn read(bytes: Seq<u8>) -> Option<ExampleResponse> {
        if bytes.len() != 1 {
            None
        } else if bytes[0] == 0 {
            Some(ExampleResponse::FrontflipOk)
        } else if bytes[0] == 1 {
            Some(ExampleResponse::BackflipOk)
        } else {
            None
        }
    }
}

/// The one value behind a one-byte payload, if the payload is one byte.
fn single(bytes: &[u8]) -> (byte: Option<u8>)
    ensures
        byte == if bytes@.len() == 1 {
            Some(bytes@[0])
        } else {
            None
        },
{
    if bytes.len() == 1 {
        Some(bytes[0])
    } else {
        None
    }
}

impl ViaductSerialize for ExampleRpc {
    type Error = core::convert::Infallible;

    fn to_pipeable(&self, buf: &mut Vec<u8>) -> (written: Result<(), Self::Error>)
        ensures
            written is Ok,
            final(buf)@ == seq![self.code()],
    {
        buf.push(
            match self {
                ExampleRpc::Cow => 0,
                ExampleRpc::Pig => 1,
                ExampleRpc::Horse => 2,
            },
        );
        assert(buf@ =~= seq![self.code()]);
        Ok(())
    }
}

impl ViaductDeserialize for ExampleRpc {
    type Error = Malformed;

    fn from_pipeable(bytes: &[u8]) -> (read: Result<Self, Self::Error>)
        ensures
            read == match ExampleRpc::read(bytes@) {
                Some(rpc) => Ok::<Self, Malformed>(rpc),
                None => Err(Malformed),
            },
    {
        match single(bytes) {
            Some(0) => Ok(ExampleRpc::Cow),
            Some(1) => Ok(ExampleRpc::Pig),
            Some(2) => Ok(ExampleRpc::Horse),
            _ => Err(Malformed),
        }
    }
}

impl ViaductSerialize for ExampleRequest {
    type Error = core::convert::Infallible;

    fn to_pipeable(&self, buf: &mut Vec<u8>) -> (written: Result<(), Self::Error>)
        ensures
            written is Ok,
            final(buf)@ == seq![self.code()],
    {
        buf.push(
            match self {
                ExampleRequest::DoAFrontflip => 0,
                ExampleRequest::DoABackflip => 1,
            },
        );
        assert(buf@ =~= seq![self.code()]);
        Ok(())
    }
}

impl ViaductDeserialize for ExampleRequest {
    type Error = Malformed;

    fn from_pipeable(bytes: &[u8]) -> (read: Result<Self, Self::Error>)
        ensures
            read == match ExampleRequest::read(bytes@) {
                Some(request) => Ok::<Self, Malformed>(request),
                None => Err(Malformed),
            },
    {
        match single(bytes) {
            Some(0) => Ok(ExampleRequest::DoAFrontflip),
            Some(1) => Ok(ExampleRequest::DoABackflip),
            _ => Err(Malformed),
        }
    }
}

impl ViaductSerialize for ExampleResponse {
    type Error = core::convert::Infallible;

    fn to_pipeable(&self, buf: &mut Vec<u8>) -> (written: Result<(), Self::Error>)
        ensures
            written is Ok,
            final(buf)@ == seq![self.code()],
    {
        buf.push(
            match self {
                ExampleResponse::FrontflipOk => 0,
                ExampleResponse::BackflipOk => 1,
            },
        );
        assert(buf@ =~= seq![self.code()]);
        Ok(())
    }
}

impl ViaductDeserialize for ExampleResponse {
    type Error = Malformed;

    fn from_pipeable(bytes: &[u8]) -> (read: Result<Self, Self::Error>)
        ensures
            read == match ExampleResponse::read(bytes@) {
                Some(response) => Ok::<Self, Malformed>(response),
                None => Err(Malformed),
            },
    {
        match single(bytes) {
            Some(0) => Ok(ExampleResponse::FrontflipOk),
            Some(1) => Ok(ExampleResponse::BackflipOk),
            _ => Err(Malformed),
        }
    }
}

impl ViaductSerialize for FrontflipError {
    type Error = core::convert::Infallible;

    fn to_pipeable(&self, buf: &mut Vec<u8>) -> (written: Result<(), Self::Error>)
        ensures
            written is Ok,
            final(buf)@ == old(buf)@,
    {
        Ok(())
    }
}

impl ViaductDeserialize for FrontflipError {
    type Error = Malformed;

    fn from_pipeable(bytes: &[u8]) -> (read: Result<Self, Self::Error>)
        ensures
            read == if bytes@.len() == 0 {
                Ok::<Self, Malformed>(FrontflipError)
            } else {
                Err(Malformed)
            },
    {
        if bytes.len() == 0 {
            Ok(FrontflipError)
        } else {
            Err(Malformed)
        }
    }
}

impl ViaductSerialize for BackflipError {
    type Error = core::convert::Infallible;

    fn to_pipeable(&self, buf: &mut Vec<u8>) -> (written: Result<(), Self::Error>)
        ensures
            written is Ok,
            final(buf)@ == old(buf)@,
    {
        Ok(())
    }
}

impl ViaductDeserialize for BackflipError {
    type Error = Malformed;

    fn from_pipeable(bytes: &[u8]) -> (read: Result<Self, Self::Error>)
        ensures
            read == if bytes@.len() == 0 {
                Ok::<Self, Malformed>(BackflipError)
            } else {
                Err(Malformed)
            },
    {
        if bytes.len() == 0 {
            Ok(BackflipError)
        } else {
            Err(Malformed)
        }
    }
}

/// What the example codecs write, they read back as the value written.
pub proof fn lemma_example_codecs_round_trip(
    rpc: ExampleRpc,
    request: ExampleRequest,
    response: ExampleResponse,
)
    ensures
        ExampleRpc::read(seq![rpc.code()]) == Some(rpc),
        ExampleRequest::read(seq![request.code()]) == Some(request),
        ExampleResponse::read(seq![response.code()]) == Some(response),
{
}

} // verus!
