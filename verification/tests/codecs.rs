use viaduct::doctest::{BackflipError, ExampleRequest, ExampleResponse, ExampleRpc};
use viaduct::doctest::{FrontflipError, Malformed};
use viaduct::error::{ErrorKind, ViaductError};
use viaduct::serde::{ViaductDeserialize, ViaductSerialize};

fn written<T: ViaductSerialize>(value: &T) -> Vec<u8> {
    let mut buf = Vec::new();
    value.to_pipeable(&mut buf).unwrap();
    buf
}

#[test]
fn example_messages_are_one_byte() {
    assert_eq!(written(&ExampleRpc::Cow), vec![0]);
    assert_eq!(written(&ExampleRpc::Pig), vec![1]);
    assert_eq!(written(&ExampleRpc::Horse), vec![2]);
    assert_eq!(written(&ExampleRequest::DoAFrontflip), vec![0]);
    assert_eq!(written(&ExampleRequest::DoABackflip), vec![1]);
    assert_eq!(written(&ExampleResponse::FrontflipOk), vec![0]);
    assert_eq!(written(&ExampleResponse::BackflipOk), vec![1]);
    assert_eq!(written(&FrontflipError), Vec::<u8>::new());
    assert_eq!(written(&BackflipError), Vec::<u8>::new());
}

#[test]
fn example_messages_are_read_back() {
    for rpc in [ExampleRpc::Cow, ExampleRpc::Pig, ExampleRpc::Horse] {
        assert_eq!(ExampleRpc::from_pipeable(&written(&rpc)), Ok(rpc));
    }
    for request in [ExampleRequest::DoAFrontflip, ExampleRequest::DoABackflip] {
        assert_eq!(ExampleRequest::from_pipeable(&written(&request)), Ok(request));
    }
    for response in [ExampleResponse::FrontflipOk, ExampleResponse::BackflipOk] {
        assert_eq!(ExampleResponse::from_pipeable(&written(&response)), Ok(response));
    }
    assert_eq!(FrontflipError::from_pipeable(&[]), Ok(FrontflipError));
    assert_eq!(BackflipError::from_pipeable(&[]), Ok(BackflipError));
}

#[test]
fn payloads_that_are_no_example_message_are_refused() {
    assert_eq!(ExampleRpc::from_pipeable(&[]), Err(Malformed));
    assert_eq!(ExampleRpc::from_pipeable(&[3]), Err(Malformed));
    assert_eq!(ExampleRpc::from_pipeable(&[0, 0]), Err(Malformed));
    assert_eq!(ExampleRequest::from_pipeable(&[2]), Err(Malformed));
    assert_eq!(ExampleRequest::from_pipeable(&[]), Err(Malformed));
    assert_eq!(ExampleResponse::from_pipeable(&[2]), Err(Malformed));
    assert_eq!(ExampleResponse::from_pipeable(&[1, 1]), Err(Malformed));
    assert_eq!(FrontflipError::from_pipeable(&[0]), Err(Malformed));
    assert_eq!(BackflipError::from_pipeable(&[0]), Err(Malformed));
}

#[test]
fn plain_integers_are_written_as_they_lie_in_memory() {
    assert_eq!(written(&0xabu8), vec![0xab]);
    assert_eq!(written(&0x0102u16), 0x0102u16.to_ne_bytes().to_vec());
    assert_eq!(written(&0x0102_0304u32), 0x0102_0304u32.to_ne_bytes().to_vec());
    assert_eq!(written(&0x0102_0304_0506_0708u64), 0x0102_0304_0506_0708u64.to_ne_bytes().to_vec());
    assert_eq!(written(&(1u128 << 100)), (1u128 << 100).to_ne_bytes().to_vec());
}

#[test]
fn plain_integers_are_read_back() {
    assert_eq!(u8::from_pipeable(&written(&200u8)).unwrap(), 200);
    assert_eq!(u16::from_pipeable(&written(&51966u16)).unwrap(), 51966);
    assert_eq!(u32::from_pipeable(&written(&42069u32)).unwrap(), 42069);
    assert_eq!(u64::from_pipeable(&written(&u64::MAX)).unwrap(), u64::MAX);
    assert_eq!(u128::from_pipeable(&written(&(u128::MAX - 5))).unwrap(), u128::MAX - 5);
}

#[test]
fn one_byte_is_read_wherever_it_lies() {
    let bytes: Vec<u8> = (0..=32).collect();
    for at in 0..bytes.len() {
        assert_eq!(u8::from_pipeable(&bytes[at..at + 1]).unwrap(), at as u8);
    }
}

#[test]
fn plain_integers_of_the_wrong_length_are_refused() {
    assert!(u8::from_pipeable(&[]).is_err());
    assert!(u8::from_pipeable(&[1, 2]).is_err());
    assert!(u16::from_pipeable(&[1]).is_err());
    assert!(u32::from_pipeable(&[1, 2, 3]).is_err());
    assert!(u32::from_pipeable(&[1, 2, 3, 4, 5]).is_err());
    assert!(u64::from_pipeable(&[0; 4]).is_err());
    assert!(u128::from_pipeable(&[0; 8]).is_err());
}

#[test]
fn every_fault_has_its_kind() {
    assert_eq!(ViaductError::HandlesNotFound.kind(), ErrorKind::BrokenPipe);
    assert_eq!(ViaductError::HandlesMalformed.kind(), ErrorKind::BrokenPipe);
    assert_eq!(ViaductError::HelloMismatch.kind(), ErrorKind::BrokenPipe);
    assert_eq!(ViaductError::BrokenPipe.kind(), ErrorKind::BrokenPipe);
    assert_eq!(ViaductError::EndiannessMismatch.kind(), ErrorKind::Unsupported);
    assert_eq!(ViaductError::WordSizeMismatch.kind(), ErrorKind::Unsupported);
    assert_eq!(ViaductError::Timeout.kind(), ErrorKind::Timeout);
    assert_eq!(ViaductError::Encode.kind(), ErrorKind::Encode);
    assert_eq!(ViaductError::Decode.kind(), ErrorKind::Decode);
    assert_eq!(ViaductError::UnknownTag(9).kind(), ErrorKind::Protocol);
    assert_eq!(ViaductError::Oversized.kind(), ErrorKind::Protocol);
}
