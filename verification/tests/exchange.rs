use std::time::{Duration, Instant};
use viaduct::chan::{Delivery, ViaductEvent, ViaductRx, ViaductTx};
use viaduct::error::ViaductError;
use viaduct::frame::Frame;
use viaduct::request::{read_response, response_of};
use viaduct::request::{RequestEvent, RequestStage, RequestStep, ViaductRequest, Wake};
use viaduct::serde::{ViaductDeserialize, ViaductSerialize};
use viaduct::table::ViaductResponseState;
use viaduct::wire::Endian;

/// Two numbers to add.
#[derive(Debug, Clone, Copy, PartialEq)]
struct Pair {
    a: u32,
    b: u32,
}

impl ViaductSerialize for Pair {
    type Error = std::convert::Infallible;

    fn to_pipeable(&self, buf: &mut Vec<u8>) -> Result<(), Self::Error> {
        buf.extend_from_slice(&self.a.to_le_bytes());
        buf.extend_from_slice(&self.b.to_le_bytes());
        Ok(())
    }
}

impl ViaductDeserialize for Pair {
    type Error = &'static str;

    fn from_pipeable(bytes: &[u8]) -> Result<Self, Self::Error> {
        if bytes.len() != 8 {
            return Err("a pair is eight bytes");
        }
        Ok(Pair {
            a: u32::from_le_bytes([bytes[0], bytes[1], bytes[2], bytes[3]]),
            b: u32::from_le_bytes([bytes[4], bytes[5], bytes[6], bytes[7]]),
        })
    }
}

/// A request whose codec refuses.
#[derive(Debug)]
struct Unwritable;

impl ViaductSerialize for Unwritable {
    type Error = ();

    fn to_pipeable(&self, _buf: &mut Vec<u8>) -> Result<(), Self::Error> {
        Err(())
    }
}

fn is_done(step: &RequestStep) -> bool {
    matches!(step, RequestStep::Finish { outcome: Err(ViaductError::BrokenPipe), broadcast: false })
}

type Lane = ViaductTx<u8, Pair, u8, Pair>;

/// One side of a channel, with what it has written to its pipe.
struct Side {
    tx: Lane,
    rx: ViaductRx<u8, Pair, u8, Pair>,
    table: ViaductResponseState,
    written: Vec<u8>,
}

/// What the request handler of the serving side does with a request.
#[derive(Clone, Copy)]
enum Handler {
    Add,
    Decline,
}

fn side() -> Side {
    Side {
        tx: ViaductTx::new(Endian::Little),
        rx: ViaductRx::new(Endian::Little),
        table: ViaductResponseState::new(),
        written: Vec::new(),
    }
}

/// Takes the exchange through its two locks and writes its frame.
fn submit(from: &mut Side, exchange: &mut ViaductRequest<Pair>) {
    assert!(matches!(exchange.advance(RequestEvent::TableLocked), RequestStep::AcquireWriter));
    match exchange.compose(&mut from.tx, &mut from.table) {
        RequestStep::Write(frame) => from.written.extend(frame),
        other => panic!("unexpected step: {:?}", other),
    }
    assert_eq!(exchange.stage(), RequestStage::Park);
}

/// Runs the serving side over everything the other side has written.
fn serve(server: &mut Side, client: &mut Side, handler: Handler) {
    let stream = std::mem::take(&mut client.written);
    let mut pos = 0;
    while pos < stream.len() {
        let n = server.rx.expects();
        let frame = server.rx.accept(&stream[pos..pos + n]).unwrap();
        pos += n;
        let Some(frame) = frame else { continue };
        match server.rx.deliver(frame, &mut server.table).unwrap() {
            Delivery::Event(ViaductEvent::Request { request, responder }) => match handler {
                Handler::Add => {
                    let responded = responder.respond(&mut server.tx, &(request.a + request.b));
                    assert_eq!(responded.fault, None);
                    server.written.extend(responded.frame);
                }
                Handler::Decline => {
                    server.written.extend(responder.decline(&server.tx).unwrap());
                }
            },
            other => panic!("unexpected delivery: {:?}", other),
        }
    }
}

/// Brings the responses that the server wrote to the waiting exchanges, as
/// the inbound lane and the woken requesters would between them.
fn collect(
    client: &mut Side,
    server: &mut Side,
    exchanges: &mut Vec<ViaductRequest<Pair>>,
) -> Vec<(u128, Result<Option<u32>, ViaductError>)> {
    let (frames, error) = ViaductRx::<u8, Pair, u8, Pair>::new(Endian::Little)
        .run(&std::mem::take(&mut server.written));
    assert_eq!(error, ViaductError::BrokenPipe);
    let mut outcomes = Vec::new();
    for frame in frames {
        let mut pending = Some(frame);
        while let Some(frame) = pending.take() {
            match client.rx.deliver(frame, &mut client.table).unwrap() {
                Delivery::Deposited | Delivery::Dropped => {}
                Delivery::Blocked(back) => pending = Some(back),
                other => panic!("unexpected delivery: {:?}", other),
            }
            // Every change of the table wakes all who wait.
            for exchange in exchanges.iter_mut() {
                if let RequestStep::Finish { outcome, broadcast } =
                    exchange.poll(&mut client.table, Wake::Changed)
                {
                    assert!(broadcast);
                    outcomes.push((exchange.request_id(), read_response::<u32>(outcome)));
                }
            }
            exchanges.retain(|exchange| exchange.stage() != RequestStage::Finished);
        }
    }
    outcomes
}

#[test]
fn echo_sum() {
    let mut parent = side();
    let mut child = side();
    let mut exchange = Lane::request(Pair { a: 3, b: 4 });
    submit(&mut parent, &mut exchange);
    assert!(matches!(exchange.poll(&mut parent.table, Wake::Changed), RequestStep::Park));
    serve(&mut child, &mut parent, Handler::Add);
    let id = exchange.request_id();
    let mut waiting = vec![exchange];
    let outcomes = collect(&mut parent, &mut child, &mut waiting);
    assert_eq!(outcomes, vec![(id, Ok(Some(7)))]);
    assert!(waiting.is_empty());
}

#[test]
fn echo_sum_five_in_flight() {
    let mut parent = side();
    let mut child = side();
    let inputs = [(1u32, 2u32), (3, 4), (5, 6), (7, 8), (9, 10)];
    let mut waiting = Vec::new();
    let mut expected = Vec::new();
    for (a, b) in inputs {
        let mut exchange = Lane::request(Pair { a, b });
        submit(&mut parent, &mut exchange);
        expected.push((exchange.request_id(), Ok(Some(a + b))));
        waiting.push(exchange);
    }
    // The requesters wake in another order than they asked.
    waiting.reverse();
    serve(&mut child, &mut parent, Handler::Add);
    let mut outcomes = collect(&mut parent, &mut child, &mut waiting);
    assert!(waiting.is_empty());
    let sums: Vec<u32> = outcomes.iter().map(|(_, sum)| sum.clone().unwrap().unwrap()).collect();
    assert_eq!(sums, vec![3, 7, 11, 15, 19]);
    outcomes.sort_by_key(|(id, _)| *id);
    expected.sort_by_key(|(id, _)| *id);
    assert_eq!(outcomes, expected);
}

#[test]
fn responder_drop_answers_absent() {
    let mut parent = side();
    let mut child = side();
    let mut exchange = Lane::request(Pair { a: 1, b: 1 });
    submit(&mut parent, &mut exchange);
    serve(&mut child, &mut parent, Handler::Decline);
    let id = exchange.request_id();
    let mut waiting = vec![exchange];
    let outcomes = collect(&mut parent, &mut child, &mut waiting);
    assert_eq!(outcomes, vec![(id, Ok(None))]);
}

#[test]
fn timeout_then_a_later_request_succeeds() {
    let mut parent = side();
    let mut child = side();
    let deadline = Instant::now() + Duration::from_millis(500);
    let mut slow = Lane::request_timeout_at(deadline, Pair { a: 1, b: 2 });
    assert_eq!(slow.deadline(), Some(deadline));
    submit(&mut parent, &mut slow);
    // The wait runs out before the child has answered.
    match slow.poll(&mut parent.table, Wake::TimedOut) {
        RequestStep::Finish { outcome, broadcast } => {
            assert_eq!(outcome, Err(ViaductError::Timeout));
            assert!(!broadcast);
        }
        other => panic!("unexpected step: {:?}", other),
    }
    assert_eq!(slow.stage(), RequestStage::Finished);
    assert!(!parent.table.is_waiting(slow.request_id()));

    // The child answers late; the parent asks again meanwhile.
    serve(&mut child, &mut parent, Handler::Add);
    let mut next = Lane::request(Pair { a: 20, b: 22 });
    submit(&mut parent, &mut next);
    serve(&mut child, &mut parent, Handler::Add);
    let id = next.request_id();
    let mut waiting = vec![next];
    let outcomes = collect(&mut parent, &mut child, &mut waiting);
    assert_eq!(outcomes, vec![(id, Ok(Some(42)))]);
    assert_eq!(parent.table.request_id(), None);
}

#[test]
fn past_deadline_at_the_table_lock_writes_nothing() {
    let parent = side();
    let mut exchange = Lane::request_timeout_at(Instant::now(), Pair { a: 1, b: 2 });
    match exchange.advance(RequestEvent::TimedOut) {
        RequestStep::Finish { outcome, broadcast } => {
            assert_eq!(outcome, Err(ViaductError::Timeout));
            assert!(!broadcast);
        }
        other => panic!("unexpected step: {:?}", other),
    }
    assert_eq!(exchange.stage(), RequestStage::Finished);
    assert!(parent.written.is_empty());
}

#[test]
fn past_deadline_at_the_pipe_lock_writes_nothing() {
    let mut parent = side();
    let mut exchange = Lane::request_timeout_at(Instant::now(), Pair { a: 1, b: 2 });
    assert!(matches!(exchange.advance(RequestEvent::TableLocked), RequestStep::AcquireWriter));
    assert!(matches!(
        exchange.advance(RequestEvent::TimedOut),
        RequestStep::Finish { outcome: Err(ViaductError::Timeout), broadcast: false }
    ));
    // An exchange that is over composes nothing.
    assert!(matches!(
        exchange.compose(&mut parent.tx, &mut parent.table),
        RequestStep::Finish { outcome: Err(ViaductError::BrokenPipe), broadcast: false }
    ));
    assert!(!parent.table.is_waiting(exchange.request_id()));
}

#[test]
fn response_that_is_there_is_taken_even_after_the_deadline() {
    let mut parent = side();
    let mut child = side();
    let mut exchange = Lane::request_timeout_at(Instant::now(), Pair { a: 2, b: 2 });
    submit(&mut parent, &mut exchange);
    serve(&mut child, &mut parent, Handler::Add);
    let (frames, _) =
        ViaductRx::<u8, Pair, u8, Pair>::new(Endian::Little).run(&std::mem::take(&mut child.written));
    for frame in frames {
        assert!(matches!(parent.rx.deliver(frame, &mut parent.table), Ok(Delivery::Deposited)));
    }
    match exchange.poll(&mut parent.table, Wake::TimedOut) {
        RequestStep::Finish { outcome, broadcast } => {
            assert!(broadcast);
            assert_eq!(read_response::<u32>(outcome), Ok(Some(4)));
        }
        other => panic!("unexpected step: {:?}", other),
    }
}

#[test]
fn request_without_deadline_never_times_out() {
    let mut parent = side();
    let mut exchange = Lane::request(Pair { a: 1, b: 2 });
    assert_eq!(exchange.deadline(), None);
    assert!(matches!(exchange.advance(RequestEvent::TimedOut), RequestStep::AcquireTable));
    assert!(matches!(exchange.advance(RequestEvent::TableLocked), RequestStep::AcquireWriter));
    assert!(matches!(exchange.advance(RequestEvent::TimedOut), RequestStep::AcquireWriter));
    assert!(matches!(exchange.advance(RequestEvent::TableLocked), RequestStep::AcquireWriter));
    assert!(matches!(exchange.compose(&mut parent.tx, &mut parent.table), RequestStep::Write(_)));
    assert!(matches!(exchange.poll(&mut parent.table, Wake::TimedOut), RequestStep::Park));
    assert!(matches!(exchange.advance(RequestEvent::TimedOut), RequestStep::Park));
    assert_eq!(exchange.stage(), RequestStage::Park);
    assert!(parent.table.is_waiting(exchange.request_id()));
}

#[test]
fn request_frame_carries_the_identifier_of_the_exchange() {
    let mut parent = side();
    let mut exchange = Lane::request(Pair { a: 0x0102_0304, b: 5 });
    submit(&mut parent, &mut exchange);
    let (frames, _) = ViaductRx::<u8, Pair, u8, Pair>::new(Endian::Little).run(&parent.written);
    assert_eq!(frames.len(), 1);
    match &frames[0] {
        Frame::Request { request_id, payload } => {
            assert_eq!(*request_id, exchange.request_id());
            assert_eq!(payload, &vec![4, 3, 2, 1, 5, 0, 0, 0]);
        }
        other => panic!("unexpected frame: {:?}", other),
    }
    assert!(parent.table.is_waiting(exchange.request_id()));
}

#[test]
fn request_identifiers_are_random_version_four() {
    let mut seen = Vec::new();
    for _ in 0..64 {
        let id = Lane::request(Pair { a: 0, b: 0 }).request_id();
        assert_eq!((id >> 76) & 0xf, 4);
        assert_eq!((id >> 62) & 0x3, 2);
        assert!(!seen.contains(&id));
        seen.push(id);
    }
    let id = Lane::request_timeout(Duration::from_secs(1), Pair { a: 0, b: 0 }).request_id();
    assert_eq!((id >> 76) & 0xf, 4);
    assert!(!seen.contains(&id));
}

#[test]
fn request_timeout_sets_a_deadline_in_the_future() {
    let before = Instant::now();
    let exchange = Lane::request_timeout(Duration::from_millis(500), Pair { a: 0, b: 0 });
    let deadline = exchange.deadline().unwrap();
    assert!(deadline >= before + Duration::from_millis(500));
    assert!(deadline <= Instant::now() + Duration::from_millis(500));
    // A timeout that the clock cannot represent leaves the exchange unbounded.
    let exchange = Lane::request_timeout(Duration::MAX, Pair { a: 0, b: 0 });
    assert_eq!(exchange.deadline(), None);
}

#[test]
fn encode_fault_ends_the_exchange() {
    let mut tx = ViaductTx::<u8, Unwritable, u8, Pair>::new(Endian::Little);
    let mut table = ViaductResponseState::new();
    let mut exchange = ViaductTx::<u8, Unwritable, u8, Pair>::request(Unwritable);
    exchange.advance(RequestEvent::TableLocked);
    assert!(matches!(
        exchange.compose(&mut tx, &mut table),
        RequestStep::Finish { outcome: Err(ViaductError::Encode), broadcast: false }
    ));
    assert_eq!(exchange.stage(), RequestStage::Finished);
    assert!(!table.is_waiting(exchange.request_id()));
}

#[test]
fn broken_lane_ends_the_exchange() {
    let mut parent = side();
    parent.tx.break_pipe();
    let mut exchange = Lane::request(Pair { a: 1, b: 2 });
    exchange.advance(RequestEvent::TableLocked);
    assert!(matches!(
        exchange.compose(&mut parent.tx, &mut parent.table),
        RequestStep::Finish { outcome: Err(ViaductError::BrokenPipe), broadcast: false }
    ));
    assert!(!parent.table.is_waiting(exchange.request_id()));
}

#[test]
fn failed_write_ends_the_exchange() {
    let mut parent = side();
    let mut exchange = Lane::request(Pair { a: 1, b: 2 });
    submit(&mut parent, &mut exchange);
    parent.tx.break_pipe();
    assert!(matches!(
        exchange.poll(&mut parent.table, Wake::Broken),
        RequestStep::Finish { outcome: Err(ViaductError::BrokenPipe), broadcast: false }
    ));
    assert!(!parent.table.is_waiting(exchange.request_id()));
}

#[test]
fn parked_requests_end_when_the_inbound_lane_ends() {
    let mut parent = side();
    let mut first = Lane::request(Pair { a: 1, b: 2 });
    let mut second = Lane::request_timeout_at(Instant::now(), Pair { a: 3, b: 4 });
    submit(&mut parent, &mut first);
    submit(&mut parent, &mut second);
    assert!(matches!(first.poll(&mut parent.table, Wake::Changed), RequestStep::Park));
    // The read from the pipe fails: the lane ends and all waiters are woken.
    parent.rx.break_pipe();
    parent.table.break_pipe();
    for exchange in [&mut first, &mut second] {
        assert!(matches!(
            exchange.poll(&mut parent.table, Wake::Changed),
            RequestStep::Finish { outcome: Err(ViaductError::BrokenPipe), broadcast: false }
        ));
    }
}

#[test]
fn exchange_that_is_over_stays_over() {
    let mut parent = side();
    let mut exchange = Lane::request_timeout_at(Instant::now(), Pair { a: 1, b: 2 });
    exchange.advance(RequestEvent::TimedOut);
    assert!(is_done(&exchange.advance(RequestEvent::TableLocked)));
    assert!(is_done(&exchange.poll(&mut parent.table, Wake::Changed)));
    assert!(is_done(&exchange.compose(&mut parent.tx, &mut parent.table)));
    assert_eq!(exchange.stage(), RequestStage::Finished);
}

#[test]
fn poll_before_the_frame_is_composed_ends_the_exchange() {
    let mut parent = side();
    let mut exchange = Lane::request(Pair { a: 1, b: 2 });
    assert!(matches!(
        exchange.poll(&mut parent.table, Wake::Changed),
        RequestStep::Finish { outcome: Err(ViaductError::BrokenPipe), broadcast: false }
    ));
}

#[test]
fn response_is_read_by_the_codec_of_the_requester() {
    assert_eq!(read_response::<u32>(Ok(Some(7u32.to_ne_bytes().to_vec()))), Ok(Some(7)));
    assert_eq!(read_response::<u32>(Ok(None)), Ok(None));
    assert_eq!(read_response::<u32>(Err(ViaductError::Timeout)), Err(ViaductError::Timeout));
    assert_eq!(read_response::<u32>(Ok(Some(vec![1, 2, 3]))), Err(ViaductError::Decode));
    assert_eq!(read_response::<Pair>(Ok(Some(vec![0; 7]))), Err(ViaductError::Decode));
    assert_eq!(response_of(Ok::<u8, ()>(5)), Ok(Some(5)));
    assert_eq!(response_of(Err::<u8, ()>(())), Err(ViaductError::Decode));
}
