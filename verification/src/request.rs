//! The request path: one exchange of a request and its response, step by
//! step.
//!
//! An exchange waits three times: for the lock of the response table, for
//! the lock of the outbound pipe, and for its response. The caller does the
//! waiting and the writing; the exchange decides what comes next from what
//! the caller reports. From the moment it holds the table, the caller holds
//! it whenever it reports to the exchange, as a wait on the table's
//! condition gives the lock back on return. An exchange with a deadline ends
//! with `Timeout` when a wait runs out; it never takes a response that is not
//! its own, and a timeout takes none at all.

use crate::chan::{bytes_view, Outbound, ViaductTx};
use crate::error::ViaductError;
use crate::serde::{ViaductDeserialize, ViaductSerialize};
use crate::table::{Claim, ClaimView, Deposit, ResponseTable, ViaductResponseState};
use std::time::{Duration, Instant};
use vstd::prelude::*;

verus! {

#[verifier::external_type_specification]
#[verifier::external_body]
pub struct ExInstant(std::time::Instant);

/// Whether a number is a random (version 4) identifier: the version nibble
/// is 4 and the two variant bits are `10`.
pub open spec fn is_v4(request_id: u128) -> bool {
    (request_id >> 76) & 0xf == 4 && (request_id >> 62) & 0x3 == 2
}

/// `uuid::Uuid::new_v4`, read as a 128-bit number by `Uuid::as_u128`. The
/// identifier is drawn from the operating system's random source, so two
/// calls differ and nothing is stated of the random bits; the call fixes the
/// version nibble to 4 and the variant bits to `10`, and that is all the
/// contract claims. The call panics where the system has no random source.
#[verifier::external_body]
fn new_v4() -> (request_id: u128)
    ensures
        is_v4(request_id),
{
    uuid::Uuid::new_v4().as_u128()
}

/// `std::time::Instant::now`: the current reading of the monotonic clock.
/// Nothing is stated of it.
#[verifier::external_body]
fn now() -> Instant {
    Instant::now()
}

/// `std::time::Instant::checked_add`: the instant that lies `timeout` after
/// `start`, or `None` where the clock cannot represent it. Nothing is stated
/// of the result.
#[verifier::external_body]
fn instant_after(start: Instant, timeout: Duration) -> Option<Instant> {
    start.checked_add(timeout)
}

/// Where an exchange stands.
#[derive(Clone, Copy, Debug, PartialEq, Eq, Structural)]
pub enum RequestStage {
    /// It waits for the lock of the response table.
    AcquireTable,
    /// It holds the table and waits for the lock of the outbound pipe.
    AcquireWriter,
    /// Its frame is handed out; it waits for its response.
    Park,
    /// It is over.
    Finished,
}

/// What the caller reports to an exchange that waits for a lock.
#[derive(Clone, Copy, Debug, PartialEq, Eq, Structural)]
pub enum RequestEvent {
    /// The lock of the response table is held.
    TableLocked,
    /// The deadline passed before the lock was held.
    TimedOut,
}

/// Why an exchange that waits for its response looks into the table.
#[derive(Clone, Copy, Debug, PartialEq, Eq, Structural)]
pub enum Wake {
    /// The frame was written, or the table has changed.
    Changed,
    /// The deadline passed before the table changed.
    TimedOut,
    /// The write of the frame failed.
    Broken,
}

/// What an exchange asks the caller to do next.
pub enum StepView {
    AcquireTable,
    AcquireWriter,
    Write(Seq<u8>),
    Park,
    Finish { outcome: Result<Option<Seq<u8>>, ViaductError>, broadcast: bool },
}

/// What an exchange is, apart from the message it carries.
pub struct RequestView {
    /// The identifier under which the response will come.
    pub request_id: u128,
    /// Where the exchange stands.
    pub stage: RequestStage,
    /// Whether its waits are bounded by a deadline.
    pub deadlined: bool,
}

impl RequestView {
    /// The exchange ends with a fault: nothing is written, nothing is taken
    /// from the slot, nobody is woken.
    pub open spec fn fails(self, error: ViaductError) -> (RequestView, StepView) {
        (
            RequestView { stage: RequestStage::Finished, ..self },
            StepView::Finish { outcome: Err(error), broadcast: false },
        )
    }

    /// The wait that the exchange is in ran out: with a deadline the
    /// exchange ends with `Timeout`; without one the wait goes on.
    pub open spec fn timed_out(self, again: StepView) -> (RequestView, StepView) {
        if self.deadlined {
            self.fails(ViaductError::Timeout)
        } else {
            (self, again)
        }
    }

    /// The exchange after a report on a lock. An exchange that waits for no
    /// lock stays where it is: one that waits for its response is to look
    /// into the table, and one that is over stays over.
    pub open spec fn advance(self, event: RequestEvent) -> (RequestView, StepView) {
        match (self.stage, event) {
            (RequestStage::AcquireTable, RequestEvent::TableLocked) => (
                RequestView { stage: RequestStage::AcquireWriter, ..self },
                StepView::AcquireWriter,
            ),
            (RequestStage::AcquireTable, RequestEvent::TimedOut) => self.timed_out(
                StepView::AcquireTable,
            ),
            (RequestStage::AcquireWriter, RequestEvent::TableLocked) => (
                self,
                StepView::AcquireWriter,
            ),
            (RequestStage::AcquireWriter, RequestEvent::TimedOut) => self.timed_out(
                StepView::AcquireWriter,
            ),
            (RequestStage::Park, _) => (self, StepView::Park),
            (RequestStage::Finished, _) => self.fails(ViaductError::BrokenPipe),
        }
    }

    /// The exchange after the outbound lane has tried to frame its request:
    /// the frame is to be written, or the fault ends the exchange.
    pub open spec fn composed(self, sealed: Result<Seq<u8>, ViaductError>) -> (
        RequestView,
        StepView,
    ) {
        if self.stage != RequestStage::AcquireWriter {
            self.fails(ViaductError::BrokenPipe)
        } else {
            match sealed {
                Ok(frame) => (
                    RequestView { stage: RequestStage::Park, ..self },
                    StepView::Write(frame),
                ),
                Err(error) => self.fails(error),
            }
        }
    }

    /// The table after the exchange has composed its request: the exchange
    /// is enrolled where its frame is to be written, and not enrolled where
    /// it ended.
    pub open spec fn composed_table(
        self,
        table: ResponseTable,
        sealed: Result<Seq<u8>, ViaductError>,
    ) -> ResponseTable {
        if self.composed(sealed).1 is Write {
            table.enroll(self.request_id)
        } else {
            table.withdraw(self.request_id)
        }
    }

    /// The exchange after it has looked into the table. Its own response
    /// ends it, whatever the clock says; a broken table or a failed write
    /// ends it; otherwise it waits on, unless its deadline has passed.
    pub open spec fn poll(self, table: ResponseTable, wake: Wake) -> (RequestView, StepView) {
        if self.stage != RequestStage::Park {
            self.fails(ViaductError::BrokenPipe)
        } else {
            match table.claim(self.request_id) {
                ClaimView::Answered(payload) => (
                    RequestView { stage: RequestStage::Finished, ..self },
                    StepView::Finish { outcome: Ok(Some(payload)), broadcast: true },
                ),
                ClaimView::Declined => (
                    RequestView { stage: RequestStage::Finished, ..self },
                    StepView::Finish { outcome: Ok(None), broadcast: true },
                ),
                ClaimView::Broken => self.fails(ViaductError::BrokenPipe),
                ClaimView::Pending => match wake {
                    Wake::Changed => (self, StepView::Park),
                    Wake::TimedOut => self.timed_out(StepView::Park),
                    Wake::Broken => self.fails(ViaductError::BrokenPipe),
                },
            }
        }
    }

    /// The table after the exchange has looked into it: unchanged while the
    /// exchange waits on; once the exchange is over, the slot is free if it
    /// held the response to this exchange, and the exchange is enrolled no
    /// more.
    pub open spec fn polled(self, table: ResponseTable, wake: Wake) -> ResponseTable {
        if self.poll(table, wake).1 is Park {
            table
        } else if self.stage == RequestStage::Park {
            table.claimed(self.request_id).withdraw(self.request_id)
        } else {
            table.withdraw(self.request_id)
        }
    }
}

/// What an exchange asks the caller to do next.
#[derive(Debug)]
pub enum RequestStep {
    /// Wait for the lock of the response table, until the deadline if there
    /// is one, and report `TableLocked` or `TimedOut`.
    AcquireTable,
    /// Wait for the lock of the outbound pipe, until the deadline if there is
    /// one, and compose the request under it, or report `TimedOut`.
    AcquireWriter,
    /// Write this frame whole, release the outbound pipe, and poll the
    /// table, with `Wake::Broken` if the write failed.
    Write(Vec<u8>),
    /// Wait for a change of the table, until the deadline if there is one,
    /// and poll it again, with `Wake::TimedOut` if the wait ran out.
    Park,
    /// The exchange is over: `outcome` is the payload of the response,
    /// `None` where the peer declined, or the fault. Where `broadcast` is
    /// set the slot was freed, and all who wait on the table are to be woken.
    Finish { outcome: Result<Option<Vec<u8>>, ViaductError>, broadcast: bool },
}

impl View for RequestStep {
    type V = StepView;

    open spec fn view(&self) -> StepView {
        match *self {
            RequestStep::AcquireTable => StepView::AcquireTable,
            RequestStep::AcquireWriter => StepView::AcquireWriter,
            RequestStep::Write(frame) => StepView::Write(frame@),
            RequestStep::Park => StepView::Park,
            RequestStep::Finish { outcome, broadcast } => StepView::Finish {
                outcome: match outcome {
                    Ok(Some(payload)) => Ok(Some(payload@)),
                    Ok(None) => Ok(None),
                    Err(error) => Err(error),
                },
                broadcast,
            },
        }
    }
}

/// One exchange of a request and its response.
#[derive(Debug)]
pub struct ViaductRequest<RequestTx: ViaductSerialize> {
    request: RequestTx,
    request_id: u128,
    stage: RequestStage,
    deadline: Option<Instant>,
}

impl<RequestTx: ViaductSerialize> View for ViaductRequest<RequestTx> {
    type V = RequestView;

    closed spec fn view(&self) -> RequestView {
        RequestView {
            request_id: self.request_id,
            stage: self.stage,
            deadlined: self.deadline is Some,
        }
    }
}

impl<RequestTx: ViaductSerialize> ViaductRequest<RequestTx> {
    /// The request that the exchange carries.
    pub closed spec fn spec_request(&self) -> RequestTx {
        self.request
    }

    /// The instant at which the waits of the exchange run out.
    pub closed spec fn spec_deadline(&self) -> Option<Instant> {
        self.deadline
    }

    /// A new exchange for `request` under the given identifier, with the
    /// given deadline or none. It stands before the lock of the response
    /// table.
    pub fn new(request: RequestTx, request_id: u128, deadline: Option<Instant>) -> (exchange: Self)
        ensures
            exchange@ == (RequestView {
                request_id,
                stage: RequestStage::AcquireTable,
                deadlined: deadline is Some,
            }),
            exchange.spec_request() == request,
            exchange.spec_deadline() == deadline,
    {
        ViaductRequest { request, request_id, stage: RequestStage::AcquireTable, deadline }
    }

    /// The identifier under which the response will come.
    pub fn request_id(&self) -> (request_id: u128)
        ensures
            request_id == self@.request_id,
    {
        self.request_id
    }

    /// Where the exchange stands.
    pub fn stage(&self) -> (stage: RequestStage)
        ensures
            stage == self@.stage,
    {
        self.stage
    }

    /// The instant at which the waits of the exchange run out, if any.
    #[verifier::when_used_as_spec(spec_deadline)]
    pub fn deadline(&self) -> (deadline: Option<Instant>)
        ensures
            deadline == self.spec_deadline(),
            deadline is Some == self@.deadlined,
    {
        self.deadline
    }

    /// Takes a report on a lock: it is held, or the wait for it ran out.
    pub fn advance(&mut self, event: RequestEvent) -> (step: RequestStep)
        ensures
            (final(self)@, step@) == old(self)@.advance(event),
            final(self).spec_request() == old(self).spec_request(),
            final(self).spec_deadline() == old(self).spec_deadline(),
    {
        match self.stage {
            RequestStage::Finished => self.fail(ViaductError::BrokenPipe),
            RequestStage::Park => RequestStep::Park,
            RequestStage::AcquireTable => match event {
                RequestEvent::TableLocked => {
                    self.stage = RequestStage::AcquireWriter;
                    RequestStep::AcquireWriter
                },
                RequestEvent::TimedOut => if self.deadline.is_some() {
                    self.fail(ViaductError::Timeout)
                } else {
                    RequestStep::AcquireTable
                },
            },
            RequestStage::AcquireWriter => match event {
                RequestEvent::TableLocked => RequestStep::AcquireWriter,
                RequestEvent::TimedOut => if self.deadline.is_some() {
                    self.fail(ViaductError::Timeout)
                } else {
                    RequestStep::AcquireWriter
                },
            },
        }
    }

    fn fail(&mut self, error: ViaductError) -> (step: RequestStep)
        ensures
            (final(self)@, step@) == old(self)@.fails(error),
            final(self).spec_request() == old(self).spec_request(),
            final(self).spec_deadline() == old(self).spec_deadline(),
    {
        self.stage = RequestStage::Finished;
        RequestStep::Finish { outcome: Err(error), broadcast: false }
    }

    /// Takes what the outbound lane made of the request: the frame, which is
    /// to be written, or the fault, which ends the exchange. With the frame
    /// the exchange enrolls in the table.
    pub fn composed(
        &mut self,
        table: &mut ViaductResponseState,
        sealed: Result<Vec<u8>, ViaductError>,
    ) -> (step: RequestStep)
        ensures
            (final(self)@, step@) == old(self)@.composed(bytes_view(sealed)),
            final(table)@ == old(self)@.composed_table(old(table)@, bytes_view(sealed)),
            final(self).spec_request() == old(self).spec_request(),
            final(self).spec_deadline() == old(self).spec_deadline(),
    {
        if self.stage != RequestStage::AcquireWriter {
            table.withdraw(self.request_id);
            return self.fail(ViaductError::BrokenPipe);
        }
        match sealed {
            Ok(frame) => {
                table.enroll(self.request_id);
                self.stage = RequestStage::Park;
                RequestStep::Write(frame)
            },
            Err(error) => {
                table.withdraw(self.request_id);
                self.fail(error)
            },
        }
    }

    /// Composes the request under the locks of the table and of the outbound
    /// pipe: the lane encodes the message and frames it under the identifier
    /// of the exchange, and the exchange enrolls in the table. An exchange
    /// that does not stand before the lock of the pipe ends and leaves the
    /// lane as it is.
    pub fn compose<RpcTx, RpcRx, RequestRx>(
        &mut self,
        tx: &mut ViaductTx<RpcTx, RequestTx, RpcRx, RequestRx>,
        table: &mut ViaductResponseState,
    ) -> (step: RequestStep) where
        RpcTx: ViaductSerialize,
        RpcRx: ViaductDeserialize,
        RequestRx: ViaductDeserialize,

        ensures
            final(self).spec_request() == old(self).spec_request(),
            final(self).spec_deadline() == old(self).spec_deadline(),
            final(tx)@.endian == old(tx)@.endian,
            final(tx)@.broken == old(tx)@.broken,
            old(self)@.stage != RequestStage::AcquireWriter || old(tx)@.broken ==> {
                &&& final(tx)@ == old(tx)@
                &&& (final(self)@, step@) == old(self)@.fails(ViaductError::BrokenPipe)
                &&& final(table)@ == old(table)@.withdraw(old(self)@.request_id)
            },
            old(self)@.stage == RequestStage::AcquireWriter && !old(tx)@.broken ==> exists|
                encoded: bool,
            |
                {
                    let sealed = #[trigger] final(tx)@.sealed(
                        Outbound::Request(old(self)@.request_id),
                        encoded,
                    );
                    &&& (final(self)@, step@) == old(self)@.composed(sealed)
                    &&& final(table)@ == old(self)@.composed_table(old(table)@, sealed)
                },
    {
        if self.stage != RequestStage::AcquireWriter {
            table.withdraw(self.request_id);
            return self.fail(ViaductError::BrokenPipe);
        }
        let sealed = tx.send(Outbound::Request(self.request_id), &self.request);
        self.composed(table, sealed)
    }

    /// Looks into the table, under its lock, after the frame was written and
    /// after every wait; `wake` says why. The exchange takes the response
    /// filed under its own identifier and no other, and it looks before it
    /// gives up: a response that is there is taken even when the deadline
    /// has passed or the write was reported as failed. An exchange that ends
    /// withdraws from the table.
    pub fn poll(&mut self, table: &mut ViaductResponseState, wake: Wake) -> (step: RequestStep)
        ensures
            (final(self)@, step@) == old(self)@.poll(old(table)@, wake),
            final(table)@ == old(self)@.polled(old(table)@, wake),
            final(self).spec_request() == old(self).spec_request(),
            final(self).spec_deadline() == old(self).spec_deadline(),
    {
        if self.stage != RequestStage::Park {
            table.withdraw(self.request_id);
            return self.fail(ViaductError::BrokenPipe);
        }
        match table.claim(self.request_id) {
            Claim::Answered(payload) => {
                table.withdraw(self.request_id);
                self.stage = RequestStage::Finished;
                RequestStep::Finish { outcome: Ok(Some(payload)), broadcast: true }
            },
            Claim::Declined => {
                table.withdraw(self.request_id);
                self.stage = RequestStage::Finished;
                RequestStep::Finish { outcome: Ok(None), broadcast: true }
            },
            Claim::Broken => {
                table.withdraw(self.request_id);
                self.fail(ViaductError::BrokenPipe)
            },
            Claim::Pending => {
                let over = match wake {
                    Wake::Changed => None,
                    Wake::TimedOut => if self.deadline.is_some() {
                        Some(ViaductError::Timeout)
                    } else {
                        None
                    },
                    Wake::Broken => Some(ViaductError::BrokenPipe),
                };
                match over {
                    Some(error) => {
                        table.withdraw(self.request_id);
                        self.fail(error)
                    },
                    None => RequestStep::Park,
                }
            },
        }
    }
}

impl<RpcTx, RequestTx, RpcRx, RequestRx> ViaductTx<RpcTx, RequestTx, RpcRx, RequestRx> where
    RpcTx: ViaductSerialize,
    RequestTx: ViaductSerialize,
    RpcRx: ViaductDeserialize,
    RequestRx: ViaductDeserialize,
 {
    /// Opens an exchange for `request` that waits for its response as long
    /// as it takes. The exchange gets a fresh random identifier; it touches
    /// a lane only when its request is composed.
    pub fn request(request: RequestTx) -> (exchange: ViaductRequest<RequestTx>)
        ensures
            exchange@.stage == RequestStage::AcquireTable,
            !exchange@.deadlined,
            is_v4(exchange@.request_id),
            exchange.spec_request() == request,
    {
        ViaductRequest::new(request, new_v4(), None)
    }

    /// Opens an exchange for `request` whose waits run out at `timeout_at`.
    /// The exchange gets a fresh random identifier.
    pub fn request_timeout_at(timeout_at: Instant, request: RequestTx) -> (exchange:
        ViaductRequest<RequestTx>)
        ensures
            exchange@.stage == RequestStage::AcquireTable,
            exchange.spec_deadline() == Some(timeout_at),
            exchange@.deadlined,
            is_v4(exchange@.request_id),
            exchange.spec_request() == request,
    {
        ViaductRequest::new(request, new_v4(), Some(timeout_at))
    }

    /// Opens an exchange for `request` whose waits run out `timeout` from
    /// now. Where the clock cannot represent that instant, the exchange has
    /// no deadline.
    pub fn request_timeout(timeout: Duration, request: RequestTx) -> (exchange:
        ViaductRequest<RequestTx>)
        ensures
            exchange@.stage == RequestStage::AcquireTable,
            is_v4(exchange@.request_id),
            exchange.spec_request() == request,
    {
        ViaductRequest::new(request, new_v4(), instant_after(now(), timeout))
    }
}

/// The outcome of an exchange once the codec has read the payload of the
/// response: the response it read, or the decode fault.
pub fn response_of<Response, E>(decoded: Result<Response, E>) -> (out: Result<
    Option<Response>,
    ViaductError,
>)
    ensures
        match decoded {
            Ok(response) => out == Ok::<Option<Response>, ViaductError>(Some(response)),
            Err(_) => out == Err::<Option<Response>, ViaductError>(ViaductError::Decode),
        },
{
    match decoded {
        Ok(response) => Ok(Some(response)),
        Err(_) => Err(ViaductError::Decode),
    }
}

/// Reads the outcome of an exchange as a response of the type that the
/// requester expects. A fault stays the fault and a refusal stays a refusal;
/// a payload goes through the codec, which alone decides whether it is a
/// response of that type.
pub fn read_response<Response: ViaductDeserialize>(
    outcome: Result<Option<Vec<u8>>, ViaductError>,
) -> (out: Result<Option<Response>, ViaductError>)
    ensures
        match outcome {
            Err(error) => out == Err::<Option<Response>, ViaductError>(error),
            Ok(None) => out == Ok::<Option<Response>, ViaductError>(None),
            Ok(Some(_)) => out matches Ok(Some(_)) || out == Err::<
                Option<Response>,
                ViaductError,
            >(ViaductError::Decode),
        },
{
    match outcome {
        Err(error) => Err(error),
        Ok(None) => Ok(None),
        Ok(Some(payload)) => response_of(Response::from_pipeable(payload.as_slice())),
    }
}

/// A deadline that passes ends the exchange with `Timeout` and leaves no
/// trace: while the exchange waits for a lock, no frame is handed out; while
/// it waits for its response, nothing is taken from the slot and nobody is
/// woken, and the exchange just withdraws from the table.
pub proof fn lemma_deadline_passed(request: RequestView, table: ResponseTable)
    requires
        request.deadlined,
    ensures
        request.stage == RequestStage::AcquireTable || request.stage == RequestStage::AcquireWriter
            ==> request.advance(RequestEvent::TimedOut) == request.fails(ViaductError::Timeout),
        request.stage == RequestStage::Park && table.claim(request.request_id) is Pending ==> {
            &&& request.poll(table, Wake::TimedOut) == request.fails(ViaductError::Timeout)
            &&& request.polled(table, Wake::TimedOut) == table.withdraw(request.request_id)
            &&& request.polled(table, Wake::TimedOut).slot == table.slot
        },
        !(request.fails(ViaductError::Timeout).1 is Write),
        request.fails(ViaductError::Timeout).1 matches StepView::Finish { broadcast: false, .. },
{
}

/// An exchange without a deadline never ends with `Timeout`, whatever the
/// caller reports: a wait that ran out just goes on.
pub proof fn lemma_no_deadline_no_timeout(
    request: RequestView,
    event: RequestEvent,
    table: ResponseTable,
    wake: Wake,
)
    requires
        !request.deadlined,
    ensures
        !(request.advance(event).1 matches StepView::Finish {
            outcome: Err(ViaductError::Timeout),
            ..
        }),
        !(request.poll(table, wake).1 matches StepView::Finish {
            outcome: Err(ViaductError::Timeout),
            ..
        }),
        !request.advance(event).0.deadlined,
        !request.poll(table, wake).0.deadlined,
{
}

/// Two exchanges that wait at once do not take each other's response: when
/// a response comes in under the identifier of one of them, the other waits
/// on and leaves the table as it is, and the one it is for ends with exactly
/// the payload that came in, frees the slot and has the others woken.
pub proof fn lemma_response_goes_to_its_exchange(
    mine: RequestView,
    other: RequestView,
    table: ResponseTable,
    payload: Option<Seq<u8>>,
)
    requires
        mine.stage == RequestStage::Park,
        other.stage == RequestStage::Park,
        mine.request_id != other.request_id,
        table.fate(mine.request_id) == Deposit::Filed,
    ensures
        ({
            let filed = table.deposit(mine.request_id, payload);
            &&& other.poll(filed, Wake::Changed) == (other, StepView::Park)
            &&& other.polled(filed, Wake::Changed) == filed
            &&& forall|wake: Wake|
                !(#[trigger] other.poll(filed, wake).1 matches StepView::Finish {
                    outcome: Ok(_),
                    ..
                })
            &&& forall|wake: Wake| #[trigger]
                other.polled(filed, wake).slot == filed.slot
            &&& forall|wake: Wake| #[trigger]
                mine.poll(filed, wake).1 == (StepView::Finish {
                    outcome: Ok(payload),
                    broadcast: true,
                })
            &&& forall|wake: Wake| #[trigger]
                mine.polled(filed, wake) == table.withdraw(mine.request_id)
        }),
{
    let filed = table.deposit(mine.request_id, payload);
    assert forall|wake: Wake| #[trigger]
        mine.polled(filed, wake) == table.withdraw(mine.request_id) by {
        assert(filed.claimed(mine.request_id).withdraw(mine.request_id).waiting
            =~= table.withdraw(mine.request_id).waiting);
    }
}

/// A request that gave up does not block those that come after it: once it
/// has withdrawn, its late response is dropped, and the response to the next
/// request is filed and reaches that request.
pub proof fn lemma_exchange_after_timeout(
    late: RequestView,
    next: RequestView,
    table: ResponseTable,
    late_payload: Option<Seq<u8>>,
    payload: Option<Seq<u8>>,
)
    requires
        late.deadlined,
        late.stage == RequestStage::Park,
        next.stage == RequestStage::Park,
        late.request_id != next.request_id,
        table.slot is None,
        !table.broken,
        table.waiting.contains(next.request_id),
    ensures
        ({
            let after = late.polled(table, Wake::TimedOut);
            &&& late.poll(table, Wake::TimedOut) == late.fails(ViaductError::Timeout)
            &&& after.deposit(late.request_id, late_payload) == after
            &&& after.fate(next.request_id) == Deposit::Filed
            &&& next.poll(after.deposit(next.request_id, payload), Wake::Changed).1
                == (StepView::Finish { outcome: Ok(payload), broadcast: true })
        }),
{
}

/// When the pipe has failed, no exchange waits forever: an exchange that
/// learns of the failed write ends with `BrokenPipe` unless its response is
/// there, and on a table whose lane has ended every exchange that finds no
/// response of its own ends with `BrokenPipe`.
pub proof fn lemma_broken_pipe_ends_exchange(request: RequestView, table: ResponseTable, wake: Wake)
    requires
        request.stage == RequestStage::Park,
        !table.holds(request.request_id),
    ensures
        request.poll(table, Wake::Broken) == request.fails(ViaductError::BrokenPipe),
        request.poll(table.broke(), wake) == request.fails(ViaductError::BrokenPipe),
{
}

} // verus!
