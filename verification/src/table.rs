//! The response table: the one slot through which the inbound lane hands a
//! response to the request that waits for it.
//!
//! A request enrolls its identifier before its frame goes out and withdraws it
//! when it ends. The inbound lane deposits a response only for an enrolled
//! identifier and only into a free slot; a response that nobody waits for,
//! such as the late answer to a request that timed out, is dropped. A waiting
//! request claims the slot only when the response is filed under its own
//! identifier, and frees the slot by claiming. The caller guards the table by
//! a lock and announces every change to all who wait.

use vstd::prelude::*;

verus! {

/// What the response table holds.
pub struct ResponseTable {
    /// The identifiers of the requests that wait for a response.
    pub waiting: Set<u128>,
    /// The response that waits to be claimed: the identifier of its request,
    /// and its payload, which is `None` where the responder declined.
    pub slot: Option<(u128, Option<Seq<u8>>)>,
    /// Whether the inbound lane has ended, so that no response will come.
    pub broken: bool,
}

/// What a request finds when it looks into the table.
pub enum ClaimView {
    /// The peer answered with this payload.
    Answered(Seq<u8>),
    /// The peer declined to answer.
    Declined,
    /// The response has not arrived yet.
    Pending,
    /// The response will never arrive.
    Broken,
}

impl ResponseTable {
    /// The table of a new channel.
    pub open spec fn vacant() -> ResponseTable {
        ResponseTable { waiting: Set::empty(), slot: None, broken: false }
    }

    /// Whether somebody will claim a response to the given request.
    pub open spec fn wanted(self, request_id: u128) -> bool {
        self.waiting.contains(request_id) && !self.broken
    }

    /// What becomes of a response to the given request.
    pub open spec fn fate(self, request_id: u128) -> Deposit {
        if !self.wanted(request_id) {
            Deposit::Dropped
        } else if self.slot is Some {
            Deposit::Blocked
        } else {
            Deposit::Filed
        }
    }

    /// The table after a request has enrolled its identifier.
    pub open spec fn enroll(self, request_id: u128) -> ResponseTable {
        ResponseTable { waiting: self.waiting.insert(request_id), ..self }
    }

    /// The table after a request has withdrawn its identifier.
    pub open spec fn withdraw(self, request_id: u128) -> ResponseTable {
        ResponseTable { waiting: self.waiting.remove(request_id), ..self }
    }

    /// Whether the slot holds the response to the given request.
    pub open spec fn holds(self, request_id: u128) -> bool {
        self.slot matches Some((id, _)) && id == request_id
    }

    /// The table after a deposit: unchanged unless the response was filed.
    pub open spec fn deposit(self, request_id: u128, payload: Option<Seq<u8>>) -> ResponseTable {
        if self.fate(request_id) == Deposit::Filed {
            ResponseTable { slot: Some((request_id, payload)), ..self }
        } else {
            self
        }
    }

    /// What the request with the given identifier finds.
    pub open spec fn claim(self, request_id: u128) -> ClaimView {
        match self.slot {
            Some((id, Some(payload))) if id == request_id => ClaimView::Answered(payload),
            Some((id, None)) if id == request_id => ClaimView::Declined,
            _ => if self.broken {
                ClaimView::Broken
            } else {
                ClaimView::Pending
            },
        }
    }

    /// The table after the request with the given identifier has looked into
    /// it: where the slot held that request's response, the slot is free and
    /// the request waits no more; where it did not, nothing has changed.
    pub open spec fn claimed(self, request_id: u128) -> ResponseTable {
        if self.holds(request_id) {
            ResponseTable { waiting: self.waiting.remove(request_id), slot: None, ..self }
        } else {
            self
        }
    }

    /// The table after the inbound lane has ended.
    pub open spec fn broke(self) -> ResponseTable {
        ResponseTable { broken: true, ..self }
    }
}

/// What became of a response that the inbound lane brought.
#[derive(Clone, Copy, Debug, PartialEq, Eq, Structural)]
pub enum Deposit {
    /// It waits in the slot for its request.
    Filed,
    /// The slot is taken: it has to be brought again once the slot is free.
    Blocked,
    /// Nobody waits for it: it is gone.
    Dropped,
}

/// What a request found when it looked into the table.
#[derive(Debug)]
pub enum Claim {
    /// The peer answered with this payload.
    Answered(Vec<u8>),
    /// The peer declined to answer.
    Declined,
    /// The response has not arrived yet.
    Pending,
    /// The response will never arrive.
    Broken,
}

impl View for Claim {
    type V = ClaimView;

    open spec fn view(&self) -> ClaimView {
        match *self {
            Claim::Answered(payload) => ClaimView::Answered(payload@),
            Claim::Declined => ClaimView::Declined,
            Claim::Pending => ClaimView::Pending,
            Claim::Broken => ClaimView::Broken,
        }
    }
}

/// The response table of one endpoint.
#[derive(Debug)]
pub struct ViaductResponseState {
    waiting: Vec<u128>,
    for_request_id: Option<(u128, bool)>,
    buf: Vec<u8>,
    broken: bool,
}

impl View for ViaductResponseState {
    type V = ResponseTable;

    closed spec fn view(&self) -> ResponseTable {
        ResponseTable {
            waiting: Set::new(|request_id: u128| self.waiting@.contains(request_id)),
            slot: match self.for_request_id {
                Some((request_id, true)) => Some((request_id, Some(self.buf@))),
                Some((request_id, false)) => Some((request_id, None)),
                None => None,
            },
            broken: self.broken,
        }
    }
}

impl ViaductResponseState {
    /// The table of a new channel: the slot is free.
    pub fn new() -> (table: ViaductResponseState)
        ensures
            table@ == ResponseTable::vacant(),
    {
        let table = ViaductResponseState {
            waiting: Vec::new(),
            for_request_id: None,
            buf: Vec::new(),
            broken: false,
        };
        assert(table@.waiting =~= Set::empty());
        table
    }

    /// The identifier of the request whose response waits in the slot.
    pub fn request_id(&self) -> (request_id: Option<u128>)
        ensures
            request_id == match self@.slot {
                Some((id, _)) => Some(id),
                None => None,
            },
    {
        match self.for_request_id {
            Some((request_id, _)) => Some(request_id),
            None => None,
        }
    }

    /// Whether the request with the given identifier is enrolled.
    pub fn is_waiting(&self, request_id: u128) -> (waiting: bool)
        ensures
            waiting == self@.waiting.contains(request_id),
    {
        let mut i: usize = 0;
        while i < self.waiting.len()
            invariant
                i <= self.waiting@.len(),
                forall|k: int| 0 <= k < i ==> self.waiting@[k] != request_id,
            decreases self.waiting@.len() - i,
        {
            if self.waiting[i] == request_id {
                return true;
            }
            i = i + 1;
        }
        false
    }

    /// What would become of a response to the given request if it came now.
    pub fn fate(&self, request_id: u128) -> (fate: Deposit)
        ensures
            fate == self@.fate(request_id),
    {
        if self.broken || !self.is_waiting(request_id) {
            Deposit::Dropped
        } else if self.for_request_id.is_some() {
            Deposit::Blocked
        } else {
            Deposit::Filed
        }
    }

    /// Enrolls a request: from now on a response under its identifier is
    /// kept for it.
    pub fn enroll(&mut self, request_id: u128)
        ensures
            final(self)@ == old(self)@.enroll(request_id),
    {
        self.waiting.push(request_id);
        proof {
            let before = old(self).waiting@;
            let after = self.waiting@;
            assert(after[before.len() as int] == request_id);
            assert forall|id: u128| after.contains(id) <==> before.contains(id) || id
                == request_id by {
                if before.contains(id) {
                    let k = choose|k: int| 0 <= k < before.len() && before[k] == id;
                    assert(after[k] == id);
                }
                if after.contains(id) && id != request_id {
                    let k = choose|k: int| 0 <= k < after.len() && after[k] == id;
                    assert(before[k] == id);
                }
            }
            assert(self@.waiting =~= old(self)@.waiting.insert(request_id));
        }
    }

    /// Withdraws a request: a response under its identifier that comes from
    /// now on is dropped. A response that already waits in the slot stays
    /// there.
    pub fn withdraw(&mut self, request_id: u128)
        ensures
            final(self)@ == old(self)@.withdraw(request_id),
    {
        let mut kept: Vec<u128> = Vec::new();
        let mut i: usize = 0;
        while i < self.waiting.len()
            invariant
                i <= self.waiting@.len(),
                forall|k: int| 0 <= k < kept@.len() ==> kept@[k] != request_id
                    && self.waiting@.contains(#[trigger] kept@[k]),
                forall|k: int|
                    0 <= k < i && self.waiting@[k] != request_id ==> kept@.contains(
                        #[trigger] self.waiting@[k],
                    ),
            decreases self.waiting@.len() - i,
        {
            let id = self.waiting[i];
            if id != request_id {
                let ghost before = kept@;
                kept.push(id);
                proof {
                    assert(kept@[before.len() as int] == id);
                    assert forall|k: int|
                        0 <= k < i + 1 && self.waiting@[k] != request_id implies kept@.contains(
                        #[trigger] self.waiting@[k],
                    ) by {
                        if k < i {
                            let at = choose|at: int|
                                0 <= at < before.len() && before[at] == self.waiting@[k];
                            assert(kept@[at] == self.waiting@[k]);
                        }
                    }
                }
            }
            i = i + 1;
        }
        proof {
            let before = self.waiting@;
            assert forall|id: u128| kept@.contains(id) <==> before.contains(id) && id
                != request_id by {
                if before.contains(id) && id != request_id {
                    let k = choose|k: int| 0 <= k < before.len() && before[k] == id;
                    assert(kept@.contains(before[k]));
                }
            }
        }
        self.waiting = kept;
        assert(self@.waiting =~= old(self)@.waiting.remove(request_id));
    }

    /// Whether the inbound lane has ended.
    pub fn is_broken(&self) -> (broken: bool)
        ensures
            broken == self@.broken,
    {
        self.broken
    }

    /// Brings a response under the identifier of its request; `payload` is
    /// `None` where the responder declined. The response is filed where its
    /// request waits for it and the slot is free; otherwise the table stays
    /// as it is.
    pub fn deposit(&mut self, request_id: u128, payload: Option<&[u8]>) -> (fate: Deposit)
        ensures
            fate == old(self)@.fate(request_id),
            final(self)@ == old(self)@.deposit(
                request_id,
                match payload {
                    Some(bytes) => Some(bytes@),
                    None => None,
                },
            ),
    {
        let fate = self.fate(request_id);
        if fate != Deposit::Filed {
            return fate;
        }
        self.buf.clear();
        match payload {
            Some(bytes) => {
                self.buf.extend_from_slice(bytes);
                assert(self.buf@ =~= bytes@);
                self.for_request_id = Some((request_id, true));
            },
            None => {
                self.for_request_id = Some((request_id, false));
            },
        }
        Deposit::Filed
    }

    /// Whether the request with the given identifier has to go on waiting:
    /// its response is not in the slot, and the lane has not ended.
    pub fn awaits(&self, request_id: u128) -> (awaits: bool)
        ensures
            awaits == (self@.claim(request_id) is Pending),
    {
        match self.for_request_id {
            Some((id, _)) => id != request_id && !self.broken,
            None => !self.broken,
        }
    }

    /// Looks into the table for the request with the given identifier. Where
    /// the slot holds its response, the response is handed over and the slot
    /// is free again; otherwise the table stays as it is.
    pub fn claim(&mut self, request_id: u128) -> (claim: Claim)
        ensures
            claim@ == old(self)@.claim(request_id),
            final(self)@ == old(self)@.claimed(request_id),
    {
        match self.for_request_id {
            Some((id, some)) => {
                if id == request_id {
                    self.withdraw(request_id);
                    self.for_request_id = None;
                    if some {
                        let mut payload: Vec<u8> = Vec::new();
                        core::mem::swap(&mut payload, &mut self.buf);
                        Claim::Answered(payload)
                    } else {
                        Claim::Declined
                    }
                } else if self.broken {
                    Claim::Broken
                } else {
                    Claim::Pending
                }
            },
            None => {
                if self.broken {
                    Claim::Broken
                } else {
                    Claim::Pending
                }
            },
        }
    }

    /// Records that the inbound lane has ended. A response that already waits
    /// in the slot stays there.
    pub fn break_pipe(&mut self)
        ensures
            final(self)@ == old(self)@.broke(),
    {
        self.broken = true;
    }
}

/// A response reaches the request it answers and no other: while it waits in
/// the slot, a request with another identifier finds nothing of it and leaves
/// the table as it is, and the request with its identifier receives exactly
/// what was brought, frees the slot and waits no more.
pub proof fn lemma_response_reaches_its_request(
    table: ResponseTable,
    request_id: u128,
    payload: Option<Seq<u8>>,
    other: u128,
)
    requires
        table.fate(request_id) == Deposit::Filed,
        other != request_id,
    ensures
        table.deposit(request_id, payload).claim(other) is Pending,
        table.deposit(request_id, payload).claimed(other) == table.deposit(request_id, payload),
        table.deposit(request_id, payload).claim(request_id) == match payload {
            Some(bytes) => ClaimView::Answered(bytes),
            None => ClaimView::Declined,
        },
        table.deposit(request_id, payload).claimed(request_id) == table.withdraw(request_id),
{
}

/// The slot holds one response at a time: until it is claimed, no other
/// response is filed, so none is overwritten.
pub proof fn lemma_deposit_keeps_unclaimed_response(
    table: ResponseTable,
    request_id: u128,
    payload: Option<Seq<u8>>,
    next_id: u128,
    next_payload: Option<Seq<u8>>,
)
    requires
        table.fate(request_id) == Deposit::Filed,
    ensures
        table.deposit(request_id, payload).fate(next_id) != Deposit::Filed,
        table.deposit(request_id, payload).deposit(next_id, next_payload) == table.deposit(
            request_id,
            payload,
        ),
{
}

/// A response that nobody waits for is dropped and leaves the table as it
/// is: the late answer to a request that has withdrawn does not take the slot
/// from the requests that still wait.
pub proof fn lemma_late_response_is_dropped(
    table: ResponseTable,
    request_id: u128,
    payload: Option<Seq<u8>>,
)
    ensures
        table.withdraw(request_id).fate(request_id) == Deposit::Dropped,
        table.withdraw(request_id).deposit(request_id, payload) == table.withdraw(request_id),
{
}

/// Once the inbound lane has ended, every request whose response is not in
/// the slot finds the table broken, and the table takes no further response.
pub proof fn lemma_broken_table_releases_waiters(table: ResponseTable, request_id: u128)
    requires
        !table.holds(request_id),
    ensures
        table.broke().claim(request_id) is Broken,
        table.broke().claimed(request_id) == table.broke(),
        forall|id: u128| table.broke().fate(id) == Deposit::Dropped,
{
}

} // verus!
