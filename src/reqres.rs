//! The state machine of one request to the owner of a multiplexed channel.
//!
//! A request first waits to be accepted onto the owner's queue, then waits for
//! the owner's single-use reply. Each activation either yields, leaving the
//! request where it is, or completes it; a completed request is not activated
//! again.
use vstd::prelude::*;
use crate::mux::{
    ConnOp, MuxCore, MuxModel, OwnerStatus, PhysOutcome, Reply, Slot, SubmitEvent, cancel_model,
    lemma_fail_slots, service_model, submit_model,
};

verus! {

/// Where a pending request stands.
#[derive(Clone, Copy, Debug, PartialEq, Eq, Structural)]
pub enum ReqRes {
    /// Not yet accepted onto the owner's queue.
    WaitSend,
    /// Queued; waiting for the reply in this slot.
    WaitRecv(usize),
    /// Completed; never activated again.
    Finished,
}

/// Why a request completed without an answer.
#[derive(Clone, Copy, Debug, PartialEq, Eq, Structural)]
pub enum RequestError {
    /// The queue refused the request for good: the owner is gone.
    Rejected,
    /// The owner answered with failure.
    Failed,
    /// The reply slot was released without a value.
    Abandoned,
}

/// The result of one activation.
#[derive(Debug, PartialEq, Eq, Structural)]
pub enum Progress<T> {
    /// Not ready; activate again later.
    Pending,
    /// Completed with this value.
    Ready(T),
}

/// The state after a submission attempt.
pub open spec fn submit_step(ev: SubmitEvent) -> ReqRes {
    match ev {
        SubmitEvent::Full => ReqRes::WaitSend,
        SubmitEvent::Accepted(slot) => ReqRes::WaitRecv(slot),
        SubmitEvent::Rejected => ReqRes::Finished,
    }
}

/// The state and result after looking into reply slot `slot`, which holds `s`.
pub open spec fn reply_step(slot: usize, s: Slot) -> (ReqRes, Progress<Result<Reply, RequestError>>) {
    match s {
        Slot::Waiting => (ReqRes::WaitRecv(slot), Progress::Pending),
        Slot::Filled(Reply::Failed) => (ReqRes::Finished, Progress::Ready(Err(RequestError::Failed))),
        Slot::Filled(r) => (ReqRes::Finished, Progress::Ready(Ok(r))),
        Slot::Dropped => (ReqRes::Finished, Progress::Ready(Err(RequestError::Abandoned))),
    }
}

/// What slot `slot` of the owner holds; one never handed out reads as dropped.
pub open spec fn slot_of(m: MuxModel, slot: usize) -> Slot {
    if slot < m.slots.len() {
        m.slots[slot as int]
    } else {
        Slot::Dropped
    }
}

/// One activation of a request for `op` in state `st` against the owner `m`:
/// the next state, the owner afterwards, and the result. A request that the
/// queue accepts looks for its reply in the same activation.
pub open spec fn poll_model(st: ReqRes, op: ConnOp, target: u64, m: MuxModel) -> (
    ReqRes,
    MuxModel,
    Progress<Result<Reply, RequestError>>,
) {
    match st {
        ReqRes::WaitSend => {
            let (m1, ev) = submit_model(m, op, target);
            match ev {
                SubmitEvent::Full => (ReqRes::WaitSend, m1, Progress::Pending),
                SubmitEvent::Rejected => (
                    ReqRes::Finished,
                    m1,
                    Progress::Ready(Err(RequestError::Rejected)),
                ),
                SubmitEvent::Accepted(slot) => {
                    let (st2, p) = reply_step(slot, slot_of(m1, slot));
                    (st2, m1, p)
                },
            }
        },
        ReqRes::WaitRecv(slot) => {
            let (st2, p) = reply_step(slot, slot_of(m, slot));
            (st2, m, p)
        },
        ReqRes::Finished => (ReqRes::Finished, m, Progress::Pending),
    }
}

impl ReqRes {
    /// The state after a submission attempt that found `ev`.
    pub fn after_submit(ev: SubmitEvent) -> (r: ReqRes)
        ensures
            r == submit_step(ev),
    {
        match ev {
            SubmitEvent::Full => ReqRes::WaitSend,
            SubmitEvent::Accepted(slot) => ReqRes::WaitRecv(slot),
            SubmitEvent::Rejected => ReqRes::Finished,
        }
    }

    /// The state and result after finding `s` in reply slot `slot`.
    pub fn after_reply(slot: usize, s: Slot) -> (r: (ReqRes, Progress<Result<Reply, RequestError>>))
        ensures
            r == reply_step(slot, s),
    {
        match s {
            Slot::Waiting => (ReqRes::WaitRecv(slot), Progress::Pending),
            Slot::Filled(Reply::Failed) => (ReqRes::Finished, Progress::Ready(Err(RequestError::Failed))),
            Slot::Filled(r) => (ReqRes::Finished, Progress::Ready(Ok(r))),
            Slot::Dropped => (ReqRes::Finished, Progress::Ready(Err(RequestError::Abandoned))),
        }
    }
}

/// One request to the owner, created fresh for each call and consumed once.
pub struct PendingRequest {
    pub op: ConnOp,
    pub target: u64,
    pub state: ReqRes,
}

impl PendingRequest {
    /// A request for `op`, not yet submitted.
    pub fn new(op: ConnOp, target: u64) -> (r: PendingRequest)
        ensures
            r.op == op,
            r.target == target,
            r.state == ReqRes::WaitSend,
    {
        PendingRequest { op, target, state: ReqRes::WaitSend }
    }

    /// Activates the request once against the owner `core`.
    pub fn poll(&mut self, core: &mut MuxCore) -> (r: Progress<Result<Reply, RequestError>>)
        requires
            old(core).wf(),
            old(self).state != ReqRes::Finished,
        ensures
            final(core).wf(),
            final(self).op == old(self).op,
            final(self).target == old(self).target,
            (final(self).state, final(core)@, r) == poll_model(
                old(self).state,
                old(self).op,
                old(self).target,
                old(core)@,
            ),
    {
        match self.state {
            ReqRes::WaitSend => {
                let ev = core.submit(self.op, self.target);
                self.state = ReqRes::after_submit(ev);
                match ev {
                    SubmitEvent::Full => Progress::Pending,
                    SubmitEvent::Rejected => Progress::Ready(Err(RequestError::Rejected)),
                    SubmitEvent::Accepted(slot) => {
                        let (st, p) = ReqRes::after_reply(slot, core.reply(slot));
                        self.state = st;
                        p
                    },
                }
            },
            ReqRes::WaitRecv(slot) => {
                let (st, p) = ReqRes::after_reply(slot, core.reply(slot));
                self.state = st;
                p
            },
            ReqRes::Finished => Progress::Pending,
        }
    }

    /// Drops the request. A queued request releases its reply slot, and the
    /// owner discards what it later writes there.
    pub fn cancel(self, core: &mut MuxCore)
        requires
            old(core).wf(),
        ensures
            final(core).wf(),
            final(core)@ == (match self.state {
                ReqRes::WaitRecv(slot) => cancel_model(old(core)@, slot),
                _ => old(core)@,
            }),
    {
        match self.state {
            ReqRes::WaitRecv(slot) => core.cancel(slot),
            _ => {},
        }
    }
}

/// Dropping one request does not change how any other request completes:
/// a request waiting on slot `b` gets the same result, and the same next
/// state, whether or not the request holding slot `a` was dropped.
pub proof fn lemma_cancel_keeps_other_results(
    m: MuxModel,
    a: usize,
    b: usize,
    op: ConnOp,
    target: u64,
)
    requires
        a != b,
    ensures
        ({
            let (st1, _, with_drop) = poll_model(ReqRes::WaitRecv(b), op, target, cancel_model(m, a));
            let (st2, _, without) = poll_model(ReqRes::WaitRecv(b), op, target, m);
            st1 == st2 && with_drop == without
        }),
{
}

/// After a fatal error, a request that was waiting for its reply completes
/// with an error at its very next activation, and a request not yet queued
/// is refused at its next activation.
pub proof fn lemma_fatal_completes_pending(m: MuxModel, slot: usize, op: ConnOp, target: u64)
    requires
        m.status == OwnerStatus::Running,
        m.queue.len() > 0,
        slot < m.slots.len(),
        m.slots[slot as int] == Slot::Waiting,
    ensures
        ({
            let m2 = service_model(m, PhysOutcome::Fatal);
            &&& poll_model(ReqRes::WaitRecv(slot), op, target, m2).2 == Progress::<
                Result<Reply, RequestError>,
            >::Ready(Err(RequestError::Failed))
            &&& poll_model(ReqRes::WaitSend, op, target, m2).2 == Progress::<
                Result<Reply, RequestError>,
            >::Ready(Err(RequestError::Rejected))
        }),
{
    lemma_fail_slots(m.slots);
}

} // verus!
