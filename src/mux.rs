//! The owner of a multiplexed channel.
//!
//! Only the owner touches the physical channel. Callers submit requests on a
//! bounded queue; the owner services them in arrival order and writes each
//! answer once into the reply slot that was paired with the request.
use vstd::prelude::*;
use crate::Direction;
use crate::errors::{ReadError, WriteError};

verus! {

/// An operation a caller may request of the owner.
#[derive(Clone, Copy, Debug, PartialEq, Eq, Structural)]
pub enum ConnOp {
    AcceptStream,
    OpenStream,
    CloseStream,
    CloseWriteStream,
    CloseReadStream,
}

/// A queued request: the operation, the stream it targets (for the close
/// operations) and the index of its reply slot.
#[derive(Clone, Copy, Debug, PartialEq, Eq, Structural)]
pub struct Request {
    pub op: ConnOp,
    pub target: u64,
    pub slot: usize,
}

/// The answer the owner writes into a reply slot.
#[derive(Clone, Copy, Debug, PartialEq, Eq, Structural)]
pub enum Reply {
    /// A logical stream was opened or accepted.
    Stream(u64),
    /// A close operation completed.
    Done,
    /// The operation failed, or the owner is gone.
    Failed,
}

/// A single-use reply slot.
#[derive(Clone, Copy, Debug, PartialEq, Eq, Structural)]
pub enum Slot {
    /// The request has not been answered yet.
    Waiting,
    /// The answer, written once.
    Filled(Reply),
    /// The caller gave up on the request; any answer is discarded.
    Dropped,
}

/// The lifecycle of the owner.
#[derive(Clone, Copy, Debug, PartialEq, Eq, Structural)]
pub enum OwnerStatus {
    Running,
    Failed,
    Closed,
}

/// How the physical part of a serviced request went.
#[derive(Clone, Copy, Debug, PartialEq, Eq, Structural)]
pub enum PhysOutcome {
    Done,
    Failed,
    Fatal,
}

/// What a submission attempt found.
#[derive(Clone, Copy, Debug, PartialEq, Eq, Structural)]
pub enum SubmitEvent {
    /// The queue is at capacity; try again later.
    Full,
    /// The request was queued with this reply slot.
    Accepted(usize),
    /// The owner is gone; the request can never be queued.
    Rejected,
}

/// What closing the channel found.
#[derive(Clone, Copy, Debug, PartialEq, Eq, Structural)]
pub enum CloseOutcome {
    Closed,
    AlreadyClosed,
}

/// A live logical stream: who opened it, when (on the owner's clock), and
/// which halves of it are still open.
#[derive(Clone, Copy, Debug, PartialEq, Eq, Structural)]
pub struct StreamRec {
    pub id: u64,
    pub direction: Direction,
    pub opened: i64,
    pub readable: bool,
    pub writable: bool,
}

/// The abstract state of the owner.
pub struct MuxModel {
    pub queue: Seq<Request>,
    pub capacity: nat,
    pub slots: Seq<Slot>,
    pub acceptors: Seq<usize>,
    pub inbound: Seq<u64>,
    pub live: Seq<StreamRec>,
    /// The bytes received for each live stream and not yet read, in the
    /// order of `live`.
    pub inbox: Seq<Seq<u8>>,
    /// The frames to put on the physical channel, oldest first.
    pub outbox: Seq<(u64, Seq<u8>)>,
    pub next_stream: nat,
    pub clock: i64,
    pub status: OwnerStatus,
}

/// Writes `r` into slot `i` if it is still waiting; a dropped or filled slot
/// keeps what it holds.
pub open spec fn fill(slots: Seq<Slot>, i: int, r: Reply) -> Seq<Slot> {
    if 0 <= i < slots.len() && slots[i] == Slot::Waiting {
        slots.update(i, Slot::Filled(r))
    } else {
        slots
    }
}

/// A waiting slot answered with failure; other slots as they are.
pub open spec fn fail_slot(s: Slot) -> Slot {
    if s == Slot::Waiting {
        Slot::Filled(Reply::Failed)
    } else {
        s
    }
}

pub open spec fn fail_slots(slots: Seq<Slot>) -> Seq<Slot> {
    Seq::new(slots.len(), |i: int| fail_slot(slots[i]))
}

/// The record of a stream after a close operation on it.
pub open spec fn close_rec(r: StreamRec, op: ConnOp) -> StreamRec {
    match op {
        ConnOp::CloseStream => StreamRec { readable: false, writable: false, ..r },
        ConnOp::CloseWriteStream => StreamRec { writable: false, ..r },
        ConnOp::CloseReadStream => StreamRec { readable: false, ..r },
        _ => r,
    }
}

pub open spec fn close_live(live: Seq<StreamRec>, target: u64, op: ConnOp) -> Seq<StreamRec> {
    Seq::new(
        live.len(),
        |i: int| if live[i].id == target { close_rec(live[i], op) } else { live[i] },
    )
}

pub open spec fn is_live(live: Seq<StreamRec>, id: u64) -> bool {
    exists|i: int| 0 <= i < live.len() && live[i].id == id
}

/// The model of a freshly started owner.
pub open spec fn start_model(capacity: nat) -> MuxModel {
    MuxModel {
        queue: Seq::empty(),
        capacity,
        slots: Seq::empty(),
        acceptors: Seq::empty(),
        inbound: Seq::empty(),
        live: Seq::empty(),
        inbox: Seq::empty(),
        outbox: Seq::empty(),
        next_stream: 0,
        clock: 0,
        status: OwnerStatus::Running,
    }
}

/// A caller tries to queue `op`. A full queue, or one with no reply slot
/// left to hand out, asks the caller to try again later.
pub open spec fn submit_model(m: MuxModel, op: ConnOp, target: u64) -> (MuxModel, SubmitEvent) {
    if m.status != OwnerStatus::Running {
        (m, SubmitEvent::Rejected)
    } else if m.queue.len() >= m.capacity || m.slots.len() >= usize::MAX {
        (m, SubmitEvent::Full)
    } else {
        let slot = m.slots.len() as usize;
        (
            MuxModel {
                queue: m.queue.push(Request { op, target, slot }),
                slots: m.slots.push(Slot::Waiting),
                ..m
            },
            SubmitEvent::Accepted(slot),
        )
    }
}

/// The owner fails: every waiting slot is answered with failure, the queue is
/// drained, live streams are gone, and no request is accepted again.
pub open spec fn fail_model(m: MuxModel, status: OwnerStatus) -> MuxModel {
    MuxModel {
        queue: Seq::empty(),
        slots: fail_slots(m.slots),
        acceptors: Seq::empty(),
        inbound: Seq::empty(),
        live: Seq::empty(),
        inbox: Seq::empty(),
        outbox: Seq::empty(),
        status,
        ..m
    }
}

/// The owner services the oldest queued request, whose physical part went as
/// `o`. With nothing queued, or with the owner gone, nothing changes.
pub open spec fn service_model(m: MuxModel, o: PhysOutcome) -> MuxModel {
    if m.status != OwnerStatus::Running || m.queue.len() == 0 {
        m
    } else if o == PhysOutcome::Fatal {
        fail_model(m, OwnerStatus::Failed)
    } else {
        let req = m.queue[0];
        let rest = MuxModel { queue: m.queue.drop_first(), ..m };
        match req.op {
            ConnOp::OpenStream => {
                if o == PhysOutcome::Done && m.next_stream < u64::MAX {
                    let id = m.next_stream as u64;
                    MuxModel {
                        slots: fill(m.slots, req.slot as int, Reply::Stream(id)),
                        live: m.live.push(
                            StreamRec {
                                id,
                                direction: Direction::OUT,
                                opened: m.clock,
                                readable: true,
                                writable: true,
                            },
                        ),
                        inbox: m.inbox.push(Seq::empty()),
                        next_stream: m.next_stream + 1,
                        ..rest
                    }
                } else {
                    MuxModel { slots: fill(m.slots, req.slot as int, Reply::Failed), ..rest }
                }
            },
            ConnOp::AcceptStream => {
                if m.inbound.len() > 0 {
                    MuxModel {
                        slots: fill(m.slots, req.slot as int, Reply::Stream(m.inbound[0])),
                        inbound: m.inbound.drop_first(),
                        ..rest
                    }
                } else {
                    MuxModel { acceptors: m.acceptors.push(req.slot), ..rest }
                }
            },
            _ => {
                let r = if o == PhysOutcome::Done && is_live(m.live, req.target) {
                    Reply::Done
                } else {
                    Reply::Failed
                };
                MuxModel {
                    slots: fill(m.slots, req.slot as int, r),
                    live: close_live(m.live, req.target, req.op),
                    ..rest
                }
            },
        }
    }
}

/// The remote peer opens a stream: it goes to the oldest waiting accept, or
/// waits in arrival order for one.
pub open spec fn remote_open_model(m: MuxModel) -> MuxModel {
    if m.status != OwnerStatus::Running || m.next_stream >= u64::MAX {
        m
    } else {
        let id = m.next_stream as u64;
        let m1 = MuxModel {
            live: m.live.push(
                StreamRec {
                    id,
                    direction: Direction::IN,
                    opened: m.clock,
                    readable: true,
                    writable: true,
                },
            ),
            inbox: m.inbox.push(Seq::empty()),
            next_stream: m.next_stream + 1,
            ..m
        };
        if m.acceptors.len() > 0 {
            MuxModel {
                slots: fill(m.slots, m.acceptors[0] as int, Reply::Stream(id)),
                acceptors: m.acceptors.drop_first(),
                ..m1
            }
        } else {
            MuxModel { inbound: m.inbound.push(id), ..m1 }
        }
    }
}

/// Closing the channel. The first close fails every waiting request; any
/// later one changes nothing.
pub open spec fn close_model(m: MuxModel) -> (MuxModel, CloseOutcome) {
    if m.status == OwnerStatus::Running {
        (fail_model(m, OwnerStatus::Closed), CloseOutcome::Closed)
    } else {
        (MuxModel { status: OwnerStatus::Closed, ..m }, CloseOutcome::AlreadyClosed)
    }
}

/// A caller drops its pending request: the slot is released and whatever the
/// owner later writes there is discarded.
pub open spec fn cancel_model(m: MuxModel, slot: usize) -> MuxModel {
    if slot < m.slots.len() {
        MuxModel { slots: m.slots.update(slot as int, Slot::Dropped), ..m }
    } else {
        m
    }
}

/// The stream id held by a slot, if it holds one.
pub open spec fn slot_stream(s: Slot) -> Option<u64> {
    match s {
        Slot::Filled(Reply::Stream(id)) => Some(id),
        _ => None,
    }
}

/// Well-formedness: the queue respects its bound, requests and pending
/// accepts name existing slots, an owner that stopped leaves no slot
/// waiting, and every stream id handed out or waiting to be accepted is below
/// the counter and used once.
pub open spec fn wf_model(m: MuxModel) -> bool {
    &&& m.capacity > 0
    &&& m.queue.len() <= m.capacity
    &&& m.next_stream <= u64::MAX
    &&& m.slots.len() <= usize::MAX
    &&& m.inbox.len() == m.live.len()
    &&& (m.status != OwnerStatus::Running ==> forall|i: int|
        0 <= i < m.slots.len() ==> m.slots[i] != Slot::Waiting)
    &&& (forall|i: int| 0 <= i < m.queue.len() ==> (m.queue[i].slot as int) < m.slots.len())
    &&& (forall|i: int, j: int|
        0 <= i < m.queue.len() && 0 <= j < m.queue.len() && i != j ==> m.queue[i].slot
            != m.queue[j].slot)
    &&& (forall|i: int| 0 <= i < m.acceptors.len() ==> (m.acceptors[i] as int) < m.slots.len())
    &&& (forall|i: int|
        #![trigger slot_stream(m.slots[i])]
        0 <= i < m.slots.len() && slot_stream(m.slots[i]).is_some() ==> slot_stream(
            m.slots[i],
        ).unwrap() < m.next_stream)
    &&& (forall|i: int| 0 <= i < m.inbound.len() ==> m.inbound[i] < m.next_stream)
    &&& (forall|i: int, j: int|
        #![trigger slot_stream(m.slots[i]), slot_stream(m.slots[j])]
        0 <= i < m.slots.len() && 0 <= j < m.slots.len() && i != j && slot_stream(
            m.slots[i],
        ).is_some() ==> slot_stream(m.slots[i]) != slot_stream(m.slots[j]))
    &&& (forall|i: int, j: int|
        0 <= i < m.inbound.len() && 0 <= j < m.inbound.len() && i != j ==> m.inbound[i]
            != m.inbound[j])
    &&& (forall|i: int, j: int|
        #![trigger m.inbound[i], slot_stream(m.slots[j])]
        0 <= i < m.inbound.len() && 0 <= j < m.slots.len() ==> slot_stream(m.slots[j]) != Some(
            m.inbound[i],
        ))
}

/// Filling a slot with the next fresh stream id keeps stream ids distinct.
proof fn lemma_fill_fresh(m: MuxModel, i: int, id: u64)
    requires
        wf_model(m),
        id as nat == m.next_stream,
    ensures
        ({
            let s = fill(m.slots, i, Reply::Stream(id));
            &&& s.len() == m.slots.len()
            &&& forall|k: int|
                #![trigger slot_stream(s[k])]
                0 <= k < s.len() && slot_stream(s[k]).is_some() ==> slot_stream(s[k]).unwrap()
                    <= id
            &&& forall|k: int, j: int|
                #![trigger slot_stream(s[k]), slot_stream(s[j])]
                0 <= k < s.len() && 0 <= j < s.len() && k != j && slot_stream(s[k]).is_some()
                    ==> slot_stream(s[k]) != slot_stream(s[j])
        }),
{
}

/// Filling a slot with an answer that is not a stream adds no stream id:
/// every slot keeps its stream id or holds none.
proof fn lemma_fill_other(m: MuxModel, i: int, r: Reply)
    requires
        wf_model(m),
        r matches Reply::Stream(_) ==> false,
    ensures
        ({
            let s = fill(m.slots, i, r);
            &&& s.len() == m.slots.len()
            &&& forall|k: int|
                #![trigger s[k]]
                0 <= k < s.len() ==> slot_stream(s[k]) == slot_stream(m.slots[k]) || slot_stream(
                    s[k],
                ).is_none()
        }),
{
}

/// Failing the slots answers each waiting one with failure and keeps every
/// stream id where it was.
pub proof fn lemma_fail_slots(slots: Seq<Slot>)
    ensures
        fail_slots(slots).len() == slots.len(),
        forall|k: int|
            #![trigger fail_slots(slots)[k]]
            0 <= k < slots.len() ==> slot_stream(fail_slots(slots)[k]) == slot_stream(slots[k])
                && fail_slots(slots)[k] == fail_slot(slots[k]),
{
}

/// A submission keeps the model well formed.
pub proof fn lemma_submit_wf(m: MuxModel, op: ConnOp, target: u64)
    requires
        wf_model(m),
    ensures
        wf_model(submit_model(m, op, target).0),
{
    let m2 = submit_model(m, op, target).0;
    if m.status == OwnerStatus::Running && m.queue.len() < m.capacity && m.slots.len()
        < usize::MAX {
        assert forall|i: int, j: int|
            0 <= i < m2.queue.len() && 0 <= j < m2.queue.len() && i != j implies m2.queue[i].slot
                != m2.queue[j].slot by {
            if i < m.queue.len() && j < m.queue.len() {
                assert(m2.queue[i] == m.queue[i]);
                assert(m2.queue[j] == m.queue[j]);
            } else if i < m.queue.len() {
                assert(m2.queue[i] == m.queue[i]);
            } else {
                assert(m2.queue[j] == m.queue[j]);
            }
        }
        assert forall|i: int|
            #![trigger slot_stream(m2.slots[i])]
            0 <= i < m2.slots.len() && slot_stream(m2.slots[i]).is_some() implies slot_stream(
                m2.slots[i],
            ).unwrap() < m2.next_stream by {
            assert(i < m.slots.len());
        }
        assert forall|i: int, j: int|
            #![trigger slot_stream(m2.slots[i]), slot_stream(m2.slots[j])]
            0 <= i < m2.slots.len() && 0 <= j < m2.slots.len() && i != j && slot_stream(
                m2.slots[i],
            ).is_some() implies slot_stream(m2.slots[i]) != slot_stream(m2.slots[j]) by {
            assert(i < m.slots.len());
            if j < m.slots.len() {
            }
        }
        assert forall|i: int, j: int|
            #![trigger m2.inbound[i], slot_stream(m2.slots[j])]
            0 <= i < m2.inbound.len() && 0 <= j < m2.slots.len() implies slot_stream(m2.slots[j])
                != Some(m2.inbound[i]) by {
            if j < m.slots.len() {
            }
        }
    }
}

/// Failing the owner keeps the model well formed.
pub proof fn lemma_fail_wf(m: MuxModel, status: OwnerStatus)
    requires
        wf_model(m),
    ensures
        wf_model(fail_model(m, status)),
{
    lemma_fail_slots(m.slots);
    let m2 = fail_model(m, status);
    assert forall|i: int|
        #![trigger slot_stream(m2.slots[i])]
        0 <= i < m2.slots.len() && slot_stream(m2.slots[i]).is_some() implies slot_stream(
            m2.slots[i],
        ).unwrap() < m2.next_stream by {
        assert(slot_stream(m2.slots[i]) == slot_stream(m.slots[i]));
    }
    assert forall|i: int, j: int|
        #![trigger slot_stream(m2.slots[i]), slot_stream(m2.slots[j])]
        0 <= i < m2.slots.len() && 0 <= j < m2.slots.len() && i != j && slot_stream(
            m2.slots[i],
        ).is_some() implies slot_stream(m2.slots[i]) != slot_stream(m2.slots[j]) by {
        assert(slot_stream(m2.slots[i]) == slot_stream(m.slots[i]));
        assert(slot_stream(m2.slots[j]) == slot_stream(m.slots[j]));
    }
}

/// Servicing a request keeps the model well formed.
pub proof fn lemma_service_wf(m: MuxModel, o: PhysOutcome)
    requires
        wf_model(m),
    ensures
        wf_model(service_model(m, o)),
{
    if m.status != OwnerStatus::Running || m.queue.len() == 0 {
    } else if o == PhysOutcome::Fatal {
        lemma_fail_wf(m, OwnerStatus::Failed);
    } else {
        let req = m.queue[0];
        let m2 = service_model(m, o);
        assert forall|i: int| 0 <= i < m2.queue.len() implies (m2.queue[i].slot as int)
            < m2.slots.len() by {
            assert(m2.queue[i] == m.queue[i + 1]);
        }
        assert forall|i: int, j: int|
            0 <= i < m2.queue.len() && 0 <= j < m2.queue.len() && i != j implies m2.queue[i].slot
                != m2.queue[j].slot by {
            assert(m2.queue[i] == m.queue[i + 1]);
            assert(m2.queue[j] == m.queue[j + 1]);
        }
        match req.op {
            ConnOp::OpenStream => {
                if o == PhysOutcome::Done && m.next_stream < u64::MAX {
                    lemma_fill_fresh(m, req.slot as int, m.next_stream as u64);
                } else {
                    lemma_fill_other(m, req.slot as int, Reply::Failed);
                }
            },
            ConnOp::AcceptStream => {
                if m.inbound.len() > 0 {
                    let id = m.inbound[0];
                    let s = m2.slots;
                    assert forall|i: int|
                        #![trigger slot_stream(s[i])]
                        0 <= i < s.len() && slot_stream(s[i]).is_some() implies slot_stream(
                            s[i],
                        ).unwrap() < m2.next_stream by {
                        if i != req.slot as int {
                            assert(s[i] == m.slots[i]);
                        }
                    }
                    assert forall|i: int, j: int|
                        #![trigger slot_stream(s[i]), slot_stream(s[j])]
                        0 <= i < s.len() && 0 <= j < s.len() && i != j && slot_stream(
                            s[i],
                        ).is_some() implies slot_stream(s[i]) != slot_stream(s[j]) by {
                        assert(slot_stream(m.slots[i]) != Some(m.inbound[0]));
                        assert(slot_stream(m.slots[j]) != Some(m.inbound[0]));
                    }
                    assert forall|i: int, j: int|
                        0 <= i < m2.inbound.len() && 0 <= j < m2.inbound.len() && i != j
                            implies m2.inbound[i] != m2.inbound[j] by {
                        assert(m2.inbound[i] == m.inbound[i + 1]);
                        assert(m2.inbound[j] == m.inbound[j + 1]);
                    }
                    assert forall|i: int, j: int|
                        #![trigger m2.inbound[i], slot_stream(s[j])]
                        0 <= i < m2.inbound.len() && 0 <= j < s.len() implies slot_stream(s[j])
                            != Some(m2.inbound[i]) by {
                        assert(m2.inbound[i] == m.inbound[i + 1]);
                        assert(m.inbound[i + 1] != m.inbound[0]);
                        assert(slot_stream(m.slots[j]) != Some(m.inbound[i + 1]));
                    }
                    assert(id < m.next_stream);
                } else {
                    assert forall|i: int| 0 <= i < m2.acceptors.len() implies (
                    m2.acceptors[i] as int) < m2.slots.len() by {
                        if i < m.acceptors.len() {
                            assert(m2.acceptors[i] == m.acceptors[i]);
                        }
                    }
                }
            },
            _ => {
                let r = if o == PhysOutcome::Done && is_live(m.live, req.target) {
                    Reply::Done
                } else {
                    Reply::Failed
                };
                lemma_fill_other(m, req.slot as int, r);
            },
        }
    }
}

/// A stream opened by the remote peer keeps the model well formed.
pub proof fn lemma_remote_open_wf(m: MuxModel)
    requires
        wf_model(m),
    ensures
        wf_model(remote_open_model(m)),
{
    if m.status != OwnerStatus::Running || m.next_stream >= u64::MAX {
    } else {
        let id = m.next_stream as u64;
        let m2 = remote_open_model(m);
        if m.acceptors.len() > 0 {
            lemma_fill_fresh(m, m.acceptors[0] as int, id);
            assert forall|i: int| 0 <= i < m2.acceptors.len() implies (m2.acceptors[i] as int)
                < m2.slots.len() by {
                assert(m2.acceptors[i] == m.acceptors[i + 1]);
            }
            assert forall|i: int, j: int|
                #![trigger m2.inbound[i], slot_stream(m2.slots[j])]
                0 <= i < m2.inbound.len() && 0 <= j < m2.slots.len() implies slot_stream(
                    m2.slots[j],
                ) != Some(m2.inbound[i]) by {
                if j != m.acceptors[0] as int {
                    assert(m2.slots[j] == m.slots[j]);
                }
            }
        } else {
            assert forall|i: int, j: int|
                0 <= i < m2.inbound.len() && 0 <= j < m2.inbound.len() && i != j implies m2.inbound[i]
                    != m2.inbound[j] by {
                if i < m.inbound.len() && j < m.inbound.len() {
                }
            }
            assert forall|i: int, j: int|
                #![trigger m2.inbound[i], slot_stream(m2.slots[j])]
                0 <= i < m2.inbound.len() && 0 <= j < m2.slots.len() implies slot_stream(
                    m2.slots[j],
                ) != Some(m2.inbound[i]) by {
                if i < m.inbound.len() {
                    assert(m2.inbound[i] == m.inbound[i]);
                } else {
                    if slot_stream(m.slots[j]).is_some() {
                        assert(slot_stream(m.slots[j]).unwrap() < m.next_stream);
                    }
                }
            }
            assert forall|i: int| 0 <= i < m2.inbound.len() implies m2.inbound[i] < m2.next_stream by {
                if i < m.inbound.len() {
                    assert(m2.inbound[i] == m.inbound[i]);
                }
            }
        }
    }
}

/// Closing keeps the model well formed.
pub proof fn lemma_close_wf(m: MuxModel)
    requires
        wf_model(m),
    ensures
        wf_model(close_model(m).0),
{
    if m.status == OwnerStatus::Running {
        lemma_fail_wf(m, OwnerStatus::Closed);
    }
}

/// Dropping a request keeps the model well formed.
pub proof fn lemma_cancel_wf(m: MuxModel, slot: usize)
    requires
        wf_model(m),
    ensures
        wf_model(cancel_model(m, slot)),
{
    let m2 = cancel_model(m, slot);
    if slot < m.slots.len() {
        assert forall|i: int|
            #![trigger slot_stream(m2.slots[i])]
            0 <= i < m2.slots.len() && slot_stream(m2.slots[i]).is_some() implies slot_stream(
                m2.slots[i],
            ).unwrap() < m2.next_stream by {
            assert(m2.slots[i] == m.slots[i]);
        }
        assert forall|i: int, j: int|
            #![trigger slot_stream(m2.slots[i]), slot_stream(m2.slots[j])]
            0 <= i < m2.slots.len() && 0 <= j < m2.slots.len() && i != j && slot_stream(
                m2.slots[i],
            ).is_some() implies slot_stream(m2.slots[i]) != slot_stream(m2.slots[j]) by {
            assert(m2.slots[i] == m.slots[i]);
            if j != slot as int {
                assert(m2.slots[j] == m.slots[j]);
            }
        }
        assert forall|i: int, j: int|
            #![trigger m2.inbound[i], slot_stream(m2.slots[j])]
            0 <= i < m2.inbound.len() && 0 <= j < m2.slots.len() implies slot_stream(m2.slots[j])
                != Some(m2.inbound[i]) by {
            if j != slot as int {
                assert(m2.slots[j] == m.slots[j]);
            }
        }
    }
}

/// `i` is the first position of stream `id` among the live streams.
pub open spec fn first_live(live: Seq<StreamRec>, id: u64, i: int) -> bool {
    &&& 0 <= i < live.len()
    &&& live[i].id == id
    &&& forall|j: int| 0 <= j < i ==> live[j].id != id
}

/// Stream `id` is live and its read half (`read`) or write half (`!read`)
/// is open on a running owner.
pub open spec fn can_use(m: MuxModel, id: u64, read: bool) -> bool {
    &&& m.status == OwnerStatus::Running
    &&& exists|i: int| first_live(m.live, id, i) && (if read {
        m.live[i].readable
    } else {
        m.live[i].writable
    })
}

/// The position of stream `id` among the live streams.
pub open spec fn live_pos(m: MuxModel, id: u64) -> int {
    choose|i: int| first_live(m.live, id, i)
}

pub open spec fn min_nat(a: nat, b: nat) -> nat {
    if a < b {
        a
    } else {
        b
    }
}

/// A caller writes `data` on stream `id`: the owner queues one frame for the
/// physical channel, or refuses when the stream's write half is not open.
pub open spec fn write_model(m: MuxModel, id: u64, data: Seq<u8>) -> (MuxModel, bool) {
    if can_use(m, id, false) {
        (MuxModel { outbox: m.outbox.push((id, data)), ..m }, true)
    } else {
        (m, false)
    }
}

/// Bytes for stream `id` arrived on the physical channel: they wait behind
/// those already received, or are dropped when the stream's read half is not
/// open.
pub open spec fn receive_model(m: MuxModel, id: u64, data: Seq<u8>) -> (MuxModel, bool) {
    if can_use(m, id, true) {
        let i = live_pos(m, id);
        (MuxModel { inbox: m.inbox.update(i, m.inbox[i] + data), ..m }, true)
    } else {
        (m, false)
    }
}

/// A caller reads up to `max` bytes of stream `id`: the oldest bytes
/// received, or nothing when the stream's read half is not open.
pub open spec fn read_model(m: MuxModel, id: u64, max: nat) -> (MuxModel, Option<Seq<u8>>) {
    if can_use(m, id, true) {
        let i = live_pos(m, id);
        let n = min_nat(max, m.inbox[i].len()) as int;
        (MuxModel { inbox: m.inbox.update(i, m.inbox[i].skip(n)), ..m }, Some(m.inbox[i].take(n)))
    } else {
        (m, None)
    }
}

/// Changing only the buffered bytes keeps the model well formed.
proof fn lemma_data_wf(m: MuxModel, inbox: Seq<Seq<u8>>, outbox: Seq<(u64, Seq<u8>)>)
    requires
        wf_model(m),
        inbox.len() == m.inbox.len(),
    ensures
        wf_model(MuxModel { inbox, outbox, ..m }),
{
}

proof fn lemma_first_live_unique(live: Seq<StreamRec>, id: u64, i: int, j: int)
    requires
        first_live(live, id, i),
        first_live(live, id, j),
    ensures
        i == j,
{
    if i < j {
        assert(live[i].id != id);
    } else if j < i {
        assert(live[j].id != id);
    }
}

/// Bytes written on a stream leave in the order written: writing `a` then
/// `b` on writable streams queues their frames one after the other.
pub proof fn lemma_writes_in_order(m: MuxModel, x: u64, a: Seq<u8>, y: u64, b: Seq<u8>)
    requires
        can_use(m, x, false),
        can_use(m, y, false),
    ensures
        write_model(write_model(m, x, a).0, y, b).0.outbox == m.outbox.push((x, a)).push((y, b)),
{
    let m1 = write_model(m, x, a).0;
    let i = choose|i: int| first_live(m.live, y, i) && m.live[i].writable;
    assert(first_live(m1.live, y, i) && m1.live[i].writable);
}

/// Bytes received on a stream are read back in the order received, none lost
/// and none repeated: receiving `a` then `b` and reading everything gives
/// `a + b`.
pub proof fn lemma_receive_then_read(m: MuxModel, id: u64, a: Seq<u8>, b: Seq<u8>)
    requires
        wf_model(m),
        can_use(m, id, true),
        m.inbox[live_pos(m, id)].len() == 0,
    ensures
        ({
            let m2 = receive_model(receive_model(m, id, a).0, id, b).0;
            read_model(m2, id, (a.len() + b.len()) as nat).1 == Some(a + b)
        }),
{
    let i = choose|i: int| first_live(m.live, id, i) && m.live[i].readable;
    let p = live_pos(m, id);
    lemma_first_live_unique(m.live, id, i, p);
    let m1 = receive_model(m, id, a).0;
    assert(first_live(m1.live, id, i) && m1.live[i].readable);
    let q = live_pos(m1, id);
    lemma_first_live_unique(m1.live, id, i, q);
    let m2 = receive_model(m1, id, b).0;
    assert(first_live(m2.live, id, i) && m2.live[i].readable);
    let r = live_pos(m2, id);
    lemma_first_live_unique(m2.live, id, i, r);
    assert(m.inbox[i] + a =~= a);
    assert(m2.inbox[i] =~= a + b);
    assert(m2.inbox[i].take((a.len() + b.len()) as int) =~= a + b);
}

/// Bytes written on a stream reach the other end unchanged: the frame a
/// writer's owner queues for its physical channel, once received on the
/// joined stream at the other owner, reads back as exactly the bytes written.
pub proof fn lemma_write_carry_read(w: MuxModel, x: u64, r: MuxModel, y: u64, data: Seq<u8>)
    requires
        can_use(w, x, false),
        w.outbox.len() == 0,
        wf_model(r),
        can_use(r, y, true),
        r.inbox[live_pos(r, y)].len() == 0,
    ensures
        ({
            let w1 = write_model(w, x, data).0;
            let r1 = receive_model(r, y, w1.outbox[0].1).0;
            &&& w1.outbox[0] == (x, data)
            &&& read_model(r1, y, data.len()).1 == Some(data)
        }),
{
    let i = choose|i: int| first_live(r.live, y, i) && r.live[i].readable;
    let p = live_pos(r, y);
    lemma_first_live_unique(r.live, y, i, p);
    let r1 = receive_model(r, y, data).0;
    assert(first_live(r1.live, y, i) && r1.live[i].readable);
    let q = live_pos(r1, y);
    lemma_first_live_unique(r1.live, y, i, q);
    assert(r.inbox[i] + data =~= data);
    assert(r1.inbox[i].take(data.len() as int) =~= data);
}

/// Requests are queued first come, first served: an accepted submission goes
/// to the back of the queue behind every request already there, and gets a
/// reply slot no queued request holds.
pub proof fn lemma_submit_fifo(m: MuxModel, op: ConnOp, target: u64)
    requires
        wf_model(m),
    ensures
        ({
            let (m2, ev) = submit_model(m, op, target);
            match ev {
                SubmitEvent::Accepted(slot) => {
                    &&& m2.queue == m.queue.push(Request { op, target, slot })
                    &&& m2.slots[slot as int] == Slot::Waiting
                    &&& forall|i: int| 0 <= i < m.queue.len() ==> m.queue[i].slot != slot
                },
                _ => m2 == m,
            }
        }),
{
}

/// No two reply slots ever hold the same stream id: every stream a caller
/// receives is distinct from every other.
pub proof fn lemma_stream_ids_distinct(m: MuxModel, i: int, j: int)
    requires
        wf_model(m),
        0 <= i < m.slots.len(),
        0 <= j < m.slots.len(),
        i != j,
        slot_stream(m.slots[i]) is Some,
    ensures
        slot_stream(m.slots[i]) != slot_stream(m.slots[j]),
{
}

/// Dropping the request that holds slot `a` changes nothing for a request
/// holding any other slot `b`: neither now, nor after the owner services a
/// request, accepts a remote stream, fails or closes.
pub proof fn lemma_cancel_isolated(m: MuxModel, a: usize, b: int, o: PhysOutcome)
    requires
        wf_model(m),
        0 <= b < m.slots.len(),
        b != a as int,
    ensures
        cancel_model(m, a).slots[b] == m.slots[b],
        service_model(cancel_model(m, a), o).slots[b] == service_model(m, o).slots[b],
        remote_open_model(cancel_model(m, a)).slots[b] == remote_open_model(m).slots[b],
        close_model(cancel_model(m, a)).0.slots[b] == close_model(m).0.slots[b],
{
    let c = cancel_model(m, a);
    assert(c.slots[b] == m.slots[b]);
    assert(c.slots.len() == m.slots.len());
    lemma_fail_slots(m.slots);
    lemma_fail_slots(c.slots);
}

/// A fatal error fails every pending request at once: each waiting slot is
/// answered with failure, so a request waiting on it completes with an error
/// at its next activation, the queue is drained, and no request is accepted
/// afterwards.
pub proof fn lemma_fatal_fails_pending(m: MuxModel, i: int)
    requires
        wf_model(m),
        m.status == OwnerStatus::Running,
        m.queue.len() > 0,
        0 <= i < m.slots.len(),
        m.slots[i] == Slot::Waiting,
    ensures
        ({
            let m2 = service_model(m, PhysOutcome::Fatal);
            &&& m2.slots[i] == Slot::Filled(Reply::Failed)
            &&& m2.queue.len() == 0
            &&& m2.status == OwnerStatus::Failed
            &&& forall|op: ConnOp, t: u64| #[trigger] submit_model(m2, op, t) == (m2, SubmitEvent::Rejected)
        }),
{
    lemma_fail_slots(m.slots);
}

/// Closing is idempotent: a second close changes nothing and only reports
/// that the channel was already closed.
pub proof fn lemma_close_idempotent(m: MuxModel)
    ensures
        close_model(close_model(m).0) == (close_model(m).0, CloseOutcome::AlreadyClosed),
{
}

/// The owner after the remote peer opened `n` streams in a row.
pub open spec fn remote_open_times(m: MuxModel, n: nat) -> MuxModel
    decreases n,
{
    if n == 0 {
        m
    } else {
        remote_open_times(remote_open_model(m), (n - 1) as nat)
    }
}

/// Streams the remote peer opens while no accept waits are kept in the order
/// they were opened, each with the next fresh id.
pub proof fn lemma_remote_opens_in_order(m: MuxModel, n: nat)
    requires
        m.status == OwnerStatus::Running,
        m.acceptors.len() == 0,
        m.next_stream + n <= u64::MAX,
    ensures
        remote_open_times(m, n).inbound == m.inbound + Seq::new(
            n,
            |k: int| (m.next_stream + k) as u64,
        ),
        remote_open_times(m, n).acceptors.len() == 0,
        remote_open_times(m, n).next_stream == m.next_stream + n,
    decreases n,
{
    if n == 0 {
        assert(m.inbound + Seq::new(0, |k: int| (m.next_stream + k) as u64) =~= m.inbound);
    } else {
        let m1 = remote_open_model(m);
        lemma_remote_opens_in_order(m1, (n - 1) as nat);
        assert(m1.inbound + Seq::new((n - 1) as nat, |k: int| (m1.next_stream + k) as u64)
            =~= m.inbound + Seq::new(n, |k: int| (m.next_stream + k) as u64));
    }
}

/// An accept request at the front of the queue takes the oldest stream the
/// remote peer opened that no accept has taken yet.
pub proof fn lemma_accept_takes_oldest(m: MuxModel, o: PhysOutcome)
    requires
        wf_model(m),
        m.status == OwnerStatus::Running,
        m.queue.len() > 0,
        m.queue[0].op == ConnOp::AcceptStream,
        m.inbound.len() > 0,
        m.slots[m.queue[0].slot as int] == Slot::Waiting,
        o != PhysOutcome::Fatal,
    ensures
        service_model(m, o).slots[m.queue[0].slot as int] == Slot::Filled(
            Reply::Stream(m.inbound[0]),
        ),
        service_model(m, o).inbound == m.inbound.drop_first(),
{
}

/// The owner of a multiplexed channel: its request queue, its reply slots,
/// the accepts waiting for a remote stream and the remote streams waiting for
/// an accept.
pub struct MuxCore {
    queue: Vec<Request>,
    capacity: usize,
    slots: Vec<Slot>,
    acceptors: Vec<usize>,
    inbound: Vec<u64>,
    live: Vec<StreamRec>,
    inbox: Vec<Vec<u8>>,
    outbox: Vec<(u64, Vec<u8>)>,
    next_stream: u64,
    clock: i64,
    status: OwnerStatus,
}

fn append_bytes(v: &mut Vec<u8>, data: &[u8])
    ensures
        final(v)@ == old(v)@ + data@,
{
    let mut i: usize = 0;
    while i < data.len()
        invariant
            0 <= i <= data@.len(),
            v@ == old(v)@ + data@.subrange(0, i as int),
        decreases data@.len() - i,
    {
        v.push(data[i]);
        i = i + 1;
        assert(data@.subrange(0, i as int) =~= data@.subrange(0, (i - 1) as int).push(data@[i - 1]));
    }
    assert(data@.subrange(0, data@.len() as int) =~= data@);
}

/// The bytes of each buffer.
pub open spec fn bytes_of(v: Seq<Vec<u8>>) -> Seq<Seq<u8>> {
    v.map_values(|b: Vec<u8>| b@)
}

/// The frames with their bytes.
pub open spec fn frames_of(v: Seq<(u64, Vec<u8>)>) -> Seq<(u64, Seq<u8>)> {
    v.map_values(|f: (u64, Vec<u8>)| (f.0, f.1@))
}

impl View for MuxCore {
    type V = MuxModel;

    closed spec fn view(&self) -> MuxModel {
        MuxModel {
            queue: self.queue@,
            capacity: self.capacity as nat,
            slots: self.slots@,
            acceptors: self.acceptors@,
            inbound: self.inbound@,
            live: self.live@,
            inbox: bytes_of(self.inbox@),
            outbox: frames_of(self.outbox@),
            next_stream: self.next_stream as nat,
            clock: self.clock,
            status: self.status,
        }
    }
}

impl MuxCore {
    pub open spec fn wf(&self) -> bool {
        wf_model(self@)
    }

    /// A running owner with an empty queue that holds at most `capacity`
    /// requests.
    pub fn new(capacity: usize) -> (r: MuxCore)
        requires
            capacity > 0,
        ensures
            r@ == start_model(capacity as nat),
            r.wf(),
    {
        let r = MuxCore {
            queue: Vec::new(),
            capacity,
            slots: Vec::new(),
            acceptors: Vec::new(),
            inbound: Vec::new(),
            live: Vec::new(),
            inbox: Vec::new(),
            outbox: Vec::new(),
            next_stream: 0,
            clock: 0,
            status: OwnerStatus::Running,
        };
        assert(r@.inbox =~= Seq::<Seq<u8>>::empty());
        assert(r@.outbox =~= Seq::<(u64, Seq<u8>)>::empty());
        r
    }

    pub fn status(&self) -> (r: OwnerStatus)
        ensures
            r == self@.status,
    {
        self.status
    }

    /// The number of queued requests.
    pub fn queued(&self) -> (r: usize)
        ensures
            r == self@.queue.len(),
    {
        self.queue.len()
    }

    /// The request the owner services next.
    pub fn front(&self) -> (r: Option<Request>)
        ensures
            r == (if self@.queue.len() > 0 {
                Some(self@.queue[0])
            } else {
                None
            }),
    {
        if self.queue.len() > 0 {
            Some(self.queue[0])
        } else {
            None
        }
    }

    /// The record of live stream `id`: its direction and which halves are
    /// still open.
    pub fn stream(&self, id: u64) -> (r: Option<StreamRec>)
        ensures
            r is Some <==> is_live(self@.live, id),
            r matches Some(rec) ==> rec.id == id && exists|i: int|
                0 <= i < self@.live.len() && self@.live[i] == rec,
    {
        let mut i: usize = 0;
        while i < self.live.len()
            invariant
                0 <= i <= self.live@.len(),
                forall|k: int| 0 <= k < i ==> self.live@[k].id != id,
            decreases self.live@.len() - i,
        {
            if self.live[i].id == id {
                return Some(self.live[i]);
            }
            i = i + 1;
        }
        None
    }

    /// What slot `slot` holds; a slot that was never handed out reads as
    /// dropped.
    pub fn reply(&self, slot: usize) -> (r: Slot)
        ensures
            slot < self@.slots.len() ==> r == self@.slots[slot as int],
            slot >= self@.slots.len() ==> r == Slot::Dropped,
    {
        if slot < self.slots.len() {
            self.slots[slot]
        } else {
            Slot::Dropped
        }
    }

    /// A caller tries to queue `op`, aimed at stream `target` for the close
    /// operations.
    pub fn submit(&mut self, op: ConnOp, target: u64) -> (r: SubmitEvent)
        requires
            old(self).wf(),
        ensures
            (final(self)@, r) == submit_model(old(self)@, op, target),
            final(self).wf(),
    {
        proof {
            lemma_submit_wf(self@, op, target);
        }
        if self.status != OwnerStatus::Running {
            SubmitEvent::Rejected
        } else if self.queue.len() >= self.capacity || self.slots.len() == usize::MAX {
            SubmitEvent::Full
        } else {
            let slot = self.slots.len();
            self.queue.push(Request { op, target, slot });
            self.slots.push(Slot::Waiting);
            SubmitEvent::Accepted(slot)
        }
    }

    fn fill(&mut self, i: usize, r: Reply)
        ensures
            final(self)@ == (MuxModel { slots: fill(old(self)@.slots, i as int, r), ..old(self)@ }),
    {
        if i < self.slots.len() {
            match self.slots[i] {
                Slot::Waiting => {
                    self.slots.set(i, Slot::Filled(r));
                },
                _ => {},
            }
        }
    }

    fn fail_all(&mut self, status: OwnerStatus)
        ensures
            final(self)@ == fail_model(old(self)@, status),
    {
        let ghost before = self.slots@;
        let ghost m = self@;
        let n = self.slots.len();
        let mut i: usize = 0;
        while i < n
            invariant
                self@ == (MuxModel { slots: self.slots@, ..m }),
                n == before.len(),
                self.slots@.len() == n,
                0 <= i <= n,
                forall|k: int| 0 <= k < i ==> self.slots@[k] == fail_slot(before[k]),
                forall|k: int| i <= k < n ==> self.slots@[k] == before[k],
            decreases n - i,
        {
            match self.slots[i] {
                Slot::Waiting => {
                    self.slots.set(i, Slot::Filled(Reply::Failed));
                },
                _ => {},
            }
            i = i + 1;
        }
        assert(self.slots@ =~= fail_slots(before));
        self.queue = Vec::new();
        self.acceptors = Vec::new();
        self.inbound = Vec::new();
        self.live = Vec::new();
        self.inbox = Vec::new();
        self.outbox = Vec::new();
        self.status = status;
        assert(self@.inbox =~= Seq::empty());
        assert(self@.outbox =~= Seq::empty());
        assert(self@.queue =~= Seq::empty());
        assert(self@.acceptors =~= Seq::empty());
        assert(self@.inbound =~= Seq::empty());
        assert(self@.live =~= Seq::empty());
    }

    fn has_live(&self, id: u64) -> (r: bool)
        ensures
            r == is_live(self@.live, id),
    {
        let mut i: usize = 0;
        while i < self.live.len()
            invariant
                0 <= i <= self.live@.len(),
                forall|k: int| 0 <= k < i ==> self.live@[k].id != id,
            decreases self.live@.len() - i,
        {
            if self.live[i].id == id {
                return true;
            }
            i = i + 1;
        }
        false
    }

    fn close_target(&mut self, target: u64, op: ConnOp)
        ensures
            final(self)@ == (MuxModel { live: close_live(old(self)@.live, target, op), ..old(self)@ }),
    {
        let ghost before = self.live@;
        let ghost m = self@;
        let n = self.live.len();
        let mut i: usize = 0;
        while i < n
            invariant
                self@ == (MuxModel { live: self.live@, ..m }),
                n == before.len(),
                self.live@.len() == n,
                0 <= i <= n,
                forall|k: int|
                    0 <= k < i ==> self.live@[k] == (if before[k].id == target {
                        close_rec(before[k], op)
                    } else {
                        before[k]
                    }),
                forall|k: int| i <= k < n ==> self.live@[k] == before[k],
            decreases n - i,
        {
            let rec = self.live[i];
            if rec.id == target {
                let updated = match op {
                    ConnOp::CloseStream => StreamRec { readable: false, writable: false, ..rec },
                    ConnOp::CloseWriteStream => StreamRec { writable: false, ..rec },
                    ConnOp::CloseReadStream => StreamRec { readable: false, ..rec },
                    _ => rec,
                };
                self.live.set(i, updated);
            }
            i = i + 1;
        }
        assert(self.live@ =~= close_live(before, target, op));
    }

    /// The owner services the oldest queued request; `o` is how its physical
    /// part went.
    pub fn service(&mut self, o: PhysOutcome)
        requires
            old(self).wf(),
        ensures
            final(self)@ == service_model(old(self)@, o),
            final(self).wf(),
    {
        proof {
            lemma_service_wf(self@, o);
        }
        if self.status != OwnerStatus::Running || self.queue.len() == 0 {
            return;
        }
        if o == PhysOutcome::Fatal {
            self.fail_all(OwnerStatus::Failed);
            return;
        }
        let ghost m = self@;
        let req = self.queue.remove(0);
        assert(self.queue@ =~= m.queue.drop_first());
        match req.op {
            ConnOp::OpenStream => {
                if o == PhysOutcome::Done && self.next_stream < u64::MAX {
                    let id = self.next_stream;
                    self.fill(req.slot, Reply::Stream(id));
                    self.live.push(
                        StreamRec {
                            id,
                            direction: Direction::OUT,
                            opened: self.clock,
                            readable: true,
                            writable: true,
                        },
                    );
                    let ghost before = self.inbox@;
                    self.inbox.push(Vec::new());
                    assert(bytes_of(self.inbox@) =~= bytes_of(before).push(Seq::empty()));
                    self.next_stream = id + 1;
                } else {
                    self.fill(req.slot, Reply::Failed);
                }
            },
            ConnOp::AcceptStream => {
                if self.inbound.len() > 0 {
                    let id = self.inbound.remove(0);
                    assert(self.inbound@ =~= m.inbound.drop_first());
                    self.fill(req.slot, Reply::Stream(id));
                } else {
                    self.acceptors.push(req.slot);
                }
            },
            _ => {
                let r = if o == PhysOutcome::Done && self.has_live(req.target) {
                    Reply::Done
                } else {
                    Reply::Failed
                };
                self.fill(req.slot, r);
                self.close_target(req.target, req.op);
            },
        }
    }

    /// The remote peer opens a stream. Returns the id given to it, if the
    /// owner could take it.
    pub fn remote_open(&mut self) -> (r: Option<u64>)
        requires
            old(self).wf(),
        ensures
            final(self)@ == remote_open_model(old(self)@),
            final(self).wf(),
            r == (if old(self)@.status == OwnerStatus::Running && old(self)@.next_stream < u64::MAX {
                Some(old(self)@.next_stream as u64)
            } else {
                None
            }),
    {
        proof {
            lemma_remote_open_wf(self@);
        }
        if self.status != OwnerStatus::Running || self.next_stream == u64::MAX {
            return None;
        }
        let ghost m = self@;
        let id = self.next_stream;
        self.live.push(
            StreamRec { id, direction: Direction::IN, opened: self.clock, readable: true, writable: true },
        );
        let ghost before = self.inbox@;
        self.inbox.push(Vec::new());
        assert(bytes_of(self.inbox@) =~= bytes_of(before).push(Seq::empty()));
        self.next_stream = id + 1;
        if self.acceptors.len() > 0 {
            let slot = self.acceptors.remove(0);
            assert(self.acceptors@ =~= m.acceptors.drop_first());
            self.fill(slot, Reply::Stream(id));
        } else {
            self.inbound.push(id);
        }
        Some(id)
    }

    /// Closes the channel; a second close changes nothing and reports that
    /// the channel was already closed.
    pub fn close(&mut self) -> (r: CloseOutcome)
        requires
            old(self).wf(),
        ensures
            (final(self)@, r) == close_model(old(self)@),
            final(self).wf(),
    {
        proof {
            lemma_close_wf(self@);
        }
        if self.status == OwnerStatus::Running {
            self.fail_all(OwnerStatus::Closed);
            CloseOutcome::Closed
        } else {
            self.status = OwnerStatus::Closed;
            CloseOutcome::AlreadyClosed
        }
    }

    /// Sets the owner's clock; streams opened from now on record this time.
    pub fn set_clock(&mut self, now: i64)
        ensures
            final(self)@ == (MuxModel { clock: now, ..old(self)@ }),
    {
        self.clock = now;
    }

    fn find_live(&self, id: u64) -> (r: Option<usize>)
        ensures
            r matches Some(i) ==> first_live(self@.live, id, i as int),
            r is None ==> forall|i: int| 0 <= i < self@.live.len() ==> self@.live[i].id != id,
    {
        let mut i: usize = 0;
        while i < self.live.len()
            invariant
                0 <= i <= self.live@.len(),
                forall|k: int| 0 <= k < i ==> self.live@[k].id != id,
            decreases self.live@.len() - i,
        {
            if self.live[i].id == id {
                return Some(i);
            }
            i = i + 1;
        }
        None
    }

    fn usable(&self, id: u64, read: bool) -> (r: Option<usize>)
        ensures
            r is Some <==> can_use(self@, id, read),
            r matches Some(i) ==> i as int == live_pos(self@, id) && first_live(
                self@.live,
                id,
                i as int,
            ),
    {
        if self.status != OwnerStatus::Running {
            return None;
        }
        match self.find_live(id) {
            None => None,
            Some(i) => {
                proof {
                    let p = live_pos(self@, id);
                    lemma_first_live_unique(self@.live, id, i as int, p);
                    assert forall|j: int|
                        first_live(self@.live, id, j) implies j == i as int by {
                        lemma_first_live_unique(self@.live, id, i as int, j);
                    }
                }
                let rec = self.live[i];
                if (read && rec.readable) || (!read && rec.writable) {
                    Some(i)
                } else {
                    None
                }
            },
        }
    }

    /// Writes `data` on stream `id`; see `write_model`.
    pub fn write(&mut self, id: u64, data: &[u8]) -> (r: Result<usize, WriteError>)
        requires
            old(self).wf(),
        ensures
            final(self).wf(),
            final(self)@ == write_model(old(self)@, id, data@).0,
            r is Ok <==> write_model(old(self)@, id, data@).1,
            r matches Ok(n) ==> n == data@.len(),
    {
        match self.usable(id, false) {
            None => Err(WriteError),
            Some(_) => {
                let ghost before = self.outbox@;
                let mut frame: Vec<u8> = Vec::new();
                append_bytes(&mut frame, data);
                assert(frame@ =~= data@);
                self.outbox.push((id, frame));
                assert(frames_of(self.outbox@) =~= frames_of(before).push((id, data@)));
                proof {
                    lemma_data_wf(old(self)@, self@.inbox, self@.outbox);
                }
                Ok(data.len())
            },
        }
    }

    /// Bytes for stream `id` arrived on the physical channel; see
    /// `receive_model`.
    pub fn receive(&mut self, id: u64, data: &[u8]) -> (r: bool)
        requires
            old(self).wf(),
        ensures
            final(self).wf(),
            (final(self)@, r) == receive_model(old(self)@, id, data@),
    {
        match self.usable(id, true) {
            None => false,
            Some(i) => {
                let ghost before = self.inbox@;
                let mut buf = self.inbox.remove(i);
                append_bytes(&mut buf, data);
                self.inbox.insert(i, buf);
                assert(bytes_of(self.inbox@) =~= bytes_of(before).update(
                    i as int,
                    bytes_of(before)[i as int] + data@,
                ));
                proof {
                    lemma_data_wf(old(self)@, self@.inbox, self@.outbox);
                }
                true
            },
        }
    }

    /// Reads up to `max` bytes of stream `id`; see `read_model`.
    pub fn read(&mut self, id: u64, max: usize) -> (r: Result<Vec<u8>, ReadError>)
        requires
            old(self).wf(),
        ensures
            final(self).wf(),
            final(self)@ == read_model(old(self)@, id, max as nat).0,
            match r {
                Ok(v) => read_model(old(self)@, id, max as nat).1 == Some(v@),
                Err(_) => read_model(old(self)@, id, max as nat).1 is None,
            },
    {
        match self.usable(id, true) {
            None => Err(ReadError),
            Some(i) => {
                let ghost before = self.inbox@;
                let mut buf = self.inbox.remove(i);
                let n = if max < buf.len() {
                    max
                } else {
                    buf.len()
                };
                let mut out = buf.split_off(n);
                core::mem::swap(&mut out, &mut buf);
                self.inbox.insert(i, buf);
                assert(bytes_of(self.inbox@) =~= bytes_of(before).update(
                    i as int,
                    bytes_of(before)[i as int].skip(n as int),
                ));
                assert(out@ =~= bytes_of(before)[i as int].take(n as int));
                Ok(out)
            },
        }
    }

    /// Takes the oldest frame to put on the physical channel.
    pub fn next_frame(&mut self) -> (r: Option<(u64, Vec<u8>)>)
        requires
            old(self).wf(),
        ensures
            final(self).wf(),
            old(self)@.outbox.len() == 0 ==> r is None && final(self)@ == old(self)@,
            old(self)@.outbox.len() > 0 ==> (r matches Some(f) && (f.0, f.1@) == old(self)@.outbox[0]
                && final(self)@ == (MuxModel { outbox: old(self)@.outbox.drop_first(), ..old(self)@ })),
    {
        if self.outbox.len() == 0 {
            return None;
        }
        let ghost before = self.outbox@;
        let f = self.outbox.remove(0);
        assert(frames_of(self.outbox@) =~= frames_of(before).drop_first());
        Some(f)
    }

    /// The owner found a fatal error on the physical channel outside the
    /// servicing of a request: every waiting request is answered with
    /// failure and no request is accepted again.
    pub fn fail(&mut self)
        requires
            old(self).wf(),
        ensures
            final(self)@ == fail_model(old(self)@, OwnerStatus::Failed),
            final(self).wf(),
    {
        proof {
            lemma_fail_wf(self@, OwnerStatus::Failed);
        }
        self.fail_all(OwnerStatus::Failed);
    }

    /// The caller that owns `slot` gives up on its request.
    pub fn cancel(&mut self, slot: usize)
        requires
            old(self).wf(),
        ensures
            final(self)@ == cancel_model(old(self)@, slot),
            final(self).wf(),
    {
        proof {
            lemma_cancel_wf(self@, slot);
        }
        if slot < self.slots.len() {
            self.slots.set(slot, Slot::Dropped);
        }
    }
}

} // verus!
