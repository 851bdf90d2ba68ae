//! The lazy sequence of inbound logical streams.
//!
//! It keeps one accept request in flight at a time; once an accept completes
//! with a stream it starts the next one, and once an accept fails the
//! sequence has ended for good.
use vstd::prelude::*;
use crate::mux::{
    ConnOp, MuxCore, MuxModel, OwnerStatus, PhysOutcome, Reply, Request, Slot, SubmitEvent,
    lemma_service_wf, lemma_submit_wf, service_model, slot_stream, submit_model, wf_model,
};
use crate::reqres::{PendingRequest, Progress, ReqRes, poll_model, slot_of};

verus! {

/// Where a listen sequence stands.
#[derive(Clone, Copy, Debug, PartialEq, Eq, Structural)]
pub enum ListenState {
    /// An accept request is in flight in this state.
    Accepting(ReqRes),
    /// No further items.
    Ended,
}

/// The listen sequence after one activation in state `s` against `m`: the
/// next state, the owner afterwards, and the result (`Some` item, or `None`
/// once the sequence has ended).
pub open spec fn listen_model(s: ListenState, m: MuxModel) -> (
    ListenState,
    MuxModel,
    Progress<Option<u64>>,
) {
    match s {
        ListenState::Ended => (ListenState::Ended, m, Progress::Ready(None)),
        ListenState::Accepting(st) => {
            let (st2, m2, p) = poll_model(st, ConnOp::AcceptStream, 0, m);
            match p {
                Progress::Pending => (ListenState::Accepting(st2), m2, Progress::Pending),
                Progress::Ready(Ok(Reply::Stream(id))) => (
                    ListenState::Accepting(ReqRes::WaitSend),
                    m2,
                    Progress::Ready(Some(id)),
                ),
                Progress::Ready(_) => (ListenState::Ended, m2, Progress::Ready(None)),
            }
        },
    }
}

/// The inbound streams of one multiplexed channel, in the order the remote
/// peer opened them.
pub struct ListenStream {
    state: ListenState,
}

impl ListenStream {
    pub closed spec fn state(&self) -> ListenState {
        self.state
    }

    pub open spec fn inv(&self) -> bool {
        self.state() != ListenState::Accepting(ReqRes::Finished)
    }

    pub fn new() -> (r: ListenStream)
        ensures
            r.state() == ListenState::Accepting(ReqRes::WaitSend),
            r.inv(),
    {
        ListenStream { state: ListenState::Accepting(ReqRes::WaitSend) }
    }

    /// Activates the sequence once: the next inbound stream's id, `None`
    /// once the owner is gone, or pending.
    pub fn poll_next(&mut self, core: &mut MuxCore) -> (r: Progress<Option<u64>>)
        requires
            old(core).wf(),
            old(self).inv(),
        ensures
            final(core).wf(),
            final(self).inv(),
            (final(self).state(), final(core)@, r) == listen_model(old(self).state(), old(core)@),
    {
        match self.state {
            ListenState::Ended => Progress::Ready(None),
            ListenState::Accepting(st) => {
                let mut req = PendingRequest::new(ConnOp::AcceptStream, 0);
                req.state = st;
                let p = req.poll(core);
                match p {
                    Progress::Pending => {
                        self.state = ListenState::Accepting(req.state);
                        Progress::Pending
                    },
                    Progress::Ready(Ok(Reply::Stream(id))) => {
                        self.state = ListenState::Accepting(ReqRes::WaitSend);
                        Progress::Ready(Some(id))
                    },
                    Progress::Ready(_) => {
                        self.state = ListenState::Ended;
                        Progress::Ready(None)
                    },
                }
            },
        }
    }
}

/// A listen sequence ends for good once its owner is gone. From an owner that
/// no longer runs (after a failure or a close), the next activation yields
/// no item and does not stay pending, unless an accept answered before the
/// owner stopped holds a stream; once ended, every later activation yields
/// the end again and leaves the owner as it is.
pub proof fn lemma_listen_terminates(s: ListenState, m: MuxModel)
    requires
        wf_model(m),
        m.status != OwnerStatus::Running,
        s != ListenState::Accepting(ReqRes::Finished),
        forall|slot: usize| s == ListenState::Accepting(ReqRes::WaitRecv(slot)) ==> slot_stream(
            slot_of(m, slot),
        ) is None,
    ensures
        ({
            let (s2, m2, p) = listen_model(s, m);
            &&& s2 == ListenState::Ended
            &&& m2 == m
            &&& p == Progress::<Option<u64>>::Ready(None)
            &&& listen_model(s2, m2) == (ListenState::Ended, m2, Progress::<Option<u64>>::Ready(None))
        }),
{
}

/// One item of a listen sequence that starts a fresh accept on `m`: an
/// activation, one servicing by the owner, and a second activation. Gives
/// the owner afterwards and the item, if one came.
pub open spec fn listen_round(m: MuxModel) -> (MuxModel, Option<u64>) {
    let (s1, m1, first) = listen_model(ListenState::Accepting(ReqRes::WaitSend), m);
    let m2 = service_model(m1, PhysOutcome::Done);
    let (s3, m3, second) = listen_model(s1, m2);
    (
        m3,
        match second {
            Progress::Ready(Some(id)) => Some(id),
            _ => None,
        },
    )
}

/// The items of `n` listen rounds in a row.
pub open spec fn listen_items(m: MuxModel, n: nat) -> Seq<Option<u64>>
    decreases n,
{
    if n == 0 {
        Seq::empty()
    } else {
        let (m1, item) = listen_round(m);
        seq![item] + listen_items(m1, (n - 1) as nat)
    }
}

proof fn lemma_listen_round(m: MuxModel)
    requires
        wf_model(m),
        m.status == OwnerStatus::Running,
        m.queue.len() == 0,
        m.acceptors.len() == 0,
        m.inbound.len() > 0,
        m.slots.len() < usize::MAX,
    ensures
        ({
            let (m1, item) = listen_round(m);
            &&& item == Some(m.inbound[0])
            &&& wf_model(m1)
            &&& m1.status == OwnerStatus::Running
            &&& m1.queue.len() == 0
            &&& m1.acceptors.len() == 0
            &&& m1.inbound == m.inbound.drop_first()
            &&& m1.slots.len() == m.slots.len() + 1
        }),
{
    let (ma, ev) = submit_model(m, ConnOp::AcceptStream, 0);
    lemma_submit_wf(m, ConnOp::AcceptStream, 0);
    let slot = m.slots.len() as usize;
    assert(ev == SubmitEvent::Accepted(slot));
    assert(ma.slots[slot as int] == Slot::Waiting);
    let mb = service_model(ma, PhysOutcome::Done);
    lemma_service_wf(ma, PhysOutcome::Done);
    assert(ma.queue[0].slot == slot);
    assert(mb.slots[slot as int] == Slot::Filled(Reply::Stream(m.inbound[0])));
    assert(mb.queue =~= Seq::<Request>::empty());
}

/// A listen sequence yields the streams the remote peer opened in the order
/// it opened them: with those streams waiting and nothing else queued, the
/// first `n` items are exactly the first `n` of them, none skipped, repeated
/// or reordered.
pub proof fn lemma_listen_in_open_order(m: MuxModel, n: nat)
    requires
        wf_model(m),
        m.status == OwnerStatus::Running,
        m.queue.len() == 0,
        m.acceptors.len() == 0,
        n <= m.inbound.len(),
        m.slots.len() + n <= usize::MAX,
    ensures
        listen_items(m, n) == m.inbound.take(n as int).map_values(|id: u64| Some(id)),
    decreases n,
{
    if n == 0 {
        assert(m.inbound.take(0).map_values(|id: u64| Some(id)) =~= Seq::<Option<u64>>::empty());
    } else {
        lemma_listen_round(m);
        let (m1, item) = listen_round(m);
        lemma_listen_in_open_order(m1, (n - 1) as nat);
        assert(seq![item] + m1.inbound.take((n - 1) as int).map_values(|id: u64| Some(id))
            =~= m.inbound.take(n as int).map_values(|id: u64| Some(id)));
    }
}

} // verus!
