//! Two owners joined back to back in memory.
//!
//! A stream that the local side opens arrives at the remote owner as a
//! stream the remote peer opened, and every frame the local owner puts on
//! its physical channel arrives, in order, as bytes received on the remote
//! side of that stream.
use vstd::prelude::*;
use crate::mux::{MuxCore, OwnerStatus, receive_model, remote_open_model};

verus! {

/// Streams joined across a link: each stream's id at the local owner and
/// its id at the remote owner.
pub struct StubLink {
    routes: Vec<(u64, u64)>,
}

impl View for StubLink {
    type V = Seq<(u64, u64)>;

    closed spec fn view(&self) -> Seq<(u64, u64)> {
        self.routes@
    }
}

pub open spec fn has_local(v: Seq<(u64, u64)>, id: u64) -> bool {
    exists|i: int| 0 <= i < v.len() && v[i].0 == id
}

pub open spec fn has_remote(v: Seq<(u64, u64)>, id: u64) -> bool {
    exists|i: int| 0 <= i < v.len() && v[i].1 == id
}

impl StubLink {
    /// No two routes share a local id or a remote id.
    pub open spec fn wf(&self) -> bool {
        &&& forall|i: int, j: int|
            0 <= i < self@.len() && 0 <= j < self@.len() && i != j ==> self@[i].0 != self@[j].0
        &&& forall|i: int, j: int|
            0 <= i < self@.len() && 0 <= j < self@.len() && i != j ==> self@[i].1 != self@[j].1
    }

    pub fn new() -> (r: StubLink)
        ensures
            r@ == Seq::<(u64, u64)>::empty(),
            r.wf(),
    {
        StubLink { routes: Vec::new() }
    }

    fn find_local(&self, id: u64) -> (r: Option<usize>)
        ensures
            r is None <==> !has_local(self@, id),
            r matches Some(i) ==> i < self@.len() && self@[i as int].0 == id,
    {
        let mut i: usize = 0;
        while i < self.routes.len()
            invariant
                0 <= i <= self@.len(),
                forall|k: int| 0 <= k < i ==> self@[k].0 != id,
            decreases self@.len() - i,
        {
            if self.routes[i].0 == id {
                return Some(i);
            }
            i = i + 1;
        }
        None
    }

    fn find_remote(&self, id: u64) -> (r: Option<usize>)
        ensures
            r is None <==> !has_remote(self@, id),
            r matches Some(i) ==> i < self@.len() && self@[i as int].1 == id,
    {
        let mut i: usize = 0;
        while i < self.routes.len()
            invariant
                0 <= i <= self@.len(),
                forall|k: int| 0 <= k < i ==> self@[k].1 != id,
            decreases self@.len() - i,
        {
            if self.routes[i].1 == id {
                return Some(i);
            }
            i = i + 1;
        }
        None
    }

    /// Carries the stream the local side opened as `local` over to `remote`,
    /// which sees it as opened by its peer. Returns the remote side's id, or
    /// `None` when `local` is already joined or the remote owner cannot take
    /// the stream.
    pub fn open(&mut self, local: u64, remote: &mut MuxCore) -> (r: Option<u64>)
        requires
            old(self).wf(),
            old(remote).wf(),
        ensures
            final(self).wf(),
            final(remote).wf(),
            has_local(old(self)@, local) ==> r is None && final(self)@ == old(self)@
                && final(remote)@ == old(remote)@,
            !has_local(old(self)@, local) ==> final(remote)@ == remote_open_model(old(remote)@),
            r matches Some(id) ==> final(self)@ == old(self)@.push((local, id)),
            r is None ==> final(self)@ == old(self)@,
            !has_local(old(self)@, local) && old(remote)@.status == OwnerStatus::Running
                && old(remote)@.next_stream < u64::MAX && !has_remote(
                old(self)@,
                old(remote)@.next_stream as u64,
            ) ==> r == Some(old(remote)@.next_stream as u64),
    {
        if self.find_local(local).is_some() {
            return None;
        }
        match remote.remote_open() {
            Some(id) => {
                if self.find_remote(id).is_some() {
                    return None;
                }
                self.routes.push((local, id));
                Some(id)
            },
            None => None,
        }
    }

    /// Moves the oldest frame `from` puts on its physical channel to `to`,
    /// as bytes received on the joined stream. Returns whether `to` took
    /// them.
    pub fn carry(&mut self, from: &mut MuxCore, to: &mut MuxCore) -> (r: bool)
        requires
            old(self).wf(),
            old(from).wf(),
            old(to).wf(),
        ensures
            final(self)@ == old(self)@,
            final(from).wf(),
            final(to).wf(),
            old(from)@.outbox.len() == 0 ==> !r && final(from)@ == old(from)@ && final(to)@ == old(
                to,
            )@,
            old(from)@.outbox.len() > 0 ==> final(from)@.outbox == old(from)@.outbox.drop_first(),
            old(from)@.outbox.len() > 0 && !has_local(old(self)@, old(from)@.outbox[0].0) ==> !r
                && final(to)@ == old(to)@,
            forall|i: int|
                0 <= i < old(self)@.len() && old(from)@.outbox.len() > 0 && old(self)@[i].0 == old(
                    from,
                )@.outbox[0].0 ==> (final(to)@, r) == receive_model(
                    old(to)@,
                    old(self)@[i].1,
                    old(from)@.outbox[0].1,
                ),
    {
        match from.next_frame() {
            None => false,
            Some((id, data)) => match self.find_local(id) {
                None => false,
                Some(i) => {
                    let remote = self.routes[i].1;
                    to.receive(remote, data.as_slice())
                },
            },
        }
    }
}

} // verus!
