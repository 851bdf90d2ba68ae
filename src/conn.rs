//! The user-facing connection: a multiplexed channel with its addressing
//! metadata.
use vstd::prelude::*;
use crate::channel::MuxChannel;
use crate::listen::{ListenState, ListenStream};
use crate::multiaddr::{Multiaddr, Protocol};
use crate::mux::{CloseOutcome, MuxCore, close_model};
use crate::reqres::ReqRes;
use crate::stream::{AcceptStream, OpenStream};
use crate::{ConnID, Direction};

verus! {

/// Opening and accepting logical streams.
pub trait Multiplex {
    /// A fresh request to open an outbound stream.
    fn open_stream(&self) -> (r: OpenStream)
        ensures
            r.state() == ReqRes::WaitSend,
    ;

    /// A fresh request to accept the next inbound stream.
    fn accept_stream(&self) -> (r: AcceptStream)
        ensures
            r.state() == ReqRes::WaitSend,
    ;
}

impl Multiplex for MuxChannel {
    fn open_stream(&self) -> (r: OpenStream) {
        OpenStream::new()
    }

    fn accept_stream(&self) -> (r: AcceptStream) {
        AcceptStream::new()
    }
}

/// A snapshot of a connection's metadata, taken on demand and never updated.
pub struct ConnInfo {
    pub id: ConnID,
    pub direction: Direction,
    /// When the connection was opened, in milliseconds since the Unix epoch.
    pub opened: i64,
    pub local_addr: Multiaddr,
    pub remote_addr: Multiaddr,
}

/// A multiplexed channel together with its addresses.
pub struct Conn {
    mux: MuxChannel,
    id: ConnID,
    direction: Direction,
    opened: i64,
    local_addr: Multiaddr,
    remote_addr: Multiaddr,
}

impl Conn {
    pub closed spec fn channel(&self) -> MuxChannel {
        self.mux
    }

    pub closed spec fn meta(&self) -> (Seq<char>, Direction, i64, Seq<Protocol>, Seq<Protocol>) {
        (self.id@, self.direction, self.opened, self.local_addr.parts@, self.remote_addr.parts@)
    }

    pub fn new(
        mux: MuxChannel,
        id: ConnID,
        direction: Direction,
        opened: i64,
        local_addr: Multiaddr,
        remote_addr: Multiaddr,
    ) -> (r: Conn)
        ensures
            r.channel() == mux,
            r.meta() == (id@, direction, opened, local_addr.parts@, remote_addr.parts@),
    {
        Conn { mux, id, direction, opened, local_addr, remote_addr }
    }

    /// A snapshot of this connection's metadata.
    pub fn info(&self) -> (r: ConnInfo)
        ensures
            (r.id@, r.direction, r.opened, r.local_addr.parts@, r.remote_addr.parts@)
                == self.meta(),
    {
        ConnInfo {
            id: self.id.clone(),
            direction: self.direction,
            opened: self.opened,
            local_addr: self.local_addr.duplicate(),
            remote_addr: self.remote_addr.duplicate(),
        }
    }

    /// The remote peer's identity.
    pub fn remote_peer_id(&self) -> (r: String)
        ensures
            r@ == self.channel().identity().remote_peer,
    {
        self.mux.remote_peer_id()
    }

    /// A fresh request to open an outbound stream.
    pub fn open_stream(&self) -> (r: OpenStream)
        ensures
            r.state() == ReqRes::WaitSend,
    {
        OpenStream::new()
    }

    /// A fresh request to accept the next inbound stream.
    pub fn accept_stream(&self) -> (r: AcceptStream)
        ensures
            r.state() == ReqRes::WaitSend,
    {
        AcceptStream::new()
    }

    /// The inbound streams of this connection, starting now.
    pub fn listen_streams(&self) -> (r: ListenStream)
        ensures
            r.state() == ListenState::Accepting(ReqRes::WaitSend),
            r.inv(),
    {
        ListenStream::new()
    }

    /// Access to the owner of the multiplexed channel; the identities and
    /// the metadata stay as they are.
    pub fn owner_mut(&mut self) -> (r: &mut MuxCore)
        ensures
            *r == old(self).channel().owner(),
            final(self).channel().owner() == *final(r),
            final(self).channel().identity() == old(self).channel().identity(),
            final(self).meta() == old(self).meta(),
    {
        self.mux.owner_mut()
    }

    /// Closes the connection; see `MuxChannel::close`.
    pub fn close(&mut self) -> (r: CloseOutcome)
        requires
            old(self).channel().owner().wf(),
        ensures
            (final(self).channel().owner()@, r) == close_model(old(self).channel().owner()@),
            final(self).channel().owner().wf(),
            final(self).channel().is_closed(),
            final(self).meta() == old(self).meta(),
    {
        self.mux.close()
    }
}

impl Multiplex for Conn {
    fn open_stream(&self) -> (r: OpenStream) {
        OpenStream::new()
    }

    fn accept_stream(&self) -> (r: AcceptStream) {
        AcceptStream::new()
    }
}

} // verus!
