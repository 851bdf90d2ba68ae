//! The three capability levels of a channel: basic, secure and multiplexed.
//!
//! A secure channel is only made by a successful authentication, and a
//! multiplexed one only from a secure one; identities never change after.
use vstd::prelude::*;
use crate::crypto::{PubKey, SecretKey, SigError};
use crate::errors::{ReadError, UpgradeError, WriteError};
use crate::mux::{CloseOutcome, MuxCore, close_model, start_model};
use crate::PeerID;

verus! {

/// Read/write/close rights over a raw channel. Closing releases the raw
/// channel once; later reads and writes fail.
pub struct BasicChannel {
    closed: bool,
}

impl BasicChannel {
    pub closed spec fn is_closed(&self) -> bool {
        self.closed
    }

    /// Rights over a freshly obtained raw channel.
    pub fn new() -> (r: BasicChannel)
        ensures
            !r.is_closed(),
    {
        BasicChannel { closed: false }
    }

    pub fn closed(&self) -> (r: bool)
        ensures
            r == self.is_closed(),
    {
        self.closed
    }

    /// Closes the channel. Returns whether this call released the raw
    /// channel: only the first close does; a later one is a no-op.
    pub fn close(&mut self) -> (released: bool)
        ensures
            final(self).is_closed(),
            released == !old(self).is_closed(),
    {
        let released = !self.closed;
        self.closed = true;
        released
    }

    /// Moves the rights out of this handle into a new one; this handle is
    /// left closed.
    pub fn transfer(&mut self) -> (r: BasicChannel)
        ensures
            r.is_closed() == old(self).is_closed(),
            final(self).is_closed(),
    {
        let r = BasicChannel { closed: self.closed };
        self.closed = true;
        r
    }

    /// Whether a read may go ahead.
    pub fn check_read(&self) -> (r: Result<(), ReadError>)
        ensures
            r is Ok <==> !self.is_closed(),
    {
        if self.closed {
            Err(ReadError)
        } else {
            Ok(())
        }
    }

    /// Whether a write may go ahead.
    pub fn check_write(&self) -> (r: Result<(), WriteError>)
        ensures
            r is Ok <==> !self.is_closed(),
    {
        if self.closed {
            Err(WriteError)
        } else {
            Ok(())
        }
    }
}

/// The identities that an authenticated channel carries.
pub struct IdentityModel {
    pub local_peer: Seq<char>,
    pub local_sk: Seq<u8>,
    pub remote_peer: Seq<char>,
    pub remote_pk: Seq<u8>,
}

/// Access to the identities of an authenticated channel.
pub trait Secure {
    /// The identities the channel carries.
    spec fn identities(&self) -> IdentityModel;

    fn local_peer(&self) -> (r: PeerID)
        ensures
            r@ == self.identities().local_peer,
    ;

    fn local_sk(&self) -> (r: SecretKey)
        ensures
            r@ == self.identities().local_sk,
    ;

    fn remote_peer(&self) -> (r: PeerID)
        ensures
            r@ == self.identities().remote_peer,
    ;

    fn remote_pk(&self) -> (r: PubKey)
        ensures
            r@ == self.identities().remote_pk,
    ;
}

/// A copy of `v`.
pub fn copy_bytes(v: &Vec<u8>) -> (r: Vec<u8>)
    ensures
        r@ == v@,
{
    let mut out: Vec<u8> = Vec::new();
    let mut i: usize = 0;
    while i < v.len()
        invariant
            0 <= i <= v@.len(),
            out@ == v@.subrange(0, i as int),
        decreases v@.len() - i,
    {
        out.push(v[i]);
        i = i + 1;
    }
    assert(out@ =~= v@);
    out
}

/// A basic channel with verified peer identities.
pub struct SecureChannel {
    basic: BasicChannel,
    local_peer: PeerID,
    local_sk: SecretKey,
    remote_peer: PeerID,
    remote_pk: PubKey,
}

/// The outcome of authenticating a remote peer that claimed identity
/// `claim_peer` with key `claim_pk`, where checking its signature gave
/// `verified`: the identities of the secure channel, or `None` when the
/// check did not confirm the signature or the channel was already closed.
pub open spec fn authenticate_model(
    closed: bool,
    local_peer: Seq<char>,
    local_sk: Seq<u8>,
    claim_peer: Seq<char>,
    claim_pk: Seq<u8>,
    verified: Result<bool, SigError>,
) -> Option<IdentityModel> {
    if !closed && verified == Ok::<bool, SigError>(true) {
        Some(
            IdentityModel { local_peer, local_sk, remote_peer: claim_peer, remote_pk: claim_pk },
        )
    } else {
        None
    }
}

/// The outcome of negotiating multiplexing over a secure channel with
/// identities `id`: the same identities, or `None` when the negotiation was
/// not agreed or the channel was already closed.
pub open spec fn mux_upgrade_model(closed: bool, id: IdentityModel, agreed: bool) -> Option<
    IdentityModel,
> {
    if !closed && agreed {
        Some(id)
    } else {
        None
    }
}

impl SecureChannel {
    pub closed spec fn identity(&self) -> IdentityModel {
        IdentityModel {
            local_peer: self.local_peer@,
            local_sk: self.local_sk@,
            remote_peer: self.remote_peer@,
            remote_pk: self.remote_pk@,
        }
    }

    pub closed spec fn is_closed(&self) -> bool {
        self.basic.is_closed()
    }

    /// Completes a security handshake over `basic`: the remote peer claimed
    /// `claim_peer` with key `claim_pk`, and checking its signature with that
    /// key gave `verified`.
    pub(crate) fn authenticate(
        basic: BasicChannel,
        local_peer: PeerID,
        local_sk: SecretKey,
        claim_peer: PeerID,
        claim_pk: PubKey,
        verified: Result<bool, SigError>,
    ) -> (r: Result<SecureChannel, UpgradeError>)
        ensures
            match r {
                Ok(c) => authenticate_model(
                    basic.is_closed(),
                    local_peer@,
                    local_sk@,
                    claim_peer@,
                    claim_pk@,
                    verified,
                ) == Some(c.identity()) && !c.is_closed(),
                Err(_) => authenticate_model(
                    basic.is_closed(),
                    local_peer@,
                    local_sk@,
                    claim_peer@,
                    claim_pk@,
                    verified,
                ) is None,
            },
    {
        if basic.closed() {
            return Err(UpgradeError);
        }
        match verified {
            Ok(true) => Ok(
                SecureChannel {
                    basic,
                    local_peer,
                    local_sk,
                    remote_peer: claim_peer,
                    remote_pk: claim_pk,
                },
            ),
            _ => Err(UpgradeError),
        }
    }

    pub fn close(&mut self) -> (released: bool)
        ensures
            final(self).is_closed(),
            released == !old(self).is_closed(),
            final(self).identity() == old(self).identity(),
    {
        self.basic.close()
    }

    /// Moves the channel out of this handle, leaving a closed handle with no
    /// identities in its place.
    pub fn transfer(&mut self) -> (r: SecureChannel)
        ensures
            r == *old(self),
            final(self).is_closed(),
    {
        let mut spent = SecureChannel {
            basic: BasicChannel { closed: true },
            local_peer: String::new(),
            local_sk: Vec::new(),
            remote_peer: String::new(),
            remote_pk: Vec::new(),
        };
        core::mem::swap(&mut spent, self);
        spent
    }
}

impl Secure for SecureChannel {
    open spec fn identities(&self) -> IdentityModel {
        self.identity()
    }

    fn local_peer(&self) -> (r: PeerID) {
        self.local_peer.clone()
    }

    fn local_sk(&self) -> (r: SecretKey) {
        copy_bytes(&self.local_sk)
    }

    fn remote_peer(&self) -> (r: PeerID) {
        self.remote_peer.clone()
    }

    fn remote_pk(&self) -> (r: PubKey) {
        copy_bytes(&self.remote_pk)
    }
}

impl SecureChannel {
    /// The remote peer's identity.
    pub fn remote_peer_id(&self) -> (r: PeerID)
        ensures
            r@ == self.identity().remote_peer,
    {
        self.remote_peer.clone()
    }

    /// The local peer's identity.
    pub fn local_peer_id(&self) -> (r: PeerID)
        ensures
            r@ == self.identity().local_peer,
    {
        self.local_peer.clone()
    }
}

/// A secure channel whose physical I/O is driven by a single owner.
pub struct MuxChannel {
    secure: SecureChannel,
    owner: MuxCore,
}

impl MuxChannel {
    pub closed spec fn identity(&self) -> IdentityModel {
        self.secure.identity()
    }

    pub closed spec fn is_closed(&self) -> bool {
        self.secure.is_closed()
    }

    /// The owner of this channel.
    pub closed spec fn owner(&self) -> MuxCore {
        self.owner
    }

    /// Access to the owner; the identities stay as they are.
    pub fn owner_mut(&mut self) -> (r: &mut MuxCore)
        ensures
            *r == old(self).owner(),
            final(self).owner() == *final(r),
            final(self).identity() == old(self).identity(),
            final(self).is_closed() == old(self).is_closed(),
    {
        &mut self.owner
    }

    /// Negotiates multiplexing over `secure`; `agreed` is whether both
    /// sides settled on a multiplexer. The new owner queues at most
    /// `capacity` requests.
    pub fn upgrade(secure: SecureChannel, agreed: bool, capacity: usize) -> (r: Result<
        MuxChannel,
        UpgradeError,
    >)
        requires
            capacity > 0,
        ensures
            match r {
                Ok(c) => mux_upgrade_model(secure.is_closed(), secure.identity(), agreed) == Some(
                    c.identity(),
                ) && !c.is_closed() && c.owner()@ == start_model(capacity as nat) && c.owner().wf(),
                Err(_) => mux_upgrade_model(secure.is_closed(), secure.identity(), agreed) is None,
            },
    {
        if secure.basic.closed() || !agreed {
            return Err(UpgradeError);
        }
        Ok(MuxChannel { secure, owner: MuxCore::new(capacity) })
    }

    /// The combined handshake: authentication and multiplexing negotiated
    /// together over `basic`.
    pub(crate) fn upgrade_full(
        basic: BasicChannel,
        local_peer: PeerID,
        local_sk: SecretKey,
        claim_peer: PeerID,
        claim_pk: PubKey,
        verified: Result<bool, SigError>,
        agreed: bool,
        capacity: usize,
    ) -> (r: Result<MuxChannel, UpgradeError>)
        requires
            capacity > 0,
        ensures
            ({
                let sec = authenticate_model(
                    basic.is_closed(),
                    local_peer@,
                    local_sk@,
                    claim_peer@,
                    claim_pk@,
                    verified,
                );
                match r {
                    Ok(c) => sec is Some && mux_upgrade_model(false, sec.unwrap(), agreed) == Some(
                        c.identity(),
                    ) && c.owner()@ == start_model(capacity as nat) && c.owner().wf(),
                    Err(_) => sec is None || mux_upgrade_model(false, sec.unwrap(), agreed) is None,
                }
            }),
    {
        match SecureChannel::authenticate(basic, local_peer, local_sk, claim_peer, claim_pk, verified) {
            Ok(s) => MuxChannel::upgrade(s, agreed, capacity),
            Err(e) => Err(e),
        }
    }

    /// The remote peer's identity.
    pub fn remote_peer_id(&self) -> (r: PeerID)
        ensures
            r@ == self.identity().remote_peer,
    {
        self.secure.remote_peer_id()
    }

    /// Closes the channel: the owner fails what is still pending and the
    /// raw channel is released. A second close changes nothing and reports
    /// that the channel was already closed.
    pub fn close(&mut self) -> (r: CloseOutcome)
        requires
            old(self).owner().wf(),
        ensures
            (final(self).owner()@, r) == close_model(old(self).owner()@),
            final(self).owner().wf(),
            final(self).is_closed(),
            final(self).identity() == old(self).identity(),
    {
        let r = self.owner.close();
        self.secure.close();
        r
    }
}

impl Secure for MuxChannel {
    open spec fn identities(&self) -> IdentityModel {
        self.identity()
    }

    fn local_peer(&self) -> (r: PeerID) {
        self.secure.local_peer()
    }

    fn local_sk(&self) -> (r: SecretKey) {
        self.secure.local_sk()
    }

    fn remote_peer(&self) -> (r: PeerID) {
        self.secure.remote_peer()
    }

    fn remote_pk(&self) -> (r: PubKey) {
        self.secure.remote_pk()
    }
}

/// Authentication is carried through the whole upgrade chain: after a
/// successful security upgrade and a successful multiplexing upgrade, the
/// multiplexed channel's remote peer is exactly the identity the remote side
/// proved with its key pair during the handshake, and the local identity is
/// the one the handshake started from.
pub proof fn lemma_upgrade_chain_authenticates(
    local_peer: Seq<char>,
    local_sk: Seq<u8>,
    claim_peer: Seq<char>,
    claim_pk: Seq<u8>,
    verified: Result<bool, SigError>,
    agreed: bool,
    sec: IdentityModel,
    mux: IdentityModel,
)
    requires
        authenticate_model(false, local_peer, local_sk, claim_peer, claim_pk, verified) == Some(sec),
        mux_upgrade_model(false, sec, agreed) == Some(mux),
    ensures
        verified == Ok::<bool, SigError>(true),
        mux.remote_peer == claim_peer,
        mux.remote_pk == claim_pk,
        mux.local_peer == local_peer,
        mux == sec,
{
}

} // verus!
