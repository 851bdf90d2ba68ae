//! The upgrade engine, and the transports' view of the addresses they take.
//!
//! An upgrade turns a channel of one capability level into one of a richer
//! level, possibly over several activations; `UpgradeFut` drives one to
//! completion without the caller seeing its steps.
use vstd::prelude::*;
use crate::channel::{
    BasicChannel, IdentityModel, MuxChannel, SecureChannel, authenticate_model, copy_bytes,
    mux_upgrade_model,
};
use crate::crypto::{PubKey, SecretKey, SigError};
use crate::errors::UpgradeError;
use crate::multiaddr::{Multiaddr, PortKind, Protocol, SocketAddr, check_model};
use crate::mux::start_model;
use crate::reqres::Progress;
use crate::PeerID;

verus! {

/// A transformation of a channel of type `Input` into an `Output`. State
/// between activations lives in the upgrader, not in the caller.
pub trait Upgrade<Input>: Sized {
    type Output;

    /// One activation of upgrader `u` on channel `c` may leave them as `u2`
    /// and `c2` with result `r`.
    spec fn step(
        u: Self,
        c: Input,
        u2: Self,
        c2: Input,
        r: Progress<Result<Self::Output, UpgradeError>>,
    ) -> bool;

    fn poll_upgrade(&mut self, conn: &mut Input) -> (r: Progress<Result<Self::Output, UpgradeError>>)
        ensures
            Self::step(*old(self), *old(conn), *final(self), *final(conn), r),
    ;
}

/// An upgrader together with the channel it upgrades, driven as one value.
/// Once it has completed it is done: an attempt that failed is not retried,
/// and a new attempt needs a new channel and a new upgrader.
pub struct UpgradeFut<C, U> {
    pub upgrader: U,
    pub upgradee: C,
    pub done: bool,
}

impl<C, U: Upgrade<C>> UpgradeFut<C, U> {
    pub fn new(upgrader: U, conn: C) -> (r: UpgradeFut<C, U>)
        ensures
            r.upgrader == upgrader,
            r.upgradee == conn,
            !r.done,
    {
        UpgradeFut { upgrader, upgradee: conn, done: false }
    }

    /// Activates the upgrade once: exactly one activation of the upgrader on
    /// its channel, whose suspension or result is handed back unchanged.
    pub fn poll(&mut self) -> (r: Progress<Result<U::Output, UpgradeError>>)
        requires
            !old(self).done,
        ensures
            U::step(
                old(self).upgrader,
                old(self).upgradee,
                final(self).upgrader,
                final(self).upgradee,
                r,
            ),
            final(self).done == (r is Ready),
    {
        let r = self.upgrader.poll_upgrade(&mut self.upgradee);
        self.done = match r {
            Progress::Ready(_) => true,
            Progress::Pending => false,
        };
        r
    }
}

/// A security upgrade whose handshake has already been carried out: the
/// remote peer claimed `claim_peer` with key `claim_pk`, and checking its
/// signature gave `verified`.
pub struct StubSecUpgrader {
    pub local_peer: PeerID,
    pub local_sk: SecretKey,
    pub claim_peer: PeerID,
    pub claim_pk: PubKey,
    pub verified: Result<bool, SigError>,
}

/// A multiplexing upgrade whose negotiation ended in `agreed`; the new owner
/// queues at most `capacity` requests.
pub struct StubMuxUpgrader {
    pub agreed: bool,
    pub capacity: usize,
}

/// The combined upgrade: security and multiplexing together.
pub struct StubFullUpgrader {
    pub sec: StubSecUpgrader,
    pub mux: StubMuxUpgrader,
}

impl StubSecUpgrader {
    /// Completes the handshake over `conn`, taking the channel out of it.
    pub fn secure(&self, conn: &mut BasicChannel) -> (r: Result<SecureChannel, UpgradeError>)
        ensures
            final(conn).is_closed(),
            match r {
                Ok(c) => authenticate_model(
                    old(conn).is_closed(),
                    self.local_peer@,
                    self.local_sk@,
                    self.claim_peer@,
                    self.claim_pk@,
                    self.verified,
                ) == Some(c.identity()) && !c.is_closed(),
                Err(_) => authenticate_model(
                    old(conn).is_closed(),
                    self.local_peer@,
                    self.local_sk@,
                    self.claim_peer@,
                    self.claim_pk@,
                    self.verified,
                ) is None,
            },
    {
        let basic = conn.transfer();
        SecureChannel::authenticate(
            basic,
            self.local_peer.clone(),
            copy_bytes(&self.local_sk),
            self.claim_peer.clone(),
            copy_bytes(&self.claim_pk),
            self.verified,
        )
    }
}

/// The identities a security upgrade by `u` over a channel that was closed
/// or not (`closed`) yields, if it succeeds.
pub open spec fn sec_outcome(u: StubSecUpgrader, closed: bool) -> Option<IdentityModel> {
    authenticate_model(
        closed,
        u.local_peer@,
        u.local_sk@,
        u.claim_peer@,
        u.claim_pk@,
        u.verified,
    )
}

/// One activation of a security upgrade: it completes at once, takes the
/// channel, keeps the upgrader, and succeeds exactly when the handshake
/// authenticated the remote peer.
pub open spec fn sec_step(
    u: StubSecUpgrader,
    c: BasicChannel,
    u2: StubSecUpgrader,
    c2: BasicChannel,
    r: Progress<Result<SecureChannel, UpgradeError>>,
) -> bool {
    &&& u2 == u
    &&& c2.is_closed()
    &&& match r {
        Progress::Ready(Ok(s)) => sec_outcome(u, c.is_closed()) == Some(s.identity())
            && !s.is_closed(),
        Progress::Ready(Err(_)) => sec_outcome(u, c.is_closed()) is None,
        Progress::Pending => false,
    }
}

/// One activation of a multiplexing upgrade: with no queue capacity it fails
/// and leaves the channel alone; otherwise it completes at once, takes the
/// channel, and succeeds exactly when the negotiation was agreed over an
/// open channel, keeping its identities and starting a fresh owner.
pub open spec fn mux_step(
    u: StubMuxUpgrader,
    c: SecureChannel,
    u2: StubMuxUpgrader,
    c2: SecureChannel,
    r: Progress<Result<MuxChannel, UpgradeError>>,
) -> bool {
    &&& u2 == u
    &&& if u.capacity == 0 {
        c2 == c && r == Progress::<Result<MuxChannel, UpgradeError>>::Ready(Err(UpgradeError))
    } else {
        &&& c2.is_closed()
        &&& match r {
            Progress::Ready(Ok(m)) => mux_upgrade_model(c.is_closed(), c.identity(), u.agreed)
                == Some(m.identity()) && m.owner()@ == start_model(u.capacity as nat)
                && m.owner().wf(),
            Progress::Ready(Err(_)) => mux_upgrade_model(c.is_closed(), c.identity(), u.agreed) is None,
            Progress::Pending => false,
        }
    }
}

/// One activation of the combined upgrade: the security step and the
/// multiplexing step together, completing at once.
pub open spec fn full_step(
    u: StubFullUpgrader,
    c: BasicChannel,
    u2: StubFullUpgrader,
    c2: BasicChannel,
    r: Progress<Result<MuxChannel, UpgradeError>>,
) -> bool {
    let sec = sec_outcome(u.sec, c.is_closed());
    &&& u2 == u
    &&& if u.mux.capacity == 0 {
        c2 == c && r == Progress::<Result<MuxChannel, UpgradeError>>::Ready(Err(UpgradeError))
    } else {
        &&& c2.is_closed()
        &&& match r {
            Progress::Ready(Ok(m)) => sec is Some && mux_upgrade_model(
                false,
                sec.unwrap(),
                u.mux.agreed,
            ) == Some(m.identity()) && m.owner()@ == start_model(u.mux.capacity as nat)
                && m.owner().wf(),
            Progress::Ready(Err(_)) => sec is None || mux_upgrade_model(
                false,
                sec.unwrap(),
                u.mux.agreed,
            ) is None,
            Progress::Pending => false,
        }
    }
}

impl Upgrade<BasicChannel> for StubSecUpgrader {
    type Output = SecureChannel;

    open spec fn step(
        u: Self,
        c: BasicChannel,
        u2: Self,
        c2: BasicChannel,
        r: Progress<Result<SecureChannel, UpgradeError>>,
    ) -> bool {
        sec_step(u, c, u2, c2, r)
    }

    fn poll_upgrade(&mut self, conn: &mut BasicChannel) -> (r: Progress<Result<SecureChannel, UpgradeError>>) {
        Progress::Ready(self.secure(conn))
    }
}

impl StubMuxUpgrader {
    /// Negotiates multiplexing over `conn`, taking the channel out of it.
    pub fn multiplex(&self, conn: &mut SecureChannel) -> (r: Result<MuxChannel, UpgradeError>)
        requires
            self.capacity > 0,
        ensures
            final(conn).is_closed(),
            match r {
                Ok(c) => mux_upgrade_model(old(conn).is_closed(), old(conn).identity(), self.agreed)
                    == Some(c.identity()) && c.owner()@ == start_model(self.capacity as nat)
                    && c.owner().wf(),
                Err(_) => mux_upgrade_model(
                    old(conn).is_closed(),
                    old(conn).identity(),
                    self.agreed,
                ) is None,
            },
    {
        let secure = conn.transfer();
        MuxChannel::upgrade(secure, self.agreed, self.capacity)
    }
}

impl Upgrade<SecureChannel> for StubMuxUpgrader {
    type Output = MuxChannel;

    open spec fn step(
        u: Self,
        c: SecureChannel,
        u2: Self,
        c2: SecureChannel,
        r: Progress<Result<MuxChannel, UpgradeError>>,
    ) -> bool {
        mux_step(u, c, u2, c2, r)
    }

    fn poll_upgrade(&mut self, conn: &mut SecureChannel) -> (r: Progress<Result<MuxChannel, UpgradeError>>) {
        if self.capacity == 0 {
            return Progress::Ready(Err(UpgradeError));
        }
        Progress::Ready(self.multiplex(conn))
    }
}

impl Upgrade<BasicChannel> for StubFullUpgrader {
    type Output = MuxChannel;

    open spec fn step(
        u: Self,
        c: BasicChannel,
        u2: Self,
        c2: BasicChannel,
        r: Progress<Result<MuxChannel, UpgradeError>>,
    ) -> bool {
        full_step(u, c, u2, c2, r)
    }

    fn poll_upgrade(&mut self, conn: &mut BasicChannel) -> (r: Progress<Result<MuxChannel, UpgradeError>>) {
        if self.mux.capacity == 0 {
            return Progress::Ready(Err(UpgradeError));
        }
        let basic = conn.transfer();
        Progress::Ready(
            MuxChannel::upgrade_full(
                basic,
                self.sec.local_peer.clone(),
                copy_bytes(&self.sec.local_sk),
                self.sec.claim_peer.clone(),
                copy_bytes(&self.sec.claim_pk),
                self.sec.verified,
                self.mux.agreed,
                self.mux.capacity,
            ),
        )
    }
}

/// Driven through `UpgradeFut`, a security upgrade and then a multiplexing
/// upgrade that both succeed give a channel whose remote peer and key are
/// exactly those the remote side proved in the handshake; the combined
/// upgrade, when it succeeds, gives the same identities.
pub proof fn lemma_driven_upgrades_authenticate(
    fs: UpgradeFut<BasicChannel, StubSecUpgrader>,
    fs2: UpgradeFut<BasicChannel, StubSecUpgrader>,
    s: SecureChannel,
    fm: UpgradeFut<SecureChannel, StubMuxUpgrader>,
    fm2: UpgradeFut<SecureChannel, StubMuxUpgrader>,
    m: MuxChannel,
    ff: UpgradeFut<BasicChannel, StubFullUpgrader>,
    ff2: UpgradeFut<BasicChannel, StubFullUpgrader>,
    mf: MuxChannel,
)
    requires
        <StubSecUpgrader as Upgrade<BasicChannel>>::step(
            fs.upgrader,
            fs.upgradee,
            fs2.upgrader,
            fs2.upgradee,
            Progress::Ready(Ok(s)),
        ),
        fm.upgradee == s,
        <StubMuxUpgrader as Upgrade<SecureChannel>>::step(
            fm.upgrader,
            fm.upgradee,
            fm2.upgrader,
            fm2.upgradee,
            Progress::Ready(Ok(m)),
        ),
        <StubFullUpgrader as Upgrade<BasicChannel>>::step(
            ff.upgrader,
            ff.upgradee,
            ff2.upgrader,
            ff2.upgradee,
            Progress::Ready(Ok(mf)),
        ),
    ensures
        fs.upgrader.verified == Ok::<bool, SigError>(true),
        s.identity().remote_peer == fs.upgrader.claim_peer@,
        s.identity().remote_pk == fs.upgrader.claim_pk@,
        m.identity().remote_peer == fs.upgrader.claim_peer@,
        m.identity().remote_pk == fs.upgrader.claim_pk@,
        m.identity() == s.identity(),
        mf.identity().remote_peer == ff.upgrader.sec.claim_peer@,
        mf.identity().remote_pk == ff.upgrader.sec.claim_pk@,
{
}

/// The socket address a transport of `kind` reaches for `s`, if `s` is a
/// valid address for it.
pub open spec fn transport_target(s: Seq<Protocol>, kind: PortKind) -> Option<SocketAddr> {
    let (valid, ip, port) = check_model(s, kind);
    if valid && ip is Some && port is Some {
        Some(SocketAddr { ip: ip.unwrap(), port: port.unwrap() })
    } else {
        None
    }
}

fn target_of(addr: &Multiaddr, kind: PortKind) -> (r: Option<SocketAddr>)
    ensures
        r == transport_target(addr.parts@, kind),
{
    let (valid, ip, port) = addr.check(kind);
    if !valid {
        return None;
    }
    match (ip, port) {
        (Some(ip), Some(port)) => Some(SocketAddr { ip, port }),
        _ => None,
    }
}

/// Connection metadata of a TCP transport.
pub struct TcpConnInfo {}

/// The TCP transport.
pub struct TcpTransport {}

impl TcpTransport {
    /// The socket address to bind or connect to for `addr`, which must be of
    /// the form `/ip4/../tcp/..` or `/ip6/../tcp/..`.
    pub fn target(addr: &Multiaddr) -> (r: Option<SocketAddr>)
        ensures
            r == transport_target(addr.parts@, PortKind::Tcp),
    {
        target_of(addr, PortKind::Tcp)
    }
}

/// Connection metadata of a UDP transport.
pub struct UdpConnInfo {}

/// The UDP transport.
pub struct UdpTransport {}

impl UdpTransport {
    /// The socket address to bind for `addr`, which must be of the form
    /// `/ip4/../udp/..` or `/ip6/../udp/..`.
    pub fn target(addr: &Multiaddr) -> (r: Option<SocketAddr>)
        ensures
            r == transport_target(addr.parts@, PortKind::Udp),
    {
        target_of(addr, PortKind::Udp)
    }
}

/// An in-memory transport that accepts every address.
pub struct StubTransport {}

/// The listener of the in-memory transport.
pub struct StubListen;

impl StubTransport {
    pub fn is_valid_multiaddr(_addr: &Multiaddr) -> (r: bool)
        ensures
            r,
    {
        true
    }
}

} // verus!
