use p2p_core::channel::{BasicChannel, MuxChannel, Secure};
use p2p_core::conn::Conn;
use p2p_core::crypto::SigError;
use p2p_core::errors::UpgradeError;
use p2p_core::listen::ListenStream;
use p2p_core::multiaddr::{Multiaddr, Protocol};
use p2p_core::mux::{MuxCore, PhysOutcome};
use p2p_core::reqres::Progress;
use p2p_core::stream::OpenStream;
use p2p_core::stub::StubLink;
use p2p_core::transport::{
    StubFullUpgrader, StubMuxUpgrader, StubSecUpgrader, Upgrade, UpgradeFut,
};
use p2p_core::Direction;

fn sec_upgrader(local: &str, remote: &str, verified: Result<bool, SigError>) -> StubSecUpgrader {
    StubSecUpgrader {
        local_peer: local.to_string(),
        local_sk: vec![1, 2, 3],
        claim_peer: remote.to_string(),
        claim_pk: vec![9, 8, 7],
        verified,
    }
}

fn upgrade_chain(local: &str, remote: &str) -> MuxChannel {
    let mut fut = UpgradeFut::new(sec_upgrader(local, remote, Ok(true)), BasicChannel::new());
    let secure = match fut.poll() {
        Progress::Ready(Ok(s)) => s,
        _ => panic!("security upgrade failed"),
    };
    let mut fut = UpgradeFut::new(StubMuxUpgrader { agreed: true, capacity: 8 }, secure);
    match fut.poll() {
        Progress::Ready(Ok(m)) => m,
        _ => panic!("mux upgrade failed"),
    }
}

fn addr(port: u16) -> Multiaddr {
    Multiaddr::new(vec![Protocol::Ip4(0x7f00_0001), Protocol::Tcp(port)])
}

#[test]
fn upgrade_chain_keeps_the_authenticated_remote_identity() {
    let mux = upgrade_chain("client", "server");
    assert_eq!(mux.remote_peer_id(), "server");
    let conn = Conn::new(mux, "c1".to_string(), Direction::OUT, 1_000, addr(1), addr(2));
    assert_eq!(conn.remote_peer_id(), "server");
    let info = conn.info();
    assert_eq!(info.id, "c1");
    assert_eq!(info.direction, Direction::OUT);
    assert_eq!(info.opened, 1_000);
    assert_eq!(info.local_addr.parts, vec![Protocol::Ip4(0x7f00_0001), Protocol::Tcp(1)]);
    assert_eq!(info.remote_addr.parts, vec![Protocol::Ip4(0x7f00_0001), Protocol::Tcp(2)]);
}

#[test]
fn security_upgrade_fails_without_a_valid_signature() {
    let mut up = sec_upgrader("a", "b", Ok(false));
    let mut basic = BasicChannel::new();
    assert!(matches!(up.poll_upgrade(&mut basic), Progress::Ready(Err(UpgradeError))));
    assert!(basic.closed());
    let mut up = sec_upgrader("a", "b", Err(SigError::Unspecified));
    let mut basic = BasicChannel::new();
    assert!(matches!(up.poll_upgrade(&mut basic), Progress::Ready(Err(UpgradeError))));
}

#[test]
fn closed_channel_cannot_be_upgraded() {
    let mut basic = BasicChannel::new();
    assert!(basic.close());
    assert!(!basic.close());
    assert!(basic.check_read().is_err());
    assert!(basic.check_write().is_err());
    let up = sec_upgrader("a", "b", Ok(true));
    assert!(up.secure(&mut basic).is_err());
}

#[test]
fn mux_upgrade_needs_agreement() {
    let mut fut = UpgradeFut::new(sec_upgrader("a", "b", Ok(true)), BasicChannel::new());
    let secure = match fut.poll() {
        Progress::Ready(Ok(s)) => s,
        _ => panic!("security upgrade failed"),
    };
    let mut fut = UpgradeFut::new(StubMuxUpgrader { agreed: false, capacity: 8 }, secure);
    assert!(matches!(fut.poll(), Progress::Ready(Err(UpgradeError))));
}

#[test]
fn full_upgrade_authenticates_and_multiplexes() {
    let mut up = StubFullUpgrader {
        sec: sec_upgrader("a", "peer-b", Ok(true)),
        mux: StubMuxUpgrader { agreed: true, capacity: 2 },
    };
    let mut basic = BasicChannel::new();
    match up.poll_upgrade(&mut basic) {
        Progress::Ready(Ok(m)) => assert_eq!(m.remote_peer_id(), "peer-b"),
        _ => panic!("full upgrade failed"),
    }
    let refused = StubFullUpgrader {
        sec: sec_upgrader("a", "c", Ok(true)),
        mux: StubMuxUpgrader { agreed: false, capacity: 2 },
    };
    let mut fut = UpgradeFut::new(refused, BasicChannel::new());
    assert!(matches!(fut.poll(), Progress::Ready(Err(UpgradeError))));
    assert!(fut.done);
    assert!(fut.upgradee.closed());
    let no_room = StubFullUpgrader {
        sec: sec_upgrader("a", "c", Ok(true)),
        mux: StubMuxUpgrader { agreed: true, capacity: 0 },
    };
    let mut fut = UpgradeFut::new(no_room, BasicChannel::new());
    assert!(matches!(fut.poll(), Progress::Ready(Err(UpgradeError))));
    assert!(!fut.upgradee.closed());
}

#[test]
fn mux_channel_close_is_idempotent() {
    let mut mux = upgrade_chain("a", "b");
    assert_eq!(mux.close(), p2p_core::mux::CloseOutcome::Closed);
    assert_eq!(mux.close(), p2p_core::mux::CloseOutcome::AlreadyClosed);
    assert_eq!(mux.remote_peer_id(), "b");
}

/// Opens one stream on the client and carries it to the server; returns the
/// client's id for it.
fn open_one(client: &mut MuxCore, server: &mut MuxCore, link: &mut StubLink) -> u64 {
    let mut open = OpenStream::new();
    assert_eq!(open.poll(client), Progress::Pending);
    client.service(PhysOutcome::Done);
    let id = match open.poll(client) {
        Progress::Ready(Ok(id)) => id,
        _ => panic!("open failed"),
    };
    assert!(link.open(id, server).is_some());
    id
}

#[test]
fn three_streams_carry_their_payloads_in_order() {
    let mut client = Conn::new(upgrade_chain("client", "server"), "c".to_string(), Direction::OUT, 0, addr(1), addr(2));
    let mut server = Conn::new(upgrade_chain("server", "client"), "s".to_string(), Direction::IN, 0, addr(2), addr(1));
    let mut link = StubLink::new();
    let payloads: [&[u8]; 3] = [b"alpha", b"bravo!", b"charlie"];
    for p in payloads.iter() {
        let id = open_one(client.owner_mut(), server.owner_mut(), &mut link);
        assert_eq!(client.owner_mut().write(id, p), Ok(p.len()));
    }
    for _ in 0..3 {
        assert!(link.carry(client.owner_mut(), server.owner_mut()));
    }
    assert!(!link.carry(client.owner_mut(), server.owner_mut()));
    let mut listen = server.listen_streams();
    let mut received: Vec<Vec<u8>> = Vec::new();
    for _ in 0..3 {
        assert_eq!(listen.poll_next(server.owner_mut()), Progress::Pending);
        server.owner_mut().service(PhysOutcome::Done);
        match listen.poll_next(server.owner_mut()) {
            Progress::Ready(Some(id)) => received.push(server.owner_mut().read(id, 1024).unwrap()),
            _ => panic!("expected an inbound stream"),
        }
    }
    assert_eq!(received, vec![b"alpha".to_vec(), b"bravo!".to_vec(), b"charlie".to_vec()]);
    assert_eq!(received.concat(), b"alphabravo!charlie".to_vec());
}

#[test]
fn stalled_open_keeps_stream_order() {
    let mut client = MuxCore::new(8);
    let mut server = MuxCore::new(8);
    let mut link = StubLink::new();
    let mut opens = vec![OpenStream::new(), OpenStream::new(), OpenStream::new()];
    for o in opens.iter_mut() {
        assert_eq!(o.poll(&mut client), Progress::Pending);
    }
    client.service(PhysOutcome::Done);
    let first = match opens[0].poll(&mut client) {
        Progress::Ready(Ok(id)) => id,
        _ => panic!("first open failed"),
    };
    assert!(link.open(first, &mut server).is_some());
    // The second stream's negotiation has not been serviced yet.
    assert_eq!(opens[1].poll(&mut client), Progress::Pending);
    assert_eq!(opens[2].poll(&mut client), Progress::Pending);
    client.service(PhysOutcome::Done);
    assert_eq!(opens[2].poll(&mut client), Progress::Pending);
    client.service(PhysOutcome::Done);
    let second = match opens[1].poll(&mut client) {
        Progress::Ready(Ok(id)) => id,
        _ => panic!("second open failed"),
    };
    let third = match opens[2].poll(&mut client) {
        Progress::Ready(Ok(id)) => id,
        _ => panic!("third open failed"),
    };
    assert!(link.open(second, &mut server).is_some());
    assert!(link.open(third, &mut server).is_some());
    let mut listen = ListenStream::new();
    let mut seen = Vec::new();
    for _ in 0..3 {
        assert_eq!(listen.poll_next(&mut server), Progress::Pending);
        server.service(PhysOutcome::Done);
        match listen.poll_next(&mut server) {
            Progress::Ready(Some(id)) => seen.push(id),
            _ => panic!("expected an inbound stream"),
        }
    }
    assert_eq!((first, second, third), (0, 1, 2));
    assert_eq!(seen, vec![0, 1, 2]);
}

#[test]
fn link_carries_frames_of_joined_streams_only() {
    let mut client = MuxCore::new(2);
    let mut server = MuxCore::new(2);
    let mut link = StubLink::new();
    assert!(!link.carry(&mut client, &mut server));
    assert_eq!(client.remote_open(), Some(0));
    assert_eq!(client.write(0, b"lost"), Ok(4));
    assert!(!link.carry(&mut client, &mut server));
    assert_eq!(link.open(0, &mut server), Some(0));
    assert_eq!(link.open(0, &mut server), None);
    assert_eq!(client.write(0, b"hello"), Ok(5));
    assert!(link.carry(&mut client, &mut server));
    assert_eq!(server.read(0, 2).unwrap(), b"he".to_vec());
    assert_eq!(server.read(0, 10).unwrap(), b"llo".to_vec());
    assert_eq!(server.read(0, 10).unwrap(), Vec::<u8>::new());
}

#[test]
fn security_upgrader_keeps_its_identities_across_activations() {
    let up = sec_upgrader("me", "you", Ok(true));
    let mut first = BasicChannel::new();
    let mut second = BasicChannel::new();
    let a = up.secure(&mut first).ok().unwrap();
    let b = up.secure(&mut second).ok().unwrap();
    assert_eq!(a.remote_peer_id(), "you");
    assert_eq!(b.remote_peer_id(), "you");
    assert_eq!(b.local_peer_id(), "me");
    assert!(first.closed());
    assert!(up.secure(&mut first).is_err());
}

#[test]
fn secure_trait_gives_the_identities() {
    let mux = upgrade_chain("me", "you");
    assert_eq!(mux.local_peer(), "me");
    assert_eq!(mux.remote_peer(), "you");
    assert_eq!(mux.local_sk(), vec![1, 2, 3]);
    assert_eq!(mux.remote_pk(), vec![9, 8, 7]);
}
