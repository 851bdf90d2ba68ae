use p2p_core::crypto::{InvalidKeyError, KeyType, SigError};
use p2p_core::errors::{
    AcceptStreamError, CloseError, ListenError, OpenStreamError, ReadError, UpgradeError,
    WriteError,
};
use p2p_core::multiaddr::{ma_to_tcp_ip_sock_addr, IpAddr, Multiaddr, PortKind, Protocol, SocketAddr};
use p2p_core::transport::{StubTransport, TcpTransport, UdpTransport};

const LOCALHOST: u32 = 0x7f00_0001;

#[test]
fn tcp_address_gives_socket_address() {
    let a = Multiaddr::new(vec![Protocol::Ip4(LOCALHOST), Protocol::Tcp(8080)]);
    assert_eq!(
        TcpTransport::target(&a),
        Some(SocketAddr { ip: IpAddr::V4(LOCALHOST), port: 8080 })
    );
    assert_eq!(UdpTransport::target(&a), None);
    assert_eq!(a.check(PortKind::Tcp), (true, Some(IpAddr::V4(LOCALHOST)), Some(8080)));
}

#[test]
fn udp_address_gives_socket_address() {
    let a = Multiaddr::new(vec![Protocol::Ip6(1), Protocol::Other, Protocol::Udp(53), Protocol::Udp(54)]);
    assert_eq!(UdpTransport::target(&a), Some(SocketAddr { ip: IpAddr::V6(1), port: 53 }));
    assert_eq!(a.check(PortKind::Tcp), (false, Some(IpAddr::V6(1)), None));
}

#[test]
fn address_must_start_with_ip() {
    let a = Multiaddr::new(vec![Protocol::Tcp(80), Protocol::Ip4(LOCALHOST), Protocol::Tcp(80)]);
    assert_eq!(a.check(PortKind::Tcp), (false, None, None));
    assert_eq!(TcpTransport::target(&a), None);
    let empty = Multiaddr::new(vec![]);
    assert_eq!(empty.check(PortKind::Udp), (false, None, None));
    assert!(StubTransport::is_valid_multiaddr(&empty));
}

#[test]
fn socket_address_from_address_tail() {
    let a = Multiaddr::new(vec![Protocol::Other, Protocol::Ip4(LOCALHOST), Protocol::Tcp(4001)]);
    assert_eq!(
        ma_to_tcp_ip_sock_addr(&a),
        Some(SocketAddr { ip: IpAddr::V4(LOCALHOST), port: 4001 })
    );
    let b = Multiaddr::new(vec![Protocol::Ip4(LOCALHOST), Protocol::Udp(4001)]);
    assert_eq!(ma_to_tcp_ip_sock_addr(&b), None);
    let c = Multiaddr::new(vec![Protocol::Tcp(4001)]);
    assert_eq!(ma_to_tcp_ip_sock_addr(&c), None);
    assert_eq!(a.duplicate().parts, a.parts);
}

#[test]
fn error_messages() {
    assert_eq!(ListenError.message(), "Failed to listen");
    assert_eq!(CloseError.message(), "Failed to close");
    assert_eq!(WriteError.message(), "Failed to write");
    assert_eq!(ReadError.message(), "Failed to read");
    assert_eq!(AcceptStreamError.message(), "Failed to accept stream");
    assert_eq!(OpenStreamError.message(), "Failed to open stream");
    assert_eq!(UpgradeError.message(), "Failed to upgrade");
    assert_eq!(SigError::Unspecified.message(), "unspecified signature error");
    assert_eq!(InvalidKeyError::Unspecified.message(), "unspecified invalid key error");
}

#[test]
fn key_type_codes() {
    assert_eq!(KeyType::RSA.code(), 0);
    assert_eq!(KeyType::Ed25519.code(), 1);
    assert_eq!(KeyType::Secp256k1.code(), 2);
    assert_eq!(KeyType::ECDSA.code(), 3);
}
