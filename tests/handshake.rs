use hyper_socks::address::ipv4_literal;
use hyper_socks::socks5::{decode_connect_request, encode_connect_request, parse_connect_reply};
use hyper_socks::{
    ConnectError, Credentials, DestinationAddress, Handshake, Phase, Rejection, SocketAddress,
    Socks4HttpConnector, Socks5HttpConnector, Step,
};

fn local_proxy() -> Vec<SocketAddress> {
    vec![SocketAddress::V4([127, 0, 0, 1], 1080)]
}

#[test]
fn socks4_ipv4_request_and_grant() {
    let c = Socks4HttpConnector::new(local_proxy(), "alice").unwrap();
    let (mut h, msg) = c.connect(DestinationAddress::Ipv4([93, 184, 216, 34], 8080), "http").unwrap();
    assert_eq!(msg, vec![4, 1, 0x1F, 0x90, 93, 184, 216, 34, b'a', b'l', b'i', b'c', b'e', 0]);
    assert_eq!(h.phase(), Phase::Socks4Reply);
    assert_eq!(h.bytes_wanted(&[]), 8);
    let step = h.on_reply(&[0, 0x5A, 0, 0, 0, 0, 0, 0]);
    assert_eq!(step, Step::Established);
    assert_eq!(h.phase(), Phase::Established);
}

#[test]
fn socks4a_domain_request() {
    let c = Socks4HttpConnector::new(local_proxy(), "u").unwrap();
    let (mut h, msg) = c.connect(DestinationAddress::domain("ab.c", 80), "http").unwrap();
    assert_eq!(msg, vec![4, 1, 0, 80, 0, 0, 0, 1, b'u', 0, b'a', b'b', b'.', b'c', 0]);
    // Lenient proxies answer with version 4 in the first byte.
    assert_eq!(h.on_reply(&[4, 0x5A, 0, 80, 1, 2, 3, 4]), Step::Established);
}

#[test]
fn socks4_rejections_are_distinct() {
    let c = Socks4HttpConnector::new(local_proxy(), "").unwrap();
    let mut outcomes = Vec::new();
    for code in [0x5Bu8, 0x5C, 0x5D] {
        let (mut h, _) = c.connect(DestinationAddress::Ipv4([10, 0, 0, 5], 22), "http").unwrap();
        let step = h.on_reply(&[0, code, 0, 0, 0, 0, 0, 0]);
        assert_eq!(step, Step::Failed(ConnectError::HandshakeRejected(code)));
        assert_eq!(h.phase(), Phase::Failed);
        outcomes.push(step);
    }
    assert_ne!(outcomes[0], outcomes[1]);
    assert_ne!(outcomes[1], outcomes[2]);
    assert_ne!(outcomes[0], outcomes[2]);
}

#[test]
fn socks4_end_to_end_identd_mismatch() {
    let proxy = vec![SocketAddress::V4([10, 0, 0, 1], 1080)];
    let c = Socks4HttpConnector::new(proxy, "bob").unwrap();
    assert_eq!(c.proxy_address(0), Ok(SocketAddress::V4([10, 0, 0, 1], 1080)));
    let (mut h, msg) = c.connect(DestinationAddress::Ipv4([10, 0, 0, 5], 22), "http").unwrap();
    assert_eq!(msg, vec![4, 1, 0, 22, 10, 0, 0, 5, b'b', b'o', b'b', 0]);
    let step = h.on_reply(&[0, 0x5D, 0, 0, 0, 0, 0, 0]);
    assert_eq!(step, Step::Failed(ConnectError::HandshakeRejected(0x5D)));
}

#[test]
fn socks4_reply_errors() {
    let c = Socks4HttpConnector::new(local_proxy(), "").unwrap();
    let (mut h, _) = c.connect(DestinationAddress::Ipv4([1, 2, 3, 4], 1), "http").unwrap();
    assert_eq!(h.on_reply(&[0, 0x5A, 0]), Step::Failed(ConnectError::TruncatedReply));
    let (mut h, _) = c.connect(DestinationAddress::Ipv4([1, 2, 3, 4], 1), "http").unwrap();
    assert_eq!(h.on_reply(&[7, 0x5A, 0, 0, 0, 0, 0, 0]), Step::Failed(ConnectError::MalformedReply));
    let (mut h, _) = c.connect(DestinationAddress::Ipv4([1, 2, 3, 4], 1), "http").unwrap();
    assert_eq!(h.on_reply(&[0, 0x10, 0, 0, 0, 0, 0, 0]), Step::Failed(ConnectError::MalformedReply));
    // A finished handshake takes no more replies.
    assert_eq!(h.on_reply(&[0, 0x5A, 0, 0, 0, 0, 0, 0]), Step::Failed(ConnectError::MalformedReply));
    assert_eq!(h.phase(), Phase::Failed);
}

#[test]
fn socks4_rejects_ipv6_and_other_schemes() {
    let c = Socks4HttpConnector::new(local_proxy(), "").unwrap();
    let v6 = DestinationAddress::Ipv6([0, 0, 0, 0, 0, 0, 0, 0, 0, 0, 0, 0, 0, 0, 0, 1], 80);
    assert_eq!(c.connect(v6, "http").err(), Some(ConnectError::UnsupportedAddress));
    let d = DestinationAddress::domain("example.org", 443);
    assert_eq!(c.connect(d, "https").err(), Some(ConnectError::UnsupportedScheme));
}

#[test]
fn connectors_need_an_address() {
    assert_eq!(Socks4HttpConnector::new(Vec::new(), "x").err(), Some(ConnectError::AddressResolution));
    assert_eq!(
        Socks5HttpConnector::new(Vec::new(), Credentials::NoAuth).err(),
        Some(ConnectError::AddressResolution)
    );
}

#[test]
fn proxy_addresses_in_order_then_unreachable() {
    let addrs = vec![
        SocketAddress::V4([10, 0, 0, 1], 1080),
        SocketAddress::V6([0, 0, 0, 0, 0, 0, 0, 0, 0, 0, 0, 0, 0, 0, 0, 1], 1081),
    ];
    let c = Socks5HttpConnector::new(addrs, Credentials::NoAuth).unwrap();
    assert_eq!(c.proxy_address(0), Ok(SocketAddress::V4([10, 0, 0, 1], 1080)));
    assert_eq!(
        c.proxy_address(1),
        Ok(SocketAddress::V6([0, 0, 0, 0, 0, 0, 0, 0, 0, 0, 0, 0, 0, 0, 0, 1], 1081))
    );
    assert_eq!(c.proxy_address(2), Err(ConnectError::ProxyUnreachable));
}

#[test]
fn socks5_credentials_too_long() {
    let long = "x".repeat(256);
    let creds = Credentials::username_password(&long, "pw");
    assert_eq!(Socks5HttpConnector::new(local_proxy(), creds).err(), Some(ConnectError::CredentialTooLong));
    let fits = "y".repeat(255);
    let creds = Credentials::username_password("user", &fits);
    assert!(Socks5HttpConnector::new(local_proxy(), creds).is_ok());
}

#[test]
fn socks5_no_acceptable_method_sends_no_request() {
    let c = Socks5HttpConnector::new(local_proxy(), Credentials::NoAuth).unwrap();
    let (mut h, msg) = c.connect(DestinationAddress::domain("example.org", 80), "http").unwrap();
    assert_eq!(msg, vec![5, 1, 0]);
    let step = h.on_reply(&[5, 0xFF]);
    assert_eq!(step, Step::Failed(ConnectError::NoAcceptableAuthMethod));
    assert_eq!(h.phase(), Phase::Failed);
}

#[test]
fn socks5_method_mismatch() {
    let c = Socks5HttpConnector::new(local_proxy(), Credentials::NoAuth).unwrap();
    let (mut h, _) = c.connect(DestinationAddress::domain("example.org", 80), "http").unwrap();
    assert_eq!(h.on_reply(&[5, 2]), Step::Failed(ConnectError::AuthMethodMismatch));
    let creds = Credentials::username_password("u", "p");
    let c = Socks5HttpConnector::new(local_proxy(), creds).unwrap();
    let (mut h, msg) = c.connect(DestinationAddress::domain("example.org", 80), "http").unwrap();
    assert_eq!(msg, vec![5, 1, 2]);
    assert_eq!(h.on_reply(&[5, 0]), Step::Failed(ConnectError::AuthMethodMismatch));
}

#[test]
fn socks5_method_reply_errors() {
    let c = Socks5HttpConnector::new(local_proxy(), Credentials::NoAuth).unwrap();
    let (mut h, _) = c.connect(DestinationAddress::domain("a", 1), "http").unwrap();
    assert_eq!(h.on_reply(&[5]), Step::Failed(ConnectError::TruncatedReply));
    let (mut h, _) = c.connect(DestinationAddress::domain("a", 1), "http").unwrap();
    assert_eq!(h.on_reply(&[4, 0]), Step::Failed(ConnectError::MalformedReply));
}

#[test]
fn socks5_username_password_flow() {
    let creds = Credentials::username_password("bob", "pw");
    let c = Socks5HttpConnector::new(local_proxy(), creds).unwrap();
    let (mut h, _) = c.connect(DestinationAddress::Ipv4([192, 168, 1, 2], 443), "http").unwrap();
    assert_eq!(h.on_reply(&[5, 2]), Step::Send(vec![1, 3, b'b', b'o', b'b', 2, b'p', b'w']));
    assert_eq!(h.phase(), Phase::Socks5Auth);
    assert_eq!(h.bytes_wanted(&[]), 2);
    assert_eq!(h.on_reply(&[1, 0]), Step::Send(vec![5, 1, 0, 1, 192, 168, 1, 2, 1, 0xBB]));
    assert_eq!(h.phase(), Phase::Socks5Reply);
    // The bound address is a host name: its length byte sets the frame.
    let reply = [5, 0, 0, 3, 2, b'h', b'i', 0, 7];
    assert_eq!(h.bytes_wanted(&reply[..5]), 9);
    assert_eq!(h.on_reply(&reply), Step::Established);
}

#[test]
fn socks5_authentication_failed() {
    let creds = Credentials::username_password("bob", "bad");
    let c = Socks5HttpConnector::new(local_proxy(), creds).unwrap();
    let (mut h, _) = c.connect(DestinationAddress::domain("example.org", 80), "http").unwrap();
    assert!(matches!(h.on_reply(&[5, 2]), Step::Send(_)));
    assert_eq!(h.on_reply(&[1, 1]), Step::Failed(ConnectError::AuthenticationFailed));
    assert_eq!(h.phase(), Phase::Failed);
}

#[test]
fn socks5_end_to_end_no_auth() {
    let proxy = vec![SocketAddress::V4([127, 0, 0, 1], 1080)];
    let c = Socks5HttpConnector::new(proxy, Credentials::NoAuth).unwrap();
    let (mut h, msg) = c.connect(DestinationAddress::domain("example.org", 80), "http").unwrap();
    assert_eq!(msg, vec![5, 1, 0]);
    let mut request = vec![5, 1, 0, 3, 11];
    request.extend_from_slice(b"example.org");
    request.extend_from_slice(&[0, 80]);
    assert_eq!(h.on_reply(&[5, 0]), Step::Send(request));
    let reply = [5, 0, 0, 1, 0, 0, 0, 0, 0, 0];
    // Exactly the reply frame is read: nothing after it is consumed.
    assert_eq!(h.bytes_wanted(&reply[..5]), 10);
    assert_eq!(parse_connect_reply(&reply), Ok(10));
    assert_eq!(h.on_reply(&reply), Step::Established);
    assert_eq!(h.phase(), Phase::Established);
}

#[test]
fn socks5_connect_reply_errors() {
    for code in 1u8..=8 {
        let reply = [5, code, 0, 1, 0, 0, 0, 0, 0, 0];
        assert_eq!(parse_connect_reply(&reply), Err(ConnectError::HandshakeRejected(code)));
    }
    assert_eq!(parse_connect_reply(&[5, 9, 0, 1, 0, 0, 0, 0, 0, 0]), Err(ConnectError::MalformedReply));
    assert_eq!(parse_connect_reply(&[5, 0, 0, 7, 0, 0, 0, 0, 0, 0]), Err(ConnectError::MalformedReply));
    assert_eq!(parse_connect_reply(&[5, 0, 0, 4, 0, 0, 0, 0, 0, 0]), Err(ConnectError::TruncatedReply));
    assert_eq!(parse_connect_reply(&[5, 0, 0]), Err(ConnectError::TruncatedReply));
    assert_eq!(parse_connect_reply(&[4, 0, 0, 1, 0, 0, 0, 0, 0, 0]), Err(ConnectError::MalformedReply));
    let mut v6 = vec![5, 0, 0, 4];
    v6.extend_from_slice(&[0; 18]);
    v6.push(99);
    assert_eq!(parse_connect_reply(&v6), Ok(22));
}

#[test]
fn socks5_domain_round_trip() {
    let d = DestinationAddress::DomainName(b"example.com".to_vec(), 80);
    let bytes = encode_connect_request(&d).unwrap();
    assert_eq!(bytes[3], 3);
    assert_eq!(bytes[4], 11);
    assert_eq!(decode_connect_request(&bytes), Some(d));
    let v4 = DestinationAddress::Ipv4([8, 8, 4, 4], 53);
    assert_eq!(decode_connect_request(&encode_connect_request(&v4).unwrap()), Some(v4));
    let v6 = DestinationAddress::Ipv6([1; 16], 65535);
    assert_eq!(decode_connect_request(&encode_connect_request(&v6).unwrap()), Some(v6));
    assert_eq!(decode_connect_request(&[5, 1, 0, 3, 5, b'a']), None);
}

#[test]
fn socks5_domain_too_long() {
    let c = Socks5HttpConnector::new(local_proxy(), Credentials::NoAuth).unwrap();
    let long = "a".repeat(256);
    assert_eq!(
        c.connect(DestinationAddress::domain(&long, 80), "http").err(),
        Some(ConnectError::UnsupportedAddress)
    );
    assert_eq!(
        c.connect(DestinationAddress::domain("example.org", 80), "ftp").err(),
        Some(ConnectError::UnsupportedScheme)
    );
}

#[test]
fn concurrent_sessions_stay_apart() {
    let a = Socks5HttpConnector::new(local_proxy(), Credentials::NoAuth).unwrap();
    let b = Socks4HttpConnector::new(vec![SocketAddress::V4([10, 0, 0, 1], 1080)], "bob").unwrap();
    let (mut ha, _) = a.connect(DestinationAddress::Ipv4([1, 1, 1, 1], 80), "http").unwrap();
    let (mut hb, _) = b.connect(DestinationAddress::Ipv4([2, 2, 2, 2], 80), "http").unwrap();
    let sa = ha.on_reply(&[5, 0]);
    let sb = hb.on_reply(&[0, 0x5B, 0, 0, 0, 0, 0, 0]);
    assert_eq!(sa, Step::Send(vec![5, 1, 0, 1, 1, 1, 1, 1, 0, 80]));
    assert_eq!(sb, Step::Failed(ConnectError::HandshakeRejected(0x5B)));
    assert_eq!(ha.on_reply(&[5, 0, 0, 1, 0, 0, 0, 0, 0, 0]), Step::Established);
    assert_eq!(hb.phase(), Phase::Failed);
}

#[test]
fn handshake_constructors() {
    let (h, msg) = Handshake::socks5(DestinationAddress::domain("x", 1), Credentials::NoAuth).unwrap();
    assert_eq!(msg, vec![5, 1, 0]);
    assert_eq!(h.phase(), Phase::Socks5Method);
    let (h, msg) = Handshake::socks4(DestinationAddress::Ipv4([1, 2, 3, 4], 258), b"").unwrap();
    assert_eq!(msg, vec![4, 1, 1, 2, 1, 2, 3, 4, 0]);
    assert_eq!(h.phase(), Phase::Socks4Reply);
}

#[test]
fn hosts_are_classified() {
    assert_eq!(DestinationAddress::from_host("10.0.0.5", 22), DestinationAddress::Ipv4([10, 0, 0, 5], 22));
    assert_eq!(
        DestinationAddress::from_host("255.255.255.255", 1),
        DestinationAddress::Ipv4([255, 255, 255, 255], 1)
    );
    assert_eq!(DestinationAddress::from_host("0.0.0.0", 0), DestinationAddress::Ipv4([0, 0, 0, 0], 0));
    for host in ["256.0.0.1", "1.2.3", "1.2.3.4.5", "01.2.3.4", "1..2.3", "1.2.3.4.", "a.b.c.d", "example.org", ""] {
        assert_eq!(
            DestinationAddress::from_host(host, 80),
            DestinationAddress::DomainName(host.as_bytes().to_vec(), 80)
        );
    }
}

#[test]
fn ipv4_literals() {
    assert_eq!(ipv4_literal(b"192.168.1.20"), Some([192, 168, 1, 20]));
    assert_eq!(ipv4_literal(b"1.2.3.04"), None);
    assert_eq!(ipv4_literal(b"1.2.3.1000"), None);
}

#[test]
fn rejection_meanings() {
    assert_eq!(ConnectError::HandshakeRejected(0x5D).rejection(), Some(Rejection::IdentdMismatch));
    assert_eq!(ConnectError::HandshakeRejected(0x5B).rejection(), Some(Rejection::RequestRejected));
    assert_eq!(ConnectError::HandshakeRejected(0x05).rejection(), Some(Rejection::ConnectionRefused));
    assert_eq!(ConnectError::HandshakeRejected(0x06).rejection(), Some(Rejection::TtlExpired));
    assert_eq!(ConnectError::HandshakeRejected(0x03).rejection(), Some(Rejection::NetworkUnreachable));
    assert_eq!(ConnectError::HandshakeRejected(0x42).rejection(), None);
    assert_eq!(ConnectError::TruncatedReply.rejection(), None);
}
