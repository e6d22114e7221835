use socks_core::addr::IpAddress;
use socks_core::addr::SocketAddress;
use socks_core::addr::TargetAddr;
use socks_core::auth::Authentication;
use socks_core::codec::Command;
use socks_core::engine::Handshake;
use socks_core::engine::Step;
use socks_core::error::Error;
use socks_core::error::InvalidAuthReason;
use socks_core::error::InvalidTargetReason;

/// Drives a handshake against a scripted server. Returns the frames the
/// engine asked to write, the outcome, and how many server bytes were
/// consumed.
fn drive(
    mut hs: Handshake,
    server: &[u8],
) -> (Vec<Vec<u8>>, Result<TargetAddr, Error>, usize) {
    let mut writes: Vec<Vec<u8>> = Vec::new();
    let mut input: Vec<u8> = Vec::new();
    let mut pos: usize = 0;
    loop {
        match hs.step(&input) {
            Step::Send(frame) => {
                writes.push(frame);
                input = Vec::new();
            }
            Step::Recv(n) => {
                assert!(pos + n <= server.len(), "script exhausted");
                input = server[pos..pos + n].to_vec();
                pos += n;
            }
            Step::Done(t) => return (writes, Ok(t), pos),
            Step::Fail(e) => return (writes, Err(e), pos),
        }
    }
}

fn ip4(a: u8, b: u8, c: u8, d: u8, port: u16) -> TargetAddr {
    TargetAddr::Ip(SocketAddress::new(IpAddress::V4([a, b, c, d]), port))
}

fn password(u: &str, p: &str) -> Authentication {
    Authentication::Password {
        username: u.to_string(),
        password: p.to_string(),
    }
}

#[test]
fn anonymous_connect_ipv4() {
    let hs = Handshake::new(Command::Connect, Authentication::NoAuth, ip4(1, 2, 3, 4, 80))
        .unwrap();
    let server = [0x05, 0x00, 0x05, 0x00, 0x00, 0x01, 0, 0, 0, 0, 0, 0];
    let (writes, result, used) = drive(hs, &server);
    assert_eq!(writes.len(), 2);
    assert_eq!(writes[0], vec![0x05, 0x01, 0x00]);
    assert_eq!(
        writes[1],
        vec![0x05, 0x01, 0x00, 0x01, 0x01, 0x02, 0x03, 0x04, 0x00, 0x50]
    );
    assert_eq!(result.unwrap(), ip4(0, 0, 0, 0, 0));
    assert_eq!(used, server.len());
}

#[test]
fn password_connect_domain() {
    let target = TargetAddr::Domain("example.com".to_string(), 443);
    let hs = Handshake::new(Command::Connect, password("u", "p"), target).unwrap();
    let mut server = vec![0x05, 0x02, 0x01, 0x00];
    server.extend_from_slice(&[0x05, 0x00, 0x00, 0x01, 0, 0, 0, 0, 0, 0]);
    let (writes, result, _) = drive(hs, &server);
    assert_eq!(writes.len(), 3);
    assert_eq!(writes[0], vec![0x05, 0x02, 0x00, 0x02]);
    assert_eq!(writes[1], vec![0x01, 0x01, b'u', 0x01, b'p']);
    let mut request = vec![0x05, 0x01, 0x00, 0x03, 0x0B];
    request.extend_from_slice(b"example.com");
    request.extend_from_slice(&[0x01, 0xBB]);
    assert_eq!(writes[2], request);
    assert_eq!(result.unwrap(), ip4(0, 0, 0, 0, 0));
}

#[test]
fn server_refuses_all_methods() {
    let hs = Handshake::new(Command::Connect, Authentication::NoAuth, ip4(1, 2, 3, 4, 80))
        .unwrap();
    let server = [0x05, 0xFF];
    let (writes, result, _) = drive(hs, &server);
    assert_eq!(writes.len(), 1);
    assert_eq!(result.unwrap_err(), Error::NoAcceptableAuthMethods);
}

#[test]
fn bind_rendezvous_two_replies() {
    let target = ip4(1, 2, 3, 4, 80);
    let hs = Handshake::new(Command::Bind, Authentication::NoAuth, target.clone()).unwrap();
    // first reply: the proxy listens at 127.0.0.1:8080
    let server1 = [0x05, 0x00, 0x05, 0x00, 0x00, 0x01, 127, 0, 0, 1, 0x1F, 0x90];
    let (_, first, used) = drive(hs, &server1);
    let rendezvous = first.unwrap();
    assert_eq!(rendezvous, ip4(127, 0, 0, 1, 8080));
    assert_eq!(used, server1.len());
    // second reply arrives when the peer connects; the engine re-enters
    // at the reply and reads the connected peer's address
    let hs2 = Handshake::resume(rendezvous);
    let server2 = [0x05, 0x00, 0x00, 0x01, 192, 168, 1, 1, 0x04, 0x38];
    let (writes2, second, used2) = drive(hs2, &server2);
    assert!(writes2.is_empty());
    assert_eq!(second.unwrap(), ip4(192, 168, 1, 1, 1080));
    assert_eq!(used2, server2.len());
}

#[test]
fn overlong_password_fails_before_any_write() {
    let long: String = "a".repeat(256);
    let r = Handshake::new(
        Command::Connect,
        password("user", long.as_str()),
        ip4(1, 2, 3, 4, 80),
    );
    assert_eq!(
        r.unwrap_err(),
        Error::InvalidAuthValues(InvalidAuthReason::PasswordLength)
    );
}

#[test]
fn auth_length_boundaries() {
    let e = Handshake::new(Command::Connect, password("", "p"), ip4(1, 2, 3, 4, 80));
    assert_eq!(
        e.unwrap_err(),
        Error::InvalidAuthValues(InvalidAuthReason::UsernameLength)
    );
    let long: String = "a".repeat(256);
    let e = Handshake::new(
        Command::Connect,
        password(long.as_str(), "p"),
        ip4(1, 2, 3, 4, 80),
    );
    assert_eq!(
        e.unwrap_err(),
        Error::InvalidAuthValues(InvalidAuthReason::UsernameLength)
    );
    let e = Handshake::new(Command::Connect, password("u", ""), ip4(1, 2, 3, 4, 80));
    assert_eq!(
        e.unwrap_err(),
        Error::InvalidAuthValues(InvalidAuthReason::PasswordLength)
    );
    let max: String = "a".repeat(255);
    assert!(Handshake::new(
        Command::Connect,
        password(max.as_str(), max.as_str()),
        ip4(1, 2, 3, 4, 80)
    )
    .is_ok());
}

#[test]
fn domain_reply_two_phase_read_preserves_payload() {
    let hs = Handshake::new(Command::Connect, Authentication::NoAuth, ip4(1, 2, 3, 4, 80))
        .unwrap();
    // reply: domain "tor.example" (11 bytes) port 9050, then payload
    let mut server = vec![0x05, 0x00, 0x05, 0x00, 0x00, 0x03, 0x0B];
    server.extend_from_slice(b"tor.example");
    server.extend_from_slice(&[0x23, 0x5A]);
    let payload = b"payload bytes after the reply";
    server.extend_from_slice(payload);
    let (_, result, used) = drive(hs, &server);
    assert_eq!(
        result.unwrap(),
        TargetAddr::Domain("tor.example".to_string(), 9050)
    );
    // the engine consumed the reply and not one byte more
    assert_eq!(&server[used..], payload);
}

#[test]
fn reads_sum_to_reply_length_for_every_address_type() {
    // IPv4 reply: 10 bytes in all
    let hs = Handshake::new(Command::Connect, Authentication::NoAuth, ip4(1, 2, 3, 4, 80))
        .unwrap();
    let server = [0x05, 0x00, 0x05, 0x00, 0x00, 0x01, 9, 9, 9, 9, 0, 1, 0xEE];
    let (_, _, used) = drive(hs, &server);
    assert_eq!(used, 2 + 10);

    // IPv6 reply: 22 bytes in all
    let hs = Handshake::new(Command::Connect, Authentication::NoAuth, ip4(1, 2, 3, 4, 80))
        .unwrap();
    let mut server = vec![0x05, 0x00, 0x05, 0x00, 0x00, 0x04];
    server.extend_from_slice(&[0u8; 16]);
    server.extend_from_slice(&[0, 1, 0xEE]);
    let (_, _, used) = drive(hs, &server);
    assert_eq!(used, 2 + 22);

    // domain reply of length 0: 7 bytes in all
    let hs = Handshake::new(Command::Connect, Authentication::NoAuth, ip4(1, 2, 3, 4, 80))
        .unwrap();
    let server = [0x05, 0x00, 0x05, 0x00, 0x00, 0x03, 0x00, 0, 80, 0xEE];
    let (_, result, used) = drive(hs, &server);
    assert_eq!(result.unwrap(), TargetAddr::Domain(String::new(), 80));
    assert_eq!(used, 2 + 7);
}

#[test]
fn ipv6_reply_address() {
    let hs = Handshake::new(Command::Connect, Authentication::NoAuth, ip4(1, 2, 3, 4, 80))
        .unwrap();
    let mut server = vec![0x05, 0x00, 0x05, 0x00, 0x00, 0x04];
    let mut octets = [0u8; 16];
    octets[15] = 1;
    server.extend_from_slice(&octets);
    server.extend_from_slice(&[0x00, 0x35]);
    let (_, result, _) = drive(hs, &server);
    assert_eq!(
        result.unwrap(),
        TargetAddr::Ip(SocketAddress::new(IpAddress::V6(octets), 53))
    );
}

#[test]
fn reply_status_codes_map_to_errors() {
    let cases: [(u8, Error); 9] = [
        (0x01, Error::GeneralSocksServerFailure),
        (0x02, Error::ConnectionNotAllowedByRuleset),
        (0x03, Error::NetworkUnreachable),
        (0x04, Error::HostUnreachable),
        (0x05, Error::ConnectionRefused),
        (0x06, Error::TtlExpired),
        (0x07, Error::CommandNotSupported),
        (0x08, Error::AddressTypeNotSupported),
        (0x09, Error::UnknownError),
    ];
    for (status, expect) in cases {
        let hs =
            Handshake::new(Command::Connect, Authentication::NoAuth, ip4(1, 2, 3, 4, 80))
                .unwrap();
        let server = [0x05, 0x00, 0x05, status, 0x00, 0x01];
        let (_, result, _) = drive(hs, &server);
        assert_eq!(result.unwrap_err(), expect);
    }
}

#[test]
fn reply_framing_errors() {
    // wrong version in the method reply
    let hs = Handshake::new(Command::Connect, Authentication::NoAuth, ip4(1, 2, 3, 4, 80))
        .unwrap();
    let (_, result, _) = drive(hs, &[0x04, 0x00]);
    assert_eq!(result.unwrap_err(), Error::InvalidResponseVersion);

    // wrong version in the request reply
    let hs = Handshake::new(Command::Connect, Authentication::NoAuth, ip4(1, 2, 3, 4, 80))
        .unwrap();
    let (_, result, _) = drive(hs, &[0x05, 0x00, 0x04, 0x00, 0x00, 0x01]);
    assert_eq!(result.unwrap_err(), Error::InvalidResponseVersion);

    // reserved byte not zero
    let hs = Handshake::new(Command::Connect, Authentication::NoAuth, ip4(1, 2, 3, 4, 80))
        .unwrap();
    let (_, result, _) = drive(hs, &[0x05, 0x00, 0x05, 0x00, 0x01, 0x01]);
    assert_eq!(result.unwrap_err(), Error::InvalidReservedByte);

    // unknown address type
    let hs = Handshake::new(Command::Connect, Authentication::NoAuth, ip4(1, 2, 3, 4, 80))
        .unwrap();
    let (_, result, _) = drive(hs, &[0x05, 0x00, 0x05, 0x00, 0x00, 0x02]);
    assert_eq!(result.unwrap_err(), Error::UnknownAddressType);
}

#[test]
fn method_selection_errors() {
    // server picks password when the client offered none
    let hs = Handshake::new(Command::Connect, Authentication::NoAuth, ip4(1, 2, 3, 4, 80))
        .unwrap();
    let (_, result, _) = drive(hs, &[0x05, 0x02]);
    assert_eq!(result.unwrap_err(), Error::AuthorizationRequired);

    // server picks a method that was never proposed
    let hs = Handshake::new(Command::Connect, Authentication::NoAuth, ip4(1, 2, 3, 4, 80))
        .unwrap();
    let (_, result, _) = drive(hs, &[0x05, 0x01]);
    assert_eq!(result.unwrap_err(), Error::UnknownAuthMethod);
}

#[test]
fn password_subnegotiation_errors() {
    // sub-negotiation reply with a failing status
    let hs = Handshake::new(
        Command::Connect,
        password("u", "p"),
        ip4(1, 2, 3, 4, 80),
    )
    .unwrap();
    let (_, result, _) = drive(hs, &[0x05, 0x02, 0x01, 0x17]);
    assert_eq!(result.unwrap_err(), Error::PasswordAuthFailure(0x17));

    // sub-negotiation reply with the wrong version
    let hs = Handshake::new(
        Command::Connect,
        password("u", "p"),
        ip4(1, 2, 3, 4, 80),
    )
    .unwrap();
    let (_, result, _) = drive(hs, &[0x05, 0x02, 0x02, 0x00]);
    assert_eq!(result.unwrap_err(), Error::InvalidResponseVersion);
}

#[test]
fn domain_reply_rejects_bad_utf8() {
    let hs = Handshake::new(Command::Connect, Authentication::NoAuth, ip4(1, 2, 3, 4, 80))
        .unwrap();
    let server = [0x05, 0x00, 0x05, 0x00, 0x00, 0x03, 0x02, 0xFF, 0xFE, 0x00, 0x50];
    let (_, result, _) = drive(hs, &server);
    assert_eq!(
        result.unwrap_err(),
        Error::InvalidTargetAddress(InvalidTargetReason::NotUtf8)
    );
}

#[test]
fn payload_echo_after_handshake() {
    // the session carries bytes verbatim: what the driver writes after
    // the handshake is exactly what an echoing peer hands back
    let hs = Handshake::new(Command::Connect, Authentication::NoAuth, ip4(1, 2, 3, 4, 80))
        .unwrap();
    let server = [0x05, 0x00, 0x05, 0x00, 0x00, 0x01, 0, 0, 0, 0, 0, 0];
    let (_, result, used) = drive(hs, &server);
    let target = result.unwrap();
    assert_eq!(used, server.len());
    let session = socks_core::session::Socks5Stream::new(Vec::<u8>::new(), target);
    let mut transport: Vec<u8> = session.into_inner();
    transport.extend_from_slice(b"hello");
    let echoed: Vec<u8> = transport.clone();
    assert_eq!(&echoed[..], b"hello");
}

#[test]
fn tor_resolve_command_byte() {
    let target = TargetAddr::Domain("example.com".to_string(), 0);
    let hs = Handshake::new(Command::TorResolve, Authentication::NoAuth, target).unwrap();
    let server = [0x05, 0x00, 0x05, 0x00, 0x00, 0x01, 93, 184, 216, 34, 0, 0];
    let (writes, result, _) = drive(hs, &server);
    assert_eq!(writes[1][1], 0xF0);
    assert_eq!(result.unwrap(), ip4(93, 184, 216, 34, 0));

    let target = ip4(93, 184, 216, 34, 0);
    let hs = Handshake::new(Command::TorResolvePtr, Authentication::NoAuth, target).unwrap();
    let mut server = vec![0x05, 0x00, 0x05, 0x00, 0x00, 0x03, 0x0B];
    server.extend_from_slice(b"example.com");
    server.extend_from_slice(&[0x00, 0x00]);
    let (writes, result, _) = drive(hs, &server);
    assert_eq!(writes[1][1], 0xF1);
    assert_eq!(
        result.unwrap(),
        TargetAddr::Domain("example.com".to_string(), 0)
    );
}
