use socks_core::addr::IpAddress;
use socks_core::addr::SocketAddress;
use socks_core::addr::TargetAddr;
use socks_core::codec::Command;
use socks_core::engine::Step;
use socks_core::error::Error;
use socks_core::error::InvalidAuthReason;
use socks_core::socks4::Socks4Handshake;

fn ip4(a: u8, b: u8, c: u8, d: u8, port: u16) -> TargetAddr {
    TargetAddr::Ip(SocketAddress::new(IpAddress::V4([a, b, c, d]), port))
}

fn drive(
    mut hs: Socks4Handshake,
    server: &[u8],
) -> (Vec<Vec<u8>>, Result<TargetAddr, Error>, usize) {
    let mut writes: Vec<Vec<u8>> = Vec::new();
    let mut input: Vec<u8> = Vec::new();
    let mut pos: usize = 0;
    loop {
        match hs.step(&input) {
            Step::Send(frame) => {
                writes.push(frame);
                input = Vec::new();
            }
            Step::Recv(n) => {
                assert!(pos + n <= server.len(), "script exhausted");
                input = server[pos..pos + n].to_vec();
                pos += n;
            }
            Step::Done(t) => return (writes, Ok(t), pos),
            Step::Fail(e) => return (writes, Err(e), pos),
        }
    }
}

#[test]
fn socks4_connect_without_userid() {
    let hs = Socks4Handshake::new(Command::Connect, ip4(1, 2, 3, 4, 80), None).unwrap();
    let server = [0x00, 0x5A, 0x1F, 0x90, 127, 0, 0, 1];
    let (writes, result, used) = drive(hs, &server);
    assert_eq!(writes.len(), 1);
    assert_eq!(
        writes[0],
        vec![0x04, 0x01, 0x00, 0x50, 0x01, 0x02, 0x03, 0x04, 0x00]
    );
    assert_eq!(result.unwrap(), ip4(127, 0, 0, 1, 8080));
    assert_eq!(used, 8);
}

#[test]
fn socks4_connect_with_userid() {
    let hs = Socks4Handshake::new(
        Command::Connect,
        ip4(1, 2, 3, 4, 80),
        Some("mylogin".to_string()),
    )
    .unwrap();
    let server = [0x00, 0x5A, 0x00, 0x00, 0, 0, 0, 0];
    let (writes, result, _) = drive(hs, &server);
    let mut expect = vec![0x04, 0x01, 0x00, 0x50, 0x01, 0x02, 0x03, 0x04];
    expect.extend_from_slice(b"mylogin");
    expect.push(0x00);
    assert_eq!(writes[0], expect);
    assert!(result.is_ok());
}

#[test]
fn socks4a_domain_request() {
    let target = TargetAddr::Domain("example.com".to_string(), 443);
    let hs = Socks4Handshake::new(Command::Connect, target, None).unwrap();
    let server = [0x00, 0x5A, 0x00, 0x00, 0, 0, 0, 0];
    let (writes, _, _) = drive(hs, &server);
    let mut expect = vec![0x04, 0x01, 0x01, 0xBB, 0x00, 0x00, 0x00, 0x01, 0x00];
    expect.extend_from_slice(b"example.com");
    expect.push(0x00);
    assert_eq!(writes[0], expect);
}

#[test]
fn socks4_reply_statuses() {
    let cases: [(u8, Error); 4] = [
        (0x5B, Error::RequestRejectedOrFailed),
        (0x5C, Error::IdentdAuthFailure),
        (0x5D, Error::InvalidUserIdAuthFailure),
        (0x5E, Error::UnknownError),
    ];
    for (status, expect) in cases {
        let hs = Socks4Handshake::new(Command::Connect, ip4(1, 2, 3, 4, 80), None).unwrap();
        let server = [0x00, status, 0x00, 0x00, 0, 0, 0, 0];
        let (_, result, _) = drive(hs, &server);
        assert_eq!(result.unwrap_err(), expect);
    }
}

#[test]
fn socks4_reply_version_must_be_zero() {
    let hs = Socks4Handshake::new(Command::Connect, ip4(1, 2, 3, 4, 80), None).unwrap();
    let server = [0x04, 0x5A, 0x00, 0x00, 0, 0, 0, 0];
    let (_, result, _) = drive(hs, &server);
    assert_eq!(result.unwrap_err(), Error::InvalidResponseVersion);
}

#[test]
fn socks4_rejects_ipv6_target() {
    let target = TargetAddr::Ip(SocketAddress::new(IpAddress::V6([0u8; 16]), 80));
    let r = Socks4Handshake::new(Command::Connect, target, None);
    assert_eq!(r.unwrap_err(), Error::AddressTypeNotSupported);
}

#[test]
fn socks4_rejects_overlong_userid() {
    let long: String = "a".repeat(256);
    let r = Socks4Handshake::new(Command::Connect, ip4(1, 2, 3, 4, 80), Some(long));
    assert_eq!(
        r.unwrap_err(),
        Error::InvalidAuthValues(InvalidAuthReason::UseridLength)
    );
    let empty = String::new();
    let r = Socks4Handshake::new(Command::Connect, ip4(1, 2, 3, 4, 80), Some(empty));
    assert_eq!(
        r.unwrap_err(),
        Error::InvalidAuthValues(InvalidAuthReason::UseridLength)
    );
}

#[test]
fn socks4_bind_second_reply() {
    let hs = Socks4Handshake::new(Command::Bind, ip4(1, 2, 3, 4, 80), None).unwrap();
    let server = [0x00, 0x5A, 0x1F, 0x90, 127, 0, 0, 1];
    let (writes, first, _) = drive(hs, &server);
    assert_eq!(writes[0][1], 0x02);
    let rendezvous = first.unwrap();
    assert_eq!(rendezvous, ip4(127, 0, 0, 1, 8080));
    let hs2 = Socks4Handshake::resume(rendezvous);
    let server2 = [0x00, 0x5A, 0x00, 0x50, 10, 0, 0, 7];
    let (writes2, second, _) = drive(hs2, &server2);
    assert!(writes2.is_empty());
    assert_eq!(second.unwrap(), ip4(10, 0, 0, 7, 80));
}
