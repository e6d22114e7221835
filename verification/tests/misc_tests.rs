use socks_core::addr::IpAddress;
use socks_core::addr::SocketAddress;
use socks_core::addr::TargetAddr;
use socks_core::auth::Authentication;
use socks_core::dialer::select_candidate;
use socks_core::error::Error;
use socks_core::session::Compat;
use socks_core::session::Socks4Listener;
use socks_core::session::Socks4Stream;
use socks_core::session::Socks5Listener;
use socks_core::session::Socks5Stream;

fn ip4(a: u8, b: u8, c: u8, d: u8, port: u16) -> TargetAddr {
    TargetAddr::Ip(SocketAddress::new(IpAddress::V4([a, b, c, d]), port))
}

#[test]
fn dialer_picks_first_reachable_candidate() {
    assert_eq!(select_candidate(&vec![false, false, true, true]), Ok(2));
    assert_eq!(select_candidate(&vec![true]), Ok(0));
}

#[test]
fn dialer_exhaustion_is_proxy_server_unreachable() {
    assert_eq!(
        select_candidate(&vec![false, false, false, false, false]),
        Err(Error::ProxyServerUnreachable)
    );
    assert_eq!(select_candidate(&Vec::new()), Err(Error::ProxyServerUnreachable));
}

#[test]
fn compat_wraps_and_unwraps() {
    let c = Compat::new(42u32);
    assert_eq!(*c.get_ref(), 42);
    assert_eq!(c.into_inner(), 42);
}

#[test]
fn socks5_stream_accessors() {
    let s = Socks5Stream::new("transport".to_string(), ip4(1, 2, 3, 4, 80));
    assert_eq!(*s.target_addr(), ip4(1, 2, 3, 4, 80));
    assert_eq!(*s.get_ref(), "transport".to_string());
    assert_eq!(s.into_inner(), "transport".to_string());
}

#[test]
fn socks5_listener_reports_bind_addr() {
    let s = Socks5Stream::new((), ip4(127, 0, 0, 1, 8080));
    let l = Socks5Listener::new(s);
    assert_eq!(*l.bind_addr(), ip4(127, 0, 0, 1, 8080));
    let back = l.into_inner();
    assert_eq!(*back.target_addr(), ip4(127, 0, 0, 1, 8080));
}

#[test]
fn socks4_session_wrappers() {
    let s = Socks4Stream::new((), ip4(127, 0, 0, 1, 8080));
    let l = Socks4Listener::new(s);
    assert_eq!(*l.bind_addr(), ip4(127, 0, 0, 1, 8080));
    assert_eq!(*l.into_inner().target_addr(), ip4(127, 0, 0, 1, 8080));
}

#[test]
fn error_messages_are_stable() {
    assert_eq!(
        Error::ProxyServerUnreachable.message(),
        "Proxy server unreachable"
    );
    assert_eq!(
        Error::NoAcceptableAuthMethods.message(),
        "No acceptable auth methods"
    );
    assert_eq!(Error::Io("boom".to_string()).message(), "boom");
}

#[test]
fn authentication_ids() {
    assert_eq!(Authentication::NoAuth.id(), 0x00);
    let p = Authentication::Password {
        username: "u".to_string(),
        password: "p".to_string(),
    };
    assert_eq!(p.id(), 0x02);
}
