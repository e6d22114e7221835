//! The target address model: a literal IP endpoint or a named domain.

use vstd::prelude::*;
use vstd::string::StringSliceAdditionalSpecFns;
use vstd::utf8::encode_utf8;

use crate::error::Error;
use crate::error::InvalidTargetReason;

verus! {

/// An IP address held as its raw octets, network order.
#[derive(Clone, Copy, Debug, PartialEq, Eq)]
pub enum IpAddress {
    /// Four octets of an IPv4 address.
    V4([u8; 4]),
    /// Sixteen octets of an IPv6 address.
    V6([u8; 16]),
}

/// An IP endpoint: address plus 16-bit port.
#[derive(Clone, Copy, Debug, PartialEq, Eq)]
pub struct SocketAddress {
    /// The IP address.
    pub ip: IpAddress,
    /// The port number.
    pub port: u16,
}

/// A SOCKS connection target: an IP endpoint, or a domain name with a port
/// that the proxy resolves on its side.
#[derive(Clone, Debug, PartialEq, Eq)]
pub enum TargetAddr {
    /// Connect to an IP address.
    Ip(SocketAddress),
    /// Connect to a fully-qualified domain name; DNS happens at the proxy.
    Domain(String, u16),
}

/// The mathematical shape of a target: plain byte sequences and a port.
#[verifier::ext_equal]
pub enum TargetModel {
    /// An IP endpoint; `ip` has 4 octets (IPv4) or 16 (IPv6).
    Ip { ip: Seq<u8>, port: u16 },
    /// A domain name given by its UTF-8 bytes.
    Domain { name: Seq<u8>, port: u16 },
}

/// The octets of an IP address as a sequence.
pub open spec fn ip_octets(ip: IpAddress) -> Seq<u8> {
    match ip {
        IpAddress::V4(o) => o@,
        IpAddress::V6(o) => o@,
    }
}

/// The UTF-8 bytes that a string value denotes.
pub open spec fn str_bytes(s: Seq<char>) -> Seq<u8> {
    encode_utf8(s)
}

/// The model of a target: addresses become octets, domains become bytes.
pub open spec fn target_model(t: TargetAddr) -> TargetModel {
    match t {
        TargetAddr::Ip(sa) => TargetModel::Ip { ip: ip_octets(sa.ip), port: sa.port },
        TargetAddr::Domain(d, p) => TargetModel::Domain { name: str_bytes(d@), port: p },
    }
}

/// A target that the engine may put in a request: a domain name must span
/// 1 to 255 bytes so that its length fits the one-byte wire field.
pub open spec fn target_ok(t: TargetAddr) -> bool {
    match t {
        TargetAddr::Ip(_) => true,
        TargetAddr::Domain(d, _) => 1 <= str_bytes(d@).len() <= 255,
    }
}

impl SocketAddress {
    /// Pair an IP address with a port.
    pub fn new(ip: IpAddress, port: u16) -> (r: SocketAddress)
        ensures
            r.ip == ip,
            r.port == port,
    {
        SocketAddress { ip, port }
    }
}

impl TargetAddr {
    /// Every IP endpoint is itself a valid target: the coercion is exact.
    pub fn from_socket(sa: SocketAddress) -> (r: TargetAddr)
        ensures
            r == TargetAddr::Ip(sa),
    {
        TargetAddr::Ip(sa)
    }

    /// The port of the target.
    pub fn port(&self) -> (r: u16)
        ensures
            r == match *self {
                TargetAddr::Ip(sa) => sa.port,
                TargetAddr::Domain(_, p) => p,
            },
    {
        match self {
            TargetAddr::Ip(sa) => sa.port,
            TargetAddr::Domain(_, p) => *p,
        }
    }
}

/// A domain name and port become a target when the name needs 1 to 255
/// bytes; beyond 255 the one-byte length field of the wire format cannot
/// carry it, and an empty name is rejected outright.
pub fn domain_target(host: &str, port: u16) -> (r: Result<TargetAddr, Error>)
    ensures
        str_bytes(host@).len() > 255 ==> r == Result::<TargetAddr, Error>::Err(
            Error::InvalidTargetAddress(InvalidTargetReason::OverlongDomain),
        ),
        str_bytes(host@).len() == 0 ==> r == Result::<TargetAddr, Error>::Err(
            Error::InvalidTargetAddress(InvalidTargetReason::Format),
        ),
        1 <= str_bytes(host@).len() <= 255 ==> (r matches Result::Ok(t) && t matches
            TargetAddr::Domain(d, p) && d@ == host@ && p == port),
{
    let n = host.as_bytes().len();
    if n > 255 {
        Err(Error::InvalidTargetAddress(InvalidTargetReason::OverlongDomain))
    } else if n == 0 {
        Err(Error::InvalidTargetAddress(InvalidTargetReason::Format))
    } else {
        Ok(TargetAddr::Domain(String::from_str(host), port))
    }
}

} // verus!
