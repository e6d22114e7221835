//! The SOCKS5 wire codec: control frames are built and checked byte-exactly.

use vstd::prelude::*;
use vstd::utf8::decode_utf8;
use vstd::utf8::valid_utf8;

use crate::addr::str_bytes;
use crate::addr::target_model;
use crate::addr::target_ok;
use crate::addr::TargetAddr;
use crate::addr::TargetModel;
use crate::auth::Authentication;
use crate::error::Error;

verus! {

broadcast use vstd::array::group_array_axioms;

/// The SOCKS command set, with the fixed wire codes given by `spec_code`.
#[derive(Clone, Copy, Debug, PartialEq, Eq, Structural)]
pub enum Command {
    /// Open an outbound connection through the proxy (0x01).
    Connect,
    /// Ask the proxy to listen for an inbound peer (0x02).
    Bind,
    /// UDP relay (0x03); carried on the wire but otherwise unsupported.
    Associate,
    /// Tor's name-resolution extension (0xF0).
    TorResolve,
    /// Tor's reverse-resolution extension (0xF1).
    TorResolvePtr,
}

/// The wire code of each command.
pub open spec fn spec_code(c: Command) -> u8 {
    match c {
        Command::Connect => 0x01,
        Command::Bind => 0x02,
        Command::Associate => 0x03,
        Command::TorResolve => 0xF0,
        Command::TorResolvePtr => 0xF1,
    }
}

impl Command {
    /// The byte this command is written as.
    pub fn code(&self) -> (r: u8)
        ensures
            r == spec_code(*self),
    {
        match self {
            Command::Connect => 0x01,
            Command::Bind => 0x02,
            Command::Associate => 0x03,
            Command::TorResolve => 0xF0,
            Command::TorResolvePtr => 0xF1,
        }
    }
}

/// A 16-bit value in network order: high byte first.
pub open spec fn be16(p: u16) -> Seq<u8> {
    seq![(p / 256) as u8, (p % 256) as u8]
}

/// The value written as two network-order bytes.
pub open spec fn be16_value(hi: u8, lo: u8) -> u16 {
    (hi * 256 + lo) as u16
}

/// Reads a 16-bit value from its two network-order bytes.
pub fn u16_from_be(hi: u8, lo: u8) -> (r: u16)
    ensures
        r == be16_value(hi, lo),
{
    (hi as u16) * 256 + (lo as u16)
}

/// The method-selection frame: version 0x05, then the proposed methods.
/// Anonymous clients propose only 0x00; clients with credentials also
/// propose 0x02.
pub open spec fn spec_method_selection(a: Authentication) -> Seq<u8> {
    match a {
        Authentication::NoAuth => seq![0x05u8, 1u8, 0x00u8],
        Authentication::Password { .. } => seq![0x05u8, 2u8, 0x00u8, 0x02u8],
    }
}

/// The RFC 1929 sub-negotiation request: version 0x01, then each
/// credential preceded by its one-byte length.
pub open spec fn spec_password_auth(u: Seq<u8>, p: Seq<u8>) -> Seq<u8> {
    seq![0x01u8, u.len() as u8] + u + seq![p.len() as u8] + p
}

/// The address record of a request: type tag, address bytes, then the port.
/// IPv4 is tagged 0x01, domains 0x03 with a one-byte length, IPv6 0x04.
pub open spec fn spec_addr_record(t: TargetAddr) -> Seq<u8> {
    match target_model(t) {
        TargetModel::Ip { ip, port } => if ip.len() == 4 {
            seq![0x01u8] + ip + be16(port)
        } else {
            seq![0x04u8] + ip + be16(port)
        },
        TargetModel::Domain { name, port } => seq![0x03u8, name.len() as u8] + name + be16(port),
    }
}

/// The request frame: version, command, reserved 0x00, address record.
pub open spec fn spec_request(c: Command, t: TargetAddr) -> Seq<u8> {
    seq![0x05u8, spec_code(c), 0x00u8] + spec_addr_record(t)
}

/// Builds the method-selection frame for this authentication choice.
pub fn method_selection_frame(auth: &Authentication) -> (r: Vec<u8>)
    ensures
        r@ == spec_method_selection(*auth),
{
    let mut r: Vec<u8> = Vec::new();
    r.push(0x05);
    match auth {
        Authentication::NoAuth => {
            r.push(1);
            r.push(0x00);
        },
        Authentication::Password { .. } => {
            r.push(2);
            r.push(0x00);
            r.push(0x02);
        },
    }
    assert(r@ =~= spec_method_selection(*auth));
    r
}

/// Builds the RFC 1929 sub-negotiation request for these credentials.
pub fn password_auth_frame(username: &str, password: &str) -> (r: Vec<u8>)
    requires
        1 <= str_bytes(username@).len() <= 255,
        1 <= str_bytes(password@).len() <= 255,
    ensures
        r@ == spec_password_auth(str_bytes(username@), str_bytes(password@)),
{
    let ub = username.as_bytes();
    let pb = password.as_bytes();
    let mut r: Vec<u8> = Vec::new();
    r.push(0x01);
    r.push(ub.len() as u8);
    r.extend_from_slice(ub);
    r.push(pb.len() as u8);
    r.extend_from_slice(pb);
    assert(r@ =~= spec_password_auth(str_bytes(username@), str_bytes(password@)));
    r
}

/// Builds the request frame for this command and target.
pub fn request_frame(command: Command, target: &TargetAddr) -> (r: Vec<u8>)
    requires
        target_ok(*target),
    ensures
        r@ == spec_request(command, *target),
{
    let mut r: Vec<u8> = Vec::new();
    r.push(0x05);
    r.push(command.code());
    r.push(0x00);
    match target {
        TargetAddr::Ip(sa) => {
            match &sa.ip {
                crate::addr::IpAddress::V4(o) => {
                    r.push(0x01);
                    r.extend_from_slice(o.as_slice());
                },
                crate::addr::IpAddress::V6(o) => {
                    r.push(0x04);
                    r.extend_from_slice(o.as_slice());
                },
            }
            r.push((sa.port / 256) as u8);
            r.push((sa.port % 256) as u8);
        },
        TargetAddr::Domain(d, p) => {
            let db = d.as_str().as_bytes();
            r.push(0x03);
            r.push(db.len() as u8);
            r.extend_from_slice(db);
            r.push((*p / 256) as u8);
            r.push((*p % 256) as u8);
        },
    }
    assert(r@ =~= spec_request(command, *target));
    r
}

/// Which error each failing SOCKS5 reply status denotes; 0x00 is success
/// and draws no error.
pub open spec fn spec_status_error(s: u8) -> Error {
    if s == 0x01 {
        Error::GeneralSocksServerFailure
    } else if s == 0x02 {
        Error::ConnectionNotAllowedByRuleset
    } else if s == 0x03 {
        Error::NetworkUnreachable
    } else if s == 0x04 {
        Error::HostUnreachable
    } else if s == 0x05 {
        Error::ConnectionRefused
    } else if s == 0x06 {
        Error::TtlExpired
    } else if s == 0x07 {
        Error::CommandNotSupported
    } else if s == 0x08 {
        Error::AddressTypeNotSupported
    } else {
        Error::UnknownError
    }
}

/// Maps a failing reply status byte to its error.
pub fn status_error(s: u8) -> (e: Error)
    requires
        s != 0x00,
    ensures
        e == spec_status_error(s),
{
    match s {
        0x01 => Error::GeneralSocksServerFailure,
        0x02 => Error::ConnectionNotAllowedByRuleset,
        0x03 => Error::NetworkUnreachable,
        0x04 => Error::HostUnreachable,
        0x05 => Error::ConnectionRefused,
        0x06 => Error::TtlExpired,
        0x07 => Error::CommandNotSupported,
        0x08 => Error::AddressTypeNotSupported,
        _ => Error::UnknownError,
    }
}

/// Copies the byte range `[start, end)` out of a vector.
pub fn vec_range(v: &Vec<u8>, start: usize, end: usize) -> (r: Vec<u8>)
    requires
        start <= end <= v@.len(),
    ensures
        r@ == v@.subrange(start as int, end as int),
{
    vstd::slice::slice_to_vec(vstd::slice::slice_subrange(v.as_slice(), start, end))
}

/// Relies on `String::from_utf8`: it succeeds exactly on valid UTF-8 input
/// and decodes those bytes, as vstd's `valid_utf8` and `decode_utf8` state.
#[verifier::external_body]
pub fn string_from_utf8(v: Vec<u8>) -> (r: Option<String>)
    ensures
        r is Some <==> valid_utf8(v@),
        r matches Some(s) ==> s@ == decode_utf8(v@),
{
    String::from_utf8(v).ok()
}

} // verus!
