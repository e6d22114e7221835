//! The closed error taxonomy of the negotiation engine.

use vstd::prelude::*;

verus! {

/// Why a target address was rejected.
#[derive(Clone, Copy, Debug, PartialEq, Eq, Structural)]
pub enum InvalidTargetReason {
    /// The textual form could not be split into a host and a decimal port.
    Format,
    /// The domain name exceeds 255 bytes.
    OverlongDomain,
    /// The domain bytes of a reply do not decode as UTF-8.
    NotUtf8,
}

/// Why an authentication value was rejected.
#[derive(Clone, Copy, Debug, PartialEq, Eq, Structural)]
pub enum InvalidAuthReason {
    /// The username byte length is outside [1, 255].
    UsernameLength,
    /// The password byte length is outside [1, 255].
    PasswordLength,
    /// The SOCKS4 user-id byte length is outside [1, 255].
    UseridLength,
}

/// Everything that can go wrong while negotiating with a SOCKS proxy.
#[derive(Clone, Debug, PartialEq, Eq)]
pub enum Error {
    /// A transport-level read, write or connect failure, with its description.
    Io(String),
    /// The target is malformed, overlong, or its reply form is not UTF-8.
    InvalidTargetAddress(InvalidTargetReason),
    /// A username or password has a byte length outside [1, 255].
    InvalidAuthValues(InvalidAuthReason),
    /// The proxy candidate source was exhausted without a usable endpoint.
    ProxyServerUnreachable,
    /// A reply carried the wrong protocol version byte.
    InvalidResponseVersion,
    /// SOCKS5 method selection answered 0xFF: no acceptable methods.
    NoAcceptableAuthMethods,
    /// The server selected a method that was never proposed.
    UnknownAuthMethod,
    /// The server demanded credentials but none were supplied.
    AuthorizationRequired,
    /// The username/password sub-negotiation failed with this status byte.
    PasswordAuthFailure(u8),
    /// SOCKS5 reply status 0x01.
    GeneralSocksServerFailure,
    /// SOCKS5 reply status 0x02.
    ConnectionNotAllowedByRuleset,
    /// SOCKS5 reply status 0x03.
    NetworkUnreachable,
    /// SOCKS5 reply status 0x04.
    HostUnreachable,
    /// SOCKS5 reply status 0x05.
    ConnectionRefused,
    /// SOCKS5 reply status 0x06.
    TtlExpired,
    /// SOCKS5 reply status 0x07.
    CommandNotSupported,
    /// SOCKS5 reply status 0x08.
    AddressTypeNotSupported,
    /// A SOCKS5 reply status outside the enumerated range.
    UnknownError,
    /// The reserved byte of a SOCKS5 reply was not 0x00.
    InvalidReservedByte,
    /// The address type of a SOCKS5 reply was outside {0x01, 0x03, 0x04}.
    UnknownAddressType,
    /// SOCKS4 reply status 0x5B: request rejected or failed.
    RequestRejectedOrFailed,
    /// SOCKS4 reply status 0x5C: the server cannot reach the client's identd.
    IdentdAuthFailure,
    /// SOCKS4 reply status 0x5D: identd reports a different user-id.
    InvalidUserIdAuthFailure,
}

impl Error {
    /// The stable, short human-readable form of this error.
    pub fn message(&self) -> (r: String)
        ensures
            self matches Error::Io(s) ==> r@ == s@,
    {
        match self {
            Error::Io(s) => s.clone(),
            Error::InvalidTargetAddress(InvalidTargetReason::Format) => {
                String::from_str("Target address is invalid: invalid address format")
            },
            Error::InvalidTargetAddress(InvalidTargetReason::OverlongDomain) => {
                String::from_str("Target address is invalid: overlong domain")
            },
            Error::InvalidTargetAddress(InvalidTargetReason::NotUtf8) => {
                String::from_str("Target address is invalid: not a valid UTF-8 string")
            },
            Error::InvalidAuthValues(InvalidAuthReason::UsernameLength) => {
                String::from_str("Invalid auth values: username length should between 1 to 255")
            },
            Error::InvalidAuthValues(InvalidAuthReason::PasswordLength) => {
                String::from_str("Invalid auth values: password length should between 1 to 255")
            },
            Error::InvalidAuthValues(InvalidAuthReason::UseridLength) => {
                String::from_str("Invalid auth values: userid length should between 1 to 255")
            },
            Error::ProxyServerUnreachable => String::from_str("Proxy server unreachable"),
            Error::InvalidResponseVersion => String::from_str("Invalid response version"),
            Error::NoAcceptableAuthMethods => String::from_str("No acceptable auth methods"),
            Error::UnknownAuthMethod => String::from_str("Unknown auth method"),
            Error::AuthorizationRequired => String::from_str("Authorization required"),
            Error::PasswordAuthFailure(_) => String::from_str("Password auth failure"),
            Error::GeneralSocksServerFailure => String::from_str("General SOCKS server failure"),
            Error::ConnectionNotAllowedByRuleset => {
                String::from_str("Connection not allowed by ruleset")
            },
            Error::NetworkUnreachable => String::from_str("Network unreachable"),
            Error::HostUnreachable => String::from_str("Host unreachable"),
            Error::ConnectionRefused => String::from_str("Connection refused"),
            Error::TtlExpired => String::from_str("TTL expired"),
            Error::CommandNotSupported => String::from_str("Command not supported"),
            Error::AddressTypeNotSupported => String::from_str("Address type not supported"),
            Error::UnknownError => String::from_str("Unknown error"),
            Error::InvalidReservedByte => String::from_str("Invalid reserved byte"),
            Error::UnknownAddressType => String::from_str("Unknown address type"),
            Error::RequestRejectedOrFailed => String::from_str("Request rejected or failed"),
            Error::IdentdAuthFailure => {
                String::from_str("Request rejected because SOCKS server cannot connect to identd")
            },
            Error::InvalidUserIdAuthFailure => {
                String::from_str("Request rejected because the user-ids do not match")
            },
        }
    }
}

} // verus!
