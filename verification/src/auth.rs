//! Authentication choices for the SOCKS5 handshake and their validation.

use vstd::prelude::*;

use crate::addr::str_bytes;
use crate::error::Error;
use crate::error::InvalidAuthReason;

verus! {

/// How the client authenticates to the proxy.
#[derive(Clone, Debug, PartialEq, Eq)]
pub enum Authentication {
    /// RFC 1929 username/password sub-negotiation.
    Password {
        /// The username; 1 to 255 bytes.
        username: String,
        /// The password; 1 to 255 bytes.
        password: String,
    },
    /// No authentication.
    NoAuth,
}

/// Both credential fields of a password pair span 1 to 255 bytes; the
/// anonymous choice is always valid.
pub open spec fn auth_ok(a: Authentication) -> bool {
    match a {
        Authentication::Password { username, password } => {
            &&& 1 <= str_bytes(username@).len() <= 255
            &&& 1 <= str_bytes(password@).len() <= 255
        },
        Authentication::NoAuth => true,
    }
}

impl Authentication {
    /// The SOCKS5 method identifier advertised for this choice.
    pub fn id(&self) -> (r: u8)
        ensures
            r == spec_id(*self),
    {
        match self {
            Authentication::Password { .. } => 0x02,
            Authentication::NoAuth => 0x00,
        }
    }

    /// Checks the 1..=255 byte-length bound on both credential fields, the
    /// username first; the anonymous choice passes trivially.
    pub fn validate(&self) -> (r: Result<(), Error>)
        ensures
            r is Ok <==> auth_ok(*self),
            !auth_ok(*self) ==> (r matches Result::Err(e) && e == validate_error(*self)),
    {
        match self {
            Authentication::Password { username, password } => {
                let ulen = username.as_str().as_bytes().len();
                if ulen < 1 || ulen > 255 {
                    return Err(Error::InvalidAuthValues(InvalidAuthReason::UsernameLength));
                }
                let plen = password.as_str().as_bytes().len();
                if plen < 1 || plen > 255 {
                    return Err(Error::InvalidAuthValues(InvalidAuthReason::PasswordLength));
                }
                Ok(())
            },
            Authentication::NoAuth => Ok(()),
        }
    }
}

/// The method identifier: 0x02 for username/password, 0x00 for none.
pub open spec fn spec_id(a: Authentication) -> u8 {
    match a {
        Authentication::Password { .. } => 0x02,
        Authentication::NoAuth => 0x00,
    }
}

/// Which error an invalid pair of credentials draws: the username bound is
/// checked before the password bound.
pub open spec fn validate_error(a: Authentication) -> Error {
    if a matches Authentication::Password { username, .. } && !(1 <= str_bytes(username@).len()
        <= 255) {
        Error::InvalidAuthValues(InvalidAuthReason::UsernameLength)
    } else {
        Error::InvalidAuthValues(InvalidAuthReason::PasswordLength)
    }
}

} // verus!
