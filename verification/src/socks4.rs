//! The SOCKS4/4a handshake: one request, one fixed eight-byte reply.

use vstd::prelude::*;

use crate::addr::str_bytes;
use crate::addr::target_ok;
use crate::addr::IpAddress;
use crate::addr::SocketAddress;
use crate::addr::TargetAddr;
use crate::addr::TargetModel;
use crate::codec::be16_value;
use crate::codec::spec_code;
use crate::codec::u16_from_be;
use crate::codec::Command;
use crate::engine::step_model;
use crate::engine::Step;
use crate::engine::StepModel;
use crate::error::Error;
use crate::error::InvalidAuthReason;

verus! {

broadcast use vstd::array::group_array_axioms;

/// A SOCKS4 user-id is either absent or 1 to 255 bytes long.
pub open spec fn userid_ok(uid: Option<String>) -> bool {
    match uid {
        Option::Some(s) => 1 <= str_bytes(s@).len() <= 255,
        Option::None => true,
    }
}

/// Checks the 1..=255 byte-length bound of an optional user-id.
pub fn validate_userid(uid: &Option<String>) -> (r: Result<(), Error>)
    ensures
        r is Ok <==> userid_ok(*uid),
        !userid_ok(*uid) ==> r == Result::<(), Error>::Err(
            Error::InvalidAuthValues(InvalidAuthReason::UseridLength),
        ),
{
    match uid {
        Option::Some(s) => {
            let n = s.as_str().as_bytes().len();
            if n < 1 || n > 255 {
                Err(Error::InvalidAuthValues(InvalidAuthReason::UseridLength))
            } else {
                Ok(())
            }
        },
        Option::None => Ok(()),
    }
}

/// The user-id bytes of the request: empty when no user-id was given.
pub open spec fn spec_userid_bytes(uid: Option<String>) -> Seq<u8> {
    match uid {
        Option::Some(s) => str_bytes(s@),
        Option::None => Seq::<u8>::empty(),
    }
}

/// A target a SOCKS4 request can carry: IPv4 endpoints, and domain names
/// through the 4a extension; IPv6 has no SOCKS4 form.
pub open spec fn target4_ok(t: TargetAddr) -> bool {
    target_ok(t) && !(t matches TargetAddr::Ip(sa) && sa.ip is V6)
}

/// The SOCKS4 request: version 0x04, the command, the port, then the IPv4
/// address, the null-terminated user-id — and, for a domain target, the
/// address field 0.0.0.1 followed by the null-terminated domain (SOCKS4a).
pub open spec fn spec_socks4_request(c: Command, t: TargetAddr, uid: Option<String>) -> Seq<u8> {
    match t {
        TargetAddr::Ip(sa) => match sa.ip {
            IpAddress::V4(o) => seq![0x04u8, spec_code(c), (sa.port / 256) as u8, (sa.port % 256) as u8]
                + o@ + spec_userid_bytes(uid) + seq![0x00u8],
            IpAddress::V6(_) => Seq::<u8>::empty(),
        },
        TargetAddr::Domain(d, p) => seq![0x04u8, spec_code(c), (p / 256) as u8, (p % 256) as u8, 0x00u8, 0x00u8, 0x00u8, 0x01u8]
            + spec_userid_bytes(uid) + seq![0x00u8] + str_bytes(d@) + seq![0x00u8],
    }
}

/// Builds the SOCKS4/4a request frame.
pub fn socks4_request_frame(command: Command, target: &TargetAddr, uid: &Option<String>) -> (r:
    Vec<u8>)
    requires
        target4_ok(*target),
    ensures
        r@ == spec_socks4_request(command, *target, *uid),
{
    let mut r: Vec<u8> = Vec::new();
    r.push(0x04);
    r.push(command.code());
    match target {
        TargetAddr::Ip(sa) => {
            r.push((sa.port / 256) as u8);
            r.push((sa.port % 256) as u8);
            match &sa.ip {
                IpAddress::V4(o) => {
                    r.extend_from_slice(o.as_slice());
                },
                IpAddress::V6(_) => {
                    proof {
                        assert(false);
                    }
                },
            }
            match uid {
                Option::Some(s) => {
                    r.extend_from_slice(s.as_str().as_bytes());
                },
                Option::None => {},
            }
            r.push(0x00);
        },
        TargetAddr::Domain(d, p) => {
            r.push((*p / 256) as u8);
            r.push((*p % 256) as u8);
            r.push(0x00);
            r.push(0x00);
            r.push(0x00);
            r.push(0x01);
            match uid {
                Option::Some(s) => {
                    r.extend_from_slice(s.as_str().as_bytes());
                },
                Option::None => {},
            }
            r.push(0x00);
            r.extend_from_slice(d.as_str().as_bytes());
            r.push(0x00);
        },
    }
    assert(r@ =~= spec_socks4_request(command, *target, *uid));
    r
}

/// What an eight-byte SOCKS4 reply decides: version byte 0x00, then the
/// status, where only 0x5A grants the connection, then the bound port
/// and IPv4 address.
pub open spec fn spec_on_socks4_reply(b: Seq<u8>) -> (Socks4State, StepModel) {
    if b[0] != 0x00 {
        (Socks4State::Failed, StepModel::Fail(Error::InvalidResponseVersion))
    } else if b[1] == 0x5A {
        (
            Socks4State::Complete,
            StepModel::Done(
                TargetModel::Ip { ip: b.subrange(4, 8), port: be16_value(b[2], b[3]) },
            ),
        )
    } else if b[1] == 0x5B {
        (Socks4State::Failed, StepModel::Fail(Error::RequestRejectedOrFailed))
    } else if b[1] == 0x5C {
        (Socks4State::Failed, StepModel::Fail(Error::IdentdAuthFailure))
    } else if b[1] == 0x5D {
        (Socks4State::Failed, StepModel::Fail(Error::InvalidUserIdAuthFailure))
    } else {
        (Socks4State::Failed, StepModel::Fail(Error::UnknownError))
    }
}

/// What the SOCKS4 handshake waits for next.
#[derive(Clone, Copy, Debug, PartialEq, Eq, Structural)]
pub enum Socks4State {
    /// Nothing sent yet; the next step emits the request.
    Start,
    /// The eight-byte reply is due.
    WaitReply,
    /// The handshake ended with a session.
    Complete,
    /// The handshake ended with an error.
    Failed,
}

/// The complete transition relation of the SOCKS4 handshake.
pub open spec fn spec_transition4(
    command: Command,
    target: TargetAddr,
    uid: Option<String>,
    st: Socks4State,
    input: Seq<u8>,
) -> (Socks4State, StepModel) {
    match st {
        Socks4State::Start => (
            Socks4State::WaitReply,
            StepModel::Send(spec_socks4_request(command, target, uid)),
        ),
        Socks4State::WaitReply => if input.len() == 0 {
            (st, StepModel::Recv(8))
        } else {
            spec_on_socks4_reply(input)
        },
        Socks4State::Complete => (st, StepModel::Recv(0)),
        Socks4State::Failed => (st, StepModel::Recv(0)),
    }
}

/// A SOCKS4 handshake in flight.
#[derive(Debug)]
pub struct Socks4Handshake {
    /// The command carried by the request.
    pub command: Command,
    /// The target the request names.
    pub target: TargetAddr,
    /// The optional user-id of the request.
    pub user_id: Option<String>,
    /// What the engine waits for next.
    pub state: Socks4State,
}

impl Socks4Handshake {
    /// A handshake whose request the engine can always frame.
    pub open spec fn wf(self) -> bool {
        target4_ok(self.target) && userid_ok(self.user_id)
    }

    /// The handshake has reached a terminal state.
    pub open spec fn finished(self) -> bool {
        self.state is Complete || self.state is Failed
    }

    /// Starts a SOCKS4 handshake. The user-id is validated here, before
    /// anything is written, and an IPv6 target is rejected outright: the
    /// protocol cannot carry one.
    pub fn new(command: Command, target: TargetAddr, user_id: Option<String>) -> (r: Result<
        Socks4Handshake,
        Error,
    >)
        requires
            target_ok(target),
        ensures
            !userid_ok(user_id) ==> r == Result::<Socks4Handshake, Error>::Err(
                Error::InvalidAuthValues(InvalidAuthReason::UseridLength),
            ),
            userid_ok(user_id) && (target matches TargetAddr::Ip(sa) && sa.ip is V6) ==> r
                == Result::<Socks4Handshake, Error>::Err(Error::AddressTypeNotSupported),
            userid_ok(user_id) && !(target matches TargetAddr::Ip(sa) && sa.ip is V6) ==> (r
                matches Result::Ok(h) && h == (Socks4Handshake {
                command,
                target,
                user_id,
                state: Socks4State::Start,
            })),
    {
        match validate_userid(&user_id) {
            Ok(()) => {
                let v6 = match &target {
                    TargetAddr::Ip(sa) => match &sa.ip {
                        IpAddress::V6(_) => true,
                        IpAddress::V4(_) => false,
                    },
                    TargetAddr::Domain(_, _) => false,
                };
                if v6 {
                    Err(Error::AddressTypeNotSupported)
                } else {
                    Ok(Socks4Handshake { command, target, user_id, state: Socks4State::Start })
                }
            },
            Err(e) => Err(e),
        }
    }

    /// Advances the handshake, under the same calling discipline as the
    /// SOCKS5 engine: empty input after a `Send` or at the start, exactly
    /// the requested bytes after a `Recv`.
    pub fn step(&mut self, input: &Vec<u8>) -> (r: Step)
        requires
            old(self).wf(),
            !old(self).finished(),
            input@.len() == 0 || input@.len() == 8,
        ensures
            final(self).command == old(self).command,
            final(self).target == old(self).target,
            final(self).user_id == old(self).user_id,
            final(self).wf(),
            ({
                let (st, act) = spec_transition4(
                    old(self).command,
                    old(self).target,
                    old(self).user_id,
                    old(self).state,
                    input@,
                );
                final(self).state == st && step_model(r) == act
            }),
    {
        match self.state {
            Socks4State::Start => {
                self.state = Socks4State::WaitReply;
                Step::Send(socks4_request_frame(self.command, &self.target, &self.user_id))
            },
            Socks4State::WaitReply => {
                if input.len() == 0 {
                    return Step::Recv(8);
                }
                if input[0] != 0x00 {
                    self.state = Socks4State::Failed;
                    return Step::Fail(Error::InvalidResponseVersion);
                }
                if input[1] == 0x5A {
                    let ip: [u8; 4] = [input[4], input[5], input[6], input[7]];
                    let port = u16_from_be(input[2], input[3]);
                    self.state = Socks4State::Complete;
                    proof {
                        assert(ip@ =~= input@.subrange(4, 8));
                    }
                    Step::Done(
                        TargetAddr::Ip(SocketAddress { ip: IpAddress::V4(ip), port }),
                    )
                } else if input[1] == 0x5B {
                    self.state = Socks4State::Failed;
                    Step::Fail(Error::RequestRejectedOrFailed)
                } else if input[1] == 0x5C {
                    self.state = Socks4State::Failed;
                    Step::Fail(Error::IdentdAuthFailure)
                } else if input[1] == 0x5D {
                    self.state = Socks4State::Failed;
                    Step::Fail(Error::InvalidUserIdAuthFailure)
                } else {
                    self.state = Socks4State::Failed;
                    Step::Fail(Error::UnknownError)
                }
            },
            Socks4State::Complete => Step::Recv(0),
            Socks4State::Failed => Step::Recv(0),
        }
    }

    /// Re-enters the engine at the reply, as a SOCKS4 BIND rendezvous does
    /// when the second reply announces the connected peer.
    pub fn resume(target: TargetAddr) -> (r: Socks4Handshake)
        requires
            target_ok(target),
            !(target matches TargetAddr::Ip(sa) && sa.ip is V6),
        ensures
            r == (Socks4Handshake {
                command: Command::Bind,
                target,
                user_id: Option::<String>::None,
                state: Socks4State::WaitReply,
            }),
    {
        Socks4Handshake {
            command: Command::Bind,
            target,
            user_id: None,
            state: Socks4State::WaitReply,
        }
    }
}

} // verus!
