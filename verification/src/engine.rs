//! The SOCKS5 handshake engine: a pure state machine over byte frames.
//!
//! The engine performs no I/O. Each call to [`Handshake::step`] hands the
//! caller the next action: a frame to write, an exact number of bytes to
//! read, the negotiated target on success, or the error that ended the
//! handshake. The whole run is specified by [`spec_transition`], so every
//! byte written and every check on a reply is pinned down.

use vstd::prelude::*;
use vstd::utf8::valid_utf8;

use crate::addr::str_bytes;
use crate::addr::target_model;
use crate::addr::target_ok;
use crate::addr::IpAddress;
use crate::addr::SocketAddress;
use crate::addr::TargetAddr;
use crate::addr::TargetModel;
use crate::auth::auth_ok;
use crate::auth::validate_error;
use crate::auth::Authentication;
use crate::codec::be16_value;
use crate::codec::method_selection_frame;
use crate::codec::password_auth_frame;
use crate::codec::request_frame;
use crate::codec::spec_method_selection;
use crate::codec::spec_password_auth;
use crate::codec::spec_request;
use crate::codec::spec_status_error;
use crate::codec::status_error;
use crate::codec::string_from_utf8;
use crate::codec::u16_from_be;
use crate::codec::vec_range;
use crate::codec::Command;
use crate::error::Error;
use crate::error::InvalidTargetReason;

verus! {

broadcast use vstd::array::group_array_axioms;

/// What the handshake waits for next.
#[derive(Clone, Copy, Debug, PartialEq, Eq, Structural)]
pub enum HandshakeState {
    /// Nothing sent yet; the next step emits the method selection.
    Start,
    /// The two-byte method-selection reply is due.
    WaitMethodReply,
    /// The two-byte sub-negotiation reply is due.
    WaitPasswordReply,
    /// The first four bytes of the request reply are due.
    WaitReplyHeader,
    /// Six more bytes: an IPv4 address and a port.
    WaitReplyV4,
    /// Eighteen more bytes: an IPv6 address and a port.
    WaitReplyV6,
    /// One more byte: the length of the domain in the reply.
    WaitReplyDomainLen,
    /// The domain bytes and the port are due.
    WaitReplyDomain {
        /// The domain length announced by the reply.
        len: u8,
    },
    /// The handshake ended with a session.
    Complete,
    /// The handshake ended with an error.
    Failed,
}

/// One action for the caller: write bytes, read an exact count, or stop.
#[derive(Debug)]
pub enum Step {
    /// Write all of these bytes to the proxy.
    Send(Vec<u8>),
    /// Read exactly this many bytes from the proxy.
    Recv(usize),
    /// The handshake succeeded; this is the address the proxy reported.
    Done(TargetAddr),
    /// The handshake failed; the stream should be dropped.
    Fail(Error),
}

/// The mathematical shape of a step: sequences in place of vectors.
#[verifier::ext_equal]
pub enum StepModel {
    /// Write these bytes.
    Send(Seq<u8>),
    /// Read exactly this many bytes.
    Recv(int),
    /// Success, with the model of the reported address.
    Done(TargetModel),
    /// Failure with this error.
    Fail(Error),
}

/// The model of a step value.
pub open spec fn step_model(s: Step) -> StepModel {
    match s {
        Step::Send(v) => StepModel::Send(v@),
        Step::Recv(n) => StepModel::Recv(n as int),
        Step::Done(t) => StepModel::Done(target_model(t)),
        Step::Fail(e) => StepModel::Fail(e),
    }
}

/// How many bytes each state waits for; zero where none are due.
pub open spec fn spec_wanted(st: HandshakeState) -> int {
    match st {
        HandshakeState::Start => 0,
        HandshakeState::WaitMethodReply => 2,
        HandshakeState::WaitPasswordReply => 2,
        HandshakeState::WaitReplyHeader => 4,
        HandshakeState::WaitReplyV4 => 6,
        HandshakeState::WaitReplyV6 => 18,
        HandshakeState::WaitReplyDomainLen => 1,
        HandshakeState::WaitReplyDomain { len } => len + 2,
        HandshakeState::Complete => 0,
        HandshakeState::Failed => 0,
    }
}

/// The reply to the method selection: the server's chosen method, checked
/// against what the client proposed.
pub open spec fn spec_on_method_reply(auth: Authentication, command: Command, target: TargetAddr, b: Seq<u8>) -> (
    HandshakeState,
    StepModel,
) {
    if b[0] != 0x05 {
        (HandshakeState::Failed, StepModel::Fail(Error::InvalidResponseVersion))
    } else if b[1] == 0x00 {
        (HandshakeState::WaitReplyHeader, StepModel::Send(spec_request(command, target)))
    } else if b[1] == 0x02 {
        match auth {
            Authentication::Password { username, password } => (
                HandshakeState::WaitPasswordReply,
                StepModel::Send(
                    spec_password_auth(str_bytes(username@), str_bytes(password@)),
                ),
            ),
            Authentication::NoAuth => (
                HandshakeState::Failed,
                StepModel::Fail(Error::AuthorizationRequired),
            ),
        }
    } else if b[1] == 0xFF {
        (HandshakeState::Failed, StepModel::Fail(Error::NoAcceptableAuthMethods))
    } else {
        (HandshakeState::Failed, StepModel::Fail(Error::UnknownAuthMethod))
    }
}

/// The reply to the sub-negotiation: version 0x01, then the status.
pub open spec fn spec_on_password_reply(command: Command, target: TargetAddr, b: Seq<u8>) -> (
    HandshakeState,
    StepModel,
) {
    if b[0] != 0x01 {
        (HandshakeState::Failed, StepModel::Fail(Error::InvalidResponseVersion))
    } else if b[1] != 0x00 {
        (HandshakeState::Failed, StepModel::Fail(Error::PasswordAuthFailure(b[1])))
    } else {
        (HandshakeState::WaitReplyHeader, StepModel::Send(spec_request(command, target)))
    }
}

/// The first four bytes of the request reply: version, status, reserved
/// byte, then the address type, which fixes how many bytes follow.
pub open spec fn spec_on_reply_header(b: Seq<u8>) -> (HandshakeState, StepModel) {
    if b[0] != 0x05 {
        (HandshakeState::Failed, StepModel::Fail(Error::InvalidResponseVersion))
    } else if b[2] != 0x00 {
        (HandshakeState::Failed, StepModel::Fail(Error::InvalidReservedByte))
    } else if b[1] != 0x00 {
        (HandshakeState::Failed, StepModel::Fail(spec_status_error(b[1])))
    } else if b[3] == 0x01 {
        (HandshakeState::WaitReplyV4, StepModel::Recv(6))
    } else if b[3] == 0x04 {
        (HandshakeState::WaitReplyV6, StepModel::Recv(18))
    } else if b[3] == 0x03 {
        (HandshakeState::WaitReplyDomainLen, StepModel::Recv(1))
    } else {
        (HandshakeState::Failed, StepModel::Fail(Error::UnknownAddressType))
    }
}

/// The tail of a domain reply: the name bytes, then the port. The name
/// must decode as UTF-8; `len` may be zero, which yields an empty domain.
pub open spec fn spec_on_reply_domain(len: u8, b: Seq<u8>) -> (HandshakeState, StepModel) {
    let name = b.take(len as int);
    if valid_utf8(name) {
        (
            HandshakeState::Complete,
            StepModel::Done(
                TargetModel::Domain { name, port: be16_value(b[len as int], b[len as int + 1]) },
            ),
        )
    } else {
        (
            HandshakeState::Failed,
            StepModel::Fail(Error::InvalidTargetAddress(InvalidTargetReason::NotUtf8)),
        )
    }
}

/// The complete transition relation of the handshake. `input` is empty when
/// the caller asks what to do next, or holds exactly the bytes the state
/// waits for.
pub open spec fn spec_transition(
    auth: Authentication,
    command: Command,
    target: TargetAddr,
    st: HandshakeState,
    input: Seq<u8>,
) -> (HandshakeState, StepModel) {
    match st {
        HandshakeState::Start => (
            HandshakeState::WaitMethodReply,
            StepModel::Send(spec_method_selection(auth)),
        ),
        HandshakeState::WaitMethodReply => if input.len() == 0 {
            (st, StepModel::Recv(2))
        } else {
            spec_on_method_reply(auth, command, target, input)
        },
        HandshakeState::WaitPasswordReply => if input.len() == 0 {
            (st, StepModel::Recv(2))
        } else {
            spec_on_password_reply(command, target, input)
        },
        HandshakeState::WaitReplyHeader => if input.len() == 0 {
            (st, StepModel::Recv(4))
        } else {
            spec_on_reply_header(input)
        },
        HandshakeState::WaitReplyV4 => if input.len() == 0 {
            (st, StepModel::Recv(6))
        } else {
            (
                HandshakeState::Complete,
                StepModel::Done(
                    TargetModel::Ip {
                        ip: input.take(4),
                        port: be16_value(input[4], input[5]),
                    },
                ),
            )
        },
        HandshakeState::WaitReplyV6 => if input.len() == 0 {
            (st, StepModel::Recv(18))
        } else {
            (
                HandshakeState::Complete,
                StepModel::Done(
                    TargetModel::Ip {
                        ip: input.take(16),
                        port: be16_value(input[16], input[17]),
                    },
                ),
            )
        },
        HandshakeState::WaitReplyDomainLen => if input.len() == 0 {
            (st, StepModel::Recv(1))
        } else {
            (HandshakeState::WaitReplyDomain { len: input[0] }, StepModel::Recv(input[0] + 2))
        },
        HandshakeState::WaitReplyDomain { len } => if input.len() == 0 {
            (st, StepModel::Recv(len + 2))
        } else {
            spec_on_reply_domain(len, input)
        },
        HandshakeState::Complete => (st, StepModel::Recv(0)),
        HandshakeState::Failed => (st, StepModel::Recv(0)),
    }
}

/// The total length of a reply frame: the four header bytes plus the
/// address record that the address type announces.
pub open spec fn spec_reply_frame_len(atyp: u8, dlen: u8) -> int {
    if atyp == 0x01 {
        10
    } else if atyp == 0x04 {
        22
    } else {
        7 + dlen
    }
}

/// The engine never reads past a reply. After the four header bytes of a
/// successful reply, the engine asks for exactly the bytes the address
/// type announces — for a domain, first the single length byte, then the
/// name and port — and the consuming step asks for nothing further, so the
/// byte counts of its reads sum to exactly the frame length.
pub proof fn lemma_no_over_read(
    auth: Authentication,
    command: Command,
    target: TargetAddr,
    hdr: Seq<u8>,
)
    requires
        hdr.len() == 4,
        hdr[0] == 0x05,
        hdr[1] == 0x00,
        hdr[2] == 0x00,
    ensures
        hdr[3] == 0x01 ==> spec_transition(auth, command, target, HandshakeState::WaitReplyHeader, hdr)
            == (HandshakeState::WaitReplyV4, StepModel::Recv(6)) && 4 + 6
            == spec_reply_frame_len(0x01, 0),
        hdr[3] == 0x04 ==> spec_transition(auth, command, target, HandshakeState::WaitReplyHeader, hdr)
            == (HandshakeState::WaitReplyV6, StepModel::Recv(18)) && 4 + 18
            == spec_reply_frame_len(0x04, 0),
        hdr[3] == 0x03 ==> spec_transition(auth, command, target, HandshakeState::WaitReplyHeader, hdr)
            == (HandshakeState::WaitReplyDomainLen, StepModel::Recv(1)),
        forall|l: u8|
            #[trigger] spec_transition(
                auth,
                command,
                target,
                HandshakeState::WaitReplyDomainLen,
                seq![l],
            ) == (HandshakeState::WaitReplyDomain { len: l }, StepModel::Recv(l + 2)) && 4 + 1 + (
            l + 2) == spec_reply_frame_len(0x03, l),
        // the consuming steps end the run: they never request another read
        forall|tail: Seq<u8>|
            tail.len() == 6 ==> !((#[trigger] spec_transition(
                auth,
                command,
                target,
                HandshakeState::WaitReplyV4,
                tail,
            )).1 is Recv),
        forall|tail: Seq<u8>|
            tail.len() == 18 ==> !((#[trigger] spec_transition(
                auth,
                command,
                target,
                HandshakeState::WaitReplyV6,
                tail,
            )).1 is Recv),
        forall|l: u8, tail: Seq<u8>|
            tail.len() == l + 2 ==> !((#[trigger] spec_transition(
                auth,
                command,
                target,
                HandshakeState::WaitReplyDomain { len: l },
                tail,
            )).1 is Recv),
{
    assert forall|l: u8|
        #[trigger] spec_transition(
            auth,
            command,
            target,
            HandshakeState::WaitReplyDomainLen,
            seq![l],
        ) == (HandshakeState::WaitReplyDomain { len: l }, StepModel::Recv(l + 2)) && 4 + 1 + (l
        + 2) == spec_reply_frame_len(0x03, l) by {
        assert(seq![l].len() == 1);
        assert(seq![l][0] == l);
    }
    assert forall|l: u8, tail: Seq<u8>|
        tail.len() == l + 2 implies !((#[trigger] spec_transition(
        auth,
        command,
        target,
        HandshakeState::WaitReplyDomain { len: l },
        tail,
    )).1 is Recv) by {
        assert(tail.len() > 0);
    }
}

/// The scratch bound of the wire format: no frame the engine emits
/// exceeds 513 bytes — the largest is the password sub-negotiation
/// request, 3 bytes of framing plus two 255-byte credentials — and no
/// read it requests exceeds 257 bytes.
pub proof fn lemma_frames_fit_scratch(
    auth: Authentication,
    command: Command,
    target: TargetAddr,
    st: HandshakeState,
    input: Seq<u8>,
)
    requires
        auth_ok(auth),
        target_ok(target),
    ensures
        spec_transition(auth, command, target, st, input).1 matches StepModel::Send(f) ==> f.len()
            <= 513,
        spec_transition(auth, command, target, st, input).1 matches StepModel::Recv(n) ==> n
            <= 257,
{
}

/// Driver soundness: whenever a step asks to read `n` bytes and the
/// handshake is not finished, `n` is exactly what the new state waits
/// for — so a caller that reads what `Recv` asks always hands the next
/// step an input of the expected length.
pub proof fn lemma_recv_matches_wanted(
    auth: Authentication,
    command: Command,
    target: TargetAddr,
    st: HandshakeState,
    input: Seq<u8>,
)
    ensures
        ({
            let (st2, act) = spec_transition(auth, command, target, st, input);
            act matches StepModel::Recv(n) ==> ((!(st2 is Complete) && !(st2 is Failed)) ==> n
                == spec_wanted(st2))
        }),
{
}

/// A SOCKS5 handshake in flight.
#[derive(Debug)]
pub struct Handshake {
    /// The authentication choice advertised to the proxy.
    pub auth: Authentication,
    /// The command carried by the request.
    pub command: Command,
    /// The target the request names.
    pub target: TargetAddr,
    /// What the engine waits for next.
    pub state: HandshakeState,
}

impl Handshake {
    /// A handshake whose inputs the engine can always frame.
    pub open spec fn wf(self) -> bool {
        auth_ok(self.auth) && target_ok(self.target)
    }

    /// The handshake has reached a terminal state.
    pub open spec fn finished(self) -> bool {
        self.state is Complete || self.state is Failed
    }

    /// Starts a handshake. Credentials are validated here, before anything
    /// is written: a username or password outside 1..=255 bytes is the
    /// error, and no step is ever taken.
    pub fn new(command: Command, auth: Authentication, target: TargetAddr) -> (r: Result<
        Handshake,
        Error,
    >)
        requires
            target_ok(target),
        ensures
            auth_ok(auth) ==> (r matches Result::Ok(h) && h == (Handshake {
                auth,
                command,
                target,
                state: HandshakeState::Start,
            })),
            !auth_ok(auth) ==> r == Result::<Handshake, Error>::Err(validate_error(auth)),
    {
        match auth.validate() {
            Ok(()) => Ok(
                Handshake { auth, command, target, state: HandshakeState::Start },
            ),
            Err(e) => Err(e),
        }
    }

    /// Re-enters the engine at the reply, as a BIND rendezvous does when
    /// the second reply announces the connected peer.
    pub fn resume(target: TargetAddr) -> (r: Handshake)
        requires
            target_ok(target),
        ensures
            r == (Handshake {
                auth: Authentication::NoAuth,
                command: Command::Bind,
                target,
                state: HandshakeState::WaitReplyHeader,
            }),
    {
        Handshake {
            auth: Authentication::NoAuth,
            command: Command::Bind,
            target,
            state: HandshakeState::WaitReplyHeader,
        }
    }

    /// How many bytes the engine waits for in its current state.
    pub fn wanted(&self) -> (r: usize)
        ensures
            r == spec_wanted(self.state),
    {
        match self.state {
            HandshakeState::Start => 0,
            HandshakeState::WaitMethodReply => 2,
            HandshakeState::WaitPasswordReply => 2,
            HandshakeState::WaitReplyHeader => 4,
            HandshakeState::WaitReplyV4 => 6,
            HandshakeState::WaitReplyV6 => 18,
            HandshakeState::WaitReplyDomainLen => 1,
            HandshakeState::WaitReplyDomain { len } => len as usize + 2,
            HandshakeState::Complete => 0,
            HandshakeState::Failed => 0,
        }
    }

    /// Advances the handshake. Call with an empty `input` after performing
    /// a `Send`, or at the very start; call with exactly the bytes that the
    /// preceding `Recv` asked for once they have been read. The returned
    /// step is the next thing to perform.
    pub fn step(&mut self, input: &Vec<u8>) -> (r: Step)
        requires
            old(self).wf(),
            !old(self).finished(),
            input@.len() == 0 || input@.len() == spec_wanted(old(self).state),
        ensures
            final(self).auth == old(self).auth,
            final(self).command == old(self).command,
            final(self).target == old(self).target,
            final(self).wf(),
            ({
                let (st, act) = spec_transition(
                    old(self).auth,
                    old(self).command,
                    old(self).target,
                    old(self).state,
                    input@,
                );
                final(self).state == st && step_model(r) == act
            }),
    {
        match self.state {
            HandshakeState::Start => {
                self.state = HandshakeState::WaitMethodReply;
                Step::Send(method_selection_frame(&self.auth))
            },
            HandshakeState::WaitMethodReply => {
                if input.len() == 0 {
                    return Step::Recv(2);
                }
                if input[0] != 0x05 {
                    self.state = HandshakeState::Failed;
                    return Step::Fail(Error::InvalidResponseVersion);
                }
                if input[1] == 0x00 {
                    self.state = HandshakeState::WaitReplyHeader;
                    return Step::Send(request_frame(self.command, &self.target));
                }
                if input[1] == 0x02 {
                    match &self.auth {
                        Authentication::Password { username, password } => {
                            let frame = password_auth_frame(
                                username.as_str(),
                                password.as_str(),
                            );
                            self.state = HandshakeState::WaitPasswordReply;
                            return Step::Send(frame);
                        },
                        Authentication::NoAuth => {
                            self.state = HandshakeState::Failed;
                            return Step::Fail(Error::AuthorizationRequired);
                        },
                    }
                }
                if input[1] == 0xFF {
                    self.state = HandshakeState::Failed;
                    return Step::Fail(Error::NoAcceptableAuthMethods);
                }
                self.state = HandshakeState::Failed;
                Step::Fail(Error::UnknownAuthMethod)
            },
            HandshakeState::WaitPasswordReply => {
                if input.len() == 0 {
                    return Step::Recv(2);
                }
                if input[0] != 0x01 {
                    self.state = HandshakeState::Failed;
                    return Step::Fail(Error::InvalidResponseVersion);
                }
                if input[1] != 0x00 {
                    self.state = HandshakeState::Failed;
                    return Step::Fail(Error::PasswordAuthFailure(input[1]));
                }
                self.state = HandshakeState::WaitReplyHeader;
                Step::Send(request_frame(self.command, &self.target))
            },
            HandshakeState::WaitReplyHeader => {
                if input.len() == 0 {
                    return Step::Recv(4);
                }
                if input[0] != 0x05 {
                    self.state = HandshakeState::Failed;
                    return Step::Fail(Error::InvalidResponseVersion);
                }
                if input[2] != 0x00 {
                    self.state = HandshakeState::Failed;
                    return Step::Fail(Error::InvalidReservedByte);
                }
                if input[1] != 0x00 {
                    self.state = HandshakeState::Failed;
                    return Step::Fail(status_error(input[1]));
                }
                if input[3] == 0x01 {
                    self.state = HandshakeState::WaitReplyV4;
                    Step::Recv(6)
                } else if input[3] == 0x04 {
                    self.state = HandshakeState::WaitReplyV6;
                    Step::Recv(18)
                } else if input[3] == 0x03 {
                    self.state = HandshakeState::WaitReplyDomainLen;
                    Step::Recv(1)
                } else {
                    self.state = HandshakeState::Failed;
                    Step::Fail(Error::UnknownAddressType)
                }
            },
            HandshakeState::WaitReplyV4 => {
                if input.len() == 0 {
                    return Step::Recv(6);
                }
                let ip: [u8; 4] = [input[0], input[1], input[2], input[3]];
                let port = u16_from_be(input[4], input[5]);
                self.state = HandshakeState::Complete;
                proof {
                    assert(ip@ =~= input@.take(4));
                }
                Step::Done(
                    TargetAddr::Ip(SocketAddress { ip: IpAddress::V4(ip), port }),
                )
            },
            HandshakeState::WaitReplyV6 => {
                if input.len() == 0 {
                    return Step::Recv(18);
                }
                let ip: [u8; 16] = [
                    input[0],
                    input[1],
                    input[2],
                    input[3],
                    input[4],
                    input[5],
                    input[6],
                    input[7],
                    input[8],
                    input[9],
                    input[10],
                    input[11],
                    input[12],
                    input[13],
                    input[14],
                    input[15],
                ];
                let port = u16_from_be(input[16], input[17]);
                self.state = HandshakeState::Complete;
                proof {
                    assert(ip@ =~= input@.take(16));
                }
                Step::Done(
                    TargetAddr::Ip(SocketAddress { ip: IpAddress::V6(ip), port }),
                )
            },
            HandshakeState::WaitReplyDomainLen => {
                if input.len() == 0 {
                    return Step::Recv(1);
                }
                self.state = HandshakeState::WaitReplyDomain { len: input[0] };
                Step::Recv(input[0] as usize + 2)
            },
            HandshakeState::WaitReplyDomain { len } => {
                if input.len() == 0 {
                    return Step::Recv(len as usize + 2);
                }
                let name_bytes = vec_range(input, 0, len as usize);
                let port = u16_from_be(input[len as usize], input[len as usize + 1]);
                proof {
                    assert(name_bytes@ =~= input@.take(len as int));
                }
                match string_from_utf8(name_bytes) {
                    Some(s) => {
                        self.state = HandshakeState::Complete;
                        proof {
                            vstd::utf8::decode_utf8_encode_utf8(input@.take(len as int));
                        }
                        Step::Done(TargetAddr::Domain(s, port))
                    },
                    None => {
                        self.state = HandshakeState::Failed;
                        Step::Fail(
                            Error::InvalidTargetAddress(InvalidTargetReason::NotUtf8),
                        )
                    },
                }
            },
            HandshakeState::Complete => Step::Recv(0),
            HandshakeState::Failed => Step::Recv(0),
        }
    }
}

} // verus!


