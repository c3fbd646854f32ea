//! One handshake with a proxy, as a state machine: the caller sends what a
//! step hands out, reads as many bytes as `bytes_wanted` asks for, and
//! passes them to `on_reply`.
use vstd::prelude::*;
use crate::address::{DestinationAddress, DestinationView};
use crate::error::ConnectError;
use crate::socks4;
use crate::socks5;
use crate::socks5::{Credentials, CredentialsView};
use crate::wire::port_bytes;

verus! {

/// Where a handshake stands.
#[derive(Debug, Clone, Copy, PartialEq, Eq, Structural)]
pub enum Phase {
    /// SOCKS4 request sent, waiting for the reply.
    Socks4Reply,
    /// SOCKS5 method offer sent, waiting for the proxy's choice.
    Socks5Method,
    /// SOCKS5 user name and password sent, waiting for the verdict.
    Socks5Auth,
    /// SOCKS5 CONNECT request sent, waiting for the reply.
    Socks5Reply,
    /// The proxy relays to the destination; the stream belongs to the caller.
    Established,
    /// The handshake failed; the stream is to be closed.
    Failed,
}

/// What the caller does after a reply was read.
#[derive(Debug, PartialEq, Eq)]
pub enum Step {
    /// Write these bytes to the proxy, then read the next reply.
    Send(Vec<u8>),
    /// The handshake is done and the stream is ready.
    Established,
    /// The handshake failed for this reason.
    Failed(ConnectError),
}

pub enum StepView {
    Send(Seq<u8>),
    Established,
    Failed(ConnectError),
}

impl View for Step {
    type V = StepView;

    open spec fn view(&self) -> StepView {
        match self {
            Step::Send(b) => StepView::Send(b@),
            Step::Established => StepView::Established,
            Step::Failed(e) => StepView::Failed(*e),
        }
    }
}

/// The state of one handshake.
pub struct Handshake {
    phase: Phase,
    dest: DestinationAddress,
    credentials: Credentials,
}

pub struct HandshakeView {
    pub phase: Phase,
    pub dest: DestinationView,
    pub credentials: CredentialsView,
}

impl View for Handshake {
    type V = HandshakeView;

    closed spec fn view(&self) -> HandshakeView {
        HandshakeView { phase: self.phase, dest: self.dest@, credentials: self.credentials@ }
    }
}

/// The next phase and step after `reply` came in phase `h.phase`.
pub open spec fn transition(h: HandshakeView, reply: Seq<u8>) -> (Phase, StepView) {
    match h.phase {
        Phase::Socks4Reply => match socks4::reply_outcome(reply) {
            Ok(_) => (Phase::Established, StepView::Established),
            Err(e) => (Phase::Failed, StepView::Failed(e)),
        },
        Phase::Socks5Method => match socks5::method_outcome(reply, h.credentials) {
            Err(e) => (Phase::Failed, StepView::Failed(e)),
            Ok(true) => (
                Phase::Socks5Auth,
                StepView::Send(
                    socks5::auth_request(
                        h.credentials->UsernamePassword_0,
                        h.credentials->UsernamePassword_1,
                    ),
                ),
            ),
            Ok(false) => (Phase::Socks5Reply, StepView::Send(socks5::connect_request(h.dest))),
        },
        Phase::Socks5Auth => match socks5::auth_outcome(reply) {
            Ok(_) => (Phase::Socks5Reply, StepView::Send(socks5::connect_request(h.dest))),
            Err(e) => (Phase::Failed, StepView::Failed(e)),
        },
        Phase::Socks5Reply => match socks5::connect_outcome(reply) {
            Ok(_) => (Phase::Established, StepView::Established),
            Err(e) => (Phase::Failed, StepView::Failed(e)),
        },
        _ => (h.phase, StepView::Failed(ConnectError::MalformedReply)),
    }
}

/// How many reply bytes the phase waits for, given those already received.
pub open spec fn wanted(h: HandshakeView, received: Seq<u8>) -> usize {
    match h.phase {
        Phase::Socks4Reply => socks4::REPLY_LEN,
        Phase::Socks5Method => 2,
        Phase::Socks5Auth => 2,
        Phase::Socks5Reply => socks5::reply_frame_len(received),
        _ => 0,
    }
}

/// A SOCKS4 session for a destination other than IPv6 sends the request
/// laid out as version 4, CONNECT, the port in network order, four address
/// bytes (0.0.0.1 for a host name), the user id and a zero byte, the host
/// name and a zero byte after that when there is one; and a reply granting
/// the request (status 0x5A) establishes the stream.
pub proof fn lemma_socks4_granted(dest: DestinationView, userid: Seq<u8>, reply: Seq<u8>)
    requires
        dest.wf(),
        !(dest is Ipv6),
        reply.len() >= socks4::REPLY_LEN,
        reply[0] == 0 || reply[0] == socks4::VERSION,
        reply[1] == socks4::GRANTED,
    ensures
        ({
            let req = socks4::request(dest, userid);
            &&& req.len() >= 9 + userid.len()
            &&& req[0] == socks4::VERSION
            &&& req[1] == socks4::CMD_CONNECT
            &&& req.subrange(2, 4) == port_bytes(dest.port())
            &&& dest is Ipv4 ==> req.subrange(4, 8) == dest->Ipv4_0
            &&& dest is DomainName ==> req.subrange(4, 8) == seq![0u8, 0u8, 0u8, 1u8]
            &&& req.subrange(8, 8 + userid.len() as int) == userid
            &&& req[8 + userid.len() as int] == 0
            &&& dest is DomainName ==> req.subrange(9 + userid.len() as int, req.len() as int)
                == dest->DomainName_0 + seq![0u8]
            &&& dest is Ipv4 ==> req.len() == 9 + userid.len()
        }),
        transition(
            HandshakeView { phase: Phase::Socks4Reply, dest, credentials: CredentialsView::NoAuth },
            reply,
        ) == (Phase::Established, StepView::Established),
{
    let req = socks4::request(dest, userid);
    match dest {
        DestinationView::Ipv4(ip, port) => {
            assert(req.subrange(2, 4) == port_bytes(port));
            assert(req.subrange(4, 8) == ip);
            assert(req.subrange(8, 8 + userid.len() as int) == userid);
        },
        DestinationView::DomainName(name, port) => {
            assert(req.subrange(2, 4) == port_bytes(port));
            assert(req.subrange(4, 8) == seq![0u8, 0u8, 0u8, 1u8]);
            assert(req.subrange(8, 8 + userid.len() as int) == userid);
            assert(req.subrange(9 + userid.len() as int, req.len() as int) == name + seq![0u8]);
        },
        _ => {},
    }
}

/// The three SOCKS4 rejection codes each fail the handshake with an error
/// that keeps the code, so no two of them can be mistaken for each other.
pub proof fn lemma_socks4_rejections_distinct(h: HandshakeView, r1: Seq<u8>, r2: Seq<u8>)
    requires
        h.phase == Phase::Socks4Reply,
        r1.len() >= socks4::REPLY_LEN,
        r2.len() >= socks4::REPLY_LEN,
        r1[0] == 0,
        r2[0] == 0,
        socks4::REJECTED <= r1[1] <= socks4::IDENTD_MISMATCH,
        socks4::REJECTED <= r2[1] <= socks4::IDENTD_MISMATCH,
        r1[1] != r2[1],
    ensures
        transition(h, r1) == (Phase::Failed, StepView::Failed(ConnectError::HandshakeRejected(r1[1]))),
        transition(h, r2) == (Phase::Failed, StepView::Failed(ConnectError::HandshakeRejected(r2[1]))),
        transition(h, r1) != transition(h, r2),
{
}

/// A SOCKS5 session without credentials whose proxy does not pick the
/// no-authentication method fails at once: nothing more is sent, so no
/// CONNECT request reaches the proxy. A proxy that accepts no offered
/// method (0xFF) gives `NoAcceptableAuthMethod`.
pub proof fn lemma_socks5_no_method_no_request(h: HandshakeView, reply: Seq<u8>)
    requires
        h.phase == Phase::Socks5Method,
        h.credentials is NoAuth,
        reply.len() >= 2,
        reply[1] != socks5::METHOD_NO_AUTH,
    ensures
        transition(h, reply).0 == Phase::Failed,
        transition(h, reply).1 is Failed,
        reply[0] == socks5::VERSION && reply[1] == socks5::METHOD_NONE_ACCEPTABLE ==> transition(
            h,
            reply,
        ).1 == StepView::Failed(ConnectError::NoAcceptableAuthMethod),
{
}

impl Handshake {
    /// Well-formed: a SOCKS5 phase holds what its messages can encode.
    pub open spec fn wf(&self) -> bool {
        (self@.phase is Socks5Method || self@.phase is Socks5Auth || self@.phase is Socks5Reply)
            ==> (self@.credentials.fits() && socks5::destination_fits(self@.dest))
    }

    /// Starts a SOCKS4 handshake: returns the session and the request to send.
    pub fn socks4(dest: DestinationAddress, userid: &[u8]) -> (r: Result<
        (Handshake, Vec<u8>),
        ConnectError,
    >)
        ensures
            dest@ is Ipv6 ==> r is Err && r->Err_0 == ConnectError::UnsupportedAddress,
            !(dest@ is Ipv6) ==> r is Ok && r->Ok_0.0.wf() && r->Ok_0.0@ == (HandshakeView {
                phase: Phase::Socks4Reply,
                dest: dest@,
                credentials: CredentialsView::NoAuth,
            }) && r->Ok_0.1@ == socks4::request(dest@, userid@),
    {
        match socks4::encode_request(&dest, userid) {
            Ok(msg) => Ok(
                (Handshake { phase: Phase::Socks4Reply, dest, credentials: Credentials::NoAuth }, msg),
            ),
            Err(e) => Err(e),
        }
    }

    /// Starts a SOCKS5 handshake: returns the session and the method offer
    /// to send.
    pub fn socks5(dest: DestinationAddress, credentials: Credentials) -> (r: Result<
        (Handshake, Vec<u8>),
        ConnectError,
    >)
        ensures
            !credentials@.fits() ==> r is Err && r->Err_0 == ConnectError::CredentialTooLong,
            credentials@.fits() && !socks5::destination_fits(dest@) ==> r is Err && r->Err_0
                == ConnectError::UnsupportedAddress,
            credentials@.fits() && socks5::destination_fits(dest@) ==> r is Ok
                && r->Ok_0.0.wf() && r->Ok_0.0@ == (HandshakeView {
                phase: Phase::Socks5Method,
                dest: dest@,
                credentials: credentials@,
            }) && r->Ok_0.1@ == socks5::method_request(credentials@),
    {
        if let Err(e) = credentials.check_fits() {
            return Err(e);
        }
        if let Err(e) = socks5::encode_connect_request(&dest) {
            return Err(e);
        }
        let msg = socks5::encode_method_request(&credentials);
        Ok((Handshake { phase: Phase::Socks5Method, dest, credentials }, msg))
    }

    /// Where the handshake stands.
    pub fn phase(&self) -> (r: Phase)
        ensures
            r == self@.phase,
    {
        self.phase
    }

    /// How many reply bytes to have read before calling `on_reply`, given
    /// those received so far in this phase.
    pub fn bytes_wanted(&self, received: &[u8]) -> (r: usize)
        ensures
            r == wanted(self@, received@),
    {
        match self.phase {
            Phase::Socks4Reply => socks4::REPLY_LEN,
            Phase::Socks5Method => 2,
            Phase::Socks5Auth => 2,
            Phase::Socks5Reply => socks5::reply_len(received),
            _ => 0,
        }
    }

    /// Takes the proxy's reply for the current phase and moves on.
    pub fn on_reply(&mut self, reply: &[u8]) -> (s: Step)
        requires
            old(self).wf(),
        ensures
            final(self).wf(),
            (final(self)@.phase, s@) == transition(old(self)@, reply@),
            final(self)@.dest == old(self)@.dest,
            final(self)@.credentials == old(self)@.credentials,
    {
        match self.phase {
            Phase::Socks4Reply => match socks4::parse_reply(reply) {
                Ok(_) => {
                    self.phase = Phase::Established;
                    Step::Established
                },
                Err(e) => {
                    self.phase = Phase::Failed;
                    Step::Failed(e)
                },
            },
            Phase::Socks5Method => match socks5::parse_method_reply(reply, &self.credentials) {
                Err(e) => {
                    self.phase = Phase::Failed;
                    Step::Failed(e)
                },
                Ok(_) => match &self.credentials {
                    Credentials::UsernamePassword(u, p) => {
                        let msg = socks5::encode_auth_request(u.as_slice(), p.as_slice());
                        self.phase = Phase::Socks5Auth;
                        Step::Send(msg)
                    },
                    Credentials::NoAuth => self.send_connect(),
                },
            },
            Phase::Socks5Auth => match socks5::parse_auth_reply(reply) {
                Ok(_) => self.send_connect(),
                Err(e) => {
                    self.phase = Phase::Failed;
                    Step::Failed(e)
                },
            },
            Phase::Socks5Reply => match socks5::parse_connect_reply(reply) {
                Ok(_) => {
                    self.phase = Phase::Established;
                    Step::Established
                },
                Err(e) => {
                    self.phase = Phase::Failed;
                    Step::Failed(e)
                },
            },
            _ => Step::Failed(ConnectError::MalformedReply),
        }
    }

    /// Moves to the CONNECT phase and hands out the request.
    fn send_connect(&mut self) -> (s: Step)
        requires
            socks5::destination_fits(old(self).dest@),
            old(self).credentials@.fits(),
        ensures
            final(self).wf(),
            final(self)@ == (HandshakeView { phase: Phase::Socks5Reply, ..old(self)@ }),
            s@ == StepView::Send(socks5::connect_request(old(self)@.dest)),
    {
        self.phase = Phase::Socks5Reply;
        match socks5::encode_connect_request(&self.dest) {
            Ok(msg) => Step::Send(msg),
            Err(e) => Step::Failed(e),
        }
    }
}

} // verus!
