//! The SOCKS5 handshake: method negotiation, optional user name and
//! password authentication, and the CONNECT request.
use vstd::prelude::*;
use vstd::string::StringSliceAdditionalSpecFns;
use crate::address::{DestinationAddress, DestinationView};
use crate::error::ConnectError;
use crate::wire::{copy_range, port_bytes, port_of, push_all, push_port};

verus! {

pub const VERSION: u8 = 0x05;
pub const CMD_CONNECT: u8 = 0x01;
pub const METHOD_NO_AUTH: u8 = 0x00;
pub const METHOD_USER_PASS: u8 = 0x02;
pub const METHOD_NONE_ACCEPTABLE: u8 = 0xFF;
pub const AUTH_VERSION: u8 = 0x01;
pub const ATYP_IPV4: u8 = 0x01;
pub const ATYP_DOMAIN: u8 = 0x03;
pub const ATYP_IPV6: u8 = 0x04;
/// The largest status code with a defined meaning.
pub const LAST_STATUS: u8 = 0x08;
/// The longest user name, password or host name a length byte can count.
pub const MAX_FIELD_LEN: usize = 255;

/// How the client authenticates to a SOCKS5 proxy.
#[derive(Debug, PartialEq, Eq)]
pub enum Credentials {
    NoAuth,
    /// User name and password, as bytes.
    UsernamePassword(Vec<u8>, Vec<u8>),
}

pub enum CredentialsView {
    NoAuth,
    UsernamePassword(Seq<u8>, Seq<u8>),
}

impl View for Credentials {
    type V = CredentialsView;

    open spec fn view(&self) -> CredentialsView {
        match self {
            Credentials::NoAuth => CredentialsView::NoAuth,
            Credentials::UsernamePassword(u, p) => CredentialsView::UsernamePassword(u@, p@),
        }
    }
}

impl CredentialsView {
    /// Each field fits its length byte.
    pub open spec fn fits(self) -> bool {
        match self {
            CredentialsView::NoAuth => true,
            CredentialsView::UsernamePassword(u, p) => u.len() <= MAX_FIELD_LEN && p.len()
                <= MAX_FIELD_LEN,
        }
    }

    /// The one method offered to the proxy.
    pub open spec fn method(self) -> u8 {
        match self {
            CredentialsView::NoAuth => METHOD_NO_AUTH,
            CredentialsView::UsernamePassword(_, _) => METHOD_USER_PASS,
        }
    }
}

impl Credentials {
    /// User name and password credentials.
    pub fn username_password(username: &str, password: &str) -> (r: Credentials)
        ensures
            r@ == CredentialsView::UsernamePassword(username.spec_bytes(), password.spec_bytes()),
    {
        let mut u: Vec<u8> = Vec::new();
        push_all(&mut u, username.as_bytes());
        let mut p: Vec<u8> = Vec::new();
        push_all(&mut p, password.as_bytes());
        Credentials::UsernamePassword(u, p)
    }

    /// A copy of the credentials.
    pub fn duplicate(&self) -> (r: Credentials)
        ensures
            r@ == self@,
    {
        match self {
            Credentials::NoAuth => Credentials::NoAuth,
            Credentials::UsernamePassword(u, p) => {
                let u2 = copy_range(u.as_slice(), 0, u.len());
                let p2 = copy_range(p.as_slice(), 0, p.len());
                assert(u2@ == u@);
                assert(p2@ == p@);
                Credentials::UsernamePassword(u2, p2)
            },
        }
    }

    /// Checks that each field fits its length byte.
    pub fn check_fits(&self) -> (r: Result<(), ConnectError>)
        ensures
            r is Ok <==> self@.fits(),
            r is Err ==> r == Err::<(), ConnectError>(ConnectError::CredentialTooLong),
    {
        match self {
            Credentials::NoAuth => Ok(()),
            Credentials::UsernamePassword(u, p) => {
                if u.len() <= MAX_FIELD_LEN && p.len() <= MAX_FIELD_LEN {
                    Ok(())
                } else {
                    Err(ConnectError::CredentialTooLong)
                }
            },
        }
    }
}

/// The method-selection message: one method, the one the credentials need.
pub open spec fn method_request(c: CredentialsView) -> Seq<u8> {
    seq![VERSION, 1u8, c.method()]
}

/// What the proxy's method choice means: `Ok(true)` when authentication
/// follows, `Ok(false)` when the CONNECT request comes next.
pub open spec fn method_outcome(reply: Seq<u8>, c: CredentialsView) -> Result<bool, ConnectError> {
    if reply.len() < 2 {
        Err(ConnectError::TruncatedReply)
    } else if reply[0] != VERSION {
        Err(ConnectError::MalformedReply)
    } else if reply[1] == METHOD_NONE_ACCEPTABLE {
        Err(ConnectError::NoAcceptableAuthMethod)
    } else if reply[1] != c.method() {
        Err(ConnectError::AuthMethodMismatch)
    } else {
        Ok(c is UsernamePassword)
    }
}

/// The user name and password sub-negotiation message.
pub open spec fn auth_request(user: Seq<u8>, pass: Seq<u8>) -> Seq<u8> {
    seq![AUTH_VERSION, user.len() as u8] + user + seq![pass.len() as u8] + pass
}

/// What the proxy's answer to the user name and password means.
pub open spec fn auth_outcome(reply: Seq<u8>) -> Result<(), ConnectError> {
    if reply.len() < 2 {
        Err(ConnectError::TruncatedReply)
    } else if reply[1] != 0 {
        Err(ConnectError::AuthenticationFailed)
    } else {
        Ok(())
    }
}

/// The destination can be written in a CONNECT request.
pub open spec fn destination_fits(d: DestinationView) -> bool {
    d.wf() && (d is DomainName ==> d->DomainName_0.len() <= MAX_FIELD_LEN)
}

/// The address type byte and the address.
pub open spec fn address_field(d: DestinationView) -> Seq<u8> {
    match d {
        DestinationView::Ipv4(ip, _) => seq![ATYP_IPV4] + ip,
        DestinationView::Ipv6(ip, _) => seq![ATYP_IPV6] + ip,
        DestinationView::DomainName(name, _) => seq![ATYP_DOMAIN, name.len() as u8] + name,
    }
}

/// The CONNECT request for `d`.
pub open spec fn connect_request(d: DestinationView) -> Seq<u8> {
    seq![VERSION, CMD_CONNECT, 0u8] + address_field(d) + port_bytes(d.port())
}

/// The destination a CONNECT request names, if the bytes are one.
pub open spec fn request_destination(b: Seq<u8>) -> Option<DestinationView> {
    if b.len() < 5 || b[0] != VERSION || b[1] != CMD_CONNECT || b[2] != 0 {
        None
    } else if b[3] == ATYP_IPV4 && b.len() == 10 {
        Some(DestinationView::Ipv4(b.subrange(4, 8), port_of(b[8], b[9])))
    } else if b[3] == ATYP_IPV6 && b.len() == 22 {
        Some(DestinationView::Ipv6(b.subrange(4, 20), port_of(b[20], b[21])))
    } else if b[3] == ATYP_DOMAIN && b.len() == 7 + b[4] {
        Some(
            DestinationView::DomainName(
                b.subrange(5, 5 + b[4]),
                port_of(b[5 + b[4]], b[6 + b[4]]),
            ),
        )
    } else {
        None
    }
}

/// The length of the reply frame that `prefix` begins, once at least five
/// bytes have come.
pub open spec fn reply_frame_len(prefix: Seq<u8>) -> usize {
    if prefix.len() < 5 {
        5
    } else if prefix[3] == ATYP_IPV4 {
        10
    } else if prefix[3] == ATYP_DOMAIN {
        (7 + prefix[4]) as usize
    } else if prefix[3] == ATYP_IPV6 {
        22
    } else {
        5
    }
}

/// What the reply to the CONNECT request means: on success, the length of
/// its frame, bound address included.
pub open spec fn connect_outcome(reply: Seq<u8>) -> Result<usize, ConnectError> {
    if reply.len() < 2 {
        Err(ConnectError::TruncatedReply)
    } else if reply[0] != VERSION {
        Err(ConnectError::MalformedReply)
    } else if 1 <= reply[1] <= LAST_STATUS {
        Err(ConnectError::HandshakeRejected(reply[1]))
    } else if reply[1] != 0 {
        Err(ConnectError::MalformedReply)
    } else if reply.len() < 5 {
        Err(ConnectError::TruncatedReply)
    } else if reply[3] != ATYP_IPV4 && reply[3] != ATYP_DOMAIN && reply[3] != ATYP_IPV6 {
        Err(ConnectError::MalformedReply)
    } else if reply.len() < reply_frame_len(reply) {
        Err(ConnectError::TruncatedReply)
    } else {
        Ok(reply_frame_len(reply))
    }
}

/// Encodes the method-selection message.
pub fn encode_method_request(c: &Credentials) -> (r: Vec<u8>)
    ensures
        r@ == method_request(c@),
{
    let method = match c {
        Credentials::NoAuth => METHOD_NO_AUTH,
        Credentials::UsernamePassword(_, _) => METHOD_USER_PASS,
    };
    let r = vec![VERSION, 1u8, method];
    assert(r@ == method_request(c@));
    r
}

/// Reads the proxy's method choice.
pub fn parse_method_reply(reply: &[u8], c: &Credentials) -> (r: Result<bool, ConnectError>)
    ensures
        r == method_outcome(reply@, c@),
{
    let (offered, auth) = match c {
        Credentials::NoAuth => (METHOD_NO_AUTH, false),
        Credentials::UsernamePassword(_, _) => (METHOD_USER_PASS, true),
    };
    if reply.len() < 2 {
        Err(ConnectError::TruncatedReply)
    } else if reply[0] != VERSION {
        Err(ConnectError::MalformedReply)
    } else if reply[1] == METHOD_NONE_ACCEPTABLE {
        Err(ConnectError::NoAcceptableAuthMethod)
    } else if reply[1] != offered {
        Err(ConnectError::AuthMethodMismatch)
    } else {
        Ok(auth)
    }
}

/// Encodes the user name and password message.
pub fn encode_auth_request(user: &[u8], pass: &[u8]) -> (r: Vec<u8>)
    requires
        user@.len() <= MAX_FIELD_LEN,
        pass@.len() <= MAX_FIELD_LEN,
    ensures
        r@ == auth_request(user@, pass@),
{
    let mut out: Vec<u8> = Vec::new();
    out.push(AUTH_VERSION);
    out.push(user.len() as u8);
    push_all(&mut out, user);
    out.push(pass.len() as u8);
    push_all(&mut out, pass);
    assert(out@ == auth_request(user@, pass@));
    out
}

/// Reads the proxy's answer to the user name and password.
pub fn parse_auth_reply(reply: &[u8]) -> (r: Result<(), ConnectError>)
    ensures
        r == auth_outcome(reply@),
{
    if reply.len() < 2 {
        Err(ConnectError::TruncatedReply)
    } else if reply[1] != 0 {
        Err(ConnectError::AuthenticationFailed)
    } else {
        Ok(())
    }
}

/// Decoding the CONNECT request written for a destination gives that
/// destination back, address and port.
pub proof fn lemma_connect_request_round_trip(d: DestinationView)
    requires
        destination_fits(d),
    ensures
        request_destination(connect_request(d)) == Some(d),
{
    let b = connect_request(d);
    match d {
        DestinationView::Ipv4(ip, port) => {
            assert(b.subrange(4, 8) == ip);
        },
        DestinationView::Ipv6(ip, port) => {
            assert(b.subrange(4, 20) == ip);
        },
        DestinationView::DomainName(name, port) => {
            assert(b[4] == name.len());
            assert(b.subrange(5, 5 + b[4]) == name);
        },
    }
}

/// Encodes the CONNECT request; a host name longer than its length byte
/// can count cannot be expressed.
pub fn encode_connect_request(dest: &DestinationAddress) -> (r: Result<Vec<u8>, ConnectError>)
    ensures
        !destination_fits(dest@) ==> r == Err::<Vec<u8>, ConnectError>(
            ConnectError::UnsupportedAddress,
        ),
        destination_fits(dest@) ==> r is Ok && r->Ok_0@ == connect_request(dest@),
{
    let mut out: Vec<u8> = vec![VERSION, CMD_CONNECT, 0u8];
    match dest {
        DestinationAddress::Ipv4(ip, port) => {
            out.push(ATYP_IPV4);
            push_all(&mut out, ip.as_slice());
            push_port(&mut out, *port);
        },
        DestinationAddress::Ipv6(ip, port) => {
            out.push(ATYP_IPV6);
            push_all(&mut out, ip.as_slice());
            push_port(&mut out, *port);
        },
        DestinationAddress::DomainName(name, port) => {
            if name.len() > MAX_FIELD_LEN {
                return Err(ConnectError::UnsupportedAddress);
            }
            out.push(ATYP_DOMAIN);
            out.push(name.len() as u8);
            push_all(&mut out, name.as_slice());
            push_port(&mut out, *port);
        },
    }
    assert(out@ == connect_request(dest@));
    Ok(out)
}

/// How many bytes of the CONNECT reply to wait for, given those already
/// received.
pub fn reply_len(prefix: &[u8]) -> (r: usize)
    ensures
        r == reply_frame_len(prefix@),
{
    if prefix.len() < 5 {
        5
    } else if prefix[3] == ATYP_IPV4 {
        10
    } else if prefix[3] == ATYP_DOMAIN {
        7 + prefix[4] as usize
    } else if prefix[3] == ATYP_IPV6 {
        22
    } else {
        5
    }
}

/// Reads the reply to the CONNECT request; on success returns how many of
/// the bytes belong to it.
pub fn parse_connect_reply(reply: &[u8]) -> (r: Result<usize, ConnectError>)
    ensures
        r == connect_outcome(reply@),
{
    if reply.len() < 2 {
        Err(ConnectError::TruncatedReply)
    } else if reply[0] != VERSION {
        Err(ConnectError::MalformedReply)
    } else if 1 <= reply[1] && reply[1] <= LAST_STATUS {
        Err(ConnectError::HandshakeRejected(reply[1]))
    } else if reply[1] != 0 {
        Err(ConnectError::MalformedReply)
    } else if reply.len() < 5 {
        Err(ConnectError::TruncatedReply)
    } else if reply[3] != ATYP_IPV4 && reply[3] != ATYP_DOMAIN && reply[3] != ATYP_IPV6 {
        Err(ConnectError::MalformedReply)
    } else {
        let n = reply_len(reply);
        if reply.len() < n {
            Err(ConnectError::TruncatedReply)
        } else {
            Ok(n)
        }
    }
}

/// Reads the destination named by a CONNECT request.
pub fn decode_connect_request(b: &[u8]) -> (r: Option<DestinationAddress>)
    ensures
        match r {
            Some(d) => request_destination(b@) == Some(d@),
            None => request_destination(b@) is None,
        },
{
    if b.len() < 5 || b[0] != VERSION || b[1] != CMD_CONNECT || b[2] != 0 {
        None
    } else if b[3] == ATYP_IPV4 && b.len() == 10 {
        let ip: [u8; 4] = [b[4], b[5], b[6], b[7]];
        assert(ip@ == b@.subrange(4, 8));
        Some(DestinationAddress::Ipv4(ip, (b[8] as u16) * 256 + b[9] as u16))
    } else if b[3] == ATYP_IPV6 && b.len() == 22 {
        let ip: [u8; 16] = [
            b[4], b[5], b[6], b[7], b[8], b[9], b[10], b[11],
            b[12], b[13], b[14], b[15], b[16], b[17], b[18], b[19],
        ];
        assert(ip@ == b@.subrange(4, 20));
        Some(DestinationAddress::Ipv6(ip, (b[20] as u16) * 256 + b[21] as u16))
    } else if b[3] == ATYP_DOMAIN && b.len() == 7 + b[4] as usize {
        let n = b[4] as usize;
        let name = copy_range(b, 5, 5 + n);
        Some(DestinationAddress::DomainName(name, (b[5 + n] as u16) * 256 + b[6 + n] as u16))
    } else {
        None
    }
}

} // verus!
