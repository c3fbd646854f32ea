//! The SOCKS4 handshake, with the SOCKS4a extension for host names.
use vstd::prelude::*;
use crate::address::{DestinationAddress, DestinationView};
use crate::error::ConnectError;
use crate::wire::{port_bytes, push_all, push_port};

verus! {

pub const VERSION: u8 = 0x04;
pub const CMD_CONNECT: u8 = 0x01;
pub const GRANTED: u8 = 0x5A;
pub const REJECTED: u8 = 0x5B;
pub const NO_IDENTD: u8 = 0x5C;
pub const IDENTD_MISMATCH: u8 = 0x5D;
/// Length of the proxy's reply.
pub const REPLY_LEN: usize = 8;

/// The CONNECT request for `dest` on behalf of `userid`; a host name is sent
/// after the user id, with the placeholder address 0.0.0.1.
pub open spec fn request(dest: DestinationView, userid: Seq<u8>) -> Seq<u8> {
    match dest {
        DestinationView::Ipv4(ip, port) => seq![VERSION, CMD_CONNECT] + port_bytes(port) + ip
            + userid + seq![0u8],
        DestinationView::DomainName(name, port) => seq![VERSION, CMD_CONNECT] + port_bytes(port)
            + seq![0u8, 0u8, 0u8, 1u8] + userid + seq![0u8] + name + seq![0u8],
        DestinationView::Ipv6(_, _) => Seq::empty(),
    }
}

/// What the proxy's reply means: `Ok` when the request was granted.
pub open spec fn reply_outcome(reply: Seq<u8>) -> Result<(), ConnectError> {
    if reply.len() < REPLY_LEN {
        Err(ConnectError::TruncatedReply)
    } else if reply[0] != 0 && reply[0] != VERSION {
        Err(ConnectError::MalformedReply)
    } else if reply[1] == GRANTED {
        Ok(())
    } else if REJECTED <= reply[1] <= IDENTD_MISMATCH {
        Err(ConnectError::HandshakeRejected(reply[1]))
    } else {
        Err(ConnectError::MalformedReply)
    }
}

/// Encodes the CONNECT request; an IPv6 destination cannot be expressed.
pub fn encode_request(dest: &DestinationAddress, userid: &[u8]) -> (r: Result<Vec<u8>, ConnectError>)
    ensures
        dest@ is Ipv6 ==> r == Err::<Vec<u8>, ConnectError>(ConnectError::UnsupportedAddress),
        !(dest@ is Ipv6) ==> r is Ok && r->Ok_0@ == request(dest@, userid@),
{
    let mut out: Vec<u8> = Vec::new();
    out.push(VERSION);
    out.push(CMD_CONNECT);
    match dest {
        DestinationAddress::Ipv4(ip, port) => {
            push_port(&mut out, *port);
            push_all(&mut out, ip.as_slice());
            push_all(&mut out, userid);
            out.push(0);
            assert(out@ == request(dest@, userid@));
            Ok(out)
        },
        DestinationAddress::DomainName(name, port) => {
            push_port(&mut out, *port);
            push_all(&mut out, &[0u8, 0u8, 0u8, 1u8]);
            push_all(&mut out, userid);
            out.push(0);
            push_all(&mut out, name.as_slice());
            out.push(0);
            assert(out@ == request(dest@, userid@));
            Ok(out)
        },
        DestinationAddress::Ipv6(_, _) => Err(ConnectError::UnsupportedAddress),
    }
}

/// Reads the proxy's reply to the CONNECT request.
pub fn parse_reply(reply: &[u8]) -> (r: Result<(), ConnectError>)
    ensures
        r == reply_outcome(reply@),
{
    if reply.len() < REPLY_LEN {
        Err(ConnectError::TruncatedReply)
    } else if reply[0] != 0 && reply[0] != VERSION {
        Err(ConnectError::MalformedReply)
    } else if reply[1] == GRANTED {
        Ok(())
    } else if REJECTED <= reply[1] && reply[1] <= IDENTD_MISMATCH {
        Err(ConnectError::HandshakeRejected(reply[1]))
    } else {
        Err(ConnectError::MalformedReply)
    }
}

} // verus!
