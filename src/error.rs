use vstd::prelude::*;

verus! {

/// Why a proxied connection could not be set up.
#[derive(Debug, Clone, Copy, PartialEq, Eq, Structural)]
pub enum ConnectError {
    /// The proxy's location resolved to no socket address.
    AddressResolution,
    /// The connection scheme is not plain `http`.
    UnsupportedScheme,
    /// None of the proxy's addresses accepted a connection.
    ProxyUnreachable,
    /// The destination cannot be expressed in the protocol (IPv6 over SOCKS4).
    UnsupportedAddress,
    /// A SOCKS5 user name or password is longer than 255 bytes.
    CredentialTooLong,
    /// The SOCKS5 proxy accepted none of the offered methods.
    NoAcceptableAuthMethod,
    /// The SOCKS5 proxy picked a method other than the one offered.
    AuthMethodMismatch,
    /// The SOCKS5 proxy refused the user name and password.
    AuthenticationFailed,
    /// The proxy's reply ended before its frame was complete.
    TruncatedReply,
    /// The proxy's reply does not follow the protocol's framing.
    MalformedReply,
    /// The proxy refused the request; the protocol's status code is kept.
    HandshakeRejected(u8),
}

} // verus!

verus! {

/// The meaning of a status code with which a proxy refused a request.
#[derive(Debug, Clone, Copy, PartialEq, Eq, Structural)]
pub enum Rejection {
    /// SOCKS4: request rejected or failed.
    RequestRejected,
    /// SOCKS4: the proxy could not reach the client's identd.
    IdentdUnreachable,
    /// SOCKS4: identd reported a different user id.
    IdentdMismatch,
    /// SOCKS5: general server failure.
    GeneralFailure,
    /// SOCKS5: connection not allowed by ruleset.
    NotAllowed,
    NetworkUnreachable,
    HostUnreachable,
    ConnectionRefused,
    TtlExpired,
    CommandNotSupported,
    AddressTypeNotSupported,
}

/// The meaning of a rejection status code of either protocol version; the
/// two versions' codes do not overlap.
pub open spec fn rejection_of(code: u8) -> Option<Rejection> {
    if code == 0x5B {
        Some(Rejection::RequestRejected)
    } else if code == 0x5C {
        Some(Rejection::IdentdUnreachable)
    } else if code == 0x5D {
        Some(Rejection::IdentdMismatch)
    } else if code == 0x01 {
        Some(Rejection::GeneralFailure)
    } else if code == 0x02 {
        Some(Rejection::NotAllowed)
    } else if code == 0x03 {
        Some(Rejection::NetworkUnreachable)
    } else if code == 0x04 {
        Some(Rejection::HostUnreachable)
    } else if code == 0x05 {
        Some(Rejection::ConnectionRefused)
    } else if code == 0x06 {
        Some(Rejection::TtlExpired)
    } else if code == 0x07 {
        Some(Rejection::CommandNotSupported)
    } else if code == 0x08 {
        Some(Rejection::AddressTypeNotSupported)
    } else {
        None
    }
}

impl ConnectError {
    /// What the proxy's refusal means, for a `HandshakeRejected` error.
    pub fn rejection(&self) -> (r: Option<Rejection>)
        ensures
            match *self {
                ConnectError::HandshakeRejected(code) => r == rejection_of(code),
                _ => r is None,
            },
    {
        match self {
            ConnectError::HandshakeRejected(code) => match *code {
                0x5B => Some(Rejection::RequestRejected),
                0x5C => Some(Rejection::IdentdUnreachable),
                0x5D => Some(Rejection::IdentdMismatch),
                0x01 => Some(Rejection::GeneralFailure),
                0x02 => Some(Rejection::NotAllowed),
                0x03 => Some(Rejection::NetworkUnreachable),
                0x04 => Some(Rejection::HostUnreachable),
                0x05 => Some(Rejection::ConnectionRefused),
                0x06 => Some(Rejection::TtlExpired),
                0x07 => Some(Rejection::CommandNotSupported),
                0x08 => Some(Rejection::AddressTypeNotSupported),
                _ => None,
            },
            _ => None,
        }
    }
}

} // verus!
