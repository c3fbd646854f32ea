//! Connectors: a proxy's resolved addresses and credentials, and the start
//! of a handshake for each connection an HTTP client asks for.
use vstd::prelude::*;
use vstd::string::StringSliceAdditionalSpecFns;
use crate::address::{DestinationAddress, SocketAddress};
use crate::error::ConnectError;
use crate::session::{Handshake, HandshakeView, Phase};
use crate::socks4;
use crate::socks5;
use crate::socks5::{Credentials, CredentialsView};
use crate::wire::push_all;

verus! {

/// The one supported scheme, `http`, as bytes.
pub open spec fn http_scheme() -> Seq<u8> {
    seq![104u8, 116u8, 116u8, 112u8]
}

/// Whether `scheme` is `http`.
pub fn is_http(scheme: &str) -> (r: bool)
    ensures
        r == (scheme.spec_bytes() == http_scheme()),
{
    let b = scheme.as_bytes();
    let r = b.len() == 4 && b[0] == 104u8 && b[1] == 116u8 && b[2] == 116u8 && b[3] == 112u8;
    assert(r ==> b@ == http_scheme());
    r
}

/// The address to dial on attempt number `attempt`: the proxy's addresses
/// are tried in order, and once all have failed the proxy is unreachable.
fn address_at(addrs: &Vec<SocketAddress>, attempt: usize) -> (r: Result<SocketAddress, ConnectError>)
    ensures
        attempt < addrs@.len() ==> r == Ok::<SocketAddress, ConnectError>(addrs@[attempt as int]),
        attempt >= addrs@.len() ==> r == Err::<SocketAddress, ConnectError>(
            ConnectError::ProxyUnreachable,
        ),
{
    if attempt < addrs.len() {
        Ok(addrs[attempt])
    } else {
        Err(ConnectError::ProxyUnreachable)
    }
}

/// A connector whose streams go through a SOCKS4 proxy.
#[derive(Debug)]
pub struct Socks4HttpConnector {
    addrs: Vec<SocketAddress>,
    userid: Vec<u8>,
}

pub struct Socks4ConnectorView {
    pub addrs: Seq<SocketAddress>,
    pub userid: Seq<u8>,
}

impl View for Socks4HttpConnector {
    type V = Socks4ConnectorView;

    closed spec fn view(&self) -> Socks4ConnectorView {
        Socks4ConnectorView { addrs: self.addrs@, userid: self.userid@ }
    }
}

impl Socks4HttpConnector {
    /// A connector for the proxy at `addrs`, in the order given, sending
    /// `userid`; the proxy must have at least one address.
    pub fn new(addrs: Vec<SocketAddress>, userid: &str) -> (r: Result<
        Socks4HttpConnector,
        ConnectError,
    >)
        ensures
            addrs@.len() == 0 ==> r is Err && r->Err_0 == ConnectError::AddressResolution,
            addrs@.len() > 0 ==> r is Ok && r->Ok_0@ == (Socks4ConnectorView {
                addrs: addrs@,
                userid: userid.spec_bytes(),
            }),
    {
        if addrs.len() == 0 {
            return Err(ConnectError::AddressResolution);
        }
        let mut id: Vec<u8> = Vec::new();
        push_all(&mut id, userid.as_bytes());
        Ok(Socks4HttpConnector { addrs, userid: id })
    }

    /// The proxy address to dial on attempt number `attempt`.
    pub fn proxy_address(&self, attempt: usize) -> (r: Result<SocketAddress, ConnectError>)
        ensures
            attempt < self@.addrs.len() ==> r == Ok::<SocketAddress, ConnectError>(
                self@.addrs[attempt as int],
            ),
            attempt >= self@.addrs.len() ==> r == Err::<SocketAddress, ConnectError>(
                ConnectError::ProxyUnreachable,
            ),
    {
        address_at(&self.addrs, attempt)
    }

    /// Starts a connection to `dest` under `scheme`: checks the request
    /// before any I/O and returns the session with the bytes to send first.
    pub fn connect(&self, dest: DestinationAddress, scheme: &str) -> (r: Result<
        (Handshake, Vec<u8>),
        ConnectError,
    >)
        ensures
            scheme.spec_bytes() != http_scheme() ==> r is Err && r->Err_0
                == ConnectError::UnsupportedScheme,
            scheme.spec_bytes() == http_scheme() && dest@ is Ipv6 ==> r is Err && r->Err_0
                == ConnectError::UnsupportedAddress,
            scheme.spec_bytes() == http_scheme() && !(dest@ is Ipv6) ==> r is Ok
                && r->Ok_0.0.wf() && r->Ok_0.0@ == (HandshakeView {
                phase: Phase::Socks4Reply,
                dest: dest@,
                credentials: CredentialsView::NoAuth,
            }) && r->Ok_0.1@ == socks4::request(dest@, self@.userid),
    {
        if !is_http(scheme) {
            return Err(ConnectError::UnsupportedScheme);
        }
        Handshake::socks4(dest, self.userid.as_slice())
    }
}

/// A connector whose streams go through a SOCKS5 proxy.
#[derive(Debug)]
pub struct Socks5HttpConnector {
    addrs: Vec<SocketAddress>,
    credentials: Credentials,
}

pub struct Socks5ConnectorView {
    pub addrs: Seq<SocketAddress>,
    pub credentials: CredentialsView,
}

impl View for Socks5HttpConnector {
    type V = Socks5ConnectorView;

    closed spec fn view(&self) -> Socks5ConnectorView {
        Socks5ConnectorView { addrs: self.addrs@, credentials: self.credentials@ }
    }
}

impl Socks5HttpConnector {
    /// Well-formed: the credentials fit their length bytes.
    pub open spec fn wf(&self) -> bool {
        self@.credentials.fits()
    }

    /// A connector for the proxy at `addrs`, in the order given; the proxy
    /// must have an address and the credentials must fit their length bytes.
    pub fn new(addrs: Vec<SocketAddress>, credentials: Credentials) -> (r: Result<
        Socks5HttpConnector,
        ConnectError,
    >)
        ensures
            addrs@.len() == 0 ==> r is Err && r->Err_0 == ConnectError::AddressResolution,
            addrs@.len() > 0 && !credentials@.fits() ==> r is Err && r->Err_0
                == ConnectError::CredentialTooLong,
            addrs@.len() > 0 && credentials@.fits() ==> r is Ok && r->Ok_0.wf() && r->Ok_0@
                == (Socks5ConnectorView { addrs: addrs@, credentials: credentials@ }),
    {
        if addrs.len() == 0 {
            return Err(ConnectError::AddressResolution);
        }
        if let Err(e) = credentials.check_fits() {
            return Err(e);
        }
        Ok(Socks5HttpConnector { addrs, credentials })
    }

    /// The proxy address to dial on attempt number `attempt`.
    pub fn proxy_address(&self, attempt: usize) -> (r: Result<SocketAddress, ConnectError>)
        ensures
            attempt < self@.addrs.len() ==> r == Ok::<SocketAddress, ConnectError>(
                self@.addrs[attempt as int],
            ),
            attempt >= self@.addrs.len() ==> r == Err::<SocketAddress, ConnectError>(
                ConnectError::ProxyUnreachable,
            ),
    {
        address_at(&self.addrs, attempt)
    }

    /// Starts a connection to `dest` under `scheme`: checks the request
    /// before any I/O and returns the session with the method offer to send.
    pub fn connect(&self, dest: DestinationAddress, scheme: &str) -> (r: Result<
        (Handshake, Vec<u8>),
        ConnectError,
    >)
        requires
            self.wf(),
        ensures
            scheme.spec_bytes() != http_scheme() ==> r is Err && r->Err_0
                == ConnectError::UnsupportedScheme,
            scheme.spec_bytes() == http_scheme() && !socks5::destination_fits(dest@) ==> r is Err
                && r->Err_0 == ConnectError::UnsupportedAddress,
            scheme.spec_bytes() == http_scheme() && socks5::destination_fits(dest@) ==> r is Ok
                && r->Ok_0.0.wf() && r->Ok_0.0@ == (HandshakeView {
                phase: Phase::Socks5Method,
                dest: dest@,
                credentials: self@.credentials,
            }) && r->Ok_0.1@ == socks5::method_request(self@.credentials),
    {
        if !is_http(scheme) {
            return Err(ConnectError::UnsupportedScheme);
        }
        Handshake::socks5(dest, self.credentials.duplicate())
    }
}

} // verus!
