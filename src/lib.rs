//! SOCKS4 and SOCKS5 client handshakes for HTTP connectors.
//!
//! The wire protocols are pure functions from the session state and the
//! bytes a proxy sent to the next state and the bytes to send; the caller
//! owns the socket and drives the exchange.
pub mod address;
pub mod connector;
pub mod error;
pub mod session;
pub mod socks4;
pub mod socks5;
pub mod wire;

pub use address::{DestinationAddress, DestinationView, SocketAddress};
pub use connector::{Socks4HttpConnector, Socks5HttpConnector};
pub use error::{ConnectError, Rejection};
pub use session::{Handshake, Phase, Step};
pub use socks5::Credentials;
