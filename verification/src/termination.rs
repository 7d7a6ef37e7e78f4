//! Why a bridged connection came to its end.

use vstd::prelude::*;

verus! {

/// The ways in which a connection ends. Each one ends that connection only.
#[derive(Clone, Copy, Debug, PartialEq, Eq, Structural)]
pub enum Termination {
    /// The first read from the client failed or returned no bytes.
    ClientReadFailure,
    /// The request was not a usable `CONNECT`: wrong method, unsupported
    /// version, or a target that cannot be read as `host:port`.
    ProtocolViolation,
    /// The requested host could not be resolved.
    NameResolutionFailure,
    /// The SOCKS5 proxy could not be reached over TCP.
    UpstreamUnreachable,
    /// The SOCKS5 proxy refused the tunnel, with the reason it gave.
    HandshakeRejected { reason: u8 },
    /// The success reply could not be delivered to the client.
    ResponseWriteFailure,
    /// A read or a write failed while relaying.
    RelayFault,
    /// One side closed its stream in an orderly way while relaying.
    RelayNormalClose,
}

impl Termination {
    /// True for the two ways in which an established relay ends.
    pub open spec fn ends_relay(self) -> bool {
        self is RelayFault || self is RelayNormalClose
    }
}

} // verus!
