//! The relay between two bridged streams: what to do with each read.

use vstd::prelude::*;

use crate::termination::Termination;

verus! {

/// Size of the buffer that the first request is read into.
pub const REQUEST_BUFFER_SIZE: usize = 1024;

/// Size of the buffer that each direction of a relay reads into.
pub const RELAY_BUFFER_SIZE: usize = 2048;

/// One of the two streams of a connection.
#[derive(Clone, Copy, Debug, PartialEq, Eq, Structural)]
pub enum Side {
    /// The stream to the client that asked for the tunnel.
    Client,
    /// The stream to the SOCKS5 proxy.
    Upstream,
}

impl Side {
    /// The other stream of the connection.
    pub open spec fn opposite(self) -> Side {
        match self {
            Side::Client => Side::Upstream,
            Side::Upstream => Side::Client,
        }
    }

    /// Returns the other stream of the connection.
    pub fn other(self) -> (side: Side)
        ensures
            side == self.opposite(),
    {
        match self {
            Side::Client => Side::Upstream,
            Side::Upstream => Side::Client,
        }
    }
}

/// What the relay does after one read.
#[derive(Clone, Copy, Debug, PartialEq, Eq)]
pub enum RelayStep<'a> {
    /// Write these bytes to this side and flush, then read again.
    Forward { to: Side, data: &'a [u8] },
    /// Shut both streams down; the relay is over for this reason.
    Close { cause: Termination },
}

/// A [`RelayStep`] as a mathematical value.
pub enum RelayStepView {
    Forward { to: Side, data: Seq<u8> },
    Close { cause: Termination },
}

impl<'a> View for RelayStep<'a> {
    type V = RelayStepView;

    open spec fn view(&self) -> RelayStepView {
        match *self {
            RelayStep::Forward { to, data } => RelayStepView::Forward { to, data: data@ },
            RelayStep::Close { cause } => RelayStepView::Close { cause },
        }
    }
}

/// What the relay does after a read from `from`: `read` holds the bytes that
/// the read brought, or `None` if the read failed.
///
/// Bytes go to the opposite side as they came. A read that brings nothing
/// means that the side has closed, which ends the relay without fault; a
/// failed read ends it with a fault.
pub open spec fn relay_step(from: Side, read: Option<Seq<u8>>) -> RelayStepView {
    match read {
        Some(data) => if data.len() > 0 {
            RelayStepView::Forward { to: from.opposite(), data }
        } else {
            RelayStepView::Close { cause: Termination::RelayNormalClose }
        },
        None => RelayStepView::Close { cause: Termination::RelayFault },
    }
}

/// What a read brought, as a mathematical value.
pub open spec fn read_view(read: Option<&[u8]>) -> Option<Seq<u8>> {
    match read {
        Some(data) => Some(data@),
        None => None,
    }
}

/// Decides what the relay does after a read from `from`.
pub fn relay_read<'a>(from: Side, read: Option<&'a [u8]>) -> (step: RelayStep<'a>)
    ensures
        step@ == relay_step(from, read_view(read)),
{
    match read {
        Some(data) => {
            if data.len() > 0 {
                RelayStep::Forward { to: from.other(), data }
            } else {
                RelayStep::Close { cause: Termination::RelayNormalClose }
            }
        },
        None => RelayStep::Close { cause: Termination::RelayFault },
    }
}

} // verus!
