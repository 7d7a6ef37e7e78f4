//! One bridged connection, from its first read to its end, as a state machine.
//!
//! The caller owns the sockets. It reports what its I/O brought as an
//! [`Event`], and carries out the [`Action`] that [`Connection::step`] returns.

use vstd::prelude::*;

use crate::config::{Config, ConfigView};
use crate::relay::{relay_read, relay_step, RelayStep, RelayStepView, Side};
use crate::request::{process_http_connect, request_authority};
use crate::target::{
    connect_target,
    resolved_target,
    ResolvedAddress,
    ResolvedAddressView,
    Target,
    TargetView,
};
use crate::termination::Termination;

verus! {

/// The part of its life that a connection is in.
#[derive(Clone, Copy, Debug, PartialEq, Eq, Structural)]
pub enum Phase {
    /// The request has not been read and understood yet.
    AwaitingConnectRequest,
    /// The tunnel through the SOCKS5 proxy is being set up.
    Connecting,
    /// Bytes are copied between client and proxy.
    Relaying,
    /// The relay has ended and everything is released.
    Closed,
    /// The connection was given up before a relay began.
    Failed,
}

/// What a connection is waiting for.
#[derive(Debug, PartialEq, Eq)]
pub enum Stage {
    /// Waiting for the first read from the client.
    AwaitingRequest,
    /// Waiting for the addresses of the authority that the request named.
    Resolving { authority: String },
    /// Waiting for the TCP connection to the SOCKS5 proxy.
    OpeningUpstream { target: Target },
    /// Waiting for the SOCKS5 proxy to accept or refuse the target.
    Negotiating,
    /// Waiting for the success reply to reach the client.
    Replying,
    /// Waiting for bytes from either side.
    Relaying,
    /// Waiting for nothing: the connection has ended.
    Ended { cause: Termination },
}

/// A [`Stage`] as a mathematical value.
pub enum StageView {
    AwaitingRequest,
    Resolving { authority: Seq<char> },
    OpeningUpstream { target: TargetView },
    Negotiating,
    Replying,
    Relaying,
    Ended { cause: Termination },
}

impl View for Stage {
    type V = StageView;

    open spec fn view(&self) -> StageView {
        match *self {
            Stage::AwaitingRequest => StageView::AwaitingRequest,
            Stage::Resolving { authority } => StageView::Resolving { authority: authority@ },
            Stage::OpeningUpstream { target } => StageView::OpeningUpstream { target: target@ },
            Stage::Negotiating => StageView::Negotiating,
            Stage::Replying => StageView::Replying,
            Stage::Relaying => StageView::Relaying,
            Stage::Ended { cause } => StageView::Ended { cause },
        }
    }
}

/// The state of one connection: what it waits for, and which of its two
/// sockets are open.
#[derive(Debug, PartialEq, Eq)]
pub struct Connection {
    pub stage: Stage,
    pub client_open: bool,
    pub upstream_open: bool,
}

/// A [`Connection`] as a mathematical value.
pub struct ConnectionView {
    pub stage: StageView,
    pub client_open: bool,
    pub upstream_open: bool,
}

impl View for Connection {
    type V = ConnectionView;

    open spec fn view(&self) -> ConnectionView {
        ConnectionView {
            stage: self.stage@,
            client_open: self.client_open,
            upstream_open: self.upstream_open,
        }
    }
}

/// What the caller's I/O brought.
#[derive(Debug, PartialEq, Eq)]
pub enum Event<'a> {
    /// The first read from the client returned these bytes.
    RequestRead { data: &'a [u8] },
    /// The first read from the client failed.
    RequestReadFailed,
    /// The authority resolved to these addresses, in the resolver's order.
    Resolved { addresses: Vec<ResolvedAddress> },
    /// The authority could not be resolved.
    ResolutionFailed,
    /// The TCP connection to the SOCKS5 proxy stands.
    UpstreamOpened,
    /// The TCP connection to the SOCKS5 proxy could not be made.
    UpstreamUnreachable,
    /// The SOCKS5 proxy accepted the target.
    HandshakeAccepted,
    /// The SOCKS5 proxy refused the target, or the negotiation broke.
    HandshakeRejected { reason: u8 },
    /// The success reply was written to the client and flushed.
    ResponseSent,
    /// The success reply could not be written to the client.
    ResponseWriteFailed,
    /// A read during the relay returned these bytes from this side.
    RelayRead { from: Side, data: &'a [u8] },
    /// A read during the relay failed on this side.
    RelayReadFailed { from: Side },
    /// Forwarded bytes could not be written to this side.
    RelayWriteFailed { to: Side },
}

/// An [`Event`] as a mathematical value.
pub enum EventView {
    RequestRead { data: Seq<u8> },
    RequestReadFailed,
    Resolved { addresses: Seq<ResolvedAddressView> },
    ResolutionFailed,
    UpstreamOpened,
    UpstreamUnreachable,
    HandshakeAccepted,
    HandshakeRejected { reason: u8 },
    ResponseSent,
    ResponseWriteFailed,
    RelayRead { from: Side, data: Seq<u8> },
    RelayReadFailed { from: Side },
    RelayWriteFailed { to: Side },
}

impl<'a> View for Event<'a> {
    type V = EventView;

    open spec fn view(&self) -> EventView {
        match *self {
            Event::RequestRead { data } => EventView::RequestRead { data: data@ },
            Event::RequestReadFailed => EventView::RequestReadFailed,
            Event::Resolved { addresses } => EventView::Resolved {
                addresses: addresses.deep_view(),
            },
            Event::ResolutionFailed => EventView::ResolutionFailed,
            Event::UpstreamOpened => EventView::UpstreamOpened,
            Event::UpstreamUnreachable => EventView::UpstreamUnreachable,
            Event::HandshakeAccepted => EventView::HandshakeAccepted,
            Event::HandshakeRejected { reason } => EventView::HandshakeRejected { reason },
            Event::ResponseSent => EventView::ResponseSent,
            Event::ResponseWriteFailed => EventView::ResponseWriteFailed,
            Event::RelayRead { from, data } => EventView::RelayRead { from, data: data@ },
            Event::RelayReadFailed { from } => EventView::RelayReadFailed { from },
            Event::RelayWriteFailed { to } => EventView::RelayWriteFailed { to },
        }
    }
}

/// What the caller is to do next.
#[derive(Debug, PartialEq, Eq)]
pub enum Action<'a> {
    /// Resolve this authority and report `Resolved` or `ResolutionFailed`.
    Resolve { authority: String },
    /// Open a TCP connection to this address and report `UpstreamOpened` or
    /// `UpstreamUnreachable`.
    OpenUpstream { address: String },
    /// Ask the SOCKS5 proxy, without authentication, for a tunnel to this
    /// target and report `HandshakeAccepted` or `HandshakeRejected`.
    Negotiate { target: Target },
    /// Write the success reply to the client, flush, and report
    /// `ResponseSent` or `ResponseWriteFailed`.
    SendResponse,
    /// Start reading from both sides at once and report every read.
    StartRelay,
    /// Write these bytes to this side and flush; report `RelayWriteFailed`
    /// if that fails, else go on reading.
    Forward { to: Side, data: &'a [u8] },
    /// Shut down the sockets named; the connection is over.
    Shutdown { client: bool, upstream: bool },
    /// Nothing to do: the event was not one that the connection waits for.
    Idle,
}

/// An [`Action`] as a mathematical value.
pub enum ActionView {
    Resolve { authority: Seq<char> },
    OpenUpstream { address: Seq<char> },
    Negotiate { target: TargetView },
    SendResponse,
    StartRelay,
    Forward { to: Side, data: Seq<u8> },
    Shutdown { client: bool, upstream: bool },
    Idle,
}

impl<'a> View for Action<'a> {
    type V = ActionView;

    open spec fn view(&self) -> ActionView {
        match *self {
            Action::Resolve { authority } => ActionView::Resolve { authority: authority@ },
            Action::OpenUpstream { address } => ActionView::OpenUpstream { address: address@ },
            Action::Negotiate { target } => ActionView::Negotiate { target: target@ },
            Action::SendResponse => ActionView::SendResponse,
            Action::StartRelay => ActionView::StartRelay,
            Action::Forward { to, data } => ActionView::Forward { to, data: data@ },
            Action::Shutdown { client, upstream } => ActionView::Shutdown { client, upstream },
            Action::Idle => ActionView::Idle,
        }
    }
}

impl StageView {
    /// The phase that a stage belongs to.
    pub open spec fn phase(self) -> Phase {
        match self {
            StageView::AwaitingRequest => Phase::AwaitingConnectRequest,
            StageView::Resolving { .. } => Phase::AwaitingConnectRequest,
            StageView::OpeningUpstream { .. } => Phase::Connecting,
            StageView::Negotiating => Phase::Connecting,
            StageView::Replying => Phase::Connecting,
            StageView::Relaying => Phase::Relaying,
            StageView::Ended { cause } => if cause.ends_relay() {
                Phase::Closed
            } else {
                Phase::Failed
            },
        }
    }
}

impl ConnectionView {
    /// A connection that was just accepted: the client socket is open, and
    /// nothing has been read from it.
    pub open spec fn initial() -> ConnectionView {
        ConnectionView {
            stage: StageView::AwaitingRequest,
            client_open: true,
            upstream_open: false,
        }
    }

    /// Whether the connection has ended.
    pub open spec fn is_terminal(self) -> bool {
        self.stage is Ended
    }

    /// The sockets are open that the stage needs: the client socket until the
    /// connection ends, the upstream socket from the moment it was opened
    /// until the connection ends.
    pub open spec fn wf(self) -> bool {
        &&& self.client_open == !(self.stage is Ended)
        &&& self.upstream_open == (self.stage is Negotiating || self.stage is Replying
            || self.stage is Relaying)
    }

    /// The connection ends: every socket that is open is shut down.
    pub open spec fn end(self, cause: Termination) -> (ConnectionView, ActionView) {
        (
            ConnectionView {
                stage: StageView::Ended { cause },
                client_open: false,
                upstream_open: false,
            },
            ActionView::Shutdown { client: self.client_open, upstream: self.upstream_open },
        )
    }

    /// The connection does what the relay decided: it forwards and stays as
    /// it is, or it ends.
    pub open spec fn relay(self, step: RelayStepView) -> (ConnectionView, ActionView) {
        match step {
            RelayStepView::Forward { to, data } => (self, ActionView::Forward { to, data }),
            RelayStepView::Close { cause } => self.end(cause),
        }
    }

    /// The connection goes on to another stage with its sockets as they are.
    pub open spec fn advance(self, stage: StageView) -> ConnectionView {
        ConnectionView { stage, ..self }
    }
}

/// What a connection in `state` does on `event`: its next state, and the
/// action for the caller.
///
/// An event that the stage does not wait for changes nothing.
pub open spec fn transition(config: ConfigView, state: ConnectionView, event: EventView) -> (
    ConnectionView,
    ActionView,
) {
    match state.stage {
        StageView::AwaitingRequest => match event {
            EventView::RequestRead { data } => if data.len() == 0 {
                state.end(Termination::ClientReadFailure)
            } else {
                match request_authority(data) {
                    Some(authority) => (
                        state.advance(StageView::Resolving { authority }),
                        ActionView::Resolve { authority },
                    ),
                    None => state.end(Termination::ProtocolViolation),
                }
            },
            EventView::RequestReadFailed => state.end(Termination::ClientReadFailure),
            _ => (state, ActionView::Idle),
        },
        StageView::Resolving { authority } => match event {
            EventView::Resolved { addresses } => match resolved_target(authority, addresses) {
                Some(target) => (
                    state.advance(StageView::OpeningUpstream { target }),
                    ActionView::OpenUpstream { address: config.upstream_socks5_address },
                ),
                None => state.end(Termination::ProtocolViolation),
            },
            EventView::ResolutionFailed => state.end(Termination::NameResolutionFailure),
            _ => (state, ActionView::Idle),
        },
        StageView::OpeningUpstream { target } => match event {
            EventView::UpstreamOpened => (
                ConnectionView { stage: StageView::Negotiating, upstream_open: true, ..state },
                ActionView::Negotiate { target },
            ),
            EventView::UpstreamUnreachable => state.end(Termination::UpstreamUnreachable),
            _ => (state, ActionView::Idle),
        },
        StageView::Negotiating => match event {
            EventView::HandshakeAccepted => (
                state.advance(StageView::Replying),
                ActionView::SendResponse,
            ),
            EventView::HandshakeRejected { reason } => state.end(
                Termination::HandshakeRejected { reason },
            ),
            _ => (state, ActionView::Idle),
        },
        StageView::Replying => match event {
            EventView::ResponseSent => (
                state.advance(StageView::Relaying),
                ActionView::StartRelay,
            ),
            EventView::ResponseWriteFailed => state.end(Termination::ResponseWriteFailure),
            _ => (state, ActionView::Idle),
        },
        StageView::Relaying => match event {
            EventView::RelayRead { from, data } => state.relay(relay_step(from, Some(data))),
            EventView::RelayReadFailed { from } => state.relay(relay_step(from, None)),
            EventView::RelayWriteFailed { to } => state.end(Termination::RelayFault),
            _ => (state, ActionView::Idle),
        },
        StageView::Ended { cause } => (state, ActionView::Idle),
    }
}

/// Every step keeps the sockets in line with the stage.
pub proof fn lemma_transition_preserves_wf(
    config: ConfigView,
    state: ConnectionView,
    event: EventView,
)
    requires
        state.wf(),
    ensures
        transition(config, state, event).0.wf(),
{
}

fn ended<'a>(client_open: bool, upstream_open: bool, cause: Termination) -> (r: (
    Connection,
    Action<'a>,
))
    ensures
        r.0@ == (ConnectionView {
            stage: StageView::Ended { cause },
            client_open: false,
            upstream_open: false,
        }),
        r.1@ == (ActionView::Shutdown { client: client_open, upstream: upstream_open }),
{
    (
        Connection { stage: Stage::Ended { cause }, client_open: false, upstream_open: false },
        Action::Shutdown { client: client_open, upstream: upstream_open },
    )
}

impl Connection {
    /// The state of a connection that was just accepted.
    pub fn new() -> (connection: Connection)
        ensures
            connection@ == ConnectionView::initial(),
            connection@.wf(),
    {
        Connection { stage: Stage::AwaitingRequest, client_open: true, upstream_open: false }
    }

    /// The phase that the connection is in.
    pub fn phase(&self) -> (phase: Phase)
        ensures
            phase == self@.stage.phase(),
    {
        match &self.stage {
            Stage::AwaitingRequest => Phase::AwaitingConnectRequest,
            Stage::Resolving { .. } => Phase::AwaitingConnectRequest,
            Stage::OpeningUpstream { .. } => Phase::Connecting,
            Stage::Negotiating => Phase::Connecting,
            Stage::Replying => Phase::Connecting,
            Stage::Relaying => Phase::Relaying,
            Stage::Ended { cause } => match cause {
                Termination::RelayFault => Phase::Closed,
                Termination::RelayNormalClose => Phase::Closed,
                _ => Phase::Failed,
            },
        }
    }

    /// Whether the connection has ended.
    pub fn is_terminal(&self) -> (ended: bool)
        ensures
            ended == self@.is_terminal(),
    {
        match &self.stage {
            Stage::Ended { .. } => true,
            _ => false,
        }
    }

    /// Why the connection ended, once it has.
    pub fn termination(&self) -> (cause: Option<Termination>)
        ensures
            match cause {
                Some(c) => self@.stage == (StageView::Ended { cause: c }),
                None => !self@.is_terminal(),
            },
    {
        match &self.stage {
            Stage::Ended { cause } => Some(*cause),
            _ => None,
        }
    }

    /// Takes one event and returns the next state with the action to carry
    /// out.
    pub fn step<'a>(self, config: &Config, event: Event<'a>) -> (r: (Connection, Action<'a>))
        ensures
            (r.0@, r.1@) == transition(config@, self@, event@),
            self@.wf() ==> r.0@.wf(),
    {
        proof {
            if self@.wf() {
                lemma_transition_preserves_wf(config@, self@, event@);
            }
        }
        let Connection { stage, client_open, upstream_open } = self;
        match stage {
            Stage::AwaitingRequest => match event {
                Event::RequestRead { data } => {
                    if data.len() == 0 {
                        ended(client_open, upstream_open, Termination::ClientReadFailure)
                    } else {
                        match process_http_connect(data) {
                            Ok(authority) => {
                                let asked = authority.clone();
                                (
                                    Connection {
                                        stage: Stage::Resolving { authority },
                                        client_open,
                                        upstream_open,
                                    },
                                    Action::Resolve { authority: asked },
                                )
                            },
                            Err(cause) => ended(client_open, upstream_open, cause),
                        }
                    }
                },
                Event::RequestReadFailed => ended(
                    client_open,
                    upstream_open,
                    Termination::ClientReadFailure,
                ),
                _ => (
                    Connection { stage: Stage::AwaitingRequest, client_open, upstream_open },
                    Action::Idle,
                ),
            },
            Stage::Resolving { authority } => match event {
                Event::Resolved { addresses } => {
                    match connect_target(authority.as_str(), &addresses) {
                        Ok(target) => (
                            Connection {
                                stage: Stage::OpeningUpstream { target },
                                client_open,
                                upstream_open,
                            },
                            Action::OpenUpstream {
                                address: config.upstream_socks5_address.clone(),
                            },
                        ),
                        Err(cause) => ended(client_open, upstream_open, cause),
                    }
                },
                Event::ResolutionFailed => ended(
                    client_open,
                    upstream_open,
                    Termination::NameResolutionFailure,
                ),
                _ => (
                    Connection { stage: Stage::Resolving { authority }, client_open, upstream_open },
                    Action::Idle,
                ),
            },
            Stage::OpeningUpstream { target } => match event {
                Event::UpstreamOpened => (
                    Connection { stage: Stage::Negotiating, client_open, upstream_open: true },
                    Action::Negotiate { target },
                ),
                Event::UpstreamUnreachable => ended(
                    client_open,
                    upstream_open,
                    Termination::UpstreamUnreachable,
                ),
                _ => (
                    Connection {
                        stage: Stage::OpeningUpstream { target },
                        client_open,
                        upstream_open,
                    },
                    Action::Idle,
                ),
            },
            Stage::Negotiating => match event {
                Event::HandshakeAccepted => (
                    Connection { stage: Stage::Replying, client_open, upstream_open },
                    Action::SendResponse,
                ),
                Event::HandshakeRejected { reason } => ended(
                    client_open,
                    upstream_open,
                    Termination::HandshakeRejected { reason },
                ),
                _ => (
                    Connection { stage: Stage::Negotiating, client_open, upstream_open },
                    Action::Idle,
                ),
            },
            Stage::Replying => match event {
                Event::ResponseSent => (
                    Connection { stage: Stage::Relaying, client_open, upstream_open },
                    Action::StartRelay,
                ),
                Event::ResponseWriteFailed => ended(
                    client_open,
                    upstream_open,
                    Termination::ResponseWriteFailure,
                ),
                _ => (
                    Connection { stage: Stage::Replying, client_open, upstream_open },
                    Action::Idle,
                ),
            },
            Stage::Relaying => {
                let decision = match event {
                    Event::RelayRead { from, data } => Some(relay_read(from, Some(data))),
                    Event::RelayReadFailed { from } => Some(relay_read(from, None)),
                    Event::RelayWriteFailed { to } => Some(
                        RelayStep::Close { cause: Termination::RelayFault },
                    ),
                    _ => None,
                };
                match decision {
                    Some(RelayStep::Forward { to, data }) => (
                        Connection { stage: Stage::Relaying, client_open, upstream_open },
                        Action::Forward { to, data },
                    ),
                    Some(RelayStep::Close { cause }) => ended(client_open, upstream_open, cause),
                    None => (
                        Connection { stage: Stage::Relaying, client_open, upstream_open },
                        Action::Idle,
                    ),
                }
            },
            Stage::Ended { cause } => (
                Connection { stage: Stage::Ended { cause }, client_open, upstream_open },
                Action::Idle,
            ),
        }
    }
}

} // verus!
