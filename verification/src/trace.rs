//! Whole runs of a connection, and what holds of every run.

use vstd::prelude::*;

use crate::config::ConfigView;
use crate::connection::{transition, ActionView, ConnectionView, EventView, StageView};
use crate::relay::Side;
use crate::request::request_authority;
use crate::termination::Termination;

verus! {

/// The state that a connection reaches from `start` by taking `events` in order.
pub open spec fn run(config: ConfigView, start: ConnectionView, events: Seq<EventView>) -> ConnectionView
    decreases events.len(),
{
    if events.len() == 0 {
        start
    } else {
        transition(config, run(config, start, events.drop_last()), events.last()).0
    }
}

/// The action that the connection returns for the event at position `i` of a run.
pub open spec fn action_at(
    config: ConfigView,
    start: ConnectionView,
    events: Seq<EventView>,
    i: int,
) -> ActionView {
    transition(config, run(config, start, events.take(i)), events[i]).1
}

/// Whether an action makes the caller write bytes to the client.
pub open spec fn writes_to_client(action: ActionView) -> bool {
    ||| action is SendResponse
    ||| action matches ActionView::Forward { to, .. } && to == Side::Client
}

/// Whether an action makes the caller reach out to the network.
pub open spec fn reaches_out(action: ActionView) -> bool {
    action is Resolve || action is OpenUpstream || action is Negotiate
}

/// Whether the SOCKS5 proxy has accepted the target by the time that the
/// connection is in this stage.
pub open spec fn handshake_succeeded(stage: StageView) -> bool {
    match stage {
        StageView::Replying => true,
        StageView::Relaying => true,
        StageView::Ended { cause } => cause is ResponseWriteFailure || cause.ends_relay(),
        _ => false,
    }
}

/// Whether ending for this cause leaves an upstream socket to shut down.
pub open spec fn ends_with_upstream(cause: Termination) -> bool {
    cause is HandshakeRejected || cause is ResponseWriteFailure || cause.ends_relay()
}

/// The bytes that the actions of a run forward to side `to`, in order.
pub open spec fn forwarded(
    config: ConfigView,
    start: ConnectionView,
    events: Seq<EventView>,
    to: Side,
) -> Seq<u8>
    decreases events.len(),
{
    if events.len() == 0 {
        Seq::empty()
    } else {
        let earlier = events.drop_last();
        let action = transition(config, run(config, start, earlier), events.last()).1;
        forwarded(config, start, earlier, to) + (match action {
            ActionView::Forward { to: side, data } => if side == to {
                data
            } else {
                Seq::empty()
            },
            _ => Seq::empty(),
        })
    }
}

/// The bytes that arrive from side `from` during a run while the connection
/// is relaying, in order.
pub open spec fn received(
    config: ConfigView,
    start: ConnectionView,
    events: Seq<EventView>,
    from: Side,
) -> Seq<u8>
    decreases events.len(),
{
    if events.len() == 0 {
        Seq::empty()
    } else {
        let earlier = events.drop_last();
        received(config, start, earlier, from) + (match events.last() {
            EventView::RelayRead { from: side, data } => if side == from && run(
                config,
                start,
                earlier,
            ).stage is Relaying {
                data
            } else {
                Seq::empty()
            },
            _ => Seq::empty(),
        })
    }
}

/// All bytes that the reads of side `from` bring in `events`, in order.
pub open spec fn read_from(events: Seq<EventView>, from: Side) -> Seq<u8>
    decreases events.len(),
{
    if events.len() == 0 {
        Seq::empty()
    } else {
        read_from(events.drop_last(), from) + (match events.last() {
            EventView::RelayRead { from: side, data } => if side == from {
                data
            } else {
                Seq::empty()
            },
            _ => Seq::empty(),
        })
    }
}

/// Whether every event is a read that brought at least one byte.
pub open spec fn all_reads_bring_bytes(events: Seq<EventView>) -> bool {
    forall|i: int|
        0 <= i < events.len() ==> (#[trigger] events[i] matches EventView::RelayRead { data, .. }
            && data.len() > 0)
}

/// A run that starts with sockets in line with the stage keeps them so.
pub proof fn lemma_run_preserves_wf(
    config: ConfigView,
    start: ConnectionView,
    events: Seq<EventView>,
)
    requires
        start.wf(),
    ensures
        run(config, start, events).wf(),
    decreases events.len(),
{
    if events.len() > 0 {
        lemma_run_preserves_wf(config, start, events.drop_last());
    }
}

/// An ended connection takes no further step: every event leaves it as it
/// is, and no action follows.
pub proof fn lemma_ended_is_absorbing(config: ConfigView, state: ConnectionView, event: EventView)
    requires
        state.is_terminal(),
    ensures
        transition(config, state, event) == (state, ActionView::Idle),
{
}

/// The step that ends a connection shuts down every socket that is open, and
/// leaves none open.
pub proof fn lemma_ending_step_releases_sockets(
    config: ConfigView,
    state: ConnectionView,
    event: EventView,
)
    requires
        !state.is_terminal(),
        transition(config, state, event).0.is_terminal(),
    ensures
        transition(config, state, event).1 == (ActionView::Shutdown {
            client: state.client_open,
            upstream: state.upstream_open,
        }),
        !transition(config, state, event).0.client_open,
        !transition(config, state, event).0.upstream_open,
{
}

/// Which sockets the ending step shuts down: always the client socket, and
/// the upstream socket for the causes that arise once it was opened.
pub proof fn lemma_shutdown_scope(
    config: ConfigView,
    state: ConnectionView,
    event: EventView,
    cause: Termination,
)
    requires
        state.wf(),
        !state.is_terminal(),
        transition(config, state, event).0.stage == (StageView::Ended { cause }),
    ensures
        transition(config, state, event).1 == (ActionView::Shutdown {
            client: true,
            upstream: ends_with_upstream(cause),
        }),
{
}

/// However a connection runs, once it has ended neither socket is open; and
/// until then the client socket is.
pub proof fn lemma_ended_connection_holds_no_socket(config: ConfigView, events: Seq<EventView>)
    ensures
        ({
            let last = run(config, ConnectionView::initial(), events);
            &&& last.is_terminal() ==> !last.client_open && !last.upstream_open
            &&& !last.is_terminal() ==> last.client_open
        }),
{
    lemma_run_preserves_wf(config, ConnectionView::initial(), events);
}

/// The sockets that each phase holds: none of the upstream before the
/// connecting phase, both while relaying.
pub proof fn lemma_sockets_by_stage(config: ConfigView, events: Seq<EventView>)
    ensures
        ({
            let last = run(config, ConnectionView::initial(), events);
            &&& (last.stage is AwaitingRequest || last.stage is Resolving || last.stage
                is OpeningUpstream) ==> last.client_open && !last.upstream_open
            &&& (last.stage is Negotiating || last.stage is Replying || last.stage is Relaying)
                ==> last.client_open && last.upstream_open
        }),
{
    lemma_run_preserves_wf(config, ConnectionView::initial(), events);
}

/// The success reply is asked for exactly when the SOCKS5 proxy accepts the
/// target that the connection is negotiating.
pub proof fn lemma_reply_iff_handshake_accepted(
    config: ConfigView,
    state: ConnectionView,
    event: EventView,
)
    ensures
        transition(config, state, event).1 is SendResponse <==> (state.stage is Negotiating
            && event is HandshakeAccepted),
{
}

/// A step writes to the client only once the handshake has succeeded, and
/// once it has succeeded it stays so.
pub proof fn lemma_client_write_needs_handshake(
    config: ConfigView,
    state: ConnectionView,
    event: EventView,
)
    ensures
        writes_to_client(transition(config, state, event).1) ==> handshake_succeeded(
            transition(config, state, event).0.stage,
        ),
        handshake_succeeded(state.stage) ==> handshake_succeeded(
            transition(config, state, event).0.stage,
        ),
        handshake_succeeded(transition(config, state, event).0.stage) ==> handshake_succeeded(
            state.stage,
        ) || (state.stage is Negotiating && event is HandshakeAccepted),
{
}

/// The stage of a run tells whether the handshake succeeded in one of its
/// prefixes.
pub proof fn lemma_handshake_is_kept(
    config: ConfigView,
    start: ConnectionView,
    events: Seq<EventView>,
    i: int,
)
    requires
        0 <= i <= events.len(),
        handshake_succeeded(run(config, start, events.take(i)).stage),
    ensures
        handshake_succeeded(run(config, start, events).stage),
    decreases events.len() - i,
{
    if i == events.len() {
        assert(events.take(i) =~= events);
    } else {
        assert(events.take(i + 1).drop_last() =~= events.take(i));
        lemma_client_write_needs_handshake(
            config,
            run(config, start, events.take(i)),
            events[i],
        );
        lemma_handshake_is_kept(config, start, events, i + 1);
    }
}

/// In a run that ends without the handshake having succeeded, no action
/// writes a byte to the client.
pub proof fn lemma_no_client_bytes_without_handshake(
    config: ConfigView,
    events: Seq<EventView>,
    i: int,
)
    requires
        0 <= i < events.len(),
        !handshake_succeeded(run(config, ConnectionView::initial(), events).stage),
    ensures
        !writes_to_client(action_at(config, ConnectionView::initial(), events, i)),
{
    let start = ConnectionView::initial();
    if writes_to_client(action_at(config, start, events, i)) {
        lemma_client_write_needs_handshake(config, run(config, start, events.take(i)), events[i]);
        assert(events.take(i + 1).drop_last() =~= events.take(i));
        lemma_handshake_is_kept(config, start, events, i + 1);
    }
}

/// A run asks for the success reply if and only if its handshake succeeded.
pub proof fn lemma_reply_written_iff_handshake_succeeded(
    config: ConfigView,
    events: Seq<EventView>,
)
    ensures
        (exists|i: int|
            0 <= i < events.len() && #[trigger] action_at(
                config,
                ConnectionView::initial(),
                events,
                i,
            ) is SendResponse) <==> handshake_succeeded(
            run(config, ConnectionView::initial(), events).stage,
        ),
    decreases events.len(),
{
    let start = ConnectionView::initial();
    if events.len() > 0 {
        let earlier = events.drop_last();
        let n = earlier.len() as int;
        lemma_reply_written_iff_handshake_succeeded(config, earlier);
        lemma_client_write_needs_handshake(config, run(config, start, earlier), events.last());
        assert(events.take(n) =~= earlier);
        assert forall|i: int| 0 <= i < n implies action_at(config, start, events, i) == action_at(
            config,
            start,
            earlier,
            i,
        ) by {
            assert(events.take(i) =~= earlier.take(i));
        }
        if handshake_succeeded(run(config, start, events).stage) {
            if handshake_succeeded(run(config, start, earlier).stage) {
                let i = choose|i: int|
                    0 <= i < earlier.len() && #[trigger] action_at(config, start, earlier, i)
                        is SendResponse;
                assert(action_at(config, start, events, i) is SendResponse);
            } else {
                assert(action_at(config, start, events, n) is SendResponse);
            }
        }
        if exists|i: int|
            0 <= i < events.len() && #[trigger] action_at(config, start, events, i)
                is SendResponse {
            let i = choose|i: int|
                0 <= i < events.len() && #[trigger] action_at(config, start, events, i)
                    is SendResponse;
            if i < n {
                assert(action_at(config, start, earlier, i) is SendResponse);
            }
        }
    }
}

/// A request that names no authority ends the connection at once, and the
/// caller is never asked to reach out to the network.
pub proof fn lemma_refused_request_reaches_nowhere(
    config: ConfigView,
    events: Seq<EventView>,
    data: Seq<u8>,
    i: int,
)
    requires
        0 <= i < events.len(),
        events[0] == (EventView::RequestRead { data }),
        request_authority(data) is None,
    ensures
        run(config, ConnectionView::initial(), events).is_terminal(),
        !reaches_out(action_at(config, ConnectionView::initial(), events, i)),
{
    let start = ConnectionView::initial();
    let first = events.take(1);
    assert(first.drop_last() =~= Seq::<EventView>::empty());
    assert(first.last() == events[0]);
    assert(run(config, start, first.drop_last()) == start);
    assert(run(config, start, first).is_terminal());
    lemma_stays_ended(config, start, events, 1);
    if i > 0 {
        assert(events.take(i).take(1) =~= first);
        lemma_stays_ended(config, start, events.take(i), 1);
    } else {
        assert(events.take(0) =~= Seq::<EventView>::empty());
    }
}

/// A run that has ended after `i` events is in the same state after all of them.
pub proof fn lemma_stays_ended(
    config: ConfigView,
    start: ConnectionView,
    events: Seq<EventView>,
    i: int,
)
    requires
        0 <= i <= events.len(),
        run(config, start, events.take(i)).is_terminal(),
    ensures
        run(config, start, events) == run(config, start, events.take(i)),
    decreases events.len() - i,
{
    if i == events.len() {
        assert(events.take(i) =~= events);
    } else {
        assert(events.take(i + 1).drop_last() =~= events.take(i));
        lemma_stays_ended(config, start, events, i + 1);
    }
}

/// The relay is transparent: what a run forwards to one side is what arrived
/// from the other side while the connection was relaying, byte for byte and
/// in the same order.
pub proof fn lemma_relay_is_transparent(
    config: ConfigView,
    start: ConnectionView,
    events: Seq<EventView>,
    from: Side,
)
    ensures
        forwarded(config, start, events, from.opposite()) == received(config, start, events, from),
    decreases events.len(),
{
    if events.len() > 0 {
        lemma_relay_is_transparent(config, start, events.drop_last(), from);
    }
}

/// The two directions do not wait for each other: while reads bring bytes,
/// whatever their order among the two sides, the connection goes on relaying
/// and every byte read from one side is forwarded to the other.
pub proof fn lemma_directions_are_independent(
    config: ConfigView,
    start: ConnectionView,
    events: Seq<EventView>,
    from: Side,
)
    requires
        start.stage is Relaying,
        all_reads_bring_bytes(events),
    ensures
        run(config, start, events) == start,
        forwarded(config, start, events, from.opposite()) == read_from(events, from),
    decreases events.len(),
{
    if events.len() > 0 {
        let earlier = events.drop_last();
        assert forall|i: int| 0 <= i < earlier.len() implies (#[trigger] earlier[i]
            matches EventView::RelayRead { data, .. } && data.len() > 0) by {
            assert(earlier[i] == events[i]);
        }
        lemma_directions_are_independent(config, start, earlier, from);
        assert(events.last() == events[events.len() - 1]);
    }
}

} // verus!
