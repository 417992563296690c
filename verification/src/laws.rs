//! What holds of the library as a whole, over any number of operations.
pub mod attempts;
pub mod commands;
pub mod configs;
pub mod events;
pub mod messages;
pub mod receiving;
pub mod sending;
pub mod settings;
pub mod values;

use vstd::prelude::*;

use crate::addr::SocketAddr;
use crate::bridge;
use crate::bridge::{BridgeView, ConnView, Decision, IncomingData, SignalRef};
use crate::buffer;
use crate::command;
use crate::command::{BridgeCommand, BridgeWorker, EngineCall};
use crate::config;
use crate::config::{ClientConfig, ServerConfig};
use crate::connection;
use crate::connection::{AcceptView, ConnectingStepView, ConnectingView, OpenView};
use crate::engine::{EngineClose, EngineError, EngineErrorKind};
use crate::error;
use crate::error::{ConnectError, ConnectionErrorView};
use crate::recv_stream;
use crate::recv_stream::{ReadAnswer, ReadError, ReadExactView, ReadToEndView, RecvStreamView};
use crate::send_stream;
use crate::send_stream::{SendStreamView, WriteAllView, WriteError};
use crate::types;
use crate::types::{Dir, Reply, Side, VARINT_MAX};
use crate::worker;
use crate::worker::{Bridge, BridgeSetup, PacketSenderView};

verus! {

// ---------------------------------------------------------------------------
// The shared state over any series of events
// ---------------------------------------------------------------------------

/// What can happen to the shared state of an endpoint.
#[allow(inconsistent_fields)]
pub enum BridgeEvent {
    /// The engine has created a connection, which may be offered to those who accept connections.
    Created {
        conn_id: u64,
        remote_addr: SocketAddr,
        is_server: bool,
        incoming: Option<IncomingData>,
    },
    /// The handshake of a connection is complete.
    Established { conn_id: u64 },
    /// A connection is closed.
    Closed { conn_id: u64, error: ConnectionErrorView },
    /// A stream was created.
    StreamCreated { conn_id: u64, stream_id: u64 },
    /// A stream is readable, or somebody waits for that.
    Readable { conn_id: u64, stream_id: u64 },
    /// A stream is writable, or somebody waits for that.
    Writable { conn_id: u64, stream_id: u64 },
    /// A connection attempt whose ID is known was asked how far it has come.
    Polled { conn_id: u64 },
    /// Somebody asked for a stream of the direction from the connection in the slot.
    StreamAsked { slot: usize, dir: Dir },
    /// Somebody asked for an incoming connection.
    IncomingAsked,
    /// An incoming connection was decided on.
    Decided { decision: Decision },
    /// The endpoint was closed.
    EndpointClosed,
}

/// The state after an event.
pub open spec fn apply(state: BridgeView, event: BridgeEvent) -> BridgeView {
    match event {
        BridgeEvent::Created { conn_id, remote_addr, is_server, incoming } => state.created(
            conn_id,
            remote_addr,
            is_server,
        ).offered(incoming),
        BridgeEvent::Established { conn_id } => state.established(conn_id),
        BridgeEvent::Closed { conn_id, error } => state.closed(conn_id, error),
        BridgeEvent::StreamCreated { conn_id, stream_id } => state.stream_created(
            conn_id,
            stream_id,
        ),
        BridgeEvent::Readable { conn_id, stream_id } => state.readable(conn_id, stream_id),
        BridgeEvent::Writable { conn_id, stream_id } => state.writable(conn_id, stream_id),
        BridgeEvent::Polled { conn_id } => connection::with_waker(
            state,
            connection::handshake_step(state, conn_id),
        ),
        BridgeEvent::StreamAsked { slot, dir } => if slot < state.conns.len() {
            state.accepted(slot, dir)
        } else {
            state
        },
        BridgeEvent::IncomingAsked => state.taken(),
        BridgeEvent::Decided { decision } => state.decided(decision),
        BridgeEvent::EndpointClosed => BridgeView { endpoint_closed: true, ..state },
    }
}

/// The state after a series of events.
pub open spec fn run(state: BridgeView, events: Seq<BridgeEvent>) -> BridgeView
    decreases events.len(),
{
    if events.len() == 0 {
        state
    } else {
        run(apply(state, events[0]), events.drop_first())
    }
}

/// The state is well-formed, no two connection IDs lead to one slot, and a waker waits only where
/// the handshake is neither complete nor failed.
pub open spec fn sound(state: BridgeView) -> bool {
    &&& state.wf()
    &&& forall|a: u64, b: u64| #[trigger]
        state.conn_states.contains_key(a) && #[trigger] state.conn_states.contains_key(b) && a != b
            ==> state.conn_states[a] != state.conn_states[b]
    &&& forall|i: int|
        0 <= i < state.conns.len() && (#[trigger] state.conns[i]).establish_waker
            ==> !state.conns[i].established && state.conns[i].closed is None
}

/// The machine can hold what that many more events can add.
pub open spec fn room(state: BridgeView, events: nat) -> bool {
    &&& state.conns.len() + 2 * events <= usize::MAX
    &&& forall|i: int|
        0 <= i < state.conns.len() ==> (#[trigger] state.conns[i]).signals.len() + 2 * events
            <= usize::MAX
}

proof fn lemma_stream_created(conn: ConnView, stream_id: u64)
    requires
        conn.wf(),
        conn.signals.len() + 2 <= usize::MAX,
    ensures
        conn.stream_created(stream_id).wf(),
        conn.stream_created(stream_id).signals.len() <= conn.signals.len() + 2,
        conn_kept(conn, conn.stream_created(stream_id)),
{
    let readable = conn.with_readable(stream_id);
    let known = readable.with_writable(stream_id);
    let next = conn.stream_created(stream_id);
    assert(readable.wf() && conn_kept(conn, readable));
    assert(known.wf() && conn_kept(readable, known));
    assert forall|k: int| 0 <= k < conn.signals.len() implies known.signals[k]
        == #[trigger] conn.signals[k] by {
        assert(readable.signals[k] == conn.signals[k]);
    }
    assert(conn_kept(conn, known));
    assert(next.queued_right(Dir::Bi));
    assert(next.queued_right(Dir::Uni));
}

proof fn lemma_accepted(conn: ConnView, dir: Dir)
    requires
        conn.wf(),
    ensures
        conn.accepted(dir).wf(),
        conn_kept(conn, conn.accepted(dir)),
{
    let next = conn.accepted(dir);
    if conn.can_accept(dir) {
        assert forall|i: int| 0 <= i < next.queue(dir).len() implies types::peer_initiated(
            #[trigger] next.queue(dir)[i],
            next.side(),
        ) && types::stream_dir(next.queue(dir)[i]) == dir by {
            assert(next.queue(dir)[i] == conn.queue(dir)[i + 1]);
        }
        assert(next.queued_right(Dir::Bi));
        assert(next.queued_right(Dir::Uni));
    }
}

proof fn lemma_slot_change_sound(
    state: BridgeView,
    next: BridgeView,
    slot: int,
    conn: ConnView,
    rest: nat,
)
    requires
        sound(state),
        room(state, rest + 1),
        0 <= slot < state.conns.len(),
        conn.wf(),
        conn.signals.len() <= state.conns[slot].signals.len() + 2,
        conn.establish_waker ==> !conn.established && conn.closed is None,
        next.conns == state.conns.update(slot, conn),
        next.conn_states == state.conn_states,
    ensures
        sound(next),
        room(next, rest),
{
    assert forall|i: int| 0 <= i < next.conns.len() implies (#[trigger] next.conns[i]).wf() && (
    next.conns[i].establish_waker ==> !next.conns[i].established && next.conns[i].closed is None)
        && next.conns[i].signals.len() + 2 * rest <= usize::MAX by {
        assert(state.conns[i].wf());
        if i != slot {
            assert(next.conns[i] == state.conns[i]);
        }
    }
}

proof fn lemma_step_sound(state: BridgeView, event: BridgeEvent, rest: nat)
    requires
        sound(state),
        room(state, rest + 1),
    ensures
        sound(apply(state, event)),
        room(apply(state, event), rest),
{
    let next = apply(state, event);
    match event {
        BridgeEvent::Created { .. } => {
            assert forall|i: int| 0 <= i < next.conns.len() implies (#[trigger] next.conns[i]).wf()
                && (next.conns[i].establish_waker ==> !next.conns[i].established
                && next.conns[i].closed is None) && next.conns[i].signals.len() + 2 * rest
                <= usize::MAX by {
                if i < state.conns.len() {
                    assert(next.conns[i] == state.conns[i]);
                }
            }
        },
        BridgeEvent::Established { conn_id } => {
            if state.conn_states.contains_key(conn_id) {
                let slot = state.conn_states[conn_id] as int;
                assert(state.conns[slot].wf());
                lemma_slot_change_sound(state, next, slot, state.conns[slot].established(), rest);
            }
        },
        BridgeEvent::Closed { conn_id, error } => {
            if state.conn_states.contains_key(conn_id) {
                let slot = state.conn_states[conn_id] as int;
                assert(state.conns[slot].wf());
                lemma_slot_change_sound(state, next, slot, state.conns[slot].closed(error), rest);
            }
        },
        BridgeEvent::StreamCreated { conn_id, stream_id } => {
            if state.conn_states.contains_key(conn_id) {
                let slot = state.conn_states[conn_id] as int;
                let conn = state.conns[slot].stream_created(stream_id);
                lemma_stream_created(state.conns[slot], stream_id);
                lemma_slot_change_sound(state, next, slot, conn, rest);
            }
        },
        BridgeEvent::Readable { conn_id, stream_id } => {
            if state.conn_states.contains_key(conn_id) {
                let slot = state.conn_states[conn_id] as int;
                let conn = state.conns[slot].with_readable(stream_id);
                assert(state.conns[slot].wf());
                assert(conn.wf());
                lemma_slot_change_sound(state, next, slot, conn, rest);
            }
        },
        BridgeEvent::Writable { conn_id, stream_id } => {
            if state.conn_states.contains_key(conn_id) {
                let slot = state.conn_states[conn_id] as int;
                let conn = state.conns[slot].with_writable(stream_id);
                assert(state.conns[slot].wf());
                assert(conn.wf());
                lemma_slot_change_sound(state, next, slot, conn, rest);
            }
        },
        BridgeEvent::Polled { conn_id } => {
            if let ConnectingStepView::AwaitHandshake(slot) = connection::handshake_step(
                state,
                conn_id,
            ) {
                let conn = next.conns[slot as int];
                assert(state.conn_states.contains_key(conn_id));
                assert(state.conns[slot as int].wf());
                assert(conn.wf());
                lemma_slot_change_sound(state, next, slot as int, conn, rest);
            }
        },
        BridgeEvent::StreamAsked { slot, dir } => {
            if slot < state.conns.len() {
                let conn = state.conns[slot as int].accepted(dir);
                lemma_accepted(state.conns[slot as int], dir);
                lemma_slot_change_sound(state, next, slot as int, conn, rest);
            }
        },
        _ => {},
    }
}

/// Whatever happens, in whatever order, the shared state of an endpoint stays sound, and it has
/// room for as many more events as the machine can hold in all.
pub proof fn law_state_stays_sound(local_addr: SocketAddr, events: Seq<BridgeEvent>)
    requires
        events.len() * 2 <= usize::MAX,
    ensures
        sound(run(BridgeView::fresh(local_addr), events)),
        forall|n: nat|
            (events.len() + n) * 2 <= usize::MAX ==> #[trigger] room(
                run(BridgeView::fresh(local_addr), events),
                n,
            ),
{
    let fresh = BridgeView::fresh(local_addr);
    lemma_run_sound(fresh, events, 0);
    assert forall|n: nat| (events.len() + n) * 2 <= usize::MAX implies #[trigger] room(
        run(fresh, events),
        n,
    ) by {
        lemma_run_sound(fresh, events, n);
    }
}

proof fn lemma_run_sound(state: BridgeView, events: Seq<BridgeEvent>, more: nat)
    requires
        sound(state),
        room(state, events.len() + more),
    ensures
        sound(run(state, events)),
        room(run(state, events), more),
    decreases events.len(),
{
    if events.len() > 0 {
        lemma_step_sound(state, events[0], (events.len() - 1 + more) as nat);
        lemma_run_sound(apply(state, events[0]), events.drop_first(), more);
    }
}

/// The later state of a connection keeps what the earlier one had: that its handshake is
/// complete, that it is closed, its side, its address, and the number of every signal.
pub open spec fn conn_kept(earlier: ConnView, later: ConnView) -> bool {
    &&& earlier.established ==> later.established
    &&& earlier.closed is Some ==> later.closed is Some
    &&& earlier.is_server == later.is_server
    &&& earlier.remote_addr == later.remote_addr
    &&& forall|s: u64| #[trigger]
        earlier.readable.contains_key(s) ==> later.readable.contains_key(s) && later.readable[s]
            == earlier.readable[s]
    &&& forall|s: u64| #[trigger]
        earlier.writable.contains_key(s) ==> later.writable.contains_key(s) && later.writable[s]
            == earlier.writable[s]
    &&& earlier.signals.len() <= later.signals.len()
    &&& forall|i: int|
        0 <= i < earlier.signals.len() ==> later.signals[i] == #[trigger] earlier.signals[i]
}

/// The later state of an endpoint keeps what the earlier one had: every slot, every connection
/// ID, that it is closed, and its address.
pub open spec fn kept(earlier: BridgeView, later: BridgeView) -> bool {
    &&& earlier.conns.len() <= later.conns.len()
    &&& forall|i: int|
        0 <= i < earlier.conns.len() ==> conn_kept(#[trigger] earlier.conns[i], later.conns[i])
    &&& forall|id: u64| #[trigger]
        earlier.conn_states.contains_key(id) ==> later.conn_states.contains_key(id)
    &&& earlier.endpoint_closed ==> later.endpoint_closed
    &&& earlier.local_addr == later.local_addr
}

proof fn lemma_slot_change_kept(state: BridgeView, next: BridgeView, slot: int, conn: ConnView)
    requires
        0 <= slot < state.conns.len(),
        conn_kept(state.conns[slot], conn),
        next.conns == state.conns.update(slot, conn),
        next.conn_states == state.conn_states,
        next.endpoint_closed == state.endpoint_closed,
        next.local_addr == state.local_addr,
    ensures
        kept(state, next),
{
    assert forall|i: int| 0 <= i < state.conns.len() implies conn_kept(
        #[trigger] state.conns[i],
        next.conns[i],
    ) by {
        if i != slot {
            assert(next.conns[i] == state.conns[i]);
        }
    }
}

proof fn lemma_readable_kept(state: BridgeView, conn_id: u64, stream_id: u64)
    requires
        state.wf(),
    ensures
        kept(state, state.readable(conn_id, stream_id)),
{
    if state.conn_states.contains_key(conn_id) {
        let slot = state.conn_states[conn_id] as int;
        let conn = state.conns[slot].with_readable(stream_id);
        assert(conn_kept(state.conns[slot], conn));
        lemma_slot_change_kept(state, state.readable(conn_id, stream_id), slot, conn);
    }
}

proof fn lemma_writable_kept(state: BridgeView, conn_id: u64, stream_id: u64)
    requires
        state.wf(),
    ensures
        kept(state, state.writable(conn_id, stream_id)),
{
    if state.conn_states.contains_key(conn_id) {
        let slot = state.conn_states[conn_id] as int;
        let conn = state.conns[slot].with_writable(stream_id);
        assert(conn_kept(state.conns[slot], conn));
        lemma_slot_change_kept(state, state.writable(conn_id, stream_id), slot, conn);
    }
}

proof fn lemma_step_kept(state: BridgeView, event: BridgeEvent, rest: nat)
    requires
        sound(state),
        room(state, rest + 1),
    ensures
        kept(state, apply(state, event)),
{
    let next = apply(state, event);
    match event {
        BridgeEvent::Created { .. } => {
            assert forall|i: int| 0 <= i < state.conns.len() implies conn_kept(
                #[trigger] state.conns[i],
                next.conns[i],
            ) by {
                assert(next.conns[i] == state.conns[i]);
            }
        },
        BridgeEvent::Established { conn_id } => {
            if state.conn_states.contains_key(conn_id) {
                let slot = state.conn_states[conn_id] as int;
                lemma_slot_change_kept(state, next, slot, state.conns[slot].established());
            }
        },
        BridgeEvent::Closed { conn_id, error } => {
            if state.conn_states.contains_key(conn_id) {
                let slot = state.conn_states[conn_id] as int;
                lemma_slot_change_kept(state, next, slot, state.conns[slot].closed(error));
            }
        },
        BridgeEvent::StreamCreated { conn_id, stream_id } => {
            if state.conn_states.contains_key(conn_id) {
                let slot = state.conn_states[conn_id] as int;
                lemma_stream_created(state.conns[slot], stream_id);
                lemma_slot_change_kept(
                    state,
                    next,
                    slot,
                    state.conns[slot].stream_created(stream_id),
                );
            }
        },
        BridgeEvent::Readable { conn_id, stream_id } => {
            lemma_readable_kept(state, conn_id, stream_id);
        },
        BridgeEvent::Writable { conn_id, stream_id } => {
            lemma_writable_kept(state, conn_id, stream_id);
        },
        BridgeEvent::Polled { conn_id } => {
            if let ConnectingStepView::AwaitHandshake(slot) = connection::handshake_step(
                state,
                conn_id,
            ) {
                lemma_slot_change_kept(state, next, slot as int, next.conns[slot as int]);
            }
        },
        BridgeEvent::StreamAsked { slot, dir } => {
            if slot < state.conns.len() {
                let conn = state.conns[slot as int];
                lemma_accepted(conn, dir);
                lemma_slot_change_kept(state, next, slot as int, conn.accepted(dir));
            }
        },
        BridgeEvent::IncomingAsked => {},
        BridgeEvent::Decided { .. } => {},
        BridgeEvent::EndpointClosed => {},
    }
}

proof fn lemma_kept_transitive(a: BridgeView, b: BridgeView, c: BridgeView)
    requires
        kept(a, b),
        kept(b, c),
    ensures
        kept(a, c),
{
    assert forall|i: int| 0 <= i < a.conns.len() implies conn_kept(
        #[trigger] a.conns[i],
        c.conns[i],
    ) by {
        assert(conn_kept(a.conns[i], b.conns[i]));
        assert(conn_kept(b.conns[i], c.conns[i]));
        assert forall|k: int| 0 <= k < a.conns[i].signals.len() implies c.conns[i].signals[k]
            == #[trigger] a.conns[i].signals[k] by {
            assert(b.conns[i].signals[k] == a.conns[i].signals[k]);
        }
    }
}

/// Nothing that has happened is ever taken back: a connection that is established or closed stays
/// so, a stream keeps the numbers of its signals, connections keep their slots, side and address,
/// and a closed endpoint stays closed.
pub proof fn law_nothing_is_taken_back(state: BridgeView, events: Seq<BridgeEvent>)
    requires
        sound(state),
        room(state, events.len()),
    ensures
        kept(state, run(state, events)),
    decreases events.len(),
{
    if events.len() > 0 {
        let next = apply(state, events[0]);
        lemma_step_sound(state, events[0], (events.len() - 1) as nat);
        lemma_step_kept(state, events[0], (events.len() - 1) as nat);
        law_nothing_is_taken_back(next, events.drop_first());
        lemma_kept_transitive(state, next, run(next, events.drop_first()));
    }
}

/// How many of the events create a connection.
pub open spec fn created_count(events: Seq<BridgeEvent>) -> int
    decreases events.len(),
{
    if events.len() == 0 {
        0
    } else {
        (if events[0] is Created {
            1int
        } else {
            0
        }) + created_count(events.drop_first())
    }
}

/// How many of the events close a connection.
pub open spec fn closed_count(events: Seq<BridgeEvent>) -> int
    decreases events.len(),
{
    if events.len() == 0 {
        0
    } else {
        (if events[0] is Closed {
            1int
        } else {
            0
        }) + closed_count(events.drop_first())
    }
}

proof fn lemma_open_connections(state: BridgeView, events: Seq<BridgeEvent>)
    ensures
        run(state, events).open_connections == (state.open_connections + created_count(events)
            - closed_count(events)) % 0x1_0000_0000_0000_0000,
    decreases events.len(),
{
    if events.len() > 0 {
        lemma_open_connections(apply(state, events[0]), events.drop_first());
    }
}

/// The number of open connections is the number of connections created less the number closed, in
/// 64-bit arithmetic; and where no more were closed than created, the endpoint is idle exactly if
/// as many were closed as created.
pub proof fn law_open_connections_are_counted(local_addr: SocketAddr, events: Seq<BridgeEvent>)
    ensures
        run(BridgeView::fresh(local_addr), events).open_connections == (created_count(events)
            - closed_count(events)) % 0x1_0000_0000_0000_0000,
        0 <= created_count(events) - closed_count(events) <= u64::MAX ==> (run(
            BridgeView::fresh(local_addr),
            events,
        ).open_connections == 0 <==> created_count(events) == closed_count(events)),
{
    lemma_open_connections(BridgeView::fresh(local_addr), events);
}

/// No event gives the connection ID to another connection.
pub open spec fn keeps_id(events: Seq<BridgeEvent>, conn_id: u64) -> bool {
    forall|i: int|
        0 <= i < events.len() ==> !(#[trigger] events[i] matches BridgeEvent::Created {
            conn_id: id,
            ..
        } && id == conn_id)
}

/// No event completes or closes the connection.
pub open spec fn no_outcome(events: Seq<BridgeEvent>, conn_id: u64) -> bool {
    forall|i: int|
        0 <= i < events.len() ==> !(#[trigger] events[i] matches BridgeEvent::Established {
            conn_id: id,
        } && id == conn_id) && !(events[i] matches BridgeEvent::Closed { conn_id: id, .. } && id
            == conn_id)
}

proof fn lemma_slot_kept(state: BridgeView, events: Seq<BridgeEvent>, conn_id: u64)
    requires
        sound(state),
        room(state, events.len()),
        keeps_id(events, conn_id),
    ensures
        run(state, events).slot_of(conn_id) == state.slot_of(conn_id),
    decreases events.len(),
{
    if events.len() > 0 {
        let next = apply(state, events[0]);
        let rest = events.drop_first();
        lemma_step_sound(state, events[0], (events.len() - 1) as nat);
        assert(!(events[0] matches BridgeEvent::Created { conn_id: id, .. } && id == conn_id));
        assert(next.slot_of(conn_id) == state.slot_of(conn_id));
        assert forall|i: int| 0 <= i < rest.len() implies !(
        #[trigger] rest[i] matches BridgeEvent::Created { conn_id: id, .. } && id == conn_id) by {
            assert(rest[i] == events[i + 1]);
        }
        lemma_slot_kept(next, rest, conn_id);
    }
}

proof fn lemma_waker_kept(state: BridgeView, events: Seq<BridgeEvent>, conn_id: u64)
    requires
        sound(state),
        room(state, events.len()),
        keeps_id(events, conn_id),
        no_outcome(events, conn_id),
        bridge::waker_of(state, conn_id) is Some,
    ensures
        bridge::waker_of(run(state, events), conn_id) == bridge::waker_of(state, conn_id),
        run(state, events).conn(conn_id)->0.established == state.conn(conn_id)->0.established,
        run(state, events).conn(conn_id)->0.closed == state.conn(conn_id)->0.closed,
    decreases events.len(),
{
    if events.len() > 0 {
        let next = apply(state, events[0]);
        let rest = events.drop_first();
        let slot = state.slot_of(conn_id)->0;
        lemma_step_sound(state, events[0], (events.len() - 1) as nat);
        assert(!(events[0] matches BridgeEvent::Created { conn_id: id, .. } && id == conn_id));
        assert(!(events[0] matches BridgeEvent::Established { conn_id: id } && id == conn_id));
        assert(next.slot_of(conn_id) == state.slot_of(conn_id));
        assert(state.conn_states.contains_key(conn_id));
        assert(next.conns[slot as int].establish_waker);
        assert forall|i: int| 0 <= i < rest.len() implies !(
        #[trigger] rest[i] matches BridgeEvent::Created { conn_id: id, .. } && id == conn_id) && !(
        rest[i] matches BridgeEvent::Established { conn_id: id } && id == conn_id) && !(
        rest[i] matches BridgeEvent::Closed { conn_id: id, .. } && id == conn_id) by {
            assert(rest[i] == events[i + 1]);
        }
        lemma_waker_kept(next, rest, conn_id);
    }
}

/// A connection attempt that waits for its handshake is woken by whatever ends it: after any
/// other events, the waker that it registered is the one that the completion or the close of the
/// connection wakes, and the attempt then learns which of them it was.
pub proof fn law_handshake_waiter_is_woken(
    state: BridgeView,
    conn_id: u64,
    slot: usize,
    events: Seq<BridgeEvent>,
    error: ConnectionErrorView,
)
    requires
        sound(state),
        room(state, events.len() + 2),
        connection::handshake_step(state, conn_id) == ConnectingStepView::AwaitHandshake(slot),
        keeps_id(events, conn_id),
        no_outcome(events, conn_id),
    ensures
        ({
            let waiting = run(apply(state, BridgeEvent::Polled { conn_id }), events);
            &&& bridge::waker_of(waiting, conn_id) == Some(slot)
            &&& connection::handshake_step(waiting.established(conn_id), conn_id)
                == ConnectingStepView::Connected(conn_id)
            &&& connection::handshake_step(waiting.closed(conn_id, error), conn_id)
                == ConnectingStepView::Failed(error)
        }),
{
    let polled = apply(state, BridgeEvent::Polled { conn_id });
    lemma_step_sound(state, BridgeEvent::Polled { conn_id }, (events.len() + 1) as nat);
    assert(polled.conns[slot as int].establish_waker);
    lemma_waker_kept(polled, events, conn_id);
    lemma_slot_kept(polled, events, conn_id);
    lemma_run_sound(polled, events, 0);
}

/// Once a connection is established or closed, every later attempt to wait for its handshake is
/// over at once, and with success if it was established.
pub proof fn law_connection_outcome_is_final(
    state: BridgeView,
    conn_id: u64,
    events: Seq<BridgeEvent>,
)
    requires
        sound(state),
        room(state, events.len()),
        keeps_id(events, conn_id),
        state.conn(conn_id) matches Some(c) && (c.established || c.closed is Some),
    ensures
        connection::handshake_step(run(state, events), conn_id) is Connected
            || connection::handshake_step(run(state, events), conn_id) is Failed,
        state.conn(conn_id)->0.established ==> connection::handshake_step(
            run(state, events),
            conn_id,
        ) == ConnectingStepView::Connected(conn_id),
{
    lemma_slot_kept(state, events, conn_id);
    law_nothing_is_taken_back(state, events);
}

/// A connection attempt that knows its connection ID goes by the state of the connection alone,
/// and knows the ID from then on.
pub proof fn law_known_id_is_kept(
    attempt: ConnectingView,
    state: BridgeView,
    id: Reply<Result<u64, ConnectError>>,
    later: Reply<Result<u64, ConnectError>>,
)
    requires
        attempt.resolve(id) is Ok,
    ensures
        attempt.known(attempt.resolve(id)->Ok_0).conn_id == Some(attempt.resolve(id)->Ok_0),
        attempt.known(attempt.resolve(id)->Ok_0).step(state, later) == attempt.step(state, id),
{
}

/// No event closes the connection.
pub open spec fn no_close(events: Seq<BridgeEvent>, conn_id: u64) -> bool {
    forall|i: int|
        0 <= i < events.len() ==> !(#[trigger] events[i] matches BridgeEvent::Closed {
            conn_id: id,
            ..
        } && id == conn_id)
}

/// A connection has no close reason before it is closed: where it has none, and the engine does not
/// report its close, it has none later. To ask for the close is not enough, since a command does
/// not touch the shared state.
pub proof fn law_no_close_reason_before_the_close(
    state: BridgeView,
    conn_id: u64,
    events: Seq<BridgeEvent>,
)
    requires
        sound(state),
        room(state, events.len()),
        no_close(events, conn_id),
        state.close_reason(conn_id) is None,
    ensures
        run(state, events).close_reason(conn_id) is None,
    decreases events.len(),
{
    if events.len() > 0 {
        let next = apply(state, events[0]);
        let rest = events.drop_first();
        lemma_step_sound(state, events[0], (events.len() - 1) as nat);
        assert(!(events[0] matches BridgeEvent::Closed { conn_id: id, .. } && id == conn_id));
        assert(state.conn_states.contains_key(conn_id) || !state.conn_states.contains_key(conn_id));
        assert(next.close_reason(conn_id) is None);
        assert forall|i: int| 0 <= i < rest.len() implies !(
        #[trigger] rest[i] matches BridgeEvent::Closed { conn_id: id, .. } && id == conn_id) by {
            assert(rest[i] == events[i + 1]);
        }
        law_no_close_reason_before_the_close(next, conn_id, rest);
    }
}

#[verifier::spinoff_prover]
proof fn lemma_step_keeps_reason(state: BridgeView, event: BridgeEvent, conn_id: u64)
    requires
        sound(state),
        !(event matches BridgeEvent::Created { conn_id: id, .. } && id == conn_id),
        !(event matches BridgeEvent::Closed { conn_id: id, .. } && id == conn_id),
    ensures
        apply(state, event).slot_of(conn_id) == state.slot_of(conn_id),
        apply(state, event).close_reason(conn_id) == state.close_reason(conn_id),
        apply(state, event).lost(conn_id) == state.lost(conn_id),
{
    let next = apply(state, event);
    if state.conn_states.contains_key(conn_id) {
        let slot = state.conn_states[conn_id] as int;
        assert(next.conn_states.contains_key(conn_id));
        assert(next.conn_states[conn_id] == state.conn_states[conn_id]);
        match event {
            BridgeEvent::Created { .. } => {
                assert(next.conns[slot] == state.conns[slot]);
            },
            BridgeEvent::Closed { conn_id: id, .. } => {
                if state.conn_states.contains_key(id) {
                    assert(state.conn_states[id] != state.conn_states[conn_id]);
                }
            },
            _ => {},
        }
        assert(next.conns[slot].closed == state.conns[slot].closed);
    } else {
        assert(!next.conn_states.contains_key(conn_id));
    }
}

/// The close reason of a connection is lasting: it is the same after any events but another close
/// of the connection, and so is what is told to those who wait for the close.
pub proof fn law_close_reason_is_lasting(
    state: BridgeView,
    conn_id: u64,
    events: Seq<BridgeEvent>,
)
    requires
        sound(state),
        room(state, events.len()),
        keeps_id(events, conn_id),
        no_close(events, conn_id),
    ensures
        run(state, events).close_reason(conn_id) == state.close_reason(conn_id),
        run(state, events).lost(conn_id) == state.lost(conn_id),
    decreases events.len(),
{
    if events.len() > 0 {
        let next = apply(state, events[0]);
        let rest = events.drop_first();
        lemma_step_sound(state, events[0], (events.len() - 1) as nat);
        assert(!(events[0] matches BridgeEvent::Created { conn_id: id, .. } && id == conn_id));
        assert(!(events[0] matches BridgeEvent::Closed { conn_id: id, .. } && id == conn_id));
        lemma_step_keeps_reason(state, events[0], conn_id);
        assert forall|i: int| 0 <= i < rest.len() implies !(
        #[trigger] rest[i] matches BridgeEvent::Created { conn_id: id, .. } && id == conn_id) && !(
        rest[i] matches BridgeEvent::Closed { conn_id: id, .. } && id == conn_id) by {
            assert(rest[i] == events[i + 1]);
        }
        law_close_reason_is_lasting(next, conn_id, rest);
    }
}

/// Once a connection is closed, nothing can be opened, accepted or waited for on it, and its
/// close reason can be asked for; unless it is closed again, it is always the error of the close.
pub proof fn law_closed_connection_stays_closed(
    state: BridgeView,
    conn_id: u64,
    error: ConnectionErrorView,
    events: Seq<BridgeEvent>,
)
    requires
        sound(state),
        room(state, events.len() + 1),
        state.slot_of(conn_id) is Some,
        keeps_id(events, conn_id),
    ensures
        state.closed(conn_id, error).close_reason(conn_id) == Some(error),
        ({
            let later = run(state.closed(conn_id, error), events);
            let unsent = OpenView { conn_id, sent: false };
            &&& later.close_reason(conn_id) is Some
            &&& later.lost(conn_id) is Some
            &&& unsent.started(later) == unsent
            &&& (AcceptView { conn_id, slot: None }).refusal(later) is Some
            &&& (AcceptView { conn_id, slot: state.slot_of(conn_id) }).refusal(later) is Some
            &&& no_close(events, conn_id) ==> {
                &&& later.close_reason(conn_id) == Some(error)
                &&& later.lost(conn_id) == Some(error)
                &&& (AcceptView { conn_id, slot: None }).refusal(later) == Some(error)
                &&& (AcceptView { conn_id, slot: state.slot_of(conn_id) }).refusal(later) == Some(
                    error,
                )
            }
        }),
{
    let closed = apply(state, BridgeEvent::Closed { conn_id, error });
    lemma_step_sound(state, BridgeEvent::Closed { conn_id, error }, events.len());
    lemma_slot_kept(closed, events, conn_id);
    law_nothing_is_taken_back(closed, events);
    if no_close(events, conn_id) {
        law_close_reason_is_lasting(closed, conn_id, events);
    }
}

/// What the close reason of a connection is, from the start of an endpoint on: there is none while
/// the engine has not reported its close; and from the report on it is the error that was reported,
/// for whoever asks and for whoever waits, unless the connection is closed again.
pub proof fn law_close_reason_of_an_endpoint(
    local_addr: SocketAddr,
    before: Seq<BridgeEvent>,
    conn_id: u64,
    error: ConnectionErrorView,
    after: Seq<BridgeEvent>,
)
    requires
        (before.len() + after.len() + 1) * 2 <= usize::MAX,
    ensures
        ({
            let state = run(BridgeView::fresh(local_addr), before);
            let closed = apply(state, BridgeEvent::Closed { conn_id, error });
            let later = run(closed, after);
            &&& no_close(before, conn_id) ==> state.close_reason(conn_id) is None
            &&& state.slot_of(conn_id) is Some && keeps_id(after, conn_id) && no_close(
                after,
                conn_id,
            ) ==> {
                &&& closed.close_reason(conn_id) == Some(error)
                &&& later.close_reason(conn_id) == Some(error)
                &&& later.lost(conn_id) == Some(error)
            }
        }),
{
    let fresh = BridgeView::fresh(local_addr);
    let state = run(fresh, before);
    law_state_stays_sound(local_addr, before);
    law_state_stays_sound(local_addr, Seq::empty());
    assert(run(fresh, Seq::empty()) == fresh);
    assert(room(run(fresh, Seq::empty()), before.len()));
    if no_close(before, conn_id) {
        law_no_close_reason_before_the_close(fresh, conn_id, before);
    }
    assert(room(state, after.len() + 1));
    if state.slot_of(conn_id) is Some && keeps_id(after, conn_id) {
        law_closed_connection_stays_closed(state, conn_id, error, after);
    }
}

/// The streams of the direction that the peer has opened on the connection, in the order in which
/// the engine created them.
pub open spec fn opened_by_peer(
    events: Seq<BridgeEvent>,
    conn_id: u64,
    side: Side,
    dir: Dir,
) -> Seq<u64>
    decreases events.len(),
{
    if events.len() == 0 {
        Seq::empty()
    } else {
        (match events[0] {
            BridgeEvent::StreamCreated { conn_id: id, stream_id } => if id == conn_id
                && types::peer_initiated(stream_id, side) && types::stream_dir(stream_id) == dir {
                seq![stream_id]
            } else {
                Seq::empty()
            },
            _ => Seq::empty(),
        }) + opened_by_peer(events.drop_first(), conn_id, side, dir)
    }
}

/// The streams of the direction that were handed out from the slot, in that order.
pub open spec fn handed_out(
    state: BridgeView,
    events: Seq<BridgeEvent>,
    slot: usize,
    dir: Dir,
) -> Seq<u64>
    decreases events.len(),
{
    if events.len() == 0 {
        Seq::empty()
    } else {
        (if events[0] == (BridgeEvent::StreamAsked { slot, dir })
            && state.conns[slot as int].can_accept(dir) {
            seq![state.conns[slot as int].queue(dir)[0]]
        } else {
            Seq::empty()
        }) + handed_out(apply(state, events[0]), events.drop_first(), slot, dir)
    }
}

proof fn lemma_queue_step(
    state: BridgeView,
    event: BridgeEvent,
    conn_id: u64,
    slot: usize,
    dir: Dir,
    rest: nat,
)
    requires
        sound(state),
        room(state, rest + 1),
        state.slot_of(conn_id) == Some(slot),
        !(event matches BridgeEvent::Created { conn_id: id, .. } && id == conn_id),
    ensures
        apply(state, event).slot_of(conn_id) == Some(slot),
        apply(state, event).conns[slot as int].side() == state.conns[slot as int].side(),
        ({
            let queue = state.conns[slot as int].queue(dir);
            let next = apply(state, event).conns[slot as int].queue(dir);
            if event == (BridgeEvent::StreamAsked { slot, dir })
                && state.conns[slot as int].can_accept(dir) {
                next == queue.drop_first()
            } else if event matches BridgeEvent::StreamCreated { conn_id: id, stream_id } && id
                == conn_id && types::peer_initiated(stream_id, state.conns[slot as int].side())
                && types::stream_dir(stream_id) == dir {
                next == queue.push(event->StreamCreated_stream_id)
            } else {
                next == queue
            }
        }),
{
    lemma_step_sound(state, event, rest);
    lemma_step_kept(state, event, rest);
    assert(state.conn_states.contains_key(conn_id));
    assert(conn_kept(state.conns[slot as int], apply(state, event).conns[slot as int]));
    if let BridgeEvent::StreamCreated { conn_id: id, .. } = event {
        if state.conn_states.contains_key(id) && id != conn_id {
            assert(state.conn_states[id] != state.conn_states[conn_id]);
        }
    }
}

/// The streams that the peer opens are accepted once each, per direction in the order in which
/// they were created: those that were waiting, and then those that were created, are those that
/// were handed out, and then those that still wait. Each of them is the peer's and has the
/// direction that was asked for.
pub proof fn law_streams_are_accepted_in_order(
    state: BridgeView,
    events: Seq<BridgeEvent>,
    conn_id: u64,
    slot: usize,
    dir: Dir,
)
    requires
        sound(state),
        room(state, events.len()),
        keeps_id(events, conn_id),
        state.slot_of(conn_id) == Some(slot),
    ensures
        state.conns[slot as int].queue(dir) + opened_by_peer(
            events,
            conn_id,
            state.conns[slot as int].side(),
            dir,
        ) == handed_out(state, events, slot, dir) + run(state, events).conns[slot as int].queue(
            dir,
        ),
        forall|i: int|
            0 <= i < handed_out(state, events, slot, dir).len() ==> types::peer_initiated(
                #[trigger] handed_out(state, events, slot, dir)[i],
                state.conns[slot as int].side(),
            ) && types::stream_dir(handed_out(state, events, slot, dir)[i]) == dir,
    decreases events.len(),
{
    let queue = state.conns[slot as int].queue(dir);
    let side = state.conns[slot as int].side();
    if events.len() > 0 {
        let event = events[0];
        let next = apply(state, event);
        let rest = events.drop_first();
        assert(!(events[0] matches BridgeEvent::Created { conn_id: id, .. } && id == conn_id));
        assert forall|i: int| 0 <= i < rest.len() implies !(
        #[trigger] rest[i] matches BridgeEvent::Created { conn_id: id, .. } && id == conn_id) by {
            assert(rest[i] == events[i + 1]);
        }
        lemma_step_sound(state, event, rest.len());
        lemma_queue_step(state, event, conn_id, slot, dir, rest.len());
        law_streams_are_accepted_in_order(next, rest, conn_id, slot, dir);
        let next_queue = next.conns[slot as int].queue(dir);
        let opened = opened_by_peer(rest, conn_id, side, dir);
        let handed = handed_out(next, rest, slot, dir);
        let left = run(state, events).conns[slot as int].queue(dir);
        assert(state.conn_states.contains_key(conn_id));
        assert(state.conns[slot as int].wf());
        assert(state.conns[slot as int].queued_right(dir));
        assert(next_queue + opened == handed + left);
        if event == (BridgeEvent::StreamAsked { slot, dir })
            && state.conns[slot as int].can_accept(dir) {
            assert(queue =~= seq![queue[0]] + next_queue);
            assert(opened_by_peer(events, conn_id, side, dir) =~= opened);
            assert(queue + opened =~= seq![queue[0]] + (next_queue + opened));
            assert(handed_out(state, events, slot, dir) == seq![queue[0]] + handed);
            assert(seq![queue[0]] + (handed + left) =~= (seq![queue[0]] + handed) + left);
            assert forall|i: int|
                0 <= i < handed_out(state, events, slot, dir).len() implies types::peer_initiated(
                #[trigger] handed_out(state, events, slot, dir)[i],
                side,
            ) && types::stream_dir(handed_out(state, events, slot, dir)[i]) == dir by {
                if i > 0 {
                    assert(handed_out(state, events, slot, dir)[i] == handed[i - 1]);
                }
            }
        } else {
            assert(handed_out(state, events, slot, dir) =~= handed);
            assert(queue + opened_by_peer(events, conn_id, side, dir) =~= next_queue + opened);
        }
    } else {
        assert(queue + Seq::<u64>::empty() =~= Seq::<u64>::empty() + queue);
    }
}

/// The incoming connections that the engine has reported, in that order.
pub open spec fn offered(events: Seq<BridgeEvent>) -> Seq<IncomingData>
    decreases events.len(),
{
    if events.len() == 0 {
        Seq::empty()
    } else {
        (match events[0] {
            BridgeEvent::Created { incoming: Some(data), .. } => seq![data],
            _ => Seq::empty(),
        }) + offered(events.drop_first())
    }
}

/// The incoming connections that were handed out, in that order.
pub open spec fn given_out(state: BridgeView, events: Seq<BridgeEvent>) -> Seq<IncomingData>
    decreases events.len(),
{
    if events.len() == 0 {
        Seq::empty()
    } else {
        (if events[0] is IncomingAsked && state.can_take() {
            seq![state.incoming[0]]
        } else {
            Seq::empty()
        }) + given_out(apply(state, events[0]), events.drop_first())
    }
}

/// Incoming connections are accepted once each, in the order in which they came: those that were
/// waiting, and then those that came, are those that were handed out, and then those that still
/// wait.
pub proof fn law_connections_are_accepted_in_order(state: BridgeView, events: Seq<BridgeEvent>)
    ensures
        state.incoming + offered(events) == given_out(state, events) + run(state, events).incoming,
    decreases events.len(),
{
    if events.len() > 0 {
        let next = apply(state, events[0]);
        let rest = events.drop_first();
        law_connections_are_accepted_in_order(next, rest);
        let given = given_out(next, rest);
        let left = run(state, events).incoming;
        assert(next.incoming + offered(rest) == given + left);
        if events[0] is IncomingAsked && state.can_take() {
            let head = seq![state.incoming[0]];
            assert(state.incoming =~= head + next.incoming);
            assert(offered(events) =~= offered(rest));
            assert(state.incoming + offered(rest) =~= head + (next.incoming + offered(rest)));
            assert(head + (given + left) =~= (head + given) + left);
        } else {
            assert(given_out(state, events) =~= given);
            assert(state.incoming + offered(events) =~= next.incoming + offered(rest));
        }
    } else {
        assert(state.incoming + Seq::<IncomingData>::empty() =~= Seq::<IncomingData>::empty()
            + state.incoming);
    }
}

/// How many of the events decide so on an incoming connection.
pub open spec fn decided_count(events: Seq<BridgeEvent>, decision: Decision) -> nat
    decreases events.len(),
{
    if events.len() == 0 {
        0
    } else {
        (if events[0] == (BridgeEvent::Decided { decision }) {
            1nat
        } else {
            0nat
        }) + decided_count(events.drop_first(), decision)
    }
}

/// How many of the events create a connection that this endpoint has started.
pub open spec fn outgoing_count(events: Seq<BridgeEvent>) -> nat
    decreases events.len(),
{
    if events.len() == 0 {
        0
    } else {
        (if events[0] matches BridgeEvent::Created { is_server, .. } && !is_server {
            1nat
        } else {
            0nat
        }) + outgoing_count(events.drop_first())
    }
}

proof fn lemma_stats(state: BridgeView, events: Seq<BridgeEvent>)
    ensures
        ({
            let stats = run(state, events).stats;
            &&& stats.accepted_handshakes == (state.stats.accepted_handshakes + decided_count(
                events,
                Decision::Accepted,
            )) % 0x1_0000_0000_0000_0000
            &&& stats.refused_handshakes == (state.stats.refused_handshakes + decided_count(
                events,
                Decision::Refused,
            )) % 0x1_0000_0000_0000_0000
            &&& stats.ignored_handshakes == (state.stats.ignored_handshakes + decided_count(
                events,
                Decision::Ignored,
            )) % 0x1_0000_0000_0000_0000
            &&& stats.outgoing_handshakes == (state.stats.outgoing_handshakes + outgoing_count(
                events,
            )) % 0x1_0000_0000_0000_0000
        }),
    decreases events.len(),
{
    if events.len() > 0 {
        lemma_stats(apply(state, events[0]), events.drop_first());
    }
}

/// The statistics of an endpoint count, in 64-bit arithmetic, the incoming connections that were
/// accepted, refused and ignored, and the connections that the endpoint has started.
pub proof fn law_handshakes_are_counted(local_addr: SocketAddr, events: Seq<BridgeEvent>)
    ensures
        ({
            let stats = run(BridgeView::fresh(local_addr), events).stats;
            &&& stats.accepted_handshakes == decided_count(events, Decision::Accepted)
                % 0x1_0000_0000_0000_0000
            &&& stats.refused_handshakes == decided_count(events, Decision::Refused)
                % 0x1_0000_0000_0000_0000
            &&& stats.ignored_handshakes == decided_count(events, Decision::Ignored)
                % 0x1_0000_0000_0000_0000
            &&& stats.outgoing_handshakes == outgoing_count(events) % 0x1_0000_0000_0000_0000
        }),
{
    lemma_stats(BridgeView::fresh(local_addr), events);
}

/// Whoever waits for a stream to become readable waits for the very signal that later events of
/// the stream give.
pub proof fn law_readable_waiter_is_signalled(
    state: BridgeView,
    conn_id: u64,
    stream_id: u64,
    signal: SignalRef,
    events: Seq<BridgeEvent>,
)
    requires
        sound(state),
        room(state, events.len()),
        keeps_id(events, conn_id),
        bridge::readable_signal(state, conn_id, stream_id) == Some(signal),
    ensures
        bridge::readable_signal(run(state, events), conn_id, stream_id) == Some(signal),
        bridge::readable_signal(
            run(state, events).readable(conn_id, stream_id),
            conn_id,
            stream_id,
        ) == Some(signal),
{
    lemma_slot_kept(state, events, conn_id);
    law_nothing_is_taken_back(state, events);
    let slot = state.slot_of(conn_id)->0;
    assert(state.conn_states.contains_key(conn_id));
    assert(state.conns[slot as int].readable.contains_key(stream_id));
    assert(conn_kept(state.conns[slot as int], run(state, events).conns[slot as int]));
}

/// Whoever waits for a stream to become writable waits for the very signal that later events of
/// the stream give.
pub proof fn law_writable_waiter_is_signalled(
    state: BridgeView,
    conn_id: u64,
    stream_id: u64,
    signal: SignalRef,
    events: Seq<BridgeEvent>,
)
    requires
        sound(state),
        room(state, events.len()),
        keeps_id(events, conn_id),
        bridge::writable_signal(state, conn_id, stream_id) == Some(signal),
    ensures
        bridge::writable_signal(run(state, events), conn_id, stream_id) == Some(signal),
        bridge::writable_signal(
            run(state, events).writable(conn_id, stream_id),
            conn_id,
            stream_id,
        ) == Some(signal),
{
    lemma_slot_kept(state, events, conn_id);
    law_nothing_is_taken_back(state, events);
    let slot = state.slot_of(conn_id)->0;
    assert(state.conn_states.contains_key(conn_id));
    assert(state.conns[slot as int].writable.contains_key(stream_id));
    assert(conn_kept(state.conns[slot as int], run(state, events).conns[slot as int]));
}

/// No signal serves two purposes: two streams, or the two kinds of wait on one stream, or two
/// connections, never share one.
pub proof fn law_signals_are_distinct(
    state: BridgeView,
    conn_a: u64,
    stream_a: u64,
    conn_b: u64,
    stream_b: u64,
)
    requires
        sound(state),
    ensures
        (conn_a != conn_b || stream_a != stream_b) && bridge::readable_signal(
            state,
            conn_a,
            stream_a,
        ) is Some ==> bridge::readable_signal(state, conn_a, stream_a) != bridge::readable_signal(
            state,
            conn_b,
            stream_b,
        ),
        (conn_a != conn_b || stream_a != stream_b) && bridge::writable_signal(
            state,
            conn_a,
            stream_a,
        ) is Some ==> bridge::writable_signal(state, conn_a, stream_a) != bridge::writable_signal(
            state,
            conn_b,
            stream_b,
        ),
        bridge::readable_signal(state, conn_a, stream_a) is Some ==> bridge::readable_signal(
            state,
            conn_a,
            stream_a,
        ) != bridge::writable_signal(state, conn_b, stream_b),
{
    if state.conn_states.contains_key(conn_a) && state.conn_states.contains_key(conn_b) {
        let a = state.conns[state.conn_states[conn_a] as int];
        let b = state.conns[state.conn_states[conn_b] as int];
        assert(a.wf() && b.wf());
        assert(a.readable.contains_key(stream_a) || !a.readable.contains_key(stream_a));
        assert(a.writable.contains_key(stream_a) || !a.writable.contains_key(stream_a));
        assert(b.readable.contains_key(stream_b) || !b.readable.contains_key(stream_b));
        assert(b.writable.contains_key(stream_b) || !b.writable.contains_key(stream_b));
    }
}

/// Of the two sides of a connection, exactly one sees a stream as opened by its peer, and there
/// the stream goes to those who accept streams of its direction.
pub proof fn law_one_side_accepts_each_stream(
    client: BridgeView,
    client_conn: u64,
    server: BridgeView,
    server_conn: u64,
    stream_id: u64,
)
    requires
        client.conn(client_conn) matches Some(c) && !c.is_server,
        server.conn(server_conn) matches Some(c) && c.is_server,
    ensures
        types::peer_initiated(stream_id, Side::Client) <==> !types::peer_initiated(
            stream_id,
            Side::Server,
        ),
        bridge::arrival(client, client_conn, stream_id) is Some <==> bridge::arrival(
            server,
            server_conn,
            stream_id,
        ) is None,
        bridge::arrival(client, client_conn, stream_id) matches Some(a) ==> a.stream_id == stream_id
            && a.dir == types::stream_dir(stream_id),
        bridge::arrival(server, server_conn, stream_id) matches Some(a) ==> a.stream_id == stream_id
            && a.dir == types::stream_dir(stream_id),
{
}

/// Once the close of an endpoint has been processed, the endpoint is closed, whatever else
/// happens.
pub proof fn law_closed_endpoint_stays_closed(state: BridgeView, events: Seq<BridgeEvent>)
    requires
        sound(state),
        room(state, events.len() + 1),
    ensures
        run(apply(state, BridgeEvent::EndpointClosed), events).endpoint_closed,
{
    lemma_step_sound(state, BridgeEvent::EndpointClosed, events.len());
    law_nothing_is_taken_back(apply(state, BridgeEvent::EndpointClosed), events);
}

// ---------------------------------------------------------------------------
// From commands to the engine
// ---------------------------------------------------------------------------

/// The bytes that a stream is given to write are the bytes that the engine is given, on the same
/// stream and with the same end.
pub proof fn law_written_bytes_reach_the_engine(
    stream: SendStreamView,
    bytes: Seq<u8>,
    fin: bool,
    cmd: BridgeCommand,
    call: EngineCall,
    worker: BridgeWorker,
    state: BridgeView,
)
    requires
        send_stream::is_write(cmd, stream, bytes, fin),
        command::is_call_for(call, cmd, worker, state),
    ensures
        call matches EngineCall::StreamWrite { conn_id, stream_id, data, fin: end } && conn_id
            == stream.conn_id && stream_id == stream.stream_id && buffer::contents(data) == bytes
            && end == fin,
{
}

/// The answer to a read never brings more bytes than were asked for, and they are the bytes that
/// the engine put at the start of the buffer.
pub proof fn law_read_fits_the_buffer(
    max_len: usize,
    filled: Seq<u8>,
    outcome: Option<Result<(usize, bool), EngineError>>,
    reply: Result<(Vec<u8>, bool), ReadError>,
)
    requires
        filled.len() == max_len,
        command::is_read_reply(reply, filled, outcome),
    ensures
        recv_stream::read_bytes(Some(reply)).len() <= max_len,
        recv_stream::read_bytes(Some(reply)).is_prefix_of(filled),
        match outcome {
            Some(Ok((n, fin))) => {
                &&& n <= max_len ==> recv_stream::read_bytes(Some(reply)) == filled.take(n as int)
                &&& recv_stream::read_fin(Some(reply)) == fin
            },
            _ => recv_stream::read_bytes(Some(reply)).len() == 0,
        },
{
}

/// The close of a connection that the engine carries out is the one that was asked for; who
/// receives it sees an application's close with the very same code and reason, and who has asked
/// for it sees that the connection was closed locally.
pub proof fn law_close_keeps_code_and_reason(
    conn: u64,
    code: u64,
    reason: Vec<u8>,
    call: EngineCall,
    worker: BridgeWorker,
    state: BridgeView,
    received: EngineClose,
)
    requires
        command::is_call_for(
            call,
            BridgeCommand::CloseConnection { conn_id: conn, error_code: code, reason },
            worker,
            state,
        ),
        call matches EngineCall::CloseConnection { conn_id: _, app, error_code, reason: why }
            && received.is_app == app && received.error_code == error_code && received.reason@
            == why@,
    ensures
        call matches EngineCall::CloseConnection { conn_id, .. } && conn_id == conn,
        error::close_error(received) == (ConnectionErrorView::ApplicationClosed {
            error_code: code,
            reason: reason@,
        }),
        error::local_close_error(received) == ConnectionErrorView::LocallyClosed,
{
}

/// The code that a stream is reset or stopped with is the code that the other side sees: the engine
/// is given it on that stream, and where the other side's engine reports it, the read or the write
/// there fails with it.
pub proof fn law_stream_codes_reach_the_peer(
    conn: u64,
    stream: u64,
    code: u64,
    reset: EngineCall,
    stop: EngineCall,
    worker: BridgeWorker,
    state: BridgeView,
)
    requires
        code <= VARINT_MAX,
        command::is_call_for(
            reset,
            (BridgeCommand::StreamShutdownWrite {
                conn_id: conn,
                stream_id: stream,
                error_code: code,
            }),
            worker,
            state,
        ),
        command::is_call_for(
            stop,
            (BridgeCommand::StreamShutdownRead {
                conn_id: conn,
                stream_id: stream,
                error_code: code,
            }),
            worker,
            state,
        ),
    ensures
        reset matches EngineCall::StreamShutdown { conn_id, stream_id, side, error_code } && conn_id
            == conn && stream_id == stream && side is Write && command::read_failure(
            EngineErrorKind::StreamReset(error_code),
        ) == recv_stream::ReadErrorView::Reset(code),
        stop matches EngineCall::StreamShutdown { conn_id, stream_id, side, error_code } && conn_id
            == conn && stream_id == stream && side is Read && command::write_failure(
            EngineErrorKind::StreamStopped(error_code),
        ) == send_stream::WriteErrorView::Stopped(code),
{
}

/// A refused connection is closed by the transport with the code of a refusal; who receives the
/// close sees just that, and who has refused sees that the connection was closed locally.
pub proof fn law_refusal_is_seen_as_a_refusal(
    conn: u64,
    call: EngineCall,
    worker: BridgeWorker,
    state: BridgeView,
    received: EngineClose,
)
    requires
        command::is_call_for(
            call,
            BridgeCommand::RefuseIncoming { conn_id: conn },
            worker,
            state,
        ),
        call matches EngineCall::CloseConnection { conn_id: _, app, error_code, reason: why }
            && received.is_app == app && received.error_code == error_code && received.reason@
            == why@,
    ensures
        call matches EngineCall::CloseConnection { conn_id, .. } && conn_id == conn,
        error::close_error(received) == (ConnectionErrorView::ConnectionClosed {
            error_code: command::REFUSED_CODE,
            reason: command::REFUSED_REASON@,
        }),
        error::local_close_error(received) == ConnectionErrorView::LocallyClosed,
{
}

/// The close of an endpoint closes each of its connections exactly once, each with the code and
/// the reason that were asked for.
pub proof fn law_endpoint_close_closes_every_connection(
    code: u64,
    reason: Vec<u8>,
    conn: u64,
    call: EngineCall,
    worker: BridgeWorker,
    state: BridgeView,
)
    requires
        command::is_call_for(
            call,
            BridgeCommand::CloseEndpoint { error_code: code, reason },
            worker,
            state,
        ),
    ensures
        call matches EngineCall::CloseEndpoint { conn_ids, app, error_code, reason: why, .. }
            && conn_ids@.to_multiset().count(conn) == (if state.slot_of(conn) is Some {
            1nat
        } else {
            0nat
        }) && app && error_code == code && why == reason,
{
    broadcast use vstd::seq_lib::group_to_multiset_ensures;

    let ids = call->CloseEndpoint_conn_ids@;
    ids.lemma_multiset_has_no_duplicates();
    assert(ids.contains(conn) <==> state.conn_states.contains_key(conn));
    assert(ids.contains(conn) <==> ids.to_multiset().contains(conn));
}

/// A connection that brings no configuration of its own is started with the one that was last set
/// as the default; one that brings its own is started with that.
pub proof fn law_connections_use_the_right_config(
    worker: BridgeWorker,
    default: ClientConfig,
    own: ClientConfig,
    addr: SocketAddr,
    server_name: String,
    call: EngineCall,
    call_own: EngineCall,
    state: BridgeView,
)
    requires
        command::is_call_for(
            call,
            BridgeCommand::Connect { addr, server_name, client_config: None },
            (BridgeWorker { current_client_config: Some(default), ..worker }),
            state,
        ),
        command::is_call_for(
            call_own,
            BridgeCommand::Connect { addr, server_name, client_config: Some(own) },
            (BridgeWorker { current_client_config: Some(default), ..worker }),
            state,
        ),
    ensures
        call matches EngineCall::Connect { config, .. } && command::is_config_for(
            config,
            worker.endpoint_config,
            Some(default),
        ),
        call_own matches EngineCall::Connect { config, .. } && command::is_config_for(
            config,
            worker.endpoint_config,
            Some(own),
        ),
{
}

/// A server configuration that is set while the endpoint runs asks the engine for the very settings
/// that an endpoint started with it has.
pub proof fn law_server_config_is_replaced(
    bridge: Bridge,
    local_addr: SocketAddr,
    setup: BridgeSetup,
    sc: ServerConfig,
    call: EngineCall,
    worker: BridgeWorker,
    state: BridgeView,
)
    requires
        bridge.server_config == Some(sc),
        worker.endpoint_config == bridge.endpoint_config,
        worker::is_setup_of(setup, bridge, local_addr),
        command::is_call_for(
            call,
            BridgeCommand::SetServerConfig { config: Some(sc) },
            worker,
            state,
        ),
    ensures
        call matches EngineCall::ServeWith { config } && config.quic == setup.engine_config.quic
            && config::is_server_tls(config.tls, sc) && config::is_server_tls(
            setup.engine_config.tls,
            sc,
        ),
{
}

/// Connections with different IDs have different stable identifiers, wherever a `usize` can hold
/// the IDs.
pub proof fn law_stable_ids_are_unique(a: u64, b: u64)
    requires
        a != b,
        a <= usize::MAX,
        b <= usize::MAX,
    ensures
        connection::stable_id_of(a) != connection::stable_id_of(b),
{
}

// ---------------------------------------------------------------------------
// Streams
// ---------------------------------------------------------------------------

/// What can be done with the sending half of a stream.
pub enum SendOp {
    /// A write, or a change of priority, or nothing.
    Use,
    /// A write was polled.
    Polled,
    /// The command of a polled write was answered.
    Answered,
    /// An end: finish, reset, shut down or drop.
    End,
}

/// The stream after an operation.
pub open spec fn after_send_op(stream: SendStreamView, op: SendOp) -> SendStreamView {
    match op {
        SendOp::Use => stream,
        SendOp::Polled => stream.polled(),
        SendOp::Answered => stream.answered(),
        SendOp::End => stream.finish(),
    }
}

/// How many of the operations send a command that ends the stream.
pub open spec fn endings(stream: SendStreamView, ops: Seq<SendOp>) -> nat
    decreases ops.len(),
{
    if ops.len() == 0 {
        0
    } else {
        (if ops[0] is End && !stream.finished {
            1nat
        } else {
            0nat
        }) + endings(after_send_op(stream, ops[0]), ops.drop_first())
    }
}

/// The stream after a series of operations.
pub open spec fn send_run(stream: SendStreamView, ops: Seq<SendOp>) -> SendStreamView
    decreases ops.len(),
{
    if ops.len() == 0 {
        stream
    } else {
        send_run(after_send_op(stream, ops[0]), ops.drop_first())
    }
}

/// Whatever is done with the sending half of a stream, it is ended at most once: exactly once if
/// it was open and any of the operations was an end, and a drop is one. A stream that has been
/// ended stays so.
pub proof fn law_stream_is_ended_once(stream: SendStreamView, ops: Seq<SendOp>)
    ensures
        endings(stream, ops) <= 1,
        stream.finished ==> endings(stream, ops) == 0 && send_run(stream, ops).finished,
        !stream.finished ==> (endings(stream, ops) == 1 <==> exists|i: int|
            0 <= i < ops.len() && (#[trigger] ops[i]) is End),
        !stream.finished ==> (send_run(stream, ops).finished <==> endings(stream, ops) == 1),
    decreases ops.len(),
{
    if ops.len() > 0 {
        let rest = ops.drop_first();
        law_stream_is_ended_once(after_send_op(stream, ops[0]), rest);
        if !stream.finished && !(ops[0] is End) {
            if exists|i: int| 0 <= i < rest.len() && (#[trigger] rest[i]) is End {
                let i = choose|i: int| 0 <= i < rest.len() && (#[trigger] rest[i]) is End;
                assert(ops[i + 1] is End);
            }
            if exists|i: int| 0 <= i < ops.len() && (#[trigger] ops[i]) is End {
                let i = choose|i: int| 0 <= i < ops.len() && (#[trigger] ops[i]) is End;
                assert(rest[i - 1] is End);
            }
        }
    }
}

/// How many of the operations send the command of a polled write.
pub open spec fn write_commands(stream: SendStreamView, ops: Seq<SendOp>) -> nat
    decreases ops.len(),
{
    if ops.len() == 0 {
        0
    } else {
        (if ops[0] is Polled && stream.sends() {
            1nat
        } else {
            0nat
        }) + write_commands(after_send_op(stream, ops[0]), ops.drop_first())
    }
}

/// How many of the operations answer the outstanding command of a polled write.
pub open spec fn write_answers(stream: SendStreamView, ops: Seq<SendOp>) -> nat
    decreases ops.len(),
{
    if ops.len() == 0 {
        0
    } else {
        (if ops[0] is Answered && stream.writing {
            1nat
        } else {
            0nat
        }) + write_answers(after_send_op(stream, ops[0]), ops.drop_first())
    }
}

/// However often a write is polled, its bytes go out once: as many commands are sent as are
/// answered, and one more where an answer is awaited.
pub proof fn law_polled_write_goes_out_once(stream: SendStreamView, ops: Seq<SendOp>)
    ensures
        !stream.writing ==> write_commands(stream, ops) == write_answers(stream, ops) + (
        if send_run(stream, ops).writing {
            1nat
        } else {
            0nat
        }),
        stream.writing ==> write_commands(stream, ops) + 1 == write_answers(stream, ops) + (
        if send_run(stream, ops).writing {
            1nat
        } else {
            0nat
        }),
    decreases ops.len(),
{
    if ops.len() > 0 {
        law_polled_write_goes_out_once(after_send_op(stream, ops[0]), ops.drop_first());
    }
}

/// The state of a write of a whole buffer after writes that took so many bytes each.
pub open spec fn write_all_run(state: WriteAllView, counts: Seq<nat>) -> WriteAllView
    decreases counts.len(),
{
    if counts.len() == 0 {
        state
    } else {
        write_all_run(state.wrote(counts[0]), counts.drop_first())
    }
}

/// The bytes that the engine took in those writes, each of which handed it the rest of the buffer:
/// the first of the rest, as many as the write says, or all of it where there are no more.
pub open spec fn taken(buf: Seq<u8>, state: WriteAllView, counts: Seq<nat>) -> Seq<u8>
    decreases counts.len(),
{
    if counts.len() == 0 {
        Seq::empty()
    } else {
        let rest = buf.skip(state.offset as int);
        (if counts[0] <= rest.len() {
            rest.take(counts[0] as int)
        } else {
            rest
        }) + taken(buf, state.wrote(counts[0]), counts.drop_first())
    }
}

proof fn lemma_taken(buf: Seq<u8>, state: WriteAllView, counts: Seq<nat>)
    requires
        state.wf(),
        state.len == buf.len(),
    ensures
        write_all_run(state, counts).wf(),
        write_all_run(state, counts).len == state.len,
        state.offset <= write_all_run(state, counts).offset,
        taken(buf, state, counts) == buf.subrange(
            state.offset as int,
            write_all_run(state, counts).offset as int,
        ),
    decreases counts.len(),
{
    if counts.len() > 0 {
        let next = state.wrote(counts[0]);
        lemma_taken(buf, next, counts.drop_first());
        let end = write_all_run(state, counts).offset as int;
        let rest = buf.skip(state.offset as int);
        let first = if counts[0] <= rest.len() {
            rest.take(counts[0] as int)
        } else {
            rest
        };
        assert(first =~= buf.subrange(state.offset as int, next.offset as int));
        assert(buf.subrange(state.offset as int, next.offset as int) + buf.subrange(
            next.offset as int,
            end,
        ) =~= buf.subrange(state.offset as int, end));
    } else {
        assert(buf.subrange(state.offset as int, state.offset as int) =~= Seq::empty());
    }
}

/// The sum of the counts.
pub open spec fn total(counts: Seq<nat>) -> nat
    decreases counts.len(),
{
    if counts.len() == 0 {
        0
    } else {
        counts[0] + total(counts.drop_first())
    }
}

proof fn lemma_write_all_total(state: WriteAllView, counts: Seq<nat>)
    requires
        state.wf(),
    ensures
        ({
            let end = write_all_run(state, counts);
            &&& end.len == state.len
            &&& state.offset + total(counts) <= state.len ==> end.offset == state.offset + total(
                counts,
            )
            &&& state.offset + total(counts) > state.len ==> end.offset == state.len
        }),
    decreases counts.len(),
{
    if counts.len() > 0 {
        lemma_write_all_total(state.wrote(counts[0]), counts.drop_first());
    }
}

/// A write of a whole buffer moves on by just as many bytes as its writes took, whatever their
/// sizes: where they took no more than the buffer has, it stands at their sum, and it is over
/// exactly if they took the whole buffer.
pub proof fn law_write_all_moves_on_by_what_was_taken(len: nat, counts: Seq<nat>)
    ensures
        ({
            let end = write_all_run(WriteAllView { len, offset: 0 }, counts);
            &&& end.len == len
            &&& total(counts) <= len ==> end.offset == total(counts)
            &&& total(counts) <= len ==> (end.offset == end.len <==> total(counts) == len)
            &&& end.offset <= total(counts)
        }),
{
    lemma_write_all_total(WriteAllView { len, offset: 0 }, counts);
}

/// A write of a whole buffer hands the engine the bytes of the buffer in order, none of them twice
/// and none left out: what the engine has taken is always the start of the buffer, and it is the
/// whole buffer once there is no rest.
pub proof fn law_write_all_delivers_the_buffer(buf: Seq<u8>, counts: Seq<nat>)
    ensures
        ({
            let start = WriteAllView { len: buf.len(), offset: 0 };
            let end = write_all_run(start, counts);
            &&& taken(buf, start, counts) == buf.take(end.offset as int)
            &&& end.offset == end.len ==> taken(buf, start, counts) == buf
        }),
{
    let start = WriteAllView { len: buf.len(), offset: 0 };
    lemma_taken(buf, start, counts);
    let end = write_all_run(start, counts);
    assert(buf.subrange(0, end.offset as int) =~= buf.take(end.offset as int));
    if end.offset == end.len {
        assert(buf.take(end.offset as int) =~= buf);
    }
}

/// A write that is over with success has moved at least one byte, and so has a read into a buffer
/// that is not empty.
pub proof fn law_success_moves_bytes(
    written: Option<Result<usize, WriteError>>,
    stream: RecvStreamView,
    read: ReadAnswer,
    room: usize,
    n: usize,
)
    requires
        room > 0,
    ensures
        send_stream::write_step(written) == send_stream::WriteStep::Done(Ok(n)) ==> n > 0,
        stream.step(read, room as nat) == recv_stream::ReadStep::Done(Ok(Some(n))) ==> n > 0 && n
            == stream.handed(read, room as nat).len(),
        stream.start(room) == recv_stream::ReadStart::Done(Some(n)) ==> n > 0 && n == stream.given(
            room as nat,
        ).len(),
{
}

proof fn lemma_write_all_advances(state: WriteAllView, counts: Seq<nat>)
    requires
        state.wf(),
        forall|i: int| 0 <= i < counts.len() ==> #[trigger] counts[i] > 0,
    ensures
        ({
            let end = write_all_run(state, counts);
            end.offset == end.len || end.offset >= state.offset + counts.len()
        }),
        write_all_run(state, counts).len == state.len,
        write_all_run(state, counts).offset <= state.len,
    decreases counts.len(),
{
    if counts.len() > 0 {
        let rest = counts.drop_first();
        assert(counts[0] > 0);
        assert forall|i: int| 0 <= i < rest.len() implies #[trigger] rest[i] > 0 by {
            assert(rest[i] == counts[i + 1]);
        }
        lemma_write_all_advances(state.wrote(counts[0]), rest);
    }
}

/// A write of a whole buffer is over after at most as many successful writes as the buffer has
/// bytes.
pub proof fn law_write_all_comes_to_an_end(len: nat, counts: Seq<nat>)
    requires
        counts.len() >= len,
        forall|i: int| 0 <= i < counts.len() ==> #[trigger] counts[i] > 0,
    ensures
        write_all_run(WriteAllView { len, offset: 0 }, counts).offset == len,
{
    lemma_write_all_advances(WriteAllView { len, offset: 0 }, counts);
}

/// The state of a read of exactly a buffer after reads that brought these bytes.
pub open spec fn read_exact_run(state: ReadExactView, chunks: Seq<Seq<u8>>) -> ReadExactView
    decreases chunks.len(),
{
    if chunks.len() == 0 {
        state
    } else {
        read_exact_run(state.filled(chunks[0].len()), chunks.drop_first())
    }
}

/// The buffer after those reads, each of which went into the rest of the buffer.
pub open spec fn filled(buf: Seq<u8>, offset: nat, chunks: Seq<Seq<u8>>) -> Seq<u8>
    decreases chunks.len(),
{
    if chunks.len() == 0 {
        buf
    } else {
        filled(
            buf.take(offset as int) + recv_stream::overwritten(buf.skip(offset as int), chunks[0]),
            offset + chunks[0].len(),
            chunks.drop_first(),
        )
    }
}

proof fn lemma_filled(buf: Seq<u8>, state: ReadExactView, chunks: Seq<Seq<u8>>)
    requires
        state.len == buf.len(),
        state.offset + chunks.flatten().len() <= buf.len(),
    ensures
        read_exact_run(state, chunks).offset == state.offset + chunks.flatten().len(),
        read_exact_run(state, chunks).len == state.len,
        filled(buf, state.offset, chunks) == buf.take(state.offset as int) + chunks.flatten()
            + buf.skip((state.offset + chunks.flatten().len()) as int),
    decreases chunks.len(),
{
    if chunks.len() > 0 {
        let rest = chunks.drop_first();
        let offset = state.offset as int;
        let total = chunks.flatten();
        assert(total == chunks[0] + rest.flatten());
        let next_buf = buf.take(offset) + recv_stream::overwritten(buf.skip(offset), chunks[0]);
        let next = state.filled(chunks[0].len());
        assert(next_buf.len() == buf.len());
        lemma_filled(next_buf, next, rest);
        assert(next_buf.take(next.offset as int) =~= buf.take(offset) + chunks[0]);
        assert(next_buf.skip((next.offset + rest.flatten().len()) as int) =~= buf.skip(
            (state.offset + total.len()) as int,
        ));
        assert(buf.take(offset) + chunks[0] + rest.flatten() + buf.skip(
            (state.offset + total.len()) as int,
        ) =~= buf.take(offset) + total + buf.skip((state.offset + total.len()) as int));
    } else {
        assert(chunks.flatten() =~= Seq::empty());
        assert(buf =~= buf.take(state.offset as int) + chunks.flatten() + buf.skip(
            state.offset as int,
        ));
    }
}

/// A read of exactly a buffer puts the bytes that came, in the order in which they came, at the
/// start of the buffer, leaves the rest of it alone, and is complete exactly when the buffer is
/// full.
pub proof fn law_read_exact_fills_the_buffer(buf: Seq<u8>, chunks: Seq<Seq<u8>>)
    requires
        chunks.flatten().len() <= buf.len(),
    ensures
        ({
            let end = read_exact_run(ReadExactView { len: buf.len(), offset: 0 }, chunks);
            &&& filled(buf, 0, chunks) == recv_stream::overwritten(buf, chunks.flatten())
            &&& end.len == buf.len()
            &&& end.offset == chunks.flatten().len()
            &&& end.offset == end.len ==> filled(buf, 0, chunks) == chunks.flatten()
        }),
{
    let start = ReadExactView { len: buf.len(), offset: 0 };
    lemma_filled(buf, start, chunks);
    let total = chunks.flatten();
    assert(buf.take(0) + total + buf.skip((0 + total.len()) as int) =~= recv_stream::overwritten(
        buf,
        total,
    ));
    if total.len() == buf.len() {
        assert(recv_stream::overwritten(buf, total) =~= total);
    }
}

/// What a read to the end of a stream yields once reads have brought these bytes and then the end
/// of the stream: all the data, or `None` where it is too long.
pub open spec fn read_to_end_run(state: ReadToEndView, chunks: Seq<Seq<u8>>) -> Option<Seq<u8>>
    decreases chunks.len(),
{
    if chunks.len() == 0 {
        Some(state.data)
    } else {
        let next = state.grown(chunks[0]);
        if next.data.len() > next.size_limit {
            None
        } else {
            read_to_end_run(next, chunks.drop_first())
        }
    }
}

proof fn lemma_read_to_end(state: ReadToEndView, chunks: Seq<Seq<u8>>)
    requires
        state.data.len() <= state.size_limit,
    ensures
        read_to_end_run(state, chunks) == (if state.data.len() + chunks.flatten().len()
            <= state.size_limit {
            Some(state.data + chunks.flatten())
        } else {
            None
        }),
    decreases chunks.len(),
{
    if chunks.len() > 0 {
        let rest = chunks.drop_first();
        let next = state.grown(chunks[0]);
        assert(chunks.flatten() == chunks[0] + rest.flatten());
        assert(next.data + rest.flatten() =~= state.data + chunks.flatten());
        if next.data.len() <= next.size_limit {
            lemma_read_to_end(next, rest);
        }
    } else {
        assert(chunks.flatten() =~= Seq::empty());
        assert(state.data + chunks.flatten() =~= state.data);
    }
}

/// A read to the end of a stream yields all the bytes that came, in order, if there are no more of
/// them than the limit, and is refused as too long if there are.
pub proof fn law_read_to_end_yields_everything(size_limit: nat, chunks: Seq<Seq<u8>>)
    ensures
        read_to_end_run(ReadToEndView { data: Seq::empty(), size_limit }, chunks) == (
        if chunks.flatten().len() <= size_limit {
            Some(chunks.flatten())
        } else {
            None
        }),
{
    lemma_read_to_end(ReadToEndView { data: Seq::empty(), size_limit }, chunks);
    assert(Seq::<u8>::empty() + chunks.flatten() =~= chunks.flatten());
}

/// What is written is read: where one side has written a whole buffer, and the engine brings the
/// other side the bytes that it took in the order in which it took them, cut up as it may be, a
/// read to the end of the stream yields the very buffer.
pub proof fn law_what_is_written_is_read(
    buf: Seq<u8>,
    counts: Seq<nat>,
    chunks: Seq<Seq<u8>>,
    size_limit: nat,
)
    requires
        write_all_run(WriteAllView { len: buf.len(), offset: 0 }, counts).offset == buf.len(),
        chunks.flatten() == taken(buf, WriteAllView { len: buf.len(), offset: 0 }, counts),
        buf.len() <= size_limit,
    ensures
        read_to_end_run(ReadToEndView { data: Seq::empty(), size_limit }, chunks) == Some(buf),
{
    law_write_all_delivers_the_buffer(buf, counts);
    lemma_taken(buf, WriteAllView { len: buf.len(), offset: 0 }, counts);
    law_read_to_end_yields_everything(size_limit, chunks);
}

/// What can be done with the receiving half of a stream.
pub enum RecvOp {
    /// A read into a buffer of the length was started, or polled.
    Read { room: nat },
    /// The read command was answered, and the bytes went into a buffer of the length.
    Answered { answer: ReadAnswer, room: nat },
    /// A stop, or a drop.
    Stop,
}

/// The stream after an operation.
pub open spec fn after_recv_op(stream: RecvStreamView, op: RecvOp) -> RecvStreamView {
    match op {
        RecvOp::Read { room } => stream.started(room),
        RecvOp::Answered { answer, room } => stream.answered(answer, room),
        RecvOp::Stop => stream.stopped(),
    }
}

/// The stream after a series of operations.
pub open spec fn recv_run(stream: RecvStreamView, ops: Seq<RecvOp>) -> RecvStreamView
    decreases ops.len(),
{
    if ops.len() == 0 {
        stream
    } else {
        recv_run(after_recv_op(stream, ops[0]), ops.drop_first())
    }
}

/// How many of the operations send a command that stops the stream.
pub open spec fn stops(stream: RecvStreamView, ops: Seq<RecvOp>) -> nat
    decreases ops.len(),
{
    if ops.len() == 0 {
        0
    } else {
        (if ops[0] is Stop && stream.stop_command(0) is Ok {
            1nat
        } else {
            0nat
        }) + stops(after_recv_op(stream, ops[0]), ops.drop_first())
    }
}

/// How many of the operations send a read command.
pub open spec fn read_commands(stream: RecvStreamView, ops: Seq<RecvOp>) -> nat
    decreases ops.len(),
{
    if ops.len() == 0 {
        0
    } else {
        (if ops[0] is Read && stream.asks() {
            1nat
        } else {
            0nat
        }) + read_commands(after_recv_op(stream, ops[0]), ops.drop_first())
    }
}

/// How many of the operations answer the outstanding read command, or give its answer up.
pub open spec fn read_answers(stream: RecvStreamView, ops: Seq<RecvOp>) -> nat
    decreases ops.len(),
{
    if ops.len() == 0 {
        0
    } else {
        (if stream.reading && !after_recv_op(stream, ops[0]).reading {
            1nat
        } else {
            0nat
        }) + read_answers(after_recv_op(stream, ops[0]), ops.drop_first())
    }
}

/// Whatever is done with the receiving half of a stream, it is stopped at most once, and not at
/// all once its end has been read. A stream that has been read to its end, or stopped, is asked
/// for nothing more.
pub proof fn law_stream_is_stopped_once(stream: RecvStreamView, ops: Seq<RecvOp>)
    ensures
        stops(stream, ops) <= 1,
        stream.all_data_read ==> stops(stream, ops) == 0 && read_commands(stream, ops) == 0,
        stream.all_data_read ==> recv_run(stream, ops).all_data_read,
        stream.stopped().all_data_read,
    decreases ops.len(),
{
    if ops.len() > 0 {
        law_stream_is_stopped_once(after_recv_op(stream, ops[0]), ops.drop_first());
    }
}

/// However often a read is polled, the engine is asked once: as many read commands are sent as are
/// answered or given up, and one more where an answer is awaited.
pub proof fn law_polled_read_asks_once(stream: RecvStreamView, ops: Seq<RecvOp>)
    ensures
        !stream.reading ==> read_commands(stream, ops) == read_answers(stream, ops) + (if recv_run(
            stream,
            ops,
        ).reading {
            1nat
        } else {
            0nat
        }),
        stream.reading ==> read_commands(stream, ops) + 1 == read_answers(stream, ops) + (
        if recv_run(stream, ops).reading {
            1nat
        } else {
            0nat
        }),
    decreases ops.len(),
{
    if ops.len() > 0 {
        law_polled_read_asks_once(after_recv_op(stream, ops[0]), ops.drop_first());
    }
}

/// The bytes that the answers have brought, in order.
pub open spec fn bytes_brought(ops: Seq<RecvOp>) -> Seq<u8>
    decreases ops.len(),
{
    if ops.len() == 0 {
        Seq::empty()
    } else {
        (match ops[0] {
            RecvOp::Answered { answer, .. } => recv_stream::read_bytes(answer),
            _ => Seq::empty(),
        }) + bytes_brought(ops.drop_first())
    }
}

/// The bytes that the reads have handed out, in order.
pub open spec fn bytes_read(stream: RecvStreamView, ops: Seq<RecvOp>) -> Seq<u8>
    decreases ops.len(),
{
    if ops.len() == 0 {
        Seq::empty()
    } else {
        (match ops[0] {
            RecvOp::Read { room } => stream.given(room),
            RecvOp::Answered { answer, room } => stream.handed(answer, room),
            RecvOp::Stop => Seq::empty(),
        }) + bytes_read(after_recv_op(stream, ops[0]), ops.drop_first())
    }
}

/// Reads lose no byte, repeat none and keep their order, whatever the buffers hold: until the
/// stream is stopped, the bytes that were kept, and then those that came, are those that were
/// handed out, and then those that are kept.
pub proof fn law_reads_lose_nothing(stream: RecvStreamView, ops: Seq<RecvOp>)
    requires
        forall|i: int| 0 <= i < ops.len() ==> !((#[trigger] ops[i]) is Stop),
    ensures
        stream.kept + bytes_brought(ops) == bytes_read(stream, ops) + recv_run(stream, ops).kept,
    decreases ops.len(),
{
    if ops.len() > 0 {
        let next = after_recv_op(stream, ops[0]);
        let rest = ops.drop_first();
        assert(!(ops[0] is Stop));
        assert forall|i: int| 0 <= i < rest.len() implies !((#[trigger] rest[i]) is Stop) by {
            assert(rest[i] == ops[i + 1]);
        }
        law_reads_lose_nothing(next, rest);
        let brought = bytes_brought(rest);
        let read = bytes_read(next, rest);
        let left = recv_run(stream, ops).kept;
        assert(next.kept + brought == read + left);
        let first = match ops[0] {
            RecvOp::Read { room } => stream.given(room),
            RecvOp::Answered { answer, room } => stream.handed(answer, room),
            RecvOp::Stop => Seq::empty(),
        };
        let came = match ops[0] {
            RecvOp::Answered { answer, .. } => recv_stream::read_bytes(answer),
            _ => Seq::empty(),
        };
        assert(stream.kept + came =~= first + next.kept);
        assert(stream.kept + (came + brought) =~= (stream.kept + came) + brought);
        assert((first + next.kept) + brought =~= first + (next.kept + brought));
        assert(first + (read + left) =~= (first + read) + left);
    } else {
        assert(stream.kept + Seq::<u8>::empty() =~= Seq::<u8>::empty() + stream.kept);
    }
}

/// The operation ends the stream: it is a stop, or an answer that says that the stream ends with it.
pub open spec fn is_end(op: RecvOp) -> bool {
    match op {
        RecvOp::Stop => true,
        RecvOp::Answered { answer: Some(Ok((_, fin))), .. } => fin,
        _ => false,
    }
}

/// A stream that has not ended ends exactly with a stop or with an answer that says so, whatever the
/// answers bring and however large they are: after any operations, it has ended if and only if one
/// of them was such. While none was, a read with nothing kept and no answer awaited asks the engine.
pub proof fn law_stream_ends_with_its_end(stream: RecvStreamView, ops: Seq<RecvOp>, room: usize)
    requires
        !stream.all_data_read,
    ensures
        recv_run(stream, ops).all_data_read <==> exists|i: int|
            0 <= i < ops.len() && is_end(#[trigger] ops[i]),
        (forall|i: int| 0 <= i < ops.len() ==> !is_end(#[trigger] ops[i])) && recv_run(
            stream,
            ops,
        ).kept.len() == 0 && !recv_run(stream, ops).reading ==> (recv_run(stream, ops).start(
            room,
        ) matches recv_stream::ReadStart::Send(
            BridgeCommand::StreamRead { conn_id, stream_id, max_len },
        ) && conn_id == stream.conn_id && stream_id == stream.stream_id && max_len == room),
        recv_run(stream, ops).conn_id == stream.conn_id,
        recv_run(stream, ops).stream_id == stream.stream_id,
    decreases ops.len(),
{
    if ops.len() > 0 {
        let next = after_recv_op(stream, ops[0]);
        let rest = ops.drop_first();
        assert(next.all_data_read <==> is_end(ops[0]));
        if next.all_data_read {
            law_stream_is_stopped_once(next, rest);
            lemma_same_stream(next, rest);
        } else {
            law_stream_ends_with_its_end(next, rest, room);
            assert forall|i: int| 0 <= i < rest.len() implies #[trigger] rest[i] == ops[i + 1] by {}
            if exists|i: int| 0 <= i < rest.len() && is_end(#[trigger] rest[i]) {
                let i = choose|i: int| 0 <= i < rest.len() && is_end(#[trigger] rest[i]);
                assert(is_end(ops[i + 1]));
            }
            if exists|i: int| 0 <= i < ops.len() && is_end(#[trigger] ops[i]) {
                let i = choose|i: int| 0 <= i < ops.len() && is_end(#[trigger] ops[i]);
                assert(is_end(rest[i - 1]));
            }
        }
    }
}

proof fn lemma_same_stream(stream: RecvStreamView, ops: Seq<RecvOp>)
    ensures
        recv_run(stream, ops).conn_id == stream.conn_id,
        recv_run(stream, ops).stream_id == stream.stream_id,
    decreases ops.len(),
{
    if ops.len() > 0 {
        lemma_same_stream(after_recv_op(stream, ops[0]), ops.drop_first());
    }
}

/// The end of a stream is seen in the answer that brings it: the read that it answers is over, it
/// yields the bytes before the end if there are any, and the engine is not asked again.
pub proof fn law_end_of_stream_is_seen(stream: RecvStreamView, answer: ReadAnswer, room: nat)
    requires
        recv_stream::read_fin(answer),
    ensures
        stream.step(answer, room) is Done,
        (stream.kept + recv_stream::read_bytes(answer)).len() == 0 ==> stream.step(answer, room)
            == recv_stream::ReadStep::Done(Ok(None)),
        !stream.answered(answer, room).asks(),
{
}

// ---------------------------------------------------------------------------
// Packets
// ---------------------------------------------------------------------------

/// How many of the outcomes come before the first that is not a success.
pub open spec fn leading(sent: Seq<bool>) -> nat
    decreases sent.len(),
{
    if sent.len() == 0 || !sent[0] {
        0
    } else {
        1 + leading(sent.drop_first())
    }
}

/// The batch after packets that were sent, or for which there was no room, as the flags say; what
/// comes after the batch is over changes nothing.
pub open spec fn batch_run(batch: PacketSenderView, sent: Seq<bool>) -> PacketSenderView
    decreases sent.len(),
{
    if sent.len() == 0 || !batch.busy() {
        batch
    } else {
        batch_run(
            if sent[0] {
                batch.sent()
            } else {
                batch.blocked()
            },
            sent.drop_first(),
        )
    }
}

proof fn lemma_batch(batch: PacketSenderView, sent: Seq<bool>)
    requires
        !batch.blocked,
        batch.count + sent.len() == batch.packets,
    ensures
        batch_run(batch, sent).count == batch.count + leading(sent),
        batch_run(batch, sent).count <= batch.packets,
        !batch_run(batch, sent).busy(),
    decreases sent.len(),
{
    if sent.len() > 0 {
        if sent[0] {
            lemma_batch(batch.sent(), sent.drop_first());
        } else {
            assert(batch_run(batch.blocked(), sent.drop_first()) == batch.blocked());
        }
    }
}

/// A batch of packets goes out in order up to the first packet that the socket has no room for,
/// and exactly those packets are counted as sent.
pub proof fn law_batch_sends_a_prefix(sent: Seq<bool>)
    ensures
        ({
            let end = batch_run(
                PacketSenderView { packets: sent.len(), count: 0, blocked: false },
                sent,
            );
            &&& end.count == leading(sent)
            &&& end.count <= sent.len()
            &&& !end.busy()
        }),
{
    lemma_batch(PacketSenderView { packets: sent.len(), count: 0, blocked: false }, sent);
}

} // verus!
