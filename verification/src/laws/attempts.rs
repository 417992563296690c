//! What becomes of connection attempts, of incoming connections and of batches of packets, from the
//! arguments and results of the functions that handle them.
use std::sync::Arc;

use vstd::prelude::*;

use crate::addr::SocketAddr;
use crate::bridge::{
    BridgeHandle, BridgeTransportHandler, ClosedActions, ClosedConn, CreatedConn, IncomingData,
};
use crate::command::BridgeCommand;
use crate::config::ServerConfig;
use crate::connection::{ClosedStep, Connecting, ConnectingStep, Connection, ReadDatagram};
use crate::endpoint::{Endpoint, EndpointStats};
use crate::error::{ConnectError, ConnectionError, ConnectionErrorView};
use crate::incoming::{Incoming, IncomingFuture, RetryError};
use crate::types::{Reply, Side};
use crate::worker::{PacketSender, SendFailure, SendOutcome};

verus! {

/// A new endpoint is bound to its address, is open and idle, knows no connection, offers none and has
/// counted nothing.
pub proof fn law_new_endpoint_is_idle(
    bound: SocketAddr,
    handle: BridgeHandle,
    endpoint: Endpoint,
    at: SocketAddr,
    idle: bool,
    open: usize,
    stats: EndpointStats,
    conn: Connection,
    why: Option<ConnectionError>,
    waited: ClosedStep,
    id: u64,
    slot: Option<usize>,
)
    requires
        call_ensures(BridgeHandle::new, (bound,), handle),
        call_ensures(Endpoint::local_addr, (&endpoint, &handle), at),
        call_ensures(Endpoint::wait_idle, (&endpoint, &handle), idle),
        call_ensures(Endpoint::open_connections, (&endpoint, &handle), open),
        call_ensures(Endpoint::stats, (&endpoint, &handle), stats),
        call_ensures(Connection::close_reason, (&conn, &handle), why),
        call_ensures(Connection::closed, (&conn, &handle), waited),
        call_ensures(BridgeHandle::get_conn_notify, (&handle, id), slot),
    ensures
        at == bound,
        idle,
        open == 0,
        stats.accepted_handshakes == 0,
        stats.outgoing_handshakes == 0,
        stats.refused_handshakes == 0,
        stats.ignored_handshakes == 0,
        slot is None,
        why is None,
        waited matches ClosedStep::Ready(e) && e@ == ConnectionErrorView::LocallyClosed,
        !handle@.endpoint_closed,
        handle@.incoming.len() == 0,
{
}

/// The number of open connections goes up by one with each connection that is created and down by
/// one with each that is closed, so that the endpoint is idle again once it is closed.
pub proof fn law_open_connections_go_up_and_down(
    handler: BridgeTransportHandler,
    handle: &mut BridgeHandle,
    created: CreatedConn,
    woken: bool,
    endpoint: Endpoint,
    before: usize,
    between: usize,
    busy: bool,
    later: &mut BridgeHandle,
    closed: ClosedConn,
    actions: ClosedActions,
    after: usize,
)
    requires
        old(handle)@.open_connections < u64::MAX,
        old(handle)@.open_connections < usize::MAX,
        call_ensures(Endpoint::open_connections, (&endpoint, &*old(handle)), before),
        call_ensures(BridgeTransportHandler::on_conn_created, (&handler, handle, created), woken),
        call_ensures(Endpoint::open_connections, (&endpoint, &*final(handle)), between),
        call_ensures(Endpoint::wait_idle, (&endpoint, &*final(handle)), busy),
        *old(later) == *final(handle),
        call_ensures(BridgeTransportHandler::on_conn_closed, (&handler, later, closed), actions),
        call_ensures(Endpoint::open_connections, (&endpoint, &*final(later)), after),
    ensures
        between == before + 1,
        !busy,
        after == before,
        actions.notify_idle <==> before == 0,
{
}

/// An engine's index and address that are missing stand for the ID zero and the address `0.0.0.0:0`.
pub proof fn law_missing_index_is_zero(
    handler: BridgeTransportHandler,
    handle: &mut BridgeHandle,
    is_server: bool,
    woken: bool,
)
    requires
        old(handle)@.wf(),
        old(handle)@.conns.len() < usize::MAX,
        call_ensures(
            BridgeTransportHandler::on_conn_created,
            (&handler, handle, CreatedConn { index: None, remote: None, is_server }),
            woken,
        ),
    ensures
        final(handle)@.conn_states.contains_key(0),
        final(handle)@.conn_states[0] == old(handle)@.conns.len(),
        final(handle)@.conns.last().remote_addr matches SocketAddr::V4 { octets, port } && octets@[0]
            == 0 && octets@[1] == 0 && octets@[2] == 0 && octets@[3] == 0 && port == 0,
        handler.is_server ==> final(handle)@.incoming.last().conn_id == 0,
{
}

/// Each decision on an incoming connection is counted once and under its own name, and changes
/// nothing else.
pub proof fn law_decisions_are_counted(
    incoming: Incoming,
    accepted: &mut BridgeHandle,
    accept_result: Result<(BridgeCommand, Connecting), ConnectionError>,
    config: Arc<ServerConfig>,
    accepted_with: &mut BridgeHandle,
    accept_with_result: Result<(BridgeCommand, Connecting), ConnectionError>,
    refused: &mut BridgeHandle,
    refuse_result: BridgeCommand,
    ignored: &mut BridgeHandle,
    ignore_result: Option<BridgeCommand>,
)
    requires
        *old(accepted_with) == *old(accepted),
        *old(refused) == *old(accepted),
        *old(ignored) == *old(accepted),
        old(accepted)@.stats.accepted_handshakes < u64::MAX,
        old(accepted)@.stats.refused_handshakes < u64::MAX,
        old(accepted)@.stats.ignored_handshakes < u64::MAX,
        call_ensures(Incoming::accept, (incoming, accepted), accept_result),
        call_ensures(
            Incoming::accept_with,
            (incoming, accepted_with, config),
            accept_with_result,
        ),
        call_ensures(Incoming::refuse, (incoming, refused), refuse_result),
        call_ensures(Incoming::ignore, (incoming, ignored), ignore_result),
    ensures
        ({
            let before = old(accepted)@;
            &&& final(accepted)@.stats.accepted_handshakes == before.stats.accepted_handshakes + 1
            &&& final(accepted)@.stats.refused_handshakes == before.stats.refused_handshakes
            &&& final(accepted)@.stats.ignored_handshakes == before.stats.ignored_handshakes
            &&& final(accepted)@.stats.outgoing_handshakes == before.stats.outgoing_handshakes
            &&& final(refused)@.stats.accepted_handshakes == before.stats.accepted_handshakes
            &&& final(refused)@.stats.refused_handshakes == before.stats.refused_handshakes + 1
            &&& final(refused)@.stats.ignored_handshakes == before.stats.ignored_handshakes
            &&& final(refused)@.stats.outgoing_handshakes == before.stats.outgoing_handshakes
            &&& final(ignored)@.stats.accepted_handshakes == before.stats.accepted_handshakes
            &&& final(ignored)@.stats.refused_handshakes == before.stats.refused_handshakes
            &&& final(ignored)@.stats.ignored_handshakes == before.stats.ignored_handshakes + 1
            &&& final(ignored)@.stats.outgoing_handshakes == before.stats.outgoing_handshakes
            &&& final(accepted)@.conns == before.conns
            &&& final(accepted)@.conn_states == before.conn_states
            &&& final(accepted)@.incoming == before.incoming
            &&& final(accepted)@.open_connections == before.open_connections
            &&& final(accepted)@.endpoint_closed == before.endpoint_closed
            &&& final(refused)@.conns == before.conns
            &&& final(refused)@.conn_states == before.conn_states
            &&& final(refused)@.incoming == before.incoming
            &&& final(refused)@.open_connections == before.open_connections
            &&& final(refused)@.endpoint_closed == before.endpoint_closed
            &&& final(ignored)@.conns == before.conns
            &&& final(ignored)@.conn_states == before.conn_states
            &&& final(ignored)@.incoming == before.incoming
            &&& final(ignored)@.open_connections == before.open_connections
            &&& final(ignored)@.endpoint_closed == before.endpoint_closed
        }),
        final(accepted_with)@ == final(accepted)@,
        accept_result is Ok,
        accept_with_result is Ok,
        ignore_result is None,
{
}

/// An incoming connection is what the engine has reported: its address is the peer's, and it is
/// validated if it was so reported. No retry is possible, and to ask for one gives the connection
/// back.
pub proof fn law_incoming_connection_is_the_reported_one(
    data: IncomingData,
    incoming: Incoming,
    at: SocketAddr,
    validated: bool,
    retriable: bool,
    retried: Result<(), RetryError>,
    returned: Incoming,
)
    requires
        call_ensures(Incoming::new, (data,), incoming),
        call_ensures(Incoming::remote_address, (&incoming,), at),
        call_ensures(Incoming::remote_address_validated, (&incoming,), validated),
        call_ensures(Incoming::may_retry, (&incoming,), retriable),
        call_ensures(Incoming::retry, (incoming,), retried),
        retried matches Err(e) ==> call_ensures(RetryError::into_incoming, (e,), returned),
    ensures
        at == data.remote_addr,
        validated == data.validated,
        !retriable,
        retried is Err,
        returned == incoming,
{
}

/// An accepted connection waits for the handshake of the very connection and yields it: while the
/// handshake runs, once it is complete, once it has failed.
pub proof fn law_accepted_connection_is_awaited(
    data: IncomingData,
    incoming: Incoming,
    accepted: &mut BridgeHandle,
    cmd: Option<BridgeCommand>,
    future: &mut IncomingFuture,
    handle: &mut BridgeHandle,
    reply: Reply<Result<u64, ConnectError>>,
    step: ConnectingStep,
)
    requires
        old(handle)@.wf(),
        call_ensures(Incoming::new, (data,), incoming),
        call_ensures(Incoming::into_future, (incoming, accepted), (cmd, *old(future))),
        call_ensures(IncomingFuture::poll, (future, handle, reply), step),
    ensures
        cmd == Some(BridgeCommand::AcceptIncoming),
        old(accepted)@.stats.accepted_handshakes < u64::MAX
            ==> final(accepted)@.stats.accepted_handshakes
            == old(accepted)@.stats.accepted_handshakes + 1,
        ({
            let known = old(handle)@.conn_states.contains_key(data.conn_id);
            let slot = old(handle)@.conn_states[data.conn_id] as usize;
            let conn = old(handle)@.conns[slot as int];
            &&& !known ==> (step matches ConnectingStep::Ready(Err(e)) && e@
                == ConnectionErrorView::LocallyClosed)
            &&& known && conn.established ==> (step matches ConnectingStep::Ready(Ok(c)) && c@
                == data.conn_id)
            &&& known && !conn.established && conn.closed is Some ==> (
            step matches ConnectingStep::Ready(Err(e)) && Some(e@) == conn.closed)
            &&& known && !conn.established && conn.closed is None ==> {
                &&& step == ConnectingStep::AwaitHandshake(slot)
                &&& final(handle)@.conns[slot as int].establish_waker
            }
        }),
{
}

/// The wait for an accepted connection goes on with every poll until it is over: a second poll, once
/// the handshake is complete, yields the connection; and after it is over, there is none to be had.
pub proof fn law_accepted_connection_is_awaited_on(
    future: &mut IncomingFuture,
    handle: &mut BridgeHandle,
    reply: Reply<Result<u64, ConnectError>>,
    slot: usize,
    again: &mut IncomingFuture,
    later: &mut BridgeHandle,
    later_reply: Reply<Result<u64, ConnectError>>,
    id: u64,
    step: ConnectingStep,
    third: &mut IncomingFuture,
    last: &mut BridgeHandle,
    over: ConnectingStep,
)
    requires
        old(future)@.error is None,
        old(future)@.connecting matches Some(attempt) && attempt.conn_id == Some(id),
        call_ensures(
            IncomingFuture::poll,
            (future, handle, reply),
            ConnectingStep::AwaitHandshake(slot),
        ),
        *old(again) == *final(future),
        old(later)@.conn_states.contains_key(id),
        old(later)@.conns[old(later)@.conn_states[id] as usize as int].established,
        call_ensures(IncomingFuture::poll, (again, later, later_reply), step),
        *old(third) == *final(again),
        call_ensures(IncomingFuture::poll, (third, last, later_reply), over),
    ensures
        step matches ConnectingStep::Ready(Ok(c)) && c@ == id,
        over matches ConnectingStep::Ready(Err(e)) && e@ == ConnectionErrorView::LocallyClosed,
{
}

/// Before its connection is known, the address of an attempt is the one that it goes to; once it is
/// known, it is the connection's.
pub proof fn law_attempt_knows_its_address(
    target: SocketAddr,
    attempt: Connecting,
    needs: bool,
    handle: BridgeHandle,
    at: SocketAddr,
    id: u64,
    served: Connecting,
    served_needs: bool,
    served_at: SocketAddr,
)
    requires
        handle@.wf(),
        call_ensures(Connecting::new_client, (target,), attempt),
        call_ensures(Connecting::needs_id, (&attempt,), needs),
        call_ensures(Connecting::remote_address, (&attempt, &handle), at),
        call_ensures(Connecting::new_server, (id, target), served),
        call_ensures(Connecting::needs_id, (&served,), served_needs),
        call_ensures(Connecting::remote_address, (&served, &handle), served_at),
    ensures
        needs,
        at == target,
        !served_needs,
        handle@.conn_states.contains_key(id) ==> served_at
            == handle@.conns[handle@.conn_states[id] as usize as int].remote_addr,
        !handle@.conn_states.contains_key(id) ==> served_at == target,
{
}

/// A connection that nobody knows has no close reason, no address and the client's side; who waits
/// for its close, or for a datagram, is told that it was closed locally.
pub proof fn law_unknown_connection(
    conn: Connection,
    handle: BridgeHandle,
    at: SocketAddr,
    side: Side,
    why: Option<ConnectionError>,
    waited: ClosedStep,
    datagram: ReadDatagram,
    read: Result<usize, ConnectionError>,
)
    requires
        handle@.wf(),
        !handle@.conn_states.contains_key(conn@),
        call_ensures(Connection::closed, (&conn, &handle), waited),
        call_ensures(Connection::read_datagram, (&conn,), datagram),
        call_ensures(ReadDatagram::poll, (&datagram, &handle), read),
        call_ensures(Connection::remote_address, (&conn, &handle), at),
        call_ensures(Connection::side, (&conn, &handle), side),
        call_ensures(Connection::close_reason, (&conn, &handle), why),
    ensures
        at matches SocketAddr::V4 { octets, port } && octets@[0] == 0 && octets@[1] == 0 && octets@[2]
            == 0 && octets@[3] == 0 && port == 0,
        side is Client,
        why is None,
        waited matches ClosedStep::Ready(e) && e@ == ConnectionErrorView::LocallyClosed,
        read matches Err(e) && e@ == ConnectionErrorView::LocallyClosed,
{
}

/// Whoever watches a connection learns of its close with the error of the close, goes on watching
/// where it is not closed, and is told that it was closed locally once the watch has ended.
pub proof fn law_watcher_learns_of_the_close(
    conn: Connection,
    handle: BridgeHandle,
    slot: usize,
    alive: bool,
    later: BridgeHandle,
    step: ClosedStep,
)
    requires
        handle@.wf(),
        call_ensures(Connection::closed, (&conn, &handle), ClosedStep::Watch(slot)),
        call_ensures(Connection::closed_changed, (&later, slot, alive), step),
    ensures
        handle@.conn_states.contains_key(conn@),
        handle@.conn_states[conn@] == slot,
        handle@.conns[slot as int].closed is None,
        alive && later@.conns[slot as int].closed is None ==> step == ClosedStep::Watch(slot),
        alive && later@.conns[slot as int].closed is Some ==> (step matches ClosedStep::Ready(e)
            && Some(e@) == later@.conns[slot as int].closed),
        !alive ==> (step matches ClosedStep::Ready(e) && e@ == ConnectionErrorView::LocallyClosed),
{
}

/// The stable identifier of a connection is its ID wherever the machine can hold it, the same each
/// time, so that different connections have different ones.
pub proof fn law_stable_id_is_the_id(
    a: Connection,
    b: Connection,
    id_a: u64,
    id_b: u64,
    stable_a: usize,
    stable_b: usize,
)
    requires
        call_ensures(Connection::new, (id_a,), a),
        call_ensures(Connection::new, (id_b,), b),
        call_ensures(Connection::stable_id, (&a,), stable_a),
        call_ensures(Connection::stable_id, (&b,), stable_b),
    ensures
        id_a <= usize::MAX ==> stable_a == id_a,
        id_a == id_b ==> stable_a == stable_b,
        id_a <= usize::MAX && id_b <= usize::MAX && id_a != id_b ==> stable_a != stable_b,
{
}

/// Packets are sent one after the other, from the first on: each that was sent is counted, and the
/// next one is the one behind it as long as there is one.
pub proof fn law_packets_are_sent_in_order(
    packets: usize,
    sender: PacketSender,
    first: Option<usize>,
    none: usize,
    batch: &mut PacketSender,
    at: Option<usize>,
    sent: Result<(), SendFailure>,
    next: Option<usize>,
    before: usize,
    count: usize,
)
    requires
        call_ensures(
            PacketSender::on_packets_send,
            (true, packets),
            Ok::<PacketSender, SendFailure>(sender),
        ),
        call_ensures(PacketSender::next, (&sender,), first),
        call_ensures(PacketSender::count, (&sender,), none),
        call_ensures(PacketSender::next, (&*old(batch),), at),
        call_ensures(PacketSender::count, (&*old(batch),), before),
        call_ensures(PacketSender::on_outcome, (batch, SendOutcome::Sent), sent),
        call_ensures(PacketSender::next, (&*final(batch),), next),
        call_ensures(PacketSender::count, (&*final(batch),), count),
    ensures
        none == 0,
        packets > 0 ==> first == Some(0usize),
        packets == 0 ==> first is None,
        sender@.packets == packets,
        at matches Some(i) ==> {
            &&& sent is Ok
            &&& count == before + 1
            &&& i + 1 < old(batch)@.packets ==> (next matches Some(j) && j == i + 1)
            &&& i + 1 == old(batch)@.packets ==> next is None
        },
        final(batch)@.packets == old(batch)@.packets,
{
}

/// A socket without room ends the batch without an error, and a socket that fails ends it with one;
/// neither is counted as a packet that was sent. Without a socket there is no batch.
pub proof fn law_batch_ends_where_the_socket_does(
    packets: usize,
    without: Result<PacketSender, SendFailure>,
    full: &mut PacketSender,
    full_before: usize,
    full_result: Result<(), SendFailure>,
    full_next: Option<usize>,
    full_count: usize,
    failed: &mut PacketSender,
    failed_before: usize,
    why: String,
    failed_result: Result<(), SendFailure>,
    failed_count: usize,
)
    requires
        call_ensures(PacketSender::on_packets_send, (false, packets), without),
        call_ensures(PacketSender::count, (&*old(full),), full_before),
        call_ensures(PacketSender::on_outcome, (full, SendOutcome::WouldBlock), full_result),
        call_ensures(PacketSender::next, (&*final(full),), full_next),
        call_ensures(PacketSender::count, (&*final(full),), full_count),
        call_ensures(PacketSender::count, (&*old(failed),), failed_before),
        call_ensures(PacketSender::on_outcome, (failed, SendOutcome::Failed(why)), failed_result),
        call_ensures(PacketSender::count, (&*final(failed),), failed_count),
    ensures
        without matches Err(SendFailure::NoSocket),
        full_result is Ok,
        full_next is None,
        full_count == full_before,
        failed_result matches Err(SendFailure::Io(message)) && message@ == "send_to: "@ + why@,
        failed_count == failed_before,
{
}

} // verus!
