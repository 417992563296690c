//! What the events of the engine do, from the arguments and results of the functions that take them
//! and of those that look at the endpoint afterwards.
use vstd::prelude::*;

use crate::addr::SocketAddr;
use crate::bridge::{
    AcceptedStream, BridgeHandle, BridgeTransportHandler, BridgeView, ClosedActions, ClosedConn,
    CreatedConn, SignalRef,
};
use crate::command::BridgeCommand;
use crate::connection::{
    AcceptBi, AcceptUni, ClosedStep, Connecting, ConnectingStep, Connection, OpenBi, OpenUni,
    ReadDatagram, StreamWait,
};
use crate::endpoint::{Accept, AcceptStep, Endpoint};
use crate::error::{ConnectError, ConnectionError, ConnectionErrorView};
use crate::recv_stream::RecvStream;
use crate::send_stream::SendStream;
use crate::types::{Reply, Side};

verus! {

/// No connection but the one in the slot is touched, and no ID, count or address of the endpoint.
pub open spec fn only_slot(before: BridgeView, after: BridgeView, slot: int) -> bool {
    &&& after.conn_states == before.conn_states
    &&& after.conns.len() == before.conns.len()
    &&& forall|i: int|
        0 <= i < before.conns.len() && i != slot ==> #[trigger] after.conns[i] == before.conns[i]
    &&& after.incoming == before.incoming
    &&& after.stats == before.stats
    &&& after.open_connections == before.open_connections
    &&& after.endpoint_closed == before.endpoint_closed
    &&& after.local_addr == before.local_addr
}

/// A connection that is created gets a slot of its own and has its ID from then on; it is neither
/// established nor closed, and no other connection is touched. It is one more open connection.
pub proof fn law_created_connection_is_known(
    handler: BridgeTransportHandler,
    handle: &mut BridgeHandle,
    id: u64,
    remote: SocketAddr,
    is_server: bool,
    woken: bool,
)
    requires
        old(handle)@.wf(),
        old(handle)@.conns.len() < usize::MAX,
        call_ensures(
            BridgeTransportHandler::on_conn_created,
            (&handler, handle, CreatedConn { index: Some(id), remote: Some(remote), is_server }),
            woken,
        ),
    ensures
        ({
            let slot = old(handle)@.conns.len() as int;
            let conn = final(handle)@.conns[slot];
            &&& final(handle)@.conns.len() == slot + 1
            &&& final(handle)@.conn_states.contains_key(id)
            &&& final(handle)@.conn_states[id] == slot
            &&& !conn.established
            &&& conn.closed is None
            &&& !conn.establish_waker
            &&& conn.accept_bi.len() == 0
            &&& conn.accept_uni.len() == 0
            &&& forall|stream: u64| !(#[trigger] conn.readable.contains_key(stream))
            &&& forall|stream: u64| !(#[trigger] conn.writable.contains_key(stream))
            &&& conn.is_server == is_server
            &&& conn.remote_addr == remote
        }),
        forall|i: int|
            0 <= i < old(handle)@.conns.len() ==> #[trigger] final(handle)@.conns[i]
                == old(handle)@.conns[i],
        forall|other: u64|
            other != id ==> (#[trigger] final(handle)@.conn_states.contains_key(other)
                <==> old(handle)@.conn_states.contains_key(other)),
        forall|other: u64|
            other != id && #[trigger] old(handle)@.conn_states.contains_key(other)
                ==> final(handle)@.conn_states[other] == old(handle)@.conn_states[other],
        old(handle)@.open_connections < u64::MAX ==> final(handle)@.open_connections
            == old(handle)@.open_connections + 1,
        final(handle)@.endpoint_closed == old(handle)@.endpoint_closed,
        final(handle)@.local_addr == old(handle)@.local_addr,
{
}

/// A connection that is created on a server is the last of those that wait to be taken, with its ID
/// and address, and validated if retry is on; one created on a client is not offered to anybody. It
/// is counted as outgoing exactly if this side started it.
pub proof fn law_created_connection_is_offered(
    handler: BridgeTransportHandler,
    handle: &mut BridgeHandle,
    id: u64,
    remote: SocketAddr,
    is_server: bool,
    woken: bool,
)
    requires
        call_ensures(
            BridgeTransportHandler::on_conn_created,
            (&handler, handle, CreatedConn { index: Some(id), remote: Some(remote), is_server }),
            woken,
        ),
    ensures
        woken == handler.is_server,
        handler.is_server ==> {
            let waiting = final(handle)@.incoming;
            &&& waiting.len() == old(handle)@.incoming.len() + 1
            &&& waiting.drop_last() == old(handle)@.incoming
            &&& waiting.last().conn_id == id
            &&& waiting.last().remote_addr == remote
            &&& waiting.last().validated == handler.retry
        },
        !handler.is_server ==> final(handle)@.incoming == old(handle)@.incoming,
        is_server ==> final(handle)@.stats == old(handle)@.stats,
        !is_server && old(handle)@.stats.outgoing_handshakes < u64::MAX
            ==> final(handle)@.stats.outgoing_handshakes
            == old(handle)@.stats.outgoing_handshakes + 1,
        final(handle)@.stats.accepted_handshakes == old(handle)@.stats.accepted_handshakes,
        final(handle)@.stats.refused_handshakes == old(handle)@.stats.refused_handshakes,
        final(handle)@.stats.ignored_handshakes == old(handle)@.stats.ignored_handshakes,
{
    if handler.is_server {
        assert(final(handle)@.incoming.drop_last() =~= old(handle)@.incoming);
    }
}

/// A connection that was created has the address and the side that it was created with, for whoever
/// asks it.
pub proof fn law_connection_knows_its_peer(
    handler: BridgeTransportHandler,
    handle: &mut BridgeHandle,
    id: u64,
    remote: SocketAddr,
    is_server: bool,
    woken: bool,
    conn: Connection,
    told: SocketAddr,
    side: Side,
    why: Option<ConnectionError>,
)
    requires
        old(handle)@.wf(),
        old(handle)@.conns.len() < usize::MAX,
        call_ensures(
            BridgeTransportHandler::on_conn_created,
            (&handler, handle, CreatedConn { index: Some(id), remote: Some(remote), is_server }),
            woken,
        ),
        call_ensures(Connection::new, (id,), conn),
        call_ensures(Connection::remote_address, (&conn, &*final(handle)), told),
        call_ensures(Connection::side, (&conn, &*final(handle)), side),
        call_ensures(Connection::close_reason, (&conn, &*final(handle)), why),
    ensures
        told == remote,
        is_server <==> side is Server,
        why is None,
{
}

/// The oldest incoming connection is taken, with its address, as long as the endpoint is open;
/// where there is none, the wait goes on until the endpoint is closed or the bridge thread ends.
pub proof fn law_oldest_connection_is_taken(
    accept: Accept,
    handle: &mut BridgeHandle,
    ended: bool,
    step: AcceptStep,
)
    requires
        call_ensures(Accept::poll, (&accept, handle, ended), step),
    ensures
        !old(handle)@.endpoint_closed && old(handle)@.incoming.len() > 0 ==> {
            let first = old(handle)@.incoming[0];
            &&& step matches AcceptStep::Ready(Some(incoming)) && incoming@.incoming_id
                == first.conn_id && incoming@.remote_addr == first.remote_addr
                && incoming@.validated == first.validated
            &&& final(handle)@.incoming == old(handle)@.incoming.skip(1)
        },
        old(handle)@.endpoint_closed ==> step == AcceptStep::Ready(None),
        old(handle)@.incoming.len() == 0 && ended ==> step == AcceptStep::Ready(None),
        old(handle)@.incoming.len() == 0 && !ended && !old(handle)@.endpoint_closed ==> step
            is Wait,
        old(handle)@.endpoint_closed || old(handle)@.incoming.len() == 0
            ==> final(handle)@.incoming == old(handle)@.incoming,
        final(handle)@.conns == old(handle)@.conns,
        final(handle)@.conn_states == old(handle)@.conn_states,
        final(handle)@.stats == old(handle)@.stats,
        final(handle)@.open_connections == old(handle)@.open_connections,
        final(handle)@.endpoint_closed == old(handle)@.endpoint_closed,
        final(handle)@.local_addr == old(handle)@.local_addr,
{
    if !old(handle)@.endpoint_closed && old(handle)@.incoming.len() > 0 {
        assert(final(handle)@.incoming =~= old(handle)@.incoming.skip(1));
    }
}

/// A handshake that is complete is complete for the connection that it belongs to and for no other,
/// and wakes who waits for it.
pub proof fn law_completed_handshake_is_seen(
    handler: BridgeTransportHandler,
    handle: &mut BridgeHandle,
    id: u64,
    woken: Option<usize>,
    attempt: &mut Connecting,
    later: &mut BridgeHandle,
    reply: Reply<Result<u64, ConnectError>>,
    step: ConnectingStep,
)
    requires
        old(handle)@.wf(),
        old(handle)@.conn_states.contains_key(id),
        call_ensures(
            BridgeTransportHandler::on_conn_established,
            (&handler, handle, Some(id)),
            woken,
        ),
        *old(later) == *final(handle),
        old(attempt)@.conn_id == Some(id),
        call_ensures(Connecting::poll, (attempt, later, reply), step),
    ensures
        step matches ConnectingStep::Ready(Ok(conn)) && conn@ == id,
        ({
            let slot = old(handle)@.conn_states[id] as usize;
            &&& only_slot(old(handle)@, final(handle)@, slot as int)
            &&& woken == (if old(handle)@.conns[slot as int].establish_waker {
                Some(slot)
            } else {
                None
            })
            &&& final(handle)@.conns[slot as int].established
            &&& !final(handle)@.conns[slot as int].establish_waker
            &&& final(handle)@.conns[slot as int].closed == old(handle)@.conns[slot as int].closed
            &&& final(handle)@.conns[slot as int].readable
                == old(handle)@.conns[slot as int].readable
            &&& final(handle)@.conns[slot as int].writable
                == old(handle)@.conns[slot as int].writable
            &&& final(handle)@.conns[slot as int].is_server
                == old(handle)@.conns[slot as int].is_server
            &&& final(handle)@.conns[slot as int].remote_addr
                == old(handle)@.conns[slot as int].remote_addr
            &&& final(handle)@.conns[slot as int].accept_bi
                == old(handle)@.conns[slot as int].accept_bi
            &&& final(handle)@.conns[slot as int].accept_uni
                == old(handle)@.conns[slot as int].accept_uni
        }),
        final(later)@ == final(handle)@,
{
}

/// A handshake that is neither complete nor failed is waited for, in the slot of the connection;
/// one that failed is over with the error; and an ID that nobody knows fails as well.
pub proof fn law_attempt_follows_its_connection(
    attempt: &mut Connecting,
    handle: &mut BridgeHandle,
    reply: Reply<Result<u64, ConnectError>>,
    step: ConnectingStep,
    id: u64,
    needs: bool,
)
    requires
        old(handle)@.wf(),
        call_ensures(Connecting::needs_id, (&*final(attempt),), needs),
        old(attempt)@.conn_id == Some(id) || (old(attempt)@.conn_id is None
            && old(attempt)@.awaiting_id && reply == Reply::Ready(Ok::<u64, ConnectError>(id))),
        call_ensures(Connecting::poll, (attempt, handle, reply), step),
    ensures
        !needs,
        final(attempt)@.conn_id == Some(id),
        final(attempt)@.remote_addr == old(attempt)@.remote_addr,
        !old(handle)@.conn_states.contains_key(id) ==> {
            &&& step matches ConnectingStep::Ready(Err(e)) && e@
                == ConnectionErrorView::LocallyClosed
            &&& final(handle)@ == old(handle)@
        },
        old(handle)@.conn_states.contains_key(id) ==> ({
            let slot = old(handle)@.conn_states[id] as usize;
            let conn = old(handle)@.conns[slot as int];
            &&& conn.established ==> (step matches ConnectingStep::Ready(Ok(c)) && c@ == id)
            &&& !conn.established && conn.closed is Some ==> (step matches ConnectingStep::Ready(
                Err(e),
            ) && Some(e@) == conn.closed)
            &&& !conn.established && conn.closed is None ==> {
                &&& step == ConnectingStep::AwaitHandshake(slot)
                &&& final(handle)@.conns[slot as int].establish_waker
                &&& only_slot(old(handle)@, final(handle)@, slot as int)
                &&& !final(handle)@.conns[slot as int].established
                &&& final(handle)@.conns[slot as int].closed is None
                &&& final(handle)@.conns[slot as int].accept_bi == conn.accept_bi
                &&& final(handle)@.conns[slot as int].accept_uni == conn.accept_uni
                &&& final(handle)@.conns[slot as int].readable == conn.readable
                &&& final(handle)@.conns[slot as int].writable == conn.writable
                &&& final(handle)@.conns[slot as int].is_server == conn.is_server
                &&& final(handle)@.conns[slot as int].remote_addr == conn.remote_addr
            }
        }),
        !(step is AwaitHandshake) ==> final(handle)@ == old(handle)@,
{
}

/// An attempt that has no ID yet waits for it, and fails as the answer says, or as closed locally
/// where there is none; it does not touch the endpoint.
pub proof fn law_attempt_waits_for_its_id(
    attempt: &mut Connecting,
    handle: &mut BridgeHandle,
    reply: Reply<Result<u64, ConnectError>>,
    step: ConnectingStep,
    converted: ConnectionError,
    needs: bool,
)
    requires
        old(attempt)@.conn_id is None,
        old(attempt)@.awaiting_id,
        !(reply matches Reply::Ready(Ok(_))),
        call_ensures(Connecting::poll, (attempt, handle, reply), step),
        reply matches Reply::Ready(Err(e)) ==> call_ensures(
            ConnectionError::from_connect_error,
            (e,),
            converted,
        ),
        call_ensures(Connecting::needs_id, (&*final(attempt),), needs),
    ensures
        needs,
        reply is Pending ==> step is AwaitId,
        reply matches Reply::Ready(Err(_)) ==> (step matches ConnectingStep::Ready(Err(e)) && e@
            == converted@),
        reply is Dropped ==> (step matches ConnectingStep::Ready(Err(e)) && e@
            == ConnectionErrorView::LocallyClosed),
        reply matches Reply::Ready(Err(ConnectError::EndpointStopping)) ==> (
        step matches ConnectingStep::Ready(Err(e)) && e@ == ConnectionErrorView::LocallyClosed),
        reply matches Reply::Ready(Err(ConnectError::CidsExhausted)) ==> (
        step matches ConnectingStep::Ready(Err(e)) && e@ == ConnectionErrorView::CidsExhausted),
        reply matches Reply::Ready(Err(ConnectError::InvalidDnsName(why))) ==> (
        step matches ConnectingStep::Ready(Err(e)) && e@ == (ConnectionErrorView::TransportError {
            code: 0,
            reason: why@,
        })),
        final(attempt)@ == old(attempt)@,
        final(handle)@ == old(handle)@,
{
}

/// The error that a close comes to, case by case.
pub open spec fn close_comes_to(closed: ClosedConn, error: ConnectionErrorView) -> bool {
    &&& closed.peer_error matches Some(close) ==> {
        &&& close.is_app ==> error == (ConnectionErrorView::ApplicationClosed {
            error_code: close.error_code,
            reason: close.reason@,
        })
        &&& !close.is_app ==> error == (ConnectionErrorView::ConnectionClosed {
            error_code: close.error_code,
            reason: close.reason@,
        })
    }
    &&& closed.peer_error is None && closed.local_error is Some ==> {
        let close = closed.local_error->0;
        let refusal = !close.is_app && close.error_code == 2 && close.reason@ == seq![
            114u8,
            101u8,
            102u8,
            117u8,
            115u8,
            101u8,
            100u8,
        ];
        &&& close.is_app || refusal ==> error is LocallyClosed
        &&& !close.is_app && !refusal ==> (error matches ConnectionErrorView::TransportError {
            code,
            reason,
        } && code == close.error_code && (vstd::utf8::valid_utf8(close.reason@) ==> reason
            == vstd::utf8::decode_utf8(close.reason@)) && (!vstd::utf8::valid_utf8(close.reason@)
            ==> reason.len() == 0))
    }
    &&& closed.peer_error is None && closed.local_error is None ==> {
        let timed_out = closed.is_idle_timeout || closed.is_handshake_timeout;
        &&& timed_out ==> error is TimedOut
        &&& !timed_out && closed.is_reset ==> error is Reset
        &&& !timed_out && !closed.is_reset ==> error is LocallyClosed
    }
}

/// A connection that the engine reports as closed is closed for all who ask: the close reason, the
/// wait for the close, the opening of streams and the wait for datagrams all give the error that
/// the report comes to. No other connection is touched.
pub proof fn law_reported_close_is_seen_by_all(
    handler: BridgeTransportHandler,
    handle: &mut BridgeHandle,
    closed: ClosedConn,
    actions: ClosedActions,
    id: u64,
    conn: Connection,
    why: Option<ConnectionError>,
    waited: ClosedStep,
    bi: &mut OpenBi,
    bi_started: Result<Option<BridgeCommand>, ConnectionError>,
    uni: &mut OpenUni,
    uni_started: Result<Option<BridgeCommand>, ConnectionError>,
    datagram: ReadDatagram,
    read: Result<usize, ConnectionError>,
)
    requires
        old(handle)@.wf(),
        closed.index == Some(id),
        old(handle)@.conn_states.contains_key(id),
        call_ensures(
            BridgeTransportHandler::on_conn_closed,
            (&handler, handle, closed),
            actions,
        ),
        call_ensures(Connection::new, (id,), conn),
        call_ensures(Connection::close_reason, (&conn, &*final(handle)), why),
        call_ensures(Connection::closed, (&conn, &*final(handle)), waited),
        call_ensures(Connection::open_bi, (&conn,), *old(bi)),
        call_ensures(OpenBi::start, (bi, &*final(handle)), bi_started),
        call_ensures(Connection::open_uni, (&conn,), *old(uni)),
        call_ensures(OpenUni::start, (uni, &*final(handle)), uni_started),
        call_ensures(Connection::read_datagram, (&conn,), datagram),
        call_ensures(ReadDatagram::poll, (&datagram, &*final(handle)), read),
    ensures
        why matches Some(e) && close_comes_to(closed, e@),
        waited matches ClosedStep::Ready(e) && e@ == why->0@,
        bi_started matches Err(e) && e@ == why->0@,
        uni_started matches Err(e) && e@ == why->0@,
        read matches Err(e) && e@ == why->0@,
{
    let error = why->0@;
    assert(crate::command::REFUSED_REASON@ =~= seq![
        114u8,
        101u8,
        102u8,
        117u8,
        115u8,
        101u8,
        100u8,
    ]);
}

/// A close is reported to those who watch the connection and to who waits for its handshake; it is
/// one open connection less, and the endpoint is reported idle exactly if none is left. What else
/// the connection holds stays, and no other connection is touched.
pub proof fn law_close_is_reported(
    handler: BridgeTransportHandler,
    handle: &mut BridgeHandle,
    closed: ClosedConn,
    actions: ClosedActions,
    id: u64,
    idle: bool,
    open: usize,
)
    requires
        old(handle)@.wf(),
        closed.index == Some(id),
        old(handle)@.conn_states.contains_key(id),
        call_ensures(
            BridgeTransportHandler::on_conn_closed,
            (&handler, handle, closed),
            actions,
        ),
        call_ensures(Endpoint::wait_idle, (&Endpoint, &*final(handle)), idle),
        call_ensures(Endpoint::open_connections, (&Endpoint, &*final(handle)), open),
    ensures
        ({
            let slot = old(handle)@.conn_states[id] as usize;
            let was = old(handle)@.conns[slot as int];
            let now = final(handle)@.conns[slot as int];
            &&& actions.notify_closed == Some(slot)
            &&& actions.wake_establish == (if was.establish_waker {
                Some(slot)
            } else {
                None
            })
            &&& !now.establish_waker
            &&& now.established == was.established
            &&& now.accept_bi == was.accept_bi
            &&& now.accept_uni == was.accept_uni
            &&& now.is_server == was.is_server
            &&& now.remote_addr == was.remote_addr
            &&& now.readable == was.readable
            &&& now.writable == was.writable
            &&& forall|i: int|
                0 <= i < old(handle)@.conns.len() && i != slot ==> #[trigger] final(handle)@.conns[i]
                    == old(handle)@.conns[i]
        }),
        final(handle)@.conns.len() == old(handle)@.conns.len(),
        final(handle)@.conn_states == old(handle)@.conn_states,
        final(handle)@.incoming == old(handle)@.incoming,
        final(handle)@.stats == old(handle)@.stats,
        final(handle)@.endpoint_closed == old(handle)@.endpoint_closed,
        final(handle)@.local_addr == old(handle)@.local_addr,
        old(handle)@.open_connections > 0 ==> final(handle)@.open_connections
            == old(handle)@.open_connections - 1,
        actions.notify_idle == idle,
        idle <==> final(handle)@.open_connections == 0,
        final(handle)@.open_connections <= usize::MAX ==> open == final(handle)@.open_connections,
{
}

/// A stream that the peer has opened, which on a server has an even identifier and on a client an
/// odd one, goes to the end of the queue of its direction and to no other: to the bidirectional
/// streams exactly if its identifier leaves less than two when divided by four. One that was opened
/// here goes to none.
pub proof fn law_stream_goes_to_the_queue_of_its_direction(
    handler: BridgeTransportHandler,
    handle: &mut BridgeHandle,
    id: u64,
    stream: u64,
    arrival: Option<AcceptedStream>,
)
    requires
        old(handle)@.wf(),
        old(handle)@.conn_states.contains_key(id),
        call_ensures(
            BridgeTransportHandler::on_stream_created,
            (&handler, handle, Some(id), stream),
            arrival,
        ),
    ensures
        ({
            let slot = old(handle)@.conn_states[id] as usize;
            let was = old(handle)@.conns[slot as int];
            let now = final(handle)@.conns[slot as int];
            let from_peer = if was.is_server {
                stream % 2 == 0
            } else {
                stream % 2 == 1
            };
            &&& arrival is Some <==> from_peer
            &&& arrival matches Some(a) ==> {
                &&& a.slot == slot
                &&& a.stream_id == stream
                &&& a.dir is Bi <==> stream % 4 < 2
            }
            &&& from_peer && stream % 4 < 2 ==> now.accept_bi == was.accept_bi.push(stream)
                && now.accept_uni == was.accept_uni
            &&& from_peer && stream % 4 >= 2 ==> now.accept_uni == was.accept_uni.push(stream)
                && now.accept_bi == was.accept_bi
            &&& !from_peer ==> now.accept_bi == was.accept_bi && now.accept_uni == was.accept_uni
            &&& now.closed == was.closed
            &&& now.established == was.established
            &&& now.establish_waker == was.establish_waker
            &&& now.is_server == was.is_server
            &&& now.remote_addr == was.remote_addr
            &&& now.readable.contains_key(stream)
            &&& now.writable.contains_key(stream)
            &&& forall|other: u64|
                other != stream ==> (#[trigger] now.readable.contains_key(other)
                    <==> was.readable.contains_key(other))
            &&& forall|other: u64|
                other != stream ==> (#[trigger] now.writable.contains_key(other)
                    <==> was.writable.contains_key(other))
            &&& forall|known: u64| #[trigger]
                was.readable.contains_key(known) ==> now.readable[known] == was.readable[known]
            &&& forall|known: u64| #[trigger]
                was.writable.contains_key(known) ==> now.writable[known] == was.writable[known]
            &&& only_slot(old(handle)@, final(handle)@, slot as int)
        }),
{
}

/// A bidirectional stream that the peer has opened, with none before it, is the one that is accepted
/// next, with both halves.
pub proof fn law_bidirectional_stream_is_accepted(
    handler: BridgeTransportHandler,
    handle: &mut BridgeHandle,
    id: u64,
    stream: u64,
    arrival: Option<AcceptedStream>,
    conn: Connection,
    op: &mut AcceptBi,
    later: &mut BridgeHandle,
    wait: StreamWait<(SendStream, RecvStream)>,
    uni: &mut AcceptUni,
    other: &mut BridgeHandle,
    uni_wait: StreamWait<RecvStream>,
)
    requires
        old(handle)@.wf(),
        old(handle)@.conn_states.contains_key(id),
        ({
            let c = old(handle)@.conns[old(handle)@.conn_states[id] as usize as int];
            &&& c.closed is None
            &&& c.accept_bi.len() == 0
            &&& c.accept_uni.len() == 0
            &&& c.is_server ==> stream % 4 == 0
            &&& !c.is_server ==> stream % 4 == 1
        }),
        call_ensures(
            BridgeTransportHandler::on_stream_created,
            (&handler, handle, Some(id), stream),
            arrival,
        ),
        call_ensures(Connection::new, (id,), conn),
        call_ensures(Connection::accept_bi, (&conn,), *old(op)),
        *old(later) == *final(handle),
        call_ensures(AcceptBi::poll, (op, later), wait),
        call_ensures(Connection::accept_uni, (&conn,), *old(uni)),
        *old(other) == *final(handle),
        call_ensures(AcceptUni::poll, (uni, other), uni_wait),
    ensures
        wait matches StreamWait::Ready(Ok((send, recv))) && send@.conn_id == id && send@.stream_id
            == stream && recv@.conn_id == id && recv@.stream_id == stream,
        uni_wait is Wait,
{
}

/// A unidirectional stream that the peer has opened, with none before it, is the one that is
/// accepted next, and can be read only.
pub proof fn law_unidirectional_stream_is_accepted(
    handler: BridgeTransportHandler,
    handle: &mut BridgeHandle,
    id: u64,
    stream: u64,
    arrival: Option<AcceptedStream>,
    conn: Connection,
    op: &mut AcceptUni,
    later: &mut BridgeHandle,
    wait: StreamWait<RecvStream>,
    bi: &mut AcceptBi,
    other: &mut BridgeHandle,
    bi_wait: StreamWait<(SendStream, RecvStream)>,
)
    requires
        old(handle)@.wf(),
        old(handle)@.conn_states.contains_key(id),
        ({
            let c = old(handle)@.conns[old(handle)@.conn_states[id] as usize as int];
            &&& c.closed is None
            &&& c.accept_bi.len() == 0
            &&& c.accept_uni.len() == 0
            &&& c.is_server ==> stream % 4 == 2
            &&& !c.is_server ==> stream % 4 == 3
        }),
        call_ensures(
            BridgeTransportHandler::on_stream_created,
            (&handler, handle, Some(id), stream),
            arrival,
        ),
        call_ensures(Connection::new, (id,), conn),
        call_ensures(Connection::accept_uni, (&conn,), *old(op)),
        *old(later) == *final(handle),
        call_ensures(AcceptUni::poll, (op, later), wait),
        call_ensures(Connection::accept_bi, (&conn,), *old(bi)),
        *old(other) == *final(handle),
        call_ensures(AcceptBi::poll, (bi, other), bi_wait),
    ensures
        wait matches StreamWait::Ready(Ok(recv)) && recv@.conn_id == id && recv@.stream_id
            == stream,
        bi_wait is Wait,
{
}

/// Whoever asks for a bidirectional stream gets the oldest one, which is then gone from the queue;
/// waits where there is none; and gets the error of a connection that is closed or not known. The
/// unidirectional streams and the other connections are not touched.
pub proof fn law_oldest_bidirectional_stream_is_accepted(
    op: &mut AcceptBi,
    handle: &mut BridgeHandle,
    wait: StreamWait<(SendStream, RecvStream)>,
)
    requires
        old(handle)@.wf(),
        old(op)@.slot is None,
        call_ensures(AcceptBi::poll, (op, handle), wait),
    ensures
        !old(handle)@.conn_states.contains_key(old(op)@.conn_id) ==> (wait matches StreamWait::Ready(
            Err(e),
        ) && e@ == ConnectionErrorView::LocallyClosed),
        old(handle)@.conn_states.contains_key(old(op)@.conn_id) ==> ({
            let slot = old(handle)@.conn_states[old(op)@.conn_id] as usize;
            let was = old(handle)@.conns[slot as int];
            let now = final(handle)@.conns[slot as int];
            &&& was.closed matches Some(why) ==> (wait matches StreamWait::Ready(Err(e)) && e@
                == why)
            &&& was.closed is None && was.accept_bi.len() == 0 ==> (wait matches StreamWait::Wait(
                s,
            ) && s == slot)
            &&& was.closed is None && was.accept_bi.len() > 0 ==> {
                &&& wait matches StreamWait::Ready(Ok((send, recv))) && send@.stream_id
                    == was.accept_bi[0] && recv@.stream_id == was.accept_bi[0] && send@.conn_id
                    == old(op)@.conn_id && recv@.conn_id == old(op)@.conn_id && !send@.finished
                    && !recv@.all_data_read
                &&& now.accept_bi == was.accept_bi.skip(1)
            }
            &&& was.closed is Some || was.accept_bi.len() == 0 ==> now.accept_bi == was.accept_bi
            &&& now.accept_uni == was.accept_uni
            &&& now.closed == was.closed
            &&& only_slot(old(handle)@, final(handle)@, slot as int)
        }),
{
    if old(handle)@.conn_states.contains_key(old(op)@.conn_id) {
        let slot = old(handle)@.conn_states[old(op)@.conn_id] as usize;
        let was = old(handle)@.conns[slot as int];
        if was.closed is None && was.accept_bi.len() > 0 {
            assert(final(handle)@.conns[slot as int].accept_bi =~= was.accept_bi.skip(1));
        }
    }
}

/// Whoever asks for a unidirectional stream gets the oldest one, which is then gone from the queue;
/// waits where there is none; and gets the error of a connection that is closed or not known. The
/// bidirectional streams and the other connections are not touched.
pub proof fn law_oldest_unidirectional_stream_is_accepted(
    op: &mut AcceptUni,
    handle: &mut BridgeHandle,
    wait: StreamWait<RecvStream>,
)
    requires
        old(handle)@.wf(),
        old(op)@.slot is None,
        call_ensures(AcceptUni::poll, (op, handle), wait),
    ensures
        !old(handle)@.conn_states.contains_key(old(op)@.conn_id) ==> (wait matches StreamWait::Ready(
            Err(e),
        ) && e@ == ConnectionErrorView::LocallyClosed),
        old(handle)@.conn_states.contains_key(old(op)@.conn_id) ==> ({
            let slot = old(handle)@.conn_states[old(op)@.conn_id] as usize;
            let was = old(handle)@.conns[slot as int];
            let now = final(handle)@.conns[slot as int];
            &&& was.closed matches Some(why) ==> (wait matches StreamWait::Ready(Err(e)) && e@
                == why)
            &&& was.closed is None && was.accept_uni.len() == 0 ==> (wait matches StreamWait::Wait(
                s,
            ) && s == slot)
            &&& was.closed is None && was.accept_uni.len() > 0 ==> {
                &&& wait matches StreamWait::Ready(Ok(recv)) && recv@.stream_id
                    == was.accept_uni[0] && recv@.conn_id == old(op)@.conn_id
                    && !recv@.all_data_read
                &&& now.accept_uni == was.accept_uni.skip(1)
            }
            &&& was.closed is Some || was.accept_uni.len() == 0 ==> now.accept_uni
                == was.accept_uni
            &&& now.accept_bi == was.accept_bi
            &&& now.closed == was.closed
            &&& only_slot(old(handle)@, final(handle)@, slot as int)
        }),
{
    if old(handle)@.conn_states.contains_key(old(op)@.conn_id) {
        let slot = old(handle)@.conn_states[old(op)@.conn_id] as usize;
        let was = old(handle)@.conns[slot as int];
        if was.closed is None && was.accept_uni.len() > 0 {
            assert(final(handle)@.conns[slot as int].accept_uni =~= was.accept_uni.skip(1));
        }
    }
}

/// Whoever has waited for a stream of the peer's goes on with the connection that the wait began
/// with, bidirectional or not: its error, its oldest stream, or another wait in the same place.
pub proof fn law_wait_for_a_stream_goes_on(
    bi: &mut AcceptBi,
    bi_handle: &mut BridgeHandle,
    bi_slot: usize,
    bi_again: &mut AcceptBi,
    bi_later: &mut BridgeHandle,
    bi_wait: StreamWait<(SendStream, RecvStream)>,
    uni: &mut AcceptUni,
    uni_handle: &mut BridgeHandle,
    uni_slot: usize,
    uni_again: &mut AcceptUni,
    uni_later: &mut BridgeHandle,
    uni_wait: StreamWait<RecvStream>,
)
    requires
        call_ensures(AcceptBi::poll, (bi, bi_handle), StreamWait::Wait(bi_slot)),
        *old(bi_again) == *final(bi),
        call_ensures(AcceptBi::poll, (bi_again, bi_later), bi_wait),
        call_ensures(AcceptUni::poll, (uni, uni_handle), StreamWait::Wait(uni_slot)),
        *old(uni_again) == *final(uni),
        call_ensures(AcceptUni::poll, (uni_again, uni_later), uni_wait),
    ensures
        ({
            let conn = old(bi_later)@.conns[bi_slot as int];
            &&& conn.closed matches Some(why) ==> (bi_wait matches StreamWait::Ready(Err(e)) && e@
                == why)
            &&& conn.closed is None && conn.accept_bi.len() > 0 ==> (bi_wait matches StreamWait::Ready(
                Ok((send, recv)),
            ) && send@.stream_id == conn.accept_bi[0] && recv@.stream_id == conn.accept_bi[0]
                && send@.conn_id == old(bi)@.conn_id && recv@.conn_id == old(bi)@.conn_id)
            &&& conn.closed is None && conn.accept_bi.len() == 0 ==> (bi_wait matches StreamWait::Wait(
                s,
            ) && s == bi_slot)
        }),
        ({
            let conn = old(uni_later)@.conns[uni_slot as int];
            &&& conn.closed matches Some(why) ==> (uni_wait matches StreamWait::Ready(Err(e)) && e@
                == why)
            &&& conn.closed is None && conn.accept_uni.len() > 0 ==> (
            uni_wait matches StreamWait::Ready(Ok(recv)) && recv@.stream_id == conn.accept_uni[0]
                && recv@.conn_id == old(uni)@.conn_id)
            &&& conn.closed is None && conn.accept_uni.len() == 0 ==> (
            uni_wait matches StreamWait::Wait(s) && s == uni_slot)
        }),
{
}

/// A stream that is closed wakes the very signals that its reports have given before.
pub proof fn law_closed_stream_wakes_its_waiters(
    handler: BridgeTransportHandler,
    handle: &mut BridgeHandle,
    id: u64,
    stream: u64,
    readable: Option<SignalRef>,
    later: &mut BridgeHandle,
    writable: Option<SignalRef>,
    woken: (Option<SignalRef>, Option<SignalRef>),
)
    requires
        old(handle)@.wf(),
        old(handle)@.conn_states.contains_key(id),
        call_ensures(
            BridgeTransportHandler::on_stream_readable,
            (&handler, handle, Some(id), stream),
            readable,
        ),
        *old(later) == *final(handle),
        call_ensures(
            BridgeTransportHandler::on_stream_writable,
            (&handler, later, Some(id), stream),
            writable,
        ),
        call_ensures(
            BridgeTransportHandler::on_stream_closed,
            (&handler, &*final(later), Some(id), stream),
            woken,
        ),
    ensures
        readable is Some,
        writable is Some,
        woken.0 == readable,
        woken.1 == writable,
        readable != writable,
{
    let slot = old(handle)@.conn_states[id] as usize as int;
    assert(final(later)@.conns[slot].wf());
}

/// A report that a stream is readable gives the signal of that stream, the same each time, and
/// changes nothing but that the stream now has one; so does a report that it is writable.
pub proof fn law_reports_touch_their_stream_alone(
    handler: BridgeTransportHandler,
    handle: &mut BridgeHandle,
    id: u64,
    stream: u64,
    readable: Option<SignalRef>,
    again: &mut BridgeHandle,
    readable_again: Option<SignalRef>,
    other: &mut BridgeHandle,
    writable: Option<SignalRef>,
)
    requires
        old(handle)@.wf(),
        old(handle)@.conn_states.contains_key(id),
        call_ensures(
            BridgeTransportHandler::on_stream_readable,
            (&handler, handle, Some(id), stream),
            readable,
        ),
        *old(again) == *final(handle),
        call_ensures(
            BridgeTransportHandler::on_stream_readable,
            (&handler, again, Some(id), stream),
            readable_again,
        ),
        *old(other) == *old(handle),
        call_ensures(
            BridgeTransportHandler::on_stream_writable,
            (&handler, other, Some(id), stream),
            writable,
        ),
    ensures
        ({
            let slot = old(handle)@.conn_states[id] as usize;
            let was = old(handle)@.conns[slot as int];
            let read = final(handle)@.conns[slot as int];
            let write = final(other)@.conns[slot as int];
            &&& readable matches Some(signal) && signal.slot == slot
            &&& writable matches Some(signal) && signal.slot == slot
            &&& only_slot(old(handle)@, final(handle)@, slot as int)
            &&& only_slot(old(handle)@, final(other)@, slot as int)
            &&& was.readable.contains_key(stream) ==> final(handle)@ == old(handle)@
                && readable->0.signal == was.readable[stream]
            &&& was.writable.contains_key(stream) ==> final(other)@ == old(handle)@
                && writable->0.signal == was.writable[stream]
            &&& forall|known: u64| #[trigger]
                was.readable.contains_key(known) ==> read.readable[known] == was.readable[known]
            &&& forall|known: u64| #[trigger]
                was.writable.contains_key(known) ==> write.writable[known] == was.writable[known]
            &&& read.writable == was.writable
            &&& write.readable == was.readable
            &&& read.closed == was.closed
            &&& write.closed == was.closed
            &&& read.established == was.established
            &&& write.established == was.established
            &&& read.establish_waker == was.establish_waker
            &&& write.establish_waker == was.establish_waker
            &&& read.accept_bi == was.accept_bi
            &&& write.accept_bi == was.accept_bi
            &&& read.accept_uni == was.accept_uni
            &&& write.accept_uni == was.accept_uni
        }),
        readable_again == readable,
        final(again)@ == final(handle)@,
{
    let slot = old(handle)@.conn_states[id] as usize as int;
    assert(old(handle)@.conns[slot].wf());
    if old(handle)@.conns[slot].readable.contains_key(stream) {
        assert(final(handle)@.conns =~= old(handle)@.conns);
    }
    if old(handle)@.conns[slot].writable.contains_key(stream) {
        assert(final(other)@.conns =~= old(handle)@.conns);
    }
    assert(final(again)@.conns =~= final(handle)@.conns);
}

/// An event of a connection that is not known wakes nobody and changes nothing, but that a close is
/// counted.
pub proof fn law_unknown_connection_changes_nothing(
    handler: BridgeTransportHandler,
    before: BridgeHandle,
    id: u64,
    stream: u64,
    established: &mut BridgeHandle,
    established_wakes: Option<usize>,
    created: &mut BridgeHandle,
    arrival: Option<AcceptedStream>,
    readable: &mut BridgeHandle,
    readable_signal: Option<SignalRef>,
    writable: &mut BridgeHandle,
    writable_signal: Option<SignalRef>,
    closed_signals: (Option<SignalRef>, Option<SignalRef>),
    closed: &mut BridgeHandle,
    closed_conn: ClosedConn,
    actions: ClosedActions,
)
    requires
        !before@.conn_states.contains_key(id),
        *old(established) == before,
        call_ensures(
            BridgeTransportHandler::on_conn_established,
            (&handler, established, Some(id)),
            established_wakes,
        ),
        *old(created) == before,
        call_ensures(
            BridgeTransportHandler::on_stream_created,
            (&handler, created, Some(id), stream),
            arrival,
        ),
        *old(readable) == before,
        call_ensures(
            BridgeTransportHandler::on_stream_readable,
            (&handler, readable, Some(id), stream),
            readable_signal,
        ),
        *old(writable) == before,
        call_ensures(
            BridgeTransportHandler::on_stream_writable,
            (&handler, writable, Some(id), stream),
            writable_signal,
        ),
        call_ensures(
            BridgeTransportHandler::on_stream_closed,
            (&handler, &before, Some(id), stream),
            closed_signals,
        ),
        *old(closed) == before,
        closed_conn.index == Some(id),
        call_ensures(
            BridgeTransportHandler::on_conn_closed,
            (&handler, closed, closed_conn),
            actions,
        ),
    ensures
        final(established)@ == before@,
        established_wakes is None,
        final(created)@ == before@,
        arrival is None,
        final(readable)@ == before@,
        readable_signal is None,
        final(writable)@ == before@,
        writable_signal is None,
        closed_signals.0 is None,
        closed_signals.1 is None,
        final(closed)@.conns == before@.conns,
        final(closed)@.conn_states == before@.conn_states,
        before@.open_connections > 0 ==> final(closed)@.open_connections
            == before@.open_connections - 1,
        actions.notify_closed is None,
        actions.wake_establish is None,
{
}

/// An event without an index is an event of the connection zero.
pub proof fn law_event_without_an_index(
    handler: BridgeTransportHandler,
    before: BridgeHandle,
    stream: u64,
    none: &mut BridgeHandle,
    none_wakes: Option<usize>,
    zero: &mut BridgeHandle,
    zero_wakes: Option<usize>,
    none_created: &mut BridgeHandle,
    none_arrival: Option<AcceptedStream>,
    zero_created: &mut BridgeHandle,
    zero_arrival: Option<AcceptedStream>,
    none_signals: (Option<SignalRef>, Option<SignalRef>),
    zero_signals: (Option<SignalRef>, Option<SignalRef>),
)
    requires
        *old(none) == before,
        call_ensures(
            BridgeTransportHandler::on_conn_established,
            (&handler, none, None::<u64>),
            none_wakes,
        ),
        *old(zero) == before,
        call_ensures(
            BridgeTransportHandler::on_conn_established,
            (&handler, zero, Some(0u64)),
            zero_wakes,
        ),
        *old(none_created) == before,
        call_ensures(
            BridgeTransportHandler::on_stream_created,
            (&handler, none_created, None::<u64>, stream),
            none_arrival,
        ),
        *old(zero_created) == before,
        call_ensures(
            BridgeTransportHandler::on_stream_created,
            (&handler, zero_created, Some(0u64), stream),
            zero_arrival,
        ),
        call_ensures(
            BridgeTransportHandler::on_stream_closed,
            (&handler, &before, None::<u64>, stream),
            none_signals,
        ),
        call_ensures(
            BridgeTransportHandler::on_stream_closed,
            (&handler, &before, Some(0u64), stream),
            zero_signals,
        ),
    ensures
        final(none)@ == final(zero)@,
        none_wakes == zero_wakes,
        final(none_created)@ == final(zero_created)@,
        none_arrival == zero_arrival,
        none_signals == zero_signals,
{
}

} // verus!
