//! What becomes of an operation on its way to the engine and back, from the arguments and results
//! of the functions that it passes through.
use vstd::prelude::*;

use crate::addr::{FourTuple, SocketAddr};
use crate::bridge::BridgeHandle;
use crate::buffer;
use crate::command::{
    change_path_reply, connect_reply, open_stream_reply, path_stats_reply, paths_reply,
    read_buffer, rtt_reply, rtt_start, stream_read_reply, stream_write_reply, BridgeCommand,
    BridgeWorker, ConnectFailure, EngineCall, PathOp, RttStep,
};
use crate::config::{
    build_client_tls_config, build_server_tls_config, build_tquic_config, ClientConfig,
    EngineConfig, ServerConfig, TlsSettings,
};
use crate::connection::{Connecting, ConnectingStep, Connection, OpenBi, OpenUni};
use crate::endpoint::Endpoint;
use crate::engine::{EngineError, EngineErrorKind, PathStats};
use crate::error::{ConnectError, ConnectionError, ConnectionErrorView};
use crate::ext::connection::{path_answer, ConnectionExt};
use crate::incoming::Incoming;
use crate::recv_stream::{ReadError, ReadErrorView, ReadStart, ReadStep, RecvStream};
use crate::send_stream::{ClosedStream, SendStream, WriteError, WriteErrorView, WriteStep};
use crate::time::Duration;
use crate::types::{Poll, Reply, VarInt};
use crate::worker::{LoopEvent, LoopStep};

verus! {

/// The worker is as it was, and so is the state of the endpoint.
pub open spec fn untouched(
    worker: BridgeWorker,
    worker_after: BridgeWorker,
    handle: BridgeHandle,
    handle_after: BridgeHandle,
) -> bool {
    worker_after == worker && handle_after@ == handle@
}

/// Bytes that are written are handed to the engine on the very stream, as they are and without an
/// end; and what the engine says of them is what the write says.
pub proof fn law_written_bytes_are_handed_over(
    send: SendStream,
    buf: &[u8],
    cmd: BridgeCommand,
    worker: &mut BridgeWorker,
    handle: &mut BridgeHandle,
    step: LoopStep,
)
    requires
        call_ensures(SendStream::write, (&send, buf), Ok::<BridgeCommand, WriteError>(cmd)),
        call_ensures(BridgeWorker::on_event, (worker, handle, LoopEvent::Command(cmd)), step),
    ensures
        step matches LoopStep::Call(EngineCall::StreamWrite { conn_id, stream_id, data, fin })
            && conn_id == send@.conn_id && stream_id == send@.stream_id && buffer::contents(data)
            == buf@ && !fin,
        untouched(*old(worker), *final(worker), *old(handle), *final(handle)),
{
}

/// The end of a stream is handed to the engine on the very stream, without bytes.
pub proof fn law_finish_is_handed_over(
    send: &mut SendStream,
    cmd: BridgeCommand,
    worker: &mut BridgeWorker,
    handle: &mut BridgeHandle,
    step: LoopStep,
)
    requires
        call_ensures(SendStream::finish, (send,), Ok::<BridgeCommand, ClosedStream>(cmd)),
        call_ensures(BridgeWorker::on_event, (worker, handle, LoopEvent::Command(cmd)), step),
    ensures
        step matches LoopStep::Call(EngineCall::StreamWrite { conn_id, stream_id, data, fin })
            && conn_id == old(send)@.conn_id && stream_id == old(send)@.stream_id
            && buffer::contents(data).len() == 0 && fin,
        untouched(*old(worker), *final(worker), *old(handle), *final(handle)),
{
}

/// A reset is handed to the engine as an end of the writing on the very stream, with the very code.
pub proof fn law_reset_is_handed_over(
    send: &mut SendStream,
    code: VarInt,
    cmd: BridgeCommand,
    worker: &mut BridgeWorker,
    handle: &mut BridgeHandle,
    step: LoopStep,
)
    requires
        call_ensures(SendStream::reset, (send, code), Ok::<BridgeCommand, ClosedStream>(cmd)),
        call_ensures(BridgeWorker::on_event, (worker, handle, LoopEvent::Command(cmd)), step),
    ensures
        step matches LoopStep::Call(
            EngineCall::StreamShutdown { conn_id, stream_id, side, error_code },
        ) && conn_id == old(send)@.conn_id && stream_id == old(send)@.stream_id && side is Write
            && error_code == code@,
        untouched(*old(worker), *final(worker), *old(handle), *final(handle)),
{
}

/// A stop is handed to the engine as an end of the reading on the very stream, with the very code.
pub proof fn law_stop_is_handed_over(
    recv: &mut RecvStream,
    code: VarInt,
    cmd: BridgeCommand,
    worker: &mut BridgeWorker,
    handle: &mut BridgeHandle,
    step: LoopStep,
)
    requires
        call_ensures(RecvStream::stop, (recv, code), Ok::<BridgeCommand, ClosedStream>(cmd)),
        call_ensures(BridgeWorker::on_event, (worker, handle, LoopEvent::Command(cmd)), step),
    ensures
        step matches LoopStep::Call(
            EngineCall::StreamShutdown { conn_id, stream_id, side, error_code },
        ) && conn_id == old(recv)@.conn_id && stream_id == old(recv)@.stream_id && side is Read
            && error_code == code@,
        untouched(*old(worker), *final(worker), *old(handle), *final(handle)),
{
}

/// A priority is handed to the engine as the urgency of the very stream.
pub proof fn law_priority_is_handed_over(
    send: SendStream,
    priority: i32,
    cmd: BridgeCommand,
    worker: &mut BridgeWorker,
    handle: &mut BridgeHandle,
    step: LoopStep,
)
    requires
        call_ensures(
            SendStream::set_priority,
            (&send, priority),
            Ok::<BridgeCommand, ClosedStream>(cmd),
        ),
        call_ensures(BridgeWorker::on_event, (worker, handle, LoopEvent::Command(cmd)), step),
    ensures
        step matches LoopStep::Call(
            EngineCall::StreamSetPriority { conn_id, stream_id, urgency, incremental },
        ) && {
            &&& conn_id == send@.conn_id
            &&& stream_id == send@.stream_id
            &&& 0 <= priority <= 255 ==> urgency == priority
            &&& priority < 0 ==> urgency == 0
            &&& priority > 255 ==> urgency == 255
            &&& !incremental
        },
        untouched(*old(worker), *final(worker), *old(handle), *final(handle)),
{
}

/// A read that asks the engine asks it for no more bytes than the buffer holds, and for no fewer, on
/// the very stream.
pub proof fn law_read_is_handed_over(
    recv: &mut RecvStream,
    buf: &mut [u8],
    cmd: BridgeCommand,
    worker: &mut BridgeWorker,
    handle: &mut BridgeHandle,
    step: LoopStep,
)
    requires
        old(buf)@.len() <= usize::MAX,
        call_ensures(RecvStream::read, (recv, buf), ReadStart::Send(cmd)),
        call_ensures(BridgeWorker::on_event, (worker, handle, LoopEvent::Command(cmd)), step),
    ensures
        step matches LoopStep::Call(EngineCall::StreamRead { conn_id, stream_id, max_len })
            && conn_id == old(recv)@.conn_id && stream_id == old(recv)@.stream_id && max_len
            == old(buf)@.len(),
        untouched(*old(worker), *final(worker), *old(handle), *final(handle)),
{
}

/// What the engine says of a write is what the write says: the bytes that it took, the code that the
/// peer has stopped the stream with, that it has no room, that the stream is closed, or that there
/// is no such connection.
pub proof fn law_outcome_of_a_write_comes_back(
    outcome: Option<Result<usize, EngineError>>,
    answer: Result<usize, WriteError>,
    step: WriteStep,
)
    requires
        call_ensures(stream_write_reply, (outcome,), answer),
        call_ensures(SendStream::on_write_answer, (Some(answer),), step),
    ensures
        outcome matches Some(Ok(n)) ==> {
            &&& n > 0 ==> step == WriteStep::Done(Ok::<usize, WriteError>(n))
            &&& n == 0 ==> step is WaitWritable
        },
        outcome matches Some(Err(e)) ==> {
            &&& e.kind is Done ==> step is WaitWritable
            &&& e.kind matches EngineErrorKind::StreamStopped(code) ==> (step matches WriteStep::Done(
                Err(WriteError::Stopped(seen)),
            ) && (code <= 0x3fff_ffff_ffff_ffff ==> seen@ == code) && (code
                > 0x3fff_ffff_ffff_ffff ==> seen@ == 0x3fff_ffff_ffff_ffff))
            &&& !(e.kind is Done) && !(e.kind is StreamStopped) ==> (step matches WriteStep::Done(
                Err(x),
            ) && x@ == WriteErrorView::ClosedStream)
        },
        outcome is None ==> (step matches WriteStep::Done(Err(x)) && x@
            == WriteErrorView::ConnectionLost(ConnectionErrorView::LocallyClosed)),
{
}

/// What the engine says of a read is what the read says, and the bytes that it has put into its
/// buffer, no more and no fewer, are those that are handed out; never more than the buffer holds.
pub proof fn law_outcome_of_a_read_comes_back(
    max_len: usize,
    empty: Vec<u8>,
    filled: Vec<u8>,
    outcome: Option<Result<(usize, bool), EngineError>>,
    answer: Result<(Vec<u8>, bool), ReadError>,
    recv: &mut RecvStream,
    buf: &mut [u8],
    step: ReadStep,
)
    requires
        call_ensures(read_buffer, (max_len,), empty),
        filled@.len() == empty@.len(),
        old(buf)@.len() == max_len,
        call_ensures(stream_read_reply, (filled, outcome), answer),
        old(recv)@.kept.len() == 0,
        call_ensures(RecvStream::on_read_answer, (recv, buf, Some(answer)), step),
    ensures
        empty@.len() == max_len,
        outcome matches Some(Ok((came, fin))) ==> {
            let n = if came <= max_len {
                came
            } else {
                max_len
            };
            &&& forall|i: int| 0 <= i < n ==> #[trigger] final(buf)@[i] == filled@[i]
            &&& forall|i: int|
                n <= i < max_len ==> #[trigger] final(buf)@[i] == old(buf)@[i]
            &&& final(buf)@.len() == max_len
            &&& final(recv)@.kept.len() == 0
            &&& final(recv)@.all_data_read == (old(recv)@.all_data_read || fin)
            &&& n > 0 ==> step == ReadStep::Done(Ok(Some(n)))
            &&& n == 0 && fin ==> step == ReadStep::Done(Ok(None))
            &&& n == 0 && !fin ==> step is WaitReadable
        },
        outcome matches Some(Err(e)) ==> {
            &&& e.kind is Done ==> step is WaitReadable
            &&& e.kind matches EngineErrorKind::StreamReset(code) ==> (step matches ReadStep::Done(
                Err(ReadError::Reset(seen)),
            ) && (code <= 0x3fff_ffff_ffff_ffff ==> seen@ == code) && (code
                > 0x3fff_ffff_ffff_ffff ==> seen@ == 0x3fff_ffff_ffff_ffff))
            &&& !(e.kind is Done) && !(e.kind is StreamReset) ==> (step matches ReadStep::Done(
                Err(x),
            ) && x@ == ReadErrorView::ClosedStream)
            &&& final(buf)@ == old(buf)@
            &&& final(recv)@.all_data_read == old(recv)@.all_data_read
        },
        outcome is None ==> (step matches ReadStep::Done(Err(x)) && x@
            == ReadErrorView::ConnectionLost(ConnectionErrorView::LocallyClosed)),
{
    if outcome matches Some(Err(e)) {
        assert(final(buf)@ =~= old(buf)@);
    }
}

/// To open a bidirectional stream asks the engine once for such a stream on the very connection; the
/// stream that it opens is the one that comes back, with both halves.
pub proof fn law_bidirectional_stream_is_opened(
    conn: Connection,
    op: &mut OpenBi,
    state: BridgeHandle,
    cmd: BridgeCommand,
    worker: &mut BridgeWorker,
    handle: &mut BridgeHandle,
    step: LoopStep,
    again: &mut OpenBi,
    asked_again: Result<Option<BridgeCommand>, ConnectionError>,
    outcome: Option<Result<u64, EngineError>>,
    reply: Result<u64, ConnectionError>,
    opened: Poll<Result<(SendStream, RecvStream), ConnectionError>>,
)
    requires
        call_ensures(Connection::open_bi, (&conn,), *old(op)),
        call_ensures(OpenBi::start, (op, &state), Ok::<_, ConnectionError>(Some(cmd))),
        call_ensures(BridgeWorker::on_event, (worker, handle, LoopEvent::Command(cmd)), step),
        *old(again) == *final(op),
        call_ensures(OpenBi::start, (again, &state), asked_again),
        call_ensures(open_stream_reply, (outcome,), reply),
        call_ensures(OpenBi::poll, (&*final(op), Reply::Ready(reply)), opened),
    ensures
        step matches LoopStep::Call(EngineCall::OpenStream { conn_id, dir, urgency, incremental })
            && conn_id == conn@ && dir is Bi && urgency == 0 && !incremental,
        asked_again == Ok::<Option<BridgeCommand>, ConnectionError>(None),
        outcome matches Some(Ok(id)) ==> (opened matches Poll::Ready(Ok((send, recv)))
            && send@.stream_id == id && recv@.stream_id == id && send@.conn_id == conn@
            && recv@.conn_id == conn@ && !send@.finished && !recv@.all_data_read),
        !(outcome matches Some(Ok(_))) ==> (opened matches Poll::Ready(Err(e)) && e@
            == ConnectionErrorView::LocallyClosed),
        untouched(*old(worker), *final(worker), *old(handle), *final(handle)),
{
}

/// To open a unidirectional stream asks the engine once for such a stream on the very connection;
/// the stream that it opens is the one that comes back.
pub proof fn law_unidirectional_stream_is_opened(
    conn: Connection,
    op: &mut OpenUni,
    state: BridgeHandle,
    cmd: BridgeCommand,
    worker: &mut BridgeWorker,
    handle: &mut BridgeHandle,
    step: LoopStep,
    again: &mut OpenUni,
    asked_again: Result<Option<BridgeCommand>, ConnectionError>,
    outcome: Option<Result<u64, EngineError>>,
    reply: Result<u64, ConnectionError>,
    opened: Poll<Result<SendStream, ConnectionError>>,
)
    requires
        call_ensures(Connection::open_uni, (&conn,), *old(op)),
        call_ensures(OpenUni::start, (op, &state), Ok::<_, ConnectionError>(Some(cmd))),
        call_ensures(BridgeWorker::on_event, (worker, handle, LoopEvent::Command(cmd)), step),
        *old(again) == *final(op),
        call_ensures(OpenUni::start, (again, &state), asked_again),
        call_ensures(open_stream_reply, (outcome,), reply),
        call_ensures(OpenUni::poll, (&*final(op), Reply::Ready(reply)), opened),
    ensures
        step matches LoopStep::Call(EngineCall::OpenStream { conn_id, dir, urgency, incremental })
            && conn_id == conn@ && dir is Uni && urgency == 0 && !incremental,
        asked_again == Ok::<Option<BridgeCommand>, ConnectionError>(None),
        outcome matches Some(Ok(id)) ==> (opened matches Poll::Ready(Ok(send)) && send@.stream_id
            == id && send@.conn_id == conn@ && !send@.finished),
        !(outcome matches Some(Ok(_))) ==> (opened matches Poll::Ready(Err(e)) && e@
            == ConnectionErrorView::LocallyClosed),
        untouched(*old(worker), *final(worker), *old(handle), *final(handle)),
{
}

/// A stream can be opened on a connection that is known and not closed, and on one that is not
/// known, where the engine decides; on one that is closed, the opening fails with the error of the
/// close.
pub proof fn law_closed_connection_opens_no_stream(
    conn: Connection,
    state: BridgeHandle,
    bi: &mut OpenBi,
    bi_started: Result<Option<BridgeCommand>, ConnectionError>,
    uni: &mut OpenUni,
    uni_started: Result<Option<BridgeCommand>, ConnectionError>,
)
    requires
        state@.wf(),
        call_ensures(Connection::open_bi, (&conn,), *old(bi)),
        call_ensures(OpenBi::start, (bi, &state), bi_started),
        call_ensures(Connection::open_uni, (&conn,), *old(uni)),
        call_ensures(OpenUni::start, (uni, &state), uni_started),
    ensures
        ({
            let known = state@.conn_states.contains_key(conn@);
            let closed = state@.conns[state@.conn_states[conn@] as usize as int].closed;
            &&& known && closed is Some ==> {
                &&& bi_started matches Err(e) && Some(e@) == closed
                &&& uni_started matches Err(e) && Some(e@) == closed
            }
            &&& !known || closed is None ==> {
                &&& bi_started matches Ok(Some(_))
                &&& uni_started matches Ok(Some(_))
            }
        }),
{
}

/// The close of a connection is handed to the engine as the application's, with the very code and
/// reason; the shared state does not change before the engine reports it.
pub proof fn law_close_is_handed_over(
    conn: Connection,
    code: VarInt,
    why: &[u8],
    cmd: BridgeCommand,
    worker: &mut BridgeWorker,
    handle: &mut BridgeHandle,
    step: LoopStep,
)
    requires
        call_ensures(Connection::close, (&conn, code, why), cmd),
        call_ensures(BridgeWorker::on_event, (worker, handle, LoopEvent::Command(cmd)), step),
    ensures
        step matches LoopStep::Call(EngineCall::CloseConnection { conn_id, app, error_code, reason })
            && conn_id == conn@ && app && error_code == code@ && reason@ == why@,
        untouched(*old(worker), *final(worker), *old(handle), *final(handle)),
{
}

/// The close of an endpoint is handed to the engine for each connection that is known, once, as the
/// application's, with the very code and reason, and without force; from then on the endpoint is
/// closed and starts no connection.
pub proof fn law_endpoint_close_is_handed_over(
    endpoint: Endpoint,
    code: VarInt,
    why: &[u8],
    cmd: BridgeCommand,
    worker: &mut BridgeWorker,
    handle: &mut BridgeHandle,
    step: LoopStep,
    addr: SocketAddr,
    name: &str,
    later: Result<(BridgeCommand, Connecting), ConnectError>,
    own: ClientConfig,
    later_own: Result<(BridgeCommand, Connecting), ConnectError>,
)
    requires
        call_ensures(Endpoint::close, (&endpoint, code, why), cmd),
        call_ensures(BridgeWorker::on_event, (worker, handle, LoopEvent::Command(cmd)), step),
        call_ensures(Endpoint::connect, (&endpoint, &*final(handle), addr, name), later),
        call_ensures(
            Endpoint::connect_with,
            (&endpoint, &*final(handle), own, addr, name),
            later_own,
        ),
    ensures
        step matches LoopStep::Call(
            EngineCall::CloseEndpoint { conn_ids, app, error_code, reason, force },
        ) && {
            &&& forall|id: u64| #[trigger]
                conn_ids@.contains(id) <==> old(handle)@.conn_states.contains_key(id)
            &&& forall|i: int, j: int|
                0 <= i < j < conn_ids@.len() ==> #[trigger] conn_ids@[i] != #[trigger] conn_ids@[j]
            &&& app
            &&& error_code == code@
            &&& reason@ == why@
            &&& !force
        },
        final(handle)@.endpoint_closed,
        later matches Err(e) && e is EndpointStopping,
        later_own matches Err(e) && e is EndpointStopping,
        final(handle)@.conns == old(handle)@.conns,
        final(handle)@.conn_states == old(handle)@.conn_states,
        final(handle)@.open_connections == old(handle)@.open_connections,
        final(handle)@.stats == old(handle)@.stats,
        *final(worker) == *old(worker),
{
}

/// A refused connection is closed by the transport with the code 2, and not by the application.
pub proof fn law_refusal_is_handed_over(
    incoming: Incoming,
    refused: &mut BridgeHandle,
    cmd: BridgeCommand,
    worker: &mut BridgeWorker,
    handle: &mut BridgeHandle,
    step: LoopStep,
)
    requires
        call_ensures(Incoming::refuse, (incoming, refused), cmd),
        call_ensures(BridgeWorker::on_event, (worker, handle, LoopEvent::Command(cmd)), step),
    ensures
        step matches LoopStep::Call(EngineCall::CloseConnection { conn_id, app, error_code, reason })
            && conn_id == incoming@.incoming_id && !app && error_code == 2 && reason@ == seq![
            114u8,
            101u8,
            102u8,
            117u8,
            115u8,
            101u8,
            100u8,
        ],
        untouched(*old(worker), *final(worker), *old(handle), *final(handle)),
{
    assert(crate::command::REFUSED_REASON@ =~= seq![
        114u8,
        101u8,
        102u8,
        117u8,
        115u8,
        101u8,
        100u8,
    ]);
}

/// To accept a connection asks nothing of the engine, which has accepted it by itself.
pub proof fn law_accept_asks_for_nothing(
    incoming: Incoming,
    accepted: &mut BridgeHandle,
    cmd: BridgeCommand,
    attempt: Connecting,
    worker: &mut BridgeWorker,
    handle: &mut BridgeHandle,
    step: LoopStep,
)
    requires
        call_ensures(
            Incoming::accept,
            (incoming, accepted),
            Ok::<(BridgeCommand, Connecting), ConnectionError>((cmd, attempt)),
        ),
        call_ensures(BridgeWorker::on_event, (worker, handle, LoopEvent::Command(cmd)), step),
    ensures
        step matches LoopStep::Call(EngineCall::Nothing),
        attempt@.conn_id == Some(incoming@.incoming_id),
        attempt@.remote_addr == incoming@.remote_addr,
        untouched(*old(worker), *final(worker), *old(handle), *final(handle)),
{
}

/// A connection that is started goes to the very address under the very name, from the address that
/// the endpoint is bound to. It has the configuration that a client's TLS settings and transport
/// settings make up with the endpoint's own: that of the default client configuration, if there is
/// one, and else the endpoint's.
pub proof fn law_connection_is_started(
    endpoint: Endpoint,
    state: BridgeHandle,
    addr: SocketAddr,
    name: &str,
    cmd: BridgeCommand,
    attempt: Connecting,
    worker: &mut BridgeWorker,
    handle: &mut BridgeHandle,
    step: LoopStep,
    default: ClientConfig,
    tls: TlsSettings,
    built: EngineConfig,
)
    requires
        call_ensures(
            Endpoint::connect,
            (&endpoint, &state, addr, name),
            Ok::<(BridgeCommand, Connecting), ConnectError>((cmd, attempt)),
        ),
        call_ensures(BridgeWorker::on_event, (worker, handle, LoopEvent::Command(cmd)), step),
        call_ensures(build_client_tls_config, (&default,), tls),
        call_ensures(
            build_tquic_config,
            (&old(worker).endpoint_config, &*default.transport, tls, None::<&ServerConfig>),
            built,
        ),
    ensures
        !state@.endpoint_closed,
        step matches LoopStep::Call(EngineCall::Connect { local, remote, server_name, config }) && {
            &&& local == old(worker).local_addr
            &&& remote == addr
            &&& server_name@ == name@
            &&& old(worker).current_client_config is None ==> config is None
            &&& old(worker).current_client_config == Some(default) ==> {
                &&& config matches Some(c)
                &&& c.quic == built.quic
                &&& c.tls matches TlsSettings::Client { alpn_protocols, early_data, verify, ca_certs }
                &&& alpn_protocols.deep_view() == default.alpn_protocols.deep_view()
                &&& early_data == default.enable_early_data
                &&& verify == default.verify
                &&& ca_certs == default.ca_certs
            }
        },
        attempt@.conn_id is None,
        attempt@.awaiting_id,
        attempt@.remote_addr == addr,
        untouched(*old(worker), *final(worker), *old(handle), *final(handle)),
{
}

/// A connection that brings its own client configuration is started with that, whatever the default
/// is.
pub proof fn law_connection_is_started_with_its_config(
    endpoint: Endpoint,
    state: BridgeHandle,
    own: ClientConfig,
    addr: SocketAddr,
    name: &str,
    cmd: BridgeCommand,
    attempt: Connecting,
    worker: &mut BridgeWorker,
    handle: &mut BridgeHandle,
    step: LoopStep,
    tls: TlsSettings,
    built: EngineConfig,
)
    requires
        call_ensures(
            Endpoint::connect_with,
            (&endpoint, &state, own, addr, name),
            Ok::<(BridgeCommand, Connecting), ConnectError>((cmd, attempt)),
        ),
        call_ensures(BridgeWorker::on_event, (worker, handle, LoopEvent::Command(cmd)), step),
        call_ensures(build_client_tls_config, (&own,), tls),
        call_ensures(
            build_tquic_config,
            (&old(worker).endpoint_config, &*own.transport, tls, None::<&ServerConfig>),
            built,
        ),
    ensures
        !state@.endpoint_closed,
        step matches LoopStep::Call(EngineCall::Connect { local, remote, server_name, config }) && {
            &&& local == old(worker).local_addr
            &&& remote == addr
            &&& server_name@ == name@
            &&& config matches Some(c)
            &&& c.quic == built.quic
            &&& c.tls matches TlsSettings::Client { alpn_protocols, early_data, verify, ca_certs }
            &&& alpn_protocols.deep_view() == own.alpn_protocols.deep_view()
            &&& early_data == own.enable_early_data
            &&& verify == own.verify
            &&& ca_certs == own.ca_certs
        },
        attempt@.conn_id is None,
        attempt@.awaiting_id,
        attempt@.remote_addr == addr,
        untouched(*old(worker), *final(worker), *old(handle), *final(handle)),
{
}

/// Whichever client configuration a connection is started with, its connection ID length, stateless
/// reset, reset token key, address token lifetime and batch size are those of the endpoint that
/// starts it.
pub proof fn law_endpoint_settings_hold_for_every_connection(
    worker: &mut BridgeWorker,
    handle: &mut BridgeHandle,
    addr: SocketAddr,
    name: String,
    own: Option<ClientConfig>,
    call: EngineCall,
)
    requires
        call_ensures(
            BridgeWorker::process_command,
            (
                worker,
                handle,
                BridgeCommand::Connect { addr, server_name: name, client_config: own },
            ),
            call,
        ),
    ensures
        call matches EngineCall::Connect { config, .. } && {
            &&& config is Some <==> own is Some || old(worker).current_client_config is Some
            &&& config matches Some(c) ==> {
                &&& c.quic.cid_len == old(worker).endpoint_config.cid_len
                &&& c.quic.stateless_reset == old(worker).endpoint_config.stateless_reset
                &&& c.quic.reset_token_key == old(worker).endpoint_config.reset_token_key
                &&& c.quic.address_token_lifetime
                    == old(worker).endpoint_config.address_token_lifetime
                &&& c.quic.send_batch_size == old(worker).endpoint_config.send_batch_size
                &&& c.quic.enable_retry is None
            }
        },
{
}

/// A default client configuration that is set is the one that the next connection is started with,
/// and asks nothing of the engine by itself.
pub proof fn law_default_config_is_used_from_then_on(
    endpoint: Endpoint,
    config: ClientConfig,
    cmd: BridgeCommand,
    worker: &mut BridgeWorker,
    handle: &mut BridgeHandle,
    step: LoopStep,
)
    requires
        call_ensures(Endpoint::set_default_client_config, (&endpoint, config), cmd),
        call_ensures(BridgeWorker::on_event, (worker, handle, LoopEvent::Command(cmd)), step),
    ensures
        step matches LoopStep::Call(EngineCall::Nothing),
        final(worker).current_client_config == Some(config),
        final(worker).endpoint_config == old(worker).endpoint_config,
        final(worker).local_addr == old(worker).local_addr,
        final(handle)@ == old(handle)@,
{
}

/// A server configuration that is set asks the engine to serve with the configuration that it makes
/// up with the endpoint's own; none that is set asks it to serve no longer.
pub proof fn law_server_config_is_handed_over(
    endpoint: Endpoint,
    config: ServerConfig,
    cmd: BridgeCommand,
    worker: &mut BridgeWorker,
    handle: &mut BridgeHandle,
    step: LoopStep,
    tls: TlsSettings,
    built: EngineConfig,
    none: BridgeCommand,
    other_worker: &mut BridgeWorker,
    other_handle: &mut BridgeHandle,
    other_step: LoopStep,
)
    requires
        call_ensures(Endpoint::set_server_config, (&endpoint, Some(config)), cmd),
        call_ensures(BridgeWorker::on_event, (worker, handle, LoopEvent::Command(cmd)), step),
        call_ensures(build_server_tls_config, (&config,), tls),
        call_ensures(
            build_tquic_config,
            (&old(worker).endpoint_config, &*config.transport, tls, Some(&config)),
            built,
        ),
        call_ensures(Endpoint::set_server_config, (&endpoint, None::<ServerConfig>), none),
        call_ensures(
            BridgeWorker::on_event,
            (other_worker, other_handle, LoopEvent::Command(none)),
            other_step,
        ),
    ensures
        step matches LoopStep::Call(EngineCall::ServeWith { config: c }) && {
            &&& c.quic == built.quic
            &&& c.tls matches TlsSettings::Server { cert_file, key_file, alpn_protocols, early_data }
            &&& cert_file@ == config.cert_file@
            &&& key_file@ == config.key_file@
            &&& alpn_protocols.deep_view() == config.alpn_protocols.deep_view()
            &&& early_data == config.enable_early_data
        },
        other_step matches LoopStep::Call(EngineCall::StopServing),
        untouched(*old(worker), *final(worker), *old(handle), *final(handle)),
        untouched(
            *old(other_worker),
            *final(other_worker),
            *old(other_handle),
            *final(other_handle),
        ),
{
}

/// What the engine says of a connection that it was to start is what the attempt says: the ID that
/// it gave, for which the attempt waits on, or an error.
pub proof fn law_outcome_of_a_connect_comes_back(
    outcome: Result<u64, ConnectFailure>,
    reply: Result<u64, ConnectError>,
    attempt: &mut Connecting,
    handle: &mut BridgeHandle,
    step: ConnectingStep,
)
    requires
        old(handle)@.wf(),
        old(attempt)@.conn_id is None,
        old(attempt)@.awaiting_id,
        call_ensures(connect_reply, (outcome,), reply),
        call_ensures(Connecting::poll, (attempt, handle, Reply::Ready(reply)), step),
    ensures
        outcome matches Ok(id) ==> final(attempt)@.conn_id == Some(id),
        outcome matches Err(ConnectFailure::Config(failed, why)) ==> (
        step matches ConnectingStep::Ready(Err(ConnectionError::TransportError { code, reason }))
            && code == 0 && {
            &&& failed is Tls ==> reason@ == "TLS config error: "@ + why@
            &&& failed is CaCerts ==> reason@ == "CA cert error: "@ + why@
            &&& failed is Config ==> reason@ == "config error: "@ + why@
        }),
        outcome matches Err(ConnectFailure::Engine(e)) ==> {
            &&& e.kind matches EngineErrorKind::InvalidConfig(why) ==> (
            step matches ConnectingStep::Ready(Err(x)) && x@
                == (ConnectionErrorView::TransportError { code: 0, reason: why@ }))
            &&& !(e.kind is InvalidConfig) ==> (step matches ConnectingStep::Ready(Err(x)) && x@
                == ConnectionErrorView::LocallyClosed)
        },
{
}

/// The round-trip time of a connection is looked up on the very connection, and is the smoothed one
/// of its first path, in microseconds; zero without a path or an answer.
pub proof fn law_round_trip_time_is_looked_up(
    conn: Connection,
    cmd: BridgeCommand,
    worker: &mut BridgeWorker,
    handle: &mut BridgeHandle,
    step: LoopStep,
    paths: Option<Vec<FourTuple>>,
    start: RttStep,
    srtt: Option<u64>,
    reply: Option<Duration>,
    rtt: Duration,
    alone: Duration,
    dropped: Duration,
)
    requires
        call_ensures(Connection::rtt, (&conn,), cmd),
        call_ensures(BridgeWorker::on_event, (worker, handle, LoopEvent::Command(cmd)), step),
        call_ensures(rtt_start, (paths,), start),
        call_ensures(rtt_reply, (srtt,), reply),
        call_ensures(Connection::rtt_from, (Some(reply),), rtt),
        start matches RttStep::Reply(answer) ==> call_ensures(
            Connection::rtt_from,
            (Some(answer),),
            alone,
        ),
        call_ensures(Connection::rtt_from, (None::<Option<Duration>>,), dropped),
    ensures
        step matches LoopStep::Call(EngineCall::MeasureRtt { conn_id }) && conn_id == conn@,
        paths matches Some(list) && list@.len() > 0 ==> start == RttStep::Ask(paths->0@[0]),
        paths is None || paths->0@.len() == 0 ==> start is Reply && alone@ == 0,
        srtt matches Some(micros) ==> rtt@ == micros * 1_000,
        srtt is None ==> rtt@ == 0,
        dropped@ == 0,
        untouched(*old(worker), *final(worker), *old(handle), *final(handle)),
{
}

/// To add, abandon and move to a path are handed to the engine as just that, on the very connection
/// and with the two ends in their places.
pub proof fn law_path_changes_are_handed_over(
    conn: Connection,
    here: SocketAddr,
    there: SocketAddr,
    added: BridgeCommand,
    abandoned: BridgeCommand,
    migrated: BridgeCommand,
    asked: BridgeCommand,
    listed: BridgeCommand,
    worker: &mut BridgeWorker,
    handle: &mut BridgeHandle,
    cmd: BridgeCommand,
    step: LoopStep,
)
    requires
        call_ensures(<Connection as ConnectionExt>::add_path, (&conn, here, there), added),
        call_ensures(<Connection as ConnectionExt>::abandon_path, (&conn, here, there), abandoned),
        call_ensures(<Connection as ConnectionExt>::migrate_path, (&conn, here, there), migrated),
        call_ensures(<Connection as ConnectionExt>::path_stats, (&conn, here, there), asked),
        call_ensures(<Connection as ConnectionExt>::paths, (&conn,), listed),
        call_ensures(BridgeWorker::on_event, (worker, handle, LoopEvent::Command(cmd)), step),
        cmd == added || cmd == abandoned || cmd == migrated || cmd == asked || cmd == listed,
    ensures
        cmd == added ==> (step matches LoopStep::Call(
            EngineCall::ChangePath { conn_id, op, local, remote },
        ) && conn_id == conn@ && op is Add && local == here && remote == there),
        cmd == abandoned ==> (step matches LoopStep::Call(
            EngineCall::ChangePath { conn_id, op, local, remote },
        ) && conn_id == conn@ && op is Abandon && local == here && remote == there),
        cmd == migrated ==> (step matches LoopStep::Call(
            EngineCall::ChangePath { conn_id, op, local, remote },
        ) && conn_id == conn@ && op is Migrate && local == here && remote == there),
        cmd == asked ==> (step matches LoopStep::Call(
            EngineCall::PathStats { conn_id, local, remote },
        ) && conn_id == conn@ && local == here && remote == there),
        cmd == listed ==> (step matches LoopStep::Call(EngineCall::Paths { conn_id }) && conn_id
            == conn@),
        untouched(*old(worker), *final(worker), *old(handle), *final(handle)),
{
}

/// What the engine says of a path operation is what the operation says: success, or an error with
/// the operation's name before the engine's text, or that there is no such connection.
pub proof fn law_outcome_of_a_path_change_comes_back(
    op: PathOp,
    outcome: Option<Result<(), EngineError>>,
    reply: Result<(), ConnectionError>,
    result: Result<(), ConnectionError>,
    dropped: Result<(), ConnectionError>,
)
    requires
        call_ensures(change_path_reply, (op, outcome), reply),
        call_ensures(path_answer::<()>, (Some(reply),), result),
        call_ensures(path_answer::<()>, (None::<Result<(), ConnectionError>>,), dropped),
    ensures
        outcome matches Some(Ok(())) ==> result is Ok,
        outcome matches Some(Err(e)) ==> (result matches Err(
            ConnectionError::TransportError { code, reason },
        ) && code == 0 && {
            &&& op is Add ==> reason@ == "add_path: "@ + e.text@
            &&& op is Abandon ==> reason@ == "abandon_path: "@ + e.text@
            &&& op is Migrate ==> reason@ == "migrate_path: "@ + e.text@
        }),
        outcome is None ==> (result matches Err(e) && e@ == ConnectionErrorView::LocallyClosed),
        dropped matches Err(e) && e@ == ConnectionErrorView::LocallyClosed,
{
}

/// The statistics and the list of the paths come back as the engine gives them.
pub proof fn law_paths_come_back(
    stats: Option<Result<PathStats, EngineError>>,
    stats_reply: Result<PathStats, ConnectionError>,
    stats_result: Result<PathStats, ConnectionError>,
    paths: Option<Vec<FourTuple>>,
    list_reply: Result<Vec<FourTuple>, ConnectionError>,
    list_result: Result<Vec<FourTuple>, ConnectionError>,
)
    requires
        call_ensures(path_stats_reply, (stats,), stats_reply),
        call_ensures(path_answer::<PathStats>, (Some(stats_reply),), stats_result),
        call_ensures(paths_reply, (paths,), list_reply),
        call_ensures(path_answer::<Vec<FourTuple>>, (Some(list_reply),), list_result),
    ensures
        stats matches Some(Ok(s)) ==> stats_result == Ok::<PathStats, ConnectionError>(s),
        stats matches Some(Err(e)) ==> (stats_result matches Err(
            ConnectionError::TransportError { code, reason },
        ) && code == 0 && reason@ == "get_path_stats: "@ + e.text@),
        stats is None ==> (stats_result matches Err(e) && e@ == ConnectionErrorView::LocallyClosed),
        paths matches Some(list) ==> list_result == Ok::<Vec<FourTuple>, ConnectionError>(list),
        paths is None ==> (list_result matches Err(e) && e@ == ConnectionErrorView::LocallyClosed),
{
}

/// A packet is handed to the engine with its length and sender, as received at the address that the
/// endpoint is bound to; the end of the commands and of the socket stop the engine by force; and
/// nothing but a command changes what the thread keeps or what is shared.
pub proof fn law_other_events_are_handed_over(
    worker: &mut BridgeWorker,
    handle: &mut BridgeHandle,
    event: LoopEvent,
    step: LoopStep,
)
    requires
        !(event is Command),
        call_ensures(BridgeWorker::on_event, (worker, handle, event), step),
    ensures
        event matches LoopEvent::Packet { len: n, peer } ==> (step matches LoopStep::Receive {
            len,
            src,
            dst,
        } && len == n && src == peer && dst == old(worker).local_addr),
        event is ReceiveError ==> step is Process,
        event is Timeout ==> step is OnTimeout,
        event is CommandsEnded || event is NoSocket ==> (step matches LoopStep::Stop { force }
            && force),
        untouched(*old(worker), *final(worker), *old(handle), *final(handle)),
{
}

/// The thread waits as long as the engine says, and a tenth of a second where it says nothing.
pub proof fn law_wait_is_the_engines(engine: Option<Duration>, wait: Duration)
    requires
        call_ensures(BridgeWorker::timeout, (engine,), wait),
    ensures
        engine matches Some(d) ==> wait@ == d@,
        engine is None ==> wait@ * 10 == 1_000_000_000,
{
}

} // verus!
