//! What commands ask of the engine, and what its answers come to.
use std::sync::Arc;

use bytes::Bytes;

use tokio_tquic::addr::{FourTuple, SocketAddr};
use tokio_tquic::bridge::{BridgeHandle, BridgeTransportHandler, CreatedConn};
use tokio_tquic::command::{
    change_path_reply, connect_reply, open_stream_reply, path_stats_reply, paths_reply,
    read_buffer, rtt_reply, rtt_start, stream_read_reply, stream_write_reply, BridgeCommand,
    BridgeWorker, ConnectFailure, EngineCall, PathOp, RttStep, Shutdown,
};
use tokio_tquic::config::{ConfigStep, TlsSettings};
use tokio_tquic::engine::{EngineError, EngineErrorKind, PathStats};
use tokio_tquic::ext::connection::path_answer;
use tokio_tquic::ext::ConnectionExt;
use tokio_tquic::time::Duration;
use tokio_tquic::worker::{LoopEvent, LoopStep, PacketSender, SendFailure, SendOutcome};
use tokio_tquic::{
    ConnectError, Connection, ConnectionError, Dir, Endpoint, EndpointConfig, ReadError,
    ServerConfig, TransportConfig, VarInt, WriteError,
};

fn localhost(port: u16) -> SocketAddr {
    SocketAddr::V4 { octets: [127, 0, 0, 1], port }
}

fn bridge() -> (BridgeHandle, BridgeWorker) {
    let handle = BridgeHandle::new(localhost(1));
    let worker = BridgeWorker {
        endpoint_config: EndpointConfig::new(),
        current_client_config: None,
        local_addr: localhost(1),
    };
    (handle, worker)
}

fn call(cmd: BridgeCommand) -> EngineCall {
    let (mut handle, mut worker) = bridge();
    worker.process_command(&mut handle, cmd)
}

fn engine_error(kind: EngineErrorKind) -> EngineError {
    EngineError { kind, text: "engine text".to_string() }
}

#[test]
fn commands_are_described() {
    let describe = |cmd: BridgeCommand| cmd.describe();
    assert_eq!(
        describe(BridgeCommand::Connect {
            addr: localhost(80),
            server_name: "example".to_string(),
            client_config: None,
        }),
        "Connect(127.0.0.1:80, example)".to_string()
    );
    assert_eq!(
        describe(BridgeCommand::CloseEndpoint { error_code: 1, reason: vec![] }),
        "CloseEndpoint".to_string()
    );
    assert_eq!(
        describe(BridgeCommand::CloseConnection { conn_id: 3, error_code: 1, reason: vec![] }),
        "CloseConnection(3)".to_string()
    );
    assert_eq!(
        describe(BridgeCommand::OpenBiStream { conn_id: 4 }),
        "OpenBiStream(4)".to_string()
    );
    assert_eq!(
        describe(BridgeCommand::OpenUniStream { conn_id: 5 }),
        "OpenUniStream(5)".to_string()
    );
    assert_eq!(
        describe(BridgeCommand::StreamWrite {
            conn_id: 6,
            stream_id: 7,
            data: Bytes::new(),
            fin: true,
        }),
        "StreamWrite(6, 7)".to_string()
    );
    assert_eq!(
        describe(BridgeCommand::StreamRead { conn_id: 8, stream_id: 9, max_len: 1 }),
        "StreamRead(8, 9)".to_string()
    );
    assert_eq!(
        describe(BridgeCommand::AcceptIncoming),
        "tokio_tquic::bridge::BridgeCommand".to_string()
    );
    assert_eq!(
        describe(BridgeCommand::GetRtt { conn_id: 1 }),
        "tokio_tquic::bridge::BridgeCommand".to_string()
    );
}

#[test]
fn connect_without_any_configuration_uses_the_endpoints() {
    let cmd = BridgeCommand::Connect {
        addr: localhost(80),
        server_name: "example".to_string(),
        client_config: None,
    };
    match call(cmd) {
        EngineCall::Connect { local, remote, server_name, config } => {
            assert_eq!(local, localhost(1));
            assert_eq!(remote, localhost(80));
            assert_eq!(server_name, "example");
            assert!(config.is_none());
        }
        _ => panic!("not a connect call"),
    }
}

#[test]
fn server_configuration_is_replaced() {
    let mut endpoint_config = EndpointConfig::new();
    endpoint_config.cid_len(12);
    let server = |name: &str, retry: bool, streams: u64| {
        let mut transport = TransportConfig::new();
        transport.max_concurrent_bidi_streams(streams);
        let mut config = ServerConfig::new(
            format!("{name}.crt"),
            format!("{name}.key"),
            vec![name.as_bytes().to_vec()],
        );
        config.transport_config(Arc::new(transport)).enable_retry(retry).enable_early_data(retry);
        config
    };
    let start = |config| Endpoint::new(endpoint_config, Some(config), localhost(0));
    let mut worker = start(server("old", false, 3)).setup(localhost(1)).worker;
    let mut handle = BridgeHandle::new(localhost(1));
    let cmd = Endpoint.set_server_config(Some(server("new", true, 9)));
    let config = match worker.process_command(&mut handle, cmd) {
        EngineCall::ServeWith { config } => config,
        _ => panic!("not a new configuration"),
    };
    assert_eq!(config.quic.cid_len, 12);
    assert_eq!(config.quic.initial_max_streams_bidi, 9);
    assert_eq!(config.quic.enable_retry, Some(true));
    match config.tls {
        TlsSettings::Server { cert_file, key_file, alpn_protocols, early_data } => {
            assert_eq!(cert_file, "new.crt");
            assert_eq!(key_file, "new.key");
            assert_eq!(alpn_protocols, vec![b"new".to_vec()]);
            assert!(early_data);
        }
        _ => panic!("not a server's TLS settings"),
    }
    // An endpoint that starts with the configuration has the same settings.
    let fresh = start(server("new", true, 9)).setup(localhost(1)).engine_config;
    assert_eq!(fresh.quic.initial_max_streams_bidi, config.quic.initial_max_streams_bidi);
    assert_eq!(fresh.quic.enable_retry, config.quic.enable_retry);
}

#[test]
fn commands_become_engine_calls() {
    assert!(matches!(call(Endpoint.set_server_config(None)), EngineCall::StopServing));
    assert!(matches!(call(BridgeCommand::AcceptIncoming), EngineCall::Nothing));
    match call(BridgeCommand::RefuseIncoming { conn_id: 5 }) {
        EngineCall::CloseConnection { conn_id, app, error_code, reason } => {
            assert_eq!(conn_id, 5);
            assert!(!app);
            assert_eq!(error_code, 0x02);
            assert_eq!(reason, b"refused");
        }
        _ => panic!("not a close call"),
    }
    match call(Connection::new(5).close(VarInt::from(9u32), b"bye")) {
        EngineCall::CloseConnection { conn_id, app, error_code, reason } => {
            assert_eq!(conn_id, 5);
            assert!(app);
            assert_eq!(error_code, 9);
            assert_eq!(reason, b"bye");
        }
        _ => panic!("not a close call"),
    }
    assert!(matches!(
        call(BridgeCommand::OpenBiStream { conn_id: 5 }),
        EngineCall::OpenStream { conn_id: 5, dir: Dir::Bi, urgency: 0, incremental: false }
    ));
    assert!(matches!(
        call(BridgeCommand::OpenUniStream { conn_id: 5 }),
        EngineCall::OpenStream { conn_id: 5, dir: Dir::Uni, urgency: 0, incremental: false }
    ));
    let data = Bytes::copy_from_slice(b"abc");
    match call(BridgeCommand::StreamWrite { conn_id: 5, stream_id: 8, data, fin: true }) {
        EngineCall::StreamWrite { conn_id, stream_id, data, fin } => {
            assert_eq!((conn_id, stream_id, fin), (5, 8, true));
            assert_eq!(&data[..], b"abc");
        }
        _ => panic!("not a write call"),
    }
    assert!(matches!(
        call(BridgeCommand::StreamRead { conn_id: 5, stream_id: 8, max_len: 77 }),
        EngineCall::StreamRead { conn_id: 5, stream_id: 8, max_len: 77 }
    ));
    assert!(matches!(
        call(BridgeCommand::StreamShutdownRead { conn_id: 5, stream_id: 8, error_code: 6 }),
        EngineCall::StreamShutdown {
            conn_id: 5,
            stream_id: 8,
            side: Shutdown::Read,
            error_code: 6
        }
    ));
    assert!(matches!(
        call(BridgeCommand::StreamShutdownWrite { conn_id: 5, stream_id: 8, error_code: 6 }),
        EngineCall::StreamShutdown {
            conn_id: 5,
            stream_id: 8,
            side: Shutdown::Write,
            error_code: 6
        }
    ));
    assert!(matches!(
        call(BridgeCommand::StreamSetPriority { conn_id: 5, stream_id: 8, urgency: 3 }),
        EngineCall::StreamSetPriority { conn_id: 5, stream_id: 8, urgency: 3, incremental: false }
    ));
    assert!(matches!(call(Connection::new(5).rtt()), EngineCall::MeasureRtt { conn_id: 5 }));
}

#[test]
fn path_commands_become_engine_calls() {
    let conn = Connection::new(5);
    let (a, b) = (localhost(10), localhost(20));
    let change = |cmd: BridgeCommand| match call(cmd) {
        EngineCall::ChangePath { conn_id, op, local, remote } => {
            assert_eq!(conn_id, 5);
            assert_eq!(local, localhost(10));
            assert_eq!(remote, localhost(20));
            op
        }
        _ => panic!("not a path call"),
    };
    assert_eq!(change(conn.add_path(a, b)), PathOp::Add);
    assert_eq!(change(conn.abandon_path(a, b)), PathOp::Abandon);
    assert_eq!(change(conn.migrate_path(a, b)), PathOp::Migrate);
    match call(conn.path_stats(a, b)) {
        EngineCall::PathStats { conn_id, local, remote } => {
            assert_eq!(conn_id, 5);
            assert_eq!(local, a);
            assert_eq!(remote, b);
        }
        _ => panic!("not a path call"),
    }
    assert!(matches!(call(conn.paths()), EngineCall::Paths { conn_id: 5 }));
}

#[test]
fn endpoint_close_lists_every_connection_once() {
    let (mut handle, mut worker) = bridge();
    let handler = BridgeTransportHandler { is_server: false, retry: false };
    for id in [4, 9, 2, 9] {
        let conn = CreatedConn { index: Some(id), remote: None, is_server: false };
        handler.on_conn_created(&mut handle, conn);
    }
    assert!(!handle.endpoint_closed());
    match worker.process_command(&mut handle, Endpoint.close(VarInt::from(1u32), b"end")) {
        EngineCall::CloseEndpoint { mut conn_ids, app, error_code, reason, force } => {
            conn_ids.sort();
            assert_eq!(conn_ids, vec![2, 4, 9]);
            assert!(app);
            assert_eq!(error_code, 1);
            assert_eq!(reason, b"end");
            assert!(!force);
        }
        _ => panic!("not a close call"),
    }
    assert!(handle.endpoint_closed());
}

#[test]
fn connect_is_answered() {
    assert_eq!(connect_reply(Ok(3)), Ok(3));
    let failed = ConnectFailure::Config(ConfigStep::Tls, "why".to_string());
    assert_eq!(
        connect_reply(Err(failed)),
        Err(ConnectError::InvalidDnsName("TLS config error: why".to_string()))
    );
    let invalid = engine_error(EngineErrorKind::InvalidConfig("bad".to_string()));
    assert_eq!(
        connect_reply(Err(ConnectFailure::Engine(invalid))),
        Err(ConnectError::InvalidDnsName("bad".to_string()))
    );
    let other = engine_error(EngineErrorKind::Other);
    assert_eq!(
        connect_reply(Err(ConnectFailure::Engine(other))),
        Err(ConnectError::EndpointStopping)
    );
}

#[test]
fn stream_commands_are_answered() {
    assert_eq!(open_stream_reply(Some(Ok(4))), Ok(4));
    let e = engine_error(EngineErrorKind::Other);
    assert_eq!(open_stream_reply(Some(Err(e))), Err(ConnectionError::LocallyClosed));
    assert_eq!(open_stream_reply(None), Err(ConnectionError::LocallyClosed));

    assert_eq!(stream_write_reply(Some(Ok(12))), Ok(12));
    let done = || engine_error(EngineErrorKind::Done);
    assert_eq!(stream_write_reply(Some(Err(done()))), Ok(0));
    let stopped = engine_error(EngineErrorKind::StreamStopped(0x1_0000_0007));
    assert_eq!(
        stream_write_reply(Some(Err(stopped))),
        Err(WriteError::Stopped(VarInt::from_u64(0x1_0000_0007).unwrap()))
    );
    let stopped = engine_error(EngineErrorKind::StreamStopped(u64::MAX));
    assert_eq!(
        stream_write_reply(Some(Err(stopped))),
        Err(WriteError::Stopped(VarInt::max()))
    );
    let other = engine_error(EngineErrorKind::Other);
    assert_eq!(stream_write_reply(Some(Err(other))), Err(WriteError::ClosedStream));
    assert_eq!(
        stream_write_reply(None),
        Err(WriteError::ConnectionLost(ConnectionError::LocallyClosed))
    );

    assert_eq!(read_buffer(3), vec![0, 0, 0]);
    let buf = || vec![1, 2, 3];
    assert_eq!(stream_read_reply(buf(), Some(Ok((2, true)))), Ok((vec![1, 2], true)));
    assert_eq!(stream_read_reply(buf(), Some(Ok((9, false)))), Ok((vec![1, 2, 3], false)));
    assert_eq!(stream_read_reply(buf(), Some(Err(done()))), Ok((vec![], false)));
    let reset = engine_error(EngineErrorKind::StreamReset(0x2_0000_0009));
    assert_eq!(
        stream_read_reply(buf(), Some(Err(reset))),
        Err(ReadError::Reset(VarInt::from_u64(0x2_0000_0009).unwrap()))
    );
    let reset = engine_error(EngineErrorKind::StreamReset(1 << 62));
    assert_eq!(
        stream_read_reply(buf(), Some(Err(reset))),
        Err(ReadError::Reset(VarInt::max()))
    );
    let other = engine_error(EngineErrorKind::Other);
    assert_eq!(stream_read_reply(buf(), Some(Err(other))), Err(ReadError::ClosedStream));
    assert_eq!(
        stream_read_reply(buf(), None),
        Err(ReadError::ConnectionLost(ConnectionError::LocallyClosed))
    );
}

#[test]
fn rtt_is_answered() {
    let path = FourTuple { local: localhost(1), remote: localhost(2) };
    let other = FourTuple { local: localhost(3), remote: localhost(4) };
    assert_eq!(rtt_start(None), RttStep::Reply(None));
    assert_eq!(rtt_start(Some(vec![])), RttStep::Reply(Some(Duration::from_millis(0))));
    assert_eq!(rtt_start(Some(vec![path, other])), RttStep::Ask(path));
    assert_eq!(rtt_reply(None), None);
    assert_eq!(rtt_reply(Some(1_500)), Some(Duration::from_micros(1_500)));
    assert_eq!(Connection::rtt_from(None), Duration::from_millis(0));
    assert_eq!(Connection::rtt_from(Some(None)), Duration::from_millis(0));
    let rtt = Duration::from_millis(12);
    assert_eq!(Connection::rtt_from(Some(Some(rtt))), rtt);
}

fn stats() -> PathStats {
    PathStats {
        recv_count: 1,
        recv_bytes: 2,
        sent_count: 3,
        sent_bytes: 4,
        lost_count: 5,
        lost_bytes: 6,
        acked_count: 7,
        acked_bytes: 8,
        init_cwnd: 9,
        final_cwnd: 10,
        max_cwnd: 11,
        min_cwnd: 12,
        max_inflight: 13,
        loss_event_count: 14,
        cwnd_limited_count: 15,
        cwnd_limited_duration: 16,
        min_rtt: 17,
        max_rtt: 18,
        srtt: 19,
        rttvar: 20,
        in_slow_start: true,
        pacing_rate: 21,
        min_pacing_rate: 22,
        pto_count: 23,
    }
}

#[test]
fn path_commands_are_answered() {
    let failed = |text: &str| ConnectionError::TransportError { code: 0, reason: text.to_string() };
    let error = || engine_error(EngineErrorKind::Other);
    assert_eq!(change_path_reply(PathOp::Add, Some(Ok(()))), Ok(()));
    assert_eq!(
        change_path_reply(PathOp::Add, Some(Err(error()))),
        Err(failed("add_path: engine text"))
    );
    assert_eq!(
        change_path_reply(PathOp::Abandon, Some(Err(error()))),
        Err(failed("abandon_path: engine text"))
    );
    assert_eq!(
        change_path_reply(PathOp::Migrate, Some(Err(error()))),
        Err(failed("migrate_path: engine text"))
    );
    assert_eq!(change_path_reply(PathOp::Add, None), Err(ConnectionError::LocallyClosed));
    assert_eq!(path_stats_reply(Some(Ok(stats()))), Ok(stats()));
    assert_eq!(
        path_stats_reply(Some(Err(error()))),
        Err(failed("get_path_stats: engine text"))
    );
    assert_eq!(path_stats_reply(None), Err(ConnectionError::LocallyClosed));
    let path = FourTuple { local: localhost(1), remote: localhost(2) };
    assert_eq!(paths_reply(Some(vec![path])), Ok(vec![path]));
    assert_eq!(paths_reply(None), Err(ConnectionError::LocallyClosed));
    assert_eq!(path_answer(Some(Ok(7))), Ok(7));
    assert_eq!(path_answer::<u8>(Some(Err(ConnectionError::Reset))), Err(ConnectionError::Reset));
    assert_eq!(path_answer::<u8>(None), Err(ConnectionError::LocallyClosed));
}

#[test]
fn events_of_the_loop_bring_on_steps() {
    let (mut handle, mut worker) = bridge();
    match worker.on_event(&mut handle, LoopEvent::Packet { len: 1200, peer: localhost(7) }) {
        LoopStep::Receive { len, src, dst } => {
            assert_eq!(len, 1200);
            assert_eq!(src, localhost(7));
            assert_eq!(dst, localhost(1));
        }
        _ => panic!("not a receive step"),
    }
    assert!(matches!(worker.on_event(&mut handle, LoopEvent::ReceiveError), LoopStep::Process));
    assert!(matches!(
        worker.on_event(&mut handle, LoopEvent::Command(BridgeCommand::GetRtt { conn_id: 1 })),
        LoopStep::Call(EngineCall::MeasureRtt { conn_id: 1 })
    ));
    assert!(matches!(worker.on_event(&mut handle, LoopEvent::Timeout), LoopStep::OnTimeout));
    assert!(matches!(
        worker.on_event(&mut handle, LoopEvent::CommandsEnded),
        LoopStep::Stop { force: true }
    ));
    assert!(matches!(
        worker.on_event(&mut handle, LoopEvent::NoSocket),
        LoopStep::Stop { force: true }
    ));
    assert_eq!(BridgeWorker::timeout(None), Duration::from_millis(100));
    assert_eq!(BridgeWorker::timeout(Some(Duration::from_secs(2))), Duration::from_secs(2));
}

#[test]
fn packets_are_sent_in_order() {
    assert!(matches!(PacketSender::on_packets_send(false, 3), Err(SendFailure::NoSocket)));

    let mut batch = PacketSender::on_packets_send(true, 2).unwrap();
    assert_eq!(batch.next(), Some(0));
    batch.on_outcome(SendOutcome::Sent).unwrap();
    assert_eq!(batch.next(), Some(1));
    batch.on_outcome(SendOutcome::Sent).unwrap();
    assert_eq!(batch.next(), None);
    assert_eq!(batch.count(), 2);

    let mut batch = PacketSender::on_packets_send(true, 3).unwrap();
    batch.on_outcome(SendOutcome::Sent).unwrap();
    batch.on_outcome(SendOutcome::WouldBlock).unwrap();
    assert_eq!(batch.next(), None);
    assert_eq!(batch.count(), 1);

    let mut batch = PacketSender::on_packets_send(true, 1).unwrap();
    match batch.on_outcome(SendOutcome::Failed("unreachable".to_string())) {
        Err(SendFailure::Io(message)) => assert_eq!(message, "send_to: unreachable"),
        _ => panic!("not an error"),
    }
}
