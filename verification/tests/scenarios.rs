//! A client and a server endpoint, with a simple engine between them that carries bytes from one
//! to the other.
use std::sync::Arc;

use tokio_tquic::addr::SocketAddr;
use tokio_tquic::bridge::{BridgeHandle, BridgeTransportHandler, ClosedConn, CreatedConn};
use tokio_tquic::command::{
    connect_reply, open_stream_reply, read_buffer, stream_read_reply, stream_write_reply,
    BridgeCommand, BridgeWorker, EngineCall, Shutdown,
};
use tokio_tquic::config::TlsSettings;
use tokio_tquic::connection::{ClosedStep, ConnectingStep, StreamWait};
use tokio_tquic::endpoint::AcceptStep;
use tokio_tquic::engine::{EngineClose, EngineError, EngineErrorKind};
use tokio_tquic::recv_stream::{ReadAnswer, ReadStart, ReadStep, READ_CHUNK};
use tokio_tquic::send_stream::WriteStep;
use tokio_tquic::time::Duration;
use tokio_tquic::types::{Poll, Reply};
use tokio_tquic::worker::Bridge;
use tokio_tquic::{
    ClientConfig, ConnectError, Connecting, Connection, ConnectionError, Dir, Endpoint,
    EndpointConfig, Incoming, ReadError, RecvStream, SendStream, ServerConfig, Side,
    TransportConfig, VarInt, WriteError,
};

const ALPN: &[u8] = b"test-proto";

fn localhost(port: u16) -> SocketAddr {
    SocketAddr::V4 { octets: [127, 0, 0, 1], port }
}

fn server_config() -> ServerConfig {
    let mut transport = TransportConfig::new();
    transport.max_idle_timeout(Some(Duration::from_secs(10)));
    let mut config = ServerConfig::new(
        "cert.pem".to_string(),
        "key.pem".to_string(),
        vec![ALPN.to_vec()],
    );
    config.transport_config(Arc::new(transport));
    config
}

fn client_config() -> ClientConfig {
    let mut transport = TransportConfig::new();
    transport.max_idle_timeout(Some(Duration::from_secs(10)));
    let mut config = ClientConfig::new(vec![ALPN.to_vec()]);
    config.verify(false);
    config.transport_config(Arc::new(transport));
    config
}

/// An endpoint with its bridge.
struct Node {
    handle: BridgeHandle,
    handler: BridgeTransportHandler,
    worker: BridgeWorker,
    addr: SocketAddr,
    next_conn: u64,
}

impl Node {
    fn spawn(bridge: Bridge, addr: SocketAddr) -> Node {
        let setup = bridge.setup(addr);
        Node {
            handle: BridgeHandle::new(addr),
            handler: setup.handler,
            worker: setup.worker,
            addr,
            next_conn: 0,
        }
    }

    fn command(&mut self, cmd: BridgeCommand) -> EngineCall {
        self.worker.process_command(&mut self.handle, cmd)
    }

    fn created(&mut self, remote: SocketAddr, is_server: bool) -> u64 {
        let id = self.next_conn;
        self.next_conn += 1;
        let conn = CreatedConn { index: Some(id), remote: Some(remote), is_server };
        assert_eq!(self.handler.on_conn_created(&mut self.handle, conn), is_server);
        id
    }

    fn accept(&mut self) -> Option<Incoming> {
        match Endpoint.accept().poll(&mut self.handle, false) {
            AcceptStep::Ready(incoming) => incoming,
            AcceptStep::Wait => panic!("nothing to accept"),
        }
    }

    fn established(&mut self, id: u64) -> Option<usize> {
        self.handler.on_conn_established(&mut self.handle, Some(id))
    }

    fn closed(&mut self, id: u64, peer: Option<EngineClose>, local: Option<EngineClose>) {
        self.handler.on_conn_closed(
            &mut self.handle,
            ClosedConn {
                index: Some(id),
                peer_error: peer,
                local_error: local,
                is_idle_timeout: false,
                is_handshake_timeout: false,
                is_reset: false,
            },
        );
    }
}

fn endpoints() -> (Node, Node) {
    let server = Node::spawn(Endpoint::server(server_config(), localhost(0)), localhost(4433));
    let mut client = Node::spawn(Endpoint::client(localhost(0)), localhost(50000));
    let call = client.command(Endpoint.set_default_client_config(client_config()));
    assert!(matches!(call, EngineCall::Nothing));
    (server, client)
}

fn finish_handshake(node: &mut Node, connecting: &mut Connecting) -> Connection {
    match connecting.poll(&mut node.handle, Reply::Pending) {
        ConnectingStep::Ready(result) => result.expect("handshake"),
        _ => panic!("handshake is not complete"),
    }
}

/// Connects, from `connect` to both sides having their connection.
fn establish(server: &mut Node, client: &mut Node) -> (Connection, Connection) {
    let (cmd, mut connecting) =
        Endpoint.connect(&client.handle, server.addr, "localhost").expect("connect");
    match client.command(cmd) {
        EngineCall::Connect { local, remote, server_name, config } => {
            assert_eq!(local, client.addr);
            assert_eq!(remote, server.addr);
            assert_eq!(server_name, "localhost");
            assert!(config.is_some());
        }
        _ => panic!("not a connect call"),
    }
    assert!(connecting.needs_id());
    let client_id = client.created(server.addr, false);
    let step = connecting.poll(&mut client.handle, Reply::Ready(connect_reply(Ok(client_id))));
    assert!(matches!(step, ConnectingStep::AwaitHandshake(_)));

    let server_id = server.created(client.addr, true);
    let incoming = server.accept().expect("accept");
    let (cmd, mut accepted) = incoming.accept(&mut server.handle).expect("incoming.accept");
    assert!(matches!(server.command(cmd), EngineCall::Nothing));

    client.established(client_id);
    server.established(server_id);
    (finish_handshake(server, &mut accepted), finish_handshake(client, &mut connecting))
}

/// What the engine holds of one direction of a stream.
struct Wire {
    stream_id: u64,
    bytes: Vec<u8>,
    fin: bool,
    reset: Option<u64>,
    stopped: Option<u64>,
}

impl Wire {
    fn new(stream_id: u64) -> Wire {
        Wire { stream_id, bytes: Vec::new(), fin: false, reset: None, stopped: None }
    }
}

fn engine_error(kind: EngineErrorKind) -> EngineError {
    EngineError { kind, text: String::new() }
}

/// Writes on the stream, with an engine that takes so many bytes at a time at most.
fn engine_write(
    node: &mut Node,
    cmd: BridgeCommand,
    wire: &mut Wire,
    most: usize,
) -> Result<usize, WriteError> {
    match node.command(cmd) {
        EngineCall::StreamWrite { conn_id: _, stream_id, data, fin } => {
            assert_eq!(stream_id, wire.stream_id);
            if let Some(code) = wire.stopped {
                let e = engine_error(EngineErrorKind::StreamStopped(code));
                return stream_write_reply(Some(Err(e)));
            }
            let n = data.len().min(most);
            wire.bytes.extend_from_slice(&data[..n]);
            wire.fin = wire.fin || fin;
            stream_write_reply(Some(Ok(n)))
        }
        _ => panic!("not a write call"),
    }
}

fn engine_read(node: &mut Node, cmd: BridgeCommand, wire: &mut Wire) -> ReadAnswer {
    match node.command(cmd) {
        EngineCall::StreamRead { conn_id: _, stream_id, max_len } => {
            assert_eq!(stream_id, wire.stream_id);
            let mut buf = read_buffer(max_len);
            if let Some(code) = wire.reset {
                let e = engine_error(EngineErrorKind::StreamReset(code));
                return Some(stream_read_reply(buf, Some(Err(e))));
            }
            if wire.bytes.is_empty() && !wire.fin {
                let e = engine_error(EngineErrorKind::Done);
                return Some(stream_read_reply(buf, Some(Err(e))));
            }
            let n = wire.bytes.len().min(max_len);
            buf[..n].copy_from_slice(&wire.bytes[..n]);
            wire.bytes.drain(..n);
            let fin = wire.fin && wire.bytes.is_empty();
            Some(stream_read_reply(buf, Some(Ok((n, fin)))))
        }
        _ => panic!("not a read call"),
    }
}

fn write(
    node: &mut Node,
    send: &SendStream,
    buf: &[u8],
    wire: &mut Wire,
) -> Result<usize, WriteError> {
    let cmd = send.write(buf)?;
    let answer = engine_write(node, cmd, wire, 1000);
    match SendStream::on_write_answer(Some(answer)) {
        WriteStep::Done(result) => result,
        WriteStep::WaitWritable => panic!("engine took nothing"),
    }
}

fn write_all(
    node: &mut Node,
    send: &SendStream,
    buf: &[u8],
    wire: &mut Wire,
) -> Result<(), WriteError> {
    let mut op = send.write_all(buf);
    while let Some(start) = op.next() {
        let n = write(node, send, &buf[start..], wire)?;
        op.wrote(n);
    }
    Ok(())
}

fn finish(node: &mut Node, send: &mut SendStream, wire: &mut Wire) {
    let cmd = send.finish().expect("finish");
    assert_eq!(engine_write(node, cmd, wire, 0), Ok(0));
    assert!(wire.fin);
}

fn read(
    node: &mut Node,
    recv: &mut RecvStream,
    buf: &mut [u8],
    wire: &mut Wire,
) -> Result<Option<usize>, ReadError> {
    let cmd = match recv.read(buf) {
        ReadStart::Send(cmd) => cmd,
        ReadStart::Done(n) => return Ok(n),
        ReadStart::Await => panic!("nothing is outstanding"),
    };
    let answer = engine_read(node, cmd, wire);
    match recv.on_read_answer(buf, answer) {
        ReadStep::Done(result) => result,
        ReadStep::WaitReadable => panic!("nothing to read"),
    }
}

fn read_to_end(node: &mut Node, recv: &mut RecvStream, limit: usize, wire: &mut Wire) -> Vec<u8> {
    let mut op = recv.read_to_end(limit);
    let mut buf = vec![0u8; READ_CHUNK];
    loop {
        let result = read(node, recv, &mut buf, wire);
        if let Poll::Ready(result) = op.on_read(&buf, result) {
            return result.expect("read_to_end");
        }
    }
}

fn open_bi(node: &mut Node, conn: &Connection, stream_id: u64) -> (SendStream, RecvStream) {
    let mut op = conn.open_bi();
    let cmd = op.start(&node.handle).expect("open_bi").expect("first call");
    match node.command(cmd) {
        EngineCall::OpenStream { conn_id, dir, urgency, incremental } => {
            assert_eq!(conn_id, conn.conn_id());
            assert_eq!(dir, Dir::Bi);
            assert_eq!(urgency, 0);
            assert!(!incremental);
        }
        _ => panic!("not an open call"),
    }
    assert!(op.start(&node.handle).expect("open_bi").is_none());
    assert!(matches!(op.poll(Reply::Pending), Poll::Pending));
    let reply = open_stream_reply(Some(Ok(stream_id)));
    match op.poll(Reply::Ready(reply)) {
        Poll::Ready(result) => result.expect("open_bi"),
        Poll::Pending => panic!("answered"),
    }
}

fn open_uni(node: &mut Node, conn: &Connection, stream_id: u64) -> SendStream {
    let mut op = conn.open_uni();
    let cmd = op.start(&node.handle).expect("open_uni").expect("first call");
    match node.command(cmd) {
        EngineCall::OpenStream { conn_id: _, dir, urgency: _, incremental: _ } => {
            assert_eq!(dir, Dir::Uni);
        }
        _ => panic!("not an open call"),
    }
    match op.poll(Reply::Ready(open_stream_reply(Some(Ok(stream_id))))) {
        Poll::Ready(result) => result.expect("open_uni"),
        Poll::Pending => panic!("answered"),
    }
}

fn accept_bi(node: &mut Node, conn: &Connection, stream_id: u64) -> (SendStream, RecvStream) {
    let mut op = conn.accept_bi();
    let slot = match op.poll(&mut node.handle) {
        StreamWait::Wait(slot) => slot,
        StreamWait::Ready(_) => panic!("no stream has come"),
    };
    let arrival = node
        .handler
        .on_stream_created(&mut node.handle, Some(conn.conn_id()), stream_id)
        .expect("the peer opened it");
    assert_eq!(arrival.slot, slot);
    assert_eq!(arrival.dir, Dir::Bi);
    assert_eq!(arrival.stream_id, stream_id);
    match op.poll(&mut node.handle) {
        StreamWait::Ready(result) => result.expect("accept_bi"),
        StreamWait::Wait(_) => panic!("a stream has come"),
    }
}

fn accept_uni(node: &mut Node, conn: &Connection, stream_id: u64) -> RecvStream {
    let mut op = conn.accept_uni();
    let slot = match op.poll(&mut node.handle) {
        StreamWait::Wait(slot) => slot,
        StreamWait::Ready(_) => panic!("no stream has come"),
    };
    let arrival = node
        .handler
        .on_stream_created(&mut node.handle, Some(conn.conn_id()), stream_id)
        .expect("the peer opened it");
    assert_eq!(arrival.slot, slot);
    assert_eq!(arrival.dir, Dir::Uni);
    assert_eq!(arrival.stream_id, stream_id);
    match op.poll(&mut node.handle) {
        StreamWait::Ready(result) => result.expect("accept_uni"),
        StreamWait::Wait(_) => panic!("a stream has come"),
    }
}

/// Carries a close command over to the other side, and closes both.
fn close(
    from: &mut Node,
    from_id: u64,
    to: &mut Node,
    to_id: u64,
    cmd: BridgeCommand,
) {
    match from.command(cmd) {
        EngineCall::CloseConnection { conn_id, app, error_code, reason } => {
            assert_eq!(conn_id, from_id);
            let local = EngineClose { is_app: app, error_code, reason: reason.clone() };
            let peer = EngineClose { is_app: app, error_code, reason };
            from.closed(from_id, None, Some(local));
            to.closed(to_id, Some(peer), None);
        }
        _ => panic!("not a close call"),
    }
}

#[test]
fn test_connect_and_send() {
    let (mut server, mut client) = endpoints();
    let (server_conn, conn) = establish(&mut server, &mut client);
    let mut up = Wire::new(0);
    let mut down = Wire::new(0);

    let (mut send, mut recv) = open_bi(&mut client, &conn, 0);
    let message = b"hello from client";
    write_all(&mut client, &send, message, &mut up).unwrap();
    finish(&mut client, &mut send, &mut up);

    let (mut s_send, mut s_recv) = accept_bi(&mut server, &server_conn, 0);
    let mut buf = vec![0u8; 1024];
    let n = read(&mut server, &mut s_recv, &mut buf, &mut up).expect("read").expect("not fin");
    write_all(&mut server, &s_send, &buf[..n], &mut down).expect("write_all");
    finish(&mut server, &mut s_send, &mut down);

    let mut response = vec![0u8; 1024];
    let n = read(&mut client, &mut recv, &mut response, &mut down).unwrap().expect("not fin");
    assert_eq!(&response[..n], message);
    let eof = read(&mut client, &mut recv, &mut response, &mut down).unwrap();
    assert!(eof.is_none(), "expected fin");
}

#[test]
fn test_uni_streams() {
    let (mut server, mut client) = endpoints();
    let (server_conn, conn) = establish(&mut server, &mut client);
    let mut wire = Wire::new(2);

    let mut send = open_uni(&mut client, &conn, 2);
    let payload = b"unidirectional data";
    write_all(&mut client, &send, payload, &mut wire).unwrap();
    finish(&mut client, &mut send, &mut wire);

    let mut recv = accept_uni(&mut server, &server_conn, 2);
    let received = read_to_end(&mut server, &mut recv, 1024 * 1024, &mut wire);
    assert_eq!(received, payload);
}

#[test]
fn test_multiple_streams() {
    let (mut server, mut client) = endpoints();
    let (server_conn, conn) = establish(&mut server, &mut client);
    for i in 0..5u64 {
        let stream_id = 4 * i;
        let mut up = Wire::new(stream_id);
        let mut down = Wire::new(stream_id);
        let (mut send, mut recv) = open_bi(&mut client, &conn, stream_id);
        let msg = format!("stream-{i}");
        write_all(&mut client, &send, msg.as_bytes(), &mut up).expect("write_all");
        finish(&mut client, &mut send, &mut up);

        let (mut s_send, mut s_recv) = accept_bi(&mut server, &server_conn, stream_id);
        let mut buf = vec![0u8; 1024];
        let n = read(&mut server, &mut s_recv, &mut buf, &mut up).expect("read").expect("not fin");
        let mut echo = b"echo:".to_vec();
        echo.extend_from_slice(&buf[..n]);
        write_all(&mut server, &s_send, &echo, &mut down).expect("write_all");
        finish(&mut server, &mut s_send, &mut down);

        let response = read_to_end(&mut client, &mut recv, 1024, &mut down);
        let expected = format!("echo:{msg}");
        assert_eq!(response, expected.as_bytes());
    }
}

#[test]
fn test_connection_close() {
    let (mut server, mut client) = endpoints();
    let (server_conn, conn) = establish(&mut server, &mut client);
    let slot = match server_conn.closed(&server.handle) {
        ClosedStep::Watch(slot) => slot,
        ClosedStep::Ready(e) => panic!("closed too early: {e:?}"),
    };
    let cmd = conn.close(VarInt::from(42u32), b"test close");
    close(&mut client, conn.conn_id(), &mut server, server_conn.conn_id(), cmd);
    match Connection::closed_changed(&server.handle, slot, true) {
        ClosedStep::Ready(ConnectionError::ApplicationClosed { error_code, reason }) => {
            assert_eq!(error_code, 42);
            assert_eq!(reason, b"test close");
        }
        other => panic!("got close reason: {other:?}"),
    }
}

#[test]
fn test_endpoint_accept_loop() {
    let (mut server, mut client) = endpoints();
    for i in 0..3 {
        let (server_conn, conn) = establish(&mut server, &mut client);
        let mut up = Wire::new(0);
        let mut down = Wire::new(0);
        let (mut send, mut recv) = open_bi(&mut client, &conn, 0);
        write_all(&mut client, &send, format!("conn-{i}").as_bytes(), &mut up).unwrap();
        finish(&mut client, &mut send, &mut up);

        let (mut s_send, mut s_recv) = accept_bi(&mut server, &server_conn, 0);
        let mut buf = vec![0u8; 64];
        let n = read(&mut server, &mut s_recv, &mut buf, &mut up).expect("read").expect("not fin");
        assert_eq!(String::from_utf8_lossy(&buf[..n]), format!("conn-{i}"));
        write_all(&mut server, &s_send, b"ok", &mut down).expect("write_all");
        finish(&mut server, &mut s_send, &mut down);

        let mut buf = vec![0u8; 64];
        let n = read(&mut client, &mut recv, &mut buf, &mut down).unwrap().expect("not fin");
        assert_eq!(&buf[..n], b"ok");
        let cmd = conn.close(VarInt::from(0u32), b"done");
        close(&mut client, conn.conn_id(), &mut server, server_conn.conn_id(), cmd);
    }
    assert_eq!(Endpoint.open_connections(&server.handle), 0);
}

#[test]
fn test_large_transfer() {
    let (mut server, mut client) = endpoints();
    let (server_conn, conn) = establish(&mut server, &mut client);
    let data_size = 1024 * 1024;
    let send_data: Vec<u8> = (0..data_size).map(|i| (i % 256) as u8).collect();
    let mut wire = Wire::new(0);
    let (mut send, _recv) = open_bi(&mut client, &conn, 0);
    let (_, mut recv) = accept_bi(&mut server, &server_conn, 0);
    let mut received = Vec::new();
    let mut buf = vec![0u8; READ_CHUNK];

    let chunk_size = 32 * 1024;
    let mut offset = 0;
    while offset < send_data.len() {
        let end = (offset + chunk_size).min(send_data.len());
        write_all(&mut client, &send, &send_data[offset..end], &mut wire).unwrap();
        offset = end;
        while !wire.bytes.is_empty() {
            let n = read(&mut server, &mut recv, &mut buf, &mut wire).unwrap().unwrap();
            received.extend_from_slice(&buf[..n]);
        }
    }
    finish(&mut client, &mut send, &mut wire);
    assert_eq!(read(&mut server, &mut recv, &mut buf, &mut wire), Ok(None));
    assert_eq!(received.len(), data_size);
    assert_eq!(received, send_data);
}

#[test]
fn handshake_timeout() {
    let mut transport = TransportConfig::new();
    transport.max_idle_timeout(Some(Duration::from_millis(500)));
    transport.initial_rtt(Duration::from_millis(10));
    let mut config = client_config();
    config.transport_config(Arc::new(transport));

    let mut client = Node::spawn(Endpoint::client(localhost(0)), localhost(50000));
    client.command(Endpoint.set_default_client_config(config));
    let (cmd, mut connecting) =
        Endpoint.connect(&client.handle, localhost(1), "localhost").unwrap();
    match client.command(cmd) {
        EngineCall::Connect { local: _, remote, server_name: _, config } => {
            assert_eq!(remote, localhost(1));
            let config = config.expect("the default configuration");
            assert_eq!(config.quic.max_idle_timeout, 500);
            assert_eq!(config.quic.initial_rtt, Some(10));
        }
        _ => panic!("not a connect call"),
    }
    let id = client.created(localhost(1), false);
    let step = connecting.poll(&mut client.handle, Reply::Ready(Ok(id)));
    let slot = match step {
        ConnectingStep::AwaitHandshake(slot) => slot,
        _ => panic!("the handshake takes time"),
    };
    let actions = client.handler.on_conn_closed(
        &mut client.handle,
        ClosedConn {
            index: Some(id),
            peer_error: None,
            local_error: None,
            is_idle_timeout: true,
            is_handshake_timeout: false,
            is_reset: false,
        },
    );
    assert_eq!(actions.wake_establish, Some(slot));
    match connecting.poll(&mut client.handle, Reply::Pending) {
        ConnectingStep::Ready(Err(ConnectionError::TimedOut)) => {}
        ConnectingStep::Ready(Err(e)) => panic!("unexpected error: {e:?}"),
        _ => panic!("unexpected success"),
    }
}

#[test]
fn close_endpoint() {
    let (mut server, mut client) = endpoints();
    let (server_conn, conn) = establish(&mut server, &mut client);
    match client.command(Endpoint.close(VarInt::from(0u32), b"shutting down")) {
        EngineCall::CloseEndpoint { conn_ids, app, error_code, reason, force } => {
            assert_eq!(conn_ids, vec![conn.conn_id()]);
            assert!(app);
            assert_eq!(error_code, 0);
            assert_eq!(reason, b"shutting down");
            assert!(!force);
            let peer = EngineClose { is_app: app, error_code, reason };
            server.closed(server_conn.conn_id(), Some(peer), None);
        }
        _ => panic!("not a close call"),
    }
    match server_conn.closed(&server.handle) {
        ClosedStep::Ready(ConnectionError::ApplicationClosed { error_code, reason }) => {
            assert_eq!(error_code, 0);
            assert_eq!(reason, b"shutting down");
        }
        other => panic!("timed out waiting for close: {other:?}"),
    }
}

#[test]
fn local_addr() {
    let bridge = Endpoint::client(localhost(0));
    assert_eq!(bridge.bind_addr, localhost(0));
    let node = Node::spawn(bridge, localhost(50123));
    match Endpoint.local_addr(&node.handle) {
        SocketAddr::V4 { octets, port } => {
            assert_eq!(octets, [127, 0, 0, 1]);
            assert_ne!(port, 0, "port should have been assigned by OS");
        }
        other => panic!("not the address: {other:?}"),
    }
}

#[test]
fn read_after_close() {
    let (mut server, mut client) = endpoints();
    let (server_conn, conn) = establish(&mut server, &mut client);
    const MSG: &[u8] = b"goodbye!";
    let mut wire = Wire::new(3);
    let mut s = open_uni(&mut server, &server_conn, 3);
    write_all(&mut server, &s, MSG, &mut wire).unwrap();
    finish(&mut server, &mut s, &mut wire);
    let mut stream = accept_uni(&mut client, &conn, 3);
    let msg = read_to_end(&mut client, &mut stream, usize::MAX, &mut wire);
    assert_eq!(msg, MSG);
}

#[test]
fn refuse_incoming() {
    let (mut server, mut client) = endpoints();
    let (cmd, mut connecting) =
        Endpoint.connect(&client.handle, server.addr, "localhost").unwrap();
    client.command(cmd);
    let client_id = client.created(server.addr, false);
    connecting.poll(&mut client.handle, Reply::Ready(Ok(client_id)));

    let server_id = server.created(client.addr, true);
    let incoming = server.accept().expect("accept");
    assert_eq!(incoming.remote_address(), client.addr);
    let cmd = incoming.refuse(&mut server.handle);
    close(&mut server, server_id, &mut client, client_id, cmd);
    let own = Connection::new(server_id).close_reason(&server.handle);
    assert_eq!(own, Some(ConnectionError::LocallyClosed));

    match connecting.poll(&mut client.handle, Reply::Pending) {
        ConnectingStep::Ready(Err(ConnectionError::ConnectionClosed { error_code, reason })) => {
            assert_eq!(error_code, 0x02);
            assert_eq!(reason, b"refused");
        }
        _ => panic!("refused connection should close quickly"),
    }
}

/// Deterministic pseudo-random data.
fn gen_data(size: usize, seed: u64) -> Vec<u8> {
    let mut data = vec![0u8; size];
    let mut state = seed;
    for byte in data.iter_mut() {
        state = state.wrapping_mul(6364136223846793005).wrapping_add(1442695040888963407);
        *byte = (state >> 33) as u8;
    }
    data
}

fn echo(nr_streams: usize, stream_size: usize) {
    let (mut server, mut client) = endpoints();
    let (server_conn, conn) = establish(&mut server, &mut client);
    const SEED: u64 = 0x12345678;
    for i in 0..nr_streams {
        let stream_id = 4 * i as u64;
        let mut up = Wire::new(stream_id);
        let mut down = Wire::new(stream_id);
        let (mut send, mut recv) = open_bi(&mut client, &conn, stream_id);
        let msg = gen_data(stream_size, SEED + i as u64);
        write_all(&mut client, &send, &msg, &mut up).expect("write");
        finish(&mut client, &mut send, &mut up);

        let (mut s_send, mut s_recv) = accept_bi(&mut server, &server_conn, stream_id);
        let mut buf = vec![0u8; 8192];
        while let Some(n) = read(&mut server, &mut s_recv, &mut buf, &mut up).unwrap() {
            write_all(&mut server, &s_send, &buf[..n], &mut down).unwrap();
        }
        finish(&mut server, &mut s_send, &mut down);

        let data = read_to_end(&mut client, &mut recv, usize::MAX, &mut down);
        assert_eq!(data.len(), msg.len(), "Data length mismatch on stream {i}");
        assert_eq!(data, msg, "Data mismatch on stream {i}");
    }
    let cmd = conn.close(VarInt::from(0u32), b"done");
    close(&mut client, conn.conn_id(), &mut server, server_conn.conn_id(), cmd);
}

#[test]
fn echo_bi_streams() {
    echo(1, 10 * 1024);
}

#[test]
fn echo_sequential_streams() {
    echo(3, 4 * 1024);
}

#[test]
fn stream_id_flow_control() {
    let (mut server, mut client) = endpoints();
    let (server_conn, conn) = establish(&mut server, &mut client);
    for i in 0..3u64 {
        let stream_id = 2 + 4 * i;
        let mut wire = Wire::new(stream_id);
        let mut s = open_uni(&mut client, &conn, stream_id);
        write_all(&mut client, &s, format!("stream-{i}").as_bytes(), &mut wire).unwrap();
        finish(&mut client, &mut s, &mut wire);
        let mut recv = accept_uni(&mut server, &server_conn, stream_id);
        let data = read_to_end(&mut server, &mut recv, 1024, &mut wire);
        assert_eq!(data, format!("stream-{i}").as_bytes());
    }
}

fn two_connections(endpoint_config: EndpointConfig, reason: &[u8]) {
    let mut server = Node::spawn(
        Endpoint::new(endpoint_config, Some(server_config()), localhost(0)),
        localhost(4433),
    );
    let mut client1 =
        Node::spawn(Endpoint::new(endpoint_config, None, localhost(0)), localhost(50000));
    let mut client2 =
        Node::spawn(Endpoint::new(endpoint_config, None, localhost(0)), localhost(50001));
    client1.command(Endpoint.set_default_client_config(client_config()));
    client2.command(Endpoint.set_default_client_config(client_config()));

    let (server_conn1, conn1) = establish(&mut server, &mut client1);
    let (server_conn2, conn2) = establish(&mut server, &mut client2);
    assert_eq!(Endpoint.open_connections(&server.handle), 2);

    let cmd = server_conn1.close(VarInt::from(42u32), reason);
    close(&mut server, server_conn1.conn_id(), &mut client1, conn1.conn_id(), cmd);
    let cmd = server_conn2.close(VarInt::from(42u32), reason);
    close(&mut server, server_conn2.conn_id(), &mut client2, conn2.conn_id(), cmd);
    for (node, conn) in [(&client1, &conn1), (&client2, &conn2)] {
        match conn.close_reason(&node.handle) {
            Some(ConnectionError::ApplicationClosed { error_code, reason: why }) => {
                assert_eq!(error_code, 42);
                assert_eq!(why, reason);
            }
            other => panic!("not closed: {other:?}"),
        }
    }
}

#[test]
fn multiple_concurrent_connections() {
    two_connections(EndpointConfig::new(), b"bye");
}

#[test]
fn multiple_conns_zero_length_cids() {
    let mut endpoint_config = EndpointConfig::new();
    endpoint_config.cid_len(0);
    two_connections(endpoint_config, b"");
    let setup = Endpoint::new(endpoint_config, None, localhost(0)).setup(localhost(1));
    assert_eq!(setup.engine_config.quic.cid_len, 0);
}

#[test]
fn connection_side() {
    let (mut server, mut client) = endpoints();
    let (server_conn, conn) = establish(&mut server, &mut client);
    assert_eq!(server_conn.side(&server.handle), Side::Server);
    assert_eq!(conn.side(&client.handle), Side::Client);
    assert_eq!(Connection::new(77).side(&server.handle), Side::Client);
}

#[test]
fn remote_address() {
    let (mut server, mut client) = endpoints();
    let (cmd, connecting) = Endpoint.connect(&client.handle, server.addr, "localhost").unwrap();
    client.command(cmd);
    assert_eq!(connecting.remote_address(&client.handle), server.addr);
    server.created(client.addr, true);
    let incoming = server.accept().expect("accept");
    assert_eq!(incoming.remote_address(), client.addr);

    let (mut server, mut client) = endpoints();
    let (server_conn, conn) = establish(&mut server, &mut client);
    assert_eq!(server_conn.remote_address(&server.handle), client.addr);
    assert_eq!(conn.remote_address(&client.handle), server.addr);
    let nowhere = SocketAddr::V4 { octets: [0, 0, 0, 0], port: 0 };
    assert_eq!(Connection::new(77).remote_address(&client.handle), nowhere);
}

#[test]
fn recv_stream_stop_drop() {
    let (mut server, mut client) = endpoints();
    let (server_conn, conn) = establish(&mut server, &mut client);
    let mut wire = Wire::new(2);
    let send = open_uni(&mut client, &conn, 2);
    write_all(&mut client, &send, b"hello world", &mut wire).unwrap();

    let mut recv = accept_uni(&mut server, &server_conn, 2);
    let mut buf = [0u8; 5];
    let n = read(&mut server, &mut recv, &mut buf, &mut wire).unwrap();
    assert!(n.is_some());
    assert_eq!(&buf, b"hello");

    let cmd = recv.stop(VarInt::from(0u32)).ok().expect("stop");
    match server.command(cmd) {
        EngineCall::StreamShutdown { conn_id: _, stream_id, side, error_code } => {
            assert_eq!(stream_id, 2);
            assert_eq!(side, Shutdown::Read);
            assert_eq!(error_code, 0);
            wire.stopped = Some(error_code);
        }
        _ => panic!("not a shutdown call"),
    }
    assert!(recv.on_drop().is_none());
    let result = write(&mut client, &send, b"more", &mut wire);
    assert_eq!(result, Err(WriteError::Stopped(VarInt::from(0u32))));
}

#[test]
fn stream_reset() {
    let (mut server, mut client) = endpoints();
    let (server_conn, conn) = establish(&mut server, &mut client);
    let mut wire = Wire::new(2);
    let mut send = open_uni(&mut client, &conn, 2);
    write_all(&mut client, &send, b"hi", &mut wire).unwrap();
    let cmd = send.reset(VarInt::from(42u32)).ok().expect("reset");
    match client.command(cmd) {
        EngineCall::StreamShutdown { conn_id: _, stream_id, side, error_code } => {
            assert_eq!(stream_id, 2);
            assert_eq!(side, Shutdown::Write);
            assert_eq!(error_code, 42);
            wire.reset = Some(error_code);
        }
        _ => panic!("not a shutdown call"),
    }
    let mut recv = accept_uni(&mut server, &server_conn, 2);
    let mut buf = vec![0u8; 1024];
    let result = read(&mut server, &mut recv, &mut buf, &mut wire);
    assert_eq!(result, Err(ReadError::Reset(VarInt::from(42u32))));
    assert!(send.on_drop().is_none());
}

#[test]
fn connection_closed_notification() {
    let (mut server, mut client) = endpoints();
    let (server_conn, conn) = establish(&mut server, &mut client);
    let cmd = server_conn.close(VarInt::from(7u32), b"server closing");
    close(&mut server, server_conn.conn_id(), &mut client, conn.conn_id(), cmd);
    match conn.closed(&client.handle) {
        ClosedStep::Ready(ConnectionError::ApplicationClosed { error_code, reason }) => {
            assert_eq!(error_code, 7);
            assert_eq!(reason, b"server closing");
        }
        other => panic!("timed out waiting for close notification: {other:?}"),
    }
    assert!(matches!(
        Connection::new(9).closed(&client.handle),
        ClosedStep::Ready(ConnectionError::LocallyClosed)
    ));
}

#[test]
fn close_reason() {
    let (mut server, mut client) = endpoints();
    let (server_conn, conn) = establish(&mut server, &mut client);
    assert!(conn.close_reason(&client.handle).is_none());
    let cmd = conn.close(VarInt::from(99u32), b"done");
    close(&mut client, conn.conn_id(), &mut server, server_conn.conn_id(), cmd);
    assert_eq!(conn.close_reason(&client.handle), Some(ConnectionError::LocallyClosed));
    let seen = ConnectionError::ApplicationClosed { error_code: 99, reason: b"done".to_vec() };
    assert_eq!(server_conn.close_reason(&server.handle), Some(seen.clone()));
    match server_conn.closed(&server.handle) {
        ClosedStep::Ready(e) => assert_eq!(e, seen),
        other => panic!("not closed: {other:?}"),
    }
}

#[test]
fn close_command_alone_gives_no_reason() {
    let (mut server, mut client) = endpoints();
    let (_server_conn, conn) = establish(&mut server, &mut client);
    client.command(conn.close(VarInt::from(99u32), b"done"));
    assert_eq!(conn.close_reason(&client.handle), None);
    client.closed(conn.conn_id(), None, None);
    assert_eq!(conn.close_reason(&client.handle), Some(ConnectionError::LocallyClosed));
    client.created(server.addr, false);
    client.handler.on_stream_created(&mut client.handle, Some(conn.conn_id()), 1);
    assert_eq!(conn.close_reason(&client.handle), Some(ConnectionError::LocallyClosed));
}

#[test]
fn wait_idle() {
    let (mut server, mut client) = endpoints();
    assert!(Endpoint.wait_idle(&client.handle));
    let (server_conn, conn) = establish(&mut server, &mut client);
    assert!(!Endpoint.wait_idle(&client.handle));
    assert!(!Endpoint.wait_idle(&server.handle));
    let cmd = server_conn.close(VarInt::from(0u32), b"done");
    close(&mut server, server_conn.conn_id(), &mut client, conn.conn_id(), cmd);
    assert!(Endpoint.wait_idle(&client.handle), "wait_idle timed out");
    assert!(Endpoint.wait_idle(&server.handle));
}

#[test]
fn connect_after_close() {
    let (mut server, mut client) = endpoints();
    client.command(Endpoint.close(VarInt::from(0u32), b"bye"));
    let result = Endpoint.connect(&client.handle, server.addr, "localhost");
    assert_eq!(result.err(), Some(ConnectError::EndpointStopping));
    let result = Endpoint.connect_with(&client.handle, client_config(), server.addr, "localhost");
    assert_eq!(result.err(), Some(ConnectError::EndpointStopping));
    assert!(matches!(
        Endpoint.accept().poll(&mut client.handle, false),
        AcceptStep::Ready(None)
    ));
    server.created(client.addr, true);
    assert!(server.accept().is_some());
}

#[test]
fn open_stream_after_close() {
    let (mut server, mut client) = endpoints();
    let (server_conn, conn) = establish(&mut server, &mut client);
    let cmd = conn.close(VarInt::from(0u32), b"bye");
    close(&mut client, conn.conn_id(), &mut server, server_conn.conn_id(), cmd);
    let closed = ConnectionError::LocallyClosed;
    assert_eq!(conn.open_bi().start(&client.handle).err(), Some(closed.clone()));
    assert_eq!(conn.open_uni().start(&client.handle).err(), Some(closed));
    let seen = ConnectionError::ApplicationClosed { error_code: 0, reason: b"bye".to_vec() };
    assert_eq!(server_conn.open_bi().start(&server.handle).err(), Some(seen.clone()));
    assert_eq!(server_conn.open_uni().start(&server.handle).err(), Some(seen));
}

#[test]
fn open_connections_counter() {
    let (mut server, mut client) = endpoints();
    assert_eq!(Endpoint.open_connections(&server.handle), 0);
    let (server_conn, conn) = establish(&mut server, &mut client);
    assert_eq!(Endpoint.open_connections(&server.handle), 1);
    assert_eq!(Endpoint.open_connections(&client.handle), 1);
    let cmd = server_conn.close(VarInt::from(0u32), b"bye");
    close(&mut server, server_conn.conn_id(), &mut client, conn.conn_id(), cmd);
    assert_eq!(Endpoint.open_connections(&server.handle), 0);
    assert_eq!(Endpoint.open_connections(&client.handle), 0);
}

#[test]
fn stable_id_unique() {
    let (mut server, mut client) = endpoints();
    let (server_conn1, conn1) = establish(&mut server, &mut client);
    let (server_conn2, conn2) = establish(&mut server, &mut client);
    assert_ne!(
        server_conn1.stable_id(),
        server_conn2.stable_id(),
        "stable_id should be unique"
    );
    assert_ne!(conn1.stable_id(), conn2.stable_id());
    assert_eq!(Connection::new(12).stable_id(), 12);
}

#[test]
fn accept_stream_after_close() {
    let (mut server, mut client) = endpoints();
    let (server_conn, conn) = establish(&mut server, &mut client);
    let mut bi = conn.accept_bi();
    let mut uni = conn.accept_uni();
    assert!(matches!(bi.poll(&mut client.handle), StreamWait::Wait(0)));
    assert!(matches!(uni.poll(&mut client.handle), StreamWait::Wait(0)));
    // Streams that nobody has accepted are lost with the connection.
    client.handler.on_stream_created(&mut client.handle, Some(conn.conn_id()), 1);
    client.handler.on_stream_created(&mut client.handle, Some(conn.conn_id()), 3);

    let cmd = server_conn.close(VarInt::from(0u32), b"bye");
    close(&mut server, server_conn.conn_id(), &mut client, conn.conn_id(), cmd);
    let closed = ConnectionError::ApplicationClosed { error_code: 0, reason: b"bye".to_vec() };
    for mut op in [bi, conn.accept_bi()] {
        match op.poll(&mut client.handle) {
            StreamWait::Ready(Err(e)) => assert_eq!(e, closed),
            _ => panic!("unexpected stream on closing connection"),
        }
    }
    for mut op in [uni, conn.accept_uni()] {
        match op.poll(&mut client.handle) {
            StreamWait::Ready(Err(e)) => assert_eq!(e, closed),
            _ => panic!("unexpected stream on closing connection"),
        }
    }
}

#[test]
fn streams_are_accepted_once_and_in_order() {
    let (mut server, mut client) = endpoints();
    let (server_conn, _conn) = establish(&mut server, &mut client);
    let id = server_conn.conn_id();
    for stream_id in [4, 2, 0, 1, 10, 3, 8, 6] {
        server.handler.on_stream_created(&mut server.handle, Some(id), stream_id);
    }
    let mut bi = Vec::new();
    while let StreamWait::Ready(result) = server_conn.accept_bi().poll(&mut server.handle) {
        let (send, recv) = result.expect("open");
        assert_eq!(send.id(), recv.id());
        bi.push(recv.id().into_inner());
    }
    assert_eq!(bi, vec![4, 0, 8]);
    let mut uni = Vec::new();
    while let StreamWait::Ready(result) = server_conn.accept_uni().poll(&mut server.handle) {
        uni.push(result.expect("open").id().into_inner());
    }
    assert_eq!(uni, vec![2, 10, 6]);
}

#[test]
fn connections_are_accepted_once_and_in_order() {
    let (mut server, client) = endpoints();
    for port in [7, 5, 6] {
        server.created(localhost(port), true);
    }
    for port in [7, 5, 6] {
        assert_eq!(server.accept().expect("accept").remote_address(), localhost(port));
    }
    assert!(matches!(Endpoint.accept().poll(&mut server.handle, false), AcceptStep::Wait));
    assert!(matches!(
        Endpoint.accept().poll(&mut server.handle, true),
        AcceptStep::Ready(None)
    ));
    // Once the endpoint is closed, what waits is not handed out.
    server.created(client.addr, true);
    server.command(Endpoint.close(VarInt::from(0u32), b""));
    assert!(server.accept().is_none());
}

#[test]
fn handshakes_are_counted() {
    let (mut server, mut client) = endpoints();
    establish(&mut server, &mut client);
    establish(&mut server, &mut client);
    for _ in 0..3 {
        server.created(client.addr, true);
        server.accept().unwrap().refuse(&mut server.handle);
    }
    server.created(client.addr, true);
    assert!(server.accept().unwrap().ignore(&mut server.handle).is_none());
    server.created(client.addr, true);
    server.accept().unwrap().into_future(&mut server.handle);

    let stats = Endpoint.stats(&server.handle);
    assert_eq!(stats.accepted_handshakes, 3);
    assert_eq!(stats.refused_handshakes, 3);
    assert_eq!(stats.ignored_handshakes, 1);
    assert_eq!(stats.outgoing_handshakes, 0);
    let stats = Endpoint.stats(&client.handle);
    assert_eq!(stats.accepted_handshakes, 0);
    assert_eq!(stats.outgoing_handshakes, 2);
}

#[test]
fn retry_validates_addresses() {
    let mut config = server_config();
    config.enable_retry(true);
    let mut server = Node::spawn(Endpoint::server(config, localhost(0)), localhost(4433));
    server.created(localhost(7), true);
    assert!(server.accept().unwrap().remote_address_validated());
}

#[test]
fn stream_codes_arrive_whole() {
    let (mut server, mut client) = endpoints();
    let (server_conn, conn) = establish(&mut server, &mut client);
    let code = VarInt::max();
    let mut up = Wire::new(0);
    let mut down = Wire::new(0);
    let (mut send, mut recv) = open_bi(&mut client, &conn, 0);
    let (s_send, mut s_recv) = accept_bi(&mut server, &server_conn, 0);
    let cmd = send.reset(code).ok().expect("reset");
    if let EngineCall::StreamShutdown { conn_id: _, stream_id: _, side, error_code } =
        client.command(cmd)
    {
        assert_eq!(side, Shutdown::Write);
        up.reset = Some(error_code);
    }
    let cmd = recv.stop(code).ok().expect("stop");
    if let EngineCall::StreamShutdown { conn_id: _, stream_id: _, side, error_code } =
        client.command(cmd)
    {
        assert_eq!(side, Shutdown::Read);
        down.stopped = Some(error_code);
    }
    let mut buf = [0u8; 4];
    let result = read(&mut server, &mut s_recv, &mut buf, &mut up);
    assert_eq!(result, Err(ReadError::Reset(code)));
    let result = write(&mut server, &s_send, b"x", &mut down);
    assert_eq!(result, Err(WriteError::Stopped(code)));
}

#[test]
fn polled_bytes_arrive() {
    let (mut server, mut client) = endpoints();
    let (server_conn, conn) = establish(&mut server, &mut client);
    let mut wire = Wire::new(2);
    let mut send = open_uni(&mut client, &conn, 2);
    let cmd = send.poll_write(b"polled bytes").unwrap().expect("first poll");
    assert!(send.poll_write(b"polled bytes").unwrap().is_none());
    let answer = engine_write(&mut client, cmd, &mut wire, 1000);
    assert!(send.poll_write(b"polled bytes").unwrap().is_none());
    assert_eq!(send.on_poll_answer(Some(answer)), Poll::Ready(Ok(12)));
    finish(&mut client, &mut send, &mut wire);

    let mut recv = accept_uni(&mut server, &server_conn, 2);
    let mut long = [0u8; 64];
    let cmd = match recv.poll_read(&mut long) {
        ReadStart::Send(cmd) => cmd,
        _ => panic!("nothing is outstanding"),
    };
    let mut short = [0u8; 5];
    assert!(matches!(recv.poll_read(&mut short), ReadStart::Await));
    let answer = engine_read(&mut server, cmd, &mut wire);
    let mut got = Vec::new();
    assert_eq!(recv.on_poll_answer(&mut short, answer), Poll::Ready(Ok(5)));
    got.extend_from_slice(&short);
    loop {
        match recv.poll_read(&mut short) {
            ReadStart::Done(Some(n)) => got.extend_from_slice(&short[..n]),
            ReadStart::Done(None) => break,
            _ => panic!("everything has come"),
        }
    }
    assert_eq!(got, b"polled bytes");
}

#[test]
fn read_exact() {
    let (mut server, mut client) = endpoints();
    let (server_conn, conn) = establish(&mut server, &mut client);
    let mut up = Wire::new(0);
    let mut down = Wire::new(0);
    let (send, mut recv) = open_bi(&mut client, &conn, 0);
    write_all(&mut client, &send, b"ping", &mut up).unwrap();

    let (mut s_send, mut s_recv) = accept_bi(&mut server, &server_conn, 0);
    let mut ping = [0u8; 4];
    let n = read(&mut server, &mut s_recv, &mut ping, &mut up).unwrap().unwrap();
    assert_eq!(&ping[..n], b"ping");
    write_all(&mut server, &s_send, b"exactly16bytes!!", &mut down).unwrap();
    finish(&mut server, &mut s_send, &mut down);

    let mut buf = [0u8; 16];
    let mut op = recv.read_exact(buf.len());
    while let Some(start) = op.next() {
        let result = read(&mut client, &mut recv, &mut buf[start..], &mut down);
        assert_eq!(op.on_read(result), None);
    }
    assert_eq!(&buf, b"exactly16bytes!!");
}

#[test]
fn write_after_finish() {
    let (mut server, mut client) = endpoints();
    let (_server_conn, conn) = establish(&mut server, &mut client);
    let mut wire = Wire::new(2);
    let mut send = open_uni(&mut client, &conn, 2);
    finish(&mut client, &mut send, &mut wire);
    let result = write(&mut client, &send, b"after finish", &mut wire);
    assert_eq!(result, Err(WriteError::ClosedStream), "write after finish should error");
    assert!(send.finish().is_err(), "double finish should error");
    assert!(wire.bytes.is_empty());
}

#[test]
fn incoming_metadata() {
    let (mut server, client) = endpoints();
    server.created(client.addr, true);
    let incoming = server.accept().unwrap();
    assert_eq!(incoming.remote_address(), client.addr);
    assert!(!incoming.may_retry());
    assert!(!incoming.remote_address_validated());
}

#[test]
fn retry_unsupported() {
    let (mut server, client) = endpoints();
    let id = server.created(client.addr, true);
    let incoming = server.accept().unwrap();
    let err = incoming.retry();
    assert!(err.is_err());
    let err = err.unwrap_err();
    assert_eq!(err.to_string(), "retry() is not supported; use Config::enable_retry instead");

    let incoming = err.into_incoming();
    let (_, mut connecting) = incoming.accept(&mut server.handle).expect("accept");
    server.established(id);
    let conn = finish_handshake(&mut server, &mut connecting);
    assert_eq!(conn.conn_id(), id);
}

#[test]
fn zero_rtt_unsupported() {
    let (server, client) = endpoints();
    let (_, connecting) = Endpoint.connect(&client.handle, server.addr, "localhost").unwrap();
    let result = connecting.into_0rtt();
    assert!(result.is_err(), "into_0rtt should not be supported");
    let connecting = match result {
        Err(c) => c,
        Ok(_) => unreachable!(),
    };
    assert_eq!(connecting.remote_address(&client.handle), server.addr);
    assert!(connecting.needs_id());
}

#[test]
fn connect_with_custom_config() {
    let (mut server, mut client) = endpoints();
    let mut custom_config = client_config();
    custom_config.enable_early_data(true);
    let (cmd, mut connecting) = Endpoint
        .connect_with(&client.handle, custom_config, server.addr, "localhost")
        .unwrap();
    match client.command(cmd) {
        EngineCall::Connect { local: _, remote: _, server_name: _, config } => {
            match config.expect("its own configuration").tls {
                TlsSettings::Client { alpn_protocols, early_data, verify, ca_certs } => {
                    assert_eq!(alpn_protocols, vec![ALPN.to_vec()]);
                    assert!(early_data);
                    assert!(!verify);
                    assert_eq!(ca_certs, None);
                }
                _ => panic!("not a client's TLS settings"),
            }
        }
        _ => panic!("not a connect call"),
    }
    let client_id = client.created(server.addr, false);
    connecting.poll(&mut client.handle, Reply::Ready(Ok(client_id)));
    let server_id = server.created(client.addr, true);
    let incoming = server.accept().unwrap();
    let (_, mut accepted) = incoming.accept(&mut server.handle).unwrap();
    client.established(client_id);
    server.established(server_id);
    let conn = finish_handshake(&mut client, &mut connecting);
    let server_conn = finish_handshake(&mut server, &mut accepted);

    let mut up = Wire::new(0);
    let mut down = Wire::new(0);
    let (mut send, mut recv) = open_bi(&mut client, &conn, 0);
    write_all(&mut client, &send, b"custom config", &mut up).unwrap();
    finish(&mut client, &mut send, &mut up);
    let (mut s_send, mut s_recv) = accept_bi(&mut server, &server_conn, 0);
    let mut buf = vec![0u8; 1024];
    let n = read(&mut server, &mut s_recv, &mut buf, &mut up).unwrap().unwrap();
    write_all(&mut server, &s_send, &buf[..n], &mut down).unwrap();
    finish(&mut server, &mut s_send, &mut down);
    let data = read_to_end(&mut client, &mut recv, 1024, &mut down);
    assert_eq!(data, b"custom config");
}
