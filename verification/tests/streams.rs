//! Streams, connections and the state that they share.
use bytes::Bytes;

use tokio_tquic::addr::SocketAddr;
use tokio_tquic::bridge::{
    BridgeHandle, BridgeTransportHandler, ClosedConn, CreatedConn, IncomingData, SignalRef,
};
use tokio_tquic::command::BridgeCommand;
use tokio_tquic::connection::{ClosedStep, ConnectingStep, StreamWait};
use tokio_tquic::endpoint::AcceptStep;
use tokio_tquic::engine::EngineClose;
use tokio_tquic::recv_stream::{ReadStart, ReadStep};
use tokio_tquic::send_stream::{BrokenPipe, WriteStep};
use tokio_tquic::types::{Poll, Reply};
use tokio_tquic::{
    ConnectError, Connecting, Connection, ConnectionError, Dir, Endpoint, Incoming, ReadError,
    ReadExactError, ReadToEndError, RecvStream, SendDatagramError, SendStream, VarInt, WriteError,
};

fn localhost(port: u16) -> SocketAddr {
    SocketAddr::V4 { octets: [127, 0, 0, 1], port }
}

fn conn(index: Option<u64>, is_server: bool) -> CreatedConn {
    CreatedConn { index, remote: Some(localhost(2)), is_server }
}

fn closed(index: Option<u64>) -> ClosedConn {
    ClosedConn {
        index,
        peer_error: None,
        local_error: None,
        is_idle_timeout: false,
        is_handshake_timeout: false,
        is_reset: false,
    }
}

/// A server endpoint with connection 7.
fn server() -> (BridgeHandle, BridgeTransportHandler) {
    let mut handle = BridgeHandle::new(localhost(1));
    let handler = BridgeTransportHandler { is_server: true, retry: false };
    handler.on_conn_created(&mut handle, conn(Some(7), true));
    (handle, handler)
}

#[test]
fn created_connections_are_registered() {
    let mut handle = BridgeHandle::new(localhost(1));
    assert_eq!(handle.get_conn_notify(0), None);
    assert_eq!(handle.slots(), 0);
    let client = BridgeTransportHandler { is_server: false, retry: false };
    assert!(!client.on_conn_created(&mut handle, conn(Some(5), false)));
    assert_eq!(handle.get_conn_notify(5), Some(0));

    let server = BridgeTransportHandler { is_server: true, retry: false };
    let nameless = CreatedConn { index: None, remote: None, is_server: true };
    assert!(server.on_conn_created(&mut handle, nameless));
    match Endpoint.accept().poll(&mut handle, false) {
        AcceptStep::Ready(Some(incoming)) => {
            assert_eq!(incoming.remote_address(), SocketAddr::unspecified());
            assert!(matches!(
                incoming.refuse(&mut handle),
                BridgeCommand::RefuseIncoming { conn_id: 0 }
            ));
        }
        _ => panic!("a connection has come"),
    }
    assert_eq!(handle.get_conn_notify(0), Some(1));
    assert_eq!(handle.slots(), 2);
    assert_eq!(handle.open_connections(), 2);
    assert!(!handle.is_server(0));
    assert!(handle.is_server(1));
    assert_eq!(handle.remote_addr(0), localhost(2));
    let mut ids = handle.conn_ids();
    ids.sort();
    assert_eq!(ids, vec![0, 5]);

    // The ID of a connection that is created again leads to the new one.
    client.on_conn_created(&mut handle, conn(Some(5), false));
    assert_eq!(handle.get_conn_notify(5), Some(2));
    assert_eq!(handle.open_connections(), 3);
}

#[test]
fn close_errors_are_chosen_in_order() {
    let frame = |code| Some(EngineClose { is_app: true, error_code: code, reason: vec![] });
    let app = |code| ConnectionError::ApplicationClosed { error_code: code, reason: vec![] };
    let reason = |event: ClosedConn| {
        let (mut handle, handler) = server();
        handler.on_conn_closed(&mut handle, event);
        handle.closed_error(0).unwrap()
    };
    let both = ClosedConn {
        peer_error: frame(1),
        local_error: frame(2),
        is_reset: true,
        ..closed(Some(7))
    };
    assert_eq!(reason(both), app(1));
    let local = ClosedConn { local_error: frame(2), is_idle_timeout: true, ..closed(Some(7)) };
    assert_eq!(reason(local), ConnectionError::LocallyClosed);
    let transport = EngineClose { is_app: false, error_code: 2, reason: b"refused".to_vec() };
    let refused = ClosedConn { local_error: Some(transport), ..closed(Some(7)) };
    assert_eq!(reason(refused), ConnectionError::LocallyClosed);
    let engine = |code, why: &[u8]| ClosedConn {
        local_error: Some(EngineClose { is_app: false, error_code: code, reason: why.to_vec() }),
        ..closed(Some(7))
    };
    let transport = |code, why: &str| ConnectionError::TransportError {
        code,
        reason: why.to_string(),
    };
    assert_eq!(reason(engine(298, b"")), transport(298, ""));
    assert_eq!(reason(engine(2, b"refuse")), transport(2, "refuse"));
    assert_eq!(reason(engine(10, b"refused")), transport(10, "refused"));
    assert_eq!(reason(engine(10, "gr\u{fc}n".as_bytes())), transport(10, "gr\u{fc}n"));
    assert_eq!(reason(engine(10, &[0xff, 0x41])), transport(10, ""));
    let idle = ClosedConn { is_idle_timeout: true, is_reset: true, ..closed(Some(7)) };
    assert_eq!(reason(idle), ConnectionError::TimedOut);
    let handshake = ClosedConn { is_handshake_timeout: true, ..closed(Some(7)) };
    assert_eq!(reason(handshake), ConnectionError::TimedOut);
    let reset = ClosedConn { is_reset: true, ..closed(Some(7)) };
    assert_eq!(reason(reset), ConnectionError::Reset);
    assert_eq!(reason(closed(Some(7))), ConnectionError::LocallyClosed);
}

#[test]
fn idle_is_reported_with_the_last_close() {
    let (mut handle, handler) = server();
    handler.on_conn_created(&mut handle, conn(Some(8), true));
    let first = handler.on_conn_closed(&mut handle, closed(Some(7)));
    assert_eq!(first.notify_closed, Some(0));
    assert!(!first.notify_idle);
    let last = handler.on_conn_closed(&mut handle, closed(Some(8)));
    assert_eq!(last.notify_closed, Some(1));
    assert!(last.notify_idle);
    assert!(Endpoint.wait_idle(&handle));
    // A close that no connection belongs to is still counted.
    let stray = handler.on_conn_closed(&mut handle, closed(Some(99)));
    assert_eq!(stray.notify_closed, None);
    assert_eq!(handle.open_connections(), u64::MAX);
}

#[test]
fn closed_stays_closed() {
    let (mut handle, handler) = server();
    handler.on_conn_closed(&mut handle, closed(Some(7)));
    handler.on_conn_established(&mut handle, Some(7));
    handler.on_stream_created(&mut handle, Some(7), 0);
    handler.on_stream_readable(&mut handle, Some(7), 0);
    let c = Connection::new(7);
    assert_eq!(c.close_reason(&handle), Some(ConnectionError::LocallyClosed));
    assert!(c.open_bi().start(&handle).is_err());
    assert!(matches!(c.accept_bi().poll(&mut handle), StreamWait::Ready(Err(_))));
    assert!(matches!(c.closed(&handle), ClosedStep::Ready(ConnectionError::LocallyClosed)));
}

#[test]
fn handshake_waiter_is_woken() {
    let (mut handle, handler) = server();
    let mut connecting = Connecting::new_server(7, localhost(2));
    assert!(!connecting.needs_id());
    let step = connecting.poll(&mut handle, Reply::Pending);
    assert!(matches!(step, ConnectingStep::AwaitHandshake(0)));
    handler.on_conn_created(&mut handle, conn(Some(8), true));
    handler.on_conn_established(&mut handle, Some(8));
    assert_eq!(handler.on_conn_established(&mut handle, Some(7)), Some(0));
    assert_eq!(handler.on_conn_established(&mut handle, Some(7)), None);
    match connecting.poll(&mut handle, Reply::Pending) {
        ConnectingStep::Ready(Ok(c)) => assert_eq!(c.conn_id(), 7),
        _ => panic!("the handshake is complete"),
    }
}

#[test]
fn attempts_without_an_id_fail_as_the_answer_says() {
    let (mut handle, _) = server();
    let mut attempt = Connecting::new_client(localhost(2));
    assert!(matches!(attempt.poll(&mut handle, Reply::Pending), ConnectingStep::AwaitId));
    let refused = Reply::Ready(Err(ConnectError::CidsExhausted));
    assert!(matches!(
        attempt.poll(&mut handle, refused),
        ConnectingStep::Ready(Err(ConnectionError::CidsExhausted))
    ));
    assert!(matches!(
        attempt.poll(&mut handle, Reply::Dropped),
        ConnectingStep::Ready(Err(ConnectionError::LocallyClosed))
    ));
    // An ID that the endpoint does not know.
    assert!(matches!(
        attempt.poll(&mut handle, Reply::Ready(Ok(1234))),
        ConnectingStep::Ready(Err(ConnectionError::LocallyClosed))
    ));
}

#[test]
fn accepted_connections_can_be_awaited() {
    let (mut handle, handler) = server();
    let data = IncomingData { conn_id: 7, remote_addr: localhost(2), validated: false };
    let (cmd, mut future) = Incoming::new(data).into_future(&mut handle);
    assert!(matches!(cmd, Some(BridgeCommand::AcceptIncoming)));
    let step = future.poll(&mut handle, Reply::Pending);
    assert!(matches!(step, ConnectingStep::AwaitHandshake(0)));
    handler.on_conn_established(&mut handle, Some(7));
    let step = future.poll(&mut handle, Reply::Pending);
    assert!(matches!(step, ConnectingStep::Ready(Ok(_))));
    // Once it is over, there is nothing more to be had.
    assert!(matches!(
        future.poll(&mut handle, Reply::Pending),
        ConnectingStep::Ready(Err(ConnectionError::LocallyClosed))
    ));
}

#[test]
fn incoming_connections_are_decided_on() {
    let (mut handle, _) = server();
    let data = IncomingData { conn_id: 7, remote_addr: localhost(2), validated: false };
    assert!(matches!(
        Incoming::new(data).refuse(&mut handle),
        BridgeCommand::RefuseIncoming { conn_id: 7 }
    ));
    assert!(Incoming::new(data).ignore(&mut handle).is_none());
    let config = tokio_tquic::ServerConfig::new(String::new(), String::new(), vec![]);
    let (cmd, connecting) = Incoming::new(data)
        .accept_with(&mut handle, std::sync::Arc::new(config))
        .expect("accept_with");
    assert!(matches!(cmd, BridgeCommand::AcceptIncoming));
    assert!(!connecting.needs_id());
    let stats = Endpoint.stats(&handle);
    assert_eq!(stats.accepted_handshakes, 1);
    assert_eq!(stats.refused_handshakes, 1);
    assert_eq!(stats.ignored_handshakes, 1);
    assert_eq!(stats.outgoing_handshakes, 0);
}

#[test]
fn accept_waits_for_the_queue() {
    let (mut handle, _) = server();
    let accept = Endpoint.accept();
    match accept.poll(&mut handle, false) {
        AcceptStep::Ready(Some(incoming)) => {
            assert_eq!(incoming.remote_address(), localhost(2));
            assert!(!incoming.remote_address_validated());
        }
        _ => panic!("a connection has come"),
    }
    assert!(matches!(accept.poll(&mut handle, false), AcceptStep::Wait));
    assert!(matches!(accept.poll(&mut handle, true), AcceptStep::Ready(None)));
    let stats = Endpoint.stats(&handle);
    assert_eq!(stats.accepted_handshakes, 0);
    assert_eq!(stats.outgoing_handshakes, 0);
    assert_eq!(stats.refused_handshakes, 0);
    assert_eq!(stats.ignored_handshakes, 0);
}

#[test]
fn only_streams_of_the_peer_are_accepted() {
    let (mut handle, handler) = server();
    let arrival = handler.on_stream_created(&mut handle, Some(7), 0).unwrap();
    assert_eq!((arrival.slot, arrival.dir, arrival.stream_id), (0, Dir::Bi, 0));
    let arrival = handler.on_stream_created(&mut handle, Some(7), 6).unwrap();
    assert_eq!(arrival.dir, Dir::Uni);
    assert!(handler.on_stream_created(&mut handle, Some(7), 1).is_none());
    assert!(handler.on_stream_created(&mut handle, Some(7), 3).is_none());
    assert!(handler.on_stream_created(&mut handle, Some(99), 0).is_none());

    handler.on_conn_created(&mut handle, conn(Some(8), false));
    assert!(handler.on_stream_created(&mut handle, Some(8), 0).is_none());
    assert_eq!(handler.on_stream_created(&mut handle, Some(8), 1).unwrap().dir, Dir::Bi);
    assert_eq!(handler.on_stream_created(&mut handle, Some(8), 3).unwrap().dir, Dir::Uni);
}

#[test]
fn signals_are_kept_and_distinct() {
    let (mut handle, handler) = server();
    let recv = RecvStream::new(7, 0);
    let send = SendStream::new(7, 0);
    let readable = recv.wait_readable(&mut handle).unwrap();
    let writable = send.wait_writable(&mut handle).unwrap();
    assert_ne!(readable, writable);
    handler.on_stream_created(&mut handle, Some(7), 0);
    handler.on_stream_created(&mut handle, Some(7), 4);
    assert_eq!(handler.on_stream_readable(&mut handle, Some(7), 0), Some(readable));
    assert_eq!(handler.on_stream_writable(&mut handle, Some(7), 0), Some(writable));
    let closed_signals = handler.on_stream_closed(&handle, Some(7), 0);
    assert_eq!(closed_signals, (Some(readable), Some(writable)));
    let other = handler.on_stream_closed(&handle, Some(7), 4);
    assert_ne!(other.0, Some(readable));
    assert_ne!(other.1, Some(writable));
    assert_eq!(handler.on_stream_closed(&handle, Some(7), 8), (None, None));
    assert_eq!(handler.on_stream_readable(&mut handle, Some(99), 0), None);
    assert_eq!(handler.on_stream_writable(&mut handle, Some(99), 0), None);
}

#[test]
fn waits_end_with_the_connection() {
    let (mut handle, handler) = server();
    let recv = RecvStream::new(7, 0);
    let send = SendStream::new(7, 0);
    let waited = recv.wait_readable(&mut handle).unwrap();
    assert_eq!(RecvStream::readable_again(&handle, waited), Ok(()));
    assert_eq!(SendStream::writable_again(&handle, waited), Ok(()));
    let reset = ClosedConn { is_reset: true, ..closed(Some(7)) };
    handler.on_conn_closed(&mut handle, reset);
    let lost = ConnectionError::Reset;
    assert_eq!(
        RecvStream::readable_again(&handle, waited),
        Err(ReadError::ConnectionLost(lost.clone()))
    );
    assert_eq!(
        SendStream::writable_again(&handle, waited),
        Err(WriteError::ConnectionLost(lost.clone()))
    );
    assert_eq!(
        recv.wait_readable(&mut handle),
        Err(ReadError::ConnectionLost(lost.clone()))
    );
    assert_eq!(send.wait_writable(&mut handle), Err(WriteError::ConnectionLost(lost)));
    assert_eq!(
        RecvStream::new(99, 0).wait_readable(&mut handle),
        Err(ReadError::ConnectionLost(ConnectionError::LocallyClosed))
    );
    assert_eq!(
        SendStream::new(99, 0).wait_writable(&mut handle),
        Err(WriteError::ConnectionLost(ConnectionError::LocallyClosed))
    );
}

#[test]
fn writes_go_on_as_they_are_answered() {
    let step = SendStream::on_write_answer(Some(Ok(0)));
    assert!(matches!(step, WriteStep::WaitWritable));
    assert!(matches!(SendStream::on_write_answer(Some(Ok(5))), WriteStep::Done(Ok(5))));
    assert!(matches!(
        SendStream::on_write_answer(Some(Err(WriteError::ClosedStream))),
        WriteStep::Done(Err(WriteError::ClosedStream))
    ));
    assert!(matches!(
        SendStream::on_write_answer(None),
        WriteStep::Done(Err(WriteError::ConnectionLost(ConnectionError::LocallyClosed)))
    ));
}

#[test]
fn write_all_covers_the_buffer() {
    let send = SendStream::new(1, 0);
    let mut op = send.write_all(b"abcdef");
    assert_eq!(op.next(), Some(0));
    op.wrote(2);
    assert_eq!(op.next(), Some(2));
    op.wrote(0);
    assert_eq!(op.next(), Some(2));
    op.wrote(4);
    assert_eq!(op.next(), None);
    assert_eq!(send.write_all(b"").next(), None);
}

#[test]
fn written_bytes_are_copied() {
    let send = SendStream::new(3, 4);
    match send.write(b"payload") {
        Ok(BridgeCommand::StreamWrite { conn_id, stream_id, data, fin }) => {
            assert_eq!((conn_id, stream_id, fin), (3, 4, false));
            assert_eq!(&data[..], b"payload");
        }
        _ => panic!("not a write"),
    }
    assert_eq!(send.id().into_inner(), 4);
}

#[test]
fn streams_are_ended_once() {
    let is_fin = |cmd: &BridgeCommand| match cmd {
        BridgeCommand::StreamWrite { conn_id: 3, stream_id: 4, data, fin: true } => data.is_empty(),
        _ => false,
    };
    let mut send = SendStream::new(3, 4);
    assert!(is_fin(&send.finish().ok().unwrap()));
    assert!(send.finish().is_err());
    assert!(send.reset(VarInt::from(1u32)).is_err());
    assert!(send.set_priority(1).is_err());
    assert!(send.on_drop().is_none());

    let mut send = SendStream::new(3, 4);
    assert!(is_fin(&send.on_drop().unwrap()));
    assert!(send.on_drop().is_none());

    let mut send = SendStream::new(3, 4);
    assert!(matches!(
        send.reset(VarInt::from(9u32)),
        Ok(BridgeCommand::StreamShutdownWrite { conn_id: 3, stream_id: 4, error_code: 9 })
    ));
    assert!(send.finish().is_err());

    let mut send = SendStream::new(3, 4);
    assert!(is_fin(&send.poll_shutdown().ok().unwrap()));
    let error = send.poll_shutdown().err();
    assert_eq!(error, Some(BrokenPipe { message: "stream already closed".to_string() }));
    let error = send.poll_write(b"x").err();
    assert_eq!(error, Some(BrokenPipe { message: "stream finished".to_string() }));
}

#[test]
fn priorities_are_clamped() {
    let urgency = |priority: i32| match SendStream::new(3, 4).set_priority(priority) {
        Ok(BridgeCommand::StreamSetPriority { conn_id: 3, stream_id: 4, urgency }) => urgency,
        _ => panic!("not a priority"),
    };
    assert_eq!(urgency(i32::MIN), 0);
    assert_eq!(urgency(-1), 0);
    assert_eq!(urgency(0), 0);
    assert_eq!(urgency(200), 200);
    assert_eq!(urgency(255), 255);
    assert_eq!(urgency(256), 255);
    assert_eq!(urgency(i32::MAX), 255);
}

#[test]
fn polled_write_is_sent_once() {
    let (mut handle, handler) = server();
    let mut send = SendStream::new(7, 0);
    match send.poll_write(b"x") {
        Ok(Some(BridgeCommand::StreamWrite { conn_id: 7, stream_id: 0, data, fin: false })) => {
            assert_eq!(&data[..], b"x");
        }
        _ => panic!("not a write"),
    }
    assert!(matches!(send.poll_write(b"x"), Ok(None)));
    assert!(matches!(send.poll_write(b"x"), Ok(None)));

    // The engine took nothing: the poll goes on once the stream is writable.
    assert_eq!(send.on_poll_answer(Some(Ok(0))), Poll::Pending);
    let waited = send.wait_writable(&mut handle).unwrap();
    assert_eq!(handler.on_stream_writable(&mut handle, Some(7), 0), Some(waited));
    assert!(matches!(send.poll_write(b"x"), Ok(Some(_))));
    assert_eq!(send.on_poll_answer(Some(Ok(1))), Poll::Ready(Ok(1)));

    assert!(matches!(send.poll_write(b"y"), Ok(Some(_))));
    let stopped = || WriteError::Stopped(VarInt::from(4u32));
    assert_eq!(send.on_poll_answer(Some(Err(stopped()))), Poll::Ready(Err(stopped())));
    assert!(matches!(send.poll_write(b"y"), Ok(Some(_))));
    let lost = WriteError::ConnectionLost(ConnectionError::LocallyClosed);
    assert_eq!(send.on_poll_answer(None), Poll::Ready(Err(lost)));
}

#[test]
fn polled_read_hands_bytes_out() {
    let (mut handle, handler) = server();
    let mut recv = RecvStream::new(7, 0);
    let mut buf = [9u8; 3];
    assert!(matches!(
        recv.poll_read(&mut buf),
        ReadStart::Send(BridgeCommand::StreamRead { conn_id: 7, stream_id: 0, max_len: 3 })
    ));
    assert!(matches!(recv.poll_read(&mut buf), ReadStart::Await));
    assert_eq!(recv.on_poll_answer(&mut buf, Some(Ok((vec![], false)))), Poll::Pending);
    let waited = recv.wait_readable(&mut handle).unwrap();
    assert_eq!(handler.on_stream_readable(&mut handle, Some(7), 0), Some(waited));

    assert!(matches!(recv.poll_read(&mut buf), ReadStart::Send(_)));
    assert_eq!(recv.on_poll_answer(&mut buf, Some(Ok((vec![1, 2], false)))), Poll::Ready(Ok(2)));
    assert_eq!(buf, [1, 2, 9]);

    // What a shorter buffer has no room for stays for the polls that follow, and so does the end.
    assert!(matches!(recv.poll_read(&mut buf), ReadStart::Send(_)));
    let answer = Some(Ok((vec![3, 4, 5], true)));
    assert_eq!(recv.on_poll_answer(&mut buf[..1], answer), Poll::Ready(Ok(1)));
    assert_eq!(buf, [3, 2, 9]);
    assert!(matches!(recv.poll_read(&mut buf[..1]), ReadStart::Done(Some(1))));
    assert_eq!(buf, [4, 2, 9]);
    assert!(recv.stop(VarInt::from(1u32)).is_err());
    assert!(matches!(recv.read(&mut buf), ReadStart::Done(Some(1))));
    assert_eq!(buf, [5, 2, 9]);
    assert!(matches!(recv.poll_read(&mut buf), ReadStart::Done(None)));

    let mut recv = RecvStream::new(7, 4);
    assert!(matches!(recv.poll_read(&mut buf), ReadStart::Send(_)));
    assert_eq!(recv.on_poll_answer(&mut buf, Some(Ok((vec![], true)))), Poll::Ready(Ok(0)));
    assert_eq!(
        recv.on_poll_answer(&mut buf, Some(Err(ReadError::ClosedStream))),
        Poll::Ready(Err(ReadError::ClosedStream))
    );
}

#[test]
fn stopped_stream_gives_up_what_it_kept() {
    let mut recv = RecvStream::new(7, 0);
    let mut buf = [0u8; 2];
    recv.read(&mut buf);
    recv.on_read_answer(&mut buf[..1], Some(Ok((vec![1, 2], false))));
    assert!(recv.stop(VarInt::from(1u32)).is_ok());
    assert!(matches!(recv.read(&mut buf), ReadStart::Done(None)));
    assert_eq!(buf, [1, 0]);
}

#[test]
fn reads_go_on_as_they_are_answered() {
    let mut recv = RecvStream::new(3, 4);
    assert_eq!(recv.id().into_inner(), 4);
    let mut buf = [9u8; 4];
    assert!(matches!(
        recv.on_read_answer(&mut buf, Some(Ok((vec![], false)))),
        ReadStep::WaitReadable
    ));
    assert!(matches!(
        recv.on_read_answer(&mut buf, Some(Ok((vec![1, 2], false)))),
        ReadStep::Done(Ok(Some(2)))
    ));
    assert_eq!(buf, [1, 2, 9, 9]);
    assert!(matches!(
        recv.on_read_answer(&mut buf, Some(Err(ReadError::ClosedStream))),
        ReadStep::Done(Err(ReadError::ClosedStream))
    ));
    assert!(matches!(
        recv.on_read_answer(&mut buf, None),
        ReadStep::Done(Err(ReadError::ConnectionLost(ConnectionError::LocallyClosed)))
    ));
    assert!(matches!(
        recv.read(&mut buf),
        ReadStart::Send(BridgeCommand::StreamRead { conn_id: 3, stream_id: 4, max_len: 4 })
    ));
    assert!(matches!(
        recv.on_read_answer(&mut buf, Some(Ok((vec![7], true)))),
        ReadStep::Done(Ok(Some(1)))
    ));
    assert_eq!(buf, [7, 2, 9, 9]);
    assert!(matches!(recv.read(&mut buf), ReadStart::Done(None)));
    assert!(matches!(recv.poll_read(&mut buf), ReadStart::Done(None)));
    assert!(recv.stop(VarInt::from(1u32)).is_err());
    assert!(recv.on_drop().is_none());
}

#[test]
fn end_without_bytes_is_seen() {
    let mut recv = RecvStream::new(3, 4);
    let mut buf = [9u8; 2];
    assert!(matches!(
        recv.on_read_answer(&mut buf, Some(Ok((vec![], true)))),
        ReadStep::Done(Ok(None))
    ));
    assert_eq!(buf, [9, 9]);
    assert!(matches!(recv.read(&mut buf), ReadStart::Done(None)));
}

#[test]
fn dropped_streams_are_stopped() {
    let mut recv = RecvStream::new(3, 4);
    assert!(matches!(
        recv.on_drop(),
        Some(BridgeCommand::StreamShutdownRead { conn_id: 3, stream_id: 4, error_code: 0 })
    ));
    assert!(recv.on_drop().is_none());
    let mut recv = RecvStream::new(3, 4);
    assert!(matches!(
        recv.stop(VarInt::from(8u32)),
        Ok(BridgeCommand::StreamShutdownRead { conn_id: 3, stream_id: 4, error_code: 8 })
    ));
}

#[test]
fn read_exact_reports_how_it_ended() {
    let recv = RecvStream::new(3, 4);
    let mut op = recv.read_exact(5);
    assert_eq!(op.next(), Some(0));
    assert_eq!(op.on_read(Ok(Some(3))), None);
    assert_eq!(op.next(), Some(3));
    assert_eq!(op.on_read(Ok(None)), Some(ReadExactError::FinishedEarly(3)));
    assert_eq!(
        op.on_read(Err(ReadError::ClosedStream)),
        Some(ReadExactError::ReadError(ReadError::ClosedStream))
    );
    assert_eq!(op.on_read(Ok(Some(2))), None);
    assert_eq!(op.next(), None);
    assert_eq!(recv.read_exact(0).next(), None);
}

#[test]
fn read_to_end_gathers_up_to_the_limit() {
    let recv = RecvStream::new(3, 4);
    let mut op = recv.read_to_end(5);
    assert!(matches!(op.on_read(b"abc?", Ok(Some(3))), Poll::Pending));
    assert!(matches!(op.on_read(b"de??", Ok(Some(2))), Poll::Pending));
    assert_eq!(op.on_read(b"????", Ok(None)), Poll::Ready(Ok(b"abcde".to_vec())));

    let mut op = recv.read_to_end(5);
    assert!(matches!(op.on_read(b"abc?", Ok(Some(3))), Poll::Pending));
    assert_eq!(op.on_read(b"def?", Ok(Some(3))), Poll::Ready(Err(ReadToEndError::TooLong)));

    let mut op = recv.read_to_end(0);
    assert_eq!(
        op.on_read(b"", Err(ReadError::ClosedStream)),
        Poll::Ready(Err(ReadToEndError::Read(ReadError::ClosedStream)))
    );
    assert_eq!(op.on_read(b"", Ok(None)), Poll::Ready(Ok(vec![])));
}

#[test]
fn opening_is_answered() {
    let (handle, _) = server();
    let c = Connection::new(7);
    let mut op = c.open_uni();
    assert!(op.start(&handle).unwrap().is_some());
    assert!(op.start(&handle).unwrap().is_none());
    assert!(matches!(op.poll(Reply::Pending), Poll::Pending));
    assert!(matches!(
        op.poll(Reply::Dropped),
        Poll::Ready(Err(ConnectionError::LocallyClosed))
    ));
    assert!(matches!(
        op.poll(Reply::Ready(Err(ConnectionError::TimedOut))),
        Poll::Ready(Err(ConnectionError::TimedOut))
    ));
    match op.poll(Reply::Ready(Ok(6))) {
        Poll::Ready(Ok(send)) => assert_eq!(send.id().into_inner(), 6),
        _ => panic!("the stream is open"),
    }
    assert!(matches!(
        c.open_bi().poll(Reply::Dropped),
        Poll::Ready(Err(ConnectionError::LocallyClosed))
    ));
}

#[test]
fn accepting_waits_for_streams() {
    let (mut handle, handler) = server();
    let c = Connection::new(7);
    let mut bi = c.accept_bi();
    let mut uni = c.accept_uni();
    assert!(matches!(bi.poll(&mut handle), StreamWait::Wait(0)));
    assert!(matches!(uni.poll(&mut handle), StreamWait::Wait(0)));
    handler.on_stream_created(&mut handle, Some(7), 2);
    assert!(matches!(bi.poll(&mut handle), StreamWait::Wait(0)));
    match uni.poll(&mut handle) {
        StreamWait::Ready(Ok(recv)) => assert_eq!(recv.id().into_inner(), 2),
        _ => panic!("a stream has come"),
    }
    assert!(matches!(uni.poll(&mut handle), StreamWait::Wait(0)));
    let stranger = Connection::new(99);
    assert!(matches!(
        stranger.accept_bi().poll(&mut handle),
        StreamWait::Ready(Err(ConnectionError::LocallyClosed))
    ));
    assert!(matches!(
        stranger.accept_uni().poll(&mut handle),
        StreamWait::Ready(Err(ConnectionError::LocallyClosed))
    ));
    assert!(matches!(
        Connection::closed_changed(&handle, 0, true),
        ClosedStep::Watch(0)
    ));
    assert!(matches!(
        Connection::closed_changed(&handle, 0, false),
        ClosedStep::Ready(ConnectionError::LocallyClosed)
    ));
}

#[test]
fn datagrams_are_not_supported() {
    let (mut handle, handler) = server();
    let c = Connection::new(7);
    let data = Bytes::copy_from_slice(b"x");
    assert_eq!(c.send_datagram(data.clone()), Err(SendDatagramError::UnsupportedByPeer));
    assert_eq!(
        c.send_datagram_wait(data).poll(),
        Poll::Ready(Err(SendDatagramError::UnsupportedByPeer))
    );
    assert_eq!(c.max_datagram_size(), None);
    assert_eq!(c.read_datagram().poll(&handle), Ok(0));
    handler.on_conn_closed(&mut handle, closed(Some(7)));
    assert_eq!(c.read_datagram().poll(&handle), Err(ConnectionError::LocallyClosed));
    assert_eq!(
        Connection::new(99).read_datagram().poll(&handle),
        Err(ConnectionError::LocallyClosed)
    );
    assert_eq!(tokio_tquic::ZeroRttAccepted.poll(), Poll::Ready(false));
}

#[test]
fn signal_numbers_count_up() {
    let (mut handle, handler) = server();
    handler.on_stream_created(&mut handle, Some(7), 0);
    let signals = handler.on_stream_closed(&handle, Some(7), 0);
    assert_eq!(
        signals,
        (Some(SignalRef { slot: 0, signal: 0 }), Some(SignalRef { slot: 0, signal: 1 }))
    );
}

#[test]
fn attempts_are_described() {
    let client = Connecting::new_client(localhost(9));
    assert_eq!(client.describe(), "Connecting { conn_id: None, remote_addr: 127.0.0.1:9 }");
    let server = Connecting::new_server(7, localhost(9));
    assert_eq!(server.describe(), "Connecting { conn_id: Some(7), remote_addr: 127.0.0.1:9 }");
    let data = IncomingData { conn_id: 7, remote_addr: localhost(2), validated: false };
    assert_eq!(
        Incoming::new(data).describe(),
        "Incoming { incoming_id: 7, remote_addr: 127.0.0.1:2, .. }"
    );
}
