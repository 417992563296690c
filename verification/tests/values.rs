//! Numbers, addresses, times and the messages of errors.
use tokio_tquic::addr::SocketAddr;
use tokio_tquic::config::{config_error, ConfigStep};
use tokio_tquic::engine::{EngineClose, EngineError, EngineErrorKind};
use tokio_tquic::text::{decimal_text, hexadecimal_text, join};
use tokio_tquic::time::Duration;
use tokio_tquic::types::VARINT_MAX;
use tokio_tquic::{
    ClosedStream, ConnectError, ConnectionError, ReadError, ReadExactError, ReadToEndError,
    ResetError, SendDatagramError, StoppedError, StreamId, VarInt, WriteError,
};

#[test]
fn numbers_are_written_out() {
    assert_eq!(decimal_text(0), "0");
    assert_eq!(decimal_text(1024), "1024");
    assert_eq!(decimal_text(u64::MAX), u64::MAX.to_string());
    assert_eq!(hexadecimal_text(0), "0");
    assert_eq!(hexadecimal_text(0xdb8), "db8");
    assert_eq!(hexadecimal_text(u16::MAX), "ffff");
    assert_eq!(join("a", "b"), "ab");
}

#[test]
fn varints_have_62_bits() {
    assert_eq!(VARINT_MAX, (1 << 62) - 1);
    assert_eq!(VarInt::max().into_inner(), VARINT_MAX);
    assert_eq!(VarInt::from_u64(VARINT_MAX), Some(VarInt::max()));
    assert_eq!(VarInt::from_u64(VARINT_MAX + 1), None);
    assert_eq!(VarInt::from(7u8).into_inner(), 7);
    assert_eq!(VarInt::from(700u16).into_inner(), 700);
    assert_eq!(VarInt::from(u32::MAX).into_inner(), 4294967295);
    assert_eq!(VarInt::from(42u32).to_string(), "42");
    assert_eq!(StreamId::from_raw(9).into_inner(), 9);
    assert_eq!(StreamId::from_raw(9).to_string(), "9");
}

fn v6(segments: [u16; 8], scope_id: u32) -> String {
    SocketAddr::V6 { segments, port: 4433, flowinfo: 1, scope_id }.to_string()
}

#[test]
fn addresses_are_written_out() {
    let v4 = SocketAddr::V4 { octets: [127, 0, 0, 1], port: 8080 };
    assert_eq!(v4.to_string(), "127.0.0.1:8080");
    assert_eq!(SocketAddr::unspecified().to_string(), "0.0.0.0:0");
    assert_eq!(v6([0; 8], 0), "[::]:4433");
    assert_eq!(v6([0, 0, 0, 0, 0, 0, 0, 1], 0), "[::1]:4433");
    assert_eq!(v6([0xfe80, 0, 0, 0, 0, 0, 0, 1], 2), "[fe80::1%2]:4433");
    assert_eq!(v6([0x2001, 0xdb8, 0, 1, 0, 0, 0, 1], 0), "[2001:db8:0:1::1]:4433");
    assert_eq!(v6([1, 0, 0, 2, 0, 0, 3, 4], 0), "[1::2:0:0:3:4]:4433");
    assert_eq!(v6([1, 2, 3, 4, 5, 6, 7, 8], 0), "[1:2:3:4:5:6:7:8]:4433");
    assert_eq!(v6([1, 0, 3, 4, 5, 6, 7, 8], 0), "[1:0:3:4:5:6:7:8]:4433");
    assert_eq!(v6([1, 2, 0, 0, 0, 0, 0, 0], 0), "[1:2::]:4433");
    assert_eq!(v6([0, 0, 0, 0, 0, 0xffff, 0xc0a8, 0x0102], 0), "[::ffff:192.168.1.2]:4433");
}

#[test]
fn times_are_converted() {
    assert_eq!(Duration::from_secs(30).as_millis_u64(), 30_000);
    assert_eq!(Duration::from_millis(1_500).as_secs(), 1);
    assert_eq!(Duration::from_millis(1_500).subsec_nanos(), 500_000_000);
    assert_eq!(Duration::from_micros(1_999).as_millis_u64(), 1);
    assert_eq!(Duration::new(1, 999_999_999).unwrap().as_millis_u64(), 1_999);
    assert_eq!(Duration::new(1, 1_000_000_000), None);
    // 2^64 milliseconds and 384 more do not fit in 64 bits.
    assert_eq!(Duration::from_secs(18_446_744_073_709_552).as_millis_u64(), 384);
}

#[test]
fn connect_errors_have_messages() {
    assert_eq!(ConnectError::EndpointStopping.to_string(), "endpoint stopping");
    assert_eq!(ConnectError::CidsExhausted.to_string(), "CIDs exhausted");
    let e = ConnectError::InvalidDnsName("bad name".to_string());
    assert_eq!(e.to_string(), "invalid DNS name: bad name");
    assert_eq!(e.clone(), e);
    let a = SocketAddr::V4 { octets: [1, 2, 3, 4], port: 5 };
    let e = ConnectError::InvalidRemoteAddress(a);
    assert_eq!(e.to_string(), "invalid remote address: 1.2.3.4:5");
    assert_eq!(ConnectError::NoDefaultClientConfig.to_string(), "no default client config");
}

#[test]
fn connection_errors_have_messages() {
    let transport = ConnectionError::TransportError { code: 3, reason: "oops".to_string() };
    assert_eq!(transport.to_string(), "transport error: code 3, oops");
    let closed = ConnectionError::ConnectionClosed { error_code: 2, reason: vec![1] };
    assert_eq!(closed.to_string(), "connection closed by peer: error 2");
    let app = ConnectionError::ApplicationClosed { error_code: 42, reason: vec![2] };
    assert_eq!(app.to_string(), "application closed: error 42");
    assert_eq!(app.clone(), app);
    assert_eq!(ConnectionError::VersionMismatch.to_string(), "version mismatch");
    assert_eq!(ConnectionError::Reset.to_string(), "reset by peer");
    assert_eq!(ConnectionError::TimedOut.to_string(), "timed out");
    assert_eq!(ConnectionError::LocallyClosed.to_string(), "locally closed");
    assert_eq!(ConnectionError::CidsExhausted.to_string(), "CIDs exhausted");
}

#[test]
fn stream_errors_have_messages() {
    let lost = || ConnectionError::TimedOut;
    assert_eq!(
        WriteError::Stopped(VarInt::from(5u32)).to_string(),
        "sending stopped by peer: error 5"
    );
    assert_eq!(WriteError::from(lost()).to_string(), "connection lost: timed out");
    assert_eq!(WriteError::ClosedStream.to_string(), "closed stream");
    assert_eq!(WriteError::ZeroRttRejected.to_string(), "0-RTT rejected");
    assert_eq!(StoppedError::from(lost()).to_string(), "connection lost: timed out");
    assert_eq!(StoppedError::ZeroRttRejected.to_string(), "0-RTT rejected");
    assert_eq!(ClosedStream.to_string(), "closed stream");
    assert_eq!(ReadError::Reset(VarInt::from(6u32)).to_string(), "stream reset by peer: error 6");
    assert_eq!(ReadError::from(lost()).to_string(), "connection lost: timed out");
    assert_eq!(ReadError::ClosedStream.to_string(), "closed stream");
    assert_eq!(ReadError::ZeroRttRejected.to_string(), "0-RTT rejected");
    assert_eq!(
        ReadExactError::FinishedEarly(12).to_string(),
        "stream finished early (12 bytes read)"
    );
    assert_eq!(ReadExactError::from(ReadError::ClosedStream).to_string(), "closed stream");
    assert_eq!(
        ReadToEndError::from(ReadError::ClosedStream).to_string(),
        "read error: closed stream"
    );
    assert_eq!(ReadToEndError::TooLong.to_string(), "stream too long");
    assert_eq!(ResetError::from(lost()).to_string(), "connection lost: timed out");
    assert_eq!(ResetError::ZeroRttRejected.to_string(), "0-RTT rejected");
    assert_eq!(
        SendDatagramError::UnsupportedByPeer.to_string(),
        "datagrams not supported by peer"
    );
    assert_eq!(SendDatagramError::Disabled.to_string(), "datagram support disabled");
    assert_eq!(SendDatagramError::TooLarge.to_string(), "datagram too large");
    assert_eq!(SendDatagramError::from(lost()).to_string(), "connection lost: timed out");
}

#[test]
fn clones_of_errors_are_equal() {
    let lost = ConnectionError::ConnectionClosed { error_code: 1, reason: vec![9, 8] };
    let write = WriteError::ConnectionLost(lost.clone());
    assert_eq!(write.clone(), write);
    let stopped = StoppedError::ConnectionLost(lost.clone());
    assert_eq!(stopped.clone(), stopped);
    let read = ReadError::ConnectionLost(lost.clone());
    assert_eq!(read.clone(), read);
    let exact = ReadExactError::ReadError(read.clone());
    assert_eq!(exact.clone(), exact);
    let to_end = ReadToEndError::Read(read);
    assert_eq!(to_end.clone(), to_end);
    let reset = ResetError::ConnectionLost(lost.clone());
    assert_eq!(reset.clone(), reset);
    let datagram = SendDatagramError::ConnectionLost(lost);
    assert_eq!(datagram.clone(), datagram);
}

fn engine_error(kind: EngineErrorKind) -> EngineError {
    EngineError { kind, text: "engine text".to_string() }
}

#[test]
fn engine_errors_become_connection_errors() {
    let app = EngineClose { is_app: true, error_code: 7, reason: b"x".to_vec() };
    assert_eq!(
        ConnectionError::from_tquic_conn_error(&app),
        ConnectionError::ApplicationClosed { error_code: 7, reason: b"x".to_vec() }
    );
    let transport = EngineClose { is_app: false, error_code: 8, reason: b"y".to_vec() };
    assert_eq!(
        ConnectionError::from_tquic_conn_error(&transport),
        ConnectionError::ConnectionClosed { error_code: 8, reason: b"y".to_vec() }
    );
    assert_eq!(
        ConnectionError::from_tquic_error(&engine_error(EngineErrorKind::ConnectionRefused)),
        ConnectionError::ConnectionClosed {
            error_code: 0x02,
            reason: b"connection refused".to_vec(),
        }
    );
    assert_eq!(
        ConnectionError::from_tquic_error(&engine_error(EngineErrorKind::NoViablePath)),
        ConnectionError::TimedOut
    );
    assert_eq!(
        ConnectionError::from_tquic_error(&engine_error(EngineErrorKind::ConnectionIdLimitError)),
        ConnectionError::CidsExhausted
    );
    assert_eq!(
        ConnectionError::from_tquic_error(&engine_error(EngineErrorKind::UnknownVersion)),
        ConnectionError::VersionMismatch
    );
    assert_eq!(
        ConnectionError::from_tquic_error(&engine_error(EngineErrorKind::Other)),
        ConnectionError::TransportError { code: 0, reason: "engine text".to_string() }
    );
}

#[test]
fn connect_errors_become_connection_errors() {
    let transport = |reason: &str| ConnectionError::TransportError {
        code: 0,
        reason: reason.to_string(),
    };
    assert_eq!(
        ConnectionError::from_connect_error(ConnectError::EndpointStopping),
        ConnectionError::LocallyClosed
    );
    assert_eq!(
        ConnectionError::from_connect_error(ConnectError::CidsExhausted),
        ConnectionError::CidsExhausted
    );
    assert_eq!(
        ConnectionError::from_connect_error(ConnectError::InvalidDnsName("n".to_string())),
        transport("n")
    );
    let a = SocketAddr::V4 { octets: [1, 2, 3, 4], port: 5 };
    assert_eq!(
        ConnectionError::from_connect_error(ConnectError::InvalidRemoteAddress(a)),
        transport("invalid remote address: 1.2.3.4:5")
    );
    assert_eq!(
        ConnectionError::from_connect_error(ConnectError::NoDefaultClientConfig),
        transport("no default client config")
    );
}

#[test]
fn failed_config_steps_are_named() {
    let message = |step| config_error(step, "why").to_string();
    assert_eq!(message(ConfigStep::Tls), "invalid DNS name: TLS config error: why");
    assert_eq!(message(ConfigStep::CaCerts), "invalid DNS name: CA cert error: why");
    assert_eq!(message(ConfigStep::Config), "invalid DNS name: config error: why");
}
