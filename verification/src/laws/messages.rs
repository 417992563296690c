//! What errors and other values say of themselves, and what errors come to, from the arguments and
//! results of the functions that convert them and write them out.
use vstd::prelude::*;

use crate::addr::SocketAddr;
use crate::command::BridgeCommand;
use crate::config::{config_error, ClientConfig, ConfigStep, ServerConfig};
use crate::connection::{Connecting, SendDatagramError};
use crate::engine::{EngineClose, EngineError};
use crate::error::{ConnectError, ConnectionError};
use crate::incoming::{Incoming, RetryError};
use crate::recv_stream::{ReadError, ReadExactError, ReadToEndError, ResetError};
use crate::send_stream::{ClosedStream, StoppedError, WriteError};
use crate::text::{byte_lists_text, decimal_text, truth_text};
use crate::types::VarInt;

verus! {

// ---------------------------------------------------------------------------
// Messages
// ---------------------------------------------------------------------------

/// The message of a connection's error names the kind of the error, and its code and reason where
/// the error has them; of a close it names the code alone.
pub proof fn law_connection_error_says_what_it_is(e: ConnectionError, r: String, number: String)
    requires
        call_ensures(ConnectionError::to_string, (&e,), r),
        e matches ConnectionError::TransportError { code, .. } ==> call_ensures(
            decimal_text,
            (code,),
            number,
        ),
        e matches ConnectionError::ConnectionClosed { error_code, .. } ==> call_ensures(
            decimal_text,
            (error_code,),
            number,
        ),
        e matches ConnectionError::ApplicationClosed { error_code, .. } ==> call_ensures(
            decimal_text,
            (error_code,),
            number,
        ),
    ensures
        e is VersionMismatch ==> r@ == "version mismatch"@,
        e matches ConnectionError::TransportError { reason, .. } ==> r@
            == "transport error: code "@ + number@ + ", "@ + reason@,
        e is ConnectionClosed ==> r@ == "connection closed by peer: error "@ + number@,
        e is ApplicationClosed ==> r@ == "application closed: error "@ + number@,
        e is Reset ==> r@ == "reset by peer"@,
        e is TimedOut ==> r@ == "timed out"@,
        e is LocallyClosed ==> r@ == "locally closed"@,
        e is CidsExhausted ==> r@ == "CIDs exhausted"@,
{
}

/// The message of an attempt's error names the kind of the error, and the name or address where the
/// error has one.
pub proof fn law_connect_error_says_what_it_is(e: ConnectError, r: String, at: String)
    requires
        call_ensures(ConnectError::to_string, (&e,), r),
        e matches ConnectError::InvalidRemoteAddress(a) ==> call_ensures(
            SocketAddr::to_string,
            (&a,),
            at,
        ),
    ensures
        e is EndpointStopping ==> r@ == "endpoint stopping"@,
        e is CidsExhausted ==> r@ == "CIDs exhausted"@,
        e matches ConnectError::InvalidDnsName(s) ==> r@ == "invalid DNS name: "@ + s@,
        e is InvalidRemoteAddress ==> r@ == "invalid remote address: "@ + at@,
        e is NoDefaultClientConfig ==> r@ == "no default client config"@,
{
}

/// The message of a read's error names the kind of the error, with the peer's code or the message of
/// the connection's error where there is one; so do those of a read of exactly a buffer and of a
/// read to the end.
pub proof fn law_read_errors_say_what_they_are(
    e: ReadError,
    r: String,
    detail: String,
    exact: ReadExactError,
    exact_text: String,
    to_end: ReadToEndError,
    to_end_text: String,
    count: String,
)
    requires
        call_ensures(ReadError::to_string, (&e,), r),
        e matches ReadError::Reset(code) ==> call_ensures(VarInt::to_string, (&code,), detail),
        e matches ReadError::ConnectionLost(lost) ==> call_ensures(
            ConnectionError::to_string,
            (&lost,),
            detail,
        ),
        exact matches ReadExactError::ReadError(inner) ==> inner == e,
        exact matches ReadExactError::FinishedEarly(n) ==> call_ensures(
            decimal_text,
            (n as u64,),
            count,
        ),
        call_ensures(ReadExactError::to_string, (&exact,), exact_text),
        to_end matches ReadToEndError::Read(inner) ==> inner == e,
        call_ensures(ReadToEndError::to_string, (&to_end,), to_end_text),
    ensures
        e is Reset ==> r@ == "stream reset by peer: error "@ + detail@,
        e is ConnectionLost ==> r@ == "connection lost: "@ + detail@,
        e is ClosedStream ==> r@ == "closed stream"@,
        e is ZeroRttRejected ==> r@ == "0-RTT rejected"@,
        exact is ReadError ==> exact_text@ == r@,
        exact is FinishedEarly ==> exact_text@ == "stream finished early ("@ + count@
            + " bytes read)"@,
        to_end is Read ==> to_end_text@ == "read error: "@ + r@,
        to_end is TooLong ==> to_end_text@ == "stream too long"@,
{
}

/// The message of a write's error names the kind of the error, with the peer's code or the message of
/// the connection's error where there is one; so do those of the waits for a stop and for a reset,
/// of a datagram, of a closed stream and of a retry.
pub proof fn law_other_errors_say_what_they_are(
    e: WriteError,
    r: String,
    detail: String,
    stopped: StoppedError,
    stopped_text: String,
    reset: ResetError,
    reset_text: String,
    datagram: SendDatagramError,
    datagram_text: String,
    lost: ConnectionError,
    lost_text: String,
    closed: ClosedStream,
    closed_text: String,
    retry: RetryError,
    retry_text: String,
)
    requires
        call_ensures(WriteError::to_string, (&e,), r),
        e matches WriteError::Stopped(code) ==> call_ensures(VarInt::to_string, (&code,), detail),
        call_ensures(ConnectionError::to_string, (&lost,), lost_text),
        e matches WriteError::ConnectionLost(inner) ==> inner == lost,
        stopped matches StoppedError::ConnectionLost(inner) ==> inner == lost,
        call_ensures(StoppedError::to_string, (&stopped,), stopped_text),
        reset matches ResetError::ConnectionLost(inner) ==> inner == lost,
        call_ensures(ResetError::to_string, (&reset,), reset_text),
        datagram matches SendDatagramError::ConnectionLost(inner) ==> inner == lost,
        call_ensures(SendDatagramError::to_string, (&datagram,), datagram_text),
        call_ensures(ClosedStream::to_string, (&closed,), closed_text),
        call_ensures(RetryError::to_string, (&retry,), retry_text),
    ensures
        e is Stopped ==> r@ == "sending stopped by peer: error "@ + detail@,
        e is ConnectionLost ==> r@ == "connection lost: "@ + lost_text@,
        e is ClosedStream ==> r@ == "closed stream"@,
        e is ZeroRttRejected ==> r@ == "0-RTT rejected"@,
        stopped is ConnectionLost ==> stopped_text@ == "connection lost: "@ + lost_text@,
        stopped is ZeroRttRejected ==> stopped_text@ == "0-RTT rejected"@,
        reset is ConnectionLost ==> reset_text@ == "connection lost: "@ + lost_text@,
        reset is ZeroRttRejected ==> reset_text@ == "0-RTT rejected"@,
        datagram is UnsupportedByPeer ==> datagram_text@ == "datagrams not supported by peer"@,
        datagram is Disabled ==> datagram_text@ == "datagram support disabled"@,
        datagram is TooLarge ==> datagram_text@ == "datagram too large"@,
        datagram is ConnectionLost ==> datagram_text@ == "connection lost: "@ + lost_text@,
        closed_text@ == "closed stream"@,
        retry_text@ == "retry() is not supported; use Config::enable_retry instead"@,
{
}

/// A configuration that cannot be built fails with the name of the step and the engine's words.
pub proof fn law_failed_step_is_named(
    step: ConfigStep,
    why: &str,
    e: ConnectError,
)
    requires
        call_ensures(config_error, (step, why), e),
    ensures
        e matches ConnectError::InvalidDnsName(s) && {
            &&& step is Tls ==> s@ == "TLS config error: "@ + why@
            &&& step is CaCerts ==> s@ == "CA cert error: "@ + why@
            &&& step is Config ==> s@ == "config error: "@ + why@
        },
{
}

// ---------------------------------------------------------------------------
// Descriptions
// ---------------------------------------------------------------------------

/// The description of a command names it, with the numbers of its connection and stream, or with the
/// address and name that it goes to.
pub proof fn law_command_is_described(
    cmd: BridgeCommand,
    r: String,
    conn: String,
    stream: String,
    at: String,
)
    requires
        call_ensures(BridgeCommand::describe, (&cmd,), r),
        cmd matches BridgeCommand::Connect { addr, .. } ==> call_ensures(
            SocketAddr::to_string,
            (&addr,),
            at,
        ),
        cmd matches BridgeCommand::CloseConnection { conn_id, .. } ==> call_ensures(
            decimal_text,
            (conn_id,),
            conn,
        ),
        cmd matches BridgeCommand::OpenBiStream { conn_id } ==> call_ensures(
            decimal_text,
            (conn_id,),
            conn,
        ),
        cmd matches BridgeCommand::OpenUniStream { conn_id } ==> call_ensures(
            decimal_text,
            (conn_id,),
            conn,
        ),
        cmd matches BridgeCommand::StreamWrite { conn_id, stream_id, .. } ==> call_ensures(
            decimal_text,
            (conn_id,),
            conn,
        ) && call_ensures(decimal_text, (stream_id,), stream),
        cmd matches BridgeCommand::StreamRead { conn_id, stream_id, .. } ==> call_ensures(
            decimal_text,
            (conn_id,),
            conn,
        ) && call_ensures(decimal_text, (stream_id,), stream),
    ensures
        cmd matches BridgeCommand::Connect { server_name, .. } ==> r@ == "Connect("@ + at@ + ", "@
            + server_name@ + ")"@,
        cmd is CloseEndpoint ==> r@ == "CloseEndpoint"@,
        cmd is CloseConnection ==> r@ == "CloseConnection("@ + conn@ + ")"@,
        cmd is OpenBiStream ==> r@ == "OpenBiStream("@ + conn@ + ")"@,
        cmd is OpenUniStream ==> r@ == "OpenUniStream("@ + conn@ + ")"@,
        cmd is StreamWrite ==> r@ == "StreamWrite("@ + conn@ + ", "@ + stream@ + ")"@,
        cmd is StreamRead ==> r@ == "StreamRead("@ + conn@ + ", "@ + stream@ + ")"@,
        cmd is SetServerConfig || cmd is SetDefaultClientConfig || cmd is AcceptIncoming || cmd
            is RefuseIncoming || cmd is StreamShutdownRead || cmd is StreamShutdownWrite || cmd
            is StreamSetPriority || cmd is GetRtt || cmd is AddPath || cmd is AbandonPath || cmd
            is MigratePath || cmd is GetPathStats || cmd is GetPaths ==> r@
            == "tokio_tquic::bridge::BridgeCommand"@,
{
}

/// The description of an attempt and of an incoming connection give its ID and address.
pub proof fn law_attempts_are_described(
    id: u64,
    at: SocketAddr,
    number: String,
    place: String,
    client: Connecting,
    client_text: String,
    server: Connecting,
    server_text: String,
    incoming: Incoming,
    incoming_text: String,
)
    requires
        call_ensures(decimal_text, (id,), number),
        call_ensures(SocketAddr::to_string, (&at,), place),
        call_ensures(Connecting::new_client, (at,), client),
        call_ensures(Connecting::describe, (&client,), client_text),
        call_ensures(Connecting::new_server, (id, at), server),
        call_ensures(Connecting::describe, (&server,), server_text),
        incoming@.incoming_id == id,
        incoming@.remote_addr == at,
        call_ensures(Incoming::describe, (&incoming,), incoming_text),
    ensures
        client_text@ == "Connecting { conn_id: "@ + "None"@ + ", remote_addr: "@ + place@ + " }"@,
        server_text@ == "Connecting { conn_id: "@ + ("Some("@ + number@ + ")"@)
            + ", remote_addr: "@ + place@ + " }"@,
        incoming_text@ == "Incoming { incoming_id: "@ + number@ + ", remote_addr: "@ + place@
            + ", .. }"@,
{
}

/// The description of a configuration gives its protocols and options and leaves out its files.
pub proof fn law_configurations_are_described(
    server: ServerConfig,
    server_text: String,
    server_protocols: String,
    early: &'static str,
    retry: &'static str,
    client: ClientConfig,
    client_text: String,
    client_protocols: String,
    client_early: &'static str,
    verify: &'static str,
)
    requires
        call_ensures(ServerConfig::describe, (&server,), server_text),
        call_ensures(byte_lists_text, (&server.alpn_protocols,), server_protocols),
        call_ensures(truth_text, (server.enable_early_data,), early),
        call_ensures(truth_text, (server.enable_retry,), retry),
        call_ensures(ClientConfig::describe, (&client,), client_text),
        call_ensures(byte_lists_text, (&client.alpn_protocols,), client_protocols),
        call_ensures(truth_text, (client.enable_early_data,), client_early),
        call_ensures(truth_text, (client.verify,), verify),
    ensures
        server_text@ == "ServerConfig { alpn_protocols: "@ + server_protocols@
            + ", enable_early_data: "@ + early@ + ", enable_retry: "@ + retry@ + ", .. }"@,
        client_text@ == "ClientConfig { alpn_protocols: "@ + client_protocols@
            + ", enable_early_data: "@ + client_early@ + ", verify: "@ + verify@ + ", .. }"@,
        early@ == (if server.enable_early_data {
            "true"@
        } else {
            "false"@
        }),
        verify@ == (if client.verify {
            "true"@
        } else {
            "false"@
        }),
{
}

// ---------------------------------------------------------------------------
// Conversions
// ---------------------------------------------------------------------------

/// A close that the peer has sent comes to an application's or a connection's close, as it says, with
/// the very code and reason.
pub proof fn law_peers_close_keeps_code_and_reason(close: EngineClose, e: ConnectionError)
    requires
        call_ensures(ConnectionError::from_tquic_conn_error, (&close,), e),
    ensures
        close.is_app ==> (e matches ConnectionError::ApplicationClosed { error_code, reason }
            && error_code == close.error_code && reason@ == close.reason@),
        !close.is_app ==> (e matches ConnectionError::ConnectionClosed { error_code, reason }
            && error_code == close.error_code && reason@ == close.reason@),
{
}

/// A close of this side comes to a local one where the application or a refusal has asked for it,
/// and elsewhere to a transport error with the code of the close and, where it is text, the reason.
pub proof fn law_own_close_is_told_apart(close: EngineClose, e: ConnectionError)
    requires
        call_ensures(ConnectionError::from_local_close, (&close,), e),
    ensures
        close.is_app ==> e is LocallyClosed,
        !close.is_app && close.error_code != 2 ==> e is TransportError,
        e matches ConnectionError::TransportError { code, reason } ==> {
            &&& !close.is_app
            &&& code == close.error_code
            &&& vstd::utf8::valid_utf8(close.reason@) ==> reason@ == vstd::utf8::decode_utf8(
                close.reason@,
            )
            &&& !vstd::utf8::valid_utf8(close.reason@) ==> reason@.len() == 0
        },
        e is LocallyClosed || e is TransportError,
        e is LocallyClosed && !close.is_app ==> close.error_code == 2 && close.reason@.len() == 7,
{
}

/// An engine's error comes to the connection's error of its kind, and to a transport error with the
/// engine's text where there is none of its kind.
pub proof fn law_engine_error_is_told_apart(err: EngineError, e: ConnectionError)
    requires
        call_ensures(ConnectionError::from_tquic_error, (&err,), e),
    ensures
        err.kind is ConnectionRefused <==> e is ConnectionClosed,
        e matches ConnectionError::ConnectionClosed { error_code, reason } ==> error_code == 2
            && reason@ == seq![
            99u8,
            111u8,
            110u8,
            110u8,
            101u8,
            99u8,
            116u8,
            105u8,
            111u8,
            110u8,
            32u8,
            114u8,
            101u8,
            102u8,
            117u8,
            115u8,
            101u8,
            100u8,
        ],
        err.kind is NoViablePath <==> e is TimedOut,
        err.kind is ConnectionIdLimitError <==> e is CidsExhausted,
        err.kind is UnknownVersion <==> e is VersionMismatch,
        err.kind is Done || err.kind is StreamStopped || err.kind is StreamReset || err.kind
            is InvalidConfig || err.kind is Other <==> e is TransportError,
        e matches ConnectionError::TransportError { code, reason } ==> code == 0 && reason@
            == err.text@,
{
    assert(crate::error::CONNECTION_REFUSED@ =~= seq![
        99u8,
        111u8,
        110u8,
        110u8,
        101u8,
        99u8,
        116u8,
        105u8,
        111u8,
        110u8,
        32u8,
        114u8,
        101u8,
        102u8,
        117u8,
        115u8,
        101u8,
        100u8,
    ]);
}

/// The error of a failed attempt comes to the connection's error of its kind, and to a transport
/// error with its message, or the name alone, where there is none of its kind.
pub proof fn law_connect_error_is_told_apart(err: ConnectError, said: String, e: ConnectionError)
    requires
        call_ensures(ConnectError::to_string, (&err,), said),
        call_ensures(ConnectionError::from_connect_error, (err,), e),
    ensures
        err is EndpointStopping <==> e is LocallyClosed,
        err is CidsExhausted <==> e is CidsExhausted,
        e matches ConnectionError::TransportError { code, reason } ==> {
            &&& code == 0
            &&& err matches ConnectError::InvalidDnsName(s) ==> reason@ == s@
            &&& !(err is InvalidDnsName) ==> reason@ == said@
        },
        err is InvalidDnsName || err is InvalidRemoteAddress || err is NoDefaultClientConfig <==> e
            is TransportError,
{
}

/// A connection that is lost is what the errors of its streams and datagrams say; and the error of a
/// read is what the errors of the longer reads say.
pub proof fn law_inner_errors_are_kept(
    lost: ConnectionError,
    read: ReadError,
    write: WriteError,
    stopped: StoppedError,
    reset: ResetError,
    datagram: SendDatagramError,
    exact: ReadExactError,
    to_end: ReadToEndError,
)
    requires
        call_ensures(<ReadError as From<ConnectionError>>::from, (lost,), read),
        call_ensures(<WriteError as From<ConnectionError>>::from, (lost,), write),
        call_ensures(<StoppedError as From<ConnectionError>>::from, (lost,), stopped),
        call_ensures(<ResetError as From<ConnectionError>>::from, (lost,), reset),
        call_ensures(<SendDatagramError as From<ConnectionError>>::from, (lost,), datagram),
        call_ensures(<ReadExactError as From<ReadError>>::from, (read,), exact),
        call_ensures(<ReadToEndError as From<ReadError>>::from, (read,), to_end),
    ensures
        read == ReadError::ConnectionLost(lost),
        write == WriteError::ConnectionLost(lost),
        stopped == StoppedError::ConnectionLost(lost),
        reset == ResetError::ConnectionLost(lost),
        datagram == SendDatagramError::ConnectionLost(lost),
        exact == ReadExactError::ReadError(read),
        to_end == ReadToEndError::Read(read),
{
}

/// The copy of an error is of the same kind and says the same.
pub proof fn law_copied_error_is_the_same(
    e: ConnectionError,
    copy: ConnectionError,
    said: String,
    copy_said: String,
)
    requires
        call_ensures(<ConnectionError as Clone>::clone, (&e,), copy),
        call_ensures(ConnectionError::to_string, (&e,), said),
        call_ensures(ConnectionError::to_string, (&copy,), copy_said),
    ensures
        copy_said@ == said@,
        e is VersionMismatch <==> copy is VersionMismatch,
        e is TransportError <==> copy is TransportError,
        e is ConnectionClosed <==> copy is ConnectionClosed,
        e is ApplicationClosed <==> copy is ApplicationClosed,
        e is Reset <==> copy is Reset,
        e is TimedOut <==> copy is TimedOut,
        e is LocallyClosed <==> copy is LocallyClosed,
        e is CidsExhausted <==> copy is CidsExhausted,
        e matches ConnectionError::ApplicationClosed { error_code, reason } ==> (
        copy matches ConnectionError::ApplicationClosed { error_code: code, reason: why } && code
            == error_code && why@ == reason@),
        e matches ConnectionError::ConnectionClosed { error_code, reason } ==> (
        copy matches ConnectionError::ConnectionClosed { error_code: code, reason: why } && code
            == error_code && why@ == reason@),
{
}

} // verus!
