//! Commands from the async side to the bridge thread, the engine calls that they turn into, and
//! the replies that the engine's answers turn into.
use bytes::Bytes;
use vstd::prelude::*;
use vstd::string::*;

use crate::addr;
use crate::addr::{FourTuple, SocketAddr};
use crate::bridge::{BridgeHandle, BridgeView};
use crate::buffer;
use crate::config;
use crate::config::{
    build_client_tls_config, build_server_tls_config, build_tquic_config, config_error,
    ClientConfig, ConfigStep, EndpointConfig, EngineConfig, ServerConfig,
};
use crate::engine::{EngineError, EngineErrorKind, PathStats};
use crate::error::{ConnectError, ConnectionError, ConnectionErrorView};
use crate::recv_stream::{ReadError, ReadErrorView};
use crate::send_stream::{WriteError, WriteErrorView};
use crate::text;
use crate::text::{decimal_text, join};
use crate::time::Duration;
use crate::types::{Dir, VarInt, VARINT_MAX};

verus! {

/// A command from the async side to the bridge thread.
#[allow(inconsistent_fields)]
pub enum BridgeCommand {
    /// Initiate a connection.
    Connect {
        /// The peer's address.
        addr: SocketAddr,
        /// The peer's name.
        server_name: String,
        /// A configuration for this connection alone.
        client_config: Option<ClientConfig>,
    },
    /// Replace the server configuration.
    SetServerConfig {
        /// The new configuration; `None` for an endpoint that serves no longer.
        config: Option<ServerConfig>,
    },
    /// Set the configuration of connections that bring none of their own.
    SetDefaultClientConfig {
        /// The new configuration.
        config: ClientConfig,
    },
    /// Close the endpoint and its connections.
    CloseEndpoint {
        /// The application's error code.
        error_code: u64,
        /// The reason.
        reason: Vec<u8>,
    },
    /// Accept an incoming connection.
    AcceptIncoming,
    /// Refuse an incoming connection.
    RefuseIncoming {
        /// The connection.
        conn_id: u64,
    },
    /// Close a connection.
    CloseConnection {
        /// The connection.
        conn_id: u64,
        /// The application's error code.
        error_code: u64,
        /// The reason.
        reason: Vec<u8>,
    },
    /// Open a bidirectional stream.
    OpenBiStream {
        /// The connection.
        conn_id: u64,
    },
    /// Open a unidirectional stream.
    OpenUniStream {
        /// The connection.
        conn_id: u64,
    },
    /// Write to a stream.
    StreamWrite {
        /// The connection.
        conn_id: u64,
        /// The stream.
        stream_id: u64,
        /// The data.
        data: Bytes,
        /// Whether the stream ends after the data.
        fin: bool,
    },
    /// Read from a stream.
    StreamRead {
        /// The connection.
        conn_id: u64,
        /// The stream.
        stream_id: u64,
        /// The most bytes to read.
        max_len: usize,
    },
    /// Stop reading from a stream.
    StreamShutdownRead {
        /// The connection.
        conn_id: u64,
        /// The stream.
        stream_id: u64,
        /// The application's error code.
        error_code: u64,
    },
    /// Abandon writing to a stream.
    StreamShutdownWrite {
        /// The connection.
        conn_id: u64,
        /// The stream.
        stream_id: u64,
        /// The application's error code.
        error_code: u64,
    },
    /// Set the priority of a stream.
    StreamSetPriority {
        /// The connection.
        conn_id: u64,
        /// The stream.
        stream_id: u64,
        /// The urgency.
        urgency: u8,
    },
    /// Ask for the round-trip time.
    GetRtt {
        /// The connection.
        conn_id: u64,
    },
    /// Add a network path.
    AddPath {
        /// The connection.
        conn_id: u64,
        /// The local end.
        local: SocketAddr,
        /// The remote end.
        remote: SocketAddr,
    },
    /// Abandon a network path.
    AbandonPath {
        /// The connection.
        conn_id: u64,
        /// The local end.
        local: SocketAddr,
        /// The remote end.
        remote: SocketAddr,
    },
    /// Move to a network path.
    MigratePath {
        /// The connection.
        conn_id: u64,
        /// The local end.
        local: SocketAddr,
        /// The remote end.
        remote: SocketAddr,
    },
    /// Ask for the statistics of a network path.
    GetPathStats {
        /// The connection.
        conn_id: u64,
        /// The local end.
        local: SocketAddr,
        /// The remote end.
        remote: SocketAddr,
    },
    /// Ask for the network paths.
    GetPaths {
        /// The connection.
        conn_id: u64,
    },
}

/// The number in round brackets after a name.
pub open spec fn name_with_number(name: Seq<char>, number: u64) -> Seq<char> {
    name + text::decimal(number as nat) + ")"@
}

/// The two numbers in round brackets after a name.
pub open spec fn name_with_numbers(name: Seq<char>, first: u64, second: u64) -> Seq<char> {
    name + text::decimal(first as nat) + ", "@ + text::decimal(second as nat) + ")"@
}

fn number_text(name: &str, number: u64) -> (r: String)
    ensures
        r@ == name_with_number(name@, number),
{
    let mut r = join(name, decimal_text(number).as_str());
    r.append(")");
    r
}

fn numbers_text(name: &str, first: u64, second: u64) -> (r: String)
    ensures
        r@ == name_with_numbers(name@, first, second),
{
    let mut r = join(name, decimal_text(first).as_str());
    r.append(", ");
    r.append(decimal_text(second).as_str());
    r.append(")");
    r
}

impl BridgeCommand {
    /// A short description of the command. Where there is nothing to tell, it is the type's name.
    pub open spec fn description(self) -> Seq<char> {
        match self {
            BridgeCommand::Connect { addr, server_name, client_config: _ } => "Connect("@
                + addr::socket_addr_text(addr) + ", "@ + server_name@ + ")"@,
            BridgeCommand::CloseEndpoint { error_code: _, reason: _ } => "CloseEndpoint"@,
            BridgeCommand::CloseConnection { conn_id, error_code: _, reason: _ } => name_with_number(
                "CloseConnection("@,
                conn_id,
            ),
            BridgeCommand::OpenBiStream { conn_id } => name_with_number("OpenBiStream("@, conn_id),
            BridgeCommand::OpenUniStream { conn_id } => name_with_number(
                "OpenUniStream("@,
                conn_id,
            ),
            BridgeCommand::StreamWrite { conn_id, stream_id, data: _, fin: _ } => name_with_numbers(
                "StreamWrite("@,
                conn_id,
                stream_id,
            ),
            BridgeCommand::StreamRead { conn_id, stream_id, max_len: _ } => name_with_numbers(
                "StreamRead("@,
                conn_id,
                stream_id,
            ),
            _ => "tokio_tquic::bridge::BridgeCommand"@,
        }
    }

    /// A short description of the command, for logs.
    pub fn describe(&self) -> (r: String)
        ensures
            r@ == self.description(),
    {
        match self {
            BridgeCommand::Connect { addr, server_name, client_config: _ } => {
                let mut r = join("Connect(", addr.to_string().as_str());
                r.append(", ");
                r.append(server_name.as_str());
                r.append(")");
                r
            },
            BridgeCommand::CloseEndpoint { error_code: _, reason: _ } => "CloseEndpoint".to_owned(),
            BridgeCommand::CloseConnection { conn_id, error_code: _, reason: _ } => number_text(
                "CloseConnection(",
                *conn_id,
            ),
            BridgeCommand::OpenBiStream { conn_id } => number_text("OpenBiStream(", *conn_id),
            BridgeCommand::OpenUniStream { conn_id } => number_text("OpenUniStream(", *conn_id),
            BridgeCommand::StreamWrite { conn_id, stream_id, data: _, fin: _ } => numbers_text(
                "StreamWrite(",
                *conn_id,
                *stream_id,
            ),
            BridgeCommand::StreamRead { conn_id, stream_id, max_len: _ } => numbers_text(
                "StreamRead(",
                *conn_id,
                *stream_id,
            ),
            _ => "tokio_tquic::bridge::BridgeCommand".to_owned(),
        }
    }
}

// ---------------------------------------------------------------------------
// Engine calls
// ---------------------------------------------------------------------------

/// The side of a stream that is shut down.
#[derive(Debug, Clone, Copy, PartialEq, Eq, Structural)]
pub enum Shutdown {
    /// Stop receiving data on the stream.
    Read,
    /// Stop sending data on the stream.
    Write,
}

/// What is done to a network path.
#[derive(Debug, Clone, Copy, PartialEq, Eq, Structural)]
pub enum PathOp {
    /// Add it.
    Add,
    /// Abandon it.
    Abandon,
    /// Move to it.
    Migrate,
}

/// What the engine is asked to do for a command.
#[allow(inconsistent_fields)]
pub enum EngineCall {
    /// Nothing.
    Nothing,
    /// Start a connection, with its own configuration or else with the endpoint's.
    Connect {
        /// The local address.
        local: SocketAddr,
        /// The peer's address.
        remote: SocketAddr,
        /// The peer's name.
        server_name: String,
        /// The connection's own configuration.
        config: Option<EngineConfig>,
    },
    /// Serve the connections that come from now on with another configuration.
    ServeWith {
        /// The configuration.
        config: EngineConfig,
    },
    /// Serve no connections that come from now on.
    StopServing,
    /// Close each of the connections, then the endpoint.
    CloseEndpoint {
        /// The connections.
        conn_ids: Vec<u64>,
        /// Whether the connections are closed by the application.
        app: bool,
        /// The error code for the connections.
        error_code: u64,
        /// The reason for the connections.
        reason: Vec<u8>,
        /// Whether the endpoint is closed without waiting for its connections.
        force: bool,
    },
    /// Close a connection.
    CloseConnection {
        /// The connection.
        conn_id: u64,
        /// Whether it is closed by the application.
        app: bool,
        /// The error code.
        error_code: u64,
        /// The reason.
        reason: Vec<u8>,
    },
    /// Open a stream.
    OpenStream {
        /// The connection.
        conn_id: u64,
        /// The direction.
        dir: Dir,
        /// The urgency.
        urgency: u8,
        /// Whether the stream is incremental.
        incremental: bool,
    },
    /// Write to a stream.
    StreamWrite {
        /// The connection.
        conn_id: u64,
        /// The stream.
        stream_id: u64,
        /// The data.
        data: Bytes,
        /// Whether the stream ends after the data.
        fin: bool,
    },
    /// Read from a stream.
    StreamRead {
        /// The connection.
        conn_id: u64,
        /// The stream.
        stream_id: u64,
        /// The most bytes to read.
        max_len: usize,
    },
    /// Shut down one side of a stream.
    StreamShutdown {
        /// The connection.
        conn_id: u64,
        /// The stream.
        stream_id: u64,
        /// The side.
        side: Shutdown,
        /// The application's error code.
        error_code: u64,
    },
    /// Set the priority of a stream.
    StreamSetPriority {
        /// The connection.
        conn_id: u64,
        /// The stream.
        stream_id: u64,
        /// The urgency.
        urgency: u8,
        /// Whether the stream is incremental.
        incremental: bool,
    },
    /// Look up the smoothed round-trip time of the first path.
    MeasureRtt {
        /// The connection.
        conn_id: u64,
    },
    /// Change a network path.
    ChangePath {
        /// The connection.
        conn_id: u64,
        /// What is done.
        op: PathOp,
        /// The local end.
        local: SocketAddr,
        /// The remote end.
        remote: SocketAddr,
    },
    /// Look up the statistics of a network path.
    PathStats {
        /// The connection.
        conn_id: u64,
        /// The local end.
        local: SocketAddr,
        /// The remote end.
        remote: SocketAddr,
    },
    /// List the network paths.
    Paths {
        /// The connection.
        conn_id: u64,
    },
}

/// The error code of a refused connection.
pub const REFUSED_CODE: u64 = 0x02;

/// The bytes of the text `refused`.
pub const REFUSED_REASON: [u8; 7] = [114, 101, 102, 117, 115, 101, 100];

/// What the bridge thread keeps between commands.
pub struct BridgeWorker {
    /// The endpoint's configuration.
    pub endpoint_config: EndpointConfig,
    /// The configuration of connections that bring none of their own.
    pub current_client_config: Option<ClientConfig>,
    /// The address that the endpoint is bound to.
    pub local_addr: SocketAddr,
}

/// The configuration of a connection: its own, or else the default one.
pub open spec fn chosen_config(
    own: Option<ClientConfig>,
    default: Option<ClientConfig>,
) -> Option<ClientConfig> {
    match own {
        Some(c) => Some(c),
        None => default,
    }
}

/// The engine configuration is the one for the client configuration, if there is one.
pub open spec fn is_config_for(
    config: Option<EngineConfig>,
    endpoint: EndpointConfig,
    client: Option<ClientConfig>,
) -> bool {
    match client {
        Some(cc) => {
            &&& config matches Some(c)
            &&& config::is_client_tls(c.tls, cc)
            &&& c.quic == config::quic_settings(endpoint, *cc.transport, None)
        },
        None => config is None,
    }
}

/// The engine call is the one that a command turns into.
pub open spec fn is_call_for(
    call: EngineCall,
    cmd: BridgeCommand,
    worker: BridgeWorker,
    state: BridgeView,
) -> bool {
    match cmd {
        BridgeCommand::Connect { addr, server_name, client_config } => {
            &&& call matches EngineCall::Connect { local, remote, server_name: name, config }
            &&& local == worker.local_addr
            &&& remote == addr
            &&& name == server_name
            &&& is_config_for(
                config,
                worker.endpoint_config,
                chosen_config(client_config, worker.current_client_config),
            )
        },
        BridgeCommand::SetServerConfig { config: Some(sc) } => {
            &&& call matches EngineCall::ServeWith { config }
            &&& config::is_server_tls(config.tls, sc)
            &&& config.quic == config::quic_settings(
                worker.endpoint_config,
                *sc.transport,
                Some(sc.enable_retry),
            )
        },
        BridgeCommand::SetServerConfig { config: None } => call is StopServing,
        BridgeCommand::SetDefaultClientConfig { config: _ } => call is Nothing,
        BridgeCommand::CloseEndpoint { error_code, reason } => {
            &&& call matches EngineCall::CloseEndpoint {
                conn_ids,
                app,
                error_code: code,
                reason: why,
                force,
            }
            &&& conn_ids@.no_duplicates()
            &&& forall|id: u64| #[trigger]
                conn_ids@.contains(id) <==> state.conn_states.contains_key(id)
            &&& app
            &&& code == error_code
            &&& why == reason
            &&& !force
        },
        BridgeCommand::AcceptIncoming => call is Nothing,
        BridgeCommand::RefuseIncoming { conn_id } => {
            &&& call matches EngineCall::CloseConnection { conn_id: id, app, error_code, reason }
            &&& id == conn_id
            &&& !app
            &&& error_code == REFUSED_CODE
            &&& reason@ == REFUSED_REASON@
        },
        BridgeCommand::CloseConnection { conn_id, error_code, reason } => call
            == (EngineCall::CloseConnection { conn_id, app: true, error_code, reason }),
        BridgeCommand::OpenBiStream { conn_id } => call == (EngineCall::OpenStream {
            conn_id,
            dir: Dir::Bi,
            urgency: 0,
            incremental: false,
        }),
        BridgeCommand::OpenUniStream { conn_id } => call == (EngineCall::OpenStream {
            conn_id,
            dir: Dir::Uni,
            urgency: 0,
            incremental: false,
        }),
        BridgeCommand::StreamWrite { conn_id, stream_id, data, fin } => call
            == (EngineCall::StreamWrite { conn_id, stream_id, data, fin }),
        BridgeCommand::StreamRead { conn_id, stream_id, max_len } => call
            == (EngineCall::StreamRead { conn_id, stream_id, max_len }),
        BridgeCommand::StreamShutdownRead { conn_id, stream_id, error_code } => call
            == (EngineCall::StreamShutdown { conn_id, stream_id, side: Shutdown::Read, error_code }),
        BridgeCommand::StreamShutdownWrite { conn_id, stream_id, error_code } => call
            == (EngineCall::StreamShutdown {
            conn_id,
            stream_id,
            side: Shutdown::Write,
            error_code,
        }),
        BridgeCommand::StreamSetPriority { conn_id, stream_id, urgency } => call
            == (EngineCall::StreamSetPriority { conn_id, stream_id, urgency, incremental: false }),
        BridgeCommand::GetRtt { conn_id } => call == (EngineCall::MeasureRtt { conn_id }),
        BridgeCommand::AddPath { conn_id, local, remote } => call == (EngineCall::ChangePath {
            conn_id,
            op: PathOp::Add,
            local,
            remote,
        }),
        BridgeCommand::AbandonPath { conn_id, local, remote } => call == (EngineCall::ChangePath {
            conn_id,
            op: PathOp::Abandon,
            local,
            remote,
        }),
        BridgeCommand::MigratePath { conn_id, local, remote } => call == (EngineCall::ChangePath {
            conn_id,
            op: PathOp::Migrate,
            local,
            remote,
        }),
        BridgeCommand::GetPathStats { conn_id, local, remote } => call == (EngineCall::PathStats {
            conn_id,
            local,
            remote,
        }),
        BridgeCommand::GetPaths { conn_id } => call == (EngineCall::Paths { conn_id }),
    }
}

impl BridgeWorker {
    fn config_for(&self, client: &ClientConfig) -> (r: EngineConfig)
        ensures
            is_config_for(Some(r), self.endpoint_config, Some(*client)),
            r.quic.cid_len == self.endpoint_config.cid_len,
            r.quic.stateless_reset == self.endpoint_config.stateless_reset,
            r.quic.reset_token_key == self.endpoint_config.reset_token_key,
            r.quic.address_token_lifetime == self.endpoint_config.address_token_lifetime,
            r.quic.send_batch_size == self.endpoint_config.send_batch_size,
    {
        build_tquic_config(
            &self.endpoint_config,
            &client.transport,
            build_client_tls_config(client),
            None,
        )
    }

    /// Takes a command: updates what the bridge keeps, and says what the engine is to do.
    pub fn process_command(&mut self, handle: &mut BridgeHandle, cmd: BridgeCommand) -> (call:
        EngineCall)
        ensures
            is_call_for(call, cmd, *old(self), old(handle)@),
            call matches EngineCall::Connect { config: Some(config), .. } ==> {
                &&& config.quic.cid_len == old(self).endpoint_config.cid_len
                &&& config.quic.stateless_reset == old(self).endpoint_config.stateless_reset
                &&& config.quic.reset_token_key == old(self).endpoint_config.reset_token_key
                &&& config.quic.address_token_lifetime
                    == old(self).endpoint_config.address_token_lifetime
                &&& config.quic.send_batch_size == old(self).endpoint_config.send_batch_size
            },
            call matches EngineCall::ServeWith { config } ==> {
                &&& config.quic.cid_len == old(self).endpoint_config.cid_len
                &&& config.quic.stateless_reset == old(self).endpoint_config.stateless_reset
                &&& config.quic.reset_token_key == old(self).endpoint_config.reset_token_key
                &&& config.quic.address_token_lifetime
                    == old(self).endpoint_config.address_token_lifetime
                &&& config.quic.send_batch_size == old(self).endpoint_config.send_batch_size
            },
            *final(self) == (BridgeWorker {
                current_client_config: match cmd {
                    BridgeCommand::SetDefaultClientConfig { config } => Some(config),
                    _ => old(self).current_client_config,
                },
                ..*old(self)
            }),
            final(handle)@ == (BridgeView {
                endpoint_closed: old(handle)@.endpoint_closed || cmd is CloseEndpoint,
                ..old(handle)@
            }),
    {
        match cmd {
            BridgeCommand::Connect { addr, server_name, client_config } => {
                let config = match &client_config {
                    Some(cc) => Some(self.config_for(cc)),
                    None => match &self.current_client_config {
                        Some(cc) => Some(self.config_for(cc)),
                        None => None,
                    },
                };
                EngineCall::Connect { local: self.local_addr, remote: addr, server_name, config }
            },
            BridgeCommand::SetServerConfig { config: Some(sc) } => EngineCall::ServeWith {
                config: build_tquic_config(
                    &self.endpoint_config,
                    &sc.transport,
                    build_server_tls_config(&sc),
                    Some(&sc),
                ),
            },
            BridgeCommand::SetServerConfig { config: None } => EngineCall::StopServing,
            BridgeCommand::SetDefaultClientConfig { config } => {
                self.current_client_config = Some(config);
                EngineCall::Nothing
            },
            BridgeCommand::CloseEndpoint { error_code, reason } => {
                handle.close_endpoint();
                EngineCall::CloseEndpoint {
                    conn_ids: handle.conn_ids(),
                    app: true,
                    error_code,
                    reason,
                    force: false,
                }
            },
            // The engine accepts connections by itself.
            BridgeCommand::AcceptIncoming => EngineCall::Nothing,
            BridgeCommand::RefuseIncoming { conn_id } => EngineCall::CloseConnection {
                conn_id,
                app: false,
                error_code: REFUSED_CODE,
                reason: buffer::copy_bytes(&REFUSED_REASON),
            },
            BridgeCommand::CloseConnection { conn_id, error_code, reason } =>
                EngineCall::CloseConnection { conn_id, app: true, error_code, reason },
            BridgeCommand::OpenBiStream { conn_id } => EngineCall::OpenStream {
                conn_id,
                dir: Dir::Bi,
                urgency: 0,
                incremental: false,
            },
            BridgeCommand::OpenUniStream { conn_id } => EngineCall::OpenStream {
                conn_id,
                dir: Dir::Uni,
                urgency: 0,
                incremental: false,
            },
            BridgeCommand::StreamWrite { conn_id, stream_id, data, fin } =>
                EngineCall::StreamWrite { conn_id, stream_id, data, fin },
            BridgeCommand::StreamRead { conn_id, stream_id, max_len } => EngineCall::StreamRead {
                conn_id,
                stream_id,
                max_len,
            },
            BridgeCommand::StreamShutdownRead { conn_id, stream_id, error_code } =>
                EngineCall::StreamShutdown { conn_id, stream_id, side: Shutdown::Read, error_code },
            BridgeCommand::StreamShutdownWrite { conn_id, stream_id, error_code } =>
                EngineCall::StreamShutdown {
                    conn_id,
                    stream_id,
                    side: Shutdown::Write,
                    error_code,
                },
            BridgeCommand::StreamSetPriority { conn_id, stream_id, urgency } =>
                EngineCall::StreamSetPriority { conn_id, stream_id, urgency, incremental: false },
            BridgeCommand::GetRtt { conn_id } => EngineCall::MeasureRtt { conn_id },
            BridgeCommand::AddPath { conn_id, local, remote } => EngineCall::ChangePath {
                conn_id,
                op: PathOp::Add,
                local,
                remote,
            },
            BridgeCommand::AbandonPath { conn_id, local, remote } => EngineCall::ChangePath {
                conn_id,
                op: PathOp::Abandon,
                local,
                remote,
            },
            BridgeCommand::MigratePath { conn_id, local, remote } => EngineCall::ChangePath {
                conn_id,
                op: PathOp::Migrate,
                local,
                remote,
            },
            BridgeCommand::GetPathStats { conn_id, local, remote } => EngineCall::PathStats {
                conn_id,
                local,
                remote,
            },
            BridgeCommand::GetPaths { conn_id } => EngineCall::Paths { conn_id },
        }
    }
}

// ---------------------------------------------------------------------------
// Replies
// ---------------------------------------------------------------------------

/// Why a connection could not be started.
pub enum ConnectFailure {
    /// A step of building its configuration failed, with the engine's description.
    Config(ConfigStep, String),
    /// The engine did not start it.
    Engine(EngineError),
}

/// The error of a connection that could not be started, as the command's reply has it.
pub open spec fn is_connect_failure(error: ConnectError, failure: ConnectFailure) -> bool {
    match failure {
        ConnectFailure::Config(step, description) => {
            &&& error matches ConnectError::InvalidDnsName(s)
            &&& s@ == config::step_prefix(step) + description@
        },
        ConnectFailure::Engine(e) => match e.kind {
            EngineErrorKind::InvalidConfig(s) => error == ConnectError::InvalidDnsName(s),
            _ => error == ConnectError::EndpointStopping,
        },
    }
}

/// The reply to [`BridgeCommand::Connect`].
pub fn connect_reply(outcome: Result<u64, ConnectFailure>) -> (r: Result<u64, ConnectError>)
    ensures
        match outcome {
            Ok(conn_id) => r == Ok::<u64, ConnectError>(conn_id),
            Err(failure) => r matches Err(e) && is_connect_failure(e, failure),
        },
{
    match outcome {
        Ok(conn_id) => Ok(conn_id),
        Err(ConnectFailure::Config(step, description)) => Err(
            config_error(step, description.as_str()),
        ),
        Err(ConnectFailure::Engine(e)) => match e.kind {
            EngineErrorKind::InvalidConfig(s) => Err(ConnectError::InvalidDnsName(s)),
            _ => Err(ConnectError::EndpointStopping),
        },
    }
}

/// The reply to [`BridgeCommand::OpenBiStream`] and [`BridgeCommand::OpenUniStream`]: the stream,
/// or `LocallyClosed` where the engine has no such connection or opens no stream on it.
pub fn open_stream_reply(outcome: Option<Result<u64, EngineError>>) -> (r: Result<
    u64,
    ConnectionError,
>)
    ensures
        r == (match outcome {
            Some(Ok(stream_id)) => Ok(stream_id),
            _ => Err(ConnectionError::LocallyClosed),
        }),
{
    match outcome {
        Some(Ok(stream_id)) => Ok(stream_id),
        _ => Err(ConnectionError::LocallyClosed),
    }
}

/// The error code that a stream error carries: the peer's own, which a variable-length integer
/// always holds. A number that none could hold stands for the largest.
pub open spec fn peer_code(code: u64) -> u64 {
    if code <= VARINT_MAX {
        code
    } else {
        VARINT_MAX
    }
}

fn stream_error_code(code: u64) -> (r: VarInt)
    ensures
        r@ == peer_code(code),
{
    match VarInt::from_u64(code) {
        Some(code) => code,
        None => VarInt::max(),
    }
}

/// The error of a write that the engine refused.
pub open spec fn write_failure(kind: EngineErrorKind) -> WriteErrorView {
    match kind {
        EngineErrorKind::StreamStopped(code) => WriteErrorView::Stopped(peer_code(code)),
        _ => WriteErrorView::ClosedStream,
    }
}

/// The reply to [`BridgeCommand::StreamWrite`]: how many bytes the engine took, none where it has
/// no room. The outcome is `None` where the engine has no such connection.
pub fn stream_write_reply(outcome: Option<Result<usize, EngineError>>) -> (r: Result<
    usize,
    WriteError,
>)
    ensures
        match outcome {
            Some(Ok(n)) => r == Ok::<usize, WriteError>(n),
            Some(Err(e)) => if e.kind is Done {
                r == Ok::<usize, WriteError>(0)
            } else {
                r matches Err(w) && w@ == write_failure(e.kind)
            },
            None => r matches Err(w) && w@ == WriteErrorView::ConnectionLost(
                ConnectionErrorView::LocallyClosed,
            ),
        },
{
    match outcome {
        Some(Ok(n)) => Ok(n),
        Some(Err(e)) => match e.kind {
            EngineErrorKind::Done => Ok(0),
            EngineErrorKind::StreamStopped(code) => Err(
                WriteError::Stopped(stream_error_code(code)),
            ),
            _ => Err(WriteError::ClosedStream),
        },
        None => Err(WriteError::ConnectionLost(ConnectionError::LocallyClosed)),
    }
}

/// The error of a read that the engine refused.
pub open spec fn read_failure(kind: EngineErrorKind) -> ReadErrorView {
    match kind {
        EngineErrorKind::StreamReset(code) => ReadErrorView::Reset(peer_code(code)),
        _ => ReadErrorView::ClosedStream,
    }
}

/// A buffer for the engine to read into.
pub fn read_buffer(max_len: usize) -> (r: Vec<u8>)
    ensures
        r@ == Seq::new(max_len as nat, |i: int| 0u8),
{
    let r = vec![0u8; max_len];
    assert(r@ =~= Seq::new(max_len as nat, |i: int| 0u8));
    r
}

/// The reply is the one to a read into the buffer that came out as it did.
pub open spec fn is_read_reply(
    r: Result<(Vec<u8>, bool), ReadError>,
    buf: Seq<u8>,
    outcome: Option<Result<(usize, bool), EngineError>>,
) -> bool {
    match outcome {
        Some(Ok((n, fin))) => {
            &&& r matches Ok((data, end))
            &&& data@ == (if n <= buf.len() {
                buf.take(n as int)
            } else {
                buf
            })
            &&& end == fin
        },
        Some(Err(e)) => if e.kind is Done {
            r matches Ok((data, end)) && data@ == Seq::<u8>::empty() && !end
        } else {
            r matches Err(x) && x@ == read_failure(e.kind)
        },
        None => r matches Err(x) && x@ == ReadErrorView::ConnectionLost(
            ConnectionErrorView::LocallyClosed,
        ),
    }
}

/// The reply to [`BridgeCommand::StreamRead`]: the part of the buffer that the engine filled, and
/// whether the stream ends there; nothing where there is nothing to read yet. The outcome is
/// `None` where the engine has no such connection.
pub fn stream_read_reply(buf: Vec<u8>, outcome: Option<Result<(usize, bool), EngineError>>) -> (r:
    Result<(Vec<u8>, bool), ReadError>)
    ensures
        is_read_reply(r, buf@, outcome),
{
    match outcome {
        Some(Ok((n, fin))) => {
            let mut data = buf;
            data.truncate(n);
            assert(n <= buf@.len() ==> data@ =~= buf@.take(n as int));
            Ok((data, fin))
        },
        Some(Err(e)) => match e.kind {
            EngineErrorKind::Done => Ok((Vec::new(), false)),
            EngineErrorKind::StreamReset(code) => Err(ReadError::Reset(stream_error_code(code))),
            _ => Err(ReadError::ClosedStream),
        },
        None => Err(ReadError::ConnectionLost(ConnectionError::LocallyClosed)),
    }
}

/// How the look-up of the round-trip time goes on.
#[derive(Debug, Clone, Copy, PartialEq, Eq)]
pub enum RttStep {
    /// The reply to [`BridgeCommand::GetRtt`].
    Reply(Option<Duration>),
    /// Ask the engine for the statistics of this path.
    Ask(FourTuple),
}

/// Starts to look up the round-trip time on a connection with these paths, of which the first
/// one counts; `None` where the engine has no such connection.
pub fn rtt_start(paths: Option<Vec<FourTuple>>) -> (r: RttStep)
    ensures
        match paths {
            None => r == RttStep::Reply(None),
            Some(list) => if list@.len() == 0 {
                r matches RttStep::Reply(Some(d)) && d@ == 0
            } else {
                r == RttStep::Ask(list@[0])
            },
        },
{
    match paths {
        None => RttStep::Reply(None),
        Some(list) => if list.len() == 0 {
            RttStep::Reply(Some(Duration::from_millis(0)))
        } else {
            RttStep::Ask(list[0])
        },
    }
}

/// The reply to [`BridgeCommand::GetRtt`] from the smoothed round-trip time of the path in
/// microseconds; `None` where the path has no statistics.
pub fn rtt_reply(srtt: Option<u64>) -> (r: Option<Duration>)
    ensures
        match srtt {
            Some(micros) => r matches Some(d) && d@ == micros * 1_000,
            None => r is None,
        },
{
    match srtt {
        Some(micros) => Some(Duration::from_micros(micros)),
        None => None,
    }
}

/// How the message of a failed path operation starts.
pub open spec fn path_op_prefix(op: PathOp) -> Seq<char> {
    match op {
        PathOp::Add => "add_path: "@,
        PathOp::Abandon => "abandon_path: "@,
        PathOp::Migrate => "migrate_path: "@,
    }
}

/// The error of a path operation that the engine refused.
pub open spec fn path_failure(prefix: Seq<char>, e: EngineError) -> ConnectionErrorView {
    ConnectionErrorView::TransportError { code: 0, reason: prefix + e.text@ }
}

/// The reply to [`BridgeCommand::AddPath`], [`BridgeCommand::AbandonPath`] and
/// [`BridgeCommand::MigratePath`].
pub fn change_path_reply(op: PathOp, outcome: Option<Result<(), EngineError>>) -> (r: Result<
    (),
    ConnectionError,
>)
    ensures
        match outcome {
            Some(Ok(())) => r is Ok,
            Some(Err(e)) => r matches Err(x) && x@ == path_failure(path_op_prefix(op), e),
            None => r matches Err(x) && x@ == ConnectionErrorView::LocallyClosed,
        },
{
    match outcome {
        Some(Ok(())) => Ok(()),
        Some(Err(e)) => {
            let prefix = match op {
                PathOp::Add => "add_path: ",
                PathOp::Abandon => "abandon_path: ",
                PathOp::Migrate => "migrate_path: ",
            };
            Err(
                ConnectionError::TransportError {
                    code: 0,
                    reason: join(prefix, e.text.as_str()),
                },
            )
        },
        None => Err(ConnectionError::LocallyClosed),
    }
}

/// The reply to [`BridgeCommand::GetPathStats`].
pub fn path_stats_reply(outcome: Option<Result<PathStats, EngineError>>) -> (r: Result<
    PathStats,
    ConnectionError,
>)
    ensures
        match outcome {
            Some(Ok(stats)) => r == Ok::<PathStats, ConnectionError>(stats),
            Some(Err(e)) => r matches Err(x) && x@ == path_failure("get_path_stats: "@, e),
            None => r matches Err(x) && x@ == ConnectionErrorView::LocallyClosed,
        },
{
    match outcome {
        Some(Ok(stats)) => Ok(stats),
        Some(Err(e)) => Err(
            ConnectionError::TransportError {
                code: 0,
                reason: join("get_path_stats: ", e.text.as_str()),
            },
        ),
        None => Err(ConnectionError::LocallyClosed),
    }
}

/// The reply to [`BridgeCommand::GetPaths`].
pub fn paths_reply(outcome: Option<Vec<FourTuple>>) -> (r: Result<Vec<FourTuple>, ConnectionError>)
    ensures
        r == (match outcome {
            Some(paths) => Ok(paths),
            None => Err(ConnectionError::LocallyClosed),
        }),
{
    match outcome {
        Some(paths) => Ok(paths),
        None => Err(ConnectionError::LocallyClosed),
    }
}

} // verus!
