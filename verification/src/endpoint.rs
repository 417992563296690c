//! Endpoints.
use vstd::prelude::*;
use vstd::string::*;

use crate::addr::SocketAddr;
use crate::bridge::BridgeHandle;
use crate::buffer::copy_bytes;
use crate::command::BridgeCommand;
use crate::config;
use crate::config::{ClientConfig, EndpointConfig, ServerConfig};
use crate::connection::{Connecting, ConnectingView};
use crate::error::ConnectError;
use crate::incoming::{Incoming, IncomingView};
use crate::types::VarInt;
use crate::worker::Bridge;

verus! {

/// A QUIC endpoint.
///
/// An endpoint corresponds to a single UDP socket, may host many connections, and may act
/// as both client and server for different connections.
#[derive(Debug, Clone, Copy)]
pub struct Endpoint;

/// The low bits of a 64-bit number, as many as a `usize` holds.
pub open spec fn count_of(n: u64) -> usize {
    if n <= usize::MAX {
        n as usize
    } else {
        (n % 0x1_0000_0000) as usize
    }
}

/// The command asks for a connection to the address under the name, with the configuration.
pub open spec fn is_connect(
    cmd: BridgeCommand,
    addr: SocketAddr,
    server_name: Seq<char>,
    client_config: Option<ClientConfig>,
) -> bool {
    &&& cmd matches BridgeCommand::Connect { addr: to, server_name: name, client_config: config }
    &&& to == addr
    &&& name@ == server_name
    &&& config == client_config
}

impl Endpoint {
    /// Create an endpoint for outgoing connections only: the bridge to be spawned.
    pub fn client(addr: SocketAddr) -> (r: Bridge)
        ensures
            r == (Bridge {
                bind_addr: addr,
                endpoint_config: config::default_endpoint_config(),
                server_config: None,
                default_client_config: None,
            }),
    {
        Endpoint::new(EndpointConfig::default(), None, addr)
    }

    /// Create an endpoint for incoming and outgoing connections: the bridge to be spawned.
    pub fn server(config: ServerConfig, addr: SocketAddr) -> (r: Bridge)
        ensures
            r == (Bridge {
                bind_addr: addr,
                endpoint_config: config::default_endpoint_config(),
                server_config: Some(config),
                default_client_config: None,
            }),
    {
        Endpoint::new(EndpointConfig::default(), Some(config), addr)
    }

    /// Create an endpoint with custom configuration: the bridge to be spawned.
    pub fn new(
        config: EndpointConfig,
        server_config: Option<ServerConfig>,
        addr: SocketAddr,
    ) -> (r: Bridge)
        ensures
            r == (Bridge {
                bind_addr: addr,
                endpoint_config: config,
                server_config,
                default_client_config: None,
            }),
    {
        Bridge {
            bind_addr: addr,
            endpoint_config: config,
            server_config,
            default_client_config: None,
        }
    }

    /// Accept the next incoming connection.
    pub fn accept(&self) -> (r: Accept)
        ensures
            r.endpoint == *self,
    {
        Accept { endpoint: *self }
    }

    /// Initiate an outgoing connection: the command to be sent, and the attempt that waits for
    /// its answer.
    pub fn connect(&self, handle: &BridgeHandle, addr: SocketAddr, server_name: &str) -> (r: Result<
        (BridgeCommand, Connecting),
        ConnectError,
    >)
        ensures
            if handle@.endpoint_closed {
                r == Err::<(BridgeCommand, Connecting), ConnectError>(
                    ConnectError::EndpointStopping,
                )
            } else {
                &&& r matches Ok((cmd, connecting))
                &&& is_connect(cmd, addr, server_name@, None)
                &&& connecting@ == (ConnectingView {
                    awaiting_id: true,
                    conn_id: None,
                    remote_addr: addr,
                })
            },
    {
        if handle.endpoint_closed() {
            return Err(ConnectError::EndpointStopping);
        }
        let cmd = BridgeCommand::Connect {
            addr,
            server_name: server_name.to_owned(),
            client_config: None,
        };
        Ok((cmd, Connecting::new_client(addr)))
    }

    /// Initiate an outgoing connection with custom configuration: the command to be sent, and the
    /// attempt that waits for its answer.
    pub fn connect_with(
        &self,
        handle: &BridgeHandle,
        config: ClientConfig,
        addr: SocketAddr,
        server_name: &str,
    ) -> (r: Result<(BridgeCommand, Connecting), ConnectError>)
        ensures
            if handle@.endpoint_closed {
                r == Err::<(BridgeCommand, Connecting), ConnectError>(
                    ConnectError::EndpointStopping,
                )
            } else {
                &&& r matches Ok((cmd, connecting))
                &&& is_connect(cmd, addr, server_name@, Some(config))
                &&& connecting@ == (ConnectingView {
                    awaiting_id: true,
                    conn_id: None,
                    remote_addr: addr,
                })
            },
    {
        if handle.endpoint_closed() {
            return Err(ConnectError::EndpointStopping);
        }
        let cmd = BridgeCommand::Connect {
            addr,
            server_name: server_name.to_owned(),
            client_config: Some(config),
        };
        Ok((cmd, Connecting::new_client(addr)))
    }

    /// Set the default client configuration for future outgoing connections: the command to be
    /// sent.
    pub fn set_default_client_config(&self, config: ClientConfig) -> (r: BridgeCommand)
        ensures
            r == (BridgeCommand::SetDefaultClientConfig { config }),
    {
        BridgeCommand::SetDefaultClientConfig { config }
    }

    /// Replace the server configuration: the command to be sent. The connections that come
    /// afterwards are served with the new one, or not served at all where there is none.
    pub fn set_server_config(&self, server_config: Option<ServerConfig>) -> (r: BridgeCommand)
        ensures
            r == (BridgeCommand::SetServerConfig { config: server_config }),
    {
        BridgeCommand::SetServerConfig { config: server_config }
    }

    /// Get the local address this endpoint is bound to.
    pub fn local_addr(&self, handle: &BridgeHandle) -> (r: SocketAddr)
        ensures
            r == handle@.local_addr,
    {
        handle.local_addr()
    }

    /// Get the number of active connections.
    pub fn open_connections(&self, handle: &BridgeHandle) -> (r: usize)
        ensures
            r == count_of(handle@.open_connections),
            handle@.open_connections <= usize::MAX ==> r == handle@.open_connections,
            handle@.open_connections > usize::MAX ==> r == handle@.open_connections
                % 0x1_0000_0000,
    {
        let n: u64 = handle.open_connections();
        if n <= usize::MAX as u64 {
            n as usize
        } else {
            (n % 0x1_0000_0000) as usize
        }
    }

    /// Close all connections immediately: the command to be sent.
    pub fn close(&self, error_code: VarInt, reason: &[u8]) -> (r: BridgeCommand)
        ensures
            r matches BridgeCommand::CloseEndpoint { error_code: code, reason: why } && code
                == error_code@ && why@ == reason@,
    {
        BridgeCommand::CloseEndpoint {
            error_code: error_code.into_inner(),
            reason: copy_bytes(reason),
        }
    }

    /// Wait for all connections to be cleanly shut down: whether they are. If not, ask again once
    /// the endpoint is reported idle.
    pub fn wait_idle(&self, handle: &BridgeHandle) -> (r: bool)
        ensures
            r == (handle@.open_connections == 0),
    {
        handle.open_connections() == 0
    }

    /// Get endpoint statistics.
    pub fn stats(&self, handle: &BridgeHandle) -> (r: EndpointStats)
        ensures
            r == handle@.stats,
    {
        handle.stats()
    }
}

/// Waiting for the next incoming connection.
#[derive(Debug, Clone, Copy)]
pub struct Accept {
    /// The endpoint.
    pub endpoint: Endpoint,
}

/// How far the wait for an incoming connection has come.
#[derive(Debug)]
pub enum AcceptStep {
    /// The wait is over: a connection, or `None` if the endpoint is closed.
    Ready(Option<Incoming>),
    /// Wait until a connection comes, or the bridge thread ends.
    Wait,
}

impl Accept {
    /// Goes on with the wait. Incoming connections are taken in the order in which they came;
    /// `ended` says that the bridge thread has ended, so that no more of them can come.
    pub fn poll(&self, handle: &mut BridgeHandle, ended: bool) -> (r: AcceptStep)
        ensures
            final(handle)@ == old(handle)@.taken(),
            if old(handle)@.can_take() {
                r matches AcceptStep::Ready(Some(incoming)) && incoming@ == IncomingView::of(
                    old(handle)@.incoming[0],
                )
            } else if old(handle)@.endpoint_closed || ended {
                r == AcceptStep::Ready(None)
            } else {
                r is Wait
            },
    {
        match handle.take_incoming() {
            Some(data) => AcceptStep::Ready(Some(Incoming::new(data))),
            None => if handle.endpoint_closed() || ended {
                AcceptStep::Ready(None)
            } else {
                AcceptStep::Wait
            },
        }
    }
}

/// Statistics about an endpoint.
#[non_exhaustive]
#[derive(Debug, Clone, Copy, PartialEq, Eq, Structural)]
pub struct EndpointStats {
    /// Number of handshakes accepted as a server.
    pub accepted_handshakes: u64,
    /// Number of handshakes initiated as a client.
    pub outgoing_handshakes: u64,
    /// Number of handshakes refused.
    pub refused_handshakes: u64,
    /// Number of handshakes ignored.
    pub ignored_handshakes: u64,
}

/// Statistics in which nothing has been counted.
pub open spec fn no_stats() -> EndpointStats {
    EndpointStats {
        accepted_handshakes: 0,
        outgoing_handshakes: 0,
        refused_handshakes: 0,
        ignored_handshakes: 0,
    }
}

impl Default for EndpointStats {
    fn default() -> (r: Self)
        ensures
            r == no_stats(),
            r.accepted_handshakes == 0,
            r.outgoing_handshakes == 0,
            r.refused_handshakes == 0,
            r.ignored_handshakes == 0,
    {
        EndpointStats {
            accepted_handshakes: 0,
            outgoing_handshakes: 0,
            refused_handshakes: 0,
            ignored_handshakes: 0,
        }
    }
}

} // verus!
