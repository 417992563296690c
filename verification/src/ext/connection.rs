//! Engine-specific operations on connections: network paths.
use vstd::prelude::*;

use crate::addr::SocketAddr;
use crate::command::BridgeCommand;
use crate::connection::Connection;
use crate::error::ConnectionError;

verus! {

/// Extension trait for engine-specific connection features: multipath QUIC, that is path
/// management and per-path statistics. Each method yields the command to be sent.
pub trait ConnectionExt {
    /// Add a new network path to the connection.
    ///
    /// This is used for multipath QUIC to add additional network interfaces.
    fn add_path(&self, local: SocketAddr, remote: SocketAddr) -> BridgeCommand;

    /// Abandon a network path.
    ///
    /// Stops using the specified path for sending data.
    fn abandon_path(&self, local: SocketAddr, remote: SocketAddr) -> BridgeCommand;

    /// Migrate the connection to a different network path.
    ///
    /// Makes the specified path the active path for the connection.
    fn migrate_path(&self, local: SocketAddr, remote: SocketAddr) -> BridgeCommand;

    /// Get statistics for a specific path.
    fn path_stats(&self, local: SocketAddr, remote: SocketAddr) -> BridgeCommand;

    /// List all active paths.
    fn paths(&self) -> BridgeCommand;
}

impl ConnectionExt for Connection {
    fn add_path(&self, local: SocketAddr, remote: SocketAddr) -> (r: BridgeCommand)
        ensures
            r == (BridgeCommand::AddPath { conn_id: self@, local, remote }),
    {
        BridgeCommand::AddPath { conn_id: self.conn_id(), local, remote }
    }

    fn abandon_path(&self, local: SocketAddr, remote: SocketAddr) -> (r: BridgeCommand)
        ensures
            r == (BridgeCommand::AbandonPath { conn_id: self@, local, remote }),
    {
        BridgeCommand::AbandonPath { conn_id: self.conn_id(), local, remote }
    }

    fn migrate_path(&self, local: SocketAddr, remote: SocketAddr) -> (r: BridgeCommand)
        ensures
            r == (BridgeCommand::MigratePath { conn_id: self@, local, remote }),
    {
        BridgeCommand::MigratePath { conn_id: self.conn_id(), local, remote }
    }

    fn path_stats(&self, local: SocketAddr, remote: SocketAddr) -> (r: BridgeCommand)
        ensures
            r == (BridgeCommand::GetPathStats { conn_id: self@, local, remote }),
    {
        BridgeCommand::GetPathStats { conn_id: self.conn_id(), local, remote }
    }

    fn paths(&self) -> (r: BridgeCommand)
        ensures
            r == (BridgeCommand::GetPaths { conn_id: self@ }),
    {
        BridgeCommand::GetPaths { conn_id: self.conn_id() }
    }
}

/// What the answer to such a command comes to: `LocallyClosed` where its channel was dropped.
pub fn path_answer<T>(answer: Option<Result<T, ConnectionError>>) -> (r: Result<T, ConnectionError>)
    ensures
        r == (match answer {
            Some(result) => result,
            None => Err(ConnectionError::LocallyClosed),
        }),
{
    match answer {
        Some(result) => result,
        None => Err(ConnectionError::LocallyClosed),
    }
}

} // verus!
