//! Incoming connections.
use std::sync::Arc;

use vstd::prelude::*;
use vstd::string::*;

use crate::addr;
use crate::addr::SocketAddr;
use crate::bridge::{BridgeHandle, BridgeView, Decision, IncomingData};
use crate::command::BridgeCommand;
use crate::config::ServerConfig;
use crate::connection;
use crate::connection::{Connecting, ConnectingStep, ConnectingStepView, ConnectingView};
use crate::error;
use crate::error::{ConnectError, ConnectionError, ConnectionErrorView};
use crate::text;
use crate::text::{decimal_text, join};
use crate::types::Reply;

verus! {

/// An incoming connection for which the server has not yet decided whether to accept, reject,
/// or ignore.
#[derive(Debug)]
pub struct Incoming {
    incoming_id: u64,
    remote_addr: SocketAddr,
    validated: bool,
}

/// The state of an [`Incoming`].
#[verifier::ext_equal]
pub struct IncomingView {
    /// The connection's ID.
    pub incoming_id: u64,
    /// The peer's address.
    pub remote_addr: SocketAddr,
    /// The peer's address has been validated.
    pub validated: bool,
}

impl IncomingView {
    /// The incoming connection that the bridge has delivered.
    pub open spec fn of(data: IncomingData) -> IncomingView {
        IncomingView {
            incoming_id: data.conn_id,
            remote_addr: data.remote_addr,
            validated: data.validated,
        }
    }

    /// The attempt that waits for the handshake of the connection.
    pub open spec fn connecting(self) -> ConnectingView {
        ConnectingView {
            awaiting_id: false,
            conn_id: Some(self.incoming_id),
            remote_addr: self.remote_addr,
        }
    }
}

impl View for Incoming {
    type V = IncomingView;

    closed spec fn view(&self) -> IncomingView {
        IncomingView {
            incoming_id: self.incoming_id,
            remote_addr: self.remote_addr,
            validated: self.validated,
        }
    }
}

impl Incoming {
    /// The incoming connection that the bridge has delivered.
    pub fn new(data: IncomingData) -> (r: Self)
        ensures
            r@ == IncomingView::of(data),
    {
        Incoming {
            incoming_id: data.conn_id,
            remote_addr: data.remote_addr,
            validated: data.validated,
        }
    }

    /// Accept this connection using the default server configuration: the command to be sent, and
    /// the attempt that completes when the handshake finishes.
    ///
    /// Connections are auto-accepted on the server side, so this never fails.
    pub fn accept(self, handle: &mut BridgeHandle) -> (r: Result<
        (BridgeCommand, Connecting),
        ConnectionError,
    >)
        ensures
            r matches Ok((cmd, connecting)) && cmd == BridgeCommand::AcceptIncoming && connecting@
                == self@.connecting(),
            final(handle)@ == old(handle)@.decided(Decision::Accepted),
    {
        handle.decide(Decision::Accepted);
        Ok(
            (
                BridgeCommand::AcceptIncoming,
                Connecting::new_server(self.incoming_id, self.remote_addr),
            ),
        )
    }

    /// Accept this connection using a custom server configuration.
    ///
    /// Note: the engine does not support per-connection server config changes after endpoint
    /// creation. The custom config is ignored; the endpoint's own config is used.
    pub fn accept_with(self, handle: &mut BridgeHandle, _server_config: Arc<ServerConfig>) -> (r:
        Result<(BridgeCommand, Connecting), ConnectionError>)
        ensures
            r matches Ok((cmd, connecting)) && cmd == BridgeCommand::AcceptIncoming && connecting@
                == self@.connecting(),
            final(handle)@ == old(handle)@.decided(Decision::Accepted),
    {
        self.accept(handle)
    }

    /// Reject this connection: the command to be sent.
    pub fn refuse(self, handle: &mut BridgeHandle) -> (r: BridgeCommand)
        ensures
            r == (BridgeCommand::RefuseIncoming { conn_id: self@.incoming_id }),
            final(handle)@ == old(handle)@.decided(Decision::Refused),
    {
        handle.decide(Decision::Refused);
        BridgeCommand::RefuseIncoming { conn_id: self.incoming_id }
    }

    /// Respond with a retry packet.
    ///
    /// Note: the engine handles retry globally via `ServerConfig::enable_retry`, not
    /// per-connection. This method always returns `Err(RetryError)`.
    pub fn retry(self) -> (r: Result<(), RetryError>)
        ensures
            r matches Err(e) && e@ == self,
    {
        Err(RetryError { incoming: self })
    }

    /// Ignore this connection attempt, not sending any packet in response: there is no command to
    /// be sent.
    pub fn ignore(self, handle: &mut BridgeHandle) -> (r: Option<BridgeCommand>)
        ensures
            r is None,
            final(handle)@ == old(handle)@.decided(Decision::Ignored),
    {
        handle.decide(Decision::Ignored);
        None
    }

    /// The peer's UDP address.
    pub fn remote_address(&self) -> (r: SocketAddr)
        ensures
            r == self@.remote_addr,
    {
        self.remote_addr
    }

    /// Whether the peer's address has been validated. It has where the endpoint was started with a
    /// server configuration that enables retry, since the engine then creates no connection before;
    /// elsewhere the engine does not ask for it.
    pub fn remote_address_validated(&self) -> (r: bool)
        ensures
            r == self@.validated,
    {
        self.validated
    }

    /// Whether retry is possible.
    pub fn may_retry(&self) -> (r: bool)
        ensures
            !r,
    {
        false
    }

    /// A short description of the incoming connection, for logs.
    pub fn describe(&self) -> (r: String)
        ensures
            r@ == "Incoming { incoming_id: "@ + text::decimal(self@.incoming_id as nat)
                + ", remote_addr: "@ + addr::socket_addr_text(self@.remote_addr) + ", .. }"@,
    {
        let mut r = join("Incoming { incoming_id: ", decimal_text(self.incoming_id).as_str());
        r.append(", remote_addr: ");
        r.append(self.remote_addr.to_string().as_str());
        r.append(", .. }");
        r
    }

    /// Accept this connection and wait for it: the command to be sent, if there is one, and the
    /// future.
    pub fn into_future(self, handle: &mut BridgeHandle) -> (r: (
        Option<BridgeCommand>,
        IncomingFuture,
    ))
        ensures
            r.0 == Some(BridgeCommand::AcceptIncoming),
            r.1@ == (IncomingFutureView { connecting: Some(self@.connecting()), error: None }),
            final(handle)@ == old(handle)@.decided(Decision::Accepted),
    {
        match self.accept(handle) {
            Ok((cmd, connecting)) => (
                Some(cmd),
                IncomingFuture { connecting: Some(connecting), error: None },
            ),
            Err(e) => (None, IncomingFuture { connecting: None, error: Some(e) }),
        }
    }
}

/// An incoming connection that has been accepted, until its handshake completes.
#[derive(Debug)]
pub struct IncomingFuture {
    connecting: Option<Connecting>,
    error: Option<ConnectionError>,
}

/// The state of an [`IncomingFuture`].
#[verifier::ext_equal]
pub struct IncomingFutureView {
    /// The attempt, until it is over.
    pub connecting: Option<ConnectingView>,
    /// The error of the accept step, until it is reported.
    pub error: Option<ConnectionErrorView>,
}

impl View for IncomingFuture {
    type V = IncomingFutureView;

    closed spec fn view(&self) -> IncomingFutureView {
        IncomingFutureView {
            connecting: match self.connecting {
                Some(c) => Some(c@),
                None => None,
            },
            error: error::error_view(self.error),
        }
    }
}

impl IncomingFutureView {
    /// How far the connection has come.
    pub open spec fn step(
        self,
        state: BridgeView,
        id: Reply<Result<u64, ConnectError>>,
    ) -> ConnectingStepView {
        match (self.error, self.connecting) {
            (Some(e), _) => ConnectingStepView::Failed(e),
            (None, Some(connecting)) => connecting.step(state, id),
            (None, None) => ConnectingStepView::Failed(ConnectionErrorView::LocallyClosed),
        }
    }

    /// The future after that step.
    pub open spec fn stepped(
        self,
        state: BridgeView,
        id: Reply<Result<u64, ConnectError>>,
    ) -> IncomingFutureView {
        match (self.error, self.connecting) {
            (Some(_), _) => IncomingFutureView { error: None, ..self },
            (None, Some(connecting)) => IncomingFutureView {
                connecting: match connecting.step(state, id) {
                    ConnectingStepView::Connected(_) => None,
                    ConnectingStepView::Failed(_) => None,
                    _ => Some(
                        match connecting.resolve(id) {
                            Ok(conn_id) => connecting.known(conn_id),
                            Err(_) => connecting,
                        },
                    ),
                },
                ..self
            },
            (None, None) => self,
        }
    }
}

impl IncomingFuture {
    /// Goes on with the connection. The second argument is what has come of the connection ID.
    pub fn poll(&mut self, handle: &mut BridgeHandle, id: Reply<Result<u64, ConnectError>>) -> (r:
        ConnectingStep)
        requires
            old(handle)@.wf(),
        ensures
            r@ == old(self)@.step(old(handle)@, id),
            final(self)@ == old(self)@.stepped(old(handle)@, id),
            final(handle)@ == connection::with_waker(old(handle)@, r@),
            final(handle)@.wf(),
    {
        // Return any error from the accept step.
        if let Some(e) = self.error.take() {
            return ConnectingStep::Ready(Err(e));
        }
        match self.connecting.take() {
            Some(connecting) => {
                let mut connecting = connecting;
                match connecting.poll(handle, id) {
                    ConnectingStep::Ready(result) => ConnectingStep::Ready(result),
                    step => {
                        self.connecting = Some(connecting);
                        step
                    },
                }
            },
            None => ConnectingStep::Ready(Err(ConnectionError::LocallyClosed)),
        }
    }
}

/// Error returned when calling [`Incoming::retry`].
///
/// The engine does not support per-connection retry; use `ServerConfig::enable_retry` instead.
#[derive(Debug)]
pub struct RetryError {
    incoming: Incoming,
}

impl View for RetryError {
    type V = Incoming;

    closed spec fn view(&self) -> Incoming {
        self.incoming
    }
}

impl RetryError {
    /// Recover the [`Incoming`] to take a different action.
    pub fn into_incoming(self) -> (r: Incoming)
        ensures
            r == self@,
    {
        self.incoming
    }

    /// The message of the error.
    pub fn to_string(&self) -> (r: String)
        ensures
            r@ == "retry() is not supported; use Config::enable_retry instead"@,
    {
        "retry() is not supported; use Config::enable_retry instead".to_owned()
    }
}

} // verus!
