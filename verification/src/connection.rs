//! Connections, and the steps of what takes time on them.
use bytes::Bytes;
use vstd::prelude::*;
use vstd::string::*;

use crate::addr;
use crate::addr::SocketAddr;
use crate::bridge::{BridgeHandle, BridgeView, ConnView};
use crate::buffer::copy_bytes;
use crate::command::BridgeCommand;
use crate::error;
use crate::error::{ConnectError, ConnectionError, ConnectionErrorView};
use crate::recv_stream::{RecvStream, RecvStreamView};
use crate::send_stream::{SendStream, SendStreamView};
use crate::text;
use crate::text::{decimal_text, join};
use crate::time::Duration;
use crate::types::{Dir, Poll, Reply, Side, VarInt};

verus! {

// ---------------------------------------------------------------------------
// Connecting
// ---------------------------------------------------------------------------

/// An in-progress connection attempt, which yields a [`Connection`] once the handshake completes.
///
/// For client-initiated connections, this first learns the connection ID from the bridge, then
/// waits for the QUIC handshake to complete. For server-accepted connections, the connection ID
/// is already known.
#[derive(Debug)]
pub struct Connecting {
    // Whether the connection ID is still to come. It never does for server-accepted connections,
    // where it is known from the start.
    awaiting_id: bool,
    // Known once the ID has come (or immediately for server-accepted connections).
    conn_id: Option<u64>,
    // The target address (which holds before the connection is known).
    remote_addr: SocketAddr,
}

/// The state of a [`Connecting`].
#[verifier::ext_equal]
pub struct ConnectingView {
    /// The connection ID is still to come.
    pub awaiting_id: bool,
    /// The connection ID.
    pub conn_id: Option<u64>,
    /// The target address.
    pub remote_addr: SocketAddr,
}

impl View for Connecting {
    type V = ConnectingView;

    closed spec fn view(&self) -> ConnectingView {
        ConnectingView {
            awaiting_id: self.awaiting_id,
            conn_id: self.conn_id,
            remote_addr: self.remote_addr,
        }
    }
}

/// How far a connection attempt has come.
#[derive(Debug)]
pub enum ConnectingStep {
    /// The attempt is over.
    Ready(Result<Connection, ConnectionError>),
    /// The connection ID is still to come.
    AwaitId,
    /// The handshake is not complete: the caller's waker is registered in the slot.
    AwaitHandshake(usize),
}

/// How far a connection attempt has come, in mathematical terms.
#[verifier::ext_equal]
pub enum ConnectingStepView {
    Connected(u64),
    Failed(ConnectionErrorView),
    AwaitId,
    AwaitHandshake(usize),
}

impl View for ConnectingStep {
    type V = ConnectingStepView;

    open spec fn view(&self) -> ConnectingStepView {
        match self {
            ConnectingStep::Ready(Ok(conn)) => ConnectingStepView::Connected(conn@),
            ConnectingStep::Ready(Err(e)) => ConnectingStepView::Failed(e@),
            ConnectingStep::AwaitId => ConnectingStepView::AwaitId,
            ConnectingStep::AwaitHandshake(slot) => ConnectingStepView::AwaitHandshake(*slot),
        }
    }
}

/// How far the handshake of a connection has come.
pub open spec fn handshake_step(state: BridgeView, conn_id: u64) -> ConnectingStepView {
    match state.slot_of(conn_id) {
        None => ConnectingStepView::Failed(ConnectionErrorView::LocallyClosed),
        Some(slot) => if state.conns[slot as int].established {
            ConnectingStepView::Connected(conn_id)
        } else {
            match state.conns[slot as int].closed {
                Some(e) => ConnectingStepView::Failed(e),
                None => ConnectingStepView::AwaitHandshake(slot),
            }
        },
    }
}

impl ConnectingView {
    /// The connection ID, once an answer has come, or why there is none.
    pub open spec fn resolve(self, id: Reply<Result<u64, ConnectError>>) -> Result<
        u64,
        ConnectingStepView,
    > {
        match self.conn_id {
            Some(conn_id) => Ok(conn_id),
            None => if self.awaiting_id {
                match id {
                    Reply::Ready(Ok(conn_id)) => Ok(conn_id),
                    Reply::Ready(Err(e)) => Err(
                        ConnectingStepView::Failed(error::connect_error(e)),
                    ),
                    Reply::Dropped => Err(
                        ConnectingStepView::Failed(ConnectionErrorView::LocallyClosed),
                    ),
                    Reply::Pending => Err(ConnectingStepView::AwaitId),
                }
            } else {
                Err(ConnectingStepView::Failed(ConnectionErrorView::LocallyClosed))
            },
        }
    }

    /// The attempt once it knows its connection ID.
    pub open spec fn known(self, conn_id: u64) -> ConnectingView {
        ConnectingView {
            awaiting_id: self.awaiting_id && self.conn_id is Some,
            conn_id: Some(conn_id),
            ..self
        }
    }

    /// How far the attempt has come.
    pub open spec fn step(
        self,
        state: BridgeView,
        id: Reply<Result<u64, ConnectError>>,
    ) -> ConnectingStepView {
        match self.resolve(id) {
            Ok(conn_id) => handshake_step(state, conn_id),
            Err(step) => step,
        }
    }
}

/// The endpoint with a waker registered where the step says so.
pub open spec fn with_waker(state: BridgeView, step: ConnectingStepView) -> BridgeView {
    match step {
        ConnectingStepView::AwaitHandshake(slot) => state.with_slot(
            slot,
            (ConnView { establish_waker: true, ..state.conns[slot as int] }),
        ),
        _ => state,
    }
}

impl Connecting {
    /// Create a `Connecting` for a client-initiated connection, whose ID is still to come.
    pub fn new_client(remote_addr: SocketAddr) -> (r: Self)
        ensures
            r@ == (ConnectingView { awaiting_id: true, conn_id: None, remote_addr }),
    {
        Connecting { awaiting_id: true, conn_id: None, remote_addr }
    }

    /// Create a `Connecting` for a server-accepted connection, whose ID is already known.
    pub fn new_server(conn_id: u64, remote_addr: SocketAddr) -> (r: Self)
        ensures
            r@ == (ConnectingView { awaiting_id: false, conn_id: Some(conn_id), remote_addr }),
    {
        Connecting { awaiting_id: false, conn_id: Some(conn_id), remote_addr }
    }

    /// Attempt to convert into a 0-RTT connection. The engine handles 0-RTT by itself, so there
    /// is none to be had here.
    pub fn into_0rtt(self) -> (r: Result<(Connection, ZeroRttAccepted), Self>)
        ensures
            r == Err::<(Connection, ZeroRttAccepted), Self>(self),
    {
        Err(self)
    }

    /// Get the peer's address.
    pub fn remote_address(&self, handle: &BridgeHandle) -> (r: SocketAddr)
        requires
            handle@.wf(),
        ensures
            r == (match self@.conn_id {
                Some(conn_id) => match handle@.conn(conn_id) {
                    Some(c) => c.remote_addr,
                    None => self@.remote_addr,
                },
                None => self@.remote_addr,
            }),
    {
        // If the connection is known, its own address is the one.
        if let Some(conn_id) = self.conn_id {
            if let Some(slot) = handle.get_conn_notify(conn_id) {
                return handle.remote_addr(slot);
            }
        }
        self.remote_addr
    }

    /// A short description of the attempt, for logs.
    pub fn describe(&self) -> (r: String)
        ensures
            r@ == "Connecting { conn_id: "@ + (match self@.conn_id {
                Some(conn_id) => "Some("@ + text::decimal(conn_id as nat) + ")"@,
                None => "None"@,
            }) + ", remote_addr: "@ + addr::socket_addr_text(self@.remote_addr) + " }"@,
    {
        let conn_id = match self.conn_id {
            Some(conn_id) => {
                let mut known = join("Some(", decimal_text(conn_id).as_str());
                known.append(")");
                known
            },
            None => "None".to_owned(),
        };
        let mut r = join("Connecting { conn_id: ", conn_id.as_str());
        r.append(", remote_addr: ");
        r.append(self.remote_addr.to_string().as_str());
        r.append(" }");
        r
    }

    /// Whether the answer with the connection ID is still to be asked for.
    pub fn needs_id(&self) -> (r: bool)
        ensures
            r == (self@.conn_id is None && self@.awaiting_id),
    {
        self.conn_id.is_none() && self.awaiting_id
    }

    /// Goes on with the attempt. The second argument is what has come of the connection ID.
    pub fn poll(&mut self, handle: &mut BridgeHandle, id: Reply<Result<u64, ConnectError>>) -> (r:
        ConnectingStep)
        requires
            old(handle)@.wf(),
        ensures
            r@ == old(self)@.step(old(handle)@, id),
            final(self)@ == (match old(self)@.resolve(id) {
                Ok(conn_id) => old(self)@.known(conn_id),
                Err(_) => old(self)@,
            }),
            final(handle)@ == with_waker(old(handle)@, r@),
            final(handle)@.wf(),
    {
        // Phase 1: learn the connection ID if it is not known yet.
        let conn_id: u64 = match self.conn_id {
            Some(conn_id) => conn_id,
            None => {
                if !self.awaiting_id {
                    return ConnectingStep::Ready(Err(ConnectionError::LocallyClosed));
                }
                match id {
                    Reply::Ready(Ok(conn_id)) => {
                        self.conn_id = Some(conn_id);
                        self.awaiting_id = false;
                        conn_id
                    },
                    Reply::Ready(Err(e)) => {
                        return ConnectingStep::Ready(Err(ConnectionError::from_connect_error(e)));
                    },
                    Reply::Dropped => {
                        return ConnectingStep::Ready(Err(ConnectionError::LocallyClosed));
                    },
                    Reply::Pending => {
                        return ConnectingStep::AwaitId;
                    },
                }
            },
        };

        // Phase 2: wait for the QUIC handshake to complete.
        let slot = match handle.get_conn_notify(conn_id) {
            Some(slot) => slot,
            None => {
                return ConnectingStep::Ready(Err(ConnectionError::LocallyClosed));
            },
        };
        if handle.is_established(slot) {
            return ConnectingStep::Ready(Ok(Connection::new(conn_id)));
        }
        // The handshake may have failed.
        if let Some(e) = handle.closed_error(slot) {
            return ConnectingStep::Ready(Err(e));
        }
        handle.register_establish_waker(slot);
        ConnectingStep::AwaitHandshake(slot)
    }
}

/// The outcome of 0-RTT: accepted or rejected.
#[derive(Debug)]
pub struct ZeroRttAccepted;

impl ZeroRttAccepted {
    /// Whether 0-RTT was accepted: it was not.
    pub fn poll(&self) -> (r: Poll<bool>)
        ensures
            r == Poll::Ready(false),
    {
        Poll::Ready(false)
    }
}

// ---------------------------------------------------------------------------
// Connection
// ---------------------------------------------------------------------------

/// A QUIC connection.
///
/// Operations on the connection are commands to the bridge.
#[derive(Debug)]
pub struct Connection {
    conn_id: u64,
}

impl View for Connection {
    type V = u64;

    /// The connection ID.
    closed spec fn view(&self) -> u64 {
        self.conn_id
    }
}

impl Clone for Connection {
    fn clone(&self) -> (r: Self)
        ensures
            r == *self,
    {
        Connection { conn_id: self.conn_id }
    }
}

/// Waiting for a connection to be closed.
#[derive(Debug)]
pub enum ClosedStep {
    /// The connection is closed, with this error.
    Ready(ConnectionError),
    /// Watch the slot for a change.
    Watch(usize),
}

/// The identifier that a connection ID stands for: the ID itself, or its 32 low bits on a machine
/// where a `usize` cannot hold it.
pub open spec fn stable_id_of(conn_id: u64) -> usize {
    if conn_id <= usize::MAX {
        conn_id as usize
    } else {
        (conn_id % 0x1_0000_0000) as usize
    }
}

impl Connection {
    /// The connection with an ID.
    pub fn new(conn_id: u64) -> (r: Self)
        ensures
            r@ == conn_id,
    {
        Connection { conn_id }
    }

    /// The connection's ID.
    pub fn conn_id(&self) -> (r: u64)
        ensures
            r == self@,
    {
        self.conn_id
    }

    /// Open a bidirectional stream.
    pub fn open_bi(&self) -> (r: OpenBi)
        ensures
            r@ == (OpenView { conn_id: self@, sent: false }),
    {
        OpenBi { conn: self.clone(), sent: false }
    }

    /// Open a unidirectional stream.
    pub fn open_uni(&self) -> (r: OpenUni)
        ensures
            r@ == (OpenView { conn_id: self@, sent: false }),
    {
        OpenUni { conn: self.clone(), sent: false }
    }

    /// Accept the next bidirectional stream opened by the peer.
    pub fn accept_bi(&self) -> (r: AcceptBi)
        ensures
            r@ == (AcceptView { conn_id: self@, slot: None }),
    {
        AcceptBi { conn: self.clone(), slot: None }
    }

    /// Accept the next unidirectional stream opened by the peer.
    pub fn accept_uni(&self) -> (r: AcceptUni)
        ensures
            r@ == (AcceptView { conn_id: self@, slot: None }),
    {
        AcceptUni { conn: self.clone(), slot: None }
    }

    /// Read an unreliable datagram.
    pub fn read_datagram(&self) -> (r: ReadDatagram)
        ensures
            r@ == self@,
    {
        ReadDatagram { conn: self.clone() }
    }

    /// Send an unreliable datagram.
    ///
    /// Note: the engine does not currently expose a public datagram API.
    pub fn send_datagram(&self, _data: Bytes) -> (r: Result<(), SendDatagramError>)
        ensures
            r == Err::<(), SendDatagramError>(SendDatagramError::UnsupportedByPeer),
    {
        Err(SendDatagramError::UnsupportedByPeer)
    }

    /// Send an unreliable datagram, waiting for buffer space if needed.
    pub fn send_datagram_wait(&self, _data: Bytes) -> (r: SendDatagram)
        ensures
            r@ == self@,
    {
        SendDatagram { conn: self.clone() }
    }

    /// Maximum size of datagrams that can be sent.
    pub fn max_datagram_size(&self) -> (r: Option<usize>)
        ensures
            r is None,
    {
        None
    }

    /// Close the connection immediately: the command to be sent.
    pub fn close(&self, error_code: VarInt, reason: &[u8]) -> (r: BridgeCommand)
        ensures
            r matches BridgeCommand::CloseConnection { conn_id, error_code: code, reason: why }
                && conn_id == self@ && code == error_code@ && why@ == reason@,
    {
        BridgeCommand::CloseConnection {
            conn_id: self.conn_id,
            error_code: error_code.into_inner(),
            reason: copy_bytes(reason),
        }
    }

    /// Starts to wait for the connection to be closed.
    pub fn closed(&self, handle: &BridgeHandle) -> (r: ClosedStep)
        requires
            handle@.wf(),
        ensures
            match handle@.lost(self@) {
                Some(e) => r matches ClosedStep::Ready(x) && x@ == e,
                None => r matches ClosedStep::Watch(slot) && handle@.slot_of(self@) == Some(slot),
            },
    {
        match handle.get_conn_notify(self.conn_id) {
            Some(slot) => match handle.closed_error(slot) {
                Some(e) => ClosedStep::Ready(e),
                None => ClosedStep::Watch(slot),
            },
            None => ClosedStep::Ready(ConnectionError::LocallyClosed),
        }
    }

    /// Goes on with the wait once the slot has changed, or else (`alive` is false) the watch over it
    /// has ended.
    pub fn closed_changed(handle: &BridgeHandle, slot: usize, alive: bool) -> (r: ClosedStep)
        requires
            slot < handle@.conns.len(),
        ensures
            if alive {
                match handle@.conns[slot as int].closed {
                    Some(e) => r matches ClosedStep::Ready(x) && x@ == e,
                    None => r == ClosedStep::Watch(slot),
                }
            } else {
                r == ClosedStep::Ready(ConnectionError::LocallyClosed)
            },
    {
        if !alive {
            return ClosedStep::Ready(ConnectionError::LocallyClosed);
        }
        match handle.closed_error(slot) {
            Some(e) => ClosedStep::Ready(e),
            None => ClosedStep::Watch(slot),
        }
    }

    /// If the connection is closed, return the reason.
    pub fn close_reason(&self, handle: &BridgeHandle) -> (r: Option<ConnectionError>)
        requires
            handle@.wf(),
        ensures
            error::error_view(r) == handle@.close_reason(self@),
    {
        match handle.get_conn_notify(self.conn_id) {
            Some(slot) => handle.closed_error(slot),
            None => None,
        }
    }

    /// Get the peer's address.
    pub fn remote_address(&self, handle: &BridgeHandle) -> (r: SocketAddr)
        requires
            handle@.wf(),
        ensures
            r == (match handle@.conn(self@) {
                Some(c) => c.remote_addr,
                None => addr::unspecified_addr(),
            }),
    {
        match handle.get_conn_notify(self.conn_id) {
            Some(slot) => handle.remote_addr(slot),
            None => SocketAddr::unspecified(),
        }
    }

    /// Current best estimate of round-trip time: the command that asks for it.
    pub fn rtt(&self) -> (r: BridgeCommand)
        ensures
            r == (BridgeCommand::GetRtt { conn_id: self@ }),
    {
        BridgeCommand::GetRtt { conn_id: self.conn_id }
    }

    /// The round-trip time that an answer stands for: zero where there is none.
    pub fn rtt_from(answer: Option<Option<Duration>>) -> (r: Duration)
        ensures
            match answer {
                Some(Some(rtt)) => r == rtt,
                _ => r@ == 0,
            },
    {
        match answer {
            Some(Some(rtt)) => rtt,
            _ => Duration::from_millis(0),
        }
    }

    /// Whether this connection was initiated locally or by the peer.
    pub fn side(&self, handle: &BridgeHandle) -> (r: Side)
        requires
            handle@.wf(),
        ensures
            r == (match handle@.conn(self@) {
                Some(c) => c.side(),
                None => Side::Client,
            }),
    {
        match handle.get_conn_notify(self.conn_id) {
            Some(slot) => if handle.is_server(slot) {
                Side::Server
            } else {
                Side::Client
            },
            None => Side::Client,
        }
    }

    /// A stable identifier for this connection.
    pub fn stable_id(&self) -> (r: usize)
        ensures
            r == stable_id_of(self@),
            self@ <= usize::MAX ==> r == self@,
            self@ > usize::MAX ==> r == self@ % 0x1_0000_0000,
    {
        if self.conn_id <= usize::MAX as u64 {
            self.conn_id as usize
        } else {
            (self.conn_id % 0x1_0000_0000) as usize
        }
    }
}

// ---------------------------------------------------------------------------
// Opening streams
// ---------------------------------------------------------------------------

/// Opening a bidirectional stream.
#[derive(Debug)]
pub struct OpenBi {
    conn: Connection,
    sent: bool,
}

/// Opening a unidirectional stream.
#[derive(Debug)]
pub struct OpenUni {
    conn: Connection,
    sent: bool,
}

/// The state of an [`OpenBi`] or [`OpenUni`].
#[verifier::ext_equal]
pub struct OpenView {
    /// The connection.
    pub conn_id: u64,
    /// The command has been sent.
    pub sent: bool,
}

impl View for OpenBi {
    type V = OpenView;

    closed spec fn view(&self) -> OpenView {
        OpenView { conn_id: self.conn@, sent: self.sent }
    }
}

impl View for OpenUni {
    type V = OpenView;

    closed spec fn view(&self) -> OpenView {
        OpenView { conn_id: self.conn@, sent: self.sent }
    }
}

impl OpenView {
    /// The state once the command has been sent, or found to be of no use.
    pub open spec fn started(self, state: BridgeView) -> OpenView {
        OpenView { sent: self.sent || state.close_reason(self.conn_id) is None, ..self }
    }
}

/// The halves of a bidirectional stream that has just been opened or accepted.
pub open spec fn is_new_bi(halves: (SendStream, RecvStream), conn_id: u64, stream_id: u64) -> bool {
    &&& halves.0@ == SendStreamView::fresh(conn_id, stream_id)
    &&& halves.1@ == RecvStreamView::fresh(conn_id, stream_id)
}

impl OpenBi {
    /// Starts: the command to be sent, the first time; an error on a connection that is closed.
    pub fn start(&mut self, handle: &BridgeHandle) -> (r: Result<
        Option<BridgeCommand>,
        ConnectionError,
    >)
        requires
            handle@.wf(),
        ensures
            final(self)@ == old(self)@.started(handle@),
            match handle@.close_reason(old(self)@.conn_id) {
                Some(e) if !old(self)@.sent => r matches Err(x) && x@ == e,
                _ => r == Ok::<_, ConnectionError>(
                    if old(self)@.sent {
                        None
                    } else {
                        Some(BridgeCommand::OpenBiStream { conn_id: old(self)@.conn_id })
                    },
                ),
            },
    {
        if self.sent {
            return Ok(None);
        }
        if let Some(e) = self.conn.close_reason(handle) {
            return Err(e);
        }
        self.sent = true;
        Ok(Some(BridgeCommand::OpenBiStream { conn_id: self.conn.conn_id }))
    }

    /// Goes on once the command has been sent. The argument is what has come back.
    pub fn poll(&self, reply: Reply<Result<u64, ConnectionError>>) -> (r: Poll<
        Result<(SendStream, RecvStream), ConnectionError>,
    >)
        ensures
            match reply {
                Reply::Ready(Ok(stream_id)) => r matches Poll::Ready(Ok(halves)) && is_new_bi(
                    halves,
                    self@.conn_id,
                    stream_id,
                ),
                Reply::Ready(Err(e)) => r matches Poll::Ready(Err(x)) && x == e,
                Reply::Dropped => r matches Poll::Ready(Err(ConnectionError::LocallyClosed)),
                Reply::Pending => r is Pending,
            },
    {
        match reply {
            Reply::Ready(Ok(stream_id)) => Poll::Ready(
                Ok(
                    (
                        SendStream::new(self.conn.conn_id, stream_id),
                        RecvStream::new(self.conn.conn_id, stream_id),
                    ),
                ),
            ),
            Reply::Ready(Err(e)) => Poll::Ready(Err(e)),
            Reply::Dropped => Poll::Ready(Err(ConnectionError::LocallyClosed)),
            Reply::Pending => Poll::Pending,
        }
    }
}

impl OpenUni {
    /// Starts: the command to be sent, the first time; an error on a connection that is closed.
    pub fn start(&mut self, handle: &BridgeHandle) -> (r: Result<
        Option<BridgeCommand>,
        ConnectionError,
    >)
        requires
            handle@.wf(),
        ensures
            final(self)@ == old(self)@.started(handle@),
            match handle@.close_reason(old(self)@.conn_id) {
                Some(e) if !old(self)@.sent => r matches Err(x) && x@ == e,
                _ => r == Ok::<_, ConnectionError>(
                    if old(self)@.sent {
                        None
                    } else {
                        Some(BridgeCommand::OpenUniStream { conn_id: old(self)@.conn_id })
                    },
                ),
            },
    {
        if self.sent {
            return Ok(None);
        }
        if let Some(e) = self.conn.close_reason(handle) {
            return Err(e);
        }
        self.sent = true;
        Ok(Some(BridgeCommand::OpenUniStream { conn_id: self.conn.conn_id }))
    }

    /// Goes on once the command has been sent. The argument is what has come back.
    pub fn poll(&self, reply: Reply<Result<u64, ConnectionError>>) -> (r: Poll<
        Result<SendStream, ConnectionError>,
    >)
        ensures
            match reply {
                Reply::Ready(Ok(stream_id)) => r matches Poll::Ready(Ok(send)) && send@
                    == SendStreamView::fresh(self@.conn_id, stream_id),
                Reply::Ready(Err(e)) => r matches Poll::Ready(Err(x)) && x == e,
                Reply::Dropped => r matches Poll::Ready(Err(ConnectionError::LocallyClosed)),
                Reply::Pending => r is Pending,
            },
    {
        match reply {
            Reply::Ready(Ok(stream_id)) => Poll::Ready(
                Ok(SendStream::new(self.conn.conn_id, stream_id)),
            ),
            Reply::Ready(Err(e)) => Poll::Ready(Err(e)),
            Reply::Dropped => Poll::Ready(Err(ConnectionError::LocallyClosed)),
            Reply::Pending => Poll::Pending,
        }
    }
}

// ---------------------------------------------------------------------------
// Accepting streams
// ---------------------------------------------------------------------------

/// Accepting a bidirectional stream from the peer.
#[derive(Debug)]
pub struct AcceptBi {
    conn: Connection,
    slot: Option<usize>,
}

/// Accepting a unidirectional stream from the peer.
#[derive(Debug)]
pub struct AcceptUni {
    conn: Connection,
    slot: Option<usize>,
}

/// The state of an [`AcceptBi`] or [`AcceptUni`].
#[verifier::ext_equal]
pub struct AcceptView {
    /// The connection.
    pub conn_id: u64,
    /// The connection's slot, once it has been looked up.
    pub slot: Option<usize>,
}

impl View for AcceptBi {
    type V = AcceptView;

    closed spec fn view(&self) -> AcceptView {
        AcceptView { conn_id: self.conn@, slot: self.slot }
    }
}

impl View for AcceptUni {
    type V = AcceptView;

    closed spec fn view(&self) -> AcceptView {
        AcceptView { conn_id: self.conn@, slot: self.slot }
    }
}

impl AcceptView {
    /// The slot, if it has been looked up, is one of the endpoint.
    pub open spec fn fits(self, state: BridgeView) -> bool {
        self.slot matches Some(slot) ==> slot < state.conns.len()
    }

    /// The slot that the streams come from.
    pub open spec fn source(self, state: BridgeView) -> Option<usize> {
        match self.slot {
            Some(slot) => Some(slot),
            None => state.slot_of(self.conn_id),
        }
    }

    /// Why no stream can be accepted: the connection is not known, or else closed.
    pub open spec fn refusal(self, state: BridgeView) -> Option<ConnectionErrorView> {
        match self.source(state) {
            Some(slot) => state.conns[slot as int].closed,
            None => Some(ConnectionErrorView::LocallyClosed),
        }
    }
}

/// Waiting for a stream from the peer.
#[derive(Debug)]
pub enum StreamWait<T> {
    /// The wait is over.
    Ready(Result<T, ConnectionError>),
    /// Wait until a stream comes in the slot, or its connection is closed.
    Wait(usize),
}

fn find_source(conn_id: u64, slot: Option<usize>, handle: &BridgeHandle) -> (r: Option<usize>)
    requires
        handle@.wf(),
    ensures
        r == (AcceptView { conn_id, slot }).source(handle@),
        slot is None && r is Some ==> r->0 < handle@.conns.len(),
{
    match slot {
        Some(slot) => Some(slot),
        None => handle.get_conn_notify(conn_id),
    }
}

impl AcceptBi {
    /// Goes on with the wait: accepts the oldest of the peer's bidirectional streams that nobody
    /// has accepted yet, if there is one.
    pub fn poll(&mut self, handle: &mut BridgeHandle) -> (r: StreamWait<(SendStream, RecvStream)>)
        requires
            old(handle)@.wf(),
            old(self)@.fits(old(handle)@),
        ensures
            final(self)@ == (AcceptView { slot: old(self)@.source(old(handle)@), ..old(self)@ }),
            final(self)@.fits(final(handle)@),
            final(handle)@.wf(),
            match old(self)@.refusal(old(handle)@) {
                Some(e) => {
                    &&& r matches StreamWait::Ready(Err(x))
                    &&& x@ == e
                    &&& final(handle)@ == old(handle)@
                },
                None => {
                    let slot = old(self)@.source(old(handle)@)->0;
                    let queue = old(handle)@.conns[slot as int].queue(Dir::Bi);
                    &&& final(handle)@ == old(handle)@.accepted(slot, Dir::Bi)
                    &&& if queue.len() > 0 {
                        r matches StreamWait::Ready(Ok(halves)) && is_new_bi(
                            halves,
                            old(self)@.conn_id,
                            queue[0],
                        )
                    } else {
                        r == StreamWait::<(SendStream, RecvStream)>::Wait(slot)
                    }
                },
            },
    {
        self.slot = find_source(self.conn.conn_id, self.slot, handle);
        match self.slot {
            None => StreamWait::Ready(Err(ConnectionError::LocallyClosed)),
            Some(slot) => match handle.closed_error(slot) {
                Some(e) => StreamWait::Ready(Err(e)),
                None => match handle.take_stream(slot, Dir::Bi) {
                    Some(stream_id) => StreamWait::Ready(
                        Ok(
                            (
                                SendStream::new(self.conn.conn_id, stream_id),
                                RecvStream::new(self.conn.conn_id, stream_id),
                            ),
                        ),
                    ),
                    None => StreamWait::Wait(slot),
                },
            },
        }
    }
}

impl AcceptUni {
    /// Goes on with the wait: accepts the oldest of the peer's unidirectional streams that nobody
    /// has accepted yet, if there is one.
    pub fn poll(&mut self, handle: &mut BridgeHandle) -> (r: StreamWait<RecvStream>)
        requires
            old(handle)@.wf(),
            old(self)@.fits(old(handle)@),
        ensures
            final(self)@ == (AcceptView { slot: old(self)@.source(old(handle)@), ..old(self)@ }),
            final(self)@.fits(final(handle)@),
            final(handle)@.wf(),
            match old(self)@.refusal(old(handle)@) {
                Some(e) => {
                    &&& r matches StreamWait::Ready(Err(x))
                    &&& x@ == e
                    &&& final(handle)@ == old(handle)@
                },
                None => {
                    let slot = old(self)@.source(old(handle)@)->0;
                    let queue = old(handle)@.conns[slot as int].queue(Dir::Uni);
                    &&& final(handle)@ == old(handle)@.accepted(slot, Dir::Uni)
                    &&& if queue.len() > 0 {
                        r matches StreamWait::Ready(Ok(recv)) && recv@ == RecvStreamView::fresh(
                            old(self)@.conn_id,
                            queue[0],
                        )
                    } else {
                        r == StreamWait::<RecvStream>::Wait(slot)
                    }
                },
            },
    {
        self.slot = find_source(self.conn.conn_id, self.slot, handle);
        match self.slot {
            None => StreamWait::Ready(Err(ConnectionError::LocallyClosed)),
            Some(slot) => match handle.closed_error(slot) {
                Some(e) => StreamWait::Ready(Err(e)),
                None => match handle.take_stream(slot, Dir::Uni) {
                    Some(stream_id) => StreamWait::Ready(
                        Ok(RecvStream::new(self.conn.conn_id, stream_id)),
                    ),
                    None => StreamWait::Wait(slot),
                },
            },
        }
    }
}

// ---------------------------------------------------------------------------
// Datagrams
// ---------------------------------------------------------------------------

/// Reading an unreliable datagram.
#[derive(Debug)]
pub struct ReadDatagram {
    conn: Connection,
}

impl View for ReadDatagram {
    type V = u64;

    closed spec fn view(&self) -> u64 {
        self.conn@
    }
}

impl ReadDatagram {
    /// The engine has no datagrams to give, so this waits for the connection to close: an error
    /// if it is closed or not known, or else the slot to watch.
    pub fn poll(&self, handle: &BridgeHandle) -> (r: Result<usize, ConnectionError>)
        requires
            handle@.wf(),
        ensures
            match handle@.lost(self@) {
                Some(e) => r matches Err(x) && x@ == e,
                None => r matches Ok(slot) && handle@.slot_of(self@) == Some(slot),
            },
    {
        match handle.get_conn_notify(self.conn.conn_id) {
            Some(slot) => match handle.closed_error(slot) {
                Some(e) => Err(e),
                None => Ok(slot),
            },
            None => Err(ConnectionError::LocallyClosed),
        }
    }
}

/// Sending an unreliable datagram with back-pressure.
#[derive(Debug)]
pub struct SendDatagram {
    conn: Connection,
}

impl View for SendDatagram {
    type V = u64;

    closed spec fn view(&self) -> u64 {
        self.conn@
    }
}

impl SendDatagram {
    /// Datagrams cannot be sent.
    pub fn poll(&self) -> (r: Poll<Result<(), SendDatagramError>>)
        ensures
            r == Poll::<Result<(), SendDatagramError>>::Ready(
                Err(SendDatagramError::UnsupportedByPeer),
            ),
    {
        Poll::Ready(Err(SendDatagramError::UnsupportedByPeer))
    }
}

/// Errors from [`Connection::send_datagram`].
#[derive(Debug, PartialEq, Eq)]
pub enum SendDatagramError {
    /// Datagrams are not supported by the peer.
    UnsupportedByPeer,
    /// Datagram support is disabled.
    Disabled,
    /// The datagram is too large.
    TooLarge,
    /// The connection was lost.
    ConnectionLost(ConnectionError),
}

impl Clone for SendDatagramError {
    fn clone(&self) -> (r: Self)
        ensures
            match (*self, r) {
                (
                    SendDatagramError::ConnectionLost(a),
                    SendDatagramError::ConnectionLost(b),
                ) => a@ == b@,
                (SendDatagramError::ConnectionLost(_), _) => false,
                _ => r == *self,
            },
    {
        match self {
            SendDatagramError::UnsupportedByPeer => SendDatagramError::UnsupportedByPeer,
            SendDatagramError::Disabled => SendDatagramError::Disabled,
            SendDatagramError::TooLarge => SendDatagramError::TooLarge,
            SendDatagramError::ConnectionLost(e) => SendDatagramError::ConnectionLost(e.clone()),
        }
    }
}

impl vstd::std_specs::convert::FromSpecImpl<ConnectionError> for SendDatagramError {
    open spec fn obeys_from_spec() -> bool {
        true
    }

    open spec fn from_spec(e: ConnectionError) -> Self {
        SendDatagramError::ConnectionLost(e)
    }
}

impl From<ConnectionError> for SendDatagramError {
    fn from(e: ConnectionError) -> (r: Self) {
        SendDatagramError::ConnectionLost(e)
    }
}

impl SendDatagramError {
    /// The message of the error.
    pub fn to_string(&self) -> (r: String)
        ensures
            r@ == (match self {
                SendDatagramError::UnsupportedByPeer => "datagrams not supported by peer"@,
                SendDatagramError::Disabled => "datagram support disabled"@,
                SendDatagramError::TooLarge => "datagram too large"@,
                SendDatagramError::ConnectionLost(e) => "connection lost: "@ + e@.message(),
            }),
    {
        match self {
            SendDatagramError::UnsupportedByPeer => "datagrams not supported by peer".to_owned(),
            SendDatagramError::Disabled => "datagram support disabled".to_owned(),
            SendDatagramError::TooLarge => "datagram too large".to_owned(),
            SendDatagramError::ConnectionLost(e) => join(
                "connection lost: ",
                e.to_string().as_str(),
            ),
        }
    }
}

} // verus!
