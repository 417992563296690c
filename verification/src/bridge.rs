//! The shared state of an endpoint's connections, and how the events of the engine change it.
use std::collections::VecDeque;

use dashmap::DashMap;
use vstd::prelude::*;

use crate::addr;
use crate::addr::SocketAddr;
pub use crate::command::BridgeCommand;
use crate::endpoint;
use crate::endpoint::EndpointStats;
use crate::engine::EngineClose;
use crate::error;
use crate::error::{ConnectionError, ConnectionErrorView};
use crate::registry;
use crate::registry::{map_entry_or_insert, map_get, map_insert, map_keys, map_new};
use crate::types;
use crate::types::{Dir, Side};

verus! {

// ---------------------------------------------------------------------------
// Per-connection state
// ---------------------------------------------------------------------------

/// What the waiters on a signal wait for.
#[derive(Debug, Clone, Copy, PartialEq, Eq, Structural)]
pub enum SignalKind {
    /// The stream has data, an end or an error to read.
    Readable,
    /// The stream takes data again.
    Writable,
}

/// A wake-up signal of one stream. Signals are numbered in the order in which they are created.
#[derive(Debug, Clone, Copy, PartialEq, Eq, Structural)]
pub struct StreamSignal {
    /// The stream.
    pub stream_id: u64,
    /// What its waiters wait for.
    pub kind: SignalKind,
}

/// Where to find a signal: the connection's slot, and the number of the signal in it.
#[derive(Debug, Clone, Copy, PartialEq, Eq, Structural)]
pub struct SignalRef {
    /// The slot of the connection.
    pub slot: usize,
    /// The number of the signal.
    pub signal: u64,
}

/// Per-connection state that the async side watches.
pub struct ConnNotify {
    /// Set to `true` when the handshake completes.
    is_established: bool,
    /// Whether a waker waits for the handshake to complete.
    establish_waker: bool,
    /// The error that the connection was closed with, once it is closed.
    closed: Option<ConnectionError>,
    /// The peer's bidirectional streams that nobody has accepted yet, oldest first.
    accept_bi: VecDeque<u64>,
    /// The peer's unidirectional streams that nobody has accepted yet, oldest first.
    accept_uni: VecDeque<u64>,
    /// The number of each stream's readability signal.
    stream_readable: DashMap<u64, u64>,
    /// The number of each stream's writability signal.
    stream_writable: DashMap<u64, u64>,
    /// All signals of the connection.
    signals: Vec<StreamSignal>,
    /// Whether this is a server-side connection.
    is_server: bool,
    /// Remote address.
    remote_addr: SocketAddr,
}

/// The state of a connection, in mathematical terms.
#[verifier::ext_equal]
pub struct ConnView {
    /// The handshake is complete.
    pub established: bool,
    /// A waker waits for the handshake.
    pub establish_waker: bool,
    /// The error that the connection was closed with.
    pub closed: Option<ConnectionErrorView>,
    /// The bidirectional streams to be accepted, oldest first.
    pub accept_bi: Seq<u64>,
    /// The unidirectional streams to be accepted, oldest first.
    pub accept_uni: Seq<u64>,
    /// From a stream to the number of its readability signal.
    pub readable: Map<u64, u64>,
    /// From a stream to the number of its writability signal.
    pub writable: Map<u64, u64>,
    /// The signals.
    pub signals: Seq<StreamSignal>,
    /// The local side is the server.
    pub is_server: bool,
    /// The peer's address.
    pub remote_addr: SocketAddr,
}

impl View for ConnNotify {
    type V = ConnView;

    closed spec fn view(&self) -> ConnView {
        ConnView {
            established: self.is_established,
            establish_waker: self.establish_waker,
            closed: error::error_view(self.closed),
            accept_bi: self.accept_bi@,
            accept_uni: self.accept_uni@,
            readable: registry::entries(self.stream_readable),
            writable: registry::entries(self.stream_writable),
            signals: self.signals@,
            is_server: self.is_server,
            remote_addr: self.remote_addr,
        }
    }
}

impl ConnView {
    /// A connection that has just been created.
    pub open spec fn fresh(remote_addr: SocketAddr, is_server: bool) -> ConnView {
        ConnView {
            established: false,
            establish_waker: false,
            closed: None,
            accept_bi: Seq::empty(),
            accept_uni: Seq::empty(),
            readable: Map::empty(),
            writable: Map::empty(),
            signals: Seq::empty(),
            is_server,
            remote_addr,
        }
    }

    /// Each number in the two tables is that of a signal of that very stream and kind.
    pub open spec fn wf(self) -> bool {
        &&& forall|s: u64| #[trigger]
            self.readable.contains_key(s) ==> {
                &&& self.readable[s] < self.signals.len()
                &&& self.signals[self.readable[s] as int] == (StreamSignal {
                    stream_id: s,
                    kind: SignalKind::Readable,
                })
            }
        &&& forall|s: u64| #[trigger]
            self.writable.contains_key(s) ==> {
                &&& self.writable[s] < self.signals.len()
                &&& self.signals[self.writable[s] as int] == (StreamSignal {
                    stream_id: s,
                    kind: SignalKind::Writable,
                })
            }
        &&& self.signals.len() <= usize::MAX
        &&& self.queued_right(Dir::Bi)
        &&& self.queued_right(Dir::Uni)
    }

    /// Only streams of the direction that the peer has opened are to be accepted as such.
    pub open spec fn queued_right(self, dir: Dir) -> bool {
        forall|i: int|
            0 <= i < self.queue(dir).len() ==> types::peer_initiated(
                #[trigger] self.queue(dir)[i],
                self.side(),
            ) && types::stream_dir(self.queue(dir)[i]) == dir
    }

    /// The side of the connection that is local.
    pub open spec fn side(self) -> Side {
        if self.is_server {
            Side::Server
        } else {
            Side::Client
        }
    }

    /// The connection with a readability signal for the stream: the one it has, or else a new one.
    pub open spec fn with_readable(self, stream_id: u64) -> ConnView {
        if self.readable.contains_key(stream_id) {
            self
        } else {
            ConnView {
                readable: self.readable.insert(stream_id, self.signals.len() as u64),
                signals: self.signals.push(
                    StreamSignal { stream_id, kind: SignalKind::Readable },
                ),
                ..self
            }
        }
    }

    /// The connection with a writability signal for the stream: the one it has, or else a new one.
    pub open spec fn with_writable(self, stream_id: u64) -> ConnView {
        if self.writable.contains_key(stream_id) {
            self
        } else {
            ConnView {
                writable: self.writable.insert(stream_id, self.signals.len() as u64),
                signals: self.signals.push(
                    StreamSignal { stream_id, kind: SignalKind::Writable },
                ),
                ..self
            }
        }
    }

    /// The streams of a direction that are to be accepted, oldest first.
    pub open spec fn queue(self, dir: Dir) -> Seq<u64> {
        match dir {
            Dir::Bi => self.accept_bi,
            Dir::Uni => self.accept_uni,
        }
    }

    /// The connection with other streams of a direction to be accepted.
    pub open spec fn with_queue(self, dir: Dir, queue: Seq<u64>) -> ConnView {
        match dir {
            Dir::Bi => ConnView { accept_bi: queue, ..self },
            Dir::Uni => ConnView { accept_uni: queue, ..self },
        }
    }

    /// The connection once a stream was created: it has both of its signals, and if the peer opened
    /// it, it is the last of those to be accepted.
    pub open spec fn stream_created(self, stream_id: u64) -> ConnView {
        let known = self.with_readable(stream_id).with_writable(stream_id);
        if types::peer_initiated(stream_id, self.side()) {
            let dir = types::stream_dir(stream_id);
            known.with_queue(dir, self.queue(dir).push(stream_id))
        } else {
            known
        }
    }

    /// A stream of the direction can be accepted: the connection is open and the peer opened one.
    pub open spec fn can_accept(self, dir: Dir) -> bool {
        self.closed is None && self.queue(dir).len() > 0
    }

    /// The connection once its oldest stream of the direction is accepted, if one can be.
    pub open spec fn accepted(self, dir: Dir) -> ConnView {
        if self.can_accept(dir) {
            self.with_queue(dir, self.queue(dir).drop_first())
        } else {
            self
        }
    }

    /// The connection once its handshake is complete and its waker woken.
    pub open spec fn established(self) -> ConnView {
        ConnView { established: true, establish_waker: false, ..self }
    }

    /// The connection once it is closed and its waker woken.
    pub open spec fn closed(self, error: ConnectionErrorView) -> ConnView {
        ConnView { closed: Some(error), establish_waker: false, ..self }
    }
}

impl ConnNotify {
    fn new(remote_addr: SocketAddr, is_server: bool) -> (r: Self)
        ensures
            r@ == ConnView::fresh(remote_addr, is_server),
            r@.wf(),
    {
        ConnNotify {
            is_established: false,
            establish_waker: false,
            closed: None,
            accept_bi: VecDeque::new(),
            accept_uni: VecDeque::new(),
            stream_readable: map_new(),
            stream_writable: map_new(),
            signals: Vec::new(),
            is_server,
            remote_addr,
        }
    }

    fn get_or_create_readable(&mut self, stream_id: u64) -> (signal: u64)
        requires
            old(self)@.wf(),
        ensures
            final(self)@ == old(self)@.with_readable(stream_id),
            final(self)@.wf(),
            final(self)@.readable.contains_key(stream_id),
            signal == final(self)@.readable[stream_id],
    {
        let count: u64 = self.signals.len() as u64;
        let signal = map_entry_or_insert(&mut self.stream_readable, stream_id, count);
        if signal == count {
            self.signals.push(StreamSignal { stream_id, kind: SignalKind::Readable });
        }
        assert(self.signals.len() == self.signals@.len());
        signal
    }

    fn get_or_create_writable(&mut self, stream_id: u64) -> (signal: u64)
        requires
            old(self)@.wf(),
        ensures
            final(self)@ == old(self)@.with_writable(stream_id),
            final(self)@.wf(),
            final(self)@.writable.contains_key(stream_id),
            signal == final(self)@.writable[stream_id],
    {
        let count: u64 = self.signals.len() as u64;
        let signal = map_entry_or_insert(&mut self.stream_writable, stream_id, count);
        if signal == count {
            self.signals.push(StreamSignal { stream_id, kind: SignalKind::Writable });
        }
        assert(self.signals.len() == self.signals@.len());
        signal
    }
}

// ---------------------------------------------------------------------------
// BridgeHandle: the state shared by everything on an endpoint
// ---------------------------------------------------------------------------

/// The state of an endpoint that its connections and streams share.
///
/// Each connection that was ever created has a slot of its own, and the table of connections
/// leads from a connection ID to the slot of the connection that has the ID now.
pub struct BridgeHandle {
    conn_states: DashMap<u64, u64>,
    conns: Vec<ConnNotify>,
    incoming: VecDeque<IncomingData>,
    stats: EndpointStats,
    open_connections: u64,
    endpoint_closed: bool,
    local_addr: SocketAddr,
}

/// The shared state, in mathematical terms.
#[verifier::ext_equal]
pub struct BridgeView {
    /// From a connection ID to the connection's slot.
    pub conn_states: Map<u64, u64>,
    /// The connections by slot.
    pub conns: Seq<ConnView>,
    /// The incoming connections that nobody has taken yet, oldest first.
    pub incoming: Seq<IncomingData>,
    /// What has been counted.
    pub stats: EndpointStats,
    /// How many connections are open.
    pub open_connections: u64,
    /// The endpoint has been closed.
    pub endpoint_closed: bool,
    /// The address that the endpoint is bound to.
    pub local_addr: SocketAddr,
}

impl View for BridgeHandle {
    type V = BridgeView;

    closed spec fn view(&self) -> BridgeView {
        BridgeView {
            conn_states: registry::entries(self.conn_states),
            conns: self.conns@.map_values(|c: ConnNotify| c@),
            incoming: self.incoming@,
            stats: self.stats,
            open_connections: self.open_connections,
            endpoint_closed: self.endpoint_closed,
            local_addr: self.local_addr,
        }
    }
}

/// The number that comes after `n` in 64-bit arithmetic.
pub open spec fn after(n: u64) -> u64 {
    if n == u64::MAX {
        0
    } else {
        (n + 1) as u64
    }
}

/// The number that comes before `n` in 64-bit arithmetic.
pub open spec fn before(n: u64) -> u64 {
    if n == 0 {
        u64::MAX
    } else {
        (n - 1) as u64
    }
}

impl BridgeView {
    /// An endpoint without connections.
    pub open spec fn fresh(local_addr: SocketAddr) -> BridgeView {
        BridgeView {
            conn_states: Map::empty(),
            conns: Seq::empty(),
            incoming: Seq::empty(),
            stats: endpoint::no_stats(),
            open_connections: 0,
            endpoint_closed: false,
            local_addr,
        }
    }

    /// The table leads to slots that exist, and each connection is well-formed.
    pub open spec fn wf(self) -> bool {
        &&& forall|id: u64| #[trigger]
            self.conn_states.contains_key(id) ==> self.conn_states[id] < self.conns.len()
        &&& forall|i: int| 0 <= i < self.conns.len() ==> (#[trigger] self.conns[i]).wf()
        &&& self.conns.len() <= usize::MAX
    }

    /// The slot of the connection with the ID.
    pub open spec fn slot_of(self, conn_id: u64) -> Option<usize> {
        if self.conn_states.contains_key(conn_id) {
            Some(self.conn_states[conn_id] as usize)
        } else {
            None
        }
    }

    /// The connection with the ID.
    pub open spec fn conn(self, conn_id: u64) -> Option<ConnView> {
        match self.slot_of(conn_id) {
            Some(slot) => Some(self.conns[slot as int]),
            None => None,
        }
    }

    /// The error that the connection with the ID was closed with.
    pub open spec fn close_reason(self, conn_id: u64) -> Option<ConnectionErrorView> {
        match self.conn(conn_id) {
            Some(c) => c.closed,
            None => None,
        }
    }

    /// Why nothing can be done on the connection with the ID: it is not known, or else closed.
    pub open spec fn lost(self, conn_id: u64) -> Option<ConnectionErrorView> {
        match self.conn(conn_id) {
            Some(c) => c.closed,
            None => Some(ConnectionErrorView::LocallyClosed),
        }
    }

    /// The endpoint with another state of the connection in the slot.
    pub open spec fn with_slot(self, slot: usize, conn: ConnView) -> BridgeView {
        BridgeView { conns: self.conns.update(slot as int, conn), ..self }
    }

    /// The endpoint with one more connection, which has the ID from now on.
    pub open spec fn created(
        self,
        conn_id: u64,
        remote_addr: SocketAddr,
        is_server: bool,
    ) -> BridgeView {
        BridgeView {
            conn_states: self.conn_states.insert(conn_id, self.conns.len() as u64),
            conns: self.conns.push(ConnView::fresh(remote_addr, is_server)),
            stats: if is_server {
                self.stats
            } else {
                EndpointStats {
                    outgoing_handshakes: after(self.stats.outgoing_handshakes),
                    ..self.stats
                }
            },
            open_connections: after(self.open_connections),
            ..self
        }
    }

    /// The endpoint once an incoming connection, if there is one, waits to be taken.
    pub open spec fn offered(self, data: Option<IncomingData>) -> BridgeView {
        match data {
            Some(data) => BridgeView { incoming: self.incoming.push(data), ..self },
            None => self,
        }
    }

    /// An incoming connection can be taken: the endpoint is open and there is one.
    pub open spec fn can_take(self) -> bool {
        !self.endpoint_closed && self.incoming.len() > 0
    }

    /// The endpoint once its oldest incoming connection is taken, if one can be.
    pub open spec fn taken(self) -> BridgeView {
        if self.can_take() {
            BridgeView { incoming: self.incoming.drop_first(), ..self }
        } else {
            self
        }
    }

    /// The endpoint once an incoming connection is decided on.
    pub open spec fn decided(self, decision: Decision) -> BridgeView {
        BridgeView {
            stats: match decision {
                Decision::Accepted => EndpointStats {
                    accepted_handshakes: after(self.stats.accepted_handshakes),
                    ..self.stats
                },
                Decision::Refused => EndpointStats {
                    refused_handshakes: after(self.stats.refused_handshakes),
                    ..self.stats
                },
                Decision::Ignored => EndpointStats {
                    ignored_handshakes: after(self.stats.ignored_handshakes),
                    ..self.stats
                },
            },
            ..self
        }
    }

    /// The endpoint once a stream of a connection was created.
    pub open spec fn stream_created(self, conn_id: u64, stream_id: u64) -> BridgeView {
        match self.slot_of(conn_id) {
            Some(slot) => self.with_slot(slot, self.conns[slot as int].stream_created(stream_id)),
            None => self,
        }
    }

    /// The endpoint once the oldest stream of the direction is accepted in the slot, if one can be.
    pub open spec fn accepted(self, slot: usize, dir: Dir) -> BridgeView {
        self.with_slot(slot, self.conns[slot as int].accepted(dir))
    }

    /// The endpoint once the handshake of a connection is complete.
    pub open spec fn established(self, conn_id: u64) -> BridgeView {
        match self.slot_of(conn_id) {
            Some(slot) => self.with_slot(slot, self.conns[slot as int].established()),
            None => self,
        }
    }

    /// The endpoint once a connection is closed.
    pub open spec fn closed(self, conn_id: u64, error: ConnectionErrorView) -> BridgeView {
        let counted = BridgeView { open_connections: before(self.open_connections), ..self };
        match self.slot_of(conn_id) {
            Some(slot) => counted.with_slot(slot, self.conns[slot as int].closed(error)),
            None => counted,
        }
    }

    /// The endpoint once a stream of a connection is known to be readable.
    pub open spec fn readable(self, conn_id: u64, stream_id: u64) -> BridgeView {
        match self.slot_of(conn_id) {
            Some(slot) => self.with_slot(slot, self.conns[slot as int].with_readable(stream_id)),
            None => self,
        }
    }

    /// The endpoint once a stream of a connection is known to be writable.
    pub open spec fn writable(self, conn_id: u64, stream_id: u64) -> BridgeView {
        match self.slot_of(conn_id) {
            Some(slot) => self.with_slot(slot, self.conns[slot as int].with_writable(stream_id)),
            None => self,
        }
    }
}

impl BridgeHandle {
    /// The state of an endpoint that has just been bound to an address.
    pub fn new(local_addr: SocketAddr) -> (r: Self)
        ensures
            r@ == BridgeView::fresh(local_addr),
            r@.wf(),
    {
        let r = BridgeHandle {
            conn_states: map_new(),
            conns: Vec::new(),
            incoming: VecDeque::new(),
            stats: EndpointStats::default(),
            open_connections: 0,
            endpoint_closed: false,
            local_addr,
        };
        assert(r@.conns =~= Seq::empty());
        r
    }

    /// The slot of a connection.
    pub fn get_conn_notify(&self, conn_id: u64) -> (slot: Option<usize>)
        requires
            self@.wf(),
        ensures
            slot == self@.slot_of(conn_id),
            slot matches Some(s) ==> s < self@.conns.len(),
    {
        match map_get(&self.conn_states, conn_id) {
            Some(slot) => Some(slot as usize),
            None => None,
        }
    }

    /// The connection IDs in use, each once, in no particular order.
    pub fn conn_ids(&self) -> (ids: Vec<u64>)
        ensures
            ids@.no_duplicates(),
            forall|id: u64| ids@.contains(id) <==> self@.conn_states.contains_key(id),
    {
        map_keys(&self.conn_states)
    }

    /// How many slots there are.
    pub fn slots(&self) -> (r: usize)
        ensures
            r == self@.conns.len(),
    {
        self.conns.len()
    }

    /// Whether the handshake of the connection in the slot is complete.
    pub fn is_established(&self, slot: usize) -> (r: bool)
        requires
            slot < self@.conns.len(),
        ensures
            r == self@.conns[slot as int].established,
    {
        self.conns[slot].is_established
    }

    /// The error that the connection in the slot was closed with, if it is closed.
    pub fn closed_error(&self, slot: usize) -> (r: Option<ConnectionError>)
        requires
            slot < self@.conns.len(),
        ensures
            error::error_view(r) == self@.conns[slot as int].closed,
    {
        match &self.conns[slot].closed {
            Some(e) => Some(e.clone()),
            None => None,
        }
    }

    /// The peer's address of the connection in the slot.
    pub fn remote_addr(&self, slot: usize) -> (r: SocketAddr)
        requires
            slot < self@.conns.len(),
        ensures
            r == self@.conns[slot as int].remote_addr,
    {
        self.conns[slot].remote_addr
    }

    /// Whether the connection in the slot is a server-side one.
    pub fn is_server(&self, slot: usize) -> (r: bool)
        requires
            slot < self@.conns.len(),
        ensures
            r == self@.conns[slot as int].is_server,
    {
        self.conns[slot].is_server
    }

    /// How many connections are open.
    pub fn open_connections(&self) -> (r: u64)
        ensures
            r == self@.open_connections,
    {
        self.open_connections
    }

    /// Whether the endpoint has been closed.
    pub fn endpoint_closed(&self) -> (r: bool)
        ensures
            r == self@.endpoint_closed,
    {
        self.endpoint_closed
    }

    /// The address that the endpoint is bound to.
    pub fn local_addr(&self) -> (r: SocketAddr)
        ensures
            r == self@.local_addr,
    {
        self.local_addr
    }

    /// What has been counted.
    pub fn stats(&self) -> (r: EndpointStats)
        ensures
            r == self@.stats,
    {
        self.stats
    }

    /// Counts a decision on an incoming connection.
    pub(crate) fn decide(&mut self, decision: Decision)
        ensures
            final(self)@ == old(self)@.decided(decision),
    {
        match decision {
            Decision::Accepted => {
                self.stats.accepted_handshakes = self.stats.accepted_handshakes.wrapping_add(1);
            },
            Decision::Refused => {
                self.stats.refused_handshakes = self.stats.refused_handshakes.wrapping_add(1);
            },
            Decision::Ignored => {
                self.stats.ignored_handshakes = self.stats.ignored_handshakes.wrapping_add(1);
            },
        }
    }

    /// Takes the oldest incoming connection, if the endpoint is open and there is one.
    pub(crate) fn take_incoming(&mut self) -> (r: Option<IncomingData>)
        ensures
            final(self)@ == old(self)@.taken(),
            r == (if old(self)@.can_take() {
                Some(old(self)@.incoming[0])
            } else {
                None
            }),
    {
        if self.endpoint_closed {
            return None;
        }
        let r = self.incoming.pop_front();
        assert(r is Some ==> self@.incoming =~= old(self)@.incoming.drop_first());
        r
    }

    /// Adds a stream that the peer has opened to those of its direction that are to be accepted.
    fn offer_stream(&mut self, slot: usize, dir: Dir, stream_id: u64)
        requires
            old(self)@.wf(),
            slot < old(self)@.conns.len(),
            types::peer_initiated(stream_id, old(self)@.conns[slot as int].side()),
            types::stream_dir(stream_id) == dir,
        ensures
            final(self)@ == old(self)@.with_slot(
                slot,
                old(self)@.conns[slot as int].with_queue(
                    dir,
                    old(self)@.conns[slot as int].queue(dir).push(stream_id),
                ),
            ),
            final(self)@.wf(),
    {
        match dir {
            Dir::Bi => self.conns[slot].accept_bi.push_back(stream_id),
            Dir::Uni => self.conns[slot].accept_uni.push_back(stream_id),
        }
        proof {
            let before = old(self)@.conns[slot as int];
            let now = self@.conns[slot as int];
            assert(before.wf());
            assert(now =~= before.with_queue(dir, before.queue(dir).push(stream_id)));
            assert(now.queued_right(Dir::Bi));
            assert(now.queued_right(Dir::Uni));
            assert(self@.conns =~= old(self)@.conns.update(slot as int, now));
        }
    }

    /// Takes the oldest stream of the direction in the slot, if its connection is open and there
    /// is one.
    pub(crate) fn take_stream(&mut self, slot: usize, dir: Dir) -> (r: Option<u64>)
        requires
            old(self)@.wf(),
            slot < old(self)@.conns.len(),
        ensures
            final(self)@ == old(self)@.accepted(slot, dir),
            final(self)@.wf(),
            r == (if old(self)@.conns[slot as int].can_accept(dir) {
                Some(old(self)@.conns[slot as int].queue(dir)[0])
            } else {
                None
            }),
    {
        let open = self.conns[slot].closed.is_none();
        let mut r: Option<u64> = None;
        if open {
            r = match dir {
                Dir::Bi => self.conns[slot].accept_bi.pop_front(),
                Dir::Uni => self.conns[slot].accept_uni.pop_front(),
            };
        }
        proof {
            let before = old(self)@.conns[slot as int];
            let now = self@.conns[slot as int];
            assert(now.accept_bi =~= before.accepted(dir).accept_bi);
            assert(now.accept_uni =~= before.accepted(dir).accept_uni);
            assert(now =~= before.accepted(dir));
            assert(self@.conns =~= old(self)@.conns.update(slot as int, before.accepted(dir)));
        }
        r
    }

    /// Notes that the endpoint has been closed.
    pub(crate) fn close_endpoint(&mut self)
        ensures
            final(self)@ == (BridgeView { endpoint_closed: true, ..old(self)@ }),
    {
        self.endpoint_closed = true;
    }

    /// Notes that a waker waits for the handshake of the connection in the slot.
    pub(crate) fn register_establish_waker(&mut self, slot: usize)
        requires
            old(self)@.wf(),
            slot < old(self)@.conns.len(),
        ensures
            final(self)@ == old(self)@.with_slot(
                slot,
                (ConnView { establish_waker: true, ..old(self)@.conns[slot as int] }),
            ),
            final(self)@.wf(),
    {
        self.conns[slot].establish_waker = true;
        assert(self@.conns =~= old(self)@.conns.update(
            slot as int,
            ConnView { establish_waker: true, ..old(self)@.conns[slot as int] },
        ));
    }

    /// The readability signal of a stream of the connection in the slot, created if need be.
    pub(crate) fn get_or_create_readable(&mut self, slot: usize, stream_id: u64) -> (r: SignalRef)
        requires
            old(self)@.wf(),
            slot < old(self)@.conns.len(),
        ensures
            final(self)@ == old(self)@.with_slot(
                slot,
                old(self)@.conns[slot as int].with_readable(stream_id),
            ),
            final(self)@.wf(),
            final(self)@.conns[slot as int].readable.contains_key(stream_id),
            r == (SignalRef { slot, signal: final(self)@.conns[slot as int].readable[stream_id] }),
    {
        let signal = self.conns[slot].get_or_create_readable(stream_id);
        assert(self@.conns =~= old(self)@.conns.update(
            slot as int,
            old(self)@.conns[slot as int].with_readable(stream_id),
        ));
        SignalRef { slot, signal }
    }

    /// The writability signal of a stream of the connection in the slot, created if need be.
    pub(crate) fn get_or_create_writable(&mut self, slot: usize, stream_id: u64) -> (r: SignalRef)
        requires
            old(self)@.wf(),
            slot < old(self)@.conns.len(),
        ensures
            final(self)@ == old(self)@.with_slot(
                slot,
                old(self)@.conns[slot as int].with_writable(stream_id),
            ),
            final(self)@.wf(),
            final(self)@.conns[slot as int].writable.contains_key(stream_id),
            r == (SignalRef { slot, signal: final(self)@.conns[slot as int].writable[stream_id] }),
    {
        let signal = self.conns[slot].get_or_create_writable(stream_id);
        assert(self@.conns =~= old(self)@.conns.update(
            slot as int,
            old(self)@.conns[slot as int].with_writable(stream_id),
        ));
        SignalRef { slot, signal }
    }
}

// ---------------------------------------------------------------------------
// BridgeTransportHandler: the events of the engine
// ---------------------------------------------------------------------------

/// Data for a new incoming connection delivered to the async side.
#[derive(Debug, Clone, Copy)]
pub struct IncomingData {
    /// The connection's ID.
    pub conn_id: u64,
    /// The peer's address.
    pub remote_addr: SocketAddr,
    /// Whether the peer's address was validated before the connection was created.
    pub validated: bool,
}

/// What can be decided on an incoming connection.
#[derive(Debug, Clone, Copy, PartialEq, Eq, Structural)]
pub enum Decision {
    /// To accept it.
    Accepted,
    /// To refuse it.
    Refused,
    /// To ignore it.
    Ignored,
}

/// What the engine knows of a connection that it has created.
pub struct CreatedConn {
    /// The engine's index of the connection.
    pub index: Option<u64>,
    /// The remote address of its active path, if there is one.
    pub remote: Option<SocketAddr>,
    /// Whether the local side is the server.
    pub is_server: bool,
}

/// What the engine knows of a connection that it has closed.
pub struct ClosedConn {
    /// The engine's index of the connection.
    pub index: Option<u64>,
    /// The error that the peer closed it with.
    pub peer_error: Option<EngineClose>,
    /// The error that it was closed with locally.
    pub local_error: Option<EngineClose>,
    /// It timed out while idle.
    pub is_idle_timeout: bool,
    /// It timed out in the handshake.
    pub is_handshake_timeout: bool,
    /// The peer reset it.
    pub is_reset: bool,
}

/// What is to be done once a connection is closed.
#[derive(Debug, Clone, Copy, PartialEq, Eq, Structural)]
pub struct ClosedActions {
    /// The slot whose watchers are to learn of the close.
    pub notify_closed: Option<usize>,
    /// The slot whose handshake waker is to be woken.
    pub wake_establish: Option<usize>,
    /// Whether those who wait for the endpoint to be idle are to be woken.
    pub notify_idle: bool,
}

/// A stream that the peer has opened, and where it waits to be accepted.
#[derive(Debug, Clone, Copy, PartialEq, Eq, Structural)]
pub struct AcceptedStream {
    /// The slot of the connection.
    pub slot: usize,
    /// Whether bidirectional or unidirectional streams are accepted there.
    pub dir: Dir,
    /// The stream.
    pub stream_id: u64,
}

/// The connection ID that an engine index stands for.
pub open spec fn conn_id_of(index: Option<u64>) -> u64 {
    match index {
        Some(id) => id,
        None => 0,
    }
}

/// The address that an engine's remote address stands for.
pub open spec fn remote_of(remote: Option<SocketAddr>) -> SocketAddr {
    match remote {
        Some(a) => a,
        None => addr::unspecified_addr(),
    }
}

/// The error that a connection was closed with: the peer's, or else this side's, or else a timeout,
/// or else a reset, or else that it was closed locally without an error.
pub open spec fn closed_with(conn: ClosedConn) -> ConnectionErrorView {
    match (conn.peer_error, conn.local_error) {
        (Some(err), _) => error::close_error(err),
        (None, Some(err)) => error::local_close_error(err),
        (None, None) => if conn.is_idle_timeout || conn.is_handshake_timeout {
            ConnectionErrorView::TimedOut
        } else if conn.is_reset {
            ConnectionErrorView::Reset
        } else {
            ConnectionErrorView::LocallyClosed
        },
    }
}

fn index_or_zero(index: Option<u64>) -> (r: u64)
    ensures
        r == conn_id_of(index),
{
    match index {
        Some(id) => id,
        None => 0,
    }
}

/// Turns the events of the engine into changes of the shared state and wake-ups.
#[derive(Debug, Clone, Copy, PartialEq, Eq, Structural)]
pub struct BridgeTransportHandler {
    /// Whether this endpoint is a server.
    pub is_server: bool,
    /// Whether the engine validates every peer's address before it creates a connection.
    pub retry: bool,
}

impl BridgeTransportHandler {
    /// What those who accept connections are offered of a connection: on a server, the connection.
    pub open spec fn offer(self, conn: CreatedConn) -> Option<IncomingData> {
        if self.is_server {
            Some(
                IncomingData {
                    conn_id: conn_id_of(conn.index),
                    remote_addr: remote_of(conn.remote),
                    validated: self.retry,
                },
            )
        } else {
            None
        }
    }

    /// A connection was created. On a server it goes to those who accept connections. Yields
    /// whether one of them is to be woken.
    pub fn on_conn_created(&self, handle: &mut BridgeHandle, conn: CreatedConn) -> (r: bool)
        requires
            old(handle)@.wf(),
        ensures
            final(handle)@ == old(handle)@.created(
                conn_id_of(conn.index),
                remote_of(conn.remote),
                conn.is_server,
            ).offered(self.offer(conn)),
            final(handle)@.wf(),
            r == self.is_server,
    {
        let conn_id = index_or_zero(conn.index);
        let remote = match conn.remote {
            Some(a) => a,
            None => SocketAddr::unspecified(),
        };
        let slot: u64 = handle.conns.len() as u64;
        map_insert(&mut handle.conn_states, conn_id, slot);
        handle.conns.push(ConnNotify::new(remote, conn.is_server));
        handle.open_connections = handle.open_connections.wrapping_add(1);
        if !conn.is_server {
            let count: u64 = handle.stats.outgoing_handshakes;
            handle.stats.outgoing_handshakes = count.wrapping_add(1);
        }
        if self.is_server {
            handle.incoming.push_back(
                IncomingData { conn_id, remote_addr: remote, validated: self.retry },
            );
        }
        proof {
            assert(handle.conns.len() == handle.conns@.len());
            assert(handle@.conns =~= old(handle)@.conns.push(
                ConnView::fresh(remote, conn.is_server),
            ));
        }
        self.is_server
    }

    /// The handshake of a connection is complete. Yields the slot whose waker is to be woken.
    pub fn on_conn_established(&self, handle: &mut BridgeHandle, index: Option<u64>) -> (r: Option<
        usize,
    >)
        requires
            old(handle)@.wf(),
        ensures
            final(handle)@ == old(handle)@.established(conn_id_of(index)),
            final(handle)@.wf(),
            r == waker_of(old(handle)@, conn_id_of(index)),
    {
        let conn_id = index_or_zero(index);
        match handle.get_conn_notify(conn_id) {
            Some(slot) => {
                let wake = handle.conns[slot].establish_waker;
                handle.conns[slot].is_established = true;
                handle.conns[slot].establish_waker = false;
                assert(handle@.conns =~= old(handle)@.conns.update(
                    slot as int,
                    old(handle)@.conns[slot as int].established(),
                ));
                if wake {
                    Some(slot)
                } else {
                    None
                }
            },
            None => None,
        }
    }

    /// A connection was closed.
    pub fn on_conn_closed(&self, handle: &mut BridgeHandle, conn: ClosedConn) -> (r: ClosedActions)
        requires
            old(handle)@.wf(),
        ensures
            final(handle)@ == old(handle)@.closed(conn_id_of(conn.index), closed_with(conn)),
            final(handle)@.wf(),
            r == (ClosedActions {
                notify_closed: old(handle)@.slot_of(conn_id_of(conn.index)),
                wake_establish: waker_of(old(handle)@, conn_id_of(conn.index)),
                notify_idle: final(handle)@.open_connections == 0,
            }),
    {
        let conn_id = index_or_zero(conn.index);
        let error = match (&conn.peer_error, &conn.local_error) {
            (Some(err), _) => ConnectionError::from_tquic_conn_error(err),
            (None, Some(err)) => ConnectionError::from_local_close(err),
            (None, None) => if conn.is_idle_timeout || conn.is_handshake_timeout {
                ConnectionError::TimedOut
            } else if conn.is_reset {
                ConnectionError::Reset
            } else {
                ConnectionError::LocallyClosed
            },
        };
        let slot = handle.get_conn_notify(conn_id);
        let mut wake: Option<usize> = None;
        if let Some(slot) = slot {
            if handle.conns[slot].establish_waker {
                wake = Some(slot);
            }
            handle.conns[slot].closed = Some(error);
            handle.conns[slot].establish_waker = false;
            assert(handle@.conns =~= old(handle)@.conns.update(
                slot as int,
                old(handle)@.conns[slot as int].closed(error@),
            ));
        }
        handle.open_connections = handle.open_connections.wrapping_sub(1);
        ClosedActions {
            notify_closed: slot,
            wake_establish: wake,
            notify_idle: handle.open_connections == 0,
        }
    }

    /// A stream was created. One that the peer has opened goes to those who accept streams, of whom
    /// one is to be woken.
    pub fn on_stream_created(
        &self,
        handle: &mut BridgeHandle,
        index: Option<u64>,
        stream_id: u64,
    ) -> (r: Option<AcceptedStream>)
        requires
            old(handle)@.wf(),
        ensures
            final(handle)@ == old(handle)@.stream_created(conn_id_of(index), stream_id),
            final(handle)@.wf(),
            r == arrival(old(handle)@, conn_id_of(index), stream_id),
            r matches Some(a) ==> a.stream_id == stream_id && (a.dir is Bi <==> stream_id % 4 < 2),
    {
        let conn_id = index_or_zero(index);
        match handle.get_conn_notify(conn_id) {
            Some(slot) => {
                // Pre-create notification entries.
                handle.get_or_create_readable(slot, stream_id);
                handle.get_or_create_writable(slot, stream_id);
                let peer_initiated = if handle.is_server(slot) {
                    // Server: peer (client) initiates streams with even IDs (bit 0 = 0)
                    stream_id & 0x1 == 0
                } else {
                    // Client: peer (server) initiates streams with odd IDs (bit 0 = 1)
                    stream_id & 0x1 == 1
                };
                let is_bidi = stream_id & 0x2 == 0;
                assert(stream_id & 0x1 == stream_id % 2) by (bit_vector);
                assert((stream_id & 0x2 == 0) == ((stream_id / 2) % 2 == 0)) by (bit_vector);
                if peer_initiated {
                    let dir = if is_bidi {
                        Dir::Bi
                    } else {
                        Dir::Uni
                    };
                    handle.offer_stream(slot, dir, stream_id);
                    assert(handle@ =~= old(handle)@.stream_created(conn_id, stream_id));
                    Some(AcceptedStream { slot, dir, stream_id })
                } else {
                    assert(handle@ =~= old(handle)@.stream_created(conn_id, stream_id));
                    None
                }
            },
            None => None,
        }
    }

    /// A stream is readable. Yields the signal to be given.
    pub fn on_stream_readable(
        &self,
        handle: &mut BridgeHandle,
        index: Option<u64>,
        stream_id: u64,
    ) -> (r: Option<SignalRef>)
        requires
            old(handle)@.wf(),
        ensures
            final(handle)@ == old(handle)@.readable(conn_id_of(index), stream_id),
            final(handle)@.wf(),
            old(handle)@.slot_of(conn_id_of(index)) is Some <==> r is Some,
            r == readable_signal(final(handle)@, conn_id_of(index), stream_id),
    {
        let conn_id = index_or_zero(index);
        match handle.get_conn_notify(conn_id) {
            Some(slot) => Some(handle.get_or_create_readable(slot, stream_id)),
            None => None,
        }
    }

    /// A stream is writable. Yields the signal to be given.
    pub fn on_stream_writable(
        &self,
        handle: &mut BridgeHandle,
        index: Option<u64>,
        stream_id: u64,
    ) -> (r: Option<SignalRef>)
        requires
            old(handle)@.wf(),
        ensures
            final(handle)@ == old(handle)@.writable(conn_id_of(index), stream_id),
            final(handle)@.wf(),
            old(handle)@.slot_of(conn_id_of(index)) is Some <==> r is Some,
            r == writable_signal(final(handle)@, conn_id_of(index), stream_id),
    {
        let conn_id = index_or_zero(index);
        match handle.get_conn_notify(conn_id) {
            Some(slot) => Some(handle.get_or_create_writable(slot, stream_id)),
            None => None,
        }
    }

    /// A stream was closed. Yields the stream's readability and writability signals, so that any
    /// waiters see that the stream is done.
    pub fn on_stream_closed(&self, handle: &BridgeHandle, index: Option<u64>, stream_id: u64) -> (r:
        (Option<SignalRef>, Option<SignalRef>))
        requires
            handle@.wf(),
        ensures
            r.0 == readable_signal(handle@, conn_id_of(index), stream_id),
            r.1 == writable_signal(handle@, conn_id_of(index), stream_id),
    {
        let conn_id = index_or_zero(index);
        match handle.get_conn_notify(conn_id) {
            Some(slot) => {
                let readable = match map_get(&handle.conns[slot].stream_readable, stream_id) {
                    Some(signal) => Some(SignalRef { slot, signal }),
                    None => None,
                };
                let writable = match map_get(&handle.conns[slot].stream_writable, stream_id) {
                    Some(signal) => Some(SignalRef { slot, signal }),
                    None => None,
                };
                (readable, writable)
            },
            None => (None, None),
        }
    }
}

/// The slot of the connection, if a waker waits there for the handshake.
pub open spec fn waker_of(state: BridgeView, conn_id: u64) -> Option<usize> {
    match state.slot_of(conn_id) {
        Some(slot) => if state.conns[slot as int].establish_waker {
            Some(slot)
        } else {
            None
        },
        None => None,
    }
}

/// Where a stream that was created goes: to those who accept streams of its direction, if the
/// connection is known and the peer opened the stream.
pub open spec fn arrival(state: BridgeView, conn_id: u64, stream_id: u64) -> Option<
    AcceptedStream,
> {
    match state.slot_of(conn_id) {
        Some(slot) => if types::peer_initiated(stream_id, state.conns[slot as int].side()) {
            Some(AcceptedStream { slot, dir: types::stream_dir(stream_id), stream_id })
        } else {
            None
        },
        None => None,
    }
}

/// The readability signal that a stream of a connection has.
pub open spec fn readable_signal(state: BridgeView, conn_id: u64, stream_id: u64) -> Option<
    SignalRef,
> {
    match state.slot_of(conn_id) {
        Some(slot) => match state.conns[slot as int].readable.get(stream_id) {
            Some(signal) => Some(SignalRef { slot, signal }),
            None => None,
        },
        None => None,
    }
}

/// The writability signal that a stream of a connection has.
pub open spec fn writable_signal(state: BridgeView, conn_id: u64, stream_id: u64) -> Option<
    SignalRef,
> {
    match state.slot_of(conn_id) {
        Some(slot) => match state.conns[slot as int].writable.get(stream_id) {
            Some(signal) => Some(SignalRef { slot, signal }),
            None => None,
        },
        None => None,
    }
}

} // verus!
