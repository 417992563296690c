//! What the QUIC engine is told, and what it answers, as plain values.
use vstd::prelude::*;



verus! {

/// The kinds of engine error that the bridge tells apart.
#[derive(Debug, PartialEq, Eq)]
pub enum EngineErrorKind {
    /// There is no more work to do.
    Done,
    /// The peer asked to stop sending on the stream, with this error code.
    StreamStopped(u64),
    /// The peer reset the stream, with this error code.
    StreamReset(u64),
    /// The configuration is invalid.
    InvalidConfig(String),
    /// The server refused to accept a new connection.
    ConnectionRefused,
    /// The network path cannot carry QUIC.
    NoViablePath,
    /// The peer provided more connection IDs than it may.
    ConnectionIdLimitError,
    /// The version of a packet is unknown.
    UnknownVersion,
    /// Any other error.
    Other,
}

/// An error of the engine: its kind, and the engine's own text for it.
#[derive(Debug, PartialEq, Eq)]
pub struct EngineError {
    /// The kind of error.
    pub kind: EngineErrorKind,
    /// The engine's description of the error.
    pub text: String,
}

/// The contents of a CONNECTION_CLOSE frame, sent or received.
#[derive(Debug, PartialEq, Eq)]
pub struct EngineClose {
    /// Whether the error came from the application or the QUIC layer.
    pub is_app: bool,
    /// The error code.
    pub error_code: u64,
    /// The reason phrase.
    pub reason: Vec<u8>,
}

/// The congestion control algorithms of the engine.
#[derive(Debug, Clone, Copy, PartialEq, Eq, Structural)]
pub enum CongestionControlAlgorithm {
    /// CUBIC.
    Cubic,
    /// BBR.
    Bbr,
    /// BBRv3.
    Bbr3,
    /// COPA.
    Copa,
    /// A static congestion window.
    Dummy,
}

/// The multipath scheduling algorithms of the engine.
#[derive(Debug, Clone, Copy, PartialEq, Eq, Structural)]
pub enum MultipathAlgorithm {
    /// The path with the lowest smoothed round-trip time.
    MinRtt,
    /// Every packet on every path.
    Redundant,
    /// The paths in turn.
    RoundRobin,
}

/// A floating-point parameter, held as the 64 bits of its IEEE 754 encoding.
#[derive(Debug, Clone, Copy, PartialEq, Eq, Structural)]
pub struct FloatBits {
    /// The encoding.
    pub bits: u64,
}

/// Statistics of one network path.
#[derive(Debug, Clone, Copy, PartialEq, Eq, Structural)]
pub struct PathStats {
    /// Packets received.
    pub recv_count: u64,
    /// Bytes received.
    pub recv_bytes: u64,
    /// Packets sent.
    pub sent_count: u64,
    /// Bytes sent.
    pub sent_bytes: u64,
    /// Packets lost.
    pub lost_count: u64,
    /// Bytes lost.
    pub lost_bytes: u64,
    /// Packets acknowledged.
    pub acked_count: u64,
    /// Bytes acknowledged.
    pub acked_bytes: u64,
    /// Initial congestion window in bytes.
    pub init_cwnd: u64,
    /// Final congestion window in bytes.
    pub final_cwnd: u64,
    /// Largest congestion window in bytes.
    pub max_cwnd: u64,
    /// Smallest congestion window in bytes.
    pub min_cwnd: u64,
    /// Most bytes in flight.
    pub max_inflight: u64,
    /// Loss events.
    pub loss_event_count: u64,
    /// Times the congestion window was the limit.
    pub cwnd_limited_count: u64,
    /// Microseconds for which the congestion window was the limit.
    pub cwnd_limited_duration: u64,
    /// Smallest round-trip time in microseconds.
    pub min_rtt: u64,
    /// Largest round-trip time in microseconds.
    pub max_rtt: u64,
    /// Smoothed round-trip time in microseconds.
    pub srtt: u64,
    /// Round-trip time variation in microseconds.
    pub rttvar: u64,
    /// Whether the congestion controller is in slow start.
    pub in_slow_start: bool,
    /// Pacing rate.
    pub pacing_rate: u64,
    /// Smallest pacing rate.
    pub min_pacing_rate: u64,
    /// Probe timeouts.
    pub pto_count: u64,
}

} // verus!
