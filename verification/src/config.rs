//! Configuration of endpoints, transports, servers and clients.
use std::sync::Arc;

use vstd::prelude::*;
use vstd::string::*;

use crate::buffer::copy_byte_strings;
use crate::engine::{CongestionControlAlgorithm, FloatBits, MultipathAlgorithm};
use crate::error::ConnectError;
use crate::text;
use crate::text::{byte_lists_text, join, truth_text};
use crate::time;
use crate::time::Duration;

verus! {

/// Configuration for a QUIC endpoint.
#[derive(Debug, Clone, Copy)]
pub struct EndpointConfig {
    /// Connection ID length (0-20 bytes).
    pub cid_len: usize,
    /// Enable stateless reset.
    pub stateless_reset: bool,
    /// Stateless reset token key (64 bytes). `None` uses the engine's random default.
    pub reset_token_key: Option<[u8; 64]>,
    /// Address token lifetime in seconds.
    pub address_token_lifetime: u64,
    /// Maximum number of packets sent per batch.
    pub send_batch_size: usize,
}

/// The endpoint configuration that nothing was set in.
pub open spec fn default_endpoint_config() -> EndpointConfig {
    EndpointConfig {
        cid_len: 8,
        stateless_reset: true,
        reset_token_key: None,
        address_token_lifetime: 86400,
        send_batch_size: 64,
    }
}

impl Default for EndpointConfig {
    fn default() -> (r: Self)
        ensures
            r == default_endpoint_config(),
            r.cid_len == 8,
            r.stateless_reset,
            r.reset_token_key is None,
            r.address_token_lifetime == 24 * 60 * 60,
            r.send_batch_size == 64,
    {
        EndpointConfig {
            cid_len: 8,
            stateless_reset: true,
            reset_token_key: None,
            address_token_lifetime: 86400,
            send_batch_size: 64,
        }
    }
}

impl EndpointConfig {
    /// Create a new endpoint configuration with defaults.
    pub fn new() -> (r: Self)
        ensures
            r == default_endpoint_config(),
            r.cid_len == 8,
            r.stateless_reset,
            r.reset_token_key is None,
            r.address_token_lifetime == 24 * 60 * 60,
            r.send_batch_size == 64,
    {
        EndpointConfig::default()
    }

    /// Set the connection ID length (0-20 bytes).
    pub fn cid_len(&mut self, len: usize) -> (r: &mut Self)
        ensures
            *r == (EndpointConfig { cid_len: len, ..*old(self) }),
            *final(self) == *final(r),
    {
        self.cid_len = len;
        self
    }

    /// Enable or disable stateless reset.
    pub fn stateless_reset(&mut self, enabled: bool) -> (r: &mut Self)
        ensures
            *r == (EndpointConfig { stateless_reset: enabled, ..*old(self) }),
            *final(self) == *final(r),
    {
        self.stateless_reset = enabled;
        self
    }

    /// Set the stateless reset token key (64 bytes).
    pub fn reset_token_key(&mut self, key: [u8; 64]) -> (r: &mut Self)
        ensures
            *r == (EndpointConfig { reset_token_key: Some(key), ..*old(self) }),
            *final(self) == *final(r),
    {
        self.reset_token_key = Some(key);
        self
    }

    /// Set the address token lifetime in seconds.
    pub fn address_token_lifetime(&mut self, seconds: u64) -> (r: &mut Self)
        ensures
            *r == (EndpointConfig { address_token_lifetime: seconds, ..*old(self) }),
            *final(self) == *final(r),
    {
        self.address_token_lifetime = seconds;
        self
    }

    /// Set the maximum number of packets sent per batch.
    pub fn send_batch_size(&mut self, size: usize) -> (r: &mut Self)
        ensures
            *r == (EndpointConfig { send_batch_size: size, ..*old(self) }),
            *final(self) == *final(r),
    {
        self.send_batch_size = size;
        self
    }
}

/// Transport-level configuration shared by client and server: timeouts, flow control windows,
/// stream limits, MTU discovery, recovery, congestion control and multipath.
#[derive(Debug, Clone, Copy)]
pub struct TransportConfig {
    /// Longest inactivity before the connection is closed; `None` for no limit.
    pub max_idle_timeout: Option<Duration>,
    /// Longest time for the handshake; `None` for the engine's default.
    pub max_handshake_timeout: Option<Duration>,
    /// Bytes that the peer may send on all streams before an update.
    pub initial_max_data: u64,
    /// Bytes that the peer may send on each bidirectional stream opened here.
    pub initial_max_stream_data_bidi_local: u64,
    /// Bytes that the peer may send on each bidirectional stream it opens.
    pub initial_max_stream_data_bidi_remote: u64,
    /// Bytes that the peer may send on each unidirectional stream.
    pub initial_max_stream_data_uni: u64,
    /// Largest receive window over all streams.
    pub max_connection_window: u64,
    /// Largest receive window of a single stream.
    pub max_stream_window: u64,
    /// Bidirectional streams that the peer may have open.
    pub initial_max_streams_bidi: u64,
    /// Unidirectional streams that the peer may have open.
    pub initial_max_streams_uni: u64,
    /// Whether the path MTU is discovered.
    pub enable_dplpmtud: bool,
    /// Largest UDP payload to send; `None` for the engine's default.
    pub send_udp_payload_size: Option<usize>,
    /// Exponent of the ACK delay; `None` for the engine's default.
    pub ack_delay_exponent: Option<u64>,
    /// Longest ACK delay; `None` for the engine's default.
    pub max_ack_delay: Option<u64>,
    /// Packets that bring on an ACK; `None` for the engine's default.
    pub ack_eliciting_threshold: Option<u64>,
    /// Connections that the endpoint accepts at a time.
    pub max_concurrent_conns: u32,
    /// First estimate of the round-trip time; `None` for the engine's default.
    pub initial_rtt: Option<Duration>,
    /// Congestion control algorithm.
    pub congestion_control_algorithm: Option<CongestionControlAlgorithm>,
    /// First congestion window in packets.
    pub initial_congestion_window: Option<u64>,
    /// Smallest congestion window in packets.
    pub min_congestion_window: Option<u64>,
    /// Whether packets are paced.
    pub enable_pacing: Option<bool>,
    /// Whether several paths are used.
    pub enable_multipath: Option<bool>,
    /// How packets are spread over paths.
    pub multipath_algorithm: Option<MultipathAlgorithm>,
    /// Length of BBR's ProbeRTT state in milliseconds.
    pub bbr_probe_rtt_duration: Option<u64>,
    /// Whether BBR's ProbeRTT goes by the bandwidth-delay product.
    pub bbr_probe_rtt_based_on_bdp: Option<bool>,
    /// Congestion window gain in BBR's ProbeRTT state.
    pub bbr_probe_rtt_cwnd_gain: Option<FloatBits>,
    /// Length of BBR's RTprop filter in milliseconds.
    pub bbr_rtprop_filter_len: Option<u64>,
    /// Congestion window gain in BBR's ProbeBW state.
    pub bbr_probe_bw_cwnd_gain: Option<FloatBits>,
    /// COPA's delta in slow start.
    pub copa_slow_start_delta: Option<FloatBits>,
    /// COPA's delta in the steady state.
    pub copa_steady_delta: Option<FloatBits>,
    /// Whether COPA uses the standing round-trip time.
    pub copa_use_standing_rtt: Option<bool>,
}

/// The transport configuration is the one that nothing was set in.
pub open spec fn is_default_transport(config: TransportConfig) -> bool {
    &&& config.max_idle_timeout matches Some(d)
    &&& d@ == 30_000_000_000
    &&& config.max_handshake_timeout is None
    &&& config.initial_max_data == 10_485_760
    &&& config.initial_max_stream_data_bidi_local == 5_242_880
    &&& config.initial_max_stream_data_bidi_remote == 2_097_152
    &&& config.initial_max_stream_data_uni == 1_048_576
    &&& config.max_connection_window == 15_728_640
    &&& config.max_stream_window == 6_291_456
    &&& config.initial_max_streams_bidi == 200
    &&& config.initial_max_streams_uni == 100
    &&& config.enable_dplpmtud
    &&& config.send_udp_payload_size is None
    &&& config.ack_delay_exponent is None
    &&& config.max_ack_delay is None
    &&& config.ack_eliciting_threshold is None
    &&& config.max_concurrent_conns == 1_000_000
    &&& config.initial_rtt is None
    &&& config.congestion_control_algorithm is None
    &&& config.initial_congestion_window is None
    &&& config.min_congestion_window is None
    &&& config.enable_pacing is None
    &&& config.enable_multipath is None
    &&& config.multipath_algorithm is None
    &&& config.bbr_probe_rtt_duration is None
    &&& config.bbr_probe_rtt_based_on_bdp is None
    &&& config.bbr_probe_rtt_cwnd_gain is None
    &&& config.bbr_rtprop_filter_len is None
    &&& config.bbr_probe_bw_cwnd_gain is None
    &&& config.copa_slow_start_delta is None
    &&& config.copa_steady_delta is None
    &&& config.copa_use_standing_rtt is None
}

impl Default for TransportConfig {
    fn default() -> (r: Self)
        ensures
            is_default_transport(r),
            r.max_idle_timeout matches Some(d) && d@ == 30 * 1_000_000_000,
            r.max_handshake_timeout is None,
            r.initial_max_data == 10 * 1024 * 1024,
            r.initial_max_stream_data_bidi_local == 5 * 1024 * 1024,
            r.initial_max_stream_data_bidi_remote == 2 * 1024 * 1024,
            r.initial_max_stream_data_uni == 1024 * 1024,
            r.max_connection_window == 15 * 1024 * 1024,
            r.max_stream_window == 6 * 1024 * 1024,
            r.initial_max_streams_bidi == 200,
            r.initial_max_streams_uni == 100,
            r.enable_dplpmtud,
            r.send_udp_payload_size is None,
            r.ack_delay_exponent is None,
            r.max_ack_delay is None,
            r.ack_eliciting_threshold is None,
            r.max_concurrent_conns == 1_000_000,
            r.initial_rtt is None,
            r.congestion_control_algorithm is None,
            r.initial_congestion_window is None,
            r.min_congestion_window is None,
            r.enable_pacing is None,
            r.enable_multipath is None,
            r.multipath_algorithm is None,
            r.bbr_probe_rtt_duration is None,
            r.bbr_probe_rtt_based_on_bdp is None,
            r.bbr_probe_rtt_cwnd_gain is None,
            r.bbr_rtprop_filter_len is None,
            r.bbr_probe_bw_cwnd_gain is None,
            r.copa_slow_start_delta is None,
            r.copa_steady_delta is None,
            r.copa_use_standing_rtt is None,
    {
        TransportConfig {
            max_idle_timeout: Some(Duration::from_secs(30)),
            max_handshake_timeout: None,
            initial_max_data: 10_485_760,
            initial_max_stream_data_bidi_local: 5_242_880,
            initial_max_stream_data_bidi_remote: 2_097_152,
            initial_max_stream_data_uni: 1_048_576,
            max_connection_window: 15_728_640,
            max_stream_window: 6_291_456,
            initial_max_streams_bidi: 200,
            initial_max_streams_uni: 100,
            enable_dplpmtud: true,
            send_udp_payload_size: None,
            ack_delay_exponent: None,
            max_ack_delay: None,
            ack_eliciting_threshold: None,
            max_concurrent_conns: 1_000_000,
            initial_rtt: None,
            congestion_control_algorithm: None,
            initial_congestion_window: None,
            min_congestion_window: None,
            enable_pacing: None,
            enable_multipath: None,
            multipath_algorithm: None,
            bbr_probe_rtt_duration: None,
            bbr_probe_rtt_based_on_bdp: None,
            bbr_probe_rtt_cwnd_gain: None,
            bbr_rtprop_filter_len: None,
            bbr_probe_bw_cwnd_gain: None,
            copa_slow_start_delta: None,
            copa_steady_delta: None,
            copa_use_standing_rtt: None,
        }
    }
}

impl TransportConfig {
    /// Create a new transport configuration with default values.
    pub fn new() -> (r: Self)
        ensures
            is_default_transport(r),
            r.max_idle_timeout matches Some(d) && d@ == 30 * 1_000_000_000,
            r.max_handshake_timeout is None,
            r.initial_max_data == 10 * 1024 * 1024,
            r.initial_max_stream_data_bidi_local == 5 * 1024 * 1024,
            r.initial_max_stream_data_bidi_remote == 2 * 1024 * 1024,
            r.initial_max_stream_data_uni == 1024 * 1024,
            r.max_connection_window == 15 * 1024 * 1024,
            r.max_stream_window == 6 * 1024 * 1024,
            r.initial_max_streams_bidi == 200,
            r.initial_max_streams_uni == 100,
            r.enable_dplpmtud,
            r.send_udp_payload_size is None,
            r.ack_delay_exponent is None,
            r.max_ack_delay is None,
            r.ack_eliciting_threshold is None,
            r.max_concurrent_conns == 1_000_000,
            r.initial_rtt is None,
            r.congestion_control_algorithm is None,
            r.initial_congestion_window is None,
            r.min_congestion_window is None,
            r.enable_pacing is None,
            r.enable_multipath is None,
            r.multipath_algorithm is None,
            r.bbr_probe_rtt_duration is None,
            r.bbr_probe_rtt_based_on_bdp is None,
            r.bbr_probe_rtt_cwnd_gain is None,
            r.bbr_rtprop_filter_len is None,
            r.bbr_probe_bw_cwnd_gain is None,
            r.copa_slow_start_delta is None,
            r.copa_steady_delta is None,
            r.copa_use_standing_rtt is None,
    {
        TransportConfig::default()
    }

    /// Maximum duration of inactivity before the connection is closed.
    ///
    /// `None` disables the idle timeout.
    pub fn max_idle_timeout(&mut self, timeout: Option<Duration>) -> (r: &mut Self)
        ensures
            *r == (TransportConfig { max_idle_timeout: timeout, ..*old(self) }),
            *final(self) == *final(r),
    {
        self.max_idle_timeout = timeout;
        self
    }

    /// Maximum duration for the handshake to complete.
    ///
    /// `None` uses the engine's default.
    pub fn max_handshake_timeout(&mut self, timeout: Option<Duration>) -> (r: &mut Self)
        ensures
            *r == (TransportConfig { max_handshake_timeout: timeout, ..*old(self) }),
            *final(self) == *final(r),
    {
        self.max_handshake_timeout = timeout;
        self
    }

    /// Maximum bytes the peer may transmit across all streams before receiving an update.
    pub fn receive_window(&mut self, bytes: u64) -> (r: &mut Self)
        ensures
            *r == (TransportConfig { initial_max_data: bytes, ..*old(self) }),
            *final(self) == *final(r),
    {
        self.initial_max_data = bytes;
        self
    }

    /// Maximum bytes the peer may transmit on each bidirectional stream we open.
    pub fn stream_receive_window_bidi_local(&mut self, bytes: u64) -> (r: &mut Self)
        ensures
            *r == (TransportConfig { initial_max_stream_data_bidi_local: bytes, ..*old(self) }),
            *final(self) == *final(r),
    {
        self.initial_max_stream_data_bidi_local = bytes;
        self
    }

    /// Maximum bytes the peer may transmit on each bidirectional stream they open.
    pub fn stream_receive_window_bidi_remote(&mut self, bytes: u64) -> (r: &mut Self)
        ensures
            *r == (TransportConfig { initial_max_stream_data_bidi_remote: bytes, ..*old(self) }),
            *final(self) == *final(r),
    {
        self.initial_max_stream_data_bidi_remote = bytes;
        self
    }

    /// Maximum bytes the peer may transmit on each unidirectional stream.
    pub fn stream_receive_window_uni(&mut self, bytes: u64) -> (r: &mut Self)
        ensures
            *r == (TransportConfig { initial_max_stream_data_uni: bytes, ..*old(self) }),
            *final(self) == *final(r),
    {
        self.initial_max_stream_data_uni = bytes;
        self
    }

    /// Maximum aggregate receive window across all streams.
    pub fn max_connection_window(&mut self, bytes: u64) -> (r: &mut Self)
        ensures
            *r == (TransportConfig { max_connection_window: bytes, ..*old(self) }),
            *final(self) == *final(r),
    {
        self.max_connection_window = bytes;
        self
    }

    /// Maximum receive window for a single stream.
    pub fn max_stream_window(&mut self, bytes: u64) -> (r: &mut Self)
        ensures
            *r == (TransportConfig { max_stream_window: bytes, ..*old(self) }),
            *final(self) == *final(r),
    {
        self.max_stream_window = bytes;
        self
    }

    /// Maximum number of bidirectional streams the peer may open concurrently.
    pub fn max_concurrent_bidi_streams(&mut self, count: u64) -> (r: &mut Self)
        ensures
            *r == (TransportConfig { initial_max_streams_bidi: count, ..*old(self) }),
            *final(self) == *final(r),
    {
        self.initial_max_streams_bidi = count;
        self
    }

    /// Maximum number of unidirectional streams the peer may open concurrently.
    pub fn max_concurrent_uni_streams(&mut self, count: u64) -> (r: &mut Self)
        ensures
            *r == (TransportConfig { initial_max_streams_uni: count, ..*old(self) }),
            *final(self) == *final(r),
    {
        self.initial_max_streams_uni = count;
        self
    }

    /// Whether to use DPLPMTUD for path MTU discovery.
    pub fn enable_mtu_discovery(&mut self, enabled: bool) -> (r: &mut Self)
        ensures
            *r == (TransportConfig { enable_dplpmtud: enabled, ..*old(self) }),
            *final(self) == *final(r),
    {
        self.enable_dplpmtud = enabled;
        self
    }

    /// Initial RTT estimate; without one the engine's default (333ms) is used.
    pub fn initial_rtt(&mut self, rtt: Duration) -> (r: &mut Self)
        ensures
            *r == (TransportConfig { initial_rtt: Some(rtt), ..*old(self) }),
            *final(self) == *final(r),
    {
        self.initial_rtt = Some(rtt);
        self
    }

    /// Maximum number of concurrent connections the endpoint will accept.
    pub fn max_concurrent_connections(&mut self, count: u32) -> (r: &mut Self)
        ensures
            *r == (TransportConfig { max_concurrent_conns: count, ..*old(self) }),
            *final(self) == *final(r),
    {
        self.max_concurrent_conns = count;
        self
    }
}

/// Server-specific configuration: certificate and key files, ALPN protocols, and options.
pub struct ServerConfig {
    /// The transport configuration.
    pub transport: Arc<TransportConfig>,
    /// Path to the PEM-encoded certificate chain file.
    pub cert_file: String,
    /// Path to the PEM-encoded private key file.
    pub key_file: String,
    /// Application-Layer Protocol Negotiation protocols.
    pub alpn_protocols: Vec<Vec<u8>>,
    /// Whether 0-RTT data is accepted.
    pub enable_early_data: bool,
    /// Whether addresses are validated with a stateless retry.
    pub enable_retry: bool,
}

impl Clone for ServerConfig {
    fn clone(&self) -> (r: Self)
        ensures
            *r.transport == *self.transport,
            r.cert_file == self.cert_file,
            r.key_file == self.key_file,
            r.alpn_protocols.deep_view() == self.alpn_protocols.deep_view(),
            r.enable_early_data == self.enable_early_data,
            r.enable_retry == self.enable_retry,
    {
        ServerConfig {
            transport: self.transport.clone(),
            cert_file: self.cert_file.clone(),
            key_file: self.key_file.clone(),
            alpn_protocols: copy_byte_strings(&self.alpn_protocols),
            enable_early_data: self.enable_early_data,
            enable_retry: self.enable_retry,
        }
    }
}

impl ServerConfig {
    /// Create a new server configuration.
    ///
    /// # Arguments
    /// * `cert_file` - Path to the PEM-encoded certificate chain file
    /// * `key_file` - Path to the PEM-encoded private key file
    /// * `alpn_protocols` - Application-Layer Protocol Negotiation protocols
    pub fn new(cert_file: String, key_file: String, alpn_protocols: Vec<Vec<u8>>) -> (r: Self)
        ensures
            is_default_transport(*r.transport),
            r.cert_file == cert_file,
            r.key_file == key_file,
            r.alpn_protocols == alpn_protocols,
            !r.enable_early_data,
            !r.enable_retry,
    {
        ServerConfig {
            transport: Arc::new(TransportConfig::default()),
            cert_file,
            key_file,
            alpn_protocols,
            enable_early_data: false,
            enable_retry: false,
        }
    }

    /// Set the transport configuration.
    pub fn transport_config(&mut self, config: Arc<TransportConfig>) -> (r: &mut Self)
        ensures
            *r == (ServerConfig { transport: config, ..*old(self) }),
            *final(self) == *final(r),
    {
        self.transport = config;
        self
    }

    /// Enable 0-RTT data acceptance.
    pub fn enable_early_data(&mut self, enabled: bool) -> (r: &mut Self)
        ensures
            *r == (ServerConfig { enable_early_data: enabled, ..*old(self) }),
            *final(self) == *final(r),
    {
        self.enable_early_data = enabled;
        self
    }

    /// A short description of the configuration, for logs. It leaves out the files.
    pub fn describe(&self) -> (r: String)
        ensures
            r@ == "ServerConfig { alpn_protocols: "@ + text::byte_lists(
                self.alpn_protocols.deep_view(),
            ) + ", enable_early_data: "@ + text::truth(self.enable_early_data)
                + ", enable_retry: "@ + text::truth(self.enable_retry) + ", .. }"@,
    {
        let mut r = join(
            "ServerConfig { alpn_protocols: ",
            byte_lists_text(&self.alpn_protocols).as_str(),
        );
        r.append(", enable_early_data: ");
        r.append(truth_text(self.enable_early_data));
        r.append(", enable_retry: ");
        r.append(truth_text(self.enable_retry));
        r.append(", .. }");
        r
    }

    /// Enable stateless retry for address validation, for every connection of the endpoint.
    pub fn enable_retry(&mut self, enabled: bool) -> (r: &mut Self)
        ensures
            *r == (ServerConfig { enable_retry: enabled, ..*old(self) }),
            *final(self) == *final(r),
    {
        self.enable_retry = enabled;
        self
    }
}

/// Client-specific configuration: ALPN protocols, certificate verification, and options.
pub struct ClientConfig {
    /// The transport configuration.
    pub transport: Arc<TransportConfig>,
    /// Application-Layer Protocol Negotiation protocols.
    pub alpn_protocols: Vec<Vec<u8>>,
    /// Whether 0-RTT data is sent.
    pub enable_early_data: bool,
    /// Whether the server's certificate is verified.
    pub verify: bool,
    /// Path to the CA certificates to verify against.
    pub ca_certs: Option<String>,
}

impl Clone for ClientConfig {
    fn clone(&self) -> (r: Self)
        ensures
            *r.transport == *self.transport,
            r.alpn_protocols.deep_view() == self.alpn_protocols.deep_view(),
            r.enable_early_data == self.enable_early_data,
            r.verify == self.verify,
            r.ca_certs == self.ca_certs,
    {
        ClientConfig {
            transport: self.transport.clone(),
            alpn_protocols: copy_byte_strings(&self.alpn_protocols),
            enable_early_data: self.enable_early_data,
            verify: self.verify,
            ca_certs: match &self.ca_certs {
                Some(path) => Some(path.clone()),
                None => None,
            },
        }
    }
}

impl ClientConfig {
    /// Create a new client configuration.
    ///
    /// # Arguments
    /// * `alpn_protocols` - Application-Layer Protocol Negotiation protocols
    pub fn new(alpn_protocols: Vec<Vec<u8>>) -> (r: Self)
        ensures
            is_default_transport(*r.transport),
            r.alpn_protocols == alpn_protocols,
            !r.enable_early_data,
            r.verify,
            r.ca_certs is None,
    {
        ClientConfig {
            transport: Arc::new(TransportConfig::default()),
            alpn_protocols,
            enable_early_data: false,
            verify: true,
            ca_certs: None,
        }
    }

    /// Set the transport configuration.
    pub fn transport_config(&mut self, config: Arc<TransportConfig>) -> (r: &mut Self)
        ensures
            *r == (ClientConfig { transport: config, ..*old(self) }),
            *final(self) == *final(r),
    {
        self.transport = config;
        self
    }

    /// Enable 0-RTT data sending.
    pub fn enable_early_data(&mut self, enabled: bool) -> (r: &mut Self)
        ensures
            *r == (ClientConfig { enable_early_data: enabled, ..*old(self) }),
            *final(self) == *final(r),
    {
        self.enable_early_data = enabled;
        self
    }

    /// Whether to verify the server's TLS certificate.
    pub fn verify(&mut self, verify: bool) -> (r: &mut Self)
        ensures
            *r == (ClientConfig { verify: verify, ..*old(self) }),
            *final(self) == *final(r),
    {
        self.verify = verify;
        self
    }

    /// A short description of the configuration, for logs. It leaves out the files.
    pub fn describe(&self) -> (r: String)
        ensures
            r@ == "ClientConfig { alpn_protocols: "@ + text::byte_lists(
                self.alpn_protocols.deep_view(),
            ) + ", enable_early_data: "@ + text::truth(self.enable_early_data) + ", verify: "@
                + text::truth(self.verify) + ", .. }"@,
    {
        let mut r = join(
            "ClientConfig { alpn_protocols: ",
            byte_lists_text(&self.alpn_protocols).as_str(),
        );
        r.append(", enable_early_data: ");
        r.append(truth_text(self.enable_early_data));
        r.append(", verify: ");
        r.append(truth_text(self.verify));
        r.append(", .. }");
        r
    }

    /// Set the path to the CA certificate file for server verification.
    pub fn ca_certs(&mut self, path: String) -> (r: &mut Self)
        ensures
            *r == (ClientConfig { ca_certs: Some(path), ..*old(self) }),
            *final(self) == *final(r),
    {
        self.ca_certs = Some(path);
        self
    }
}

// ---------------------------------------------------------------------------
// What the engine is configured with
// ---------------------------------------------------------------------------

/// The TLS side of an engine configuration.
pub enum TlsSettings {
    /// TLS for a server.
    Server {
        /// Path to the certificate chain file.
        cert_file: String,
        /// Path to the private key file.
        key_file: String,
        /// ALPN protocols.
        alpn_protocols: Vec<Vec<u8>>,
        /// Whether 0-RTT is enabled.
        early_data: bool,
    },
    /// TLS for a client.
    Client {
        /// ALPN protocols.
        alpn_protocols: Vec<Vec<u8>>,
        /// Whether 0-RTT is enabled.
        early_data: bool,
        /// Whether the peer's certificate is verified.
        verify: bool,
        /// Path to the CA certificates.
        ca_certs: Option<String>,
    },
    /// TLS for a client that nothing is known of: no ALPN protocols, no 0-RTT, and the engine's
    /// own choice for the rest.
    Bare,
}

/// The transport side of an engine configuration. An option that is `None` is left as the engine
/// has it.
#[derive(Debug, Clone, Copy)]
pub struct QuicSettings {
    /// Connection ID length.
    pub cid_len: usize,
    /// Whether stateless reset is enabled.
    pub stateless_reset: bool,
    /// Address token lifetime in seconds.
    pub address_token_lifetime: u64,
    /// Packets sent per batch.
    pub send_batch_size: usize,
    /// Stateless reset token key.
    pub reset_token_key: Option<[u8; 64]>,
    /// Idle timeout in milliseconds, zero for none.
    pub max_idle_timeout: u64,
    /// Handshake timeout in milliseconds.
    pub max_handshake_timeout: Option<u64>,
    /// Bytes that the peer may send on all streams before an update.
    pub initial_max_data: u64,
    /// Bytes that the peer may send on each bidirectional stream opened here.
    pub initial_max_stream_data_bidi_local: u64,
    /// Bytes that the peer may send on each bidirectional stream it opens.
    pub initial_max_stream_data_bidi_remote: u64,
    /// Bytes that the peer may send on each unidirectional stream.
    pub initial_max_stream_data_uni: u64,
    /// Largest receive window over all streams.
    pub max_connection_window: u64,
    /// Largest receive window of a single stream.
    pub max_stream_window: u64,
    /// Bidirectional streams that the peer may have open.
    pub initial_max_streams_bidi: u64,
    /// Unidirectional streams that the peer may have open.
    pub initial_max_streams_uni: u64,
    /// Whether the path MTU is discovered.
    pub enable_dplpmtud: bool,
    /// Largest UDP payload to send; `None` for the engine's default.
    pub send_udp_payload_size: Option<usize>,
    /// Exponent of the ACK delay; `None` for the engine's default.
    pub ack_delay_exponent: Option<u64>,
    /// Longest ACK delay; `None` for the engine's default.
    pub max_ack_delay: Option<u64>,
    /// Packets that bring on an ACK; `None` for the engine's default.
    pub ack_eliciting_threshold: Option<u64>,
    /// Connections that the endpoint accepts at a time.
    pub max_concurrent_conns: u32,
    /// First estimate of the round-trip time in milliseconds.
    pub initial_rtt: Option<u64>,
    /// Congestion control algorithm.
    pub congestion_control_algorithm: Option<CongestionControlAlgorithm>,
    /// First congestion window in packets.
    pub initial_congestion_window: Option<u64>,
    /// Smallest congestion window in packets.
    pub min_congestion_window: Option<u64>,
    /// Whether packets are paced.
    pub enable_pacing: Option<bool>,
    /// Whether several paths are used.
    pub enable_multipath: Option<bool>,
    /// How packets are spread over paths.
    pub multipath_algorithm: Option<MultipathAlgorithm>,
    /// Length of BBR's ProbeRTT state in milliseconds.
    pub bbr_probe_rtt_duration: Option<u64>,
    /// Whether BBR's ProbeRTT goes by the bandwidth-delay product.
    pub bbr_probe_rtt_based_on_bdp: Option<bool>,
    /// Congestion window gain in BBR's ProbeRTT state.
    pub bbr_probe_rtt_cwnd_gain: Option<FloatBits>,
    /// Length of BBR's RTprop filter in milliseconds.
    pub bbr_rtprop_filter_len: Option<u64>,
    /// Congestion window gain in BBR's ProbeBW state.
    pub bbr_probe_bw_cwnd_gain: Option<FloatBits>,
    /// COPA's delta in slow start.
    pub copa_slow_start_delta: Option<FloatBits>,
    /// COPA's delta in the steady state.
    pub copa_steady_delta: Option<FloatBits>,
    /// Whether COPA uses the standing round-trip time.
    pub copa_use_standing_rtt: Option<bool>,
    /// Whether retry is enabled; `None` on a client.
    pub enable_retry: Option<bool>,
}

/// An engine configuration.
pub struct EngineConfig {
    /// The transport side.
    pub quic: QuicSettings,
    /// The TLS side.
    pub tls: TlsSettings,
}

/// A time in milliseconds, as far as 64 bits hold it.
pub open spec fn millis(d: Duration) -> u64 {
    time::low_64_bits(d@ / 1_000_000)
}

/// A time in milliseconds, if there is one.
pub open spec fn optional_millis(d: Option<Duration>) -> Option<u64> {
    match d {
        Some(d) => Some(millis(d)),
        None => None,
    }
}

/// The transport side that a configuration asks for.
pub open spec fn quic_settings(
    endpoint: EndpointConfig,
    transport: TransportConfig,
    enable_retry: Option<bool>,
) -> QuicSettings {
    QuicSettings {
        cid_len: endpoint.cid_len,
        stateless_reset: endpoint.stateless_reset,
        address_token_lifetime: endpoint.address_token_lifetime,
        send_batch_size: endpoint.send_batch_size,
        reset_token_key: endpoint.reset_token_key,
        max_idle_timeout: match transport.max_idle_timeout {
            Some(d) => millis(d),
            None => 0,
        },
        max_handshake_timeout: optional_millis(transport.max_handshake_timeout),
        initial_max_data: transport.initial_max_data,
        initial_max_stream_data_bidi_local: transport.initial_max_stream_data_bidi_local,
        initial_max_stream_data_bidi_remote: transport.initial_max_stream_data_bidi_remote,
        initial_max_stream_data_uni: transport.initial_max_stream_data_uni,
        max_connection_window: transport.max_connection_window,
        max_stream_window: transport.max_stream_window,
        initial_max_streams_bidi: transport.initial_max_streams_bidi,
        initial_max_streams_uni: transport.initial_max_streams_uni,
        enable_dplpmtud: transport.enable_dplpmtud,
        send_udp_payload_size: transport.send_udp_payload_size,
        ack_delay_exponent: transport.ack_delay_exponent,
        max_ack_delay: transport.max_ack_delay,
        ack_eliciting_threshold: transport.ack_eliciting_threshold,
        max_concurrent_conns: transport.max_concurrent_conns,
        initial_rtt: optional_millis(transport.initial_rtt),
        congestion_control_algorithm: transport.congestion_control_algorithm,
        initial_congestion_window: transport.initial_congestion_window,
        min_congestion_window: transport.min_congestion_window,
        enable_pacing: transport.enable_pacing,
        enable_multipath: transport.enable_multipath,
        multipath_algorithm: transport.multipath_algorithm,
        bbr_probe_rtt_duration: transport.bbr_probe_rtt_duration,
        bbr_probe_rtt_based_on_bdp: transport.bbr_probe_rtt_based_on_bdp,
        bbr_probe_rtt_cwnd_gain: transport.bbr_probe_rtt_cwnd_gain,
        bbr_rtprop_filter_len: transport.bbr_rtprop_filter_len,
        bbr_probe_bw_cwnd_gain: transport.bbr_probe_bw_cwnd_gain,
        copa_slow_start_delta: transport.copa_slow_start_delta,
        copa_steady_delta: transport.copa_steady_delta,
        copa_use_standing_rtt: transport.copa_use_standing_rtt,
        enable_retry,
    }
}

/// The TLS side is the one that a server configuration asks for.
pub open spec fn is_server_tls(tls: TlsSettings, config: ServerConfig) -> bool {
    &&& tls matches TlsSettings::Server { cert_file, key_file, alpn_protocols, early_data }
    &&& cert_file == config.cert_file
    &&& key_file == config.key_file
    &&& alpn_protocols.deep_view() == config.alpn_protocols.deep_view()
    &&& early_data == config.enable_early_data
}

/// The TLS side is the one that a client configuration asks for.
pub open spec fn is_client_tls(tls: TlsSettings, config: ClientConfig) -> bool {
    &&& tls matches TlsSettings::Client { alpn_protocols, early_data, verify, ca_certs }
    &&& alpn_protocols.deep_view() == config.alpn_protocols.deep_view()
    &&& early_data == config.enable_early_data
    &&& verify == config.verify
    &&& ca_certs == config.ca_certs
}

/// The TLS settings for a server.
pub fn build_server_tls_config(config: &ServerConfig) -> (r: TlsSettings)
    ensures
        is_server_tls(r, *config),
        r matches TlsSettings::Server { cert_file, .. } && cert_file@ == config.cert_file@,
        r matches TlsSettings::Server { key_file, .. } && key_file@ == config.key_file@,
        r matches TlsSettings::Server { alpn_protocols, .. } && alpn_protocols.deep_view()
            == config.alpn_protocols.deep_view(),
        r matches TlsSettings::Server { early_data, .. } && early_data == config.enable_early_data,
{
    TlsSettings::Server {
        cert_file: config.cert_file.clone(),
        key_file: config.key_file.clone(),
        alpn_protocols: copy_byte_strings(&config.alpn_protocols),
        early_data: config.enable_early_data,
    }
}

/// The TLS settings for a client.
pub fn build_client_tls_config(config: &ClientConfig) -> (r: TlsSettings)
    ensures
        is_client_tls(r, *config),
        r matches TlsSettings::Client { alpn_protocols, .. } && alpn_protocols.deep_view()
            == config.alpn_protocols.deep_view(),
        r matches TlsSettings::Client { early_data, .. } && early_data == config.enable_early_data,
        r matches TlsSettings::Client { verify, .. } && verify == config.verify,
        r matches TlsSettings::Client { ca_certs, .. } && ca_certs == config.ca_certs,
{
    TlsSettings::Client {
        alpn_protocols: copy_byte_strings(&config.alpn_protocols),
        early_data: config.enable_early_data,
        verify: config.verify,
        ca_certs: match &config.ca_certs {
            Some(path) => Some(path.clone()),
            None => None,
        },
    }
}

fn optional_as_millis(d: Option<Duration>) -> (r: Option<u64>)
    ensures
        r == optional_millis(d),
{
    match d {
        Some(d) => Some(d.as_millis_u64()),
        None => None,
    }
}

/// Merge an `EndpointConfig` and a `TransportConfig` into an engine configuration.
///
/// Also carries the TLS settings, and the server-specific options from `ServerConfig` if present.
pub fn build_tquic_config(
    endpoint: &EndpointConfig,
    transport: &TransportConfig,
    tls_config: TlsSettings,
    server_config: Option<&ServerConfig>,
) -> (r: EngineConfig)
    ensures
        r.tls == tls_config,
        r.quic == quic_settings(
            *endpoint,
            *transport,
            match server_config {
                Some(sc) => Some(sc.enable_retry),
                None => None,
            },
        ),
        r.quic.cid_len == endpoint.cid_len,
        r.quic.stateless_reset == endpoint.stateless_reset,
        r.quic.address_token_lifetime == endpoint.address_token_lifetime,
        r.quic.send_batch_size == endpoint.send_batch_size,
        r.quic.reset_token_key == endpoint.reset_token_key,
        match transport.max_idle_timeout {
            Some(d) => r.quic.max_idle_timeout == (d@ / 1_000_000) % 0x1_0000_0000_0000_0000,
            None => r.quic.max_idle_timeout == 0,
        },
        match transport.max_handshake_timeout {
            Some(d) => r.quic.max_handshake_timeout matches Some(ms) && ms == (d@ / 1_000_000)
                % 0x1_0000_0000_0000_0000,
            None => r.quic.max_handshake_timeout is None,
        },
        r.quic.initial_max_data == transport.initial_max_data,
        r.quic.initial_max_stream_data_bidi_local == transport.initial_max_stream_data_bidi_local,
        r.quic.initial_max_stream_data_bidi_remote == transport.initial_max_stream_data_bidi_remote,
        r.quic.initial_max_stream_data_uni == transport.initial_max_stream_data_uni,
        r.quic.max_connection_window == transport.max_connection_window,
        r.quic.max_stream_window == transport.max_stream_window,
        r.quic.initial_max_streams_bidi == transport.initial_max_streams_bidi,
        r.quic.initial_max_streams_uni == transport.initial_max_streams_uni,
        r.quic.enable_dplpmtud == transport.enable_dplpmtud,
        r.quic.send_udp_payload_size == transport.send_udp_payload_size,
        r.quic.ack_delay_exponent == transport.ack_delay_exponent,
        r.quic.max_ack_delay == transport.max_ack_delay,
        r.quic.ack_eliciting_threshold == transport.ack_eliciting_threshold,
        r.quic.max_concurrent_conns == transport.max_concurrent_conns,
        match transport.initial_rtt {
            Some(d) => r.quic.initial_rtt matches Some(ms) && ms == (d@ / 1_000_000)
                % 0x1_0000_0000_0000_0000,
            None => r.quic.initial_rtt is None,
        },
        r.quic.congestion_control_algorithm == transport.congestion_control_algorithm,
        r.quic.initial_congestion_window == transport.initial_congestion_window,
        r.quic.min_congestion_window == transport.min_congestion_window,
        r.quic.enable_pacing == transport.enable_pacing,
        r.quic.enable_multipath == transport.enable_multipath,
        r.quic.multipath_algorithm == transport.multipath_algorithm,
        r.quic.bbr_probe_rtt_duration == transport.bbr_probe_rtt_duration,
        r.quic.bbr_probe_rtt_based_on_bdp == transport.bbr_probe_rtt_based_on_bdp,
        r.quic.bbr_probe_rtt_cwnd_gain == transport.bbr_probe_rtt_cwnd_gain,
        r.quic.bbr_rtprop_filter_len == transport.bbr_rtprop_filter_len,
        r.quic.bbr_probe_bw_cwnd_gain == transport.bbr_probe_bw_cwnd_gain,
        r.quic.copa_slow_start_delta == transport.copa_slow_start_delta,
        r.quic.copa_steady_delta == transport.copa_steady_delta,
        r.quic.copa_use_standing_rtt == transport.copa_use_standing_rtt,
        match server_config {
            Some(sc) => r.quic.enable_retry == Some(sc.enable_retry),
            None => r.quic.enable_retry is None,
        },
{
    let quic = QuicSettings {
        cid_len: endpoint.cid_len,
        stateless_reset: endpoint.stateless_reset,
        address_token_lifetime: endpoint.address_token_lifetime,
        send_batch_size: endpoint.send_batch_size,
        reset_token_key: endpoint.reset_token_key,
        max_idle_timeout: match transport.max_idle_timeout {
            Some(d) => d.as_millis_u64(),
            None => 0,
        },
        max_handshake_timeout: optional_as_millis(transport.max_handshake_timeout),
        initial_max_data: transport.initial_max_data,
        initial_max_stream_data_bidi_local: transport.initial_max_stream_data_bidi_local,
        initial_max_stream_data_bidi_remote: transport.initial_max_stream_data_bidi_remote,
        initial_max_stream_data_uni: transport.initial_max_stream_data_uni,
        max_connection_window: transport.max_connection_window,
        max_stream_window: transport.max_stream_window,
        initial_max_streams_bidi: transport.initial_max_streams_bidi,
        initial_max_streams_uni: transport.initial_max_streams_uni,
        enable_dplpmtud: transport.enable_dplpmtud,
        send_udp_payload_size: transport.send_udp_payload_size,
        ack_delay_exponent: transport.ack_delay_exponent,
        max_ack_delay: transport.max_ack_delay,
        ack_eliciting_threshold: transport.ack_eliciting_threshold,
        max_concurrent_conns: transport.max_concurrent_conns,
        initial_rtt: optional_as_millis(transport.initial_rtt),
        congestion_control_algorithm: transport.congestion_control_algorithm,
        initial_congestion_window: transport.initial_congestion_window,
        min_congestion_window: transport.min_congestion_window,
        enable_pacing: transport.enable_pacing,
        enable_multipath: transport.enable_multipath,
        multipath_algorithm: transport.multipath_algorithm,
        bbr_probe_rtt_duration: transport.bbr_probe_rtt_duration,
        bbr_probe_rtt_based_on_bdp: transport.bbr_probe_rtt_based_on_bdp,
        bbr_probe_rtt_cwnd_gain: transport.bbr_probe_rtt_cwnd_gain,
        bbr_rtprop_filter_len: transport.bbr_rtprop_filter_len,
        bbr_probe_bw_cwnd_gain: transport.bbr_probe_bw_cwnd_gain,
        copa_slow_start_delta: transport.copa_slow_start_delta,
        copa_steady_delta: transport.copa_steady_delta,
        copa_use_standing_rtt: transport.copa_use_standing_rtt,
        enable_retry: match server_config {
            Some(sc) => Some(sc.enable_retry),
            None => None,
        },
    };
    EngineConfig { quic, tls: tls_config }
}

/// A step of building an engine configuration that can fail.
#[derive(Debug, Clone, Copy, PartialEq, Eq, Structural)]
pub enum ConfigStep {
    /// Making the TLS context.
    Tls,
    /// Loading the CA certificates.
    CaCerts,
    /// Making the engine's configuration object.
    Config,
}

/// How the message of a failed step starts.
pub open spec fn step_prefix(step: ConfigStep) -> Seq<char> {
    match step {
        ConfigStep::Tls => "TLS config error: "@,
        ConfigStep::CaCerts => "CA cert error: "@,
        ConfigStep::Config => "config error: "@,
    }
}

/// The error of a step that failed, from the engine's description of what went wrong.
pub fn config_error(step: ConfigStep, description: &str) -> (r: ConnectError)
    ensures
        r matches ConnectError::InvalidDnsName(s) && s@ == step_prefix(step) + description@,
{
    let prefix = match step {
        ConfigStep::Tls => "TLS config error: ",
        ConfigStep::CaCerts => "CA cert error: ",
        ConfigStep::Config => "config error: ",
    };
    ConnectError::InvalidDnsName(join(prefix, description))
}

} // verus!
