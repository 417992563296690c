//! Configurations, and what the engine is configured with.
use std::sync::Arc;

use tokio_tquic::addr::SocketAddr;
use tokio_tquic::config::{
    build_client_tls_config, build_server_tls_config, build_tquic_config, TlsSettings,
};
use tokio_tquic::engine::{CongestionControlAlgorithm, FloatBits, MultipathAlgorithm};
use tokio_tquic::ext::TransportConfigExt;
use tokio_tquic::time::Duration;
use tokio_tquic::worker::{Bridge, Startup};
use tokio_tquic::{ClientConfig, Endpoint, EndpointConfig, ServerConfig, TransportConfig};

fn localhost(port: u16) -> SocketAddr {
    SocketAddr::V4 { octets: [127, 0, 0, 1], port }
}

fn server_config() -> ServerConfig {
    ServerConfig::new("cert".to_string(), "key".to_string(), vec![b"h3".to_vec(), vec![]])
}

#[test]
fn endpoint_config_is_set() {
    let fresh = EndpointConfig::new();
    assert_eq!(fresh.cid_len, 8);
    assert!(fresh.stateless_reset);
    assert_eq!(fresh.reset_token_key, None);
    assert_eq!(fresh.address_token_lifetime, 86400);
    assert_eq!(fresh.send_batch_size, 64);

    let mut config = EndpointConfig::default();
    config
        .cid_len(20)
        .stateless_reset(false)
        .reset_token_key([7; 64])
        .address_token_lifetime(60)
        .send_batch_size(16);
    assert_eq!(config.cid_len, 20);
    assert!(!config.stateless_reset);
    assert_eq!(config.reset_token_key, Some([7; 64]));
    assert_eq!(config.address_token_lifetime, 60);
    assert_eq!(config.send_batch_size, 16);
}

#[test]
fn default_transport_reaches_the_engine() {
    let config =
        build_tquic_config(&EndpointConfig::new(), &TransportConfig::new(), TlsSettings::Bare, None);
    let quic = config.quic;
    assert_eq!(quic.max_idle_timeout, 30_000);
    assert_eq!(quic.max_handshake_timeout, None);
    assert_eq!(quic.initial_max_data, 10_485_760);
    assert_eq!(quic.initial_max_stream_data_bidi_local, 5_242_880);
    assert_eq!(quic.initial_max_stream_data_bidi_remote, 2_097_152);
    assert_eq!(quic.initial_max_stream_data_uni, 1_048_576);
    assert_eq!(quic.max_connection_window, 15_728_640);
    assert_eq!(quic.max_stream_window, 6_291_456);
    assert_eq!(quic.initial_max_streams_bidi, 200);
    assert_eq!(quic.initial_max_streams_uni, 100);
    assert!(quic.enable_dplpmtud);
    assert_eq!(quic.max_concurrent_conns, 1_000_000);
    assert_eq!(quic.initial_rtt, None);
    assert_eq!(quic.enable_retry, None);
    assert_eq!(quic.cid_len, 8);
    assert_eq!(quic.send_batch_size, 64);
}

#[test]
fn transport_settings_reach_the_engine() {
    let mut transport = TransportConfig::new();
    transport
        .max_idle_timeout(None)
        .max_handshake_timeout(Some(Duration::from_secs(4)))
        .receive_window(1)
        .stream_receive_window_bidi_local(2)
        .stream_receive_window_bidi_remote(3)
        .stream_receive_window_uni(4)
        .max_connection_window(5)
        .max_stream_window(6)
        .max_concurrent_bidi_streams(7)
        .max_concurrent_uni_streams(8)
        .enable_mtu_discovery(false)
        .initial_rtt(Duration::from_micros(9_999))
        .max_concurrent_connections(10);
    let mut server = server_config();
    server.enable_retry(true);
    let config = build_tquic_config(
        &EndpointConfig::new(),
        &transport,
        build_server_tls_config(&server),
        Some(&server),
    );
    let quic = config.quic;
    assert_eq!(quic.max_idle_timeout, 0);
    assert_eq!(quic.max_handshake_timeout, Some(4_000));
    assert_eq!(quic.initial_max_data, 1);
    assert_eq!(quic.initial_max_stream_data_bidi_local, 2);
    assert_eq!(quic.initial_max_stream_data_bidi_remote, 3);
    assert_eq!(quic.initial_max_stream_data_uni, 4);
    assert_eq!(quic.max_connection_window, 5);
    assert_eq!(quic.max_stream_window, 6);
    assert_eq!(quic.initial_max_streams_bidi, 7);
    assert_eq!(quic.initial_max_streams_uni, 8);
    assert!(!quic.enable_dplpmtud);
    assert_eq!(quic.initial_rtt, Some(9));
    assert_eq!(quic.max_concurrent_conns, 10);
    assert_eq!(quic.enable_retry, Some(true));
}

#[test]
fn engine_specific_settings_reach_the_engine() {
    let gain = |x: f64| FloatBits { bits: x.to_bits() };
    let mut transport = TransportConfig::new();
    transport
        .set_congestion_control_algorithm(CongestionControlAlgorithm::Bbr3)
        .set_initial_congestion_window(10)
        .set_min_congestion_window(2)
        .enable_pacing(true)
        .enable_multipath(true)
        .set_multipath_algorithm(MultipathAlgorithm::RoundRobin)
        .set_bbr_probe_rtt_duration(200)
        .enable_bbr_probe_rtt_based_on_bdp(true)
        .set_bbr_probe_rtt_cwnd_gain(gain(0.75))
        .set_bbr_rtprop_filter_len(10_000)
        .set_bbr_probe_bw_cwnd_gain(gain(2.0))
        .set_copa_slow_start_delta(gain(0.5))
        .set_copa_steady_delta(gain(0.04))
        .enable_copa_use_standing_rtt(false);
    let quic =
        build_tquic_config(&EndpointConfig::new(), &transport, TlsSettings::Bare, None).quic;
    assert_eq!(quic.congestion_control_algorithm, Some(CongestionControlAlgorithm::Bbr3));
    assert_eq!(quic.initial_congestion_window, Some(10));
    assert_eq!(quic.min_congestion_window, Some(2));
    assert_eq!(quic.enable_pacing, Some(true));
    assert_eq!(quic.enable_multipath, Some(true));
    assert_eq!(quic.multipath_algorithm, Some(MultipathAlgorithm::RoundRobin));
    assert_eq!(quic.bbr_probe_rtt_duration, Some(200));
    assert_eq!(quic.bbr_probe_rtt_based_on_bdp, Some(true));
    assert_eq!(f64::from_bits(quic.bbr_probe_rtt_cwnd_gain.unwrap().bits), 0.75);
    assert_eq!(quic.bbr_rtprop_filter_len, Some(10_000));
    assert_eq!(f64::from_bits(quic.bbr_probe_bw_cwnd_gain.unwrap().bits), 2.0);
    assert_eq!(f64::from_bits(quic.copa_slow_start_delta.unwrap().bits), 0.5);
    assert_eq!(f64::from_bits(quic.copa_steady_delta.unwrap().bits), 0.04);
    assert_eq!(quic.copa_use_standing_rtt, Some(false));
}

#[test]
fn tls_settings_follow_the_configurations() {
    let mut server = server_config();
    server.enable_early_data(true);
    match build_server_tls_config(&server.clone()) {
        TlsSettings::Server { cert_file, key_file, alpn_protocols, early_data } => {
            assert_eq!(cert_file, "cert");
            assert_eq!(key_file, "key");
            assert_eq!(alpn_protocols, vec![b"h3".to_vec(), vec![]]);
            assert!(early_data);
        }
        _ => panic!("not a server's"),
    }
    let mut client = ClientConfig::new(vec![b"h3".to_vec()]);
    assert!(client.verify);
    client.ca_certs("ca.pem".to_string());
    match build_client_tls_config(&client.clone()) {
        TlsSettings::Client { alpn_protocols, early_data, verify, ca_certs } => {
            assert_eq!(alpn_protocols, vec![b"h3".to_vec()]);
            assert!(!early_data);
            assert!(verify);
            assert_eq!(ca_certs, Some("ca.pem".to_string()));
        }
        _ => panic!("not a client's"),
    }
}

#[test]
fn bridge_starts_from_the_right_configuration() {
    let mut transport = TransportConfig::new();
    transport.receive_window(123);
    let mut server = server_config();
    server.transport_config(Arc::new(transport));
    let setup = Endpoint::server(server, localhost(0)).setup(localhost(9));
    assert!(setup.is_server);
    assert!(setup.handler.is_server);
    assert_eq!(setup.engine_config.quic.initial_max_data, 123);
    assert_eq!(setup.engine_config.quic.enable_retry, Some(false));
    assert!(matches!(setup.engine_config.tls, TlsSettings::Server { .. }));
    assert_eq!(setup.worker.local_addr, localhost(9));

    let setup = Endpoint::client(localhost(0)).setup(localhost(9));
    assert!(!setup.is_server);
    assert_eq!(setup.engine_config.quic.initial_max_data, 10_485_760);
    assert!(matches!(setup.engine_config.tls, TlsSettings::Bare));
    assert!(setup.worker.current_client_config.is_none());

    let mut client = ClientConfig::new(vec![]);
    client.transport_config(Arc::new(transport));
    let bridge = Bridge {
        bind_addr: localhost(0),
        endpoint_config: EndpointConfig::new(),
        server_config: None,
        default_client_config: Some(client),
    };
    let setup = bridge.setup(localhost(9));
    assert_eq!(setup.engine_config.quic.initial_max_data, 123);
    assert!(matches!(setup.engine_config.tls, TlsSettings::Client { .. }));
    assert!(setup.worker.current_client_config.is_some());
}

#[test]
fn startup_is_reported() {
    assert_eq!(Bridge::started(Startup::Ready), Ok(()));
    assert_eq!(Bridge::started(Startup::Failed("no runtime".to_string())), Err("no runtime".to_string()));
    assert_eq!(
        Bridge::started(Startup::Died),
        Err("bridge thread died during startup".to_string())
    );
}

#[test]
fn configurations_are_described_without_their_files() {
    let server = server_config();
    assert_eq!(
        server.describe(),
        "ServerConfig { alpn_protocols: [[104, 51], []], enable_early_data: false, \
         enable_retry: false, .. }"
    );
    let mut client = ClientConfig::new(vec![]);
    client.enable_early_data(true).ca_certs("secret".to_string());
    assert_eq!(
        client.describe(),
        "ClientConfig { alpn_protocols: [], enable_early_data: true, verify: true, .. }"
    );
}
