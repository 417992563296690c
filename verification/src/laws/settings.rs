//! What is set on a configuration reaches the engine as it was set, from the arguments and results of
//! the functions that set it and that build an engine configuration.
use std::sync::Arc;

use vstd::prelude::*;

use crate::config::{
    build_client_tls_config, build_server_tls_config, build_tquic_config, ClientConfig,
    EndpointConfig, EngineConfig, QuicSettings, ServerConfig, TlsSettings, TransportConfig,
};
use crate::engine::{CongestionControlAlgorithm, FloatBits, MultipathAlgorithm};
use crate::ext::config::TransportConfigExt;
use crate::time::Duration;

verus! {

/// The settings that are set on an endpoint configuration are those that the engine is configured
/// with, each in its own place, and none of them changes another setting.
pub proof fn law_endpoint_settings_that_are_set_are_used(
    config: EndpointConfig,
    transport: TransportConfig,
    tls: TlsSettings,
    server: Option<&ServerConfig>,
    before: EngineConfig,
    first: &mut EndpointConfig,
    first_set: &mut EndpointConfig,
    first_value: usize,
    first_built: EngineConfig,
    second: &mut EndpointConfig,
    second_set: &mut EndpointConfig,
    second_value: bool,
    second_built: EngineConfig,
    third: &mut EndpointConfig,
    third_set: &mut EndpointConfig,
    third_value: [u8; 64],
    third_built: EngineConfig,
    fourth: &mut EndpointConfig,
    fourth_set: &mut EndpointConfig,
    fourth_value: u64,
    fourth_built: EngineConfig,
    fifth: &mut EndpointConfig,
    fifth_set: &mut EndpointConfig,
    fifth_value: usize,
    fifth_built: EngineConfig,
)
    requires
        call_ensures(build_tquic_config, (&config, &transport, tls, server), before),
        *old(first) == config,
        call_ensures(EndpointConfig::cid_len, (first, first_value), first_set),
        *final(first_set) == *old(first_set),
        call_ensures(build_tquic_config, (&*final(first), &transport, tls, server), first_built),
        *old(second) == config,
        call_ensures(EndpointConfig::stateless_reset, (second, second_value), second_set),
        *final(second_set) == *old(second_set),
        call_ensures(build_tquic_config, (&*final(second), &transport, tls, server), second_built),
        *old(third) == config,
        call_ensures(EndpointConfig::reset_token_key, (third, third_value), third_set),
        *final(third_set) == *old(third_set),
        call_ensures(build_tquic_config, (&*final(third), &transport, tls, server), third_built),
        *old(fourth) == config,
        call_ensures(EndpointConfig::address_token_lifetime, (fourth, fourth_value), fourth_set),
        *final(fourth_set) == *old(fourth_set),
        call_ensures(build_tquic_config, (&*final(fourth), &transport, tls, server), fourth_built),
        *old(fifth) == config,
        call_ensures(EndpointConfig::send_batch_size, (fifth, fifth_value), fifth_set),
        *final(fifth_set) == *old(fifth_set),
        call_ensures(build_tquic_config, (&*final(fifth), &transport, tls, server), fifth_built),
    ensures
        first_built.quic == (QuicSettings { cid_len: first_value, ..before.quic }),
        second_built.quic == (QuicSettings { stateless_reset: second_value, ..before.quic }),
        third_built.quic == (QuicSettings { reset_token_key: Some(third_value), ..before.quic }),
        fourth_built.quic == (QuicSettings { address_token_lifetime: fourth_value, ..before.quic }),
        fifth_built.quic == (QuicSettings { send_batch_size: fifth_value, ..before.quic }),
{
}

/// The flow control windows that are set on a transport configuration are those that the engine is
/// configured with, each in its own place, and none of them changes another setting.
pub proof fn law_windows_that_are_set_are_used(
    endpoint: EndpointConfig,
    config: TransportConfig,
    tls: TlsSettings,
    server: Option<&ServerConfig>,
    before: EngineConfig,
    first: &mut TransportConfig,
    first_set: &mut TransportConfig,
    first_value: u64,
    first_built: EngineConfig,
    second: &mut TransportConfig,
    second_set: &mut TransportConfig,
    second_value: u64,
    second_built: EngineConfig,
    third: &mut TransportConfig,
    third_set: &mut TransportConfig,
    third_value: u64,
    third_built: EngineConfig,
    fourth: &mut TransportConfig,
    fourth_set: &mut TransportConfig,
    fourth_value: u64,
    fourth_built: EngineConfig,
    fifth: &mut TransportConfig,
    fifth_set: &mut TransportConfig,
    fifth_value: u64,
    fifth_built: EngineConfig,
    sixth: &mut TransportConfig,
    sixth_set: &mut TransportConfig,
    sixth_value: u64,
    sixth_built: EngineConfig,
)
    requires
        call_ensures(build_tquic_config, (&endpoint, &config, tls, server), before),
        *old(first) == config,
        call_ensures(TransportConfig::receive_window, (first, first_value), first_set),
        *final(first_set) == *old(first_set),
        call_ensures(build_tquic_config, (&endpoint, &*final(first), tls, server), first_built),
        *old(second) == config,
        call_ensures(
            TransportConfig::stream_receive_window_bidi_local,
            (second, second_value),
            second_set,
        ),
        *final(second_set) == *old(second_set),
        call_ensures(build_tquic_config, (&endpoint, &*final(second), tls, server), second_built),
        *old(third) == config,
        call_ensures(
            TransportConfig::stream_receive_window_bidi_remote,
            (third, third_value),
            third_set,
        ),
        *final(third_set) == *old(third_set),
        call_ensures(build_tquic_config, (&endpoint, &*final(third), tls, server), third_built),
        *old(fourth) == config,
        call_ensures(
            TransportConfig::stream_receive_window_uni,
            (fourth, fourth_value),
            fourth_set,
        ),
        *final(fourth_set) == *old(fourth_set),
        call_ensures(build_tquic_config, (&endpoint, &*final(fourth), tls, server), fourth_built),
        *old(fifth) == config,
        call_ensures(TransportConfig::max_connection_window, (fifth, fifth_value), fifth_set),
        *final(fifth_set) == *old(fifth_set),
        call_ensures(build_tquic_config, (&endpoint, &*final(fifth), tls, server), fifth_built),
        *old(sixth) == config,
        call_ensures(TransportConfig::max_stream_window, (sixth, sixth_value), sixth_set),
        *final(sixth_set) == *old(sixth_set),
        call_ensures(build_tquic_config, (&endpoint, &*final(sixth), tls, server), sixth_built),
    ensures
        first_built.quic == (QuicSettings { initial_max_data: first_value, ..before.quic }),
        second_built.quic == (QuicSettings {
            initial_max_stream_data_bidi_local: second_value,
            ..before.quic
        }),
        third_built.quic == (QuicSettings {
            initial_max_stream_data_bidi_remote: third_value,
            ..before.quic
        }),
        fourth_built.quic == (QuicSettings {
            initial_max_stream_data_uni: fourth_value,
            ..before.quic
        }),
        fifth_built.quic == (QuicSettings { max_connection_window: fifth_value, ..before.quic }),
        sixth_built.quic == (QuicSettings { max_stream_window: sixth_value, ..before.quic }),
{
}

/// The limits that are set on a transport configuration, and whether the path MTU is discovered, are
/// those that the engine is configured with, each in its own place, and none of them changes another
/// setting.
pub proof fn law_limits_that_are_set_are_used(
    endpoint: EndpointConfig,
    config: TransportConfig,
    tls: TlsSettings,
    server: Option<&ServerConfig>,
    before: EngineConfig,
    first: &mut TransportConfig,
    first_set: &mut TransportConfig,
    first_value: u64,
    first_built: EngineConfig,
    second: &mut TransportConfig,
    second_set: &mut TransportConfig,
    second_value: u64,
    second_built: EngineConfig,
    third: &mut TransportConfig,
    third_set: &mut TransportConfig,
    third_value: u32,
    third_built: EngineConfig,
    fourth: &mut TransportConfig,
    fourth_set: &mut TransportConfig,
    fourth_value: bool,
    fourth_built: EngineConfig,
)
    requires
        call_ensures(build_tquic_config, (&endpoint, &config, tls, server), before),
        *old(first) == config,
        call_ensures(TransportConfig::max_concurrent_bidi_streams, (first, first_value), first_set),
        *final(first_set) == *old(first_set),
        call_ensures(build_tquic_config, (&endpoint, &*final(first), tls, server), first_built),
        *old(second) == config,
        call_ensures(
            TransportConfig::max_concurrent_uni_streams,
            (second, second_value),
            second_set,
        ),
        *final(second_set) == *old(second_set),
        call_ensures(build_tquic_config, (&endpoint, &*final(second), tls, server), second_built),
        *old(third) == config,
        call_ensures(TransportConfig::max_concurrent_connections, (third, third_value), third_set),
        *final(third_set) == *old(third_set),
        call_ensures(build_tquic_config, (&endpoint, &*final(third), tls, server), third_built),
        *old(fourth) == config,
        call_ensures(TransportConfig::enable_mtu_discovery, (fourth, fourth_value), fourth_set),
        *final(fourth_set) == *old(fourth_set),
        call_ensures(build_tquic_config, (&endpoint, &*final(fourth), tls, server), fourth_built),
    ensures
        first_built.quic == (QuicSettings { initial_max_streams_bidi: first_value, ..before.quic }),
        second_built.quic == (QuicSettings {
            initial_max_streams_uni: second_value,
            ..before.quic
        }),
        third_built.quic == (QuicSettings { max_concurrent_conns: third_value, ..before.quic }),
        fourth_built.quic == (QuicSettings { enable_dplpmtud: fourth_value, ..before.quic }),
{
}

/// The settings of congestion control and multipath that are set on a transport configuration are
/// those that the engine is configured with, each in its own place, and none of them changes another
/// setting.
pub proof fn law_congestion_settings_that_are_set_are_used(
    endpoint: EndpointConfig,
    config: TransportConfig,
    tls: TlsSettings,
    server: Option<&ServerConfig>,
    before: EngineConfig,
    first: &mut TransportConfig,
    first_set: &mut TransportConfig,
    first_value: CongestionControlAlgorithm,
    first_built: EngineConfig,
    second: &mut TransportConfig,
    second_set: &mut TransportConfig,
    second_value: u64,
    second_built: EngineConfig,
    third: &mut TransportConfig,
    third_set: &mut TransportConfig,
    third_value: u64,
    third_built: EngineConfig,
    fourth: &mut TransportConfig,
    fourth_set: &mut TransportConfig,
    fourth_value: bool,
    fourth_built: EngineConfig,
    fifth: &mut TransportConfig,
    fifth_set: &mut TransportConfig,
    fifth_value: bool,
    fifth_built: EngineConfig,
    sixth: &mut TransportConfig,
    sixth_set: &mut TransportConfig,
    sixth_value: MultipathAlgorithm,
    sixth_built: EngineConfig,
)
    requires
        call_ensures(build_tquic_config, (&endpoint, &config, tls, server), before),
        *old(first) == config,
        call_ensures(
            <TransportConfig as TransportConfigExt>::set_congestion_control_algorithm,
            (first, first_value),
            first_set,
        ),
        *final(first_set) == *old(first_set),
        call_ensures(build_tquic_config, (&endpoint, &*final(first), tls, server), first_built),
        *old(second) == config,
        call_ensures(
            <TransportConfig as TransportConfigExt>::set_initial_congestion_window,
            (second, second_value),
            second_set,
        ),
        *final(second_set) == *old(second_set),
        call_ensures(build_tquic_config, (&endpoint, &*final(second), tls, server), second_built),
        *old(third) == config,
        call_ensures(
            <TransportConfig as TransportConfigExt>::set_min_congestion_window,
            (third, third_value),
            third_set,
        ),
        *final(third_set) == *old(third_set),
        call_ensures(build_tquic_config, (&endpoint, &*final(third), tls, server), third_built),
        *old(fourth) == config,
        call_ensures(
            <TransportConfig as TransportConfigExt>::enable_pacing,
            (fourth, fourth_value),
            fourth_set,
        ),
        *final(fourth_set) == *old(fourth_set),
        call_ensures(build_tquic_config, (&endpoint, &*final(fourth), tls, server), fourth_built),
        *old(fifth) == config,
        call_ensures(
            <TransportConfig as TransportConfigExt>::enable_multipath,
            (fifth, fifth_value),
            fifth_set,
        ),
        *final(fifth_set) == *old(fifth_set),
        call_ensures(build_tquic_config, (&endpoint, &*final(fifth), tls, server), fifth_built),
        *old(sixth) == config,
        call_ensures(
            <TransportConfig as TransportConfigExt>::set_multipath_algorithm,
            (sixth, sixth_value),
            sixth_set,
        ),
        *final(sixth_set) == *old(sixth_set),
        call_ensures(build_tquic_config, (&endpoint, &*final(sixth), tls, server), sixth_built),
    ensures
        first_built.quic == (QuicSettings {
            congestion_control_algorithm: Some(first_value),
            ..before.quic
        }),
        second_built.quic == (QuicSettings {
            initial_congestion_window: Some(second_value),
            ..before.quic
        }),
        third_built.quic == (QuicSettings {
            min_congestion_window: Some(third_value),
            ..before.quic
        }),
        fourth_built.quic == (QuicSettings { enable_pacing: Some(fourth_value), ..before.quic }),
        fifth_built.quic == (QuicSettings { enable_multipath: Some(fifth_value), ..before.quic }),
        sixth_built.quic == (QuicSettings {
            multipath_algorithm: Some(sixth_value),
            ..before.quic
        }),
{
}

/// The parameters of BBR and COPA that are set on a transport configuration are those that the engine
/// is configured with, each in its own place, and none of them changes another setting.
pub proof fn law_algorithm_parameters_that_are_set_are_used(
    endpoint: EndpointConfig,
    config: TransportConfig,
    tls: TlsSettings,
    server: Option<&ServerConfig>,
    before: EngineConfig,
    first: &mut TransportConfig,
    first_set: &mut TransportConfig,
    first_value: u64,
    first_built: EngineConfig,
    second: &mut TransportConfig,
    second_set: &mut TransportConfig,
    second_value: bool,
    second_built: EngineConfig,
    third: &mut TransportConfig,
    third_set: &mut TransportConfig,
    third_value: FloatBits,
    third_built: EngineConfig,
    fourth: &mut TransportConfig,
    fourth_set: &mut TransportConfig,
    fourth_value: u64,
    fourth_built: EngineConfig,
    fifth: &mut TransportConfig,
    fifth_set: &mut TransportConfig,
    fifth_value: FloatBits,
    fifth_built: EngineConfig,
    sixth: &mut TransportConfig,
    sixth_set: &mut TransportConfig,
    sixth_value: FloatBits,
    sixth_built: EngineConfig,
    seventh: &mut TransportConfig,
    seventh_set: &mut TransportConfig,
    seventh_value: FloatBits,
    seventh_built: EngineConfig,
    eighth: &mut TransportConfig,
    eighth_set: &mut TransportConfig,
    eighth_value: bool,
    eighth_built: EngineConfig,
)
    requires
        call_ensures(build_tquic_config, (&endpoint, &config, tls, server), before),
        *old(first) == config,
        call_ensures(
            <TransportConfig as TransportConfigExt>::set_bbr_probe_rtt_duration,
            (first, first_value),
            first_set,
        ),
        *final(first_set) == *old(first_set),
        call_ensures(build_tquic_config, (&endpoint, &*final(first), tls, server), first_built),
        *old(second) == config,
        call_ensures(
            <TransportConfig as TransportConfigExt>::enable_bbr_probe_rtt_based_on_bdp,
            (second, second_value),
            second_set,
        ),
        *final(second_set) == *old(second_set),
        call_ensures(build_tquic_config, (&endpoint, &*final(second), tls, server), second_built),
        *old(third) == config,
        call_ensures(
            <TransportConfig as TransportConfigExt>::set_bbr_probe_rtt_cwnd_gain,
            (third, third_value),
            third_set,
        ),
        *final(third_set) == *old(third_set),
        call_ensures(build_tquic_config, (&endpoint, &*final(third), tls, server), third_built),
        *old(fourth) == config,
        call_ensures(
            <TransportConfig as TransportConfigExt>::set_bbr_rtprop_filter_len,
            (fourth, fourth_value),
            fourth_set,
        ),
        *final(fourth_set) == *old(fourth_set),
        call_ensures(build_tquic_config, (&endpoint, &*final(fourth), tls, server), fourth_built),
        *old(fifth) == config,
        call_ensures(
            <TransportConfig as TransportConfigExt>::set_bbr_probe_bw_cwnd_gain,
            (fifth, fifth_value),
            fifth_set,
        ),
        *final(fifth_set) == *old(fifth_set),
        call_ensures(build_tquic_config, (&endpoint, &*final(fifth), tls, server), fifth_built),
        *old(sixth) == config,
        call_ensures(
            <TransportConfig as TransportConfigExt>::set_copa_slow_start_delta,
            (sixth, sixth_value),
            sixth_set,
        ),
        *final(sixth_set) == *old(sixth_set),
        call_ensures(build_tquic_config, (&endpoint, &*final(sixth), tls, server), sixth_built),
        *old(seventh) == config,
        call_ensures(
            <TransportConfig as TransportConfigExt>::set_copa_steady_delta,
            (seventh, seventh_value),
            seventh_set,
        ),
        *final(seventh_set) == *old(seventh_set),
        call_ensures(build_tquic_config, (&endpoint, &*final(seventh), tls, server), seventh_built),
        *old(eighth) == config,
        call_ensures(
            <TransportConfig as TransportConfigExt>::enable_copa_use_standing_rtt,
            (eighth, eighth_value),
            eighth_set,
        ),
        *final(eighth_set) == *old(eighth_set),
        call_ensures(build_tquic_config, (&endpoint, &*final(eighth), tls, server), eighth_built),
    ensures
        first_built.quic == (QuicSettings {
            bbr_probe_rtt_duration: Some(first_value),
            ..before.quic
        }),
        second_built.quic == (QuicSettings {
            bbr_probe_rtt_based_on_bdp: Some(second_value),
            ..before.quic
        }),
        third_built.quic == (QuicSettings {
            bbr_probe_rtt_cwnd_gain: Some(third_value),
            ..before.quic
        }),
        fourth_built.quic == (QuicSettings {
            bbr_rtprop_filter_len: Some(fourth_value),
            ..before.quic
        }),
        fifth_built.quic == (QuicSettings {
            bbr_probe_bw_cwnd_gain: Some(fifth_value),
            ..before.quic
        }),
        sixth_built.quic == (QuicSettings {
            copa_slow_start_delta: Some(sixth_value),
            ..before.quic
        }),
        seventh_built.quic == (QuicSettings {
            copa_steady_delta: Some(seventh_value),
            ..before.quic
        }),
        eighth_built.quic == (QuicSettings {
            copa_use_standing_rtt: Some(eighth_value),
            ..before.quic
        }),
{
}

/// The times that are set on a transport configuration are those that the engine is configured with,
/// in whole milliseconds as far as 64 bits hold them and each in its own place; no idle timeout is
/// zero; and none of them changes another setting.
pub proof fn law_times_that_are_set_are_used(
    endpoint: EndpointConfig,
    config: TransportConfig,
    tls: TlsSettings,
    server: Option<&ServerConfig>,
    before: EngineConfig,
    time: Duration,
    ms: u64,
    idle: &mut TransportConfig,
    idle_set: &mut TransportConfig,
    idle_built: EngineConfig,
    never: &mut TransportConfig,
    never_set: &mut TransportConfig,
    never_built: EngineConfig,
    handshake: &mut TransportConfig,
    handshake_set: &mut TransportConfig,
    handshake_built: EngineConfig,
    rtt: &mut TransportConfig,
    rtt_set: &mut TransportConfig,
    rtt_built: EngineConfig,
)
    requires
        call_ensures(build_tquic_config, (&endpoint, &config, tls, server), before),
        call_ensures(Duration::as_millis_u64, (&time,), ms),
        *old(idle) == config,
        call_ensures(TransportConfig::max_idle_timeout, (idle, Some(time)), idle_set),
        *final(idle_set) == *old(idle_set),
        call_ensures(build_tquic_config, (&endpoint, &*final(idle), tls, server), idle_built),
        *old(never) == config,
        call_ensures(TransportConfig::max_idle_timeout, (never, None::<Duration>), never_set),
        *final(never_set) == *old(never_set),
        call_ensures(build_tquic_config, (&endpoint, &*final(never), tls, server), never_built),
        *old(handshake) == config,
        call_ensures(
            TransportConfig::max_handshake_timeout,
            (handshake, Some(time)),
            handshake_set,
        ),
        *final(handshake_set) == *old(handshake_set),
        call_ensures(
            build_tquic_config,
            (&endpoint, &*final(handshake), tls, server),
            handshake_built,
        ),
        *old(rtt) == config,
        call_ensures(TransportConfig::initial_rtt, (rtt, time), rtt_set),
        *final(rtt_set) == *old(rtt_set),
        call_ensures(build_tquic_config, (&endpoint, &*final(rtt), tls, server), rtt_built),
    ensures
        time@ / 1_000_000 <= u64::MAX ==> ms == time@ / 1_000_000,
        idle_built.quic == (QuicSettings { max_idle_timeout: ms, ..before.quic }),
        never_built.quic == (QuicSettings { max_idle_timeout: 0, ..before.quic }),
        handshake_built.quic == (QuicSettings { max_handshake_timeout: Some(ms), ..before.quic }),
        rtt_built.quic == (QuicSettings { initial_rtt: Some(ms), ..before.quic }),
{
}

/// What is set on a server configuration is what its TLS settings and its engine configuration have.
pub proof fn law_server_settings_that_are_set_are_used(
    cert_file: String,
    key_file: String,
    protocols: Vec<Vec<u8>>,
    config: ServerConfig,
    endpoint: EndpointConfig,
    carried: &mut ServerConfig,
    carried_set: &mut ServerConfig,
    transport: Arc<TransportConfig>,
    early: &mut ServerConfig,
    early_set: &mut ServerConfig,
    early_on: bool,
    early_tls: TlsSettings,
    retry: &mut ServerConfig,
    retry_set: &mut ServerConfig,
    retry_on: bool,
    retry_tls: TlsSettings,
    retry_built: EngineConfig,
)
    requires
        call_ensures(ServerConfig::new, (cert_file, key_file, protocols), config),
        *old(carried) == config,
        call_ensures(ServerConfig::transport_config, (carried, transport), carried_set),
        *final(carried_set) == *old(carried_set),
        *old(early) == config,
        call_ensures(ServerConfig::enable_early_data, (early, early_on), early_set),
        *final(early_set) == *old(early_set),
        call_ensures(build_server_tls_config, (&*final(early),), early_tls),
        *old(retry) == config,
        call_ensures(ServerConfig::enable_retry, (retry, retry_on), retry_set),
        *final(retry_set) == *old(retry_set),
        call_ensures(build_server_tls_config, (&*final(retry),), retry_tls),
        call_ensures(
            build_tquic_config,
            (&endpoint, &*final(retry).transport, retry_tls, Some(&*final(retry))),
            retry_built,
        ),
    ensures
        final(carried).transport == transport,
        early_tls matches TlsSettings::Server {
            cert_file: cert,
            key_file: key,
            alpn_protocols,
            early_data,
        } && cert@ == cert_file@ && key@ == key_file@ && alpn_protocols.deep_view()
            == protocols.deep_view() && early_data == early_on,
        retry_tls matches TlsSettings::Server {
            cert_file: cert,
            key_file: key,
            alpn_protocols,
            early_data,
        } && cert@ == cert_file@ && key@ == key_file@ && alpn_protocols.deep_view()
            == protocols.deep_view() && !early_data,
        retry_built.quic.enable_retry == Some(retry_on),
{
}

/// What is set on a client configuration is what its TLS settings have; without settings, the
/// server's certificate is verified and no early data is sent.
pub proof fn law_client_settings_that_are_set_are_used(
    protocols: Vec<Vec<u8>>,
    config: ClientConfig,
    plain_tls: TlsSettings,
    carried: &mut ClientConfig,
    carried_set: &mut ClientConfig,
    transport: Arc<TransportConfig>,
    early: &mut ClientConfig,
    early_set: &mut ClientConfig,
    early_on: bool,
    early_tls: TlsSettings,
    verified: &mut ClientConfig,
    verified_set: &mut ClientConfig,
    verify_on: bool,
    verified_tls: TlsSettings,
    certified: &mut ClientConfig,
    certified_set: &mut ClientConfig,
    path: String,
    certified_tls: TlsSettings,
)
    requires
        call_ensures(ClientConfig::new, (protocols,), config),
        call_ensures(build_client_tls_config, (&config,), plain_tls),
        *old(carried) == config,
        call_ensures(ClientConfig::transport_config, (carried, transport), carried_set),
        *final(carried_set) == *old(carried_set),
        *old(early) == config,
        call_ensures(ClientConfig::enable_early_data, (early, early_on), early_set),
        *final(early_set) == *old(early_set),
        call_ensures(build_client_tls_config, (&*final(early),), early_tls),
        *old(verified) == config,
        call_ensures(ClientConfig::verify, (verified, verify_on), verified_set),
        *final(verified_set) == *old(verified_set),
        call_ensures(build_client_tls_config, (&*final(verified),), verified_tls),
        *old(certified) == config,
        call_ensures(ClientConfig::ca_certs, (certified, path), certified_set),
        *final(certified_set) == *old(certified_set),
        call_ensures(build_client_tls_config, (&*final(certified),), certified_tls),
    ensures
        plain_tls matches TlsSettings::Client { alpn_protocols, early_data, verify, ca_certs }
            && alpn_protocols.deep_view() == protocols.deep_view() && !early_data && verify
            && ca_certs is None,
        final(carried).transport == transport,
        early_tls matches TlsSettings::Client { alpn_protocols, early_data, verify, ca_certs }
            && alpn_protocols.deep_view() == protocols.deep_view() && early_data == early_on
            && verify && ca_certs is None,
        verified_tls matches TlsSettings::Client { alpn_protocols, early_data, verify, ca_certs }
            && alpn_protocols.deep_view() == protocols.deep_view() && !early_data && verify
            == verify_on && ca_certs is None,
        certified_tls matches TlsSettings::Client { alpn_protocols, early_data, verify, ca_certs }
            && alpn_protocols.deep_view() == protocols.deep_view() && !early_data && verify
            && ca_certs == Some(path),
{
}

} // verus!
