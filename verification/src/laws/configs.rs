//! What the configurations come to at the engine, from the arguments and results of the functions
//! that build and use them.
use vstd::prelude::*;

use crate::addr::SocketAddr;
use crate::config::{
    build_tquic_config, ClientConfig, EndpointConfig, EngineConfig, ServerConfig, TlsSettings,
    TransportConfig,
};
use crate::endpoint::Endpoint;
use crate::time::Duration;
use crate::worker::{Bridge, BridgeSetup, Startup};

verus! {

/// An endpoint that is started has the connection ID length, stateless reset, reset token key,
/// address token lifetime and batch size that its configuration says, whatever else it is
/// configured with, and keeps that configuration for the connections that it starts. Its transport
/// settings are those of its server configuration, or else the default ones.
pub proof fn law_endpoint_starts_with_its_settings(
    config: EndpointConfig,
    server: Option<ServerConfig>,
    bind: SocketAddr,
    bridge: Bridge,
    bound: SocketAddr,
    setup: BridgeSetup,
    plain: TransportConfig,
    tls: TlsSettings,
    built: EngineConfig,
)
    requires
        call_ensures(Endpoint::new, (config, server, bind), bridge),
        call_ensures(Bridge::setup, (bridge, bound), setup),
        call_ensures(TransportConfig::new, (), plain),
        server matches Some(sc) ==> call_ensures(
            build_tquic_config,
            (&config, &*sc.transport, tls, Some(&sc)),
            built,
        ),
        server is None ==> call_ensures(
            build_tquic_config,
            (&config, &plain, tls, None::<&ServerConfig>),
            built,
        ),
    ensures
        setup.engine_config.quic == built.quic,
        bridge.bind_addr == bind,
        setup.engine_config.quic.cid_len == config.cid_len,
        setup.engine_config.quic.stateless_reset == config.stateless_reset,
        setup.engine_config.quic.reset_token_key == config.reset_token_key,
        setup.engine_config.quic.address_token_lifetime == config.address_token_lifetime,
        setup.engine_config.quic.send_batch_size == config.send_batch_size,
        setup.worker.endpoint_config == config,
        setup.worker.local_addr == bound,
        setup.worker.current_client_config is None,
        setup.is_server <==> server is Some,
        setup.handler.is_server <==> server is Some,
        setup.handler.retry <==> (server matches Some(sc) && sc.enable_retry),
        server matches Some(sc) ==> setup.engine_config.quic.enable_retry == Some(sc.enable_retry),
        server is None ==> setup.engine_config.quic.enable_retry is None,
{
}

/// A server is started with the TLS settings of its configuration, and with the transport settings
/// of its configuration, as an engine configuration built from them has them.
pub proof fn law_server_starts_with_its_config(
    config: ServerConfig,
    bind: SocketAddr,
    bridge: Bridge,
    bound: SocketAddr,
    setup: BridgeSetup,
    endpoint: EndpointConfig,
    tls: TlsSettings,
    built: EngineConfig,
)
    requires
        call_ensures(Endpoint::server, (config, bind), bridge),
        call_ensures(Bridge::setup, (bridge, bound), setup),
        call_ensures(EndpointConfig::new, (), endpoint),
        call_ensures(
            build_tquic_config,
            (&endpoint, &*config.transport, tls, Some(&config)),
            built,
        ),
    ensures
        bridge.bind_addr == bind,
        setup.is_server,
        setup.handler.is_server,
        setup.handler.retry == config.enable_retry,
        setup.worker.endpoint_config == endpoint,
        setup.worker.local_addr == bound,
        setup.engine_config.quic == built.quic,
        setup.engine_config.tls matches TlsSettings::Server {
            cert_file,
            key_file,
            alpn_protocols,
            early_data,
        } && cert_file@ == config.cert_file@ && key_file@ == config.key_file@
            && alpn_protocols.deep_view() == config.alpn_protocols.deep_view() && early_data
            == config.enable_early_data,
{
}

/// A client is started with no certificates, no protocols, and the default settings.
pub proof fn law_client_starts_with_the_defaults(
    bind: SocketAddr,
    bridge: Bridge,
    bound: SocketAddr,
    setup: BridgeSetup,
    endpoint: EndpointConfig,
)
    requires
        call_ensures(Endpoint::client, (bind,), bridge),
        call_ensures(Bridge::setup, (bridge, bound), setup),
        call_ensures(EndpointConfig::new, (), endpoint),
    ensures
        bridge.bind_addr == bind,
        !setup.is_server,
        !setup.handler.is_server,
        !setup.handler.retry,
        setup.worker.endpoint_config == endpoint,
        setup.worker.current_client_config is None,
        setup.worker.local_addr == bound,
        setup.engine_config.tls is Bare,
        setup.engine_config.quic.enable_retry is None,
        setup.engine_config.quic.max_idle_timeout == 30_000,
        setup.engine_config.quic.max_handshake_timeout is None,
        setup.engine_config.quic.initial_max_data == 10 * 1024 * 1024,
        setup.engine_config.quic.initial_max_stream_data_bidi_local == 5 * 1024 * 1024,
        setup.engine_config.quic.initial_max_stream_data_bidi_remote == 2 * 1024 * 1024,
        setup.engine_config.quic.initial_max_stream_data_uni == 1024 * 1024,
        setup.engine_config.quic.max_connection_window == 15 * 1024 * 1024,
        setup.engine_config.quic.max_stream_window == 6 * 1024 * 1024,
        setup.engine_config.quic.initial_max_streams_bidi == 200,
        setup.engine_config.quic.initial_max_streams_uni == 100,
        setup.engine_config.quic.enable_dplpmtud,
        setup.engine_config.quic.max_concurrent_conns == 1_000_000,
        setup.engine_config.quic.initial_rtt is None,
{
}

/// An endpoint that serves nobody and has a default client configuration is started with that: its
/// TLS settings, and its transport settings as an engine configuration built from them has them.
pub proof fn law_bridge_starts_with_its_client_config(
    bridge: Bridge,
    config: ClientConfig,
    bound: SocketAddr,
    setup: BridgeSetup,
    tls: TlsSettings,
    built: EngineConfig,
)
    requires
        bridge.server_config is None,
        bridge.default_client_config == Some(config),
        call_ensures(Bridge::setup, (bridge, bound), setup),
        call_ensures(
            build_tquic_config,
            (&bridge.endpoint_config, &*config.transport, tls, None::<&ServerConfig>),
            built,
        ),
    ensures
        !setup.is_server,
        !setup.handler.is_server,
        setup.worker.current_client_config == Some(config),
        setup.engine_config.quic == built.quic,
        setup.engine_config.tls matches TlsSettings::Client {
            alpn_protocols,
            early_data,
            verify,
            ca_certs,
        } && alpn_protocols.deep_view() == config.alpn_protocols.deep_view() && early_data
            == config.enable_early_data && verify == config.verify && ca_certs == config.ca_certs,
{
}

/// A timeout of so many milliseconds, set on a transport configuration, is the one that the engine
/// is configured with, whatever the sides that it is built for; and no idle timeout is zero.
pub proof fn law_timeouts_reach_the_engine(
    ms: u64,
    timeout: Duration,
    endpoint: EndpointConfig,
    transport: TransportConfig,
    tls: TlsSettings,
    server: Option<&ServerConfig>,
    built: EngineConfig,
)
    requires
        call_ensures(Duration::from_millis, (ms,), timeout),
        call_ensures(build_tquic_config, (&endpoint, &transport, tls, server), built),
    ensures
        transport.max_idle_timeout == Some(timeout) ==> built.quic.max_idle_timeout == ms,
        transport.max_idle_timeout is None ==> built.quic.max_idle_timeout == 0,
        transport.max_handshake_timeout == Some(timeout) ==> built.quic.max_handshake_timeout
            == Some(ms),
        transport.initial_rtt == Some(timeout) ==> built.quic.initial_rtt == Some(ms),
{
}

/// A bridge has started if and only if it says that it is ready; what it failed with is what is
/// reported.
pub proof fn law_start_is_reported(startup: Startup, r: Result<(), String>)
    requires
        call_ensures(Bridge::started, (startup,), r),
    ensures
        r is Ok <==> startup is Ready,
        startup matches Startup::Failed(why) ==> r == Err::<(), String>(why),
{
}

} // verus!
