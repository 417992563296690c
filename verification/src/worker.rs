//! The bridge thread: how it starts, what it does with each event, and how it sends packets.
use vstd::prelude::*;
use vstd::string::*;

use crate::addr::SocketAddr;
use crate::bridge::{BridgeHandle, BridgeTransportHandler, BridgeView};
use crate::command;
use crate::command::{BridgeCommand, BridgeWorker, EngineCall};
use crate::config;
use crate::config::{
    build_client_tls_config, build_server_tls_config, build_tquic_config, ClientConfig,
    EndpointConfig, EngineConfig, ServerConfig, TlsSettings, TransportConfig,
};
use crate::text::join;
use crate::time::Duration;

verus! {

// ---------------------------------------------------------------------------
// Start
// ---------------------------------------------------------------------------

/// A bridge to be spawned.
pub struct Bridge {
    /// The address to bind to.
    pub bind_addr: SocketAddr,
    /// The endpoint's configuration.
    pub endpoint_config: EndpointConfig,
    /// The server configuration, if the endpoint is a server.
    pub server_config: Option<ServerConfig>,
    /// The configuration of connections that bring none of their own.
    pub default_client_config: Option<ClientConfig>,
}

/// What a bridge thread works with.
pub struct BridgeSetup {
    /// The engine's configuration.
    pub engine_config: EngineConfig,
    /// Whether the endpoint is a server.
    pub is_server: bool,
    /// The handler of the engine's events.
    pub handler: BridgeTransportHandler,
    /// What the thread keeps between commands.
    pub worker: BridgeWorker,
}

/// How the bridge thread reported that it has started.
#[derive(Debug)]
pub enum Startup {
    /// It is ready.
    Ready,
    /// It failed, with this message.
    Failed(String),
    /// It ended without a word.
    Died,
}

/// The transport configuration that an endpoint starts with: the server's, or else that of its
/// outgoing connections, or else the default one.
pub open spec fn is_transport_of(transport: TransportConfig, bridge: Bridge) -> bool {
    match (bridge.server_config, bridge.default_client_config) {
        (Some(sc), _) => transport == *sc.transport,
        (None, Some(cc)) => transport == *cc.transport,
        (None, None) => config::is_default_transport(transport),
    }
}

/// The TLS settings that an endpoint starts with.
pub open spec fn is_tls_of(tls: TlsSettings, bridge: Bridge) -> bool {
    match (bridge.server_config, bridge.default_client_config) {
        (Some(sc), _) => config::is_server_tls(tls, sc),
        (None, Some(cc)) => config::is_client_tls(tls, cc),
        (None, None) => tls is Bare,
    }
}

/// The setup is the one of a bridge whose endpoint is bound to an address.
pub open spec fn is_setup_of(setup: BridgeSetup, bridge: Bridge, local_addr: SocketAddr) -> bool {
    &&& is_tls_of(setup.engine_config.tls, bridge)
    &&& exists|transport: TransportConfig| #[trigger]
        is_transport_of(transport, bridge) && setup.engine_config.quic == config::quic_settings(
            bridge.endpoint_config,
            transport,
            match bridge.server_config {
                Some(sc) => Some(sc.enable_retry),
                None => None,
            },
        )
    &&& setup.is_server == (bridge.server_config is Some)
    &&& setup.handler == (BridgeTransportHandler {
        is_server: bridge.server_config is Some,
        retry: bridge.server_config matches Some(sc) && sc.enable_retry,
    })
    &&& setup.worker == (BridgeWorker {
        endpoint_config: bridge.endpoint_config,
        current_client_config: bridge.default_client_config,
        local_addr,
    })
}

impl Bridge {
    /// What the bridge thread works with, once the endpoint is bound to an address.
    pub fn setup(self, local_addr: SocketAddr) -> (r: BridgeSetup)
        ensures
            is_setup_of(r, self, local_addr),
    {
        let transport: TransportConfig = match &self.server_config {
            Some(sc) => *sc.transport,
            None => match &self.default_client_config {
                Some(cc) => *cc.transport,
                None => TransportConfig::default(),
            },
        };
        let tls = match &self.server_config {
            Some(sc) => build_server_tls_config(sc),
            None => match &self.default_client_config {
                Some(cc) => build_client_tls_config(cc),
                None => TlsSettings::Bare,
            },
        };
        assert(is_transport_of(transport, self));
        let engine_config = build_tquic_config(
            &self.endpoint_config,
            &transport,
            tls,
            self.server_config.as_ref(),
        );
        let is_server = self.server_config.is_some();
        let retry = match &self.server_config {
            Some(sc) => sc.enable_retry,
            None => false,
        };
        BridgeSetup {
            engine_config,
            is_server,
            handler: BridgeTransportHandler { is_server, retry },
            worker: BridgeWorker {
                endpoint_config: self.endpoint_config,
                current_client_config: self.default_client_config,
                local_addr,
            },
        }
    }

    /// Whether the bridge has started, or the message of the error if not.
    pub fn started(startup: Startup) -> (r: Result<(), String>)
        ensures
            match startup {
                Startup::Ready => r is Ok,
                Startup::Failed(message) => r == Err::<(), String>(message),
                Startup::Died => r matches Err(message) && message@
                    == "bridge thread died during startup"@,
            },
    {
        match startup {
            Startup::Ready => Ok(()),
            Startup::Failed(message) => Err(message),
            Startup::Died => Err("bridge thread died during startup".to_owned()),
        }
    }
}

// ---------------------------------------------------------------------------
// The event loop
// ---------------------------------------------------------------------------

/// What has happened on the bridge thread.
pub enum LoopEvent {
    /// A packet was received.
    Packet {
        /// Its length.
        len: usize,
        /// Who sent it.
        peer: SocketAddr,
    },
    /// The socket failed to receive.
    ReceiveError,
    /// A command has come.
    Command(BridgeCommand),
    /// There will be no more commands.
    CommandsEnded,
    /// The engine's time is up.
    Timeout,
    /// There is no socket any more.
    NoSocket,
}

/// What the bridge thread does next.
pub enum LoopStep {
    /// Hand the packet to the engine, then let the engine process its connections.
    Receive {
        /// The packet's length.
        len: usize,
        /// Who sent it.
        src: SocketAddr,
        /// Who received it.
        dst: SocketAddr,
    },
    /// Make the engine call, then let the engine process its connections.
    Call(EngineCall),
    /// Tell the engine that its time is up, then let it process its connections.
    OnTimeout,
    /// Let the engine process its connections.
    Process,
    /// Close the engine, by force if the flag says so, let it process its connections, and end.
    Stop {
        /// Whether the engine is closed without waiting for its connections.
        force: bool,
    },
}

/// The step that an event brings on.
pub open spec fn is_step_for(
    step: LoopStep,
    event: LoopEvent,
    worker: BridgeWorker,
    state: BridgeView,
) -> bool {
    match event {
        LoopEvent::Packet { len, peer } => step == (LoopStep::Receive {
            len,
            src: peer,
            dst: worker.local_addr,
        }),
        LoopEvent::ReceiveError => step is Process,
        LoopEvent::Command(cmd) => step matches LoopStep::Call(call) && command::is_call_for(
            call,
            cmd,
            worker,
            state,
        ),
        LoopEvent::CommandsEnded => step == (LoopStep::Stop { force: true }),
        LoopEvent::Timeout => step is OnTimeout,
        LoopEvent::NoSocket => step == (LoopStep::Stop { force: true }),
    }
}

impl BridgeWorker {
    /// Takes an event: updates what the bridge keeps, and says what is to be done.
    pub fn on_event(&mut self, handle: &mut BridgeHandle, event: LoopEvent) -> (step: LoopStep)
        ensures
            is_step_for(step, event, *old(self), old(handle)@),
            *final(self) == (BridgeWorker {
                current_client_config: match event {
                    LoopEvent::Command(BridgeCommand::SetDefaultClientConfig { config }) => Some(
                        config,
                    ),
                    _ => old(self).current_client_config,
                },
                ..*old(self)
            }),
            final(handle)@ == (BridgeView {
                endpoint_closed: old(handle)@.endpoint_closed || (event matches LoopEvent::Command(
                    cmd,
                ) && cmd is CloseEndpoint),
                ..old(handle)@
            }),
    {
        match event {
            LoopEvent::Packet { len, peer } => LoopStep::Receive {
                len,
                src: peer,
                dst: self.local_addr,
            },
            LoopEvent::ReceiveError => LoopStep::Process,
            LoopEvent::Command(cmd) => LoopStep::Call(self.process_command(handle, cmd)),
            LoopEvent::CommandsEnded => LoopStep::Stop { force: true },
            LoopEvent::Timeout => LoopStep::OnTimeout,
            LoopEvent::NoSocket => LoopStep::Stop { force: true },
        }
    }

    /// How long to wait for an event: until the engine's timeout, or 100 milliseconds where it
    /// has none.
    pub fn timeout(engine: Option<Duration>) -> (r: Duration)
        ensures
            match engine {
                Some(d) => r == d,
                None => r@ == 100_000_000,
            },
    {
        match engine {
            Some(d) => d,
            None => Duration::from_millis(100),
        }
    }
}

// ---------------------------------------------------------------------------
// Sending packets
// ---------------------------------------------------------------------------

/// What the socket made of a packet.
#[derive(Debug)]
pub enum SendOutcome {
    /// It was sent.
    Sent,
    /// The socket has no room for it now.
    WouldBlock,
    /// The socket failed, with this description.
    Failed(String),
}

/// Why a batch of packets could not be sent.
#[derive(Debug)]
pub enum SendFailure {
    /// There is no socket.
    NoSocket,
    /// The socket failed, with this message.
    Io(String),
}

/// A batch of packets on its way to the socket, one by one and in order.
#[derive(Debug)]
pub struct PacketSender {
    packets: usize,
    count: usize,
    blocked: bool,
}

/// The state of a [`PacketSender`].
#[verifier::ext_equal]
pub struct PacketSenderView {
    /// How many packets there are.
    pub packets: nat,
    /// How many have been sent.
    pub count: nat,
    /// The socket has no room.
    pub blocked: bool,
}

impl View for PacketSender {
    type V = PacketSenderView;

    closed spec fn view(&self) -> PacketSenderView {
        PacketSenderView {
            packets: self.packets as nat,
            count: self.count as nat,
            blocked: self.blocked,
        }
    }
}

impl PacketSenderView {
    /// There is another packet to send.
    pub open spec fn busy(self) -> bool {
        self.count < self.packets && !self.blocked
    }

    /// The state once one more packet has been sent.
    pub open spec fn sent(self) -> PacketSenderView {
        PacketSenderView { count: self.count + 1, ..self }
    }

    /// The state once the socket has no room.
    pub open spec fn blocked(self) -> PacketSenderView {
        PacketSenderView { blocked: true, ..self }
    }
}

impl PacketSender {
    /// Starts to send a number of packets.
    pub fn on_packets_send(socket: bool, packets: usize) -> (r: Result<Self, SendFailure>)
        ensures
            if socket {
                r matches Ok(s) && s@ == (PacketSenderView {
                    packets: packets as nat,
                    count: 0,
                    blocked: false,
                })
            } else {
                r == Err::<Self, SendFailure>(SendFailure::NoSocket)
            },
    {
        if !socket {
            return Err(SendFailure::NoSocket);
        }
        Ok(PacketSender { packets, count: 0, blocked: false })
    }

    /// The number of the packet to be sent next; `None` when the batch is over.
    pub fn next(&self) -> (r: Option<usize>)
        ensures
            if self@.busy() {
                r matches Some(i) && i == self@.count
            } else {
                r is None
            },
    {
        if self.count < self.packets && !self.blocked {
            Some(self.count)
        } else {
            None
        }
    }

    /// Goes on with what the socket made of that packet. An error ends the batch.
    pub fn on_outcome(&mut self, outcome: SendOutcome) -> (r: Result<(), SendFailure>)
        requires
            old(self)@.busy(),
        ensures
            match outcome {
                SendOutcome::Sent => r is Ok && final(self)@ == old(self)@.sent(),
                SendOutcome::WouldBlock => r is Ok && final(self)@ == old(self)@.blocked(),
                SendOutcome::Failed(description) => {
                    &&& r matches Err(SendFailure::Io(message))
                    &&& message@ == "send_to: "@ + description@
                    &&& final(self)@ == old(self)@
                },
            },
    {
        match outcome {
            SendOutcome::Sent => {
                self.count = self.count + 1;
                Ok(())
            },
            SendOutcome::WouldBlock => {
                self.blocked = true;
                Ok(())
            },
            SendOutcome::Failed(description) => Err(
                SendFailure::Io(join("send_to: ", description.as_str())),
            ),
        }
    }

    /// How many packets were sent.
    pub fn count(&self) -> (r: usize)
        ensures
            r == self@.count,
    {
        self.count
    }
}

} // verus!
