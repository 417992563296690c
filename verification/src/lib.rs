//! The core of an async QUIC API over a callback-driven QUIC engine.
//!
//! An endpoint's engine lives on a thread of its own, the bridge thread. Async code talks to it in
//! commands, and the engine talks back in events. This crate holds everything in between that
//! decides or computes: the state that the two sides share ([`bridge`]), what each command asks of
//! the engine and what the engine's answers come to ([`command`]), what the bridge thread does
//! ([`worker`]), and each operation of the public API as a series of steps ([`endpoint`],
//! [`incoming`], [`connection`], [`send_stream`], [`recv_stream`]). It opens no socket, starts no
//! thread and waits for nothing: each function takes plain values and yields plain values, and
//! its contract says which. What holds over any number of steps stands in [`laws`].
pub mod addr;
pub mod bridge;
pub mod buffer;
pub mod command;
pub mod config;
pub mod connection;
pub mod endpoint;
pub mod engine;
pub mod error;
pub mod ext;
pub mod incoming;
pub mod laws;
pub mod recv_stream;
pub mod registry;
pub mod send_stream;
pub mod text;
pub mod time;
pub mod types;
pub mod worker;

pub use config::{ClientConfig, EndpointConfig, ServerConfig, TransportConfig};
pub use connection::{
    AcceptBi, AcceptUni, Connecting, Connection, OpenBi, OpenUni, ReadDatagram, SendDatagram,
    SendDatagramError, ZeroRttAccepted,
};
pub use endpoint::{Accept, Endpoint, EndpointStats};
pub use error::{ConnectError, ConnectionError};
pub use incoming::{Incoming, IncomingFuture, RetryError};
pub use recv_stream::{ReadError, ReadExactError, ReadToEndError, RecvStream, ResetError};
pub use send_stream::{ClosedStream, SendStream, StoppedError, WriteError};
pub use types::{Dir, Side, StreamId, VarInt};
