//! Engine-specific extensions.
pub mod config;
pub mod connection;

pub use config::TransportConfigExt;
pub use connection::ConnectionExt;
