//! Errors of connection attempts and of connections.
use vstd::prelude::*;
use vstd::string::*;

use crate::addr;
use crate::addr::SocketAddr;
use crate::buffer::{copy_bytes, same_bytes};
use crate::command;
use crate::engine::{EngineClose, EngineError, EngineErrorKind};
use crate::text;
use crate::text::{decimal_text, join, text_of_reason};

verus! {

/// Errors from initiating a connection.
#[derive(Debug, PartialEq, Eq)]
pub enum ConnectError {
    /// The endpoint has been stopped.
    EndpointStopping,
    /// No more connection IDs are available.
    CidsExhausted,
    /// The DNS name was invalid.
    InvalidDnsName(String),
    /// The remote address is invalid.
    InvalidRemoteAddress(SocketAddr),
    /// No default client configuration has been set.
    NoDefaultClientConfig,
}

impl Clone for ConnectError {
    fn clone(&self) -> (r: Self)
        ensures
            r == *self,
    {
        match self {
            ConnectError::EndpointStopping => ConnectError::EndpointStopping,
            ConnectError::CidsExhausted => ConnectError::CidsExhausted,
            ConnectError::InvalidDnsName(s) => ConnectError::InvalidDnsName(s.clone()),
            ConnectError::InvalidRemoteAddress(a) => ConnectError::InvalidRemoteAddress(*a),
            ConnectError::NoDefaultClientConfig => ConnectError::NoDefaultClientConfig,
        }
    }
}

impl ConnectError {
    /// The message of the error.
    pub open spec fn message(self) -> Seq<char> {
        match self {
            ConnectError::EndpointStopping => "endpoint stopping"@,
            ConnectError::CidsExhausted => "CIDs exhausted"@,
            ConnectError::InvalidDnsName(s) => "invalid DNS name: "@ + s@,
            ConnectError::InvalidRemoteAddress(a) => "invalid remote address: "@
                + addr::socket_addr_text(a),
            ConnectError::NoDefaultClientConfig => "no default client config"@,
        }
    }

    /// The message of the error.
    pub fn to_string(&self) -> (r: String)
        ensures
            r@ == self.message(),
    {
        match self {
            ConnectError::EndpointStopping => "endpoint stopping".to_owned(),
            ConnectError::CidsExhausted => "CIDs exhausted".to_owned(),
            ConnectError::InvalidDnsName(s) => join("invalid DNS name: ", s.as_str()),
            ConnectError::InvalidRemoteAddress(a) => join(
                "invalid remote address: ",
                a.to_string().as_str(),
            ),
            ConnectError::NoDefaultClientConfig => "no default client config".to_owned(),
        }
    }
}

/// Errors indicating a connection was lost.
#[derive(Debug, PartialEq, Eq)]
#[allow(inconsistent_fields)]
pub enum ConnectionError {
    /// The peer doesn't support any compatible QUIC version.
    VersionMismatch,
    /// The peer violated the QUIC specification.
    TransportError {
        /// The QUIC error code.
        code: u64,
        /// Human-readable reason.
        reason: String,
    },
    /// The peer closed the connection.
    ConnectionClosed {
        /// The error code supplied by the peer.
        error_code: u64,
        /// The reason supplied by the peer.
        reason: Vec<u8>,
    },
    /// The peer closed the connection at the application layer.
    ApplicationClosed {
        /// The error code supplied by the peer.
        error_code: u64,
        /// The reason supplied by the peer.
        reason: Vec<u8>,
    },
    /// The connection was reset.
    Reset,
    /// The connection timed out.
    TimedOut,
    /// The connection was closed locally.
    LocallyClosed,
    /// No more connection IDs are available.
    CidsExhausted,
}

/// A [`ConnectionError`] with its texts as sequences.
#[verifier::ext_equal]
#[allow(inconsistent_fields)]
pub enum ConnectionErrorView {
    VersionMismatch,
    TransportError { code: u64, reason: Seq<char> },
    ConnectionClosed { error_code: u64, reason: Seq<u8> },
    ApplicationClosed { error_code: u64, reason: Seq<u8> },
    Reset,
    TimedOut,
    LocallyClosed,
    CidsExhausted,
}

impl View for ConnectionError {
    type V = ConnectionErrorView;

    open spec fn view(&self) -> ConnectionErrorView {
        match self {
            ConnectionError::VersionMismatch => ConnectionErrorView::VersionMismatch,
            ConnectionError::TransportError { code, reason } => ConnectionErrorView::TransportError {
                code: *code,
                reason: reason@,
            },
            ConnectionError::ConnectionClosed { error_code, reason } =>
                ConnectionErrorView::ConnectionClosed { error_code: *error_code, reason: reason@ },
            ConnectionError::ApplicationClosed { error_code, reason } =>
                ConnectionErrorView::ApplicationClosed { error_code: *error_code, reason: reason@ },
            ConnectionError::Reset => ConnectionErrorView::Reset,
            ConnectionError::TimedOut => ConnectionErrorView::TimedOut,
            ConnectionError::LocallyClosed => ConnectionErrorView::LocallyClosed,
            ConnectionError::CidsExhausted => ConnectionErrorView::CidsExhausted,
        }
    }
}

impl Clone for ConnectionError {
    fn clone(&self) -> (r: Self)
        ensures
            r@ == self@,
    {
        match self {
            ConnectionError::VersionMismatch => ConnectionError::VersionMismatch,
            ConnectionError::TransportError { code, reason } => ConnectionError::TransportError {
                code: *code,
                reason: reason.clone(),
            },
            ConnectionError::ConnectionClosed { error_code, reason } =>
                ConnectionError::ConnectionClosed {
                    error_code: *error_code,
                    reason: copy_bytes(reason.as_slice()),
                },
            ConnectionError::ApplicationClosed { error_code, reason } =>
                ConnectionError::ApplicationClosed {
                    error_code: *error_code,
                    reason: copy_bytes(reason.as_slice()),
                },
            ConnectionError::Reset => ConnectionError::Reset,
            ConnectionError::TimedOut => ConnectionError::TimedOut,
            ConnectionError::LocallyClosed => ConnectionError::LocallyClosed,
            ConnectionError::CidsExhausted => ConnectionError::CidsExhausted,
        }
    }
}

/// The error, if any, with its texts as sequences.
pub open spec fn error_view(error: Option<ConnectionError>) -> Option<ConnectionErrorView> {
    match error {
        Some(e) => Some(e@),
        None => None,
    }
}

/// The error that a CONNECTION_CLOSE frame stands for.
pub open spec fn close_error(close: EngineClose) -> ConnectionErrorView {
    if close.is_app {
        ConnectionErrorView::ApplicationClosed {
            error_code: close.error_code,
            reason: close.reason@,
        }
    } else {
        ConnectionErrorView::ConnectionClosed {
            error_code: close.error_code,
            reason: close.reason@,
        }
    }
}

/// The close is the one that refuses a connection.
pub open spec fn is_refusal(close: EngineClose) -> bool {
    &&& !close.is_app
    &&& close.error_code == command::REFUSED_CODE
    &&& close.reason@ == command::REFUSED_REASON@
}

/// The error that a CONNECTION_CLOSE frame of this side stands for: that the connection was closed
/// locally where the application has asked for it, and elsewhere what the engine found wrong.
pub open spec fn local_close_error(close: EngineClose) -> ConnectionErrorView {
    if close.is_app || is_refusal(close) {
        ConnectionErrorView::LocallyClosed
    } else {
        ConnectionErrorView::TransportError {
            code: close.error_code,
            reason: text::reason_text(close.reason@),
        }
    }
}

/// The error that an engine error stands for.
pub open spec fn engine_error(err: EngineError) -> ConnectionErrorView {
    match err.kind {
        EngineErrorKind::ConnectionRefused => ConnectionErrorView::ConnectionClosed {
            error_code: 0x02,
            reason: CONNECTION_REFUSED@,
        },
        EngineErrorKind::NoViablePath => ConnectionErrorView::TimedOut,
        EngineErrorKind::ConnectionIdLimitError => ConnectionErrorView::CidsExhausted,
        EngineErrorKind::UnknownVersion => ConnectionErrorView::VersionMismatch,
        _ => ConnectionErrorView::TransportError { code: 0, reason: err.text@ },
    }
}

/// The error of a connection whose attempt failed.
pub open spec fn connect_error(err: ConnectError) -> ConnectionErrorView {
    match err {
        ConnectError::EndpointStopping => ConnectionErrorView::LocallyClosed,
        ConnectError::CidsExhausted => ConnectionErrorView::CidsExhausted,
        ConnectError::InvalidDnsName(s) => ConnectionErrorView::TransportError {
            code: 0,
            reason: s@,
        },
        ConnectError::InvalidRemoteAddress(_) => ConnectionErrorView::TransportError {
            code: 0,
            reason: err.message(),
        },
        ConnectError::NoDefaultClientConfig => ConnectionErrorView::TransportError {
            code: 0,
            reason: "no default client config"@,
        },
    }
}

/// The bytes of the text `connection refused`.
pub const CONNECTION_REFUSED: [u8; 18] = [
    99, 111, 110, 110, 101, 99, 116, 105, 111, 110, 32, 114, 101, 102, 117, 115, 101, 100,
];

impl ConnectionError {
    /// Create a `ConnectionError` from the contents of a CONNECTION_CLOSE frame.
    pub fn from_tquic_conn_error(err: &EngineClose) -> (r: Self)
        ensures
            r@ == close_error(*err),
    {
        if err.is_app {
            ConnectionError::ApplicationClosed {
                error_code: err.error_code,
                reason: copy_bytes(err.reason.as_slice()),
            }
        } else {
            ConnectionError::ConnectionClosed {
                error_code: err.error_code,
                reason: copy_bytes(err.reason.as_slice()),
            }
        }
    }

    /// Create a `ConnectionError` from the contents of a CONNECTION_CLOSE frame of this side.
    pub fn from_local_close(err: &EngineClose) -> (r: Self)
        ensures
            r@ == local_close_error(*err),
    {
        let refused = !err.is_app && err.error_code == command::REFUSED_CODE && same_bytes(
            err.reason.as_slice(),
            &command::REFUSED_REASON,
        );
        if err.is_app || refused {
            ConnectionError::LocallyClosed
        } else {
            ConnectionError::TransportError {
                code: err.error_code,
                reason: text_of_reason(copy_bytes(err.reason.as_slice())),
            }
        }
    }

    /// Create a `ConnectionError` from an engine error.
    pub fn from_tquic_error(err: &EngineError) -> (r: Self)
        ensures
            r@ == engine_error(*err),
    {
        match &err.kind {
            EngineErrorKind::ConnectionRefused => ConnectionError::ConnectionClosed {
                error_code: 0x02,
                reason: copy_bytes(&CONNECTION_REFUSED),
            },
            EngineErrorKind::NoViablePath => ConnectionError::TimedOut,
            EngineErrorKind::ConnectionIdLimitError => ConnectionError::CidsExhausted,
            EngineErrorKind::UnknownVersion => ConnectionError::VersionMismatch,
            _ => ConnectionError::TransportError { code: 0, reason: err.text.clone() },
        }
    }

    /// Convert a `ConnectError` into a `ConnectionError`.
    pub fn from_connect_error(err: ConnectError) -> (r: Self)
        ensures
            r@ == connect_error(err),
    {
        match err {
            ConnectError::EndpointStopping => ConnectionError::LocallyClosed,
            ConnectError::CidsExhausted => ConnectionError::CidsExhausted,
            ConnectError::InvalidDnsName(s) => ConnectionError::TransportError {
                code: 0,
                reason: s,
            },
            ConnectError::InvalidRemoteAddress(a) => ConnectionError::TransportError {
                code: 0,
                reason: join("invalid remote address: ", a.to_string().as_str()),
            },
            ConnectError::NoDefaultClientConfig => ConnectionError::TransportError {
                code: 0,
                reason: "no default client config".to_owned(),
            },
        }
    }

    /// The message of the error.
    pub fn to_string(&self) -> (r: String)
        ensures
            r@ == self@.message(),
    {
        match self {
            ConnectionError::VersionMismatch => "version mismatch".to_owned(),
            ConnectionError::TransportError { code, reason } => {
                let mut r = join("transport error: code ", decimal_text(*code).as_str());
                r.append(", ");
                r.append(reason.as_str());
                r
            },
            ConnectionError::ConnectionClosed { error_code, reason: _ } => join(
                "connection closed by peer: error ",
                decimal_text(*error_code).as_str(),
            ),
            ConnectionError::ApplicationClosed { error_code, reason: _ } => join(
                "application closed: error ",
                decimal_text(*error_code).as_str(),
            ),
            ConnectionError::Reset => "reset by peer".to_owned(),
            ConnectionError::TimedOut => "timed out".to_owned(),
            ConnectionError::LocallyClosed => "locally closed".to_owned(),
            ConnectionError::CidsExhausted => "CIDs exhausted".to_owned(),
        }
    }
}

impl ConnectionErrorView {
    /// The message of the error.
    pub open spec fn message(self) -> Seq<char> {
        match self {
            ConnectionErrorView::VersionMismatch => "version mismatch"@,
            ConnectionErrorView::TransportError { code, reason } => "transport error: code "@
                + text::decimal(code as nat) + ", "@ + reason,
            ConnectionErrorView::ConnectionClosed { error_code, reason: _ } =>
                "connection closed by peer: error "@ + text::decimal(error_code as nat),
            ConnectionErrorView::ApplicationClosed { error_code, reason: _ } =>
                "application closed: error "@ + text::decimal(error_code as nat),
            ConnectionErrorView::Reset => "reset by peer"@,
            ConnectionErrorView::TimedOut => "timed out"@,
            ConnectionErrorView::LocallyClosed => "locally closed"@,
            ConnectionErrorView::CidsExhausted => "CIDs exhausted"@,
        }
    }
}

} // verus!
