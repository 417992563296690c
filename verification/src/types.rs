//! Integers, identifiers and directions of the QUIC protocol.
use vstd::prelude::*;

use crate::text;

verus! {

/// The largest value of a QUIC variable-length integer.
pub const VARINT_MAX: u64 = 4_611_686_018_427_387_903;

/// A QUIC variable-length integer.
#[derive(Debug, Clone, Copy, PartialEq, Eq, PartialOrd, Ord, Hash, Structural)]
pub struct VarInt(u64);

impl View for VarInt {
    type V = u64;

    closed spec fn view(&self) -> u64 {
        self.0
    }
}

impl VarInt {
    #[verifier::type_invariant]
    closed spec fn in_range(self) -> bool {
        self.0 <= VARINT_MAX
    }

    /// The largest representable value.
    pub fn max() -> (r: Self)
        ensures
            r@ == VARINT_MAX,
    {
        VarInt(VARINT_MAX)
    }

    /// Construct a `VarInt` from a `u64`, returning `None` if the value is too large.
    pub fn from_u64(v: u64) -> (r: Option<Self>)
        ensures
            r is Some <==> v <= VARINT_MAX,
            r matches Some(x) ==> x@ == v,
    {
        if v <= VARINT_MAX {
            Some(VarInt(v))
        } else {
            None
        }
    }

    /// Extract the integer value.
    pub fn into_inner(self) -> (v: u64)
        ensures
            v == self@,
            v <= VARINT_MAX,
    {
        proof {
            use_type_invariant(self);
        }
        self.0
    }

    /// The integer in base ten.
    pub fn to_string(&self) -> (r: String)
        ensures
            r@ == text::decimal(self@ as nat),
    {
        text::decimal_text(self.0)
    }
}

impl vstd::std_specs::convert::FromSpecImpl<u32> for VarInt {
    open spec fn obeys_from_spec() -> bool {
        true
    }

    closed spec fn from_spec(v: u32) -> Self {
        VarInt(v as u64)
    }
}

impl From<u32> for VarInt {
    fn from(v: u32) -> (r: Self)
        ensures
            r@ == v,
    {
        VarInt(v as u64)
    }
}

impl vstd::std_specs::convert::FromSpecImpl<u16> for VarInt {
    open spec fn obeys_from_spec() -> bool {
        true
    }

    closed spec fn from_spec(v: u16) -> Self {
        VarInt(v as u64)
    }
}

impl From<u16> for VarInt {
    fn from(v: u16) -> (r: Self)
        ensures
            r@ == v,
    {
        VarInt(v as u64)
    }
}

impl vstd::std_specs::convert::FromSpecImpl<u8> for VarInt {
    open spec fn obeys_from_spec() -> bool {
        true
    }

    closed spec fn from_spec(v: u8) -> Self {
        VarInt(v as u64)
    }
}

impl From<u8> for VarInt {
    fn from(v: u8) -> (r: Self)
        ensures
            r@ == v,
    {
        VarInt(v as u64)
    }
}

/// QUIC stream identifier.
#[derive(Debug, Clone, Copy, PartialEq, Eq, PartialOrd, Ord, Hash, Structural)]
pub struct StreamId(u64);

impl View for StreamId {
    type V = u64;

    closed spec fn view(&self) -> u64 {
        self.0
    }
}

impl StreamId {
    /// Extract the raw integer value.
    pub fn into_inner(self) -> (v: u64)
        ensures
            v == self@,
    {
        self.0
    }

    /// Create from a raw integer value.
    pub fn from_raw(v: u64) -> (r: Self)
        ensures
            r@ == v,
    {
        StreamId(v)
    }

    /// The identifier in base ten.
    pub fn to_string(&self) -> (r: String)
        ensures
            r@ == text::decimal(self@ as nat),
    {
        text::decimal_text(self.0)
    }
}

/// Which side of a connection is referenced.
#[derive(Debug, Clone, Copy, PartialEq, Eq, Hash, Structural)]
pub enum Side {
    /// The client side.
    Client,
    /// The server side.
    Server,
}

/// Direction of a stream.
#[derive(Debug, Clone, Copy, PartialEq, Eq, Hash, Structural)]
pub enum Dir {
    /// Bidirectional stream.
    Bi,
    /// Unidirectional stream.
    Uni,
}

/// The side that opened a stream: clients use even identifiers, servers odd ones.
pub open spec fn stream_initiator(stream_id: u64) -> Side {
    if stream_id % 2 == 0 {
        Side::Client
    } else {
        Side::Server
    }
}

/// The direction of a stream: its second lowest bit is set on unidirectional streams.
pub open spec fn stream_dir(stream_id: u64) -> Dir {
    if (stream_id / 2) % 2 == 0 {
        Dir::Bi
    } else {
        Dir::Uni
    }
}

/// The stream was opened by the peer of the given side.
pub open spec fn peer_initiated(stream_id: u64, side: Side) -> bool {
    stream_initiator(stream_id) != side
}

/// What a future can say when it is asked.
#[derive(Debug, PartialEq, Eq)]
pub enum Poll<T> {
    /// The value is there.
    Ready(T),
    /// The value is not there yet.
    Pending,
}

/// What has come back on the channel of a command that was sent.
#[derive(Debug, PartialEq, Eq)]
pub enum Reply<T> {
    /// The answer.
    Ready(T),
    /// The channel was dropped without an answer.
    Dropped,
    /// No answer yet.
    Pending,
}

} // verus!
