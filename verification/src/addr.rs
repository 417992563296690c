//! Socket addresses and their textual form.
use vstd::prelude::*;
use vstd::string::*;

use crate::text;
use crate::text::{decimal_text, hexadecimal_text};

verus! {

/// The address of a UDP socket.
#[derive(Debug, Clone, Copy, PartialEq, Eq)]
pub enum SocketAddr {
    /// An IPv4 address and a port.
    V4 {
        /// The four octets, most significant first.
        octets: [u8; 4],
        /// The port.
        port: u16,
    },
    /// An IPv6 address and a port.
    V6 {
        /// The eight segments, most significant first.
        segments: [u16; 8],
        /// The port.
        port: u16,
        /// The flow label and traffic class.
        flowinfo: u32,
        /// The scope of a link-local address, zero where there is none.
        scope_id: u32,
    },
}

/// The two ends of a network path.
#[derive(Debug, Clone, Copy, PartialEq, Eq)]
pub struct FourTuple {
    /// The local address.
    pub local: SocketAddr,
    /// The remote address.
    pub remote: SocketAddr,
}

/// Four octets in dotted notation.
pub open spec fn dotted(a: int, b: int, c: int, d: int) -> Seq<char> {
    text::decimal(a as nat) + seq!['.'] + text::decimal(b as nat) + seq!['.'] + text::decimal(
        c as nat,
    ) + seq!['.'] + text::decimal(d as nat)
}

/// Segments in hexadecimal, separated by colons.
pub open spec fn colon_separated(segments: Seq<u16>) -> Seq<char>
    decreases segments.len(),
{
    if segments.len() == 0 {
        seq![]
    } else if segments.len() == 1 {
        text::hexadecimal(segments[0] as nat)
    } else {
        colon_separated(segments.drop_last()) + seq![':'] + text::hexadecimal(
            segments.last() as nat,
        )
    }
}

/// The `len` segments from `start` on are all zero.
pub open spec fn zero_run(segments: Seq<u16>, start: int, len: int) -> bool {
    &&& 0 <= start
    &&& 0 <= len
    &&& start + len <= segments.len()
    &&& forall|i: int| start <= i < start + len ==> segments[i] == 0
}

/// No run of zero segments is longer, and none that is as long starts earlier.
pub open spec fn first_longest_zero_run(segments: Seq<u16>, start: int, len: int) -> bool {
    &&& zero_run(segments, start, len)
    &&& forall|a: int, n: int| #[trigger]
        zero_run(segments, a, n) ==> n < len || (n == len && start <= a)
}

/// An IPv6 address with the run of zeros from `start` on written as two colons,
/// where it is longer than one segment.
pub open spec fn compressed(segments: Seq<u16>, start: int, len: int) -> Seq<char> {
    if len > 1 {
        colon_separated(segments.take(start)) + seq![':', ':'] + colon_separated(
            segments.skip(start + len),
        )
    } else {
        colon_separated(segments)
    }
}

/// The address is an IPv4 address mapped into IPv6.
pub open spec fn is_ipv4_mapped(segments: Seq<u16>) -> bool {
    zero_run(segments, 0, 5) && segments[5] == 0xffff
}

/// The text of an IPv6 address.
pub open spec fn ipv6_text(segments: Seq<u16>) -> Seq<char> {
    if is_ipv4_mapped(segments) {
        "::ffff:"@ + dotted(
            segments[6] as int / 256,
            segments[6] as int % 256,
            segments[7] as int / 256,
            segments[7] as int % 256,
        )
    } else {
        let (start, len) = choose|start: int, len: int|
            first_longest_zero_run(segments, start, len);
        compressed(segments, start, len)
    }
}

/// The text of a socket address: `1.2.3.4:5`, `[::1]:5`, or `[fe80::1%2]:5` with a scope.
pub open spec fn socket_addr_text(addr: SocketAddr) -> Seq<char> {
    match addr {
        SocketAddr::V4 { octets, port } => dotted(
            octets@[0] as int,
            octets@[1] as int,
            octets@[2] as int,
            octets@[3] as int,
        ) + seq![':'] + text::decimal(port as nat),
        SocketAddr::V6 { segments, port, flowinfo: _, scope_id } => {
            let scope = if scope_id == 0 {
                seq![]
            } else {
                seq!['%'] + text::decimal(scope_id as nat)
            };
            seq!['['] + ipv6_text(segments@) + scope + seq![']', ':'] + text::decimal(port as nat)
        },
    }
}

fn dotted_text(a: u8, b: u8, c: u8, d: u8) -> (r: String)
    ensures
        r@ == dotted(a as int, b as int, c as int, d as int),
{
    proof {
        reveal_strlit(".");
    }
    let mut r = decimal_text(a as u64);
    r.append(".");
    r.append(decimal_text(b as u64).as_str());
    r.append(".");
    r.append(decimal_text(c as u64).as_str());
    r.append(".");
    r.append(decimal_text(d as u64).as_str());
    r
}

fn colon_separated_text(segments: &[u16; 8], from: usize, to: usize) -> (r: String)
    requires
        from <= to <= 8,
    ensures
        r@ == colon_separated(segments@.subrange(from as int, to as int)),
{
    proof {
        reveal_strlit(":");
    }
    let mut r = String::new();
    let mut i: usize = from;
    while i < to
        invariant
            from <= i <= to <= 8,
            r@ == colon_separated(segments@.subrange(from as int, i as int)),
            ":"@ == seq![':'],
        decreases to - i,
    {
        if i > from {
            r.append(":");
        }
        r.append(hexadecimal_text(segments[i]).as_str());
        proof {
            let next = segments@.subrange(from as int, i + 1);
            assert(next.drop_last() =~= segments@.subrange(from as int, i as int));
            assert(next.last() == segments@[i as int]);
        }
        i += 1;
    }
    r
}

fn longest_zero_run(segments: &[u16; 8]) -> (r: (usize, usize))
    ensures
        first_longest_zero_run(segments@, r.0 as int, r.1 as int),
        r.0 + r.1 <= 8,
{
    let mut best_start: usize = 0;
    let mut best_len: usize = 0;
    let mut run_start: usize = 0;
    let mut i: usize = 0;
    while i < 8
        invariant
            run_start <= i <= 8,
            best_start + best_len <= i,
            zero_run(segments@, run_start as int, i - run_start),
            run_start > 0 ==> segments@[run_start - 1] != 0,
            zero_run(segments@, best_start as int, best_len as int),
            forall|a: int, n: int| #[trigger]
                zero_run(segments@, a, n) && a + n <= i ==> n < best_len || (n == best_len
                    && best_start <= a),
        decreases 8 - i,
    {
        if segments[i] == 0 {
            let run_len: usize = i + 1 - run_start;
            if run_len > best_len {
                best_start = run_start;
                best_len = run_len;
            }
            assert forall|a: int, n: int| #[trigger]
                zero_run(segments@, a, n) && a + n <= i + 1 implies n < best_len || (n == best_len
                && best_start <= a) by {
                if a + n == i + 1 && n > 0 {
                    assert(zero_run(segments@, a, n - 1));
                    if a < run_start {
                        assert(segments@[run_start - 1] == 0);
                    }
                }
            }
        } else {
            assert forall|a: int, n: int| #[trigger]
                zero_run(segments@, a, n) && a + n <= i + 1 implies n < best_len || (n == best_len
                && best_start <= a) by {
                if a + n == i + 1 && n > 0 {
                    assert(segments@[i as int] == 0);
                }
                if n == 0 && best_len == 0 {
                    assert(zero_run(segments@, 0, 0));
                }
            }
            run_start = i + 1;
        }
        i += 1;
    }
    (best_start, best_len)
}

fn ipv6_address_text(segments: &[u16; 8]) -> (r: String)
    ensures
        r@ == ipv6_text(segments@),
{
    if segments[0] == 0 && segments[1] == 0 && segments[2] == 0 && segments[3] == 0 && segments[4]
        == 0 && segments[5] == 0xffff {
        let low = dotted_text(
            (segments[6] / 256) as u8,
            (segments[6] % 256) as u8,
            (segments[7] / 256) as u8,
            (segments[7] % 256) as u8,
        );
        return text::join("::ffff:", low.as_str());
    }
    proof {
        if is_ipv4_mapped(segments@) {
            assert(segments@[0] == 0 && segments@[1] == 0 && segments@[2] == 0 && segments@[3] == 0
                && segments@[4] == 0);
        }
        reveal_strlit("::");
    }
    let (start, len) = longest_zero_run(segments);
    proof {
        let (s, n) = choose|s: int, n: int| first_longest_zero_run(segments@, s, n);
        assert(first_longest_zero_run(segments@, s, n));
        assert(zero_run(segments@, s, n));
        assert(zero_run(segments@, start as int, len as int));
        assert(s == start && n == len);
    }
    if len > 1 {
        let mut r = colon_separated_text(segments, 0, start);
        r.append("::");
        r.append(colon_separated_text(segments, start + len, 8).as_str());
        proof {
            assert(segments@.take(start as int) =~= segments@.subrange(0, start as int));
            assert(segments@.skip(start + len) =~= segments@.subrange(start + len, 8));
        }
        r
    } else {
        assert(segments@ =~= segments@.subrange(0, 8));
        colon_separated_text(segments, 0, 8)
    }
}

impl SocketAddr {
    /// The address `0.0.0.0:0`, which stands for one that is not known.
    pub fn unspecified() -> (r: Self)
        ensures
            r == unspecified_addr(),
    {
        let r = SocketAddr::V4 { octets: [0, 0, 0, 0], port: 0 };
        assert(r->V4_octets@ =~= unspecified_addr()->V4_octets@);
        r
    }

    /// The textual form of the address.
    pub fn to_string(&self) -> (r: String)
        ensures
            r@ == socket_addr_text(*self),
    {
        proof {
            reveal_strlit(":");
            reveal_strlit("[");
            reveal_strlit("%");
            reveal_strlit("]:");
        }
        match self {
            SocketAddr::V4 { octets, port } => {
                let mut r = dotted_text(octets[0], octets[1], octets[2], octets[3]);
                r.append(":");
                r.append(decimal_text(*port as u64).as_str());
                r
            },
            SocketAddr::V6 { segments, port, flowinfo: _, scope_id } => {
                let mut r = text::join("[", ipv6_address_text(segments).as_str());
                if *scope_id != 0 {
                    r.append("%");
                    r.append(decimal_text(*scope_id as u64).as_str());
                }
                r.append("]:");
                r.append(decimal_text(*port as u64).as_str());
                assert(r@ =~= socket_addr_text(*self));
                r
            },
        }
    }
}

/// The address that stands for one that is not known.
pub open spec fn unspecified_addr() -> SocketAddr {
    SocketAddr::V4 { octets: [0u8, 0u8, 0u8, 0u8], port: 0 }
}

} // verus!
