//! What numbers, times and addresses come to, from the arguments and results of the
//! functions that make them and write them out.
use vstd::prelude::*;

use crate::addr;
use crate::addr::SocketAddr;
use crate::text;
use crate::text::{byte_list_text, byte_lists_text, decimal_text, hexadecimal_text};
use crate::time::Duration;
use crate::types::{StreamId, VarInt};

verus! {

// ---------------------------------------------------------------------------
// Numbers
// ---------------------------------------------------------------------------

/// A number that a variable-length integer can hold, which is one below two to the power of 62, comes
/// back as it was; any other is refused.
pub proof fn law_variable_length_integer_keeps_its_number(
    v: u64,
    made: Option<VarInt>,
    back: u64,
    most: VarInt,
    most_back: u64,
)
    requires
        call_ensures(VarInt::from_u64, (v,), made),
        made matches Some(x) ==> call_ensures(VarInt::into_inner, (x,), back),
        call_ensures(VarInt::max, (), most),
        call_ensures(VarInt::into_inner, (most,), most_back),
    ensures
        made is Some <==> v < 0x4000_0000_0000_0000,
        made is Some ==> back == v,
        most_back == 0x4000_0000_0000_0000 - 1,
{
}

/// Every smaller integer is a variable-length integer, and comes back as it was.
pub proof fn law_small_integers_are_kept(
    a: u32,
    b: u16,
    c: u8,
    from_a: VarInt,
    from_b: VarInt,
    from_c: VarInt,
    back_a: u64,
    back_b: u64,
    back_c: u64,
)
    requires
        call_ensures(<VarInt as From<u32>>::from, (a,), from_a),
        call_ensures(<VarInt as From<u16>>::from, (b,), from_b),
        call_ensures(<VarInt as From<u8>>::from, (c,), from_c),
        call_ensures(VarInt::into_inner, (from_a,), back_a),
        call_ensures(VarInt::into_inner, (from_b,), back_b),
        call_ensures(VarInt::into_inner, (from_c,), back_c),
    ensures
        back_a == a,
        back_b == b,
        back_c == c,
{
}

/// A stream identifier comes back as it was.
pub proof fn law_stream_identifier_keeps_its_number(v: u64, id: StreamId, back: u64)
    requires
        call_ensures(StreamId::from_raw, (v,), id),
        call_ensures(StreamId::into_inner, (id,), back),
    ensures
        back == v,
{
}

/// A second is a thousand milliseconds and a million microseconds; a span has the seconds and
/// nanoseconds that it was made of, and its milliseconds are those that it was made of.
pub proof fn law_spans_agree(
    n: u64,
    nanos: u32,
    secs: Duration,
    millis: Duration,
    micros: Duration,
    parts: Option<Duration>,
    whole: u64,
    rest: u32,
    back: u64,
    millis_secs: u64,
    millis_rest: u32,
    micros_secs: u64,
    micros_rest: u32,
)
    requires
        call_ensures(Duration::from_secs, (n,), secs),
        call_ensures(Duration::from_millis, (n,), millis),
        call_ensures(Duration::from_micros, (n,), micros),
        call_ensures(Duration::new, (n, nanos), parts),
        parts matches Some(d) ==> {
            &&& call_ensures(Duration::as_secs, (&d,), whole)
            &&& call_ensures(Duration::subsec_nanos, (&d,), rest)
        },
        call_ensures(Duration::as_millis_u64, (&millis,), back),
        call_ensures(Duration::as_secs, (&millis,), millis_secs),
        call_ensures(Duration::subsec_nanos, (&millis,), millis_rest),
        call_ensures(Duration::as_secs, (&micros,), micros_secs),
        call_ensures(Duration::subsec_nanos, (&micros,), micros_rest),
    ensures
        parts is Some <==> nanos < 1_000_000_000,
        parts is Some ==> whole == n && rest == nanos,
        back == n,
        secs@ == 1_000 * millis@,
        secs@ == 1_000_000 * micros@,
        millis_secs == n / 1_000,
        millis_rest == (n % 1_000) * 1_000_000,
        micros_secs == n / 1_000_000,
        micros_rest == (n % 1_000_000) * 1_000,
{
}

// ---------------------------------------------------------------------------
// Texts of numbers
// ---------------------------------------------------------------------------

/// What a character stands for as a digit.
pub open spec fn digit_value(c: char) -> nat {
    if '0' <= c && c <= '9' {
        (c as nat - '0' as nat) as nat
    } else {
        (c as nat - 'a' as nat + 10) as nat
    }
}

/// The number that a text stands for in a base.
pub open spec fn read_number(digits: Seq<char>, base: nat) -> nat
    decreases digits.len(),
{
    if digits.len() == 0 {
        0
    } else {
        read_number(digits.drop_last(), base) * base + digit_value(digits.last())
    }
}

proof fn lemma_decimal(n: nat)
    ensures
        read_number(text::decimal(n), 10) == n,
        text::decimal(n).len() > 0,
        forall|i: int|
            0 <= i < text::decimal(n).len() ==> '0' <= #[trigger] text::decimal(n)[i]
                && text::decimal(n)[i] <= '9',
        n > 0 ==> text::decimal(n)[0] != '0',
        n == 0 ==> text::decimal(n).len() == 1,
    decreases n,
{
    if n < 10 {
        let t = text::decimal(n);
        assert(t.drop_last() =~= Seq::empty());
        assert(t.last() == text::digit(n));
        assert(read_number(t.drop_last(), 10) == 0);
    } else {
        lemma_decimal(n / 10);
        let t = text::decimal(n);
        assert(t.drop_last() =~= text::decimal(n / 10));
        assert(t.last() == text::digit(n % 10));
        assert(t[0] == text::decimal(n / 10)[0]);
        assert forall|i: int| 0 <= i < t.len() implies '0' <= #[trigger] t[i] && t[i] <= '9' by {
            if i < t.len() - 1 {
                assert(t[i] == text::decimal(n / 10)[i]);
            }
        }
    }
}

proof fn lemma_hexadecimal(n: nat)
    ensures
        read_number(text::hexadecimal(n), 16) == n,
        text::hexadecimal(n).len() > 0,
        forall|i: int|
            0 <= i < text::hexadecimal(n).len() ==> {
                let c = #[trigger] text::hexadecimal(n)[i];
                ('0' <= c && c <= '9') || ('a' <= c && c <= 'f')
            },
        n > 0 ==> text::hexadecimal(n)[0] != '0',
        n == 0 ==> text::hexadecimal(n).len() == 1,
    decreases n,
{
    if n < 16 {
        let t = text::hexadecimal(n);
        assert(t.drop_last() =~= Seq::empty());
        assert(t.last() == text::digit(n));
        assert(read_number(t.drop_last(), 16) == 0);
    } else {
        lemma_hexadecimal(n / 16);
        let t = text::hexadecimal(n);
        assert(t.drop_last() =~= text::hexadecimal(n / 16));
        assert(t.last() == text::digit(n % 16));
        assert(t[0] == text::hexadecimal(n / 16)[0]);
        assert forall|i: int| 0 <= i < t.len() implies {
            let c = #[trigger] t[i];
            ('0' <= c && c <= '9') || ('a' <= c && c <= 'f')
        } by {
            if i < t.len() - 1 {
                assert(t[i] == text::hexadecimal(n / 16)[i]);
            }
        }
    }
}

/// A number that is written in base ten reads back as the number, and has no leading zeros.
pub proof fn law_decimal_text_reads_back(n: u64, r: String)
    requires
        call_ensures(decimal_text, (n,), r),
    ensures
        read_number(r@, 10) == n,
        r@.len() > 0,
        forall|i: int| 0 <= i < r@.len() ==> '0' <= #[trigger] r@[i] && r@[i] <= '9',
        r@.len() > 1 ==> r@[0] != '0',
{
    lemma_decimal(n as nat);
}

/// A number that is written in base sixteen reads back as the number, is in lower case, and has no
/// leading zeros.
pub proof fn law_hexadecimal_text_reads_back(n: u16, r: String)
    requires
        call_ensures(hexadecimal_text, (n,), r),
    ensures
        read_number(r@, 16) == n,
        r@.len() > 0,
        forall|i: int|
            0 <= i < r@.len() ==> {
                let c = #[trigger] r@[i];
                ('0' <= c && c <= '9') || ('a' <= c && c <= 'f')
            },
        r@.len() > 1 ==> r@[0] != '0',
{
    lemma_hexadecimal(n as nat);
}

/// The texts of identifiers and of variable-length integers are those of their numbers.
pub proof fn law_identifiers_are_written_as_numbers(
    v: u64,
    id: StreamId,
    id_text: String,
    number: Option<VarInt>,
    number_text: String,
)
    requires
        call_ensures(StreamId::from_raw, (v,), id),
        call_ensures(StreamId::to_string, (&id,), id_text),
        call_ensures(VarInt::from_u64, (v,), number),
        number matches Some(x) ==> call_ensures(VarInt::to_string, (&x,), number_text),
    ensures
        read_number(id_text@, 10) == v,
        number is Some ==> read_number(number_text@, 10) == v,
{
    lemma_decimal(v as nat);
}

// ---------------------------------------------------------------------------
// Texts of lists
// ---------------------------------------------------------------------------

/// Texts one after the other with a separator between each two of them.
pub open spec fn separated(items: Seq<Seq<char>>, separator: Seq<char>) -> Seq<char>
    decreases items.len(),
{
    if items.len() == 0 {
        Seq::empty()
    } else if items.len() == 1 {
        items[0]
    } else {
        items[0] + separator + separated(items.drop_first(), separator)
    }
}

proof fn lemma_separated_last(items: Seq<Seq<char>>, separator: Seq<char>)
    requires
        items.len() >= 2,
    ensures
        separated(items, separator) == separated(items.drop_last(), separator) + separator
            + items.last(),
    decreases items.len(),
{
    let tail = items.drop_first();
    if items.len() == 2 {
        assert(tail.len() == 1 && tail[0] == items.last());
        assert(items.drop_last().len() == 1 && items.drop_last()[0] == items[0]);
        assert(separated(tail, separator) == tail[0]);
        assert(separated(items.drop_last(), separator) == items[0]);
    } else {
        lemma_separated_last(tail, separator);
        assert(tail.drop_last() =~= items.drop_last().drop_first());
        assert(tail.last() == items.last());
        assert(items.drop_last()[0] == items[0]);
        assert(separated(items, separator) =~= separated(items.drop_last(), separator) + separator
            + items.last());
    }
}

proof fn lemma_comma_separated(items: Seq<Seq<char>>)
    ensures
        text::comma_separated(items) == separated(items, ", "@),
    decreases items.len(),
{
    if items.len() >= 2 {
        lemma_comma_separated(items.drop_last());
        lemma_separated_last(items, ", "@);
    }
}

/// The characters of texts.
pub open spec fn characters(texts: Seq<String>) -> Seq<Seq<char>> {
    texts.map_values(|t: String| t@)
}

/// A string of bytes is written as the numbers of its bytes, in order and with commas between them,
/// in square brackets.
pub proof fn law_bytes_are_written_in_order(bytes: &[u8], r: String, numbers: Seq<String>)
    requires
        call_ensures(byte_list_text, (bytes,), r),
        numbers.len() == bytes@.len(),
        forall|i: int|
            0 <= i < numbers.len() ==> call_ensures(
                decimal_text,
                (bytes@[i] as u64,),
                #[trigger] numbers[i],
            ),
    ensures
        r@ == "["@ + separated(characters(numbers), ", "@) + "]"@,
{
    let items = bytes@.map_values(|b: u8| text::decimal(b as nat));
    assert forall|i: int| 0 <= i < items.len() implies #[trigger] items[i] == characters(
        numbers,
    )[i] by {
        assert(call_ensures(decimal_text, (bytes@[i] as u64,), numbers[i]));
    }
    assert(items =~= characters(numbers));
    lemma_comma_separated(items);
}

/// Strings of bytes are written one after the other, each as such a list, with commas between them,
/// in square brackets.
pub proof fn law_byte_strings_are_written_in_order(
    lists: Vec<Vec<u8>>,
    r: String,
    slices: Seq<&[u8]>,
    each: Seq<String>,
)
    requires
        call_ensures(byte_lists_text, (&lists,), r),
        slices.len() == lists@.len(),
        each.len() == lists@.len(),
        forall|i: int|
            0 <= i < each.len() ==> slices[i]@ == lists@[i]@ && call_ensures(
                byte_list_text,
                (slices[i],),
                #[trigger] each[i],
            ),
    ensures
        r@ == "["@ + separated(characters(each), ", "@) + "]"@,
{
    let items = lists.deep_view().map_values(|l: Seq<u8>| text::byte_list(l));
    assert forall|i: int| 0 <= i < items.len() implies #[trigger] items[i] == characters(each)[i] by {
        assert(call_ensures(byte_list_text, (slices[i],), each[i]));
        assert(lists.deep_view()[i] =~= lists@[i]@);
    }
    assert(items =~= characters(each));
    lemma_comma_separated(items);
}

// ---------------------------------------------------------------------------
// Texts of addresses
// ---------------------------------------------------------------------------

/// An IPv4 address is written as its four numbers with dots between them, and its port behind a
/// colon.
pub proof fn law_ipv4_address_is_written_in_order(
    octets: [u8; 4],
    port: u16,
    r: String,
    a: String,
    b: String,
    c: String,
    d: String,
    p: String,
)
    requires
        call_ensures(SocketAddr::to_string, (&SocketAddr::V4 { octets, port },), r),
        call_ensures(decimal_text, (octets@[0] as u64,), a),
        call_ensures(decimal_text, (octets@[1] as u64,), b),
        call_ensures(decimal_text, (octets@[2] as u64,), c),
        call_ensures(decimal_text, (octets@[3] as u64,), d),
        call_ensures(decimal_text, (port as u64,), p),
    ensures
        r@ == a@ + seq!['.'] + b@ + seq!['.'] + c@ + seq!['.'] + d@ + seq![':'] + p@,
{
}

proof fn lemma_colon_separated(segments: Seq<u16>)
    ensures
        addr::colon_separated(segments) == separated(
            segments.map_values(|s: u16| text::hexadecimal(s as nat)),
            seq![':'],
        ),
    decreases segments.len(),
{
    let items = segments.map_values(|s: u16| text::hexadecimal(s as nat));
    if segments.len() >= 2 {
        lemma_colon_separated(segments.drop_last());
        lemma_separated_last(items, seq![':']);
        assert(items.drop_last() =~= segments.drop_last().map_values(
            |s: u16| text::hexadecimal(s as nat),
        ));
    }
}

/// The text of the scope of an address: none for zero.
pub open spec fn scope_text(scope: u32, number: Seq<char>) -> Seq<char> {
    if scope == 0 {
        Seq::empty()
    } else {
        seq!['%'] + number
    }
}

/// An IPv6 address in which no two segments in a row are zero is written as its eight segments in
/// base sixteen with colons between them, in square brackets; its scope stands behind a percent sign
/// if it has one, and its port behind a colon.
pub proof fn law_ipv6_address_is_written_in_order(
    segments: [u16; 8],
    port: u16,
    flowinfo: u32,
    scope_id: u32,
    r: String,
    each: Seq<String>,
    scope: String,
    p: String,
)
    requires
        forall|i: int| 0 <= i < 7 ==> segments@[i] != 0 || #[trigger] segments@[i + 1] != 0,
        call_ensures(
            SocketAddr::to_string,
            (&SocketAddr::V6 { segments, port, flowinfo, scope_id },),
            r,
        ),
        each.len() == 8,
        forall|i: int|
            0 <= i < 8 ==> call_ensures(hexadecimal_text, (segments@[i],), #[trigger] each[i]),
        call_ensures(decimal_text, (scope_id as u64,), scope),
        call_ensures(decimal_text, (port as u64,), p),
    ensures
        r@ == seq!['['] + separated(characters(each), seq![':']) + scope_text(scope_id, scope@)
            + seq![']', ':'] + p@,
{
    let s = segments@;
    let items = s.map_values(|s: u16| text::hexadecimal(s as nat));
    assert forall|i: int| 0 <= i < 8 implies #[trigger] items[i] == characters(each)[i] by {
        assert(call_ensures(hexadecimal_text, (s[i],), each[i]));
    }
    assert(items =~= characters(each));
    lemma_colon_separated(s);
    assert(s[0] != 0 || s[0int + 1] != 0);
    assert(!addr::is_ipv4_mapped(s)) by {
        if addr::is_ipv4_mapped(s) {
            assert(s[0] == 0 && s[1] == 0);
        }
    }
    assert forall|start: int, len: int| addr::zero_run(s, start, len) implies len <= 1 by {
        if len > 1 {
            assert(s[start] == 0 && s[start + 1] == 0);
        }
    }
    let first: int = if s[0] == 0 {
        0
    } else if s[1] == 0 {
        1
    } else if s[2] == 0 {
        2
    } else if s[3] == 0 {
        3
    } else if s[4] == 0 {
        4
    } else if s[5] == 0 {
        5
    } else if s[6] == 0 {
        6
    } else {
        7
    };
    if s[first] == 0 {
        assert(addr::zero_run(s, first, 1));
        assert forall|a: int, n: int| #[trigger] addr::zero_run(s, a, n) implies n < 1 || (n == 1
            && first <= a) by {
            if n == 1 {
                assert(s[a] == 0);
            }
        }
        assert(addr::first_longest_zero_run(s, first, 1));
    } else {
        assert(addr::zero_run(s, 0, 0));
        assert forall|a: int, n: int| #[trigger] addr::zero_run(s, a, n) implies n < 0 || (n == 0
            && 0 <= a) by {
            if n == 1 {
                assert(s[a] == 0);
            }
        }
        assert(addr::first_longest_zero_run(s, 0, 0));
    }
    let (b, n) = choose|b: int, n: int| addr::first_longest_zero_run(s, b, n);
    assert(addr::zero_run(s, b, n));
    assert(addr::ipv6_text(s) == addr::colon_separated(s));
    assert(r@ =~= seq!['['] + separated(characters(each), seq![':']) + scope_text(
        scope_id,
        scope@,
    ) + seq![']', ':'] + p@);
}

/// Of so many segments from a place on, one is not zero.
pub open spec fn interrupted(segments: Seq<u16>, start: int, len: int) -> bool {
    exists|i: int| start <= i < start + len && #[trigger] segments[i] != 0
}

/// An IPv6 address has two colons in place of a run of two or more zero segments, of the longest one
/// and of the first of those that are as long; the segments before and behind it are written as
/// elsewhere.
pub proof fn law_ipv6_address_is_compressed(
    segments: [u16; 8],
    start: int,
    len: int,
    port: u16,
    flowinfo: u32,
    scope_id: u32,
    r: String,
    each: Seq<String>,
    scope: String,
    p: String,
)
    requires
        0 <= start,
        len >= 2,
        start + len <= 8,
        forall|i: int| start <= i < start + len ==> #[trigger] segments@[i] == 0,
        forall|a: int, n: int|
            0 <= a && a + n <= 8 && (n > len || (n == len && a < start))
                ==> #[trigger] interrupted(segments@, a, n),
        !(segments@[5] == 0xffff && start == 0 && len == 5),
        call_ensures(
            SocketAddr::to_string,
            (&SocketAddr::V6 { segments, port, flowinfo, scope_id },),
            r,
        ),
        each.len() == 8,
        forall|i: int|
            0 <= i < 8 ==> call_ensures(hexadecimal_text, (segments@[i],), #[trigger] each[i]),
        call_ensures(decimal_text, (scope_id as u64,), scope),
        call_ensures(decimal_text, (port as u64,), p),
    ensures
        r@ == seq!['['] + separated(characters(each.take(start)), seq![':']) + seq![':', ':']
            + separated(characters(each.skip(start + len)), seq![':']) + scope_text(
            scope_id,
            scope@,
        ) + seq![']', ':'] + p@,
{
    let s = segments@;
    let front = s.take(start).map_values(|s: u16| text::hexadecimal(s as nat));
    let back = s.skip(start + len).map_values(|s: u16| text::hexadecimal(s as nat));
    assert forall|i: int| 0 <= i < start implies #[trigger] front[i] == characters(
        each.take(start),
    )[i] by {
        assert(call_ensures(hexadecimal_text, (s[i],), each[i]));
    }
    assert(front =~= characters(each.take(start)));
    assert forall|i: int| 0 <= i < 8 - start - len implies #[trigger] back[i] == characters(
        each.skip(start + len),
    )[i] by {
        assert(call_ensures(hexadecimal_text, (s[i + start + len],), each[i + start + len]));
    }
    assert(back =~= characters(each.skip(start + len)));
    lemma_colon_separated(s.take(start));
    lemma_colon_separated(s.skip(start + len));
    assert(addr::first_longest_zero_run(s, start, len)) by {
        assert forall|a: int, n: int| #[trigger]
            addr::zero_run(s, a, n) implies n < len || (n == len && start <= a) by {
            if n > len || (n == len && a < start) {
                assert(interrupted(s, a, n));
            }
        }
    }
    let (b, n) = choose|b: int, n: int| addr::first_longest_zero_run(s, b, n);
    assert(addr::zero_run(s, b, n) && addr::zero_run(s, start, len));
    assert(b == start && n == len);
    assert(!addr::is_ipv4_mapped(s)) by {
        if addr::is_ipv4_mapped(s) {
            assert(s[5] != 0);
            assert(addr::zero_run(s, 0, 5));
        }
    }
    assert(r@ =~= seq!['['] + separated(characters(each.take(start)), seq![':']) + seq![':', ':']
        + separated(characters(each.skip(start + len)), seq![':']) + scope_text(scope_id, scope@)
        + seq![']', ':'] + p@);
}

/// An IPv4 address that is mapped into IPv6 is written with its four octets, the two high and the two
/// low ones from the last two segments.
pub proof fn law_mapped_address_is_written_as_ipv4(
    segments: [u16; 8],
    port: u16,
    flowinfo: u32,
    scope_id: u32,
    r: String,
    octets: [u8; 4],
    four: String,
    scope: String,
    p: String,
)
    requires
        forall|i: int| 0 <= i < 5 ==> #[trigger] segments@[i] == 0,
        segments@[5] == 0xffff,
        segments@[6] == octets@[0] * 256 + octets@[1],
        segments@[7] == octets@[2] * 256 + octets@[3],
        call_ensures(
            SocketAddr::to_string,
            (&SocketAddr::V6 { segments, port, flowinfo, scope_id },),
            r,
        ),
        call_ensures(SocketAddr::to_string, (&SocketAddr::V4 { octets, port },), four),
        call_ensures(decimal_text, (scope_id as u64,), scope),
        call_ensures(decimal_text, (port as u64,), p),
    ensures
        r@ == "[::ffff:"@ + four@.take(four@.len() - p@.len() - 1) + scope_text(scope_id, scope@)
            + seq![']', ':'] + p@,
{
    reveal_strlit("[::ffff:");
    reveal_strlit("::ffff:");
    assert(addr::zero_run(segments@, 0, 5));
    let quad = addr::dotted(
        octets@[0] as int,
        octets@[1] as int,
        octets@[2] as int,
        octets@[3] as int,
    );
    assert(four@ == quad + seq![':'] + p@);
    assert(four@.take(four@.len() - p@.len() - 1) =~= quad);
    assert(r@ =~= "[::ffff:"@ + quad + scope_text(scope_id, scope@) + seq![']', ':'] + p@);
}

} // verus!
