//! Numbers and bytes written out as text.
use vstd::prelude::*;
use vstd::string::*;

verus! {

/// The text that the bytes of a reason stand for; bytes that are no UTF-8 stand for none.
pub open spec fn reason_text(bytes: Seq<u8>) -> Seq<char> {
    if vstd::utf8::valid_utf8(bytes) {
        vstd::utf8::decode_utf8(bytes)
    } else {
        Seq::empty()
    }
}

/// `String::from_utf8`: the text that the bytes encode, if they are UTF-8.
#[verifier::external_body]
fn from_utf8(bytes: Vec<u8>) -> (r: Option<String>)
    ensures
        r is Some <==> vstd::utf8::valid_utf8(bytes@),
        r matches Some(s) ==> s@ == vstd::utf8::decode_utf8(bytes@),
{
    String::from_utf8(bytes).ok()
}

/// The text that the bytes of a reason stand for.
pub fn text_of_reason(bytes: Vec<u8>) -> (r: String)
    ensures
        r@ == reason_text(bytes@),
{
    match from_utf8(bytes) {
        Some(s) => s,
        None => String::new(),
    }
}

/// The character of a digit in bases up to sixteen, in lower case.
pub open spec fn digit(d: nat) -> char {
    if d < 10 {
        ('0' as nat + d) as char
    } else {
        ('a' as nat + (d - 10)) as char
    }
}

/// A number in base ten, without leading zeros.
pub open spec fn decimal(n: nat) -> Seq<char>
    decreases n,
{
    if n < 10 {
        seq![digit(n)]
    } else {
        decimal(n / 10).push(digit(n % 10))
    }
}

/// A number in base sixteen, in lower case and without leading zeros.
pub open spec fn hexadecimal(n: nat) -> Seq<char>
    decreases n,
{
    if n < 16 {
        seq![digit(n)]
    } else {
        hexadecimal(n / 16).push(digit(n % 16))
    }
}

fn digit_text(d: u64) -> (r: &'static str)
    requires
        d < 16,
    ensures
        r@ == seq![digit(d as nat)],
{
    proof {
        reveal_strlit("0");
        reveal_strlit("1");
        reveal_strlit("2");
        reveal_strlit("3");
        reveal_strlit("4");
        reveal_strlit("5");
        reveal_strlit("6");
        reveal_strlit("7");
        reveal_strlit("8");
        reveal_strlit("9");
        reveal_strlit("a");
        reveal_strlit("b");
        reveal_strlit("c");
        reveal_strlit("d");
        reveal_strlit("e");
        reveal_strlit("f");
    }
    match d {
        0 => "0",
        1 => "1",
        2 => "2",
        3 => "3",
        4 => "4",
        5 => "5",
        6 => "6",
        7 => "7",
        8 => "8",
        9 => "9",
        10 => "a",
        11 => "b",
        12 => "c",
        13 => "d",
        14 => "e",
        _ => "f",
    }
}

/// Writes a number in base ten.
pub fn decimal_text(n: u64) -> (r: String)
    ensures
        r@ == decimal(n as nat),
    decreases n,
{
    if n < 10 {
        digit_text(n).to_owned()
    } else {
        let mut r = decimal_text(n / 10);
        r.append(digit_text(n % 10));
        r
    }
}

/// Writes a number in base sixteen.
pub fn hexadecimal_text(n: u16) -> (r: String)
    ensures
        r@ == hexadecimal(n as nat),
    decreases n,
{
    if n < 16 {
        digit_text(n as u64).to_owned()
    } else {
        let mut r = hexadecimal_text(n / 16);
        r.append(digit_text((n % 16) as u64));
        r
    }
}

/// Texts one after the other, separated by commas.
pub open spec fn comma_separated(items: Seq<Seq<char>>) -> Seq<char>
    decreases items.len(),
{
    if items.len() == 0 {
        seq![]
    } else if items.len() == 1 {
        items[0]
    } else {
        comma_separated(items.drop_last()) + ", "@ + items.last()
    }
}

/// A string of bytes as a list of numbers.
pub open spec fn byte_list(bytes: Seq<u8>) -> Seq<char> {
    "["@ + comma_separated(bytes.map_values(|b: u8| decimal(b as nat))) + "]"@
}

/// Strings of bytes as a list of lists of numbers.
pub open spec fn byte_lists(lists: Seq<Seq<u8>>) -> Seq<char> {
    "["@ + comma_separated(lists.map_values(|l: Seq<u8>| byte_list(l))) + "]"@
}

/// A truth value in words.
pub open spec fn truth(b: bool) -> Seq<char> {
    if b {
        "true"@
    } else {
        "false"@
    }
}

/// Writes a truth value.
pub fn truth_text(b: bool) -> (r: &'static str)
    ensures
        r@ == truth(b),
{
    if b {
        "true"
    } else {
        "false"
    }
}

/// Writes a string of bytes as a list of numbers.
pub fn byte_list_text(bytes: &[u8]) -> (r: String)
    ensures
        r@ == byte_list(bytes@),
{
    let ghost items = bytes@.map_values(|b: u8| decimal(b as nat));
    let mut inner = String::new();
    let mut i: usize = 0;
    while i < bytes.len()
        invariant
            i <= bytes@.len(),
            items == bytes@.map_values(|b: u8| decimal(b as nat)),
            inner@ == comma_separated(items.take(i as int)),
        decreases bytes@.len() - i,
    {
        if i > 0 {
            inner.append(", ");
        }
        inner.append(decimal_text(bytes[i] as u64).as_str());
        proof {
            let next = items.take(i + 1);
            assert(next.drop_last() =~= items.take(i as int));
            assert(next.last() == decimal(bytes@[i as int] as nat));
        }
        i += 1;
    }
    assert(items.take(i as int) =~= items);
    let mut r = join("[", inner.as_str());
    r.append("]");
    r
}

/// Writes strings of bytes as a list of lists of numbers.
pub fn byte_lists_text(lists: &Vec<Vec<u8>>) -> (r: String)
    ensures
        r@ == byte_lists(lists.deep_view()),
{
    let ghost items = lists.deep_view().map_values(|l: Seq<u8>| byte_list(l));
    let mut inner = String::new();
    let mut i: usize = 0;
    while i < lists.len()
        invariant
            i <= lists@.len(),
            items == lists.deep_view().map_values(|l: Seq<u8>| byte_list(l)),
            inner@ == comma_separated(items.take(i as int)),
        decreases lists@.len() - i,
    {
        if i > 0 {
            inner.append(", ");
        }
        inner.append(byte_list_text(lists[i].as_slice()).as_str());
        proof {
            let next = items.take(i + 1);
            assert(next.drop_last() =~= items.take(i as int));
            assert(lists.deep_view()[i as int] =~= lists@[i as int]@);
            assert(next.last() == byte_list(lists@[i as int]@));
        }
        i += 1;
    }
    assert(items.take(i as int) =~= items);
    let mut r = join("[", inner.as_str());
    r.append("]");
    r
}

/// Puts two texts one after the other.
pub fn join(first: &str, second: &str) -> (r: String)
    ensures
        r@ == first@ + second@,
{
    let mut r = first.to_owned();
    r.append(second);
    r
}

} // verus!
