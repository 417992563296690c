//! Byte buffers handed to the engine.
use bytes::Bytes;
use vstd::prelude::*;

verus! {

/// `bytes::Bytes`, carried through without looking inside.
#[verifier::external_type_specification]
#[verifier::external_body]
pub struct ExBytes(bytes::Bytes);

/// The bytes that a buffer holds.
pub uninterp spec fn contents(held: Bytes) -> Seq<u8>;

/// `Bytes::copy_from_slice`: the new buffer holds the bytes of the slice.
pub assume_specification[ bytes::Bytes::copy_from_slice ](data: &[u8]) -> (made: Bytes)
    ensures
        contents(made) == data@,
;

/// `Bytes::new`: the new buffer holds no bytes.
pub assume_specification[ bytes::Bytes::new ]() -> (made: Bytes)
    ensures
        contents(made) == Seq::<u8>::empty(),
;

/// A copy of a string of bytes.
pub fn copy_bytes(bytes: &[u8]) -> (r: Vec<u8>)
    ensures
        r@ == bytes@,
{
    let mut r: Vec<u8> = Vec::new();
    let mut i: usize = 0;
    while i < bytes.len()
        invariant
            i <= bytes@.len(),
            r@ == bytes@.take(i as int),
        decreases bytes@.len() - i,
    {
        r.push(bytes[i]);
        i += 1;
        assert(bytes@.take(i as int) =~= bytes@.take(i - 1).push(bytes@[i - 1]));
    }
    assert(bytes@.take(i as int) =~= bytes@);
    r
}

/// Whether two strings of bytes are the same.
pub fn same_bytes(a: &[u8], b: &[u8]) -> (r: bool)
    ensures
        r == (a@ == b@),
{
    if a.len() != b.len() {
        return false;
    }
    let mut i: usize = 0;
    while i < a.len()
        invariant
            a@.len() == b@.len(),
            i <= a@.len(),
            a@.take(i as int) == b@.take(i as int),
        decreases a@.len() - i,
    {
        if a[i] != b[i] {
            return false;
        }
        i += 1;
        assert(a@.take(i as int) =~= a@.take(i - 1).push(a@[i - 1]));
        assert(b@.take(i as int) =~= b@.take(i - 1).push(b@[i - 1]));
    }
    assert(a@.take(i as int) =~= a@);
    assert(b@.take(i as int) =~= b@);
    true
}

/// A copy of a list of strings of bytes.
pub fn copy_byte_strings(list: &Vec<Vec<u8>>) -> (r: Vec<Vec<u8>>)
    ensures
        r.deep_view() == list.deep_view(),
{
    let mut r: Vec<Vec<u8>> = Vec::new();
    let mut i: usize = 0;
    while i < list.len()
        invariant
            i <= list@.len(),
            r@.len() == i,
            forall|k: int| 0 <= k < i ==> #[trigger] r@[k]@ == list@[k]@,
        decreases list@.len() - i,
    {
        r.push(copy_bytes(list[i].as_slice()));
        i += 1;
    }
    assert(r.deep_view() =~= list.deep_view()) by {
        assert forall|k: int| 0 <= k < r@.len() implies #[trigger] r.deep_view()[k]
            == list.deep_view()[k] by {
            assert(r@[k]@ == list@[k]@);
            assert(r@[k].deep_view() =~= list@[k].deep_view());
        }
    }
    r
}

} // verus!
