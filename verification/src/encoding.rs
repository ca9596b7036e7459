//! Fixed-width big-endian integer encodings and length-prefixed byte
//! strings, the building blocks of the canonical encodings.

use vstd::prelude::*;
use vstd::utf8::encode_utf8;

verus! {

broadcast use vstd::string::group_string_axioms;

/// Big-endian bytes of a `u64`.
pub open spec fn be_bytes_u64(x: u64) -> Seq<u8> {
    Seq::new(8, |k: int| ((x >> (((7 - k) * 8) as u64)) & 0xff) as u8)
}

/// Big-endian bytes of a `u128`.
pub open spec fn be_bytes_u128(x: u128) -> Seq<u8> {
    Seq::new(16, |k: int| ((x >> (((15 - k) * 8) as u128)) & 0xff) as u8)
}

/// A byte string prefixed by its length as a big-endian `u64`.
pub open spec fn length_prefixed(b: Seq<u8>) -> Seq<u8> {
    be_bytes_u64(b.len() as u64) + b
}

/// UTF-8 bytes of a text value prefixed by their length.
pub open spec fn encoded_text(s: Seq<char>) -> Seq<u8> {
    length_prefixed(encode_utf8(s))
}

/// Appends the big-endian bytes of `value`.
pub fn push_u64(value: u64, output: &mut Vec<u8>)
    ensures
        final(output)@ == old(output)@ + be_bytes_u64(value),
{
    let ghost start = output@;
    let mut k: u64 = 0;
    while k < 8
        invariant
            0 <= k <= 8,
            output@.len() == start.len() + k,
            forall|j: int| 0 <= j < start.len() ==> output@[j] == start[j],
            forall|j: int| 0 <= j < k ==> output@[start.len() + j] == be_bytes_u64(value)[j],
        decreases 8 - k,
    {
        output.push(((value >> ((7 - k) * 8)) & 0xff) as u8);
        k = k + 1;
    }
    assert(output@ =~= start + be_bytes_u64(value));
}

/// Appends the big-endian bytes of `value`.
pub fn push_u128(value: u128, output: &mut Vec<u8>)
    ensures
        final(output)@ == old(output)@ + be_bytes_u128(value),
{
    let ghost start = output@;
    let mut k: u128 = 0;
    while k < 16
        invariant
            0 <= k <= 16,
            output@.len() == start.len() + k,
            forall|j: int| 0 <= j < start.len() ==> output@[j] == start[j],
            forall|j: int| 0 <= j < k ==> output@[start.len() + j] == be_bytes_u128(value)[j],
        decreases 16 - k,
    {
        output.push(((value >> ((15 - k) * 8)) & 0xff) as u8);
        k = k + 1;
    }
    assert(output@ =~= start + be_bytes_u128(value));
}

/// Appends a slice of bytes.
pub fn push_slice(bytes: &[u8], output: &mut Vec<u8>)
    ensures
        final(output)@ == old(output)@ + bytes@,
{
    let ghost start = output@;
    output.extend_from_slice(bytes);
    assert(output@ =~= start + bytes@);
}

/// Appends a byte string prefixed by its length.
pub fn push_length_prefixed(bytes: &[u8], output: &mut Vec<u8>)
    ensures
        final(output)@ == old(output)@ + length_prefixed(bytes@),
{
    let ghost start = output@;
    push_u64(bytes.len() as u64, output);
    push_slice(bytes, output);
    assert(output@ =~= start + length_prefixed(bytes@));
}

/// Appends the UTF-8 bytes of a text value prefixed by their length.
pub fn push_text(value: &str, output: &mut Vec<u8>)
    ensures
        final(output)@ == old(output)@ + encoded_text(value@),
{
    push_length_prefixed(value.as_bytes(), output);
}

} // verus!
