//! Byte-level building blocks shared by the header and payload codecs:
//! fixed-width fields cut out of a buffer, and big-endian integers.

use vstd::prelude::*;

verus! {

/// The array of `N` bytes that `bytes` holds from `offset` on.
///
/// Meaningful where `0 <= offset` and `offset + N <= bytes.len()`; see
/// [`lemma_field`].
pub open spec fn field<const N: usize>(bytes: Seq<u8>, offset: int) -> [u8; N] {
    choose|a: [u8; N]| a@ == bytes.subrange(offset, offset + N)
}

/// An array whose first `k` bytes are those of `s`.
spec fn prefix_array<const N: usize>(s: Seq<u8>, k: nat) -> [u8; N]
    decreases k,
{
    if k == 0 {
        vstd::array::spec_array_fill_for_copy_type::<u8, N>(0u8)
    } else {
        vstd::array::spec_array_update(prefix_array::<N>(s, (k - 1) as nat), k - 1, s[k - 1])
    }
}

proof fn lemma_prefix_array<const N: usize>(s: Seq<u8>, k: nat)
    requires
        k <= N,
    ensures
        forall|i: int| 0 <= i < k ==> prefix_array::<N>(s, k)@[i] == s[i],
    decreases k,
{
    if k > 0 {
        lemma_prefix_array::<N>(s, (k - 1) as nat);
    }
}

/// Within the bounds of the buffer, a field holds exactly the bytes of its
/// range.
pub proof fn lemma_field<const N: usize>(bytes: Seq<u8>, offset: int)
    requires
        0 <= offset,
        offset + N <= bytes.len(),
    ensures
        field::<N>(bytes, offset)@ == bytes.subrange(offset, offset + N),
{
    let s = bytes.subrange(offset, offset + N);
    lemma_prefix_array::<N>(s, N as nat);
    assert(prefix_array::<N>(s, N as nat)@ =~= s);
}

/// A field is the one array that holds the bytes of its range: any array
/// with those bytes is equal to it.
pub proof fn lemma_field_is<const N: usize>(bytes: Seq<u8>, offset: int, a: [u8; N])
    requires
        0 <= offset,
        offset + N <= bytes.len(),
        a@ == bytes.subrange(offset, offset + N),
    ensures
        field::<N>(bytes, offset) == a,
{
    lemma_field::<N>(bytes, offset);
    assert(field::<N>(bytes, offset) =~= a);
}

/// Copies the `N` bytes at `offset` out of `bytes`, or returns `None` where
/// the buffer ends before `offset + N`.
pub fn take<const N: usize>(bytes: &[u8], offset: usize) -> (result: Option<[u8; N]>)
    ensures
        match result {
            Some(a) => offset + N <= bytes@.len() && a == field::<N>(bytes@, offset as int),
            None => offset + N > bytes@.len(),
        },
{
    if offset > bytes.len() || bytes.len() - offset < N {
        return None;
    }
    let mut a: [u8; N] = [0u8; N];
    let mut i: usize = 0;
    while i < N
        invariant
            i <= N,
            offset + N <= bytes@.len() <= usize::MAX,
            forall|j: int| 0 <= j < i ==> a@[j] == bytes@[offset + j],
        decreases N - i,
    {
        a[i] = bytes[offset + i];
        i += 1;
    }
    proof {
        assert(a@ =~= bytes@.subrange(offset as int, offset + N));
        lemma_field_is::<N>(bytes@, offset as int, a);
    }
    Some(a)
}

/// The 16-bit integer whose big-endian bytes are `hi`, `lo`.
pub open spec fn spec_be16(hi: u8, lo: u8) -> u16 {
    (hi * 0x100 + lo) as u16
}

/// The 32-bit integer whose big-endian bytes are `b0`, `b1`, `b2`, `b3`.
pub open spec fn spec_be32(b0: u8, b1: u8, b2: u8, b3: u8) -> u32 {
    (b0 * 0x100_0000 + b1 * 0x1_0000 + b2 * 0x100 + b3) as u32
}

/// The big-endian bytes of a 16-bit integer.
pub open spec fn spec_be16_bytes(value: u16) -> Seq<u8> {
    seq![(value / 0x100) as u8, (value % 0x100) as u8]
}

/// The big-endian bytes of a 32-bit integer.
pub open spec fn spec_be32_bytes(value: u32) -> Seq<u8> {
    seq![
        (value / 0x100_0000) as u8,
        ((value / 0x1_0000) % 0x100) as u8,
        ((value / 0x100) % 0x100) as u8,
        (value % 0x100) as u8,
    ]
}

#[verifier::when_used_as_spec(spec_be16)]
pub fn be16(hi: u8, lo: u8) -> (value: u16)
    ensures
        value == spec_be16(hi, lo),
{
    (hi as u16) * 0x100 + (lo as u16)
}

#[verifier::when_used_as_spec(spec_be32)]
pub fn be32(b0: u8, b1: u8, b2: u8, b3: u8) -> (value: u32)
    ensures
        value == spec_be32(b0, b1, b2, b3),
{
    (b0 as u32) * 0x100_0000 + (b1 as u32) * 0x1_0000 + (b2 as u32) * 0x100 + (b3 as u32)
}

pub fn be16_bytes(value: u16) -> (bytes: [u8; 2])
    ensures
        bytes@ == spec_be16_bytes(value),
{
    let bytes: [u8; 2] = [(value / 0x100) as u8, (value % 0x100) as u8];
    assert(bytes@ =~= spec_be16_bytes(value));
    bytes
}

pub fn be32_bytes(value: u32) -> (bytes: [u8; 4])
    ensures
        bytes@ == spec_be32_bytes(value),
{
    let bytes: [u8; 4] = [
        (value / 0x100_0000) as u8,
        ((value / 0x1_0000) % 0x100) as u8,
        ((value / 0x100) % 0x100) as u8,
        (value % 0x100) as u8,
    ];
    assert(bytes@ =~= spec_be32_bytes(value));
    bytes
}

/// Reading a 16-bit integer back from its big-endian bytes gives the
/// integer.
pub proof fn lemma_be16_of_bytes(value: u16)
    ensures
        spec_be16(spec_be16_bytes(value)[0], spec_be16_bytes(value)[1]) == value,
{
}

/// Writing the 16-bit integer read from two bytes gives those bytes.
pub proof fn lemma_be16_bytes_of(hi: u8, lo: u8)
    ensures
        spec_be16_bytes(spec_be16(hi, lo)) == seq![hi, lo],
{
    assert(spec_be16_bytes(spec_be16(hi, lo)) =~= seq![hi, lo]);
}

/// Reading a 32-bit integer back from its big-endian bytes gives the
/// integer.
pub proof fn lemma_be32_of_bytes(value: u32)
    ensures
        spec_be32(
            spec_be32_bytes(value)[0],
            spec_be32_bytes(value)[1],
            spec_be32_bytes(value)[2],
            spec_be32_bytes(value)[3],
        ) == value,
{
    let b0 = value / 0x100_0000;
    let b1 = (value / 0x1_0000) % 0x100;
    let b2 = (value / 0x100) % 0x100;
    let b3 = value % 0x100;
    assert(b0 < 0x100 && b1 < 0x100 && b2 < 0x100 && b3 < 0x100 && b0 * 0x100_0000 + b1 * 0x1_0000
        + b2 * 0x100 + b3 == value) by (bit_vector)
        requires
            b0 == value / 0x100_0000,
            b1 == (value / 0x1_0000) % 0x100,
            b2 == (value / 0x100) % 0x100,
            b3 == value % 0x100,
    ;
}

/// Writing the 32-bit integer read from four bytes gives those bytes.
pub proof fn lemma_be32_bytes_of(b0: u8, b1: u8, b2: u8, b3: u8)
    ensures
        spec_be32_bytes(spec_be32(b0, b1, b2, b3)) == seq![b0, b1, b2, b3],
{
    let value = spec_be32(b0, b1, b2, b3);
    assert(value == b0 * 0x100_0000 + b1 * 0x1_0000 + b2 * 0x100 + b3);
    assert(value / 0x100_0000 == b0 && (value / 0x1_0000) % 0x100 == b1 && (value / 0x100) % 0x100
        == b2 && value % 0x100 == b3) by (bit_vector)
        requires
            value == b0 * 0x100_0000 + b1 * 0x1_0000 + b2 * 0x100 + b3,
    ;
    assert(spec_be32_bytes(value) =~= seq![b0, b1, b2, b3]);
}

} // verus!
