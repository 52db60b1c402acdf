//! Integers in a byte record.
//!
//! The peer runs on x86-64 only, so every integer of a record is stored with
//! its least significant byte first, and a signed integer as its
//! two's-complement bit pattern.
use vstd::prelude::*;
use vstd::bytes::*;
use vstd::slice::slice_subrange;

verus! {

/// The bytes of a `u8`.
pub open spec fn spec_u8_bytes(x: u8) -> Seq<u8> {
    seq![x]
}

/// The bytes of an `i32`: those of the `u32` with the same bit pattern.
pub open spec fn spec_i32_bytes(x: i32) -> Seq<u8> {
    spec_u32_to_le_bytes(x as u32)
}

/// The bytes of an `i64`: those of the `u64` with the same bit pattern.
pub open spec fn spec_i64_bytes(x: i64) -> Seq<u8> {
    spec_u64_to_le_bytes(x as u64)
}

/// The bytes of a `usize`, which a record stores in eight bytes.
pub open spec fn spec_usize_bytes(x: usize) -> Seq<u8> {
    spec_u64_to_le_bytes(x as u64)
}

/// `n` zero bytes.
pub open spec fn spec_zeros(n: nat) -> Seq<u8> {
    Seq::new(n, |i: int| 0u8)
}

/// The `u16` stored at offset `at`.
pub open spec fn spec_u16_at(s: Seq<u8>, at: int) -> u16 {
    spec_u16_from_le_bytes(s.subrange(at, at + 2))
}

/// The `u32` stored at offset `at`.
pub open spec fn spec_u32_at(s: Seq<u8>, at: int) -> u32 {
    spec_u32_from_le_bytes(s.subrange(at, at + 4))
}

/// The `u64` stored at offset `at`.
pub open spec fn spec_u64_at(s: Seq<u8>, at: int) -> u64 {
    spec_u64_from_le_bytes(s.subrange(at, at + 8))
}

/// The `i32` stored at offset `at`.
pub open spec fn spec_i32_at(s: Seq<u8>, at: int) -> i32 {
    spec_u32_at(s, at) as i32
}

/// The `i64` stored at offset `at`.
pub open spec fn spec_i64_at(s: Seq<u8>, at: int) -> i64 {
    spec_u64_at(s, at) as i64
}

/// Reads the `u16` at offset `at`.
pub(crate) fn u16_at(s: &[u8], at: usize) -> (r: u16)
    requires
        at + 2 <= s@.len(),
    ensures
        r == spec_u16_at(s@, at as int),
{
    let len: usize = s.len();
    assert(at + 2 <= len);
    u16_from_le_bytes(slice_subrange(s, at, at + 2))
}

/// Reads the `u32` at offset `at`.
pub(crate) fn u32_at(s: &[u8], at: usize) -> (r: u32)
    requires
        at + 4 <= s@.len(),
    ensures
        r == spec_u32_at(s@, at as int),
{
    let len: usize = s.len();
    assert(at + 4 <= len);
    u32_from_le_bytes(slice_subrange(s, at, at + 4))
}

/// Reads the `u64` at offset `at`.
pub(crate) fn u64_at(s: &[u8], at: usize) -> (r: u64)
    requires
        at + 8 <= s@.len(),
    ensures
        r == spec_u64_at(s@, at as int),
{
    let len: usize = s.len();
    assert(at + 8 <= len);
    u64_from_le_bytes(slice_subrange(s, at, at + 8))
}

/// Reads the `i32` at offset `at`.
pub(crate) fn i32_at(s: &[u8], at: usize) -> (r: i32)
    requires
        at + 4 <= s@.len(),
    ensures
        r == spec_i32_at(s@, at as int),
{
    u32_at(s, at) as i32
}

/// Reads the `i64` at offset `at`.
pub(crate) fn i64_at(s: &[u8], at: usize) -> (r: i64)
    requires
        at + 8 <= s@.len(),
    ensures
        r == spec_i64_at(s@, at as int),
{
    u64_at(s, at) as i64
}

/// Appends one byte.
pub fn put_u8(out: &mut Vec<u8>, x: u8)
    ensures
        final(out)@ == old(out)@ + spec_u8_bytes(x),
{
    out.push(x);
    assert(out@ =~= old(out)@ + spec_u8_bytes(x));
}

/// Appends a `u16`.
pub fn put_u16(out: &mut Vec<u8>, x: u16)
    ensures
        final(out)@ == old(out)@ + spec_u16_to_le_bytes(x),
{
    let mut bytes = u16_to_le_bytes(x);
    out.append(&mut bytes);
}

/// Appends a `u32`.
pub fn put_u32(out: &mut Vec<u8>, x: u32)
    ensures
        final(out)@ == old(out)@ + spec_u32_to_le_bytes(x),
{
    let mut bytes = u32_to_le_bytes(x);
    out.append(&mut bytes);
}

/// Appends a `u64`.
pub fn put_u64(out: &mut Vec<u8>, x: u64)
    ensures
        final(out)@ == old(out)@ + spec_u64_to_le_bytes(x),
{
    let mut bytes = u64_to_le_bytes(x);
    out.append(&mut bytes);
}

/// Appends an `i32`.
pub fn put_i32(out: &mut Vec<u8>, x: i32)
    ensures
        final(out)@ == old(out)@ + spec_i32_bytes(x),
{
    put_u32(out, x as u32);
}

/// Appends an `i64`.
pub fn put_i64(out: &mut Vec<u8>, x: i64)
    ensures
        final(out)@ == old(out)@ + spec_i64_bytes(x),
{
    put_u64(out, x as u64);
}

/// Appends a `usize` as eight bytes.
pub fn put_usize(out: &mut Vec<u8>, x: usize)
    ensures
        final(out)@ == old(out)@ + spec_usize_bytes(x),
{
    put_u64(out, x as u64);
}

/// Appends `n` zero bytes: the padding between and after the fields.
pub fn put_zeros(out: &mut Vec<u8>, n: usize)
    ensures
        final(out)@ == old(out)@ + spec_zeros(n as nat),
{
    let mut i: usize = 0;
    while i < n
        invariant
            i <= n,
            out@ == old(out)@ + spec_zeros(i as nat),
        decreases n - i,
    {
        out.push(0u8);
        i = i + 1;
        assert(out@ =~= old(out)@ + spec_zeros(i as nat));
    }
}

/// Appends the bytes of a slice.
pub fn put_bytes(out: &mut Vec<u8>, bytes: &[u8])
    ensures
        final(out)@ == old(out)@ + bytes@,
{
    let mut i: usize = 0;
    while i < bytes.len()
        invariant
            i <= bytes@.len(),
            out@ == old(out)@ + bytes@.subrange(0, i as int),
        decreases bytes@.len() - i,
    {
        out.push(bytes[i]);
        i = i + 1;
        assert(out@ =~= old(out)@ + bytes@.subrange(0, i as int));
    }
    assert(bytes@.subrange(0, bytes@.len() as int) =~= bytes@);
}

/// A signed integer survives the trip through its bit pattern.
pub proof fn lemma_signed_round_trip(x: i32, y: i64)
    ensures
        (x as u32) as i32 == x,
        (y as u64) as i64 == y,
{
    assert((x as u32) as i32 == x) by (bit_vector);
    assert((y as u64) as i64 == y) by (bit_vector);
}

/// The array of `N` bytes that holds the given bytes.
pub open spec fn spec_array_of<const N: usize>(bytes: Seq<u8>) -> [u8; N] {
    choose|a: [u8; N]| a@ == bytes
}

/// Whether an array holds the first `n` bytes of a sequence.
pub open spec fn holds_prefix<const N: usize>(a: [u8; N], bytes: Seq<u8>, n: int) -> bool {
    forall|i: int| 0 <= i < n ==> a@[i] == bytes[i]
}

/// Some array holds the first `n` of `N` given bytes, for every `n`.
proof fn lemma_array_prefix<const N: usize>(bytes: Seq<u8>, n: int)
    requires
        bytes.len() == N,
        0 <= n <= N,
    ensures
        exists|a: [u8; N]| holds_prefix(a, bytes, n),
    decreases n,
{
    if n == 0 {
        assert(holds_prefix(vstd::array::spec_array_fill_for_copy_type::<u8, N>(0u8), bytes, 0));
    } else {
        let k = n - 1;
        lemma_array_prefix::<N>(bytes, k);
        let a = choose|a: [u8; N]| holds_prefix(a, bytes, k);
        let b = vstd::array::spec_array_update(a, k, bytes[k]);
        vstd::array::axiom_spec_array_update(a, k, bytes[k]);
        assert(holds_prefix(b, bytes, n));
    }
}

/// The array of `N` given bytes holds those bytes.
pub proof fn lemma_array_holds<const N: usize>(bytes: Seq<u8>)
    requires
        bytes.len() == N,
    ensures
        spec_array_of::<N>(bytes)@ == bytes,
{
    let n = N as int;
    lemma_array_prefix::<N>(bytes, n);
    let a = choose|a: [u8; N]| holds_prefix(a, bytes, n);
    assert(a@ =~= bytes);
}

/// An array that holds the given bytes is the array of those bytes.
pub proof fn lemma_array_of<const N: usize>(bytes: Seq<u8>, a: [u8; N])
    requires
        a@ == bytes,
    ensures
        a == spec_array_of::<N>(bytes),
{
    let b = spec_array_of::<N>(bytes);
    assert(b@ == bytes);
    assert(a =~= b);
}

/// Copies `N` bytes from offset `at` into an array.
pub(crate) fn array_at<const N: usize>(s: &[u8], at: usize) -> (r: [u8; N])
    requires
        at + N <= s@.len(),
    ensures
        r@ == s@.subrange(at as int, at + N),
        r == spec_array_of::<N>(s@.subrange(at as int, at + N)),
{
    let len: usize = s.len();
    let mut r = [0u8; N];
    let mut i: usize = 0;
    while i < N
        invariant
            i <= N,
            at + N <= s@.len(),
            len == s@.len(),
            forall|j: int| 0 <= j < i ==> r@[j] == s@[at + j],
        decreases N - i,
    {
        r[i] = s[at + i];
        i = i + 1;
    }
    proof {
        assert(r@ =~= s@.subrange(at as int, at + N));
        lemma_array_of::<N>(s@.subrange(at as int, at + N), r);
    }
    r
}

} // verus!
