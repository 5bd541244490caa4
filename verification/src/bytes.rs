//! Big-endian integer fields of the wire format, and helpers on 32-byte
//! identity values.
//!
//! Every multi-byte integer of the inbound payload and of the canonical
//! message serialization is big-endian; the staged-instruction records are
//! little-endian and live in `records`.

use vstd::prelude::*;

verus! {

/// The two big-endian bytes of `x`, most significant first.
pub open spec fn spec_u16_to_be_bytes(x: u16) -> Seq<u8> {
    seq![((x >> 8) & 0xff) as u8, (x & 0xff) as u8]
}

/// The four big-endian bytes of `x`, most significant first.
pub open spec fn spec_u32_to_be_bytes(x: u32) -> Seq<u8> {
    seq![
        ((x >> 24) & 0xff) as u8,
        ((x >> 16) & 0xff) as u8,
        ((x >> 8) & 0xff) as u8,
        (x & 0xff) as u8,
    ]
}

/// The eight big-endian bytes of `x`, most significant first.
pub open spec fn spec_u64_to_be_bytes(x: u64) -> Seq<u8> {
    seq![
        ((x >> 56) & 0xff) as u8,
        ((x >> 48) & 0xff) as u8,
        ((x >> 40) & 0xff) as u8,
        ((x >> 32) & 0xff) as u8,
        ((x >> 24) & 0xff) as u8,
        ((x >> 16) & 0xff) as u8,
        ((x >> 8) & 0xff) as u8,
        (x & 0xff) as u8,
    ]
}

/// The unsigned integer read big-endian from the eight bytes of `s`.
pub open spec fn spec_u64_from_be_bytes(s: Seq<u8>) -> u64
    recommends
        s.len() == 8,
{
    (((s[0] as u64) << 56) | ((s[1] as u64) << 48) | ((s[2] as u64) << 40) | ((s[3] as u64) << 32)
        | ((s[4] as u64) << 24) | ((s[5] as u64) << 16) | ((s[6] as u64) << 8) | (s[7] as u64)) as u64
}

/// Reading eight bytes big-endian and writing the result back yields the
/// same eight bytes.
pub proof fn lemma_u64_be_bytes_round_trip(s: Seq<u8>)
    requires
        s.len() == 8,
    ensures
        spec_u64_to_be_bytes(spec_u64_from_be_bytes(s)) == s,
{
    let b0 = s[0];
    let b1 = s[1];
    let b2 = s[2];
    let b3 = s[3];
    let b4 = s[4];
    let b5 = s[5];
    let b6 = s[6];
    let b7 = s[7];
    let x = (((b0 as u64) << 56) | ((b1 as u64) << 48) | ((b2 as u64) << 40) | ((b3 as u64) << 32)
        | ((b4 as u64) << 24) | ((b5 as u64) << 16) | ((b6 as u64) << 8) | (b7 as u64)) as u64;
    assert(((x >> 56) & 0xff) as u8 == b0 && ((x >> 48) & 0xff) as u8 == b1 && ((x >> 40) & 0xff)
        as u8 == b2 && ((x >> 32) & 0xff) as u8 == b3 && ((x >> 24) & 0xff) as u8 == b4 && ((x
        >> 16) & 0xff) as u8 == b5 && ((x >> 8) & 0xff) as u8 == b6 && (x & 0xff) as u8 == b7)
        by (bit_vector)
        requires
            x == (((b0 as u64) << 56) | ((b1 as u64) << 48) | ((b2 as u64) << 40) | ((b3 as u64)
                << 32) | ((b4 as u64) << 24) | ((b5 as u64) << 16) | ((b6 as u64) << 8) | (b7
                as u64)) as u64,
    ;
    assert(spec_u64_to_be_bytes(spec_u64_from_be_bytes(s)) =~= s);
}

/// The unsigned value spelled by a big-endian byte sequence.
pub open spec fn be_bytes_nat(s: Seq<u8>) -> nat
    decreases s.len(),
{
    if s.len() == 0 {
        0
    } else {
        (be_bytes_nat(s.drop_last()) * 256 + s.last()) as nat
    }
}

/// The eight big-endian bytes of `x` spell exactly the value `x`.
pub proof fn lemma_u64_be_bytes_value(x: u64)
    ensures
        be_bytes_nat(spec_u64_to_be_bytes(x)) == x,
{
    reveal_with_fuel(be_bytes_nat, 10);
    vstd::arithmetic::power2::lemma2_to64();
    vstd::arithmetic::power2::lemma2_to64_rest();
    vstd::bits::lemma_low_bits_mask_values();
    let s = spec_u64_to_be_bytes(x);
    // Each shift is a division by a power of two, each mask a remainder.
    vstd::bits::lemma_u64_shr_is_div(x, 8);
    vstd::bits::lemma_u64_shr_is_div(x, 16);
    vstd::bits::lemma_u64_shr_is_div(x, 24);
    vstd::bits::lemma_u64_shr_is_div(x, 32);
    vstd::bits::lemma_u64_shr_is_div(x, 40);
    vstd::bits::lemma_u64_shr_is_div(x, 48);
    vstd::bits::lemma_u64_shr_is_div(x, 56);
    vstd::bits::lemma_u64_low_bits_mask_is_mod(x, 8);
    vstd::bits::lemma_u64_low_bits_mask_is_mod(x >> 8, 8);
    vstd::bits::lemma_u64_low_bits_mask_is_mod(x >> 16, 8);
    vstd::bits::lemma_u64_low_bits_mask_is_mod(x >> 24, 8);
    vstd::bits::lemma_u64_low_bits_mask_is_mod(x >> 32, 8);
    vstd::bits::lemma_u64_low_bits_mask_is_mod(x >> 40, 8);
    vstd::bits::lemma_u64_low_bits_mask_is_mod(x >> 48, 8);
    vstd::bits::lemma_u64_low_bits_mask_is_mod(x >> 56, 8);
    // The quotients of x by each power of 256, coarsest first.
    let d0 = x as int / 0x100000000000000;
    let d1 = x as int / 0x1000000000000;
    let d2 = x as int / 0x10000000000;
    let d3 = x as int / 0x100000000;
    let d4 = x as int / 0x1000000;
    let d5 = x as int / 0x10000;
    let d6 = x as int / 0x100;
    let d7 = x as int;
    // Dividing by one more power of 256 steps from each to the previous.
    vstd::arithmetic::div_mod::lemma_div_denominator(x as int, 0x1000000000000, 256);
    vstd::arithmetic::div_mod::lemma_div_denominator(x as int, 0x10000000000, 256);
    vstd::arithmetic::div_mod::lemma_div_denominator(x as int, 0x100000000, 256);
    vstd::arithmetic::div_mod::lemma_div_denominator(x as int, 0x1000000, 256);
    vstd::arithmetic::div_mod::lemma_div_denominator(x as int, 0x10000, 256);
    vstd::arithmetic::div_mod::lemma_div_denominator(x as int, 0x100, 256);
    vstd::arithmetic::div_mod::lemma_fundamental_div_mod(d1, 256);
    vstd::arithmetic::div_mod::lemma_fundamental_div_mod(d2, 256);
    vstd::arithmetic::div_mod::lemma_fundamental_div_mod(d3, 256);
    vstd::arithmetic::div_mod::lemma_fundamental_div_mod(d4, 256);
    vstd::arithmetic::div_mod::lemma_fundamental_div_mod(d5, 256);
    vstd::arithmetic::div_mod::lemma_fundamental_div_mod(d6, 256);
    vstd::arithmetic::div_mod::lemma_fundamental_div_mod(d7, 256);
    // The most significant quotient is itself below 256.
    vstd::arithmetic::div_mod::lemma_div_is_ordered(
        x as int,
        u64::MAX as int,
        0x100000000000000,
    );
    assert(be_bytes_nat(s) == x);
}

/// Prepending bytes to an eight-byte suffix shifts their value past it.
pub proof fn lemma_be_bytes_nat_concat8(a: Seq<u8>, b: Seq<u8>)
    requires
        b.len() == 8,
    ensures
        be_bytes_nat(a + b) == be_bytes_nat(a) * 0x10000000000000000 + be_bytes_nat(b),
{
    reveal_with_fuel(be_bytes_nat, 10);
    let t7 = a + b.drop_last();
    let t6 = a + b.drop_last().drop_last();
    let t5 = a + b.drop_last().drop_last().drop_last();
    let t4 = a + b.drop_last().drop_last().drop_last().drop_last();
    let t3 = a + b.drop_last().drop_last().drop_last().drop_last().drop_last();
    let t2 = a + b.drop_last().drop_last().drop_last().drop_last().drop_last().drop_last();
    let t1 = a + b.drop_last().drop_last().drop_last().drop_last().drop_last().drop_last()
        .drop_last();
    let t0 = a + b.drop_last().drop_last().drop_last().drop_last().drop_last().drop_last()
        .drop_last().drop_last();
    assert((a + b).drop_last() =~= t7);
    assert(t7.drop_last() =~= t6);
    assert(t6.drop_last() =~= t5);
    assert(t5.drop_last() =~= t4);
    assert(t4.drop_last() =~= t3);
    assert(t3.drop_last() =~= t2);
    assert(t2.drop_last() =~= t1);
    assert(t1.drop_last() =~= t0);
    assert(t0 =~= a);
    assert(be_bytes_nat(a + b) == be_bytes_nat(a) * 0x10000000000000000 + be_bytes_nat(b));
}

/// The unsigned integer read big-endian from `s[lo..lo + 8]`.
pub open spec fn spec_be_u64_at(s: Seq<u8>, lo: int) -> u64
    recommends
        0 <= lo,
        lo + 8 <= s.len(),
{
    spec_u64_from_be_bytes(s.subrange(lo, lo + 8))
}

/// Reads the big-endian integer at `buf[lo..lo + 8]`.
pub fn be_u64_at(buf: &[u8], lo: usize) -> (x: u64)
    requires
        lo + 8 <= buf@.len(),
    ensures
        x == spec_be_u64_at(buf@, lo as int),
{
    let x = ((buf[lo] as u64) << 56) | ((buf[lo + 1] as u64) << 48) | ((buf[lo + 2] as u64) << 40)
        | ((buf[lo + 3] as u64) << 32) | ((buf[lo + 4] as u64) << 24) | ((buf[lo + 5] as u64)
        << 16) | ((buf[lo + 6] as u64) << 8) | (buf[lo + 7] as u64);
    proof {
        let sub = buf@.subrange(lo as int, lo + 8);
        assert(sub[0] == buf@[lo as int] && sub[1] == buf@[lo + 1] && sub[2] == buf@[lo + 2]
            && sub[3] == buf@[lo + 3] && sub[4] == buf@[lo + 4] && sub[5] == buf@[lo + 5] && sub[6]
            == buf@[lo + 6] && sub[7] == buf@[lo + 7]);
    }
    x
}

/// Appends the two big-endian bytes of `x` to `out`.
pub fn push_u16_be(out: &mut Vec<u8>, x: u16)
    ensures
        final(out)@ == old(out)@ + spec_u16_to_be_bytes(x),
{
    out.push(((x >> 8) & 0xff) as u8);
    out.push((x & 0xff) as u8);
    assert(out@ =~= old(out)@ + spec_u16_to_be_bytes(x));
}

/// Appends the four big-endian bytes of `x` to `out`.
pub fn push_u32_be(out: &mut Vec<u8>, x: u32)
    ensures
        final(out)@ == old(out)@ + spec_u32_to_be_bytes(x),
{
    out.push(((x >> 24) & 0xff) as u8);
    out.push(((x >> 16) & 0xff) as u8);
    out.push(((x >> 8) & 0xff) as u8);
    out.push((x & 0xff) as u8);
    assert(out@ =~= old(out)@ + spec_u32_to_be_bytes(x));
}

/// Appends the eight big-endian bytes of `x` to `out`.
pub fn push_u64_be(out: &mut Vec<u8>, x: u64)
    ensures
        final(out)@ == old(out)@ + spec_u64_to_be_bytes(x),
{
    out.push(((x >> 56) & 0xff) as u8);
    out.push(((x >> 48) & 0xff) as u8);
    out.push(((x >> 40) & 0xff) as u8);
    out.push(((x >> 32) & 0xff) as u8);
    out.push(((x >> 24) & 0xff) as u8);
    out.push(((x >> 16) & 0xff) as u8);
    out.push(((x >> 8) & 0xff) as u8);
    out.push((x & 0xff) as u8);
    assert(out@ =~= old(out)@ + spec_u64_to_be_bytes(x));
}

/// The two little-endian bytes of `x`, least significant first.
pub open spec fn spec_u16_le_bytes(x: u16) -> Seq<u8> {
    seq![(x & 0xff) as u8, ((x >> 8) & 0xff) as u8]
}

/// The four little-endian bytes of `x`, least significant first.
pub open spec fn spec_u32_le_bytes(x: u32) -> Seq<u8> {
    seq![
        (x & 0xff) as u8,
        ((x >> 8) & 0xff) as u8,
        ((x >> 16) & 0xff) as u8,
        ((x >> 24) & 0xff) as u8,
    ]
}

/// The eight little-endian bytes of `x`, least significant first.
pub open spec fn spec_u64_le_bytes(x: u64) -> Seq<u8> {
    seq![
        (x & 0xff) as u8,
        ((x >> 8) & 0xff) as u8,
        ((x >> 16) & 0xff) as u8,
        ((x >> 24) & 0xff) as u8,
        ((x >> 32) & 0xff) as u8,
        ((x >> 40) & 0xff) as u8,
        ((x >> 48) & 0xff) as u8,
        ((x >> 56) & 0xff) as u8,
    ]
}

/// The unsigned integer read little-endian from `s[lo..lo + 8]`.
pub open spec fn spec_le_u64_at(s: Seq<u8>, lo: int) -> u64
    recommends
        0 <= lo,
        lo + 8 <= s.len(),
{
    (((s[lo + 7] as u64) << 56) | ((s[lo + 6] as u64) << 48) | ((s[lo + 5] as u64) << 40) | ((s[lo
        + 4] as u64) << 32) | ((s[lo + 3] as u64) << 24) | ((s[lo + 2] as u64) << 16) | ((s[lo + 1]
        as u64) << 8) | (s[lo] as u64)) as u64
}

/// Reads the little-endian integer at `buf[lo..lo + 8]`.
pub fn le_u64_at(buf: &[u8], lo: usize) -> (x: u64)
    requires
        lo + 8 <= buf@.len(),
    ensures
        x == spec_le_u64_at(buf@, lo as int),
{
    let blen: usize = buf.len();
    assert(lo + 8 <= blen);
    ((buf[lo + 7] as u64) << 56) | ((buf[lo + 6] as u64) << 48) | ((buf[lo + 5] as u64) << 40) | ((
    buf[lo + 4] as u64) << 32) | ((buf[lo + 3] as u64) << 24) | ((buf[lo + 2] as u64) << 16) | ((
    buf[lo + 1] as u64) << 8) | (buf[lo] as u64)
}

/// Appends the two little-endian bytes of `x` to `out`.
pub fn push_u16_le(out: &mut Vec<u8>, x: u16)
    ensures
        final(out)@ == old(out)@ + spec_u16_le_bytes(x),
{
    out.push((x & 0xff) as u8);
    out.push(((x >> 8) & 0xff) as u8);
    assert(out@ =~= old(out)@ + spec_u16_le_bytes(x));
}

/// Appends the four little-endian bytes of `x` to `out`.
pub fn push_u32_le(out: &mut Vec<u8>, x: u32)
    ensures
        final(out)@ == old(out)@ + spec_u32_le_bytes(x),
{
    out.push((x & 0xff) as u8);
    out.push(((x >> 8) & 0xff) as u8);
    out.push(((x >> 16) & 0xff) as u8);
    out.push(((x >> 24) & 0xff) as u8);
    assert(out@ =~= old(out)@ + spec_u32_le_bytes(x));
}

/// Appends the eight little-endian bytes of `x` to `out`.
pub fn push_u64_le(out: &mut Vec<u8>, x: u64)
    ensures
        final(out)@ == old(out)@ + spec_u64_le_bytes(x),
{
    out.push((x & 0xff) as u8);
    out.push(((x >> 8) & 0xff) as u8);
    out.push(((x >> 16) & 0xff) as u8);
    out.push(((x >> 24) & 0xff) as u8);
    out.push(((x >> 32) & 0xff) as u8);
    out.push(((x >> 40) & 0xff) as u8);
    out.push(((x >> 48) & 0xff) as u8);
    out.push(((x >> 56) & 0xff) as u8);
    assert(out@ =~= old(out)@ + spec_u64_le_bytes(x));
}

/// Appends `src[lo..lo + n]` to `out`.
pub fn push_slice_range(out: &mut Vec<u8>, src: &[u8], lo: usize, n: usize)
    requires
        lo + n <= src@.len(),
    ensures
        final(out)@ == old(out)@ + src@.subrange(lo as int, lo + n),
{
    let srclen: usize = src.len();
    let mut i: usize = 0;
    while i < n
        invariant
            lo + n <= srclen && srclen == src@.len(),
            i <= n,
            out@ == old(out)@ + src@.subrange(lo as int, lo + i),
        decreases n - i,
    {
        out.push(src[lo + i]);
        assert(out@ =~= old(out)@ + src@.subrange(lo as int, lo + i + 1));
        i = i + 1;
    }
}

/// Copies `src[lo..lo + 32]` into a fresh 32-byte identity value.
pub fn read_bytes32(src: &[u8], lo: usize) -> (r: [u8; 32])
    requires
        lo + 32 <= src@.len(),
    ensures
        r@ == src@.subrange(lo as int, lo + 32),
{
    let mut r: [u8; 32] = [0; 32];
    let srclen: usize = src.len();
    let mut i: usize = 0;
    while i < 32
        invariant
            lo + 32 <= srclen && srclen == src@.len(),
            i <= 32,
            r@.len() == 32,
            forall|j: int| 0 <= j < i ==> r@[j] == src@[lo + j],
        decreases 32 - i,
    {
        r[i] = src[lo + i];
        i = i + 1;
    }
    assert(r@ =~= src@.subrange(lo as int, lo + 32));
    r
}

/// Whether two 32-byte identity values hold the same bytes.
pub fn bytes32_equal(a: &[u8; 32], b: &[u8; 32]) -> (r: bool)
    ensures
        r == (a@ == b@),
{
    let mut i: usize = 0;
    while i < 32
        invariant
            i <= 32,
            forall|j: int| 0 <= j < i ==> a@[j] == b@[j],
        decreases 32 - i,
    {
        if a[i] != b[i] {
            return false;
        }
        i = i + 1;
    }
    assert(a@ =~= b@);
    true
}

/// Whether a byte sequence and a 32-byte identity value hold the same bytes.
pub fn slice_equals_bytes32(a: &Vec<u8>, b: &[u8; 32]) -> (r: bool)
    ensures
        r == (a@ == b@),
{
    if a.len() != 32 {
        return false;
    }
    let mut i: usize = 0;
    while i < 32
        invariant
            a@.len() == 32,
            i <= 32,
            forall|j: int| 0 <= j < i ==> a@[j] == b@[j],
        decreases 32 - i,
    {
        if a[i] != b[i] {
            return false;
        }
        i = i + 1;
    }
    assert(a@ =~= b@);
    true
}

} // verus!
