//! A 256-bit unsigned integer decoded from a 32-byte big-endian field.
//!
//! The destination-chain identifier of several payload layouts is such a
//! field. It is decoded and validated but not otherwise consumed, so the
//! value is kept as four 64-bit limbs, most significant first.

use vstd::prelude::*;

use crate::bytes::{
    be_bytes_nat, be_u64_at, lemma_be_bytes_nat_concat8, lemma_u64_be_bytes_round_trip,
    lemma_u64_be_bytes_value, push_u64_be, spec_be_u64_at, spec_u64_to_be_bytes,
};

verus! {

/// A 256-bit unsigned integer; `limbs[0]` is the most significant limb.
#[derive(Clone, Copy, Debug, PartialEq, Eq)]
pub struct Wide256 {
    pub limbs: [u64; 4],
}

impl Wide256 {
    /// The mathematical value of this integer.
    pub open spec fn as_nat(self) -> nat {
        (self.limbs[0] as nat) * 0x1000000000000000000000000000000000000000000000000
            + (self.limbs[1] as nat) * 0x100000000000000000000000000000000 + (self.limbs[2] as nat)
            * 0x10000000000000000 + (self.limbs[3] as nat)
    }
}

/// The 256-bit integer read big-endian from `s[lo..lo + 32]`.
pub open spec fn spec_wide_from_bytes(s: Seq<u8>, lo: int) -> Wide256
    recommends
        0 <= lo,
        lo + 32 <= s.len(),
{
    Wide256 {
        limbs: [
            spec_be_u64_at(s, lo),
            spec_be_u64_at(s, lo + 8),
            spec_be_u64_at(s, lo + 16),
            spec_be_u64_at(s, lo + 24),
        ],
    }
}

/// The 32 big-endian bytes of `w`, most significant first.
pub open spec fn spec_wide_to_bytes(w: Wide256) -> Seq<u8> {
    spec_u64_to_be_bytes(w.limbs[0]) + spec_u64_to_be_bytes(w.limbs[1]) + spec_u64_to_be_bytes(
        w.limbs[2],
    ) + spec_u64_to_be_bytes(w.limbs[3])
}

/// Reads the 256-bit big-endian integer at `buf[lo..lo + 32]`.
pub fn wide_from_be_bytes(buf: &[u8], lo: usize) -> (w: Wide256)
    requires
        lo + 32 <= buf@.len(),
    ensures
        w == spec_wide_from_bytes(buf@, lo as int),
{
    let blen: usize = buf.len();
    assert(lo + 32 <= blen);
    let l0 = be_u64_at(buf, lo);
    let l1 = be_u64_at(buf, lo + 8);
    let l2 = be_u64_at(buf, lo + 16);
    let l3 = be_u64_at(buf, lo + 24);
    Wide256 { limbs: [l0, l1, l2, l3] }
}

/// Appends the 32 big-endian bytes of `w` to `out`.
pub fn push_wide_be(out: &mut Vec<u8>, w: &Wide256)
    ensures
        final(out)@ == old(out)@ + spec_wide_to_bytes(*w),
{
    push_u64_be(out, w.limbs[0]);
    push_u64_be(out, w.limbs[1]);
    push_u64_be(out, w.limbs[2]);
    push_u64_be(out, w.limbs[3]);
    assert(out@ =~= old(out)@ + spec_wide_to_bytes(*w));
}

/// The value of the decoded wide integer is exactly the unsigned value
/// spelled big-endian by the 32 bytes it was read from.
pub proof fn lemma_wide_value(s: Seq<u8>, lo: int)
    requires
        0 <= lo,
        lo + 32 <= s.len(),
    ensures
        spec_wide_from_bytes(s, lo).as_nat() == be_bytes_nat(s.subrange(lo, lo + 32)),
{
    let w = spec_wide_from_bytes(s, lo);
    let c0 = s.subrange(lo, lo + 8);
    let c1 = s.subrange(lo + 8, lo + 16);
    let c2 = s.subrange(lo + 16, lo + 24);
    let c3 = s.subrange(lo + 24, lo + 32);
    // Each limb spells the value of its own eight bytes.
    lemma_u64_be_bytes_round_trip(c0);
    lemma_u64_be_bytes_round_trip(c1);
    lemma_u64_be_bytes_round_trip(c2);
    lemma_u64_be_bytes_round_trip(c3);
    lemma_u64_be_bytes_value(w.limbs[0]);
    lemma_u64_be_bytes_value(w.limbs[1]);
    lemma_u64_be_bytes_value(w.limbs[2]);
    lemma_u64_be_bytes_value(w.limbs[3]);
    // The 32 bytes are the four limb fields in order.
    assert(s.subrange(lo, lo + 32) =~= c0 + c1 + c2 + c3);
    lemma_be_bytes_nat_concat8(c0 + c1 + c2, c3);
    lemma_be_bytes_nat_concat8(c0 + c1, c2);
    lemma_be_bytes_nat_concat8(c0, c1);
}

/// Reading a 32-byte big-endian field and writing the value back yields the
/// original 32 bytes.
pub proof fn lemma_wide_round_trip(s: Seq<u8>, lo: int)
    requires
        0 <= lo,
        lo + 32 <= s.len(),
    ensures
        spec_wide_to_bytes(spec_wide_from_bytes(s, lo)) == s.subrange(lo, lo + 32),
{
    lemma_u64_be_bytes_round_trip(s.subrange(lo, lo + 8));
    lemma_u64_be_bytes_round_trip(s.subrange(lo + 8, lo + 16));
    lemma_u64_be_bytes_round_trip(s.subrange(lo + 16, lo + 24));
    lemma_u64_be_bytes_round_trip(s.subrange(lo + 24, lo + 32));
    assert(spec_wide_to_bytes(spec_wide_from_bytes(s, lo)) =~= s.subrange(lo, lo + 32));
}

} // verus!
