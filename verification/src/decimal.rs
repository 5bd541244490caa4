//! Decimal ASCII rendering of chain identifiers.
//!
//! The derivation scheme seeds every derived address with the origin chain
//! identifier written as its decimal digit string, so the exact rendering is
//! a cross-system compatibility surface: no leading zeros, and `0` for zero.

use vstd::prelude::*;

verus! {

/// The ASCII decimal digits of `n`, most significant first.
pub open spec fn spec_decimal(n: nat) -> Seq<u8>
    decreases n,
{
    if n < 10 {
        seq![(48 + n) as u8]
    } else {
        spec_decimal(n / 10).push((48 + n % 10) as u8)
    }
}

/// Appends the ASCII decimal digits of `n` to `out`.
pub fn push_decimal(out: &mut Vec<u8>, n: u64)
    ensures
        final(out)@ == old(out)@ + spec_decimal(n as nat),
    decreases n,
{
    if n < 10 {
        out.push(48 + (n as u8));
        assert(out@ =~= old(out)@ + spec_decimal(n as nat));
    } else {
        push_decimal(out, n / 10);
        out.push(48 + ((n % 10) as u8));
        assert(out@ =~= old(out)@ + spec_decimal(n as nat));
    }
}

/// The decimal digit string of `n`, as `n.to_string()` would render it.
pub fn u64_to_decimal(n: u64) -> (r: Vec<u8>)
    ensures
        r@ == spec_decimal(n as nat),
{
    let mut r: Vec<u8> = Vec::new();
    push_decimal(&mut r, n);
    r
}

} // verus!
