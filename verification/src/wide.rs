//! Natural numbers of any size, as little-endian limbs of 64 bits.
//!
//! A parlay multiplies a stake by the numerators of all its legs before it
//! divides by their denominators, so the intermediate value has no bound
//! that a machine integer could hold.

use vstd::prelude::*;
use vstd::arithmetic::div_mod::lemma_fundamental_div_mod_converse;

verus! {

/// The radix: one more than the largest limb.
pub open spec fn radix() -> nat {
    0x1_0000_0000_0000_0000
}

/// The weight of the limb at position `i`: the radix to the power `i`.
pub open spec fn weight(i: nat) -> nat
    decreases i,
{
    if i == 0 {
        1
    } else {
        radix() * weight((i - 1) as nat)
    }
}

/// The number that a sequence of limbs stands for, least significant limb
/// first.
pub open spec fn value(limbs: Seq<u64>) -> nat
    decreases limbs.len(),
{
    if limbs.len() == 0 {
        0
    } else {
        value(limbs.drop_last()) + limbs.last() as nat * weight((limbs.len() - 1) as nat)
    }
}

/// The value of a number read from its lowest limb: that limb, plus the
/// radix times the value of the limbs above it.
pub proof fn lemma_value_front(limbs: Seq<u64>)
    requires
        limbs.len() > 0,
    ensures
        value(limbs) == limbs[0] as nat + radix() * value(limbs.drop_first()),
    decreases limbs.len(),
{
    let n = limbs.len();
    if n == 1 {
        assert(limbs.drop_first().len() == 0);
        assert(value(limbs.drop_last()) == 0);
        assert(weight(0) == 1);
    } else {
        let low = limbs.drop_last();
        let high = limbs.drop_first();
        lemma_value_front(low);
        assert(low.drop_first() =~= high.drop_last());
        let w = weight((n - 2) as nat);
        let top = limbs.last() as nat;
        let mid = value(high.drop_last());
        assert(radix() * (mid + top * w) == radix() * mid + top * (radix() * w))
            by (nonlinear_arith);
    }
}

/// Limbs that are all zero stand for zero.
pub proof fn lemma_value_of_zeros(limbs: Seq<u64>)
    requires
        forall|i: int| 0 <= i < limbs.len() ==> limbs[i] == 0,
    ensures
        value(limbs) == 0,
    decreases limbs.len(),
{
    if limbs.len() > 0 {
        lemma_value_of_zeros(limbs.drop_last());
        assert(limbs.last() as nat * weight((limbs.len() - 1) as nat) == 0) by (nonlinear_arith)
            requires
                limbs.last() == 0,
        ;
    }
}

/// Limbs of which one is not zero stand for a number that is not zero.
pub proof fn lemma_value_positive(limbs: Seq<u64>, k: int)
    requires
        0 <= k < limbs.len(),
        limbs[k] != 0,
    ensures
        value(limbs) >= 1,
    decreases limbs.len(),
{
    lemma_value_front(limbs);
    if k > 0 {
        lemma_value_positive(limbs.drop_first(), k - 1);
        assert(radix() * value(limbs.drop_first()) >= 1) by (nonlinear_arith)
            requires
                value(limbs.drop_first()) >= 1,
                radix() >= 1,
        ;
    }
}

/// The limbs of `m` times the number that `x` holds.
pub(crate) fn scale(x: &Vec<u64>, m: u64) -> (r: Vec<u64>)
    ensures
        value(r@) == value(x@) * m,
{
    let mut out: Vec<u64> = Vec::new();
    let mut carry: u64 = 0;
    let mut i: usize = 0;
    proof {
        assert(value(x@.take(0)) * m == 0) by (nonlinear_arith)
            requires
                value(x@.take(0)) == 0,
        ;
        assert(carry * weight(0) == 0) by (nonlinear_arith)
            requires
                carry == 0,
        ;
    }
    while i < x.len()
        invariant
            i <= x.len(),
            out.len() == i,
            value(out@) + carry * weight(i as nat) == value(x@.take(i as int)) * m,
        decreases x.len() - i,
    {
        let limb: u64 = x[i];
        assert((limb as u128) * (m as u128) <= 0xffff_ffff_ffff_ffffu128 * 0xffff_ffff_ffff_ffffu128)
            by (nonlinear_arith)
            requires
                limb <= 0xffff_ffff_ffff_ffffu64,
                m <= 0xffff_ffff_ffff_ffffu64,
        ;
        let t: u128 = (limb as u128) * (m as u128) + (carry as u128);
        let lo: u64 = (t % 0x1_0000_0000_0000_0000u128) as u64;
        let hi: u64 = (t / 0x1_0000_0000_0000_0000u128) as u64;
        proof {
            let w = weight(i as nat);
            let before = value(x@.take(i as int));
            assert(out@.push(lo).drop_last() =~= out@);
            assert(x@.take(i + 1).drop_last() =~= x@.take(i as int));
            assert(value(out@) + lo * w + hi * (radix() * w) == (before + limb * w) * m)
                by (nonlinear_arith)
                requires
                    value(out@) + carry * w == before * m,
                    limb * m + carry == lo + hi * radix(),
            ;
        }
        out.push(lo);
        carry = hi;
        i += 1;
    }
    proof {
        assert(x@.take(x.len() as int) =~= x@);
        assert(out@.push(carry).drop_last() =~= out@);
    }
    out.push(carry);
    out
}

/// The limbs of the number that `x` holds, divided by `d` and rounded down.
pub(crate) fn shrink(x: &Vec<u64>, d: u64) -> (r: Vec<u64>)
    requires
        d > 0,
    ensures
        value(r@) == value(x@) / (d as nat),
{
    let n: usize = x.len();
    let mut out: Vec<u64> = Vec::new();
    let mut k: usize = 0;
    while k < n
        invariant
            k <= n,
            out.len() == k,
        decreases n - k,
    {
        out.push(0);
        k += 1;
    }
    let mut rem: u64 = 0;
    let mut i: usize = n;
    proof {
        assert(0 * (d as nat) == 0);
    }
    while i > 0
        invariant
            i <= n,
            n == x.len(),
            out.len() == n,
            d > 0,
            rem < d,
            value(x@.skip(i as int)) == value(out@.skip(i as int)) * d + rem,
        decreases i,
    {
        let ghost above_x = x@.skip(i as int);
        let ghost above_out = out@.skip(i as int);
        i -= 1;
        let cur: u128 = (rem as u128) * 0x1_0000_0000_0000_0000u128 + (x[i] as u128);
        let q: u128 = cur / (d as u128);
        let next: u128 = cur % (d as u128);
        assert(q <= 0xffff_ffff_ffff_ffffu128 && cur == q * d + next) by (nonlinear_arith)
            requires
                cur == rem * 0x1_0000_0000_0000_0000 + x[i as int],
                rem < d,
                d > 0,
                q == cur / (d as u128),
                next == cur % (d as u128),
        ;
        out.set(i, q as u64);
        proof {
            let sx = x@.skip(i as int);
            let so = out@.skip(i as int);
            lemma_value_front(sx);
            lemma_value_front(so);
            assert(sx.drop_first() =~= above_x);
            assert(so.drop_first() =~= above_out);
            assert(value(sx) == (q + radix() * value(above_out)) * d + next) by (nonlinear_arith)
                requires
                    value(sx) == x[i as int] + radix() * value(above_x),
                    value(above_x) == value(above_out) * d + rem,
                    rem * radix() + x[i as int] == q * d + next,
            ;
        }
        rem = next as u64;
    }
    proof {
        assert(x@.skip(0) =~= x@);
        assert(out@.skip(0) =~= out@);
        lemma_fundamental_div_mod_converse(
            value(x@) as int,
            d as int,
            value(out@) as int,
            rem as int,
        );
    }
    out
}

/// The number that `x` holds, or the largest `u64` where it is above that.
pub(crate) fn saturate(x: &Vec<u64>) -> (r: u64)
    ensures
        r == if value(x@) > u64::MAX {
            u64::MAX as nat
        } else {
            value(x@)
        },
{
    if x.len() == 0 {
        return 0;
    }
    proof {
        lemma_value_front(x@);
    }
    let mut i: usize = 1;
    while i < x.len()
        invariant
            1 <= i <= x.len(),
            forall|k: int| 1 <= k < i ==> x[k] == 0,
            value(x@) == x[0] as nat + radix() * value(x@.drop_first()),
        decreases x.len() - i,
    {
        if x[i] != 0 {
            proof {
                lemma_value_positive(x@.drop_first(), i - 1);
                assert(radix() * value(x@.drop_first()) >= radix()) by (nonlinear_arith)
                    requires
                        value(x@.drop_first()) >= 1,
                ;
            }
            return u64::MAX;
        }
        i += 1;
    }
    proof {
        lemma_value_of_zeros(x@.drop_first());
    }
    x[0]
}

} // verus!
