//! The rule by which disputes against a declared outcome are weighed.

use vstd::prelude::*;
use crate::settlement::lemma_product_fits;

verus! {

/// Whether the disputes raised so far are credible.
///
/// With `disagree_ratio = disagree_count / participation_count`,
/// `trust_ratio = disagree_trust / total_trust` and
/// `volume_ratio = disagree_volume / losing_pool`, the disputes are credible
/// if `disagree_ratio < trust_ratio * volume_ratio`. The ratios are compared
/// exactly, by cross-multiplication; a ratio over zero never makes the left
/// side smaller.
pub open spec fn dispute_is_credible(
    disagree_count: nat,
    disagree_trust: nat,
    disagree_volume: nat,
    participation_count: nat,
    total_trust: nat,
    losing_pool: nat,
) -> bool {
    disagree_count * total_trust * losing_pool < disagree_trust * disagree_volume
        * participation_count
}

/// A number below 2^192, as `hi * 2^64 + lo`.
struct Wide {
    hi: u128,
    lo: u64,
}

impl Wide {
    spec fn value(self) -> nat {
        (self.hi * 0x1_0000_0000_0000_0000 + self.lo) as nat
    }

    /// Whether `self` is the smaller number.
    fn less_than(&self, other: &Wide) -> (less: bool)
        ensures
            less == (self.value() < other.value()),
    {
        self.hi < other.hi || (self.hi == other.hi && self.lo < other.lo)
    }
}

/// The product of three 64-bit numbers.
fn product_of_three(a: u64, b: u64, c: u64) -> (w: Wide)
    ensures
        w.value() == a * b * c,
{
    proof {
        lemma_product_fits(a, b);
    }
    let ab: u128 = (a as u128) * (b as u128);
    let high: u64 = (ab / 0x1_0000_0000_0000_0000) as u64;
    let low: u64 = (ab % 0x1_0000_0000_0000_0000) as u64;
    proof {
        lemma_product_fits(high, c);
        lemma_product_fits(low, c);
    }
    let upper: u128 = (high as u128) * (c as u128);
    let lower: u128 = (low as u128) * (c as u128);
    let carry: u64 = (lower / 0x1_0000_0000_0000_0000) as u64;
    let rest: u64 = (lower % 0x1_0000_0000_0000_0000) as u64;
    proof {
        assert(ab <= 0xffff_ffff_ffff_fffe_0000_0000_0000_0001) by (nonlinear_arith)
            requires
                ab == a * b,
                a <= 0xffff_ffff_ffff_ffff,
                b <= 0xffff_ffff_ffff_ffff,
        ;
        assert(high <= 0xffff_ffff_ffff_fffe);
        assert(upper <= 0xffff_ffff_ffff_fffe * 0xffff_ffff_ffff_ffff) by (nonlinear_arith)
            requires
                upper == high * c,
                high <= 0xffff_ffff_ffff_fffe,
                c <= 0xffff_ffff_ffff_ffff,
        ;
        assert(a * b * c == (upper + carry) * 0x1_0000_0000_0000_0000 + rest) by (nonlinear_arith)
            requires
                a * b == high * 0x1_0000_0000_0000_0000 + low,
                upper == high * c,
                low * c == carry * 0x1_0000_0000_0000_0000 + rest,
        ;
    }
    Wide { hi: upper + carry as u128, lo: rest }
}

/// Weighs the disputes against an outcome: see [`dispute_is_credible`].
pub fn is_dispute_credible(
    disagree_count: u64,
    disagree_trust: u64,
    disagree_volume: u64,
    participation_count: u64,
    total_trust: u64,
    losing_pool: u64,
) -> (credible: bool)
    ensures
        credible == dispute_is_credible(
            disagree_count as nat,
            disagree_trust as nat,
            disagree_volume as nat,
            participation_count as nat,
            total_trust as nat,
            losing_pool as nat,
        ),
{
    let left = product_of_three(disagree_count, total_trust, losing_pool);
    let right = product_of_three(disagree_trust, disagree_volume, participation_count);
    left.less_than(&right)
}

} // verus!
