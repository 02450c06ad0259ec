//! House-fee computation and the referral split, shared by both game
//! engines. All arithmetic is exact integer arithmetic; the fee is computed
//! through a widened intermediate so it can never overflow.

use vstd::arithmetic::div_mod::{lemma_div_is_ordered, lemma_div_multiples_vanish};
use vstd::arithmetic::mul::lemma_mul_inequality;
use vstd::prelude::*;

verus! {

/// The house fee on `stake` at `bps` basis points: `floor(stake * bps / 10000)`.
pub open spec fn fee_of(stake: u64, bps: u16) -> int {
    (stake * bps) / 10000
}

/// The fee never exceeds the stake when the rate is at most 100%.
pub proof fn lemma_fee_le_stake(stake: u64, bps: u16)
    requires
        bps <= 10000,
    ensures
        0 <= fee_of(stake, bps) <= stake,
{
    lemma_mul_inequality(bps as int, 10000, stake as int);
    assert(stake * bps == bps * stake) by (nonlinear_arith);
    lemma_div_is_ordered(stake * bps, stake * 10000, 10000);
    lemma_div_multiples_vanish(stake as int, 10000);
    assert(stake * 10000 == 10000 * stake) by (nonlinear_arith);
    lemma_div_is_ordered(0, stake * bps, 10000);
    assert(stake * bps >= 0) by (nonlinear_arith);
}

/// House fee for one stake, in the smallest currency unit.
pub fn compute_fee(stake: u64, bps: u16) -> (r: u64)
    requires
        bps <= 10000,
    ensures
        r == fee_of(stake, bps),
        r <= stake,
{
    proof {
        lemma_fee_le_stake(stake, bps);
    }
    let wide: u128 = (stake as u128) * (bps as u128) / 10000;
    wide as u64
}

/// Split a collected fee between the referring participant and the house:
/// a fifth to the referrer when a valid one is present, the rest to the
/// house; the two cuts always add back up to the whole fee.
pub fn split_referral(fee: u64, has_valid_referrer: bool) -> (r: (u64, u64))
    ensures
        r.0 == if has_valid_referrer {
            fee as int / 5
        } else {
            0int
        },
        r.1 == fee - r.0,
        r.0 + r.1 == fee,
        r.0 <= fee,
{
    if has_valid_referrer {
        let affiliate_cut = fee / 5;
        (affiliate_cut, fee - affiliate_cut)
    } else {
        (0, fee)
    }
}

} // verus!
