//! What a flash loan costs and who gets the fee.
//!
//! The fee is the principal scaled by a rate. The rate is the base rate
//! unless a tier qualifies; of the qualifying tiers the one added last wins,
//! whatever its threshold. Fee arithmetic stays within 64 bits and fails
//! rather than wrap.

use vstd::prelude::*;
use crate::config::{Config, ConfigView, FeeTier};
use crate::error::CustomError;
use crate::math::{checked_mul_div, mul_div};

verus! {

/// How a fee is divided between the treasury and the reserve.
#[derive(Clone, Copy, Debug, PartialEq, Eq, Structural)]
pub struct FeeSplit {
    /// The part that leaves for the treasury.
    pub treasury_share: u64,
    /// The part that stays in the reserve.
    pub vault_share: u64,
}

/// The tier that applies to `amount`: searching from the tier added last
/// towards the first, the first one whose threshold `amount` reaches.
pub open spec fn qualifying_tier(tiers: Seq<FeeTier>, amount: u64) -> Option<FeeTier>
    decreases tiers.len(),
{
    if tiers.len() == 0 {
        None
    } else if tiers.last().threshold <= amount {
        Some(tiers.last())
    } else {
        qualifying_tier(tiers.drop_last(), amount)
    }
}

/// The fee for a loan of `amount`: the base fee, replaced by the qualifying
/// tier's fee if there is one. `None` when the base fee or the tier's fee
/// cannot be computed within 64 bits or its denominator is zero.
pub open spec fn loan_fee(cfg: ConfigView, amount: u64) -> Option<u64> {
    match checked_mul_div(amount, cfg.fee_numerator, cfg.fee_denominator) {
        None => None,
        Some(base) => match qualifying_tier(cfg.fee_tiers, amount) {
            None => Some(base),
            Some(tier) => checked_mul_div(amount, tier.numerator, tier.denominator),
        },
    }
}

/// The division of `fee`: the treasury gets its fraction rounded down, the
/// reserve the rest. `None` when the treasury's part cannot be computed
/// within 64 bits or exceeds the fee.
pub open spec fn fee_split(cfg: ConfigView, fee: u64) -> Option<FeeSplit> {
    match checked_mul_div(fee, cfg.treasury_fee_numerator, cfg.treasury_fee_denominator) {
        None => None,
        Some(treasury_share) => if treasury_share > fee {
            None
        } else {
            Some(FeeSplit { treasury_share, vault_share: (fee - treasury_share) as u64 })
        },
    }
}

/// Picks the tier that applies to `amount`, if any.
pub fn select_tier(tiers: &Vec<FeeTier>, amount: u64) -> (r: Option<FeeTier>)
    ensures
        r == qualifying_tier(tiers@, amount),
{
    let mut i: usize = tiers.len();
    proof {
        assert(tiers@.take(i as int) =~= tiers@);
    }
    while i > 0
        invariant
            i <= tiers.len(),
            qualifying_tier(tiers@, amount) == qualifying_tier(tiers@.take(i as int), amount),
        decreases i,
    {
        proof {
            let prefix = tiers@.take(i as int);
            assert(prefix.last() == tiers@[i - 1]);
            assert(prefix.drop_last() =~= tiers@.take(i - 1));
        }
        i -= 1;
        let tier = tiers[i];
        if tier.threshold <= amount {
            return Some(tier);
        }
    }
    None
}

/// The fee for a flash loan of `amount`.
pub fn flash_fee(cfg: &Config, amount: u64) -> (r: Result<u64, CustomError>)
    ensures
        match loan_fee(cfg@, amount) {
            Some(fee) => r == Ok::<u64, CustomError>(fee),
            None => r == Err::<u64, CustomError>(CustomError::ArithmeticOverflow),
        },
{
    let base = match mul_div(amount, cfg.fee_numerator, cfg.fee_denominator) {
        Some(base) => base,
        None => {
            return Err(CustomError::ArithmeticOverflow);
        },
    };
    match select_tier(&cfg.fee_tiers, amount) {
        None => Ok(base),
        Some(tier) => match mul_div(amount, tier.numerator, tier.denominator) {
            Some(fee) => Ok(fee),
            None => Err(CustomError::ArithmeticOverflow),
        },
    }
}

/// Divides `fee` between the treasury and the reserve.
pub fn split_fee(cfg: &Config, fee: u64) -> (r: Result<FeeSplit, CustomError>)
    ensures
        match fee_split(cfg@, fee) {
            Some(split) => r == Ok::<FeeSplit, CustomError>(split),
            None => r == Err::<FeeSplit, CustomError>(CustomError::ArithmeticOverflow),
        },
        r matches Ok(split) ==> split.treasury_share + split.vault_share == fee,
{
    let treasury_share = match mul_div(
        fee,
        cfg.treasury_fee_numerator,
        cfg.treasury_fee_denominator,
    ) {
        Some(share) => share,
        None => {
            return Err(CustomError::ArithmeticOverflow);
        },
    };
    match fee.checked_sub(treasury_share) {
        Some(vault_share) => Ok(FeeSplit { treasury_share, vault_share }),
        None => Err(CustomError::ArithmeticOverflow),
    }
}

} // verus!
