//! The reserve and the claim tokens against it.
//!
//! A [`Pool`] holds the two quantities that every amount is computed from:
//! the reserve's balance and the number of claim tokens outstanding. The
//! price of a claim token is always reserve over supply. Each operation
//! takes the pool as the ledger shows it, leaves it as the ledger will show
//! it once the host has moved the amounts, and changes nothing when it
//! fails.

use vstd::prelude::*;
use crate::error::CustomError;
use crate::identity::Identity;
use crate::ledger::{system_transfer, transfer_of, Invocation};
use crate::math::{lemma_scaled_part_bounded, mul_div_wide, wide_mul_div};

verus! {

/// The reserve's balance and the claim-token supply.
#[derive(Clone, Copy, Debug, PartialEq, Eq, Structural)]
pub struct Pool {
    /// Units of the base asset that the reserve holds.
    pub reserve: u64,
    /// Claim tokens outstanding.
    pub supply: u64,
}

/// The pool after a deposit of `amount`: both quantities grow by `amount`.
pub open spec fn staked(pool: Pool, amount: u64) -> Result<Pool, CustomError> {
    if pool.reserve + amount > u64::MAX || pool.supply + amount > u64::MAX {
        Err(CustomError::ArithmeticOverflow)
    } else {
        Ok(Pool { reserve: (pool.reserve + amount) as u64, supply: (pool.supply + amount) as u64 })
    }
}

/// What `amount` claim tokens are worth: `floor(reserve * amount / supply)`.
pub open spec fn claim_value(pool: Pool, amount: u64) -> Result<u64, CustomError> {
    if pool.supply == 0 {
        Err(CustomError::ZeroSupply)
    } else {
        match wide_mul_div(pool.reserve, amount, pool.supply) {
            Some(value) => Ok(value),
            None => Err(CustomError::ArithmeticOverflow),
        }
    }
}

/// The amount paid out and the pool left behind when `amount` claim tokens
/// are redeemed.
pub open spec fn unstaked(pool: Pool, amount: u64) -> Result<(u64, Pool), CustomError> {
    match claim_value(pool, amount) {
        Err(e) => Err(e),
        Ok(redeem) => if amount > pool.supply || redeem > pool.reserve {
            Err(CustomError::ArithmeticOverflow)
        } else {
            Ok(
                (
                    redeem,
                    Pool {
                        reserve: (pool.reserve - redeem) as u64,
                        supply: (pool.supply - amount) as u64,
                    },
                ),
            )
        },
    }
}

/// The yield paid out and the pool left behind when a position of `amount`
/// claim tokens is harvested: the position's value less `amount` itself.
pub open spec fn harvested(pool: Pool, amount: u64) -> Result<(u64, Pool), CustomError> {
    match claim_value(pool, amount) {
        Err(e) => Err(e),
        Ok(total_value) => if total_value <= amount {
            Err(CustomError::NothingToHarvest)
        } else if total_value - amount > pool.reserve {
            Err(CustomError::ArithmeticOverflow)
        } else {
            Ok(
                (
                    (total_value - amount) as u64,
                    Pool {
                        reserve: (pool.reserve - (total_value - amount)) as u64,
                        supply: pool.supply,
                    },
                ),
            )
        },
    }
}

impl Pool {
    /// The pool with the given balance and supply.
    pub fn new(reserve: u64, supply: u64) -> (pool: Pool)
        ensures
            pool == (Pool { reserve, supply }),
    {
        Pool { reserve, supply }
    }

    /// The reserve receives `amount`.
    pub fn credit(&mut self, amount: u64) -> (r: Result<(), CustomError>)
        ensures
            old(self).reserve + amount <= u64::MAX ==> r is Ok && *final(self) == (Pool {
                reserve: (old(self).reserve + amount) as u64,
                ..*old(self)
            }),
            old(self).reserve + amount > u64::MAX ==> r == Err::<(), CustomError>(
                CustomError::ArithmeticOverflow,
            ) && *final(self) == *old(self),
    {
        match self.reserve.checked_add(amount) {
            Some(reserve) => {
                self.reserve = reserve;
                Ok(())
            },
            None => Err(CustomError::ArithmeticOverflow),
        }
    }

    /// The reserve pays out `amount`.
    pub fn debit(&mut self, amount: u64) -> (r: Result<(), CustomError>)
        ensures
            amount <= old(self).reserve ==> r is Ok && *final(self) == (Pool {
                reserve: (old(self).reserve - amount) as u64,
                ..*old(self)
            }),
            amount > old(self).reserve ==> r == Err::<(), CustomError>(
                CustomError::ArithmeticOverflow,
            ) && *final(self) == *old(self),
    {
        match self.reserve.checked_sub(amount) {
            Some(reserve) => {
                self.reserve = reserve;
                Ok(())
            },
            None => Err(CustomError::ArithmeticOverflow),
        }
    }

    /// `amount` claim tokens come into being.
    pub fn mint(&mut self, amount: u64) -> (r: Result<(), CustomError>)
        ensures
            old(self).supply + amount <= u64::MAX ==> r is Ok && *final(self) == (Pool {
                supply: (old(self).supply + amount) as u64,
                ..*old(self)
            }),
            old(self).supply + amount > u64::MAX ==> r == Err::<(), CustomError>(
                CustomError::ArithmeticOverflow,
            ) && *final(self) == *old(self),
    {
        match self.supply.checked_add(amount) {
            Some(supply) => {
                self.supply = supply;
                Ok(())
            },
            None => Err(CustomError::ArithmeticOverflow),
        }
    }

    /// `amount` claim tokens cease to be.
    pub fn burn(&mut self, amount: u64) -> (r: Result<(), CustomError>)
        ensures
            amount <= old(self).supply ==> r is Ok && *final(self) == (Pool {
                supply: (old(self).supply - amount) as u64,
                ..*old(self)
            }),
            amount > old(self).supply ==> r == Err::<(), CustomError>(
                CustomError::ArithmeticOverflow,
            ) && *final(self) == *old(self),
    {
        match self.supply.checked_sub(amount) {
            Some(supply) => {
                self.supply = supply;
                Ok(())
            },
            None => Err(CustomError::ArithmeticOverflow),
        }
    }

    /// What `amount` claim tokens are worth at the pool's present price.
    pub fn value_of(&self, amount: u64) -> (r: Result<u64, CustomError>)
        ensures
            r == claim_value(*self, amount),
    {
        if self.supply == 0 {
            return Err(CustomError::ZeroSupply);
        }
        match mul_div_wide(self.reserve, amount, self.supply) {
            Some(value) => Ok(value),
            None => Err(CustomError::ArithmeticOverflow),
        }
    }
}

/// Deposits `lamports_amount` of the base asset and issues as many claim
/// tokens, one for one and without a fee.
///
/// Returns the instruction that moves `lamports_amount` from `user` to
/// `vault`, the reserve's holding account. The host invokes it and then
/// mints `lamports_amount` claim tokens to the caller.
pub fn stake(
    pool: &mut Pool,
    user: &Identity,
    vault: &Identity,
    lamports_amount: u64,
) -> (r: Result<Invocation, CustomError>)
    ensures
        match staked(*old(pool), lamports_amount) {
            Ok(after) => r is Ok && r.unwrap()@ == transfer_of(user@, vault@, lamports_amount)
                && *final(pool) == after,
            Err(e) => r == Err::<Invocation, CustomError>(e) && *final(pool) == *old(pool),
        },
        r is Ok ==> final(pool).supply == old(pool).supply + lamports_amount && final(pool).reserve
            == old(pool).reserve + lamports_amount,
{
    let mut after: Pool = *pool;
    after.credit(lamports_amount)?;
    after.mint(lamports_amount)?;
    *pool = after;
    Ok(system_transfer(user, vault, lamports_amount))
}

/// Redeems `fsol_amount` claim tokens for their share of the reserve,
/// rounded down. Returns the amount paid out.
///
/// The host burns `fsol_amount` claim tokens of the caller and moves the
/// returned amount from the reserve to the caller.
pub fn unstake(pool: &mut Pool, fsol_amount: u64) -> (r: Result<u64, CustomError>)
    ensures
        match unstaked(*old(pool), fsol_amount) {
            Ok((redeem, after)) => r == Ok::<u64, CustomError>(redeem) && *final(pool) == after,
            Err(e) => r == Err::<u64, CustomError>(e) && *final(pool) == *old(pool),
        },
        r is Ok <==> 0 < old(pool).supply && fsol_amount <= old(pool).supply,
        r matches Ok(redeem) ==> redeem == (old(pool).reserve * fsol_amount) / (
        old(pool).supply as int) && redeem <= old(pool).reserve,
        old(pool).supply == 0 ==> r == Err::<u64, CustomError>(CustomError::ZeroSupply),
{
    proof {
        if 0 < pool.supply && fsol_amount <= pool.supply {
            lemma_scaled_part_bounded(
                pool.reserve as int,
                fsol_amount as int,
                pool.supply as int,
            );
        }
    }
    let redeem = pool.value_of(fsol_amount)?;
    let mut after: Pool = *pool;
    after.burn(fsol_amount)?;
    after.debit(redeem)?;
    *pool = after;
    Ok(redeem)
}

/// Pays out the yield on a position of `fsol_amount` claim tokens and leaves
/// the claim tokens where they are. Returns the amount paid out, which is
/// never zero.
///
/// The host moves the returned amount from the reserve to the caller.
pub fn harvest(pool: &mut Pool, fsol_amount: u64) -> (r: Result<u64, CustomError>)
    ensures
        match harvested(*old(pool), fsol_amount) {
            Ok((owed, after)) => r == Ok::<u64, CustomError>(owed) && *final(pool) == after,
            Err(e) => r == Err::<u64, CustomError>(e) && *final(pool) == *old(pool),
        },
        r matches Ok(owed) ==> owed > 0 && owed == (old(pool).reserve * fsol_amount) / (
        old(pool).supply as int) - fsol_amount && final(pool).supply == old(pool).supply,
        old(pool).supply == 0 ==> r == Err::<u64, CustomError>(CustomError::ZeroSupply),
{
    let total_value = pool.value_of(fsol_amount)?;
    if total_value <= fsol_amount {
        return Err(CustomError::NothingToHarvest);
    }
    let owed: u64 = total_value - fsol_amount;
    let mut after: Pool = *pool;
    after.debit(owed)?;
    *pool = after;
    Ok(owed)
}

} // verus!
