//! The protocol's parameters and the operations that change them.
//!
//! There is one configuration. It is made once by [`initialize`] and changed
//! afterwards only by its authority.

use vstd::prelude::*;
use crate::error::CustomError;
use crate::identity::Identity;

verus! {

/// A fee rate that replaces the base rate for loans of at least `threshold`.
#[derive(Clone, Copy, Debug, PartialEq, Eq, Structural)]
pub struct FeeTier {
    pub threshold: u64,
    pub numerator: u64,
    pub denominator: u64,
}

/// The global parameters.
#[derive(Clone, Debug, PartialEq, Eq)]
pub struct Config {
    /// Who may change the configuration. Never reassigned.
    pub authority: Identity,
    /// The claim token that this instance issues.
    pub fsol_mint: Identity,
    /// The base flash-loan fee rate, `fee_numerator / fee_denominator`.
    pub fee_numerator: u64,
    pub fee_denominator: u64,
    /// Where the protocol's share of each fee goes.
    pub treasury: Identity,
    /// The fraction of each fee that goes to the treasury.
    pub treasury_fee_numerator: u64,
    pub treasury_fee_denominator: u64,
    /// The largest principal of a single loan.
    pub max_flash_loan_amount: u64,
    /// The time that must pass between two loans of one caller.
    pub cooldown_slots: u64,
    /// While set, flash loans are refused.
    pub paused: bool,
    /// The fee tiers in the order in which they were added.
    pub fee_tiers: Vec<FeeTier>,
    /// Addressing data of the configuration's own account.
    pub bump: u8,
    /// Addressing data of the reserve's holding account.
    pub vault_bump: u8,
}

/// A configuration as a mathematical value.
pub struct ConfigView {
    pub authority: Seq<u8>,
    pub fsol_mint: Seq<u8>,
    pub fee_numerator: u64,
    pub fee_denominator: u64,
    pub treasury: Seq<u8>,
    pub treasury_fee_numerator: u64,
    pub treasury_fee_denominator: u64,
    pub max_flash_loan_amount: u64,
    pub cooldown_slots: u64,
    pub paused: bool,
    pub fee_tiers: Seq<FeeTier>,
    pub bump: u8,
    pub vault_bump: u8,
}

impl View for Config {
    type V = ConfigView;

    open spec fn view(&self) -> ConfigView {
        ConfigView {
            authority: self.authority@,
            fsol_mint: self.fsol_mint@,
            fee_numerator: self.fee_numerator,
            fee_denominator: self.fee_denominator,
            treasury: self.treasury@,
            treasury_fee_numerator: self.treasury_fee_numerator,
            treasury_fee_denominator: self.treasury_fee_denominator,
            max_flash_loan_amount: self.max_flash_loan_amount,
            cooldown_slots: self.cooldown_slots,
            paused: self.paused,
            fee_tiers: self.fee_tiers@,
            bump: self.bump,
            vault_bump: self.vault_bump,
        }
    }
}

/// Makes the configuration: the given parameters, flash loans not paused, no
/// fee tiers.
pub fn initialize(
    authority: Identity,
    fsol_mint: Identity,
    fee_numerator: u64,
    fee_denominator: u64,
    treasury: Identity,
    treasury_fee_numerator: u64,
    treasury_fee_denominator: u64,
    max_flash_loan_amount: u64,
    cooldown_slots: u64,
    bump: u8,
    vault_bump: u8,
) -> (cfg: Config)
    ensures
        cfg@ == (ConfigView {
            authority: authority@,
            fsol_mint: fsol_mint@,
            fee_numerator,
            fee_denominator,
            treasury: treasury@,
            treasury_fee_numerator,
            treasury_fee_denominator,
            max_flash_loan_amount,
            cooldown_slots,
            paused: false,
            fee_tiers: Seq::<FeeTier>::empty(),
            bump,
            vault_bump,
        }),
{
    Config {
        authority,
        fsol_mint,
        fee_numerator,
        fee_denominator,
        treasury,
        treasury_fee_numerator,
        treasury_fee_denominator,
        max_flash_loan_amount,
        cooldown_slots,
        paused: false,
        fee_tiers: Vec::new(),
        bump,
        vault_bump,
    }
}

/// Replaces the base fee rate. Only the authority may.
pub fn update_fees(
    cfg: &mut Config,
    caller: &Identity,
    new_fee_numerator: u64,
    new_fee_denominator: u64,
) -> (r: Result<(), CustomError>)
    ensures
        caller@ == old(cfg)@.authority ==> r is Ok && final(cfg)@ == (ConfigView {
            fee_numerator: new_fee_numerator,
            fee_denominator: new_fee_denominator,
            ..old(cfg)@
        }),
        caller@ != old(cfg)@.authority ==> r == Err::<(), CustomError>(CustomError::Unauthorized)
            && *final(cfg) == *old(cfg),
{
    if !caller.same(&cfg.authority) {
        return Err(CustomError::Unauthorized);
    }
    cfg.fee_numerator = new_fee_numerator;
    cfg.fee_denominator = new_fee_denominator;
    Ok(())
}

/// Pauses or resumes flash loans. Only the authority may.
pub fn set_pause(cfg: &mut Config, caller: &Identity, paused: bool) -> (r: Result<
    (),
    CustomError,
>)
    ensures
        caller@ == old(cfg)@.authority ==> r is Ok && final(cfg)@ == (ConfigView {
            paused,
            ..old(cfg)@
        }),
        caller@ != old(cfg)@.authority ==> r == Err::<(), CustomError>(CustomError::Unauthorized)
            && *final(cfg) == *old(cfg),
{
    if !caller.same(&cfg.authority) {
        return Err(CustomError::Unauthorized);
    }
    cfg.paused = paused;
    Ok(())
}

/// Appends a fee tier behind those already there. Only the authority may.
pub fn add_fee_tier(
    cfg: &mut Config,
    caller: &Identity,
    threshold: u64,
    numerator: u64,
    denominator: u64,
) -> (r: Result<(), CustomError>)
    ensures
        caller@ == old(cfg)@.authority ==> r is Ok && final(cfg)@ == (ConfigView {
            fee_tiers: old(cfg)@.fee_tiers.push(FeeTier { threshold, numerator, denominator }),
            ..old(cfg)@
        }),
        caller@ != old(cfg)@.authority ==> r == Err::<(), CustomError>(CustomError::Unauthorized)
            && *final(cfg) == *old(cfg),
{
    if !caller.same(&cfg.authority) {
        return Err(CustomError::Unauthorized);
    }
    cfg.fee_tiers.push(FeeTier { threshold, numerator, denominator });
    Ok(())
}

/// Removes every fee tier. Only the authority may.
pub fn clear_fee_tiers(cfg: &mut Config, caller: &Identity) -> (r: Result<(), CustomError>)
    ensures
        caller@ == old(cfg)@.authority ==> r is Ok && final(cfg)@ == (ConfigView {
            fee_tiers: Seq::<FeeTier>::empty(),
            ..old(cfg)@
        }),
        caller@ != old(cfg)@.authority ==> r == Err::<(), CustomError>(CustomError::Unauthorized)
            && *final(cfg) == *old(cfg),
{
    if !caller.same(&cfg.authority) {
        return Err(CustomError::Unauthorized);
    }
    cfg.fee_tiers.clear();
    Ok(())
}

} // verus!
