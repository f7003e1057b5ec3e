//! The flash loan: an uncollateralised loan of claim tokens that is issued,
//! used and repaid with a fee within one operation.
//!
//! A loan runs through fixed steps: the guards and the fee, the mint, the
//! call into the borrower, the check of the borrower's signal, the burn of
//! the principal, the fee's division and its two payments, and at last the
//! note of the time in the caller's record. A failure at any step aborts the
//! loan.
//!
//! [`advance`] is the loan as a state machine for a host that performs the
//! steps on a real ledger: it is handed what happened and answers with what
//! to do next. [`flash_loan`] is the loan as one operation on a [`Pool`],
//! given what the borrower left behind.

use vstd::prelude::*;
use crate::config::{Config, ConfigView};
use crate::error::CustomError;
use crate::fees::{fee_split, flash_fee, loan_fee, split_fee, FeeSplit};
use crate::identity::Identity;
use crate::ledger::{system_transfer, transfer_of, Invocation, InvocationView};
use crate::pool::Pool;
use crate::record::{cooldown_elapsed, cooldown_over, FlashRecord};

verus! {

/// What was agreed when a loan passed the guards.
#[derive(Clone, Copy, Debug, PartialEq, Eq, Structural)]
pub struct LoanTerms {
    /// The principal.
    pub amount: u64,
    /// The fee owed on it.
    pub fee: u64,
    /// The time at which the loan was requested.
    pub slot: u64,
}

/// Who takes part in a loan besides the treasury.
#[derive(Clone, Copy, Debug, PartialEq, Eq)]
pub struct Parties {
    /// The caller, who borrows and pays the fee.
    pub user: Identity,
    /// The reserve's holding account.
    pub vault: Identity,
}

/// What a completed loan moved.
#[derive(Clone, Copy, Debug, PartialEq, Eq, Structural)]
pub struct LoanReceipt {
    /// The principal, minted and burned again.
    pub amount: u64,
    /// The fee that the caller paid in all.
    pub fee: u64,
    /// The part of the fee that went to the treasury.
    pub treasury_share: u64,
    /// The part of the fee that stayed in the reserve.
    pub vault_share: u64,
}

/// Where a loan stands.
#[derive(Clone, Copy, Debug, PartialEq, Eq)]
pub enum LoanState {
    /// Nothing has been requested.
    Idle,
    /// The guards passed and the fee is fixed; the principal is being minted.
    LoanIssued { terms: LoanTerms, parties: Parties },
    /// The principal is minted; the borrower is being called.
    CallbackPending { terms: LoanTerms, parties: Parties },
    /// The borrower signalled success; the principal is being burned.
    Repaying { terms: LoanTerms, parties: Parties },
    /// The principal is burned; the reserve's share is being paid.
    SettlingReserve { terms: LoanTerms, parties: Parties, split: FeeSplit },
    /// The reserve has its share; the treasury's share is being paid.
    SettlingTreasury { terms: LoanTerms, parties: Parties, split: FeeSplit },
    /// The loan is repaid and the caller's record is written.
    Repaid { terms: LoanTerms, parties: Parties, split: FeeSplit },
    /// The loan was refused or broke off.
    Aborted { error: CustomError },
}

/// What the host reports to the machine.
#[derive(Clone, Debug, PartialEq, Eq)]
pub enum LoanEvent {
    /// The caller among `parties` asks for `amount` at time `now`.
    Request { amount: u64, now: u64, parties: Parties },
    /// The step that was asked for has been done.
    Completed,
    /// The borrower has returned, leaving `data` behind, or nothing.
    Returned { data: Option<Vec<u8>> },
}

/// What the machine asks of the host.
#[derive(Clone, Debug, PartialEq, Eq)]
pub enum LoanAction {
    /// Mint `amount` claim tokens to the caller.
    Mint { amount: u64 },
    /// Call the borrower.
    Invoke,
    /// Burn `amount` claim tokens of the caller.
    Burn { amount: u64 },
    /// Move `amount` from the caller to the reserve by invoking `transfer`.
    PayReserve { amount: u64, transfer: Invocation },
    /// Move `amount` from the caller to the treasury by invoking `transfer`.
    PayTreasury { amount: u64, transfer: Invocation },
    /// Nothing is left to do: the loan is complete.
    Finish,
    /// Give the loan up with `error`.
    Abort { error: CustomError },
}

/// One move of the machine: the state it is in now and what the host is to do.
#[derive(Clone, Debug, PartialEq, Eq)]
pub struct LoanStep {
    pub state: LoanState,
    pub action: LoanAction,
}

/// An action as a mathematical value.
pub enum LoanActionView {
    Mint { amount: u64 },
    Invoke,
    Burn { amount: u64 },
    PayReserve { amount: u64, transfer: InvocationView },
    PayTreasury { amount: u64, transfer: InvocationView },
    Finish,
    Abort { error: CustomError },
}

/// A move as a mathematical value.
pub struct LoanStepView {
    pub state: LoanState,
    pub action: LoanActionView,
}

impl View for LoanAction {
    type V = LoanActionView;

    open spec fn view(&self) -> LoanActionView {
        match *self {
            LoanAction::Mint { amount } => LoanActionView::Mint { amount },
            LoanAction::Invoke => LoanActionView::Invoke,
            LoanAction::Burn { amount } => LoanActionView::Burn { amount },
            LoanAction::PayReserve { amount, transfer } => LoanActionView::PayReserve {
                amount,
                transfer: transfer@,
            },
            LoanAction::PayTreasury { amount, transfer } => LoanActionView::PayTreasury {
                amount,
                transfer: transfer@,
            },
            LoanAction::Finish => LoanActionView::Finish,
            LoanAction::Abort { error } => LoanActionView::Abort { error },
        }
    }
}

impl View for LoanStep {
    type V = LoanStepView;

    open spec fn view(&self) -> LoanStepView {
        LoanStepView { state: self.state, action: self.action@ }
    }
}

/// A move that was made or not, as a mathematical value.
pub open spec fn step_view(step: Option<LoanStep>) -> Option<LoanStepView> {
    match step {
        Some(made) => Some(made@),
        None => None,
    }
}

/// What the borrower left behind, as a mathematical value.
pub open spec fn signal_view(data: Option<Vec<u8>>) -> Option<Seq<u8>> {
    match data {
        Some(bytes) => Some(bytes@),
        None => None,
    }
}

/// The guards in their order, then the fee. The first guard that fails names
/// the error: paused, too big, too soon. A caller without a record is never
/// too soon.
pub open spec fn loan_terms(
    cfg: ConfigView,
    record: Option<FlashRecord>,
    amount: u64,
    now: u64,
) -> Result<LoanTerms, CustomError> {
    if cfg.paused {
        Err(CustomError::Paused)
    } else if amount > cfg.max_flash_loan_amount {
        Err(CustomError::LoanTooBig)
    } else if !cooldown_over(record, cfg.cooldown_slots, now) {
        Err(CustomError::CooldownActive)
    } else {
        match loan_fee(cfg, amount) {
            Some(fee) => Ok(LoanTerms { amount, fee, slot: now }),
            None => Err(CustomError::ArithmeticOverflow),
        }
    }
}

/// The borrower's signal is good when its first byte is one.
pub open spec fn callback_verdict(data: Option<Seq<u8>>) -> Result<(), CustomError> {
    match data {
        None => Err(CustomError::NoCallback),
        Some(bytes) => if bytes.len() > 0 && bytes[0] == 1 {
            Ok(())
        } else {
            Err(CustomError::CallbackFailed)
        },
    }
}

/// The move into the aborted state.
pub open spec fn aborted(error: CustomError) -> LoanStepView {
    LoanStepView { state: LoanState::Aborted { error }, action: LoanActionView::Abort { error } }
}

/// The machine's move from `state` on `event`, or `None` where the state
/// does not await that event. The repaid and the aborted state await none.
/// The caller pays both shares of the fee: the reserve's into the vault, the
/// treasury's to the treasury that the configuration names.
pub open spec fn transition(
    cfg: ConfigView,
    record: Option<FlashRecord>,
    state: LoanState,
    event: LoanEvent,
) -> Option<LoanStepView> {
    match (state, event) {
        (LoanState::Idle, LoanEvent::Request { amount, now, parties }) => match loan_terms(
            cfg,
            record,
            amount,
            now,
        ) {
            Ok(terms) => Some(
                LoanStepView {
                    state: LoanState::LoanIssued { terms, parties },
                    action: LoanActionView::Mint { amount },
                },
            ),
            Err(error) => Some(aborted(error)),
        },
        (LoanState::LoanIssued { terms, parties }, LoanEvent::Completed) => Some(
            LoanStepView {
                state: LoanState::CallbackPending { terms, parties },
                action: LoanActionView::Invoke,
            },
        ),
        (LoanState::CallbackPending { terms, parties }, LoanEvent::Returned { data }) => {
            match callback_verdict(signal_view(data)) {
                Ok(_) => Some(
                    LoanStepView {
                        state: LoanState::Repaying { terms, parties },
                        action: LoanActionView::Burn { amount: terms.amount },
                    },
                ),
                Err(error) => Some(aborted(error)),
            }
        },
        (LoanState::Repaying { terms, parties }, LoanEvent::Completed) => match fee_split(
            cfg,
            terms.fee,
        ) {
            Some(split) => Some(
                LoanStepView {
                    state: LoanState::SettlingReserve { terms, parties, split },
                    action: LoanActionView::PayReserve {
                        amount: split.vault_share,
                        transfer: transfer_of(parties.user@, parties.vault@, split.vault_share),
                    },
                },
            ),
            None => Some(aborted(CustomError::ArithmeticOverflow)),
        },
        (LoanState::SettlingReserve { terms, parties, split }, LoanEvent::Completed) => Some(
            LoanStepView {
                state: LoanState::SettlingTreasury { terms, parties, split },
                action: LoanActionView::PayTreasury {
                    amount: split.treasury_share,
                    transfer: transfer_of(parties.user@, cfg.treasury, split.treasury_share),
                },
            },
        ),
        (LoanState::SettlingTreasury { terms, parties, split }, LoanEvent::Completed) => Some(
            LoanStepView {
                state: LoanState::Repaid { terms, parties, split },
                action: LoanActionView::Finish,
            },
        ),
        _ => None,
    }
}

/// The caller's record after a move: the time of the request once the loan
/// is repaid, and unchanged by every other move.
pub open spec fn record_after(record: Option<FlashRecord>, step: Option<LoanStepView>) -> Option<
    FlashRecord,
> {
    match step {
        Some(LoanStepView { state: LoanState::Repaid { terms, parties, split }, action }) => Some(
            FlashRecord { last_flash_slot: terms.slot },
        ),
        _ => record,
    }
}

/// The whole loan on a pool: the receipt, or the first failure in the order
/// of the steps.
pub open spec fn flash_loan_outcome(
    cfg: ConfigView,
    record: Option<FlashRecord>,
    pool: Pool,
    amount: u64,
    now: u64,
    data: Option<Seq<u8>>,
) -> Result<LoanReceipt, CustomError> {
    match loan_terms(cfg, record, amount, now) {
        Err(e) => Err(e),
        Ok(terms) => if pool.supply + amount > u64::MAX {
            Err(CustomError::ArithmeticOverflow)
        } else {
            match callback_verdict(data) {
                Err(e) => Err(e),
                Ok(_) => match fee_split(cfg, terms.fee) {
                    None => Err(CustomError::ArithmeticOverflow),
                    Some(split) => if pool.reserve + split.vault_share > u64::MAX {
                        Err(CustomError::ArithmeticOverflow)
                    } else {
                        Ok(
                            LoanReceipt {
                                amount,
                                fee: terms.fee,
                                treasury_share: split.treasury_share,
                                vault_share: split.vault_share,
                            },
                        )
                    },
                },
            }
        },
    }
}

/// The pool once a loan with this receipt has run its course on `pool`: the
/// principal minted and burned again, the reserve's share paid in.
pub open spec fn pool_after_loan(pool: Pool, receipt: LoanReceipt) -> Pool {
    Pool {
        reserve: (pool.reserve + receipt.vault_share) as u64,
        supply: ((pool.supply + receipt.amount) - receipt.amount) as u64,
    }
}

/// Checks the guards and fixes the fee of a loan of `amount` requested at
/// time `now` by the caller whose record is `record`.
pub fn open_loan(cfg: &Config, record: &Option<FlashRecord>, amount: u64, now: u64) -> (r: Result<
    LoanTerms,
    CustomError,
>)
    ensures
        r == loan_terms(cfg@, *record, amount, now),
{
    if cfg.paused {
        return Err(CustomError::Paused);
    }
    if amount > cfg.max_flash_loan_amount {
        return Err(CustomError::LoanTooBig);
    }
    if !cooldown_elapsed(record, cfg.cooldown_slots, now) {
        return Err(CustomError::CooldownActive);
    }
    let fee = flash_fee(cfg, amount)?;
    Ok(LoanTerms { amount, fee, slot: now })
}

/// Checks what the borrower left behind: nothing is no callback, and
/// anything whose first byte is not one is a failed callback.
pub fn verify_callback(data: &Option<Vec<u8>>) -> (r: Result<(), CustomError>)
    ensures
        r == callback_verdict(signal_view(*data)),
{
    match data {
        None => Err(CustomError::NoCallback),
        Some(bytes) => {
            if bytes.len() > 0 && bytes[0] == 1 {
                Ok(())
            } else {
                Err(CustomError::CallbackFailed)
            }
        },
    }
}

/// Moves the machine from `state` on `event`.
///
/// Returns the new state and what the host is to do next, or `None` where
/// `state` does not await `event`; the record is then untouched. The record
/// is written on the move into the repaid state and on no other.
pub fn advance(
    cfg: &Config,
    record: &mut Option<FlashRecord>,
    state: LoanState,
    event: LoanEvent,
) -> (r: Option<LoanStep>)
    ensures
        step_view(r) == transition(cfg@, *old(record), state, event),
        *final(record) == record_after(*old(record), step_view(r)),
{
    match state {
        LoanState::Idle => match event {
            LoanEvent::Request { amount, now, parties } => match open_loan(
                cfg,
                record,
                amount,
                now,
            ) {
                Ok(terms) => Some(
                    LoanStep {
                        state: LoanState::LoanIssued { terms, parties },
                        action: LoanAction::Mint { amount },
                    },
                ),
                Err(error) => Some(abort(error)),
            },
            _ => None,
        },
        LoanState::LoanIssued { terms, parties } => match event {
            LoanEvent::Completed => Some(
                LoanStep {
                    state: LoanState::CallbackPending { terms, parties },
                    action: LoanAction::Invoke,
                },
            ),
            _ => None,
        },
        LoanState::CallbackPending { terms, parties } => match event {
            LoanEvent::Returned { data } => match verify_callback(&data) {
                Ok(_) => Some(
                    LoanStep {
                        state: LoanState::Repaying { terms, parties },
                        action: LoanAction::Burn { amount: terms.amount },
                    },
                ),
                Err(error) => Some(abort(error)),
            },
            _ => None,
        },
        LoanState::Repaying { terms, parties } => match event {
            LoanEvent::Completed => match split_fee(cfg, terms.fee) {
                Ok(split) => {
                    let transfer = system_transfer(
                        &parties.user,
                        &parties.vault,
                        split.vault_share,
                    );
                    Some(
                        LoanStep {
                            state: LoanState::SettlingReserve { terms, parties, split },
                            action: LoanAction::PayReserve { amount: split.vault_share, transfer },
                        },
                    )
                },
                Err(error) => Some(abort(error)),
            },
            _ => None,
        },
        LoanState::SettlingReserve { terms, parties, split } => match event {
            LoanEvent::Completed => {
                let transfer = system_transfer(&parties.user, &cfg.treasury, split.treasury_share);
                Some(
                    LoanStep {
                        state: LoanState::SettlingTreasury { terms, parties, split },
                        action: LoanAction::PayTreasury { amount: split.treasury_share, transfer },
                    },
                )
            },
            _ => None,
        },
        LoanState::SettlingTreasury { terms, parties, split } => match event {
            LoanEvent::Completed => {
                *record = Some(FlashRecord { last_flash_slot: terms.slot });
                Some(
                    LoanStep {
                        state: LoanState::Repaid { terms, parties, split },
                        action: LoanAction::Finish,
                    },
                )
            },
            _ => None,
        },
        LoanState::Repaid { .. } => None,
        LoanState::Aborted { .. } => None,
    }
}

/// The move into the aborted state.
fn abort(error: CustomError) -> (step: LoanStep)
    ensures
        step@ == aborted(error),
{
    LoanStep { state: LoanState::Aborted { error }, action: LoanAction::Abort { error } }
}

/// Runs a whole flash loan of `amount`, requested at time `now`, on `pool`,
/// where `return_data` is what the borrower left behind.
///
/// On success the claim-token supply is what it was, the reserve has grown
/// by its share of the fee, and the caller's record holds `now`. On failure
/// neither the pool nor the record has changed.
pub fn flash_loan(
    cfg: &Config,
    record: &mut Option<FlashRecord>,
    pool: &mut Pool,
    amount: u64,
    now: u64,
    return_data: &Option<Vec<u8>>,
) -> (r: Result<LoanReceipt, CustomError>)
    ensures
        r == flash_loan_outcome(
            cfg@,
            *old(record),
            *old(pool),
            amount,
            now,
            signal_view(*return_data),
        ),
        cfg.paused ==> r == Err::<LoanReceipt, CustomError>(CustomError::Paused),
        match r {
            Ok(receipt) => {
                &&& *final(pool) == pool_after_loan(*old(pool), receipt)
                &&& final(pool).supply == old(pool).supply
                &&& final(pool).reserve == old(pool).reserve + (receipt.fee
                    - receipt.treasury_share)
                &&& *final(record) == Some(FlashRecord { last_flash_slot: now })
            },
            Err(_) => *final(pool) == *old(pool) && *final(record) == *old(record),
        },
{
    let terms = open_loan(cfg, record, amount, now)?;
    let mut staged: Pool = *pool;
    staged.mint(terms.amount)?;
    verify_callback(return_data)?;
    staged.burn(terms.amount)?;
    let split = split_fee(cfg, terms.fee)?;
    staged.credit(split.vault_share)?;
    *pool = staged;
    *record = Some(FlashRecord { last_flash_slot: terms.slot });
    Ok(
        LoanReceipt {
            amount: terms.amount,
            fee: terms.fee,
            treasury_share: split.treasury_share,
            vault_share: split.vault_share,
        },
    )
}

} // verus!
