//! A pooled-liquidity accounting engine.
//!
//! Depositors put a base asset into a shared reserve and hold claim tokens
//! against it. The reserve also lends claim tokens for the length of one
//! operation: the loan is minted, handed to a borrower, and burned again
//! together with a fee before the operation ends.
//!
//! Everything here is arithmetic and decisions on plain values. Moving value,
//! minting, burning, calling the borrower and reading the clock are the
//! host's work; the engine says which amounts, in which order, and between
//! whom.
//!
//! - [`config`]: the parameters and the authority's operations on them.
//! - [`pool`]: the reserve and the supply; deposit, withdrawal and harvest.
//! - [`fees`]: the flash-loan fee, its tiers and its division.
//! - [`record`] and [`book`]: the cooldown between a caller's loans.
//! - [`loan`]: the flash loan, step by step and as a whole.
//! - [`ledger`]: the transfer instruction that the host is to invoke.
//! - [`math`]: scaling by a ratio, rounded down.
//! - [`laws`]: what holds of all of it, proved.

pub mod book;
pub mod config;
pub mod error;
pub mod fees;
pub mod identity;
pub mod laws;
pub mod ledger;
pub mod loan;
pub mod math;
pub mod pool;
pub mod record;

pub use book::{flash_loan_for, RecordBook};
pub use config::{
    add_fee_tier, clear_fee_tiers, initialize, set_pause, update_fees, Config, ConfigView, FeeTier,
};
pub use error::{CustomError, ErrorClass};
pub use fees::{flash_fee, select_tier, split_fee, FeeSplit};
pub use identity::Identity;
pub use ledger::{AccountRef, Invocation};
pub use loan::{
    advance, flash_loan, open_loan, verify_callback, LoanAction, LoanEvent, LoanReceipt, LoanState,
    LoanStep, LoanTerms, Parties,
};
pub use pool::{harvest, stake, unstake, Pool};
pub use record::{cooldown_elapsed, FlashRecord};
