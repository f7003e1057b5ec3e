//! The reasons for which an operation is refused.

use vstd::prelude::*;

verus! {

/// Why an operation failed. Every failure aborts the whole operation.
#[derive(Clone, Copy, Debug, PartialEq, Eq, Structural)]
pub enum CustomError {
    /// The caller is not the configured authority.
    Unauthorized,
    /// Flash loans are paused.
    Paused,
    /// The requested principal exceeds the configured maximum.
    LoanTooBig,
    /// The caller's previous flash loan is too recent.
    CooldownActive,
    /// The borrower left no signal behind.
    NoCallback,
    /// The borrower's signal is not the success byte.
    CallbackFailed,
    /// No yield has accrued on the valued position.
    NothingToHarvest,
    /// No claim tokens are outstanding.
    ZeroSupply,
    /// A product, quotient, sum or difference does not fit its type.
    ArithmeticOverflow,
}

/// The families into which the failures fall.
#[derive(Clone, Copy, Debug, PartialEq, Eq, Structural)]
pub enum ErrorClass {
    Authorization,
    PolicyGuard,
    ProtocolInvariant,
    CallbackContract,
    ArithmeticOverflow,
}

impl CustomError {
    /// The family of this failure, as a specification.
    pub open spec fn class_of(self) -> ErrorClass {
        match self {
            CustomError::Unauthorized => ErrorClass::Authorization,
            CustomError::Paused | CustomError::LoanTooBig | CustomError::CooldownActive =>
                ErrorClass::PolicyGuard,
            CustomError::ZeroSupply | CustomError::NothingToHarvest =>
                ErrorClass::ProtocolInvariant,
            CustomError::NoCallback | CustomError::CallbackFailed => ErrorClass::CallbackContract,
            CustomError::ArithmeticOverflow => ErrorClass::ArithmeticOverflow,
        }
    }

    /// The family of this failure, so that a caller can tell a refused
    /// request from a broken contract.
    pub fn class(&self) -> (c: ErrorClass)
        ensures
            c == self.class_of(),
    {
        match self {
            CustomError::Unauthorized => ErrorClass::Authorization,
            CustomError::Paused => ErrorClass::PolicyGuard,
            CustomError::LoanTooBig => ErrorClass::PolicyGuard,
            CustomError::CooldownActive => ErrorClass::PolicyGuard,
            CustomError::ZeroSupply => ErrorClass::ProtocolInvariant,
            CustomError::NothingToHarvest => ErrorClass::ProtocolInvariant,
            CustomError::NoCallback => ErrorClass::CallbackContract,
            CustomError::CallbackFailed => ErrorClass::CallbackContract,
            CustomError::ArithmeticOverflow => ErrorClass::ArithmeticOverflow,
        }
    }
}

} // verus!
