//! Why the registry refuses a call.

use vstd::prelude::*;

use crate::address::Address;

verus! {

#[derive(Clone, Copy, Debug, PartialEq, Eq, Structural)]
pub enum RegistryError {
    /// The address has not authorized the call.
    Unauthorized(Address),
    /// A number is out of the range of its type.
    Overflow,
    SharesNotHundred,
    Paused,
    WalletMismatch,
    TalosNotFound,
    AlreadyInitialized,
    NotInitialized,
    FeeTooHigh,
    TimelockEnabled,
    GracePeriodZero,
    MinDelayTooLong,
    DelayTooShort,
    ProposalNotFound,
    ProposalNotActive,
    DelayNotMet,
    ProposalExpired,
    NoPendingAdmin,
    NotAdminOrGuardian,
    LockedByAdmin,
    AdminPauseTooLong,
    GuardianPauseOutOfBounds,
    GuardianLimitReached,
    NegativeAmount,
}

impl RegistryError {
    /// The words in which the refusal is reported.
    pub open spec fn words(self) -> Seq<char> {
        match self {
            RegistryError::Unauthorized(_) => "Missing authorization"@,
            RegistryError::Overflow => "Arithmetic overflow"@,
            RegistryError::SharesNotHundred => "Patron shares must sum to 100"@,
            RegistryError::Paused => "Write path paused"@,
            RegistryError::WalletMismatch => "Protocol wallet mismatch"@,
            RegistryError::TalosNotFound => "Talos not found"@,
            RegistryError::AlreadyInitialized => "Already initialized"@,
            RegistryError::NotInitialized => "Contract not initialized"@,
            RegistryError::FeeTooHigh => "Protocol fee cannot exceed 100%"@,
            RegistryError::TimelockEnabled => "Timelock enabled: action must be scheduled"@,
            RegistryError::GracePeriodZero => "Grace period must be positive"@,
            RegistryError::MinDelayTooLong => "Min delay exceeds maximum limit"@,
            RegistryError::DelayTooShort => "Delay less than minimum required delay"@,
            RegistryError::ProposalNotFound => "Timelock proposal not found"@,
            RegistryError::ProposalNotActive => "Proposal not active"@,
            RegistryError::DelayNotMet => "Timelock delay not met"@,
            RegistryError::ProposalExpired => "Proposal expired"@,
            RegistryError::NoPendingAdmin => "No pending admin transfer"@,
            RegistryError::NotAdminOrGuardian => "Caller is not admin or guardian"@,
            RegistryError::LockedByAdmin => "Domain locked by admin; guardians cannot modify"@,
            RegistryError::AdminPauseTooLong => "Duration exceeds admin maximum"@,
            RegistryError::GuardianPauseOutOfBounds => "Guardian pause duration out of bounds"@,
            RegistryError::GuardianLimitReached => "Guardian limit reached"@,
            RegistryError::NegativeAmount => "Amount must be non-negative"@,
        }
    }

    pub fn message(&self) -> (r: &'static str)
        ensures
            r@ == self.words(),
    {
        match self {
            RegistryError::Unauthorized(_) => "Missing authorization",
            RegistryError::Overflow => "Arithmetic overflow",
            RegistryError::SharesNotHundred => "Patron shares must sum to 100",
            RegistryError::Paused => "Write path paused",
            RegistryError::WalletMismatch => "Protocol wallet mismatch",
            RegistryError::TalosNotFound => "Talos not found",
            RegistryError::AlreadyInitialized => "Already initialized",
            RegistryError::NotInitialized => "Contract not initialized",
            RegistryError::FeeTooHigh => "Protocol fee cannot exceed 100%",
            RegistryError::TimelockEnabled => "Timelock enabled: action must be scheduled",
            RegistryError::GracePeriodZero => "Grace period must be positive",
            RegistryError::MinDelayTooLong => "Min delay exceeds maximum limit",
            RegistryError::DelayTooShort => "Delay less than minimum required delay",
            RegistryError::ProposalNotFound => "Timelock proposal not found",
            RegistryError::ProposalNotActive => "Proposal not active",
            RegistryError::DelayNotMet => "Timelock delay not met",
            RegistryError::ProposalExpired => "Proposal expired",
            RegistryError::NoPendingAdmin => "No pending admin transfer",
            RegistryError::NotAdminOrGuardian => "Caller is not admin or guardian",
            RegistryError::LockedByAdmin => "Domain locked by admin; guardians cannot modify",
            RegistryError::AdminPauseTooLong => "Duration exceeds admin maximum",
            RegistryError::GuardianPauseOutOfBounds => "Guardian pause duration out of bounds",
            RegistryError::GuardianLimitReached => "Guardian limit reached",
            RegistryError::NegativeAmount => "Amount must be non-negative",
        }
    }
}

} // verus!
