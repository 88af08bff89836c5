//! Why the name service refuses a call.

use vstd::prelude::*;

use crate::address::Address;

verus! {

/// The refusals that have a number of their own.
#[derive(Clone, Copy, Debug, PartialEq, Eq, Structural)]
pub enum ContractError {
    AlreadyInitialized,
    UnauthorizedCaller,
}

impl ContractError {
    /// The number under which the refusal is reported.
    pub fn code(&self) -> (r: u32)
        ensures
            r == (match *self {
                ContractError::AlreadyInitialized => 1u32,
                ContractError::UnauthorizedCaller => 2u32,
            }),
    {
        match self {
            ContractError::AlreadyInitialized => 1,
            ContractError::UnauthorizedCaller => 2,
        }
    }
}

#[derive(Clone, Copy, Debug, PartialEq, Eq, Structural)]
pub enum NameError {
    Contract(ContractError),
    /// The address has not authorized the call.
    Unauthorized(Address),
    InvalidName,
    NameTaken,
    RegistryNotInitialized,
    NegativeFee,
    AdminNotSet,
    AssetNotAllowed,
}

impl NameError {
    /// The words in which the refusal is reported.
    pub open spec fn words(self) -> Seq<char> {
        match self {
            NameError::Contract(ContractError::AlreadyInitialized) => "Already initialized"@,
            NameError::Contract(ContractError::UnauthorizedCaller) => "Unauthorized caller"@,
            NameError::Unauthorized(_) => "Missing authorization"@,
            NameError::InvalidName => "Invalid name. Must be 3-32 chars, lowercase alphanumeric + hyphens, no consecutive hyphens."@,
            NameError::NameTaken => "Name already taken"@,
            NameError::RegistryNotInitialized => "Registry contract not initialized"@,
            NameError::NegativeFee => "name_fee must be non-negative"@,
            NameError::AdminNotSet => "admin not set"@,
            NameError::AssetNotAllowed => "Asset not in registry allowlist; cannot pay name fee"@,
        }
    }

    pub fn message(&self) -> (r: &'static str)
        ensures
            r@ == self.words(),
    {
        match self {
            NameError::Contract(ContractError::AlreadyInitialized) => "Already initialized",
            NameError::Contract(ContractError::UnauthorizedCaller) => "Unauthorized caller",
            NameError::Unauthorized(_) => "Missing authorization",
            NameError::InvalidName => "Invalid name. Must be 3-32 chars, lowercase alphanumeric + hyphens, no consecutive hyphens.",
            NameError::NameTaken => "Name already taken",
            NameError::RegistryNotInitialized => "Registry contract not initialized",
            NameError::NegativeFee => "name_fee must be non-negative",
            NameError::AdminNotSet => "admin not set",
            NameError::AssetNotAllowed => "Asset not in registry allowlist; cannot pay name fee",
        }
    }
}

} // verus!
