//! The name service as a mathematical state, and what each entry point does to it.
//!
//! As in the registry's model, `x_refusal` is the reason to refuse the call `x`, and
//! `x_effect` is the state after a call that goes through.

use vstd::prelude::*;

use crate::address::Address;
use crate::host::text_bytes;
use crate::invocation::InvocationView;
use crate::names::error::{ContractError, NameError};
use crate::names::label::valid_name;

verus! {

/// Everything that the name service keeps between two calls.
#[verifier::ext_equal]
pub struct NamesView {
    /// The Talos that a name stands for.
    pub records: Map<Seq<u8>, u32>,
    /// The name of a Talos.
    pub names: Map<u32, soroban_sdk::String>,
    pub registry_contract: Option<Address>,
    pub admin: Option<Address>,
    pub name_fee: Option<i128>,
}

/// A token transfer.
#[derive(Clone, Copy, Debug, PartialEq, Eq, Structural)]
pub struct FeePayment {
    pub asset: Address,
    pub from: Address,
    pub to: Address,
    pub amount: i128,
}

impl NamesView {
    /// The name service before its first call.
    pub open spec fn empty() -> Self {
        NamesView {
            records: Map::empty(),
            names: Map::empty(),
            registry_contract: None,
            admin: None,
            name_fee: None,
        }
    }

    /// The fee for a registration.
    pub open spec fn fee(self) -> i128 {
        match self.name_fee {
            Some(fee) => fee,
            None => 0,
        }
    }

    /// Whether `name` may be registered and is not.
    pub open spec fn available(self, name: Seq<u8>) -> bool {
        valid_name(name) && !self.records.contains_key(name)
    }

    /// The reason to refuse a registration before the registry is asked.
    pub open spec fn query_refusal(
        self,
        e: InvocationView,
        owner: Address,
        name: Seq<u8>,
    ) -> Option<NameError> {
        if !e.authorized_by(owner) {
            Some(NameError::Unauthorized(owner))
        } else if !valid_name(name) {
            Some(NameError::InvalidName)
        } else if self.records.contains_key(name) {
            Some(NameError::NameTaken)
        } else if self.registry_contract is None {
            Some(NameError::RegistryNotInitialized)
        } else {
            None
        }
    }

    /// `creator` is what the registry says of the creator of the Talos.
    pub open spec fn register_name_refusal(
        self,
        e: InvocationView,
        owner: Address,
        name: Seq<u8>,
        creator: Option<Address>,
    ) -> Option<NameError> {
        match self.query_refusal(e, owner, name) {
            Some(error) => Some(error),
            None => if creator != Some(owner) {
                Some(NameError::Contract(ContractError::UnauthorizedCaller))
            } else {
                None
            },
        }
    }

    /// The records without the name that the Talos `talos_id` has now.
    pub open spec fn records_without(self, talos_id: u32) -> Map<Seq<u8>, u32> {
        if self.names.contains_key(talos_id) {
            self.records.remove(text_bytes(self.names[talos_id]))
        } else {
            self.records
        }
    }

    pub open spec fn register_name_effect(self, talos_id: u32, name: soroban_sdk::String) -> Self {
        NamesView {
            records: self.records_without(talos_id).insert(text_bytes(name), talos_id),
            names: self.names.insert(talos_id, name),
            ..self
        }
    }

    /// The reason to refuse a registration with a fee before the registry is asked
    /// whether it admits the asset.
    pub open spec fn payment_refusal(
        self,
        e: InvocationView,
        owner: Address,
        name: Seq<u8>,
        creator: Option<Address>,
    ) -> Option<NameError> {
        match self.register_name_refusal(e, owner, name, creator) {
            Some(error) => Some(error),
            None => if self.fee() > 0 && self.admin is None {
                Some(NameError::AdminNotSet)
            } else {
                None
            },
        }
    }

    /// `allowed` is what the registry says of the asset. The asset must be admitted and
    /// the payer must authorize the call, however high the fee is.
    pub open spec fn register_name_with_fee_refusal(
        self,
        e: InvocationView,
        owner: Address,
        name: Seq<u8>,
        payer: Address,
        creator: Option<Address>,
        allowed: bool,
    ) -> Option<NameError> {
        match self.payment_refusal(e, owner, name, creator) {
            Some(error) => Some(error),
            None => if !allowed {
                Some(NameError::AssetNotAllowed)
            } else if !e.authorized_by(payer) {
                Some(NameError::Unauthorized(payer))
            } else {
                None
            },
        }
    }

    /// The transfer that a registration calls for.
    pub open spec fn payment(self, payer: Address, asset: Address) -> Option<FeePayment> {
        if self.fee() > 0 {
            Some(FeePayment { asset, from: payer, to: self.admin->0, amount: self.fee() })
        } else {
            None
        }
    }

    pub open spec fn initialize_refusal(self, name_fee: i128) -> Option<NameError> {
        if self.registry_contract is Some {
            Some(NameError::Contract(ContractError::AlreadyInitialized))
        } else if name_fee < 0 {
            Some(NameError::NegativeFee)
        } else {
            None
        }
    }

    pub open spec fn initialize_effect(
        self,
        registry_id: Address,
        admin: Address,
        name_fee: i128,
    ) -> Self {
        NamesView {
            registry_contract: Some(registry_id),
            admin: Some(admin),
            name_fee: Some(name_fee),
            ..self
        }
    }

    pub open spec fn set_name_fee_refusal(self, e: InvocationView, new_fee: i128) -> Option<
        NameError,
    > {
        if new_fee < 0 {
            Some(NameError::NegativeFee)
        } else {
            match self.admin {
                None => Some(NameError::AdminNotSet),
                Some(admin) => if e.authorized_by(admin) {
                    None
                } else {
                    Some(NameError::Unauthorized(admin))
                },
            }
        }
    }

    pub open spec fn set_name_fee_effect(self, new_fee: i128) -> Self {
        NamesView { name_fee: Some(new_fee), ..self }
    }
}

} // verus!
