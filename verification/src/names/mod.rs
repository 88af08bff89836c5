//! Human-readable names for Taloses.
//!
//! Who created a Talos, and in which assets a fee may be paid, the registry contract
//! says. The entry points that depend on it take its replies as arguments; `registry_to_ask`
//! and `allowlist_to_ask` say whom to ask, or why there is nothing to ask any more.

use std::collections::BTreeMap;
use vstd::prelude::*;

use crate::address::Address;
use crate::event::Event;
use crate::host::{text_bytes, text_to_vec};
use crate::invocation::{settles, Invocation};
use crate::names::error::{ContractError, NameError};
use crate::names::label::validate_name;
use crate::names::model::{FeePayment, NamesView};
use crate::names::table::NameTable;

pub mod error;
pub mod label;
pub mod laws;
pub mod model;
pub mod outcomes;
pub mod table;

verus! {

broadcast use vstd::std_specs::btree::group_btree_axioms;

/// Version of the name service's interface, as `(major, minor, patch)`.
pub const CONTRACT_VERSION: (u32, u32, u32) = (1, 0, 0);

/// The name service. Its fields are what it keeps between two calls.
pub struct TalosNameService {
    /// The Talos that a name stands for.
    pub records: NameTable,
    /// The name of a Talos.
    pub names: BTreeMap<u32, soroban_sdk::String>,
    pub registry_contract: Option<Address>,
    pub admin: Option<Address>,
    pub name_fee: Option<i128>,
}

impl View for TalosNameService {
    type V = NamesView;

    open spec fn view(&self) -> NamesView {
        NamesView {
            records: self.records@,
            names: self.names@,
            registry_contract: self.registry_contract,
            admin: self.admin,
            name_fee: self.name_fee,
        }
    }
}

impl TalosNameService {
    /// A name service before its first call.
    pub fn new() -> (r: Self)
        ensures
            r@ == NamesView::empty(),
    {
        TalosNameService {
            records: NameTable::new(),
            names: BTreeMap::new(),
            registry_contract: None,
            admin: None,
            name_fee: None,
        }
    }

    /// Version of the interface: a constant that no call can alter.
    pub fn version() -> (r: (u32, u32, u32))
        ensures
            r == CONTRACT_VERSION,
            r == (1u32, 0u32, 0u32),
    {
        CONTRACT_VERSION
    }

    /// The registry contract, to be asked for the creator of a Talos whose `owner` wants
    /// to register `name` for it.
    pub fn registry_to_ask(
        &self,
        e: &Invocation,
        owner: Address,
        name: &soroban_sdk::String,
    ) -> (r: Result<Address, NameError>)
        ensures
            match self@.query_refusal(e@, owner, text_bytes(*name)) {
                Some(error) => r == Err::<Address, NameError>(error),
                None => self@.registry_contract is Some && r == Ok::<Address, NameError>(
                    self@.registry_contract->0,
                ),
            },
    {
        if !e.is_authorized_by(owner) {
            return Err(NameError::Unauthorized(owner));
        }
        if !validate_name(name) {
            return Err(NameError::InvalidName);
        }
        if self.resolve_name(name).is_some() {
            return Err(NameError::NameTaken);
        }
        match self.registry_contract {
            Some(registry) => Ok(registry),
            None => Err(NameError::RegistryNotInitialized),
        }
    }

    /// Whether `owner` may register `name`, given the registry's reply.
    fn check_registration(
        &self,
        e: &Invocation,
        owner: Address,
        name: &soroban_sdk::String,
        creator: Option<Address>,
    ) -> (r: Result<Address, NameError>)
        ensures
            match self@.register_name_refusal(e@, owner, text_bytes(*name), creator) {
                Some(error) => r == Err::<Address, NameError>(error),
                None => self@.registry_contract is Some && r == Ok::<Address, NameError>(
                    self@.registry_contract->0,
                ),
            },
    {
        let registry = match self.registry_to_ask(e, owner, name) {
            Ok(registry) => registry,
            Err(error) => return Err(error),
        };
        match creator {
            Some(address) => if address == owner {
                Ok(registry)
            } else {
                Err(NameError::Contract(ContractError::UnauthorizedCaller))
            },
            None => Err(NameError::Contract(ContractError::UnauthorizedCaller)),
        }
    }

    /// Gives the Talos its new name, and frees its old one.
    fn record_name(
        &mut self,
        e: &mut Invocation,
        owner: Address,
        talos_id: u32,
        name: soroban_sdk::String,
    )
        ensures
            final(self)@ == old(self)@.register_name_effect(talos_id, name),
            final(e)@ == old(e)@.emit(Event::NameRegistered { talos_id, name, owner }),
    {
        match self.names.get(&talos_id) {
            Some(old_name) => {
                let old_bytes = text_to_vec(old_name);
                self.records.remove(&old_bytes);
            },
            None => {},
        }
        self.records.insert(text_to_vec(&name), talos_id);
        let event = Event::NameRegistered { talos_id, name: name.clone(), owner };
        self.names.insert(talos_id, name);
        e.publish(event);
        assert(self@ =~= old(self)@.register_name_effect(talos_id, name));
    }

    /// Registers `name` for the Talos `talos_id`, in place of the name it has.
    ///
    /// `owner` must authorize the call and be the creator of the Talos; `creator` is
    /// what the registry replies to `creator_of`.
    pub fn register_name(
        &mut self,
        e: &mut Invocation,
        owner: Address,
        talos_id: u32,
        name: soroban_sdk::String,
        creator: Option<Address>,
    ) -> (r: Result<(), NameError>)
        ensures
            settles(
                old(self)@.register_name_refusal(old(e)@, owner, text_bytes(name), creator),
                r,
                (old(self)@, old(e)@),
                (final(self)@, final(e)@),
                (),
                (
                    old(self)@.register_name_effect(talos_id, name),
                    old(e)@.emit(Event::NameRegistered { talos_id, name, owner }),
                ),
            ),
    {
        match self.check_registration(e, owner, &name, creator) {
            Ok(_) => {},
            Err(error) => return Err(error),
        }
        self.record_name(e, owner, talos_id, name);
        Ok(())
    }

    /// Ties the name service to a registry, and sets its administrator and fee.
    pub fn initialize(
        &mut self,
        e: &mut Invocation,
        registry_id: Address,
        admin: Address,
        name_fee: i128,
    ) -> (r: Result<(), NameError>)
        ensures
            settles(
                old(self)@.initialize_refusal(name_fee),
                r,
                (old(self)@, old(e)@),
                (final(self)@, final(e)@),
                (),
                (old(self)@.initialize_effect(registry_id, admin, name_fee), old(e)@),
            ),
    {
        if self.registry_contract.is_some() {
            return Err(NameError::Contract(ContractError::AlreadyInitialized));
        }
        if name_fee < 0 {
            return Err(NameError::NegativeFee);
        }
        self.registry_contract = Some(registry_id);
        self.admin = Some(admin);
        self.name_fee = Some(name_fee);
        Ok(())
    }

    /// The fee for a registration, `0` where none is configured.
    pub fn name_fee(&self) -> (r: i128)
        ensures
            r == self@.fee(),
    {
        match self.name_fee {
            Some(fee) => fee,
            None => 0,
        }
    }

    /// The administrator.
    pub fn admin(&self) -> (r: Option<Address>)
        ensures
            r == self@.admin,
    {
        self.admin
    }

    /// Sets the fee for a registration. Only the administrator may.
    pub fn set_name_fee(&mut self, e: &mut Invocation, new_fee: i128) -> (r: Result<(), NameError>)
        ensures
            settles(
                old(self)@.set_name_fee_refusal(old(e)@, new_fee),
                r,
                (old(self)@, old(e)@),
                (final(self)@, final(e)@),
                (),
                (old(self)@.set_name_fee_effect(new_fee), old(e)@),
            ),
    {
        if new_fee < 0 {
            return Err(NameError::NegativeFee);
        }
        let admin = match self.admin {
            Some(admin) => admin,
            None => return Err(NameError::AdminNotSet),
        };
        if !e.is_authorized_by(admin) {
            return Err(NameError::Unauthorized(admin));
        }
        self.name_fee = Some(new_fee);
        Ok(())
    }

    /// The registry contract, to be asked whether it admits the asset that a registration
    /// with a fee names.
    pub fn allowlist_to_ask(
        &self,
        e: &Invocation,
        owner: Address,
        name: &soroban_sdk::String,
        creator: Option<Address>,
    ) -> (r: Result<Address, NameError>)
        ensures
            match self@.payment_refusal(e@, owner, text_bytes(*name), creator) {
                Some(error) => r == Err::<Address, NameError>(error),
                None => self@.registry_contract is Some && r == Ok::<Address, NameError>(
                    self@.registry_contract->0,
                ),
            },
    {
        let registry = match self.check_registration(e, owner, name, creator) {
            Ok(registry) => registry,
            Err(error) => return Err(error),
        };
        if self.name_fee() > 0 && self.admin.is_none() {
            return Err(NameError::AdminNotSet);
        }
        Ok(registry)
    }

    /// Registers `name` as `register_name` does, and returns the transfer that pays the
    /// fee, if one is due: exactly the fee, from `payer` to the administrator. Unless that
    /// transfer is made, the call must not stand.
    ///
    /// Whether a fee is due or not, `payer` must authorize the call, and the registry must
    /// admit the asset: `allowed` is what it replies to `is_asset_allowed`, and in an asset
    /// that it does not admit nothing is paid and nothing is registered.
    pub fn register_name_with_fee(
        &mut self,
        e: &mut Invocation,
        owner: Address,
        talos_id: u32,
        name: soroban_sdk::String,
        payer: Address,
        asset: Address,
        creator: Option<Address>,
        allowed: bool,
    ) -> (r: Result<Option<FeePayment>, NameError>)
        ensures
            settles(
                old(self)@.register_name_with_fee_refusal(
                    old(e)@,
                    owner,
                    text_bytes(name),
                    payer,
                    creator,
                    allowed,
                ),
                r,
                (old(self)@, old(e)@),
                (final(self)@, final(e)@),
                old(self)@.payment(payer, asset),
                (
                    old(self)@.register_name_effect(talos_id, name),
                    if old(self)@.fee() > 0 {
                        old(e)@.emit(Event::NameRegistered { talos_id, name, owner }).emit(
                            Event::NameFeePaid {
                                talos_id,
                                payer,
                                asset,
                                amount: old(self)@.fee(),
                            },
                        )
                    } else {
                        old(e)@.emit(Event::NameRegistered { talos_id, name, owner })
                    },
                ),
            ),
    {
        match self.check_registration(e, owner, &name, creator) {
            Ok(_) => {},
            Err(error) => return Err(error),
        }
        let fee: i128 = self.name_fee();
        let payment = if fee > 0 {
            match self.admin {
                Some(admin) => Some(FeePayment { asset, from: payer, to: admin, amount: fee }),
                None => return Err(NameError::AdminNotSet),
            }
        } else {
            None
        };
        if !allowed {
            return Err(NameError::AssetNotAllowed);
        }
        if !e.is_authorized_by(payer) {
            return Err(NameError::Unauthorized(payer));
        }
        self.record_name(e, owner, talos_id, name);
        if fee > 0 {
            e.publish(Event::NameFeePaid { talos_id, payer, asset, amount: fee });
        }
        Ok(payment)
    }

    /// The Talos that `name` stands for.
    pub fn resolve_name(&self, name: &soroban_sdk::String) -> (r: Option<u32>)
        ensures
            r == (if self@.records.contains_key(text_bytes(*name)) {
                Some(self@.records[text_bytes(*name)])
            } else {
                None
            }),
    {
        self.records.get(&text_to_vec(name))
    }

    /// The name of the Talos `talos_id`.
    pub fn name_of(&self, talos_id: u32) -> (r: Option<&soroban_sdk::String>)
        ensures
            r == (if self@.names.contains_key(talos_id) {
                Some(&self@.names[talos_id])
            } else {
                None
            }),
    {
        self.names.get(&talos_id)
    }

    /// Whether `name` is valid and stands for no Talos.
    pub fn is_name_available(&self, name: &soroban_sdk::String) -> (r: bool)
        ensures
            r == self@.available(text_bytes(*name)),
    {
        if !validate_name(name) {
            return false;
        }
        self.resolve_name(name).is_none()
    }

    /// Whether the Talos `talos_id` has a name.
    pub fn has_name(&self, talos_id: u32) -> (r: bool)
        ensures
            r == self@.names.contains_key(talos_id),
    {
        self.names.contains_key(&talos_id)
    }
}

} // verus!
