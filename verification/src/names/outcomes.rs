//! What each call on the name service brings about, field by field, and on which grounds
//! it is refused.

use vstd::prelude::*;

use crate::address::Address;
use crate::host::text_bytes;
use crate::invocation::InvocationView;
use crate::names::error::{ContractError, NameError};
use crate::names::label::valid_name;
use crate::names::laws::NameCall;
use crate::names::model::NamesView;
use crate::names::TalosNameService;

verus! {

/// A name service before its first call has no names, and nothing is set.
pub proof fn law_empty_name_service()
    ensures
        forall|n: Seq<u8>| !(#[trigger] NamesView::empty().records.contains_key(n)),
        forall|id: u32| !(#[trigger] NamesView::empty().names.contains_key(id)),
        NamesView::empty().registry_contract is None,
        NamesView::empty().admin is None,
        NamesView::empty().name_fee is None,
{
}

/// The view of a name service shows all that it keeps, as it keeps it.
pub proof fn law_the_view_hides_nothing(n: TalosNameService)
    ensures
        n@.records == n.records@,
        n@.names == n.names@,
        n@.registry_contract == n.registry_contract,
        n@.admin == n.admin,
        n@.name_fee == n.name_fee,
{
}

/// The fee is the configured one, or zero where none is. A payment is called for exactly
/// where it is above zero: of the fee, in the asset named, by the payer to the
/// administrator.
pub proof fn law_fee_and_payment(s: NamesView, payer: Address, asset: Address)
    ensures
        s.name_fee is None ==> s.fee() == 0,
        s.name_fee is Some ==> s.fee() == s.name_fee->0,
        s.payment(payer, asset) is Some <==> s.name_fee is Some && s.name_fee->0 > 0,
        s.payment(payer, asset) is Some ==> {
            let payment = s.payment(payer, asset)->0;
            &&& payment.amount == s.name_fee->0
            &&& payment.asset == asset
            &&& payment.from == payer
            &&& s.admin is Some ==> payment.to == s.admin->0
        },
{
}

/// A name is available exactly if it is a name and stands for no Talos.
pub proof fn law_available(s: NamesView, name: Seq<u8>)
    ensures
        s.available(name) <==> valid_name(name) && !s.records.contains_key(name),
{
}

/// Registering makes the name stand for the Talos and the Talos bear the name. The name it
/// had stands for nothing any more, unless it is the same; every other name stands for what
/// it stood for, every other Talos bears what it bore, and the settings stay.
pub proof fn law_register_name(
    s: NamesView,
    e: InvocationView,
    owner: Address,
    talos_id: u32,
    name: soroban_sdk::String,
    creator: Option<Address>,
)
    requires
        s.register_name_refusal(e, owner, text_bytes(name), creator) is None,
    ensures
        ({
            let t = s.register_name_effect(talos_id, name);
            let new_name = text_bytes(name);
            let had = s.names.contains_key(talos_id);
            let old_name = text_bytes(s.names[talos_id]);
            &&& s.step(e, NameCall::RegisterName { owner, talos_id, name, creator }) == t
            &&& t.records.contains_key(new_name)
            &&& t.records[new_name] == talos_id
            &&& t.names.contains_key(talos_id)
            &&& t.names[talos_id] == name
            &&& had && old_name != new_name ==> !t.records.contains_key(old_name)
            &&& forall|n: Seq<u8>|
                n != new_name && !(had && n == old_name) ==> (#[trigger] t.records.contains_key(n)
                    <==> s.records.contains_key(n)) && t.records[n] == s.records[n]
            &&& forall|id: u32|
                id != talos_id ==> (#[trigger] t.names.contains_key(id)
                    <==> s.names.contains_key(id)) && t.names[id] == s.names[id]
            &&& t == (NamesView { records: t.records, names: t.names, ..s })
        }),
{
}

/// Registering with a fee changes the name service as registering does.
pub proof fn law_register_name_with_fee(
    s: NamesView,
    e: InvocationView,
    owner: Address,
    talos_id: u32,
    name: soroban_sdk::String,
    payer: Address,
    asset: Address,
    creator: Option<Address>,
    allowed: bool,
)
    requires
        s.register_name_with_fee_refusal(e, owner, text_bytes(name), payer, creator, allowed)
            is None,
    ensures
        s.step(
            e,
            NameCall::RegisterNameWithFee { owner, talos_id, name, payer, asset, creator, allowed },
        ) == s.register_name_effect(talos_id, name),
        s.register_name_refusal(e, owner, text_bytes(name), creator) is None,
{
}

/// The fee in force is the one given, whatever it was before, higher or lower; what the next
/// registration with a fee calls for is that fee, or nothing where it is zero. Nothing else
/// changes.
pub proof fn law_set_name_fee(
    s: NamesView,
    e: InvocationView,
    new_fee: i128,
    payer: Address,
    asset: Address,
)
    requires
        s.set_name_fee_refusal(e, new_fee) is None,
    ensures
        ({
            let t = s.set_name_fee_effect(new_fee);
            &&& s.step(e, NameCall::SetNameFee { new_fee }) == t
            &&& t.name_fee == Some(new_fee)
            &&& t.fee() == new_fee
            &&& t.payment(payer, asset) is Some <==> new_fee > 0
            &&& new_fee > 0 ==> t.payment(payer, asset)->0.amount == new_fee
                && t.payment(payer, asset)->0.from == payer && t.payment(payer, asset)->0.asset
                == asset && s.admin == Some(t.payment(payer, asset)->0.to)
            &&& t == (NamesView { name_fee: t.name_fee, ..s })
        }),
{
}

/// Of two fees that are set, only the later one counts.
pub proof fn law_the_later_fee_counts(
    s: NamesView,
    first: InvocationView,
    second: InvocationView,
    one: i128,
    other: i128,
)
    requires
        s.set_name_fee_refusal(first, one) is None,
        s.set_name_fee_refusal(second, other) is None,
    ensures
        s.step(first, NameCall::SetNameFee { new_fee: one }).step(
            second,
            NameCall::SetNameFee { new_fee: other },
        ) == s.step(second, NameCall::SetNameFee { new_fee: other }),
{
}

/// Initializing sets registry, administrator and fee to what is given, and nothing else.
pub proof fn law_initialize(
    s: NamesView,
    e: InvocationView,
    registry_id: Address,
    admin: Address,
    name_fee: i128,
)
    requires
        s.initialize_refusal(name_fee) is None,
    ensures
        ({
            let t = s.initialize_effect(registry_id, admin, name_fee);
            &&& s.step(e, NameCall::Initialize { registry_id, admin, name_fee }) == t
            &&& t.registry_contract == Some(registry_id)
            &&& t.admin == Some(admin)
            &&& t.name_fee == Some(name_fee)
            &&& t.records == s.records
            &&& t.names == s.names
        }),
{
}

// ── Refusals ─────────────────────────────────────────────────────────

/// Before the registry is asked, a registration takes the owner's signature, a name that is
/// one and is free, and a registry to ask. After that, it takes the owner to be the creator.
/// The first of these that fails is told.
pub proof fn law_registering_is_refused(
    s: NamesView,
    e: InvocationView,
    owner: Address,
    talos_id: u32,
    name: soroban_sdk::String,
    creator: Option<Address>,
)
    ensures
        ({
            let bytes = text_bytes(name);
            let signed = e.authorized.contains(owner);
            let named = signed && valid_name(bytes);
            let free = named && !s.records.contains_key(bytes);
            let known = free && s.registry_contract is Some;
            let query = s.query_refusal(e, owner, bytes);
            let refusal = s.register_name_refusal(e, owner, bytes, creator);
            let stranger = NameError::Contract(ContractError::UnauthorizedCaller);
            &&& s.refusal(e, NameCall::RegisterName { owner, talos_id, name, creator }) == refusal
            &&& query is None <==> known
            &&& query == Some(NameError::Unauthorized(owner)) <==> !signed
            &&& query == Some(NameError::InvalidName) <==> signed && !named
            &&& query == Some(NameError::NameTaken) <==> named && !free
            &&& query == Some(NameError::RegistryNotInitialized) <==> free && !known
            &&& query is Some ==> refusal == query
            &&& refusal is None <==> known && creator is Some && creator->0 == owner
            &&& refusal == Some(stranger) <==> known && (creator is None || creator->0 != owner)
        }),
{
}

/// A registration with a fee takes what a registration takes; then somebody to pay to, where
/// a fee is due; then that the registry admits the asset; and then the payer's signature.
/// The first of these that fails is told.
pub proof fn law_registering_with_a_fee_is_refused(
    s: NamesView,
    e: InvocationView,
    owner: Address,
    talos_id: u32,
    name: soroban_sdk::String,
    payer: Address,
    asset: Address,
    creator: Option<Address>,
    allowed: bool,
)
    ensures
        ({
            let bytes = text_bytes(name);
            let plain = s.register_name_refusal(e, owner, bytes, creator);
            let before = s.payment_refusal(e, owner, bytes, creator);
            let refusal = s.register_name_with_fee_refusal(
                e,
                owner,
                bytes,
                payer,
                creator,
                allowed,
            );
            let due = s.name_fee is Some && s.name_fee->0 > 0;
            let signed = e.authorized.contains(payer);
            &&& s.refusal(
                e,
                NameCall::RegisterNameWithFee {
                    owner,
                    talos_id,
                    name,
                    payer,
                    asset,
                    creator,
                    allowed,
                },
            ) == refusal
            &&& plain is Some ==> before == plain
            &&& plain is None && due && s.admin is None ==> before == Some(NameError::AdminNotSet)
            &&& before is None <==> plain is None && (!due || s.admin is Some)
            &&& before is Some ==> refusal == before
            &&& before is None && !allowed ==> refusal == Some(NameError::AssetNotAllowed)
            &&& before is None && allowed && !signed ==> refusal == Some(
                NameError::Unauthorized(payer),
            )
            &&& refusal is None <==> before is None && allowed && signed
        }),
{
}

/// Initializing takes a service that has no registry yet, and a fee that is not negative;
/// setting the fee takes such a fee, and the signature of the administrator.
pub proof fn law_settings_are_refused(
    s: NamesView,
    e: InvocationView,
    registry_id: Address,
    admin: Address,
    fee: i128,
)
    ensures
        ({
            let refusal = s.initialize_refusal(fee);
            let again = NameError::Contract(ContractError::AlreadyInitialized);
            &&& s.refusal(e, NameCall::Initialize { registry_id, admin, name_fee: fee })
                == refusal
            &&& refusal == Some(again) <==> s.registry_contract is Some
            &&& refusal == Some(NameError::NegativeFee) <==> s.registry_contract is None && fee < 0
            &&& refusal is None <==> s.registry_contract is None && fee >= 0
        }),
        ({
            let refusal = s.set_name_fee_refusal(e, fee);
            let office = fee >= 0 && s.admin is Some;
            &&& s.refusal(e, NameCall::SetNameFee { new_fee: fee }) == refusal
            &&& refusal == Some(NameError::NegativeFee) <==> fee < 0
            &&& refusal == Some(NameError::AdminNotSet) <==> fee >= 0 && s.admin is None
            &&& office && !e.authorized.contains(s.admin->0) ==> refusal == Some(
                NameError::Unauthorized(s.admin->0),
            )
            &&& refusal is None <==> office && e.authorized.contains(s.admin->0)
        }),
{
}

/// Whatever is called, a call that is refused leaves the name service as it was.
pub proof fn law_refused_calls_change_nothing(s: NamesView, e: InvocationView, call: NameCall)
    requires
        s.refusal(e, call) is Some,
    ensures
        s.step(e, call) == s,
{
}

} // verus!
