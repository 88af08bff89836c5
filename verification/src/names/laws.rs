//! What holds of the name service as a whole.

use vstd::prelude::*;

use crate::address::Address;
use crate::host::text_bytes;
use crate::invocation::InvocationView;
use crate::names::error::{ContractError, NameError};
use crate::names::label::valid_name;
use crate::names::model::{FeePayment, NamesView};
use crate::registry::model::RegistryView;

verus! {

/// A call of one of the entry points of the name service that write, with the replies
/// of the registry that it rests on.
pub enum NameCall {
    RegisterName {
        owner: Address,
        talos_id: u32,
        name: soroban_sdk::String,
        creator: Option<Address>,
    },
    RegisterNameWithFee {
        owner: Address,
        talos_id: u32,
        name: soroban_sdk::String,
        payer: Address,
        asset: Address,
        creator: Option<Address>,
        allowed: bool,
    },
    Initialize { registry_id: Address, admin: Address, name_fee: i128 },
    SetNameFee { new_fee: i128 },
}

impl NamesView {
    /// The reason to refuse `call`.
    pub open spec fn refusal(self, e: InvocationView, call: NameCall) -> Option<NameError> {
        match call {
            NameCall::RegisterName { owner, name, creator, .. } => self.register_name_refusal(
                e,
                owner,
                text_bytes(name),
                creator,
            ),
            NameCall::RegisterNameWithFee { owner, name, payer, creator, allowed, .. } =>
                self.register_name_with_fee_refusal(
                e,
                owner,
                text_bytes(name),
                payer,
                creator,
                allowed,
            ),
            NameCall::Initialize { name_fee, .. } => self.initialize_refusal(name_fee),
            NameCall::SetNameFee { new_fee } => self.set_name_fee_refusal(e, new_fee),
        }
    }

    /// The state after a `call` that goes through.
    pub open spec fn effect(self, call: NameCall) -> Self {
        match call {
            NameCall::RegisterName { talos_id, name, .. } => self.register_name_effect(
                talos_id,
                name,
            ),
            NameCall::RegisterNameWithFee { talos_id, name, .. } => self.register_name_effect(
                talos_id,
                name,
            ),
            NameCall::Initialize { registry_id, admin, name_fee } => self.initialize_effect(
                registry_id,
                admin,
                name_fee,
            ),
            NameCall::SetNameFee { new_fee } => self.set_name_fee_effect(new_fee),
        }
    }

    /// The state after `call`, whether it goes through or is refused.
    pub open spec fn step(self, e: InvocationView, call: NameCall) -> Self {
        if self.refusal(e, call) is Some {
            self
        } else {
            self.effect(call)
        }
    }

    /// The name under which the Talos `talos_id` is filed.
    pub open spec fn bears(self, talos_id: u32, name: Seq<u8>) -> bool {
        self.names.contains_key(talos_id) && text_bytes(self.names[talos_id]) == name
    }

    /// Whether `name` stands for the Talos `talos_id`.
    pub open spec fn resolves(self, name: Seq<u8>, talos_id: u32) -> bool {
        self.records.contains_key(name) && self.records[name] == talos_id
    }

    /// A name stands for a Talos exactly where the Talos bears it; names in use are
    /// valid; and the configuration is all there or not there at all.
    pub open spec fn sound(self) -> bool {
        &&& forall|name: Seq<u8>, talos_id: u32|
            #![trigger self.resolves(name, talos_id)]
            #![trigger self.bears(talos_id, name)]
            self.resolves(name, talos_id) <==> self.bears(talos_id, name)
        &&& forall|name: Seq<u8>| #[trigger] self.records.contains_key(name) ==> valid_name(name)
        &&& self.fee() >= 0
        &&& (self.registry_contract is Some) == (self.admin is Some)
        &&& (self.admin is Some) == (self.name_fee is Some)
    }
}

/// A new name service is sound.
pub proof fn law_start()
    ensures
        NamesView::empty().sound(),
{
}

/// Registering a valid name that is free keeps names and records in step.
proof fn lemma_registration_keeps_sound(s: NamesView, talos_id: u32, name: soroban_sdk::String)
    requires
        s.sound(),
        s.available(text_bytes(name)),
    ensures
        s.register_name_effect(talos_id, name).sound(),
{
    let t = s.register_name_effect(talos_id, name);
    let new = text_bytes(name);
    if s.names.contains_key(talos_id) {
        assert(s.bears(talos_id, text_bytes(s.names[talos_id])));
        assert(s.resolves(text_bytes(s.names[talos_id]), talos_id));
    }
    assert forall|n: Seq<u8>, id: u32| t.resolves(n, id) <==> t.bears(id, n) by {
        assert(s.resolves(n, id) <==> s.bears(id, n));
        if id == talos_id {
            if s.resolves(n, id) {
                assert(s.bears(id, n));
            }
        } else if n == new {
            assert(!s.resolves(n, id));
        } else {
            if s.names.contains_key(talos_id) && n == text_bytes(s.names[talos_id]) {
                assert(s.resolves(n, talos_id));
            }
        }
    }
}

/// Where names and records stay as they are, they stay in step.
proof fn lemma_settings_keep_names_in_step(s: NamesView, t: NamesView)
    requires
        s.sound(),
        t.records == s.records,
        t.names == s.names,
    ensures
        forall|name: Seq<u8>, talos_id: u32|
            #![trigger t.resolves(name, talos_id)]
            #![trigger t.bears(talos_id, name)]
            t.resolves(name, talos_id) <==> t.bears(talos_id, name),
{
    assert forall|n: Seq<u8>, id: u32| t.resolves(n, id) <==> t.bears(id, n) by {
        assert(s.resolves(n, id) <==> s.bears(id, n));
    }
}

/// Whatever is called, by whomever and whenever, a sound name service stays sound.
pub proof fn law_soundness_is_kept(s: NamesView, e: InvocationView, call: NameCall)
    requires
        s.sound(),
    ensures
        s.step(e, call).sound(),
{
    if s.refusal(e, call) is None {
        match call {
            NameCall::RegisterName { talos_id, name, .. } => {
                lemma_registration_keeps_sound(s, talos_id, name);
            },
            NameCall::RegisterNameWithFee { talos_id, name, .. } => {
                lemma_registration_keeps_sound(s, talos_id, name);
            },
            NameCall::Initialize { .. } => {
                lemma_settings_keep_names_in_step(s, s.step(e, call));
            },
            NameCall::SetNameFee { .. } => {
                lemma_settings_keep_names_in_step(s, s.step(e, call));
            },
        }
    }
}

/// Resolving the name of a Talos gives the Talos.
pub proof fn law_names_resolve_to_their_bearer(s: NamesView, talos_id: u32)
    requires
        s.sound(),
        s.names.contains_key(talos_id),
    ensures
        s.records.contains_key(text_bytes(s.names[talos_id])),
        s.records[text_bytes(s.names[talos_id])] == talos_id,
{
    assert(s.bears(talos_id, text_bytes(s.names[talos_id])));
    assert(s.resolves(text_bytes(s.names[talos_id]), talos_id));
}

/// The Talos that a name resolves to bears it.
pub proof fn law_bearers_have_the_name(s: NamesView, name: Seq<u8>)
    requires
        s.sound(),
        s.records.contains_key(name),
    ensures
        s.names.contains_key(s.records[name]),
        text_bytes(s.names[s.records[name]]) == name,
{
    assert(s.resolves(name, s.records[name]));
    assert(s.bears(s.records[name], name));
}

/// No two Taloses bear the same name.
pub proof fn law_names_are_unique(s: NamesView, one: u32, other: u32)
    requires
        s.sound(),
        s.names.contains_key(one),
        s.names.contains_key(other),
        text_bytes(s.names[one]) == text_bytes(s.names[other]),
    ensures
        one == other,
{
    law_names_resolve_to_their_bearer(s, one);
    law_names_resolve_to_their_bearer(s, other);
}

/// A name goes to the creator of the Talos alone, who has authorized it, if it is valid
/// and free; and that is all it takes.
pub proof fn law_who_may_register(
    s: NamesView,
    e: InvocationView,
    owner: Address,
    name: soroban_sdk::String,
    creator: Option<Address>,
)
    ensures
        s.register_name_refusal(e, owner, text_bytes(name), creator) is None <==> {
            &&& e.authorized_by(owner)
            &&& creator == Some(owner)
            &&& s.available(text_bytes(name))
            &&& s.registry_contract is Some
        },
{
}

/// Once registered, a name resolves to its Talos, the Talos has it, it is no longer
/// available, and nobody can register it again.
pub proof fn law_registration_reads_back(
    s: NamesView,
    e: InvocationView,
    owner: Address,
    talos_id: u32,
    name: soroban_sdk::String,
    creator: Option<Address>,
    again: InvocationView,
    rival: Address,
    reply: Option<Address>,
)
    requires
        s.register_name_refusal(e, owner, text_bytes(name), creator) is None,
        again.authorized_by(rival),
    ensures
        ({
            let t = s.step(e, NameCall::RegisterName { owner, talos_id, name, creator });
            &&& t.resolves(text_bytes(name), talos_id)
            &&& t.names.contains_key(talos_id)
            &&& t.names[talos_id] == name
            &&& !t.available(text_bytes(name))
            &&& t.register_name_refusal(again, rival, text_bytes(name), reply) == Some(
                NameError::NameTaken,
            )
        }),
{
}

/// A Talos that takes a new name gives its old one up: that resolves to nothing, and
/// can be registered again.
pub proof fn law_renaming_frees_the_old_name(
    s: NamesView,
    e: InvocationView,
    owner: Address,
    talos_id: u32,
    name: soroban_sdk::String,
    creator: Option<Address>,
)
    requires
        s.sound(),
        s.names.contains_key(talos_id),
        s.register_name_refusal(e, owner, text_bytes(name), creator) is None,
    ensures
        ({
            let old_name = text_bytes(s.names[talos_id]);
            let t = s.step(e, NameCall::RegisterName { owner, talos_id, name, creator });
            &&& !t.records.contains_key(old_name)
            &&& t.available(old_name)
        }),
{
    law_names_resolve_to_their_bearer(s, talos_id);
}

/// A registration leaves every other Talos its name.
pub proof fn law_registration_leaves_others_alone(
    s: NamesView,
    e: InvocationView,
    owner: Address,
    talos_id: u32,
    name: soroban_sdk::String,
    creator: Option<Address>,
    other: u32,
)
    requires
        s.sound(),
        other != talos_id,
        s.names.contains_key(other),
    ensures
        ({
            let t = s.step(e, NameCall::RegisterName { owner, talos_id, name, creator });
            &&& t.names.contains_key(other)
            &&& t.names[other] == s.names[other]
            &&& t.resolves(text_bytes(s.names[other]), other)
        }),
{
    law_names_resolve_to_their_bearer(s, other);
    if s.names.contains_key(talos_id) {
        law_names_resolve_to_their_bearer(s, talos_id);
    }
}

/// Without the authorization of the owner that it names, a registration changes nothing;
/// nor does one for a Talos that somebody else created, or that does not exist.
pub proof fn law_strangers_register_nothing(
    s: NamesView,
    e: InvocationView,
    owner: Address,
    talos_id: u32,
    name: soroban_sdk::String,
    creator: Option<Address>,
)
    requires
        !e.authorized_by(owner) || creator != Some(owner),
    ensures
        s.step(e, NameCall::RegisterName { owner, talos_id, name, creator }) == s,
{
}

/// Who registers a name, going by what a sound registry says, is the creator of a Talos
/// that is there.
pub proof fn law_registrants_are_creators(
    s: NamesView,
    r: RegistryView,
    e: InvocationView,
    owner: Address,
    talos_id: u32,
    name: soroban_sdk::String,
)
    requires
        r.sound(),
        s.register_name_refusal(
            e,
            owner,
            text_bytes(name),
            if r.creators.contains_key(talos_id) {
                Some(r.creators[talos_id])
            } else {
                None
            },
        ) is None,
    ensures
        r.taloses.contains_key(talos_id),
        r.taloses[talos_id].creator == owner,
{
    assert(r.creators.dom().contains(talos_id));
}

// ── Fees ─────────────────────────────────────────────────────────────

/// A registration with a fee goes through exactly if a registration does, the registry
/// admits the asset and the payer has authorized it; what is to be paid is the fee, no
/// more and no less, by the payer to the administrator, and nothing where the fee is
/// zero. What is registered is as in a registration.
pub proof fn law_a_fee_is_paid_in_full(
    s: NamesView,
    e: InvocationView,
    owner: Address,
    talos_id: u32,
    name: soroban_sdk::String,
    payer: Address,
    asset: Address,
    creator: Option<Address>,
    allowed: bool,
)
    requires
        s.sound(),
    ensures
        s.register_name_with_fee_refusal(e, owner, text_bytes(name), payer, creator, allowed)
            is None <==> {
            &&& s.register_name_refusal(e, owner, text_bytes(name), creator) is None
            &&& allowed
            &&& e.authorized_by(payer)
        },
        s.payment(payer, asset) == (if s.fee() > 0 {
            Some(FeePayment { asset, from: payer, to: s.admin->0, amount: s.fee() })
        } else {
            None
        }),
        s.fee() > 0 ==> s.admin is Some,
        s.register_name_with_fee_refusal(e, owner, text_bytes(name), payer, creator, allowed)
            is None ==> s.step(
            e,
            NameCall::RegisterNameWithFee { owner, talos_id, name, payer, asset, creator, allowed },
        ) == s.step(e, NameCall::RegisterName { owner, talos_id, name, creator }),
{
}

/// In an asset that the registry does not admit nothing is registered, be a fee due or
/// not.
pub proof fn law_denied_assets_change_nothing(
    s: NamesView,
    e: InvocationView,
    owner: Address,
    talos_id: u32,
    name: soroban_sdk::String,
    payer: Address,
    asset: Address,
    creator: Option<Address>,
)
    ensures
        s.register_name_with_fee_refusal(e, owner, text_bytes(name), payer, creator, false)
            is Some,
        s.step(
            e,
            NameCall::RegisterNameWithFee {
                owner,
                talos_id,
                name,
                payer,
                asset,
                creator,
                allowed: false,
            },
        ) == s,
{
}

/// Once there is an administrator, nobody else changes the fee, and nobody the
/// administrator or the registry.
pub proof fn law_only_the_admin_sets_the_fee(s: NamesView, e: InvocationView, call: NameCall)
    requires
        s.sound(),
        s.admin is Some,
    ensures
        s.step(e, call).admin == s.admin,
        s.step(e, call).registry_contract == s.registry_contract,
        s.step(e, call).name_fee != s.name_fee ==> call is SetNameFee && e.authorized_by(
            s.admin->0,
        ),
{
}

/// A name service is initialized once.
pub proof fn law_initialized_once(
    s: NamesView,
    e: InvocationView,
    call: NameCall,
    registry_id: Address,
    admin: Address,
    name_fee: i128,
)
    requires
        s.registry_contract is Some,
    ensures
        s.step(e, call).initialize_refusal(name_fee) == Some(
            NameError::Contract(ContractError::AlreadyInitialized),
        ),
{
}

} // verus!
