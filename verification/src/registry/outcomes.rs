//! What each call on the registry brings about, field by field: what it sets, and that it
//! leaves the rest alone.

use vstd::prelude::*;

use crate::address::{
    law_without_distributes, law_without_singletons, lemma_without, Address,
};
use crate::event::Event;
use crate::invocation::InvocationView;
use crate::pause::PauseDomain;
use crate::registry::calls::RegistryCall;
use crate::registry::error::RegistryError;
use crate::registry::model::{patron_updated, RegistryView};
use crate::registry::TalosRegistry;
use crate::talos::{Kernel, Patron, Pulse};
use crate::timelock::{AdminAction, ProposalStatus, TimelockConfig};

verus! {

// ── Reading a state ──────────────────────────────────────────────────

/// A registry before its first call has no Talos, proposal, pause, guardian or asset, and
/// nothing is set.
pub proof fn law_empty_registry()
    ensures
        ({
            let s = RegistryView::empty();
            &&& forall|id: u32| !(#[trigger] s.taloses.contains_key(id))
            &&& forall|id: u32| !(#[trigger] s.creators.contains_key(id))
            &&& forall|id: u64| !(#[trigger] s.proposals.contains_key(id))
            &&& forall|d: PauseDomain| !(#[trigger] s.pauses.contains_key(d))
            &&& forall|d: PauseDomain| !(#[trigger] s.set_by_admin.contains(d))
            &&& forall|a: Address| !(#[trigger] s.assets.contains(a))
            &&& s.guardians.len() == 0
            &&& s.next_talos_id is None
            &&& s.next_timelock_id is None
            &&& s.protocol_wallet is None
            &&& s.pending_admin is None
            &&& s.protocol_fee_bps is None
            &&& s.timelock_config is None
        }),
{
}

/// The view of a registry shows all that it keeps, as it keeps it.
pub proof fn law_the_view_hides_nothing(r: TalosRegistry)
    ensures
        r@.next_talos_id == r.next_talos_id,
        r@.taloses == r.taloses@,
        r@.creators == r.creators@,
        r@.protocol_wallet == r.protocol_wallet,
        r@.protocol_fee_bps == r.protocol_fee_bps,
        r@.pending_admin == r.pending_admin,
        r@.timelock_config == r.timelock_config,
        r@.proposals == r.proposals@,
        r@.next_timelock_id == r.next_timelock_id,
        r@.pauses == r.pauses@,
        r@.set_by_admin == r.set_by_admin@,
        r@.guardians == r.guardians@,
        r@.assets == r.assets@,
{
}

/// What holds while nothing is configured: ids start at one, the fee is 3 %, actions need
/// no delay and can be executed for seven days. What is configured holds as it stands.
pub proof fn law_settings_in_force(s: RegistryView)
    ensures
        s.next_talos_id is None ==> s.next_id() == 1,
        s.next_talos_id is Some ==> s.next_id() == s.next_talos_id->0,
        s.next_timelock_id is None ==> s.next_proposal_id() == 1,
        s.next_timelock_id is Some ==> s.next_proposal_id() == s.next_timelock_id->0,
        s.protocol_fee_bps is None ==> s.fee_bps() == 300,
        s.protocol_fee_bps is Some ==> s.fee_bps() == s.protocol_fee_bps->0,
        s.timelock_config is None ==> s.timelock().min_delay == 0 && s.timelock().grace_period
            == 604_800,
        s.timelock_config is Some ==> s.timelock() == s.timelock_config->0,
{
}

/// A Talos is active exactly if it is there and not deactivated.
pub proof fn law_active(s: RegistryView, talos_id: u32)
    ensures
        s.active(talos_id) <==> s.taloses.contains_key(talos_id) && s.taloses[talos_id].active,
{
}

/// A domain is paused exactly while it has a record that has no end or whose end is still
/// to come; once over, a pause with an end stays over.
pub proof fn law_paused(s: RegistryView, domain: PauseDomain, now: u64, then: u64)
    requires
        now <= then,
    ensures
        !s.pauses.contains_key(domain) ==> !s.paused(domain, now),
        s.pauses.contains_key(domain) && s.pauses[domain].expires_at == 0 ==> s.paused(domain, now),
        s.pauses.contains_key(domain) && s.pauses[domain].expires_at > now ==> s.paused(
            domain,
            now,
        ),
        s.pauses.contains_key(domain) && 0 < s.pauses[domain].expires_at <= now ==> !s.paused(
            domain,
            now,
        ),
        s.paused(domain, then) ==> s.paused(domain, now),
{
}

/// What is told of a pause: whether it is in force, who set it and when, and its end as
/// long as it is in force and has one.
pub proof fn law_pause_info(s: RegistryView, domain: PauseDomain, now: u64)
    ensures
        ({
            let info = s.pause_info(domain, now);
            let there = s.pauses.contains_key(domain);
            let record = s.pauses[domain];
            &&& info.active <==> there && (record.expires_at == 0 || now < record.expires_at)
            &&& there ==> info.paused_by == Some(record.paused_by)
            &&& there ==> info.paused_at == Some(record.paused_at)
            &&& !there ==> info.paused_by is None && info.paused_at is None
            &&& info.expires_at is Some <==> there && now < record.expires_at
            &&& info.expires_at is Some ==> info.expires_at->0 == record.expires_at
        }),
{
}

/// The fee on an amount is the greatest whole number that is no more than so many
/// ten-thousandths of it as the fee has basis points. It is refused for a negative amount,
/// and where the product of amount and basis points is beyond the range of the type.
pub proof fn law_protocol_fee(s: RegistryView, amount: i128)
    ensures
        s.protocol_fee_refusal(amount) == Some(RegistryError::NegativeAmount) <==> amount < 0,
        s.protocol_fee_refusal(amount) == Some(RegistryError::Overflow) <==> amount >= 0 && amount
            * s.fee_bps() > i128::MAX,
        s.protocol_fee_refusal(amount) is None <==> amount >= 0 && amount * s.fee_bps()
            <= i128::MAX,
        s.protocol_fee(amount) * 10_000 <= amount * s.fee_bps(),
        amount * s.fee_bps() < (s.protocol_fee(amount) + 1) * 10_000,
{
}

/// Performing an action publishes what it changed: the fee from the one in force to the
/// new one, or who nominated whom. A new patron is published with its creator and the
/// shares of creator and investor.
pub proof fn law_published(
    s: RegistryView,
    fee_bps: u32,
    new_admin: Address,
    talos_id: u32,
    patron: Patron,
)
    ensures
        s.action_event(AdminAction::SetProtocolFee(fee_bps)) == (Event::ProtocolFeeChanged {
            old_bps: s.fee_bps(),
            new_bps: fee_bps,
        }),
        s.protocol_wallet is Some ==> s.action_event(AdminAction::ProposeAdmin(new_admin)) == (
        Event::AdminProposed { current: s.protocol_wallet->0, proposed: new_admin }),
        patron_updated(talos_id, patron) == (Event::PatronUpdated {
            talos_id,
            creator: patron.creator_addr,
            creator_share: patron.creator_share,
            investor_share: patron.investor_share,
        }),
{
}

// ── Taloses ──────────────────────────────────────────────────────────

/// Creating a Talos files it, active, under the next id, made of what was given and with
/// the creator that the patron names, and files that creator; it raises the next id by one
/// and changes nothing else.
pub proof fn law_create_talos(
    s: RegistryView,
    e: InvocationView,
    name: soroban_sdk::String,
    category: soroban_sdk::String,
    description: soroban_sdk::String,
    patron: Patron,
    kernel: Kernel,
    pulse: Pulse,
    protocol_wallet: Address,
)
    requires
        s.create_talos_refusal(e, patron, protocol_wallet) is None,
    ensures
        ({
            let id = s.next_id();
            let made = s.new_talos(e, name, category, description, patron, kernel, pulse);
            let t = s.create_talos_effect(made);
            let call = RegistryCall::CreateTalos {
                name,
                category,
                description,
                patron,
                kernel,
                pulse,
                protocol_wallet,
            };
            &&& s.step(e, call) == t
            &&& t.taloses.contains_key(id)
            &&& t.taloses[id].id == id
            &&& t.taloses[id].name == name
            &&& t.taloses[id].category == category
            &&& t.taloses[id].description == description
            &&& t.taloses[id].creator == patron.creator_addr
            &&& t.taloses[id].patron == patron
            &&& t.taloses[id].kernel == kernel
            &&& t.taloses[id].pulse == pulse
            &&& t.taloses[id].created_at == e.timestamp
            &&& t.taloses[id].active
            &&& t.creators.contains_key(id)
            &&& t.creators[id] == patron.creator_addr
            &&& t.next_talos_id is Some
            &&& t.next_talos_id->0 == id + 1
            &&& forall|other: u32|
                other != id ==> (#[trigger] t.taloses.contains_key(other)
                    <==> s.taloses.contains_key(other)) && t.taloses[other] == s.taloses[other]
            &&& forall|other: u32|
                other != id ==> (#[trigger] t.creators.contains_key(other)
                    <==> s.creators.contains_key(other)) && t.creators[other] == s.creators[other]
            &&& t == (RegistryView {
                taloses: t.taloses,
                creators: t.creators,
                next_talos_id: t.next_talos_id,
                ..s
            })
        }),
{
}

/// The patron of a Talos becomes the one given, shares and addresses alike; all else about
/// the Talos, all other Taloses and all else in the registry stay as they were.
pub proof fn law_update_patron(
    s: RegistryView,
    e: InvocationView,
    talos_id: u32,
    patron: Patron,
)
    requires
        s.update_patron_refusal(e, talos_id, patron) is None,
    ensures
        ({
            let t = s.update_patron_effect(talos_id, patron);
            &&& s.step(e, RegistryCall::UpdatePatron { talos_id, patron }) == t
            &&& t.taloses.contains_key(talos_id)
            &&& t.taloses[talos_id].patron.creator_share == patron.creator_share
            &&& t.taloses[talos_id].patron.investor_share == patron.investor_share
            &&& t.taloses[talos_id].patron.treasury_share == patron.treasury_share
            &&& t.taloses[talos_id].patron.creator_addr == patron.creator_addr
            &&& t.taloses[talos_id].patron.investor_addr == patron.investor_addr
            &&& t.taloses[talos_id].patron.treasury_addr == patron.treasury_addr
            &&& t.taloses[talos_id].id == s.taloses[talos_id].id
            &&& t.taloses[talos_id].name == s.taloses[talos_id].name
            &&& t.taloses[talos_id].category == s.taloses[talos_id].category
            &&& t.taloses[talos_id].description == s.taloses[talos_id].description
            &&& t.taloses[talos_id].creator == s.taloses[talos_id].creator
            &&& t.taloses[talos_id].kernel == s.taloses[talos_id].kernel
            &&& t.taloses[talos_id].pulse == s.taloses[talos_id].pulse
            &&& t.taloses[talos_id].created_at == s.taloses[talos_id].created_at
            &&& t.taloses[talos_id].active == s.taloses[talos_id].active
            &&& forall|other: u32|
                other != talos_id ==> (#[trigger] t.taloses.contains_key(other)
                    <==> s.taloses.contains_key(other)) && t.taloses[other] == s.taloses[other]
            &&& t == (RegistryView { taloses: t.taloses, ..s })
        }),
{
}

/// The kernel of a Talos becomes the one given; all else about the Talos, all other
/// Taloses and all else in the registry stay as they were.
pub proof fn law_update_kernel(
    s: RegistryView,
    e: InvocationView,
    talos_id: u32,
    kernel: Kernel,
)
    requires
        s.creator_refusal(e, PauseDomain::KernelUpdates, talos_id) is None,
    ensures
        ({
            let t = s.update_kernel_effect(talos_id, kernel);
            &&& s.step(e, RegistryCall::UpdateKernel { talos_id, kernel }) == t
            &&& t.taloses.contains_key(talos_id)
            &&& t.taloses[talos_id].kernel.approval_threshold == kernel.approval_threshold
            &&& t.taloses[talos_id].kernel.gtm_budget == kernel.gtm_budget
            &&& t.taloses[talos_id].kernel.min_patron_pulse == kernel.min_patron_pulse
            &&& t.taloses[talos_id].id == s.taloses[talos_id].id
            &&& t.taloses[talos_id].name == s.taloses[talos_id].name
            &&& t.taloses[talos_id].category == s.taloses[talos_id].category
            &&& t.taloses[talos_id].description == s.taloses[talos_id].description
            &&& t.taloses[talos_id].creator == s.taloses[talos_id].creator
            &&& t.taloses[talos_id].patron == s.taloses[talos_id].patron
            &&& t.taloses[talos_id].pulse == s.taloses[talos_id].pulse
            &&& t.taloses[talos_id].created_at == s.taloses[talos_id].created_at
            &&& t.taloses[talos_id].active == s.taloses[talos_id].active
            &&& forall|other: u32|
                other != talos_id ==> (#[trigger] t.taloses.contains_key(other)
                    <==> s.taloses.contains_key(other)) && t.taloses[other] == s.taloses[other]
            &&& t == (RegistryView { taloses: t.taloses, ..s })
        }),
{
}

/// The pulse of a Talos becomes the one given; all else about the Talos, all other Taloses
/// and all else in the registry stay as they were.
pub proof fn law_update_pulse(
    s: RegistryView,
    e: InvocationView,
    talos_id: u32,
    pulse: Pulse,
)
    requires
        s.creator_refusal(e, PauseDomain::PulseUpdates, talos_id) is None,
    ensures
        ({
            let t = s.update_pulse_effect(talos_id, pulse);
            &&& s.step(e, RegistryCall::UpdatePulse { talos_id, pulse }) == t
            &&& t.taloses.contains_key(talos_id)
            &&& t.taloses[talos_id].pulse.total_supply == pulse.total_supply
            &&& t.taloses[talos_id].pulse.price_usd_cents == pulse.price_usd_cents
            &&& t.taloses[talos_id].pulse.token_symbol == pulse.token_symbol
            &&& t.taloses[talos_id].id == s.taloses[talos_id].id
            &&& t.taloses[talos_id].name == s.taloses[talos_id].name
            &&& t.taloses[talos_id].category == s.taloses[talos_id].category
            &&& t.taloses[talos_id].description == s.taloses[talos_id].description
            &&& t.taloses[talos_id].creator == s.taloses[talos_id].creator
            &&& t.taloses[talos_id].patron == s.taloses[talos_id].patron
            &&& t.taloses[talos_id].kernel == s.taloses[talos_id].kernel
            &&& t.taloses[talos_id].created_at == s.taloses[talos_id].created_at
            &&& t.taloses[talos_id].active == s.taloses[talos_id].active
            &&& forall|other: u32|
                other != talos_id ==> (#[trigger] t.taloses.contains_key(other)
                    <==> s.taloses.contains_key(other)) && t.taloses[other] == s.taloses[other]
            &&& t == (RegistryView { taloses: t.taloses, ..s })
        }),
{
}

/// The Talos is inactive afterwards; all else about it, all other Taloses and all else in
/// the registry stay as they were.
pub proof fn law_deactivate_talos(
    s: RegistryView,
    e: InvocationView,
    talos_id: u32,
)
    requires
        s.creator_refusal(e, PauseDomain::Deactivation, talos_id) is None,
    ensures
        ({
            let t = s.deactivate_talos_effect(talos_id);
            &&& s.step(e, RegistryCall::DeactivateTalos { talos_id }) == t
            &&& t.taloses.contains_key(talos_id)
            &&& !t.taloses[talos_id].active
            &&& t.taloses[talos_id].id == s.taloses[talos_id].id
            &&& t.taloses[talos_id].name == s.taloses[talos_id].name
            &&& t.taloses[talos_id].category == s.taloses[talos_id].category
            &&& t.taloses[talos_id].description == s.taloses[talos_id].description
            &&& t.taloses[talos_id].creator == s.taloses[talos_id].creator
            &&& t.taloses[talos_id].patron == s.taloses[talos_id].patron
            &&& t.taloses[talos_id].kernel == s.taloses[talos_id].kernel
            &&& t.taloses[talos_id].pulse == s.taloses[talos_id].pulse
            &&& t.taloses[talos_id].created_at == s.taloses[talos_id].created_at
            &&& forall|other: u32|
                other != talos_id ==> (#[trigger] t.taloses.contains_key(other)
                    <==> s.taloses.contains_key(other)) && t.taloses[other] == s.taloses[other]
            &&& t == (RegistryView { taloses: t.taloses, ..s })
        }),
{
}

// ── Fee and administrator ────────────────────────────────────────────

/// Initializing puts the wallet in office, sets the fee to 3 % and the next id to one, and
/// changes nothing else.
pub proof fn law_initialize(s: RegistryView, e: InvocationView, protocol_wallet: Address)
    requires
        s.initialize_refusal() is None,
    ensures
        ({
            let t = s.initialize_effect(protocol_wallet);
            &&& s.step(e, RegistryCall::Initialize { protocol_wallet }) == t
            &&& t.protocol_wallet == Some(protocol_wallet)
            &&& t.protocol_fee_bps == Some(300u32)
            &&& t.next_talos_id == Some(1u32)
            &&& t == (RegistryView {
                protocol_wallet: t.protocol_wallet,
                protocol_fee_bps: t.protocol_fee_bps,
                next_talos_id: t.next_talos_id,
                ..s
            })
        }),
{
}

/// The fee in force is the one given, whatever it was before, and the fee on an amount
/// follows it; nothing else changes.
pub proof fn law_set_protocol_fee(s: RegistryView, e: InvocationView, fee_bps: u32, amount: i128)
    requires
        s.set_protocol_fee_refusal(e, fee_bps) is None,
        amount >= 0,
    ensures
        ({
            let t = s.set_protocol_fee_effect(fee_bps);
            &&& s.step(e, RegistryCall::SetProtocolFee { fee_bps }) == t
            &&& t.protocol_fee_bps == Some(fee_bps)
            &&& t.protocol_fee(amount) * 10_000 <= amount * fee_bps < (t.protocol_fee(amount) + 1)
                * 10_000
            &&& t == (RegistryView { protocol_fee_bps: t.protocol_fee_bps, ..s })
        }),
{
}

/// The nominee is the one given, whoever was nominated before; nothing else changes.
pub proof fn law_propose_admin(s: RegistryView, e: InvocationView, new_admin: Address)
    requires
        s.direct_refusal(e) is None,
    ensures
        ({
            let t = s.propose_admin_effect(new_admin);
            &&& s.step(e, RegistryCall::ProposeAdmin { new_admin }) == t
            &&& t.pending_admin == Some(new_admin)
            &&& t == (RegistryView { pending_admin: t.pending_admin, ..s })
        }),
{
}

/// The nominee comes into office, and nobody is nominated any more; nothing else changes.
pub proof fn law_accept_admin(s: RegistryView, e: InvocationView)
    requires
        s.accept_admin_refusal(e) is None,
    ensures
        ({
            let t = s.accept_admin_effect();
            &&& s.step(e, RegistryCall::AcceptAdmin) == t
            &&& s.pending_admin is Some
            &&& t.protocol_wallet == Some(s.pending_admin->0)
            &&& t.pending_admin is None
            &&& t == (RegistryView {
                protocol_wallet: t.protocol_wallet,
                pending_admin: t.pending_admin,
                ..s
            })
        }),
{
}

/// Nobody is nominated any more; nothing else changes.
pub proof fn law_cancel_admin_transfer(s: RegistryView, e: InvocationView)
    requires
        s.cancel_admin_transfer_refusal(e) is None,
    ensures
        ({
            let t = s.cancel_admin_transfer_effect();
            &&& s.step(e, RegistryCall::CancelAdminTransfer) == t
            &&& t.pending_admin is None
            &&& t == (RegistryView { pending_admin: t.pending_admin, ..s })
        }),
{
}

// ── Timelock ─────────────────────────────────────────────────────────

/// The delay and the grace period are those given, whatever they were before; nothing else
/// changes, proposals included.
pub proof fn law_set_timelock_config(
    s: RegistryView,
    e: InvocationView,
    min_delay: u64,
    grace_period: u64,
)
    requires
        s.set_timelock_config_refusal(e, min_delay, grace_period) is None,
    ensures
        ({
            let t = s.set_timelock_config_effect(TimelockConfig { min_delay, grace_period });
            &&& s.step(e, RegistryCall::SetTimelockConfig { min_delay, grace_period }) == t
            &&& t.timelock_config is Some
            &&& t.timelock_config->0.min_delay == min_delay
            &&& t.timelock_config->0.grace_period == grace_period
            &&& t == (RegistryView { timelock_config: t.timelock_config, ..s })
        }),
{
}

/// Scheduling files the action under the next id, due after the delay that was asked for
/// (or at the last ledger time, where that lies beyond), as scheduled now by the
/// administrator; it raises the next id by one and changes nothing else.
pub proof fn law_schedule_action(
    s: RegistryView,
    e: InvocationView,
    action: AdminAction,
    delay: u64,
)
    requires
        s.schedule_action_refusal(e, delay) is None,
    ensures
        ({
            let id = s.next_proposal_id();
            let made = s.scheduled(e, action, delay);
            let t = s.schedule_action_effect(made);
            &&& s.step(e, RegistryCall::ScheduleAction { action, delay }) == t
            &&& t.proposals.contains_key(id)
            &&& t.proposals[id] == made
            &&& t.proposals[id].id == id
            &&& t.proposals[id].action == action
            &&& e.timestamp + delay <= u64::MAX ==> t.proposals[id].eta == e.timestamp + delay
            &&& e.timestamp + delay > u64::MAX ==> t.proposals[id].eta == u64::MAX
            &&& t.proposals[id].status == ProposalStatus::Scheduled
            &&& t.proposals[id].scheduled_at == e.timestamp
            &&& s.protocol_wallet == Some(t.proposals[id].scheduled_by)
            &&& t.next_timelock_id is Some
            &&& t.next_timelock_id->0 == id + 1
            &&& forall|other: u64|
                other != id ==> (#[trigger] t.proposals.contains_key(other)
                    <==> s.proposals.contains_key(other)) && t.proposals[other]
                    == s.proposals[other]
            &&& t == (RegistryView {
                proposals: t.proposals,
                next_timelock_id: t.next_timelock_id,
                ..s
            })
        }),
{
}

/// A scheduled action cannot be executed before the delay that was asked for is over; from
/// then on it is not too early, and it can be executed for as long as the grace period
/// lasts.
pub proof fn law_the_delay_asked_for_is_kept(
    s: RegistryView,
    e: InvocationView,
    action: AdminAction,
    delay: u64,
    then: InvocationView,
)
    requires
        s.schedule_action_refusal(e, delay) is None,
    ensures
        ({
            let id = s.next_proposal_id();
            let t = s.schedule_action_effect(s.scheduled(e, action, delay));
            let due = e.timestamp + delay;
            let grace = s.timelock().grace_period;
            let refusal = t.execute_action_refusal(then, id);
            &&& refusal == Some(RegistryError::DelayNotMet) <==> then.timestamp < due
                && then.timestamp < u64::MAX
            &&& refusal == Some(RegistryError::ProposalExpired) <==> then.timestamp > due + grace
            &&& due <= then.timestamp <= due + grace ==> (refusal is None <==> match action {
                AdminAction::SetProtocolFee(fee_bps) => fee_bps <= 10_000,
                AdminAction::ProposeAdmin(_) => true,
            })
        }),
{
}

/// Executing a proposal to set the fee sets the fee to the one scheduled, and marks that
/// proposal as executed; nothing else changes.
pub proof fn law_execute_fee_change(s: RegistryView, e: InvocationView, proposal_id: u64)
    requires
        s.execute_action_refusal(e, proposal_id) is None,
        s.proposals[proposal_id].action is SetProtocolFee,
    ensures
        ({
            let t = s.execute_action_effect(proposal_id);
            &&& s.step(e, RegistryCall::ExecuteAction { proposal_id }) == t
            &&& t.protocol_fee_bps == Some(s.proposals[proposal_id].action->SetProtocolFee_0)
            &&& t.proposals.contains_key(proposal_id)
            &&& t.proposals[proposal_id].status == ProposalStatus::Executed
            &&& t.proposals[proposal_id].id == s.proposals[proposal_id].id
            &&& t.proposals[proposal_id].action == s.proposals[proposal_id].action
            &&& t.proposals[proposal_id].eta == s.proposals[proposal_id].eta
            &&& t.proposals[proposal_id].scheduled_at == s.proposals[proposal_id].scheduled_at
            &&& t.proposals[proposal_id].scheduled_by == s.proposals[proposal_id].scheduled_by
            &&& forall|other: u64|
                other != proposal_id ==> (#[trigger] t.proposals.contains_key(other)
                    <==> s.proposals.contains_key(other)) && t.proposals[other]
                    == s.proposals[other]
            &&& t == (RegistryView {
                protocol_fee_bps: t.protocol_fee_bps,
                proposals: t.proposals,
                ..s
            })
        }),
{
}

/// Executing a proposal to nominate nominates whom it names, and marks that proposal as
/// executed; nothing else changes.
pub proof fn law_execute_nomination(s: RegistryView, e: InvocationView, proposal_id: u64)
    requires
        s.execute_action_refusal(e, proposal_id) is None,
        s.proposals[proposal_id].action is ProposeAdmin,
    ensures
        ({
            let t = s.execute_action_effect(proposal_id);
            &&& s.step(e, RegistryCall::ExecuteAction { proposal_id }) == t
            &&& t.pending_admin == Some(s.proposals[proposal_id].action->ProposeAdmin_0)
            &&& t.proposals.contains_key(proposal_id)
            &&& t.proposals[proposal_id].status == ProposalStatus::Executed
            &&& t.proposals[proposal_id].id == s.proposals[proposal_id].id
            &&& t.proposals[proposal_id].action == s.proposals[proposal_id].action
            &&& t.proposals[proposal_id].eta == s.proposals[proposal_id].eta
            &&& t.proposals[proposal_id].scheduled_at == s.proposals[proposal_id].scheduled_at
            &&& t.proposals[proposal_id].scheduled_by == s.proposals[proposal_id].scheduled_by
            &&& forall|other: u64|
                other != proposal_id ==> (#[trigger] t.proposals.contains_key(other)
                    <==> s.proposals.contains_key(other)) && t.proposals[other]
                    == s.proposals[other]
            &&& t == (RegistryView {
                pending_admin: t.pending_admin,
                proposals: t.proposals,
                ..s
            })
        }),
{
}

/// Cancelling marks the proposal as cancelled; nothing else changes.
pub proof fn law_cancel_action(s: RegistryView, e: InvocationView, proposal_id: u64)
    requires
        s.cancel_action_refusal(e, proposal_id) is None,
    ensures
        ({
            let t = s.cancel_action_effect(proposal_id);
            &&& s.step(e, RegistryCall::CancelAction { proposal_id }) == t
            &&& t.proposals.contains_key(proposal_id)
            &&& t.proposals[proposal_id].status == ProposalStatus::Cancelled
            &&& t.proposals[proposal_id].id == s.proposals[proposal_id].id
            &&& t.proposals[proposal_id].action == s.proposals[proposal_id].action
            &&& t.proposals[proposal_id].eta == s.proposals[proposal_id].eta
            &&& t.proposals[proposal_id].scheduled_at == s.proposals[proposal_id].scheduled_at
            &&& t.proposals[proposal_id].scheduled_by == s.proposals[proposal_id].scheduled_by
            &&& forall|other: u64|
                other != proposal_id ==> (#[trigger] t.proposals.contains_key(other)
                    <==> s.proposals.contains_key(other)) && t.proposals[other]
                    == s.proposals[other]
            &&& t == (RegistryView { proposals: t.proposals, ..s })
        }),
{
}

// ── Pauses ───────────────────────────────────────────────────────────

/// Pausing files a record of who, when and until when: after the duration that was asked
/// for, at the last ledger time where that lies beyond, or without an end for a duration of
/// zero. The record is marked exactly if the administrator set it. Every other domain keeps
/// its record and its mark, and nothing else changes.
pub proof fn law_pause(
    s: RegistryView,
    e: InvocationView,
    caller: Address,
    domain: PauseDomain,
    duration: u64,
)
    requires
        s.pause_refusal(e, caller, domain, duration) is None,
    ensures
        ({
            let record = s.pause_record(e, caller, duration);
            let t = s.pause_effect(domain, record);
            &&& s.step(e, RegistryCall::Pause { caller, domain, duration }) == t
            &&& t.pauses.contains_key(domain)
            &&& t.pauses[domain] == record
            &&& record.paused_by == caller
            &&& record.paused_at == e.timestamp
            &&& duration == 0 ==> record.expires_at == 0
            &&& duration > 0 && e.timestamp + duration <= u64::MAX ==> record.expires_at
                == e.timestamp + duration
            &&& duration > 0 && e.timestamp + duration > u64::MAX ==> record.expires_at == u64::MAX
            &&& t.set_by_admin.contains(domain) <==> s.protocol_wallet == Some(caller)
            &&& forall|d: PauseDomain|
                d != domain ==> (#[trigger] t.pauses.contains_key(d)
                    <==> s.pauses.contains_key(d)) && t.pauses[d] == s.pauses[d]
            &&& forall|d: PauseDomain|
                d != domain ==> (#[trigger] t.set_by_admin.contains(d)
                    <==> s.set_by_admin.contains(d))
            &&& t == (RegistryView { pauses: t.pauses, set_by_admin: t.set_by_admin, ..s })
        }),
{
}

/// Lifting a pause that is in force takes away the record of the domain and its mark; where
/// none is in force nothing changes. Every other domain keeps its record and its mark, and
/// is paused at the same times as before; nothing else changes either way.
pub proof fn law_unpause(s: RegistryView, e: InvocationView, domain: PauseDomain, now: u64)
    requires
        s.admin_refusal(e) is None,
    ensures
        ({
            let t = s.unpause_effect(e, domain);
            let in_force = s.pauses.contains_key(domain) && (s.pauses[domain].expires_at == 0
                || e.timestamp < s.pauses[domain].expires_at);
            &&& s.step(e, RegistryCall::Unpause { domain }) == t
            &&& in_force ==> !t.pauses.contains_key(domain) && !t.set_by_admin.contains(domain)
            &&& in_force ==> !t.paused(domain, now)
            &&& !in_force ==> t == s
            &&& forall|d: PauseDomain|
                d != domain ==> (#[trigger] t.pauses.contains_key(d)
                    <==> s.pauses.contains_key(d)) && t.pauses[d] == s.pauses[d]
            &&& forall|d: PauseDomain|
                d != domain ==> (#[trigger] t.set_by_admin.contains(d)
                    <==> s.set_by_admin.contains(d))
            &&& forall|d: PauseDomain, time: u64|
                d != domain ==> #[trigger] t.paused(d, time) == s.paused(d, time)
            &&& t == (RegistryView { pauses: t.pauses, set_by_admin: t.set_by_admin, ..s })
        }),
{
}

/// Lifting two pauses comes to the same in either order, and to pause a domain that has no
/// record and lift the pause at once leaves the registry as it was.
pub proof fn law_pauses_are_independent(
    s: RegistryView,
    e: InvocationView,
    one: PauseDomain,
    other: PauseDomain,
    caller: Address,
    duration: u64,
)
    requires
        s.admin_refusal(e) is None,
        e.timestamp < u64::MAX,
    ensures
        s.unpause_effect(e, one).unpause_effect(e, other) == s.unpause_effect(
            e,
            other,
        ).unpause_effect(e, one),
        s.pause_refusal(e, caller, one, duration) is None && !s.pauses.contains_key(one)
            && !s.set_by_admin.contains(one) ==> s.pause_effect(
            one,
            s.pause_record(e, caller, duration),
        ).unpause_effect(e, one) == s,
{
    assert(s.unpause_effect(e, one).unpause_effect(e, other) =~= s.unpause_effect(
        e,
        other,
    ).unpause_effect(e, one));
    let t = s.pause_effect(one, s.pause_record(e, caller, duration));
    assert(t.paused(one, e.timestamp));
    if s.pause_refusal(e, caller, one, duration) is None && !s.pauses.contains_key(one) && !s.set_by_admin.contains(one) {
        assert(t.unpause_effect(e, one) =~= s);
    }
}

// ── Guardians and assets ─────────────────────────────────────────────

/// A new guardian goes to the end of the roster, behind the others in their order; one that
/// is on it already changes nothing. Nothing else changes either way.
pub proof fn law_add_guardian_to_the_end(s: RegistryView, e: InvocationView, guardian: Address)
    requires
        s.add_guardian_refusal(e, guardian) is None,
    ensures
        ({
            let t = s.add_guardian_effect(guardian);
            &&& s.step(e, RegistryCall::AddGuardian { guardian }) == t
            &&& s.guardians.contains(guardian) ==> t == s
            &&& !s.guardians.contains(guardian) ==> {
                &&& t.guardians.len() == s.guardians.len() + 1
                &&& t.guardians.last() == guardian
                &&& t.guardians.drop_last() == s.guardians
            }
            &&& t == (RegistryView { guardians: t.guardians, ..s })
        }),
{
    let t = s.add_guardian_effect(guardian);
    if !s.guardians.contains(guardian) {
        assert(t.guardians.drop_last() =~= s.guardians);
    }
}

/// A removed guardian is off the roster, the others keep their order: where it stood once,
/// what stood before it and what stood behind it are what is left. One that is not on it
/// changes nothing, and nothing else changes either way.
pub proof fn law_remove_guardian_from_the_roster(
    s: RegistryView,
    e: InvocationView,
    guardian: Address,
    before: Seq<Address>,
    behind: Seq<Address>,
)
    requires
        s.admin_refusal(e) is None,
        s.guardians == before.push(guardian) + behind,
        !before.contains(guardian),
        !behind.contains(guardian),
    ensures
        ({
            let t = s.remove_guardian_effect(guardian);
            &&& s.step(e, RegistryCall::RemoveGuardian { guardian }) == t
            &&& t.guardians == before + behind
            &&& t == (RegistryView { guardians: t.guardians, ..s })
        }),
{
    law_without_distributes(before.push(guardian), behind, guardian);
    law_without_distributes(before, seq![guardian], guardian);
    assert(before.push(guardian) =~= before + seq![guardian]);
    law_without_singletons(guardian, guardian);
    lemma_without(before, guardian);
    lemma_without(behind, guardian);
    assert(before + Seq::<Address>::empty() =~= before);
}

/// Removing who is no guardian changes nothing.
pub proof fn law_removing_a_stranger_changes_nothing(s: RegistryView, stranger: Address)
    requires
        !s.guardians.contains(stranger),
    ensures
        s.remove_guardian_effect(stranger) == s,
{
    lemma_without(s.guardians, stranger);
    assert(s.remove_guardian_effect(stranger) =~= s);
}

/// An allowed asset is admitted, a disallowed one is not; no other asset is touched, and
/// nothing else in the registry changes.
pub proof fn law_allow_and_disallow_asset(s: RegistryView, e: InvocationView, asset: Address)
    requires
        s.admin_refusal(e) is None,
    ensures
        ({
            let t = s.allow_asset_effect(asset);
            let u = s.disallow_asset_effect(asset);
            &&& s.step(e, RegistryCall::AllowAsset { asset }) == t
            &&& s.step(e, RegistryCall::DisallowAsset { asset }) == u
            &&& t.assets.contains(asset)
            &&& !u.assets.contains(asset)
            &&& forall|other: Address|
                other != asset ==> (#[trigger] t.assets.contains(other)
                    <==> s.assets.contains(other))
            &&& forall|other: Address|
                other != asset ==> (#[trigger] u.assets.contains(other)
                    <==> s.assets.contains(other))
            &&& t == (RegistryView { assets: t.assets, ..s })
            &&& u == (RegistryView { assets: u.assets, ..s })
        }),
{
}

} // verus!
