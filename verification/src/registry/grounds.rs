//! On which grounds calls on the registry are refused: of every error exactly when it is
//! given, and exactly when a call goes through.

use vstd::prelude::*;

use crate::address::Address;
use crate::invocation::InvocationView;
use crate::pause::PauseDomain;
use crate::registry::calls::RegistryCall;
use crate::registry::error::RegistryError;
use crate::registry::model::{shares_refusal, RegistryView};
use crate::talos::{Kernel, Patron, Pulse};
use crate::timelock::{AdminAction, ProposalStatus};

verus! {

/// The administrator's rights go with the signature of who is in office.
pub proof fn law_administrators_rights(s: RegistryView, e: InvocationView)
    ensures
        s.admin_refusal(e) is None <==> s.protocol_wallet is Some && e.authorized.contains(
            s.protocol_wallet->0,
        ),
        s.admin_refusal(e) == Some(RegistryError::NotInitialized) <==> s.protocol_wallet is None,
        s.protocol_wallet is Some && !e.authorized.contains(s.protocol_wallet->0)
            ==> s.admin_refusal(e) == Some(RegistryError::Unauthorized(s.protocol_wallet->0)),
{
}

/// What can be scheduled can be called directly by the administrator, while no delay is
/// configured.
pub proof fn law_direct_calls(s: RegistryView, e: InvocationView)
    ensures
        ({
            let admin = s.protocol_wallet is Some && e.authorized.contains(s.protocol_wallet->0);
            let delayed = s.timelock_config is Some && s.timelock_config->0.min_delay > 0;
            &&& s.direct_refusal(e) is None <==> admin && !delayed
            &&& s.direct_refusal(e) == Some(RegistryError::TimelockEnabled) <==> admin && delayed
            &&& !admin ==> s.direct_refusal(e) == s.admin_refusal(e)
        }),
{
}

/// A creator's rights over a Talos go with the creator's signature, while the write path is
/// open and the Talos is there. A pause is told before a missing Talos, and that before a
/// missing signature.
pub proof fn law_creators_rights(
    s: RegistryView,
    e: InvocationView,
    domain: PauseDomain,
    talos_id: u32,
)
    ensures
        ({
            let closed_path = s.pauses.contains_key(domain) && (s.pauses[domain].expires_at == 0
                || e.timestamp < s.pauses[domain].expires_at);
            let there = s.taloses.contains_key(talos_id);
            let signed = e.authorized.contains(s.taloses[talos_id].creator);
            let refusal = s.creator_refusal(e, domain, talos_id);
            &&& refusal is None <==> !closed_path && there && signed
            &&& refusal == Some(RegistryError::Paused) <==> closed_path
            &&& refusal == Some(RegistryError::TalosNotFound) <==> !closed_path && !there
            &&& !closed_path && there && !signed ==> refusal == Some(
                RegistryError::Unauthorized(s.taloses[talos_id].creator),
            )
        }),
{
}

/// Shares are in order exactly if they sum to 100.
pub proof fn law_shares(patron: Patron)
    ensures
        ({
            let sum = patron.creator_share + patron.investor_share + patron.treasury_share;
            &&& shares_refusal(patron) is None <==> sum == 100
            &&& shares_refusal(patron) == Some(RegistryError::Overflow) <==> sum > u32::MAX
            &&& shares_refusal(patron) == Some(RegistryError::SharesNotHundred) <==> sum
                <= u32::MAX && sum != 100
        }),
{
}

/// A Talos can be created while creation is not paused, with the signature of the creator,
/// with shares that sum to 100, for the configured wallet if one is configured, and while
/// there is an id left. The first of these that fails is told.
pub proof fn law_creation_is_refused(
    s: RegistryView,
    e: InvocationView,
    name: soroban_sdk::String,
    category: soroban_sdk::String,
    description: soroban_sdk::String,
    patron: Patron,
    kernel: Kernel,
    pulse: Pulse,
    protocol_wallet: Address,
)
    ensures
        ({
            let domain = PauseDomain::TalosCreation;
            let closed_path = s.pauses.contains_key(domain) && (s.pauses[domain].expires_at == 0
                || e.timestamp < s.pauses[domain].expires_at);
            let signed = e.authorized.contains(patron.creator_addr);
            let sum = patron.creator_share + patron.investor_share + patron.treasury_share;
            let wallet = s.protocol_wallet is None || s.protocol_wallet->0 == protocol_wallet;
            let room = s.next_talos_id is None || s.next_talos_id->0 < u32::MAX;
            let refusal = s.create_talos_refusal(e, patron, protocol_wallet);
            &&& s.refusal(
                e,
                RegistryCall::CreateTalos {
                    name,
                    category,
                    description,
                    patron,
                    kernel,
                    pulse,
                    protocol_wallet,
                },
            ) == refusal
            &&& refusal is None <==> !closed_path && signed && sum == 100 && wallet && room
            &&& refusal == Some(RegistryError::Paused) <==> closed_path
            &&& !closed_path && !signed ==> refusal == Some(
                RegistryError::Unauthorized(patron.creator_addr),
            )
            &&& refusal == Some(RegistryError::SharesNotHundred) <==> !closed_path && signed && sum
                != 100 && sum <= u32::MAX
            &&& refusal == Some(RegistryError::WalletMismatch) <==> !closed_path && signed && sum
                == 100 && !wallet
            &&& refusal == Some(RegistryError::Overflow) <==> !closed_path && signed && (sum
                > u32::MAX || sum == 100 && wallet && !room)
        }),
{
}

/// An update takes the creator's rights on its own write path, and one of the patron also
/// shares that sum to 100.
pub proof fn law_updates_are_refused(
    s: RegistryView,
    e: InvocationView,
    talos_id: u32,
    patron: Patron,
    kernel: Kernel,
    pulse: Pulse,
)
    ensures
        s.refusal(e, RegistryCall::UpdatePatron { talos_id, patron }) == s.update_patron_refusal(
            e,
            talos_id,
            patron,
        ),
        s.refusal(e, RegistryCall::UpdateKernel { talos_id, kernel }) == s.creator_refusal(
            e,
            PauseDomain::KernelUpdates,
            talos_id,
        ),
        s.refusal(e, RegistryCall::UpdatePulse { talos_id, pulse }) == s.creator_refusal(
            e,
            PauseDomain::PulseUpdates,
            talos_id,
        ),
        s.refusal(e, RegistryCall::DeactivateTalos { talos_id }) == s.creator_refusal(
            e,
            PauseDomain::Deactivation,
            talos_id,
        ),
        ({
            let rights = s.creator_refusal(e, PauseDomain::PatronUpdates, talos_id);
            let sum = patron.creator_share + patron.investor_share + patron.treasury_share;
            let refusal = s.update_patron_refusal(e, talos_id, patron);
            &&& refusal is None <==> rights is None && sum == 100
            &&& rights is Some ==> refusal == rights
            &&& rights is None && sum > u32::MAX ==> refusal == Some(RegistryError::Overflow)
            &&& rights is None && sum <= u32::MAX && sum != 100 ==> refusal == Some(
                RegistryError::SharesNotHundred,
            )
        }),
{
}

/// A registry can be initialized exactly as long as nobody is in office.
pub proof fn law_initializing_is_refused(s: RegistryView, e: InvocationView, wallet: Address)
    ensures
        s.refusal(e, RegistryCall::Initialize { protocol_wallet: wallet })
            == s.initialize_refusal(),
        s.initialize_refusal() is None <==> s.protocol_wallet is None,
        s.initialize_refusal() == Some(RegistryError::AlreadyInitialized) <==> s.protocol_wallet
            is Some,
{
}

/// A fee of more than 100 % is refused before anything else is looked at, directly and when
/// scheduled; a scheduled nomination takes somebody in office.
pub proof fn law_fees_and_nominations_are_refused(
    s: RegistryView,
    e: InvocationView,
    fee_bps: u32,
    new_admin: Address,
)
    ensures
        s.refusal(e, RegistryCall::SetProtocolFee { fee_bps }) == s.set_protocol_fee_refusal(
            e,
            fee_bps,
        ),
        s.refusal(e, RegistryCall::ProposeAdmin { new_admin }) == s.direct_refusal(e),
        s.set_protocol_fee_refusal(e, fee_bps) == Some(RegistryError::FeeTooHigh) <==> fee_bps
            > 10_000,
        fee_bps <= 10_000 ==> s.set_protocol_fee_refusal(e, fee_bps) == s.direct_refusal(e),
        s.action_refusal(AdminAction::SetProtocolFee(fee_bps)) is None <==> fee_bps <= 10_000,
        fee_bps > 10_000 ==> s.action_refusal(AdminAction::SetProtocolFee(fee_bps)) == Some(
            RegistryError::FeeTooHigh,
        ),
        s.action_refusal(AdminAction::ProposeAdmin(new_admin)) is None <==> s.protocol_wallet
            is Some,
        s.protocol_wallet is None ==> s.action_refusal(AdminAction::ProposeAdmin(new_admin))
            == Some(RegistryError::NotInitialized),
{
}

/// A transfer is accepted with the signature of the nominee, and cancelled with the
/// administrator's rights; either takes a nomination.
pub proof fn law_transfers_are_refused(s: RegistryView, e: InvocationView)
    ensures
        s.refusal(e, RegistryCall::AcceptAdmin) == s.accept_admin_refusal(e),
        s.accept_admin_refusal(e) is None <==> s.pending_admin is Some && e.authorized.contains(
            s.pending_admin->0,
        ),
        s.accept_admin_refusal(e) == Some(RegistryError::NoPendingAdmin) <==> s.pending_admin
            is None,
        s.pending_admin is Some && !e.authorized.contains(s.pending_admin->0)
            ==> s.accept_admin_refusal(e) == Some(RegistryError::Unauthorized(s.pending_admin->0)),
        s.refusal(e, RegistryCall::CancelAdminTransfer) == s.cancel_admin_transfer_refusal(e),
        s.admin_refusal(e) is Some ==> s.cancel_admin_transfer_refusal(e) == s.admin_refusal(e),
        s.admin_refusal(e) is None && s.pending_admin is None ==> s.cancel_admin_transfer_refusal(e)
            == Some(RegistryError::NoPendingAdmin),
        s.admin_refusal(e) is None && s.pending_admin is Some ==> s.cancel_admin_transfer_refusal(e)
            is None,
{
}

/// The timelock takes a grace period that is not zero and a delay of at most 30 days.
pub proof fn law_timelock_settings_are_refused(
    s: RegistryView,
    e: InvocationView,
    min_delay: u64,
    grace_period: u64,
)
    ensures
        ({
            let refusal = s.set_timelock_config_refusal(e, min_delay, grace_period);
            let rights = s.admin_refusal(e);
            &&& s.refusal(e, RegistryCall::SetTimelockConfig { min_delay, grace_period })
                == refusal
            &&& rights is Some ==> refusal == rights
            &&& refusal is None <==> rights is None && grace_period > 0 && min_delay <= 2_592_000
            &&& refusal == Some(RegistryError::GracePeriodZero) <==> rights is None && grace_period
                == 0
            &&& refusal == Some(RegistryError::MinDelayTooLong) <==> rights is None && grace_period
                > 0 && min_delay > 2_592_000
        }),
{
}

/// Scheduling takes the administrator's rights, at least the configured delay, and an id
/// that is left.
pub proof fn law_scheduling_is_refused(
    s: RegistryView,
    e: InvocationView,
    action: AdminAction,
    delay: u64,
)
    ensures
        ({
            let refusal = s.schedule_action_refusal(e, delay);
            let rights = s.admin_refusal(e);
            let short = s.timelock_config is Some && delay < s.timelock_config->0.min_delay;
            let room = s.next_timelock_id is None || s.next_timelock_id->0 < u64::MAX;
            &&& s.refusal(e, RegistryCall::ScheduleAction { action, delay }) == refusal
            &&& rights is Some ==> refusal == rights
            &&& refusal is None <==> rights is None && !short && room
            &&& refusal == Some(RegistryError::DelayTooShort) <==> rights is None && short
            &&& refusal == Some(RegistryError::Overflow) <==> rights is None && !short && !room
        }),
{
}

/// Executing takes a proposal that is there, has not been settled, is due and has not run
/// out, and an action that is still in order; it takes nobody's signature.
pub proof fn law_executing_is_refused(s: RegistryView, e: InvocationView, proposal_id: u64)
    ensures
        ({
            let refusal = s.execute_action_refusal(e, proposal_id);
            let there = s.proposals.contains_key(proposal_id);
            let proposal = s.proposals[proposal_id];
            let open_still = there && proposal.status == ProposalStatus::Scheduled;
            let grace: u64 = match s.timelock_config {
                Some(config) => config.grace_period,
                None => 604_800,
            };
            let early = e.timestamp < proposal.eta;
            let late = e.timestamp > proposal.eta + grace;
            &&& s.refusal(e, RegistryCall::ExecuteAction { proposal_id }) == refusal
            &&& refusal == Some(RegistryError::ProposalNotFound) <==> !there
            &&& refusal == Some(RegistryError::ProposalNotActive) <==> there && !open_still
            &&& refusal == Some(RegistryError::DelayNotMet) <==> open_still && early
            &&& refusal == Some(RegistryError::ProposalExpired) <==> open_still && late
            &&& open_still && !early && !late ==> refusal == s.action_refusal(proposal.action)
        }),
{
}

/// Whoever signs an execution, it comes to the same: only the ledger time counts.
pub proof fn law_anybody_may_execute(
    s: RegistryView,
    one: InvocationView,
    other: InvocationView,
    proposal_id: u64,
)
    requires
        one.timestamp == other.timestamp,
    ensures
        s.execute_action_refusal(one, proposal_id) == s.execute_action_refusal(other, proposal_id),
{
}

/// Cancelling takes the administrator's rights and a proposal that is there and has not
/// been settled, whenever it is due.
pub proof fn law_cancelling_is_refused(s: RegistryView, e: InvocationView, proposal_id: u64)
    ensures
        ({
            let refusal = s.cancel_action_refusal(e, proposal_id);
            let rights = s.admin_refusal(e);
            let there = s.proposals.contains_key(proposal_id);
            let scheduled = s.proposals[proposal_id].status == ProposalStatus::Scheduled;
            &&& s.refusal(e, RegistryCall::CancelAction { proposal_id }) == refusal
            &&& rights is Some ==> refusal == rights
            &&& refusal is None <==> rights is None && there && scheduled
            &&& refusal == Some(RegistryError::ProposalNotFound) <==> rights is None && !there
            &&& refusal == Some(RegistryError::ProposalNotActive) <==> rights is None && there
                && !scheduled
        }),
{
}

/// The administrator may pause for ever or for at most 30 days; a guardian for at least a
/// second and at most seven days, and not over a record that an administrator has set or
/// whose setter is in office; nobody else may, and nobody without a signature.
pub proof fn law_pausing_is_refused(
    s: RegistryView,
    e: InvocationView,
    caller: Address,
    domain: PauseDomain,
    duration: u64,
)
    ensures
        ({
            let refusal = s.pause_refusal(e, caller, domain, duration);
            let signed = e.authorized.contains(caller);
            let office = signed && s.protocol_wallet is Some;
            let admin = office && s.protocol_wallet->0 == caller;
            let guardian = office && !admin && s.guardians.contains(caller);
            let locked = s.pauses.contains_key(domain) && (s.set_by_admin.contains(domain)
                || s.protocol_wallet == Some(s.pauses[domain].paused_by));
            let bounded = 0 < duration <= 604_800;
            &&& s.refusal(e, RegistryCall::Pause { caller, domain, duration }) == refusal
            &&& refusal is None <==> admin && duration <= 2_592_000 || guardian && !locked
                && bounded
            &&& refusal == Some(RegistryError::Unauthorized(caller)) <==> !signed
            &&& refusal == Some(RegistryError::NotInitialized) <==> signed && s.protocol_wallet
                is None
            &&& refusal == Some(RegistryError::NotAdminOrGuardian) <==> office && !admin
                && !guardian
            &&& refusal == Some(RegistryError::LockedByAdmin) <==> guardian && locked
            &&& refusal == Some(RegistryError::AdminPauseTooLong) <==> admin && duration
                > 2_592_000
            &&& refusal == Some(RegistryError::GuardianPauseOutOfBounds) <==> guardian && !locked
                && !bounded
        }),
{
}

/// Lifting a pause, removing a guardian, and allowing or disallowing an asset take the
/// administrator's rights and nothing else; adding a guardian also room among the ten,
/// unless it is one already.
pub proof fn law_administration_is_refused(
    s: RegistryView,
    e: InvocationView,
    domain: PauseDomain,
    address: Address,
)
    ensures
        s.refusal(e, RegistryCall::Unpause { domain }) == s.admin_refusal(e),
        s.refusal(e, RegistryCall::RemoveGuardian { guardian: address }) == s.admin_refusal(e),
        s.refusal(e, RegistryCall::AllowAsset { asset: address }) == s.admin_refusal(e),
        s.refusal(e, RegistryCall::DisallowAsset { asset: address }) == s.admin_refusal(e),
        ({
            let refusal = s.add_guardian_refusal(e, address);
            let rights = s.admin_refusal(e);
            let room = s.guardians.contains(address) || s.guardians.len() < 10;
            &&& s.refusal(e, RegistryCall::AddGuardian { guardian: address }) == refusal
            &&& rights is Some ==> refusal == rights
            &&& refusal is None <==> rights is None && room
            &&& refusal == Some(RegistryError::GuardianLimitReached) <==> rights is None && !room
        }),
{
}

/// Whatever is called, a call that is refused leaves the registry as it was.
pub proof fn law_refused_calls_change_nothing(
    s: RegistryView,
    e: InvocationView,
    call: RegistryCall,
)
    requires
        s.refusal(e, call) is Some,
    ensures
        s.step(e, call) == s,
{
}

} // verus!
