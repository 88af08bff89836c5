//! The calls that can change a registry, taken together.

use vstd::prelude::*;

use crate::address::Address;
use crate::invocation::InvocationView;
use crate::pause::PauseDomain;
use crate::registry::error::RegistryError;
use crate::registry::model::RegistryView;
use crate::talos::{Kernel, Patron, Pulse};
use crate::timelock::{AdminAction, TimelockConfig};

verus! {

/// A call of one of the entry points of the registry that write.
pub enum RegistryCall {
    CreateTalos {
        name: soroban_sdk::String,
        category: soroban_sdk::String,
        description: soroban_sdk::String,
        patron: Patron,
        kernel: Kernel,
        pulse: Pulse,
        protocol_wallet: Address,
    },
    UpdatePatron { talos_id: u32, patron: Patron },
    UpdateKernel { talos_id: u32, kernel: Kernel },
    UpdatePulse { talos_id: u32, pulse: Pulse },
    DeactivateTalos { talos_id: u32 },
    Initialize { protocol_wallet: Address },
    SetProtocolFee { fee_bps: u32 },
    ProposeAdmin { new_admin: Address },
    SetTimelockConfig { min_delay: u64, grace_period: u64 },
    ScheduleAction { action: AdminAction, delay: u64 },
    ExecuteAction { proposal_id: u64 },
    CancelAction { proposal_id: u64 },
    AcceptAdmin,
    CancelAdminTransfer,
    Pause { caller: Address, domain: PauseDomain, duration: u64 },
    Unpause { domain: PauseDomain },
    AddGuardian { guardian: Address },
    RemoveGuardian { guardian: Address },
    AllowAsset { asset: Address },
    DisallowAsset { asset: Address },
}

impl RegistryCall {
    /// The write path that the call takes, if it takes one that can be paused.
    pub open spec fn domain(self) -> Option<PauseDomain> {
        match self {
            RegistryCall::CreateTalos { .. } => Some(PauseDomain::TalosCreation),
            RegistryCall::UpdatePatron { .. } => Some(PauseDomain::PatronUpdates),
            RegistryCall::UpdateKernel { .. } => Some(PauseDomain::KernelUpdates),
            RegistryCall::UpdatePulse { .. } => Some(PauseDomain::PulseUpdates),
            RegistryCall::DeactivateTalos { .. } => Some(PauseDomain::Deactivation),
            _ => None,
        }
    }

    /// Whether the call is reserved to the administrator.
    pub open spec fn admin_only(self) -> bool {
        match self {
            RegistryCall::SetProtocolFee { .. } => true,
            RegistryCall::ProposeAdmin { .. } => true,
            RegistryCall::SetTimelockConfig { .. } => true,
            RegistryCall::ScheduleAction { .. } => true,
            RegistryCall::CancelAction { .. } => true,
            RegistryCall::CancelAdminTransfer => true,
            RegistryCall::Unpause { .. } => true,
            RegistryCall::AddGuardian { .. } => true,
            RegistryCall::RemoveGuardian { .. } => true,
            RegistryCall::AllowAsset { .. } => true,
            RegistryCall::DisallowAsset { .. } => true,
            _ => false,
        }
    }
}

impl RegistryView {
    /// Whether `call` nominates an administrator, if it goes through: directly, or by
    /// executing a proposal to that end.
    pub open spec fn nominates(self, call: RegistryCall) -> bool {
        match call {
            RegistryCall::ProposeAdmin { .. } => true,
            RegistryCall::ExecuteAction { proposal_id } => self.proposals[proposal_id].action
                is ProposeAdmin,
            _ => false,
        }
    }

    /// The reason to refuse `call`.
    pub open spec fn refusal(self, e: InvocationView, call: RegistryCall) -> Option<RegistryError> {
        match call {
            RegistryCall::CreateTalos { patron, protocol_wallet, .. } => self.create_talos_refusal(
                e,
                patron,
                protocol_wallet,
            ),
            RegistryCall::UpdatePatron { talos_id, patron } => self.update_patron_refusal(
                e,
                talos_id,
                patron,
            ),
            RegistryCall::UpdateKernel { talos_id, .. } => self.creator_refusal(
                e,
                PauseDomain::KernelUpdates,
                talos_id,
            ),
            RegistryCall::UpdatePulse { talos_id, .. } => self.creator_refusal(
                e,
                PauseDomain::PulseUpdates,
                talos_id,
            ),
            RegistryCall::DeactivateTalos { talos_id } => self.creator_refusal(
                e,
                PauseDomain::Deactivation,
                talos_id,
            ),
            RegistryCall::Initialize { .. } => self.initialize_refusal(),
            RegistryCall::SetProtocolFee { fee_bps } => self.set_protocol_fee_refusal(e, fee_bps),
            RegistryCall::ProposeAdmin { .. } => self.direct_refusal(e),
            RegistryCall::SetTimelockConfig { min_delay, grace_period } =>
                self.set_timelock_config_refusal(e, min_delay, grace_period),
            RegistryCall::ScheduleAction { delay, .. } => self.schedule_action_refusal(e, delay),
            RegistryCall::ExecuteAction { proposal_id } => self.execute_action_refusal(
                e,
                proposal_id,
            ),
            RegistryCall::CancelAction { proposal_id } => self.cancel_action_refusal(
                e,
                proposal_id,
            ),
            RegistryCall::AcceptAdmin => self.accept_admin_refusal(e),
            RegistryCall::CancelAdminTransfer => self.cancel_admin_transfer_refusal(e),
            RegistryCall::Pause { caller, domain, duration } => self.pause_refusal(
                e,
                caller,
                domain,
                duration,
            ),
            RegistryCall::Unpause { .. } => self.admin_refusal(e),
            RegistryCall::AddGuardian { guardian } => self.add_guardian_refusal(e, guardian),
            RegistryCall::RemoveGuardian { .. } => self.admin_refusal(e),
            RegistryCall::AllowAsset { .. } => self.admin_refusal(e),
            RegistryCall::DisallowAsset { .. } => self.admin_refusal(e),
        }
    }

    /// The state after a `call` that goes through.
    pub open spec fn effect(self, e: InvocationView, call: RegistryCall) -> Self {
        match call {
            RegistryCall::CreateTalos {
                name,
                category,
                description,
                patron,
                kernel,
                pulse,
                ..
            } => self.create_talos_effect(
                self.new_talos(e, name, category, description, patron, kernel, pulse),
            ),
            RegistryCall::UpdatePatron { talos_id, patron } => self.update_patron_effect(
                talos_id,
                patron,
            ),
            RegistryCall::UpdateKernel { talos_id, kernel } => self.update_kernel_effect(
                talos_id,
                kernel,
            ),
            RegistryCall::UpdatePulse { talos_id, pulse } => self.update_pulse_effect(
                talos_id,
                pulse,
            ),
            RegistryCall::DeactivateTalos { talos_id } => self.deactivate_talos_effect(talos_id),
            RegistryCall::Initialize { protocol_wallet } => self.initialize_effect(protocol_wallet),
            RegistryCall::SetProtocolFee { fee_bps } => self.set_protocol_fee_effect(fee_bps),
            RegistryCall::ProposeAdmin { new_admin } => self.propose_admin_effect(new_admin),
            RegistryCall::SetTimelockConfig { min_delay, grace_period } =>
                self.set_timelock_config_effect(TimelockConfig { min_delay, grace_period }),
            RegistryCall::ScheduleAction { action, delay } => self.schedule_action_effect(
                self.scheduled(e, action, delay),
            ),
            RegistryCall::ExecuteAction { proposal_id } => self.execute_action_effect(proposal_id),
            RegistryCall::CancelAction { proposal_id } => self.cancel_action_effect(proposal_id),
            RegistryCall::AcceptAdmin => self.accept_admin_effect(),
            RegistryCall::CancelAdminTransfer => self.cancel_admin_transfer_effect(),
            RegistryCall::Pause { caller, domain, duration } => self.pause_effect(
                domain,
                self.pause_record(e, caller, duration),
            ),
            RegistryCall::Unpause { domain } => self.unpause_effect(e, domain),
            RegistryCall::AddGuardian { guardian } => self.add_guardian_effect(guardian),
            RegistryCall::RemoveGuardian { guardian } => self.remove_guardian_effect(guardian),
            RegistryCall::AllowAsset { asset } => self.allow_asset_effect(asset),
            RegistryCall::DisallowAsset { asset } => self.disallow_asset_effect(asset),
        }
    }

    /// The state after `call`, whether it goes through or is refused.
    pub open spec fn step(self, e: InvocationView, call: RegistryCall) -> Self {
        if self.refusal(e, call) is Some {
            self
        } else {
            self.effect(e, call)
        }
    }
}

} // verus!
