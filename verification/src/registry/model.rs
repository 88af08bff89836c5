//! The registry as a mathematical state, and what each entry point does to it.
//!
//! For an entry point `x`, `x_refusal` is the reason to refuse the call (`None` where
//! it goes through), and `x_effect` is the state after a call that goes through. Where
//! several reasons hold at once, the first one in the order of `x_refusal` is reported.

use vstd::prelude::*;

use crate::address::{without, Address};
use crate::event::Event;
use crate::invocation::InvocationView;
use crate::pause::{PauseDomain, PauseInfo, PauseState};
use crate::registry::error::RegistryError;
use crate::registry::{
    DEFAULT_GRACE_PERIOD, MAX_ADMIN_PAUSE_SECS, MAX_GUARDIANS, MAX_GUARDIAN_PAUSE_SECS,
    MAX_MIN_DELAY, MAX_PROTOCOL_FEE_BPS, PROTOCOL_FEE_BPS,
};
use crate::talos::{Kernel, Patron, Pulse, Talos};
use crate::timelock::{later, AdminAction, ProposalStatus, TimelockConfig, TimelockProposal};

verus! {

/// Everything that the registry keeps between two calls.
#[verifier::ext_equal]
pub struct RegistryView {
    pub next_talos_id: Option<u32>,
    pub taloses: Map<u32, Talos>,
    pub creators: Map<u32, Address>,
    pub protocol_wallet: Option<Address>,
    pub protocol_fee_bps: Option<u32>,
    pub pending_admin: Option<Address>,
    pub timelock_config: Option<TimelockConfig>,
    pub proposals: Map<u64, TimelockProposal>,
    pub next_timelock_id: Option<u64>,
    pub pauses: Map<PauseDomain, PauseState>,
    /// The domains whose record was set by who was the administrator then.
    pub set_by_admin: Set<PauseDomain>,
    pub guardians: Seq<Address>,
    pub assets: Set<Address>,
}

/// The reason to refuse `patron`, if its shares do not add up.
pub open spec fn shares_refusal(patron: Patron) -> Option<RegistryError> {
    if patron.total() > u32::MAX {
        Some(RegistryError::Overflow)
    } else if patron.total() != 100 {
        Some(RegistryError::SharesNotHundred)
    } else {
        None
    }
}

/// What is published when `patron` has become the patron of a Talos.
pub open spec fn patron_updated(talos_id: u32, patron: Patron) -> Event {
    Event::PatronUpdated {
        talos_id,
        creator: patron.creator_addr,
        creator_share: patron.creator_share,
        investor_share: patron.investor_share,
    }
}

impl RegistryView {
    /// The registry before its first call.
    pub open spec fn empty() -> Self {
        RegistryView {
            next_talos_id: None,
            taloses: Map::empty(),
            creators: Map::empty(),
            protocol_wallet: None,
            protocol_fee_bps: None,
            pending_admin: None,
            timelock_config: None,
            proposals: Map::empty(),
            next_timelock_id: None,
            pauses: Map::empty(),
            set_by_admin: Set::empty(),
            guardians: Seq::empty(),
            assets: Set::empty(),
        }
    }

    // ── What is read off a state ─────────────────────────────────────

    /// The id that the next Talos gets.
    pub open spec fn next_id(self) -> u32 {
        match self.next_talos_id {
            Some(id) => id,
            None => 1,
        }
    }

    /// The id that the next proposal gets.
    pub open spec fn next_proposal_id(self) -> u64 {
        match self.next_timelock_id {
            Some(id) => id,
            None => 1,
        }
    }

    /// The protocol fee in force, in basis points.
    pub open spec fn fee_bps(self) -> u32 {
        match self.protocol_fee_bps {
            Some(bps) => bps,
            None => PROTOCOL_FEE_BPS,
        }
    }

    /// The timelock configuration in force.
    pub open spec fn timelock(self) -> TimelockConfig {
        match self.timelock_config {
            Some(config) => config,
            None => TimelockConfig { min_delay: 0, grace_period: DEFAULT_GRACE_PERIOD },
        }
    }

    /// Whether the Talos `talos_id` exists and is active.
    pub open spec fn active(self, talos_id: u32) -> bool {
        self.taloses.contains_key(talos_id) && self.taloses[talos_id].active
    }

    /// Whether `domain` is paused at ledger time `now`.
    pub open spec fn paused(self, domain: PauseDomain, now: u64) -> bool {
        self.pauses.contains_key(domain) && self.pauses[domain].in_force(now)
    }

    /// The pause status of `domain` at ledger time `now`.
    pub open spec fn pause_info(self, domain: PauseDomain, now: u64) -> PauseInfo {
        if self.pauses.contains_key(domain) {
            let record = self.pauses[domain];
            PauseInfo {
                active: record.in_force(now),
                paused_by: Some(record.paused_by),
                paused_at: Some(record.paused_at),
                expires_at: if record.in_force(now) && record.expires_at != 0 {
                    Some(record.expires_at)
                } else {
                    None
                },
            }
        } else {
            PauseInfo { active: false, paused_by: None, paused_at: None, expires_at: None }
        }
    }

    /// Whether `domain` has a record that guardians must leave alone: an administrator
    /// set it, or who set it is the administrator now.
    pub open spec fn locked_by_admin(self, domain: PauseDomain) -> bool {
        self.pauses.contains_key(domain) && (self.set_by_admin.contains(domain)
            || self.protocol_wallet == Some(self.pauses[domain].paused_by))
    }

    /// The reason to refuse the administrator's rights to a call.
    pub open spec fn admin_refusal(self, e: InvocationView) -> Option<RegistryError> {
        match self.protocol_wallet {
            None => Some(RegistryError::NotInitialized),
            Some(admin) => if e.authorized_by(admin) {
                None
            } else {
                Some(RegistryError::Unauthorized(admin))
            },
        }
    }

    /// The reason to refuse a creator's rights over the Talos `talos_id`, on a write
    /// path of `domain`.
    pub open spec fn creator_refusal(
        self,
        e: InvocationView,
        domain: PauseDomain,
        talos_id: u32,
    ) -> Option<RegistryError> {
        if self.paused(domain, e.timestamp) {
            Some(RegistryError::Paused)
        } else if !self.taloses.contains_key(talos_id) {
            Some(RegistryError::TalosNotFound)
        } else if !e.authorized_by(self.taloses[talos_id].creator) {
            Some(RegistryError::Unauthorized(self.taloses[talos_id].creator))
        } else {
            None
        }
    }

    // ── Taloses ──────────────────────────────────────────────────────

    pub open spec fn create_talos_refusal(
        self,
        e: InvocationView,
        patron: Patron,
        protocol_wallet: Address,
    ) -> Option<RegistryError> {
        if self.paused(PauseDomain::TalosCreation, e.timestamp) {
            Some(RegistryError::Paused)
        } else if !e.authorized_by(patron.creator_addr) {
            Some(RegistryError::Unauthorized(patron.creator_addr))
        } else if shares_refusal(patron) is Some {
            shares_refusal(patron)
        } else if self.protocol_wallet is Some && self.protocol_wallet != Some(protocol_wallet) {
            Some(RegistryError::WalletMismatch)
        } else if self.next_id() == u32::MAX {
            Some(RegistryError::Overflow)
        } else {
            None
        }
    }

    /// The Talos that `create_talos` makes.
    pub open spec fn new_talos(
        self,
        e: InvocationView,
        name: soroban_sdk::String,
        category: soroban_sdk::String,
        description: soroban_sdk::String,
        patron: Patron,
        kernel: Kernel,
        pulse: Pulse,
    ) -> Talos {
        Talos {
            id: self.next_id(),
            name,
            category,
            description,
            creator: patron.creator_addr,
            patron,
            kernel,
            pulse,
            created_at: e.timestamp,
            active: true,
        }
    }

    pub open spec fn create_talos_effect(self, talos: Talos) -> Self {
        RegistryView {
            taloses: self.taloses.insert(talos.id, talos),
            creators: self.creators.insert(talos.id, talos.creator),
            next_talos_id: Some((talos.id + 1) as u32),
            ..self
        }
    }

    /// The Talos `talos_id` becomes `talos`.
    pub open spec fn with_talos(self, talos_id: u32, talos: Talos) -> Self {
        RegistryView { taloses: self.taloses.insert(talos_id, talos), ..self }
    }

    pub open spec fn update_patron_refusal(
        self,
        e: InvocationView,
        talos_id: u32,
        patron: Patron,
    ) -> Option<RegistryError> {
        match self.creator_refusal(e, PauseDomain::PatronUpdates, talos_id) {
            Some(error) => Some(error),
            None => shares_refusal(patron),
        }
    }

    pub open spec fn update_patron_effect(self, talos_id: u32, patron: Patron) -> Self {
        self.with_talos(talos_id, Talos { patron, ..self.taloses[talos_id] })
    }

    pub open spec fn update_kernel_effect(self, talos_id: u32, kernel: Kernel) -> Self {
        self.with_talos(talos_id, Talos { kernel, ..self.taloses[talos_id] })
    }

    pub open spec fn update_pulse_effect(self, talos_id: u32, pulse: Pulse) -> Self {
        self.with_talos(talos_id, Talos { pulse, ..self.taloses[talos_id] })
    }

    pub open spec fn deactivate_talos_effect(self, talos_id: u32) -> Self {
        self.with_talos(talos_id, Talos { active: false, ..self.taloses[talos_id] })
    }

    // ── Fee and administrator ────────────────────────────────────────

    pub open spec fn initialize_refusal(self) -> Option<RegistryError> {
        if self.protocol_wallet is Some {
            Some(RegistryError::AlreadyInitialized)
        } else {
            None
        }
    }

    pub open spec fn initialize_effect(self, protocol_wallet: Address) -> Self {
        RegistryView {
            protocol_wallet: Some(protocol_wallet),
            protocol_fee_bps: Some(PROTOCOL_FEE_BPS),
            next_talos_id: Some(1),
            ..self
        }
    }

    /// The reason to refuse a direct call of what can be scheduled.
    pub open spec fn direct_refusal(self, e: InvocationView) -> Option<RegistryError> {
        match self.admin_refusal(e) {
            Some(error) => Some(error),
            None => if self.timelock().min_delay > 0 {
                Some(RegistryError::TimelockEnabled)
            } else {
                None
            },
        }
    }

    pub open spec fn set_protocol_fee_refusal(
        self,
        e: InvocationView,
        fee_bps: u32,
    ) -> Option<RegistryError> {
        if fee_bps > MAX_PROTOCOL_FEE_BPS {
            Some(RegistryError::FeeTooHigh)
        } else {
            self.direct_refusal(e)
        }
    }

    pub open spec fn set_protocol_fee_effect(self, fee_bps: u32) -> Self {
        RegistryView { protocol_fee_bps: Some(fee_bps), ..self }
    }

    pub open spec fn propose_admin_effect(self, new_admin: Address) -> Self {
        RegistryView { pending_admin: Some(new_admin), ..self }
    }

    pub open spec fn accept_admin_refusal(self, e: InvocationView) -> Option<RegistryError> {
        match self.pending_admin {
            None => Some(RegistryError::NoPendingAdmin),
            Some(pending) => if e.authorized_by(pending) {
                None
            } else {
                Some(RegistryError::Unauthorized(pending))
            },
        }
    }

    pub open spec fn accept_admin_effect(self) -> Self {
        RegistryView { protocol_wallet: self.pending_admin, pending_admin: None, ..self }
    }

    pub open spec fn cancel_admin_transfer_refusal(self, e: InvocationView) -> Option<
        RegistryError,
    > {
        match self.admin_refusal(e) {
            Some(error) => Some(error),
            None => if self.pending_admin is None {
                Some(RegistryError::NoPendingAdmin)
            } else {
                None
            },
        }
    }

    pub open spec fn cancel_admin_transfer_effect(self) -> Self {
        RegistryView { pending_admin: None, ..self }
    }

    pub open spec fn protocol_fee_refusal(self, amount: i128) -> Option<RegistryError> {
        if amount < 0 {
            Some(RegistryError::NegativeAmount)
        } else if amount * self.fee_bps() > i128::MAX {
            Some(RegistryError::Overflow)
        } else {
            None
        }
    }

    /// The part of `amount` that the fee takes, rounded down.
    pub open spec fn protocol_fee(self, amount: i128) -> int {
        (amount * self.fee_bps()) / (MAX_PROTOCOL_FEE_BPS as int)
    }

    // ── Timelock ─────────────────────────────────────────────────────

    pub open spec fn set_timelock_config_refusal(
        self,
        e: InvocationView,
        min_delay: u64,
        grace_period: u64,
    ) -> Option<RegistryError> {
        match self.admin_refusal(e) {
            Some(error) => Some(error),
            None => if grace_period == 0 {
                Some(RegistryError::GracePeriodZero)
            } else if min_delay > MAX_MIN_DELAY {
                Some(RegistryError::MinDelayTooLong)
            } else {
                None
            },
        }
    }

    pub open spec fn set_timelock_config_effect(self, config: TimelockConfig) -> Self {
        RegistryView { timelock_config: Some(config), ..self }
    }

    pub open spec fn schedule_action_refusal(self, e: InvocationView, delay: u64) -> Option<
        RegistryError,
    > {
        match self.admin_refusal(e) {
            Some(error) => Some(error),
            None => if delay < self.timelock().min_delay {
                Some(RegistryError::DelayTooShort)
            } else if self.next_proposal_id() == u64::MAX {
                Some(RegistryError::Overflow)
            } else {
                None
            },
        }
    }

    /// The proposal that scheduling `action` makes.
    pub open spec fn scheduled(
        self,
        e: InvocationView,
        action: AdminAction,
        delay: u64,
    ) -> TimelockProposal {
        TimelockProposal {
            id: self.next_proposal_id(),
            action,
            eta: later(e.timestamp, delay),
            status: ProposalStatus::Scheduled,
            scheduled_at: e.timestamp,
            scheduled_by: self.protocol_wallet->0,
        }
    }

    pub open spec fn schedule_action_effect(self, proposal: TimelockProposal) -> Self {
        RegistryView {
            proposals: self.proposals.insert(proposal.id, proposal),
            next_timelock_id: Some((proposal.id + 1) as u64),
            ..self
        }
    }

    /// The reason to refuse to perform `action` itself.
    pub open spec fn action_refusal(self, action: AdminAction) -> Option<RegistryError> {
        match action {
            AdminAction::SetProtocolFee(fee_bps) => if fee_bps > MAX_PROTOCOL_FEE_BPS {
                Some(RegistryError::FeeTooHigh)
            } else {
                None
            },
            AdminAction::ProposeAdmin(_) => if self.protocol_wallet is None {
                Some(RegistryError::NotInitialized)
            } else {
                None
            },
        }
    }

    pub open spec fn action_effect(self, action: AdminAction) -> Self {
        match action {
            AdminAction::SetProtocolFee(fee_bps) => self.set_protocol_fee_effect(fee_bps),
            AdminAction::ProposeAdmin(new_admin) => self.propose_admin_effect(new_admin),
        }
    }

    /// What is published when `action` is performed.
    pub open spec fn action_event(self, action: AdminAction) -> Event {
        match action {
            AdminAction::SetProtocolFee(fee_bps) => Event::ProtocolFeeChanged {
                old_bps: self.fee_bps(),
                new_bps: fee_bps,
            },
            AdminAction::ProposeAdmin(new_admin) => Event::AdminProposed {
                current: self.protocol_wallet->0,
                proposed: new_admin,
            },
        }
    }

    pub open spec fn execute_action_refusal(self, e: InvocationView, proposal_id: u64) -> Option<
        RegistryError,
    > {
        let proposal = self.proposals[proposal_id];
        if !self.proposals.contains_key(proposal_id) {
            Some(RegistryError::ProposalNotFound)
        } else if proposal.status != ProposalStatus::Scheduled {
            Some(RegistryError::ProposalNotActive)
        } else if e.timestamp < proposal.eta {
            Some(RegistryError::DelayNotMet)
        } else if e.timestamp > later(proposal.eta, self.timelock().grace_period) {
            Some(RegistryError::ProposalExpired)
        } else {
            self.action_refusal(proposal.action)
        }
    }

    /// The proposal `proposal_id` gets the status `status`.
    pub open spec fn with_status(self, proposal_id: u64, status: ProposalStatus) -> Self {
        RegistryView {
            proposals: self.proposals.insert(
                proposal_id,
                TimelockProposal { status, ..self.proposals[proposal_id] },
            ),
            ..self
        }
    }

    pub open spec fn execute_action_effect(self, proposal_id: u64) -> Self {
        self.action_effect(self.proposals[proposal_id].action).with_status(
            proposal_id,
            ProposalStatus::Executed,
        )
    }

    pub open spec fn cancel_action_refusal(self, e: InvocationView, proposal_id: u64) -> Option<
        RegistryError,
    > {
        match self.admin_refusal(e) {
            Some(error) => Some(error),
            None => if !self.proposals.contains_key(proposal_id) {
                Some(RegistryError::ProposalNotFound)
            } else if self.proposals[proposal_id].status != ProposalStatus::Scheduled {
                Some(RegistryError::ProposalNotActive)
            } else {
                None
            },
        }
    }

    pub open spec fn cancel_action_effect(self, proposal_id: u64) -> Self {
        self.with_status(proposal_id, ProposalStatus::Cancelled)
    }

    // ── Pauses and guardians ─────────────────────────────────────────

    pub open spec fn pause_refusal(
        self,
        e: InvocationView,
        caller: Address,
        domain: PauseDomain,
        duration: u64,
    ) -> Option<RegistryError> {
        if !e.authorized_by(caller) {
            Some(RegistryError::Unauthorized(caller))
        } else if self.protocol_wallet is None {
            Some(RegistryError::NotInitialized)
        } else if self.protocol_wallet == Some(caller) {
            if duration > MAX_ADMIN_PAUSE_SECS {
                Some(RegistryError::AdminPauseTooLong)
            } else {
                None
            }
        } else if !self.guardians.contains(caller) {
            Some(RegistryError::NotAdminOrGuardian)
        } else if self.locked_by_admin(domain) {
            Some(RegistryError::LockedByAdmin)
        } else if duration == 0 || duration > MAX_GUARDIAN_PAUSE_SECS {
            Some(RegistryError::GuardianPauseOutOfBounds)
        } else {
            None
        }
    }

    /// The record of a pause that `caller` sets; a duration of `0` is for ever.
    pub open spec fn pause_record(
        self,
        e: InvocationView,
        caller: Address,
        duration: u64,
    ) -> PauseState {
        PauseState {
            paused_by: caller,
            paused_at: e.timestamp,
            expires_at: if duration == 0 {
                0
            } else {
                later(e.timestamp, duration)
            },
        }
    }

    /// `record` becomes the record of `domain`, and it is noted whether it is the
    /// administrator's.
    pub open spec fn pause_effect(self, domain: PauseDomain, record: PauseState) -> Self {
        RegistryView {
            pauses: self.pauses.insert(domain, record),
            set_by_admin: if self.protocol_wallet == Some(record.paused_by) {
                self.set_by_admin.insert(domain)
            } else {
                self.set_by_admin.remove(domain)
            },
            ..self
        }
    }

    /// Lifts the pause of `domain`; where none is in force, nothing happens.
    pub open spec fn unpause_effect(self, e: InvocationView, domain: PauseDomain) -> Self {
        if self.paused(domain, e.timestamp) {
            RegistryView {
                pauses: self.pauses.remove(domain),
                set_by_admin: self.set_by_admin.remove(domain),
                ..self
            }
        } else {
            self
        }
    }

    pub open spec fn add_guardian_refusal(self, e: InvocationView, guardian: Address) -> Option<
        RegistryError,
    > {
        match self.admin_refusal(e) {
            Some(error) => Some(error),
            None => if !self.guardians.contains(guardian) && self.guardians.len()
                >= MAX_GUARDIANS {
                Some(RegistryError::GuardianLimitReached)
            } else {
                None
            },
        }
    }

    /// `guardian` goes to the end of the roster, unless it is on it.
    pub open spec fn add_guardian_effect(self, guardian: Address) -> Self {
        if self.guardians.contains(guardian) {
            self
        } else {
            RegistryView { guardians: self.guardians.push(guardian), ..self }
        }
    }

    pub open spec fn remove_guardian_effect(self, guardian: Address) -> Self {
        RegistryView { guardians: without(self.guardians, guardian), ..self }
    }

    // ── Assets ───────────────────────────────────────────────────────

    pub open spec fn allow_asset_effect(self, asset: Address) -> Self {
        RegistryView { assets: self.assets.insert(asset), ..self }
    }

    pub open spec fn disallow_asset_effect(self, asset: Address) -> Self {
        RegistryView { assets: self.assets.remove(asset), ..self }
    }
}

} // verus!
