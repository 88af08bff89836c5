//! The registry of Taloses: creation and upkeep of Taloses, the protocol fee, the
//! administrator, delayed administrative actions, pauses and guardians.

use std::collections::BTreeMap;
use vstd::prelude::*;

use crate::address::{lemma_without, Address, AddressSet};
use crate::event::Event;
use crate::invocation::{settles, Invocation};
use crate::pause::{DomainSet, PauseDomain, PauseInfo, PauseState, PauseTable};
use crate::registry::error::RegistryError;
use crate::registry::model::{patron_updated, shares_refusal, RegistryView};
use crate::roster::Roster;
use crate::talos::{Kernel, Patron, Pulse, Talos};
use crate::timelock::{AdminAction, ProposalStatus, TimelockConfig, TimelockProposal};

pub mod calls;
pub mod error;
pub mod grounds;
pub mod laws;
pub mod model;
pub mod outcomes;

verus! {

broadcast use vstd::std_specs::btree::group_btree_axioms;

/// The protocol fee that a registry starts with: 3 %.
pub const PROTOCOL_FEE_BPS: u32 = 300;

/// The highest protocol fee: 100 %.
pub const MAX_PROTOCOL_FEE_BPS: u32 = 10_000;

/// 7 days, in seconds.
pub const DEFAULT_GRACE_PERIOD: u64 = 604_800;

/// 30 days, in seconds.
pub const MAX_MIN_DELAY: u64 = 2_592_000;

/// 7 days, in seconds: bounds what a compromised guardian can do.
pub const MAX_GUARDIAN_PAUSE_SECS: u64 = 604_800;

/// 30 days, in seconds. The administrator may also pause for ever.
pub const MAX_ADMIN_PAUSE_SECS: u64 = 2_592_000;

/// The greatest number of guardians.
pub const MAX_GUARDIANS: u32 = 10;

/// Version of the registry's interface, as `(major, minor, patch)`.
///
/// - major: an incompatible change (entry points removed or renamed, argument types
///   changed)
/// - minor: a compatible new entry point or field
/// - patch: a fix that callers cannot see
pub const CONTRACT_VERSION: (u32, u32, u32) = (1, 2, 0);

/// The registry. Its fields are what it keeps between two calls.
pub struct TalosRegistry {
    pub next_talos_id: Option<u32>,
    pub taloses: BTreeMap<u32, Talos>,
    pub creators: BTreeMap<u32, Address>,
    pub protocol_wallet: Option<Address>,
    pub protocol_fee_bps: Option<u32>,
    /// The nominee of the administrator, who has not accepted yet.
    pub pending_admin: Option<Address>,
    pub timelock_config: Option<TimelockConfig>,
    pub proposals: BTreeMap<u64, TimelockProposal>,
    pub next_timelock_id: Option<u64>,
    pub pauses: PauseTable,
    /// The domains whose record was set by who was the administrator then. Guardians
    /// cannot replace such a record, whoever holds the office now, nor one that was set
    /// by who is the administrator now.
    pub set_by_admin: DomainSet,
    /// Who may set pauses, but not lift them.
    pub guardians: Roster,
    /// The assets in which fees may be paid.
    pub assets: AddressSet,
}

impl View for TalosRegistry {
    type V = RegistryView;

    open spec fn view(&self) -> RegistryView {
        RegistryView {
            next_talos_id: self.next_talos_id,
            taloses: self.taloses@,
            creators: self.creators@,
            protocol_wallet: self.protocol_wallet,
            protocol_fee_bps: self.protocol_fee_bps,
            pending_admin: self.pending_admin,
            timelock_config: self.timelock_config,
            proposals: self.proposals@,
            next_timelock_id: self.next_timelock_id,
            pauses: self.pauses@,
            set_by_admin: self.set_by_admin@,
            guardians: self.guardians@,
            assets: self.assets@,
        }
    }
}

/// Refuses a patron whose shares do not sum to 100.
pub fn validate_patron_shares(patron: &Patron) -> (r: Result<(), RegistryError>)
    ensures
        match shares_refusal(*patron) {
            Some(error) => r == Err::<(), RegistryError>(error),
            None => r == Ok::<(), RegistryError>(()),
        },
{
    let partial = match patron.creator_share.checked_add(patron.investor_share) {
        Some(sum) => sum,
        None => return Err(RegistryError::Overflow),
    };
    let total = match partial.checked_add(patron.treasury_share) {
        Some(sum) => sum,
        None => return Err(RegistryError::Overflow),
    };
    if total != 100 {
        return Err(RegistryError::SharesNotHundred);
    }
    Ok(())
}

impl TalosRegistry {
    /// A registry before its first call, in the host `env`.
    pub fn new(env: &soroban_sdk::Env) -> (r: Self)
        ensures
            r@ == RegistryView::empty(),
    {
        TalosRegistry {
            next_talos_id: None,
            taloses: BTreeMap::new(),
            creators: BTreeMap::new(),
            protocol_wallet: None,
            protocol_fee_bps: None,
            pending_admin: None,
            timelock_config: None,
            proposals: BTreeMap::new(),
            next_timelock_id: None,
            pauses: PauseTable::new(),
            set_by_admin: DomainSet::new(),
            guardians: Roster::new(env),
            assets: AddressSet::new(),
        }
    }

    /// The administrator, if the call has the administrator's authorization.
    fn require_admin(&self, e: &Invocation) -> (r: Result<Address, RegistryError>)
        ensures
            match self@.admin_refusal(e@) {
                Some(error) => r == Err::<Address, RegistryError>(error),
                None => self@.protocol_wallet is Some && r == Ok::<Address, RegistryError>(
                    self@.protocol_wallet->0,
                ),
            },
    {
        match self.protocol_wallet {
            None => Err(RegistryError::NotInitialized),
            Some(admin) => if e.is_authorized_by(admin) {
                Ok(admin)
            } else {
                Err(RegistryError::Unauthorized(admin))
            },
        }
    }

    /// Whether `domain` is paused. A pause that has run out counts as none.
    fn is_domain_paused(&self, now: u64, domain: PauseDomain) -> (r: bool)
        ensures
            r == self@.paused(domain, now),
    {
        match self.pauses.get(domain) {
            None => false,
            Some(state) => state.is_in_force(now),
        }
    }

    /// Whether the creator of `talos_id` may write on the path of `domain` now.
    fn require_creator(&self, e: &Invocation, domain: PauseDomain, talos_id: u32) -> (r: Result<
        (),
        RegistryError,
    >)
        ensures
            match self@.creator_refusal(e@, domain, talos_id) {
                Some(error) => r == Err::<(), RegistryError>(error),
                None => r == Ok::<(), RegistryError>(()),
            },
    {
        if self.is_domain_paused(e.timestamp, domain) {
            return Err(RegistryError::Paused);
        }
        match self.taloses.get(&talos_id) {
            None => Err(RegistryError::TalosNotFound),
            Some(talos) => if e.is_authorized_by(talos.creator) {
                Ok(())
            } else {
                Err(RegistryError::Unauthorized(talos.creator))
            },
        }
    }

    /// Creates a Talos and returns its id.
    ///
    /// The creator named in `patron` must authorize the call. Once the registry is
    /// initialized, `protocol_wallet` must be the configured wallet.
    pub fn create_talos(
        &mut self,
        e: &mut Invocation,
        name: soroban_sdk::String,
        category: soroban_sdk::String,
        description: soroban_sdk::String,
        patron: Patron,
        kernel: Kernel,
        pulse: Pulse,
        protocol_wallet: Address,
    ) -> (r: Result<u32, RegistryError>)
        ensures
            settles(
                old(self)@.create_talos_refusal(old(e)@, patron, protocol_wallet),
                r,
                (old(self)@, old(e)@),
                (final(self)@, final(e)@),
                old(self)@.next_id(),
                (
                    old(self)@.create_talos_effect(
                        old(self)@.new_talos(
                            old(e)@,
                            name,
                            category,
                            description,
                            patron,
                            kernel,
                            pulse,
                        ),
                    ),
                    old(e)@.emit(
                        Event::TalosCreated {
                            creator: patron.creator_addr,
                            talos_id: old(self)@.next_id(),
                            name,
                            category,
                        },
                    ),
                ),
            ),
    {
        if self.is_domain_paused(e.timestamp, PauseDomain::TalosCreation) {
            return Err(RegistryError::Paused);
        }
        let creator = patron.creator_addr;
        if !e.is_authorized_by(creator) {
            return Err(RegistryError::Unauthorized(creator));
        }
        match validate_patron_shares(&patron) {
            Ok(()) => {},
            Err(error) => return Err(error),
        }
        match self.protocol_wallet {
            Some(configured) => if configured != protocol_wallet {
                return Err(RegistryError::WalletMismatch);
            },
            None => {},
        }
        let id: u32 = self.next_talos_id();
        if id == u32::MAX {
            return Err(RegistryError::Overflow);
        }
        let event = Event::TalosCreated {
            creator,
            talos_id: id,
            name: name.clone(),
            category: category.clone(),
        };
        let talos = Talos {
            id,
            name,
            category,
            description,
            creator,
            patron,
            kernel,
            pulse,
            created_at: e.timestamp,
            active: true,
        };
        self.taloses.insert(id, talos);
        self.creators.insert(id, creator);
        self.next_talos_id = Some(id + 1);
        e.publish(event);
        Ok(id)
    }

    /// The Talos `talos_id`.
    pub fn get_talos(&self, talos_id: u32) -> (r: Option<&Talos>)
        ensures
            r == (if self@.taloses.contains_key(talos_id) {
                Some(&self@.taloses[talos_id])
            } else {
                None
            }),
    {
        self.taloses.get(&talos_id)
    }

    /// The creator of the Talos `talos_id`.
    pub fn creator_of(&self, talos_id: u32) -> (r: Option<Address>)
        ensures
            r == (if self@.creators.contains_key(talos_id) {
                Some(self@.creators[talos_id])
            } else {
                None
            }),
    {
        match self.creators.get(&talos_id) {
            Some(creator) => Some(*creator),
            None => None,
        }
    }

    /// Whether the Talos `talos_id` exists and is active.
    pub fn is_active(&self, talos_id: u32) -> (r: bool)
        ensures
            r == self@.active(talos_id),
    {
        match self.taloses.get(&talos_id) {
            Some(talos) => talos.active,
            None => false,
        }
    }

    /// The id that the next Talos gets.
    pub fn next_talos_id(&self) -> (r: u32)
        ensures
            r == self@.next_id(),
    {
        match self.next_talos_id {
            Some(id) => id,
            None => 1,
        }
    }

    /// Replaces the patron of a Talos. Its creator must authorize the call.
    pub fn update_patron(&mut self, e: &mut Invocation, talos_id: u32, patron: Patron) -> (r: Result<
        (),
        RegistryError,
    >)
        ensures
            settles(
                old(self)@.update_patron_refusal(old(e)@, talos_id, patron),
                r,
                (old(self)@, old(e)@),
                (final(self)@, final(e)@),
                (),
                (
                    old(self)@.update_patron_effect(talos_id, patron),
                    old(e)@.emit(patron_updated(talos_id, patron)),
                ),
            ),
    {
        match self.require_creator(e, PauseDomain::PatronUpdates, talos_id) {
            Ok(()) => {},
            Err(error) => return Err(error),
        }
        match validate_patron_shares(&patron) {
            Ok(()) => {},
            Err(error) => return Err(error),
        }
        if let Some(mut talos) = self.taloses.remove(&talos_id) {
            talos.patron = patron;
            self.taloses.insert(talos_id, talos);
        }
        e.publish(
            Event::PatronUpdated {
                talos_id,
                creator: patron.creator_addr,
                creator_share: patron.creator_share,
                investor_share: patron.investor_share,
            },
        );
        assert(self@ =~= old(self)@.update_patron_effect(talos_id, patron));
        Ok(())
    }

    /// Replaces the kernel of a Talos. Its creator must authorize the call.
    pub fn update_kernel(&mut self, e: &mut Invocation, talos_id: u32, kernel: Kernel) -> (r: Result<
        (),
        RegistryError,
    >)
        ensures
            settles(
                old(self)@.creator_refusal(old(e)@, PauseDomain::KernelUpdates, talos_id),
                r,
                (old(self)@, old(e)@),
                (final(self)@, final(e)@),
                (),
                (old(self)@.update_kernel_effect(talos_id, kernel), old(e)@),
            ),
    {
        match self.require_creator(e, PauseDomain::KernelUpdates, talos_id) {
            Ok(()) => {},
            Err(error) => return Err(error),
        }
        if let Some(mut talos) = self.taloses.remove(&talos_id) {
            talos.kernel = kernel;
            self.taloses.insert(talos_id, talos);
        }
        assert(self@ =~= old(self)@.update_kernel_effect(talos_id, kernel));
        Ok(())
    }

    /// Replaces the pulse of a Talos. Its creator must authorize the call.
    pub fn update_pulse(&mut self, e: &mut Invocation, talos_id: u32, pulse: Pulse) -> (r: Result<
        (),
        RegistryError,
    >)
        ensures
            settles(
                old(self)@.creator_refusal(old(e)@, PauseDomain::PulseUpdates, talos_id),
                r,
                (old(self)@, old(e)@),
                (final(self)@, final(e)@),
                (),
                (old(self)@.update_pulse_effect(talos_id, pulse), old(e)@),
            ),
    {
        match self.require_creator(e, PauseDomain::PulseUpdates, talos_id) {
            Ok(()) => {},
            Err(error) => return Err(error),
        }
        if let Some(mut talos) = self.taloses.remove(&talos_id) {
            talos.pulse = pulse;
            self.taloses.insert(talos_id, talos);
        }
        assert(self@ =~= old(self)@.update_pulse_effect(talos_id, pulse));
        Ok(())
    }

    /// Makes a Talos inactive. Its creator must authorize the call.
    pub fn deactivate_talos(&mut self, e: &mut Invocation, talos_id: u32) -> (r: Result<
        (),
        RegistryError,
    >)
        ensures
            settles(
                old(self)@.creator_refusal(old(e)@, PauseDomain::Deactivation, talos_id),
                r,
                (old(self)@, old(e)@),
                (final(self)@, final(e)@),
                (),
                (old(self)@.deactivate_talos_effect(talos_id), old(e)@),
            ),
    {
        match self.require_creator(e, PauseDomain::Deactivation, talos_id) {
            Ok(()) => {},
            Err(error) => return Err(error),
        }
        if let Some(mut talos) = self.taloses.remove(&talos_id) {
            talos.active = false;
            self.taloses.insert(talos_id, talos);
        }
        assert(self@ =~= old(self)@.deactivate_talos_effect(talos_id));
        Ok(())
    }

    /// Sets the protocol wallet, whose owner is the administrator, and the starting fee.
    pub fn initialize(&mut self, e: &mut Invocation, protocol_wallet: Address) -> (r: Result<
        (),
        RegistryError,
    >)
        ensures
            settles(
                old(self)@.initialize_refusal(),
                r,
                (old(self)@, old(e)@),
                (final(self)@, final(e)@),
                (),
                (old(self)@.initialize_effect(protocol_wallet), old(e)@),
            ),
    {
        if self.protocol_wallet.is_some() {
            return Err(RegistryError::AlreadyInitialized);
        }
        self.protocol_wallet = Some(protocol_wallet);
        self.protocol_fee_bps = Some(PROTOCOL_FEE_BPS);
        self.next_talos_id = Some(1);
        Ok(())
    }

    /// The protocol wallet.
    pub fn protocol_wallet(&self) -> (r: Option<Address>)
        ensures
            r == self@.protocol_wallet,
    {
        self.protocol_wallet
    }

    /// The configured protocol fee, in basis points.
    pub fn protocol_fee_bps(&self) -> (r: Option<u32>)
        ensures
            r == self@.protocol_fee_bps,
    {
        self.protocol_fee_bps
    }

    /// The protocol fee in force, in basis points.
    fn fee_bps_in_force(&self) -> (r: u32)
        ensures
            r == self@.fee_bps(),
    {
        match self.protocol_fee_bps {
            Some(bps) => bps,
            None => PROTOCOL_FEE_BPS,
        }
    }

    /// Sets the fee on behalf of a direct call or of an executed proposal.
    fn set_protocol_fee_internal(&mut self, e: &mut Invocation, fee_bps: u32) -> (r: Result<
        (),
        RegistryError,
    >)
        ensures
            settles(
                old(self)@.action_refusal(AdminAction::SetProtocolFee(fee_bps)),
                r,
                (old(self)@, old(e)@),
                (final(self)@, final(e)@),
                (),
                (
                    old(self)@.action_effect(AdminAction::SetProtocolFee(fee_bps)),
                    old(e)@.emit(old(self)@.action_event(AdminAction::SetProtocolFee(fee_bps))),
                ),
            ),
    {
        if fee_bps > MAX_PROTOCOL_FEE_BPS {
            return Err(RegistryError::FeeTooHigh);
        }
        let old_bps: u32 = self.fee_bps_in_force();
        self.protocol_fee_bps = Some(fee_bps);
        e.publish(Event::ProtocolFeeChanged { old_bps, new_bps: fee_bps });
        Ok(())
    }

    /// Nominates `new_admin` on behalf of a direct call or of an executed proposal.
    fn propose_admin_internal(&mut self, e: &mut Invocation, current: Address, new_admin: Address)
        ensures
            final(self)@ == old(self)@.propose_admin_effect(new_admin),
            final(e)@ == old(e)@.emit(Event::AdminProposed { current, proposed: new_admin }),
    {
        self.pending_admin = Some(new_admin);
        e.publish(Event::AdminProposed { current, proposed: new_admin });
    }

    /// The administrator, if the call has the administrator's authorization and the
    /// timelock leaves room for direct calls.
    fn require_direct(&self, e: &Invocation) -> (r: Result<Address, RegistryError>)
        ensures
            match self@.direct_refusal(e@) {
                Some(error) => r == Err::<Address, RegistryError>(error),
                None => self@.protocol_wallet is Some && r == Ok::<Address, RegistryError>(
                    self@.protocol_wallet->0,
                ),
            },
    {
        match self.require_admin(e) {
            Err(error) => Err(error),
            Ok(admin) => if self.get_timelock_config().min_delay > 0 {
                Err(RegistryError::TimelockEnabled)
            } else {
                Ok(admin)
            },
        }
    }

    /// Sets the protocol fee, in basis points. Only the administrator may, and only
    /// while no delay is configured.
    pub fn set_protocol_fee(&mut self, e: &mut Invocation, fee_bps: u32) -> (r: Result<
        (),
        RegistryError,
    >)
        ensures
            settles(
                old(self)@.set_protocol_fee_refusal(old(e)@, fee_bps),
                r,
                (old(self)@, old(e)@),
                (final(self)@, final(e)@),
                (),
                (
                    old(self)@.set_protocol_fee_effect(fee_bps),
                    old(e)@.emit(
                        Event::ProtocolFeeChanged {
                            old_bps: old(self)@.fee_bps(),
                            new_bps: fee_bps,
                        },
                    ),
                ),
            ),
    {
        if fee_bps > MAX_PROTOCOL_FEE_BPS {
            return Err(RegistryError::FeeTooHigh);
        }
        match self.require_direct(e) {
            Ok(_) => {},
            Err(error) => return Err(error),
        }
        self.set_protocol_fee_internal(e, fee_bps)
    }

    /// Nominates `new_admin` as the next administrator.
    ///
    /// The nominee has to call `accept_admin`; until then the administrator keeps all
    /// rights. A nomination replaces the one before it.
    pub fn propose_admin(&mut self, e: &mut Invocation, new_admin: Address) -> (r: Result<
        (),
        RegistryError,
    >)
        ensures
            settles(
                old(self)@.direct_refusal(old(e)@),
                r,
                (old(self)@, old(e)@),
                (final(self)@, final(e)@),
                (),
                (
                    old(self)@.propose_admin_effect(new_admin),
                    old(e)@.emit(
                        Event::AdminProposed {
                            current: old(self)@.protocol_wallet->0,
                            proposed: new_admin,
                        },
                    ),
                ),
            ),
    {
        let current = match self.require_direct(e) {
            Ok(admin) => admin,
            Err(error) => return Err(error),
        };
        self.propose_admin_internal(e, current, new_admin);
        Ok(())
    }

    /// Configures the timelock. Only the administrator may.
    pub fn set_timelock_config(
        &mut self,
        e: &mut Invocation,
        min_delay: u64,
        grace_period: u64,
    ) -> (r: Result<(), RegistryError>)
        ensures
            settles(
                old(self)@.set_timelock_config_refusal(old(e)@, min_delay, grace_period),
                r,
                (old(self)@, old(e)@),
                (final(self)@, final(e)@),
                (),
                (
                    old(self)@.set_timelock_config_effect(
                        TimelockConfig { min_delay, grace_period },
                    ),
                    old(e)@.emit(
                        Event::TimelockConfigChanged {
                            old_min_delay: old(self)@.timelock().min_delay,
                            new_min_delay: min_delay,
                            grace_period,
                        },
                    ),
                ),
            ),
    {
        match self.require_admin(e) {
            Ok(_) => {},
            Err(error) => return Err(error),
        }
        if grace_period == 0 {
            return Err(RegistryError::GracePeriodZero);
        }
        if min_delay > MAX_MIN_DELAY {
            return Err(RegistryError::MinDelayTooLong);
        }
        let old_min_delay: u64 = self.get_timelock_config().min_delay;
        self.timelock_config = Some(TimelockConfig { min_delay, grace_period });
        e.publish(
            Event::TimelockConfigChanged { old_min_delay, new_min_delay: min_delay, grace_period },
        );
        Ok(())
    }

    /// The timelock configuration in force.
    pub fn get_timelock_config(&self) -> (r: TimelockConfig)
        ensures
            r == self@.timelock(),
    {
        match self.timelock_config {
            Some(config) => config,
            None => TimelockConfig { min_delay: 0, grace_period: DEFAULT_GRACE_PERIOD },
        }
    }

    /// Schedules `action` for execution after `delay` seconds, and returns the id of the
    /// proposal. Only the administrator may.
    pub fn schedule_action(&mut self, e: &mut Invocation, action: AdminAction, delay: u64) -> (r:
        Result<u64, RegistryError>)
        ensures
            settles(
                old(self)@.schedule_action_refusal(old(e)@, delay),
                r,
                (old(self)@, old(e)@),
                (final(self)@, final(e)@),
                old(self)@.next_proposal_id(),
                (
                    old(self)@.schedule_action_effect(
                        old(self)@.scheduled(old(e)@, action, delay),
                    ),
                    old(e)@.emit(
                        Event::TimelockScheduled {
                            proposal_id: old(self)@.next_proposal_id(),
                            action,
                            eta: old(self)@.scheduled(old(e)@, action, delay).eta,
                            proposer: old(self)@.protocol_wallet->0,
                        },
                    ),
                ),
            ),
    {
        let admin = match self.require_admin(e) {
            Ok(admin) => admin,
            Err(error) => return Err(error),
        };
        if delay < self.get_timelock_config().min_delay {
            return Err(RegistryError::DelayTooShort);
        }
        let id: u64 = match self.next_timelock_id {
            Some(id) => id,
            None => 1,
        };
        if id == u64::MAX {
            return Err(RegistryError::Overflow);
        }
        let now: u64 = e.timestamp;
        let eta: u64 = now.saturating_add(delay);
        let proposal = TimelockProposal {
            id,
            action,
            eta,
            status: ProposalStatus::Scheduled,
            scheduled_at: now,
            scheduled_by: admin,
        };
        self.proposals.insert(id, proposal);
        self.next_timelock_id = Some(id + 1);
        e.publish(Event::TimelockScheduled { proposal_id: id, action, eta, proposer: admin });
        Ok(id)
    }

    /// Executes a scheduled action, once its time has come and before it has run out.
    pub fn execute_action(&mut self, e: &mut Invocation, proposal_id: u64) -> (r: Result<
        (),
        RegistryError,
    >)
        ensures
            settles(
                old(self)@.execute_action_refusal(old(e)@, proposal_id),
                r,
                (old(self)@, old(e)@),
                (final(self)@, final(e)@),
                (),
                (
                    old(self)@.execute_action_effect(proposal_id),
                    old(e)@.emit(
                        old(self)@.action_event(old(self)@.proposals[proposal_id].action),
                    ).emit(
                        Event::TimelockExecuted {
                            proposal_id,
                            action: old(self)@.proposals[proposal_id].action,
                            executor: old(self)@.proposals[proposal_id].scheduled_by,
                        },
                    ),
                ),
            ),
    {
        let mut proposal: TimelockProposal = match self.proposals.get(&proposal_id) {
            Some(proposal) => *proposal,
            None => return Err(RegistryError::ProposalNotFound),
        };
        if proposal.status != ProposalStatus::Scheduled {
            return Err(RegistryError::ProposalNotActive);
        }
        let now: u64 = e.timestamp;
        if now < proposal.eta {
            return Err(RegistryError::DelayNotMet);
        }
        if now > proposal.eta.saturating_add(self.get_timelock_config().grace_period) {
            return Err(RegistryError::ProposalExpired);
        }
        match proposal.action {
            AdminAction::SetProtocolFee(fee_bps) => {
                match self.set_protocol_fee_internal(e, fee_bps) {
                    Ok(()) => {},
                    Err(error) => return Err(error),
                }
            },
            AdminAction::ProposeAdmin(new_admin) => {
                let current = match self.protocol_wallet {
                    Some(admin) => admin,
                    None => return Err(RegistryError::NotInitialized),
                };
                self.propose_admin_internal(e, current, new_admin);
            },
        }
        proposal.status = ProposalStatus::Executed;
        self.proposals.insert(proposal_id, proposal);
        e.publish(
            Event::TimelockExecuted {
                proposal_id,
                action: proposal.action,
                executor: proposal.scheduled_by,
            },
        );
        Ok(())
    }

    /// Cancels a scheduled action. Only the administrator may.
    pub fn cancel_action(&mut self, e: &mut Invocation, proposal_id: u64) -> (r: Result<
        (),
        RegistryError,
    >)
        ensures
            settles(
                old(self)@.cancel_action_refusal(old(e)@, proposal_id),
                r,
                (old(self)@, old(e)@),
                (final(self)@, final(e)@),
                (),
                (
                    old(self)@.cancel_action_effect(proposal_id),
                    old(e)@.emit(
                        Event::TimelockCancelled {
                            proposal_id,
                            action: old(self)@.proposals[proposal_id].action,
                            canceller: old(self)@.protocol_wallet->0,
                        },
                    ),
                ),
            ),
    {
        let admin = match self.require_admin(e) {
            Ok(admin) => admin,
            Err(error) => return Err(error),
        };
        let mut proposal: TimelockProposal = match self.proposals.get(&proposal_id) {
            Some(proposal) => *proposal,
            None => return Err(RegistryError::ProposalNotFound),
        };
        if proposal.status != ProposalStatus::Scheduled {
            return Err(RegistryError::ProposalNotActive);
        }
        proposal.status = ProposalStatus::Cancelled;
        self.proposals.insert(proposal_id, proposal);
        e.publish(
            Event::TimelockCancelled { proposal_id, action: proposal.action, canceller: admin },
        );
        Ok(())
    }

    /// The proposal `proposal_id`.
    pub fn get_timelock_proposal(&self, proposal_id: u64) -> (r: Option<TimelockProposal>)
        ensures
            r == (if self@.proposals.contains_key(proposal_id) {
                Some(self@.proposals[proposal_id])
            } else {
                None
            }),
    {
        match self.proposals.get(&proposal_id) {
            Some(proposal) => Some(*proposal),
            None => None,
        }
    }

    /// Completes the transfer of administration: the nominee, who must authorize the
    /// call, becomes the administrator.
    pub fn accept_admin(&mut self, e: &mut Invocation) -> (r: Result<(), RegistryError>)
        ensures
            settles(
                old(self)@.accept_admin_refusal(old(e)@),
                r,
                (old(self)@, old(e)@),
                (final(self)@, final(e)@),
                (),
                (
                    old(self)@.accept_admin_effect(),
                    old(e)@.emit(
                        Event::AdminAccepted { new_admin: old(self)@.pending_admin->0 },
                    ),
                ),
            ),
    {
        let pending = match self.pending_admin {
            Some(pending) => pending,
            None => return Err(RegistryError::NoPendingAdmin),
        };
        if !e.is_authorized_by(pending) {
            return Err(RegistryError::Unauthorized(pending));
        }
        self.protocol_wallet = Some(pending);
        self.pending_admin = None;
        e.publish(Event::AdminAccepted { new_admin: pending });
        Ok(())
    }

    /// Revokes the nomination. Only the administrator may, who stays in office.
    pub fn cancel_admin_transfer(&mut self, e: &mut Invocation) -> (r: Result<(), RegistryError>)
        ensures
            settles(
                old(self)@.cancel_admin_transfer_refusal(old(e)@),
                r,
                (old(self)@, old(e)@),
                (final(self)@, final(e)@),
                (),
                (
                    old(self)@.cancel_admin_transfer_effect(),
                    old(e)@.emit(
                        Event::AdminCancelled { cancelled: old(self)@.pending_admin->0 },
                    ),
                ),
            ),
    {
        match self.require_admin(e) {
            Ok(_) => {},
            Err(error) => return Err(error),
        }
        let pending = match self.pending_admin {
            Some(pending) => pending,
            None => return Err(RegistryError::NoPendingAdmin),
        };
        self.pending_admin = None;
        e.publish(Event::AdminCancelled { cancelled: pending });
        Ok(())
    }

    /// The nominee, if any.
    pub fn pending_admin(&self) -> (r: Option<Address>)
        ensures
            r == self@.pending_admin,
    {
        self.pending_admin
    }

    /// Pauses one write path, and leaves all reads and the other paths alone.
    ///
    /// `caller`, who must authorize the call, is the administrator or a guardian. The
    /// administrator pauses for at most [`MAX_ADMIN_PAUSE_SECS`], or for ever with a
    /// `duration` of `0`. A guardian pauses for at least a second and at most
    /// [`MAX_GUARDIAN_PAUSE_SECS`].
    ///
    /// A pause replaces the record of the one before it, except that a guardian never
    /// replaces one that an administrator has set, be it the one in office or one before,
    /// nor one that the administrator in office has set before coming into it. That holds
    /// of a record whose pause has run out, too: it keeps guardians from pausing the domain
    /// until the administrator pauses it anew and lifts that pause while it is in force.
    pub fn pause(
        &mut self,
        e: &mut Invocation,
        caller: Address,
        domain: PauseDomain,
        duration: u64,
    ) -> (r: Result<(), RegistryError>)
        ensures
            settles(
                old(self)@.pause_refusal(old(e)@, caller, domain, duration),
                r,
                (old(self)@, old(e)@),
                (final(self)@, final(e)@),
                (),
                (
                    old(self)@.pause_effect(
                        domain,
                        old(self)@.pause_record(old(e)@, caller, duration),
                    ),
                    old(e)@.emit(
                        Event::PauseSet {
                            domain,
                            actor: caller,
                            expires_at: old(self)@.pause_record(
                                old(e)@,
                                caller,
                                duration,
                            ).expires_at,
                        },
                    ),
                ),
            ),
    {
        if !e.is_authorized_by(caller) {
            return Err(RegistryError::Unauthorized(caller));
        }
        let admin = match self.protocol_wallet {
            Some(admin) => admin,
            None => return Err(RegistryError::NotInitialized),
        };
        let is_admin_caller = caller == admin;
        if !is_admin_caller && !self.guardians.contains(caller) {
            return Err(RegistryError::NotAdminOrGuardian);
        }
        if !is_admin_caller {
            match self.pauses.get(domain) {
                Some(existing) => if self.set_by_admin.contains(domain) || existing.paused_by
                    == admin {
                    return Err(RegistryError::LockedByAdmin);
                },
                None => {},
            }
        }
        let now: u64 = e.timestamp;
        let expires_at: u64 = if is_admin_caller {
            if duration == 0 {
                0
            } else {
                if duration > MAX_ADMIN_PAUSE_SECS {
                    return Err(RegistryError::AdminPauseTooLong);
                }
                now.saturating_add(duration)
            }
        } else {
            if duration == 0 || duration > MAX_GUARDIAN_PAUSE_SECS {
                return Err(RegistryError::GuardianPauseOutOfBounds);
            }
            now.saturating_add(duration)
        };
        self.pauses.set(
            domain,
            Some(PauseState { paused_by: caller, paused_at: now, expires_at }),
        );
        self.set_by_admin.set(domain, is_admin_caller);
        e.publish(Event::PauseSet { domain, actor: caller, expires_at });
        Ok(())
    }

    /// Lifts the pause of `domain`. Only the administrator may, whoever set it.
    ///
    /// Where no pause is in force (none was set, it has been lifted, or it has run
    /// out), nothing happens: the call can be repeated. So the record of a pause that has
    /// run out stays, and if an administrator set it, guardians stay locked out of the
    /// domain.
    pub fn unpause(&mut self, e: &mut Invocation, domain: PauseDomain) -> (r: Result<
        (),
        RegistryError,
    >)
        ensures
            settles(
                old(self)@.admin_refusal(old(e)@),
                r,
                (old(self)@, old(e)@),
                (final(self)@, final(e)@),
                (),
                (
                    old(self)@.unpause_effect(old(e)@, domain),
                    if old(self)@.paused(domain, old(e)@.timestamp) {
                        old(e)@.emit(
                            Event::PauseCleared { domain, actor: old(self)@.protocol_wallet->0 },
                        )
                    } else {
                        old(e)@
                    },
                ),
            ),
    {
        let admin = match self.require_admin(e) {
            Ok(admin) => admin,
            Err(error) => return Err(error),
        };
        if !self.is_domain_paused(e.timestamp, domain) {
            return Ok(());
        }
        self.pauses.set(domain, None);
        self.set_by_admin.set(domain, false);
        e.publish(Event::PauseCleared { domain, actor: admin });
        Ok(())
    }

    /// Whether `domain` is paused. Anyone may ask.
    pub fn is_paused(&self, e: &Invocation, domain: PauseDomain) -> (r: bool)
        ensures
            r == self@.paused(domain, e@.timestamp),
    {
        self.is_domain_paused(e.timestamp, domain)
    }

    /// Who paused `domain` and when, and when the pause ends.
    pub fn pause_info(&self, e: &Invocation, domain: PauseDomain) -> (r: PauseInfo)
        ensures
            r == self@.pause_info(domain, e@.timestamp),
    {
        match self.pauses.get(domain) {
            None => PauseInfo { active: false, paused_by: None, paused_at: None, expires_at: None },
            Some(state) => {
                let active = state.is_in_force(e.timestamp);
                PauseInfo {
                    active,
                    paused_by: Some(state.paused_by),
                    paused_at: Some(state.paused_at),
                    expires_at: if active && state.expires_at != 0 {
                        Some(state.expires_at)
                    } else {
                        None
                    },
                }
            },
        }
    }

    /// Makes `guardian` a guardian; nothing happens where it is one. Only the
    /// administrator may, and there are at most [`MAX_GUARDIANS`].
    pub fn add_guardian(&mut self, e: &mut Invocation, guardian: Address) -> (r: Result<
        (),
        RegistryError,
    >)
        ensures
            settles(
                old(self)@.add_guardian_refusal(old(e)@, guardian),
                r,
                (old(self)@, old(e)@),
                (final(self)@, final(e)@),
                (),
                (
                    old(self)@.add_guardian_effect(guardian),
                    if old(self)@.guardians.contains(guardian) {
                        old(e)@
                    } else {
                        old(e)@.emit(Event::GuardianAdded { guardian })
                    },
                ),
            ),
    {
        match self.require_admin(e) {
            Ok(_) => {},
            Err(error) => return Err(error),
        }
        if self.guardians.contains(guardian) {
            return Ok(());
        }
        if self.guardians.len() >= MAX_GUARDIANS {
            return Err(RegistryError::GuardianLimitReached);
        }
        self.guardians.push(guardian);
        e.publish(Event::GuardianAdded { guardian });
        Ok(())
    }

    /// Takes `guardian` off the roster; nothing happens where it is not on it. Only the
    /// administrator may. A pause that the guardian has set stays in force.
    pub fn remove_guardian(&mut self, e: &mut Invocation, guardian: Address) -> (r: Result<
        (),
        RegistryError,
    >)
        ensures
            settles(
                old(self)@.admin_refusal(old(e)@),
                r,
                (old(self)@, old(e)@),
                (final(self)@, final(e)@),
                (),
                (
                    old(self)@.remove_guardian_effect(guardian),
                    if old(self)@.guardians.contains(guardian) {
                        old(e)@.emit(Event::GuardianRemoved { guardian })
                    } else {
                        old(e)@
                    },
                ),
            ),
    {
        match self.require_admin(e) {
            Ok(_) => {},
            Err(error) => return Err(error),
        }
        proof {
            lemma_without(self@.guardians, guardian);
        }
        if !self.guardians.contains(guardian) {
            return Ok(());
        }
        self.guardians = self.guardians.without(guardian);
        e.publish(Event::GuardianRemoved { guardian });
        Ok(())
    }

    /// Whether `addr` is a guardian.
    pub fn is_guardian(&self, addr: Address) -> (r: bool)
        ensures
            r == self@.guardians.contains(addr),
    {
        self.guardians.contains(addr)
    }

    /// All guardians, in the order in which they were added.
    pub fn list_guardians(&self) -> (r: Vec<Address>)
        ensures
            r@ == self@.guardians,
    {
        self.guardians.to_vec()
    }

    /// Version of the interface: a constant that no call can alter.
    pub fn version() -> (r: (u32, u32, u32))
        ensures
            r == CONTRACT_VERSION,
            r == (1u32, 2u32, 0u32),
    {
        CONTRACT_VERSION
    }

    /// The protocol fee on `amount`, rounded down.
    pub fn calculate_protocol_fee(&self, amount: i128) -> (r: Result<i128, RegistryError>)
        ensures
            match self@.protocol_fee_refusal(amount) {
                Some(error) => r == Err::<i128, RegistryError>(error),
                None => r is Ok && r->Ok_0 == self@.protocol_fee(amount),
            },
    {
        if amount < 0 {
            return Err(RegistryError::NegativeAmount);
        }
        let fee_bps: u32 = self.fee_bps_in_force();
        match amount.checked_mul(fee_bps as i128) {
            Some(product) => Ok(product / MAX_PROTOCOL_FEE_BPS as i128),
            None => Err(RegistryError::Overflow),
        }
    }

    /// Admits `asset` for the payment of fees. Only the administrator may.
    pub fn allow_asset(&mut self, e: &mut Invocation, asset: Address) -> (r: Result<
        (),
        RegistryError,
    >)
        ensures
            settles(
                old(self)@.admin_refusal(old(e)@),
                r,
                (old(self)@, old(e)@),
                (final(self)@, final(e)@),
                (),
                (old(self)@.allow_asset_effect(asset), old(e)@),
            ),
    {
        match self.require_admin(e) {
            Ok(_) => {},
            Err(error) => return Err(error),
        }
        self.assets.insert(asset);
        Ok(())
    }

    /// No longer admits `asset`. Only the administrator may.
    pub fn disallow_asset(&mut self, e: &mut Invocation, asset: Address) -> (r: Result<
        (),
        RegistryError,
    >)
        ensures
            settles(
                old(self)@.admin_refusal(old(e)@),
                r,
                (old(self)@, old(e)@),
                (final(self)@, final(e)@),
                (),
                (old(self)@.disallow_asset_effect(asset), old(e)@),
            ),
    {
        match self.require_admin(e) {
            Ok(_) => {},
            Err(error) => return Err(error),
        }
        self.assets.remove(asset);
        Ok(())
    }

    /// Whether fees may be paid in `asset`.
    pub fn is_asset_allowed(&self, asset: Address) -> (r: bool)
        ensures
            r == self@.assets.contains(asset),
    {
        self.assets.contains(asset)
    }
}

} // verus!
