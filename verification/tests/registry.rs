//! The registry, as its callers see it.

use soroban_sdk::{Env, String};
use talos_contracts::address::Address;
use talos_contracts::event::Event;
use talos_contracts::invocation::Invocation;
use talos_contracts::pause::PauseDomain;
use talos_contracts::registry::error::RegistryError;
use talos_contracts::registry::{
    TalosRegistry, CONTRACT_VERSION, MAX_ADMIN_PAUSE_SECS, MAX_GUARDIANS, MAX_GUARDIAN_PAUSE_SECS,
};
use talos_contracts::talos::{Kernel, Patron, Pulse};
use talos_contracts::timelock::{AdminAction, ProposalStatus};

/// A registry on a ledger: the time, and all that has been published so far.
struct Ledger {
    env: Env,
    registry: TalosRegistry,
    now: u64,
    events: Vec<Event>,
    addresses: u128,
}

impl Ledger {
    fn new() -> Self {
        let env = Env::default();
        let registry = TalosRegistry::new(&env);
        Ledger { env, registry, now: 0, events: vec![], addresses: 0 }
    }

    /// An address that nobody has yet.
    fn address(&mut self) -> Address {
        self.addresses += 1;
        Address { contract: false, hi: self.addresses, lo: 7 }
    }

    /// A call that `signers` have authorized.
    fn call<T>(
        &mut self,
        signers: &[Address],
        entry: impl FnOnce(&mut TalosRegistry, &mut Invocation) -> Result<T, RegistryError>,
    ) -> Result<T, RegistryError> {
        let mut e = Invocation::new(self.now, signers.to_vec());
        let result = entry(&mut self.registry, &mut e);
        self.events.extend(e.events);
        result
    }

    fn initialize(&mut self, wallet: Address) {
        assert_eq!(self.call(&[], |r, e| r.initialize(e, wallet)), Ok(()));
    }

    fn s(&self, value: &str) -> String {
        String::from_str(&self.env, value)
    }

    fn patron(&mut self, creator: Address) -> Patron {
        Patron {
            creator_share: 60,
            investor_share: 25,
            treasury_share: 15,
            creator_addr: creator,
            investor_addr: self.address(),
            treasury_addr: self.address(),
        }
    }

    fn pulse(&self) -> Pulse {
        Pulse { total_supply: 1_000_000, price_usd_cents: 100, token_symbol: self.s("TLOS") }
    }

    fn create_talos(&mut self, creator: Address, protocol_wallet: Address) -> u32 {
        let (name, category) = (self.s("Genesis"), self.s("Marketing"));
        let description = self.s("Autonomous marketing agent");
        let (patron, pulse) = (self.patron(creator), self.pulse());
        self.call(&[creator], |r, e| {
            r.create_talos(
                e, name, category, description, patron, kernel(), pulse, protocol_wallet,
            )
        })
        .unwrap()
    }

    fn propose(&mut self, admin: Address, new_admin: Address) {
        assert_eq!(self.call(&[admin], |r, e| r.propose_admin(e, new_admin)), Ok(()));
    }

    fn accept(&mut self, pending: Address) {
        assert_eq!(self.call(&[pending], |r, e| r.accept_admin(e)), Ok(()));
    }

    fn cancel(&mut self, admin: Address) {
        assert_eq!(self.call(&[admin], |r, e| r.cancel_admin_transfer(e)), Ok(()));
    }

    fn set_timelock_config(&mut self, admin: Address, min_delay: u64, grace_period: u64) {
        assert_eq!(
            self.call(&[admin], |r, e| r.set_timelock_config(e, min_delay, grace_period)),
            Ok(())
        );
    }

    fn try_pause(&mut self, caller: Address, domain: PauseDomain, duration: u64) -> bool {
        self.call(&[caller], |r, e| r.pause(e, caller, domain, duration)).is_ok()
    }

    fn pause(&mut self, caller: Address, domain: PauseDomain, duration: u64) {
        assert!(self.try_pause(caller, domain, duration));
    }

    fn unpause(&mut self, admin: Address, domain: PauseDomain) {
        assert_eq!(self.call(&[admin], |r, e| r.unpause(e, domain)), Ok(()));
    }

    fn add_guardian(&mut self, admin: Address, guardian: Address) {
        assert_eq!(self.call(&[admin], |r, e| r.add_guardian(e, guardian)), Ok(()));
    }

    fn is_paused(&self, domain: PauseDomain) -> bool {
        self.registry.is_paused(&Invocation::new(self.now, vec![]), domain)
    }

    fn pause_info(&self, domain: PauseDomain) -> talos_contracts::pause::PauseInfo {
        self.registry.pause_info(&Invocation::new(self.now, vec![]), domain)
    }
}

fn kernel() -> Kernel {
    Kernel { approval_threshold: 10, gtm_budget: 1_000, min_patron_pulse: 100 }
}

// ── Version ──────────────────────────────────────────────────────────

#[test]
fn version_returns_compile_time_constant() {
    assert_eq!(TalosRegistry::version(), (1u32, 2u32, 0u32));
}

#[test]
fn version_is_idempotent() {
    assert_eq!(TalosRegistry::version(), TalosRegistry::version());
}

#[test]
fn version_is_unaffected_by_state_changes() {
    let mut l = Ledger::new();
    let protocol_wallet = l.address();

    let before = TalosRegistry::version();

    l.initialize(protocol_wallet);
    assert_eq!(l.call(&[protocol_wallet], |r, e| r.set_protocol_fee(e, 500)), Ok(()));

    let after = TalosRegistry::version();
    assert_eq!(before, after);
}

#[test]
fn version_matches_contract_version_constant() {
    let (maj, min, patch) = TalosRegistry::version();
    assert_eq!((maj, min, patch), CONTRACT_VERSION);
}

// ── Taloses ──────────────────────────────────────────────────────────

#[test]
fn create_talos_happy_path() {
    let mut l = Ledger::new();
    let creator = l.address();
    let protocol_wallet = l.address();

    let id = l.create_talos(creator, protocol_wallet);

    assert_eq!(id, 1);
    assert_eq!(l.registry.next_talos_id(), 2);
    assert_eq!(l.registry.creator_of(id), Some(creator));
    assert!(l.registry.is_active(id));

    let talos = l.registry.get_talos(id).expect("talos should be stored");
    assert_eq!(talos.id, id);
    assert_eq!(talos.name, l.s("Genesis"));
    assert_eq!(talos.category, l.s("Marketing"));
    assert_eq!(talos.creator, creator);
    assert!(talos.active);
}

#[test]
fn initialize_guard_rejects_reinitialization() {
    let mut l = Ledger::new();
    let (first, second) = (l.address(), l.address());

    l.initialize(first);

    assert!(l.call(&[], |r, e| r.initialize(e, second)).is_err());
}

#[test]
fn update_patron_requires_creator_auth() {
    let mut l = Ledger::new();
    let creator = l.address();
    let protocol_wallet = l.address();
    let id = l.create_talos(creator, protocol_wallet);

    let new_patron = Patron {
        creator_share: 50,
        investor_share: 30,
        treasury_share: 20,
        creator_addr: creator,
        investor_addr: l.address(),
        treasury_addr: l.address(),
    };

    assert!(l.call(&[], |r, e| r.update_patron(e, id, new_patron)).is_err());
}

#[test]
fn set_protocol_fee_requires_admin_auth() {
    let mut l = Ledger::new();
    let protocol_wallet = l.address();

    l.initialize(protocol_wallet);

    assert!(l.call(&[], |r, e| r.set_protocol_fee(e, 500)).is_err());
}

#[test]
fn protocol_fee_calculation_uses_configured_basis_points() {
    let mut l = Ledger::new();
    let protocol_wallet = l.address();

    l.initialize(protocol_wallet);
    assert_eq!(l.registry.protocol_fee_bps(), Some(300));
    assert_eq!(l.registry.calculate_protocol_fee(10_000), Ok(300));

    assert_eq!(l.call(&[protocol_wallet], |r, e| r.set_protocol_fee(e, 250)), Ok(()));

    assert_eq!(l.registry.protocol_fee_bps(), Some(250));
    assert_eq!(l.registry.calculate_protocol_fee(40_000), Ok(1_000));
}

#[test]
fn create_talos_emits_tls_crt_event() {
    let mut l = Ledger::new();
    let creator = l.address();
    let protocol_wallet = l.address();

    let id = l.create_talos(creator, protocol_wallet);

    assert_eq!(l.events.len(), 1);
    let event = &l.events[0];
    assert_eq!(event.topic_count(), 2);
    assert_eq!(event.symbol(), "tls_crt");
    assert_eq!(
        *event,
        Event::TalosCreated {
            creator,
            talos_id: id,
            name: l.s("Genesis"),
            category: l.s("Marketing"),
        }
    );
}

#[test]
fn update_patron_emits_pat_upd_event() {
    let mut l = Ledger::new();
    let creator = l.address();
    let protocol_wallet = l.address();
    let id = l.create_talos(creator, protocol_wallet);

    let new_patron = Patron {
        creator_share: 50,
        investor_share: 30,
        treasury_share: 20,
        creator_addr: creator,
        investor_addr: l.address(),
        treasury_addr: l.address(),
    };

    assert_eq!(l.call(&[creator], |r, e| r.update_patron(e, id, new_patron)), Ok(()));

    // tls_crt from create_talos, pat_upd from update_patron
    assert_eq!(l.events.len(), 2);
    let event = &l.events[1];
    assert_eq!(event.topic_count(), 2);
    assert_eq!(event.symbol(), "pat_upd");
    assert_eq!(
        *event,
        Event::PatronUpdated { talos_id: id, creator, creator_share: 50, investor_share: 30 }
    );
}

#[test]
fn set_protocol_fee_emits_fee_chg_event() {
    let mut l = Ledger::new();
    let protocol_wallet = l.address();

    l.initialize(protocol_wallet);
    assert_eq!(l.call(&[protocol_wallet], |r, e| r.set_protocol_fee(e, 500)), Ok(()));

    assert_eq!(l.events.len(), 1);
    let event = &l.events[0];
    assert_eq!(event.topic_count(), 1);
    assert_eq!(event.symbol(), "fee_chg");
    assert_eq!(*event, Event::ProtocolFeeChanged { old_bps: 300, new_bps: 500 });
}

#[test]
fn get_talos_returns_none_for_missing_id() {
    let l = Ledger::new();

    // ids start at 1, 0 does not exist
    assert!(l.registry.get_talos(0).is_none());
}

#[test]
fn update_kernel_requires_creator_auth() {
    let mut l = Ledger::new();
    let creator = l.address();
    let protocol_wallet = l.address();
    let id = l.create_talos(creator, protocol_wallet);

    let new_kernel = Kernel { approval_threshold: 20, gtm_budget: 5_000, min_patron_pulse: 500 };

    assert!(l.call(&[], |r, e| r.update_kernel(e, id, new_kernel)).is_err());
    let imposter = l.address();
    assert!(l.call(&[imposter], |r, e| r.update_kernel(e, id, new_kernel)).is_err());
}

#[test]
fn update_kernel_persists_changes() {
    let mut l = Ledger::new();
    let creator = l.address();
    let protocol_wallet = l.address();
    let id = l.create_talos(creator, protocol_wallet);

    let new_kernel = Kernel { approval_threshold: 20, gtm_budget: 5_000, min_patron_pulse: 500 };

    assert_eq!(l.call(&[creator], |r, e| r.update_kernel(e, id, new_kernel)), Ok(()));

    let updated = l.registry.get_talos(id).expect("talos should exist");
    assert_eq!(updated.kernel.approval_threshold, 20);
    assert_eq!(updated.kernel.gtm_budget, 5_000);
    assert_eq!(updated.kernel.min_patron_pulse, 500);
}

#[test]
fn deactivate_talos_requires_creator_auth_and_sets_inactive() {
    let mut l = Ledger::new();
    let creator = l.address();
    let protocol_wallet = l.address();
    let id = l.create_talos(creator, protocol_wallet);

    assert!(l.registry.is_active(id));

    assert!(l.call(&[], |r, e| r.deactivate_talos(e, id)).is_err());
    let imposter = l.address();
    assert!(l.call(&[imposter], |r, e| r.deactivate_talos(e, id)).is_err());

    assert_eq!(l.call(&[creator], |r, e| r.deactivate_talos(e, id)), Ok(()));

    assert!(!l.registry.is_active(id));
}

#[test]
fn create_talos_rejects_shares_not_summing_to_100() {
    let mut l = Ledger::new();
    let creator = l.address();
    let protocol_wallet = l.address();

    let bad_patron = Patron {
        creator_share: 60,
        investor_share: 25,
        treasury_share: 10, // sums to 95
        creator_addr: creator,
        investor_addr: l.address(),
        treasury_addr: l.address(),
    };

    let (name, category, description) = (l.s("Bad"), l.s("Marketing"), l.s("desc"));
    let pulse = l.pulse();
    let result = l.call(&[creator], |r, e| {
        r.create_talos(
            e, name, category, description, bad_patron, kernel(), pulse, protocol_wallet,
        )
    });

    assert!(result.is_err());
}

#[test]
fn update_patron_rejects_shares_not_summing_to_100() {
    let mut l = Ledger::new();
    let creator = l.address();
    let protocol_wallet = l.address();
    let id = l.create_talos(creator, protocol_wallet);

    let bad_patron = Patron {
        creator_share: 50,
        investor_share: 30,
        treasury_share: 30, // sums to 110
        creator_addr: creator,
        investor_addr: l.address(),
        treasury_addr: l.address(),
    };

    let result = l.call(&[creator], |r, e| r.update_patron(e, id, bad_patron));

    assert!(result.is_err());
}

// ── Two-step admin transfer ──────────────────────────────────────────

#[test]
fn propose_then_accept_transfers_admin() {
    let mut l = Ledger::new();
    let admin = l.address();
    let new_admin = l.address();

    l.initialize(admin);
    assert_eq!(l.registry.protocol_wallet(), Some(admin));
    assert_eq!(l.registry.pending_admin(), None);

    l.propose(admin, new_admin);
    assert_eq!(l.registry.pending_admin(), Some(new_admin));

    l.accept(new_admin);

    assert_eq!(l.registry.protocol_wallet(), Some(new_admin));
    assert_eq!(l.registry.pending_admin(), None);
}

#[test]
fn new_admin_can_set_protocol_fee_after_transfer() {
    let mut l = Ledger::new();
    let admin = l.address();
    let new_admin = l.address();

    l.initialize(admin);
    l.propose(admin, new_admin);
    l.accept(new_admin);

    assert_eq!(l.call(&[new_admin], |r, e| r.set_protocol_fee(e, 400)), Ok(()));

    assert_eq!(l.registry.protocol_fee_bps(), Some(400));
    // The former administrator no longer can.
    assert!(l.call(&[admin], |r, e| r.set_protocol_fee(e, 500)).is_err());
}

#[test]
fn propose_admin_requires_current_admin_auth() {
    let mut l = Ledger::new();
    let admin = l.address();
    let impostor = l.address();
    let new_admin = l.address();

    l.initialize(admin);

    assert!(l.call(&[], |r, e| r.propose_admin(e, new_admin)).is_err());
    assert!(l.call(&[impostor], |r, e| r.propose_admin(e, new_admin)).is_err());
}

#[test]
fn accept_admin_requires_pending_admin_auth() {
    let mut l = Ledger::new();
    let admin = l.address();
    let new_admin = l.address();
    let impostor = l.address();

    l.initialize(admin);
    l.propose(admin, new_admin);

    assert!(l.call(&[impostor], |r, e| r.accept_admin(e)).is_err());
    // The current administrator cannot accept either.
    assert!(l.call(&[admin], |r, e| r.accept_admin(e)).is_err());
}

#[test]
fn accept_admin_without_pending_panics() {
    let mut l = Ledger::new();
    let admin = l.address();

    l.initialize(admin);

    assert!(l.call(&[], |r, e| r.accept_admin(e)).is_err());
}

#[test]
fn cancel_admin_transfer_clears_pending() {
    let mut l = Ledger::new();
    let admin = l.address();
    let new_admin = l.address();

    l.initialize(admin);
    l.propose(admin, new_admin);
    assert_eq!(l.registry.pending_admin(), Some(new_admin));

    l.cancel(admin);

    assert_eq!(l.registry.pending_admin(), None);
    assert_eq!(l.registry.protocol_wallet(), Some(admin));
}

#[test]
fn cancelled_pending_cannot_accept() {
    let mut l = Ledger::new();
    let admin = l.address();
    let new_admin = l.address();

    l.initialize(admin);
    l.propose(admin, new_admin);
    l.cancel(admin);

    assert!(l.call(&[new_admin], |r, e| r.accept_admin(e)).is_err());
}

#[test]
fn cancel_without_pending_panics() {
    let mut l = Ledger::new();
    let admin = l.address();

    l.initialize(admin);

    assert!(l.call(&[], |r, e| r.cancel_admin_transfer(e)).is_err());
    assert_eq!(
        l.call(&[admin], |r, e| r.cancel_admin_transfer(e)),
        Err(RegistryError::NoPendingAdmin)
    );
}

#[test]
fn cancel_admin_transfer_requires_admin_auth() {
    let mut l = Ledger::new();
    let admin = l.address();
    let new_admin = l.address();
    let impostor = l.address();

    l.initialize(admin);
    l.propose(admin, new_admin);

    assert!(l.call(&[impostor], |r, e| r.cancel_admin_transfer(e)).is_err());
}

#[test]
fn propose_admin_replaces_existing_pending() {
    let mut l = Ledger::new();
    let admin = l.address();
    let first = l.address();
    let second = l.address();

    l.initialize(admin);
    l.propose(admin, first);
    assert_eq!(l.registry.pending_admin(), Some(first));

    l.propose(admin, second);
    assert_eq!(l.registry.pending_admin(), Some(second));

    assert!(l.call(&[first], |r, e| r.accept_admin(e)).is_err());
}

#[test]
fn propose_admin_emits_adm_prp_event() {
    let mut l = Ledger::new();
    let admin = l.address();
    let new_admin = l.address();

    l.initialize(admin);
    l.propose(admin, new_admin);

    assert_eq!(l.events.len(), 1);
    let event = &l.events[0];
    assert_eq!(event.topic_count(), 1);
    assert_eq!(event.symbol(), "adm_prp");
    assert_eq!(*event, Event::AdminProposed { current: admin, proposed: new_admin });
}

#[test]
fn accept_admin_emits_adm_acc_event() {
    let mut l = Ledger::new();
    let admin = l.address();
    let new_admin = l.address();

    l.initialize(admin);
    l.propose(admin, new_admin);
    l.accept(new_admin);

    let accepted: Vec<&Event> = l.events.iter().filter(|v| v.symbol() == "adm_acc").collect();
    assert_eq!(accepted.len(), 1);
    assert_eq!(*accepted[0], Event::AdminAccepted { new_admin });
}

#[test]
fn cancel_admin_transfer_emits_adm_cnl_event() {
    let mut l = Ledger::new();
    let admin = l.address();
    let new_admin = l.address();

    l.initialize(admin);
    l.propose(admin, new_admin);
    l.cancel(admin);

    let cancelled: Vec<&Event> = l.events.iter().filter(|v| v.symbol() == "adm_cnl").collect();
    assert_eq!(cancelled.len(), 1);
    assert_eq!(*cancelled[0], Event::AdminCancelled { cancelled: new_admin });
}

// ── Timelock ─────────────────────────────────────────────────────────

#[test]
fn timelock_config_defaults_and_updates() {
    let mut l = Ledger::new();
    let admin = l.address();
    l.initialize(admin);

    let default_cfg = l.registry.get_timelock_config();
    assert_eq!(default_cfg.min_delay, 0);
    assert_eq!(default_cfg.grace_period, 604_800);

    let impostor = l.address();
    assert!(l.call(&[impostor], |r, e| r.set_timelock_config(e, 3600, 86400)).is_err());

    l.set_timelock_config(admin, 3600, 86400);

    let updated = l.registry.get_timelock_config();
    assert_eq!(updated.min_delay, 3600);
    assert_eq!(updated.grace_period, 86400);
}

#[test]
fn timelock_schedule_execute_happy_path() {
    let mut l = Ledger::new();
    let admin = l.address();
    l.initialize(admin);
    l.set_timelock_config(admin, 3600, 86400);

    let action = AdminAction::SetProtocolFee(500);
    let proposal_id = l.call(&[admin], |r, e| r.schedule_action(e, action, 3600)).unwrap();
    assert_eq!(proposal_id, 1);

    let prop = l.registry.get_timelock_proposal(proposal_id).unwrap();
    assert_eq!(prop.status, ProposalStatus::Scheduled);
    assert_eq!(prop.eta, l.now + 3600);

    l.now += 3600;

    assert_eq!(l.call(&[], |r, e| r.execute_action(e, proposal_id)), Ok(()));

    let executed_prop = l.registry.get_timelock_proposal(proposal_id).unwrap();
    assert_eq!(executed_prop.status, ProposalStatus::Executed);
    assert_eq!(l.registry.protocol_fee_bps(), Some(500));
}

#[test]
fn timelock_schedule_propose_admin_happy_path() {
    let mut l = Ledger::new();
    let admin = l.address();
    let new_admin = l.address();
    l.initialize(admin);

    let action = AdminAction::ProposeAdmin(new_admin);
    let proposal_id = l.call(&[admin], |r, e| r.schedule_action(e, action, 0)).unwrap();

    assert_eq!(l.call(&[], |r, e| r.execute_action(e, proposal_id)), Ok(()));
    assert_eq!(l.registry.pending_admin(), Some(new_admin));

    l.accept(new_admin);
    assert_eq!(l.registry.protocol_wallet(), Some(new_admin));
}

#[test]
fn timelock_early_execution_fails() {
    let mut l = Ledger::new();
    let admin = l.address();
    l.initialize(admin);
    l.set_timelock_config(admin, 3600, 86400);

    let action = AdminAction::SetProtocolFee(400);
    let proposal_id = l.call(&[admin], |r, e| r.schedule_action(e, action, 3600)).unwrap();

    assert!(l.call(&[], |r, e| r.execute_action(e, proposal_id)).is_err());
}

#[test]
fn timelock_expired_execution_fails() {
    let mut l = Ledger::new();
    let admin = l.address();
    l.initialize(admin);
    l.set_timelock_config(admin, 100, 500);

    let action = AdminAction::SetProtocolFee(400);
    let proposal_id = l.call(&[admin], |r, e| r.schedule_action(e, action, 100)).unwrap();

    // one second beyond eta + grace_period
    l.now += 601;

    assert!(l.call(&[], |r, e| r.execute_action(e, proposal_id)).is_err());
}

#[test]
fn timelock_cancellation_clears_proposal() {
    let mut l = Ledger::new();
    let admin = l.address();
    l.initialize(admin);

    let action = AdminAction::SetProtocolFee(400);
    let proposal_id = l.call(&[admin], |r, e| r.schedule_action(e, action, 0)).unwrap();

    assert_eq!(l.call(&[admin], |r, e| r.cancel_action(e, proposal_id)), Ok(()));

    let cancelled = l.registry.get_timelock_proposal(proposal_id).unwrap();
    assert_eq!(cancelled.status, ProposalStatus::Cancelled);

    assert!(l.call(&[], |r, e| r.execute_action(e, proposal_id)).is_err());
}

#[test]
fn timelock_direct_admin_calls_rejected_when_min_delay_active() {
    let mut l = Ledger::new();
    let admin = l.address();
    l.initialize(admin);
    l.set_timelock_config(admin, 3600, 86400);

    assert!(l.call(&[admin], |r, e| r.set_protocol_fee(e, 500)).is_err());

    let new_admin = l.address();
    assert!(l.call(&[admin], |r, e| r.propose_admin(e, new_admin)).is_err());
}

// ── Pausing ──────────────────────────────────────────────────────────

#[test]
fn pause_blocks_only_the_targeted_domain() {
    let mut l = Ledger::new();
    let admin = l.address();
    let creator = l.address();
    l.initialize(admin);

    let id = l.create_talos(creator, admin);

    l.pause(admin, PauseDomain::TalosCreation, 0);

    // To pause again is allowed.
    assert!(l.try_pause(admin, PauseDomain::TalosCreation, 0));
    assert!(l.is_paused(PauseDomain::TalosCreation));
    let (name, category, description) = (l.s("Second"), l.s("Marketing"), l.s("desc"));
    let (patron, pulse) = (l.patron(creator), l.pulse());
    assert!(l
        .call(&[creator], |r, e| {
            r.create_talos(e, name, category, description, patron, kernel(), pulse, admin)
        })
        .is_err());

    // Every other write path and all reads still work.
    assert!(!l.is_paused(PauseDomain::PatronUpdates));
    let updated_patron = Patron {
        creator_share: 50,
        investor_share: 30,
        treasury_share: 20,
        creator_addr: creator,
        investor_addr: l.address(),
        treasury_addr: l.address(),
    };
    assert_eq!(l.call(&[creator], |r, e| r.update_patron(e, id, updated_patron)), Ok(()));

    assert!(l.registry.get_talos(id).is_some());
    assert!(l.registry.is_active(id));
}

#[test]
fn reads_are_never_gated_by_pause() {
    let mut l = Ledger::new();
    let admin = l.address();
    let creator = l.address();
    l.initialize(admin);
    let id = l.create_talos(creator, admin);

    for domain in [
        PauseDomain::TalosCreation,
        PauseDomain::PatronUpdates,
        PauseDomain::KernelUpdates,
        PauseDomain::PulseUpdates,
        PauseDomain::Deactivation,
    ] {
        l.pause(admin, domain, 0);
    }

    assert!(l.registry.get_talos(id).is_some());
    assert!(l.registry.is_active(id));
    assert_eq!(l.registry.creator_of(id), Some(creator));
    assert_eq!(l.registry.next_talos_id(), 2);
}

#[test]
fn admin_can_pause_indefinitely_with_zero_duration() {
    let mut l = Ledger::new();
    let admin = l.address();
    l.initialize(admin);

    l.pause(admin, PauseDomain::TalosCreation, 0);

    let info = l.pause_info(PauseDomain::TalosCreation);
    assert!(info.active);
    assert_eq!(info.expires_at, None);
    assert_eq!(info.paused_by, Some(admin));
}

#[test]
fn admin_pause_duration_exceeding_max_is_rejected() {
    let mut l = Ledger::new();
    let admin = l.address();
    l.initialize(admin);

    assert!(!l.try_pause(admin, PauseDomain::TalosCreation, MAX_ADMIN_PAUSE_SECS + 1));
}

#[test]
fn guardian_can_pause_within_bounded_duration() {
    let mut l = Ledger::new();
    let admin = l.address();
    let guardian = l.address();
    l.initialize(admin);
    l.add_guardian(admin, guardian);

    l.pause(guardian, PauseDomain::TalosCreation, 3600);

    let info = l.pause_info(PauseDomain::TalosCreation);
    assert!(info.active);
    assert_eq!(info.paused_by, Some(guardian));
    assert!(info.expires_at.is_some());
}

#[test]
fn guardian_pause_with_zero_duration_is_rejected() {
    let mut l = Ledger::new();
    let admin = l.address();
    let guardian = l.address();
    l.initialize(admin);
    l.add_guardian(admin, guardian);

    assert!(!l.try_pause(guardian, PauseDomain::TalosCreation, 0));
}

#[test]
fn guardian_pause_exceeding_max_duration_is_rejected() {
    let mut l = Ledger::new();
    let admin = l.address();
    let guardian = l.address();
    l.initialize(admin);
    l.add_guardian(admin, guardian);

    assert!(!l.try_pause(guardian, PauseDomain::TalosCreation, MAX_GUARDIAN_PAUSE_SECS + 1));
}

#[test]
fn non_admin_non_guardian_cannot_pause() {
    let mut l = Ledger::new();
    let admin = l.address();
    let stranger = l.address();
    l.initialize(admin);

    assert!(!l.try_pause(stranger, PauseDomain::TalosCreation, 3600));
}

#[test]
fn pause_requires_caller_auth() {
    let mut l = Ledger::new();
    let admin = l.address();
    l.initialize(admin);

    assert!(l.call(&[], |r, e| r.pause(e, admin, PauseDomain::TalosCreation, 0)).is_err());
}

#[test]
fn guardian_cannot_override_admin_established_pause() {
    let mut l = Ledger::new();
    let admin = l.address();
    let guardian = l.address();
    l.initialize(admin);
    l.add_guardian(admin, guardian);

    l.pause(admin, PauseDomain::TalosCreation, 0);

    assert!(!l.try_pause(guardian, PauseDomain::TalosCreation, 3600));

    let info = l.pause_info(PauseDomain::TalosCreation);
    assert_eq!(info.paused_by, Some(admin));
    assert_eq!(info.expires_at, None);
}

#[test]
fn admin_can_override_guardian_pause() {
    let mut l = Ledger::new();
    let admin = l.address();
    let guardian = l.address();
    l.initialize(admin);
    l.add_guardian(admin, guardian);

    l.pause(guardian, PauseDomain::TalosCreation, 3600);
    l.pause(admin, PauseDomain::TalosCreation, 0);

    let info = l.pause_info(PauseDomain::TalosCreation);
    assert_eq!(info.paused_by, Some(admin));
    assert_eq!(info.expires_at, None);
}

#[test]
fn only_admin_can_unpause_a_guardian_set_pause() {
    let mut l = Ledger::new();
    let admin = l.address();
    let guardian = l.address();
    l.initialize(admin);
    l.add_guardian(admin, guardian);

    l.pause(guardian, PauseDomain::TalosCreation, 3600);

    assert!(l.call(&[guardian], |r, e| r.unpause(e, PauseDomain::TalosCreation)).is_err());

    l.unpause(admin, PauseDomain::TalosCreation);
    assert!(!l.is_paused(PauseDomain::TalosCreation));
}

#[test]
fn guardian_pause_auto_expires() {
    let mut l = Ledger::new();
    let admin = l.address();
    let guardian = l.address();
    let creator = l.address();
    l.initialize(admin);
    l.add_guardian(admin, guardian);

    l.pause(guardian, PauseDomain::TalosCreation, 3600);
    assert!(l.is_paused(PauseDomain::TalosCreation));

    l.now += 3601;

    assert!(!l.is_paused(PauseDomain::TalosCreation));

    // No call of unpause is needed.
    l.create_talos(creator, admin);
}

#[test]
fn unpause_on_a_domain_with_no_active_pause_is_a_deterministic_noop() {
    let mut l = Ledger::new();
    let admin = l.address();
    l.initialize(admin);

    // Never paused.
    l.unpause(admin, PauseDomain::TalosCreation);

    // Paused, lifted, and lifted once more.
    l.pause(admin, PauseDomain::TalosCreation, 0);
    l.unpause(admin, PauseDomain::TalosCreation);
    l.unpause(admin, PauseDomain::TalosCreation);

    assert!(!l.is_paused(PauseDomain::TalosCreation));
}

#[test]
fn add_guardian_is_idempotent_and_admin_only() {
    let mut l = Ledger::new();
    let admin = l.address();
    let guardian = l.address();
    let stranger = l.address();
    l.initialize(admin);

    assert!(l.call(&[stranger], |r, e| r.add_guardian(e, guardian)).is_err());

    l.add_guardian(admin, guardian);
    assert!(l.registry.is_guardian(guardian));
    assert_eq!(l.registry.list_guardians().len(), 1);

    l.add_guardian(admin, guardian);
    assert_eq!(l.registry.list_guardians().len(), 1);
}

#[test]
fn remove_guardian_is_idempotent_and_admin_only() {
    let mut l = Ledger::new();
    let admin = l.address();
    let guardian = l.address();
    l.initialize(admin);
    l.add_guardian(admin, guardian);

    assert!(l.call(&[guardian], |r, e| r.remove_guardian(e, guardian)).is_err());

    assert_eq!(l.call(&[admin], |r, e| r.remove_guardian(e, guardian)), Ok(()));
    assert!(!l.registry.is_guardian(guardian));

    assert_eq!(l.call(&[admin], |r, e| r.remove_guardian(e, guardian)), Ok(()));
}

#[test]
fn guardian_roster_is_bounded() {
    let mut l = Ledger::new();
    let admin = l.address();
    l.initialize(admin);

    for _ in 0..MAX_GUARDIANS {
        let g = l.address();
        l.add_guardian(admin, g);
    }

    let one_too_many = l.address();
    assert!(l.call(&[admin], |r, e| r.add_guardian(e, one_too_many)).is_err());
    assert_eq!(l.registry.list_guardians().len() as u32, MAX_GUARDIANS);
}

#[test]
fn pause_and_unpause_emit_events() {
    let mut l = Ledger::new();
    let admin = l.address();
    l.initialize(admin);
    let domain = PauseDomain::TalosCreation;

    l.pause(admin, domain, 0);
    let event = l.events.last().unwrap();
    assert_eq!(event.symbol(), "pause_on");
    assert_eq!(*event, Event::PauseSet { domain, actor: admin, expires_at: 0 });

    l.unpause(admin, domain);
    let event = l.events.last().unwrap();
    assert_eq!(event.symbol(), "pause_off");
    assert_eq!(*event, Event::PauseCleared { domain, actor: admin });
}

#[test]
fn guardian_management_emits_events() {
    let mut l = Ledger::new();
    let admin = l.address();
    let guardian = l.address();
    l.initialize(admin);

    l.add_guardian(admin, guardian);
    let event = l.events.last().unwrap();
    assert_eq!(event.symbol(), "guard_add");
    assert_eq!(*event, Event::GuardianAdded { guardian });

    assert_eq!(l.call(&[admin], |r, e| r.remove_guardian(e, guardian)), Ok(()));
    let event = l.events.last().unwrap();
    assert_eq!(event.symbol(), "guard_rem");
    assert_eq!(*event, Event::GuardianRemoved { guardian });
}
