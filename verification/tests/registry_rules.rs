//! The registry at its edges: every refusal, and what holds across calls.

use soroban_sdk::{Env, String};
use talos_contracts::address::Address;
use talos_contracts::event::Event;
use talos_contracts::invocation::Invocation;
use talos_contracts::pause::{DomainSet, PauseDomain, PauseInfo, PauseState, PauseTable};
use talos_contracts::registry::error::RegistryError;
use talos_contracts::registry::{
    validate_patron_shares, TalosRegistry, MAX_ADMIN_PAUSE_SECS, MAX_GUARDIANS,
    MAX_GUARDIAN_PAUSE_SECS, MAX_MIN_DELAY,
};
use talos_contracts::roster::Roster;
use talos_contracts::talos::{Kernel, Patron, Pulse};
use talos_contracts::timelock::{AdminAction, ProposalStatus, TimelockConfig, TimelockProposal};

const DOMAINS: [PauseDomain; 5] = [
    PauseDomain::TalosCreation,
    PauseDomain::PatronUpdates,
    PauseDomain::KernelUpdates,
    PauseDomain::PulseUpdates,
    PauseDomain::Deactivation,
];

fn address(lo: u128) -> Address {
    Address { contract: false, hi: 3, lo }
}

fn patron(creator: Address) -> Patron {
    Patron {
        creator_share: 60,
        investor_share: 25,
        treasury_share: 15,
        creator_addr: creator,
        investor_addr: address(101),
        treasury_addr: address(102),
    }
}

fn kernel() -> Kernel {
    Kernel { approval_threshold: 10, gtm_budget: 1_000, min_patron_pulse: 100 }
}

fn pulse(env: &Env) -> Pulse {
    Pulse {
        total_supply: 1_000_000,
        price_usd_cents: 100,
        token_symbol: String::from_str(env, "TLOS"),
    }
}

/// A call at ledger time `now`, authorized by `signer`.
fn at(now: u64, signer: Address) -> Invocation {
    Invocation::new(now, vec![signer])
}

fn create(
    r: &mut TalosRegistry,
    env: &Env,
    e: &mut Invocation,
    patron: Patron,
    wallet: Address,
) -> Result<u32, RegistryError> {
    let text = String::from_str(env, "text");
    r.create_talos(e, text.clone(), text.clone(), text, patron, kernel(), pulse(env), wallet)
}

/// A registry whose administrator is `admin`.
fn initialized(env: &Env, admin: Address) -> TalosRegistry {
    let mut r = TalosRegistry::new(env);
    assert_eq!(r.initialize(&mut Invocation::new(0, vec![]), admin), Ok(()));
    r
}

// ── Taloses ──────────────────────────────────────────────────────────

#[test]
fn a_new_registry_is_empty() {
    let env = Env::default();
    let r = TalosRegistry::new(&env);
    assert_eq!(r.next_talos_id(), 1);
    assert_eq!(r.creator_of(1), None);
    assert!(!r.is_active(1));
    assert_eq!(r.protocol_wallet(), None);
    assert_eq!(r.protocol_fee_bps(), None);
    assert_eq!(r.pending_admin(), None);
    assert_eq!(r.get_timelock_proposal(1), None);
    assert_eq!(r.list_guardians(), vec![]);
    assert!(!r.is_asset_allowed(address(1)));
    // The default fee applies.
    assert_eq!(r.calculate_protocol_fee(10_000), Ok(300));
}

#[test]
fn a_talos_holds_what_it_was_made_of() {
    let env = Env::default();
    let creator = address(1);
    let mut r = initialized(&env, address(9));
    let mut e = at(42, creator);
    let (name, category) = (String::from_str(&env, "n"), String::from_str(&env, "c"));
    let description = String::from_str(&env, "d");
    let id = r
        .create_talos(
            &mut e,
            name.clone(),
            category.clone(),
            description.clone(),
            patron(creator),
            kernel(),
            pulse(&env),
            address(9),
        )
        .unwrap();
    let talos = r.get_talos(id).unwrap();
    assert_eq!((talos.id, talos.created_at, talos.active), (1, 42, true));
    assert_eq!((&talos.name, &talos.category), (&name, &category));
    assert_eq!(talos.description, description);
    assert_eq!((talos.creator, talos.patron), (creator, patron(creator)));
    assert_eq!((talos.kernel, talos.pulse.clone()), (kernel(), pulse(&env)));
    assert_eq!(
        e.events,
        vec![Event::TalosCreated { creator, talos_id: 1, name, category }]
    );
}

#[test]
fn creation_is_refused_for_each_reason_in_turn() {
    let env = Env::default();
    let (admin, creator) = (address(9), address(1));
    let mut r = initialized(&env, admin);
    let mut bad = patron(creator);
    bad.treasury_share = 10;

    assert_eq!(r.pause(&mut at(0, admin), admin, PauseDomain::TalosCreation, 5), Ok(()));
    let mut nobody = Invocation::new(0, vec![]);
    assert_eq!(create(&mut r, &env, &mut nobody, bad, creator), Err(RegistryError::Paused));

    let mut nobody = Invocation::new(5, vec![]);
    assert_eq!(
        create(&mut r, &env, &mut nobody, bad, creator),
        Err(RegistryError::Unauthorized(creator))
    );
    let mut e = at(5, creator);
    assert_eq!(
        create(&mut r, &env, &mut e, bad, creator),
        Err(RegistryError::SharesNotHundred)
    );
    assert_eq!(
        create(&mut r, &env, &mut e, patron(creator), creator),
        Err(RegistryError::WalletMismatch)
    );
    assert_eq!(r.next_talos_id(), 1);
    assert!(e.events.is_empty());
    assert_eq!(create(&mut r, &env, &mut e, patron(creator), admin), Ok(1));
    assert_eq!(create(&mut r, &env, &mut e, patron(creator), admin), Ok(2));

    r.next_talos_id = Some(u32::MAX);
    assert_eq!(
        create(&mut r, &env, &mut e, patron(creator), admin),
        Err(RegistryError::Overflow)
    );
    assert!(r.get_talos(u32::MAX).is_none());
}

#[test]
fn shares_are_summed_with_care() {
    let mut p = patron(address(1));
    assert_eq!(validate_patron_shares(&p), Ok(()));
    p.creator_share = 100;
    p.investor_share = 0;
    p.treasury_share = 0;
    assert_eq!(validate_patron_shares(&p), Ok(()));
    p.treasury_share = 1;
    assert_eq!(validate_patron_shares(&p), Err(RegistryError::SharesNotHundred));
    // A sum that would be 100 if it wrapped around.
    p.treasury_share = u32::MAX;
    p.creator_share = 101;
    assert_eq!(validate_patron_shares(&p), Err(RegistryError::Overflow));
    p.investor_share = u32::MAX;
    assert_eq!(validate_patron_shares(&p), Err(RegistryError::Overflow));
}

#[test]
fn updates_change_one_part_and_leave_the_rest() {
    let env = Env::default();
    let (creator, other) = (address(1), address(2));
    let mut r = TalosRegistry::new(&env);
    let mut e = at(7, creator);
    let id = create(&mut r, &env, &mut e, patron(creator), other).unwrap();
    let before = r.get_talos(id).unwrap().clone();

    let mut shifted = patron(other);
    shifted.creator_share = 61;
    shifted.investor_share = 24;
    assert_eq!(r.update_patron(&mut e, id, shifted), Ok(()));
    assert_eq!(r.get_talos(id).unwrap().patron, shifted);
    // Whoever is the patron now, the creator stays.
    assert_eq!(r.get_talos(id).unwrap().creator, creator);
    assert_eq!(r.creator_of(id), Some(creator));
    assert_eq!(
        r.update_kernel(&mut at(8, other), id, kernel()),
        Err(RegistryError::Unauthorized(creator))
    );

    let mut token = pulse(&env);
    token.total_supply = 5;
    assert_eq!(r.update_pulse(&mut e, id, token.clone()), Ok(()));
    assert_eq!(r.get_talos(id).unwrap().pulse, token);

    assert_eq!(r.deactivate_talos(&mut e, id), Ok(()));
    assert_eq!(r.deactivate_talos(&mut e, id), Ok(()));
    assert!(!r.is_active(id));
    // An update does not bring it back.
    assert_eq!(r.update_patron(&mut e, id, before.patron), Ok(()));
    assert_eq!(r.update_pulse(&mut e, id, before.pulse.clone()), Ok(()));
    assert!(!r.is_active(id));
    let mut after = r.get_talos(id).unwrap().clone();
    after.active = true;
    assert_eq!(after, before);
}

#[test]
fn a_talos_that_is_not_there_cannot_be_changed() {
    let env = Env::default();
    let mut r = TalosRegistry::new(&env);
    let mut e = at(0, address(1));
    let missing = Err(RegistryError::TalosNotFound);
    assert_eq!(r.update_patron(&mut e, 1, patron(address(1))), missing);
    assert_eq!(r.update_kernel(&mut e, 1, kernel()), missing);
    assert_eq!(r.update_pulse(&mut e, 1, pulse(&env)), missing);
    assert_eq!(r.deactivate_talos(&mut e, 1), missing);
}

#[test]
fn each_domain_gates_its_own_path() {
    let env = Env::default();
    let (admin, creator) = (address(9), address(1));
    for paused in DOMAINS {
        let mut r = initialized(&env, admin);
        let mut e = Invocation::new(0, vec![admin, creator]);
        let id = create(&mut r, &env, &mut e, patron(creator), admin).unwrap();
        assert_eq!(r.pause(&mut e, admin, paused, 0), Ok(()));
        let refused = [
            create(&mut r, &env, &mut e, patron(creator), admin).is_err(),
            r.update_patron(&mut e, id, patron(creator)).is_err(),
            r.update_kernel(&mut e, id, kernel()).is_err(),
            r.update_pulse(&mut e, id, pulse(&env)).is_err(),
            r.deactivate_talos(&mut e, id).is_err(),
        ];
        for (i, domain) in DOMAINS.iter().enumerate() {
            assert_eq!(refused[i], *domain == paused);
            assert_eq!(r.is_paused(&e, *domain), *domain == paused);
        }
    }
}

// ── Fees ─────────────────────────────────────────────────────────────

#[test]
fn fees_are_rounded_down() {
    let env = Env::default();
    let admin = address(9);
    let mut r = initialized(&env, admin);
    assert_eq!(r.calculate_protocol_fee(0), Ok(0));
    assert_eq!(r.calculate_protocol_fee(33), Ok(0));
    assert_eq!(r.calculate_protocol_fee(34), Ok(1));
    assert_eq!(r.calculate_protocol_fee(12_345), Ok(370));
    assert_eq!(r.calculate_protocol_fee(-1), Err(RegistryError::NegativeAmount));
    assert_eq!(r.calculate_protocol_fee(i128::MAX), Err(RegistryError::Overflow));
    assert_eq!(r.calculate_protocol_fee(i128::MAX / 300), Ok(i128::MAX / 300 * 300 / 10_000));
    assert_eq!(r.calculate_protocol_fee(i128::MAX / 300 + 1), Err(RegistryError::Overflow));

    let mut e = at(0, admin);
    assert_eq!(r.set_protocol_fee(&mut e, 0), Ok(()));
    assert_eq!(r.calculate_protocol_fee(i128::MAX), Ok(0));
    assert_eq!(r.set_protocol_fee(&mut e, 10_000), Ok(()));
    assert_eq!(r.calculate_protocol_fee(777), Ok(777));
    assert_eq!(r.set_protocol_fee(&mut e, 10_001), Err(RegistryError::FeeTooHigh));
    assert_eq!(r.protocol_fee_bps(), Some(10_000));
    assert_eq!(
        e.events,
        vec![
            Event::ProtocolFeeChanged { old_bps: 300, new_bps: 0 },
            Event::ProtocolFeeChanged { old_bps: 0, new_bps: 10_000 },
        ]
    );
}

// ── Administrator ────────────────────────────────────────────────────

#[test]
fn nothing_administrative_before_initialization() {
    let env = Env::default();
    let mut r = TalosRegistry::new(&env);
    let me = address(1);
    let mut e = at(0, me);
    let not = Err(RegistryError::NotInitialized);
    assert_eq!(r.set_protocol_fee(&mut e, 1), not);
    // How high a fee may be is looked at before anything else.
    assert_eq!(r.set_protocol_fee(&mut e, 10_001), Err(RegistryError::FeeTooHigh));
    assert_eq!(r.propose_admin(&mut e, me), not);
    assert_eq!(r.set_timelock_config(&mut e, 0, 0), not);
    assert_eq!(
        r.schedule_action(&mut e, AdminAction::SetProtocolFee(1), 0),
        Err(RegistryError::NotInitialized)
    );
    assert_eq!(r.cancel_action(&mut e, 1), not);
    assert_eq!(r.accept_admin(&mut e), Err(RegistryError::NoPendingAdmin));
    assert_eq!(r.cancel_admin_transfer(&mut e), not);
    assert_eq!(
        r.pause(&mut e, address(2), PauseDomain::Deactivation, 1),
        Err(RegistryError::Unauthorized(address(2)))
    );
    assert_eq!(r.pause(&mut e, me, PauseDomain::Deactivation, 1), not);
    assert_eq!(r.unpause(&mut e, PauseDomain::Deactivation), not);
    assert_eq!(r.add_guardian(&mut e, me), not);
    assert_eq!(r.remove_guardian(&mut e, me), not);
    assert_eq!(r.allow_asset(&mut e, me), not);
    assert_eq!(r.disallow_asset(&mut e, me), not);
    assert!(e.events.is_empty());
}

#[test]
fn administrative_calls_need_the_administrator() {
    let env = Env::default();
    let (admin, me) = (address(9), address(1));
    let mut r = initialized(&env, admin);
    let mut e = at(0, me);
    let not = Err(RegistryError::Unauthorized(admin));
    assert_eq!(r.set_protocol_fee(&mut e, 1), not);
    assert_eq!(r.propose_admin(&mut e, me), not);
    assert_eq!(r.set_timelock_config(&mut e, 0, 1), not);
    assert_eq!(
        r.schedule_action(&mut e, AdminAction::SetProtocolFee(1), 0),
        Err(RegistryError::Unauthorized(admin))
    );
    assert_eq!(r.cancel_action(&mut e, 1), not);
    assert_eq!(r.cancel_admin_transfer(&mut e), not);
    assert_eq!(r.unpause(&mut e, PauseDomain::Deactivation), not);
    assert_eq!(r.add_guardian(&mut e, me), not);
    assert_eq!(r.remove_guardian(&mut e, me), not);
    assert_eq!(r.allow_asset(&mut e, me), not);
    assert_eq!(r.disallow_asset(&mut e, me), not);
    assert_eq!(r.initialize(&mut e, me), Err(RegistryError::AlreadyInitialized));
    assert_eq!(r.protocol_wallet(), Some(admin));
    assert!(e.events.is_empty());
}

#[test]
fn a_transfer_takes_both_sides() {
    let env = Env::default();
    let (admin, heir) = (address(9), address(1));
    let mut r = initialized(&env, admin);
    assert_eq!(r.propose_admin(&mut at(0, admin), heir), Ok(()));
    // Until the nominee accepts, the administrator stays in office.
    assert_eq!(r.set_protocol_fee(&mut at(0, admin), 5), Ok(()));
    assert_eq!(r.accept_admin(&mut at(0, admin)), Err(RegistryError::Unauthorized(heir)));
    assert_eq!(r.accept_admin(&mut at(0, heir)), Ok(()));
    assert_eq!(r.accept_admin(&mut at(0, heir)), Err(RegistryError::NoPendingAdmin));
    assert_eq!(
        r.set_protocol_fee(&mut at(0, admin), 6),
        Err(RegistryError::Unauthorized(heir))
    );
    assert_eq!(r.set_protocol_fee(&mut at(0, heir), 6), Ok(()));
}

#[test]
fn a_cancelled_nominee_cannot_accept_however_nominated() {
    let env = Env::default();
    let (admin, heir) = (address(9), address(1));
    let mut r = initialized(&env, admin);
    assert_eq!(r.propose_admin(&mut at(0, admin), address(5)), Ok(()));
    let action = AdminAction::ProposeAdmin(heir);
    assert_eq!(r.schedule_action(&mut at(0, admin), action, 0), Ok(1));
    assert_eq!(r.execute_action(&mut at(0, heir), 1), Ok(()));
    assert_eq!(r.pending_admin(), Some(heir));
    assert_eq!(r.cancel_admin_transfer(&mut at(0, admin)), Ok(()));
    assert_eq!(r.accept_admin(&mut at(0, heir)), Err(RegistryError::NoPendingAdmin));
    // A call that nominates nobody changes nothing about that.
    assert_eq!(r.set_protocol_fee(&mut at(0, admin), 1), Ok(()));
    assert_eq!(r.accept_admin(&mut at(0, heir)), Err(RegistryError::NoPendingAdmin));
    assert_eq!(r.protocol_wallet(), Some(admin));
}

// ── Timelock ─────────────────────────────────────────────────────────

#[test]
fn timelock_settings_are_bounded() {
    let env = Env::default();
    let admin = address(9);
    let mut r = initialized(&env, admin);
    let mut e = at(0, admin);
    assert_eq!(
        r.set_timelock_config(&mut e, MAX_MIN_DELAY + 1, 0),
        Err(RegistryError::GracePeriodZero)
    );
    assert_eq!(
        r.set_timelock_config(&mut e, MAX_MIN_DELAY + 1, 1),
        Err(RegistryError::MinDelayTooLong)
    );
    assert_eq!(r.set_timelock_config(&mut e, MAX_MIN_DELAY, 1), Ok(()));
    assert_eq!(
        r.get_timelock_config(),
        TimelockConfig { min_delay: MAX_MIN_DELAY, grace_period: 1 }
    );
    assert_eq!(
        e.events,
        vec![Event::TimelockConfigChanged {
            old_min_delay: 0,
            new_min_delay: MAX_MIN_DELAY,
            grace_period: 1,
        }]
    );
}

#[test]
fn a_scheduled_action_has_a_window() {
    let env = Env::default();
    let admin = address(9);
    let mut r = initialized(&env, admin);
    assert_eq!(r.set_timelock_config(&mut at(0, admin), 100, 50), Ok(()));
    let action = AdminAction::SetProtocolFee(7);
    let mut e = at(1_000, admin);
    assert_eq!(r.schedule_action(&mut e, action, 99), Err(RegistryError::DelayTooShort));
    assert_eq!(r.schedule_action(&mut e, action, 100), Ok(1));
    assert_eq!(r.schedule_action(&mut e, action, 200), Ok(2));
    assert_eq!(
        r.get_timelock_proposal(1),
        Some(TimelockProposal {
            id: 1,
            action,
            eta: 1_100,
            status: ProposalStatus::Scheduled,
            scheduled_at: 1_000,
            scheduled_by: admin,
        })
    );
    assert_eq!(
        e.events[0],
        Event::TimelockScheduled { proposal_id: 1, action, eta: 1_100, proposer: admin }
    );

    let late = |now: u64| Invocation::new(now, vec![]);
    assert_eq!(r.execute_action(&mut late(1_099), 1), Err(RegistryError::DelayNotMet));
    assert_eq!(r.execute_action(&mut late(1_151), 1), Err(RegistryError::ProposalExpired));
    let mut e = late(1_150);
    assert_eq!(r.execute_action(&mut e, 1), Ok(()));
    assert_eq!(
        e.events,
        vec![
            Event::ProtocolFeeChanged { old_bps: 300, new_bps: 7 },
            Event::TimelockExecuted { proposal_id: 1, action, executor: admin },
        ]
    );
    // Settled once and for all.
    assert_eq!(r.execute_action(&mut late(1_150), 1), Err(RegistryError::ProposalNotActive));
    assert_eq!(r.cancel_action(&mut at(0, admin), 1), Err(RegistryError::ProposalNotActive));

    let mut e = at(1_150, admin);
    assert_eq!(r.cancel_action(&mut e, 2), Ok(()));
    assert_eq!(
        e.events,
        vec![Event::TimelockCancelled { proposal_id: 2, action, canceller: admin }]
    );
    assert_eq!(r.execute_action(&mut late(1_200), 2), Err(RegistryError::ProposalNotActive));
    assert_eq!(r.execute_action(&mut late(1_200), 3), Err(RegistryError::ProposalNotFound));
    assert_eq!(r.cancel_action(&mut at(0, admin), 3), Err(RegistryError::ProposalNotFound));
}

#[test]
fn a_scheduled_action_is_checked_when_executed() {
    let env = Env::default();
    let admin = address(9);
    let mut r = initialized(&env, admin);
    let action = AdminAction::SetProtocolFee(10_001);
    assert_eq!(r.schedule_action(&mut at(0, admin), action, 0), Ok(1));
    assert_eq!(r.execute_action(&mut at(0, admin), 1), Err(RegistryError::FeeTooHigh));
    assert_eq!(r.get_timelock_proposal(1).unwrap().status, ProposalStatus::Scheduled);

    let action = AdminAction::ProposeAdmin(address(1));
    assert_eq!(r.schedule_action(&mut at(0, admin), action, 0), Ok(2));
    r.protocol_wallet = None;
    assert_eq!(r.execute_action(&mut at(0, admin), 2), Err(RegistryError::NotInitialized));
    r.protocol_wallet = Some(admin);
    let mut e = at(0, admin);
    assert_eq!(r.execute_action(&mut e, 2), Ok(()));
    assert_eq!(e.events[0], Event::AdminProposed { current: admin, proposed: address(1) });
}

#[test]
fn times_and_numbers_do_not_wrap() {
    let env = Env::default();
    let admin = address(9);
    let mut r = initialized(&env, admin);
    let action = AdminAction::SetProtocolFee(1);
    assert_eq!(r.schedule_action(&mut at(u64::MAX - 1, admin), action, 5), Ok(1));
    assert_eq!(r.get_timelock_proposal(1).unwrap().eta, u64::MAX);
    assert_eq!(r.execute_action(&mut at(u64::MAX, admin), 1), Ok(()));

    r.next_timelock_id = Some(u64::MAX);
    assert_eq!(
        r.schedule_action(&mut at(0, admin), action, 0),
        Err(RegistryError::Overflow)
    );
    assert_eq!(r.get_timelock_proposal(u64::MAX), None);

    let domain = PauseDomain::Deactivation;
    assert_eq!(r.pause(&mut at(u64::MAX, admin), admin, domain, 5), Ok(()));
    assert_eq!(r.pauses.get(domain).unwrap().expires_at, u64::MAX);
}

#[test]
fn a_delay_cannot_be_gone_round() {
    let env = Env::default();
    let admin = address(9);
    let mut r = initialized(&env, admin);
    assert_eq!(r.set_timelock_config(&mut at(0, admin), 10, 10), Ok(()));
    let not = Err(RegistryError::TimelockEnabled);
    assert_eq!(r.set_protocol_fee(&mut at(0, admin), 1), not);
    assert_eq!(r.propose_admin(&mut at(0, admin), address(1)), not);
    assert_eq!(r.protocol_fee_bps(), Some(300));
    assert_eq!(r.pending_admin(), None);
}

// ── Pausing ──────────────────────────────────────────────────────────

#[test]
fn pauses_last_as_long_as_asked() {
    let env = Env::default();
    let (admin, guardian) = (address(9), address(1));
    let mut r = initialized(&env, admin);
    assert_eq!(r.add_guardian(&mut at(0, admin), guardian), Ok(()));
    let domain = PauseDomain::KernelUpdates;

    let mut e = at(100, guardian);
    assert_eq!(r.pause(&mut e, guardian, domain, MAX_GUARDIAN_PAUSE_SECS), Ok(()));
    let end = 100 + MAX_GUARDIAN_PAUSE_SECS;
    assert_eq!(e.events, vec![Event::PauseSet { domain, actor: guardian, expires_at: end }]);
    assert!(r.is_paused(&at(end - 1, admin), domain));
    assert!(!r.is_paused(&at(end, admin), domain));
    assert_eq!(
        r.pause_info(&at(end - 1, admin), domain),
        PauseInfo {
            active: true,
            paused_by: Some(guardian),
            paused_at: Some(100),
            expires_at: Some(end),
        }
    );
    // A pause that has run out expires no more.
    assert_eq!(
        r.pause_info(&at(end, admin), domain),
        PauseInfo {
            active: false,
            paused_by: Some(guardian),
            paused_at: Some(100),
            expires_at: None,
        }
    );
    assert_eq!(
        r.pause_info(&at(end, admin), PauseDomain::Deactivation),
        PauseInfo { active: false, paused_by: None, paused_at: None, expires_at: None }
    );

    assert_eq!(r.pause(&mut at(0, admin), admin, domain, MAX_ADMIN_PAUSE_SECS), Ok(()));
    assert!(r.is_paused(&at(MAX_ADMIN_PAUSE_SECS - 1, admin), domain));
    assert!(!r.is_paused(&at(MAX_ADMIN_PAUSE_SECS, admin), domain));
    assert_eq!(r.pause(&mut at(0, admin), admin, domain, 0), Ok(()));
    assert!(r.is_paused(&at(u64::MAX, admin), domain));
}

#[test]
fn pauses_are_refused_for_each_reason() {
    let env = Env::default();
    let (admin, guardian, stranger) = (address(9), address(1), address(2));
    let mut r = initialized(&env, admin);
    assert_eq!(r.add_guardian(&mut at(0, admin), guardian), Ok(()));
    let domain = PauseDomain::PulseUpdates;

    assert_eq!(
        r.pause(&mut at(0, stranger), stranger, domain, 1),
        Err(RegistryError::NotAdminOrGuardian)
    );
    assert_eq!(
        r.pause(&mut at(0, guardian), guardian, domain, 0),
        Err(RegistryError::GuardianPauseOutOfBounds)
    );
    assert_eq!(
        r.pause(&mut at(0, guardian), guardian, domain, MAX_GUARDIAN_PAUSE_SECS + 1),
        Err(RegistryError::GuardianPauseOutOfBounds)
    );
    assert_eq!(
        r.pause(&mut at(0, admin), admin, domain, MAX_ADMIN_PAUSE_SECS + 1),
        Err(RegistryError::AdminPauseTooLong)
    );
    assert_eq!(r.pauses, PauseTable::new());

    assert_eq!(r.pause(&mut at(0, admin), admin, domain, 10), Ok(()));
    assert_eq!(
        r.pause(&mut at(5, guardian), guardian, domain, 1),
        Err(RegistryError::LockedByAdmin)
    );
    // Other domains are open to the guardian.
    assert_eq!(r.pause(&mut at(5, guardian), guardian, PauseDomain::Deactivation, 1), Ok(()));
}

#[test]
fn an_administrators_pause_outlasts_the_office() {
    let env = Env::default();
    let (admin, heir, guardian) = (address(9), address(8), address(1));
    let mut r = initialized(&env, admin);
    let domain = PauseDomain::TalosCreation;
    assert_eq!(r.add_guardian(&mut at(0, admin), guardian), Ok(()));
    assert_eq!(r.pause(&mut at(0, admin), admin, domain, 0), Ok(()));
    assert_eq!(r.propose_admin(&mut at(0, admin), heir), Ok(()));
    assert_eq!(r.accept_admin(&mut at(0, heir)), Ok(()));

    let mut e = at(0, guardian);
    assert_eq!(r.pause(&mut e, guardian, domain, 3_600), Err(RegistryError::LockedByAdmin));
    assert!(e.events.is_empty());
    assert_eq!(
        r.pause_info(&e, domain),
        PauseInfo { active: true, paused_by: Some(admin), paused_at: Some(0), expires_at: None }
    );

    // The new administrator can replace it and lift it, and then the guardian can pause.
    assert_eq!(r.pause(&mut at(0, heir), heir, domain, 10), Ok(()));
    assert_eq!(r.unpause(&mut at(0, heir), domain), Ok(()));
    assert_eq!(r.pause(&mut at(0, guardian), guardian, domain, 3_600), Ok(()));
}

#[test]
fn a_guardian_in_office_keeps_an_earlier_pause() {
    let env = Env::default();
    let (admin, guardian, other) = (address(9), address(1), address(2));
    let mut r = initialized(&env, admin);
    let domain = PauseDomain::PatronUpdates;
    assert_eq!(r.add_guardian(&mut at(0, admin), guardian), Ok(()));
    assert_eq!(r.add_guardian(&mut at(0, admin), other), Ok(()));
    assert_eq!(r.pause(&mut at(0, guardian), guardian, domain, 10), Ok(()));
    assert_eq!(r.propose_admin(&mut at(0, admin), guardian), Ok(()));
    assert_eq!(r.accept_admin(&mut at(0, guardian)), Ok(()));

    // Who set it is the administrator now.
    let mut e = at(1, other);
    assert_eq!(r.pause(&mut e, other, domain, 1), Err(RegistryError::LockedByAdmin));
    assert!(e.events.is_empty());
    assert_eq!(
        r.pauses.get(domain),
        Some(PauseState { paused_by: guardian, paused_at: 0, expires_at: 10 })
    );

    // Out of office again, and never set as an administrator's.
    assert_eq!(r.propose_admin(&mut at(1, guardian), admin), Ok(()));
    assert_eq!(r.accept_admin(&mut at(1, admin)), Ok(()));
    assert_eq!(r.pause(&mut at(1, other), other, domain, 1), Ok(()));
}

#[test]
fn an_expired_record_of_the_administrator_still_locks() {
    let env = Env::default();
    let (admin, guardian) = (address(9), address(1));
    let mut r = initialized(&env, admin);
    let domain = PauseDomain::KernelUpdates;
    assert_eq!(r.add_guardian(&mut at(0, admin), guardian), Ok(()));
    assert_eq!(r.pause(&mut at(0, admin), admin, domain, 10), Ok(()));
    assert_eq!(r.unpause(&mut at(10, admin), domain), Ok(()));
    assert_eq!(
        r.pause(&mut at(10, guardian), guardian, domain, 5),
        Err(RegistryError::LockedByAdmin)
    );
    assert_eq!(r.pause(&mut at(10, admin), admin, domain, 10), Ok(()));
    assert_eq!(r.unpause(&mut at(10, admin), domain), Ok(()));
    assert_eq!(r.pause(&mut at(10, guardian), guardian, domain, 5), Ok(()));
}

#[test]
fn ids_count_without_gaps() {
    let env = Env::default();
    let (admin, creator) = (address(9), address(1));
    let mut r = initialized(&env, admin);
    let action = AdminAction::SetProtocolFee(1);
    let mut e = Invocation::new(0, vec![admin, creator]);
    assert_eq!(create(&mut r, &env, &mut e, patron(creator), admin), Ok(1));
    // A refused call uses up no id.
    assert!(create(&mut r, &env, &mut e, patron(creator), creator).is_err());
    assert_eq!(create(&mut r, &env, &mut e, patron(creator), admin), Ok(2));
    assert_eq!(r.next_talos_id(), 3);

    assert_eq!(r.schedule_action(&mut e, action, 0), Ok(1));
    assert!(r.schedule_action(&mut at(0, creator), action, 0).is_err());
    assert_eq!(r.execute_action(&mut e, 1), Ok(()));
    assert_eq!(r.schedule_action(&mut e, action, 0), Ok(2));
    assert_eq!(r.get_timelock_proposal(1).unwrap().id, 1);
}

#[test]
fn no_talos_has_id_zero() {
    let env = Env::default();
    let (admin, creator) = (address(9), address(1));
    let mut r = TalosRegistry::new(&env);
    let mut e = at(0, creator);
    assert_eq!(create(&mut r, &env, &mut e, patron(creator), admin), Ok(1));
    // Counting starts anew, from one.
    assert_eq!(r.initialize(&mut e, admin), Ok(()));
    assert_eq!(r.next_talos_id(), 1);
    assert_eq!(create(&mut r, &env, &mut e, patron(creator), admin), Ok(1));
    assert!(r.get_talos(0).is_none());
    assert_eq!(r.creator_of(0), None);
    assert!(!r.is_active(0));
}

#[test]
fn sets_of_domains() {
    for domain in DOMAINS {
        let mut set = DomainSet::new();
        set.set(domain, true);
        for other in DOMAINS {
            assert_eq!(set.contains(other), other == domain);
        }
        set.set(domain, false);
        assert_eq!(set, DomainSet::new());
    }
}

#[test]
fn unpausing_what_is_not_paused_does_nothing() {
    let env = Env::default();
    let admin = address(9);
    let mut r = initialized(&env, admin);
    let domain = PauseDomain::TalosCreation;
    assert_eq!(r.pause(&mut at(0, admin), admin, domain, 10), Ok(()));

    // The pause has run out by then.
    let mut e = at(10, admin);
    assert_eq!(r.unpause(&mut e, domain), Ok(()));
    assert!(e.events.is_empty());
    assert_eq!(
        r.pauses.get(domain),
        Some(PauseState { paused_by: admin, paused_at: 0, expires_at: 10 })
    );

    let mut e = at(9, admin);
    assert_eq!(r.unpause(&mut e, domain), Ok(()));
    assert_eq!(r.unpause(&mut e, domain), Ok(()));
    assert_eq!(e.events, vec![Event::PauseCleared { domain, actor: admin }]);
    assert_eq!(r.pauses.get(domain), None);
}

#[test]
fn a_removed_guardian_leaves_the_pause_behind() {
    let env = Env::default();
    let (admin, guardian) = (address(9), address(1));
    let mut r = initialized(&env, admin);
    let domain = PauseDomain::TalosCreation;
    assert_eq!(r.add_guardian(&mut at(0, admin), guardian), Ok(()));
    assert_eq!(r.pause(&mut at(0, guardian), guardian, domain, 10), Ok(()));
    assert_eq!(r.remove_guardian(&mut at(0, admin), guardian), Ok(()));
    assert!(r.is_paused(&at(1, admin), domain));
    assert_eq!(
        r.pause(&mut at(0, guardian), guardian, domain, 10),
        Err(RegistryError::NotAdminOrGuardian)
    );
}

// ── Guardians and assets ─────────────────────────────────────────────

#[test]
fn guardians_keep_their_order() {
    let env = Env::default();
    let admin = address(9);
    let mut r = initialized(&env, admin);
    let mut e = at(0, admin);
    let contract = Address { contract: true, hi: u128::MAX, lo: u128::MAX };
    for guardian in [address(1), contract, address(3)] {
        assert_eq!(r.add_guardian(&mut e, guardian), Ok(()));
    }
    assert_eq!(r.list_guardians(), vec![address(1), contract, address(3)]);
    assert_eq!(r.remove_guardian(&mut e, address(1)), Ok(()));
    assert_eq!(r.list_guardians(), vec![contract, address(3)]);
    assert!(!r.is_guardian(Address { contract: false, ..contract }));
    assert!(r.is_guardian(contract));
    let published: usize = e.events.len();
    assert_eq!(published, 4);
    // Neither of these changes anything.
    assert_eq!(r.add_guardian(&mut e, contract), Ok(()));
    assert_eq!(r.remove_guardian(&mut e, address(1)), Ok(()));
    assert_eq!(e.events.len(), published);
    assert_eq!(r.list_guardians(), vec![contract, address(3)]);
}

#[test]
fn guardians_are_limited_in_number() {
    let env = Env::default();
    let admin = address(9);
    let mut r = initialized(&env, admin);
    let mut e = at(0, admin);
    for i in 0..MAX_GUARDIANS {
        assert_eq!(r.add_guardian(&mut e, address(i as u128)), Ok(()));
    }
    assert_eq!(r.add_guardian(&mut e, address(50)), Err(RegistryError::GuardianLimitReached));
    // One that is there already is still no error.
    assert_eq!(r.add_guardian(&mut e, address(0)), Ok(()));
    assert_eq!(r.remove_guardian(&mut e, address(0)), Ok(()));
    assert_eq!(r.add_guardian(&mut e, address(50)), Ok(()));
}

#[test]
fn rosters_are_lists() {
    let env = Env::default();
    let mut roster = Roster::new(&env);
    assert_eq!(roster.len(), 0);
    roster.push(address(1));
    roster.push(address(2));
    roster.push(address(1));
    assert_eq!(roster.len(), 3);
    assert_eq!(roster.get(1), address(2));
    assert!(roster.contains(address(1)));
    assert!(!roster.contains(address(3)));
    let rest = roster.without(address(1));
    assert_eq!(rest.to_vec(), vec![address(2)]);
    assert_eq!(roster.to_vec(), vec![address(1), address(2), address(1)]);
}

#[test]
fn assets_are_allowed_and_disallowed() {
    let env = Env::default();
    let (admin, usd, eur) = (address(9), address(1), address(2));
    let mut r = initialized(&env, admin);
    let mut e = at(0, admin);
    assert_eq!(r.allow_asset(&mut e, usd), Ok(()));
    assert_eq!(r.allow_asset(&mut e, usd), Ok(()));
    assert!(r.is_asset_allowed(usd));
    assert!(!r.is_asset_allowed(eur));
    assert_eq!(r.disallow_asset(&mut e, eur), Ok(()));
    assert!(r.is_asset_allowed(usd));
    assert_eq!(r.disallow_asset(&mut e, usd), Ok(()));
    assert!(!r.is_asset_allowed(usd));
    assert!(e.events.is_empty());
}

// ── Words ────────────────────────────────────────────────────────────

#[test]
fn registry_refusals_have_words() {
    let words = [
        (RegistryError::Unauthorized(address(1)), "Missing authorization"),
        (RegistryError::Overflow, "Arithmetic overflow"),
        (RegistryError::SharesNotHundred, "Patron shares must sum to 100"),
        (RegistryError::Paused, "Write path paused"),
        (RegistryError::WalletMismatch, "Protocol wallet mismatch"),
        (RegistryError::TalosNotFound, "Talos not found"),
        (RegistryError::AlreadyInitialized, "Already initialized"),
        (RegistryError::NotInitialized, "Contract not initialized"),
        (RegistryError::FeeTooHigh, "Protocol fee cannot exceed 100%"),
        (RegistryError::TimelockEnabled, "Timelock enabled: action must be scheduled"),
        (RegistryError::GracePeriodZero, "Grace period must be positive"),
        (RegistryError::MinDelayTooLong, "Min delay exceeds maximum limit"),
        (RegistryError::DelayTooShort, "Delay less than minimum required delay"),
        (RegistryError::ProposalNotFound, "Timelock proposal not found"),
        (RegistryError::ProposalNotActive, "Proposal not active"),
        (RegistryError::DelayNotMet, "Timelock delay not met"),
        (RegistryError::ProposalExpired, "Proposal expired"),
        (RegistryError::NoPendingAdmin, "No pending admin transfer"),
        (RegistryError::NotAdminOrGuardian, "Caller is not admin or guardian"),
        (RegistryError::LockedByAdmin, "Domain locked by admin; guardians cannot modify"),
        (RegistryError::AdminPauseTooLong, "Duration exceeds admin maximum"),
        (RegistryError::GuardianPauseOutOfBounds, "Guardian pause duration out of bounds"),
        (RegistryError::GuardianLimitReached, "Guardian limit reached"),
        (RegistryError::NegativeAmount, "Amount must be non-negative"),
    ];
    for (error, text) in words {
        assert_eq!(error.message(), text);
    }
}

#[test]
fn events_have_symbols_and_topics() {
    let env = Env::default();
    let (a, s) = (address(1), String::from_str(&env, "s"));
    let action = AdminAction::SetProtocolFee(1);
    let domain = PauseDomain::Deactivation;
    let events = [
        (Event::TalosCreated { creator: a, talos_id: 1, name: s.clone(), category: s.clone() }, "tls_crt", 2),
        (Event::PatronUpdated { talos_id: 1, creator: a, creator_share: 1, investor_share: 1 }, "pat_upd", 2),
        (Event::ProtocolFeeChanged { old_bps: 1, new_bps: 2 }, "fee_chg", 1),
        (Event::AdminProposed { current: a, proposed: a }, "adm_prp", 1),
        (Event::AdminAccepted { new_admin: a }, "adm_acc", 1),
        (Event::AdminCancelled { cancelled: a }, "adm_cnl", 1),
        (Event::TimelockScheduled { proposal_id: 1, action, eta: 1, proposer: a }, "tl_sch", 2),
        (Event::TimelockExecuted { proposal_id: 1, action, executor: a }, "tl_exec", 2),
        (Event::TimelockCancelled { proposal_id: 1, action, canceller: a }, "tl_cnl", 2),
        (
            Event::TimelockConfigChanged { old_min_delay: 1, new_min_delay: 2, grace_period: 3 },
            "tl_cfg",
            1,
        ),
        (Event::PauseSet { domain, actor: a, expires_at: 1 }, "pause_on", 2),
        (Event::PauseCleared { domain, actor: a }, "pause_off", 2),
        (Event::GuardianAdded { guardian: a }, "guard_add", 1),
        (Event::GuardianRemoved { guardian: a }, "guard_rem", 1),
        (Event::NameRegistered { talos_id: 1, name: s, owner: a }, "name_reg", 2),
        (Event::NameFeePaid { talos_id: 1, payer: a, asset: a, amount: 1 }, "nmf_paid", 2),
    ];
    for (event, symbol, topics) in events {
        assert_eq!(event.symbol(), symbol);
        assert_eq!(event.topic_count(), topics);
    }
}
