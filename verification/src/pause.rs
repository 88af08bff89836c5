//! Pausing one write path at a time.

use vstd::prelude::*;

use crate::address::Address;

verus! {

/// A narrowly scoped write path that can be paused on its own.
///
/// Reads are never gated by any of these, nor are the administrative entry points:
/// an administrator who paused those could be locked out for good.
#[derive(Clone, Copy, Debug, PartialEq, Eq, Structural)]
pub enum PauseDomain {
    TalosCreation,
    PatronUpdates,
    KernelUpdates,
    PulseUpdates,
    Deactivation,
}

/// The record of a pause of one [`PauseDomain`].
#[derive(Clone, Copy, Debug, PartialEq, Eq, Structural)]
pub struct PauseState {
    pub paused_by: Address,
    pub paused_at: u64,
    /// Ledger time at which the pause lifts by itself. `0` means never: only the
    /// administrator can set that, no guardian can.
    pub expires_at: u64,
}

impl PauseState {
    /// Whether the pause is in force at ledger time `now`.
    pub open spec fn in_force(self, now: u64) -> bool {
        self.expires_at == 0 || now < self.expires_at
    }

    pub fn is_in_force(&self, now: u64) -> (r: bool)
        ensures
            r == self.in_force(now),
    {
        self.expires_at == 0 || now < self.expires_at
    }
}

/// A computed view of the pause status of a domain.
#[derive(Clone, Copy, Debug, PartialEq, Eq, Structural)]
pub struct PauseInfo {
    pub active: bool,
    pub paused_by: Option<Address>,
    pub paused_at: Option<u64>,
    /// `None` when not paused, or when paused indefinitely by the administrator.
    pub expires_at: Option<u64>,
}

/// At most one pause record for each domain.
#[derive(Clone, Copy, Debug, PartialEq, Eq, Structural)]
pub struct PauseTable {
    pub talos_creation: Option<PauseState>,
    pub patron_updates: Option<PauseState>,
    pub kernel_updates: Option<PauseState>,
    pub pulse_updates: Option<PauseState>,
    pub deactivation: Option<PauseState>,
}

impl View for PauseTable {
    type V = Map<PauseDomain, PauseState>;

    open spec fn view(&self) -> Map<PauseDomain, PauseState> {
        Map::new(|d: PauseDomain| self.slot(d) is Some, |d: PauseDomain| self.slot(d)->0)
    }
}

impl PauseTable {
    /// What stands in the place of `domain`.
    pub open spec fn slot(self, domain: PauseDomain) -> Option<PauseState> {
        match domain {
            PauseDomain::TalosCreation => self.talos_creation,
            PauseDomain::PatronUpdates => self.patron_updates,
            PauseDomain::KernelUpdates => self.kernel_updates,
            PauseDomain::PulseUpdates => self.pulse_updates,
            PauseDomain::Deactivation => self.deactivation,
        }
    }

    /// A table without records.
    pub fn new() -> (r: Self)
        ensures
            r@ == Map::<PauseDomain, PauseState>::empty(),
    {
        let r = PauseTable {
            talos_creation: None,
            patron_updates: None,
            kernel_updates: None,
            pulse_updates: None,
            deactivation: None,
        };
        assert(r@ =~= Map::<PauseDomain, PauseState>::empty());
        r
    }

    /// The record of `domain`, if there is one.
    pub fn get(&self, domain: PauseDomain) -> (r: Option<PauseState>)
        ensures
            r == (if self@.contains_key(domain) {
                Some(self@[domain])
            } else {
                None
            }),
    {
        match domain {
            PauseDomain::TalosCreation => self.talos_creation,
            PauseDomain::PatronUpdates => self.patron_updates,
            PauseDomain::KernelUpdates => self.kernel_updates,
            PauseDomain::PulseUpdates => self.pulse_updates,
            PauseDomain::Deactivation => self.deactivation,
        }
    }

    /// Makes `record` the record of `domain`; with `None`, the domain has none after
    /// the call.
    pub fn set(&mut self, domain: PauseDomain, record: Option<PauseState>)
        ensures
            final(self)@ == (match record {
                Some(p) => old(self)@.insert(domain, p),
                None => old(self)@.remove(domain),
            }),
    {
        match domain {
            PauseDomain::TalosCreation => { self.talos_creation = record; },
            PauseDomain::PatronUpdates => { self.patron_updates = record; },
            PauseDomain::KernelUpdates => { self.kernel_updates = record; },
            PauseDomain::PulseUpdates => { self.pulse_updates = record; },
            PauseDomain::Deactivation => { self.deactivation = record; },
        }
        assert(forall|d: PauseDomain|
            d != domain ==> #[trigger] self.slot(d) == old(self).slot(d));
        assert(self.slot(domain) == record);
        proof {
            match record {
                Some(p) => { assert(self@ =~= old(self)@.insert(domain, p)); },
                None => { assert(self@ =~= old(self)@.remove(domain)); },
            }
        }
    }
}

/// A set of domains.
#[derive(Clone, Copy, Debug, PartialEq, Eq, Structural)]
pub struct DomainSet {
    pub talos_creation: bool,
    pub patron_updates: bool,
    pub kernel_updates: bool,
    pub pulse_updates: bool,
    pub deactivation: bool,
}

impl View for DomainSet {
    type V = Set<PauseDomain>;

    open spec fn view(&self) -> Set<PauseDomain> {
        Set::new(|d: PauseDomain| self.flag(d))
    }
}

impl DomainSet {
    /// Whether `domain` is marked.
    pub open spec fn flag(self, domain: PauseDomain) -> bool {
        match domain {
            PauseDomain::TalosCreation => self.talos_creation,
            PauseDomain::PatronUpdates => self.patron_updates,
            PauseDomain::KernelUpdates => self.kernel_updates,
            PauseDomain::PulseUpdates => self.pulse_updates,
            PauseDomain::Deactivation => self.deactivation,
        }
    }

    /// The empty set.
    pub fn new() -> (r: Self)
        ensures
            r@ == Set::<PauseDomain>::empty(),
    {
        let r = DomainSet {
            talos_creation: false,
            patron_updates: false,
            kernel_updates: false,
            pulse_updates: false,
            deactivation: false,
        };
        assert(r@ =~= Set::<PauseDomain>::empty());
        r
    }

    pub fn contains(&self, domain: PauseDomain) -> (r: bool)
        ensures
            r == self@.contains(domain),
    {
        match domain {
            PauseDomain::TalosCreation => self.talos_creation,
            PauseDomain::PatronUpdates => self.patron_updates,
            PauseDomain::KernelUpdates => self.kernel_updates,
            PauseDomain::PulseUpdates => self.pulse_updates,
            PauseDomain::Deactivation => self.deactivation,
        }
    }

    /// Puts `domain` into the set if it is a `member`, and takes it out otherwise.
    pub fn set(&mut self, domain: PauseDomain, member: bool)
        ensures
            final(self)@ == (if member {
                old(self)@.insert(domain)
            } else {
                old(self)@.remove(domain)
            }),
    {
        match domain {
            PauseDomain::TalosCreation => { self.talos_creation = member; },
            PauseDomain::PatronUpdates => { self.patron_updates = member; },
            PauseDomain::KernelUpdates => { self.kernel_updates = member; },
            PauseDomain::PulseUpdates => { self.pulse_updates = member; },
            PauseDomain::Deactivation => { self.deactivation = member; },
        }
        assert(forall|d: PauseDomain|
            d != domain ==> #[trigger] self.flag(d) == old(self).flag(d));
        assert(self.flag(domain) == member);
        proof {
            if member {
                assert(self@ =~= old(self)@.insert(domain));
            } else {
                assert(self@ =~= old(self)@.remove(domain));
            }
        }
    }
}

} // verus!
