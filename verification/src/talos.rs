//! A Talos and what it is made of.

use vstd::prelude::*;

use crate::address::Address;

verus! {

/// How the revenue of a Talos is shared out, in percent, and among whom.
#[derive(Clone, Copy, Debug, PartialEq, Eq, Structural)]
pub struct Patron {
    pub creator_share: u32,
    pub investor_share: u32,
    pub treasury_share: u32,
    pub creator_addr: Address,
    pub investor_addr: Address,
    pub treasury_addr: Address,
}

impl Patron {
    /// The three shares taken together.
    pub open spec fn total(self) -> int {
        self.creator_share + self.investor_share + self.treasury_share
    }
}

/// The policy that a Talos runs under.
#[derive(Clone, Copy, Debug, PartialEq, Eq, Structural)]
pub struct Kernel {
    pub approval_threshold: i128,
    pub gtm_budget: i128,
    pub min_patron_pulse: i128,
}

/// The token of a Talos.
#[derive(Clone, Debug, PartialEq, Eq)]
pub struct Pulse {
    pub total_supply: i128,
    pub price_usd_cents: i128,
    pub token_symbol: soroban_sdk::String,
}

/// A registered agent.
#[derive(Clone, Debug, PartialEq, Eq)]
pub struct Talos {
    pub id: u32,
    pub name: soroban_sdk::String,
    pub category: soroban_sdk::String,
    pub description: soroban_sdk::String,
    pub creator: Address,
    pub patron: Patron,
    pub kernel: Kernel,
    pub pulse: Pulse,
    /// Ledger time of creation, in seconds.
    pub created_at: u64,
    pub active: bool,
}

} // verus!
