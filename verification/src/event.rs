//! What the contracts publish.

use vstd::prelude::*;

use crate::address::Address;
use crate::pause::PauseDomain;
use crate::timelock::AdminAction;

verus! {

/// An event. Its first topic is [`Event::symbol`]; the fields are the further topics
/// and the data, in this order.
#[derive(Clone, Debug, PartialEq, Eq)]
pub enum Event {
    /// Topics: creator. Data: the rest.
    TalosCreated {
        creator: Address,
        talos_id: u32,
        name: soroban_sdk::String,
        category: soroban_sdk::String,
    },
    /// Topics: Talos. Data: the rest.
    PatronUpdated { talos_id: u32, creator: Address, creator_share: u32, investor_share: u32 },
    /// No further topic.
    ProtocolFeeChanged { old_bps: u32, new_bps: u32 },
    /// The administrator `current` has nominated `proposed`, who has to accept.
    AdminProposed { current: Address, proposed: Address },
    /// The nominee has become the administrator.
    AdminAccepted { new_admin: Address },
    /// The nomination of `cancelled` has been revoked.
    AdminCancelled { cancelled: Address },
    /// Topics: proposal. Data: the rest.
    TimelockScheduled { proposal_id: u64, action: AdminAction, eta: u64, proposer: Address },
    /// Topics: proposal. Data: the rest.
    TimelockExecuted { proposal_id: u64, action: AdminAction, executor: Address },
    /// Topics: proposal. Data: the rest.
    TimelockCancelled { proposal_id: u64, action: AdminAction, canceller: Address },
    /// No further topic.
    TimelockConfigChanged { old_min_delay: u64, new_min_delay: u64, grace_period: u64 },
    /// A pause has been set or renewed. Topics: domain. Data: the rest.
    PauseSet { domain: PauseDomain, actor: Address, expires_at: u64 },
    /// A pause has been lifted. Topics: domain. Data: the rest.
    PauseCleared { domain: PauseDomain, actor: Address },
    GuardianAdded { guardian: Address },
    GuardianRemoved { guardian: Address },
    /// Topics: Talos. Data: the rest.
    NameRegistered { talos_id: u32, name: soroban_sdk::String, owner: Address },
    /// Topics: Talos. Data: the rest.
    NameFeePaid { talos_id: u32, payer: Address, asset: Address, amount: i128 },
}

impl Event {
    /// The symbol under which the event is published.
    pub open spec fn name(self) -> Seq<char> {
        match self {
            Event::TalosCreated { .. } => "tls_crt"@,
            Event::PatronUpdated { .. } => "pat_upd"@,
            Event::ProtocolFeeChanged { .. } => "fee_chg"@,
            Event::AdminProposed { .. } => "adm_prp"@,
            Event::AdminAccepted { .. } => "adm_acc"@,
            Event::AdminCancelled { .. } => "adm_cnl"@,
            Event::TimelockScheduled { .. } => "tl_sch"@,
            Event::TimelockExecuted { .. } => "tl_exec"@,
            Event::TimelockCancelled { .. } => "tl_cnl"@,
            Event::TimelockConfigChanged { .. } => "tl_cfg"@,
            Event::PauseSet { .. } => "pause_on"@,
            Event::PauseCleared { .. } => "pause_off"@,
            Event::GuardianAdded { .. } => "guard_add"@,
            Event::GuardianRemoved { .. } => "guard_rem"@,
            Event::NameRegistered { .. } => "name_reg"@,
            Event::NameFeePaid { .. } => "nmf_paid"@,
        }
    }

    /// The number of topics: the symbol, and behind it whom or what the event is about
    /// where that is a topic too.
    pub open spec fn topics(self) -> u32 {
        match self {
            Event::TalosCreated { .. } => 2,
            Event::PatronUpdated { .. } => 2,
            Event::TimelockScheduled { .. } => 2,
            Event::TimelockExecuted { .. } => 2,
            Event::TimelockCancelled { .. } => 2,
            Event::PauseSet { .. } => 2,
            Event::PauseCleared { .. } => 2,
            Event::NameRegistered { .. } => 2,
            Event::NameFeePaid { .. } => 2,
            _ => 1,
        }
    }

    pub fn symbol(&self) -> (r: &'static str)
        ensures
            r@ == self.name(),
    {
        match self {
            Event::TalosCreated { .. } => "tls_crt",
            Event::PatronUpdated { .. } => "pat_upd",
            Event::ProtocolFeeChanged { .. } => "fee_chg",
            Event::AdminProposed { .. } => "adm_prp",
            Event::AdminAccepted { .. } => "adm_acc",
            Event::AdminCancelled { .. } => "adm_cnl",
            Event::TimelockScheduled { .. } => "tl_sch",
            Event::TimelockExecuted { .. } => "tl_exec",
            Event::TimelockCancelled { .. } => "tl_cnl",
            Event::TimelockConfigChanged { .. } => "tl_cfg",
            Event::PauseSet { .. } => "pause_on",
            Event::PauseCleared { .. } => "pause_off",
            Event::GuardianAdded { .. } => "guard_add",
            Event::GuardianRemoved { .. } => "guard_rem",
            Event::NameRegistered { .. } => "name_reg",
            Event::NameFeePaid { .. } => "nmf_paid",
        }
    }

    pub fn topic_count(&self) -> (r: u32)
        ensures
            r == self.topics(),
    {
        match self {
            Event::TalosCreated { .. } => 2,
            Event::PatronUpdated { .. } => 2,
            Event::TimelockScheduled { .. } => 2,
            Event::TimelockExecuted { .. } => 2,
            Event::TimelockCancelled { .. } => 2,
            Event::PauseSet { .. } => 2,
            Event::PauseCleared { .. } => 2,
            Event::NameRegistered { .. } => 2,
            Event::NameFeePaid { .. } => 2,
            _ => 1,
        }
    }
}

} // verus!
