//! Delayed administrative actions.

use vstd::prelude::*;

use crate::address::Address;

verus! {

/// An administrative action that can be scheduled.
#[derive(Clone, Copy, Debug, PartialEq, Eq, Structural)]
pub enum AdminAction {
    SetProtocolFee(u32),
    ProposeAdmin(Address),
}

#[derive(Clone, Copy, Debug, PartialEq, Eq, Structural)]
pub enum ProposalStatus {
    Scheduled,
    Executed,
    Cancelled,
}

/// A scheduled action and what has become of it.
#[derive(Clone, Copy, Debug, PartialEq, Eq, Structural)]
pub struct TimelockProposal {
    pub id: u64,
    pub action: AdminAction,
    /// Ledger time from which the action may be executed.
    pub eta: u64,
    pub status: ProposalStatus,
    pub scheduled_at: u64,
    pub scheduled_by: Address,
}

/// The least delay of a scheduled action, and for how long after its `eta` it may be
/// executed; both in seconds.
#[derive(Clone, Copy, Debug, PartialEq, Eq, Structural)]
pub struct TimelockConfig {
    pub min_delay: u64,
    pub grace_period: u64,
}

/// The sum of two ledger times, or the last of all ledger times where it lies beyond.
pub open spec fn later(time: u64, seconds: u64) -> u64 {
    if time + seconds > u64::MAX {
        u64::MAX
    } else {
        (time + seconds) as u64
    }
}

/// Times add up as numbers do, up to the last ledger time there is.
pub proof fn law_later(time: u64, seconds: u64)
    ensures
        time + seconds <= u64::MAX ==> later(time, seconds) == time + seconds,
        time + seconds > u64::MAX ==> later(time, seconds) == u64::MAX,
{
}

} // verus!
