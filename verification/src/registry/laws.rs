//! What holds of the registry as a whole.

use vstd::prelude::*;

use crate::address::{lemma_without, without, Address};
use crate::invocation::InvocationView;
use crate::pause::PauseDomain;
use crate::registry::calls::RegistryCall;
use crate::registry::error::RegistryError;
use crate::registry::model::RegistryView;
use crate::registry::{
    MAX_ADMIN_PAUSE_SECS, MAX_GUARDIANS, MAX_GUARDIAN_PAUSE_SECS, MAX_MIN_DELAY,
    MAX_PROTOCOL_FEE_BPS,
};
use crate::talos::{Kernel, Patron, Pulse, Talos};
use crate::timelock::{later, AdminAction, ProposalStatus};

verus! {

impl RegistryView {
    /// Ids count from one. Every Talos is filed under its own id and with its creator,
    /// and its shares sum to 100.
    pub open spec fn taloses_sound(self) -> bool {
        &&& 1 <= self.next_id()
        &&& self.taloses.dom() == self.creators.dom()
        &&& forall|id: u32| #[trigger]
            self.taloses.contains_key(id) ==> {
                &&& 1 <= id
                &&& self.taloses[id].id == id
                &&& self.creators[id] == self.taloses[id].creator
                &&& self.taloses[id].patron.total() == 100
            }
    }

    /// Every proposal is filed under its own id, below the next one, and comes due no
    /// earlier than it was scheduled.
    pub open spec fn proposals_sound(self) -> bool {
        forall|id: u64| #[trigger]
            self.proposals.contains_key(id) ==> {
                &&& self.proposals[id].id == id
                &&& id < self.next_proposal_id()
                &&& self.proposals[id].scheduled_at <= self.proposals[id].eta
            }
    }

    /// No pause lasts for longer than who set it may ask: only an administrator's can
    /// be without an end. What is marked as an administrator's is there.
    pub open spec fn pauses_sound(self) -> bool {
        &&& forall|d: PauseDomain| #[trigger]
            self.pauses.contains_key(d) ==> {
                let record = self.pauses[d];
                if record.expires_at == 0 {
                    self.set_by_admin.contains(d)
                } else {
                    &&& record.paused_at <= record.expires_at
                    &&& record.expires_at - record.paused_at <= MAX_ADMIN_PAUSE_SECS
                    &&& !self.set_by_admin.contains(d) ==> record.expires_at - record.paused_at
                        <= MAX_GUARDIAN_PAUSE_SECS
                }
            }
        &&& forall|d: PauseDomain| #[trigger]
            self.set_by_admin.contains(d) ==> self.pauses.contains_key(d)
    }

    /// The guardians are few, and none is listed twice.
    pub open spec fn guardians_sound(self) -> bool {
        self.guardians.len() <= MAX_GUARDIANS && self.guardians.no_duplicates()
    }

    /// The fee and the timelock stay within their limits.
    pub open spec fn settings_sound(self) -> bool {
        &&& self.fee_bps() <= MAX_PROTOCOL_FEE_BPS
        &&& self.timelock().min_delay <= MAX_MIN_DELAY
        &&& self.timelock().grace_period > 0
    }

    /// Without an administrator there is nothing that only an administrator can have
    /// brought about.
    pub open spec fn office_sound(self) -> bool {
        self.protocol_wallet is None ==> {
            &&& self.pending_admin is None
            &&& self.proposals.dom() == Set::<u64>::empty()
            &&& self.pauses.dom() == Set::<PauseDomain>::empty()
            &&& self.guardians.len() == 0
            &&& self.assets == Set::<Address>::empty()
            &&& self.timelock_config is None
            &&& self.protocol_fee_bps is None
        }
    }

    /// What holds of a registry at all times.
    pub open spec fn sound(self) -> bool {
        &&& self.taloses_sound()
        &&& self.proposals_sound()
        &&& self.pauses_sound()
        &&& self.guardians_sound()
        &&& self.settings_sound()
        &&& self.office_sound()
    }

    /// The ids that Taloses have are below the next one.
    pub open spec fn ids_used_up(self) -> bool {
        forall|id: u32| #[trigger] self.taloses.contains_key(id) ==> id < self.next_id()
    }
}

/// A new registry is sound, and no id is in use.
pub proof fn law_start()
    ensures
        RegistryView::empty().sound(),
        RegistryView::empty().ids_used_up(),
{
    assert(RegistryView::empty().proposals.dom() =~= Set::<u64>::empty());
    assert(RegistryView::empty().pauses.dom() =~= Set::<PauseDomain>::empty());
}

/// Whatever is called, by whomever and whenever, a sound registry stays sound.
pub proof fn law_soundness_is_kept(s: RegistryView, e: InvocationView, call: RegistryCall)
    requires
        s.sound(),
    ensures
        s.step(e, call).sound(),
{
    let t = s.step(e, call);
    if s.refusal(e, call) is None {
        match call {
            RegistryCall::CreateTalos { .. } => {
                assert(t.taloses.dom() =~= t.creators.dom());
            },
            RegistryCall::UpdatePatron { talos_id, .. } => {
                assert(t.taloses.dom() =~= s.taloses.dom());
            },
            RegistryCall::UpdateKernel { talos_id, .. } => {
                assert(t.taloses.dom() =~= s.taloses.dom());
            },
            RegistryCall::UpdatePulse { talos_id, .. } => {
                assert(t.taloses.dom() =~= s.taloses.dom());
            },
            RegistryCall::DeactivateTalos { talos_id } => {
                assert(t.taloses.dom() =~= s.taloses.dom());
            },
            RegistryCall::RemoveGuardian { guardian } => {
                lemma_without(s.guardians, guardian);
            },
            RegistryCall::AcceptAdmin => {
                assert(t.protocol_wallet is Some);
            },
            RegistryCall::ExecuteAction { proposal_id } => {
                if s.protocol_wallet is None {
                    assert(s.proposals.dom().contains(proposal_id));
                }
            },
            _ => {},
        }
    }
}

/// There is no Talos with the id zero, nor will there be one.
pub proof fn law_no_talos_has_id_zero(s: RegistryView, e: InvocationView, call: RegistryCall)
    requires
        s.sound(),
    ensures
        !s.taloses.contains_key(0),
        !s.creators.contains_key(0),
        !s.active(0),
        !s.step(e, call).taloses.contains_key(0),
        !s.step(e, call).creators.contains_key(0),
        !s.step(e, call).active(0),
{
    law_soundness_is_kept(s, e, call);
    assert(s.creators.dom().contains(0) == s.taloses.dom().contains(0));
    let t = s.step(e, call);
    assert(t.creators.dom().contains(0) == t.taloses.dom().contains(0));
}

/// Whatever is called, ids in use stay below the next one, except that initializing a
/// registry in which there are Taloses starts counting from one again.
pub proof fn law_ids_stay_used_up(s: RegistryView, e: InvocationView, call: RegistryCall)
    requires
        s.ids_used_up(),
        call is Initialize ==> s.protocol_wallet is Some || s.taloses == Map::<u32, Talos>::empty(),
    ensures
        s.step(e, call).ids_used_up(),
{
}

/// Ids of Taloses count without gaps: the next one rises by one with each Talos that is
/// created, and by nothing else. Initializing sets it to one.
pub proof fn law_talos_ids_have_no_gaps(s: RegistryView, e: InvocationView, call: RegistryCall)
    ensures
        s.step(e, call).next_id() == (if s.refusal(e, call) is Some {
            s.next_id() as int
        } else if call is CreateTalos {
            s.next_id() + 1
        } else if call is Initialize {
            1
        } else {
            s.next_id() as int
        }),
{
}

/// Ids of proposals count without gaps: the next one rises by one with each action that
/// is scheduled, and by nothing else.
pub proof fn law_proposal_ids_have_no_gaps(s: RegistryView, e: InvocationView, call: RegistryCall)
    ensures
        s.step(e, call).next_proposal_id() == (if s.refusal(e, call) is None
            && call is ScheduleAction {
            s.next_proposal_id() + 1
        } else {
            s.next_proposal_id() as int
        }),
{
}

// ── Taloses ──────────────────────────────────────────────────────────

/// A new Talos gets an id that no other has, is found under it, active and with its
/// creator, and leaves all others as they are.
pub proof fn law_new_talos_is_added(
    s: RegistryView,
    e: InvocationView,
    name: soroban_sdk::String,
    category: soroban_sdk::String,
    description: soroban_sdk::String,
    patron: Patron,
    kernel: Kernel,
    pulse: Pulse,
    protocol_wallet: Address,
)
    requires
        s.ids_used_up(),
        s.create_talos_refusal(e, patron, protocol_wallet) is None,
    ensures
        ({
            let id = s.next_id();
            let t = s.step(
                e,
                RegistryCall::CreateTalos {
                    name,
                    category,
                    description,
                    patron,
                    kernel,
                    pulse,
                    protocol_wallet,
                },
            );
            &&& !s.taloses.contains_key(id)
            &&& t.taloses.contains_key(id)
            &&& t.taloses[id].id == id
            &&& t.taloses[id].name == name
            &&& t.taloses[id].category == category
            &&& t.taloses[id].description == description
            &&& t.taloses[id].patron == patron
            &&& t.taloses[id].kernel == kernel
            &&& t.taloses[id].pulse == pulse
            &&& t.taloses[id].created_at == e.timestamp
            &&& t.creators.contains_key(id)
            &&& t.creators[id] == patron.creator_addr
            &&& t.taloses[id].creator == patron.creator_addr
            &&& t.active(id)
            &&& t.next_id() == id + 1
            &&& forall|other: u32| #[trigger]
                s.taloses.contains_key(other) ==> t.taloses.contains_key(other)
                    && t.taloses[other] == s.taloses[other]
        }),
{
}

/// No call takes a Talos away, or changes who created it, when, or under which name,
/// category and description.
pub proof fn law_taloses_keep_their_identity(
    s: RegistryView,
    e: InvocationView,
    call: RegistryCall,
    id: u32,
)
    requires
        s.ids_used_up(),
        s.taloses.contains_key(id),
    ensures
        s.step(e, call).taloses.contains_key(id),
        s.step(e, call).taloses[id].id == s.taloses[id].id,
        s.step(e, call).taloses[id].creator == s.taloses[id].creator,
        s.step(e, call).taloses[id].created_at == s.taloses[id].created_at,
        s.step(e, call).taloses[id].name == s.taloses[id].name,
        s.step(e, call).taloses[id].category == s.taloses[id].category,
        s.step(e, call).taloses[id].description == s.taloses[id].description,
{
}

/// A Talos that is inactive stays inactive, whatever is called.
pub proof fn law_deactivation_is_final(
    s: RegistryView,
    e: InvocationView,
    call: RegistryCall,
    id: u32,
)
    requires
        s.ids_used_up(),
        s.taloses.contains_key(id),
        !s.active(id),
    ensures
        !s.step(e, call).active(id),
{
}

/// Without the authorization of its creator, no call changes a Talos.
pub proof fn law_only_the_creator_changes_a_talos(
    s: RegistryView,
    e: InvocationView,
    call: RegistryCall,
    id: u32,
)
    requires
        s.ids_used_up(),
        s.taloses.contains_key(id),
        !e.authorized_by(s.taloses[id].creator),
    ensures
        s.step(e, call).taloses[id] == s.taloses[id],
{
}

/// Once there is an administrator, initializing is refused for good.
pub proof fn law_initialized_once(
    s: RegistryView,
    e: InvocationView,
    call: RegistryCall,
    later_e: InvocationView,
    wallet: Address,
)
    requires
        s.protocol_wallet is Some,
    ensures
        s.refusal(e, RegistryCall::Initialize { protocol_wallet: wallet }) == Some(
            RegistryError::AlreadyInitialized,
        ),
        s.step(e, call).refusal(
            later_e,
            RegistryCall::Initialize { protocol_wallet: wallet },
        ) == Some(RegistryError::AlreadyInitialized),
{
}

// ── Pauses ───────────────────────────────────────────────────────────

/// While a write path is paused, and only then, calls on it are refused for that
/// reason; calls that take none of these paths never are.
pub proof fn law_a_pause_blocks_its_path(s: RegistryView, e: InvocationView, call: RegistryCall)
    ensures
        s.refusal(e, call) == Some(RegistryError::Paused) <==> call.domain() is Some && s.paused(
            call.domain()->0,
            e.timestamp,
        ),
{
}

/// Pausing a path leaves every other path as it was, and everything that is read.
pub proof fn law_a_pause_touches_nothing_else(
    s: RegistryView,
    e: InvocationView,
    caller: Address,
    domain: PauseDomain,
    duration: u64,
)
    ensures
        ({
            let t = s.step(e, RegistryCall::Pause { caller, domain, duration });
            &&& forall|d: PauseDomain, now: u64|
                d != domain ==> #[trigger] t.paused(d, now) == s.paused(d, now)
            &&& forall|d: PauseDomain|
                d != domain ==> #[trigger] t.set_by_admin.contains(d) == s.set_by_admin.contains(d)
            &&& t == (RegistryView { pauses: t.pauses, set_by_admin: t.set_by_admin, ..s })
        }),
{
}

/// A pause is in force from the call until it ends: for ever, if the administrator set
/// it without an end, else for as long as was asked.
pub proof fn law_a_pause_lasts_as_asked(
    s: RegistryView,
    e: InvocationView,
    caller: Address,
    domain: PauseDomain,
    duration: u64,
    now: u64,
)
    requires
        s.pause_refusal(e, caller, domain, duration) is None,
    ensures
        s.step(e, RegistryCall::Pause { caller, domain, duration }).paused(domain, now) <==> (
        duration == 0 || now < later(e.timestamp, duration)),
{
}

/// A guardian cannot pause without an end, nor for longer than the guardians' limit.
pub proof fn law_a_guardians_pause_is_bounded(
    s: RegistryView,
    e: InvocationView,
    caller: Address,
    domain: PauseDomain,
    duration: u64,
    now: u64,
)
    requires
        s.protocol_wallet != Some(caller),
        s.pause_refusal(e, caller, domain, duration) is None,
        now >= e.timestamp + MAX_GUARDIAN_PAUSE_SECS,
    ensures
        s.guardians.contains(caller),
        s.step(e, RegistryCall::Pause { caller, domain, duration }).pauses[domain].expires_at != 0,
        !s.step(e, RegistryCall::Pause { caller, domain, duration }).paused(domain, now),
{
}

/// Without the administrator's authorization no record of a pause goes away, and none
/// that the administrator in office or one before has set changes. One that was set as
/// an administrator's goes on counting as such, whoever comes into office.
pub proof fn law_the_administrators_pause_stands(
    s: RegistryView,
    e: InvocationView,
    call: RegistryCall,
    domain: PauseDomain,
)
    requires
        s.admin_refusal(e) is Some,
        s.pauses.contains_key(domain),
    ensures
        s.step(e, call).pauses.contains_key(domain),
        s.locked_by_admin(domain) ==> s.step(e, call).pauses[domain] == s.pauses[domain],
        s.set_by_admin.contains(domain) ==> s.step(e, call).set_by_admin.contains(domain),
{
}

/// Who is not the administrator cannot replace a pause that the administrator in office
/// or one before has set, whoever else has authorized the call; a guardian is told that
/// it is locked.
pub proof fn law_guardians_leave_an_administrators_pause(
    s: RegistryView,
    e: InvocationView,
    caller: Address,
    domain: PauseDomain,
    duration: u64,
)
    requires
        s.protocol_wallet != Some(caller),
        s.locked_by_admin(domain),
    ensures
        s.step(e, RegistryCall::Pause { caller, domain, duration }) == s,
        s.protocol_wallet is Some && e.authorized_by(caller) && s.guardians.contains(caller)
            ==> s.refusal(e, RegistryCall::Pause { caller, domain, duration }) == Some(
            RegistryError::LockedByAdmin,
        ),
{
}

/// A pause is marked as the administrator's exactly if it was the administrator who set
/// it; a handover of the office changes no mark and no record.
pub proof fn law_a_pause_keeps_its_origin(
    s: RegistryView,
    e: InvocationView,
    caller: Address,
    domain: PauseDomain,
    duration: u64,
    handover: InvocationView,
)
    requires
        s.pause_refusal(e, caller, domain, duration) is None,
    ensures
        ({
            let t = s.step(e, RegistryCall::Pause { caller, domain, duration });
            let u = t.step(handover, RegistryCall::AcceptAdmin);
            &&& t.set_by_admin.contains(domain) <==> s.protocol_wallet == Some(caller)
            &&& u.set_by_admin == t.set_by_admin
            &&& u.pauses == t.pauses
        }),
{
}

/// Lifting a pause twice is lifting it once.
pub proof fn law_unpause_is_idempotent(
    s: RegistryView,
    first: InvocationView,
    second: InvocationView,
    domain: PauseDomain,
)
    requires
        first.timestamp <= second.timestamp,
    ensures
        ({
            let call = RegistryCall::Unpause { domain };
            s.refusal(first, call) is None ==> s.step(first, call).step(second, call) == s.step(
                first,
                call,
            ) && !s.step(first, call).paused(domain, first.timestamp)
        }),
{
}

// ── Guardians ────────────────────────────────────────────────────────

/// Who has been added is a guardian; adding again changes nothing.
pub proof fn law_add_guardian(
    s: RegistryView,
    first: InvocationView,
    second: InvocationView,
    guardian: Address,
)
    requires
        s.add_guardian_refusal(first, guardian) is None,
    ensures
        ({
            let call = RegistryCall::AddGuardian { guardian };
            &&& s.step(first, call).guardians.contains(guardian)
            &&& s.step(first, call).step(second, call) == s.step(first, call)
            &&& forall|a: Address|
                a != guardian ==> (#[trigger] s.step(first, call).guardians.contains(a)
                    <==> s.guardians.contains(a))
        }),
{
    let t = s.add_guardian_effect(guardian);
    if !s.guardians.contains(guardian) {
        assert(t.guardians[s.guardians.len() as int] == guardian);
        assert forall|a: Address| a != guardian implies (#[trigger] t.guardians.contains(a)
            <==> s.guardians.contains(a)) by {
            if s.guardians.contains(a) {
                let i = choose|i: int| 0 <= i < s.guardians.len() && s.guardians[i] == a;
                assert(t.guardians[i] == a);
            }
        }
    }
}

/// Who has been removed is no guardian; removing again changes nothing.
pub proof fn law_remove_guardian(
    s: RegistryView,
    first: InvocationView,
    second: InvocationView,
    guardian: Address,
)
    requires
        s.admin_refusal(first) is None,
    ensures
        ({
            let call = RegistryCall::RemoveGuardian { guardian };
            &&& !s.step(first, call).guardians.contains(guardian)
            &&& s.step(first, call).step(second, call) == s.step(first, call)
            &&& s.step(first, call).pauses == s.pauses
            &&& forall|a: Address|
                a != guardian ==> (#[trigger] s.step(first, call).guardians.contains(a)
                    <==> s.guardians.contains(a))
        }),
{
    let t = s.remove_guardian_effect(guardian);
    lemma_without(s.guardians, guardian);
    assert(!t.guardians.contains(guardian));
    lemma_without(t.guardians, guardian);
    assert(t.remove_guardian_effect(guardian) =~= t);
}

/// Removing a guardian who has just been added undoes the addition.
pub proof fn law_removal_undoes_addition(
    s: RegistryView,
    first: InvocationView,
    second: InvocationView,
    guardian: Address,
)
    requires
        !s.guardians.contains(guardian),
        s.add_guardian_refusal(first, guardian) is None,
        s.admin_refusal(second) is None,
    ensures
        s.step(first, RegistryCall::AddGuardian { guardian }).step(
            second,
            RegistryCall::RemoveGuardian { guardian },
        ) == s,
{
    let t = s.add_guardian_effect(guardian);
    lemma_without(s.guardians, guardian);
    assert(t.guardians.drop_last() =~= s.guardians);
    assert(without(t.guardians, guardian) == without(s.guardians, guardian)) by {
        reveal(Seq::filter);
    }
    assert(t.remove_guardian_effect(guardian) =~= s);
}

// ── Administration ───────────────────────────────────────────────────

/// What is reserved to the administrator does nothing without the administrator's
/// authorization.
pub proof fn law_admin_calls_need_the_admin(
    s: RegistryView,
    e: InvocationView,
    call: RegistryCall,
)
    requires
        call.admin_only(),
        s.protocol_wallet is None || !e.authorized_by(s.protocol_wallet->0),
    ensures
        s.refusal(e, call) is Some,
        s.step(e, call) == s,
{
}

/// The administrator changes in two ways only: the registry is initialized, or the
/// nominee accepts.
pub proof fn law_administrator_changes_by_consent(
    s: RegistryView,
    e: InvocationView,
    call: RegistryCall,
)
    requires
        s.step(e, call).protocol_wallet != s.protocol_wallet,
    ensures
        s.step(e, call).protocol_wallet is Some,
        if s.protocol_wallet is None && call is Initialize {
            s.step(e, call).protocol_wallet == Some(call->Initialize_protocol_wallet)
        } else {
            &&& call is AcceptAdmin
            &&& s.step(e, call).protocol_wallet == s.pending_admin
            &&& e.authorized_by(s.pending_admin->0)
            &&& s.step(e, call).pending_admin is None
        },
{
}

/// A nomination leaves the administrator in office; once the nominee accepts, the
/// nominee is the administrator and nobody is nominated.
pub proof fn law_transfer_in_two_steps(
    s: RegistryView,
    first: InvocationView,
    second: InvocationView,
    nominee: Address,
)
    requires
        s.direct_refusal(first) is None,
    ensures
        ({
            let nominated = s.step(first, RegistryCall::ProposeAdmin { new_admin: nominee });
            let accepted = nominated.step(second, RegistryCall::AcceptAdmin);
            &&& nominated.protocol_wallet == s.protocol_wallet
            &&& nominated.pending_admin == Some(nominee)
            &&& if second.authorized_by(nominee) {
                accepted.protocol_wallet == Some(nominee) && accepted.pending_admin is None
            } else {
                accepted == nominated
            }
        }),
{
}

/// Of two nominations only the second counts.
pub proof fn law_nomination_replaces_nomination(
    s: RegistryView,
    first: InvocationView,
    second: InvocationView,
    third: InvocationView,
    one: Address,
    other: Address,
)
    requires
        s.direct_refusal(first) is None,
        s.direct_refusal(second) is None,
        !third.authorized_by(other),
    ensures
        ({
            let t = s.step(first, RegistryCall::ProposeAdmin { new_admin: one }).step(
                second,
                RegistryCall::ProposeAdmin { new_admin: other },
            );
            &&& t.pending_admin == Some(other)
            &&& t.refusal(third, RegistryCall::AcceptAdmin) == Some(
                RegistryError::Unauthorized(other),
            )
        }),
{
}

/// Once the transfer is cancelled, the nominee can no longer accept; cancelling undoes
/// the nomination.
pub proof fn law_cancelled_transfer_is_void(
    s: RegistryView,
    first: InvocationView,
    second: InvocationView,
    third: InvocationView,
    nominee: Address,
)
    requires
        s.pending_admin is None,
        s.direct_refusal(first) is None,
        s.admin_refusal(second) is None,
    ensures
        ({
            let t = s.step(first, RegistryCall::ProposeAdmin { new_admin: nominee }).step(
                second,
                RegistryCall::CancelAdminTransfer,
            );
            &&& t == s
            &&& t.refusal(third, RegistryCall::AcceptAdmin) == Some(RegistryError::NoPendingAdmin)
        }),
{
    let t = s.propose_admin_effect(nominee).cancel_admin_transfer_effect();
    assert(t =~= s);
}

/// Once a transfer is cancelled, however the nomination came about, nobody is nominated,
/// and nobody can accept; nothing else has changed.
pub proof fn law_cancelling_ends_any_nomination(
    s: RegistryView,
    e: InvocationView,
    after: InvocationView,
)
    requires
        s.refusal(e, RegistryCall::CancelAdminTransfer) is None,
    ensures
        ({
            let t = s.step(e, RegistryCall::CancelAdminTransfer);
            &&& t == (RegistryView { pending_admin: None, ..s })
            &&& t.refusal(after, RegistryCall::AcceptAdmin) == Some(RegistryError::NoPendingAdmin)
        }),
{
}

/// A nomination that an executed proposal has made can be cancelled like a direct one,
/// and then the nominee cannot accept.
pub proof fn law_scheduled_nominations_can_be_cancelled(
    s: RegistryView,
    first: InvocationView,
    second: InvocationView,
    third: InvocationView,
    id: u64,
)
    requires
        s.execute_action_refusal(first, id) is None,
        s.proposals[id].action is ProposeAdmin,
        s.admin_refusal(second) is None,
    ensures
        ({
            let nominated = s.step(first, RegistryCall::ExecuteAction { proposal_id: id });
            let t = nominated.step(second, RegistryCall::CancelAdminTransfer);
            &&& nominated.pending_admin == Some(s.proposals[id].action->ProposeAdmin_0)
            &&& nominated.refusal(second, RegistryCall::CancelAdminTransfer) is None
            &&& t.pending_admin is None
            &&& t.protocol_wallet == s.protocol_wallet
            &&& t.refusal(third, RegistryCall::AcceptAdmin) == Some(RegistryError::NoPendingAdmin)
        }),
{
}

/// Where nobody is nominated, nobody can accept, and that stays so under every call that
/// does not nominate.
pub proof fn law_only_a_nomination_opens_a_transfer(
    s: RegistryView,
    e: InvocationView,
    call: RegistryCall,
    after: InvocationView,
)
    requires
        s.pending_admin is None,
        !s.nominates(call),
    ensures
        s.refusal(e, RegistryCall::AcceptAdmin) == Some(RegistryError::NoPendingAdmin),
        s.step(e, call).pending_admin is None,
        s.step(e, call).refusal(after, RegistryCall::AcceptAdmin) == Some(
            RegistryError::NoPendingAdmin,
        ),
{
}

// ── Fee ──────────────────────────────────────────────────────────────

/// The fee on an amount is at least nothing and at most the amount, and grows with it.
pub proof fn law_fee_is_a_part(s: RegistryView, amount: i128, more: i128)
    requires
        s.sound(),
        0 <= amount <= more,
    ensures
        0 <= s.protocol_fee(amount) <= amount,
        s.protocol_fee(amount) <= s.protocol_fee(more),
        s.protocol_fee(0) == 0,
{
    let bps = s.fee_bps() as int;
    let (a, b) = (amount as int, more as int);
    assert(0 <= a * bps <= a * 10_000) by (nonlinear_arith)
        requires
            0 <= a,
            0 <= bps <= 10_000,
    ;
    assert(a * bps <= b * bps) by (nonlinear_arith)
        requires
            a <= b,
            0 <= bps,
    ;
    assert(0 * bps == 0) by (nonlinear_arith);
}

/// The fee can be computed on every amount that leaves room for the multiplication.
pub proof fn law_fee_is_computed(s: RegistryView, amount: i128)
    requires
        s.sound(),
        0 <= amount <= i128::MAX / 10_000,
    ensures
        s.protocol_fee_refusal(amount) is None,
{
    let bps = s.fee_bps() as int;
    let a = amount as int;
    assert(a * bps <= a * 10_000) by (nonlinear_arith)
        requires
            0 <= a,
            0 <= bps <= 10_000,
    ;
}

// ── Timelock ─────────────────────────────────────────────────────────

/// What has been executed or cancelled stays so, and is not done again.
pub proof fn law_settled_proposals_are_final(
    s: RegistryView,
    e: InvocationView,
    call: RegistryCall,
    id: u64,
)
    requires
        s.sound(),
        s.proposals.contains_key(id),
        s.proposals[id].status != ProposalStatus::Scheduled,
    ensures
        s.step(e, call).proposals.contains_key(id),
        s.step(e, call).proposals[id] == s.proposals[id],
        s.refusal(e, RegistryCall::ExecuteAction { proposal_id: id }) == Some(
            RegistryError::ProposalNotActive,
        ),
        s.refusal(e, RegistryCall::CancelAction { proposal_id: id }) == (match s.admin_refusal(e) {
            Some(error) => Some(error),
            None => Some(RegistryError::ProposalNotActive),
        }),
{
}

/// An action that has been executed cannot be executed again, nor one that has been
/// cancelled.
pub proof fn law_an_action_is_settled_once(
    s: RegistryView,
    first: InvocationView,
    second: InvocationView,
    call: RegistryCall,
    id: u64,
)
    requires
        call == (RegistryCall::ExecuteAction { proposal_id: id }) || call
            == (RegistryCall::CancelAction { proposal_id: id }),
        s.refusal(first, call) is None,
    ensures
        s.step(first, call).refusal(second, RegistryCall::ExecuteAction { proposal_id: id })
            == Some(RegistryError::ProposalNotActive),
        s.step(first, call).refusal(second, RegistryCall::CancelAction { proposal_id: id }) is Some,
{
}

/// The id of a proposal, its action, when it is due, and who scheduled it and when never
/// change.
pub proof fn law_proposals_keep_their_terms(
    s: RegistryView,
    e: InvocationView,
    call: RegistryCall,
    id: u64,
)
    requires
        s.sound(),
        s.proposals.contains_key(id),
    ensures
        s.step(e, call).proposals.contains_key(id),
        s.step(e, call).proposals[id].id == s.proposals[id].id,
        s.step(e, call).proposals[id].action == s.proposals[id].action,
        s.step(e, call).proposals[id].eta == s.proposals[id].eta,
        s.step(e, call).proposals[id].scheduled_at == s.proposals[id].scheduled_at,
        s.step(e, call).proposals[id].scheduled_by == s.proposals[id].scheduled_by,
{
}

/// An action is executed only once it is due, and not after its grace period.
pub proof fn law_execution_has_a_window(s: RegistryView, e: InvocationView, id: u64)
    requires
        s.execute_action_refusal(e, id) is None,
    ensures
        s.proposals[id].eta <= e.timestamp <= s.proposals[id].eta + s.timelock().grace_period,
        s.proposals[id].status == ProposalStatus::Scheduled,
{
}

/// A new proposal gets an id that no other has, and cannot be executed before the least
/// delay of the timelock is over.
pub proof fn law_scheduling_honours_the_delay(
    s: RegistryView,
    e: InvocationView,
    action: AdminAction,
    delay: u64,
    early: InvocationView,
)
    requires
        s.sound(),
        s.schedule_action_refusal(e, delay) is None,
        early.timestamp < e.timestamp + s.timelock().min_delay,
        early.timestamp < u64::MAX,
    ensures
        ({
            let id = s.next_proposal_id();
            let t = s.step(e, RegistryCall::ScheduleAction { action, delay });
            &&& !s.proposals.contains_key(id)
            &&& t.proposals.contains_key(id)
            &&& t.proposals[id].action == action
            &&& t.refusal(early, RegistryCall::ExecuteAction { proposal_id: id }) == Some(
                RegistryError::DelayNotMet,
            )
        }),
{
}

/// While a least delay is configured, the fee of a registry changes only by executing a
/// proposal to that end, within its window, and so does the nominee, unless the
/// transfer is accepted or cancelled.
pub proof fn law_no_way_round_the_delay(s: RegistryView, e: InvocationView, call: RegistryCall)
    requires
        s.protocol_wallet is Some,
        s.timelock().min_delay > 0,
    ensures
        s.step(e, call).protocol_fee_bps != s.protocol_fee_bps ==> {
            &&& call is ExecuteAction
            &&& s.execute_action_refusal(e, call->ExecuteAction_proposal_id) is None
            &&& s.proposals[call->ExecuteAction_proposal_id].action is SetProtocolFee
        },
        s.step(e, call).pending_admin != s.pending_admin ==> call is AcceptAdmin
            || call is CancelAdminTransfer || {
            &&& call is ExecuteAction
            &&& s.execute_action_refusal(e, call->ExecuteAction_proposal_id) is None
            &&& s.proposals[call->ExecuteAction_proposal_id].action is ProposeAdmin
        },
{
}

/// Executing a proposal does what the direct call does, and marks the proposal.
pub proof fn law_execution_is_the_action(s: RegistryView, e: InvocationView, id: u64)
    requires
        s.execute_action_refusal(e, id) is None,
    ensures
        s.step(e, RegistryCall::ExecuteAction { proposal_id: id }) == (match s.proposals[id].action {
            AdminAction::SetProtocolFee(fee_bps) => s.set_protocol_fee_effect(fee_bps),
            AdminAction::ProposeAdmin(new_admin) => s.propose_admin_effect(new_admin),
        }).with_status(id, ProposalStatus::Executed),
{
}

// ── Assets ───────────────────────────────────────────────────────────

/// An asset that has been allowed is admitted until it is disallowed; no other asset is
/// touched, and doing either twice is doing it once.
pub proof fn law_assets(
    s: RegistryView,
    first: InvocationView,
    second: InvocationView,
    asset: Address,
    other: Address,
)
    requires
        other != asset,
        s.admin_refusal(first) is None,
    ensures
        ({
            let allowed = s.step(first, RegistryCall::AllowAsset { asset });
            let denied = s.step(first, RegistryCall::DisallowAsset { asset });
            &&& allowed.assets.contains(asset)
            &&& !denied.assets.contains(asset)
            &&& allowed.assets.contains(other) == s.assets.contains(other)
            &&& denied.assets.contains(other) == s.assets.contains(other)
            &&& allowed.step(second, RegistryCall::AllowAsset { asset }) == allowed
            &&& denied.step(second, RegistryCall::DisallowAsset { asset }) == denied
        }),
{
    let allowed = s.allow_asset_effect(asset);
    let denied = s.disallow_asset_effect(asset);
    assert(allowed.allow_asset_effect(asset) =~= allowed);
    assert(denied.disallow_asset_effect(asset) =~= denied);
}

} // verus!
