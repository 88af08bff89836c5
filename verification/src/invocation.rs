//! What an entry point learns of the call it serves, and what it publishes.

use vstd::prelude::*;

use crate::address::{contains_address, Address};
use crate::event::Event;

verus! {

/// One invocation of an entry point: the ledger time, the addresses that have
/// authorized it, and the events published so far.
pub struct Invocation {
    pub timestamp: u64,
    pub authorized: Vec<Address>,
    pub events: Vec<Event>,
}

#[verifier::ext_equal]
pub struct InvocationView {
    pub timestamp: u64,
    pub authorized: Seq<Address>,
    pub events: Seq<Event>,
}

impl View for Invocation {
    type V = InvocationView;

    open spec fn view(&self) -> InvocationView {
        InvocationView {
            timestamp: self.timestamp,
            authorized: self.authorized@,
            events: self.events@,
        }
    }
}

impl InvocationView {
    /// Whether `address` has authorized the invocation.
    pub open spec fn authorized_by(self, address: Address) -> bool {
        self.authorized.contains(address)
    }

    /// The invocation after `event` has been published.
    pub open spec fn emit(self, event: Event) -> Self {
        InvocationView { events: self.events.push(event), ..self }
    }
}

impl Invocation {
    /// An invocation at ledger time `timestamp`, authorized by `authorized`.
    pub fn new(timestamp: u64, authorized: Vec<Address>) -> (r: Self)
        ensures
            r@ == (InvocationView {
                timestamp,
                authorized: authorized@,
                events: Seq::empty(),
            }),
    {
        Invocation { timestamp, authorized, events: Vec::new() }
    }

    pub fn is_authorized_by(&self, address: Address) -> (r: bool)
        ensures
            r == self@.authorized_by(address),
    {
        contains_address(&self.authorized, address)
    }

    pub fn publish(&mut self, event: Event)
        ensures
            final(self)@ == old(self)@.emit(event),
    {
        self.events.push(event);
    }
}

/// What an entry point does, all in one: where there is a reason to refuse, it is
/// returned and nothing else happens; otherwise the call returns `value`, and the
/// state and the invocation are what `done` says.
pub open spec fn settles<S, T, E>(
    refusal: Option<E>,
    result: Result<T, E>,
    before: (S, InvocationView),
    after: (S, InvocationView),
    value: T,
    done: (S, InvocationView),
) -> bool {
    match refusal {
        Some(error) => result == Err::<T, E>(error) && after == before,
        None => result == Ok::<T, E>(value) && after == done,
    }
}

/// Who has authorized an invocation is on its list; publishing an event puts it behind the
/// events before it, and changes neither the time nor the authorizations.
pub proof fn law_invocations(e: InvocationView, address: Address, event: Event)
    ensures
        e.authorized_by(address) <==> exists|i: int|
            0 <= i < e.authorized.len() && #[trigger] e.authorized[i] == address,
        e.emit(event).events.len() == e.events.len() + 1,
        e.emit(event).events.last() == event,
        e.emit(event).events.drop_last() == e.events,
        e.emit(event).timestamp == e.timestamp,
        e.emit(event).authorized == e.authorized,
{
    assert(e.emit(event).events.drop_last() =~= e.events);
}

/// A call is refused with the reason there is, and then nothing has happened; where there
/// is none it goes through, with the value and the outcome that it owes.
pub proof fn law_settling<S, T, E>(
    refusal: Option<E>,
    result: Result<T, E>,
    before: (S, InvocationView),
    after: (S, InvocationView),
    value: T,
    done: (S, InvocationView),
)
    requires
        settles(refusal, result, before, after, value, done),
    ensures
        result is Err <==> refusal is Some,
        refusal is Some ==> result->Err_0 == refusal->0,
        refusal is Some ==> after.0 == before.0 && after.1 == before.1,
        refusal is None ==> result->Ok_0 == value,
        refusal is None ==> after.0 == done.0 && after.1 == done.1,
{
}

} // verus!
