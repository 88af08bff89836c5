//! The Talos contracts: a registry of autonomous agents ("Taloses"), a name service for
//! them, and an allowlist of assets.
//!
//! A contract is a plain value, and an entry point a method on it. Ledger time, signatures
//! and events go through an [`invocation::Invocation`]; what another contract replies is an
//! argument. A call that is refused returns the reason and changes nothing.
//!
//! What a contract does is stated over its view, by two functions for each entry point: one
//! gives the reason to refuse the call, the other the state after it. On top of these,
//! `outcomes` and `grounds` state field by field what each call brings about and when it is
//! refused, and `laws` what holds across calls.

pub mod address;
pub mod allowlist;
pub mod event;
pub mod host;
pub mod invocation;
pub mod names;
pub mod pause;
pub mod registry;
pub mod roster;
pub mod talos;
pub mod timelock;
