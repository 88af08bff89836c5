# Talos contracts

Smart contracts for autonomous agents ("Taloses") on Soroban, with a library that is
verified by Verus:

- a **registry** of Taloses: creation, updates by their creators, the protocol fee, a
  two-step transfer of the administrator's office, delayed administrative actions, and
  pauses of single write paths by the administrator or by guardians;
- a **name service** that gives a Talos a human-readable name, for a fee if one is set;
- an **allowlist** of assets.

## Layout

- `src/` is the library. A contract is a plain value, an entry point a method on it.
  For each entry point the `model` modules say when it is refused and what it does; the
  methods are proved to do just that. The `laws` modules prove what holds across calls.
  `src/host.rs` holds what is taken on trust from `soroban_sdk`.
- `app/` puts the library on the ledger: storage, signatures, events, calls of other
  contracts, token transfers.
- `tests/` runs the library.
