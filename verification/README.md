# nevo

A verified model of the Nevo education-funding contract for Soroban:
donation pools, school registration, student applications and claims,
creation fees, refunds and emergency withdrawals, with a small campaign
registry beside it.

## Layout

- `src/` — the library, verified with Verus.
  - `types.rs`: addresses, states, errors with their reported codes, events,
    and the effects (authorizations, token transfers, events) that a call
    asks the host to carry out.
  - `pool.rs`: one pool and its mathematical view.
  - `model.rs`: the contract's state as mathematics, and each entry point as
    a function from state and inputs to an error or a new state with effects.
  - `contract.rs`: the executable contract; each entry point is proved to
    behave as its counterpart in `model.rs`, and to leave the state untouched
    when it fails.
  - `campaigns.rs`: the campaign registry.
  - `laws.rs`: properties proved of every reachable state and of sequences
    of calls (the pool-id sequence, claims never passing what was collected,
    the donor count, totals as sums of contributions, refunds undoing
    donations and paying back in the donated token, and more).
- `tests/` — the contract's test suite, run against the library through a
  small in-memory host, and further tests of the rules.
- `app/` — the Soroban contract itself: it keeps the state in contract
  storage (the pool count and pending emergency withdrawals under persistent
  keys of their own), reads the ledger time and sequence, and performs the effects that
  the library returns (authorization checks, token transfers, events).
