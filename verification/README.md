# troit_escrow

An escrow for marketplace orders, written in Verus. A buyer opens an escrow
for an order and funds it; the funds then go to the seller (release), back to
the buyer (refund), or, once the buyer or seller disputes the escrow, wherever
the admin decides.

Layout:

- `src/` — the verified library.
  - `types.rs`, `errors.rs`, `events.rs`: addresses (by strkey), escrow
    records and states, storage keys, errors and published events.
  - `rules.rs`: what each operation decides from the storage entries it
    reads: whose authorization it demands, the storage entries to write, the
    tokens to move and the event to publish, or the error.
  - `contract.rs`: `TroitEscrowContract`, the whole contract over an
    in-memory storage that changes only by the decided writes, with the
    storage invariant as a type invariant.
  - `laws.rs`: properties across operations (the storage invariant on every
    reachable state, refusals change nothing, settled escrows are final,
    terms never change, custody of funds per operation and over a whole run,
    authorization, one escrow per order).
- `app/` — the Soroban contract: reads host storage, calls the rules, and
  performs the decided authorization, token transfers, storage writes and
  events.
- `tests/` — the contract's scenarios run against the library.
