# StreamPay, verified

StreamPay is a payment-streaming contract for Stellar's Soroban platform: a
sender escrows an amount of a token and the contract releases it to a
recipient linearly over a time window. The recipient withdraws what has
vested; either party can cancel, which pays the recipient what vested and
refunds the sender the rest. An administrator sets a cap on the total
amount held in escrow. The role passes to another account through a one-day
timelock, or at once when the current administrator calls `set_admin`.

## Layout

- `src/` is the library, verified with Verus. Every rule of the contract lives
  here as a step from the contract's state to either an error, which changes
  nothing (the caller's authorization is still demanded before the checks),
  or a new state plus the effects that the ledger must carry out:
  authorizations, token transfers, storage time-to-live extensions, code
  updates and events.
  - `vesting.rs`: the vesting arithmetic and its laws (bounds, monotonicity,
    vested plus unvested equals the total).
  - `config.rs`: the singleton configuration and the rule of each
    entrypoint, stated as `*_step` spec functions that the executable
    methods are proved to follow.
  - `contract.rs`: the whole contract as one value, with the invariant that
    the escrow it accounts for is the unpaid balance of its active streams.
  - `laws.rs`: properties spanning several entrypoints or several calls:
    the tokens each call moves match the change of the escrow it accounts
    for; a cancellation pays out exactly what its stream still holds and
    never lowers the withdrawn amount; the admin timelock holds across any
    calls other than a new scheduling, a cancellation or `set_admin` (which
    hands the role over at once); the stream counter counts the streams
    opened and never decreases; withdrawals drain;
    streams that leave the active status are final; extensions only slow
    vesting.
  - `views.rs`, `normalize.rs`, `constants.rs`, `storage.rs`, `effects.rs`,
    `types.rs`, `error.rs`: queries, input normalization, limits, storage
    keys, effects, data types and errors.
- `app/` is the Soroban contract around the library: it reads storage,
  converts addresses, calls the library and carries out the effects.
- `tests/` drives the library through a small stand-in for the ledger.

## Resource Costs

Each state-changing entrypoint touches the instance storage entry and at
most one persistent stream entry, except `create_stream_batch`, which writes
one entry per request. Token movements per call: one escrow transfer for
`create_stream`, `create_stream_batch` and `top_up`; one payout for
`withdraw`; up to two payouts for `cancel`. Vesting arithmetic is constant
time; only batch creation loops, once over its requests.
