# pulsar_contracts

The ledger rules of three PulsarTrack contracts on Stellar, verified with Verus:

- `recurring_payment`: payments that are made again and again, out of an
  allowance, at intervals of at most a year;
- `timelock_executor`: governance decisions that wait in a queue before they are
  carried out, and lapse when they are not;
- `wrapped_token`: tokens of other chains, minted and burned on the word of a
  relayer.

## How a contract is stated

A contract is a struct that holds its ledger. A call changes the ledger and
returns an `Outcome`: the requests that it makes of the host, in order (renewals,
authorizations, storage, calls of other contracts, events), and the value that it
returns or the error that it fails with. The host undoes all of a failing call,
so the ledger is then the old one.

In each contract, `model.rs` says what every call comes to, and the functions of
the contract are proved to do just that. `laws.rs` states and proves what follows
for any run of calls: that a payment is made at most once in an interval, that an
operation is executed at most once and never before its time, that a transaction
of another chain is minted at most once, and so on.

## Layout

- `src/`: the verified library. `address`, `bytes`, `table` and `host` are shared;
  `operation` encodes and hashes what the timelock queues, with `soroban_sdk`.
- `app/`: the Soroban contracts around the library. They load ledger entries,
  call the library and carry out what it asks for.
- `tests/`: the library at work on concrete values.
