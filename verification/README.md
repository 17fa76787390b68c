# bluecollar

Contracts for a marketplace of tradespeople, with their rules verified in
[Verus](https://github.com/verus-lang/verus).

- **payment**: direct payments less a protocol fee, and payments locked for a job milestone.
- **market**: tips, escrows, multi-signature escrows and arbitration.
- **registry**: workers, curators, reputation, stakes, badges and timelocked upgrades.

## How a contract is written

A contract is a plain struct that holds what it keeps in storage. An entry point is a method on
it. It never touches the host: it reads the time, the ledger and its own address from `host::Env`,
and appends what it wants done (authorisations, writes, transfers, events) to `Env::calls`. Its
contract says, for every state and every argument, what it answers, what it leaves in storage, and
which calls it asked for, in order.

Each contract has a `laws` module with what holds across calls; the registry's laws on its lists
and on ratings stand in `listings` and `ratings`. Among them:

- Locked funds are covered by what the contract has received, unless the contract's own account
  pays, a transfer is negative, or a dispute is decided over an escrow whose funds have gone.
- A locked payment is settled once. An escrow whose funds have gone stays as it is, unless a dispute
  over it is decided.
- The terms of payments and escrows never change. The owner of a worker changes only where the
  worker is registered or deregistered.
- The list of workers holds the ids of those who are registered, each once.
- A review makes a worker's average rating that of all ratings, in whatever order they came.
- While the market or the registry is paused, every call that changes the state, but initialising,
  pausing and unpausing, is refused. While the payment contract is paused, no tokens move and no
  payment changes.

## Layout

- `src/`: the verified library. `values`, `table`, `list` and `ledger` are what the contracts are
  made of; `roles` and `fees` are what they share.
- `tests/`: the contracts, run against a small ledger.
- `app/`: the contracts on Soroban. It reads the entries that an entry point needs, runs it, and
  does what was asked for. A build for wasm holds the one contract that it names, as in
  `--cfg contract="market"`.
