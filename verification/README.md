# fundraiser

A token crowdfunding program for Solana, written as a Verus library.

A maker opens a fundraiser for a mint with a target and a duration in days.
Contributors move tokens into the fundraiser's vault, each up to a tenth of the
target in all, while the fundraiser runs. Once the vault holds the target, the
maker collects it and closes the fundraiser; once the fundraiser has ended below
its target, each contributor takes back what they gave.

- `src/` decides every instruction over snapshots of its accounts and sysvars and
  answers with a `Plan`: the effects to carry out, in order, and the outcome.
  Account layouts, the seeds of every derived address, the checks and the
  effects' own updates are verified; the program-address search itself (a hash
  and a curve test) is the address crate's, trusted behind one wrapper.
  `src/laws.rs`, `src/guarantees.rs` and `src/accounting.rs` hold the proved
  properties.
- `app/` is the on-chain entrypoint: it takes the snapshots, asks the library,
  and performs the effects through cross-program invocations.
