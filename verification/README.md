# program_escrow

Verified role management for a program escrow contract: two-step rotation of
the contract admin and of each program's controller (its authorized payout
key) behind a 24-hour time-lock and a 30-day acceptance window, and direct
payout-key rotation restricted to the current key or the admin, with a nonce
against replays.

- `src/` is the library, verified with Verus. `model.rs` gives the meaning of
  every entry point as a transition of the abstract state; `contract.rs`
  implements the entry points over the contract's storage and proves each one
  equal to its transition; `laws.rs` proves properties of the contract as a
  whole: the time-lock, cancellation, who may propose, cancel and accept
  admin and controller rotations and who may rotate a payout key, nonce
  replay, and isolation between programs.
- `app/` is the Soroban contract around the library: it loads and stores
  instance storage, asks the host to check the signature of the account that
  it hands to the library as the caller, reads the ledger time and publishes
  events.
- `tests/` runs the library on concrete scenarios.
