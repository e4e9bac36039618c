# luckietoken

Verified core of a hold-to-win token program on Solana: transfer fees feed a
prize vault, draws fix a prize, and the prize is pushed to a winner whose
address is proven, by a Merkle proof, to be in a committed holder snapshot.

- `src/` is the library, verified with Verus:
  - `codec.rs`: byte order on keys, key comparison, byte appending;
  - `merkle.rs`: domain-separated leaf and node hashing, proof checking, and
    the laws of the tree (commutative pairing, domain separation, proof
    extension);
  - `token.rs`: raw token-account checks and reads, the `TransferChecked`
    instruction;
  - `state.rs`, `events.rs`, `error.rs`: the program's state, events and
    errors;
  - `program.rs`: every instruction as a function from state and account
    data to the next state, the event and, for token movements, the transfer
    to invoke;
  - `laws.rs`: properties that span instructions.
- `app/` is the Anchor program around it: accounts, clock reads, token
  program invocations, event emission.
- `tests/` runs the library on concrete values.
