# csv_adapter

Verified core of a client-side-validation protocol for moving sanads
(single-use-seal assets) between chains.

- `src/` is the library, written in Verus: every function there carries a
  contract that Verus proves, except a few small trusted wrappers (SHA-256,
  the two signature schemes, the system clock, lowercasing, JSON-RPC reply
  parsing) whose contracts Verus takes on trust. The protocol's decisions live here — proof
  bundle checks, the ten-step validation pipeline, the transfer
  coordinator, replay protection, RPC quorum decisions, the Sui and Solana
  verifiers' rules.
- Where a decision waits on the network (a chain verifier, an adapter, an
  RPC provider), the library exposes it as a state machine: it names the
  next operation, takes the reply, and decides.
- `app/` is ordinary Rust around it: HTTP JSON-RPC queries, the
  asynchronous drivers of those state machines, the chains' RPC lookups and
  the bincode wire form of proof bundles.
- `tests/` exercises the library from outside.

Signature checks go through `secp256k1` and `ed25519-dalek`. The bundle
verifier checks owner signatures under either scheme, and the Sui and Solana
verifiers check Ed25519 signatures; these two crates do the curve arithmetic
behind small trusted wrappers whose contracts name their verdicts, and the
library decides everything around them.
