# cbmt

Verified planning logic for the Core BPF migration test tool, which checks
that Solana builtin programs (address-lookup-table, config, feature-gate,
token) behave the same after their migration to Core BPF programs.

- `src/` is the library, verified with Verus: program names and addresses
  (`program`, `address`), path joining and text search (`text`), the
  commands and steps that drive Firedancer's conformance harness
  (`command`, `conformance`), the genesis accounts of the test validator
  (`genesis`), the epoch wait (`epoch`), the banners (`output`) and the
  command-line decisions (`cli`).
- `app/` is the program around it: argument parsing, running commands,
  RPC calls, the test validator and terminal output.
- `tests/` runs the library against the Solana crates it relies on.
