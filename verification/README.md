# preflight

Preflight answers one question about a Solana program upgrade: is it safe to
deploy? It replays one fixed sequence of counter-program transactions against
two builds of a program inside an in-process Solana VM (litesvm), classifies
how each transaction's outcome changed, scores the upgrade out of 100 and
renders a Markdown report.

- `src/` is the library, verified with Verus: the fixture, the program's
  instruction and account layout, the replay, the comparison and score, and
  the Markdown report.
- `src/svm.rs` is the boundary with litesvm and the Solana SDK: the VM,
  signing keys and transactions, behind small trusted functions. The VM keeps
  a record of every call made into it (deployments, airdrops, rent and
  blockhash reads, sends with the VM's answers, account reads), so the
  replay's contract says exactly what was sent, in which order, at which
  blockhash and with which rent, that each result is the VM's answer to its
  transaction and the counter account read back after it, and, when a
  replay fails, which calls led to the failure. What the VM
  answers is the VM's own business and is not stated.
- `src/replay.rs` builds what is sent (`counter_instruction`,
  `counter_account_creation`, `counter_transaction`, `replay_keys`) and runs
  the replay (`replay_in`, `replay_bytes`, `replay_and_compare_in`,
  `replay_and_compare`).
- `src/upload.rs` picks the old and new builds out of an upload form's
  fields.
- `src/laws.rs` states what holds across the functions (identical runs score
  100, the score never rises as differences accumulate, swapping the builds
  mirrors each category, replays of one fixture always line up for
  comparison, ...).
- `app/` is the `preflight` command line: argument parsing, building the
  example programs with `cargo build-sbf`, reading and writing files, JSON,
  and terminal output.
- `tests/` exercises the library on concrete inputs, replays included.

An HTTP front end can serve the library as it stands: `upload::select_uploads`
picks the two builds from the form, `replay::replay_and_compare` replays and
compares them, and its errors name the build a replay failed against.
