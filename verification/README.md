# platform2c

The logic of a configurable document and event platform for small
businesses, written in Verus: every function in `src/` carries a contract
that Verus proves.

- `src/` — the verified library: permissions and policies, the document
  lifecycle with optimistic locking, field validation, document numbering,
  event records and their stream versions, the audit trail, entity metadata and actions, the
  double-entry ledger (postings, reversals, periods, carry-forward) and its
  reports, module installation and the plugin host contract, notifications,
  serial devices, messaging, saved connections, sign-in decisions and
  session tokens.
  `src/trusted.rs` holds the few calls into outside crates (UUIDs, dates,
  hashing, hex, regular expressions, password hashing, JSON Web Tokens) with the contracts
  they are taken on trust with.
- `tests/` — tests that run the compiled library with the real outside crates.
- `app/` — the shell around the library: environment and files, the clock
  for session tokens, serial ports, plugin calls under a deadline, the runner
  of a command's frame, JSON on the wire. The database store, the desktop
  window and the plugin runtime are not part of this crate.
