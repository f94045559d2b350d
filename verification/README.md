# exonum_tx

Verified transaction results for an Exonum-style blockchain, written in Verus.

- `src/error.rs` — `ExecutionError`, `TransactionErrorType`, `TransactionError`,
  the conversion between them and the text that describes an error.
- `src/result.rs` — `TransactionResult`: its status code, its stored byte form
  (`into_bytes` / `from_bytes`, proved to round-trip) and its hash, which
  depends on the status only.
- `src/panic.rs` — descriptions drawn from panic payloads.
- `src/context.rs` — the context a transaction executes in and the
  `Transaction` interface, over any storage type.
- `src/digest.rs` — the SHA-256 digest (from the `sha2` crate).
- `app/lib.rs` — classifies a caught panic's `dyn Any` payload for the library.
