# yrs_bindings

Bindings over the `yrs` CRDT library (a Rust implementation of Yjs) for a Dart
front end: documents with UTF-16 text offsets, map/array/text handles, an
atomic move-or-copy of one document entry, and an undo manager with
cancelable captures.

The library in `src/` is verified with Verus:

- `transfer` decides a transfer from facts read in one transaction (the
  refusal, or the writes), with its laws; `transfer_messages` renders every
  refusal exactly; `transfer_run` resolves paths, measures the source's
  nesting, and performs the plan, writing nothing unless it succeeds.
- `capture` holds the bookkeeping of cancelable undo captures (identifiers,
  and the stacks a finished or cancelled capture leaves) and its laws;
  `yrs_undo` runs it over yrs's undo manager.
- `values`, `yrs_doc`, `yrs_map`, `yrs_array`, `yrs_text` are the handles.
- `yrs_types`, `txn_calls`, `handle_calls`, `undo_calls`, `origin` and the
  quoting in `text` are the trusted boundary with `yrs`: each item names the
  yrs function it calls and states what is assumed of it.

`app/` adds what the library does not hold: locks, update callbacks,
doubles, destructors, and the panics yrs raises on out-of-range writes.
