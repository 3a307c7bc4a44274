# atelier_adapter_database

The storage and desktop boundary of the Atelier workspace, as a Verus library.

- `src/` is verified: the stored texts and records of every vocabulary and
  their decoders, the JSON rewrites of the schema migrations, the plans of the
  upgrades and deletions the database runs, the resource catalog's commit, the
  resource library's deletion and path rules, the transaction lock's state
  machine, and the desktop path policy. Each public function states its result
  in its contract; the laws that relate several functions are public proof
  functions (`lemma_*`).
- `app/` runs those plans against SQLite (`rusqlite`), reads and writes JSON
  text (`serde_json`), resolves host paths and drives the async transaction
  lock. It makes no decision of its own.
- `tests/` exercises the library on concrete values.
