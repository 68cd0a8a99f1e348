# memora

The verified core of Memora, a desktop clipboard manager: it classifies
captured text, hashes it (SHA-256) to find duplicates, organises clips in
workspaces and searches them, with SQLite (FTS5) as storage.

- `src/` — the library, verified with Verus.
  - `domain/` — content types and their persisted forms, clip metadata,
    clipboard entries, workspaces, content hashes, UTC timestamps, ids and
    errors.
  - `application/` — the use cases (saving a clip with deduplication,
    searching, managing workspaces), as the decisions taken between the
    calls to the repositories.
  - `infrastructure/` — what the commands compute, the rows of the SQLite
    tables and the statement of a listing, the full-text search term, the
    default database path and the event names.
  - `text.rs` — whitespace trimming, decimal rendering and text order.
- `tests/` — tests of the library on concrete values.
- `app/` — the Tauri shell: commands, the sqlx repositories and the
  asynchronous use cases that drive the library.
