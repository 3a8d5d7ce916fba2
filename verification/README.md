# weiback

The rules behind a local archive of microblog posts: what is collected, how it is merged into what
is already stored, when an account is refreshed or has to wait, how media are fetched and kept, and
how data are imported, backed up and restored.

`src/` is a Verus library. Every function in it states what it returns or changes, and Verus proves
it. It does no input or output: where the work alternates with the outside (a helper process, a
database, a download), the library holds a state machine that says what to do next, and takes in
what came of it.

- `text`, `paths`, `hash`, `json`, `web`: strings, paths of Unix and of Windows, digests, JSON trees
  and addresses.
- `sidecar`: the line protocol of the helper process, its supervision, what its events carry, and
  the run of one collection.
- `sync_executor`, `rate_limit`, `refresh_scheduler`: durable jobs, the workers that run them,
  waiting times, and which users are due.
- `storage`, `sqlite_write`, `models`: what a stored row becomes when new data arrive, and what a
  commit makes of the archive as a whole.
- `media_pipeline`: which addresses may be fetched, names of stored files, previews.
- `legacy`, `user_backup`: imports of older archives, backups, restores and how they are undone.
- `service`, `commands`, `config`: tasks, shutdown, diagnostics, and the checks on what is entered.

The few functions of other crates that the library calls (JSON, URLs, images, identifiers, SHA-256)
are declared beside their callers, with a comment on what is taken for granted of each.

`app/` is the program around the library: arguments, files, the database, the network and the helper
process. `tests/` runs the library.
