# media

A personal media collection (books, films, games, links and television
shows) served over HTTP, with export and import of the whole collection.

The library under `src/` is verified with Verus. It holds the record types
and their partial updates, the statements that list records, the assembly of
database rows into records, the error responses of the web layer, the
configuration merge, and the plans for dumping and loading a collection,
each with its contract; the laws that relate them (identifier storage round
trips, patch and merge laws, idempotent loads, and that loading a dump
restores the collection it was read from) are proof functions.

`app/` is the program around it: command-line parsing, the SQLite database,
the HTTP server and the file I/O of the `dump` and `load` subcommands.

Layout:

- `src/item.rs`, `src/book.rs`, `src/film.rs`, `src/game/`, `src/link.rs`,
  `src/show.rs`, `src/logs.rs`: records, request bodies and patches.
- `src/kind/`, `src/games/`: the record shapes of the listing routes.
- `src/db.rs`: rows grouped into records.
- `src/axum/`, `src/exe/serve/`: error responses, authentication, listing
  statements.
- `src/exe/dump/`, `src/exe/load/`: export formats and the import plan.
- `src/cfg.rs`, `src/dir.rs`: configuration and its location.
- `tests/`: tests of the library on concrete values.
