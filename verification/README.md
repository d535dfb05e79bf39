# lrcget

The storage layer of a lyrics manager's music library, verified with Verus.

The library decides what is sent to the SQLite database and what is made of
what comes back; the connection itself is driven by `app/`.

- `src/sql.rs`: bound values and statements, with their models.
- `src/entities.rs`: tracks, albums, artists, settings, and the decoding of
  track rows.
- `src/schema.rs`: the schema versions, the upgrade plan, the work of each
  step (one transaction per step) and their laws.
- `src/queries.rs`: one statement builder per read or write of the library.
- `src/import.rs`: adding scanned tracks as a state machine (look up or add
  the artist, then the album, then insert the track), with its laws.
- `src/pattern.rs`: the instrumental marker of synced lyrics, matched with
  the `regex` crate.
- `app/lib.rs`: opening, upgrading and querying the database with
  `rusqlite`.
